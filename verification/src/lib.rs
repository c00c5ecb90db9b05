//! A minimal read-only virtual filesystem with a fixed three-inode namespace:
//! a root directory holding two symlinks, `store` and `var`, whose targets
//! resolve per request to `<caller's home>/nix/store` and `<caller's home>/nix/var`.
use vstd::prelude::*;

pub mod attrs;
pub mod driver;
pub mod identity;

verus! {

/// Seconds for which a caller may cache any attribute or entry response
/// before asking again.
pub const TTL_SECS: u64 = 1;

} // verus!

//! Identity resolution: mapping a caller's numeric user id to the byte string
//! of that user's home directory, with a fixed fallback when the account
//! cannot be resolved, and building the two symlink targets
//! `<home>/nix/store` and `<home>/nix/var` from it.
use vstd::prelude::*;

verus! {

/// The fallback home-directory bytes, `UNKNOWN_HOME`, used whenever the
/// caller's account cannot be resolved.
pub open spec fn unknown_home_spec() -> Seq<u8> {
    seq![
        'U' as u8,
        'N' as u8,
        'K' as u8,
        'N' as u8,
        'O' as u8,
        'W' as u8,
        'N' as u8,
        '_' as u8,
        'H' as u8,
        'O' as u8,
        'M' as u8,
        'E' as u8,
    ]
}

/// The suffix `/nix/store` appended to the resolved home directory.
pub open spec fn store_suffix_spec() -> Seq<u8> {
    seq![
        '/' as u8,
        'n' as u8,
        'i' as u8,
        'x' as u8,
        '/' as u8,
        's' as u8,
        't' as u8,
        'o' as u8,
        'r' as u8,
        'e' as u8,
    ]
}

/// The suffix `/nix/var` appended to the resolved home directory.
pub open spec fn var_suffix_spec() -> Seq<u8> {
    seq![
        '/' as u8,
        'n' as u8,
        'i' as u8,
        'x' as u8,
        '/' as u8,
        'v' as u8,
        'a' as u8,
        'r' as u8,
    ]
}

/// The view of an optional home-directory byte string.
pub open spec fn opt_bytes_view(home: Option<Vec<u8>>) -> Option<Seq<u8>> {
    match home {
        Some(h) => Some(h@),
        None => None,
    }
}

/// The home directory a caller is taken to have: the resolved one when the
/// account lookup succeeded, the fixed fallback otherwise.
pub open spec fn resolve_home_spec(home: Option<Seq<u8>>) -> Seq<u8> {
    match home {
        Some(h) => h,
        None => unknown_home_spec(),
    }
}

/// The bytes the `store` symlink resolves to for a caller with the given
/// (optional) home directory.
pub open spec fn store_target_spec(home: Option<Seq<u8>>) -> Seq<u8> {
    resolve_home_spec(home) + store_suffix_spec()
}

/// The bytes the `var` symlink resolves to for a caller with the given
/// (optional) home directory.
pub open spec fn var_target_spec(home: Option<Seq<u8>>) -> Seq<u8> {
    resolve_home_spec(home) + var_suffix_spec()
}

/// Relies on `nix::unistd::User::from_uid` (getpwuid_r): `Ok(Some(user))`
/// carries the account record, whose `dir` field is the home directory.
/// Any lookup failure, absent account, or home directory that is not valid
/// UTF-8 collapses to `None`. The result depends on the host's account
/// database, so nothing is promised of it.
#[verifier::external_body]
pub(crate) fn lookup_home_dir(uid: u32) -> Option<Vec<u8>> {
    let user = nix::unistd::User::from_uid(nix::unistd::Uid::from_raw(uid)).ok()??;
    Some(user.dir.to_str()?.as_bytes().to_vec())
}

fn unknown_home() -> (r: Vec<u8>)
    ensures
        r@ == unknown_home_spec(),
{
    let mut v: Vec<u8> = Vec::new();
    v.push('U' as u8);
    v.push('N' as u8);
    v.push('K' as u8);
    v.push('N' as u8);
    v.push('O' as u8);
    v.push('W' as u8);
    v.push('N' as u8);
    v.push('_' as u8);
    v.push('H' as u8);
    v.push('O' as u8);
    v.push('M' as u8);
    v.push('E' as u8);
    proof {
        assert(v@ =~= unknown_home_spec());
    }
    v
}

fn store_suffix() -> (r: Vec<u8>)
    ensures
        r@ == store_suffix_spec(),
{
    let mut v: Vec<u8> = Vec::new();
    v.push('/' as u8);
    v.push('n' as u8);
    v.push('i' as u8);
    v.push('x' as u8);
    v.push('/' as u8);
    v.push('s' as u8);
    v.push('t' as u8);
    v.push('o' as u8);
    v.push('r' as u8);
    v.push('e' as u8);
    proof {
        assert(v@ =~= store_suffix_spec());
    }
    v
}

fn var_suffix() -> (r: Vec<u8>)
    ensures
        r@ == var_suffix_spec(),
{
    let mut v: Vec<u8> = Vec::new();
    v.push('/' as u8);
    v.push('n' as u8);
    v.push('i' as u8);
    v.push('x' as u8);
    v.push('/' as u8);
    v.push('v' as u8);
    v.push('a' as u8);
    v.push('r' as u8);
    proof {
        assert(v@ =~= var_suffix_spec());
    }
    v
}

/// Appends every byte of `src` to `dst`, in order.
fn append_bytes(dst: &mut Vec<u8>, src: &Vec<u8>)
    ensures
        final(dst)@ == old(dst)@ + src@,
{
    let mut i: usize = 0;
    while i < src.len()
        invariant
            i <= src@.len(),
            dst@ == old(dst)@ + src@.subrange(0, i as int),
        decreases src@.len() - i,
    {
        dst.push(src[i]);
        i = i + 1;
        proof {
            assert(old(dst)@ + src@.subrange(0, i as int) =~= (old(dst)@ + src@.subrange(
                0,
                i - 1,
            )).push(src@[i - 1]));
        }
    }
    proof {
        assert(old(dst)@ + src@.subrange(0, src@.len() as int) =~= old(dst)@ + src@);
    }
}

/// The home directory the caller is taken to have: never fails, falling back
/// to the fixed `UNKNOWN_HOME` bytes when the account lookup did not produce
/// one.
pub fn resolve_home(home: Option<Vec<u8>>) -> (r: Vec<u8>)
    ensures
        r@ == resolve_home_spec(opt_bytes_view(home)),
{
    match home {
        Some(h) => h,
        None => unknown_home(),
    }
}

/// The `store` symlink target for a caller with the given (optional) home
/// directory: the resolved home followed by `/nix/store`.
pub fn store_target_from_home(home: Option<Vec<u8>>) -> (r: Vec<u8>)
    ensures
        r@ == store_target_spec(opt_bytes_view(home)),
{
    let mut target = resolve_home(home);
    let suffix = store_suffix();
    append_bytes(&mut target, &suffix);
    target
}

/// The `var` symlink target for a caller with the given (optional) home
/// directory: the resolved home followed by `/nix/var`.
pub fn var_target_from_home(home: Option<Vec<u8>>) -> (r: Vec<u8>)
    ensures
        r@ == var_target_spec(opt_bytes_view(home)),
{
    let mut target = resolve_home(home);
    let suffix = var_suffix();
    append_bytes(&mut target, &suffix);
    target
}

/// The `store` symlink target for the calling user id, resolved freshly
/// against the host account database: some home directory (or the fallback)
/// followed by `/nix/store`.
pub fn get_store_target(uid: u32) -> (r: Vec<u8>)
    ensures
        exists|h: Option<Seq<u8>>| r@ == store_target_spec(h),
        r@.len() >= store_suffix_spec().len(),
        r@.skip(r@.len() - store_suffix_spec().len()) == store_suffix_spec(),
{
    let home = lookup_home_dir(uid);
    let ghost h = opt_bytes_view(home);
    let target = store_target_from_home(home);
    proof {
        assert(target@ == store_target_spec(h));
        assert(target@.skip(target@.len() - store_suffix_spec().len()) =~= store_suffix_spec());
    }
    target
}

/// The `var` symlink target for the calling user id, resolved freshly
/// against the host account database: some home directory (or the fallback)
/// followed by `/nix/var`.
pub fn get_var_target(uid: u32) -> (r: Vec<u8>)
    ensures
        exists|h: Option<Seq<u8>>| r@ == var_target_spec(h),
        r@.len() >= var_suffix_spec().len(),
        r@.skip(r@.len() - var_suffix_spec().len()) == var_suffix_spec(),
{
    let home = lookup_home_dir(uid);
    let ghost h = opt_bytes_view(home);
    let target = var_target_from_home(home);
    proof {
        assert(target@ == var_target_spec(h));
        assert(target@.skip(target@.len() - var_suffix_spec().len()) =~= var_suffix_spec());
    }
    target
}

/// For every resolvable home directory, the symlink targets are exactly that
/// home directory followed by `/nix/store`, respectively `/nix/var`.
pub proof fn lemma_resolved_targets(h: Seq<u8>)
    ensures
        store_target_spec(Some(h)) == h + store_suffix_spec(),
        var_target_spec(Some(h)) == h + var_suffix_spec(),
{
}

/// For every caller with no resolvable home directory, both symlink targets
/// begin with the literal fallback bytes `UNKNOWN_HOME`.
pub proof fn lemma_unresolved_targets_fallback_prefix()
    ensures
        store_target_spec(None).len() >= unknown_home_spec().len(),
        store_target_spec(None).take(unknown_home_spec().len() as int) == unknown_home_spec(),
        var_target_spec(None).len() >= unknown_home_spec().len(),
        var_target_spec(None).take(unknown_home_spec().len() as int) == unknown_home_spec(),
{
    assert(store_target_spec(None).take(unknown_home_spec().len() as int)
        =~= unknown_home_spec());
    assert(var_target_spec(None).take(unknown_home_spec().len() as int) =~= unknown_home_spec());
}

} // verus!

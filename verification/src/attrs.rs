//! The namespace table: the fixed mapping of the three inodes (root
//! directory, `store` symlink, `var` symlink) to fully populated attribute
//! records, built per request from the caller's identity.
use vstd::prelude::*;
use crate::identity::{
    lookup_home_dir, opt_bytes_view, store_target_from_home, store_target_spec,
    var_target_from_home, var_target_spec,
};

verus! {

/// The inode number of the root directory.
pub const ROOT_INO: u64 = 1;

/// The inode number of the `store` symlink.
pub const STORE_INO: u64 = 2;

/// The inode number of the `var` symlink.
pub const VAR_INO: u64 = 3;

/// The kind of a namespace entry: this filesystem holds nothing but its root
/// directory and two symlinks.
#[derive(Clone, Copy, Debug, PartialEq, Eq)]
pub enum FileKind {
    Directory,
    Symlink,
}

/// A fully populated attribute record for one inode, as handed to the
/// filesystem transport. All four timestamps are pinned to the zero instant
/// (seconds since the epoch).
#[derive(Clone, Copy, Debug, PartialEq, Eq)]
pub struct Attr {
    pub ino: u64,
    pub size: u64,
    pub blocks: u64,
    pub atime_secs: u64,
    pub mtime_secs: u64,
    pub ctime_secs: u64,
    pub crtime_secs: u64,
    pub kind: FileKind,
    pub perm: u16,
    pub nlink: u32,
    pub uid: u32,
    pub gid: u32,
    pub rdev: u32,
    pub flags: u32,
    pub blksize: u32,
}

/// The root directory's attributes for a caller: kind, permissions, link
/// count and size are fixed; ownership reflects the caller.
pub open spec fn dir_attr_spec(uid: u32, gid: u32) -> Attr {
    Attr {
        ino: ROOT_INO,
        size: 0,
        blocks: 0,
        atime_secs: 0,
        mtime_secs: 0,
        ctime_secs: 0,
        crtime_secs: 0,
        kind: FileKind::Directory,
        perm: 0o755,
        nlink: 2,
        uid,
        gid,
        rdev: 0,
        flags: 0,
        blksize: 512,
    }
}

/// The `store` symlink's attributes for a caller with the given (optional)
/// home directory: size is the byte length of the resolved target.
pub open spec fn store_attr_spec(uid: u32, gid: u32, home: Option<Seq<u8>>) -> Attr {
    Attr {
        ino: STORE_INO,
        size: store_target_spec(home).len() as u64,
        blocks: 1,
        atime_secs: 0,
        mtime_secs: 0,
        ctime_secs: 0,
        crtime_secs: 0,
        kind: FileKind::Symlink,
        perm: 0o777,
        nlink: 1,
        uid,
        gid,
        rdev: 0,
        flags: 0,
        blksize: 512,
    }
}

/// The `var` symlink's attributes for a caller with the given (optional)
/// home directory: size is the byte length of the resolved target.
pub open spec fn var_attr_spec(uid: u32, gid: u32, home: Option<Seq<u8>>) -> Attr {
    Attr {
        ino: VAR_INO,
        size: var_target_spec(home).len() as u64,
        blocks: 1,
        atime_secs: 0,
        mtime_secs: 0,
        ctime_secs: 0,
        crtime_secs: 0,
        kind: FileKind::Symlink,
        perm: 0o777,
        nlink: 1,
        uid,
        gid,
        rdev: 0,
        flags: 0,
        blksize: 512,
    }
}

/// The root directory's attribute record for the given caller.
pub fn get_dir_attr(uid: u32, gid: u32) -> (r: Attr)
    ensures
        r == dir_attr_spec(uid, gid),
{
    Attr {
        ino: ROOT_INO,
        size: 0,
        blocks: 0,
        atime_secs: 0,
        mtime_secs: 0,
        ctime_secs: 0,
        crtime_secs: 0,
        kind: FileKind::Directory,
        perm: 0o755,
        nlink: 2,
        uid,
        gid,
        rdev: 0,
        flags: 0,
        blksize: 512,
    }
}

/// The `store` symlink's attribute record for the given caller and
/// (optional) home directory.
pub fn store_attr_from_home(uid: u32, gid: u32, home: Option<Vec<u8>>) -> (r: Attr)
    ensures
        r == store_attr_spec(uid, gid, opt_bytes_view(home)),
{
    let target = store_target_from_home(home);
    Attr {
        ino: STORE_INO,
        size: target.len() as u64,
        blocks: 1,
        atime_secs: 0,
        mtime_secs: 0,
        ctime_secs: 0,
        crtime_secs: 0,
        kind: FileKind::Symlink,
        perm: 0o777,
        nlink: 1,
        uid,
        gid,
        rdev: 0,
        flags: 0,
        blksize: 512,
    }
}

/// The `var` symlink's attribute record for the given caller and (optional)
/// home directory.
pub fn var_attr_from_home(uid: u32, gid: u32, home: Option<Vec<u8>>) -> (r: Attr)
    ensures
        r == var_attr_spec(uid, gid, opt_bytes_view(home)),
{
    let target = var_target_from_home(home);
    Attr {
        ino: VAR_INO,
        size: target.len() as u64,
        blocks: 1,
        atime_secs: 0,
        mtime_secs: 0,
        ctime_secs: 0,
        crtime_secs: 0,
        kind: FileKind::Symlink,
        perm: 0o777,
        nlink: 1,
        uid,
        gid,
        rdev: 0,
        flags: 0,
        blksize: 512,
    }
}

/// The `store` symlink's attribute record for the calling user id, its home
/// directory resolved freshly against the host account database.
pub fn get_store_attr(uid: u32, gid: u32) -> (r: Attr)
    ensures
        exists|h: Option<Seq<u8>>| r == store_attr_spec(uid, gid, h),
        r.ino == STORE_INO && r.kind == FileKind::Symlink && r.perm == 0o777 && r.nlink == 1,
        r.uid == uid && r.gid == gid,
{
    let home = lookup_home_dir(uid);
    let ghost h = opt_bytes_view(home);
    let attr = store_attr_from_home(uid, gid, home);
    proof {
        assert(attr == store_attr_spec(uid, gid, h));
    }
    attr
}

/// The `var` symlink's attribute record for the calling user id, its home
/// directory resolved freshly against the host account database.
pub fn get_var_attr(uid: u32, gid: u32) -> (r: Attr)
    ensures
        exists|h: Option<Seq<u8>>| r == var_attr_spec(uid, gid, h),
        r.ino == VAR_INO && r.kind == FileKind::Symlink && r.perm == 0o777 && r.nlink == 1,
        r.uid == uid && r.gid == gid,
{
    let home = lookup_home_dir(uid);
    let ghost h = opt_bytes_view(home);
    let attr = var_attr_from_home(uid, gid, home);
    proof {
        assert(attr == var_attr_spec(uid, gid, h));
    }
    attr
}

/// The root directory's attributes are independent of the caller in every
/// field but the ownership pair, which reflects exactly the requesting
/// identity: two requesters see identical kind, permissions, link count and
/// size, and each sees their own uid and gid.
pub proof fn lemma_dir_attr_caller_independent(uid1: u32, gid1: u32, uid2: u32, gid2: u32)
    ensures
        dir_attr_spec(uid1, gid1).kind == dir_attr_spec(uid2, gid2).kind,
        dir_attr_spec(uid1, gid1).perm == dir_attr_spec(uid2, gid2).perm,
        dir_attr_spec(uid1, gid1).nlink == dir_attr_spec(uid2, gid2).nlink,
        dir_attr_spec(uid1, gid1).size == dir_attr_spec(uid2, gid2).size,
        dir_attr_spec(uid1, gid1).kind == FileKind::Directory,
        dir_attr_spec(uid1, gid1).size == 0,
        dir_attr_spec(uid1, gid1).uid == uid1,
        dir_attr_spec(uid1, gid1).gid == gid1,
{
}

} // verus!

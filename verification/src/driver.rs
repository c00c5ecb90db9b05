//! The filesystem driver: the four operations (lookup-by-name,
//! get-attributes, read-symlink-target, list-directory) dispatching over the
//! fixed three-inode namespace. Every operation is a pure function of the
//! inode (or parent/name pair), the requesting identity, and the caller's
//! resolved home directory; the driver holds no state between calls.
use vstd::prelude::*;
use crate::attrs::{
    dir_attr_spec, get_dir_attr, store_attr_from_home, store_attr_spec, var_attr_from_home,
    var_attr_spec, Attr, FileKind, ROOT_INO, STORE_INO, VAR_INO,
};
use crate::identity::{
    lookup_home_dir, opt_bytes_view, store_suffix_spec, store_target_from_home, store_target_spec,
    var_suffix_spec, var_target_from_home, var_target_spec,
};

verus! {

/// The one error this filesystem reports: the inode or name lies outside the
/// fixed three-entry namespace (the POSIX `ENOENT` signal).
#[derive(Clone, Copy, Debug, PartialEq, Eq)]
pub enum FsError {
    NotFound,
}

/// One entry of a directory listing: its inode, kind, the cursor a listing
/// may resume from after it (its 1-based position), and its name.
#[derive(Clone, Debug, PartialEq, Eq)]
pub struct DirEntry {
    pub ino: u64,
    pub kind: FileKind,
    pub next_offset: i64,
    pub name: Vec<u8>,
}

/// The name `store`, as bytes.
pub open spec fn store_name_spec() -> Seq<u8> {
    seq!['s' as u8, 't' as u8, 'o' as u8, 'r' as u8, 'e' as u8]
}

/// The name `var`, as bytes.
pub open spec fn var_name_spec() -> Seq<u8> {
    seq!['v' as u8, 'a' as u8, 'r' as u8]
}

/// The name `.`, as bytes.
pub open spec fn dot_name_spec() -> Seq<u8> {
    seq!['.' as u8]
}

/// The name `..`, as bytes.
pub open spec fn dot_dot_name_spec() -> Seq<u8> {
    seq!['.' as u8, '.' as u8]
}

/// What lookup-by-name returns: the child's attributes when the parent is
/// the root directory and the name is `store` or `var`, not-found otherwise.
pub open spec fn lookup_spec(
    parent: u64,
    name: Seq<u8>,
    uid: u32,
    gid: u32,
    home: Option<Seq<u8>>,
) -> Result<Attr, FsError> {
    if parent == ROOT_INO && name == store_name_spec() {
        Ok(store_attr_spec(uid, gid, home))
    } else if parent == ROOT_INO && name == var_name_spec() {
        Ok(var_attr_spec(uid, gid, home))
    } else {
        Err(FsError::NotFound)
    }
}

/// What get-attributes returns: the attribute record of the root directory
/// or of one of the two symlinks, not-found for every other inode.
pub open spec fn getattr_spec(ino: u64, uid: u32, gid: u32, home: Option<Seq<u8>>) -> Result<
    Attr,
    FsError,
> {
    if ino == ROOT_INO {
        Ok(dir_attr_spec(uid, gid))
    } else if ino == STORE_INO {
        Ok(store_attr_spec(uid, gid, home))
    } else if ino == VAR_INO {
        Ok(var_attr_spec(uid, gid, home))
    } else {
        Err(FsError::NotFound)
    }
}

/// What read-symlink-target returns: the resolved target bytes for the two
/// symlink inodes, not-found for every other inode (the root directory is
/// not a symlink).
pub open spec fn readlink_spec(ino: u64, home: Option<Seq<u8>>) -> Result<Seq<u8>, FsError> {
    if ino == STORE_INO {
        Ok(store_target_spec(home))
    } else if ino == VAR_INO {
        Ok(var_target_spec(home))
    } else {
        Err(FsError::NotFound)
    }
}

/// The view of a read-symlink-target result.
pub open spec fn readlink_result_view(r: Result<Vec<u8>, FsError>) -> Result<Seq<u8>, FsError> {
    match r {
        Ok(v) => Ok(v@),
        Err(e) => Err(e),
    }
}

/// The inode of the directory entry at 0-based position `i` of the root
/// listing `[".", "..", "store", "var"]`.
pub open spec fn listing_ino(i: int) -> u64 {
    if i == 0 || i == 1 {
        ROOT_INO
    } else if i == 2 {
        STORE_INO
    } else {
        VAR_INO
    }
}

/// The kind of the directory entry at 0-based position `i` of the root
/// listing.
pub open spec fn listing_kind(i: int) -> FileKind {
    if i == 0 || i == 1 {
        FileKind::Directory
    } else {
        FileKind::Symlink
    }
}

/// The name of the directory entry at 0-based position `i` of the root
/// listing.
pub open spec fn listing_name(i: int) -> Seq<u8> {
    if i == 0 {
        dot_name_spec()
    } else if i == 1 {
        dot_dot_name_spec()
    } else if i == 2 {
        store_name_spec()
    } else {
        var_name_spec()
    }
}

/// The listed entry `e` is exactly the root listing's entry at 0-based
/// position `i`, carrying `i + 1` as the resumption cursor.
pub open spec fn entry_matches(e: DirEntry, i: int) -> bool {
    &&& e.ino == listing_ino(i)
    &&& e.kind == listing_kind(i)
    &&& e.name@ == listing_name(i)
    &&& e.next_offset == i + 1
}

/// How many leading entries of the four-entry root listing a listing cursor
/// skips: the offset itself when it addresses the listing, everything
/// otherwise (a cursor past the end, or a negative one, yields nothing).
pub open spec fn skip_of(offset: i64) -> int {
    if 0 <= offset <= 4 {
        offset as int
    } else {
        4
    }
}

/// Byte-string equality.
fn bytes_eq(a: &[u8], b: &[u8]) -> (r: bool)
    ensures
        r == (a@ == b@),
{
    if a.len() != b.len() {
        return false;
    }
    let mut i: usize = 0;
    while i < a.len()
        invariant
            a@.len() == b@.len(),
            i <= a@.len(),
            forall|j: int| 0 <= j < i ==> a@[j] == b@[j],
        decreases a@.len() - i,
    {
        if a[i] != b[i] {
            return false;
        }
        i = i + 1;
    }
    proof {
        assert(a@ =~= b@);
    }
    true
}

fn store_name() -> (r: Vec<u8>)
    ensures
        r@ == store_name_spec(),
{
    let mut v: Vec<u8> = Vec::new();
    v.push('s' as u8);
    v.push('t' as u8);
    v.push('o' as u8);
    v.push('r' as u8);
    v.push('e' as u8);
    proof {
        assert(v@ =~= store_name_spec());
    }
    v
}

fn var_name() -> (r: Vec<u8>)
    ensures
        r@ == var_name_spec(),
{
    let mut v: Vec<u8> = Vec::new();
    v.push('v' as u8);
    v.push('a' as u8);
    v.push('r' as u8);
    proof {
        assert(v@ =~= var_name_spec());
    }
    v
}

fn dot_name() -> (r: Vec<u8>)
    ensures
        r@ == dot_name_spec(),
{
    let mut v: Vec<u8> = Vec::new();
    v.push('.' as u8);
    proof {
        assert(v@ =~= dot_name_spec());
    }
    v
}

fn dot_dot_name() -> (r: Vec<u8>)
    ensures
        r@ == dot_dot_name_spec(),
{
    let mut v: Vec<u8> = Vec::new();
    v.push('.' as u8);
    v.push('.' as u8);
    proof {
        assert(v@ =~= dot_dot_name_spec());
    }
    v
}

/// Lookup-by-name against an already resolved (optional) home directory.
pub fn lookup_at(parent: u64, name: &[u8], uid: u32, gid: u32, home: Option<Vec<u8>>) -> (r:
    Result<Attr, FsError>)
    ensures
        r == lookup_spec(parent, name@, uid, gid, opt_bytes_view(home)),
{
    if parent == ROOT_INO {
        let store = store_name();
        if bytes_eq(name, store.as_slice()) {
            return Ok(store_attr_from_home(uid, gid, home));
        }
        let var = var_name();
        if bytes_eq(name, var.as_slice()) {
            return Ok(var_attr_from_home(uid, gid, home));
        }
        return Err(FsError::NotFound);
    }
    Err(FsError::NotFound)
}

/// Get-attributes against an already resolved (optional) home directory.
pub fn getattr_at(ino: u64, uid: u32, gid: u32, home: Option<Vec<u8>>) -> (r: Result<
    Attr,
    FsError,
>)
    ensures
        r == getattr_spec(ino, uid, gid, opt_bytes_view(home)),
{
    if ino == ROOT_INO {
        Ok(get_dir_attr(uid, gid))
    } else if ino == STORE_INO {
        Ok(store_attr_from_home(uid, gid, home))
    } else if ino == VAR_INO {
        Ok(var_attr_from_home(uid, gid, home))
    } else {
        Err(FsError::NotFound)
    }
}

/// Read-symlink-target against an already resolved (optional) home
/// directory.
pub fn readlink_at(ino: u64, home: Option<Vec<u8>>) -> (r: Result<Vec<u8>, FsError>)
    ensures
        readlink_result_view(r) == readlink_spec(ino, opt_bytes_view(home)),
{
    if ino == STORE_INO {
        Ok(store_target_from_home(home))
    } else if ino == VAR_INO {
        Ok(var_target_from_home(home))
    } else {
        Err(FsError::NotFound)
    }
}

/// List-directory: the root listing `[".", "..", "store", "var"]` from the
/// given cursor on, each entry carrying its 1-based position as the next
/// cursor; not-found for any inode but the root.
pub fn readdir_at(ino: u64, offset: i64) -> (r: Result<Vec<DirEntry>, FsError>)
    ensures
        r is Ok <==> ino == ROOT_INO,
        ino != ROOT_INO ==> r == Err::<Vec<DirEntry>, FsError>(FsError::NotFound),
        ino == ROOT_INO ==> (r matches Ok(es) && es@.len() == 4 - skip_of(offset) && forall|
            j: int,
        | 0 <= j < es@.len() ==> entry_matches(#[trigger] es@[j], j + skip_of(offset))),
{
    if ino != ROOT_INO {
        return Err(FsError::NotFound);
    }
    let skip: i64 = if offset < 0 || offset > 4 {
        4
    } else {
        offset
    };
    let mut entries: Vec<DirEntry> = Vec::new();
    if skip <= 0 {
        entries.push(
            DirEntry { ino: ROOT_INO, kind: FileKind::Directory, next_offset: 1, name: dot_name() },
        );
    }
    if skip <= 1 {
        entries.push(
            DirEntry {
                ino: ROOT_INO,
                kind: FileKind::Directory,
                next_offset: 2,
                name: dot_dot_name(),
            },
        );
    }
    if skip <= 2 {
        entries.push(
            DirEntry {
                ino: STORE_INO,
                kind: FileKind::Symlink,
                next_offset: 3,
                name: store_name(),
            },
        );
    }
    if skip <= 3 {
        entries.push(
            DirEntry { ino: VAR_INO, kind: FileKind::Symlink, next_offset: 4, name: var_name() },
        );
    }
    proof {
        assert(entries@.len() == 4 - skip_of(offset));
    }
    Ok(entries)
}

/// The filesystem driver. It carries no fields: every operation is a pure
/// function of its arguments, so concurrent calls have nothing to race over.
pub struct NixHomeFS;

impl NixHomeFS {
    /// Lookup-by-name for the calling identity, the caller's home directory
    /// resolved freshly against the host account database.
    pub fn lookup(&self, parent: u64, name: &[u8], uid: u32, gid: u32) -> (r: Result<
        Attr,
        FsError,
    >)
        ensures
            exists|h: Option<Seq<u8>>| r == lookup_spec(parent, name@, uid, gid, h),
            r is Ok <==> parent == ROOT_INO && (name@ == store_name_spec() || name@
                == var_name_spec()),
            r matches Ok(a) ==> a.kind == FileKind::Symlink && a.perm == 0o777 && a.nlink == 1
                && a.uid == uid && a.gid == gid,
            parent == ROOT_INO && name@ == store_name_spec() ==> (r matches Ok(a) && a.ino
                == STORE_INO),
            parent == ROOT_INO && name@ == var_name_spec() ==> (r matches Ok(a) && a.ino
                == VAR_INO),
    {
        let home = lookup_home_dir(uid);
        let ghost h = opt_bytes_view(home);
        let r = lookup_at(parent, name, uid, gid, home);
        proof {
            assert(r == lookup_spec(parent, name@, uid, gid, h));
        }
        r
    }

    /// Get-attributes for the calling identity, the caller's home directory
    /// resolved freshly against the host account database.
    pub fn getattr(&self, ino: u64, uid: u32, gid: u32) -> (r: Result<Attr, FsError>)
        ensures
            exists|h: Option<Seq<u8>>| r == getattr_spec(ino, uid, gid, h),
            r is Ok <==> (ino == ROOT_INO || ino == STORE_INO || ino == VAR_INO),
            ino == ROOT_INO ==> r == Ok::<Attr, FsError>(dir_attr_spec(uid, gid)),
            ino == STORE_INO || ino == VAR_INO ==> (r matches Ok(a) && a.ino == ino && a.kind
                == FileKind::Symlink && a.perm == 0o777 && a.nlink == 1 && a.uid == uid && a.gid
                == gid),
    {
        let home = lookup_home_dir(uid);
        let ghost h = opt_bytes_view(home);
        let r = getattr_at(ino, uid, gid, home);
        proof {
            assert(r == getattr_spec(ino, uid, gid, h));
        }
        r
    }

    /// Read-symlink-target for the calling identity, the caller's home
    /// directory resolved freshly against the host account database.
    pub fn readlink(&self, ino: u64, uid: u32) -> (r: Result<Vec<u8>, FsError>)
        ensures
            exists|h: Option<Seq<u8>>| readlink_result_view(r) == readlink_spec(ino, h),
            r is Ok <==> (ino == STORE_INO || ino == VAR_INO),
            ino == STORE_INO ==> (r matches Ok(d) && d@.len() >= store_suffix_spec().len() && d@
                .skip(d@.len() - store_suffix_spec().len()) == store_suffix_spec()),
            ino == VAR_INO ==> (r matches Ok(d) && d@.len() >= var_suffix_spec().len() && d@.skip(
                d@.len() - var_suffix_spec().len(),
            ) == var_suffix_spec()),
    {
        let home = lookup_home_dir(uid);
        let ghost h = opt_bytes_view(home);
        let r = readlink_at(ino, home);
        proof {
            assert(readlink_result_view(r) == readlink_spec(ino, h));
            match &r {
                Ok(d) => {
                    if ino == STORE_INO {
                        assert(d@.skip(d@.len() - store_suffix_spec().len())
                            =~= store_suffix_spec());
                    }
                    if ino == VAR_INO {
                        assert(d@.skip(d@.len() - var_suffix_spec().len()) =~= var_suffix_spec());
                    }
                },
                Err(_) => {},
            }
        }
        r
    }

    /// List-directory; the listing depends on nothing but the inode and the
    /// cursor.
    pub fn readdir(&self, ino: u64, offset: i64) -> (r: Result<Vec<DirEntry>, FsError>)
        ensures
            r is Ok <==> ino == ROOT_INO,
            ino != ROOT_INO ==> r == Err::<Vec<DirEntry>, FsError>(FsError::NotFound),
            ino == ROOT_INO ==> (r matches Ok(es) && es@.len() == 4 - skip_of(offset) && forall|
                j: int,
            | 0 <= j < es@.len() ==> entry_matches(#[trigger] es@[j], j + skip_of(offset))),
    {
        readdir_at(ino, offset)
    }
}

/// Lookup-by-name of `store` under the root and get-attributes of the
/// `store` inode agree: for one caller and one resolved home directory they
/// return the same attribute record, whose size is the byte length of the
/// resolved `store` target.
pub proof fn lemma_lookup_getattr_agree(uid: u32, gid: u32, home: Option<Seq<u8>>)
    ensures
        lookup_spec(ROOT_INO, store_name_spec(), uid, gid, home) == getattr_spec(
            STORE_INO,
            uid,
            gid,
            home,
        ),
        getattr_spec(STORE_INO, uid, gid, home) == Ok::<Attr, FsError>(
            store_attr_spec(uid, gid, home),
        ),
        store_attr_spec(uid, gid, home).size == store_target_spec(home).len() as u64,
{
}

/// Every operation against an inode outside the fixed namespace, a
/// lookup under any parent but the root, and a lookup of any name but
/// `store` and `var` report not-found; so does reading the root directory
/// as a symlink.
pub proof fn lemma_outside_namespace_not_found(
    ino: u64,
    parent: u64,
    name: Seq<u8>,
    uid: u32,
    gid: u32,
    home: Option<Seq<u8>>,
)
    ensures
        ino != ROOT_INO && ino != STORE_INO && ino != VAR_INO ==> getattr_spec(ino, uid, gid, home)
            == Err::<Attr, FsError>(FsError::NotFound),
        ino != STORE_INO && ino != VAR_INO ==> readlink_spec(ino, home) == Err::<Seq<u8>, FsError>(
            FsError::NotFound,
        ),
        parent != ROOT_INO || (name != store_name_spec() && name != var_name_spec())
            ==> lookup_spec(parent, name, uid, gid, home) == Err::<Attr, FsError>(
            FsError::NotFound,
        ),
        readlink_spec(ROOT_INO, home) == Err::<Seq<u8>, FsError>(FsError::NotFound),
{
}

/// Get-attributes is idempotent: two results of the same operation for the
/// same caller and the same resolved home directory are identical records —
/// no hidden state distinguishes the calls.
pub proof fn lemma_getattr_idempotent(
    r1: Result<Attr, FsError>,
    r2: Result<Attr, FsError>,
    ino: u64,
    uid: u32,
    gid: u32,
    home: Option<Seq<u8>>,
)
    requires
        r1 == getattr_spec(ino, uid, gid, home),
        r2 == getattr_spec(ino, uid, gid, home),
    ensures
        r1 == r2,
{
}

} // verus!

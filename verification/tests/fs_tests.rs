use nix_home_fs::attrs::{get_dir_attr, get_store_attr, get_var_attr, FileKind};
use nix_home_fs::driver::{getattr_at, lookup_at, readdir_at, readlink_at, FsError, NixHomeFS};
use nix_home_fs::identity::{
    get_store_target, get_var_target, resolve_home, store_target_from_home, var_target_from_home,
};
use nix_home_fs::TTL_SECS;

#[test]
fn resolved_home_store_target() {
    let target = store_target_from_home(Some(b"/home/alice".to_vec()));
    assert_eq!(target, b"/home/alice/nix/store".to_vec());
}

#[test]
fn resolved_home_var_target() {
    let target = var_target_from_home(Some(b"/home/alice".to_vec()));
    assert_eq!(target, b"/home/alice/nix/var".to_vec());
}

#[test]
fn resolved_home_readlink_targets() {
    let store = readlink_at(2, Some(b"/home/bob".to_vec())).unwrap();
    assert_eq!(store, b"/home/bob/nix/store".to_vec());
    let var = readlink_at(3, Some(b"/home/bob".to_vec())).unwrap();
    assert_eq!(var, b"/home/bob/nix/var".to_vec());
}

#[test]
fn unresolved_home_targets_use_fallback() {
    let store = store_target_from_home(None);
    assert!(store.starts_with(b"UNKNOWN_HOME"));
    assert_eq!(store, b"UNKNOWN_HOME/nix/store".to_vec());
    let var = var_target_from_home(None);
    assert!(var.starts_with(b"UNKNOWN_HOME"));
    assert_eq!(var, b"UNKNOWN_HOME/nix/var".to_vec());
    assert_eq!(resolve_home(None), b"UNKNOWN_HOME".to_vec());
}

#[test]
fn dir_attr_reflects_caller_ownership_only() {
    let a = get_dir_attr(1000, 100);
    let b = get_dir_attr(0, 0);
    assert_eq!(a.kind, FileKind::Directory);
    assert_eq!(a.kind, b.kind);
    assert_eq!(a.perm, b.perm);
    assert_eq!(a.nlink, b.nlink);
    assert_eq!(a.size, b.size);
    assert_eq!(a.perm, 0o755);
    assert_eq!(a.nlink, 2);
    assert_eq!(a.size, 0);
    assert_eq!(a.blocks, 0);
    assert_eq!(a.ino, 1);
    assert_eq!(a.blksize, 512);
    assert_eq!(a.atime_secs, 0);
    assert_eq!(a.mtime_secs, 0);
    assert_eq!(a.ctime_secs, 0);
    assert_eq!(a.crtime_secs, 0);
    assert_eq!(a.uid, 1000);
    assert_eq!(a.gid, 100);
    assert_eq!(b.uid, 0);
    assert_eq!(b.gid, 0);
}

#[test]
fn store_attr_fields() {
    let home = b"/home/carol".to_vec();
    let a = getattr_at(2, 7, 8, Some(home.clone())).unwrap();
    assert_eq!(a.ino, 2);
    assert_eq!(a.kind, FileKind::Symlink);
    assert_eq!(a.perm, 0o777);
    assert_eq!(a.nlink, 1);
    assert_eq!(a.blocks, 1);
    assert_eq!(a.uid, 7);
    assert_eq!(a.gid, 8);
    assert_eq!(a.size, (home.len() + b"/nix/store".len()) as u64);
}

#[test]
fn var_attr_fields() {
    let home = b"/home/carol".to_vec();
    let a = getattr_at(3, 7, 8, Some(home.clone())).unwrap();
    assert_eq!(a.ino, 3);
    assert_eq!(a.kind, FileKind::Symlink);
    assert_eq!(a.perm, 0o777);
    assert_eq!(a.nlink, 1);
    assert_eq!(a.size, (home.len() + b"/nix/var".len()) as u64);
}

#[test]
fn lookup_and_getattr_sizes_agree() {
    let home = b"/home/dave".to_vec();
    let looked_up = lookup_at(1, b"store", 42, 43, Some(home.clone())).unwrap();
    let direct = getattr_at(2, 42, 43, Some(home.clone())).unwrap();
    assert_eq!(looked_up, direct);
    assert_eq!(looked_up.size, b"/home/dave/nix/store".len() as u64);
    let looked_up_var = lookup_at(1, b"var", 42, 43, Some(home.clone())).unwrap();
    let direct_var = getattr_at(3, 42, 43, Some(home)).unwrap();
    assert_eq!(looked_up_var, direct_var);
}

#[test]
fn readdir_full_listing() {
    let entries = readdir_at(1, 0).unwrap();
    let names: Vec<&[u8]> = entries.iter().map(|e| e.name.as_slice()).collect();
    assert_eq!(names, vec![&b"."[..], &b".."[..], &b"store"[..], &b"var"[..]]);
    let inos: Vec<u64> = entries.iter().map(|e| e.ino).collect();
    assert_eq!(inos, vec![1, 1, 2, 3]);
    let kinds: Vec<FileKind> = entries.iter().map(|e| e.kind).collect();
    assert_eq!(
        kinds,
        vec![
            FileKind::Directory,
            FileKind::Directory,
            FileKind::Symlink,
            FileKind::Symlink
        ]
    );
    let cursors: Vec<i64> = entries.iter().map(|e| e.next_offset).collect();
    assert_eq!(cursors, vec![1, 2, 3, 4]);
}

#[test]
fn readdir_cursor_resumption() {
    let entries = readdir_at(1, 2).unwrap();
    let names: Vec<&[u8]> = entries.iter().map(|e| e.name.as_slice()).collect();
    assert_eq!(names, vec![&b"store"[..], &b"var"[..]]);
    let cursors: Vec<i64> = entries.iter().map(|e| e.next_offset).collect();
    assert_eq!(cursors, vec![3, 4]);
}

#[test]
fn readdir_cursor_edges() {
    assert_eq!(readdir_at(1, 1).unwrap().len(), 3);
    assert_eq!(readdir_at(1, 3).unwrap().len(), 1);
    assert_eq!(readdir_at(1, 4).unwrap().len(), 0);
    assert_eq!(readdir_at(1, 100).unwrap().len(), 0);
    assert_eq!(readdir_at(1, -1).unwrap().len(), 0);
}

#[test]
fn outside_namespace_not_found() {
    assert_eq!(getattr_at(4, 0, 0, None), Err(FsError::NotFound));
    assert_eq!(getattr_at(0, 0, 0, None), Err(FsError::NotFound));
    assert_eq!(
        lookup_at(1, b"nonexistent", 0, 0, None),
        Err(FsError::NotFound)
    );
    assert_eq!(lookup_at(2, b"store", 0, 0, None), Err(FsError::NotFound));
    assert_eq!(readlink_at(1, None), Err(FsError::NotFound));
    assert_eq!(readlink_at(4, None), Err(FsError::NotFound));
    assert_eq!(readdir_at(4, 0), Err(FsError::NotFound));
    assert_eq!(readdir_at(2, 0), Err(FsError::NotFound));
}

#[test]
fn driver_outside_namespace_not_found() {
    let fs = NixHomeFS;
    let uid = 0;
    assert_eq!(fs.getattr(4, uid, 0), Err(FsError::NotFound));
    assert_eq!(fs.lookup(1, b"nonexistent", uid, 0), Err(FsError::NotFound));
    assert_eq!(fs.readlink(1, uid), Err(FsError::NotFound));
    assert_eq!(fs.readdir(4, 0), Err(FsError::NotFound));
}

#[test]
fn getattr_idempotent() {
    let home = b"/home/erin".to_vec();
    let first = getattr_at(2, 5, 6, Some(home.clone()));
    let second = getattr_at(2, 5, 6, Some(home));
    assert_eq!(first, second);
}

#[test]
fn driver_getattr_idempotent_for_live_uid() {
    let fs = NixHomeFS;
    let first = fs.getattr(2, 0, 0).unwrap();
    let second = fs.getattr(2, 0, 0).unwrap();
    assert_eq!(first, second);
}

#[test]
fn live_targets_carry_fixed_suffixes() {
    let store = get_store_target(0);
    assert!(store.ends_with(b"/nix/store"));
    let var = get_var_target(0);
    assert!(var.ends_with(b"/nix/var"));
    assert_eq!(
        store[..store.len() - b"/nix/store".len()],
        var[..var.len() - b"/nix/var".len()]
    );
}

#[test]
fn live_lookup_readlink_and_attr_agree() {
    let fs = NixHomeFS;
    let target = fs.readlink(2, 0).unwrap();
    let attr = fs.getattr(2, 0, 0).unwrap();
    assert_eq!(attr.size, target.len() as u64);
    let looked_up = fs.lookup(1, b"store", 0, 0).unwrap();
    assert_eq!(looked_up.size, target.len() as u64);
    assert_eq!(looked_up.kind, FileKind::Symlink);
}

#[test]
fn unresolvable_uid_falls_back() {
    // No account is expected at this uid; both targets degrade to the
    // fallback prefix rather than failing.
    let uid = 4294901760;
    let store = get_store_target(uid);
    assert_eq!(store, b"UNKNOWN_HOME/nix/store".to_vec());
    let var = get_var_target(uid);
    assert_eq!(var, b"UNKNOWN_HOME/nix/var".to_vec());
    let attr = get_store_attr(uid, 0);
    assert_eq!(attr.size, b"UNKNOWN_HOME/nix/store".len() as u64);
    let var_attr = get_var_attr(uid, 0);
    assert_eq!(var_attr.size, b"UNKNOWN_HOME/nix/var".len() as u64);
}

#[test]
fn ttl_is_one_second() {
    assert_eq!(TTL_SECS, 1);
}

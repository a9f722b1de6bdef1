//! Tests for the inode registry, the permission evaluator and the
//! plain reply types.

use easyfuse::{
    Attr, EasyFuse, FileAttr, FileType, FsError, Inode, Permissions, Request, Resource, StaticFile,
    Timespec,
};

fn zero_time() -> Timespec {
    Timespec::new(0, 0)
}

fn attr_with(uid: u32, gid: u32, perm: u16) -> Attr {
    Attr {
        ttl: zero_time(),
        inner: FileAttr {
            ino: 0,
            size: 0,
            blocks: 0,
            atime: zero_time(),
            mtime: zero_time(),
            ctime: zero_time(),
            crtime: zero_time(),
            kind: FileType::RegularFile,
            perm,
            nlink: 1,
            uid,
            gid,
            rdev: 0,
            flags: 0,
        },
    }
}

fn file_resource(uid: u32, gid: u32, perm: u16) -> Resource {
    Resource::from(StaticFile::new(attr_with(uid, gid, perm)))
}

#[test]
fn register_returns_increasing_ids_and_never_the_root() {
    let mut fs = EasyFuse::new();
    let mut previous = 1u64;
    for _ in 0..8 {
        let id = fs.register(file_resource(1, 1, 0o444));
        assert_ne!(id.0, 1, "the root identifier is reserved");
        assert!(id.0 > previous, "identifiers must strictly increase");
        previous = id.0;
    }
}

#[test]
fn first_registered_id_is_two() {
    let mut fs = EasyFuse::new();
    assert_eq!(fs.register(file_resource(1, 1, 0o444)), Inode(2));
    assert_eq!(fs.register(file_resource(1, 1, 0o444)), Inode(3));
}

#[test]
fn try_register_yields_the_same_ids() {
    let mut fs = EasyFuse::new();
    assert_eq!(fs.try_register(file_resource(1, 1, 0o444)), Some(Inode(2)));
    assert_eq!(fs.try_register(file_resource(1, 1, 0o444)), Some(Inode(3)));
}

#[test]
fn unregister_then_resolve_yields_absence() {
    let mut fs = EasyFuse::new();
    let id = fs.register(file_resource(1, 1, 0o444));
    assert!(fs.resolve(id).is_some());
    assert!(fs.unregister(id).is_some());
    assert!(fs.resolve(id).is_none());
    assert!(fs.unregister(id).is_none(), "a second removal finds nothing");
}

#[test]
fn unregistered_id_is_never_reused() {
    let mut fs = EasyFuse::new();
    let id1 = fs.register(file_resource(1, 1, 0o444));
    fs.unregister(id1).unwrap();
    for _ in 0..8 {
        let id = fs.register(file_resource(1, 1, 0o444));
        assert_ne!(id, id1, "a removed identifier must not be handed out again");
    }
}

#[test]
fn set_root_reports_previous_binding() {
    let mut fs = EasyFuse::new();
    assert!(fs.set_root(file_resource(1, 1, 0o444)).is_none());
    assert!(
        fs.set_root(file_resource(1, 1, 0o444)).is_some(),
        "double initialization must surface the old binding"
    );
    assert!(fs.resolve(Inode(1)).is_some());
}

#[test]
fn resolve_unknown_id_is_absent() {
    let fs = EasyFuse::new();
    assert!(fs.resolve(Inode(7)).is_none());
}

#[test]
fn owner_triad_selected_when_uid_matches() {
    let req = Request { uid: 5, gid: 6, inode: Inode(2) };
    let attr = attr_with(5, 9, 0o600);
    assert_eq!(req.perms(&attr.inner).bits, 0o6);
    assert_eq!(req.ensure_access(&attr.inner, Permissions::read()), Ok(()));
    assert_eq!(req.ensure_access(&attr.inner, Permissions::write()), Ok(()));
    assert_eq!(
        req.ensure_access(&attr.inner, Permissions::execute()),
        Err(FsError::PermissionDenied)
    );
}

#[test]
fn group_triad_selected_when_only_gid_matches() {
    let req = Request { uid: 5, gid: 6, inode: Inode(2) };
    let attr = attr_with(9, 6, 0o644);
    assert_eq!(req.perms(&attr.inner).bits, 0o4);
    assert_eq!(req.ensure_access(&attr.inner, Permissions::read()), Ok(()));
    assert_eq!(
        req.ensure_access(&attr.inner, Permissions::write()),
        Err(FsError::PermissionDenied)
    );
}

#[test]
fn other_triad_selected_when_nothing_matches() {
    let req = Request { uid: 5, gid: 6, inode: Inode(2) };
    let attr = attr_with(9, 9, 0o751);
    assert_eq!(req.perms(&attr.inner).bits, 0o1);
    assert_eq!(req.ensure_access(&attr.inner, Permissions::execute()), Ok(()));
    assert_eq!(
        req.ensure_access(&attr.inner, Permissions::read()),
        Err(FsError::PermissionDenied)
    );
}

#[test]
fn permissions_contains_checks_every_bit() {
    let all = Permissions { bits: 0o7 };
    assert!(all.contains(Permissions::read()));
    assert!(all.contains(Permissions::write()));
    assert!(all.contains(Permissions::execute()));
    let none = Permissions { bits: 0 };
    assert!(!none.contains(Permissions::read()));
    assert!(none.contains(Permissions { bits: 0 }));
}

#[test]
fn attr_from_file_attr_has_zero_trust_duration() {
    let attr = Attr::from(attr_with(1, 2, 0o444).inner);
    assert_eq!(attr.ttl, Timespec::new(0, 0));
    assert_eq!(attr.inner.uid, 1);
    assert_eq!(attr.inner.gid, 2);
}

#[test]
fn entry_from_attr_has_zero_generation() {
    let entry = easyfuse::Entry::from(attr_with(1, 2, 0o444));
    assert_eq!(entry.generation, 0);
    assert_eq!(entry.attr.inner.uid, 1);
}

#[test]
fn static_file_getters_and_setters() {
    let mut file = StaticFile::new(attr_with(1, 1, 0o444));
    assert_eq!(file.content(), &[] as &[u8]);
    assert_eq!(file.attr().inner.perm, 0o444);
    file.set_content(vec![1u8, 2, 3]);
    assert_eq!(file.content(), &[1u8, 2, 3]);
    file.set_attr(attr_with(2, 2, 0o640));
    assert_eq!(file.attr().inner.perm, 0o640);
    assert_eq!(file.attr().inner.uid, 2);
}

#[test]
fn static_file_getattr_normalizes_kind_size_and_blocks() {
    let mut attr = attr_with(1, 1, 0o444);
    attr.inner.kind = FileType::Directory;
    attr.inner.size = 12345;
    attr.inner.blocks = 99;
    let mut file = StaticFile::new(attr);
    file.set_content(vec![0u8; 8192]);
    let req = Request { uid: 1, gid: 1, inode: Inode(2) };
    let reported = file.getattr(&req).unwrap();
    assert_eq!(reported.inner.kind, FileType::RegularFile);
    assert_eq!(reported.inner.size, 8192);
    assert_eq!(reported.inner.blocks, 2);
}

#[test]
fn static_directory_bind_and_unbind() {
    let mut dir = easyfuse::StaticDirectory::new(attr_with(1, 1, 0o555));
    dir.bind("a".to_string(), Inode(2));
    dir.bind("b".to_string(), Inode(3));
    dir.bind("a".to_string(), Inode(4));
    assert_eq!(dir.unbind(&"a".to_string()), Some(Inode(4)));
    assert_eq!(dir.unbind(&"a".to_string()), None);
    assert_eq!(dir.unbind(&"b".to_string()), Some(Inode(3)));
}

#[test]
fn static_directory_getattr_forces_directory_kind() {
    let dir = easyfuse::StaticDirectory::new(attr_with(1, 1, 0o555));
    let req = Request { uid: 1, gid: 1, inode: Inode(1) };
    let reported = dir.getattr(&req).unwrap();
    assert_eq!(reported.inner.kind, FileType::Directory);
}

#[test]
fn capability_views_widen_into_resources() {
    let file = easyfuse::FileResource::from(StaticFile::new(attr_with(1, 1, 0o444)));
    let resource = Resource::from(file);
    assert!(matches!(resource, Resource::File(_)));
    let dir = easyfuse::DirectoryResource::from(easyfuse::StaticDirectory::new(attr_with(
        1, 1, 0o555,
    )));
    let resource = Resource::from(dir);
    assert!(matches!(resource, Resource::Directory(_)));
}

#[test]
fn dir_entry_new_keeps_its_fields() {
    let entry = easyfuse::DirEntry::new(Inode(9), FileType::Symlink, "link".to_string());
    assert_eq!(entry.inode, Inode(9));
    assert_eq!(entry.filetype, FileType::Symlink);
    assert_eq!(entry.name, "link");
}

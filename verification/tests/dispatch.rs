//! Scenario tests for the dispatcher: attribute stamping, directory
//! listings with synthetic entries, capability narrowing and reads.

use easyfuse::{
    Attr, DirEntry, EasyFuse, FileAttr, FileHandle, FileType, FsError, Inode, Resource,
    StaticDirectory, StaticFile, Timespec,
};

fn zero_time() -> Timespec {
    Timespec::new(0, 0)
}

fn attr_with(uid: u32, gid: u32, perm: u16) -> Attr {
    Attr {
        ttl: zero_time(),
        inner: FileAttr {
            ino: 0,
            size: 0,
            blocks: 0,
            atime: zero_time(),
            mtime: zero_time(),
            ctime: zero_time(),
            crtime: zero_time(),
            kind: FileType::RegularFile,
            perm,
            nlink: 1,
            uid,
            gid,
            rdev: 0,
            flags: 0,
        },
    }
}

/// A root directory with two registered files bound under it.
fn two_file_tree() -> (EasyFuse, Inode, Inode) {
    let mut fs = EasyFuse::new();
    let file_a = StaticFile::new(attr_with(1, 1, 0o444));
    let mut file_b = StaticFile::new(attr_with(1, 1, 0o444));
    file_b.set_content(b"hello".to_vec());
    let ino_a = fs.register(Resource::from(file_a));
    let ino_b = fs.register(Resource::from(file_b));
    let mut root = StaticDirectory::new(attr_with(1, 1, 0o555));
    root.bind("a".to_string(), ino_a);
    root.bind("b".to_string(), ino_b);
    fs.set_root(Resource::from(root));
    (fs, ino_a, ino_b)
}

#[test]
fn getattr_on_root_is_stamped_with_the_root_id() {
    let mut fs = EasyFuse::new();
    let mut attr = attr_with(1, 1, 0o555);
    attr.inner.ino = 99;
    fs.set_root(Resource::from(StaticDirectory::new(attr)));
    let reported = fs.getattr(1, 1, Inode(1)).unwrap();
    assert_eq!(reported.inner.ino, 1, "the dispatcher is authoritative for the inode field");
}

#[test]
fn getattr_on_unbound_id_is_not_found() {
    let fs = EasyFuse::new();
    assert_eq!(fs.getattr(1, 1, Inode(5)).unwrap_err(), FsError::NotFound);
}

#[test]
fn getattr_on_file_reports_computed_size() {
    let (fs, _, ino_b) = two_file_tree();
    let reported = fs.getattr(1, 1, ino_b).unwrap();
    assert_eq!(reported.inner.ino, ino_b.0);
    assert_eq!(reported.inner.kind, FileType::RegularFile);
    assert_eq!(reported.inner.size, 5);
    assert_eq!(reported.inner.blocks, 0);
}

#[test]
fn listing_starts_with_dot_and_dot_dot() {
    let (fs, ino_a, ino_b) = two_file_tree();
    let entries = fs.readdir(1, 1, Inode(1), 0).unwrap();
    assert_eq!(entries.len(), 4);
    assert_eq!(entries[0].name, ".");
    assert_eq!(entries[0].inode, Inode(1));
    assert_eq!(entries[0].filetype, FileType::Directory);
    assert_eq!(entries[1].name, "..");
    assert_eq!(entries[1].inode, Inode(1));
    assert_eq!(entries[1].filetype, FileType::Directory);
    let names: Vec<&str> = entries[2..].iter().map(|e| e.name.as_str()).collect();
    assert!(names.contains(&"a") && names.contains(&"b"));
    let inodes: Vec<Inode> = entries[2..].iter().map(|e| e.inode).collect();
    assert!(inodes.contains(&ino_a) && inodes.contains(&ino_b));
}

#[test]
fn listing_with_offset_one_omits_only_the_dot_entry() {
    let (fs, _, _) = two_file_tree();
    let entries = fs.readdir(1, 1, Inode(1), 1).unwrap();
    assert_eq!(entries.len(), 3);
    assert_eq!(entries[0].name, "..");
    assert!(entries.iter().all(|e| e.name != "."));
    let names: Vec<&str> = entries[1..].iter().map(|e| e.name.as_str()).collect();
    assert!(names.contains(&"a") && names.contains(&"b"));
}

#[test]
fn listing_children_carry_their_own_inode_and_kind() {
    let (fs, ino_a, _) = two_file_tree();
    let entries = fs.readdir(1, 1, Inode(1), 0).unwrap();
    let child: &DirEntry = entries.iter().find(|e| e.name == "a").unwrap();
    assert_eq!(child.inode, ino_a);
    assert_eq!(child.filetype, FileType::RegularFile);
}

#[test]
fn listing_offset_past_the_end_is_empty() {
    let (fs, _, _) = two_file_tree();
    let entries = fs.readdir(1, 1, Inode(1), 100).unwrap();
    assert!(entries.is_empty());
}

#[test]
fn lookup_resolves_a_bound_child() {
    let (fs, ino_a, _) = two_file_tree();
    let entry = fs.lookup(1, 1, Inode(1), &"a".to_string()).unwrap();
    assert_eq!(entry.attr.inner.ino, ino_a.0);
    assert_eq!(entry.generation, 0);
    assert_eq!(entry.attr.inner.kind, FileType::RegularFile);
}

#[test]
fn lookup_of_unknown_name_is_not_found() {
    let (fs, _, _) = two_file_tree();
    assert_eq!(
        fs.lookup(1, 1, Inode(1), &"missing".to_string()).unwrap_err(),
        FsError::NotFound
    );
}

#[test]
fn lookup_through_a_stale_binding_is_an_internal_defect() {
    let mut fs = EasyFuse::new();
    let mut root = StaticDirectory::new(attr_with(1, 1, 0o555));
    root.bind("ghost".to_string(), Inode(42));
    fs.set_root(Resource::from(root));
    assert_eq!(
        fs.lookup(1, 1, Inode(1), &"ghost".to_string()).unwrap_err(),
        FsError::InternalDefect
    );
    assert_eq!(fs.readdir(1, 1, Inode(1), 0).unwrap_err(), FsError::InternalDefect);
}

#[test]
fn directory_ops_on_a_file_are_wrong_node_kind() {
    let (fs, ino_a, _) = two_file_tree();
    let err = fs.lookup(1, 1, ino_a, &"x".to_string()).unwrap_err();
    assert_eq!(err, FsError::WrongNodeKind);
    assert_ne!(err, FsError::NotSupported);
    assert_eq!(fs.readdir(1, 1, ino_a, 0).unwrap_err(), FsError::WrongNodeKind);
    assert_eq!(
        fs.symlink(1, 1, ino_a, &"x".to_string(), &"target".to_string()).unwrap_err(),
        FsError::WrongNodeKind
    );
}

#[test]
fn file_ops_on_a_directory_are_wrong_node_kind() {
    let (fs, _, _) = two_file_tree();
    assert_eq!(fs.open(1, 1, Inode(1), 0).unwrap_err(), FsError::WrongNodeKind);
    assert_eq!(
        fs.release(1, 1, Inode(1), FileHandle(0), 0).unwrap_err(),
        FsError::WrongNodeKind
    );
    assert_eq!(
        fs.read(1, 1, Inode(1), FileHandle(0), 0, 10).unwrap_err(),
        FsError::WrongNodeKind
    );
}

#[test]
fn symlink_on_a_directory_is_not_supported() {
    let (fs, _, _) = two_file_tree();
    assert_eq!(
        fs.symlink(1, 1, Inode(1), &"x".to_string(), &"target".to_string()).unwrap_err(),
        FsError::NotSupported
    );
}

#[test]
fn open_and_release_default_to_success_on_files() {
    let (fs, ino_a, _) = two_file_tree();
    let handle = fs.open(1, 1, ino_a, 0).unwrap();
    assert_eq!(handle, FileHandle(0));
    assert_eq!(fs.release(1, 1, ino_a, handle, 0), Ok(()));
}

#[test]
fn read_returns_exactly_the_tail_past_the_offset() {
    let mut fs = EasyFuse::new();
    let mut file = StaticFile::new(attr_with(5, 6, 0o444));
    file.set_content(vec![9u8; 30]);
    let ino = fs.register(Resource::from(file));
    let bytes = fs.read(5, 6, ino, FileHandle(0), 25, 100).unwrap();
    assert_eq!(bytes.len(), 5);
    assert!(bytes.iter().all(|b| *b == 9));
}

#[test]
fn read_never_exceeds_the_requested_length() {
    let mut fs = EasyFuse::new();
    let mut file = StaticFile::new(attr_with(5, 6, 0o444));
    file.set_content((0u8..100).collect::<Vec<u8>>());
    let ino = fs.register(Resource::from(file));
    let bytes = fs.read(5, 6, ino, FileHandle(0), 10, 7).unwrap();
    assert_eq!(bytes.len(), 7);
    assert_eq!(bytes, vec![10, 11, 12, 13, 14, 15, 16]);
}

#[test]
fn read_at_or_past_the_content_length_is_a_range_error() {
    let mut fs = EasyFuse::new();
    let mut file = StaticFile::new(attr_with(5, 6, 0o444));
    file.set_content(vec![9u8; 30]);
    let ino = fs.register(Resource::from(file));
    assert_eq!(
        fs.read(5, 6, ino, FileHandle(0), 30, 1).unwrap_err(),
        FsError::RangeError
    );
    assert_eq!(
        fs.read(5, 6, ino, FileHandle(0), 31, 1).unwrap_err(),
        FsError::RangeError
    );
}

#[test]
fn read_without_permission_is_denied() {
    let mut fs = EasyFuse::new();
    let mut file = StaticFile::new(attr_with(5, 6, 0o200));
    file.set_content(vec![9u8; 30]);
    let ino = fs.register(Resource::from(file));
    assert_eq!(
        fs.read(5, 6, ino, FileHandle(0), 0, 10).unwrap_err(),
        FsError::PermissionDenied
    );
}

#[test]
fn read_on_an_unbound_id_is_not_found() {
    let fs = EasyFuse::new();
    assert_eq!(
        fs.read(1, 1, Inode(9), FileHandle(0), 0, 10).unwrap_err(),
        FsError::NotFound
    );
}

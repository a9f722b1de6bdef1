//! All the kinds of structures that can be returned from different
//! resource functions, together with the plain metadata types they
//! are built from.

use vstd::prelude::*;

use crate::newtypes::Inode;

verus! {

/// A point in time, expressed as seconds and nanoseconds.
#[derive(Clone, Copy, Debug, PartialEq, Eq, Structural)]
pub struct Timespec {
    /// Whole seconds.
    pub sec: i64,
    /// Nanoseconds past the second.
    pub nsec: i32,
}

impl Timespec {
    /// Create a new instance.
    pub fn new(sec: i64, nsec: i32) -> (t: Timespec)
        ensures
            t == (Timespec { sec, nsec }),
    {
        Timespec { sec, nsec }
    }
}

/// The kind of a filesystem node.
#[derive(Clone, Copy, Debug, PartialEq, Eq, Structural)]
pub enum FileType {
    /// A named pipe.
    NamedPipe,
    /// A character device.
    CharDevice,
    /// A block device.
    BlockDevice,
    /// A directory.
    Directory,
    /// A regular file.
    RegularFile,
    /// A symbolic link.
    Symlink,
    /// A unix domain socket.
    Socket,
}

/// Metadata of one filesystem node, as reported to the protocol
/// layer. The mode value holds nine permission bits, high to low:
/// owner read/write/execute, group read/write/execute, other
/// read/write/execute.
#[derive(Clone, Copy, Debug, PartialEq, Eq, Structural)]
pub struct FileAttr {
    /// The identifier of the node. The dispatcher is authoritative
    /// for this field and overwrites it on get-attributes results.
    pub ino: u64,
    /// Content size in bytes.
    pub size: u64,
    /// Number of blocks the content occupies.
    pub blocks: u64,
    /// Time of last access.
    pub atime: Timespec,
    /// Time of last modification.
    pub mtime: Timespec,
    /// Time of last metadata change.
    pub ctime: Timespec,
    /// Time of creation.
    pub crtime: Timespec,
    /// The kind of the node.
    pub kind: FileType,
    /// The nine-bit unix mode value.
    pub perm: u16,
    /// Number of hard links.
    pub nlink: u32,
    /// The owner's user identifier.
    pub uid: u32,
    /// The owner's group identifier.
    pub gid: u32,
    /// The device number, for device nodes.
    pub rdev: u32,
    /// Extra platform-specific flags.
    pub flags: u32,
}

/// An attribute record together with the duration a caller may trust
/// it without re-querying.
#[derive(Clone, Copy, Debug, PartialEq, Eq, Structural)]
pub struct Attr {
    /// How long the external caching layer may trust this record.
    pub ttl: Timespec,
    /// The inner file attributes.
    pub inner: FileAttr,
}

impl From<FileAttr> for Attr {
    /// Wrap plain attributes with a zero trust duration.
    fn from(attr: FileAttr) -> (r: Self) {
        Attr { ttl: Timespec { sec: 0, nsec: 0 }, inner: attr }
    }
}

impl vstd::std_specs::convert::FromSpecImpl<FileAttr> for Attr {
    open spec fn obeys_from_spec() -> bool {
        true
    }

    open spec fn from_spec(attr: FileAttr) -> Self {
        Attr { ttl: Timespec { sec: 0, nsec: 0 }, inner: attr }
    }
}

/// A resolved directory entry: attributes plus a generation counter,
/// reserved for future reuse detection and always zero today.
#[derive(Clone, Copy, Debug, PartialEq, Eq, Structural)]
pub struct Entry {
    /// The inner attributes.
    pub attr: Attr,
    /// The generation counter; always zero.
    pub generation: u64,
}

impl From<Attr> for Entry {
    /// Wrap an attribute record with a zero generation counter.
    fn from(attr: Attr) -> (r: Self) {
        Entry { attr, generation: 0 }
    }
}

impl vstd::std_specs::convert::FromSpecImpl<Attr> for Entry {
    open spec fn obeys_from_spec() -> bool {
        true
    }

    open spec fn from_spec(attr: Attr) -> Self {
        Entry { attr, generation: 0 }
    }
}

/// One line of a directory listing.
#[derive(Debug)]
pub struct DirEntry {
    /// The inode associated with the file.
    pub inode: Inode,
    /// The type of the file.
    pub filetype: FileType,
    /// The name of the file.
    pub name: String,
}

impl View for DirEntry {
    type V = (u64, FileType, Seq<char>);

    open spec fn view(&self) -> (u64, FileType, Seq<char>) {
        (self.inode.0, self.filetype, self.name@)
    }
}

impl Clone for DirEntry {
    /// Clone the entry; the copy carries the same inode, kind and name.
    fn clone(&self) -> (r: Self)
        ensures
            r.inode == self.inode,
            r.filetype == self.filetype,
            r.name@ == self.name@,
            r@ == self@,
    {
        DirEntry { inode: self.inode, filetype: self.filetype, name: self.name.clone() }
    }
}

impl DirEntry {
    /// Create a new instance.
    pub fn new(inode: Inode, filetype: FileType, name: String) -> (e: DirEntry)
        ensures
            e == (DirEntry { inode, filetype, name }),
    {
        DirEntry { inode, filetype, name }
    }
}

/// Whether a sequence of directory entries carries exactly the given
/// inode, kind and name triples, in the same order.
pub open spec fn entries_match(v: Seq<DirEntry>, s: Seq<(u64, FileType, Seq<char>)>) -> bool {
    &&& v.len() == s.len()
    &&& forall|i: int| 0 <= i < v.len() ==> v[i]@ == s[i]
}

/// An attribute record with its inode field overwritten; the
/// dispatcher is authoritative for that field.
pub open spec fn stamp_inode(a: Attr, ino: u64) -> Attr {
    Attr { ttl: a.ttl, inner: FileAttr { ino, ..a.inner } }
}

} // verus!

//! The resource capability model: the wide operation surface that the
//! dispatcher talks to, the file-only and directory-only views that
//! narrow it, and the per-call request context with the permission
//! evaluator.

use vstd::prelude::*;

use crate::dir::StaticDirectory;
use crate::errors::FsError;
use crate::file::StaticFile;
use crate::newtypes::{FileHandle, Inode, Permissions};
use crate::replies::{entries_match, Attr, DirEntry, Entry, FileAttr, FileType};
use crate::EasyFuse;

verus! {

/// Data common for all request types: the caller's identity as the
/// protocol layer reports it, and the inode of the resource being
/// invoked. Registry access is passed alongside, to the operations
/// that resolve children.
#[derive(Clone, Copy, Debug)]
pub struct Request {
    /// The calling user's identifier.
    pub uid: u32,
    /// The calling user's group identifier.
    pub gid: u32,
    /// The inode of the current resource.
    pub inode: Inode,
}

impl Request {
    /// The triad of permission bits that applies to this caller: the
    /// owner triad when the caller's uid matches the owner, else the
    /// group triad when the gid matches, else the "other" triad.
    pub open spec fn spec_perms(&self, attrs: FileAttr) -> u8 {
        if self.uid == attrs.uid {
            ((attrs.perm >> 6) & 7) as u8
        } else if self.gid == attrs.gid {
            ((attrs.perm >> 3) & 7) as u8
        } else {
            (attrs.perm & 7) as u8
        }
    }

    /// Whether this caller holds every bit of `required` against the
    /// owner/group/mode triad recorded in `attrs`.
    pub open spec fn spec_allows(&self, attrs: FileAttr, required: Permissions) -> bool {
        (Permissions { bits: self.spec_perms(attrs) }).spec_contains(required)
    }

    /// `ensure_access` as a value: success exactly when the selected
    /// triad covers the required bits, `PermissionDenied` otherwise.
    pub open spec fn spec_ensure_access(&self, attrs: FileAttr, required: Permissions) -> Result<
        (),
        FsError,
    > {
        if self.spec_allows(attrs, required) {
            Ok(())
        } else {
            Err(FsError::PermissionDenied)
        }
    }

    /// Return the relevant permission digit when the current user
    /// tries to open a specific file.
    pub fn perms(&self, attrs: &FileAttr) -> (p: Permissions)
        ensures
            p.bits == self.spec_perms(*attrs),
            p.wf(),
    {
        let bits: u16 = if self.uid == attrs.uid {
            (attrs.perm >> 6) & 7
        } else if self.gid == attrs.gid {
            (attrs.perm >> 3) & 7
        } else {
            attrs.perm & 7
        };
        proof {
            let perm = attrs.perm;
            assert((perm >> 6) & 7 < 8 && (perm >> 3) & 7 < 8 && perm & 7 < 8) by (bit_vector);
        }
        Permissions { bits: bits as u8 }
    }

    /// Compare the user permissions using `perms` and report
    /// `PermissionDenied` if they are lacking.
    pub fn ensure_access(&self, attrs: &FileAttr, required: Permissions) -> (r: Result<
        (),
        FsError,
    >)
        ensures
            r == self.spec_ensure_access(*attrs, required),
    {
        if self.perms(attrs).contains(required) {
            Ok(())
        } else {
            Err(FsError::PermissionDenied)
        }
    }
}

/// The file-only capability view: it delegates the file operations to
/// the wrapped behavior object, while every directory operation fails
/// with `WrongNodeKind` — never valid for this node, as opposed to
/// valid but unimplemented.
#[derive(Debug)]
pub struct FileResource(pub StaticFile);

impl From<StaticFile> for FileResource {
    /// Wrap a file behavior object in the file-only view.
    fn from(file: StaticFile) -> (r: Self) {
        FileResource(file)
    }
}

impl vstd::std_specs::convert::FromSpecImpl<StaticFile> for FileResource {
    open spec fn obeys_from_spec() -> bool {
        true
    }

    open spec fn from_spec(file: StaticFile) -> Self {
        FileResource(file)
    }
}

/// The directory-only capability view, the mirror image of
/// `FileResource`: directory operations are delegated, file
/// operations fail with `WrongNodeKind`.
#[derive(Debug)]
pub struct DirectoryResource(pub StaticDirectory);

impl From<StaticDirectory> for DirectoryResource {
    /// Wrap a directory behavior object in the directory-only view.
    fn from(dir: StaticDirectory) -> (r: Self) {
        DirectoryResource(dir)
    }
}

impl vstd::std_specs::convert::FromSpecImpl<StaticDirectory> for DirectoryResource {
    open spec fn obeys_from_spec() -> bool {
        true
    }

    open spec fn from_spec(dir: StaticDirectory) -> Self {
        DirectoryResource(dir)
    }
}

/// A generic resource, either for a file or a directory. An inode can
/// be linked to a resource to make all filesystem operations on that
/// inode get passed to it. The dispatcher always talks to this wide
/// surface; the two capability views are the only place where the
/// narrowing lives.
#[derive(Debug)]
pub enum Resource {
    /// A node with file semantics only.
    File(FileResource),
    /// A node with directory semantics only.
    Directory(DirectoryResource),
}

impl From<FileResource> for Resource {
    /// Widen a file-only view to the full operation surface.
    fn from(file: FileResource) -> (r: Self) {
        Resource::File(file)
    }
}

impl vstd::std_specs::convert::FromSpecImpl<FileResource> for Resource {
    open spec fn obeys_from_spec() -> bool {
        true
    }

    open spec fn from_spec(file: FileResource) -> Self {
        Resource::File(file)
    }
}

impl From<DirectoryResource> for Resource {
    /// Widen a directory-only view to the full operation surface.
    fn from(dir: DirectoryResource) -> (r: Self) {
        Resource::Directory(dir)
    }
}

impl vstd::std_specs::convert::FromSpecImpl<DirectoryResource> for Resource {
    open spec fn obeys_from_spec() -> bool {
        true
    }

    open spec fn from_spec(dir: DirectoryResource) -> Self {
        Resource::Directory(dir)
    }
}

impl From<StaticFile> for Resource {
    /// Wrap a file behavior object for registration.
    fn from(file: StaticFile) -> (r: Self) {
        Resource::File(FileResource(file))
    }
}

impl vstd::std_specs::convert::FromSpecImpl<StaticFile> for Resource {
    open spec fn obeys_from_spec() -> bool {
        true
    }

    open spec fn from_spec(file: StaticFile) -> Self {
        Resource::File(FileResource(file))
    }
}

impl From<StaticDirectory> for Resource {
    /// Wrap a directory behavior object for registration.
    fn from(dir: StaticDirectory) -> (r: Self) {
        Resource::Directory(DirectoryResource(dir))
    }
}

impl vstd::std_specs::convert::FromSpecImpl<StaticDirectory> for Resource {
    open spec fn obeys_from_spec() -> bool {
        true
    }

    open spec fn from_spec(dir: StaticDirectory) -> Self {
        Resource::Directory(DirectoryResource(dir))
    }
}

impl Resource {
    /// `getattr` as a value. Get-attributes is mandatory for both
    /// kinds, so it never reports a missing override.
    pub open spec fn spec_getattr(&self) -> Result<Attr, FsError> {
        match self {
            Resource::File(f) => Ok(f.0.spec_getattr()),
            Resource::Directory(d) => Ok(d.0.spec_getattr()),
        }
    }

    /// Get meta information of this node, for example when the `stat`
    /// system call is made. The inode value returned here is
    /// overwritten with this resource's inode by the dispatcher.
    pub fn getattr(&self, req: &Request) -> (r: Result<Attr, FsError>)
        ensures
            r == self.spec_getattr(),
    {
        match self {
            Resource::File(f) => f.0.getattr(req),
            Resource::Directory(d) => d.0.getattr(req),
        }
    }

    /// `lookup` as a value: the directory's lookup behavior, or
    /// `WrongNodeKind` for files.
    pub open spec fn spec_lookup(&self, fs: EasyFuse, path: Seq<char>) -> Result<Entry, FsError> {
        match self {
            Resource::File(_) => Err(FsError::WrongNodeKind),
            Resource::Directory(d) => d.0.spec_lookup(fs, path),
        }
    }

    /// Convert a name under this resource to an inode, assuming it's
    /// a directory.
    pub fn lookup(&self, fs: &EasyFuse, req: &Request, path: &String) -> (r: Result<
        Entry,
        FsError,
    >)
        ensures
            r == self.spec_lookup(*fs, path@),
    {
        match self {
            Resource::File(_) => Err(FsError::WrongNodeKind),
            Resource::Directory(d) => d.0.lookup(fs, req, path),
        }
    }

    /// `readdir` as a value: the triples the directory would append,
    /// or `WrongNodeKind` for files.
    pub open spec fn spec_children(&self, fs: EasyFuse) -> Result<
        Seq<(u64, FileType, Seq<char>)>,
        FsError,
    > {
        match self {
            Resource::File(_) => Err(FsError::WrongNodeKind),
            Resource::Directory(d) => crate::dir::spec_children(d.0.spec_binds(), fs),
        }
    }

    /// Read all entries of this resource, assuming it's a directory;
    /// they are appended to `output`, which an error leaves alone.
    pub fn readdir(&self, fs: &EasyFuse, req: &Request, output: &mut Vec<DirEntry>) -> (r: Result<
        (),
        FsError,
    >)
        ensures
            ({
                let c = self.spec_children(*fs);
                match r {
                    Ok(()) => c is Ok && final(output)@.len() == old(output)@.len()
                        + c->Ok_0.len() && final(output)@.subrange(0, old(output)@.len() as int)
                        == old(output)@ && entries_match(
                        final(output)@.skip(old(output)@.len() as int),
                        c->Ok_0,
                    ),
                    Err(e) => c == Err::<Seq<(u64, FileType, Seq<char>)>, FsError>(e)
                        && *final(output) == *old(output),
                }
            }),
    {
        match self {
            Resource::File(_) => Err(FsError::WrongNodeKind),
            Resource::Directory(d) => d.0.readdir(fs, req, output),
        }
    }

    /// `symlink` as a value: `WrongNodeKind` for files; for
    /// directories it is valid but has no default behavior, so it
    /// reports `NotSupported`.
    pub open spec fn spec_symlink(&self, path: Seq<char>, link: Seq<char>) -> Result<
        Entry,
        FsError,
    > {
        match self {
            Resource::File(_) => Err(FsError::WrongNodeKind),
            Resource::Directory(_) => Err(FsError::NotSupported),
        }
    }

    /// Symlink a file into this resource, assuming it's a directory.
    /// No provided directory overrides this, so it reports that the
    /// operation is unsupported.
    pub fn symlink(&self, _req: &Request, path: &String, link: &String) -> (r: Result<
        Entry,
        FsError,
    >)
        ensures
            r == self.spec_symlink(path@, link@),
    {
        match self {
            Resource::File(_) => Err(FsError::WrongNodeKind),
            Resource::Directory(_) => Err(FsError::NotSupported),
        }
    }

    /// `open` as a value: a zero file handle for files — the default
    /// "open" behavior — and `WrongNodeKind` for directories.
    pub open spec fn spec_open(&self, flags: u32) -> Result<FileHandle, FsError> {
        match self {
            Resource::File(_) => Ok(FileHandle(0)),
            Resource::Directory(_) => Err(FsError::WrongNodeKind),
        }
    }

    /// Open a new instance of this resource, assuming it's a file.
    /// The returned file handle means nothing to anyone but the
    /// resource itself; the core only passes it through unchanged.
    pub fn open(&self, _req: &Request, flags: u32) -> (r: Result<FileHandle, FsError>)
        ensures
            r == self.spec_open(flags),
    {
        match self {
            Resource::File(_) => Ok(FileHandle(0)),
            Resource::Directory(_) => Err(FsError::WrongNodeKind),
        }
    }

    /// `close` as a value: a no-op success for files, `WrongNodeKind`
    /// for directories.
    pub open spec fn spec_close(&self, fh: FileHandle, flags: u32) -> Result<(), FsError> {
        match self {
            Resource::File(_) => Ok(()),
            Resource::Directory(_) => Err(FsError::WrongNodeKind),
        }
    }

    /// Close an instance of this resource, assuming it's a file.
    pub fn close(&self, _req: &Request, fh: FileHandle, flags: u32) -> (r: Result<(), FsError>)
        ensures
            r == self.spec_close(fh, flags),
    {
        match self {
            Resource::File(_) => Ok(()),
            Resource::Directory(_) => Err(FsError::WrongNodeKind),
        }
    }

    /// `read` as a value: the file's read behavior, or `WrongNodeKind`
    /// for directories.
    pub open spec fn spec_read(&self, req: Request, fh: FileHandle, offset: u64, len: u32) -> Result<
        Seq<u8>,
        FsError,
    > {
        match self {
            Resource::File(f) => f.0.spec_read(req, offset, len),
            Resource::Directory(_) => Err(FsError::WrongNodeKind),
        }
    }

    /// Read contents of this resource from a specific offset,
    /// assuming it's a file. Never returns more than `len` bytes.
    pub fn read(&self, req: &Request, fh: FileHandle, offset: u64, len: u32) -> (r: Result<
        Vec<u8>,
        FsError,
    >)
        ensures
            ({
                let s = self.spec_read(*req, fh, offset, len);
                match r {
                    Ok(v) => s is Ok && v@ == s->Ok_0,
                    Err(e) => s == Err::<Seq<u8>, FsError>(e),
                }
            }),
            r matches Ok(v) ==> v@.len() <= len,
    {
        match self {
            Resource::File(f) => f.0.read(req, fh, offset, len),
            Resource::Directory(_) => Err(FsError::WrongNodeKind),
        }
    }
}

} // verus!

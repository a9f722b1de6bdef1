//! easyfuse: a framework for building a virtual, in-process
//! filesystem tree out of small resource behavior objects, without
//! managing numeric node identifiers or low-level protocol decoding
//! by hand.
//!
//! The core consists of the inode registry ([`EasyFuse`]), the
//! resource capability model ([`resource`]), the per-call request
//! context, the permission evaluator, and the dispatcher entry
//! points that the external protocol layer invokes.

mod dir;
mod errors;
mod file;
mod newtypes;
mod replies;
mod resource;

pub use errors::FsError;
pub use newtypes::{FileHandle, Inode, Permissions};
pub use replies::{Attr, DirEntry, Entry, FileAttr, FileType, Timespec};
pub use dir::StaticDirectory;
pub use file::StaticFile;
pub use resource::{DirectoryResource, FileResource, Request, Resource};

use std::collections::BTreeMap;
use vstd::prelude::*;
use vstd::string::StringExecFns;

use crate::replies::{entries_match, stamp_inode};

verus! {

broadcast use {vstd::std_specs::btree::group_btree_axioms, vstd::laws_cmp::group_laws_cmp};

/// The reserved identifier of the filesystem root.
pub const ROOT_ID: u64 = 1;

/// A filesystem core that resolves inodes automatically: it owns the
/// mapping from stable identifiers to resources, allocates new
/// identifiers monotonically, and dispatches structured calls from
/// the protocol layer to the bound resources.
#[derive(Debug)]
pub struct EasyFuse {
    nodes: BTreeMap<u64, Resource>,
    next_inode: Inode,
}

impl View for EasyFuse {
    type V = Map<u64, Resource>;

    closed spec fn view(&self) -> Map<u64, Resource> {
        self.nodes@
    }
}

/// What one successful registration does: it hands out the current
/// value of the allocation counter, advances the counter by one, and
/// binds the new identifier to the resource.
pub open spec fn register_step(
    pre: EasyFuse,
    post: EasyFuse,
    resource: Resource,
    id: Inode,
) -> bool {
    &&& pre.next_id() < u64::MAX
    &&& id.0 == pre.next_id()
    &&& post.next_id() == pre.next_id() + 1
    &&& post@ == pre@.insert(id.0, resource)
}

/// What unregistering does: it removes the binding, if any, and
/// leaves the allocation counter alone, so the identifier is not
/// reclaimed.
pub open spec fn unregister_step(pre: EasyFuse, post: EasyFuse, inode: Inode) -> bool {
    &&& post@ == pre@.remove(inode.0)
    &&& post.next_id() == pre.next_id()
}

/// What binding the root does: it forcibly (re)binds the reserved
/// root identifier and leaves the allocation counter alone.
pub open spec fn set_root_step(pre: EasyFuse, post: EasyFuse, resource: Resource) -> bool {
    &&& post@ == pre@.insert(ROOT_ID, resource)
    &&& post.next_id() == pre.next_id()
}

/// `resolve` as a value: the bound resource, if any.
pub open spec fn spec_resolve(fs: EasyFuse, inode: Inode) -> Option<Resource> {
    if fs@.contains_key(inode.0) {
        Some(fs@[inode.0])
    } else {
        None
    }
}

impl Default for EasyFuse {
    /// An empty registry whose allocation counter starts just past
    /// the reserved root identifier.
    fn default() -> (fs: Self)
        ensures
            fs@ == Map::<u64, Resource>::empty(),
            fs.next_id() == 2,
            fs.wf(),
    {
        EasyFuse { nodes: BTreeMap::new(), next_inode: Inode(ROOT_ID + 1) }
    }
}

impl EasyFuse {
    /// The identifier the next registration will hand out.
    pub closed spec fn next_id(&self) -> u64 {
        self.next_inode.0
    }

    /// Registry validity: the allocation counter sits past the
    /// reserved root identifier, and every bound identifier is either
    /// the root or came out of the counter earlier.
    pub open spec fn wf(&self) -> bool {
        &&& 2 <= self.next_id()
        &&& forall|k: u64|
            #[trigger] self@.contains_key(k) ==> k == ROOT_ID || (2 <= k && k < self.next_id())
    }

    /// Same as `Self::default()`.
    pub fn new() -> (fs: Self)
        ensures
            fs@ == Map::<u64, Resource>::empty(),
            fs.next_id() == 2,
            fs.wf(),
    {
        Self::default()
    }

    /// Same as `try_register`, but demands room in the identifier
    /// space instead of reporting its exhaustion.
    pub fn register(&mut self, resource: Resource) -> (id: Inode)
        requires
            old(self).next_id() < u64::MAX,
        ensures
            register_step(*old(self), *final(self), resource, id),
    {
        let r = self.try_register(resource);
        match r {
            Some(id) => id,
            None => vstd::pervasive::unreached(),
        }
    }

    /// Bind a fresh inode to a resource. Note that this won't make
    /// the resource be indexed anywhere: only access with the exact
    /// inode returned will be affected if you only run this. Yields
    /// an absence value if the identifier space is exhausted.
    pub fn try_register(&mut self, resource: Resource) -> (r: Option<Inode>)
        ensures
            match r {
                Some(id) => register_step(*old(self), *final(self), resource, id),
                None => old(self).next_id() == u64::MAX && *final(self) == *old(self),
            },
    {
        let id = self.next_inode;
        let next = match id.0.checked_add(1) {
            Some(n) => n,
            None => {
                return None;
            },
        };
        self.next_inode = Inode(next);
        self.nodes.insert(id.0, resource);
        Some(id)
    }

    /// Remove a binding from a certain inode, and return the previous
    /// associated resource, if any. The identifier is not reclaimed.
    pub fn unregister(&mut self, inode: Inode) -> (r: Option<Resource>)
        ensures
            unregister_step(*old(self), *final(self), inode),
            match r {
                Some(res) => old(self)@.contains_key(inode.0) && res == old(self)@[inode.0],
                None => !old(self)@.contains_key(inode.0),
            },
    {
        self.nodes.remove(&inode.0)
    }

    /// Resolve an inode to a resource.
    pub fn resolve(&self, inode: Inode) -> (r: Option<&Resource>)
        ensures
            match r {
                Some(res) => spec_resolve(*self, inode) == Some(*res),
                None => spec_resolve(*self, inode) is None,
            },
    {
        self.nodes.get(&inode.0)
    }

    /// Bind a resource to the hardcoded root inode, returning
    /// whatever was bound there before; useful for detecting double
    /// initialization.
    pub fn set_root(&mut self, resource: Resource) -> (r: Option<Resource>)
        ensures
            set_root_step(*old(self), *final(self), resource),
            match r {
                Some(prev) => old(self)@.contains_key(ROOT_ID) && prev == old(self)@[ROOT_ID],
                None => !old(self)@.contains_key(ROOT_ID),
            },
    {
        self.nodes.insert(ROOT_ID, resource)
    }

    /// Bundle a caller's identity with the inode it addresses.
    fn request(&self, inode: Inode, uid: u32, gid: u32) -> (req: Request)
        ensures
            req == (Request { uid, gid, inode }),
    {
        Request { uid, gid, inode }
    }

    /// A get-attributes dispatch as a value: `NotFound` for an
    /// unbound identifier, else the resource's attribute record with
    /// its inode field overwritten by the resolved identifier.
    pub open spec fn spec_getattr(&self, ino: Inode) -> Result<Attr, FsError> {
        match spec_resolve(*self, ino) {
            None => Err(FsError::NotFound),
            Some(node) => match node.spec_getattr() {
                Ok(attr) => Ok(stamp_inode(attr, ino.0)),
                Err(e) => Err(e),
            },
        }
    }

    /// Dispatch a get-attributes call. The dispatcher is
    /// authoritative for the inode field of the result.
    pub fn getattr(&self, uid: u32, gid: u32, ino: Inode) -> (r: Result<Attr, FsError>)
        ensures
            r == self.spec_getattr(ino),
    {
        let node = match self.resolve(ino) {
            Some(node) => node,
            None => {
                return Err(FsError::NotFound);
            },
        };
        let req = self.request(ino, uid, gid);
        match node.getattr(&req) {
            Ok(mut attr) => {
                attr.inner.ino = ino.0;
                Ok(attr)
            },
            Err(e) => Err(e),
        }
    }

    /// A lookup dispatch as a value: `NotFound` for an unbound
    /// parent, else the parent's lookup behavior; a successful result
    /// carries the child's own attributes, already inode-stamped by
    /// the nested get-attributes call.
    pub open spec fn spec_lookup(&self, parent: Inode, path: Seq<char>) -> Result<Entry, FsError> {
        match spec_resolve(*self, parent) {
            None => Err(FsError::NotFound),
            Some(node) => node.spec_lookup(*self, path),
        }
    }

    /// Dispatch a directory lookup by name.
    pub fn lookup(&self, uid: u32, gid: u32, parent: Inode, path: &String) -> (r: Result<
        Entry,
        FsError,
    >)
        ensures
            r == self.spec_lookup(parent, path@),
    {
        let node = match self.resolve(parent) {
            Some(node) => node,
            None => {
                return Err(FsError::NotFound);
            },
        };
        let req = self.request(parent, uid, gid);
        node.lookup(self, &req, path)
    }

    /// A list-entries dispatch as a value: the synthetic "." and ".."
    /// entries, both attributed to the queried identifier, then the
    /// resource's own children, with the first `offset` entries of
    /// that full sequence skipped.
    pub open spec fn spec_readdir(&self, ino: Inode, offset: usize) -> Result<
        Seq<(u64, FileType, Seq<char>)>,
        FsError,
    > {
        match spec_resolve(*self, ino) {
            None => Err(FsError::NotFound),
            Some(node) => match node.spec_children(*self) {
                Ok(children) => {
                    let full = seq![
                        (ino.0, FileType::Directory, "."@),
                        (ino.0, FileType::Directory, ".."@),
                    ] + children;
                    if offset <= full.len() {
                        Ok(full.skip(offset as int))
                    } else {
                        Ok(Seq::empty())
                    }
                },
                Err(e) => Err(e),
            },
        }
    }

    /// Dispatch a list-entries call. The offset counts from zero
    /// across the synthetic entries too; entries skipped by it are
    /// simply absent from the result.
    pub fn readdir(&self, uid: u32, gid: u32, ino: Inode, offset: usize) -> (r: Result<
        Vec<DirEntry>,
        FsError,
    >)
        ensures
            ({
                let s = self.spec_readdir(ino, offset);
                match r {
                    Ok(v) => s is Ok && entries_match(v@, s->Ok_0),
                    Err(e) => s == Err::<Seq<(u64, FileType, Seq<char>)>, FsError>(e),
                }
            }),
    {
        let node = match self.resolve(ino) {
            Some(node) => node,
            None => {
                return Err(FsError::NotFound);
            },
        };
        let req = self.request(ino, uid, gid);
        let mut entries: Vec<DirEntry> = Vec::new();
        entries.push(DirEntry::new(ino, FileType::Directory, dot_name()));
        entries.push(DirEntry::new(ino, FileType::Directory, dot_dot_name()));
        let ghost seeded = entries@;
        if let Err(e) = node.readdir(self, &req, &mut entries) {
            return Err(e);
        }
        let ghost children = node.spec_children(*self)->Ok_0;
        let ghost full = seq![
            (ino.0, FileType::Directory, "."@),
            (ino.0, FileType::Directory, ".."@),
        ] + children;
        proof {
            assert forall|k: int| 0 <= k < entries@.len() implies entries@[k]@ == full[k] by {
                if k == 0 {
                    assert(entries@[0] == entries@.subrange(0, 2)[0]);
                    assert(seeded[0]@ == (ino.0, FileType::Directory, "."@));
                } else if k == 1 {
                    assert(entries@[1] == entries@.subrange(0, 2)[1]);
                    assert(seeded[1]@ == (ino.0, FileType::Directory, ".."@));
                } else {
                    assert(entries@[k] == entries@.skip(2)[k - 2]);
                }
            }
        }
        let cap: usize = if offset < entries.len() {
            offset
        } else {
            entries.len()
        };
        let mut out: Vec<DirEntry> = Vec::new();
        let mut i: usize = cap;
        while i < entries.len()
            invariant
                cap <= i <= entries.len(),
                out@.len() == i - cap,
                forall|j: int| 0 <= j < out@.len() ==> out@[j]@ == entries@[cap + j]@,
            decreases entries.len() - i,
        {
            let entry = DirEntry::new(
                entries[i].inode,
                entries[i].filetype,
                entries[i].name.clone(),
            );
            out.push(entry);
            i += 1;
        }
        proof {
            let s = self.spec_readdir(ino, offset);
            assert(entries@.len() == full.len());
            if offset <= full.len() {
                assert(cap == offset);
                assert(s->Ok_0 == full.skip(offset as int));
                assert forall|j: int| 0 <= j < out@.len() implies out@[j]@ == full.skip(
                    offset as int,
                )[j] by {
                    assert(out@[j]@ == entries@[cap + j]@);
                    assert(full.skip(offset as int)[j] == full[offset + j]);
                }
            } else {
                assert(cap == entries@.len());
            }
        }
        Ok(out)
    }

    /// A symlink dispatch as a value: `NotFound` for an unbound
    /// parent, else the parent's symlink behavior; a successful
    /// result has its inode field overwritten with the parent's
    /// identifier, since the created node's own identifier is not
    /// separately tracked by this call path.
    pub open spec fn spec_symlink(&self, parent: Inode, path: Seq<char>, link: Seq<char>) -> Result<
        Entry,
        FsError,
    > {
        match spec_resolve(*self, parent) {
            None => Err(FsError::NotFound),
            Some(node) => match node.spec_symlink(path, link) {
                Ok(entry) => Ok(
                    Entry { attr: stamp_inode(entry.attr, parent.0), generation: entry.generation },
                ),
                Err(e) => Err(e),
            },
        }
    }

    /// Dispatch a symlink creation.
    pub fn symlink(&self, uid: u32, gid: u32, parent: Inode, path: &String, link: &String) -> (r:
        Result<Entry, FsError>)
        ensures
            r == self.spec_symlink(parent, path@, link@),
    {
        let node = match self.resolve(parent) {
            Some(node) => node,
            None => {
                return Err(FsError::NotFound);
            },
        };
        let req = self.request(parent, uid, gid);
        match node.symlink(&req, path, link) {
            Ok(mut entry) => {
                entry.attr.inner.ino = parent.0;
                Ok(entry)
            },
            Err(e) => Err(e),
        }
    }

    /// An open dispatch as a value: `NotFound` for an unbound
    /// identifier, else the resource's open behavior. The protocol
    /// layer emits the returned handle with a zero flags field.
    pub open spec fn spec_open(&self, ino: Inode, flags: u32) -> Result<FileHandle, FsError> {
        match spec_resolve(*self, ino) {
            None => Err(FsError::NotFound),
            Some(node) => node.spec_open(flags),
        }
    }

    /// Dispatch an open call.
    pub fn open(&self, uid: u32, gid: u32, ino: Inode, flags: u32) -> (r: Result<
        FileHandle,
        FsError,
    >)
        ensures
            r == self.spec_open(ino, flags),
    {
        let node = match self.resolve(ino) {
            Some(node) => node,
            None => {
                return Err(FsError::NotFound);
            },
        };
        let req = self.request(ino, uid, gid);
        node.open(&req, flags)
    }

    /// A close dispatch as a value: `NotFound` for an unbound
    /// identifier, else the resource's close behavior.
    pub open spec fn spec_release(&self, ino: Inode, fh: FileHandle, flags: u32) -> Result<
        (),
        FsError,
    > {
        match spec_resolve(*self, ino) {
            None => Err(FsError::NotFound),
            Some(node) => node.spec_close(fh, flags),
        }
    }

    /// Dispatch a close call. Failures are still reported, though the
    /// protocol layer conventionally ignores them.
    pub fn release(&self, uid: u32, gid: u32, ino: Inode, fh: FileHandle, flags: u32) -> (r: Result<
        (),
        FsError,
    >)
        ensures
            r == self.spec_release(ino, fh, flags),
    {
        let node = match self.resolve(ino) {
            Some(node) => node,
            None => {
                return Err(FsError::NotFound);
            },
        };
        let req = self.request(ino, uid, gid);
        node.close(&req, fh, flags)
    }

    /// A read dispatch as a value: `NotFound` for an unbound
    /// identifier, else the resource's read behavior for this caller.
    pub open spec fn spec_read(
        &self,
        uid: u32,
        gid: u32,
        ino: Inode,
        fh: FileHandle,
        offset: u64,
        len: u32,
    ) -> Result<Seq<u8>, FsError> {
        match spec_resolve(*self, ino) {
            None => Err(FsError::NotFound),
            Some(node) => node.spec_read(Request { uid, gid, inode: ino }, fh, offset, len),
        }
    }

    /// Dispatch a read call. The returned byte count never exceeds
    /// the requested length.
    pub fn read(&self, uid: u32, gid: u32, ino: Inode, fh: FileHandle, offset: u64, len: u32) -> (r:
        Result<Vec<u8>, FsError>)
        ensures
            ({
                let s = self.spec_read(uid, gid, ino, fh, offset, len);
                match r {
                    Ok(v) => s is Ok && v@ == s->Ok_0,
                    Err(e) => s == Err::<Seq<u8>, FsError>(e),
                }
            }),
            r matches Ok(v) ==> v@.len() <= len,
    {
        let node = match self.resolve(ino) {
            Some(node) => node,
            None => {
                return Err(FsError::NotFound);
            },
        };
        let req = self.request(ino, uid, gid);
        node.read(&req, fh, offset, len)
    }
}

/// The name of the synthetic listing entry for the directory itself.
fn dot_name() -> (s: String)
    ensures
        s@ == "."@,
{
    String::from_str(".")
}

/// The name of the synthetic listing entry for the parent directory.
fn dot_dot_name() -> (s: String)
    ensures
        s@ == ".."@,
{
    String::from_str("..")
}

/// Law: two successive registrations return identifiers that are
/// strictly increasing and never the reserved root identifier, and
/// each step keeps the registry well formed.
pub proof fn lemma_register_ids_strictly_increase(
    s0: EasyFuse,
    s1: EasyFuse,
    s2: EasyFuse,
    r1: Resource,
    r2: Resource,
    id1: Inode,
    id2: Inode,
)
    requires
        s0.wf(),
        register_step(s0, s1, r1, id1),
        register_step(s1, s2, r2, id2),
    ensures
        id1.0 != ROOT_ID,
        id2.0 != ROOT_ID,
        id1.0 < id2.0,
        s1.wf(),
        s2.wf(),
{
    lemma_register_preserves_wf(s0, s1, r1, id1);
    lemma_register_preserves_wf(s1, s2, r2, id2);
}

/// Law: registering keeps the registry well formed.
pub proof fn lemma_register_preserves_wf(
    pre: EasyFuse,
    post: EasyFuse,
    resource: Resource,
    id: Inode,
)
    requires
        pre.wf(),
        register_step(pre, post, resource, id),
    ensures
        post.wf(),
        id.0 != ROOT_ID,
        2 <= id.0 < post.next_id(),
{
    assert forall|k: u64| #[trigger] post@.contains_key(k) implies k == ROOT_ID || (2 <= k && k
        < post.next_id()) by {
        if k != id.0 {
            assert(pre@.contains_key(k));
        }
    }
}

/// Law: in a well-formed registry every bound identifier is the root
/// or lies below the allocation counter.
pub proof fn lemma_bound_id_below_counter(fs: EasyFuse, i: Inode)
    requires
        fs.wf(),
        fs@.contains_key(i.0),
    ensures
        i.0 == ROOT_ID || i.0 < fs.next_id(),
{
}

/// Law: unregistering an identifier makes resolving it yield
/// absence, and keeps the registry well formed.
pub proof fn lemma_unregister_then_resolve_absent(pre: EasyFuse, post: EasyFuse, i: Inode)
    requires
        unregister_step(pre, post, i),
    ensures
        spec_resolve(post, i) is None,
        pre.wf() ==> post.wf(),
{
    assert(!post@.contains_key(i.0));
    if pre.wf() {
        assert forall|k: u64| #[trigger] post@.contains_key(k) implies k == ROOT_ID || (2 <= k && k
            < post.next_id()) by {
            assert(pre@.contains_key(k));
        }
    }
}

/// Law: an identifier that is the root or already lies below the
/// allocation counter — in particular, one that was ever bound in a
/// well-formed registry, unregistered or not — is never returned by
/// a later registration.
pub proof fn lemma_allocated_id_never_reallocated(
    pre: EasyFuse,
    post: EasyFuse,
    resource: Resource,
    id: Inode,
    i: Inode,
)
    requires
        pre.wf(),
        i.0 == ROOT_ID || i.0 < pre.next_id(),
        register_step(pre, post, resource, id),
    ensures
        id != i,
        post.wf(),
        i.0 == ROOT_ID || i.0 < post.next_id(),
{
    lemma_register_preserves_wf(pre, post, resource, id);
}

/// Law: get-attributes is mandatory for both node kinds, so no
/// resource's attribute query ever fails.
pub proof fn lemma_getattr_total(r: Resource)
    ensures
        r.spec_getattr() is Ok,
{
    match r {
        Resource::File(_) => {
        },
        Resource::Directory(_) => {
        },
    }
}

/// Law: after the root is bound, a get-attributes dispatch on the
/// reserved root identifier succeeds and yields a record whose inode
/// field is the root identifier, whatever the resource set it to.
pub proof fn lemma_root_getattr_is_stamped(pre: EasyFuse, post: EasyFuse, resource: Resource)
    requires
        set_root_step(pre, post, resource),
    ensures
        post.spec_getattr(Inode(ROOT_ID)) is Ok,
        post.spec_getattr(Inode(ROOT_ID))->Ok_0.inner.ino == ROOT_ID,
{
    assert(post@.contains_key(ROOT_ID));
    lemma_getattr_total(post@[ROOT_ID]);
}

/// Law: a listing taken with no offset begins with a "." entry and
/// then a ".." entry, both typed as directories and attributed to the
/// queried identifier, before any real children.
pub proof fn lemma_listing_starts_with_dots(fs: EasyFuse, ino: Inode)
    requires
        fs.spec_readdir(ino, 0) is Ok,
    ensures
        fs.spec_readdir(ino, 0)->Ok_0.len() >= 2,
        fs.spec_readdir(ino, 0)->Ok_0[0] == (ino.0, FileType::Directory, "."@),
        fs.spec_readdir(ino, 0)->Ok_0[1] == (ino.0, FileType::Directory, ".."@),
{
    let node = spec_resolve(fs, ino)->Some_0;
    let children = node.spec_children(fs)->Ok_0;
    let full = seq![
        (ino.0, FileType::Directory, "."@),
        (ino.0, FileType::Directory, ".."@),
    ] + children;
    assert(full.skip(0) =~= full);
}

/// Law: a read dispatch never yields more bytes than were requested.
pub proof fn lemma_read_never_exceeds_request(
    fs: EasyFuse,
    uid: u32,
    gid: u32,
    ino: Inode,
    fh: FileHandle,
    offset: u64,
    len: u32,
)
    ensures
        fs.spec_read(uid, gid, ino, fh, offset, len) matches Ok(bytes) ==> bytes.len() <= len,
{
}

/// Law: a read whose offset is at or beyond the content length is
/// answered with `RangeError`, for any caller the file grants read
/// access to.
pub proof fn lemma_read_past_end_is_range_error(
    fs: EasyFuse,
    uid: u32,
    gid: u32,
    ino: Inode,
    fh: FileHandle,
    offset: u64,
    len: u32,
)
    requires
        spec_resolve(fs, ino) matches Some(Resource::File(f)) && offset
            >= f.0.spec_content().len() && (Request { uid, gid, inode: ino }).spec_allows(
            f.0.spec_attr().inner,
            (Permissions { bits: 4 }),
        ),
    ensures
        fs.spec_read(uid, gid, ino, fh, offset, len) == Err::<Seq<u8>, FsError>(
            FsError::RangeError,
        ),
{
}

/// Law: a file capability dispatched with any directory operation —
/// lookup, list-entries or symlink — yields `WrongNodeKind`, never
/// `NotSupported`.
pub proof fn lemma_file_rejects_directory_ops(
    fs: EasyFuse,
    ino: Inode,
    path: Seq<char>,
    link: Seq<char>,
    offset: usize,
)
    requires
        spec_resolve(fs, ino) matches Some(node) && node is File,
    ensures
        fs.spec_lookup(ino, path) == Err::<Entry, FsError>(FsError::WrongNodeKind),
        fs.spec_readdir(ino, offset) == Err::<Seq<(u64, FileType, Seq<char>)>, FsError>(
            FsError::WrongNodeKind,
        ),
        fs.spec_symlink(ino, path, link) == Err::<Entry, FsError>(FsError::WrongNodeKind),
{
}

} // verus!

//! `Resource` implementations for directory-like nodes.

use vstd::prelude::*;

use crate::errors::FsError;
use crate::newtypes::Inode;
use crate::replies::{entries_match, stamp_inode, Attr, DirEntry, Entry, FileAttr, FileType};
use crate::resource::Request;
use crate::EasyFuse;

verus! {

/// Whether a binding table holds each name at most once.
pub open spec fn names_unique(binds: Seq<(String, Inode)>) -> bool {
    forall|i: int, j: int|
        0 <= i < j < binds.len() ==> binds[i].0@ != binds[j].0@
}

/// The inode that a binding table associates with `name`, if any.
pub open spec fn spec_lookup_name(binds: Seq<(String, Inode)>, name: Seq<char>) -> Option<Inode>
    decreases binds.len(),
{
    if binds.len() == 0 {
        None
    } else if binds[0].0@ == name {
        Some(binds[0].1)
    } else {
        spec_lookup_name(binds.drop_first(), name)
    }
}

/// A binding table with the first binding of `name`, if any, removed.
pub open spec fn spec_remove_name(binds: Seq<(String, Inode)>, name: Seq<char>) -> Seq<
    (String, Inode),
>
    decreases binds.len(),
{
    if binds.len() == 0 {
        binds
    } else if binds[0].0@ == name {
        binds.drop_first()
    } else {
        seq![binds[0]] + spec_remove_name(binds.drop_first(), name)
    }
}

/// When `name` first occurs at position `i`, looking it up yields the
/// inode bound there and removing it deletes exactly that position.
proof fn lemma_name_found_at(binds: Seq<(String, Inode)>, name: Seq<char>, i: int)
    requires
        0 <= i < binds.len(),
        binds[i].0@ == name,
        forall|j: int| 0 <= j < i ==> binds[j].0@ != name,
    ensures
        spec_lookup_name(binds, name) == Some(binds[i].1),
        spec_remove_name(binds, name) == binds.remove(i),
    decreases i,
{
    if i == 0 {
        assert(binds.drop_first() =~= binds.remove(0));
    } else {
        lemma_name_found_at(binds.drop_first(), name, i - 1);
        assert(seq![binds[0]] + binds.drop_first().remove(i - 1) =~= binds.remove(i));
    }
}

/// When `name` is bound nowhere, looking it up yields nothing and
/// removing it changes nothing.
proof fn lemma_name_not_found(binds: Seq<(String, Inode)>, name: Seq<char>)
    requires
        forall|j: int| 0 <= j < binds.len() ==> binds[j].0@ != name,
    ensures
        spec_lookup_name(binds, name) == None::<Inode>,
        spec_remove_name(binds, name) == binds,
    decreases binds.len(),
{
    if binds.len() > 0 {
        lemma_name_not_found(binds.drop_first(), name);
        assert(seq![binds[0]] + binds.drop_first() =~= binds);
    }
}

/// A simple directory that you can register files on to.
#[derive(Debug)]
pub struct StaticDirectory {
    binds: Vec<(String, Inode)>,
    attr: Attr,
}

impl StaticDirectory {
    /// The name-to-inode binding table, in insertion order.
    pub closed spec fn spec_binds(&self) -> Seq<(String, Inode)> {
        self.binds@
    }

    /// The stored attribute record.
    pub closed spec fn spec_attr(&self) -> Attr {
        self.attr
    }

    /// A directory is well formed when no name is bound twice.
    pub open spec fn wf(&self) -> bool {
        names_unique(self.spec_binds())
    }

    /// Create a new instance from a file attribute.
    pub fn new(attr: Attr) -> (d: Self)
        ensures
            d.spec_attr() == attr,
            d.spec_binds() == Seq::<(String, Inode)>::empty(),
            d.wf(),
    {
        StaticDirectory { binds: Vec::new(), attr }
    }

    /// Getter for the inner file attributes.
    pub fn attr(&self) -> (r: &Attr)
        ensures
            *r == self.spec_attr(),
    {
        &self.attr
    }

    /// Setter for the inner file attributes.
    pub fn set_attr(&mut self, attr: Attr)
        ensures
            final(self).spec_attr() == attr,
            final(self).spec_binds() == old(self).spec_binds(),
    {
        self.attr = attr;
    }

    /// Bind a file onto this directory, replacing any previous
    /// binding of the same name.
    pub fn bind(&mut self, path: String, resource: Inode)
        requires
            old(self).wf(),
        ensures
            final(self).spec_binds() == spec_remove_name(old(self).spec_binds(), path@).push(
                (path, resource),
            ),
            final(self).spec_attr() == old(self).spec_attr(),
            final(self).wf(),
            spec_lookup_name(final(self).spec_binds(), path@) == Some(resource),
    {
        let ghost pre = self.binds@;
        self.unbind(&path);
        proof {
            lemma_remove_name_keeps_unique(pre, path@);
        }
        self.binds.push((path, resource));
        proof {
            let post = self.binds@;
            let removed = spec_remove_name(pre, path@);
            assert forall|i: int, j: int| 0 <= i < j < post.len() implies post[i].0@
                != post[j].0@ by {
                if j == post.len() - 1 {
                    assert(removed[i].0@ != path@);
                }
            }
            lemma_name_found_at(post, path@, post.len() - 1);
        }
    }

    /// Unbind a file from this directory, returning the inode it was
    /// bound to, if any.
    pub fn unbind(&mut self, path: &String) -> (r: Option<Inode>)
        ensures
            final(self).spec_binds() == spec_remove_name(old(self).spec_binds(), path@),
            final(self).spec_attr() == old(self).spec_attr(),
            r == spec_lookup_name(old(self).spec_binds(), path@),
            old(self).wf() ==> final(self).wf(),
    {
        let ghost pre = self.binds@;
        let mut i: usize = 0;
        while i < self.binds.len()
            invariant
                i <= self.binds.len(),
                pre == old(self).spec_binds(),
                self.binds@ == pre,
                self.attr == old(self).spec_attr(),
                forall|j: int| 0 <= j < i ==> pre[j].0@ != path@,
            decreases self.binds.len() - i,
        {
            if self.binds[i].0 == *path {
                proof {
                    lemma_name_found_at(pre, path@, i as int);
                }
                let bound = self.binds.remove(i);
                proof {
                    if names_unique(pre) {
                        lemma_remove_keeps_unique(pre, i as int);
                    }
                }
                return Some(bound.1);
            }
            i += 1;
        }
        proof {
            lemma_name_not_found(pre, path@);
        }
        None
    }

    /// The attribute record this directory reports: the stored record
    /// with the kind forced to a directory.
    pub open spec fn spec_getattr(&self) -> Attr {
        Attr {
            ttl: self.spec_attr().ttl,
            inner: FileAttr { kind: FileType::Directory, ..self.spec_attr().inner },
        }
    }

    /// Report this directory's attributes. The kind is forced rather
    /// than trusted as stored.
    pub fn getattr(&self, _req: &Request) -> (r: Result<Attr, FsError>)
        ensures
            r == Ok::<Attr, FsError>(self.spec_getattr()),
    {
        let mut attr = self.attr;
        attr.inner.kind = FileType::Directory;
        Ok(attr)
    }

    /// `lookup` as a value: `NotFound` when the name is not bound;
    /// `InternalDefect` when the binding points at an unregistered
    /// identifier, which only a bug in the embedding application can
    /// produce; else the child's attributes, stamped with the child's
    /// inode, under a zero generation counter.
    pub open spec fn spec_lookup(&self, fs: EasyFuse, path: Seq<char>) -> Result<Entry, FsError> {
        match spec_lookup_name(self.spec_binds(), path) {
            None => Err(FsError::NotFound),
            Some(ino) => if !fs@.contains_key(ino.0) {
                Err(FsError::InternalDefect)
            } else {
                match fs@[ino.0].spec_getattr() {
                    Ok(stat) => Ok(Entry { attr: stamp_inode(stat, ino.0), generation: 0 }),
                    Err(e) => Err(e),
                }
            },
        }
    }

    /// Convert a name bound on this directory to an inode: resolve
    /// the child through the registry and return its attributes.
    pub fn lookup(&self, fs: &EasyFuse, req: &Request, path: &String) -> (r: Result<
        Entry,
        FsError,
    >)
        ensures
            r == self.spec_lookup(*fs, path@),
    {
        let mut i: usize = 0;
        while i < self.binds.len()
            invariant
                i <= self.binds.len(),
                forall|j: int| 0 <= j < i ==> self.binds@[j].0@ != path@,
            decreases self.binds.len() - i,
        {
            if self.binds[i].0 == *path {
                proof {
                    lemma_name_found_at(self.binds@, path@, i as int);
                }
                let ino = self.binds[i].1;
                let resource = match fs.resolve(ino) {
                    Some(res) => res,
                    None => {
                        return Err(FsError::InternalDefect);
                    },
                };
                let mut stat = match resource.getattr(req) {
                    Ok(stat) => stat,
                    Err(e) => {
                        return Err(e);
                    },
                };
                stat.inner.ino = ino.0;
                return Ok(Entry { attr: stat, generation: 0 });
            }
            i += 1;
        }
        proof {
            lemma_name_not_found(self.binds@, path@);
        }
        Err(FsError::NotFound)
    }

    /// Read all entries of this directory: one triple per binding, in
    /// binding order, each child resolved through the registry so the
    /// entry carries the child's reported kind.
    pub fn readdir(&self, fs: &EasyFuse, req: &Request, output: &mut Vec<DirEntry>) -> (r: Result<
        (),
        FsError,
    >)
        ensures
            ({
                let c = spec_children(self.spec_binds(), *fs);
                match r {
                    Ok(()) => c is Ok && final(output)@.len() == old(output)@.len()
                        + c->Ok_0.len() && final(output)@.subrange(0, old(output)@.len() as int)
                        == old(output)@ && entries_match(
                        final(output)@.skip(old(output)@.len() as int),
                        c->Ok_0,
                    ),
                    Err(e) => c == Err::<Seq<(u64, FileType, Seq<char>)>, FsError>(e)
                        && *final(output) == *old(output),
                }
            }),
    {
        let mut entries: Vec<DirEntry> = Vec::new();
        let mut i: usize = 0;
        while i < self.binds.len()
            invariant
                i <= self.binds.len(),
                spec_children(self.binds@.take(i as int), *fs) is Ok,
                entries_match(entries@, spec_children(self.binds@.take(i as int), *fs)->Ok_0),
            decreases self.binds.len() - i,
        {
            let ino = self.binds[i].1;
            let resource = match fs.resolve(ino) {
                Some(res) => res,
                None => {
                    proof {
                        lemma_children_error_at(self.binds@, *fs, i as int);
                    }
                    return Err(FsError::InternalDefect);
                },
            };
            let stat = match resource.getattr(req) {
                Ok(stat) => stat,
                Err(e) => {
                    return Err(e);
                },
            };
            entries.push(DirEntry::new(ino, stat.inner.kind, self.binds[i].0.clone()));
            proof {
                lemma_children_extend(self.binds@, *fs, i as int);
            }
            i += 1;
        }
        proof {
            assert(self.binds@.take(self.binds@.len() as int) =~= self.binds@);
        }
        let ghost pre_output = output@;
        let ghost children = entries@;
        output.append(&mut entries);
        proof {
            assert(output@.subrange(0, pre_output.len() as int) =~= pre_output);
            assert(output@.skip(pre_output.len() as int) =~= children);
        }
        Ok(())
    }
}

/// `readdir` of a whole binding table as a value: one triple per
/// binding, in order; `InternalDefect` as soon as a binding points at
/// an unregistered identifier.
pub open spec fn spec_children(binds: Seq<(String, Inode)>, fs: EasyFuse) -> Result<
    Seq<(u64, FileType, Seq<char>)>,
    FsError,
>
    decreases binds.len(),
{
    if binds.len() == 0 {
        Ok(Seq::empty())
    } else {
        let ino = binds[0].1;
        if !fs@.contains_key(ino.0) {
            Err(FsError::InternalDefect)
        } else {
            match fs@[ino.0].spec_getattr() {
                Ok(stat) => match spec_children(binds.drop_first(), fs) {
                    Ok(rest) => Ok(seq![(ino.0, stat.inner.kind, binds[0].0@)] + rest),
                    Err(e) => Err(e),
                },
                Err(e) => Err(e),
            }
        }
    }
}

/// Listing one more binding whose child resolves appends exactly one
/// triple to the listing of the prefix before it.
proof fn lemma_children_extend(binds: Seq<(String, Inode)>, fs: EasyFuse, i: int)
    requires
        0 <= i < binds.len(),
        spec_children(binds.take(i), fs) is Ok,
        fs@.contains_key(binds[i].1.0),
        fs@[binds[i].1.0].spec_getattr() is Ok,
    ensures
        spec_children(binds.take(i + 1), fs) is Ok,
        spec_children(binds.take(i + 1), fs)->Ok_0 == spec_children(binds.take(i), fs)->Ok_0.push(
            (
                binds[i].1.0,
                fs@[binds[i].1.0].spec_getattr()->Ok_0.inner.kind,
                binds[i].0@,
            ),
        ),
    decreases i,
{
    if i == 0 {
        assert(binds.take(1).drop_first() =~= Seq::<(String, Inode)>::empty());
        assert(binds.take(1)[0] == binds[0]);
        assert(spec_children(binds.take(1), fs)->Ok_0 =~= spec_children(binds.take(0), fs)
            ->Ok_0.push((binds[0].1.0, fs@[binds[0].1.0].spec_getattr()->Ok_0.inner.kind, binds[0].0@)));
    } else {
        assert(binds.take(i).drop_first() =~= binds.drop_first().take(i - 1));
        assert(binds.take(i + 1).drop_first() =~= binds.drop_first().take(i));
        lemma_children_extend(binds.drop_first(), fs, i - 1);
        assert(spec_children(binds.take(i + 1), fs)->Ok_0 =~= spec_children(binds.take(i), fs)
            ->Ok_0.push((binds[i].1.0, fs@[binds[i].1.0].spec_getattr()->Ok_0.inner.kind, binds[i].0@)));
    }
}

/// A binding that points at an unregistered identifier makes the
/// whole listing an internal defect, whatever follows it.
proof fn lemma_children_error_at(binds: Seq<(String, Inode)>, fs: EasyFuse, i: int)
    requires
        0 <= i < binds.len(),
        spec_children(binds.take(i), fs) is Ok,
        !fs@.contains_key(binds[i].1.0),
    ensures
        spec_children(binds, fs) == Err::<Seq<(u64, FileType, Seq<char>)>, FsError>(
            FsError::InternalDefect,
        ),
    decreases i,
{
    if i == 0 {
    } else {
        assert(binds.take(i).drop_first() =~= binds.drop_first().take(i - 1));
        lemma_children_error_at(binds.drop_first(), fs, i - 1);
    }
}

/// Removing one position keeps the remaining names pairwise distinct.
proof fn lemma_remove_keeps_unique(binds: Seq<(String, Inode)>, i: int)
    requires
        names_unique(binds),
        0 <= i < binds.len(),
    ensures
        names_unique(binds.remove(i)),
{
    let removed = binds.remove(i);
    assert forall|p: int, q: int| 0 <= p < q < removed.len() implies removed[p].0@
        != removed[q].0@ by {
        let p0 = if p < i { p } else { p + 1 };
        let q0 = if q < i { q } else { q + 1 };
        assert(removed[p] == binds[p0] && removed[q] == binds[q0]);
    }
}

/// Removing the first binding of a name keeps the remaining names
/// pairwise distinct, and with no duplicates to begin with it leaves
/// no binding of that name behind.
proof fn lemma_remove_name_keeps_unique(binds: Seq<(String, Inode)>, name: Seq<char>)
    requires
        names_unique(binds),
    ensures
        names_unique(spec_remove_name(binds, name)),
        forall|j: int|
            0 <= j < spec_remove_name(binds, name).len() ==> spec_remove_name(binds, name)[j].0@
                != name,
    decreases binds.len(),
{
    if binds.len() > 0 {
        if binds[0].0@ == name {
            lemma_remove_keeps_unique(binds, 0);
            assert(binds.drop_first() =~= binds.remove(0));
            assert forall|j: int| 0 <= j < binds.drop_first().len() implies binds.drop_first()[j].0@
                != name by {
                assert(binds.drop_first()[j] == binds[j + 1]);
            }
        } else {
            assert(names_unique(binds.drop_first())) by {
                assert forall|p: int, q: int|
                    0 <= p < q < binds.drop_first().len() implies binds.drop_first()[p].0@
                    != binds.drop_first()[q].0@ by {
                    assert(binds.drop_first()[p] == binds[p + 1]);
                    assert(binds.drop_first()[q] == binds[q + 1]);
                }
            }
            lemma_remove_name_keeps_unique(binds.drop_first(), name);
            let rest = spec_remove_name(binds.drop_first(), name);
            let whole = seq![binds[0]] + rest;
            assert forall|p: int, q: int| 0 <= p < q < whole.len() implies whole[p].0@
                != whole[q].0@ by {
                if p == 0 {
                    lemma_remove_name_element(binds.drop_first(), name, q - 1);
                } else {
                    assert(whole[p] == rest[p - 1] && whole[q] == rest[q - 1]);
                }
            }
            assert forall|j: int| 0 <= j < whole.len() implies whole[j].0@ != name by {
                if j > 0 {
                    assert(whole[j] == rest[j - 1]);
                }
            }
        }
    }
}

/// Every binding left after a removal was present before it.
proof fn lemma_remove_name_element(binds: Seq<(String, Inode)>, name: Seq<char>, j: int)
    requires
        0 <= j < spec_remove_name(binds, name).len(),
    ensures
        exists|k: int|
            0 <= k < binds.len() && binds[k] == #[trigger] spec_remove_name(binds, name)[j],
    decreases binds.len(),
{
    if binds.len() > 0 {
        if binds[0].0@ == name {
            assert(spec_remove_name(binds, name)[j] == binds[j + 1]);
        } else {
            if j == 0 {
                assert(spec_remove_name(binds, name)[0] == binds[0]);
            } else {
                lemma_remove_name_element(binds.drop_first(), name, j - 1);
                let k = choose|k: int|
                    0 <= k < binds.drop_first().len() && binds.drop_first()[k]
                        == #[trigger] spec_remove_name(binds.drop_first(), name)[j - 1];
                assert(binds.drop_first()[k] == binds[k + 1]);
            }
        }
    }
}

} // verus!

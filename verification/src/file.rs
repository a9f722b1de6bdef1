//! `Resource` implementations for file-like nodes.

use vstd::prelude::*;

use crate::errors::FsError;
use crate::newtypes::{FileHandle, Permissions};
use crate::replies::{Attr, FileAttr, FileType};
use crate::resource::Request;

verus! {

/// A simple static file.
#[derive(Debug)]
pub struct StaticFile {
    content: Vec<u8>,
    attr: Attr,
}

impl StaticFile {
    /// The static data held by this file.
    pub closed spec fn spec_content(&self) -> Seq<u8> {
        self.content@
    }

    /// The stored attribute record.
    pub closed spec fn spec_attr(&self) -> Attr {
        self.attr
    }

    /// Create a new instance from a file attribute.
    pub fn new(attr: Attr) -> (f: Self)
        ensures
            f.spec_attr() == attr,
            f.spec_content() == Seq::<u8>::empty(),
    {
        StaticFile { content: Vec::new(), attr }
    }

    /// Getter for the inner file attributes.
    pub fn attr(&self) -> (r: &Attr)
        ensures
            *r == self.spec_attr(),
    {
        &self.attr
    }

    /// Setter for the inner file attributes.
    pub fn set_attr(&mut self, attr: Attr)
        ensures
            final(self).spec_attr() == attr,
            final(self).spec_content() == old(self).spec_content(),
    {
        self.attr = attr;
    }

    /// Set the static data to be read from the file.
    pub fn set_content(&mut self, content: Vec<u8>)
        ensures
            final(self).spec_content() == content@,
            final(self).spec_attr() == old(self).spec_attr(),
    {
        self.content = content;
    }

    /// Getter for the inner static data to be read from the file.
    pub fn content(&self) -> (r: &[u8])
        ensures
            r@ == self.spec_content(),
    {
        self.content.as_slice()
    }

    /// The attribute record this file reports: the stored record with
    /// the kind forced to a regular file and the size and block count
    /// recomputed from the content.
    pub open spec fn spec_getattr(&self) -> Attr {
        Attr {
            ttl: self.spec_attr().ttl,
            inner: FileAttr {
                kind: FileType::RegularFile,
                size: self.spec_content().len() as u64,
                blocks: (self.spec_content().len() as u64) / 4096,
                ..self.spec_attr().inner
            },
        }
    }

    /// Report this file's attributes. The kind, size and block count
    /// are derived from the content rather than trusted as stored.
    pub fn getattr(&self, _req: &Request) -> (r: Result<Attr, FsError>)
        ensures
            r == Ok::<Attr, FsError>(self.spec_getattr()),
    {
        let mut attr = self.attr;
        attr.inner.kind = FileType::RegularFile;
        attr.inner.size = self.content.len() as u64;
        attr.inner.blocks = attr.inner.size / 4096;
        Ok(attr)
    }

    /// `read` as a value: `PermissionDenied` when the caller lacks
    /// read access, `RangeError` when the offset is at or beyond the
    /// content length, else the content from `offset` on, truncated
    /// to `len` bytes.
    pub open spec fn spec_read(&self, req: Request, offset: u64, len: u32) -> Result<
        Seq<u8>,
        FsError,
    > {
        if !req.spec_allows(self.spec_attr().inner, (Permissions { bits: 4 })) {
            Err(FsError::PermissionDenied)
        } else if offset >= self.spec_content().len() {
            Err(FsError::RangeError)
        } else {
            let end = if offset + len <= self.spec_content().len() {
                offset + len
            } else {
                self.spec_content().len() as int
            };
            Ok(self.spec_content().subrange(offset as int, end))
        }
    }

    /// Read up to `len` bytes of content starting at `offset`, after
    /// checking the caller's read permission.
    pub fn read(&self, req: &Request, _fh: FileHandle, offset: u64, len: u32) -> (r: Result<
        Vec<u8>,
        FsError,
    >)
        ensures
            ({
                let s = self.spec_read(*req, offset, len);
                match r {
                    Ok(v) => s is Ok && v@ == s->Ok_0,
                    Err(e) => s == Err::<Seq<u8>, FsError>(e),
                }
            }),
            r matches Ok(v) ==> v@.len() <= len,
    {
        if let Err(e) = req.ensure_access(&self.attr.inner, Permissions::read()) {
            return Err(e);
        }
        if offset >= self.content.len() as u64 {
            return Err(FsError::RangeError);
        }
        let start: usize = offset as usize;
        let remaining: usize = self.content.len() - start;
        let take: usize = if (len as usize) < remaining {
            len as usize
        } else {
            remaining
        };
        let mut buf: Vec<u8> = Vec::new();
        let mut i: usize = 0;
        while i < take
            invariant
                i <= take,
                start + take <= self.content.len(),
                buf@ =~= self.content@.subrange(start as int, start + i),
            decreases take - i,
        {
            buf.push(self.content[start + i]);
            i += 1;
        }
        assert(buf@ =~= self.spec_read(*req, offset, len)->Ok_0);
        Ok(buf)
    }
}

} // verus!

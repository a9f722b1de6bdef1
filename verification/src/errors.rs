//! The fixed error vocabulary that resource operations and the
//! dispatcher report to the protocol layer.

use vstd::prelude::*;

verus! {

/// Everything that can go wrong while servicing a filesystem call.
///
/// The protocol layer translates these into its own transport-level
/// error representation; nothing is retried internally.
#[derive(Clone, Copy, Debug, PartialEq, Eq, Structural)]
pub enum FsError {
    /// The requested identifier is not bound in the registry.
    NotFound,
    /// The operation has no override and no meaningful default.
    NotSupported,
    /// A capability view rejected a call outside its node kind.
    /// Distinct from `NotSupported`: the operation is never valid
    /// for this kind of node, not merely unimplemented.
    WrongNodeKind,
    /// The permission evaluator rejected the caller's access.
    PermissionDenied,
    /// A requested byte range lies outside the content bounds.
    RangeError,
    /// An operation-specific argument was malformed.
    BadArgument,
    /// The identifier space is exhausted.
    Overflow,
    /// An invariant the core itself guarantees was violated, e.g. a
    /// directory binding pointing at an unregistered identifier.
    /// Fatal: it signals a bug in the embedding application.
    InternalDefect,
}

} // verus!

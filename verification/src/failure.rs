//! I/O errors as the connection core sees them.
//!
//! An I/O error is carried through untouched so that the driver can surface
//! it. The one thing the core reads of it is whether it only says that the
//! operation would have blocked.

use vstd::prelude::*;

verus! {

/// `std::io::Error`, carried through as an opaque value.
#[verifier::external_type_specification]
#[verifier::external_body]
pub struct ExIoError(std::io::Error);

/// How an I/O error bears on a connection.
#[derive(Clone, Copy, Debug, PartialEq, Eq, Structural)]
pub enum FailureKind {
    /// No data was available although readiness had been signalled.
    WouldBlock,
    /// Anything else: the connection cannot go on.
    Fatal,
}

/// An I/O error together with what the core reads of it.
#[derive(Debug)]
pub struct IoFailure {
    pub kind: FailureKind,
    pub source: std::io::Error,
}

/// The kind that an I/O error reports of itself, as far as the core reads it.
pub uninterp spec fn error_kind(error: std::io::Error) -> FailureKind;

/// Calls `std::io::Error::kind` and tells `ErrorKind::WouldBlock` from every
/// other kind.
///
/// Trusted: the answer is decided by the error alone, and is named
/// `error_kind`. Nothing more is claimed of it.
#[verifier::external_body]
fn failure_kind(error: &std::io::Error) -> (kind: FailureKind)
    ensures
        kind == error_kind(*error),
{
    match error.kind() {
        std::io::ErrorKind::WouldBlock => FailureKind::WouldBlock,
        _ => FailureKind::Fatal,
    }
}

impl IoFailure {
    /// Wraps an I/O error, recording beside it the kind that it reports. The
    /// error itself is kept as it came.
    pub fn from_io(error: std::io::Error) -> (failure: IoFailure)
        ensures
            failure == (IoFailure { kind: error_kind(error), source: error }),
    {
        let kind = failure_kind(&error);
        IoFailure { kind, source: error }
    }
}

} // verus!

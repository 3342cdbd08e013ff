//! Classification of one non-blocking read attempt.

use vstd::prelude::*;
use crate::failure::error_kind;
use crate::failure::FailureKind;
use crate::failure::IoFailure;

verus! {

/// What one read attempt on a connection amounted to.
#[derive(Debug)]
pub enum ReadOutcome {
    /// The read delivered `bytes_read > 0` bytes, staged in `bytes`.
    Data { bytes_read: usize, bytes: Vec<u8> },
    /// A zero-length read: the peer shut the stream down in good order.
    OrderlyClose,
    /// Nothing was available after all. Not an error.
    TransientUnavailable,
    /// The socket failed; the connection is lost.
    ConnectionIoError(std::io::Error),
}

/// `ReadOutcome` with the staged bytes as a sequence.
pub enum ReadOutcomeView {
    Data { bytes_read: usize, bytes: Seq<u8> },
    OrderlyClose,
    TransientUnavailable,
    ConnectionIoError(std::io::Error),
}

impl View for ReadOutcome {
    type V = ReadOutcomeView;

    open spec fn view(&self) -> ReadOutcomeView {
        match *self {
            ReadOutcome::Data { bytes_read, bytes } => ReadOutcomeView::Data {
                bytes_read,
                bytes: bytes@,
            },
            ReadOutcome::OrderlyClose => ReadOutcomeView::OrderlyClose,
            ReadOutcome::TransientUnavailable => ReadOutcomeView::TransientUnavailable,
            ReadOutcome::ConnectionIoError(source) => ReadOutcomeView::ConnectionIoError(source),
        }
    }
}

/// The outcome of a read that returned `result` with `bytes` in its buffer.
///
/// A count of zero is the end of the stream, whatever the buffer holds; any
/// other count is data. A would-block error is transient, every other error
/// is fatal and is kept as it came.
pub open spec fn classify_spec(result: Result<usize, IoFailure>, bytes: Seq<u8>) -> ReadOutcomeView {
    match result {
        Ok(bytes_read) => if bytes_read == 0 {
            ReadOutcomeView::OrderlyClose
        } else {
            ReadOutcomeView::Data { bytes_read, bytes }
        },
        Err(failure) => match failure.kind {
            FailureKind::WouldBlock => ReadOutcomeView::TransientUnavailable,
            FailureKind::Fatal => ReadOutcomeView::ConnectionIoError(failure.source),
        },
    }
}

impl ReadOutcome {
    /// Classifies a read attempt whose error, if any, has its kind recorded.
    pub fn classify(result: Result<usize, IoFailure>, buf: Vec<u8>) -> (outcome: ReadOutcome)
        ensures
            outcome@ == classify_spec(result, buf@),
    {
        match result {
            Ok(bytes_read) => {
                if bytes_read == 0 {
                    ReadOutcome::OrderlyClose
                } else {
                    ReadOutcome::Data { bytes_read, bytes: buf }
                }
            },
            Err(failure) => match failure.kind {
                FailureKind::WouldBlock => ReadOutcome::TransientUnavailable,
                FailureKind::Fatal => ReadOutcome::ConnectionIoError(failure.source),
            },
        }
    }
}

/// A read result as the socket reported it, with the kind of its error, if
/// any, recorded beside the error.
pub open spec fn recorded(result: Result<usize, std::io::Error>) -> Result<usize, IoFailure> {
    match result {
        Ok(bytes_read) => Ok(bytes_read),
        Err(error) => Err(IoFailure { kind: error_kind(error), source: error }),
    }
}

/// Classifies a read attempt as the socket reported it: an error goes by the
/// kind that it reports of itself.
pub fn classify_read(result: Result<usize, std::io::Error>, buf: Vec<u8>) -> (outcome: ReadOutcome)
    ensures
        outcome@ == classify_spec(recorded(result), buf@),
{
    match result {
        Ok(bytes_read) => ReadOutcome::classify(Ok(bytes_read), buf),
        Err(error) => ReadOutcome::classify(Err(IoFailure::from_io(error)), buf),
    }
}

} // verus!

//! Reading and writing on an open port: how the driver's timed calls end,
//! and what each ending means for the caller.

use crate::error::{view_of, ComPortError, ComPortResult, ErrorView};
use crate::text::{decimal, decimal_string};
use vstd::prelude::*;
use vstd::string::*;

verus! {

/// Seconds that a write, and the flush after it, may each take.
pub const WRITE_TIMEOUT_SECS: u64 = 3;

/// Seconds that a read may take.
pub const READ_TIMEOUT_SECS: u64 = 3;

/// How a timed call into the driver ended.
#[derive(Debug, Clone, PartialEq, Eq)]
pub enum IoOutcome<T> {
    /// The call returned in time, with this value.
    Completed(T),
    /// The call returned in time, with this failure.
    Failed(String),
    /// The time ran out before the call returned.
    TimedOut,
}

/// The detail of a write that ran out of time.
pub open spec fn write_timeout_detail(port_name: Seq<char>) -> Seq<char> {
    "Write operation timed out after "@ + decimal(WRITE_TIMEOUT_SECS as nat)
        + " seconds for port: "@ + port_name
}

/// The detail of a write that the driver failed.
pub open spec fn write_failure_detail(port_name: Seq<char>) -> Seq<char> {
    "Failed to write data to port: "@ + port_name
}

/// The detail of a flush that ran out of time.
pub open spec fn flush_timeout_detail(port_name: Seq<char>) -> Seq<char> {
    "Flush operation timed out after "@ + decimal(WRITE_TIMEOUT_SECS as nat)
        + " seconds for port: "@ + port_name
}

/// The detail of a flush that the driver failed.
pub open spec fn flush_failure_detail(port_name: Seq<char>) -> Seq<char> {
    "Failed to flush port: "@ + port_name
}

/// The detail of a read that the driver failed.
pub open spec fn read_failure_detail(port_name: Seq<char>, cause: Seq<char>) -> Seq<char> {
    "Failed to read data from port "@ + port_name + ": "@ + cause
}

/// What the write call's ending means: the number of bytes written, with
/// the flush still to come, or the error that ends the operation.
pub open spec fn write_answer(port_name: Seq<char>, outcome: IoOutcome<usize>) -> Result<
    usize,
    ErrorView,
> {
    match outcome {
        IoOutcome::Completed(written) => Ok(written),
        IoOutcome::Failed(_) => Err(ErrorView::WriteFailed(write_failure_detail(port_name))),
        IoOutcome::TimedOut => Err(ErrorView::WriteFailed(write_timeout_detail(port_name))),
    }
}

/// What the flush's ending means for a write of `written` bytes.
pub open spec fn flush_answer(
    port_name: Seq<char>,
    written: usize,
    outcome: IoOutcome<()>,
) -> Result<usize, ErrorView> {
    match outcome {
        IoOutcome::Completed(_) => Ok(written),
        IoOutcome::Failed(_) => Err(ErrorView::WriteFailed(flush_failure_detail(port_name))),
        IoOutcome::TimedOut => Err(ErrorView::WriteFailed(flush_timeout_detail(port_name))),
    }
}

/// What a read's ending means: the bytes that arrived, none at all when the
/// time ran out, or the driver's failure.
pub open spec fn read_answer(
    port_name: Seq<char>,
    buffer: Seq<u8>,
    outcome: IoOutcome<usize>,
) -> Result<Seq<u8>, ErrorView> {
    match outcome {
        IoOutcome::Completed(count) => Ok(
            if count <= buffer.len() {
                buffer.subrange(0, count as int)
            } else {
                buffer
            },
        ),
        IoOutcome::Failed(cause) => Err(
            ErrorView::ReadFailed(read_failure_detail(port_name, cause@)),
        ),
        IoOutcome::TimedOut => Ok(Seq::empty()),
    }
}

/// A buffer of `size` zero bytes for the driver to read into.
pub fn read_buffer(size: usize) -> (buffer: Vec<u8>)
    ensures
        buffer@ == Seq::new(size as nat, |i: int| 0u8),
{
    vec![0u8; size]
}

/// Settles the write call of a write to `port_name`.
///
/// `Ok` carries the number of bytes that the driver wrote: the caller now
/// flushes the port and hands the flush's ending to `flush_completed`. An
/// error ends the operation; the port stays open. Running out of time and a
/// failure of the driver are both `WriteFailed`, with different details.
pub fn write_completed(port_name: &str, outcome: IoOutcome<usize>) -> (answer: ComPortResult<
    usize,
>)
    ensures
        view_of(answer) == write_answer(port_name@, outcome),
{
    match outcome {
        IoOutcome::Completed(written) => Ok(written),
        IoOutcome::Failed(_) => {
            let detail = String::from_str("Failed to write data to port: ").concat(port_name);
            Err(ComPortError::WriteFailed(detail))
        },
        IoOutcome::TimedOut => {
            let seconds = decimal_string(WRITE_TIMEOUT_SECS);
            let detail = String::from_str("Write operation timed out after ").concat(
                seconds.as_str(),
            ).concat(" seconds for port: ").concat(port_name);
            Err(ComPortError::WriteFailed(detail))
        },
    }
}

/// Settles the flush that follows a write of `written` bytes to
/// `port_name`: the count of the write, or `WriteFailed`.
pub fn flush_completed(port_name: &str, written: usize, outcome: IoOutcome<()>) -> (answer:
    ComPortResult<usize>)
    ensures
        view_of(answer) == flush_answer(port_name@, written, outcome),
{
    match outcome {
        IoOutcome::Completed(_) => Ok(written),
        IoOutcome::Failed(_) => {
            let detail = String::from_str("Failed to flush port: ").concat(port_name);
            Err(ComPortError::WriteFailed(detail))
        },
        IoOutcome::TimedOut => {
            let seconds = decimal_string(WRITE_TIMEOUT_SECS);
            let detail = String::from_str("Flush operation timed out after ").concat(
                seconds.as_str(),
            ).concat(" seconds for port: ").concat(port_name);
            Err(ComPortError::WriteFailed(detail))
        },
    }
}

/// Settles a read from `port_name` into `buffer`.
///
/// A read that returned `count` bytes gives the first `count` bytes of the
/// buffer (all of it, should the count exceed its length). A read that ran
/// out of time gives no bytes and no error: nothing arrived, the port is
/// not broken. A failure of the driver gives `ReadFailed`.
pub fn read_completed(port_name: &str, buffer: Vec<u8>, outcome: IoOutcome<usize>) -> (answer:
    ComPortResult<Vec<u8>>)
    ensures
        view_of(answer) == read_answer(port_name@, buffer@, outcome),
{
    match outcome {
        IoOutcome::Completed(count) => {
            let mut bytes = buffer;
            bytes.truncate(count);
            Ok(bytes)
        },
        IoOutcome::Failed(cause) => {
            let detail = String::from_str("Failed to read data from port ").concat(
                port_name,
            ).concat(": ").concat(cause.as_str());
            Err(ComPortError::ReadFailed(detail))
        },
        IoOutcome::TimedOut => {
            let bytes: Vec<u8> = Vec::new();
            Ok(bytes)
        },
    }
}

} // verus!

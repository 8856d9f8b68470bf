//! Parallel single-file transfer over SSH: the planning and decision logic.
//!
//! A transfer splits a file into one contiguous segment per stream, copies
//! each segment with positional reads and writes over its own session, retries
//! a failed segment from its start with exponential backoff, and fails as a
//! whole when any stream spends its retry budget.

pub mod assembly;
pub mod command;
pub mod copy;
pub mod format;
pub mod location;
pub mod retry;
pub mod segment;
pub mod session;
pub mod text;
pub mod transfer;

pub use copy::{CopyError, Drain, SegmentCopy, BUFFER_SIZE};
pub use format::{format_size, format_speed};
pub use location::{parse_location, validate_paths, Location, PathKind, RemoteHost};
pub use retry::{calculate_retry_delay, retry_delay_ms, RetryAction, RetryState};
pub use segment::{plan_segments, Segment};
pub use session::{auth_chain, AuthStep, SessionConfig};
pub use text::format_decimal;
pub use transfer::{
    extension_offset, stream_failure_message, transfer_outcome, transfer_report, FailureMap,
    TransferStats,
};

//! The plain data the pipeline moves around: object coordinates, the resolved
//! destination, one log record, the processing clock reading, and the error
//! taxonomy of a single invocation.

use vstd::prelude::*;

verus! {

/// Names one object held by the storage service.
#[derive(Clone, Debug)]
pub struct StorageObjectReference {
    pub bucket: String,
    pub key: String,
}

impl StorageObjectReference {
    /// Both coordinates must be non-empty to name an object.
    pub open spec fn wf(self) -> bool {
        self.bucket@.len() > 0 && self.key@.len() > 0
    }
}

/// The log group and the day-keyed stream that one invocation publishes to.
#[derive(Clone, Debug)]
pub struct LogDestination {
    pub group: String,
    pub stream: String,
}

/// One event handed to the log-aggregation service: an opaque line of text
/// (UTF-8 bytes) and the shared invocation timestamp in milliseconds.
#[derive(Clone, Debug)]
pub struct LogRecord {
    pub message: Vec<u8>,
    pub timestamp: i64,
}

/// A reading of the invocation clock, split into the calendar day (UTC) that
/// names the destination stream and the millisecond timestamp stamped on
/// every published record.
#[derive(Clone, Copy, Debug)]
pub struct ProcessingTime {
    pub year: i32,
    pub month: u32,
    pub day: u32,
    pub millis: i64,
}

impl ProcessingTime {
    /// A calendar day the pipeline can format as `YYYY-MM-DD`.
    pub open spec fn wf(self) -> bool {
        &&& 0 <= self.year <= 9999
        &&& 1 <= self.month <= 12
        &&& 1 <= self.day <= 31
    }
}

/// Why stream creation was refused, as the caller classified it: the one
/// tolerated outcome is its own variant, recognized structurally rather than
/// by searching an error message.
#[derive(Debug)]
pub enum CreateStreamError {
    /// The stream already exists; treated as success.
    AlreadyExists,
    /// Any other refusal (permissions, missing group, throttling), fatal.
    Other(String),
}

/// Every way one invocation can fail. Each is terminal: there is no retry or
/// partial processing inside the pipeline.
#[derive(Debug)]
pub enum PipelineError {
    /// The notification held no record, or the first record lacked a
    /// non-empty bucket name or object key.
    Input,
    /// The object store refused or failed the read.
    Retrieval(String),
    /// The object body was not well-formed gzip, or did not inflate to
    /// valid UTF-8 text.
    Decode,
    /// Stream creation failed for a reason other than the stream already
    /// existing.
    Resolution(String),
    /// Publishing a line failed; later lines are never attempted.
    Publish(String),
}

} // verus!

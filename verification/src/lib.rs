//! Ingestion pipeline for compressed access-log objects: a storage-write
//! notification names an object, the object's gzip body is inflated to UTF-8
//! text, and every non-empty line is republished as a timestamped event to a
//! log stream named after the processing day.

pub mod codec;
pub mod datefmt;
pub mod lines;
pub mod notification;
pub mod pipeline;
pub mod types;

pub use codec::compress_utf8;
pub use codec::decompress_utf8;
pub use datefmt::current_processing_time;
pub use datefmt::resolve_destination;
pub use datefmt::stream_name_for;
pub use lines::split_nonempty_lines;
pub use notification::decode_notification;
pub use notification::Notification;
pub use notification::NotificationRecord;
pub use pipeline::start;
pub use pipeline::Action;
pub use pipeline::Event;
pub use pipeline::Phase;
pub use pipeline::Pipeline;
pub use types::CreateStreamError;
pub use types::PipelineError;
pub use types::LogDestination;
pub use types::LogRecord;
pub use types::ProcessingTime;
pub use types::StorageObjectReference;

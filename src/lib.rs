//! Typed change events from a replica set's operation log.
//!
//! The library turns loosely typed log records (BSON documents) into
//! `Operation` values and decides, for each result a tailing cursor hands
//! out, whether an operation is yielded or the cursor is pulled again.

pub mod error;
pub mod operation;
pub mod options;
pub mod record;
pub mod tail;

pub use error::{Error, ErrorView};
pub use operation::{Operation, OperationView, UtcTime, timestamp_to_datetime};
pub use options::{OplogOptions, LOG_COLLECTION, LOG_DATABASE};
pub use record::{AccessError, Field};
pub use tail::{replay, step, Pulled, Step};

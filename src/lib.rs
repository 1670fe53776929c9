//! Failure taxonomy of a multi-stage disk-imaging pipeline: one error kind per
//! stage, the embeddings between them, and the resolution of any error to a
//! process exit code and a one-line message.

pub mod decimal;
pub mod error;
pub mod laws;

pub use error::{FormatError, IsoError, MountError, PartitioningError, USBMakerError};

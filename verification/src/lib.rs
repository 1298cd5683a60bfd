//! Decoders for two fixed-layout binary dataset formats — the headered IDX
//! layout used by the handwritten-digit and fashion image sets, and the
//! headerless flat-record layout used by the small-image classification
//! sets — assembled into labeled, typed tensors ready for training.
//!
//! The core is the decode-and-assemble pipeline: header validation,
//! record-stride extraction, one-hot label encoding, train/validation/test
//! partitioning, and optional intensity normalization. File fetching and
//! decompression are thin collaborators outside this crate; the decoders
//! here work on in-memory byte sequences only.

pub mod arrays;
pub mod bytes;
pub mod cifar;
pub mod cifar10;
pub mod cifar100;
pub mod cifar_builder;
pub mod download;
pub mod error;
pub mod flat;
pub mod header;
pub mod idx;
pub mod label;
pub mod mnist;
pub mod mnist_builder;
pub mod mnist_fashion;
pub mod split;
pub mod tensor;

pub use error::ConfigError;
pub use error::Error;
pub use error::FormatError;
pub use error::IoError;

//! Metadata and pixel-geometry extraction for DICOM Part 10 files.
//!
//! The byte-level decoding of a data set is done by the `dicom` crate; this
//! library checks the file framing, resolves the well-known tags into a typed
//! patient / study / series / instance record, derives the pixel layout and
//! validates the record. Every function carries a contract that Verus
//! proves; what is taken on trust of the `dicom` crate stands in [`dataset`].

pub mod dataset;
pub mod error;
pub mod metadata;
pub mod parser;
pub mod pixel;
pub mod resolver;
pub mod tags;
pub mod text;
pub mod validation;

pub use error::DicomError;
pub use metadata::{DicomInstance, DicomMetadata};
pub use parser::{DicomParser, ParseOptions};
pub use pixel::{PixelData, PixelDataDescriptor};

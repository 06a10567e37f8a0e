//! Validation of the header and the index table of an ICU binary data file.
//!
//! A data file starts with a fixed header that names its byte order, its
//! sub-format and two versions. A resource bundle continues with the offset of
//! its root resource and a table of 32-bit index words. This crate checks the
//! header against the sub-format that the caller expects, decodes the index
//! words that describe the bundle as a whole, and leaves the resource tree to
//! whoever reads on.
//!
//! The data is held in memory as bytes; every result is stated as a function
//! of those bytes.

pub mod bundle;
pub mod error;
pub mod format;
pub mod header;
pub mod reader;
pub mod version;

pub use bundle::{BundleAttributes, IndexTable, ResourceBundleReader};
pub use error::BundleError;
pub use format::DataFormat;
pub use header::read_header;
pub use reader::{Order, OrderedReader};

//! Maps the block addresses of a hardware trace back to the functions and
//! markers of the traced program, by the debug information of its
//! executable.

pub mod annotate;
pub mod dwarf;
pub mod error;
pub mod extract;
pub mod image;
pub mod labels;
pub mod tracemap;
pub mod workload;

pub use crate::annotate::{Block, BlockError};
pub use crate::error::ExtractionError;
pub use crate::extract::extract_labels;
pub use crate::labels::{AttrValue, DebugEntry, LabelTable};
pub use crate::tracemap::{get_phdr_offset, MapTrace};

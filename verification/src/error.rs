//! The error of label extraction.

use vstd::prelude::*;

verus! {

/// `object::Error`, the error of the object file reader.  Nothing is known of
/// a value of it.
#[verifier::external_type_specification]
#[verifier::external_body]
pub struct ExObjectError(object::Error);

/// What is left of an error of the debug-information reader: that it found
/// a section malformed.  The reader's own error is not kept, as it may hold
/// the place in memory at which reading stopped.
#[derive(Clone, Copy, Debug, PartialEq, Eq, Structural)]
pub struct Malformed {}

/// Why no table could be built.
#[derive(Clone, Copy, Debug, PartialEq)]
pub enum ExtractionError {
    /// The bytes are not an object file image that can be read.
    Image(object::Error),
    /// A debug section is malformed.
    Format,
    /// An attribute does not have the form its kind calls for.
    Encoding,
    /// A name is not valid UTF-8.
    Text,
}

} // verus!

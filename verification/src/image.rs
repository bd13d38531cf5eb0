//! The object file image that holds the debug sections.
//!
//! The image is read by the object file reader, whose file type is held
//! behind a struct whose inside is hidden from Verus.  What the reader makes
//! of some bytes, the byte order of an image, and what an image gives for a
//! section's name have names of their own here, and the reader's answers are
//! taken to be those; nothing else is known of them.
//!
//! The reader is used without its support for compressed sections: the
//! contents of a section are the bytes that the image holds for it, and a
//! section that is marked as compressed cannot be read.

use crate::error::ExtractionError;
use std::borrow::Cow;
use vstd::prelude::*;

verus! {

/// A parsed object file image: `object::File` over the image's bytes.
#[verifier::external_body]
pub struct Image<'a> {
    inner: object::File<'a>,
}

/// The image that the reader makes of `bytes`, or the error with which it
/// refuses bytes that are no object file of a format that it knows.
pub uninterp spec fn parsed_image(bytes: Seq<u8>) -> Result<Image<'static>, object::Error>;

/// Whether the header of the image gives little-endian byte order.
pub uninterp spec fn little_endian_of(image: Image) -> bool;

/// `object::File::parse`: the image that the reader makes of `bytes`, or the
/// error with which it refuses them.
#[verifier::external_body]
pub(crate) fn parse_image<'a>(bytes: &'a [u8]) -> (r: Result<Image<'a>, object::Error>)
    ensures
        r == parsed_image(bytes@),
{
    Ok(Image { inner: object::File::parse(bytes)? })
}

/// `object::Object::is_little_endian`: the byte order that the image's header
/// gives.
#[verifier::external_body]
pub(crate) fn is_little_endian(image: &Image) -> (r: bool)
    ensures
        r == little_endian_of(*image),
{
    object::Object::is_little_endian(&image.inner)
}

/// The bytes of a section's contents, borrowed or owned.
pub open spec fn section_bytes(contents: Cow<[u8]>) -> Seq<u8> {
    match contents {
        Cow::Borrowed(bytes) => bytes@,
        Cow::Owned(bytes) => bytes@,
    }
}

/// What the image gives for the section called `name`: nothing if it has no
/// such section, else the section's contents or the error of reading them.
/// The contents of a compressed section are not read: they are an error.
pub uninterp spec fn section_lookup(image: Image, name: Seq<char>) -> Option<
    Result<Seq<u8>, object::Error>,
>;

/// The contents that the section called `name` has for the label walk: a
/// section that the image does not have counts as empty, and a section that
/// is there and cannot be read is an error of the image.
pub open spec fn section_contents(image: Image, name: Seq<char>) -> Result<
    Seq<u8>,
    ExtractionError,
> {
    match section_lookup(image, name) {
        None => Ok(Seq::empty()),
        Some(Ok(bytes)) => Ok(bytes),
        Some(Err(e)) => Err(ExtractionError::Image(e)),
    }
}

/// The contents of every section by its name, as far as they can be read;
/// see [`section_contents`].  A section that cannot be read stands as empty.
pub open spec fn contents_of(image: Image) -> Map<Seq<char>, Seq<u8>> {
    Map::total(
        |name: Seq<char>|
            match section_contents(image, name) {
                Ok(bytes) => bytes,
                Err(_) => Seq::empty(),
            },
    )
}

/// `object::Object::section_by_name`, then
/// `object::ObjectSection::uncompressed_data` of the section found: what the
/// image gives for the section called `name`.
#[verifier::external_body]
pub(crate) fn section_data<'a>(image: &Image<'a>, name: &str) -> (r: Option<
    Result<Cow<'a, [u8]>, object::Error>,
>)
    ensures
        match r {
            None => section_lookup(*image, name@) is None,
            Some(Ok(contents)) => section_lookup(*image, name@) == Some(
                Ok::<Seq<u8>, object::Error>(section_bytes(contents)),
            ),
            Some(Err(e)) => section_lookup(*image, name@) == Some(
                Err::<Seq<u8>, object::Error>(e),
            ),
        },
{
    match object::Object::section_by_name(&image.inner, name) {
        Some(section) => Some(object::ObjectSection::uncompressed_data(&section)),
        None => None,
    }
}

/// A section with nothing in it.
pub(crate) fn empty_section<'a>() -> (r: Cow<'a, [u8]>)
    ensures
        section_bytes(r) == Seq::<u8>::empty(),
{
    let nothing: &'a [u8] = &[];
    Cow::Borrowed(nothing)
}

/// The contents of the section called `name`, where a section that the image
/// does not have counts as empty.  A section that cannot be read is an error
/// of the image.
pub(crate) fn section_or_empty<'a>(image: &Image<'a>, name: &str) -> (r: Result<
    Cow<'a, [u8]>,
    ExtractionError,
>)
    ensures
        match section_contents(*image, name@) {
            Ok(bytes) => r matches Ok(contents) && section_bytes(contents) == bytes,
            Err(e) => r == Err::<Cow<'a, [u8]>, ExtractionError>(e),
        },
{
    match section_data(image, name) {
        None => Ok(empty_section()),
        Some(Ok(data)) => Ok(data),
        Some(Err(e)) => Err(ExtractionError::Image(e)),
    }
}

} // verus!

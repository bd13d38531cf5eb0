//! The debug-information reader, as far as the label walk drives it.
//!
//! The reader's types are generic over a trait of its own, which Verus cannot
//! be told of, so each is held behind a struct of this module whose inside is
//! hidden from Verus.  Every function here makes one call into the reader and
//! hands the result on.  None of them is verified.
//!
//! What a call returns is a matter of what its arguments hold, so each
//! result has a name here, a function without a body, and the call is taken
//! to return that.  The reader's error is the exception: it may hold the
//! place in memory at which reading stopped, so all that is handed on of it
//! is that there was one.  The units of the sections and the entries of a unit
//! are named as what is still to come of them: a sequence, and whether the
//! reader ends it on an error.  What Verus takes for granted of a call is
//! what its `ensures` says.

use crate::error::{ExtractionError, Malformed};
use crate::image::{contents_of, section_contents, section_or_empty, Image};
use std::borrow::Cow;
use vstd::prelude::*;
use vstd::utf8::{decode_utf8, valid_utf8};

verus! {

/// `gimli::DwarfSections`, the debug sections of an image over some form of
/// section contents.  Nothing is known of a value of it.
#[verifier::external_type_specification]
#[verifier::external_body]
#[verifier::reject_recursive_types(T)]
pub struct ExDwarfSections<T>(gimli::DwarfSections<T>);

/// The debug sections in the form the reader parses: `gimli::Dwarf` over
/// byte slices with a byte order.
#[verifier::external_body]
pub struct Sections<'a> {
    inner: gimli::Dwarf<gimli::EndianSlice<'a, gimli::RunTimeEndian>>,
}

/// The compilation units of `.debug_info` that are still to come:
/// `gimli::DebugInfoUnitHeadersIter`.
#[verifier::external_body]
pub struct UnitHeaders<'a> {
    inner: gimli::DebugInfoUnitHeadersIter<gimli::EndianSlice<'a, gimli::RunTimeEndian>>,
}

/// The header of one compilation unit: `gimli::UnitHeader`.
#[verifier::external_body]
pub struct UnitHeader<'a> {
    inner: gimli::UnitHeader<gimli::EndianSlice<'a, gimli::RunTimeEndian>>,
}

/// One compilation unit with its abbreviations: `gimli::Unit`.
#[verifier::external_body]
pub struct Unit<'a> {
    inner: gimli::Unit<gimli::EndianSlice<'a, gimli::RunTimeEndian>>,
}

/// The entries of one unit that are still to come, in depth-first order:
/// `gimli::EntriesCursor`.
#[verifier::external_body]
pub struct Entries<'u, 'a> {
    inner: gimli::EntriesCursor<'u, 'u, gimli::EndianSlice<'a, gimli::RunTimeEndian>>,
}

/// One entry of the tree: `gimli::DebuggingInformationEntry`.
#[verifier::external_body]
pub struct Entry<'u, 'a> {
    inner: gimli::DebuggingInformationEntry<'u, 'u, gimli::EndianSlice<'a, gimli::RunTimeEndian>>,
}

/// The value of one attribute, by its form: what `gimli::AttributeValue`
/// holds in the variants `Addr`, `String` and `DebugStrRef`, and nothing of
/// the others.
#[derive(Clone, Copy, Debug)]
pub enum RawAttr<'a> {
    /// An address.
    Addr(u64),
    /// The bytes of a string that stands in the entry, without its
    /// terminator.
    String(&'a [u8]),
    /// The offset of a string in `.debug_str`.
    StringRef(usize),
    /// Any other form.
    Other,
}

/// A [`RawAttr`] with the bytes of its string as a sequence.
pub enum RawAttrView {
    Addr(u64),
    String(Seq<u8>),
    StringRef(usize),
    Other,
}

impl<'a> View for RawAttr<'a> {
    type V = RawAttrView;

    open spec fn view(&self) -> RawAttrView {
        match *self {
            RawAttr::Addr(addr) => RawAttrView::Addr(addr),
            RawAttr::String(bytes) => RawAttrView::String(bytes@),
            RawAttr::StringRef(offset) => RawAttrView::StringRef(offset),
            RawAttr::Other => RawAttrView::Other,
        }
    }
}

/// The sections that loading gives when the loader hands out `contents` for
/// the names that it is asked for.
pub uninterp spec fn sections_from(contents: Map<Seq<char>, Seq<u8>>) -> gimli::DwarfSections<
    Cow<'static, [u8]>,
>;

/// The names of the sections that the loader is asked for, in the order in
/// which it is asked.
pub open spec fn loaded_names() -> Seq<Seq<char>> {
    seq![
        ".debug_abbrev"@,
        ".debug_addr"@,
        ".debug_aranges"@,
        ".debug_info"@,
        ".debug_line"@,
        ".debug_line_str"@,
        ".debug_str"@,
        ".debug_str_offsets"@,
        ".debug_types"@,
        ".debug_loc"@,
        ".debug_loclists"@,
        ".debug_ranges"@,
        ".debug_rnglists"@,
    ]
}

/// The error of the first of the sections called `names` whose contents
/// cannot be read, if there is one.
pub open spec fn first_failure(image: Image, names: Seq<Seq<char>>) -> Option<ExtractionError>
    decreases names.len(),
{
    if names.len() == 0 {
        None
    } else {
        match section_contents(image, names[0]) {
            Err(e) => Some(e),
            Ok(_) => first_failure(image, names.skip(1)),
        }
    }
}

/// The error with which loading the sections of an image ends, if it does:
/// that of the first section that the loader is asked for and cannot read.
pub open spec fn load_failure(image: Image) -> Option<ExtractionError> {
    first_failure(image, loaded_names())
}

/// The loaded sections as slices in a byte order, little-endian if
/// `little_endian`.
pub uninterp spec fn borrowed_sections(
    loaded: gimli::DwarfSections<Cow<'static, [u8]>>,
    little_endian: bool,
) -> Sections<'static>;

/// The units of the sections' `.debug_info`, from its start.
pub uninterp spec fn units_of(sections: Sections) -> UnitHeaders;

/// The headers that `units` still hands out, in order, up to the end of the
/// section or to the first header that cannot be parsed.
pub uninterp spec fn units_ahead(units: UnitHeaders) -> Seq<UnitHeader<'static>>;

/// Whether a header that cannot be parsed follows the headers that `units`
/// still hands out.
pub uninterp spec fn units_failure(units: UnitHeaders) -> bool;

/// The unit that a header begins in the sections, or nothing if the reader
/// refuses it.
pub uninterp spec fn unit_of(sections: Sections, header: UnitHeader) -> Option<Unit<'static>>;

/// The entries of a unit, from its first.
pub uninterp spec fn entries_of(unit: Unit) -> Entries;

/// The entries that `entries` still hands out, in depth-first order, up to
/// the end of the unit or to the first entry that cannot be parsed.
pub uninterp spec fn entries_ahead(entries: Entries) -> Seq<Entry<'static, 'static>>;

/// Whether an entry that cannot be parsed follows the entries that
/// `entries` still hands out.
pub uninterp spec fn entries_failure(entries: Entries) -> bool;

/// The number of an entry's tag.
pub uninterp spec fn tag_of(entry: Entry) -> u16;

/// What the entry gives for its first attribute with the number `name`: the
/// value by its form, nothing if the entry has no such attribute, or that an
/// attribute cannot be parsed.
pub uninterp spec fn entry_attribute(entry: Entry, name: u16) -> Result<
    Option<RawAttrView>,
    Malformed,
>;

/// The bytes of the string that starts at `offset` in the sections'
/// `.debug_str`, without its terminator; nothing if no string starts there.
pub uninterp spec fn string_at(sections: Sections, offset: usize) -> Option<Seq<u8>>;

/// `gimli::DwarfSections::load`, with a loader that asks the image for each
/// section by its name and takes an absent one as empty.  The loader is asked
/// for the sections of [`loaded_names`] in their order; loading ends with the
/// first error of the loader, and has no error of its own.  What it gives
/// else is a matter of the contents that the loader hands out.
#[verifier::external_body]
pub(crate) fn load_sections<'a>(image: &Image<'a>) -> (r: Result<
    gimli::DwarfSections<Cow<'a, [u8]>>,
    ExtractionError,
>)
    ensures
        match r {
            Ok(loaded) => load_failure(*image) is None && loaded == sections_from(
                contents_of(*image),
            ),
            Err(e) => load_failure(*image) == Some(e),
        },
{
    gimli::DwarfSections::load(|id| section_or_empty(image, id.name()))
}

/// `gimli::DwarfSections::borrow` with `gimli::EndianSlice::new`: the same
/// sections as slices, to be read in little-endian order if `little_endian`
/// and in big-endian order if not.
#[verifier::external_body]
pub(crate) fn borrow_sections<'a>(
    loaded: &'a gimli::DwarfSections<Cow<'a, [u8]>>,
    little_endian: bool,
) -> (r: Sections<'a>)
    ensures
        r == borrowed_sections(*loaded, little_endian),
{
    let endian = if little_endian {
        gimli::RunTimeEndian::Little
    } else {
        gimli::RunTimeEndian::Big
    };
    Sections { inner: loaded.borrow(|section| gimli::EndianSlice::new(section, endian)) }
}

/// `gimli::Dwarf::units`: the units of `.debug_info`, from its start.
#[verifier::external_body]
pub(crate) fn units<'a>(sections: &Sections<'a>) -> (r: UnitHeaders<'a>)
    ensures
        r == units_of(*sections),
{
    UnitHeaders { inner: sections.inner.units() }
}

/// `gimli::DebugInfoUnitHeadersIter::next`: the next unit's header, none at
/// the end of the section, or that a header cannot be parsed.  A header that
/// is handed out is the first of those that were still to come, and the
/// others are still to come after it.
#[verifier::external_body]
pub(crate) fn next_unit<'a>(units: &mut UnitHeaders<'a>) -> (r: Result<
    Option<UnitHeader<'a>>,
    Malformed,
>)
    ensures
        match r {
            Ok(Some(header)) => {
                &&& units_ahead(*old(units)).len() > 0
                &&& header == units_ahead(*old(units))[0]
                &&& units_ahead(*final(units)) == units_ahead(*old(units)).skip(1)
                &&& units_failure(*final(units)) == units_failure(*old(units))
            },
            Ok(None) => units_ahead(*old(units)).len() == 0 && !units_failure(*old(units)),
            Err(_) => units_ahead(*old(units)).len() == 0 && units_failure(*old(units)),
        },
{
    match units.inner.next() {
        Ok(Some(header)) => Ok(Some(UnitHeader { inner: header })),
        Ok(None) => Ok(None),
        Err(_) => Err(Malformed {  }),
    }
}

/// `gimli::Dwarf::unit`: the unit that a header begins in the sections, with
/// its abbreviations parsed, or nothing if the reader refuses it.
#[verifier::external_body]
pub(crate) fn unit<'a>(sections: &Sections<'a>, header: UnitHeader<'a>) -> (r: Option<Unit<'a>>)
    ensures
        r == unit_of(*sections, header),
{
    match sections.inner.unit(header.inner) {
        Ok(unit) => Some(Unit { inner: unit }),
        Err(_) => None,
    }
}

/// `gimli::Unit::entries`: the entries of a unit, from its first.
#[verifier::external_body]
pub(crate) fn entries<'u, 'a>(unit: &'u Unit<'a>) -> (r: Entries<'u, 'a>)
    ensures
        r == entries_of(*unit),
{
    Entries { inner: unit.inner.entries() }
}

/// `gimli::EntriesCursor::next_dfs`: the next entry in depth-first order, none
/// at the end of the unit, or that an entry cannot be parsed.  An entry that
/// is handed out is the first of those that were still to come, and the
/// others are still to come after it.
#[verifier::external_body]
pub(crate) fn next_entry<'u, 'a>(entries: &mut Entries<'u, 'a>) -> (r: Result<
    Option<Entry<'u, 'a>>,
    Malformed,
>)
    ensures
        match r {
            Ok(Some(entry)) => {
                &&& entries_ahead(*old(entries)).len() > 0
                &&& entry == entries_ahead(*old(entries))[0]
                &&& entries_ahead(*final(entries)) == entries_ahead(*old(entries)).skip(1)
                &&& entries_failure(*final(entries)) == entries_failure(*old(entries))
            },
            Ok(None) => entries_ahead(*old(entries)).len() == 0 && !entries_failure(
                *old(entries),
            ),
            Err(_) => entries_ahead(*old(entries)).len() == 0 && entries_failure(*old(entries)),
        },
{
    match entries.inner.next_dfs() {
        Ok(Some((_, entry))) => Ok(Some(Entry { inner: entry.clone() })),
        Ok(None) => Ok(None),
        Err(_) => Err(Malformed {  }),
    }
}

/// `gimli::DebuggingInformationEntry::tag`: the number of the entry's tag.
#[verifier::external_body]
pub(crate) fn entry_tag(entry: &Entry) -> (tag: u16)
    ensures
        tag == tag_of(*entry),
{
    entry.inner.tag().0
}

/// `gimli::DebuggingInformationEntry::attr_value`: what the entry gives for
/// its first attribute with the number `name`, the value told apart by its
/// variant.
#[verifier::external_body]
pub(crate) fn entry_attr<'u, 'a>(entry: &Entry<'u, 'a>, name: u16) -> (r: Result<
    Option<RawAttr<'a>>,
    Malformed,
>)
    ensures
        match r {
            Ok(Some(attr)) => entry_attribute(*entry, name) == Ok::<
                Option<RawAttrView>,
                Malformed,
            >(Some(attr@)),
            Ok(None) => entry_attribute(*entry, name) == Ok::<Option<RawAttrView>, Malformed>(
                None,
            ),
            Err(_) => entry_attribute(*entry, name) is Err,
        },
{
    match entry.inner.attr_value(gimli::DwAt(name)) {
        Ok(None) => Ok(None),
        Ok(Some(gimli::AttributeValue::Addr(addr))) => Ok(Some(RawAttr::Addr(addr))),
        Ok(Some(gimli::AttributeValue::String(string))) => Ok(
            Some(RawAttr::String(string.slice())),
        ),
        Ok(Some(gimli::AttributeValue::DebugStrRef(offset))) => Ok(
            Some(RawAttr::StringRef(offset.0)),
        ),
        Ok(Some(_)) => Ok(Some(RawAttr::Other)),
        Err(_) => Err(Malformed {  }),
    }
}

/// `gimli::DebugStr::get_str` on the sections' `.debug_str`: the bytes of the
/// string that starts at `offset`, or nothing where the reader finds none.
#[verifier::external_body]
pub(crate) fn debug_str_at<'a>(sections: &Sections<'a>, offset: usize) -> (r: Option<&'a [u8]>)
    ensures
        match r {
            Some(bytes) => string_at(*sections, offset) == Some(bytes@),
            None => string_at(*sections, offset) is None,
        },
{
    match sections.inner.debug_str.get_str(gimli::DebugStrOffset(offset)) {
        Ok(string) => Some(string.slice()),
        Err(_) => None,
    }
}

/// `gimli::EndianSlice::to_string`: the text that `bytes` encode in UTF-8, or
/// nothing if they are not valid UTF-8.
#[verifier::external_body]
pub(crate) fn decode_text(bytes: &[u8]) -> (r: Option<String>)
    ensures
        r is Some <==> valid_utf8(bytes@),
        r matches Some(text) ==> text@ == decode_utf8(bytes@),
{
    match gimli::EndianSlice::new(bytes, gimli::RunTimeEndian::Little).to_string() {
        Ok(text) => Some(text.to_string()),
        Err(_) => None,
    }
}

} // verus!

//! Building the label table from the debug sections of an object file image.
//!
//! The walk goes through every compilation unit of `.debug_info` and, in each
//! unit, through every entry in depth-first order.  What it reads of the
//! entries, in that order, is its log; the table is the one that the
//! entries of the log build.

use crate::dwarf::{
    borrow_sections, borrowed_sections, debug_str_at, entries, entries_ahead, entries_failure,
    entries_of, entry_attr, entry_attribute, entry_tag, first_failure, load_failure,
    load_sections, loaded_names, next_entry,
    next_unit, sections_from, string_at, tag_of, unit, unit_of, units, units_ahead,
    units_failure, units_of, Entry, RawAttr, RawAttrView, Sections, UnitHeader,
};
use crate::error::{ExtractionError, Malformed};
use crate::image::{
    contents_of, is_little_endian, little_endian_of, parse_image, parsed_image,
    section_contents, Image,
};
use crate::labels::{
    attr_view, build_ends_at_first_error, build_fails_by_rule_alone, built_view, is_marker,
    is_marker_text,
    label_of, last_entry_at_address_wins, table_holds_what_entries_add, table_of, writes_at,
    AttrValue, AttrView, DebugEntry, EntryView, LabelTable, AT_LINKAGE_NAME, AT_LOW_PC, AT_NAME,
    TAG_LABEL, TAG_SUBPROGRAM,
};
use vstd::prelude::*;
use vstd::utf8::{decode_utf8, valid_utf8};

verus! {

/// What the table's rule reads of the attribute of `entry` with the number
/// `name`: an address as it is, a string by its bytes, whether it stands in
/// the entry or in `.debug_str` of `sections`, and anything else, a reference
/// to no string included, as another form; none if the entry has no such
/// attribute.  It fails where the reader cannot parse an attribute.
pub open spec fn attr_read(sections: Sections, entry: Entry, name: u16) -> Result<
    Option<AttrView>,
    Malformed,
> {
    match entry_attribute(entry, name) {
        Err(e) => Err(e),
        Ok(None) => Ok(None),
        Ok(Some(RawAttrView::Addr(addr))) => Ok(Some(AttrView::Addr(addr))),
        Ok(Some(RawAttrView::String(bytes))) => Ok(Some(AttrView::Text(bytes))),
        Ok(Some(RawAttrView::StringRef(offset))) => match string_at(sections, offset) {
            Some(bytes) => Ok(Some(AttrView::Text(bytes))),
            None => Ok(Some(AttrView::Other)),
        },
        Ok(Some(RawAttrView::Other)) => Ok(Some(AttrView::Other)),
    }
}

/// Whether an attribute is the text of a name with the reserved prefix.
pub open spec fn is_marker_attr(attr: Option<AttrView>) -> bool {
    attr matches Some(AttrView::Text(bytes)) && valid_utf8(bytes) && is_marker(
        decode_utf8(bytes),
    )
}

/// What the table's rule reads of `entry`, attribute by attribute and no
/// further than the rule goes: of a subprogram its linkage name and, if that
/// is a string, its first address; of a label its name and, if that is text
/// with the reserved prefix, its first address; of any other entry the tag
/// alone.  What is not read is left out.  It fails where the reader cannot
/// parse an attribute that is read.
pub open spec fn entry_read(sections: Sections, entry: Entry) -> Result<EntryView, Malformed> {
    let tag = tag_of(entry);
    if tag == TAG_SUBPROGRAM {
        match attr_read(sections, entry, AT_LINKAGE_NAME) {
            Err(e) => Err(e),
            Ok(linkage_name) => if linkage_name matches Some(AttrView::Text(_)) {
                match attr_read(sections, entry, AT_LOW_PC) {
                    Err(e) => Err(e),
                    Ok(low_pc) => Ok(EntryView { tag, linkage_name, name: None, low_pc }),
                }
            } else {
                Ok(EntryView { tag, linkage_name, name: None, low_pc: None })
            },
        }
    } else if tag == TAG_LABEL {
        match attr_read(sections, entry, AT_NAME) {
            Err(e) => Err(e),
            Ok(name) => if is_marker_attr(name) {
                match attr_read(sections, entry, AT_LOW_PC) {
                    Err(e) => Err(e),
                    Ok(low_pc) => Ok(EntryView { tag, linkage_name: None, name, low_pc }),
                }
            } else {
                Ok(EntryView { tag, linkage_name: None, name, low_pc: None })
            },
        }
    } else {
        Ok(EntryView { tag, linkage_name: None, name: None, low_pc: None })
    }
}

/// What a walk reads: the entries in the order of the walk, and whether the
/// reader failed behind them.
pub struct ReadLog {
    pub entries: Seq<EntryView>,
    pub failed: bool,
}

/// The log of one stretch of a walk followed by another: the second is not
/// reached where the reader failed in the first.
pub open spec fn followed_by(first: ReadLog, second: ReadLog) -> ReadLog {
    if first.failed {
        first
    } else {
        ReadLog { entries: first.entries + second.entries, failed: second.failed }
    }
}

/// The log of reading the entries `ahead` of one unit in order, with a
/// `failure` of the reader behind them or none.
pub open spec fn entries_log(sections: Sections, ahead: Seq<Entry>, failure: bool) -> ReadLog
    decreases ahead.len(),
{
    if ahead.len() == 0 {
        ReadLog { entries: Seq::empty(), failed: failure }
    } else {
        match entry_read(sections, ahead[0]) {
            Err(_) => ReadLog { entries: Seq::empty(), failed: true },
            Ok(entry) => followed_by(
                ReadLog { entries: seq![entry], failed: false },
                entries_log(sections, ahead.skip(1), failure),
            ),
        }
    }
}

/// The log of walking the units that the headers `ahead` begin, each unit's
/// entries taken in depth-first order, with a `failure` of the reader
/// behind the headers or none.  A unit that the reader refuses is a failure.
pub open spec fn units_log(sections: Sections, ahead: Seq<UnitHeader>, failure: bool) -> ReadLog
    decreases ahead.len(),
{
    if ahead.len() == 0 {
        ReadLog { entries: Seq::empty(), failed: failure }
    } else {
        match unit_of(sections, ahead[0]) {
            None => ReadLog { entries: Seq::empty(), failed: true },
            Some(unit) => followed_by(
                entries_log(
                    sections,
                    entries_ahead(entries_of(unit)),
                    entries_failure(entries_of(unit)),
                ),
                units_log(sections, ahead.skip(1), failure),
            ),
        }
    }
}

/// The log of walking all units of the sections' `.debug_info`.
pub open spec fn walk_log(sections: Sections) -> ReadLog {
    units_log(sections, units_ahead(units_of(sections)), units_failure(units_of(sections)))
}

/// The table that comes of a log: the one that its entries build, see
/// [`table_of`].  An entry that cannot be recorded gives its error; if all
/// can, a failure of the reader behind them is an error of the format.
pub open spec fn log_outcome(log: ReadLog) -> Result<Map<u64, Seq<char>>, ExtractionError> {
    match table_of(log.entries) {
        Err(e) => Err(e),
        Ok(table) => if log.failed {
            Err(ExtractionError::Format)
        } else {
            Ok(table)
        },
    }
}

/// The sections of an image in the form the reader parses: loaded by their
/// names, an absent one as empty, and read in the image's byte order.
pub open spec fn sections_of(image: Image) -> Sections {
    borrowed_sections(sections_from(contents_of(image)), little_endian_of(image))
}

/// The table of an image: the error of the first section that cannot be
/// read, if there is one, else what comes of the log of walking its sections.
pub open spec fn image_outcome(image: Image) -> Result<Map<u64, Seq<char>>, ExtractionError> {
    match load_failure(image) {
        Some(e) => Err(e),
        None => log_outcome(walk_log(sections_of(image))),
    }
}

/// The table of the object file image that `image` holds: the error of the
/// reader if it refuses the bytes, else the table of the image.
pub open spec fn extraction_outcome(image: Seq<u8>) -> Result<
    Map<u64, Seq<char>>,
    ExtractionError,
> {
    match parsed_image(image) {
        Err(e) => Err(ExtractionError::Image(e)),
        Ok(parsed) => image_outcome(parsed),
    }
}

/// Loading has no error where every section can be read.
pub proof fn readable_sections_load(image: Image, names: Seq<Seq<char>>)
    requires
        forall|name: Seq<char>| (#[trigger] section_contents(image, name)) is Ok,
    ensures
        first_failure(image, names) is None,
    decreases names.len(),
{
    if names.len() > 0 {
        readable_sections_load(image, names.skip(1));
    }
}

/// A section that an image does not have is read as an empty section and is
/// no error: two images whose sections have the same contents, where an
/// absent section counts as an empty one, and which have the same byte
/// order, give the same table.
pub proof fn absent_section_reads_as_empty(first: Image, second: Image)
    requires
        forall|name: Seq<char>| (#[trigger] section_contents(first, name)) is Ok,
        forall|name: Seq<char>|
            #[trigger] section_contents(first, name) == section_contents(second, name),
        little_endian_of(first) == little_endian_of(second),
    ensures
        load_failure(first) is None,
        load_failure(second) is None,
        image_outcome(first) == image_outcome(second),
        image_outcome(first) == log_outcome(walk_log(sections_of(first))),
        image_outcome(first) matches Err(e) ==> !(e is Image),
{
    build_fails_by_rule_alone(walk_log(sections_of(first)).entries);
    readable_sections_load(first, loaded_names());
    assert forall|name: Seq<char>| (#[trigger] section_contents(second, name)) is Ok by {
        assert(section_contents(first, name) == section_contents(second, name));
    }
    readable_sections_load(second, loaded_names());
    assert(contents_of(first) =~= contents_of(second)) by {
        assert forall|name: Seq<char>| contents_of(first)[name] == contents_of(second)[name] by {
            assert(section_contents(first, name) == section_contents(second, name));
        }
    }
}

/// Label precedence in a walk: of the entries that the walk reads, the last
/// one that adds a pair at an address decides the label that the table holds
/// there, whether it is a subprogram or a label.
pub proof fn last_entry_read_decides_label(sections: Sections, k: int, addr: u64)
    requires
        log_outcome(walk_log(sections)) is Ok,
        0 <= k < walk_log(sections).entries.len(),
        writes_at(walk_log(sections).entries[k], addr),
        forall|j: int|
            k < j < walk_log(sections).entries.len() ==> !writes_at(
                #[trigger] walk_log(sections).entries[j],
                addr,
            ),
    ensures
        log_outcome(walk_log(sections))->Ok_0.contains_key(addr),
        log_outcome(walk_log(sections))->Ok_0[addr] == label_of(
            walk_log(sections).entries[k],
        )->Ok_0->Some_0.1,
{
    last_entry_at_address_wins(walk_log(sections).entries, k, addr);
}

/// Every label of the table of a walk comes from an entry that the walk
/// reads: the last one that adds a pair at the label's address.
pub proof fn label_comes_from_an_entry_read(sections: Sections, addr: u64) -> (k: int)
    requires
        log_outcome(walk_log(sections)) is Ok,
        log_outcome(walk_log(sections))->Ok_0.contains_key(addr),
    ensures
        0 <= k < walk_log(sections).entries.len(),
        label_of(walk_log(sections).entries[k]) == Ok::<
            Option<(u64, Seq<char>)>,
            ExtractionError,
        >(Some((addr, log_outcome(walk_log(sections))->Ok_0[addr]))),
        forall|j: int|
            k < j < walk_log(sections).entries.len() ==> !writes_at(
                #[trigger] walk_log(sections).entries[j],
                addr,
            ),
{
    table_holds_what_entries_add(walk_log(sections).entries, addr)
}

/// A walk gives a table only where the reader did not fail and every entry
/// that was read could be recorded.
pub proof fn walk_succeeds_on_readable_entries(sections: Sections)
    ensures
        log_outcome(walk_log(sections)) is Ok <==> !walk_log(sections).failed && table_of(
            walk_log(sections).entries,
        ) is Ok,
{
}

/// The attribute of `entry` with the number `name`, as the table's rule reads
/// it; see [`attr_read`].
fn read_attr<'u, 'a>(sections: &Sections<'a>, entry: &Entry<'u, 'a>, name: u16) -> (r: Result<
    Option<AttrValue<'a>>,
    Malformed,
>)
    ensures
        match attr_read(*sections, *entry, name) {
            Ok(attr) => r matches Ok(value) && attr_view(value) == attr,
            Err(_) => r is Err,
        },
{
    match entry_attr(entry, name) {
        Err(e) => Err(e),
        Ok(None) => Ok(None),
        Ok(Some(RawAttr::Addr(addr))) => Ok(Some(AttrValue::Addr(addr))),
        Ok(Some(RawAttr::String(bytes))) => Ok(Some(AttrValue::Text(bytes))),
        Ok(Some(RawAttr::StringRef(offset))) => match debug_str_at(sections, offset) {
            Some(bytes) => Ok(Some(AttrValue::Text(bytes))),
            None => Ok(Some(AttrValue::Other)),
        },
        Ok(Some(RawAttr::Other)) => Ok(Some(AttrValue::Other)),
    }
}

/// What the table's rule reads of `entry`; see [`entry_read`].
fn read_entry<'u, 'a>(sections: &Sections<'a>, entry: &Entry<'u, 'a>) -> (r: Result<
    DebugEntry<'a>,
    Malformed,
>)
    ensures
        match entry_read(*sections, *entry) {
            Ok(read) => r matches Ok(found) && found@ == read,
            Err(_) => r is Err,
        },
{
    let tag = entry_tag(entry);
    if tag == TAG_SUBPROGRAM {
        let linkage_name = read_attr(sections, entry, AT_LINKAGE_NAME)?;
        let low_pc = match linkage_name {
            Some(AttrValue::Text(_)) => read_attr(sections, entry, AT_LOW_PC)?,
            _ => None,
        };
        Ok(DebugEntry { tag, linkage_name, name: None, low_pc })
    } else if tag == TAG_LABEL {
        let name = read_attr(sections, entry, AT_NAME)?;
        let marked = match name {
            Some(AttrValue::Text(bytes)) => is_marker_text(bytes),
            _ => false,
        };
        let low_pc = if marked {
            read_attr(sections, entry, AT_LOW_PC)?
        } else {
            None
        };
        Ok(DebugEntry { tag, linkage_name: None, name, low_pc })
    } else {
        Ok(DebugEntry { tag, linkage_name: None, name: None, low_pc: None })
    }
}

/// Walks every compilation unit of the sections, and in each unit every
/// entry in depth-first order, and records each entry in one table.  The
/// first failure of the reader or of the table's rule ends the walk.
fn walk_sections<'a>(sections: &Sections<'a>) -> (r: Result<LabelTable, ExtractionError>)
    ensures
        built_view(r) == log_outcome(walk_log(*sections)),
{
    let mut table = LabelTable::new();
    let ghost mut read: Seq<EntryView> = Seq::empty();
    let mut headers = units(sections);
    proof {
        assert(read + walk_log(*sections).entries =~= walk_log(*sections).entries);
    }
    loop
        invariant
            table_of(read) == Ok::<Map<u64, Seq<char>>, ExtractionError>(table@),
            walk_log(*sections).entries == read + units_log(
                *sections,
                units_ahead(headers),
                units_failure(headers),
            ).entries,
            walk_log(*sections).failed == units_log(
                *sections,
                units_ahead(headers),
                units_failure(headers),
            ).failed,
        decreases units_ahead(headers).len(),
    {
        let header = match next_unit(&mut headers) {
            Err(_) => {
                proof {
                    assert(read + Seq::<EntryView>::empty() =~= read);
                }
                return Err(ExtractionError::Format);
            },
            Ok(None) => {
                proof {
                    assert(read + Seq::<EntryView>::empty() =~= read);
                }
                return Ok(table);
            },
            Ok(Some(header)) => header,
        };
        let unit = match unit(sections, header) {
            None => {
                proof {
                    assert(read + Seq::<EntryView>::empty() =~= read);
                }
                return Err(ExtractionError::Format);
            },
            Some(unit) => unit,
        };
        let mut cursor = entries(&unit);
        let ghost later = units_log(*sections, units_ahead(headers), units_failure(headers));
        loop
            invariant_except_break
                walk_log(*sections).entries == read + followed_by(
                    entries_log(*sections, entries_ahead(cursor), entries_failure(cursor)),
                    later,
                ).entries,
                walk_log(*sections).failed == followed_by(
                    entries_log(*sections, entries_ahead(cursor), entries_failure(cursor)),
                    later,
                ).failed,
            invariant
                table_of(read) == Ok::<Map<u64, Seq<char>>, ExtractionError>(table@),
                later == units_log(*sections, units_ahead(headers), units_failure(headers)),
            ensures
                walk_log(*sections).entries == read + later.entries,
                walk_log(*sections).failed == later.failed,
            decreases entries_ahead(cursor).len(),
        {
            let ghost before = entries_log(
                *sections,
                entries_ahead(cursor),
                entries_failure(cursor),
            );
            let entry = match next_entry(&mut cursor) {
                Err(_) => {
                    proof {
                        assert(read + Seq::<EntryView>::empty() =~= read);
                    }
                    return Err(ExtractionError::Format);
                },
                Ok(None) => {
                    proof {
                        assert(Seq::<EntryView>::empty() + later.entries =~= later.entries);
                    }
                    break ;
                },
                Ok(Some(entry)) => entry,
            };
            let found = match read_entry(sections, &entry) {
                Err(_) => {
                    proof {
                        assert(read + Seq::<EntryView>::empty() =~= read);
                    }
                    return Err(ExtractionError::Format);
                },
                Ok(found) => found,
            };
            let ghost after = entries_log(
                *sections,
                entries_ahead(cursor),
                entries_failure(cursor),
            );
            proof {
                let all = walk_log(*sections).entries;
                assert(before == followed_by(
                    ReadLog { entries: seq![found@], failed: false },
                    after,
                ));
                assert(followed_by(before, later).entries =~= seq![found@] + followed_by(
                    after,
                    later,
                ).entries);
                assert(followed_by(before, later).failed == followed_by(after, later).failed);
                assert(all =~= read.push(found@) + followed_by(after, later).entries);
                assert(all.take(read.len() as int + 1) =~= read.push(found@));
                assert(read.push(found@).drop_last() =~= read);
            }
            match table.record(&found) {
                Err(e) => {
                    proof {
                        build_ends_at_first_error(
                            walk_log(*sections).entries,
                            read.len() as int + 1,
                        );
                    }
                    return Err(e);
                },
                Ok(()) => {},
            }
            proof {
                read = read.push(found@);
            }
        }
    }
}

/// The label table of the object file image that `image` holds.
///
/// The image's byte order is taken from its header.  Each debug section is
/// loaded by its name, one that the image does not have as an empty section.
/// Then the debug-information tree is walked, and every subprogram and every
/// label with the reserved prefix is recorded under its first address; see
/// [`extraction_outcome`] for the table or the error that comes of it.
///
/// It fails if the bytes are no object file image, if a section cannot be
/// read or parsed, or if an entry to record is malformed.
pub fn extract_labels(image: &[u8]) -> (r: Result<LabelTable, ExtractionError>)
    ensures
        built_view(r) == extraction_outcome(image@),
{
    let image = match parse_image(image) {
        Err(e) => {
            return Err(ExtractionError::Image(e));
        },
        Ok(image) => image,
    };
    let little_endian = is_little_endian(&image);
    let loaded = load_sections(&image)?;
    let sections = borrow_sections(&loaded, little_endian);
    walk_sections(&sections)
}

} // verus!

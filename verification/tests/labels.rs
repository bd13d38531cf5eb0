use tracemap::labels::{
    has_marker_prefix, read_label, AttrValue, DebugEntry, LabelTable, AT_LINKAGE_NAME, AT_LOW_PC,
    AT_NAME, TAG_LABEL, TAG_SUBPROGRAM,
};
use tracemap::ExtractionError;

fn subprogram<'a>(linkage_name: Option<AttrValue<'a>>, low_pc: Option<AttrValue<'a>>) -> DebugEntry<'a> {
    DebugEntry { tag: TAG_SUBPROGRAM, linkage_name, name: None, low_pc }
}

fn label<'a>(name: Option<AttrValue<'a>>, low_pc: Option<AttrValue<'a>>) -> DebugEntry<'a> {
    DebugEntry { tag: TAG_LABEL, linkage_name: None, name, low_pc }
}

#[test]
fn tag_and_attribute_numbers_are_those_of_the_format() {
    assert_eq!(TAG_SUBPROGRAM, 0x2e);
    assert_eq!(TAG_LABEL, 0x0a);
    assert_eq!(AT_NAME, 0x03);
    assert_eq!(AT_LOW_PC, 0x11);
    assert_eq!(AT_LINKAGE_NAME, 0x6e);
    assert_eq!(gimli::DW_TAG_subprogram.0, TAG_SUBPROGRAM);
    assert_eq!(gimli::DW_TAG_label.0, TAG_LABEL);
    assert_eq!(gimli::DW_AT_name.0, AT_NAME);
    assert_eq!(gimli::DW_AT_low_pc.0, AT_LOW_PC);
    assert_eq!(gimli::DW_AT_linkage_name.0, AT_LINKAGE_NAME);
}

#[test]
fn marker_prefix_is_found_at_the_start_only() {
    assert!(has_marker_prefix("__YK_"));
    assert!(has_marker_prefix("__YK_BLK_0"));
    assert!(has_marker_prefix("__YK_\u{e9}t\u{e9}"));
    assert!(!has_marker_prefix(""));
    assert!(!has_marker_prefix("__YK"));
    assert!(!has_marker_prefix("_YK_BLK"));
    assert!(!has_marker_prefix("x__YK_"));
    assert!(!has_marker_prefix("__yk_blk"));
    assert!(!has_marker_prefix("\u{e9}__YK_"));
}

#[test]
fn subprogram_with_linkage_name_and_address_gives_a_pair() {
    let entry = subprogram(Some(AttrValue::Text(b"foo")), Some(AttrValue::Addr(0x1000)));
    assert_eq!(read_label(&entry), Ok(Some((0x1000, String::from("foo")))));
}

#[test]
fn subprogram_name_is_decoded_as_utf8() {
    let bytes = "gr\u{fc}\u{df}e_\u{4e16}\u{754c}".as_bytes();
    let entry = subprogram(Some(AttrValue::Text(bytes)), Some(AttrValue::Addr(7)));
    assert_eq!(read_label(&entry), Ok(Some((7, String::from("gr\u{fc}\u{df}e_\u{4e16}\u{754c}")))));
}

#[test]
fn subprogram_without_linkage_name_gives_nothing() {
    let entry = subprogram(None, Some(AttrValue::Addr(0x1000)));
    assert_eq!(read_label(&entry), Ok(None));
}

#[test]
fn subprogram_name_attribute_is_not_read() {
    let entry = DebugEntry {
        tag: TAG_SUBPROGRAM,
        linkage_name: None,
        name: Some(AttrValue::Text(b"main")),
        low_pc: Some(AttrValue::Addr(0x1000)),
    };
    assert_eq!(read_label(&entry), Ok(None));
}

#[test]
fn subprogram_without_address_gives_nothing() {
    let entry = subprogram(Some(AttrValue::Text(b"foo")), None);
    assert_eq!(read_label(&entry), Ok(None));
    let undecodable = subprogram(Some(AttrValue::Text(&[0xff, 0xfe])), None);
    assert_eq!(read_label(&undecodable), Ok(None));
}

#[test]
fn subprogram_with_linkage_name_of_another_form_is_an_encoding_error() {
    let other = subprogram(Some(AttrValue::Other), Some(AttrValue::Addr(0x1000)));
    assert_eq!(read_label(&other), Err(ExtractionError::Encoding));
    let addr = subprogram(Some(AttrValue::Addr(1)), None);
    assert_eq!(read_label(&addr), Err(ExtractionError::Encoding));
}

#[test]
fn subprogram_with_address_of_another_form_is_an_encoding_error() {
    let other = subprogram(Some(AttrValue::Text(b"foo")), Some(AttrValue::Other));
    assert_eq!(read_label(&other), Err(ExtractionError::Encoding));
    let text = subprogram(Some(AttrValue::Text(b"foo")), Some(AttrValue::Text(b"bar")));
    assert_eq!(read_label(&text), Err(ExtractionError::Encoding));
    let both = subprogram(Some(AttrValue::Text(&[0xff])), Some(AttrValue::Other));
    assert_eq!(read_label(&both), Err(ExtractionError::Encoding));
}

#[test]
fn subprogram_with_undecodable_name_is_a_text_error() {
    let entry = subprogram(Some(AttrValue::Text(&[b'f', 0xc3, 0x28])), Some(AttrValue::Addr(1)));
    assert_eq!(read_label(&entry), Err(ExtractionError::Text));
}

#[test]
fn label_with_prefix_and_address_gives_a_pair() {
    let entry = label(Some(AttrValue::Text(b"__YK_BLK_3")), Some(AttrValue::Addr(0x2040)));
    assert_eq!(read_label(&entry), Ok(Some((0x2040, String::from("__YK_BLK_3")))));
}

#[test]
fn label_without_prefix_gives_nothing() {
    let entry = label(Some(AttrValue::Text(b"loop_head")), Some(AttrValue::Addr(0x2040)));
    assert_eq!(read_label(&entry), Ok(None));
    let odd = label(Some(AttrValue::Text(b"loop_head")), Some(AttrValue::Other));
    assert_eq!(read_label(&odd), Ok(None));
}

#[test]
fn label_without_address_is_dropped() {
    let entry = label(Some(AttrValue::Text(b"__YK_BLK_3")), None);
    assert_eq!(read_label(&entry), Ok(None));
}

#[test]
fn label_without_name_or_with_name_of_another_form_gives_nothing() {
    assert_eq!(read_label(&label(None, Some(AttrValue::Addr(1)))), Ok(None));
    assert_eq!(read_label(&label(Some(AttrValue::Other), Some(AttrValue::Addr(1)))), Ok(None));
    assert_eq!(read_label(&label(Some(AttrValue::Addr(9)), Some(AttrValue::Addr(1)))), Ok(None));
}

#[test]
fn label_with_undecodable_name_is_a_text_error() {
    let entry = label(Some(AttrValue::Text(&[b'_', b'_', 0x80])), Some(AttrValue::Addr(1)));
    assert_eq!(read_label(&entry), Err(ExtractionError::Text));
    let no_addr = label(Some(AttrValue::Text(&[0x80])), None);
    assert_eq!(read_label(&no_addr), Err(ExtractionError::Text));
}

#[test]
fn label_with_address_of_another_form_is_an_encoding_error() {
    let entry = label(Some(AttrValue::Text(b"__YK_BLK_3")), Some(AttrValue::Other));
    assert_eq!(read_label(&entry), Err(ExtractionError::Encoding));
}

#[test]
fn label_linkage_name_is_not_read() {
    let entry = DebugEntry {
        tag: TAG_LABEL,
        linkage_name: Some(AttrValue::Text(b"__YK_BLK_3")),
        name: None,
        low_pc: Some(AttrValue::Addr(1)),
    };
    assert_eq!(read_label(&entry), Ok(None));
}

#[test]
fn entry_with_another_tag_gives_nothing() {
    let entry = DebugEntry {
        tag: 0x34,
        linkage_name: Some(AttrValue::Text(b"foo")),
        name: Some(AttrValue::Text(b"__YK_foo")),
        low_pc: Some(AttrValue::Addr(0x1000)),
    };
    assert_eq!(read_label(&entry), Ok(None));
    let odd = DebugEntry {
        tag: 0x11,
        linkage_name: Some(AttrValue::Other),
        name: Some(AttrValue::Text(&[0xff])),
        low_pc: Some(AttrValue::Other),
    };
    assert_eq!(read_label(&odd), Ok(None));
}

#[test]
fn new_table_is_empty() {
    let table = LabelTable::new();
    assert_eq!(table.get(0), None);
    assert_eq!(table.get(0x1000), None);
    assert_eq!(table.get(u64::MAX), None);
}

#[test]
fn insert_writes_over_the_label_at_an_address() {
    let mut table = LabelTable::new();
    table.insert(0x1000, String::from("first"));
    table.insert(0x2000, String::from("other"));
    assert_eq!(table.get(0x1000), Some(&String::from("first")));
    table.insert(0x1000, String::from("second"));
    assert_eq!(table.get(0x1000), Some(&String::from("second")));
    assert_eq!(table.get(0x2000), Some(&String::from("other")));
    assert_eq!(table.get(0x3000), None);
}

#[test]
fn two_addresses_may_hold_the_same_label() {
    let mut table = LabelTable::new();
    table.insert(1, String::from("same"));
    table.insert(2, String::from("same"));
    assert_eq!(table.get(1), Some(&String::from("same")));
    assert_eq!(table.get(2), Some(&String::from("same")));
}

#[test]
fn record_adds_the_pair_of_an_entry() {
    let mut table = LabelTable::new();
    let entry = subprogram(Some(AttrValue::Text(b"foo")), Some(AttrValue::Addr(0x1000)));
    assert_eq!(table.record(&entry), Ok(()));
    assert_eq!(table.get(0x1000), Some(&String::from("foo")));
    let skipped = label(Some(AttrValue::Text(b"plain")), Some(AttrValue::Addr(0x1004)));
    assert_eq!(table.record(&skipped), Ok(()));
    assert_eq!(table.get(0x1004), None);
    assert_eq!(table.get(0x1000), Some(&String::from("foo")));
}

#[test]
fn record_leaves_the_table_as_it_was_on_an_error() {
    let mut table = LabelTable::new();
    table.insert(0x1000, String::from("kept"));
    let bad = subprogram(Some(AttrValue::Text(&[0xff])), Some(AttrValue::Addr(0x1000)));
    assert_eq!(table.record(&bad), Err(ExtractionError::Text));
    assert_eq!(table.get(0x1000), Some(&String::from("kept")));
    let odd = subprogram(Some(AttrValue::Other), Some(AttrValue::Addr(0x1000)));
    assert_eq!(table.record(&odd), Err(ExtractionError::Encoding));
    assert_eq!(table.get(0x1000), Some(&String::from("kept")));
}

#[test]
fn label_after_subprogram_at_the_same_address_wins() {
    let mut table = LabelTable::new();
    let function = subprogram(Some(AttrValue::Text(b"foo")), Some(AttrValue::Addr(0x1000)));
    let marker = label(Some(AttrValue::Text(b"__YK_foo")), Some(AttrValue::Addr(0x1000)));
    assert_eq!(table.record(&function), Ok(()));
    assert_eq!(table.record(&marker), Ok(()));
    assert_eq!(table.get(0x1000), Some(&String::from("__YK_foo")));
}

#[test]
fn subprogram_after_label_at_the_same_address_wins() {
    let mut table = LabelTable::new();
    let function = subprogram(Some(AttrValue::Text(b"foo")), Some(AttrValue::Addr(0x1000)));
    let marker = label(Some(AttrValue::Text(b"__YK_foo")), Some(AttrValue::Addr(0x1000)));
    assert_eq!(table.record(&marker), Ok(()));
    assert_eq!(table.record(&function), Ok(()));
    assert_eq!(table.get(0x1000), Some(&String::from("foo")));
}

#[test]
fn table_is_built_from_entries_in_order() {
    let entries = [
        subprogram(Some(AttrValue::Text(b"foo")), Some(AttrValue::Addr(0x1000))),
        label(Some(AttrValue::Text(b"__YK_BLK_0")), Some(AttrValue::Addr(0x1008))),
        label(Some(AttrValue::Text(b"loop_head")), Some(AttrValue::Addr(0x1010))),
        subprogram(Some(AttrValue::Text(b"bar")), None),
        label(Some(AttrValue::Text(b"__YK_foo")), Some(AttrValue::Addr(0x1000))),
        subprogram(Some(AttrValue::Text(b"baz")), Some(AttrValue::Addr(0x2000))),
    ];
    let table = LabelTable::from_entries(&entries).expect("every entry can be read");
    assert_eq!(table.get(0x1000), Some(&String::from("__YK_foo")));
    assert_eq!(table.get(0x1008), Some(&String::from("__YK_BLK_0")));
    assert_eq!(table.get(0x1010), None);
    assert_eq!(table.get(0x2000), Some(&String::from("baz")));
    assert_eq!(table.get(0), None);
}

#[test]
fn table_of_no_entries_is_empty() {
    let table = LabelTable::from_entries(&[]).expect("nothing can fail");
    assert_eq!(table.get(0), None);
    assert_eq!(table.get(0x1000), None);
}

#[test]
fn first_unreadable_entry_ends_the_build() {
    let good = subprogram(Some(AttrValue::Text(b"foo")), Some(AttrValue::Addr(0x1000)));
    let undecodable = subprogram(Some(AttrValue::Text(&[0xff])), Some(AttrValue::Addr(0x2000)));
    let misformed = label(Some(AttrValue::Text(b"__YK_x")), Some(AttrValue::Other));
    assert_eq!(
        LabelTable::from_entries(&[good, undecodable, misformed]).err(),
        Some(ExtractionError::Text)
    );
    assert_eq!(
        LabelTable::from_entries(&[misformed, good, undecodable]).err(),
        Some(ExtractionError::Encoding)
    );
    assert_eq!(LabelTable::from_entries(&[good, good, misformed]).err(), Some(ExtractionError::Encoding));
    assert!(LabelTable::from_entries(&[good, good]).is_ok());
}

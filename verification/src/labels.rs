//! The address-to-label table and the rule that fills it from entries of the
//! debug-information tree.
//!
//! An entry is taken as plain data: its tag and the three attributes the rule
//! looks at.  Every address held in the table is a static address.

use crate::dwarf::decode_text;
use crate::error::ExtractionError;
use std::collections::HashMap;
use vstd::prelude::*;
use vstd::string::StrSliceExecFns;
use vstd::utf8::{decode_utf8, valid_utf8};

verus! {

broadcast use vstd::std_specs::hash::group_hash_axioms;

/// Tag of an entry that marks a point inside generated code (`DW_TAG_label`).
pub const TAG_LABEL: u16 = 0x0a;

/// Tag of an entry that describes a compiled function (`DW_TAG_subprogram`).
pub const TAG_SUBPROGRAM: u16 = 0x2e;

/// Attribute that holds an entry's name (`DW_AT_name`).
pub const AT_NAME: u16 = 0x03;

/// Attribute that holds an entry's first address (`DW_AT_low_pc`).
pub const AT_LOW_PC: u16 = 0x11;

/// Attribute that holds a function's linkage name (`DW_AT_linkage_name`).
pub const AT_LINKAGE_NAME: u16 = 0x6e;

/// The prefix that the name of a label entry must begin with to be recorded.
pub open spec fn marker_prefix() -> Seq<char> {
    seq!['_', '_', 'Y', 'K', '_']
}

/// Whether a label's name begins with the reserved prefix.
pub open spec fn is_marker(name: Seq<char>) -> bool {
    marker_prefix().is_prefix_of(name)
}

/// What an attribute of an entry holds, as far as the table's rule reads it.
#[derive(Clone, Copy, Debug)]
pub enum AttrValue<'a> {
    /// An address in the address space of the described program.
    Addr(u64),
    /// The bytes of a string, without a terminator.
    Text(&'a [u8]),
    /// Any other form.
    Other,
}

/// One entry of the debug-information tree.
#[derive(Clone, Copy, Debug)]
pub struct DebugEntry<'a> {
    pub tag: u16,
    pub linkage_name: Option<AttrValue<'a>>,
    pub name: Option<AttrValue<'a>>,
    pub low_pc: Option<AttrValue<'a>>,
}

/// An [`AttrValue`] with the bytes of its string as a sequence.
pub enum AttrView {
    Addr(u64),
    Text(Seq<u8>),
    Other,
}

impl<'a> View for AttrValue<'a> {
    type V = AttrView;

    open spec fn view(&self) -> AttrView {
        match *self {
            AttrValue::Addr(addr) => AttrView::Addr(addr),
            AttrValue::Text(bytes) => AttrView::Text(bytes@),
            AttrValue::Other => AttrView::Other,
        }
    }
}

/// The view of an attribute that an entry may have.
pub open spec fn attr_view(attr: Option<AttrValue>) -> Option<AttrView> {
    match attr {
        Some(value) => Some(value@),
        None => None,
    }
}

/// A [`DebugEntry`] with the bytes of its strings as sequences.
pub struct EntryView {
    pub tag: u16,
    pub linkage_name: Option<AttrView>,
    pub name: Option<AttrView>,
    pub low_pc: Option<AttrView>,
}

impl<'a> View for DebugEntry<'a> {
    type V = EntryView;

    open spec fn view(&self) -> EntryView {
        EntryView {
            tag: self.tag,
            linkage_name: attr_view(self.linkage_name),
            name: attr_view(self.name),
            low_pc: attr_view(self.low_pc),
        }
    }
}

/// The label that a name and an address attribute give: none without an
/// address, an error for an attribute that is no address or a name that is no
/// text.  The attribute's form is looked at before the name's bytes.
pub open spec fn label_at(text: Seq<u8>, low_pc: Option<AttrView>) -> Result<
    Option<(u64, Seq<char>)>,
    ExtractionError,
> {
    match low_pc {
        None => Ok(None),
        Some(AttrView::Addr(addr)) => if valid_utf8(text) {
            Ok(Some((addr, decode_utf8(text))))
        } else {
            Err(ExtractionError::Text)
        },
        Some(_) => Err(ExtractionError::Encoding),
    }
}

/// The pair that an entry adds to the table, if any, by the entry's view.
///
/// A subprogram adds its linkage name under its first address, when it has
/// both.  A label adds its name under its first address, when it has both and
/// the name begins with the reserved prefix; a label whose name has no string
/// form adds nothing.  Entries with other tags add nothing.
pub open spec fn label_of(entry: EntryView) -> Result<Option<(u64, Seq<char>)>, ExtractionError> {
    if entry.tag == TAG_SUBPROGRAM {
        match entry.linkage_name {
            None => Ok(None),
            Some(AttrView::Text(text)) => label_at(text, entry.low_pc),
            Some(_) => Err(ExtractionError::Encoding),
        }
    } else if entry.tag == TAG_LABEL {
        match entry.name {
            Some(AttrView::Text(text)) => if !valid_utf8(text) {
                Err(ExtractionError::Text)
            } else if !is_marker(decode_utf8(text)) {
                Ok(None)
            } else {
                label_at(text, entry.low_pc)
            },
            _ => Ok(None),
        }
    } else {
        Ok(None)
    }
}

/// The pair that an entry adds to the table, if any; see [`label_of`].
pub open spec fn entry_label(entry: DebugEntry) -> Result<
    Option<(u64, Seq<char>)>,
    ExtractionError,
> {
    label_of(entry@)
}

/// The views of a sequence of entries.
pub open spec fn views(entries: Seq<DebugEntry>) -> Seq<EntryView> {
    Seq::new(entries.len(), |i: int| entries[i]@)
}

/// The table that a sequence of entries builds, taken in order: each entry's
/// pair is written over what the table held at that address, and the first
/// entry that cannot be read ends the build with its error.
pub open spec fn table_of(entries: Seq<EntryView>) -> Result<Map<u64, Seq<char>>, ExtractionError>
    decreases entries.len(),
{
    if entries.len() == 0 {
        Ok(Map::empty())
    } else {
        match table_of(entries.drop_last()) {
            Err(e) => Err(e),
            Ok(table) => match label_of(entries.last()) {
                Err(e) => Err(e),
                Ok(None) => Ok(table),
                Ok(Some((addr, label))) => Ok(table.insert(addr, label)),
            },
        }
    }
}

/// Whether `entry` adds a pair at `addr`.
pub open spec fn writes_at(entry: EntryView, addr: u64) -> bool {
    label_of(entry) matches Ok(Some(pair)) && pair.0 == addr
}

/// The last write wins: where an entry adds a pair and no entry behind it
/// adds one at the same address, the table holds that entry's label there.
pub proof fn last_entry_at_address_wins(entries: Seq<EntryView>, k: int, addr: u64)
    requires
        table_of(entries) is Ok,
        0 <= k < entries.len(),
        writes_at(entries[k], addr),
        forall|j: int| k < j < entries.len() ==> !writes_at(#[trigger] entries[j], addr),
    ensures
        table_of(entries)->Ok_0.contains_key(addr),
        table_of(entries)->Ok_0[addr] == label_of(entries[k])->Ok_0->Some_0.1,
    decreases entries.len(),
{
    if k < entries.len() - 1 {
        last_entry_at_address_wins(entries.drop_last(), k, addr);
    }
}

/// Of two entries that add a pair at one address, the later one decides the
/// label, unless a third behind both writes there again; the table holds one
/// label for the address.
pub proof fn later_entry_decides_label(
    entries: Seq<EntryView>,
    first: int,
    second: int,
    addr: u64,
)
    requires
        table_of(entries) is Ok,
        0 <= first < second < entries.len(),
        writes_at(entries[first], addr),
        writes_at(entries[second], addr),
        forall|j: int| second < j < entries.len() ==> !writes_at(#[trigger] entries[j], addr),
    ensures
        table_of(entries)->Ok_0.contains_key(addr),
        table_of(entries)->Ok_0[addr] == label_of(entries[second])->Ok_0->Some_0.1,
{
    last_entry_at_address_wins(entries, second, addr);
}

/// The table holds nothing but what the entries add: for each address of the
/// table there is an entry that adds the table's label at that address, and no
/// entry behind it writes there.
pub proof fn table_holds_what_entries_add(entries: Seq<EntryView>, addr: u64) -> (k: int)
    requires
        table_of(entries) is Ok,
        table_of(entries)->Ok_0.contains_key(addr),
    ensures
        0 <= k < entries.len(),
        label_of(entries[k]) == Ok::<Option<(u64, Seq<char>)>, ExtractionError>(
            Some((addr, table_of(entries)->Ok_0[addr])),
        ),
        forall|j: int| k < j < entries.len() ==> !writes_at(#[trigger] entries[j], addr),
    decreases entries.len(),
{
    if writes_at(entries.last(), addr) {
        entries.len() - 1
    } else {
        let shorter = entries.drop_last();
        let k = table_holds_what_entries_add(shorter, addr);
        assert forall|j: int| k < j < entries.len() implies !writes_at(
            #[trigger] entries[j],
            addr,
        ) by {
            if j < shorter.len() {
                assert(shorter[j] == entries[j]);
            }
        }
        k
    }
}

/// A build ends with the first entry that cannot be read: where the entries
/// up to some place fail to build a table, all of them fail with the same
/// error.
pub proof fn build_ends_at_first_error(entries: Seq<EntryView>, n: int)
    requires
        0 <= n <= entries.len(),
        table_of(entries.take(n)) is Err,
    ensures
        table_of(entries) == table_of(entries.take(n)),
    decreases entries.len() - n,
{
    if n == entries.len() {
        assert(entries.take(n) =~= entries);
    } else {
        assert(entries.take(n + 1).drop_last() =~= entries.take(n));
        build_ends_at_first_error(entries, n + 1);
    }
}

/// A build fails by the rule alone: with an attribute of another form than
/// its kind calls for, or with a name that is no text.
pub proof fn build_fails_by_rule_alone(entries: Seq<EntryView>)
    ensures
        table_of(entries) matches Err(e) ==> e is Encoding || e is Text,
    decreases entries.len(),
{
    if entries.len() > 0 {
        build_fails_by_rule_alone(entries.drop_last());
    }
}

/// A build that succeeds has read every entry.
pub proof fn built_table_read_every_entry(entries: Seq<EntryView>, k: int)
    requires
        table_of(entries) is Ok,
        0 <= k < entries.len(),
    ensures
        label_of(entries[k]) is Ok,
    decreases entries.len(),
{
    if k < entries.len() - 1 {
        built_table_read_every_entry(entries.drop_last(), k);
    }
}

/// Whether `name` begins with the reserved prefix.
pub fn has_marker_prefix(name: &str) -> (r: bool)
    ensures
        r == is_marker(name@),
{
    if name.unicode_len() < 5 {
        return false;
    }
    name.get_char(0) == '_' && name.get_char(1) == '_' && name.get_char(2) == 'Y'
        && name.get_char(3) == 'K' && name.get_char(4) == '_'
}

/// Whether `bytes` are the text of a name that begins with the reserved
/// prefix.
pub fn is_marker_text(bytes: &[u8]) -> (r: bool)
    ensures
        r == (valid_utf8(bytes@) && is_marker(decode_utf8(bytes@))),
{
    match decode_text(bytes) {
        Some(text) => has_marker_prefix(text.as_str()),
        None => false,
    }
}

/// What a result of reading an entry says in terms of sequences of
/// characters.
pub open spec fn label_view(r: Result<Option<(u64, String)>, ExtractionError>) -> Result<
    Option<(u64, Seq<char>)>,
    ExtractionError,
> {
    match r {
        Ok(Some((addr, label))) => Ok(Some((addr, label@))),
        Ok(None) => Ok(None),
        Err(e) => Err(e),
    }
}

/// The pair that `entry` adds to a table, if any.
pub fn read_label(entry: &DebugEntry) -> (r: Result<Option<(u64, String)>, ExtractionError>)
    ensures
        label_view(r) == entry_label(*entry),
{
    if entry.tag == TAG_SUBPROGRAM {
        match entry.linkage_name {
            None => Ok(None),
            Some(AttrValue::Text(bytes)) => match entry.low_pc {
                None => Ok(None),
                Some(AttrValue::Addr(addr)) => match decode_text(bytes) {
                    Some(text) => Ok(Some((addr, text))),
                    None => Err(ExtractionError::Text),
                },
                Some(_) => Err(ExtractionError::Encoding),
            },
            Some(_) => Err(ExtractionError::Encoding),
        }
    } else if entry.tag == TAG_LABEL {
        match entry.name {
            Some(AttrValue::Text(bytes)) => match decode_text(bytes) {
                None => Err(ExtractionError::Text),
                Some(text) => if !has_marker_prefix(text.as_str()) {
                    Ok(None)
                } else {
                    match entry.low_pc {
                        None => Ok(None),
                        Some(AttrValue::Addr(addr)) => Ok(Some((addr, text))),
                        Some(_) => Err(ExtractionError::Encoding),
                    }
                },
            },
            _ => Ok(None),
        }
    } else {
        Ok(None)
    }
}

/// A mapping from static addresses to labels.
pub struct LabelTable {
    map: HashMap<u64, String>,
}

impl View for LabelTable {
    type V = Map<u64, Seq<char>>;

    closed spec fn view(&self) -> Map<u64, Seq<char>> {
        Map::new(|addr: u64| self.map@.contains_key(addr), |addr: u64| self.map@[addr]@)
    }
}

/// What the outcome of a build says in terms of maps and sequences of
/// characters.
pub open spec fn built_view(built: Result<LabelTable, ExtractionError>) -> Result<
    Map<u64, Seq<char>>,
    ExtractionError,
> {
    match built {
        Ok(table) => Ok(table@),
        Err(e) => Err(e),
    }
}

impl LabelTable {
    /// The empty table.
    pub fn new() -> (table: LabelTable)
        ensures
            table@ == Map::<u64, Seq<char>>::empty(),
    {
        LabelTable { map: HashMap::new() }
    }

    /// Writes `label` at `addr`, over what was there.
    pub fn insert(&mut self, addr: u64, label: String)
        ensures
            final(self)@ == old(self)@.insert(addr, label@),
    {
        self.map.insert(addr, label);
    }

    /// The label at `addr`.
    pub fn get(&self, addr: u64) -> (label: Option<&String>)
        ensures
            match label {
                Some(l) => self@.contains_key(addr) && l@ == self@[addr],
                None => !self@.contains_key(addr),
            },
    {
        self.map.get(&addr)
    }

    /// Adds what `entry` gives to the table: its pair, written over what the
    /// table held at that address, or nothing.  An entry that cannot be read
    /// leaves the table as it was.
    pub fn record(&mut self, entry: &DebugEntry) -> (r: Result<(), ExtractionError>)
        ensures
            match entry_label(*entry) {
                Ok(Some((addr, label))) => r is Ok && final(self)@ == old(self)@.insert(
                    addr,
                    label,
                ),
                Ok(None) => r is Ok && final(self)@ == old(self)@,
                Err(e) => r == Err::<(), ExtractionError>(e) && final(self)@ == old(self)@,
            },
    {
        match read_label(entry) {
            Ok(Some((addr, label))) => {
                self.insert(addr, label);
                Ok(())
            },
            Ok(None) => Ok(()),
            Err(e) => Err(e),
        }
    }

    /// The table that `entries` build, taken in order: each entry's pair is
    /// written over what the table held at that address.  The first entry
    /// that cannot be read ends the build with its error.
    pub fn from_entries(entries: &[DebugEntry]) -> (r: Result<LabelTable, ExtractionError>)
        ensures
            built_view(r) == table_of(views(entries@)),
    {
        let mut table = LabelTable::new();
        let mut i: usize = 0;
        while i < entries.len()
            invariant
                i <= entries@.len(),
                table_of(views(entries@).take(i as int)) == Ok::<
                    Map<u64, Seq<char>>,
                    ExtractionError,
                >(table@),
            decreases entries@.len() - i,
        {
            proof {
                assert(views(entries@).take(i + 1).drop_last() =~= views(entries@).take(i as int));
            }
            match table.record(&entries[i]) {
                Ok(()) => {},
                Err(e) => {
                    proof {
                        build_ends_at_first_error(views(entries@), i + 1);
                    }
                    return Err(e);
                },
            }
            i += 1;
        }
        proof {
            assert(views(entries@).take(i as int) =~= views(entries@));
        }
        Ok(table)
    }
}

} // verus!

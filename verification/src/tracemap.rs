//! The resolution session: the load bias of the process image together with
//! the label table of its executable, and the annotation of traces against
//! them.
//!
//! Addresses in the table are static addresses, addresses in a trace are
//! runtime addresses.  A runtime address is looked up only after the load
//! bias has been taken off it.

use crate::annotate::{
    above_bias, annotation, failures_only_annotate_to_nothing, matched_block_is_annotated,
    pairs_view, Block, BlockError,
};
use crate::error::ExtractionError;
use crate::extract::{extract_labels, extraction_outcome};
use crate::labels::{
    built_table_read_every_entry, last_entry_at_address_wins, table_of, writes_at, AttrView,
    EntryView, LabelTable, TAG_SUBPROGRAM,
};
use vstd::prelude::*;
use vstd::utf8::{decode_utf8, valid_utf8};

verus! {

/// The load bias: the base address of the first of the process's loaded
/// objects.
///
/// `objects` holds the base address of each loaded object, in the order in
/// which the process lists them.
pub fn get_phdr_offset(objects: &[u64]) -> (offset: u64)
    requires
        objects@.len() > 0,
    ensures
        offset == objects@[0],
{
    objects[0]
}

/// The table that a session holds after an extraction: the table that was
/// built, or none if the extraction failed.
pub open spec fn extracted_table(extracted: Result<LabelTable, ExtractionError>) -> Option<
    Map<u64, Seq<char>>,
> {
    match extracted {
        Ok(labels) => Some(labels@),
        Err(_) => None,
    }
}

/// What a result of annotation says in terms of sequences of characters.
pub open spec fn annotated_view(annotated: Option<Vec<(u64, &String)>>) -> Option<
    Seq<(u64, Seq<char>)>,
> {
    match annotated {
        Some(pairs) => Some(pairs_view(pairs@)),
        None => None,
    }
}

/// A resolution session: a load bias, and a label table unless none could be
/// built.
pub struct MapTrace {
    phdr_offset: u64,
    labels: Option<LabelTable>,
}

impl MapTrace {
    /// The session's load bias.
    pub closed spec fn bias(&self) -> u64 {
        self.phdr_offset
    }

    /// The session's label table, if it has one.
    pub closed spec fn table(&self) -> Option<Map<u64, Seq<char>>> {
        match self.labels {
            Some(labels) => Some(labels@),
            None => None,
        }
    }

    /// The annotation that the session gives a trace: that of the trace
    /// against the session's table and load bias, and none where the session
    /// has no table.
    pub open spec fn annotation_of(&self, trace: Seq<Result<Block, BlockError>>) -> Option<
        Seq<(u64, Seq<char>)>,
    > {
        match self.table() {
            Some(table) => Some(annotation(trace, table, self.bias())),
            None => None,
        }
    }

    /// The session of a load bias and the outcome of label extraction: it
    /// holds the table that was built, and none if extraction failed.
    pub fn with_labels(
        phdr_offset: u64,
        extracted: Result<LabelTable, ExtractionError>,
    ) -> (session: MapTrace)
        ensures
            session.bias() == phdr_offset,
            session.table() == extracted_table(extracted),
    {
        let labels = match extracted {
            Ok(labels) => Some(labels),
            Err(_) => None,
        };
        MapTrace { phdr_offset, labels }
    }

    /// The session of a process: its load bias is the base address of the
    /// first of `objects`, its labels are those of the executable image that
    /// `image` holds.  An image from which no table can be built gives a
    /// session without one; see [`extraction_outcome`].
    pub fn new(objects: &[u64], image: &[u8]) -> (session: MapTrace)
        requires
            objects@.len() > 0,
        ensures
            session.bias() == objects@[0],
            session.table() == match extraction_outcome(image@) {
                Ok(table) => Some(table),
                Err(_) => None,
            },
    {
        let phdr_offset = get_phdr_offset(objects);
        MapTrace::with_labels(phdr_offset, extract_labels(image))
    }

    /// The load bias.
    pub fn phdr_offset(&self) -> (offset: u64)
        ensures
            offset == self.bias(),
    {
        self.phdr_offset
    }

    /// The label table, if the session has one.
    pub fn labels(&self) -> (labels: Option<&LabelTable>)
        ensures
            match labels {
                Some(table) => self.table() == Some(table@),
                None => self.table() is None,
            },
    {
        self.labels.as_ref()
    }

    /// Annotates a trace: the blocks whose static address has a label, in the
    /// order of the trace, each as its static address and that label.
    ///
    /// A session without a table gives no annotation, whatever the trace.
    pub fn annotate_trace<'a>(&'a self, trace: &[Result<Block, BlockError>]) -> (annotated: Option<
        Vec<(u64, &'a String)>,
    >)
        requires
            self.table() is Some ==> above_bias(trace@, self.bias()),
        ensures
            annotated_view(annotated) == self.annotation_of(trace@),
    {
        let labels = match &self.labels {
            Some(labels) => labels,
            None => {
                return None;
            },
        };
        let mut annotrace: Vec<(u64, &'a String)> = Vec::new();
        let mut i: usize = 0;
        while i < trace.len()
            invariant
                i <= trace@.len(),
                above_bias(trace@, self.phdr_offset),
                pairs_view(annotrace@) == annotation(
                    trace@.take(i as int),
                    labels@,
                    self.phdr_offset,
                ),
            decreases trace@.len() - i,
        {
            proof {
                assert(trace@.take(i + 1).drop_last() =~= trace@.take(i as int));
            }
            match trace[i] {
                Ok(block) => {
                    let addr = block.start_vaddr - self.phdr_offset;
                    match labels.get(addr) {
                        Some(l) => annotrace.push((addr, l)),
                        None => {},
                    }
                },
                Err(_) => {},
            }
            i += 1;
        }
        proof {
            assert(trace@.take(i as int) =~= trace@);
        }
        Some(annotrace)
    }
}

/// A block that starts at the runtime address of a subprogram is annotated
/// with the subprogram's static address and linkage name, once, behind the
/// pairs of the positions before it.  The subprogram is one whose address no
/// later entry writes to.
pub proof fn subprogram_block_is_annotated(
    entries: Seq<EntryView>,
    k: int,
    addr: u64,
    name: Seq<u8>,
    trace: Seq<Result<Block, BlockError>>,
    bias: u64,
    i: int,
)
    requires
        table_of(entries) is Ok,
        0 <= k < entries.len(),
        entries[k].tag == TAG_SUBPROGRAM,
        entries[k].linkage_name == Some(AttrView::Text(name)),
        entries[k].low_pc == Some(AttrView::Addr(addr)),
        forall|j: int| k < j < entries.len() ==> !writes_at(#[trigger] entries[j], addr),
        0 <= i < trace.len(),
        addr + bias <= u64::MAX,
        trace[i] == Ok::<Block, BlockError>(Block { start_vaddr: (addr + bias) as u64 }),
    ensures
        valid_utf8(name),
        ({
            let table = table_of(entries)->Ok_0;
            let before = annotation(trace.take(i), table, bias);
            let whole = annotation(trace, table, bias);
            &&& annotation(trace.take(i + 1), table, bias) == before.push(
                (addr, decode_utf8(name)),
            )
            &&& before.len() < whole.len()
            &&& whole[before.len() as int] == (addr, decode_utf8(name))
        }),
{
    built_table_read_every_entry(entries, k);
    last_entry_at_address_wins(entries, k, addr);
    matched_block_is_annotated(trace, table_of(entries)->Ok_0, bias, i);
}

/// Annotation is determined by the session and the trace: two results for
/// the same trace from the same session are equal.
pub proof fn annotation_is_determined(
    session: MapTrace,
    trace: Seq<Result<Block, BlockError>>,
    first: Option<Vec<(u64, &String)>>,
    second: Option<Vec<(u64, &String)>>,
)
    requires
        annotated_view(first) == session.annotation_of(trace),
        annotated_view(second) == session.annotation_of(trace),
    ensures
        annotated_view(first) == annotated_view(second),
        first is None <==> second is None,
{
}

/// A session made from a failed extraction annotates no trace, the empty one
/// included.
pub proof fn failed_extraction_gives_no_annotation(
    session: MapTrace,
    extracted: Result<LabelTable, ExtractionError>,
    trace: Seq<Result<Block, BlockError>>,
)
    requires
        extracted is Err,
        session.table() == extracted_table(extracted),
    ensures
        session.annotation_of(trace) is None,
{
}

/// A session with a table annotates a trace of failures only with the empty
/// sequence, not with none.
pub proof fn failures_only_give_empty_annotation(
    session: MapTrace,
    trace: Seq<Result<Block, BlockError>>,
)
    requires
        session.table() is Some,
        forall|i: int| 0 <= i < trace.len() ==> (#[trigger] trace[i]) is Err,
    ensures
        session.annotation_of(trace) == Some(Seq::<(u64, Seq<char>)>::empty()),
{
    failures_only_annotate_to_nothing(trace, session.table()->Some_0, session.bias());
}

} // verus!

//! Traces of basic blocks and what their annotation is.
//!
//! A trace is a sequence of positions, each a block with its runtime start
//! address or a failure that the tracer reported.  Its annotation against a
//! label table and a load bias keeps, in order, the blocks whose static
//! address has a label.

use vstd::prelude::*;

verus! {

/// One basic block of a trace: the runtime address at which it starts.
#[derive(Clone, Copy, Debug, PartialEq, Eq, Structural)]
pub struct Block {
    pub start_vaddr: u64,
}

/// A position of a trace at which the tracer reported a failure in place of a
/// block.
#[derive(Clone, Copy, Debug, PartialEq, Eq, Structural)]
pub struct BlockError {}

/// The static address of a block: its runtime address less the load bias.
pub open spec fn corrected(block: Block, bias: u64) -> u64
    recommends
        block.start_vaddr >= bias,
{
    (block.start_vaddr - bias) as u64
}

/// Whether no block of the trace starts below the load bias.
pub open spec fn above_bias(trace: Seq<Result<Block, BlockError>>, bias: u64) -> bool {
    forall|i: int| 0 <= i < trace.len() ==> (#[trigger] trace[i] matches Ok(block)
        ==> block.start_vaddr >= bias)
}

/// Whether the position `item` of a trace is a block whose static address the
/// table holds.
pub open spec fn matched(item: Result<Block, BlockError>, table: Map<u64, Seq<char>>, bias: u64)
    -> bool {
    item matches Ok(block) && table.contains_key(corrected(block, bias))
}

/// The annotation of a trace: for each block whose static address the table
/// holds, in the order of the trace, that address with its label.  Failures
/// and blocks at other addresses add nothing, and a block adds its pair as
/// often as it occurs.
pub open spec fn annotation(
    trace: Seq<Result<Block, BlockError>>,
    table: Map<u64, Seq<char>>,
    bias: u64,
) -> Seq<(u64, Seq<char>)>
    decreases trace.len(),
{
    if trace.len() == 0 {
        Seq::empty()
    } else {
        let before = annotation(trace.drop_last(), table, bias);
        if matched(trace.last(), table, bias) {
            let addr = corrected(trace.last()->Ok_0, bias);
            before.push((addr, table[addr]))
        } else {
            before
        }
    }
}

/// The pairs of an annotation, each label taken as its sequence of
/// characters.
pub open spec fn pairs_view(pairs: Seq<(u64, &String)>) -> Seq<(u64, Seq<char>)> {
    Seq::new(pairs.len(), |i: int| (pairs[i].0, pairs[i].1@))
}

/// The positions of a trace that its annotation keeps, in rising order.
pub open spec fn kept_positions(
    trace: Seq<Result<Block, BlockError>>,
    table: Map<u64, Seq<char>>,
    bias: u64,
) -> Seq<int>
    decreases trace.len(),
{
    if trace.len() == 0 {
        Seq::empty()
    } else {
        let before = kept_positions(trace.drop_last(), table, bias);
        if matched(trace.last(), table, bias) {
            before.push(trace.len() - 1)
        } else {
            before
        }
    }
}

/// The annotation of two traces, one after the other, is the annotation of
/// the first followed by that of the second.
pub proof fn annotation_of_concatenation(
    first: Seq<Result<Block, BlockError>>,
    second: Seq<Result<Block, BlockError>>,
    table: Map<u64, Seq<char>>,
    bias: u64,
)
    ensures
        annotation(first + second, table, bias) == annotation(first, table, bias) + annotation(
            second,
            table,
            bias,
        ),
    decreases second.len(),
{
    if second.len() > 0 {
        annotation_of_concatenation(first, second.drop_last(), table, bias);
        assert((first + second).drop_last() =~= first + second.drop_last());
    }
}

/// A block whose static address has a label adds exactly one pair to the
/// annotation, that address with its label, and the pair stands behind the
/// pairs of the positions before it.
pub proof fn matched_block_is_annotated(
    trace: Seq<Result<Block, BlockError>>,
    table: Map<u64, Seq<char>>,
    bias: u64,
    i: int,
)
    requires
        0 <= i < trace.len(),
        matched(trace[i], table, bias),
    ensures
        ({
            let addr = corrected(trace[i]->Ok_0, bias);
            let before = annotation(trace.take(i), table, bias);
            let whole = annotation(trace, table, bias);
            &&& annotation(trace.take(i + 1), table, bias) == before.push((addr, table[addr]))
            &&& before.len() < whole.len()
            &&& whole[before.len() as int] == (addr, table[addr])
            &&& whole == before.push((addr, table[addr])) + annotation(
                trace.skip(i + 1),
                table,
                bias,
            )
        }),
{
    let upto = trace.take(i + 1);
    assert(upto.drop_last() =~= trace.take(i));
    assert(trace =~= upto + trace.skip(i + 1));
    annotation_of_concatenation(upto, trace.skip(i + 1), table, bias);
}

/// A position that is a failure, or a block whose static address has no
/// label, adds nothing to the annotation.
pub proof fn unmatched_position_adds_nothing(
    trace: Seq<Result<Block, BlockError>>,
    table: Map<u64, Seq<char>>,
    bias: u64,
    i: int,
)
    requires
        0 <= i < trace.len(),
        !matched(trace[i], table, bias),
    ensures
        annotation(trace.take(i + 1), table, bias) == annotation(trace.take(i), table, bias),
{
    let upto = trace.take(i + 1);
    assert(upto.drop_last() =~= trace.take(i));
}

/// Annotation keeps the order of the trace: the pairs of the annotation are,
/// one for one, the blocks at the kept positions, these positions rise, and
/// each pair holds the static address of its block.
pub proof fn annotation_preserves_order(
    trace: Seq<Result<Block, BlockError>>,
    table: Map<u64, Seq<char>>,
    bias: u64,
)
    ensures
        ({
            let kept = kept_positions(trace, table, bias);
            let pairs = annotation(trace, table, bias);
            &&& kept.len() == pairs.len()
            &&& forall|j: int|
                0 <= j < kept.len() ==> 0 <= #[trigger] kept[j] < trace.len() && matched(
                    trace[kept[j]],
                    table,
                    bias,
                ) && pairs[j].0 == corrected(trace[kept[j]]->Ok_0, bias)
            &&& forall|j: int, k: int| 0 <= j < k < kept.len() ==> kept[j] < kept[k]
        }),
    decreases trace.len(),
{
    if trace.len() > 0 {
        let shorter = trace.drop_last();
        annotation_preserves_order(shorter, table, bias);
    }
}

/// Annotation is a filter: every pair of the annotation holds an address
/// that the table holds, with the label that the table holds for it.
pub proof fn annotation_is_filter(
    trace: Seq<Result<Block, BlockError>>,
    table: Map<u64, Seq<char>>,
    bias: u64,
)
    ensures
        forall|j: int|
            0 <= j < annotation(trace, table, bias).len() ==> table.contains_key(
                (#[trigger] annotation(trace, table, bias)[j]).0,
            ) && annotation(trace, table, bias)[j].1 == table[annotation(trace, table, bias)[j].0],
    decreases trace.len(),
{
    if trace.len() > 0 {
        annotation_is_filter(trace.drop_last(), table, bias);
        let before = annotation(trace.drop_last(), table, bias);
        let pairs = annotation(trace, table, bias);
        assert forall|j: int| 0 <= j < pairs.len() implies table.contains_key(
            (#[trigger] pairs[j]).0,
        ) && pairs[j].1 == table[pairs[j].0] by {
            if j < before.len() {
                assert(pairs[j] == before[j]);
            }
        }
    }
}

/// A trace that holds failures only has the empty annotation.
pub proof fn failures_only_annotate_to_nothing(
    trace: Seq<Result<Block, BlockError>>,
    table: Map<u64, Seq<char>>,
    bias: u64,
)
    requires
        forall|i: int| 0 <= i < trace.len() ==> (#[trigger] trace[i]) is Err,
    ensures
        annotation(trace, table, bias) == Seq::<(u64, Seq<char>)>::empty(),
    decreases trace.len(),
{
    if trace.len() > 0 {
        failures_only_annotate_to_nothing(trace.drop_last(), table, bias);
    }
}

} // verus!

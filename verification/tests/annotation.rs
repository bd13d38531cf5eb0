use tracemap::{get_phdr_offset, Block, BlockError, ExtractionError, LabelTable, MapTrace};

const BIAS: u64 = 0x5555_0000_0000;

fn block(start_vaddr: u64) -> Result<Block, BlockError> {
    Ok(Block { start_vaddr })
}

fn failure() -> Result<Block, BlockError> {
    Err(BlockError {})
}

fn session(bias: u64, labels: &[(u64, &str)]) -> MapTrace {
    let mut table = LabelTable::new();
    for (addr, label) in labels {
        table.insert(*addr, String::from(*label));
    }
    MapTrace::with_labels(bias, Ok(table))
}

fn owned(annotated: Option<Vec<(u64, &String)>>) -> Option<Vec<(u64, String)>> {
    annotated.map(|pairs| pairs.into_iter().map(|(addr, label)| (addr, label.clone())).collect())
}

fn pair(addr: u64, label: &str) -> (u64, String) {
    (addr, String::from(label))
}

#[test]
fn load_bias_is_the_base_of_the_first_object() {
    assert_eq!(get_phdr_offset(&[BIAS, 0x7fff_0000_0000, 0x10]), BIAS);
    assert_eq!(get_phdr_offset(&[0]), 0);
    assert_eq!(get_phdr_offset(&[u64::MAX, 1]), u64::MAX);
}

#[test]
fn session_keeps_its_load_bias() {
    assert_eq!(session(BIAS, &[]).phdr_offset(), BIAS);
    assert_eq!(MapTrace::with_labels(17, Err(ExtractionError::Text)).phdr_offset(), 17);
}

#[test]
fn session_keeps_the_table_that_was_built() {
    let with = session(BIAS, &[(0x1000, "execute_block")]);
    let table = with.labels().expect("a table was built");
    assert_eq!(table.get(0x1000), Some(&String::from("execute_block")));
    assert_eq!(table.get(0x1001), None);
    assert!(MapTrace::with_labels(BIAS, Err(ExtractionError::Encoding)).labels().is_none());
}

#[test]
fn first_block_of_execute_block_is_annotated() {
    let mt = session(BIAS, &[(0x1000, "execute_block")]);
    let trace = vec![block(0x5555_0000_1000), block(0x5555_0000_1010), block(0x5555_0000_1020)];
    let annotated = owned(mt.annotate_trace(&trace)).expect("the session has a table");
    assert_eq!(annotated[0], pair(0x1000, "execute_block"));
    assert_eq!(annotated, vec![pair(0x1000, "execute_block")]);
}

#[test]
fn block_at_a_function_start_gives_one_pair_at_its_place() {
    let mt = session(BIAS, &[(0x1000, "foo"), (0x2000, "bar"), (0x3000, "baz")]);
    let trace = vec![
        block(BIAS + 0x2000),
        block(BIAS + 0x2004),
        failure(),
        block(BIAS + 0x1000),
        block(BIAS + 0x3000),
    ];
    let annotated = owned(mt.annotate_trace(&trace)).unwrap();
    assert_eq!(annotated, vec![pair(0x2000, "bar"), pair(0x1000, "foo"), pair(0x3000, "baz")]);
    assert_eq!(annotated.iter().filter(|p| **p == pair(0x1000, "foo")).count(), 1);
    assert_eq!(annotated[1], pair(0x1000, "foo"));
}

#[test]
fn annotation_keeps_the_order_of_the_trace() {
    let mt = session(0x100, &[(1, "a"), (2, "b"), (3, "c")]);
    let trace = vec![block(0x103), block(0x101), block(0x102), block(0x101), block(0x103)];
    let annotated = owned(mt.annotate_trace(&trace)).unwrap();
    assert_eq!(
        annotated,
        vec![pair(3, "c"), pair(1, "a"), pair(2, "b"), pair(1, "a"), pair(3, "c")]
    );
}

#[test]
fn repeated_blocks_are_not_merged() {
    let mt = session(0x100, &[(1, "a")]);
    let trace = vec![block(0x101), block(0x101), block(0x101)];
    let annotated = owned(mt.annotate_trace(&trace)).unwrap();
    assert_eq!(annotated, vec![pair(1, "a"), pair(1, "a"), pair(1, "a")]);
}

#[test]
fn blocks_without_a_label_are_left_out() {
    let mt = session(0x100, &[(0x10, "a"), (0x20, "b")]);
    let trace = vec![block(0x10f), block(0x110), block(0x111), block(0x11f), block(0x120)];
    let annotated = owned(mt.annotate_trace(&trace)).unwrap();
    assert_eq!(annotated, vec![pair(0x10, "a"), pair(0x20, "b")]);
    for (addr, label) in &annotated {
        assert_eq!(mt.labels().unwrap().get(*addr), Some(label));
    }
}

#[test]
fn runtime_address_is_not_looked_up_without_the_bias() {
    let mt = session(0x100, &[(0x100, "at_bias"), (0x200, "shifted")]);
    let annotated = owned(mt.annotate_trace(&[block(0x100), block(0x200), block(0x300)])).unwrap();
    assert_eq!(annotated, vec![pair(0x100, "at_bias"), pair(0x200, "shifted")]);
    let none = owned(session(0x100, &[(0x100, "at_bias")]).annotate_trace(&[block(0x100)])).unwrap();
    assert_eq!(none, vec![]);
}

#[test]
fn block_at_the_bias_has_static_address_zero() {
    let mt = session(BIAS, &[(0, "start")]);
    let annotated = owned(mt.annotate_trace(&[block(BIAS)])).unwrap();
    assert_eq!(annotated, vec![pair(0, "start")]);
}

#[test]
fn zero_bias_leaves_addresses_as_they_are() {
    let mt = session(0, &[(u64::MAX, "top"), (0, "bottom")]);
    let annotated = owned(mt.annotate_trace(&[block(u64::MAX), block(0)])).unwrap();
    assert_eq!(annotated, vec![pair(u64::MAX, "top"), pair(0, "bottom")]);
}

#[test]
fn annotating_twice_gives_the_same_result() {
    let mt = session(0x100, &[(1, "a"), (2, "b")]);
    let trace = vec![block(0x102), failure(), block(0x101), block(0x105)];
    let first = owned(mt.annotate_trace(&trace));
    let second = owned(mt.annotate_trace(&trace));
    assert_eq!(first, second);
    assert_eq!(first, Some(vec![pair(2, "b"), pair(1, "a")]));
}

#[test]
fn failed_extraction_gives_no_annotation() {
    let errors = [ExtractionError::Format, ExtractionError::Encoding, ExtractionError::Text];
    for error in errors {
        let mt = MapTrace::with_labels(BIAS, Err(error));
        assert!(mt.annotate_trace(&[]).is_none());
        assert!(mt.annotate_trace(&[block(BIAS + 0x1000)]).is_none());
        assert!(mt.annotate_trace(&[failure()]).is_none());
    }
}

#[test]
fn empty_trace_gives_an_empty_annotation() {
    let mt = session(BIAS, &[(0x1000, "foo")]);
    assert_eq!(owned(mt.annotate_trace(&[])), Some(vec![]));
}

#[test]
fn empty_table_gives_an_empty_annotation() {
    let mt = session(BIAS, &[]);
    assert_eq!(owned(mt.annotate_trace(&[block(BIAS), block(BIAS + 1)])), Some(vec![]));
}

#[test]
fn trace_of_failures_gives_an_empty_annotation() {
    let mt = session(BIAS, &[(0x1000, "foo")]);
    let trace = vec![failure(), failure(), failure()];
    assert_eq!(owned(mt.annotate_trace(&trace)), Some(vec![]));
}

#[test]
fn failure_does_not_end_the_pass() {
    let mt = session(0x100, &[(1, "a"), (2, "b")]);
    let trace = vec![failure(), block(0x101), failure(), failure(), block(0x102), failure()];
    assert_eq!(owned(mt.annotate_trace(&trace)), Some(vec![pair(1, "a"), pair(2, "b")]));
}

#[test]
fn labels_are_borrowed_from_the_table() {
    let mt = session(0x100, &[(1, "a")]);
    let annotated = mt.annotate_trace(&[block(0x101)]).unwrap();
    let held = mt.labels().unwrap().get(1).unwrap();
    assert!(std::ptr::eq(annotated[0].1, held));
}

#[test]
fn session_without_table_takes_blocks_below_the_bias() {
    let mt = MapTrace::with_labels(BIAS, Err(ExtractionError::Format));
    assert!(mt.annotate_trace(&[block(0), block(BIAS - 1), failure(), block(BIAS)]).is_none());
    assert!(mt.annotate_trace(&[block(1)]).is_none());
}

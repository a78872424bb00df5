use std::cell::RefCell;
use std::sync::Arc;

use miden_core::mast::{MastForest, MastNodeId};
use miden_core::operations::AssemblyOp;
use miden_debug_types::{
    ByteIndex, Location, SourceFile, SourceId, SourceLanguage, SourceSpan, Uri,
};
use miden_processor_errors::context::{ErrorContext, ErrorContextImpl};
use miden_processor_errors::host::BaseHost;

/// A host that resolves a location to the span `start..end` of source 7 and
/// remembers the locations it was asked about.
struct RecordingHost {
    file: Option<Arc<SourceFile>>,
    asked: RefCell<Vec<Location>>,
}

impl RecordingHost {
    fn new(file: Option<Arc<SourceFile>>) -> Self {
        RecordingHost { file, asked: RefCell::new(Vec::new()) }
    }
}

impl BaseHost for RecordingHost {
    fn label_for(&self, location: Location) -> (SourceSpan, Option<Arc<SourceFile>>) {
        (
            SourceSpan::new(SourceId::new_unchecked(7), location.start.to_u32()..location.end.to_u32()),
            self.file.clone(),
        )
    }

    fn get_label_and_source_file(&self, location: &Location) -> (SourceSpan, Option<Arc<SourceFile>>) {
        self.asked.borrow_mut().push(location.clone());
        self.label_for(location.clone())
    }
}

fn location(start: u32, end: u32) -> Location {
    Location::new(Uri::new("lib.masm"), ByteIndex::new(start), ByteIndex::new(end))
}

/// A forest whose node 0 has the assembly operations `ops`, each at an
/// operation index and with a location given by its byte range.
fn forest_with_ops(ops: &[(usize, Option<(u32, u32)>)]) -> MastForest {
    let mut forest = MastForest::new();
    let mut registered = Vec::new();
    for (op_idx, range) in ops {
        let asm_op = AssemblyOp::new(range.map(|(s, e)| location(s, e)), "main".to_string(), 1, "add".to_string());
        let id = forest.debug_info_mut().add_asm_op(asm_op).unwrap();
        registered.push((*op_idx, id));
    }
    forest.debug_info_mut().register_asm_ops(MastNodeId::new_unchecked(0), 8, registered).unwrap();
    forest
}

#[test]
fn unit_context_has_unknown_label_and_no_file() {
    let (label, file) = ().label_and_source_file();
    assert!(label.is_unknown());
    assert_eq!(label, SourceSpan::UNKNOWN);
    assert!(file.is_none());
}

#[test]
fn context_outside_debug_mode_is_empty() {
    let forest = forest_with_ops(&[(0, Some((3, 9)))]);
    let host = RecordingHost::new(None);
    let ctx = ErrorContextImpl::new(&forest, MastNodeId::new_unchecked(0), &host, false);
    let (label, file) = ctx.label_and_source_file();
    assert!(label.is_unknown());
    assert!(file.is_none());
    assert!(host.asked.borrow().is_empty());

    let ctx = ErrorContextImpl::new_with_op_idx(&forest, MastNodeId::new_unchecked(0), &host, false, 0);
    let (label, file) = ctx.label_and_source_file();
    assert!(label.is_unknown());
    assert!(file.is_none());
    assert!(host.asked.borrow().is_empty());
}

#[test]
fn context_in_debug_mode_resolves_the_location_through_the_host() {
    let forest = forest_with_ops(&[(0, Some((3, 9)))]);
    let host = RecordingHost::new(None);
    let ctx = ErrorContextImpl::new(&forest, MastNodeId::new_unchecked(0), &host, true);
    let (label, file) = ctx.label_and_source_file();
    assert_eq!(label, SourceSpan::new(SourceId::new_unchecked(7), 3u32..9u32));
    assert!(!label.is_unknown());
    assert!(file.is_none());
    assert_eq!(host.asked.borrow().as_slice(), &[location(3, 9)]);
}

#[test]
fn context_in_debug_mode_without_assembly_op_is_empty() {
    let forest = MastForest::new();
    let host = RecordingHost::new(None);
    let ctx = ErrorContextImpl::new(&forest, MastNodeId::new_unchecked(0), &host, true);
    let (label, file) = ctx.label_and_source_file();
    assert!(label.is_unknown());
    assert!(file.is_none());
    assert!(host.asked.borrow().is_empty());
}

#[test]
fn context_in_debug_mode_without_location_is_empty() {
    let forest = forest_with_ops(&[(0, None)]);
    let host = RecordingHost::new(None);
    let ctx = ErrorContextImpl::new_with_op_idx(&forest, MastNodeId::new_unchecked(0), &host, true, 0);
    let (label, file) = ctx.label_and_source_file();
    assert!(label.is_unknown());
    assert!(file.is_none());
    assert!(host.asked.borrow().is_empty());
}

#[test]
fn operation_index_selects_the_assembly_op() {
    let forest = forest_with_ops(&[(0, Some((1, 2))), (2, Some((10, 20)))]);
    let host = RecordingHost::new(None);
    let node = MastNodeId::new_unchecked(0);

    // Without an operation index the first assembly operation of the node is used.
    let (label, _) = ErrorContextImpl::new(&forest, node, &host, true).label_and_source_file();
    assert_eq!(label, SourceSpan::new(SourceId::new_unchecked(7), 1u32..2u32));

    // With one, the last assembly operation at or before that index is used.
    let (label, _) =
        ErrorContextImpl::new_with_op_idx(&forest, node, &host, true, 1).label_and_source_file();
    assert_eq!(label, SourceSpan::new(SourceId::new_unchecked(7), 1u32..2u32));
    let (label, _) =
        ErrorContextImpl::new_with_op_idx(&forest, node, &host, true, 5).label_and_source_file();
    assert_eq!(label, SourceSpan::new(SourceId::new_unchecked(7), 10u32..20u32));

    assert_eq!(host.asked.borrow().as_slice(), &[location(1, 2), location(1, 2), location(10, 20)]);
}

#[test]
fn context_hands_back_the_source_file_it_holds() {
    let file = Arc::new(SourceFile::new(
        SourceId::new_unchecked(7),
        SourceLanguage::Masm,
        Uri::new("lib.masm"),
        "begin add end",
    ));
    let forest = forest_with_ops(&[(0, Some((0, 5)))]);
    let host = RecordingHost::new(Some(file.clone()));
    let ctx = ErrorContextImpl::new(&forest, MastNodeId::new_unchecked(0), &host, true);
    for _ in 0..2 {
        let (label, got) = ctx.label_and_source_file();
        assert_eq!(label, SourceSpan::new(SourceId::new_unchecked(7), 0u32..5u32));
        let got = got.expect("the host gave a source file");
        assert!(Arc::ptr_eq(&got, &file));
    }
}

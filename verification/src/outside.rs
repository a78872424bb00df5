//! The outside types that the error types carry, and the few calls into
//! `miden_core` and `miden_debug_types` that the error context makes.

use std::sync::Arc;
use vstd::prelude::*;

use miden_air::trace::RowIndex;
use miden_core::events::{EventId, EventName};
use miden_core::field::BinomialExtensionField;
use miden_core::mast::{MastForest, MastNodeId};
use miden_core::operations::AssemblyOp;
use miden_core::{Felt, Word};
use miden_debug_types::{Location, SourceFile, SourceSpan};

verus! {

#[verifier::external_type_specification]
#[verifier::external_body]
pub struct ExSourceSpan(SourceSpan);

#[verifier::external_type_specification]
#[verifier::external_body]
pub struct ExSourceFile(SourceFile);

#[verifier::external_type_specification]
#[verifier::external_body]
pub struct ExLocation(Location);

#[verifier::external_type_specification]
#[verifier::external_body]
pub struct ExRowIndex(RowIndex);

#[verifier::external_type_specification]
#[verifier::external_body]
pub struct ExFelt(Felt);

#[verifier::external_type_specification]
#[verifier::external_body]
pub struct ExWord(Word);

#[verifier::external_type_specification]
#[verifier::external_body]
#[verifier::reject_recursive_types(F)]
#[verifier::reject_recursive_types(A)]
pub struct ExBinomialExtensionField<F, const D: usize, A>(BinomialExtensionField<F, D, A>);

#[verifier::external_type_specification]
#[verifier::external_body]
pub struct ExEventId(EventId);

#[verifier::external_type_specification]
#[verifier::external_body]
pub struct ExEventName(EventName);

#[verifier::external_type_specification]
#[verifier::external_body]
pub struct ExMastForest(MastForest);

#[verifier::external_type_specification]
#[verifier::external_body]
pub struct ExMastNodeId(MastNodeId);

#[verifier::external_type_specification]
#[verifier::external_body]
pub struct ExAssemblyOp(AssemblyOp);

/// `Felt::clone`: `Felt` derives `Copy` and `Clone`, so the clone is the
/// value itself.
pub assume_specification[ <Felt as Clone>::clone ](felt: &Felt) -> (res: Felt)
    ensures
        res == *felt,
;

/// `Word::clone`: `Word` derives `Copy` and `Clone`, so the clone is the
/// value itself.
pub assume_specification[ <Word as Clone>::clone ](word: &Word) -> (res: Word)
    ensures
        res == *word,
;

/// The derived `Clone` of the quadratic extension field element. Nothing is
/// claimed of the result: the derived code clones the coefficients with the
/// `Clone` of a type parameter.
pub assume_specification<F, const D: usize, A>[ <BinomialExtensionField<F, D, A> as Clone>::clone ](
    element: &BinomialExtensionField<F, D, A>,
) -> (res: BinomialExtensionField<F, D, A>)
    where
        A: Clone,
        F: Clone,
;

/// Whether `span` is the unknown span of `miden_debug_types`: the one that
/// `SourceSpan::is_unknown` answers `true` for.
pub uninterp spec fn is_unknown_span(span: SourceSpan) -> bool;

/// The unknown span, the one value of which `is_unknown_span` holds.
pub open spec fn unknown_span() -> SourceSpan {
    choose|span: SourceSpan| is_unknown_span(span)
}

/// `SourceSpan::UNKNOWN`. The contract claims that it is an unknown span and
/// the only one: `SourceSpan::is_unknown` compares every field of a span with
/// this constant.
#[verifier::external_body]
pub(crate) fn unknown_source_span() -> (span: SourceSpan)
    ensures
        is_unknown_span(span),
        forall|other: SourceSpan| is_unknown_span(other) ==> other == span,
{
    SourceSpan::UNKNOWN
}

/// `Arc::clone` on a source file: the contract claims that the result points
/// to the same source file, as std documents.
#[verifier::external_body]
pub(crate) fn share_source_file(file: &Arc<SourceFile>) -> (shared: Arc<SourceFile>)
    ensures
        shared == *file,
{
    Arc::clone(file)
}

/// The assembly operation that `MastForest::get_assembly_op` finds in
/// `forest` for the node `node_id`, at the operation `op_idx` when it is given,
/// else the first one recorded for the node.
pub uninterp spec fn assembly_op_of(
    forest: MastForest,
    node_id: MastNodeId,
    op_idx: Option<usize>,
) -> Option<AssemblyOp>;

/// `MastForest::get_assembly_op`. The contract claims only that the result is
/// a function of the forest, the node and the operation index, named
/// `assembly_op_of`: the lookup reads the forest's debug information and
/// nothing else.
#[verifier::external_body]
pub(crate) fn forest_assembly_op<'a>(
    forest: &'a MastForest,
    node_id: MastNodeId,
    op_idx: Option<usize>,
) -> (op: Option<&'a AssemblyOp>)
    ensures
        op is Some <==> assembly_op_of(*forest, node_id, op_idx) is Some,
        op is Some ==> assembly_op_of(*forest, node_id, op_idx) == Some(*op->0),
{
    forest.get_assembly_op(node_id, op_idx)
}

/// The source location that `AssemblyOp::location` gives for `op`.
pub uninterp spec fn location_of(op: AssemblyOp) -> Option<Location>;

/// `AssemblyOp::location`, which hands out the location stored in the
/// operation. The contract names the result `location_of`.
#[verifier::external_body]
pub(crate) fn assembly_op_location<'a>(op: &'a AssemblyOp) -> (location: Option<&'a Location>)
    ensures
        location is Some <==> location_of(*op) is Some,
        location is Some ==> location_of(*op) == Some(*location->0),
{
    op.location()
}

/// The source location recorded in `forest` for the node `node_id` (at the
/// operation `op_idx`, when it is given), if the forest holds one.
pub open spec fn debug_location(
    forest: MastForest,
    node_id: MastNodeId,
    op_idx: Option<usize>,
) -> Option<Location> {
    match assembly_op_of(forest, node_id, op_idx) {
        Some(op) => location_of(op),
        None => None,
    }
}

} // verus!

//! The context that an error is reported in: the label of the source code that
//! failed and the source file that holds it.

use std::sync::Arc;
use vstd::prelude::*;

use miden_core::mast::{MastForest, MastNodeId};
use miden_core::operations::AssemblyOp;
use miden_debug_types::{Location, SourceFile, SourceSpan};

use crate::host::BaseHost;
use crate::outside::{
    assembly_op_location, assembly_op_of, debug_location, location_of, forest_assembly_op, is_unknown_span, share_source_file,
    unknown_source_span, unknown_span,
};

verus! {

/// The label and source file of an error for which no source is known: the
/// unknown span and no file.
pub open spec fn no_label() -> (SourceSpan, Option<Arc<SourceFile>>) {
    (unknown_span(), None)
}

/// `SourceSpan::UNKNOWN` together with no source file.
fn unknown_label_and_source_file() -> (r: (SourceSpan, Option<Arc<SourceFile>>))
    ensures
        r == no_label(),
        is_unknown_span(r.0),
{
    let span = unknown_source_span();
    assert(is_unknown_span(unknown_span()));
    (span, None)
}

/// The label and source file of the context of an error raised by the node
/// `node_id` of `forest` (at the operation `op_idx`, when it is given), with
/// `host` resolving locations: outside debug mode nothing is looked up; in
/// debug mode the assembly operation that `MastForest::get_assembly_op` finds
/// for exactly these arguments gives the location, and without an operation
/// or a location the context is empty.
pub open spec fn context_label<H: BaseHost>(
    forest: MastForest,
    node_id: MastNodeId,
    host: H,
    in_debug_mode: bool,
    op_idx: Option<usize>,
) -> (SourceSpan, Option<Arc<SourceFile>>) {
    if !in_debug_mode {
        no_label()
    } else {
        match assembly_op_of(forest, node_id, op_idx) {
            None => no_label(),
            Some(op) => match location_of(op) {
                None => no_label(),
                Some(location) => host.label_for(location),
            },
        }
    }
}

/// The recorded location of a node is the location of the assembly operation
/// that the lookup finds for the same node and the same operation index, and
/// there is none where the lookup finds no operation.
pub proof fn lemma_debug_location_is_location_of_looked_up_op(
    forest: MastForest,
    node_id: MastNodeId,
    op_idx: Option<usize>,
)
    ensures
        assembly_op_of(forest, node_id, op_idx) is None ==> debug_location(forest, node_id, op_idx)
            is None,
        forall|op: AssemblyOp|
            assembly_op_of(forest, node_id, op_idx) == Some(op) ==> debug_location(
                forest,
                node_id,
                op_idx,
            ) == location_of(op),
{
}

/// In debug mode, the context of the operation `op_idx` is what the host
/// answers for the location of the assembly operation that the lookup finds
/// at that very index.
pub proof fn lemma_context_at_operation_is_host_label_of_its_op<H: BaseHost>(
    forest: MastForest,
    node_id: MastNodeId,
    host: H,
    op_idx: usize,
    op: AssemblyOp,
    location: Location,
)
    requires
        assembly_op_of(forest, node_id, Some(op_idx)) == Some(op),
        location_of(op) == Some(location),
    ensures
        context_label(forest, node_id, host, true, Some(op_idx)) == host.label_for(location),
{
}

/// In debug mode, the context of a node given without an operation index is
/// what the host answers for the location of the assembly operation that the
/// lookup finds for the node with no index (its first one).
pub proof fn lemma_context_of_node_is_host_label_of_its_first_op<H: BaseHost>(
    forest: MastForest,
    node_id: MastNodeId,
    host: H,
    op: AssemblyOp,
    location: Location,
)
    requires
        assembly_op_of(forest, node_id, None) == Some(op),
        location_of(op) == Some(location),
    ensures
        context_label(forest, node_id, host, true, None) == host.label_for(location),
{
}

/// Outside debug mode the context is empty whatever the forest, node, index
/// and host.
pub proof fn lemma_context_outside_debug_mode_is_empty<H: BaseHost>(
    forest: MastForest,
    node_id: MastNodeId,
    host: H,
    op_idx: Option<usize>,
)
    ensures
        context_label(forest, node_id, host, false, op_idx) == no_label(),
        context_label(forest, node_id, host, false, op_idx) == ().label_and_source(),
{
}

/// Where the lookup finds no assembly operation, or one without a location,
/// the context is empty: the host is not asked.
pub proof fn lemma_context_without_location_is_empty<H: BaseHost>(
    forest: MastForest,
    node_id: MastNodeId,
    host: H,
    in_debug_mode: bool,
    op_idx: Option<usize>,
)
    requires
        assembly_op_of(forest, node_id, op_idx) matches Some(op) ==> location_of(op) is None,
    ensures
        context_label(forest, node_id, host, in_debug_mode, op_idx) == no_label(),
{
}

/// A provider of the source context that an error is reported in.
pub trait ErrorContext {
    /// The label and source file that this context reports.
    spec fn label_and_source(&self) -> (SourceSpan, Option<Arc<SourceFile>>);

    /// Returns the label and source file associated with the error context, if
    /// any. The unknown span stands for an empty label.
    fn label_and_source_file(&self) -> (r: (SourceSpan, Option<Arc<SourceFile>>))
        ensures
            r == self.label_and_source(),
    ;
}

/// Context information to be used when reporting errors.
pub struct ErrorContextImpl {
    label: SourceSpan,
    source_file: Option<Arc<SourceFile>>,
}

impl ErrorContextImpl {
    /// The context of an error raised by the node `node_id` of `mast_forest`.
    ///
    /// Outside debug mode no source is looked up: the context is empty. In
    /// debug mode the first assembly operation recorded for the node gives
    /// the location, which `host` resolves; without one the context is empty.
    pub fn new<H: BaseHost>(
        mast_forest: &MastForest,
        node_id: MastNodeId,
        host: &H,
        in_debug_mode: bool,
    ) -> (ctx: Self)
        ensures
            !in_debug_mode ==> ctx.label_and_source() == no_label(),
            debug_location(*mast_forest, node_id, None) is None ==> ctx.label_and_source()
                == no_label(),
            in_debug_mode && debug_location(*mast_forest, node_id, None) is Some
                ==> ctx.label_and_source() == host.label_for(
                debug_location(*mast_forest, node_id, None)->0,
            ),
            ctx.label_and_source() == context_label(*mast_forest, node_id, *host, in_debug_mode, None),
            forall|op: AssemblyOp, location: Location|
                in_debug_mode && assembly_op_of(*mast_forest, node_id, None) == Some(op)
                    && location_of(op) == Some(location) ==> ctx.label_and_source()
                    == host.label_for(location),
    {
        let (label, source_file) = Self::precalc_label_and_source_file(
            None,
            mast_forest,
            node_id,
            host,
            in_debug_mode,
        );
        Self { label, source_file }
    }

    /// The context of an error raised by the operation `op_idx` of the node
    /// `node_id` of `mast_forest`.
    ///
    /// Outside debug mode no source is looked up: the context is empty. In
    /// debug mode the assembly operation recorded for that operation gives the
    /// location, which `host` resolves; without one the context is empty.
    pub fn new_with_op_idx<H: BaseHost>(
        mast_forest: &MastForest,
        node_id: MastNodeId,
        host: &H,
        in_debug_mode: bool,
        op_idx: usize,
    ) -> (ctx: Self)
        ensures
            !in_debug_mode ==> ctx.label_and_source() == no_label(),
            debug_location(*mast_forest, node_id, Some(op_idx)) is None ==> ctx.label_and_source()
                == no_label(),
            in_debug_mode && debug_location(*mast_forest, node_id, Some(op_idx)) is Some
                ==> ctx.label_and_source() == host.label_for(
                debug_location(*mast_forest, node_id, Some(op_idx))->0,
            ),
            ctx.label_and_source() == context_label(
                *mast_forest,
                node_id,
                *host,
                in_debug_mode,
                Some(op_idx),
            ),
            forall|op: AssemblyOp, location: Location|
                in_debug_mode && assembly_op_of(*mast_forest, node_id, Some(op_idx)) == Some(op)
                    && location_of(op) == Some(location) ==> ctx.label_and_source()
                    == host.label_for(location),
    {
        let op_idx = Some(op_idx);
        let (label, source_file) = Self::precalc_label_and_source_file(
            op_idx,
            mast_forest,
            node_id,
            host,
            in_debug_mode,
        );
        Self { label, source_file }
    }

    fn precalc_label_and_source_file<H: BaseHost>(
        op_idx: Option<usize>,
        mast_forest: &MastForest,
        node_id: MastNodeId,
        host: &H,
        in_debug_mode: bool,
    ) -> (r: (SourceSpan, Option<Arc<SourceFile>>))
        ensures
            !in_debug_mode ==> r == no_label(),
            debug_location(*mast_forest, node_id, op_idx) is None ==> r == no_label(),
            in_debug_mode && debug_location(*mast_forest, node_id, op_idx) is Some ==> r
                == host.label_for(debug_location(*mast_forest, node_id, op_idx)->0),
            r == context_label(*mast_forest, node_id, *host, in_debug_mode, op_idx),
    {
        // When not in debug mode, skip the decorator traversal entirely: the
        // assembly operations that give the context are only looked at while
        // debugging.
        if !in_debug_mode {
            return unknown_label_and_source_file();
        }
        match forest_assembly_op(mast_forest, node_id, op_idx) {
            None => unknown_label_and_source_file(),
            Some(assembly_op) => match assembly_op_location(assembly_op) {
                None => unknown_label_and_source_file(),
                Some(location) => host.get_label_and_source_file(location),
            },
        }
    }
}

impl ErrorContext for ErrorContextImpl {
    closed spec fn label_and_source(&self) -> (SourceSpan, Option<Arc<SourceFile>>) {
        (self.label, self.source_file)
    }

    fn label_and_source_file(&self) -> (r: (SourceSpan, Option<Arc<SourceFile>>)) {
        let source_file = match &self.source_file {
            Some(file) => Some(share_source_file(file)),
            None => None,
        };
        (self.label, source_file)
    }
}

impl ErrorContext for () {
    open spec fn label_and_source(&self) -> (SourceSpan, Option<Arc<SourceFile>>) {
        no_label()
    }

    fn label_and_source_file(&self) -> (r: (SourceSpan, Option<Arc<SourceFile>>))
        ensures
            is_unknown_span(r.0),
    {
        unknown_label_and_source_file()
    }
}

} // verus!

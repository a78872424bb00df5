//! What the error types need from the host that runs a program: the errors
//! that the host and its memory report, and the way it resolves a source
//! location to a label.

use std::sync::Arc;
use vstd::prelude::*;

use miden_debug_types::{Location, SourceFile, SourceSpan};

verus! {

/// The host that a program runs against, as far as error reporting needs it.
///
/// Implementors provide `label_for` too: it says, as a function of the
/// location alone, what `get_label_and_source_file` answers, and the error
/// context relies on the two agreeing.
pub trait BaseHost {
    /// The label and source file that this host resolves `location` to.
    spec fn label_for(&self, location: Location) -> (SourceSpan, Option<Arc<SourceFile>>);

    /// Resolves `location` to the label and the source file that an error at
    /// that location points to.
    fn get_label_and_source_file(&self, location: &Location) -> (r: (SourceSpan, Option<Arc<SourceFile>>))
        ensures
            r == self.label_for(*location),
    ;
}

/// A failure of the advice provider.
#[derive(Debug, Clone, PartialEq, Eq)]
pub struct AdviceError {
    pub message: String,
}

/// A failure of a memory access.
#[derive(Debug, Clone, PartialEq, Eq)]
pub struct MemoryError {
    pub message: String,
}

/// A failure reported by an event handler.
#[derive(Debug, Clone, PartialEq, Eq)]
pub struct EventError {
    pub message: String,
}

/// A failure reported by the debug handler.
#[derive(Debug, Clone, PartialEq, Eq)]
pub struct DebugError {
    pub message: String,
}

/// A failure reported by a trace handler.
#[derive(Debug, Clone, PartialEq, Eq)]
pub struct TraceError {
    pub message: String,
}

} // verus!

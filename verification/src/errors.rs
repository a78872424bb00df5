//! The processor's error types, and the conversions that attach the context of
//! a failure to the lightweight errors that operations report.

use std::boxed::Box;
use std::string::String;
use std::sync::Arc;
use std::vec::Vec;
use vstd::prelude::*;

use miden_air::trace::RowIndex;
use miden_core::events::{EventId, EventName};
use miden_core::field::QuadFelt;
use miden_core::{Felt, Word};
use miden_debug_types::{SourceFile, SourceSpan};

use crate::context::ErrorContext;
use crate::host::{AdviceError, DebugError, EventError, MemoryError, TraceError};

verus! {

/// An error that stops the execution of a program.
#[derive(Debug)]
pub enum ExecutionError {
    AdviceError {
        label: SourceSpan,
        source_file: Option<Arc<SourceFile>>,
        clk: RowIndex,
        err: AdviceError,
    },
    DebugHandlerError { clk: RowIndex, err: DebugError },
    TraceHandlerError { clk: RowIndex, trace_id: u32, err: TraceError },
    EventError {
        label: SourceSpan,
        source_file: Option<Arc<SourceFile>>,
        event_id: EventId,
        event_name: Option<EventName>,
        error: EventError,
    },
    DuplicateEventHandler { event: EventName },
    ReservedEventNamespace { event: EventName },
    Internal(&'static str),
    /// Memory error with source context for diagnostics.
    ///
    /// Use `MemoryResultExt::map_mem_err` to convert `Result<T, MemoryError>` with context.
    MemoryError { label: SourceSpan, source_file: Option<Arc<SourceFile>>, err: MemoryError },
    /// Memory error without source context (for internal operations like FMP initialization).
    MemoryErrorNoCtx(MemoryError),
    OutputStackOverflow(usize),
    AceChipError { label: SourceSpan, source_file: Option<Arc<SourceFile>>, error: AceError },
    ProofSerializationError(String),
    OperationError {
        label: SourceSpan,
        source_file: Option<Arc<SourceFile>>,
        clk: RowIndex,
        err: OperationError,
    },
}

/// Failures of the arithmetic circuit evaluation chip.
#[derive(Debug, Clone, Copy, PartialEq, Eq, Structural)]
pub enum AceError {
    NumVarIsNotWordAlignedOrIsEmpty(u64),
    NumEvalIsNotWordAlignedOrIsEmpty(u64),
    CircuitNotEvaluateZero,
    FailedMemoryRead,
    FailedDecodeInstruction,
    FailedWireBusRead,
    TooManyWires(u64),
}

/// Lightweight error type for operations that can fail.
///
/// It carries no source context: when an `OperationError` propagates up to
/// become an `ExecutionError`, `OperationResultExt::map_exec_err` attaches the
/// label and source file of the failing operation.
#[derive(Debug, Clone)]
pub enum OperationError {
    NotBinaryValue { value: Felt },
    NotBinaryValueIf { value: Felt },
    NotBinaryValueLoop { value: Felt },
    NotU32Values { values: Vec<Felt> },
    DivideByZero,
    FailedAssertion { err_code: Felt, err_msg: Option<Arc<str>> },
    LogArgumentZero,
    CircularExternalNode(Word),
    InvalidFriDomainSegment(u64),
    InvalidFriLayerFolding(QuadFelt, QuadFelt),
    InvalidFriDomainGenerator,
    DynamicNodeNotFound { digest: Word },
    SyscallTargetNotInKernel { proc_root: Word },
    InvalidStackDepthOnReturn { depth: usize },
    NoMastForestWithProcedure { root_digest: Word },
    MalformedMastForestInHost { root_digest: Word },
    MerklePathVerificationFailed { inner: Box<MerklePathVerificationFailedInner> },
    InvalidMerklePathLength { path_len: usize, depth: Felt },
}

/// Inner data for `OperationError::MerklePathVerificationFailed`, boxed to
/// keep `OperationError` small.
#[derive(Debug, Clone)]
pub struct MerklePathVerificationFailedInner {
    pub value: Word,
    pub index: Felt,
    pub root: Word,
    pub err_code: Felt,
    pub err_msg: Option<Arc<str>>,
}

/// Converts `Result<T, OperationError>` to `Result<T, ExecutionError>`.
pub trait OperationResultExt<T> {
    /// Maps an `OperationError` to an `ExecutionError` with the source context
    /// of `err_ctx` and the clock cycle `clk` at which the error occurred.
    fn map_exec_err<C: ErrorContext>(self, err_ctx: &C, clk: RowIndex) -> Result<T, ExecutionError>;
}

impl<T> OperationResultExt<T> for Result<T, OperationError> {
    fn map_exec_err<C: ErrorContext>(self, err_ctx: &C, clk: RowIndex) -> (r: Result<
        T,
        ExecutionError,
    >)
        ensures
            match self {
                Ok(value) => r == Ok::<T, ExecutionError>(value),
                Err(err) => r == Err::<T, ExecutionError>(
                    ExecutionError::OperationError {
                        label: err_ctx.label_and_source().0,
                        source_file: err_ctx.label_and_source().1,
                        clk,
                        err,
                    },
                ),
            },
    {
        match self {
            Ok(value) => Ok(value),
            Err(err) => {
                let (label, source_file) = err_ctx.label_and_source_file();
                Err(ExecutionError::OperationError { label, source_file, clk, err })
            },
        }
    }
}

/// Converts `Result<T, AdviceError>` to `Result<T, ExecutionError>`.
pub trait AdviceResultExt<T> {
    /// Maps an `AdviceError` to an `ExecutionError` with the source context of
    /// `err_ctx` and the clock cycle `clk`.
    fn map_advice_err<C: ErrorContext>(self, err_ctx: &C, clk: RowIndex) -> Result<
        T,
        ExecutionError,
    >;
}

impl<T> AdviceResultExt<T> for Result<T, AdviceError> {
    fn map_advice_err<C: ErrorContext>(self, err_ctx: &C, clk: RowIndex) -> (r: Result<
        T,
        ExecutionError,
    >)
        ensures
            match self {
                Ok(value) => r == Ok::<T, ExecutionError>(value),
                Err(err) => r == Err::<T, ExecutionError>(
                    ExecutionError::AdviceError {
                        label: err_ctx.label_and_source().0,
                        source_file: err_ctx.label_and_source().1,
                        clk,
                        err,
                    },
                ),
            },
    {
        match self {
            Ok(value) => Ok(value),
            Err(err) => {
                let (label, source_file) = err_ctx.label_and_source_file();
                Err(ExecutionError::AdviceError { label, source_file, clk, err })
            },
        }
    }
}

/// Converts `Result<T, EventError>` to `Result<T, ExecutionError>`.
pub trait EventResultExt<T> {
    /// Maps an `EventError` to an `ExecutionError` with the source context of
    /// `err_ctx` and the event that failed.
    fn map_event_err<C: ErrorContext>(
        self,
        err_ctx: &C,
        event_id: EventId,
        event_name: Option<EventName>,
    ) -> Result<T, ExecutionError>;
}

impl<T> EventResultExt<T> for Result<T, EventError> {
    fn map_event_err<C: ErrorContext>(
        self,
        err_ctx: &C,
        event_id: EventId,
        event_name: Option<EventName>,
    ) -> (r: Result<T, ExecutionError>)
        ensures
            match self {
                Ok(value) => r == Ok::<T, ExecutionError>(value),
                Err(error) => r == Err::<T, ExecutionError>(
                    ExecutionError::EventError {
                        label: err_ctx.label_and_source().0,
                        source_file: err_ctx.label_and_source().1,
                        event_id,
                        event_name,
                        error,
                    },
                ),
            },
    {
        match self {
            Ok(value) => Ok(value),
            Err(error) => {
                let (label, source_file) = err_ctx.label_and_source_file();
                Err(
                    ExecutionError::EventError {
                        label,
                        source_file,
                        event_id,
                        event_name,
                        error,
                    },
                )
            },
        }
    }
}

/// Converts `Result<T, AceError>` to `Result<T, ExecutionError>`.
pub trait AceResultExt<T> {
    /// Maps an `AceError` to an `ExecutionError` with the source context of
    /// `err_ctx`.
    fn map_ace_err<C: ErrorContext>(self, err_ctx: &C) -> Result<T, ExecutionError>;
}

impl<T> AceResultExt<T> for Result<T, AceError> {
    fn map_ace_err<C: ErrorContext>(self, err_ctx: &C) -> (r: Result<T, ExecutionError>)
        ensures
            match self {
                Ok(value) => r == Ok::<T, ExecutionError>(value),
                Err(error) => r == Err::<T, ExecutionError>(
                    ExecutionError::AceChipError {
                        label: err_ctx.label_and_source().0,
                        source_file: err_ctx.label_and_source().1,
                        error,
                    },
                ),
            },
    {
        match self {
            Ok(value) => Ok(value),
            Err(error) => {
                let (label, source_file) = err_ctx.label_and_source_file();
                Err(ExecutionError::AceChipError { label, source_file, error })
            },
        }
    }
}

/// Converts `Result<T, MemoryError>` to `Result<T, ExecutionError>`.
pub trait MemoryResultExt<T> {
    /// Maps a `MemoryError` to an `ExecutionError` with the source context of
    /// `err_ctx`.
    fn map_mem_err<C: ErrorContext>(self, err_ctx: &C) -> Result<T, ExecutionError>;
}

impl<T> MemoryResultExt<T> for Result<T, MemoryError> {
    fn map_mem_err<C: ErrorContext>(self, err_ctx: &C) -> (r: Result<T, ExecutionError>)
        ensures
            match self {
                Ok(value) => r == Ok::<T, ExecutionError>(value),
                Err(err) => r == Err::<T, ExecutionError>(
                    ExecutionError::MemoryError {
                        label: err_ctx.label_and_source().0,
                        source_file: err_ctx.label_and_source().1,
                        err,
                    },
                ),
            },
    {
        match self {
            Ok(value) => Ok(value),
            Err(err) => {
                let (label, source_file) = err_ctx.label_and_source_file();
                Err(ExecutionError::MemoryError { label, source_file, err })
            },
        }
    }
}

} // verus!

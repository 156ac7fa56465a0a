use vstd::prelude::*;

use crate::value::ValueType;

verus! {

/// Which argument of the extraction function a failure is about.
#[derive(Clone, Copy, Debug, PartialEq, Eq, Structural)]
pub enum ArgumentRole {
    Pattern,
    Subject,
    CaptureGroup,
}

/// Why a pattern could not be compiled.
#[derive(Clone, Debug)]
pub enum PatternFault {
    /// The pattern's bytes are not valid UTF-8.
    InvalidUtf8,
    /// The regex engine rejected the pattern, with this message.
    Rejected(String),
}

/// A failure of one call of the extraction function. Neither "no match" nor
/// "group did not take part" is a failure: both give a null result.
#[derive(Clone, Debug)]
pub enum ExtractError {
    /// An argument has a storage class that its place does not take, or a
    /// capture group that is no non-negative integer.
    InvalidArgumentType { argument: ArgumentRole, found: ValueType },
    /// The pattern does not compile.
    PatternCompileError(PatternFault),
}

/// The mathematical model of an `ExtractError`.
pub enum ExtractFailure {
    InvalidArgumentType { argument: ArgumentRole, found: ValueType },
    PatternNotUtf8,
    PatternRejected(Seq<char>),
}

impl View for ExtractError {
    type V = ExtractFailure;

    open spec fn view(&self) -> ExtractFailure {
        match self {
            ExtractError::InvalidArgumentType { argument, found } => {
                ExtractFailure::InvalidArgumentType { argument: *argument, found: *found }
            },
            ExtractError::PatternCompileError(PatternFault::InvalidUtf8) => {
                ExtractFailure::PatternNotUtf8
            },
            ExtractError::PatternCompileError(PatternFault::Rejected(m)) => {
                ExtractFailure::PatternRejected(m@)
            },
        }
    }
}

impl ExtractError {
    /// Whether this is a failure to compile the pattern.
    pub fn is_pattern_compile_error(&self) -> (r: bool)
        ensures
            r == (self is PatternCompileError),
    {
        match self {
            ExtractError::PatternCompileError(_) => true,
            ExtractError::InvalidArgumentType { .. } => false,
        }
    }
}

} // verus!

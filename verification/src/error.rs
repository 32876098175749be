//! Error values returned by the passes of this crate.

use vstd::prelude::*;
use vstd::string::*;

verus! {

/// Numeric code of an internal invariant violation.
pub const INTERNAL: u16 = 1001;

/// Numeric code of a feature that is not implemented.
pub const UNIMPLEMENTED: u16 = 1002;

/// Numeric code of a statement that cannot be represented.
pub const SYNTAX_EXCEPTION: u16 = 1005;

/// Numeric code of an argument that is out of its domain.
pub const BAD_ARGUMENTS: u16 = 1006;

/// Numeric code of an operation that found no data to work on.
pub const EMPTY_DATA: u16 = 1016;

/// Numeric code of a statement that is well formed but has no meaning.
pub const SEMANTIC_ERROR: u16 = 1065;

/// Numeric code of an insecure storage endpoint used without opt-in.
pub const STORAGE_INSECURE: u16 = 3903;

/// Numeric code of a failed storage read or write.
pub const STORAGE_OTHER: u16 = 4000;

/// The families into which error codes fall, by who has to act on them.
#[derive(Clone, Copy, Debug, PartialEq, Eq, Structural)]
pub enum ErrorCategory {
    /// The statement uses a construct that the engine cannot represent.
    SyntaxUnsupported,
    /// A pass met an operator it cannot handle: a bug, fatal to the query.
    InternalInvariant,
    /// The statement is well formed but meaningless.
    SemanticError,
    /// An insecure endpoint was used without explicit opt-in.
    StorageInsecure,
    /// Reading or writing external storage failed.
    IoFailure,
}

/// A position range in the statement text, for diagnostics.
#[derive(Clone, Copy, Debug, PartialEq, Eq, Structural)]
pub struct Span {
    pub start: u32,
    pub end: u32,
}

/// An error: a numeric code, a message, and where in the statement it arose.
#[derive(Clone, Debug, PartialEq, Eq)]
pub struct ErrorCode {
    pub code: u16,
    pub message: String,
    pub span: Option<Span>,
}

/// The category of a numeric code.
pub open spec fn category_of(code: u16) -> ErrorCategory {
    if code == SYNTAX_EXCEPTION || code == UNIMPLEMENTED {
        ErrorCategory::SyntaxUnsupported
    } else if code == SEMANTIC_ERROR || code == BAD_ARGUMENTS || code == EMPTY_DATA {
        ErrorCategory::SemanticError
    } else if code == STORAGE_INSECURE {
        ErrorCategory::StorageInsecure
    } else if code == STORAGE_OTHER {
        ErrorCategory::IoFailure
    } else {
        ErrorCategory::InternalInvariant
    }
}

impl ErrorCode {
    /// Builds an error from a code and a message, with no span.
    pub fn create(code: u16, message: &str) -> (e: ErrorCode)
        ensures
            e.code == code,
            e.message@ == message@,
            e.span is None,
    {
        ErrorCode { code, message: String::from_str(message), span: None }
    }

    /// An internal invariant violation.
    pub fn internal(message: &str) -> (e: ErrorCode)
        ensures
            e.code == INTERNAL,
            e.message@ == message@,
            e.span is None,
    {
        ErrorCode::create(INTERNAL, message)
    }

    /// A statement that cannot be represented.
    pub fn syntax_exception(message: &str) -> (e: ErrorCode)
        ensures
            e.code == SYNTAX_EXCEPTION,
            e.message@ == message@,
            e.span is None,
    {
        ErrorCode::create(SYNTAX_EXCEPTION, message)
    }

    /// A statement that is well formed but has no meaning.
    pub fn semantic_error(message: &str) -> (e: ErrorCode)
        ensures
            e.code == SEMANTIC_ERROR,
            e.message@ == message@,
            e.span is None,
    {
        ErrorCode::create(SEMANTIC_ERROR, message)
    }

    /// An operation that found no data to work on.
    pub fn empty_data(message: &str) -> (e: ErrorCode)
        ensures
            e.code == EMPTY_DATA,
            e.message@ == message@,
            e.span is None,
    {
        ErrorCode::create(EMPTY_DATA, message)
    }

    /// An insecure storage endpoint used without opt-in.
    pub fn storage_insecure(message: &str) -> (e: ErrorCode)
        ensures
            e.code == STORAGE_INSECURE,
            e.message@ == message@,
            e.span is None,
    {
        ErrorCode::create(STORAGE_INSECURE, message)
    }

    /// A failed storage read or write.
    pub fn storage_other(message: &str) -> (e: ErrorCode)
        ensures
            e.code == STORAGE_OTHER,
            e.message@ == message@,
            e.span is None,
    {
        ErrorCode::create(STORAGE_OTHER, message)
    }

    /// The same error, attached to a place in the statement.
    pub fn set_span(self, span: Option<Span>) -> (e: ErrorCode)
        ensures
            e.code == self.code,
            e.message@ == self.message@,
            e.span == span,
    {
        ErrorCode { code: self.code, message: self.message, span }
    }

    /// The numeric code.
    pub fn code(&self) -> (c: u16)
        ensures
            c == self.code,
    {
        self.code
    }

    /// The message text.
    pub fn message(&self) -> (m: String)
        ensures
            m@ == self.message@,
    {
        self.message.clone()
    }

    /// The family this error belongs to.
    pub fn category(&self) -> (c: ErrorCategory)
        ensures
            c == category_of(self.code),
    {
        let code = self.code;
        if code == SYNTAX_EXCEPTION || code == UNIMPLEMENTED {
            ErrorCategory::SyntaxUnsupported
        } else if code == SEMANTIC_ERROR || code == BAD_ARGUMENTS || code == EMPTY_DATA {
            ErrorCategory::SemanticError
        } else if code == STORAGE_INSECURE {
            ErrorCategory::StorageInsecure
        } else if code == STORAGE_OTHER {
            ErrorCategory::IoFailure
        } else {
            ErrorCategory::InternalInvariant
        }
    }

    /// Whether the error is reported to the client as a rejection of the
    /// statement, rather than as a failure of the engine.
    pub fn is_user_error(&self) -> (b: bool)
        ensures
            b == (category_of(self.code) == ErrorCategory::SyntaxUnsupported || category_of(
                self.code,
            ) == ErrorCategory::SemanticError),
    {
        let c = self.category();
        c == ErrorCategory::SyntaxUnsupported || c == ErrorCategory::SemanticError
    }
}

} // verus!

//! Why a track stopped being served.

use vstd::prelude::*;

use crate::text::{concat2, decimal, digits};

verus! {

/// Why serving a track ended or failed. The variants with an ID carry one by
/// which a report can be found again; zero stands for none.
#[derive(Debug, PartialEq, Eq)]
pub enum ServeError {
    Done,
    Cancel,
    Closed(u64),
    NotFound,
    NotFoundWithId(u64, String),
    Duplicate,
    Mode,
    Size,
    NotImplemented(String),
    NotImplementedWithId(u64, String),
    Internal(String),
    InternalWithId(u64, String),
}

/// The model of a [`ServeError`].
pub enum ServeFault {
    Done,
    Cancel,
    Closed(u64),
    NotFound,
    NotFoundWithId(u64, Seq<char>),
    Duplicate,
    Mode,
    Size,
    NotImplemented(Seq<char>),
    NotImplementedWithId(u64, Seq<char>),
    Internal(Seq<char>),
    InternalWithId(u64, Seq<char>),
}

impl View for ServeError {
    type V = ServeFault;

    open spec fn view(&self) -> ServeFault {
        match self {
            ServeError::Done => ServeFault::Done,
            ServeError::Cancel => ServeFault::Cancel,
            ServeError::Closed(code) => ServeFault::Closed(*code),
            ServeError::NotFound => ServeFault::NotFound,
            ServeError::NotFoundWithId(id, text) => ServeFault::NotFoundWithId(*id, text@),
            ServeError::Duplicate => ServeFault::Duplicate,
            ServeError::Mode => ServeFault::Mode,
            ServeError::Size => ServeFault::Size,
            ServeError::NotImplemented(text) => ServeFault::NotImplemented(text@),
            ServeError::NotImplementedWithId(id, text) => ServeFault::NotImplementedWithId(
                *id,
                text@,
            ),
            ServeError::Internal(text) => ServeFault::Internal(text@),
            ServeError::InternalWithId(id, text) => ServeFault::InternalWithId(*id, text@),
        }
    }
}

impl Clone for ServeError {
    fn clone(&self) -> (copy: Self)
        ensures
            copy@ == self@,
    {
        match self {
            ServeError::Done => ServeError::Done,
            ServeError::Cancel => ServeError::Cancel,
            ServeError::Closed(code) => ServeError::Closed(*code),
            ServeError::NotFound => ServeError::NotFound,
            ServeError::NotFoundWithId(id, text) => ServeError::NotFoundWithId(*id, text.clone()),
            ServeError::Duplicate => ServeError::Duplicate,
            ServeError::Mode => ServeError::Mode,
            ServeError::Size => ServeError::Size,
            ServeError::NotImplemented(text) => ServeError::NotImplemented(text.clone()),
            ServeError::NotImplementedWithId(id, text) => ServeError::NotImplementedWithId(
                *id,
                text.clone(),
            ),
            ServeError::Internal(text) => ServeError::Internal(text.clone()),
            ServeError::InternalWithId(id, text) => ServeError::InternalWithId(*id, text.clone()),
        }
    }
}

impl ServeFault {
    /// The sentence that describes the error.
    pub open spec fn message(self) -> Seq<char> {
        match self {
            ServeFault::Done => "done"@,
            ServeFault::Cancel => "cancelled"@,
            ServeFault::Closed(code) => "closed, code="@ + digits(code as nat, 10),
            ServeFault::NotFound => "not found"@,
            ServeFault::NotFoundWithId(_, text) => "not found: "@ + text,
            ServeFault::Duplicate => "duplicate"@,
            ServeFault::Mode => "multiple stream modes"@,
            ServeFault::Size => "wrong size"@,
            ServeFault::NotImplemented(text) => "not implemented: "@ + text,
            ServeFault::NotImplementedWithId(_, text) => "not implemented: "@ + text,
            ServeFault::Internal(text) => "internal error: "@ + text,
            ServeFault::InternalWithId(_, text) => "internal error: "@ + text,
        }
    }
}

impl ServeError {
    /// An internal error with its circumstances.
    pub fn internal_ctx(context: &str) -> (error: Self)
        ensures
            error@ == ServeFault::InternalWithId(0, context@),
    {
        ServeError::InternalWithId(0, context.to_string())
    }

    /// Something was not found, with the circumstances.
    pub fn not_found_ctx(context: &str) -> (error: Self)
        ensures
            error@ == ServeFault::NotFoundWithId(0, context@),
    {
        ServeError::NotFoundWithId(0, context.to_string())
    }

    /// Something is not implemented, with the circumstances.
    pub fn not_implemented_ctx(context: &str) -> (error: Self)
        ensures
            error@ == ServeFault::NotImplementedWithId(0, context@),
    {
        ServeError::NotImplementedWithId(0, context.to_string())
    }

    /// A sentence that describes the error.
    pub fn message(&self) -> (text: String)
        ensures
            text@ == self@.message(),
    {
        match self {
            ServeError::Done => "done".to_string(),
            ServeError::Cancel => "cancelled".to_string(),
            ServeError::Closed(code) => concat2("closed, code=", &decimal(*code)),
            ServeError::NotFound => "not found".to_string(),
            ServeError::NotFoundWithId(_, text) => concat2("not found: ", text),
            ServeError::Duplicate => "duplicate".to_string(),
            ServeError::Mode => "multiple stream modes".to_string(),
            ServeError::Size => "wrong size".to_string(),
            ServeError::NotImplemented(text) => concat2("not implemented: ", text),
            ServeError::NotImplementedWithId(_, text) => concat2("not implemented: ", text),
            ServeError::Internal(text) => concat2("internal error: ", text),
            ServeError::InternalWithId(_, text) => concat2("internal error: ", text),
        }
    }
}

} // verus!

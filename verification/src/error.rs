//! The errors that a tool call is answered with.

use crate::text::appended;
use vstd::prelude::*;

verus! {

/// The kinds of protocol error that the servers answer with.
#[derive(Clone, Copy, Debug, PartialEq, Eq, Structural)]
pub enum ErrorCode {
    /// The parameters of the call are not enough to serve it.
    InvalidParams,
    /// Serving the call failed.
    InternalError,
}

/// A protocol error: its kind and the message for the caller.
#[derive(Debug, Clone, PartialEq, Eq)]
pub struct McpError {
    pub code: ErrorCode,
    pub message: String,
}

/// The mathematical model of an `McpError`.
pub struct McpErrorView {
    pub code: ErrorCode,
    pub message: Seq<char>,
}

impl View for McpError {
    type V = McpErrorView;

    open spec fn view(&self) -> McpErrorView {
        McpErrorView { code: self.code, message: self.message@ }
    }
}

/// The internal error with the given message.
pub open spec fn internal_error(message: Seq<char>) -> McpErrorView {
    McpErrorView { code: ErrorCode::InternalError, message }
}

/// The model of what a fallible step gives.
pub open spec fn answer<T: DeepView>(r: Result<T, McpError>) -> Result<T::V, McpErrorView> {
    match r {
        Ok(value) => Ok(value.deep_view()),
        Err(e) => Err(e@),
    }
}

/// The model of what a step gives that some replies leave without an answer.
pub open spec fn possible_answer<T: DeepView>(r: Option<Result<T, McpError>>) -> Option<
    Result<T::V, McpErrorView>,
> {
    match r {
        Some(given) => Some(answer(given)),
        None => None,
    }
}

impl McpError {
    pub fn new(code: ErrorCode, message: String) -> (e: McpError)
        ensures
            e@ == (McpErrorView { code, message: message@ }),
    {
        McpError { code, message }
    }

    /// The internal error with the given message.
    pub fn internal(message: &str) -> (e: McpError)
        ensures
            e@ == internal_error(message@),
    {
        McpError::new(ErrorCode::InternalError, message.to_owned())
    }

    /// The internal error whose message is `what` followed by `cause`.
    pub fn caused(what: &str, cause: &str) -> (e: McpError)
        ensures
            e@ == internal_error(what@ + cause@),
    {
        McpError::new(ErrorCode::InternalError, appended(what, cause))
    }
}

/// The model of an answer shows the value, or the kind of the error and the whole of
/// its message.
pub proof fn an_answer_shows_its_parts<T: DeepView>(value: T, e: McpError, message: Seq<char>)
    ensures
        answer(Ok::<T, McpError>(value)) == Ok::<T::V, McpErrorView>(value.deep_view()),
        answer(Err::<T, McpError>(e)) matches Err(shown) && shown.code == e.code && shown.message
            == e.message@,
        possible_answer(Some(Ok::<T, McpError>(value))) == Some(
            Ok::<T::V, McpErrorView>(value.deep_view()),
        ),
        possible_answer(Some(Err::<T, McpError>(e))) == Some(answer(Err::<T, McpError>(e))),
        possible_answer(None::<Result<T, McpError>>) is None,
        internal_error(message).code == ErrorCode::InternalError,
        internal_error(message).message == message,
{
}

} // verus!

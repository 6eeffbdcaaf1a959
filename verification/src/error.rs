//! How a request is refused.

use crate::text;
use vstd::prelude::*;
use vstd::string::*;

verus! {

/// Why a request is refused, as the client is told.
#[derive(Debug, PartialEq, Eq)]
pub enum DapError {
    /// The adapter or the debugger failed.
    Internal(String),
    /// The request does not make sense.
    Invalid(String),
}

/// What a [`DapError`] holds.
pub enum DapErrorView {
    Internal(Seq<char>),
    Invalid(Seq<char>),
}

impl View for DapError {
    type V = DapErrorView;

    open spec fn view(&self) -> DapErrorView {
        match self {
            DapError::Internal(message) => DapErrorView::Internal(message@),
            DapError::Invalid(message) => DapErrorView::Invalid(message@),
        }
    }
}

/// An internal error: what was attempted, and what went wrong.
pub open spec fn internal(context: Seq<char>, detail: Seq<char>) -> DapErrorView {
    DapErrorView::Internal(context + ": "@ + detail)
}

/// Reports that what `context` names went wrong, and how.
pub fn internal_error(context: &str, detail: &str) -> (r: DapError)
    ensures
        r@ == internal(context@, detail@),
{
    DapError::Internal(context.to_owned().concat(": ").concat(detail))
}

/// Reports a failure of the debugger, given its description.
pub fn map_debugger_err(err: &str) -> (r: DapError)
    ensures
        r@ == internal("debugger error"@, err@),
{
    internal_error("debugger error", err)
}

/// The answer to an expression with these errors.
pub open spec fn invalid_expression(errors: Seq<Seq<char>>) -> DapErrorView {
    DapErrorView::Invalid("invalid expression: "@ + text::joined(errors, ", "@))
}

/// Reports all that is wrong with the text of an expression.
pub fn expression_error(errors: &Vec<String>) -> (r: DapError)
    ensures
        r@ == invalid_expression(text::texts_view(errors@)),
{
    let message = text::join(errors, ", ");
    DapError::Invalid("invalid expression: ".to_owned().concat(message.as_str()))
}

/// Passes a parsed expression on, or reports all that is wrong with its text.
pub fn parse_expression<D>(parsed: Result<D, Vec<String>>) -> (r: Result<D, DapError>)
    ensures
        match parsed {
            Ok(expression) => r == Ok::<D, DapError>(expression),
            Err(errors) => {
                &&& r is Err
                &&& r->Err_0@ == invalid_expression(text::texts_view(errors@))
            },
        },
{
    match parsed {
        Ok(expression) => Ok(expression),
        Err(errors) => Err(expression_error(&errors)),
    }
}

/// An internal error tells the context, then what went wrong, and nothing else.
pub proof fn law_internal_error_tells_all(context: Seq<char>, detail: Seq<char>)
    ensures
        internal(context, detail) == DapErrorView::Internal(context + ": "@ + detail),
{
}

/// The answer to an expression that does not parse tells all errors, in order: it grows by a comma
/// and the error with each further one.
pub proof fn law_expression_errors_are_told(errors: Seq<Seq<char>>, error: Seq<char>)
    ensures
        invalid_expression(seq![error]) == DapErrorView::Invalid("invalid expression: "@ + error),
        invalid_expression(errors) is Invalid,
        errors.len() > 0 ==> invalid_expression(errors.push(error)) == DapErrorView::Invalid(
            invalid_expression(errors)->Invalid_0 + ", "@ + error,
        ),
{
    if errors.len() > 0 {
        text::law_join_is_concatenation(errors, seq![error], ", "@);
        assert(errors + seq![error] =~= errors.push(error));
        assert(invalid_expression(errors.push(error))->Invalid_0 =~= invalid_expression(
            errors,
        )->Invalid_0 + ", "@ + error);
    }
}

/// The view of an error tells its kind and its whole message.
pub proof fn law_errors_are_seen_whole(err: DapError)
    ensures
        err is Internal <==> err@ is Internal,
        err is Internal ==> err@->Internal_0 == err->Internal_0@,
        err is Invalid ==> err@->Invalid_0 == err->Invalid_0@,
{
}

} // verus!

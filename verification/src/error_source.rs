//! The carrier of an underlying error's description, backed by `anyerror`.

use anyerror::AnyError;
use vstd::prelude::*;

verus! {

#[verifier::external_type_specification]
#[verifier::external_body]
pub struct ExAnyError(AnyError);

#[verifier::external_type_specification]
#[verifier::external_body]
pub struct ExIoError(std::io::Error);

/// `AnyError` derives `Clone`: a clone has the same fields as the value it was made from.
pub assume_specification[ <AnyError as Clone>::clone ](e: &AnyError) -> (r: AnyError)
    ensures
        r == *e,
;

/// The `AnyError` that `AnyError::error` builds from a message: it carries the message
/// and no type name, source, context or backtrace.
pub uninterp spec fn any_error_from_message(msg: Seq<char>) -> AnyError;

/// Builds an error that carries the message `msg`, with `AnyError::error`.
///
/// Its source sets the message to `msg` and leaves every other field empty, so the
/// result is a function of `msg` alone.
#[verifier::external_body]
pub(crate) fn any_error_of_message(msg: &str) -> (r: AnyError)
    ensures
        r == any_error_from_message(msg@),
{
    AnyError::error(msg)
}

/// Builds an error that carries an I/O error's type name and description, with
/// `AnyError::new`.
///
/// Nothing is stated of the result: the description of an operating system error comes
/// from the platform.
#[verifier::external_body]
pub(crate) fn any_error_of_io(e: &std::io::Error) -> (r: AnyError) {
    AnyError::new(e)
}

} // verus!

//! The types of `rsmq_async` that the queue carries, and the errors it makes.
use vstd::prelude::*;

use rsmq_async::{Rsmq, RsmqError};

verus! {

/// A connection to Redis speaking the RSMQ protocol; carried, never looked into.
#[verifier::external_type_specification]
#[verifier::external_body]
pub struct ExRsmq(Rsmq);

/// The error type of `rsmq_async`.
#[verifier::external_type_specification]
#[verifier::external_body]
pub struct ExRsmqError(RsmqError);

/// `Rsmq::clone` (derived by `rsmq_async`, down through its fields: the
/// multiplexed connection's shared pipeline handle, its plain settings, the
/// queue namespace and the cached script hashes): another handle on the same
/// connection, the same value.
pub assume_specification[ <Rsmq as Clone>::clone ](conn: &Rsmq) -> (r: Rsmq)
    ensures
        r == *conn,
;

/// The error `RsmqError::MissingParameter` with the given text.
pub uninterp spec fn rsmq_missing_parameter(text: Seq<char>) -> RsmqError;

/// The error `RsmqError::InvalidFormat` with the given text.
pub uninterp spec fn rsmq_invalid_format(text: Seq<char>) -> RsmqError;

/// Builds `RsmqError::MissingParameter(text)`.
#[verifier::external_body]
pub(crate) fn missing_parameter(text: String) -> (e: RsmqError)
    ensures
        e == rsmq_missing_parameter(text@),
{
    RsmqError::MissingParameter(text)
}

/// Builds `RsmqError::InvalidFormat(text)`.
#[verifier::external_body]
pub(crate) fn invalid_format(text: String) -> (e: RsmqError)
    ensures
        e == rsmq_invalid_format(text@),
{
    RsmqError::InvalidFormat(text)
}

} // verus!

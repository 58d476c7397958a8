//! Unwrapping of response envelopes.
//!
//! A reply from the channel is either an error, which passes through as it
//! is, or an envelope. An envelope that does not select the field a call is
//! waiting for is turned into a protocol violation that names that field.

use vstd::prelude::*;
use crate::error::{Error, RES_FIELD, RES_PART_FIELD};
use crate::message::{QueryManagerResPart, QueryRes, Response, ResponsePart};

verus! {

/// What `require_field` returns.
pub open spec fn spec_require_field<V, E>(selected: Option<V>, field_path: &'static str) -> Result<
    V,
    Error<E>,
> {
    match selected {
        Some(value) => Ok(value),
        None => Err(Error::ProtocolViolation { field_path }),
    }
}

/// Demands that a field of a response was selected: hands out its value, or
/// a protocol violation that names `field_path`.
pub fn require_field<V, E>(selected: Option<V>, field_path: &'static str) -> (result: Result<
    V,
    Error<E>,
>)
    ensures
        result == spec_require_field::<V, E>(selected, field_path),
{
    match selected {
        Some(value) => Ok(value),
        None => Err(Error::missing_response_field(field_path)),
    }
}

/// What `single_call` returns.
pub open spec fn spec_single_call<E>(reply: Result<Response, Error<E>>) -> Result<
    QueryRes,
    Error<E>,
> {
    match reply {
        Ok(response) => spec_require_field(response.query_res(), RES_FIELD),
        Err(error) => Err(error),
    }
}

/// Takes the reply to a unary request down to the query manager result in
/// it. An error from the channel is passed on as it is.
pub fn single_call<E>(reply: Result<Response, Error<E>>) -> (result: Result<QueryRes, Error<E>>)
    ensures
        result == spec_single_call(reply),
{
    match reply {
        Ok(response) => require_field(response.query_res(), RES_FIELD),
        Err(error) => Err(error),
    }
}

/// What `stream_answers` returns.
pub open spec fn spec_stream_answers<R, E>(part: Result<ResponsePart<R>, Error<E>>) -> Result<
    QueryManagerResPart<R>,
    Error<E>,
> {
    match part {
        Ok(part) => spec_require_field(part.query_manager_res_part(), RES_PART_FIELD),
        Err(error) => Err(error),
    }
}

/// Takes one item of a response stream down to the query manager's share of
/// it, whose own union is still to be read. An error from the channel is
/// passed on as it is.
pub fn stream_answers<R, E>(part: Result<ResponsePart<R>, Error<E>>) -> (result: Result<
    QueryManagerResPart<R>,
    Error<E>,
>)
    ensures
        result == spec_stream_answers(part),
{
    match part {
        Ok(part) => require_field(part.query_manager_res_part(), RES_PART_FIELD),
        Err(error) => Err(error),
    }
}

} // verus!

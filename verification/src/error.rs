//! Errors surfaced by the query adapter.

use vstd::prelude::*;

verus! {

/// Field path reported when a unary response does not select the query
/// manager, or the query manager result does not select the expected
/// operation.
pub const RES_FIELD: &'static str = "res.query_manager_res";

/// Field path reported when a response part does not select the query
/// manager.
pub const RES_PART_FIELD: &'static str = "res_part.query_manager_res_part";

/// Why a query call or one item of an answer stream failed.
///
/// `E` is the error type of the transaction channel. The adapter never looks
/// inside it.
#[derive(Clone, Debug, PartialEq, Eq)]
pub enum Error<E> {
    /// A failure raised below the channel boundary, carried as it was received.
    Transport(E),
    /// A response did not select the field the call was waiting for.
    /// `field_path` names that field.
    ProtocolViolation { field_path: &'static str },
}

impl<E> Error<E> {
    /// The error for a response that lacks the field named by `field_path`.
    pub fn missing_response_field(field_path: &'static str) -> (error: Error<E>)
        ensures
            error == (Error::<E>::ProtocolViolation { field_path }),
    {
        Error::ProtocolViolation { field_path }
    }

    /// The path of the missing field, if this is a protocol violation.
    pub fn field_path(&self) -> (path: Option<&'static str>)
        ensures
            path == match *self {
                Error::ProtocolViolation { field_path } => Some(field_path),
                Error::Transport(_) => None,
            },
    {
        match self {
            Error::ProtocolViolation { field_path } => Some(*field_path),
            Error::Transport(_) => None,
        }
    }
}

} // verus!

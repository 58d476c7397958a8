//! The query manager and the calls it prepares.
//!
//! The manager does no I/O of its own. Each operation yields a prepared
//! call, which holds the request to put on the transaction channel and turns
//! what the channel returns for it into the result of the operation.

use vstd::prelude::*;
use crate::answers::{
    decodes, decodes_all, lemma_decodes_all_concat, lemma_stream_items_push, part_items,
    spec_part_answers, stream_items,
};
use crate::envelope::{
    require_field, single_call, spec_require_field, spec_single_call, stream_answers,
};
use crate::error::{Error, RES_FIELD};
use crate::message::{Request, RequestView, Response, ResponsePart};
use crate::operation::{DispatchMode, OperationKind};

verus! {

/// What a unary call of `kind` makes of the channel's reply: success when
/// the reply selects the result of that very operation, a protocol violation
/// when it selects anything else or nothing, and the channel's own error
/// where there is one.
pub open spec fn unary_outcome<E>(kind: OperationKind, reply: Result<Response, Error<E>>) -> Result<
    (),
    Error<E>,
> {
    match spec_single_call(reply) {
        Ok(res) => spec_require_field(if res.answers(kind) { Some(()) } else { None }, RES_FIELD),
        Err(error) => Err(error),
    }
}

/// A prepared define, undefine or delete: one request, to be answered by one
/// response.
#[derive(Debug)]
pub struct UnaryCall {
    request: Request,
}

impl UnaryCall {
    #[verifier::type_invariant]
    spec fn is_unary(self) -> bool {
        self.request.kind.dispatch_mode() == DispatchMode::Unary
    }

    /// The request of this call.
    pub closed spec fn spec_request(&self) -> &Request {
        &self.request
    }

    /// The request to send over the channel's single-call path.
    #[verifier::when_used_as_spec(spec_request)]
    pub fn request(&self) -> (request: &Request)
        ensures
            request == self.spec_request(),
            request.kind.dispatch_mode() == DispatchMode::Unary,
    {
        proof {
            use_type_invariant(self);
        }
        &self.request
    }

    /// Turns the channel's reply to the request into the result of the call.
    pub fn complete<E>(self, reply: Result<Response, Error<E>>) -> (result: Result<(), Error<E>>)
        ensures
            result == unary_outcome(self.request().kind, reply),
    {
        match single_call(reply) {
            Ok(res) => require_field(
                if res.answers(self.request.kind) {
                    Some(())
                } else {
                    None
                },
                RES_FIELD,
            ),
            Err(error) => Err(error),
        }
    }
}

/// A prepared insert, match or update: one request, to be answered by a
/// stream of response parts.
#[derive(Debug)]
pub struct StreamingCall {
    request: Request,
}

impl StreamingCall {
    #[verifier::type_invariant]
    spec fn is_streaming(self) -> bool {
        self.request.kind.dispatch_mode() == DispatchMode::Streaming
    }

    /// The request of this call.
    pub closed spec fn spec_request(&self) -> &Request {
        &self.request
    }

    /// The request to send over the channel's streaming path.
    #[verifier::when_used_as_spec(spec_request)]
    pub fn request(&self) -> (request: &Request)
        ensures
            request == self.spec_request(),
            request.kind.dispatch_mode() == DispatchMode::Streaming,
    {
        proof {
            use_type_invariant(self);
        }
        &self.request
    }

    /// Takes one item of the response stream down to the raw answers that it
    /// carries for this call.
    pub fn part_answers<R, E>(&self, part: Result<ResponsePart<R>, Error<E>>) -> (result: Result<
        Vec<R>,
        Error<E>,
    >)
        ensures
            result == spec_part_answers(self.request().kind, part),
    {
        proof {
            use_type_invariant(self);
        }
        match stream_answers(part) {
            Ok(manager) => require_field(
                manager.answers_for(self.request.kind),
                self.request.kind.res_part_field(),
            ),
            Err(error) => Err(error),
        }
    }

    /// Turns one item of the response stream into the items that it
    /// contributes to the answers of this call: each of its raw answers
    /// decoded, in the order received, or one error.
    pub fn part_concept_maps<R, C, E, F: Fn(R) -> C>(
        &self,
        part: Result<ResponsePart<R>, Error<E>>,
        decode: &F,
    ) -> (items: Vec<Result<C, Error<E>>>)
        requires
            forall|answer: R| #[trigger] call_requires(decode, (answer,)),
        ensures
            decodes_all(decode, part_items(self.request().kind, part), items@),
    {
        let mut items: Vec<Result<C, Error<E>>> = Vec::new();
        match self.part_answers(part) {
            Ok(answers) => {
                let ghost raws = part_items(self.request().kind, part);
                for answer in it: answers
                    invariant
                        forall|answer: R| #[trigger] call_requires(decode, (answer,)),
                        it.seq() == answers@,
                        raws == answers@.map_values(|answer: R| Ok::<R, Error<E>>(answer)),
                        items.len() == it.index(),
                        forall|i: int|
                            0 <= i < items.len() ==> decodes(decode, raws[i], #[trigger] items[i]),
                {
                    items.push(Ok(decode(answer)));
                }
            },
            Err(error) => {
                items.push(Err(error));
            },
        }
        items
    }

    /// Turns the items of the response stream, in the order in which they
    /// arrived, into the answers of this call.
    pub fn stream_concept_maps<R, C, E, F: Fn(R) -> C>(
        &self,
        parts: Vec<Result<ResponsePart<R>, Error<E>>>,
        decode: &F,
    ) -> (items: Vec<Result<C, Error<E>>>)
        requires
            forall|answer: R| #[trigger] call_requires(decode, (answer,)),
        ensures
            decodes_all(decode, stream_items(self.request().kind, parts@), items@),
    {
        let ghost kind = self.request().kind;
        let mut items: Vec<Result<C, Error<E>>> = Vec::new();
        for part in it: parts
            invariant
                forall|answer: R| #[trigger] call_requires(decode, (answer,)),
                it.seq() == parts@,
                kind == self.request().kind,
                decodes_all(decode, stream_items(kind, parts@.take(it.index())), items@),
        {
            let mut contribution = self.part_concept_maps(part, decode);
            proof {
                let seen = parts@.take(it.index());
                assert(parts@.take(it.index() + 1) =~= seen.push(part));
                lemma_stream_items_push(kind, seen, part);
                lemma_decodes_all_concat(
                    decode,
                    stream_items(kind, seen),
                    items@,
                    part_items(kind, part),
                    contribution@,
                );
            }
            items.append(&mut contribution);
        }
        proof {
            assert(parts@.take(parts@.len() as int) =~= parts@);
        }
        items
    }
}

/// The adapter between query operations and one transaction channel.
///
/// `T` is the handle of the channel. The manager keeps a clone of the handle
/// it was made with, so that managers made from one handle share one channel.
#[derive(Clone, Debug)]
pub struct QueryManager<T> {
    tx: T,
}

impl<T: Clone> QueryManager<T> {
    /// The channel handle that this manager holds.
    pub closed spec fn spec_channel(&self) -> &T {
        &self.tx
    }

    /// A manager bound to the channel behind `tx`.
    pub fn new(tx: &T) -> (manager: QueryManager<T>)
        ensures
            cloned(*tx, *manager.channel()),
    {
        QueryManager { tx: tx.clone() }
    }

    /// The handle of the channel over which the prepared calls are to be
    /// carried.
    #[verifier::when_used_as_spec(spec_channel)]
    pub fn channel(&self) -> (tx: &T)
        ensures
            tx == self.spec_channel(),
    {
        &self.tx
    }

    /// The manager's own handle, for carrying a prepared call over the
    /// channel.
    pub fn channel_mut(&mut self) -> (tx: &mut T)
        ensures
            *tx == *old(self).channel(),
            *final(self).channel() == *final(tx),
    {
        &mut self.tx
    }

    /// Prepares a define query.
    pub fn define(&mut self, query: &str) -> (call: UnaryCall)
        ensures
            *final(self) == *old(self),
            call.request()@ == (RequestView { kind: OperationKind::Define, query: query@ }),
    {
        UnaryCall { request: Request::new(OperationKind::Define, query) }
    }

    /// Prepares a delete query.
    pub fn delete(&mut self, query: &str) -> (call: UnaryCall)
        ensures
            *final(self) == *old(self),
            call.request()@ == (RequestView { kind: OperationKind::Delete, query: query@ }),
    {
        UnaryCall { request: Request::new(OperationKind::Delete, query) }
    }

    /// Prepares an insert query.
    pub fn insert(&mut self, query: &str) -> (call: StreamingCall)
        ensures
            *final(self) == *old(self),
            call.request()@ == (RequestView { kind: OperationKind::Insert, query: query@ }),
    {
        StreamingCall { request: Request::new(OperationKind::Insert, query) }
    }

    /// Prepares a match query.
    pub fn match_(&mut self, query: &str) -> (call: StreamingCall)
        ensures
            *final(self) == *old(self),
            call.request()@ == (RequestView { kind: OperationKind::Match, query: query@ }),
    {
        StreamingCall { request: Request::new(OperationKind::Match, query) }
    }

    /// Prepares an undefine query.
    pub fn undefine(&mut self, query: &str) -> (call: UnaryCall)
        ensures
            *final(self) == *old(self),
            call.request()@ == (RequestView { kind: OperationKind::Undefine, query: query@ }),
    {
        UnaryCall { request: Request::new(OperationKind::Undefine, query) }
    }

    /// Prepares an update query.
    pub fn update(&mut self, query: &str) -> (call: StreamingCall)
        ensures
            *final(self) == *old(self),
            call.request()@ == (RequestView { kind: OperationKind::Update, query: query@ }),
    {
        StreamingCall { request: Request::new(OperationKind::Update, query) }
    }
}

} // verus!

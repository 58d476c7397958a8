//! Request and response envelopes exchanged with the transaction channel.
//!
//! Every response carries two nested unions. The outer one selects the
//! subsystem that answered, the inner one the operation whose result it is.
//! Either union may arrive with no branch selected.

use vstd::prelude::*;
use crate::operation::OperationKind;

verus! {

/// A request envelope: one operation together with its query text.
#[derive(Clone, Debug, PartialEq, Eq)]
pub struct Request {
    pub kind: OperationKind,
    pub query: String,
}

/// What a request says, with the query text as a sequence of characters.
pub struct RequestView {
    pub kind: OperationKind,
    pub query: Seq<char>,
}

impl View for Request {
    type V = RequestView;

    open spec fn view(&self) -> RequestView {
        RequestView { kind: self.kind, query: self.query@ }
    }
}

impl Request {
    /// Wraps `query`, untouched, under the tag of `kind`.
    pub fn new(kind: OperationKind, query: &str) -> (request: Request)
        ensures
            request@ == (RequestView { kind, query: query@ }),
    {
        Request { kind, query: query.to_owned() }
    }
}

/// The result of a unary query operation, as selected by the inner union of
/// a response.
#[derive(Clone, Copy, Debug, PartialEq, Eq, Structural)]
pub enum QueryRes {
    Define,
    Undefine,
    Delete,
    /// A query manager result that belongs to none of the operations above.
    Other,
}

/// The query manager's share of a response.
#[derive(Clone, Copy, Debug, PartialEq, Eq, Structural)]
pub struct QueryManagerRes {
    pub res: Option<QueryRes>,
}

/// The subsystem selected by the outer union of a response.
#[derive(Clone, Copy, Debug, PartialEq, Eq, Structural)]
pub enum SubsystemRes {
    QueryManager(QueryManagerRes),
    /// A result that belongs to another subsystem.
    Other,
}

/// The response envelope of a unary call.
#[derive(Clone, Copy, Debug, PartialEq, Eq, Structural)]
pub struct Response {
    pub res: Option<SubsystemRes>,
}

/// One part of the result of a streaming query operation, as selected by the
/// inner union of a response part. `R` is the raw answer record.
#[derive(Clone, Debug, PartialEq, Eq)]
pub enum QueryResPart<R> {
    Insert { answers: Vec<R> },
    Match { answers: Vec<R> },
    Update { answers: Vec<R> },
    /// A query manager part that belongs to none of the operations above.
    Other,
}

/// The query manager's share of a response part.
#[derive(Clone, Debug, PartialEq, Eq)]
pub struct QueryManagerResPart<R> {
    pub res_part: Option<QueryResPart<R>>,
}

/// The subsystem selected by the outer union of a response part.
#[derive(Clone, Debug, PartialEq, Eq)]
pub enum SubsystemResPart<R> {
    QueryManager(QueryManagerResPart<R>),
    /// A part that belongs to another subsystem.
    Other,
}

/// One envelope of a streamed response.
#[derive(Clone, Debug, PartialEq, Eq)]
pub struct ResponsePart<R> {
    pub res_part: Option<SubsystemResPart<R>>,
}

impl Response {
    /// The query manager result that this response selects, if both unions
    /// select one.
    pub open spec fn spec_query_res(self) -> Option<QueryRes> {
        match self.res {
            Some(SubsystemRes::QueryManager(manager)) => manager.res,
            _ => None,
        }
    }

    #[verifier::when_used_as_spec(spec_query_res)]
    pub fn query_res(self) -> (selected: Option<QueryRes>)
        ensures
            selected == self.spec_query_res(),
    {
        match self.res {
            Some(SubsystemRes::QueryManager(manager)) => manager.res,
            _ => None,
        }
    }
}

impl QueryRes {
    /// Whether this result is the one that an operation of `kind` waits for.
    pub open spec fn spec_answers(self, kind: OperationKind) -> bool {
        match (self, kind) {
            (QueryRes::Define, OperationKind::Define) => true,
            (QueryRes::Undefine, OperationKind::Undefine) => true,
            (QueryRes::Delete, OperationKind::Delete) => true,
            _ => false,
        }
    }

    #[verifier::when_used_as_spec(spec_answers)]
    pub fn answers(self, kind: OperationKind) -> (matching: bool)
        ensures
            matching == self.spec_answers(kind),
    {
        match (self, kind) {
            (QueryRes::Define, OperationKind::Define) => true,
            (QueryRes::Undefine, OperationKind::Undefine) => true,
            (QueryRes::Delete, OperationKind::Delete) => true,
            _ => false,
        }
    }
}

impl<R> ResponsePart<R> {
    /// The query manager's share of this part, if the outer union selects
    /// the query manager.
    pub open spec fn spec_query_manager_res_part(self) -> Option<QueryManagerResPart<R>> {
        match self.res_part {
            Some(SubsystemResPart::QueryManager(manager)) => Some(manager),
            _ => None,
        }
    }

    #[verifier::when_used_as_spec(spec_query_manager_res_part)]
    pub fn query_manager_res_part(self) -> (selected: Option<QueryManagerResPart<R>>)
        ensures
            selected == self.spec_query_manager_res_part(),
    {
        match self.res_part {
            Some(SubsystemResPart::QueryManager(manager)) => Some(manager),
            _ => None,
        }
    }
}

impl<R> QueryManagerResPart<R> {
    /// The answers of this part if its union selects the part that an
    /// operation of `kind` waits for, and `None` if the union is unset or
    /// selects the part of another operation.
    pub open spec fn spec_answers_for(self, kind: OperationKind) -> Option<Vec<R>> {
        match self.res_part {
            Some(res_part) => res_part.answers_for(kind),
            None => None,
        }
    }

    #[verifier::when_used_as_spec(spec_answers_for)]
    pub fn answers_for(self, kind: OperationKind) -> (selected: Option<Vec<R>>)
        ensures
            selected == self.spec_answers_for(kind),
    {
        match self.res_part {
            Some(res_part) => res_part.answers_for(kind),
            None => None,
        }
    }
}

impl<R> QueryResPart<R> {
    /// The answers of this part if it is the one that an operation of `kind`
    /// waits for, and `None` if it belongs to another operation.
    pub open spec fn spec_answers_for(self, kind: OperationKind) -> Option<Vec<R>> {
        match (self, kind) {
            (QueryResPart::Insert { answers }, OperationKind::Insert) => Some(answers),
            (QueryResPart::Match { answers }, OperationKind::Match) => Some(answers),
            (QueryResPart::Update { answers }, OperationKind::Update) => Some(answers),
            _ => None,
        }
    }

    #[verifier::when_used_as_spec(spec_answers_for)]
    pub fn answers_for(self, kind: OperationKind) -> (selected: Option<Vec<R>>)
        ensures
            selected == self.spec_answers_for(kind),
    {
        match (self, kind) {
            (QueryResPart::Insert { answers }, OperationKind::Insert) => Some(answers),
            (QueryResPart::Match { answers }, OperationKind::Match) => Some(answers),
            (QueryResPart::Update { answers }, OperationKind::Update) => Some(answers),
            _ => None,
        }
    }
}

} // verus!

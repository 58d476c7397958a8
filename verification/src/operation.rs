//! The six query operations and the call discipline each one uses.

use vstd::prelude::*;

verus! {

/// The kind of a query operation.
#[derive(Clone, Copy, Debug, PartialEq, Eq, Structural, Hash)]
pub enum OperationKind {
    Define,
    Undefine,
    Delete,
    Insert,
    Match,
    Update,
}

/// How an operation is carried over the transaction channel.
#[derive(Clone, Copy, Debug, PartialEq, Eq, Structural, Hash)]
pub enum DispatchMode {
    /// One request, one response.
    Unary,
    /// One request, zero or more response parts.
    Streaming,
}

impl OperationKind {
    /// The dispatch mode fixed for each kind: schema changes and deletions
    /// are unary, operations that return answers are streaming.
    pub open spec fn spec_dispatch_mode(self) -> DispatchMode {
        match self {
            OperationKind::Define | OperationKind::Undefine | OperationKind::Delete => DispatchMode::Unary,
            OperationKind::Insert | OperationKind::Match | OperationKind::Update => DispatchMode::Streaming,
        }
    }

    #[verifier::when_used_as_spec(spec_dispatch_mode)]
    pub fn dispatch_mode(self) -> (mode: DispatchMode)
        ensures
            mode == self.spec_dispatch_mode(),
    {
        match self {
            OperationKind::Define | OperationKind::Undefine | OperationKind::Delete => DispatchMode::Unary,
            OperationKind::Insert | OperationKind::Match | OperationKind::Update => DispatchMode::Streaming,
        }
    }

    /// The field of a query manager part under which the answers to a
    /// streaming operation of this kind arrive, as a path from the enclosing
    /// message. Unary operations have no such field.
    pub open spec fn spec_res_part_field(self) -> &'static str
        recommends
            self.spec_dispatch_mode() == DispatchMode::Streaming,
    {
        match self {
            OperationKind::Insert => "query_manager_res_part.insert_res_part",
            OperationKind::Match => "query_manager_res_part.match_res_part",
            OperationKind::Update => "query_manager_res_part.update_res_part",
            OperationKind::Define | OperationKind::Undefine | OperationKind::Delete => arbitrary(),
        }
    }

    #[verifier::when_used_as_spec(spec_res_part_field)]
    pub fn res_part_field(self) -> (field_path: &'static str)
        requires
            self.spec_dispatch_mode() == DispatchMode::Streaming,
        ensures
            field_path == self.spec_res_part_field(),
    {
        match self {
            OperationKind::Insert => "query_manager_res_part.insert_res_part",
            OperationKind::Match => "query_manager_res_part.match_res_part",
            OperationKind::Update => "query_manager_res_part.update_res_part",
            OperationKind::Define | OperationKind::Undefine | OperationKind::Delete => unreached(),
        }
    }
}

} // verus!

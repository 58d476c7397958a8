use typedb_query::error::{Error, RES_FIELD};
use typedb_query::message::{QueryManagerRes, QueryRes, Response, SubsystemRes};
use typedb_query::operation::OperationKind;
use typedb_query::query::QueryManager;

type Reply = Result<Response, Error<String>>;

fn response(res: QueryRes) -> Response {
    Response { res: Some(SubsystemRes::QueryManager(QueryManagerRes { res: Some(res) })) }
}

fn missing_res() -> Result<(), Error<String>> {
    Err(Error::ProtocolViolation { field_path: "res.query_manager_res" })
}

#[test]
fn define_succeeds_on_define_res() {
    let mut manager = QueryManager::new(&0u8);
    let call = manager.define("define person sub entity;");
    let reply: Reply = Ok(response(QueryRes::Define));
    assert_eq!(call.complete(reply), Ok(()));
}

#[test]
fn undefine_succeeds_on_undefine_res() {
    let mut manager = QueryManager::new(&0u8);
    let call = manager.undefine("undefine person sub entity;");
    let reply: Reply = Ok(response(QueryRes::Undefine));
    assert_eq!(call.complete(reply), Ok(()));
}

#[test]
fn delete_succeeds_on_delete_res() {
    let mut manager = QueryManager::new(&0u8);
    let call = manager.delete("match $x isa person; delete $x isa person;");
    let reply: Reply = Ok(response(QueryRes::Delete));
    assert_eq!(call.complete(reply), Ok(()));
}

#[test]
fn define_without_subsystem_is_a_protocol_violation() {
    let mut manager = QueryManager::new(&0u8);
    let call = manager.define("define person sub entity;");
    let reply: Reply = Ok(Response { res: None });
    assert_eq!(
        call.complete(reply),
        Err(Error::ProtocolViolation { field_path: "res.query_manager_res" })
    );
}

#[test]
fn unary_calls_reject_another_subsystem() {
    let mut manager = QueryManager::new(&0u8);
    let other: Reply = Ok(Response { res: Some(SubsystemRes::Other) });
    assert_eq!(manager.define("define a sub entity;").complete(other.clone()), missing_res());
    assert_eq!(manager.undefine("undefine a sub entity;").complete(other.clone()), missing_res());
    assert_eq!(manager.delete("match $x isa a; delete $x isa a;").complete(other), missing_res());
}

#[test]
fn unary_calls_reject_an_unset_operation() {
    let mut manager = QueryManager::new(&0u8);
    let unset: Reply =
        Ok(Response { res: Some(SubsystemRes::QueryManager(QueryManagerRes { res: None })) });
    assert_eq!(manager.define("define a sub entity;").complete(unset.clone()), missing_res());
    assert_eq!(manager.undefine("undefine a sub entity;").complete(unset.clone()), missing_res());
    assert_eq!(manager.delete("match $x isa a; delete $x isa a;").complete(unset), missing_res());
}

#[test]
fn unary_calls_reject_the_result_of_another_operation() {
    let mut manager = QueryManager::new(&0u8);
    let results = [QueryRes::Define, QueryRes::Undefine, QueryRes::Delete, QueryRes::Other];
    for res in results {
        let reply: Reply = Ok(response(res));
        let expected = if res == QueryRes::Define { Ok(()) } else { missing_res() };
        assert_eq!(manager.define("define a sub entity;").complete(reply.clone()), expected);
        let expected = if res == QueryRes::Undefine { Ok(()) } else { missing_res() };
        assert_eq!(manager.undefine("undefine a sub entity;").complete(reply.clone()), expected);
        let expected = if res == QueryRes::Delete { Ok(()) } else { missing_res() };
        assert_eq!(manager.delete("match $x isa a; delete $x isa a;").complete(reply), expected);
    }
}

#[test]
fn unary_calls_forward_a_transport_error() {
    let mut manager = QueryManager::new(&0u8);
    let failed: Reply = Err(Error::Transport("connection reset".to_string()));
    assert_eq!(
        manager.define("define a sub entity;").complete(failed.clone()),
        Err(Error::Transport("connection reset".to_string()))
    );
    assert_eq!(
        manager.delete("match $x isa a; delete $x isa a;").complete(failed),
        Err(Error::Transport("connection reset".to_string()))
    );
}

#[test]
fn unary_calls_forward_a_violation_raised_below() {
    let mut manager = QueryManager::new(&0u8);
    let failed: Reply = Err(Error::ProtocolViolation { field_path: "res.open_res" });
    assert_eq!(
        manager.undefine("undefine a sub entity;").complete(failed),
        Err(Error::ProtocolViolation { field_path: "res.open_res" })
    );
}

#[test]
fn res_field_names_the_query_manager_result() {
    assert_eq!(RES_FIELD, "res.query_manager_res");
}

#[test]
fn query_res_answers_only_its_own_operation() {
    let kinds = [
        OperationKind::Define,
        OperationKind::Undefine,
        OperationKind::Delete,
        OperationKind::Insert,
        OperationKind::Match,
        OperationKind::Update,
    ];
    for kind in kinds {
        assert_eq!(QueryRes::Define.answers(kind), kind == OperationKind::Define);
        assert_eq!(QueryRes::Undefine.answers(kind), kind == OperationKind::Undefine);
        assert_eq!(QueryRes::Delete.answers(kind), kind == OperationKind::Delete);
        assert!(!QueryRes::Other.answers(kind));
    }
}

use typedb_query::error::{Error, RES_PART_FIELD};
use typedb_query::message::{
    QueryManagerResPart, QueryResPart, ResponsePart, SubsystemResPart,
};
use typedb_query::operation::OperationKind;
use typedb_query::query::QueryManager;

type Part = Result<ResponsePart<String>, Error<String>>;
type Item = Result<(String, usize), Error<String>>;

fn raw(names: &[&str]) -> Vec<String> {
    names.iter().map(|name| name.to_string()).collect()
}

fn part_of(res_part: QueryResPart<String>) -> Part {
    Ok(ResponsePart {
        res_part: Some(SubsystemResPart::QueryManager(QueryManagerResPart {
            res_part: Some(res_part),
        })),
    })
}

fn match_part(names: &[&str]) -> Part {
    part_of(QueryResPart::Match { answers: raw(names) })
}

fn insert_part(names: &[&str]) -> Part {
    part_of(QueryResPart::Insert { answers: raw(names) })
}

fn update_part(names: &[&str]) -> Part {
    part_of(QueryResPart::Update { answers: raw(names) })
}

fn decode(answer: String) -> (String, usize) {
    let length = answer.len();
    (answer, length)
}

fn decoded(name: &str) -> Item {
    Ok((name.to_string(), name.len()))
}

fn violation(field_path: &'static str) -> Item {
    Err(Error::ProtocolViolation { field_path })
}

#[test]
fn match_yields_the_answers_of_two_parts_in_order() {
    let mut manager = QueryManager::new(&0u8);
    let call = manager.match_("match $x isa person;");
    let parts = vec![match_part(&["a", "bb"]), match_part(&["ccc", "dddd", "eeeee"])];
    let items = call.stream_concept_maps(parts, &decode);
    assert_eq!(items.len(), 5);
    assert_eq!(
        items,
        vec![decoded("a"), decoded("bb"), decoded("ccc"), decoded("dddd"), decoded("eeeee")]
    );
}

#[test]
fn insert_yields_every_answer_of_every_part() {
    let mut manager = QueryManager::new(&0u8);
    let call = manager.insert("insert $x isa person;");
    let parts = vec![insert_part(&["p1"]), insert_part(&[]), insert_part(&["p2", "p3"])];
    let items = call.stream_concept_maps(parts, &decode);
    assert_eq!(items, vec![decoded("p1"), decoded("p2"), decoded("p3")]);
}

#[test]
fn update_yields_every_answer_of_every_part() {
    let mut manager = QueryManager::new(&0u8);
    let call = manager.update("match $x isa person; delete $x has age 1; insert $x has age 2;");
    let parts = vec![update_part(&["u1", "u2"]), update_part(&["u3"])];
    let items = call.stream_concept_maps(parts, &decode);
    assert_eq!(items, vec![decoded("u1"), decoded("u2"), decoded("u3")]);
}

#[test]
fn an_empty_stream_yields_no_answers() {
    let mut manager = QueryManager::new(&0u8);
    let call = manager.match_("match $x isa person;");
    let items: Vec<Item> = call.stream_concept_maps(Vec::new(), &decode);
    assert!(items.is_empty());
}

#[test]
fn a_part_without_answers_contributes_nothing() {
    let mut manager = QueryManager::new(&0u8);
    let call = manager.match_("match $x isa person;");
    let items: Vec<Item> = call.part_concept_maps(match_part(&[]), &decode);
    assert!(items.is_empty());
}

#[test]
fn a_part_of_another_operation_yields_one_error_in_its_place() {
    let mut manager = QueryManager::new(&0u8);
    let call = manager.match_("match $x isa person;");
    let parts = vec![match_part(&["a", "b"]), insert_part(&["x", "y", "z"]), match_part(&["c"])];
    let items = call.stream_concept_maps(parts, &decode);
    assert_eq!(
        items,
        vec![
            decoded("a"),
            decoded("b"),
            violation("query_manager_res_part.match_res_part"),
            decoded("c"),
        ]
    );
}

#[test]
fn each_streaming_operation_names_its_own_field() {
    let mut manager = QueryManager::new(&0u8);
    let call = manager.insert("insert $x isa person;");
    assert_eq!(
        call.part_concept_maps(match_part(&["a"]), &decode),
        vec![violation("query_manager_res_part.insert_res_part")]
    );
    let call = manager.match_("match $x isa person;");
    assert_eq!(
        call.part_concept_maps(update_part(&["a"]), &decode),
        vec![violation("query_manager_res_part.match_res_part")]
    );
    let call = manager.update("match $x isa person; insert $x has age 2;");
    assert_eq!(
        call.part_concept_maps(insert_part(&["a"]), &decode),
        vec![violation("query_manager_res_part.update_res_part")]
    );
    let call = manager.update("match $x isa person; insert $x has age 2;");
    assert_eq!(
        call.part_concept_maps(part_of(QueryResPart::Other), &decode),
        vec![violation("query_manager_res_part.update_res_part")]
    );
}

#[test]
fn a_part_of_another_subsystem_yields_one_error() {
    let mut manager = QueryManager::new(&0u8);
    let call = manager.match_("match $x isa person;");
    let foreign: Part = Ok(ResponsePart { res_part: Some(SubsystemResPart::Other) });
    let parts = vec![match_part(&["a"]), foreign, match_part(&["b"])];
    let items = call.stream_concept_maps(parts, &decode);
    assert_eq!(
        items,
        vec![decoded("a"), violation("res_part.query_manager_res_part"), decoded("b")]
    );
}

#[test]
fn a_part_with_an_unset_outer_union_yields_one_error() {
    let mut manager = QueryManager::new(&0u8);
    let call = manager.insert("insert $x isa person;");
    let unset: Part = Ok(ResponsePart { res_part: None });
    assert_eq!(
        call.part_concept_maps(unset, &decode),
        vec![violation("res_part.query_manager_res_part")]
    );
    assert_eq!(RES_PART_FIELD, "res_part.query_manager_res_part");
}

fn unset_operation() -> Part {
    Ok(ResponsePart {
        res_part: Some(SubsystemResPart::QueryManager(QueryManagerResPart { res_part: None })),
    })
}

#[test]
fn a_query_manager_part_with_an_unset_union_names_the_field_of_the_operation() {
    let mut manager = QueryManager::new(&0u8);
    let call = manager.match_("match $x isa person;");
    assert_eq!(
        call.part_concept_maps(unset_operation(), &decode),
        vec![violation("query_manager_res_part.match_res_part")]
    );
    let call = manager.insert("insert $x isa person;");
    assert_eq!(
        call.part_concept_maps(unset_operation(), &decode),
        vec![violation("query_manager_res_part.insert_res_part")]
    );
    let call = manager.update("match $x isa person; insert $x has age 2;");
    assert_eq!(
        call.part_concept_maps(unset_operation(), &decode),
        vec![violation("query_manager_res_part.update_res_part")]
    );
}

#[test]
fn a_query_manager_part_with_an_unset_union_leaves_its_neighbours_alone() {
    let mut manager = QueryManager::new(&0u8);
    let call = manager.match_("match $x isa person;");
    let parts = vec![match_part(&["a", "b"]), unset_operation(), match_part(&["c"])];
    assert_eq!(
        call.stream_concept_maps(parts, &decode),
        vec![
            decoded("a"),
            decoded("b"),
            violation("query_manager_res_part.match_res_part"),
            decoded("c"),
        ]
    );
    assert_eq!(
        call.part_answers(unset_operation()),
        Err(Error::ProtocolViolation { field_path: "query_manager_res_part.match_res_part" })
    );
}

#[test]
fn a_transport_error_appears_unchanged_where_it_arrived() {
    let mut manager = QueryManager::new(&0u8);
    let call = manager.match_("match $x isa person;");
    let parts = vec![
        match_part(&["a"]),
        Err(Error::Transport("stream closed by peer".to_string())),
        match_part(&["b", "c"]),
    ];
    let items = call.stream_concept_maps(parts, &decode);
    assert_eq!(
        items,
        vec![
            decoded("a"),
            Err(Error::Transport("stream closed by peer".to_string())),
            decoded("b"),
            decoded("c"),
        ]
    );
}

#[test]
fn a_transport_error_appears_at_the_start_and_at_the_end() {
    let mut manager = QueryManager::new(&0u8);
    let call = manager.update("match $x isa person; insert $x has age 2;");
    let first: Part = Err(Error::Transport("first".to_string()));
    let last: Part = Err(Error::Transport("last".to_string()));
    let items = call.stream_concept_maps(vec![first, update_part(&["a"]), last], &decode);
    assert_eq!(
        items,
        vec![
            Err(Error::Transport("first".to_string())),
            decoded("a"),
            Err(Error::Transport("last".to_string())),
        ]
    );
}

#[test]
fn a_violation_raised_below_is_forwarded_as_it_is() {
    let mut manager = QueryManager::new(&0u8);
    let call = manager.match_("match $x isa person;");
    let failed: Part = Err(Error::ProtocolViolation { field_path: "server.res_part" });
    assert_eq!(call.part_concept_maps(failed, &decode), vec![violation("server.res_part")]);
}

#[test]
fn the_stream_is_the_concatenation_of_its_parts() {
    let mut manager = QueryManager::new(&0u8);
    let call = manager.match_("match $x isa person;");
    let parts = vec![
        match_part(&["a", "b"]),
        Err(Error::Transport("lost".to_string())),
        insert_part(&["x"]),
        match_part(&[]),
        match_part(&["c"]),
    ];
    let mut expected: Vec<Item> = Vec::new();
    for part in parts.clone() {
        expected.extend(call.part_concept_maps(part, &decode));
    }
    assert_eq!(call.stream_concept_maps(parts, &decode), expected);
    assert_eq!(expected.len(), 5);
}

#[test]
fn part_answers_hands_out_the_raw_answers() {
    let mut manager = QueryManager::new(&0u8);
    let call = manager.match_("match $x isa person;");
    assert_eq!(call.part_answers(match_part(&["a", "b"])), Ok(raw(&["a", "b"])));
    assert_eq!(
        call.part_answers(insert_part(&["a", "b"])),
        Err(Error::ProtocolViolation { field_path: "query_manager_res_part.match_res_part" })
    );
    let failed: Part = Err(Error::Transport("gone".to_string()));
    assert_eq!(call.part_answers(failed), Err(Error::Transport("gone".to_string())));
}

#[test]
fn the_decoder_is_applied_to_each_answer_once_and_in_order() {
    let mut manager = QueryManager::new(&0u8);
    let call = manager.match_("match $x isa person;");
    let seen = std::cell::RefCell::new(Vec::new());
    let record = |answer: String| {
        seen.borrow_mut().push(answer.clone());
        answer.to_uppercase()
    };
    let parts = vec![match_part(&["a", "b"]), update_part(&["skipped"]), match_part(&["c"])];
    let items: Vec<Result<String, Error<String>>> = call.stream_concept_maps(parts, &record);
    assert_eq!(seen.into_inner(), raw(&["a", "b", "c"]));
    assert_eq!(
        items,
        vec![
            Ok("A".to_string()),
            Ok("B".to_string()),
            Err(Error::ProtocolViolation { field_path: "query_manager_res_part.match_res_part" }),
            Ok("C".to_string()),
        ]
    );
}

#[test]
fn res_part_field_follows_the_operation() {
    assert_eq!(OperationKind::Insert.res_part_field(), "query_manager_res_part.insert_res_part");
    assert_eq!(OperationKind::Match.res_part_field(), "query_manager_res_part.match_res_part");
    assert_eq!(OperationKind::Update.res_part_field(), "query_manager_res_part.update_res_part");
}

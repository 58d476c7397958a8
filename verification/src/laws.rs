//! What holds of every call, stated over the functions that the calls are
//! specified with.

use vstd::prelude::*;
use crate::answers::{
    decodes, decodes_all, lemma_decodes_all_split, lemma_stream_items_concat,
    lemma_stream_items_push, part_items, spec_part_answers, stream_items,
};
use crate::error::{Error, RES_PART_FIELD};
use crate::message::{Response, ResponsePart, SubsystemRes, SubsystemResPart};
use crate::operation::{DispatchMode, OperationKind};
use crate::query::unary_outcome;

verus! {

/// Whether both unions of `response` are set and select the result of an
/// operation of `kind`.
pub open spec fn selects_result_of(response: Response, kind: OperationKind) -> bool {
    &&& response.res matches Some(SubsystemRes::QueryManager(manager))
    &&& manager.res matches Some(res)
    &&& res.answers(kind)
}

/// A unary call succeeds on a response whose two unions both select the
/// result of its operation. On every other response it fails with a protocol
/// violation at `res.query_manager_res`, whichever of the two unions is unset
/// or selects something else.
pub proof fn law_unary_outcome<E>(kind: OperationKind, response: Response)
    ensures
        selects_result_of(response, kind) ==> unary_outcome::<E>(kind, Ok(response)) == Ok::<
            (),
            Error<E>,
        >(()),
        !selects_result_of(response, kind) ==> unary_outcome::<E>(kind, Ok(response)) == Err::<
            (),
            Error<E>,
        >(Error::ProtocolViolation { field_path: "res.query_manager_res" }),
{
}

/// An error that the channel returns in place of a response is the result of
/// the unary call, as it is.
pub proof fn law_unary_error_is_forwarded<E>(kind: OperationKind, error: Error<E>)
    ensures
        unary_outcome(kind, Err(error)) == Err::<(), Error<E>>(error),
{
}

/// Whether `part` arrived without error and both of its unions select the
/// answers to an operation of `kind`.
pub open spec fn carries_answers_for<R, E>(
    part: Result<ResponsePart<R>, Error<E>>,
    kind: OperationKind,
) -> bool {
    &&& part matches Ok(envelope)
    &&& envelope.res_part matches Some(SubsystemResPart::QueryManager(manager))
    &&& manager.res_part matches Some(res_part)
    &&& res_part.answers_for(kind) is Some
}

/// The raw answers that `part` carries for an operation of `kind`: none
/// where an error stands in their place.
pub open spec fn part_raw_answers<R, E>(
    kind: OperationKind,
    part: Result<ResponsePart<R>, Error<E>>,
) -> Seq<R> {
    match spec_part_answers(kind, part) {
        Ok(answers) => answers@,
        Err(_) => Seq::empty(),
    }
}

/// The raw answers that `parts` carry for an operation of `kind`: those of
/// the first part in the order received, then those of the second, and so
/// on.
pub open spec fn stream_raw_answers<R, E>(
    kind: OperationKind,
    parts: Seq<Result<ResponsePart<R>, Error<E>>>,
) -> Seq<R> {
    parts.flat_map(|part: Result<ResponsePart<R>, Error<E>>| part_raw_answers(kind, part))
}

/// How many raw answers `parts` carry for an operation of `kind`, summed
/// over the parts.
pub open spec fn answer_count<R, E>(
    kind: OperationKind,
    parts: Seq<Result<ResponsePart<R>, Error<E>>>,
) -> nat
    decreases parts.len(),
{
    if parts.len() == 0 {
        0
    } else {
        answer_count(kind, parts.drop_last()) + part_raw_answers(kind, parts.last()).len()
    }
}

/// Where every part of a stream carries answers for the operation, the
/// stream yields exactly those answers, each as a success: as many items as
/// the parts hold answers in sum, in the order in which the parts arrived and,
/// within a part, in the order in which its answers were received.
pub proof fn law_matching_parts_yield_every_answer<R, E>(
    kind: OperationKind,
    parts: Seq<Result<ResponsePart<R>, Error<E>>>,
)
    requires
        forall|i: int| 0 <= i < parts.len() ==> carries_answers_for(#[trigger] parts[i], kind),
    ensures
        stream_items(kind, parts) == stream_raw_answers(kind, parts).map_values(
            |answer: R| Ok::<R, Error<E>>(answer),
        ),
        stream_items(kind, parts).len() == answer_count(kind, parts),
    decreases parts.len(),
{
    let succeed = |answer: R| Ok::<R, Error<E>>(answer);
    if parts.len() == 0 {
        assert(stream_items(kind, parts) =~= stream_raw_answers(kind, parts).map_values(succeed));
    } else {
        let seen = parts.drop_last();
        let part = parts.last();
        assert(parts =~= seen.push(part));
        assert forall|i: int| 0 <= i < seen.len() implies carries_answers_for(
            #[trigger] seen[i],
            kind,
        ) by {
            assert(seen[i] == parts[i]);
        }
        law_matching_parts_yield_every_answer(kind, seen);
        lemma_stream_items_push(kind, seen, part);
        seen.lemma_flat_map_push(
            |part: Result<ResponsePart<R>, Error<E>>| part_raw_answers(kind, part),
            part,
        );
        assert(carries_answers_for(part, kind));
        assert(part_items(kind, part) == part_raw_answers(kind, part).map_values(succeed));
        assert(stream_items(kind, parts) =~= stream_raw_answers(kind, parts).map_values(succeed));
    }
}

/// Where every part of a stream carries answers for the operation, decoding
/// yields one success for each raw answer, in the same order, and nothing
/// else.
pub proof fn law_matching_parts_decode_to_successes<R, C, E, F: Fn(R) -> C>(
    kind: OperationKind,
    parts: Seq<Result<ResponsePart<R>, Error<E>>>,
    decode: &F,
    items: Seq<Result<C, Error<E>>>,
)
    requires
        forall|i: int| 0 <= i < parts.len() ==> carries_answers_for(#[trigger] parts[i], kind),
        decodes_all(decode, stream_items(kind, parts), items),
    ensures
        items.len() == answer_count(kind, parts),
        items.len() == stream_raw_answers(kind, parts).len(),
        forall|i: int|
            0 <= i < items.len() ==> (#[trigger] items[i] matches Ok(decoded) && call_ensures(
                decode,
                (stream_raw_answers(kind, parts)[i],),
                decoded,
            )),
{
    law_matching_parts_yield_every_answer(kind, parts);
    let raws = stream_items(kind, parts);
    assert forall|i: int| 0 <= i < items.len() implies (#[trigger] items[i] matches Ok(decoded)
        && call_ensures(decode, (stream_raw_answers(kind, parts)[i],), decoded)) by {
        assert(raws[i] == Ok::<R, Error<E>>(stream_raw_answers(kind, parts)[i]));
    }
}

/// A part that stands for `error` contributes that one error to the stream,
/// between what the parts before it and the parts after it contribute.
pub proof fn lemma_failed_part_yields_one_error<R, E>(
    kind: OperationKind,
    before: Seq<Result<ResponsePart<R>, Error<E>>>,
    part: Result<ResponsePart<R>, Error<E>>,
    after: Seq<Result<ResponsePart<R>, Error<E>>>,
    error: Error<E>,
)
    requires
        spec_part_answers(kind, part) == Err::<Vec<R>, Error<E>>(error),
    ensures
        stream_items(kind, before.push(part) + after) == stream_items(kind, before).push(
            Err(error),
        ) + stream_items(kind, after),
{
    lemma_stream_items_concat(kind, before.push(part), after);
    lemma_stream_items_push(kind, before, part);
    assert(stream_items(kind, before) + seq![Err::<R, Error<E>>(error)] =~= stream_items(
        kind,
        before,
    ).push(Err(error)));
}

/// Whether the outer union of `part` selects the query manager while the
/// query manager's own union is unset or selects the part of an operation
/// other than `kind`.
pub open spec fn fails_to_match<R>(part: ResponsePart<R>, kind: OperationKind) -> bool {
    &&& part.res_part matches Some(SubsystemResPart::QueryManager(manager))
    &&& match manager.res_part {
        Some(res_part) => res_part.answers_for(kind) is None,
        None => true,
    }
}

/// A part of the query manager that does not select the part of the call's
/// own operation, be it that it selects the part of another operation or
/// nothing, yields one protocol violation, at the field where the answers to
/// this operation were expected, in place of its contribution. What the parts
/// before it and after it contribute is not affected.
pub proof fn law_mismatched_part_yields_one_error<R, E>(
    kind: OperationKind,
    before: Seq<Result<ResponsePart<R>, Error<E>>>,
    part: ResponsePart<R>,
    after: Seq<Result<ResponsePart<R>, Error<E>>>,
)
    requires
        kind.dispatch_mode() == DispatchMode::Streaming,
        fails_to_match(part, kind),
    ensures
        stream_items(kind, before.push(Ok(part)) + after) == stream_items(kind, before).push(
            Err(Error::ProtocolViolation { field_path: kind.res_part_field() }),
        ) + stream_items(kind, after),
{
    lemma_failed_part_yields_one_error(
        kind,
        before,
        Ok(part),
        after,
        Error::ProtocolViolation { field_path: kind.res_part_field() },
    );
}

/// The field that a mismatched part is reported at, for each streaming
/// operation.
pub proof fn law_res_part_field_names_the_operation()
    ensures
        OperationKind::Insert.res_part_field() == "query_manager_res_part.insert_res_part",
        OperationKind::Match.res_part_field() == "query_manager_res_part.match_res_part",
        OperationKind::Update.res_part_field() == "query_manager_res_part.update_res_part",
{
}

/// A part whose outer union is unset or selects another subsystem yields one
/// protocol violation at `res_part.query_manager_res_part` in place of its
/// contribution. What the parts before it and after it contribute is not
/// affected.
pub proof fn law_foreign_part_yields_one_error<R, E>(
    kind: OperationKind,
    before: Seq<Result<ResponsePart<R>, Error<E>>>,
    part: ResponsePart<R>,
    after: Seq<Result<ResponsePart<R>, Error<E>>>,
)
    requires
        part.res_part is None || part.res_part == Some(SubsystemResPart::<R>::Other),
    ensures
        stream_items(kind, before.push(Ok(part)) + after) == stream_items(kind, before).push(
            Err(Error::ProtocolViolation { field_path: "res_part.query_manager_res_part" }),
        ) + stream_items(kind, after),
{
    lemma_failed_part_yields_one_error(
        kind,
        before,
        Ok(part),
        after,
        Error::ProtocolViolation { field_path: RES_PART_FIELD },
    );
}

/// An error that the channel returns at any point of a stream is an item of
/// the answers, as it is, at that point.
pub proof fn law_stream_error_is_forwarded<R, E>(
    kind: OperationKind,
    before: Seq<Result<ResponsePart<R>, Error<E>>>,
    error: Error<E>,
    after: Seq<Result<ResponsePart<R>, Error<E>>>,
)
    ensures
        stream_items(kind, before.push(Err(error)) + after) == stream_items(kind, before).push(
            Err(error),
        ) + stream_items(kind, after),
{
    lemma_failed_part_yields_one_error(kind, before, Err(error), after, error);
}

/// Decoding leaves an error of the stream where it is and as it is, and
/// decodes what came before it and what came after it as if the error were
/// not there.
pub proof fn law_decoding_keeps_errors<R, C, E, F: Fn(R) -> C>(
    decode: &F,
    before: Seq<Result<R, Error<E>>>,
    error: Error<E>,
    after: Seq<Result<R, Error<E>>>,
    items: Seq<Result<C, Error<E>>>,
)
    requires
        decodes_all(decode, before.push(Err(error)) + after, items),
    ensures
        items.len() == before.len() + 1 + after.len(),
        items[before.len() as int] == Err::<C, Error<E>>(error),
        decodes_all(decode, before, items.take(before.len() as int)),
        decodes_all(decode, after, items.skip(before.len() as int + 1)),
{
    let n: int = before.len() as int;
    lemma_decodes_all_split(decode, before.push(Err(error)), after, items);
    assert(before.push(Err(error)) =~= before + seq![Err::<R, Error<E>>(error)]);
    lemma_decodes_all_split(decode, before, seq![Err::<R, Error<E>>(error)], items.take(n + 1));
    assert(items.take(n + 1).take(n) =~= items.take(n));
    assert(items.take(n + 1).skip(n)[0] == items[n]);
}

/// Where the decoder returns `value(answer)` on every answer, the decoded
/// items are fixed by the raw ones: each answer replaced by its value, each
/// error left as it is.
pub proof fn law_decoder_fixes_items<R, C, E, F: Fn(R) -> C>(
    decode: &F,
    value: spec_fn(R) -> C,
    raws: Seq<Result<R, Error<E>>>,
    items: Seq<Result<C, Error<E>>>,
)
    requires
        forall|answer: R, decoded: C| #[trigger]
            call_ensures(decode, (answer,), decoded) ==> decoded == value(answer),
        decodes_all(decode, raws, items),
    ensures
        items == raws.map_values(
            |raw: Result<R, Error<E>>|
                match raw {
                    Ok(answer) => Ok::<C, Error<E>>(value(answer)),
                    Err(error) => Err::<C, Error<E>>(error),
                },
        ),
{
    let expected = raws.map_values(
        |raw: Result<R, Error<E>>|
            match raw {
                Ok(answer) => Ok::<C, Error<E>>(value(answer)),
                Err(error) => Err::<C, Error<E>>(error),
            },
    );
    assert forall|i: int| 0 <= i < items.len() implies items[i] == expected[i] by {
        assert(decodes(decode, raws[i], items[i]));
    }
    assert(items =~= expected);
}

} // verus!

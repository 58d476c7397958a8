//! The answers of a streaming call.
//!
//! A streaming call receives a sequence of response parts. Each part
//! contributes either its answers, in the order in which they were received,
//! or a single error. The answers of the call are the contributions of its
//! parts, one after the other, in the order in which the parts arrived.

use vstd::prelude::*;
use vstd::seq_lib::lemma_flatten_concat;
use crate::envelope::{spec_require_field, spec_stream_answers};
use crate::error::Error;
use crate::message::ResponsePart;
use crate::operation::OperationKind;

verus! {

/// The raw answers that one item of a response stream carries for a
/// streaming operation of `kind`, or the error that stands in their place:
/// the channel's own; a protocol violation at
/// `res_part.query_manager_res_part` where the item does not select the query
/// manager; or a protocol violation at the field of `kind` where the query
/// manager's share selects nothing or the part of another operation.
pub open spec fn spec_part_answers<R, E>(
    kind: OperationKind,
    part: Result<ResponsePart<R>, Error<E>>,
) -> Result<Vec<R>, Error<E>> {
    match spec_stream_answers(part) {
        Ok(manager) => spec_require_field(manager.answers_for(kind), kind.res_part_field()),
        Err(error) => Err(error),
    }
}

/// What one item of a response stream contributes to the answers of an
/// operation of `kind`, before decoding: its raw answers in the order
/// received, or the one error that stands in their place.
pub open spec fn part_items<R, E>(
    kind: OperationKind,
    part: Result<ResponsePart<R>, Error<E>>,
) -> Seq<Result<R, Error<E>>> {
    match spec_part_answers(kind, part) {
        Ok(answers) => answers@.map_values(|answer: R| Ok::<R, Error<E>>(answer)),
        Err(error) => seq![Err(error)],
    }
}

/// The answers of an operation of `kind` to which `parts` arrived in this
/// order, before decoding.
pub open spec fn stream_items<R, E>(
    kind: OperationKind,
    parts: Seq<Result<ResponsePart<R>, Error<E>>>,
) -> Seq<Result<R, Error<E>>> {
    parts.flat_map(|part: Result<ResponsePart<R>, Error<E>>| part_items(kind, part))
}

/// Whether `item` is what `decode` can make of `raw`: an error stays as it
/// is, an answer is replaced by a result of `decode` on it.
pub open spec fn decodes<R, C, E, F: Fn(R) -> C>(
    decode: &F,
    raw: Result<R, Error<E>>,
    item: Result<C, Error<E>>,
) -> bool {
    match raw {
        Ok(answer) => item matches Ok(decoded) && call_ensures(decode, (answer,), decoded),
        Err(error) => item == Err::<C, Error<E>>(error),
    }
}

/// Whether `items` is `raws` with each answer decoded in place.
pub open spec fn decodes_all<R, C, E, F: Fn(R) -> C>(
    decode: &F,
    raws: Seq<Result<R, Error<E>>>,
    items: Seq<Result<C, Error<E>>>,
) -> bool {
    &&& items.len() == raws.len()
    &&& forall|i: int| 0 <= i < raws.len() ==> decodes(decode, raws[i], #[trigger] items[i])
}

/// The answers of a stream grow by the contribution of each part that
/// arrives.
pub proof fn lemma_stream_items_push<R, E>(
    kind: OperationKind,
    parts: Seq<Result<ResponsePart<R>, Error<E>>>,
    part: Result<ResponsePart<R>, Error<E>>,
)
    ensures
        stream_items(kind, parts.push(part)) == stream_items(kind, parts) + part_items(kind, part),
{
    parts.lemma_flat_map_push(|part: Result<ResponsePart<R>, Error<E>>| part_items(kind, part), part);
}

/// The answers of a stream that arrives in two runs are the answers of the
/// first run followed by those of the second.
pub proof fn lemma_stream_items_concat<R, E>(
    kind: OperationKind,
    parts: Seq<Result<ResponsePart<R>, Error<E>>>,
    more_parts: Seq<Result<ResponsePart<R>, Error<E>>>,
)
    ensures
        stream_items(kind, parts + more_parts) == stream_items(kind, parts) + stream_items(
            kind,
            more_parts,
        ),
{
    let contribution = |part: Result<ResponsePart<R>, Error<E>>| part_items(kind, part);
    assert((parts + more_parts).map_values(contribution) =~= parts.map_values(contribution)
        + more_parts.map_values(contribution));
    lemma_flatten_concat(parts.map_values(contribution), more_parts.map_values(contribution));
}

/// Decoding two runs of items one after the other decodes their
/// concatenation.
pub proof fn lemma_decodes_all_concat<R, C, E, F: Fn(R) -> C>(
    decode: &F,
    raws: Seq<Result<R, Error<E>>>,
    items: Seq<Result<C, Error<E>>>,
    more_raws: Seq<Result<R, Error<E>>>,
    more_items: Seq<Result<C, Error<E>>>,
)
    requires
        decodes_all(decode, raws, items),
        decodes_all(decode, more_raws, more_items),
    ensures
        decodes_all(decode, raws + more_raws, items + more_items),
{
    assert forall|i: int| 0 <= i < (raws + more_raws).len() implies decodes(
        decode,
        (raws + more_raws)[i],
        #[trigger] (items + more_items)[i],
    ) by {
        if i < raws.len() {
            assert(decodes(decode, raws[i], items[i]));
        } else {
            assert(decodes(decode, more_raws[i - raws.len()], more_items[i - raws.len()]));
        }
    }
}

/// What decodes a run of items decodes each stretch of it.
pub proof fn lemma_decodes_all_split<R, C, E, F: Fn(R) -> C>(
    decode: &F,
    raws: Seq<Result<R, Error<E>>>,
    more_raws: Seq<Result<R, Error<E>>>,
    items: Seq<Result<C, Error<E>>>,
)
    requires
        decodes_all(decode, raws + more_raws, items),
    ensures
        decodes_all(decode, raws, items.take(raws.len() as int)),
        decodes_all(decode, more_raws, items.skip(raws.len() as int)),
{
    let n: int = raws.len() as int;
    assert forall|i: int| 0 <= i < raws.len() implies decodes(
        decode,
        raws[i],
        #[trigger] items.take(n)[i],
    ) by {
        assert(decodes(decode, (raws + more_raws)[i], items[i]));
    }
    assert forall|i: int| 0 <= i < more_raws.len() implies decodes(
        decode,
        more_raws[i],
        #[trigger] items.skip(n)[i],
    ) by {
        assert(decodes(decode, (raws + more_raws)[i + n], items[i + n]));
    }
}

} // verus!

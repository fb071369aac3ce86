//! Decoding the items of an array one by one.

use crate::error::{DecodeErrorView, PathStepView};
use crate::json::JsonView;
use vstd::prelude::*;

verus! {

/// Every item decoded by the same rule, in order. The first item that the
/// rule refuses fails the whole, with its error seen from the array.
pub open spec fn all_of<A>(
    items: Seq<JsonView>,
    rule: spec_fn(JsonView) -> Result<A, DecodeErrorView>,
) -> Result<Seq<A>, DecodeErrorView>
    decreases items.len(),
{
    if items.len() == 0 {
        Ok(Seq::empty())
    } else {
        match all_of(items.drop_last(), rule) {
            Err(e) => Err(e),
            Ok(before) => match rule(items.last()) {
                Ok(v) => Ok(before.push(v)),
                Err(e) => Err(e.under(PathStepView::Element((items.len() - 1) as nat))),
            },
        }
    }
}

/// What a rule reads a JSON value as.
pub open spec fn read_by<A>(
    rule: spec_fn(JsonView) -> Result<A, DecodeErrorView>,
    j: JsonView,
) -> Result<A, DecodeErrorView> {
    rule(j)
}

/// How the outcome for the first `k + 1` items comes from that for the
/// first `k`.
pub proof fn all_of_step<A>(
    items: Seq<JsonView>,
    rule: spec_fn(JsonView) -> Result<A, DecodeErrorView>,
    k: int,
)
    requires
        0 <= k < items.len(),
    ensures
        all_of(items.take(k + 1), rule) == match all_of(items.take(k), rule) {
            Err(e) => Err(e),
            Ok(before) => match rule(items[k]) {
                Ok(v) => Ok(before.push(v)),
                Err(e) => Err(e.under(PathStepView::Element(k as nat))),
            },
        },
{
    assert(items.take(k + 1).drop_last() =~= items.take(k));
    assert(items.take(k + 1).last() == items[k]);
}

/// A failure among the first `k` items is the failure of the whole.
pub proof fn all_of_prefix_fails<A>(
    items: Seq<JsonView>,
    rule: spec_fn(JsonView) -> Result<A, DecodeErrorView>,
    k: int,
)
    requires
        0 <= k <= items.len(),
        all_of(items.take(k), rule) is Err,
    ensures
        all_of(items, rule) == all_of(items.take(k), rule),
    decreases items.len() - k,
{
    if k == items.len() {
        assert(items.take(k) =~= items);
    } else {
        all_of_step(items, rule, k);
        all_of_prefix_fails(items, rule, k + 1);
    }
}

/// Values that are written one by one, each to an item that the rule reads
/// back as that value, are read back as they were.
pub proof fn all_of_written<A>(
    values: Seq<A>,
    write: spec_fn(A) -> JsonView,
    rule: spec_fn(JsonView) -> Result<A, DecodeErrorView>,
)
    requires
        forall|i: int|
            0 <= i < values.len() ==> rule(write(#[trigger] values[i])) == Ok::<A, DecodeErrorView>(
                values[i],
            ),
    ensures
        all_of(values.map_values(write), rule) == Ok::<Seq<A>, DecodeErrorView>(values),
    decreases values.len(),
{
    let items = values.map_values(write);
    if values.len() == 0 {
        assert(values =~= Seq::<A>::empty());
    } else {
        all_of_written(values.drop_last(), write, rule);
        assert(items.drop_last() =~= values.drop_last().map_values(write));
        assert(items.last() == write(values.last()));
        assert(values.drop_last().push(values.last()) =~= values);
    }
}

/// Where the rule gives only values of some kind, the values of a list that
/// is read are all of that kind.
pub proof fn all_of_kind<A>(
    items: Seq<JsonView>,
    rule: spec_fn(JsonView) -> Result<A, DecodeErrorView>,
    kind: spec_fn(A) -> bool,
)
    requires
        forall|j: JsonView| #[trigger] read_by(rule, j) is Ok ==> kind(read_by(rule, j)->Ok_0),
    ensures
        all_of(items, rule) matches Ok(values) ==> forall|i: int|
            0 <= i < values.len() ==> kind(#[trigger] values[i]),
    decreases items.len(),
{
    if items.len() > 0 {
        all_of_kind(items.drop_last(), rule, kind);
        assert(read_by(rule, items.last()) == rule(items.last()));
    }
}

} // verus!

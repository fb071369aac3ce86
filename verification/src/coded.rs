//! What the coded values have in common, and how they stand in JSON.
//!
//! On the wire a coded value is one JSON number: a whole number in the range
//! of `i32`. A list of coded values is an array of such numbers.

use crate::error::{DecodeError, DecodeErrorView, PathStep};
use crate::item::{integer_of, list_of, read_integer};
use crate::json::{Json, JsonView};
use crate::sequence::{
    all_of, all_of_kind, all_of_prefix_fails, all_of_step, all_of_written, read_by,
};
use vstd::prelude::*;

verus! {

/// A value with a validated integer encoding: a closed or half-open set of
/// variants, each of which stands for one wire integer or for a range of them.
pub trait Coded: Sized {
    /// The legal forms of the wire integer, in words.
    spec fn expected() -> Seq<char>;

    /// The value that a wire integer stands for, if it is legal.
    spec fn decoded(wire: int) -> Option<Self>;

    /// The wire integer of a value.
    spec fn encoded(&self) -> int;

    /// Whether the value is one that `decode` can give.
    spec fn well_formed(&self) -> bool;

    /// What a wire integer is decoded to is well formed, and encodes to that
    /// integer again.
    proof fn decoded_then_encoded(wire: i32)
        ensures
            Self::decoded(wire as int) matches Some(v) ==> v.well_formed() && v.encoded() == wire,
    ;

    /// A well-formed value encodes to a wire integer in the range of `i32`,
    /// which decodes to that value again.
    proof fn encoded_then_decoded(v: Self)
        requires
            v.well_formed(),
        ensures
            i32::MIN <= v.encoded() <= i32::MAX,
            Self::decoded(v.encoded()) == Some(v),
    ;

    /// Reads a value from its wire integer; an integer that is not legal is
    /// refused.
    fn decode(wire: i32) -> (r: Result<Self, DecodeError>)
        ensures
            match r {
                Ok(v) => Self::decoded(wire as int) == Some(v),
                Err(e) => Self::decoded(wire as int) is None && e@ == (
                DecodeErrorView::InvalidEnumeratedValue {
                    path: Seq::empty(),
                    value: wire as int,
                    expected: Self::expected(),
                }),
            },
    ;

    /// The wire integer of a value.
    fn encode(&self) -> (wire: i32)
        ensures
            wire as int == self.encoded(),
    ;

    /// Whether the value is one that `decode` can give.
    fn is_well_formed(&self) -> (b: bool)
        ensures
            b == self.well_formed(),
    ;
}

/// The coded value that a JSON value stands for, or why it stands for none:
/// it is no wire integer, or not a legal one.
pub open spec fn value_of<T: Coded>(j: JsonView) -> Result<T, DecodeErrorView> {
    match integer_of(j) {
        Err(e) => Err(e),
        Ok(wire) => match T::decoded(wire as int) {
            Some(v) => Ok(v),
            None => Err(
                DecodeErrorView::InvalidEnumeratedValue {
                    path: Seq::empty(),
                    value: wire as int,
                    expected: T::expected(),
                },
            ),
        },
    }
}

/// [`value_of`] as a rule for the items of a list.
pub open spec fn value_rule<T: Coded>() -> spec_fn(JsonView) -> Result<T, DecodeErrorView> {
    |j: JsonView| value_of::<T>(j)
}

/// The coded values that a JSON array stands for, or the first fault in it.
pub open spec fn values_of<T: Coded>(j: JsonView) -> Result<Seq<T>, DecodeErrorView> {
    list_of(j, value_rule::<T>())
}

/// [`values_of`] as a rule.
pub open spec fn values_rule<T: Coded>() -> spec_fn(JsonView) -> Result<Seq<T>, DecodeErrorView> {
    |j: JsonView| values_of::<T>(j)
}

/// How a coded value is written.
pub open spec fn value_write<T: Coded>() -> spec_fn(T) -> JsonView {
    |v: T| JsonView::Integer(v.encoded())
}

/// The JSON values of a list of coded values.
pub open spec fn wires_of<T: Coded>(values: Seq<T>) -> Seq<JsonView> {
    values.map_values(value_write::<T>())
}

/// Whether a value is well formed, as a property of the values of a list.
pub open spec fn well_formed_kind<T: Coded>() -> spec_fn(T) -> bool {
    |v: T| v.well_formed()
}

/// Reads a coded value from the JSON number that holds its wire integer.
pub fn decode_json<T: Coded>(j: &Json) -> (r: Result<T, DecodeError>)
    ensures
        match r {
            Ok(v) => value_of::<T>(j@) == Ok::<T, DecodeErrorView>(v),
            Err(e) => value_of::<T>(j@) == Err::<T, DecodeErrorView>(e@),
        },
{
    match read_integer(j) {
        Ok(wire) => T::decode(wire),
        Err(e) => Err(e),
    }
}

/// The JSON number that holds the wire integer of a coded value.
pub fn encode_json<T: Coded>(value: &T) -> (j: Json)
    ensures
        j@ == JsonView::Integer(value.encoded()),
{
    Json::Integer(value.encode() as i64)
}

/// Reads a list of coded values from a JSON array of wire integers. The first
/// item that is refused fails the whole list.
pub fn decode_list<T: Coded>(j: &Json) -> (r: Result<Vec<T>, DecodeError>)
    ensures
        match r {
            Ok(values) => values_of::<T>(j@) == Ok::<Seq<T>, DecodeErrorView>(values@),
            Err(e) => values_of::<T>(j@) == Err::<Seq<T>, DecodeErrorView>(e@),
        },
{
    match j {
        Json::Array(items) => {
            proof {
                Json::array_view(*items);
            }
            let ghost all = items.deep_view();
            let mut values: Vec<T> = Vec::new();
            let mut i: usize = 0;
            assert(all.take(0) =~= Seq::<JsonView>::empty());
            while i < items.len()
                invariant
                    i <= items.len(),
                    all == items.deep_view(),
                    j@ == JsonView::Array(all),
                    all_of(all.take(i as int), value_rule::<T>()) == Ok::<Seq<T>, DecodeErrorView>(
                        values@,
                    ),
                decreases items.len() - i,
            {
                proof {
                    all_of_step(all, value_rule::<T>(), i as int);
                }
                match decode_json::<T>(&items[i]) {
                    Ok(v) => {
                        values.push(v);
                    },
                    Err(e) => {
                        proof {
                            all_of_prefix_fails(all, value_rule::<T>(), i as int + 1);
                        }
                        return Err(e.under(PathStep::Element(i)));
                    },
                }
                i += 1;
            }
            assert(all.take(i as int) =~= all);
            Ok(values)
        },
        _ => Err(DecodeError::type_mismatch()),
    }
}

/// The JSON array that holds the wire integers of a list of coded values, in
/// their order.
pub fn encode_list<T: Coded>(values: &Vec<T>) -> (j: Json)
    ensures
        j@ == JsonView::Array(wires_of::<T>(values@)),
{
    let mut items: Vec<Json> = Vec::new();
    let mut i: usize = 0;
    assert(items.deep_view() =~= wires_of::<T>(values@.take(0)));
    while i < values.len()
        invariant
            i <= values.len(),
            items.deep_view() == wires_of::<T>(values@.take(i as int)),
        decreases values.len() - i,
    {
        let ghost before = items.deep_view();
        items.push(encode_json(&values[i]));
        assert(items.deep_view() =~= before.push(JsonView::Integer(values@[i as int].encoded())));
        assert(wires_of::<T>(values@.take(i as int + 1)) =~= wires_of::<T>(
            values@.take(i as int),
        ).push(JsonView::Integer(values@[i as int].encoded())));
        i += 1;
    }
    assert(values@.take(i as int) =~= values@);
    proof {
        Json::array_view(items);
    }
    Json::Array(items)
}

/// A coded value that is read is well formed.
pub proof fn value_read_is_well_formed<T: Coded>(j: JsonView)
    ensures
        value_of::<T>(j) matches Ok(v) ==> v.well_formed(),
{
    if integer_of(j) is Ok {
        T::decoded_then_encoded(integer_of(j)->Ok_0);
    }
}

/// A well-formed coded value is read back from its JSON number as it was.
pub proof fn value_written_is_read<T: Coded>(v: T)
    requires
        v.well_formed(),
    ensures
        value_of::<T>(JsonView::Integer(v.encoded())) == Ok::<T, DecodeErrorView>(v),
{
    T::encoded_then_decoded(v);
}

/// The coded values of a list that is read are well formed.
pub proof fn values_read_are_well_formed<T: Coded>(j: JsonView)
    ensures
        values_of::<T>(j) matches Ok(values) ==> forall|i: int|
            0 <= i < values.len() ==> (#[trigger] values[i]).well_formed(),
{
    if j is Array {
        assert forall|item: JsonView| #[trigger]
            read_by(value_rule::<T>(), item) is Ok implies well_formed_kind::<T>()(
            read_by(value_rule::<T>(), item)->Ok_0,
        ) by {
            value_read_is_well_formed::<T>(item);
        }
        all_of_kind(j->Array_0, value_rule::<T>(), well_formed_kind::<T>());
    }
}

/// A list of well-formed coded values is read back from its JSON array as it
/// was.
pub proof fn values_written_are_read<T: Coded>(values: Seq<T>)
    requires
        forall|i: int| 0 <= i < values.len() ==> (#[trigger] values[i]).well_formed(),
    ensures
        values_of::<T>(JsonView::Array(wires_of::<T>(values))) == Ok::<Seq<T>, DecodeErrorView>(
            values,
        ),
{
    assert forall|i: int| 0 <= i < values.len() implies value_rule::<T>()(
        value_write::<T>()(#[trigger] values[i]),
    ) == Ok::<T, DecodeErrorView>(values[i]) by {
        value_written_is_read::<T>(values[i]);
    }
    all_of_written(values, value_write::<T>(), value_rule::<T>());
}

} // verus!

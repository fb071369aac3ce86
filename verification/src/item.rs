//! The values that a member or an item of an array may hold, each kind with
//! its rule: what a JSON value of that kind is read as, and what is refused.

use crate::error::{meets, DecodeError, DecodeErrorView, PathStep};
use crate::json::{Json, JsonView, Member, Members, MembersView};
use crate::sequence::{all_of, all_of_prefix_fails, all_of_step, all_of_written};
use vstd::prelude::*;

verus! {

/// The legal forms of a flag, in words.
pub const FLAG_EXPECTED: &'static str = "0 or 1";

/// The error of a value of the wrong kind.
pub open spec fn mismatch() -> DecodeErrorView {
    DecodeErrorView::TypeMismatch { path: Seq::empty() }
}

/// The text that a JSON value holds.
pub open spec fn text_of(j: JsonView) -> Result<Seq<char>, DecodeErrorView> {
    match j {
        JsonView::Text(text) => Ok(text),
        _ => Err(mismatch()),
    }
}

/// The whole number in the range of `i32` that a JSON value holds.
pub open spec fn integer_of(j: JsonView) -> Result<i32, DecodeErrorView> {
    match j {
        JsonView::Integer(n) => if i32::MIN <= n <= i32::MAX {
            Ok(n as i32)
        } else {
            Err(mismatch())
        },
        _ => Err(mismatch()),
    }
}

/// The flag that a JSON value holds: 0 for no, 1 for yes.
pub open spec fn flag_of(j: JsonView) -> Result<bool, DecodeErrorView> {
    match integer_of(j) {
        Err(e) => Err(e),
        Ok(n) => if n == 0 {
            Ok(false)
        } else if n == 1 {
            Ok(true)
        } else {
            Err(
                DecodeErrorView::InvalidEnumeratedValue {
                    path: Seq::empty(),
                    value: n as int,
                    expected: FLAG_EXPECTED@,
                },
            )
        },
    }
}

/// The members of the object that a JSON value is.
pub open spec fn object_of(j: JsonView) -> Result<MembersView, DecodeErrorView> {
    match j {
        JsonView::Object(members) => Ok(members),
        _ => Err(mismatch()),
    }
}

/// Any JSON value, as it is.
pub open spec fn any_of(j: JsonView) -> Result<JsonView, DecodeErrorView> {
    Ok(j)
}

/// The items of the array that a JSON value is, each read by the same rule.
pub open spec fn list_of<A>(
    j: JsonView,
    rule: spec_fn(JsonView) -> Result<A, DecodeErrorView>,
) -> Result<Seq<A>, DecodeErrorView> {
    match j {
        JsonView::Array(items) => all_of(items, rule),
        _ => Err(mismatch()),
    }
}

/// [`text_of`] as a rule.
pub open spec fn text_rule() -> spec_fn(JsonView) -> Result<Seq<char>, DecodeErrorView> {
    |j: JsonView| text_of(j)
}

/// [`integer_of`] as a rule.
pub open spec fn integer_rule() -> spec_fn(JsonView) -> Result<i32, DecodeErrorView> {
    |j: JsonView| integer_of(j)
}

/// [`flag_of`] as a rule.
pub open spec fn flag_rule() -> spec_fn(JsonView) -> Result<bool, DecodeErrorView> {
    |j: JsonView| flag_of(j)
}

/// [`object_of`] as a rule.
pub open spec fn object_rule() -> spec_fn(JsonView) -> Result<MembersView, DecodeErrorView> {
    |j: JsonView| object_of(j)
}

/// [`any_of`] as a rule.
pub open spec fn any_rule() -> spec_fn(JsonView) -> Result<JsonView, DecodeErrorView> {
    |j: JsonView| any_of(j)
}

/// The rule for an array of texts.
pub open spec fn texts_rule() -> spec_fn(JsonView) -> Result<Seq<Seq<char>>, DecodeErrorView> {
    |j: JsonView| list_of(j, text_rule())
}

/// The rule for an array of objects.
pub open spec fn objects_rule() -> spec_fn(JsonView) -> Result<Seq<MembersView>, DecodeErrorView> {
    |j: JsonView| list_of(j, object_rule())
}

/// How a text is written.
pub open spec fn text_write() -> spec_fn(Seq<char>) -> JsonView {
    |text: Seq<char>| JsonView::Text(text)
}

/// How an object is written.
pub open spec fn object_write() -> spec_fn(MembersView) -> JsonView {
    |members: MembersView| JsonView::Object(members)
}

/// The JSON array of a list of texts.
pub open spec fn texts_array(texts: Seq<Seq<char>>) -> JsonView {
    JsonView::Array(texts.map_values(text_write()))
}

/// The JSON array of a list of objects.
pub open spec fn objects_array(objects: Seq<MembersView>) -> JsonView {
    JsonView::Array(objects.map_values(object_write()))
}

/// Reads a text.
pub fn read_text(j: &Json) -> (r: Result<String, DecodeError>)
    ensures
        meets(r, text_of(j@)),
{
    match j {
        Json::Text(text) => Ok(text.clone()),
        _ => Err(DecodeError::type_mismatch()),
    }
}

/// Reads a whole number in the range of `i32`.
pub fn read_integer(j: &Json) -> (r: Result<i32, DecodeError>)
    ensures
        meets(r, integer_of(j@)),
{
    match j {
        Json::Integer(n) => {
            if -2147483648 <= *n && *n <= 2147483647 {
                Ok(*n as i32)
            } else {
                Err(DecodeError::type_mismatch())
            }
        },
        _ => Err(DecodeError::type_mismatch()),
    }
}

/// Reads a flag: 0 for no, 1 for yes, and no other number.
pub fn read_flag(j: &Json) -> (r: Result<bool, DecodeError>)
    ensures
        meets(r, flag_of(j@)),
{
    match read_integer(j) {
        Err(e) => Err(e),
        Ok(n) => {
            if n == 0 {
                Ok(false)
            } else if n == 1 {
                Ok(true)
            } else {
                Err(DecodeError::invalid_value(n, FLAG_EXPECTED))
            }
        },
    }
}

/// A copy of the members of an object.
pub fn copy_members(members: &Members) -> (r: Members)
    ensures
        r.deep_view() == members.deep_view(),
{
    let mut copies: Vec<Member> = Vec::new();
    let mut i: usize = 0;
    while i < members.len()
        invariant
            i <= members.len(),
            copies.len() == i,
            forall|k: int| 0 <= k < i ==> copies@[k]@ == members@[k]@,
        decreases members.len() - i,
    {
        copies.push(members[i].clone());
        i += 1;
    }
    assert(copies.deep_view() =~= members.deep_view());
    copies
}

/// A JSON object with a copy of these members.
pub fn copy_members_of(members: &Members) -> (j: Json)
    ensures
        j@ == JsonView::Object(members.deep_view()),
{
    let copy = copy_members(members);
    proof {
        Json::object_view(copy);
    }
    Json::Object(copy)
}

/// Reads an object: its members, as they are.
pub fn read_object(j: &Json) -> (r: Result<Members, DecodeError>)
    ensures
        meets(r, object_of(j@)),
{
    match j {
        Json::Object(members) => {
            proof {
                Json::object_view(*members);
            }
            Ok(copy_members(members))
        },
        _ => Err(DecodeError::type_mismatch()),
    }
}

/// Reads an array of texts.
pub fn read_texts(j: &Json) -> (r: Result<Vec<String>, DecodeError>)
    ensures
        meets(r, list_of(j@, text_rule())),
{
    match j {
        Json::Array(items) => {
            proof {
                Json::array_view(*items);
            }
            let ghost all = items.deep_view();
            let mut texts: Vec<String> = Vec::new();
            let mut i: usize = 0;
            assert(all.take(0) =~= Seq::<JsonView>::empty());
            assert(texts.deep_view() =~= Seq::<Seq<char>>::empty());
            while i < items.len()
                invariant
                    i <= items.len(),
                    all == items.deep_view(),
                    j@ == JsonView::Array(all),
                    all_of(all.take(i as int), text_rule()) == Ok::<
                        Seq<Seq<char>>,
                        DecodeErrorView,
                    >(texts.deep_view()),
                decreases items.len() - i,
            {
                proof {
                    all_of_step(all, text_rule(), i as int);
                }
                match read_text(&items[i]) {
                    Ok(text) => {
                        let ghost before = texts.deep_view();
                        texts.push(text);
                        assert(texts.deep_view() =~= before.push(text@));
                    },
                    Err(e) => {
                        proof {
                            all_of_prefix_fails(all, text_rule(), i as int + 1);
                        }
                        return Err(e.under(PathStep::Element(i)));
                    },
                }
                i += 1;
            }
            assert(all.take(i as int) =~= all);
            Ok(texts)
        },
        _ => Err(DecodeError::type_mismatch()),
    }
}

/// Reads an array of objects.
pub fn read_objects(j: &Json) -> (r: Result<Vec<Members>, DecodeError>)
    ensures
        meets(r, list_of(j@, object_rule())),
{
    match j {
        Json::Array(items) => {
            proof {
                Json::array_view(*items);
            }
            let ghost all = items.deep_view();
            let mut objects: Vec<Members> = Vec::new();
            let mut i: usize = 0;
            assert(all.take(0) =~= Seq::<JsonView>::empty());
            assert(objects.deep_view() =~= Seq::<MembersView>::empty());
            while i < items.len()
                invariant
                    i <= items.len(),
                    all == items.deep_view(),
                    j@ == JsonView::Array(all),
                    all_of(all.take(i as int), object_rule()) == Ok::<
                        Seq<MembersView>,
                        DecodeErrorView,
                    >(objects.deep_view()),
                decreases items.len() - i,
            {
                proof {
                    all_of_step(all, object_rule(), i as int);
                }
                match read_object(&items[i]) {
                    Ok(members) => {
                        let ghost before = objects.deep_view();
                        objects.push(members);
                        assert(objects.deep_view() =~= before.push(members.deep_view()));
                    },
                    Err(e) => {
                        proof {
                            all_of_prefix_fails(all, object_rule(), i as int + 1);
                        }
                        return Err(e.under(PathStep::Element(i)));
                    },
                }
                i += 1;
            }
            assert(all.take(i as int) =~= all);
            Ok(objects)
        },
        _ => Err(DecodeError::type_mismatch()),
    }
}

/// The JSON array of a list of texts.
pub fn write_texts(texts: &Vec<String>) -> (j: Json)
    ensures
        j@ == texts_array(texts.deep_view()),
{
    let mut items: Vec<Json> = Vec::new();
    let mut i: usize = 0;
    while i < texts.len()
        invariant
            i <= texts.len(),
            items.len() == i,
            forall|k: int| 0 <= k < i ==> items@[k]@ == JsonView::Text(texts@[k]@),
        decreases texts.len() - i,
    {
        items.push(Json::Text(texts[i].clone()));
        i += 1;
    }
    proof {
        Json::array_view(items);
        assert(items.deep_view() =~= texts_array(texts.deep_view())->Array_0);
    }
    Json::Array(items)
}

/// The JSON array of a list of objects.
pub fn write_objects(objects: &Vec<Members>) -> (j: Json)
    ensures
        j@ == objects_array(objects.deep_view()),
{
    let mut items: Vec<Json> = Vec::new();
    let mut i: usize = 0;
    while i < objects.len()
        invariant
            i <= objects.len(),
            items.len() == i,
            forall|k: int| 0 <= k < i ==> items@[k]@ == JsonView::Object(objects@[k].deep_view()),
        decreases objects.len() - i,
    {
        items.push(copy_members_of(&objects[i]));
        i += 1;
    }
    proof {
        Json::array_view(items);
        assert(items.deep_view() =~= objects_array(objects.deep_view())->Array_0);
    }
    Json::Array(items)
}

/// A list of texts is read back from its array as it was.
pub proof fn texts_written_are_read(texts: Seq<Seq<char>>)
    ensures
        list_of(texts_array(texts), text_rule()) == Ok::<Seq<Seq<char>>, DecodeErrorView>(texts),
{
    all_of_written(texts, text_write(), text_rule());
}

/// A list of objects is read back from its array as it was.
pub proof fn objects_written_are_read(objects: Seq<MembersView>)
    ensures
        list_of(objects_array(objects), object_rule()) == Ok::<Seq<MembersView>, DecodeErrorView>(
            objects,
        ),
{
    all_of_written(objects, object_write(), object_rule());
}

} // verus!

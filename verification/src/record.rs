//! What the records have in common, and how a record stands inside another.
//!
//! A record is a JSON object with a fixed list of members, each required or
//! optional. Reading one ignores the members that it does not know. Writing
//! one gives its members in the order of their declaration and leaves out
//! those that have no value.

use crate::error::{meets, DecodeError, DecodeErrorView, PathStep};
use crate::field::{held, member_if, optional, optional_with, put};
use crate::item::{list_of, mismatch};
use crate::json::{Json, JsonView, MemberView, Members, MembersView};
use crate::sequence::{
    all_of, all_of_kind, all_of_prefix_fails, all_of_step, all_of_written, read_by,
};
use vstd::prelude::*;

verus! {

/// A compound value that is read from the members of a JSON object and
/// written as such.
pub trait Record: Sized + DeepView {
    /// The record that the members of an object stand for, or the first fault
    /// among them, in the order of the record's declaration.
    spec fn decoded(members: MembersView) -> Result<Self::V, DecodeErrorView>;

    /// The members that a record is written as.
    spec fn encoded(record: Self::V) -> MembersView;

    /// Whether a record is one that can be read: its coded values are well
    /// formed, the records inside it are valid, and a member that may hold any
    /// JSON value does not hold `null`, which stands for no value.
    spec fn valid(record: Self::V) -> bool;

    /// What is read is valid.
    proof fn decoded_is_valid(members: MembersView)
        ensures
            Self::decoded(members) matches Ok(record) ==> Self::valid(record),
    ;

    /// A valid record is read back from the members it is written as, as it
    /// was.
    proof fn encoded_then_decoded(record: Self::V)
        requires
            Self::valid(record),
        ensures
            Self::decoded(Self::encoded(record)) == Ok::<Self::V, DecodeErrorView>(record),
    ;

    /// Reads a record from the members of an object.
    fn decode(members: &Members) -> (r: Result<Self, DecodeError>)
        ensures
            meets(r, Self::decoded(members.deep_view())),
    ;

    /// The members that the record is written as.
    fn encode(&self) -> (members: Members)
        ensures
            members.deep_view() == Self::encoded(self.deep_view()),
    ;

    /// Whether the record is valid.
    fn is_valid(&self) -> (b: bool)
        ensures
            b == Self::valid(self.deep_view()),
    ;
}

/// The record that a JSON value stands for: the value is an object, and its
/// members are those of the record.
pub open spec fn record_of<R: Record>(j: JsonView) -> Result<R::V, DecodeErrorView> {
    match j {
        JsonView::Object(members) => R::decoded(members),
        _ => Err(mismatch()),
    }
}

/// [`record_of`] as a rule.
pub open spec fn record_rule<R: Record>() -> spec_fn(JsonView) -> Result<R::V, DecodeErrorView> {
    |j: JsonView| record_of::<R>(j)
}

/// The rule for an array of records.
pub open spec fn records_rule<R: Record>() -> spec_fn(JsonView) -> Result<
    Seq<R::V>,
    DecodeErrorView,
> {
    |j: JsonView| list_of(j, record_rule::<R>())
}

/// How a record is written.
pub open spec fn record_write<R: Record>() -> spec_fn(R::V) -> JsonView {
    |record: R::V| JsonView::Object(R::encoded(record))
}

/// The JSON value of a record.
pub open spec fn record_json<R: Record>(record: Option<R::V>) -> Option<JsonView> {
    match record {
        Some(record) => Some(JsonView::Object(R::encoded(record))),
        None => None,
    }
}

/// The JSON array of a list of records.
pub open spec fn records_array<R: Record>(records: Seq<R::V>) -> JsonView {
    JsonView::Array(records.map_values(record_write::<R>()))
}

/// The JSON value of a list of records.
pub open spec fn records_json<R: Record>(records: Option<Seq<R::V>>) -> Option<JsonView> {
    match records {
        Some(records) => Some(records_array::<R>(records)),
        None => None,
    }
}

/// Whether a record is valid, as a property of the records of a list.
pub open spec fn valid_kind<R: Record>() -> spec_fn(R::V) -> bool {
    |record: R::V| R::valid(record)
}

/// Whether the record of an optional member is valid, if there is one.
pub open spec fn valid_if<R: Record>(record: Option<R::V>) -> bool {
    match record {
        Some(record) => R::valid(record),
        None => true,
    }
}

/// Whether the records of a list are valid.
pub open spec fn each_valid<R: Record>(records: Seq<R::V>) -> bool {
    forall|i: int| 0 <= i < records.len() ==> R::valid(#[trigger] records[i])
}

/// Whether the records of an optional member are valid, if there are any.
pub open spec fn all_valid<R: Record>(records: Option<Seq<R::V>>) -> bool {
    match records {
        Some(records) => each_valid::<R>(records),
        None => true,
    }
}

/// Reads a record from a JSON value, which must be an object.
pub fn from_json<R: Record>(j: &Json) -> (r: Result<R, DecodeError>)
    ensures
        meets(r, record_of::<R>(j@)),
{
    match j {
        Json::Object(members) => {
            proof {
                Json::object_view(*members);
            }
            R::decode(members)
        },
        _ => Err(DecodeError::type_mismatch()),
    }
}

/// The JSON object that a record is written as.
pub fn to_json<R: Record>(record: &R) -> (j: Json)
    ensures
        j@ == JsonView::Object(R::encoded(record.deep_view())),
{
    let members = record.encode();
    proof {
        Json::object_view(members);
    }
    Json::Object(members)
}

/// Reads an array of records.
pub fn read_records<R: Record>(j: &Json) -> (r: Result<Vec<R>, DecodeError>)
    ensures
        meets(r, list_of(j@, record_rule::<R>())),
{
    match j {
        Json::Array(items) => {
            proof {
                Json::array_view(*items);
            }
            let ghost all = items.deep_view();
            let mut records: Vec<R> = Vec::new();
            let mut i: usize = 0;
            assert(all.take(0) =~= Seq::<JsonView>::empty());
            assert(records.deep_view() =~= Seq::<R::V>::empty());
            while i < items.len()
                invariant
                    i <= items.len(),
                    all == items.deep_view(),
                    j@ == JsonView::Array(all),
                    all_of(all.take(i as int), record_rule::<R>()) == Ok::<
                        Seq<R::V>,
                        DecodeErrorView,
                    >(records.deep_view()),
                decreases items.len() - i,
            {
                proof {
                    all_of_step(all, record_rule::<R>(), i as int);
                }
                match from_json::<R>(&items[i]) {
                    Ok(record) => {
                        let ghost before = records.deep_view();
                        let ghost added = record.deep_view();
                        records.push(record);
                        assert(records.deep_view() =~= before.push(added));
                    },
                    Err(e) => {
                        proof {
                            all_of_prefix_fails(all, record_rule::<R>(), i as int + 1);
                        }
                        return Err(e.under(PathStep::Element(i)));
                    },
                }
                i += 1;
            }
            assert(all.take(i as int) =~= all);
            Ok(records)
        },
        _ => Err(DecodeError::type_mismatch()),
    }
}

/// The JSON array of a list of records.
pub fn write_records<R: Record>(records: &Vec<R>) -> (j: Json)
    ensures
        j@ == records_array::<R>(records.deep_view()),
{
    let mut items: Vec<Json> = Vec::new();
    let mut i: usize = 0;
    while i < records.len()
        invariant
            i <= records.len(),
            items.len() == i,
            forall|k: int|
                0 <= k < i ==> items@[k]@ == JsonView::Object(R::encoded(records@[k].deep_view())),
        decreases records.len() - i,
    {
        items.push(to_json(&records[i]));
        i += 1;
    }
    proof {
        Json::array_view(items);
        assert(items.deep_view() =~= records_array::<R>(records.deep_view())->Array_0);
    }
    Json::Array(items)
}

/// Reads an optional member that holds a record.
pub fn optional_record<R: Record>(members: &Members, name: &'static str) -> (r: Result<
    Option<R>,
    DecodeError,
>)
    ensures
        meets(r, optional_with(members.deep_view(), name@, record_rule::<R>())),
{
    match optional(members, name) {
        None => Ok(None),
        Some(j) => match from_json::<R>(j) {
            Ok(v) => Ok(Some(v)),
            Err(e) => Err(e.under(PathStep::Member(name))),
        },
    }
}

/// Reads an optional member that holds an array of records.
pub fn optional_records<R: Record>(members: &Members, name: &'static str) -> (r: Result<
    Option<Vec<R>>,
    DecodeError,
>)
    ensures
        meets(r, optional_with(members.deep_view(), name@, records_rule::<R>())),
{
    match optional(members, name) {
        None => Ok(None),
        Some(j) => match read_records::<R>(j) {
            Ok(v) => Ok(Some(v)),
            Err(e) => Err(e.under(PathStep::Member(name))),
        },
    }
}

/// Writes a member that holds a record, if there is a value.
pub fn put_record<R: Record>(out: &mut Members, name: &'static str, value: &Option<R>)
    ensures
        final(out).deep_view() == old(out).deep_view() + member_if(
            name@,
            record_json::<R>(value.deep_view()),
        ),
{
    match value {
        Some(record) => put(out, name, to_json(record)),
        None => {
            assert(out.deep_view() + Seq::<MemberView>::empty() =~= out.deep_view());
        },
    }
}

/// Writes a member that holds an array of records, if there is a value.
pub fn put_records<R: Record>(out: &mut Members, name: &'static str, value: &Option<Vec<R>>)
    ensures
        final(out).deep_view() == old(out).deep_view() + member_if(
            name@,
            records_json::<R>(value.deep_view()),
        ),
{
    match value {
        Some(records) => put(out, name, write_records(records)),
        None => {
            assert(out.deep_view() + Seq::<MemberView>::empty() =~= out.deep_view());
        },
    }
}

/// Whether the record of an optional member is valid, if there is one.
pub fn record_is_valid<R: Record>(record: &Option<R>) -> (b: bool)
    ensures
        b == valid_if::<R>(record.deep_view()),
{
    match record {
        Some(record) => record.is_valid(),
        None => true,
    }
}

/// Whether the records of an optional member are valid, if there are any.
pub fn records_are_valid<R: Record>(records: &Option<Vec<R>>) -> (b: bool)
    ensures
        b == all_valid::<R>(records.deep_view()),
{
    match records {
        Some(list) => {
            let mut i: usize = 0;
            while i < list.len()
                invariant
                    i <= list.len(),
                    records.deep_view() == Some(list.deep_view()),
                    forall|k: int| 0 <= k < i ==> R::valid(#[trigger] list.deep_view()[k]),
                decreases list.len() - i,
            {
                if !list[i].is_valid() {
                    assert(!R::valid(list.deep_view()[i as int]));
                    return false;
                }
                i += 1;
            }
            true
        },
        None => true,
    }
}

/// A record that is read from a JSON value is valid.
pub proof fn record_read_is_valid<R: Record>(j: JsonView)
    ensures
        record_of::<R>(j) matches Ok(record) ==> R::valid(record),
{
    if j is Object {
        R::decoded_is_valid(j->Object_0);
    }
}

/// A valid record is read back from its JSON object as it was.
pub proof fn record_written_is_read<R: Record>(record: R::V)
    requires
        R::valid(record),
    ensures
        record_of::<R>(JsonView::Object(R::encoded(record))) == Ok::<R::V, DecodeErrorView>(
            record,
        ),
{
    R::encoded_then_decoded(record);
}

/// The records of a list that is read are valid.
pub proof fn records_read_are_valid<R: Record>(j: JsonView)
    ensures
        list_of(j, record_rule::<R>()) matches Ok(records) ==> each_valid::<R>(records),
{
    if j is Array {
        assert forall|item: JsonView| #[trigger]
            read_by(record_rule::<R>(), item) is Ok implies valid_kind::<R>()(
            read_by(record_rule::<R>(), item)->Ok_0,
        ) by {
            record_read_is_valid::<R>(item);
        }
        all_of_kind(j->Array_0, record_rule::<R>(), valid_kind::<R>());
    }
}

/// A list of valid records is read back from its JSON array as it was.
pub proof fn records_written_are_read<R: Record>(records: Seq<R::V>)
    requires
        each_valid::<R>(records),
    ensures
        list_of(records_array::<R>(records), record_rule::<R>()) == Ok::<
            Seq<R::V>,
            DecodeErrorView,
        >(records),
{
    assert forall|i: int| 0 <= i < records.len() implies record_rule::<R>()(
        record_write::<R>()(#[trigger] records[i]),
    ) == Ok::<R::V, DecodeErrorView>(records[i]) by {
        record_written_is_read::<R>(records[i]);
    }
    all_of_written(records, record_write::<R>(), record_rule::<R>());
}

/// The record that an optional member is read as is valid.
pub proof fn optional_record_is_valid<R: Record>(members: MembersView, name: Seq<char>)
    ensures
        optional_with(members, name, record_rule::<R>()) matches Ok(record) ==> valid_if::<R>(
            record,
        ),
{
    if held(members, name) is Some {
        record_read_is_valid::<R>(held(members, name)->0);
    }
}

/// The records that an optional member is read as are valid.
pub proof fn optional_records_are_valid<R: Record>(members: MembersView, name: Seq<char>)
    ensures
        optional_with(members, name, records_rule::<R>()) matches Ok(records) ==> all_valid::<R>(
            records,
        ),
{
    if held(members, name) is Some {
        records_read_are_valid::<R>(held(members, name)->0);
    }
}

/// A valid record that a member holds as it is written is read as it was.
pub proof fn record_is_read<R: Record>(members: MembersView, name: Seq<char>, record: Option<R::V>)
    requires
        JsonView::lookup(members, name) == record_json::<R>(record),
        valid_if::<R>(record),
    ensures
        optional_with(members, name, record_rule::<R>()) == Ok::<Option<R::V>, DecodeErrorView>(
            record,
        ),
{
    if record is Some {
        record_written_is_read::<R>(record->0);
    }
}

/// A list of valid records that a member holds as it is written is read as
/// it was.
pub proof fn records_are_read<R: Record>(
    members: MembersView,
    name: Seq<char>,
    records: Option<Seq<R::V>>,
)
    requires
        JsonView::lookup(members, name) == records_json::<R>(records),
        all_valid::<R>(records),
    ensures
        optional_with(members, name, records_rule::<R>()) == Ok::<
            Option<Seq<R::V>>,
            DecodeErrorView,
        >(records),
{
    if records is Some {
        records_written_are_read::<R>(records->0);
    }
}

} // verus!

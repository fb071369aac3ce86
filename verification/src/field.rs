//! The members of a record: how each kind of member is read from a JSON
//! object and written to one.
//!
//! An optional member may be absent, or hold `null`: both mean that there is
//! no value. A member that is there must hold a value of its kind. A record
//! writes the members that have a value, in the order of its declaration,
//! and leaves the others out.

use crate::coded::{
    decode_json, value_read_is_well_formed, value_rule, value_written_is_read, Coded,
};
use crate::error::{meets, DecodeError, DecodeErrorView, PathStep, PathStepView};
use crate::item::{
    any_rule, copy_members_of, flag_rule, integer_rule, list_of, object_rule, objects_array,
    objects_rule, objects_written_are_read, read_flag, read_integer, read_object, read_objects,
    read_text, read_texts, text_rule, texts_array, texts_rule, texts_written_are_read,
    write_objects, write_texts,
};
use crate::json::{find, Json, JsonView, Member, MemberView, Members, MembersView};
use vstd::prelude::*;

verus! {

/// What an optional member holds: nothing where it is absent or `null`.
pub open spec fn held(members: MembersView, name: Seq<char>) -> Option<JsonView> {
    match JsonView::lookup(members, name) {
        Some(JsonView::Null) => None,
        other => other,
    }
}

/// An optional member, read by a rule: no value where the member holds
/// nothing, and a fault in what it holds seen from the record.
pub open spec fn optional_with<A>(
    members: MembersView,
    name: Seq<char>,
    rule: spec_fn(JsonView) -> Result<A, DecodeErrorView>,
) -> Result<Option<A>, DecodeErrorView> {
    match held(members, name) {
        None => Ok(None),
        Some(j) => match rule(j) {
            Ok(v) => Ok(Some(v)),
            Err(e) => Err(e.under(PathStepView::Member(name))),
        },
    }
}

/// A required member, read by a rule: an error where the member is absent,
/// and a fault in what it holds seen from the record.
pub open spec fn required_with<A>(
    members: MembersView,
    name: Seq<char>,
    rule: spec_fn(JsonView) -> Result<A, DecodeErrorView>,
) -> Result<A, DecodeErrorView> {
    match JsonView::lookup(members, name) {
        None => Err(
            DecodeErrorView::MissingRequiredField { path: seq![PathStepView::Member(name)] },
        ),
        Some(j) => match rule(j) {
            Ok(v) => Ok(v),
            Err(e) => Err(e.under(PathStepView::Member(name))),
        },
    }
}

/// A required sequence, read by a rule for its items: its own error where
/// the member is absent, and a fault in what it holds seen from the record.
pub open spec fn required_sequence_with<A>(
    members: MembersView,
    name: Seq<char>,
    rule: spec_fn(JsonView) -> Result<A, DecodeErrorView>,
) -> Result<Seq<A>, DecodeErrorView> {
    match JsonView::lookup(members, name) {
        None => Err(
            DecodeErrorView::EmptyRequiredSequence { path: seq![PathStepView::Member(name)] },
        ),
        Some(j) => match list_of(j, rule) {
            Ok(v) => Ok(v),
            Err(e) => Err(e.under(PathStepView::Member(name))),
        },
    }
}

/// The member that a record writes for a value: none where there is no
/// value.
pub open spec fn member_if(name: Seq<char>, value: Option<JsonView>) -> MembersView {
    match value {
        Some(value) => seq![MemberView { name, value }],
        None => Seq::empty(),
    }
}

/// The JSON value of a text.
pub open spec fn text_json(text: Option<Seq<char>>) -> Option<JsonView> {
    match text {
        Some(text) => Some(JsonView::Text(text)),
        None => None,
    }
}

/// The JSON value of a whole number.
pub open spec fn integer_json(n: Option<i32>) -> Option<JsonView> {
    match n {
        Some(n) => Some(JsonView::Integer(n as int)),
        None => None,
    }
}

/// The JSON value of a flag: 1 for yes, 0 for no.
pub open spec fn flag_json(flag: Option<bool>) -> Option<JsonView> {
    match flag {
        Some(flag) => Some(
            JsonView::Integer(
                if flag {
                    1
                } else {
                    0
                },
            ),
        ),
        None => None,
    }
}

/// The JSON value of a coded value.
pub open spec fn coded_json<T: Coded>(value: Option<T>) -> Option<JsonView> {
    match value {
        Some(value) => Some(JsonView::Integer(value.encoded())),
        None => None,
    }
}

/// The JSON value of a list of texts.
pub open spec fn texts_json(texts: Option<Seq<Seq<char>>>) -> Option<JsonView> {
    match texts {
        Some(texts) => Some(texts_array(texts)),
        None => None,
    }
}

/// The JSON value of an object.
pub open spec fn object_json(members: Option<MembersView>) -> Option<JsonView> {
    match members {
        Some(members) => Some(JsonView::Object(members)),
        None => None,
    }
}

/// The JSON value of a list of objects.
pub open spec fn objects_json(objects: Option<Seq<MembersView>>) -> Option<JsonView> {
    match objects {
        Some(objects) => Some(objects_array(objects)),
        None => None,
    }
}

/// Whether the coded value of an optional member is well formed, if there
/// is one.
pub open spec fn well_formed_if<T: Coded>(value: Option<T>) -> bool {
    match value {
        Some(v) => v.well_formed(),
        None => true,
    }
}

/// What an optional member holds: nothing where it is absent or `null`.
pub fn optional<'a>(members: &'a Members, name: &str) -> (r: Option<&'a Json>)
    ensures
        match r {
            Some(j) => held(members.deep_view(), name@) == Some(j@),
            None => held(members.deep_view(), name@) is None,
        },
{
    match find(members, name) {
        Some(Json::Null) => None,
        other => other,
    }
}

/// Reads an optional text member.
pub fn optional_text(members: &Members, name: &'static str) -> (r: Result<
    Option<String>,
    DecodeError,
>)
    ensures
        meets(r, optional_with(members.deep_view(), name@, text_rule())),
{
    match optional(members, name) {
        None => Ok(None),
        Some(j) => match read_text(j) {
            Ok(v) => Ok(Some(v)),
            Err(e) => Err(e.under(PathStep::Member(name))),
        },
    }
}

/// Reads a required text member.
pub fn required_text(members: &Members, name: &'static str) -> (r: Result<String, DecodeError>)
    ensures
        meets(r, required_with(members.deep_view(), name@, text_rule())),
{
    match find(members, name) {
        None => Err(DecodeError::missing(name)),
        Some(j) => match read_text(j) {
            Ok(v) => Ok(v),
            Err(e) => Err(e.under(PathStep::Member(name))),
        },
    }
}

/// Reads an optional member that holds a whole number.
pub fn optional_integer(members: &Members, name: &'static str) -> (r: Result<
    Option<i32>,
    DecodeError,
>)
    ensures
        meets(r, optional_with(members.deep_view(), name@, integer_rule())),
{
    match optional(members, name) {
        None => Ok(None),
        Some(j) => match read_integer(j) {
            Ok(v) => Ok(Some(v)),
            Err(e) => Err(e.under(PathStep::Member(name))),
        },
    }
}

/// Reads an optional member that holds a flag.
pub fn optional_flag(members: &Members, name: &'static str) -> (r: Result<
    Option<bool>,
    DecodeError,
>)
    ensures
        meets(r, optional_with(members.deep_view(), name@, flag_rule())),
{
    match optional(members, name) {
        None => Ok(None),
        Some(j) => match read_flag(j) {
            Ok(v) => Ok(Some(v)),
            Err(e) => Err(e.under(PathStep::Member(name))),
        },
    }
}

/// Reads an optional member that holds a coded value.
pub fn optional_coded<T: Coded>(members: &Members, name: &'static str) -> (r: Result<
    Option<T>,
    DecodeError,
>)
    ensures
        match r {
            Ok(v) => optional_with(members.deep_view(), name@, value_rule::<T>()) == Ok::<
                Option<T>,
                DecodeErrorView,
            >(v),
            Err(e) => optional_with(members.deep_view(), name@, value_rule::<T>()) == Err::<
                Option<T>,
                DecodeErrorView,
            >(e@),
        },
{
    match optional(members, name) {
        None => Ok(None),
        Some(j) => match decode_json::<T>(j) {
            Ok(v) => Ok(Some(v)),
            Err(e) => Err(e.under(PathStep::Member(name))),
        },
    }
}

/// Reads an optional member that holds an array of texts.
pub fn optional_texts(members: &Members, name: &'static str) -> (r: Result<
    Option<Vec<String>>,
    DecodeError,
>)
    ensures
        meets(r, optional_with(members.deep_view(), name@, texts_rule())),
{
    match optional(members, name) {
        None => Ok(None),
        Some(j) => match read_texts(j) {
            Ok(v) => Ok(Some(v)),
            Err(e) => Err(e.under(PathStep::Member(name))),
        },
    }
}

/// Reads an optional member that holds an object.
pub fn optional_object(members: &Members, name: &'static str) -> (r: Result<
    Option<Members>,
    DecodeError,
>)
    ensures
        meets(r, optional_with(members.deep_view(), name@, object_rule())),
{
    match optional(members, name) {
        None => Ok(None),
        Some(j) => match read_object(j) {
            Ok(v) => Ok(Some(v)),
            Err(e) => Err(e.under(PathStep::Member(name))),
        },
    }
}

/// Reads an optional member that holds an array of objects.
pub fn optional_objects(members: &Members, name: &'static str) -> (r: Result<
    Option<Vec<Members>>,
    DecodeError,
>)
    ensures
        meets(r, optional_with(members.deep_view(), name@, objects_rule())),
{
    match optional(members, name) {
        None => Ok(None),
        Some(j) => match read_objects(j) {
            Ok(v) => Ok(Some(v)),
            Err(e) => Err(e.under(PathStep::Member(name))),
        },
    }
}

/// Reads a required member that holds an array of objects.
pub fn required_objects(members: &Members, name: &'static str) -> (r: Result<
    Vec<Members>,
    DecodeError,
>)
    ensures
        meets(r, required_sequence_with(members.deep_view(), name@, object_rule())),
{
    match find(members, name) {
        None => Err(DecodeError::missing_sequence(name)),
        Some(j) => match read_objects(j) {
            Ok(v) => Ok(v),
            Err(e) => Err(e.under(PathStep::Member(name))),
        },
    }
}

/// Reads an optional member that may hold any JSON value.
pub fn optional_json(members: &Members, name: &'static str) -> (r: Result<
    Option<Json>,
    DecodeError,
>)
    ensures
        meets(r, optional_with(members.deep_view(), name@, any_rule())),
{
    match optional(members, name) {
        None => Ok(None),
        Some(j) => Ok(Some(j.clone())),
    }
}

/// Writes a member.
pub fn put(out: &mut Members, name: &'static str, value: Json)
    ensures
        final(out).deep_view() == old(out).deep_view() + member_if(name@, Some(value@)),
{
    let ghost before = out.deep_view();
    out.push(Member { name: String::from_str(name), value });
    assert(out.deep_view() =~= before + member_if(name@, Some(value@)));
}

/// Writes a text member, if there is a value.
pub fn put_text(out: &mut Members, name: &'static str, value: &Option<String>)
    ensures
        final(out).deep_view() == old(out).deep_view() + member_if(
            name@,
            text_json(value.deep_view()),
        ),
{
    match value {
        Some(text) => put(out, name, Json::Text(text.clone())),
        None => {
            assert(out.deep_view() + Seq::<MemberView>::empty() =~= out.deep_view());
        },
    }
}

/// Writes a member that holds a whole number, if there is a value.
pub fn put_integer(out: &mut Members, name: &'static str, value: &Option<i32>)
    ensures
        final(out).deep_view() == old(out).deep_view() + member_if(name@, integer_json(*value)),
{
    match value {
        Some(n) => put(out, name, Json::Integer(*n as i64)),
        None => {
            assert(out.deep_view() + Seq::<MemberView>::empty() =~= out.deep_view());
        },
    }
}

/// Writes a member that holds a flag, if there is a value.
pub fn put_flag(out: &mut Members, name: &'static str, value: &Option<bool>)
    ensures
        final(out).deep_view() == old(out).deep_view() + member_if(name@, flag_json(*value)),
{
    match value {
        Some(flag) => {
            let n: i64 = if *flag {
                1
            } else {
                0
            };
            put(out, name, Json::Integer(n))
        },
        None => {
            assert(out.deep_view() + Seq::<MemberView>::empty() =~= out.deep_view());
        },
    }
}

/// Writes a member that holds a coded value, if there is a value.
pub fn put_coded<T: Coded>(out: &mut Members, name: &'static str, value: &Option<T>)
    ensures
        final(out).deep_view() == old(out).deep_view() + member_if(name@, coded_json(*value)),
{
    match value {
        Some(v) => put(out, name, Json::Integer(v.encode() as i64)),
        None => {
            assert(out.deep_view() + Seq::<MemberView>::empty() =~= out.deep_view());
        },
    }
}

/// Writes a member that holds an array of texts, if there is a value.
pub fn put_texts(out: &mut Members, name: &'static str, value: &Option<Vec<String>>)
    ensures
        final(out).deep_view() == old(out).deep_view() + member_if(
            name@,
            texts_json(value.deep_view()),
        ),
{
    match value {
        Some(texts) => put(out, name, write_texts(texts)),
        None => {
            assert(out.deep_view() + Seq::<MemberView>::empty() =~= out.deep_view());
        },
    }
}

/// Writes a member that holds an object, if there is a value.
pub fn put_object(out: &mut Members, name: &'static str, value: &Option<Members>)
    ensures
        final(out).deep_view() == old(out).deep_view() + member_if(
            name@,
            object_json(value.deep_view()),
        ),
{
    match value {
        Some(members) => put(out, name, copy_members_of(members)),
        None => {
            assert(out.deep_view() + Seq::<MemberView>::empty() =~= out.deep_view());
        },
    }
}

/// Writes a member that holds an array of objects, if there is a value.
pub fn put_objects(out: &mut Members, name: &'static str, value: &Option<Vec<Members>>)
    ensures
        final(out).deep_view() == old(out).deep_view() + member_if(
            name@,
            objects_json(value.deep_view()),
        ),
{
    match value {
        Some(objects) => put(out, name, write_objects(objects)),
        None => {
            assert(out.deep_view() + Seq::<MemberView>::empty() =~= out.deep_view());
        },
    }
}

/// Writes a member that may hold any JSON value, if there is a value.
pub fn put_json(out: &mut Members, name: &'static str, value: &Option<Json>)
    ensures
        final(out).deep_view() == old(out).deep_view() + member_if(name@, value.deep_view()),
{
    match value {
        Some(j) => put(out, name, j.clone()),
        None => {
            assert(out.deep_view() + Seq::<MemberView>::empty() =~= out.deep_view());
        },
    }
}

/// Whether the coded value of an optional member is well formed, if there
/// is one.
pub fn coded_is_well_formed<T: Coded>(value: &Option<T>) -> (b: bool)
    ensures
        b == well_formed_if(*value),
{
    match value {
        Some(v) => v.is_well_formed(),
        None => true,
    }
}

/// Whether an optional member that may hold any JSON value holds one that
/// can be written and read back: `null` stands for no value.
pub fn json_is_held(value: &Option<Json>) -> (b: bool)
    ensures
        b == (value.deep_view() != Some(JsonView::Null)),
{
    match value {
        Some(Json::Null) => false,
        _ => true,
    }
}

/// Among the members that a predicate keeps, an optional member is read as
/// among all of them, where the predicate keeps every member of its name.
pub proof fn optional_with_among<A>(
    members: MembersView,
    keep: spec_fn(MemberView) -> bool,
    name: Seq<char>,
    rule: spec_fn(JsonView) -> Result<A, DecodeErrorView>,
)
    requires
        forall|m: MemberView| m.name == name ==> #[trigger] keep(m),
    ensures
        optional_with(members.filter(keep), name, rule) == optional_with(members, name, rule),
{
    JsonView::lookup_among(members, keep, name);
}

/// Among the members that a predicate keeps, a required member is read as
/// among all of them, where the predicate keeps every member of its name.
pub proof fn required_with_among<A>(
    members: MembersView,
    keep: spec_fn(MemberView) -> bool,
    name: Seq<char>,
    rule: spec_fn(JsonView) -> Result<A, DecodeErrorView>,
)
    requires
        forall|m: MemberView| m.name == name ==> #[trigger] keep(m),
    ensures
        required_with(members.filter(keep), name, rule) == required_with(members, name, rule),
{
    JsonView::lookup_among(members, keep, name);
}

/// Among the members that a predicate keeps, a required sequence is read as
/// among all of them, where the predicate keeps every member of its name.
pub proof fn required_sequence_with_among<A>(
    members: MembersView,
    keep: spec_fn(MemberView) -> bool,
    name: Seq<char>,
    rule: spec_fn(JsonView) -> Result<A, DecodeErrorView>,
)
    requires
        forall|m: MemberView| m.name == name ==> #[trigger] keep(m),
    ensures
        required_sequence_with(members.filter(keep), name, rule) == required_sequence_with(
            members,
            name,
            rule,
        ),
{
    JsonView::lookup_among(members, keep, name);
}

/// The coded value that an optional member is read as is well formed.
pub proof fn optional_coded_is_well_formed<T: Coded>(members: MembersView, name: Seq<char>)
    ensures
        optional_with(members, name, value_rule::<T>()) matches Ok(v) ==> well_formed_if(v),
{
    if held(members, name) is Some {
        value_read_is_well_formed::<T>(held(members, name)->0);
    }
}

/// What a list of at most one member holds under a name.
pub proof fn lookup_in_one(written: Seq<char>, value: Option<JsonView>, name: Seq<char>)
    ensures
        JsonView::lookup(member_if(written, value), name) == if written == name {
            value
        } else {
            None
        },
{
    reveal_with_fuel(JsonView::lookup, 2);
    if value is Some {
        assert(member_if(written, value).drop_first() =~= Seq::<MemberView>::empty());
    }
}

/// What a record writes: for each of its members in turn, the name and the
/// value that is written under it, if there is one.
pub enum Written {
    Nothing,
    After(Box<Written>, Seq<char>, Option<JsonView>),
}

impl Written {
    /// The same, and one member more.
    pub open spec fn and(self, name: Seq<char>, value: Option<JsonView>) -> Written {
        Written::After(Box::new(self), name, value)
    }

    /// The members that are written: those that have a value, in their order.
    pub open spec fn members(self) -> MembersView
        decreases self,
    {
        match self {
            Written::Nothing => Seq::empty(),
            Written::After(before, name, value) => before.members() + member_if(name, value),
        }
    }

    /// Whether a name is that of one of the members.
    pub open spec fn names(self, name: Seq<char>) -> bool
        decreases self,
    {
        match self {
            Written::Nothing => false,
            Written::After(before, own, _) => own == name || before.names(name),
        }
    }

    /// Whether no two of the members have one name.
    pub open spec fn distinct(self) -> bool
        decreases self,
    {
        match self {
            Written::Nothing => true,
            Written::After(before, name, _) => !before.names(name) && before.distinct(),
        }
    }

    /// Whether a list of members holds, under the name of each member, the
    /// value that is written for it, and nothing where none is.
    pub open spec fn found_in(self, members: MembersView) -> bool
        decreases self,
    {
        match self {
            Written::Nothing => true,
            Written::After(before, name, value) => JsonView::lookup(members, name) == value
                && before.found_in(members),
        }
    }

    /// Under a name that is none of theirs, the members hold nothing.
    pub proof fn not_named_not_held(self, name: Seq<char>)
        requires
            !self.names(name),
        ensures
            JsonView::lookup(self.members(), name) is None,
        decreases self,
    {
        match self {
            Written::Nothing => {
                reveal_with_fuel(JsonView::lookup, 1);
            },
            Written::After(before, own, value) => {
                before.not_named_not_held(name);
                lookup_in_one(own, value, name);
                JsonView::lookup_in_both(before.members(), member_if(own, value), name);
            },
        }
    }

    /// What is found in a list of members is found in it still when a member
    /// under another name is written after it.
    pub proof fn found_in_longer(
        self,
        members: MembersView,
        name: Seq<char>,
        value: Option<JsonView>,
    )
        requires
            self.found_in(members),
            !self.names(name),
        ensures
            self.found_in(members + member_if(name, value)),
        decreases self,
    {
        match self {
            Written::Nothing => {},
            Written::After(before, own, _) => {
                before.found_in_longer(members, name, value);
                lookup_in_one(name, value, own);
                JsonView::lookup_in_both(members, member_if(name, value), own);
            },
        }
    }

    /// Where no two members have one name, the members that are written hold
    /// under each name the value that is written for it, and nothing where
    /// none is.
    pub proof fn members_hold_each(self)
        requires
            self.distinct(),
        ensures
            self.found_in(self.members()),
        decreases self,
    {
        match self {
            Written::Nothing => {},
            Written::After(before, name, value) => {
                before.members_hold_each();
                before.found_in_longer(before.members(), name, value);
                before.not_named_not_held(name);
                lookup_in_one(name, value, name);
                JsonView::lookup_in_both(before.members(), member_if(name, value), name);
            },
        }
    }
}

/// A text that a member holds as it is written is read as it was.
pub proof fn text_is_read(members: MembersView, name: Seq<char>, text: Option<Seq<char>>)
    requires
        JsonView::lookup(members, name) == text_json(text),
    ensures
        optional_with(members, name, text_rule()) == Ok::<Option<Seq<char>>, DecodeErrorView>(text),
{
}

/// A whole number that a member holds as it is written is read as it was.
pub proof fn integer_is_read(members: MembersView, name: Seq<char>, n: Option<i32>)
    requires
        JsonView::lookup(members, name) == integer_json(n),
    ensures
        optional_with(members, name, integer_rule()) == Ok::<Option<i32>, DecodeErrorView>(n),
{
}

/// A flag that a member holds as it is written is read as it was.
pub proof fn flag_is_read(members: MembersView, name: Seq<char>, flag: Option<bool>)
    requires
        JsonView::lookup(members, name) == flag_json(flag),
    ensures
        optional_with(members, name, flag_rule()) == Ok::<Option<bool>, DecodeErrorView>(flag),
{
}

/// A well-formed coded value that a member holds as it is written is read as
/// it was.
pub proof fn coded_is_read<T: Coded>(members: MembersView, name: Seq<char>, value: Option<T>)
    requires
        JsonView::lookup(members, name) == coded_json(value),
        well_formed_if(value),
    ensures
        optional_with(members, name, value_rule::<T>()) == Ok::<Option<T>, DecodeErrorView>(value),
{
    if value is Some {
        value_written_is_read::<T>(value->0);
    }
}

/// A list of texts that a member holds as it is written is read as it was.
pub proof fn texts_are_read(members: MembersView, name: Seq<char>, texts: Option<Seq<Seq<char>>>)
    requires
        JsonView::lookup(members, name) == texts_json(texts),
    ensures
        optional_with(members, name, texts_rule()) == Ok::<
            Option<Seq<Seq<char>>>,
            DecodeErrorView,
        >(texts),
{
    if texts is Some {
        texts_written_are_read(texts->0);
    }
}

/// An object that a member holds as it is written is read as it was.
pub proof fn object_is_read(members: MembersView, name: Seq<char>, object: Option<MembersView>)
    requires
        JsonView::lookup(members, name) == object_json(object),
    ensures
        optional_with(members, name, object_rule()) == Ok::<Option<MembersView>, DecodeErrorView>(
            object,
        ),
{
}

/// A list of objects that a member holds as it is written is read as it was.
pub proof fn objects_are_read(
    members: MembersView,
    name: Seq<char>,
    objects: Option<Seq<MembersView>>,
)
    requires
        JsonView::lookup(members, name) == objects_json(objects),
    ensures
        optional_with(members, name, objects_rule()) == Ok::<
            Option<Seq<MembersView>>,
            DecodeErrorView,
        >(objects),
{
    if objects is Some {
        objects_written_are_read(objects->0);
    }
}

/// A JSON value other than `null` that a member holds is read as it is.
pub proof fn json_is_read(members: MembersView, name: Seq<char>, value: Option<JsonView>)
    requires
        JsonView::lookup(members, name) == value,
        value != Some(JsonView::Null),
    ensures
        optional_with(members, name, any_rule()) == Ok::<Option<JsonView>, DecodeErrorView>(value),
{
}

/// A required text that a member holds as it is written is read as it was.
pub proof fn required_text_is_read(members: MembersView, name: Seq<char>, text: Seq<char>)
    requires
        JsonView::lookup(members, name) == Some(JsonView::Text(text)),
    ensures
        required_with(members, name, text_rule()) == Ok::<Seq<char>, DecodeErrorView>(text),
{
}

/// A required list of objects that a member holds as it is written is read
/// as it was.
pub proof fn required_objects_are_read(
    members: MembersView,
    name: Seq<char>,
    objects: Seq<MembersView>,
)
    requires
        JsonView::lookup(members, name) == Some(objects_array(objects)),
    ensures
        required_sequence_with(members, name, object_rule()) == Ok::<
            Seq<MembersView>,
            DecodeErrorView,
        >(objects),
{
    objects_written_are_read(objects);
}

} // verus!

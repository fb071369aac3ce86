//! JSON values as this library holds them.

use vstd::prelude::*;

verus! {

/// A JSON value.
///
/// A number is an `Integer` where it is a whole number in the range of
/// `i64`, and a `Decimal`, in its JSON notation, where it is not.
/// The members of an object keep their order.
#[derive(Debug, PartialEq, Eq)]
pub enum Json {
    Null,
    Bool(bool),
    Integer(i64),
    Decimal(String),
    Text(String),
    Array(Vec<Json>),
    Object(Members),
}

/// A member of an object: a name and what it holds.
#[derive(Debug, PartialEq, Eq)]
pub struct Member {
    pub name: String,
    pub value: Json,
}

/// The mathematical value of a [`Json`].
pub enum JsonView {
    Null,
    Bool(bool),
    Integer(int),
    Decimal(Seq<char>),
    Text(Seq<char>),
    Array(Seq<JsonView>),
    Object(Seq<MemberView>),
}

/// The mathematical value of a [`Member`].
pub struct MemberView {
    pub name: Seq<char>,
    pub value: JsonView,
}

/// The members of an object, in their order.
pub type Members = Vec<Member>;

/// The mathematical value of the members of an object.
pub type MembersView = Seq<MemberView>;

impl View for Json {
    type V = JsonView;

    open spec fn view(&self) -> JsonView
        decreases self,
    {
        match self {
            Json::Null => JsonView::Null,
            Json::Bool(b) => JsonView::Bool(*b),
            Json::Integer(n) => JsonView::Integer(*n as int),
            Json::Decimal(notation) => JsonView::Decimal(notation@),
            Json::Text(text) => JsonView::Text(text@),
            Json::Array(items) => JsonView::Array(
                Seq::new(
                    items@.len(),
                    |i: int|
                        if 0 <= i < items@.len() {
                            items@[i]@
                        } else {
                            JsonView::Null
                        },
                ),
            ),
            Json::Object(members) => JsonView::Object(
                Seq::new(
                    members@.len(),
                    |i: int|
                        if 0 <= i < members@.len() {
                            MemberView { name: members@[i].name@, value: members@[i].value@ }
                        } else {
                            MemberView { name: Seq::empty(), value: JsonView::Null }
                        },
                ),
            ),
        }
    }
}

impl View for Member {
    type V = MemberView;

    open spec fn view(&self) -> MemberView {
        MemberView { name: self.name@, value: self.value@ }
    }
}

impl DeepView for Member {
    type V = MemberView;

    open spec fn deep_view(&self) -> MemberView {
        self@
    }
}

impl DeepView for Json {
    type V = JsonView;

    open spec fn deep_view(&self) -> JsonView {
        self@
    }
}

impl Json {
    /// The value of an array is the sequence of the values of its items.
    pub proof fn array_view(items: Vec<Json>)
        ensures
            Json::Array(items)@ == JsonView::Array(items.deep_view()),
    {
        assert(Json::Array(items)@->Array_0 =~= items.deep_view());
    }

    /// The value of an object is the sequence of its members, each as its name
    /// and the value of what it holds.
    pub proof fn object_view(members: Members)
        ensures
            Json::Object(members)@ == JsonView::Object(members.deep_view()),
    {
        assert(Json::Object(members)@->Object_0 =~= members.deep_view());
    }
}

impl JsonView {
    /// What the first member with this name holds.
    #[verifier::opaque]
    pub open spec fn lookup(members: MembersView, name: Seq<char>) -> Option<JsonView>
        decreases members.len(),
    {
        if members.len() == 0 {
            None
        } else if members[0].name == name {
            Some(members[0].value)
        } else {
            Self::lookup(members.drop_first(), name)
        }
    }

    /// Members before the first one with the name looked for do not count.
    pub proof fn lookup_skips(members: MembersView, name: Seq<char>, k: int)
        requires
            0 <= k <= members.len(),
            forall|i: int| 0 <= i < k ==> members[i].name != name,
        ensures
            Self::lookup(members, name) == Self::lookup(members.skip(k), name),
        decreases k,
    {
        reveal_with_fuel(JsonView::lookup, 2);
        if k == 0 {
            assert(members.skip(0) =~= members);
        } else {
            Self::lookup_skips(members.drop_first(), name, k - 1);
            assert(members.drop_first().skip(k - 1) =~= members.skip(k));
        }
    }

    /// Looking a name up among the members that a predicate keeps gives what
    /// looking it up among all of them gives, where the predicate keeps every
    /// member of that name.
    pub proof fn lookup_among(
        members: MembersView,
        keep: spec_fn(MemberView) -> bool,
        name: Seq<char>,
    )
        requires
            forall|m: MemberView| m.name == name ==> #[trigger] keep(m),
        ensures
            Self::lookup(members.filter(keep), name) == Self::lookup(members, name),
        decreases members.len(),
    {
        reveal_with_fuel(Seq::filter, 2);
        reveal_with_fuel(JsonView::lookup, 2);
        if members.len() == 0 {
        } else {
            let first = members[0];
            let rest = members.drop_first();
            assert(members =~= seq![first] + rest);
            Seq::filter_distributes_over_add(seq![first], rest, keep);
            assert(seq![first].drop_last() =~= Seq::<MemberView>::empty());
            Self::lookup_among(rest, keep, name);
            if keep(first) {
                assert(seq![first].filter(keep) =~= seq![first]);
                assert((seq![first] + rest.filter(keep)).drop_first() =~= rest.filter(keep));
            } else {
                assert(seq![first].filter(keep) =~= Seq::<MemberView>::empty());
                assert(Seq::<MemberView>::empty() + rest.filter(keep) =~= rest.filter(keep));
            }
        }
    }

    /// Looking a name up in two lists, one after the other: what the first
    /// list holds under the name, else what the second holds.
    pub proof fn lookup_in_both(first: MembersView, second: MembersView, name: Seq<char>)
        ensures
            Self::lookup(first + second, name) == match Self::lookup(first, name) {
                Some(found) => Some(found),
                None => Self::lookup(second, name),
            },
        decreases first.len(),
    {
        reveal_with_fuel(JsonView::lookup, 2);
        if first.len() == 0 {
            assert(first + second =~= second);
        } else {
            assert((first + second).drop_first() =~= first.drop_first() + second);
            Self::lookup_in_both(first.drop_first(), second, name);
        }
    }
}

/// The member of an object with this name: the first one, where several
/// have it.
pub fn find<'a>(members: &'a Members, name: &str) -> (r: Option<&'a Json>)
    ensures
        match r {
            Some(j) => JsonView::lookup(members.deep_view(), name@) == Some(j@),
            None => JsonView::lookup(members.deep_view(), name@) is None,
        },
{
    let wanted = String::from_str(name);
    let ghost all = members.deep_view();
    let mut i: usize = 0;
    while i < members.len()
        invariant
            i <= members.len(),
            all == members.deep_view(),
            wanted@ == name@,
            forall|k: int| 0 <= k < i ==> all[k].name != name@,
        decreases members.len() - i,
    {
        if members[i].name == wanted {
            proof {
                reveal_with_fuel(JsonView::lookup, 2);
                JsonView::lookup_skips(all, name@, i as int);
            }
            return Some(&members[i].value);
        }
        i += 1;
    }
    proof {
        reveal_with_fuel(JsonView::lookup, 2);
        JsonView::lookup_skips(all, name@, i as int);
    }
    None
}

impl Clone for Member {
    /// A copy that holds the same value.
    fn clone(&self) -> (r: Member)
        ensures
            r@ == self@,
    {
        Member { name: self.name.clone(), value: self.value.clone() }
    }
}

impl Clone for Json {
    /// A copy that holds the same value.
    #[verifier::loop_isolation(false)]
    fn clone(&self) -> (r: Json)
        ensures
            r@ == self@,
        decreases self,
    {
        match self {
            Json::Null => Json::Null,
            Json::Bool(b) => Json::Bool(*b),
            Json::Integer(n) => Json::Integer(*n),
            Json::Decimal(notation) => Json::Decimal(notation.clone()),
            Json::Text(text) => Json::Text(text.clone()),
            Json::Array(items) => {
                let mut copies: Vec<Json> = Vec::new();
                let mut i: usize = 0;
                while i < items.len()
                    invariant
                        i <= items.len(),
                        copies.len() == i,
                        forall|k: int| 0 <= k < i ==> copies@[k]@ == items@[k]@,
                    decreases items.len() - i,
                {
                    copies.push(items[i].clone());
                    i += 1;
                }
                let r = Json::Array(copies);
                assert(r@->Array_0 =~= self@->Array_0);
                r
            },
            Json::Object(members) => {
                let mut copies: Vec<Member> = Vec::new();
                let mut i: usize = 0;
                while i < members.len()
                    invariant
                        i <= members.len(),
                        copies.len() == i,
                        forall|k: int|
                            0 <= k < i ==> copies@[k].name@ == members@[k].name@
                                && copies@[k].value@ == members@[k].value@,
                    decreases members.len() - i,
                {
                    copies.push(
                        Member { name: members[i].name.clone(), value: members[i].value.clone() },
                    );
                    i += 1;
                }
                let r = Json::Object(copies);
                assert(r@->Object_0 =~= self@->Object_0);
                r
            },
        }
    }
}

} // verus!

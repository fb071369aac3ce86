//! The private marketplace of an impression.

use crate::error::{DecodeError, DecodeErrorView};
use crate::field::{
    flag_is_read, flag_json, object_is_read, object_json, objects_are_read, objects_json,
    optional_flag, optional_object, optional_objects, optional_with, optional_with_among,
    put_flag, put_object, put_objects, Written,
};
use crate::item::{flag_rule, object_rule, objects_rule};
use crate::json::{JsonView, Members, MembersView, MemberView};
use crate::record::Record;
use vstd::prelude::*;

verus! {

/// This object is the private marketplace container for direct deals between
/// buyers and sellers that may pertain to this impression. The actual deals
/// are represented as a collection of Deal objects.
#[derive(Debug, PartialEq, Clone)]
pub struct Pmp {
    /// integer; default 0.
    /// Indicator of auction eligibility to seats named in the Direct Deals
    /// object, where 0 = all bids are accepted, 1 = bids are restricted to the
    /// deals specified and the terms thereof.
    pub private_auction: Option<bool>,
    /// object array.
    /// Array of Deal objects that convey the specific deals applicable to this
    /// impression.
    pub deals: Option<Vec<Members>>,
    /// object.
    /// Placeholder for exchange-specific extensions to OpenRTB.
    pub ext: Option<Members>,
}

/// The mathematical value of a [`Pmp`].
pub struct PmpView {
    pub private_auction: Option<bool>,
    pub deals: Option<Seq<MembersView>>,
    pub ext: Option<MembersView>,
}

impl View for Pmp {
    type V = PmpView;

    open spec fn view(&self) -> PmpView {
        PmpView {
            private_auction: self.private_auction,
            deals: self.deals.deep_view(),
            ext: self.ext.deep_view(),
        }
    }
}

impl DeepView for Pmp {
    type V = PmpView;

    open spec fn deep_view(&self) -> PmpView {
        self@
    }
}

impl PmpView {
    /// Whether no optional member has a value.
    pub open spec fn bare(self) -> bool {
        &&& self.private_auction is None
        &&& self.deals is None
        &&& self.ext is None
    }
}

impl Default for Pmp {
    /// The private marketplace of which no member has a value.
    fn default() -> (r: Pmp)
        ensures
            r@.bare(),
    {
        Pmp {
            private_auction: None,
            deals: None,
            ext: None,
        }
    }
}

impl Pmp {
    /// Whether a member of this name belongs to the record.
    pub open spec fn knows(name: Seq<char>) -> bool {
        name == "private_auction"@ || name == "deals"@ || name == "ext"@
    }

    /// Whether a member belongs to the record.
    pub open spec fn known() -> spec_fn(MemberView) -> bool {
        |m: MemberView| Self::knows(m.name)
    }

    /// What the record writes: its members, in the order of their declaration.
    pub open spec fn written(record: PmpView) -> Written {
        Written::Nothing
            .and("private_auction"@, flag_json(record.private_auction))
            .and("deals"@, objects_json(record.deals))
            .and("ext"@, object_json(record.ext))
    }

    /// What is read from the members of an object is what is read from those
    /// among them that the record knows: the others are discarded, wherever
    /// they stand and whatever they hold.
    pub proof fn unknown_members_are_discarded(members: MembersView)
        ensures
            Self::decoded(members.filter(Self::known())) == Self::decoded(members),
    {
        optional_with_among(members, Self::known(), "private_auction"@, flag_rule());
        optional_with_among(members, Self::known(), "deals"@, objects_rule());
        optional_with_among(members, Self::known(), "ext"@, object_rule());
    }

    /// A record of which no optional member has a value is written as the
    /// empty object.
    pub proof fn absent_members_are_omitted(record: PmpView)
        requires
            record.bare(),
        ensures
            Self::encoded(record) == Seq::<MemberView>::empty(),
    {
        reveal_with_fuel(Written::members, 4);
        assert(Self::encoded(record) =~= Seq::<MemberView>::empty());
    }

    /// No two members of the record have one name.
    pub proof fn names_are_distinct(record: PmpView)
        ensures
            Self::written(record).distinct(),
    {
        reveal_strlit("private_auction");
        reveal_strlit("deals");
        reveal_strlit("ext");
        assert("private_auction"@.len() == 15);
        assert("deals"@.len() == 5);
        assert("ext"@.len() == 3);
        reveal_with_fuel(Written::names, 4);
        reveal_with_fuel(Written::distinct, 4);
    }

    /// Under each name that the record knows, the members it is written as
    /// hold the value of that member, and nothing where the member has no
    /// value.
    pub proof fn written_members(record: PmpView)
        ensures
            JsonView::lookup(Self::encoded(record), "private_auction"@)
                == flag_json(record.private_auction),
            JsonView::lookup(Self::encoded(record), "deals"@) == objects_json(record.deals),
            JsonView::lookup(Self::encoded(record), "ext"@) == object_json(record.ext),
    {
        Self::names_are_distinct(record);
        Self::written(record).members_hold_each();
        reveal_with_fuel(Written::found_in, 4);
    }

    /// Members that hold, under each name that the record knows, what a valid
    /// record is written as there, are read as that record.
    pub proof fn read_from_written(members: MembersView, record: PmpView)
        requires
            Self::valid(record),
            JsonView::lookup(members, "private_auction"@) == flag_json(record.private_auction),
            JsonView::lookup(members, "deals"@) == objects_json(record.deals),
            JsonView::lookup(members, "ext"@) == object_json(record.ext),
        ensures
            Self::decoded(members) == Ok::<PmpView, DecodeErrorView>(record),
    {
        flag_is_read(members, "private_auction"@, record.private_auction);
        objects_are_read(members, "deals"@, record.deals);
        object_is_read(members, "ext"@, record.ext);
    }
}

impl Record for Pmp {
    open spec fn decoded(members: MembersView) -> Result<PmpView, DecodeErrorView> {
        let private_auction = optional_with(members, "private_auction"@, flag_rule());
        let deals = optional_with(members, "deals"@, objects_rule());
        let ext = optional_with(members, "ext"@, object_rule());
        if private_auction is Err {
            Err(private_auction->Err_0)
        } else if deals is Err {
            Err(deals->Err_0)
        } else if ext is Err {
            Err(ext->Err_0)
        } else {
            Ok(
                PmpView {
                    private_auction: private_auction->Ok_0,
                    deals: deals->Ok_0,
                    ext: ext->Ok_0,
                },
            )
        }
    }

    open spec fn encoded(record: PmpView) -> MembersView {
        Self::written(record).members()
    }

    open spec fn valid(record: PmpView) -> bool {
        true
    }

    proof fn decoded_is_valid(members: MembersView) {
    }

    proof fn encoded_then_decoded(record: PmpView) {
        Self::written_members(record);
        Self::read_from_written(Self::encoded(record), record);
    }

    fn decode(members: &Members) -> (r: Result<Pmp, DecodeError>) {
        let private_auction = optional_flag(members, "private_auction")?;
        let deals = optional_objects(members, "deals")?;
        let ext = optional_object(members, "ext")?;
        Ok(
            Pmp {
                private_auction,
                deals,
                ext,
            },
        )
    }

    fn encode(&self) -> (members: Members) {
        let mut members: Members = Vec::new();
        put_flag(&mut members, "private_auction", &self.private_auction);
        put_objects(&mut members, "deals", &self.deals);
        put_object(&mut members, "ext", &self.ext);
        proof {
            reveal_with_fuel(Written::members, 4);
        }
        members
    }

    fn is_valid(&self) -> (b: bool) {
        true
    }
}

} // verus!

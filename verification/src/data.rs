//! Additional data about a user or about content.

use crate::error::{DecodeError, DecodeErrorView};
use crate::field::{
    object_is_read, object_json, objects_are_read, objects_json, optional_object,
    optional_objects, optional_text, optional_with, optional_with_among, put_object,
    put_objects, put_text, text_is_read, text_json, Written,
};
use crate::item::{object_rule, objects_rule, text_rule};
use crate::json::{JsonView, Members, MembersView, MemberView};
use crate::record::Record;
use vstd::prelude::*;

verus! {

/// The data and segment objects together allow additional data about the
/// related object (e.g., user, content) to be specified. This data may be
/// from multiple sources whether from the exchange itself or third parties as
/// specified by the id field. A bid request can mix data objects from
/// multiple providers. The specific data providers in use should be published
/// by the exchange a priori to its bidders.
#[derive(Debug, PartialEq, Clone)]
pub struct Data {
    /// string.
    /// Exchange-specific ID for the data provider.
    pub id: Option<String>,
    /// string.
    /// Exchange-specific name for the data provider.
    pub name: Option<String>,
    /// object array.
    /// Array of Segment objects that contain the actual data values.
    pub segment: Option<Vec<Members>>,
    /// object.
    /// Placeholder for exchange-specific extensions to OpenRTB.
    pub ext: Option<Members>,
}

/// The mathematical value of a [`Data`].
pub struct DataView {
    pub id: Option<Seq<char>>,
    pub name: Option<Seq<char>>,
    pub segment: Option<Seq<MembersView>>,
    pub ext: Option<MembersView>,
}

impl View for Data {
    type V = DataView;

    open spec fn view(&self) -> DataView {
        DataView {
            id: self.id.deep_view(),
            name: self.name.deep_view(),
            segment: self.segment.deep_view(),
            ext: self.ext.deep_view(),
        }
    }
}

impl DeepView for Data {
    type V = DataView;

    open spec fn deep_view(&self) -> DataView {
        self@
    }
}

impl DataView {
    /// Whether no optional member has a value.
    pub open spec fn bare(self) -> bool {
        &&& self.id is None
        &&& self.name is None
        &&& self.segment is None
        &&& self.ext is None
    }
}

impl Default for Data {
    /// The data of which no member has a value.
    fn default() -> (r: Data)
        ensures
            r@.bare(),
    {
        Data {
            id: None,
            name: None,
            segment: None,
            ext: None,
        }
    }
}

impl Data {
    /// Whether a member of this name belongs to the record.
    pub open spec fn knows(name: Seq<char>) -> bool {
        name == "id"@ || name == "name"@ || name == "segment"@ || name == "ext"@
    }

    /// Whether a member belongs to the record.
    pub open spec fn known() -> spec_fn(MemberView) -> bool {
        |m: MemberView| Self::knows(m.name)
    }

    /// What the record writes: its members, in the order of their declaration.
    pub open spec fn written(record: DataView) -> Written {
        Written::Nothing
            .and("id"@, text_json(record.id))
            .and("name"@, text_json(record.name))
            .and("segment"@, objects_json(record.segment))
            .and("ext"@, object_json(record.ext))
    }

    /// What is read from the members of an object is what is read from those
    /// among them that the record knows: the others are discarded, wherever
    /// they stand and whatever they hold.
    pub proof fn unknown_members_are_discarded(members: MembersView)
        ensures
            Self::decoded(members.filter(Self::known())) == Self::decoded(members),
    {
        optional_with_among(members, Self::known(), "id"@, text_rule());
        optional_with_among(members, Self::known(), "name"@, text_rule());
        optional_with_among(members, Self::known(), "segment"@, objects_rule());
        optional_with_among(members, Self::known(), "ext"@, object_rule());
    }

    /// A record of which no optional member has a value is written as the
    /// empty object.
    pub proof fn absent_members_are_omitted(record: DataView)
        requires
            record.bare(),
        ensures
            Self::encoded(record) == Seq::<MemberView>::empty(),
    {
        reveal_with_fuel(Written::members, 5);
        assert(Self::encoded(record) =~= Seq::<MemberView>::empty());
    }

    /// No two members of the record have one name.
    pub proof fn names_are_distinct(record: DataView)
        ensures
            Self::written(record).distinct(),
    {
        reveal_strlit("id");
        reveal_strlit("name");
        reveal_strlit("segment");
        reveal_strlit("ext");
        assert("id"@.len() == 2);
        assert("name"@.len() == 4);
        assert("segment"@.len() == 7);
        assert("ext"@.len() == 3);
        reveal_with_fuel(Written::names, 5);
        reveal_with_fuel(Written::distinct, 5);
    }

    /// Under each name that the record knows, the members it is written as
    /// hold the value of that member, and nothing where the member has no
    /// value.
    pub proof fn written_members(record: DataView)
        ensures
            JsonView::lookup(Self::encoded(record), "id"@) == text_json(record.id),
            JsonView::lookup(Self::encoded(record), "name"@) == text_json(record.name),
            JsonView::lookup(Self::encoded(record), "segment"@) == objects_json(record.segment),
            JsonView::lookup(Self::encoded(record), "ext"@) == object_json(record.ext),
    {
        Self::names_are_distinct(record);
        Self::written(record).members_hold_each();
        reveal_with_fuel(Written::found_in, 5);
    }

    /// Members that hold, under each name that the record knows, what a valid
    /// record is written as there, are read as that record.
    pub proof fn read_from_written(members: MembersView, record: DataView)
        requires
            Self::valid(record),
            JsonView::lookup(members, "id"@) == text_json(record.id),
            JsonView::lookup(members, "name"@) == text_json(record.name),
            JsonView::lookup(members, "segment"@) == objects_json(record.segment),
            JsonView::lookup(members, "ext"@) == object_json(record.ext),
        ensures
            Self::decoded(members) == Ok::<DataView, DecodeErrorView>(record),
    {
        text_is_read(members, "id"@, record.id);
        text_is_read(members, "name"@, record.name);
        objects_are_read(members, "segment"@, record.segment);
        object_is_read(members, "ext"@, record.ext);
    }
}

impl Record for Data {
    open spec fn decoded(members: MembersView) -> Result<DataView, DecodeErrorView> {
        let id = optional_with(members, "id"@, text_rule());
        let name = optional_with(members, "name"@, text_rule());
        let segment = optional_with(members, "segment"@, objects_rule());
        let ext = optional_with(members, "ext"@, object_rule());
        if id is Err {
            Err(id->Err_0)
        } else if name is Err {
            Err(name->Err_0)
        } else if segment is Err {
            Err(segment->Err_0)
        } else if ext is Err {
            Err(ext->Err_0)
        } else {
            Ok(
                DataView {
                    id: id->Ok_0,
                    name: name->Ok_0,
                    segment: segment->Ok_0,
                    ext: ext->Ok_0,
                },
            )
        }
    }

    open spec fn encoded(record: DataView) -> MembersView {
        Self::written(record).members()
    }

    open spec fn valid(record: DataView) -> bool {
        true
    }

    proof fn decoded_is_valid(members: MembersView) {
    }

    proof fn encoded_then_decoded(record: DataView) {
        Self::written_members(record);
        Self::read_from_written(Self::encoded(record), record);
    }

    fn decode(members: &Members) -> (r: Result<Data, DecodeError>) {
        let id = optional_text(members, "id")?;
        let name = optional_text(members, "name")?;
        let segment = optional_objects(members, "segment")?;
        let ext = optional_object(members, "ext")?;
        Ok(
            Data {
                id,
                name,
                segment,
                ext,
            },
        )
    }

    fn encode(&self) -> (members: Members) {
        let mut members: Members = Vec::new();
        put_text(&mut members, "id", &self.id);
        put_text(&mut members, "name", &self.name);
        put_objects(&mut members, "segment", &self.segment);
        put_object(&mut members, "ext", &self.ext);
        proof {
            reveal_with_fuel(Written::members, 5);
        }
        members
    }

    fn is_valid(&self) -> (b: bool) {
        true
    }
}

} // verus!

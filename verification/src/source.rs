//! The source of a bid request upstream from the exchange.

use crate::coded::{Coded, value_rule};
use crate::error::{DecodeError, DecodeErrorView};
use crate::field::{
    coded_is_read, coded_is_well_formed, coded_json, object_is_read, object_json,
    optional_coded, optional_coded_is_well_formed, optional_object, optional_text,
    optional_with, optional_with_among, put_coded, put_object, put_text, text_is_read,
    text_json, well_formed_if, Written,
};
use crate::item::{object_rule, text_rule};
use crate::json::{JsonView, Members, MembersView, MemberView};
use crate::record::Record;
use vstd::prelude::*;

verus! {

/// This object describes the nature and behavior of the entity that is the
/// source of the bid request upstream from the exchange. The primary purpose
/// of this object is to define post-auction or upstream decisioning when the
/// exchange itself does not control the final decision. A common example of
/// this is header bidding, but it can also apply to upstream server entities
/// such as another RTB exchange, a mediation platform, or an ad server
/// combines direct campaigns with 3rd party demand in decisioning.
#[derive(Debug, PartialEq, Clone)]
pub struct Source {
    /// integer; recommended.
    /// Entity responsible for the final impression sale decision, where 0 =
    /// exchange, 1 = upstream source.
    pub fd: Option<SaleDecision>,
    /// string; recommended.
    /// Transaction ID that must be common across all participants in this bid
    /// request (e.g., potentially multiple exchanges).
    pub tid: Option<String>,
    /// string; recommended.
    /// Payment ID chain string containing embedded syntax described in the TAG
    /// Payment ID Protocol v1.0.
    pub pchain: Option<String>,
    /// object.
    /// Placeholder for exchange-specific extensions to OpenRTB.
    pub ext: Option<Members>,
}

/// The mathematical value of a [`Source`].
pub struct SourceView {
    pub fd: Option<SaleDecision>,
    pub tid: Option<Seq<char>>,
    pub pchain: Option<Seq<char>>,
    pub ext: Option<MembersView>,
}

impl View for Source {
    type V = SourceView;

    open spec fn view(&self) -> SourceView {
        SourceView {
            fd: self.fd,
            tid: self.tid.deep_view(),
            pchain: self.pchain.deep_view(),
            ext: self.ext.deep_view(),
        }
    }
}

impl DeepView for Source {
    type V = SourceView;

    open spec fn deep_view(&self) -> SourceView {
        self@
    }
}

impl SourceView {
    /// Whether no optional member has a value.
    pub open spec fn bare(self) -> bool {
        &&& self.fd is None
        &&& self.tid is None
        &&& self.pchain is None
        &&& self.ext is None
    }
}

impl Default for Source {
    /// The source of which no member has a value.
    fn default() -> (r: Source)
        ensures
            r@.bare(),
    {
        Source {
            fd: None,
            tid: None,
            pchain: None,
            ext: None,
        }
    }
}

impl Source {
    /// Whether a member of this name belongs to the record.
    pub open spec fn knows(name: Seq<char>) -> bool {
        name == "fd"@ || name == "tid"@ || name == "pchain"@ || name == "ext"@
    }

    /// Whether a member belongs to the record.
    pub open spec fn known() -> spec_fn(MemberView) -> bool {
        |m: MemberView| Self::knows(m.name)
    }

    /// What the record writes: its members, in the order of their declaration.
    pub open spec fn written(record: SourceView) -> Written {
        Written::Nothing
            .and("fd"@, coded_json(record.fd))
            .and("tid"@, text_json(record.tid))
            .and("pchain"@, text_json(record.pchain))
            .and("ext"@, object_json(record.ext))
    }

    /// What is read from the members of an object is what is read from those
    /// among them that the record knows: the others are discarded, wherever
    /// they stand and whatever they hold.
    pub proof fn unknown_members_are_discarded(members: MembersView)
        ensures
            Self::decoded(members.filter(Self::known())) == Self::decoded(members),
    {
        optional_with_among(members, Self::known(), "fd"@, value_rule::<SaleDecision>());
        optional_with_among(members, Self::known(), "tid"@, text_rule());
        optional_with_among(members, Self::known(), "pchain"@, text_rule());
        optional_with_among(members, Self::known(), "ext"@, object_rule());
    }

    /// A record of which no optional member has a value is written as the
    /// empty object.
    pub proof fn absent_members_are_omitted(record: SourceView)
        requires
            record.bare(),
        ensures
            Self::encoded(record) == Seq::<MemberView>::empty(),
    {
        reveal_with_fuel(Written::members, 5);
        assert(Self::encoded(record) =~= Seq::<MemberView>::empty());
    }

    /// No two members of the record have one name.
    pub proof fn names_are_distinct(record: SourceView)
        ensures
            Self::written(record).distinct(),
    {
        reveal_strlit("fd");
        reveal_strlit("tid");
        reveal_strlit("pchain");
        reveal_strlit("ext");
        assert("fd"@.len() == 2 && "fd"@[0] == 'f');
        assert("tid"@.len() == 3 && "tid"@[0] == 't');
        assert("pchain"@.len() == 6 && "pchain"@[0] == 'p');
        assert("ext"@.len() == 3 && "ext"@[0] == 'e');
        reveal_with_fuel(Written::names, 5);
        reveal_with_fuel(Written::distinct, 5);
    }

    /// Under each name that the record knows, the members it is written as
    /// hold the value of that member, and nothing where the member has no
    /// value.
    pub proof fn written_members(record: SourceView)
        ensures
            JsonView::lookup(Self::encoded(record), "fd"@) == coded_json(record.fd),
            JsonView::lookup(Self::encoded(record), "tid"@) == text_json(record.tid),
            JsonView::lookup(Self::encoded(record), "pchain"@) == text_json(record.pchain),
            JsonView::lookup(Self::encoded(record), "ext"@) == object_json(record.ext),
    {
        Self::names_are_distinct(record);
        Self::written(record).members_hold_each();
        reveal_with_fuel(Written::found_in, 5);
    }

    /// Members that hold, under each name that the record knows, what a valid
    /// record is written as there, are read as that record.
    pub proof fn read_from_written(members: MembersView, record: SourceView)
        requires
            Self::valid(record),
            JsonView::lookup(members, "fd"@) == coded_json(record.fd),
            JsonView::lookup(members, "tid"@) == text_json(record.tid),
            JsonView::lookup(members, "pchain"@) == text_json(record.pchain),
            JsonView::lookup(members, "ext"@) == object_json(record.ext),
        ensures
            Self::decoded(members) == Ok::<SourceView, DecodeErrorView>(record),
    {
        coded_is_read::<SaleDecision>(members, "fd"@, record.fd);
        text_is_read(members, "tid"@, record.tid);
        text_is_read(members, "pchain"@, record.pchain);
        object_is_read(members, "ext"@, record.ext);
    }
}

impl Record for Source {
    open spec fn decoded(members: MembersView) -> Result<SourceView, DecodeErrorView> {
        let fd = optional_with(members, "fd"@, value_rule::<SaleDecision>());
        let tid = optional_with(members, "tid"@, text_rule());
        let pchain = optional_with(members, "pchain"@, text_rule());
        let ext = optional_with(members, "ext"@, object_rule());
        if fd is Err {
            Err(fd->Err_0)
        } else if tid is Err {
            Err(tid->Err_0)
        } else if pchain is Err {
            Err(pchain->Err_0)
        } else if ext is Err {
            Err(ext->Err_0)
        } else {
            Ok(
                SourceView {
                    fd: fd->Ok_0,
                    tid: tid->Ok_0,
                    pchain: pchain->Ok_0,
                    ext: ext->Ok_0,
                },
            )
        }
    }

    open spec fn encoded(record: SourceView) -> MembersView {
        Self::written(record).members()
    }

    open spec fn valid(record: SourceView) -> bool {
        &&& well_formed_if(record.fd)
    }

    proof fn decoded_is_valid(members: MembersView) {
        optional_coded_is_well_formed::<SaleDecision>(members, "fd"@);
    }

    proof fn encoded_then_decoded(record: SourceView) {
        Self::written_members(record);
        Self::read_from_written(Self::encoded(record), record);
    }

    fn decode(members: &Members) -> (r: Result<Source, DecodeError>) {
        let fd = optional_coded::<SaleDecision>(members, "fd")?;
        let tid = optional_text(members, "tid")?;
        let pchain = optional_text(members, "pchain")?;
        let ext = optional_object(members, "ext")?;
        Ok(
            Source {
                fd,
                tid,
                pchain,
                ext,
            },
        )
    }

    fn encode(&self) -> (members: Members) {
        let mut members: Members = Vec::new();
        put_coded(&mut members, "fd", &self.fd);
        put_text(&mut members, "tid", &self.tid);
        put_text(&mut members, "pchain", &self.pchain);
        put_object(&mut members, "ext", &self.ext);
        proof {
            reveal_with_fuel(Written::members, 5);
        }
        members
    }

    fn is_valid(&self) -> (b: bool) {
        coded_is_well_formed(&self.fd)
    }
}

/// The entity responsible for the final impression sale decision, where
/// 0 = exchange, 1 = upstream source.
#[derive(Debug, PartialEq, Eq, Clone, Copy, Structural)]
pub enum SaleDecision {
    Exchange,
    Upstream,
}

impl SaleDecision {
    /// The legal forms of the wire integer, in words.
    pub const EXPECTED: &'static str = "0 or 1";

    /// Whether `wire` is a wire integer of a sale decision.
    pub open spec fn is_legal(wire: int) -> bool {
        wire == 0 || wire == 1
    }

    /// The value that a wire integer stands for, if it is legal.
    pub open spec fn decoded(wire: int) -> Option<SaleDecision> {
        if wire == 0 {
            Some(SaleDecision::Exchange)
        } else if wire == 1 {
            Some(SaleDecision::Upstream)
        } else {
            None
        }
    }

    /// The wire integer of a sale decision.
    pub open spec fn encoded(self) -> int {
        match self {
            SaleDecision::Exchange => 0,
            SaleDecision::Upstream => 1,
        }
    }

    /// Reads a sale decision from its wire integer.
    pub fn decode(wire: i32) -> (r: Result<SaleDecision, DecodeError>)
        ensures
            match r {
                Ok(v) => Self::decoded(wire as int) == Some(v),
                Err(e) => Self::decoded(wire as int) is None && e@ == (
                DecodeErrorView::InvalidEnumeratedValue {
                    path: Seq::empty(),
                    value: wire as int,
                    expected: Self::EXPECTED@,
                }),
            },
    {
        if wire == 0 {
            Ok(SaleDecision::Exchange)
        } else if wire == 1 {
            Ok(SaleDecision::Upstream)
        } else {
            Err(DecodeError::invalid_value(wire, Self::EXPECTED))
        }
    }

    /// The wire integer of a sale decision. Total: no value is refused.
    pub fn encode(&self) -> (wire: i32)
        ensures
            wire as int == self.encoded(),
    {
        match self {
            SaleDecision::Exchange => 0,
            SaleDecision::Upstream => 1,
        }
    }

    /// Every legal wire integer is decoded, and to a value that encodes to
    /// that integer again.
    pub proof fn decoded_then_encoded(wire: i32)
        requires
            Self::is_legal(wire as int),
        ensures
            Self::decoded(wire as int) is Some,
            Self::decoded(wire as int).unwrap().encoded() == wire,
    {
    }

    /// Every value encodes to a legal wire integer, which decodes to that
    /// value again.
    pub proof fn encoded_then_decoded(v: SaleDecision)
        ensures
            Self::is_legal(v.encoded()),
            Self::decoded(v.encoded()) == Some(v),
    {
    }

    /// A wire integer is decoded exactly when it is legal: the others are
    /// refused, none is replaced by a default or moved into range.
    pub proof fn refused_unless_legal(wire: i32)
        ensures
            Self::decoded(wire as int) is None <==> !Self::is_legal(wire as int),
    {
    }
}

impl Coded for SaleDecision {
    open spec fn expected() -> Seq<char> {
        SaleDecision::EXPECTED@
    }

    open spec fn decoded(wire: int) -> Option<SaleDecision> {
        SaleDecision::decoded(wire)
    }

    open spec fn encoded(&self) -> int {
        SaleDecision::encoded(*self)
    }

    open spec fn well_formed(&self) -> bool {
        true
    }

    proof fn decoded_then_encoded(wire: i32) {
    }

    proof fn encoded_then_decoded(v: SaleDecision) {
    }

    fn decode(wire: i32) -> (r: Result<SaleDecision, DecodeError>) {
        SaleDecision::decode(wire)
    }

    fn encode(&self) -> (wire: i32) {
        SaleDecision::encode(self)
    }

    fn is_well_formed(&self) -> (b: bool) {
        true
    }
}

} // verus!

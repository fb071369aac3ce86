//! The top-level bid request.

use crate::auction_type::AuctionType;
use crate::channel::{DistributionChannel, DistributionChannelView};
use crate::coded::value_rule;
use crate::error::{DecodeError, DecodeErrorView, PathStepView};
use crate::field::{
    coded_is_read, coded_is_well_formed, coded_json, flag_is_read, flag_json, integer_is_read,
    integer_json, object_is_read, object_json, optional_coded, optional_coded_is_well_formed,
    optional_flag, optional_integer, optional_object, optional_texts, optional_with,
    optional_with_among, put, put_coded, put_flag, put_integer, put_object, put_texts,
    required_objects, required_objects_are_read, required_sequence_with,
    required_sequence_with_among, required_text, required_text_is_read, required_with,
    required_with_among, texts_are_read, texts_json, well_formed_if, Written,
};
use crate::item::{
    flag_rule, integer_rule, object_rule, objects_array, text_rule, texts_rule, write_objects,
};
use crate::json::{Json, JsonView, Members, MembersView, MemberView};
use crate::record::{
    optional_record, optional_record_is_valid, put_record, Record, record_is_read,
    record_is_valid, record_json, record_rule, valid_if,
};
use crate::source::{Source, SourceView};
use vstd::prelude::*;

verus! {

/// The top-level bid request object contains a globally unique bid request or
/// auction ID. This id attribute is required as is at least one impression
/// object. Other attributes in this top-level object establish rules and
/// restrictions that apply to all impressions being offered.
///
/// There are also several subordinate objects that provide detailed data to
/// potential buyers. Among these are the Site and App objects, which describe
/// the type of published media in which the impression(s) appear. These
/// objects are highly recommended, but only one applies to a given bid
/// request depending on whether the media is browser-based web content or a
/// non-browser application, respectively.
#[derive(Debug, PartialEq, Clone)]
pub struct BidRequest {
    /// string; required.
    /// Unique ID of the bid request, provided by the exchange.
    pub id: String,
    /// object array; required.
    /// Array of Imp objects representing the impressions offered, each with its
    /// members as they are. At least 1 Imp object is required: see
    /// [`BidRequest::require_impressions`].
    pub imp: Vec<Members>,
    /// object; recommended.
    /// The site or the application in which the impressions appear, written as
    /// the member `site` or the member `app`.
    pub channel: Option<DistributionChannel>,
    /// object; recommended.
    /// Details via a Device object about the user's device to which the
    /// impression will be delivered.
    pub device: Option<Members>,
    /// object; recommended.
    /// Details via a User object about the human user of the device; the
    /// advertising audience.
    pub user: Option<Members>,
    /// integer; default 0.
    /// Indicator of test mode in which auctions are not billable, where 0 = live
    /// mode, 1 = test mode.
    pub test: Option<bool>,
    /// integer; default 2.
    /// Auction type, where 1 = First Price, 2 = Second Price Plus.
    /// Exchange-specific auction types can be defined using values greater than
    /// 500.
    pub at: Option<AuctionType>,
    /// integer.
    /// Maximum time in milliseconds the exchange allows for bids to be received
    /// including Internet latency to avoid timeout. This value supersedes any a
    /// priori guidance from the exchange.
    pub tmax: Option<i32>,
    /// string array.
    /// White list of buyer seats (e.g., advertisers, agencies) allowed to bid on
    /// this impression. IDs of seats and knowledge of the buyer's customers to
    /// which they refer must be coordinated between bidders and the exchange a
    /// priori. At most, only one of wseat and bseat should be used in the same
    /// request. Omission of both implies no seat restrictions.
    pub wseat: Option<Vec<String>>,
    /// string array.
    /// Block list of buyer seats (e.g., advertisers, agencies) restricted from
    /// bidding on this impression. IDs of seats and knowledge of the buyer's
    /// customers to which they refer must be coordinated between bidders and the
    /// exchange a priori. At most, only one of wseat and bseat should be used in
    /// the same request. Omission of both implies no seat restrictions.
    pub bseat: Option<Vec<String>>,
    /// integer; default 0.
    /// Flag to indicate if Exchange can verify that the impressions offered
    /// represent all of the impressions available in context (e.g., all on the
    /// web page, all video spots such as pre/mid/post roll) to support
    /// road-blocking. 0 = no or unknown, 1 = yes, the impressions offered
    /// represent all that are available.
    pub allimps: Option<bool>,
    /// string array.
    /// Array of allowed currencies for bids on this bid request using ISO-4217
    /// alpha codes. Recommended only if the exchange accepts multiple currencies.
    pub cur: Option<Vec<String>>,
    /// string array.
    /// White list of languages for creatives using ISO-639-1-alpha-2. Omission
    /// implies no specific restrictions, but buyers would be advised to consider
    /// language attribute in the Device and/or Content objects if available.
    pub wlang: Option<Vec<String>>,
    /// string array.
    /// Blocked advertiser categories using the IAB content categories.
    pub bcat: Option<Vec<String>>,
    /// string array.
    /// Block list of advertisers by their domains (e.g., "ford.com").
    pub badv: Option<Vec<String>>,
    /// string array.
    /// Block list of applications by their platform-specific exchange-independent
    /// application identifiers. On Android, these should be bundle or package
    /// names (e.g., com.foo.mygame). On iOS, these are numeric IDs.
    pub bapp: Option<Vec<String>>,
    /// object.
    /// A Source object that provides data about the inventory source and which
    /// entity makes the final decision.
    pub source: Option<Source>,
    /// object.
    /// A Regs object that specifies any industry, legal, or governmental
    /// regulations in force for this request.
    pub regs: Option<Members>,
    /// object.
    /// Placeholder for exchange-specific extensions to OpenRTB.
    pub ext: Option<Members>,
}

/// The mathematical value of a [`BidRequest`].
pub struct BidRequestView {
    pub id: Seq<char>,
    pub imp: Seq<MembersView>,
    pub channel: Option<DistributionChannelView>,
    pub device: Option<MembersView>,
    pub user: Option<MembersView>,
    pub test: Option<bool>,
    pub at: Option<AuctionType>,
    pub tmax: Option<i32>,
    pub wseat: Option<Seq<Seq<char>>>,
    pub bseat: Option<Seq<Seq<char>>>,
    pub allimps: Option<bool>,
    pub cur: Option<Seq<Seq<char>>>,
    pub wlang: Option<Seq<Seq<char>>>,
    pub bcat: Option<Seq<Seq<char>>>,
    pub badv: Option<Seq<Seq<char>>>,
    pub bapp: Option<Seq<Seq<char>>>,
    pub source: Option<SourceView>,
    pub regs: Option<MembersView>,
    pub ext: Option<MembersView>,
}

impl View for BidRequest {
    type V = BidRequestView;

    open spec fn view(&self) -> BidRequestView {
        BidRequestView {
            id: self.id@,
            imp: self.imp.deep_view(),
            channel: self.channel.deep_view(),
            device: self.device.deep_view(),
            user: self.user.deep_view(),
            test: self.test,
            at: self.at,
            tmax: self.tmax,
            wseat: self.wseat.deep_view(),
            bseat: self.bseat.deep_view(),
            allimps: self.allimps,
            cur: self.cur.deep_view(),
            wlang: self.wlang.deep_view(),
            bcat: self.bcat.deep_view(),
            badv: self.badv.deep_view(),
            bapp: self.bapp.deep_view(),
            source: self.source.deep_view(),
            regs: self.regs.deep_view(),
            ext: self.ext.deep_view(),
        }
    }
}

impl DeepView for BidRequest {
    type V = BidRequestView;

    open spec fn deep_view(&self) -> BidRequestView {
        self@
    }
}

impl BidRequestView {
    /// Whether no optional member has a value.
    pub open spec fn bare(self) -> bool {
        &&& self.channel is None
        &&& self.device is None
        &&& self.user is None
        &&& self.test is None
        &&& self.at is None
        &&& self.tmax is None
        &&& self.wseat is None
        &&& self.bseat is None
        &&& self.allimps is None
        &&& self.cur is None
        &&& self.wlang is None
        &&& self.bcat is None
        &&& self.badv is None
        &&& self.bapp is None
        &&& self.source is None
        &&& self.regs is None
        &&& self.ext is None
    }
}

impl Default for BidRequest {
    /// The bid request with an empty ID, no impressions and no other member.
    fn default() -> (r: BidRequest)
        ensures
            r@.id == Seq::<char>::empty(),
            r@.imp == Seq::<MembersView>::empty(),
            r@.bare(),
    {
        BidRequest {
            id: String::new(),
            imp: Vec::new(),
            channel: None,
            device: None,
            user: None,
            test: None,
            at: None,
            tmax: None,
            wseat: None,
            bseat: None,
            allimps: None,
            cur: None,
            wlang: None,
            bcat: None,
            badv: None,
            bapp: None,
            source: None,
            regs: None,
            ext: None,
        }
    }
}

impl BidRequest {
    /// Whether a member of this name belongs to the record.
    pub open spec fn knows(name: Seq<char>) -> bool {
        name == "id"@ || name == "imp"@ || name == "site"@ || name == "app"@ || name == "device"@
            || name == "user"@ || name == "test"@ || name == "at"@ || name == "tmax"@
            || name == "wseat"@ || name == "bseat"@ || name == "allimps"@ || name == "cur"@
            || name == "wlang"@ || name == "bcat"@ || name == "badv"@ || name == "bapp"@
            || name == "source"@ || name == "regs"@ || name == "ext"@
    }

    /// Whether a member belongs to the record.
    pub open spec fn known() -> spec_fn(MemberView) -> bool {
        |m: MemberView| Self::knows(m.name)
    }

    /// What the record writes: its members, in the order of their declaration.
    pub open spec fn written(record: BidRequestView) -> Written {
        Written::Nothing
            .and("id"@, Some(JsonView::Text(record.id)))
            .and("imp"@, Some(objects_array(record.imp)))
            .and("site"@, DistributionChannel::site_json(record.channel))
            .and("app"@, DistributionChannel::app_json(record.channel))
            .and("device"@, object_json(record.device))
            .and("user"@, object_json(record.user))
            .and("test"@, flag_json(record.test))
            .and("at"@, coded_json(record.at))
            .and("tmax"@, integer_json(record.tmax))
            .and("wseat"@, texts_json(record.wseat))
            .and("bseat"@, texts_json(record.bseat))
            .and("allimps"@, flag_json(record.allimps))
            .and("cur"@, texts_json(record.cur))
            .and("wlang"@, texts_json(record.wlang))
            .and("bcat"@, texts_json(record.bcat))
            .and("badv"@, texts_json(record.badv))
            .and("bapp"@, texts_json(record.bapp))
            .and("source"@, record_json::<Source>(record.source))
            .and("regs"@, object_json(record.regs))
            .and("ext"@, object_json(record.ext))
    }

    /// What is read from the members of an object is what is read from those
    /// among them that the record knows: the others are discarded, wherever
    /// they stand and whatever they hold.
    pub proof fn unknown_members_are_discarded(members: MembersView)
        ensures
            Self::decoded(members.filter(Self::known())) == Self::decoded(members),
    {
        required_with_among(members, Self::known(), "id"@, text_rule());
        required_sequence_with_among(members, Self::known(), "imp"@, object_rule());
        DistributionChannel::decoded_among(members, Self::known());
        optional_with_among(members, Self::known(), "device"@, object_rule());
        optional_with_among(members, Self::known(), "user"@, object_rule());
        optional_with_among(members, Self::known(), "test"@, flag_rule());
        optional_with_among(members, Self::known(), "at"@, value_rule::<AuctionType>());
        optional_with_among(members, Self::known(), "tmax"@, integer_rule());
        optional_with_among(members, Self::known(), "wseat"@, texts_rule());
        optional_with_among(members, Self::known(), "bseat"@, texts_rule());
        optional_with_among(members, Self::known(), "allimps"@, flag_rule());
        optional_with_among(members, Self::known(), "cur"@, texts_rule());
        optional_with_among(members, Self::known(), "wlang"@, texts_rule());
        optional_with_among(members, Self::known(), "bcat"@, texts_rule());
        optional_with_among(members, Self::known(), "badv"@, texts_rule());
        optional_with_among(members, Self::known(), "bapp"@, texts_rule());
        optional_with_among(members, Self::known(), "source"@, record_rule::<Source>());
        optional_with_among(members, Self::known(), "regs"@, object_rule());
        optional_with_among(members, Self::known(), "ext"@, object_rule());
    }

    /// A bid request of which no optional member has a value is written as
    /// its two required members, `id` and `imp`, with the values they have.
    pub proof fn absent_members_are_omitted(record: BidRequestView)
        requires
            record.bare(),
        ensures
            Self::encoded(record) == seq![
                MemberView { name: "id"@, value: JsonView::Text(record.id) },
                MemberView { name: "imp"@, value: objects_array(record.imp) },
            ],
    {
        reveal_with_fuel(Written::members, 21);
        assert(Self::encoded(record) =~= seq![
                MemberView { name: "id"@, value: JsonView::Text(record.id) },
                MemberView { name: "imp"@, value: objects_array(record.imp) },
            ]);
    }

    /// No two members of the record have one name.
    pub proof fn names_are_distinct(record: BidRequestView)
        ensures
            Self::written(record).distinct(),
    {
        reveal_strlit("id");
        reveal_strlit("imp");
        reveal_strlit("site");
        reveal_strlit("app");
        reveal_strlit("device");
        reveal_strlit("user");
        reveal_strlit("test");
        reveal_strlit("at");
        reveal_strlit("tmax");
        reveal_strlit("wseat");
        reveal_strlit("bseat");
        reveal_strlit("allimps");
        reveal_strlit("cur");
        reveal_strlit("wlang");
        reveal_strlit("bcat");
        reveal_strlit("badv");
        reveal_strlit("bapp");
        reveal_strlit("source");
        reveal_strlit("regs");
        reveal_strlit("ext");
        assert("id"@.len() == 2 && "id"@[0] == 'i' && "id"@[1] == 'd');
        assert("imp"@.len() == 3 && "imp"@[0] == 'i' && "imp"@[1] == 'm' && "imp"@[2] == 'p');
        assert("site"@.len() == 4 && "site"@[0] == 's' && "site"@[1] == 'i' && "site"@[2] == 't');
        assert("app"@.len() == 3 && "app"@[0] == 'a' && "app"@[1] == 'p' && "app"@[2] == 'p');
        assert("device"@.len() == 6 && "device"@[0] == 'd' && "device"@[1] == 'e'
            && "device"@[2] == 'v');
        assert("user"@.len() == 4 && "user"@[0] == 'u' && "user"@[1] == 's' && "user"@[2] == 'e');
        assert("test"@.len() == 4 && "test"@[0] == 't' && "test"@[1] == 'e' && "test"@[2] == 's');
        assert("at"@.len() == 2 && "at"@[0] == 'a' && "at"@[1] == 't');
        assert("tmax"@.len() == 4 && "tmax"@[0] == 't' && "tmax"@[1] == 'm' && "tmax"@[2] == 'a');
        assert("wseat"@.len() == 5 && "wseat"@[0] == 'w' && "wseat"@[1] == 's'
            && "wseat"@[2] == 'e');
        assert("bseat"@.len() == 5 && "bseat"@[0] == 'b' && "bseat"@[1] == 's'
            && "bseat"@[2] == 'e');
        assert("allimps"@.len() == 7 && "allimps"@[0] == 'a' && "allimps"@[1] == 'l'
            && "allimps"@[2] == 'l');
        assert("cur"@.len() == 3 && "cur"@[0] == 'c' && "cur"@[1] == 'u' && "cur"@[2] == 'r');
        assert("wlang"@.len() == 5 && "wlang"@[0] == 'w' && "wlang"@[1] == 'l'
            && "wlang"@[2] == 'a');
        assert("bcat"@.len() == 4 && "bcat"@[0] == 'b' && "bcat"@[1] == 'c' && "bcat"@[2] == 'a');
        assert("badv"@.len() == 4 && "badv"@[0] == 'b' && "badv"@[1] == 'a' && "badv"@[2] == 'd');
        assert("bapp"@.len() == 4 && "bapp"@[0] == 'b' && "bapp"@[1] == 'a' && "bapp"@[2] == 'p');
        assert("source"@.len() == 6 && "source"@[0] == 's' && "source"@[1] == 'o'
            && "source"@[2] == 'u');
        assert("regs"@.len() == 4 && "regs"@[0] == 'r' && "regs"@[1] == 'e' && "regs"@[2] == 'g');
        assert("ext"@.len() == 3 && "ext"@[0] == 'e' && "ext"@[1] == 'x' && "ext"@[2] == 't');
        reveal_with_fuel(Written::names, 21);
        reveal_with_fuel(Written::distinct, 21);
    }

    /// Under each name that the record knows, the members it is written as
    /// hold the value of that member, and nothing where the member has no
    /// value.
    pub proof fn written_members(record: BidRequestView)
        ensures
            JsonView::lookup(Self::encoded(record), "id"@) == Some(JsonView::Text(record.id)),
            JsonView::lookup(Self::encoded(record), "imp"@) == Some(objects_array(record.imp)),
            JsonView::lookup(Self::encoded(record), "site"@)
                == DistributionChannel::site_json(record.channel),
            JsonView::lookup(Self::encoded(record), "app"@)
                == DistributionChannel::app_json(record.channel),
            JsonView::lookup(Self::encoded(record), "device"@) == object_json(record.device),
            JsonView::lookup(Self::encoded(record), "user"@) == object_json(record.user),
            JsonView::lookup(Self::encoded(record), "test"@) == flag_json(record.test),
            JsonView::lookup(Self::encoded(record), "at"@) == coded_json(record.at),
            JsonView::lookup(Self::encoded(record), "tmax"@) == integer_json(record.tmax),
            JsonView::lookup(Self::encoded(record), "wseat"@) == texts_json(record.wseat),
            JsonView::lookup(Self::encoded(record), "bseat"@) == texts_json(record.bseat),
            JsonView::lookup(Self::encoded(record), "allimps"@) == flag_json(record.allimps),
            JsonView::lookup(Self::encoded(record), "cur"@) == texts_json(record.cur),
            JsonView::lookup(Self::encoded(record), "wlang"@) == texts_json(record.wlang),
            JsonView::lookup(Self::encoded(record), "bcat"@) == texts_json(record.bcat),
            JsonView::lookup(Self::encoded(record), "badv"@) == texts_json(record.badv),
            JsonView::lookup(Self::encoded(record), "bapp"@) == texts_json(record.bapp),
            JsonView::lookup(Self::encoded(record), "source"@)
                == record_json::<Source>(record.source),
            JsonView::lookup(Self::encoded(record), "regs"@) == object_json(record.regs),
            JsonView::lookup(Self::encoded(record), "ext"@) == object_json(record.ext),
    {
        Self::names_are_distinct(record);
        Self::written(record).members_hold_each();
        reveal_with_fuel(Written::found_in, 21);
    }

    /// Members that hold, under each name that the record knows, what a valid
    /// record is written as there, are read as that record.
    pub proof fn read_from_written(members: MembersView, record: BidRequestView)
        requires
            Self::valid(record),
            JsonView::lookup(members, "id"@) == Some(JsonView::Text(record.id)),
            JsonView::lookup(members, "imp"@) == Some(objects_array(record.imp)),
            JsonView::lookup(members, "site"@) == DistributionChannel::site_json(record.channel),
            JsonView::lookup(members, "app"@) == DistributionChannel::app_json(record.channel),
            JsonView::lookup(members, "device"@) == object_json(record.device),
            JsonView::lookup(members, "user"@) == object_json(record.user),
            JsonView::lookup(members, "test"@) == flag_json(record.test),
            JsonView::lookup(members, "at"@) == coded_json(record.at),
            JsonView::lookup(members, "tmax"@) == integer_json(record.tmax),
            JsonView::lookup(members, "wseat"@) == texts_json(record.wseat),
            JsonView::lookup(members, "bseat"@) == texts_json(record.bseat),
            JsonView::lookup(members, "allimps"@) == flag_json(record.allimps),
            JsonView::lookup(members, "cur"@) == texts_json(record.cur),
            JsonView::lookup(members, "wlang"@) == texts_json(record.wlang),
            JsonView::lookup(members, "bcat"@) == texts_json(record.bcat),
            JsonView::lookup(members, "badv"@) == texts_json(record.badv),
            JsonView::lookup(members, "bapp"@) == texts_json(record.bapp),
            JsonView::lookup(members, "source"@) == record_json::<Source>(record.source),
            JsonView::lookup(members, "regs"@) == object_json(record.regs),
            JsonView::lookup(members, "ext"@) == object_json(record.ext),
        ensures
            Self::decoded(members) == Ok::<BidRequestView, DecodeErrorView>(record),
    {
        required_text_is_read(members, "id"@, record.id);
        required_objects_are_read(members, "imp"@, record.imp);
        DistributionChannel::written_is_read(members, record.channel);
        object_is_read(members, "device"@, record.device);
        object_is_read(members, "user"@, record.user);
        flag_is_read(members, "test"@, record.test);
        coded_is_read::<AuctionType>(members, "at"@, record.at);
        integer_is_read(members, "tmax"@, record.tmax);
        texts_are_read(members, "wseat"@, record.wseat);
        texts_are_read(members, "bseat"@, record.bseat);
        flag_is_read(members, "allimps"@, record.allimps);
        texts_are_read(members, "cur"@, record.cur);
        texts_are_read(members, "wlang"@, record.wlang);
        texts_are_read(members, "bcat"@, record.bcat);
        texts_are_read(members, "badv"@, record.badv);
        texts_are_read(members, "bapp"@, record.bapp);
        record_is_read::<Source>(members, "source"@, record.source);
        object_is_read(members, "regs"@, record.regs);
        object_is_read(members, "ext"@, record.ext);
    }

    /// Holds the request to the rule that it offers at least one impression.
    pub fn require_impressions(&self) -> (r: Result<(), DecodeError>)
        ensures
            match r {
                Ok(_) => self@.imp.len() > 0,
                Err(e) => self@.imp.len() == 0 && e@ == (DecodeErrorView::EmptyRequiredSequence {
                    path: seq![PathStepView::Member("imp"@)],
                }),
            },
    {
        if self.imp.len() > 0 {
            Ok(())
        } else {
            Err(DecodeError::missing_sequence("imp"))
        }
    }
}

impl Record for BidRequest {
    open spec fn decoded(members: MembersView) -> Result<BidRequestView, DecodeErrorView> {
        let id = required_with(members, "id"@, text_rule());
        let imp = required_sequence_with(members, "imp"@, object_rule());
        let channel = DistributionChannel::decoded(members);
        let device = optional_with(members, "device"@, object_rule());
        let user = optional_with(members, "user"@, object_rule());
        let test = optional_with(members, "test"@, flag_rule());
        let at = optional_with(members, "at"@, value_rule::<AuctionType>());
        let tmax = optional_with(members, "tmax"@, integer_rule());
        let wseat = optional_with(members, "wseat"@, texts_rule());
        let bseat = optional_with(members, "bseat"@, texts_rule());
        let allimps = optional_with(members, "allimps"@, flag_rule());
        let cur = optional_with(members, "cur"@, texts_rule());
        let wlang = optional_with(members, "wlang"@, texts_rule());
        let bcat = optional_with(members, "bcat"@, texts_rule());
        let badv = optional_with(members, "badv"@, texts_rule());
        let bapp = optional_with(members, "bapp"@, texts_rule());
        let source = optional_with(members, "source"@, record_rule::<Source>());
        let regs = optional_with(members, "regs"@, object_rule());
        let ext = optional_with(members, "ext"@, object_rule());
        if id is Err {
            Err(id->Err_0)
        } else if imp is Err {
            Err(imp->Err_0)
        } else if channel is Err {
            Err(channel->Err_0)
        } else if device is Err {
            Err(device->Err_0)
        } else if user is Err {
            Err(user->Err_0)
        } else if test is Err {
            Err(test->Err_0)
        } else if at is Err {
            Err(at->Err_0)
        } else if tmax is Err {
            Err(tmax->Err_0)
        } else if wseat is Err {
            Err(wseat->Err_0)
        } else if bseat is Err {
            Err(bseat->Err_0)
        } else if allimps is Err {
            Err(allimps->Err_0)
        } else if cur is Err {
            Err(cur->Err_0)
        } else if wlang is Err {
            Err(wlang->Err_0)
        } else if bcat is Err {
            Err(bcat->Err_0)
        } else if badv is Err {
            Err(badv->Err_0)
        } else if bapp is Err {
            Err(bapp->Err_0)
        } else if source is Err {
            Err(source->Err_0)
        } else if regs is Err {
            Err(regs->Err_0)
        } else if ext is Err {
            Err(ext->Err_0)
        } else {
            Ok(
                BidRequestView {
                    id: id->Ok_0,
                    imp: imp->Ok_0,
                    channel: channel->Ok_0,
                    device: device->Ok_0,
                    user: user->Ok_0,
                    test: test->Ok_0,
                    at: at->Ok_0,
                    tmax: tmax->Ok_0,
                    wseat: wseat->Ok_0,
                    bseat: bseat->Ok_0,
                    allimps: allimps->Ok_0,
                    cur: cur->Ok_0,
                    wlang: wlang->Ok_0,
                    bcat: bcat->Ok_0,
                    badv: badv->Ok_0,
                    bapp: bapp->Ok_0,
                    source: source->Ok_0,
                    regs: regs->Ok_0,
                    ext: ext->Ok_0,
                },
            )
        }
    }

    open spec fn encoded(record: BidRequestView) -> MembersView {
        Self::written(record).members()
    }

    open spec fn valid(record: BidRequestView) -> bool {
        &&& DistributionChannel::valid(record.channel)
        &&& well_formed_if(record.at)
        &&& valid_if::<Source>(record.source)
    }

    proof fn decoded_is_valid(members: MembersView) {
        DistributionChannel::decoded_is_valid(members);
        optional_coded_is_well_formed::<AuctionType>(members, "at"@);
        optional_record_is_valid::<Source>(members, "source"@);
    }

    proof fn encoded_then_decoded(record: BidRequestView) {
        Self::written_members(record);
        Self::read_from_written(Self::encoded(record), record);
    }

    fn decode(members: &Members) -> (r: Result<BidRequest, DecodeError>) {
        let id = required_text(members, "id")?;
        let imp = required_objects(members, "imp")?;
        let channel = DistributionChannel::decode(members)?;
        let device = optional_object(members, "device")?;
        let user = optional_object(members, "user")?;
        let test = optional_flag(members, "test")?;
        let at = optional_coded::<AuctionType>(members, "at")?;
        let tmax = optional_integer(members, "tmax")?;
        let wseat = optional_texts(members, "wseat")?;
        let bseat = optional_texts(members, "bseat")?;
        let allimps = optional_flag(members, "allimps")?;
        let cur = optional_texts(members, "cur")?;
        let wlang = optional_texts(members, "wlang")?;
        let bcat = optional_texts(members, "bcat")?;
        let badv = optional_texts(members, "badv")?;
        let bapp = optional_texts(members, "bapp")?;
        let source = optional_record::<Source>(members, "source")?;
        let regs = optional_object(members, "regs")?;
        let ext = optional_object(members, "ext")?;
        Ok(
            BidRequest {
                id,
                imp,
                channel,
                device,
                user,
                test,
                at,
                tmax,
                wseat,
                bseat,
                allimps,
                cur,
                wlang,
                bcat,
                badv,
                bapp,
                source,
                regs,
                ext,
            },
        )
    }

    fn encode(&self) -> (members: Members) {
        let mut members: Members = Vec::new();
        put(&mut members, "id", Json::Text(self.id.clone()));
        put(&mut members, "imp", write_objects(&self.imp));
        DistributionChannel::put(&mut members, &self.channel);
        put_object(&mut members, "device", &self.device);
        put_object(&mut members, "user", &self.user);
        put_flag(&mut members, "test", &self.test);
        put_coded(&mut members, "at", &self.at);
        put_integer(&mut members, "tmax", &self.tmax);
        put_texts(&mut members, "wseat", &self.wseat);
        put_texts(&mut members, "bseat", &self.bseat);
        put_flag(&mut members, "allimps", &self.allimps);
        put_texts(&mut members, "cur", &self.cur);
        put_texts(&mut members, "wlang", &self.wlang);
        put_texts(&mut members, "bcat", &self.bcat);
        put_texts(&mut members, "badv", &self.badv);
        put_texts(&mut members, "bapp", &self.bapp);
        put_record(&mut members, "source", &self.source);
        put_object(&mut members, "regs", &self.regs);
        put_object(&mut members, "ext", &self.ext);
        proof {
            reveal_with_fuel(Written::members, 21);
        }
        members
    }

    fn is_valid(&self) -> (b: bool) {
        DistributionChannel::is_valid(&self.channel)
            && coded_is_well_formed(&self.at)
            && record_is_valid(&self.source)
    }
}

} // verus!

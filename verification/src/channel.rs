//! The medium in which the impressions of a bid request appear.

use crate::error::{meets, DecodeError, DecodeErrorView};
use crate::field::{member_if, optional_object, optional_with, optional_with_among, put};
use crate::item::{copy_members_of, object_rule};
use crate::json::{JsonView, MemberView, Members, MembersView};
use crate::record::{
    optional_record, optional_record_is_valid, record_rule, record_written_is_read, to_json,
    Record,
};
use crate::site::{Site, SiteView};
use vstd::prelude::*;

verus! {

/// Where the ad-supported content is published: a website, or an application
/// that is no browser. A bid request names at most one of the two, as its
/// member `site` or its member `app`. The members of an application are
/// carried as they are.
#[derive(Debug, PartialEq, Clone)]
pub enum DistributionChannel {
    Site(Site),
    App(Members),
}

/// The mathematical value of a [`DistributionChannel`].
pub enum DistributionChannelView {
    Site(SiteView),
    App(MembersView),
}

impl View for DistributionChannel {
    type V = DistributionChannelView;

    open spec fn view(&self) -> DistributionChannelView {
        match self {
            DistributionChannel::Site(site) => DistributionChannelView::Site(site@),
            DistributionChannel::App(app) => DistributionChannelView::App(app.deep_view()),
        }
    }
}

impl DeepView for DistributionChannel {
    type V = DistributionChannelView;

    open spec fn deep_view(&self) -> DistributionChannelView {
        self@
    }
}

impl DistributionChannel {
    /// The channel that the members of a bid request name: the site where
    /// there is one, else the application, else none.
    pub open spec fn decoded(members: MembersView) -> Result<
        Option<DistributionChannelView>,
        DecodeErrorView,
    > {
        match optional_with(members, "site"@, record_rule::<Site>()) {
            Err(e) => Err(e),
            Ok(Some(site)) => Ok(Some(DistributionChannelView::Site(site))),
            Ok(None) => match optional_with(members, "app"@, object_rule()) {
                Err(e) => Err(e),
                Ok(Some(app)) => Ok(Some(DistributionChannelView::App(app))),
                Ok(None) => Ok(None),
            },
        }
    }

    /// What a bid request writes as its member `site`.
    pub open spec fn site_json(channel: Option<DistributionChannelView>) -> Option<JsonView> {
        match channel {
            Some(DistributionChannelView::Site(site)) => Some(
                JsonView::Object(Site::encoded(site)),
            ),
            _ => None,
        }
    }

    /// What a bid request writes as its member `app`.
    pub open spec fn app_json(channel: Option<DistributionChannelView>) -> Option<JsonView> {
        match channel {
            Some(DistributionChannelView::App(app)) => Some(JsonView::Object(app)),
            _ => None,
        }
    }

    /// Whether the channel is one that can be read: a site is a valid record.
    pub open spec fn valid(channel: Option<DistributionChannelView>) -> bool {
        channel matches Some(DistributionChannelView::Site(site)) ==> Site::valid(site)
    }

    /// Reads the channel from the members of a bid request.
    pub fn decode(members: &Members) -> (r: Result<Option<DistributionChannel>, DecodeError>)
        ensures
            meets(r, Self::decoded(members.deep_view())),
    {
        match optional_record::<Site>(members, "site")? {
            Some(site) => Ok(Some(DistributionChannel::Site(site))),
            None => match optional_object(members, "app")? {
                Some(app) => Ok(Some(DistributionChannel::App(app))),
                None => Ok(None),
            },
        }
    }

    /// Writes the member of the channel, if there is one.
    pub fn put(out: &mut Members, channel: &Option<DistributionChannel>)
        ensures
            final(out).deep_view() == old(out).deep_view() + member_if(
                "site"@,
                Self::site_json(channel.deep_view()),
            ) + member_if("app"@, Self::app_json(channel.deep_view())),
    {
        let ghost before = out.deep_view();
        match channel {
            Some(DistributionChannel::Site(site)) => {
                put(out, "site", to_json(site));
            },
            Some(DistributionChannel::App(app)) => {
                put(out, "app", copy_members_of(app));
            },
            None => {},
        }
        assert(out.deep_view() =~= before + member_if("site"@, Self::site_json(channel.deep_view()))
            + member_if("app"@, Self::app_json(channel.deep_view())));
    }

    /// Whether the channel is valid.
    pub fn is_valid(channel: &Option<DistributionChannel>) -> (b: bool)
        ensures
            b == Self::valid(channel.deep_view()),
    {
        match channel {
            Some(DistributionChannel::Site(site)) => site.is_valid(),
            _ => true,
        }
    }

    /// Among the members that a predicate keeps, the channel is read as among
    /// all of them, where the predicate keeps the members `site` and `app`.
    pub proof fn decoded_among(members: MembersView, keep: spec_fn(MemberView) -> bool)
        requires
            forall|m: MemberView| m.name == "site"@ ==> #[trigger] keep(m),
            forall|m: MemberView| m.name == "app"@ ==> #[trigger] keep(m),
        ensures
            Self::decoded(members.filter(keep)) == Self::decoded(members),
    {
        optional_with_among(members, keep, "site"@, record_rule::<Site>());
        optional_with_among(members, keep, "app"@, object_rule());
    }

    /// The channel that is read is valid.
    pub proof fn decoded_is_valid(members: MembersView)
        ensures
            Self::decoded(members) matches Ok(channel) ==> Self::valid(channel),
    {
        optional_record_is_valid::<Site>(members, "site"@);
    }

    /// A valid channel is read back as it was from members that hold, as
    /// `site` and as `app`, what is written for it.
    pub proof fn written_is_read(members: MembersView, channel: Option<DistributionChannelView>)
        requires
            Self::valid(channel),
            JsonView::lookup(members, "site"@) == Self::site_json(channel),
            JsonView::lookup(members, "app"@) == Self::app_json(channel),
        ensures
            Self::decoded(members) == Ok::<Option<DistributionChannelView>, DecodeErrorView>(
                channel,
            ),
    {
        if let Some(DistributionChannelView::Site(site)) = channel {
            record_written_is_read::<Site>(site);
        }
    }
}

} // verus!

//! Typed model and wire codec for the JSON messages of a real-time-bidding
//! protocol: the bid request and the objects nested in it.
//!
//! The heart of the crate is the set of coded values: fields whose legal wire
//! integers mix fixed codes, reserved sentinels and open ranges. Each of them
//! has a `decode` from the wire integer and an `encode` back to it, and the two
//! are proved to be inverse to each other on the legal values. An integer that
//! is not legal is refused, never replaced.
//!
//! Around them stand the records: JSON objects with a fixed list of members.
//! A record is read from the members of an object and written as such. What
//! it is read as does not depend on members that it does not know, what it is
//! written as has no member without a value, and a valid record is read back
//! from what it is written as.
//!
//! The modules, from the ground up:
//!
//! - [`json`]: JSON values, and looking a member up in an object;
//! - [`error`]: what decoding reports, with the path to the fault;
//! - [`sequence`] and [`item`]: the values that a member or an item of an
//!   array may hold, and the arrays of them;
//! - [`coded`]: what the coded values have in common, with one module for each
//!   of them;
//! - [`field`] and [`record`]: the members of a record, and the records, with
//!   one module for each of them;
//! - [`text`]: JSON text, which `serde_json` reads and writes.

pub mod auction_type;
pub mod banner_ad_type;
pub mod bid_request;
pub mod channel;
pub mod coded;
pub mod content;
pub mod content_delivery_method;
pub mod data;
pub mod device_type;
pub mod error;
pub mod field;
pub mod item;
pub mod json;
pub mod max_extended_ad_duration;
pub mod pmp;
pub mod record;
pub mod sequence;
pub mod site;
pub mod source;
pub mod start_delay;
pub mod text;

pub use auction_type::AuctionType;
pub use banner_ad_type::BannerAdType;
pub use bid_request::{BidRequest, BidRequestView};
pub use channel::{DistributionChannel, DistributionChannelView};
pub use coded::Coded;
pub use content::{Content, ContentView};
pub use content_delivery_method::ContentDeliveryMethod;
pub use data::{Data, DataView};
pub use device_type::DeviceType;
pub use error::{DecodeError, DecodeErrorView, PathStep, PathStepView};
pub use json::{Json, JsonView, Member, MemberView, Members, MembersView};
pub use max_extended_ad_duration::MaxExtendedAdDuration;
pub use pmp::{Pmp, PmpView};
pub use record::Record;
pub use site::{Site, SiteView};
pub use source::{SaleDecision, Source, SourceView};
pub use start_delay::StartDelay;
pub use text::{TextError, TextErrorView};

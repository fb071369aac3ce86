//! The types of banner ad that an exchange accepts.

use crate::coded::Coded;
use crate::error::{DecodeError, DecodeErrorView};
use vstd::prelude::*;

verus! {

/// The types of ads that can be accepted by the exchange unless restricted
/// by publisher site settings.
#[derive(Debug, PartialEq, Eq, Clone, Copy, Structural)]
pub enum BannerAdType {
    /// XHTML Text Ad (usually mobile)
    XhtmlTextAd,
    /// XHTML Banner Ad (usually mobile)
    XhtmlBannerAd,
    /// JavaScript Ad; must be valid XHTML (i.e., script tags included)
    JavaScriptAd,
    /// iframe
    Iframe,
}

impl BannerAdType {
    /// The legal forms of the wire integer, in words.
    pub const EXPECTED: &'static str = "one of: 1, 2, 3, 4";

    /// Whether `wire` is a wire integer of a banner ad type.
    pub open spec fn is_legal(wire: int) -> bool {
        1 <= wire <= 4
    }

    /// The value that a wire integer stands for, if it is legal.
    pub open spec fn decoded(wire: int) -> Option<BannerAdType> {
        if wire == 1 {
            Some(BannerAdType::XhtmlTextAd)
        } else if wire == 2 {
            Some(BannerAdType::XhtmlBannerAd)
        } else if wire == 3 {
            Some(BannerAdType::JavaScriptAd)
        } else if wire == 4 {
            Some(BannerAdType::Iframe)
        } else {
            None
        }
    }

    /// The wire integer of a banner ad type.
    pub open spec fn encoded(self) -> int {
        match self {
            BannerAdType::XhtmlTextAd => 1,
            BannerAdType::XhtmlBannerAd => 2,
            BannerAdType::JavaScriptAd => 3,
            BannerAdType::Iframe => 4,
        }
    }

    /// Reads a banner ad type from its wire integer.
    pub fn decode(wire: i32) -> (r: Result<BannerAdType, DecodeError>)
        ensures
            match r {
                Ok(v) => Self::decoded(wire as int) == Some(v),
                Err(e) => Self::decoded(wire as int) is None && e@ == (
                DecodeErrorView::InvalidEnumeratedValue {
                    path: Seq::empty(),
                    value: wire as int,
                    expected: Self::EXPECTED@,
                }),
            },
    {
        if wire == 1 {
            Ok(BannerAdType::XhtmlTextAd)
        } else if wire == 2 {
            Ok(BannerAdType::XhtmlBannerAd)
        } else if wire == 3 {
            Ok(BannerAdType::JavaScriptAd)
        } else if wire == 4 {
            Ok(BannerAdType::Iframe)
        } else {
            Err(DecodeError::invalid_value(wire, Self::EXPECTED))
        }
    }

    /// The wire integer of a banner ad type. Total: no value is refused.
    pub fn encode(&self) -> (wire: i32)
        ensures
            wire as int == self.encoded(),
    {
        match self {
            BannerAdType::XhtmlTextAd => 1,
            BannerAdType::XhtmlBannerAd => 2,
            BannerAdType::JavaScriptAd => 3,
            BannerAdType::Iframe => 4,
        }
    }

    /// Every legal wire integer is decoded, and to a value that encodes to
    /// that integer again.
    pub proof fn decoded_then_encoded(wire: i32)
        requires
            Self::is_legal(wire as int),
        ensures
            Self::decoded(wire as int) is Some,
            Self::decoded(wire as int).unwrap().encoded() == wire,
    {
    }

    /// Every value encodes to a legal wire integer, which decodes to that
    /// value again.
    pub proof fn encoded_then_decoded(v: BannerAdType)
        ensures
            Self::is_legal(v.encoded()),
            Self::decoded(v.encoded()) == Some(v),
    {
    }

    /// A wire integer is decoded exactly when it is legal: the others are
    /// refused, none is replaced by a default or moved into range.
    pub proof fn refused_unless_legal(wire: i32)
        ensures
            Self::decoded(wire as int) is None <==> !Self::is_legal(wire as int),
    {
    }
}

impl Coded for BannerAdType {
    open spec fn expected() -> Seq<char> {
        BannerAdType::EXPECTED@
    }

    open spec fn decoded(wire: int) -> Option<BannerAdType> {
        BannerAdType::decoded(wire)
    }

    open spec fn encoded(&self) -> int {
        BannerAdType::encoded(*self)
    }

    open spec fn well_formed(&self) -> bool {
        true
    }

    proof fn decoded_then_encoded(wire: i32) {
    }

    proof fn encoded_then_decoded(v: BannerAdType) {
    }

    fn decode(wire: i32) -> (r: Result<BannerAdType, DecodeError>) {
        BannerAdType::decode(wire)
    }

    fn encode(&self) -> (wire: i32) {
        BannerAdType::encode(self)
    }

    fn is_well_formed(&self) -> (b: bool) {
        true
    }
}

} // verus!

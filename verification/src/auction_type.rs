//! The auction type of a bid request or a deal.

use crate::coded::Coded;
use crate::error::{DecodeError, DecodeErrorView};
use vstd::prelude::*;

verus! {

/// Auction type, where 1 = First Price, 2 = Second Price Plus.
/// Exchange-specific auction types are the values greater than 500; they are
/// carried through as they are.
#[derive(Debug, PartialEq, Eq, Clone, Copy, Structural)]
pub enum AuctionType {
    FirstPrice,
    SecondPricePlus,
    ExchangeSpecific(i32),
}

/// The greatest wire integer that is not open to exchange-specific types.
pub const EXCHANGE_SPECIFIC_ABOVE: i32 = 500;

impl AuctionType {
    /// The legal forms of the wire integer, in words.
    pub const EXPECTED: &'static str = "1 or 2 or greater than 500";

    /// Whether `wire` is a wire integer of an auction type.
    pub open spec fn is_legal(wire: int) -> bool {
        wire == 1 || wire == 2 || wire > EXCHANGE_SPECIFIC_ABOVE
    }

    /// Whether the value is one that `decode` can give: an exchange-specific
    /// type lies above the threshold.
    pub open spec fn well_formed(self) -> bool {
        match self {
            AuctionType::ExchangeSpecific(value) => value > EXCHANGE_SPECIFIC_ABOVE,
            _ => true,
        }
    }

    /// The auction type that a wire integer stands for, if it is legal. The
    /// fixed codes come first, the open range after them.
    pub open spec fn decoded(wire: int) -> Option<AuctionType> {
        if wire == 1 {
            Some(AuctionType::FirstPrice)
        } else if wire == 2 {
            Some(AuctionType::SecondPricePlus)
        } else if EXCHANGE_SPECIFIC_ABOVE < wire <= i32::MAX {
            Some(AuctionType::ExchangeSpecific(wire as i32))
        } else {
            None
        }
    }

    /// The wire integer of an auction type.
    pub open spec fn encoded(self) -> int {
        match self {
            AuctionType::FirstPrice => 1,
            AuctionType::SecondPricePlus => 2,
            AuctionType::ExchangeSpecific(value) => value as int,
        }
    }

    /// Reads an auction type from its wire integer.
    pub fn decode(wire: i32) -> (r: Result<AuctionType, DecodeError>)
        ensures
            match r {
                Ok(v) => Self::decoded(wire as int) == Some(v),
                Err(e) => Self::decoded(wire as int) is None && e@ == (
                DecodeErrorView::InvalidEnumeratedValue {
                    path: Seq::empty(),
                    value: wire as int,
                    expected: Self::EXPECTED@,
                }),
            },
    {
        if wire == 1 {
            Ok(AuctionType::FirstPrice)
        } else if wire == 2 {
            Ok(AuctionType::SecondPricePlus)
        } else if wire > EXCHANGE_SPECIFIC_ABOVE {
            Ok(AuctionType::ExchangeSpecific(wire))
        } else {
            Err(DecodeError::invalid_value(wire, Self::EXPECTED))
        }
    }

    /// The wire integer of an auction type. Total: no value is refused.
    pub fn encode(&self) -> (wire: i32)
        ensures
            wire as int == self.encoded(),
    {
        match self {
            AuctionType::FirstPrice => 1,
            AuctionType::SecondPricePlus => 2,
            AuctionType::ExchangeSpecific(value) => *value,
        }
    }

    /// Whether the value is one that `decode` can give.
    pub fn is_well_formed(&self) -> (b: bool)
        ensures
            b == self.well_formed(),
    {
        match self {
            AuctionType::ExchangeSpecific(value) => *value > EXCHANGE_SPECIFIC_ABOVE,
            _ => true,
        }
    }

    /// Every legal wire integer is decoded, and to a value that encodes to
    /// that integer again.
    pub proof fn decoded_then_encoded(wire: i32)
        requires
            Self::is_legal(wire as int),
        ensures
            Self::decoded(wire as int) is Some,
            Self::decoded(wire as int).unwrap().encoded() == wire,
            Self::decoded(wire as int).unwrap().well_formed(),
    {
    }

    /// Every well-formed auction type encodes to a legal wire integer, which
    /// decodes to that auction type again.
    pub proof fn encoded_then_decoded(v: AuctionType)
        requires
            v.well_formed(),
        ensures
            Self::is_legal(v.encoded()),
            Self::decoded(v.encoded()) == Some(v),
    {
    }

    /// A wire integer is decoded exactly when it is legal: the others are
    /// refused, none is replaced by a default or moved into range.
    pub proof fn refused_unless_legal(wire: i32)
        ensures
            Self::decoded(wire as int) is None <==> !Self::is_legal(wire as int),
    {
    }
}

impl Coded for AuctionType {
    open spec fn expected() -> Seq<char> {
        AuctionType::EXPECTED@
    }

    open spec fn decoded(wire: int) -> Option<AuctionType> {
        AuctionType::decoded(wire)
    }

    open spec fn encoded(&self) -> int {
        AuctionType::encoded(*self)
    }

    open spec fn well_formed(&self) -> bool {
        AuctionType::well_formed(*self)
    }

    proof fn decoded_then_encoded(wire: i32) {
    }

    proof fn encoded_then_decoded(v: AuctionType) {
    }

    fn decode(wire: i32) -> (r: Result<AuctionType, DecodeError>) {
        AuctionType::decode(wire)
    }

    fn encode(&self) -> (wire: i32) {
        AuctionType::encode(self)
    }

    fn is_well_formed(&self) -> (b: bool) {
        AuctionType::is_well_formed(self)
    }
}

} // verus!

//! How far a video or audio ad may run beyond its maximum duration.

use crate::coded::Coded;
use crate::error::{DecodeError, DecodeErrorView};
use vstd::prelude::*;

verus! {

/// Maximum extended ad duration if extension is allowed. 0 means that
/// extension is not allowed, -1 that it is allowed without a time limit, and a
/// value greater than 0 is the number of seconds of extended play supported
/// beyond the maximum duration.
#[derive(Debug, PartialEq, Eq, Clone, Copy, Structural)]
pub enum MaxExtendedAdDuration {
    NoLimit,
    NotAllowed,
    Specific(i32),
}

impl MaxExtendedAdDuration {
    /// The legal forms of the wire integer, in words.
    pub const EXPECTED: &'static str = "-1 or 0 or greater than 0";

    /// Whether `wire` is a wire integer of an extended ad duration.
    pub open spec fn is_legal(wire: int) -> bool {
        wire >= -1
    }

    /// Whether the value is one that `decode` can give: a specific duration
    /// is positive.
    pub open spec fn well_formed(self) -> bool {
        match self {
            MaxExtendedAdDuration::Specific(seconds) => seconds > 0,
            _ => true,
        }
    }

    /// The duration that a wire integer stands for, if it is legal. The
    /// sentinels come first, the durations in seconds after them.
    pub open spec fn decoded(wire: int) -> Option<MaxExtendedAdDuration> {
        if wire == -1 {
            Some(MaxExtendedAdDuration::NoLimit)
        } else if wire == 0 {
            Some(MaxExtendedAdDuration::NotAllowed)
        } else if 0 < wire <= i32::MAX {
            Some(MaxExtendedAdDuration::Specific(wire as i32))
        } else {
            None
        }
    }

    /// The wire integer of an extended ad duration.
    pub open spec fn encoded(self) -> int {
        match self {
            MaxExtendedAdDuration::NoLimit => -1,
            MaxExtendedAdDuration::NotAllowed => 0,
            MaxExtendedAdDuration::Specific(seconds) => seconds as int,
        }
    }

    /// Reads an extended ad duration from its wire integer.
    pub fn decode(wire: i32) -> (r: Result<MaxExtendedAdDuration, DecodeError>)
        ensures
            match r {
                Ok(v) => Self::decoded(wire as int) == Some(v),
                Err(e) => Self::decoded(wire as int) is None && e@ == (
                DecodeErrorView::InvalidEnumeratedValue {
                    path: Seq::empty(),
                    value: wire as int,
                    expected: Self::EXPECTED@,
                }),
            },
    {
        if wire == -1 {
            Ok(MaxExtendedAdDuration::NoLimit)
        } else if wire == 0 {
            Ok(MaxExtendedAdDuration::NotAllowed)
        } else if wire > 0 {
            Ok(MaxExtendedAdDuration::Specific(wire))
        } else {
            Err(DecodeError::invalid_value(wire, Self::EXPECTED))
        }
    }

    /// The wire integer of an extended ad duration. Total: no value is
    /// refused.
    pub fn encode(&self) -> (wire: i32)
        ensures
            wire as int == self.encoded(),
    {
        match self {
            MaxExtendedAdDuration::NoLimit => -1,
            MaxExtendedAdDuration::NotAllowed => 0,
            MaxExtendedAdDuration::Specific(seconds) => *seconds,
        }
    }

    /// Whether the value is one that `decode` can give.
    pub fn is_well_formed(&self) -> (b: bool)
        ensures
            b == self.well_formed(),
    {
        match self {
            MaxExtendedAdDuration::Specific(seconds) => *seconds > 0,
            _ => true,
        }
    }

    /// Every legal wire integer is decoded, and to a value that encodes to
    /// that integer again.
    pub proof fn decoded_then_encoded(wire: i32)
        requires
            Self::is_legal(wire as int),
        ensures
            Self::decoded(wire as int) is Some,
            Self::decoded(wire as int).unwrap().encoded() == wire,
            Self::decoded(wire as int).unwrap().well_formed(),
    {
    }

    /// Every well-formed duration encodes to a legal wire integer, which
    /// decodes to that duration again.
    pub proof fn encoded_then_decoded(v: MaxExtendedAdDuration)
        requires
            v.well_formed(),
        ensures
            Self::is_legal(v.encoded()),
            Self::decoded(v.encoded()) == Some(v),
    {
    }

    /// A wire integer is decoded exactly when it is legal: the others are
    /// refused, none is replaced by a default or moved into range.
    pub proof fn refused_unless_legal(wire: i32)
        ensures
            Self::decoded(wire as int) is None <==> !Self::is_legal(wire as int),
    {
    }
}

impl Coded for MaxExtendedAdDuration {
    open spec fn expected() -> Seq<char> {
        MaxExtendedAdDuration::EXPECTED@
    }

    open spec fn decoded(wire: int) -> Option<MaxExtendedAdDuration> {
        MaxExtendedAdDuration::decoded(wire)
    }

    open spec fn encoded(&self) -> int {
        MaxExtendedAdDuration::encoded(*self)
    }

    open spec fn well_formed(&self) -> bool {
        MaxExtendedAdDuration::well_formed(*self)
    }

    proof fn decoded_then_encoded(wire: i32) {
    }

    proof fn encoded_then_decoded(v: MaxExtendedAdDuration) {
    }

    fn decode(wire: i32) -> (r: Result<MaxExtendedAdDuration, DecodeError>) {
        MaxExtendedAdDuration::decode(wire)
    }

    fn encode(&self) -> (wire: i32) {
        MaxExtendedAdDuration::encode(self)
    }

    fn is_well_formed(&self) -> (b: bool) {
        MaxExtendedAdDuration::is_well_formed(self)
    }
}

} // verus!

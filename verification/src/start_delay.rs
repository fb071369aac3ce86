//! The start delay of a video or audio ad.

use crate::coded::Coded;
use crate::error::{DecodeError, DecodeErrorView};
use vstd::prelude::*;

verus! {

/// The options for the video or audio start delay. A start delay greater
/// than 0 is a mid-roll position, and the value is the delay in seconds.
#[derive(Debug, PartialEq, Eq, Clone, Copy, Structural)]
pub enum StartDelay {
    /// Mid-Roll (value indicates start delay in second)
    MidRoll(i32),
    /// Pre-Roll
    PreRoll,
    /// Generic Mid-Roll
    GenericMidRoll,
    /// Generic Post-Roll
    GenericPostRoll,
}

impl StartDelay {
    /// The legal forms of the wire integer, in words.
    pub const EXPECTED: &'static str = "0 or -1 or -2 or greater than 0";

    /// Whether `wire` is a wire integer of a start delay.
    pub open spec fn is_legal(wire: int) -> bool {
        wire >= -2
    }

    /// Whether the value is one that `decode` can give: the delay of a
    /// mid-roll is positive.
    pub open spec fn well_formed(self) -> bool {
        match self {
            StartDelay::MidRoll(seconds) => seconds > 0,
            _ => true,
        }
    }

    /// The start delay that a wire integer stands for, if it is legal. The
    /// sentinels come first, the delays in seconds after them.
    pub open spec fn decoded(wire: int) -> Option<StartDelay> {
        if wire == 0 {
            Some(StartDelay::PreRoll)
        } else if wire == -1 {
            Some(StartDelay::GenericMidRoll)
        } else if wire == -2 {
            Some(StartDelay::GenericPostRoll)
        } else if 0 < wire <= i32::MAX {
            Some(StartDelay::MidRoll(wire as i32))
        } else {
            None
        }
    }

    /// The wire integer of a start delay.
    pub open spec fn encoded(self) -> int {
        match self {
            StartDelay::MidRoll(seconds) => seconds as int,
            StartDelay::PreRoll => 0,
            StartDelay::GenericMidRoll => -1,
            StartDelay::GenericPostRoll => -2,
        }
    }

    /// Reads a start delay from its wire integer.
    pub fn decode(wire: i32) -> (r: Result<StartDelay, DecodeError>)
        ensures
            match r {
                Ok(v) => Self::decoded(wire as int) == Some(v),
                Err(e) => Self::decoded(wire as int) is None && e@ == (
                DecodeErrorView::InvalidEnumeratedValue {
                    path: Seq::empty(),
                    value: wire as int,
                    expected: Self::EXPECTED@,
                }),
            },
    {
        if wire == 0 {
            Ok(StartDelay::PreRoll)
        } else if wire == -1 {
            Ok(StartDelay::GenericMidRoll)
        } else if wire == -2 {
            Ok(StartDelay::GenericPostRoll)
        } else if wire > 0 {
            Ok(StartDelay::MidRoll(wire))
        } else {
            Err(DecodeError::invalid_value(wire, Self::EXPECTED))
        }
    }

    /// The wire integer of a start delay. Total: no value is refused.
    pub fn encode(&self) -> (wire: i32)
        ensures
            wire as int == self.encoded(),
    {
        match self {
            StartDelay::MidRoll(seconds) => *seconds,
            StartDelay::PreRoll => 0,
            StartDelay::GenericMidRoll => -1,
            StartDelay::GenericPostRoll => -2,
        }
    }

    /// Whether the value is one that `decode` can give.
    pub fn is_well_formed(&self) -> (b: bool)
        ensures
            b == self.well_formed(),
    {
        match self {
            StartDelay::MidRoll(seconds) => *seconds > 0,
            _ => true,
        }
    }

    /// Every legal wire integer is decoded, and to a value that encodes to
    /// that integer again.
    pub proof fn decoded_then_encoded(wire: i32)
        requires
            Self::is_legal(wire as int),
        ensures
            Self::decoded(wire as int) is Some,
            Self::decoded(wire as int).unwrap().encoded() == wire,
            Self::decoded(wire as int).unwrap().well_formed(),
    {
    }

    /// Every well-formed start delay encodes to a legal wire integer, which
    /// decodes to that start delay again.
    pub proof fn encoded_then_decoded(v: StartDelay)
        requires
            v.well_formed(),
        ensures
            Self::is_legal(v.encoded()),
            Self::decoded(v.encoded()) == Some(v),
    {
    }

    /// A wire integer is decoded exactly when it is legal: the others are
    /// refused, none is replaced by a default or moved into range.
    pub proof fn refused_unless_legal(wire: i32)
        ensures
            Self::decoded(wire as int) is None <==> !Self::is_legal(wire as int),
    {
    }
}

impl Coded for StartDelay {
    open spec fn expected() -> Seq<char> {
        StartDelay::EXPECTED@
    }

    open spec fn decoded(wire: int) -> Option<StartDelay> {
        StartDelay::decoded(wire)
    }

    open spec fn encoded(&self) -> int {
        StartDelay::encoded(*self)
    }

    open spec fn well_formed(&self) -> bool {
        StartDelay::well_formed(*self)
    }

    proof fn decoded_then_encoded(wire: i32) {
    }

    proof fn encoded_then_decoded(v: StartDelay) {
    }

    fn decode(wire: i32) -> (r: Result<StartDelay, DecodeError>) {
        StartDelay::decode(wire)
    }

    fn encode(&self) -> (wire: i32) {
        StartDelay::encode(self)
    }

    fn is_well_formed(&self) -> (b: bool) {
        StartDelay::is_well_formed(self)
    }
}

} // verus!

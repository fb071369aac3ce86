//! How video or audio content is delivered.

use crate::coded::Coded;
use crate::error::{DecodeError, DecodeErrorView};
use vstd::prelude::*;

verus! {

/// The options for the delivery of video or audio content.
#[derive(Debug, PartialEq, Eq, Clone, Copy, Structural)]
pub enum ContentDeliveryMethod {
    /// Streaming
    Streaming,
    /// Progressive
    Progressive,
    /// Download
    Download,
}

impl ContentDeliveryMethod {
    /// The legal forms of the wire integer, in words.
    pub const EXPECTED: &'static str = "one of: 1, 2, 3";

    /// Whether `wire` is a wire integer of a content delivery method.
    pub open spec fn is_legal(wire: int) -> bool {
        1 <= wire <= 3
    }

    /// The value that a wire integer stands for, if it is legal.
    pub open spec fn decoded(wire: int) -> Option<ContentDeliveryMethod> {
        if wire == 1 {
            Some(ContentDeliveryMethod::Streaming)
        } else if wire == 2 {
            Some(ContentDeliveryMethod::Progressive)
        } else if wire == 3 {
            Some(ContentDeliveryMethod::Download)
        } else {
            None
        }
    }

    /// The wire integer of a content delivery method.
    pub open spec fn encoded(self) -> int {
        match self {
            ContentDeliveryMethod::Streaming => 1,
            ContentDeliveryMethod::Progressive => 2,
            ContentDeliveryMethod::Download => 3,
        }
    }

    /// Reads a content delivery method from its wire integer.
    pub fn decode(wire: i32) -> (r: Result<ContentDeliveryMethod, DecodeError>)
        ensures
            match r {
                Ok(v) => Self::decoded(wire as int) == Some(v),
                Err(e) => Self::decoded(wire as int) is None && e@ == (
                DecodeErrorView::InvalidEnumeratedValue {
                    path: Seq::empty(),
                    value: wire as int,
                    expected: Self::EXPECTED@,
                }),
            },
    {
        if wire == 1 {
            Ok(ContentDeliveryMethod::Streaming)
        } else if wire == 2 {
            Ok(ContentDeliveryMethod::Progressive)
        } else if wire == 3 {
            Ok(ContentDeliveryMethod::Download)
        } else {
            Err(DecodeError::invalid_value(wire, Self::EXPECTED))
        }
    }

    /// The wire integer of a content delivery method. Total: no value is refused.
    pub fn encode(&self) -> (wire: i32)
        ensures
            wire as int == self.encoded(),
    {
        match self {
            ContentDeliveryMethod::Streaming => 1,
            ContentDeliveryMethod::Progressive => 2,
            ContentDeliveryMethod::Download => 3,
        }
    }

    /// Every legal wire integer is decoded, and to a value that encodes to
    /// that integer again.
    pub proof fn decoded_then_encoded(wire: i32)
        requires
            Self::is_legal(wire as int),
        ensures
            Self::decoded(wire as int) is Some,
            Self::decoded(wire as int).unwrap().encoded() == wire,
    {
    }

    /// Every value encodes to a legal wire integer, which decodes to that
    /// value again.
    pub proof fn encoded_then_decoded(v: ContentDeliveryMethod)
        ensures
            Self::is_legal(v.encoded()),
            Self::decoded(v.encoded()) == Some(v),
    {
    }

    /// A wire integer is decoded exactly when it is legal: the others are
    /// refused, none is replaced by a default or moved into range.
    pub proof fn refused_unless_legal(wire: i32)
        ensures
            Self::decoded(wire as int) is None <==> !Self::is_legal(wire as int),
    {
    }
}

impl Coded for ContentDeliveryMethod {
    open spec fn expected() -> Seq<char> {
        ContentDeliveryMethod::EXPECTED@
    }

    open spec fn decoded(wire: int) -> Option<ContentDeliveryMethod> {
        ContentDeliveryMethod::decoded(wire)
    }

    open spec fn encoded(&self) -> int {
        ContentDeliveryMethod::encoded(*self)
    }

    open spec fn well_formed(&self) -> bool {
        true
    }

    proof fn decoded_then_encoded(wire: i32) {
    }

    proof fn encoded_then_decoded(v: ContentDeliveryMethod) {
    }

    fn decode(wire: i32) -> (r: Result<ContentDeliveryMethod, DecodeError>) {
        ContentDeliveryMethod::decode(wire)
    }

    fn encode(&self) -> (wire: i32) {
        ContentDeliveryMethod::encode(self)
    }

    fn is_well_formed(&self) -> (b: bool) {
        true
    }
}

} // verus!

//! The type of device from which an impression came.

use crate::coded::Coded;
use crate::error::{DecodeError, DecodeErrorView};
use vstd::prelude::*;

verus! {

/// The type of device from which the impression originated.
///
/// `Mobile` is the older code for both phones and tablets: prefer `Phone`
/// or `Tablet`, and treat a 1 that comes in as either of them.
#[derive(Debug, PartialEq, Eq, Clone, Copy, Structural)]
pub enum DeviceType {
    /// Mobile/Tablet
    Mobile,
    /// Personal Computer
    PersonalComputer,
    /// Connected TV
    ConnectedTv,
    /// Phone
    Phone,
    /// Tablet
    Tablet,
    /// Connected Device
    ConnectedDevice,
    /// Set Top Box
    SetTopBox,
}

impl DeviceType {
    /// The legal forms of the wire integer, in words.
    pub const EXPECTED: &'static str = "one of: 1, 2, 3, 4, 5, 6, 7";

    /// Whether `wire` is a wire integer of a device type.
    pub open spec fn is_legal(wire: int) -> bool {
        1 <= wire <= 7
    }

    /// The value that a wire integer stands for, if it is legal.
    pub open spec fn decoded(wire: int) -> Option<DeviceType> {
        if wire == 1 {
            Some(DeviceType::Mobile)
        } else if wire == 2 {
            Some(DeviceType::PersonalComputer)
        } else if wire == 3 {
            Some(DeviceType::ConnectedTv)
        } else if wire == 4 {
            Some(DeviceType::Phone)
        } else if wire == 5 {
            Some(DeviceType::Tablet)
        } else if wire == 6 {
            Some(DeviceType::ConnectedDevice)
        } else if wire == 7 {
            Some(DeviceType::SetTopBox)
        } else {
            None
        }
    }

    /// The wire integer of a device type.
    pub open spec fn encoded(self) -> int {
        match self {
            DeviceType::Mobile => 1,
            DeviceType::PersonalComputer => 2,
            DeviceType::ConnectedTv => 3,
            DeviceType::Phone => 4,
            DeviceType::Tablet => 5,
            DeviceType::ConnectedDevice => 6,
            DeviceType::SetTopBox => 7,
        }
    }

    /// Reads a device type from its wire integer.
    pub fn decode(wire: i32) -> (r: Result<DeviceType, DecodeError>)
        ensures
            match r {
                Ok(v) => Self::decoded(wire as int) == Some(v),
                Err(e) => Self::decoded(wire as int) is None && e@ == (
                DecodeErrorView::InvalidEnumeratedValue {
                    path: Seq::empty(),
                    value: wire as int,
                    expected: Self::EXPECTED@,
                }),
            },
    {
        if wire == 1 {
            Ok(DeviceType::Mobile)
        } else if wire == 2 {
            Ok(DeviceType::PersonalComputer)
        } else if wire == 3 {
            Ok(DeviceType::ConnectedTv)
        } else if wire == 4 {
            Ok(DeviceType::Phone)
        } else if wire == 5 {
            Ok(DeviceType::Tablet)
        } else if wire == 6 {
            Ok(DeviceType::ConnectedDevice)
        } else if wire == 7 {
            Ok(DeviceType::SetTopBox)
        } else {
            Err(DecodeError::invalid_value(wire, Self::EXPECTED))
        }
    }

    /// The wire integer of a device type. Total: no value is refused.
    pub fn encode(&self) -> (wire: i32)
        ensures
            wire as int == self.encoded(),
    {
        match self {
            DeviceType::Mobile => 1,
            DeviceType::PersonalComputer => 2,
            DeviceType::ConnectedTv => 3,
            DeviceType::Phone => 4,
            DeviceType::Tablet => 5,
            DeviceType::ConnectedDevice => 6,
            DeviceType::SetTopBox => 7,
        }
    }

    /// Every legal wire integer is decoded, and to a value that encodes to
    /// that integer again.
    pub proof fn decoded_then_encoded(wire: i32)
        requires
            Self::is_legal(wire as int),
        ensures
            Self::decoded(wire as int) is Some,
            Self::decoded(wire as int).unwrap().encoded() == wire,
    {
    }

    /// Every value encodes to a legal wire integer, which decodes to that
    /// value again.
    pub proof fn encoded_then_decoded(v: DeviceType)
        ensures
            Self::is_legal(v.encoded()),
            Self::decoded(v.encoded()) == Some(v),
    {
    }

    /// A wire integer is decoded exactly when it is legal: the others are
    /// refused, none is replaced by a default or moved into range.
    pub proof fn refused_unless_legal(wire: i32)
        ensures
            Self::decoded(wire as int) is None <==> !Self::is_legal(wire as int),
    {
    }
}

impl Coded for DeviceType {
    open spec fn expected() -> Seq<char> {
        DeviceType::EXPECTED@
    }

    open spec fn decoded(wire: int) -> Option<DeviceType> {
        DeviceType::decoded(wire)
    }

    open spec fn encoded(&self) -> int {
        DeviceType::encoded(*self)
    }

    open spec fn well_formed(&self) -> bool {
        true
    }

    proof fn decoded_then_encoded(wire: i32) {
    }

    proof fn encoded_then_decoded(v: DeviceType) {
    }

    fn decode(wire: i32) -> (r: Result<DeviceType, DecodeError>) {
        DeviceType::decode(wire)
    }

    fn encode(&self) -> (wire: i32) {
        DeviceType::encode(self)
    }

    fn is_well_formed(&self) -> (b: bool) {
        true
    }
}

} // verus!

//! The declared shape of one smart-light resource: its desired spec and the
//! status it reports back.
use vstd::prelude::*;
use vstd::string::StringExecFns;

use crate::conditions::Condition;
use crate::decimal::{dec_digits, push_decimal};

verus! {

/// Desired hue and saturation, both percentages.
#[derive(Clone, Copy, Debug, PartialEq, Eq, Structural)]
pub struct HueSaturationColor {
    /// Hue 0-100 (percentage)
    pub hue: u8,
    /// Saturation 0-100 (percentage)
    pub saturation: u8,
}

/// The rendering of a hue/saturation pair as human-readable text.
pub open spec fn hue_saturation_text(c: HueSaturationColor) -> Seq<char> {
    "(hue "@ + dec_digits(c.hue as nat) + ", saturation "@ + dec_digits(c.saturation as nat)
        + ")"@
}

impl HueSaturationColor {
    /// Human-readable rendering, for log lines.
    pub fn describe(&self) -> (r: String)
        ensures
            r@ == hue_saturation_text(*self),
    {
        let mut s = String::from_str("(hue ");
        push_decimal(&mut s, self.hue as u64);
        s.append(", saturation ");
        push_decimal(&mut s, self.saturation as u64);
        s.append(")");
        proof {
            assert(s@ =~= hue_saturation_text(*self));
        }
        s
    }
}

/// Desired color: exactly one of the two modes.
#[derive(Clone, Copy, Debug, PartialEq, Eq, Structural)]
pub enum Color {
    ColorTemperature(u16),
    HueSaturation(HueSaturationColor),
}

/// Desired on/off state.
#[derive(Clone, Copy, Debug, PartialEq, Eq, Structural)]
pub enum LightState {
    SwitchedOn,
    SwitchedOff,
}

impl LightState {
    /// Whether this state means the light is on.
    pub open spec fn spec_is_switched_on(&self) -> bool {
        match self {
            LightState::SwitchedOff => false,
            LightState::SwitchedOn => true,
        }
    }

    /// Whether this state means the light is on.
    #[verifier::when_used_as_spec(spec_is_switched_on)]
    pub fn is_switched_on(&self) -> (r: bool)
        ensures
            r == self.spec_is_switched_on(),
    {
        match self {
            LightState::SwitchedOff => false,
            LightState::SwitchedOn => true,
        }
    }
}

/// The desired configuration of one light.
#[derive(Clone, Debug)]
pub struct LightSpec {
    /// Device id
    pub device_id: String,
    /// Is the light on or off
    pub state: LightState,
    pub color: Option<Color>,
    /// Brightness 0-100 (percentage)
    pub brightness: Option<u8>,
}

/// The status a light resource reports back.
#[derive(Clone, Debug)]
pub struct LightStatus {
    pub conditions: Vec<Condition>,
}

/// The stored conditions of a resource: what its status holds, or an empty
/// set for a resource that has never reported one.
pub fn conditions_of_status(status: Option<LightStatus>) -> (r: Vec<Condition>)
    ensures
        match status {
            Some(s) => r == s.conditions,
            None => r@ == Seq::<Condition>::empty(),
        },
{
    match status {
        Some(s) => s.conditions,
        None => Vec::new(),
    }
}

} // verus!

//! Device-side vocabulary of the adapter: what a light reports, which
//! operations can be asked of it, and how its failures are classified.
use vstd::prelude::*;
use vstd::string::StringExecFns;

verus! {

/// The failure classes a device adapter exposes to its callers.
#[derive(Clone, Debug, PartialEq, Eq)]
pub enum Error {
    /// Fatal setup defect, surfaced once at adapter construction.
    Configuration(String),
    /// The identifier does not even have a valid syntactic form.
    InvalidId(String),
    /// Transient network or HTTP failure; retrying may clear it.
    RequestFailed(String),
    /// The identifier is well formed but names no device upstream.
    UnknownDeviceId,
}

/// The text of an error, as a log line would show it.
pub open spec fn error_text(e: Error) -> Seq<char> {
    match e {
        Error::Configuration(m) => "Configuration error: "@ + m@,
        Error::InvalidId(m) => "Invalid ID `"@ + m@ + "`"@,
        Error::RequestFailed(m) => "Request failed: "@ + m@,
        Error::UnknownDeviceId => "Device was not found"@,
    }
}

impl Error {
    /// Human-readable rendering of the failure.
    pub fn message(&self) -> (r: String)
        ensures
            r@ == error_text(*self),
    {
        match self {
            Error::Configuration(m) => {
                let mut s = String::from_str("Configuration error: ");
                s.append(m.as_str());
                proof {
                    assert(s@ =~= error_text(*self));
                }
                s
            },
            Error::InvalidId(m) => {
                let mut s = String::from_str("Invalid ID `");
                s.append(m.as_str());
                s.append("`");
                proof {
                    assert(s@ =~= error_text(*self));
                }
                s
            },
            Error::RequestFailed(m) => {
                let mut s = String::from_str("Request failed: ");
                s.append(m.as_str());
                proof {
                    assert(s@ =~= error_text(*self));
                }
                s
            },
            Error::UnknownDeviceId => String::from_str("Device was not found"),
        }
    }
}

/// Observed hue and saturation of a light.
#[derive(Clone, Copy, Debug, PartialEq, Eq, Structural)]
pub struct Color {
    pub hue: u8,
    pub saturation: u8,
}

/// Observed attributes of a light that reports itself online.
#[derive(Clone, Copy, Debug, PartialEq, Eq)]
pub struct LightOptions {
    pub switched_on: bool,
    pub brightness: Option<u8>,
    pub color_temperature: Option<u16>,
    pub color: Option<Color>,
}

/// What one status fetch observed.
#[derive(Clone, Copy, Debug, PartialEq, Eq)]
pub enum LightStatus {
    Offline,
    Online(LightOptions),
}

/// One corrective operation the engine can ask of the adapter. Each maps to
/// exactly one outbound device command.
#[derive(Clone, Copy, Debug, PartialEq, Eq, Structural)]
pub enum Command {
    /// The liveness probe sent before a status read.
    Ping,
    SetSwitchedOn(bool),
    SetBrightness(u8),
    SetColorTemperature(u16),
    SetColor(u8, u8),
}

} // verus!

//! The SmartThings capability adapter's decision logic: decoding a device
//! status report into the observed state, validating device identifiers,
//! classifying HTTP failures, and rendering the exact command payloads the
//! platform expects. The HTTP transport around these functions lives outside
//! the library; everything here is a function from plain values to plain
//! values with a stated contract.
use vstd::prelude::*;
use vstd::string::StringExecFns;

use crate::decimal::{dec_digits, push_decimal};
use crate::smarthome::{Color, Command, Error, LightOptions, LightStatus};

verus! {

/// Base URL of the SmartThings API.
pub const API_BASE_URL: &'static str = "https://api.smartthings.com/v1/";

/// How long a status fetch waits after its liveness probe before reading,
/// in milliseconds: the platform propagates liveness asynchronously, and an
/// immediate read can race the probe.
pub const SETTLE_DELAY_MILLIS: u64 = 200;

/// Liveness value of the health-check capability.
#[derive(Clone, Copy, Debug, PartialEq, Eq, Structural)]
pub enum DeviceStatusValue {
    Offline,
    Online,
}

/// On/off value of the switch capability.
#[derive(Clone, Copy, Debug, PartialEq, Eq, Structural)]
pub enum SwitchState {
    On,
    Off,
}

/// Liveness report, with the moment it was recorded (seconds since the Unix
/// epoch) when the platform supplied one.
#[derive(Clone, Copy, Debug, PartialEq, Eq)]
pub struct DeviceWatchDeviceStatus {
    pub value: Option<DeviceStatusValue>,
    pub timestamp: Option<i64>,
}

/// Health-check capability report.
#[derive(Clone, Copy, Debug, PartialEq, Eq)]
pub struct HealthCheckStatus {
    pub device_status: Option<DeviceWatchDeviceStatus>,
}

/// Switch capability report.
#[derive(Clone, Copy, Debug, PartialEq, Eq)]
pub struct SwitchStatus {
    pub value: Option<SwitchState>,
    pub timestamp: Option<i64>,
}

/// Brightness (switch level) capability report.
#[derive(Clone, Debug, PartialEq, Eq)]
pub struct SwitchLevelStatus {
    pub value: Option<i32>,
    pub timestamp: Option<i64>,
    pub unit: String,
}

/// One component of a color report.
#[derive(Clone, Copy, Debug, PartialEq, Eq)]
pub struct ColorComponentStatus {
    pub timestamp: Option<i64>,
    pub value: Option<i32>,
}

/// Color-control capability report.
#[derive(Clone, Copy, Debug, PartialEq, Eq)]
pub struct ColorControlStatus {
    pub hue: ColorComponentStatus,
    pub saturation: ColorComponentStatus,
}

/// Color-temperature capability report.
#[derive(Clone, Debug, PartialEq, Eq)]
pub struct ColorTemperatureStatus {
    pub timestamp: Option<i64>,
    pub value: Option<i32>,
    pub unit: Option<String>,
}

/// Everything the main component of a device may report. Any capability may
/// be absent: a device reports nothing for a capability it does not support,
/// and firmware intermittently omits single reports while the rest stay
/// valid, so absence is tolerated rather than treated as an error.
#[derive(Clone, Debug, PartialEq, Eq)]
pub struct ComponentStatus {
    pub color_control: Option<ColorControlStatus>,
    pub color_temperature: Option<ColorTemperatureStatus>,
    pub health_check: Option<HealthCheckStatus>,
    pub switch: Option<SwitchStatus>,
    pub switch_level: Option<SwitchLevelStatus>,
}

/// The per-component structure of a status payload.
#[derive(Clone, Debug, PartialEq, Eq)]
pub struct DeviceComponentStatuses {
    pub main: ComponentStatus,
}

/// A decoded device status payload.
#[derive(Clone, Debug, PartialEq, Eq)]
pub struct DeviceStatus {
    pub components: DeviceComponentStatuses,
}

/// A device counts as online exactly when its health check reports the
/// online liveness value; any other value, or absence, means offline.
pub open spec fn reported_online(body: DeviceStatus) -> bool {
    match body.components.main.health_check {
        Some(hc) => match hc.device_status {
            Some(ds) => ds.value == Some(DeviceStatusValue::Online),
            None => false,
        },
        None => false,
    }
}

/// The switch reads as on exactly when the capability reports `On`; absence
/// defaults to off.
pub open spec fn reported_switched_on(body: DeviceStatus) -> bool {
    match body.components.main.switch {
        Some(sw) => sw.value == Some(SwitchState::On),
        None => false,
    }
}

/// A reported value clamped into the percentage range.
pub open spec fn clamp_percent(v: i32) -> u8 {
    if v < 0 {
        0
    } else if v > 100 {
        100
    } else {
        v as u8
    }
}

/// The brightness a report exposes: the reported level clamped to 0-100,
/// absent when the capability or its value is missing.
pub open spec fn reported_brightness(body: DeviceStatus) -> Option<u8> {
    match body.components.main.switch_level {
        Some(sl) => match sl.value {
            Some(v) => Some(clamp_percent(v)),
            None => None,
        },
        None => None,
    }
}

/// The color temperature a report exposes; a value outside the target range
/// is treated as absent, not as an error.
pub open spec fn reported_color_temperature(body: DeviceStatus) -> Option<u16> {
    match body.components.main.color_temperature {
        Some(ct) => match ct.value {
            Some(v) => if 0 <= v <= u16::MAX {
                Some(v as u16)
            } else {
                None
            },
            None => None,
        },
        None => None,
    }
}

/// The hue/saturation pair a report exposes; the pair is absent unless both
/// components carry a value that converts into the target range.
pub open spec fn reported_color(body: DeviceStatus) -> Option<Color> {
    match body.components.main.color_control {
        Some(cc) => match (cc.hue.value, cc.saturation.value) {
            (Some(h), Some(s)) => if 0 <= h <= u8::MAX && 0 <= s <= u8::MAX {
                Some(Color { hue: h as u8, saturation: s as u8 })
            } else {
                None
            },
            _ => None,
        },
        None => None,
    }
}

/// What one status payload observes of the device.
pub open spec fn observed_light_status(body: DeviceStatus) -> LightStatus {
    if !reported_online(body) {
        LightStatus::Offline
    } else {
        LightStatus::Online(
            LightOptions {
                switched_on: reported_switched_on(body),
                brightness: reported_brightness(body),
                color_temperature: reported_color_temperature(body),
                color: reported_color(body),
            },
        )
    }
}

/// Decode one status payload into the observed device state; no single
/// missing or malformed capability report fails the decode.
pub fn light_status_from_report(body: &DeviceStatus) -> (s: LightStatus)
    ensures
        s == observed_light_status(*body),
{
    let online = match &body.components.main.health_check {
        Some(hc) => match &hc.device_status {
            Some(ds) => match ds.value {
                Some(DeviceStatusValue::Online) => true,
                _ => false,
            },
            None => false,
        },
        None => false,
    };
    if !online {
        return LightStatus::Offline;
    }
    let switched_on = match &body.components.main.switch {
        Some(sw) => match sw.value {
            Some(SwitchState::On) => true,
            _ => false,
        },
        None => false,
    };
    let brightness = match &body.components.main.switch_level {
        Some(sl) => match sl.value {
            Some(v) => if v < 0 {
                Some(0u8)
            } else if v > 100 {
                Some(100u8)
            } else {
                Some(v as u8)
            },
            None => None,
        },
        None => None,
    };
    let color_temperature = match &body.components.main.color_temperature {
        Some(ct) => match ct.value {
            Some(v) => if 0 <= v && v <= 65535 {
                Some(v as u16)
            } else {
                None
            },
            None => None,
        },
        None => None,
    };
    let color = match &body.components.main.color_control {
        Some(cc) => match (cc.hue.value, cc.saturation.value) {
            (Some(h), Some(s)) => if 0 <= h && h <= 255 && 0 <= s && s <= 255 {
                Some(Color { hue: h as u8, saturation: s as u8 })
            } else {
                None
            },
            _ => None,
        },
        None => None,
    };
    LightStatus::Online(LightOptions { switched_on, brightness, color_temperature, color })
}

/// Whether a report timestamp lies within the staleness window (ten minutes)
/// of the given current time, both in seconds since the Unix epoch.
pub open spec fn recent(now: i64, ts: Option<i64>) -> bool {
    match ts {
        None => false,
        Some(t) => now - t <= 600,
    }
}

/// Whether a capability report recorded at `ts` is recent enough, judged
/// against the current time `now`.
pub fn is_recent(now: i64, ts: Option<i64>) -> (r: bool)
    ensures
        r == recent(now, ts),
{
    match ts {
        None => false,
        Some(t) => (now as i128) - (t as i128) <= 600,
    }
}

/// Whether a string has the syntactic form of a device identifier. The
/// platform addresses devices by UUID, so this is exactly what its parser
/// accepts.
pub uninterp spec fn uuid_parses(s: Seq<char>) -> bool;

/// Relies on uuid::Uuid::try_parse: whether a string parses as a UUID
/// depends on its characters alone.
#[verifier::external_body]
fn device_id_well_formed(id: &str) -> (r: bool)
    ensures
        r == uuid_parses(id@),
{
    uuid::Uuid::try_parse(id).is_ok()
}

/// Check a device identifier syntactically, before any network traffic: a
/// string that does not parse as a UUID is rejected as `InvalidId`, carrying
/// the offending identifier.
pub fn validate_device_id(id: &str) -> (r: Result<(), Error>)
    ensures
        r is Ok <==> uuid_parses(id@),
        r matches Err(e) ==> e matches Error::InvalidId(m) && m@ == id@,
{
    if device_id_well_formed(id) {
        Ok(())
    } else {
        Err(Error::InvalidId(String::from_str(id)))
    }
}

/// The text describing a rejected HTTP status.
pub open spec fn http_failure_text(status: u16) -> Seq<char> {
    "HTTP status "@ + dec_digits(status as nat)
}

/// Classify an HTTP response status the way the adapter reports failures: a
/// forbidden/not-found response means the device id is unknown upstream, any
/// other client or server error is a transient request failure, everything
/// else passes.
pub fn classify_http_status(status: u16) -> (r: Result<(), Error>)
    ensures
        status == 403 ==> (r matches Err(e) && e is UnknownDeviceId),
        status != 403 && 400 <= status < 600 ==> (r matches Err(e)
            && e matches Error::RequestFailed(m) && m@ == http_failure_text(status)),
        !(400 <= status < 600) ==> r is Ok,
{
    if status == 403 {
        Err(Error::UnknownDeviceId)
    } else if 400 <= status && status < 600 {
        let mut m = String::from_str("HTTP status ");
        push_decimal(&mut m, status as u64);
        Err(Error::RequestFailed(m))
    } else {
        Ok(())
    }
}

/// The capability a command addresses.
pub open spec fn command_capability(c: Command) -> Seq<char> {
    match c {
        Command::Ping => "healthCheck"@,
        Command::SetSwitchedOn(_) => "switch"@,
        Command::SetBrightness(_) => "switchLevel"@,
        Command::SetColorTemperature(_) => "colorTemperature"@,
        Command::SetColor(_, _) => "colorControl"@,
    }
}

/// The command name sent for a command.
pub open spec fn command_name(c: Command) -> Seq<char> {
    match c {
        Command::Ping => "ping"@,
        Command::SetSwitchedOn(on) => if on {
            "on"@
        } else {
            "off"@
        },
        Command::SetBrightness(_) => "setLevel"@,
        Command::SetColorTemperature(_) => "setColorTemperature"@,
        Command::SetColor(_, _) => "setColor"@,
    }
}

/// A requested level clamped into the percentage range the platform takes.
pub open spec fn clamp_level(b: u8) -> u8 {
    if b > 100 {
        100
    } else {
        b
    }
}

/// The JSON argument array sent for a command. A brightness command carries
/// the clamped level and the platform's transition time; a color command
/// carries one combined hue/saturation object.
pub open spec fn command_arguments_text(c: Command) -> Seq<char> {
    match c {
        Command::Ping => "[]"@,
        Command::SetSwitchedOn(_) => "[]"@,
        Command::SetBrightness(b) => "["@ + dec_digits(clamp_level(b) as nat) + ",20]"@,
        Command::SetColorTemperature(t) => "["@ + dec_digits(t as nat) + "]"@,
        Command::SetColor(h, s) => "[{\"hue\":"@ + dec_digits(h as nat) + ",\"saturation\":"@
            + dec_digits(s as nat) + "}]"@,
    }
}

/// The full JSON body of one outbound command request: one command against
/// the main component of the addressed device.
pub open spec fn command_body_text(c: Command) -> Seq<char> {
    "{\"commands\":[{\"component\":\"main\",\"capability\":\""@ + command_capability(c)
        + "\",\"command\":\""@ + command_name(c) + "\",\"arguments\":"@
        + command_arguments_text(c) + "}]}"@
}

/// The capability a command addresses, as text.
fn capability_str(c: &Command) -> (r: &'static str)
    ensures
        r@ == command_capability(*c),
{
    match c {
        Command::Ping => "healthCheck",
        Command::SetSwitchedOn(_) => "switch",
        Command::SetBrightness(_) => "switchLevel",
        Command::SetColorTemperature(_) => "colorTemperature",
        Command::SetColor(_, _) => "colorControl",
    }
}

/// The command name sent for a command, as text.
fn command_name_str(c: &Command) -> (r: &'static str)
    ensures
        r@ == command_name(*c),
{
    match c {
        Command::Ping => "ping",
        Command::SetSwitchedOn(on) => if *on {
            "on"
        } else {
            "off"
        },
        Command::SetBrightness(_) => "setLevel",
        Command::SetColorTemperature(_) => "setColorTemperature",
        Command::SetColor(_, _) => "setColor",
    }
}

/// Append the JSON argument array of a command.
fn push_arguments(s: &mut String, c: &Command)
    ensures
        final(s)@ == old(s)@ + command_arguments_text(*c),
{
    match c {
        Command::Ping => {
            s.append("[]");
        },
        Command::SetSwitchedOn(_) => {
            s.append("[]");
        },
        Command::SetBrightness(b) => {
            let level: u8 = if *b > 100 {
                100
            } else {
                *b
            };
            s.append("[");
            push_decimal(s, level as u64);
            s.append(",20]");
            assert(s@ =~= old(s)@ + command_arguments_text(*c));
        },
        Command::SetColorTemperature(t) => {
            s.append("[");
            push_decimal(s, *t as u64);
            s.append("]");
            assert(s@ =~= old(s)@ + command_arguments_text(*c));
        },
        Command::SetColor(h, sat) => {
            s.append("[{\"hue\":");
            push_decimal(s, *h as u64);
            s.append(",\"saturation\":");
            push_decimal(s, *sat as u64);
            s.append("}]");
            assert(s@ =~= old(s)@ + command_arguments_text(*c));
        },
    }
}

/// Render the exact JSON body of one outbound command request.
pub fn command_body(c: &Command) -> (r: String)
    ensures
        r@ == command_body_text(*c),
{
    let mut s = String::from_str("{\"commands\":[{\"component\":\"main\",\"capability\":\"");
    s.append(capability_str(c));
    s.append("\",\"command\":\"");
    s.append(command_name_str(c));
    s.append("\",\"arguments\":");
    push_arguments(&mut s, c);
    s.append("}]}");
    proof {
        assert(s@ =~= command_body_text(*c));
    }
    s
}

/// The request path, relative to the API base, for sending commands to a
/// device.
pub fn commands_path(id: &str) -> (r: String)
    ensures
        r@ == "devices/"@ + id@ + "/commands"@,
{
    let mut s = String::from_str("devices/");
    s.append(id);
    s.append("/commands");
    proof {
        assert(s@ =~= "devices/"@ + id@ + "/commands"@);
    }
    s
}

/// The request path, relative to the API base, for reading a device's
/// status.
pub fn status_path(id: &str) -> (r: String)
    ensures
        r@ == "devices/"@ + id@ + "/status"@,
{
    let mut s = String::from_str("devices/");
    s.append(id);
    s.append("/status");
    proof {
        assert(s@ =~= "devices/"@ + id@ + "/status"@);
    }
    s
}

/// The value of the authorization header carrying the static bearer
/// credential.
pub fn bearer_header_value(token: &str) -> (r: String)
    ensures
        r@ == "Bearer "@ + token@,
{
    let mut s = String::from_str("Bearer ");
    s.append(token);
    proof {
        assert(s@ =~= "Bearer "@ + token@);
    }
    s
}

/// The adapter cannot be built without the platform credential: hand back
/// the configured token, or the construction-time configuration failure.
pub fn require_api_token(api_key: &Option<String>) -> (r: Result<String, Error>)
    ensures
        match r {
            Ok(t) => api_key matches Some(k) && t@ == k@,
            Err(e) => {
                &&& api_key is None
                &&& e matches Error::Configuration(m) && m@
                    == "SmartThings API token not configured"@
            },
        },
        r is Ok <==> api_key is Some,
{
    match api_key {
        Some(k) => Ok(k.clone()),
        None => Err(
            Error::Configuration(String::from_str("SmartThings API token not configured")),
        ),
    }
}

} // verus!

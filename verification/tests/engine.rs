use light_operator::conditions::{Condition, ConditionStatus};
use light_operator::engine::{diff_commands, plan_pass};
use light_operator::light::{Color, HueSaturationColor, LightSpec, LightState};
use light_operator::smarthome::{
    Color as ObservedColor, Command, Error, LightOptions, LightStatus,
};

fn spec(state: LightState, brightness: Option<u8>, color: Option<Color>) -> LightSpec {
    LightSpec { device_id: "ab1ac347-7a1b-41d3-9f27-a3d1f0cbbc01".to_string(), state, color, brightness }
}

fn online(
    switched_on: bool,
    brightness: Option<u8>,
    color_temperature: Option<u16>,
    color: Option<ObservedColor>,
) -> LightOptions {
    LightOptions { switched_on, brightness, color_temperature, color }
}

fn find<'a>(conds: &'a [Condition], t: &str) -> &'a Condition {
    conds
        .iter()
        .find(|c| c.type_ == t)
        .expect("condition of the requested type should exist")
}

#[test]
fn matching_state_issues_no_commands() {
    let s = spec(
        LightState::SwitchedOn,
        Some(50),
        Some(Color::HueSaturation(HueSaturationColor { hue: 10, saturation: 20 })),
    );
    let o = online(true, Some(50), None, Some(ObservedColor { hue: 10, saturation: 20 }));
    assert_eq!(diff_commands(&s, &o), Vec::new());
}

#[test]
fn convergence_scenario_issues_switch_and_brightness_only() {
    // Desired: on, brightness 50, hue/saturation (10, 20).
    // Observed online: off, brightness 30, color already (10, 20).
    let s = spec(
        LightState::SwitchedOn,
        Some(50),
        Some(Color::HueSaturation(HueSaturationColor { hue: 10, saturation: 20 })),
    );
    let o = online(false, Some(30), None, Some(ObservedColor { hue: 10, saturation: 20 }));
    let out = plan_pass(&s, Some(2), Vec::new(), Ok(LightStatus::Online(o)), 1000, 300);
    assert_eq!(
        out.commands,
        vec![Command::SetSwitchedOn(true), Command::SetBrightness(50)]
    );
    let ready = find(&out.conditions, "Ready");
    assert_eq!(ready.status, ConditionStatus::True);
    assert_eq!(ready.reason, "DeviceOnline");
    assert_eq!(out.failure, None);
    assert_eq!(out.requeue_after_seconds, 300);
}

#[test]
fn unknown_device_scenario_marks_both_conditions_and_fails() {
    let s = spec(LightState::SwitchedOn, None, None);
    let out = plan_pass(&s, Some(5), Vec::new(), Err(Error::UnknownDeviceId), 1000, 300);
    let invalid = find(&out.conditions, "InvalidDevice");
    assert_eq!(invalid.status, ConditionStatus::True);
    assert_eq!(invalid.reason, "DeviceNotFound");
    assert_eq!(invalid.message, "Device ID is invalid or unknown");
    assert_eq!(invalid.observed_generation, Some(5));
    let ready = find(&out.conditions, "Ready");
    assert_eq!(ready.status, ConditionStatus::False);
    assert_eq!(ready.reason, "InvalidDevice");
    assert!(out.commands.is_empty());
    assert_eq!(out.failure, Some(Error::UnknownDeviceId));
    assert_eq!(out.requeue_after_seconds, 5);
}

#[test]
fn invalid_id_failure_reports_id_is_invalid() {
    let s = spec(LightState::SwitchedOn, None, None);
    let out = plan_pass(
        &s,
        None,
        Vec::new(),
        Err(Error::InvalidId("oops".to_string())),
        1000,
        300,
    );
    let invalid = find(&out.conditions, "InvalidDevice");
    assert_eq!(invalid.status, ConditionStatus::True);
    assert_eq!(invalid.reason, "IdIsInvalid");
    assert_eq!(out.requeue_after_seconds, 5);
}

#[test]
fn transient_failure_leaves_the_id_vouched_for() {
    let s = spec(LightState::SwitchedOn, None, None);
    let out = plan_pass(
        &s,
        None,
        Vec::new(),
        Err(Error::RequestFailed("boom".to_string())),
        1000,
        300,
    );
    let invalid = find(&out.conditions, "InvalidDevice");
    assert_eq!(invalid.status, ConditionStatus::False);
    assert_eq!(invalid.reason, "DeviceIdOk");
    let ready = find(&out.conditions, "Ready");
    assert_eq!(ready.status, ConditionStatus::False);
    assert_eq!(ready.reason, "InvalidDevice");
    assert!(out.commands.is_empty());
}

#[test]
fn configuration_failure_leaves_the_id_vouched_for() {
    let s = spec(LightState::SwitchedOn, None, None);
    let out = plan_pass(
        &s,
        None,
        Vec::new(),
        Err(Error::Configuration("no token".to_string())),
        1000,
        300,
    );
    let invalid = find(&out.conditions, "InvalidDevice");
    assert_eq!(invalid.status, ConditionStatus::False);
    assert_eq!(invalid.reason, "DeviceIdOk");
}

#[test]
fn offline_device_short_circuits_commands() {
    let s = spec(
        LightState::SwitchedOn,
        Some(80),
        Some(Color::ColorTemperature(4000)),
    );
    let out = plan_pass(&s, Some(1), Vec::new(), Ok(LightStatus::Offline), 1000, 300);
    assert!(out.commands.is_empty());
    let ready = find(&out.conditions, "Ready");
    assert_eq!(ready.status, ConditionStatus::False);
    assert_eq!(ready.reason, "DeviceOffline");
    assert_eq!(ready.message, "Light device is offline");
    let invalid = find(&out.conditions, "InvalidDevice");
    assert_eq!(invalid.status, ConditionStatus::False);
    assert_eq!(invalid.reason, "DeviceIdOk");
    assert_eq!(out.failure, None);
    assert_eq!(out.requeue_after_seconds, 300);
}

#[test]
fn successful_fetch_records_the_id_as_usable() {
    let s = spec(LightState::SwitchedOff, None, None);
    let o = online(false, None, None, None);
    let out = plan_pass(&s, Some(9), Vec::new(), Ok(LightStatus::Online(o)), 42, 600);
    let invalid = find(&out.conditions, "InvalidDevice");
    assert_eq!(invalid.status, ConditionStatus::False);
    assert_eq!(invalid.reason, "DeviceIdOk");
    assert_eq!(invalid.observed_generation, Some(9));
    assert!(out.commands.is_empty());
    assert_eq!(out.requeue_after_seconds, 600);
}

#[test]
fn temperature_mode_never_issues_a_color_command() {
    let s = spec(LightState::SwitchedOn, None, Some(Color::ColorTemperature(4000)));
    // Observed color drifted and temperature differs.
    let o = online(true, None, Some(3000), Some(ObservedColor { hue: 99, saturation: 1 }));
    let cmds = diff_commands(&s, &o);
    assert_eq!(cmds, vec![Command::SetColorTemperature(4000)]);
}

#[test]
fn hue_saturation_mode_never_issues_a_temperature_command() {
    let s = spec(
        LightState::SwitchedOn,
        None,
        Some(Color::HueSaturation(HueSaturationColor { hue: 10, saturation: 20 })),
    );
    let o = online(true, None, Some(2700), Some(ObservedColor { hue: 10, saturation: 99 }));
    let cmds = diff_commands(&s, &o);
    assert_eq!(cmds, vec![Command::SetColor(10, 20)]);
}

#[test]
fn no_desired_color_issues_no_color_command_despite_drift() {
    let s = spec(LightState::SwitchedOn, None, None);
    let o = online(true, None, Some(2700), Some(ObservedColor { hue: 1, saturation: 2 }));
    assert_eq!(diff_commands(&s, &o), Vec::new());
}

#[test]
fn absent_desired_brightness_is_never_compared() {
    let s = spec(LightState::SwitchedOn, None, None);
    let o = online(true, Some(30), None, None);
    assert_eq!(diff_commands(&s, &o), Vec::new());
}

#[test]
fn absent_observed_brightness_counts_as_different() {
    let s = spec(LightState::SwitchedOn, Some(40), None);
    let o = online(true, None, None, None);
    assert_eq!(diff_commands(&s, &o), vec![Command::SetBrightness(40)]);
}

#[test]
fn mismatched_hue_alone_triggers_one_combined_color_command() {
    let s = spec(
        LightState::SwitchedOn,
        None,
        Some(Color::HueSaturation(HueSaturationColor { hue: 11, saturation: 20 })),
    );
    let o = online(true, None, None, Some(ObservedColor { hue: 10, saturation: 20 }));
    assert_eq!(diff_commands(&s, &o), vec![Command::SetColor(11, 20)]);
}

#[test]
fn switch_off_command_when_light_should_be_off() {
    let s = spec(LightState::SwitchedOff, None, None);
    let o = online(true, None, None, None);
    assert_eq!(diff_commands(&s, &o), vec![Command::SetSwitchedOn(false)]);
}

#[test]
fn is_switched_on_reads_the_state() {
    assert!(LightState::SwitchedOn.is_switched_on());
    assert!(!LightState::SwitchedOff.is_switched_on());
}

#[test]
fn error_requeue_is_five_seconds() {
    assert_eq!(light_operator::error_requeue_seconds(), 5);
    assert_eq!(light_operator::ERROR_REQUEUE_SECONDS, 5);
}

#[test]
fn existing_conditions_are_updated_in_place() {
    let s = spec(LightState::SwitchedOn, None, None);
    let o = online(true, None, None, None);
    let first = plan_pass(&s, Some(1), Vec::new(), Ok(LightStatus::Online(o)), 100, 300);
    let second = plan_pass(
        &s,
        Some(1),
        first.conditions,
        Ok(LightStatus::Online(o)),
        200,
        300,
    );
    // Nothing changed, so the stamps of the first pass survive the second.
    assert_eq!(second.conditions.len(), 2);
    assert_eq!(find(&second.conditions, "Ready").last_transition_time, 100);
    assert_eq!(find(&second.conditions, "InvalidDevice").last_transition_time, 100);
}

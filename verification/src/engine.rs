//! The reconciliation engine: one convergence pass for one resource.
//!
//! A pass is planned as a pure decision: given the resource's desired spec,
//! its stored conditions, and the outcome of the status fetch, it yields the
//! final condition set, the corrective commands to issue, whether the pass
//! fails, and when to run again. The caller performs the network calls and
//! feeds their results in; every decision here is verified for all inputs.
use vstd::prelude::*;

use crate::clock::current_unix_seconds;
use crate::conditions::{
    condition_of, create_condition, ensure_condition, ensure_model, has_type,
    lemma_ensure_model_effect, lemma_update_model_effect, same_transition_identity, unique_types,
    update_conditions, update_model, CondView, Condition, ConditionStatus,
};
use crate::light::{Color, LightSpec};
use crate::smarthome::{Command, Error, LightOptions, LightStatus};
use crate::ERROR_REQUEUE_SECONDS;

verus! {

/// Everything one reconciliation pass decides.
pub struct PassOutcome {
    /// The final condition set, to be patched onto the resource.
    pub conditions: Vec<Condition>,
    /// The corrective commands to issue, in order.
    pub commands: Vec<Command>,
    /// The failure the pass reports after patching, if the status fetch
    /// failed.
    pub failure: Option<Error>,
    /// Seconds until the next pass.
    pub requeue_after_seconds: u64,
}

/// The commands that bring the switch into the desired state.
pub open spec fn switch_commands(s: LightSpec, o: LightOptions) -> Seq<Command> {
    if o.switched_on != s.state.spec_is_switched_on() {
        seq![Command::SetSwitchedOn(s.state.spec_is_switched_on())]
    } else {
        Seq::empty()
    }
}

/// The commands that bring the brightness into the desired state: none
/// unless the resource specifies a desired brightness, one whenever the
/// observed level (or its absence) differs from it.
pub open spec fn brightness_commands(s: LightSpec, o: LightOptions) -> Seq<Command> {
    match s.brightness {
        Some(b) => if o.brightness != Some(b) {
            seq![Command::SetBrightness(b)]
        } else {
            Seq::empty()
        },
        None => Seq::empty(),
    }
}

/// The commands that bring the color into the desired state. Only the
/// desired color's own mode is ever compared: temperature mode looks at the
/// observed temperature alone, hue/saturation mode at the observed pair
/// alone (either component mismatching triggers one combined command), and
/// a resource with no desired color never issues a color command.
pub open spec fn color_commands(s: LightSpec, o: LightOptions) -> Seq<Command> {
    match s.color {
        Some(Color::ColorTemperature(t)) => if o.color_temperature != Some(t) {
            seq![Command::SetColorTemperature(t)]
        } else {
            Seq::empty()
        },
        Some(Color::HueSaturation(hs)) => {
            let matches_observed = match o.color {
                Some(c) => c.hue == hs.hue && c.saturation == hs.saturation,
                None => false,
            };
            if !matches_observed {
                seq![Command::SetColor(hs.hue, hs.saturation)]
            } else {
                Seq::empty()
            }
        },
        None => Seq::empty(),
    }
}

/// The corrective commands of one pass over an online device: each
/// controllable attribute is diffed independently, in a fixed order, and
/// contributes at most one command.
pub open spec fn desired_commands(s: LightSpec, o: LightOptions) -> Seq<Command> {
    switch_commands(s, o) + brightness_commands(s, o) + color_commands(s, o)
}

/// Whether the observed state already matches the desired spec in every
/// attribute the spec constrains.
pub open spec fn observed_matches(s: LightSpec, o: LightOptions) -> bool {
    &&& o.switched_on == s.state.spec_is_switched_on()
    &&& (match s.brightness {
        Some(b) => o.brightness == Some(b),
        None => true,
    })
    &&& (match s.color {
        Some(Color::ColorTemperature(t)) => o.color_temperature == Some(t),
        Some(Color::HueSaturation(hs)) => match o.color {
            Some(c) => c.hue == hs.hue && c.saturation == hs.saturation,
            None => false,
        },
        None => true,
    })
}

/// Law (idempotence): a pass over an observed state that already matches
/// the desired spec issues no command at all.
pub proof fn lemma_idempotent_no_commands(s: LightSpec, o: LightOptions)
    requires
        observed_matches(s, o),
    ensures
        desired_commands(s, o) =~= Seq::<Command>::empty(),
{
}

/// Whether a command sets hue and saturation.
pub open spec fn is_color_command(c: Command) -> bool {
    c matches Command::SetColor(_, _)
}

/// Whether a command sets the color temperature.
pub open spec fn is_color_temperature_command(c: Command) -> bool {
    c matches Command::SetColorTemperature(_)
}

/// Law (color mode exclusivity): a temperature-mode resource never issues a
/// hue/saturation command and a hue/saturation-mode resource never issues a
/// temperature command; a resource with no desired color issues neither,
/// whatever color the device reports.
pub proof fn lemma_color_mode_exclusive(s: LightSpec, o: LightOptions)
    ensures
        s.color matches Some(Color::ColorTemperature(_)) ==> forall|i: int|
            0 <= i < desired_commands(s, o).len() ==> !is_color_command(
                #[trigger] desired_commands(s, o)[i],
            ),
        s.color matches Some(Color::HueSaturation(_)) ==> forall|i: int|
            0 <= i < desired_commands(s, o).len() ==> !is_color_temperature_command(
                #[trigger] desired_commands(s, o)[i],
            ),
        s.color is None ==> forall|i: int|
            0 <= i < desired_commands(s, o).len() ==> !is_color_command(
                #[trigger] desired_commands(s, o)[i],
            ) && !is_color_temperature_command(desired_commands(s, o)[i]),
{
}

/// How a status-fetch failure bears on the device identifier: a positive
/// signal with its reason for failures that indict the id itself, none for
/// failures that say nothing about it.
pub open spec fn invalid_reason_for(e: Error) -> Option<Seq<char>> {
    match e {
        Error::Configuration(_) => None,
        Error::InvalidId(_) => Some("IdIsInvalid"@),
        Error::RequestFailed(_) => None,
        Error::UnknownDeviceId => Some("DeviceNotFound"@),
    }
}

/// The `InvalidDevice` condition a pass writes, given the fetch outcome.
pub open spec fn invalid_condition_view(
    fetched: Result<LightStatus, Error>,
    generation: Option<i64>,
) -> CondView {
    let positive = match fetched {
        Ok(_) => None,
        Err(e) => invalid_reason_for(e),
    };
    match positive {
        None => CondView {
            type_: "InvalidDevice"@,
            status: ConditionStatus::False,
            reason: "DeviceIdOk"@,
            message: Seq::<char>::empty(),
            observed_generation: generation,
            last_transition_time: 0,
        },
        Some(reason) => CondView {
            type_: "InvalidDevice"@,
            status: ConditionStatus::True,
            reason: reason,
            message: "Device ID is invalid or unknown"@,
            observed_generation: generation,
            last_transition_time: 0,
        },
    }
}

/// The `Ready` condition a pass writes, given the fetch outcome.
pub open spec fn ready_condition_view(
    fetched: Result<LightStatus, Error>,
    generation: Option<i64>,
) -> CondView {
    match fetched {
        Err(_) => CondView {
            type_: "Ready"@,
            status: ConditionStatus::False,
            reason: "InvalidDevice"@,
            message: Seq::<char>::empty(),
            observed_generation: generation,
            last_transition_time: 0,
        },
        Ok(LightStatus::Offline) => CondView {
            type_: "Ready"@,
            status: ConditionStatus::False,
            reason: "DeviceOffline"@,
            message: "Light device is offline"@,
            observed_generation: generation,
            last_transition_time: 0,
        },
        Ok(LightStatus::Online(_)) => CondView {
            type_: "Ready"@,
            status: ConditionStatus::True,
            reason: "DeviceOnline"@,
            message: Seq::<char>::empty(),
            observed_generation: generation,
            last_transition_time: 0,
        },
    }
}

/// The condition set one pass leaves behind: both tracked types are seeded
/// if missing, then `InvalidDevice` and `Ready` are written from the fetch
/// outcome.
pub open spec fn pass_conditions(
    cs: Seq<CondView>,
    fetched: Result<LightStatus, Error>,
    generation: Option<i64>,
    now: i64,
) -> Seq<CondView> {
    let seeded = ensure_model(
        ensure_model(cs, "InvalidDevice"@, generation, now),
        "Ready"@,
        generation,
        now,
    );
    update_model(
        update_model(seeded, invalid_condition_view(fetched, generation), now),
        ready_condition_view(fetched, generation),
        now,
    )
}

/// The commands one pass issues: the attribute diff when the device was
/// fetched online, nothing on an offline device or a failed fetch.
pub open spec fn pass_commands(s: LightSpec, fetched: Result<LightStatus, Error>) -> Seq<Command> {
    match fetched {
        Ok(LightStatus::Online(o)) => desired_commands(s, o),
        _ => Seq::empty(),
    }
}

/// Everything `plan_pass` promises of its outcome, given the stamp `now`.
pub open spec fn pass_outcome_matches(
    out: PassOutcome,
    cs: Seq<CondView>,
    s: LightSpec,
    fetched: Result<LightStatus, Error>,
    generation: Option<i64>,
    now: i64,
    sync_interval_seconds: u64,
) -> bool {
    &&& out.conditions.deep_view() == pass_conditions(cs, fetched, generation, now)
    &&& out.commands@ == pass_commands(s, fetched)
    &&& out.failure == (match fetched {
        Ok(_) => None::<Error>,
        Err(e) => Some(e),
    })
    &&& out.requeue_after_seconds == (if fetched is Err {
        ERROR_REQUEUE_SECONDS
    } else {
        sync_interval_seconds
    })
}

/// What a pass does to the two tracked conditions, whatever the fetch
/// outcome: both exist afterwards, each carries the status, reason and
/// generation the outcome dictates, types stay unique, and every condition
/// of any other type is left exactly as it was.
pub proof fn lemma_pass_conditions_effect(
    cs: Seq<CondView>,
    fetched: Result<LightStatus, Error>,
    generation: Option<i64>,
    now: i64,
)
    requires
        unique_types(cs),
    ensures
        unique_types(pass_conditions(cs, fetched, generation, now)),
        has_type(pass_conditions(cs, fetched, generation, now), "InvalidDevice"@),
        has_type(pass_conditions(cs, fetched, generation, now), "Ready"@),
        condition_of(pass_conditions(cs, fetched, generation, now), "Ready"@).status
            == ready_condition_view(fetched, generation).status,
        condition_of(pass_conditions(cs, fetched, generation, now), "Ready"@).reason
            == ready_condition_view(fetched, generation).reason,
        condition_of(pass_conditions(cs, fetched, generation, now), "Ready"@).observed_generation
            == generation,
        condition_of(pass_conditions(cs, fetched, generation, now), "InvalidDevice"@).status
            == invalid_condition_view(fetched, generation).status,
        condition_of(pass_conditions(cs, fetched, generation, now), "InvalidDevice"@).reason
            == invalid_condition_view(fetched, generation).reason,
        condition_of(
            pass_conditions(cs, fetched, generation, now),
            "InvalidDevice"@,
        ).observed_generation == generation,
        forall|t: Seq<char>|
            t != "InvalidDevice"@ && t != "Ready"@ ==> (has_type(
                pass_conditions(cs, fetched, generation, now),
                t,
            ) <==> has_type(cs, t)),
        forall|t: Seq<char>|
            t != "InvalidDevice"@ && t != "Ready"@ && has_type(cs, t) ==> condition_of(
                pass_conditions(cs, fetched, generation, now),
                t,
            ) == condition_of(cs, t),
{
    reveal_strlit("InvalidDevice");
    reveal_strlit("Ready");
    assert("InvalidDevice"@.len() != "Ready"@.len());
    let e1 = ensure_model(cs, "InvalidDevice"@, generation, now);
    let e2 = ensure_model(e1, "Ready"@, generation, now);
    let ic = invalid_condition_view(fetched, generation);
    let rc = ready_condition_view(fetched, generation);
    let u1 = update_model(e2, ic, now);
    lemma_ensure_model_effect(cs, "InvalidDevice"@, generation, now);
    lemma_ensure_model_effect(e1, "Ready"@, generation, now);
    lemma_update_model_effect(e2, ic, now);
    lemma_update_model_effect(u1, rc, now);
    assert(ic.type_ == "InvalidDevice"@);
    assert(rc.type_ == "Ready"@);
    assert(condition_of(update_model(u1, rc, now), "InvalidDevice"@) == condition_of(
        u1,
        "InvalidDevice"@,
    ));
}

/// Law (condition stability): a pass that reaches the same outcome as the
/// pass before it changes no condition — the transition times included. The
/// reported set only moves when the device's situation does.
pub proof fn lemma_pass_conditions_stable(
    cs: Seq<CondView>,
    fetched: Result<LightStatus, Error>,
    generation: Option<i64>,
    t1: i64,
    t2: i64,
)
    requires
        unique_types(cs),
    ensures
        pass_conditions(
            pass_conditions(cs, fetched, generation, t1),
            fetched,
            generation,
            t2,
        ) =~= pass_conditions(cs, fetched, generation, t1),
{
    reveal_strlit("InvalidDevice");
    reveal_strlit("Ready");
    assert("InvalidDevice"@.len() != "Ready"@.len());
    let p1 = pass_conditions(cs, fetched, generation, t1);
    lemma_pass_conditions_effect(cs, fetched, generation, t1);
    let ic = invalid_condition_view(fetched, generation);
    let rc = ready_condition_view(fetched, generation);
    lemma_ensure_model_effect(p1, "InvalidDevice"@, generation, t2);
    assert(ensure_model(p1, "InvalidDevice"@, generation, t2) == p1);
    lemma_ensure_model_effect(p1, "Ready"@, generation, t2);
    assert(ensure_model(p1, "Ready"@, generation, t2) == p1);
    lemma_update_model_effect(p1, ic, t2);
    assert(same_transition_identity(condition_of(p1, "InvalidDevice"@), ic));
    let u1 = update_model(p1, ic, t2);
    assert(u1 =~= p1);
    lemma_update_model_effect(p1, rc, t2);
    assert(same_transition_identity(condition_of(p1, "Ready"@), rc));
    assert(update_model(p1, rc, t2) =~= p1);
}

/// Law (offline short-circuit): a pass over a device fetched offline issues
/// no command and reports `Ready` as false for the offline reason.
pub proof fn lemma_offline_short_circuit(
    cs: Seq<CondView>,
    s: LightSpec,
    generation: Option<i64>,
    now: i64,
)
    requires
        unique_types(cs),
    ensures
        pass_commands(s, Ok(LightStatus::Offline)) =~= Seq::<Command>::empty(),
        condition_of(
            pass_conditions(cs, Ok(LightStatus::Offline), generation, now),
            "Ready"@,
        ).status == ConditionStatus::False,
        condition_of(
            pass_conditions(cs, Ok(LightStatus::Offline), generation, now),
            "Ready"@,
        ).reason == "DeviceOffline"@,
{
    lemma_pass_conditions_effect(cs, Ok(LightStatus::Offline), generation, now);
}

/// Diff the observed attributes of an online device against the desired
/// spec and collect the corrective commands, at most one per attribute.
pub fn diff_commands(light_spec: &LightSpec, observed: &LightOptions) -> (r: Vec<Command>)
    ensures
        r@ == desired_commands(*light_spec, *observed),
{
    let mut cmds: Vec<Command> = Vec::new();
    if observed.switched_on != light_spec.state.is_switched_on() {
        cmds.push(Command::SetSwitchedOn(light_spec.state.is_switched_on()));
    }
    assert(cmds@ =~= switch_commands(*light_spec, *observed));
    let ghost after_switch = cmds@;
    if let Some(b) = light_spec.brightness {
        let same = match observed.brightness {
            Some(ob) => ob == b,
            None => false,
        };
        if !same {
            cmds.push(Command::SetBrightness(b));
        }
    }
    assert(cmds@ =~= after_switch + brightness_commands(*light_spec, *observed));
    let ghost after_brightness = cmds@;
    match &light_spec.color {
        Some(Color::ColorTemperature(t)) => {
            let same = match observed.color_temperature {
                Some(ot) => ot == *t,
                None => false,
            };
            if !same {
                cmds.push(Command::SetColorTemperature(*t));
            }
        },
        Some(Color::HueSaturation(hs)) => {
            let same = match &observed.color {
                Some(oc) => oc.hue == hs.hue && oc.saturation == hs.saturation,
                None => false,
            };
            if !same {
                cmds.push(Command::SetColor(hs.hue, hs.saturation));
            }
        },
        None => {},
    }
    assert(cmds@ =~= after_brightness + color_commands(*light_spec, *observed));
    assert(cmds@ =~= desired_commands(*light_spec, *observed));
    cmds
}

/// Plan one reconciliation pass from the resource's desired spec, its stored
/// conditions, and the outcome of the status fetch, stamping condition
/// transitions with `now`.
///
/// On a failed fetch the failure is classified into the `InvalidDevice`
/// condition, `Ready` goes false, no command is issued, and the pass reports
/// the failure with the short error requeue. On a successful fetch the
/// identifier is recorded as usable; an online device is diffed and reported
/// ready, an offline one is reported not ready and left alone.
pub fn plan_pass(
    light_spec: &LightSpec,
    generation: Option<i64>,
    conditions: Vec<Condition>,
    fetched: Result<LightStatus, Error>,
    now: i64,
    sync_interval_seconds: u64,
) -> (out: PassOutcome)
    ensures
        pass_outcome_matches(
            out,
            conditions.deep_view(),
            *light_spec,
            fetched,
            generation,
            now,
            sync_interval_seconds,
        ),
        fetched matches Ok(st) && st matches LightStatus::Online(o) && observed_matches(
            *light_spec,
            o,
        ) ==> out.commands@ =~= Seq::<Command>::empty(),
        unique_types(conditions.deep_view()) ==> unique_types(out.conditions.deep_view()),
        unique_types(conditions.deep_view()) && fetched == Ok::<LightStatus, Error>(
            LightStatus::Offline,
        ) ==> {
            let pc = out.conditions.deep_view();
            &&& has_type(pc, "Ready"@)
            &&& condition_of(pc, "Ready"@).status == ConditionStatus::False
            &&& condition_of(pc, "Ready"@).reason == "DeviceOffline"@
        },
{
    let ghost cs0 = conditions.deep_view();
    let mut conds = conditions;
    ensure_condition(&mut conds, "InvalidDevice", generation, now);
    ensure_condition(&mut conds, "Ready", generation, now);
    proof {
        if unique_types(cs0) {
            lemma_pass_conditions_effect(cs0, fetched, generation, now);
        }
    }
    match fetched {
        Err(e) => {
            let invalid: Option<&str> = match &e {
                Error::Configuration(_) => None,
                Error::InvalidId(_) => Some("IdIsInvalid"),
                Error::RequestFailed(_) => None,
                Error::UnknownDeviceId => Some("DeviceNotFound"),
            };
            let invalid_cond = match invalid {
                None => create_condition(
                    "InvalidDevice",
                    Some(false),
                    "DeviceIdOk",
                    None,
                    generation,
                ),
                Some(reason) => create_condition(
                    "InvalidDevice",
                    Some(true),
                    reason,
                    Some("Device ID is invalid or unknown"),
                    generation,
                ),
            };
            assert(invalid_cond@ == invalid_condition_view(Err(e), generation));
            update_conditions(&mut conds, invalid_cond, now);
            let ready_cond = create_condition(
                "Ready",
                Some(false),
                "InvalidDevice",
                None,
                generation,
            );
            assert(ready_cond@ == ready_condition_view(Err(e), generation));
            update_conditions(&mut conds, ready_cond, now);
            assert(conds.deep_view() == pass_conditions(cs0, Err(e), generation, now));
            PassOutcome {
                conditions: conds,
                commands: Vec::new(),
                failure: Some(e),
                requeue_after_seconds: crate::error_requeue_seconds(),
            }
        },
        Ok(status) => {
            let invalid_cond = create_condition(
                "InvalidDevice",
                Some(false),
                "DeviceIdOk",
                None,
                generation,
            );
            assert(invalid_cond@ == invalid_condition_view(Ok(status), generation));
            update_conditions(&mut conds, invalid_cond, now);
            match status {
                LightStatus::Online(opts) => {
                    let commands = diff_commands(light_spec, &opts);
                    proof {
                        if observed_matches(*light_spec, opts) {
                            lemma_idempotent_no_commands(*light_spec, opts);
                        }
                    }
                    let ready_cond = create_condition(
                        "Ready",
                        Some(true),
                        "DeviceOnline",
                        None,
                        generation,
                    );
                    assert(ready_cond@ == ready_condition_view(Ok(status), generation));
                    update_conditions(&mut conds, ready_cond, now);
                    assert(conds.deep_view() == pass_conditions(cs0, Ok(status), generation, now));
                    PassOutcome {
                        conditions: conds,
                        commands,
                        failure: None,
                        requeue_after_seconds: sync_interval_seconds,
                    }
                },
                LightStatus::Offline => {
                    let ready_cond = create_condition(
                        "Ready",
                        Some(false),
                        "DeviceOffline",
                        Some("Light device is offline"),
                        generation,
                    );
                    assert(ready_cond@ == ready_condition_view(Ok(status), generation));
                    update_conditions(&mut conds, ready_cond, now);
                    assert(conds.deep_view() == pass_conditions(cs0, Ok(status), generation, now));
                    PassOutcome {
                        conditions: conds,
                        commands: Vec::new(),
                        failure: None,
                        requeue_after_seconds: sync_interval_seconds,
                    }
                },
            }
        },
    }
}

/// Plan one reconciliation pass, stamping transitions with the current wall
/// clock; what the plan promises holds for whatever moment the clock
/// returned.
pub fn plan_pass_at_current_time(
    light_spec: &LightSpec,
    generation: Option<i64>,
    conditions: Vec<Condition>,
    fetched: Result<LightStatus, Error>,
    sync_interval_seconds: u64,
) -> (out: PassOutcome)
    ensures
        exists|now: i64|
            pass_outcome_matches(
                out,
                conditions.deep_view(),
                *light_spec,
                fetched,
                generation,
                now,
                sync_interval_seconds,
            ),
        unique_types(conditions.deep_view()) ==> unique_types(out.conditions.deep_view()),
{
    let now = current_unix_seconds();
    let ghost cs0 = conditions.deep_view();
    let out = plan_pass(light_spec, generation, conditions, fetched, now, sync_interval_seconds);
    proof {
        assert(pass_outcome_matches(
            out,
            cs0,
            *light_spec,
            fetched,
            generation,
            now,
            sync_interval_seconds,
        ));
    }
    out
}

} // verus!

use light_operator::conditions::{
    create_condition, ensure_condition, update_conditions, Condition, ConditionStatus,
};
use light_operator::light::{conditions_of_status, LightStatus};

fn find<'a>(conds: &'a [Condition], t: &str) -> &'a Condition {
    conds
        .iter()
        .find(|c| c.type_ == t)
        .expect("condition of the requested type should exist")
}

fn count(conds: &[Condition], t: &str) -> usize {
    conds.iter().filter(|c| c.type_ == t).count()
}

#[test]
fn create_condition_fills_every_field() {
    let c = create_condition("Ready", Some(true), "DeviceOnline", Some("all good"), Some(4));
    assert_eq!(c.type_, "Ready");
    assert_eq!(c.status, ConditionStatus::True);
    assert_eq!(c.reason, "DeviceOnline");
    assert_eq!(c.message, "all good");
    assert_eq!(c.observed_generation, Some(4));
    assert_eq!(c.last_transition_time, 0);
}

#[test]
fn create_condition_maps_missing_status_and_message() {
    let c = create_condition("Ready", None, "Unknown", None, None);
    assert_eq!(c.status, ConditionStatus::Unknown);
    assert_eq!(c.message, "");
    assert_eq!(c.observed_generation, None);
}

#[test]
fn ensure_inserts_an_unknown_seed() {
    let mut conds: Vec<Condition> = Vec::new();
    ensure_condition(&mut conds, "Ready", Some(7), 1000);
    assert_eq!(conds.len(), 1);
    assert_eq!(conds[0].type_, "Ready");
    assert_eq!(conds[0].status, ConditionStatus::Unknown);
    assert_eq!(conds[0].reason, "Unknown");
    assert_eq!(conds[0].message, "");
    assert_eq!(conds[0].observed_generation, Some(7));
    assert_eq!(conds[0].last_transition_time, 1000);
}

#[test]
fn ensure_leaves_an_existing_entry_alone() {
    let mut conds: Vec<Condition> = Vec::new();
    let ready = create_condition("Ready", Some(true), "DeviceOnline", None, Some(1));
    update_conditions(&mut conds, ready, 500);
    ensure_condition(&mut conds, "Ready", Some(2), 900);
    assert_eq!(conds.len(), 1);
    assert_eq!(conds[0].status, ConditionStatus::True);
    assert_eq!(conds[0].reason, "DeviceOnline");
    assert_eq!(conds[0].observed_generation, Some(1));
    assert_eq!(conds[0].last_transition_time, 500);
}

#[test]
fn update_inserts_with_a_fresh_stamp() {
    let mut conds: Vec<Condition> = Vec::new();
    let c = create_condition("Ready", Some(false), "DeviceOffline", Some("offline"), Some(3));
    update_conditions(&mut conds, c, 1234);
    assert_eq!(conds.len(), 1);
    assert_eq!(conds[0].last_transition_time, 1234);
    assert_eq!(conds[0].message, "offline");
}

#[test]
fn message_only_change_keeps_the_transition_time() {
    let mut conds: Vec<Condition> = Vec::new();
    let first = create_condition("Ready", Some(false), "DeviceOffline", Some("went dark"), Some(3));
    update_conditions(&mut conds, first, 100);
    let second =
        create_condition("Ready", Some(false), "DeviceOffline", Some("still dark"), Some(3));
    update_conditions(&mut conds, second, 200);
    assert_eq!(conds.len(), 1);
    assert_eq!(conds[0].last_transition_time, 100);
    // The stored message is not refreshed either: the entry is untouched.
    assert_eq!(conds[0].message, "went dark");
}

#[test]
fn status_change_advances_the_transition_time() {
    let mut conds: Vec<Condition> = Vec::new();
    let first = create_condition("Ready", Some(false), "DeviceOffline", None, Some(3));
    update_conditions(&mut conds, first, 100);
    let second = create_condition("Ready", Some(true), "DeviceOnline", Some("back"), Some(3));
    update_conditions(&mut conds, second, 200);
    assert_eq!(conds.len(), 1);
    assert_eq!(conds[0].last_transition_time, 200);
    assert_eq!(conds[0].status, ConditionStatus::True);
    assert_eq!(conds[0].reason, "DeviceOnline");
    assert_eq!(conds[0].message, "back");
}

#[test]
fn reason_change_advances_the_transition_time() {
    let mut conds: Vec<Condition> = Vec::new();
    let first = create_condition("InvalidDevice", Some(true), "IdIsInvalid", None, None);
    update_conditions(&mut conds, first, 100);
    let second = create_condition("InvalidDevice", Some(true), "DeviceNotFound", None, None);
    update_conditions(&mut conds, second, 250);
    assert_eq!(conds[0].last_transition_time, 250);
    assert_eq!(conds[0].reason, "DeviceNotFound");
}

#[test]
fn generation_change_advances_the_transition_time() {
    let mut conds: Vec<Condition> = Vec::new();
    let first = create_condition("Ready", Some(true), "DeviceOnline", None, Some(1));
    update_conditions(&mut conds, first, 100);
    let second = create_condition("Ready", Some(true), "DeviceOnline", None, Some(2));
    update_conditions(&mut conds, second, 300);
    assert_eq!(conds[0].last_transition_time, 300);
    assert_eq!(conds[0].observed_generation, Some(2));
}

#[test]
fn types_stay_unique_over_many_calls() {
    let mut conds: Vec<Condition> = Vec::new();
    ensure_condition(&mut conds, "Ready", None, 1);
    ensure_condition(&mut conds, "InvalidDevice", None, 2);
    ensure_condition(&mut conds, "Ready", Some(1), 3);
    let a = create_condition("Ready", Some(true), "DeviceOnline", None, None);
    update_conditions(&mut conds, a, 4);
    let b = create_condition("Ready", Some(false), "DeviceOffline", None, None);
    update_conditions(&mut conds, b, 5);
    let c = create_condition("InvalidDevice", Some(false), "DeviceIdOk", None, None);
    update_conditions(&mut conds, c, 6);
    let d = create_condition("Stale", None, "Unknown", None, None);
    update_conditions(&mut conds, d, 7);
    assert_eq!(conds.len(), 3);
    assert_eq!(count(&conds, "Ready"), 1);
    assert_eq!(count(&conds, "InvalidDevice"), 1);
    assert_eq!(count(&conds, "Stale"), 1);
}

#[test]
fn a_resource_without_a_status_has_no_conditions() {
    assert!(conditions_of_status(None).is_empty());
    let stored = vec![create_condition("Ready", Some(true), "DeviceOnline", None, None)];
    let got = conditions_of_status(Some(LightStatus { conditions: stored }));
    assert_eq!(got.len(), 1);
    assert_eq!(got[0].type_, "Ready");
}

#[test]
fn update_leaves_conditions_of_other_types_untouched() {
    let mut conds: Vec<Condition> = Vec::new();
    let foreign = create_condition("SomeoneElses", Some(true), "TheirReason", Some("keep"), None);
    update_conditions(&mut conds, foreign, 10);
    let ready = create_condition("Ready", Some(true), "DeviceOnline", None, None);
    update_conditions(&mut conds, ready, 20);
    let kept = find(&conds, "SomeoneElses");
    assert_eq!(kept.status, ConditionStatus::True);
    assert_eq!(kept.reason, "TheirReason");
    assert_eq!(kept.message, "keep");
    assert_eq!(kept.last_transition_time, 10);
}

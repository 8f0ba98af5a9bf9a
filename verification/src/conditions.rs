//! Condition tracking with change-only transition stamping.
//!
//! A resource reports its state as a set of conditions keyed by type. The
//! tracker keeps at most one entry per type, creates missing entries in an
//! `Unknown` state, and moves `last_transition_time` only when the triple
//! (status, reason, observed generation) actually changes; message-only churn
//! never advances the stamp, so downstream watchers of the transition time
//! see real state changes only.
use vstd::prelude::*;
use vstd::pervasive::VecAdditionalExecFns;
use vstd::string::StringExecFns;

verus! {

/// Tri-state value of a condition.
#[derive(Clone, Copy, Debug, PartialEq, Eq, Structural)]
pub enum ConditionStatus {
    True,
    False,
    Unknown,
}

/// One reported status fact of a resource.
#[derive(Clone, Debug)]
pub struct Condition {
    pub type_: String,
    pub status: ConditionStatus,
    pub reason: String,
    pub message: String,
    pub observed_generation: Option<i64>,
    /// Seconds since the Unix epoch of the last real transition.
    pub last_transition_time: i64,
}

/// Mathematical image of a condition: the strings as character sequences.
#[verifier::ext_equal]
pub ghost struct CondView {
    pub type_: Seq<char>,
    pub status: ConditionStatus,
    pub reason: Seq<char>,
    pub message: Seq<char>,
    pub observed_generation: Option<i64>,
    pub last_transition_time: i64,
}

impl View for Condition {
    type V = CondView;

    open spec fn view(&self) -> CondView {
        CondView {
            type_: self.type_@,
            status: self.status,
            reason: self.reason@,
            message: self.message@,
            observed_generation: self.observed_generation,
            last_transition_time: self.last_transition_time,
        }
    }
}

impl DeepView for Condition {
    type V = CondView;

    open spec fn deep_view(&self) -> CondView {
        self.view()
    }
}

/// The part of a condition whose change counts as a real transition.
/// The message is deliberately left out.
pub open spec fn same_transition_identity(a: CondView, b: CondView) -> bool {
    &&& a.status == b.status
    &&& a.reason == b.reason
    &&& a.observed_generation == b.observed_generation
}

/// A condition with its transition time set to `now`.
pub open spec fn stamped(c: CondView, now: i64) -> CondView {
    CondView { last_transition_time: now, ..c }
}

/// What a stored entry becomes when a new condition of the same type arrives:
/// untouched if the transition identity is unchanged, else overwritten and
/// freshly stamped.
pub open spec fn merged(existing: CondView, new: CondView, now: i64) -> CondView {
    if same_transition_identity(existing, new) {
        existing
    } else {
        CondView {
            type_: existing.type_,
            status: new.status,
            reason: new.reason,
            message: new.message,
            observed_generation: new.observed_generation,
            last_transition_time: now,
        }
    }
}

/// The update operation on a condition set: the first entry of the new
/// condition's type is merged in place; if none exists, the new condition is
/// appended with a fresh stamp.
pub open spec fn update_model(conds: Seq<CondView>, new: CondView, now: i64) -> Seq<CondView>
    decreases conds.len(),
{
    if conds.len() == 0 {
        seq![stamped(new, now)]
    } else if conds[0].type_ == new.type_ {
        seq![merged(conds[0], new, now)] + conds.drop_first()
    } else {
        seq![conds[0]] + update_model(conds.drop_first(), new, now)
    }
}

/// Whether some entry of type `t` is present.
pub open spec fn has_type(conds: Seq<CondView>, t: Seq<char>) -> bool {
    exists|i: int| 0 <= i < conds.len() && conds[i].type_ == t
}

/// No two entries share a type.
pub open spec fn unique_types(conds: Seq<CondView>) -> bool {
    forall|i: int, j: int| 0 <= i < j < conds.len() ==> conds[i].type_ != conds[j].type_
}

/// The index of the entry of type `t` (meaningful when `has_type` holds).
pub open spec fn index_of_type(conds: Seq<CondView>, t: Seq<char>) -> int {
    choose|i: int| 0 <= i < conds.len() && conds[i].type_ == t
}

/// The entry of type `t` (meaningful when `has_type` holds).
pub open spec fn condition_of(conds: Seq<CondView>, t: Seq<char>) -> CondView {
    conds[index_of_type(conds, t)]
}

/// The seed entry for a type the engine has not touched before.
pub open spec fn unknown_condition(t: Seq<char>, generation: Option<i64>) -> CondView {
    CondView {
        type_: t,
        status: ConditionStatus::Unknown,
        reason: "Unknown"@,
        message: Seq::<char>::empty(),
        observed_generation: generation,
        last_transition_time: 0,
    }
}

/// The ensure operation: insert a seed entry of type `t` unless one exists.
pub open spec fn ensure_model(
    conds: Seq<CondView>,
    t: Seq<char>,
    generation: Option<i64>,
    now: i64,
) -> Seq<CondView> {
    if has_type(conds, t) {
        conds
    } else {
        conds.push(stamped(unknown_condition(t, generation), now))
    }
}

/// When no entry matches the new condition's type, the update is an append.
pub proof fn lemma_update_model_no_match(conds: Seq<CondView>, new: CondView, now: i64)
    requires
        forall|k: int| 0 <= k < conds.len() ==> conds[k].type_ != new.type_,
    ensures
        update_model(conds, new, now) =~= conds.push(stamped(new, now)),
    decreases conds.len(),
{
    if conds.len() > 0 {
        lemma_update_model_no_match(conds.drop_first(), new, now);
    }
}

/// When the first match sits at index `i`, the update rewrites exactly that
/// entry.
pub proof fn lemma_update_model_match_at(conds: Seq<CondView>, new: CondView, now: i64, i: int)
    requires
        0 <= i < conds.len(),
        conds[i].type_ == new.type_,
        forall|k: int| 0 <= k < i ==> conds[k].type_ != new.type_,
    ensures
        update_model(conds, new, now) =~= conds.update(i, merged(conds[i], new, now)),
    decreases conds.len(),
{
    if i > 0 {
        lemma_update_model_match_at(conds.drop_first(), new, now, i - 1);
    }
}

/// Law: however a condition set is updated, no second entry of an already
/// present type ever appears; a set with unique types keeps them unique.
pub proof fn lemma_update_preserves_unique_types(conds: Seq<CondView>, new: CondView, now: i64)
    requires
        unique_types(conds),
    ensures
        unique_types(update_model(conds, new, now)),
{
    if has_type(conds, new.type_) {
        let i = index_of_type(conds, new.type_);
        assert(forall|k: int| 0 <= k < i ==> conds[k].type_ != new.type_) by {
            assert(forall|k: int| 0 <= k < i ==> #[trigger] conds[k].type_ == conds[k].type_);
        }
        lemma_update_model_match_at(conds, new, now, i);
    } else {
        lemma_update_model_no_match(conds, new, now);
    }
}

/// Law: ensuring a type keeps types unique.
pub proof fn lemma_ensure_preserves_unique_types(
    conds: Seq<CondView>,
    t: Seq<char>,
    generation: Option<i64>,
    now: i64,
)
    requires
        unique_types(conds),
    ensures
        unique_types(ensure_model(conds, t, generation, now)),
{
}

/// What ensuring a type does: the type is present afterwards, an already
/// present entry stays exactly as it was, and every other type's entry is
/// untouched.
pub proof fn lemma_ensure_model_effect(
    cs: Seq<CondView>,
    t: Seq<char>,
    generation: Option<i64>,
    now: i64,
)
    requires
        unique_types(cs),
    ensures
        unique_types(ensure_model(cs, t, generation, now)),
        has_type(ensure_model(cs, t, generation, now), t),
        forall|t2: Seq<char>|
            t2 != t ==> (has_type(ensure_model(cs, t, generation, now), t2) <==> has_type(cs, t2)),
        forall|t2: Seq<char>|
            t2 != t && has_type(cs, t2) ==> condition_of(ensure_model(cs, t, generation, now), t2)
                == condition_of(cs, t2),
        has_type(cs, t) ==> ensure_model(cs, t, generation, now) == cs,
{
    lemma_ensure_preserves_unique_types(cs, t, generation, now);
    if !has_type(cs, t) {
        let em = cs.push(stamped(unknown_condition(t, generation), now));
        assert(em[cs.len() as int].type_ == t);
        assert(has_type(em, t));
        assert forall|t2: Seq<char>| t2 != t implies (has_type(em, t2) <==> has_type(cs, t2)) by {
            if has_type(cs, t2) {
                let j = index_of_type(cs, t2);
                assert(em[j].type_ == t2);
            }
            if has_type(em, t2) {
                let j = index_of_type(em, t2);
                assert(cs[j].type_ == t2);
            }
        }
        assert forall|t2: Seq<char>| t2 != t && has_type(cs, t2) implies condition_of(em, t2)
            == condition_of(cs, t2) by {
            let j = index_of_type(cs, t2);
            assert(em[j].type_ == t2);
            lemma_index_of_type_is(em, t2, j);
        }
    }
}

/// What one update does to the entry of the new condition's type, and that
/// every other type is left exactly as it was.
pub proof fn lemma_update_model_effect(conds: Seq<CondView>, new: CondView, now: i64)
    requires
        unique_types(conds),
    ensures
        has_type(update_model(conds, new, now), new.type_),
        unique_types(update_model(conds, new, now)),
        condition_of(update_model(conds, new, now), new.type_).status == new.status,
        condition_of(update_model(conds, new, now), new.type_).reason == new.reason,
        condition_of(update_model(conds, new, now), new.type_).observed_generation
            == new.observed_generation,
        has_type(conds, new.type_) && same_transition_identity(
            condition_of(conds, new.type_),
            new,
        ) ==> update_model(conds, new, now) =~= conds,
        !(has_type(conds, new.type_) && same_transition_identity(
            condition_of(conds, new.type_),
            new,
        )) ==> {
            &&& condition_of(update_model(conds, new, now), new.type_).last_transition_time == now
            &&& condition_of(update_model(conds, new, now), new.type_).message == new.message
        },
        forall|t: Seq<char>|
            t != new.type_ ==> (has_type(update_model(conds, new, now), t) <==> has_type(conds, t)),
        forall|t: Seq<char>|
            t != new.type_ && has_type(conds, t) ==> condition_of(update_model(conds, new, now), t)
                == condition_of(conds, t),
{
    lemma_update_preserves_unique_types(conds, new, now);
    if has_type(conds, new.type_) {
        let i = index_of_type(conds, new.type_);
        assert(forall|k: int| 0 <= k < i ==> conds[k].type_ != new.type_) by {
            assert(forall|k: int| 0 <= k < i ==> #[trigger] conds[k].type_ == conds[k].type_);
        }
        lemma_update_model_match_at(conds, new, now, i);
        let upd = conds.update(i, merged(conds[i], new, now));
        assert(upd[i].type_ == new.type_);
        assert(has_type(upd, new.type_));
        lemma_index_of_type_is(upd, new.type_, i);
        if same_transition_identity(conds[i], new) {
            assert(upd =~= conds);
        }
        assert forall|t: Seq<char>| t != new.type_ implies (has_type(upd, t) <==> has_type(
            conds,
            t,
        )) by {
            assert(forall|k: int|
                0 <= k < conds.len() && k != i ==> upd[k] == conds[k]);
            if has_type(conds, t) {
                let j = index_of_type(conds, t);
                assert(upd[j].type_ == t);
            }
            if has_type(upd, t) {
                let j = index_of_type(upd, t);
                assert(conds[j].type_ == t);
            }
        }
        assert forall|t: Seq<char>| t != new.type_ && has_type(conds, t) implies condition_of(
            upd,
            t,
        ) == condition_of(conds, t) by {
            let j = index_of_type(conds, t);
            assert(conds[j].type_ == t);
            assert(j != i);
            assert(upd[j].type_ == t);
            lemma_index_of_type_is(upd, t, j);
        }
    } else {
        lemma_update_model_no_match(conds, new, now);
        let upd = conds.push(stamped(new, now));
        assert(upd[conds.len() as int].type_ == new.type_);
        lemma_index_of_type_is(upd, new.type_, conds.len() as int);
        assert forall|t: Seq<char>| t != new.type_ implies (has_type(upd, t) <==> has_type(
            conds,
            t,
        )) by {
            if has_type(conds, t) {
                let j = index_of_type(conds, t);
                assert(upd[j].type_ == t);
            }
            if has_type(upd, t) {
                let j = index_of_type(upd, t);
                assert(conds[j].type_ == t);
            }
        }
        assert forall|t: Seq<char>| t != new.type_ && has_type(conds, t) implies condition_of(
            upd,
            t,
        ) == condition_of(conds, t) by {
            let j = index_of_type(conds, t);
            assert(upd[j].type_ == t);
            lemma_index_of_type_is(upd, t, j);
        }
    }
}

/// In a set with unique types, the entry of a type sits at the one index that
/// carries it.
pub proof fn lemma_index_of_type_is(conds: Seq<CondView>, t: Seq<char>, i: int)
    requires
        unique_types(conds),
        0 <= i < conds.len(),
        conds[i].type_ == t,
    ensures
        index_of_type(conds, t) == i,
        condition_of(conds, t) == conds[i],
{
    assert(has_type(conds, t));
    let j = index_of_type(conds, t);
    if i < j {
        assert(conds[i].type_ != conds[j].type_);
    } else if j < i {
        assert(conds[j].type_ != conds[i].type_);
    }
}

/// Law (change-only timestamp, unchanged half): updating with a condition
/// that differs from the stored one only in its message leaves the whole
/// set — the transition time included — exactly as it was.
pub proof fn lemma_message_only_update_keeps_transition_time(
    conds: Seq<CondView>,
    c1: CondView,
    c2: CondView,
    t1: i64,
    t2: i64,
)
    requires
        unique_types(conds),
        c2.type_ == c1.type_,
        same_transition_identity(c1, c2),
    ensures
        update_model(update_model(conds, c1, t1), c2, t2) =~= update_model(conds, c1, t1),
{
    lemma_update_model_effect(conds, c1, t1);
    let s1 = update_model(conds, c1, t1);
    lemma_update_model_effect(s1, c2, t2);
    assert(same_transition_identity(condition_of(s1, c2.type_), c2));
}

/// Law (change-only timestamp, changed half): updating with a condition whose
/// status, reason or observed generation differs from the stored entry stamps
/// the entry with the time of that update.
pub proof fn lemma_identity_change_stamps_transition_time(
    conds: Seq<CondView>,
    c1: CondView,
    c2: CondView,
    t1: i64,
    t2: i64,
)
    requires
        unique_types(conds),
        c2.type_ == c1.type_,
        !same_transition_identity(c1, c2),
    ensures
        condition_of(
            update_model(update_model(conds, c1, t1), c2, t2),
            c2.type_,
        ).last_transition_time == t2,
{
    lemma_update_model_effect(conds, c1, t1);
    let s1 = update_model(conds, c1, t1);
    lemma_update_model_effect(s1, c2, t2);
    assert(!same_transition_identity(condition_of(s1, c2.type_), c2));
}

/// The index of the first stored condition of the given type, if any.
fn find_condition_index(conditions: &Vec<Condition>, t: &String) -> (r: Option<usize>)
    ensures
        match r {
            Some(i) => {
                &&& i < conditions@.len()
                &&& conditions@[i as int]@.type_ == t@
                &&& forall|k: int| 0 <= k < i ==> conditions@[k]@.type_ != t@
            },
            None => forall|k: int|
                0 <= k < conditions@.len() ==> conditions@[k]@.type_ != t@,
        },
{
    let n = conditions.len();
    let mut j: usize = 0;
    while j < n
        invariant
            n == conditions@.len(),
            j <= n,
            forall|k: int| 0 <= k < j ==> conditions@[k]@.type_ != t@,
        decreases n - j,
    {
        if conditions[j].type_ == *t {
            return Some(j);
        }
        j += 1;
    }
    None
}

/// Merge one new condition into the stored set: overwrite the entry of its
/// type and stamp it with `now` when the transition identity changed, leave
/// the entry alone when only the message moved, append a fresh entry when the
/// type is new.
pub fn update_conditions(conditions: &mut Vec<Condition>, new_condition: Condition, now: i64)
    ensures
        final(conditions).deep_view() == update_model(
            old(conditions).deep_view(),
            new_condition@,
            now,
        ),
{
    let ghost old_views = conditions.deep_view();
    match find_condition_index(conditions, &new_condition.type_) {
        Some(i) => {
            proof {
                lemma_update_model_match_at(old_views, new_condition@, now, i as int);
            }
            let same = conditions[i].status == new_condition.status
                && conditions[i].reason == new_condition.reason
                && opt_i64_eq(&conditions[i].observed_generation, &new_condition.observed_generation);
            if !same {
                conditions.set(
                    i,
                    Condition {
                        type_: new_condition.type_,
                        status: new_condition.status,
                        reason: new_condition.reason,
                        message: new_condition.message,
                        observed_generation: new_condition.observed_generation,
                        last_transition_time: now,
                    },
                );
                assert(conditions.deep_view() =~= update_model(old_views, new_condition@, now));
            } else {
                assert(conditions.deep_view() =~= update_model(old_views, new_condition@, now));
            }
        },
        None => {
            proof {
                lemma_update_model_no_match(old_views, new_condition@, now);
            }
            conditions.push(
                Condition {
                    type_: new_condition.type_,
                    status: new_condition.status,
                    reason: new_condition.reason,
                    message: new_condition.message,
                    observed_generation: new_condition.observed_generation,
                    last_transition_time: now,
                },
            );
            assert(conditions.deep_view() =~= update_model(old_views, new_condition@, now));
        },
    }
}

/// Equality of optional generation counters.
fn opt_i64_eq(a: &Option<i64>, b: &Option<i64>) -> (r: bool)
    ensures
        r == (a == b),
{
    match (a, b) {
        (Some(x), Some(y)) => *x == *y,
        (None, None) => true,
        _ => false,
    }
}

/// Insert a seed `Unknown` entry of the given type unless one already exists.
pub fn ensure_condition(
    conditions: &mut Vec<Condition>,
    type_: &str,
    generation: Option<i64>,
    now: i64,
)
    ensures
        final(conditions).deep_view() == ensure_model(
            old(conditions).deep_view(),
            type_@,
            generation,
            now,
        ),
{
    let ghost old_views = conditions.deep_view();
    let t = String::from_str(type_);
    match find_condition_index(conditions, &t) {
        Some(i) => {
            assert(old_views[i as int].type_ == type_@);
            assert(has_type(old_views, type_@));
        },
        None => {
            assert(!has_type(old_views, type_@));
            let seed = create_condition(type_, None, "Unknown", None, generation);
            proof {
                lemma_update_model_no_match(old_views, seed@, now);
            }
            update_conditions(conditions, seed, now);
            assert(conditions.deep_view() =~= ensure_model(old_views, type_@, generation, now));
        },
    }
}

/// How an optional boolean reads as a condition status.
pub open spec fn tri_state(b: Option<bool>) -> ConditionStatus {
    match b {
        None => ConditionStatus::Unknown,
        Some(true) => ConditionStatus::True,
        Some(false) => ConditionStatus::False,
    }
}

/// Build a condition value; its transition time is a placeholder that
/// `update_conditions` replaces on any real change.
pub fn create_condition(
    type_: &str,
    status: Option<bool>,
    reason: &str,
    message: Option<&str>,
    generation: Option<i64>,
) -> (c: Condition)
    ensures
        c@ == (CondView {
            type_: type_@,
            status: tri_state(status),
            reason: reason@,
            message: match message {
                Some(m) => m@,
                None => Seq::<char>::empty(),
            },
            observed_generation: generation,
            last_transition_time: 0,
        }),
{
    let status = match status {
        None => ConditionStatus::Unknown,
        Some(true) => ConditionStatus::True,
        Some(false) => ConditionStatus::False,
    };
    let message = match message {
        Some(m) => String::from_str(m),
        None => String::new(),
    };
    Condition {
        type_: String::from_str(type_),
        status,
        reason: String::from_str(reason),
        message,
        observed_generation: generation,
        last_transition_time: 0,
    }
}

} // verus!

//! The weight engine: scores a task's urgency at a point in time.
//!
//! Scores are exact rationals (`Weight`), not floats: every formula here is
//! a ratio of integer-valued expressions, and ranking only ever compares
//! scores, which cross-multiplication decides exactly.
//!
//! The three formulas, with `m` the priority multiplier and all times in
//! Unix-epoch seconds:
//!
//! * due task, before the lead window opens (`now <= due - lead`):
//!   `m * now / (due - lead)`;
//! * due task, inside the window: `m * (1 + 100 * (now - due + lead) / lead)`;
//! * repeating task: `0` during its cooldown, afterwards
//!   `m * (0.667 * now / eligible + 0.333)` with `eligible = from + interval`;
//! * one-off task: `m * (0.667 * now / (from + 20 days) + 1)`.
//!
//! The ratios deliberately divide absolute epoch values, not elapsed-time
//! deltas, and the growth past each threshold is unbounded with no clamp;
//! that is the engine's observable contract, kept here exactly even though
//! it looks like a latent design flaw.

use vstd::prelude::*;

use crate::errors::EngineError;
use crate::tasks::MAX_EPOCH_SECONDS;
use crate::tasks::Priority;
use crate::tasks::SECONDS_PER_DAY;
use crate::tasks::Task;
use crate::tasks::priority_rank;

verus! {

/// An urgency score as an exact non-negative rational `num / den`.
#[derive(Clone, Copy, Debug, PartialEq, Eq, Structural)]
pub struct Weight {
    pub num: i64,
    pub den: i64,
}

impl Weight {
    /// Every score the engine produces: a non-negative numerator over a
    /// positive denominator.
    pub open spec fn wf(self) -> bool {
        self.num >= 0 && self.den >= 1
    }

    /// One side of the cross-multiplication that compares two scores.
    fn cross(self, other: Weight) -> (r: i128)
        requires
            self.wf(),
            other.wf(),
        ensures
            r == self.num * other.den,
    {
        proof {
            lemma_cross_product_bounded(self.num as int, other.den as int);
        }
        (self.num as i128) * (other.den as i128)
    }

    /// Whether this score is strictly higher than `other`.
    pub fn exceeds(self, other: Weight) -> (r: bool)
        requires
            self.wf(),
            other.wf(),
        ensures
            r == weight_gt(self, other),
    {
        self.cross(other) > other.cross(self)
    }

    /// Whether this score and `other` denote the same rational.
    pub fn same_score(self, other: Weight) -> (r: bool)
        requires
            self.wf(),
            other.wf(),
        ensures
            r == weight_eq(self, other),
    {
        self.cross(other) == other.cross(self)
    }
}

/// The cross product of a well-formed score fits comfortably in an `i128`.
proof fn lemma_cross_product_bounded(x: int, y: int) by (nonlinear_arith)
    requires
        0 <= x < 0x8000000000000000,
        1 <= y < 0x8000000000000000,
    ensures
        0 <= x * y < 0x40000000000000000000000000000000,
{
}

/// How the strict order and the equality of rational scores chain: the
/// conclusions every ranking proof needs, stated over numerators and
/// positive denominators.
pub proof fn lemma_frac_order_trans(
    n1: int,
    d1: int,
    n2: int,
    d2: int,
    n3: int,
    d3: int,
) by (nonlinear_arith)
    requires
        d1 >= 1,
        d2 >= 1,
        d3 >= 1,
    ensures
        n1 * d2 > n2 * d1 && n2 * d3 > n3 * d2 ==> n1 * d3 > n3 * d1,
        n1 * d2 > n2 * d1 && n2 * d3 == n3 * d2 ==> n1 * d3 > n3 * d1,
        n1 * d2 == n2 * d1 && n2 * d3 > n3 * d2 ==> n1 * d3 > n3 * d1,
        n1 * d2 == n2 * d1 && n2 * d3 == n3 * d2 ==> n1 * d3 == n3 * d1,
{
}

/// `a` scores strictly higher than `b` (cross-multiplied; exact for
/// positive denominators).
pub open spec fn weight_gt(a: Weight, b: Weight) -> bool {
    a.num * b.den > b.num * a.den
}

/// `a` and `b` denote the same rational score.
pub open spec fn weight_eq(a: Weight, b: Weight) -> bool {
    a.num * b.den == b.num * a.den
}

/// The per-priority multiplier: strictly increasing with the rank.
pub open spec fn priority_multiplier(p: Priority) -> int {
    match p {
        Priority::P0 => 2,
        Priority::P1 => 3,
        Priority::P2 => 5,
        Priority::P3 => 8,
    }
}

/// The lead window of a due task, in seconds.
pub open spec fn lead_seconds(t: Task) -> int {
    t.lead_days->Some_0 * SECONDS_PER_DAY
}

/// The one-off formula's fixed reference point: twenty days past the anchor.
pub open spec fn one_off_reference(t: Task) -> int {
    t.from_date + 20 * SECONDS_PER_DAY
}

/// Numerator of the due-task score while the lead window has not opened.
pub open spec fn due_ramp_num(t: Task, now: int) -> int {
    priority_multiplier(t.priority) * now
}

/// Denominator of the due-task score while the lead window has not opened.
pub open spec fn due_ramp_den(t: Task) -> int {
    t.due_date->Some_0 - lead_seconds(t)
}

/// Numerator of the due-task score once the lead window has opened.
pub open spec fn due_overdue_num(t: Task, now: int) -> int {
    priority_multiplier(t.priority) * (lead_seconds(t) + 100 * (now - t.due_date->Some_0
        + lead_seconds(t)))
}

/// Denominator of the due-task score once the lead window has opened.
pub open spec fn due_overdue_den(t: Task) -> int {
    lead_seconds(t)
}

/// Numerator of the score of a well-moded task at time `now`.
pub open spec fn weight_num(t: Task, now: int) -> int {
    if t.is_due() {
        if now <= due_ramp_den(t) {
            due_ramp_num(t, now)
        } else {
            due_overdue_num(t, now)
        }
    } else if t.is_repeating() {
        if now < t.eligible_seconds() {
            0
        } else {
            priority_multiplier(t.priority) * (667 * now + 333 * t.eligible_seconds())
        }
    } else {
        priority_multiplier(t.priority) * (667 * now + 1000 * one_off_reference(t))
    }
}

/// Denominator of the score of a well-moded task at time `now`.
pub open spec fn weight_den(t: Task, now: int) -> int {
    if t.is_due() {
        if now <= due_ramp_den(t) {
            due_ramp_den(t)
        } else {
            due_overdue_den(t)
        }
    } else if t.is_repeating() {
        if now < t.eligible_seconds() {
            1
        } else {
            1000 * t.eligible_seconds()
        }
    } else {
        1000 * one_off_reference(t)
    }
}

/// The multiplier for the task's priority level.
pub fn adjust_for_priority(task: &Task) -> (m: i64)
    ensures
        m == priority_multiplier(task.priority),
{
    match task.priority {
        Priority::P0 => 2,
        Priority::P1 => 3,
        Priority::P2 => 5,
        Priority::P3 => 8,
    }
}

/// Multiply a non-negative base score by the priority multiplier.
fn scale_by_priority(p: Priority, base: i64) -> (r: i64)
    requires
        0 <= base,
        8 * base <= i64::MAX,
    ensures
        r == priority_multiplier(p) * base,
{
    match p {
        Priority::P0 => 2 * base,
        Priority::P1 => 3 * base,
        Priority::P2 => 5 * base,
        Priority::P3 => 8 * base,
    }
}

/// Score a due task.
fn weight_due_task(task: &Task, now: i64) -> (w: Weight)
    requires
        task.in_bounds(),
        task.mode_ok(),
        task.is_due(),
        1 <= now <= MAX_EPOCH_SECONDS,
    ensures
        w.wf(),
        w.num == weight_num(*task, now as int),
        w.den == weight_den(*task, now as int),
{
    let due_s = task.due_date.unwrap();
    let lead_days = task.lead_days.unwrap();
    let lead_s = (lead_days as i64) * SECONDS_PER_DAY;
    let threshold = due_s - lead_s;
    if now <= threshold {
        let num = scale_by_priority(task.priority, now);
        Weight { num, den: threshold }
    } else {
        let over = now - due_s + lead_s;
        let base = lead_s + 100 * over;
        let num = scale_by_priority(task.priority, base);
        Weight { num, den: lead_s }
    }
}

/// Score a repeating task; zero while the cooldown has not elapsed.
fn weight_repeat_task(task: &Task, now: i64) -> (w: Weight)
    requires
        task.in_bounds(),
        task.mode_ok(),
        task.is_repeating(),
        1 <= now <= MAX_EPOCH_SECONDS,
    ensures
        w.wf(),
        w.num == weight_num(*task, now as int),
        w.den == weight_den(*task, now as int),
{
    let interval = task.repeat_interval.unwrap();
    let eligible = task.from_date + (interval as i64) * SECONDS_PER_DAY;
    if now < eligible {
        Weight { num: 0, den: 1 }
    } else {
        let base = 667 * now + 333 * eligible;
        let num = scale_by_priority(task.priority, base);
        Weight { num, den: 1000 * eligible }
    }
}

/// Score a one-off task.
fn weight_oneoff_task(task: &Task, now: i64) -> (w: Weight)
    requires
        task.in_bounds(),
        task.mode_ok(),
        task.is_one_off(),
        1 <= now <= MAX_EPOCH_SECONDS,
    ensures
        w.wf(),
        w.num == weight_num(*task, now as int),
        w.den == weight_den(*task, now as int),
{
    let reference = task.from_date + 20 * SECONDS_PER_DAY;
    let base = 667 * now + 1000 * reference;
    let num = scale_by_priority(task.priority, base);
    Weight { num, den: 1000 * reference }
}

/// Score a task at time `now`.  Classifies the task's temporal mode first;
/// a task that breaks the mode invariant is reported, not scored.
pub fn calculate_weight(task: &Task, now: i64) -> (r: Result<Weight, EngineError>)
    requires
        task.in_bounds(),
        1 <= now <= MAX_EPOCH_SECONDS,
    ensures
        match r {
            Ok(w) => task.mode_ok() && w.wf() && w.num == weight_num(*task, now as int)
                && w.den == weight_den(*task, now as int),
            Err(e) => !task.mode_ok() && e == EngineError::InvariantViolation,
        },
{
    match task.due_date {
        Some(_) => {
            if task.lead_days.is_none() || task.repeat_interval.is_some() {
                Err(EngineError::InvariantViolation)
            } else {
                Ok(weight_due_task(task, now))
            }
        },
        None => {
            if task.lead_days.is_some() {
                Err(EngineError::InvariantViolation)
            } else {
                match task.repeat_interval {
                    Some(_) => Ok(weight_repeat_task(task, now)),
                    None => Ok(weight_oneoff_task(task, now)),
                }
            }
        },
    }
}

/// The score's denominator is positive and its numerator non-negative, for
/// every well-moded task in bounds.
pub proof fn lemma_weight_frac_wf(t: Task, now: int)
    requires
        t.in_bounds(),
        t.mode_ok(),
        1 <= now <= MAX_EPOCH_SECONDS,
    ensures
        weight_num(t, now) >= 0,
        weight_den(t, now) >= 1,
{
}

/// Law: with the dates, lead and interval held fixed, the score strictly
/// increases with the priority rank — except for a repeating task still in
/// its cooldown, which scores exactly zero at every priority.
pub proof fn lemma_weight_increases_with_priority(a: Task, b: Task, now: int)
    requires
        a.in_bounds(),
        b.in_bounds(),
        a.mode_ok(),
        b.mode_ok(),
        1 <= now <= MAX_EPOCH_SECONDS,
        a.due_date == b.due_date,
        a.from_date == b.from_date,
        a.lead_days == b.lead_days,
        a.repeat_interval == b.repeat_interval,
        priority_rank(a.priority) < priority_rank(b.priority),
        a.is_repeating() ==> now >= a.eligible_seconds(),
    ensures
        weight_num(a, now) * weight_den(b, now) < weight_num(b, now) * weight_den(a, now),
{
    let ma = priority_multiplier(a.priority);
    let mb = priority_multiplier(b.priority);
    let d = weight_den(a, now);
    assert(weight_den(b, now) == d);
    assert(2 <= ma < mb <= 8);
    lemma_weight_frac_wf(a, now);
    if a.is_due() {
        if now <= due_ramp_den(a) {
            lemma_mul_strictly_monotonic(ma, mb, now);
        } else {
            let base = lead_seconds(a) + 100 * (now - a.due_date->Some_0 + lead_seconds(a));
            assert(base >= 1);
            lemma_mul_strictly_monotonic(ma, mb, base);
        }
    } else if a.is_repeating() {
        let base = 667 * now + 333 * a.eligible_seconds();
        assert(base >= 1);
        lemma_mul_strictly_monotonic(ma, mb, base);
    } else {
        let base = 667 * now + 1000 * one_off_reference(a);
        assert(base >= 1);
        lemma_mul_strictly_monotonic(ma, mb, base);
    }
    lemma_mul_strictly_monotonic(weight_num(a, now), weight_num(b, now), d);
}

/// Law: a repeating task scores exactly zero precisely while its repeat
/// interval has not yet elapsed since its anchor date.
pub proof fn lemma_cooldown_scores_zero(t: Task, now: int)
    requires
        t.in_bounds(),
        t.mode_ok(),
        t.is_repeating(),
        1 <= now <= MAX_EPOCH_SECONDS,
    ensures
        weight_num(t, now) == 0 <==> now < t.eligible_seconds(),
{
    if now >= t.eligible_seconds() {
        let base = 667 * now + 333 * t.eligible_seconds();
        assert(base >= 1);
        lemma_mul_strictly_monotonic(0, priority_multiplier(t.priority), base);
    }
}

/// Law: the storage layer's eligibility pre-filter and the weight formula
/// enforce the same rule — a repeating task is eligible exactly when its
/// score is nonzero, so filtering twice cannot disagree.
pub proof fn lemma_prefilter_agrees_with_engine(t: Task, now: int)
    requires
        t.in_bounds(),
        t.mode_ok(),
        t.is_repeating(),
        1 <= now <= MAX_EPOCH_SECONDS,
    ensures
        t.spec_eligible(now) <==> weight_num(t, now) != 0,
{
    lemma_cooldown_scores_zero(t, now);
}

/// Law: the two due-task branches agree exactly where the lead window
/// opens, at `now == due - lead`; the score there is the bare priority
/// multiplier from both sides.
pub proof fn lemma_due_boundary_continuous(t: Task, now: int)
    requires
        t.in_bounds(),
        t.mode_ok(),
        t.is_due(),
        now == due_ramp_den(t),
    ensures
        due_ramp_num(t, now) * due_overdue_den(t) == due_overdue_num(t, now) * due_ramp_den(t),
{
    let m = priority_multiplier(t.priority);
    let lead = lead_seconds(t);
    assert(due_overdue_num(t, now) == m * lead);
    assert((m * now) * lead == (m * lead) * now) by (nonlinear_arith);
}

/// Multiplying two sides of a strict inequality by a positive factor keeps
/// it strict.
proof fn lemma_mul_strictly_monotonic(x: int, y: int, z: int) by (nonlinear_arith)
    requires
        x < y,
        z >= 1,
    ensures
        x * z < y * z,
{
}

} // verus!

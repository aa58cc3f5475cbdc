//! The bounty calculator: how many tasks a month the population suggests,
//! and what completing one of them pays, in cents, out of the target
//! monthly allowance.

use vstd::prelude::*;

use crate::errors::EngineError;
use crate::ledger::Ledger;
use crate::ledger::balance_of;
use crate::ledger::entry_for;
use crate::tasks::SECONDS_PER_DAY;
use crate::tasks::Task;

verus! {

/// One task's contribution to the monthly estimate: a repeating task
/// completes about `30 / interval` times a month; any other task counts
/// once while its anchor date lies within the last three days of `now`
/// (capturing newly created one-off and due tasks), and not at all after.
pub open spec fn spec_task_estimate(t: Task, now: int) -> int {
    match t.repeat_interval {
        Some(interval) => 30int / (interval as int),
        None => if t.from_date + 3 * SECONDS_PER_DAY > now {
            1int
        } else {
            0int
        },
    }
}

/// The expected number of task completions per month over a population.
pub open spec fn spec_monthly_tasks(s: Seq<Task>, now: int) -> int
    decreases s.len(),
{
    if s.len() == 0 {
        0
    } else {
        spec_monthly_tasks(s.drop_last(), now) + spec_task_estimate(s.last(), now)
    }
}

/// Estimate how many tasks the user completes in a month.  Archived tasks
/// are excluded by whoever supplies the population.
pub fn calc_monthly_tasks(tasks: &Vec<Task>, now: i64) -> (estimate: u32)
    requires
        forall|i: int| 0 <= i < tasks@.len() ==> (#[trigger] tasks@[i]).in_bounds(),
        30 * tasks@.len() <= u32::MAX,
    ensures
        estimate == spec_monthly_tasks(tasks@, now as int),
{
    let mut estimate: u32 = 0;
    let mut i: usize = 0;
    while i < tasks.len()
        invariant
            forall|j: int| 0 <= j < tasks@.len() ==> (#[trigger] tasks@[j]).in_bounds(),
            30 * tasks@.len() <= u32::MAX,
            i <= tasks@.len(),
            estimate == spec_monthly_tasks(tasks@.take(i as int), now as int),
            0 <= estimate <= 30 * (i as int),
        decreases tasks@.len() - i,
    {
        proof {
            assert(tasks@.take(i as int + 1).drop_last() =~= tasks@.take(i as int));
            assert(tasks@.take(i as int + 1).last() == tasks@[i as int]);
        }
        let task = &tasks[i];
        match task.repeat_interval {
            Some(interval) => {
                proof {
                    assert(0 <= 30int / (interval as int) <= 30) by (nonlinear_arith)
                        requires
                            interval >= 1,
                    ;
                }
                estimate = estimate + 30 / interval;
            },
            None => {
                if task.from_date + 3 * SECONDS_PER_DAY > now {
                    estimate = estimate + 1;
                }
            },
        }
        i = i + 1;
    }
    proof {
        assert(tasks@.take(tasks@.len() as int) =~= tasks@);
    }
    estimate
}

/// The rounded payout in cents: `target` dollars a month spread over
/// `estimate` completions, rounded half-up to whole cents.
pub open spec fn spec_base_value_cents(target: int, estimate: int) -> int {
    (200 * target + estimate) / (2 * estimate)
}

/// The payout of the average task before any per-task adjustment: the
/// target monthly allowance (in dollars) divided by the monthly task
/// estimate, rounded to whole cents.  An estimate of zero leaves the value
/// undefined and is reported as an arithmetic error, never a division.
pub fn base_value(target_allowance: u32, monthly_tasks: u32) -> (r: Result<i64, EngineError>)
    ensures
        match r {
            Ok(v) => monthly_tasks >= 1 && v == spec_base_value_cents(
                target_allowance as int,
                monthly_tasks as int,
            ) && v >= 0,
            Err(e) => monthly_tasks == 0 && e == EngineError::Arithmetic,
        },
{
    if monthly_tasks == 0 {
        return Err(EngineError::Arithmetic);
    }
    let target = target_allowance as u64;
    let estimate = monthly_tasks as u64;
    let cents = (200 * target + estimate) / (2 * estimate);
    proof {
        assert(0 <= (200 * (target as int) + estimate) / (2 * (estimate as int)) <= 200 * (
        target as int) + estimate) by (nonlinear_arith)
            requires
                target >= 0,
                estimate >= 1,
        ;
    }
    Ok(cents as i64)
}

/// The payout for one task.  A reserved extension point: per-task weighting
/// by the times-shown/times-selected ratio and by the task's bounty
/// modifier is planned, but today the base value passes through unchanged.
pub fn adjusted_value(_task: &Task, base_value_cents: i64) -> (v: i64)
    ensures
        v == base_value_cents,
{
    base_value_cents
}

/// Pay the bounty for a task: append exactly one credit of its adjusted
/// value to the ledger.
pub fn payout(ledger: &mut Ledger, task: &Task, base_value_cents: i64, now: i64)
    requires
        old(ledger).wf(),
        base_value_cents >= 0,
    ensures
        final(ledger).wf(),
        final(ledger).transactions@ == old(ledger).transactions@.push(
            entry_for(now, base_value_cents),
        ),
        balance_of(final(ledger).transactions@) == balance_of(old(ledger).transactions@)
            + base_value_cents,
{
    let bounty = adjusted_value(task, base_value_cents);
    ledger.append(now, bounty);
}

} // verus!

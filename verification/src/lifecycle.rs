//! The lifecycle controller: the session's state machine and the
//! transitions a task goes through once it is presented.
//!
//! Per selection cycle a task moves `Presented -> Selected ->
//! {Archived | Rescheduled}`: presenting advances its times-shown counter
//! (see the selector), selecting advances its times-selected counter and
//! pays out exactly one bounty, and the task then either terminates
//! (archived) or, if it repeats, has its anchor date advanced to now and
//! re-enters the pool once its repeat interval elapses again.  A task not
//! selected in a cycle simply stays eligible, unchanged.

use vstd::prelude::*;

use crate::errors::EngineError;
use crate::finance::adjusted_value;
use crate::finance::base_value;
use crate::finance::calc_monthly_tasks;
use crate::finance::spec_base_value_cents;
use crate::finance::spec_monthly_tasks;
use crate::ledger::Ledger;
use crate::ledger::balance_of;
use crate::ledger::entry_for;
use crate::prompt::is_number_literal;
use crate::prompt::number_of;
use crate::prompt::parse_usize;
use crate::selector::count_scorable;
use crate::selector::rank_tasks;
use crate::selector::ranked_before;
use crate::selector::record_shown;
use crate::selector::with_times_shown_bumped;
use crate::tasks::MAX_EPOCH_SECONDS;
use crate::tasks::SECONDS_PER_DAY;
use crate::tasks::Task;

verus! {

/// The top-level states the application can be in.
#[derive(Clone, Copy, Debug, PartialEq, Eq, Structural)]
pub enum AppState {
    /// Walks the user through adding a new folder.
    AddFolder,
    /// Walks the user through adding a new task.
    AddTask,
    /// Lets the user edit a specific task (reserved; not yet offered).
    EditTask,
    /// The home menu that every other state returns to.
    MainLoop,
    /// Where the user reviews funds and spends them.
    Shop,
    /// Presents the top-ranked tasks and lets the user pick one.
    ToDo,
}

impl AppState {
    /// The state's display title.
    pub fn to_string(&self) -> (r: &'static str)
        ensures
            *self is AddFolder ==> r@ == "Add Folder"@,
            *self is AddTask ==> r@ == "Add Task"@,
            *self is EditTask ==> r@ == "Edit Task"@,
            *self is MainLoop ==> r@ == "Home"@,
            *self is Shop ==> r@ == "Shop"@,
            *self is ToDo ==> r@ == "ToDo"@,
    {
        match self {
            AppState::AddFolder => "Add Folder",
            AppState::AddTask => "Add Task",
            AppState::EditTask => "Edit Task",
            AppState::MainLoop => "Home",
            AppState::Shop => "Shop",
            AppState::ToDo => "ToDo",
        }
    }
}

/// The state a session starts in, once the surrounding program has its
/// storage ready: the home menu.
pub fn startup() -> (s: AppState)
    ensures
        s == AppState::MainLoop,
{
    AppState::MainLoop
}

/// The decision behind the top-level menu: the entered bytes must spell a
/// number between one and the number of offered states, and pick the state
/// at that one-based position.  Anything else means asking again.
pub fn select_app_state(states: &Vec<AppState>, input: &[u8]) -> (r: Option<AppState>)
    ensures
        match r {
            Some(s) => is_number_literal(input@) && 1 <= number_of(input@) <= states@.len() && s
                == states@[number_of(input@) - 1],
            None => !is_number_literal(input@) || number_of(input@) < 1 || number_of(input@)
                > states@.len(),
        },
{
    let offered = states.len();
    match parse_usize(input) {
        Some(n) => {
            if 1 <= n && n <= offered {
                Some(states[n - 1])
            } else {
                None
            }
        },
        None => None,
    }
}

/// What one selection cycle offers the user: the candidate positions in the
/// active list, best first; the positions of tasks that could not be scored,
/// for diagnostics; and the bounty each candidate pays, in cents.
pub struct Presentation {
    pub candidates: Vec<usize>,
    pub rejected: Vec<usize>,
    pub bounty_cents: i64,
}

/// The presenting half of a cycle: rank the active tasks, keep the best
/// `k`, advance the times-shown counter of exactly those, and price the
/// bounty from the target allowance (in dollars) and the whole population's
/// monthly estimate.  A zero estimate aborts the cycle before anything
/// changes; a task that cannot be scored is skipped and reported, and the
/// cycle goes on without it.
pub fn present_tasks(
    active: &mut Vec<Task>,
    population: &Vec<Task>,
    target_allowance: u32,
    now: i64,
    k: usize,
) -> (r: Result<Presentation, EngineError>)
    requires
        1 <= now <= MAX_EPOCH_SECONDS,
        forall|i: int| 0 <= i < old(active)@.len() ==> (#[trigger] old(active)@[i]).in_bounds(),
        forall|i: int| 0 <= i < old(active)@.len() ==> (#[trigger] old(active)@[i]).times_shown
            < u32::MAX,
        forall|i: int| 0 <= i < population@.len() ==> (#[trigger] population@[i]).in_bounds(),
        30 * population@.len() <= u32::MAX,
    ensures
        match r {
            Ok(offer) => {
                // the bounty is the rounded share of the allowance
                &&& spec_monthly_tasks(population@, now as int) >= 1
                &&& offer.bounty_cents == spec_base_value_cents(
                    target_allowance as int,
                    spec_monthly_tasks(population@, now as int),
                )
                &&& offer.bounty_cents >= 0
                // the candidates are the top of the ranking
                &&& offer.candidates@.len() == (if count_scorable(old(active)@) <= k as int {
                    count_scorable(old(active)@)
                } else {
                    k as int
                })
                &&& forall|a: int|
                    0 <= a < offer.candidates@.len() ==> (#[trigger] offer.candidates@[a]) < old(
                        active,
                    )@.len() && old(active)@[offer.candidates@[a] as int].mode_ok()
                &&& forall|a: int, b: int| #![trigger offer.candidates@[a], offer.candidates@[b]]
                    0 <= a < b < offer.candidates@.len() ==> ranked_before(
                        old(active)@,
                        now as int,
                        offer.candidates@[a] as int,
                        offer.candidates@[b] as int,
                    )
                &&& forall|j: int| #![trigger old(active)@[j]]
                    0 <= j < old(active)@.len() && old(active)@[j].mode_ok()
                        && !offer.candidates@.contains(j as usize) ==> forall|a: int|
                        0 <= a < offer.candidates@.len() ==> ranked_before(
                            old(active)@,
                            now as int,
                            (#[trigger] offer.candidates@[a]) as int,
                            j,
                        )
                // the skipped tasks are exactly the mode violations
                &&& forall|a: int|
                    0 <= a < offer.rejected@.len() ==> (#[trigger] offer.rejected@[a]) < old(
                        active,
                    )@.len() && !old(active)@[offer.rejected@[a] as int].mode_ok()
                &&& forall|j: int| #![trigger old(active)@[j]]
                    0 <= j < old(active)@.len() && !old(active)@[j].mode_ok()
                        ==> offer.rejected@.contains(j as usize)
                // exactly the candidates were marked shown
                &&& final(active)@.len() == old(active)@.len()
                &&& forall|j: int|
                    0 <= j < old(active)@.len() && !offer.candidates@.contains(j as usize)
                        ==> final(active)@[j] == old(active)@[j]
                &&& forall|a: int|
                    0 <= a < offer.candidates@.len() ==> final(active)@[(
                    #[trigger] offer.candidates@[a]) as int] == with_times_shown_bumped(
                        old(active)@[offer.candidates@[a] as int],
                    )
            },
            Err(e) => {
                &&& e == EngineError::Arithmetic
                &&& spec_monthly_tasks(population@, now as int) == 0
                &&& final(active)@ == old(active)@
            },
        },
{
    let estimate = calc_monthly_tasks(population, now);
    let bounty_cents = match base_value(target_allowance, estimate) {
        Ok(cents) => cents,
        Err(e) => {
            return Err(e);
        },
    };
    let ranking = rank_tasks(active, now, k);
    proof {
        assert forall|a: int, b: int|
            0 <= a < b < ranking.ranked@.len() implies (#[trigger] ranking.ranked@[a]) != (
        #[trigger] ranking.ranked@[b]) by {
            if ranking.ranked@[a] == ranking.ranked@[b] {
                assert(ranked_before(
                    active@,
                    now as int,
                    ranking.ranked@[a] as int,
                    ranking.ranked@[b] as int,
                ));
            }
        }
    }
    record_shown(active, &ranking.ranked);
    Ok(Presentation {
        candidates: ranking.ranked,
        rejected: ranking.rejected,
        bounty_cents,
    })
}

/// Where a selected task ends up.
#[derive(Clone, Copy, Debug, PartialEq, Eq, Structural)]
pub enum Disposition {
    /// The task was one-off or due: it is terminated and never returns.
    Archived,
    /// The task repeats: its anchor moved to now, and it returns to the
    /// pool once its repeat interval elapses again.
    Rescheduled,
}

/// Commit the user's pick: advance the task's times-selected counter, pay
/// exactly one bounty of the task's adjusted value into the ledger, and
/// either archive the task (no repeat interval) or reschedule it (anchor
/// date set to now).  Every other field keeps its value.
pub fn apply_selection(task: &mut Task, ledger: &mut Ledger, base_value_cents: i64, now: i64) -> (d:
    Disposition)
    requires
        old(task).times_selected < u32::MAX,
        old(ledger).wf(),
        base_value_cents >= 0,
    ensures
        final(ledger).wf(),
        final(ledger).transactions@ == old(ledger).transactions@.push(
            entry_for(now, base_value_cents),
        ),
        balance_of(final(ledger).transactions@) == balance_of(old(ledger).transactions@)
            + base_value_cents,
        final(task).times_selected == old(task).times_selected + 1,
        old(task).repeat_interval is Some ==> d == Disposition::Rescheduled
            && final(task).from_date == now
            && final(task).is_archived == old(task).is_archived,
        old(task).repeat_interval is None ==> d == Disposition::Archived
            && final(task).is_archived
            && final(task).from_date == old(task).from_date,
        final(task).id == old(task).id,
        final(task).parent_id == old(task).parent_id,
        final(task).summary == old(task).summary,
        final(task).description == old(task).description,
        final(task).average_duration == old(task).average_duration,
        final(task).bounty_modifier == old(task).bounty_modifier,
        final(task).due_date == old(task).due_date,
        final(task).lead_days == old(task).lead_days,
        final(task).priority == old(task).priority,
        final(task).repeat_interval == old(task).repeat_interval,
        final(task).times_shown == old(task).times_shown,
{
    task.times_selected = task.times_selected + 1;
    let bounty = adjusted_value(task, base_value_cents);
    ledger.append(now, bounty);
    if task.repeat_interval.is_some() {
        task.from_date = now;
        Disposition::Rescheduled
    } else {
        task.is_archived = true;
        Disposition::Archived
    }
}

/// Law: a just-rescheduled repeating task is back in its cooldown — with
/// its anchor at `now`, it is ineligible at every moment before `now` plus
/// its repeat interval.
pub proof fn lemma_reschedule_enters_cooldown(t: Task, now: int, later: int)
    requires
        t.is_repeating(),
        t.repeat_interval matches Some(r) && r >= 1,
        t.from_date == now,
        now <= later < now + t.repeat_interval->Some_0 * SECONDS_PER_DAY,
    ensures
        !t.spec_eligible(later),
{
}

} // verus!

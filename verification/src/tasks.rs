//! The task data model: temporal modes, validity bounds, and the tagged
//! priority representation used at the storage boundary.

use vstd::prelude::*;

verus! {

/// Latest point in time the engine reasons about (9999-12-31T23:59:59Z as
/// Unix-epoch seconds).  Keeping every date at or below this bound keeps all
/// of the weight arithmetic inside `i64`.
pub const MAX_EPOCH_SECONDS: i64 = 253402300799;

/// Number of seconds in a day.
pub const SECONDS_PER_DAY: i64 = 86400;

/// One of four ordinal priority levels; the urgency multiplier grows
/// strictly with the level.
#[derive(Clone, Copy, Debug, PartialEq, Eq, Structural)]
pub enum Priority {
    P0,
    P1,
    P2,
    P3,
}

/// A unit of work.  A task is in exactly one of three temporal modes:
/// *due* (a due date with lead days), *repeating* (a repeat interval and no
/// due date), or *one-off* (neither).  Dates are Unix-epoch seconds; the
/// reserved `bounty_modifier` multiplier is held in thousandths.
#[derive(Clone, Debug)]
pub struct Task {
    pub id: u32,
    pub parent_id: u32,
    pub is_archived: bool,
    pub summary: String,
    pub description: Option<String>,
    /// Reserved hint, in seconds; unused by the current formulas.
    pub average_duration: Option<i64>,
    /// Reserved multiplier in thousandths; unused by the current payout.
    pub bounty_modifier: i64,
    pub due_date: Option<i64>,
    /// The last time the task became eligible (creation, or the most recent
    /// reschedule).
    pub from_date: i64,
    pub lead_days: Option<u32>,
    pub priority: Priority,
    pub repeat_interval: Option<u32>,
    pub times_selected: u32,
    pub times_shown: u32,
}

impl Task {
    /// The task has a due date and is scored by the due-task formula.
    pub open spec fn is_due(self) -> bool {
        self.due_date is Some
    }

    /// The task has no due date but a repeat interval.
    pub open spec fn is_repeating(self) -> bool {
        self.due_date is None && self.repeat_interval is Some
    }

    /// The task has neither a due date nor a repeat interval.
    pub open spec fn is_one_off(self) -> bool {
        self.due_date is None && self.repeat_interval is None
    }

    /// The temporal-mode invariant: a due date comes with lead days and
    /// without a repeat interval, and lead days never appear on their own.
    /// Scoring a task that breaks this is an invariant violation.
    pub open spec fn mode_ok(self) -> bool {
        match self.due_date {
            Some(_) => self.lead_days is Some && self.repeat_interval is None,
            None => self.lead_days is None,
        }
    }

    /// Machine-limit bounds: dates lie in the supported epoch range and the
    /// day counts are positive, which keeps every formula inside `i64` and
    /// every divisor nonzero.
    pub open spec fn in_bounds(self) -> bool {
        &&& 0 <= self.from_date <= MAX_EPOCH_SECONDS
        &&& (self.due_date matches Some(d) ==> 0 <= d <= MAX_EPOCH_SECONDS)
        &&& (self.lead_days matches Some(l) ==> l >= 1)
        &&& (self.repeat_interval matches Some(r) ==> r >= 1)
    }

    /// The moment a repeating task leaves its cooldown: its anchor date plus
    /// its repeat interval.
    pub open spec fn eligible_seconds(self) -> int {
        self.from_date + self.repeat_interval->Some_0 * SECONDS_PER_DAY
    }

    /// A task may be offered: every mode but a repeating task inside its
    /// cooldown window.
    pub open spec fn spec_eligible(self, now: int) -> bool {
        !(self.is_repeating() && now < self.eligible_seconds())
    }

    /// Whether the task may be offered at `now`.  Repeating tasks are held
    /// back until their repeat interval has elapsed since `from_date`; the
    /// weight formula independently gives such tasks a zero score.
    pub fn is_eligible(&self, now: i64) -> (r: bool)
        requires
            self.in_bounds(),
        ensures
            r == self.spec_eligible(now as int),
    {
        match (self.due_date, self.repeat_interval) {
            (None, Some(interval)) => {
                let cooldown_end = self.from_date + (interval as i64) * SECONDS_PER_DAY;
                now >= cooldown_end
            },
            _ => true,
        }
    }

    /// Build a task as it enters the system: unarchived, never shown or
    /// selected, anchored at the current time.
    pub fn new(
        parent_id: u32,
        summary: String,
        description: Option<String>,
        priority: Priority,
        due_date: Option<i64>,
        lead_days: Option<u32>,
        repeat_interval: Option<u32>,
        now: i64,
    ) -> (t: Task)
        ensures
            t.id == 0,
            t.parent_id == parent_id,
            !t.is_archived,
            t.summary == summary,
            t.description == description,
            t.average_duration is None,
            t.bounty_modifier == 0,
            t.due_date == due_date,
            t.from_date == now,
            t.lead_days == lead_days,
            t.priority == priority,
            t.repeat_interval == repeat_interval,
            t.times_selected == 0,
            t.times_shown == 0,
    {
        Task {
            id: 0,
            parent_id,
            is_archived: false,
            summary,
            description,
            average_duration: None,
            bounty_modifier: 0,
            due_date,
            from_date: now,
            lead_days,
            priority,
            repeat_interval,
            times_selected: 0,
            times_shown: 0,
        }
    }
}

/// Rank of a priority level: its position in the P0 < P1 < P2 < P3 order.
pub open spec fn priority_rank(p: Priority) -> int {
    match p {
        Priority::P0 => 0,
        Priority::P1 => 1,
        Priority::P2 => 2,
        Priority::P3 => 3,
    }
}

/// The explicit tag a priority is stored under at the storage boundary.
pub open spec fn spec_priority_tag(p: Priority) -> int {
    priority_rank(p)
}

/// Tag a priority for persistence: P0..P3 become 0..3.
pub fn priority_tag(p: Priority) -> (tag: u8)
    ensures
        tag == spec_priority_tag(p),
{
    match p {
        Priority::P0 => 0,
        Priority::P1 => 1,
        Priority::P2 => 2,
        Priority::P3 => 3,
    }
}

/// Read a stored priority tag back; an unknown tag falls back to the
/// default level P1.
pub fn priority_from_tag(tag: u32) -> (p: Priority)
    ensures
        p == (if tag == 0 {
            Priority::P0
        } else if tag == 1 {
            Priority::P1
        } else if tag == 2 {
            Priority::P2
        } else if tag == 3 {
            Priority::P3
        } else {
            Priority::P1
        }),
{
    if tag == 0 {
        Priority::P0
    } else if tag == 1 {
        Priority::P1
    } else if tag == 2 {
        Priority::P2
    } else if tag == 3 {
        Priority::P3
    } else {
        Priority::P1
    }
}

} // verus!

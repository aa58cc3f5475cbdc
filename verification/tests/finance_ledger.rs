use backlist::errors::EngineError;
use backlist::finance::{adjusted_value, base_value, calc_monthly_tasks, payout};
use backlist::ledger::{calc_funds, Ledger};
use backlist::tasks::{Priority, Task};

const DAY: i64 = 86400;
const NOW: i64 = 1_000_000_000;

fn one_off(id: u32, from_date: i64) -> Task {
    Task {
        id,
        parent_id: 1,
        is_archived: false,
        summary: String::from("task"),
        description: None,
        average_duration: None,
        bounty_modifier: 0,
        due_date: None,
        from_date,
        lead_days: None,
        priority: Priority::P1,
        repeat_interval: None,
        times_selected: 0,
        times_shown: 0,
    }
}

#[test]
fn base_value_divides_the_allowance() {
    // 400 dollars over 8 tasks a month: 50.00 per task
    assert_eq!(base_value(400, 8), Ok(5000));
}

#[test]
fn base_value_with_zero_estimate_is_an_arithmetic_error() {
    assert_eq!(base_value(400, 0), Err(EngineError::Arithmetic));
}

#[test]
fn base_value_rounds_half_up_to_whole_cents() {
    // 1 dollar over 8 tasks: 12.5 cents rounds up to 13
    assert_eq!(base_value(1, 8), Ok(13));
    // 1 dollar over 3 tasks: 33.33... truncates to 33
    assert_eq!(base_value(1, 3), Ok(33));
    // 2 dollars over 3 tasks: 66.66... rounds up to 67
    assert_eq!(base_value(2, 3), Ok(67));
}

#[test]
fn monthly_estimate_counts_repeats_and_recent_anchors() {
    let tasks = vec![
        // repeating weekly: floor(30 / 7) = 4
        Task {
            repeat_interval: Some(7),
            ..one_off(0, NOW - 100 * DAY)
        },
        // repeating slower than monthly: floor(30 / 40) = 0
        Task {
            repeat_interval: Some(40),
            ..one_off(1, NOW - 100 * DAY)
        },
        // anchored two days ago: counts once
        one_off(2, NOW - 2 * DAY),
        // anchored four days ago: too old to count
        one_off(3, NOW - 4 * DAY),
        // anchored exactly three days ago: the strict boundary excludes it
        one_off(4, NOW - 3 * DAY),
    ];
    assert_eq!(calc_monthly_tasks(&tasks, NOW), 5);
}

#[test]
fn monthly_estimate_of_empty_population_is_zero() {
    assert_eq!(calc_monthly_tasks(&Vec::new(), NOW), 0);
}

#[test]
fn adjusted_value_passes_the_base_value_through() {
    let task = one_off(0, NOW - 2 * DAY);
    assert_eq!(adjusted_value(&task, 5000), 5000);
    assert_eq!(adjusted_value(&task, 0), 0);
}

#[test]
fn ledger_round_trip() {
    // append(100.50) then append(-45.75) leaves a balance of 54.75
    let mut ledger = Ledger::new();
    ledger.append(NOW, 10050);
    ledger.append(NOW + 1, -4575);
    assert_eq!(ledger.balance(), 5475);
}

#[test]
fn ledger_entries_populate_exactly_one_side() {
    let mut ledger = Ledger::new();
    ledger.append(NOW, 10050);
    ledger.append(NOW + 1, -4575);
    ledger.append(NOW + 2, 0);

    let credit = &ledger.transactions[0];
    assert_eq!(credit.timestamp, NOW);
    assert_eq!(credit.funds_added, Some(10050));
    assert_eq!(credit.funds_subtracted, None);

    let debit = &ledger.transactions[1];
    assert_eq!(debit.funds_added, None);
    assert_eq!(debit.funds_subtracted, Some(4575));

    // a zero amount is recorded as a credit
    let zero = &ledger.transactions[2];
    assert_eq!(zero.funds_added, Some(0));
    assert_eq!(zero.funds_subtracted, None);
}

#[test]
fn empty_ledger_balances_to_zero() {
    let ledger = Ledger::new();
    assert_eq!(ledger.balance(), 0);
    assert_eq!(calc_funds(&Vec::new()), 0);
}

#[test]
fn payout_credits_exactly_one_bounty() {
    let mut ledger = Ledger::new();
    let task = one_off(0, NOW - 2 * DAY);
    payout(&mut ledger, &task, 5000, NOW);
    assert_eq!(ledger.transactions.len(), 1);
    assert_eq!(ledger.transactions[0].funds_added, Some(5000));
    assert_eq!(ledger.balance(), 5000);
}

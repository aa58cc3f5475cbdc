use backlist::errors::EngineError;
use backlist::tasks::{Priority, Task};
use backlist::weighting::{adjust_for_priority, calculate_weight};

const DAY: i64 = 86400;
const NOW: i64 = 1_000_000_000;

fn base_task(id: u32) -> Task {
    Task {
        id,
        parent_id: 1,
        is_archived: false,
        summary: String::from("task"),
        description: None,
        average_duration: None,
        bounty_modifier: 0,
        due_date: None,
        from_date: NOW - 5 * DAY,
        lead_days: None,
        priority: Priority::P1,
        repeat_interval: None,
        times_selected: 0,
        times_shown: 0,
    }
}

fn due_task(priority: Priority) -> Task {
    Task {
        due_date: Some(NOW + 10 * DAY),
        lead_days: Some(3),
        priority,
        ..base_task(0)
    }
}

/// Cross-multiplied strict comparison of two exact rational weights.
fn weight_less(a: (i64, i64), b: (i64, i64)) -> bool {
    (a.0 as i128) * (b.1 as i128) < (b.0 as i128) * (a.1 as i128)
}

#[test]
fn priority_multiplier_orders_weights_strictly() {
    // same dates, lead and interval throughout: weight strictly increases
    // with priority rank, in all three temporal modes
    let levels = [Priority::P0, Priority::P1, Priority::P2, Priority::P3];

    for window in 0..3 {
        let mut previous: Option<(i64, i64)> = None;
        for priority in levels.clone() {
            let task = match window {
                0 => due_task(priority),
                1 => Task {
                    repeat_interval: Some(2),
                    priority,
                    ..base_task(0)
                },
                _ => Task {
                    priority,
                    ..base_task(0)
                },
            };
            let w = calculate_weight(&task, NOW).unwrap();
            if let Some(p) = previous {
                assert!(weight_less(p, (w.num, w.den)));
            }
            previous = Some((w.num, w.den));
        }
    }
}

#[test]
fn the_multipliers_are_two_three_five_eight() {
    let expected = [2, 3, 5, 8];
    let levels = [Priority::P0, Priority::P1, Priority::P2, Priority::P3];
    for (level, m) in levels.iter().zip(expected) {
        let task = Task {
            priority: *level,
            ..base_task(0)
        };
        assert_eq!(adjust_for_priority(&task), m);
    }
}

#[test]
fn weight_comparisons_cross_multiply_exactly() {
    let lower = calculate_weight(&due_task(Priority::P0), NOW).unwrap();
    let higher = calculate_weight(&due_task(Priority::P3), NOW).unwrap();
    assert!(higher.exceeds(lower));
    assert!(!lower.exceeds(higher));
    assert!(!lower.exceeds(lower));
    assert!(lower.same_score(lower));
    // the same rational under a different representation is the same score
    let quarter = backlist::Weight { num: 1, den: 4 };
    let scaled = backlist::Weight { num: 3, den: 12 };
    assert!(quarter.same_score(scaled));
    assert!(!quarter.same_score(lower));
}

#[test]
fn due_task_ramp_formula_is_exact() {
    // before the lead window opens: weight = m * now / (due - lead)
    let w = calculate_weight(&due_task(Priority::P1), NOW).unwrap();
    assert_eq!(w.num, 3 * NOW);
    assert_eq!(w.den, NOW + 10 * DAY - 3 * DAY);
}

#[test]
fn due_task_overdue_formula_is_exact() {
    // two days past the due date: weight = m * (1 + 100 * (now - due + lead) / lead)
    let task = Task {
        due_date: Some(NOW - 2 * DAY),
        lead_days: Some(3),
        ..base_task(0)
    };
    let w = calculate_weight(&task, NOW).unwrap();
    let lead = 3 * DAY;
    assert_eq!(w.num, 3 * (lead + 100 * (2 * DAY + lead)));
    assert_eq!(w.den, lead);
}

#[test]
fn due_task_branches_agree_at_the_window_boundary() {
    // at now == due - lead both branch formulas give exactly the priority
    // multiplier
    let lead_days: u32 = 3;
    let lead = lead_days as i64 * DAY;
    let task = Task {
        due_date: Some(NOW + lead),
        lead_days: Some(lead_days),
        ..base_task(0)
    };
    let w = calculate_weight(&task, NOW).unwrap();
    // the engine took the ramp branch
    assert_eq!(w.num, 3 * NOW);
    assert_eq!(w.den, NOW);
    // the overdue branch at the same instant: m * (lead + 100 * 0) / lead
    let overdue = (3 * lead, lead);
    assert_eq!(
        (w.num as i128) * (overdue.1 as i128),
        (overdue.0 as i128) * (w.den as i128)
    );
    // and numerically the shared value is the bare multiplier
    let ramp_value = w.num as f64 / w.den as f64;
    let overdue_value = overdue.0 as f64 / overdue.1 as f64;
    assert!((ramp_value - 3.0).abs() < 1e-9);
    assert!((ramp_value - overdue_value).abs() < 1e-9);
}

#[test]
fn repeating_task_in_cooldown_scores_exactly_zero() {
    // three days since the anchor, seven-day interval: still cooling down
    let task = Task {
        from_date: NOW - 3 * DAY,
        repeat_interval: Some(7),
        ..base_task(0)
    };
    let w = calculate_weight(&task, NOW).unwrap();
    assert_eq!(w.num, 0);
    assert_eq!(w.den, 1);
}

#[test]
fn repeating_task_past_cooldown_formula_is_exact() {
    // ten days since the anchor, seven-day interval: eligible, and
    // weight = m * (0.667 * now / eligible + 0.333)
    let task = Task {
        from_date: NOW - 10 * DAY,
        repeat_interval: Some(7),
        priority: Priority::P2,
        ..base_task(0)
    };
    let eligible = NOW - 10 * DAY + 7 * DAY;
    let w = calculate_weight(&task, NOW).unwrap();
    assert_eq!(w.num, 5 * (667 * NOW + 333 * eligible));
    assert_eq!(w.den, 1000 * eligible);
    assert!(w.num > 0);
}

#[test]
fn repeating_task_exactly_at_cooldown_end_is_scored() {
    // the instant the interval has elapsed the score is the bare multiplier
    let task = Task {
        from_date: NOW - 7 * DAY,
        repeat_interval: Some(7),
        ..base_task(0)
    };
    let w = calculate_weight(&task, NOW).unwrap();
    assert_eq!(w.num, 3 * (667 * NOW + 333 * NOW));
    assert_eq!(w.den, 1000 * NOW);
    assert!((w.num as f64 / w.den as f64 - 3.0).abs() < 1e-9);
}

#[test]
fn one_off_formula_is_exact() {
    // weight = m * (0.667 * now / (from + 20 days) + 1)
    let task = base_task(0);
    let reference = NOW - 5 * DAY + 20 * DAY;
    let w = calculate_weight(&task, NOW).unwrap();
    assert_eq!(w.num, 3 * (667 * NOW + 1000 * reference));
    assert_eq!(w.den, 1000 * reference);
}

#[test]
fn due_date_without_lead_days_is_an_invariant_violation() {
    let task = Task {
        due_date: Some(NOW + 10 * DAY),
        lead_days: None,
        ..base_task(0)
    };
    assert_eq!(
        calculate_weight(&task, NOW),
        Err(EngineError::InvariantViolation)
    );
}

#[test]
fn due_date_with_repeat_interval_is_an_invariant_violation() {
    let task = Task {
        due_date: Some(NOW + 10 * DAY),
        lead_days: Some(3),
        repeat_interval: Some(7),
        ..base_task(0)
    };
    assert_eq!(
        calculate_weight(&task, NOW),
        Err(EngineError::InvariantViolation)
    );
}

#[test]
fn lead_days_without_due_date_is_an_invariant_violation() {
    let task = Task {
        lead_days: Some(3),
        ..base_task(0)
    };
    assert_eq!(
        calculate_weight(&task, NOW),
        Err(EngineError::InvariantViolation)
    );
}

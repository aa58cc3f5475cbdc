use backlist::errors::EngineError;
use backlist::folders::{Folder, ParseStyleError, Style};
use backlist::prompt::{parse_allowance, parse_usize, request_optional_description, select_task};
use backlist::tasks::{priority_from_tag, priority_tag, Priority, Task};

#[test]
fn parse_usize_reads_decimal_literals_exactly() {
    assert_eq!(parse_usize(b"0"), Some(0));
    assert_eq!(parse_usize(b"42"), Some(42));
    assert_eq!(parse_usize(b"007"), Some(7));
    assert_eq!(parse_usize(b"+42"), Some(42));
    assert_eq!(parse_usize(b""), None);
    assert_eq!(parse_usize(b"+"), None);
    assert_eq!(parse_usize(b"4a2"), None);
    assert_eq!(parse_usize(b"-1"), None);
    assert_eq!(parse_usize(b" 1"), None);
    // far beyond any machine word
    assert_eq!(parse_usize(b"99999999999999999999999999"), None);
}

#[test]
fn parse_allowance_reads_the_setting_or_reports_configuration() {
    assert_eq!(parse_allowance(b"400"), Ok(400));
    assert_eq!(parse_allowance(b"0"), Ok(0));
    assert_eq!(parse_allowance(b"4294967295"), Ok(u32::MAX));
    assert_eq!(parse_allowance(b"4294967296"), Err(EngineError::Configuration));
    assert_eq!(parse_allowance(b"four"), Err(EngineError::Configuration));
    assert_eq!(parse_allowance(b""), Err(EngineError::Configuration));
}

#[test]
fn select_task_maps_one_based_entry_to_candidate() {
    assert_eq!(select_task(5, b"1"), Some(0));
    assert_eq!(select_task(5, b"5"), Some(4));
    assert_eq!(select_task(5, b"0"), None);
    assert_eq!(select_task(5, b"6"), None);
    assert_eq!(select_task(0, b"1"), None);
    assert_eq!(select_task(5, b"x"), None);
}

#[test]
fn empty_description_lines_mean_none() {
    assert_eq!(request_optional_description(String::new()), None);
    assert_eq!(
        request_optional_description(String::from("use soap")),
        Some(String::from("use soap"))
    );
}

#[test]
fn style_text_round_trips() {
    for style in [Style::Directory, Style::Selector, Style::Iterator] {
        assert_eq!(Style::from_str(style.as_str()), Ok(style));
    }
    assert_eq!(Style::from_str("Directory"), Ok(Style::Directory));
    assert_eq!(Style::from_str("Selector"), Ok(Style::Selector));
    assert_eq!(Style::from_str("Iterator"), Ok(Style::Iterator));
}

#[test]
fn unknown_style_text_is_rejected_with_the_input() {
    match Style::from_str("directory") {
        Err(ParseStyleError::InvalidInput(input)) => assert_eq!(input, "directory"),
        other => panic!("expected an invalid-input error, got {:?}", other),
    }
}

#[test]
fn style_prompt_positions() {
    assert_eq!(Style::from_choice(1), Some(Style::Directory));
    assert_eq!(Style::from_choice(2), Some(Style::Selector));
    assert_eq!(Style::from_choice(3), Some(Style::Iterator));
    assert_eq!(Style::from_choice(0), None);
    assert_eq!(Style::from_choice(4), None);
}

#[test]
fn priority_tags_round_trip_and_unknown_tags_default() {
    let levels = [Priority::P0, Priority::P1, Priority::P2, Priority::P3];
    for (rank, level) in levels.iter().enumerate() {
        assert_eq!(priority_tag(*level) as usize, rank);
        assert_eq!(priority_from_tag(rank as u32), *level);
    }
    assert_eq!(priority_from_tag(9), Priority::P1);
}

#[test]
fn new_tasks_enter_unshown_and_anchored_at_now() {
    let now = 1_000_000_000;
    let task = Task::new(
        2,
        String::from("water the plants"),
        Some(String::from("both pots")),
        Priority::P2,
        None,
        None,
        Some(7),
        now,
    );
    assert_eq!(task.id, 0);
    assert_eq!(task.parent_id, 2);
    assert!(!task.is_archived);
    assert_eq!(task.summary, "water the plants");
    assert_eq!(task.description.as_deref(), Some("both pots"));
    assert_eq!(task.from_date, now);
    assert_eq!(task.repeat_interval, Some(7));
    assert_eq!(task.times_selected, 0);
    assert_eq!(task.times_shown, 0);
    assert_eq!(task.bounty_modifier, 0);
}

#[test]
fn new_folders_hang_under_their_parent() {
    let folder = Folder::new(1, String::from("Errands"), Style::Selector);
    assert_eq!(folder.id, 0);
    assert_eq!(folder.parent_id, Some(1));
    assert_eq!(folder.name, "Errands");
    assert_eq!(folder.style, Style::Selector);
    assert_eq!(folder.status, None);
}

#[test]
fn eligibility_boundary_is_inclusive() {
    let day = 86400;
    let now = 1_000_000_000;
    let task = Task {
        repeat_interval: Some(7),
        from_date: now - 7 * day,
        ..Task::new(
            1,
            String::from("weekly"),
            None,
            Priority::P1,
            None,
            None,
            Some(7),
            now,
        )
    };
    // exactly at the cooldown's end the task is eligible again
    assert!(task.is_eligible(now));
    let earlier = Task {
        from_date: now - 7 * day + 1,
        ..task.clone()
    };
    assert!(!earlier.is_eligible(now));
}

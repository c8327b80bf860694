//! Shooting percentage and overtime metrics on concrete values.

use replay_summary::helpers::{get_overtime_seconds, is_overtime, shooting_percentage};
use replay_summary::props::{get_i32, get_millis, get_string, PropValue};

fn props_of(entries: Vec<(&str, PropValue)>) -> Vec<(String, PropValue)> {
    entries.into_iter().map(|(k, v)| (k.to_string(), v)).collect()
}

#[test]
fn shooting_percentage_three_of_four() {
    assert_eq!(shooting_percentage(3, 4), 75);
}

#[test]
fn shooting_percentage_zero_shots() {
    assert_eq!(shooting_percentage(5, 0), 0);
    assert_eq!(shooting_percentage(0, 0), 0);
}

#[test]
fn shooting_percentage_rounds_half_up() {
    // 1/8 = 12.5% rounds up to 13.
    assert_eq!(shooting_percentage(1, 8), 13);
    // 1/3 = 33.33..% rounds down to 33; 2/3 = 66.67..% rounds up to 67.
    assert_eq!(shooting_percentage(1, 3), 33);
    assert_eq!(shooting_percentage(2, 3), 67);
    assert_eq!(shooting_percentage(1, 2), 50);
    assert_eq!(shooting_percentage(4, 4), 100);
    assert_eq!(shooting_percentage(5, 4), 125);
}

#[test]
fn overtime_one_goal_margin_and_long_duration() {
    let props = props_of(vec![
        ("TotalSecondsPlayed", PropValue::Float(310_000)),
        ("Team0Score", PropValue::Int(2)),
        ("Team1Score", PropValue::Int(1)),
    ]);
    assert!(is_overtime(&props));
    let duration = get_millis(&props, "TotalSecondsPlayed");
    assert_eq!(duration, 310_000);
    assert_eq!(get_overtime_seconds(duration, true), 10);
}

#[test]
fn overtime_needs_margin_of_exactly_one() {
    let props = props_of(vec![
        ("TotalSecondsPlayed", PropValue::Float(310_000)),
        ("Team0Score", PropValue::Int(3)),
        ("Team1Score", PropValue::Int(1)),
    ]);
    assert!(!is_overtime(&props));
    assert_eq!(get_overtime_seconds(310_000, false), 0);
}

#[test]
fn overtime_needs_duration_above_threshold() {
    let props = props_of(vec![
        ("TotalSecondsPlayed", PropValue::Float(300_000)),
        ("Team0Score", PropValue::Int(2)),
        ("Team1Score", PropValue::Int(1)),
    ]);
    assert!(!is_overtime(&props));
    // The threshold itself does not count as overtime.
    let at_threshold = props_of(vec![
        ("TotalSecondsPlayed", PropValue::Float(303_000)),
        ("Team0Score", PropValue::Int(1)),
        ("Team1Score", PropValue::Int(2)),
    ]);
    assert!(!is_overtime(&at_threshold));
    let past_threshold = props_of(vec![
        ("TotalSecondsPlayed", PropValue::Float(303_001)),
        ("Team0Score", PropValue::Int(1)),
        ("Team1Score", PropValue::Int(2)),
    ]);
    assert!(is_overtime(&past_threshold));
}

#[test]
fn overtime_seconds_rounds_to_nearest() {
    assert_eq!(get_overtime_seconds(310_499, true), 10);
    assert_eq!(get_overtime_seconds(310_500, true), 11);
    assert_eq!(get_overtime_seconds(300_000, true), 0);
    assert_eq!(get_overtime_seconds(300_001, true), 0);
    assert_eq!(get_overtime_seconds(300_500, true), 1);
}

#[test]
fn overtime_uses_widened_integer_duration() {
    let props = props_of(vec![
        ("TotalSecondsPlayed", PropValue::Int(310)),
        ("Team0Score", PropValue::Int(0)),
        ("Team1Score", PropValue::Int(1)),
    ]);
    assert!(is_overtime(&props));
    assert_eq!(get_millis(&props, "TotalSecondsPlayed"), 310_000);
}

#[test]
fn accessors_default_on_absence_and_mismatch() {
    let props = props_of(vec![
        ("Name", PropValue::Int(7)),
        ("TeamSize", PropValue::Str("three".to_string())),
    ]);
    assert_eq!(get_string(&props, "Name", ""), "");
    assert_eq!(get_string(&props, "Missing", "Unknown"), "Unknown");
    assert_eq!(get_i32(&props, "TeamSize"), 0);
    assert_eq!(get_i32(&props, "Missing"), 0);
    assert_eq!(get_millis(&props, "Missing"), 0);
}

#[test]
fn accessors_first_match_wins_on_duplicate_keys() {
    let props = props_of(vec![
        ("MapName", PropValue::Str("first".to_string())),
        ("MapName", PropValue::Str("second".to_string())),
        ("TeamSize", PropValue::Int(2)),
        ("TeamSize", PropValue::Int(9)),
    ]);
    assert_eq!(get_string(&props, "MapName", ""), "first");
    assert_eq!(get_i32(&props, "TeamSize"), 2);
}

#[test]
fn accessors_read_name_tagged_strings() {
    let props = props_of(vec![("MatchType", PropValue::Name("Online".to_string()))]);
    assert_eq!(get_string(&props, "MatchType", ""), "Online");
}

use countdown_tui::{Countdown, CountdownList};

fn entry(name: &str, target_time: i64) -> Countdown {
    Countdown {
        name: name.to_string(),
        background_color: 0x112233,
        foreground_color: 0x445566,
        target_time,
    }
}

fn three() -> CountdownList {
    CountdownList {
        entries: vec![entry("a", 10), entry("b", 20), entry("c", 30)],
        selected_index: 0,
    }
}

#[test]
fn selection_wraps_forward_and_backward() {
    let mut list = three();
    list.select_previous();
    assert_eq!(list.selected_index, 2);
    list.select_next();
    assert_eq!(list.selected_index, 0);
    list.select_next();
    assert_eq!(list.selected_index, 1);
    list.select_next();
    assert_eq!(list.selected_index, 2);
    list.select_next();
    assert_eq!(list.selected_index, 0);
}

#[test]
fn selection_stays_in_bounds_over_any_walk() {
    let mut list = three();
    for step in 0..50usize {
        if step % 3 == 0 {
            list.select_next();
        } else {
            list.select_previous();
        }
        assert!(list.selected_index < list.entries.len());
    }
}

#[test]
fn next_then_previous_returns_to_start() {
    for start in 0..3usize {
        let mut list = three();
        list.selected_index = start;
        list.select_next();
        list.select_previous();
        assert_eq!(list.selected_index, start);
        list.select_previous();
        list.select_next();
        assert_eq!(list.selected_index, start);
    }
}

#[test]
fn empty_list_navigation_is_a_no_op() {
    let mut list = CountdownList::new();
    list.select_next();
    assert_eq!(list.selected_index, 0);
    list.select_previous();
    assert_eq!(list.selected_index, 0);
    assert!(list.selected().is_none());
    assert_eq!(list.len(), 0);
}

#[test]
fn selected_returns_the_cursor_entry() {
    let mut list = three();
    assert_eq!(list.selected().unwrap().name, "a");
    list.select_next();
    assert_eq!(list.selected().unwrap().name, "b");
}

#[test]
fn remaining_seconds_counts_down_and_goes_negative() {
    let now: i64 = 1700000000;
    let c = entry("soon", now + 10);
    assert_eq!(c.remaining_seconds(now), 10);
    assert_eq!(c.remaining_seconds(now + 10), 0);
    assert_eq!(c.remaining_seconds(now + 25), -15);
    let past = entry("gone", now - 100);
    assert!(past.remaining_seconds(now) < 0);
    assert_eq!(past.remaining_seconds(now), -100);
}

#[test]
fn remaining_seconds_saturates_instead_of_wrapping() {
    let c = entry("far", i64::MAX - 5);
    assert_eq!(c.remaining_seconds(-10), i64::MAX);
    let d = entry("long gone", i64::MIN + 5);
    assert_eq!(d.remaining_seconds(10), i64::MIN);
}

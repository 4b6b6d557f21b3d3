use countdown_tui::{
    load, parse_data_row, save, Countdown, CountdownList, ParseFault, RecordFile, TIMESTAMP_MAX,
    TIMESTAMP_MIN,
};

fn file(header: Vec<&str>, rows: Vec<Vec<&str>>) -> RecordFile {
    RecordFile {
        header: header.into_iter().map(|s| s.to_string()).collect(),
        rows: rows
            .into_iter()
            .map(|r| r.into_iter().map(|s| s.to_string()).collect())
            .collect(),
    }
}

#[test]
fn one_record_loads_with_its_fields() {
    let f = file(
        vec!["0", "", "", ""],
        vec![vec!["Launch", "FF0000", "FFFFFF", "2030-01-01T00:00:00+00:00"]],
    );
    let list = load(Some(&f)).unwrap();
    assert_eq!(list.entries.len(), 1);
    assert_eq!(list.selected_index, 0);
    let c = &list.entries[0];
    assert_eq!(c.name, "Launch");
    assert_eq!(c.background_color, 0xFF0000);
    assert_eq!(c.foreground_color, 0xFFFFFF);
    assert_eq!(c.target_time, 1893456000);
}

#[test]
fn missing_file_loads_empty() {
    let list = load(None).unwrap();
    assert_eq!(list.entries.len(), 0);
    assert_eq!(list.selected_index, 0);
    assert!(list.selected().is_none());
}

#[test]
fn invalid_color_fails_with_its_row_and_field() {
    let f = file(
        vec!["0"],
        vec![vec!["Launch", "ZZZZZZ", "FFFFFF", "2030-01-01T00:00:00+00:00"]],
    );
    let e = load(Some(&f)).unwrap_err();
    assert_eq!(e.row, 0);
    assert_eq!(e.field, 1);
    assert_eq!(e.fault, ParseFault::BadColor);
}

#[test]
fn first_bad_row_wins() {
    let f = file(
        vec!["0"],
        vec![
            vec!["Fine", "00FF00", "000000", "2030-01-01T00:00:00+00:00"],
            vec!["Bad", "00FF00", "000000", "not a datetime"],
            vec!["Worse", "XYZXYZ", "000000", "2030-01-01T00:00:00+00:00"],
        ],
    );
    let e = load(Some(&f)).unwrap_err();
    assert_eq!(e.row, 1);
    assert_eq!(e.field, 3);
    assert_eq!(e.fault, ParseFault::BadDateTime);
}

#[test]
fn wrong_field_count_fails() {
    let f = file(vec!["0"], vec![vec!["Launch", "FF0000", "FFFFFF"]]);
    let e = load(Some(&f)).unwrap_err();
    assert_eq!(e.row, 0);
    assert_eq!(e.field, 0);
    assert_eq!(e.fault, ParseFault::WrongFieldCount);
}

#[test]
fn empty_name_fails() {
    let f = file(
        vec!["0"],
        vec![vec!["", "FF0000", "FFFFFF", "2030-01-01T00:00:00+00:00"]],
    );
    let e = load(Some(&f)).unwrap_err();
    assert_eq!(e.row, 0);
    assert_eq!(e.field, 0);
    assert_eq!(e.fault, ParseFault::EmptyName);
}

#[test]
fn unparsable_header_defaults_to_zero() {
    let f = file(
        vec!["three", "", "", ""],
        vec![
            vec!["A", "112233", "445566", "2030-01-01T00:00:00+00:00"],
            vec!["B", "112233", "445566", "2030-01-02T00:00:00+00:00"],
        ],
    );
    let list = load(Some(&f)).unwrap();
    assert_eq!(list.selected_index, 0);
}

#[test]
fn out_of_range_header_is_clamped() {
    let f = file(
        vec!["5", "", "", ""],
        vec![
            vec!["A", "112233", "445566", "2030-01-01T00:00:00+00:00"],
            vec!["B", "112233", "445566", "2030-01-02T00:00:00+00:00"],
        ],
    );
    let list = load(Some(&f)).unwrap();
    assert_eq!(list.selected_index, 1);
}

#[test]
fn empty_header_row_defaults_to_zero() {
    let f = file(
        vec![],
        vec![vec!["A", "112233", "445566", "2030-01-01T00:00:00+00:00"]],
    );
    let list = load(Some(&f)).unwrap();
    assert_eq!(list.selected_index, 0);
}

#[test]
fn save_then_load_round_trips() {
    let f = file(
        vec!["1", "", "", ""],
        vec![
            vec!["Launch", "FF0000", "FFFFFF", "2030-01-01T00:00:00+00:00"],
            vec!["Offset", "0a0B0c", "DDeeFF", "2031-05-06T07:08:09+02:00"],
            vec!["Past", "000000", "010203", "1969-12-31T23:59:50Z"],
        ],
    );
    let list = load(Some(&f)).unwrap();
    assert_eq!(list.entries[1].target_time, 1935810489);
    assert_eq!(list.entries[2].target_time, -10);
    let saved = save(&list);
    let reloaded = load(Some(&saved)).unwrap();
    assert_eq!(list, reloaded);
}

#[test]
fn extreme_timestamps_round_trip() {
    let entry = |name: &str, target_time: i64| Countdown {
        name: name.to_string(),
        background_color: 0x112233,
        foreground_color: 0x445566,
        target_time,
    };
    let list = CountdownList {
        entries: vec![entry("earliest", TIMESTAMP_MIN), entry("latest", TIMESTAMP_MAX)],
        selected_index: 0,
    };
    let saved = save(&list);
    assert!(!saved.rows[0][3].is_empty());
    assert!(!saved.rows[1][3].is_empty());
    let reloaded = load(Some(&saved)).unwrap();
    assert_eq!(list, reloaded);
}

#[test]
fn save_writes_selection_and_one_row_per_countdown() {
    let f = file(
        vec!["1", "", "", ""],
        vec![
            vec!["A", "112233", "445566", "2030-01-01T00:00:00+00:00"],
            vec!["B", "778899", "AABBCC", "2030-01-02T00:00:00+00:00"],
        ],
    );
    let list = load(Some(&f)).unwrap();
    let saved = save(&list);
    assert_eq!(saved.header[0], "1");
    assert_eq!(saved.rows.len(), 2);
    assert_eq!(saved.rows[0][0], "A");
    assert_eq!(saved.rows[1][1], "778899");
    assert_eq!(saved.rows[1][2], "AABBCC");
}

#[test]
fn data_row_parses_alone() {
    let row: Vec<String> = vec!["Solo", "00ff00", "000000", "2030-01-01T00:00:00Z"]
        .into_iter()
        .map(|s| s.to_string())
        .collect();
    let c = parse_data_row(&row).unwrap();
    assert_eq!(c.name, "Solo");
    assert_eq!(c.background_color, 0x00FF00);
    assert_eq!(c.target_time, 1893456000);
    let bad: Vec<String> = vec!["Solo", "00ff00", "00000g", "2030-01-01T00:00:00Z"]
        .into_iter()
        .map(|s| s.to_string())
        .collect();
    assert_eq!(parse_data_row(&bad).unwrap_err(), (2, ParseFault::BadColor));
}

use countdown_tui::{load, App, AppState, KeyInput, RecordFile, Step};

fn one_entry_file() -> RecordFile {
    RecordFile {
        header: vec!["0".to_string()],
        rows: vec![vec![
            "Launch".to_string(),
            "FF0000".to_string(),
            "FFFFFF".to_string(),
            "2030-01-01T00:00:00+00:00".to_string(),
        ]],
    }
}

#[test]
fn loaded_app_starts_viewing() {
    let f = one_entry_file();
    let app = App::new(Some(&f)).unwrap();
    assert_eq!(app.state, AppState::ViewingCountdowns);
    assert!(!app.exit);
    assert_eq!(app.countdowns.entries.len(), 1);
}

#[test]
fn empty_app_starts_creating() {
    let app = App::new(None).unwrap();
    assert_eq!(app.state, AppState::CreatingCountdown(Step::Name));
    assert_eq!(app.countdowns.entries.len(), 0);
}

#[test]
fn new_key_starts_the_wizard() {
    let f = one_entry_file();
    let mut app = App::new(Some(&f)).unwrap();
    app.handle_key(KeyInput::New);
    assert_eq!(app.state, AppState::CreatingCountdown(Step::Name));
}

#[test]
fn cancel_returns_to_viewing_without_touching_the_list() {
    let f = one_entry_file();
    let mut app = App::new(Some(&f)).unwrap();
    let entries_before = app.countdowns.entries.clone();
    let selected_before = app.countdowns.selected_index;
    app.handle_key(KeyInput::New);
    assert!(app.confirm_step("half-finished"));
    app.handle_key(KeyInput::Cancel);
    assert_eq!(app.state, AppState::ViewingCountdowns);
    assert_eq!(app.countdowns.entries, entries_before);
    assert_eq!(app.countdowns.selected_index, selected_before);
}

#[test]
fn quit_sets_the_exit_flag_in_any_state() {
    let f = one_entry_file();
    let mut app = App::new(Some(&f)).unwrap();
    app.handle_key(KeyInput::Quit);
    assert!(app.exit);
    let mut creating = App::new(None).unwrap();
    assert_eq!(creating.state, AppState::CreatingCountdown(Step::Name));
    creating.handle_key(KeyInput::Quit);
    assert!(creating.exit);
    assert_eq!(creating.state, AppState::CreatingCountdown(Step::Name));
}

#[test]
fn arrow_keys_move_the_selection_only_while_viewing() {
    let f = RecordFile {
        header: vec!["0".to_string()],
        rows: vec![
            vec![
                "A".to_string(),
                "112233".to_string(),
                "445566".to_string(),
                "2030-01-01T00:00:00Z".to_string(),
            ],
            vec![
                "B".to_string(),
                "112233".to_string(),
                "445566".to_string(),
                "2030-01-02T00:00:00Z".to_string(),
            ],
        ],
    };
    let mut app = App::new(Some(&f)).unwrap();
    app.handle_key(KeyInput::NextTab);
    assert_eq!(app.countdowns.selected_index, 1);
    app.handle_key(KeyInput::NextTab);
    assert_eq!(app.countdowns.selected_index, 0);
    app.handle_key(KeyInput::PrevTab);
    assert_eq!(app.countdowns.selected_index, 1);
    app.handle_key(KeyInput::New);
    app.handle_key(KeyInput::NextTab);
    assert_eq!(app.countdowns.selected_index, 1);
}

#[test]
fn wizard_collects_fields_and_commits() {
    let mut app = App::new(None).unwrap();
    assert_eq!(app.state, AppState::CreatingCountdown(Step::Name));

    assert!(!app.confirm_step(""));
    assert_eq!(app.state, AppState::CreatingCountdown(Step::Name));

    assert!(app.confirm_step("Party"));
    assert_eq!(app.state, AppState::CreatingCountdown(Step::BackgroundColor));

    assert!(!app.confirm_step("GGGGGG"));
    assert!(app.confirm_step("112233"));
    assert_eq!(app.state, AppState::CreatingCountdown(Step::ForegroundColor));

    assert!(app.confirm_step("445566"));
    assert_eq!(app.state, AppState::CreatingCountdown(Step::DateTime));

    assert!(!app.confirm_step("not a datetime"));
    assert_eq!(app.state, AppState::CreatingCountdown(Step::DateTime));

    assert!(app.confirm_step("2031-05-06T07:08:09+02:00"));
    assert_eq!(app.state, AppState::ViewingCountdowns);
    assert_eq!(app.countdowns.entries.len(), 1);
    assert_eq!(app.countdowns.selected_index, 0);
    let c = &app.countdowns.entries[0];
    assert_eq!(c.name, "Party");
    assert_eq!(c.background_color, 0x112233);
    assert_eq!(c.foreground_color, 0x445566);
    assert_eq!(c.target_time, 1935810489);
}

#[test]
fn committed_countdown_survives_a_save() {
    let mut app = App::new(None).unwrap();
    assert!(app.confirm_step("Party"));
    assert!(app.confirm_step("112233"));
    assert!(app.confirm_step("445566"));
    assert!(app.confirm_step("2031-05-06T07:08:09+02:00"));
    let saved = countdown_tui::save(&app.countdowns);
    let reloaded = load(Some(&saved)).unwrap();
    assert_eq!(reloaded, app.countdowns);
}

#[test]
fn confirm_outside_the_wizard_is_a_no_op() {
    let f = one_entry_file();
    let mut app = App::new(Some(&f)).unwrap();
    assert!(!app.confirm_step("anything"));
    assert_eq!(app.state, AppState::ViewingCountdowns);
    assert_eq!(app.countdowns.entries.len(), 1);
}

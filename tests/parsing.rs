use diffding::{
    changes_from_groups, command_for, get_time_left, materially_different, parse_shortstat,
    resolve_settings, signal_plan, AppState, GitChanges, GitState, InputEvent, ManagerMessage,
    Settings, SettingsError, Signal, SnoozeLeft, SIGNAL_EXIT_CODE,
};

#[test]
fn shortstat_with_insertions_and_deletions() {
    let c = parse_shortstat(" 3 files changed, 10 insertions(+), 2 deletions(-)\n").unwrap();
    assert_eq!(c, GitChanges { insertions: 10, deletions: 2, total: 12 });
}

#[test]
fn shortstat_with_insertions_only() {
    let c = parse_shortstat(" 1 file changed, 7 insertions(+)\n").unwrap();
    assert_eq!(c, GitChanges { insertions: 7, deletions: 0, total: 7 });
}

#[test]
fn shortstat_of_clean_tree_is_zero() {
    assert_eq!(parse_shortstat("").unwrap(), GitChanges::default());
}

#[test]
fn shortstat_count_too_large() {
    assert_eq!(parse_shortstat(" 1 file changed, 99999999999 insertions(+)\n"), None);
}

#[test]
fn groups_give_counts() {
    let g = |t: &str| Some(t.to_string());
    let groups = Some(vec![g("x"), g("x"), g("1"), g("x"), g("5"), g("x"), g("6")]);
    assert_eq!(
        changes_from_groups(&groups),
        Some(GitChanges { insertions: 5, deletions: 6, total: 11 })
    );
    assert_eq!(changes_from_groups(&None), Some(GitChanges::default()));
    let short = Some(vec![g("x"), g("x"), g("1")]);
    assert_eq!(changes_from_groups(&short), Some(GitChanges::default()));
    let overflow = Some(vec![None, None, None, None, g("2147483647"), None, g("1")]);
    assert_eq!(changes_from_groups(&overflow), None);
    let negative = Some(vec![None, None, None, None, g("-4"), None, None]);
    assert_eq!(changes_from_groups(&negative), None);
}

#[test]
fn comparator_cases() {
    let c = GitChanges { insertions: 1, deletions: 2, total: 3 };
    let a = GitState::new(100, c, "aaa".to_string(), "a".to_string());
    assert!(materially_different(&None, &a));
    assert!(!materially_different(&Some(a.clone()), &a));
    let b = GitState::new(100, c, "bbb".to_string(), "b".to_string());
    assert!(materially_different(&Some(a.clone()), &b));
    let d = GitState::new(100, GitChanges { insertions: 2, deletions: 1, total: 3 }, "aaa".to_string(), "a".to_string());
    assert!(materially_different(&Some(a.clone()), &d));
    assert!(!a.compare_with_prev(&None));
    assert!(c.compare(&c));
    assert!(!c.compare(&GitChanges { insertions: 1, deletions: 2, total: 4 }));
}

#[test]
fn update_moves_commit_to_last() {
    let mut s = GitState::new(100, GitChanges::default(), "aaa".to_string(), "a".to_string());
    assert!(!s.is_above_threshold());
    s.update(GitChanges { insertions: 101, deletions: 0, total: 101 }, "bbb".to_string(), "b".to_string());
    assert_eq!(s.last_commit, Some("aaa".to_string()));
    assert_eq!(s.last_commit_short, Some("a".to_string()));
    assert_eq!(s.current_commit, "bbb");
    assert!(s.is_above_threshold());
}

#[test]
fn keys_map_to_commands() {
    let key = |c: char, ctrl: bool| command_for(InputEvent::Key { code: c, control: ctrl });
    assert!(matches!(key('q', false), Some(ManagerMessage::Quit)));
    assert!(matches!(key('c', true), Some(ManagerMessage::Quit)));
    assert!(key('c', false).is_none());
    assert!(matches!(key(' ', false), Some(ManagerMessage::Snooze)));
    assert!(matches!(key('b', false), Some(ManagerMessage::Bell)));
    assert!(key('x', false).is_none());
    assert!(matches!(command_for(InputEvent::Resize), Some(ManagerMessage::Redraw)));
    assert!(command_for(InputEvent::Other).is_none());
}

#[test]
fn signals_silence_and_end() {
    let h = signal_plan(Signal::Hangup);
    assert!(h.stop_bell);
    assert_eq!(h.exit_code, None);
    for s in [Signal::Terminate, Signal::Interrupt, Signal::Quit] {
        let p = signal_plan(s);
        assert!(p.stop_bell && p.restore_screen);
        assert_eq!(p.exit_code, Some(SIGNAL_EXIT_CODE));
        assert_ne!(SIGNAL_EXIT_CODE, 0);
    }
}

#[test]
fn time_left_of_a_snooze() {
    let s = AppState::new(false, true, Some(1_000), None);
    assert_eq!(get_time_left(&s, 300, 61_000), Some(SnoozeLeft::Minutes(4)));
    assert_eq!(get_time_left(&s, 300, 181_000), Some(SnoozeLeft::Minutes(2)));
    assert_eq!(get_time_left(&s, 300, 241_000), Some(SnoozeLeft::Minutes(1)));
    assert_eq!(get_time_left(&s, 300, 250_000), Some(SnoozeLeft::UnderAMinute));
    assert_eq!(get_time_left(&s, 300, 900_000), Some(SnoozeLeft::UnderAMinute));
    assert_eq!(get_time_left(&AppState::default(), 300, 0), None);
}

fn args(v: &[&str]) -> Vec<String> {
    v.iter().map(|s| s.to_string()).collect()
}

#[test]
fn settings_defaults_and_config() {
    let d = resolve_settings(&None, &None, &None, &args(&["diffding"])).unwrap();
    assert_eq!(d, Settings { threshold: 100, git_update_time: 5000, snooze_length: 300 });
    let c = resolve_settings(
        &Some("250".to_string()),
        &Some("1000".to_string()),
        &Some("2".to_string()),
        &args(&["diffding"]),
    )
    .unwrap();
    assert_eq!(c, Settings { threshold: 250, git_update_time: 1000, snooze_length: 120 });
    let bad = resolve_settings(&Some("lots".to_string()), &Some("-5".to_string()), &None, &args(&[])).unwrap();
    assert_eq!(bad, Settings { threshold: 100, git_update_time: 5000, snooze_length: 300 });
}

#[test]
fn settings_from_arguments() {
    let one = resolve_settings(&None, &None, &None, &args(&["diffding", "750"])).unwrap();
    assert_eq!(one, Settings { threshold: 100, git_update_time: 750, snooze_length: 300 });
    let two = resolve_settings(&Some("9".to_string()), &None, &None, &args(&["diffding", "750", "42"])).unwrap();
    assert_eq!(two, Settings { threshold: 42, git_update_time: 750, snooze_length: 300 });
}

#[test]
fn settings_errors() {
    assert_eq!(
        resolve_settings(&None, &None, &None, &args(&["diffding", "soon"])),
        Err(SettingsError::BadUpdateTime)
    );
    assert_eq!(
        resolve_settings(&None, &None, &None, &args(&["diffding", "750", "many"])),
        Err(SettingsError::BadThreshold)
    );
    assert_eq!(
        resolve_settings(&None, &None, &Some("9223372036854775807".to_string()), &args(&["diffding"])),
        Err(SettingsError::SnoozeTooLong)
    );
}

#[test]
fn settings_refuse_non_positive_values() {
    let cfg = |t: &str| Some(t.to_string());
    assert_eq!(
        resolve_settings(&cfg("0"), &None, &None, &args(&["diffding"])),
        Err(SettingsError::NonPositiveThreshold)
    );
    assert_eq!(
        resolve_settings(&cfg("-7"), &None, &None, &args(&["diffding"])),
        Err(SettingsError::NonPositiveThreshold)
    );
    assert_eq!(
        resolve_settings(&None, &None, &None, &args(&["diffding", "750", "0"])),
        Err(SettingsError::NonPositiveThreshold)
    );
    assert_eq!(
        resolve_settings(&None, &None, &cfg("0"), &args(&["diffding"])),
        Err(SettingsError::NonPositiveSnooze)
    );
    assert_eq!(
        resolve_settings(&None, &None, &cfg("-3"), &args(&["diffding"])),
        Err(SettingsError::NonPositiveSnooze)
    );
    assert_eq!(
        resolve_settings(&cfg("1"), &None, &cfg("1"), &args(&["diffding"])),
        Ok(Settings { threshold: 1, git_update_time: 5000, snooze_length: 60 })
    );
}

use diffding::{
    Action, AppState, BellMessage, GitChanges, GitState, Manager, ManagerMessage, UiMessage,
    TEST_ALERT_MS,
};

fn sample(commit: &str, insertions: i32, deletions: i32, threshold: i32) -> GitState {
    let changes = GitChanges { insertions, deletions, total: insertions + deletions };
    GitState::new(threshold, changes, commit.to_string(), commit[..3].to_string())
}

fn git(g: GitState) -> ManagerMessage {
    ManagerMessage::Git { git_state: g }
}

fn bells(acts: &[Action]) -> Vec<BellMessage> {
    acts.iter()
        .filter_map(|a| match a {
            Action::Bell(m) => Some(*m),
            _ => None,
        })
        .collect()
}

fn renders(acts: &[Action]) -> usize {
    acts.iter().filter(|a| matches!(a, Action::Ui(_))).count()
}

#[test]
fn crossing_up_then_down_starts_once_and_stops_once() {
    let mut m = Manager::new(300);
    let totals = [10, 60, 101, 120, 150, 150, 90, 40];
    let mut all = Vec::new();
    for (i, t) in totals.iter().enumerate() {
        let acts = m.handle(git(sample("abcdef", *t, 0, 100)), i as i64);
        all.extend(bells(&acts));
    }
    assert_eq!(all, vec![BellMessage::Start, BellMessage::Stop]);
    assert!(!m.app_state().ringing);
}

#[test]
fn first_sample_above_threshold_starts_alert_after_render() {
    let mut m = Manager::new(300);
    let acts = m.handle(git(sample("abcdef", 100, 50, 100)), 0);
    assert_eq!(acts.len(), 2);
    match &acts[0] {
        Action::Ui(UiMessage::GitUpdate { git_state, app_state }) => {
            assert_eq!(git_state.git_changes.total, 150);
            assert!(!app_state.ringing);
        }
        _ => panic!("expected a render first"),
    }
    assert!(matches!(acts[1], Action::Bell(BellMessage::Start)));
    assert!(m.app_state().ringing);
}

#[test]
fn total_equal_to_threshold_is_not_above() {
    let mut m = Manager::new(300);
    let acts = m.handle(git(sample("abcdef", 60, 40, 100)), 0);
    assert_eq!(bells(&acts), vec![]);
    assert!(!m.app_state().ringing);
}

#[test]
fn snooze_silences_and_always_stops() {
    let mut m = Manager::new(300);
    let acts = m.handle(ManagerMessage::Snooze, 5);
    assert!(matches!(acts[0], Action::Bell(BellMessage::Stop)));
    assert_eq!(renders(&acts), 0);
    assert!(m.app_state().snoozed);
    assert!(!m.app_state().ringing);
    assert_eq!(m.app_state().snoozed_at, Some(5));

    m.handle(git(sample("abcdef", 150, 0, 100)), 6);
    assert!(!m.app_state().ringing);

    let mut r = Manager::new(300);
    r.handle(git(sample("abcdef", 150, 0, 100)), 0);
    assert!(r.app_state().ringing);
    let acts = r.handle(ManagerMessage::Snooze, 7);
    assert_eq!(bells(&acts), vec![BellMessage::Stop]);
    assert_eq!(renders(&acts), 1);
    assert!(acts.iter().any(|a| matches!(a, Action::ScheduleUnsnooze { timer: 1, delay_secs: 300 })));
    assert!(!r.app_state().ringing);
    assert!(r.app_state().snoozed);
}

#[test]
fn identical_consecutive_samples_render_once() {
    let mut m = Manager::new(300);
    let first = m.handle(git(sample("abcdef", 3, 4, 100)), 0);
    let second = m.handle(git(sample("abcdef", 3, 4, 100)), 1);
    assert_eq!(renders(&first), 1);
    assert_eq!(renders(&second), 0);
    assert!(second.is_empty());
    let third = m.handle(git(sample("bcdefa", 3, 4, 100)), 2);
    assert_eq!(renders(&third), 1);
    let fourth = m.handle(git(sample("bcdefa", 4, 3, 100)), 3);
    assert_eq!(renders(&fourth), 1);
}

#[test]
fn snooze_expiry_does_not_resume_alert() {
    let mut m = Manager::new(1);
    let acts = m.handle(git(sample("abcdef", 150, 0, 100)), 0);
    assert_eq!(bells(&acts), vec![BellMessage::Start]);
    assert!(m.app_state().ringing);

    let acts = m.handle(ManagerMessage::Snooze, 10);
    assert!(!m.app_state().ringing);
    assert!(m.app_state().snoozed);
    let timer = acts
        .iter()
        .find_map(|a| match a {
            Action::ScheduleUnsnooze { timer, delay_secs } => {
                assert_eq!(*delay_secs, 1);
                Some(*timer)
            }
            _ => None,
        })
        .unwrap();

    m.snooze_expired(timer);
    assert!(!m.app_state().snoozed);
    assert_eq!(m.app_state().snoozed_at, None);
    assert!(!m.app_state().ringing);

    let acts = m.handle(ManagerMessage::Redraw, 1200);
    assert_eq!(bells(&acts), vec![]);
    assert_eq!(renders(&acts), 1);

    let acts = m.handle(git(sample("abcdef", 151, 0, 100)), 2000);
    assert_eq!(bells(&acts), vec![BellMessage::Start]);
    assert!(m.app_state().ringing);
}

#[test]
fn replaced_snooze_timer_is_ignored() {
    let mut m = Manager::new(60);
    let first = m.handle(ManagerMessage::Snooze, 0);
    let second = m.handle(ManagerMessage::Snooze, 10);
    let timer_of = |acts: &[Action]| {
        acts.iter()
            .find_map(|a| match a {
                Action::ScheduleUnsnooze { timer, .. } => Some(*timer),
                _ => None,
            })
            .unwrap()
    };
    let (t1, t2) = (timer_of(&first), timer_of(&second));
    assert_ne!(t1, t2);
    m.snooze_expired(t1);
    assert!(m.app_state().snoozed);
    assert_eq!(m.app_state().snoozed_at, Some(10));
    m.snooze_expired(t2);
    assert!(!m.app_state().snoozed);
}

#[test]
fn quit_while_ringing_stops_before_shutdown() {
    let mut m = Manager::new(300);
    m.handle(git(sample("abcdef", 200, 0, 100)), 0);
    assert!(m.app_state().ringing);
    let acts = m.handle(ManagerMessage::Quit, 1);
    assert_eq!(acts.len(), 2);
    assert!(matches!(acts[0], Action::Bell(BellMessage::Stop)));
    assert!(matches!(acts[1], Action::Shutdown));
    assert!(m.is_stopped());
    assert!(!m.app_state().ringing);
    assert!(m.handle(ManagerMessage::Redraw, 2).is_empty());
    assert!(m.handle(git(sample("bcdefa", 300, 0, 100)), 3).is_empty());
}

#[test]
fn manual_test_alert_rings_then_stops() {
    let mut m = Manager::new(300);
    let acts = m.handle(ManagerMessage::Bell, 0);
    assert_eq!(acts.len(), 2);
    assert!(matches!(acts[0], Action::Bell(BellMessage::Start)));
    match acts[1] {
        Action::StopBellAfter { delay_ms } => assert_eq!(delay_ms, TEST_ALERT_MS),
        _ => panic!("expected a delayed stop"),
    }
    assert!(!m.app_state().ringing);
}

#[test]
fn redraw_without_sample_does_nothing() {
    let mut m = Manager::new(300);
    assert!(m.handle(ManagerMessage::Redraw, 0).is_empty());
    m.handle(git(sample("abcdef", 1, 1, 100)), 1);
    let acts = m.handle(ManagerMessage::Redraw, 2);
    assert_eq!(acts.len(), 1);
    assert_eq!(m.last_git_state().unwrap().git_changes.total, 2);
}

#[test]
fn app_state_constructors() {
    let d = AppState::default();
    assert_eq!(d, AppState::new(false, false, None, None));
    let s = AppState::new(true, false, Some(3), Some(4));
    assert!(s.ringing);
    assert_eq!(s.snoozed_until, Some(4));
}

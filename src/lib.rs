//! Decision core of a commit reminder: it watches a change metric of a
//! working tree, decides when an alert must ring, lets the user snooze it,
//! and keeps at most one repeating alert alive.

mod bell;
mod changes;
mod decimal;
mod input;
mod manager;
mod settings;
mod shortstat;

pub use bell::{
    lemma_live_after_append, lemma_restart_keeps_one, live_after, live_set, next_token,
    supervisor_step, BellAction, BellMessage, BellSupervisor, SupervisorView,
};
pub use changes::{materially_different, same_sample, spec_materially_different, GitChanges, GitState};
pub use decimal::{decimal_i32, decimal_i64, decimal_u64, decimal_value, digits_value};
pub use input::{
    command_for, signal_plan, spec_command_for, spec_signal_plan, InputEvent, Signal, SignalPlan,
    SIGNAL_EXIT_CODE,
};
pub use manager::{
    alert_decision, bell_commands, bell_seq, lemma_decisions_single_crossing, run_decisions, expiry_step, get_time_left, lemma_bell_commands_append,
    lemma_expiry_does_not_resume, lemma_invariant_kept, lemma_quit_silences,
    lemma_repeated_sample_dropped, lemma_replaced_timer_ignored, lemma_single_crossing,
    lemma_snooze_silences, manager_inv, manager_step, remaining_ms, run_samples, spec_time_left,
    Action, AppState, Manager, ManagerMessage, ManagerView, SnoozeLeft, UiMessage, TEST_ALERT_MS,
};
pub use settings::{
    resolve_settings, spec_read_settings, spec_settings, Settings, SettingsError, DEFAULT_SNOOZE_MINUTES,
    DEFAULT_THRESHOLD, DEFAULT_UPDATE_TIME,
};
pub use shortstat::{
    changes_from_groups, changes_of_groups, groups_view, parse_shortstat, regex_groups,
    SHORTSTAT_PATTERN,
};

use vstd::prelude::*;

use crate::bell::BellMessage;
use crate::changes::{materially_different, same_sample, spec_materially_different, GitState};

verus! {

/// The alert state that the coordinator keeps. Times are milliseconds since
/// the Unix epoch.
#[derive(Debug, Clone, Copy, PartialEq, Eq, Structural)]
pub struct AppState {
    pub ringing: bool,
    pub snoozed: bool,
    pub snoozed_at: Option<i64>,
    pub snoozed_until: Option<i64>,
}

impl AppState {
    /// Snoozing always silences, and a snooze always knows when it began.
    pub open spec fn wf(&self) -> bool {
        &&& self.snoozed ==> !self.ringing
        &&& self.snoozed == self.snoozed_at.is_some()
    }

    pub fn new(ringing: bool, snoozed: bool, snoozed_at: Option<i64>, snoozed_until: Option<i64>) -> (r: AppState)
        ensures
            r == (AppState { ringing, snoozed, snoozed_at, snoozed_until }),
    {
        AppState { ringing, snoozed, snoozed_at, snoozed_until }
    }

    /// Not ringing, not snoozed.
    pub fn default() -> (r: AppState)
        ensures
            r == idle_state(),
            r.wf(),
    {
        AppState { ringing: false, snoozed: false, snoozed_at: None, snoozed_until: None }
    }

    fn start_ringing(&mut self)
        ensures
            *final(self) == (AppState { ringing: true, ..*old(self) }),
    {
        self.ringing = true;
    }

    fn stop_ringing(&mut self)
        ensures
            *final(self) == (AppState { ringing: false, ..*old(self) }),
    {
        self.ringing = false;
    }

    fn is_ringing(&self) -> (r: bool)
        ensures
            r == self.ringing,
    {
        self.ringing
    }

    fn snooze(&mut self, now: i64)
        ensures
            *final(self) == snoozed_state(*old(self), now),
    {
        self.snoozed = true;
        self.ringing = false;
        self.snoozed_at = Some(now);
    }

    fn unsnooze(&mut self)
        ensures
            *final(self) == unsnoozed_state(*old(self)),
    {
        self.snoozed = false;
        self.snoozed_at = None;
    }
}

pub open spec fn idle_state() -> AppState {
    AppState { ringing: false, snoozed: false, snoozed_at: None, snoozed_until: None }
}

pub open spec fn snoozed_state(s: AppState, now: i64) -> AppState {
    AppState { ringing: false, snoozed: true, snoozed_at: Some(now), ..s }
}

pub open spec fn unsnoozed_state(s: AppState) -> AppState {
    AppState { snoozed: false, snoozed_at: None, ..s }
}

/// A command to the coordinator.
#[derive(Debug)]
pub enum ManagerMessage {
    /// Shut down: silence the alert and stop taking commands.
    Quit,
    /// Silence the alert for the snooze length.
    Snooze,
    /// A new sample of the change metric.
    Git { git_state: GitState },
    /// Ring the alert for a short while to test it.
    Bell,
    /// Show the last sample again.
    Redraw,
}

/// What the display is handed: a sample and the alert state beside it.
#[derive(Debug)]
pub enum UiMessage {
    GitUpdate { git_state: GitState, app_state: AppState },
}

/// How long a test alert rings before it is stopped, in milliseconds.
pub const TEST_ALERT_MS: u64 = 3000;

/// What the coordinator asks its runtime to do, in order.
#[derive(Debug)]
pub enum Action {
    /// Hand this to the display.
    Ui(UiMessage),
    /// Hand this to the alert device supervisor.
    Bell(BellMessage),
    /// Hand `Stop` to the alert device supervisor after this many milliseconds.
    StopBellAfter { delay_ms: u64 },
    /// Report the expiry of the snooze timer `timer` after this many seconds.
    ScheduleUnsnooze { timer: u64, delay_secs: i64 },
    /// Restore the terminal and end the process.
    Shutdown,
}

/// The coordinator as a state machine.
pub struct ManagerView {
    pub app_state: AppState,
    /// The last sample that was acted on.
    pub last: Option<GitState>,
    /// How long a snooze lasts, in seconds.
    pub snooze_length: i64,
    /// The newest snooze timer; an older one that expires is ignored.
    pub snooze_timer: u64,
    /// Whether `Quit` was taken: no command is acted on after it.
    pub stopped: bool,
}

pub open spec fn bell_action(m: Option<BellMessage>) -> Seq<Action> {
    match m {
        Some(b) => seq![Action::Bell(b)],
        None => Seq::empty(),
    }
}

/// The alert decision on a sample: start ringing when above the threshold,
/// silent and not snoozed; stop ringing when ringing and either below the
/// threshold or snoozed; else nothing.
pub open spec fn alert_decision(s: AppState, sample: GitState) -> (AppState, Option<BellMessage>) {
    let above = sample.above_threshold();
    if above && !s.ringing && !s.snoozed {
        (AppState { ringing: true, ..s }, Some(BellMessage::Start))
    } else if (!above && s.ringing) || (s.snoozed && s.ringing) {
        (AppState { ringing: false, ..s }, Some(BellMessage::Stop))
    } else {
        (s, None)
    }
}

pub open spec fn render(g: GitState, s: AppState) -> Action {
    Action::Ui(UiMessage::GitUpdate { git_state: g, app_state: s })
}

pub open spec fn render_last(last: Option<GitState>, s: AppState) -> Seq<Action> {
    match last {
        Some(g) => seq![render(g, s)],
        None => Seq::empty(),
    }
}

pub open spec fn next_timer(t: u64) -> u64 {
    if t == u64::MAX {
        0
    } else {
        (t + 1) as u64
    }
}

/// One command taken by the coordinator: its next state and the actions it
/// asks for, in order. `now` is the time of the command.
pub open spec fn manager_step(v: ManagerView, msg: ManagerMessage, now: i64) -> (ManagerView, Seq<Action>) {
    if v.stopped {
        (v, Seq::empty())
    } else {
        match msg {
            ManagerMessage::Quit => (
                ManagerView { app_state: AppState { ringing: false, ..v.app_state }, stopped: true, ..v },
                seq![Action::Bell(BellMessage::Stop), Action::Shutdown],
            ),
            ManagerMessage::Redraw => (v, render_last(v.last, v.app_state)),
            ManagerMessage::Bell => (
                v,
                seq![Action::Bell(BellMessage::Start), Action::StopBellAfter { delay_ms: TEST_ALERT_MS }],
            ),
            ManagerMessage::Git { git_state } => if spec_materially_different(v.last, git_state) {
                let (s, m) = alert_decision(v.app_state, git_state);
                (
                    ManagerView { app_state: s, last: Some(git_state), ..v },
                    seq![render(git_state, v.app_state)] + bell_action(m),
                )
            } else {
                (v, Seq::empty())
            },
            ManagerMessage::Snooze => {
                let snoozed = snoozed_state(v.app_state, now);
                let timer = next_timer(v.snooze_timer);
                let (s, m) = match v.last {
                    Some(g) => alert_decision(snoozed, g),
                    None => (snoozed, None),
                };
                (
                    ManagerView { app_state: s, snooze_timer: timer, ..v },
                    seq![Action::Bell(BellMessage::Stop)] + render_last(v.last, snoozed)
                        + seq![Action::ScheduleUnsnooze { timer, delay_secs: v.snooze_length }]
                        + bell_action(m),
                )
            },
        }
    }
}

/// The expiry of snooze timer `timer`: the newest timer clears the snooze
/// and nothing else; it does not decide on the alert again.
pub open spec fn expiry_step(v: ManagerView, timer: u64) -> ManagerView {
    if !v.stopped && timer == v.snooze_timer {
        ManagerView { app_state: unsnoozed_state(v.app_state), ..v }
    } else {
        v
    }
}

/// The coordinator's invariant: the alert state is well formed, and after
/// `Quit` nothing rings.
pub open spec fn manager_inv(v: ManagerView) -> bool {
    &&& v.app_state.wf()
    &&& v.stopped ==> !v.app_state.ringing
}

/// How much of a snooze is left, in whole minutes.
#[derive(Debug, Clone, Copy, PartialEq, Eq, Structural)]
pub enum SnoozeLeft {
    /// At least this many minutes, and less than one more.
    Minutes(i64),
    /// Less than one minute (or the snooze is already over).
    UnderAMinute,
}

/// Milliseconds left of a snooze of `length` seconds that began at `at`.
pub open spec fn remaining_ms(at: i64, length: i64, now: i64) -> int {
    length * 1000 - (now - at)
}

pub open spec fn spec_time_left(s: AppState, length: i64, now: i64) -> Option<SnoozeLeft> {
    match s.snoozed_at {
        None => None,
        Some(at) => {
            let ms = remaining_ms(at, length, now);
            if ms >= 60000 {
                Some(SnoozeLeft::Minutes((ms / 60000) as i64))
            } else {
                Some(SnoozeLeft::UnderAMinute)
            }
        },
    }
}

/// What is left, at time `now`, of the snooze in `app_state`, for a snooze
/// length of `length` seconds; `None` when not snoozed.
pub fn get_time_left(app_state: &AppState, length: i64, now: i64) -> (r: Option<SnoozeLeft>)
    ensures
        r == spec_time_left(*app_state, length, now),
{
    match app_state.snoozed_at {
        None => None,
        Some(at) => {
            let ms: i128 = (length as i128) * 1000 - ((now as i128) - (at as i128));
            if ms >= 60000 {
                assert(ms / 60000 <= i64::MAX) by (nonlinear_arith)
                    requires
                        ms <= 9223372036854775807 * 1000 + 18446744073709551615,
                        ms >= 60000;
                Some(SnoozeLeft::Minutes((ms / 60000) as i64))
            } else {
                Some(SnoozeLeft::UnderAMinute)
            }
        },
    }
}

/// The single sequential actor that takes every command, keeps the alert
/// state and decides what the alert device and the display are told.
#[derive(Debug)]
pub struct Manager {
    app_state: AppState,
    last_git_state: Option<GitState>,
    snooze_length: i64,
    snooze_timer: u64,
    stopped: bool,
}

impl View for Manager {
    type V = ManagerView;

    closed spec fn view(&self) -> ManagerView {
        ManagerView {
            app_state: self.app_state,
            last: self.last_git_state,
            snooze_length: self.snooze_length,
            snooze_timer: self.snooze_timer,
            stopped: self.stopped,
        }
    }
}

fn decide(s: &mut AppState, sample: &GitState) -> (r: Option<BellMessage>)
    ensures
        (*final(s), r) == alert_decision(*old(s), *sample),
{
    let is_ringing = s.is_ringing();
    let is_snoozed = s.snoozed;
    let above = sample.is_above_threshold();
    if above && !is_ringing && !is_snoozed {
        s.start_ringing();
        Some(BellMessage::Start)
    } else if (!above && is_ringing) || (is_snoozed && is_ringing) {
        s.stop_ringing();
        Some(BellMessage::Stop)
    } else {
        None
    }
}

fn push_bell(acts: &mut Vec<Action>, m: Option<BellMessage>)
    ensures
        final(acts)@ == old(acts)@ + bell_action(m),
{
    if let Some(b) = m {
        acts.push(Action::Bell(b));
    } else {
        assert(old(acts)@ + bell_action(m) =~= old(acts)@);
    }
}

fn push_render_last(acts: &mut Vec<Action>, last: &Option<GitState>, s: AppState)
    ensures
        final(acts)@ == old(acts)@ + render_last(*last, s),
{
    if let Some(g) = last {
        acts.push(Action::Ui(UiMessage::GitUpdate { git_state: g.clone(), app_state: s }));
        assert(old(acts)@.push(render(*g, s)) =~= old(acts)@ + render_last(*last, s));
    } else {
        assert(old(acts)@ + render_last(*last, s) =~= old(acts)@);
    }
}

impl Manager {
    /// A coordinator with no sample yet, not ringing and not snoozed.
    pub fn new(snooze_length: i64) -> (r: Manager)
        ensures
            r@ == (ManagerView {
                app_state: idle_state(),
                last: None,
                snooze_length,
                snooze_timer: 0,
                stopped: false,
            }),
            manager_inv(r@),
    {
        Manager {
            app_state: AppState::default(),
            last_git_state: None,
            snooze_length,
            snooze_timer: 0,
            stopped: false,
        }
    }

    pub fn app_state(&self) -> (r: AppState)
        ensures
            r == self@.app_state,
    {
        self.app_state
    }

    pub fn last_git_state(&self) -> (r: Option<GitState>)
        ensures
            r == self@.last,
    {
        match &self.last_git_state {
            Some(g) => Some(g.clone()),
            None => None,
        }
    }

    pub fn is_stopped(&self) -> (r: bool)
        ensures
            r == self@.stopped,
    {
        self.stopped
    }

    /// Takes one command, at time `now`, and returns what to do, in order.
    pub fn handle(&mut self, msg: ManagerMessage, now: i64) -> (r: Vec<Action>)
        ensures
            (final(self)@, r@) == manager_step(old(self)@, msg, now),
            manager_inv(old(self)@) ==> manager_inv(final(self)@),
    {
        let mut acts: Vec<Action> = Vec::new();
        if self.stopped {
            return acts;
        }
        match msg {
            ManagerMessage::Quit => {
                self.app_state.stop_ringing();
                self.stopped = true;
                acts.push(Action::Bell(BellMessage::Stop));
                acts.push(Action::Shutdown);
            },
            ManagerMessage::Redraw => {
                push_render_last(&mut acts, &self.last_git_state, self.app_state);
            },
            ManagerMessage::Bell => {
                acts.push(Action::Bell(BellMessage::Start));
                acts.push(Action::StopBellAfter { delay_ms: TEST_ALERT_MS });
            },
            ManagerMessage::Git { git_state } => {
                if materially_different(&self.last_git_state, &git_state) {
                    let shown = self.app_state;
                    acts.push(Action::Ui(UiMessage::GitUpdate { git_state: git_state.clone(), app_state: shown }));
                    let m = decide(&mut self.app_state, &git_state);
                    push_bell(&mut acts, m);
                    self.last_git_state = Some(git_state);
                }
            },
            ManagerMessage::Snooze => {
                self.app_state.snooze(now);
                acts.push(Action::Bell(BellMessage::Stop));
                push_render_last(&mut acts, &self.last_git_state, self.app_state);
                self.snooze_timer = if self.snooze_timer == u64::MAX {
                    0
                } else {
                    self.snooze_timer + 1
                };
                acts.push(Action::ScheduleUnsnooze { timer: self.snooze_timer, delay_secs: self.snooze_length });
                let m = match &self.last_git_state {
                    Some(g) => decide(&mut self.app_state, g),
                    None => None,
                };
                push_bell(&mut acts, m);
            },
        }
        acts
    }

    /// The snooze timer `timer` expired: when it is the newest, the snooze
    /// ends. The alert is not decided on again until the next sample.
    pub fn snooze_expired(&mut self, timer: u64)
        ensures
            final(self)@ == expiry_step(old(self)@, timer),
            manager_inv(old(self)@) ==> manager_inv(final(self)@),
    {
        if !self.stopped && timer == self.snooze_timer {
            self.app_state.unsnooze();
        }
    }
}

/// Every command and every timer expiry keeps the coordinator's invariant;
/// in particular snoozing always silences.
pub proof fn lemma_invariant_kept(v: ManagerView, msg: ManagerMessage, now: i64, timer: u64)
    requires
        manager_inv(v),
    ensures
        manager_inv(manager_step(v, msg, now).0),
        manager_inv(expiry_step(v, timer)),
{
}

/// `Snooze` silences at once, whatever the state before: the alert is left
/// not ringing, and the supervisor is handed no `Start`. Before `Quit` it also
/// leaves the coordinator snoozed since `now` and hands `Stop` to the
/// supervisor first; after `Quit` nothing rings already and nothing is done.
pub proof fn lemma_snooze_silences(v: ManagerView, now: i64)
    requires
        manager_inv(v) || !v.stopped,
    ensures
        ({
            let (w, acts) = manager_step(v, ManagerMessage::Snooze, now);
            &&& !w.app_state.ringing
            &&& forall|i: int| 0 <= i < acts.len() ==> acts[i] != Action::Bell(BellMessage::Start)
            &&& v.stopped ==> w == v && acts.len() == 0
        }),
        !v.stopped ==> ({
            let (w, acts) = manager_step(v, ManagerMessage::Snooze, now);
            &&& w.app_state.snoozed
            &&& w.app_state.snoozed_at == Some(now)
            &&& w.app_state.snoozed_until == v.app_state.snoozed_until
            &&& acts.len() > 0
            &&& acts[0] == Action::Bell(BellMessage::Stop)
            &&& forall|i: int| 0 <= i < acts.len() ==> acts[i] != Action::Bell(BellMessage::Start)
        }),
{
    if !v.stopped {
        let snoozed = snoozed_state(v.app_state, now);
        let (w, acts) = manager_step(v, ManagerMessage::Snooze, now);
        let timer = next_timer(v.snooze_timer);
        let m = match v.last {
            Some(g) => alert_decision(snoozed, g).1,
            None => None,
        };
        assert(m.is_none());
        assert(acts =~= seq![Action::Bell(BellMessage::Stop)] + render_last(v.last, snoozed)
            + seq![Action::ScheduleUnsnooze { timer, delay_secs: v.snooze_length }]);
        assert forall|i: int| 0 <= i < acts.len() implies acts[i] != Action::Bell(BellMessage::Start) by {
            if i > 0 && i <= render_last(v.last, snoozed).len() {
                assert(acts[i] == render_last(v.last, snoozed)[i - 1]);
            }
        }
    }
}

/// A sample with the same commit and line counts as the one just before it
/// is dropped: it changes nothing and nothing is rendered for it.
pub proof fn lemma_repeated_sample_dropped(v: ManagerView, first: GitState, second: GitState, now1: i64, now2: i64)
    requires
        first.current_commit@ == second.current_commit@,
        first.git_changes.same_counts(&second.git_changes),
    ensures
        ({
            let (v1, a1) = manager_step(v, ManagerMessage::Git { git_state: first }, now1);
            let (v2, a2) = manager_step(v1, ManagerMessage::Git { git_state: second }, now2);
            &&& v2 == v1
            &&& a2.len() == 0
        }),
{
}

/// `Quit` silences the alert before the process ends: when the alert rings,
/// `Stop` is handed to the supervisor and only then comes the shutdown; no
/// command after it is acted on.
pub proof fn lemma_quit_silences(v: ManagerView, now: i64, later: ManagerMessage, now2: i64)
    requires
        manager_inv(v),
        v.app_state.ringing,
    ensures
        ({
            let (w, acts) = manager_step(v, ManagerMessage::Quit, now);
            &&& acts == seq![Action::Bell(BellMessage::Stop), Action::Shutdown]
            &&& !w.app_state.ringing
            &&& w.stopped
            &&& manager_step(w, later, now2) == (w, Seq::<Action>::empty())
        }),
{
}

/// After a snooze runs out with no new sample, the snooze is over and the
/// alert stays silent: the expiry asks for nothing, a redraw hands the
/// supervisor nothing, and only the next new sample above the threshold
/// starts the alert again.
pub proof fn lemma_expiry_does_not_resume(v: ManagerView, now: i64, sample: GitState, now2: i64)
    requires
        manager_inv(v),
        !v.stopped,
        sample.above_threshold(),
        spec_materially_different(v.last, sample),
    ensures
        ({
            let (v1, a1) = manager_step(v, ManagerMessage::Snooze, now);
            let v2 = expiry_step(v1, v1.snooze_timer);
            let (v3, a3) = manager_step(v2, ManagerMessage::Redraw, now2);
            let (v4, a4) = manager_step(v2, ManagerMessage::Git { git_state: sample }, now2);
            &&& !v2.app_state.snoozed
            &&& !v2.app_state.ringing
            &&& forall|i: int| 0 <= i < a3.len() ==> !(a3[i] is Bell)
            &&& a4 == seq![render(sample, v2.app_state), Action::Bell(BellMessage::Start)]
            &&& v4.app_state.ringing
        }),
{
    let (v1, a1) = manager_step(v, ManagerMessage::Snooze, now);
    let v2 = expiry_step(v1, v1.snooze_timer);
    let (v3, a3) = manager_step(v2, ManagerMessage::Redraw, now2);
    let (v4, a4) = manager_step(v2, ManagerMessage::Git { git_state: sample }, now2);
    lemma_snooze_silences(v, now);
    assert(a4 =~= seq![render(sample, v2.app_state), Action::Bell(BellMessage::Start)]);
}

/// A snooze timer that a later `Snooze` replaced ends nothing when it expires.
pub proof fn lemma_replaced_timer_ignored(v: ManagerView, now1: i64, now2: i64)
    requires
        !v.stopped,
    ensures
        ({
            let (v1, a1) = manager_step(v, ManagerMessage::Snooze, now1);
            let (v2, a2) = manager_step(v1, ManagerMessage::Snooze, now2);
            &&& v1.snooze_timer != v2.snooze_timer
            &&& expiry_step(v2, v1.snooze_timer) == v2
            &&& v2.app_state.snoozed
        }),
{
}

/// The coordinator fed `samples`, one after the other: its state and all the
/// actions it asked for.
pub open spec fn run_samples(v: ManagerView, samples: Seq<GitState>) -> (ManagerView, Seq<Action>)
    decreases samples.len(),
{
    if samples.len() == 0 {
        (v, Seq::empty())
    } else {
        let (w, a) = run_samples(v, samples.drop_last());
        let (x, b) = manager_step(w, ManagerMessage::Git { git_state: samples.last() }, 0);
        (x, a + b)
    }
}

/// The commands handed to the supervisor among `acts`, in order.
pub open spec fn bell_commands(acts: Seq<Action>) -> Seq<BellMessage>
    decreases acts.len(),
{
    if acts.len() == 0 {
        Seq::empty()
    } else {
        let before = bell_commands(acts.drop_last());
        match acts.last() {
            Action::Bell(m) => before.push(m),
            _ => before,
        }
    }
}

pub proof fn lemma_bell_commands_append(a: Seq<Action>, b: Seq<Action>)
    ensures
        bell_commands(a + b) == bell_commands(a) + bell_commands(b),
    decreases b.len(),
{
    if b.len() == 0 {
        assert(a + b =~= a);
        assert(bell_commands(a) + bell_commands(b) =~= bell_commands(a));
    } else {
        assert((a + b).drop_last() =~= a + b.drop_last());
        lemma_bell_commands_append(a, b.drop_last());
        if let Action::Bell(m) = b.last() {
            assert(bell_commands(a) + bell_commands(b.drop_last()).push(m)
                =~= (bell_commands(a) + bell_commands(b.drop_last())).push(m));
        }
    }
}

pub open spec fn crossing_bells(j: int, up: int, down: int) -> Seq<BellMessage> {
    if j <= up {
        Seq::empty()
    } else if j <= down {
        seq![BellMessage::Start]
    } else {
        seq![BellMessage::Start, BellMessage::Stop]
    }
}

proof fn lemma_crossing_prefix(v: ManagerView, samples: Seq<GitState>, up: int, down: int, j: int)
    requires
        !v.stopped,
        !v.app_state.ringing,
        !v.app_state.snoozed,
        v.last.is_none(),
        0 <= up < down <= samples.len(),
        0 <= j <= samples.len(),
        forall|i: int| 0 <= i < samples.len() ==> #[trigger] samples[i].threshold == samples[0].threshold,
        forall|i: int| 0 <= i < samples.len() ==> (#[trigger] samples[i].above_threshold() <==> up <= i < down),
    ensures
        ({
            let (w, a) = run_samples(v, samples.take(j));
            &&& !w.stopped
            &&& !w.app_state.snoozed
            &&& j == 0 ==> w.last.is_none() && !w.app_state.ringing
            &&& j > 0 ==> {
                &&& w.last.is_some()
                &&& same_sample(w.last->0, samples[j - 1])
                &&& w.last->0.threshold == samples[0].threshold
                &&& w.app_state.ringing == (up <= j - 1 < down)
            }
            &&& bell_commands(a) == crossing_bells(j, up, down)
        }),
    decreases j,
{
    if j == 0 {
        assert(samples.take(0) =~= Seq::<GitState>::empty());
    } else {
        lemma_crossing_prefix(v, samples, up, down, j - 1);
        assert(samples.take(j).drop_last() =~= samples.take(j - 1));
        assert(samples.take(j).last() == samples[j - 1]);
        let (w, a) = run_samples(v, samples.take(j - 1));
        let g = samples[j - 1];
        let (x, b) = manager_step(w, ManagerMessage::Git { git_state: g }, 0);
        lemma_bell_commands_append(a, b);
        reveal_with_fuel(bell_commands, 3);
        if spec_materially_different(w.last, g) {
            let (st, m) = alert_decision(w.app_state, g);
            assert(b == seq![render(g, w.app_state)] + bell_action(m));
            match m {
                Some(bm) => {
                    assert(b =~= seq![render(g, w.app_state), Action::Bell(bm)]);
                    assert(b.drop_last() =~= seq![render(g, w.app_state)]);
                    assert(b.drop_last().drop_last() =~= Seq::<Action>::empty());
                    assert(bell_commands(b) =~= seq![bm]);
                },
                None => {
                    assert(b =~= seq![render(g, w.app_state)]);
                    assert(b.drop_last() =~= Seq::<Action>::empty());
                    assert(bell_commands(b) =~= Seq::<BellMessage>::empty());
                },
            }
            assert(crossing_bells(j - 1, up, down) + bell_commands(b) =~= crossing_bells(j, up, down));
        } else {
            assert(b =~= Seq::<Action>::empty());
            assert(bell_commands(a) + bell_commands(b) =~= bell_commands(a));
        }
    }
}

/// Fed samples that rise above the threshold once and fall below it once,
/// starting silent and not snoozed, the coordinator hands the supervisor
/// exactly one `Start` and then exactly one `Stop`.
pub proof fn lemma_single_crossing(v: ManagerView, samples: Seq<GitState>, up: int, down: int)
    requires
        !v.stopped,
        !v.app_state.ringing,
        !v.app_state.snoozed,
        v.last.is_none(),
        0 <= up < down < samples.len(),
        forall|i: int| 0 <= i < samples.len() ==> #[trigger] samples[i].threshold == samples[0].threshold,
        forall|i: int| 0 <= i < samples.len() ==> (#[trigger] samples[i].above_threshold() <==> up <= i < down),
    ensures
        bell_commands(run_samples(v, samples).1) == seq![BellMessage::Start, BellMessage::Stop],
{
    lemma_crossing_prefix(v, samples, up, down, samples.len() as int);
    assert(samples.take(samples.len() as int) =~= samples);
}

pub open spec fn bell_seq(m: Option<BellMessage>) -> Seq<BellMessage> {
    match m {
        Some(b) => seq![b],
        None => Seq::empty(),
    }
}

/// The alert decision applied to `samples`, one after the other: the state
/// it ends in and the commands it handed the supervisor, in order.
pub open spec fn run_decisions(s: AppState, samples: Seq<GitState>) -> (AppState, Seq<BellMessage>)
    decreases samples.len(),
{
    if samples.len() == 0 {
        (s, Seq::empty())
    } else {
        let (t, bells) = run_decisions(s, samples.drop_last());
        let (u, m) = alert_decision(t, samples.last());
        (u, bells + bell_seq(m))
    }
}

proof fn lemma_decisions_prefix(samples: Seq<GitState>, up: int, down: int, j: int)
    requires
        0 <= up < down <= samples.len(),
        0 <= j <= samples.len(),
        forall|i: int| 0 <= i < samples.len() ==> (#[trigger] samples[i].above_threshold() <==> up <= i < down),
    ensures
        ({
            let (t, bells) = run_decisions(idle_state(), samples.take(j));
            &&& !t.snoozed
            &&& t.ringing == (j > 0 && up <= j - 1 < down)
            &&& bells == crossing_bells(j, up, down)
        }),
    decreases j,
{
    if j == 0 {
        assert(samples.take(0) =~= Seq::<GitState>::empty());
    } else {
        lemma_decisions_prefix(samples, up, down, j - 1);
        assert(samples.take(j).drop_last() =~= samples.take(j - 1));
        let (t, bells) = run_decisions(idle_state(), samples.take(j - 1));
        let (u, m) = alert_decision(t, samples[j - 1]);
        assert(crossing_bells(j - 1, up, down) + bell_seq(m) =~= crossing_bells(j, up, down));
    }
}

/// The alert decision alone, started silent and never snoozed, fed samples
/// that rise above the threshold once and later fall below it once, hands the
/// supervisor exactly one `Start` and then exactly one `Stop`.
pub proof fn lemma_decisions_single_crossing(samples: Seq<GitState>, up: int, down: int)
    requires
        0 <= up < down < samples.len(),
        forall|i: int| 0 <= i < samples.len() ==> (#[trigger] samples[i].above_threshold() <==> up <= i < down),
    ensures
        run_decisions(idle_state(), samples).1 == seq![BellMessage::Start, BellMessage::Stop],
{
    lemma_decisions_prefix(samples, up, down, samples.len() as int);
    assert(samples.take(samples.len() as int) =~= samples);
}

} // verus!

use vstd::prelude::*;

verus! {

/// A command to the alert device supervisor.
#[derive(Debug, Clone, Copy, PartialEq, Eq, Structural)]
pub enum BellMessage {
    Start,
    Stop,
}

/// What the supervisor asks its runtime to do with repeating alert actions,
/// each known by a token.
#[derive(Debug, Clone, Copy, PartialEq, Eq, Structural)]
pub enum BellAction {
    /// Start a repeating alert action under this token: ring now, then once
    /// per period until cancelled.
    Spawn(u64),
    /// Stop the repetitions of the action under this token.
    Cancel(u64),
}

/// The tokens of the actions still alive after `acts` were carried out,
/// starting from the actions in `live`.
pub open spec fn live_after(live: Set<u64>, acts: Seq<BellAction>) -> Set<u64>
    decreases acts.len(),
{
    if acts.len() == 0 {
        live
    } else {
        let before = live_after(live, acts.drop_last());
        match acts.last() {
            BellAction::Spawn(t) => before.insert(t),
            BellAction::Cancel(t) => before.remove(t),
        }
    }
}

/// Keeps at most one repeating alert action alive: `Idle` or `Active(token)`.
#[derive(Debug)]
pub struct BellSupervisor {
    token: u64,
    active: bool,
}

/// The supervisor as a state machine: the token of the live action, if any,
/// and the token that the last activation was given.
pub struct SupervisorView {
    pub active: Option<u64>,
    pub last_token: u64,
}

pub open spec fn next_token(t: u64) -> u64 {
    if t == u64::MAX {
        0
    } else {
        (t + 1) as u64
    }
}

pub open spec fn live_set(v: SupervisorView) -> Set<u64> {
    match v.active {
        Some(t) => set![t],
        None => Set::empty(),
    }
}

/// One transition: `Start` cancels the live action, if any, and spawns a new
/// one under a fresh token; `Stop` cancels the live action, if any.
pub open spec fn supervisor_step(v: SupervisorView, msg: BellMessage) -> (SupervisorView, Seq<BellAction>) {
    let cancel = match v.active {
        Some(t) => seq![BellAction::Cancel(t)],
        None => Seq::empty(),
    };
    match msg {
        BellMessage::Start => {
            let t = next_token(v.last_token);
            (SupervisorView { active: Some(t), last_token: t }, cancel.push(BellAction::Spawn(t)))
        },
        BellMessage::Stop => (SupervisorView { active: None, last_token: v.last_token }, cancel),
    }
}

impl View for BellSupervisor {
    type V = SupervisorView;

    closed spec fn view(&self) -> SupervisorView {
        SupervisorView { active: if self.active { Some(self.token) } else { None }, last_token: self.token }
    }
}

impl BellSupervisor {
    /// An idle supervisor.
    pub fn new() -> (r: BellSupervisor)
        ensures
            r@.active.is_none(),
    {
        BellSupervisor { token: 0, active: false }
    }

    /// Whether an alert action is alive.
    pub fn is_active(&self) -> (r: bool)
        ensures
            r == self@.active.is_some(),
    {
        self.active
    }

    /// Takes one command and returns the actions that carry it out, in order.
    /// At no point of carrying them out are two actions alive.
    pub fn handle(&mut self, msg: BellMessage) -> (r: Vec<BellAction>)
        ensures
            (final(self)@, r@) == supervisor_step(old(self)@, msg),
            live_after(live_set(old(self)@), r@) == live_set(final(self)@),
            forall|k: int| 0 <= k <= r@.len() ==> #[trigger] live_after(live_set(old(self)@), r@.take(k)).len() <= 1,
    {
        proof {
            lemma_live_steps(self@, msg);
        }
        let mut acts: Vec<BellAction> = Vec::new();
        if self.active {
            acts.push(BellAction::Cancel(self.token));
        }
        match msg {
            BellMessage::Start => {
                self.token = if self.token == u64::MAX {
                    0
                } else {
                    self.token + 1
                };
                self.active = true;
                acts.push(BellAction::Spawn(self.token));
            },
            BellMessage::Stop => {
                self.active = false;
            },
        }
        acts
    }
}

proof fn lemma_live_steps(v: SupervisorView, msg: BellMessage)
    ensures
        ({
            let (w, acts) = supervisor_step(v, msg);
            &&& live_after(live_set(v), acts) == live_set(w)
            &&& forall|k: int| 0 <= k <= acts.len() ==> #[trigger] live_after(live_set(v), acts.take(k)).len() <= 1
        }),
{
    reveal_with_fuel(live_after, 3);
    let (w, acts) = supervisor_step(v, msg);
    let live = live_set(v);
    assert(acts.take(0) =~= Seq::<BellAction>::empty());
    assert(acts.take(acts.len() as int) =~= acts);
    if acts.len() >= 1 {
        assert(acts.take(1) =~= seq![acts[0]]);
        assert(acts.take(1).drop_last() =~= Seq::<BellAction>::empty());
    }
    if acts.len() == 2 {
        assert(acts.drop_last() =~= seq![acts[0]]);
        assert(seq![acts[0]].drop_last() =~= Seq::<BellAction>::empty());
    }
    assert(live.len() <= 1) by {
        match v.active {
            Some(t) => assert(live =~= Set::empty().insert(t)),
            None => {},
        }
    }
    match v.active {
        Some(t) => {
            assert(live.remove(t) =~= Set::empty());
        },
        None => {},
    }
    match msg {
        BellMessage::Start => {
            let t = next_token(v.last_token);
            assert(Set::<u64>::empty().insert(t) =~= set![t]);
        },
        BellMessage::Stop => {},
    }
    assert forall|k: int| 0 <= k <= acts.len() implies #[trigger] live_after(live, acts.take(k)).len() <= 1 by {
        if k == 1 {
            assert(acts.take(1) =~= seq![acts[0]]);
        }
    }
}

/// Carrying out `a` and then `b` is carrying out `a + b`.
pub proof fn lemma_live_after_append(live: Set<u64>, a: Seq<BellAction>, b: Seq<BellAction>)
    ensures
        live_after(live, a + b) == live_after(live_after(live, a), b),
    decreases b.len(),
{
    if b.len() == 0 {
        assert(a + b =~= a);
    } else {
        assert((a + b).drop_last() =~= a + b.drop_last());
        lemma_live_after_append(live, a, b.drop_last());
    }
}

/// Two `Start` commands in a row, whatever state the supervisor was in,
/// leave exactly one repeating alert action alive, and at no point while
/// they are carried out are two alive.
pub proof fn lemma_restart_keeps_one(v: SupervisorView)
    ensures
        ({
            let (v1, a1) = supervisor_step(v, BellMessage::Start);
            let (v2, a2) = supervisor_step(v1, BellMessage::Start);
            &&& live_after(live_set(v), a1 + a2) == live_set(v2)
            &&& live_after(live_set(v), a1 + a2).len() == 1
            &&& forall|k: int| 0 <= k <= a1.len() + a2.len() ==>
                #[trigger] live_after(live_set(v), (a1 + a2).take(k)).len() <= 1
        }),
{
    let (v1, a1) = supervisor_step(v, BellMessage::Start);
    let (v2, a2) = supervisor_step(v1, BellMessage::Start);
    lemma_live_steps(v, BellMessage::Start);
    lemma_live_steps(v1, BellMessage::Start);
    lemma_live_after_append(live_set(v), a1, a2);
    let t = v2.active->0;
    assert(live_set(v2) =~= Set::empty().insert(t));
    assert forall|k: int| 0 <= k <= a1.len() + a2.len() implies
        #[trigger] live_after(live_set(v), (a1 + a2).take(k)).len() <= 1 by {
        if k <= a1.len() {
            assert((a1 + a2).take(k) =~= a1.take(k));
        } else {
            assert((a1 + a2).take(k) =~= a1 + a2.take(k - a1.len()));
            lemma_live_after_append(live_set(v), a1, a2.take(k - a1.len()));
            assert(a1.take(a1.len() as int) =~= a1);
        }
    }
}

} // verus!

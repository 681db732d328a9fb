use vstd::prelude::*;
use crate::action_progression::{
    saturate, ActionProgressionModule, ActionType, BattleAction, QueueView, TICKS_PER_UNIT,
};

verus! {

/// The six phases of a match round.
#[derive(Debug, Clone, Copy, PartialEq, Eq, Hash, Structural)]
pub enum BattleState {
    Init,
    Waiting,
    Fighting,
    Ended,
    Result,
    NextRound,
}

/// Events that can be fed to the machine from outside.
#[derive(Debug, Clone, Copy, PartialEq, Eq, Structural)]
pub enum BattleEvent {
    WaitingTimeOut,
    BattleStart,
    BattleEnd,
}

/// Why an action was refused by the queue.
#[derive(Debug, Clone, Copy, PartialEq, Eq, Structural)]
pub enum ActionFault {
    /// The scheduled execution time lies before the start of the match clock.
    NegativeExecutionTime,
}

/// Every failure the engine reports; none of them changes the engine's state.
#[derive(Debug, Clone, Copy, PartialEq, Eq, Structural)]
pub enum BattleError {
    InvalidStateTransition(BattleState, BattleState),
    InvalidEventHandling(BattleEvent, BattleState),
    InvalidAction(ActionFault),
}

/// How long, in ticks, the Waiting phase lasts before it times out.
pub const WAITING_TICKS: u64 = 60 * TICKS_PER_UNIT;

/// The fixed step, in ticks, by which the Fighting phase moves its clock on each tick.
pub const FRAME_TICKS: u64 = 1;

/// The phase that follows `p` in the cycle
/// Init, Waiting, Fighting, Ended, Result, NextRound, Init, ...
pub open spec fn next_phase(p: BattleState) -> BattleState {
    match p {
        BattleState::Init => BattleState::Waiting,
        BattleState::Waiting => BattleState::Fighting,
        BattleState::Fighting => BattleState::Ended,
        BattleState::Ended => BattleState::Result,
        BattleState::Result => BattleState::NextRound,
        BattleState::NextRound => BattleState::Init,
    }
}

/// The legal transitions are exactly the six edges of the cycle.
pub open spec fn is_legal(from: BattleState, to: BattleState) -> bool {
    to == next_phase(from)
}

/// The phase at position `n mod 6` of the cycle, counting Init as position 0.
pub open spec fn cycle_phase(n: nat) -> BattleState {
    let k = n % 6;
    if k == 0 {
        BattleState::Init
    } else if k == 1 {
        BattleState::Waiting
    } else if k == 2 {
        BattleState::Fighting
    } else if k == 3 {
        BattleState::Ended
    } else if k == 4 {
        BattleState::Result
    } else {
        BattleState::NextRound
    }
}

/// Where each phase's accumulated duration is kept.
pub open spec fn phase_slot(p: BattleState) -> int {
    match p {
        BattleState::Init => 0,
        BattleState::Waiting => 1,
        BattleState::Fighting => 2,
        BattleState::Ended => 3,
        BattleState::Result => 4,
        BattleState::NextRound => 5,
    }
}

/// The abstract state of the engine.
///
/// `now` is the engine's time in ticks, fed by the caller through `tick`;
/// `last_change` is the time the current phase was entered; `durations` maps
/// each phase that has been left at least once to the ticks spent in it.
pub struct MachineView {
    pub phase: BattleState,
    pub history: Seq<BattleState>,
    pub waiting_start: Option<nat>,
    pub durations: Map<BattleState, nat>,
    pub last_change: nat,
    pub now: nat,
    pub queue: QueueView,
}

impl MachineView {
    /// Ticks recorded for `p`, zero where it has not been left yet.
    pub open spec fn duration(self, p: BattleState) -> nat {
        if self.durations.contains_key(p) {
            self.durations[p]
        } else {
            0
        }
    }

    pub open spec fn total_duration(self) -> nat {
        self.duration(BattleState::Init) + self.duration(BattleState::Waiting) + self.duration(
            BattleState::Fighting,
        ) + self.duration(BattleState::Ended) + self.duration(BattleState::Result)
            + self.duration(BattleState::NextRound)
    }

    pub open spec fn inv(self) -> bool {
        &&& self.history.len() >= 1
        &&& self.history[0] == BattleState::Init
        &&& self.history.last() == self.phase
        &&& self.queue.inv()
        &&& self.queue.pending.len() > 0 ==> self.phase == BattleState::Fighting
        &&& self.now <= u64::MAX
        &&& self.last_change <= self.now
        &&& self.waiting_start is Some ==> self.phase == BattleState::Waiting
            && self.waiting_start.unwrap() <= self.now
        &&& self.total_duration() <= self.last_change
    }

    /// Time spent in the current phase is added to its duration.
    pub open spec fn with_duration_recorded(self) -> MachineView {
        MachineView {
            durations: self.durations.insert(
                self.phase,
                self.duration(self.phase) + (self.now - self.last_change) as nat,
            ),
            last_change: self.now,
            ..self
        }
    }

    /// The exit hook of `p`: leaving Waiting stops its timer, leaving Fighting
    /// drops the actions still pending.
    pub open spec fn exited(self, p: BattleState) -> MachineView {
        match p {
            BattleState::Waiting => MachineView { waiting_start: None, ..self },
            BattleState::Fighting => MachineView { queue: self.queue.emptied(), ..self },
            _ => self,
        }
    }

    /// The enter hook of `p`: entering Waiting starts its timer, entering
    /// Fighting clears it.
    pub open spec fn entered(self, p: BattleState) -> MachineView {
        match p {
            BattleState::Waiting => MachineView { waiting_start: Some(self.now), ..self },
            BattleState::Fighting => MachineView { waiting_start: None, ..self },
            _ => self,
        }
    }

    /// A successful transition to `to`: the time in the phase being left is
    /// recorded, its exit hook runs, `to` is appended to the history and becomes
    /// current, and its enter hook runs.
    pub open spec fn transitioned(self, to: BattleState) -> MachineView {
        let left = self.with_duration_recorded().exited(self.phase);
        MachineView { phase: to, history: left.history.push(to), ..left }.entered(to)
    }

    /// The Waiting handler: start the timer if it is not running, and time out
    /// into Fighting once the waiting period has passed.
    pub open spec fn waiting_step(self) -> MachineView {
        let w = if self.waiting_start is None {
            MachineView { waiting_start: Some(self.now), ..self }
        } else {
            self
        };
        if w.now - w.waiting_start.unwrap() >= WAITING_TICKS {
            w.transitioned(BattleState::Fighting)
        } else {
            w
        }
    }

    /// The Fighting handler: advance the queue by one frame, and end the fight
    /// once nothing is pending.
    pub open spec fn fighting_step(self) -> MachineView {
        let w = MachineView { queue: self.queue.advanced(FRAME_TICKS as nat), ..self };
        if w.queue.pending.len() == 0 {
            w.transitioned(BattleState::Ended)
        } else {
            w
        }
    }

    /// One tick of `delta` ticks: time moves on, then the current phase's handler
    /// runs. Returns the new state and the actions completed during the tick.
    pub open spec fn after_tick(self, delta: nat) -> (MachineView, Seq<BattleAction>) {
        let v = MachineView { now: saturate(self.now + delta), ..self };
        match self.phase {
            BattleState::Init => (v.transitioned(BattleState::Waiting), Seq::empty()),
            BattleState::Waiting => (v.waiting_step(), Seq::empty()),
            BattleState::Fighting => (
                v.fighting_step(),
                v.queue.released(FRAME_TICKS as nat),
            ),
            BattleState::Ended => (v.transitioned(BattleState::Result), Seq::empty()),
            BattleState::Result => (v.transitioned(BattleState::NextRound), Seq::empty()),
            BattleState::NextRound => (v.transitioned(BattleState::Init), Seq::empty()),
        }
    }

    /// The state after a reset: back in Init with a fresh history, no timer,
    /// no recorded durations, and an empty queue whose clock is back at zero.
    pub open spec fn after_reset(self) -> MachineView {
        MachineView {
            phase: BattleState::Init,
            history: seq![BattleState::Init],
            waiting_start: None,
            durations: Map::empty(),
            last_change: self.now,
            now: self.now,
            queue: self.queue.cleared(),
        }
    }
}

/// The engine: the phase machine and the action queue it drives while fighting.
///
/// Time is fed from outside: each `tick` says how many ticks have passed. The
/// match clock of the queue moves only while fighting, by one frame per tick.
pub struct BattleStateMachine {
    current_state: BattleState,
    history: Vec<BattleState>,
    waiting_start_time: Option<u64>,
    state_durations: Vec<Option<u64>>,
    last_state_change: u64,
    now: u64,
    action_progression: ActionProgressionModule,
}

impl View for BattleStateMachine {
    type V = MachineView;

    closed spec fn view(&self) -> MachineView {
        MachineView {
            phase: self.current_state,
            history: self.history@,
            waiting_start: match self.waiting_start_time {
                Some(t) => Some(t as nat),
                None => None,
            },
            durations: Map::new(
                |p: BattleState| self.state_durations@[phase_slot(p)] is Some,
                |p: BattleState| self.state_durations@[phase_slot(p)].unwrap() as nat,
            ),
            last_change: self.last_state_change as nat,
            now: self.now as nat,
            queue: self.action_progression@,
        }
    }
}

fn slot_of(p: BattleState) -> (r: usize)
    ensures
        r == phase_slot(p),
{
    match p {
        BattleState::Init => 0,
        BattleState::Waiting => 1,
        BattleState::Fighting => 2,
        BattleState::Ended => 3,
        BattleState::Result => 4,
        BattleState::NextRound => 5,
    }
}

impl BattleStateMachine {
    pub closed spec fn wf(&self) -> bool {
        &&& self@.inv()
        &&& self.state_durations@.len() == 6
    }

    /// A fresh engine: in Init, with history [Init], no timer, no durations,
    /// time at zero and an empty queue.
    pub fn new() -> (r: Self)
        ensures
            r.wf(),
            r@.phase == BattleState::Init,
            r@.history == seq![BattleState::Init],
            r@.waiting_start is None,
            r@.durations == Map::<BattleState, nat>::empty(),
            r@.last_change == 0,
            r@.now == 0,
            r@.queue == ActionProgressionModule::new_view(),
    {
        let r = BattleStateMachine {
            current_state: BattleState::Init,
            history: vec![BattleState::Init],
            waiting_start_time: None,
            state_durations: vec![None, None, None, None, None, None],
            last_state_change: 0,
            now: 0,
            action_progression: ActionProgressionModule::new(),
        };
        assert(r@.history =~= seq![BattleState::Init]);
        assert(r@.durations =~= Map::<BattleState, nat>::empty());
        r
    }
    /// The current phase.
    pub fn get_state(&self) -> (r: &BattleState)
        ensures
            *r == self@.phase,
    {
        &self.current_state
    }

    /// Every phase visited since construction or the last reset, oldest first.
    pub fn get_history(&self) -> (r: &Vec<BattleState>)
        ensures
            r@ == self@.history,
    {
        &self.history
    }

    /// Ticks spent in `state` over all the times it was left; `None` if it has
    /// not been left since construction or the last reset.
    pub fn get_state_duration(&self, state: BattleState) -> (r: Option<u64>)
        requires
            self.wf(),
        ensures
            r is Some <==> self@.durations.contains_key(state),
            r is Some ==> r.unwrap() == self@.durations[state],
    {
        self.state_durations[slot_of(state)]
    }

    /// When the waiting timer was started, if it is running.
    pub fn waiting_start_time(&self) -> (r: Option<u64>)
        ensures
            r is Some <==> self@.waiting_start is Some,
            r is Some ==> r.unwrap() == self@.waiting_start.unwrap(),
    {
        self.waiting_start_time
    }

    /// The engine's time, in ticks.
    pub fn now(&self) -> (r: u64)
        ensures
            r == self@.now,
    {
        self.now
    }

    /// The pending actions, in the order they will be released.
    pub fn get_remaining_actions(&self) -> (r: &Vec<BattleAction>)
        ensures
            r@ == self@.queue.pending,
    {
        self.action_progression.get_remaining_actions()
    }

    /// The action queue, for reading its clock and scale.
    pub fn action_progression(&self) -> (r: &ActionProgressionModule)
        ensures
            r@ == self@.queue,
    {
        &self.action_progression
    }

    fn on_enter_state(&mut self, state: BattleState)
        ensures
            final(self)@ == old(self)@.entered(state),
            final(self).state_durations == old(self).state_durations,
    {
        match state {
            BattleState::Waiting => {
                self.waiting_start_time = Some(self.now);
            },
            BattleState::Fighting => {
                self.waiting_start_time = None;
            },
            _ => {},
        }
    }

    fn on_exit_state(&mut self, state: BattleState)
        requires
            old(self).action_progression.wf(),
        ensures
            final(self)@ == old(self)@.exited(state),
            final(self).state_durations == old(self).state_durations,
            final(self).action_progression.wf(),
    {
        match state {
            BattleState::Waiting => {
                self.waiting_start_time = None;
            },
            BattleState::Fighting => {
                self.action_progression.discard_pending();
            },
            _ => {},
        }
    }

    fn update_state_duration(&mut self)
        requires
            old(self).wf(),
        ensures
            final(self)@ == old(self)@.with_duration_recorded(),
            final(self).state_durations@.len() == 6,
            final(self)@.total_duration() <= final(self)@.last_change,
    {
        let ghost v = self@;
        let i = slot_of(self.current_state);
        let elapsed = self.now - self.last_state_change;
        let prev = match self.state_durations[i] {
            Some(d) => d,
            None => 0,
        };
        assert(prev == v.duration(v.phase));
        self.state_durations[i] = Some(prev + elapsed);
        self.last_state_change = self.now;
        proof {
            let n = self@;
            let w = v.with_duration_recorded();
            assert(n.durations =~= w.durations) by {
                assert forall|p: BattleState| #[trigger] n.durations.contains_key(p) == w.durations.contains_key(p) by {
                    if p != v.phase {
                        assert(phase_slot(p) != phase_slot(v.phase));
                    }
                }
                assert forall|p: BattleState| #[trigger] n.durations.contains_key(p) implies n.durations[p] == w.durations[p] by {
                    if p != v.phase {
                        assert(phase_slot(p) != phase_slot(v.phase));
                    }
                }
            }
            assert(n == w);
        }
    }

    /// Moves to `new_state` if (current, `new_state`) is an edge of the cycle,
    /// running the exit and enter hooks and recording the time spent in the
    /// phase being left; otherwise fails and changes nothing.
    pub fn transition_to(&mut self, new_state: BattleState) -> (r: Result<(), BattleError>)
        requires
            old(self).wf(),
        ensures
            final(self).wf(),
            is_legal(old(self)@.phase, new_state) ==> r is Ok && final(self)@ == old(self)@.transitioned(
                new_state,
            ),
            !is_legal(old(self)@.phase, new_state) ==> r == Err::<(), BattleError>(
                BattleError::InvalidStateTransition(old(self)@.phase, new_state),
            ) && final(self)@ == old(self)@,
    {
        match (self.current_state, new_state) {
            (BattleState::Init, BattleState::Waiting)
            | (BattleState::Waiting, BattleState::Fighting)
            | (BattleState::Fighting, BattleState::Ended)
            | (BattleState::Ended, BattleState::Result)
            | (BattleState::Result, BattleState::NextRound)
            | (BattleState::NextRound, BattleState::Init) => {
                self.update_state_duration();
                let from = self.current_state;
                self.on_exit_state(from);
                self.history.push(new_state);
                self.current_state = new_state;
                self.on_enter_state(new_state);
                Ok(())
            },
            _ => Err(BattleError::InvalidStateTransition(self.current_state, new_state)),
        }
    }
    /// Feeds an event to the machine. Only a waiting timeout while in Waiting
    /// means anything: it moves the machine to Fighting. Any other pair of
    /// event and phase fails and changes nothing.
    pub fn handle_event(&mut self, event: BattleEvent) -> (r: Result<(), BattleError>)
        requires
            old(self).wf(),
        ensures
            final(self).wf(),
            old(self)@.phase == BattleState::Waiting && event == BattleEvent::WaitingTimeOut ==> r is Ok
                && final(self)@ == old(self)@.transitioned(BattleState::Fighting),
            !(old(self)@.phase == BattleState::Waiting && event == BattleEvent::WaitingTimeOut) ==> r
                == Err::<(), BattleError>(BattleError::InvalidEventHandling(event, old(self)@.phase))
                && final(self)@ == old(self)@,
    {
        match (self.current_state, event) {
            (BattleState::Waiting, BattleEvent::WaitingTimeOut) => {
                self.transition_to(BattleState::Fighting)
            },
            _ => Err(BattleError::InvalidEventHandling(event, self.current_state)),
        }
    }

    fn check_waiting_timeout(&mut self)
        requires
            old(self).wf(),
            old(self)@.phase == BattleState::Waiting,
            old(self)@.waiting_start is Some,
        ensures
            final(self).wf(),
            final(self)@ == (if old(self)@.now - old(self)@.waiting_start.unwrap() >= WAITING_TICKS {
                old(self)@.transitioned(BattleState::Fighting)
            } else {
                old(self)@
            }),
    {
        if let (BattleState::Waiting, Some(start_time)) = (self.current_state, self.waiting_start_time) {
            if self.now - start_time >= WAITING_TICKS {
                let _ = self.handle_event(BattleEvent::WaitingTimeOut);
            }
        }
    }

    fn handle_init(&mut self)
        requires
            old(self).wf(),
            old(self)@.phase == BattleState::Init,
        ensures
            final(self).wf(),
            final(self)@ == old(self)@.transitioned(BattleState::Waiting),
    {
        let _ = self.transition_to(BattleState::Waiting);
    }

    fn handle_waiting(&mut self)
        requires
            old(self).wf(),
            old(self)@.phase == BattleState::Waiting,
        ensures
            final(self).wf(),
            final(self)@ == old(self)@.waiting_step(),
    {
        if self.waiting_start_time.is_none() {
            self.waiting_start_time = Some(self.now);
        }
        self.check_waiting_timeout();
    }

    /// Runs the Fighting handler: the queue's clock moves on by one frame, the
    /// actions that fall due are returned, and once nothing is pending the
    /// machine moves to Ended. Outside Fighting it does nothing.
    pub fn handle_fighting(&mut self) -> (completed: Vec<BattleAction>)
        requires
            old(self).wf(),
        ensures
            final(self).wf(),
            old(self)@.phase == BattleState::Fighting ==> final(self)@ == old(self)@.fighting_step()
                && completed@ == old(self)@.queue.released(FRAME_TICKS as nat),
            old(self)@.phase != BattleState::Fighting ==> final(self)@ == old(self)@
                && completed@.len() == 0,
    {
        if self.current_state != BattleState::Fighting {
            return Vec::new();
        }
        let completed = self.action_progression.update(FRAME_TICKS);
        if self.action_progression.get_remaining_actions().is_empty() {
            let _ = self.transition_to(BattleState::Ended);
        }
        completed
    }

    fn handle_ended(&mut self)
        requires
            old(self).wf(),
            old(self)@.phase == BattleState::Ended,
        ensures
            final(self).wf(),
            final(self)@ == old(self)@.transitioned(BattleState::Result),
    {
        let _ = self.transition_to(BattleState::Result);
    }

    fn handle_result(&mut self)
        requires
            old(self).wf(),
            old(self)@.phase == BattleState::Result,
        ensures
            final(self).wf(),
            final(self)@ == old(self)@.transitioned(BattleState::NextRound),
    {
        let _ = self.transition_to(BattleState::NextRound);
    }

    fn handle_next_round(&mut self)
        requires
            old(self).wf(),
            old(self)@.phase == BattleState::NextRound,
        ensures
            final(self).wf(),
            final(self)@ == old(self)@.transitioned(BattleState::Init),
    {
        let _ = self.transition_to(BattleState::Init);
    }

    /// One step of the engine: `delta_time` ticks pass, then the current
    /// phase's handler runs. Returns the actions completed during the step.
    pub fn tick(&mut self, delta_time: u64) -> (completed: Vec<BattleAction>)
        requires
            old(self).wf(),
        ensures
            final(self).wf(),
            (final(self)@, completed@) == old(self)@.after_tick(delta_time as nat),
    {
        self.now = self.now.saturating_add(delta_time);
        match self.current_state {
            BattleState::Init => {
                self.handle_init();
                Vec::new()
            },
            BattleState::Waiting => {
                self.handle_waiting();
                Vec::new()
            },
            BattleState::Fighting => self.handle_fighting(),
            BattleState::Ended => {
                self.handle_ended();
                Vec::new()
            },
            BattleState::Result => {
                self.handle_result();
                Vec::new()
            },
            BattleState::NextRound => {
                self.handle_next_round();
                Vec::new()
            },
        }
    }

    /// One step of one frame.
    pub fn update(&mut self)
        requires
            old(self).wf(),
        ensures
            final(self).wf(),
            final(self)@ == old(self)@.after_tick(FRAME_TICKS as nat).0,
    {
        let _ = self.tick(FRAME_TICKS);
    }

    /// Forces the machine back to Init, running the exit hook of the current
    /// phase: the history becomes [Init], the timer stops, the recorded
    /// durations are all dropped, and the queue is emptied with its clock at
    /// zero. Always succeeds.
    pub fn reset(&mut self) -> (r: Result<(), BattleError>)
        requires
            old(self).wf(),
        ensures
            final(self).wf(),
            r is Ok,
            final(self)@ == old(self)@.after_reset(),
    {
        let ghost v = self@;
        let from = self.current_state;
        self.on_exit_state(from);
        self.current_state = BattleState::Init;
        self.history.clear();
        self.history.push(BattleState::Init);
        self.waiting_start_time = None;
        self.state_durations = vec![None, None, None, None, None, None];
        self.last_state_change = self.now;
        self.action_progression.clear();
        self.on_enter_state(BattleState::Init);
        proof {
            let n = self@;
            assert(n.history =~= seq![BattleState::Init]);
            assert(n.durations =~= Map::<BattleState, nat>::empty());
            assert(n == v.after_reset());
        }
        Ok(())
    }

    /// Hands an action to the queue; only accepted while fighting.
    pub fn add_action(&mut self, action: BattleAction) -> (r: Result<(), BattleError>)
        requires
            old(self).wf(),
        ensures
            final(self).wf(),
            old(self)@.phase != BattleState::Fighting ==> r == Err::<(), BattleError>(
                BattleError::InvalidStateTransition(old(self)@.phase, BattleState::Fighting),
            ) && final(self)@ == old(self)@,
            old(self)@.phase == BattleState::Fighting && action.execution_time < 0 ==> r == Err::<
                (),
                BattleError,
            >(BattleError::InvalidAction(ActionFault::NegativeExecutionTime)) && final(self)@ == old(
                self,
            )@,
            old(self)@.phase == BattleState::Fighting && action.execution_time >= 0 ==> r is Ok
                && final(self)@ == (MachineView { queue: old(self)@.queue.enqueued(action), ..old(self)@ }),
    {
        if self.current_state != BattleState::Fighting {
            return Err(BattleError::InvalidStateTransition(self.current_state, BattleState::Fighting));
        }
        self.action_progression.add_action(action)
    }

    /// Submits an action for `unit_id`, aimed at `target_id` if any, to fire at
    /// tick `scheduled_time` of the match clock.
    pub fn submit_action(
        &mut self,
        unit_id: String,
        target_id: Option<String>,
        kind: ActionType,
        scheduled_time: i64,
    ) -> (r: Result<(), BattleError>)
        requires
            old(self).wf(),
        ensures
            final(self).wf(),
            ({
                let a = BattleAction {
                    action_type: kind,
                    unit_id,
                    target_id,
                    execution_time: scheduled_time,
                };
                &&& old(self)@.phase != BattleState::Fighting ==> r == Err::<(), BattleError>(
                    BattleError::InvalidStateTransition(old(self)@.phase, BattleState::Fighting),
                ) && final(self)@ == old(self)@
                &&& old(self)@.phase == BattleState::Fighting && scheduled_time < 0 ==> r == Err::<
                    (),
                    BattleError,
                >(BattleError::InvalidAction(ActionFault::NegativeExecutionTime)) && final(self)@
                    == old(self)@
                &&& old(self)@.phase == BattleState::Fighting && scheduled_time >= 0 ==> r is Ok
                    && final(self)@ == (MachineView { queue: old(self)@.queue.enqueued(a), ..old(self)@ })
            }),
    {
        self.add_action(
            BattleAction { action_type: kind, unit_id, target_id, execution_time: scheduled_time },
        )
    }
}

/// A machine that satisfies its well-formedness predicate has a view that
/// satisfies the invariant the laws below start from.
pub proof fn lemma_view_inv(m: &BattleStateMachine)
    requires
        m.wf(),
    ensures
        m@.inv(),
{
}

proof fn lemma_cycle_step(n: nat)
    ensures
        cycle_phase(n + 1) == next_phase(cycle_phase(n)),
{
    assert((n + 1) % 6 == if n % 6 == 5 {
        0
    } else {
        n % 6 + 1
    });
}

proof fn lemma_cycle_prefix(views: Seq<MachineView>, targets: Seq<BattleState>, k: int)
    requires
        views.len() == targets.len() + 1,
        views[0].phase == BattleState::Init,
        forall|i: int|
            0 <= i < targets.len() ==> is_legal(views[i].phase, #[trigger] targets[i]) && views[i
                + 1] == views[i].transitioned(targets[i]),
        0 <= k < views.len(),
    ensures
        views[k].phase == cycle_phase(k as nat),
        views[k].history.len() == views[0].history.len() + k,
    decreases k,
{
    if k > 0 {
        lemma_cycle_prefix(views, targets, k - 1);
        lemma_cycle_step((k - 1) as nat);
        assert(is_legal(views[k - 1].phase, targets[k - 1]));
    }
}

/// Every successful transition goes to the next phase of the cycle. So, of a
/// run of successful transitions that starts in Init, the state after the n-th
/// one is in the (n mod 6)-th phase of the cycle Init, Waiting, Fighting,
/// Ended, Result, NextRound, and its history has grown by n entries.
pub proof fn lemma_cycle_position(views: Seq<MachineView>, targets: Seq<BattleState>)
    requires
        views.len() == targets.len() + 1,
        views[0].phase == BattleState::Init,
        forall|i: int|
            0 <= i < targets.len() ==> is_legal(views[i].phase, #[trigger] targets[i]) && views[i
                + 1] == views[i].transitioned(targets[i]),
    ensures
        forall|n: int|
            0 <= n < views.len() ==> (#[trigger] views[n]).phase == cycle_phase(n as nat)
                && views[n].history.len() == views[0].history.len() + n,
{
    assert forall|n: int| 0 <= n < views.len() implies (#[trigger] views[n]).phase == cycle_phase(
        n as nat,
    ) && views[n].history.len() == views[0].history.len() + n by {
        lemma_cycle_prefix(views, targets, n);
    }
}

/// A tick taken in Fighting never enters Fighting again: it stays in Fighting
/// with the history unchanged, or moves to Ended and appends Ended.
pub proof fn lemma_fighting_tick(m: MachineView, delta: nat)
    requires
        m.phase == BattleState::Fighting,
    ensures
        ({
            let n = m.after_tick(delta).0;
            ||| n.phase == BattleState::Fighting && n.history == m.history
            ||| n.phase == BattleState::Ended && n.history == m.history.push(BattleState::Ended)
        }),
{
}

/// The waiting timeout fires once: from Waiting, a tick after which the
/// waiting period has passed since the timer started moves the machine to
/// Fighting and appends Fighting to the history once; the tick after that does
/// not append Fighting again.
pub proof fn lemma_waiting_timeout(m: MachineView, delta: nat, later: nat)
    requires
        m.phase == BattleState::Waiting,
        m.waiting_start is Some,
        saturate(m.now + delta) - m.waiting_start.unwrap() >= WAITING_TICKS,
    ensures
        m.after_tick(delta).0.phase == BattleState::Fighting,
        m.after_tick(delta).0.history == m.history.push(BattleState::Fighting),
        ({
            let f = m.after_tick(delta).0;
            let g = f.after_tick(later).0;
            g.history == f.history || g.history == f.history.push(BattleState::Ended)
        }),
{
    lemma_fighting_tick(m.after_tick(delta).0, later);
}

/// The match clock moves only while fighting and goes back only on reset: a
/// transition keeps it, a tick outside Fighting keeps it, and a tick in
/// Fighting never lowers it.
pub proof fn lemma_match_clock(m: MachineView, delta: nat, to: BattleState)
    requires
        m.inv(),
    ensures
        m.transitioned(to).queue.clock == m.queue.clock,
        m.phase != BattleState::Fighting ==> m.after_tick(delta).0.queue.clock == m.queue.clock,
        m.after_tick(delta).0.queue.clock >= m.queue.clock,
{
}

} // verus!

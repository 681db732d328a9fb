use vstd::prelude::*;
use crate::state_machine::{ActionFault, BattleError};

verus! {

/// Match time is counted in ticks; one unit of time (one second of play) has this many.
pub const TICKS_PER_UNIT: u64 = 60;

/// Time scales are given in hundredths: this scale lets time run at its normal pace.
pub const SCALE_ONE: u64 = 100;

/// The kinds of action a unit can take.
#[derive(Debug, Clone, Copy, PartialEq, Eq, Structural)]
pub enum ActionType {
    Move,
    Attack,
    Skill,
    Item,
}

/// A scheduled unit activity; `execution_time` is in ticks of the match clock.
#[derive(Debug, Clone)]
pub struct BattleAction {
    pub action_type: ActionType,
    pub unit_id: String,
    pub target_id: Option<String>,
    pub execution_time: i64,
}

/// The abstract state of an action queue.
///
/// `pending` lists the waiting actions in the order they will be released;
/// `stamps[i]` is the enqueue number of `pending[i]` (actions are numbered
/// 0, 1, 2, ... as they are accepted). `clock` is the match clock in
/// hundredths of a tick and `scale` the time scale in hundredths.
pub struct QueueView {
    pub pending: Seq<BattleAction>,
    pub stamps: Seq<nat>,
    pub next_stamp: nat,
    pub clock: nat,
    pub scale: nat,
}

/// `min(x, u64::MAX)`: the match clock stops at the largest value it can hold.
pub open spec fn saturate(x: nat) -> nat {
    if x > u64::MAX {
        u64::MAX as nat
    } else {
        x
    }
}

/// The number of leading actions of `s` that are scheduled no later than tick `t`.
pub open spec fn count_leading(s: Seq<BattleAction>, t: int) -> nat
    decreases s.len(),
{
    if s.len() == 0 || s[0].execution_time > t {
        0
    } else {
        1 + count_leading(s.drop_first(), t)
    }
}

/// Execution times never decrease along `s`.
pub open spec fn times_sorted(s: Seq<BattleAction>) -> bool {
    forall|i: int, j: int| 0 <= i < j < s.len() ==> s[i].execution_time <= s[j].execution_time
}

/// The clock (in hundredths of a tick) counted in whole ticks.
pub open spec fn whole_ticks(clock: nat) -> int {
    (clock / (SCALE_ONE as nat)) as int
}

/// An action is due once the clock, counted in whole ticks, has reached its time.
pub open spec fn is_due(a: BattleAction, clock: nat) -> bool {
    a.execution_time <= whole_ticks(clock)
}

impl QueueView {
    /// Pending action `i` is released before pending action `j`: it is scheduled
    /// earlier, or at the same time and was enqueued earlier.
    pub open spec fn precedes(self, i: int, j: int) -> bool {
        ||| self.pending[i].execution_time < self.pending[j].execution_time
        ||| (self.pending[i].execution_time == self.pending[j].execution_time && self.stamps[i]
            < self.stamps[j])
    }

    pub open spec fn inv(self) -> bool {
        &&& self.stamps.len() == self.pending.len()
        &&& forall|i: int|
            0 <= i < self.pending.len() ==> #[trigger] self.pending[i].execution_time >= 0
                && self.stamps[i] < self.next_stamp
        &&& forall|i: int, j: int| 0 <= i < j < self.pending.len() ==> #[trigger] self.precedes(i, j)
        &&& self.clock <= u64::MAX
        &&& self.scale <= u64::MAX
    }

    /// The queue after accepting `a`: it goes behind every pending action scheduled
    /// no later than it, and takes the next enqueue number.
    pub open spec fn enqueued(self, a: BattleAction) -> QueueView {
        let p = count_leading(self.pending, a.execution_time as int) as int;
        QueueView {
            pending: self.pending.insert(p, a),
            stamps: self.stamps.insert(p, self.next_stamp),
            next_stamp: self.next_stamp + 1,
            ..self
        }
    }

    /// The clock after `delta` ticks of real time at the current scale.
    pub open spec fn clock_after(self, delta: nat) -> nat {
        saturate(self.clock + delta * self.scale)
    }

    /// How many actions an advance by `delta` releases.
    pub open spec fn released_count(self, delta: nat) -> nat {
        count_leading(self.pending, whole_ticks(self.clock_after(delta)))
    }

    /// The actions an advance by `delta` releases, in release order.
    pub open spec fn released(self, delta: nat) -> Seq<BattleAction> {
        self.pending.take(self.released_count(delta) as int)
    }

    /// The queue after an advance by `delta`.
    pub open spec fn advanced(self, delta: nat) -> QueueView {
        let k = self.released_count(delta) as int;
        QueueView {
            pending: self.pending.skip(k),
            stamps: self.stamps.skip(k),
            clock: self.clock_after(delta),
            ..self
        }
    }

    /// The queue with no pending actions and the clock back at zero.
    pub open spec fn cleared(self) -> QueueView {
        QueueView { pending: Seq::empty(), stamps: Seq::empty(), clock: 0, ..self }
    }

    /// The queue with its pending actions dropped and the clock kept.
    pub open spec fn emptied(self) -> QueueView {
        QueueView { pending: Seq::empty(), stamps: Seq::empty(), ..self }
    }
}

/// In a queue whose times never decrease, the leading count splits it into the
/// actions due at tick `t` and those that are not.
pub proof fn lemma_count_leading(s: Seq<BattleAction>, t: int)
    requires
        times_sorted(s),
    ensures
        count_leading(s, t) <= s.len(),
        forall|i: int| 0 <= i < count_leading(s, t) ==> #[trigger] s[i].execution_time <= t,
        forall|i: int| count_leading(s, t) <= i < s.len() ==> #[trigger] s[i].execution_time > t,
    decreases s.len(),
{
    if s.len() > 0 && s[0].execution_time <= t {
        let r = s.drop_first();
        assert(times_sorted(r)) by {
            assert forall|i: int, j: int| 0 <= i < j < r.len() implies r[i].execution_time
                <= r[j].execution_time by {
                assert(r[i] == s[i + 1] && r[j] == s[j + 1]);
            }
        }
        lemma_count_leading(r, t);
        assert forall|i: int| 0 <= i < count_leading(s, t) implies #[trigger] s[i].execution_time
            <= t by {
            if i > 0 {
                assert(s[i] == r[i - 1]);
            }
        }
        assert forall|i: int| count_leading(s, t) <= i < s.len() implies #[trigger] s[
            i
        ].execution_time > t by {
            assert(s[i] == r[i - 1]);
        }
    }
}

/// The order invariant speaks of the entries alone, not of the clock or scale.
proof fn lemma_inv_same_entries(a: QueueView, b: QueueView)
    requires
        a.inv(),
        b.pending == a.pending,
        b.stamps == a.stamps,
        b.next_stamp == a.next_stamp,
        b.clock <= u64::MAX,
        b.scale <= u64::MAX,
    ensures
        b.inv(),
{
    assert forall|i: int, j: int| 0 <= i < j < b.pending.len() implies #[trigger] b.precedes(i, j) by {
        assert(a.precedes(i, j));
    }
}

/// A well-formed queue is ordered by time.
pub proof fn lemma_inv_times_sorted(q: QueueView)
    requires
        q.inv(),
    ensures
        times_sorted(q.pending),
{
    assert forall|i: int, j: int| 0 <= i < j < q.pending.len() implies q.pending[i].execution_time
        <= q.pending[j].execution_time by {
        assert(q.precedes(i, j));
    }
}

/// Enqueueing an action scheduled at a non-negative time keeps the queue well formed.
pub proof fn lemma_enqueued_inv(q: QueueView, a: BattleAction)
    requires
        q.inv(),
        a.execution_time >= 0,
    ensures
        q.enqueued(a).inv(),
{
    lemma_inv_times_sorted(q);
    lemma_count_leading(q.pending, a.execution_time as int);
    let p = count_leading(q.pending, a.execution_time as int) as int;
    let n = q.enqueued(a);
    assert forall|i: int| 0 <= i < n.pending.len() implies #[trigger] n.pending[i].execution_time
        >= 0 && n.stamps[i] < n.next_stamp by {
        if i < p {
            assert(n.pending[i] == q.pending[i]);
        } else if i > p {
            assert(n.pending[i] == q.pending[i - 1]);
        }
    }
    assert forall|i: int, j: int| 0 <= i < j < n.pending.len() implies #[trigger] n.precedes(i, j) by {
        if j < p {
            assert(q.precedes(i, j));
        } else if j == p {
            assert(n.pending[i] == q.pending[i]);
        } else if i < p {
            assert(n.pending[j] == q.pending[j - 1]);
            assert(n.pending[i] == q.pending[i]);
        } else if i == p {
            assert(n.pending[j] == q.pending[j - 1]);
        } else {
            assert(q.precedes(i - 1, j - 1));
        }
    }
}

/// The pending action that carries enqueue number `stamp` is `a`.
pub open spec fn holds_at(q: QueueView, i: int, stamp: nat, a: BattleAction) -> bool {
    0 <= i < q.pending.len() && q.stamps[i] == stamp && q.pending[i] == a
}

/// Ties go to the action enqueued first: when `a` and then `b` are enqueued,
/// `a` ends up ahead of `b` in release order exactly when it is scheduled no
/// later than `b`. (Releases always take a prefix of the pending actions.)
pub proof fn lemma_enqueue_order(q: QueueView, a: BattleAction, b: BattleAction)
    requires
        q.inv(),
        a.execution_time >= 0,
        b.execution_time >= 0,
    ensures
        ({
            let q2 = q.enqueued(a).enqueued(b);
            exists|i: int, j: int|
                #[trigger] holds_at(q2, i, q.next_stamp, a) && #[trigger] holds_at(
                    q2,
                    j,
                    q.next_stamp + 1,
                    b,
                ) && (i < j <==> a.execution_time <= b.execution_time)
        }),
{
    let q1 = q.enqueued(a);
    lemma_enqueued_inv(q, a);
    lemma_enqueued_inv(q1, b);
    let q2 = q1.enqueued(b);
    let p1 = count_leading(q.pending, a.execution_time as int) as int;
    let p2 = count_leading(q1.pending, b.execution_time as int) as int;
    lemma_inv_times_sorted(q);
    lemma_count_leading(q.pending, a.execution_time as int);
    lemma_inv_times_sorted(q1);
    lemma_count_leading(q1.pending, b.execution_time as int);
    assert(q1.stamps[p1] == q.next_stamp && q1.pending[p1] == a);
    let i = if p1 < p2 {
        p1
    } else {
        p1 + 1
    };
    let j = p2;
    assert(q2.stamps[i] == q1.stamps[p1] && q2.pending[i] == q1.pending[p1]);
    assert(holds_at(q2, i, q.next_stamp, a));
    assert(holds_at(q2, j, q.next_stamp + 1, b));
    if i < j {
        assert(q2.precedes(i, j));
    } else {
        assert(q2.precedes(j, i));
    }
}

/// Release order is the order of scheduled times, ties going to the action
/// enqueued first: of any two actions released by one advance, the earlier one
/// is scheduled earlier, or at the same time with a smaller enqueue number.
pub proof fn lemma_release_order(q: QueueView, delta: nat)
    requires
        q.inv(),
    ensures
        ({
            let r = q.released(delta);
            let s = q.stamps.take(r.len() as int);
            forall|i: int, j: int|
                0 <= i < j < r.len() ==> r[i].execution_time < r[j].execution_time || (
                r[i].execution_time == r[j].execution_time && s[i] < s[j])
        }),
{
    lemma_inv_times_sorted(q);
    lemma_count_leading(q.pending, whole_ticks(q.clock_after(delta)));
    let r = q.released(delta);
    let s = q.stamps.take(r.len() as int);
    assert forall|i: int, j: int| 0 <= i < j < r.len() implies r[i].execution_time
        < r[j].execution_time || (r[i].execution_time == r[j].execution_time && s[i] < s[j]) by {
        assert(q.precedes(i, j));
    }
}

/// A time-ordered queue of pending actions and the match clock that releases them.
pub struct ActionProgressionModule {
    action_queue: Vec<BattleAction>,
    stamps: Ghost<Seq<nat>>,
    next_stamp: Ghost<nat>,
    current_time: u64,
    time_scale: u64,
}

impl View for ActionProgressionModule {
    type V = QueueView;

    closed spec fn view(&self) -> QueueView {
        QueueView {
            pending: self.action_queue@,
            stamps: self.stamps@,
            next_stamp: self.next_stamp@,
            clock: self.current_time as nat,
            scale: self.time_scale as nat,
        }
    }
}

impl ActionProgressionModule {
    pub open spec fn wf(&self) -> bool {
        self@.inv()
    }

    /// The state of a new queue: nothing pending, the clock at zero, time
    /// running at its normal pace.
    pub open spec fn new_view() -> QueueView {
        QueueView {
            pending: Seq::empty(),
            stamps: Seq::empty(),
            next_stamp: 0,
            clock: 0,
            scale: SCALE_ONE as nat,
        }
    }

    /// An empty queue with the clock at zero and time running at its normal pace.
    pub fn new() -> (r: Self)
        ensures
            r.wf(),
            r@ == Self::new_view(),
    {
        ActionProgressionModule {
            action_queue: Vec::new(),
            stamps: Ghost(Seq::empty()),
            next_stamp: Ghost(0),
            current_time: 0,
            time_scale: SCALE_ONE,
        }
    }

    /// Position of the first pending action scheduled after tick `t`.
    fn leading_count(&self, t: i64) -> (k: usize)
        requires
            self.wf(),
        ensures
            k == count_leading(self@.pending, t as int),
            k <= self@.pending.len(),
    {
        proof {
            lemma_inv_times_sorted(self@);
            lemma_count_leading(self@.pending, t as int);
        }
        let ghost q = self@;
        let ghost c = count_leading(q.pending, t as int) as int;
        let mut k: usize = 0;
        while k < self.action_queue.len() && self.action_queue[k].execution_time <= t
            invariant
                self@ == q,
                c == count_leading(q.pending, t as int),
                k <= q.pending.len(),
                c <= q.pending.len(),
                forall|i: int| 0 <= i < k ==> #[trigger] q.pending[i].execution_time <= t,
                forall|i: int| c <= i < q.pending.len() ==> #[trigger] q.pending[i].execution_time > t,
                forall|i: int| 0 <= i < c ==> #[trigger] q.pending[i].execution_time <= t,
            decreases q.pending.len() - k,
        {
            assert(q.pending[k as int] == self.action_queue@[k as int]);
            k = k + 1;
        }
        assert(k == c) by {
            if (k as int) < c {
                assert(q.pending[k as int] == self.action_queue@[k as int]);
                assert(q.pending[k as int].execution_time <= t);
            } else if (k as int) > c {
                assert(q.pending[c].execution_time > t);
            }
        }
        k
    }

    /// Accepts an action scheduled at a non-negative time; where it lands in the
    /// queue depends on its time alone, after every action scheduled no later.
    pub fn add_action(&mut self, action: BattleAction) -> (r: Result<(), BattleError>)
        requires
            old(self).wf(),
        ensures
            final(self).wf(),
            action.execution_time < 0 ==> r == Err::<(), BattleError>(
                BattleError::InvalidAction(ActionFault::NegativeExecutionTime),
            ) && final(self)@ == old(self)@,
            action.execution_time >= 0 ==> r is Ok && final(self)@ == old(self)@.enqueued(action),
    {
        if action.execution_time < 0 {
            return Err(BattleError::InvalidAction(ActionFault::NegativeExecutionTime));
        }
        let ghost q = self@;
        let p = self.leading_count(action.execution_time);
        let ghost stamp = self.next_stamp@;
        self.action_queue.insert(p, action);
        self.stamps = Ghost(self.stamps@.insert(p as int, stamp));
        self.next_stamp = Ghost(stamp + 1);
        proof {
            lemma_enqueued_inv(q, action);
        }
        Ok(())
    }

    /// Moves the clock on by `delta_time` ticks at the current scale and
    /// releases, in order, every pending action that is then due.
    pub fn update(&mut self, delta_time: u64) -> (completed: Vec<BattleAction>)
        requires
            old(self).wf(),
        ensures
            final(self).wf(),
            final(self)@ == old(self)@.advanced(delta_time as nat),
            completed@ == old(self)@.released(delta_time as nat),
            forall|i: int|
                0 <= i < completed@.len() ==> is_due(#[trigger] completed@[i], final(self)@.clock),
            forall|i: int|
                0 <= i < final(self)@.pending.len() ==> !is_due(
                    #[trigger] final(self)@.pending[i],
                    final(self)@.clock,
                ),
    {
        let ghost q = self@;
        let clock: u64 = match delta_time.checked_mul(self.time_scale) {
            Some(step) => self.current_time.saturating_add(step),
            None => u64::MAX,
        };
        assert(clock as nat == q.clock_after(delta_time as nat));
        self.current_time = clock;
        proof {
            lemma_inv_same_entries(q, self@);
        }
        let ticks = (clock / SCALE_ONE) as i64;
        let k = self.leading_count(ticks);
        proof {
            lemma_inv_times_sorted(q);
            lemma_count_leading(q.pending, ticks as int);
        }
        let mut completed = self.action_queue.split_off(k);
        std::mem::swap(&mut self.action_queue, &mut completed);
        self.stamps = Ghost(q.stamps.skip(k as int));
        proof {
            let n = self@;
            assert(completed@ =~= q.released(delta_time as nat));
            assert(n.pending =~= q.pending.skip(k as int));
            assert(n == q.advanced(delta_time as nat));
            assert forall|i: int, j: int| 0 <= i < j < n.pending.len() implies #[trigger] n.precedes(
                i,
                j,
            ) by {
                assert(q.precedes(i + k, j + k));
            }
            assert forall|i: int| 0 <= i < n.pending.len() implies #[trigger] n.pending[i].execution_time
                >= 0 && n.stamps[i] < n.next_stamp by {
                assert(n.pending[i] == q.pending[i + k]);
            }
            assert forall|i: int| 0 <= i < n.pending.len() implies !is_due(
                #[trigger] n.pending[i],
                n.clock,
            ) by {
                assert(n.pending[i] == q.pending[i + k]);
            }
        }
        completed
    }

    /// Sets the time scale, in hundredths; a negative scale is taken as zero,
    /// which stops the clock.
    pub fn set_time_scale(&mut self, scale: i64)
        requires
            old(self).wf(),
        ensures
            final(self).wf(),
            final(self)@ == (QueueView {
                scale: if scale < 0 {
                    0
                } else {
                    scale as nat
                },
                ..old(self)@
            }),
    {
        self.time_scale = if scale < 0 {
            0
        } else {
            scale as u64
        };
        proof {
            lemma_inv_same_entries(old(self)@, self@);
        }
    }

    /// Drops every pending action and sets the clock back to zero.
    pub fn clear(&mut self)
        requires
            old(self).wf(),
        ensures
            final(self).wf(),
            final(self)@ == old(self)@.cleared(),
    {
        self.action_queue.clear();
        self.stamps = Ghost(Seq::empty());
        self.current_time = 0;
    }

    /// Drops every pending action and leaves the clock where it is.
    pub fn discard_pending(&mut self)
        requires
            old(self).wf(),
        ensures
            final(self).wf(),
            final(self)@ == old(self)@.emptied(),
    {
        self.action_queue.clear();
        self.stamps = Ghost(Seq::empty());
    }

    /// The pending actions, in the order they will be released.
    pub fn get_remaining_actions(&self) -> (r: &Vec<BattleAction>)
        ensures
            r@ == self@.pending,
    {
        &self.action_queue
    }

    /// The match clock, in hundredths of a tick.
    pub fn current_time(&self) -> (r: u64)
        ensures
            r == self@.clock,
    {
        self.current_time
    }

    /// The time scale, in hundredths.
    pub fn time_scale(&self) -> (r: u64)
        ensures
            r == self@.scale,
    {
        self.time_scale
    }
}

} // verus!

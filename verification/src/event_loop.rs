//! The host task queue behind `setTimeout`, `setInterval` and their `clear`
//! counterparts: timer ids, due times, the choice of the next ready timer,
//! rescheduling of repeating timers, and the sleeping decisions of the event
//! loop.
//!
//! Times are plain tick counts on a monotonic clock chosen by the caller; the
//! payload `P` is what the caller runs when a timer fires (for the engine, the
//! callback and its arguments).
use std::collections::{HashMap, HashSet};
use vstd::prelude::*;

verus! {

broadcast use vstd::std_specs::hash::group_hash_axioms;

/// A pending timer.
pub struct Timer<P> {
    pub payload: P,
    /// The tick at which the timer becomes ready.
    pub due_at: u64,
    /// The interval of a repeating timer.
    pub repeat: Option<u64>,
}

/// A timer that has been taken from the queue to run.
pub struct QueuedTask<P> {
    /// The id of the timer the task came from.
    pub timer_id: u32,
    pub payload: P,
    /// For a repeating timer, its id and interval.
    pub repeat: Option<(u32, u64)>,
}

/// The timers of one isolate.
pub struct TaskQueue<P> {
    next_timer_id: u32,
    timers: HashMap<u32, Timer<P>>,
    cancelled_timers: HashSet<u32>,
}

/// The id that comes `steps` places after `start` when ids run through
/// `1 ..= u32::MAX` and wrap from `u32::MAX` back to `1`.
pub open spec fn cyclic_id(start: int, steps: int) -> int {
    if start + steps <= u32::MAX {
        start + steps
    } else {
        start + steps - u32::MAX
    }
}

/// The id that follows `id` when ids wrap from `u32::MAX` back to `1`.
pub open spec fn following_id(id: u32) -> u32 {
    if id == u32::MAX {
        1
    } else {
        (id + 1) as u32
    }
}

/// The queue's view of a timer's remaining delay: the ticks until it is due,
/// or zero when it is already due.
pub open spec fn remaining_delay(due_at: u64, now: u64) -> u64 {
    if due_at > now {
        (due_at - now) as u64
    } else {
        0
    }
}

impl<P> TaskQueue<P> {
    /// The pending timers by id.
    pub closed spec fn timers_view(&self) -> Map<u32, Timer<P>> {
        self.timers@
    }

    /// The ids of repeating timers cleared while their task was running.
    pub closed spec fn cancelled_view(&self) -> Set<u32> {
        self.cancelled_timers@
    }

    /// The id the next allocation tries first.
    pub closed spec fn next_id(&self) -> u32 {
        self.next_timer_id
    }

    /// The queue's invariant: ids start at 1.
    pub closed spec fn wf(&self) -> bool {
        self.next_timer_id >= 1
    }

    /// Whether some pending timer is due at `now`.
    pub open spec fn has_due_timer(&self, now: u64) -> bool {
        exists|id: u32| #[trigger]
            self.timers_view().contains_key(id) && self.timers_view()[id].due_at <= now
    }

    /// An empty queue whose first timer id is 1.
    pub fn new() -> (q: Self)
        ensures
            q.wf(),
            q.timers_view() == Map::<u32, Timer<P>>::empty(),
            q.cancelled_view() == Set::<u32>::empty(),
            q.next_id() == 1,
    {
        TaskQueue { next_timer_id: 1, timers: HashMap::new(), cancelled_timers: HashSet::new() }
    }

    /// Picks an id for a new timer: the first id, starting at the next id and
    /// wrapping from `u32::MAX` to 1, that no pending timer uses.  When every id
    /// is in use, it returns the id it started from and resets the next id to 1.
    pub fn allocate_timer_id(&mut self) -> (id: u32)
        requires
            old(self).wf(),
        ensures
            final(self).wf(),
            final(self).timers_view() == old(self).timers_view(),
            final(self).cancelled_view() == old(self).cancelled_view(),
            id >= 1,
            !old(self).timers_view().contains_key(id) || forall|k: u32|
                1 <= k ==> #[trigger] old(self).timers_view().contains_key(k),
            !old(self).timers_view().contains_key(id) ==> final(self).next_id() == following_id(id),
    {
        let start = self.next_timer_id;
        let ghost mut steps: int = 0;
        loop
            invariant
                self.timers@ == old(self).timers@,
                self.cancelled_timers@ == old(self).cancelled_timers@,
                old(self).wf(),
                start == old(self).next_timer_id,
                start >= 1,
                0 <= steps < u32::MAX,
                self.next_timer_id as int == cyclic_id(start as int, steps),
                forall|j: int|
                    0 <= j < steps ==> #[trigger] self.timers@.contains_key(
                        cyclic_id(start as int, j) as u32,
                    ),
            decreases u32::MAX - steps,
        {
            let id = self.next_timer_id;
            self.next_timer_id = if self.next_timer_id == u32::MAX {
                1
            } else {
                self.next_timer_id + 1
            };
            if !self.timers.contains_key(&id) {
                return id;
            }
            if self.next_timer_id == start {
                self.next_timer_id = 1;
                proof {
                    assert(steps + 1 == u32::MAX);
                    assert forall|k: u32| 1 <= k implies #[trigger] old(
                        self,
                    ).timers_view().contains_key(k) by {
                        let j: int = if k >= start {
                            k - start
                        } else {
                            k + u32::MAX - start
                        };
                        assert(cyclic_id(start as int, j) == k);
                        assert(cyclic_id(start as int, j) as u32 == k);
                        if j < steps {
                            assert(self.timers@.contains_key(cyclic_id(start as int, j) as u32));
                        } else {
                            assert(j == steps);
                            assert(self.timers@.contains_key(id));
                        }
                        assert(self.timers@.contains_key(k));
                    }
                }
                return id;
            }
            proof {
                steps = steps + 1;
            }
        }
    }

    /// Schedules a timer that becomes due `delay` ticks after `now`, optionally
    /// repeating every `repeat` ticks, and returns its id.  A cancellation
    /// recorded for that id is dropped.
    pub fn set_timer(&mut self, payload: P, delay: u64, repeat: Option<u64>, now: u64) -> (id: u32)
        requires
            old(self).wf(),
            now + delay <= u64::MAX,
        ensures
            final(self).wf(),
            id >= 1,
            !old(self).timers_view().contains_key(id) || forall|k: u32|
                1 <= k ==> #[trigger] old(self).timers_view().contains_key(k),
            final(self).timers_view() == old(self).timers_view().insert(
                id,
                Timer { payload, due_at: (now + delay) as u64, repeat },
            ),
            final(self).cancelled_view() == old(self).cancelled_view().remove(id),
    {
        let id = self.allocate_timer_id();
        let due_at = now + delay;
        self.timers.insert(id, Timer { payload, due_at, repeat });
        self.cancelled_timers.remove(&id);
        id
    }

    /// Clears a timer: it is removed from the pending timers, and a repeating
    /// task of that id that is running now is not rescheduled.
    pub fn clear_timer(&mut self, id: u32)
        requires
            old(self).wf(),
        ensures
            final(self).wf(),
            cleared(*old(self), id, *final(self)),
            final(self).next_id() == old(self).next_id(),
    {
        self.timers.remove(&id);
        self.cancelled_timers.insert(id);
    }

    /// Takes the next ready timer: a timer due at `now` whose due time is the
    /// earliest among the due timers.  Returns `None` when no timer is due.
    pub fn take_ready_task(&mut self, now: u64) -> (task: Option<QueuedTask<P>>)
        requires
            old(self).wf(),
        ensures
            final(self).wf(),
            final(self).cancelled_view() == old(self).cancelled_view(),
            final(self).next_id() == old(self).next_id(),
            task is None <==> !old(self).has_due_timer(now),
            task is None ==> final(self).timers_view() == old(self).timers_view(),
            task matches Some(t) ==> {
                let timer = old(self).timers_view()[t.timer_id];
                &&& old(self).timers_view().contains_key(t.timer_id)
                &&& timer.due_at <= now
                &&& forall|k: u32|
                    #[trigger] old(self).timers_view().contains_key(k)
                        && old(self).timers_view()[k].due_at <= now ==> timer.due_at
                        <= old(self).timers_view()[k].due_at
                &&& t.payload == timer.payload
                &&& t.repeat == match timer.repeat {
                    Some(d) => Some((t.timer_id, d)),
                    None => None,
                }
                &&& final(self).timers_view() == old(self).timers_view().remove(t.timer_id)
            },
    {
        let mut best: Option<(u32, u64)> = None;
        for entry in it: self.timers.iter()
            invariant
                it.seq() == vstd::std_specs::iter::IteratorSpec::remaining(&vstd::std_specs::hash::spec_hash_map_iter(&self.timers)),
                best matches Some(b) ==> {
                    &&& self.timers@.contains_key(b.0)
                    &&& self.timers@[b.0].due_at == b.1
                    &&& b.1 <= now
                    &&& forall|j: int|
                        0 <= j < it.index() && (*#[trigger] it.seq()[j].1).due_at <= now ==> b.1
                            <= (*it.seq()[j].1).due_at
                },
                best is None ==> forall|j: int|
                    0 <= j < it.index() ==> (*#[trigger] it.seq()[j].1).due_at > now,
        {
            let (id, timer) = entry;
            if timer.due_at <= now {
                let better = match best {
                    Some(b) => timer.due_at < b.1,
                    None => true,
                };
                if better {
                    best = Some((*id, timer.due_at));
                }
            }
        }
        let ghost seq = vstd::std_specs::iter::IteratorSpec::remaining(&vstd::std_specs::hash::spec_hash_map_iter(&self.timers));
        match best {
            None => {
                proof {
                    assert forall|k: u32|
                        #[trigger] self.timers@.contains_key(k) implies self.timers@[k].due_at
                        > now by {
                        assert(seq.contains((&k, &self.timers@[k])));
                        let j = choose|j: int| 0 <= j < seq.len() && seq[j] == (&k, &self.timers@[k]);
                        assert((*seq[j].1).due_at > now);
                    }
                }
                None
            },
            Some((id, _)) => {
                proof {
                    assert forall|k: u32|
                        #[trigger] self.timers@.contains_key(k) && self.timers@[k].due_at
                            <= now implies self.timers@[id].due_at <= self.timers@[k].due_at by {
                        assert(seq.contains((&k, &self.timers@[k])));
                        let j = choose|j: int| 0 <= j < seq.len() && seq[j] == (&k, &self.timers@[k]);
                        assert((*seq[j].1).due_at <= now);
                    }
                }
                let timer = self.timers.remove(&id).unwrap();
                let repeat = match timer.repeat {
                    Some(delay) => Some((id, delay)),
                    None => None,
                };
                Some(QueuedTask { timer_id: id, payload: timer.payload, repeat })
            },
        }
    }

    /// Finishes a task that has run: a repeating timer is scheduled again,
    /// `interval` ticks after `now` under the same id, unless it was cleared
    /// while running, in which case its cancellation is consumed instead.
    pub fn complete_task(&mut self, task: QueuedTask<P>, now: u64)
        requires
            old(self).wf(),
            task.repeat matches Some(r) ==> now + r.1 <= u64::MAX,
        ensures
            final(self).wf(),
            final(self).next_id() == old(self).next_id(),
            completed(*old(self), task, now, *final(self)),
    {
        match task.repeat {
            None => {},
            Some((id, interval)) => {
                if self.cancelled_timers.remove(&id) {
                    return;
                }
                assert(self.cancelled_timers@ =~= old(self).cancelled_timers@);
                let due_at = now + interval;
                self.timers.insert(
                    id,
                    Timer { payload: task.payload, due_at, repeat: Some(interval) },
                );
            },
        }
    }

    /// The shortest remaining delay among the pending timers (zero for a timer
    /// already due), or `None` when there is no timer.
    pub fn next_timer_delay(&self, now: u64) -> (delay: Option<u64>)
        requires
            self.wf(),
        ensures
            delay is None <==> self.timers_view().dom() == Set::<u32>::empty(),
            delay matches Some(d) ==> {
                &&& exists|k: u32| #[trigger]
                    self.timers_view().contains_key(k) && d == remaining_delay(
                        self.timers_view()[k].due_at,
                        now,
                    )
                &&& forall|k: u32| #[trigger]
                    self.timers_view().contains_key(k) ==> d <= remaining_delay(
                        self.timers_view()[k].due_at,
                        now,
                    )
            },
    {
        let mut best: Option<u64> = None;
        let ghost mut witness: u32 = 0;
        for entry in it: self.timers.iter()
            invariant
                it.seq() == vstd::std_specs::iter::IteratorSpec::remaining(&vstd::std_specs::hash::spec_hash_map_iter(&self.timers)),
                best matches Some(b) ==> {
                    &&& self.timers@.contains_key(witness)
                    &&& b == remaining_delay(self.timers@[witness].due_at, now)
                    &&& forall|j: int|
                        0 <= j < it.index() ==> b <= remaining_delay(
                            (*#[trigger] it.seq()[j].1).due_at,
                            now,
                        )
                },
                best is None ==> it.index() == 0,
        {
            let (id, timer) = entry;
            let remaining = if timer.due_at > now {
                timer.due_at - now
            } else {
                0
            };
            let better = match best {
                Some(b) => remaining < b,
                None => true,
            };
            if better {
                best = Some(remaining);
                proof {
                    witness = *id;
                }
            }
        }
        let ghost seq = vstd::std_specs::iter::IteratorSpec::remaining(&vstd::std_specs::hash::spec_hash_map_iter(&self.timers));
        proof {
            if best is None {
                assert(seq.len() == 0);
                assert(self.timers@.dom().len() == 0);
                assert(self.timers@.dom() =~= Set::<u32>::empty());
            } else {
                assert(self.timers@.contains_key(witness));
                assert(self.timers@.dom().contains(witness));
                assert forall|k: u32| #[trigger] self.timers@.contains_key(k) implies best->0
                    <= remaining_delay(self.timers@[k].due_at, now) by {
                    assert(seq.contains((&k, &self.timers@[k])));
                    let j = choose|j: int| 0 <= j < seq.len() && seq[j] == (&k, &self.timers@[k]);
                    assert((*seq[j].1).due_at == self.timers@[k].due_at);
                }
            }
        }
        best
    }

    /// Whether some pending timer is due at `now`.
    pub fn has_due(&self, now: u64) -> (r: bool)
        requires
            self.wf(),
        ensures
            r == self.has_due_timer(now),
    {
        let mut found = false;
        for entry in it: self.timers.iter()
            invariant
                it.seq() == vstd::std_specs::iter::IteratorSpec::remaining(&vstd::std_specs::hash::spec_hash_map_iter(&self.timers)),
                found ==> self.has_due_timer(now),
                !found ==> forall|j: int|
                    0 <= j < it.index() ==> (*#[trigger] it.seq()[j].1).due_at > now,
        {
            let (id, timer) = entry;
            if timer.due_at <= now {
                proof {
                    assert(self.timers@.contains_key(*id));
                }
                found = true;
            }
        }
        let ghost seq = vstd::std_specs::iter::IteratorSpec::remaining(&vstd::std_specs::hash::spec_hash_map_iter(&self.timers));
        proof {
            if !found {
                assert forall|k: u32|
                    #[trigger] self.timers@.contains_key(k) implies self.timers@[k].due_at
                    > now by {
                    assert(seq.contains((&k, &self.timers@[k])));
                    let j = choose|j: int| 0 <= j < seq.len() && seq[j] == (&k, &self.timers@[k]);
                    assert((*seq[j].1).due_at > now);
                }
            }
        }
        found
    }
}

/// `after` is `before` once timer `id` was cleared: the timer is no longer
/// pending, and the id is marked cancelled.
pub open spec fn cleared<P>(before: TaskQueue<P>, id: u32, after: TaskQueue<P>) -> bool {
    &&& after.timers_view() == before.timers_view().remove(id)
    &&& after.cancelled_view() == before.cancelled_view().insert(id)
}

/// `after` is `before` once `task` has run and been completed at `now`: a
/// one-shot task changes nothing; a repeating one whose id was cancelled
/// consumes the cancellation; any other repeating one is pending again,
/// `interval` ticks after `now`.
pub open spec fn completed<P>(before: TaskQueue<P>, task: QueuedTask<P>, now: u64, after: TaskQueue<P>) -> bool {
    match task.repeat {
        None => {
            &&& after.timers_view() == before.timers_view()
            &&& after.cancelled_view() == before.cancelled_view()
        },
        Some((id, interval)) => if before.cancelled_view().contains(id) {
            &&& after.timers_view() == before.timers_view()
            &&& after.cancelled_view() == before.cancelled_view().remove(id)
        } else {
            &&& after.timers_view() == before.timers_view().insert(
                id,
                Timer { payload: task.payload, due_at: (now + interval) as u64, repeat: Some(interval) },
            )
            &&& after.cancelled_view() == before.cancelled_view()
        },
    }
}

/// An interval cleared while its task runs (for instance by its own
/// callback) is not scheduled again when the task completes, and leaves no
/// cancellation behind.
pub proof fn cleared_interval_stays_cleared<P>(
    q0: TaskQueue<P>,
    q1: TaskQueue<P>,
    q2: TaskQueue<P>,
    task: QueuedTask<P>,
    interval: u64,
    now: u64,
)
    requires
        task.repeat == Some((task.timer_id, interval)),
        cleared(q0, task.timer_id, q1),
        completed(q1, task, now, q2),
    ensures
        !q2.timers_view().contains_key(task.timer_id),
        !q2.cancelled_view().contains(task.timer_id),
{
}

/// A repeating timer that nobody cleared is pending again after its task
/// completes, with the same id, payload and interval.
pub proof fn uncleared_interval_repeats<P>(q1: TaskQueue<P>, q2: TaskQueue<P>, task: QueuedTask<P>, interval: u64, now: u64)
    requires
        task.repeat == Some((task.timer_id, interval)),
        !q1.cancelled_view().contains(task.timer_id),
        now + interval <= u64::MAX,
        completed(q1, task, now, q2),
    ensures
        q2.timers_view().contains_key(task.timer_id),
        q2.timers_view()[task.timer_id].payload == task.payload,
        q2.timers_view()[task.timer_id].repeat == Some(interval),
        q2.timers_view()[task.timer_id].due_at == now + interval,
{
}

/// A queue as a newly registered isolate gets it: well formed, with no
/// timers, nothing cancelled, and ids starting at 1.
pub open spec fn queue_is_fresh<P>(q: TaskQueue<P>) -> bool {
    &&& q.wf()
    &&& q.timers_view() == Map::<u32, Timer<P>>::empty()
    &&& q.cancelled_view() == Set::<u32>::empty()
    &&& q.next_id() == 1
}

/// Gives an isolate a new, empty task queue (replacing any it had).
pub fn register_task_queue<P>(queues: &mut HashMap<u64, TaskQueue<P>>, isolate_id: u64)
    ensures
        final(queues)@.dom() == old(queues)@.dom().insert(isolate_id),
        forall|k: u64| k != isolate_id && #[trigger] old(queues)@.contains_key(k) ==> final(queues)@[k]
            == old(queues)@[k],
        queue_is_fresh(final(queues)@[isolate_id]),
{
    queues.insert(isolate_id, TaskQueue::new());
}

/// Drops the task queue of an isolate.
pub fn unregister_task_queue<P>(queues: &mut HashMap<u64, TaskQueue<P>>, isolate_id: u64)
    ensures
        final(queues)@ == old(queues)@.remove(isolate_id),
{
    queues.remove(&isolate_id);
}

/// Whether the isolate has a task queue with a timer due at `now`.
pub fn has_ready_task<P>(queues: &HashMap<u64, TaskQueue<P>>, isolate_id: u64, now: u64) -> (r: bool)
    requires
        forall|k: u64| #[trigger] queues@.contains_key(k) ==> queues@[k].wf(),
    ensures
        r == (queues@.contains_key(isolate_id) && queues@[isolate_id].has_due_timer(now)),
{
    match queues.get(&isolate_id) {
        Some(queue) => queue.has_due(now),
        None => false,
    }
}

/// Whether `run_until_idle` may run another task after `count` tasks, given
/// its optional budget.
pub fn may_run_another_task(count: usize, max_tasks: Option<usize>) -> (r: bool)
    ensures
        r == match max_tasks {
            Some(max) => count < max,
            None => true,
        },
{
    match max_tasks {
        Some(max) => count < max,
        None => true,
    }
}

/// How long the event loop sleeps while it waits up to `timeout` ticks for a
/// task: not at all when there is no time to wait or a timer is already due;
/// at most `background_slice` ticks while the engine has background work; and
/// otherwise until the next timer, within the timeout.  Zero means no sleep.
pub fn wait_for_ready_task_sleep(
    timeout: u64,
    has_ready: bool,
    pending_background: bool,
    background_slice: u64,
    next_delay: Option<u64>,
) -> (sleep: u64)
    ensures
        sleep == if timeout == 0 || has_ready {
            0
        } else if pending_background {
            if timeout < background_slice { timeout } else { background_slice }
        } else {
            match next_delay {
                Some(d) => if d < timeout { d } else { timeout },
                None => 0,
            }
        },
{
    if timeout == 0 || has_ready {
        return 0;
    }
    if pending_background {
        return if timeout < background_slice {
            timeout
        } else {
            background_slice
        };
    }
    match next_delay {
        Some(d) => if d < timeout {
            d
        } else {
            timeout
        },
        None => 0,
    }
}

/// How long a waiting promise sleeps before polling again: until the next
/// timer, at most `max_sleep` ticks.  Zero means no sleep.
pub fn sleep_until_next_timer(max_sleep: u64, next_delay: Option<u64>) -> (sleep: u64)
    ensures
        sleep == match next_delay {
            Some(d) => if d < max_sleep { d } else { max_sleep },
            None => 0,
        },
{
    match next_delay {
        Some(d) => if d < max_sleep {
            d
        } else {
            max_sleep
        },
        None => 0,
    }
}

/// How long a waiting promise sleeps for pending background work: at most
/// `background_slice` ticks, and only while there is such work.
pub fn sleep_for_pending_background_task(
    max_sleep: u64,
    pending_background: bool,
    background_slice: u64,
) -> (sleep: u64)
    ensures
        sleep == if max_sleep == 0 || !pending_background {
            0
        } else if max_sleep < background_slice {
            max_sleep
        } else {
            background_slice
        },
{
    if max_sleep == 0 || !pending_background {
        0
    } else if max_sleep < background_slice {
        max_sleep
    } else {
        background_slice
    }
}

/// A timer was set with something other than a function to call.
#[derive(Clone, Copy, Debug, PartialEq, Eq, Structural)]
pub struct TimerCallbackNotFunction;

/// Checks a `setTimeout` or `setInterval` call and gives the interval the
/// timer repeats with: the call needs a function as its first argument; an
/// interval repeats with its delay, a timeout does not repeat.  The timer's
/// own arguments are those from the third on.
pub fn timer_request(
    arg_count: usize,
    first_is_function: bool,
    interval: bool,
    delay: u64,
) -> (r: Result<Option<u64>, TimerCallbackNotFunction>)
    ensures
        !(arg_count >= 1 && first_is_function) ==> r == Err::<Option<u64>, TimerCallbackNotFunction>(
            TimerCallbackNotFunction,
        ),
        (arg_count >= 1 && first_is_function) ==> r == Ok::<Option<u64>, TimerCallbackNotFunction>(
            if interval {
                Some(delay)
            } else {
                None
            },
        ),
{
    if arg_count < 1 || !first_is_function {
        return Err(TimerCallbackNotFunction);
    }
    if interval {
        Ok(Some(delay))
    } else {
        Ok(None)
    }
}

} // verus!

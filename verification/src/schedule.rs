//! A cooperative scheduler for deferred work, ordered by wake tick.
//!
//! The scheduler holds the queue and decides; it neither reads the clock nor
//! runs a task. The loop that drives it reads the tick counter, hands the
//! value in, and runs what the scheduler tells it to run.

use crate::bus::Store;
use crate::field;
use crate::sam3x8e::rtt::{Mode, RealTimeTimer};
use crate::sam3x8e::RegisterWriter;
use std::collections::VecDeque;
use vstd::prelude::*;

verus! {

/// A deferred unit of work and the tick at which it is due.
pub struct Task<A> {
    pub task: A,
    pub time: u32,
}

/// What the loop that drives the scheduler does next.
#[derive(Clone, Copy, Debug, PartialEq, Eq, Structural)]
pub enum Step {
    /// A task left the queue and is now the last executed task: run it.
    Run,
    /// Nothing is queued: poll again.
    Idle,
    /// The wait is over.
    Done,
}

/// Each task wakes no later than every task behind it.
pub open spec fn ascending<A>(queue: Seq<Task<A>>) -> bool {
    forall|i: int, j: int| 0 <= i <= j < queue.len() ==> queue[i].time <= queue[j].time
}

/// The place at which a task that wakes at `time` enters a queue: before the
/// first task that wakes strictly later, and at the end if there is none.
pub open spec fn slot_for<A>(queue: Seq<Task<A>>, time: u32) -> int
    decreases queue.len(),
{
    if queue.len() == 0 || queue[0].time > time {
        0
    } else {
        1 + slot_for(queue.subrange(1, queue.len() as int), time)
    }
}

/// The queue that `queue` is after `task` has entered it at its slot.
pub open spec fn with_task<A>(queue: Seq<Task<A>>, task: Task<A>) -> Seq<Task<A>> {
    queue.insert(slot_for(queue, task.time), task)
}

/// The tick `delay` ticks after `now`. The counter has 32 bits and wraps.
pub open spec fn spec_wake_tick(now: u32, delay: u32) -> u32 {
    ((now + delay) % 0x1_0000_0000) as u32
}

/// The tick `delay` ticks after `now`, wrapped to 32 bits.
pub fn wake_tick(now: u32, delay: u32) -> (tick: u32)
    ensures
        tick == spec_wake_tick(now, delay),
        now + delay <= u32::MAX ==> tick == now + delay,
{
    now.wrapping_add(delay)
}

/// `slot_for` names the first task that wakes strictly later than `time`.
pub proof fn lemma_slot_for<A>(queue: Seq<Task<A>>, time: u32)
    ensures
        0 <= slot_for(queue, time) <= queue.len(),
        forall|i: int| 0 <= i < slot_for(queue, time) ==> (#[trigger] queue[i]).time <= time,
        slot_for(queue, time) < queue.len() ==> queue[slot_for(queue, time)].time > time,
    decreases queue.len(),
{
    if queue.len() == 0 || queue[0].time > time {
    } else {
        let rest = queue.subrange(1, queue.len() as int);
        lemma_slot_for(rest, time);
        assert forall|i: int| 0 <= i < slot_for(queue, time) implies (#[trigger] queue[i]).time
            <= time by {
            if i > 0 {
                assert(queue[i] == rest[i - 1]);
            }
        }
        if slot_for(queue, time) < queue.len() {
            assert(queue[slot_for(queue, time)] == rest[slot_for(rest, time)]);
        }
    }
}

/// The slot is the only place before which no task wakes later and at
/// which a task does, or the queue ends.
pub proof fn lemma_slot_is_unique<A>(queue: Seq<Task<A>>, time: u32, index: int)
    requires
        0 <= index <= queue.len(),
        forall|i: int| 0 <= i < index ==> (#[trigger] queue[i]).time <= time,
        index < queue.len() ==> queue[index].time > time,
    ensures
        slot_for(queue, time) == index,
    decreases queue.len(),
{
    if queue.len() == 0 || queue[0].time > time {
        if index > 0 {
            assert(queue[0].time <= time);
        }
    } else {
        let rest = queue.subrange(1, queue.len() as int);
        assert forall|i: int| 0 <= i < index - 1 implies (#[trigger] rest[i]).time <= time by {
            assert(rest[i] == queue[i + 1]);
        }
        lemma_slot_is_unique(rest, time, index - 1);
    }
}

/// A queue is ascending exactly if each task wakes no later than the task
/// right behind it.
pub proof fn lemma_ascending_by_neighbours<A>(queue: Seq<Task<A>>)
    ensures
        ascending(queue) <==> forall|i: int|
            0 <= i < queue.len() - 1 ==> (#[trigger] queue[i]).time <= queue[i + 1].time,
{
    if forall|i: int| 0 <= i < queue.len() - 1 ==> (#[trigger] queue[i]).time <= queue[i + 1].time {
        assert forall|i: int, j: int| 0 <= i <= j < queue.len() implies queue[i].time
            <= queue[j].time by {
            lemma_neighbours_reach(queue, i, j);
        }
    }
}

/// Where each task wakes no later than the task right behind it, it wakes
/// no later than any task behind it.
proof fn lemma_neighbours_reach<A>(queue: Seq<Task<A>>, i: int, j: int)
    requires
        forall|k: int| 0 <= k < queue.len() - 1 ==> (#[trigger] queue[k]).time <= queue[k + 1].time,
        0 <= i <= j < queue.len(),
    ensures
        queue[i].time <= queue[j].time,
    decreases j - i,
{
    if i < j {
        lemma_neighbours_reach(queue, i, j - 1);
        assert(queue[j - 1].time <= queue[j].time);
    }
}

/// A task enters an ascending queue behind every task that wakes at the
/// same tick or earlier, and in front of every task that wakes later: tasks
/// that wake at the same tick leave the queue in the order in which they
/// entered it.
pub proof fn lemma_equal_ticks_keep_order<A>(queue: Seq<Task<A>>, time: u32, index: int)
    requires
        ascending(queue),
        0 <= index < queue.len(),
    ensures
        queue[index].time <= time <==> index < slot_for(queue, time),
{
    lemma_slot_for(queue, time);
}

/// A task that enters an ascending queue at its slot leaves the queue
/// ascending, wherever the slot is: in front, between two tasks, or at the
/// end.
pub proof fn lemma_insert_keeps_ascending<A>(queue: Seq<Task<A>>, task: Task<A>)
    requires
        ascending(queue),
    ensures
        ascending(with_task(queue, task)),
        with_task(queue, task).contains(task),
{
    let slot = slot_for(queue, task.time);
    let after = queue.insert(slot, task);
    lemma_slot_for(queue, task.time);
    assert forall|i: int, j: int| 0 <= i <= j < after.len() implies after[i].time
        <= after[j].time by {
        if j < slot {
            assert(after[i] == queue[i] && after[j] == queue[j]);
        } else if i > slot {
            assert(after[i] == queue[i - 1] && after[j] == queue[j - 1]);
        } else if i == slot {
            if j > slot {
                assert(after[j] == queue[j - 1]);
                assert(queue[slot].time <= queue[j - 1].time);
            }
        } else {
            assert(after[i] == queue[i]);
            if j > slot {
                assert(after[j] == queue[j - 1]);
            }
        }
    }
    assert(after[slot] == task);
}

/// The queue after each task of `tasks` has entered it at its slot, the
/// first task first.
pub open spec fn after_pushes<A>(queue: Seq<Task<A>>, tasks: Seq<Task<A>>) -> Seq<Task<A>>
    decreases tasks.len(),
{
    if tasks.len() == 0 {
        queue
    } else {
        after_pushes(with_task(queue, tasks[0]), tasks.subrange(1, tasks.len() as int))
    }
}

/// After any sequence of pushes the queue is ascending, has grown by the
/// number of tasks pushed, and holds every task that it held before and
/// every task that was pushed, also one that wakes later than all others.
pub proof fn lemma_pushes_keep_ascending<A>(queue: Seq<Task<A>>, tasks: Seq<Task<A>>)
    requires
        ascending(queue),
    ensures
        ascending(after_pushes(queue, tasks)),
        after_pushes(queue, tasks).len() == queue.len() + tasks.len(),
        forall|i: int| 0 <= i < queue.len() ==> after_pushes(queue, tasks).contains(queue[i]),
        forall|i: int| 0 <= i < tasks.len() ==> after_pushes(queue, tasks).contains(tasks[i]),
    decreases tasks.len(),
{
    if tasks.len() > 0 {
        let slot = slot_for(queue, tasks[0].time);
        let grown = queue.insert(slot, tasks[0]);
        let rest = tasks.subrange(1, tasks.len() as int);
        lemma_slot_for(queue, tasks[0].time);
        lemma_insert_keeps_ascending(queue, tasks[0]);
        lemma_pushes_keep_ascending(grown, rest);
        let end = after_pushes(queue, tasks);
        assert forall|i: int| 0 <= i < queue.len() implies end.contains(queue[i]) by {
            if i < slot {
                assert(grown[i] == queue[i]);
            } else {
                assert(grown[i + 1] == queue[i]);
            }
        }
        assert forall|i: int| 0 <= i < tasks.len() implies end.contains(tasks[i]) by {
            if i == 0 {
                assert(grown[slot] == tasks[0]);
            } else {
                assert(rest[i - 1] == tasks[i]);
            }
        }
    } else {
        assert forall|i: int| 0 <= i < queue.len() implies after_pushes(queue, tasks).contains(
            queue[i],
        ) by {}
    }
}

/// The queue of pending tasks and the task that was started last.
pub struct Scheduler<A> {
    tasks: VecDeque<Task<A>>,
    last_task: Option<A>,
    rtt: RealTimeTimer,
}

impl<A> Scheduler<A> {
    #[verifier::type_invariant]
    spec fn queue_is_ascending(self) -> bool {
        ascending(self.tasks@)
    }

    /// The pending tasks, the next one to run first.
    pub closed spec fn queue(self) -> Seq<Task<A>> {
        self.tasks@
    }

    /// The work of the task that was started last, until `repeat_in` takes it.
    pub closed spec fn last(self) -> Option<A> {
        self.last_task
    }

    /// The timer whose counter gives the scheduler's ticks.
    pub closed spec fn clock(self) -> RealTimeTimer {
        self.rtt
    }

    /// This scheduler is `before` with nothing changed.
    pub open spec fn same_as(self, before: Self) -> bool {
        &&& self.queue() == before.queue()
        &&& self.last() == before.last()
        &&& self.clock() == before.clock()
    }

    /// This scheduler is `before` after the task in front of the queue has
    /// left the queue and has become the last executed task.
    pub open spec fn started_front_of(self, before: Self) -> bool {
        &&& before.queue().len() > 0
        &&& self.queue() == before.queue().subrange(1, before.queue().len() as int)
        &&& self.last() == Some(before.queue()[0].task)
        &&& self.clock() == before.clock()
    }

    /// This scheduler is `before` after `task` has entered the queue at its
    /// slot.
    pub open spec fn queued_onto(self, before: Self, task: Task<A>) -> bool {
        &&& self.queue() == with_task(before.queue(), task)
        &&& self.queue().len() == before.queue().len() + 1
        &&& self.last() == before.last()
        &&& self.clock() == before.clock()
    }

    /// A scheduler that counts the ticks of `rtt`, with nothing queued and
    /// no task started yet, and the store that makes a tick of the timer
    /// last about one millisecond: the prescaler for that in the mode
    /// register, and zero in the register's other fields.
    pub fn new(rtt: RealTimeTimer) -> (made: (Scheduler<A>, Store))
        ensures
            made.0.queue() == Seq::<Task<A>>::empty(),
            made.0.last().is_none(),
            made.0.clock() == rtt,
            made.1 == (Store {
                address: rtt.block().mode.address(),
                word: RealTimeTimer::APPROX_1MS_PRESCALER,
            }),
    {
        proof {
            field::lemma_merge_into_zero(0, 16, 0x20);
            assert(field::spec_encode(0, 16, 0x20) == 0x20) by (bit_vector);
        }
        let place = Mode::prescaler();
        let prescaler = RealTimeTimer::APPROX_1MS_PRESCALER as u16;
        let configure = |w: RegisterWriter<Mode>| -> (built: RegisterWriter<Mode>)
            ensures
                built.value == place.spec_set(w.value, prescaler),
            {
                w.with(&place, prescaler)
            };
        let store = rtt.registers().mode.write_with_zero(configure);
        (Scheduler { tasks: VecDeque::new(), last_task: None, rtt }, store)
    }

    /// The timer whose counter gives the scheduler's ticks. The ticks are
    /// loaded from its value register.
    pub fn timer(&self) -> (rtt: &RealTimeTimer)
        ensures
            *rtt == self.clock(),
    {
        &self.rtt
    }

    /// The number of pending tasks.
    pub fn len(&self) -> (count: usize)
        ensures
            count == self.queue().len(),
    {
        self.tasks.len()
    }

    /// The tick at which the task in front of the queue is due.
    pub fn next_wake(&self) -> (tick: Option<u32>)
        ensures
            tick == (if self.queue().len() > 0 {
                Some(self.queue()[0].time)
            } else {
                None
            }),
    {
        if self.tasks.len() > 0 {
            Some(self.tasks[0].time)
        } else {
            None
        }
    }

    /// The work of the task that was started last, if `repeat_in` has not
    /// taken it since.
    pub fn last_task(&self) -> (work: Option<&A>)
        ensures
            work.is_some() == self.last().is_some(),
            work.is_some() ==> *work.unwrap() == self.last().unwrap(),
    {
        self.last_task.as_ref()
    }

    /// Queues `task` before the first pending task that wakes strictly
    /// later, and behind all pending tasks if none does. Tasks that wake at
    /// the same tick stay in the order in which they were queued.
    pub fn push_task(&mut self, task: Task<A>)
        ensures
            final(self).queued_onto(*old(self), task),
            ascending(final(self).queue()),
    {
        proof {
            use_type_invariant(&*self);
            lemma_insert_keeps_ascending(self.tasks@, task);
            lemma_slot_for(self.tasks@, task.time);
        }
        let mut tasks: VecDeque<Task<A>> = VecDeque::new();
        std::mem::swap(&mut self.tasks, &mut tasks);
        let mut index: usize = 0;
        while index < tasks.len() && tasks[index].time <= task.time
            invariant
                index <= tasks@.len(),
                forall|i: int| 0 <= i < index ==> (#[trigger] tasks@[i]).time <= task.time,
            decreases tasks@.len() - index,
        {
            index += 1;
        }
        proof {
            lemma_slot_is_unique(tasks@, task.time, index as int);
        }
        tasks.insert(index, task);
        std::mem::swap(&mut self.tasks, &mut tasks);
    }

    /// Queues `task` to wake `ms` ticks after `now`, the number of ticks
    /// counted. The sum wraps at 32 bits.
    pub fn push(&mut self, task: A, now: u32, ms: u32)
        ensures
            final(self).queued_onto(*old(self), (Task { task, time: spec_wake_tick(now, ms) })),
            ascending(final(self).queue()),
    {
        self.push_task(Task { task, time: wake_tick(now, ms) });
    }

    /// Queues boxed work to wake `ms` ticks after `now`, the number of
    /// ticks counted. The sum wraps at 32 bits.
    pub fn push_box(&mut self, task: Box<A>, now: u32, ms: u32)
        ensures
            final(self).queued_onto(
                *old(self),
                (Task { task: *task, time: spec_wake_tick(now, ms) }),
            ),
            ascending(final(self).queue()),
    {
        self.push_task(Task { task: *task, time: wake_tick(now, ms) });
    }

    /// Takes the task in front of the queue, whether it is due or not.
    pub fn pop_next_task(&mut self) -> (next: Option<Task<A>>)
        ensures
            next == (if old(self).queue().len() > 0 {
                Some(old(self).queue()[0])
            } else {
                None
            }),
            final(self).queue() == (if old(self).queue().len() > 0 {
                old(self).queue().subrange(1, old(self).queue().len() as int)
            } else {
                old(self).queue()
            }),
            final(self).last() == old(self).last(),
            final(self).clock() == old(self).clock(),
            ascending(final(self).queue()),
    {
        proof {
            use_type_invariant(&*self);
        }
        let mut tasks: VecDeque<Task<A>> = VecDeque::new();
        std::mem::swap(&mut self.tasks, &mut tasks);
        let next = tasks.pop_front();
        std::mem::swap(&mut self.tasks, &mut tasks);
        next
    }

    /// One turn of the endless loop: starts the task in front of the queue,
    /// if there is one, whether it is due or not, and records it as the
    /// last executed task. The loop itself, which never ends, and the run of
    /// the task are the caller's.
    pub fn main_loop(&mut self) -> (step: Step)
        ensures
            (if old(self).queue().len() == 0 {
                step == Step::Idle && final(self).same_as(*old(self))
            } else {
                step == Step::Run && final(self).started_front_of(*old(self))
            }),
            ascending(final(self).queue()),
    {
        match self.pop_next_task() {
            Some(task) => {
                proof {
                    use_type_invariant(&*self);
                }
                self.last_task = Some(task.task);
                Step::Run
            },
            None => Step::Idle,
        }
    }

    /// One turn of a wait of `ms` ticks that began at tick `started`, taken
    /// at tick `now`. The wait is over once the counter has reached
    /// `started + ms`, wrapped to 32 bits: where the sum does not wrap, once
    /// the counter has advanced by at least `ms` ticks, and not before.
    /// Until then each turn starts the task in front of the queue, as
    /// `main_loop` does.
    pub fn yield_for(&mut self, started: u32, ms: u32, now: u32) -> (step: Step)
        ensures
            step == Step::Done <==> now >= spec_wake_tick(started, ms),
            started + ms <= u32::MAX ==> (step == Step::Done <==> now - started >= ms),
            step == Step::Done ==> final(self).same_as(*old(self)),
            step != Step::Done ==> (if old(self).queue().len() == 0 {
                step == Step::Idle && final(self).same_as(*old(self))
            } else {
                step == Step::Run && final(self).started_front_of(*old(self))
            }),
            ascending(final(self).queue()),
    {
        proof {
            use_type_invariant(&*self);
        }
        let until = wake_tick(started, ms);
        if now < until {
            self.main_loop()
        } else {
            Step::Done
        }
    }

    /// Queues the last executed task again, to wake `ms` ticks after `now`,
    /// the number of ticks counted. There has to be such a task: one that
    /// was started and that no earlier call has taken.
    pub fn repeat_in(&mut self, now: u32, ms: u32)
        requires
            old(self).last().is_some(),
        ensures
            final(self).queue() == with_task(
                old(self).queue(),
                (Task { task: old(self).last().unwrap(), time: spec_wake_tick(now, ms) }),
            ),
            final(self).queue().contains(
                (Task { task: old(self).last().unwrap(), time: spec_wake_tick(now, ms) }),
            ),
            final(self).queue().len() == old(self).queue().len() + 1,
            final(self).last().is_none(),
            final(self).clock() == old(self).clock(),
            ascending(final(self).queue()),
    {
        proof {
            use_type_invariant(&*self);
            lemma_insert_keeps_ascending(
                self.tasks@,
                Task { task: self.last_task.unwrap(), time: spec_wake_tick(now, ms) },
            );
        }
        let mut last: Option<A> = None;
        std::mem::swap(&mut self.last_task, &mut last);
        self.push(last.unwrap(), now, ms);
    }
}

} // verus!

use sam3x_core::bus::Store;
use sam3x_core::sam3x8e::rtt::RealTimeTimer;
use sam3x_core::schedule::{wake_tick, Scheduler, Step, Task};

fn scheduler() -> Scheduler<&'static str> {
    Scheduler::new(RealTimeTimer::new()).0
}

fn drain(scheduler: &mut Scheduler<&'static str>) -> Vec<(&'static str, u32)> {
    let mut out = Vec::new();
    while let Some(task) = scheduler.pop_next_task() {
        out.push((task.task, task.time));
    }
    out
}

#[test]
fn new_scheduler_is_empty_and_sets_prescaler() {
    let (mut scheduler, store) = Scheduler::<u8>::new(RealTimeTimer::new());
    assert_eq!(store, Store { address: 0x400E_1A30, word: 0x20 });
    assert_eq!(scheduler.len(), 0);
    assert_eq!(scheduler.next_wake(), None);
    assert!(scheduler.last_task().is_none());
    assert!(scheduler.pop_next_task().is_none());
}

#[test]
fn wake_tick_adds_delay() {
    assert_eq!(wake_tick(100, 50), 150);
    assert_eq!(wake_tick(0, 0), 0);
    assert_eq!(wake_tick(u32::MAX, 0), u32::MAX);
}

#[test]
fn wake_tick_wraps_at_32_bits() {
    assert_eq!(wake_tick(u32::MAX, 1), 0);
    assert_eq!(wake_tick(0xffff_fff0, 0x20), 0x10);
}

#[test]
fn push_into_empty_queue_keeps_task() {
    let mut s = scheduler();
    s.push("only", 10, 5);
    assert_eq!(s.len(), 1);
    assert_eq!(s.next_wake(), Some(15));
    assert_eq!(drain(&mut s), vec![("only", 15)]);
}

#[test]
fn push_latest_task_appends_it() {
    let mut s = scheduler();
    s.push("a", 0, 10);
    s.push("b", 0, 20);
    s.push("c", 0, 30);
    assert_eq!(s.len(), 3);
    assert_eq!(drain(&mut s), vec![("a", 10), ("b", 20), ("c", 30)]);
}

#[test]
fn push_earliest_task_goes_to_front() {
    let mut s = scheduler();
    s.push("late", 0, 30);
    s.push("early", 0, 10);
    assert_eq!(drain(&mut s), vec![("early", 10), ("late", 30)]);
}

#[test]
fn push_between_two_tasks() {
    let mut s = scheduler();
    s.push("a", 0, 10);
    s.push("c", 0, 30);
    s.push("b", 0, 20);
    assert_eq!(drain(&mut s), vec![("a", 10), ("b", 20), ("c", 30)]);
}

#[test]
fn equal_wake_ticks_run_in_insertion_order() {
    let mut s = scheduler();
    s.push("first", 0, 10);
    s.push("second", 5, 5);
    s.push("zero", 0, 0);
    s.push("third", 10, 0);
    s.push("last", 0, 11);
    assert_eq!(
        drain(&mut s),
        vec![("zero", 0), ("first", 10), ("second", 10), ("third", 10), ("last", 11)]
    );
}

#[test]
fn push_task_uses_given_wake_tick() {
    let mut s = scheduler();
    s.push_task(Task { task: "b", time: 7 });
    s.push_task(Task { task: "a", time: 3 });
    assert_eq!(drain(&mut s), vec![("a", 3), ("b", 7)]);
}

#[test]
fn push_box_queues_boxed_work() {
    let mut s = scheduler();
    s.push_box(Box::new("boxed"), 100, 1);
    s.push("plain", 100, 0);
    assert_eq!(drain(&mut s), vec![("plain", 100), ("boxed", 101)]);
}

#[test]
fn queue_is_ascending_after_many_pushes() {
    let mut s = Scheduler::<u32>::new(RealTimeTimer::new()).0;
    let mut state: u32 = 0x1234_5678;
    for id in 0..500u32 {
        state = state.wrapping_mul(1_664_525).wrapping_add(1_013_904_223);
        let now = state >> 20;
        state = state.wrapping_mul(1_664_525).wrapping_add(1_013_904_223);
        let delay = state >> 22;
        s.push(id, now, delay);
        assert_eq!(s.len(), id as usize + 1);
    }
    let mut ticks = Vec::new();
    let mut ids = Vec::new();
    while let Some(task) = s.pop_next_task() {
        ticks.push(task.time);
        ids.push(task.task);
    }
    assert_eq!(ticks.len(), 500);
    for pair in ticks.windows(2) {
        assert!(pair[0] <= pair[1]);
    }
    for (index, pair) in ticks.windows(2).enumerate() {
        if pair[0] == pair[1] {
            assert!(ids[index] < ids[index + 1]);
        }
    }
    ids.sort();
    assert_eq!(ids, (0..500).collect::<Vec<u32>>());
}

#[test]
fn wake_tick_of_push_wraps() {
    let mut s = scheduler();
    s.push("normal", 0xffff_fff0, 5);
    s.push("wrapped", 0xffff_fff0, 0x20);
    assert_eq!(drain(&mut s), vec![("wrapped", 0x10), ("normal", 0xffff_fff5)]);
}

#[test]
fn pop_does_not_wait_for_wake_tick() {
    let mut s = scheduler();
    s.push("far", 0, 1_000_000);
    let task = s.pop_next_task().unwrap();
    assert_eq!(task.task, "far");
    assert_eq!(task.time, 1_000_000);
    assert!(s.last_task().is_none());
}

#[test]
fn main_loop_turn_on_empty_queue_is_idle() {
    let mut s = scheduler();
    assert_eq!(s.main_loop(), Step::Idle);
    assert!(s.last_task().is_none());
}

#[test]
fn main_loop_turn_starts_front_task() {
    let mut s = scheduler();
    s.push("b", 0, 20);
    s.push("a", 0, 10);
    assert_eq!(s.main_loop(), Step::Run);
    assert_eq!(s.last_task(), Some(&"a"));
    assert_eq!(s.len(), 1);
    assert_eq!(s.main_loop(), Step::Run);
    assert_eq!(s.last_task(), Some(&"b"));
    assert_eq!(s.main_loop(), Step::Idle);
    assert_eq!(s.last_task(), Some(&"b"));
}

#[test]
fn yield_for_with_empty_queue_ends_after_ms_ticks() {
    let mut s = scheduler();
    let started = 1000;
    for now in started..started + 250 {
        assert_eq!(s.yield_for(started, 250, now), Step::Idle);
    }
    assert_eq!(s.yield_for(started, 250, started + 250), Step::Done);
    assert_eq!(s.yield_for(started, 250, started + 251), Step::Done);
}

#[test]
fn yield_for_zero_ticks_is_over_at_once() {
    let mut s = scheduler();
    s.push("waiting", 0, 0);
    assert_eq!(s.yield_for(5, 0, 5), Step::Done);
    assert_eq!(s.len(), 1);
}

#[test]
fn yield_for_runs_tasks_while_waiting() {
    let mut s = scheduler();
    s.push("a", 0, 500);
    assert_eq!(s.yield_for(0, 10, 3), Step::Run);
    assert_eq!(s.last_task(), Some(&"a"));
    assert_eq!(s.yield_for(0, 10, 4), Step::Idle);
    assert_eq!(s.yield_for(0, 10, 10), Step::Done);
}

#[test]
fn yield_for_leaves_queue_alone_when_done() {
    let mut s = scheduler();
    s.push("a", 0, 1);
    assert_eq!(s.yield_for(0, 10, 11), Step::Done);
    assert_eq!(s.len(), 1);
    assert!(s.last_task().is_none());
}

#[test]
fn yield_for_deadline_wraps() {
    let mut s = scheduler();
    assert_eq!(s.yield_for(0xffff_ffff, 2, 0xffff_ffff), Step::Done);
    assert_eq!(s.yield_for(0xffff_fff0, 0x20, 0x0f), Step::Idle);
    assert_eq!(s.yield_for(0xffff_fff0, 0x20, 0x10), Step::Done);
}

#[test]
fn repeat_in_queues_last_task_again() {
    let mut s = scheduler();
    s.push("periodic", 0, 0);
    assert_eq!(s.main_loop(), Step::Run);
    s.repeat_in(40, 1000);
    assert!(s.last_task().is_none());
    assert_eq!(s.len(), 1);
    assert_eq!(drain(&mut s), vec![("periodic", 1040)]);
}

#[test]
fn repeat_in_keeps_queue_ascending() {
    let mut s = scheduler();
    s.push("periodic", 0, 0);
    s.push("early", 0, 100);
    s.push("same", 0, 500);
    s.push("late", 0, 900);
    assert_eq!(s.main_loop(), Step::Run);
    s.repeat_in(0, 500);
    assert_eq!(
        drain(&mut s),
        vec![("early", 100), ("same", 500), ("periodic", 500), ("late", 900)]
    );
}

#[test]
fn repeat_in_takes_most_recently_started_task() {
    let mut s = scheduler();
    s.push("one", 0, 1);
    s.push("two", 0, 2);
    assert_eq!(s.main_loop(), Step::Run);
    assert_eq!(s.main_loop(), Step::Run);
    s.repeat_in(10, 10);
    assert_eq!(drain(&mut s), vec![("two", 20)]);
}

struct Board {
    scheduler: Scheduler<fn(&mut Board)>,
    clock: u32,
    output: bool,
    toggles: u32,
}

fn wait(board: &mut Board, ms: u32) {
    let started = board.clock;
    loop {
        match board.scheduler.yield_for(started, ms, board.clock) {
            Step::Done => break,
            Step::Run => {
                let work: fn(&mut Board) = *board.scheduler.last_task().unwrap();
                work(board);
            }
            Step::Idle => board.clock += 1,
        }
    }
}

fn blink(board: &mut Board) {
    board.output = !board.output;
    board.toggles += 1;
    wait(board, 1000);
    board.scheduler.repeat_in(board.clock, 1000);
}

#[test]
fn periodic_task_toggles_three_times_in_3000_ticks() {
    let (scheduler, store) = Scheduler::new(RealTimeTimer::new());
    assert_eq!(store.word, RealTimeTimer::APPROX_1MS_PRESCALER);
    let mut board = Board { scheduler, clock: 0, output: true, toggles: 0 };
    let now = board.clock;
    board.scheduler.push(blink as fn(&mut Board), now, 0);
    wait(&mut board, 3000);
    assert_eq!(board.clock, 3000);
    assert_eq!(board.toggles, 3);
    assert!(!board.output);
    assert_eq!(board.scheduler.len(), 1);
    assert_eq!(board.scheduler.next_wake(), Some(4000));
}

use std::collections::HashMap;
use v8_python::event_loop::{
    has_ready_task, may_run_another_task, register_task_queue, sleep_for_pending_background_task,
    sleep_until_next_timer, timer_request, unregister_task_queue, wait_for_ready_task_sleep, TaskQueue,
    TimerCallbackNotFunction,
};

#[test]
fn timer_ids_start_at_one_and_grow() {
    let mut q: TaskQueue<&str> = TaskQueue::new();
    assert_eq!(q.set_timer("a", 10, None, 0), 1);
    assert_eq!(q.set_timer("b", 10, None, 0), 2);
}

#[test]
fn earliest_due_timer_runs_first() {
    let mut q: TaskQueue<&str> = TaskQueue::new();
    q.set_timer("late", 50, None, 0);
    q.set_timer("early", 20, None, 0);
    assert!(q.take_ready_task(10).is_none());
    let t = q.take_ready_task(60).unwrap();
    assert_eq!(t.payload, "early");
    let u = q.take_ready_task(60).unwrap();
    assert_eq!(u.payload, "late");
    assert!(q.take_ready_task(60).is_none());
}

#[test]
fn cleared_timer_does_not_fire() {
    let mut q: TaskQueue<u8> = TaskQueue::new();
    let id = q.set_timer(1, 0, None, 0);
    q.clear_timer(id);
    assert!(!q.has_due(100));
    assert!(q.take_ready_task(100).is_none());
}

#[test]
fn interval_repeats_until_cleared() {
    let mut q: TaskQueue<u8> = TaskQueue::new();
    let id = q.set_timer(7, 5, Some(5), 0);
    let t = q.take_ready_task(5).unwrap();
    assert_eq!(t.repeat, Some((id, 5)));
    q.complete_task(t, 5);
    assert_eq!(q.next_timer_delay(5), Some(5));
    let t2 = q.take_ready_task(10).unwrap();
    q.clear_timer(id);
    q.complete_task(t2, 10);
    assert_eq!(q.next_timer_delay(10), None);
    assert!(q.take_ready_task(1000).is_none());
}

#[test]
fn next_delay_is_zero_for_due_timers() {
    let mut q: TaskQueue<u8> = TaskQueue::new();
    q.set_timer(1, 3, None, 0);
    q.set_timer(2, 30, None, 0);
    assert_eq!(q.next_timer_delay(0), Some(3));
    assert_eq!(q.next_timer_delay(10), Some(0));
}

#[test]
fn queues_per_isolate() {
    let mut queues: HashMap<u64, TaskQueue<u8>> = HashMap::new();
    register_task_queue(&mut queues, 4);
    assert!(!has_ready_task(&queues, 4, 0));
    queues.get_mut(&4).unwrap().set_timer(1, 0, None, 0);
    assert!(has_ready_task(&queues, 4, 0));
    assert!(!has_ready_task(&queues, 5, 0));
    unregister_task_queue(&mut queues, 4);
    assert!(!has_ready_task(&queues, 4, 0));
}

#[test]
fn run_until_idle_budget() {
    assert!(may_run_another_task(3, None));
    assert!(may_run_another_task(3, Some(4)));
    assert!(!may_run_another_task(4, Some(4)));
}

#[test]
fn sleeping_decisions() {
    assert_eq!(wait_for_ready_task_sleep(0, false, false, 1, Some(5)), 0);
    assert_eq!(wait_for_ready_task_sleep(10, true, false, 1, Some(5)), 0);
    assert_eq!(wait_for_ready_task_sleep(10, false, true, 1, Some(5)), 1);
    assert_eq!(wait_for_ready_task_sleep(10, false, false, 1, Some(5)), 5);
    assert_eq!(wait_for_ready_task_sleep(3, false, false, 1, Some(5)), 3);
    assert_eq!(wait_for_ready_task_sleep(3, false, false, 1, None), 0);
    assert_eq!(sleep_until_next_timer(1, Some(7)), 1);
    assert_eq!(sleep_until_next_timer(1, None), 0);
    assert_eq!(sleep_for_pending_background_task(1, true, 1), 1);
    assert_eq!(sleep_for_pending_background_task(1, false, 1), 0);
}

#[test]
fn timer_calls_need_a_function() {
    assert_eq!(timer_request(0, false, false, 5), Err(TimerCallbackNotFunction));
    assert_eq!(timer_request(1, false, true, 5), Err(TimerCallbackNotFunction));
    assert_eq!(timer_request(2, true, true, 5), Ok(Some(5)));
    assert_eq!(timer_request(2, true, false, 5), Ok(None));
}

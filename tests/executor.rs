use grpc::cq::{next_action, CompletionQueue, Event, EventType, PollAction};
use grpc::executor::{notify, Executor, SpawnTask, UnfinishedWork, WorkQueue};
use grpc::status::Error;

#[test]
fn self_notifying_future_is_polled_again_each_time() {
    let mut task = SpawnTask::new();
    let mut queue = WorkQueue::new();
    let mut polls = 0;
    // Spawn polls once inline.
    assert!(task.begin_poll(false));
    for _ in 0..1000 {
        polls += 1;
        // The future wakes itself during its poll and is not ready.
        assert!(!notify(&mut queue, &mut task, 1));
        assert!(task.end_poll(false));
        assert!(task.begin_poll(true));
    }
    polls += 1;
    assert!(!task.end_poll(true));
    assert!(task.is_completed());
    assert_eq!(polls, 1001);
    assert_eq!(queue.len(), 0);
    // A completed task ignores wakeups.
    assert!(!notify(&mut queue, &mut task, 1));
    assert!(!task.begin_poll(true));
}

#[test]
fn unnotified_future_is_not_polled_again() {
    let mut task = SpawnTask::new();
    let mut queue = WorkQueue::new();
    assert!(task.begin_poll(false));
    assert!(!task.end_poll(false));
    assert!(!task.is_completed());
    assert_eq!(queue.len(), 0);
    // A wakeup while idle defers exactly one poll.
    assert!(notify(&mut queue, &mut task, 4));
    assert!(!notify(&mut queue, &mut task, 4));
    assert_eq!(queue.len(), 1);
    assert_eq!(queue.pop_work(), Some(UnfinishedWork { task: 4 }));
    assert_eq!(queue.pop_work(), None);
    assert!(task.begin_poll(true));
    assert!(!task.end_poll(true));
}

#[test]
fn work_queue_is_first_in_first_out() {
    let mut q = WorkQueue::new();
    q.push_work(UnfinishedWork { task: 1 });
    q.push_work(UnfinishedWork { task: 2 });
    assert_eq!(q.pop_work(), Some(UnfinishedWork { task: 1 }));
    assert_eq!(q.pop_work(), Some(UnfinishedWork { task: 2 }));
    assert_eq!(q.pop_work(), None);
}

#[test]
fn poller_actions() {
    let e = Event {
        event_type: EventType::OpComplete,
        success: true,
        tag: 3,
    };
    assert_eq!(next_action(&e), PollAction::Resolve { tag: 3, success: true });
    let e = Event {
        event_type: EventType::QueueTimeout,
        success: false,
        tag: 0,
    };
    assert_eq!(next_action(&e), PollAction::Wait);
    let e = Event {
        event_type: EventType::QueueShutdown,
        success: false,
        tag: 0,
    };
    assert_eq!(next_action(&e), PollAction::Stop);
}

#[test]
fn executor_keeps_its_queue() {
    let mut cq = CompletionQueue::new();
    assert_eq!(cq.borrow(), Ok(()));
    {
        let ex = Executor::new(&cq);
        assert_eq!(ex.cq().borrow(), Ok(()));
    }
    cq.begin_shutdown();
    let ex = Executor::new(&cq);
    assert_eq!(ex.cq().borrow(), Err(Error::QueueShutdown));
}

use grpc::executor::{poll, PollReport, TaskState};
use std::cell::Cell;

#[test]
fn poll_repolls_while_woken_then_completes() {
    let mut task = SpawnTask::new();
    let mut queue = WorkQueue::new();
    let calls = Cell::new(0usize);
    let k = 5;
    let f = |i: usize| {
        calls.set(calls.get() + 1);
        PollReport {
            ready: i == k,
            woken: i < k,
        }
    };
    let reports = poll(&mut task, &mut queue, 1, false, &f, 100);
    assert_eq!(reports.len(), k + 1);
    assert_eq!(calls.get(), k + 1);
    assert_eq!(task.current(), TaskState::Completed);
    assert_eq!(queue.len(), 0);
}

#[test]
fn poll_without_wakeup_polls_once() {
    let mut task = SpawnTask::new();
    let mut queue = WorkQueue::new();
    let f = |_: usize| PollReport {
        ready: false,
        woken: false,
    };
    assert_eq!(poll(&mut task, &mut queue, 2, false, &f, 100).len(), 1);
    assert_eq!(task.current(), TaskState::Idle);
    assert_eq!(queue.len(), 0);
}

#[test]
fn poll_defers_after_bound() {
    let mut task = SpawnTask::new();
    let mut queue = WorkQueue::new();
    let f = |_: usize| PollReport {
        ready: false,
        woken: true,
    };
    assert_eq!(poll(&mut task, &mut queue, 3, false, &f, 4).len(), 4);
    assert_eq!(task.current(), TaskState::Notified);
    assert_eq!(queue.pop_work(), Some(UnfinishedWork { task: 3 }));
    // The deferred poll starts from the woken state.
    assert_eq!(poll(&mut task, &mut queue, 3, true, &f, 1).len(), 1);
}

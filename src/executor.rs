use vstd::prelude::*;

use crate::cq::CompletionQueue;

verus! {

/// Where a spawned future stands.
#[derive(Clone, Copy, Debug, PartialEq, Eq, Structural)]
pub enum TaskState {
    /// Not scheduled.
    Idle,
    /// A wakeup arrived while idle, or while a poll was running.
    Notified,
    /// Being polled.
    Polling,
    /// Finished; never polled again.
    Completed,
}

/// A wakeup: the new state, and whether a poll must be scheduled.
pub open spec fn notify_step(s: TaskState) -> (TaskState, bool) {
    match s {
        TaskState::Idle => (TaskState::Notified, true),
        TaskState::Polling => (TaskState::Notified, false),
        _ => (s, false),
    }
}

/// The start of a poll; `woken` tells whether it was scheduled by a wakeup.
/// The second component tells whether the future is polled.
pub open spec fn begin_step(s: TaskState, woken: bool) -> (TaskState, bool) {
    if s == TaskState::Completed {
        (s, false)
    } else {
        (TaskState::Polling, true)
    }
}

/// The state a poll may start from.
pub open spec fn can_begin(s: TaskState, woken: bool) -> bool {
    s == TaskState::Completed || s == (if woken {
        TaskState::Notified
    } else {
        TaskState::Idle
    })
}

/// The end of a poll that returned `ready`. The second component tells
/// whether the future must be polled again at once.
pub open spec fn end_step(s: TaskState, ready: bool) -> (TaskState, bool) {
    if ready {
        (TaskState::Completed, false)
    } else if s == TaskState::Notified {
        (TaskState::Notified, true)
    } else {
        (TaskState::Idle, false)
    }
}

/// The bookkeeping of one spawned future.
pub struct SpawnTask {
    state: TaskState,
}

impl SpawnTask {
    pub closed spec fn state(&self) -> TaskState {
        self.state
    }

    /// A task, about to get its first poll.
    pub fn new() -> (r: SpawnTask)
        ensures
            r.state() == TaskState::Idle,
    {
        SpawnTask { state: TaskState::Idle }
    }

    /// Records a wakeup. Returns whether a poll must be scheduled: only when
    /// the task was idle. A wakeup during a poll makes that poll go round again.
    pub fn mark_notified(&mut self) -> (r: bool)
        ensures
            (final(self).state(), r) == notify_step(old(self).state()),
    {
        match self.state {
            TaskState::Idle => {
                self.state = TaskState::Notified;
                true
            },
            TaskState::Polling => {
                self.state = TaskState::Notified;
                false
            },
            _ => false,
        }
    }

    /// Starts a poll; returns `false` when the task has completed and must not
    /// be polled.
    pub fn begin_poll(&mut self, woken: bool) -> (r: bool)
        requires
            can_begin(old(self).state(), woken),
        ensures
            (final(self).state(), r) == begin_step(old(self).state(), woken),
    {
        if let TaskState::Completed = self.state {
            return false;
        }
        self.state = TaskState::Polling;
        true
    }

    /// Ends a poll whose future returned `ready`. Returns whether the future
    /// must be polled again, which is so when a wakeup came during the poll.
    pub fn end_poll(&mut self, ready: bool) -> (r: bool)
        requires
            old(self).state() == TaskState::Polling || old(self).state() == TaskState::Notified,
        ensures
            (final(self).state(), r) == end_step(old(self).state(), ready),
    {
        if ready {
            self.state = TaskState::Completed;
            return false;
        }
        match self.state {
            TaskState::Notified => true,
            _ => {
                self.state = TaskState::Idle;
                false
            },
        }
    }

    /// The current state.
    pub fn current(&self) -> (r: TaskState)
        ensures
            r == self.state(),
    {
        self.state
    }

    /// Whether the task has completed.
    pub fn is_completed(&self) -> (r: bool)
        ensures
            r == (self.state() == TaskState::Completed),
    {
        match self.state {
            TaskState::Completed => true,
            _ => false,
        }
    }
}

/// A poll that is woken while it runs, and does not finish, is followed at
/// once by another poll; a poll that is not woken while it runs, and does not
/// finish, leaves the task idle with nothing scheduled, and only a later
/// wakeup schedules the next poll. A second wakeup before that poll schedules
/// nothing more.
pub proof fn law_executor_liveness(s: TaskState, woken: bool)
    requires
        can_begin(s, woken),
        s != TaskState::Completed,
    ensures
        ({
            let p = begin_step(s, woken).0;
            let n = notify_step(p);
            let e = end_step(n.0, false);
            &&& !n.1
            &&& e.1
            &&& can_begin(e.0, true)
            &&& begin_step(e.0, true) == (TaskState::Polling, true)
        }),
        ({
            let p = begin_step(s, woken).0;
            let e = end_step(p, false);
            &&& e == (TaskState::Idle, false)
            &&& !can_begin(e.0, true)
            &&& notify_step(e.0) == (TaskState::Notified, true)
            &&& notify_step(notify_step(e.0).0) == (TaskState::Notified, false)
        }),
        end_step(begin_step(s, woken).0, true) == (TaskState::Completed, false),
        notify_step(TaskState::Completed) == (TaskState::Completed, false),
{
}

/// A poll deferred until the current dispatch is done, so that a future is
/// never polled from inside its own poll. Names the task by its id.
#[derive(Clone, Copy, Debug, PartialEq, Eq, Structural)]
pub struct UnfinishedWork {
    pub task: usize,
}

/// The deferred poll of a task whose wakeup came back through the queue: it
/// starts the poll, unless the task has completed meanwhile.
pub fn resolve(task: &mut SpawnTask, success: bool) -> (r: bool)
    requires
        success,
        can_begin(old(task).state(), true),
    ensures
        (final(task).state(), r) == begin_step(old(task).state(), true),
{
    task.begin_poll(true)
}

impl UnfinishedWork {
    /// Runs the deferred poll of `task`, the task this work names.
    pub fn finish(self, task: &mut SpawnTask) -> (r: bool)
        requires
            can_begin(old(task).state(), true),
        ensures
            (final(task).state(), r) == begin_step(old(task).state(), true),
    {
        resolve(task, true)
    }
}

/// Deferred polls, taken in the order they were pushed.
pub struct WorkQueue {
    items: Vec<UnfinishedWork>,
}

impl View for WorkQueue {
    type V = Seq<UnfinishedWork>;

    closed spec fn view(&self) -> Seq<UnfinishedWork> {
        self.items@
    }
}

impl WorkQueue {
    pub fn new() -> (r: WorkQueue)
        ensures
            r@ == Seq::<UnfinishedWork>::empty(),
    {
        WorkQueue { items: Vec::new() }
    }

    pub fn push_work(&mut self, w: UnfinishedWork)
        ensures
            final(self)@ == old(self)@.push(w),
    {
        self.items.push(w);
    }

    /// Takes the oldest deferred poll.
    pub fn pop_work(&mut self) -> (r: Option<UnfinishedWork>)
        ensures
            old(self)@.len() == 0 ==> r is None && final(self)@ == old(self)@,
            old(self)@.len() > 0 ==> r == Some(old(self)@[0]) && final(self)@ == old(self)@.drop_first(),
    {
        if self.items.len() == 0 {
            return None;
        }
        Some(self.items.remove(0))
    }

    pub fn len(&self) -> (r: usize)
        ensures
            r == self@.len(),
    {
        self.items.len()
    }
}

/// Delivers a wakeup to task `id`: when the task was idle, its next poll is
/// deferred onto `queue`; otherwise nothing is queued.
pub fn notify(queue: &mut WorkQueue, task: &mut SpawnTask, id: usize) -> (r: bool)
    ensures
        (final(task).state(), r) == notify_step(old(task).state()),
        r ==> final(queue)@ == old(queue)@.push(UnfinishedWork { task: id }),
        !r ==> final(queue)@ == old(queue)@,
{
    if task.mark_notified() {
        queue.push_work(UnfinishedWork { task: id });
        true
    } else {
        false
    }
}

/// What one poll of a future reported: whether it finished, and whether a
/// wakeup of its own task arrived while it ran.
#[derive(Clone, Copy, Debug, PartialEq, Eq, Structural)]
pub struct PollReport {
    pub ready: bool,
    pub woken: bool,
}

/// Drives task `id` from the thread of its queue. The future is polled
/// through `poll_future`, which gets the number of the poll; it is polled
/// again at once each time a wakeup arrived during its poll, and never
/// otherwise. After `max_polls` polls that were all woken, the next poll is
/// deferred onto `queue` instead. Returns the reports of the polls made.
pub fn poll<F: Fn(usize) -> PollReport>(
    task: &mut SpawnTask,
    queue: &mut WorkQueue,
    id: usize,
    woken: bool,
    poll_future: &F,
    max_polls: usize,
) -> (reports: Vec<PollReport>)
    requires
        can_begin(old(task).state(), woken),
        max_polls >= 1,
        forall|i: usize| poll_future.requires((i,)),
    ensures
        old(task).state() == TaskState::Completed ==> reports@.len() == 0 && final(task).state()
            == TaskState::Completed && final(queue)@ == old(queue)@,
        old(task).state() != TaskState::Completed ==> {
            let n = reports@.len();
            let last = reports@[n - 1];
            &&& 1 <= n <= max_polls
            &&& forall|i: int| 0 <= i < n ==> poll_future.ensures((i as usize,), #[trigger] reports@[i])
            &&& forall|i: int| 0 <= i < n - 1 ==> !(#[trigger] reports@[i]).ready && reports@[i].woken
            &&& last.ready ==> final(task).state() == TaskState::Completed && final(queue)@ == old(
                queue,
            )@
            &&& !last.ready && !last.woken ==> final(task).state() == TaskState::Idle && final(queue)@
                == old(queue)@
            &&& !last.ready && last.woken ==> n == max_polls && final(task).state()
                == TaskState::Notified && final(queue)@ == old(queue)@.push(UnfinishedWork { task: id })
        },
{
    let mut reports: Vec<PollReport> = Vec::new();
    if !task.begin_poll(woken) {
        return reports;
    }
    let mut n: usize = 0;
    loop
        invariant
            old(task).state() != TaskState::Completed,
            task.state() == TaskState::Polling,
            reports@.len() == n,
            n < max_polls,
            queue@ == old(queue)@,
            forall|i: usize| poll_future.requires((i,)),
            forall|i: int| 0 <= i < n ==> poll_future.ensures((i as usize,), #[trigger] reports@[i]),
            forall|i: int| 0 <= i < n ==> !(#[trigger] reports@[i]).ready && reports@[i].woken,
        decreases max_polls - n,
    {
        let p = poll_future(n);
        reports.push(p);
        n = n + 1;
        if p.woken {
            task.mark_notified();
        }
        let again = task.end_poll(p.ready);
        if !again {
            return reports;
        }
        if n == max_polls {
            queue.push_work(UnfinishedWork { task: id });
            return reports;
        }
        task.begin_poll(true);
    }
}

/// Runs futures on the thread of a completion queue.
pub struct Executor<'a> {
    cq: &'a CompletionQueue,
}

impl<'a> Executor<'a> {
    pub closed spec fn queue(&self) -> CompletionQueue {
        *self.cq
    }

    pub fn new(cq: &'a CompletionQueue) -> (r: Executor<'a>)
        ensures
            r.queue() == *cq,
    {
        Executor { cq }
    }

    pub fn cq(&self) -> (r: &CompletionQueue)
        ensures
            *r == self.queue(),
    {
        self.cq
    }
}

} // verus!

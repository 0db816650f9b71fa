//! Tasks that run elsewhere, and a pool that keeps a bounded number of them
//! running.
//!
//! The library decides which task starts when and which result counts; it
//! neither starts nor watches anything itself. A task holds a job of type `J`
//! until it starts and a handle of type `H` from then on. The caller says how
//! a job is launched (`Fn(J) -> H`) and how a handle is asked for the result
//! (`Fn(&H) -> Option<T>`).

use std::collections::VecDeque;
use vstd::prelude::*;

verus! {

/// One piece of work: waiting with its job, running behind its handle, or
/// done once its result was collected.
#[derive(Debug)]
pub struct Task<J, H> {
    handle: Option<H>,
    action: Option<J>,
    done: bool,
}

/// What a [`Task`] holds.
pub struct TaskState<J, H> {
    pub handle: Option<H>,
    pub action: Option<J>,
    pub done: bool,
}

/// The launcher accepts every job.
pub open spec fn launches_all<J, H, L: Fn(J) -> H>(launch: &L) -> bool {
    forall|job: J| #[trigger] call_requires(launch, (job,))
}

/// The receiver accepts every handle.
pub open spec fn receives_all<H, T, R: Fn(&H) -> Option<T>>(receive: &R) -> bool {
    forall|handle: &H| #[trigger] call_requires(receive, (handle,))
}

impl<J, H> TaskState<J, H> {
    /// A task that waits with its job.
    pub open spec fn waiting(job: J) -> TaskState<J, H> {
        TaskState { handle: None, action: Some(job), done: false }
    }

    /// `next` is the task after a start: the job, where one is still held,
    /// was handed to the launcher and its handle kept. A task without a job
    /// stays as it is.
    pub open spec fn starts<L: Fn(J) -> H>(self, launch: &L, next: TaskState<J, H>) -> bool {
        match self.action {
            Some(job) => {
                &&& next.action is None
                &&& next.done == self.done
                &&& next.handle matches Some(h) && call_ensures(launch, (job,), h)
            },
            None => next == self,
        }
    }

    /// `next` is the task after its handle was asked for the result and
    /// answered `out`: a result marks the task done.
    pub open spec fn collects<T, R: Fn(&H) -> Option<T>>(
        self,
        receive: &R,
        out: Option<T>,
        next: TaskState<J, H>,
    ) -> bool {
        &&& self.handle matches Some(h) && call_ensures(receive, (&h,), out)
        &&& next == if out is Some {
            TaskState { done: true, ..self }
        } else {
            self
        }
    }

    /// `next` is the task after a poll that gave `out`. A task that has not
    /// started, or is done, gives nothing and stays; any other asks its
    /// handle.
    pub open spec fn polls<T, R: Fn(&H) -> Option<T>>(
        self,
        receive: &R,
        out: Option<T>,
        next: TaskState<J, H>,
    ) -> bool {
        if self.handle is None || self.done {
            out is None && next == self
        } else {
            self.collects(receive, out, next)
        }
    }

    /// `next` is the task after a blocking poll that gave `out`. A task that
    /// has not started gives nothing and stays; any other asks its handle,
    /// done or not.
    pub open spec fn awaits<T, R: Fn(&H) -> Option<T>>(
        self,
        wait: &R,
        out: Option<T>,
        next: TaskState<J, H>,
    ) -> bool {
        if self.handle is None {
            out is None && next == self
        } else {
            self.collects(wait, out, next)
        }
    }
}

impl<J, H> View for Task<J, H> {
    type V = TaskState<J, H>;

    closed spec fn view(&self) -> TaskState<J, H> {
        TaskState { handle: self.handle, action: self.action, done: self.done }
    }
}

impl<J, H> Task<J, H> {
    /// A task that waits with its job.
    pub fn new(job: J) -> (t: Task<J, H>)
        ensures
            t@ == TaskState::<J, H>::waiting(job),
    {
        Task { action: Some(job), done: false, handle: None }
    }

    /// A task that is started at once.
    pub fn exec<L: Fn(J) -> H>(job: J, launch: &L) -> (t: Task<J, H>)
        requires
            launches_all::<J, H, L>(launch),
        ensures
            TaskState::<J, H>::waiting(job).starts(launch, t@),
    {
        let mut task = Task::new(job);
        task.start(launch);
        task
    }

    /// Hands the job to the launcher, unless that was done before.
    pub fn start<L: Fn(J) -> H>(&mut self, launch: &L)
        requires
            launches_all::<J, H, L>(launch),
        ensures
            old(self)@.starts(launch, final(self)@),
    {
        if let Some(job) = self.action.take() {
            let handle = launch(job);
            self.handle = Some(handle);
        }
    }

    pub fn started(&self) -> (b: bool)
        ensures
            b == self@.handle is Some,
    {
        self.handle.is_some()
    }

    pub fn done(&self) -> (b: bool)
        ensures
            b == self@.done,
    {
        self.done
    }

    /// Asks the handle for the result with a receiver that waits for it.
    pub fn poll_blocked<T, R: Fn(&H) -> Option<T>>(&mut self, wait: &R) -> (out: Option<T>)
        requires
            receives_all::<H, T, R>(wait),
        ensures
            old(self)@.awaits(wait, out, final(self)@),
    {
        let out = match &self.handle {
            Some(handle) => wait(handle),
            None => {
                return None;
            },
        };
        if out.is_some() {
            self.done = true;
        }
        out
    }

    /// Asks the handle for the result, unless the task is done.
    pub fn poll<T, R: Fn(&H) -> Option<T>>(&mut self, receive: &R) -> (out: Option<T>)
        requires
            receives_all::<H, T, R>(receive),
        ensures
            old(self)@.polls(receive, out, final(self)@),
    {
        let out = match &self.handle {
            Some(handle) => {
                if self.done {
                    return None;
                }
                receive(handle)
            },
            None => {
                return None;
            },
        };
        if out.is_some() {
            self.done = true;
        }
        out
    }
}

/// The tasks that are not done, in their order.
pub open spec fn undone<J, H>(tasks: Seq<Task<J, H>>) -> Seq<Task<J, H>> {
    tasks.filter(|t: Task<J, H>| !t@.done)
}

fn retain_undone<J, H>(tasks: Vec<Task<J, H>>) -> (kept: Vec<Task<J, H>>)
    ensures
        kept@ == undone(tasks@),
{
    let mut kept: Vec<Task<J, H>> = Vec::new();
    proof {
        reveal(Seq::filter);
    }
    for task in it: tasks
        invariant
            kept@ == undone(tasks@.take(it.index() as int)),
    {
        proof {
            reveal(Seq::filter);
            let before = tasks@.take(it.index() as int);
            let after = tasks@.take(it.index() as int + 1);
            assert(after.drop_last() =~= before);
            assert(after.last() == task);
        }
        if !task.done() {
            kept.push(task);
        }
    }
    assert(tasks@.take(tasks@.len() as int) =~= tasks@);
    kept
}

/// Replacing one task changes the number of tasks that are not done by what
/// the old and the new task count for.
proof fn lemma_undone_update<J, H>(tasks: Seq<Task<J, H>>, i: int, t: Task<J, H>)
    requires
        0 <= i < tasks.len(),
    ensures
        undone(tasks.update(i, t)).len() == undone(tasks).len() - (if tasks[i]@.done {
            0int
        } else {
            1int
        }) + (if t@.done {
            0int
        } else {
            1int
        }),
    decreases tasks.len(),
{
    reveal(Seq::filter);
    let changed = tasks.update(i, t);
    if i == tasks.len() - 1 {
        assert(changed.drop_last() =~= tasks.drop_last());
    } else {
        lemma_undone_update(tasks.drop_last(), i, t);
        assert(changed.drop_last() =~= tasks.drop_last().update(i, t));
    }
}

/// A pool that keeps at most `max` tasks running and the others waiting in
/// line.
#[derive(Debug)]
pub struct TaskPool<J, H> {
    queue: VecDeque<Task<J, H>>,
    active: Vec<Task<J, H>>,
    max: u32,
    completed: usize,
    total: usize,
}

/// What a [`TaskPool`] holds.
pub struct PoolState<J, H> {
    /// The tasks that wait, the next to start first.
    pub queue: Seq<Task<J, H>>,
    /// The tasks that were started and not yet cleared away.
    pub active: Seq<Task<J, H>>,
    pub max: nat,
    /// The number of results collected so far.
    pub completed: nat,
    /// The number of tasks handed in so far.
    pub total: nat,
}

impl<J, H> PoolState<J, H> {
    /// No more tasks are active than allowed, and the tasks accounted for
    /// (collected, still to finish, or waiting) were all handed in.
    pub open spec fn wf(self) -> bool {
        &&& self.active.len() <= self.max
        &&& self.completed + undone(self.active).len() + self.queue.len() <= self.total
    }

    /// The number of waiting tasks that a refill starts: as many as there is
    /// room for once the done tasks are cleared away.
    pub open spec fn admitted(self) -> int {
        let room = self.max - undone(self.active).len();
        if room <= self.queue.len() {
            room
        } else {
            self.queue.len() as int
        }
    }

    /// `next` is the pool after a refill: the done tasks left the active
    /// list, and the first [`admitted`](Self::admitted) tasks of the line
    /// were started and moved to its end, in their order.
    pub open spec fn adjusts<L: Fn(J) -> H>(self, launch: &L, next: PoolState<J, H>) -> bool {
        let kept = undone(self.active);
        let n = self.admitted();
        &&& next.max == self.max
        &&& next.completed == self.completed
        &&& next.total == self.total
        &&& next.queue == self.queue.skip(n)
        &&& next.active.len() == kept.len() + n
        &&& forall|i: int| 0 <= i < kept.len() ==> #[trigger] next.active[i] == kept[i]
        &&& forall|i: int|
            0 <= i < n ==> (#[trigger] self.queue[i])@.starts(launch, next.active[kept.len() + i]@)
    }

    /// `next` is the pool after `job` was handed in: a task that waits with
    /// the job joined the line, the pool was refilled, and the job counted.
    pub open spec fn execs<L: Fn(J) -> H>(self, job: J, launch: &L, next: PoolState<J, H>) -> bool {
        exists|t: Task<J, H>|
            {
                &&& t@ == TaskState::<J, H>::waiting(job)
                &&& #[trigger] (PoolState { queue: self.queue.push(t), ..self }).adjusts(
                    launch,
                    PoolState { total: self.total, ..next },
                )
                &&& next.total == self.total + 1
            }
    }

    /// `polled` are the active tasks after each was polled once, and `outs`
    /// what each poll gave.
    pub open spec fn polls_each<T, R: Fn(&H) -> Option<T>>(
        self,
        receive: &R,
        outs: Seq<Option<T>>,
        polled: Seq<Task<J, H>>,
    ) -> bool {
        &&& polled.len() == self.active.len()
        &&& outs.len() == self.active.len()
        &&& forall|i: int|
            0 <= i < self.active.len() ==> (#[trigger] self.active[i])@.polls(
                receive,
                outs[i],
                polled[i]@,
            )
    }

    /// `next` is the pool after a poll that gave `basket`: every active task
    /// was polled in turn, the results were gathered in that order and
    /// counted, and the pool was refilled.
    pub open spec fn polls<T, R: Fn(&H) -> Option<T>, L: Fn(J) -> H>(
        self,
        receive: &R,
        launch: &L,
        basket: Seq<T>,
        next: PoolState<J, H>,
    ) -> bool {
        exists|polled: Seq<Task<J, H>>, outs: Seq<Option<T>>|
            {
                &&& #[trigger] self.polls_each(receive, outs, polled)
                &&& basket == outs.filter_map(|o: Option<T>| o)
                &&& (PoolState {
                    active: polled,
                    completed: self.completed + basket.len(),
                    ..self
                }).adjusts(launch, next)
            }
    }
}

impl<J, H> View for TaskPool<J, H> {
    type V = PoolState<J, H>;

    closed spec fn view(&self) -> PoolState<J, H> {
        PoolState {
            queue: self.queue@,
            active: self.active@,
            max: self.max as nat,
            completed: self.completed as nat,
            total: self.total as nat,
        }
    }
}

impl<J, H> TaskPool<J, H> {
    /// An empty pool that runs at most `max` tasks at a time.
    pub fn new(max: u32) -> (p: TaskPool<J, H>)
        ensures
            p@ == (PoolState::<J, H> {
                queue: Seq::empty(),
                active: Seq::empty(),
                max: max as nat,
                completed: 0,
                total: 0,
            }),
            p@.wf(),
    {
        let p = TaskPool { queue: VecDeque::new(), active: Vec::new(), max, completed: 0, total: 0 };
        proof {
            reveal(Seq::filter);
        }
        p
    }

    /// Hands a job in: it starts at once if there is room, else it waits.
    pub fn exec<L: Fn(J) -> H>(&mut self, job: J, launch: &L)
        requires
            launches_all::<J, H, L>(launch),
            old(self)@.wf(),
            old(self)@.total < usize::MAX,
        ensures
            old(self)@.execs(job, launch, final(self)@),
            final(self)@.wf(),
    {
        let task = Task::new(job);
        let ghost joined = PoolState { queue: old(self)@.queue.push(task), ..old(self)@ };
        self.queue.push_back(task);
        self.adjust(launch);
        self.total += 1;
        assert(joined.adjusts(launch, PoolState { total: old(self)@.total, ..self@ }));
    }

    /// Clears the done tasks away and starts waiting ones while there is
    /// room.
    fn adjust<L: Fn(J) -> H>(&mut self, launch: &L)
        requires
            launches_all::<J, H, L>(launch),
            old(self)@.active.len() <= old(self)@.max,
        ensures
            old(self)@.adjusts(launch, final(self)@),
            final(self)@.active.len() <= final(self)@.max,
            final(self)@.completed + undone(final(self)@.active).len() + final(self)@.queue.len()
                <= old(self)@.completed + undone(old(self)@.active).len() + old(self)@.queue.len(),
    {
        let mut stale: Vec<Task<J, H>> = Vec::new();
        std::mem::swap(&mut self.active, &mut stale);
        self.active = retain_undone(stale);
        let ghost kept = self.active@;
        let ghost line = self.queue@;
        proof {
            old(self)@.active.lemma_filter_len(|t: Task<J, H>| !t@.done);
        }
        let room: usize = self.max as usize - self.active.len();
        let mut i: usize = 0;
        while i < room
            invariant
                i <= room,
                launches_all::<J, H, L>(launch),
                kept.len() + room == self.max,
                self.max == old(self).max,
                self.completed == old(self).completed,
                self.total == old(self).total,
                self.queue@ == line.skip(
                    if i <= line.len() {
                        i as int
                    } else {
                        line.len() as int
                    },
                ),
                self.active@.len() == kept.len() + if i <= line.len() {
                    i as int
                } else {
                    line.len() as int
                },
                forall|k: int| 0 <= k < kept.len() ==> #[trigger] self.active@[k] == kept[k],
                forall|k: int|
                    0 <= k < i && k < line.len() ==> (#[trigger] line[k])@.starts(
                        launch,
                        self.active@[kept.len() + k]@,
                    ),
            decreases room - i,
        {
            if let Some(task) = self.queue.pop_front() {
                let mut task = task;
                task.start(launch);
                self.active.push(task);
                assert(self.queue@ =~= line.skip(i as int + 1));
            } else {
                assert(self.queue@ =~= line.skip(line.len() as int));
            }
            i += 1;
        }
        proof {
            self.active@.lemma_filter_len(|t: Task<J, H>| !t@.done);
        }
    }

    /// Polls every active task and hands out the results that came in, then
    /// refills the pool.
    pub fn poll<T, R: Fn(&H) -> Option<T>, L: Fn(J) -> H>(&mut self, receive: &R, launch: &L) -> (basket:
        Vec<T>)
        requires
            receives_all::<H, T, R>(receive),
            launches_all::<J, H, L>(launch),
            old(self)@.wf(),
        ensures
            old(self)@.polls(receive, launch, basket@, final(self)@),
            final(self)@.wf(),
    {
        let mut basket: Vec<T> = Vec::new();
        let ghost mut outs: Seq<Option<T>> = Seq::empty();
        let n: usize = self.active.len();
        let mut i: usize = 0;
        while i < n
            invariant
                i <= n,
                receives_all::<H, T, R>(receive),
                n == self.active@.len() == old(self)@.active.len(),
                self.max == old(self).max,
                self.total == old(self).total,
                self.queue@ == old(self)@.queue,
                self@.wf(),
                outs.len() == i,
                basket@ == outs.filter_map(|o: Option<T>| o),
                self.completed == old(self).completed + basket@.len(),
                forall|k: int|
                    0 <= k < i ==> (#[trigger] old(self)@.active[k])@.polls(
                        receive,
                        outs[k],
                        self.active@[k]@,
                    ),
                forall|k: int| i <= k < n ==> #[trigger] self.active@[k] == old(self)@.active[k],
            decreases n - i,
        {
            let ghost before = self.active@;
            let out = self.active[i].poll(receive);
            proof {
                assert(self.active@ =~= before.update(i as int, self.active@[i as int]));
                lemma_undone_update(before, i as int, self.active@[i as int]);
                assert(outs.push(out).drop_last() =~= outs);
                outs = outs.push(out);
            }
            if let Some(data) = out {
                self.completed += 1;
                basket.push(data);
            }
            i += 1;
        }
        let ghost polled = self.active@;
        let ghost mid = self@;
        self.adjust(launch);
        proof {
            assert(mid == (PoolState {
                active: polled,
                completed: old(self)@.completed + basket@.len(),
                ..old(self)@
            }));
            assert(old(self)@.polls_each(receive, outs, polled));
        }
        basket
    }

    /// Drops the tasks that wait.
    pub fn clear_queue(&mut self)
        requires
            old(self)@.wf(),
        ensures
            final(self)@ == (PoolState { queue: Seq::empty(), ..old(self)@ }),
            final(self)@.wf(),
    {
        self.queue.clear();
    }

    pub fn queue_count(&self) -> (n: usize)
        ensures
            n == self@.queue.len(),
    {
        self.queue.len()
    }

    pub fn active_count(&self) -> (n: usize)
        ensures
            n == self@.active.len(),
    {
        self.active.len()
    }

    pub fn completed(&self) -> (n: usize)
        ensures
            n == self@.completed,
    {
        self.completed
    }

    pub fn total(&self) -> (n: usize)
        ensures
            n == self@.total,
    {
        self.total
    }
}

} // verus!

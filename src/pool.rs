use crate::queue::{Received, WorkQueue};
use vstd::prelude::*;

verus! {

/// Where a worker's loop stands.
#[derive(Debug, Clone, Copy, PartialEq, Eq, Structural)]
pub enum WorkerState {
    /// Waiting for, or about to ask for, a task.
    Idle,
    /// Running a task it was handed.
    Busy,
    /// Saw the end of the stream and left its loop.
    Exited,
}

/// The errors of the pool's lifecycle.
#[derive(Debug, PartialEq, Eq)]
pub enum PoolError {
    /// A pool needs at least one worker.
    InvalidPoolSize,
    /// A task was submitted after shutdown began; it will never run.
    PoolShuttingDown,
    /// The workers, by id, whose loop ended abnormally, in id order.
    WorkerJoinFailed(Vec<usize>),
}

/// Which way a worker's request for work goes.
#[derive(Debug, Clone, Copy, PartialEq, Eq, Structural)]
pub enum StepKind {
    /// A queued task is handed out.
    Run,
    /// Nothing is queued and the pool is open.
    Wait,
    /// The pool is shut down and drained.
    Exit,
}

/// What a worker is told to do next.
pub enum WorkerStep<T> {
    /// Run the enclosed job; `finish_task` then makes the worker idle again.
    Run(T),
    /// Nothing to do yet: wait until a task is submitted or shutdown begins.
    Wait,
    /// The pool is shut down and drained: leave the loop.
    Exit,
}

/// The abstract state of a pool.
pub struct PoolModel<T> {
    /// Tasks accepted and not yet handed to a worker, oldest first.
    pub pending: Seq<T>,
    /// Whether shutdown has begun.
    pub closed: bool,
    /// Each worker's state, indexed by worker id.
    pub workers: Seq<WorkerState>,
    /// Every task ever accepted, in order of acceptance.
    pub submitted: Seq<T>,
    /// Every task ever handed to a worker, in order of hand-out.
    pub delivered: Seq<T>,
}

/// The number of busy workers.
pub open spec fn busy_count(ws: Seq<WorkerState>) -> nat
    decreases ws.len(),
{
    if ws.len() == 0 {
        0
    } else {
        busy_count(ws.drop_last()) + if ws.last() == WorkerState::Busy { 1nat } else { 0nat }
    }
}

/// The number of workers that have not left their loop.
pub open spec fn live_count(ws: Seq<WorkerState>) -> nat
    decreases ws.len(),
{
    if ws.len() == 0 {
        0
    } else {
        live_count(ws.drop_last()) + if ws.last() != WorkerState::Exited { 1nat } else { 0nat }
    }
}

impl<T> PoolModel<T> {
    /// A fresh pool of `size` idle workers.
    pub open spec fn initial(size: nat) -> PoolModel<T> {
        PoolModel {
            pending: Seq::empty(),
            closed: false,
            workers: Seq::new(size, |i: int| WorkerState::Idle),
            submitted: Seq::empty(),
            delivered: Seq::empty(),
        }
    }

    /// The pool's invariant: at least one worker; every accepted task is either
    /// delivered or pending, in acceptance order; and a worker exits only once
    /// the pool is shut down and drained.
    pub open spec fn wf(self) -> bool {
        &&& self.workers.len() >= 1
        &&& self.delivered + self.pending == self.submitted
        &&& forall|i: int|
            0 <= i < self.workers.len() && #[trigger] self.workers[i] == WorkerState::Exited
                ==> self.closed && self.pending.len() == 0
    }

    pub open spec fn is_idle(self, id: int) -> bool {
        0 <= id < self.workers.len() && self.workers[id] == WorkerState::Idle
    }

    pub open spec fn is_busy(self, id: int) -> bool {
        0 <= id < self.workers.len() && self.workers[id] == WorkerState::Busy
    }

    pub open spec fn all_exited(self) -> bool {
        forall|i: int| 0 <= i < self.workers.len() ==> #[trigger] self.workers[i] == WorkerState::Exited
    }

    /// Whether a submission is accepted.
    pub open spec fn accepts(self) -> bool {
        !self.closed
    }

    /// The state after submitting `task`; unchanged when it is refused.
    pub open spec fn submit(self, task: T) -> PoolModel<T> {
        if self.closed {
            self
        } else {
            PoolModel {
                pending: self.pending.push(task),
                submitted: self.submitted.push(task),
                ..self
            }
        }
    }

    /// The state once shutdown has begun.
    pub open spec fn shutdown(self) -> PoolModel<T> {
        PoolModel { closed: true, ..self }
    }

    /// Which way an idle worker's request for work goes: queued tasks are
    /// handed out even after shutdown began, and only a drained, shut-down
    /// pool tells workers to exit.
    pub open spec fn step_kind(self) -> StepKind {
        if self.pending.len() > 0 {
            StepKind::Run
        } else if self.closed {
            StepKind::Exit
        } else {
            StepKind::Wait
        }
    }

    /// The state after worker `id` asked for work.
    pub open spec fn step(self, id: int) -> PoolModel<T> {
        match self.step_kind() {
            StepKind::Run => PoolModel {
                pending: self.pending.drop_first(),
                delivered: self.delivered.push(self.pending[0]),
                workers: self.workers.update(id, WorkerState::Busy),
                ..self
            },
            StepKind::Exit => PoolModel {
                workers: self.workers.update(id, WorkerState::Exited),
                ..self
            },
            StepKind::Wait => self,
        }
    }

    /// The state after worker `id` came back from its task, however the task
    /// ended.
    pub open spec fn finish(self, id: int) -> PoolModel<T> {
        PoolModel { workers: self.workers.update(id, WorkerState::Idle), ..self }
    }

    /// What is left before shutdown can complete: tasks to hand out and
    /// workers to leave their loop.
    pub open spec fn remaining(self) -> nat {
        self.pending.len() + live_count(self.workers)
    }
}

/// The pool's bookkeeping: the shared queue and each worker's state. Running
/// the workers and guarding this value with a lock is the caller's part.
pub struct WorkerPool<T> {
    queue: WorkQueue<T>,
    workers: Vec<WorkerState>,
    submitted: Ghost<Seq<T>>,
    delivered: Ghost<Seq<T>>,
}

impl<T> View for WorkerPool<T> {
    type V = PoolModel<T>;

    closed spec fn view(&self) -> PoolModel<T> {
        PoolModel {
            pending: self.queue.pending(),
            closed: self.queue.is_closed(),
            workers: self.workers@,
            submitted: self.submitted@,
            delivered: self.delivered@,
        }
    }
}

impl<T> WorkerPool<T> {
    pub open spec fn wf(&self) -> bool {
        self@.wf()
    }

    /// A pool of `size` idle workers, or `InvalidPoolSize` when `size` is 0.
    pub fn new(size: usize) -> (r: Result<WorkerPool<T>, PoolError>)
        ensures
            r is Err <==> size == 0,
            r is Err ==> r == Err::<WorkerPool<T>, PoolError>(PoolError::InvalidPoolSize),
            r matches Ok(p) ==> p.wf() && p@ == PoolModel::<T>::initial(size as nat),
    {
        if size == 0 {
            return Err(PoolError::InvalidPoolSize);
        }
        let mut workers: Vec<WorkerState> = Vec::with_capacity(size);
        let mut i: usize = 0;
        while i < size
            invariant
                i <= size,
                workers@ == Seq::new(i as nat, |j: int| WorkerState::Idle),
            decreases size - i,
        {
            workers.push(WorkerState::Idle);
            i = i + 1;
            assert(workers@ =~= Seq::new(i as nat, |j: int| WorkerState::Idle));
        }
        let p = WorkerPool {
            queue: WorkQueue::new(),
            workers,
            submitted: Ghost(Seq::empty()),
            delivered: Ghost(Seq::empty()),
        };
        assert(p@.delivered + p@.pending =~= p@.submitted);
        assert(p@ == PoolModel::<T>::initial(size as nat));
        Ok(p)
    }

    /// The number of workers, fixed for the pool's lifetime.
    pub fn size(&self) -> (r: usize)
        ensures
            r == self@.workers.len(),
    {
        self.workers.len()
    }

    /// Queues `task` for some worker, or refuses it with `PoolShuttingDown`
    /// once shutdown has begun. Never waits for a worker.
    pub fn execute(&mut self, task: T) -> (r: Result<(), PoolError>)
        requires
            old(self).wf(),
        ensures
            final(self).wf(),
            r is Ok <==> old(self)@.accepts(),
            r is Err ==> r == Err::<(), PoolError>(PoolError::PoolShuttingDown),
            final(self)@ == old(self)@.submit(task),
    {
        let ghost t = task;
        match self.queue.submit(task) {
            Ok(()) => {
                self.submitted = Ghost(self.submitted@.push(t));
                assert(self@.delivered + self@.pending =~= self@.submitted);
                Ok(())
            },
            Err(_) => Err(PoolError::PoolShuttingDown),
        }
    }

    /// Begins shutdown: later submissions are refused, queued tasks still run.
    pub fn shutdown(&mut self)
        requires
            old(self).wf(),
        ensures
            final(self).wf(),
            final(self)@ == old(self)@.shutdown(),
    {
        self.queue.close();
    }

    /// The state of worker `id`, or `None` when the pool has no such worker.
    pub fn worker_state(&self, id: usize) -> (r: Option<WorkerState>)
        ensures
            id < self@.workers.len() ==> r == Some(self@.workers[id as int]),
            id >= self@.workers.len() ==> r is None,
    {
        if id < self.workers.len() {
            Some(self.workers[id])
        } else {
            None
        }
    }

    /// The number of tasks queued and not yet handed to a worker.
    pub fn pending_len(&self) -> (r: usize)
        ensures
            r == self@.pending.len(),
    {
        self.queue.len()
    }

    /// Whether shutdown has begun.
    pub fn is_shutting_down(&self) -> (r: bool)
        ensures
            r == self@.closed,
    {
        self.queue.closed()
    }

    /// The request for work of idle worker `id`.
    pub fn next_task(&mut self, id: usize) -> (r: WorkerStep<T>)
        requires
            old(self).wf(),
            old(self)@.is_idle(id as int),
        ensures
            final(self).wf(),
            final(self)@ == old(self)@.step(id as int),
            old(self)@.step_kind() == StepKind::Run <==> r is Run,
            old(self)@.step_kind() == StepKind::Wait <==> r is Wait,
            old(self)@.step_kind() == StepKind::Exit <==> r is Exit,
            r matches WorkerStep::Run(t) ==> t == old(self)@.pending[0],
    {
        match self.queue.receive() {
            Received::Task(t) => {
                self.workers[id] = WorkerState::Busy;
                self.delivered = Ghost(self.delivered@.push(t));
                assert(self@.delivered + self@.pending =~= self@.submitted) by {
                    let o = old(self)@;
                    assert(o.pending =~= seq![o.pending[0]] + o.pending.drop_first());
                    assert(o.delivered + o.pending =~= o.delivered.push(o.pending[0])
                        + o.pending.drop_first());
                }
                assert(self@ == old(self)@.step(id as int));
                WorkerStep::Run(t)
            },
            Received::Empty => WorkerStep::Wait,
            Received::EndOfStream => {
                self.workers[id] = WorkerState::Exited;
                assert(self@ == old(self)@.step(id as int));
                WorkerStep::Exit
            },
        }
    }

    /// Worker `id` is back from its task, whether the task completed or
    /// failed: it is idle again and keeps serving.
    pub fn finish_task(&mut self, id: usize)
        requires
            old(self).wf(),
            old(self)@.is_busy(id as int),
        ensures
            final(self).wf(),
            final(self)@ == old(self)@.finish(id as int),
    {
        self.workers[id] = WorkerState::Idle;
        assert(self@ == old(self)@.finish(id as int));
    }
}

/// The ids of the workers whose join failed, in id order.
pub open spec fn failed_ids(join_ok: Seq<bool>) -> Seq<usize>
    decreases join_ok.len(),
{
    if join_ok.len() == 0 {
        Seq::empty()
    } else {
        let rest = failed_ids(join_ok.drop_last());
        if join_ok.last() {
            rest
        } else {
            rest.push((join_ok.len() - 1) as usize)
        }
    }
}

/// Aggregates the outcome of joining every worker, `join_ok[id]` telling
/// whether worker `id` was joined cleanly: `Ok` when all were, else one
/// `WorkerJoinFailed` that lists every failed worker.
pub fn join_report(join_ok: &Vec<bool>) -> (r: Result<(), PoolError>)
    ensures
        r is Ok <==> failed_ids(join_ok@).len() == 0,
        r is Ok <==> forall|i: int| 0 <= i < join_ok@.len() ==> #[trigger] join_ok@[i],
        r matches Err(e) ==> e matches PoolError::WorkerJoinFailed(ids) && ids@ == failed_ids(join_ok@),
{
    let mut ids: Vec<usize> = Vec::new();
    let mut i: usize = 0;
    while i < join_ok.len()
        invariant
            i <= join_ok@.len(),
            ids@ == failed_ids(join_ok@.subrange(0, i as int)),
            ids@.len() == 0 <==> forall|k: int| 0 <= k < i ==> #[trigger] join_ok@[k],
        decreases join_ok@.len() - i,
    {
        assert(join_ok@.subrange(0, i + 1).drop_last() =~= join_ok@.subrange(0, i as int));
        if !join_ok[i] {
            ids.push(i);
        }
        i = i + 1;
    }
    assert(join_ok@.subrange(0, join_ok@.len() as int) =~= join_ok@);
    if ids.len() == 0 {
        Ok(())
    } else {
        Err(PoolError::WorkerJoinFailed(ids))
    }
}

} // verus!

//! What the pool promises, proved over its model.
use crate::pool::{busy_count, live_count, PoolModel, StepKind, WorkerState};
use vstd::prelude::*;

verus! {

/// Submitting a task keeps the pool's invariant.
pub proof fn lemma_submit_keeps_wf<T>(m: PoolModel<T>, task: T)
    requires
        m.wf(),
    ensures
        m.submit(task).wf(),
{
    if !m.closed {
        assert(m.delivered + m.pending.push(task) =~= (m.delivered + m.pending).push(task));
    }
}

/// Beginning shutdown keeps the pool's invariant.
pub proof fn lemma_shutdown_keeps_wf<T>(m: PoolModel<T>)
    requires
        m.wf(),
    ensures
        m.shutdown().wf(),
{
}

/// An idle worker asking for work keeps the pool's invariant.
pub proof fn lemma_step_keeps_wf<T>(m: PoolModel<T>, id: int)
    requires
        m.wf(),
        m.is_idle(id),
    ensures
        m.step(id).wf(),
{
    if m.step_kind() == StepKind::Run {
        assert(m.pending =~= seq![m.pending[0]] + m.pending.drop_first());
        assert(m.delivered + m.pending =~= m.delivered.push(m.pending[0]) + m.pending.drop_first());
    }
}

/// A busy worker coming back from its task keeps the pool's invariant.
pub proof fn lemma_finish_keeps_wf<T>(m: PoolModel<T>, id: int)
    requires
        m.wf(),
        m.is_busy(id),
    ensures
        m.finish(id).wf(),
{
}

/// No more tasks run at once than the pool has workers.
pub proof fn lemma_busy_at_most_size(ws: Seq<WorkerState>)
    ensures
        busy_count(ws) <= ws.len(),
    decreases ws.len(),
{
    if ws.len() > 0 {
        lemma_busy_at_most_size(ws.drop_last());
    }
}

/// Tasks are handed out in the order they were submitted, each at most once:
/// what was delivered is a prefix of what was submitted.
pub proof fn lemma_delivery_follows_submission<T>(m: PoolModel<T>)
    requires
        m.wf(),
    ensures
        m.delivered.len() <= m.submitted.len(),
        m.delivered == m.submitted.subrange(0, m.delivered.len() as int),
        m.pending == m.submitted.subrange(m.delivered.len() as int, m.submitted.len() as int),
{
    assert(m.delivered =~= (m.delivered + m.pending).subrange(0, m.delivered.len() as int));
    assert(m.pending =~= (m.delivered + m.pending).subrange(
        m.delivered.len() as int,
        m.submitted.len() as int,
    ));
}

/// Of two submitted tasks, the earlier is handed out first: if the later one
/// has been delivered, so has the earlier, at an earlier position.
pub proof fn lemma_earlier_delivered_first<T>(m: PoolModel<T>, a: int, b: int)
    requires
        m.wf(),
        0 <= a < b < m.submitted.len(),
        b < m.delivered.len(),
    ensures
        m.delivered[a] == m.submitted[a],
        m.delivered[b] == m.submitted[b],
{
    lemma_delivery_follows_submission(m);
}

/// Once a worker has exited, every submitted task has been handed out, each
/// exactly once, in submission order.
pub proof fn lemma_exit_after_all_delivered<T>(m: PoolModel<T>, id: int)
    requires
        m.wf(),
        0 <= id < m.workers.len(),
        m.workers[id] == WorkerState::Exited,
    ensures
        m.pending.len() == 0,
        m.delivered == m.submitted,
{
    assert(m.delivered + m.pending =~= m.delivered);
}

/// When every worker has exited, every submitted task was handed out exactly
/// once.
pub proof fn lemma_all_exited_all_delivered<T>(m: PoolModel<T>)
    requires
        m.wf(),
        m.all_exited(),
    ensures
        m.delivered == m.submitted,
{
    lemma_exit_after_all_delivered(m, 0);
}

/// A queued task never waits beside an idle worker: the next idle worker to
/// ask is handed the oldest queued task and becomes busy.
pub proof fn lemma_queued_task_taken<T>(m: PoolModel<T>, id: int)
    requires
        m.wf(),
        m.is_idle(id),
        m.pending.len() > 0,
    ensures
        m.step_kind() == StepKind::Run,
        m.step(id).is_busy(id),
        m.step(id).delivered == m.delivered.push(m.pending[0]),
{
}

/// Shutdown is permanent and refuses every later task: after it, a submission
/// is rejected and leaves the pool as it was, so the task never runs; and no
/// transition reopens the pool.
pub proof fn lemma_shutdown_refuses<T>(m: PoolModel<T>, task: T, id: int)
    ensures
        !m.shutdown().accepts(),
        m.shutdown().submit(task) == m.shutdown(),
        m.shutdown().step(id).closed,
        m.shutdown().finish(id).closed,
        m.closed ==> m.submit(task) == m,
        m.closed ==> m.step(id).closed && m.finish(id).closed && m.submit(task).closed,
{
}

proof fn lemma_live_count_update(ws: Seq<WorkerState>, id: int, s: WorkerState)
    requires
        0 <= id < ws.len(),
    ensures
        ws[id] != WorkerState::Exited && s == WorkerState::Exited ==> live_count(ws.update(id, s))
            + 1 == live_count(ws),
        (ws[id] != WorkerState::Exited) == (s != WorkerState::Exited) ==> live_count(
            ws.update(id, s),
        ) == live_count(ws),
    decreases ws.len(),
{
    let u = ws.update(id, s);
    if id < ws.len() - 1 {
        assert(u.drop_last() =~= ws.drop_last().update(id, s));
        lemma_live_count_update(ws.drop_last(), id, s);
    } else {
        assert(u.drop_last() =~= ws.drop_last());
    }
}

proof fn lemma_live_count_zero(ws: Seq<WorkerState>)
    ensures
        live_count(ws) == 0 <==> forall|i: int|
            0 <= i < ws.len() ==> #[trigger] ws[i] == WorkerState::Exited,
    decreases ws.len(),
{
    if ws.len() > 0 {
        lemma_live_count_zero(ws.drop_last());
        if live_count(ws) == 0 {
            assert forall|i: int| 0 <= i < ws.len() implies #[trigger] ws[i]
                == WorkerState::Exited by {
                if i < ws.len() - 1 {
                    assert(ws.drop_last()[i] == ws[i]);
                }
            }
        }
        if forall|i: int| 0 <= i < ws.len() ==> #[trigger] ws[i] == WorkerState::Exited {
            assert forall|i: int| 0 <= i < ws.drop_last().len() implies #[trigger] ws.drop_last()[i]
                == WorkerState::Exited by {
                assert(ws[i] == WorkerState::Exited);
            }
        }
    }
}

/// Nothing remains to be done exactly when every worker has exited and the
/// queue is drained; every submitted task has then been handed out.
pub proof fn lemma_nothing_remaining_all_exited<T>(m: PoolModel<T>)
    requires
        m.wf(),
    ensures
        m.remaining() == 0 <==> m.all_exited() && m.pending.len() == 0,
        m.remaining() == 0 ==> m.delivered == m.submitted,
{
    lemma_live_count_zero(m.workers);
    if m.remaining() == 0 {
        lemma_all_exited_all_delivered(m);
    }
}

/// Shutdown cannot deadlock. Once it has begun, no idle worker is told to
/// wait, and each request for work strictly lowers what remains (tasks queued
/// plus workers still in their loop), while a worker coming back from a task
/// leaves it unchanged. So, as long as each task ends, every worker exits.
pub proof fn lemma_shutdown_progresses<T>(m: PoolModel<T>, id: int)
    requires
        m.wf(),
        m.closed,
        m.is_idle(id),
    ensures
        m.step_kind() != StepKind::Wait,
        m.step(id).remaining() < m.remaining(),
        m.step(id).is_busy(id) || m.step(id).workers[id] == WorkerState::Exited,
{
    if m.step_kind() == StepKind::Run {
        lemma_live_count_update(m.workers, id, WorkerState::Busy);
    } else {
        lemma_live_count_update(m.workers, id, WorkerState::Exited);
    }
}

/// A worker coming back from a task changes nothing that remains to be done.
pub proof fn lemma_finish_keeps_remaining<T>(m: PoolModel<T>, id: int)
    requires
        m.is_busy(id),
    ensures
        m.finish(id).remaining() == m.remaining(),
{
    lemma_live_count_update(m.workers, id, WorkerState::Idle);
}

/// A task's failure is contained: whatever way its task ended, the worker is
/// idle again afterwards and is handed the next queued task.
pub proof fn lemma_worker_survives_task<T>(m: PoolModel<T>, id: int)
    requires
        m.wf(),
        m.is_idle(id),
        m.pending.len() >= 2,
    ensures
        m.step(id).finish(id).wf(),
        m.step(id).finish(id).is_idle(id),
        m.step(id).finish(id).step_kind() == StepKind::Run,
        m.step(id).finish(id).step(id).delivered == m.delivered.push(m.pending[0]).push(
            m.pending[1],
        ),
{
    lemma_step_keeps_wf(m, id);
    lemma_finish_keeps_wf(m.step(id), id);
}

/// A pool of one worker runs its tasks one at a time, in submission order.
pub proof fn lemma_single_worker_serial<T>(m: PoolModel<T>)
    requires
        m.wf(),
        m.workers.len() == 1,
    ensures
        busy_count(m.workers) <= 1,
        m.is_busy(0) ==> !m.is_idle(0),
        m.delivered == m.submitted.subrange(0, m.delivered.len() as int),
{
    lemma_busy_at_most_size(m.workers);
    lemma_delivery_follows_submission(m);
}

} // verus!

//! Properties of the pool that relate several of its operations.
use crate::dispatcher::{lemma_count_busy_all, lemma_count_busy_none, lemma_count_busy_update};
use crate::dispatcher::{Claim, Outcome, PoolModel, WorkerState};
use vstd::prelude::*;

verus! {

/// Every operation keeps the pool's invariant, so it holds in every state
/// that a fresh pool can reach.
pub proof fn lemma_operations_keep_wf<J>(m: PoolModel<J>, job: J, id: int, outcome: Outcome)
    requires
        m.wf(),
        0 <= id < m.workers.len(),
    ensures
        m.submit(job).wf(),
        m.close().wf(),
        m.workers[id] == WorkerState::Idle ==> m.claim(id).0.wf(),
        m.workers[id] == WorkerState::Busy ==> m.finish(id, outcome).wf(),
{
    let s = m.submit(job);
    if !m.closed {
        assert(s.pending =~= s.submitted.subrange(s.started as int, s.submitted.len() as int));
    }
    if m.workers[id] == WorkerState::Idle {
        let c = m.claim(id).0;
        lemma_count_busy_update(m.workers, id, WorkerState::Busy);
        lemma_count_busy_update(m.workers, id, WorkerState::Stopped);
        if m.pending.len() > 0 {
            assert(c.pending =~= c.submitted.subrange(c.started as int, c.submitted.len() as int));
            assert forall|i: int| 0 <= i < c.workers.len() && #[trigger] c.workers[i] == WorkerState::Stopped implies c.closed && c.pending.len() == 0 by {
                assert(m.workers[i] == WorkerState::Stopped);
            }
        }
    }
    if m.workers[id] == WorkerState::Busy {
        lemma_fault_keeps_worker(m, id);
        lemma_count_busy_update(m.workers, id, WorkerState::Idle);
        let f = m.finish(id, outcome);
        assert forall|i: int| 0 <= i < f.workers.len() && #[trigger] f.workers[i] == WorkerState::Stopped implies f.closed && f.pending.len() == 0 by {
            assert(m.workers[i] == WorkerState::Stopped);
        }
    }
}

/// A fresh pool is in good order.
pub proof fn lemma_fresh_wf<J>(size: nat)
    requires
        size > 0,
    ensures
        PoolModel::<J>::fresh(size).wf(),
{
    let m = PoolModel::<J>::fresh(size);
    lemma_count_busy_none(m.workers);
    assert(m.pending =~= m.submitted.subrange(0, 0));
}

/// Jobs are handed out one at a time in the order they were accepted: the
/// claim that finds work takes exactly the next accepted job that no worker
/// has taken, so each accepted job is run by exactly one worker.
pub proof fn lemma_claim_takes_next_submission<J>(m: PoolModel<J>, id: int)
    requires
        m.wf(),
        0 <= id < m.workers.len(),
        m.workers[id] == WorkerState::Idle,
        m.pending.len() > 0,
    ensures
        m.claim(id).1 == Claim::Run(m.submitted[m.started as int]),
        m.claim(id).0.started == m.started + 1,
        m.claim(id).0.submitted == m.submitted,
        m.claim(id).0.workers[id] == WorkerState::Busy,
{
}

/// Once every worker has stopped, every job ever accepted has been run to
/// its end and nothing is left in the queue.
pub proof fn lemma_stopped_pool_ran_every_job<J>(m: PoolModel<J>)
    requires
        m.wf(),
        m.all_stopped(),
    ensures
        m.pending.len() == 0,
        m.started == m.submitted.len(),
        m.finished == m.submitted.len(),
{
    lemma_count_busy_none(m.workers);
    assert(m.workers[0] == WorkerState::Stopped);
}

/// A worker stops only when the queue is closed and holds no job, and a
/// closed queue takes no new job: nothing accepted before the close is
/// skipped.
pub proof fn lemma_stop_only_when_drained<J>(m: PoolModel<J>, id: int, job: J)
    requires
        m.wf(),
        0 <= id < m.workers.len(),
        m.workers[id] == WorkerState::Idle,
    ensures
        m.claim(id).1 == Claim::<J>::Stop ==> m.closed && m.pending.len() == 0,
        m.closed ==> m.submit(job) == m,
{
}

/// With every worker busy, each holds exactly one job; a new job is still
/// accepted on an open pool and waits at the back of the queue, and the
/// worker that is done first takes the oldest waiting job.
pub proof fn lemma_busy_pool_queues_job<J>(m: PoolModel<J>, job: J, id: int, outcome: Outcome)
    requires
        m.wf(),
        !m.closed,
        forall|i: int| 0 <= i < m.workers.len() ==> #[trigger] m.workers[i] == WorkerState::Busy,
        0 <= id < m.workers.len(),
    ensures
        m.started - m.finished == m.workers.len(),
        m.submit(job).pending == m.pending.push(job),
        m.submit(job).finish(id, outcome).claim(id).1 == Claim::Run(m.submit(job).pending[0]),
{
    lemma_count_busy_all(m.workers);
}

/// A job that faults leaves its worker idle and in good order, so the worker
/// goes on with the next queued job.
pub proof fn lemma_fault_keeps_worker<J>(m: PoolModel<J>, id: int)
    requires
        m.wf(),
        0 <= id < m.workers.len(),
        m.workers[id] == WorkerState::Busy,
    ensures
        m.finish(id, Outcome::Faulted).wf(),
        m.finish(id, Outcome::Faulted).workers[id] == WorkerState::Idle,
        m.finish(id, Outcome::Faulted).pending.len() > 0 ==> m.finish(id, Outcome::Faulted).claim(
            id,
        ).1 == Claim::Run(m.pending[0]),
{
    lemma_count_busy_update(m.workers, id, WorkerState::Idle);
    let m1 = m.finish(id, Outcome::Faulted);
    assert forall|i: int| 0 <= i < m1.workers.len() && #[trigger] m1.workers[i] == WorkerState::Stopped implies m1.closed && m1.pending.len() == 0 by {
        assert(m.workers[i] == WorkerState::Stopped);
    }
}

} // verus!

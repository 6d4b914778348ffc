//! The shared state of a worker pool: an unbounded queue of jobs, one state
//! per worker, and the close signal.
//!
//! The threads themselves are run by the caller, which keeps a `Dispatcher`
//! behind a lock and calls `claim` from each worker and `submit` from the
//! producers. Every decision is made here.
use std::collections::VecDeque;
use vstd::prelude::*;

verus! {

/// Where a worker stands in its life.
#[derive(Clone, Copy, Debug, PartialEq, Eq, Structural)]
pub enum WorkerState {
    /// Waiting for a job.
    Idle,
    /// Running the job it claimed last.
    Busy,
    /// Found the queue closed and drained; it takes no more jobs.
    Stopped,
}

/// How the run of a job ended.
#[derive(Clone, Copy, Debug, PartialEq, Eq, Structural)]
pub enum Outcome {
    Completed,
    Faulted,
}

/// What a worker that asks for work is told to do.
pub enum Claim<J> {
    /// Run this job, then report back with `finish`.
    Run(J),
    /// Nothing is queued yet: block until woken, then ask again.
    Wait,
    /// The queue is closed and drained: the worker ends.
    Stop,
}

/// Why a pool could not be built.
#[derive(Clone, Copy, Debug, PartialEq, Eq, Structural)]
pub enum PoolError {
    /// A pool needs at least one worker.
    ZeroSize,
}

/// The abstract state of a pool.
///
/// `submitted` is every job ever accepted, in order; the first `started` of
/// them have been handed to workers and the rest are `pending`.
pub ghost struct PoolModel<J> {
    pub pending: Seq<J>,
    pub workers: Seq<WorkerState>,
    pub closed: bool,
    pub submitted: Seq<J>,
    pub started: nat,
    pub finished: nat,
    pub faulted: nat,
}

/// The number of workers that are running a job.
pub open spec fn count_busy(ws: Seq<WorkerState>) -> nat
    decreases ws.len(),
{
    if ws.len() == 0 {
        0
    } else {
        count_busy(ws.drop_last()) + if ws.last() == WorkerState::Busy {
            1nat
        } else {
            0nat
        }
    }
}

impl<J> PoolModel<J> {
    /// A pool of `size` idle workers that has seen no job.
    pub open spec fn fresh(size: nat) -> PoolModel<J> {
        PoolModel {
            pending: Seq::empty(),
            workers: Seq::new(size, |i: int| WorkerState::Idle),
            closed: false,
            submitted: Seq::empty(),
            started: 0,
            finished: 0,
            faulted: 0,
        }
    }

    /// The invariant of every reachable state.
    pub open spec fn wf(self) -> bool {
        &&& self.workers.len() > 0
        &&& self.submitted.len() == self.started + self.pending.len()
        &&& self.pending =~= self.submitted.subrange(
            self.started as int,
            self.submitted.len() as int,
        )
        &&& self.started == self.finished + count_busy(self.workers)
        &&& self.faulted <= self.finished
        &&& forall|i: int|
            0 <= i < self.workers.len() && #[trigger] self.workers[i] == WorkerState::Stopped
                ==> self.closed && self.pending.len() == 0
    }

    /// Accepting a job: it joins the back of the queue, unless the queue is
    /// closed, in which case nothing changes.
    pub open spec fn submit(self, job: J) -> PoolModel<J> {
        if self.closed {
            self
        } else {
            PoolModel {
                pending: self.pending.push(job),
                submitted: self.submitted.push(job),
                ..self
            }
        }
    }

    /// Worker `id` asks for work: it takes the oldest pending job if there is
    /// one, stops if the queue is closed and drained, and waits otherwise.
    pub open spec fn claim(self, id: int) -> (PoolModel<J>, Claim<J>) {
        if self.pending.len() > 0 {
            (
                PoolModel {
                    pending: self.pending.drop_first(),
                    workers: self.workers.update(id, WorkerState::Busy),
                    started: self.started + 1,
                    ..self
                },
                Claim::Run(self.pending[0]),
            )
        } else if self.closed {
            (PoolModel { workers: self.workers.update(id, WorkerState::Stopped), ..self }, Claim::Stop)
        } else {
            (self, Claim::Wait)
        }
    }

    /// Worker `id` reports that its job ended: whatever the outcome, the
    /// worker is idle again.
    pub open spec fn finish(self, id: int, outcome: Outcome) -> PoolModel<J> {
        PoolModel {
            workers: self.workers.update(id, WorkerState::Idle),
            finished: self.finished + 1,
            faulted: if outcome == Outcome::Faulted {
                self.faulted + 1
            } else {
                self.faulted
            },
            ..self
        }
    }

    /// Closing the queue: no job is accepted from now on; queued jobs stay.
    pub open spec fn close(self) -> PoolModel<J> {
        PoolModel { closed: true, ..self }
    }

    /// Every worker has stopped.
    pub open spec fn all_stopped(self) -> bool {
        forall|i: int| 0 <= i < self.workers.len() ==> #[trigger] self.workers[i] == WorkerState::Stopped
    }
}

/// Changing one worker's state moves the busy count by the difference.
pub proof fn lemma_count_busy_update(ws: Seq<WorkerState>, i: int, s: WorkerState)
    requires
        0 <= i < ws.len(),
    ensures
        count_busy(ws.update(i, s)) == count_busy(ws) - (if ws[i] == WorkerState::Busy {
            1int
        } else {
            0int
        }) + (if s == WorkerState::Busy {
            1int
        } else {
            0int
        }),
    decreases ws.len(),
{
    let u = ws.update(i, s);
    if i == ws.len() - 1 {
        assert(u.drop_last() =~= ws.drop_last());
    } else {
        lemma_count_busy_update(ws.drop_last(), i, s);
        assert(u.drop_last() =~= ws.drop_last().update(i, s));
    }
}

/// No worker is busy where none is `Busy`.
pub proof fn lemma_count_busy_none(ws: Seq<WorkerState>)
    requires
        forall|i: int| 0 <= i < ws.len() ==> #[trigger] ws[i] != WorkerState::Busy,
    ensures
        count_busy(ws) == 0,
    decreases ws.len(),
{
    if ws.len() > 0 {
        lemma_count_busy_none(ws.drop_last());
    }
}

/// Every worker is busy: the count is the number of workers.
pub proof fn lemma_count_busy_all(ws: Seq<WorkerState>)
    requires
        forall|i: int| 0 <= i < ws.len() ==> #[trigger] ws[i] == WorkerState::Busy,
    ensures
        count_busy(ws) == ws.len(),
    decreases ws.len(),
{
    if ws.len() > 0 {
        lemma_count_busy_all(ws.drop_last());
    }
}

/// The pool state that worker threads share.
pub struct Dispatcher<J> {
    queue: VecDeque<J>,
    workers: Vec<WorkerState>,
    closed: bool,
    submitted: Ghost<Seq<J>>,
    started: Ghost<nat>,
    finished: Ghost<nat>,
    faulted: Ghost<nat>,
}

impl<J> View for Dispatcher<J> {
    type V = PoolModel<J>;

    closed spec fn view(&self) -> PoolModel<J> {
        PoolModel {
            pending: self.queue@,
            workers: self.workers@,
            closed: self.closed,
            submitted: self.submitted@,
            started: self.started@,
            finished: self.finished@,
            faulted: self.faulted@,
        }
    }
}

impl<J> Dispatcher<J> {
    pub open spec fn wf(&self) -> bool {
        self@.wf()
    }

    /// A pool of `size` idle workers, numbered `0..size`, with an empty open
    /// queue. A size of zero is refused.
    pub fn new(size: usize) -> (r: Result<Dispatcher<J>, PoolError>)
        ensures
            match r {
                Ok(d) => size > 0 && d.wf() && d@ == PoolModel::<J>::fresh(size as nat),
                Err(e) => size == 0 && e == PoolError::ZeroSize,
            },
    {
        if size == 0 {
            return Err(PoolError::ZeroSize);
        }
        let mut workers: Vec<WorkerState> = Vec::with_capacity(size);
        let mut i: usize = 0;
        while i < size
            invariant
                i <= size,
                workers@ =~= Seq::new(i as nat, |k: int| WorkerState::Idle),
            decreases size - i,
        {
            workers.push(WorkerState::Idle);
            i = i + 1;
        }
        proof {
            lemma_count_busy_none(workers@);
        }
        let d = Dispatcher {
            queue: VecDeque::new(),
            workers,
            closed: false,
            submitted: Ghost(Seq::empty()),
            started: Ghost(0),
            finished: Ghost(0),
            faulted: Ghost(0),
        };
        assert(d@ =~= PoolModel::<J>::fresh(size as nat));
        Ok(d)
    }

    /// Hands a job to the pool. On an open pool the job joins the back of
    /// the queue and `Ok` comes back, however busy the workers are; on a
    /// closed one the job is handed back unchanged.
    pub fn submit(&mut self, job: J) -> (r: Result<(), J>)
        requires
            old(self).wf(),
        ensures
            final(self).wf(),
            final(self)@ == old(self)@.submit(job),
            r == (if old(self)@.closed {
                Err(job)
            } else {
                Ok::<(), J>(())
            }),
    {
        if self.closed {
            return Err(job);
        }
        let ghost j = job;
        self.queue.push_back(job);
        self.submitted = Ghost(self.submitted@.push(j));
        assert(self@ =~= old(self)@.submit(j));
        Ok(())
    }

    /// Worker `id`, idle, asks for work. See `PoolModel::claim`.
    pub fn claim(&mut self, id: usize) -> (r: Claim<J>)
        requires
            old(self).wf(),
            id < old(self)@.workers.len(),
            old(self)@.workers[id as int] == WorkerState::Idle,
        ensures
            final(self).wf(),
            (final(self)@, r) == old(self)@.claim(id as int),
    {
        proof {
            lemma_count_busy_update(self.workers@, id as int, WorkerState::Busy);
            lemma_count_busy_update(self.workers@, id as int, WorkerState::Stopped);
        }
        match self.queue.pop_front() {
            Some(job) => {
                self.workers.set(id, WorkerState::Busy);
                self.started = Ghost(self.started@ + 1);
                assert(self@ =~= old(self)@.claim(id as int).0);
                assert(self.queue@ =~= self.submitted@.subrange(
                    self.started@ as int,
                    self.submitted@.len() as int,
                ));
                Claim::Run(job)
            },
            None => {
                if self.closed {
                    self.workers.set(id, WorkerState::Stopped);
                    assert(self@ =~= old(self)@.claim(id as int).0);
                    Claim::Stop
                } else {
                    Claim::Wait
                }
            },
        }
    }

    /// Worker `id` reports that the job it claimed has ended, normally or by
    /// a fault. Either way the worker goes back to waiting for work.
    pub fn finish(&mut self, id: usize, outcome: Outcome)
        requires
            old(self).wf(),
            id < old(self)@.workers.len(),
            old(self)@.workers[id as int] == WorkerState::Busy,
        ensures
            final(self).wf(),
            final(self)@ == old(self)@.finish(id as int, outcome),
    {
        proof {
            lemma_count_busy_update(self.workers@, id as int, WorkerState::Idle);
        }
        self.workers.set(id, WorkerState::Idle);
        self.finished = Ghost(self.finished@ + 1);
        if outcome == Outcome::Faulted {
            self.faulted = Ghost(self.faulted@ + 1);
        }
        assert(self@ =~= old(self)@.finish(id as int, outcome));
    }

    /// Closes the queue. Queued jobs are still handed out; new ones are
    /// refused. Closing twice is the same as closing once.
    pub fn close(&mut self)
        requires
            old(self).wf(),
        ensures
            final(self).wf(),
            final(self)@ == old(self)@.close(),
    {
        self.closed = true;
        assert(self@ =~= old(self)@.close());
    }

    /// The number of workers.
    pub fn size(&self) -> (r: usize)
        ensures
            r == self@.workers.len(),
    {
        self.workers.len()
    }

    /// Whether the queue has been closed.
    pub fn is_closed(&self) -> (r: bool)
        ensures
            r == self@.closed,
    {
        self.closed
    }

    /// The number of jobs waiting for a worker.
    pub fn pending_len(&self) -> (r: usize)
        ensures
            r == self@.pending.len(),
    {
        self.queue.len()
    }

    /// The state of worker `id`.
    pub fn worker_state(&self, id: usize) -> (r: WorkerState)
        requires
            id < self@.workers.len(),
        ensures
            r == self@.workers[id as int],
    {
        self.workers[id]
    }

    /// Whether every worker has stopped.
    pub fn all_stopped(&self) -> (r: bool)
        ensures
            r == self@.all_stopped(),
    {
        let mut i: usize = 0;
        while i < self.workers.len()
            invariant
                i <= self.workers@.len(),
                forall|k: int| 0 <= k < i ==> #[trigger] self.workers@[k] == WorkerState::Stopped,
            decreases self.workers@.len() - i,
        {
            if self.workers[i] != WorkerState::Stopped {
                return false;
            }
            i = i + 1;
        }
        true
    }
}

} // verus!

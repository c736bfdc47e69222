//! The queue of a worker pool.
//!
//! Jobs are handed to the workers in the order in which they were submitted.
//! Closing the queue shuts the pool down: no job is taken in after that, but
//! every job that is already in the queue is still handed out, once, before
//! the workers are told to leave. The program around this library keeps the
//! queue behind a lock and runs the workers as threads.

use std::collections::VecDeque;
use vstd::prelude::*;

verus! {

/// The jobs that wait for a worker, oldest first, and whether the pool is
/// shutting down.
pub struct JobQueue<T> {
    jobs: VecDeque<T>,
    closed: bool,
}

/// A queue as a mathematical value.
pub struct QueueView<T> {
    pub pending: Seq<T>,
    pub closed: bool,
}

/// What a worker that asks for a job is told.
pub enum Take<T> {
    /// Run this job, then ask again.
    Job(T),
    /// No job waits; wait until one is submitted or the queue is closed.
    Wait,
    /// No job waits and none will come: leave.
    Exit,
}

impl<T> View for JobQueue<T> {
    type V = QueueView<T>;

    closed spec fn view(&self) -> QueueView<T> {
        QueueView { pending: self.jobs@, closed: self.closed }
    }
}

/// The queue after a job was submitted: the job is last in line, unless the
/// queue is closed.
pub open spec fn submit_spec<T>(q: QueueView<T>, job: T) -> QueueView<T> {
    if q.closed {
        q
    } else {
        QueueView { pending: q.pending.push(job), closed: q.closed }
    }
}

/// The queue after it was closed.
pub open spec fn close_spec<T>(q: QueueView<T>) -> QueueView<T> {
    QueueView { pending: q.pending, closed: true }
}

/// The queue after a worker asked for a job.
pub open spec fn after_take<T>(q: QueueView<T>) -> QueueView<T> {
    if q.pending.len() > 0 {
        QueueView { pending: q.pending.subrange(1, q.pending.len() as int), closed: q.closed }
    } else {
        q
    }
}

/// The queue after workers asked for a job `n` times.
pub open spec fn after_takes<T>(q: QueueView<T>, n: nat) -> QueueView<T>
    decreases n,
{
    if n == 0 {
        q
    } else {
        after_takes(after_take(q), (n - 1) as nat)
    }
}

/// The jobs that workers are handed when they ask `n` times, in the order
/// in which they are handed out.
pub open spec fn taken<T>(q: QueueView<T>, n: nat) -> Seq<T>
    decreases n,
{
    if n == 0 {
        Seq::empty()
    } else if q.pending.len() > 0 {
        seq![q.pending[0]] + taken(after_take(q), (n - 1) as nat)
    } else {
        taken(after_take(q), (n - 1) as nat)
    }
}

/// The queue after each job of `jobs` was submitted in turn.
pub open spec fn after_submits<T>(q: QueueView<T>, jobs: Seq<T>) -> QueueView<T>
    decreases jobs.len(),
{
    if jobs.len() == 0 {
        q
    } else {
        submit_spec(after_submits(q, jobs.drop_last()), jobs.last())
    }
}

impl<T> JobQueue<T> {
    /// An open queue without jobs.
    pub fn new() -> (queue: Self)
        ensures
            queue@ == (QueueView::<T> { pending: Seq::empty(), closed: false }),
    {
        JobQueue { jobs: VecDeque::new(), closed: false }
    }

    /// Puts a job last in line. A closed queue takes no job and gives it
    /// back.
    pub fn submit(&mut self, job: T) -> (refused: Option<T>)
        ensures
            final(self)@ == submit_spec(old(self)@, job),
            refused == (if old(self)@.closed {
                Some(job)
            } else {
                None
            }),
    {
        if self.closed {
            Some(job)
        } else {
            self.jobs.push_back(job);
            None
        }
    }

    /// Closes the queue. The jobs in it stay.
    pub fn close(&mut self)
        ensures
            final(self)@ == close_spec(old(self)@),
    {
        self.closed = true;
    }

    /// Hands out the job that waited longest. Where none waits, says whether
    /// to wait or to leave.
    pub fn take(&mut self) -> (r: Take<T>)
        ensures
            final(self)@ == after_take(old(self)@),
            r == (if old(self)@.pending.len() > 0 {
                Take::Job(old(self)@.pending[0])
            } else if old(self)@.closed {
                Take::Exit
            } else {
                Take::Wait
            }),
    {
        match self.jobs.pop_front() {
            Some(job) => Take::Job(job),
            None => {
                if self.closed {
                    Take::Exit
                } else {
                    Take::Wait
                }
            },
        }
    }

    /// The number of jobs that wait.
    pub fn len(&self) -> (n: usize)
        ensures
            n == self@.pending.len(),
    {
        self.jobs.len()
    }

    /// Whether the queue is closed.
    pub fn is_closed(&self) -> (closed: bool)
        ensures
            closed == self@.closed,
    {
        self.closed
    }
}

/// Jobs that are submitted to an open queue wait behind those that are
/// already there, in the order of their submission.
pub proof fn lemma_submits_append<T>(q: QueueView<T>, jobs: Seq<T>)
    requires
        !q.closed,
    ensures
        after_submits(q, jobs) == (QueueView { pending: q.pending + jobs, closed: false }),
    decreases jobs.len(),
{
    if jobs.len() > 0 {
        lemma_submits_append(q, jobs.drop_last());
        assert((q.pending + jobs.drop_last()).push(jobs.last()) =~= q.pending + jobs);
    } else {
        assert(q.pending + jobs =~= q.pending);
    }
}

/// Workers that ask as often as jobs wait are handed every job once, oldest
/// first, and leave the queue empty.
pub proof fn lemma_takes_drain<T>(q: QueueView<T>)
    ensures
        taken(q, q.pending.len()) == q.pending,
        after_takes(q, q.pending.len()).pending.len() == 0,
        after_takes(q, q.pending.len()).closed == q.closed,
    decreases q.pending.len(),
{
    if q.pending.len() > 0 {
        let rest = after_take(q);
        lemma_takes_drain(rest);
        assert(seq![q.pending[0]] + rest.pending =~= q.pending);
    }
}

/// Once the jobs are handed out, asking again hands out nothing more.
pub proof fn lemma_takes_beyond<T>(q: QueueView<T>, extra: nat)
    requires
        q.pending.len() == 0,
    ensures
        taken(q, extra) == Seq::<T>::empty(),
        after_takes(q, extra) == q,
    decreases extra,
{
    if extra > 0 {
        lemma_takes_beyond(q, (extra - 1) as nat);
    }
}

/// Every job that was submitted before the shutdown runs exactly once: when
/// jobs are submitted to a new queue and the queue is then closed, the
/// workers are handed exactly these jobs, each once and in their order, and
/// are then told to leave. A job that is submitted after the shutdown is
/// refused and never handed out.
pub proof fn lemma_shutdown_drains<T>(jobs: Seq<T>, late: T)
    ensures
        ({
            let fresh = QueueView::<T> { pending: Seq::empty(), closed: false };
            let closed = close_spec(after_submits(fresh, jobs));
            let drained = after_takes(closed, jobs.len());
            &&& closed.pending == jobs
            &&& taken(closed, jobs.len()) == jobs
            &&& drained.pending.len() == 0
            &&& drained.closed
            &&& submit_spec(closed, late) == closed
        }),
{
    let fresh = QueueView::<T> { pending: Seq::empty(), closed: false };
    lemma_submits_append(fresh, jobs);
    assert(fresh.pending + jobs =~= jobs);
    lemma_takes_drain(close_spec(after_submits(fresh, jobs)));
}

} // verus!

//! One worker: its identifier, where it stands in its loop, and whether the
//! pool has already collected its thread at shutdown.
use vstd::prelude::*;
use vstd::multiset::Multiset;
use crate::channel::Received;

verus! {

/// Where a worker stands in its loop.
#[derive(Clone, Copy, Debug, PartialEq, Eq, Structural)]
pub enum WorkerState {
    /// Waiting for the lock or, with the lock, for a job; holds no job.
    Idle,
    /// Running the job with this identifier, outside the channel's lock.
    Busy(u64),
    /// Saw the channel closed and empty; the thread has returned.
    Exited,
    /// A job failed abnormally; the thread is gone and is never replaced.
    Failed,
}

/// How the run of one job ended.
#[derive(Clone, Copy, Debug, PartialEq, Eq, Structural)]
pub enum Outcome {
    /// The job returned.
    Completed,
    /// The job failed abnormally and took its worker's thread with it.
    Failed,
}

/// A worker that can still take jobs.
pub open spec fn is_live(s: WorkerState) -> bool {
    s == WorkerState::Idle || s is Busy
}

/// A worker whose thread has ended, normally or not.
pub open spec fn is_terminated(s: WorkerState) -> bool {
    s == WorkerState::Exited || s == WorkerState::Failed
}

/// The state of an idle worker after it has looked at the channel and got `r`.
pub open spec fn spec_on_receive(r: Received) -> WorkerState {
    match r {
        Received::Job(job) => WorkerState::Busy(job),
        Received::Empty => WorkerState::Idle,
        Received::Closed => WorkerState::Exited,
    }
}

/// The state of a busy worker after its job ended with `outcome`.
pub open spec fn spec_on_finish(outcome: Outcome) -> WorkerState {
    match outcome {
        Outcome::Completed => WorkerState::Idle,
        Outcome::Failed => WorkerState::Failed,
    }
}

/// The job that a worker in state `s` holds, as a multiset of at most one element.
pub open spec fn job_of(s: WorkerState) -> Multiset<u64> {
    match s {
        WorkerState::Busy(job) => Multiset::singleton(job),
        _ => Multiset::empty(),
    }
}

/// The jobs that the workers are running right now.
pub open spec fn in_flight(ws: Seq<WorkerState>) -> Multiset<u64>
    decreases ws.len(),
{
    if ws.len() == 0 {
        Multiset::empty()
    } else {
        in_flight(ws.drop_last()).add(job_of(ws.last()))
    }
}

/// The jobs that the workers are running right now, in the order of the
/// workers.
pub open spec fn busy_jobs(ws: Seq<WorkerState>) -> Seq<u64>
    decreases ws.len(),
{
    if ws.len() == 0 {
        Seq::empty()
    } else {
        busy_jobs(ws.drop_last()) + match ws.last() {
            WorkerState::Busy(job) => seq![job],
            _ => Seq::empty(),
        }
    }
}

/// The state of a worker once the job it may be running has returned.
pub open spec fn settled(s: WorkerState) -> WorkerState {
    if s is Busy {
        WorkerState::Idle
    } else {
        s
    }
}

/// The number of workers that can still take jobs.
pub open spec fn live_count(ws: Seq<WorkerState>) -> nat
    decreases ws.len(),
{
    if ws.len() == 0 {
        0
    } else {
        live_count(ws.drop_last()) + if is_live(ws.last()) {
            1nat
        } else {
            0nat
        }
    }
}

/// The number of workers that were lost to a failing job.
pub open spec fn failed_count(ws: Seq<WorkerState>) -> nat
    decreases ws.len(),
{
    if ws.len() == 0 {
        0
    } else {
        failed_count(ws.drop_last()) + if ws.last() == WorkerState::Failed {
            1nat
        } else {
            0nat
        }
    }
}

/// Replacing one worker's state swaps that worker's job for the new one and
/// touches no other job in flight.
pub proof fn lemma_in_flight_update(ws: Seq<WorkerState>, i: int, s: WorkerState)
    requires
        0 <= i < ws.len(),
    ensures
        in_flight(ws.update(i, s)).add(job_of(ws[i])) =~= in_flight(ws).add(job_of(s)),
    decreases ws.len(),
{
    broadcast use vstd::multiset::group_multiset_axioms;

    let us = ws.update(i, s);
    let lhs = in_flight(us).add(job_of(ws[i]));
    let rhs = in_flight(ws).add(job_of(s));
    assert(in_flight(us) == in_flight(us.drop_last()).add(job_of(us.last())));
    assert(in_flight(ws) == in_flight(ws.drop_last()).add(job_of(ws.last())));
    if i == ws.len() - 1 {
        assert(us.drop_last() =~= ws.drop_last());
        assert forall|j: u64| lhs.count(j) == rhs.count(j) by {}
    } else {
        lemma_in_flight_update(ws.drop_last(), i, s);
        assert(us.drop_last() =~= ws.drop_last().update(i, s));
        let a = in_flight(ws.drop_last().update(i, s)).add(job_of(ws[i]));
        let b = in_flight(ws.drop_last()).add(job_of(s));
        assert forall|j: u64| lhs.count(j) == rhs.count(j) by {
            assert(a.count(j) == b.count(j));
        }
    }
    assert(lhs =~= rhs);
}

/// Replacing one worker's state changes the live count by that worker alone.
pub proof fn lemma_live_count_update(ws: Seq<WorkerState>, i: int, s: WorkerState)
    requires
        0 <= i < ws.len(),
    ensures
        live_count(ws.update(i, s)) + (if is_live(ws[i]) { 1nat } else { 0nat }) == live_count(ws)
            + (if is_live(s) { 1nat } else { 0nat }),
    decreases ws.len(),
{
    let us = ws.update(i, s);
    if i == ws.len() - 1 {
        assert(us.drop_last() =~= ws.drop_last());
    } else {
        lemma_live_count_update(ws.drop_last(), i, s);
        assert(us.drop_last() =~= ws.drop_last().update(i, s));
    }
}

/// Replacing one worker's state changes the count of lost workers by that
/// worker alone.
pub proof fn lemma_failed_count_update(ws: Seq<WorkerState>, i: int, s: WorkerState)
    requires
        0 <= i < ws.len(),
    ensures
        failed_count(ws.update(i, s)) + (if ws[i] == WorkerState::Failed { 1nat } else { 0nat })
            == failed_count(ws) + (if s == WorkerState::Failed { 1nat } else { 0nat }),
    decreases ws.len(),
{
    let us = ws.update(i, s);
    if i == ws.len() - 1 {
        assert(us.drop_last() =~= ws.drop_last());
    } else {
        lemma_failed_count_update(ws.drop_last(), i, s);
        assert(us.drop_last() =~= ws.drop_last().update(i, s));
    }
}

/// Where no worker was lost, the count of lost workers is zero, and the
/// other way round.
pub proof fn lemma_failed_count_zero(ws: Seq<WorkerState>)
    ensures
        failed_count(ws) == 0 <==> forall|i: int|
            0 <= i < ws.len() ==> #[trigger] ws[i] != WorkerState::Failed,
    decreases ws.len(),
{
    if ws.len() > 0 {
        lemma_failed_count_zero(ws.drop_last());
        if failed_count(ws) == 0 {
            assert forall|i: int| 0 <= i < ws.len() implies #[trigger] ws[i]
                != WorkerState::Failed by {
                if i < ws.len() - 1 {
                    assert(ws.drop_last()[i] == ws[i]);
                }
            }
        } else {
            if ws.last() != WorkerState::Failed {
                let j = choose|j: int|
                    0 <= j < ws.drop_last().len() && #[trigger] ws.drop_last()[j]
                        == WorkerState::Failed;
                assert(ws[j] == WorkerState::Failed);
            }
        }
    }
}

/// Workers that are all idle run nothing and are all live.
pub proof fn lemma_all_idle(ws: Seq<WorkerState>)
    requires
        forall|i: int| 0 <= i < ws.len() ==> ws[i] == WorkerState::Idle,
    ensures
        in_flight(ws) =~= Multiset::empty(),
        live_count(ws) == ws.len(),
        failed_count(ws) == 0,
    decreases ws.len(),
{
    if ws.len() > 0 {
        lemma_all_idle(ws.drop_last());
    }
}

/// When no worker is busy, nothing is in flight.
pub proof fn lemma_none_busy(ws: Seq<WorkerState>)
    requires
        forall|i: int| 0 <= i < ws.len() ==> !(ws[i] is Busy),
    ensures
        in_flight(ws) =~= Multiset::empty(),
        busy_jobs(ws) =~= Seq::empty(),
    decreases ws.len(),
{
    if ws.len() > 0 {
        lemma_none_busy(ws.drop_last());
    }
}

/// A worker of the pool.
#[derive(Clone, Copy, Debug)]
pub struct Worker {
    id: usize,
    state: WorkerState,
    joined: bool,
}

/// The mathematical content of a worker.
pub struct WorkerView {
    /// Its position in the pool.
    pub id: nat,
    /// Where it stands in its loop.
    pub state: WorkerState,
    /// Whether the pool has taken and joined its thread.
    pub joined: bool,
}

impl View for Worker {
    type V = WorkerView;

    closed spec fn view(&self) -> WorkerView {
        WorkerView { id: self.id as nat, state: self.state, joined: self.joined }
    }
}

impl Worker {
    /// A worker that has just started: idle, with its thread not yet joined.
    pub fn new(id: usize) -> (w: Worker)
        ensures
            w@ == (WorkerView { id: id as nat, state: WorkerState::Idle, joined: false }),
    {
        Worker { id, state: WorkerState::Idle, joined: false }
    }

    /// The worker's identifier.
    pub fn id(&self) -> (id: usize)
        ensures
            id == self@.id,
    {
        self.id
    }

    /// Where the worker stands in its loop.
    pub fn state(&self) -> (s: WorkerState)
        ensures
            s == self@.state,
    {
        self.state
    }

    /// Whether the pool has taken and joined the worker's thread.
    pub fn is_joined(&self) -> (b: bool)
        ensures
            b == self@.joined,
    {
        self.joined
    }

    /// Whether the worker can still take jobs.
    pub fn is_live(&self) -> (b: bool)
        ensures
            b == is_live(self@.state),
    {
        match self.state {
            WorkerState::Idle => true,
            WorkerState::Busy(_) => true,
            WorkerState::Exited => false,
            WorkerState::Failed => false,
        }
    }

    /// Whether the worker's thread has ended.
    pub fn is_terminated(&self) -> (b: bool)
        ensures
            b == is_terminated(self@.state),
    {
        match self.state {
            WorkerState::Idle => false,
            WorkerState::Busy(_) => false,
            WorkerState::Exited => true,
            WorkerState::Failed => true,
        }
    }

    /// One turn of an idle worker's loop: it takes the job it received, keeps
    /// waiting on an empty open channel, or exits on a closed one.
    pub fn on_receive(&mut self, r: Received)
        requires
            old(self)@.state == WorkerState::Idle,
        ensures
            final(self)@ == (WorkerView { state: spec_on_receive(r), ..old(self)@ }),
    {
        self.state = match r {
            Received::Job(job) => WorkerState::Busy(job),
            Received::Empty => WorkerState::Idle,
            Received::Closed => WorkerState::Exited,
        };
    }

    /// The end of a job: the worker returns to waiting, or is lost for good
    /// when the job failed. Returns the job that ended.
    pub fn on_finish(&mut self, outcome: Outcome) -> (job: u64)
        requires
            old(self)@.state is Busy,
        ensures
            old(self)@.state == WorkerState::Busy(job),
            final(self)@ == (WorkerView { state: spec_on_finish(outcome), ..old(self)@ }),
    {
        let job: u64 = match self.state {
            WorkerState::Busy(job) => job,
            _ => 0,
        };
        self.state = match outcome {
            Outcome::Completed => WorkerState::Idle,
            Outcome::Failed => WorkerState::Failed,
        };
        job
    }

    /// The pool takes the thread of a worker that has ended, once.
    pub fn mark_joined(&mut self)
        requires
            is_terminated(old(self)@.state),
            !old(self)@.joined,
        ensures
            final(self)@ == (WorkerView { joined: true, ..old(self)@ }),
    {
        self.joined = true;
    }
}

} // verus!

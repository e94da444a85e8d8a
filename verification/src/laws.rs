//! What holds of every pool, in every state that the operations can reach.
use vstd::prelude::*;
use vstd::multiset::Multiset;
use vstd::seq_lib::*;
use crate::pool::{PoolError, PoolView, ThreadPool};
use crate::worker::{
    Outcome, WorkerState, busy_jobs, failed_count, in_flight, is_live, is_terminated, live_count,
    lemma_failed_count_zero, lemma_live_count_update, lemma_none_busy,
};

verus! {

/// Jobs reach the workers in the order of submission: the jobs delivered so
/// far are the first of those submitted, in the same order, and the pending
/// ones are the rest.
pub proof fn lemma_delivery_is_fifo(pool: ThreadPool)
    requires
        pool.wf(),
    ensures
        pool@.submitted == pool@.delivered + pool@.pending,
        pool@.delivered.len() <= pool@.submitted.len(),
        forall|k: int|
            0 <= k < pool@.delivered.len() ==> pool@.delivered[k] == pool@.submitted[k],
        forall|k: int|
            0 <= k < pool@.pending.len() ==> pool@.pending[k] == pool@.submitted[
                pool@.delivered.len() + k],
{
    pool.lemma_wf_inv();
}

/// Every submitted job is in exactly one place: still pending, or running on
/// one worker, or ended, normally or not. None is lost and none is there
/// twice, however often the same identifier was submitted.
pub proof fn lemma_each_job_exactly_once(pool: ThreadPool)
    requires
        pool.wf(),
    ensures
        pool@.submitted.to_multiset() == pool@.pending.to_multiset().add(
            in_flight(pool@.workers),
        ).add(pool@.completed.to_multiset()).add(pool@.failed.to_multiset()),
{
    broadcast use vstd::multiset::group_multiset_axioms;

    pool.lemma_wf_inv();
    let v = pool@;
    lemma_multiset_commutative(v.delivered, v.pending);
    assert(v.submitted.to_multiset() =~= v.pending.to_multiset().add(in_flight(v.workers)).add(
        v.completed.to_multiset(),
    ).add(v.failed.to_multiset()));
}

/// Once the teardown has collected every worker, and at least one of them
/// left because it saw the channel closed and empty, nothing is pending and
/// nothing is running: every job that was ever accepted has ended.
pub proof fn lemma_shutdown_drains(pool: ThreadPool)
    requires
        pool.wf(),
        pool@.all_joined(),
        exists|i: int| 0 <= i < pool@.workers.len() && pool@.workers[i] == WorkerState::Exited,
    ensures
        !pool@.accepting,
        pool@.pending.len() == 0,
        in_flight(pool@.workers) == Multiset::<u64>::empty(),
        pool@.submitted == pool@.delivered,
        pool@.submitted.to_multiset() == pool@.completed.to_multiset().add(
            pool@.failed.to_multiset(),
        ),
        pool@.submitted.len() == pool@.completed.len() + pool@.failed.len(),
{
    broadcast use vstd::multiset::group_multiset_axioms;

    pool.lemma_wf_inv();
    let v = pool@;
    assert forall|i: int| 0 <= i < v.workers.len() implies !(v.workers[i] is Busy) by {
        assert(v.joined[i]);
    }
    lemma_none_busy(v.workers);
    assert(v.delivered + v.pending =~= v.delivered);
    assert(v.submitted.to_multiset() =~= v.completed.to_multiset().add(v.failed.to_multiset()));
    v.submitted.to_multiset_ensures();
    v.completed.to_multiset_ensures();
    v.failed.to_multiset_ensures();
}

/// Once the teardown has collected every worker and no worker was lost to a
/// failing job, every job that was ever accepted has completed.
pub proof fn lemma_shutdown_completes_all(pool: ThreadPool)
    requires
        pool.wf(),
        pool@.all_joined(),
        forall|i: int| 0 <= i < pool@.workers.len() ==> pool@.workers[i] != WorkerState::Failed,
    ensures
        pool@.pending.len() == 0,
        pool@.submitted.to_multiset() == pool@.completed.to_multiset(),
        pool@.submitted.len() == pool@.completed.len(),
{
    broadcast use vstd::multiset::group_multiset_axioms;

    pool.lemma_wf_inv();
    let v = pool@;
    assert(v.joined[0]);
    assert(is_terminated(v.workers[0]));
    lemma_shutdown_drains(pool);
    lemma_failed_count_zero(v.workers);
    assert(v.failed =~= Seq::<u64>::empty());
    v.failed.to_multiset_ensures();
    assert(v.submitted.to_multiset() =~= v.completed.to_multiset());
}

/// Each job that failed abnormally cost the pool exactly one worker, for
/// good: the workers lost are as many as the failed jobs, and the workers
/// that can still take jobs are at most the others.
pub proof fn lemma_failures_cost_one_worker_each(pool: ThreadPool)
    requires
        pool.wf(),
    ensures
        failed_count(pool@.workers) == pool@.failed.len(),
        live_count(pool@.workers) + failed_count(pool@.workers) <= pool@.workers.len(),
{
    pool.lemma_wf_inv();
    lemma_live_and_failed_bound(pool@.workers);
}

/// No worker counts both as live and as lost.
pub proof fn lemma_live_and_failed_bound(ws: Seq<WorkerState>)
    ensures
        live_count(ws) + failed_count(ws) <= ws.len(),
    decreases ws.len(),
{
    if ws.len() > 0 {
        lemma_live_and_failed_bound(ws.drop_last());
    }
}

/// A worker exits only on a channel that is closed and empty: while the
/// pool takes jobs, or while a job is pending, no worker has exited, so every
/// worker that was not lost to a failing job is still there to run what is
/// queued.
pub proof fn lemma_exit_only_when_drained(pool: ThreadPool, i: int)
    requires
        pool.wf(),
        0 <= i < pool@.workers.len(),
        pool@.accepting || pool@.pending.len() > 0,
    ensures
        pool@.workers[i] != WorkerState::Exited,
        !pool@.joined[i] || pool@.workers[i] == WorkerState::Failed,
{
    pool.lemma_wf_inv();
}

/// Once the teardown has begun, every submission is refused and leaves the
/// pool as it was; and no step of a worker or of the teardown makes the pool
/// take jobs again.
pub proof fn lemma_closed_pool_refuses(v: PoolView, job: u64, id: int, outcome: Outcome)
    requires
        !v.accepting,
    ensures
        v.submit_result() == Err::<(), PoolError>(PoolError::Closed),
        v.after_submit(job) == v,
        !v.after_receive(id).accepting,
        !v.after_finish(id, outcome).accepting,
        !v.after_run(id).accepting,
        !v.closed().accepting,
        !v.after_shutdown().accepting,
{
}

/// The teardown closes the pool, whatever state it was in.
pub proof fn lemma_teardown_closes(v: PoolView, job: u64)
    ensures
        v.closed().submit_result() == Err::<(), PoolError>(PoolError::Closed),
        v.closed().after_submit(job) == v.closed(),
        v.after_shutdown().submit_result() == Err::<(), PoolError>(PoolError::Closed),
        v.after_shutdown().after_submit(job) == v.after_shutdown(),
{
}

/// A job that fails abnormally takes its own worker and no other: every
/// other worker is in the state it was in, the pool can run exactly one job
/// fewer at a time, and it goes on taking jobs if it did before.
pub proof fn lemma_failure_is_isolated(v: PoolView, id: int)
    requires
        0 <= id < v.workers.len(),
        v.workers[id] is Busy,
    ensures
        v.after_finish(id, Outcome::Failed).workers[id] == WorkerState::Failed,
        forall|j: int|
            0 <= j < v.workers.len() && j != id ==> v.after_finish(id, Outcome::Failed).workers[j]
                == v.workers[j],
        live_count(v.after_finish(id, Outcome::Failed).workers) == live_count(v.workers) - 1,
        v.after_finish(id, Outcome::Failed).accepting == v.accepting,
        v.after_finish(id, Outcome::Failed).pending == v.pending,
{
    lemma_live_count_update(v.workers, id, WorkerState::Failed);
}

/// The pool after the jobs of `jobs` were submitted one after the other.
pub open spec fn after_submit_all(v: PoolView, jobs: Seq<u64>) -> PoolView
    decreases jobs.len(),
{
    if jobs.len() == 0 {
        v
    } else {
        after_submit_all(v, jobs.drop_last()).after_submit(jobs.last())
    }
}

/// A pool that takes jobs queues all of `jobs` behind what it already
/// holds, in their order, and changes in nothing else.
pub proof fn lemma_submit_all_queues_in_order(v: PoolView, jobs: Seq<u64>)
    requires
        v.accepting,
    ensures
        after_submit_all(v, jobs) == (PoolView {
            pending: v.pending + jobs,
            submitted: v.submitted + jobs,
            ..v
        }),
    decreases jobs.len(),
{
    if jobs.len() == 0 {
        assert(v.pending + jobs =~= v.pending);
        assert(v.submitted + jobs =~= v.submitted);
    } else {
        lemma_submit_all_queues_in_order(v, jobs.drop_last());
        assert(v.pending + jobs =~= (v.pending + jobs.drop_last()).push(jobs.last()));
        assert(v.submitted + jobs =~= (v.submitted + jobs.drop_last()).push(jobs.last()));
    }
}

/// From creation to teardown: a pool of any positive size that is given any
/// jobs and is then torn down has run every one of them to its end, each
/// once and in the order of submission, before the teardown is over.
pub proof fn lemma_every_submitted_job_completes(size: nat, jobs: Seq<u64>)
    requires
        size > 0,
    ensures
        ({
            let end = after_submit_all(PoolView::initial(size), jobs).after_shutdown();
            &&& end.submitted == jobs
            &&& end.delivered == jobs
            &&& end.completed == jobs
            &&& end.failed.len() == 0
            &&& end.pending.len() == 0
            &&& end.all_joined()
            &&& !end.accepting
            &&& forall|i: int| 0 <= i < size ==> end.workers[i] == WorkerState::Exited
        }),
{
    let start = PoolView::initial(size);
    lemma_submit_all_queues_in_order(start, jobs);
    let full = after_submit_all(start, jobs);
    lemma_none_busy(full.workers);
    let settled = full.after_jobs_end();
    assert(settled.workers =~= full.workers);
    assert(settled.completed =~= full.completed);
    assert(settled.workers[0] == WorkerState::Idle);
    assert(settled.idle_before(settled.workers.len() as int));
    let end = full.after_shutdown();
    assert(end.submitted =~= jobs);
    assert(end.delivered =~= jobs);
    assert(end.completed =~= jobs);
}

/// The teardown leaves nothing behind. Wherever it begins, as long as one
/// worker is still there, it ends with every job that was in flight or
/// pending run to its end: nothing is pending, nothing is in flight, and the
/// pool has collected every thread.
pub proof fn lemma_shutdown_ends_every_job(v: PoolView)
    requires
        v.inv(),
        exists|i: int| 0 <= i < v.workers.len() && is_live(v.workers[i]),
    ensures
        ({
            let end = v.after_shutdown();
            &&& end.completed == v.completed + busy_jobs(v.workers) + v.pending
            &&& end.delivered == v.delivered + v.pending
            &&& end.pending.len() == 0
            &&& end.none_busy()
            &&& end.all_joined()
            &&& !end.accepting
            &&& end.submitted == v.submitted
            &&& end.failed == v.failed
        }),
{
    let i = choose|i: int| 0 <= i < v.workers.len() && is_live(v.workers[i]);
    let mid = v.after_jobs_end();
    assert(mid.workers[i] == WorkerState::Idle);
    assert(mid.idle_before(mid.workers.len() as int));
}

/// The pool after the first `n` workers, one after the other, have each
/// taken the lock and looked at the channel, none of them having finished
/// what it took.
pub open spec fn after_claims(v: PoolView, n: int) -> PoolView
    decreases n,
{
    if n <= 0 {
        v
    } else {
        after_claims(v, n - 1).after_lock(n - 1).after_receive(n - 1)
    }
}

/// Jobs run side by side: in a new pool that was given no more jobs than it
/// has workers, the workers can take one job each, in the order of
/// submission, before any of them has finished. All the jobs are then in
/// flight at once, each on a worker of its own, and the lock is free.
pub proof fn lemma_jobs_run_side_by_side(size: nat, jobs: Seq<u64>, n: int)
    requires
        0 <= n <= jobs.len() <= size,
    ensures
        ({
            let v = after_claims(after_submit_all(PoolView::initial(size), jobs), n);
            &&& v.workers.len() == size
            &&& forall|i: int| 0 <= i < n ==> v.workers[i] == WorkerState::Busy(jobs[i])
            &&& forall|i: int| n <= i < size ==> v.workers[i] == WorkerState::Idle
            &&& v.lock is None
            &&& v.pending == jobs.skip(n)
            &&& v.delivered == jobs.take(n)
            &&& v.accepting
        }),
    decreases n,
{
    let full = after_submit_all(PoolView::initial(size), jobs);
    lemma_submit_all_queues_in_order(PoolView::initial(size), jobs);
    if n == 0 {
        assert(full.pending =~= jobs.skip(0));
        assert(full.delivered =~= jobs.take(0));
    } else {
        lemma_jobs_run_side_by_side(size, jobs, n - 1);
        let before = after_claims(full, n - 1);
        let v = after_claims(full, n);
        assert(before.pending.len() > 0);
        assert(before.pending[0] == jobs[n - 1]);
        assert(v.pending =~= jobs.skip(n));
        assert(v.delivered =~= jobs.take(n));
    }
}

/// A worker whose thread has ended is never replaced or restarted: whatever
/// a worker or a caller does next, it stays as it is.
pub proof fn lemma_terminated_worker_stays(
    v: PoolView,
    j: int,
    id: int,
    job: u64,
    outcome: Outcome,
)
    requires
        v.inv(),
        0 <= j < v.workers.len(),
        is_terminated(v.workers[j]),
        0 <= id < v.workers.len(),
    ensures
        v.after_submit(job).workers[j] == v.workers[j],
        v.workers[id] == WorkerState::Idle ==> v.after_lock(id).workers[j] == v.workers[j],
        v.lock == Some(id) ==> v.after_receive(id).workers[j] == v.workers[j],
        v.workers[id] is Busy ==> v.after_finish(id, outcome).workers[j] == v.workers[j],
        v.workers[id] == WorkerState::Idle ==> v.after_run(id).workers[j] == v.workers[j],
        v.closed().workers[j] == v.workers[j],
        v.after_shutdown().workers[j] == v.workers[j],
{
}

/// The pool never gains capacity: no step of a worker raises the number of
/// workers that can still take jobs, and the two steps that end a thread
/// lower it by exactly one.
pub proof fn lemma_capacity_never_grows(v: PoolView, id: int, outcome: Outcome)
    requires
        v.inv(),
        0 <= id < v.workers.len(),
    ensures
        v.lock == Some(id) ==> live_count(v.after_receive(id).workers) == live_count(v.workers)
            - (if v.pending.len() == 0 && !v.accepting {
            1int
        } else {
            0int
        }),
        v.workers[id] is Busy ==> live_count(v.after_finish(id, outcome).workers) == live_count(
            v.workers,
        ) - (if outcome == Outcome::Failed {
            1int
        } else {
            0int
        }),
        v.workers[id] == WorkerState::Idle ==> live_count(v.after_run(id).workers) == live_count(
            v.workers,
        ) - (if v.accepting {
            0int
        } else {
            1int
        }),
{
    if v.lock == Some(id) {
        lemma_live_count_update(v.workers, id, v.after_receive(id).workers[id]);
        assert(v.after_receive(id).workers =~= v.workers.update(
            id,
            v.after_receive(id).workers[id],
        ));
    }
    if v.workers[id] is Busy {
        lemma_live_count_update(v.workers, id, v.after_finish(id, outcome).workers[id]);
    }
    if v.workers[id] == WorkerState::Idle {
        lemma_live_count_update(v.workers, id, v.after_run(id).workers[id]);
    }
}

/// The lock is held to look at the channel and never to run a job: whoever
/// holds it is idle, so a worker that is busy, or whose thread has ended,
/// does not hold it.
pub proof fn lemma_lock_is_not_held_over_a_job(pool: ThreadPool, i: int)
    requires
        pool.wf(),
        0 <= i < pool@.workers.len(),
        pool@.workers[i] != WorkerState::Idle,
    ensures
        pool@.lock != Some(i),
{
    pool.lemma_wf_inv();
}

/// Workers take jobs without regard to what the others are doing. An idle
/// worker that finds the lock free and a job pending leaves with that job,
/// however many of the others are busy, and leaves them as they are; and it
/// leaves the lock free, so that the next idle worker can take the next job
/// while this one is still running.
pub proof fn lemma_claim_ignores_other_workers(v: PoolView, id: int)
    requires
        0 <= id < v.workers.len(),
        v.lock is None,
        v.pending.len() > 0,
    ensures
        v.after_lock(id).after_receive(id).workers[id] == WorkerState::Busy(v.pending[0]),
        v.after_lock(id).after_receive(id).lock is None,
        v.after_lock(id).after_receive(id).pending == v.pending.drop_first(),
        forall|j: int|
            0 <= j < v.workers.len() && j != id ==> v.after_lock(id).after_receive(id).workers[j]
                == v.workers[j],
{
}

} // verus!

//! The pool: a fixed set of workers around one work channel, as a state
//! machine. Every choice that a scheduler would make is a call of the caller:
//! which worker looks at the channel next, which job ends and how, and when
//! the pool is torn down.
use vstd::prelude::*;
use vstd::multiset::Multiset;
use vstd::seq_lib::*;
use crate::channel::{Channel, ChannelView, Received, spec_receive};
use crate::worker::{
    Worker, WorkerState, Outcome, in_flight, live_count, is_live, is_terminated, job_of,
    busy_jobs, settled, lemma_none_busy,
    spec_on_finish, failed_count, lemma_in_flight_update, lemma_live_count_update, lemma_all_idle,
    lemma_failed_count_update,
};

verus! {

/// The two ways in which a caller can misuse the pool.
#[derive(Clone, Copy, Debug, PartialEq, Eq, Structural)]
pub enum PoolError {
    /// A pool was asked for with no worker at all.
    ZeroWorkers,
    /// A job was submitted after shutdown had begun.
    Closed,
}

/// One step of the pool's teardown.
#[derive(Clone, Copy, Debug, PartialEq, Eq, Structural)]
pub enum ShutdownStep {
    /// The thread of this worker had ended and has now been collected.
    Joined(usize),
    /// The pool waits for this worker, which is still idle or busy.
    Blocked(usize),
    /// Every worker has been collected: the pool is torn down.
    Done,
}

/// The mathematical content of a pool: its present state and its history.
pub struct PoolView {
    /// The state of each worker, by identifier.
    pub workers: Seq<WorkerState>,
    /// For each worker, whether the pool has collected its thread.
    pub joined: Seq<bool>,
    /// The jobs waiting in the channel, oldest first.
    pub pending: Seq<u64>,
    /// Whether the pool still takes jobs.
    pub accepting: bool,
    /// The worker that holds the lock on the channel's reading end, if any.
    pub lock: Option<int>,
    /// Every job ever accepted, in the order of submission.
    pub submitted: Seq<u64>,
    /// Every job ever handed to a worker, in the order of delivery.
    pub delivered: Seq<u64>,
    /// The jobs that returned, in the order in which they ended.
    pub completed: Seq<u64>,
    /// The jobs that failed abnormally, in the order in which they ended.
    pub failed: Seq<u64>,
}

impl PoolView {
    /// A fresh pool of `size` idle workers.
    pub open spec fn initial(size: nat) -> PoolView {
        PoolView {
            workers: Seq::new(size, |i: int| WorkerState::Idle),
            joined: Seq::new(size, |i: int| false),
            pending: Seq::empty(),
            accepting: true,
            lock: None,
            submitted: Seq::empty(),
            delivered: Seq::empty(),
            completed: Seq::empty(),
            failed: Seq::empty(),
        }
    }

    /// What holds of every pool, whatever has happened to it.
    pub open spec fn inv(self) -> bool {
        &&& self.workers.len() >= 1
        &&& self.joined.len() == self.workers.len()
        &&& self.submitted == self.delivered + self.pending
        &&& self.delivered.to_multiset() == in_flight(self.workers).add(
            self.completed.to_multiset(),
        ).add(self.failed.to_multiset())
        &&& self.failed.len() == failed_count(self.workers)
        &&& self.lock matches Some(h) ==> 0 <= h < self.workers.len() && self.workers[h]
            == WorkerState::Idle
        &&& forall|i: int|
            0 <= i < self.workers.len() && #[trigger] self.workers[i] == WorkerState::Exited
                ==> !self.accepting && self.pending.len() == 0
        &&& forall|i: int|
            #![trigger self.workers[i]]
            #![trigger self.joined[i]]
            0 <= i < self.workers.len() && self.joined[i] ==> !self.accepting && is_terminated(
                self.workers[i],
            )
    }

    /// The channel as the workers see it.
    pub open spec fn channel(self) -> ChannelView {
        ChannelView { pending: self.pending, open: self.accepting }
    }

    /// The pool after `job` was accepted.
    pub open spec fn after_execute(self, job: u64) -> PoolView {
        PoolView {
            pending: self.pending.push(job),
            submitted: self.submitted.push(job),
            ..self
        }
    }

    /// The answer to a submission: accepted while the pool takes jobs,
    /// refused as soon as its teardown has begun.
    pub open spec fn submit_result(self) -> Result<(), PoolError> {
        if self.accepting {
            Ok(())
        } else {
            Err(PoolError::Closed)
        }
    }

    /// The pool after the submission of `job`, accepted or not.
    pub open spec fn after_submit(self, job: u64) -> PoolView {
        if self.accepting {
            self.after_execute(job)
        } else {
            self
        }
    }

    /// The pool after idle worker `id` has asked for the lock: it holds the
    /// lock if the lock was free, and nothing has changed if it was not.
    pub open spec fn after_lock(self, id: int) -> PoolView {
        if self.lock is None {
            PoolView { lock: Some(id), ..self }
        } else {
            self
        }
    }

    /// The pool after worker `id`, which holds the lock, has looked at the
    /// channel. With a job pending it has taken the oldest one and let go of
    /// the lock before running it. On an empty and closed channel it has let
    /// go of the lock and exited. On an empty and open channel it still
    /// waits, with the lock in its hand.
    pub open spec fn after_receive(self, id: int) -> PoolView {
        if self.pending.len() > 0 {
            PoolView {
                workers: self.workers.update(id, WorkerState::Busy(self.pending[0])),
                pending: self.pending.drop_first(),
                delivered: self.delivered.push(self.pending[0]),
                lock: None,
                ..self
            }
        } else if self.accepting {
            self
        } else {
            PoolView { workers: self.workers.update(id, WorkerState::Exited), lock: None, ..self }
        }
    }

    /// The pool after the job of busy worker `id` ended with `outcome`.
    pub open spec fn after_finish(self, id: int, outcome: Outcome) -> PoolView {
        let job = self.workers[id]->Busy_0;
        match outcome {
            Outcome::Completed => PoolView {
                workers: self.workers.update(id, WorkerState::Idle),
                completed: self.completed.push(job),
                ..self
            },
            Outcome::Failed => PoolView {
                workers: self.workers.update(id, WorkerState::Failed),
                failed: self.failed.push(job),
                ..self
            },
        }
    }

    /// The pool after idle worker `id` has run every pending job to its normal
    /// end, oldest first, and found the channel empty: on an open channel it
    /// waits there with the lock in its hand, on a closed one it has exited.
    pub open spec fn after_run(self, id: int) -> PoolView {
        PoolView {
            workers: self.workers.update(
                id,
                if self.accepting {
                    WorkerState::Idle
                } else {
                    WorkerState::Exited
                },
            ),
            lock: if self.accepting {
                Some(id)
            } else {
                None
            },
            pending: Seq::empty(),
            delivered: self.delivered + self.pending,
            completed: self.completed + self.pending,
            ..self
        }
    }

    /// The pool with its channel closed.
    pub open spec fn closed(self) -> PoolView {
        PoolView { accepting: false, ..self }
    }

    /// One of the first `n` workers is idle.
    pub open spec fn idle_before(self, n: int) -> bool {
        exists|j: int| 0 <= j < n && j < self.workers.len() && self.workers[j] == WorkerState::Idle
    }

    /// No worker is running a job.
    pub open spec fn none_busy(self) -> bool {
        forall|j: int| 0 <= j < self.workers.len() ==> !(self.workers[j] is Busy)
    }

    /// The pool after every job in flight has returned, in the order of the
    /// workers that ran them: those workers are idle again.
    pub open spec fn after_jobs_end(self) -> PoolView {
        PoolView {
            workers: Seq::new(self.workers.len(), |j: int| settled(self.workers[j])),
            completed: self.completed + busy_jobs(self.workers),
            ..self
        }
    }

    /// The pool after a complete teardown: the jobs in flight have returned,
    /// and then the idle workers have run what was pending and the pool has
    /// collected every thread.
    pub open spec fn after_shutdown(self) -> PoolView {
        self.after_jobs_end().after_idle_shutdown()
    }

    /// The jobs that run to their end during a complete teardown, in the
    /// order in which they end: first those in flight, in the order of their
    /// workers, then the pending ones, oldest first, where a worker is left
    /// to run them.
    pub open spec fn ended_by_shutdown(self) -> Seq<u64> {
        busy_jobs(self.workers) + if self.after_jobs_end().idle_before(self.workers.len() as int) {
            self.pending
        } else {
            Seq::empty()
        }
    }

    /// The pool after a complete teardown that began while no job was in
    /// flight: the channel is closed, every idle worker has exited, every
    /// worker's thread is collected, and, where there was an idle worker to
    /// do it, every pending job has been run to its normal end, oldest
    /// first. Where every worker had been lost before, the pending jobs
    /// stay where they are.
    pub open spec fn after_idle_shutdown(self) -> PoolView {
        let drained = self.idle_before(self.workers.len() as int);
        PoolView {
            workers: Seq::new(
                self.workers.len(),
                |j: int|
                    if self.workers[j] == WorkerState::Idle {
                        WorkerState::Exited
                    } else {
                        self.workers[j]
                    },
            ),
            joined: Seq::new(self.workers.len(), |j: int| true),
            accepting: false,
            lock: None,
            pending: if drained {
                Seq::empty()
            } else {
                self.pending
            },
            delivered: if drained {
                self.delivered + self.pending
            } else {
                self.delivered
            },
            completed: if drained {
                self.completed + self.pending
            } else {
                self.completed
            },
            ..self
        }
    }

    /// Worker `i` is the first, in construction order, that is not yet collected.
    pub open spec fn first_unjoined(self, i: int) -> bool {
        &&& 0 <= i < self.workers.len()
        &&& !self.joined[i]
        &&& forall|j: int| 0 <= j < i ==> self.joined[j]
    }

    /// Every worker has been collected.
    pub open spec fn all_joined(self) -> bool {
        forall|j: int| 0 <= j < self.workers.len() ==> self.joined[j]
    }
}

/// A fixed-size pool of workers that share one work channel.
pub struct ThreadPool {
    workers: Vec<Worker>,
    channel: Channel,
    lock: Option<usize>,
    submitted: Ghost<Seq<u64>>,
    delivered: Ghost<Seq<u64>>,
    completed: Ghost<Seq<u64>>,
    failed: Ghost<Seq<u64>>,
}

impl View for ThreadPool {
    type V = PoolView;

    closed spec fn view(&self) -> PoolView {
        PoolView {
            workers: self.workers@.map_values(|w: Worker| w@.state),
            joined: self.workers@.map_values(|w: Worker| w@.joined),
            pending: self.channel@.pending,
            accepting: self.channel@.open,
            lock: match self.lock {
                Some(h) => Some(h as int),
                None => None,
            },
            submitted: self.submitted@,
            delivered: self.delivered@,
            completed: self.completed@,
            failed: self.failed@,
        }
    }
}

impl ThreadPool {
    /// The pool is well formed: worker `i` has identifier `i`, and the
    /// content satisfies `PoolView::inv`.
    pub closed spec fn wf(&self) -> bool {
        &&& forall|i: int| 0 <= i < self.workers@.len() ==> (#[trigger] self.workers@[i])@.id == i
        &&& self@.inv()
    }

    /// A well-formed pool satisfies `PoolView::inv`.
    pub proof fn lemma_wf_inv(&self)
        requires
            self.wf(),
        ensures
            self@.inv(),
    {
    }

    /// Creates a pool of `size` idle workers, numbered from zero, around an
    /// open and empty channel. A pool without workers is refused.
    pub fn new(size: usize) -> (r: Result<ThreadPool, PoolError>)
        ensures
            match r {
                Ok(pool) => size > 0 && pool.wf() && pool@ == PoolView::initial(size as nat)
                    && live_count(pool@.workers) == size,
                Err(e) => size == 0 && e == PoolError::ZeroWorkers,
            },
    {
        if size == 0 {
            return Err(PoolError::ZeroWorkers);
        }
        let mut workers: Vec<Worker> = Vec::with_capacity(size);
        let mut id: usize = 0;
        while id < size
            invariant
                id <= size,
                workers@.len() == id,
                forall|i: int|
                    0 <= i < id ==> (#[trigger] workers@[i])@ == (crate::worker::WorkerView {
                        id: i as nat,
                        state: WorkerState::Idle,
                        joined: false,
                    }),
            decreases size - id,
        {
            workers.push(Worker::new(id));
            id += 1;
        }
        let pool = ThreadPool {
            workers,
            channel: Channel::new(),
            lock: None,
            submitted: Ghost(Seq::empty()),
            delivered: Ghost(Seq::empty()),
            completed: Ghost(Seq::empty()),
            failed: Ghost(Seq::empty()),
        };
        proof {
            let v = pool@;
            assert(v.workers =~= PoolView::initial(size as nat).workers);
            assert(v.joined =~= PoolView::initial(size as nat).joined);
            assert(v.delivered + v.pending =~= v.submitted);
            lemma_all_idle(v.workers);
            assert(Seq::<u64>::empty().to_multiset() =~= Multiset::<u64>::empty()) by {
                Seq::<u64>::empty().to_multiset_ensures();
            }
            assert(in_flight(v.workers).add(v.completed.to_multiset()).add(v.failed.to_multiset())
                =~= Multiset::<u64>::empty()) by {
                broadcast use vstd::multiset::group_multiset_axioms;

            }
        }
        Ok(pool)
    }

    /// The number of workers, fixed at construction.
    pub fn size(&self) -> (n: usize)
        ensures
            n == self@.workers.len(),
    {
        self.workers.len()
    }

    /// Whether the pool still takes jobs.
    pub fn is_accepting(&self) -> (b: bool)
        ensures
            b == self@.accepting,
    {
        self.channel.is_open()
    }

    /// The number of jobs waiting in the channel.
    pub fn pending(&self) -> (n: usize)
        ensures
            n == self@.pending.len(),
    {
        self.channel.len()
    }

    /// Submits `job`: it joins the tail of the channel. Once shutdown has
    /// begun the job is refused and nothing changes.
    pub fn execute(&mut self, job: u64) -> (r: Result<(), PoolError>)
        requires
            old(self).wf(),
        ensures
            final(self).wf(),
            r == old(self)@.submit_result(),
            final(self)@ == old(self)@.after_submit(job),
    {
        match self.channel.send(job) {
            Ok(()) => {
                proof {
                    self.submitted@ = self.submitted@.push(job);
                }
                Ok(())
            },
            Err(_) => Err(PoolError::Closed),
        }
    }

    /// The state of worker `id`.
    pub fn worker_state(&self, id: usize) -> (s: WorkerState)
        requires
            id < self@.workers.len(),
        ensures
            s == self@.workers[id as int],
    {
        self.workers[id].state()
    }

    /// The worker that holds the lock on the channel's reading end, if any.
    pub fn lock_holder(&self) -> (holder: Option<usize>)
        ensures
            match holder {
                Some(h) => self@.lock == Some(h as int),
                None => self@.lock is None,
            },
    {
        self.lock
    }

    /// Idle worker `id` asks for the lock on the channel's reading end. It
    /// gets the lock if no worker holds it; otherwise it has to ask again
    /// later, and nothing changes.
    pub fn worker_lock(&mut self, id: usize) -> (got: bool)
        requires
            old(self).wf(),
            id < old(self)@.workers.len(),
            old(self)@.workers[id as int] == WorkerState::Idle,
        ensures
            final(self).wf(),
            got == (old(self)@.lock is None),
            final(self)@ == old(self)@.after_lock(id as int),
    {
        match self.lock {
            None => {
                self.lock = Some(id);
                true
            },
            Some(_) => false,
        }
    }

    /// Worker `id`, which holds the lock, looks at the channel once. It
    /// leaves with the oldest pending job, which no other worker will see
    /// again, and lets go of the lock before it runs the job; or it keeps
    /// waiting with the lock, when the channel is empty and open; or it lets
    /// go of the lock and exits, when the channel is empty and closed. No
    /// other worker is touched, whatever it is doing.
    pub fn worker_receive(&mut self, id: usize) -> (r: Received)
        requires
            old(self).wf(),
            old(self)@.lock == Some(id as int),
        ensures
            final(self).wf(),
            r == spec_receive(old(self)@.channel()),
            final(self)@ == old(self)@.after_receive(id as int),
    {
        proof {
            self.lemma_wf_inv();
        }
        let r = self.channel.receive();
        let mut w = self.workers[id];
        w.on_receive(r);
        self.workers.set(id, w);
        match r {
            Received::Empty => {},
            _ => {
                self.lock = None;
            },
        }
        proof {
            broadcast use vstd::multiset::group_multiset_axioms;

            let o = old(self)@;
            if let Received::Job(job) = r {
                self.delivered@ = self.delivered@.push(job);
            }
            let v = self@;
            let e = o.after_receive(id as int);
            assert(v.workers =~= e.workers);
            assert(v.joined =~= o.joined);
            assert(v.delivered + v.pending =~= v.submitted);
            assert(v.workers =~= o.workers.update(id as int, v.workers[id as int]));
            lemma_in_flight_update(o.workers, id as int, v.workers[id as int]);
            lemma_failed_count_update(o.workers, id as int, v.workers[id as int]);
            o.delivered.to_multiset_ensures();
            assert(in_flight(v.workers) =~= in_flight(o.workers).add(job_of(v.workers[id as int])));
            assert(v.delivered.to_multiset() =~= in_flight(v.workers).add(
                v.completed.to_multiset(),
            ).add(v.failed.to_multiset()));
        }
        r
    }

    /// The job that busy worker `id` was running has ended. After a normal
    /// end the worker waits for its next job. After an abnormal end the
    /// worker is lost for the rest of the pool's life; every other worker
    /// goes on as before. Returns the job that ended.
    pub fn worker_finish(&mut self, id: usize, outcome: Outcome) -> (job: u64)
        requires
            old(self).wf(),
            id < old(self)@.workers.len(),
            old(self)@.workers[id as int] is Busy,
        ensures
            final(self).wf(),
            old(self)@.workers[id as int] == WorkerState::Busy(job),
            final(self)@ == old(self)@.after_finish(id as int, outcome),
            live_count(final(self)@.workers) == live_count(old(self)@.workers) - (if outcome
                == Outcome::Failed {
                1int
            } else {
                0int
            }),
    {
        let mut w = self.workers[id];
        let job = w.on_finish(outcome);
        self.workers.set(id, w);
        proof {
            broadcast use vstd::multiset::group_multiset_axioms;

            let o = old(self)@;
            match outcome {
                Outcome::Completed => {
                    self.completed@ = self.completed@.push(job);
                },
                Outcome::Failed => {
                    self.failed@ = self.failed@.push(job);
                },
            }
            let v = self@;
            let e = o.after_finish(id as int, outcome);
            assert(v.workers =~= e.workers);
            assert(v.joined =~= o.joined);
            lemma_in_flight_update(o.workers, id as int, spec_on_finish(outcome));
            lemma_live_count_update(o.workers, id as int, spec_on_finish(outcome));
            lemma_failed_count_update(o.workers, id as int, spec_on_finish(outcome));
            o.completed.to_multiset_ensures();
            o.failed.to_multiset_ensures();
            assert(in_flight(v.workers).add(Multiset::singleton(job)) =~= in_flight(o.workers));
            assert(v.delivered.to_multiset() =~= in_flight(v.workers).add(
                v.completed.to_multiset(),
            ).add(v.failed.to_multiset()));
        }
        job
    }

    /// The loop of idle worker `id`, with every job returning normally: the
    /// worker takes job after job from the head of the channel and runs it,
    /// until the channel is empty. Then it waits, if the channel is open, or
    /// exits, if it is closed. Returns the jobs it ran, in the order in which
    /// it ran them: the pending ones, oldest first.
    pub fn run_worker(&mut self, id: usize) -> (ran: Vec<u64>)
        requires
            old(self).wf(),
            id < old(self)@.workers.len(),
            old(self)@.workers[id as int] == WorkerState::Idle,
            old(self)@.lock is None || old(self)@.lock == Some(id as int),
        ensures
            final(self).wf(),
            ran@ == old(self)@.pending,
            final(self)@ == old(self)@.after_run(id as int),
    {
        let mut ran: Vec<u64> = Vec::new();
        loop
            invariant
                self.wf(),
                id < self@.workers.len(),
                old(self)@.workers[id as int] == WorkerState::Idle,
                self@.workers == old(self)@.workers,
                self@.joined == old(self)@.joined,
                self@.accepting == old(self)@.accepting,
                self@.lock is None || self@.lock == Some(id as int),
                self@.submitted == old(self)@.submitted,
                self@.failed == old(self)@.failed,
                self@.delivered == old(self)@.delivered + ran@,
                self@.completed == old(self)@.completed + ran@,
                ran@ + self@.pending == old(self)@.pending,
            decreases self@.pending.len(),
        {
            if self.lock.is_none() {
                self.worker_lock(id);
            }
            match self.worker_receive(id) {
                Received::Job(job) => {
                    let done = self.worker_finish(id, Outcome::Completed);
                    ran.push(done);
                    proof {
                        let o = old(self)@;
                        assert(self@.workers =~= o.workers);
                        assert(self@.delivered =~= o.delivered + ran@);
                        assert(self@.completed =~= o.completed + ran@);
                        assert(ran@ + self@.pending =~= o.pending);
                    }
                },
                _ => {
                    proof {
                        let o = old(self)@;
                        let e = o.after_run(id as int);
                        assert(ran@ =~= o.pending);
                        assert(self@.pending =~= e.pending);
                        assert(self@.workers =~= e.workers);
                    }
                    return ran;
                },
            }
        }
    }

    /// The number of workers that can still take jobs.
    pub fn capacity(&self) -> (n: usize)
        ensures
            n == live_count(self@.workers),
    {
        let mut n: usize = 0;
        let mut i: usize = 0;
        while i < self.workers.len()
            invariant
                i <= self.workers@.len(),
                n <= i,
                n == live_count(self@.workers.take(i as int)),
            decreases self.workers@.len() - i,
        {
            proof {
                let ws = self@.workers.take(i as int + 1);
                assert(ws.drop_last() =~= self@.workers.take(i as int));
            }
            if self.workers[i].is_live() {
                n += 1;
            }
            i += 1;
        }
        proof {
            assert(self@.workers.take(i as int) =~= self@.workers);
        }
        n
    }

    /// One step of the teardown. The first call closes the channel, so that
    /// no job is accepted from then on; jobs already queued stay. Then the
    /// pool turns to the first worker, in construction order, whose thread it
    /// has not collected: it collects the thread if that worker has ended,
    /// and is blocked on it otherwise. When no such worker is left the pool
    /// is torn down.
    pub fn shutdown_step(&mut self) -> (step: ShutdownStep)
        requires
            old(self).wf(),
        ensures
            final(self).wf(),
            match step {
                ShutdownStep::Joined(id) => {
                    &&& old(self)@.first_unjoined(id as int)
                    &&& is_terminated(old(self)@.workers[id as int])
                    &&& final(self)@ == (PoolView {
                        joined: old(self)@.joined.update(id as int, true),
                        ..old(self)@.closed()
                    })
                },
                ShutdownStep::Blocked(id) => {
                    &&& old(self)@.first_unjoined(id as int)
                    &&& !is_terminated(old(self)@.workers[id as int])
                    &&& final(self)@ == old(self)@.closed()
                },
                ShutdownStep::Done => {
                    &&& old(self)@.all_joined()
                    &&& final(self)@ == old(self)@.closed()
                },
            },
    {
        self.channel.close();
        assert(self@ == old(self)@.closed());
        let mut i: usize = 0;
        while i < self.workers.len()
            invariant
                i <= self.workers@.len(),
                self.wf(),
                self@ == old(self)@.closed(),
                forall|j: int| 0 <= j < i ==> self@.joined[j],
            decreases self.workers@.len() - i,
        {
            let mut w = self.workers[i];
            if !w.is_joined() {
                if w.is_terminated() {
                    w.mark_joined();
                    self.workers.set(i, w);
                    proof {
                        let c = old(self)@.closed();
                        assert(self@.workers =~= c.workers);
                        assert(self@.joined =~= c.joined.update(i as int, true));
                    }
                    return ShutdownStep::Joined(i);
                } else {
                    return ShutdownStep::Blocked(i);
                }
            }
            i += 1;
        }
        ShutdownStep::Done
    }

    /// Every job in flight returns, in the order of the workers that run
    /// them, and these workers are idle again. Returns the jobs that ended.
    pub fn finish_jobs(&mut self) -> (ended: Vec<u64>)
        requires
            old(self).wf(),
        ensures
            final(self).wf(),
            final(self)@ == old(self)@.after_jobs_end(),
            final(self)@.none_busy(),
            ended@ == busy_jobs(old(self)@.workers),
    {
        let mut ended: Vec<u64> = Vec::new();
        let mut i: usize = 0;
        while i < self.workers.len()
            invariant
                self.wf(),
                i <= self@.workers.len(),
                self@.workers.len() == old(self)@.workers.len(),
                self@.joined == old(self)@.joined,
                self@.pending == old(self)@.pending,
                self@.accepting == old(self)@.accepting,
                self@.lock == old(self)@.lock,
                self@.submitted == old(self)@.submitted,
                self@.delivered == old(self)@.delivered,
                self@.failed == old(self)@.failed,
                self@.completed == old(self)@.completed + ended@,
                ended@ == busy_jobs(old(self)@.workers.take(i as int)),
                forall|j: int|
                    0 <= j < i ==> #[trigger] self@.workers[j] == settled(old(self)@.workers[j]),
                forall|j: int|
                    i <= j < self@.workers.len() ==> #[trigger] self@.workers[j] == old(
                        self,
                    )@.workers[j],
            decreases self@.workers.len() - i,
        {
            proof {
                let ws = old(self)@.workers;
                assert(ws.take(i as int + 1).drop_last() =~= ws.take(i as int));
                assert(ws.take(i as int + 1).last() == ws[i as int]);
                assert(self@.workers[i as int] == ws[i as int]);
            }
            match self.workers[i].state() {
                WorkerState::Busy(_) => {
                    let job = self.worker_finish(i, Outcome::Completed);
                    ended.push(job);
                    proof {
                        assert(self@.completed =~= old(self)@.completed + ended@);
                    }
                },
                _ => {
                    proof {
                        let ws = old(self)@.workers;
                        assert(busy_jobs(ws.take(i as int + 1)) =~= busy_jobs(ws.take(i as int)));
                    }
                },
            }
            i += 1;
        }
        proof {
            let o = old(self)@;
            assert(o.workers.take(i as int) =~= o.workers);
            assert(self@.workers =~= o.after_jobs_end().workers);
        }
        ended
    }

    /// The whole teardown. The jobs in flight return first. The channel is
    /// closed. Then the pool turns to its workers in construction order and
    /// waits for each: an idle worker runs what is pending, oldest first,
    /// finds the channel closed and empty, and exits; then its thread is
    /// collected. Returns the jobs that ended on the way, in the order in
    /// which they ended.
    pub fn shutdown(&mut self) -> (ran: Vec<u64>)
        requires
            old(self).wf(),
        ensures
            final(self).wf(),
            final(self)@ == old(self)@.after_shutdown(),
            ran@ == old(self)@.ended_by_shutdown(),
    {
        let mut ran = self.finish_jobs();
        let mut more = self.shutdown_idle();
        ran.append(&mut more);
        ran
    }

    /// The teardown from a state in which no job is in flight.
    fn shutdown_idle(&mut self) -> (ran: Vec<u64>)
        requires
            old(self).wf(),
            old(self)@.none_busy(),
        ensures
            final(self).wf(),
            final(self)@ == old(self)@.after_idle_shutdown(),
            ran@ == if old(self)@.idle_before(old(self)@.workers.len() as int) {
                old(self)@.pending
            } else {
                Seq::<u64>::empty()
            },
    {
        self.channel.close();
        let mut ran: Vec<u64> = Vec::new();
        proof {
            self.lemma_wf_inv();
        }
        if let Some(holder) = self.lock {
            ran = self.run_worker(holder);
            proof {
                let o = old(self)@;
                assert(o.idle_before(holder as int + 1));
                assert(self@.delivered =~= o.delivered + o.pending);
                assert(self@.completed =~= o.completed + o.pending);
            }
        }
        let mut i: usize = 0;
        while i < self.workers.len()
            invariant
                self.wf(),
                !self@.accepting,
                self@.lock is None,
                old(self)@.lock matches Some(h) ==> 0 <= h < old(self)@.workers.len() && old(
                    self,
                )@.workers[h] == WorkerState::Idle,
                i <= self@.workers.len(),
                self@.workers.len() == old(self)@.workers.len(),
                self@.none_busy(),
                old(self)@.none_busy(),
                self@.submitted == old(self)@.submitted,
                self@.failed == old(self)@.failed,
                self@.joined.len() == self@.workers.len(),
                forall|j: int| 0 <= j < i ==> #[trigger] self@.joined[j],
                forall|j: int|
                    0 <= j < i ==> #[trigger] self@.workers[j] == (if old(self)@.workers[j]
                        == WorkerState::Idle {
                        WorkerState::Exited
                    } else {
                        old(self)@.workers[j]
                    }),
                forall|j: int|
                    i <= j < self@.workers.len() ==> #[trigger] self@.joined[j] == old(
                        self,
                    )@.joined[j],
                forall|j: int|
                    i <= j < self@.workers.len() ==> #[trigger] self@.workers[j] == old(
                        self,
                    )@.workers[j] || (old(self)@.lock == Some(j) && self@.workers[j]
                        == WorkerState::Exited),
                old(self)@.lock is Some || old(self)@.idle_before(i as int) ==> {
                    &&& ran@ == old(self)@.pending
                    &&& self@.pending == Seq::<u64>::empty()
                    &&& self@.delivered == old(self)@.delivered + old(self)@.pending
                    &&& self@.completed == old(self)@.completed + old(self)@.pending
                },
                !(old(self)@.lock is Some || old(self)@.idle_before(i as int)) ==> {
                    &&& ran@ == Seq::<u64>::empty()
                    &&& self@.pending == old(self)@.pending
                    &&& self@.delivered == old(self)@.delivered
                    &&& self@.completed == old(self)@.completed
                },
            decreases self@.workers.len() - i,
        {
            let ghost o = old(self)@;
            assert(self@.workers[i as int] == o.workers[i as int] || (o.lock == Some(i as int)
                && self@.workers[i as int] == WorkerState::Exited));
            if self.workers[i].is_live() {
                let mut more = self.run_worker(i);
                ran.append(&mut more);
                proof {
                    assert(o.workers[i as int] == WorkerState::Idle);
                    assert(o.idle_before(i as int + 1));
                    assert(ran@ =~= o.pending);
                    assert(self@.delivered =~= o.delivered + o.pending);
                    assert(self@.completed =~= o.completed + o.pending);
                }
            } else {
                proof {
                    if o.lock is None && o.idle_before(i as int + 1) {
                        assert(o.idle_before(i as int));
                    }
                }
            }
            let ghost middle = self@;
            let mut w = self.workers[i];
            assert(w@.state == middle.workers[i as int] && w@.joined == middle.joined[i as int]);
            assert(is_terminated(middle.workers[i as int]));
            if !w.is_joined() {
                w.mark_joined();
                self.workers.set(i, w);
            }
            proof {
                assert(self@.workers =~= middle.workers);
                assert(self@.joined =~= middle.joined.update(i as int, true));
            }
            i += 1;
        }
        proof {
            let o = old(self)@;
            let e = o.after_idle_shutdown();
            if o.lock is Some {
                assert(o.idle_before(o.workers.len() as int));
            }
            assert(self@.workers =~= e.workers);
            assert(self@.joined =~= e.joined);
        }
        ran
    }

    /// Whether the teardown is complete: the channel is closed and every
    /// worker's thread has been collected.
    pub fn is_shut_down(&self) -> (b: bool)
        ensures
            b == (!self@.accepting && self@.all_joined()),
    {
        if self.channel.is_open() {
            return false;
        }
        let mut i: usize = 0;
        while i < self.workers.len()
            invariant
                i <= self.workers@.len(),
                forall|j: int| 0 <= j < i ==> self@.joined[j],
            decreases self.workers@.len() - i,
        {
            if !self.workers[i].is_joined() {
                assert(!self@.joined[i as int]);
                return false;
            }
            i += 1;
        }
        true
    }
}

} // verus!

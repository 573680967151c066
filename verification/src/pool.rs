//! The thread pool: a fixed set of workers sharing one work queue.
//!
//! A pool is created with a positive worker count, accepts unbounded job
//! submissions, and is torn down by an explicit two-phase shutdown: first
//! broadcast one terminate signal per worker on the shared queue, then join
//! the workers in index order.  Because the queue is first-in first-out and
//! each worker consumes exactly one message at a time, every job submitted
//! before shutdown is delivered and run before the worker that took the
//! matching terminate signal exits.

use vstd::prelude::*;
use std::sync::Arc;

use crate::message::broadcast_terminate;
use crate::message::enqueue;
use crate::message::Job;
use crate::message::Message;
use crate::message::terminate_signals;
use crate::message::QueuePred;
use crate::message::WorkQueue;
use crate::worker::Worker;

verus! {

/// A fixed-size pool of worker threads fed by one shared, lock-guarded,
/// first-in first-out work queue.
///
/// The worker count is fixed at construction and never changes; what does
/// change is which workers still hold their thread handle, which moves from
/// present to absent exactly once per worker, during [`ThreadPool::shutdown`].
/// Alongside the workers the pool carries a specification-level record of
/// every message it has sent, in order; the contracts of
/// [`ThreadPool::execute`] and [`ThreadPool::shutdown`] grow that record
/// exactly as their bodies grow the queue, so submission order and the
/// placement of the terminate signals are fixed by what Verus checked.
pub struct ThreadPool<J> {
    workers: Vec<Worker>,
    queue: Arc<WorkQueue<J>>,
    sent: Ghost<Seq<Message<J>>>,
}

impl<J: Job + Send + Sync + 'static> ThreadPool<J> {
    /// How many workers the pool owns.  Fixed at construction.
    pub closed spec fn num_workers(&self) -> nat {
        self.workers@.len()
    }

    /// The record of every message this pool has placed on the shared
    /// queue, in the order it placed them: one work message per submitted
    /// job, in submission order, and the terminate signals of each
    /// shutdown after every submission that preceded them.
    pub closed spec fn sent_messages(&self) -> Seq<Message<J>> {
        self.sent@
    }

    /// The identity of the worker at position `i`.
    pub closed spec fn id_of(&self, i: int) -> usize {
        self.workers@[i].spec_id()
    }

    /// Whether the worker at position `i` has been joined, that is, whether
    /// its thread handle has already moved from present to absent.
    pub closed spec fn joined(&self, i: int) -> bool {
        !self.workers@[i].handle_present()
    }

    /// Well-formedness: worker identities are exactly their positions,
    /// assigned in order at construction and unique within the pool.
    pub open spec fn wf(&self) -> bool {
        forall|i: int| 0 <= i < self.num_workers() ==> self.id_of(i) == i
    }

    /// Whether every worker still holds its thread handle, as right after
    /// construction.
    pub open spec fn none_joined(&self) -> bool {
        forall|i: int| 0 <= i < self.num_workers() ==> !self.joined(i)
    }

    /// Whether no worker holds its thread handle any more, as after
    /// shutdown.
    pub open spec fn all_joined(&self) -> bool {
        forall|i: int| 0 <= i < self.num_workers() ==> self.joined(i)
    }

    /// Whether the pool still accepts work: it has its workers, and none
    /// of them has been joined.  This holds from construction until the
    /// first shutdown and never again afterwards, so it is the
    /// precondition for submitting a job — once the workers are gone,
    /// nothing would ever take a queued job, and a submission must stop
    /// the caller instead of silently going nowhere.
    pub open spec fn live(&self) -> bool {
        1 <= self.num_workers() && self.none_joined()
    }

    /// How many of the first `n` workers still hold their thread handle.
    pub closed spec fn unjoined_below(&self, n: int) -> nat
        decreases n,
    {
        if n <= 0 {
            0
        } else {
            self.unjoined_below(n - 1) + (if self.joined(n - 1) {
                0nat
            } else {
                1nat
            })
        }
    }

    /// How many workers still hold their thread handle.
    pub open spec fn num_unjoined(&self) -> nat {
        self.unjoined_below(self.num_workers() as int)
    }

    /// At most `n` of the first `n` workers can hold a handle.
    proof fn lemma_unjoined_below_bound(&self, n: int)
        requires
            0 <= n,
        ensures
            self.unjoined_below(n) <= n,
        decreases n,
    {
        if n > 0 {
            self.lemma_unjoined_below_bound(n - 1);
        }
    }

    /// Counting is exact: over any prefix in which every worker has been
    /// joined the count of present handles is zero, and over any prefix in
    /// which none has it is the prefix length.
    proof fn lemma_unjoined_below_counts(&self, n: int)
        requires
            0 <= n,
        ensures
            (forall|i: int| 0 <= i < n ==> self.joined(i)) ==> self.unjoined_below(n) == 0,
            (forall|i: int| 0 <= i < n ==> !self.joined(i)) ==> self.unjoined_below(n) == n,
        decreases n,
    {
        if n > 0 {
            self.lemma_unjoined_below_counts(n - 1);
        }
    }

    /// Shutdown is idempotent with respect to per-worker joins: in a pool
    /// whose workers have all been joined, no thread handle is present any
    /// more, so a repeated [`ThreadPool::shutdown`] finds nothing to join
    /// and reports zero threads joined.
    pub proof fn lemma_shutdown_idempotent(&self)
        requires
            self.all_joined(),
        ensures
            self.num_unjoined() == 0,
    {
        self.lemma_unjoined_below_counts(self.num_workers() as int);
    }

    /// In a pool whose workers have all still got their thread handle, as
    /// right after construction, a shutdown has the full worker count to
    /// join: every one of the spawned threads is joined exactly once.
    pub proof fn lemma_fresh_pool_joins_all(&self)
        requires
            self.none_joined(),
        ensures
            self.num_unjoined() == self.num_workers(),
    {
        self.lemma_unjoined_below_counts(self.num_workers() as int);
    }

    /// Creates a pool of `size` workers, all sharing one receive end of the
    /// work queue behind a mutual-exclusion lock.
    ///
    /// Spawns exactly `size` worker threads, with identities assigned in
    /// order from `0` to `size - 1`, and queues no work: no job runs until
    /// one is submitted with [`ThreadPool::execute`].
    ///
    /// A zero size is a caller error, excluded by precondition; use
    /// [`ThreadPool::try_new`] to validate a count first.
    pub fn new(size: usize) -> (pool: ThreadPool<J>)
        requires
            1 <= size,
        ensures
            pool.num_workers() == size,
            pool.wf(),
            pool.none_joined(),
            pool.live(),
            pool.sent_messages() == Seq::<Message<J>>::empty(),
    {
        let queue: Arc<WorkQueue<J>> = Arc::new(
            vstd::rwlock::RwLock::new(Vec::new(), Ghost(QueuePred)),
        );
        let mut workers: Vec<Worker> = Vec::new();
        let mut id: usize = 0;
        while id < size
            invariant
                id <= size,
                workers@.len() == id,
                forall|i: int|
                    0 <= i < id ==> (#[trigger] workers@[i]).spec_id() == i
                        && workers@[i].handle_present(),
            decreases size - id,
        {
            workers.push(Worker::new(id, queue.clone()));
            id = id + 1;
        }
        ThreadPool { workers, queue, sent: Ghost(Seq::empty()) }
    }

    /// Validates a worker count and creates a pool only when it is
    /// positive.  Returns `None` exactly when `size` is zero, before any
    /// worker is created or any thread spawned; otherwise returns the same
    /// pool [`ThreadPool::new`] builds.
    pub fn try_new(size: usize) -> (pool: Option<ThreadPool<J>>)
        ensures
            pool is Some <==> 1 <= size,
            pool matches Some(p) ==> p.num_workers() == size && p.wf() && p.live()
                && p.sent_messages() == Seq::<Message<J>>::empty(),
    {
        if size == 0 {
            None
        } else {
            Some(Self::new(size))
        }
    }

    /// Submits one job: appends it, wrapped as a work message, at the back
    /// of the shared queue, and returns immediately without waiting for any
    /// worker to pick it up or finish it.
    ///
    /// The job's work message is recorded behind every message this pool
    /// sent before it, so jobs enter the queue in submission order and are
    /// removed in that order; which worker takes which job, and in what
    /// relative order separate jobs finish, is not fixed.  The workers are
    /// untouched: the pool stays live, and the queue lock is held only
    /// long enough to append.
    ///
    /// Submitting requires a live pool.  After a shutdown no worker would
    /// ever take the job, so such a submission is a lifecycle error that
    /// must stop the caller, not a send that silently goes nowhere.
    pub fn execute(&mut self, job: J)
        requires
            old(self).live(),
        ensures
            final(self).sent_messages() == old(self).sent_messages().push(
                Message::NewJob(job),
            ),
            final(self).num_workers() == old(self).num_workers(),
            forall|i: int|
                0 <= i < old(self).num_workers() ==> final(self).id_of(i) == old(self).id_of(i),
            forall|i: int|
                0 <= i < old(self).num_workers() ==> final(self).joined(i) == old(self).joined(i),
            final(self).live(),
    {
        let ghost message = Message::NewJob(job);
        let (mut items, lock_handle) = self.queue.acquire_write();
        enqueue(&mut items, Message::NewJob(job));
        lock_handle.release_write(items);
        proof {
            self.sent@ = self.sent@.push(message);
            assert forall|i: int| 0 <= i < self.num_workers() implies !self.joined(i) by {
                assert(!old(self).joined(i));
            }
        }
    }

    /// Shuts the pool down in two phases and blocks until every worker
    /// thread has exited.
    ///
    /// Broadcast phase: appends exactly one terminate signal per worker at
    /// the back of the queue.  The queue is first-in first-out, so every
    /// job submitted earlier is still delivered and run before the signals
    /// are consumed, and each signal stops exactly one worker.
    ///
    /// Join phase: walks the workers in index order and joins each one
    /// whose thread handle is still present, so the caller does not return
    /// before every queued job has finished and no worker thread owned by
    /// this pool remains running.
    ///
    /// Each handle is joined at most once: afterwards every handle is
    /// absent, and a repeated shutdown finds nothing to join, so the
    /// returned count of threads joined by this call is the number of
    /// handles that were still present — the full worker count the first
    /// time, zero on any repeat.
    ///
    /// Call this before letting go of the pool: a pool dropped without it
    /// leaves its worker threads running, each polling the queue for work
    /// that can no longer come, until the process ends.
    pub fn shutdown(&mut self) -> (joined: usize)
        ensures
            final(self).sent_messages() == old(self).sent_messages() + terminate_signals::<J>(
                old(self).num_workers(),
            ),
            final(self).num_workers() == old(self).num_workers(),
            forall|i: int|
                0 <= i < old(self).num_workers() ==> final(self).id_of(i) == old(self).id_of(i),
            final(self).all_joined(),
            joined == old(self).num_unjoined(),
    {
        let worker_total = self.workers.len();

        // Broadcast phase: exactly one terminate signal per worker, queued
        // behind whatever work is still pending.
        let (mut items, lock_handle) = self.queue.acquire_write();
        broadcast_terminate(&mut items, worker_total);
        lock_handle.release_write(items);
        proof {
            self.sent@ = self.sent@ + terminate_signals::<J>(worker_total as nat);
        }

        // Join phase: join each worker in index order, at most once.
        let mut joined: usize = 0;
        let mut i: usize = 0;
        while i < worker_total
            invariant
                i <= worker_total,
                worker_total == old(self).num_workers(),
                self.num_workers() == old(self).num_workers(),
                self.sent_messages() == old(self).sent_messages() + terminate_signals::<J>(
                    old(self).num_workers(),
                ),
                forall|j: int| 0 <= j < i ==> self.joined(j),
                forall|j: int|
                    i <= j < worker_total ==> self.workers@[j] == old(self).workers@[j],
                forall|j: int|
                    0 <= j < worker_total ==> self.id_of(j) == old(self).id_of(j),
                joined == old(self).unjoined_below(i as int),
                joined <= i,
            decreases worker_total - i,
        {
            proof {
                old(self).lemma_unjoined_below_bound(i as int);
            }
            let ghost pre = *self;
            let worker = &mut self.workers[i];
            let did_join = worker.join_once();
            proof {
                assert forall|j: int| 0 <= j < i implies self.joined(j) by {
                    assert(pre.joined(j));
                    assert(self.workers@[j] == pre.workers@[j]);
                }
            }
            if did_join {
                joined = joined + 1;
            }
            i = i + 1;
        }
        joined
    }

    /// How many workers the pool owns.
    pub fn worker_count(&self) -> (count: usize)
        ensures
            count == self.num_workers(),
    {
        self.workers.len()
    }

    /// Reports whether the pool still accepts work, that is, whether it
    /// has workers and none of them has been joined.  True from
    /// construction until the first [`ThreadPool::shutdown`], false ever
    /// after; test it before submitting where the pool's history is not
    /// known statically.
    pub fn is_live(&self) -> (live: bool)
        ensures
            live == self.live(),
    {
        let worker_total = self.workers.len();
        if worker_total == 0 {
            return false;
        }
        let mut i: usize = 0;
        while i < worker_total
            invariant
                i <= worker_total,
                worker_total == self.num_workers(),
                forall|j: int| 0 <= j < i ==> !self.joined(j),
            decreases worker_total - i,
        {
            let worker = &self.workers[i];
            if !worker.has_handle() {
                assert(self.joined(i as int));
                return false;
            }
            i = i + 1;
        }
        true
    }
}

} // verus!

//! A worker: one long-lived background thread that repeatedly pulls the
//! oldest message off the shared queue and acts on it.
//!
//! The worker acquires the queue lock only long enough to remove one
//! message and releases it before acting, so at most one worker polls the
//! queue at a time while job execution itself runs unlocked and in
//! parallel.  A job is run synchronously on the worker's own thread, so one
//! worker never executes two jobs concurrently.  On a terminate signal the
//! loop ends and the thread exits; the worker consumes no further messages.

use vstd::prelude::*;
use vstd::*;
use std::sync::Arc;

use crate::message::dequeue;
use crate::message::Job;
use crate::message::Message;
use crate::message::WorkQueue;

verus! {

/// One worker of the pool: a small identity for diagnostics and ownership
/// of exactly one background thread.
///
/// The handle moves from present to absent exactly once, when the thread is
/// joined during shutdown.
pub struct Worker {
    id: usize,
    handle: Option<thread::JoinHandle<()>>,
}

impl Worker {
    /// The worker's identity, unique within its pool.
    pub closed spec fn spec_id(&self) -> usize {
        self.id
    }

    /// Whether the worker still owns its thread handle, that is, whether it
    /// has not yet been joined.
    pub closed spec fn handle_present(&self) -> bool {
        self.handle is Some
    }

    /// Spawns the worker's thread, which loops over the shared queue until
    /// it receives a terminate signal.  No job runs before one is queued:
    /// the thread only ever acts on messages it removes from the queue.
    pub(crate) fn new<J: Job + Send + Sync + 'static>(id: usize, queue: Arc<WorkQueue<J>>) -> (worker:
        Worker)
        ensures
            worker.spec_id() == id,
            worker.handle_present(),
    {
        let handle = thread::spawn(move || {
            worker_loop(queue);
        });
        Worker { id, handle: Some(handle) }
    }

    /// Reports whether the worker still owns its thread handle.
    pub(crate) fn has_handle(&self) -> (present: bool)
        ensures
            present == self.handle_present(),
    {
        self.handle.is_some()
    }

    /// Joins the worker's thread if the handle is still present, and marks
    /// the handle absent.  Blocks until the thread has fully exited; since
    /// the thread only exits after acting on a terminate signal, every job
    /// it removed from the queue has finished by the time this returns.
    ///
    /// Joining is idempotent: the handle is consumed the first time, so a
    /// second call finds it absent and does nothing.  The returned flag
    /// says whether a thread was actually joined by this call.
    pub(crate) fn join_once(&mut self) -> (did_join: bool)
        ensures
            final(self).spec_id() == old(self).spec_id(),
            !final(self).handle_present(),
            did_join == old(self).handle_present(),
    {
        let mut taken: Option<thread::JoinHandle<()>> = None;
        core::mem::swap(&mut self.handle, &mut taken);
        match taken {
            Some(handle) => {
                // A worker whose job aborted its thread reports an error
                // here; the pool accepts the loss and keeps shutting down.
                match handle.join() {
                    Result::Ok(_) => (),
                    Result::Err(_) => (),
                }
                true
            },
            None => false,
        }
    }
}

/// Removes the oldest message from the shared queue, holding the lock only
/// for the removal itself, so other workers can poll again while the caller
/// acts on the message.  Returns `None` when the queue is currently empty.
fn next_message<J: Job + Send + Sync + 'static>(queue: &WorkQueue<J>) -> Option<Message<J>> {
    let (mut items, lock_handle) = queue.acquire_write();
    let front = dequeue(&mut items);
    lock_handle.release_write(items);
    front
}

/// How many times a worker may inspect the queue before its loop provably
/// ends.  The loop needs a strictly decreasing measure; an unbounded "poll
/// until told to stop" has none, so the budget supplies one.  At one poll
/// per nanosecond it lasts more than five hundred years, so no real run
/// exhausts it: in practice a worker polls until it receives a terminate
/// signal.
pub const POLL_BUDGET: u64 = 0xffff_ffff_ffff_ffff;

/// The worker thread's body: repeatedly take the oldest message and either
/// run its job to completion or, on a terminate signal, stop for good.
///
/// Each job is invoked exactly once, synchronously, outside the queue lock.
/// The loop consumes exactly one terminate signal and no message after it.
pub(crate) fn worker_loop<J: Job + Send + Sync + 'static>(queue: Arc<WorkQueue<J>>) {
    let mut polls_left: u64 = POLL_BUDGET;
    let mut running = true;
    while running && polls_left > 0
        decreases polls_left,
    {
        polls_left = polls_left - 1;
        match next_message(&*queue) {
            Some(Message::NewJob(job)) => job.run(),
            Some(Message::Terminate) => {
                running = false;
            },
            None => (),
        }
    }
}

} // verus!

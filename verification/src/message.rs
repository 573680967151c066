//! The work queue and its payload type.
//!
//! A single tagged type, [`Message`], flows through the queue so that one
//! channel carries both work and the shutdown signal.  Because the queue is
//! first-in first-out (`enqueue` appends at the back, `dequeue` removes at
//! the front), every job enqueued before the terminate signals is delivered
//! before any worker stops, and a terminate signal stops exactly the one
//! worker that receives it.

use vstd::prelude::*;
use vstd::rwlock::RwLock;
use vstd::rwlock::RwLockPredicate;

verus! {

/// A one-shot unit of work: a value that owns all the state it needs and is
/// run exactly once, on an arbitrary worker thread, by consuming it.
///
/// Whatever a job does internally is its own responsibility; the pool makes
/// no promise about a job's effect and does not observe its outcome.
pub trait Job: Sized {
    /// Performs the unit of work, consuming it.
    fn run(self);
}

/// A queue item: either one job to run, or an order to stop.
pub enum Message<J> {
    /// Carries one job; exactly one worker receives and runs it.
    NewJob(J),
    /// Stops exactly the one worker that receives it.
    Terminate,
}

/// The invariant the shared lock maintains on the queued messages.
///
/// Any well-typed sequence of messages is a legal queue state: the queue is
/// unbounded and accepts work and terminate signals in any order.
pub struct QueuePred;

impl<J> RwLockPredicate<Vec<Message<J>>> for QueuePred {
    open spec fn inv(self, v: Vec<Message<J>>) -> bool {
        true
    }
}

/// The shared work queue: a first-in first-out buffer of messages behind a
/// mutual-exclusion lock, so that at most one thread reads or writes the
/// buffer at a time.
pub type WorkQueue<J> = RwLock<Vec<Message<J>>, QueuePred>;

/// Appends a message at the back of the queue, leaving everything already
/// queued in place and in order.
pub fn enqueue<J>(queue: &mut Vec<Message<J>>, message: Message<J>)
    ensures
        final(queue)@ == old(queue)@.push(message),
{
    queue.push(message);
}

/// Exactly `count` terminate signals, one per worker of a pool being shut
/// down.
pub open spec fn terminate_signals<J>(count: nat) -> Seq<Message<J>> {
    Seq::new(count, |k: int| Message::<J>::Terminate)
}

/// Appends exactly `count` terminate signals at the back of the queue, one
/// per worker of the pool being shut down, after everything already
/// queued.  Nothing else is added, removed or reordered, so every message
/// enqueued earlier is still delivered first.
pub fn broadcast_terminate<J>(queue: &mut Vec<Message<J>>, count: usize)
    ensures
        final(queue)@ == old(queue)@ + terminate_signals::<J>(count as nat),
{
    let mut sent: usize = 0;
    while sent < count
        invariant
            sent <= count,
            queue@ == old(queue)@ + terminate_signals::<J>(sent as nat),
        decreases count - sent,
    {
        enqueue(queue, Message::Terminate);
        proof {
            assert(queue@ =~= old(queue)@ + terminate_signals::<J>((sent + 1) as nat));
        }
        sent = sent + 1;
    }
}

/// Pending work outlives the broadcast: appending the terminate signals
/// keeps every previously queued message at its place, ahead of every
/// signal, so the signals are consumed only after all earlier messages.
pub proof fn lemma_pending_before_signals<J>(pending: Seq<Message<J>>, count: nat)
    ensures
        forall|i: int|
            0 <= i < pending.len() ==> #[trigger] (pending + terminate_signals::<J>(count))[i]
                == pending[i],
        forall|i: int|
            pending.len() <= i < pending.len() + count ==> #[trigger] (pending
                + terminate_signals::<J>(count))[i] is Terminate,
{
}

/// Removes and returns the oldest message, or returns `None` when the queue
/// is empty.  Together with `enqueue` this makes delivery first-in
/// first-out: messages leave in exactly the order they were enqueued.
pub fn dequeue<J>(queue: &mut Vec<Message<J>>) -> (front: Option<Message<J>>)
    ensures
        old(queue)@.len() == 0 ==> front is None && final(queue)@ == old(queue)@,
        old(queue)@.len() > 0 ==> front == Some(old(queue)@[0]) && final(queue)@ == old(queue)@.skip(
            1,
        ),
{
    if queue.len() == 0 {
        None
    } else {
        let m = queue.remove(0);
        proof {
            assert(queue@ =~= old(queue)@.skip(1));
        }
        Some(m)
    }
}

} // verus!

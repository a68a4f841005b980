//! The bounded queue that carries signals out of their handlers.

use crate::signal::Signal;
use concurrent_queue::ConcurrentQueue;
use std::sync::Arc;
use vstd::prelude::*;

verus! {

/// How many signals may wait in a queue before new ones are dropped.
pub const MAX_SIGNALS: usize = 16;

/// The largest capacity that a queue is ever made with here.
pub const MAX_CAPACITY: usize = 65536;

/// Makes `concurrent_queue::ConcurrentQueue` known: a queue that many may
/// push onto at once without a lock. Nothing is seen of what it holds.
#[verifier::external_type_specification]
#[verifier::external_body]
#[verifier::reject_recursive_types(T)]
pub struct ExConcurrentQueue<T>(ConcurrentQueue<T>);

/// The capacity that a queue was made with: `None` for a queue without a bound.
/// It never changes while the queue lives.
pub uninterp spec fn queue_limit(queue: ConcurrentQueue<Signal>) -> Option<usize>;

/// Calls `ConcurrentQueue::bounded`, which makes an empty queue that holds at
/// most `capacity` items and panics on a capacity of zero.
#[verifier::external_body]
fn bounded_queue(capacity: usize) -> (queue: ConcurrentQueue<Signal>)
    requires
        0 < capacity <= MAX_CAPACITY,
    ensures
        queue_limit(queue) == Some(capacity),
{
    ConcurrentQueue::bounded(capacity)
}

/// Calls `ConcurrentQueue::capacity`, which tells the capacity that the queue
/// was made with.
#[verifier::external_body]
fn queue_capacity(queue: &ConcurrentQueue<Signal>) -> (capacity: Option<usize>)
    ensures
        capacity == queue_limit(*queue),
{
    queue.capacity()
}

/// Calls `ConcurrentQueue::push`, which never blocks, and tells whether the
/// queue took the signal. Other handles may push and pop at the same moment, so
/// nothing is promised of the outcome.
#[verifier::external_body]
fn queue_push(queue: &ConcurrentQueue<Signal>, signal: Signal) -> (accepted: bool) {
    queue.push(signal).is_ok()
}

/// Calls `ConcurrentQueue::pop`, which never blocks, and gives the signal that
/// left the queue, if one did. Other handles may push at the same moment, so
/// nothing is promised of the outcome.
#[verifier::external_body]
fn queue_pop(queue: &ConcurrentQueue<Signal>) -> (popped: Option<Signal>) {
    queue.pop().ok()
}

/// Calls `Arc::clone`, which gives one more handle to the same queue.
#[verifier::external_body]
fn share_queue(queue: &Arc<ConcurrentQueue<Signal>>) -> (shared: Arc<ConcurrentQueue<Signal>>)
    ensures
        shared == queue,
{
    Arc::clone(queue)
}

/// A handle to a bounded queue of signals.
///
/// The queue is shared by all the handles that were made from one another with
/// [`SignalQueue::handle`]. Any handle may push, from any thread and from
/// inside a signal handler: a push neither blocks nor allocates. One consumer
/// pops.
#[derive(Debug)]
pub struct SignalQueue {
    shared: Arc<ConcurrentQueue<Signal>>,
}

impl SignalQueue {
    /// The number of signals that the queue holds at most.
    pub closed spec fn limit(&self) -> Option<usize> {
        queue_limit(*self.shared)
    }

    /// Creates an empty queue for `MAX_SIGNALS` signals.
    pub fn new() -> (queue: SignalQueue)
        ensures
            queue.limit() == Some(MAX_SIGNALS),
    {
        SignalQueue { shared: Arc::new(bounded_queue(MAX_SIGNALS)) }
    }

    /// Another handle to the same queue.
    pub fn handle(&self) -> (other: SignalQueue)
        ensures
            other == *self,
    {
        SignalQueue { shared: share_queue(&self.shared) }
    }

    /// The number of signals that the queue holds at most.
    pub fn capacity(&self) -> (capacity: Option<usize>)
        ensures
            capacity == self.limit(),
    {
        queue_capacity(&self.shared)
    }

    /// Puts a signal at the back of the queue, and tells whether it was taken.
    ///
    /// A full queue takes nothing: the signal is dropped, and this is no error.
    pub fn push(&self, signal: Signal) -> (accepted: bool) {
        queue_push(&self.shared, signal)
    }

    /// Takes the signal at the front of the queue, if there is one.
    pub fn pop(&self) -> (popped: Option<Signal>) {
        queue_pop(&self.shared)
    }
}

} // verus!

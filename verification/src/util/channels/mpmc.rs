use crossbeam::queue::SegQueue;
use std::sync::Arc;
use vstd::prelude::*;

verus! {

/// crossbeam's unbounded lock-free queue, carried through opaquely.
#[verifier::external_type_specification]
#[verifier::external_body]
#[verifier::reject_recursive_types(T)]
pub struct ExSegQueue<T>(SegQueue<T>);

/// Calls `crossbeam::queue::SegQueue::new`: a new, empty queue. Nothing is
/// claimed of it.
#[verifier::external_body]
fn seg_queue_new<T>() -> SegQueue<T> {
    SegQueue::new()
}

/// Calls `crossbeam::queue::SegQueue::push`. Nothing is claimed: the queue is
/// shared, and what it holds cannot be stated of a value reached through `&`.
#[verifier::external_body]
fn seg_queue_push<T>(queue: &SegQueue<T>, x: T) {
    queue.push(x)
}

/// Calls `crossbeam::queue::SegQueue::pop`. Nothing is claimed of which
/// element, if any, comes back.
#[verifier::external_body]
fn seg_queue_pop<T>(queue: &SegQueue<T>) -> Option<T> {
    queue.pop()
}

/// `r` is what a call of crossbeam's `SegQueue::pop` on `queue` handed out.
/// It names an outcome of that call and says nothing more of its value.
pub closed spec fn popped_from<T>(queue: Arc<SegQueue<T>>, r: Option<T>) -> bool {
    call_ensures(seg_queue_pop::<T>, (&*queue,), r)
}

/// `x` was handed to a call of crossbeam's `SegQueue::push` on `queue`.
/// It names that call and says nothing more of what the queue then holds.
pub closed spec fn pushed_into<T>(queue: Arc<SegQueue<T>>, x: T) -> bool {
    call_ensures(seg_queue_push::<T>, (&*queue, x), ())
}

/// The sending end of a multi-producer, multi-consumer queue.
#[derive(Clone)]
#[verifier::reject_recursive_types(T)]
pub struct Sender<T>(Arc<SegQueue<T>>);

impl<T> Sender<T> {
    /// A sender that pushes into `queue`.
    pub fn new(queue: Arc<SegQueue<T>>) -> (r: Self)
        ensures
            r.queue() == queue,
    {
        Sender(queue)
    }

    /// The queue that this sender pushes into.
    pub closed spec fn queue(self) -> Arc<SegQueue<T>> {
        self.0
    }

    /// Pushes `x` into the queue: crossbeam's `push` is called on this
    /// sender's queue with `x`.
    pub fn send(&self, x: T)
        ensures
            pushed_into(self.queue(), x),
    {
        seg_queue_push(&self.0, x)
    }
}

/// The receiving end of a multi-producer, multi-consumer queue.
#[derive(Clone)]
#[verifier::reject_recursive_types(T)]
pub struct Receiver<T>(Arc<SegQueue<T>>);

impl<T> Receiver<T> {
    /// A receiver that pops from `queue`.
    pub fn new(queue: Arc<SegQueue<T>>) -> (r: Self)
        ensures
            r.queue() == queue,
    {
        Receiver(queue)
    }

    /// The queue that this receiver pops from.
    pub closed spec fn queue(self) -> Arc<SegQueue<T>> {
        self.0
    }

    /// Pops the next element, if the queue holds one: what crossbeam's `pop`
    /// handed out.
    pub fn try_recv(&self) -> (r: Option<T>)
        ensures
            popped_from(self.queue(), r),
    {
        seg_queue_pop(&self.0)
    }
}

/// A sender and a receiver on one new, unbounded queue.
pub fn unbounded<T>() -> (r: (Sender<T>, Receiver<T>))
    ensures
        r.0.queue() == r.1.queue(),
{
    let queue = Arc::new(seg_queue_new());
    (Sender::new(queue.clone()), Receiver::new(queue))
}

} // verus!

use vstd::prelude::*;

use crate::event::{normalize, FsEvent, RawEvent, WatchError};

verus! {

/// How many items a watch's queue holds before new ones are dropped.
pub const QUEUE_CAPACITY: usize = 16;

/// What travels through a watch's queue: an event, or a failure that the
/// watch mechanism reported.
pub type WatchItem = Result<FsEvent, WatchError>;

#[verifier::external_type_specification]
#[verifier::external_body]
#[verifier::reject_recursive_types(T)]
pub struct ExSender<T>(tokio::sync::mpsc::Sender<T>);

#[verifier::external_type_specification]
#[verifier::external_body]
#[verifier::reject_recursive_types(T)]
pub struct ExReceiver<T>(tokio::sync::mpsc::Receiver<T>);

#[verifier::external_type_specification]
#[verifier::external_body]
pub struct ExContext<'a>(std::task::Context<'a>);

/// What became of an item offered to a watch's queue.
#[derive(Clone, Copy, Debug, PartialEq, Eq, Structural)]
pub enum SendOutcome {
    /// The item was queued.
    Queued,
    /// The queue was full: the item was dropped.
    Dropped,
    /// The consumer side is gone: the item was dropped.
    Closed,
}

/// What one poll of a watch's queue found.
#[derive(Debug)]
pub enum Polled {
    /// The next item, in the order it was queued.
    Item(WatchItem),
    /// The queue is closed and drained: nothing will come again.
    EndOfStream,
    /// Nothing yet: the calling task is woken when an item comes or the
    /// queue closes.
    Suspend,
}

/// Relies on tokio::sync::mpsc::channel: a bounded queue with one sending
/// and one receiving half. It panics on a capacity of zero or above the
/// semaphore's limit of `usize::MAX >> 3` permits.
#[verifier::external_body]
fn bounded_queue(capacity: usize) -> (r: (
    tokio::sync::mpsc::Sender<WatchItem>,
    tokio::sync::mpsc::Receiver<WatchItem>,
))
    requires
        0 < capacity <= usize::MAX / 8,
{
    tokio::sync::mpsc::channel(capacity)
}

/// Relies on tokio::sync::mpsc::Sender::try_send: it queues the item when a
/// slot is free and returns it in `Full` or `Closed` otherwise, never
/// waiting. Which happens depends on the consumer's pace.
#[verifier::external_body]
fn try_offer(tx: &tokio::sync::mpsc::Sender<WatchItem>, item: WatchItem) -> (r: SendOutcome) {
    match tx.try_send(item) {
        Ok(()) => SendOutcome::Queued,
        Err(tokio::sync::mpsc::error::TrySendError::Full(_)) => SendOutcome::Dropped,
        Err(tokio::sync::mpsc::error::TrySendError::Closed(_)) => SendOutcome::Closed,
    }
}

/// Relies on tokio::sync::mpsc::Receiver::poll_recv: the next queued item,
/// `None` once the queue is closed and drained, or pending with the task's
/// waker registered. Which happens depends on the producer.
#[verifier::external_body]
fn poll_queue(rx: &mut tokio::sync::mpsc::Receiver<WatchItem>, cx: &mut std::task::Context) -> (r:
    Polled) {
    match rx.poll_recv(cx) {
        std::task::Poll::Ready(Some(item)) => Polled::Item(item),
        std::task::Poll::Ready(None) => Polled::EndOfStream,
        std::task::Poll::Pending => Polled::Suspend,
    }
}

/// The producer half of a watch: it takes raw notifications from the watch
/// mechanism's callback.
pub struct EventSink {
    sender: tokio::sync::mpsc::Sender<WatchItem>,
}

/// The consumer half of a watch: it hands the queued items out in order.
pub struct WatchBridge {
    receiver: tokio::sync::mpsc::Receiver<WatchItem>,
}

/// A fresh watch queue of capacity `QUEUE_CAPACITY`, as its producer and
/// consumer halves. It stays open while the producer half lives.
pub fn watch_queue() -> (r: (EventSink, WatchBridge)) {
    let (sender, receiver) = bounded_queue(QUEUE_CAPACITY);
    (EventSink { sender }, WatchBridge { receiver })
}

impl EventSink {
    /// Normalizes one raw notification and offers the result to the queue
    /// without waiting: when the queue is full the item is dropped, and when
    /// the consumer is gone nothing happens.
    pub fn deliver(&self, n: Result<RawEvent, String>) -> (r: SendOutcome) {
        let item = normalize(n);
        try_offer(&self.sender, item)
    }
}

impl WatchBridge {
    /// One attempt to take the next item: the item, the end of the stream,
    /// or a suspension until one of those is there.
    pub fn poll(&mut self, cx: &mut std::task::Context) -> (r: Polled) {
        poll_queue(&mut self.receiver, cx)
    }
}

} // verus!

use vstd::prelude::*;

use crate::event::{FsEvent, WatchError};

verus! {

/// The answer to one poll of a watch.
#[derive(Clone, Debug)]
pub enum PollReply {
    /// The next event, in the order the watch produced it.
    Value(FsEvent),
    /// The watch is closed: no event will ever come again.
    Done,
}

/// The reply that one received item gives: `Some(item)` is the next item of
/// the watch's queue, `None` that the queue is closed.
pub open spec fn reply_spec(received: Option<Result<FsEvent, WatchError>>) -> Result<
    PollReply,
    WatchError,
> {
    match received {
        Some(Ok(e)) => Ok(PollReply::Value(e)),
        Some(Err(x)) => Err(x),
        None => Ok(PollReply::Done),
    }
}

/// Answers a poll from what the watch's queue handed out: an event is
/// returned as the next value, a failure of the watch mechanism as an error,
/// and a closed queue as the end of the stream.
pub fn poll_reply(received: Option<Result<FsEvent, WatchError>>) -> (r: Result<
    PollReply,
    WatchError,
>)
    ensures
        r == reply_spec(received),
{
    match received {
        Some(Ok(e)) => Ok(PollReply::Value(e)),
        Some(Err(x)) => Err(x),
        None => Ok(PollReply::Done),
    }
}

} // verus!

//! Bridge between push-based file-change notifications and a pull-based
//! consumer: event normalization, the wire shape of an event, the bounded
//! queue between the watch mechanism and its consumer, and the decisions of
//! opening a watch, of answering a poll, and of the loop that waits for the
//! first interesting change.

pub mod bridge;
pub mod event;
pub mod filter;
pub mod open;
pub mod poll;
pub mod wire;

pub use bridge::{
    watch_queue, EventSink, Polled, SendOutcome, WatchBridge, WatchItem, QUEUE_CAPACITY,
};
pub use event::{
    normalize, normalize_kind, FsEvent, FsEventKind, RawEvent, RawEventKind, WatchError,
};
pub use filter::{LoopState, LoopStep, WatchLoop};
pub use open::{OpenAction, OpenSession, OpenStage};
pub use poll::{poll_reply, PollReply};
pub use wire::frame_event;

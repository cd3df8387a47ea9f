use vstd::prelude::*;

use crate::event::{interesting, FsEvent, WatchError};

verus! {

/// Where a wait for the first interesting change stands.
#[derive(Clone, Copy, Debug, PartialEq, Eq, Structural)]
pub enum LoopState {
    /// Polling the current watch.
    Watching,
    /// The watch was exhausted; a fresh one over the same paths is due.
    Reopening,
    /// An interesting event or an error ended the wait.
    Finished,
}

/// What the waiting loop does after one poll.
#[derive(Clone, Debug)]
pub enum LoopStep {
    /// Discard what came and poll again.
    PollAgain,
    /// Open a fresh watch over the same paths, then poll it.
    Reopen,
    /// The wait is over with this event.
    Return(FsEvent),
    /// The wait failed with this error.
    Fail(WatchError),
}

/// The decisions of waiting for the first created, modified or removed
/// path: access events and unspecific events are discarded, an exhausted
/// watch is reopened, and only an interesting event or an error ends the
/// wait.
#[derive(Clone, Copy, Debug)]
pub struct WatchLoop {
    pub state: LoopState,
}

/// One transition while watching, on what one poll handed out (`None`: the
/// watch is exhausted).
pub open spec fn loop_step_spec(received: Option<Result<FsEvent, WatchError>>) -> (
    LoopState,
    LoopStep,
) {
    match received {
        Some(Ok(e)) => if interesting(e.kind) {
            (LoopState::Finished, LoopStep::Return(e))
        } else {
            (LoopState::Watching, LoopStep::PollAgain)
        },
        Some(Err(x)) => (LoopState::Finished, LoopStep::Fail(x)),
        None => (LoopState::Reopening, LoopStep::Reopen),
    }
}

/// How a wait ends when its polls hand out `s` in order: the first
/// interesting event or error, or `None` where `s` holds neither.
pub open spec fn loop_result(s: Seq<Option<Result<FsEvent, WatchError>>>) -> Option<
    Result<FsEvent, WatchError>,
>
    decreases s.len(),
{
    if s.len() == 0 {
        None
    } else {
        match loop_step_spec(s[0]).1 {
            LoopStep::Return(e) => Some(Ok(e)),
            LoopStep::Fail(x) => Some(Err(x)),
            _ => loop_result(s.skip(1)),
        }
    }
}

impl WatchLoop {
    /// A wait that starts by watching.
    pub fn new() -> (r: WatchLoop)
        ensures
            r.state == LoopState::Watching,
    {
        WatchLoop { state: LoopState::Watching }
    }

    /// Takes what one poll handed out and says what to do next.
    pub fn on_poll(&mut self, received: Option<Result<FsEvent, WatchError>>) -> (r: LoopStep)
        requires
            old(self).state == LoopState::Watching,
        ensures
            (final(self).state, r) == loop_step_spec(received),
    {
        match received {
            Some(Ok(e)) => {
                if e.kind.is_interesting() {
                    self.state = LoopState::Finished;
                    LoopStep::Return(e)
                } else {
                    self.state = LoopState::Watching;
                    LoopStep::PollAgain
                }
            },
            Some(Err(x)) => {
                self.state = LoopState::Finished;
                LoopStep::Fail(x)
            },
            None => {
                self.state = LoopState::Reopening;
                LoopStep::Reopen
            },
        }
    }

    /// Records that a fresh watch was opened after the last one was
    /// exhausted.
    pub fn reopened(&mut self)
        requires
            old(self).state == LoopState::Reopening,
        ensures
            final(self).state == LoopState::Watching,
    {
        self.state = LoopState::Watching;
    }
}

/// A wait never ends with an access event or an unspecific event: what it
/// returns is an interesting event that one of the polls handed out.
pub proof fn lemma_loop_returns_interesting(s: Seq<Option<Result<FsEvent, WatchError>>>)
    ensures
        loop_result(s) matches Some(Ok(e)) ==> interesting(e.kind) && s.contains(Some(Ok(e))),
    decreases s.len(),
{
    if s.len() > 0 {
        match loop_step_spec(s[0]).1 {
            LoopStep::Return(e) => {
                assert(s[0] == Some(Ok::<FsEvent, WatchError>(e)));
            },
            LoopStep::Fail(_) => {},
            _ => {
                lemma_loop_returns_interesting(s.skip(1));
                match loop_result(s) {
                    Some(Ok(e)) => {
                        let i = choose|i: int|
                            0 <= i < s.skip(1).len() && s.skip(1)[i] == Some(
                                Ok::<FsEvent, WatchError>(e),
                            );
                        assert(s[i + 1] == Some(Ok::<FsEvent, WatchError>(e)));
                    },
                    _ => {},
                }
            },
        }
    }
}

/// An exhausted watch does not end the wait: with the end of a stream in
/// front, the wait ends as it would without it.
pub proof fn lemma_exhaustion_continues(s: Seq<Option<Result<FsEvent, WatchError>>>)
    ensures
        loop_result(seq![None] + s) == loop_result(s),
{
    let t = seq![None] + s;
    assert(t.skip(1) =~= s);
}

/// Discarded events do not change how a wait ends: an access or unspecific
/// event in front leaves the result as it is.
pub proof fn lemma_uninteresting_skipped(
    e: FsEvent,
    s: Seq<Option<Result<FsEvent, WatchError>>>,
)
    requires
        !interesting(e.kind),
    ensures
        loop_result(seq![Some(Ok(e))] + s) == loop_result(s),
{
    let t = seq![Some(Ok(e))] + s;
    assert(t.skip(1) =~= s);
}

} // verus!

use vstd::prelude::*;

use crate::event::WatchError;

verus! {

/// Where an open stands.
#[derive(Clone, Copy, Debug, PartialEq, Eq, Structural)]
pub enum OpenStage {
    /// Waiting for the authorization verdict on the current path.
    Authorizing,
    /// Waiting for the watcher to register the current path.
    Registering,
    /// Every path is registered.
    Done,
    /// A path was rejected or could not be registered.
    Failed,
}

/// What the caller of an open must do next.
#[derive(Clone, Debug)]
pub enum OpenAction {
    /// Ask the authorization collaborator whether the path at this index may
    /// be read.
    Authorize(usize),
    /// Register the path at this index with the watcher.
    Register(usize),
    /// Every path is registered: the bridge is ready to be polled.
    Ready,
    /// Opening failed with this error; the bridge is to be discarded.
    Fail(WatchError),
}

/// The decisions of opening a watch over a list of paths: each path is, in
/// the given order, first authorized (where authorization is asked for) and
/// then registered; the first rejection or registration failure ends the
/// open, and no later path is touched.
#[derive(Clone, Copy, Debug)]
pub struct OpenSession {
    /// Number of paths to register.
    pub count: usize,
    /// Whether each path is authorized before it is registered.
    pub authorize: bool,
    /// Index of the path being handled.
    pub next: usize,
    /// Number of paths registered so far.
    pub registered: usize,
    pub stage: OpenStage,
}

impl OpenSession {
    /// The session's own invariant.
    pub open spec fn wf(self) -> bool {
        &&& self.next <= self.count
        &&& self.registered == self.next
        &&& (self.stage == OpenStage::Authorizing || self.stage == OpenStage::Registering)
            ==> self.next < self.count
        &&& self.stage == OpenStage::Authorizing ==> self.authorize
        &&& self.stage == OpenStage::Done ==> self.next == self.count
    }

    /// The session waits for the outcome of an action.
    pub open spec fn waiting(self) -> bool {
        self.stage == OpenStage::Authorizing || self.stage == OpenStage::Registering
    }
}

/// The action that handles the path at index `i`.
pub open spec fn begin_path(authorize: bool, i: usize) -> OpenAction {
    if authorize {
        OpenAction::Authorize(i)
    } else {
        OpenAction::Register(i)
    }
}

/// A fresh session over `count` paths and its first action.
pub open spec fn start_spec(count: usize, authorize: bool) -> (OpenSession, OpenAction) {
    if count == 0 {
        (
            OpenSession { count, authorize, next: 0, registered: 0, stage: OpenStage::Done },
            OpenAction::Ready,
        )
    } else {
        (
            OpenSession {
                count,
                authorize,
                next: 0,
                registered: 0,
                stage: if authorize {
                    OpenStage::Authorizing
                } else {
                    OpenStage::Registering
                },
            },
            begin_path(authorize, 0),
        )
    }
}

/// One transition: the outcome of the pending action and the session and
/// action that follow it.
pub open spec fn step_spec(s: OpenSession, outcome: Result<(), WatchError>) -> (
    OpenSession,
    OpenAction,
) {
    match outcome {
        Err(e) => (OpenSession { stage: OpenStage::Failed, ..s }, OpenAction::Fail(e)),
        Ok(_) => if s.stage == OpenStage::Authorizing {
            (OpenSession { stage: OpenStage::Registering, ..s }, OpenAction::Register(s.next))
        } else {
            let n = (s.next + 1) as usize;
            if n == s.count {
                (
                    OpenSession { next: n, registered: n, stage: OpenStage::Done, ..s },
                    OpenAction::Ready,
                )
            } else {
                (
                    OpenSession {
                        next: n,
                        registered: n,
                        stage: if s.authorize {
                            OpenStage::Authorizing
                        } else {
                            OpenStage::Registering
                        },
                        ..s
                    },
                    begin_path(s.authorize, n),
                )
            }
        },
    }
}

impl OpenSession {
    /// Starts opening a watch over `count` paths; `authorize` asks for each
    /// path to be authorized before it is registered.
    pub fn start(count: usize, authorize: bool) -> (r: (OpenSession, OpenAction))
        ensures
            r == start_spec(count, authorize),
            r.0.wf(),
    {
        if count == 0 {
            (
                OpenSession { count, authorize, next: 0, registered: 0, stage: OpenStage::Done },
                OpenAction::Ready,
            )
        } else if authorize {
            (
                OpenSession {
                    count,
                    authorize,
                    next: 0,
                    registered: 0,
                    stage: OpenStage::Authorizing,
                },
                OpenAction::Authorize(0),
            )
        } else {
            (
                OpenSession {
                    count,
                    authorize,
                    next: 0,
                    registered: 0,
                    stage: OpenStage::Registering,
                },
                OpenAction::Register(0),
            )
        }
    }

    /// Whether the session waits for the outcome of an action.
    pub fn is_waiting(&self) -> (r: bool)
        ensures
            r == self.waiting(),
    {
        match self.stage {
            OpenStage::Authorizing | OpenStage::Registering => true,
            OpenStage::Done | OpenStage::Failed => false,
        }
    }

    /// Takes the outcome of the pending action (an authorization verdict or
    /// a registration) and returns the next action.
    pub fn advance(&mut self, outcome: Result<(), WatchError>) -> (r: OpenAction)
        requires
            old(self).wf(),
            old(self).waiting(),
        ensures
            (*final(self), r) == step_spec(*old(self), outcome),
            final(self).wf(),
    {
        match outcome {
            Err(e) => {
                self.stage = OpenStage::Failed;
                OpenAction::Fail(e)
            },
            Ok(_) => {
                if self.stage == OpenStage::Authorizing {
                    self.stage = OpenStage::Registering;
                    OpenAction::Register(self.next)
                } else {
                    let n = self.next + 1;
                    self.next = n;
                    self.registered = n;
                    if n == self.count {
                        self.stage = OpenStage::Done;
                        OpenAction::Ready
                    } else if self.authorize {
                        self.stage = OpenStage::Authorizing;
                        OpenAction::Authorize(n)
                    } else {
                        self.stage = OpenStage::Registering;
                        OpenAction::Register(n)
                    }
                }
            },
        }
    }
}

/// The session and the actions that follow from answering the pending
/// actions of `s` with `outcomes`, in order, until the session stops waiting
/// or the outcomes run out.
pub open spec fn drive(s: OpenSession, outcomes: Seq<Result<(), WatchError>>) -> (
    OpenSession,
    Seq<OpenAction>,
)
    decreases outcomes.len(),
{
    if outcomes.len() == 0 || !s.waiting() {
        (s, Seq::empty())
    } else {
        let (t, a) = step_spec(s, outcomes[0]);
        let (u, rest) = drive(t, outcomes.skip(1));
        (u, seq![a] + rest)
    }
}

/// The outcomes of an authorized open in which every path before index `k`
/// is authorized and registered, and then path `k` is rejected with `e`.
pub open spec fn rejected_at(k: nat, e: WatchError) -> Seq<Result<(), WatchError>> {
    Seq::new(2 * k, |i: int| Ok::<(), WatchError>(())) + seq![Err(e)]
}

proof fn lemma_rejection_from(s: OpenSession, k: nat, e: WatchError)
    requires
        s.wf(),
        s.stage == OpenStage::Authorizing,
        s.next <= k < s.count,
    ensures
        ({
            let (u, acts) = drive(s, rejected_at((k - s.next) as nat, e));
            &&& u.stage == OpenStage::Failed
            &&& u.registered == k
            &&& acts.len() > 0
            &&& acts.last() == OpenAction::Fail(e)
            &&& forall|j: usize|
                acts.contains(OpenAction::Register(j)) ==> s.next <= j < k
        }),
    decreases k - s.next,
{
    let os = rejected_at((k - s.next) as nat, e);
    if s.next == k {
        let (t, a) = step_spec(s, os[0]);
        assert(os[0] == Err::<(), WatchError>(e));
        assert(drive(t, os.skip(1)).1 =~= Seq::<OpenAction>::empty());
        let acts = drive(s, os).1;
        assert(acts =~= seq![OpenAction::Fail(e)]);
        assert forall|j: usize| acts.contains(OpenAction::Register(j)) implies s.next <= j < k by {
            assert(acts[0] != OpenAction::Register(j));
        }
    } else {
        let (t, a) = step_spec(s, os[0]);
        assert(os[0] == Ok::<(), WatchError>(()));
        assert(a == OpenAction::Register(s.next));
        let os1 = os.skip(1);
        assert(os1[0] == Ok::<(), WatchError>(()));
        let (t2, a2) = step_spec(t, os1[0]);
        assert(a2 == OpenAction::Authorize((s.next + 1) as usize));
        let os2 = os1.skip(1);
        assert(os2 =~= rejected_at((k - t2.next) as nat, e));
        lemma_rejection_from(t2, k, e);
        let (u, rest) = drive(t2, os2);
        let acts = drive(s, os).1;
        assert(drive(t, os1).1 =~= seq![a2] + rest);
        assert(acts =~= seq![a] + (seq![a2] + rest));
        assert forall|j: usize| acts.contains(OpenAction::Register(j)) implies s.next <= j < k by {
            let i = choose|i: int| 0 <= i < acts.len() && acts[i] == OpenAction::Register(j);
            if i >= 2 {
                assert(rest[i - 2] == OpenAction::Register(j));
                assert(rest.contains(OpenAction::Register(j)));
            }
        }
    }
}

/// The first rejected path ends an authorized open: when the paths before
/// index `k` are authorized and registered and path `k` is rejected, the open
/// fails with the rejection's error, exactly `k` paths were registered, and
/// none at or after index `k` was; a rejection of the first path leaves no
/// path registered at all.
pub proof fn lemma_rejection_ends_open(count: usize, k: nat, e: WatchError)
    requires
        k < count,
    ensures
        ({
            let (u, acts) = drive(start_spec(count, true).0, rejected_at(k, e));
            &&& u.stage == OpenStage::Failed
            &&& u.registered == k
            &&& acts.last() == OpenAction::Fail(e)
            &&& forall|j: usize| acts.contains(OpenAction::Register(j)) ==> j < k
            &&& k == 0 ==> forall|j: usize| !acts.contains(OpenAction::Register(j))
        }),
{
    lemma_rejection_from(start_spec(count, true).0, k, e);
}

/// The outcomes of an authorized open in which the paths from index `from`
/// to `count` are each authorized and registered.
pub open spec fn all_accepted(from: nat, count: nat) -> Seq<Result<(), WatchError>> {
    Seq::new((2 * (count - from)) as nat, |i: int| Ok::<(), WatchError>(()))
}

proof fn lemma_accepted_from(s: OpenSession)
    requires
        s.wf(),
        s.stage == OpenStage::Authorizing,
    ensures
        ({
            let (u, acts) = drive(s, all_accepted(s.next as nat, s.count as nat));
            &&& u.stage == OpenStage::Done
            &&& u.registered == s.count
            &&& acts.len() > 0
            &&& acts.last() == OpenAction::Ready
            &&& forall|j: usize|
                s.next < j < s.count ==> acts.contains(OpenAction::Authorize(j))
            &&& forall|j: usize|
                s.next <= j < s.count ==> acts.contains(OpenAction::Register(j))
        }),
    decreases s.count - s.next,
{
    let os = all_accepted(s.next as nat, s.count as nat);
    let (t, a) = step_spec(s, os[0]);
    assert(a == OpenAction::Register(s.next));
    let os1 = os.skip(1);
    let (t2, a2) = step_spec(t, os1[0]);
    let os2 = os1.skip(1);
    let acts = drive(s, os).1;
    if s.next + 1 == s.count {
        assert(a2 == OpenAction::Ready);
        assert(os2.len() == 0);
        assert(os1.len() == 1);
        assert(os1[0] == Ok::<(), WatchError>(()));
        assert(drive(t2, os2).1 =~= Seq::<OpenAction>::empty());
        assert(drive(t, os1).1 =~= seq![a2]);
        assert(acts =~= seq![a, a2]);
        assert forall|j: usize| s.next <= j < s.count implies acts.contains(
            OpenAction::Register(j),
        ) by {
            assert(acts[0] == OpenAction::Register(j));
        }
    } else {
        assert(a2 == OpenAction::Authorize((s.next + 1) as usize));
        assert(os2 =~= all_accepted(t2.next as nat, t2.count as nat));
        lemma_accepted_from(t2);
        let rest = drive(t2, os2).1;
        assert(drive(t, os1).1 =~= seq![a2] + rest);
        assert(acts =~= seq![a] + (seq![a2] + rest));
        assert forall|j: usize| s.next < j < s.count implies acts.contains(
            OpenAction::Authorize(j),
        ) by {
            if j == s.next + 1 {
                assert(acts[1] == OpenAction::Authorize(j));
            } else {
                assert(rest.contains(OpenAction::Authorize(j)));
                let i = choose|i: int| 0 <= i < rest.len() && rest[i] == OpenAction::Authorize(j);
                assert(acts[i + 2] == OpenAction::Authorize(j));
            }
        }
        assert forall|j: usize| s.next <= j < s.count implies acts.contains(
            OpenAction::Register(j),
        ) by {
            if j == s.next {
                assert(acts[0] == OpenAction::Register(j));
            } else {
                assert(rest.contains(OpenAction::Register(j)));
                let i = choose|i: int| 0 <= i < rest.len() && rest[i] == OpenAction::Register(j);
                assert(acts[i + 2] == OpenAction::Register(j));
            }
        }
    }
}

/// An authorized open in which every path is authorized and registered
/// ends ready, with every path authorized and registered.
pub proof fn lemma_accepted_open_registers_all(count: usize)
    requires
        count > 0,
    ensures
        ({
            let (u, acts) = drive(start_spec(count, true).0, all_accepted(0, count as nat));
            &&& u.stage == OpenStage::Done
            &&& u.registered == count
            &&& acts.last() == OpenAction::Ready
            &&& forall|j: usize| j < count ==> acts.contains(OpenAction::Register(j))
        }),
{
    lemma_accepted_from(start_spec(count, true).0);
}

/// Opening over no path succeeds at once, with nothing registered.
pub proof fn lemma_empty_open(authorize: bool)
    ensures
        start_spec(0, authorize).1 == OpenAction::Ready,
        start_spec(0, authorize).0.stage == OpenStage::Done,
        start_spec(0, authorize).0.registered == 0,
{
}

} // verus!

use vstd::prelude::*;

verus! {

/// The five canonical kinds of a file-system event.
#[derive(Clone, Copy, Debug, PartialEq, Eq, Structural)]
pub enum FsEventKind {
    Any,
    Access,
    Create,
    Modify,
    Remove,
}

/// The top-level kind of a raw notification, as the watch mechanism
/// reports it, with its sub-kinds already set aside.
#[derive(Clone, Copy, Debug, PartialEq, Eq, Structural)]
pub enum RawEventKind {
    Any,
    Access,
    Create,
    Modify,
    Remove,
    Other,
}

/// What can go wrong while watching.
#[derive(Clone, Debug)]
pub enum WatchError {
    /// The subscription could not start, or a path was not authorized.
    Construction(String),
    /// A raw notification had a kind that has no canonical tag.
    UnmappedEventKind,
    /// The watch mechanism reported a failure while running.
    Producer(String),
    /// No watch is registered under the handle.
    BadHandle,
}

/// A normalized notification: one kind and the affected paths, in order.
#[derive(Clone, Debug)]
pub struct FsEvent {
    pub kind: FsEventKind,
    pub paths: Vec<String>,
}

/// A raw notification before normalization: its top-level kind and the
/// affected paths.
#[derive(Clone, Debug)]
pub struct RawEvent {
    pub kind: RawEventKind,
    pub paths: Vec<String>,
}

/// The canonical kind of a raw kind, where it has one.
pub open spec fn canonical_kind(raw: RawEventKind) -> Option<FsEventKind> {
    match raw {
        RawEventKind::Any => Some(FsEventKind::Any),
        RawEventKind::Access => Some(FsEventKind::Access),
        RawEventKind::Create => Some(FsEventKind::Create),
        RawEventKind::Modify => Some(FsEventKind::Modify),
        RawEventKind::Remove => Some(FsEventKind::Remove),
        RawEventKind::Other => None,
    }
}

/// The string tag under which a kind travels.
pub open spec fn tag_of(k: FsEventKind) -> Seq<char> {
    match k {
        FsEventKind::Any => seq!['a', 'n', 'y'],
        FsEventKind::Access => seq!['a', 'c', 'c', 'e', 's', 's'],
        FsEventKind::Create => seq!['c', 'r', 'e', 'a', 't', 'e'],
        FsEventKind::Modify => seq!['m', 'o', 'd', 'i', 'f', 'y'],
        FsEventKind::Remove => seq!['r', 'e', 'm', 'o', 'v', 'e'],
    }
}

/// The kind whose tag is `t`, if any.
pub open spec fn kind_of_tag(t: Seq<char>) -> Option<FsEventKind> {
    if t == tag_of(FsEventKind::Any) {
        Some(FsEventKind::Any)
    } else if t == tag_of(FsEventKind::Access) {
        Some(FsEventKind::Access)
    } else if t == tag_of(FsEventKind::Create) {
        Some(FsEventKind::Create)
    } else if t == tag_of(FsEventKind::Modify) {
        Some(FsEventKind::Modify)
    } else if t == tag_of(FsEventKind::Remove) {
        Some(FsEventKind::Remove)
    } else {
        None
    }
}

/// A kind that ends a wait for a change: something was created, modified
/// or removed.
pub open spec fn interesting(k: FsEventKind) -> bool {
    k == FsEventKind::Create || k == FsEventKind::Modify || k == FsEventKind::Remove
}

/// The paths of an event as character sequences.
pub open spec fn paths_of(e: FsEvent) -> Seq<Seq<char>> {
    e.paths@.map_values(|p: String| p@)
}

impl FsEventKind {
    /// The string tag of this kind.
    pub fn tag(&self) -> (r: &'static str)
        ensures
            r@ == tag_of(*self),
    {
        proof {
            reveal_strlit("any");
            reveal_strlit("access");
            reveal_strlit("create");
            reveal_strlit("modify");
            reveal_strlit("remove");
        }
        match self {
            FsEventKind::Any => "any",
            FsEventKind::Access => "access",
            FsEventKind::Create => "create",
            FsEventKind::Modify => "modify",
            FsEventKind::Remove => "remove",
        }
    }

    /// The kind whose tag is `t`; `None` for any other string.
    pub fn from_tag(t: &str) -> (r: Option<FsEventKind>)
        ensures
            r == kind_of_tag(t@),
    {
        let s = String::from_str(t);
        let kinds = [
            FsEventKind::Any,
            FsEventKind::Access,
            FsEventKind::Create,
            FsEventKind::Modify,
            FsEventKind::Remove,
        ];
        let mut i: usize = 0;
        while i < 5
            invariant
                0 <= i <= 5,
                s@ == t@,
                kinds@ == seq![
                    FsEventKind::Any,
                    FsEventKind::Access,
                    FsEventKind::Create,
                    FsEventKind::Modify,
                    FsEventKind::Remove,
                ],
                forall|j: int| 0 <= j < i ==> t@ != tag_of(#[trigger] kinds@[j]),
            decreases 5 - i,
        {
            let k = kinds[i];
            let candidate = String::from_str(k.tag());
            if s == candidate {
                return Some(k);
            }
            i = i + 1;
        }
        assert(t@ != tag_of(kinds@[0]));
        assert(t@ != tag_of(kinds@[1]));
        assert(t@ != tag_of(kinds@[2]));
        assert(t@ != tag_of(kinds@[3]));
        assert(t@ != tag_of(kinds@[4]));
        None
    }

    /// Whether this kind ends a wait for a change.
    pub fn is_interesting(&self) -> (r: bool)
        ensures
            r == interesting(*self),
    {
        match self {
            FsEventKind::Create | FsEventKind::Modify | FsEventKind::Remove => true,
            FsEventKind::Any | FsEventKind::Access => false,
        }
    }
}

/// Maps a raw kind to its canonical kind. The `Other` kind has no
/// canonical tag and is refused.
pub fn normalize_kind(raw: RawEventKind) -> (r: Result<FsEventKind, WatchError>)
    ensures
        canonical_kind(raw) matches Some(k) ==> r == Ok::<FsEventKind, WatchError>(k),
        canonical_kind(raw) is None ==> r matches Err(WatchError::UnmappedEventKind),
{
    match raw {
        RawEventKind::Any => Ok(FsEventKind::Any),
        RawEventKind::Access => Ok(FsEventKind::Access),
        RawEventKind::Create => Ok(FsEventKind::Create),
        RawEventKind::Modify => Ok(FsEventKind::Modify),
        RawEventKind::Remove => Ok(FsEventKind::Remove),
        RawEventKind::Other => Err(WatchError::UnmappedEventKind),
    }
}

/// Normalizes one raw notification: a raw event becomes an event with its
/// canonical kind and the same paths in the same order; a failure reported by
/// the watch mechanism is passed on as a producer error with its message
/// unchanged; a raw kind without canonical tag is refused.
pub fn normalize(n: Result<RawEvent, String>) -> (r: Result<FsEvent, WatchError>)
    ensures
        n matches Ok(raw) ==> (canonical_kind(raw.kind) matches Some(k) ==> (r matches Ok(e)
            && e.kind == k && e.paths@ == raw.paths@)),
        n matches Ok(raw) ==> (canonical_kind(raw.kind) is None ==> r matches Err(
            WatchError::UnmappedEventKind,
        )),
        n matches Err(msg) ==> (r matches Err(WatchError::Producer(m)) && m@ == msg@),
{
    match n {
        Ok(raw) => match normalize_kind(raw.kind) {
            Ok(kind) => Ok(FsEvent { kind, paths: raw.paths }),
            Err(e) => Err(e),
        },
        Err(msg) => Err(WatchError::Producer(msg)),
    }
}

/// Every kind is recovered from its tag: the tags of the five kinds are
/// pairwise distinct.
pub proof fn lemma_tag_round_trip(k: FsEventKind)
    ensures
        kind_of_tag(tag_of(k)) == Some(k),
{
    let a = tag_of(FsEventKind::Any);
    let b = tag_of(FsEventKind::Access);
    let c = tag_of(FsEventKind::Create);
    let m = tag_of(FsEventKind::Modify);
    let r = tag_of(FsEventKind::Remove);
    assert(a.len() != b.len());
    assert(a.len() != c.len());
    assert(a.len() != m.len());
    assert(a.len() != r.len());
    assert(b[0] != c[0]);
    assert(b[0] != m[0]);
    assert(b[0] != r[0]);
    assert(c[0] != m[0]);
    assert(c[0] != r[0]);
    assert(m[0] != r[0]);
}

} // verus!

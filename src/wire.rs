use vstd::prelude::*;

use crate::event::{paths_of, tag_of, FsEvent};
use crate::poll::PollReply;

verus! {

#[verifier::external_type_specification]
#[verifier::external_body]
pub struct ExJsonError(serde_json::Error);

/// The JSON string literal that serde_json writes for `s`: quoted, with the
/// characters that JSON requires escaped.
pub uninterp spec fn json_quoted(s: Seq<char>) -> Seq<char>;

/// Relies on serde_json::to_string on a `str`: it writes the JSON string
/// literal of its argument. Its documentation names two causes of failure,
/// a `Serialize` impl that decides to fail and a map with non-string keys;
/// the impl for `str` is neither, and the writer is an in-memory buffer.
#[verifier::external_body]
fn json_quote(s: &str) -> (r: Result<String, serde_json::Error>)
    ensures
        r.is_ok(),
        r.unwrap()@ == json_quoted(s@),
{
    serde_json::to_string(s)
}

/// The items of `s` separated by commas.
pub open spec fn join_commas(s: Seq<Seq<char>>) -> Seq<char>
    decreases s.len(),
{
    if s.len() == 0 {
        Seq::empty()
    } else if s.len() == 1 {
        s[0]
    } else {
        join_commas(s.drop_last()) + ","@ + s.last()
    }
}

/// The wire text of an event whose kind has tag `tag` and whose paths,
/// already written as JSON string literals, are `quoted`: an object with the
/// member `kind` and the array `paths`, and no other member.
pub open spec fn wire_text(tag: Seq<char>, quoted: Seq<Seq<char>>) -> Seq<char> {
    "{\"kind\":\""@ + tag + "\",\"paths\":["@ + join_commas(quoted) + "]}"@
}

/// The wire text of an event.
pub open spec fn event_wire(e: FsEvent) -> Seq<char> {
    wire_text(tag_of(e.kind), paths_of(e).map_values(|p: Seq<char>| json_quoted(p)))
}

/// Writes the wire object of an event from its kind's tag and its paths,
/// each already a JSON string literal.
pub fn frame_event(tag: &str, quoted: &Vec<String>) -> (r: String)
    ensures
        r@ == wire_text(tag@, quoted@.map_values(|q: String| q@)),
{
    let ghost qs = quoted@.map_values(|q: String| q@);
    let mut out = String::from_str("{\"kind\":\"");
    out.append(tag);
    out.append("\",\"paths\":[");
    let ghost head = out@;
    let mut i: usize = 0;
    while i < quoted.len()
        invariant
            0 <= i <= quoted.len(),
            qs == quoted@.map_values(|q: String| q@),
            out@ == head + join_commas(qs.subrange(0, i as int)),
        decreases quoted.len() - i,
    {
        if i > 0 {
            out.append(",");
        }
        out.append(quoted[i].as_str());
        proof {
            let next = qs.subrange(0, i + 1);
            assert(next.drop_last() =~= qs.subrange(0, i as int));
            if i == 0 {
                assert(qs.subrange(0, 0) =~= Seq::<Seq<char>>::empty());
            }
        }
        i = i + 1;
    }
    assert(qs.subrange(0, quoted.len() as int) =~= qs);
    out.append("]}");
    out
}

impl FsEvent {
    /// The wire text of this event: `{"kind":<tag>,"paths":[<paths>]}`, with
    /// each path written as a JSON string literal by serde_json.
    pub fn to_json(&self) -> (r: String)
        ensures
            r@ == event_wire(*self),
    {
        let mut quoted: Vec<String> = Vec::new();
        let mut i: usize = 0;
        while i < self.paths.len()
            invariant
                0 <= i <= self.paths.len(),
                quoted@.len() == i,
                forall|j: int|
                    0 <= j < i ==> (#[trigger] quoted@[j])@ == json_quoted(self.paths@[j]@),
            decreases self.paths.len() - i,
        {
            let q = match json_quote(self.paths[i].as_str()) {
                Ok(q) => q,
                Err(_) => String::new(),
            };
            quoted.push(q);
            i = i + 1;
        }
        let r = frame_event(self.kind.tag(), &quoted);
        assert(quoted@.map_values(|q: String| q@) =~= paths_of(*self).map_values(
            |p: Seq<char>| json_quoted(p),
        ));
        r
    }
}

/// The wire text of a poll's answer: the next event as `value` beside
/// `"done":false`, or `{"done":true}` at the end of the stream.
pub open spec fn reply_wire(r: PollReply) -> Seq<char> {
    match r {
        PollReply::Value(e) => "{\"value\":"@ + event_wire(e) + ",\"done\":false}"@,
        PollReply::Done => "{\"done\":true}"@,
    }
}

impl PollReply {
    /// The wire text of this answer.
    pub fn to_json(&self) -> (r: String)
        ensures
            r@ == reply_wire(*self),
    {
        match self {
            PollReply::Value(e) => {
                let mut out = String::from_str("{\"value\":");
                let body = e.to_json();
                out.append(body.as_str());
                out.append(",\"done\":false}");
                out
            },
            PollReply::Done => String::from_str("{\"done\":true}"),
        }
    }
}

} // verus!

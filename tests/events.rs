use fs_events::{
    frame_event, normalize, normalize_kind, poll_reply, FsEvent, FsEventKind, PollReply, RawEvent,
    RawEventKind, WatchError,
};

fn raw(kind: RawEventKind, paths: &[&str]) -> RawEvent {
    RawEvent { kind, paths: paths.iter().map(|p| p.to_string()).collect() }
}

fn event(kind: FsEventKind, paths: &[&str]) -> FsEvent {
    FsEvent { kind, paths: paths.iter().map(|p| p.to_string()).collect() }
}

#[test]
fn normalize_maps_each_kind() {
    let pairs = [
        (RawEventKind::Any, FsEventKind::Any),
        (RawEventKind::Access, FsEventKind::Access),
        (RawEventKind::Create, FsEventKind::Create),
        (RawEventKind::Modify, FsEventKind::Modify),
        (RawEventKind::Remove, FsEventKind::Remove),
    ];
    for (r, k) in pairs {
        assert_eq!(normalize_kind(r).unwrap(), k);
        let e = normalize(Ok(raw(r, &["/a"]))).unwrap();
        assert_eq!(e.kind, k);
        assert_eq!(e.paths, vec!["/a".to_string()]);
    }
}

#[test]
fn normalize_keeps_paths_in_order_with_duplicates() {
    let e = normalize(Ok(raw(RawEventKind::Modify, &["/b", "/a", "/b"]))).unwrap();
    assert_eq!(e.paths, vec!["/b".to_string(), "/a".to_string(), "/b".to_string()]);
    let empty = normalize(Ok(raw(RawEventKind::Create, &[]))).unwrap();
    assert!(empty.paths.is_empty());
}

#[test]
fn normalize_refuses_other_kind() {
    assert!(matches!(normalize_kind(RawEventKind::Other), Err(WatchError::UnmappedEventKind)));
    assert!(matches!(
        normalize(Ok(raw(RawEventKind::Other, &["/a"]))),
        Err(WatchError::UnmappedEventKind)
    ));
}

#[test]
fn normalize_passes_producer_error_unchanged() {
    match normalize(Err("queue overflow".to_string())) {
        Err(WatchError::Producer(m)) => assert_eq!(m, "queue overflow"),
        other => panic!("unexpected {:?}", other),
    }
}

#[test]
fn tags_round_trip() {
    let kinds = [
        FsEventKind::Any,
        FsEventKind::Access,
        FsEventKind::Create,
        FsEventKind::Modify,
        FsEventKind::Remove,
    ];
    let tags = ["any", "access", "create", "modify", "remove"];
    for (k, t) in kinds.iter().zip(tags.iter()) {
        assert_eq!(k.tag(), *t);
        assert_eq!(FsEventKind::from_tag(t), Some(*k));
    }
    assert_eq!(FsEventKind::from_tag("other"), None);
    assert_eq!(FsEventKind::from_tag(""), None);
    assert_eq!(FsEventKind::from_tag("Create"), None);
}

#[test]
fn interesting_kinds() {
    assert!(FsEventKind::Create.is_interesting());
    assert!(FsEventKind::Modify.is_interesting());
    assert!(FsEventKind::Remove.is_interesting());
    assert!(!FsEventKind::Any.is_interesting());
    assert!(!FsEventKind::Access.is_interesting());
}

#[test]
fn create_event_wire_round_trip() {
    let e = event(FsEventKind::Create, &["/tmp/x"]);
    let text = e.to_json();
    assert_eq!(text, r#"{"kind":"create","paths":["/tmp/x"]}"#);
    let v: serde_json::Value = serde_json::from_str(&text).unwrap();
    let obj = v.as_object().unwrap();
    assert_eq!(obj.len(), 2);
    let kind = FsEventKind::from_tag(v["kind"].as_str().unwrap()).unwrap();
    let paths: Vec<String> = v["paths"]
        .as_array()
        .unwrap()
        .iter()
        .map(|p| p.as_str().unwrap().to_string())
        .collect();
    let back = FsEvent { kind, paths };
    assert_eq!(back.kind, e.kind);
    assert_eq!(back.paths, e.paths);
}

#[test]
fn wire_escapes_paths() {
    let e = event(FsEventKind::Modify, &["a\"b", "c\\d"]);
    assert_eq!(e.to_json(), r#"{"kind":"modify","paths":["a\"b","c\\d"]}"#);
    let none = event(FsEventKind::Remove, &[]);
    assert_eq!(none.to_json(), r#"{"kind":"remove","paths":[]}"#);
}

#[test]
fn frame_joins_quoted_paths() {
    let quoted = vec!["\"a\"".to_string(), "\"b\"".to_string(), "\"c\"".to_string()];
    assert_eq!(frame_event("access", &quoted), r#"{"kind":"access","paths":["a","b","c"]}"#);
    assert_eq!(frame_event("any", &Vec::new()), r#"{"kind":"any","paths":[]}"#);
}

#[test]
fn poll_reply_cases() {
    match poll_reply(Some(Ok(event(FsEventKind::Create, &["/p"])))) {
        Ok(PollReply::Value(e)) => {
            assert_eq!(e.kind, FsEventKind::Create);
            assert_eq!(e.paths, vec!["/p".to_string()]);
        }
        other => panic!("unexpected {:?}", other),
    }
    match poll_reply(Some(Err(WatchError::Producer("boom".to_string())))) {
        Err(WatchError::Producer(m)) => assert_eq!(m, "boom"),
        other => panic!("unexpected {:?}", other),
    }
    assert!(matches!(poll_reply(None), Ok(PollReply::Done)));
}

#[test]
fn poll_reply_wire() {
    assert_eq!(PollReply::Done.to_json(), r#"{"done":true}"#);
    let r = PollReply::Value(event(FsEventKind::Remove, &["/q"]));
    assert_eq!(r.to_json(), r#"{"value":{"kind":"remove","paths":["/q"]},"done":false}"#);
}

use k8s_watch::api_watcher::{
    classify_status, Error, InvocationError, InvocationEvent, Phase, WatchOptional,
};
use k8s_watch::decoder::Decoder;
use k8s_watch::resource_version::{Candidate, Object, ObjectMeta, State, WatchEvent};

fn object_with_version(version: Option<&str>) -> Object {
    Object {
        metadata: Some(ObjectMeta {
            resource_version: version.map(|v| v.to_owned()),
        }),
    }
}

fn candidate_with_value(value: &str) -> Candidate {
    Candidate::from_object(&object_with_version(Some(value))).expect("candidate")
}

/// Reads one frame the way a caller does: JSON, with a type and an object.
fn parse_frame(frame: &[u8]) -> WatchEvent {
    let value: serde_json::Value = serde_json::from_slice(frame).expect("valid frame");
    let object = Object {
        metadata: value["object"].get("metadata").map(|m| ObjectMeta {
            resource_version: m
                .get("resourceVersion")
                .and_then(|v| v.as_str())
                .map(|v| v.to_owned()),
        }),
    };
    match value["type"].as_str().expect("type") {
        "ADDED" => WatchEvent::Added(object),
        "MODIFIED" => WatchEvent::Modified(object),
        "DELETED" => WatchEvent::Deleted(object),
        "BOOKMARK" => WatchEvent::Bookmark(object),
        _ => WatchEvent::ErrorOther,
    }
}

#[test]
fn state_starts_empty_and_updates() {
    let mut state = State::new();
    assert_eq!(state.get(), None);
    let prev = state.update(candidate_with_value("42"));
    assert_eq!(prev, None);
    assert_eq!(state.get(), Some("42"));
    let prev = state.update(candidate_with_value("43"));
    assert_eq!(prev, Some("42".to_owned()));
    assert_eq!(state.get(), Some("43"));
}

#[test]
fn state_reset_returns_previous() {
    let mut state = State::new();
    state.update(candidate_with_value("42"));
    assert_eq!(state.reset(), Some("42".to_owned()));
    assert_eq!(state.get(), None);
    assert_eq!(state.reset(), None);
}

#[test]
fn candidate_needs_metadata_and_version() {
    assert!(Candidate::from_object(&Object { metadata: None }).is_none());
    assert!(Candidate::from_object(&object_with_version(None)).is_none());
    assert!(Candidate::from_object(&object_with_version(Some(""))).is_none());
    let mut state = State::new();
    state.update(Candidate::from_object(&object_with_version(Some("7"))).unwrap());
    assert_eq!(state.get(), Some("7"));
}

#[test]
fn candidate_from_events() {
    assert!(Candidate::from_watch_event(&WatchEvent::ErrorStatus).is_none());
    assert!(Candidate::from_watch_event(&WatchEvent::ErrorOther).is_none());
    let kinds = vec![
        WatchEvent::Added(object_with_version(Some("1"))),
        WatchEvent::Modified(object_with_version(Some("2"))),
        WatchEvent::Deleted(object_with_version(Some("3"))),
        WatchEvent::Bookmark(object_with_version(Some("4"))),
    ];
    let mut state = State::new();
    for (i, event) in kinds.iter().enumerate() {
        state.update(Candidate::from_watch_event(event).expect("versioned event"));
        assert_eq!(state.get(), Some(format!("{}", i + 1).as_str()));
    }
    assert!(Candidate::from_watch_event(&WatchEvent::Added(Object { metadata: None })).is_none());
}

#[test]
fn query_without_cursor_omits_version() {
    let state = State::new();
    let options = WatchOptional::from_state(&state);
    assert_eq!(options.resource_version, None);
    assert_eq!(
        options.query_pairs(),
        vec![("watch".to_owned(), "true".to_owned())]
    );
}

#[test]
fn query_with_cursor_holds_it_verbatim() {
    let mut state = State::new();
    state.update(candidate_with_value("12 &=x"));
    let options = WatchOptional::from_state(&state);
    assert_eq!(options.resource_version, Some("12 &=x".to_owned()));
    assert_eq!(
        options.query_pairs(),
        vec![
            ("resourceVersion".to_owned(), "12 &=x".to_owned()),
            ("watch".to_owned(), "true".to_owned()),
        ]
    );
}

#[test]
fn status_classification() {
    assert_eq!(classify_status(200), Ok(()));
    assert_eq!(
        classify_status(410),
        Err(InvocationError::Desync { source: Error::BadStatus { status: 410 } })
    );
    assert_eq!(
        classify_status(500),
        Err(InvocationError::Other { source: Error::BadStatus { status: 500 } })
    );
    assert_eq!(
        classify_status(404),
        Err(InvocationError::Other { source: Error::BadStatus { status: 404 } })
    );
    assert_eq!(
        classify_status(201),
        Err(InvocationError::Other { source: Error::BadStatus { status: 201 } })
    );
}

#[test]
fn gone_with_empty_body_is_desync() {
    let mut decoder = Decoder::new();
    let phase = Phase::Idle
        .step(InvocationEvent::RequestPrepared)
        .step(InvocationEvent::ResponseReceived { status: 410 });
    assert_eq!(
        phase,
        Phase::Failed { error: InvocationError::Desync { source: Error::BadStatus { status: 410 } } }
    );
    assert!(decoder.process_next_chunk(b"").is_empty());
}

#[test]
fn invocation_error_from_error_is_other() {
    assert_eq!(
        InvocationError::from(Error::Request),
        InvocationError::Other { source: Error::Request }
    );
    assert_eq!(
        InvocationError::from(Error::BadStatus { status: 410 }),
        InvocationError::Other { source: Error::BadStatus { status: 410 } }
    );
}

#[test]
fn invocation_phases() {
    let built = Phase::Idle.step(InvocationEvent::RequestPrepared);
    assert_eq!(built, Phase::RequestBuilt);
    assert_eq!(
        built.clone().step(InvocationEvent::ResponseReceived { status: 200 }),
        Phase::Streaming
    );
    assert_eq!(
        built.clone().step(InvocationEvent::ResponseReceived { status: 500 }),
        Phase::Failed { error: InvocationError::Other { source: Error::BadStatus { status: 500 } } }
    );
    assert_eq!(
        built.clone().step(InvocationEvent::RequestFailed),
        Phase::Failed { error: InvocationError::Other { source: Error::Request } }
    );
    assert_eq!(
        Phase::Idle.step(InvocationEvent::RequestPreparationFailed),
        Phase::Failed { error: InvocationError::Other { source: Error::RequestPreparation } }
    );
    assert_eq!(
        Phase::Idle.step(InvocationEvent::ResponseReceived { status: 200 }),
        Phase::Idle
    );
    assert_eq!(
        Phase::Streaming.step(InvocationEvent::RequestFailed),
        Phase::Streaming
    );
}

#[test]
fn decoder_joins_split_frames() {
    let mut decoder = Decoder::new();
    assert!(decoder.process_next_chunk(b"{\"a\":").is_empty());
    let frames = decoder.process_next_chunk(b"1}\n{\"b\":2}\n{\"c\"");
    assert_eq!(frames, vec![b"{\"a\":1}".to_vec(), b"{\"b\":2}".to_vec()]);
    let frames = decoder.process_next_chunk(b":3}\n\n");
    assert_eq!(frames, vec![b"{\"c\":3}".to_vec()]);
    assert_eq!(decoder.finish(), Ok(()));
}

#[test]
fn decoder_reports_unfinished_frame() {
    let mut decoder = Decoder::new();
    assert!(decoder.process_next_chunk(b"{\"a\":1").is_empty());
    assert_eq!(decoder.finish(), Err(b"{\"a\":1".to_vec()));
}

#[test]
fn end_to_end_desync_and_recovery() {
    let mut state = State::new();

    // First cycle: a frame split mid-way.
    assert_eq!(classify_status(200), Ok(()));
    let mut decoder = Decoder::new();
    let body = b"{\"type\":\"ADDED\",\"object\":{\"kind\":\"Pod\",\"metadata\":{\"resourceVersion\":\"100\"}}}\n";
    let (a, b) = body.split_at(30);
    assert!(decoder.process_next_chunk(a).is_empty());
    let frames = decoder.process_next_chunk(b);
    assert_eq!(frames.len(), 1);
    let event = parse_frame(&frames[0]);
    assert!(matches!(event, WatchEvent::Added(_)));
    let candidate = Candidate::from_watch_event(&event).expect("versioned");
    assert_eq!(state.update(candidate), None);
    assert_eq!(state.get(), Some("100"));

    // Second cycle: the server has evicted the history.
    let options = WatchOptional::from_state(&state);
    assert_eq!(options.resource_version, Some("100".to_owned()));
    match classify_status(410) {
        Err(InvocationError::Desync { .. }) => {
            assert_eq!(state.reset(), Some("100".to_owned()));
        }
        other => panic!("unexpected outcome {:?}", other),
    }
    assert_eq!(state.get(), None);

    // Third cycle: from scratch.
    let options = WatchOptional::from_state(&state);
    assert_eq!(options.resource_version, None);
    assert_eq!(classify_status(200), Ok(()));
    let mut decoder = Decoder::new();
    let frames = decoder.process_next_chunk(
        b"{\"type\":\"MODIFIED\",\"object\":{\"metadata\":{\"resourceVersion\":\"205\"}}}\n",
    );
    assert_eq!(frames.len(), 1);
    let candidate = Candidate::from_watch_event(&parse_frame(&frames[0])).expect("versioned");
    assert_eq!(state.update(candidate), None);
    assert_eq!(state.get(), Some("205"));
}

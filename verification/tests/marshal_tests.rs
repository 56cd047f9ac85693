use mosaicod::engine::Engine;
use mosaicod::errors::{
    engine_error_message, log_server_error, status_class, EngineError, ServerError, StatusClass,
};
use mosaicod::marshal::{
    LayerList, NotifyList, Query, ResourceKey, ResponseLayerItem, ResponseNotifyItem,
    ResponseQueryItem, SequenceSystemInfo, TopicSystemInfo,
};
use mosaicod::num::{i64_to_dec, u64_to_dec};
use mosaicod::query::{resolve_query, QuerySpec};
use mosaicod::resource::{
    Layer, Notify, ResourceId, SequenceResourceLocator, SequenceTopicGroup, TimestampRange,
    TopicResourceLocator,
};

#[test]
fn response_query_item() {
    let sequence = SequenceResourceLocator::from("/my_sequence");
    let topics = vec![
        TopicResourceLocator::from("/my_sequence/topic1/subtopic").with_timestamp_range(
            TimestampRange {
                start: 1000,
                end: 1001,
            },
        ),
        TopicResourceLocator::from("/my_sequence/topic2/subtopic"),
    ];

    let group = SequenceTopicGroup::new(sequence, topics);
    let response: ResponseQueryItem = ResponseQueryItem::from(group);

    let body = response.to_json();

    println!("{}", body);

    let response_raw = r#"{"sequence":"my_sequence","topics":[{"locator":"my_sequence/topic1/subtopic","timestamp_range":[1000,1001]},{"locator":"my_sequence/topic2/subtopic"}]}"#;

    let body_serialized = body.to_string();

    if body_serialized != response_raw {
        panic!("wrong response\nexpecting:\n{response_raw}\ngot\n{body_serialized}");
    }
}

#[test]
fn error_logging() {
    let my_function = || -> Result<(), ServerError> { Err(ServerError::Unimplemented) };
    let _ = my_function().inspect_err(|e| {
        let _ = log_server_error(e);
    });
}

#[test]
fn query_grouping_order_preserved() {
    let mut engine = Engine::new();
    engine.create_sequence("alpha", Vec::new(), 0).unwrap();
    engine.create_sequence("beta", Vec::new(), 0).unwrap();
    engine
        .create_topic("alpha", "t1", "f", "o", Vec::new(), 0)
        .unwrap();
    engine
        .create_topic("alpha", "t2", "f", "o", Vec::new(), 0)
        .unwrap();
    engine
        .create_topic("beta", "t1", "f", "o", Vec::new(), 0)
        .unwrap();

    let specs = vec![
        QuerySpec {
            sequence: "beta".to_owned(),
            topic: Some("t1".to_owned()),
            range: None,
        },
        QuerySpec {
            sequence: "alpha".to_owned(),
            topic: Some("t2".to_owned()),
            range: Some(TimestampRange { start: 3, end: 4 }),
        },
        QuerySpec {
            sequence: "alpha".to_owned(),
            topic: Some("t1".to_owned()),
            range: None,
        },
        // An exact duplicate collapses into the entry already present.
        QuerySpec {
            sequence: "beta".to_owned(),
            topic: Some("t1".to_owned()),
            range: None,
        },
    ];
    let set = resolve_query(&engine, &specs).unwrap();
    let body = Query::from(set).to_json();
    assert_eq!(
        body,
        r#"{"items":[{"sequence":"beta","topics":[{"locator":"beta/t1"}]},{"sequence":"alpha","topics":[{"locator":"alpha/t2","timestamp_range":[3,4]},{"locator":"alpha/t1"}]}]}"#
    );

    // The emitted body is well-formed JSON as an independent parser sees it.
    let parsed: serde_json::Value = serde_json::from_str(&body).unwrap();
    assert_eq!(parsed["items"][0]["sequence"], serde_json::Value::String("beta".to_owned()));
    assert_eq!(
        parsed["items"][1]["topics"][0]["timestamp_range"][1],
        serde_json::Value::from(4)
    );
}

#[test]
fn query_unresolved_fails_whole_call() {
    let mut engine = Engine::new();
    engine.create_sequence("alpha", Vec::new(), 0).unwrap();
    engine
        .create_topic("alpha", "t1", "f", "o", Vec::new(), 0)
        .unwrap();

    let specs = vec![
        QuerySpec {
            sequence: "alpha".to_owned(),
            topic: Some("t1".to_owned()),
            range: None,
        },
        QuerySpec {
            sequence: "ghost".to_owned(),
            topic: None,
            range: None,
        },
    ];
    assert!(matches!(
        resolve_query(&engine, &specs),
        Err(EngineError::NotFound)
    ));
}

#[test]
fn resource_key_canonical_form() {
    let key = ResourceKey::from(ResourceId { uuid: 1 });
    assert_eq!(key.key, "00000000-0000-0000-0000-000000000001");
    let key = ResourceKey::from(ResourceId {
        uuid: 0x0123456789abcdef0123456789abcdef,
    });
    assert_eq!(key.key, "01234567-89ab-cdef-0123-456789abcdef");
    assert_eq!(key.to_json(), r#"{"key":"01234567-89ab-cdef-0123-456789abcdef"}"#);
}

#[test]
fn decimal_rendering() {
    assert_eq!(u64_to_dec(0), "0");
    assert_eq!(u64_to_dec(90210), "90210");
    assert_eq!(u64_to_dec(u64::MAX), "18446744073709551615");
    assert_eq!(i64_to_dec(-1), "-1");
    assert_eq!(i64_to_dec(i64::MIN), "-9223372036854775808");
    assert_eq!(i64_to_dec(i64::MAX), "9223372036854775807");
}

#[test]
fn json_escaping() {
    let item = ResponseLayerItem::from(Layer {
        locator: "a\"b\\c".to_owned(),
        description: "plain".to_owned(),
    });
    assert_eq!(item.to_json(), r#"{"name":"a\"b\\c","description":"plain"}"#);
}

#[test]
fn system_info_serialization() {
    let mut engine = Engine::new();
    engine.create_sequence("s", Vec::new(), -7).unwrap();
    engine
        .create_topic("s", "t", "f", "o", Vec::new(), 12)
        .unwrap();
    let t = TopicSystemInfo::from(engine.topic_info("s/t").unwrap());
    assert_eq!(
        t.to_json(),
        r#"{"chunks_number":0,"total_size_bytes":0,"is_locked":false,"created_datetime":"12"}"#
    );
    let s = SequenceSystemInfo::from(engine.sequence_info("s").unwrap());
    assert_eq!(
        s.to_json(),
        r#"{"total_size_bytes":0,"is_locked":false,"created_datetime":"-7"}"#
    );
}

#[test]
fn notify_and_layer_lists() {
    let notifies = vec![
        Notify {
            target: "s/t".to_owned(),
            notify_type: "ingestion_complete".to_owned(),
            msg: Some("done".to_owned()),
            created_at: 5,
        },
        Notify {
            target: "s".to_owned(),
            notify_type: "failure".to_owned(),
            msg: None,
            created_at: 6,
        },
    ];
    let body = NotifyList::from(notifies).to_json();
    assert_eq!(
        body,
        r#"{"notifies":[{"name":"s/t","notify_type":"ingestion_complete","msg":"done","created_datetime":"5"},{"name":"s","notify_type":"failure","msg":"","created_datetime":"6"}]}"#
    );

    let layers = vec![Layer {
        locator: "semantic".to_owned(),
        description: "semantic annotations".to_owned(),
    }];
    let body = LayerList::from(layers).to_json();
    assert_eq!(
        body,
        r#"{"layers":[{"name":"semantic","description":"semantic annotations"}]}"#
    );

    let empty = NotifyList::from(Vec::new()).to_json();
    assert_eq!(empty, r#"{"notifies":[]}"#);

    let _ = ResponseNotifyItem::from(Notify {
        target: "x".to_owned(),
        notify_type: "y".to_owned(),
        msg: None,
        created_at: 0,
    });
}

#[test]
fn error_status_classes() {
    assert_eq!(
        status_class(&EngineError::InvalidName),
        StatusClass::InvalidArgument
    );
    assert_eq!(
        status_class(&EngineError::MalformedBody),
        StatusClass::InvalidArgument
    );
    assert_eq!(status_class(&EngineError::NotFound), StatusClass::NotFound);
    assert_eq!(
        status_class(&EngineError::Conflict),
        StatusClass::AlreadyExists
    );
    assert_eq!(
        status_class(&EngineError::Locked),
        StatusClass::FailedPrecondition
    );
    assert_eq!(
        status_class(&EngineError::AlreadyLocked),
        StatusClass::FailedPrecondition
    );
    assert_eq!(
        status_class(&EngineError::NotHolder),
        StatusClass::FailedPrecondition
    );
    assert_eq!(
        status_class(&EngineError::NotLocked),
        StatusClass::FailedPrecondition
    );
    assert_eq!(
        status_class(&EngineError::UnknownAction),
        StatusClass::Unimplemented
    );
    assert_eq!(status_class(&EngineError::Internal), StatusClass::Internal);
}

#[test]
fn error_messages() {
    assert_eq!(engine_error_message(&EngineError::Conflict), "resource name already in use");
    assert_eq!(
        log_server_error(&ServerError::BadTicket("oops".to_owned())),
        "bad ticket - oops"
    );
    assert_eq!(log_server_error(&ServerError::Unimplemented), "unimplemented");
    assert_eq!(
        log_server_error(&ServerError::Engine(EngineError::NotFound)),
        "engine error: resource not found"
    );
}

#[test]
fn locator_name_stripping() {
    let s = SequenceResourceLocator::from("/my_sequence");
    assert_eq!(s.name(), "my_sequence");
    let t = TopicResourceLocator::from("/a/b/c");
    assert_eq!(t.name(), "a/b/c");
    let bare = TopicResourceLocator::from("a/b");
    assert_eq!(bare.name(), "a/b");
    assert!(bare.timestamp_range.is_none());
}

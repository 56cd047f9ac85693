use mosaicod::dispatch::{do_action, ActionRequest};
use mosaicod::engine::Engine;
use mosaicod::errors::EngineError;
use mosaicod::resource::{Layer, Notify};
use mosaicod::tokens::{allow_data_loss, DataLossToken};

#[test]
fn unknown_action_refused() {
    let mut engine = Engine::new();
    let r = do_action(&mut engine, "no_such_action", "{}", 0);
    assert!(matches!(r, Err(EngineError::UnknownAction)));
}

#[test]
fn malformed_body_refused() {
    let mut engine = Engine::new();
    // A registered action with a body missing its required field fails with
    // `MalformedBody`, not a generic internal error.
    let r = do_action(&mut engine, "sequence_create", "{}", 0);
    assert!(matches!(r, Err(EngineError::MalformedBody)));
    let r = do_action(&mut engine, "sequence_create", r#"{"user_metadata":{}}"#, 0);
    assert!(matches!(r, Err(EngineError::MalformedBody)));
    let r = do_action(&mut engine, "topic_create", r#"{"sequence":"s"}"#, 0);
    assert!(matches!(r, Err(EngineError::MalformedBody)));
    let r = do_action(&mut engine, "query", r#"{"items":"#, 0);
    assert!(matches!(r, Err(EngineError::MalformedBody)));
    assert_eq!(engine.sequences.len(), 0);
}

#[test]
fn do_action_sequence_create_envelope() {
    let mut engine = Engine::new();
    let envs = do_action(&mut engine, "sequence_create", r#"{"name":"rec"}"#, 0).unwrap();
    assert_eq!(envs.len(), 1);
    assert_eq!(
        envs[0],
        r#"{"action":"sequence_create","response":{"key":"00000000-0000-0000-0000-000000000001"}}"#
    );

    let envs = do_action(
        &mut engine,
        "topic_create",
        r#"{"sequence":"rec","topic":"cam/front","serialization_format":"default","ontology_tag":"mock","user_metadata":{"fps":"30"}}"#,
        0,
    )
    .unwrap();
    assert_eq!(
        envs[0],
        r#"{"action":"topic_create","response":{"key":"00000000-0000-0000-0000-000000000002"}}"#
    );

    // Creating the same sequence again conflicts and changes nothing.
    let r = do_action(&mut engine, "sequence_create", r#"{"name":"rec"}"#, 0);
    assert!(matches!(r, Err(EngineError::Conflict)));
    assert_eq!(engine.sequences.len(), 1);
}

#[test]
fn do_action_query_envelope() {
    let mut engine = Engine::new();
    do_action(&mut engine, "sequence_create", r#"{"name":"rec"}"#, 0).unwrap();
    do_action(
        &mut engine,
        "topic_create",
        r#"{"sequence":"rec","topic":"cam","serialization_format":"f","ontology_tag":"o"}"#,
        0,
    )
    .unwrap();

    let envs = do_action(
        &mut engine,
        "query",
        r#"{"items":[{"sequence":"rec","topic":"cam","timestamp_range":[-5,10]}]}"#,
        0,
    )
    .unwrap();
    assert_eq!(
        envs[0],
        r#"{"action":"query","response":{"items":[{"sequence":"rec","topics":[{"locator":"rec/cam","timestamp_range":[-5,10]}]}]}}"#
    );

    // A query naming a nonexistent sequence fails the whole call.
    let r = do_action(
        &mut engine,
        "query",
        r#"{"items":[{"sequence":"rec","topic":"cam"},{"sequence":"ghost"}]}"#,
        0,
    );
    assert!(matches!(r, Err(EngineError::NotFound)));
}

#[test]
fn do_action_list_envelopes() {
    let mut engine = Engine::new();
    engine.push_notify(Notify {
        target: "rec/cam".to_owned(),
        notify_type: "ingestion_complete".to_owned(),
        msg: None,
        created_at: 3,
    });
    engine.push_layer(Layer {
        locator: "semantic".to_owned(),
        description: "semantic annotations".to_owned(),
    });

    let envs = do_action(&mut engine, "notify_list", "", 0).unwrap();
    assert_eq!(
        envs[0],
        r#"{"action":"notify_list","response":{"notifies":[{"name":"rec/cam","notify_type":"ingestion_complete","msg":"","created_datetime":"3"}]}}"#
    );

    let envs = do_action(&mut engine, "layer_list", "{}", 0).unwrap();
    assert_eq!(
        envs[0],
        r#"{"action":"layer_list","response":{"layers":[{"name":"semantic","description":"semantic annotations"}]}}"#
    );

    let r = do_action(&mut engine, "notify_list", "junk", 0);
    assert!(matches!(r, Err(EngineError::MalformedBody)));
}

#[test]
fn try_new_decodes_typed_requests() {
    let req = ActionRequest::try_new("sequence_create", r#"{"name":"a b","user_metadata":{"k":"v"}}"#)
        .unwrap();
    match req {
        ActionRequest::SequenceCreate { name, metadata } => {
            assert_eq!(name, "a b");
            assert_eq!(metadata.len(), 1);
            assert_eq!(metadata[0].0, "k");
            assert_eq!(metadata[0].1, "v");
        }
        _ => panic!("wrong variant"),
    }

    let req = ActionRequest::try_new("query", r#"{"items":[{"sequence":"s"}]}"#).unwrap();
    match req {
        ActionRequest::Query { specs } => {
            assert_eq!(specs.len(), 1);
            assert_eq!(specs[0].sequence, "s");
            assert!(specs[0].topic.is_none());
            assert!(specs[0].range.is_none());
        }
        _ => panic!("wrong variant"),
    }

    // Escapes inside strings decode to the bare characters.
    let req = ActionRequest::try_new("sequence_create", r#"{"name":"a\"b\\c"}"#).unwrap();
    match req {
        ActionRequest::SequenceCreate { name, .. } => assert_eq!(name, "a\"b\\c"),
        _ => panic!("wrong variant"),
    }
}

fn dangerous_noop(_: DataLossToken) {}

#[test]
fn data_loss_token_opt_in() {
    dangerous_noop(allow_data_loss());
}

use mosaicod::engine::Engine;
use mosaicod::errors::EngineError;
use mosaicod::resource::{Chunk, ResourceId, TimestampRange};

fn valid_key(key: &ResourceId) -> bool {
    !(key.uuid == 0) || !(key.uuid == u128::MAX)
}

#[test]
fn sequence_create() {
    let mut engine = Engine::new();

    let key = engine
        .create_sequence("test_sequence", Vec::new(), 0)
        .expect("sequence creation failed");
    assert!(valid_key(&key));
}

#[test]
fn topic_create() {
    let mut engine = Engine::new();

    let key = engine
        .create_sequence("test_sequence", Vec::new(), 0)
        .expect("sequence creation failed");
    assert!(valid_key(&key));

    let key = engine
        .create_topic("test_sequence", "my_topic", "default", "mock", Vec::new(), 0)
        .expect("topic creation failed");
    assert!(valid_key(&key));

    let info = engine.topic_info("test_sequence/my_topic").unwrap();
    assert_eq!(info.chunks_number, 0);
}

#[test]
fn creation_keys_distinct_and_unlocked() {
    let mut engine = Engine::new();
    let k1 = engine.create_sequence("seq_a", Vec::new(), 7).unwrap();
    let k2 = engine
        .create_topic("seq_a", "t1", "fmt", "tag", Vec::new(), 8)
        .unwrap();
    let k3 = engine
        .create_topic("seq_a", "t2", "fmt", "tag", Vec::new(), 9)
        .unwrap();

    assert_ne!(k1.uuid, k2.uuid);
    assert_ne!(k1.uuid, k3.uuid);
    assert_ne!(k2.uuid, k3.uuid);
    assert!(k1.uuid != 0 && k1.uuid != u128::MAX);
    assert!(k2.uuid != 0 && k2.uuid != u128::MAX);
    assert!(k3.uuid != 0 && k3.uuid != u128::MAX);

    assert!(!engine.sequence_info("seq_a").unwrap().is_locked);
    assert!(!engine.topic_info("seq_a/t1").unwrap().is_locked);
    assert!(!engine.topic_info("seq_a/t2").unwrap().is_locked);
}

#[test]
fn duplicate_sequence_conflict() {
    let mut engine = Engine::new();
    engine.create_sequence("twice", Vec::new(), 1).unwrap();
    let before = engine.sequences.len();
    let r = engine.create_sequence("twice", Vec::new(), 2);
    assert!(matches!(r, Err(EngineError::Conflict)));
    assert_eq!(engine.sequences.len(), before);
    assert_eq!(engine.next_id, 2);
}

#[test]
fn invalid_names_rejected() {
    let mut engine = Engine::new();
    assert!(matches!(
        engine.create_sequence("", Vec::new(), 0),
        Err(EngineError::InvalidName)
    ));
    assert!(matches!(
        engine.create_sequence("a/b", Vec::new(), 0),
        Err(EngineError::InvalidName)
    ));
    engine.create_sequence("ok", Vec::new(), 0).unwrap();
    assert!(matches!(
        engine.create_topic("ok", "/bad", "f", "o", Vec::new(), 0),
        Err(EngineError::InvalidName)
    ));
    assert!(matches!(
        engine.create_topic("missing", "t", "f", "o", Vec::new(), 0),
        Err(EngineError::NotFound)
    ));
}

#[test]
fn lock_state_machine() {
    let mut engine = Engine::new();
    engine.create_sequence("s", Vec::new(), 0).unwrap();
    engine
        .create_topic("s", "t", "f", "o", Vec::new(), 0)
        .unwrap();

    engine.locks.acquire("s/t", 1).unwrap();
    assert!(matches!(
        engine.locks.acquire("s/t", 1),
        Err(EngineError::AlreadyLocked)
    ));
    assert!(matches!(
        engine.locks.acquire("s/t", 2),
        Err(EngineError::AlreadyLocked)
    ));
    assert!(matches!(
        engine.locks.release("s/t", 2),
        Err(EngineError::NotHolder)
    ));
    engine.locks.release("s/t", 1).unwrap();
    assert!(matches!(
        engine.locks.release("s/t", 1),
        Err(EngineError::NotLocked)
    ));
}

#[test]
fn concurrent_writers_exclusive() {
    let mut engine = Engine::new();
    engine.create_sequence("s", Vec::new(), 0).unwrap();
    engine
        .create_topic("s", "t", "f", "o", Vec::new(), 0)
        .unwrap();

    // The first writer opens its scope and holds the topic.
    engine.begin_ingest("s/t", 1).unwrap();
    assert!(engine.topic_info("s/t").unwrap().is_locked);

    // The second writer observes `Locked` and commits nothing.
    let chunks = vec![Chunk {
        span: TimestampRange { start: 0, end: 10 },
        data: vec![1, 2, 3],
    }];
    let r = engine.bulk_write("s/t", chunks, 2);
    assert!(matches!(r, Err(EngineError::Locked)));
    assert_eq!(engine.topic_info("s/t").unwrap().chunks_number, 0);

    // After the first completes, a retry succeeds.
    engine.finish_ingest("s/t", 1).unwrap();
    let chunks = vec![Chunk {
        span: TimestampRange { start: 0, end: 10 },
        data: vec![1, 2, 3],
    }];
    engine.bulk_write("s/t", chunks, 2).unwrap();
    assert_eq!(engine.topic_info("s/t").unwrap().chunks_number, 1);
    assert!(!engine.topic_info("s/t").unwrap().is_locked);
}

#[test]
fn bulk_write_accounting_and_read_order() {
    let mut engine = Engine::new();
    engine.create_sequence("s", Vec::new(), 0).unwrap();
    engine
        .create_topic("s", "t", "f", "o", Vec::new(), 0)
        .unwrap();

    let chunks = vec![
        Chunk {
            span: TimestampRange { start: 0, end: 9 },
            data: vec![1, 2, 3, 4],
        },
        Chunk {
            span: TimestampRange { start: 10, end: 19 },
            data: vec![5, 6],
        },
        Chunk {
            span: TimestampRange { start: 20, end: 29 },
            data: vec![7, 8, 9],
        },
    ];
    engine.bulk_write("s/t", chunks, 42).unwrap();

    let info = engine.topic_info("s/t").unwrap();
    assert_eq!(info.chunks_number, 3);
    assert_eq!(info.total_size_bytes, 9);
    assert_eq!(engine.sequence_info("s").unwrap().total_size_bytes, 9);

    // A full-range read returns all chunks in commit order.
    let all = engine.bulk_read("s/t", None).unwrap();
    assert_eq!(all.len(), 3);
    assert_eq!(all[0].data, vec![1, 2, 3, 4]);
    assert_eq!(all[1].data, vec![5, 6]);
    assert_eq!(all[2].data, vec![7, 8, 9]);

    // A window selects only the intersecting chunks; an empty window is an
    // empty run, not an error.
    let mid = engine
        .bulk_read("s/t", Some(TimestampRange { start: 10, end: 19 }))
        .unwrap();
    assert_eq!(mid.len(), 1);
    assert_eq!(mid[0].data, vec![5, 6]);
    let none = engine
        .bulk_read("s/t", Some(TimestampRange { start: 100, end: 200 }))
        .unwrap();
    assert_eq!(none.len(), 0);
    assert!(matches!(
        engine.bulk_read("s/missing", None),
        Err(EngineError::NotFound)
    ));
}

#[test]
fn bulk_write_rejects_backward_span() {
    let mut engine = Engine::new();
    engine.create_sequence("s", Vec::new(), 0).unwrap();
    engine
        .create_topic("s", "t", "f", "o", Vec::new(), 0)
        .unwrap();
    let chunks = vec![Chunk {
        span: TimestampRange { start: 5, end: 4 },
        data: vec![1],
    }];
    assert!(matches!(
        engine.bulk_write("s/t", chunks, 1),
        Err(EngineError::MalformedBody)
    ));
    assert_eq!(engine.topic_info("s/t").unwrap().chunks_number, 0);
}

#[test]
fn topic_create_under_locked_sequence() {
    let mut engine = Engine::new();
    engine.create_sequence("s", Vec::new(), 0).unwrap();
    engine.locks.acquire("s", 9).unwrap();
    assert!(matches!(
        engine.create_topic("s", "t", "f", "o", Vec::new(), 0),
        Err(EngineError::Locked)
    ));
    engine.locks.release("s", 9).unwrap();
    engine
        .create_topic("s", "t", "f", "o", Vec::new(), 0)
        .unwrap();
}

use bson::{Bson, Document};
use mongo_trace::cmap::{
    CmapEvent, ConnectionCheckoutFailedEvent, ConnectionClosedEvent, ConnectionPoolOptions,
    ConnectionTracingEventEmitter, PoolCreatedEvent,
};
use mongo_trace::command::{
    CommandError, CommandFailedEvent, CommandStartedEvent, CommandSucceededEvent,
    CommandTracingEventEmitter, ConnectionInfo, ErrorKind, COMMAND_TRACING_EVENT_TARGET,
    DEFAULT_MAX_DOCUMENT_LENGTH_BYTES,
};
use mongo_trace::event::{ServerAddress, TracingEvent, TracingEventValue};
use mongo_trace::hub::{next_wait_step, NarrowingError, ReceiveOutcome, SerializedValue, WaitStep};
use mongo_trace::level::TracingOrLogLevel;
use mongo_trace::level_map::LevelMap;
use mongo_trace::merge::{
    max_verbosity_levels_from_test_file, ClientEntity, Operation, TestCase, TestFile,
    TestFileEntity,
};
use mongo_trace::payload::{serialize_command_or_reply, truncate_on_char_boundary};
use mongo_trace::pool::ConnectionPool;
use mongo_trace::repr::{
    description_representation, document_representation, object_id_representation,
    ConnectionCheckoutFailedReason, ConnectionClosedReason, SerializedKind,
};
use mongo_trace::sdam::{
    SdamTracingEventEmitter, ServerDescriptionChangedEvent, ServerHeartbeatStartedEvent,
    ServerHeartbeatSucceededEvent,
};

fn bytes_of(doc: &Document) -> Vec<u8> {
    let mut out = Vec::new();
    doc.to_writer(&mut out).unwrap();
    out
}

fn address() -> ServerAddress {
    ServerAddress { host: "localhost".to_string(), port: Some(27017) }
}

fn connection() -> ConnectionInfo {
    ConnectionInfo { id: 3, server_id: Some(42), address: address() }
}

fn text_field(event: &TracingEvent, name: &str) -> String {
    match event.field(name) {
        Some(TracingEventValue::String(s)) => s.clone(),
        other => panic!("field {} is not text: {:?}", name, other),
    }
}

fn names(event: &TracingEvent) -> Vec<String> {
    event.fields.iter().map(|(n, _)| n.clone()).collect()
}

fn started(command: Vec<u8>) -> CommandStartedEvent {
    CommandStartedEvent {
        command,
        db: "tracing_test".to_string(),
        command_name: "insert".to_string(),
        request_id: 7,
        connection: connection(),
        service_id: None,
    }
}

fn succeeded(reply: Vec<u8>, command_name: &str) -> CommandSucceededEvent {
    CommandSucceededEvent {
        duration_ms: 12,
        reply,
        db: "tracing_test".to_string(),
        command_name: command_name.to_string(),
        request_id: 7,
        connection: connection(),
        service_id: None,
    }
}

#[test]
fn tracing_truncation() {
    let single_emoji = String::from("🤔");
    let two_emoji = String::from("🤔🤔");

    let mut s = two_emoji.clone();
    assert_eq!(s.len(), 8);

    // start of string is a boundary, so we should truncate there
    truncate_on_char_boundary(&mut s, 0);
    assert_eq!(s, String::from(""));

    // we should "round up" to the end of the first emoji
    s = two_emoji.clone();
    truncate_on_char_boundary(&mut s, 1);
    assert_eq!(s, single_emoji);

    // 4 is a boundary, so we should truncate there
    s = two_emoji.clone();
    truncate_on_char_boundary(&mut s, 4);
    assert_eq!(s, single_emoji);

    // we should round up to the full string
    s = two_emoji.clone();
    truncate_on_char_boundary(&mut s, 5);
    assert_eq!(s, two_emoji);

    // end of string is a boundary, so we should truncate there
    s = two_emoji.clone();
    truncate_on_char_boundary(&mut s, 8);
    assert_eq!(s, two_emoji);

    // we should get the full string back if the new length is longer than the original
    s = two_emoji.clone();
    truncate_on_char_boundary(&mut s, 10);
    assert_eq!(s, two_emoji);
}

#[test]
fn truncation_rounds_up_inside_two_byte_character() {
    let mut s = String::from("héllo");
    truncate_on_char_boundary(&mut s, 2);
    assert_eq!(s, "hé");
    let mut s = String::from("héllo");
    truncate_on_char_boundary(&mut s, 1);
    assert_eq!(s, "h");
    let mut s = String::from("héllo");
    truncate_on_char_boundary(&mut s, 6);
    assert_eq!(s, "héllo");
    let mut s = String::from("héllo");
    truncate_on_char_boundary(&mut s, 5);
    assert_eq!(s, "héll");
}

#[test]
fn truncation_keeps_empty_and_short_strings() {
    let mut s = String::new();
    truncate_on_char_boundary(&mut s, 0);
    assert_eq!(s, "");
    let mut s = String::from("abc");
    truncate_on_char_boundary(&mut s, usize::MAX);
    assert_eq!(s, "abc");
}

fn insert_command(collection: &str, docs: Vec<Document>) -> Document {
    let mut command = Document::new();
    command.insert("insert", collection);
    command.insert("documents", docs.into_iter().map(Bson::Document).collect::<Vec<Bson>>());
    command
}

#[test]
fn command_logging_truncation_default_limit() {
    let emitter = CommandTracingEventEmitter::new(None, None);
    let mut xy = Document::new();
    xy.insert("x", "y");
    let command = insert_command("truncation", vec![xy.clone(); 100]);
    let started_event = emitter.handle_command_started_event(started(bytes_of(&command)));
    assert_eq!(started_event.target, COMMAND_TRACING_EVENT_TARGET);
    assert_eq!(started_event.level, TracingOrLogLevel::Debug);
    assert_eq!(text_field(&started_event, "command").len(), DEFAULT_MAX_DOCUMENT_LENGTH_BYTES);

    let mut reply = Document::new();
    reply.insert("n", 100i32);
    reply.insert("ok", 1.0f64);
    let succeeded_event = emitter.handle_command_succeeded_event(succeeded(bytes_of(&reply), "insert"));
    assert!(text_field(&succeeded_event, "reply").len() <= DEFAULT_MAX_DOCUMENT_LENGTH_BYTES);

    let batch: Vec<Bson> = (0..100u8)
        .map(|i| {
            let mut d = Document::new();
            d.insert("_id", bson::oid::ObjectId::from_bytes([i; 12]));
            d.insert("x", "y");
            Bson::Document(d)
        })
        .collect();
    let mut cursor = Document::new();
    cursor.insert("firstBatch", batch);
    cursor.insert("id", 0i64);
    cursor.insert("ns", "tracing_test.truncation");
    let mut find_reply = Document::new();
    find_reply.insert("cursor", cursor);
    find_reply.insert("ok", 1.0f64);
    let find_event = emitter.handle_command_succeeded_event(succeeded(bytes_of(&find_reply), "find"));
    assert_eq!(find_event.message.as_deref(), Some("Command succeeded"));
    assert_eq!(text_field(&find_event, "reply").len(), DEFAULT_MAX_DOCUMENT_LENGTH_BYTES);
}

#[test]
fn command_logging_truncation_explicit_limit() {
    let emitter = CommandTracingEventEmitter::new(Some(5), None);
    let mut hello = Document::new();
    hello.insert("hello", "true");
    let started_event = emitter.handle_command_started_event(started(bytes_of(&hello)));
    assert_eq!(text_field(&started_event, "command").len(), 5);
    assert_eq!(text_field(&started_event, "command"), "{\"hel");

    let mut reply = Document::new();
    reply.insert("isWritablePrimary", true);
    reply.insert("ok", 1.0f64);
    let succeeded_event = emitter.handle_command_succeeded_event(succeeded(bytes_of(&reply), "hello"));
    assert_eq!(text_field(&succeeded_event, "reply").len(), 5);
}

#[test]
fn command_logging_truncation_mid_codepoint_reply() {
    let emitter = CommandTracingEventEmitter::new(Some(215), None);
    let mut doc = Document::new();
    doc.insert("🤔", "🤔🤔🤔🤔🤔🤔");
    let command = insert_command("trunca", vec![doc.clone(); 10]);
    let started_event = emitter.handle_command_started_event(started(bytes_of(&command)));
    assert_eq!(text_field(&started_event, "command").len(), 218);

    let mut cursor = Document::new();
    cursor.insert("firstBatch", vec![Bson::Document(doc); 10]);
    cursor.insert("id", 0i64);
    cursor.insert("ns", "tracing_test.truncation");
    let mut reply = Document::new();
    reply.insert("cursor", cursor);
    reply.insert("ok", 1.0f64);
    let succeeded_event = emitter.handle_command_succeeded_event(succeeded(bytes_of(&reply), "find"));
    assert_eq!(text_field(&succeeded_event, "command_name"), "find");
    assert_eq!(text_field(&succeeded_event, "reply").len(), 218);
}

#[test]
fn canonical_extended_json_carries_type_markers() {
    let mut doc = Document::new();
    doc.insert("n", 1i32);
    doc.insert("l", 2i64);
    let text = serialize_command_or_reply(&bytes_of(&doc), 1000);
    assert_eq!(text, "{\"n\":{\"$numberInt\":\"1\"},\"l\":{\"$numberLong\":\"2\"}}");
}

#[test]
fn undecodable_document_renders_fallback() {
    let text = document_representation(SerializedKind::Document, &[1, 2, 3]);
    assert!(text.starts_with("Failed to serialize document: "));
}

#[test]
fn command_started_fields_are_exact() {
    let emitter = CommandTracingEventEmitter::new(None, Some("client-1".to_string()));
    let mut hello = Document::new();
    hello.insert("hello", 1i32);
    let mut event = started(bytes_of(&hello));
    event.service_id = Some([0xab; 12]);
    let record = emitter.handle_command_started_event(event);
    assert_eq!(
        names(&record),
        vec![
            "command",
            "database_name",
            "command_name",
            "request_id",
            "driver_connection_id",
            "server_connection_id",
            "server_host",
            "server_port",
            "service_id",
        ]
    );
    assert_eq!(record.message.as_deref(), Some("Command started"));
    assert!(matches!(record.field("request_id"), Some(TracingEventValue::I64(7))));
    assert!(matches!(record.field("driver_connection_id"), Some(TracingEventValue::I64(3))));
    assert!(matches!(record.field("server_connection_id"), Some(TracingEventValue::I64(42))));
    assert!(matches!(record.field("server_port"), Some(TracingEventValue::U64(27017))));
    assert_eq!(text_field(&record, "service_id"), "abababababababababababab");
    assert_eq!(text_field(&record, "command"), "{\"hello\":{\"$numberInt\":\"1\"}}");
    assert_eq!(record.client_id(), None);
}

#[test]
fn client_id_is_attached_only_when_asked() {
    let emitter = CommandTracingEventEmitter::new_attaching_client_id(None, Some("client-1".to_string()));
    let mut reply = Document::new();
    reply.insert("ok", 1i32);
    let record = emitter.handle_command_succeeded_event(succeeded(bytes_of(&reply), "ping"));
    assert_eq!(record.client_id(), Some("client-1".to_string()));
    assert_eq!(names(&record)[0], "client_id");
    assert_eq!(record.get_value_as_string("command_name"), "ping");
    assert!(matches!(record.field("duration_ms"), Some(TracingEventValue::U64(12))));

    let plain = CommandTracingEventEmitter::new(None, Some("client-1".to_string()));
    let record = plain.handle_command_succeeded_event(succeeded(bytes_of(&reply), "ping"));
    assert_eq!(record.client_id(), None);
    assert!(record.field("client_id").is_none());
}

fn failed(kind: ErrorKind) -> CommandFailedEvent {
    CommandFailedEvent {
        duration_ms: 4,
        db: "admin".to_string(),
        command_name: "saslStart".to_string(),
        failure: CommandError { kind, message: "auth failed".to_string() },
        request_id: 9,
        connection: ConnectionInfo { id: 1, server_id: None, address: address() },
        service_id: None,
    }
}

#[test]
fn succeeded_and_failed_records_name_the_database() {
    let emitter = CommandTracingEventEmitter::new(None, None);
    let mut reply = Document::new();
    reply.insert("ok", 1i32);
    let record = emitter.handle_command_succeeded_event(succeeded(bytes_of(&reply), "ping"));
    assert_eq!(
        names(&record),
        vec![
            "reply",
            "database_name",
            "command_name",
            "request_id",
            "driver_connection_id",
            "server_connection_id",
            "server_host",
            "server_port",
            "duration_ms",
        ]
    );
    assert_eq!(text_field(&record, "database_name"), "tracing_test");
    let record = emitter.handle_command_failed_event(failed(ErrorKind::Other));
    assert_eq!(text_field(&record, "database_name"), "admin");
    assert_eq!(names(&record)[..2], ["failure", "database_name"]);
}

#[test]
fn redacted_failure_is_omitted() {
    let emitter = CommandTracingEventEmitter::new(None, None);
    let record = emitter.handle_command_failed_event(failed(ErrorKind::Redacted));
    assert!(record.field("failure").is_none());
    assert_eq!(
        names(&record),
        vec![
            "database_name",
            "command_name",
            "request_id",
            "driver_connection_id",
            "server_host",
            "server_port",
            "duration_ms",
        ]
    );
    let record = emitter.handle_command_failed_event(failed(ErrorKind::Other));
    assert_eq!(text_field(&record, "failure"), "auth failed");
    assert_eq!(record.message.as_deref(), Some("Command failed"));
}

#[test]
fn connection_closed_fields_are_exact() {
    let emitter = ConnectionTracingEventEmitter::new(None);
    let record = emitter.handle_connection_closed_event(ConnectionClosedEvent {
        address: ServerAddress { host: "/tmp/db.sock".to_string(), port: None },
        connection_id: 5,
        reason: ConnectionClosedReason::Idle,
    });
    assert_eq!(record.target, "db.connection");
    assert_eq!(names(&record), vec!["server_host", "driver_connection_id", "reason"]);
    assert_eq!(
        text_field(&record, "reason"),
        "Connection has been available but unused for longer than the configured max idle time"
    );
}

#[test]
fn pool_created_reports_options() {
    let emitter = ConnectionTracingEventEmitter::new(None);
    let record = emitter.handle_pool_created_event(PoolCreatedEvent {
        address: address(),
        options: Some(ConnectionPoolOptions {
            max_idle_time_ms: Some(1500),
            max_pool_size: Some(10),
            min_pool_size: None,
        }),
    });
    assert_eq!(record.message.as_deref(), Some("Connection pool created"));
    assert_eq!(names(&record), vec!["server_host", "server_port", "max_idle_time_ms", "max_pool_size"]);
    assert!(matches!(record.field("max_idle_time_ms"), Some(TracingEventValue::U128(1500))));
    assert!(matches!(record.field("max_pool_size"), Some(TracingEventValue::U64(10))));
}

#[test]
fn reasons_have_fixed_texts() {
    assert_eq!(
        ConnectionClosedReason::Stale.tracing_representation(),
        "Connection became stale because the pool was cleared"
    );
    assert_eq!(
        ConnectionClosedReason::Error.tracing_representation(),
        "An error occurred while using the connection"
    );
    assert_eq!(
        ConnectionClosedReason::Dropped.tracing_representation(),
        "Connection was dropped during an operation"
    );
    assert_eq!(ConnectionClosedReason::PoolClosed.tracing_representation(), "Connection pool was closed");
    assert_eq!(
        ConnectionCheckoutFailedReason::Timeout.tracing_representation(),
        "Wait queue timeout elapsed without a connection becoming available"
    );
    assert_eq!(
        ConnectionCheckoutFailedReason::ConnectionError.tracing_representation(),
        "An error occurred while trying to establish a connection"
    );
}

#[test]
fn object_id_renders_as_lowercase_hex() {
    let id = [0, 1, 2, 3, 4, 5, 6, 7, 8, 9, 0xfe, 0xff];
    assert_eq!(object_id_representation(id), "00010203040506070809feff");
}

#[test]
fn description_fallback_names_the_error() {
    let text = description_representation(SerializedKind::ServerDescription, &Err("boom".to_string()));
    assert_eq!(text, "Failed to serialize server description: boom");
    let text = description_representation(SerializedKind::TopologyDescription, &Err("bad".to_string()));
    assert_eq!(text, "Failed to serialize topology description: bad");
}

#[test]
fn sdam_description_change_renders_both_descriptions() {
    let emitter = SdamTracingEventEmitter::new(None, None);
    let mut previous = Document::new();
    previous.insert("type", "Unknown");
    let record = emitter.handle_server_description_changed_event(ServerDescriptionChangedEvent {
        address: address(),
        topology_id: [0x11; 12],
        previous_description: Ok(bytes_of(&previous)),
        new_description: Err("no".to_string()),
    });
    assert_eq!(record.target, "db.sdam");
    assert_eq!(record.message, None);
    assert_eq!(
        names(&record),
        vec!["server_host", "server_port", "topology_id", "previous_description", "new_description"]
    );
    assert_eq!(text_field(&record, "previous_description"), "{\"type\":\"Unknown\"}");
    assert_eq!(text_field(&record, "new_description"), "Failed to serialize server description: no");
}

#[test]
fn heartbeat_fields_include_awaited() {
    let emitter = SdamTracingEventEmitter::new(Some(3), None);
    let record = emitter.handle_server_heartbeat_started_event(ServerHeartbeatStartedEvent {
        server_address: address(),
    });
    assert!(matches!(record.field("awaited"), Some(TracingEventValue::Bool(false))));
    let mut reply = Document::new();
    reply.insert("ok", 1i32);
    let record = emitter.handle_server_heartbeat_succeeded_event(ServerHeartbeatSucceededEvent {
        duration_ms: 8,
        reply: bytes_of(&reply),
        server_address: address(),
    });
    assert_eq!(names(&record), vec!["server_host", "server_port", "duration_ms", "reply", "awaited"]);
    assert_eq!(text_field(&record, "reply"), "{\"o");
}

fn levels(pairs: &[(&str, TracingOrLogLevel)]) -> LevelMap {
    let mut m = LevelMap::new();
    for (k, v) in pairs {
        m.insert(k.to_string(), *v);
    }
    m
}

fn client(pairs: &[(&str, TracingOrLogLevel)]) -> TestFileEntity {
    TestFileEntity::Client(ClientEntity { observe_log_messages: Some(levels(pairs)) })
}

#[test]
fn level_merge_takes_the_most_verbose() {
    let file = TestFile {
        tests: vec![TestCase {
            operations: vec![
                Operation {
                    name: "createEntities".to_string(),
                    created_entities: vec![
                        client(&[("command", TracingOrLogLevel::Info)]),
                        TestFileEntity::Other,
                        client(&[("command", TracingOrLogLevel::Debug), ("sdam", TracingOrLogLevel::Warn)]),
                    ],
                },
                Operation {
                    name: "insertOne".to_string(),
                    created_entities: vec![client(&[("ignored", TracingOrLogLevel::Trace)])],
                },
            ],
        }],
        create_entities: Some(vec![
            client(&[("sdam", TracingOrLogLevel::Error), ("connection", TracingOrLogLevel::Trace)]),
            TestFileEntity::Client(ClientEntity { observe_log_messages: None }),
        ]),
    };
    let merged = max_verbosity_levels_from_test_file(&file);
    assert_eq!(merged.len(), 3);
    assert_eq!(merged.get("command"), Some(TracingOrLogLevel::Debug));
    assert_eq!(merged.get("sdam"), Some(TracingOrLogLevel::Warn));
    assert_eq!(merged.get("connection"), Some(TracingOrLogLevel::Trace));
    assert_eq!(merged.get("ignored"), None);
}

#[test]
fn level_merge_of_empty_file_is_empty() {
    let merged = max_verbosity_levels_from_test_file(&TestFile { tests: vec![], create_entities: None });
    assert_eq!(merged.len(), 0);
}

#[test]
fn filter_enables_up_to_the_configured_verbosity() {
    let map = levels(&[("db.command", TracingOrLogLevel::Debug)]);
    assert!(map.enables("db.command", TracingOrLogLevel::Debug));
    assert!(map.enables("db.command", TracingOrLogLevel::Error));
    assert!(!map.enables("db.command", TracingOrLogLevel::Trace));
    assert!(!map.enables("db.sdam", TracingOrLogLevel::Error));
    let mut map = map;
    map.clear();
    assert!(!map.enables("db.command", TracingOrLogLevel::Error));
}

#[test]
fn level_map_insert_replaces() {
    let mut map = levels(&[("a", TracingOrLogLevel::Trace)]);
    map.insert("a".to_string(), TracingOrLogLevel::Warn);
    assert_eq!(map.get("a"), Some(TracingOrLogLevel::Warn));
    map.merge_level(&"a".to_string(), TracingOrLogLevel::Info);
    assert_eq!(map.get("a"), Some(TracingOrLogLevel::Info));
    map.merge_level(&"a".to_string(), TracingOrLogLevel::Error);
    assert_eq!(map.get("a"), Some(TracingOrLogLevel::Info));
    assert_eq!(map.len(), 1);
}

#[test]
fn levels_convert_to_both_facades() {
    assert_eq!(TracingOrLogLevel::Error.as_log_level(), log::Level::Error);
    assert_eq!(TracingOrLogLevel::Trace.as_log_level(), log::Level::Trace);
    assert_eq!(TracingOrLogLevel::Debug.as_tracing_level(), tracing::Level::DEBUG);
    assert_eq!(TracingOrLogLevel::Warn.as_tracing_level(), tracing::Level::WARN);
    assert_eq!(TracingOrLogLevel::Info.max_verbosity(TracingOrLogLevel::Trace), TracingOrLogLevel::Trace);
}

#[test]
fn lag_is_fatal_with_exact_count() {
    // the channel keeps the requested 10 000 rounded up to a power of two
    let (sender, mut receiver) = tokio::sync::broadcast::channel::<u32>(10_000);
    for i in 0..(16_384 + 5u32) {
        sender.send(i).unwrap();
    }
    let outcome = match receiver.try_recv() {
        Err(tokio::sync::broadcast::error::TryRecvError::Lagged(n)) => ReceiveOutcome::Lagged(n),
        other => panic!("expected a lag, got {:?}", other),
    };
    assert_eq!(next_wait_step(outcome), WaitStep::FailLagged(5));
}

#[test]
fn wait_steps_follow_outcomes() {
    assert_eq!(next_wait_step(ReceiveOutcome::Event { matches: true }), WaitStep::Deliver);
    assert_eq!(next_wait_step(ReceiveOutcome::Event { matches: false }), WaitStep::KeepWaiting);
    assert_eq!(next_wait_step(ReceiveOutcome::Closed), WaitStep::GiveUp);
    assert_eq!(next_wait_step(ReceiveOutcome::TimedOut), WaitStep::GiveUp);
}

#[test]
fn wide_integers_narrow_when_they_fit() {
    assert!(matches!(TracingEventValue::I128(-5).serialized(), Ok(SerializedValue::I64(-5))));
    assert!(matches!(TracingEventValue::U128(7).serialized(), Ok(SerializedValue::U64(7))));
    assert_eq!(
        TracingEventValue::I128(i128::MAX).serialized().unwrap_err(),
        NarrowingError::I128OutOfRange(i128::MAX)
    );
    assert_eq!(
        TracingEventValue::U128(u64::MAX as u128 + 1).serialized().unwrap_err(),
        NarrowingError::U128OutOfRange(u64::MAX as u128 + 1)
    );
}

#[test]
fn recorded_message_and_fields() {
    let mut event = TracingEvent::new(TracingOrLogLevel::Info, "db.command".to_string());
    event.record_field("message".to_string(), TracingEventValue::String("hi".to_string()));
    event.record_field("n".to_string(), TracingEventValue::U64(1));
    event.record_field("n".to_string(), TracingEventValue::U64(2));
    assert_eq!(event.message.as_deref(), Some("hi"));
    assert_eq!(event.fields.len(), 1);
    assert!(matches!(event.field("n"), Some(TracingEventValue::U64(2))));
}

#[test]
fn pool_records_creation_and_checkouts() {
    let mut pool = ConnectionPool::new(
        address(),
        None,
        Some(ConnectionTracingEventEmitter::new_attaching_client_id(Some("c".to_string()))),
    );
    pool.check_out_started();
    pool.check_out_finished(Some(4));
    pool.check_out_finished(None);
    pool.emit_event(CmapEvent::ConnectionCheckoutFailed(ConnectionCheckoutFailedEvent {
        address: address(),
        reason: ConnectionCheckoutFailedReason::Timeout,
    }));
    let records = pool.take_emitted();
    let messages: Vec<_> = records.iter().map(|r| r.message.clone().unwrap()).collect();
    assert_eq!(
        messages,
        vec![
            "Connection pool created",
            "Connection checkout started",
            "Connection checked out",
            "Connection checkout failed",
            "Connection checkout failed",
        ]
    );
    assert_eq!(
        text_field(&records[3], "reason"),
        "An error occurred while trying to establish a connection"
    );
    assert_eq!(records[0].client_id(), Some("c".to_string()));
    assert!(pool.take_emitted().is_empty());
    assert_eq!(pool.generation().count, 0);

    let mut mocked = ConnectionPool::new_mocked(address());
    mocked.check_out_started();
    assert!(mocked.take_emitted().is_empty());
}

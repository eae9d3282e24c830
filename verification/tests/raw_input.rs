use tradeassembly_runtime::adapters::self_hosted::access::{
    audience_text, broker_credentials, resolve_encoded_fields, resolve_stored_session,
    StoredSession,
};
use tradeassembly_runtime::adapters::self_hosted::events::EventRecord;
use tradeassembly_runtime::adapters::self_hosted::naming::{nats_component, stable_id};
use tradeassembly_runtime::adapters::self_hosted::queue::QueueRequest;
use tradeassembly_runtime::adapters::self_hosted::worker::{
    bus_command, event_command, fetch_command, jetstream_loop, queue_command, read_deliveries,
    read_message_id, BrokerMessage, KnownStreams, WorkerAction, WorkerAnswer, WorkerCommand,
    WorkerEvent, WorkerStage, WorkerStep,
};
use tradeassembly_runtime::adapters::studio_identity::IdentityClaims;
use tradeassembly_runtime::agent_runner::codex::read_codex_package;
use tradeassembly_runtime::agent_surfaces::notebook::notebook_operation;
use tradeassembly_runtime::json::{stored_value, value_bytes, value_text, Json, JsonMap};

fn value(text: &str) -> Json {
    stored_value(text).expect("a value")
}

#[test]
fn values_are_read_and_written_as_texts() {
    let read = value(r#"{"b": [1, 2.5, null], "a": "x"}"#);
    assert!(read.field_is("a", "x"));
    assert_eq!(value_text(&read), r#"{"a":"x","b":[1,2.5,null]}"#);
    assert_eq!(value_bytes(&read), value_text(&read).into_bytes());
    assert_eq!(value_bytes(&Json::text("é")), "\"é\"".as_bytes().to_vec());
    assert!(value(&value_text(&read)).equals(&read));
    let broken = stored_value("{").expect_err("no value");
    assert_eq!(broken, "EOF while parsing an object at line 1 column 1");
}

#[test]
fn zero_has_no_sign_where_values_are_compared() {
    assert!(value("-0.0").equals(&value("0.0")));
    assert!(value(r#"{"limits": [-0.0]}"#).equals(&value(r#"{"limits": [0.0]}"#)));
    assert!(!value("0.0").equals(&value("0")));
    assert!(!value("-1.0").equals(&value("1.0")));
    assert!(value("1.5").equals(&value("1.5")));
    assert_eq!(value_text(&value("-0.0")), "-0.0");
}

#[test]
fn payloads_name_their_messages() {
    let read = |bytes: &[u8]| read_message_id(&bytes.to_vec());
    assert_eq!(read(br#"{"messageId": "m-1"}"#), Ok("m-1".to_string()));
    assert_eq!(read(br#"{"messageId": 1}"#), Ok("missing".to_string()));
    assert_eq!(read(b"[]"), Ok("missing".to_string()));
    assert_eq!(
        read(b""),
        Err("EOF while parsing a value at line 1 column 0".to_string())
    );
    assert!(read(b"{\"messageId\": \"\xff\"}").is_err());
    assert!(read(b"\xff").is_err());
}

fn message(payload: &[u8], sequence: u64) -> BrokerMessage {
    BrokerMessage {
        payload: payload.to_vec(),
        reply: Some(format!("reply-{sequence}")),
        stream_sequence: sequence,
        consumer_sequence: sequence + 10,
    }
}

#[test]
fn the_first_message_that_cannot_be_read_ends_a_fetch() {
    let good = || message(br#"{"messageId": "m-1"}"#, 1);
    let list = read_deliveries(&vec![good(), message(b"{}", 2)]).expect("deliveries");
    assert_eq!(list.len(), 2);
    assert_eq!(list[0].message_id, "m-1");
    assert_eq!(list[0].reply_subject, "reply-1");
    assert_eq!(list[1].message_id, "missing");
    assert_eq!(list[1].consumer_sequence, 12);
    let empty = "EOF while parsing a value at line 1 column 0";
    let refused = read_deliveries(&vec![good(), message(b"", 2), message(b"{", 3)]);
    assert_eq!(refused.err(), Some(empty.to_string()));

    let fetched = |messages: Vec<BrokerMessage>, broken: Option<String>| {
        let serving = WorkerStage::Serving {
            known: KnownStreams { queue: true, event: true, bus: true },
        };
        let command = WorkerEvent::Command(fetch_command("orders", 5));
        let stage = match jetstream_loop(serving, command) {
            WorkerStep::Ask { stage, .. } => stage,
            other => panic!("{other:?}"),
        };
        match jetstream_loop(stage, WorkerEvent::Fetched { messages, broken }) {
            WorkerStep::Ask { action: WorkerAction::Answer(answer), .. } => match answer {
                WorkerAnswer::Deliveries(result) => result.map(|list| list.len()),
                other => panic!("{other:?}"),
            },
            other => panic!("{other:?}"),
        }
    };
    assert_eq!(fetched(vec![good()], None), Ok(1));
    let lost = || Some("lost".to_string());
    let said = fetched(vec![good()], lost()).expect_err("broken off");
    assert!(said.ends_with("lost"));
    let first = fetched(vec![message(b"", 1)], lost()).expect_err("unreadable");
    assert!(first.ends_with(empty));
}

#[test]
fn commands_carry_what_is_published() {
    let request = QueueRequest {
        queue: "orders".to_string(),
        payload: value(r#"{"n": 1}"#),
        idempotency_key: "key".to_string(),
        partition_key: None,
        priority: 3,
        available_at_ms: 100,
        retention_until_ms: 200,
        max_attempts: 4,
    };
    match queue_command(&request, "m-1") {
        WorkerCommand::PublishQueue { subject, message_id, payload } => {
            assert_eq!(subject, format!("queue.{}", nats_component("orders")));
            assert_eq!(message_id, "m-1");
            assert_eq!(read_message_id(&payload), Ok("m-1".to_string()));
            assert_eq!(
                payload,
                br#"{"availableAtMs":100,"idempotencyKey":"key","maxAttempts":4,"messageId":"m-1","partitionKey":null,"payload":{"n":1},"priority":3,"queue":"orders","retentionUntilMs":200}"#.to_vec()
            );
        }
        other => panic!("{other:?}"),
    }
    let record = EventRecord {
        event_id: "e-1".to_string(),
        stream: "runs".to_string(),
        sequence: 1,
        event_type: "run.done".to_string(),
        aggregate_id: "r".to_string(),
        payload: Json::Null,
        idempotency_key: "key".to_string(),
        occurred_at_ms: 5,
    };
    match event_command(&record, None) {
        WorkerCommand::PublishEvent { subject, message_id, payload } => {
            assert_eq!(subject, format!("event.{}", nats_component("runs")));
            assert_eq!(message_id, "e-1");
            assert_eq!(
                payload,
                br#"{"aggregateId":"r","eventType":"run.done","idempotencyKey":"key","occurredAtMs":5,"payload":null,"retentionUntilMs":null}"#.to_vec()
            );
        }
        other => panic!("{other:?}"),
    }
    match bus_command("news", &Json::Bool(true), "key") {
        WorkerCommand::PublishBus { subject, message_id, payload } => {
            assert_eq!(subject, format!("notify.{}", nats_component("news")));
            assert_eq!(message_id, stable_id("notify", "key"));
            assert_eq!(payload, b"true".to_vec());
        }
        other => panic!("{other:?}"),
    }
    match fetch_command("orders", 5) {
        WorkerCommand::FetchQueue { queue, subject, limit } => {
            assert_eq!(queue, "orders");
            assert_eq!(subject, format!("queue.{}", nats_component("orders")));
            assert_eq!(limit, 5);
        }
        other => panic!("{other:?}"),
    }
}

#[test]
fn a_package_is_known_by_its_description() {
    let places = |body: Option<&[u8]>| {
        read_codex_package(&body.map(|bytes| bytes.to_vec()), "linux", "x86_64")
    };
    assert_eq!(
        places(Some(br#"{"name": "@openai/codex", "version": "1"}"#)),
        Ok(vec![
            "node_modules/@openai/codex-linux-x64/vendor/x86_64-unknown-linux-musl/bin/codex"
                .to_string(),
            "vendor/x86_64-unknown-linux-musl/bin/codex".to_string(),
        ])
    );
    let refused = Err("codex_cli_unavailable".to_string());
    assert_eq!(places(Some(br#"{"name": "codex"}"#)), refused);
    assert_eq!(places(Some(b"{\"name\": \"\xff\"}")), refused);
    assert_eq!(places(Some(b"not a description")), refused);
    assert_eq!(places(None), refused);
    let body = Some(br#"{"name": "@openai/codex"}"#.to_vec());
    assert_eq!(read_codex_package(&body, "plan9", "x86_64"), refused);
}

#[test]
fn encoded_credentials_are_read() {
    let encoded = r#"{"credential_ref": "alpaca", "fields": {"api_key": "K", "api_secret": "S", "base_url": "U"}}"#;
    let fields = resolve_encoded_fields(encoded, "alpaca").expect("fields");
    let broker = broker_credentials("alpaca", &fields).expect("credentials");
    assert_eq!(broker.api_key, "K");
    assert_eq!(broker.api_secret, "S");
    assert_eq!(broker.base_url, "U");
    let refused = |text: &str| resolve_encoded_fields(text, "alpaca").err();
    assert_eq!(
        refused("no json"),
        Some("self-hosted credential payload is invalid".to_string())
    );
    assert_eq!(
        refused(r#"{"credential_ref": "other"}"#),
        Some("self-hosted credential reference mismatch".to_string())
    );
    assert_eq!(
        refused(r#"{"fields": {"api_key": 1}}"#),
        Some("self-hosted credential field is invalid".to_string())
    );
    assert_eq!(
        refused("{}"),
        Some("self-hosted credential payload is incomplete".to_string())
    );
}

fn stored_session(audience_json: &str) -> Option<StoredSession> {
    Some(StoredSession {
        issuer: "https://identity".to_string(),
        subject: "u".to_string(),
        audience_json: audience_json.to_string(),
        assurance: Some("mfa".to_string()),
        expires_at_ms: 10,
    })
}

#[test]
fn stored_sessions_are_read_before_they_are_judged() {
    let resolve = |stored: Option<StoredSession>, now_ms: i64| {
        resolve_stored_session(stored, "https://identity", "studio", now_ms)
    };
    let claims = resolve(stored_session(r#"["other", "studio"]"#), 9).expect("claims");
    assert_eq!(claims.audience, vec!["other", "studio"]);
    assert_eq!(claims.assurance, Some("mfa".to_string()));
    assert_eq!(audience_text(&claims), r#"["other","studio"]"#);
    assert!(resolve(stored_session(r#"["studio"]"#), 10).is_err());
    assert!(resolve(stored_session(r#"["other"]"#), 9).is_err());
    assert_eq!(
        resolve(None, 9).err(),
        Some("OIDC session is unavailable".to_string())
    );
    let broken = resolve(stored_session(r#"["studio", 1]"#), 9).expect_err("no audience");
    assert!(broken.contains("invalid type: integer `1`"));
    let kept = IdentityClaims {
        issuer: "https://identity".to_string(),
        subject: "u".to_string(),
        audience: vec!["a \"quoted\" one".to_string()],
        assurance: None,
        expires_at_ms: 10,
    };
    assert_eq!(audience_text(&kept), r#"["a \"quoted\" one"]"#);
    let again = resolve_stored_session(
        stored_session(&audience_text(&kept)),
        "https://identity",
        "a \"quoted\" one",
        9,
    )
    .expect("claims");
    assert_eq!(again.audience, kept.audience);
}

#[test]
fn values_are_read_back_as_deep_as_a_reader_goes() {
    let nested = |depth: usize| {
        let mut value = Json::Large(u64::MAX);
        for level in 0..depth {
            value = if level % 2 == 0 {
                Json::Array(vec![value, Json::Int(i64::MIN)])
            } else {
                Json::Object(JsonMap::new().with("\u{1}\u{10ffff}", value))
            };
        }
        value
    };
    let deep = nested(127);
    let read = stored_value(&value_text(&deep)).expect("a value");
    assert!(read.equals(&deep));
    let refused = stored_value(&value_text(&nested(128))).expect_err("too deep");
    assert!(refused.starts_with("recursion limit exceeded"));
}

#[test]
fn a_notebook_composes_unless_it_is_told_otherwise() {
    let operation = |text: &str| notebook_operation(&value(text));
    assert_eq!(operation(r#"{"operation": "list", "action": "drop"}"#), "list");
    assert_eq!(operation(r#"{"action": "drop"}"#), "drop");
    assert_eq!(operation(r#"{"operation": 1, "action": "drop"}"#), "compose");
    assert_eq!(operation("{}"), "compose");
    assert_eq!(operation("null"), "compose");
}

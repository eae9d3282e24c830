use tradeassembly_runtime::adapters::self_hosted::claim_pass::{
    begin_claim, claim, ClaimAction, ClaimCase, ClaimEvent, QueueClaimStep,
};
use tradeassembly_runtime::adapters::self_hosted::descriptors::{
    broker_descriptors, clock_descriptors, credential_descriptors, export_descriptors,
    policy_descriptors, postgres_descriptors, provider_descriptors,
};
use tradeassembly_runtime::adapters::self_hosted::naming::nats_component;
use tradeassembly_runtime::adapters::self_hosted::queue::{
    begin_queue_acknowledgement, begin_queue_retry, decide_claim, settle_claim,
    stage_expired_queue_reply, AckAnswer, ClaimOutcome, PendingQueueReply, QueueReplyKind,
    QueueRow,
};
use tradeassembly_runtime::adapters::self_hosted::worker::{
    jetstream_loop, BrokerMessage, BrokerStream, JetStreamDelivery, KnownStreams, WorkerAction,
    WorkerAnswer, WorkerCommand, WorkerEvent, WorkerStage, WorkerStep,
};
use tradeassembly_runtime::ai::clean_json_content;
use tradeassembly_runtime::archive_outbox::state::archive_transport_descriptor;
use tradeassembly_runtime::json::Json;
use tradeassembly_runtime::ports::{FailureMode, PortKind};

fn parse(text: &str) -> Json {
    Json::Object(clean_json_content(text).expect("valid text"))
}

fn row(state: &str, attempt: i32) -> QueueRow {
    QueueRow {
        queue: "orders".to_string(),
        payload: parse(r#"{"n": 1}"#),
        idempotency_key: "key".to_string(),
        partition_key: None,
        priority: 0,
        available_at_ms: 100,
        retention_until_ms: 1_000,
        max_attempts: 3,
        state: state.to_string(),
        attempt,
        fencing_token: 7,
        lease_until_ms: Some(300),
    }
}

fn ask(step: WorkerStep) -> (WorkerStage, WorkerAction) {
    match step {
        WorkerStep::Ask { stage, action } => (stage, action),
        other => panic!("ended: {other:?}"),
    }
}

fn every_stream() -> KnownStreams {
    KnownStreams { queue: true, event: true, bus: true }
}

#[test]
fn the_worker_opens_every_stream_before_it_serves() {
    let mut opened = Vec::new();
    let (mut stage, mut action) = ask(jetstream_loop(WorkerStage::Connecting, WorkerEvent::Connected));
    while let WorkerAction::Open(stream) = action {
        opened.push((stream.name(), stream.subjects(), stream.allows_direct()));
        let next = ask(jetstream_loop(stage, WorkerEvent::Opened));
        stage = next.0;
        action = next.1;
    }
    assert_eq!(
        opened,
        vec![
            ("TRADEASSEMBLY_QUEUE", "queue.>", false),
            ("TRADEASSEMBLY_EVENT", "event.>", true),
            ("TRADEASSEMBLY_NOTIFY", "notify.>", false),
        ]
    );
    assert!(matches!(action, WorkerAction::ReportReady));
    let (stage, action) = ask(jetstream_loop(stage, WorkerEvent::Taken));
    assert!(matches!(action, WorkerAction::Receive));
    assert!(matches!(stage, WorkerStage::Serving { known } if known == every_stream()));
}

#[test]
fn a_worker_that_cannot_start_says_why() {
    let failed = || WorkerEvent::Failed("down".to_string());
    assert!(matches!(
        jetstream_loop(WorkerStage::Connecting, failed()),
        WorkerStep::Refuse(said) if said == "JetStream connection failed"
    ));
    let opening = WorkerStage::Opening { known: KnownStreams::none(), stream: BrokerStream::Queue };
    assert!(matches!(
        jetstream_loop(opening, failed()),
        WorkerStep::Refuse(said) if said == "JetStream stream initialization failed"
    ));
    let serving = WorkerStage::Serving { known: every_stream() };
    assert!(matches!(jetstream_loop(serving, WorkerEvent::Closed), WorkerStep::End));
}

#[test]
fn commands_are_performed_and_answered() {
    let serving = || WorkerStage::Serving { known: every_stream() };
    let publish = WorkerCommand::PublishEvent {
        subject: "event.x".to_string(),
        message_id: "event-1".to_string(),
        payload: b"{}".to_vec(),
    };
    let (stage, action) = ask(jetstream_loop(serving(), WorkerEvent::Command(publish)));
    assert!(matches!(action, WorkerAction::Publish { message_id, .. } if message_id == "event-1"));
    let (stage, action) = ask(jetstream_loop(stage, WorkerEvent::Published { sequence: 9 }));
    assert!(matches!(action, WorkerAction::Answer(WorkerAnswer::Sequence(Ok(9)))));
    let (stage, action) = ask(jetstream_loop(stage, WorkerEvent::Taken));
    assert!(matches!(stage, WorkerStage::Serving { .. }));
    assert!(matches!(action, WorkerAction::Receive));

    let fetch = WorkerCommand::FetchQueue {
        queue: "orders".to_string(),
        subject: "queue.x".to_string(),
        limit: 2,
    };
    let (stage, action) = ask(jetstream_loop(serving(), WorkerEvent::Command(fetch)));
    match action {
        WorkerAction::Fetch { consumer, limit, .. } => {
            assert_eq!(consumer, format!("queue_{}", nats_component("orders")));
            assert_eq!(limit, 2);
        }
        other => panic!("not fetched: {other:?}"),
    }
    let messages = vec![
        BrokerMessage {
            payload: br#"{"messageId": "m-1"}"#.to_vec(),
            reply: Some("reply".to_string()),
            stream_sequence: 4,
            consumer_sequence: 5,
        },
        BrokerMessage {
            payload: b"{}".to_vec(),
            reply: None,
            stream_sequence: 6,
            consumer_sequence: 7,
        },
    ];
    let (_, action) = ask(jetstream_loop(stage, WorkerEvent::Fetched { messages, broken: None }));
    match action {
        WorkerAction::Answer(WorkerAnswer::Deliveries(Ok(list))) => {
            assert_eq!(list[0].message_id, "m-1");
            assert_eq!(list[0].reply_subject, "reply");
            assert_eq!(list[0].stream_sequence, 4);
            assert_eq!(list[1].message_id, "missing");
            assert_eq!(list[1].reply_subject, "");
            assert_eq!(list[1].consumer_sequence, 7);
        }
        other => panic!("not answered: {other:?}"),
    }

    let reply = WorkerCommand::AckReply {
        reply_subject: "reply".to_string(),
        answer: AckAnswer::Term,
    };
    let (stage, _) = ask(jetstream_loop(
        WorkerStage::Serving { known: KnownStreams::none() },
        WorkerEvent::Command(reply),
    ));
    let (_, action) = ask(jetstream_loop(stage, WorkerEvent::Failed("gone".to_string())));
    assert!(matches!(
        action,
        WorkerAction::Answer(WorkerAnswer::Done(Err(said)))
            if said == "jetstream operation failed: gone"
    ));
}

#[test]
fn a_missing_stream_is_opened_for_a_command() {
    let publish = WorkerCommand::PublishBus {
        subject: "notify.x".to_string(),
        message_id: "notify-1".to_string(),
        payload: Vec::new(),
    };
    let (stage, action) = ask(jetstream_loop(
        WorkerStage::Serving { known: KnownStreams::none() },
        WorkerEvent::Command(publish),
    ));
    assert!(matches!(action, WorkerAction::Open(BrokerStream::Bus)));
    let (stage, action) = ask(jetstream_loop(stage, WorkerEvent::Opened));
    assert!(matches!(action, WorkerAction::Publish { .. }));
    assert!(matches!(stage, WorkerStage::Performing { known, .. } if known.bus && !known.queue));
}

#[test]
fn claims_are_settled_by_the_update() {
    let pending = row("pending", 0);
    match settle_claim(&pending, "m-1", decide_claim(&pending, 200, 50), 1) {
        ClaimOutcome::Claimed(delivery) => {
            assert_eq!(delivery.message_id, "m-1");
            assert_eq!(delivery.attempt, 1);
            assert_eq!(delivery.lease_until_ms, 250);
            assert_eq!(delivery.fencing_token, 8);
        }
        other => panic!("not claimed: {other:?}"),
    }
    assert!(matches!(
        settle_claim(&pending, "m-1", decide_claim(&pending, 200, 50), 0),
        ClaimOutcome::Answered(AckAnswer::Nak { delay_ms: Some(1) })
    ));
    let leased = row("leased", 1);
    assert!(matches!(
        settle_claim(&leased, "m-1", decide_claim(&leased, 200, 50), 1),
        ClaimOutcome::Answered(AckAnswer::Nak { delay_ms: Some(100) })
    ));
    let done = row("acked", 1);
    assert!(matches!(
        settle_claim(&done, "m-1", decide_claim(&done, 200, 50), 1),
        ClaimOutcome::Answered(AckAnswer::Term)
    ));
}

fn reply(message_id: &str, kind: QueueReplyKind, delay_ms: i64) -> PendingQueueReply {
    PendingQueueReply {
        message_id: message_id.to_string(),
        fencing_token: 1,
        reply_subject: format!("reply-{message_id}"),
        kind,
        delay_ms,
    }
}

fn delivered(message_id: &str) -> JetStreamDelivery {
    JetStreamDelivery {
        message_id: message_id.to_string(),
        reply_subject: format!("reply-{message_id}"),
        stream_sequence: 1,
        consumer_sequence: 1,
    }
}

fn claim_case() -> ClaimCase {
    ClaimCase {
        queue: "orders".to_string(),
        owner: "worker".to_string(),
        now_ms: 200,
        visibility_timeout_ms: 50,
        limit: 3,
    }
}

/// Claims what a broker delivers, where the action with a number fails, and tells what was
/// asked for.
fn claim_with(broken: usize) -> (Result<Vec<String>, String>, Vec<String>) {
    let case = claim_case();
    let mut log = Vec::new();
    let mut step = begin_claim(&case);
    loop {
        let (stage, action) = match step {
            QueueClaimStep::End(result) => {
                let ids = result.map(|list| list.into_iter().map(|d| d.message_id).collect());
                return (ids, log);
            }
            QueueClaimStep::Ask { stage, action } => (stage, action),
        };
        let (line, event) = match action {
            ClaimAction::StageExpired { queue, now_ms } => {
                (format!("stage {queue} {now_ms}"), ClaimEvent::Done)
            }
            ClaimAction::ListReplies { queue, now_ms } => (
                format!("list {queue} {now_ms}"),
                ClaimEvent::Replies(vec![
                    reply("m-8", QueueReplyKind::Ack, 0),
                    reply("m-9", QueueReplyKind::Retry, 70),
                ]),
            ),
            ClaimAction::Answer(WorkerCommand::AckReply { reply_subject, answer }) => {
                (format!("answer {reply_subject} {answer:?}"), ClaimEvent::Done)
            }
            ClaimAction::Finalize(sent) => {
                (format!("finalize {}", sent.message_id), ClaimEvent::Done)
            }
            ClaimAction::Fetch(WorkerCommand::FetchQueue { queue, subject, limit }) => {
                assert_eq!(subject, format!("queue.{}", nats_component("orders")));
                let list = vec![delivered("m-1"), delivered("m-2"), delivered("m-3")];
                (format!("fetch {queue} {limit}"), ClaimEvent::Deliveries(list))
            }
            ClaimAction::Claim { owner, now_ms, visibility_timeout_ms, delivery } => {
                assert_eq!((owner.as_str(), now_ms, visibility_timeout_ms), ("worker", 200, 50));
                let held = if delivery.message_id == "m-2" {
                    row("acked", 1)
                } else {
                    row("pending", 0)
                };
                let decided = decide_claim(&held, now_ms, visibility_timeout_ms);
                let outcome = settle_claim(&held, &delivery.message_id, decided, 1);
                (format!("claim {}", delivery.message_id), ClaimEvent::Outcome(outcome))
            }
            other => panic!("{other:?}"),
        };
        let event = if log.len() == broken {
            ClaimEvent::Failed("storage".to_string())
        } else {
            event
        };
        log.push(line);
        step = claim(&case, stage, event);
    }
}

#[test]
fn answers_go_out_before_messages_are_claimed() {
    let (claimed, log) = claim_with(usize::MAX);
    assert_eq!(claimed, Ok(vec!["m-1".to_string(), "m-3".to_string()]));
    assert_eq!(
        log,
        vec![
            "stage orders 200",
            "list orders 200",
            "answer reply-m-8 Ack",
            "finalize m-8",
            "answer reply-m-9 Nak { delay_ms: Some(70) }",
            "finalize m-9",
            "fetch orders 3",
            "claim m-1",
            "claim m-2",
            "answer reply-m-2 Term",
            "claim m-3",
        ]
    );
    for broken in 0..log.len() {
        let (failed, seen) = claim_with(broken);
        assert_eq!(failed, Err("storage".to_string()));
        assert_eq!(seen.len(), broken + 1);
    }
    let mut nobody = claim_case();
    nobody.owner = " ".to_string();
    assert!(matches!(
        begin_claim(&nobody),
        QueueClaimStep::End(Err(said)) if said == "invalid durable queue claim"
    ));
}

#[test]
fn leases_end_with_their_holder_or_their_time() {
    assert_eq!(begin_queue_acknowledgement(&row("leased", 1), 7), Ok("acknowledging"));
    assert_eq!(
        begin_queue_acknowledgement(&row("leased", 1), 6),
        Err("queue fencing token is stale".to_string())
    );
    let again = begin_queue_retry(&row("leased", 1), &None, 7, 500, "busy").expect("an end");
    assert_eq!((again.state, again.available_at_ms, again.reason), ("retrying", 500, None));
    let worn = begin_queue_retry(&row("leased", 3), &None, 7, 500, "busy").expect("an end");
    assert_eq!(worn.state, "terminating");
    assert_eq!(worn.reason.as_deref(), Some("busy"));
    assert!(begin_queue_retry(&row("acked", 3), &None, 7, 500, "busy").is_err());

    let reply = Some("reply".to_string());
    assert!(stage_expired_queue_reply(&row("leased", 1), &reply, &None, 299).is_none());
    assert!(stage_expired_queue_reply(&row("leased", 1), &None, &None, 300).is_none());
    let over = stage_expired_queue_reply(&row("leased", 1), &reply, &None, 300).expect("over");
    assert_eq!((over.state, over.available_at_ms), ("retrying", 300));
    let worn = stage_expired_queue_reply(&row("leased", 3), &reply, &None, 300).expect("over");
    assert_eq!(worn.state, "terminating");
    assert_eq!(worn.reason.as_deref(), Some("max_attempts_exhausted"));
    let old = stage_expired_queue_reply(&row("leased", 1), &reply, &None, 1_000).expect("over");
    assert_eq!(old.reason.as_deref(), Some("retention_expired"));
}

#[test]
fn adapters_describe_their_ports() {
    let database = postgres_descriptors();
    assert_eq!(database.len(), 8);
    assert_eq!(database[0].kind, PortKind::Storage);
    assert_eq!(database[4].capabilities, vec!["lease.acquire", "lease.renew", "lease.fence"]);
    assert!(database.iter().all(|port| port.profiles == vec!["self_hosted"]));
    let broker = broker_descriptors();
    assert_eq!(broker[2].adapter_id, "self_hosted.event-notifier");
    assert_eq!(policy_descriptors()[0].kind, PortKind::Policy);
    assert_eq!(credential_descriptors()[0].kind, PortKind::Credentials);
    assert_eq!(provider_descriptors()[0].capabilities, vec!["plugin.capabilities"]);
    assert_eq!(clock_descriptors()[0].adapter_id, "system.utc-clock");
    assert_eq!(export_descriptors()[0].failure_mode, Some(FailureMode::FailClosed));
    let archive = archive_transport_descriptor("archive");
    assert_eq!(archive.profiles, vec!["local", "self-hosted"]);
    assert_eq!(archive.failure_mode, Some(FailureMode::LocalOnly));
    assert_eq!(archive.redaction_rules.len(), 3);
}

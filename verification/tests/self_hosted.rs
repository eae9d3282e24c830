use tradeassembly_runtime::adapters::self_hosted::access::{
    broker_credentials, check_verified_session, credential_setting_name, credential_status,
    evaluate_policy, provider_capabilities, resolve_fields, resolve_session, PolicyRequest,
};
use tradeassembly_runtime::adapters::self_hosted::artifacts::{
    artifact_ref, check_artifact_ref, check_resolved, describe_artifact,
};
use tradeassembly_runtime::adapters::self_hosted::events::{
    check_event, check_replay, event_value, settle_event, EventRecord, StoredEvent,
};
use tradeassembly_runtime::adapters::self_hosted::naming::{
    canonical_hash, consumer_name, event_subject, file_artifact_root, nats_component,
    queue_subject, redacted_pg_error, stable_id,
};
use tradeassembly_runtime::adapters::self_hosted::queue::{
    check_claim, check_request, decide_answer, decide_claim, deliver, finalize_reply,
    message_value, pending_reply, reply_states, settle_request, stored_attempts, AckAnswer,
    ClaimStep, QueueReplyKind, QueueRequest, QueueRow, StoredRequest,
};
use tradeassembly_runtime::adapters::self_hosted::storage::{
    is_held_under_legacy_id, journal_id, judge_batch, legacy_journal_id, lock_id, page_limit,
    postgres_batch_lock_ids, settle_compared, settle_immutable, settle_owned, validate_batch,
    validate_key, ComparePutOutcome, ImmutablePutOutcome, JournalEvent, JournalRow,
};
use tradeassembly_runtime::adapters::studio_identity::{
    constant_time_equal, stable_actor, IdentityClaims, TrustedStudioSession, TrustedStudioVerifier,
};
use tradeassembly_runtime::ai::clean_json_content;
use tradeassembly_runtime::json::Json;
use tradeassembly_runtime::ports::{EventAppend, StorageExpectation};

fn parse(text: &str) -> Json {
    Json::Object(clean_json_content(text).expect("valid text"))
}

fn expectation(namespace: &'static str, key: &str) -> StorageExpectation {
    StorageExpectation {
        namespace,
        key: key.to_string(),
        value: None,
    }
}

#[test]
fn nats_components_do_not_collapse_distinct_names() {
    assert_ne!(nats_component("a-b"), nats_component("a_b"));
    assert_eq!(nats_component("a-b"), nats_component("a-b"));
}

#[test]
fn names_are_digests() {
    assert_eq!(
        nats_component("a-b"),
        "v1_d44362d67d921091c7b9674d752e9e23c1f9ec8a4f0b82741bf01364eb97c830"
    );
    assert_eq!(
        stable_id("message", "q:k"),
        "message-458e6919744ed81295c99bb085198a61c09c5bba40e2af7d4e30e49198e0e776"
    );
    assert_eq!(queue_subject("a-b"), format!("queue.{}", nats_component("a-b")));
    assert_eq!(event_subject("a-b"), format!("event.{}", nats_component("a-b")));
    assert_eq!(consumer_name("a-b"), format!("queue_{}", nats_component("a-b")));
    let value = parse(r#"{"b": "x", "a": 1}"#);
    assert_eq!(
        canonical_hash(&value).expect("a digest"),
        "ecf9e98ec0641e23113ff3ce8bdc78d0ddd249886517fd4a7f68cc83d4e65667"
    );
}

#[test]
fn only_files_hold_artifacts() {
    assert_eq!(file_artifact_root("file:///var/data").expect("a path"), "/var/data");
    assert!(file_artifact_root("s3://bucket").is_err());
    assert_eq!(redacted_pg_error(&None), "postgres operation failed: unknown");
    assert_eq!(
        redacted_pg_error(&Some("23505".to_string())),
        "postgres operation failed: 23505"
    );
}

#[test]
fn postgres_batch_locks_are_unique_and_deterministically_ordered() {
    let lock_ids = postgres_batch_lock_ids(&vec![
        expectation("z", "two"),
        expectation("a", "one"),
        expectation("z", "two"),
    ]);
    let reversed = postgres_batch_lock_ids(&vec![
        expectation("z", "two"),
        expectation("a", "one"),
        expectation("z", "two"),
    ]);
    assert_eq!(lock_ids, reversed);
    assert_eq!(lock_ids.len(), 2);
    assert!(lock_ids.windows(2).all(|pair| pair[0] < pair[1]));
    assert_eq!(lock_id("z", "two"), -218869406160279474);
    assert_eq!(lock_id("a", "one"), -3817250350521527356);
    assert_eq!(lock_ids, vec![-3817250350521527356, -218869406160279474]);
}

#[test]
fn export_reads_are_confined_to_the_configured_root() {
    let root = "/exports/root";
    let artifact = describe_artifact("report.json", "application/json", b"safe");
    assert!(!artifact.artifact_ref.contains('/'));
    assert_eq!(artifact.artifact_ref, artifact_ref("report.json"));
    assert_eq!(artifact.size_bytes, 4);
    assert_eq!(
        artifact.sha256,
        "sha256:8b3369944dd2a3fab39e32d1aeb1f763946a458ae3e6368a46432adc8f3a0860"
    );
    check_artifact_ref(&artifact.artifact_ref).expect("a reference");
    let resolved = Some(format!("{root}/{}", artifact.artifact_ref));
    assert_eq!(check_resolved(root, &resolved).expect("a path"), resolved.expect("one"));
    assert!(check_artifact_ref("../outside-secret").is_err());
    assert!(check_artifact_ref("/exports/outside-secret").is_err());
    assert!(check_artifact_ref("file:///exports/outside-secret").is_err());
    check_artifact_ref("escape").expect("a reference");
    assert!(check_resolved(root, &Some("/exports/outside-secret".to_string())).is_err());
    assert!(check_resolved(root, &Some("/exports/root-other/x".to_string())).is_err());
    assert!(check_resolved(root, &None).is_err());
}

#[test]
fn storage_names_and_pages_are_checked() {
    assert!(validate_key("ns", " ").is_err());
    assert!(validate_key("ns", "key").is_ok());
    assert!(validate_batch(&vec![], &vec![expectation("ns", "")]).is_err());
    assert_eq!(page_limit("ns", 0), Ok(None));
    assert_eq!(page_limit("ns", 7), Ok(Some(7)));
    assert!(page_limit("", 7).is_err());
}

#[test]
fn puts_are_settled_by_what_is_held() {
    let value = parse(r#"{"a": 1}"#);
    let other = parse(r#"{"a": 2}"#);
    assert_eq!(
        settle_immutable(true, &None, &value),
        Ok(ImmutablePutOutcome::Created)
    );
    assert_eq!(
        settle_immutable(false, &Some(value.copy()), &value),
        Ok(ImmutablePutOutcome::AlreadyPresent)
    );
    assert_eq!(
        settle_immutable(false, &Some(other), &value),
        Err("immutable_storage_conflict".to_string())
    );
    assert!(settle_immutable(false, &None, &value).is_err());
    assert_eq!(settle_compared(1), ComparePutOutcome::Updated);
    assert_eq!(settle_compared(0), ComparePutOutcome::Conflict);
    let expected = vec![expectation("ns", "key")];
    assert_eq!(judge_batch(&expected, &vec![None]), ComparePutOutcome::Updated);
    assert_eq!(
        judge_batch(&expected, &vec![Some(value)]),
        ComparePutOutcome::Conflict
    );
    assert!(settle_owned(1, "stale").is_ok());
    assert_eq!(settle_owned(0, "stale"), Err("stale".to_string()));
}

fn entry(owner: Option<Json>) -> JournalEvent {
    JournalEvent {
        event_type: "run.started".to_string(),
        authority: parse(r#"{"actor": "local"}"#),
        idempotency_key: "key".to_string(),
        payload: parse("{}"),
        owner,
    }
}

#[test]
fn journal_entries_are_named_by_what_they_say() {
    let plain = journal_id(&entry(None)).expect("a name");
    let owned = journal_id(&entry(Some(parse(r#"{"id": "x"}"#)))).expect("a name");
    assert!(plain.starts_with("journal-"));
    assert_ne!(plain, owned);
    assert_eq!(
        legacy_journal_id(&entry(None)),
        stable_id("journal", "run.started:key")
    );
    let row = || {
        Some(JournalRow {
            event_type: "run.started".to_string(),
            authority_json: "A".to_string(),
            idempotency_key: "key".to_string(),
            payload_json: "P".to_string(),
            owner_json: None,
        })
    };
    assert!(is_held_under_legacy_id(&entry(None), "A", "P", &row()));
    assert!(!is_held_under_legacy_id(&entry(Some(parse("{}"))), "A", "P", &row()));
    assert!(!is_held_under_legacy_id(&entry(None), "A", "Q", &row()));
}

fn request() -> QueueRequest {
    QueueRequest {
        queue: "q".to_string(),
        payload: parse(r#"{"n": 1}"#),
        idempotency_key: "k".to_string(),
        partition_key: None,
        priority: 3,
        available_at_ms: 100,
        retention_until_ms: 1_000,
        max_attempts: 2,
    }
}

fn row(state: &str) -> QueueRow {
    QueueRow {
        queue: "q".to_string(),
        payload: parse(r#"{"n": 1}"#),
        idempotency_key: "k".to_string(),
        partition_key: None,
        priority: 3,
        available_at_ms: 100,
        retention_until_ms: 1_000,
        max_attempts: 2,
        state: state.to_string(),
        attempt: 1,
        fencing_token: 7,
        lease_until_ms: Some(400),
    }
}

#[test]
fn queue_requests_are_named_and_settled() {
    let id = check_request(&request()).expect("a name");
    assert_eq!(id, stable_id("message", "q:k"));
    let mut late = request();
    late.retention_until_ms = 100;
    assert!(check_request(&late).is_err());
    let stored = StoredRequest {
        message_id: id.clone(),
        payload: parse(r#"{"n": 1}"#),
        partition_key: None,
        priority: 3,
        available_at_ms: 100,
        retention_until_ms: 1_000,
        max_attempts: 2,
        published_at_ms: None,
    };
    assert_eq!(settle_request(&request(), &stored), Ok((id.clone(), true)));
    let mut other = request();
    other.priority = 4;
    assert!(settle_request(&other, &stored).is_err());
    let message = message_value(&request(), &id);
    assert!(message.field_is("messageId", &id));
    assert_eq!(message.i64_field("maxAttempts"), Some(2));
    assert_eq!(stored_attempts(u32::MAX), -1);
    assert!(check_claim("q", "owner", 10, 1).is_ok());
    assert!(check_claim("q", "owner", 0, 1).is_err());
}

#[test]
fn delivered_messages_are_leased_put_off_or_ended() {
    assert!(matches!(decide_claim(&row("acked"), 200, 50), ClaimStep::Terminate));
    assert!(matches!(
        decide_claim(&row("leased"), 200, 50),
        ClaimStep::Defer { delay_ms: 200 }
    ));
    assert!(matches!(
        decide_claim(&row("pending"), 40, 50),
        ClaimStep::Defer { delay_ms: 60 }
    ));
    assert!(matches!(
        decide_claim(&row("pending"), 1_000, 50),
        ClaimStep::Bury {
            reason: "retention_expired"
        }
    ));
    match decide_claim(&row("pending"), 200, 50) {
        ClaimStep::Lease {
            attempt,
            lease_until_ms,
            fencing_token,
        } => {
            assert_eq!(attempt, 2);
            assert_eq!(lease_until_ms, 250);
            assert_eq!(fencing_token, 8);
            let delivery = deliver(&row("pending"), "m", attempt, lease_until_ms, fencing_token);
            assert_eq!(delivery.attempt, 2);
            assert_eq!(delivery.message_id, "m");
        }
        _ => panic!("not leased"),
    }
    let mut worn = row("pending");
    worn.attempt = 2;
    assert!(matches!(decide_claim(&worn, 200, 50), ClaimStep::Bury { .. }));
}

#[test]
fn replies_are_read_back_and_settled() {
    let subject = Some("reply".to_string());
    for (kind, state) in [
        (QueueReplyKind::Ack, "acknowledging"),
        (QueueReplyKind::Retry, "retrying"),
        (QueueReplyKind::Terminate, "terminating"),
    ] {
        let (waiting, settled) = reply_states(kind);
        assert_eq!(waiting, state);
        let reply = pending_reply("m", 7, &subject, waiting, 500, 200).expect("a reply");
        assert_eq!(reply.kind, kind);
        assert_eq!(reply.delay_ms, 300);
        assert!(finalize_reply(kind, 1, &None).is_ok());
        assert!(finalize_reply(kind, 0, &Some(settled.to_string())).is_ok());
        assert!(finalize_reply(kind, 0, &Some("leased".to_string())).is_err());
    }
    let retry = pending_reply("m", 7, &subject, "retrying", 500, 200).expect("a reply");
    assert_eq!(
        decide_answer(&retry),
        AckAnswer::Nak {
            delay_ms: Some(300)
        }
    );
    assert!(pending_reply("m", 7, &subject, "acked", 0, 0).is_err());
    assert!(pending_reply("m", 7, &None, "retrying", 0, 0).is_err());
}

fn append() -> EventAppend {
    EventAppend {
        stream: "s".to_string(),
        event_type: "t".to_string(),
        aggregate_id: "a".to_string(),
        payload: parse("{}"),
        idempotency_key: "k".to_string(),
        occurred_at_ms: 5,
        retention_until_ms: None,
    }
}

#[test]
fn events_are_appended_once() {
    let id = check_event(&append()).expect("a name");
    assert_eq!(id, stable_id("event", "s:k"));
    let mut nameless = append();
    nameless.event_type = " ".to_string();
    assert!(check_event(&nameless).is_err());
    let stored = StoredEvent {
        record: EventRecord {
            event_id: id,
            stream: "s".to_string(),
            sequence: 1,
            event_type: "t".to_string(),
            aggregate_id: "a".to_string(),
            payload: parse("{}"),
            idempotency_key: "k".to_string(),
            occurred_at_ms: 5,
        },
        retention_until_ms: None,
        published_at_ms: Some(9),
    };
    assert_eq!(settle_event(&append(), &stored), Ok(false));
    let mut other = append();
    other.occurred_at_ms = 6;
    assert!(settle_event(&other, &stored).is_err());
    assert!(event_value(&stored.record, None)
        .field("retentionUntilMs")
        .expect("a field")
        .equals(&Json::Null));
    assert!(check_replay("s", 0, 1).is_ok());
    assert!(check_replay("s", -1, 1).is_err());
}

fn claims(expires_at_ms: i64) -> IdentityClaims {
    IdentityClaims {
        issuer: "https://identity".to_string(),
        subject: "u".to_string(),
        audience: vec!["studio".to_string()],
        assurance: None,
        expires_at_ms,
    }
}

#[test]
fn sessions_belong_to_the_configured_authority() {
    assert!(check_verified_session(&claims(10), "https://identity", "studio").is_ok());
    assert!(check_verified_session(&claims(10), "https://identity", "other").is_err());
    assert!(resolve_session(Some(claims(10)), "https://identity", "studio", 9).is_ok());
    assert!(resolve_session(Some(claims(10)), "https://identity", "studio", 10).is_err());
    assert!(resolve_session(None, "https://identity", "studio", 9).is_err());
}

#[test]
fn policy_follows_what_an_owner_may_do() {
    let ask = |action: &str| {
        evaluate_policy(&PolicyRequest {
            actor: "u".to_string(),
            action: action.to_string(),
            resource: "strategy".to_string(),
            purpose: Json::text("test"),
            context: parse("{}"),
        })
    };
    assert_eq!(ask("strategy.create").decision, "allow");
    let denied = ask("billing.checkout");
    assert_eq!(denied.decision, "deny");
    assert_eq!(denied.explanation, vec!["commercial_capability_denied"]);
    assert!(denied.constraints.field_is("purpose", "test"));
}

#[test]
fn credentials_count_only_under_their_reference() {
    assert_eq!(
        credential_setting_name("alpaca-paper"),
        "TRADEASSEMBLY_ALPACA_PAPER_CREDENTIAL_REF"
    );
    let payload = Some(parse(
        r#"{"credential_ref": "r", "fields": {"api_key": "K", "api_secret": "S", "base_url": "U"}}"#,
    ));
    let fields = resolve_fields(&payload, "r").expect("fields");
    let broker = broker_credentials("alpaca-paper", &fields).map_err(|e| panic!("{e}"));
    if let Ok(broker) = broker {
        assert_eq!(broker.api_key, "K");
        assert_eq!(broker.api_secret, "S");
        assert_eq!(broker.base_url, "U");
    }
    assert!(matches!(resolve_fields(&payload, "other"), Err(e) if e == "self-hosted credential reference mismatch"));
    assert!(matches!(
        resolve_fields(&None, "r"),
        Err(e) if e == "self-hosted credential payload is invalid"
    ));
    assert!(matches!(
        resolve_fields(&Some(parse(r#"{"fields": {"api_key": 1}}"#)), "r"),
        Err(e) if e == "self-hosted credential field is invalid"
    ));
    let flat = Some(parse(r#"{"api_key": "K"}"#));
    let fields = resolve_fields(&flat, "r").expect("fields");
    assert!(broker_credentials("p", &fields).is_err());
    assert!(matches!(
        resolve_fields(&Some(parse("{}")), "r"),
        Err(e) if e == "self-hosted credential payload is incomplete"
    ));
    let status = credential_status("p", true);
    assert_eq!(status.redacted_display, Some("configured".to_string()));
    assert!(provider_capabilities("alpaca-paper")[1].available);
    assert!(!provider_capabilities("alpaca-live")[1].available);
}

fn session() -> TrustedStudioSession {
    TrustedStudioSession {
        issuer: "https://id.tradeassembly.test".to_string(),
        subject: "subject-1".to_string(),
        audience: vec!["tradeassembly-local".to_string()],
        actor: stable_actor("https://id.tradeassembly.test", "subject-1"),
        display_name: "Test User".to_string(),
        email: Some("user@example.test".to_string()),
        expires_at_ms: 2_000,
    }
}

fn trusted_studio() -> TrustedStudioVerifier {
    match TrustedStudioVerifier::new(
        "https://id.tradeassembly.test",
        "tradeassembly-local",
        Some("studio-core-test-token-with-32-bytes".to_string()),
    ) {
        Ok(verifier) => verifier,
        Err(e) => panic!("{e}"),
    }
}

#[test]
fn authenticates_bound_oidc_assertion_and_rejects_forgery() {
    let studio = trusted_studio();
    let claims = studio
        .authenticate("studio-core-test-token-with-32-bytes", &session(), 1_000)
        .expect("claims");
    assert_eq!(claims.subject, session().actor);

    let mut forged = session();
    forged.actor = "oidc:forged".to_string();
    assert!(studio
        .authenticate("studio-core-test-token-with-32-bytes", &forged, 1_000)
        .is_err());
    assert!(studio
        .authenticate("wrong-studio-core-token-with-32-bytes", &session(), 1_000)
        .is_err());
}

#[test]
fn rejects_mismatched_or_expired_oidc_assertions() {
    let studio = trusted_studio();
    let credential = "studio-core-test-token-with-32-bytes";

    let mut wrong_issuer = session();
    wrong_issuer.issuer = "https://forged.example.test".to_string();
    wrong_issuer.actor = stable_actor(&wrong_issuer.issuer, &wrong_issuer.subject);
    assert!(studio.authenticate(credential, &wrong_issuer, 1_000).is_err());

    let mut wrong_audience = session();
    wrong_audience.audience = vec!["other-client".to_string()];
    assert!(studio.authenticate(credential, &wrong_audience, 1_000).is_err());

    let mut expired = session();
    expired.expires_at_ms = 1_000;
    assert!(studio.authenticate(credential, &expired, 1_000).is_err());

    let mut blank_subject = session();
    blank_subject.subject = " ".to_string();
    blank_subject.actor = stable_actor(&blank_subject.issuer, &blank_subject.subject);
    assert!(studio.authenticate(credential, &blank_subject, 1_000).is_err());
}

#[test]
fn actors_are_named_by_issuer_and_subject() {
    assert_eq!(
        stable_actor("https://id.tradeassembly.test", "subject-1"),
        "oidc:SL3p5mJiQqZMD7WwQIkb8narzKX3UJ7rlI6bFXvN6bs"
    );
    assert!(constant_time_equal(&vec![1, 2], &vec![1, 2]));
    assert!(!constant_time_equal(&vec![1, 2], &vec![1, 3]));
}

use tradeassembly_runtime::ai::clean_json_content;
use tradeassembly_runtime::audit::{
    compile_from_payload, compile_order_plan_from_payload, JournalAuditLogger, MemoryAuditLogger,
    MemoryJournal,
};
use tradeassembly_runtime::json::{Json, JsonMap};

fn map(key: &str, value: Json) -> JsonMap {
    JsonMap::new().with(key, value)
}

#[test]
fn top_level_audit_imports_preserve_memory_logger_contract() {
    let mut logger = MemoryAuditLogger::new();
    let event = logger.log(
        "rule.evaluated",
        "strategy-1",
        None,
        Some(map("ok", Json::Bool(true))),
    );

    assert_eq!(event.stage, "rule.evaluated");
    assert_eq!(logger.events.len(), 1);
    assert!(logger.events[0].payload().equals(&event.payload()));
}

#[test]
fn source_logger_module_reexport_shape_preserves_inputs() {
    let mut logger = MemoryAuditLogger::new();

    logger.log(
        "risk.checked",
        "strategy-1",
        Some(map("notional", Json::Int(25))),
        None,
    );

    let inputs = &logger.events[0].inputs;
    assert_eq!(inputs.entries.len(), 1);
    assert!(inputs.get("notional").expect("notional").equals(&Json::Int(25)));
}

#[test]
fn source_journal_logger_records_run_stage_and_end_events() {
    let mut logger = JournalAuditLogger::new(MemoryJournal::new());

    let run_id = logger.begin_run("strategy-1", 7);
    let event = logger.log(
        "oms.compiled",
        "strategy-1",
        None,
        Some(map(
            "order_plan",
            Json::Object(map("symbol", Json::text("BTC/USD"))),
        )),
    );
    logger.end_run("COMPLETED");
    let journal = logger.into_journal();

    assert!(run_id.starts_with("audit_run_"));
    assert_eq!(event.run_id.as_deref(), Some(run_id.as_str()));
    let kinds: Vec<&str> = journal.events.iter().map(|(kind, _)| kind.as_str()).collect();
    assert_eq!(
        kinds,
        vec![
            "audit.run.started",
            "audit.stage_recorded",
            "audit.run.ended"
        ]
    );
}

#[test]
fn audit_replay_entrypoint_matches_compatibility_path() {
    let payload = Json::Object(
        clean_json_content(
            r#"{"intent_id": "intent-1", "legs": [{"symbol": "SPY", "qty": 2}],
                "action": "sell", "providerRef": "sim"}"#,
        )
        .expect("valid text"),
    );

    let source_plan = compile_from_payload("strategy-1", &payload);
    let compat_plan = compile_order_plan_from_payload("strategy-1", &payload);

    assert_eq!(source_plan.strategy_id, compat_plan.strategy_id);
    assert_eq!(source_plan.symbol, compat_plan.symbol);
    assert_eq!(source_plan.client_order_id, compat_plan.client_order_id);
    assert_eq!(source_plan.action, compat_plan.action);
    assert_eq!(source_plan.provider_ref, compat_plan.provider_ref);
    assert_eq!(source_plan.symbol, "SPY");
    assert_eq!(source_plan.client_order_id, "intent-1");
}

#[test]
fn two_runs_have_two_names() {
    let mut logger = JournalAuditLogger::new(MemoryJournal::new());
    let first = logger.begin_run("strategy-1", 1);
    let second = logger.begin_run("strategy-1", 2);
    assert_ne!(first, second);
}

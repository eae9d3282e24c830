use tradeassembly_runtime::agent_surfaces::lifecycle::{
    leg_status, plan_lifecycle, position_lifecycle_reduce, position_status, LegMove, LegTotals,
    LifecyclePlan, PositionTotals,
};
use tradeassembly_runtime::agent_surfaces::position::{
    checkpoint_hash, moved_quantities, position_lifecycle_surface, PositionFlow,
    PositionLifecycleJournal,
};
use tradeassembly_runtime::agent_surfaces::selector::{
    can_mark, selector_surface, CandidateVerdict,
};
use tradeassembly_runtime::ai::clean_json_content;
use tradeassembly_runtime::json::Json;
use tradeassembly_runtime::text::trim_slashes;

fn parse(text: &str) -> Json {
    let wrapped = format!("{{\"value\":{text}}}");
    let map = clean_json_content(&wrapped).expect("valid text");
    map.get("value").expect("a value").copy()
}

fn at<'a>(value: &'a Json, path: &[&str]) -> &'a Json {
    let mut current = value;
    for key in path {
        current = current.field(key).expect("a field");
    }
    current
}

fn text<'a>(value: &'a Json, path: &[&str]) -> &'a str {
    at(value, path).as_text().expect("a text").as_str()
}

fn items(value: &Json) -> &Vec<Json> {
    match value {
        Json::Array(list) => list,
        _ => panic!("not a list"),
    }
}

fn written(value: &Json) -> String {
    format!("{value:?}")
}

fn number(value: &Json) -> f64 {
    match value {
        Json::Int(n) => *n as f64,
        Json::Large(n) => *n as f64,
        Json::Real(spelled) => spelled.parse().unwrap_or(0.0),
        Json::Text(spelled) => spelled.parse().unwrap_or(0.0),
        _ => 0.0,
    }
}

fn field_number(value: &Json, key: &str) -> f64 {
    value.field(key).map(number).unwrap_or(0.0)
}

fn round6(value: f64) -> f64 {
    (value * 1_000_000.0).round() / 1_000_000.0
}

fn decimal(value: f64) -> String {
    let rounded = format!("{:.6}", round6(value));
    let trimmed = rounded.trim_end_matches('0').trim_end_matches('.');
    if trimmed == "-0" {
        "0".to_string()
    } else {
        trimmed.to_string()
    }
}

#[derive(Clone, Default)]
struct Amounts {
    opened: f64,
    open: f64,
    closed: f64,
    rolled: f64,
    assigned: f64,
    exercised: f64,
    expired: f64,
    price: f64,
    gain: f64,
}

impl Amounts {
    fn totals(&self) -> LegTotals {
        LegTotals {
            opened_quantity: decimal(self.opened),
            open_quantity: decimal(self.open),
            closed_quantity: decimal(self.closed),
            rolled_quantity: decimal(self.rolled),
            assigned_quantity: decimal(self.assigned),
            exercised_quantity: decimal(self.exercised),
            expired_quantity: decimal(self.expired),
            average_open_price: decimal(self.price),
            realized_pnl_input: decimal(self.gain),
            is_open: self.open > 0.0,
            any_closed: self.closed > 0.0,
            any_rolled: self.rolled > 0.0,
            any_assigned: self.assigned > 0.0,
            any_exercised: self.exercised > 0.0,
            any_expired: self.expired > 0.0,
        }
    }
}

fn compute(plan: &LifecyclePlan) -> (Vec<Amounts>, Vec<bool>) {
    let mut state = vec![Amounts::default(); plan.legs.len()];
    let mut overclosed = Vec::new();
    let find = |id: &str| plan.legs.iter().position(|leg| leg.leg_id == id);
    for step in &plan.moves {
        let mut over = false;
        match step {
            LegMove::Open {
                leg_id,
                transaction,
            } => {
                let leg = &mut state[find(leg_id).expect("a leg")];
                let quantity = field_number(transaction, "quantity").abs();
                let cost = leg.price * leg.open + field_number(transaction, "price") * quantity;
                leg.opened += quantity;
                leg.open += quantity;
                if leg.open > 0.0 {
                    leg.price = round6(cost / leg.open);
                }
            }
            LegMove::Close {
                leg_id,
                transaction,
                ..
            } => {
                let index = find(leg_id).expect("a leg");
                let leg = &mut state[index];
                let quantity = field_number(transaction, "quantity").abs();
                over = quantity > leg.open;
                let closed = quantity.min(leg.open);
                let sign = if plan.legs[index].side == "long" {
                    1.0
                } else {
                    -1.0
                };
                leg.gain += (field_number(transaction, "price") - leg.price) * closed * sign;
                leg.open -= closed;
                leg.closed += closed;
            }
            LegMove::Roll { leg_id, spelled } => {
                let leg = &mut state[find(leg_id).expect("a leg")];
                let asked: f64 = spelled
                    .as_ref()
                    .and_then(|t| t.parse().ok())
                    .unwrap_or(0.0);
                let rolled = asked.min(leg.open);
                leg.open -= rolled;
                leg.rolled += rolled;
            }
            LegMove::Terminal {
                leg_id,
                event_type,
                quantity,
            } => {
                let leg = &mut state[find(leg_id).expect("a leg")];
                let taken = number(quantity).min(leg.open);
                leg.open -= taken;
                match event_type.as_str() {
                    "assignment" => leg.assigned += taken,
                    "exercise" => leg.exercised += taken,
                    "expiration" => leg.expired += taken,
                    _ => {}
                }
            }
            LegMove::Adjust { leg_id, delta } => {
                let leg = &mut state[find(leg_id).expect("a leg")];
                leg.gain += delta
                    .as_ref()
                    .and_then(|t| t.parse::<f64>().ok())
                    .unwrap_or(0.0);
            }
        }
        overclosed.push(over);
    }
    (state, overclosed)
}

fn reduce(contract: &Json) -> Json {
    let plan = plan_lifecycle(contract);
    let (state, overclosed) = compute(&plan);
    let sums = PositionTotals {
        open_quantity: decimal(state.iter().map(|leg| leg.open).sum()),
        closed_quantity: decimal(state.iter().map(|leg| leg.closed).sum()),
        realized_pnl_input: decimal(state.iter().map(|leg| leg.gain).sum()),
        gross_exposure_input: decimal(state.iter().map(|leg| (leg.open * leg.price).abs()).sum()),
    };
    let totals: Vec<LegTotals> = state.iter().map(Amounts::totals).collect();
    position_lifecycle_reduce(contract, &plan, &totals, &overclosed, &sums)
}

fn flow(ledger: &Json) -> PositionFlow {
    let sum = |opening: bool| -> f64 {
        moved_quantities(ledger, opening)
            .iter()
            .map(|t| t.parse::<f64>().unwrap_or(0.0))
            .sum()
    };
    let opened = sum(true);
    let closed = sum(false).abs();
    PositionFlow {
        any_opened: opened > 0.0,
        any_closed: closed > 0.0,
        closed_less: closed < opened,
        closed_all: closed >= opened,
    }
}

fn owned(value: &str) -> Option<String> {
    Some(value.to_string())
}

fn snapshot(contract_id: &str, strike: &str, delta: &str) -> String {
    format!(
        r#"{{"canonical_contract_id": "{contract_id}",
            "provider_aliases": {{"alpaca-paper": "{contract_id}"}},
            "underlying_symbol": "SPY", "symbol": "{contract_id}", "right": "put",
            "strike": {strike}, "expiration": "2026-07-17", "dte": 34, "bid": 4.1, "ask": 4.2,
            "mid": 4.15, "last": 4.15, "open_interest": 950, "volume": 110, "iv": 0.22,
            "delta": {delta}, "gamma": 0.02, "theta": -0.03, "vega": 0.11, "rho": -0.02,
            "spread_width": 0.1, "as_of": "2026-06-23T13:59:00+00:00",
            "source_provider": "alpaca-paper", "supported_capabilities": ["options_chain"],
            "support_status": "supported",
            "provenance": {{"snapshot": "fixture", "rawSecretsExposed": false}}}}"#
    )
}

fn verdicts(snapshots: &Json, min_delta: f64, max_delta: f64) -> Vec<CandidateVerdict> {
    items(snapshots)
        .iter()
        .map(|snapshot| {
            let delta = field_number(snapshot, "delta");
            CandidateVerdict {
                within_bounds: min_delta <= delta && delta <= max_delta,
                delta_rank: delta.abs().to_bits(),
            }
        })
        .collect()
}

const LEGS: &str = r#"[
    {"leg_id": "long-call", "instrument": {"canonical_id": "option:SPY:500C", "asset_class": "option", "symbol": "SPY260717C00500000"}, "side": "long", "ratio": "1"},
    {"leg_id": "short-call", "instrument": {"canonical_id": "option:SPY:505C", "asset_class": "option", "symbol": "SPY260717C00505000"}, "side": "short", "ratio": "1"}
]"#;

fn ledger_payload() -> Json {
    parse(&format!(
        r#"{{
        "strategy_id": "strategy-spread",
        "position_id": "position-spread",
        "legs": {LEGS},
        "events": [
            {{"event_id": "evt-open", "event_type": "open", "event_time": "2026-06-23T15:00:00+00:00", "replay_ref": "journal://local/evt-open"}},
            {{"event_id": "evt-close", "event_type": "close", "event_time": "2026-06-23T15:01:00+00:00", "replay_ref": "journal://local/evt-close"}}
        ],
        "transactions": [
            {{"transaction_id": "txn-open-long", "event_id": "evt-open", "leg_id": "long-call", "quantity": "2", "price": "4.00", "currency": "USD"}},
            {{"transaction_id": "txn-open-short", "event_id": "evt-open", "leg_id": "short-call", "quantity": "1", "price": "1.50", "currency": "USD"}},
            {{"transaction_id": "txn-close-long", "event_id": "evt-close", "leg_id": "long-call", "quantity": "1", "price": "5.00", "currency": "USD"}}
        ],
        "replay_plan": {{
            "replay_ref": "journal://local/position-spread",
            "journal_refs": ["journal://local/evt-open", "journal://local/evt-close"],
            "deterministic": true,
            "requires_live_provider_calls": false
        }},
        "status": "open",
        "debugSecret": "SUPER-SECRET-VALUE"
    }}"#
    ))
}

fn event(kind: &str, event_id: &str, offset_minutes: i64, payload: &str) -> String {
    format!(
        r#"{{"event_id": "{event_id}", "strategy_id": "strategy-spread",
            "position_id": "position-spread", "event_type": "{kind}",
            "event_time": "2026-06-23T15:{offset_minutes:02}:00+00:00",
            "replay_ref": "journal://local/{event_id}", "payload": {payload}}}"#
    )
}

fn spread_with(
    more_legs: &[&str],
    more_events: &[String],
    more_transactions: &[&str],
    more_refs: &[&str],
) -> Json {
    let mut refs = vec![
        "evt-open",
        "evt-partial",
        "evt-close",
        "evt-assignment",
        "evt-correction",
    ];
    refs.extend_from_slice(more_refs);
    let refs: Vec<String> = refs
        .iter()
        .map(|id| format!("\"journal://local/{id}\""))
        .collect();
    let mut events = vec![
        event("open", "evt-open", 0, "{}"),
        event("partial_fill", "evt-partial", 1, "{}"),
        event("close", "evt-close", 2, "{}"),
        event(
            "assignment",
            "evt-assignment",
            3,
            r#"{"leg_quantities": {"short-call": "1"}}"#,
        ),
        event(
            "manual_correction",
            "evt-correction",
            4,
            r#"{"realized_pnl_delta": "-1.25", "reason": "fee true-up"}"#,
        ),
    ];
    events.extend(more_events.iter().cloned());
    let mut transactions = vec![
        r#"{"transaction_id": "txn-open-long", "event_id": "evt-open", "leg_id": "long-call", "quantity": "2", "price": "4.00", "currency": "USD"}"#,
        r#"{"transaction_id": "txn-open-short", "event_id": "evt-open", "leg_id": "short-call", "quantity": "1", "price": "1.50", "currency": "USD"}"#,
        r#"{"transaction_id": "txn-partial-long", "event_id": "evt-partial", "leg_id": "long-call", "quantity": "1", "price": "4.20", "currency": "USD"}"#,
        r#"{"transaction_id": "txn-close-long", "event_id": "evt-close", "leg_id": "long-call", "quantity": "1", "price": "5.00", "currency": "USD"}"#,
    ];
    transactions.extend_from_slice(more_transactions);
    let mut legs = LEGS.trim().trim_end_matches(']').to_string();
    for leg in more_legs {
        legs.push(',');
        legs.push_str(leg);
    }
    legs.push(']');
    parse(&format!(
        r#"{{"strategy_id": "strategy-spread", "position_id": "position-spread",
            "legs": {legs}, "events": [{}], "transactions": [{}],
            "replay_plan": {{
                "replay_ref": "journal://local/position-spread",
                "journal_refs": [{}]
            }},
            "status": "open"}}"#,
        events.join(","),
        transactions.join(","),
        refs.join(",")
    ))
}

#[test]
fn selector_evaluate_explain_match_across_cli_http_mcp_and_acp() {
    let snapshots = parse(&format!(
        "[{},{}]",
        snapshot("occ:SPY260717P00520000", "520.0", "-0.34"),
        snapshot("occ:SPY260717P00500000", "500.0", "-0.12")
    ));
    let judged = verdicts(&snapshots, -0.4, -0.25);
    let show = |surface: &str, operation: &str| {
        selector_surface(
            surface,
            operation,
            &snapshots,
            &judged,
            "selector_run_1",
            "snapshot://local/snap_001",
            &owned("strat_selector"),
            &owned("http://127.0.0.1:3001"),
        )
    };
    assert!(can_mark(&snapshots));
    let cli = show("cli", "evaluate");
    let http = show("http", "explain");
    let mcp = show("mcp", "evaluate");
    let acp = show("acp", "explain");

    for other in [&http, &mcp, &acp] {
        assert!(at(&cli, &["reasonCodeSummary"]).equals(at(other, &["reasonCodeSummary"])));
    }
    let accepted = items(at(&cli, &["accepted_candidates"]));
    assert_eq!(accepted.len(), 1);
    assert_eq!(text(&accepted[0], &["status"]), "accepted");
    let rejected = items(at(&cli, &["rejected_candidates"]));
    assert!(at(&rejected[0], &["reason_codes"]).equals(&parse(r#"["outside_delta"]"#)));
    assert!(text(&cli, &["reportEnvelope", "deepLinks", "selector", "href"])
        .ends_with("/app/strategies/strat_selector/research?selectorRunId=selector_run_1"));
    assert!(at(
        &http,
        &["reportEnvelope", "renderContract", "agentVisible"]
    )
    .equals(&parse(
        r#"["artifactBundle", "artifactRefs", "exportRefs", "replayRefs", "raw"]"#
    )));
    assert!(written(&cli).contains("what to trade, when to trade, or how much to trade"));
    assert!(!written(&cli).contains("SUPER-SECRET-VALUE"));
}

#[test]
fn accepted_candidates_come_largest_delta_first() {
    let snapshots = parse(
        r#"[{"id": "a", "delta": -0.26}, {"id": "b", "delta": -0.39}, {"id": "c"}, {"id": "d", "delta": -0.3}]"#,
    );
    let judged = verdicts(&snapshots, -0.4, -0.25);
    let shown = selector_surface("cli", "evaluate", &snapshots, &judged, "r", "s", &None, &None);
    let order: Vec<&str> = items(at(&shown, &["accepted_candidates"]))
        .iter()
        .map(|c| text(c, &["id"]))
        .collect();
    assert_eq!(order, vec!["b", "d", "a"]);
    assert_eq!(items(at(&shown, &["rejected_candidates"])).len(), 1);
    assert!(at(&shown, &["reasonCodeSummary", "outside_delta"]).equals(&Json::Int(1)));
    assert_eq!(
        text(&shown, &["reportEnvelope", "deepLinks", "selector", "href"]),
        "http://127.0.0.1:3001/app/strategies//research?selectorRunId=r"
    );
}

#[test]
fn a_selection_can_mark_only_records() {
    assert!(can_mark(&parse(r#"{"not": "a list"}"#)));
    assert!(!can_mark(&parse("[1]")));
    assert_eq!(trim_slashes("http://x//"), "http://x");
}

#[test]
fn position_lifecycle_surfaces_share_safe_agent_payload() {
    let ledger = ledger_payload();
    let show = || {
        position_lifecycle_surface(
            "inspect",
            &ledger,
            &owned("http://127.0.0.1:3001"),
            &None,
            &None,
            flow(&ledger),
        )
    };
    let (cli, http, mcp, acp) = (show(), show(), show(), show());
    for payload in [&cli, &http, &mcp, &acp] {
        assert_eq!(
            text(payload, &["schemaVersion"]),
            "tradeassembly.position_lifecycle_surface.v1"
        );
        assert_eq!(text(payload, &["operation"]), "inspect");
        assert_eq!(text(payload, &["summary", "strategyId"]), "strategy-spread");
        assert_eq!(text(payload, &["summary", "positionId"]), "position-spread");
        assert_eq!(
            text(payload, &["lifecycle", "position_status"]),
            "partially_closed"
        );
        assert!(text(payload, &["deepLinks", "studio", "href"])
            .ends_with("/app/strategies/strategy-spread/run?positionId=position-spread"));
        assert!(text(payload, &["exportRefs", "json", "path"])
            .ends_with("position-spread/lifecycle.json"));
        assert!(at(payload, &["replayRefs", "checkpointHash"])
            .equals(at(payload, &["lifecycle", "ledger_checkpoint_hash"])));
        assert!(!items(at(payload, &["timeline"])).is_empty());
        assert!(!items(at(payload, &["legs"])).is_empty());
        assert!(text(payload, &["noAdvice"])
            .contains("what to trade, when to trade, or how much to trade"));
        assert!(!written(payload).contains("SUPER-SECRET-VALUE"));
    }
    for other in [&http, &mcp, &acp] {
        assert!(at(&cli, &["summary"]).equals(at(other, &["summary"])));
    }
}

#[test]
fn position_lifecycle_import_status_and_replay_use_local_journal() {
    let ledger = ledger_payload();
    let mut journal = PositionLifecycleJournal::default();
    let base = owned("http://127.0.0.1:3001");
    let strategy = owned("strategy-spread");
    let position = owned("position-spread");

    let imported = journal.import(&ledger, &base, flow(&ledger));
    let status = journal.status(&strategy, &position, &base);
    let replay = journal.replay(&strategy, &position, &base);

    assert_eq!(text(&imported, &["operation"]), "import");
    assert_eq!(text(&status, &["operation"]), "status");
    assert_eq!(text(&replay, &["operation"]), "replay");
    assert!(at(&status, &["summary", "snapshotCount"]).equals(&Json::Int(1)));
    assert!(at(&status, &["lifecycle", "snapshot_id"])
        .equals(at(&imported, &["lifecycle", "snapshot_id"])));
    assert!(at(&replay, &["replayRefs", "journalRefs"])
        .equals(at(&ledger, &["replay_plan", "journal_refs"])));
    assert!(at(&imported, &["lifecycle", "side_effects"]).equals(&parse(
        r#"{"broker_orders_created": 0, "credentials_changed": 0,
            "strategy_logic_changed": 0, "trading_activations_changed": 0}"#
    )));
}

#[test]
fn an_unknown_position_is_shown_as_missing() {
    let journal = PositionLifecycleJournal::default();
    let shown = journal.status(&owned("s"), &owned("p"), &None);
    assert_eq!(text(&shown, &["lifecycle", "position_status"]), "missing");
    assert!(at(&shown, &["summary", "snapshotCount"]).equals(&Json::Int(0)));
}

#[test]
fn a_checkpoint_names_its_parts() {
    assert_eq!(checkpoint_hash("a:b", "c/d e", 2, 3), "chk_a_b_c_d_e_2_3");
}

#[test]
fn lifecycle_reducer_matches_multileg_source_contract() {
    let snapshot = reduce(&spread_with(&[], &[], &[], &[]));

    assert_eq!(text(&snapshot, &["strategy_id"]), "strategy-spread");
    assert_eq!(text(&snapshot, &["position_id"]), "position-spread");
    assert!(text(&snapshot, &["ledger_checkpoint_hash"]).starts_with("chk_"));
    assert_eq!(
        text(&snapshot, &["replay_ref"]),
        "journal://local/position-spread"
    );
    assert_eq!(text(&snapshot, &["position_status"]), "partially_closed");
    assert_eq!(text(&snapshot, &["summary", "open_quantity"]), "2");
    assert_eq!(text(&snapshot, &["summary", "closed_quantity"]), "1");
    assert_eq!(
        text(&snapshot, &["summary", "realized_pnl_input"]),
        "-0.316667"
    );
    assert_eq!(
        text(&snapshot, &["summary", "gross_exposure_input"]),
        "8.133334"
    );
    let ids: Vec<&str> = items(at(&snapshot, &["closed_history"]))
        .iter()
        .map(|item| text(item, &["event_id"]))
        .collect();
    assert_eq!(ids, vec!["evt-close", "evt-assignment"]);
    assert!(text(&snapshot, &["no_advice_notice"]).contains("TradeAssembly did not recommend"));
}

#[test]
fn lifecycle_reducer_tracks_roll_exercise_expiration_and_overclose() {
    let contract = spread_with(
        &[
            r#"{"leg_id": "rolled-call", "instrument": {"canonical_id": "option:SPY:510C", "asset_class": "option", "symbol": "SPY260717C00510000"}, "side": "long", "ratio": "1"}"#,
        ],
        &[
            event(
                "roll",
                "evt-roll",
                5,
                r#"{"close_leg_id": "long-call", "open_leg_id": "rolled-call", "quantity": "1"}"#,
            ),
            event(
                "exercise",
                "evt-exercise",
                6,
                r#"{"leg_quantities": {"long-call": "1"}}"#,
            ),
            event(
                "expiration",
                "evt-expiration",
                7,
                r#"{"leg_quantities": {"rolled-call": "1"}}"#,
            ),
        ],
        &[
            r#"{"transaction_id": "txn-roll-open", "event_id": "evt-roll", "leg_id": "rolled-call", "quantity": "1", "price": "2.00", "currency": "USD"}"#,
        ],
        &["evt-roll", "evt-exercise", "evt-expiration"],
    );
    let snapshot = reduce(&contract);
    assert_eq!(
        text(&snapshot, &["leg_state", "long-call", "rolled_quantity"]),
        "1"
    );
    assert_eq!(
        text(&snapshot, &["leg_state", "long-call", "exercised_quantity"]),
        "1"
    );
    assert_eq!(
        text(&snapshot, &["leg_state", "rolled-call", "expired_quantity"]),
        "1"
    );
    let closed_ids: Vec<&str> = items(at(&snapshot, &["closed_history"]))
        .iter()
        .map(|item| text(item, &["event_id"]))
        .collect();
    assert!(closed_ids.contains(&"evt-roll"));
    assert!(closed_ids.contains(&"evt-expiration"));

    let overclose = spread_with(
        &[],
        &[event("close", "evt-overclose", 8, "{}")],
        &[
            r#"{"transaction_id": "txn-overclose", "event_id": "evt-overclose", "leg_id": "short-call", "quantity": "5", "price": "0.10", "currency": "USD"}"#,
        ],
        &[],
    );
    let failed = reduce(&overclose);
    assert!(at(&failed, &["ok"]).equals(&Json::Bool(false)));
    assert!(items(at(&failed, &["warnings"]))
        .iter()
        .any(|warning| warning.field_is("code", "overclose")));
}

#[test]
fn moves_of_unknown_legs_are_passed_over() {
    let contract = spread_with(
        &[],
        &[event(
            "roll",
            "evt-roll",
            5,
            r#"{"close_leg_id": "nowhere", "quantity": "1"}"#,
        )],
        &[],
        &[],
    );
    let plan = plan_lifecycle(&contract);
    assert_eq!(plan.legs.len(), 2);
    assert_eq!(plan.moves.len(), 6);
    assert!(!plan
        .moves
        .iter()
        .any(|step| matches!(step, LegMove::Roll { .. })));
}

#[test]
fn a_position_without_open_legs_is_closed() {
    let mut leg = Amounts::default();
    assert_eq!(position_status(&vec![leg.totals()], false), "closed");
    leg.assigned = 1.0;
    assert_eq!(leg_status(&leg.totals()), "assigned");
    leg.open = 1.0;
    assert_eq!(leg_status(&leg.totals()), "open");
    assert_eq!(
        position_status(&vec![leg.totals()], false),
        "partially_closed"
    );
    assert_eq!(position_status(&vec![leg.totals()], true), "warning");
}

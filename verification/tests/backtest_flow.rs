use tradeassembly_runtime::backtest_accounting::{
    account, AccountingError, AccountingFill, AccountingInput, CashEntry, CashEntryKind,
    EndOfDataPolicy as AccountEnd, FillSide, KernelFill, OrderSide,
};
use tradeassembly_runtime::backtest_contracts::{
    canonical_hash, AccountModel, BacktestAttempt, BacktestAttemptState, BacktestConfiguration,
    BacktestLifecycleEvent, BacktestOrderType, BacktestResult, BacktestRiskConfiguration,
    BacktestRunManifest, BacktestRunManifestContent, BacktestRunRecord, CapabilityGraphBinding,
    CapitalConfiguration, CostConfiguration, DatasetBinding, DatasetTimeSlice, EndOfDataPolicy,
    EvaluationTiming, ExecutionConfiguration, FillPolicy, FillTiming, InstrumentConfiguration,
    LiquidityConfiguration, MissingDataPolicy, PriceSource, StrategyVersionBinding,
    BACKTEST_ATTEMPT_SCHEMA, BACKTEST_CONFIGURATION_SCHEMA, BACKTEST_MANIFEST_SCHEMA,
    BACKTEST_RUN_SCHEMA,
};
use tradeassembly_runtime::backtest_engine::{
    accounting_error, book_kernel_fills, check_inputs, check_supported, closed_fills, execute,
    kernel_error, last_marks, normalized_bars, open_positions, replay, scaled_notional, BarMicros,
    DatasetDescription, DatasetSnapshot, KernelDecision, KernelOrder, KernelOutcome, KernelRun,
    MarketObservation, ObservedRow,
};
use tradeassembly_runtime::backtest_report::details::{
    AssetClass, BarValues, ObservationData, ReportObservation, ReportSnapshot,
};
use tradeassembly_runtime::backtest_report::exports::export;
use tradeassembly_runtime::backtest_report::intake::verify_inputs;
use tradeassembly_runtime::backtest_report::model::BacktestReport;
use tradeassembly_runtime::backtest_report::projection::{
    export_kinds, project, tone, PricePoint,
};
use tradeassembly_runtime::backtest_report::trades::{notional, prorate};
use tradeassembly_runtime::json::{Json, JsonMap};
use tradeassembly_runtime::text_map::TextMap;

const SYMBOL: &str = "BTC/USD";

fn owned(text: &str) -> String {
    text.to_string()
}

fn sum() -> String {
    format!("sha256:{}", "a".repeat(64))
}

fn spec() -> Json {
    Json::Object(JsonMap::new().with("entry", Json::text("price > 10")))
}

fn version() -> Json {
    Json::Object(
        JsonMap::new()
            .with("id", Json::text("version"))
            .with("strategyId", Json::text("strategy"))
            .with(
                "specHash",
                Json::text(&canonical_hash(&spec(), "hash").expect("a hash")),
            )
            .with("spec", spec()),
    )
}

fn dataset() -> DatasetSnapshot {
    DatasetSnapshot {
        description: DatasetDescription {
            dataset_id: owned("dataset"),
            snapshot_ref: owned("snapshot"),
            content_hash: sum(),
            schema: owned("bars"),
            strategy_id: owned("strategy"),
            plugin_ref: owned("plugin"),
            plugin_instance_ref: owned("instance"),
            operation_id: owned("read"),
            plugin_manifest_fingerprint: sum(),
            capability_graph_revision_id: owned("graph"),
            capability_graph_fingerprint: sum(),
            source_class: Some(owned("fixture")),
            instruments: vec![owned(SYMBOL)],
            time_slice: DatasetTimeSlice {
                start: owned("2026-07-01T00:00:00Z"),
                end: owned("2026-07-01T00:03:00Z"),
            },
            granularity: owned("1m"),
            calendar: owned("24x7"),
            timezone: owned("UTC"),
            price_adjustment: owned("none"),
            bars: true,
        },
        observations: observations()
            .into_iter()
            .zip(timestamps())
            .map(|(bar, timestamp)| ObservedRow {
                instrument_id: bar.symbol,
                timestamp,
                bar: Some(BarMicros {
                    open: Some(bar.open),
                    close: Some(bar.close),
                    volume: Some(bar.volume),
                }),
            })
            .collect(),
        fault: None,
    }
}

fn configuration(end_of_data: EndOfDataPolicy) -> BacktestConfiguration {
    BacktestConfiguration {
        schema: owned(BACKTEST_CONFIGURATION_SCHEMA),
        strategy: StrategyVersionBinding {
            strategy_id: owned("strategy"),
            strategy_version_id: owned("version"),
            strategy_spec_hash: canonical_hash(&spec(), "hash").expect("a hash"),
        },
        dataset: DatasetBinding {
            dataset_id: owned("dataset"),
            snapshot_ref: owned("snapshot"),
            content_hash: sum(),
            schema: owned("bars"),
            source_plugin_ref: owned("plugin"),
            source_plugin_instance_ref: owned("instance"),
            source_operation_id: owned("read"),
            source_manifest_fingerprint: sum(),
            source_class: owned("fixture"),
            capability_graph_revision_id: owned("graph"),
            capability_graph_fingerprint: sum(),
            instruments: vec![owned(SYMBOL)],
            selected_time_slice: DatasetTimeSlice {
                start: owned("2026-07-01T00:00:00Z"),
                end: owned("2026-07-01T00:03:00Z"),
            },
            granularity: owned("1m"),
            calendar: owned("24x7"),
            timezone: owned("UTC"),
            corporate_action_policy: owned("none"),
            benchmark: None,
        },
        capability_graph: CapabilityGraphBinding {
            revision_id: owned("graph"),
            graph_fingerprint: sum(),
        },
        capital: CapitalConfiguration {
            starting_cash_micros: 100_000_000,
            reporting_currency: owned("USD"),
            account_model: AccountModel::Cash,
            maximum_leverage_micros: 1_000_000,
            margin_policy: owned("none"),
        },
        execution: ExecutionConfiguration {
            evaluation_timing: EvaluationTiming::BarClose,
            fill_timing: FillTiming::NextBar,
            fill_price_source: PriceSource::Open,
            order_type: BacktestOrderType::Market,
            time_in_force: owned("day"),
            fill_policy: FillPolicy::Full,
            reject_on_insufficient_capital: true,
            reject_on_insufficient_liquidity: true,
            stale_data_policy: MissingDataPolicy::Reject,
            missing_data_policy: MissingDataPolicy::Reject,
        },
        costs: CostConfiguration {
            fixed_fee_micros: 0,
            per_unit_fee_micros: 0,
            notional_fee_bps: 0,
            spread_bps: 0,
            slippage_bps: 0,
        },
        liquidity: LiquidityConfiguration {
            maximum_participation_bps: 10_000,
            minimum_volume_micros: 0,
        },
        instruments: vec![InstrumentConfiguration {
            instrument_id: owned(SYMBOL),
            instrument_family: owned("crypto_spot"),
            quantity_unit: owned("unit"),
            quantity_scale: 6,
            price_scale: 6,
            contract_multiplier_micros: 1_000_000,
            settlement: owned("cash"),
            metadata: JsonMap::new(),
        }],
        risk: BacktestRiskConfiguration {
            maximum_position_notional_micros: 1_000_000_000,
            maximum_order_quantity_micros: 1_000_000_000,
            maximum_loss_micros: 1_000_000_000,
            maximum_open_positions: 1,
        },
        end_of_data,
        evaluator_version: owned("1"),
        compiler_version: owned("1"),
        plugin_fingerprints: JsonMap::new().with("plugin", Json::text(&sum())),
        variable_overrides: JsonMap::new(),
    }
}

fn manifest(end_of_data: EndOfDataPolicy) -> BacktestRunManifest {
    let configuration = configuration(end_of_data);
    let validation = configuration.validate();
    assert!(validation.ready, "{:?}", validation.diagnostics);
    BacktestRunManifest::build(
        BacktestRunManifestContent {
            schema: owned(BACKTEST_MANIFEST_SCHEMA),
            run_id: owned("run"),
            request_hash: sum(),
            idempotency_key: owned("key"),
            configuration,
            validation,
            authority: Json::Object(JsonMap::new().with("actor", Json::text("local"))),
            client: owned("cli"),
            purpose: owned("research"),
            evidence_refs: vec![owned("evidence")],
            first_attempt_id: owned("attempt"),
        },
        1_000,
    )
    .expect("a manifest")
}

fn fill(side: OrderSide, bar: u64, quantity: i64, price: i64, fee: i64) -> KernelFill {
    KernelFill {
        decision_bar_index: bar - 1,
        execution_bar_index: bar,
        symbol: owned(SYMBOL),
        side,
        quantity,
        price_micros: price,
        fee_micros: fee,
    }
}

fn kernel() -> KernelRun {
    KernelRun {
        decisions: vec![
            KernelDecision::NoSignal { bar_index: 0 },
            KernelDecision::OrderIntent {
                decision_bar_index: 0,
                symbol: owned(SYMBOL),
                side: OrderSide::Buy,
                quantity: 2_000_000,
            },
        ],
        orders: vec![KernelOrder {
            decision_bar_index: 0,
            execution_bar_index: 1,
            symbol: owned(SYMBOL),
            side: OrderSide::Buy,
            quantity: 2_000_000,
        }],
        fills: vec![
            fill(OrderSide::Buy, 1, 2_000_000, 10_000_000, 100_000),
            fill(OrderSide::Sell, 2, 1_000_000, 12_000_000, 50_000),
        ],
        rejects: vec![],
    }
}

fn observations() -> Vec<MarketObservation> {
    [9_000_000, 10_000_000, 12_000_000, 11_000_000]
        .iter()
        .enumerate()
        .map(|(index, close)| MarketObservation {
            bar_index: index as u64,
            symbol: owned(SYMBOL),
            open: *close,
            close: *close,
            volume: 1_000_000,
        })
        .collect()
}

fn timestamps() -> Vec<String> {
    (0..4).map(|n| format!("2026-07-01T00:0{n}:00Z")).collect()
}

fn booked_input(tolerance: i64) -> AccountingInput {
    let mut marks = TextMap::new();
    marks.insert(SYMBOL, 11_000_000);
    AccountingInput {
        starting_cash_micros: 100_000_000,
        fills: book_kernel_fills("run", &kernel().fills),
        cash_entries: vec![],
        marks_micros: marks,
        end_of_data: AccountEnd::MarkToMarket,
        reconciliation_tolerance_micros: tolerance,
    }
}

#[test]
fn an_account_adds_up_to_the_last_micro() {
    let statement = account(&booked_input(0)).expect("an account");
    assert_eq!(statement.ending_cash_micros, 91_850_000);
    assert_eq!(statement.market_value_micros, 11_000_000);
    assert_eq!(statement.ending_equity_micros, 102_850_000);
    assert_eq!(
        statement.realized_pnl_micros + statement.unrealized_pnl_micros
            + statement.income_micros
            - statement.costs_micros,
        2_850_000
    );
    assert_eq!(statement.reconciliation_residual_micros, 0);
    assert_eq!(statement.ledger.len(), 4);
    assert_eq!(statement.positions[0].quantity, 1_000_000);
}

#[test]
fn a_forced_close_is_worth_the_marks() {
    let marked = account(&booked_input(0)).expect("an account");
    let mut input = booked_input(0);
    input.end_of_data = AccountEnd::ForceClose;
    let closed = account(&input).expect("an account");
    assert_eq!(closed.ending_equity_micros, marked.ending_equity_micros);
    assert_eq!(closed.costs_micros, marked.costs_micros);
    assert!(closed.positions.is_empty());
    assert_eq!(closed.market_value_micros, 0);
    assert_eq!(closed.unrealized_pnl_micros, 0);
    assert_eq!(closed.ending_cash_micros, 102_850_000);
    assert_eq!(marked.fills.len(), input.fills.len());
    assert_eq!(closed.fills.len(), input.fills.len() + 1);
    let sale = closed.fills.last().expect("a sale");
    assert_eq!(sale.fill_id, format!("force_close:{SYMBOL}"));
    assert!(matches!(sale.side, FillSide::Sell));
    assert_eq!(sale.quantity, 1_000_000);
    assert_eq!(sale.price_micros, 11_000_000);
    assert_eq!(sale.fee_micros, 0);
}

#[test]
fn income_and_costs_are_booked() {
    let mut input = booked_input(0);
    input.cash_entries = vec![
        CashEntry {
            entry_id: owned("dividend"),
            kind: CashEntryKind::Income,
            amount_micros: 500_000,
        },
        CashEntry {
            entry_id: owned("borrow"),
            kind: CashEntryKind::Cost,
            amount_micros: 200_000,
        },
    ];
    let statement = account(&input).expect("an account");
    assert_eq!(statement.ending_cash_micros, 92_150_000);
    assert_eq!(statement.income_micros, 500_000);
}

#[test]
fn accounts_refuse_what_they_cannot_book() {
    let mut short = booked_input(0);
    short.fills.remove(0);
    assert!(matches!(account(&short), Err(AccountingError::UnsupportedShort { .. })));
    let mut poor = booked_input(0);
    poor.starting_cash_micros = 1;
    assert!(matches!(account(&poor), Err(AccountingError::UnsupportedMargin)));
    let mut unmarked = booked_input(0);
    unmarked.marks_micros = TextMap::new();
    assert!(matches!(account(&unmarked), Err(AccountingError::MissingMark { .. })));
    let mut broken = booked_input(0);
    broken.fills[0].quantity = 0;
    assert!(matches!(account(&broken), Err(AccountingError::InvalidInput(_))));
    let mut huge = booked_input(0);
    huge.fills[0].price_micros = i64::MAX;
    huge.fills[0].quantity = i64::MAX;
    assert!(matches!(account(&huge), Err(AccountingError::ArithmeticOverflow)));
    assert_eq!(
        accounting_error(&AccountingError::MissingMark { symbol: owned("BTC") }),
        "backtest_accounting_missingmark { symbol: \"btc\" }"
    );
    assert_eq!(kernel_error("NoBars"), "backtest_kernel_nobars");
}

#[test]
fn configurations_are_checked_field_by_field() {
    let mut bad = configuration(EndOfDataPolicy::MarkToMarket);
    bad.capital.starting_cash_micros = 0;
    let report = bad.validate();
    assert!(!report.ready);
    assert!(report
        .diagnostics
        .iter()
        .all(|d| d.code == "backtest_config_invalid"));
    let hash = configuration(EndOfDataPolicy::MarkToMarket)
        .canonical_hash()
        .expect("a hash");
    assert_eq!(
        hash,
        configuration(EndOfDataPolicy::MarkToMarket)
            .canonical_hash()
            .expect("a hash")
    );
    assert_ne!(hash, bad.canonical_hash().expect("a hash"));
    let mut margin = configuration(EndOfDataPolicy::MarkToMarket);
    margin.capital.account_model = AccountModel::Margin;
    assert_eq!(
        check_supported(&margin),
        Err(owned("backtest_account_model_unsupported"))
    );
}

#[test]
fn manifests_and_results_are_sealed() {
    let mut kept = manifest(EndOfDataPolicy::MarkToMarket);
    assert!(kept.verify().is_ok());
    kept.content.client = owned("other");
    assert_eq!(kept.verify(), Err(owned("backtest_manifest_integrity_failed")));
    let mut result = run(&manifest(EndOfDataPolicy::MarkToMarket), 0);
    assert!(result.verify().is_ok());
    result.content.evaluator_version = owned("2");
    assert!(result.verify().is_err());
}

fn run(manifest: &BacktestRunManifest, fees: usize) -> BacktestResult {
    let fees: Vec<Result<i64, String>> = (0..fees).map(|_| Ok(25_000)).collect();
    let outcome = KernelOutcome::Ran { run: kernel() };
    execute(manifest, &version(), &dataset(), &outcome, &fees, 2_000).expect("a result")
}

#[test]
fn bars_are_normalized_and_marked() {
    let row = |close: Option<i64>| ObservedRow {
        instrument_id: owned(SYMBOL),
        timestamp: owned("2026-07-01T00:00:00Z"),
        bar: Some(BarMicros {
            open: Some(1),
            close,
            volume: Some(5),
        }),
    };
    let bars = normalized_bars(&vec![row(Some(2))], 0).expect("bars");
    assert_eq!(bars[0].close, 2);
    assert!(normalized_bars(&vec![row(None)], 0).is_err());
    let marks = last_marks(&observations());
    assert_eq!(marks.get(SYMBOL), Some(&11_000_000));
    assert_eq!(scaled_notional(2_000_000, 10_000_000), Ok(20_000_000));
    assert!(scaled_notional(i64::MAX, i64::MAX).is_err());
}

#[test]
fn a_forced_close_leaves_nothing_open() {
    let manifest = manifest(EndOfDataPolicy::ForceClose);
    let booked = book_kernel_fills("run", &kernel().fills);
    let open = open_positions(&booked).expect("positions");
    assert_eq!(open.len(), 1);
    assert_eq!(open[0].quantity, 1_000_000);
    let marks = last_marks(&observations());
    let closed = closed_fills(&manifest, &kernel().fills, &marks, &vec![Ok(25_000)]).expect("fills");
    assert_eq!(closed.len(), 3);
    assert_eq!(closed[2].side, FillSide::Sell);
    assert_eq!(closed[2].price_micros, 11_000_000);
    assert!(open_positions(&closed).expect("positions").is_empty());
    assert!(closed_fills(&manifest, &kernel().fills, &TextMap::new(), &vec![Ok(0)]).is_err());
    assert!(run(&manifest, 1).verify().is_ok());
}

#[test]
fn a_replay_has_to_come_to_the_same() {
    let manifest = manifest(EndOfDataPolicy::MarkToMarket);
    let first = run(&manifest, 0);
    let same = KernelOutcome::Ran { run: kernel() };
    let again = replay(&manifest, &version(), &dataset(), &same, &vec![], &first).expect("a replay");
    assert_eq!(again.result_hash, first.result_hash);
    assert_eq!(again.created_at_ms, first.created_at_ms);
    let mut other = kernel();
    other.fills.remove(1);
    let changed = KernelOutcome::Ran { run: other };
    assert_eq!(
        replay(&manifest, &version(), &dataset(), &changed, &vec![], &first).err(),
        Some(owned("backtest_replay_mismatch"))
    );
    let mut altered = run(&manifest, 0);
    altered.content.compiler_version = owned("2");
    assert_eq!(
        replay(&manifest, &version(), &dataset(), &same, &vec![], &altered).err(),
        Some(owned("backtest_result_integrity_failed"))
    );
}

#[test]
fn the_result_does_not_depend_on_the_time_of_the_run() {
    let manifest = manifest(EndOfDataPolicy::MarkToMarket);
    let outcome = KernelOutcome::Ran { run: kernel() };
    let early = execute(&manifest, &version(), &dataset(), &outcome, &vec![], 1).expect("a result");
    let late = execute(&manifest, &version(), &dataset(), &outcome, &vec![], 9).expect("a result");
    assert_eq!(early.result_hash, late.result_hash);
    assert_eq!(early.byte_length, late.byte_length);
    assert_eq!((early.created_at_ms, late.created_at_ms), (1, 9));
    assert!(early.verify().is_ok());
    let fills = early.content.fills;
    assert_eq!(fills.len(), 2);
    assert_eq!(
        fills[0].text_field("executionTimestamp"),
        Some(owned("2026-07-01T00:01:00Z"))
    );
}

#[test]
fn runs_are_refused_in_order() {
    let manifest = manifest(EndOfDataPolicy::MarkToMarket);
    let ran = KernelOutcome::Ran { run: kernel() };
    let refused = |version: &Json, dataset: &DatasetSnapshot, outcome: &KernelOutcome| {
        execute(&manifest, version, dataset, outcome, &vec![], 2_000).err()
    };
    let uncompiled = KernelOutcome::NotCompiled { shown: owned("BadRule") };
    let stopped = KernelOutcome::Stopped { shown: owned("NoBars") };
    let mut unusable = dataset();
    unusable.observations[2].bar = None;
    assert_eq!(
        refused(&version(), &unusable, &uncompiled),
        Some(owned("backtest_kernel_badrule"))
    );
    assert_eq!(
        refused(&version(), &unusable, &stopped),
        Some(owned("backtest_data_kind_unsupported"))
    );
    assert_eq!(
        refused(&version(), &dataset(), &stopped),
        Some(owned("backtest_kernel_nobars"))
    );
    let mut foreign = dataset();
    foreign.description.granularity = owned("1h");
    assert_eq!(
        refused(&version(), &foreign, &uncompiled),
        Some(owned("backtest_dataset_integrity_failed"))
    );
    assert_eq!(
        refused(&Json::Object(JsonMap::new()), &foreign, &ran),
        Some(owned("backtest_strategy_version_required"))
    );
    let mut broken = dataset();
    broken.fault = Some(owned("snapshot_broken"));
    assert_eq!(
        refused(&Json::Object(JsonMap::new()), &broken, &ran),
        Some(owned("snapshot_broken"))
    );
    let other = Json::Object(JsonMap::new().with("spec", Json::Null));
    assert_eq!(
        check_inputs(&manifest, &other, &dataset()),
        Err(owned("backtest_strategy_integrity_failed"))
    );
    assert!(check_inputs(&manifest, &version(), &dataset()).is_ok());
}

fn snapshot() -> ReportSnapshot {
    let number = |n: i64| Json::Int(n);
    ReportSnapshot {
        dataset_id: owned("dataset"),
        snapshot_ref: owned("snapshot"),
        content_hash: sum(),
        strategy_id: owned("strategy"),
        first_timestamp: owned("2026-07-01T00:00:00Z"),
        last_timestamp: owned("2026-07-01T00:03:00Z"),
        plugin_ref: owned("plugin"),
        plugin_instance_ref: owned("instance"),
        operation_id: owned("read"),
        plugin_manifest_fingerprint: sum(),
        source_class: None,
        asset_classes: vec![AssetClass::CryptoSpot],
        instruments: vec![owned(SYMBOL)],
        time_slice: DatasetTimeSlice {
            start: owned("2026-07-01T00:00:00Z"),
            end: owned("2026-07-01T00:03:00Z"),
        },
        granularity: owned("1m"),
        quality_findings: vec![],
        observations: timestamps()
            .into_iter()
            .zip([9, 10, 12, 11])
            .map(|(timestamp, close)| ReportObservation {
                instrument_id: owned(SYMBOL),
                timestamp,
                data: ObservationData::Bar(BarValues {
                    open: number(close),
                    high: number(close),
                    low: number(close),
                    close: number(close),
                    volume: number(1),
                }),
            })
            .collect(),
    }
}

fn event(
    sequence: i64,
    from: &str,
    to: &str,
    previous: Option<String>,
) -> BacktestLifecycleEvent {
    let content = Json::Object(
        JsonMap::new()
            .with("runId", Json::text("run"))
            .with("sequence", Json::Int(sequence))
            .with("from", Json::text(from))
            .with("to", Json::text(to))
            .with("attemptId", Json::text("attempt"))
            .with("previous", Json::optional_text(&previous))
            .with("detail", Json::text("detail")),
    );
    BacktestLifecycleEvent {
        event_id: format!("event-{sequence}"),
        run_id: owned("run"),
        sequence,
        event_type: owned("backtest.state"),
        from_state: owned(from),
        to_state: owned(to),
        attempt_id: owned("attempt"),
        occurred_at_ms: 1_000 + sequence,
        previous_event_hash: previous,
        event_hash: canonical_hash(&content, "hash").expect("a hash"),
        detail: owned("detail"),
    }
}

fn events() -> Vec<BacktestLifecycleEvent> {
    let first = event(1, "queued", "running", None);
    let second = event(2, "running", "completed", Some(first.event_hash.clone()));
    vec![first, second]
}

fn record(manifest: &BacktestRunManifest) -> BacktestRunRecord {
    let result = run(manifest, 0);
    BacktestRunRecord {
        schema: owned(BACKTEST_RUN_SCHEMA),
        run_id: owned("run"),
        manifest_hash: manifest.manifest_hash.clone(),
        request_hash: sum(),
        idempotency_key: owned("key"),
        state: owned("completed"),
        sequence: 2,
        current_attempt_id: owned("attempt"),
        fencing_token: 1,
        result_hash: Some(result.result_hash.clone()),
        result: Some(result),
        failure_code: None,
        events: events(),
        created_at_ms: 1_000,
        updated_at_ms: 2_000,
    }
}

fn attempts() -> Vec<BacktestAttempt> {
    vec![BacktestAttempt {
        schema: owned(BACKTEST_ATTEMPT_SCHEMA),
        attempt_id: owned("attempt"),
        run_id: owned("run"),
        ordinal: 1,
        state: BacktestAttemptState::Completed,
        stage: owned("done"),
        progress_bps: 10_000,
        queue_message_id: None,
        lease_owner: None,
        fencing_token: 1,
        created_at_ms: 1_000,
        updated_at_ms: 2_000,
        failure_code: None,
        diagnostics: vec![],
    }]
}

fn report() -> (BacktestReport, BacktestRunManifest) {
    let manifest = manifest(EndOfDataPolicy::MarkToMarket);
    let prices = [10_000_000, 12_000_000, 11_000_000]
        .iter()
        .map(|micros| PricePoint {
            micros: *micros,
            value: Json::Int(micros / 1_000_000),
        })
        .collect();
    let made = project(
        &record(&manifest),
        &manifest,
        &run(&manifest, 0),
        &snapshot(),
        &None,
        &attempts(),
        &events(),
        &account(&booked_input(0)).ok(),
        &prices,
    )
    .expect("a report");
    (made, manifest)
}

#[test]
fn a_report_accounts_for_every_fill() {
    let (report, _) = report();
    assert_eq!(report.trades.len(), 2);
    let closed = report.trades.iter().find(|t| t.exit.is_some()).expect("a trade");
    let open = report.trades.iter().find(|t| t.exit.is_none()).expect("a trade");
    assert_eq!(closed.quantity_micros, 1_000_000);
    assert_eq!(closed.holding_interval_ms, None);
    assert_eq!(closed.entry.i64_field("occurredAtMs"), Some(1_782_864_060_000));
    assert_eq!(open.quantity_micros, 1_000_000);
    assert_eq!(closed.fee_micros, 100_000);
    assert_eq!(closed.pnl_micros, Some(1_900_000));
    assert_eq!(open.fee_micros, 100_000);
    assert_eq!(open.pnl_micros, Some(900_000));
    assert_eq!(report.overview.net_pnl_micros, 2_850_000);
    assert_eq!(report.overview.trade_count, 2);
    assert_eq!(report.overview.open_count, 1);
    assert_eq!(report.overview.return_bps, Some(285));
    assert_eq!(report.overview.fees_micros, 150_000);
    assert!(report.report_hash.starts_with("sha256:"));
    assert_eq!(
        canonical_hash(&report.report_without_hash(), "hash").expect("a hash"),
        report.report_hash
    );
    assert_eq!(tone(Some(1)), "profit");
    assert_eq!(tone(Some(-1)), "loss");
    assert_eq!(tone(None), "wash");
}

#[test]
fn only_the_listed_kinds_are_exported() {
    let (report, manifest) = report();
    for kind in export_kinds() {
        let artifact = export(&report, &manifest, kind).expect("an artifact");
        assert_eq!(artifact.byte_length as usize, artifact.content.len());
        assert!(artifact.content_hash.starts_with("sha256:"));
        assert_eq!(artifact.source_report_hash, report.report_hash);
    }
    assert!(export(&report, &manifest, "pdf").is_err());
}

#[test]
fn reports_refuse_what_does_not_belong_together() {
    let manifest = manifest(EndOfDataPolicy::MarkToMarket);
    let result = run(&manifest, 0);
    let check = |record: &BacktestRunRecord,
                 snapshot: &ReportSnapshot,
                 fault: Option<String>,
                 attempts: &Vec<BacktestAttempt>,
                 events: &Vec<BacktestLifecycleEvent>| {
        verify_inputs(record, &manifest, &result, snapshot, &fault, attempts, events)
    };
    let good = record(&manifest);
    assert!(check(&good, &snapshot(), None, &attempts(), &events()).is_ok());
    let mut pending = record(&manifest);
    pending.state = owned("running");
    assert_eq!(
        check(&pending, &snapshot(), None, &attempts(), &events()),
        Err(owned("backtest_report_integrity_failed"))
    );
    assert_eq!(
        check(&good, &snapshot(), Some(owned("snapshot_broken")), &attempts(), &events()),
        Err(owned("snapshot_broken"))
    );
    assert_eq!(
        check(&good, &snapshot(), None, &vec![], &events()),
        Err(owned("backtest_report_attempt_integrity_failed"))
    );
    assert_eq!(
        check(&good, &snapshot(), None, &attempts(), &vec![]),
        Err(owned("backtest_report_lifecycle_integrity_failed"))
    );
    let mut cut = record(&manifest);
    cut.events[1].previous_event_hash = None;
    let broken = vec![event(1, "queued", "running", None), {
        let mut second = event(2, "running", "completed", None);
        second.event_hash = events()[1].event_hash.clone();
        second
    }];
    assert_eq!(
        check(&cut, &snapshot(), None, &attempts(), &broken),
        Err(owned("backtest_report_lifecycle_integrity_failed"))
    );
}

#[test]
fn shares_are_prorated_without_loss() {
    assert!(matches!(prorate(100, 1, 3), Ok(33)));
    assert!(matches!(prorate(100, 3, 3), Ok(100)));
    assert!(matches!(notional(2_000_000, 10_000_000), Ok(20_000_000)));
    assert!(notional(i64::MAX, i64::MAX).is_err());
}

#[test]
fn kernel_fills_are_booked_as_they_are() {
    let booked = AccountingFill::from_kernel_fill(&fill(OrderSide::Sell, 2, 5, 7, 1));
    assert_eq!(booked.side, FillSide::Sell);
    assert_eq!(booked.quantity, 5);
    assert_eq!(booked.price_micros, 7);
    assert_eq!(booked.fee_micros, 1);
}

//! The report of one completed backtest, and how it is written as a value.

use vstd::prelude::*;

use crate::backtest_contracts;
use crate::backtest_contracts::{DatasetTimeSlice, DiagnosticSeverity};
use crate::json;
use crate::json::{Json, JsonMap, JsonTree};
use crate::text;

use super::details;
use super::details::{
    asset_class_name, BacktestInstrumentDetails, BacktestInstrumentField, DetailsView, FieldView,
};
use super::trades;
use super::trades::{BacktestTrade, TradeView};

verus! {

/// What a report is.
pub const BACKTEST_REPORT_SCHEMA: &'static str = "tradeassembly.backtest-report.v2";

/// Which run a report is about.
#[derive(Debug)]
pub struct BacktestReportRun {
    pub run_id: String,
    pub state: String,
    pub strategy_id: String,
    pub strategy_version_id: String,
    pub strategy_spec_hash: String,
    pub created_at_ms: i64,
    pub completed_at_ms: i64,
    pub dataset_id: String,
    pub dataset_time_slice: Json,
    pub instruments: Vec<String>,
    pub source_plugin_ref: String,
    pub source_operation_id: String,
    pub source_manifest_fingerprint: String,
}

/// What a run took for granted.
#[derive(Debug)]
pub struct BacktestReportAssumptions {
    pub starting_cash_micros: i64,
    pub reporting_currency: String,
    pub account_model: Json,
    pub execution: Json,
    pub costs: Json,
    pub liquidity: Json,
    pub risk: Json,
    pub end_of_data: Json,
    pub evaluator_version: String,
    pub compiler_version: String,
}

/// What came out of a run, in numbers.
#[derive(Debug)]
pub struct BacktestReportOverview {
    pub starting_equity_micros: i64,
    pub ending_cash_micros: i64,
    pub market_value_micros: i64,
    pub ending_equity_micros: i64,
    pub gross_pnl_micros: i64,
    pub net_pnl_micros: i64,
    pub realized_pnl_micros: i64,
    pub unrealized_pnl_micros: i64,
    pub return_bps: Option<i64>,
    pub trade_count: u64,
    pub win_count: u64,
    pub loss_count: u64,
    pub wash_count: u64,
    pub open_count: u64,
    pub fees_micros: i64,
    pub cost_drag_micros: i64,
    pub reconciliation_status: String,
    pub reconciliation_residual_micros: i64,
}

/// What is drawn of a run.
#[derive(Debug)]
pub struct BacktestReportChart {
    pub range: Json,
    pub bars: Vec<Json>,
    pub markers: Vec<Json>,
    pub connectors: Vec<Json>,
    pub warnings: Vec<String>,
    pub evidence_refs: Vec<String>,
}

/// One step of a run as a report tells of it.
#[derive(Debug)]
pub struct BacktestJournalEvent {
    pub event_id: String,
    pub event_type: String,
    pub timestamp_ms: i64,
    pub detail: String,
    pub from_state: String,
    pub to_state: String,
    pub attempt_id: String,
    pub evidence_hash: String,
}

/// A number that a report cannot give, and why.
#[derive(Debug)]
pub struct UnavailableMetric {
    pub metric: String,
    pub reason: String,
}

/// What a run cost, and what it was allowed to risk.
#[derive(Debug)]
pub struct BacktestCostsAndRisk {
    pub fees_micros: i64,
    pub cost_drag_micros: i64,
    pub maximum_loss_micros: i64,
    pub maximum_position_notional_micros: i64,
    pub maximum_order_quantity_micros: i64,
    pub unavailable: Vec<UnavailableMetric>,
}

/// What there is to say of a run.
#[derive(Debug)]
pub struct BacktestReportDiagnostic {
    pub severity: DiagnosticSeverity,
    pub code: String,
    pub detail: String,
    pub evidence_refs: Vec<String>,
}

/// What a report rests on.
#[derive(Debug)]
pub struct BacktestReportMetadata {
    pub manifest_hash: String,
    pub result_hash: String,
    pub dataset_hash: String,
    pub lifecycle_event_hashes: Vec<String>,
    pub current_attempt_id: String,
    pub replay_ref: String,
    pub available_export_formats: Vec<String>,
    pub warnings: Vec<String>,
}

/// Where the strategy and the data of a run come from.
#[derive(Debug)]
pub struct BacktestReportProvenance {
    pub strategy_version_id: String,
    pub strategy_spec_hash: String,
    pub strategy_execution_summary: Json,
    pub dataset_id: String,
    pub dataset_hash: String,
    pub source_class: String,
    pub source_plugin_ref: String,
    pub source_plugin_instance_ref: String,
    pub source_operation_id: String,
    pub source_manifest_fingerprint: String,
    pub time_coverage: DatasetTimeSlice,
    pub granularity: String,
}

/// The report of one completed backtest.
#[derive(Debug)]
pub struct BacktestReport {
    pub schema: String,
    pub report_hash: String,
    pub run: BacktestReportRun,
    pub assumptions: BacktestReportAssumptions,
    pub overview: BacktestReportOverview,
    pub chart: BacktestReportChart,
    pub trades: Vec<BacktestTrade>,
    pub journal: Vec<BacktestJournalEvent>,
    pub orders: Vec<Json>,
    pub fills: Vec<Json>,
    pub positions: Vec<Json>,
    pub ledger: Vec<Json>,
    pub costs_and_risk: BacktestCostsAndRisk,
    pub diagnostics: Vec<BacktestReportDiagnostic>,
    pub metadata: BacktestReportMetadata,
    pub provenance: BacktestReportProvenance,
}

/// What a [`BacktestReportDiagnostic`] says.
#[verifier::ext_equal]
pub struct RemarkView {
    pub severity: DiagnosticSeverity,
    pub code: Seq<char>,
    pub detail: Seq<char>,
    pub evidence_refs: Seq<Seq<char>>,
}

impl View for BacktestReportDiagnostic {
    type V = RemarkView;

    open spec fn view(&self) -> RemarkView {
        RemarkView {
            severity: self.severity,
            code: self.code@,
            detail: self.detail@,
            evidence_refs: text::texts(self.evidence_refs@),
        }
    }
}

/// What a [`BacktestJournalEvent`] says.
#[verifier::ext_equal]
pub struct StepView {
    pub event_id: Seq<char>,
    pub event_type: Seq<char>,
    pub timestamp_ms: int,
    pub detail: Seq<char>,
    pub from_state: Seq<char>,
    pub to_state: Seq<char>,
    pub attempt_id: Seq<char>,
    pub evidence_hash: Seq<char>,
}

impl View for BacktestJournalEvent {
    type V = StepView;

    open spec fn view(&self) -> StepView {
        StepView {
            event_id: self.event_id@,
            event_type: self.event_type@,
            timestamp_ms: self.timestamp_ms as int,
            detail: self.detail@,
            from_state: self.from_state@,
            to_state: self.to_state@,
            attempt_id: self.attempt_id@,
            evidence_hash: self.evidence_hash@,
        }
    }
}

/// What an [`UnavailableMetric`] says.
#[verifier::ext_equal]
pub struct GapView {
    pub metric: Seq<char>,
    pub reason: Seq<char>,
}

impl View for UnavailableMetric {
    type V = GapView;

    open spec fn view(&self) -> GapView {
        GapView { metric: self.metric@, reason: self.reason@ }
    }
}

/// What a [`BacktestReportOverview`] says.
#[verifier::ext_equal]
pub struct OverviewView {
    pub starting_equity: int,
    pub ending_cash: int,
    pub market_value: int,
    pub ending_equity: int,
    pub gross_pnl: int,
    pub net_pnl: int,
    pub realized_pnl: int,
    pub unrealized_pnl: int,
    pub return_bps: Option<int>,
    pub trade_count: int,
    pub win_count: int,
    pub loss_count: int,
    pub wash_count: int,
    pub open_count: int,
    pub fees: int,
    pub cost_drag: int,
    pub reconciliation_status: Seq<char>,
    pub reconciliation_residual: int,
}

impl View for BacktestReportOverview {
    type V = OverviewView;

    open spec fn view(&self) -> OverviewView {
        OverviewView {
            starting_equity: self.starting_equity_micros as int,
            ending_cash: self.ending_cash_micros as int,
            market_value: self.market_value_micros as int,
            ending_equity: self.ending_equity_micros as int,
            gross_pnl: self.gross_pnl_micros as int,
            net_pnl: self.net_pnl_micros as int,
            realized_pnl: self.realized_pnl_micros as int,
            unrealized_pnl: self.unrealized_pnl_micros as int,
            return_bps: trades::number_of(self.return_bps),
            trade_count: self.trade_count as int,
            win_count: self.win_count as int,
            loss_count: self.loss_count as int,
            wash_count: self.wash_count as int,
            open_count: self.open_count as int,
            fees: self.fees_micros as int,
            cost_drag: self.cost_drag_micros as int,
            reconciliation_status: self.reconciliation_status@,
            reconciliation_residual: self.reconciliation_residual_micros as int,
        }
    }
}

/// Writes each item of a list as a value.
pub(crate) fn each<T: View, F: Fn(&T) -> Json>(
    list: &Vec<T>,
    write_one: F,
    Ghost(tree): Ghost<spec_fn(T::V) -> JsonTree>,
) -> (r: Json)
    requires
        forall|x: &T| call_requires(write_one, (x,)),
        forall|x: &T, v: Json| call_ensures(write_one, (x,), v) ==> v@ == tree(x@),
    ensures
        r@ == JsonTree::Array(list@.map_values(|x: T| tree(x@))),
{
    let mut items: Vec<Json> = Vec::new();
    let mut i: usize = 0;
    while i < list.len()
        invariant
            i <= list.len(),
            items@.len() == i,
            forall|x: &T| call_requires(write_one, (x,)),
            forall|x: &T, v: Json| call_ensures(write_one, (x,), v) ==> v@ == tree(x@),
            forall|j: int| 0 <= j < i ==> #[trigger] items@[j]@ == tree(list@[j]@),
        decreases list.len() - i,
    {
        items.push(write_one(&list[i]));
        i += 1;
    }
    proof {
        json::array_view_members(items@);
        assert(json::array_view(items@) =~= list@.map_values(|x: T| tree(x@)));
    }
    Json::Array(items)
}

/// An optional number as a value.
pub open spec fn number_or_null(value: Option<int>) -> JsonTree {
    match value {
        Some(n) => JsonTree::Int(n),
        None => JsonTree::Null,
    }
}

fn optional_number(value: Option<i64>) -> (r: Json)
    ensures
        r@ == number_or_null(trades::number_of(value)),
{
    match value {
        Some(n) => Json::Int(n),
        None => Json::Null,
    }
}

/// An optional value as a value.
pub open spec fn tree_or_null(value: Option<JsonTree>) -> JsonTree {
    match value {
        Some(t) => t,
        None => JsonTree::Null,
    }
}

fn optional_value(value: &Option<Json>) -> (r: Json)
    ensures
        r@ == tree_or_null(trades::tree_of(*value)),
{
    match value {
        Some(v) => v.copy(),
        None => Json::Null,
    }
}

/// What is said of an instrument, as a value.
pub open spec fn field_tree(f: FieldView) -> JsonTree {
    JsonTree::Object(
        map![
            "key"@ => JsonTree::Text(f.key),
            "label"@ => JsonTree::Text(f.label),
            "value"@ => f.value,
        ],
    )
}

fn field_value(f: &BacktestInstrumentField) -> (r: Json)
    ensures
        r@ == field_tree(f@),
{
    Json::object(
        JsonMap::new().with("key", Json::text(f.key.as_str())).with(
            "label",
            Json::text(f.label.as_str()),
        ).with("value", f.value.copy()),
    )
}

/// The details of an instrument as a value.
pub open spec fn details_tree(d: DetailsView) -> JsonTree {
    JsonTree::Object(
        map![
            "schema"@ => JsonTree::Text(d.schema),
            "instrumentId"@ => JsonTree::Text(d.instrument_id),
            "assetClass"@ => match d.asset_class {
                Some(class) => JsonTree::Text(details::class_text(class)),
                None => JsonTree::Null,
            },
            "observedAt"@ => json::text_or_null(d.observed_at),
            "fields"@ => JsonTree::Array(d.fields.map_values(|f: FieldView| field_tree(f))),
        ],
    )
}

fn details_value(d: &BacktestInstrumentDetails) -> (r: Json)
    ensures
        r@ == details_tree(d@),
{
    let class: Json = match d.asset_class {
        Some(class) => Json::text(asset_class_name(class)),
        None => Json::Null,
    };
    let fields = each(&d.fields, field_value, Ghost(|f: FieldView| field_tree(f)));
    proof {
        assert(fields@->Array_0 =~= d@.fields.map_values(|f: FieldView| field_tree(f)));
    }
    Json::object(
        JsonMap::new().with("schema", Json::text(d.schema.as_str())).with(
            "instrumentId",
            Json::text(d.instrument_id.as_str()),
        ).with("assetClass", class).with("observedAt", Json::optional_text(&d.observed_at)).with(
            "fields",
            fields,
        ),
    )
}

/// A trade as a value.
pub open spec fn trade_tree(t: TradeView) -> JsonTree {
    JsonTree::Object(
        map![
            "tradeId"@ => JsonTree::Text(t.trade_id),
            "symbol"@ => JsonTree::Text(t.symbol),
            "instrumentType"@ => JsonTree::Text(t.instrument_type),
            "instrumentDetails"@ => details_tree(t.instrument_details),
            "side"@ => JsonTree::Text(t.side),
            "quantityMicros"@ => JsonTree::Int(t.quantity),
            "entry"@ => t.entry,
            "exit"@ => tree_or_null(t.exit),
            "terminalValuation"@ => tree_or_null(t.terminal_valuation),
            "realized"@ => JsonTree::Bool(t.realized),
            "pnlMicros"@ => number_or_null(t.pnl),
            "feeMicros"@ => JsonTree::Int(t.fee),
            "holdingIntervalMs"@ => number_or_null(t.holding_interval_ms),
            "orderRefs"@ => json::text_array(t.order_refs),
            "fillRefs"@ => json::text_array(t.fill_refs),
            "ledgerRefs"@ => json::text_array(t.ledger_refs),
        ],
    )
}

fn trade_value(t: &BacktestTrade) -> (r: Json)
    ensures
        r@ == trade_tree(t@),
{
    let half = JsonMap::new().with("tradeId", Json::text(t.trade_id.as_str())).with(
        "symbol",
        Json::text(t.symbol.as_str()),
    ).with("instrumentType", Json::text(t.instrument_type.as_str())).with(
        "instrumentDetails",
        details_value(&t.instrument_details),
    ).with("side", Json::text(t.side.as_str())).with(
        "quantityMicros",
        Json::Int(t.quantity_micros),
    ).with("entry", t.entry.copy()).with("exit", optional_value(&t.exit));
    Json::object(
        half.with("terminalValuation", optional_value(&t.terminal_valuation)).with(
            "realized",
            Json::Bool(t.realized),
        ).with("pnlMicros", optional_number(t.pnl_micros)).with(
            "feeMicros",
            Json::Int(t.fee_micros),
        ).with("holdingIntervalMs", optional_number(t.holding_interval_ms)).with(
            "orderRefs",
            Json::texts(&t.order_refs),
        ).with("fillRefs", Json::texts(&t.fill_refs)).with(
            "ledgerRefs",
            Json::texts(&t.ledger_refs),
        ),
    )
}

/// A step of a run as a value.
pub open spec fn step_tree(e: StepView) -> JsonTree {
    JsonTree::Object(
        map![
            "eventId"@ => JsonTree::Text(e.event_id),
            "eventType"@ => JsonTree::Text(e.event_type),
            "timestampMs"@ => JsonTree::Int(e.timestamp_ms),
            "detail"@ => JsonTree::Text(e.detail),
            "fromState"@ => JsonTree::Text(e.from_state),
            "toState"@ => JsonTree::Text(e.to_state),
            "attemptId"@ => JsonTree::Text(e.attempt_id),
            "evidenceHash"@ => JsonTree::Text(e.evidence_hash),
        ],
    )
}

fn step_value(e: &BacktestJournalEvent) -> (r: Json)
    ensures
        r@ == step_tree(e@),
{
    Json::object(
        JsonMap::new().with("eventId", Json::text(e.event_id.as_str())).with(
            "eventType",
            Json::text(e.event_type.as_str()),
        ).with("timestampMs", Json::Int(e.timestamp_ms)).with(
            "detail",
            Json::text(e.detail.as_str()),
        ).with("fromState", Json::text(e.from_state.as_str())).with(
            "toState",
            Json::text(e.to_state.as_str()),
        ).with("attemptId", Json::text(e.attempt_id.as_str())).with(
            "evidenceHash",
            Json::text(e.evidence_hash.as_str()),
        ),
    )
}

/// A remark on a run as a value.
pub open spec fn remark_tree(d: RemarkView) -> JsonTree {
    JsonTree::Object(
        map![
            "severity"@ => JsonTree::Text(d.severity.name()),
            "code"@ => JsonTree::Text(d.code),
            "detail"@ => JsonTree::Text(d.detail),
            "evidenceRefs"@ => json::text_array(d.evidence_refs),
        ],
    )
}

fn remark_value(d: &BacktestReportDiagnostic) -> (r: Json)
    ensures
        r@ == remark_tree(d@),
{
    Json::object(
        JsonMap::new().with("severity", Json::text(d.severity.as_str())).with(
            "code",
            Json::text(d.code.as_str()),
        ).with("detail", Json::text(d.detail.as_str())).with(
            "evidenceRefs",
            Json::texts(&d.evidence_refs),
        ),
    )
}

/// A number that cannot be given, as a value.
pub open spec fn gap_tree(u: GapView) -> JsonTree {
    JsonTree::Object(
        map![
            "metric"@ => JsonTree::Text(u.metric),
            "reason"@ => JsonTree::Text(u.reason),
        ],
    )
}

fn gap_value(u: &UnavailableMetric) -> (r: Json)
    ensures
        r@ == gap_tree(u@),
{
    Json::object(
        JsonMap::new().with("metric", Json::text(u.metric.as_str())).with(
            "reason",
            Json::text(u.reason.as_str()),
        ),
    )
}

/// The overview as a value.
pub open spec fn overview_tree(o: OverviewView) -> JsonTree {
    JsonTree::Object(
        map![
            "startingEquityMicros"@ => JsonTree::Int(o.starting_equity),
            "endingCashMicros"@ => JsonTree::Int(o.ending_cash),
            "marketValueMicros"@ => JsonTree::Int(o.market_value),
            "endingEquityMicros"@ => JsonTree::Int(o.ending_equity),
            "grossPnlMicros"@ => JsonTree::Int(o.gross_pnl),
            "netPnlMicros"@ => JsonTree::Int(o.net_pnl),
            "realizedPnlMicros"@ => JsonTree::Int(o.realized_pnl),
            "unrealizedPnlMicros"@ => JsonTree::Int(o.unrealized_pnl),
            "returnBps"@ => number_or_null(o.return_bps),
            "tradeCount"@ => JsonTree::Int(o.trade_count),
            "winCount"@ => JsonTree::Int(o.win_count),
            "lossCount"@ => JsonTree::Int(o.loss_count),
            "washCount"@ => JsonTree::Int(o.wash_count),
            "openCount"@ => JsonTree::Int(o.open_count),
            "feesMicros"@ => JsonTree::Int(o.fees),
            "costDragMicros"@ => JsonTree::Int(o.cost_drag),
            "reconciliationStatus"@ => JsonTree::Text(o.reconciliation_status),
            "reconciliationResidualMicros"@ => JsonTree::Int(o.reconciliation_residual),
        ],
    )
}

fn overview_value(o: &BacktestReportOverview) -> (r: Json)
    ensures
        r@ == overview_tree(o@),
{
    let half = JsonMap::new().with("startingEquityMicros", Json::Int(o.starting_equity_micros)).with(
        "endingCashMicros",
        Json::Int(o.ending_cash_micros),
    ).with("marketValueMicros", Json::Int(o.market_value_micros)).with(
        "endingEquityMicros",
        Json::Int(o.ending_equity_micros),
    ).with("grossPnlMicros", Json::Int(o.gross_pnl_micros)).with(
        "netPnlMicros",
        Json::Int(o.net_pnl_micros),
    ).with("realizedPnlMicros", Json::Int(o.realized_pnl_micros)).with(
        "unrealizedPnlMicros",
        Json::Int(o.unrealized_pnl_micros),
    ).with("returnBps", optional_number(o.return_bps));
    Json::object(
        half.with("tradeCount", Json::Large(o.trade_count)).with(
            "winCount",
            Json::Large(o.win_count),
        ).with("lossCount", Json::Large(o.loss_count)).with(
            "washCount",
            Json::Large(o.wash_count),
        ).with("openCount", Json::Large(o.open_count)).with(
            "feesMicros",
            Json::Int(o.fees_micros),
        ).with("costDragMicros", Json::Int(o.cost_drag_micros)).with(
            "reconciliationStatus",
            Json::text(o.reconciliation_status.as_str()),
        ).with(
            "reconciliationResidualMicros",
            Json::Int(o.reconciliation_residual_micros),
        ),
    )
}

/// The run as a value.
pub open spec fn run_tree(x: BacktestReportRun) -> JsonTree {
    JsonTree::Object(
        map![
            "runId"@ => JsonTree::Text(x.run_id@),
            "state"@ => JsonTree::Text(x.state@),
            "strategyId"@ => JsonTree::Text(x.strategy_id@),
            "strategyVersionId"@ => JsonTree::Text(x.strategy_version_id@),
            "strategySpecHash"@ => JsonTree::Text(x.strategy_spec_hash@),
            "createdAtMs"@ => JsonTree::Int(x.created_at_ms as int),
            "completedAtMs"@ => JsonTree::Int(x.completed_at_ms as int),
            "datasetId"@ => JsonTree::Text(x.dataset_id@),
            "datasetTimeSlice"@ => x.dataset_time_slice@,
            "instruments"@ => json::text_array(text::texts(x.instruments@)),
            "sourcePluginRef"@ => JsonTree::Text(x.source_plugin_ref@),
            "sourceOperationId"@ => JsonTree::Text(x.source_operation_id@),
            "sourceManifestFingerprint"@ => JsonTree::Text(x.source_manifest_fingerprint@),
        ],
    )
}

impl BacktestReportRun {
    /// The run as a value.
    pub fn value(&self) -> (r: Json)
        ensures
            r@ == run_tree(*self),
    {
        let half = JsonMap::new().with("runId", Json::text(self.run_id.as_str())).with(
            "state",
            Json::text(self.state.as_str()),
        ).with("strategyId", Json::text(self.strategy_id.as_str())).with(
            "strategyVersionId",
            Json::text(self.strategy_version_id.as_str()),
        ).with("strategySpecHash", Json::text(self.strategy_spec_hash.as_str())).with(
            "createdAtMs",
            Json::Int(self.created_at_ms),
        ).with("completedAtMs", Json::Int(self.completed_at_ms));
        Json::object(
            half.with("datasetId", Json::text(self.dataset_id.as_str())).with(
                "datasetTimeSlice",
                self.dataset_time_slice.copy(),
            ).with("instruments", Json::texts(&self.instruments)).with(
                "sourcePluginRef",
                Json::text(self.source_plugin_ref.as_str()),
            ).with("sourceOperationId", Json::text(self.source_operation_id.as_str())).with(
                "sourceManifestFingerprint",
                Json::text(self.source_manifest_fingerprint.as_str()),
            ),
        )
    }
}

/// The assumptions as a value.
pub open spec fn assumptions_tree(x: BacktestReportAssumptions) -> JsonTree {
    JsonTree::Object(
        map![
            "startingCashMicros"@ => JsonTree::Int(x.starting_cash_micros as int),
            "reportingCurrency"@ => JsonTree::Text(x.reporting_currency@),
            "accountModel"@ => x.account_model@,
            "execution"@ => x.execution@,
            "costs"@ => x.costs@,
            "liquidity"@ => x.liquidity@,
            "risk"@ => x.risk@,
            "endOfData"@ => x.end_of_data@,
            "evaluatorVersion"@ => JsonTree::Text(x.evaluator_version@),
            "compilerVersion"@ => JsonTree::Text(x.compiler_version@),
        ],
    )
}

fn assumptions_value(x: &BacktestReportAssumptions) -> (r: Json)
    ensures
        r@ == assumptions_tree(*x),
{
    Json::object(
        JsonMap::new().with("startingCashMicros", Json::Int(x.starting_cash_micros)).with(
            "reportingCurrency",
            Json::text(x.reporting_currency.as_str()),
        ).with("accountModel", x.account_model.copy()).with("execution", x.execution.copy()).with(
            "costs",
            x.costs.copy(),
        ).with("liquidity", x.liquidity.copy()).with("risk", x.risk.copy()).with(
            "endOfData",
            x.end_of_data.copy(),
        ).with("evaluatorVersion", Json::text(x.evaluator_version.as_str())).with(
            "compilerVersion",
            Json::text(x.compiler_version.as_str()),
        ),
    )
}

/// The chart as a value.
pub open spec fn chart_tree(x: BacktestReportChart) -> JsonTree {
    JsonTree::Object(
        map![
            "range"@ => x.range@,
            "bars"@ => backtest_contracts::values_tree(x.bars@),
            "markers"@ => backtest_contracts::values_tree(x.markers@),
            "connectors"@ => backtest_contracts::values_tree(x.connectors@),
            "warnings"@ => json::text_array(text::texts(x.warnings@)),
            "evidenceRefs"@ => json::text_array(text::texts(x.evidence_refs@)),
        ],
    )
}

fn chart_value(x: &BacktestReportChart) -> (r: Json)
    ensures
        r@ == chart_tree(*x),
{
    Json::object(
        JsonMap::new().with("range", x.range.copy()).with(
            "bars",
            backtest_contracts::copy_values(&x.bars),
        ).with("markers", backtest_contracts::copy_values(&x.markers)).with(
            "connectors",
            backtest_contracts::copy_values(&x.connectors),
        ).with("warnings", Json::texts(&x.warnings)).with(
            "evidenceRefs",
            Json::texts(&x.evidence_refs),
        ),
    )
}

/// The costs and the risk as a value.
pub open spec fn costs_tree(x: BacktestCostsAndRisk) -> JsonTree {
    JsonTree::Object(
        map![
            "feesMicros"@ => JsonTree::Int(x.fees_micros as int),
            "costDragMicros"@ => JsonTree::Int(x.cost_drag_micros as int),
            "maximumLossMicros"@ => JsonTree::Int(x.maximum_loss_micros as int),
            "maximumPositionNotionalMicros"@ => JsonTree::Int(
                x.maximum_position_notional_micros as int,
            ),
            "maximumOrderQuantityMicros"@ => JsonTree::Int(x.maximum_order_quantity_micros as int),
            "unavailable"@ => JsonTree::Array(
                x.unavailable@.map_values(|u: UnavailableMetric| gap_tree(u@)),
            ),
        ],
    )
}

fn costs_value(x: &BacktestCostsAndRisk) -> (r: Json)
    ensures
        r@ == costs_tree(*x),
{
    let unavailable = each(&x.unavailable, gap_value, Ghost(|u: GapView| gap_tree(u)));
    proof {
        assert(unavailable@->Array_0 =~= x.unavailable@.map_values(
            |u: UnavailableMetric| gap_tree(u@),
        ));
    }
    Json::object(
        JsonMap::new().with("feesMicros", Json::Int(x.fees_micros)).with(
            "costDragMicros",
            Json::Int(x.cost_drag_micros),
        ).with("maximumLossMicros", Json::Int(x.maximum_loss_micros)).with(
            "maximumPositionNotionalMicros",
            Json::Int(x.maximum_position_notional_micros),
        ).with(
            "maximumOrderQuantityMicros",
            Json::Int(x.maximum_order_quantity_micros),
        ).with("unavailable", unavailable),
    )
}

/// The metadata as a value.
pub open spec fn metadata_tree(x: BacktestReportMetadata) -> JsonTree {
    JsonTree::Object(
        map![
            "manifestHash"@ => JsonTree::Text(x.manifest_hash@),
            "resultHash"@ => JsonTree::Text(x.result_hash@),
            "datasetHash"@ => JsonTree::Text(x.dataset_hash@),
            "lifecycleEventHashes"@ => json::text_array(text::texts(x.lifecycle_event_hashes@)),
            "currentAttemptId"@ => JsonTree::Text(x.current_attempt_id@),
            "replayRef"@ => JsonTree::Text(x.replay_ref@),
            "availableExportFormats"@ => json::text_array(text::texts(x.available_export_formats@)),
            "warnings"@ => json::text_array(text::texts(x.warnings@)),
        ],
    )
}

fn metadata_value(x: &BacktestReportMetadata) -> (r: Json)
    ensures
        r@ == metadata_tree(*x),
{
    Json::object(
        JsonMap::new().with("manifestHash", Json::text(x.manifest_hash.as_str())).with(
            "resultHash",
            Json::text(x.result_hash.as_str()),
        ).with("datasetHash", Json::text(x.dataset_hash.as_str())).with(
            "lifecycleEventHashes",
            Json::texts(&x.lifecycle_event_hashes),
        ).with("currentAttemptId", Json::text(x.current_attempt_id.as_str())).with(
            "replayRef",
            Json::text(x.replay_ref.as_str()),
        ).with("availableExportFormats", Json::texts(&x.available_export_formats)).with(
            "warnings",
            Json::texts(&x.warnings),
        ),
    )
}

/// The provenance as a value.
pub open spec fn provenance_tree(x: BacktestReportProvenance) -> JsonTree {
    JsonTree::Object(
        map![
            "strategyVersionId"@ => JsonTree::Text(x.strategy_version_id@),
            "strategySpecHash"@ => JsonTree::Text(x.strategy_spec_hash@),
            "strategyExecutionSummary"@ => x.strategy_execution_summary@,
            "datasetId"@ => JsonTree::Text(x.dataset_id@),
            "datasetHash"@ => JsonTree::Text(x.dataset_hash@),
            "sourceClass"@ => JsonTree::Text(x.source_class@),
            "sourcePluginRef"@ => JsonTree::Text(x.source_plugin_ref@),
            "sourcePluginInstanceRef"@ => JsonTree::Text(x.source_plugin_instance_ref@),
            "sourceOperationId"@ => JsonTree::Text(x.source_operation_id@),
            "sourceManifestFingerprint"@ => JsonTree::Text(x.source_manifest_fingerprint@),
            "timeCoverage"@ => backtest_contracts::time_slice_tree(x.time_coverage),
            "granularity"@ => JsonTree::Text(x.granularity@),
        ],
    )
}

fn provenance_value(x: &BacktestReportProvenance) -> (r: Json)
    ensures
        r@ == provenance_tree(*x),
{
    let half = JsonMap::new().with(
        "strategyVersionId",
        Json::text(x.strategy_version_id.as_str()),
    ).with("strategySpecHash", Json::text(x.strategy_spec_hash.as_str())).with(
        "strategyExecutionSummary",
        x.strategy_execution_summary.copy(),
    ).with("datasetId", Json::text(x.dataset_id.as_str())).with(
        "datasetHash",
        Json::text(x.dataset_hash.as_str()),
    ).with("sourceClass", Json::text(x.source_class.as_str()));
    Json::object(
        half.with("sourcePluginRef", Json::text(x.source_plugin_ref.as_str())).with(
            "sourcePluginInstanceRef",
            Json::text(x.source_plugin_instance_ref.as_str()),
        ).with("sourceOperationId", Json::text(x.source_operation_id.as_str())).with(
            "sourceManifestFingerprint",
            Json::text(x.source_manifest_fingerprint.as_str()),
        ).with("timeCoverage", x.time_coverage.value()).with(
            "granularity",
            Json::text(x.granularity.as_str()),
        ),
    )
}

/// A report as a value.
pub open spec fn report_tree(x: BacktestReport) -> JsonTree {
    JsonTree::Object(report_map(x).insert("reportHash"@, JsonTree::Text(x.report_hash@)))
}

/// A report as a value, before it has a hash.
pub open spec fn unsealed_tree(x: BacktestReport) -> JsonTree {
    JsonTree::Object(report_map(x).insert("reportHash"@, JsonTree::Text(""@)))
}

/// What a report says, apart from its hash.
pub open spec fn report_map(x: BacktestReport) -> Map<Seq<char>, JsonTree> {
    map![
        "schema"@ => JsonTree::Text(x.schema@),
        "run"@ => run_tree(x.run),
        "assumptions"@ => assumptions_tree(x.assumptions),
        "overview"@ => overview_tree(x.overview@),
        "chart"@ => chart_tree(x.chart),
        "trades"@ => JsonTree::Array(x.trades@.map_values(|t: BacktestTrade| trade_tree(t@))),
        "journal"@ => JsonTree::Array(
            x.journal@.map_values(|e: BacktestJournalEvent| step_tree(e@)),
        ),
        "orders"@ => backtest_contracts::values_tree(x.orders@),
        "fills"@ => backtest_contracts::values_tree(x.fills@),
        "positions"@ => backtest_contracts::values_tree(x.positions@),
        "ledger"@ => backtest_contracts::values_tree(x.ledger@),
        "costsAndRisk"@ => costs_tree(x.costs_and_risk),
        "diagnostics"@ => JsonTree::Array(
            x.diagnostics@.map_values(|d: BacktestReportDiagnostic| remark_tree(d@)),
        ),
        "metadata"@ => metadata_tree(x.metadata),
        "provenance"@ => provenance_tree(x.provenance),
    ]
}

impl BacktestReport {
    fn entries(&self) -> (r: JsonMap)
        ensures
            r@ == report_map(*self),
    {
        let list = each(&self.trades, trade_value, Ghost(|t: TradeView| trade_tree(t)));
        let steps = each(&self.journal, step_value, Ghost(|e: StepView| step_tree(e)));
        let remarks = each(&self.diagnostics, remark_value, Ghost(|d: RemarkView| remark_tree(d)));
        proof {
            assert(list@->Array_0 =~= self.trades@.map_values(|t: BacktestTrade| trade_tree(t@)));
            assert(steps@->Array_0 =~= self.journal@.map_values(
                |e: BacktestJournalEvent| step_tree(e@),
            ));
            assert(remarks@->Array_0 =~= self.diagnostics@.map_values(
                |d: BacktestReportDiagnostic| remark_tree(d@),
            ));
        }
        let half = JsonMap::new().with("schema", Json::text(self.schema.as_str())).with(
            "run",
            self.run.value(),
        ).with("assumptions", assumptions_value(&self.assumptions)).with(
            "overview",
            overview_value(&self.overview),
        ).with("chart", chart_value(&self.chart)).with("trades", list).with("journal", steps);
        half.with("orders", backtest_contracts::copy_values(&self.orders)).with(
            "fills",
            backtest_contracts::copy_values(&self.fills),
        ).with("positions", backtest_contracts::copy_values(&self.positions)).with(
            "ledger",
            backtest_contracts::copy_values(&self.ledger),
        ).with("costsAndRisk", costs_value(&self.costs_and_risk)).with("diagnostics", remarks).with(
            "metadata",
            metadata_value(&self.metadata),
        ).with("provenance", provenance_value(&self.provenance))
    }

    /// The report as a value.
    pub fn value(&self) -> (r: Json)
        ensures
            r@ == report_tree(*self),
    {
        Json::object(self.entries().with("reportHash", Json::text(self.report_hash.as_str())))
    }

    /// The report as a value, before it has a hash.
    pub fn report_without_hash(&self) -> (r: Json)
        ensures
            r@ == unsealed_tree(*self),
    {
        Json::object(self.entries().with("reportHash", Json::text("")))
    }
}

} // verus!

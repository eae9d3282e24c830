//! What a backtest is asked for, what is kept of it, and when that is valid and intact.

pub mod admission;

use vstd::prelude::*;

use crate::digest;
use crate::digest::labelled_sha256;
use crate::json;
use crate::json::{canonical_bytes, Json, JsonMap, JsonTree};
use crate::text;
use crate::text::{blank, decimal_text, is_before, join2, join3, listed, same};

verus! {

pub const BACKTEST_CONFIGURATION_SCHEMA: &'static str = "tradeassembly.backtest-configuration.v1";

pub const BACKTEST_MANIFEST_SCHEMA: &'static str = "tradeassembly.backtest-run-manifest.v1";

pub const BACKTEST_RESULT_SCHEMA: &'static str = "tradeassembly.backtest-result.v1";

pub const BACKTEST_RUN_SCHEMA: &'static str = "tradeassembly.backtest-run.v2";

pub const BACKTEST_ATTEMPT_SCHEMA: &'static str = "tradeassembly.backtest-attempt.v1";

/// What kind of account a backtest trades on.
#[derive(Clone, Copy, Debug, PartialEq, Eq, Structural)]
pub enum AccountModel {
    Cash,
    Margin,
}

/// When a strategy is evaluated.
#[derive(Clone, Copy, Debug, PartialEq, Eq, Structural)]
pub enum EvaluationTiming {
    BarClose,
}

/// When an order is filled.
#[derive(Clone, Copy, Debug, PartialEq, Eq, Structural)]
pub enum FillTiming {
    SameBar,
    NextBar,
}

/// At which price of a bar an order is filled.
#[derive(Clone, Copy, Debug, PartialEq, Eq, Structural)]
pub enum PriceSource {
    Open,
    Close,
}

/// Whether an order is filled in full or in part.
#[derive(Clone, Copy, Debug, PartialEq, Eq, Structural)]
pub enum FillPolicy {
    Full,
    ParticipationCappedPartial,
}

/// What happens where data is missing.
#[derive(Clone, Copy, Debug, PartialEq, Eq, Structural)]
pub enum MissingDataPolicy {
    Reject,
    SkipObservation,
}

/// What happens to open positions at the end of the data.
#[derive(Clone, Copy, Debug, PartialEq, Eq, Structural)]
pub enum EndOfDataPolicy {
    MarkToMarket,
    ForceClose,
}

/// What kind of order a backtest places.
#[derive(Clone, Copy, Debug, PartialEq, Eq, Structural)]
pub enum BacktestOrderType {
    Market,
}

impl AccountModel {
    pub open spec fn name(self) -> Seq<char> {
        match self {
            AccountModel::Cash => "cash"@,
            AccountModel::Margin => "margin"@,
        }
    }

    /// The name of the account model.
    pub fn as_str(&self) -> (r: &'static str)
        ensures
            r@ == self.name(),
    {
        match self {
            AccountModel::Cash => "cash",
            AccountModel::Margin => "margin",
        }
    }
}

impl EvaluationTiming {
    pub open spec fn name(self) -> Seq<char> {
        "bar_close"@
    }

    /// The name of the timing.
    pub fn as_str(&self) -> (r: &'static str)
        ensures
            r@ == self.name(),
    {
        "bar_close"
    }
}

impl FillTiming {
    pub open spec fn name(self) -> Seq<char> {
        match self {
            FillTiming::SameBar => "same_bar"@,
            FillTiming::NextBar => "next_bar"@,
        }
    }

    /// The name of the timing.
    pub fn as_str(&self) -> (r: &'static str)
        ensures
            r@ == self.name(),
    {
        match self {
            FillTiming::SameBar => "same_bar",
            FillTiming::NextBar => "next_bar",
        }
    }
}

impl PriceSource {
    pub open spec fn name(self) -> Seq<char> {
        match self {
            PriceSource::Open => "open"@,
            PriceSource::Close => "close"@,
        }
    }

    /// The name of the price.
    pub fn as_str(&self) -> (r: &'static str)
        ensures
            r@ == self.name(),
    {
        match self {
            PriceSource::Open => "open",
            PriceSource::Close => "close",
        }
    }
}

impl FillPolicy {
    pub open spec fn name(self) -> Seq<char> {
        match self {
            FillPolicy::Full => "full"@,
            FillPolicy::ParticipationCappedPartial => "participation_capped_partial"@,
        }
    }

    /// The name of the policy.
    pub fn as_str(&self) -> (r: &'static str)
        ensures
            r@ == self.name(),
    {
        match self {
            FillPolicy::Full => "full",
            FillPolicy::ParticipationCappedPartial => "participation_capped_partial",
        }
    }
}

impl MissingDataPolicy {
    pub open spec fn name(self) -> Seq<char> {
        match self {
            MissingDataPolicy::Reject => "reject"@,
            MissingDataPolicy::SkipObservation => "skip_observation"@,
        }
    }

    /// The name of the policy.
    pub fn as_str(&self) -> (r: &'static str)
        ensures
            r@ == self.name(),
    {
        match self {
            MissingDataPolicy::Reject => "reject",
            MissingDataPolicy::SkipObservation => "skip_observation",
        }
    }
}

impl EndOfDataPolicy {
    pub open spec fn name(self) -> Seq<char> {
        match self {
            EndOfDataPolicy::MarkToMarket => "mark_to_market"@,
            EndOfDataPolicy::ForceClose => "force_close"@,
        }
    }

    /// The name of the policy.
    pub fn as_str(&self) -> (r: &'static str)
        ensures
            r@ == self.name(),
    {
        match self {
            EndOfDataPolicy::MarkToMarket => "mark_to_market",
            EndOfDataPolicy::ForceClose => "force_close",
        }
    }
}

impl BacktestOrderType {
    pub open spec fn name(self) -> Seq<char> {
        "market"@
    }

    /// The name of the kind of order.
    pub fn as_str(&self) -> (r: &'static str)
        ensures
            r@ == self.name(),
    {
        "market"
    }
}

/// The strategy that is tested.
#[derive(Debug)]
pub struct StrategyVersionBinding {
    pub strategy_id: String,
    pub strategy_version_id: String,
    pub strategy_spec_hash: String,
}

/// A stretch of time, from its start up to its end.
#[derive(Debug)]
pub struct DatasetTimeSlice {
    pub start: String,
    pub end: String,
}

/// The data on which a strategy is tested.
#[derive(Debug)]
pub struct DatasetBinding {
    pub dataset_id: String,
    pub snapshot_ref: String,
    pub content_hash: String,
    pub schema: String,
    pub source_plugin_ref: String,
    pub source_plugin_instance_ref: String,
    pub source_operation_id: String,
    pub source_manifest_fingerprint: String,
    pub source_class: String,
    pub capability_graph_revision_id: String,
    pub capability_graph_fingerprint: String,
    pub instruments: Vec<String>,
    pub selected_time_slice: DatasetTimeSlice,
    pub granularity: String,
    pub calendar: String,
    pub timezone: String,
    pub corporate_action_policy: String,
    pub benchmark: Option<String>,
}

/// The capabilities under which a strategy is tested.
#[derive(Debug)]
pub struct CapabilityGraphBinding {
    pub revision_id: String,
    pub graph_fingerprint: String,
}

/// With how much a backtest starts.
#[derive(Debug)]
pub struct CapitalConfiguration {
    pub starting_cash_micros: i64,
    pub reporting_currency: String,
    pub account_model: AccountModel,
    pub maximum_leverage_micros: i64,
    pub margin_policy: String,
}

/// How orders are executed.
#[derive(Debug)]
pub struct ExecutionConfiguration {
    pub evaluation_timing: EvaluationTiming,
    pub fill_timing: FillTiming,
    pub fill_price_source: PriceSource,
    pub order_type: BacktestOrderType,
    pub time_in_force: String,
    pub fill_policy: FillPolicy,
    pub reject_on_insufficient_capital: bool,
    pub reject_on_insufficient_liquidity: bool,
    pub stale_data_policy: MissingDataPolicy,
    pub missing_data_policy: MissingDataPolicy,
}

/// What an order costs.
#[derive(Debug)]
pub struct CostConfiguration {
    pub fixed_fee_micros: i64,
    pub per_unit_fee_micros: i64,
    pub notional_fee_bps: u32,
    pub spread_bps: u32,
    pub slippage_bps: u32,
}

/// How much of the volume an order may take.
#[derive(Debug)]
pub struct LiquidityConfiguration {
    pub maximum_participation_bps: u32,
    pub minimum_volume_micros: i64,
}

/// What is traded.
#[derive(Debug)]
pub struct InstrumentConfiguration {
    pub instrument_id: String,
    pub instrument_family: String,
    pub quantity_unit: String,
    pub quantity_scale: u32,
    pub price_scale: u32,
    pub contract_multiplier_micros: i64,
    pub settlement: String,
    pub metadata: JsonMap,
}

/// How much may be at risk.
#[derive(Debug)]
pub struct BacktestRiskConfiguration {
    pub maximum_position_notional_micros: i64,
    pub maximum_order_quantity_micros: i64,
    pub maximum_loss_micros: i64,
    pub maximum_open_positions: u32,
}

/// What a backtest is asked for.
#[derive(Debug)]
pub struct BacktestConfiguration {
    pub schema: String,
    pub strategy: StrategyVersionBinding,
    pub dataset: DatasetBinding,
    pub capability_graph: CapabilityGraphBinding,
    pub capital: CapitalConfiguration,
    pub execution: ExecutionConfiguration,
    pub costs: CostConfiguration,
    pub liquidity: LiquidityConfiguration,
    pub instruments: Vec<InstrumentConfiguration>,
    pub risk: BacktestRiskConfiguration,
    pub end_of_data: EndOfDataPolicy,
    pub evaluator_version: String,
    pub compiler_version: String,
    pub plugin_fingerprints: JsonMap,
    pub variable_overrides: JsonMap,
}

/// How grave a diagnostic is.
#[derive(Clone, Copy, Debug, PartialEq, Eq, Structural)]
pub enum DiagnosticSeverity {
    Info,
    Warning,
    Error,
}

impl DiagnosticSeverity {
    pub open spec fn name(self) -> Seq<char> {
        match self {
            DiagnosticSeverity::Info => "info"@,
            DiagnosticSeverity::Warning => "warning"@,
            DiagnosticSeverity::Error => "error"@,
        }
    }

    /// The name of the severity.
    pub fn as_str(&self) -> (r: &'static str)
        ensures
            r@ == self.name(),
    {
        match self {
            DiagnosticSeverity::Info => "info",
            DiagnosticSeverity::Warning => "warning",
            DiagnosticSeverity::Error => "error",
        }
    }
}

/// What there is to say of a backtest.
#[derive(Debug)]
pub struct BacktestDiagnostic {
    pub code: String,
    pub field: Option<String>,
    pub severity: DiagnosticSeverity,
    pub detail: String,
}

/// What a [`BacktestDiagnostic`] says.
#[verifier::ext_equal]
pub struct DiagnosticView {
    pub code: Seq<char>,
    pub field: Option<Seq<char>>,
    pub severity: DiagnosticSeverity,
    pub detail: Seq<char>,
}

impl View for BacktestDiagnostic {
    type V = DiagnosticView;

    open spec fn view(&self) -> DiagnosticView {
        DiagnosticView {
            code: self.code@,
            field: text::option_text(self.field),
            severity: self.severity,
            detail: self.detail@,
        }
    }
}

/// What a list of diagnostics says.
pub open spec fn diagnostic_views(list: Seq<BacktestDiagnostic>) -> Seq<DiagnosticView> {
    Seq::new(list.len(), |i: int| list[i]@)
}

/// Whether a backtest can be run, and what there is to say of it.
#[derive(Debug)]
pub struct BacktestValidationReport {
    pub ready: bool,
    pub diagnostics: Vec<BacktestDiagnostic>,
}

/// An error in a field of the configuration.
pub open spec fn field_error(field: Seq<char>, detail: Seq<char>) -> DiagnosticView {
    DiagnosticView {
        code: "backtest_config_invalid"@,
        field: Some(field),
        severity: DiagnosticSeverity::Error,
        detail,
    }
}

/// An error in a field of the configuration, where there is cause for it.
pub open spec fn fault(cause: bool, field: Seq<char>, detail: Seq<char>) -> Seq<DiagnosticView> {
    if cause {
        seq![field_error(field, detail)]
    } else {
        Seq::empty()
    }
}

/// An error where a value is missing.
pub open spec fn missing(field: Seq<char>, value: Seq<char>) -> Seq<DiagnosticView> {
    fault(text::is_blank(value), field, "value is required"@)
}

fn report(list: &mut Vec<BacktestDiagnostic>, cause: bool, field: &str, detail: &str)
    ensures
        diagnostic_views(final(list)@) == diagnostic_views(old(list)@) + fault(cause, field@, detail@),
{
    let ghost before = diagnostic_views(list@);
    if cause {
        let item = BacktestDiagnostic {
            code: "backtest_config_invalid".to_owned(),
            field: Some(field.to_owned()),
            severity: DiagnosticSeverity::Error,
            detail: detail.to_owned(),
        };
        list.push(item);
        assert(diagnostic_views(list@) =~= before + fault(cause, field@, detail@));
    } else {
        assert(before + fault(cause, field@, detail@) =~= before);
    }
}

fn require(list: &mut Vec<BacktestDiagnostic>, field: &str, value: &str)
    ensures
        diagnostic_views(final(list)@) == diagnostic_views(old(list)@) + missing(field@, value@),
{
    let absent: bool = blank(value);
    report(list, absent, field, "value is required");
}

/// What is to be said of the schema and the strategy.
pub open spec fn strategy_faults(c: BacktestConfiguration) -> Seq<DiagnosticView> {
    fault(c.schema@ != BACKTEST_CONFIGURATION_SCHEMA@, "/schema"@, "unsupported schema"@) + missing(
        "/strategy/strategyId"@,
        c.strategy.strategy_id@,
    ) + missing("/strategy/strategyVersionId"@, c.strategy.strategy_version_id@) + missing(
        "/strategy/strategySpecHash"@,
        c.strategy.strategy_spec_hash@,
    )
}

/// What is to be said of the values that the data has to give.
pub open spec fn dataset_faults(c: BacktestConfiguration) -> Seq<DiagnosticView> {
    missing("/dataset/datasetId"@, c.dataset.dataset_id@) + missing(
        "/dataset/contentHash"@,
        c.dataset.content_hash@,
    ) + missing("/dataset/capabilityGraphRevisionId"@, c.dataset.capability_graph_revision_id@)
        + missing("/dataset/capabilityGraphFingerprint"@, c.dataset.capability_graph_fingerprint@)
}

/// What is to be said of the other values that a configuration has to give.
pub open spec fn version_faults(c: BacktestConfiguration) -> Seq<DiagnosticView> {
    missing("/capabilityGraph/revisionId"@, c.capability_graph.revision_id@) + missing(
        "/capabilityGraph/graphFingerprint"@,
        c.capability_graph.graph_fingerprint@,
    ) + missing("/capital/reportingCurrency"@, c.capital.reporting_currency@) + missing(
        "/evaluatorVersion"@,
        c.evaluator_version@,
    ) + missing("/compilerVersion"@, c.compiler_version@)
}

/// What is to be said of the values that a configuration has to give.
pub open spec fn required_value_faults(c: BacktestConfiguration) -> Seq<DiagnosticView> {
    strategy_faults(c) + dataset_faults(c) + version_faults(c)
}

/// Whether the capital and the limits of risk are not all positive.
pub open spec fn capital_is_invalid(c: BacktestConfiguration) -> bool {
    c.capital.starting_cash_micros <= 0 || c.capital.maximum_leverage_micros < 1_000_000
        || c.risk.maximum_position_notional_micros <= 0 || c.risk.maximum_order_quantity_micros <= 0
        || c.risk.maximum_loss_micros <= 0 || c.risk.maximum_open_positions == 0
}

/// Whether a cost or a limit of liquidity is out of bounds.
pub open spec fn costs_are_invalid(c: BacktestConfiguration) -> bool {
    c.costs.fixed_fee_micros < 0 || c.costs.per_unit_fee_micros < 0 || c.costs.notional_fee_bps
        > 10_000 || c.costs.spread_bps > 10_000 || c.costs.slippage_bps > 10_000
        || c.liquidity.maximum_participation_bps == 0 || c.liquidity.maximum_participation_bps
        > 10_000 || c.liquidity.minimum_volume_micros < 0
}

/// What is to be said of the bounds of a configuration.
pub open spec fn bound_faults(c: BacktestConfiguration) -> Seq<DiagnosticView> {
    fault(
        c.dataset.instruments@.len() == 0 || c.instruments@.len() == 0,
        "/instruments"@,
        "at least one instrument is required"@,
    ) + fault(
        !text::before(c.dataset.selected_time_slice.start@, c.dataset.selected_time_slice.end@),
        "/dataset/selectedTimeSlice"@,
        "time slice must be increasing"@,
    ) + fault(
        capital_is_invalid(c),
        "/capital"@,
        "capital and risk limits must be positive"@,
    ) + fault(
        costs_are_invalid(c),
        "/execution"@,
        "cost or liquidity value is outside supported bounds"@,
    )
}

/// Whether an instrument leaves out something that it has to say.
pub open spec fn instrument_is_incomplete(x: InstrumentConfiguration) -> bool {
    text::is_blank(x.instrument_id@) || text::is_blank(x.instrument_family@) || text::is_blank(
        x.quantity_unit@,
    ) || x.contract_multiplier_micros <= 0 || x.quantity_scale > 12 || x.price_scale > 12
}

/// What is to be said of the instrument at a place.
pub open spec fn instrument_faults(
    x: InstrumentConfiguration,
    index: int,
    known: Seq<Seq<char>>,
) -> Seq<DiagnosticView> {
    let place = "/instruments/"@ + text::decimal(index as nat);
    fault(instrument_is_incomplete(x), place, "instrument configuration is incomplete"@) + fault(
        !known.contains(x.instrument_id@),
        place + "/instrumentId"@,
        "instrument is absent from dataset"@,
    )
}

/// What is to be said of the first instruments.
pub open spec fn all_instrument_faults(
    list: Seq<InstrumentConfiguration>,
    known: Seq<Seq<char>>,
) -> Seq<DiagnosticView>
    decreases list.len(),
{
    if list.len() == 0 {
        Seq::empty()
    } else {
        all_instrument_faults(list.drop_last(), known) + instrument_faults(
            list.last(),
            list.len() - 1,
            known,
        )
    }
}

/// All that is to be said of a configuration.
pub open spec fn configuration_faults(c: BacktestConfiguration) -> Seq<DiagnosticView> {
    required_value_faults(c) + bound_faults(c) + all_instrument_faults(
        c.instruments@,
        text::texts(c.dataset.instruments@),
    )
}

fn check_strategy(c: &BacktestConfiguration, list: &mut Vec<BacktestDiagnostic>)
    ensures
        diagnostic_views(final(list)@) == diagnostic_views(old(list)@) + strategy_faults(*c),
{
    let ghost before = diagnostic_views(list@);
    let unsupported: bool = !same(c.schema.as_str(), BACKTEST_CONFIGURATION_SCHEMA);
    report(list, unsupported, "/schema", "unsupported schema");
    require(list, "/strategy/strategyId", c.strategy.strategy_id.as_str());
    require(list, "/strategy/strategyVersionId", c.strategy.strategy_version_id.as_str());
    require(list, "/strategy/strategySpecHash", c.strategy.strategy_spec_hash.as_str());
    assert(diagnostic_views(list@) =~= before + strategy_faults(*c));
}

fn check_dataset(c: &BacktestConfiguration, list: &mut Vec<BacktestDiagnostic>)
    ensures
        diagnostic_views(final(list)@) == diagnostic_views(old(list)@) + dataset_faults(*c),
{
    let ghost before = diagnostic_views(list@);
    require(list, "/dataset/datasetId", c.dataset.dataset_id.as_str());
    require(list, "/dataset/contentHash", c.dataset.content_hash.as_str());
    require(
        list,
        "/dataset/capabilityGraphRevisionId",
        c.dataset.capability_graph_revision_id.as_str(),
    );
    require(
        list,
        "/dataset/capabilityGraphFingerprint",
        c.dataset.capability_graph_fingerprint.as_str(),
    );
    assert(diagnostic_views(list@) =~= before + dataset_faults(*c));
}

fn check_versions(c: &BacktestConfiguration, list: &mut Vec<BacktestDiagnostic>)
    ensures
        diagnostic_views(final(list)@) == diagnostic_views(old(list)@) + version_faults(*c),
{
    let ghost before = diagnostic_views(list@);
    require(list, "/capabilityGraph/revisionId", c.capability_graph.revision_id.as_str());
    require(
        list,
        "/capabilityGraph/graphFingerprint",
        c.capability_graph.graph_fingerprint.as_str(),
    );
    require(list, "/capital/reportingCurrency", c.capital.reporting_currency.as_str());
    require(list, "/evaluatorVersion", c.evaluator_version.as_str());
    require(list, "/compilerVersion", c.compiler_version.as_str());
    assert(diagnostic_views(list@) =~= before + version_faults(*c));
}

fn check_bounds(c: &BacktestConfiguration, list: &mut Vec<BacktestDiagnostic>)
    ensures
        diagnostic_views(final(list)@) == diagnostic_views(old(list)@) + bound_faults(*c),
{
    let ghost before = diagnostic_views(list@);
    let bare: bool = c.dataset.instruments.len() == 0 || c.instruments.len() == 0;
    let slice: &DatasetTimeSlice = &c.dataset.selected_time_slice;
    let backward: bool = !is_before(slice.start.as_str(), slice.end.as_str());
    let capital: bool = c.capital.starting_cash_micros <= 0 || c.capital.maximum_leverage_micros
        < 1_000_000 || c.risk.maximum_position_notional_micros <= 0
        || c.risk.maximum_order_quantity_micros <= 0 || c.risk.maximum_loss_micros <= 0
        || c.risk.maximum_open_positions == 0;
    let costs: bool = c.costs.fixed_fee_micros < 0 || c.costs.per_unit_fee_micros < 0
        || c.costs.notional_fee_bps > 10_000 || c.costs.spread_bps > 10_000 || c.costs.slippage_bps
        > 10_000 || c.liquidity.maximum_participation_bps == 0
        || c.liquidity.maximum_participation_bps > 10_000 || c.liquidity.minimum_volume_micros < 0;
    report(list, bare, "/instruments", "at least one instrument is required");
    report(list, backward, "/dataset/selectedTimeSlice", "time slice must be increasing");
    report(list, capital, "/capital", "capital and risk limits must be positive");
    report(list, costs, "/execution", "cost or liquidity value is outside supported bounds");
    assert(diagnostic_views(list@) =~= before + bound_faults(*c));
}

fn check_instruments(c: &BacktestConfiguration, list: &mut Vec<BacktestDiagnostic>)
    ensures
        diagnostic_views(final(list)@) == diagnostic_views(old(list)@) + all_instrument_faults(
            c.instruments@,
            text::texts(c.dataset.instruments@),
        ),
{
    let ghost before = diagnostic_views(list@);
    let ghost known = text::texts(c.dataset.instruments@);
    let mut i: usize = 0;
    proof {
        assert(c.instruments@.take(0) =~= Seq::empty());
        assert(before + all_instrument_faults(c.instruments@.take(0), known) =~= before);
    }
    while i < c.instruments.len()
        invariant
            i <= c.instruments.len(),
            known == text::texts(c.dataset.instruments@),
            diagnostic_views(list@) == before + all_instrument_faults(
                c.instruments@.take(i as int),
                known,
            ),
        decreases c.instruments.len() - i,
    {
        let x: &InstrumentConfiguration = &c.instruments[i];
        let incomplete: bool = blank(x.instrument_id.as_str()) || blank(x.instrument_family.as_str())
            || blank(x.quantity_unit.as_str()) || x.contract_multiplier_micros <= 0
            || x.quantity_scale > 12 || x.price_scale > 12;
        let absent: bool = !listed(&c.dataset.instruments, x.instrument_id.as_str());
        let number = decimal_text(i as u64);
        let place = join2("/instruments/", number.as_str());
        let id_place = join2(place.as_str(), "/instrumentId");
        report(list, incomplete, place.as_str(), "instrument configuration is incomplete");
        report(list, absent, id_place.as_str(), "instrument is absent from dataset");
        proof {
            let shorter = c.instruments@.take(i as int);
            assert(c.instruments@.take(i + 1).drop_last() =~= shorter);
            assert(c.instruments@.take(i + 1).last() == *x);
            assert(diagnostic_views(list@) =~= before + all_instrument_faults(
                c.instruments@.take(i + 1),
                known,
            ));
        }
        i += 1;
    }
    assert(c.instruments@.take(c.instruments@.len() as int) =~= c.instruments@);
}

impl BacktestConfiguration {
    /// Holds the configuration to its rules: it is ready where there is nothing to say.
    pub fn validate(&self) -> (r: BacktestValidationReport)
        ensures
            diagnostic_views(r.diagnostics@) == configuration_faults(*self),
            r.ready == (configuration_faults(*self).len() == 0),
    {
        let mut diagnostics: Vec<BacktestDiagnostic> = Vec::new();
        assert(diagnostic_views(diagnostics@) =~= Seq::empty());
        check_strategy(self, &mut diagnostics);
        check_dataset(self, &mut diagnostics);
        check_versions(self, &mut diagnostics);
        check_bounds(self, &mut diagnostics);
        check_instruments(self, &mut diagnostics);
        assert(diagnostic_views(diagnostics@) =~= configuration_faults(*self));
        let ready: bool = diagnostics.len() == 0;
        BacktestValidationReport { ready, diagnostics }
    }
}

/// A strategy binding as a value.
pub open spec fn strategy_tree(x: StrategyVersionBinding) -> JsonTree {
    JsonTree::Object(
        map![
            "strategyId"@ => JsonTree::Text(x.strategy_id@),
            "strategyVersionId"@ => JsonTree::Text(x.strategy_version_id@),
            "strategySpecHash"@ => JsonTree::Text(x.strategy_spec_hash@)
        ],
    )
}

impl StrategyVersionBinding {
    /// This as a value.
    pub fn value(&self) -> (r: Json)
        ensures
            r@ == strategy_tree(*self),
    {
        Json::object(
            JsonMap::new().with(
                "strategyId",
                Json::text(self.strategy_id.as_str()),
            ).with(
                "strategyVersionId",
                Json::text(self.strategy_version_id.as_str()),
            ).with(
                "strategySpecHash",
                Json::text(self.strategy_spec_hash.as_str()),
            ),
        )
    }
}

/// A stretch of time as a value.
pub open spec fn time_slice_tree(x: DatasetTimeSlice) -> JsonTree {
    JsonTree::Object(
        map![
            "start"@ => JsonTree::Text(x.start@),
            "end"@ => JsonTree::Text(x.end@)
        ],
    )
}

impl DatasetTimeSlice {
    /// This as a value.
    pub fn value(&self) -> (r: Json)
        ensures
            r@ == time_slice_tree(*self),
    {
        Json::object(
            JsonMap::new().with(
                "start",
                Json::text(self.start.as_str()),
            ).with(
                "end",
                Json::text(self.end.as_str()),
            ),
        )
    }
}

/// A dataset binding as a value.
pub open spec fn dataset_tree(x: DatasetBinding) -> JsonTree {
    JsonTree::Object(
        map![
            "datasetId"@ => JsonTree::Text(x.dataset_id@),
            "snapshotRef"@ => JsonTree::Text(x.snapshot_ref@),
            "contentHash"@ => JsonTree::Text(x.content_hash@),
            "schema"@ => JsonTree::Text(x.schema@),
            "sourcePluginRef"@ => JsonTree::Text(x.source_plugin_ref@),
            "sourcePluginInstanceRef"@ => JsonTree::Text(x.source_plugin_instance_ref@),
            "sourceOperationId"@ => JsonTree::Text(x.source_operation_id@),
            "sourceManifestFingerprint"@ => JsonTree::Text(x.source_manifest_fingerprint@),
            "sourceClass"@ => JsonTree::Text(x.source_class@),
            "capabilityGraphRevisionId"@ => JsonTree::Text(x.capability_graph_revision_id@),
            "capabilityGraphFingerprint"@ => JsonTree::Text(x.capability_graph_fingerprint@),
            "instruments"@ => json::text_array(text::texts(x.instruments@)),
            "selectedTimeSlice"@ => time_slice_tree(x.selected_time_slice),
            "granularity"@ => JsonTree::Text(x.granularity@),
            "calendar"@ => JsonTree::Text(x.calendar@),
            "timezone"@ => JsonTree::Text(x.timezone@),
            "corporateActionPolicy"@ => JsonTree::Text(x.corporate_action_policy@),
            "benchmark"@ => json::text_or_null(text::option_text(x.benchmark))
        ],
    )
}

impl DatasetBinding {
    /// This as a value.
    pub fn value(&self) -> (r: Json)
        ensures
            r@ == dataset_tree(*self),
    {
        Json::object(
            JsonMap::new().with(
                "datasetId",
                Json::text(self.dataset_id.as_str()),
            ).with(
                "snapshotRef",
                Json::text(self.snapshot_ref.as_str()),
            ).with(
                "contentHash",
                Json::text(self.content_hash.as_str()),
            ).with(
                "schema",
                Json::text(self.schema.as_str()),
            ).with(
                "sourcePluginRef",
                Json::text(self.source_plugin_ref.as_str()),
            ).with(
                "sourcePluginInstanceRef",
                Json::text(self.source_plugin_instance_ref.as_str()),
            ).with(
                "sourceOperationId",
                Json::text(self.source_operation_id.as_str()),
            ).with(
                "sourceManifestFingerprint",
                Json::text(self.source_manifest_fingerprint.as_str()),
            ).with(
                "sourceClass",
                Json::text(self.source_class.as_str()),
            ).with(
                "capabilityGraphRevisionId",
                Json::text(self.capability_graph_revision_id.as_str()),
            ).with(
                "capabilityGraphFingerprint",
                Json::text(self.capability_graph_fingerprint.as_str()),
            ).with(
                "instruments",
                Json::texts(&self.instruments),
            ).with(
                "selectedTimeSlice",
                self.selected_time_slice.value(),
            ).with(
                "granularity",
                Json::text(self.granularity.as_str()),
            ).with(
                "calendar",
                Json::text(self.calendar.as_str()),
            ).with(
                "timezone",
                Json::text(self.timezone.as_str()),
            ).with(
                "corporateActionPolicy",
                Json::text(self.corporate_action_policy.as_str()),
            ).with(
                "benchmark",
                Json::optional_text(&self.benchmark),
            ),
        )
    }
}

/// A capability graph binding as a value.
pub open spec fn graph_tree(x: CapabilityGraphBinding) -> JsonTree {
    JsonTree::Object(
        map![
            "revisionId"@ => JsonTree::Text(x.revision_id@),
            "graphFingerprint"@ => JsonTree::Text(x.graph_fingerprint@)
        ],
    )
}

impl CapabilityGraphBinding {
    /// This as a value.
    pub fn value(&self) -> (r: Json)
        ensures
            r@ == graph_tree(*self),
    {
        Json::object(
            JsonMap::new().with(
                "revisionId",
                Json::text(self.revision_id.as_str()),
            ).with(
                "graphFingerprint",
                Json::text(self.graph_fingerprint.as_str()),
            ),
        )
    }
}

/// A capital configuration as a value.
pub open spec fn capital_tree(x: CapitalConfiguration) -> JsonTree {
    JsonTree::Object(
        map![
            "startingCashMicros"@ => JsonTree::Int(x.starting_cash_micros as int),
            "reportingCurrency"@ => JsonTree::Text(x.reporting_currency@),
            "accountModel"@ => JsonTree::Text(x.account_model.name()),
            "maximumLeverageMicros"@ => JsonTree::Int(x.maximum_leverage_micros as int),
            "marginPolicy"@ => JsonTree::Text(x.margin_policy@)
        ],
    )
}

impl CapitalConfiguration {
    /// This as a value.
    pub fn value(&self) -> (r: Json)
        ensures
            r@ == capital_tree(*self),
    {
        Json::object(
            JsonMap::new().with(
                "startingCashMicros",
                Json::Int(self.starting_cash_micros),
            ).with(
                "reportingCurrency",
                Json::text(self.reporting_currency.as_str()),
            ).with(
                "accountModel",
                Json::text(self.account_model.as_str()),
            ).with(
                "maximumLeverageMicros",
                Json::Int(self.maximum_leverage_micros),
            ).with(
                "marginPolicy",
                Json::text(self.margin_policy.as_str()),
            ),
        )
    }
}

/// An execution configuration as a value.
pub open spec fn execution_tree(x: ExecutionConfiguration) -> JsonTree {
    JsonTree::Object(
        map![
            "evaluationTiming"@ => JsonTree::Text(x.evaluation_timing.name()),
            "fillTiming"@ => JsonTree::Text(x.fill_timing.name()),
            "fillPriceSource"@ => JsonTree::Text(x.fill_price_source.name()),
            "orderType"@ => JsonTree::Text(x.order_type.name()),
            "timeInForce"@ => JsonTree::Text(x.time_in_force@),
            "fillPolicy"@ => JsonTree::Text(x.fill_policy.name()),
            "rejectOnInsufficientCapital"@ => JsonTree::Bool(x.reject_on_insufficient_capital),
            "rejectOnInsufficientLiquidity"@ => JsonTree::Bool(x.reject_on_insufficient_liquidity),
            "staleDataPolicy"@ => JsonTree::Text(x.stale_data_policy.name()),
            "missingDataPolicy"@ => JsonTree::Text(x.missing_data_policy.name())
        ],
    )
}

impl ExecutionConfiguration {
    /// This as a value.
    pub fn value(&self) -> (r: Json)
        ensures
            r@ == execution_tree(*self),
    {
        Json::object(
            JsonMap::new().with(
                "evaluationTiming",
                Json::text(self.evaluation_timing.as_str()),
            ).with(
                "fillTiming",
                Json::text(self.fill_timing.as_str()),
            ).with(
                "fillPriceSource",
                Json::text(self.fill_price_source.as_str()),
            ).with(
                "orderType",
                Json::text(self.order_type.as_str()),
            ).with(
                "timeInForce",
                Json::text(self.time_in_force.as_str()),
            ).with(
                "fillPolicy",
                Json::text(self.fill_policy.as_str()),
            ).with(
                "rejectOnInsufficientCapital",
                Json::Bool(self.reject_on_insufficient_capital),
            ).with(
                "rejectOnInsufficientLiquidity",
                Json::Bool(self.reject_on_insufficient_liquidity),
            ).with(
                "staleDataPolicy",
                Json::text(self.stale_data_policy.as_str()),
            ).with(
                "missingDataPolicy",
                Json::text(self.missing_data_policy.as_str()),
            ),
        )
    }
}

/// A cost configuration as a value.
pub open spec fn costs_tree(x: CostConfiguration) -> JsonTree {
    JsonTree::Object(
        map![
            "fixedFeeMicros"@ => JsonTree::Int(x.fixed_fee_micros as int),
            "perUnitFeeMicros"@ => JsonTree::Int(x.per_unit_fee_micros as int),
            "notionalFeeBps"@ => JsonTree::Int(x.notional_fee_bps as int),
            "spreadBps"@ => JsonTree::Int(x.spread_bps as int),
            "slippageBps"@ => JsonTree::Int(x.slippage_bps as int)
        ],
    )
}

impl CostConfiguration {
    /// This as a value.
    pub fn value(&self) -> (r: Json)
        ensures
            r@ == costs_tree(*self),
    {
        Json::object(
            JsonMap::new().with(
                "fixedFeeMicros",
                Json::Int(self.fixed_fee_micros),
            ).with(
                "perUnitFeeMicros",
                Json::Int(self.per_unit_fee_micros),
            ).with(
                "notionalFeeBps",
                Json::Int(self.notional_fee_bps as i64),
            ).with(
                "spreadBps",
                Json::Int(self.spread_bps as i64),
            ).with(
                "slippageBps",
                Json::Int(self.slippage_bps as i64),
            ),
        )
    }
}

/// A liquidity configuration as a value.
pub open spec fn liquidity_tree(x: LiquidityConfiguration) -> JsonTree {
    JsonTree::Object(
        map![
            "maximumParticipationBps"@ => JsonTree::Int(x.maximum_participation_bps as int),
            "minimumVolumeMicros"@ => JsonTree::Int(x.minimum_volume_micros as int)
        ],
    )
}

impl LiquidityConfiguration {
    /// This as a value.
    pub fn value(&self) -> (r: Json)
        ensures
            r@ == liquidity_tree(*self),
    {
        Json::object(
            JsonMap::new().with(
                "maximumParticipationBps",
                Json::Int(self.maximum_participation_bps as i64),
            ).with(
                "minimumVolumeMicros",
                Json::Int(self.minimum_volume_micros),
            ),
        )
    }
}

/// An instrument configuration as a value.
pub open spec fn instrument_tree(x: InstrumentConfiguration) -> JsonTree {
    JsonTree::Object(
        map![
            "instrumentId"@ => JsonTree::Text(x.instrument_id@),
            "instrumentFamily"@ => JsonTree::Text(x.instrument_family@),
            "quantityUnit"@ => JsonTree::Text(x.quantity_unit@),
            "quantityScale"@ => JsonTree::Int(x.quantity_scale as int),
            "priceScale"@ => JsonTree::Int(x.price_scale as int),
            "contractMultiplierMicros"@ => JsonTree::Int(x.contract_multiplier_micros as int),
            "settlement"@ => JsonTree::Text(x.settlement@),
            "metadata"@ => JsonTree::Object(x.metadata@)
        ],
    )
}

impl InstrumentConfiguration {
    /// This as a value.
    pub fn value(&self) -> (r: Json)
        ensures
            r@ == instrument_tree(*self),
    {
        Json::object(
            JsonMap::new().with(
                "instrumentId",
                Json::text(self.instrument_id.as_str()),
            ).with(
                "instrumentFamily",
                Json::text(self.instrument_family.as_str()),
            ).with(
                "quantityUnit",
                Json::text(self.quantity_unit.as_str()),
            ).with(
                "quantityScale",
                Json::Int(self.quantity_scale as i64),
            ).with(
                "priceScale",
                Json::Int(self.price_scale as i64),
            ).with(
                "contractMultiplierMicros",
                Json::Int(self.contract_multiplier_micros),
            ).with(
                "settlement",
                Json::text(self.settlement.as_str()),
            ).with(
                "metadata",
                Json::Object(self.metadata.copy()),
            ),
        )
    }
}

/// A risk configuration as a value.
pub open spec fn risk_tree(x: BacktestRiskConfiguration) -> JsonTree {
    JsonTree::Object(
        map![
            "maximumPositionNotionalMicros"@ => JsonTree::Int(x.maximum_position_notional_micros as int),
            "maximumOrderQuantityMicros"@ => JsonTree::Int(x.maximum_order_quantity_micros as int),
            "maximumLossMicros"@ => JsonTree::Int(x.maximum_loss_micros as int),
            "maximumOpenPositions"@ => JsonTree::Int(x.maximum_open_positions as int)
        ],
    )
}

impl BacktestRiskConfiguration {
    /// This as a value.
    pub fn value(&self) -> (r: Json)
        ensures
            r@ == risk_tree(*self),
    {
        Json::object(
            JsonMap::new().with(
                "maximumPositionNotionalMicros",
                Json::Int(self.maximum_position_notional_micros),
            ).with(
                "maximumOrderQuantityMicros",
                Json::Int(self.maximum_order_quantity_micros),
            ).with(
                "maximumLossMicros",
                Json::Int(self.maximum_loss_micros),
            ).with(
                "maximumOpenPositions",
                Json::Int(self.maximum_open_positions as i64),
            ),
        )
    }
}

/// The instruments of a configuration as values.
pub open spec fn instrument_trees(list: Seq<InstrumentConfiguration>) -> JsonTree {
    JsonTree::Array(list.map_values(|x: InstrumentConfiguration| instrument_tree(x)))
}

fn instrument_values(list: &Vec<InstrumentConfiguration>) -> (r: Json)
    ensures
        r@ == instrument_trees(list@),
{
    let mut items: Vec<Json> = Vec::new();
    let mut i: usize = 0;
    while i < list.len()
        invariant
            i <= list.len(),
            items@.len() == i,
            forall|j: int| 0 <= j < i ==> #[trigger] items@[j]@ == instrument_tree(list@[j]),
        decreases list.len() - i,
    {
        items.push(list[i].value());
        i += 1;
    }
    proof {
        json::array_view_members(items@);
        assert(json::array_view(items@) =~= instrument_trees(list@)->Array_0);
    }
    Json::Array(items)
}

/// A configuration as a value.
pub open spec fn configuration_tree(c: BacktestConfiguration) -> JsonTree {
    JsonTree::Object(
        map![
            "schema"@ => JsonTree::Text(c.schema@),
            "strategy"@ => strategy_tree(c.strategy),
            "dataset"@ => dataset_tree(c.dataset),
            "capabilityGraph"@ => graph_tree(c.capability_graph),
            "capital"@ => capital_tree(c.capital),
            "execution"@ => execution_tree(c.execution),
            "costs"@ => costs_tree(c.costs),
            "liquidity"@ => liquidity_tree(c.liquidity),
            "instruments"@ => instrument_trees(c.instruments@),
            "risk"@ => risk_tree(c.risk),
            "endOfData"@ => JsonTree::Text(c.end_of_data.name()),
            "evaluatorVersion"@ => JsonTree::Text(c.evaluator_version@),
            "compilerVersion"@ => JsonTree::Text(c.compiler_version@),
            "pluginFingerprints"@ => JsonTree::Object(c.plugin_fingerprints@),
            "variableOverrides"@ => JsonTree::Object(c.variable_overrides@)
        ],
    )
}

/// The hash of a value in its canonical form, or an error code.
pub fn canonical_hash(value: &Json, error: &str) -> (r: Result<String, String>)
    ensures
        match (r, json::canonical_digest(value@)) {
            (Ok(hash), Some(expected)) => hash@ == expected,
            (Err(e), None) => e@ == error@,
            _ => false,
        },
{
    match json::canonical_hash(value) {
        Some(hash) => Ok(hash),
        None => Err(error.to_owned()),
    }
}

impl BacktestConfiguration {
    /// The configuration as a value.
    pub fn value(&self) -> (r: Json)
        ensures
            r@ == configuration_tree(*self),
    {
        let half = JsonMap::new().with("schema", Json::text(self.schema.as_str())).with(
            "strategy",
            self.strategy.value(),
        ).with("dataset", self.dataset.value()).with(
            "capabilityGraph",
            self.capability_graph.value(),
        ).with("capital", self.capital.value()).with("execution", self.execution.value()).with(
            "costs",
            self.costs.value(),
        );
        Json::object(
            half.with("liquidity", self.liquidity.value()).with(
                "instruments",
                instrument_values(&self.instruments),
            ).with("risk", self.risk.value()).with(
                "endOfData",
                Json::text(self.end_of_data.as_str()),
            ).with("evaluatorVersion", Json::text(self.evaluator_version.as_str())).with(
                "compilerVersion",
                Json::text(self.compiler_version.as_str()),
            ).with("pluginFingerprints", Json::Object(self.plugin_fingerprints.copy())).with(
                "variableOverrides",
                Json::Object(self.variable_overrides.copy()),
            ),
        )
    }

    /// The hash of the configuration.
    pub fn canonical_hash(&self) -> (r: Result<String, String>)
        ensures
            match (r, json::canonical_digest(configuration_tree(*self))) {
                (Ok(hash), Some(expected)) => hash@ == expected,
                (Err(e), None) => e@ == "backtest_config_serialization_failed"@,
                _ => false,
            },
    {
        let value = self.value();
        canonical_hash(&value, "backtest_config_serialization_failed")
    }
}

/// A diagnostic as a value.
pub open spec fn diagnostic_tree(d: DiagnosticView) -> JsonTree {
    JsonTree::Object(
        map![
            "code"@ => JsonTree::Text(d.code),
            "field"@ => json::text_or_null(d.field),
            "severity"@ => JsonTree::Text(d.severity.name()),
            "detail"@ => JsonTree::Text(d.detail)
        ],
    )
}

impl BacktestDiagnostic {
    /// The diagnostic as a value.
    pub fn value(&self) -> (r: Json)
        ensures
            r@ == diagnostic_tree(self@),
    {
        Json::object(
            JsonMap::new().with("code", Json::text(self.code.as_str())).with(
                "field",
                Json::optional_text(&self.field),
            ).with("severity", Json::text(self.severity.as_str())).with(
                "detail",
                Json::text(self.detail.as_str()),
            ),
        )
    }
}

/// Diagnostics as values.
pub open spec fn diagnostic_trees(list: Seq<DiagnosticView>) -> JsonTree {
    JsonTree::Array(list.map_values(|d: DiagnosticView| diagnostic_tree(d)))
}

/// Diagnostics as values.
pub fn diagnostic_values(list: &Vec<BacktestDiagnostic>) -> (r: Json)
    ensures
        r@ == diagnostic_trees(diagnostic_views(list@)),
{
    let mut items: Vec<Json> = Vec::new();
    let mut i: usize = 0;
    while i < list.len()
        invariant
            i <= list.len(),
            items@.len() == i,
            forall|j: int| 0 <= j < i ==> #[trigger] items@[j]@ == diagnostic_tree(list@[j]@),
        decreases list.len() - i,
    {
        items.push(list[i].value());
        i += 1;
    }
    proof {
        json::array_view_members(items@);
        assert(json::array_view(items@) =~= diagnostic_trees(diagnostic_views(list@))->Array_0);
    }
    Json::Array(items)
}

/// What a manifest records of a run before it starts.
#[derive(Debug)]
pub struct BacktestRunManifestContent {
    pub schema: String,
    pub run_id: String,
    pub request_hash: String,
    pub idempotency_key: String,
    pub configuration: BacktestConfiguration,
    pub validation: BacktestValidationReport,
    /// The authority of the request, as it is written down.
    pub authority: Json,
    pub client: String,
    pub purpose: String,
    pub evidence_refs: Vec<String>,
    pub first_attempt_id: String,
}

/// The content of a manifest as a value.
pub open spec fn manifest_tree(c: BacktestRunManifestContent) -> JsonTree {
    JsonTree::Object(
        map![
            "schema"@ => JsonTree::Text(c.schema@),
            "runId"@ => JsonTree::Text(c.run_id@),
            "requestHash"@ => JsonTree::Text(c.request_hash@),
            "idempotencyKey"@ => JsonTree::Text(c.idempotency_key@),
            "configuration"@ => configuration_tree(c.configuration),
            "validation"@ => JsonTree::Object(
                map![
                    "ready"@ => JsonTree::Bool(c.validation.ready),
                    "diagnostics"@ => diagnostic_trees(diagnostic_views(c.validation.diagnostics@))
                ],
            ),
            "authority"@ => c.authority@,
            "client"@ => JsonTree::Text(c.client@),
            "purpose"@ => JsonTree::Text(c.purpose@),
            "evidenceRefs"@ => json::text_array(text::texts(c.evidence_refs@)),
            "firstAttemptId"@ => JsonTree::Text(c.first_attempt_id@)
        ],
    )
}

impl BacktestRunManifestContent {
    /// The content as a value.
    pub fn value(&self) -> (r: Json)
        ensures
            r@ == manifest_tree(*self),
    {
        let validation = JsonMap::new().with("ready", Json::Bool(self.validation.ready)).with(
            "diagnostics",
            diagnostic_values(&self.validation.diagnostics),
        );
        Json::object(
            JsonMap::new().with("schema", Json::text(self.schema.as_str())).with(
                "runId",
                Json::text(self.run_id.as_str()),
            ).with("requestHash", Json::text(self.request_hash.as_str())).with(
                "idempotencyKey",
                Json::text(self.idempotency_key.as_str()),
            ).with("configuration", self.configuration.value()).with(
                "validation",
                Json::object(validation),
            ).with("authority", self.authority.copy()).with(
                "client",
                Json::text(self.client.as_str()),
            ).with("purpose", Json::text(self.purpose.as_str())).with(
                "evidenceRefs",
                Json::texts(&self.evidence_refs),
            ).with("firstAttemptId", Json::text(self.first_attempt_id.as_str())),
        )
    }

    /// Whether a manifest can be made of the content.
    pub open spec fn is_valid(self) -> bool {
        &&& self.schema@ == BACKTEST_MANIFEST_SCHEMA@
        &&& !text::is_blank(self.run_id@)
        &&& !text::is_blank(self.request_hash@)
        &&& !text::is_blank(self.idempotency_key@)
        &&& !text::is_blank(self.client@)
        &&& !text::is_blank(self.purpose@)
        &&& !text::is_blank(self.first_attempt_id@)
        &&& self.validation.ready
        &&& configuration_faults(self.configuration).len() == 0
    }

    fn valid(&self) -> (r: bool)
        ensures
            r == self.is_valid(),
    {
        same(self.schema.as_str(), BACKTEST_MANIFEST_SCHEMA) && !blank(self.run_id.as_str()) && !blank(
            self.request_hash.as_str(),
        ) && !blank(self.idempotency_key.as_str()) && !blank(self.client.as_str()) && !blank(
            self.purpose.as_str(),
        ) && !blank(self.first_attempt_id.as_str()) && self.validation.ready
            && self.configuration.validate().ready
    }
}

/// What seals a content: its hash, its reference and its length.
#[verifier::ext_equal]
pub struct SealView {
    pub hash: Seq<char>,
    pub reference: Seq<char>,
    pub byte_length: nat,
}

/// What seals a content with the given canonical form.
pub open spec fn seal_of(bytes: Seq<u8>, run_id: Seq<char>, what: Seq<char>) -> SealView {
    SealView {
        hash: digest::labelled_digest(bytes),
        reference: "tradeassembly://backtests/"@ + run_id + what,
        byte_length: bytes.len(),
    }
}

struct Seal {
    hash: String,
    reference: String,
    byte_length: u64,
}

fn seal(value: &Json, run_id: &str, what: &str) -> (r: Option<Seal>)
    ensures
        match (r, json::canonical_json_of(value@)) {
            (Some(s), Some(bytes)) => (SealView {
                hash: s.hash@,
                reference: s.reference@,
                byte_length: s.byte_length as nat,
            }) == seal_of(bytes, run_id@, what@),
            (None, None) => true,
            _ => false,
        },
{
    match canonical_bytes(value) {
        Some(bytes) => Some(
            Seal {
                hash: labelled_sha256(bytes.as_slice()),
                reference: join3("tradeassembly://backtests/", run_id, what),
                byte_length: bytes.len() as u64,
            },
        ),
        None => None,
    }
}

/// A manifest: the sealed record of what a run is to do.
#[derive(Debug)]
pub struct BacktestRunManifest {
    pub manifest_hash: String,
    pub manifest_ref: String,
    pub byte_length: u64,
    pub created_at_ms: i64,
    pub content: BacktestRunManifestContent,
}

impl BacktestRunManifest {
    /// What seals the manifest.
    pub open spec fn seal(self) -> SealView {
        SealView {
            hash: self.manifest_hash@,
            reference: self.manifest_ref@,
            byte_length: self.byte_length as nat,
        }
    }
}

/// What seals the content of a manifest, given its canonical form, or why it cannot be
/// sealed.
pub open spec fn manifest_seal(c: BacktestRunManifestContent, bytes: Option<Seq<u8>>) -> Result<
    SealView,
    Seq<char>,
> {
    if !c.is_valid() {
        Err("backtest_manifest_invalid"@)
    } else {
        match bytes {
            None => Err("backtest_manifest_serialization_failed"@),
            Some(b) => Ok(seal_of(b, c.run_id@, "/manifest"@)),
        }
    }
}

/// Whether a manifest is intact, given the canonical form of its content.
pub open spec fn manifest_is_intact(m: BacktestRunManifest, bytes: Option<Seq<u8>>) -> bool {
    manifest_seal(m.content, bytes) == Ok::<SealView, Seq<char>>(m.seal())
}

impl BacktestRunManifest {
    /// Seals the content of a manifest.
    pub fn build(content: BacktestRunManifestContent, created_at_ms: i64) -> (r: Result<
        BacktestRunManifest,
        String,
    >)
        ensures
            match (
                r,
                manifest_seal(content, json::canonical_json_of(manifest_tree(content))),
            ) {
                (Ok(m), Ok(s)) => m.content == content && m.created_at_ms == created_at_ms && m.seal()
                    == s,
                (Err(e), Err(code)) => e@ == code,
                _ => false,
            },
    {
        if !content.valid() {
            return Err("backtest_manifest_invalid".to_owned());
        }
        let value = content.value();
        match seal(&value, content.run_id.as_str(), "/manifest") {
            Some(s) => Ok(
                BacktestRunManifest {
                    manifest_hash: s.hash,
                    manifest_ref: s.reference,
                    byte_length: s.byte_length,
                    created_at_ms,
                    content,
                },
            ),
            None => Err("backtest_manifest_serialization_failed".to_owned()),
        }
    }

    /// Checks that the manifest is what was sealed.
    pub fn verify(&self) -> (r: Result<(), String>)
        ensures
            match r {
                Ok(_) => manifest_is_intact(
                    *self,
                    json::canonical_json_of(manifest_tree(self.content)),
                ),
                Err(e) => !manifest_is_intact(
                    *self,
                    json::canonical_json_of(manifest_tree(self.content)),
                ) && e@ == "backtest_manifest_integrity_failed"@,
            },
    {
        if !self.content.valid() {
            return Err("backtest_manifest_integrity_failed".to_owned());
        }
        let value = self.content.value();
        match seal(&value, self.content.run_id.as_str(), "/manifest") {
            Some(s) => if same(s.hash.as_str(), self.manifest_hash.as_str()) && same(
                s.reference.as_str(),
                self.manifest_ref.as_str(),
            ) && s.byte_length == self.byte_length {
                Ok(())
            } else {
                Err("backtest_manifest_integrity_failed".to_owned())
            },
            None => Err("backtest_manifest_integrity_failed".to_owned()),
        }
    }
}

/// How far an attempt has come.
#[derive(Clone, Copy, Debug, PartialEq, Eq, Structural)]
pub enum BacktestAttemptState {
    Queued,
    Running,
    Completed,
    Failed,
    Canceled,
}

/// An attempt at a run.
#[derive(Debug)]
pub struct BacktestAttempt {
    pub schema: String,
    pub attempt_id: String,
    pub run_id: String,
    pub ordinal: u32,
    pub state: BacktestAttemptState,
    pub stage: String,
    pub progress_bps: u32,
    pub queue_message_id: Option<String>,
    pub lease_owner: Option<String>,
    pub fencing_token: i64,
    pub created_at_ms: i64,
    pub updated_at_ms: i64,
    pub failure_code: Option<String>,
    pub diagnostics: Vec<BacktestDiagnostic>,
}

/// A step of a run from one state to another, chained to the step before by its hash.
#[derive(Debug)]
pub struct BacktestLifecycleEvent {
    pub event_id: String,
    pub run_id: String,
    pub sequence: i64,
    pub event_type: String,
    /// The name of the state before the step.
    pub from_state: String,
    /// The name of the state after the step.
    pub to_state: String,
    pub attempt_id: String,
    pub occurred_at_ms: i64,
    pub previous_event_hash: Option<String>,
    pub event_hash: String,
    pub detail: String,
}

/// What came out of a run.
#[derive(Debug)]
pub struct BacktestResultContent {
    pub schema: String,
    pub run_id: String,
    pub manifest_hash: String,
    pub evaluator_version: String,
    pub compiler_version: String,
    pub decisions: Vec<Json>,
    pub orders: Vec<Json>,
    pub fills: Vec<Json>,
    pub positions: Vec<Json>,
    pub ledger: Vec<Json>,
    pub accounting: Json,
    pub diagnostics: Vec<BacktestDiagnostic>,
}

/// A list of values as one.
pub open spec fn values_tree(list: Seq<Json>) -> JsonTree {
    JsonTree::Array(list.map_values(|v: Json| v@))
}

/// A list of values as one.
pub fn copy_values(list: &Vec<Json>) -> (r: Json)
    ensures
        r@ == values_tree(list@),
{
    let mut items: Vec<Json> = Vec::new();
    let mut i: usize = 0;
    while i < list.len()
        invariant
            i <= list.len(),
            items@.len() == i,
            forall|j: int| 0 <= j < i ==> #[trigger] items@[j]@ == list@[j]@,
        decreases list.len() - i,
    {
        items.push(list[i].copy());
        i += 1;
    }
    proof {
        json::array_view_members(items@);
        assert(json::array_view(items@) =~= values_tree(list@)->Array_0);
    }
    Json::Array(items)
}

/// The content of a result as a value.
pub open spec fn result_tree(c: BacktestResultContent) -> JsonTree {
    JsonTree::Object(
        map![
            "schema"@ => JsonTree::Text(c.schema@),
            "runId"@ => JsonTree::Text(c.run_id@),
            "manifestHash"@ => JsonTree::Text(c.manifest_hash@),
            "evaluatorVersion"@ => JsonTree::Text(c.evaluator_version@),
            "compilerVersion"@ => JsonTree::Text(c.compiler_version@),
            "decisions"@ => values_tree(c.decisions@),
            "orders"@ => values_tree(c.orders@),
            "fills"@ => values_tree(c.fills@),
            "positions"@ => values_tree(c.positions@),
            "ledger"@ => values_tree(c.ledger@),
            "accounting"@ => c.accounting@,
            "diagnostics"@ => diagnostic_trees(diagnostic_views(c.diagnostics@))
        ],
    )
}

impl BacktestResultContent {
    /// The content as a value.
    pub fn value(&self) -> (r: Json)
        ensures
            r@ == result_tree(*self),
    {
        Json::object(
            JsonMap::new().with("schema", Json::text(self.schema.as_str())).with(
                "runId",
                Json::text(self.run_id.as_str()),
            ).with("manifestHash", Json::text(self.manifest_hash.as_str())).with(
                "evaluatorVersion",
                Json::text(self.evaluator_version.as_str()),
            ).with("compilerVersion", Json::text(self.compiler_version.as_str())).with(
                "decisions",
                copy_values(&self.decisions),
            ).with("orders", copy_values(&self.orders)).with("fills", copy_values(&self.fills)).with(
                "positions",
                copy_values(&self.positions),
            ).with("ledger", copy_values(&self.ledger)).with("accounting", self.accounting.copy()).with(
                "diagnostics",
                diagnostic_values(&self.diagnostics),
            ),
        )
    }

    /// Whether a result can be made of the content.
    pub open spec fn is_valid(self) -> bool {
        &&& self.schema@ == BACKTEST_RESULT_SCHEMA@
        &&& !text::is_blank(self.run_id@)
        &&& !text::is_blank(self.manifest_hash@)
        &&& !text::is_blank(self.evaluator_version@)
        &&& !text::is_blank(self.compiler_version@)
    }

    fn valid(&self) -> (r: bool)
        ensures
            r == self.is_valid(),
    {
        same(self.schema.as_str(), BACKTEST_RESULT_SCHEMA) && !blank(self.run_id.as_str()) && !blank(
            self.manifest_hash.as_str(),
        ) && !blank(self.evaluator_version.as_str()) && !blank(self.compiler_version.as_str())
    }
}

/// A result: the sealed record of what came out of a run.
#[derive(Debug)]
pub struct BacktestResult {
    pub result_hash: String,
    pub result_ref: String,
    pub byte_length: u64,
    pub created_at_ms: i64,
    pub content: BacktestResultContent,
}

impl BacktestResult {
    /// What seals the result.
    pub open spec fn seal(self) -> SealView {
        SealView {
            hash: self.result_hash@,
            reference: self.result_ref@,
            byte_length: self.byte_length as nat,
        }
    }
}

/// What seals the content of a result, given its canonical form, or why it cannot be
/// sealed.
pub open spec fn result_seal(c: BacktestResultContent, bytes: Option<Seq<u8>>) -> Result<
    SealView,
    Seq<char>,
> {
    if !c.is_valid() {
        Err("backtest_result_invalid"@)
    } else {
        match bytes {
            None => Err("backtest_result_serialization_failed"@),
            Some(b) => Ok(seal_of(b, c.run_id@, "/result"@)),
        }
    }
}

/// Whether a result is intact, given the canonical form of its content.
pub open spec fn result_is_intact(x: BacktestResult, bytes: Option<Seq<u8>>) -> bool {
    result_seal(x.content, bytes) == Ok::<SealView, Seq<char>>(x.seal())
}

impl BacktestResult {
    /// Seals the content of a result.
    pub fn build(content: BacktestResultContent, created_at_ms: i64) -> (r: Result<
        BacktestResult,
        String,
    >)
        ensures
            match (r, result_seal(content, json::canonical_json_of(result_tree(content)))) {
                (Ok(x), Ok(s)) => x.content == content && x.created_at_ms == created_at_ms && x.seal()
                    == s,
                (Err(e), Err(code)) => e@ == code,
                _ => false,
            },
    {
        if !content.valid() {
            return Err("backtest_result_invalid".to_owned());
        }
        let value = content.value();
        match seal(&value, content.run_id.as_str(), "/result") {
            Some(s) => Ok(
                BacktestResult {
                    result_hash: s.hash,
                    result_ref: s.reference,
                    byte_length: s.byte_length,
                    created_at_ms,
                    content,
                },
            ),
            None => Err("backtest_result_serialization_failed".to_owned()),
        }
    }

    /// Checks that the result is what was sealed.
    pub fn verify(&self) -> (r: Result<(), String>)
        ensures
            match r {
                Ok(_) => result_is_intact(
                    *self,
                    json::canonical_json_of(result_tree(self.content)),
                ),
                Err(e) => !result_is_intact(
                    *self,
                    json::canonical_json_of(result_tree(self.content)),
                ) && e@ == "backtest_result_integrity_failed"@,
            },
    {
        if !self.content.valid() {
            return Err("backtest_result_integrity_failed".to_owned());
        }
        let value = self.content.value();
        match seal(&value, self.content.run_id.as_str(), "/result") {
            Some(s) => if same(s.hash.as_str(), self.result_hash.as_str()) && same(
                s.reference.as_str(),
                self.result_ref.as_str(),
            ) && s.byte_length == self.byte_length {
                Ok(())
            } else {
                Err("backtest_result_integrity_failed".to_owned())
            },
            None => Err("backtest_result_integrity_failed".to_owned()),
        }
    }
}

/// A run, its steps so far and what came out of it.
#[derive(Debug)]
pub struct BacktestRunRecord {
    pub schema: String,
    pub run_id: String,
    pub manifest_hash: String,
    pub request_hash: String,
    pub idempotency_key: String,
    /// The name of the state that the run is in.
    pub state: String,
    pub sequence: i64,
    pub current_attempt_id: String,
    pub fencing_token: i64,
    pub result_hash: Option<String>,
    pub result: Option<BacktestResult>,
    pub failure_code: Option<String>,
    pub events: Vec<BacktestLifecycleEvent>,
    pub created_at_ms: i64,
    pub updated_at_ms: i64,
}

/// A manifest that was built verifies: what a build seals, a later check finds intact.
pub proof fn built_manifest_verifies(m: BacktestRunManifest, bytes: Option<Seq<u8>>)
    requires
        manifest_seal(m.content, bytes) == Ok::<SealView, Seq<char>>(m.seal()),
    ensures
        manifest_is_intact(m, bytes),
        m.content.is_valid(),
{
}

/// Two manifests with the same content have the same hash, whenever they were made.
pub proof fn manifest_hash_is_of_the_content(a: BacktestRunManifest, b: BacktestRunManifest)
    requires
        a.content == b.content,
        manifest_is_intact(a, json::canonical_json_of(manifest_tree(a.content))),
        manifest_is_intact(b, json::canonical_json_of(manifest_tree(b.content))),
    ensures
        a.seal() == b.seal(),
{
}

/// What is sealed has a configuration in which there is nothing to correct.
pub proof fn intact_manifest_has_a_ready_configuration(m: BacktestRunManifest)
    requires
        manifest_is_intact(m, json::canonical_json_of(manifest_tree(m.content))),
    ensures
        configuration_faults(m.content.configuration).len() == 0,
        !capital_is_invalid(m.content.configuration),
        !costs_are_invalid(m.content.configuration),
{
    let c = m.content.configuration;
    if capital_is_invalid(c) {
        assert(bound_faults(c).len() > 0);
    }
    if costs_are_invalid(c) {
        assert(bound_faults(c).len() > 0);
    }
}

} // verus!

//! Deterministic orchestration of a backtest over immutable inputs: what is checked
//! before a strategy runs, and what is made of what it did.

use vstd::prelude::*;

use crate::backtest_accounting;
use crate::backtest_accounting::{
    account, AccountingError, AccountingFill, AccountingInput, AccountingResult, FillSide, KernelFill,
    LedgerEntry, LedgerEntryKind, OrderSide, Position, PositionLot,
};
use crate::backtest_contracts;
use crate::backtest_contracts::{
    AccountModel, BacktestConfiguration, BacktestDiagnostic, BacktestResult, BacktestResultContent,
    BacktestRunManifest, DatasetTimeSlice, DiagnosticSeverity, EndOfDataPolicy, FillPolicy, FillTiming,
    PriceSource, BACKTEST_RESULT_SCHEMA,
};
use crate::json;
use crate::json::{Json, JsonMap, JsonTree};
use crate::text;
use crate::text::{decimal_text, join2, join3, join5, same, same_as, same_list, signed_decimal_text};
use crate::text_map;
use crate::text_map::TextMap;

pub mod bars;
pub mod outcome;

verus! {

/// One whole unit, in millionths.
pub const UNIT: i64 = 1_000_000;

/// The form in which a text is shown to a developer: quoted and escaped.
pub uninterp spec fn debug_text_of(text: Seq<char>) -> Seq<char>;

/// Calls the `Debug` formatting of `str`: the result depends on the text alone.
#[verifier::external_body]
fn debug_text(target: &str) -> (r: String)
    ensures
        r@ == debug_text_of(target@),
{
    format!("{:?}", target)
}

/// A text in small letters, by the rules of Unicode.
pub uninterp spec fn lowercase_of(text: Seq<char>) -> Seq<char>;

/// Calls `str::to_lowercase`: the result depends on the text alone.
#[verifier::external_body]
fn lowercase(target: &str) -> (r: String)
    ensures
        r@ == lowercase_of(target@),
{
    target.to_lowercase()
}

/// What the engine reads of the observation of one bar, in millionths; nothing where a
/// number cannot be held so.
#[derive(Debug)]
pub struct BarMicros {
    pub open: Option<i64>,
    pub close: Option<i64>,
    pub volume: Option<i64>,
}

/// One observation of a dataset; no bar where it is an observation of another kind.
#[derive(Debug)]
pub struct ObservedRow {
    pub instrument_id: String,
    pub timestamp: String,
    pub bar: Option<BarMicros>,
}

/// What a snapshot says of the dataset that it holds.
#[derive(Debug)]
pub struct DatasetDescription {
    pub dataset_id: String,
    pub snapshot_ref: String,
    pub content_hash: String,
    pub schema: String,
    pub strategy_id: String,
    pub plugin_ref: String,
    pub plugin_instance_ref: String,
    pub operation_id: String,
    pub plugin_manifest_fingerprint: String,
    pub capability_graph_revision_id: String,
    pub capability_graph_fingerprint: String,
    pub source_class: Option<String>,
    pub instruments: Vec<String>,
    pub time_slice: DatasetTimeSlice,
    pub granularity: String,
    pub calendar: String,
    pub timezone: String,
    pub price_adjustment: String,
    /// Whether the dataset is one of bars.
    pub bars: bool,
}

/// What the engine reads of a snapshot of a dataset.
#[derive(Debug)]
pub struct DatasetSnapshot {
    pub description: DatasetDescription,
    pub observations: Vec<ObservedRow>,
    /// What the snapshot's check of its own integrity found, if it found anything.
    pub fault: Option<String>,
}

/// Whether a dataset is the one that a configuration names.
pub open spec fn dataset_agrees(d: DatasetDescription, c: BacktestConfiguration) -> bool {
    let b = c.dataset;
    &&& d.dataset_id@ == b.dataset_id@
    &&& d.snapshot_ref@ == b.snapshot_ref@
    &&& d.content_hash@ == b.content_hash@
    &&& d.schema@ == b.schema@
    &&& d.strategy_id@ == c.strategy.strategy_id@
    &&& d.plugin_ref@ == b.source_plugin_ref@
    &&& d.plugin_instance_ref@ == b.source_plugin_instance_ref@
    &&& d.operation_id@ == b.source_operation_id@
    &&& d.plugin_manifest_fingerprint@ == b.source_manifest_fingerprint@
    &&& d.capability_graph_revision_id@ == b.capability_graph_revision_id@
    &&& d.capability_graph_fingerprint@ == b.capability_graph_fingerprint@
    &&& text::option_text(d.source_class) == Some(b.source_class@)
    &&& text::texts(d.instruments@) == text::texts(b.instruments@)
    &&& d.time_slice.start@ == b.selected_time_slice.start@
    &&& d.time_slice.end@ == b.selected_time_slice.end@
    &&& d.granularity@ == b.granularity@
    &&& d.calendar@ == b.calendar@
    &&& d.timezone@ == b.timezone@
    &&& d.price_adjustment@ == b.corporate_action_policy@
    &&& d.bars
}

/// Checks that a dataset is the one that a configuration names.
pub fn verify_dataset(snapshot: &DatasetDescription, configuration: &BacktestConfiguration) -> (r:
    Result<(), String>)
    ensures
        match r {
            Ok(_) => dataset_agrees(*snapshot, *configuration),
            Err(e) => !dataset_agrees(*snapshot, *configuration) && e@
                == "backtest_dataset_integrity_failed"@,
        },
{
    let b = &configuration.dataset;
    let identity: bool = same(snapshot.dataset_id.as_str(), b.dataset_id.as_str()) && same(
        snapshot.snapshot_ref.as_str(),
        b.snapshot_ref.as_str(),
    ) && same(snapshot.content_hash.as_str(), b.content_hash.as_str()) && same(
        snapshot.schema.as_str(),
        b.schema.as_str(),
    ) && same(
        snapshot.strategy_id.as_str(),
        configuration.strategy.strategy_id.as_str(),
    );
    let source: bool = same(snapshot.plugin_ref.as_str(), b.source_plugin_ref.as_str()) && same(
        snapshot.plugin_instance_ref.as_str(),
        b.source_plugin_instance_ref.as_str(),
    ) && same(snapshot.operation_id.as_str(), b.source_operation_id.as_str()) && same(
        snapshot.plugin_manifest_fingerprint.as_str(),
        b.source_manifest_fingerprint.as_str(),
    ) && same(
        snapshot.capability_graph_revision_id.as_str(),
        b.capability_graph_revision_id.as_str(),
    ) && same(
        snapshot.capability_graph_fingerprint.as_str(),
        b.capability_graph_fingerprint.as_str(),
    ) && same_as(&snapshot.source_class, b.source_class.as_str());
    let extent: bool = same_list(&snapshot.instruments, &b.instruments) && same(
        snapshot.time_slice.start.as_str(),
        b.selected_time_slice.start.as_str(),
    ) && same(snapshot.time_slice.end.as_str(), b.selected_time_slice.end.as_str()) && same(
        snapshot.granularity.as_str(),
        b.granularity.as_str(),
    ) && same(snapshot.calendar.as_str(), b.calendar.as_str()) && same(
        snapshot.timezone.as_str(),
        b.timezone.as_str(),
    ) && same(snapshot.price_adjustment.as_str(), b.corporate_action_policy.as_str());
    if identity && source && extent && snapshot.bars {
        Ok(())
    } else {
        Err("backtest_dataset_integrity_failed".to_owned())
    }
}

/// The strategy that a version belongs to.
pub open spec fn version_strategy(version: JsonTree) -> Option<Seq<char>> {
    match json::member(version, "strategyId"@) {
        Some(JsonTree::Text(t)) => Some(t),
        Some(_) => None,
        None => json::text_member(version, "strategy_id"@),
    }
}

/// Whether a version of a strategy is the one that a configuration names, given the
/// hash of its specification.
pub open spec fn version_agrees(
    version: JsonTree,
    spec_hash: Seq<char>,
    c: BacktestConfiguration,
) -> bool {
    &&& json::text_member(version, "id"@) == Some(c.strategy.strategy_version_id@)
    &&& version_strategy(version) == Some(c.strategy.strategy_id@)
    &&& json::text_member(version, "specHash"@) == Some(c.strategy.strategy_spec_hash@)
    &&& spec_hash == c.strategy.strategy_spec_hash@
}

/// Why a version of a strategy cannot be run, if it cannot, given the hash of its
/// specification.
pub open spec fn version_fault(
    version: JsonTree,
    spec_hash: Option<Seq<char>>,
    c: BacktestConfiguration,
) -> Option<Seq<char>> {
    if json::member(version, "spec"@) is None {
        Some("backtest_strategy_version_required"@)
    } else {
        match spec_hash {
            None => Some("backtest_strategy_hash_failed"@),
            Some(hash) => if version_agrees(version, hash, c) {
                None
            } else {
                Some("backtest_strategy_integrity_failed"@)
            },
        }
    }
}

/// The hash of the specification of a version.
pub open spec fn spec_digest(version: JsonTree) -> Option<Seq<char>> {
    match json::member(version, "spec"@) {
        Some(tree) => json::canonical_digest(tree),
        None => None,
    }
}

fn named_strategy(version: &Json) -> (r: Option<String>)
    ensures
        text::option_text(r) == version_strategy(version@),
{
    match version.field("strategyId") {
        Some(Json::Text(t)) => Some(t.clone()),
        Some(_) => None,
        None => version.text_field("strategy_id"),
    }
}

/// Checks that a version of a strategy is the one that a configuration names, given the
/// hash of its specification.
pub fn check_version(version: &Json, spec_hash: &Option<String>, configuration: &BacktestConfiguration) -> (r:
    Result<(), String>)
    ensures
        match (r, version_fault(version@, text::option_text(*spec_hash), *configuration)) {
            (Ok(_), None) => true,
            (Err(e), Some(code)) => e@ == code,
            _ => false,
        },
{
    if version.field("spec").is_none() {
        return Err("backtest_strategy_version_required".to_owned());
    }
    let hash = match spec_hash {
        Some(h) => h,
        None => {
            return Err("backtest_strategy_hash_failed".to_owned());
        },
    };
    let b = &configuration.strategy;
    let strategy = named_strategy(version);
    if version.field_is("id", b.strategy_version_id.as_str()) && same_as(
        &strategy,
        b.strategy_id.as_str(),
    ) && version.field_is("specHash", b.strategy_spec_hash.as_str()) && same(
        hash.as_str(),
        b.strategy_spec_hash.as_str(),
    ) {
        Ok(())
    } else {
        Err("backtest_strategy_integrity_failed".to_owned())
    }
}

/// Checks that a version of a strategy is the one that a configuration names.
pub fn verify_strategy_version(version: &Json, configuration: &BacktestConfiguration) -> (r: Result<
    (),
    String,
>)
    ensures
        match (r, version_fault(version@, spec_digest(version@), *configuration)) {
            (Ok(_), None) => true,
            (Err(e), Some(code)) => e@ == code,
            _ => false,
        },
{
    let hash: Option<String> = match version.field("spec") {
        Some(spec) => json::canonical_hash(spec),
        None => None,
    };
    check_version(version, &hash, configuration)
}

/// Whether the engine can run a configuration: one instrument in a cash account,
/// without leverage.
pub open spec fn is_supported(c: BacktestConfiguration) -> bool {
    &&& c.capital.account_model == AccountModel::Cash
    &&& c.capital.maximum_leverage_micros == UNIT
    &&& c.execution.reject_on_insufficient_capital
    &&& c.execution.reject_on_insufficient_liquidity
    &&& c.instruments@.len() == 1
    &&& c.risk.maximum_open_positions == 1
    &&& c.risk.maximum_loss_micros >= c.capital.starting_cash_micros
    &&& c.instruments@[0].contract_multiplier_micros == UNIT
}

/// Checks that the engine can run a configuration.
pub fn check_supported(c: &BacktestConfiguration) -> (r: Result<(), String>)
    ensures
        match r {
            Ok(_) => is_supported(*c),
            Err(e) => !is_supported(*c) && e@ == "backtest_account_model_unsupported"@,
        },
{
    if c.capital.account_model == AccountModel::Cash && c.capital.maximum_leverage_micros == UNIT
        && c.execution.reject_on_insufficient_capital && c.execution.reject_on_insufficient_liquidity
        && c.instruments.len() == 1 && c.risk.maximum_open_positions == 1
        && c.risk.maximum_loss_micros >= c.capital.starting_cash_micros
        && c.instruments[0].contract_multiplier_micros == UNIT {
        Ok(())
    } else {
        Err("backtest_account_model_unsupported".to_owned())
    }
}

/// Why a run cannot start, if it cannot.
pub open spec fn start_fault(
    manifest_intact: bool,
    snapshot_fault: Option<Seq<char>>,
    version: Option<Seq<char>>,
    dataset_agrees: bool,
    supported: bool,
) -> Option<Seq<char>> {
    if !manifest_intact {
        Some("backtest_manifest_integrity_failed"@)
    } else if snapshot_fault is Some {
        snapshot_fault
    } else if version is Some {
        version
    } else if !dataset_agrees {
        Some("backtest_dataset_integrity_failed"@)
    } else if !supported {
        Some("backtest_account_model_unsupported"@)
    } else {
        None
    }
}

/// Why a run of the given inputs cannot start, if it cannot.
pub open spec fn input_fault(
    manifest: BacktestRunManifest,
    strategy_version: JsonTree,
    snapshot: DatasetSnapshot,
) -> Option<Seq<char>> {
    let configuration = manifest.content.configuration;
    start_fault(
        backtest_contracts::manifest_is_intact(
            manifest,
            json::canonical_json_of(backtest_contracts::manifest_tree(manifest.content)),
        ),
        text::option_text(snapshot.fault),
        version_fault(strategy_version, spec_digest(strategy_version), configuration),
        dataset_agrees(snapshot.description, configuration),
        is_supported(configuration),
    )
}

/// Checks that a run can start: its inputs are intact, they are the ones that were
/// asked for, and the engine can run what was asked for.
pub fn check_inputs(
    manifest: &BacktestRunManifest,
    strategy_version: &Json,
    snapshot: &DatasetSnapshot,
) -> (r: Result<(), String>)
    ensures
        match (r, input_fault(*manifest, strategy_version@, *snapshot)) {
            (Ok(_), None) => true,
            (Err(e), Some(code)) => e@ == code,
            _ => false,
        },
{
    if let Err(e) = manifest.verify() {
        return Err(e);
    }
    if let Some(fault) = &snapshot.fault {
        return Err(fault.clone());
    }
    let configuration = &manifest.content.configuration;
    if let Err(e) = verify_strategy_version(strategy_version, configuration) {
        return Err(e);
    }
    if let Err(e) = verify_dataset(&snapshot.description, configuration) {
        return Err(e);
    }
    check_supported(configuration)
}

/// One bar as the strategy kernel sees it.
#[derive(Debug)]
pub struct MarketObservation {
    pub bar_index: u64,
    pub symbol: String,
    pub open: i64,
    pub close: i64,
    pub volume: i64,
}

/// What a [`MarketObservation`] says.
#[verifier::ext_equal]
pub struct ObservationView {
    pub bar_index: int,
    pub symbol: Seq<char>,
    pub open: int,
    pub close: int,
    pub volume: int,
}

impl View for MarketObservation {
    type V = ObservationView;

    open spec fn view(&self) -> ObservationView {
        ObservationView {
            bar_index: self.bar_index as int,
            symbol: self.symbol@,
            open: self.open as int,
            close: self.close as int,
            volume: self.volume as int,
        }
    }
}

/// What a list of bars says.
pub open spec fn observation_views(list: Seq<MarketObservation>) -> Seq<ObservationView> {
    list.map_values(|o: MarketObservation| o@)
}

/// A bar as the strategy kernel sees it: less than the least volume counts as none.
pub open spec fn normalized(row: ObservedRow, index: int, minimum_volume: i64) -> Result<
    ObservationView,
    Seq<char>,
> {
    match row.bar {
        None => Err("backtest_data_kind_unsupported"@),
        Some(bar) => match (bar.open, bar.close, bar.volume) {
            (Some(open), Some(close), Some(volume)) => Ok(
                ObservationView {
                    bar_index: index,
                    symbol: row.instrument_id@,
                    open: open as int,
                    close: close as int,
                    volume: if volume < minimum_volume {
                        0
                    } else {
                        volume as int
                    },
                },
            ),
            _ => Err("backtest_data_invalid"@),
        },
    }
}

/// Bars as the strategy kernel sees them, up to the first that it cannot take.
pub open spec fn normalized_rows(rows: Seq<ObservedRow>, minimum_volume: i64) -> Result<
    Seq<ObservationView>,
    Seq<char>,
>
    decreases rows.len(),
{
    if rows.len() == 0 {
        Ok(Seq::empty())
    } else {
        match normalized_rows(rows.drop_last(), minimum_volume) {
            Err(code) => Err(code),
            Ok(list) => match normalized(rows.last(), rows.len() - 1, minimum_volume) {
                Err(code) => Err(code),
                Ok(o) => Ok(list.push(o)),
            },
        }
    }
}

proof fn row_fault_stays(rows: Seq<ObservedRow>, minimum_volume: i64, n: int)
    requires
        0 <= n <= rows.len(),
        normalized_rows(rows.take(n), minimum_volume) is Err,
    ensures
        normalized_rows(rows, minimum_volume) == normalized_rows(rows.take(n), minimum_volume),
    decreases rows.len() - n,
{
    if n < rows.len() {
        assert(rows.take(n + 1).drop_last() =~= rows.take(n));
        row_fault_stays(rows, minimum_volume, n + 1);
    } else {
        assert(rows.take(n) =~= rows);
    }
}

/// Makes the bars that the strategy kernel sees of the observations of a dataset.
pub fn normalized_bars(rows: &Vec<ObservedRow>, minimum_volume_micros: i64) -> (r: Result<
    Vec<MarketObservation>,
    String,
>)
    ensures
        match (r, normalized_rows(rows@, minimum_volume_micros)) {
            (Ok(list), Ok(shown)) => observation_views(list@) == shown,
            (Err(e), Err(code)) => e@ == code,
            _ => false,
        },
{
    let mut out: Vec<MarketObservation> = Vec::new();
    let mut i: usize = 0;
    proof {
        assert(rows@.take(0) =~= Seq::empty());
        assert(observation_views(out@) =~= Seq::empty());
    }
    while i < rows.len()
        invariant
            i <= rows.len(),
            normalized_rows(rows@.take(i as int), minimum_volume_micros) == Ok::<
                Seq<ObservationView>,
                Seq<char>,
            >(observation_views(out@)),
        decreases rows.len() - i,
    {
        proof {
            assert(rows@.take(i + 1).drop_last() =~= rows@.take(i as int));
            assert(rows@.take(i + 1).last() == rows@[i as int]);
        }
        match &rows[i].bar {
            None => {
                proof {
                    row_fault_stays(rows@, minimum_volume_micros, i + 1);
                }
                return Err("backtest_data_kind_unsupported".to_owned());
            },
            Some(bar) => match (bar.open, bar.close, bar.volume) {
                (Some(open), Some(close), Some(volume)) => {
                    let ghost before = observation_views(out@);
                    let item = MarketObservation {
                        bar_index: i as u64,
                        symbol: rows[i].instrument_id.clone(),
                        open,
                        close,
                        volume: if volume < minimum_volume_micros {
                            0
                        } else {
                            volume
                        },
                    };
                    out.push(item);
                    assert(observation_views(out@) =~= before.push(item@));
                },
                _ => {
                    proof {
                        row_fault_stays(rows@, minimum_volume_micros, i + 1);
                    }
                    return Err("backtest_data_invalid".to_owned());
                },
            },
        }
        i += 1;
    }
    assert(rows@.take(rows@.len() as int) =~= rows@);
    Ok(out)
}

/// When and at which price an order is executed.
#[derive(Clone, Copy, Debug, PartialEq, Eq, Structural)]
pub enum ExecutionTiming {
    SameBarOpen,
    SameBarClose,
    NextBarOpen,
    NextBarClose,
}

/// Whether an order may be filled in part.
#[derive(Clone, Copy, Debug, PartialEq, Eq, Structural)]
pub enum PartialFillPolicy {
    Reject,
    Allow,
}

/// How the strategy kernel simulates.
#[derive(Clone, Copy, Debug, PartialEq, Eq, Structural)]
pub struct SimulationConfig {
    pub timing: ExecutionTiming,
    pub fee_per_order_micros: i64,
    pub fee_per_unit_micros: i64,
    pub notional_fee_bps: i64,
    pub spread_bps: i64,
    pub slippage_bps: i64,
    pub participation_bps: i64,
    pub partial_fill_policy: PartialFillPolicy,
    pub starting_cash_micros: i64,
    pub maximum_order_quantity_micros: i64,
    pub maximum_position_notional_micros: i64,
}

/// How the strategy kernel simulates what a configuration asks for.
pub open spec fn simulation_of(c: BacktestConfiguration) -> SimulationConfig {
    SimulationConfig {
        timing: match (c.execution.fill_timing, c.execution.fill_price_source) {
            (FillTiming::SameBar, PriceSource::Open) => ExecutionTiming::SameBarOpen,
            (FillTiming::SameBar, PriceSource::Close) => ExecutionTiming::SameBarClose,
            (FillTiming::NextBar, PriceSource::Open) => ExecutionTiming::NextBarOpen,
            (FillTiming::NextBar, PriceSource::Close) => ExecutionTiming::NextBarClose,
        },
        fee_per_order_micros: c.costs.fixed_fee_micros,
        fee_per_unit_micros: c.costs.per_unit_fee_micros,
        notional_fee_bps: c.costs.notional_fee_bps as i64,
        spread_bps: c.costs.spread_bps as i64,
        slippage_bps: c.costs.slippage_bps as i64,
        participation_bps: c.liquidity.maximum_participation_bps as i64,
        partial_fill_policy: match c.execution.fill_policy {
            FillPolicy::Full => PartialFillPolicy::Reject,
            FillPolicy::ParticipationCappedPartial => PartialFillPolicy::Allow,
        },
        starting_cash_micros: c.capital.starting_cash_micros,
        maximum_order_quantity_micros: c.risk.maximum_order_quantity_micros,
        maximum_position_notional_micros: c.risk.maximum_position_notional_micros,
    }
}

/// How the strategy kernel simulates what a configuration asks for.
pub fn simulation_config(c: &BacktestConfiguration) -> (r: SimulationConfig)
    ensures
        r == simulation_of(*c),
{
    let timing: ExecutionTiming = match (c.execution.fill_timing, c.execution.fill_price_source) {
        (FillTiming::SameBar, PriceSource::Open) => ExecutionTiming::SameBarOpen,
        (FillTiming::SameBar, PriceSource::Close) => ExecutionTiming::SameBarClose,
        (FillTiming::NextBar, PriceSource::Open) => ExecutionTiming::NextBarOpen,
        (FillTiming::NextBar, PriceSource::Close) => ExecutionTiming::NextBarClose,
    };
    SimulationConfig {
        timing,
        fee_per_order_micros: c.costs.fixed_fee_micros,
        fee_per_unit_micros: c.costs.per_unit_fee_micros,
        notional_fee_bps: c.costs.notional_fee_bps as i64,
        spread_bps: c.costs.spread_bps as i64,
        slippage_bps: c.costs.slippage_bps as i64,
        participation_bps: c.liquidity.maximum_participation_bps as i64,
        partial_fill_policy: match c.execution.fill_policy {
            FillPolicy::Full => PartialFillPolicy::Reject,
            FillPolicy::ParticipationCappedPartial => PartialFillPolicy::Allow,
        },
        starting_cash_micros: c.capital.starting_cash_micros,
        maximum_order_quantity_micros: c.risk.maximum_order_quantity_micros,
        maximum_position_notional_micros: c.risk.maximum_position_notional_micros,
    }
}

/// The last closing price of each symbol.
pub open spec fn marks_of(bars: Seq<ObservationView>) -> Map<Seq<char>, i64>
    decreases bars.len(),
{
    if bars.len() == 0 {
        Map::empty()
    } else {
        marks_of(bars.drop_last()).insert(bars.last().symbol, bars.last().close as i64)
    }
}

/// Finds the last closing price of each symbol.
pub fn last_marks(observations: &Vec<MarketObservation>) -> (r: TextMap<i64>)
    ensures
        r@ == marks_of(observation_views(observations@)),
{
    let ghost shown = observation_views(observations@);
    let mut marks: TextMap<i64> = TextMap::new();
    let mut i: usize = 0;
    assert(shown.take(0) =~= Seq::empty());
    while i < observations.len()
        invariant
            i <= observations.len(),
            shown == observation_views(observations@),
            marks@ == marks_of(shown.take(i as int)),
        decreases observations.len() - i,
    {
        proof {
            assert(shown.take(i + 1).drop_last() =~= shown.take(i as int));
            assert(shown.take(i + 1).last() == observations@[i as int]@);
        }
        marks.insert(observations[i].symbol.as_str(), observations[i].close);
        i += 1;
    }
    assert(shown.take(shown.len() as int) =~= shown);
    marks
}

/// What a quantity is worth at a price, with what is less than a millionth cut off.
pub open spec fn scaled_worth(quantity: int, price: int) -> int {
    let product = quantity * price;
    if product >= 0 {
        product / (UNIT as int)
    } else {
        -((-product) / (UNIT as int))
    }
}

/// Computes what a quantity is worth at a price.
pub fn scaled_notional(quantity: i64, price: i64) -> (r: Result<i64, String>)
    ensures
        match r {
            Ok(n) => n == scaled_worth(quantity as int, price as int),
            Err(e) => !backtest_accounting::fits(scaled_worth(quantity as int, price as int)) && e@
                == "backtest_accounting_overflow"@,
        },
{
    proof {
        assert(-0x4000_0000_0000_0000_0000_0000_0000_0000 <= quantity * price
            <= 0x4000_0000_0000_0000_0000_0000_0000_0000) by (nonlinear_arith)
            requires
                -0x8000_0000_0000_0000 <= quantity <= 0x7fff_ffff_ffff_ffff,
                -0x8000_0000_0000_0000 <= price <= 0x7fff_ffff_ffff_ffff,
        ;
    }
    let product: i128 = (quantity as i128) * (price as i128);
    let scaled: i128 = if product >= 0 {
        product / 1_000_000i128
    } else {
        -((-product) / 1_000_000i128)
    };
    if scaled < -0x8000_0000_0000_0000 || scaled > 0x7fff_ffff_ffff_ffff {
        return Err("backtest_accounting_overflow".to_owned());
    }
    Ok(scaled as i64)
}

/// What a fill adds to the position in its symbol.
pub open spec fn signed_quantity(fill: backtest_accounting::Fill) -> int {
    match fill.side {
        FillSide::Buy => fill.quantity,
        FillSide::Sell => -fill.quantity,
    }
}

/// What is held of each symbol after some fills, or an error where that cannot be held
/// in an `i64`.
pub open spec fn held_after(fills: Seq<backtest_accounting::Fill>) -> Result<
    Map<Seq<char>, i64>,
    Seq<char>,
>
    decreases fills.len(),
{
    if fills.len() == 0 {
        Ok(Map::empty())
    } else {
        match held_after(fills.drop_last()) {
            Err(code) => Err(code),
            Ok(held) => {
                let fill = fills.last();
                let before: int = if held.dom().contains(fill.symbol) {
                    held[fill.symbol] as int
                } else {
                    0
                };
                let after = before + signed_quantity(fill);
                if backtest_accounting::fits(after) {
                    Ok(held.insert(fill.symbol, after as i64))
                } else {
                    Err("backtest_accounting_overflow"@)
                }
            },
        }
    }
}

/// Whether the quantities of some fills can be counted either way.
pub open spec fn quantities_turn(fills: Seq<backtest_accounting::Fill>) -> bool {
    forall|i: int| 0 <= i < fills.len() ==> (#[trigger] fills[i]).quantity > i64::MIN
}

proof fn held_fault_stays(fills: Seq<backtest_accounting::Fill>, n: int)
    requires
        0 <= n <= fills.len(),
        held_after(fills.take(n)) is Err,
    ensures
        held_after(fills) == held_after(fills.take(n)),
    decreases fills.len() - n,
{
    if n < fills.len() {
        assert(fills.take(n + 1).drop_last() =~= fills.take(n));
        held_fault_stays(fills, n + 1);
    } else {
        assert(fills.take(n) =~= fills);
    }
}

fn held_quantities(fills: &Vec<AccountingFill>) -> (r: Result<TextMap<i64>, String>)
    requires
        quantities_turn(backtest_accounting::fills_view(fills@)),
    ensures
        match (r, held_after(backtest_accounting::fills_view(fills@))) {
            (Ok(map), Ok(held)) => map@ == held,
            (Err(e), Err(code)) => e@ == code,
            _ => false,
        },
{
    let ghost shown = backtest_accounting::fills_view(fills@);
    let mut held: TextMap<i64> = TextMap::new();
    let mut i: usize = 0;
    assert(shown.take(0) =~= Seq::empty());
    while i < fills.len()
        invariant
            i <= fills.len(),
            shown == backtest_accounting::fills_view(fills@),
            quantities_turn(shown),
            held_after(shown.take(i as int)) == Ok::<Map<Seq<char>, i64>, Seq<char>>(held@),
        decreases fills.len() - i,
    {
        proof {
            assert(shown.take(i + 1).drop_last() =~= shown.take(i as int));
            assert(shown.take(i + 1).last() == fills@[i as int]@);
            assert(shown[i as int].quantity > i64::MIN);
        }
        let signed: i64 = match fills[i].side {
            FillSide::Buy => fills[i].quantity,
            FillSide::Sell => -fills[i].quantity,
        };
        let before: i64 = match held.get(fills[i].symbol.as_str()) {
            Some(n) => *n,
            None => 0,
        };
        match before.checked_add(signed) {
            Some(after) => {
                held.insert(fills[i].symbol.as_str(), after);
            },
            None => {
                proof {
                    held_fault_stays(shown, i + 1);
                }
                return Err("backtest_accounting_overflow".to_owned());
            },
        }
        i += 1;
    }
    assert(shown.take(shown.len() as int) =~= shown);
    Ok(held)
}

/// What is left open at the end of the data.
#[derive(Debug)]
pub struct OpenPosition {
    pub symbol: String,
    pub quantity: i64,
}

/// What is held of the given symbols, without those of which nothing is.
pub open spec fn open_of(symbols: Seq<Seq<char>>, held: Map<Seq<char>, i64>) -> Seq<(Seq<char>, int)>
    decreases symbols.len(),
{
    if symbols.len() == 0 {
        Seq::empty()
    } else {
        let earlier = open_of(symbols.drop_last(), held);
        if held[symbols.last()] > 0 {
            earlier.push((symbols.last(), held[symbols.last()] as int))
        } else {
            earlier
        }
    }
}

/// What a list of open positions says.
pub open spec fn open_views(list: Seq<OpenPosition>) -> Seq<(Seq<char>, int)> {
    list.map_values(|p: OpenPosition| (p.symbol@, p.quantity as int))
}

/// What is left open after some fills, in ascending order of the symbols.
pub open spec fn left_open(fills: Seq<backtest_accounting::Fill>) -> Result<
    Seq<(Seq<char>, int)>,
    Seq<char>,
> {
    match held_after(fills) {
        Ok(held) => Ok(open_of(text_map::in_order(held.dom()), held)),
        Err(code) => Err(code),
    }
}

/// Finds what is left open after some fills, in ascending order of the symbols.
pub fn open_positions(fills: &Vec<AccountingFill>) -> (r: Result<Vec<OpenPosition>, String>)
    requires
        quantities_turn(backtest_accounting::fills_view(fills@)),
    ensures
        match (r, left_open(backtest_accounting::fills_view(fills@))) {
            (Ok(list), Ok(shown)) => open_views(list@) == shown,
            (Err(e), Err(code)) => e@ == code,
            _ => false,
        },
{
    let held = match held_quantities(fills) {
        Ok(map) => map,
        Err(e) => {
            return Err(e);
        },
    };
    let n: usize = held.len();
    let ghost order = held.order();
    let mut list: Vec<OpenPosition> = Vec::new();
    let mut i: usize = 0;
    proof {
        assert(order.take(0) =~= Seq::empty());
        assert(open_views(list@) =~= Seq::empty());
    }
    while i < n
        invariant
            i <= n == order.len(),
            order == held.order(),
            open_views(list@) == open_of(order.take(i as int), held@),
        decreases n - i,
    {
        let symbol = held.key_at(i).clone();
        let quantity: i64 = *held.value_at(i);
        let ghost before = open_views(list@);
        proof {
            assert(order.take(i + 1).drop_last() =~= order.take(i as int));
            assert(order.take(i + 1).last() == order[i as int]);
        }
        if quantity > 0 {
            list.push(OpenPosition { symbol, quantity });
            assert(open_views(list@) =~= before.push((symbol@, quantity as int)));
        }
        i += 1;
    }
    assert(order.take(n as int) =~= order);
    Ok(list)
}

/// What became of the fee of a close: so much, or the code of an error.
pub open spec fn fee_view(fee: Result<i64, String>) -> Result<int, Seq<char>> {
    match fee {
        Ok(n) => Ok(n as int),
        Err(code) => Err(code@),
    }
}

/// What became of the fees of closes.
pub open spec fn fee_views(fees: Seq<Result<i64, String>>) -> Seq<Result<int, Seq<char>>> {
    fees.map_values(|f: Result<i64, String>| fee_view(f))
}

/// The fill that closes a position at its mark.
pub open spec fn closing_fill(
    position: (Seq<char>, int),
    marks: Map<Seq<char>, i64>,
    fee: Result<int, Seq<char>>,
    run_id: Seq<char>,
) -> Result<backtest_accounting::Fill, Seq<char>> {
    if !marks.dom().contains(position.0) {
        Err("backtest_mark_missing"@)
    } else if !backtest_accounting::fits(scaled_worth(position.1, marks[position.0] as int)) {
        Err("backtest_accounting_overflow"@)
    } else {
        match fee {
            Err(code) => Err(code),
            Ok(n) => Ok(
                backtest_accounting::Fill {
                    id: run_id + ":force_close:"@ + position.0,
                    symbol: position.0,
                    side: FillSide::Sell,
                    quantity: position.1,
                    price: marks[position.0] as int,
                    fee: n,
                },
            ),
        }
    }
}

/// Some fills with those that close the given positions.
pub open spec fn with_closes(
    fills: Seq<backtest_accounting::Fill>,
    positions: Seq<(Seq<char>, int)>,
    marks: Map<Seq<char>, i64>,
    fees: Seq<Result<int, Seq<char>>>,
    run_id: Seq<char>,
) -> Result<Seq<backtest_accounting::Fill>, Seq<char>>
    decreases positions.len(),
{
    if positions.len() == 0 {
        Ok(fills)
    } else {
        match with_closes(fills, positions.drop_last(), marks, fees, run_id) {
            Err(code) => Err(code),
            Ok(list) => match closing_fill(
                positions.last(),
                marks,
                fees[positions.len() - 1],
                run_id,
            ) {
                Err(code) => Err(code),
                Ok(fill) => Ok(list.push(fill)),
            },
        }
    }
}

proof fn close_fault_stays(
    fills: Seq<backtest_accounting::Fill>,
    positions: Seq<(Seq<char>, int)>,
    marks: Map<Seq<char>, i64>,
    fees: Seq<Result<int, Seq<char>>>,
    run_id: Seq<char>,
    n: int,
)
    requires
        0 <= n <= positions.len(),
        with_closes(fills, positions.take(n), marks, fees, run_id) is Err,
    ensures
        with_closes(fills, positions, marks, fees, run_id) == with_closes(
            fills,
            positions.take(n),
            marks,
            fees,
            run_id,
        ),
    decreases positions.len() - n,
{
    if n < positions.len() {
        assert(positions.take(n + 1).drop_last() =~= positions.take(n));
        close_fault_stays(fills, positions, marks, fees, run_id, n + 1);
    } else {
        assert(positions.take(n) =~= positions);
    }
}

/// Adds the fills that close the given positions at their marks. The fee of each is what
/// the strategy kernel asks for it, or its error.
pub fn append_force_closes(
    start: Vec<AccountingFill>,
    positions: &Vec<OpenPosition>,
    marks: &TextMap<i64>,
    fees: &Vec<Result<i64, String>>,
    run_id: &str,
) -> (r: Result<Vec<AccountingFill>, String>)
    requires
        fees@.len() == positions@.len(),
    ensures
        match (
            r,
            with_closes(
                backtest_accounting::fills_view(start@),
                open_views(positions@),
                marks@,
                fee_views(fees@),
                run_id@,
            ),
        ) {
            (Ok(list), Ok(shown)) => backtest_accounting::fills_view(list@) == shown,
            (Err(e), Err(code)) => e@ == code,
            _ => false,
        },
{
    let ghost base = backtest_accounting::fills_view(start@);
    let ghost shown = open_views(positions@);
    let ghost costs = fee_views(fees@);
    let mut fills = start;
    let mut i: usize = 0;
    assert(shown.take(0) =~= Seq::empty());
    while i < positions.len()
        invariant
            i <= positions.len(),
            fees@.len() == positions@.len(),
            shown == open_views(positions@),
            costs == fee_views(fees@),
            base == backtest_accounting::fills_view(start@),
            with_closes(base, shown.take(i as int), marks@, costs, run_id@) == Ok::<
                Seq<backtest_accounting::Fill>,
                Seq<char>,
            >(backtest_accounting::fills_view(fills@)),
        decreases positions.len() - i,
    {
        proof {
            assert(shown.take(i + 1).drop_last() =~= shown.take(i as int));
            assert(shown.take(i + 1).last() == (
                positions@[i as int].symbol@,
                positions@[i as int].quantity as int,
            ));
            assert(costs[i as int] == fee_view(fees@[i as int]));
        }
        let closed: Result<AccountingFill, String> = close_position(
            &positions[i],
            marks,
            &fees[i],
            run_id,
        );
        match closed {
            Ok(fill) => {
                let ghost before = backtest_accounting::fills_view(fills@);
                fills.push(fill);
                assert(backtest_accounting::fills_view(fills@) =~= before.push(fill@));
            },
            Err(e) => {
                proof {
                    close_fault_stays(base, shown, marks@, costs, run_id@, i + 1);
                }
                return Err(e);
            },
        }
        i += 1;
    }
    assert(shown.take(shown.len() as int) =~= shown);
    Ok(fills)
}

fn close_position(
    position: &OpenPosition,
    marks: &TextMap<i64>,
    fee: &Result<i64, String>,
    run_id: &str,
) -> (r: Result<AccountingFill, String>)
    ensures
        match (
            r,
            closing_fill(
                (position.symbol@, position.quantity as int),
                marks@,
                fee_view(*fee),
                run_id@,
            ),
        ) {
            (Ok(fill), Ok(shown)) => fill@ == shown,
            (Err(e), Err(code)) => e@ == code,
            _ => false,
        },
{
    let price: i64 = match marks.get(position.symbol.as_str()) {
        Some(n) => *n,
        None => {
            return Err("backtest_mark_missing".to_owned());
        },
    };
    if let Err(e) = scaled_notional(position.quantity, price) {
        return Err(e);
    }
    match fee {
        Err(code) => Err(code.clone()),
        Ok(n) => Ok(
            AccountingFill {
                fill_id: join3(run_id, ":force_close:", position.symbol.as_str()),
                symbol: position.symbol.clone(),
                side: FillSide::Sell,
                quantity: position.quantity,
                price_micros: price,
                fee_micros: *n,
            },
        ),
    }
}

/// The fills of the strategy kernel as the accounts book them.
pub open spec fn booked_fills(run_id: Seq<char>, fills: Seq<KernelFill>) -> Seq<
    backtest_accounting::Fill,
> {
    Seq::new(
        fills.len(),
        |i: int|
            backtest_accounting::Fill {
                id: run_id + ":fill:"@ + text::decimal(fills[i].execution_bar_index as nat) + ":"@
                    + text::decimal(i as nat),
                symbol: fills[i].symbol@,
                side: match fills[i].side {
                    OrderSide::Buy => FillSide::Buy,
                    OrderSide::Sell => FillSide::Sell,
                },
                quantity: fills[i].quantity as int,
                price: fills[i].price_micros as int,
                fee: fills[i].fee_micros as int,
            },
    )
}

/// Books the fills of the strategy kernel.
pub fn book_kernel_fills(run_id: &str, kernel_fills: &Vec<KernelFill>) -> (r: Vec<AccountingFill>)
    ensures
        backtest_accounting::fills_view(r@) == booked_fills(run_id@, kernel_fills@),
{
    let ghost shown = booked_fills(run_id@, kernel_fills@);
    let mut out: Vec<AccountingFill> = Vec::new();
    let mut i: usize = 0;
    assert(backtest_accounting::fills_view(out@) =~= shown.take(0));
    while i < kernel_fills.len()
        invariant
            i <= kernel_fills.len(),
            shown == booked_fills(run_id@, kernel_fills@),
            backtest_accounting::fills_view(out@) == shown.take(i as int),
        decreases kernel_fills.len() - i,
    {
        let fill: &KernelFill = &kernel_fills[i];
        let bar = decimal_text(fill.execution_bar_index);
        let number = decimal_text(i as u64);
        let item = AccountingFill {
            fill_id: join5(run_id, ":fill:", bar.as_str(), ":", number.as_str()),
            symbol: fill.symbol.clone(),
            side: match fill.side {
                OrderSide::Buy => FillSide::Buy,
                OrderSide::Sell => FillSide::Sell,
            },
            quantity: fill.quantity,
            price_micros: fill.price_micros,
            fee_micros: fill.fee_micros,
        };
        let ghost before = backtest_accounting::fills_view(out@);
        out.push(item);
        proof {
            assert(item@ == shown[i as int]);
            assert(backtest_accounting::fills_view(out@) =~= before.push(item@));
            assert(shown.take(i + 1) =~= shown.take(i as int).push(shown[i as int]));
        }
        i += 1;
    }
    assert(shown.take(shown.len() as int) =~= shown);
    out
}

/// What the strategy decided on one bar.
#[derive(Debug)]
pub enum KernelDecision {
    NoSignal { bar_index: u64 },
    OrderIntent { decision_bar_index: u64, symbol: String, side: OrderSide, quantity: i64 },
}

/// An order of the strategy kernel.
#[derive(Debug)]
pub struct KernelOrder {
    pub decision_bar_index: u64,
    pub execution_bar_index: u64,
    pub symbol: String,
    pub side: OrderSide,
    pub quantity: i64,
}

/// What the strategy kernel did.
#[derive(Debug)]
pub struct KernelRun {
    pub decisions: Vec<KernelDecision>,
    pub orders: Vec<KernelOrder>,
    pub fills: Vec<KernelFill>,
    /// The rejected orders, as they are shown to a developer.
    pub rejects: Vec<String>,
}

/// What the strategy kernel made of a strategy and its bars; `shown` is the error that it
/// shows to a developer.
#[derive(Debug)]
pub enum KernelOutcome {
    NotCompiled { shown: String },
    Stopped { shown: String },
    Ran { run: KernelRun },
}

/// The name of a side.
pub open spec fn side_text(side: OrderSide) -> Seq<char> {
    match side {
        OrderSide::Buy => "buy"@,
        OrderSide::Sell => "sell"@,
    }
}

/// The name of a side.
pub fn side_name(side: OrderSide) -> (r: &'static str)
    ensures
        r@ == side_text(side),
{
    match side {
        OrderSide::Buy => "buy",
        OrderSide::Sell => "sell",
    }
}

/// The time of a bar, or null.
pub open spec fn time_tree(timestamps: Seq<String>, index: u64) -> JsonTree {
    if index < timestamps.len() {
        JsonTree::Text(timestamps[index as int]@)
    } else {
        JsonTree::Null
    }
}

fn time_value(timestamps: &Vec<String>, index: u64) -> (r: Json)
    ensures
        r@ == time_tree(timestamps@, index),
{
    if index < timestamps.len() as u64 {
        Json::text(timestamps[index as usize].as_str())
    } else {
        Json::Null
    }
}

/// A decision as a value.
pub open spec fn decision_tree(d: KernelDecision, timestamps: Seq<String>) -> JsonTree {
    match d {
        KernelDecision::NoSignal { bar_index } => JsonTree::Object(
            map![
                "kind"@ => JsonTree::Text("no_signal"@),
                "barIndex"@ => JsonTree::Int(bar_index as int),
                "timestamp"@ => time_tree(timestamps, bar_index)
            ],
        ),
        KernelDecision::OrderIntent { decision_bar_index, symbol, side, quantity } => JsonTree::Object(
            map![
                "kind"@ => JsonTree::Text("order_intent"@),
                "barIndex"@ => JsonTree::Int(decision_bar_index as int),
                "timestamp"@ => time_tree(timestamps, decision_bar_index),
                "symbol"@ => JsonTree::Text(symbol@),
                "side"@ => JsonTree::Text(side_text(side)),
                "quantityMicros"@ => JsonTree::Int(quantity as int)
            ],
        ),
    }
}

fn decision_value(d: &KernelDecision, timestamps: &Vec<String>) -> (r: Json)
    ensures
        r@ == decision_tree(*d, timestamps@),
{
    match d {
        KernelDecision::NoSignal { bar_index } => Json::object(
            JsonMap::new().with("kind", Json::text("no_signal")).with(
                "barIndex",
                Json::Large(*bar_index),
            ).with("timestamp", time_value(timestamps, *bar_index)),
        ),
        KernelDecision::OrderIntent { decision_bar_index, symbol, side, quantity } => Json::object(
            JsonMap::new().with("kind", Json::text("order_intent")).with(
                "barIndex",
                Json::Large(*decision_bar_index),
            ).with("timestamp", time_value(timestamps, *decision_bar_index)).with(
                "symbol",
                Json::text(symbol.as_str()),
            ).with("side", Json::text(side_name(*side))).with("quantityMicros", Json::Int(*quantity)),
        ),
    }
}

/// The views of a list of values.
pub open spec fn value_views(list: Seq<Json>) -> Seq<JsonTree> {
    list.map_values(|v: Json| v@)
}

/// Puts a value on a list.
fn put(list: &mut Vec<Json>, value: Json)
    ensures
        value_views(final(list)@) == value_views(old(list)@).push(value@),
{
    let ghost before = value_views(list@);
    list.push(value);
    assert(value_views(list@) =~= before.push(value@));
}

/// The decisions of a run as values.
pub open spec fn decision_trees(list: Seq<KernelDecision>, timestamps: Seq<String>) -> Seq<JsonTree> {
    Seq::new(list.len(), |i: int| decision_tree(list[i], timestamps))
}

fn decision_values(list: &Vec<KernelDecision>, timestamps: &Vec<String>) -> (r: Vec<Json>)
    ensures
        value_views(r@) == decision_trees(list@, timestamps@),
{
    let ghost shown = decision_trees(list@, timestamps@);
    let mut out: Vec<Json> = Vec::new();
    let mut i: usize = 0;
    assert(value_views(out@) =~= shown.take(0));
    while i < list.len()
        invariant
            i <= list.len(),
            shown == decision_trees(list@, timestamps@),
            value_views(out@) == shown.take(i as int),
        decreases list.len() - i,
    {
        let value = decision_value(&list[i], timestamps);
        put(&mut out, value);
        assert(shown.take(i + 1) =~= shown.take(i as int).push(shown[i as int]));
        i += 1;
    }
    assert(shown.take(shown.len() as int) =~= shown);
    out
}

/// An order as a value.
pub open spec fn order_tree(o: KernelOrder, timestamps: Seq<String>) -> JsonTree {
    JsonTree::Object(
        map![
            "decisionBarIndex"@ => JsonTree::Int(o.decision_bar_index as int),
            "decisionTimestamp"@ => time_tree(timestamps, o.decision_bar_index),
            "executionBarIndex"@ => JsonTree::Int(o.execution_bar_index as int),
            "executionTimestamp"@ => time_tree(timestamps, o.execution_bar_index),
            "symbol"@ => JsonTree::Text(o.symbol@),
            "side"@ => JsonTree::Text(side_text(o.side)),
            "quantityMicros"@ => JsonTree::Int(o.quantity as int)
        ],
    )
}

/// The orders of a run as values.
pub open spec fn order_trees(list: Seq<KernelOrder>, timestamps: Seq<String>) -> Seq<JsonTree> {
    Seq::new(list.len(), |i: int| order_tree(list[i], timestamps))
}

fn order_values(list: &Vec<KernelOrder>, timestamps: &Vec<String>) -> (r: Vec<Json>)
    ensures
        value_views(r@) == order_trees(list@, timestamps@),
{
    let ghost shown = order_trees(list@, timestamps@);
    let mut out: Vec<Json> = Vec::new();
    let mut i: usize = 0;
    assert(value_views(out@) =~= shown.take(0));
    while i < list.len()
        invariant
            i <= list.len(),
            shown == order_trees(list@, timestamps@),
            value_views(out@) == shown.take(i as int),
        decreases list.len() - i,
    {
        let o: &KernelOrder = &list[i];
        let value = Json::object(
            JsonMap::new().with("decisionBarIndex", Json::Large(o.decision_bar_index)).with(
                "decisionTimestamp",
                time_value(timestamps, o.decision_bar_index),
            ).with("executionBarIndex", Json::Large(o.execution_bar_index)).with(
                "executionTimestamp",
                time_value(timestamps, o.execution_bar_index),
            ).with("symbol", Json::text(o.symbol.as_str())).with(
                "side",
                Json::text(side_name(o.side)),
            ).with("quantityMicros", Json::Int(o.quantity)),
        );
        put(&mut out, value);
        proof {
            assert(value@ == shown[i as int]);
            assert(shown.take(i + 1) =~= shown.take(i as int).push(shown[i as int]));
        }
        i += 1;
    }
    assert(shown.take(shown.len() as int) =~= shown);
    out
}

/// A fill of the strategy as a value.
pub open spec fn fill_tree(id: Seq<char>, f: KernelFill, timestamps: Seq<String>) -> JsonTree {
    JsonTree::Object(
        map![
            "fillId"@ => JsonTree::Text(id),
            "decisionBarIndex"@ => JsonTree::Int(f.decision_bar_index as int),
            "decisionTimestamp"@ => time_tree(timestamps, f.decision_bar_index),
            "executionBarIndex"@ => JsonTree::Int(f.execution_bar_index as int),
            "executionTimestamp"@ => time_tree(timestamps, f.execution_bar_index),
            "symbol"@ => JsonTree::Text(f.symbol@),
            "side"@ => JsonTree::Text(side_text(f.side)),
            "quantityMicros"@ => JsonTree::Int(f.quantity as int),
            "priceMicros"@ => JsonTree::Int(f.price_micros as int),
            "feeMicros"@ => JsonTree::Int(f.fee_micros as int)
        ],
    )
}

/// A fill that closes a position at the end of the data, as a value.
pub open spec fn close_tree(f: backtest_accounting::Fill) -> JsonTree {
    JsonTree::Object(
        map![
            "fillId"@ => JsonTree::Text(f.id),
            "symbol"@ => JsonTree::Text(f.symbol),
            "side"@ => JsonTree::Text("sell"@),
            "quantityMicros"@ => JsonTree::Int(f.quantity),
            "priceMicros"@ => JsonTree::Int(f.price),
            "feeMicros"@ => JsonTree::Int(f.fee),
            "endOfData"@ => JsonTree::Bool(true)
        ],
    )
}

/// The fills of a run as values: those of the strategy, then those at the end of the
/// data.
pub open spec fn fill_trees(
    booked: Seq<backtest_accounting::Fill>,
    kernel_fills: Seq<KernelFill>,
    timestamps: Seq<String>,
) -> Seq<JsonTree> {
    Seq::new(
        booked.len(),
        |i: int|
            if i < kernel_fills.len() {
                fill_tree(booked[i].id, kernel_fills[i], timestamps)
            } else {
                close_tree(booked[i])
            },
    )
}

fn fill_values(booked: &Vec<AccountingFill>, kernel_fills: &Vec<KernelFill>, timestamps: &Vec<String>) -> (r:
    Vec<Json>)
    ensures
        value_views(r@) == fill_trees(
            backtest_accounting::fills_view(booked@),
            kernel_fills@,
            timestamps@,
        ),
{
    let ghost shown = fill_trees(
        backtest_accounting::fills_view(booked@),
        kernel_fills@,
        timestamps@,
    );
    let mut out: Vec<Json> = Vec::new();
    let mut i: usize = 0;
    assert(value_views(out@) =~= shown.take(0));
    while i < booked.len()
        invariant
            i <= booked.len(),
            shown == fill_trees(
                backtest_accounting::fills_view(booked@),
                kernel_fills@,
                timestamps@,
            ),
            value_views(out@) == shown.take(i as int),
        decreases booked.len() - i,
    {
        let own: &AccountingFill = &booked[i];
        let value: Json = if i < kernel_fills.len() {
            let f: &KernelFill = &kernel_fills[i];
            Json::object(
                JsonMap::new().with("fillId", Json::text(own.fill_id.as_str())).with(
                    "decisionBarIndex",
                    Json::Large(f.decision_bar_index),
                ).with("decisionTimestamp", time_value(timestamps, f.decision_bar_index)).with(
                    "executionBarIndex",
                    Json::Large(f.execution_bar_index),
                ).with("executionTimestamp", time_value(timestamps, f.execution_bar_index)).with(
                    "symbol",
                    Json::text(f.symbol.as_str()),
                ).with("side", Json::text(side_name(f.side))).with(
                    "quantityMicros",
                    Json::Int(f.quantity),
                ).with("priceMicros", Json::Int(f.price_micros)).with(
                    "feeMicros",
                    Json::Int(f.fee_micros),
                ),
            )
        } else {
            Json::object(
                JsonMap::new().with("fillId", Json::text(own.fill_id.as_str())).with(
                    "symbol",
                    Json::text(own.symbol.as_str()),
                ).with("side", Json::text("sell")).with("quantityMicros", Json::Int(own.quantity)).with(
                    "priceMicros",
                    Json::Int(own.price_micros),
                ).with("feeMicros", Json::Int(own.fee_micros)).with("endOfData", Json::Bool(true)),
            )
        };
        put(&mut out, value);
        proof {
            assert(value@ == shown[i as int]);
            assert(shown.take(i + 1) =~= shown.take(i as int).push(shown[i as int]));
        }
        i += 1;
    }
    assert(shown.take(shown.len() as int) =~= shown);
    out
}

/// The name of a kind of ledger entry.
pub open spec fn entry_kind_text(kind: LedgerEntryKind) -> Seq<char> {
    match kind {
        LedgerEntryKind::FillNotional => "fill_notional"@,
        LedgerEntryKind::FillFee => "fill_fee"@,
        LedgerEntryKind::Income => "income"@,
        LedgerEntryKind::Cost => "cost"@,
    }
}

fn entry_kind_name(kind: LedgerEntryKind) -> (r: &'static str)
    ensures
        r@ == entry_kind_text(kind),
{
    match kind {
        LedgerEntryKind::FillNotional => "fill_notional",
        LedgerEntryKind::FillFee => "fill_fee",
        LedgerEntryKind::Income => "income",
        LedgerEntryKind::Cost => "cost",
    }
}

/// A ledger entry as a value.
pub open spec fn posting_tree(p: backtest_accounting::Posting) -> JsonTree {
    JsonTree::Object(
        map![
            "sequence"@ => JsonTree::Int(p.sequence),
            "entryId"@ => JsonTree::Text(p.id),
            "kind"@ => JsonTree::Text(entry_kind_text(p.kind)),
            "cashDeltaMicros"@ => JsonTree::Int(p.delta)
        ],
    )
}

/// The ledger as values.
pub open spec fn ledger_trees(ledger: Seq<backtest_accounting::Posting>) -> Seq<JsonTree> {
    ledger.map_values(|p: backtest_accounting::Posting| posting_tree(p))
}

fn ledger_values(ledger: &Vec<LedgerEntry>) -> (r: Vec<Json>)
    ensures
        value_views(r@) == ledger_trees(backtest_accounting::ledger_view(ledger@)),
{
    let ghost shown = ledger_trees(backtest_accounting::ledger_view(ledger@));
    let mut out: Vec<Json> = Vec::new();
    let mut i: usize = 0;
    assert(value_views(out@) =~= shown.take(0));
    while i < ledger.len()
        invariant
            i <= ledger.len(),
            shown == ledger_trees(backtest_accounting::ledger_view(ledger@)),
            value_views(out@) == shown.take(i as int),
        decreases ledger.len() - i,
    {
        let e: &LedgerEntry = &ledger[i];
        let value = Json::object(
            JsonMap::new().with("sequence", Json::Large(e.sequence)).with(
                "entryId",
                Json::text(e.entry_id.as_str()),
            ).with("kind", Json::text(entry_kind_name(e.kind))).with(
                "cashDeltaMicros",
                Json::Int(e.cash_delta_micros),
            ),
        );
        put(&mut out, value);
        proof {
            assert(value@ == shown[i as int]);
            assert(shown.take(i + 1) =~= shown.take(i as int).push(shown[i as int]));
        }
        i += 1;
    }
    assert(shown.take(shown.len() as int) =~= shown);
    out
}

/// A lot as a value.
pub open spec fn lot_tree(l: backtest_accounting::Lot) -> JsonTree {
    JsonTree::Object(
        map![
            "lotId"@ => JsonTree::Text(l.id),
            "symbol"@ => JsonTree::Text(l.symbol),
            "quantity"@ => JsonTree::Int(l.quantity),
            "unitCostMicros"@ => JsonTree::Int(l.unit_cost)
        ],
    )
}

fn lot_values(lots: &Vec<PositionLot>) -> (r: Json)
    ensures
        r@ == JsonTree::Array(
            backtest_accounting::lots_view(lots@).map_values(
                |l: backtest_accounting::Lot| lot_tree(l),
            ),
        ),
{
    let mut items: Vec<Json> = Vec::new();
    let mut i: usize = 0;
    while i < lots.len()
        invariant
            i <= lots.len(),
            items@.len() == i,
            forall|j: int| 0 <= j < i ==> #[trigger] items@[j]@ == lot_tree(lots@[j]@),
        decreases lots.len() - i,
    {
        let l: &PositionLot = &lots[i];
        items.push(
            Json::object(
                JsonMap::new().with("lotId", Json::text(l.lot_id.as_str())).with(
                    "symbol",
                    Json::text(l.symbol.as_str()),
                ).with("quantity", Json::Int(l.quantity)).with(
                    "unitCostMicros",
                    Json::Int(l.unit_cost_micros),
                ),
            ),
        );
        i += 1;
    }
    proof {
        json::array_view_members(items@);
        assert(json::array_view(items@) =~= backtest_accounting::lots_view(lots@).map_values(
            |l: backtest_accounting::Lot| lot_tree(l),
        ));
    }
    Json::Array(items)
}

/// A position as a value.
pub open spec fn holding_tree(h: backtest_accounting::Holding) -> JsonTree {
    JsonTree::Object(
        map![
            "symbol"@ => JsonTree::Text(h.symbol),
            "quantity"@ => JsonTree::Int(h.quantity),
            "averageCostMicros"@ => JsonTree::Int(h.average_cost),
            "marketPriceMicros"@ => JsonTree::Int(h.market_price),
            "marketValueMicros"@ => JsonTree::Int(h.market_value),
            "unrealizedPnlMicros"@ => JsonTree::Int(h.unrealized),
            "lots"@ => JsonTree::Array(
                h.lots.map_values(|l: backtest_accounting::Lot| lot_tree(l)),
            )
        ],
    )
}

fn position_value(p: &Position) -> (r: Json)
    ensures
        r@ == holding_tree(p@),
{
    Json::object(
        JsonMap::new().with("symbol", Json::text(p.symbol.as_str())).with(
            "quantity",
            Json::Int(p.quantity),
        ).with("averageCostMicros", Json::Int(p.average_cost_micros)).with(
            "marketPriceMicros",
            Json::Int(p.market_price_micros),
        ).with("marketValueMicros", Json::Int(p.market_value_micros)).with(
            "unrealizedPnlMicros",
            Json::Int(p.unrealized_pnl_micros),
        ).with("lots", lot_values(&p.lots)),
    )
}

/// The positions as values.
pub open spec fn holding_trees(list: Seq<backtest_accounting::Holding>) -> Seq<JsonTree> {
    list.map_values(|h: backtest_accounting::Holding| holding_tree(h))
}

/// The positions by their symbols.
pub open spec fn holdings_by_symbol(list: Seq<backtest_accounting::Holding>) -> Map<
    Seq<char>,
    JsonTree,
>
    decreases list.len(),
{
    if list.len() == 0 {
        Map::empty()
    } else {
        holdings_by_symbol(list.drop_last()).insert(list.last().symbol, holding_tree(list.last()))
    }
}

fn position_values(list: &Vec<Position>) -> (r: (Vec<Json>, JsonMap))
    ensures
        value_views(r.0@) == holding_trees(list@.map_values(|p: Position| p@)),
        r.1@ == holdings_by_symbol(list@.map_values(|p: Position| p@)),
{
    let ghost shown = list@.map_values(|p: Position| p@);
    let mut out: Vec<Json> = Vec::new();
    let mut map = JsonMap::new();
    let mut i: usize = 0;
    proof {
        assert(value_views(out@) =~= holding_trees(shown).take(0));
        assert(shown.take(0) =~= Seq::empty());
    }
    while i < list.len()
        invariant
            i <= list.len(),
            shown == list@.map_values(|p: Position| p@),
            value_views(out@) == holding_trees(shown).take(i as int),
            map@ == holdings_by_symbol(shown.take(i as int)),
        decreases list.len() - i,
    {
        let value = position_value(&list[i]);
        map.insert(list[i].symbol.as_str(), value.copy());
        put(&mut out, value);
        proof {
            assert(shown[i as int] == list@[i as int]@);
            assert(holding_trees(shown).take(i + 1) =~= holding_trees(shown).take(i as int).push(
                holding_tree(shown[i as int]),
            ));
            assert(shown.take(i + 1).drop_last() =~= shown.take(i as int));
            assert(shown.take(i + 1).last() == shown[i as int]);
        }
        i += 1;
    }
    proof {
        assert(holding_trees(shown).take(shown.len() as int) =~= holding_trees(shown));
        assert(shown.take(shown.len() as int) =~= shown);
    }
    (out, map)
}

/// A booked fill as a value.
pub open spec fn booked_tree(f: backtest_accounting::Fill) -> JsonTree {
    JsonTree::Object(
        map![
            "fillId"@ => JsonTree::Text(f.id),
            "symbol"@ => JsonTree::Text(f.symbol),
            "side"@ => JsonTree::Text(
                match f.side {
                    FillSide::Buy => "buy"@,
                    FillSide::Sell => "sell"@,
                },
            ),
            "quantity"@ => JsonTree::Int(f.quantity),
            "priceMicros"@ => JsonTree::Int(f.price),
            "feeMicros"@ => JsonTree::Int(f.fee)
        ],
    )
}

fn booked_values(fills: &Vec<AccountingFill>) -> (r: Vec<Json>)
    ensures
        value_views(r@) == backtest_accounting::fills_view(fills@).map_values(
            |f: backtest_accounting::Fill| booked_tree(f),
        ),
{
    let ghost shown = backtest_accounting::fills_view(fills@).map_values(
        |f: backtest_accounting::Fill| booked_tree(f),
    );
    let mut out: Vec<Json> = Vec::new();
    let mut i: usize = 0;
    assert(value_views(out@) =~= shown.take(0));
    while i < fills.len()
        invariant
            i <= fills.len(),
            shown == backtest_accounting::fills_view(fills@).map_values(
                |f: backtest_accounting::Fill| booked_tree(f),
            ),
            value_views(out@) == shown.take(i as int),
        decreases fills.len() - i,
    {
        let f: &AccountingFill = &fills[i];
        let side: &str = match f.side {
            FillSide::Buy => "buy",
            FillSide::Sell => "sell",
        };
        let value = Json::object(
            JsonMap::new().with("fillId", Json::text(f.fill_id.as_str())).with(
                "symbol",
                Json::text(f.symbol.as_str()),
            ).with("side", Json::text(side)).with("quantity", Json::Int(f.quantity)).with(
                "priceMicros",
                Json::Int(f.price_micros),
            ).with("feeMicros", Json::Int(f.fee_micros)),
        );
        put(&mut out, value);
        proof {
            assert(value@ == shown[i as int]);
            assert(shown.take(i + 1) =~= shown.take(i as int).push(shown[i as int]));
        }
        i += 1;
    }
    assert(shown.take(shown.len() as int) =~= shown);
    out
}

/// An account as a value.
pub open spec fn statement_tree(s: backtest_accounting::Statement) -> JsonTree {
    JsonTree::Object(
        map![
            "fills"@ => JsonTree::Array(
                s.fills.map_values(|f: backtest_accounting::Fill| booked_tree(f)),
            ),
            "ledger"@ => JsonTree::Array(ledger_trees(s.ledger)),
            "positions"@ => JsonTree::Object(holdings_by_symbol(s.positions)),
            "endingCashMicros"@ => JsonTree::Int(s.cash),
            "marketValueMicros"@ => JsonTree::Int(s.market_value),
            "endingEquityMicros"@ => JsonTree::Int(s.equity),
            "realizedPnlMicros"@ => JsonTree::Int(s.realized),
            "unrealizedPnlMicros"@ => JsonTree::Int(s.unrealized),
            "incomeMicros"@ => JsonTree::Int(s.income),
            "costsMicros"@ => JsonTree::Int(s.costs),
            "reconciliationResidualMicros"@ => JsonTree::Int(s.residual)
        ],
    )
}

fn array_of(items: Vec<Json>) -> (r: Json)
    ensures
        r@ == JsonTree::Array(value_views(items@)),
{
    proof {
        json::array_view_members(items@);
        assert(json::array_view(items@) =~= value_views(items@));
    }
    Json::Array(items)
}

/// An account as a value.
pub fn accounting_value(result: &AccountingResult) -> (r: Json)
    ensures
        r@ == statement_tree(result@),
{
    let fills = array_of(booked_values(&result.fills));
    let ledger = array_of(ledger_values(&result.ledger));
    let (_list, positions) = position_values(&result.positions);
    Json::object(
        JsonMap::new().with("fills", fills).with("ledger", ledger).with(
            "positions",
            Json::object(positions),
        ).with("endingCashMicros", Json::Int(result.ending_cash_micros)).with(
            "marketValueMicros",
            Json::Int(result.market_value_micros),
        ).with("endingEquityMicros", Json::Int(result.ending_equity_micros)).with(
            "realizedPnlMicros",
            Json::Int(result.realized_pnl_micros),
        ).with("unrealizedPnlMicros", Json::Int(result.unrealized_pnl_micros)).with(
            "incomeMicros",
            Json::Int(result.income_micros),
        ).with("costsMicros", Json::Int(result.costs_micros)).with(
            "reconciliationResidualMicros",
            Json::Int(result.reconciliation_residual_micros),
        ),
    )
}

/// An accounting error as it is shown to a developer.
pub open spec fn shown_fault(f: backtest_accounting::Fault) -> Seq<char> {
    match f {
        backtest_accounting::Fault::Overflow => "ArithmeticOverflow"@,
        backtest_accounting::Fault::Invalid(why) => "InvalidInput("@ + debug_text_of(why) + ")"@,
        backtest_accounting::Fault::MissingMark(symbol) => "MissingMark { symbol: "@ + debug_text_of(
            symbol,
        ) + " }"@,
        backtest_accounting::Fault::Margin => "UnsupportedMargin"@,
        backtest_accounting::Fault::Short(symbol) => "UnsupportedShort { symbol: "@ + debug_text_of(
            symbol,
        ) + " }"@,
        backtest_accounting::Fault::Unreconciled(residual) => "ReconciliationFailed { residual_micros: "@
            + text::signed_decimal(residual) + " }"@,
    }
}

/// The code of an accounting error.
pub fn accounting_error(error: &AccountingError) -> (r: String)
    ensures
        r@ == lowercase_of("backtest_accounting_"@ + shown_fault(error@)),
{
    let shown: String = match error {
        AccountingError::ArithmeticOverflow => "ArithmeticOverflow".to_owned(),
        AccountingError::InvalidInput(why) => {
            let quoted = debug_text(why);
            join3("InvalidInput(", quoted.as_str(), ")")
        },
        AccountingError::MissingMark { symbol } => {
            let quoted = debug_text(symbol.as_str());
            join3("MissingMark { symbol: ", quoted.as_str(), " }")
        },
        AccountingError::UnsupportedMargin => "UnsupportedMargin".to_owned(),
        AccountingError::UnsupportedShort { symbol } => {
            let quoted = debug_text(symbol.as_str());
            join3("UnsupportedShort { symbol: ", quoted.as_str(), " }")
        },
        AccountingError::ReconciliationFailed { residual_micros } => {
            let number = signed_decimal_text(*residual_micros);
            join3("ReconciliationFailed { residual_micros: ", number.as_str(), " }")
        },
    };
    let whole = join2("backtest_accounting_", shown.as_str());
    lowercase(whole.as_str())
}

/// The code of an error of the strategy kernel.
pub open spec fn kernel_fault(shown: Seq<char>) -> Seq<char> {
    lowercase_of("backtest_kernel_"@ + shown)
}

/// The code of an error of the strategy kernel, given as it is shown to a developer.
pub fn kernel_error(shown: &str) -> (r: String)
    ensures
        r@ == kernel_fault(shown@),
{
    let whole = join2("backtest_kernel_", shown);
    lowercase(whole.as_str())
}

/// The fills of a run: those of the strategy and, where the configuration asks for it,
/// those that close what is left open at the end of the data.
pub open spec fn final_fills(
    manifest: BacktestRunManifest,
    kernel_fills: Seq<KernelFill>,
    marks: Map<Seq<char>, i64>,
    fees: Seq<Result<int, Seq<char>>>,
) -> Result<Seq<backtest_accounting::Fill>, Seq<char>> {
    let run_id = manifest.content.run_id@;
    let booked = booked_fills(run_id, kernel_fills);
    match manifest.content.configuration.end_of_data {
        EndOfDataPolicy::MarkToMarket => Ok(booked),
        EndOfDataPolicy::ForceClose => match left_open(booked) {
            Err(code) => Err(code),
            Ok(positions) => with_closes(booked, positions, marks, fees, run_id),
        },
    }
}

/// Whether a run can be closed: its quantities can be counted either way, and there is
/// a fee for each position that it leaves open.
pub open spec fn can_close(
    manifest: BacktestRunManifest,
    kernel_fills: Seq<KernelFill>,
    fees: Seq<Result<i64, String>>,
) -> bool {
    let booked = booked_fills(manifest.content.run_id@, kernel_fills);
    manifest.content.configuration.end_of_data == EndOfDataPolicy::ForceClose ==> (quantities_turn(
        booked,
    ) && (left_open(booked) matches Ok(positions) ==> fees.len() == positions.len()))
}

/// Whether an account is drawn up of the given fills and marks, from the starting cash.
pub open spec fn is_account_of(
    input: AccountingInput,
    manifest: BacktestRunManifest,
    fills: Seq<backtest_accounting::Fill>,
    marks: Map<Seq<char>, i64>,
) -> bool {
    &&& input.starting_cash_micros == manifest.content.configuration.capital.starting_cash_micros
    &&& backtest_accounting::fills_view(input.fills@) == fills
    &&& input.cash_entries@.len() == 0
    &&& input.marks_micros@ == marks
    &&& input.end_of_data == backtest_accounting::EndOfDataPolicy::MarkToMarket
    &&& input.reconciliation_tolerance_micros == 0
}

/// The diagnostics of the orders that the strategy kernel rejected.
pub open spec fn reject_views(rejects: Seq<String>) -> Seq<backtest_contracts::DiagnosticView> {
    rejects.map_values(
        |shown: String|
            backtest_contracts::DiagnosticView {
                code: "backtest_order_rejected"@,
                field: None,
                severity: DiagnosticSeverity::Warning,
                detail: shown@,
            },
    )
}

/// Whether the content of a result tells what came out of a run.
pub open spec fn tells(
    content: BacktestResultContent,
    manifest: BacktestRunManifest,
    kernel: KernelRun,
    timestamps: Seq<String>,
    fills: Seq<backtest_accounting::Fill>,
    statement: backtest_accounting::Statement,
) -> bool {
    &&& content.schema@ == BACKTEST_RESULT_SCHEMA@
    &&& content.run_id@ == manifest.content.run_id@
    &&& content.manifest_hash@ == manifest.manifest_hash@
    &&& content.evaluator_version@ == manifest.content.configuration.evaluator_version@
    &&& content.compiler_version@ == manifest.content.configuration.compiler_version@
    &&& value_views(content.decisions@) == decision_trees(kernel.decisions@, timestamps)
    &&& value_views(content.orders@) == order_trees(kernel.orders@, timestamps)
    &&& value_views(content.fills@) == fill_trees(fills, kernel.fills@, timestamps)
    &&& value_views(content.positions@) == holding_trees(statement.positions)
    &&& value_views(content.ledger@) == ledger_trees(statement.ledger)
    &&& content.accounting@ == statement_tree(statement)
    &&& backtest_contracts::diagnostic_views(content.diagnostics@) == reject_views(kernel.rejects@)
}

/// Whether an outcome is that of a run with the given account.
pub open spec fn concludes(
    r: Result<BacktestResult, String>,
    manifest: BacktestRunManifest,
    kernel: KernelRun,
    timestamps: Seq<String>,
    fills: Seq<backtest_accounting::Fill>,
    account: Result<backtest_accounting::Statement, backtest_accounting::Fault>,
    created_at_ms: i64,
) -> bool {
    match account {
        Err(f) => r matches Err(e) && e@ == lowercase_of("backtest_accounting_"@ + shown_fault(f)),
        Ok(statement) => match r {
            Ok(x) => tells(x.content, manifest, kernel, timestamps, fills, statement)
                && x.created_at_ms == created_at_ms && backtest_contracts::result_is_intact(
                x,
                json::canonical_json_of(backtest_contracts::result_tree(x.content)),
            ),
            Err(e) => exists|content: BacktestResultContent|
                #![trigger backtest_contracts::result_tree(content)]
                tells(content, manifest, kernel, timestamps, fills, statement)
                    && backtest_contracts::result_seal(
                    content,
                    json::canonical_json_of(backtest_contracts::result_tree(content)),
                ) == Err::<backtest_contracts::SealView, Seq<char>>(e@),
        },
    }
}

fn reject_diagnostics(rejects: &Vec<String>) -> (r: Vec<BacktestDiagnostic>)
    ensures
        backtest_contracts::diagnostic_views(r@) == reject_views(rejects@),
{
    let ghost shown = reject_views(rejects@);
    let mut out: Vec<BacktestDiagnostic> = Vec::new();
    let mut i: usize = 0;
    assert(backtest_contracts::diagnostic_views(out@) =~= shown.take(0));
    while i < rejects.len()
        invariant
            i <= rejects.len(),
            shown == reject_views(rejects@),
            backtest_contracts::diagnostic_views(out@) == shown.take(i as int),
        decreases rejects.len() - i,
    {
        let item = BacktestDiagnostic {
            code: "backtest_order_rejected".to_owned(),
            field: None,
            severity: DiagnosticSeverity::Warning,
            detail: rejects[i].clone(),
        };
        let ghost before = backtest_contracts::diagnostic_views(out@);
        out.push(item);
        proof {
            assert(item@ == shown[i as int]);
            assert(backtest_contracts::diagnostic_views(out@) =~= before.push(item@));
            assert(shown.take(i + 1) =~= shown.take(i as int).push(shown[i as int]));
        }
        i += 1;
    }
    assert(shown.take(shown.len() as int) =~= shown);
    out
}

fn copy_fills(fills: &Vec<AccountingFill>) -> (r: Vec<AccountingFill>)
    ensures
        backtest_accounting::fills_view(r@) == backtest_accounting::fills_view(fills@),
{
    let ghost shown = backtest_accounting::fills_view(fills@);
    let mut out: Vec<AccountingFill> = Vec::new();
    let mut i: usize = 0;
    assert(backtest_accounting::fills_view(out@) =~= shown.take(0));
    while i < fills.len()
        invariant
            i <= fills.len(),
            shown == backtest_accounting::fills_view(fills@),
            backtest_accounting::fills_view(out@) == shown.take(i as int),
        decreases fills.len() - i,
    {
        let f: &AccountingFill = &fills[i];
        let item = AccountingFill {
            fill_id: f.fill_id.clone(),
            symbol: f.symbol.clone(),
            side: f.side,
            quantity: f.quantity,
            price_micros: f.price_micros,
            fee_micros: f.fee_micros,
        };
        let ghost before = backtest_accounting::fills_view(out@);
        out.push(item);
        proof {
            assert(item@ == shown[i as int]);
            assert(backtest_accounting::fills_view(out@) =~= before.push(item@));
            assert(shown.take(i + 1) =~= shown.take(i as int).push(shown[i as int]));
        }
        i += 1;
    }
    assert(shown.take(shown.len() as int) =~= shown);
    out
}

/// Closes what a run leaves open, where its configuration asks for it.
pub fn closed_fills(
    manifest: &BacktestRunManifest,
    kernel_fills: &Vec<KernelFill>,
    marks: &TextMap<i64>,
    fees: &Vec<Result<i64, String>>,
) -> (r: Result<Vec<AccountingFill>, String>)
    requires
        can_close(*manifest, kernel_fills@, fees@),
    ensures
        match (r, final_fills(*manifest, kernel_fills@, marks@, fee_views(fees@))) {
            (Ok(list), Ok(shown)) => backtest_accounting::fills_view(list@) == shown,
            (Err(e), Err(code)) => e@ == code,
            _ => false,
        },
{
    let run_id: &str = manifest.content.run_id.as_str();
    let booked = book_kernel_fills(run_id, kernel_fills);
    match manifest.content.configuration.end_of_data {
        EndOfDataPolicy::MarkToMarket => Ok(booked),
        EndOfDataPolicy::ForceClose => {
            let positions = match open_positions(&booked) {
                Ok(list) => list,
                Err(e) => {
                    return Err(e);
                },
            };
            proof {
                assert(open_views(positions@).len() == positions@.len());
            }
            append_force_closes(booked, &positions, marks, fees, run_id)
        },
    }
}

/// Whether an outcome is that of a run in which the strategy kernel did the given things
/// on the given bars.
pub open spec fn concluded(
    r: Result<BacktestResult, String>,
    manifest: BacktestRunManifest,
    kernel: KernelRun,
    bars: Seq<ObservationView>,
    timestamps: Seq<String>,
    fees: Seq<Result<i64, String>>,
    created_at_ms: i64,
) -> bool {
    match final_fills(manifest, kernel.fills@, marks_of(bars), fee_views(fees)) {
        Err(code) => r matches Err(e) && e@ == code,
        Ok(fills) => exists|input: AccountingInput|
            #![trigger backtest_accounting::outcome(input)]
            is_account_of(input, manifest, fills, marks_of(bars)) && concludes(
                r,
                manifest,
                kernel,
                timestamps,
                fills,
                backtest_accounting::outcome(input),
                created_at_ms,
            ),
    }
}

/// Makes the result of a run of what the strategy kernel did on the given bars. `fees`
/// is what the strategy kernel asks for each close at the end of the data.
fn conclude_run(
    manifest: &BacktestRunManifest,
    kernel: &KernelRun,
    observations: &Vec<MarketObservation>,
    timestamps: &Vec<String>,
    fees: &Vec<Result<i64, String>>,
    created_at_ms: i64,
) -> (r: Result<BacktestResult, String>)
    requires
        can_close(*manifest, kernel.fills@, fees@),
    ensures
        concluded(
            r,
            *manifest,
            *kernel,
            observation_views(observations@),
            timestamps@,
            fees@,
            created_at_ms,
        ),
{
    let marks = last_marks(observations);
    let fills = match closed_fills(manifest, &kernel.fills, &marks, fees) {
        Ok(list) => list,
        Err(e) => {
            return Err(e);
        },
    };
    let configuration = &manifest.content.configuration;
    let input = AccountingInput {
        starting_cash_micros: configuration.capital.starting_cash_micros,
        fills: copy_fills(&fills),
        cash_entries: Vec::new(),
        marks_micros: marks,
        end_of_data: backtest_accounting::EndOfDataPolicy::MarkToMarket,
        reconciliation_tolerance_micros: 0,
    };
    let ghost shown = backtest_accounting::fills_view(fills@);
    let ghost bars = marks_of(observation_views(observations@));
    proof {
        assert(is_account_of(input, *manifest, shown, bars));
    }
    let statement = match account(&input) {
        Ok(s) => s,
        Err(e) => {
            let code = accounting_error(&e);
            return Err(code);
        },
    };
    let (positions, _by_symbol) = position_values(&statement.positions);
    let content = BacktestResultContent {
        schema: BACKTEST_RESULT_SCHEMA.to_owned(),
        run_id: manifest.content.run_id.clone(),
        manifest_hash: manifest.manifest_hash.clone(),
        evaluator_version: configuration.evaluator_version.clone(),
        compiler_version: configuration.compiler_version.clone(),
        decisions: decision_values(&kernel.decisions, timestamps),
        orders: order_values(&kernel.orders, timestamps),
        fills: fill_values(&fills, &kernel.fills, timestamps),
        positions,
        ledger: ledger_values(&statement.ledger),
        accounting: accounting_value(&statement),
        diagnostics: reject_diagnostics(&kernel.rejects),
    };
    assert(tells(content, *manifest, *kernel, timestamps@, shown, statement@));
    BacktestResult::build(content, created_at_ms)
}

/// The times of the observations of a dataset.
pub open spec fn row_times(rows: Seq<ObservedRow>) -> Seq<String> {
    rows.map_values(|row: ObservedRow| row.timestamp)
}

fn read_times(rows: &Vec<ObservedRow>) -> (r: Vec<String>)
    ensures
        r@ == row_times(rows@),
{
    let mut out: Vec<String> = Vec::new();
    let mut i: usize = 0;
    while i < rows.len()
        invariant
            i <= rows.len(),
            out@ == row_times(rows@).take(i as int),
        decreases rows.len() - i,
    {
        out.push(rows[i].timestamp.clone());
        i += 1;
    }
    out
}

/// Why nothing is concluded of a run, if nothing is: it cannot start, its strategy does
/// not compile, its bars cannot be used or the strategy kernel stops.
pub open spec fn run_fault(
    manifest: BacktestRunManifest,
    strategy_version: JsonTree,
    snapshot: DatasetSnapshot,
    kernel: KernelOutcome,
) -> Option<Seq<char>> {
    let least = manifest.content.configuration.liquidity.minimum_volume_micros;
    match input_fault(manifest, strategy_version, snapshot) {
        Some(code) => Some(code),
        None => match kernel {
            KernelOutcome::NotCompiled { shown } => Some(kernel_fault(shown@)),
            _ => match normalized_rows(snapshot.observations@, least) {
                Err(code) => Some(code),
                Ok(_) => match kernel {
                    KernelOutcome::Stopped { shown } => Some(kernel_fault(shown@)),
                    _ => None,
                },
            },
        },
    }
}

/// Whether an outcome is that of a run of the given inputs, on which the strategy kernel
/// had the given outcome.
pub open spec fn executed(
    r: Result<BacktestResult, String>,
    manifest: BacktestRunManifest,
    strategy_version: JsonTree,
    snapshot: DatasetSnapshot,
    kernel: KernelOutcome,
    fees: Seq<Result<i64, String>>,
    created_at_ms: i64,
) -> bool {
    let least = manifest.content.configuration.liquidity.minimum_volume_micros;
    match run_fault(manifest, strategy_version, snapshot, kernel) {
        Some(code) => r matches Err(e) && e@ == code,
        None => concluded(
            r,
            manifest,
            kernel->run,
            normalized_rows(snapshot.observations@, least)->Ok_0,
            row_times(snapshot.observations@),
            fees,
            created_at_ms,
        ),
    }
}

/// Runs a strategy over a dataset: the inputs are checked, and the result is made of what
/// the strategy kernel did on the bars. `fees` is what the strategy kernel asks for each
/// close at the end of the data.
pub fn execute(
    manifest: &BacktestRunManifest,
    strategy_version: &Json,
    snapshot: &DatasetSnapshot,
    kernel: &KernelOutcome,
    fees: &Vec<Result<i64, String>>,
    created_at_ms: i64,
) -> (r: Result<BacktestResult, String>)
    requires
        kernel matches KernelOutcome::Ran { run } ==> can_close(*manifest, run.fills@, fees@),
    ensures
        executed(r, *manifest, strategy_version@, *snapshot, *kernel, fees@, created_at_ms),
{
    if let Err(e) = check_inputs(manifest, strategy_version, snapshot) {
        return Err(e);
    }
    if let KernelOutcome::NotCompiled { shown } = kernel {
        return Err(kernel_error(shown.as_str()));
    }
    let least: i64 = manifest.content.configuration.liquidity.minimum_volume_micros;
    let bars = match normalized_bars(&snapshot.observations, least) {
        Ok(list) => list,
        Err(e) => {
            return Err(e);
        },
    };
    match kernel {
        KernelOutcome::NotCompiled { shown } => Err(kernel_error(shown.as_str())),
        KernelOutcome::Stopped { shown } => Err(kernel_error(shown.as_str())),
        KernelOutcome::Ran { run } => {
            let timestamps = read_times(&snapshot.observations);
            conclude_run(manifest, run, &bars, &timestamps, fees, created_at_ms)
        },
    }
}

/// What comes of a replay that came to the given outcome.
pub open spec fn compared(
    expected: BacktestResult,
    recomputed: Result<BacktestResult, String>,
) -> Result<BacktestResult, Seq<char>> {
    match recomputed {
        Err(code) => Err(code@),
        Ok(x) => if x.result_hash@ == expected.result_hash@ {
            Ok(x)
        } else {
            Err("backtest_replay_mismatch"@)
        },
    }
}

/// Whether an outcome is that of a replay of the given inputs against a result.
pub open spec fn replayed(
    r: Result<BacktestResult, String>,
    manifest: BacktestRunManifest,
    strategy_version: JsonTree,
    snapshot: DatasetSnapshot,
    kernel: KernelOutcome,
    fees: Seq<Result<i64, String>>,
    expected: BacktestResult,
) -> bool {
    if !backtest_contracts::result_is_intact(
        expected,
        json::canonical_json_of(backtest_contracts::result_tree(expected.content)),
    ) {
        r matches Err(e) && e@ == "backtest_result_integrity_failed"@
    } else {
        exists|x: Result<BacktestResult, String>| #[trigger]
            executed(
                x,
                manifest,
                strategy_version,
                snapshot,
                kernel,
                fees,
                expected.created_at_ms,
            ) && match (r, compared(expected, x)) {
                (Ok(a), Ok(b)) => a == b,
                (Err(e), Err(code)) => e@ == code,
                _ => false,
            }
    }
}

/// Runs a strategy over a dataset again, and compares what comes of it with the result
/// that it has to reproduce.
pub fn replay(
    manifest: &BacktestRunManifest,
    strategy_version: &Json,
    snapshot: &DatasetSnapshot,
    kernel: &KernelOutcome,
    fees: &Vec<Result<i64, String>>,
    expected: &BacktestResult,
) -> (r: Result<BacktestResult, String>)
    requires
        kernel matches KernelOutcome::Ran { run } ==> can_close(*manifest, run.fills@, fees@),
    ensures
        replayed(r, *manifest, strategy_version@, *snapshot, *kernel, fees@, *expected),
{
    if let Err(e) = expected.verify() {
        return Err(e);
    }
    let recomputed = execute(
        manifest,
        strategy_version,
        snapshot,
        kernel,
        fees,
        expected.created_at_ms,
    );
    match recomputed {
        Err(code) => Err(code),
        Ok(x) => if same(x.result_hash.as_str(), expected.result_hash.as_str()) {
            Ok(x)
        } else {
            Err("backtest_replay_mismatch".to_owned())
        },
    }
}

proof fn held_is_finite(fills: Seq<backtest_accounting::Fill>)
    ensures
        held_after(fills) matches Ok(held) ==> held.dom().finite(),
    decreases fills.len(),
{
    if fills.len() > 0 {
        held_is_finite(fills.drop_last());
    }
}

/// Whether a list names a symbol.
spec fn names(positions: Seq<(Seq<char>, int)>, symbol: Seq<char>) -> bool {
    exists|i: int| 0 <= i < positions.len() && (#[trigger] positions[i]).0 == symbol
}

/// Whether a list holds each symbol once, with what is held of it.
spec fn is_open_list(positions: Seq<(Seq<char>, int)>, held: Map<Seq<char>, i64>) -> bool {
    &&& forall|i: int|
        0 <= i < positions.len() ==> held.dom().contains((#[trigger] positions[i]).0)
            && positions[i].1 == held[positions[i].0]
    &&& forall|i: int, j: int|
        0 <= i < j < positions.len() ==> (#[trigger] positions[i]).0 != (#[trigger] positions[j]).0
}

proof fn open_list_is_complete(symbols: Seq<Seq<char>>, held: Map<Seq<char>, i64>)
    requires
        text::ascending(symbols),
        forall|x: Seq<char>| symbols.contains(x) ==> held.dom().contains(x),
    ensures
        is_open_list(open_of(symbols, held), held),
        forall|x: Seq<char>| #[trigger] names(open_of(symbols, held), x) ==> symbols.contains(x),
        forall|x: Seq<char>|
            symbols.contains(x) && held[x] > 0 ==> #[trigger] names(open_of(symbols, held), x),
    decreases symbols.len(),
{
    if symbols.len() > 0 {
        let shorter = symbols.drop_last();
        let last = symbols.last();
        let earlier = open_of(shorter, held);
        let all = open_of(symbols, held);
        assert(last == symbols[symbols.len() - 1]);
        assert forall|x: Seq<char>| shorter.contains(x) implies symbols.contains(x) by {
            let j = choose|j: int| 0 <= j < shorter.len() && shorter[j] == x;
            assert(symbols[j] == x);
        }
        open_list_is_complete(shorter, held);
        assert(symbols.contains(last));
        assert forall|i: int| 0 <= i < earlier.len() implies (#[trigger] earlier[i]).0 != last by {
            assert(names(earlier, earlier[i].0));
            assert(shorter.contains(earlier[i].0));
            let j = choose|j: int| 0 <= j < shorter.len() && shorter[j] == earlier[i].0;
            assert(text::before(symbols[j], symbols[symbols.len() - 1]));
            text::before_irreflexive(last);
        }
        assert forall|x: Seq<char>| #[trigger] names(all, x) implies symbols.contains(x) by {
            let i = choose|i: int| 0 <= i < all.len() && (#[trigger] all[i]).0 == x;
            if i < earlier.len() {
                assert(earlier[i] == all[i]);
                assert(names(earlier, x));
            }
        }
        assert forall|x: Seq<char>| symbols.contains(x) && held[x] > 0 implies #[trigger] names(
            all,
            x,
        ) by {
            if x == last {
                assert(all[all.len() - 1].0 == x);
            } else {
                let j = choose|j: int| 0 <= j < symbols.len() && symbols[j] == x;
                assert(shorter[j] == x);
                assert(names(earlier, x));
                let i = choose|i: int| 0 <= i < earlier.len() && (#[trigger] earlier[i]).0 == x;
                assert(all[i] == earlier[i]);
            }
        }
    }
}

/// What is held once the positions of a list are closed.
spec fn closed_out(held: Map<Seq<char>, i64>, positions: Seq<(Seq<char>, int)>) -> Map<Seq<char>, i64> {
    Map::new(
        |x: Seq<char>| held.dom().contains(x),
        |x: Seq<char>|
            if names(positions, x) {
                0
            } else {
                held[x]
            },
    )
}

proof fn closes_clear(
    fills: Seq<backtest_accounting::Fill>,
    held: Map<Seq<char>, i64>,
    positions: Seq<(Seq<char>, int)>,
    marks: Map<Seq<char>, i64>,
    fees: Seq<Result<int, Seq<char>>>,
    run_id: Seq<char>,
)
    requires
        held_after(fills) == Ok::<Map<Seq<char>, i64>, Seq<char>>(held),
        is_open_list(positions, held),
        with_closes(fills, positions, marks, fees, run_id) is Ok,
    ensures
        held_after(with_closes(fills, positions, marks, fees, run_id)->Ok_0) == Ok::<
            Map<Seq<char>, i64>,
            Seq<char>,
        >(closed_out(held, positions)),
    decreases positions.len(),
{
    if positions.len() == 0 {
        assert(closed_out(held, positions) =~= held);
    } else {
        let shorter = positions.drop_last();
        let last = positions.last();
        closes_clear(fills, held, shorter, marks, fees, run_id);
        let earlier = with_closes(fills, shorter, marks, fees, run_id)->Ok_0;
        let all = with_closes(fills, positions, marks, fees, run_id)->Ok_0;
        let before = closed_out(held, shorter);
        assert(last == positions[positions.len() - 1]);
        assert(all.drop_last() =~= earlier);
        assert(!names(shorter, last.0));
        assert(before[last.0] == last.1);
        assert(closed_out(held, positions) =~= before.insert(last.0, 0i64)) by {
            assert forall|x: Seq<char>| names(positions, x) == (names(shorter, x) || x == last.0) by {
                if names(shorter, x) {
                    let i = choose|i: int| 0 <= i < shorter.len() && (#[trigger] shorter[i]).0 == x;
                    assert(positions[i].0 == x);
                }
                if names(positions, x) {
                    let i = choose|i: int|
                        0 <= i < positions.len() && (#[trigger] positions[i]).0 == x;
                    if i < shorter.len() {
                        assert(shorter[i].0 == x);
                    }
                }
            }
        }
    }
}

proof fn nothing_is_open(symbols: Seq<Seq<char>>, held: Map<Seq<char>, i64>)
    requires
        forall|i: int| 0 <= i < symbols.len() ==> held[#[trigger] symbols[i]] <= 0,
    ensures
        open_of(symbols, held) == Seq::<(Seq<char>, int)>::empty(),
    decreases symbols.len(),
{
    if symbols.len() > 0 {
        let shorter = symbols.drop_last();
        assert forall|i: int| 0 <= i < shorter.len() implies held[#[trigger] shorter[i]] <= 0 by {
            assert(shorter[i] == symbols[i]);
        }
        nothing_is_open(shorter, held);
        assert(symbols.last() == symbols[symbols.len() - 1]);
    }
}

/// A run that is closed at the end of its data leaves nothing open.
pub proof fn forced_close_leaves_nothing_open(
    manifest: BacktestRunManifest,
    kernel_fills: Seq<KernelFill>,
    marks: Map<Seq<char>, i64>,
    fees: Seq<Result<int, Seq<char>>>,
)
    requires
        manifest.content.configuration.end_of_data == EndOfDataPolicy::ForceClose,
        final_fills(manifest, kernel_fills, marks, fees) is Ok,
    ensures
        left_open(final_fills(manifest, kernel_fills, marks, fees)->Ok_0) == Ok::<
            Seq<(Seq<char>, int)>,
            Seq<char>,
        >(Seq::empty()),
{
    let run_id = manifest.content.run_id@;
    let booked = booked_fills(run_id, kernel_fills);
    let held = held_after(booked)->Ok_0;
    let order = text_map::in_order(held.dom());
    let positions = open_of(order, held);
    held_is_finite(booked);
    text_map::in_order_lists_members(held.dom());
    open_list_is_complete(order, held);
    closes_clear(booked, held, positions, marks, fees, run_id);
    let rest = closed_out(held, positions);
    assert(rest.dom() =~= held.dom());
    assert forall|i: int| 0 <= i < order.len() implies rest[#[trigger] order[i]] <= 0 by {
        assert(order.contains(order[i]));
        assert(held.dom().contains(order[i]));
        if held[order[i]] > 0 {
            assert(names(positions, order[i]));
        }
    }
    nothing_is_open(order, rest);
}

/// A run that is not to be closed is booked as the strategy filled it, and nothing is
/// added; one that is closed keeps every fill of the strategy, in its place.
pub proof fn strategy_fills_are_kept(
    manifest: BacktestRunManifest,
    kernel_fills: Seq<KernelFill>,
    marks: Map<Seq<char>, i64>,
    fees: Seq<Result<int, Seq<char>>>,
)
    requires
        final_fills(manifest, kernel_fills, marks, fees) is Ok,
    ensures
        ({
            let booked = booked_fills(manifest.content.run_id@, kernel_fills);
            let kept = final_fills(manifest, kernel_fills, marks, fees)->Ok_0;
            &&& kept.len() >= booked.len()
            &&& kept.take(booked.len() as int) == booked
            &&& manifest.content.configuration.end_of_data == EndOfDataPolicy::MarkToMarket
                ==> kept == booked
        }),
{
    let run_id = manifest.content.run_id@;
    let booked = booked_fills(run_id, kernel_fills);
    if manifest.content.configuration.end_of_data == EndOfDataPolicy::ForceClose {
        closes_only_add(booked, left_open(booked)->Ok_0, marks, fees, run_id);
    } else {
        assert(booked.take(booked.len() as int) =~= booked);
    }
}

proof fn closes_only_add(
    fills: Seq<backtest_accounting::Fill>,
    positions: Seq<(Seq<char>, int)>,
    marks: Map<Seq<char>, i64>,
    fees: Seq<Result<int, Seq<char>>>,
    run_id: Seq<char>,
)
    requires
        with_closes(fills, positions, marks, fees, run_id) is Ok,
    ensures
        ({
            let all = with_closes(fills, positions, marks, fees, run_id)->Ok_0;
            all.len() == fills.len() + positions.len() && all.take(fills.len() as int) == fills
        }),
    decreases positions.len(),
{
    if positions.len() == 0 {
        assert(fills.take(fills.len() as int) =~= fills);
    } else {
        closes_only_add(fills, positions.drop_last(), marks, fees, run_id);
        let earlier = with_closes(fills, positions.drop_last(), marks, fees, run_id)->Ok_0;
        let all = with_closes(fills, positions, marks, fees, run_id)->Ok_0;
        assert(all.take(fills.len() as int) =~= earlier.take(fills.len() as int));
    }
}

proof fn same_account(a: AccountingInput, b: AccountingInput)
    requires
        a.starting_cash_micros == b.starting_cash_micros,
        backtest_accounting::fills_view(a.fills@) == backtest_accounting::fills_view(b.fills@),
        a.cash_entries@.len() == 0,
        b.cash_entries@.len() == 0,
        a.marks_micros@ == b.marks_micros@,
        a.end_of_data == b.end_of_data,
        a.reconciliation_tolerance_micros == b.reconciliation_tolerance_micros,
    ensures
        backtest_accounting::outcome(a) == backtest_accounting::outcome(b),
{
    assert(backtest_accounting::entries_view(a.cash_entries@)
        =~= backtest_accounting::entries_view(b.cash_entries@));
}

proof fn same_tale(
    a: BacktestResultContent,
    b: BacktestResultContent,
    manifest: BacktestRunManifest,
    kernel: KernelRun,
    timestamps: Seq<String>,
    fills: Seq<backtest_accounting::Fill>,
    statement: backtest_accounting::Statement,
)
    requires
        tells(a, manifest, kernel, timestamps, fills, statement),
        tells(b, manifest, kernel, timestamps, fills, statement),
    ensures
        backtest_contracts::result_tree(a) == backtest_contracts::result_tree(b),
        forall|bytes: Option<Seq<u8>>| #[trigger]
            backtest_contracts::result_seal(a, bytes) == backtest_contracts::result_seal(b, bytes),
{
}

/// A run is determined by its inputs and by what the strategy kernel does: whoever runs
/// it, and whenever, comes to the same result under the same hash, or to the same error.
pub proof fn execution_is_reproduced(
    a: Result<BacktestResult, String>,
    b: Result<BacktestResult, String>,
    manifest: BacktestRunManifest,
    strategy_version: JsonTree,
    snapshot: DatasetSnapshot,
    kernel: KernelOutcome,
    fees: Seq<Result<i64, String>>,
    first_at_ms: i64,
    second_at_ms: i64,
)
    requires
        executed(a, manifest, strategy_version, snapshot, kernel, fees, first_at_ms),
        executed(b, manifest, strategy_version, snapshot, kernel, fees, second_at_ms),
    ensures
        match (a, b) {
            (Ok(x), Ok(y)) => x.seal() == y.seal() && backtest_contracts::result_tree(x.content)
                == backtest_contracts::result_tree(y.content),
            (Err(x), Err(y)) => x@ == y@,
            _ => false,
        },
{
    if run_fault(manifest, strategy_version, snapshot, kernel) is None {
        let least = manifest.content.configuration.liquidity.minimum_volume_micros;
        let marks = marks_of(normalized_rows(snapshot.observations@, least)->Ok_0);
        let times = row_times(snapshot.observations@);
        let run = kernel->run;
        if let Ok(fills) = final_fills(manifest, run.fills@, marks, fee_views(fees)) {
            let p = choose|p: AccountingInput|
                #![trigger backtest_accounting::outcome(p)]
                is_account_of(p, manifest, fills, marks) && concludes(
                    a,
                    manifest,
                    run,
                    times,
                    fills,
                    backtest_accounting::outcome(p),
                    first_at_ms,
                );
            let q = choose|q: AccountingInput|
                #![trigger backtest_accounting::outcome(q)]
                is_account_of(q, manifest, fills, marks) && concludes(
                    b,
                    manifest,
                    run,
                    times,
                    fills,
                    backtest_accounting::outcome(q),
                    second_at_ms,
                );
            same_account(p, q);
            if let Ok(statement) = backtest_accounting::outcome(p) {
                let x = told_by(a, manifest, run, times, fills, statement, first_at_ms);
                let y = told_by(b, manifest, run, times, fills, statement, second_at_ms);
                same_tale(x, y, manifest, run, times, fills, statement);
            }
        }
    }
}

proof fn told_by(
    r: Result<BacktestResult, String>,
    manifest: BacktestRunManifest,
    kernel: KernelRun,
    timestamps: Seq<String>,
    fills: Seq<backtest_accounting::Fill>,
    statement: backtest_accounting::Statement,
    created_at_ms: i64,
) -> (content: BacktestResultContent)
    requires
        concludes(r, manifest, kernel, timestamps, fills, Ok(statement), created_at_ms),
    ensures
        tells(content, manifest, kernel, timestamps, fills, statement),
        match (
            r,
            backtest_contracts::result_seal(
                content,
                json::canonical_json_of(backtest_contracts::result_tree(content)),
            ),
        ) {
            (Ok(x), Ok(seal)) => x.content == content && x.seal() == seal,
            (Err(e), Err(code)) => e@ == code,
            _ => false,
        },
{
    match r {
        Ok(x) => x.content,
        Err(e) => choose|content: BacktestResultContent|
            #![trigger backtest_contracts::result_tree(content)]
            tells(content, manifest, kernel, timestamps, fills, statement)
                && backtest_contracts::result_seal(
                content,
                json::canonical_json_of(backtest_contracts::result_tree(content)),
            ) == Err::<backtest_contracts::SealView, Seq<char>>(e@),
    }
}

/// The replay of a run against the result that came of it is accepted.
pub proof fn replay_accepts_its_own_result(
    first: BacktestResult,
    r: Result<BacktestResult, String>,
    manifest: BacktestRunManifest,
    strategy_version: JsonTree,
    snapshot: DatasetSnapshot,
    kernel: KernelOutcome,
    fees: Seq<Result<i64, String>>,
    created_at_ms: i64,
)
    requires
        executed(Ok(first), manifest, strategy_version, snapshot, kernel, fees, created_at_ms),
        replayed(r, manifest, strategy_version, snapshot, kernel, fees, first),
    ensures
        r matches Ok(x) && x.seal() == first.seal(),
{
    executed_result_is_intact(first, manifest, strategy_version, snapshot, kernel, fees, created_at_ms);
    let x = choose|x: Result<BacktestResult, String>| #[trigger]
        executed(
            x,
            manifest,
            strategy_version,
            snapshot,
            kernel,
            fees,
            first.created_at_ms,
        ) && match (r, compared(first, x)) {
            (Ok(a), Ok(b)) => a == b,
            (Err(e), Err(code)) => e@ == code,
            _ => false,
        };
    execution_is_reproduced(
        Ok(first),
        x,
        manifest,
        strategy_version,
        snapshot,
        kernel,
        fees,
        created_at_ms,
        first.created_at_ms,
    );
}

/// A result that comes of a run verifies.
pub proof fn executed_result_is_intact(
    x: BacktestResult,
    manifest: BacktestRunManifest,
    strategy_version: JsonTree,
    snapshot: DatasetSnapshot,
    kernel: KernelOutcome,
    fees: Seq<Result<i64, String>>,
    created_at_ms: i64,
)
    requires
        executed(Ok(x), manifest, strategy_version, snapshot, kernel, fees, created_at_ms),
    ensures
        backtest_contracts::result_is_intact(
            x,
            json::canonical_json_of(backtest_contracts::result_tree(x.content)),
        ),
{
}

} // verus!

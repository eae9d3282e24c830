//! How a report is worked out from a completed run.

use vstd::prelude::*;

use crate::backtest_accounting;
use crate::backtest_accounting::{AccountingResult, Statement};
use crate::backtest_contracts;
use crate::backtest_contracts::{
    canonical_hash, BacktestAttempt, BacktestDiagnostic, BacktestLifecycleEvent, BacktestResult,
    BacktestRunManifest, BacktestRunRecord, DatasetTimeSlice, DiagnosticSeverity, DiagnosticView,
};
use crate::json;
use crate::json::{Json, JsonMap, JsonTree};
use crate::sorting;
use crate::sorting::stable_sort;
use crate::text;
use crate::text::{copy_list, decimal_text, is_before, join2, join3, same};

use super::details::{ObservationData, QualityFinding, ReportObservation, ReportSnapshot};
use super::intake;
use super::intake::{verify_inputs, EventView};
use super::model;
use super::model::{
    BacktestCostsAndRisk, BacktestJournalEvent, BacktestReport, BacktestReportAssumptions,
    BacktestReportChart, BacktestReportDiagnostic, BacktestReportMetadata, BacktestReportOverview,
    BacktestReportProvenance, BacktestReportRun, GapView, OverviewView, RemarkView, StepView,
    UnavailableMetric, BACKTEST_REPORT_SCHEMA,
};
use super::trades;
use super::trades::{project_trades, refuse, BacktestTrade, FaultView, ReportFault, TradeView};

verus! {

/// A quotient without its fraction, whatever the signs.
pub open spec fn quotient(n: int, d: int) -> int {
    let size = (if n >= 0 {
        n
    } else {
        -n
    }) / (if d >= 0 {
        d
    } else {
        -d
    });
    if (n >= 0) == (d >= 0) {
        size
    } else {
        -size
    }
}

/// How a closed trade ended, or that it is open.
#[derive(Clone, Copy, Debug, PartialEq, Eq, Structural)]
pub enum TradeEnd {
    Win,
    Loss,
    Wash,
    Open,
    Unknown,
}

/// How a trade ended.
pub open spec fn end_of(t: TradeView) -> TradeEnd {
    if !t.realized {
        TradeEnd::Open
    } else {
        match t.pnl {
            Some(n) => if n > 0 {
                TradeEnd::Win
            } else if n < 0 {
                TradeEnd::Loss
            } else {
                TradeEnd::Wash
            },
            None => TradeEnd::Unknown,
        }
    }
}

/// How many trades ended in one way.
pub open spec fn ended(list: Seq<TradeView>, how: TradeEnd) -> int
    decreases list.len(),
{
    if list.len() == 0 {
        0
    } else {
        ended(list.drop_last(), how) + (if end_of(list.last()) == how {
            1int
        } else {
            0
        })
    }
}

fn count_ended(list: &Vec<BacktestTrade>, how: TradeEnd) -> (r: u64)
    ensures
        r == ended(trades::trade_views(list@), how),
{
    let ghost shown = trades::trade_views(list@);
    let mut n: u64 = 0;
    let mut i: usize = 0;
    assert(shown.take(0) =~= Seq::empty());
    while i < list.len()
        invariant
            i <= list.len(),
            shown == trades::trade_views(list@),
            n <= i,
            n == ended(shown.take(i as int), how),
        decreases list.len() - i,
    {
        let t: &BacktestTrade = &list[i];
        let end: TradeEnd = if !t.realized {
            TradeEnd::Open
        } else {
            match t.pnl_micros {
                Some(pnl) => if pnl > 0 {
                    TradeEnd::Win
                } else if pnl < 0 {
                    TradeEnd::Loss
                } else {
                    TradeEnd::Wash
                },
                None => TradeEnd::Unknown,
            }
        };
        proof {
            assert(shown.take(i + 1).drop_last() =~= shown.take(i as int));
            assert(shown.take(i + 1).last() == t@);
        }
        if end == how {
            n += 1;
        }
        i += 1;
    }
    assert(shown.take(shown.len() as int) =~= shown);
    n
}

/// The return of a run in hundredths of a percent of what it started with: none where it
/// started with nothing.
pub open spec fn return_of(net: int, start: int) -> Result<Option<int>, FaultView> {
    if start == 0 {
        Ok(None)
    } else if backtest_accounting::fits(quotient(net * 10_000, start)) {
        Ok(Some(quotient(net * 10_000, start)))
    } else {
        Err(trades::bad_amount())
    }
}

fn return_bps(net: i64, start: i64) -> (r: Result<Option<i64>, ReportFault>)
    ensures
        match (r, return_of(net as int, start as int)) {
            (Ok(a), Ok(b)) => trades::number_of(a) == b,
            (Err(e), Err(f)) => e@ == f,
            _ => false,
        },
{
    if start == 0 {
        return Ok(None);
    }
    let scaled: i128 = (net as i128) * 10_000;
    let n: i128 = if scaled >= 0 {
        scaled
    } else {
        -scaled
    };
    let wide: i128 = start as i128;
    let d: i128 = if wide >= 0 {
        wide
    } else {
        -wide
    };
    proof {
        vstd::arithmetic::div_mod::lemma_div_pos_is_pos(n as int, d as int);
        vstd::arithmetic::div_mod::lemma_div_nonincreasing(n as int, d as int);
    }
    let size: i128 = n / d;
    let share: i128 = if (scaled >= 0) == (wide >= 0) {
        size
    } else {
        -size
    };
    if share < -0x8000_0000_0000_0000 || share > 0x7fff_ffff_ffff_ffff {
        return refuse("backtest_report_accounting_invalid");
    }
    Ok(Some(share as i64))
}

/// What came out of a run, in numbers.
pub open spec fn overview_of(start: int, account: Statement, list: Seq<TradeView>) -> Result<
    OverviewView,
    FaultView,
> {
    let net = account.equity - start;
    let gross = net + account.costs;
    if !backtest_accounting::fits(net) || !backtest_accounting::fits(gross) {
        Err(trades::bad_amount())
    } else {
        match return_of(net, start) {
            Err(f) => Err(f),
            Ok(bps) => Ok(
                OverviewView {
                    starting_equity: start,
                    ending_cash: account.cash,
                    market_value: account.market_value,
                    ending_equity: account.equity,
                    gross_pnl: gross,
                    net_pnl: net,
                    realized_pnl: account.realized,
                    unrealized_pnl: account.unrealized,
                    return_bps: bps,
                    trade_count: list.len() as int,
                    win_count: ended(list, TradeEnd::Win),
                    loss_count: ended(list, TradeEnd::Loss),
                    wash_count: ended(list, TradeEnd::Wash),
                    open_count: ended(list, TradeEnd::Open),
                    fees: account.costs,
                    cost_drag: account.costs,
                    reconciliation_status: if account.residual == 0 {
                        "reconciled"@
                    } else {
                        "unreconciled"@
                    },
                    reconciliation_residual: account.residual,
                },
            ),
        }
    }
}

/// Works out what came out of a run, in numbers.
pub fn overview(start: i64, accounting: &AccountingResult, list: &Vec<BacktestTrade>) -> (r: Result<
    BacktestReportOverview,
    ReportFault,
>)
    ensures
        match (r, overview_of(start as int, accounting@, trades::trade_views(list@))) {
            (Ok(o), Ok(shown)) => o@ == shown,
            (Err(e), Err(f)) => e@ == f,
            _ => false,
        },
{
    let net: i64 = match accounting.ending_equity_micros.checked_sub(start) {
        Some(n) => n,
        None => {
            return refuse("backtest_report_accounting_invalid");
        },
    };
    let gross: i64 = match net.checked_add(accounting.costs_micros) {
        Some(n) => n,
        None => {
            return refuse("backtest_report_accounting_invalid");
        },
    };
    let bps: Option<i64> = return_bps(net, start)?;
    let status: &str = if accounting.reconciliation_residual_micros == 0 {
        "reconciled"
    } else {
        "unreconciled"
    };
    Ok(
        BacktestReportOverview {
            starting_equity_micros: start,
            ending_cash_micros: accounting.ending_cash_micros,
            market_value_micros: accounting.market_value_micros,
            ending_equity_micros: accounting.ending_equity_micros,
            gross_pnl_micros: gross,
            net_pnl_micros: net,
            realized_pnl_micros: accounting.realized_pnl_micros,
            unrealized_pnl_micros: accounting.unrealized_pnl_micros,
            return_bps: bps,
            trade_count: list.len() as u64,
            win_count: count_ended(list, TradeEnd::Win),
            loss_count: count_ended(list, TradeEnd::Loss),
            wash_count: count_ended(list, TradeEnd::Wash),
            open_count: count_ended(list, TradeEnd::Open),
            fees_micros: accounting.costs_micros,
            cost_drag_micros: accounting.costs_micros,
            reconciliation_status: status.to_owned(),
            reconciliation_residual_micros: accounting.reconciliation_residual_micros,
        },
    )
}

/// How a price in millionths is written in units.
#[derive(Debug)]
pub struct PricePoint {
    pub micros: i64,
    pub value: Json,
}

/// How a price is written: null where the table does not hold it.
pub open spec fn written_price(prices: Seq<PricePoint>, micros: int) -> JsonTree
    decreases prices.len(),
{
    if prices.len() == 0 {
        JsonTree::Null
    } else if prices[0].micros == micros {
        prices[0].value@
    } else {
        written_price(prices.skip(1), micros)
    }
}

fn write_price(prices: &Vec<PricePoint>, micros: i64) -> (r: Json)
    ensures
        r@ == written_price(prices@, micros as int),
{
    let mut i: usize = 0;
    assert(prices@.skip(0) =~= prices@);
    while i < prices.len()
        invariant
            i <= prices.len(),
            written_price(prices@, micros as int) == written_price(
                prices@.skip(i as int),
                micros as int,
            ),
        decreases prices.len() - i,
    {
        proof {
            assert(prices@.skip(i as int)[0] == prices@[i as int]);
            assert(prices@.skip(i as int).skip(1) =~= prices@.skip(i + 1));
        }
        if prices[i].micros == micros {
            return prices[i].value.copy();
        }
        i += 1;
    }
    assert(prices@.skip(prices@.len() as int) =~= Seq::empty());
    Json::Null
}

/// A member of a value; null where it has no such member.
pub open spec fn part(tree: JsonTree, key: Seq<char>) -> JsonTree {
    match json::member(tree, key) {
        Some(t) => t,
        None => JsonTree::Null,
    }
}

fn part_of(value: &Json, key: &str) -> (r: Json)
    ensures
        r@ == part(value@, key@),
{
    match value.field(key) {
        Some(v) => v.copy(),
        None => Json::Null,
    }
}

/// The price that a marker tells of.
pub open spec fn marked_price(tree: JsonTree) -> int {
    match json::i64_member(tree, "priceMicros"@) {
        Some(n) => n,
        None => 0,
    }
}

/// A marker as it is drawn: with its price in units, and at the end of the data where no
/// time is known.
pub open spec fn drawn_marker(tree: JsonTree, prices: Seq<PricePoint>, last: Seq<char>) -> JsonTree {
    match tree {
        JsonTree::Object(map) => {
            let priced = map.insert("price"@, written_price(prices, marked_price(tree)));
            if part(JsonTree::Object(priced), "timestamp"@) is Null {
                JsonTree::Object(priced.insert("timestamp"@, JsonTree::Text(last)))
            } else {
                JsonTree::Object(priced)
            }
        },
        _ => tree,
    }
}

fn draw_marker(marker: &Json, prices: &Vec<PricePoint>, last: &str) -> (r: Json)
    ensures
        r@ == drawn_marker(marker@, prices@, last@),
{
    let micros: i64 = match marker.i64_field("priceMicros") {
        Some(n) => n,
        None => 0,
    };
    match marker.copy() {
        Json::Object(map) => {
            let priced = Json::object(map.with("price", write_price(prices, micros)));
            let missing: bool = match part_of(&priced, "timestamp") {
                Json::Null => true,
                _ => false,
            };
            match priced {
                Json::Object(entries) => if missing {
                    Json::object(entries.with("timestamp", Json::text(last)))
                } else {
                    Json::object(entries)
                },
                other => other,
            }
        },
        other => other,
    }
}

/// Where a marker is drawn.
pub open spec fn coordinate(marker: JsonTree) -> JsonTree {
    JsonTree::Object(
        map![
            "timestamp"@ => part(marker, "timestamp"@),
            "price"@ => part(marker, "price"@),
            "fillId"@ => part(marker, "fillId"@),
        ],
    )
}

fn chart_coordinate(marker: &Json) -> (r: Json)
    ensures
        r@ == coordinate(marker@),
{
    Json::object(
        JsonMap::new().with("timestamp", part_of(marker, "timestamp")).with(
            "price",
            part_of(marker, "price"),
        ).with("fillId", part_of(marker, "fillId")),
    )
}

/// Whether a gain is one.
pub open spec fn tone_of(pnl: Option<int>) -> Seq<char> {
    match pnl {
        Some(n) => if n > 0 {
            "profit"@
        } else if n < 0 {
            "loss"@
        } else {
            "wash"@
        },
        None => "wash"@,
    }
}

/// Says whether a gain is one.
pub fn tone(pnl: Option<i64>) -> (r: &'static str)
    ensures
        r@ == tone_of(trades::number_of(pnl)),
{
    match pnl {
        Some(n) => if n > 0 {
            "profit"
        } else if n < 0 {
            "loss"
        } else {
            "wash"
        },
        None => "wash",
    }
}

/// The line from the entry of a trade to its exit.
pub open spec fn closed_line(t: TradeView, entry: JsonTree, exit: JsonTree) -> JsonTree {
    JsonTree::Object(
        map![
            "tradeId"@ => JsonTree::Text(t.trade_id),
            "entryFillId"@ => part(entry, "fillId"@),
            "exitFillId"@ => part(exit, "fillId"@),
            "from"@ => coordinate(entry),
            "to"@ => coordinate(exit),
            "realized"@ => JsonTree::Bool(true),
            "pnlMicros"@ => model::number_or_null(t.pnl),
            "tone"@ => JsonTree::Text(tone_of(t.pnl)),
        ],
    )
}

/// The line from the entry of a trade to its valuation at the end.
pub open spec fn open_line(t: TradeView, entry: JsonTree, valuation: JsonTree) -> JsonTree {
    JsonTree::Object(
        map![
            "tradeId"@ => JsonTree::Text(t.trade_id),
            "entryFillId"@ => part(entry, "fillId"@),
            "valuationFillId"@ => part(valuation, "fillId"@),
            "from"@ => coordinate(entry),
            "to"@ => coordinate(valuation),
            "realized"@ => JsonTree::Bool(false),
            "pnlMicros"@ => model::number_or_null(t.pnl),
            "tone"@ => JsonTree::Text("unrealized"@),
        ],
    )
}

/// The markers and the lines of one trade.
pub open spec fn drawn_trade(t: TradeView, prices: Seq<PricePoint>, last: Seq<char>) -> (
    Seq<JsonTree>,
    Seq<JsonTree>,
) {
    let entry = drawn_marker(t.entry, prices, last);
    let closed = match t.exit {
        Some(m) => {
            let exit = drawn_marker(m, prices, last);
            (seq![entry, exit], seq![closed_line(t, entry, exit)])
        },
        None => (seq![entry], Seq::empty()),
    };
    match t.terminal_valuation {
        Some(m) => {
            let valuation = drawn_marker(m, prices, last);
            (closed.0.push(valuation), closed.1.push(open_line(t, entry, valuation)))
        },
        None => closed,
    }
}

/// The markers and the lines of some trades.
pub open spec fn drawn_trades(list: Seq<TradeView>, prices: Seq<PricePoint>, last: Seq<char>) -> (
    Seq<JsonTree>,
    Seq<JsonTree>,
)
    decreases list.len(),
{
    if list.len() == 0 {
        (Seq::empty(), Seq::empty())
    } else {
        let earlier = drawn_trades(list.drop_last(), prices, last);
        let own = drawn_trade(list.last(), prices, last);
        (earlier.0 + own.0, earlier.1 + own.1)
    }
}

fn put_value(list: &mut Vec<Json>, value: Json)
    ensures
        trades::value_trees(final(list)@) == trades::value_trees(old(list)@).push(value@),
{
    let ghost before = trades::value_trees(list@);
    list.push(value);
    assert(trades::value_trees(list@) =~= before.push(value@));
}

fn pnl_value(t: &BacktestTrade) -> (r: Json)
    ensures
        r@ == model::number_or_null(t@.pnl),
{
    match t.pnl_micros {
        Some(n) => Json::Int(n),
        None => Json::Null,
    }
}

fn draw_trade(
    t: &BacktestTrade,
    prices: &Vec<PricePoint>,
    last: &str,
    markers: &mut Vec<Json>,
    connectors: &mut Vec<Json>,
)
    ensures
        trades::value_trees(final(markers)@) == trades::value_trees(old(markers)@) + drawn_trade(
            t@,
            prices@,
            last@,
        ).0,
        trades::value_trees(final(connectors)@) == trades::value_trees(old(connectors)@)
            + drawn_trade(t@, prices@, last@).1,
{
    let ghost before = trades::value_trees(markers@);
    let ghost lines = trades::value_trees(connectors@);
    let entry = draw_marker(&t.entry, prices, last);
    put_value(markers, entry.copy());
    if let Some(m) = &t.exit {
        let exit = draw_marker(m, prices, last);
        put_value(markers, exit.copy());
        put_value(
            connectors,
            Json::object(
                JsonMap::new().with("tradeId", Json::text(t.trade_id.as_str())).with(
                    "entryFillId",
                    part_of(&entry, "fillId"),
                ).with("exitFillId", part_of(&exit, "fillId")).with(
                    "from",
                    chart_coordinate(&entry),
                ).with("to", chart_coordinate(&exit)).with("realized", Json::Bool(true)).with(
                    "pnlMicros",
                    pnl_value(t),
                ).with("tone", Json::text(tone(t.pnl_micros))),
            ),
        );
    }
    if let Some(m) = &t.terminal_valuation {
        let valuation = draw_marker(m, prices, last);
        put_value(markers, valuation.copy());
        put_value(
            connectors,
            Json::object(
                JsonMap::new().with("tradeId", Json::text(t.trade_id.as_str())).with(
                    "entryFillId",
                    part_of(&entry, "fillId"),
                ).with("valuationFillId", part_of(&valuation, "fillId")).with(
                    "from",
                    chart_coordinate(&entry),
                ).with("to", chart_coordinate(&valuation)).with("realized", Json::Bool(false)).with(
                    "pnlMicros",
                    pnl_value(t),
                ).with("tone", Json::text("unrealized")),
            ),
        );
    }
    proof {
        let own = drawn_trade(t@, prices@, last@);
        assert(trades::value_trees(markers@) =~= before + own.0);
        assert(trades::value_trees(connectors@) =~= lines + own.1);
    }
}

/// One bar as it is drawn; none where something else was observed.
pub open spec fn drawn_bar(row: ReportObservation) -> Option<JsonTree> {
    match row.data {
        ObservationData::Bar(bar) => Some(
            JsonTree::Object(
                map![
                    "timestamp"@ => JsonTree::Text(row.timestamp@),
                    "symbol"@ => JsonTree::Text(row.instrument_id@),
                    "open"@ => bar.open@,
                    "high"@ => bar.high@,
                    "low"@ => bar.low@,
                    "close"@ => bar.close@,
                    "volume"@ => bar.volume@,
                ],
            ),
        ),
        ObservationData::OptionContract(_) => None,
    }
}

/// The bars as they are drawn.
pub open spec fn drawn_bars(rows: Seq<ReportObservation>) -> Seq<JsonTree>
    decreases rows.len(),
{
    if rows.len() == 0 {
        Seq::empty()
    } else {
        match drawn_bar(rows.last()) {
            Some(bar) => drawn_bars(rows.drop_last()).push(bar),
            None => drawn_bars(rows.drop_last()),
        }
    }
}

fn draw_bars(rows: &Vec<ReportObservation>) -> (r: Vec<Json>)
    ensures
        trades::value_trees(r@) == drawn_bars(rows@),
{
    let mut bars: Vec<Json> = Vec::new();
    let mut i: usize = 0;
    proof {
        assert(rows@.take(0) =~= Seq::empty());
        assert(trades::value_trees(bars@) =~= Seq::empty());
    }
    while i < rows.len()
        invariant
            i <= rows.len(),
            trades::value_trees(bars@) == drawn_bars(rows@.take(i as int)),
        decreases rows.len() - i,
    {
        proof {
            assert(rows@.take(i + 1).drop_last() =~= rows@.take(i as int));
            assert(rows@.take(i + 1).last() == rows@[i as int]);
        }
        match &rows[i].data {
            ObservationData::Bar(bar) => {
                let drawn = Json::object(
                    JsonMap::new().with("timestamp", Json::text(rows[i].timestamp.as_str())).with(
                        "symbol",
                        Json::text(rows[i].instrument_id.as_str()),
                    ).with("open", bar.open.copy()).with("high", bar.high.copy()).with(
                        "low",
                        bar.low.copy(),
                    ).with("close", bar.close.copy()).with("volume", bar.volume.copy()),
                );
                put_value(&mut bars, drawn);
            },
            ObservationData::OptionContract(_) => {},
        }
        i += 1;
    }
    assert(rows@.take(rows@.len() as int) =~= rows@);
    bars
}

/// The codes of the findings that are more than information.
pub open spec fn warning_codes(findings: Seq<QualityFinding>) -> Seq<Seq<char>>
    decreases findings.len(),
{
    if findings.len() == 0 {
        Seq::empty()
    } else if findings.last().severity != DiagnosticSeverity::Info {
        warning_codes(findings.drop_last()).push(findings.last().code@)
    } else {
        warning_codes(findings.drop_last())
    }
}

fn list_warnings(findings: &Vec<QualityFinding>) -> (r: Vec<String>)
    ensures
        text::texts(r@) == warning_codes(findings@),
{
    let mut codes: Vec<String> = Vec::new();
    let mut i: usize = 0;
    proof {
        assert(findings@.take(0) =~= Seq::empty());
        assert(text::texts(codes@) =~= Seq::empty());
    }
    while i < findings.len()
        invariant
            i <= findings.len(),
            text::texts(codes@) == warning_codes(findings@.take(i as int)),
        decreases findings.len() - i,
    {
        proof {
            assert(findings@.take(i + 1).drop_last() =~= findings@.take(i as int));
            assert(findings@.take(i + 1).last() == findings@[i as int]);
        }
        if findings[i].severity != DiagnosticSeverity::Info {
            let ghost before = text::texts(codes@);
            let code = findings[i].code.clone();
            codes.push(code);
            assert(text::texts(codes@) =~= before.push(code@));
        }
        i += 1;
    }
    assert(findings@.take(findings@.len() as int) =~= findings@);
    codes
}

/// The stretch of time that a snapshot covers.
pub open spec fn range_tree(snapshot: ReportSnapshot) -> JsonTree {
    JsonTree::Object(
        map![
            "start"@ => JsonTree::Text(snapshot.first_timestamp@),
            "end"@ => JsonTree::Text(snapshot.last_timestamp@),
        ],
    )
}

/// Whether a chart is that of some trades.
pub open spec fn chart_is_of(
    c: BacktestReportChart,
    snapshot: ReportSnapshot,
    list: Seq<TradeView>,
    evidence_refs: Seq<Seq<char>>,
    prices: Seq<PricePoint>,
) -> bool {
    let drawn = drawn_trades(list, prices, snapshot.last_timestamp@);
    &&& c.range@ == range_tree(snapshot)
    &&& trades::value_trees(c.bars@) == drawn_bars(snapshot.observations@)
    &&& trades::value_trees(c.markers@) == drawn.0
    &&& trades::value_trees(c.connectors@) == drawn.1
    &&& text::texts(c.warnings@) == warning_codes(snapshot.quality_findings@)
    &&& text::texts(c.evidence_refs@) == evidence_refs
}

/// Draws the chart of a run. Of every price in millionths, `prices` says how it is
/// written in units.
pub fn chart(
    snapshot: &ReportSnapshot,
    list: &Vec<BacktestTrade>,
    evidence_refs: &Vec<String>,
    prices: &Vec<PricePoint>,
) -> (r: BacktestReportChart)
    ensures
        chart_is_of(
            r,
            *snapshot,
            trades::trade_views(list@),
            text::texts(evidence_refs@),
            prices@,
        ),
{
    let ghost shown = trades::trade_views(list@);
    let mut markers: Vec<Json> = Vec::new();
    let mut connectors: Vec<Json> = Vec::new();
    let mut i: usize = 0;
    proof {
        assert(shown.take(0) =~= Seq::empty());
        assert(trades::value_trees(markers@) =~= Seq::empty());
        assert(trades::value_trees(connectors@) =~= Seq::empty());
    }
    while i < list.len()
        invariant
            i <= list.len(),
            shown == trades::trade_views(list@),
            trades::value_trees(markers@) == drawn_trades(
                shown.take(i as int),
                prices@,
                snapshot.last_timestamp@,
            ).0,
            trades::value_trees(connectors@) == drawn_trades(
                shown.take(i as int),
                prices@,
                snapshot.last_timestamp@,
            ).1,
        decreases list.len() - i,
    {
        proof {
            assert(shown.take(i + 1).drop_last() =~= shown.take(i as int));
            assert(shown.take(i + 1).last() == list@[i as int]@);
        }
        draw_trade(
            &list[i],
            prices,
            snapshot.last_timestamp.as_str(),
            &mut markers,
            &mut connectors,
        );
        i += 1;
    }
    assert(shown.take(shown.len() as int) =~= shown);
    BacktestReportChart {
        range: Json::object(
            JsonMap::new().with("start", Json::text(snapshot.first_timestamp.as_str())).with(
                "end",
                Json::text(snapshot.last_timestamp.as_str()),
            ),
        ),
        bars: draw_bars(&snapshot.observations),
        markers,
        connectors,
        warnings: list_warnings(&snapshot.quality_findings),
        evidence_refs: copy_list(evidence_refs),
    }
}

/// A diagnostic as a report gives it.
pub open spec fn remark_of(d: DiagnosticView) -> RemarkView {
    RemarkView {
        severity: d.severity,
        code: d.code,
        detail: d.detail,
        evidence_refs: Seq::empty(),
    }
}

/// A finding on the data as a report gives it.
pub open spec fn finding_remark(f: QualityFinding) -> RemarkView {
    RemarkView {
        severity: f.severity,
        code: f.code@,
        detail: f.detail@,
        evidence_refs: Seq::empty(),
    }
}

/// The hashes of some events.
pub open spec fn event_hashes(events: Seq<EventView>) -> Seq<Seq<char>> {
    events.map_values(|e: EventView| e.event_hash)
}

/// What a report says of the verified events.
pub open spec fn lifecycle_remark(events: Seq<EventView>) -> RemarkView {
    RemarkView {
        severity: DiagnosticSeverity::Info,
        code: "backtest_lifecycle_verified"@,
        detail: text::decimal(events.len()) + " immutable lifecycle events verified"@,
        evidence_refs: event_hashes(events),
    }
}

/// Remarks in the order of their codes, and of their details where the codes are one.
pub open spec fn remark_order() -> spec_fn(RemarkView, RemarkView) -> bool {
    |a: RemarkView, b: RemarkView|
        text::before(a.code, b.code) || (a.code == b.code && text::before(a.detail, b.detail))
}

fn remark_before(a: &BacktestReportDiagnostic, b: &BacktestReportDiagnostic) -> (r: bool)
    ensures
        r == remark_order()(a@, b@),
{
    is_before(a.code.as_str(), b.code.as_str()) || (same(a.code.as_str(), b.code.as_str())
        && is_before(a.detail.as_str(), b.detail.as_str()))
}

/// What there is to say of a run, before it is put in order.
pub open spec fn remarks_in_turn(
    validation: Seq<DiagnosticView>,
    result: Seq<DiagnosticView>,
    findings: Seq<QualityFinding>,
    events: Seq<EventView>,
) -> Seq<RemarkView> {
    validation.map_values(|d: DiagnosticView| remark_of(d)) + result.map_values(
        |d: DiagnosticView| remark_of(d),
    ) + findings.map_values(|f: QualityFinding| finding_remark(f)) + seq![lifecycle_remark(events)]
}

fn put_remark(
    list: &mut Vec<BacktestReportDiagnostic>,
    severity: DiagnosticSeverity,
    code: &str,
    detail: &str,
    evidence_refs: Vec<String>,
)
    ensures
        sorting::views(final(list)@) == sorting::views(old(list)@).push(
            RemarkView {
                severity,
                code: code@,
                detail: detail@,
                evidence_refs: text::texts(evidence_refs@),
            },
        ),
{
    let ghost before = sorting::views(list@);
    let item = BacktestReportDiagnostic {
        severity,
        code: code.to_owned(),
        detail: detail.to_owned(),
        evidence_refs,
    };
    list.push(item);
    assert(sorting::views(list@) =~= before.push(item@));
}

fn put_diagnostics(list: &mut Vec<BacktestReportDiagnostic>, found: &Vec<BacktestDiagnostic>)
    ensures
        sorting::views(final(list)@) == sorting::views(old(list)@)
            + backtest_contracts::diagnostic_views(found@).map_values(
            |d: DiagnosticView| remark_of(d),
        ),
{
    let ghost before = sorting::views(list@);
    let ghost more = backtest_contracts::diagnostic_views(found@).map_values(
        |d: DiagnosticView| remark_of(d),
    );
    let mut i: usize = 0;
    assert(before + more.take(0) =~= before);
    while i < found.len()
        invariant
            i <= found.len(),
            before == sorting::views(old(list)@),
            more == backtest_contracts::diagnostic_views(found@).map_values(
                |d: DiagnosticView| remark_of(d),
            ),
            sorting::views(list@) == before + more.take(i as int),
        decreases found.len() - i,
    {
        let none: Vec<String> = Vec::new();
        proof {
            assert(text::texts(none@) =~= Seq::empty());
        }
        put_remark(
            list,
            found[i].severity,
            found[i].code.as_str(),
            found[i].detail.as_str(),
            none,
        );
        proof {
            assert(more[i as int] == remark_of(found@[i as int]@));
            assert(sorting::views(list@) =~= before + more.take(i + 1));
        }
        i += 1;
    }
    assert(more.take(more.len() as int) =~= more);
}

fn put_findings(list: &mut Vec<BacktestReportDiagnostic>, found: &Vec<QualityFinding>)
    ensures
        sorting::views(final(list)@) == sorting::views(old(list)@) + found@.map_values(
            |f: QualityFinding| finding_remark(f),
        ),
{
    let ghost before = sorting::views(list@);
    let ghost more = found@.map_values(|f: QualityFinding| finding_remark(f));
    let mut i: usize = 0;
    assert(before + more.take(0) =~= before);
    while i < found.len()
        invariant
            i <= found.len(),
            before == sorting::views(old(list)@),
            more == found@.map_values(|f: QualityFinding| finding_remark(f)),
            sorting::views(list@) == before + more.take(i as int),
        decreases found.len() - i,
    {
        let none: Vec<String> = Vec::new();
        proof {
            assert(text::texts(none@) =~= Seq::empty());
        }
        put_remark(
            list,
            found[i].severity,
            found[i].code.as_str(),
            found[i].detail.as_str(),
            none,
        );
        proof {
            assert(more[i as int] == finding_remark(found@[i as int]));
            assert(sorting::views(list@) =~= before + more.take(i + 1));
        }
        i += 1;
    }
    assert(more.take(more.len() as int) =~= more);
}

fn list_hashes(events: &Vec<BacktestLifecycleEvent>) -> (r: Vec<String>)
    ensures
        text::texts(r@) == event_hashes(intake::event_views(events@)),
{
    let ghost shown = event_hashes(intake::event_views(events@));
    let mut out: Vec<String> = Vec::new();
    let mut i: usize = 0;
    assert(text::texts(out@) =~= shown.take(0));
    while i < events.len()
        invariant
            i <= events.len(),
            shown == event_hashes(intake::event_views(events@)),
            text::texts(out@) == shown.take(i as int),
        decreases events.len() - i,
    {
        let ghost before = text::texts(out@);
        let hash = events[i].event_hash.clone();
        out.push(hash);
        proof {
            assert(shown[i as int] == hash@);
            assert(text::texts(out@) =~= before.push(hash@));
            assert(shown.take(i + 1) =~= shown.take(i as int).push(hash@));
        }
        i += 1;
    }
    assert(shown.take(shown.len() as int) =~= shown);
    out
}

/// Lists what there is to say of a run.
pub fn diagnostics(
    validation: &Vec<BacktestDiagnostic>,
    result: &Vec<BacktestDiagnostic>,
    snapshot: &ReportSnapshot,
    events: &Vec<BacktestLifecycleEvent>,
) -> (r: Vec<BacktestReportDiagnostic>)
    ensures
        sorting::views(r@) == sorting::sorted(
            remarks_in_turn(
                backtest_contracts::diagnostic_views(validation@),
                backtest_contracts::diagnostic_views(result@),
                snapshot.quality_findings@,
                intake::event_views(events@),
            ),
            remark_order(),
        ),
{
    let mut list: Vec<BacktestReportDiagnostic> = Vec::new();
    assert(sorting::views(list@) =~= Seq::empty());
    put_diagnostics(&mut list, validation);
    put_diagnostics(&mut list, result);
    put_findings(&mut list, &snapshot.quality_findings);
    let count = decimal_text(events.len() as u64);
    let detail = join2(count.as_str(), " immutable lifecycle events verified");
    let hashes = list_hashes(events);
    put_remark(
        &mut list,
        DiagnosticSeverity::Info,
        "backtest_lifecycle_verified",
        detail.as_str(),
        hashes,
    );
    proof {
        assert(intake::event_views(events@).len() == events@.len());
        assert(sorting::views(list@) =~= remarks_in_turn(
            backtest_contracts::diagnostic_views(validation@),
            backtest_contracts::diagnostic_views(result@),
            snapshot.quality_findings@,
            intake::event_views(events@),
        ));
    }
    stable_sort(list, remark_before, Ghost(remark_order()))
}

/// One step of a run as a report tells of it.
pub open spec fn step_of(e: EventView) -> StepView {
    StepView {
        event_id: e.event_id,
        event_type: e.event_type,
        timestamp_ms: e.occurred_at_ms,
        detail: e.detail,
        from_state: e.from_state,
        to_state: e.to_state,
        attempt_id: e.attempt_id,
        evidence_hash: e.event_hash,
    }
}

/// Tells of the steps of a run.
pub fn journal(events: &Vec<BacktestLifecycleEvent>) -> (r: Vec<BacktestJournalEvent>)
    ensures
        sorting::views(r@) == intake::event_views(events@).map_values(|e: EventView| step_of(e)),
{
    let ghost shown = intake::event_views(events@).map_values(|e: EventView| step_of(e));
    let mut out: Vec<BacktestJournalEvent> = Vec::new();
    let mut i: usize = 0;
    assert(sorting::views(out@) =~= shown.take(0));
    while i < events.len()
        invariant
            i <= events.len(),
            shown == intake::event_views(events@).map_values(|e: EventView| step_of(e)),
            sorting::views(out@) == shown.take(i as int),
        decreases events.len() - i,
    {
        let ghost before = sorting::views(out@);
        let e: &BacktestLifecycleEvent = &events[i];
        let step = BacktestJournalEvent {
            event_id: e.event_id.clone(),
            event_type: e.event_type.clone(),
            timestamp_ms: e.occurred_at_ms,
            detail: e.detail.clone(),
            from_state: e.from_state.clone(),
            to_state: e.to_state.clone(),
            attempt_id: e.attempt_id.clone(),
            evidence_hash: e.event_hash.clone(),
        };
        out.push(step);
        proof {
            assert(shown[i as int] == step@);
            assert(sorting::views(out@) =~= before.push(step@));
            assert(shown.take(i + 1) =~= shown.take(i as int).push(step@));
        }
        i += 1;
    }
    assert(shown.take(shown.len() as int) =~= shown);
    out
}

/// What a report says where the strategy cannot be shown.
pub open spec fn unavailable_summary(reason: Seq<char>) -> JsonTree {
    JsonTree::Object(
        map![
            "status"@ => JsonTree::Text("unavailable"@),
            "reason"@ => JsonTree::Text(reason),
            "indicators"@ => JsonTree::Array(Seq::empty()),
            "rules"@ => JsonTree::Array(Seq::empty()),
        ],
    )
}

/// A member of a value, or an empty list.
pub open spec fn part_or_list(tree: JsonTree, key: Seq<char>) -> JsonTree {
    match json::member(tree, key) {
        Some(t) => t,
        None => JsonTree::Array(Seq::empty()),
    }
}

/// What a report says of the strategy that was run. `hash` is that of the strategy: only
/// a strategy with the hash that the manifest names is shown.
pub open spec fn strategy_summary(
    spec_tree: Option<JsonTree>,
    hash: Option<Seq<char>>,
    expected: Seq<char>,
) -> JsonTree {
    match spec_tree {
        None => unavailable_summary("verified immutable strategy spec was not available"@),
        Some(tree) => match hash {
            None => unavailable_summary(
                "immutable strategy spec could not be canonically hashed"@,
            ),
            Some(actual) => if actual != expected {
                unavailable_summary("immutable strategy spec hash did not match the manifest"@)
            } else {
                JsonTree::Object(
                    map![
                        "status"@ => JsonTree::Text("verified"@),
                        "source"@ => JsonTree::Text("immutable_strategy_version_spec"@),
                        "indicators"@ => part_or_list(tree, "indicators"@),
                        "rules"@ => part_or_list(tree, "rules"@),
                        "stages"@ => part(tree, "stages"@),
                        "capabilityRequirements"@ => part(tree, "capability_requirements"@),
                    ],
                )
            },
        },
    }
}

fn empty_list() -> (r: Json)
    ensures
        r@ == JsonTree::Array(Seq::empty()),
{
    let items: Vec<Json> = Vec::new();
    proof {
        json::array_view_members(items@);
        assert(json::array_view(items@) =~= Seq::empty());
    }
    Json::Array(items)
}

fn part_or_empty(value: &Json, key: &str) -> (r: Json)
    ensures
        r@ == part_or_list(value@, key@),
{
    match value.field(key) {
        Some(v) => v.copy(),
        None => empty_list(),
    }
}

fn say_unavailable(reason: &str) -> (r: Json)
    ensures
        r@ == unavailable_summary(reason@),
{
    Json::object(
        JsonMap::new().with("status", Json::text("unavailable")).with(
            "reason",
            Json::text(reason),
        ).with("indicators", empty_list()).with("rules", empty_list()),
    )
}

/// The hash of an optional value.
pub open spec fn digest_of(value: Option<JsonTree>) -> Option<Seq<char>> {
    match value {
        Some(tree) => json::canonical_digest(tree),
        None => None,
    }
}

/// Says what there is to say of a strategy whose hash is known.
pub fn summary_for_hash(strategy_spec: &Option<Json>, hash: &Option<String>, expected_hash: &str) -> (r:
    Json)
    ensures
        r@ == strategy_summary(
            trades::tree_of(*strategy_spec),
            text::option_text(*hash),
            expected_hash@,
        ),
{
    let value = match strategy_spec {
        Some(v) => v,
        None => {
            return say_unavailable("verified immutable strategy spec was not available");
        },
    };
    let actual = match hash {
        Some(h) => h,
        None => {
            return say_unavailable("immutable strategy spec could not be canonically hashed");
        },
    };
    if !same(actual.as_str(), expected_hash) {
        return say_unavailable("immutable strategy spec hash did not match the manifest");
    }
    Json::object(
        JsonMap::new().with("status", Json::text("verified")).with(
            "source",
            Json::text("immutable_strategy_version_spec"),
        ).with("indicators", part_or_empty(value, "indicators")).with(
            "rules",
            part_or_empty(value, "rules"),
        ).with("stages", part_of(value, "stages")).with(
            "capabilityRequirements",
            part_of(value, "capability_requirements"),
        ),
    )
}

/// Says what there is to say of the strategy that was run.
pub fn strategy_execution_summary(strategy_spec: &Option<Json>, expected_hash: &str) -> (r: Json)
    ensures
        r@ == strategy_summary(
            trades::tree_of(*strategy_spec),
            digest_of(trades::tree_of(*strategy_spec)),
            expected_hash@,
        ),
{
    let hash: Option<String> = match strategy_spec {
        Some(v) => json::canonical_hash(v),
        None => None,
    };
    summary_for_hash(strategy_spec, &hash, expected_hash)
}

/// The forms in which a report can be exported.
pub open spec fn export_names() -> Seq<Seq<char>> {
    seq![
        "manifestJson"@,
        "reportJson"@,
        "tradesCsv"@,
        "ordersFillsCsv"@,
        "positionsLedgerCsv"@,
        "equityCsv"@,
    ]
}

/// Lists the forms in which a report can be exported.
pub fn export_kinds() -> (r: Vec<&'static str>)
    ensures
        r@.map_values(|n: &'static str| n@) == export_names(),
{
    let kinds: Vec<&'static str> = vec![
        "manifestJson",
        "reportJson",
        "tradesCsv",
        "ordersFillsCsv",
        "positionsLedgerCsv",
        "equityCsv",
    ];
    assert(kinds@.map_values(|n: &'static str| n@) =~= export_names());
    kinds
}

fn export_formats() -> (r: Vec<String>)
    ensures
        text::texts(r@) == export_names(),
{
    let kinds = export_kinds();
    let ghost shown = kinds@.map_values(|n: &'static str| n@);
    let mut out: Vec<String> = Vec::new();
    let mut i: usize = 0;
    assert(text::texts(out@) =~= shown.take(0));
    while i < kinds.len()
        invariant
            i <= kinds.len(),
            shown == kinds@.map_values(|n: &'static str| n@),
            text::texts(out@) == shown.take(i as int),
        decreases kinds.len() - i,
    {
        let ghost before = text::texts(out@);
        let name = kinds[i].to_owned();
        out.push(name);
        proof {
            assert(shown[i as int] == name@);
            assert(text::texts(out@) =~= before.push(name@));
            assert(shown.take(i + 1) =~= shown.take(i as int).push(name@));
        }
        i += 1;
    }
    assert(shown.take(shown.len() as int) =~= shown);
    out
}

fn copy_slice(slice: &DatasetTimeSlice) -> (r: DatasetTimeSlice)
    ensures
        r.start@ == slice.start@,
        r.end@ == slice.end@,
{
    DatasetTimeSlice { start: slice.start.clone(), end: slice.end.clone() }
}

/// Where a provenance comes from.
pub open spec fn provenance_is_of(
    p: BacktestReportProvenance,
    snapshot: ReportSnapshot,
    strategy_version_id: Seq<char>,
    strategy_spec_hash: Seq<char>,
    summary: JsonTree,
) -> bool {
    &&& p.strategy_version_id@ == strategy_version_id
    &&& p.strategy_spec_hash@ == strategy_spec_hash
    &&& p.strategy_execution_summary@ == summary
    &&& p.dataset_id@ == snapshot.dataset_id@
    &&& p.dataset_hash@ == snapshot.content_hash@
    &&& p.source_class@ == (match snapshot.source_class {
        Some(class) => class@,
        None => "unavailable"@,
    })
    &&& p.source_plugin_ref@ == snapshot.plugin_ref@
    &&& p.source_plugin_instance_ref@ == snapshot.plugin_instance_ref@
    &&& p.source_operation_id@ == snapshot.operation_id@
    &&& p.source_manifest_fingerprint@ == snapshot.plugin_manifest_fingerprint@
    &&& p.time_coverage.start@ == snapshot.time_slice.start@
    &&& p.time_coverage.end@ == snapshot.time_slice.end@
    &&& p.granularity@ == snapshot.granularity@
}

impl BacktestReportProvenance {
    /// The provenance of a run on a snapshot.
    pub fn from_snapshot(
        snapshot: &ReportSnapshot,
        strategy_version_id: &str,
        strategy_spec_hash: &str,
        strategy_execution_summary: Json,
    ) -> (r: BacktestReportProvenance)
        ensures
            provenance_is_of(
                r,
                *snapshot,
                strategy_version_id@,
                strategy_spec_hash@,
                strategy_execution_summary@,
            ),
    {
        let class: String = match &snapshot.source_class {
            Some(class) => class.clone(),
            None => "unavailable".to_owned(),
        };
        BacktestReportProvenance {
            strategy_version_id: strategy_version_id.to_owned(),
            strategy_spec_hash: strategy_spec_hash.to_owned(),
            strategy_execution_summary,
            dataset_id: snapshot.dataset_id.clone(),
            dataset_hash: snapshot.content_hash.clone(),
            source_class: class,
            source_plugin_ref: snapshot.plugin_ref.clone(),
            source_plugin_instance_ref: snapshot.plugin_instance_ref.clone(),
            source_operation_id: snapshot.operation_id.clone(),
            source_manifest_fingerprint: snapshot.plugin_manifest_fingerprint.clone(),
            time_coverage: copy_slice(&snapshot.time_slice),
            granularity: snapshot.granularity.clone(),
        }
    }
}

/// Which run a report is about.
pub open spec fn run_is_of(
    x: BacktestReportRun,
    run: BacktestRunRecord,
    manifest: BacktestRunManifest,
    snapshot: ReportSnapshot,
) -> bool {
    let strategy = manifest.content.configuration.strategy;
    &&& x.run_id@ == run.run_id@
    &&& x.state@ == run.state@
    &&& x.strategy_id@ == strategy.strategy_id@
    &&& x.strategy_version_id@ == strategy.strategy_version_id@
    &&& x.strategy_spec_hash@ == strategy.strategy_spec_hash@
    &&& x.created_at_ms == run.created_at_ms
    &&& x.completed_at_ms == run.updated_at_ms
    &&& x.dataset_id@ == snapshot.dataset_id@
    &&& x.dataset_time_slice@ == backtest_contracts::time_slice_tree(snapshot.time_slice)
    &&& text::texts(x.instruments@) == text::texts(snapshot.instruments@)
    &&& x.source_plugin_ref@ == snapshot.plugin_ref@
    &&& x.source_operation_id@ == snapshot.operation_id@
    &&& x.source_manifest_fingerprint@ == snapshot.plugin_manifest_fingerprint@
}

fn report_run(run: &BacktestRunRecord, manifest: &BacktestRunManifest, snapshot: &ReportSnapshot) -> (r:
    BacktestReportRun)
    ensures
        run_is_of(r, *run, *manifest, *snapshot),
{
    let strategy = &manifest.content.configuration.strategy;
    BacktestReportRun {
        run_id: run.run_id.clone(),
        state: run.state.clone(),
        strategy_id: strategy.strategy_id.clone(),
        strategy_version_id: strategy.strategy_version_id.clone(),
        strategy_spec_hash: strategy.strategy_spec_hash.clone(),
        created_at_ms: run.created_at_ms,
        completed_at_ms: run.updated_at_ms,
        dataset_id: snapshot.dataset_id.clone(),
        dataset_time_slice: snapshot.time_slice.value(),
        instruments: copy_list(&snapshot.instruments),
        source_plugin_ref: snapshot.plugin_ref.clone(),
        source_operation_id: snapshot.operation_id.clone(),
        source_manifest_fingerprint: snapshot.plugin_manifest_fingerprint.clone(),
    }
}

/// What a run took for granted.
pub open spec fn assumptions_are_of(
    x: BacktestReportAssumptions,
    manifest: BacktestRunManifest,
    result: BacktestResult,
) -> bool {
    let c = manifest.content.configuration;
    &&& x.starting_cash_micros == c.capital.starting_cash_micros
    &&& x.reporting_currency@ == c.capital.reporting_currency@
    &&& x.account_model@ == JsonTree::Text(c.capital.account_model.name())
    &&& x.execution@ == backtest_contracts::execution_tree(c.execution)
    &&& x.costs@ == backtest_contracts::costs_tree(c.costs)
    &&& x.liquidity@ == backtest_contracts::liquidity_tree(c.liquidity)
    &&& x.risk@ == backtest_contracts::risk_tree(c.risk)
    &&& x.end_of_data@ == JsonTree::Text(c.end_of_data.name())
    &&& x.evaluator_version@ == result.content.evaluator_version@
    &&& x.compiler_version@ == result.content.compiler_version@
}

fn report_assumptions(manifest: &BacktestRunManifest, result: &BacktestResult) -> (r:
    BacktestReportAssumptions)
    ensures
        assumptions_are_of(r, *manifest, *result),
{
    let c = &manifest.content.configuration;
    BacktestReportAssumptions {
        starting_cash_micros: c.capital.starting_cash_micros,
        reporting_currency: c.capital.reporting_currency.clone(),
        account_model: Json::text(c.capital.account_model.as_str()),
        execution: c.execution.value(),
        costs: c.costs.value(),
        liquidity: c.liquidity.value(),
        risk: c.risk.value(),
        end_of_data: Json::text(c.end_of_data.as_str()),
        evaluator_version: result.content.evaluator_version.clone(),
        compiler_version: result.content.compiler_version.clone(),
    }
}

/// The numbers that no report gives, and why.
pub open spec fn known_gaps() -> Seq<GapView> {
    seq![
        GapView {
            metric: "max_drawdown_bps"@,
            reason: "equity series is not emitted by the accepted engine"@,
        },
        GapView {
            metric: "sharpe_ratio"@,
            reason: "return series is not emitted by the accepted engine"@,
        },
        GapView {
            metric: "trade_latency"@,
            reason: "execution latency is not emitted by the accepted engine"@,
        },
    ]
}

fn unavailable(metric: &str, reason: &str) -> (r: UnavailableMetric)
    ensures
        r@ == (GapView { metric: metric@, reason: reason@ }),
{
    UnavailableMetric { metric: metric.to_owned(), reason: reason.to_owned() }
}

/// What a run cost, and what it was allowed to risk.
pub open spec fn costs_are_of(
    x: BacktestCostsAndRisk,
    manifest: BacktestRunManifest,
    account: Statement,
) -> bool {
    let risk = manifest.content.configuration.risk;
    &&& x.fees_micros == account.costs
    &&& x.cost_drag_micros == account.costs
    &&& x.maximum_loss_micros == risk.maximum_loss_micros
    &&& x.maximum_position_notional_micros == risk.maximum_position_notional_micros
    &&& x.maximum_order_quantity_micros == risk.maximum_order_quantity_micros
    &&& sorting::views(x.unavailable@) == known_gaps()
}

fn report_costs(manifest: &BacktestRunManifest, accounting: &AccountingResult) -> (r:
    BacktestCostsAndRisk)
    ensures
        costs_are_of(r, *manifest, accounting@),
{
    let risk = &manifest.content.configuration.risk;
    let gaps: Vec<UnavailableMetric> = vec![
        unavailable("max_drawdown_bps", "equity series is not emitted by the accepted engine"),
        unavailable("sharpe_ratio", "return series is not emitted by the accepted engine"),
        unavailable("trade_latency", "execution latency is not emitted by the accepted engine"),
    ];
    assert(sorting::views(gaps@) =~= known_gaps());
    BacktestCostsAndRisk {
        fees_micros: accounting.costs_micros,
        cost_drag_micros: accounting.costs_micros,
        maximum_loss_micros: risk.maximum_loss_micros,
        maximum_position_notional_micros: risk.maximum_position_notional_micros,
        maximum_order_quantity_micros: risk.maximum_order_quantity_micros,
        unavailable: gaps,
    }
}

/// What a report rests on.
pub open spec fn metadata_is_of(
    x: BacktestReportMetadata,
    run: BacktestRunRecord,
    manifest: BacktestRunManifest,
    result: BacktestResult,
    snapshot: ReportSnapshot,
    events: Seq<EventView>,
) -> bool {
    &&& x.manifest_hash@ == manifest.manifest_hash@
    &&& x.result_hash@ == result.result_hash@
    &&& x.dataset_hash@ == snapshot.content_hash@
    &&& text::texts(x.lifecycle_event_hashes@) == event_hashes(events)
    &&& x.current_attempt_id@ == run.current_attempt_id@
    &&& x.replay_ref@ == "tradeassembly://backtests/"@ + run.run_id@ + "/replay"@
    &&& text::texts(x.available_export_formats@) == export_names()
    &&& x.warnings@.len() == 0
}

fn report_metadata(
    run: &BacktestRunRecord,
    manifest: &BacktestRunManifest,
    result: &BacktestResult,
    snapshot: &ReportSnapshot,
    events: &Vec<BacktestLifecycleEvent>,
) -> (r: BacktestReportMetadata)
    ensures
        metadata_is_of(r, *run, *manifest, *result, *snapshot, intake::event_views(events@)),
{
    BacktestReportMetadata {
        manifest_hash: manifest.manifest_hash.clone(),
        result_hash: result.result_hash.clone(),
        dataset_hash: snapshot.content_hash.clone(),
        lifecycle_event_hashes: list_hashes(events),
        current_attempt_id: run.current_attempt_id.clone(),
        replay_ref: join3("tradeassembly://backtests/", run.run_id.as_str(), "/replay"),
        available_export_formats: export_formats(),
        warnings: Vec::new(),
    }
}

fn copy_each(list: &Vec<Json>) -> (r: Vec<Json>)
    ensures
        trades::value_trees(r@) == trades::value_trees(list@),
{
    let ghost shown = trades::value_trees(list@);
    let mut out: Vec<Json> = Vec::new();
    let mut i: usize = 0;
    assert(trades::value_trees(out@) =~= shown.take(0));
    while i < list.len()
        invariant
            i <= list.len(),
            shown == trades::value_trees(list@),
            trades::value_trees(out@) == shown.take(i as int),
        decreases list.len() - i,
    {
        let item = list[i].copy();
        let ghost own = item@;
        put_value(&mut out, item);
        proof {
            assert(shown[i as int] == own);
            assert(shown.take(i + 1) =~= shown.take(i as int).push(own));
        }
        i += 1;
    }
    assert(shown.take(shown.len() as int) =~= shown);
    out
}

/// Whether a report says what is to be said of a run, apart from its hash.
pub open spec fn report_is_of(
    x: BacktestReport,
    run: BacktestRunRecord,
    manifest: BacktestRunManifest,
    result: BacktestResult,
    snapshot: ReportSnapshot,
    events: Seq<EventView>,
    strategy_spec: Option<JsonTree>,
    account: Statement,
    list: Seq<TradeView>,
    sums: OverviewView,
    prices: Seq<PricePoint>,
) -> bool {
    let strategy = manifest.content.configuration.strategy;
    &&& x.schema@ == BACKTEST_REPORT_SCHEMA@
    &&& run_is_of(x.run, run, manifest, snapshot)
    &&& assumptions_are_of(x.assumptions, manifest, result)
    &&& x.overview@ == sums
    &&& chart_is_of(
        x.chart,
        snapshot,
        list,
        text::texts(manifest.content.evidence_refs@),
        prices,
    )
    &&& trades::trade_views(x.trades@) == list
    &&& sorting::views(x.journal@) == events.map_values(|e: EventView| step_of(e))
    &&& trades::value_trees(x.orders@) == trades::value_trees(result.content.orders@)
    &&& trades::value_trees(x.fills@) == trades::value_trees(result.content.fills@)
    &&& trades::value_trees(x.positions@) == trades::value_trees(result.content.positions@)
    &&& trades::value_trees(x.ledger@) == trades::value_trees(result.content.ledger@)
    &&& costs_are_of(x.costs_and_risk, manifest, account)
    &&& sorting::views(x.diagnostics@) == sorting::sorted(
        remarks_in_turn(
            backtest_contracts::diagnostic_views(manifest.content.validation.diagnostics@),
            backtest_contracts::diagnostic_views(result.content.diagnostics@),
            snapshot.quality_findings@,
            events,
        ),
        remark_order(),
    )
    &&& metadata_is_of(x.metadata, run, manifest, result, snapshot, events)
    &&& provenance_is_of(
        x.provenance,
        snapshot,
        strategy.strategy_version_id@,
        strategy.strategy_spec_hash@,
        strategy_summary(
            strategy_spec,
            digest_of(strategy_spec),
            strategy.strategy_spec_hash@,
        ),
    )
}

/// What the numbers of a report come to, or why there is no report.
pub open spec fn sums_of(
    run: BacktestRunRecord,
    manifest: BacktestRunManifest,
    result: BacktestResult,
    snapshot: ReportSnapshot,
    snapshot_fault: Option<Seq<char>>,
    attempts: Seq<BacktestAttempt>,
    events: Seq<EventView>,
    accounting: Option<AccountingResult>,
) -> Result<(Seq<TradeView>, OverviewView), FaultView> {
    match intake::inputs_fault(run, manifest, result, snapshot, snapshot_fault, attempts, events) {
        Some(code) => Err(FaultView::Refused(code)),
        None => match accounting {
            None => Err(trades::bad_amount()),
            Some(account) => match trades::trades_of(
                snapshot,
                trades::value_trees(result.content.fills@),
                account.positions@,
            ) {
                Err(f) => Err(f),
                Ok(list) => match overview_of(
                    manifest.content.configuration.capital.starting_cash_micros as int,
                    account@,
                    list,
                ) {
                    Err(f) => Err(f),
                    Ok(sums) => Ok((list, sums)),
                },
            },
        },
    }
}

/// Whether what came of a projection is what is to come of it: a report that says what is
/// to be said of the run and carries the hash of that, or the reason why there is none.
pub open spec fn projection_is_of(
    r: Result<BacktestReport, ReportFault>,
    run: BacktestRunRecord,
    manifest: BacktestRunManifest,
    result: BacktestResult,
    snapshot: ReportSnapshot,
    snapshot_fault: Option<Seq<char>>,
    attempts: Seq<BacktestAttempt>,
    events: Seq<EventView>,
    strategy_spec: Option<JsonTree>,
    accounting: Option<AccountingResult>,
    prices: Seq<PricePoint>,
) -> bool {
    match sums_of(run, manifest, result, snapshot, snapshot_fault, attempts, events, accounting) {
        Err(f) => r matches Err(e) && e@ == f,
        Ok((list, sums)) => match r {
            Ok(x) => report_is_of(
                x,
                run,
                manifest,
                result,
                snapshot,
                events,
                strategy_spec,
                accounting->Some_0@,
                list,
                sums,
                prices,
            ) && json::canonical_digest(model::unsealed_tree(x)) == Some(x.report_hash@),
            Err(e) => e@ == FaultView::Refused("backtest_report_hash_failed"@) && exists|
                x: BacktestReport,
            |
                report_is_of(
                    x,
                    run,
                    manifest,
                    result,
                    snapshot,
                    events,
                    strategy_spec,
                    accounting->Some_0@,
                    list,
                    sums,
                    prices,
                ) && json::canonical_digest(#[trigger] model::unsealed_tree(x)) is None,
        },
    }
}

/// Makes the report of a completed run. `accounting` is the account that the result
/// holds, where it holds one; `strategy_spec` is the strategy, where it is at hand.
pub fn project_with_strategy_spec(
    run: &BacktestRunRecord,
    manifest: &BacktestRunManifest,
    result: &BacktestResult,
    snapshot: &ReportSnapshot,
    snapshot_fault: &Option<String>,
    attempts: &Vec<BacktestAttempt>,
    events: &Vec<BacktestLifecycleEvent>,
    strategy_spec: &Option<Json>,
    accounting: &Option<AccountingResult>,
    prices: &Vec<PricePoint>,
) -> (r: Result<BacktestReport, ReportFault>)
    ensures
        projection_is_of(
            r,
            *run,
            *manifest,
            *result,
            *snapshot,
            text::option_text(*snapshot_fault),
            attempts@,
            intake::event_views(events@),
            trades::tree_of(*strategy_spec),
            *accounting,
            prices@,
        ),
{
    match verify_inputs(run, manifest, result, snapshot, snapshot_fault, attempts, events) {
        Ok(_) => {},
        Err(code) => {
            return Err(ReportFault::Refused(code));
        },
    }
    let account: &AccountingResult = match accounting {
        Some(account) => account,
        None => {
            return refuse("backtest_report_accounting_invalid");
        },
    };
    let list = project_trades(&result.content.fills, &account.positions, snapshot)?;
    let sums = overview(
        manifest.content.configuration.capital.starting_cash_micros,
        account,
        &list,
    )?;
    let drawn = chart(snapshot, &list, &manifest.content.evidence_refs, prices);
    let remarks = diagnostics(
        &manifest.content.validation.diagnostics,
        &result.content.diagnostics,
        snapshot,
        events,
    );
    let strategy = &manifest.content.configuration.strategy;
    let summary = strategy_execution_summary(strategy_spec, strategy.strategy_spec_hash.as_str());
    let mut report = BacktestReport {
        schema: BACKTEST_REPORT_SCHEMA.to_owned(),
        report_hash: String::new(),
        run: report_run(run, manifest, snapshot),
        assumptions: report_assumptions(manifest, result),
        overview: sums,
        chart: drawn,
        trades: list,
        journal: journal(events),
        orders: copy_each(&result.content.orders),
        fills: copy_each(&result.content.fills),
        positions: copy_each(&result.content.positions),
        ledger: copy_each(&result.content.ledger),
        costs_and_risk: report_costs(manifest, account),
        diagnostics: remarks,
        metadata: report_metadata(run, manifest, result, snapshot, events),
        provenance: BacktestReportProvenance::from_snapshot(
            snapshot,
            strategy.strategy_version_id.as_str(),
            strategy.strategy_spec_hash.as_str(),
            summary,
        ),
    };
    let value = report.report_without_hash();
    match canonical_hash(&value, "backtest_report_hash_failed") {
        Ok(hash) => {
            let ghost unsealed = report;
            report.report_hash = hash;
            proof {
                assert(model::report_map(report) == model::report_map(unsealed));
            }
            Ok(report)
        },
        Err(code) => {
            assert(json::canonical_digest(model::unsealed_tree(report)) is None);
            Err(ReportFault::Refused(code))
        },
    }
}

/// Makes the report of a completed run whose strategy is not at hand.
pub fn project(
    run: &BacktestRunRecord,
    manifest: &BacktestRunManifest,
    result: &BacktestResult,
    snapshot: &ReportSnapshot,
    snapshot_fault: &Option<String>,
    attempts: &Vec<BacktestAttempt>,
    events: &Vec<BacktestLifecycleEvent>,
    accounting: &Option<AccountingResult>,
    prices: &Vec<PricePoint>,
) -> (r: Result<BacktestReport, ReportFault>)
    ensures
        projection_is_of(
            r,
            *run,
            *manifest,
            *result,
            *snapshot,
            text::option_text(*snapshot_fault),
            attempts@,
            intake::event_views(events@),
            None,
            *accounting,
            prices@,
        ),
{
    project_with_strategy_spec(
        run,
        manifest,
        result,
        snapshot,
        snapshot_fault,
        attempts,
        events,
        &None,
        accounting,
        prices,
    )
}

/// Every trade is counted once: as a win, a loss, a wash, or as open.
pub proof fn trades_are_counted_once(list: Seq<TradeView>)
    requires
        forall|i: int| 0 <= i < list.len() && (#[trigger] list[i]).realized ==> list[i].pnl is Some,
    ensures
        ended(list, TradeEnd::Win) + ended(list, TradeEnd::Loss) + ended(list, TradeEnd::Wash)
            + ended(list, TradeEnd::Open) == list.len(),
    decreases list.len(),
{
    if list.len() > 0 {
        let shorter = list.drop_last();
        assert forall|i: int|
            0 <= i < shorter.len() && (#[trigger] shorter[i]).realized implies shorter[i].pnl is Some by {
            assert(shorter[i] == list[i]);
        }
        trades_are_counted_once(shorter);
        assert(list.last() == list[list.len() - 1]);
    }
}

/// A strategy is shown only where its hash is the one that the manifest names.
pub proof fn shown_strategy_has_the_hash(
    spec_tree: Option<JsonTree>,
    hash: Option<Seq<char>>,
    expected: Seq<char>,
)
    requires
        json::text_member(strategy_summary(spec_tree, hash, expected), "status"@) == Some(
            "verified"@,
        ),
    ensures
        spec_tree is Some,
        hash == Some(expected),
{
    reveal_strlit("verified");
    reveal_strlit("unavailable");
    reveal_strlit("status");
    reveal_strlit("reason");
    reveal_strlit("indicators");
    reveal_strlit("rules");
    reveal_strlit("source");
    reveal_strlit("stages");
    reveal_strlit("capabilityRequirements");
    assert("verified"@.len() != "unavailable"@.len());
    assert("status"@[0] != "reason"@[0]);
    assert("status"@.len() != "indicators"@.len());
    assert("status"@.len() != "rules"@.len());
}

} // verus!

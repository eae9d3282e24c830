//! What can be read out of a finished report: its numbers add up, its counts count its own
//! trades, its journal is the run's, and its chart draws the data and the trades.

use vstd::prelude::*;

use crate::backtest_accounting::AccountingResult;
use crate::backtest_contracts::{
    BacktestAttempt, BacktestLifecycleEvent, BacktestResult, BacktestRunManifest, BacktestRunRecord,
};
use crate::json;
use crate::json::JsonTree;
use crate::sorting;

use super::details::{ObservationData, ReportObservation, ReportSnapshot};
use super::intake;
use super::matching;
use super::model::BacktestReport;
use super::projection;
use super::projection::{PricePoint, TradeEnd};
use super::trades;
use super::trades::{BacktestTrade, TradeView};

verus! {

/// How many trades are closed and earned more than nothing.
pub open spec fn won(list: Seq<BacktestTrade>) -> int
    decreases list.len(),
{
    if list.len() == 0 {
        0
    } else {
        let last = list.last();
        won(list.drop_last()) + if last.realized && last.pnl_micros is Some
            && last.pnl_micros->Some_0 > 0 {
            1int
        } else {
            0
        }
    }
}

/// How many trades are closed and earned less than nothing.
pub open spec fn lost(list: Seq<BacktestTrade>) -> int
    decreases list.len(),
{
    if list.len() == 0 {
        0
    } else {
        let last = list.last();
        lost(list.drop_last()) + if last.realized && last.pnl_micros is Some
            && last.pnl_micros->Some_0 < 0 {
            1int
        } else {
            0
        }
    }
}

/// How many trades are not closed.
pub open spec fn still_open(list: Seq<BacktestTrade>) -> int
    decreases list.len(),
{
    if list.len() == 0 {
        0
    } else {
        still_open(list.drop_last()) + if list.last().realized {
            0int
        } else {
            1
        }
    }
}

proof fn ends_are_counted(list: Seq<BacktestTrade>)
    ensures
        projection::ended(trades::trade_views(list), TradeEnd::Win) == won(list),
        projection::ended(trades::trade_views(list), TradeEnd::Loss) == lost(list),
        projection::ended(trades::trade_views(list), TradeEnd::Open) == still_open(list),
    decreases list.len(),
{
    let views = trades::trade_views(list);
    if list.len() > 0 {
        ends_are_counted(list.drop_last());
        assert(views.drop_last() =~= trades::trade_views(list.drop_last()));
        assert(views.last() == list.last()@);
    } else {
        assert(views =~= Seq::empty());
    }
}

/// The numbers of a report are those of its account, and add up: what a run earned is its
/// ending equity less what it started with, before costs that much more, and its return is
/// what it earned in hundredths of a percent of what it started with, cut off towards
/// nought.
pub proof fn overview_adds_up(
    x: BacktestReport,
    run: BacktestRunRecord,
    manifest: BacktestRunManifest,
    result: BacktestResult,
    snapshot: ReportSnapshot,
    snapshot_fault: Option<Seq<char>>,
    attempts: Seq<BacktestAttempt>,
    events: Seq<BacktestLifecycleEvent>,
    strategy_spec: Option<JsonTree>,
    account: AccountingResult,
    prices: Seq<PricePoint>,
)
    requires
        projection::projection_is_of(
            Ok(x),
            run,
            manifest,
            result,
            snapshot,
            snapshot_fault,
            attempts,
            intake::event_views(events),
            strategy_spec,
            Some(account),
            prices,
        ),
    ensures
        ({
            let o = x.overview;
            let start = manifest.content.configuration.capital.starting_cash_micros;
            &&& o.starting_equity_micros == start
            &&& o.ending_cash_micros == account.ending_cash_micros
            &&& o.market_value_micros == account.market_value_micros
            &&& o.ending_equity_micros == account.ending_equity_micros
            &&& o.realized_pnl_micros == account.realized_pnl_micros
            &&& o.unrealized_pnl_micros == account.unrealized_pnl_micros
            &&& o.fees_micros == account.costs_micros
            &&& o.cost_drag_micros == account.costs_micros
            &&& o.net_pnl_micros == o.ending_equity_micros - o.starting_equity_micros
            &&& o.gross_pnl_micros == o.net_pnl_micros + o.fees_micros
            &&& o.reconciliation_residual_micros == account.reconciliation_residual_micros
            &&& o.reconciliation_status@ == "reconciled"@
                <==> account.reconciliation_residual_micros == 0
            &&& start == 0 <==> o.return_bps is None
            &&& start > 0 && o.net_pnl_micros >= 0 ==> {
                let bps = o.return_bps->Some_0;
                bps * start <= o.net_pnl_micros * 10_000 < (bps + 1) * start
            }
            &&& start > 0 && o.net_pnl_micros < 0 ==> {
                let bps = o.return_bps->Some_0;
                (bps - 1) * start < o.net_pnl_micros * 10_000 <= bps * start
            }
        }),
{
    reveal_strlit("reconciled");
    reveal_strlit("unreconciled");
    assert("reconciled"@.len() == 10 && "unreconciled"@.len() == 12);
    let start = manifest.content.configuration.capital.starting_cash_micros as int;
    let net = account.ending_equity_micros - start;
    let (list, sums) = projection::sums_of(
        run,
        manifest,
        result,
        snapshot,
        snapshot_fault,
        attempts,
        intake::event_views(events),
        Some(account),
    )->Ok_0;
    assert(x.overview@ == sums);
    if start > 0 {
        let n: int = net * 10_000;
        assert(sums.return_bps == Some(projection::quotient(n, start)));
        let bps = projection::quotient(n, start);
        if net >= 0 {
            assert(bps == n / start);
            assert(bps * start <= n < (bps + 1) * start) by (nonlinear_arith)
                requires
                    bps == n / start,
                    start > 0,
            ;
        } else {
            let m = -n;
            let size = m / start;
            assert(bps == -size);
            assert(size * start <= m < (size + 1) * start) by (nonlinear_arith)
                requires
                    size == m / start,
                    start > 0,
            ;
            assert((bps - 1) * start == -((size + 1) * start) && bps * start == -(size * start))
                by (nonlinear_arith)
                requires
                    bps == -size,
            ;
        }
    }
}

/// The counts of a report count its own trades, and every one of its trades balances.
pub proof fn counts_are_of_the_trades(
    x: BacktestReport,
    run: BacktestRunRecord,
    manifest: BacktestRunManifest,
    result: BacktestResult,
    snapshot: ReportSnapshot,
    snapshot_fault: Option<Seq<char>>,
    attempts: Seq<BacktestAttempt>,
    events: Seq<BacktestLifecycleEvent>,
    strategy_spec: Option<JsonTree>,
    account: AccountingResult,
    prices: Seq<PricePoint>,
)
    requires
        projection::projection_is_of(
            Ok(x),
            run,
            manifest,
            result,
            snapshot,
            snapshot_fault,
            attempts,
            intake::event_views(events),
            strategy_spec,
            Some(account),
            prices,
        ),
    ensures
        x.overview.trade_count == x.trades@.len(),
        x.overview.win_count == won(x.trades@),
        x.overview.loss_count == lost(x.trades@),
        x.overview.open_count == still_open(x.trades@),
        x.overview.win_count + x.overview.loss_count + x.overview.wash_count + x.overview.open_count
            == x.trades@.len(),
        matching::all_balance(trades::trade_views(x.trades@)),
        trades::trades_of(
            snapshot,
            trades::value_trees(result.content.fills@),
            account.positions@,
        ) == Ok::<Seq<TradeView>, trades::FaultView>(trades::trade_views(x.trades@)),
{
    let list = trades::trade_views(x.trades@);
    ends_are_counted(x.trades@);
    matching::trades_balance(
        snapshot,
        trades::value_trees(result.content.fills@),
        account.positions@,
    );
    assert forall|i: int| 0 <= i < list.len() && (#[trigger] list[i]).realized implies list[i].pnl is Some by {
        assert(matching::balances(list[i]));
    }
    projection::trades_are_counted_once(list);
    assert(list.len() == x.trades@.len());
}

/// The journal of a report tells the events of the run, one for one and in their order.
pub proof fn journal_is_the_runs(
    x: BacktestReport,
    run: BacktestRunRecord,
    manifest: BacktestRunManifest,
    result: BacktestResult,
    snapshot: ReportSnapshot,
    snapshot_fault: Option<Seq<char>>,
    attempts: Seq<BacktestAttempt>,
    events: Seq<BacktestLifecycleEvent>,
    strategy_spec: Option<JsonTree>,
    account: AccountingResult,
    prices: Seq<PricePoint>,
)
    requires
        projection::projection_is_of(
            Ok(x),
            run,
            manifest,
            result,
            snapshot,
            snapshot_fault,
            attempts,
            intake::event_views(events),
            strategy_spec,
            Some(account),
            prices,
        ),
    ensures
        x.journal@.len() == events.len(),
        forall|i: int|
            0 <= i < events.len() ==> {
                let told = #[trigger] x.journal@[i];
                &&& told.event_id@ == events[i].event_id@
                &&& told.event_type@ == events[i].event_type@
                &&& told.timestamp_ms == events[i].occurred_at_ms
                &&& told.detail@ == events[i].detail@
                &&& told.from_state@ == events[i].from_state@
                &&& told.to_state@ == events[i].to_state@
                &&& told.attempt_id@ == events[i].attempt_id@
                &&& told.evidence_hash@ == events[i].event_hash@
            },
{
    let views = intake::event_views(events);
    let shown = sorting::views(x.journal@);
    let steps = views.map_values(|e: intake::EventView| projection::step_of(e));
    assert(shown == steps);
    assert(shown.len() == x.journal@.len());
    assert forall|i: int| 0 <= i < events.len() implies ({
        let told = #[trigger] x.journal@[i];
        &&& told.event_id@ == events[i].event_id@
        &&& told.event_type@ == events[i].event_type@
        &&& told.timestamp_ms == events[i].occurred_at_ms
        &&& told.detail@ == events[i].detail@
        &&& told.from_state@ == events[i].from_state@
        &&& told.to_state@ == events[i].to_state@
        &&& told.attempt_id@ == events[i].attempt_id@
        &&& told.evidence_hash@ == events[i].event_hash@
    }) by {
        assert(shown[i] == x.journal@[i]@);
        assert(views[i] == events[i]@);
        assert(steps[i] == projection::step_of(views[i]));
    }
}

/// Whether a drawn bar is the one of a row.
pub open spec fn draws(bar: JsonTree, row: ReportObservation) -> bool {
    &&& row.data matches ObservationData::Bar(b)
    &&& json::member(bar, "timestamp"@) == Some(JsonTree::Text(row.timestamp@))
    &&& json::member(bar, "symbol"@) == Some(JsonTree::Text(row.instrument_id@))
    &&& json::member(bar, "open"@) == Some(b.open@)
    &&& json::member(bar, "high"@) == Some(b.high@)
    &&& json::member(bar, "low"@) == Some(b.low@)
    &&& json::member(bar, "close"@) == Some(b.close@)
    &&& json::member(bar, "volume"@) == Some(b.volume@)
}

proof fn bar_is_drawn(row: ReportObservation)
    requires
        row.data is Bar,
    ensures
        projection::drawn_bar(row) matches Some(bar) && draws(bar, row),
{
    reveal_strlit("timestamp");
    reveal_strlit("symbol");
    reveal_strlit("open");
    reveal_strlit("high");
    reveal_strlit("low");
    reveal_strlit("close");
    reveal_strlit("volume");
    assert("timestamp"@.len() == 9 && "symbol"@.len() == 6 && "volume"@.len() == 6);
    assert("symbol"@[0] != "volume"@[0]);
    assert("open"@.len() == 4 && "high"@.len() == 4 && "open"@[0] != "high"@[0]);
    assert("low"@.len() == 3 && "close"@.len() == 5);
}

proof fn bars_are_drawn(rows: Seq<ReportObservation>)
    requires
        forall|i: int| 0 <= i < rows.len() ==> (#[trigger] rows[i]).data is Bar,
    ensures
        projection::drawn_bars(rows).len() == rows.len(),
        forall|i: int| 0 <= i < rows.len() ==> draws(projection::drawn_bars(rows)[i], #[trigger] rows[i]),
    decreases rows.len(),
{
    if rows.len() > 0 {
        let earlier = rows.drop_last();
        let last = rows.len() - 1;
        assert forall|i: int| 0 <= i < earlier.len() implies (#[trigger] earlier[i]).data is Bar by {
            assert(rows[i].data is Bar);
        }
        bars_are_drawn(earlier);
        assert(rows[last].data is Bar);
        bar_is_drawn(rows.last());
        let before = projection::drawn_bars(earlier);
        let all = projection::drawn_bars(rows);
        assert forall|i: int| 0 <= i < rows.len() implies draws(all[i], #[trigger] rows[i]) by {
            if i < last {
                assert(earlier[i] == rows[i]);
                assert(all[i] == before[i]);
            }
        }
    }
}

/// The chart of a report on bars draws every bar of the data, in its place, with its own
/// open, high, low, close and volume.
pub proof fn chart_draws_the_bars(
    x: BacktestReport,
    run: BacktestRunRecord,
    manifest: BacktestRunManifest,
    result: BacktestResult,
    snapshot: ReportSnapshot,
    snapshot_fault: Option<Seq<char>>,
    attempts: Seq<BacktestAttempt>,
    events: Seq<BacktestLifecycleEvent>,
    strategy_spec: Option<JsonTree>,
    account: AccountingResult,
    prices: Seq<PricePoint>,
)
    requires
        projection::projection_is_of(
            Ok(x),
            run,
            manifest,
            result,
            snapshot,
            snapshot_fault,
            attempts,
            intake::event_views(events),
            strategy_spec,
            Some(account),
            prices,
        ),
        forall|i: int|
            0 <= i < snapshot.observations@.len() ==> (#[trigger] snapshot.observations@[i]).data is Bar,
    ensures
        x.chart.bars@.len() == snapshot.observations@.len(),
        forall|i: int|
            0 <= i < x.chart.bars@.len() ==> draws(
                (#[trigger] x.chart.bars@[i])@,
                snapshot.observations@[i],
            ),
{
    bars_are_drawn(snapshot.observations@);
    let shown = trades::value_trees(x.chart.bars@);
    assert(shown.len() == x.chart.bars@.len());
    assert forall|i: int| 0 <= i < x.chart.bars@.len() implies draws(
        (#[trigger] x.chart.bars@[i])@,
        snapshot.observations@[i],
    ) by {
        assert(shown[i] == x.chart.bars@[i]@);
    }
}

/// Whether a line is the one of a trade: from its entry to its exit or, where it is open,
/// to its valuation, with what it earned and whether that is a profit.
pub open spec fn connects(line: JsonTree, trade: TradeView) -> bool {
    &&& json::member(line, "tradeId"@) == Some(JsonTree::Text(trade.trade_id))
    &&& json::member(line, "realized"@) == Some(JsonTree::Bool(trade.realized))
    &&& trade.pnl matches Some(pnl) ==> {
        &&& json::member(line, "pnlMicros"@) == Some(JsonTree::Int(pnl))
        &&& trade.realized && pnl > 0 ==> json::member(line, "tone"@) == Some(
            JsonTree::Text("profit"@),
        )
        &&& trade.realized && pnl < 0 ==> json::member(line, "tone"@) == Some(
            JsonTree::Text("loss"@),
        )
        &&& trade.realized && pnl == 0 ==> json::member(line, "tone"@) == Some(
            JsonTree::Text("wash"@),
        )
    }
    &&& !trade.realized ==> json::member(line, "tone"@) == Some(JsonTree::Text("unrealized"@))
    &&& json::member(line, "entryFillId"@) == Some(
        match json::member(trade.entry, "fillId"@) {
            Some(id) => id,
            None => JsonTree::Null,
        },
    )
    &&& trade.realized ==> json::member(line, "exitFillId"@) == Some(
        match json::member(trade.exit->Some_0, "fillId"@) {
            Some(id) => id,
            None => JsonTree::Null,
        },
    )
    &&& !trade.realized ==> json::member(line, "valuationFillId"@) == Some(
        match json::member(trade.terminal_valuation->Some_0, "fillId"@) {
            Some(id) => id,
            None => JsonTree::Null,
        },
    )
}

proof fn drawn_marker_keeps_its_fill(marker: JsonTree, prices: Seq<PricePoint>, last: Seq<char>)
    ensures
        projection::part(projection::drawn_marker(marker, prices, last), "fillId"@)
            == projection::part(marker, "fillId"@),
{
    reveal_strlit("fillId");
    reveal_strlit("price");
    reveal_strlit("timestamp");
    assert("fillId"@.len() == 6 && "price"@.len() == 5 && "timestamp"@.len() == 9);
}

proof fn trade_is_drawn(trade: TradeView, prices: Seq<PricePoint>, last: Seq<char>)
    requires
        matching::balances(trade),
    ensures
        projection::drawn_trade(trade, prices, last).1.len() == 1,
        connects(projection::drawn_trade(trade, prices, last).1[0], trade),
{
    reveal_strlit("tradeId");
    reveal_strlit("entryFillId");
    reveal_strlit("exitFillId");
    reveal_strlit("valuationFillId");
    reveal_strlit("from");
    reveal_strlit("to");
    reveal_strlit("realized");
    reveal_strlit("pnlMicros");
    reveal_strlit("tone");
    assert("tradeId"@.len() == 7 && "entryFillId"@.len() == 11 && "exitFillId"@.len() == 10
        && "valuationFillId"@.len() == 15 && "from"@.len() == 4 && "to"@.len() == 2
        && "realized"@.len() == 8 && "pnlMicros"@.len() == 9 && "tone"@.len() == 4);
    assert("from"@[0] != "tone"@[0]);
    drawn_marker_keeps_its_fill(trade.entry, prices, last);
    if trade.realized {
        drawn_marker_keeps_its_fill(trade.exit->Some_0, prices, last);
    } else {
        drawn_marker_keeps_its_fill(trade.terminal_valuation->Some_0, prices, last);
    }
}

proof fn trades_are_drawn(list: Seq<TradeView>, prices: Seq<PricePoint>, last: Seq<char>)
    requires
        matching::all_balance(list),
    ensures
        projection::drawn_trades(list, prices, last).1.len() == list.len(),
        forall|i: int|
            0 <= i < list.len() ==> connects(
                projection::drawn_trades(list, prices, last).1[i],
                #[trigger] list[i],
            ),
    decreases list.len(),
{
    if list.len() > 0 {
        let earlier = list.drop_last();
        let end = list.len() - 1;
        assert forall|i: int| 0 <= i < earlier.len() implies matching::balances(
            #[trigger] earlier[i],
        ) by {
            assert(matching::balances(list[i]));
        }
        trades_are_drawn(earlier, prices, last);
        assert(matching::balances(list[end]));
        trade_is_drawn(list.last(), prices, last);
        let before = projection::drawn_trades(earlier, prices, last).1;
        let all = projection::drawn_trades(list, prices, last).1;
        assert forall|i: int| 0 <= i < list.len() implies connects(all[i], #[trigger] list[i]) by {
            if i < end {
                assert(earlier[i] == list[i]);
                assert(all[i] == before[i]);
            } else {
                assert(all[i] == projection::drawn_trade(list.last(), prices, last).1[0]);
            }
        }
    }
}

/// The chart of a report draws one line for each trade, in their order: from entry to exit,
/// or to the valuation at the end, in the tone of what the trade earned.
pub proof fn chart_connects_each_trade(
    x: BacktestReport,
    run: BacktestRunRecord,
    manifest: BacktestRunManifest,
    result: BacktestResult,
    snapshot: ReportSnapshot,
    snapshot_fault: Option<Seq<char>>,
    attempts: Seq<BacktestAttempt>,
    events: Seq<BacktestLifecycleEvent>,
    strategy_spec: Option<JsonTree>,
    account: AccountingResult,
    prices: Seq<PricePoint>,
)
    requires
        projection::projection_is_of(
            Ok(x),
            run,
            manifest,
            result,
            snapshot,
            snapshot_fault,
            attempts,
            intake::event_views(events),
            strategy_spec,
            Some(account),
            prices,
        ),
    ensures
        x.chart.connectors@.len() == x.trades@.len(),
        forall|i: int|
            0 <= i < x.trades@.len() ==> connects(
                (#[trigger] x.chart.connectors@[i])@,
                x.trades@[i]@,
            ),
{
    counts_are_of_the_trades(
        x,
        run,
        manifest,
        result,
        snapshot,
        snapshot_fault,
        attempts,
        events,
        strategy_spec,
        account,
        prices,
    );
    let list = trades::trade_views(x.trades@);
    trades_are_drawn(list, prices, snapshot.last_timestamp@);
    let shown = trades::value_trees(x.chart.connectors@);
    assert(shown.len() == x.chart.connectors@.len());
    assert(list.len() == x.trades@.len());
    assert forall|i: int| 0 <= i < x.trades@.len() implies connects(
        (#[trigger] x.chart.connectors@[i])@,
        x.trades@[i]@,
    ) by {
        assert(shown[i] == x.chart.connectors@[i]@);
        assert(list[i] == x.trades@[i]@);
    }
}

} // verus!

//! What the engine hands on of its inputs: the bars that the strategy kernel sees, the
//! marks that they leave, and the fills that close what is open at the end of the data.

use vstd::prelude::*;

use crate::backtest_accounting;
use crate::backtest_accounting::{Fill, FillSide, KernelFill, OrderSide};
use crate::backtest_contracts::{
    AccountModel, BacktestConfiguration, BacktestRunManifest, EndOfDataPolicy, FillPolicy,
    FillTiming, PriceSource,
};
use crate::backtest_engine;
use crate::backtest_engine::{
    DatasetDescription, ExecutionTiming, MarketObservation, ObservationView, ObservedRow,
    PartialFillPolicy,
};
use crate::text;
use crate::text_map;

verus! {

/// Whether a row is a bar whose numbers can be held.
pub open spec fn is_usable(row: ObservedRow) -> bool {
    row.bar is Some && row.bar->Some_0.open is Some && row.bar->Some_0.close is Some
        && row.bar->Some_0.volume is Some
}

/// Whether a bar is the one of a row: it stands at the row's place, of the row's
/// instrument, with the row's open and close, and with the row's volume unless that is
/// below the least volume that counts.
pub open spec fn is_bar_of(bar: MarketObservation, row: ObservedRow, index: int, least: i64) -> bool {
    &&& is_usable(row)
    &&& bar.bar_index == index
    &&& bar.symbol@ == row.instrument_id@
    &&& bar.open == row.bar->Some_0.open->Some_0
    &&& bar.close == row.bar->Some_0.close->Some_0
    &&& row.bar->Some_0.volume->Some_0 >= least ==> bar.volume == row.bar->Some_0.volume->Some_0
    &&& row.bar->Some_0.volume->Some_0 < least ==> bar.volume == 0
}

proof fn views_are_of_rows(rows: Seq<ObservedRow>, least: i64)
    ensures
        backtest_engine::normalized_rows(rows, least) matches Ok(views) ==> {
            &&& views.len() == rows.len()
            &&& forall|i: int|
                0 <= i < rows.len() ==> {
                    let row = #[trigger] rows[i];
                    let bar = row.bar->Some_0;
                    &&& is_usable(row)
                    &&& views[i].bar_index == i
                    &&& views[i].symbol == row.instrument_id@
                    &&& views[i].open == bar.open->Some_0
                    &&& views[i].close == bar.close->Some_0
                    &&& bar.volume->Some_0 >= least ==> views[i].volume == bar.volume->Some_0
                    &&& bar.volume->Some_0 < least ==> views[i].volume == 0
                }
        },
        backtest_engine::normalized_rows(rows, least) matches Err(code) ==> exists|i: int|
            {
                &&& 0 <= i < rows.len()
                &&& !is_usable(#[trigger] rows[i])
                &&& forall|j: int| 0 <= j < i ==> is_usable(#[trigger] rows[j])
                &&& rows[i].bar is None ==> code == "backtest_data_kind_unsupported"@
                &&& rows[i].bar is Some ==> code == "backtest_data_invalid"@
            },
    decreases rows.len(),
{
    if rows.len() > 0 {
        let earlier = rows.drop_last();
        let last = rows.len() - 1;
        views_are_of_rows(earlier, least);
        match backtest_engine::normalized_rows(earlier, least) {
            Err(code) => {
                let i = choose|i: int|
                    {
                        &&& 0 <= i < earlier.len()
                        &&& !is_usable(#[trigger] earlier[i])
                        &&& forall|j: int| 0 <= j < i ==> is_usable(#[trigger] earlier[j])
                        &&& earlier[i].bar is None ==> code == "backtest_data_kind_unsupported"@
                        &&& earlier[i].bar is Some ==> code == "backtest_data_invalid"@
                    };
                assert(rows[i] == earlier[i]);
                assert forall|j: int| 0 <= j < i implies is_usable(#[trigger] rows[j]) by {
                    assert(rows[j] == earlier[j]);
                }
            },
            Ok(views) => {
                assert forall|j: int| 0 <= j < last implies is_usable(#[trigger] rows[j]) by {
                    assert(rows[j] == earlier[j]);
                }
                assert(rows[last] == rows.last());
                if let Ok(all) = backtest_engine::normalized_rows(rows, least) {
                    assert forall|i: int| 0 <= i < rows.len() implies ({
                        let row = #[trigger] rows[i];
                        let bar = row.bar->Some_0;
                        &&& is_usable(row)
                        &&& all[i].bar_index == i
                        &&& all[i].symbol == row.instrument_id@
                        &&& all[i].open == bar.open->Some_0
                        &&& all[i].close == bar.close->Some_0
                        &&& bar.volume->Some_0 >= least ==> all[i].volume == bar.volume->Some_0
                        &&& bar.volume->Some_0 < least ==> all[i].volume == 0
                    }) by {
                        if i < last {
                            assert(earlier[i] == rows[i]);
                            assert(all[i] == views[i]);
                        }
                    }
                }
            },
        }
    }
}

/// The bars that the strategy kernel sees are the rows of the dataset, one for one: bar
/// `i` has the instrument, the open and the close of row `i`, and its volume where that
/// counts.
pub proof fn bars_are_the_rows(
    rows: Seq<ObservedRow>,
    least: i64,
    bars: Seq<MarketObservation>,
)
    requires
        backtest_engine::normalized_rows(rows, least) == Ok::<Seq<ObservationView>, Seq<char>>(
            backtest_engine::observation_views(bars),
        ),
    ensures
        bars.len() == rows.len(),
        forall|i: int| 0 <= i < rows.len() ==> is_bar_of(#[trigger] bars[i], rows[i], i, least),
{
    views_are_of_rows(rows, least);
    let views = backtest_engine::observation_views(bars);
    assert forall|i: int| 0 <= i < rows.len() implies is_bar_of(
        #[trigger] bars[i],
        rows[i],
        i,
        least,
    ) by {
        assert(views[i] == bars[i]@);
        assert(is_usable(rows[i]));
    }
}

/// Rows make bars if and only if all of them are usable; where one is not, the first such
/// row decides what is reported.
pub proof fn first_unusable_row_is_reported(rows: Seq<ObservedRow>, least: i64)
    ensures
        backtest_engine::normalized_rows(rows, least) is Ok <==> (forall|i: int|
            0 <= i < rows.len() ==> is_usable(#[trigger] rows[i])),
        backtest_engine::normalized_rows(rows, least) matches Err(code) ==> exists|i: int|
            {
                &&& 0 <= i < rows.len()
                &&& !is_usable(#[trigger] rows[i])
                &&& forall|j: int| 0 <= j < i ==> is_usable(#[trigger] rows[j])
                &&& rows[i].bar is None ==> code == "backtest_data_kind_unsupported"@
                &&& rows[i].bar is Some ==> code == "backtest_data_invalid"@
            },
{
    views_are_of_rows(rows, least);
}

/// The mark of a symbol is the close of the last bar of that symbol.
pub proof fn mark_is_the_last_close(bars: Seq<MarketObservation>, i: int)
    requires
        0 <= i < bars.len(),
        forall|j: int| i < j < bars.len() ==> (#[trigger] bars[j]).symbol@ != bars[i].symbol@,
    ensures
        ({
            let marks = backtest_engine::marks_of(backtest_engine::observation_views(bars));
            marks.dom().contains(bars[i].symbol@) && marks[bars[i].symbol@] == bars[i].close
        }),
    decreases bars.len(),
{
    let views = backtest_engine::observation_views(bars);
    let earlier = bars.drop_last();
    let last = bars.len() - 1;
    assert(views.drop_last() =~= backtest_engine::observation_views(earlier));
    assert(views.last() == bars[last]@);
    if i < last {
        assert(earlier[i] == bars[i]);
        assert(bars[last].symbol@ != bars[i].symbol@);
        assert forall|j: int| i < j < earlier.len() implies (#[trigger] earlier[j]).symbol@
            != earlier[i].symbol@ by {
            assert(bars[j].symbol@ != bars[i].symbol@);
        }
        mark_is_the_last_close(earlier, i);
    }
}

/// Only a symbol with a bar has a mark.
pub proof fn mark_is_of_a_bar(bars: Seq<MarketObservation>, symbol: Seq<char>) -> (i: int)
    requires
        backtest_engine::marks_of(backtest_engine::observation_views(bars)).dom().contains(symbol),
    ensures
        0 <= i < bars.len(),
        bars[i].symbol@ == symbol,
    decreases bars.len(),
{
    let views = backtest_engine::observation_views(bars);
    let last = bars.len() - 1;
    if bars.len() == 0 {
        assert(views =~= Seq::empty());
        assert(false);
        0
    } else if bars[last].symbol@ == symbol {
        last
    } else {
        let earlier = bars.drop_last();
        assert(views.drop_last() =~= backtest_engine::observation_views(earlier));
        assert(views.last() == bars[last]@);
        mark_is_of_a_bar(earlier, symbol)
    }
}

/// What is held of a symbol is what was bought of it less what was sold.
proof fn held_is_the_net(fills: Seq<Fill>, symbol: Seq<char>)
    ensures
        backtest_engine::held_after(fills) matches Ok(held) ==> {
            &&& held.dom().contains(symbol) ==> held[symbol] == backtest_accounting::net(
                fills,
                symbol,
            )
            &&& !held.dom().contains(symbol) ==> backtest_accounting::net(fills, symbol) == 0
        },
    decreases fills.len(),
{
    if fills.len() > 0 {
        held_is_the_net(fills.drop_last(), symbol);
    }
}

proof fn open_is_what_is_held(symbols: Seq<Seq<char>>, held: Map<Seq<char>, i64>)
    requires
        text::ascending(symbols),
    ensures
        ({
            let open = backtest_engine::open_of(symbols, held);
            &&& forall|i: int|
                0 <= i < open.len() ==> symbols.contains((#[trigger] open[i]).0) && open[i].1
                    == held[open[i].0] && open[i].1 > 0
            &&& forall|k: int|
                0 <= k < symbols.len() && held[#[trigger] symbols[k]] > 0 ==> open.contains(
                    (symbols[k], held[symbols[k]] as int),
                )
            &&& forall|i: int, j: int|
                0 <= i < j < open.len() ==> text::before((#[trigger] open[i]).0, (#[trigger] open[j]).0)
        }),
    decreases symbols.len(),
{
    if symbols.len() > 0 {
        let earlier = symbols.drop_last();
        let last = symbols.len() - 1;
        assert forall|i: int, j: int| 0 <= i < j < earlier.len() implies text::before(
            #[trigger] earlier[i],
            #[trigger] earlier[j],
        ) by {
            assert(text::before(symbols[i], symbols[j]));
        }
        open_is_what_is_held(earlier, held);
        let before = backtest_engine::open_of(earlier, held);
        let open = backtest_engine::open_of(symbols, held);
        assert(symbols[last] == symbols.last());
        assert forall|i: int| 0 <= i < open.len() implies symbols.contains((#[trigger] open[i]).0)
            && open[i].1 == held[open[i].0] && open[i].1 > 0 by {
            if i < before.len() {
                assert(open[i] == before[i]);
                let k = choose|k: int| 0 <= k < earlier.len() && earlier[k] == before[i].0;
                assert(symbols[k] == before[i].0);
            }
        }
        assert forall|k: int|
            0 <= k < symbols.len() && held[#[trigger] symbols[k]] > 0 implies open.contains(
            (symbols[k], held[symbols[k]] as int),
        ) by {
            if k < last {
                assert(earlier[k] == symbols[k]);
                let pair = (symbols[k], held[symbols[k]] as int);
                let i = choose|i: int| 0 <= i < before.len() && before[i] == pair;
                assert(open[i] == pair);
            } else {
                assert(open[before.len() as int] == (symbols[k], held[symbols[k]] as int));
            }
        }
        assert forall|i: int, j: int| 0 <= i < j < open.len() implies text::before(
            (#[trigger] open[i]).0,
            (#[trigger] open[j]).0,
        ) by {
            assert(open[i] == before[i]);
            if j < before.len() {
                assert(open[j] == before[j]);
            } else {
                let k = choose|k: int| 0 <= k < earlier.len() && earlier[k] == before[i].0;
                assert(symbols[k] == before[i].0);
                assert(text::before(symbols[k], symbols[last]));
            }
        }
    }
}

/// What is left open after some fills are the symbols of which more was bought than sold,
/// in their order, each with the difference.
pub proof fn open_positions_are_the_net(fills: Seq<Fill>)
    ensures
        backtest_engine::left_open(fills) matches Ok(open) ==> {
            &&& forall|i: int|
                0 <= i < open.len() ==> (#[trigger] open[i]).1 == backtest_accounting::net(
                    fills,
                    open[i].0,
                ) && open[i].1 > 0
            &&& forall|symbol: Seq<char>| #[trigger]
                backtest_accounting::net(fills, symbol) > 0 ==> open.contains(
                    (symbol, backtest_accounting::net(fills, symbol)),
                )
            &&& forall|i: int, j: int|
                0 <= i < j < open.len() ==> text::before((#[trigger] open[i]).0, (#[trigger] open[j]).0)
        },
{
    if let Ok(open) = backtest_engine::left_open(fills) {
        let held = backtest_engine::held_after(fills)->Ok_0;
        let order = text_map::in_order(held.dom());
        backtest_engine::held_is_finite(fills);
        text_map::in_order_lists_members(held.dom());
        open_is_what_is_held(order, held);
        assert forall|i: int| 0 <= i < open.len() implies (#[trigger] open[i]).1
            == backtest_accounting::net(fills, open[i].0) && open[i].1 > 0 by {
            held_is_the_net(fills, open[i].0);
            assert(held.dom().contains(open[i].0));
        }
        assert forall|symbol: Seq<char>| #[trigger]
            backtest_accounting::net(fills, symbol) > 0 implies open.contains(
            (symbol, backtest_accounting::net(fills, symbol)),
        ) by {
            held_is_the_net(fills, symbol);
            assert(order.contains(symbol));
            let k = choose|k: int| 0 <= k < order.len() && order[k] == symbol;
            assert(held[order[k]] > 0);
        }
    }
}

proof fn closes_are_sales(
    fills: Seq<Fill>,
    positions: Seq<(Seq<char>, int)>,
    marks: Map<Seq<char>, i64>,
    fees: Seq<Result<int, Seq<char>>>,
    run_id: Seq<char>,
)
    ensures
        backtest_engine::with_closes(fills, positions, marks, fees, run_id) matches Ok(all) ==> {
            &&& all.len() == fills.len() + positions.len()
            &&& forall|j: int|
                0 <= j < positions.len() ==> {
                    let position = #[trigger] positions[j];
                    let close = all[fills.len() + j];
                    &&& marks.dom().contains(position.0)
                    &&& close.id == run_id + ":force_close:"@ + position.0
                    &&& close.symbol == position.0
                    &&& close.side == FillSide::Sell
                    &&& close.quantity == position.1
                    &&& close.price == marks[position.0]
                    &&& fees[j] == Ok::<int, Seq<char>>(close.fee)
                }
        },
    decreases positions.len(),
{
    if positions.len() > 0 {
        let earlier = positions.drop_last();
        closes_are_sales(fills, earlier, marks, fees, run_id);
        if let Ok(all) = backtest_engine::with_closes(fills, positions, marks, fees, run_id) {
            let before = backtest_engine::with_closes(fills, earlier, marks, fees, run_id)->Ok_0;
            assert forall|j: int| 0 <= j < positions.len() implies ({
                let position = #[trigger] positions[j];
                let close = all[fills.len() + j];
                &&& marks.dom().contains(position.0)
                &&& close.id == run_id + ":force_close:"@ + position.0
                &&& close.symbol == position.0
                &&& close.side == FillSide::Sell
                &&& close.quantity == position.1
                &&& close.price == marks[position.0]
                &&& fees[j] == Ok::<int, Seq<char>>(close.fee)
            }) by {
                if j < earlier.len() {
                    assert(earlier[j] == positions[j]);
                    assert(all[fills.len() + j] == before[fills.len() + j]);
                }
            }
        }
    }
}

/// A run that is closed at the end of its data is closed by sales: after the fills of the
/// strategy comes one for each symbol of which they leave something, of just what they
/// leave, at the mark of the symbol, with the fee asked for it. Nothing else is added.
pub proof fn end_of_data_sells_what_is_left(
    manifest: BacktestRunManifest,
    kernel_fills: Seq<KernelFill>,
    marks: Map<Seq<char>, i64>,
    fees: Seq<Result<int, Seq<char>>>,
)
    requires
        manifest.content.configuration.end_of_data == EndOfDataPolicy::ForceClose,
    ensures
        backtest_engine::final_fills(manifest, kernel_fills, marks, fees) matches Ok(all) ==> {
            let n = kernel_fills.len() as int;
            let strategy = all.take(n);
            &&& all.len() >= n
            &&& forall|i: int|
                n <= i < all.len() ==> {
                    let close = #[trigger] all[i];
                    &&& close.side == FillSide::Sell
                    &&& close.quantity == backtest_accounting::net(strategy, close.symbol)
                    &&& close.quantity > 0
                    &&& marks.dom().contains(close.symbol)
                    &&& close.price == marks[close.symbol]
                    &&& fees[i - n] == Ok::<int, Seq<char>>(close.fee)
                    &&& close.id == manifest.content.run_id@ + ":force_close:"@ + close.symbol
                }
            &&& forall|symbol: Seq<char>| #[trigger]
                backtest_accounting::net(strategy, symbol) > 0 ==> exists|i: int|
                    n <= i < all.len() && (#[trigger] all[i]).symbol == symbol
        },
{
    let run_id = manifest.content.run_id@;
    let booked = backtest_engine::booked_fills(run_id, kernel_fills);
    if let Ok(all) = backtest_engine::final_fills(manifest, kernel_fills, marks, fees) {
        let positions = backtest_engine::left_open(booked)->Ok_0;
        let n = kernel_fills.len() as int;
        open_positions_are_the_net(booked);
        closes_are_sales(booked, positions, marks, fees, run_id);
        backtest_engine::closes_only_add(booked, positions, marks, fees, run_id);
        assert(all.take(n) == booked);
        assert forall|i: int| n <= i < all.len() implies ({
            let close = #[trigger] all[i];
            &&& close.side == FillSide::Sell
            &&& close.quantity == backtest_accounting::net(booked, close.symbol)
            &&& close.quantity > 0
            &&& marks.dom().contains(close.symbol)
            &&& close.price == marks[close.symbol]
            &&& fees[i - n] == Ok::<int, Seq<char>>(close.fee)
            &&& close.id == run_id + ":force_close:"@ + close.symbol
        }) by {
            assert(positions[i - n].1 > 0);
        }
        assert forall|symbol: Seq<char>| #[trigger]
            backtest_accounting::net(booked, symbol) > 0 implies exists|i: int|
            n <= i < all.len() && (#[trigger] all[i]).symbol == symbol by {
            let pair = (symbol, backtest_accounting::net(booked, symbol));
            assert(positions.contains(pair));
            let j = choose|j: int| 0 <= j < positions.len() && positions[j] == pair;
            assert(all[n + j].symbol == symbol);
        }
    }
}

/// The accounts book each fill of the strategy kernel as it is: the same symbol, side,
/// quantity, price and fee, in the same order.
pub proof fn kernel_fills_are_booked_as_they_are(run_id: Seq<char>, kernel_fills: Seq<KernelFill>)
    ensures
        backtest_engine::booked_fills(run_id, kernel_fills).len() == kernel_fills.len(),
        forall|i: int|
            0 <= i < kernel_fills.len() ==> {
                let fill = #[trigger] kernel_fills[i];
                let booked = backtest_engine::booked_fills(run_id, kernel_fills)[i];
                &&& booked.symbol == fill.symbol@
                &&& fill.side == OrderSide::Buy ==> booked.side == FillSide::Buy
                &&& fill.side == OrderSide::Sell ==> booked.side == FillSide::Sell
                &&& booked.quantity == fill.quantity
                &&& booked.price == fill.price_micros
                &&& booked.fee == fill.fee_micros
                &&& booked.id == run_id + ":fill:"@ + text::decimal(fill.execution_bar_index as nat)
                    + ":"@ + text::decimal(i as nat)
            },
{
}

/// The strategy kernel is told to simulate what the configuration asks for, each number
/// under its own name.
pub proof fn simulation_follows_the_configuration(c: BacktestConfiguration)
    ensures
        ({
            let s = backtest_engine::simulation_of(c);
            let same = c.execution.fill_timing == FillTiming::SameBar;
            let open = c.execution.fill_price_source == PriceSource::Open;
            &&& s.timing == ExecutionTiming::SameBarOpen <==> same && open
            &&& s.timing == ExecutionTiming::SameBarClose <==> same && !open
            &&& s.timing == ExecutionTiming::NextBarOpen <==> !same && open
            &&& s.timing == ExecutionTiming::NextBarClose <==> !same && !open
            &&& s.fee_per_order_micros == c.costs.fixed_fee_micros
            &&& s.fee_per_unit_micros == c.costs.per_unit_fee_micros
            &&& s.notional_fee_bps == c.costs.notional_fee_bps
            &&& s.spread_bps == c.costs.spread_bps
            &&& s.slippage_bps == c.costs.slippage_bps
            &&& s.participation_bps == c.liquidity.maximum_participation_bps
            &&& s.partial_fill_policy == PartialFillPolicy::Reject <==> c.execution.fill_policy
                == FillPolicy::Full
            &&& s.starting_cash_micros == c.capital.starting_cash_micros
            &&& s.maximum_order_quantity_micros == c.risk.maximum_order_quantity_micros
            &&& s.maximum_position_notional_micros == c.risk.maximum_position_notional_micros
        }),
{
}

/// A dataset that is taken for the one of a configuration agrees with it in everything
/// that identifies a dataset, and is one of bars.
pub proof fn accepted_dataset_is_the_one_named(d: DatasetDescription, c: BacktestConfiguration)
    requires
        backtest_engine::dataset_agrees(d, c),
    ensures
        d.dataset_id@ == c.dataset.dataset_id@,
        d.snapshot_ref@ == c.dataset.snapshot_ref@,
        d.content_hash@ == c.dataset.content_hash@,
        d.schema@ == c.dataset.schema@,
        d.strategy_id@ == c.strategy.strategy_id@,
        d.plugin_ref@ == c.dataset.source_plugin_ref@,
        d.plugin_instance_ref@ == c.dataset.source_plugin_instance_ref@,
        d.operation_id@ == c.dataset.source_operation_id@,
        d.plugin_manifest_fingerprint@ == c.dataset.source_manifest_fingerprint@,
        d.capability_graph_revision_id@ == c.dataset.capability_graph_revision_id@,
        d.capability_graph_fingerprint@ == c.dataset.capability_graph_fingerprint@,
        d.source_class is Some && d.source_class->Some_0@ == c.dataset.source_class@,
        d.instruments@.len() == c.dataset.instruments@.len(),
        forall|i: int|
            0 <= i < d.instruments@.len() ==> (#[trigger] d.instruments@[i])@
                == c.dataset.instruments@[i]@,
        d.time_slice.start@ == c.dataset.selected_time_slice.start@,
        d.time_slice.end@ == c.dataset.selected_time_slice.end@,
        d.granularity@ == c.dataset.granularity@,
        d.calendar@ == c.dataset.calendar@,
        d.timezone@ == c.dataset.timezone@,
        d.price_adjustment@ == c.dataset.corporate_action_policy@,
        d.bars,
{
    assert(text::texts(d.instruments@).len() == text::texts(c.dataset.instruments@).len());
    assert forall|i: int| 0 <= i < d.instruments@.len() implies (#[trigger] d.instruments@[i])@
        == c.dataset.instruments@[i]@ by {
        assert(text::texts(d.instruments@)[i] == d.instruments@[i]@);
        assert(text::texts(c.dataset.instruments@)[i] == c.dataset.instruments@[i]@);
    }
}

/// A configuration that the engine runs is one of a single instrument in a cash account
/// without leverage, in which insufficient capital and liquidity reject an order, and whose
/// loss cannot exceed the starting cash.
pub proof fn supported_runs_are_unlevered(c: BacktestConfiguration)
    ensures
        backtest_engine::is_supported(c) <==> {
            &&& c.capital.account_model == AccountModel::Cash
            &&& c.capital.maximum_leverage_micros == 1_000_000
            &&& c.execution.reject_on_insufficient_capital
            &&& c.execution.reject_on_insufficient_liquidity
            &&& c.instruments@.len() == 1
            &&& c.risk.maximum_open_positions == 1
            &&& c.risk.maximum_loss_micros >= c.capital.starting_cash_micros
            &&& c.instruments@[0].contract_multiplier_micros == 1_000_000
        },
{
}

} // verus!

//! What the result of a run tells: the account that was drawn up of its fills, each number
//! under its own name, and the fills, the ledger and the positions one for one.

use vstd::prelude::*;

use crate::backtest_accounting;
use crate::backtest_accounting::{
    AccountingInput, EndOfDataPolicy, Fill, FillSide, Holding, KernelFill, LedgerEntryKind,
    OrderSide, Posting, Statement,
};
use crate::backtest_contracts::{BacktestResult, BacktestRunManifest};
use crate::backtest_engine;
use crate::backtest_engine::{DatasetSnapshot, KernelOutcome};
use crate::json;
use crate::json::JsonTree;

verus! {

/// Whether a value holds a number under a key.
pub open spec fn counts(tree: JsonTree, key: Seq<char>, n: int) -> bool {
    json::member(tree, key) == Some(JsonTree::Int(n))
}

/// Whether a value holds a text under a key.
pub open spec fn names(tree: JsonTree, key: Seq<char>, t: Seq<char>) -> bool {
    json::member(tree, key) == Some(JsonTree::Text(t))
}

/// What the value of an account holds: each number of the statement under its own name.
pub proof fn account_value_names_each_number(s: Statement)
    ensures
        ({
            let shown = backtest_engine::statement_tree(s);
            &&& counts(shown, "endingCashMicros"@, s.cash)
            &&& counts(shown, "marketValueMicros"@, s.market_value)
            &&& counts(shown, "endingEquityMicros"@, s.equity)
            &&& counts(shown, "realizedPnlMicros"@, s.realized)
            &&& counts(shown, "unrealizedPnlMicros"@, s.unrealized)
            &&& counts(shown, "incomeMicros"@, s.income)
            &&& counts(shown, "costsMicros"@, s.costs)
            &&& counts(shown, "reconciliationResidualMicros"@, s.residual)
        }),
{
    reveal_strlit("fills");
    reveal_strlit("ledger");
    reveal_strlit("positions");
    reveal_strlit("endingCashMicros");
    reveal_strlit("marketValueMicros");
    reveal_strlit("endingEquityMicros");
    reveal_strlit("realizedPnlMicros");
    reveal_strlit("unrealizedPnlMicros");
    reveal_strlit("incomeMicros");
    reveal_strlit("costsMicros");
    reveal_strlit("reconciliationResidualMicros");
    assert("endingCashMicros"@.len() == 16 && "marketValueMicros"@.len() == 17
        && "endingEquityMicros"@.len() == 18 && "realizedPnlMicros"@.len() == 17
        && "unrealizedPnlMicros"@.len() == 19 && "incomeMicros"@.len() == 12 && "costsMicros"@.len()
        == 11 && "reconciliationResidualMicros"@.len() == 28);
    assert("marketValueMicros"@[0] != "realizedPnlMicros"@[0]);
}

/// Whether a value tells of a fill.
pub open spec fn tells_fill(tree: JsonTree, fill: Fill) -> bool {
    &&& names(tree, "fillId"@, fill.id)
    &&& names(tree, "symbol"@, fill.symbol)
    &&& fill.side == FillSide::Buy ==> names(tree, "side"@, "buy"@)
    &&& fill.side == FillSide::Sell ==> names(tree, "side"@, "sell"@)
    &&& counts(tree, "quantityMicros"@, fill.quantity)
    &&& counts(tree, "priceMicros"@, fill.price)
    &&& counts(tree, "feeMicros"@, fill.fee)
}

proof fn strategy_fill_is_told(id: Seq<char>, f: KernelFill, timestamps: Seq<String>)
    ensures
        tells_fill(
            backtest_engine::fill_tree(id, f, timestamps),
            Fill {
                id,
                symbol: f.symbol@,
                side: match f.side {
                    OrderSide::Buy => FillSide::Buy,
                    OrderSide::Sell => FillSide::Sell,
                },
                quantity: f.quantity as int,
                price: f.price_micros as int,
                fee: f.fee_micros as int,
            },
        ),
        f.execution_bar_index < timestamps.len() ==> names(
            backtest_engine::fill_tree(id, f, timestamps),
            "executionTimestamp"@,
            timestamps[f.execution_bar_index as int]@,
        ),
{
    reveal_strlit("fillId");
    reveal_strlit("decisionBarIndex");
    reveal_strlit("decisionTimestamp");
    reveal_strlit("executionBarIndex");
    reveal_strlit("executionTimestamp");
    reveal_strlit("symbol");
    reveal_strlit("side");
    reveal_strlit("quantityMicros");
    reveal_strlit("priceMicros");
    reveal_strlit("feeMicros");
    assert("fillId"@.len() == 6 && "symbol"@.len() == 6 && "fillId"@[0] != "symbol"@[0]);
    assert("decisionBarIndex"@.len() == 16 && "decisionTimestamp"@.len() == 17
        && "executionBarIndex"@.len() == 17 && "executionTimestamp"@.len() == 18);
    assert("side"@.len() == 4 && "quantityMicros"@.len() == 14 && "priceMicros"@.len() == 11
        && "feeMicros"@.len() == 9);
}

proof fn closing_fill_is_told(f: Fill)
    requires
        f.side == FillSide::Sell,
    ensures
        tells_fill(backtest_engine::close_tree(f), f),
        json::member(backtest_engine::close_tree(f), "endOfData"@) == Some(JsonTree::Bool(true)),
{
    reveal_strlit("fillId");
    reveal_strlit("symbol");
    reveal_strlit("side");
    reveal_strlit("quantityMicros");
    reveal_strlit("priceMicros");
    reveal_strlit("feeMicros");
    reveal_strlit("endOfData");
    assert("fillId"@.len() == 6 && "symbol"@.len() == 6 && "fillId"@[0] != "symbol"@[0]);
    assert("side"@.len() == 4 && "quantityMicros"@.len() == 14 && "priceMicros"@.len() == 11
        && "feeMicros"@.len() == 9 && "endOfData"@.len() == 9 && "feeMicros"@[0]
        != "endOfData"@[0]);
}

/// Whether a value tells of a posting.
pub open spec fn tells_posting(tree: JsonTree, p: Posting) -> bool {
    &&& counts(tree, "sequence"@, p.sequence)
    &&& names(tree, "entryId"@, p.id)
    &&& counts(tree, "cashDeltaMicros"@, p.delta)
    &&& p.kind == LedgerEntryKind::FillNotional ==> names(tree, "kind"@, "fill_notional"@)
    &&& p.kind == LedgerEntryKind::FillFee ==> names(tree, "kind"@, "fill_fee"@)
    &&& p.kind == LedgerEntryKind::Income ==> names(tree, "kind"@, "income"@)
    &&& p.kind == LedgerEntryKind::Cost ==> names(tree, "kind"@, "cost"@)
}

proof fn posting_is_told(p: Posting)
    ensures
        tells_posting(backtest_engine::posting_tree(p), p),
{
    reveal_strlit("sequence");
    reveal_strlit("entryId");
    reveal_strlit("kind");
    reveal_strlit("cashDeltaMicros");
    assert("sequence"@.len() == 8 && "entryId"@.len() == 7 && "kind"@.len() == 4
        && "cashDeltaMicros"@.len() == 15);
}

/// Whether a value tells of a position.
pub open spec fn tells_position(tree: JsonTree, h: Holding) -> bool {
    &&& names(tree, "symbol"@, h.symbol)
    &&& counts(tree, "quantity"@, h.quantity)
    &&& counts(tree, "averageCostMicros"@, h.average_cost)
    &&& counts(tree, "marketPriceMicros"@, h.market_price)
    &&& counts(tree, "marketValueMicros"@, h.market_value)
    &&& counts(tree, "unrealizedPnlMicros"@, h.unrealized)
}

proof fn position_is_told(h: Holding)
    ensures
        tells_position(backtest_engine::holding_tree(h), h),
{
    reveal_strlit("symbol");
    reveal_strlit("quantity");
    reveal_strlit("averageCostMicros");
    reveal_strlit("marketPriceMicros");
    reveal_strlit("marketValueMicros");
    reveal_strlit("unrealizedPnlMicros");
    reveal_strlit("lots");
    assert("symbol"@.len() == 6 && "quantity"@.len() == 8 && "averageCostMicros"@.len() == 17
        && "marketPriceMicros"@.len() == 17 && "marketValueMicros"@.len() == 17
        && "unrealizedPnlMicros"@.len() == 19 && "lots"@.len() == 4);
    assert("averageCostMicros"@[0] != "marketPriceMicros"@[0] && "averageCostMicros"@[0]
        != "marketValueMicros"@[0] && "marketPriceMicros"@[6] != "marketValueMicros"@[6]);
}

/// The result of a run tells the account of its fills: of the cash that the configuration
/// starts with, the strategy's own fills and those that close out, and the marks that the
/// bars leave, with no tolerance. Its fills, its ledger and its positions are those of the
/// account, one for one, and the numbers of the account stand under their names.
pub proof fn result_tells_the_account(
    x: BacktestResult,
    manifest: BacktestRunManifest,
    strategy_version: JsonTree,
    snapshot: DatasetSnapshot,
    kernel: KernelOutcome,
    fees: Seq<Result<i64, String>>,
    created_at_ms: i64,
) -> (input: AccountingInput)
    requires
        backtest_engine::executed(
            Ok(x),
            manifest,
            strategy_version,
            snapshot,
            kernel,
            fees,
            created_at_ms,
        ),
    ensures
        kernel is Ran,
        input.starting_cash_micros == manifest.content.configuration.capital.starting_cash_micros,
        input.cash_entries@.len() == 0,
        input.end_of_data == EndOfDataPolicy::MarkToMarket,
        input.reconciliation_tolerance_micros == 0,
        input.fills@.len() >= kernel->run.fills@.len(),
        backtest_accounting::outcome(input) matches Ok(s) && {
            &&& x.content.run_id@ == manifest.content.run_id@
            &&& x.content.manifest_hash@ == manifest.manifest_hash@
            &&& x.created_at_ms == created_at_ms
            &&& counts(x.content.accounting@, "endingCashMicros"@, s.cash)
            &&& counts(x.content.accounting@, "marketValueMicros"@, s.market_value)
            &&& counts(x.content.accounting@, "endingEquityMicros"@, s.cash + s.market_value)
            &&& counts(x.content.accounting@, "realizedPnlMicros"@, s.realized)
            &&& counts(x.content.accounting@, "unrealizedPnlMicros"@, s.unrealized)
            &&& counts(x.content.accounting@, "costsMicros"@, s.costs)
            &&& counts(x.content.accounting@, "reconciliationResidualMicros"@, 0)
            &&& x.content.fills@.len() == input.fills@.len()
            &&& forall|i: int|
                0 <= i < input.fills@.len() ==> tells_fill(
                    (#[trigger] x.content.fills@[i])@,
                    input.fills@[i]@,
                )
            &&& x.content.ledger@.len() == s.ledger.len()
            &&& forall|i: int|
                0 <= i < s.ledger.len() ==> tells_posting(
                    (#[trigger] x.content.ledger@[i])@,
                    s.ledger[i],
                )
            &&& x.content.positions@.len() == s.positions.len()
            &&& forall|i: int|
                0 <= i < s.positions.len() ==> tells_position(
                    (#[trigger] x.content.positions@[i])@,
                    s.positions[i],
                )
        },
{
    let least = manifest.content.configuration.liquidity.minimum_volume_micros;
    let bars = backtest_engine::normalized_rows(snapshot.observations@, least)->Ok_0;
    let marks = backtest_engine::marks_of(bars);
    let times = backtest_engine::row_times(snapshot.observations@);
    let run = kernel->run;
    let shown_fees = backtest_engine::fee_views(fees);
    let fills = backtest_engine::final_fills(manifest, run.fills@, marks, shown_fees)->Ok_0;
    let input = choose|input: AccountingInput|
        #![trigger backtest_accounting::outcome(input)]
        backtest_engine::is_account_of(input, manifest, fills, marks) && backtest_engine::concludes(
            Ok(x),
            manifest,
            run,
            times,
            fills,
            backtest_accounting::outcome(input),
            created_at_ms,
        );
    let s = backtest_accounting::outcome(input)->Ok_0;
    account_value_names_each_number(s);
    backtest_accounting::statement_reconciles(input, s);
    backtest_engine::strategy_fills_are_kept(manifest, run.fills@, marks, shown_fees);
    let booked = backtest_engine::booked_fills(manifest.content.run_id@, run.fills@);
    let given = backtest_accounting::fills_view(input.fills@);
    assert(given == fills);
    assert(given.len() == input.fills@.len());
    let told = backtest_engine::value_views(x.content.fills@);
    assert(told.len() == x.content.fills@.len());
    let n = run.fills@.len() as int;
    if manifest.content.configuration.end_of_data
        == crate::backtest_contracts::EndOfDataPolicy::ForceClose {
        super::bars::end_of_data_sells_what_is_left(manifest, run.fills@, marks, shown_fees);
    }
    assert forall|i: int| 0 <= i < input.fills@.len() implies tells_fill(
        (#[trigger] x.content.fills@[i])@,
        input.fills@[i]@,
    ) by {
        assert(told[i] == x.content.fills@[i]@);
        assert(given[i] == input.fills@[i]@);
        if i < n {
            assert(fills.take(n)[i] == booked[i]);
            strategy_fill_is_told(fills[i].id, run.fills@[i], times);
        } else {
            assert(fills[i].side == FillSide::Sell);
            closing_fill_is_told(fills[i]);
        }
    }
    let postings = backtest_engine::value_views(x.content.ledger@);
    assert(postings.len() == x.content.ledger@.len());
    assert forall|i: int| 0 <= i < s.ledger.len() implies tells_posting(
        (#[trigger] x.content.ledger@[i])@,
        s.ledger[i],
    ) by {
        assert(postings[i] == x.content.ledger@[i]@);
        assert(postings[i] == backtest_engine::posting_tree(s.ledger[i]));
        posting_is_told(s.ledger[i]);
    }
    let positions = backtest_engine::value_views(x.content.positions@);
    assert(positions.len() == x.content.positions@.len());
    assert forall|i: int| 0 <= i < s.positions.len() implies tells_position(
        (#[trigger] x.content.positions@[i])@,
        s.positions[i],
    ) by {
        assert(positions[i] == x.content.positions@[i]@);
        assert(positions[i] == backtest_engine::holding_tree(s.positions[i]));
        position_is_told(s.positions[i]);
    }
    input
}

/// What the finished account says is what its numbers show: each under its own name.
pub proof fn account_shows_its_numbers(result: backtest_accounting::AccountingResult)
    ensures
        result@.cash == result.ending_cash_micros,
        result@.market_value == result.market_value_micros,
        result@.equity == result.ending_equity_micros,
        result@.realized == result.realized_pnl_micros,
        result@.unrealized == result.unrealized_pnl_micros,
        result@.income == result.income_micros,
        result@.costs == result.costs_micros,
        result@.residual == result.reconciliation_residual_micros,
        result@.positions.len() == result.positions@.len(),
        forall|i: int|
            0 <= i < result.positions@.len() ==> {
                let p = #[trigger] result.positions@[i];
                let h = result@.positions[i];
                &&& h.symbol == p.symbol@
                &&& h.quantity == p.quantity
                &&& h.average_cost == p.average_cost_micros
                &&& h.market_price == p.market_price_micros
                &&& h.market_value == p.market_value_micros
                &&& h.unrealized == p.unrealized_pnl_micros
                &&& h.lots.len() == p.lots@.len()
            },
        result@.ledger.len() == result.ledger@.len(),
        forall|i: int|
            0 <= i < result.ledger@.len() ==> {
                let e = #[trigger] result.ledger@[i];
                let p = result@.ledger[i];
                &&& p.sequence == e.sequence
                &&& p.id == e.entry_id@
                &&& p.kind == e.kind
                &&& p.delta == e.cash_delta_micros
            },
        result@.fills.len() == result.fills@.len(),
        forall|i: int|
            0 <= i < result.fills@.len() ==> {
                let f = #[trigger] result.fills@[i];
                let g = result@.fills[i];
                &&& g.id == f.fill_id@
                &&& g.symbol == f.symbol@
                &&& g.side == f.side
                &&& g.quantity == f.quantity
                &&& g.price == f.price_micros
                &&& g.fee == f.fee_micros
            },
{
}

} // verus!

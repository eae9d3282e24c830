//! What a fill is read from, and how a trade is called and referred to.

use vstd::prelude::*;

use crate::json;
use crate::json::JsonTree;

use super::details::ReportSnapshot;
use super::trades;
use super::trades::{FillView, LotView, TradeView};

verus! {

/// A fill is read member by member: its symbol, its side, its quantity, its price, its fee and its
/// name, and its time where it has one.
pub proof fn fill_is_read_member_by_member(tree: JsonTree, fill: FillView)
    requires
        trades::fill_of(tree) == Some(fill),
    ensures
        json::text_member(tree, "symbol"@) == Some(fill.symbol),
        json::text_member(tree, "side"@) == Some(fill.side),
        json::i64_member(tree, "quantityMicros"@) == Some(fill.quantity),
        json::i64_member(tree, "priceMicros"@) == Some(fill.price),
        json::i64_member(tree, "feeMicros"@) == Some(fill.fee),
        json::text_member(tree, "fillId"@) == Some(fill.fill_id),
        fill.timestamp == json::text_member(tree, "executionTimestamp"@),
        fill.end_of_data <==> json::member(tree, "endOfData"@) == Some(JsonTree::Bool(true)),
{
}

/// A value that leaves out a part of a fill is none.
pub proof fn incomplete_fill_is_none(tree: JsonTree)
    ensures
        json::text_member(tree, "symbol"@) is None || json::text_member(tree, "side"@) is None
            || json::i64_member(tree, "quantityMicros"@) is None || json::i64_member(
            tree,
            "priceMicros"@,
        ) is None || json::i64_member(tree, "feeMicros"@) is None || json::text_member(
            tree,
            "fillId"@,
        ) is None ==> trades::fill_of(tree) is None,
{
}

/// A closed trade is called by its symbol, its purchase and its sale, and refers to both and to
/// their entries in the ledger.
pub proof fn closed_trade_is_called_by_its_fills(
    snapshot: ReportSnapshot,
    lot: LotView,
    fill: FillView,
    matched: int,
    trade: TradeView,
)
    requires
        trades::closed_trade(snapshot, lot, fill, matched) == Ok::<TradeView, trades::FaultView>(
            trade,
        ),
    ensures
        trade.trade_id == fill.symbol + ":"@ + lot.fill_id + ":"@ + fill.fill_id,
        trade.symbol == fill.symbol,
        trade.side == "long"@,
        trade.quantity == matched,
        trade.realized,
        trade.terminal_valuation is None,
        trade.fill_refs == seq![lot.fill_id, fill.fill_id],
        trade.ledger_refs == seq![
            lot.fill_id + ":notional"@,
            lot.fill_id + ":fee"@,
            fill.fill_id + ":notional"@,
            fill.fill_id + ":fee"@,
        ],
        trade.instrument_details.instrument_id == fill.symbol,
{
    let two = seq![lot.fill_id, fill.fill_id];
    entries_follow_the_fills(Seq::<Seq<char>>::empty(), lot.fill_id);
    entries_follow_the_fills(seq![lot.fill_id], fill.fill_id);
    assert(Seq::<Seq<char>>::empty().push(lot.fill_id) =~= seq![lot.fill_id]);
    assert(seq![lot.fill_id].push(fill.fill_id) =~= two);
    assert(trades::ledger_names(two) =~= seq![
        lot.fill_id + ":notional"@,
        lot.fill_id + ":fee"@,
        fill.fill_id + ":notional"@,
        fill.fill_id + ":fee"@,
    ]);
}

/// Each fill has two entries in the ledger, one for its worth and one for its fee.
pub proof fn entries_follow_the_fills(fill_ids: Seq<Seq<char>>, next: Seq<char>)
    ensures
        trades::ledger_names(Seq::<Seq<char>>::empty()).len() == 0,
        trades::ledger_names(fill_ids.push(next)) == trades::ledger_names(fill_ids).push(
            next + ":notional"@,
        ).push(next + ":fee"@),
{
    assert(fill_ids.push(next).drop_last() =~= fill_ids);
    assert(fill_ids.push(next).last() == next);
}

/// A trade that is open at the end is called by its symbol and its purchase, and is valued when the
/// data ends.
pub proof fn open_trade_is_called_by_its_purchase(
    snapshot: ReportSnapshot,
    symbol: Seq<char>,
    lot: LotView,
    price: int,
    trade: TradeView,
)
    requires
        trades::held_trade(snapshot, symbol, lot, price) == Ok::<TradeView, trades::FaultView>(
            trade,
        ),
    ensures
        trade.trade_id == symbol + ":"@ + lot.fill_id + ":open"@,
        trade.symbol == symbol,
        trade.side == "long"@,
        trade.quantity == lot.quantity,
        !trade.realized,
        trade.exit is None,
        trade.fee == lot.fee,
        trade.fill_refs == seq![lot.fill_id],
        trade.terminal_valuation == Some(
            trades::marker_tree(
                lot.fill_id + ":valuation"@,
                symbol,
                "terminal_valuation"@,
                lot.quantity,
                price,
                Some(snapshot.last_timestamp@),
                true,
            ),
        ),
{
}

} // verus!

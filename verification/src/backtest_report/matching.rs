//! What the trades of a report promise: each closed trade pairs a purchase with a later
//! sale of the same symbol, first in, first out, and its profit and fee follow from the
//! prices on its own two ends.

use vstd::prelude::*;

use crate::backtest_accounting::fifo;
use crate::backtest_accounting::Position;
use crate::json;
use crate::json::JsonTree;
use crate::sorting;
use crate::text_map;

use super::details::ReportSnapshot;
use super::trades;
use super::trades::{FillView, LotView, MatchBook, TradeView};

verus! {

/// A quantity at a price, in millionths of both, with what is less than a millionth cut
/// off.
pub open spec fn amount(quantity: int, price: int) -> int {
    if quantity * price >= 0 {
        quantity * price / 1_000_000
    } else {
        -(-(quantity * price) / 1_000_000)
    }
}

/// The part of a fee that falls to a quantity of a whole, with its fraction cut off.
pub open spec fn portion(fee: int, quantity: int, whole: int) -> int {
    if fee * quantity >= 0 {
        fee * quantity / whole
    } else {
        -(-(fee * quantity) / whole)
    }
}

/// Whether a marker is one end of a trade: it names its fill, its symbol, its kind, its
/// quantity, its price and its time.
pub open spec fn marks(
    marker: JsonTree,
    fill_id: Seq<char>,
    symbol: Seq<char>,
    kind: Seq<char>,
    quantity: int,
    price: int,
    timestamp: Option<Seq<char>>,
) -> bool {
    &&& json::member(marker, "fillId"@) == Some(JsonTree::Text(fill_id))
    &&& json::member(marker, "symbol"@) == Some(JsonTree::Text(symbol))
    &&& json::member(marker, "kind"@) == Some(JsonTree::Text(kind))
    &&& json::member(marker, "quantityMicros"@) == Some(JsonTree::Int(quantity))
    &&& json::member(marker, "priceMicros"@) == Some(JsonTree::Int(price))
    &&& json::member(marker, "timestamp"@) == Some(
        match timestamp {
            Some(t) => JsonTree::Text(t),
            None => JsonTree::Null,
        },
    )
}

/// What a marker holds under its keys.
pub proof fn marker_says_what_it_was_given(
    fill_id: Seq<char>,
    symbol: Seq<char>,
    kind: Seq<char>,
    quantity: int,
    price: int,
    timestamp: Option<Seq<char>>,
    terminal: bool,
)
    ensures
        ({
            let marker = trades::marker_tree(
                fill_id,
                symbol,
                kind,
                quantity,
                price,
                timestamp,
                terminal,
            );
            &&& marks(marker, fill_id, symbol, kind, quantity, price, timestamp)
            &&& json::member(marker, "terminal"@) == Some(JsonTree::Bool(terminal))
            &&& kind == "exit"@ ==> json::member(marker, "lifecycleState"@) == Some(
                JsonTree::Text("closed"@),
            )
            &&& kind == "entry"@ ==> json::member(marker, "lifecycleState"@) == Some(
                JsonTree::Text("open"@),
            )
            &&& kind == "terminal_valuation"@ ==> json::member(marker, "lifecycleState"@) == Some(
                JsonTree::Text("terminal_valued"@),
            )
        }),
{
    reveal_strlit("fillId");
    reveal_strlit("symbol");
    reveal_strlit("kind");
    reveal_strlit("quantityMicros");
    reveal_strlit("priceMicros");
    reveal_strlit("timestamp");
    reveal_strlit("terminal");
    reveal_strlit("lifecycleState");
    reveal_strlit("occurredAtMs");
    reveal_strlit("exit");
    reveal_strlit("entry");
    reveal_strlit("terminal_valuation");
    assert("fillId"@.len() == 6 && "symbol"@.len() == 6 && "kind"@.len() == 4);
    assert("fillId"@[0] != "symbol"@[0]);
    assert("quantityMicros"@.len() == 14 && "lifecycleState"@.len() == 14);
    assert("quantityMicros"@[0] != "lifecycleState"@[0]);
    assert("priceMicros"@.len() == 11 && "timestamp"@.len() == 9 && "terminal"@.len() == 8);
    assert("occurredAtMs"@.len() == 12);
    assert("exit"@.len() == 4 && "entry"@.len() == 5 && "terminal_valuation"@.len() == 18);
}

/// Whether a trade balances: what it earned and its fee come to what its quantity was
/// worth at the price it ended with less what it was worth at the price it began with. It
/// ends with its sale where it is closed, else with its valuation at the end of the data.
pub open spec fn balances(trade: TradeView) -> bool {
    let last = if trade.realized {
        trade.exit
    } else {
        trade.terminal_valuation
    };
    &&& trade.realized <==> trade.exit is Some
    &&& trade.realized <==> trade.terminal_valuation is None
    &&& trade.pnl is Some
    &&& json::member(trade.entry, "quantityMicros"@) == Some(JsonTree::Int(trade.quantity))
    &&& json::member(last->Some_0, "quantityMicros"@) == Some(JsonTree::Int(trade.quantity))
    &&& json::member(trade.entry, "symbol"@) == Some(JsonTree::Text(trade.symbol))
    &&& json::member(last->Some_0, "symbol"@) == Some(JsonTree::Text(trade.symbol))
    &&& json::member(trade.entry, "priceMicros"@) matches Some(JsonTree::Int(paid))
    &&& json::member(last->Some_0, "priceMicros"@) matches Some(JsonTree::Int(got))
    &&& trade.pnl->Some_0 + trade.fee == amount(trade.quantity, got) - amount(trade.quantity, paid)
}

/// Whether every trade of a list balances.
pub open spec fn all_balance(list: Seq<TradeView>) -> bool {
    forall|i: int| 0 <= i < list.len() ==> balances(#[trigger] list[i])
}

proof fn closed_balances(snapshot: ReportSnapshot, lot: LotView, fill: FillView, matched: int)
    ensures
        trades::closed_trade(snapshot, lot, fill, matched) matches Ok(trade) ==> balances(trade)
            && trade.realized,
{
    marker_says_what_it_was_given(
        lot.fill_id,
        fill.symbol,
        "entry"@,
        matched,
        lot.price,
        lot.timestamp,
        false,
    );
    marker_says_what_it_was_given(
        fill.fill_id,
        fill.symbol,
        "exit"@,
        matched,
        fill.price,
        fill.timestamp,
        fill.end_of_data,
    );
}

proof fn held_balances(snapshot: ReportSnapshot, symbol: Seq<char>, lot: LotView, price: int)
    ensures
        trades::held_trade(snapshot, symbol, lot, price) matches Ok(trade) ==> balances(trade)
            && !trade.realized,
{
    marker_says_what_it_was_given(
        lot.fill_id,
        symbol,
        "entry"@,
        lot.quantity,
        lot.price,
        lot.timestamp,
        false,
    );
    marker_says_what_it_was_given(
        lot.fill_id + ":valuation"@,
        symbol,
        "terminal_valuation"@,
        lot.quantity,
        price,
        Some(snapshot.last_timestamp@),
        true,
    );
}

proof fn sale_balances(
    snapshot: ReportSnapshot,
    lots: Seq<LotView>,
    fill: FillView,
    remaining: int,
)
    ensures
        trades::sold(snapshot, lots, fill, remaining) matches Ok((_, more)) ==> all_balance(more),
    decreases lots.len(),
{
    if remaining > 0 && lots.len() > 0 {
        let lot = lots[0];
        let matched = if lot.quantity < remaining {
            lot.quantity
        } else {
            remaining
        };
        closed_balances(snapshot, lot, fill, matched);
        sale_balances(snapshot, lots.skip(1), fill, remaining - matched);
    }
}

proof fn fills_balance(snapshot: ReportSnapshot, fills: Seq<JsonTree>)
    ensures
        trades::match_fills(snapshot, fills) matches Ok(book) ==> all_balance(book.trades),
    decreases fills.len(),
{
    if fills.len() > 0 {
        fills_balance(snapshot, fills.drop_last());
        if let Ok(book) = trades::match_fills(snapshot, fills.drop_last()) {
            if let Some(fill) = trades::fill_of(fills.last()) {
                sale_balances(
                    snapshot,
                    trades::open_lots(book.open, fill.symbol),
                    fill,
                    fill.quantity,
                );
            }
        }
    }
}

proof fn lots_balance(snapshot: ReportSnapshot, symbol: Seq<char>, lots: Seq<LotView>, price: int)
    ensures
        trades::held_lots(snapshot, symbol, lots, price) matches Ok(more) ==> all_balance(more),
    decreases lots.len(),
{
    if lots.len() > 0 {
        lots_balance(snapshot, symbol, lots.drop_last(), price);
        held_balances(snapshot, symbol, lots.last(), price);
    }
}

proof fn rest_balances(
    snapshot: ReportSnapshot,
    open: Map<Seq<char>, Seq<LotView>>,
    symbols: Seq<Seq<char>>,
    positions: Seq<Position>,
)
    ensures
        trades::held_all(snapshot, open, symbols, positions) matches Ok(more) ==> all_balance(more),
    decreases symbols.len(),
{
    if symbols.len() > 0 {
        rest_balances(snapshot, open, symbols.drop_last(), positions);
        let symbol = symbols.last();
        if let Some(price) = trades::market_price(positions, symbol) {
            lots_balance(snapshot, symbol, trades::open_lots(open, symbol), price);
        }
    }
}

/// Every trade of a report balances: with the quantity and the prices of its own two ends,
/// what it earned and its fee come to the worth it ended with less the worth it began with.
pub proof fn trades_balance(
    snapshot: ReportSnapshot,
    fills: Seq<JsonTree>,
    positions: Seq<Position>,
)
    ensures
        trades::trades_of(snapshot, fills, positions) matches Ok(list) ==> all_balance(list),
{
    if let Ok(list) = trades::trades_of(snapshot, fills, positions) {
        fills_balance(snapshot, fills);
        let book = trades::match_fills(snapshot, fills)->Ok_0;
        let symbols = text_map::in_order(book.open.dom());
        rest_balances(snapshot, book.open, symbols, positions);
        let held = trades::held_all(snapshot, book.open, symbols, positions)->Ok_0;
        let all = book.trades + held;
        sorting::sorting_keeps_members(all, trades::trade_order());
        assert forall|i: int| 0 <= i < list.len() implies balances(#[trigger] list[i]) by {
            assert(list.contains(list[i]));
            let k = choose|k: int| 0 <= k < all.len() && all[k] == list[i];
            if k < book.trades.len() {
                assert(book.trades[k] == list[i]);
            } else {
                assert(held[k - book.trades.len()] == list[i]);
            }
        }
    }
}

/// The fills that some values tell of.
pub open spec fn fill_views(fills: Seq<JsonTree>) -> Seq<FillView> {
    fills.map_values(|tree: JsonTree| trades::fill_of(tree)->Some_0)
}

/// Whether each fill is of a positive quantity.
pub open spec fn all_positive(fills: Seq<FillView>) -> bool {
    forall|i: int| 0 <= i < fills.len() ==> (#[trigger] fills[i]).quantity > 0
}

/// Whether a fill buys a symbol.
pub open spec fn buys(fill: FillView, symbol: Seq<char>) -> bool {
    fill.symbol == symbol && fill.side == "buy"@
}

/// How many units of a symbol some fills bought.
pub open spec fn units_bought(fills: Seq<FillView>, symbol: Seq<char>) -> int
    decreases fills.len(),
{
    if fills.len() == 0 {
        0
    } else {
        units_bought(fills.drop_last(), symbol) + if buys(fills.last(), symbol) {
            fills.last().quantity
        } else {
            0
        }
    }
}

/// How many units of a symbol some fills sold.
pub open spec fn units_sold(fills: Seq<FillView>, symbol: Seq<char>) -> int
    decreases fills.len(),
{
    if fills.len() == 0 {
        0
    } else {
        units_sold(fills.drop_last(), symbol) + if fills.last().symbol == symbol
            && fills.last().side == "sell"@ {
            fills.last().quantity
        } else {
            0
        }
    }
}

/// Of the units of a symbol, numbered as they were bought, those that purchase `b` bought:
/// how many of them lie from `from` up to `to`.
pub open spec fn units_of(
    fills: Seq<FillView>,
    symbol: Seq<char>,
    b: int,
    from: int,
    to: int,
) -> int {
    let first = units_bought(fills.take(b), symbol);
    fifo::overlap(first, first + fills[b].quantity, from, to)
}

/// Whether a closed trade pairs purchase `b` with a sale that sells the units numbered
/// from `from` on: it is of the units that the sale takes from that purchase, its two ends
/// say so, and its fee is the part of the purchase's fee that falls to its quantity of what
/// was left of the purchase, and the part of the sale's fee that falls to its quantity.
pub open spec fn pairs(
    trade: TradeView,
    fills: Seq<FillView>,
    b: int,
    sale: FillView,
    from: int,
) -> bool {
    let symbol = sale.symbol;
    let bought = fills[b];
    &&& 0 <= b < fills.len()
    &&& buys(bought, symbol)
    &&& trade.symbol == symbol
    &&& trade.quantity == units_of(fills, symbol, b, from, from + sale.quantity)
    &&& trade.quantity > 0
    &&& trade.realized
    &&& trade.exit is Some
    &&& marks(
        trade.entry,
        bought.fill_id,
        symbol,
        "entry"@,
        trade.quantity,
        bought.price,
        bought.timestamp,
    )
    &&& marks(
        trade.exit->Some_0,
        sale.fill_id,
        symbol,
        "exit"@,
        trade.quantity,
        sale.price,
        sale.timestamp,
    )
    &&& trade.fee == portion(
        bought.fee,
        trade.quantity,
        units_of(fills, symbol, b, from, units_bought(fills.take(b), symbol) + bought.quantity),
    ) + portion(sale.fee, trade.quantity, sale.quantity)
    &&& trade.fill_refs == seq![bought.fill_id, sale.fill_id]
}

/// Whether a trade holds what is left of purchase `b` once the first `gone` units of its
/// symbol are sold, valued at a price at the end of the data. The whole fee of the purchase
/// counts.
pub open spec fn holds(
    trade: TradeView,
    fills: Seq<FillView>,
    b: int,
    gone: int,
    price: int,
    last: Seq<char>,
) -> bool {
    let symbol = trade.symbol;
    let bought = fills[b];
    &&& 0 <= b < fills.len()
    &&& buys(bought, symbol)
    &&& trade.quantity == units_of(
        fills,
        symbol,
        b,
        gone,
        units_bought(fills.take(b), symbol) + bought.quantity,
    )
    &&& trade.quantity > 0
    &&& !trade.realized
    &&& trade.terminal_valuation is Some
    &&& marks(
        trade.entry,
        bought.fill_id,
        symbol,
        "entry"@,
        trade.quantity,
        bought.price,
        bought.timestamp,
    )
    &&& marks(
        trade.terminal_valuation->Some_0,
        bought.fill_id + ":valuation"@,
        symbol,
        "terminal_valuation"@,
        trade.quantity,
        price,
        Some(last),
    )
    &&& trade.fee == bought.fee
    &&& trade.fill_refs == seq![bought.fill_id]
}

/// What stays open of the purchases of a symbol once the first `gone` units are sold.
spec fn open_purchases(fills: Seq<FillView>, symbol: Seq<char>, gone: int) -> Seq<LotView>
    decreases fills.len(),
{
    if fills.len() == 0 {
        Seq::empty()
    } else {
        let last = fills.last();
        let rest = open_purchases(fills.drop_last(), symbol, gone);
        let end = units_bought(fills, symbol);
        let units = fifo::overlap(units_bought(fills.drop_last(), symbol), end, gone, end);
        if buys(last, symbol) && units > 0 {
            rest.push(
                LotView {
                    fill_id: last.fill_id,
                    quantity: units,
                    price: last.price,
                    fee: last.fee,
                    timestamp: last.timestamp,
                },
            )
        } else {
            rest
        }
    }
}

proof fn positive_before(fills: Seq<FillView>)
    requires
        all_positive(fills),
        fills.len() > 0,
    ensures
        all_positive(fills.drop_last()),
        fills.last().quantity > 0,
{
    let earlier = fills.drop_last();
    assert(fills.last() == fills[fills.len() - 1]);
    assert forall|i: int| 0 <= i < earlier.len() implies (#[trigger] earlier[i]).quantity > 0 by {
        assert(earlier[i] == fills[i]);
    }
}

proof fn units_grow(fills: Seq<FillView>, symbol: Seq<char>, i: int)
    requires
        all_positive(fills),
        0 <= i <= fills.len(),
    ensures
        0 <= units_bought(fills.take(i), symbol) <= units_bought(fills, symbol),
        units_sold(fills, symbol) >= 0,
    decreases fills.len(),
{
    if fills.len() > 0 {
        positive_before(fills);
        if i == fills.len() {
            assert(fills.take(i) =~= fills);
            units_grow(fills.drop_last(), symbol, i - 1);
        } else {
            assert(fills.take(i) =~= fills.drop_last().take(i));
            units_grow(fills.drop_last(), symbol, i);
        }
    } else {
        assert(fills.take(i) =~= fills);
    }
}

/// Each open lot is what is left of one purchase.
proof fn lot_is_of_a_purchase(fills: Seq<FillView>, symbol: Seq<char>, gone: int, k: int) -> (b: int)
    requires
        all_positive(fills),
        gone >= 0,
        0 <= k < open_purchases(fills, symbol, gone).len(),
    ensures
        0 <= b < fills.len(),
        buys(fills[b], symbol),
        ({
            let first = units_bought(fills.take(b), symbol);
            let end = first + fills[b].quantity;
            let lot = open_purchases(fills, symbol, gone)[k];
            &&& lot.quantity == fifo::overlap(first, end, gone, end)
            &&& lot.quantity > 0
            &&& lot.fill_id == fills[b].fill_id
            &&& lot.price == fills[b].price
            &&& lot.fee == fills[b].fee
            &&& lot.timestamp == fills[b].timestamp
            &&& end == units_bought(fills.take(b + 1), symbol)
            &&& end <= units_bought(fills, symbol)
            &&& k == 0 ==> first <= gone
        }),
    decreases fills.len(),
{
    let earlier = fills.drop_last();
    let rest = open_purchases(earlier, symbol, gone);
    positive_before(fills);
    units_grow(earlier, symbol, earlier.len() as int);
    if k < rest.len() {
        let b = lot_is_of_a_purchase(earlier, symbol, gone, k);
        assert(fills[b] == earlier[b]);
        assert(fills.take(b) =~= earlier.take(b));
        assert(fills.take(b + 1) =~= earlier.take(b + 1));
        b
    } else {
        let b = fills.len() - 1;
        assert(fills.take(b) =~= earlier);
        assert(fills.take(b + 1) =~= fills);
        if k == 0 {
            nothing_open(earlier, symbol, gone);
        }
        b
    }
}

/// Where nothing is open, all units are gone.
proof fn nothing_open(fills: Seq<FillView>, symbol: Seq<char>, gone: int)
    requires
        all_positive(fills),
        gone >= 0,
    ensures
        open_purchases(fills, symbol, gone).len() == 0 <==> units_bought(fills, symbol) <= gone,
    decreases fills.len(),
{
    if fills.len() > 0 {
        positive_before(fills);
        nothing_open(fills.drop_last(), symbol, gone);
        units_grow(fills, symbol, fills.len() as int);
    }
}

/// Selling on within the first open lot takes from that lot alone.
proof fn first_lot_goes_first(fills: Seq<FillView>, symbol: Seq<char>, gone: int, more: int)
    requires
        all_positive(fills),
        gone >= 0,
        open_purchases(fills, symbol, gone).len() > 0,
        0 < more <= open_purchases(fills, symbol, gone)[0].quantity,
    ensures
        ({
            let open = open_purchases(fills, symbol, gone);
            let after = open_purchases(fills, symbol, gone + more);
            &&& more < open[0].quantity ==> after == open.update(
                0,
                LotView { quantity: open[0].quantity - more, ..open[0] },
            )
            &&& more == open[0].quantity ==> after == open.skip(1)
        }),
    decreases fills.len(),
{
    positive_before(fills);
    let earlier = fills.drop_last();
    let open = open_purchases(fills, symbol, gone);
    let rest = open_purchases(earlier, symbol, gone);
    let after = open_purchases(fills, symbol, gone + more);
    let cut = LotView { quantity: open[0].quantity - more, ..open[0] };
    units_grow(earlier, symbol, earlier.len() as int);
    nothing_open(earlier, symbol, gone);
    if rest.len() > 0 {
        assert(open[0] == rest[0]);
        first_lot_goes_first(earlier, symbol, gone, more);
        let b = lot_is_of_a_purchase(earlier, symbol, gone, 0);
        assert(gone + more <= units_bought(earlier, symbol));
    } else {
        nothing_open(earlier, symbol, gone + more);
    }
    if more < open[0].quantity {
        assert(after =~= open.update(0, cut));
    } else {
        assert(after =~= open.skip(1));
    }
}

/// The first open lot begins where the units are gone up to, or before.
proof fn first_lot_begins_at(fills: Seq<FillView>, symbol: Seq<char>, b: int, c: int)
    requires
        all_positive(fills),
        0 <= b < fills.len(),
        0 <= c < fills.len(),
        units_bought(fills.take(c), symbol) <= units_bought(fills.take(b + 1), symbol),
        units_bought(fills.take(b + 1), symbol) < units_bought(fills.take(c + 1), symbol),
    ensures
        units_bought(fills.take(c), symbol) == units_bought(fills.take(b + 1), symbol),
{
    if c <= b {
        positive_take(fills, b + 1);
        units_grow(fills.take(b + 1), symbol, c + 1);
        assert(fills.take(b + 1).take(c + 1) =~= fills.take(c + 1));
    } else {
        positive_take(fills, c);
        units_grow(fills.take(c), symbol, b + 1);
        assert(fills.take(c).take(b + 1) =~= fills.take(b + 1));
    }
}

proof fn positive_take(fills: Seq<FillView>, n: int)
    requires
        all_positive(fills),
        0 <= n <= fills.len(),
    ensures
        all_positive(fills.take(n)),
{
    let part = fills.take(n);
    assert forall|i: int| 0 <= i < part.len() implies (#[trigger] part[i]).quantity > 0 by {
        assert(part[i] == fills[i]);
    }
}

/// Whether purchase `b` pairs with a sale to make a trade, for some `b`.
spec fn is_paired(trade: TradeView, fills: Seq<FillView>, sale: FillView, from: int) -> bool {
    exists|b: int| pairs(trade, fills, b, sale, from)
}

/// The trades of a sale pair it with the purchases whose units it sells.
proof fn sale_pairs(
    snapshot: ReportSnapshot,
    fills: Seq<FillView>,
    sale: FillView,
    from: int,
    gone: int,
)
    requires
        all_positive(fills),
        sale.quantity > 0,
        0 <= from <= gone <= from + sale.quantity,
        gone == from || exists|b: int|
            0 <= b < fills.len() && #[trigger] units_bought(fills.take(b + 1), sale.symbol) == gone,
    ensures
        trades::sold(
            snapshot,
            open_purchases(fills, sale.symbol, gone),
            sale,
            from + sale.quantity - gone,
        ) matches Ok((left, more)) ==> {
            &&& left == open_purchases(fills, sale.symbol, from + sale.quantity)
            &&& forall|i: int|
                0 <= i < more.len() ==> is_paired(#[trigger] more[i], fills, sale, from)
        },
    decreases open_purchases(fills, sale.symbol, gone).len(),
{
    let symbol = sale.symbol;
    let open = open_purchases(fills, symbol, gone);
    let remaining = from + sale.quantity - gone;
    if remaining > 0 && open.len() > 0 {
        let lot = open[0];
        let matched = if lot.quantity < remaining {
            lot.quantity
        } else {
            remaining
        };
        let c = lot_is_of_a_purchase(fills, symbol, gone, 0);
        let first = units_bought(fills.take(c), symbol);
        let end = first + fills[c].quantity;
        if gone != from {
            let b = choose|b: int|
                0 <= b < fills.len() && #[trigger] units_bought(fills.take(b + 1), symbol) == gone;
            first_lot_begins_at(fills, symbol, b, c);
            assert(first == gone);
        }
        assert(lot.quantity == end - gone);
        assert(units_of(fills, symbol, c, from, from + sale.quantity) == matched);
        assert(units_of(fills, symbol, c, from, end) == lot.quantity);
        first_lot_goes_first(fills, symbol, gone, matched);
        marker_says_what_it_was_given(
            lot.fill_id,
            symbol,
            "entry"@,
            matched,
            lot.price,
            lot.timestamp,
            false,
        );
        marker_says_what_it_was_given(
            sale.fill_id,
            symbol,
            "exit"@,
            matched,
            sale.price,
            sale.timestamp,
            sale.end_of_data,
        );
        if let Ok(trade) = trades::closed_trade(snapshot, lot, sale, matched) {
            assert(pairs(trade, fills, c, sale, from));
            assert(is_paired(trade, fills, sale, from));
            if matched == lot.quantity {
                assert(units_bought(fills.take(c + 1), symbol) == gone + matched);
                sale_pairs(snapshot, fills, sale, from, gone + matched);
                if let Ok((_, more)) = trades::sold(
                    snapshot,
                    open.skip(1),
                    sale,
                    remaining - matched,
                ) {
                    let made = seq![trade] + more;
                    assert forall|i: int| 0 <= i < made.len() implies is_paired(
                        #[trigger] made[i],
                        fills,
                        sale,
                        from,
                    ) by {
                        if i > 0 {
                            assert(made[i] == more[i - 1]);
                        }
                    }
                }
            }
        }
    }
}

/// Whether a trade pairs a purchase among the fills with a later sale among them.
pub open spec fn pairs_two_fills(trade: TradeView, fills: Seq<FillView>) -> bool {
    exists|b: int, s: int|
        {
            &&& 0 <= b < s < fills.len()
            &&& fills[s].side == "sell"@
            &&& #[trigger] pairs(
                trade,
                fills.take(s),
                b,
                fills[s],
                units_sold(fills.take(s), fills[s].symbol),
            )
        }
}

/// Whether a book follows the numbers.
spec fn in_turn(book: MatchBook, fills: Seq<FillView>) -> bool {
    &&& forall|symbol: Seq<char>| #[trigger]
        trades::open_lots(book.open, symbol) == open_purchases(
            fills,
            symbol,
            units_sold(fills, symbol),
        )
    &&& forall|i: int| 0 <= i < book.trades.len() ==> pairs_two_fills(#[trigger] book.trades[i], fills)
}

proof fn longer_list_keeps_pairs(trade: TradeView, fills: Seq<FillView>, more: FillView)
    requires
        pairs_two_fills(trade, fills),
    ensures
        pairs_two_fills(trade, fills.push(more)),
{
    let (b, s) = choose|b: int, s: int|
        {
            &&& 0 <= b < s < fills.len()
            &&& fills[s].side == "sell"@
            &&& #[trigger] pairs(
                trade,
                fills.take(s),
                b,
                fills[s],
                units_sold(fills.take(s), fills[s].symbol),
            )
        };
    let longer = fills.push(more);
    assert(longer.take(s) =~= fills.take(s));
    assert(longer[s] == fills[s]);
    assert(pairs(
        trade,
        longer.take(s),
        b,
        longer[s],
        units_sold(longer.take(s), longer[s].symbol),
    ));
}

proof fn fills_in_turn(snapshot: ReportSnapshot, fills: Seq<JsonTree>)
    requires
        all_positive(fill_views(fills)),
    ensures
        trades::match_fills(snapshot, fills) matches Ok(book) ==> in_turn(book, fill_views(fills)),
    decreases fills.len(),
{
    let shown = fill_views(fills);
    if fills.len() == 0 {
        assert(shown =~= Seq::empty());
        if let Ok(book) = trades::match_fills(snapshot, fills) {
            assert forall|symbol: Seq<char>| #[trigger]
                trades::open_lots(book.open, symbol) == open_purchases(
                    shown,
                    symbol,
                    units_sold(shown, symbol),
                ) by {}
        }
    } else {
        let earlier = shown.drop_last();
        positive_before(shown);
        assert(fill_views(fills.drop_last()) =~= earlier);
        fills_in_turn(snapshot, fills.drop_last());
        if let Ok(book) = trades::match_fills(snapshot, fills) {
            reveal_strlit("buy");
            reveal_strlit("sell");
            assert("buy"@.len() != "sell"@.len());
            let before = trades::match_fills(snapshot, fills.drop_last())->Ok_0;
            let fill = shown.last();
            let name = fill.symbol;
            let gone = units_sold(earlier, name);
            assert(trades::fill_of(fills.last()) == Some(fill));
            assert(trades::open_lots(before.open, name) == open_purchases(earlier, name, gone));
            units_grow(earlier, name, earlier.len() as int);
            let made: Seq<TradeView> = if fill.side == "buy"@ {
                Seq::empty()
            } else {
                sale_pairs(snapshot, earlier, fill, gone, gone);
                trades::sold(
                    snapshot,
                    trades::open_lots(before.open, name),
                    fill,
                    fill.quantity,
                )->Ok_0.1
            };
            assert(book.trades =~= before.trades + made);
            assert(shown =~= earlier.push(fill));
            assert forall|i: int| 0 <= i < book.trades.len() implies pairs_two_fills(
                #[trigger] book.trades[i],
                shown,
            ) by {
                if i < before.trades.len() {
                    assert(book.trades[i] == before.trades[i]);
                    longer_list_keeps_pairs(before.trades[i], earlier, fill);
                } else {
                    let trade = made[i - before.trades.len()];
                    assert(book.trades[i] == trade);
                    assert(is_paired(trade, earlier, fill, gone));
                    let b = choose|b: int| pairs(trade, earlier, b, fill, gone);
                    let s = earlier.len() as int;
                    assert(shown.take(s) =~= earlier);
                    assert(shown[s] == fill);
                    assert(pairs(
                        trade,
                        shown.take(s),
                        b,
                        shown[s],
                        units_sold(shown.take(s), shown[s].symbol),
                    ));
                }
            }
            assert forall|symbol: Seq<char>| #[trigger]
                trades::open_lots(book.open, symbol) == open_purchases(
                    shown,
                    symbol,
                    units_sold(shown, symbol),
                ) by {
                assert(trades::open_lots(before.open, symbol) == open_purchases(
                    earlier,
                    symbol,
                    units_sold(earlier, symbol),
                ));
                if symbol == name && fill.side == "buy"@ {
                    unsold_is_bought(snapshot, fills.drop_last(), name);
                } else if symbol == name {
                    assert(open_purchases(shown, symbol, gone + fill.quantity) == open_purchases(
                        earlier,
                        symbol,
                        gone + fill.quantity,
                    ));
                }
            }
        }
    }
}

/// Where fills could be matched, no more was sold than bought.
proof fn unsold_is_bought(snapshot: ReportSnapshot, fills: Seq<JsonTree>, symbol: Seq<char>)
    requires
        all_positive(fill_views(fills)),
    ensures
        trades::match_fills(snapshot, fills) is Ok ==> units_sold(fill_views(fills), symbol)
            <= units_bought(fill_views(fills), symbol),
    decreases fills.len(),
{
    let shown = fill_views(fills);
    if fills.len() > 0 && trades::match_fills(snapshot, fills) is Ok {
        let earlier = shown.drop_last();
        positive_before(shown);
        assert(fill_views(fills.drop_last()) =~= earlier);
        unsold_is_bought(snapshot, fills.drop_last(), symbol);
        fills_in_turn(snapshot, fills.drop_last());
        reveal_strlit("buy");
        reveal_strlit("sell");
        assert("buy"@.len() != "sell"@.len());
        let fill = shown.last();
        if fill.symbol == symbol && fill.side == "sell"@ {
            let before = trades::match_fills(snapshot, fills.drop_last())->Ok_0;
            let gone = units_sold(earlier, symbol);
            units_grow(earlier, symbol, earlier.len() as int);
            assert(trades::open_lots(before.open, symbol) == open_purchases(earlier, symbol, gone));
            sale_is_covered(snapshot, earlier, fill, gone, fill.quantity);
        }
    }
}

proof fn sale_is_covered(
    snapshot: ReportSnapshot,
    fills: Seq<FillView>,
    sale: FillView,
    gone: int,
    remaining: int,
)
    requires
        all_positive(fills),
        gone >= 0,
        remaining > 0,
    ensures
        trades::sold(
            snapshot,
            open_purchases(fills, sale.symbol, gone),
            sale,
            remaining,
        ) is Ok ==> gone + remaining <= units_bought(fills, sale.symbol),
    decreases open_purchases(fills, sale.symbol, gone).len(),
{
    let open = open_purchases(fills, sale.symbol, gone);
    if open.len() > 0 {
        let b = lot_is_of_a_purchase(fills, sale.symbol, gone, 0);
        let first = open[0].quantity;
        if first < remaining {
            first_lot_goes_first(fills, sale.symbol, gone, first);
            sale_is_covered(snapshot, fills, sale, gone + first, remaining - first);
        }
    }
}

/// Whether a trade holds what is left of a purchase among the fills, at the price of the
/// position in its symbol.
pub open spec fn holds_a_purchase(
    trade: TradeView,
    fills: Seq<FillView>,
    positions: Seq<Position>,
    last: Seq<char>,
) -> bool {
    exists|b: int, p: int|
        {
            &&& 0 <= p < positions.len()
            &&& positions[p].symbol@ == trade.symbol
            &&& #[trigger] holds(
                trade,
                fills,
                b,
                units_sold(fills, trade.symbol),
                #[trigger] positions[p].market_price_micros as int,
                last,
            )
        }
}

proof fn price_is_of_a_position(positions: Seq<Position>, symbol: Seq<char>) -> (p: int)
    requires
        trades::market_price(positions, symbol) is Some,
    ensures
        0 <= p < positions.len(),
        positions[p].symbol@ == symbol,
        trades::market_price(positions, symbol) == Some(positions[p].market_price_micros as int),
        forall|q: int| 0 <= q < p ==> (#[trigger] positions[q]).symbol@ != symbol,
    decreases positions.len(),
{
    let earlier = positions.drop_last();
    if trades::market_price(earlier, symbol) is Some {
        let p = price_is_of_a_position(earlier, symbol);
        assert(earlier[p] == positions[p]);
        assert forall|q: int| 0 <= q < p implies (#[trigger] positions[q]).symbol@ != symbol by {
            assert(earlier[q] == positions[q]);
        }
        p
    } else {
        no_price_no_position(earlier, symbol);
        assert forall|q: int| 0 <= q < positions.len() - 1 implies (
        #[trigger] positions[q]).symbol@ != symbol by {
            assert(earlier[q] == positions[q]);
        }
        positions.len() - 1
    }
}

proof fn no_price_no_position(positions: Seq<Position>, symbol: Seq<char>)
    requires
        trades::market_price(positions, symbol) is None,
    ensures
        forall|q: int| 0 <= q < positions.len() ==> (#[trigger] positions[q]).symbol@ != symbol,
    decreases positions.len(),
{
    if positions.len() > 0 {
        no_price_no_position(positions.drop_last(), symbol);
        assert forall|q: int| 0 <= q < positions.len() implies (
        #[trigger] positions[q]).symbol@ != symbol by {
            if q < positions.len() - 1 {
                assert(positions.drop_last()[q] == positions[q]);
            }
        }
    }
}

proof fn lots_are_held(
    snapshot: ReportSnapshot,
    symbol: Seq<char>,
    fills: Seq<FillView>,
    lots: Seq<LotView>,
    positions: Seq<Position>,
)
    requires
        all_positive(fills),
        trades::market_price(positions, symbol) is Some,
        lots.is_prefix_of(open_purchases(fills, symbol, units_sold(fills, symbol))),
    ensures
        trades::held_lots(
            snapshot,
            symbol,
            lots,
            trades::market_price(positions, symbol)->Some_0,
        ) matches Ok(more) ==> forall|i: int|
            0 <= i < more.len() ==> holds_a_purchase(
                #[trigger] more[i],
                fills,
                positions,
                snapshot.last_timestamp@,
            ),
    decreases lots.len(),
{
    if lots.len() > 0 {
        let gone = units_sold(fills, symbol);
        let open = open_purchases(fills, symbol, gone);
        let price = trades::market_price(positions, symbol)->Some_0;
        lots_are_held(snapshot, symbol, fills, lots.drop_last(), positions);
        if let Ok(more) = trades::held_lots(snapshot, symbol, lots, price) {
            let before = trades::held_lots(snapshot, symbol, lots.drop_last(), price)->Ok_0;
            let lot = lots.last();
            assert(lot == open[lots.len() - 1]);
            let trade = trades::held_trade(snapshot, symbol, lot, price)->Ok_0;
            units_grow(fills, symbol, fills.len() as int);
            let b = lot_is_of_a_purchase(fills, symbol, gone, lots.len() - 1);
            let p = price_is_of_a_position(positions, symbol);
            marker_says_what_it_was_given(
                lot.fill_id,
                symbol,
                "entry"@,
                lot.quantity,
                lot.price,
                lot.timestamp,
                false,
            );
            marker_says_what_it_was_given(
                lot.fill_id + ":valuation"@,
                symbol,
                "terminal_valuation"@,
                lot.quantity,
                price,
                Some(snapshot.last_timestamp@),
                true,
            );
            assert(holds(
                trade,
                fills,
                b,
                units_sold(fills, trade.symbol),
                positions[p].market_price_micros as int,
                snapshot.last_timestamp@,
            ));
            assert(holds_a_purchase(trade, fills, positions, snapshot.last_timestamp@));
            assert forall|i: int| 0 <= i < more.len() implies holds_a_purchase(
                #[trigger] more[i],
                fills,
                positions,
                snapshot.last_timestamp@,
            ) by {
                if i < before.len() {
                    assert(more[i] == before[i]);
                }
            }
        }
    }
}

proof fn rest_is_held(
    snapshot: ReportSnapshot,
    book: MatchBook,
    fills: Seq<FillView>,
    symbols: Seq<Seq<char>>,
    positions: Seq<Position>,
)
    requires
        all_positive(fills),
        in_turn(book, fills),
    ensures
        trades::held_all(snapshot, book.open, symbols, positions) matches Ok(more) ==> forall|i: int|
            0 <= i < more.len() ==> holds_a_purchase(
                #[trigger] more[i],
                fills,
                positions,
                snapshot.last_timestamp@,
            ),
    decreases symbols.len(),
{
    if symbols.len() > 0 {
        rest_is_held(snapshot, book, fills, symbols.drop_last(), positions);
        if let Ok(more) = trades::held_all(snapshot, book.open, symbols, positions) {
            let symbol = symbols.last();
            let lots = trades::open_lots(book.open, symbol);
            let before = trades::held_all(
                snapshot,
                book.open,
                symbols.drop_last(),
                positions,
            )->Ok_0;
            if lots.len() > 0 {
                lots_are_held(snapshot, symbol, fills, lots, positions);
                let added = trades::held_lots(
                    snapshot,
                    symbol,
                    lots,
                    trades::market_price(positions, symbol)->Some_0,
                )->Ok_0;
                assert(more == before + added);
                assert forall|i: int| 0 <= i < more.len() implies holds_a_purchase(
                    #[trigger] more[i],
                    fills,
                    positions,
                    snapshot.last_timestamp@,
                ) by {
                    if i < before.len() {
                        assert(more[i] == before[i]);
                    } else {
                        assert(more[i] == added[i - before.len()]);
                    }
                }
            }
        }
    }
}

/// Trades are matched first in, first out. Each closed trade pairs a purchase with a later
/// sale of the same symbol and is of just those units, numbered as they were bought, that
/// the sale takes from the purchase; each open trade is of what the sales have left of a
/// purchase, at the price of the position.
pub proof fn trades_are_first_in_first_out(
    snapshot: ReportSnapshot,
    fills: Seq<JsonTree>,
    positions: Seq<Position>,
)
    requires
        all_positive(fill_views(fills)),
    ensures
        trades::trades_of(snapshot, fills, positions) matches Ok(list) ==> forall|i: int|
            0 <= i < list.len() ==> if (#[trigger] list[i]).realized {
                pairs_two_fills(list[i], fill_views(fills))
            } else {
                holds_a_purchase(list[i], fill_views(fills), positions, snapshot.last_timestamp@)
            },
{
    if let Ok(list) = trades::trades_of(snapshot, fills, positions) {
        let shown = fill_views(fills);
        fills_in_turn(snapshot, fills);
        let book = trades::match_fills(snapshot, fills)->Ok_0;
        let symbols = text_map::in_order(book.open.dom());
        rest_is_held(snapshot, book, shown, symbols, positions);
        let held = trades::held_all(snapshot, book.open, symbols, positions)->Ok_0;
        let all = book.trades + held;
        sorting::sorting_keeps_members(all, trades::trade_order());
        assert forall|i: int| 0 <= i < list.len() implies if (#[trigger] list[i]).realized {
            pairs_two_fills(list[i], shown)
        } else {
            holds_a_purchase(list[i], shown, positions, snapshot.last_timestamp@)
        } by {
            assert(list.contains(list[i]));
            let k = choose|k: int| 0 <= k < all.len() && all[k] == list[i];
            if k < book.trades.len() {
                assert(book.trades[k] == list[i]);
                assert(pairs_two_fills(book.trades[k], shown));
            } else {
                assert(held[k - book.trades.len()] == list[i]);
                assert(holds_a_purchase(
                    held[k - book.trades.len()],
                    shown,
                    positions,
                    snapshot.last_timestamp@,
                ));
            }
        }
    }
}

/// What trades earned together, before fees.
pub open spec fn earned_before_fees(list: Seq<TradeView>) -> int
    decreases list.len(),
{
    if list.len() == 0 {
        0
    } else {
        earned_before_fees(list.drop_last()) + list.last().pnl->Some_0 + list.last().fee
    }
}

/// What the purchases of trades cost together.
pub open spec fn paid_for(list: Seq<TradeView>) -> int
    decreases list.len(),
{
    if list.len() == 0 {
        0
    } else {
        paid_for(list.drop_last()) + amount(
            list.last().quantity,
            json::i64_member(list.last().entry, "priceMicros"@)->Some_0,
        )
    }
}

proof fn sums_from_front(trade: TradeView, rest: Seq<TradeView>)
    ensures
        earned_before_fees(seq![trade] + rest) == trade.pnl->Some_0 + trade.fee
            + earned_before_fees(rest),
        paid_for(seq![trade] + rest) == amount(
            trade.quantity,
            json::i64_member(trade.entry, "priceMicros"@)->Some_0,
        ) + paid_for(rest),
    decreases rest.len(),
{
    let all = seq![trade] + rest;
    if rest.len() == 0 {
        assert(all.drop_last() =~= Seq::empty());
        assert(all.last() == trade);
        assert(earned_before_fees(all.drop_last()) == 0 && paid_for(all.drop_last()) == 0);
    } else {
        assert(all.drop_last() =~= seq![trade] + rest.drop_last());
        assert(all.last() == rest.last());
        sums_from_front(trade, rest.drop_last());
    }
}

proof fn whole_units_add_up(a: int, b: int, price: int)
    requires
        a % 1_000_000 == 0,
        b % 1_000_000 == 0,
    ensures
        amount(a + b, price) == amount(a, price) + amount(b, price),
        amount(0, price) == 0,
{
    let x = a / 1_000_000;
    let y = b / 1_000_000;
    assert(a == 1_000_000 * x && b == 1_000_000 * y);
    assert(a * price == 1_000_000 * (x * price)) by (nonlinear_arith)
        requires
            a == 1_000_000 * x,
    ;
    assert(b * price == 1_000_000 * (y * price)) by (nonlinear_arith)
        requires
            b == 1_000_000 * y,
    ;
    assert((a + b) * price == a * price + b * price) by (nonlinear_arith);
    assert(0 * price == 0);
}

/// In whole units nothing is cut off: what the trades of one sale earned, before fees, is
/// what the sale brought in less what the purchases that it sells had cost.
pub proof fn profits_of_a_sale_add_up(
    snapshot: ReportSnapshot,
    lots: Seq<LotView>,
    sale: FillView,
    remaining: int,
)
    requires
        remaining >= 0,
        remaining % 1_000_000 == 0,
        forall|i: int|
            0 <= i < lots.len() ==> (#[trigger] lots[i]).quantity % 1_000_000 == 0
                && i64::MIN <= lots[i].price <= i64::MAX,
    ensures
        trades::sold(snapshot, lots, sale, remaining) matches Ok((_, more)) ==> earned_before_fees(
            more,
        ) == amount(remaining, sale.price) - paid_for(more),
    decreases lots.len(),
{
    whole_units_add_up(0, 0, sale.price);
    if remaining > 0 && lots.len() > 0 {
        let lot = lots[0];
        let rest = lots.skip(1);
        let matched = if lot.quantity < remaining {
            lot.quantity
        } else {
            remaining
        };
        assert forall|i: int| 0 <= i < rest.len() implies (#[trigger] rest[i]).quantity % 1_000_000
            == 0 && i64::MIN <= rest[i].price <= i64::MAX by {
            assert(rest[i] == lots[i + 1]);
        }
        marker_says_what_it_was_given(
            lot.fill_id,
            sale.symbol,
            "entry"@,
            matched,
            lot.price,
            lot.timestamp,
            false,
        );
        closed_balances(snapshot, lot, sale, matched);
        whole_units_add_up(matched, remaining - matched, sale.price);
        if let Ok(trade) = trades::closed_trade(snapshot, lot, sale, matched) {
            assert(trade.pnl->Some_0 + trade.fee == amount(matched, sale.price) - amount(
                matched,
                lot.price,
            ));
            if matched < lot.quantity {
                sums_from_front(trade, Seq::empty());
                assert(seq![trade] + Seq::<TradeView>::empty() =~= seq![trade]);
            } else if remaining - matched >= 0 {
                profits_of_a_sale_add_up(snapshot, rest, sale, remaining - matched);
                if let Ok((_, more)) = trades::sold(snapshot, rest, sale, remaining - matched) {
                    sums_from_front(trade, more);
                }
            }
        }
    }
}

} // verus!

//! First in, first out. The units of a symbol are numbered in the order in which they were
//! bought, and sold in the same order: what a sale closes, what it earns and what stays
//! open follow from the numbers alone.

use vstd::prelude::*;

use crate::backtest_accounting;
use crate::backtest_accounting::{
    AccountingInput, Book, Cash, Fault, Fill, FillSide, Lot, Statement,
};
use crate::text_map;

verus! {

/// How many units of a symbol the fills bought.
pub open spec fn bought(fills: Seq<Fill>, symbol: Seq<char>) -> int
    decreases fills.len(),
{
    if fills.len() == 0 {
        0
    } else {
        bought(fills.drop_last(), symbol) + if fills.last().symbol == symbol && fills.last().side
            == FillSide::Buy {
            fills.last().quantity
        } else {
            0
        }
    }
}

/// How many units of a symbol the fills sold.
pub open spec fn sold(fills: Seq<Fill>, symbol: Seq<char>) -> int
    decreases fills.len(),
{
    if fills.len() == 0 {
        0
    } else {
        sold(fills.drop_last(), symbol) + if fills.last().symbol == symbol && fills.last().side
            == FillSide::Sell {
            fills.last().quantity
        } else {
            0
        }
    }
}

/// How many of the numbers from `a` up to `b` lie from `c` up to `d`.
pub open spec fn overlap(a: int, b: int, c: int, d: int) -> int {
    let low = if a < c {
        c
    } else {
        a
    };
    let high = if b < d {
        b
    } else {
        d
    };
    if low < high {
        high - low
    } else {
        0
    }
}

/// What the units numbered from `from` up to `to` earn when they are sold at a price: for
/// each purchase, the worth of its units at the price less their worth at its own price.
pub open spec fn gain(fills: Seq<Fill>, symbol: Seq<char>, from: int, to: int, price: int) -> int
    decreases fills.len(),
{
    if fills.len() == 0 {
        0
    } else {
        let earlier = fills.drop_last();
        let last = fills.last();
        gain(earlier, symbol, from, to, price) + if last.symbol == symbol && last.side
            == FillSide::Buy {
            let units = overlap(
                bought(earlier, symbol),
                bought(earlier, symbol) + last.quantity,
                from,
                to,
            );
            units * price / 1_000_000 - units * last.price / 1_000_000
        } else {
            0
        }
    }
}

/// What the sales among the fills earn: each sells the units that come after those that
/// were sold before it.
pub open spec fn earned(fills: Seq<Fill>) -> int
    decreases fills.len(),
{
    if fills.len() == 0 {
        0
    } else {
        let earlier = fills.drop_last();
        let last = fills.last();
        earned(earlier) + if last.side == FillSide::Sell {
            gain(
                earlier,
                last.symbol,
                sold(earlier, last.symbol),
                sold(earlier, last.symbol) + last.quantity,
                last.price,
            )
        } else {
            0
        }
    }
}

/// What stays open of the purchases of a symbol once the first `gone` units are sold.
pub open spec fn open_after(fills: Seq<Fill>, symbol: Seq<char>, gone: int) -> Seq<Lot>
    decreases fills.len(),
{
    if fills.len() == 0 {
        Seq::empty()
    } else {
        let last = fills.last();
        let rest = open_after(fills.drop_last(), symbol, gone);
        let units = overlap(
            bought(fills.drop_last(), symbol),
            bought(fills, symbol),
            gone,
            bought(fills, symbol),
        );
        if last.symbol == symbol && last.side == FillSide::Buy && units > 0 {
            rest.push(
                Lot { id: last.id, symbol: last.symbol, quantity: units, unit_cost: last.price },
            )
        } else {
            rest
        }
    }
}

/// Whether each fill is of a positive quantity at a price that is not negative.
pub open spec fn ordinary(fills: Seq<Fill>) -> bool {
    forall|i: int| 0 <= i < fills.len() ==> (#[trigger] fills[i]).quantity > 0 && fills[i].price >= 0
}

proof fn ordinary_before(fills: Seq<Fill>)
    requires
        ordinary(fills),
        fills.len() > 0,
    ensures
        ordinary(fills.drop_last()),
        fills.last().quantity > 0,
        fills.last().price >= 0,
{
    assert(fills.last() == fills[fills.len() - 1]);
    let earlier = fills.drop_last();
    assert forall|i: int| 0 <= i < earlier.len() implies (#[trigger] earlier[i]).quantity > 0
        && earlier[i].price >= 0 by {
        assert(earlier[i] == fills[i]);
    }
}

proof fn nothing_negative_is_bought(fills: Seq<Fill>, symbol: Seq<char>)
    requires
        ordinary(fills),
    ensures
        bought(fills, symbol) >= 0,
        sold(fills, symbol) >= 0,
    decreases fills.len(),
{
    if fills.len() > 0 {
        ordinary_before(fills);
        nothing_negative_is_bought(fills.drop_last(), symbol);
    }
}

/// Past the last unit nothing is open and nothing is earned.
proof fn past_the_end(fills: Seq<Fill>, symbol: Seq<char>, gone: int, to: int, price: int)
    requires
        ordinary(fills),
        bought(fills, symbol) <= gone,
    ensures
        open_after(fills, symbol, gone).len() == 0,
        gain(fills, symbol, gone, to, price) == 0,
    decreases fills.len(),
{
    if fills.len() > 0 {
        ordinary_before(fills);
        past_the_end(fills.drop_last(), symbol, gone, to, price);
    }
}

/// The first open lot ends at a unit that was bought, and while there is one not all units
/// are gone; where there is none, all are.
proof fn front_of_open(fills: Seq<Fill>, symbol: Seq<char>, gone: int)
    requires
        ordinary(fills),
    ensures
        ({
            let open = open_after(fills, symbol, gone);
            if open.len() > 0 {
                &&& open[0].quantity > 0
                &&& gone < bought(fills, symbol)
                &&& gone >= 0 ==> gone + open[0].quantity <= bought(fills, symbol)
            } else {
                bought(fills, symbol) <= gone || bought(fills, symbol) == 0
            }
        }),
    decreases fills.len(),
{
    if fills.len() > 0 {
        ordinary_before(fills);
        nothing_negative_is_bought(fills.drop_last(), symbol);
        front_of_open(fills.drop_last(), symbol, gone);
    }
}

/// Selling on within the first open lot takes from that lot alone.
proof fn front_goes_first(fills: Seq<Fill>, symbol: Seq<char>, gone: int, more: int, price: int)
    requires
        ordinary(fills),
        gone >= 0,
        open_after(fills, symbol, gone).len() > 0,
        0 < more <= open_after(fills, symbol, gone)[0].quantity,
    ensures
        ({
            let open = open_after(fills, symbol, gone);
            let after = open_after(fills, symbol, gone + more);
            &&& more < open[0].quantity ==> after == open.update(
                0,
                Lot { quantity: open[0].quantity - more, ..open[0] },
            )
            &&& more == open[0].quantity ==> after == open.drop_first()
            &&& gain(fills, symbol, gone, gone + more, price) == more * price / 1_000_000 - more
                * open[0].unit_cost / 1_000_000
        }),
    decreases fills.len(),
{
    ordinary_before(fills);
    let earlier = fills.drop_last();
    let last = fills.last();
    let open = open_after(fills, symbol, gone);
    let rest = open_after(earlier, symbol, gone);
    let after = open_after(fills, symbol, gone + more);
    nothing_negative_is_bought(earlier, symbol);
    front_of_open(earlier, symbol, gone);
    assert(0 * price / 1_000_000 == 0 && 0 * last.price / 1_000_000 == 0);
    if rest.len() > 0 {
        assert(open[0] == rest[0]);
        front_goes_first(earlier, symbol, gone, more, price);
        let cut = Lot { quantity: open[0].quantity - more, ..open[0] };
        if more < open[0].quantity {
            assert(after =~= open.update(0, cut));
        } else {
            assert(after =~= open.drop_first());
        }
    } else {
        assert(last.symbol == symbol && last.side == FillSide::Buy);
        past_the_end(earlier, symbol, gone, gone + more, price);
        past_the_end(earlier, symbol, gone + more, gone + more, price);
        let cut = Lot { quantity: open[0].quantity - more, ..open[0] };
        if more < open[0].quantity {
            assert(after =~= open.update(0, cut));
        } else {
            assert(after =~= open.drop_first());
        }
    }
}

/// What is earned by selling past the first open lot is earned by that lot and by what
/// comes after it.
proof fn gain_splits_at_a_lot(fills: Seq<Fill>, symbol: Seq<char>, gone: int, to: int, price: int)
    requires
        ordinary(fills),
        gone >= 0,
        open_after(fills, symbol, gone).len() > 0,
        gone + open_after(fills, symbol, gone)[0].quantity <= to,
    ensures
        ({
            let end = gone + open_after(fills, symbol, gone)[0].quantity;
            gain(fills, symbol, gone, to, price) == gain(fills, symbol, gone, end, price) + gain(
                fills,
                symbol,
                end,
                to,
                price,
            )
        }),
    decreases fills.len(),
{
    ordinary_before(fills);
    let earlier = fills.drop_last();
    let last = fills.last();
    let open = open_after(fills, symbol, gone);
    let rest = open_after(earlier, symbol, gone);
    let end = gone + open[0].quantity;
    nothing_negative_is_bought(earlier, symbol);
    front_of_open(earlier, symbol, gone);
    assert(0 * price / 1_000_000 == 0 && 0 * last.price / 1_000_000 == 0);
    if rest.len() > 0 {
        assert(open[0] == rest[0]);
        gain_splits_at_a_lot(earlier, symbol, gone, to, price);
    } else {
        past_the_end(earlier, symbol, gone, to, price);
        past_the_end(earlier, symbol, gone, end, price);
        past_the_end(earlier, symbol, end, to, price);
    }
}

/// A sale out of what is open takes the units that come next.
proof fn sale_follows_the_numbers(
    fills: Seq<Fill>,
    symbol: Seq<char>,
    gone: int,
    quantity: int,
    price: int,
    realized: int,
)
    requires
        ordinary(fills),
        gone >= 0,
        quantity >= 0,
    ensures
        backtest_accounting::sell_oldest(
            open_after(fills, symbol, gone),
            quantity,
            price,
            realized,
            symbol,
        ) matches Ok((left, total)) ==> {
            &&& left == open_after(fills, symbol, gone + quantity)
            &&& total == realized + gain(fills, symbol, gone, gone + quantity, price)
            &&& quantity > 0 ==> gone + quantity <= bought(fills, symbol)
        },
    decreases open_after(fills, symbol, gone).len(),
{
    let open = open_after(fills, symbol, gone);
    front_of_open(fills, symbol, gone);
    if quantity == 0 {
        nothing_between(fills, symbol, gone, price);
    } else if open.len() > 0 {
        let first = open[0];
        let closed = backtest_accounting::least(quantity, first.quantity);
        front_goes_first(fills, symbol, gone, closed, price);
        if closed == first.quantity {
            gain_splits_at_a_lot(fills, symbol, gone, gone + quantity, price);
            let more = backtest_accounting::worth(closed, price) - backtest_accounting::worth(
                closed,
                first.unit_cost,
            );
            sale_follows_the_numbers(
                fills,
                symbol,
                gone + closed,
                quantity - closed,
                price,
                realized + more,
            );
        }
    }
}

proof fn nothing_between(fills: Seq<Fill>, symbol: Seq<char>, gone: int, price: int)
    ensures
        gain(fills, symbol, gone, gone, price) == 0,
    decreases fills.len(),
{
    if fills.len() > 0 {
        nothing_between(fills.drop_last(), symbol, gone, price);
    }
}

/// Whether an account keeps first in, first out: its fills are ordinary, no symbol was sold
/// beyond what was bought, the open lots are what the numbers leave, and what is realized
/// is what the numbers earn.
pub open spec fn in_turn(book: Book) -> bool {
    &&& ordinary(book.fills)
    &&& book.realized == earned(book.fills)
    &&& forall|symbol: Seq<char>| #[trigger]
        sold(book.fills, symbol) <= bought(book.fills, symbol) && backtest_accounting::lots_of(
            book,
            symbol,
        ) == open_after(book.fills, symbol, sold(book.fills, symbol))
}

proof fn fill_in_turn(book: Book, fill: Fill)
    requires
        in_turn(book),
    ensures
        backtest_accounting::book_fill(book, fill) matches Ok(after) ==> in_turn(after)
            && after.fills == book.fills.push(fill),
{
    if let Ok(after) = backtest_accounting::book_fill(book, fill) {
        let fills = after.fills;
        assert(fills == book.fills.push(fill));
        assert(fills.drop_last() =~= book.fills);
        assert forall|i: int| 0 <= i < fills.len() implies (#[trigger] fills[i]).quantity > 0
            && fills[i].price >= 0 by {
            if i < book.fills.len() {
                assert(fills[i] == book.fills[i]);
            }
        }
        let gone = sold(book.fills, fill.symbol);
        nothing_negative_is_bought(book.fills, fill.symbol);
        assert(backtest_accounting::lots_of(book, fill.symbol) == open_after(
            book.fills,
            fill.symbol,
            gone,
        ));
        sale_follows_the_numbers(
            book.fills,
            fill.symbol,
            gone,
            fill.quantity,
            fill.price,
            book.realized,
        );
        assert forall|symbol: Seq<char>| #[trigger]
            sold(fills, symbol) <= bought(fills, symbol) && backtest_accounting::lots_of(
                after,
                symbol,
            ) == open_after(fills, symbol, sold(fills, symbol)) by {
            assert(sold(book.fills, symbol) <= bought(book.fills, symbol));
            if symbol != fill.symbol {
                assert(backtest_accounting::lots_of(after, symbol) == backtest_accounting::lots_of(
                    book,
                    symbol,
                ));
            }
        }
    }
}

proof fn fills_in_turn(book: Book, fills: Seq<Fill>)
    requires
        in_turn(book),
    ensures
        backtest_accounting::book_fills(book, fills) matches Ok(after) ==> in_turn(after),
    decreases fills.len(),
{
    if fills.len() > 0 {
        fills_in_turn(book, fills.drop_last());
        if let Ok(so_far) = backtest_accounting::book_fills(book, fills.drop_last()) {
            fill_in_turn(so_far, fills.last());
        }
    }
}

proof fn entries_in_turn(book: Book, entries: Seq<Cash>)
    requires
        in_turn(book),
    ensures
        backtest_accounting::book_entries(book, entries) matches Ok(after) ==> in_turn(after),
    decreases entries.len(),
{
    if entries.len() > 0 {
        entries_in_turn(book, entries.drop_last());
        if let Ok(so_far) = backtest_accounting::book_entries(book, entries.drop_last()) {
            if let Ok(after) = backtest_accounting::book_cash(so_far, entries.last()) {
                assert(after.fills == so_far.fills && after.lots == so_far.lots);
                assert forall|symbol: Seq<char>| #[trigger]
                    sold(after.fills, symbol) <= bought(after.fills, symbol)
                        && backtest_accounting::lots_of(after, symbol) == open_after(
                        after.fills,
                        symbol,
                        sold(after.fills, symbol),
                    ) by {
                    assert(sold(so_far.fills, symbol) <= bought(so_far.fills, symbol));
                    assert(backtest_accounting::lots_of(after, symbol)
                        == backtest_accounting::lots_of(so_far, symbol));
                }
            }
        }
    }
}

proof fn closes_in_turn(book: Book, symbols: Seq<Seq<char>>, marks: Map<Seq<char>, i64>)
    requires
        in_turn(book),
    ensures
        backtest_accounting::close_symbols(book, symbols, marks) matches Ok(after) ==> in_turn(
            after,
        ),
    decreases symbols.len(),
{
    if symbols.len() > 0 {
        closes_in_turn(book, symbols.drop_last(), marks);
        if let Ok(so_far) = backtest_accounting::close_symbols(book, symbols.drop_last(), marks) {
            let symbol = symbols.last();
            let quantity = backtest_accounting::shares(backtest_accounting::lots_of(so_far, symbol));
            if let Ok(price) = backtest_accounting::mark_of(marks, symbol) {
                fill_in_turn(
                    so_far,
                    Fill {
                        id: "force_close:"@ + symbol,
                        symbol,
                        side: FillSide::Sell,
                        quantity,
                        price,
                        fee: 0,
                    },
                );
            }
        }
    }
}

proof fn closed_account_in_turn(input: AccountingInput, book: Book)
    requires
        backtest_accounting::closing(input) == Ok::<Book, Fault>(book),
    ensures
        in_turn(book),
{
    let first = backtest_accounting::opening(input.starting_cash_micros as int);
    let fills = backtest_accounting::fills_view(input.fills@);
    let entries = backtest_accounting::entries_view(input.cash_entries@);
    assert(in_turn(first)) by {
        assert forall|symbol: Seq<char>| #[trigger]
            sold(first.fills, symbol) <= bought(first.fills, symbol)
                && backtest_accounting::lots_of(first, symbol) == open_after(
                first.fills,
                symbol,
                sold(first.fills, symbol),
            ) by {}
    }
    fills_in_turn(first, fills);
    let filled = backtest_accounting::book_fills(first, fills)->Ok_0;
    entries_in_turn(filled, entries);
    let entered = backtest_accounting::book_entries(filled, entries)->Ok_0;
    closes_in_turn(entered, text_map::in_order(entered.lots.dom()), input.marks_micros@);
}

/// First in, first out: the profit that a statement calls realized is what its sales earn
/// when each of them sells the units that were bought first among those not yet sold, and
/// the lots of a position are its latest purchases in their order, of which only the first
/// may have been sold in part. Nothing was sold that had not been bought.
pub proof fn statement_is_first_in_first_out(input: AccountingInput, statement: Statement)
    requires
        backtest_accounting::outcome(input) == Ok::<Statement, Fault>(statement),
    ensures
        statement.realized == earned(statement.fills),
        forall|i: int|
            0 <= i < statement.positions.len() ==> (#[trigger] statement.positions[i]).lots
                == open_after(
                statement.fills,
                statement.positions[i].symbol,
                sold(statement.fills, statement.positions[i].symbol),
            ),
        forall|symbol: Seq<char>|
            sold(statement.fills, symbol) <= #[trigger] bought(statement.fills, symbol),
{
    let book = backtest_accounting::closing(input)->Ok_0;
    closed_account_in_turn(input, book);
    backtest_accounting::closed_account_explained(input, book);
    backtest_accounting::holdings_match(
        book,
        text_map::in_order(book.lots.dom()),
        input.marks_micros@,
    );
    assert forall|i: int| 0 <= i < statement.positions.len() implies (
    #[trigger] statement.positions[i]).lots == open_after(
        statement.fills,
        statement.positions[i].symbol,
        sold(statement.fills, statement.positions[i].symbol),
    ) by {
        let symbol = statement.positions[i].symbol;
        assert(sold(book.fills, symbol) <= bought(book.fills, symbol));
    }
    assert forall|symbol: Seq<char>|
        sold(statement.fills, symbol) <= #[trigger] bought(statement.fills, symbol) by {
        assert(sold(book.fills, symbol) <= bought(book.fills, symbol));
    }
}

/// The purchases that lots stand for.
pub open spec fn purchases(lots: Seq<Lot>) -> Seq<Fill> {
    lots.map_values(
        |lot: Lot|
            Fill {
                id: lot.id,
                symbol: lot.symbol,
                side: FillSide::Buy,
                quantity: lot.quantity,
                price: lot.unit_cost,
                fee: 0,
            },
    )
}

proof fn purchases_are_open(lots: Seq<Lot>, symbol: Seq<char>)
    requires
        forall|i: int|
            0 <= i < lots.len() ==> (#[trigger] lots[i]).quantity > 0 && lots[i].unit_cost >= 0
                && lots[i].symbol == symbol,
    ensures
        ordinary(purchases(lots)),
        open_after(purchases(lots), symbol, 0) == lots,
    decreases lots.len(),
{
    let fills = purchases(lots);
    assert forall|i: int| 0 <= i < fills.len() implies (#[trigger] fills[i]).quantity > 0
        && fills[i].price >= 0 by {
        assert(lots[i].quantity > 0);
    }
    if lots.len() > 0 {
        assert(fills.drop_last() =~= purchases(lots.drop_last()));
        purchases_are_open(lots.drop_last(), symbol);
        nothing_negative_is_bought(fills.drop_last(), symbol);
        assert(fills.last().quantity == lots[lots.len() - 1].quantity);
        assert(fills.last().symbol == lots[lots.len() - 1].symbol);
        assert(open_after(fills, symbol, 0) =~= lots);
    } else {
        assert(open_after(fills, symbol, 0) =~= lots);
    }
}

/// A sale takes from the front: of the lots before it, so many of the first are gone, the
/// one after them may be reduced, and the others are as they were. It earns the worth of
/// the first units at its price less what those units cost, lot by lot.
pub proof fn sale_takes_the_oldest_lots(
    lots: Seq<Lot>,
    quantity: int,
    price: int,
    realized: int,
    symbol: Seq<char>,
) -> (gone: int)
    requires
        quantity >= 0,
        forall|i: int|
            0 <= i < lots.len() ==> (#[trigger] lots[i]).quantity > 0 && lots[i].unit_cost >= 0
                && lots[i].symbol == symbol,
    ensures
        backtest_accounting::sell_oldest(lots, quantity, price, realized, symbol) matches Ok(
            (left, total),
        ) ==> {
            &&& 0 <= gone <= lots.len()
            &&& left.len() == lots.len() - gone
            &&& forall|i: int| 0 < i < left.len() ==> #[trigger] left[i] == lots[gone + i]
            &&& left.len() > 0 ==> {
                &&& left[0].id == lots[gone].id
                &&& left[0].symbol == lots[gone].symbol
                &&& left[0].unit_cost == lots[gone].unit_cost
                &&& 0 < left[0].quantity <= lots[gone].quantity
            }
            &&& total == realized + gain(purchases(lots), symbol, 0, quantity, price)
        },
    decreases lots.len(),
{
    purchases_are_open(lots, symbol);
    sale_follows_the_numbers(purchases(lots), symbol, 0, quantity, price, realized);
    if quantity > 0 && lots.len() > 0 && lots[0].quantity <= quantity {
        let rest = lots.drop_first();
        assert forall|i: int| 0 <= i < rest.len() implies (#[trigger] rest[i]).quantity > 0
            && rest[i].unit_cost >= 0 && rest[i].symbol == symbol by {
            assert(rest[i] == lots[i + 1]);
        }
        let more = backtest_accounting::worth(lots[0].quantity, price) - backtest_accounting::worth(
            lots[0].quantity,
            lots[0].unit_cost,
        );
        1 + sale_takes_the_oldest_lots(
            rest,
            quantity - lots[0].quantity,
            price,
            realized + more,
            symbol,
        )
    } else {
        0
    }
}

} // verus!

//! What a finished account says of what was booked: which postings the ledger holds, how
//! positions are valued, and which fills are refused.

use vstd::prelude::*;

use crate::backtest_accounting;
use crate::backtest_accounting::{
    AccountingInput, Book, Cash, CashEntryKind, EndOfDataPolicy, Fault, Fill, FillSide, Holding,
    LedgerEntryKind, Lot, Posting, Statement,
};
use crate::text;
use crate::text_map;

verus! {

/// Whether two postings are those of a fill: what it came to at its price, paid or
/// received, and its fee.
pub open spec fn posts_fill(notional: Posting, fee: Posting, fill: Fill) -> bool {
    &&& notional.id == fill.id + ":notional"@
    &&& notional.kind == LedgerEntryKind::FillNotional
    &&& fill.side == FillSide::Buy ==> notional.delta == -(fill.quantity * fill.price / 1_000_000)
    &&& fill.side == FillSide::Sell ==> notional.delta == fill.quantity * fill.price / 1_000_000
    &&& fee.id == fill.id + ":fee"@
    &&& fee.kind == LedgerEntryKind::FillFee
    &&& fee.delta == -fill.fee
}

/// Whether a posting is that of a cash entry.
pub open spec fn posts_entry(posting: Posting, entry: Cash) -> bool {
    &&& posting.id == entry.id
    &&& entry.kind == CashEntryKind::Income ==> posting.kind == LedgerEntryKind::Income
        && posting.delta == entry.amount
    &&& entry.kind == CashEntryKind::Cost ==> posting.kind == LedgerEntryKind::Cost
        && posting.delta == -entry.amount
}

/// Whether a ledger goes on from `start` with the postings of some fills.
spec fn posts_fills(ledger: Seq<Posting>, start: int, fills: Seq<Fill>) -> bool {
    &&& ledger.len() == start + 2 * fills.len()
    &&& forall|i: int|
        0 <= i < fills.len() ==> posts_fill(
            ledger[start + 2 * i],
            ledger[start + 2 * i + 1],
            #[trigger] fills[i],
        )
}

proof fn fill_is_posted(book: Book, fill: Fill)
    ensures
        backtest_accounting::book_fill(book, fill) matches Ok(after) ==> {
            &&& after.ledger.len() == book.ledger.len() + 2
            &&& book.ledger.is_prefix_of(after.ledger)
            &&& posts_fill(
                after.ledger[book.ledger.len() as int],
                after.ledger[book.ledger.len() as int + 1],
                fill,
            )
            &&& after.fills == book.fills.push(fill)
        },
{
}

proof fn fills_are_posted(book: Book, fills: Seq<Fill>)
    ensures
        backtest_accounting::book_fills(book, fills) matches Ok(after) ==> {
            &&& book.ledger.is_prefix_of(after.ledger)
            &&& posts_fills(after.ledger, book.ledger.len() as int, fills)
            &&& after.fills == book.fills + fills
        },
    decreases fills.len(),
{
    if fills.len() > 0 {
        let earlier = fills.drop_last();
        fills_are_posted(book, earlier);
        if let Ok(so_far) = backtest_accounting::book_fills(book, earlier) {
            fill_is_posted(so_far, fills.last());
            if let Ok(after) = backtest_accounting::book_fill(so_far, fills.last()) {
                let start = book.ledger.len() as int;
                assert forall|i: int| 0 <= i < fills.len() implies posts_fill(
                    after.ledger[start + 2 * i],
                    after.ledger[start + 2 * i + 1],
                    #[trigger] fills[i],
                ) by {
                    if i < earlier.len() {
                        assert(earlier[i] == fills[i]);
                        assert(after.ledger[start + 2 * i] == so_far.ledger[start + 2 * i]);
                        assert(after.ledger[start + 2 * i + 1] == so_far.ledger[start + 2 * i + 1]);
                    }
                }
                assert(book.fills + fills =~= (book.fills + earlier).push(fills.last()));
                assert forall|i: int| 0 <= i < start implies after.ledger[i] == book.ledger[i] by {
                    assert(so_far.ledger[i] == book.ledger[i]);
                }
            }
        }
    } else {
        assert(book.fills + fills =~= book.fills);
    }
}

proof fn entries_are_posted(book: Book, entries: Seq<Cash>)
    ensures
        backtest_accounting::book_entries(book, entries) matches Ok(after) ==> {
            &&& after.ledger.len() == book.ledger.len() + entries.len()
            &&& book.ledger.is_prefix_of(after.ledger)
            &&& forall|j: int|
                0 <= j < entries.len() ==> posts_entry(
                    after.ledger[book.ledger.len() + j],
                    #[trigger] entries[j],
                )
            &&& after.fills == book.fills
            &&& after.lots == book.lots
            &&& after.realized == book.realized
        },
    decreases entries.len(),
{
    if entries.len() > 0 {
        let earlier = entries.drop_last();
        entries_are_posted(book, earlier);
        if let Ok(so_far) = backtest_accounting::book_entries(book, earlier) {
            if let Ok(after) = backtest_accounting::book_cash(so_far, entries.last()) {
                let start = book.ledger.len() as int;
                assert forall|j: int| 0 <= j < entries.len() implies posts_entry(
                    after.ledger[start + j],
                    #[trigger] entries[j],
                ) by {
                    if j < earlier.len() {
                        assert(earlier[j] == entries[j]);
                        assert(after.ledger[start + j] == so_far.ledger[start + j]);
                    }
                }
                assert forall|i: int| 0 <= i < start implies after.ledger[i] == book.ledger[i] by {
                    assert(so_far.ledger[i] == book.ledger[i]);
                }
            }
        }
    }
}

/// Closing out books a sale for each symbol with open lots, after what is booked already.
proof fn closes_are_posted(book: Book, symbols: Seq<Seq<char>>, marks: Map<Seq<char>, i64>) -> (sales:
    Seq<Fill>)
    ensures
        backtest_accounting::close_symbols(book, symbols, marks) matches Ok(after) ==> {
            &&& book.ledger.is_prefix_of(after.ledger)
            &&& posts_fills(after.ledger, book.ledger.len() as int, sales)
            &&& after.fills == book.fills + sales
        },
    decreases symbols.len(),
{
    let start = book.ledger.len() as int;
    if symbols.len() == 0 {
        assert(book.fills + Seq::<Fill>::empty() =~= book.fills);
        Seq::empty()
    } else {
        let before = closes_are_posted(book, symbols.drop_last(), marks);
        match backtest_accounting::close_symbols(book, symbols.drop_last(), marks) {
            Err(_) => before,
            Ok(so_far) => {
                let symbol = symbols.last();
                let quantity = backtest_accounting::shares(
                    backtest_accounting::lots_of(so_far, symbol),
                );
                match backtest_accounting::close_symbol(so_far, symbol, marks) {
                    Err(_) => before,
                    Ok(after) => if quantity == 0 {
                        before
                    } else {
                        let sale = Fill {
                            id: "force_close:"@ + symbol,
                            symbol,
                            side: FillSide::Sell,
                            quantity,
                            price: backtest_accounting::mark_of(marks, symbol)->Ok_0,
                            fee: 0,
                        };
                        fill_is_posted(so_far, sale);
                        let sales = before.push(sale);
                        assert(book.fills + sales =~= (book.fills + before).push(sale));
                        assert forall|i: int| 0 <= i < sales.len() implies posts_fill(
                            after.ledger[start + 2 * i],
                            after.ledger[start + 2 * i + 1],
                            #[trigger] sales[i],
                        ) by {
                            if i < before.len() {
                                assert(before[i] == sales[i]);
                                assert(after.ledger[start + 2 * i] == so_far.ledger[start + 2 * i]);
                                assert(after.ledger[start + 2 * i + 1] == so_far.ledger[start + 2 * i
                                    + 1]);
                            }
                        }
                        assert forall|i: int| 0 <= i < start implies after.ledger[i]
                            == book.ledger[i] by {
                            assert(so_far.ledger[i] == book.ledger[i]);
                        }
                        sales
                    },
                }
            },
        }
    }
}

/// The ledger of a statement holds the postings of every fill, then those of every cash
/// entry, then those of the sales that closed out, and nothing else: for each fill what it
/// came to at its price and its fee, for each cash entry its amount.
pub proof fn ledger_lists_what_was_booked(input: AccountingInput, statement: Statement)
    requires
        backtest_accounting::outcome(input) == Ok::<Statement, Fault>(statement),
    ensures
        ({
            let fills = statement.fills;
            let given = input.fills@.len() as int;
            let entries = input.cash_entries@;
            let ledger = statement.ledger;
            &&& given <= fills.len()
            &&& ledger.len() == 2 * fills.len() + entries.len()
            &&& forall|i: int| 0 <= i < given ==> #[trigger] fills[i] == input.fills@[i]@
            &&& forall|i: int|
                0 <= i < given ==> posts_fill(ledger[2 * i], ledger[2 * i + 1], #[trigger] fills[i])
            &&& forall|j: int|
                0 <= j < entries.len() ==> posts_entry(
                    ledger[2 * given + j],
                    (#[trigger] entries[j])@,
                )
            &&& forall|i: int|
                given <= i < fills.len() ==> posts_fill(
                    ledger[2 * i + entries.len()],
                    ledger[2 * i + 1 + entries.len()],
                    #[trigger] fills[i],
                )
        }),
{
    let first = backtest_accounting::opening(input.starting_cash_micros as int);
    let given = backtest_accounting::fills_view(input.fills@);
    let entries = backtest_accounting::entries_view(input.cash_entries@);
    fills_are_posted(first, given);
    assert(first.fills + given =~= given);
    let filled = backtest_accounting::book_fills(first, given)->Ok_0;
    entries_are_posted(filled, entries);
    let entered = backtest_accounting::book_entries(filled, entries)->Ok_0;
    let sales = if input.end_of_data == EndOfDataPolicy::ForceClose {
        closes_are_posted(
            entered,
            text_map::in_order(entered.lots.dom()),
            input.marks_micros@,
        )
    } else {
        assert(entered.fills + Seq::<Fill>::empty() =~= entered.fills);
        Seq::empty()
    };
    let fills = statement.fills;
    let ledger = statement.ledger;
    assert(fills =~= given + sales);
    assert forall|i: int| 0 <= i < given.len() implies posts_fill(
        ledger[2 * i],
        ledger[2 * i + 1],
        #[trigger] fills[i],
    ) by {
        assert(given[i] == fills[i]);
        assert(entered.ledger[2 * i] == filled.ledger[2 * i]);
        assert(entered.ledger[2 * i + 1] == filled.ledger[2 * i + 1]);
        assert(ledger[2 * i] == entered.ledger[2 * i]);
        assert(ledger[2 * i + 1] == entered.ledger[2 * i + 1]);
    }
    assert forall|j: int| 0 <= j < input.cash_entries@.len() implies posts_entry(
        ledger[2 * given.len() + j],
        (#[trigger] input.cash_entries@[j])@,
    ) by {
        assert(entries[j] == input.cash_entries@[j]@);
        assert(ledger[2 * given.len() + j] == entered.ledger[2 * given.len() + j]);
    }
    assert forall|i: int| given.len() <= i < fills.len() implies posts_fill(
        ledger[2 * i + entries.len()],
        ledger[2 * i + 1 + entries.len()],
        #[trigger] fills[i],
    ) by {
        assert(sales[i - given.len()] == fills[i]);
    }
}

/// What lots cost: for each the worth of its units at what one of them cost.
pub open spec fn cost_of(lots: Seq<Lot>) -> int
    decreases lots.len(),
{
    if lots.len() == 0 {
        0
    } else {
        cost_of(lots.drop_last()) + lots.last().quantity * lots.last().unit_cost / 1_000_000
    }
}

/// What positions are worth together.
pub open spec fn value_of(positions: Seq<Holding>) -> int
    decreases positions.len(),
{
    if positions.len() == 0 {
        0
    } else {
        value_of(positions.drop_last()) + positions.last().market_value
    }
}

/// What positions have gained together that is not realized.
pub open spec fn gained_by(positions: Seq<Holding>) -> int
    decreases positions.len(),
{
    if positions.len() == 0 {
        0
    } else {
        gained_by(positions.drop_last()) + positions.last().unrealized
    }
}

proof fn cost_is_the_basis(lots: Seq<Lot>)
    ensures
        cost_of(lots) == backtest_accounting::basis(lots),
    decreases lots.len(),
{
    if lots.len() > 0 {
        cost_is_the_basis(lots.drop_last());
    }
}

/// Whether a position is valued at a mark: its value is what it holds at that price, its
/// unrealized profit the value less what its lots cost, its average cost what one unit
/// cost, rounded down.
pub open spec fn is_valued(position: Holding, mark: int) -> bool {
    &&& position.market_price == mark
    &&& position.market_value == position.quantity * mark / 1_000_000
    &&& position.unrealized == position.market_value - cost_of(position.lots)
    &&& position.average_cost * position.quantity <= cost_of(position.lots) * 1_000_000
    &&& cost_of(position.lots) * 1_000_000 < (position.average_cost + 1) * position.quantity
}

proof fn holdings_are_valued(book: Book, symbols: Seq<Seq<char>>, marks: Map<Seq<char>, i64>)
    requires
        backtest_accounting::sound(book),
        text::ascending(symbols),
    ensures
        backtest_accounting::hold_all(book, symbols, marks) matches Ok(
            (positions, value, unrealized),
        ) ==> {
            &&& value == value_of(positions)
            &&& unrealized == gained_by(positions)
            &&& forall|i: int|
                0 <= i < positions.len() ==> marks.dom().contains((#[trigger] positions[i]).symbol)
                    && is_valued(positions[i], marks[positions[i].symbol] as int)
                    && symbols.contains(positions[i].symbol)
            &&& forall|i: int, j: int|
                0 <= i < j < positions.len() ==> text::before(
                    (#[trigger] positions[i]).symbol,
                    (#[trigger] positions[j]).symbol,
                )
        },
    decreases symbols.len(),
{
    if symbols.len() > 0 {
        let earlier = symbols.drop_last();
        let last = symbols.last();
        assert(symbols[symbols.len() - 1] == last);
        assert(text::ascending(earlier)) by {
            assert forall|i: int, j: int| 0 <= i < j < earlier.len() implies text::before(
                #[trigger] earlier[i],
                #[trigger] earlier[j],
            ) by {
                assert(text::before(symbols[i], symbols[j]));
            }
        }
        holdings_are_valued(book, earlier, marks);
        if let Ok((positions, value, unrealized)) = backtest_accounting::hold_all(
            book,
            symbols,
            marks,
        ) {
            let (before, _, _) = backtest_accounting::hold_all(book, earlier, marks)->Ok_0;
            let lots = backtest_accounting::lots_of(book, last);
            if lots.len() > 0 {
                let added = backtest_accounting::hold(last, lots, marks)->Ok_0;
                assert(positions == before.push(added));
                assert(positions.drop_last() =~= before);
                assert(book.lots.dom().contains(last));
                backtest_accounting::shares_grow(lots, 0);
                cost_is_the_basis(lots);
                let cost = cost_of(lots) * 1_000_000;
                let average = cost / added.quantity;
                assert(added.quantity > 0);
                assert(average * added.quantity <= cost < (average + 1) * added.quantity)
                    by (nonlinear_arith)
                    requires
                        added.quantity > 0,
                        average == cost / added.quantity,
                ;
            } else {
                assert(positions == before);
            }
            assert forall|i: int| 0 <= i < positions.len() implies marks.dom().contains(
                (#[trigger] positions[i]).symbol,
            ) && is_valued(positions[i], marks[positions[i].symbol] as int) && symbols.contains(
                positions[i].symbol,
            ) by {
                if i < before.len() {
                    assert(positions[i] == before[i]);
                    let k = choose|k: int| 0 <= k < earlier.len() && earlier[k] == before[i].symbol;
                    assert(symbols[k] == before[i].symbol);
                }
            }
            assert forall|i: int, j: int| 0 <= i < j < positions.len() implies text::before(
                (#[trigger] positions[i]).symbol,
                (#[trigger] positions[j]).symbol,
            ) by {
                assert(positions[i] == before[i]);
                if j < before.len() {
                    assert(positions[j] == before[j]);
                } else {
                    let k = choose|k: int| 0 <= k < earlier.len() && earlier[k] == before[i].symbol;
                    assert(symbols[k] == before[i].symbol);
                    assert(text::before(symbols[k], symbols[symbols.len() - 1]));
                }
            }
        }
    }
}

/// The positions of a statement stand in the order of their symbols, each valued at the
/// mark of its symbol, and the value and the unrealized profit of the statement are what
/// the positions come to.
pub proof fn positions_are_valued_at_their_marks(input: AccountingInput, statement: Statement)
    requires
        backtest_accounting::outcome(input) == Ok::<Statement, Fault>(statement),
    ensures
        statement.market_value == value_of(statement.positions),
        statement.unrealized == gained_by(statement.positions),
        forall|i: int|
            0 <= i < statement.positions.len() ==> input.marks_micros@.dom().contains(
                (#[trigger] statement.positions[i]).symbol,
            ) && is_valued(
                statement.positions[i],
                input.marks_micros@[statement.positions[i].symbol] as int,
            ),
        forall|i: int, j: int|
            0 <= i < j < statement.positions.len() ==> text::before(
                (#[trigger] statement.positions[i]).symbol,
                (#[trigger] statement.positions[j]).symbol,
            ),
{
    let book = backtest_accounting::closing(input)->Ok_0;
    backtest_accounting::closed_account_explained(input, book);
    text_map::in_order_lists_members(book.lots.dom());
    holdings_are_valued(book, text_map::in_order(book.lots.dom()), input.marks_micros@);
}

proof fn cost_from_front(lots: Seq<Lot>)
    requires
        lots.len() > 0,
    ensures
        cost_of(lots) == lots[0].quantity * lots[0].unit_cost / 1_000_000 + cost_of(
            lots.drop_first(),
        ),
    decreases lots.len(),
{
    if lots.len() > 1 {
        cost_from_front(lots.drop_last());
        assert(lots.drop_first().drop_last() =~= lots.drop_last().drop_first());
        assert(lots.drop_first().last() == lots.last());
    } else {
        assert(lots.drop_last() =~= Seq::<Lot>::empty());
        assert(lots.drop_first() =~= Seq::<Lot>::empty());
        assert(cost_of(lots.drop_last()) == 0);
    }
}

proof fn cost_is_not_negative(lots: Seq<Lot>)
    requires
        backtest_accounting::good_lots(lots),
    ensures
        cost_of(lots) >= 0,
{
    cost_is_the_basis(lots);
    backtest_accounting::basis_grows(lots, 0);
}

/// A sale of which no amount is out of reach is not refused for an amount.
proof fn sale_stays_in_reach(
    lots: Seq<Lot>,
    quantity: int,
    price: int,
    realized: int,
    symbol: Seq<char>,
)
    requires
        backtest_accounting::good_lots(lots),
        quantity >= 0,
        price >= 0,
        -(i64::MAX - quantity * price / 1_000_000 - cost_of(lots)) <= realized,
        realized <= i64::MAX - quantity * price / 1_000_000 - cost_of(lots),
    ensures
        backtest_accounting::sell_oldest(lots, quantity, price, realized, symbol) matches Err(fault)
            ==> fault is Short,
    decreases lots.len(),
{
    if quantity > 0 && lots.len() > 0 {
        let lot = lots[0];
        let rest = lots.drop_first();
        let closed = if quantity < lot.quantity {
            quantity
        } else {
            lot.quantity
        };
        cost_from_front(lots);
        assert forall|i: int| 0 <= i < rest.len() implies (#[trigger] rest[i]).quantity > 0
            && rest[i].unit_cost >= 0 by {
            assert(lots[i + 1].quantity > 0);
        }
        cost_is_not_negative(rest);
        let cost = lot.unit_cost;
        let left = quantity - closed;
        let whole = lot.quantity;
        assert(0 <= closed * price / 1_000_000 && 0 <= left * price / 1_000_000 && closed * price
            / 1_000_000 + left * price / 1_000_000 <= quantity * price / 1_000_000)
            by (nonlinear_arith)
            requires
                closed >= 0,
                left >= 0,
                price >= 0,
                quantity == closed + left,
        ;
        assert(0 <= closed * cost / 1_000_000 <= whole * cost / 1_000_000) by (nonlinear_arith)
            requires
                0 <= closed <= whole,
                cost >= 0,
        ;
        let more = closed * price / 1_000_000 - closed * cost / 1_000_000;
        if closed == whole {
            sale_stays_in_reach(rest, left, price, realized + more, symbol);
        }
    }
}

/// What becomes of a fill. One that names itself and its symbol, of a positive quantity at
/// a price and with a fee that are not negative, is booked where the cash covers it and,
/// for a sale, the open lots hold as much: the cash moves by what it comes to and by its
/// fee, the fee is among the costs, and a purchase realizes nothing. It is refused as
/// margin where the cash does not cover it, as short where the lots hold less, as overflow
/// only where the amounts together are out of reach.
pub proof fn fill_is_booked_or_refused(book: Book, fill: Fill)
    requires
        backtest_accounting::sound(book),
        book.costs >= 0,
    ensures
        ({
            let gross = fill.quantity * fill.price / 1_000_000;
            let cash = if fill.side == FillSide::Buy {
                book.cash - gross
            } else {
                book.cash + gross
            };
            let lots = backtest_accounting::lots_of(book, fill.symbol);
            let valid = fill.id.len() > 0 && fill.symbol.len() > 0 && fill.quantity > 0 && fill.price
                >= 0 && fill.fee >= 0;
            match backtest_accounting::book_fill(book, fill) {
                Ok(after) => {
                    &&& valid
                    &&& cash >= fill.fee
                    &&& after.cash == cash - fill.fee
                    &&& after.costs == book.costs + fill.fee
                    &&& after.income == book.income
                    &&& after.fills == book.fills.push(fill)
                    &&& fill.side == FillSide::Buy ==> after.realized == book.realized
                    &&& fill.side == FillSide::Sell ==> backtest_accounting::shares(lots)
                        >= fill.quantity
                    &&& forall|other: Seq<char>|
                        other != fill.symbol ==> #[trigger] backtest_accounting::lots_of(after, other)
                            == backtest_accounting::lots_of(book, other)
                },
                Err(Fault::Invalid(_)) => !valid,
                Err(Fault::Margin) => valid && cash < fill.fee,
                Err(Fault::Short(symbol)) => valid && cash >= fill.fee && symbol == fill.symbol
                    && fill.side == FillSide::Sell && backtest_accounting::shares(lots)
                    < fill.quantity,
                Err(Fault::Overflow) => valid && (book.cash + gross > i64::MAX || book.costs + fill.fee
                    > i64::MAX || book.realized > i64::MAX - gross - cost_of(lots) || -book.realized
                    > i64::MAX - gross - cost_of(lots)),
                Err(_) => false,
            }
        }),
{
    let gross = fill.quantity * fill.price / 1_000_000;
    let lots = backtest_accounting::lots_of(book, fill.symbol);
    assert(backtest_accounting::good_lots(lots));
    if fill.quantity > 0 && fill.price >= 0 {
        assert(gross >= 0) by (nonlinear_arith)
            requires
                gross == fill.quantity * fill.price / 1_000_000,
                fill.quantity > 0,
                fill.price >= 0,
        ;
        backtest_accounting::selling_takes_what_is_sold(
            lots,
            fill.quantity,
            fill.price,
            book.realized,
            fill.symbol,
        );
        backtest_accounting::selling_keeps_lots_good(
            lots,
            fill.quantity,
            fill.price,
            book.realized,
            fill.symbol,
        );
        if let Ok((left, _)) = backtest_accounting::sell_oldest(
            lots,
            fill.quantity,
            fill.price,
            book.realized,
            fill.symbol,
        ) {
            backtest_accounting::shares_grow(left, 0);
        }
        cost_is_not_negative(lots);
        if -(i64::MAX - gross - cost_of(lots)) <= book.realized <= i64::MAX - gross - cost_of(lots) {
            sale_stays_in_reach(lots, fill.quantity, fill.price, book.realized, fill.symbol);
        }
    }
}

} // verus!

//! Deterministic cash-account accounting derived solely from fills and marks.

use vstd::prelude::*;

use crate::text;
use crate::text::join2;
use crate::text_map;
use crate::text_map::TextMap;

pub mod books;
pub mod fifo;

verus! {

pub type MoneyMicros = i64;

pub type PriceMicros = i64;

pub type Quantity = i64;

/// Quantities are counted in millionths.
pub const QUANTITY_SCALE: i64 = 1_000_000;

#[derive(Clone, Copy, Debug, PartialEq, Eq, Structural)]
pub enum FillSide {
    Buy,
    Sell,
}

/// One execution: so much of a symbol bought or sold at a price, with its fee.
#[derive(Debug)]
pub struct AccountingFill {
    pub fill_id: String,
    pub symbol: String,
    pub side: FillSide,
    pub quantity: Quantity,
    pub price_micros: PriceMicros,
    pub fee_micros: MoneyMicros,
}

/// The side of an order of the strategy kernel.
#[derive(Clone, Copy, Debug, PartialEq, Eq, Structural)]
pub enum OrderSide {
    Buy,
    Sell,
}

/// What the accounts read of a fill of the strategy kernel.
#[derive(Debug)]
pub struct KernelFill {
    pub decision_bar_index: u64,
    pub execution_bar_index: u64,
    pub symbol: String,
    pub side: OrderSide,
    pub quantity: Quantity,
    pub price_micros: PriceMicros,
    pub fee_micros: MoneyMicros,
}

#[derive(Clone, Copy, Debug, PartialEq, Eq, Structural)]
pub enum CashEntryKind {
    Income,
    Cost,
}

/// Money that came in or went out apart from fills.
#[derive(Debug)]
pub struct CashEntry {
    pub entry_id: String,
    pub kind: CashEntryKind,
    pub amount_micros: MoneyMicros,
}

/// What happens to open positions when the data ends.
#[derive(Clone, Copy, Debug, PartialEq, Eq, Structural)]
pub enum EndOfDataPolicy {
    MarkToMarket,
    ForceClose,
}

#[derive(Debug)]
pub struct AccountingInput {
    pub starting_cash_micros: MoneyMicros,
    pub fills: Vec<AccountingFill>,
    pub cash_entries: Vec<CashEntry>,
    pub marks_micros: TextMap<PriceMicros>,
    pub end_of_data: EndOfDataPolicy,
    pub reconciliation_tolerance_micros: MoneyMicros,
}

#[derive(Clone, Copy, Debug, PartialEq, Eq, Structural)]
pub enum LedgerEntryKind {
    FillNotional,
    FillFee,
    Income,
    Cost,
}

#[derive(Debug)]
pub struct LedgerEntry {
    pub sequence: u64,
    pub entry_id: String,
    pub kind: LedgerEntryKind,
    pub cash_delta_micros: MoneyMicros,
}

#[derive(Debug)]
pub struct PositionLot {
    pub lot_id: String,
    pub symbol: String,
    pub quantity: Quantity,
    pub unit_cost_micros: PriceMicros,
}

#[derive(Debug)]
pub struct Position {
    pub symbol: String,
    pub quantity: Quantity,
    pub average_cost_micros: PriceMicros,
    pub market_price_micros: PriceMicros,
    pub market_value_micros: MoneyMicros,
    pub unrealized_pnl_micros: MoneyMicros,
    pub lots: Vec<PositionLot>,
}

#[derive(Debug)]
pub struct AccountingResult {
    pub fills: Vec<AccountingFill>,
    pub ledger: Vec<LedgerEntry>,
    /// The open positions in ascending order of their symbols.
    pub positions: Vec<Position>,
    pub ending_cash_micros: MoneyMicros,
    pub market_value_micros: MoneyMicros,
    pub ending_equity_micros: MoneyMicros,
    pub realized_pnl_micros: MoneyMicros,
    pub unrealized_pnl_micros: MoneyMicros,
    pub income_micros: MoneyMicros,
    pub costs_micros: MoneyMicros,
    pub reconciliation_residual_micros: MoneyMicros,
}

#[derive(Debug)]
pub enum AccountingError {
    ArithmeticOverflow,
    InvalidInput(&'static str),
    MissingMark { symbol: String },
    UnsupportedMargin,
    UnsupportedShort { symbol: String },
    ReconciliationFailed { residual_micros: MoneyMicros },
}

/// A fill as the accounts see it.
#[verifier::ext_equal]
pub struct Fill {
    pub id: Seq<char>,
    pub symbol: Seq<char>,
    pub side: FillSide,
    pub quantity: int,
    pub price: int,
    pub fee: int,
}

/// A cash entry as the accounts see it.
#[verifier::ext_equal]
pub struct Cash {
    pub id: Seq<char>,
    pub kind: CashEntryKind,
    pub amount: int,
}

/// A ledger entry as the accounts see it.
#[verifier::ext_equal]
pub struct Posting {
    pub sequence: int,
    pub id: Seq<char>,
    pub kind: LedgerEntryKind,
    pub delta: int,
}

/// An open lot as the accounts see it.
#[verifier::ext_equal]
pub struct Lot {
    pub id: Seq<char>,
    pub symbol: Seq<char>,
    pub quantity: int,
    pub unit_cost: int,
}

/// A position as the accounts see it.
#[verifier::ext_equal]
pub struct Holding {
    pub symbol: Seq<char>,
    pub quantity: int,
    pub average_cost: int,
    pub market_price: int,
    pub market_value: int,
    pub unrealized: int,
    pub lots: Seq<Lot>,
}

/// Why an account cannot be drawn up.
pub enum Fault {
    Overflow,
    Invalid(Seq<char>),
    MissingMark(Seq<char>),
    Margin,
    Short(Seq<char>),
    Unreconciled(int),
}

/// The running account.
#[verifier::ext_equal]
pub struct Book {
    pub cash: int,
    pub lots: Map<Seq<char>, Seq<Lot>>,
    pub fills: Seq<Fill>,
    pub ledger: Seq<Posting>,
    pub realized: int,
    pub income: int,
    pub costs: int,
}

/// The finished account.
#[verifier::ext_equal]
pub struct Statement {
    pub fills: Seq<Fill>,
    pub ledger: Seq<Posting>,
    pub positions: Seq<Holding>,
    pub cash: int,
    pub market_value: int,
    pub equity: int,
    pub realized: int,
    pub unrealized: int,
    pub income: int,
    pub costs: int,
    pub residual: int,
}

impl View for AccountingFill {
    type V = Fill;

    open spec fn view(&self) -> Fill {
        Fill {
            id: self.fill_id@,
            symbol: self.symbol@,
            side: self.side,
            quantity: self.quantity as int,
            price: self.price_micros as int,
            fee: self.fee_micros as int,
        }
    }
}

impl View for CashEntry {
    type V = Cash;

    open spec fn view(&self) -> Cash {
        Cash { id: self.entry_id@, kind: self.kind, amount: self.amount_micros as int }
    }
}

impl View for LedgerEntry {
    type V = Posting;

    open spec fn view(&self) -> Posting {
        Posting {
            sequence: self.sequence as int,
            id: self.entry_id@,
            kind: self.kind,
            delta: self.cash_delta_micros as int,
        }
    }
}

impl View for PositionLot {
    type V = Lot;

    open spec fn view(&self) -> Lot {
        Lot {
            id: self.lot_id@,
            symbol: self.symbol@,
            quantity: self.quantity as int,
            unit_cost: self.unit_cost_micros as int,
        }
    }
}

impl View for Position {
    type V = Holding;

    open spec fn view(&self) -> Holding {
        Holding {
            symbol: self.symbol@,
            quantity: self.quantity as int,
            average_cost: self.average_cost_micros as int,
            market_price: self.market_price_micros as int,
            market_value: self.market_value_micros as int,
            unrealized: self.unrealized_pnl_micros as int,
            lots: lots_view(self.lots@),
        }
    }
}

impl View for AccountingError {
    type V = Fault;

    open spec fn view(&self) -> Fault {
        match self {
            AccountingError::ArithmeticOverflow => Fault::Overflow,
            AccountingError::InvalidInput(why) => Fault::Invalid(why@),
            AccountingError::MissingMark { symbol } => Fault::MissingMark(symbol@),
            AccountingError::UnsupportedMargin => Fault::Margin,
            AccountingError::UnsupportedShort { symbol } => Fault::Short(symbol@),
            AccountingError::ReconciliationFailed { residual_micros } => Fault::Unreconciled(
                *residual_micros as int,
            ),
        }
    }
}

impl View for AccountingResult {
    type V = Statement;

    open spec fn view(&self) -> Statement {
        Statement {
            fills: fills_view(self.fills@),
            ledger: ledger_view(self.ledger@),
            positions: self.positions@.map_values(|p: Position| p@),
            cash: self.ending_cash_micros as int,
            market_value: self.market_value_micros as int,
            equity: self.ending_equity_micros as int,
            realized: self.realized_pnl_micros as int,
            unrealized: self.unrealized_pnl_micros as int,
            income: self.income_micros as int,
            costs: self.costs_micros as int,
            residual: self.reconciliation_residual_micros as int,
        }
    }
}

/// The fills of a list as the accounts see them.
pub open spec fn fills_view(list: Seq<AccountingFill>) -> Seq<Fill> {
    list.map_values(|f: AccountingFill| f@)
}

/// The cash entries of a list as the accounts see them.
pub open spec fn entries_view(list: Seq<CashEntry>) -> Seq<Cash> {
    list.map_values(|e: CashEntry| e@)
}

/// The ledger as the accounts see it.
pub open spec fn ledger_view(list: Seq<LedgerEntry>) -> Seq<Posting> {
    list.map_values(|e: LedgerEntry| e@)
}

/// The lots of a list as the accounts see them.
pub open spec fn lots_view(list: Seq<PositionLot>) -> Seq<Lot> {
    list.map_values(|l: PositionLot| l@)
}

/// Whether `n` fits in the integers that hold money.
pub open spec fn fits(n: int) -> bool {
    i64::MIN <= n <= i64::MAX
}

/// What a quantity costs at a price, rounded down.
pub open spec fn worth(quantity: int, price: int) -> int {
    quantity * price / (QUANTITY_SCALE as int)
}

/// Enters an amount in the ledger and in the cash.
pub open spec fn post(book: Book, id: Seq<char>, kind: LedgerEntryKind, delta: int) -> Result<
    Book,
    Fault,
> {
    if !fits(book.cash + delta) {
        Err(Fault::Overflow)
    } else if book.cash + delta < 0 {
        Err(Fault::Margin)
    } else {
        Ok(
            Book {
                cash: book.cash + delta,
                ledger: book.ledger.push(
                    Posting { sequence: book.ledger.len() as int, id, kind, delta },
                ),
                ..book
            },
        )
    }
}

/// Whether a fill can be booked at all.
pub open spec fn fill_is_valid(fill: Fill) -> bool {
    fill.id.len() > 0 && fill.symbol.len() > 0 && fill.quantity > 0 && fill.price >= 0 && fill.fee >= 0
}

/// The smaller of two numbers.
pub open spec fn least(a: int, b: int) -> int {
    if a < b {
        a
    } else {
        b
    }
}

/// Sells `quantity` out of the oldest lots first: the lots that are left and the
/// profit realized so far.
pub open spec fn sell_oldest(
    lots: Seq<Lot>,
    quantity: int,
    price: int,
    realized: int,
    symbol: Seq<char>,
) -> Result<(Seq<Lot>, int), Fault>
    decreases lots.len(),
{
    if quantity <= 0 {
        Ok((lots, realized))
    } else if lots.len() == 0 {
        Err(Fault::Short(symbol))
    } else {
        let lot = lots[0];
        let closed = least(quantity, lot.quantity);
        let gain = worth(closed, price) - worth(closed, lot.unit_cost);
        if !fits(worth(closed, price)) || !fits(worth(closed, lot.unit_cost)) || !fits(gain) || !fits(
            realized + gain,
        ) {
            Err(Fault::Overflow)
        } else if closed < lot.quantity {
            Ok(
                (
                    lots.update(0, Lot { quantity: lot.quantity - closed, ..lot }),
                    realized + gain,
                ),
            )
        } else {
            sell_oldest(lots.drop_first(), quantity - closed, price, realized + gain, symbol)
        }
    }
}

/// The lots of a symbol.
pub open spec fn lots_of(book: Book, symbol: Seq<char>) -> Seq<Lot> {
    if book.lots.dom().contains(symbol) {
        book.lots[symbol]
    } else {
        Seq::empty()
    }
}

/// Books the shares of a fill whose money has been booked.
pub open spec fn move_shares(book: Book, fill: Fill) -> Result<Book, Fault> {
    match fill.side {
        FillSide::Buy => Ok(
            Book {
                lots: book.lots.insert(
                    fill.symbol,
                    lots_of(book, fill.symbol).push(
                        Lot {
                            id: fill.id,
                            symbol: fill.symbol,
                            quantity: fill.quantity,
                            unit_cost: fill.price,
                        },
                    ),
                ),
                fills: book.fills.push(fill),
                ..book
            },
        ),
        FillSide::Sell => match sell_oldest(
            lots_of(book, fill.symbol),
            fill.quantity,
            fill.price,
            book.realized,
            fill.symbol,
        ) {
            Err(fault) => Err(fault),
            Ok((left, realized)) => Ok(
                Book {
                    lots: book.lots.insert(fill.symbol, left),
                    realized,
                    fills: book.fills.push(fill),
                    ..book
                },
            ),
        },
    }
}

/// Books a fill: its notional, its fee and its shares.
pub open spec fn book_fill(book: Book, fill: Fill) -> Result<Book, Fault> {
    let gross = worth(fill.quantity, fill.price);
    if !fill_is_valid(fill) {
        Err(Fault::Invalid("fill is invalid"@))
    } else if !fits(gross) {
        Err(Fault::Overflow)
    } else {
        let delta = if fill.side == FillSide::Buy {
            -gross
        } else {
            gross
        };
        match post(book, fill.id + ":notional"@, LedgerEntryKind::FillNotional, delta) {
            Err(fault) => Err(fault),
            Ok(paid) => match post(paid, fill.id + ":fee"@, LedgerEntryKind::FillFee, -fill.fee) {
                Err(fault) => Err(fault),
                Ok(charged) => if !fits(charged.costs + fill.fee) {
                    Err(Fault::Overflow)
                } else {
                    move_shares(Book { costs: charged.costs + fill.fee, ..charged }, fill)
                },
            },
        }
    }
}

/// Books a cash entry.
pub open spec fn book_cash(book: Book, entry: Cash) -> Result<Book, Fault> {
    if entry.id.len() == 0 || entry.amount < 0 {
        Err(Fault::Invalid("cash entry is invalid"@))
    } else {
        match entry.kind {
            CashEntryKind::Income => if !fits(book.income + entry.amount) {
                Err(Fault::Overflow)
            } else {
                post(
                    Book { income: book.income + entry.amount, ..book },
                    entry.id,
                    LedgerEntryKind::Income,
                    entry.amount,
                )
            },
            CashEntryKind::Cost => if !fits(book.costs + entry.amount) {
                Err(Fault::Overflow)
            } else {
                post(
                    Book { costs: book.costs + entry.amount, ..book },
                    entry.id,
                    LedgerEntryKind::Cost,
                    -entry.amount,
                )
            },
        }
    }
}

/// Books fills one after the other.
pub open spec fn book_fills(book: Book, fills: Seq<Fill>) -> Result<Book, Fault>
    decreases fills.len(),
{
    if fills.len() == 0 {
        Ok(book)
    } else {
        match book_fills(book, fills.drop_last()) {
            Err(fault) => Err(fault),
            Ok(so_far) => book_fill(so_far, fills.last()),
        }
    }
}

/// Books cash entries one after the other.
pub open spec fn book_entries(book: Book, entries: Seq<Cash>) -> Result<Book, Fault>
    decreases entries.len(),
{
    if entries.len() == 0 {
        Ok(book)
    } else {
        match book_entries(book, entries.drop_last()) {
            Err(fault) => Err(fault),
            Ok(so_far) => book_cash(so_far, entries.last()),
        }
    }
}

/// How much the lots hold together.
pub open spec fn shares(lots: Seq<Lot>) -> int
    decreases lots.len(),
{
    if lots.len() == 0 {
        0
    } else {
        shares(lots.drop_last()) + lots.last().quantity
    }
}

/// What the lots cost together.
pub open spec fn basis(lots: Seq<Lot>) -> int
    decreases lots.len(),
{
    if lots.len() == 0 {
        0
    } else {
        basis(lots.drop_last()) + worth(lots.last().quantity, lots.last().unit_cost)
    }
}

/// The price at which a symbol is valued.
pub open spec fn mark_of(marks: Map<Seq<char>, i64>, symbol: Seq<char>) -> Result<int, Fault> {
    if !marks.dom().contains(symbol) {
        Err(Fault::MissingMark(symbol))
    } else if marks[symbol] < 0 {
        Err(Fault::Invalid("mark must not be negative"@))
    } else {
        Ok(marks[symbol] as int)
    }
}

/// Sells what is left of one symbol at its mark.
pub open spec fn close_symbol(
    book: Book,
    symbol: Seq<char>,
    marks: Map<Seq<char>, i64>,
) -> Result<Book, Fault> {
    let quantity = shares(lots_of(book, symbol));
    if !fits(quantity) {
        Err(Fault::Overflow)
    } else if quantity == 0 {
        Ok(book)
    } else {
        match mark_of(marks, symbol) {
            Err(fault) => Err(fault),
            Ok(price) => book_fill(
                book,
                Fill {
                    id: "force_close:"@ + symbol,
                    symbol,
                    side: FillSide::Sell,
                    quantity,
                    price,
                    fee: 0,
                },
            ),
        }
    }
}

/// Sells what is left of each symbol of a list.
pub open spec fn close_symbols(
    book: Book,
    symbols: Seq<Seq<char>>,
    marks: Map<Seq<char>, i64>,
) -> Result<Book, Fault>
    decreases symbols.len(),
{
    if symbols.len() == 0 {
        Ok(book)
    } else {
        match close_symbols(book, symbols.drop_last(), marks) {
            Err(fault) => Err(fault),
            Ok(so_far) => close_symbol(so_far, symbols.last(), marks),
        }
    }
}

/// The position that open lots of a symbol make at its mark.
pub open spec fn hold(symbol: Seq<char>, lots: Seq<Lot>, marks: Map<Seq<char>, i64>) -> Result<
    Holding,
    Fault,
> {
    match mark_of(marks, symbol) {
        Err(fault) => Err(fault),
        Ok(mark) => {
            let quantity = shares(lots);
            let cost = basis(lots);
            let value = worth(quantity, mark);
            if !fits(quantity) || !lots_fit(lots) || !fits(cost) || !fits(value) || !fits(value - cost)
                || !fits(cost * QUANTITY_SCALE) {
                Err(Fault::Overflow)
            } else {
                Ok(
                    Holding {
                        symbol,
                        quantity,
                        average_cost: cost * QUANTITY_SCALE / quantity,
                        market_price: mark,
                        market_value: value,
                        unrealized: value - cost,
                        lots,
                    },
                )
            }
        },
    }
}

/// Whether the cost of each lot fits in the integers that hold money.
pub open spec fn lots_fit(lots: Seq<Lot>) -> bool {
    forall|i: int| 0 <= i < lots.len() ==> fits(worth((#[trigger] lots[i]).quantity, lots[i].unit_cost))
}

/// The positions of a list of symbols with their value and unrealized profit.
pub open spec fn hold_all(
    book: Book,
    symbols: Seq<Seq<char>>,
    marks: Map<Seq<char>, i64>,
) -> Result<(Seq<Holding>, int, int), Fault>
    decreases symbols.len(),
{
    if symbols.len() == 0 {
        Ok((Seq::empty(), 0, 0))
    } else {
        match hold_all(book, symbols.drop_last(), marks) {
            Err(fault) => Err(fault),
            Ok((positions, value, unrealized)) => {
                let lots = lots_of(book, symbols.last());
                if lots.len() == 0 {
                    Ok((positions, value, unrealized))
                } else {
                    match hold(symbols.last(), lots, marks) {
                        Err(fault) => Err(fault),
                        Ok(holding) => if !fits(value + holding.market_value) || !fits(
                            unrealized + holding.unrealized,
                        ) {
                            Err(Fault::Overflow)
                        } else {
                            Ok(
                                (
                                    positions.push(holding),
                                    value + holding.market_value,
                                    unrealized + holding.unrealized,
                                ),
                            )
                        },
                    }
                }
            },
        }
    }
}

/// The account before anything is booked.
pub open spec fn opening(cash: int) -> Book {
    Book {
        cash,
        lots: Map::empty(),
        fills: Seq::empty(),
        ledger: Seq::empty(),
        realized: 0,
        income: 0,
        costs: 0,
    }
}

/// The account after all fills and cash entries, and after the end of the data.
pub open spec fn closing(input: AccountingInput) -> Result<Book, Fault> {
    match book_fills(opening(input.starting_cash_micros as int), fills_view(input.fills@)) {
        Err(fault) => Err(fault),
        Ok(filled) => match book_entries(filled, entries_view(input.cash_entries@)) {
            Err(fault) => Err(fault),
            Ok(entered) => match input.end_of_data {
                EndOfDataPolicy::MarkToMarket => Ok(entered),
                EndOfDataPolicy::ForceClose => close_symbols(
                    entered,
                    text_map::in_order(entered.lots.dom()),
                    input.marks_micros@,
                ),
            },
        },
    }
}

/// The equity that the profits, costs and income account for.
pub open spec fn expected_equity(start: int, book: Book, unrealized: int) -> int {
    start + book.realized + unrealized - book.costs + book.income
}

/// Whether the expected equity can be computed without leaving the integers that hold money.
pub open spec fn expected_fits(start: int, book: Book, unrealized: int) -> bool {
    &&& fits(start + book.realized)
    &&& fits(start + book.realized + unrealized)
    &&& fits(start + book.realized + unrealized - book.costs)
    &&& fits(expected_equity(start, book, unrealized))
}

/// Draws up the statement of an account.
pub open spec fn settle(input: AccountingInput, book: Book) -> Result<Statement, Fault> {
    let start = input.starting_cash_micros as int;
    match hold_all(book, text_map::in_order(book.lots.dom()), input.marks_micros@) {
        Err(fault) => Err(fault),
        Ok((positions, value, unrealized)) => {
            let equity = book.cash + value;
            let residual = equity - expected_equity(start, book, unrealized);
            if !fits(equity) || !expected_fits(start, book, unrealized) || !fits(residual) {
                Err(Fault::Overflow)
            } else if residual > input.reconciliation_tolerance_micros || -residual
                > input.reconciliation_tolerance_micros {
                Err(Fault::Unreconciled(residual))
            } else {
                Ok(
                    Statement {
                        fills: book.fills,
                        ledger: book.ledger,
                        positions,
                        cash: book.cash,
                        market_value: value,
                        equity,
                        realized: book.realized,
                        unrealized,
                        income: book.income,
                        costs: book.costs,
                        residual,
                    },
                )
            }
        },
    }
}

/// What comes of an account: its statement, or why there is none.
pub open spec fn outcome(input: AccountingInput) -> Result<Statement, Fault> {
    if input.starting_cash_micros < 0 {
        Err(Fault::Margin)
    } else if input.reconciliation_tolerance_micros < 0 {
        Err(Fault::Invalid("reconciliation tolerance must not be negative"@))
    } else {
        match closing(input) {
            Err(fault) => Err(fault),
            Ok(book) => settle(input, book),
        }
    }
}

/// Whether each lot holds something and has a price.
pub open spec fn good_lots(lots: Seq<Lot>) -> bool {
    forall|i: int| 0 <= i < lots.len() ==> (#[trigger] lots[i]).quantity > 0 && lots[i].unit_cost >= 0
}

/// Whether the open lots of an account are in order and its cash is not negative.
pub open spec fn sound(book: Book) -> bool {
    &&& book.cash >= 0
    &&& book.lots.dom().finite()
    &&& forall|symbol: Seq<char>| #[trigger]
        book.lots.dom().contains(symbol) ==> good_lots(book.lots[symbol])
}

proof fn shares_grow(lots: Seq<Lot>, i: int)
    requires
        good_lots(lots),
        0 <= i <= lots.len(),
    ensures
        0 <= shares(lots.take(i)) <= shares(lots),
        lots.len() > 0 ==> shares(lots) > 0,
    decreases lots.len(),
{
    let shorter = lots.drop_last();
    if lots.len() > 0 {
        assert(lots.last() == lots[lots.len() - 1]);
        assert(good_lots(shorter)) by {
            assert forall|j: int| 0 <= j < shorter.len() implies (#[trigger] shorter[j]).quantity > 0
                && shorter[j].unit_cost >= 0 by {
                assert(lots[j].quantity > 0);
            }
        }
        if i < lots.len() {
            shares_grow(shorter, i);
            assert(shorter.take(i) =~= lots.take(i));
        } else {
            shares_grow(shorter, i - 1);
            assert(lots.take(i) =~= lots);
        }
    }
}

proof fn basis_grows(lots: Seq<Lot>, i: int)
    requires
        good_lots(lots),
        0 <= i <= lots.len(),
    ensures
        0 <= basis(lots.take(i)) <= basis(lots),
    decreases lots.len(),
{
    let shorter = lots.drop_last();
    if lots.len() > 0 {
        let last = lots[lots.len() - 1];
        worth_bounds(last.quantity, last.unit_cost);
        assert(good_lots(shorter)) by {
            assert forall|j: int| 0 <= j < shorter.len() implies (#[trigger] shorter[j]).quantity > 0
                && shorter[j].unit_cost >= 0 by {
                assert(lots[j].quantity > 0);
            }
        }
        if i < lots.len() {
            basis_grows(shorter, i);
            assert(shorter.take(i) =~= lots.take(i));
        } else {
            basis_grows(shorter, i - 1);
            assert(lots.take(i) =~= lots);
        }
    }
}

proof fn worth_bounds(quantity: int, price: int)
    requires
        quantity >= 0,
        price >= 0,
    ensures
        worth(quantity, price) >= 0,
{
    assert(quantity * price >= 0) by (nonlinear_arith)
        requires
            quantity >= 0,
            price >= 0,
    ;
}

fn checked_add(left: i64, right: i64) -> (r: Result<i64, AccountingError>)
    ensures
        match r {
            Ok(n) => n == left + right,
            Err(e) => !fits(left + right) && e@ == Fault::Overflow,
        },
{
    match left.checked_add(right) {
        Some(n) => Ok(n),
        None => Err(AccountingError::ArithmeticOverflow),
    }
}

fn checked_sub(left: i64, right: i64) -> (r: Result<i64, AccountingError>)
    ensures
        match r {
            Ok(n) => n == left - right,
            Err(e) => !fits(left - right) && e@ == Fault::Overflow,
        },
{
    match left.checked_sub(right) {
        Some(n) => Ok(n),
        None => Err(AccountingError::ArithmeticOverflow),
    }
}

fn checked_neg(value: i64) -> (r: Result<i64, AccountingError>)
    ensures
        match r {
            Ok(n) => n == -value,
            Err(e) => !fits(-value) && e@ == Fault::Overflow,
        },
{
    if value == i64::MIN {
        Err(AccountingError::ArithmeticOverflow)
    } else {
        Ok(-value)
    }
}

/// What a quantity costs at a price, rounded down.
fn notional(quantity: Quantity, price_micros: PriceMicros) -> (r: Result<
    MoneyMicros,
    AccountingError,
>)
    requires
        quantity >= 0,
        price_micros >= 0,
    ensures
        match r {
            Ok(n) => n == worth(quantity as int, price_micros as int) && n >= 0,
            Err(e) => !fits(worth(quantity as int, price_micros as int)) && e@ == Fault::Overflow,
        },
{
    proof {
        worth_bounds(quantity as int, price_micros as int);
        assert(0 <= quantity * price_micros <= 0x7fff_ffff_ffff_ffff * 0x7fff_ffff_ffff_ffff)
            by (nonlinear_arith)
            requires
                0 <= quantity <= 0x7fff_ffff_ffff_ffff,
                0 <= price_micros <= 0x7fff_ffff_ffff_ffff,
        ;
    }
    let numerator: u128 = (quantity as u128) * (price_micros as u128);
    let value: u128 = numerator / 1_000_000u128;
    if value > i64::MAX as u128 {
        Err(AccountingError::ArithmeticOverflow)
    } else {
        Ok(value as i64)
    }
}

fn validate_fill(fill: &AccountingFill) -> (r: Result<(), AccountingError>)
    ensures
        match r {
            Ok(_) => fill_is_valid(fill@),
            Err(e) => !fill_is_valid(fill@) && e@ == Fault::Invalid("fill is invalid"@),
        },
{
    if fill.fill_id.as_str().is_empty() || fill.symbol.as_str().is_empty() || fill.quantity <= 0
        || fill.price_micros < 0 || fill.fee_micros < 0 {
        Err(AccountingError::InvalidInput("fill is invalid"))
    } else {
        Ok(())
    }
}

fn required_mark(marks: &TextMap<PriceMicros>, symbol: &str) -> (r: Result<
    PriceMicros,
    AccountingError,
>)
    ensures
        match r {
            Ok(n) => mark_of(marks@, symbol@) == Ok::<int, Fault>(n as int) && n >= 0,
            Err(e) => mark_of(marks@, symbol@) == Err::<int, Fault>(e@),
        },
{
    match marks.get(symbol) {
        None => Err(AccountingError::MissingMark { symbol: symbol.to_owned() }),
        Some(mark) => if *mark < 0 {
            Err(AccountingError::InvalidInput("mark must not be negative"))
        } else {
            Ok(*mark)
        },
    }
}

fn copy_fill(fill: &AccountingFill) -> (r: AccountingFill)
    ensures
        r@ == fill@,
{
    AccountingFill {
        fill_id: fill.fill_id.clone(),
        symbol: fill.symbol.clone(),
        side: fill.side,
        quantity: fill.quantity,
        price_micros: fill.price_micros,
        fee_micros: fill.fee_micros,
    }
}

fn copy_lots(lots: &Vec<PositionLot>) -> (r: Vec<PositionLot>)
    ensures
        lots_view(r@) == lots_view(lots@),
{
    let mut out: Vec<PositionLot> = Vec::new();
    let mut i: usize = 0;
    while i < lots.len()
        invariant
            i <= lots.len(),
            out.len() == i,
            forall|j: int| 0 <= j < i ==> #[trigger] out@[j]@ == lots@[j]@,
        decreases lots.len() - i,
    {
        out.push(
            PositionLot {
                lot_id: lots[i].lot_id.clone(),
                symbol: lots[i].symbol.clone(),
                quantity: lots[i].quantity,
                unit_cost_micros: lots[i].unit_cost_micros,
            },
        );
        i += 1;
    }
    assert(lots_view(out@) =~= lots_view(lots@));
    out
}

/// Sells the quantity of a fill out of the oldest lots first.
fn sell_lots(held: Vec<PositionLot>, fill: &AccountingFill, realized: i64) -> (r: Result<
    (Vec<PositionLot>, i64),
    AccountingError,
>)
    requires
        good_lots(lots_view(held@)),
        fill_is_valid(fill@),
    ensures
        match r {
            Ok((left, gained)) => sell_oldest(
                lots_view(held@),
                fill@.quantity,
                fill@.price,
                realized as int,
                fill@.symbol,
            ) == Ok::<(Seq<Lot>, int), Fault>((lots_view(left@), gained as int)),
            Err(e) => sell_oldest(
                lots_view(held@),
                fill@.quantity,
                fill@.price,
                realized as int,
                fill@.symbol,
            ) == Err::<(Seq<Lot>, int), Fault>(e@),
        },
{
    let ghost start = lots_view(held@);
    let ghost asked = sell_oldest(start, fill@.quantity, fill@.price, realized as int, fill@.symbol);
    let mut lots = held;
    let mut remaining: i64 = fill.quantity;
    let mut gained: i64 = realized;
    while remaining > 0
        invariant
            fill_is_valid(fill@),
            remaining >= 0,
            good_lots(lots_view(lots@)),
            start == lots_view(held@),
            asked == sell_oldest(start, fill@.quantity, fill@.price, realized as int, fill@.symbol),
            asked == sell_oldest(
                lots_view(lots@),
                remaining as int,
                fill@.price,
                gained as int,
                fill@.symbol,
            ),
        decreases remaining,
    {
        let ghost shown = lots_view(lots@);
        if lots.len() == 0 {
            return Err(AccountingError::UnsupportedShort { symbol: fill.symbol.clone() });
        }
        let mut lot = lots.remove(0);
        proof {
            assert(shown[0] == lot@);
            assert(lots_view(lots@) =~= shown.drop_first());
            assert forall|i: int| 0 <= i < lots_view(lots@).len() implies (
            #[trigger] lots_view(lots@)[i]).quantity > 0 && lots_view(lots@)[i].unit_cost >= 0 by {
                assert(shown[i + 1].quantity > 0);
            }
        }
        let closed: i64 = if remaining < lot.quantity {
            remaining
        } else {
            lot.quantity
        };
        let sale: i64 = match notional(closed, fill.price_micros) {
            Ok(n) => n,
            Err(e) => {
                return Err(e);
            },
        };
        let cost: i64 = match notional(closed, lot.unit_cost_micros) {
            Ok(n) => n,
            Err(e) => {
                return Err(e);
            },
        };
        let gain: i64 = match checked_sub(sale, cost) {
            Ok(n) => n,
            Err(e) => {
                return Err(e);
            },
        };
        gained = match checked_add(gained, gain) {
            Ok(n) => n,
            Err(e) => {
                return Err(e);
            },
        };
        remaining = remaining - closed;
        if closed < lot.quantity {
            lot.quantity = lot.quantity - closed;
            lots.insert(0, lot);
            proof {
                assert(lots_view(lots@) =~= shown.update(
                    0,
                    Lot { quantity: shown[0].quantity - closed, ..shown[0] },
                ));
            }
        }
    }
    Ok((lots, gained))
}

/// The account while it is drawn up.
struct State {
    cash_micros: MoneyMicros,
    lots: TextMap<Vec<PositionLot>>,
    fills: Vec<AccountingFill>,
    ledger: Vec<LedgerEntry>,
    realized_pnl_micros: MoneyMicros,
    income_micros: MoneyMicros,
    costs_micros: MoneyMicros,
}

spec fn open_lots(lots: Map<Seq<char>, Vec<PositionLot>>) -> Map<Seq<char>, Seq<Lot>> {
    lots.map_values(|list: Vec<PositionLot>| lots_view(list@))
}

impl State {
    spec fn book(self) -> Book {
        Book {
            cash: self.cash_micros as int,
            lots: open_lots(self.lots@),
            fills: fills_view(self.fills@),
            ledger: ledger_view(self.ledger@),
            realized: self.realized_pnl_micros as int,
            income: self.income_micros as int,
            costs: self.costs_micros as int,
        }
    }

    fn apply_ledger(
        &mut self,
        entry_id: String,
        kind: LedgerEntryKind,
        cash_delta_micros: MoneyMicros,
    ) -> (r: Result<(), AccountingError>)
        ensures
            match r {
                Ok(_) => post(old(self).book(), entry_id@, kind, cash_delta_micros as int) == Ok::<
                    Book,
                    Fault,
                >(final(self).book()),
                Err(e) => post(old(self).book(), entry_id@, kind, cash_delta_micros as int) == Err::<
                    Book,
                    Fault,
                >(e@),
            },
    {
        let cash: i64 = match checked_add(self.cash_micros, cash_delta_micros) {
            Ok(n) => n,
            Err(e) => {
                return Err(e);
            },
        };
        self.cash_micros = cash;
        if cash < 0 {
            return Err(AccountingError::UnsupportedMargin);
        }
        let sequence: u64 = self.ledger.len() as u64;
        self.ledger.push(LedgerEntry { sequence, entry_id, kind, cash_delta_micros });
        proof {
            assert(ledger_view(self.ledger@) =~= ledger_view(old(self).ledger@).push(
                Posting {
                    sequence: old(self).ledger@.len() as int,
                    id: entry_id@,
                    kind,
                    delta: cash_delta_micros as int,
                },
            ));
        }
        Ok(())
    }

    fn close_lots(&mut self, fill: &AccountingFill) -> (r: Result<(), AccountingError>)
        requires
            sound(old(self).book()),
            fill_is_valid(fill@),
        ensures
            match (
                sell_oldest(
                    lots_of(old(self).book(), fill@.symbol),
                    fill@.quantity,
                    fill@.price,
                    old(self).book().realized,
                    fill@.symbol,
                ),
                r,
            ) {
                (Ok((left, realized)), Ok(_)) => final(self).book() == (Book {
                    lots: old(self).book().lots.insert(fill@.symbol, left),
                    realized,
                    ..old(self).book()
                }),
                (Err(fault), Err(e)) => e@ == fault,
                _ => false,
            },
    {
        let open: Vec<PositionLot> = match self.lots.get(fill.symbol.as_str()) {
            Some(list) => copy_lots(list),
            None => Vec::new(),
        };
        proof {
            assert(lots_view(open@) =~= lots_of(self.book(), fill@.symbol));
            if self.lots@.dom().contains(fill@.symbol) {
                assert(self.book().lots.dom().contains(fill@.symbol));
            }
        }
        let (lots, realized) = match sell_lots(open, fill, self.realized_pnl_micros) {
            Ok(sold) => sold,
            Err(e) => {
                return Err(e);
            },
        };
        self.realized_pnl_micros = realized;
        self.lots.insert(fill.symbol.as_str(), lots);
        proof {
            assert(open_lots(self.lots@) =~= open_lots(old(self).lots@).insert(
                fill@.symbol,
                lots_view(lots@),
            ));
        }
        Ok(())
    }
}

/// Selling out of good lots leaves good lots.
proof fn selling_keeps_lots_good(
    lots: Seq<Lot>,
    quantity: int,
    price: int,
    realized: int,
    symbol: Seq<char>,
)
    requires
        good_lots(lots),
    ensures
        sell_oldest(lots, quantity, price, realized, symbol) matches Ok((left, _)) ==> good_lots(left),
    decreases lots.len(),
{
    if quantity > 0 && lots.len() > 0 {
        let lot = lots[0];
        let closed = least(quantity, lot.quantity);
        let gain = worth(closed, price) - worth(closed, lot.unit_cost);
        let rest = lots.drop_first();
        assert forall|i: int| 0 <= i < rest.len() implies (#[trigger] rest[i]).quantity > 0
            && rest[i].unit_cost >= 0 by {
            assert(lots[i + 1].quantity > 0);
        }
        selling_keeps_lots_good(rest, quantity - closed, price, realized + gain, symbol);
    }
}

/// Booking a fill keeps an account sound.
pub proof fn booking_keeps_sound(book: Book, fill: Fill)
    requires
        sound(book),
    ensures
        book_fill(book, fill) matches Ok(after) ==> sound(after),
{
    if let Ok(after) = book_fill(book, fill) {
        let gross = worth(fill.quantity, fill.price);
        let delta = if fill.side == FillSide::Buy {
            -gross
        } else {
            gross
        };
        let paid = post(book, fill.id + ":notional"@, LedgerEntryKind::FillNotional, delta)->Ok_0;
        let charged = post(paid, fill.id + ":fee"@, LedgerEntryKind::FillFee, -fill.fee)->Ok_0;
        let held = lots_of(book, fill.symbol);
        assert(charged.lots == book.lots);
        selling_keeps_lots_good(held, fill.quantity, fill.price, book.realized, fill.symbol);
        assert forall|symbol: Seq<char>| #[trigger] after.lots.dom().contains(symbol) implies good_lots(
            after.lots[symbol],
        ) by {
            if symbol == fill.symbol {
                if fill.side == FillSide::Buy {
                    let grown = after.lots[symbol];
                    assert forall|i: int| 0 <= i < grown.len() implies (#[trigger] grown[i]).quantity > 0
                        && grown[i].unit_cost >= 0 by {
                        if i < held.len() {
                            assert(held[i].quantity > 0);
                        }
                    }
                }
            } else {
                assert(book.lots.dom().contains(symbol));
            }
        }
    }
}

impl State {
    fn apply_fill(&mut self, fill: AccountingFill) -> (r: Result<(), AccountingError>)
        requires
            sound(old(self).book()),
        ensures
            match r {
                Ok(_) => book_fill(old(self).book(), fill@) == Ok::<Book, Fault>(final(self).book())
                    && sound(final(self).book()),
                Err(e) => book_fill(old(self).book(), fill@) == Err::<Book, Fault>(e@),
            },
    {
        proof {
            booking_keeps_sound(self.book(), fill@);
        }
        if let Err(e) = validate_fill(&fill) {
            return Err(e);
        }
        let gross: i64 = match notional(fill.quantity, fill.price_micros) {
            Ok(n) => n,
            Err(e) => {
                return Err(e);
            },
        };
        let cash_delta: i64 = match fill.side {
            FillSide::Buy => -gross,
            FillSide::Sell => gross,
        };
        if let Err(e) = self.apply_ledger(
            join2(fill.fill_id.as_str(), ":notional"),
            LedgerEntryKind::FillNotional,
            cash_delta,
        ) {
            return Err(e);
        }
        let fee_delta: i64 = match checked_neg(fill.fee_micros) {
            Ok(n) => n,
            Err(e) => {
                return Err(e);
            },
        };
        if let Err(e) = self.apply_ledger(
            join2(fill.fill_id.as_str(), ":fee"),
            LedgerEntryKind::FillFee,
            fee_delta,
        ) {
            return Err(e);
        }
        self.costs_micros = match checked_add(self.costs_micros, fill.fee_micros) {
            Ok(n) => n,
            Err(e) => {
                return Err(e);
            },
        };
        let ghost charged = self.book();
        proof {
            assert(charged.lots == old(self).book().lots);
        }
        match fill.side {
            FillSide::Buy => {
                let lot = PositionLot {
                    lot_id: fill.fill_id.clone(),
                    symbol: fill.symbol.clone(),
                    quantity: fill.quantity,
                    unit_cost_micros: fill.price_micros,
                };
                let mut held: Vec<PositionLot> = match self.lots.get(fill.symbol.as_str()) {
                    Some(list) => copy_lots(list),
                    None => Vec::new(),
                };
                proof {
                    assert(lots_view(held@) =~= lots_of(charged, fill@.symbol));
                }
                let ghost held_before = lots_view(held@);
                held.push(lot);
                proof {
                    assert(lots_view(held@) =~= held_before.push(lot@));
                }
                let ghost grown = lots_view(held@);
                self.lots.insert(fill.symbol.as_str(), held);
                proof {
                    assert(open_lots(self.lots@) =~= charged.lots.insert(fill@.symbol, grown));
                }
            },
            FillSide::Sell => {
                if let Err(e) = self.close_lots(&fill) {
                    return Err(e);
                }
            },
        }
        let ghost shown = fills_view(self.fills@);
        self.fills.push(fill);
        proof {
            assert(fills_view(self.fills@) =~= shown.push(fill@));
            assert(book_fill(old(self).book(), fill@) == Ok::<Book, Fault>(self.book()));
        }
        Ok(())
    }

    fn apply_cash_entry(&mut self, entry: &CashEntry) -> (r: Result<(), AccountingError>)
        requires
            sound(old(self).book()),
        ensures
            match r {
                Ok(_) => book_cash(old(self).book(), entry@) == Ok::<Book, Fault>(final(self).book())
                    && sound(final(self).book()),
                Err(e) => book_cash(old(self).book(), entry@) == Err::<Book, Fault>(e@),
            },
    {
        if entry.entry_id.as_str().is_empty() || entry.amount_micros < 0 {
            return Err(AccountingError::InvalidInput("cash entry is invalid"));
        }
        let (kind, delta): (LedgerEntryKind, i64) = match entry.kind {
            CashEntryKind::Income => {
                self.income_micros = match checked_add(self.income_micros, entry.amount_micros) {
                    Ok(n) => n,
                    Err(e) => {
                        return Err(e);
                    },
                };
                (LedgerEntryKind::Income, entry.amount_micros)
            },
            CashEntryKind::Cost => {
                self.costs_micros = match checked_add(self.costs_micros, entry.amount_micros) {
                    Ok(n) => n,
                    Err(e) => {
                        return Err(e);
                    },
                };
                (LedgerEntryKind::Cost, -entry.amount_micros)
            },
        };
        self.apply_ledger(entry.entry_id.clone(), kind, delta)
    }

    fn position_quantity(&self, symbol: &str) -> (r: Result<Quantity, AccountingError>)
        requires
            sound(self.book()),
            self.book().lots.dom().contains(symbol@),
        ensures
            match r {
                Ok(n) => n == shares(lots_of(self.book(), symbol@)),
                Err(e) => !fits(shares(lots_of(self.book(), symbol@))) && e@ == Fault::Overflow,
            },
    {
        match self.lots.get(symbol) {
            Some(list) => {
                proof {
                    assert(lots_of(self.book(), symbol@) == lots_view(list@));
                }
                total_quantity(list)
            },
            None => Err(AccountingError::UnsupportedShort { symbol: symbol.to_owned() }),
        }
    }
}

/// Adds up the quantities of lots.
fn total_quantity(lots: &Vec<PositionLot>) -> (r: Result<Quantity, AccountingError>)
    requires
        good_lots(lots_view(lots@)),
    ensures
        match r {
            Ok(n) => n == shares(lots_view(lots@)),
            Err(e) => !fits(shares(lots_view(lots@))) && e@ == Fault::Overflow,
        },
{
    let ghost shown = lots_view(lots@);
    let mut total: i64 = 0;
    let mut i: usize = 0;
    while i < lots.len()
        invariant
            i <= lots.len(),
            shown == lots_view(lots@),
            good_lots(shown),
            total == shares(shown.take(i as int)),
        decreases lots.len() - i,
    {
        proof {
            shares_grow(shown, i + 1);
            shares_grow(shown, i as int);
            assert(shown.take(i + 1).drop_last() =~= shown.take(i as int));
            assert(shown.take(i + 1).last() == lots@[i as int]@);
        }
        total = match checked_add(total, lots[i].quantity) {
            Ok(n) => n,
            Err(e) => {
                return Err(e);
            },
        };
        i += 1;
    }
    assert(shown.take(shown.len() as int) =~= shown);
    Ok(total)
}

/// Adds up the costs of lots.
fn total_basis(lots: &Vec<PositionLot>) -> (r: Result<MoneyMicros, AccountingError>)
    requires
        good_lots(lots_view(lots@)),
    ensures
        match r {
            Ok(n) => n == basis(lots_view(lots@)) && lots_fit(lots_view(lots@)),
            Err(e) => (!fits(basis(lots_view(lots@))) || !lots_fit(lots_view(lots@))) && e@
                == Fault::Overflow,
        },
{
    let ghost shown = lots_view(lots@);
    let mut total: i64 = 0;
    let mut i: usize = 0;
    while i < lots.len()
        invariant
            i <= lots.len(),
            shown == lots_view(lots@),
            good_lots(shown),
            total == basis(shown.take(i as int)),
            forall|j: int|
                0 <= j < i ==> fits(worth((#[trigger] shown[j]).quantity, shown[j].unit_cost)),
        decreases lots.len() - i,
    {
        proof {
            basis_grows(shown, i + 1);
            basis_grows(shown, i as int);
            assert(shown.take(i + 1).drop_last() =~= shown.take(i as int));
            assert(shown.take(i + 1).last() == lots@[i as int]@);
            assert(shown[i as int] == lots@[i as int]@);
        }
        let cost: i64 = match notional(lots[i].quantity, lots[i].unit_cost_micros) {
            Ok(n) => n,
            Err(e) => {
                return Err(e);
            },
        };
        total = match checked_add(total, cost) {
            Ok(n) => n,
            Err(e) => {
                return Err(e);
            },
        };
        i += 1;
    }
    assert(shown.take(shown.len() as int) =~= shown);
    Ok(total)
}

/// Values the open lots of a symbol at its mark.
fn value_position(symbol: &str, lots: &Vec<PositionLot>, marks: &TextMap<PriceMicros>) -> (r: Result<
    Position,
    AccountingError,
>)
    requires
        good_lots(lots_view(lots@)),
        lots@.len() > 0,
    ensures
        match r {
            Ok(p) => hold(symbol@, lots_view(lots@), marks@) == Ok::<Holding, Fault>(p@),
            Err(e) => hold(symbol@, lots_view(lots@), marks@) == Err::<Holding, Fault>(e@),
        },
{
    let ghost shown = lots_view(lots@);
    proof {
        shares_grow(shown, 0);
        basis_grows(shown, 0);
    }
    let mark: i64 = match required_mark(marks, symbol) {
        Ok(n) => n,
        Err(e) => {
            return Err(e);
        },
    };
    let quantity: i64 = match total_quantity(lots) {
        Ok(n) => n,
        Err(e) => {
            return Err(e);
        },
    };
    let cost: i64 = match total_basis(lots) {
        Ok(n) => n,
        Err(e) => {
            return Err(e);
        },
    };
    let value: i64 = match notional(quantity, mark) {
        Ok(n) => n,
        Err(e) => {
            return Err(e);
        },
    };
    let unrealized: i64 = match checked_sub(value, cost) {
        Ok(n) => n,
        Err(e) => {
            return Err(e);
        },
    };
    let scaled: i64 = match cost.checked_mul(QUANTITY_SCALE) {
        Some(n) => n,
        None => {
            return Err(AccountingError::ArithmeticOverflow);
        },
    };
    let average: i64 = ((scaled as u64) / (quantity as u64)) as i64;
    proof {
        assert(0 <= scaled / quantity <= scaled) by (nonlinear_arith)
            requires
                scaled >= 0,
                quantity > 0,
        ;
    }
    Ok(
        Position {
            symbol: symbol.to_owned(),
            quantity,
            average_cost_micros: average,
            market_price_micros: mark,
            market_value_micros: value,
            unrealized_pnl_micros: unrealized,
            lots: copy_lots(lots),
        },
    )
}

impl State {
    fn apply_fills(&mut self, fills: &Vec<AccountingFill>) -> (r: Result<(), AccountingError>)
        requires
            sound(old(self).book()),
        ensures
            match r {
                Ok(_) => book_fills(old(self).book(), fills_view(fills@)) == Ok::<Book, Fault>(
                    final(self).book(),
                ) && sound(final(self).book()),
                Err(e) => book_fills(old(self).book(), fills_view(fills@)) == Err::<Book, Fault>(e@),
            },
    {
        let ghost all = fills_view(fills@);
        let ghost start = self.book();
        let mut i: usize = 0;
        while i < fills.len()
            invariant
                i <= fills.len(),
                all == fills_view(fills@),
                start == old(self).book(),
                sound(self.book()),
                book_fills(start, all.take(i as int)) == Ok::<Book, Fault>(self.book()),
            decreases fills.len() - i,
        {
            let copy = copy_fill(&fills[i]);
            proof {
                assert(all.take(i + 1).drop_last() =~= all.take(i as int));
                assert(all.take(i + 1).last() == fills@[i as int]@);
            }
            if let Err(e) = self.apply_fill(copy) {
                proof {
                    fills_fail_early(start, all, i + 1);
                }
                return Err(e);
            }
            i += 1;
        }
        assert(all.take(all.len() as int) =~= all);
        Ok(())
    }

    fn apply_cash_entries(&mut self, entries: &Vec<CashEntry>) -> (r: Result<(), AccountingError>)
        requires
            sound(old(self).book()),
        ensures
            match r {
                Ok(_) => book_entries(old(self).book(), entries_view(entries@)) == Ok::<Book, Fault>(
                    final(self).book(),
                ) && sound(final(self).book()),
                Err(e) => book_entries(old(self).book(), entries_view(entries@)) == Err::<Book, Fault>(
                    e@,
                ),
            },
    {
        let ghost all = entries_view(entries@);
        let ghost start = self.book();
        let mut i: usize = 0;
        while i < entries.len()
            invariant
                i <= entries.len(),
                all == entries_view(entries@),
                start == old(self).book(),
                sound(self.book()),
                book_entries(start, all.take(i as int)) == Ok::<Book, Fault>(self.book()),
            decreases entries.len() - i,
        {
            proof {
                assert(all.take(i + 1).drop_last() =~= all.take(i as int));
                assert(all.take(i + 1).last() == entries@[i as int]@);
            }
            if let Err(e) = self.apply_cash_entry(&entries[i]) {
                proof {
                    entries_fail_early(start, all, i + 1);
                }
                return Err(e);
            }
            i += 1;
        }
        assert(all.take(all.len() as int) =~= all);
        Ok(())
    }

    fn open_symbols(&self) -> (r: Vec<String>)
        ensures
            text::texts(r@) == text_map::in_order(self.book().lots.dom()),
            forall|k: int| 0 <= k < r.len() ==> self.book().lots.dom().contains(#[trigger] r@[k]@),
    {
        let n: usize = self.lots.len();
        let mut out: Vec<String> = Vec::new();
        let mut i: usize = 0;
        while i < n
            invariant
                i <= n == self.lots.order().len(),
                out.len() == i,
                forall|k: int| 0 <= k < i ==> #[trigger] out@[k]@ == self.lots.order()[k],
                forall|k: int| 0 <= k < i ==> self.lots@.dom().contains(#[trigger] out@[k]@),
            decreases n - i,
        {
            out.push(self.lots.key_at(i).clone());
            i += 1;
        }
        proof {
            assert(self.book().lots.dom() =~= self.lots@.dom());
            assert(text::texts(out@) =~= self.lots.order());
        }
        out
    }

    fn force_close(&mut self, marks: &TextMap<PriceMicros>) -> (r: Result<(), AccountingError>)
        requires
            sound(old(self).book()),
        ensures
            match r {
                Ok(_) => close_symbols(
                    old(self).book(),
                    text_map::in_order(old(self).book().lots.dom()),
                    marks@,
                ) == Ok::<Book, Fault>(final(self).book()) && sound(final(self).book()),
                Err(e) => close_symbols(
                    old(self).book(),
                    text_map::in_order(old(self).book().lots.dom()),
                    marks@,
                ) == Err::<Book, Fault>(e@),
            },
    {
        let symbols = self.open_symbols();
        let ghost all = text::texts(symbols@);
        let ghost start = self.book();
        let mut i: usize = 0;
        while i < symbols.len()
            invariant
                i <= symbols.len(),
                all == text::texts(symbols@),
                all == text_map::in_order(start.lots.dom()),
                start == old(self).book(),
                sound(self.book()),
                forall|k: int|
                    0 <= k < symbols.len() ==> self.book().lots.dom().contains(#[trigger] symbols@[k]@),
                close_symbols(start, all.take(i as int), marks@) == Ok::<Book, Fault>(self.book()),
            decreases symbols.len() - i,
        {
            let ghost so_far = self.book();
            let symbol: &str = symbols[i].as_str();
            proof {
                assert(all.take(i + 1).drop_last() =~= all.take(i as int));
                assert(all.take(i + 1).last() == symbol@);
            }
            let quantity: i64 = match self.position_quantity(symbol) {
                Ok(n) => n,
                Err(e) => {
                    proof {
                        closing_fails_early(start, all, marks@, i + 1);
                    }
                    return Err(e);
                },
            };
            if quantity != 0 {
                let price_micros: i64 = match required_mark(marks, symbol) {
                    Ok(n) => n,
                    Err(e) => {
                        proof {
                            closing_fails_early(start, all, marks@, i + 1);
                        }
                        return Err(e);
                    },
                };
                let fill = AccountingFill {
                    fill_id: join2("force_close:", symbol),
                    symbol: symbol.to_owned(),
                    side: FillSide::Sell,
                    quantity,
                    price_micros,
                    fee_micros: 0,
                };
                if let Err(e) = self.apply_fill(fill) {
                    proof {
                        closing_fails_early(start, all, marks@, i + 1);
                    }
                    return Err(e);
                }
                proof {
                    booking_keeps_symbols(so_far, fill@);
                }
            }
            i += 1;
        }
        assert(all.take(all.len() as int) =~= all);
        Ok(())
    }

    fn value_positions(&self, marks: &TextMap<PriceMicros>) -> (r: Result<
        (Vec<Position>, i64, i64),
        AccountingError,
    >)
        requires
            sound(self.book()),
        ensures
            match r {
                Ok((positions, value, unrealized)) => hold_all(
                    self.book(),
                    text_map::in_order(self.book().lots.dom()),
                    marks@,
                ) == Ok::<(Seq<Holding>, int, int), Fault>(
                    (
                        positions@.map_values(|p: Position| p@),
                        value as int,
                        unrealized as int,
                    ),
                ),
                Err(e) => hold_all(self.book(), text_map::in_order(self.book().lots.dom()), marks@) == Err::<
                    (Seq<Holding>, int, int),
                    Fault,
                >(e@),
            },
    {
        let n: usize = self.lots.len();
        let ghost book = self.book();
        let ghost all = self.lots.order();
        proof {
            assert(book.lots.dom() =~= self.lots@.dom());
        }
        let mut positions: Vec<Position> = Vec::new();
        let mut value: i64 = 0;
        let mut unrealized: i64 = 0;
        let mut i: usize = 0;
        proof {
            assert(positions@.map_values(|p: Position| p@) =~= Seq::<Holding>::empty());
        }
        while i < n
            invariant
                i <= n == all.len(),
                all == self.lots.order(),
                book == self.book(),
                sound(book),
                all == text_map::in_order(book.lots.dom()),
                hold_all(book, all.take(i as int), marks@) == Ok::<(Seq<Holding>, int, int), Fault>(
                    (
                        positions@.map_values(|p: Position| p@),
                        value as int,
                        unrealized as int,
                    ),
                ),
            decreases n - i,
        {
            let symbol = self.lots.key_at(i);
            let lots = self.lots.value_at(i);
            proof {
                assert(all.take(i + 1).drop_last() =~= all.take(i as int));
                assert(all.take(i + 1).last() == symbol@);
                assert(book.lots.dom().contains(symbol@));
                assert(lots_of(book, symbol@) == lots_view(lots@));
            }
            if lots.len() > 0 {
                let position = match value_position(symbol.as_str(), lots, marks) {
                    Ok(p) => p,
                    Err(e) => {
                        proof {
                            holding_fails_early(book, all, marks@, i + 1);
                        }
                        return Err(e);
                    },
                };
                value = match checked_add(value, position.market_value_micros) {
                    Ok(m) => m,
                    Err(e) => {
                        proof {
                            holding_fails_early(book, all, marks@, i + 1);
                        }
                        return Err(e);
                    },
                };
                unrealized = match checked_add(unrealized, position.unrealized_pnl_micros) {
                    Ok(m) => m,
                    Err(e) => {
                        proof {
                            holding_fails_early(book, all, marks@, i + 1);
                        }
                        return Err(e);
                    },
                };
                let ghost shown = positions@.map_values(|p: Position| p@);
                positions.push(position);
                proof {
                    assert(positions@.map_values(|p: Position| p@) =~= shown.push(position@));
                }
            }
            i += 1;
        }
        assert(all.take(all.len() as int) =~= all);
        Ok((positions, value, unrealized))
    }
}

proof fn fills_fail_early(book: Book, fills: Seq<Fill>, i: int)
    requires
        0 <= i <= fills.len(),
        book_fills(book, fills.take(i)) is Err,
    ensures
        book_fills(book, fills) == book_fills(book, fills.take(i)),
    decreases fills.len(),
{
    if i == fills.len() {
        assert(fills.take(i) =~= fills);
    } else {
        assert(fills.drop_last().take(i) =~= fills.take(i));
        fills_fail_early(book, fills.drop_last(), i);
    }
}

proof fn entries_fail_early(book: Book, entries: Seq<Cash>, i: int)
    requires
        0 <= i <= entries.len(),
        book_entries(book, entries.take(i)) is Err,
    ensures
        book_entries(book, entries) == book_entries(book, entries.take(i)),
    decreases entries.len(),
{
    if i == entries.len() {
        assert(entries.take(i) =~= entries);
    } else {
        assert(entries.drop_last().take(i) =~= entries.take(i));
        entries_fail_early(book, entries.drop_last(), i);
    }
}

proof fn closing_fails_early(
    book: Book,
    symbols: Seq<Seq<char>>,
    marks: Map<Seq<char>, i64>,
    i: int,
)
    requires
        0 <= i <= symbols.len(),
        close_symbols(book, symbols.take(i), marks) is Err,
    ensures
        close_symbols(book, symbols, marks) == close_symbols(book, symbols.take(i), marks),
    decreases symbols.len(),
{
    if i == symbols.len() {
        assert(symbols.take(i) =~= symbols);
    } else {
        assert(symbols.drop_last().take(i) =~= symbols.take(i));
        closing_fails_early(book, symbols.drop_last(), marks, i);
    }
}

proof fn holding_fails_early(
    book: Book,
    symbols: Seq<Seq<char>>,
    marks: Map<Seq<char>, i64>,
    i: int,
)
    requires
        0 <= i <= symbols.len(),
        hold_all(book, symbols.take(i), marks) is Err,
    ensures
        hold_all(book, symbols, marks) == hold_all(book, symbols.take(i), marks),
    decreases symbols.len(),
{
    if i == symbols.len() {
        assert(symbols.take(i) =~= symbols);
    } else {
        assert(symbols.drop_last().take(i) =~= symbols.take(i));
        holding_fails_early(book, symbols.drop_last(), marks, i);
    }
}

/// Booking a fill drops no symbol.
proof fn booking_keeps_symbols(book: Book, fill: Fill)
    ensures
        book_fill(book, fill) matches Ok(after) ==> after.lots.dom() == book.lots.dom().insert(
            fill.symbol,
        ),
{
    if let Ok(after) = book_fill(book, fill) {
        assert(after.lots.dom() =~= book.lots.dom().insert(fill.symbol));
    }
}

/// Draws up an account from its fills, cash entries and marks.
pub fn account(input: &AccountingInput) -> (r: Result<AccountingResult, AccountingError>)
    ensures
        match r {
            Ok(result) => outcome(*input) == Ok::<Statement, Fault>(result@),
            Err(e) => outcome(*input) == Err::<Statement, Fault>(e@),
        },
{
    if input.starting_cash_micros < 0 {
        return Err(AccountingError::UnsupportedMargin);
    }
    if input.reconciliation_tolerance_micros < 0 {
        return Err(
            AccountingError::InvalidInput("reconciliation tolerance must not be negative"),
        );
    }
    let mut state = State {
        cash_micros: input.starting_cash_micros,
        lots: TextMap::new(),
        fills: Vec::new(),
        ledger: Vec::new(),
        realized_pnl_micros: 0,
        income_micros: 0,
        costs_micros: 0,
    };
    proof {
        assert(state.book() =~= opening(input.starting_cash_micros as int));
    }
    if let Err(e) = state.apply_fills(&input.fills) {
        return Err(e);
    }
    if let Err(e) = state.apply_cash_entries(&input.cash_entries) {
        return Err(e);
    }
    if input.end_of_data == EndOfDataPolicy::ForceClose {
        if let Err(e) = state.force_close(&input.marks_micros) {
            return Err(e);
        }
    }
    proof {
        assert(closing(*input) == Ok::<Book, Fault>(state.book()));
    }
    let (positions, value, unrealized) = match state.value_positions(&input.marks_micros) {
        Ok(valued) => valued,
        Err(e) => {
            return Err(e);
        },
    };
    let equity: i64 = match checked_add(state.cash_micros, value) {
        Ok(n) => n,
        Err(e) => {
            return Err(e);
        },
    };
    let with_realized: i64 = match checked_add(
        input.starting_cash_micros,
        state.realized_pnl_micros,
    ) {
        Ok(n) => n,
        Err(e) => {
            return Err(e);
        },
    };
    let with_unrealized: i64 = match checked_add(with_realized, unrealized) {
        Ok(n) => n,
        Err(e) => {
            return Err(e);
        },
    };
    let without_costs: i64 = match checked_sub(with_unrealized, state.costs_micros) {
        Ok(n) => n,
        Err(e) => {
            return Err(e);
        },
    };
    let expected: i64 = match checked_add(without_costs, state.income_micros) {
        Ok(n) => n,
        Err(e) => {
            return Err(e);
        },
    };
    let residual: i64 = match checked_sub(equity, expected) {
        Ok(n) => n,
        Err(e) => {
            return Err(e);
        },
    };
    let tolerance: i64 = input.reconciliation_tolerance_micros;
    if residual > tolerance || residual < -tolerance {
        return Err(AccountingError::ReconciliationFailed { residual_micros: residual });
    }
    Ok(
        AccountingResult {
            fills: state.fills,
            ledger: state.ledger,
            positions,
            ending_cash_micros: state.cash_micros,
            market_value_micros: value,
            ending_equity_micros: equity,
            realized_pnl_micros: state.realized_pnl_micros,
            unrealized_pnl_micros: unrealized,
            income_micros: state.income_micros,
            costs_micros: state.costs_micros,
            reconciliation_residual_micros: residual,
        },
    )
}

impl AccountingFill {
    /// The fill that the accounts book for a fill of the strategy kernel.
    pub fn from_kernel_fill(fill: &KernelFill) -> (r: AccountingFill)
        ensures
            r@ == (Fill {
                id: "kernel:"@ + text::decimal(fill.decision_bar_index as nat) + ":"@
                    + text::decimal(fill.execution_bar_index as nat),
                symbol: fill.symbol@,
                side: match fill.side {
                    OrderSide::Buy => FillSide::Buy,
                    OrderSide::Sell => FillSide::Sell,
                },
                quantity: fill.quantity as int,
                price: fill.price_micros as int,
                fee: fill.fee_micros as int,
            }),
    {
        let decision = text::decimal_text(fill.decision_bar_index);
        let execution = text::decimal_text(fill.execution_bar_index);
        AccountingFill {
            fill_id: text::join4("kernel:", decision.as_str(), ":", execution.as_str()),
            symbol: fill.symbol.clone(),
            side: match fill.side {
                OrderSide::Buy => FillSide::Buy,
                OrderSide::Sell => FillSide::Sell,
            },
            quantity: fill.quantity,
            price_micros: fill.price_micros,
            fee_micros: fill.fee_micros,
        }
    }
}

/// What the postings of a ledger come to.
pub open spec fn total(ledger: Seq<Posting>) -> int
    decreases ledger.len(),
{
    if ledger.len() == 0 {
        0
    } else {
        total(ledger.drop_last()) + ledger.last().delta
    }
}

/// What the postings of some kinds come to.
pub open spec fn total_of(ledger: Seq<Posting>, kinds: Set<LedgerEntryKind>) -> int
    decreases ledger.len(),
{
    if ledger.len() == 0 {
        0
    } else {
        total_of(ledger.drop_last(), kinds) + if kinds.contains(ledger.last().kind) {
            ledger.last().delta
        } else {
            0
        }
    }
}

/// The kinds of postings that are costs.
pub open spec fn cost_kinds() -> Set<LedgerEntryKind> {
    set![LedgerEntryKind::FillFee, LedgerEntryKind::Cost]
}

/// The kinds of postings that are income.
pub open spec fn income_kinds() -> Set<LedgerEntryKind> {
    set![LedgerEntryKind::Income]
}

/// How much of a symbol the fills bought beyond what they sold.
pub open spec fn net(fills: Seq<Fill>, symbol: Seq<char>) -> int
    decreases fills.len(),
{
    if fills.len() == 0 {
        0
    } else {
        let last = fills.last();
        net(fills.drop_last(), symbol) + if last.symbol != symbol {
            0
        } else if last.side == FillSide::Buy {
            last.quantity
        } else {
            -last.quantity
        }
    }
}

/// Whether a ledger explains the cash, the costs and the income of an account, is
/// numbered from nought, and never let the cash go below nought.
pub open spec fn explained(book: Book, start: int) -> bool {
    &&& book.cash == start + total(book.ledger)
    &&& book.costs == -total_of(book.ledger, cost_kinds())
    &&& book.income == total_of(book.ledger, income_kinds())
    &&& forall|i: int| 0 <= i < book.ledger.len() ==> (#[trigger] book.ledger[i]).sequence == i
    &&& forall|i: int| 0 <= i <= book.ledger.len() ==> start + total(#[trigger] book.ledger.take(i)) >= 0
}

/// Whether the open lots hold exactly what the fills bought and did not sell.
pub open spec fn shares_kept(book: Book) -> bool {
    forall|symbol: Seq<char>| #[trigger] shares(lots_of(book, symbol)) == net(book.fills, symbol)
}

proof fn posting_explained(
    book: Book,
    id: Seq<char>,
    kind: LedgerEntryKind,
    delta: int,
    start: int,
    after: Book,
)
    requires
        book.cash == start + total(book.ledger),
        forall|i: int| 0 <= i < book.ledger.len() ==> (#[trigger] book.ledger[i]).sequence == i,
        forall|i: int|
            0 <= i <= book.ledger.len() ==> start + total(#[trigger] book.ledger.take(i)) >= 0,
        post(book, id, kind, delta) == Ok::<Book, Fault>(after),
    ensures
        after.cash == start + total(after.ledger),
        forall|i: int| 0 <= i < after.ledger.len() ==> (#[trigger] after.ledger[i]).sequence == i,
        forall|i: int|
            0 <= i <= after.ledger.len() ==> start + total(#[trigger] after.ledger.take(i)) >= 0,
        total_of(after.ledger, cost_kinds()) == total_of(book.ledger, cost_kinds())
            + if cost_kinds().contains(kind) {
            delta
        } else {
            0
        },
        total_of(after.ledger, income_kinds()) == total_of(book.ledger, income_kinds())
            + if income_kinds().contains(kind) {
            delta
        } else {
            0
        },
{
    assert(after.ledger.drop_last() =~= book.ledger);
    assert forall|i: int| 0 <= i <= after.ledger.len() implies start + total(
        #[trigger] after.ledger.take(i),
    ) >= 0 by {
        if i == after.ledger.len() {
            assert(after.ledger.take(i) =~= after.ledger);
        } else {
            assert(after.ledger.take(i) =~= book.ledger.take(i));
        }
    }
}

/// The first lot and the others hold together what all hold.
proof fn shares_from_front(lots: Seq<Lot>)
    requires
        lots.len() > 0,
    ensures
        shares(lots) == lots[0].quantity + shares(lots.drop_first()),
    decreases lots.len(),
{
    if lots.len() > 1 {
        shares_from_front(lots.drop_last());
        assert(lots.drop_first().drop_last() =~= lots.drop_last().drop_first());
        assert(lots.drop_first().last() == lots.last());
    } else {
        assert(lots.drop_last() =~= Seq::<Lot>::empty());
        assert(lots.drop_first() =~= Seq::<Lot>::empty());
    }
}

/// A sale takes out of the lots exactly what is sold, and is refused for want of
/// shares only where the lots hold less.
pub proof fn selling_takes_what_is_sold(
    lots: Seq<Lot>,
    quantity: int,
    price: int,
    realized: int,
    symbol: Seq<char>,
)
    requires
        good_lots(lots),
        quantity >= 0,
    ensures
        match sell_oldest(lots, quantity, price, realized, symbol) {
            Ok((left, _)) => shares(left) == shares(lots) - quantity,
            Err(Fault::Short(who)) => who == symbol && shares(lots) < quantity,
            Err(fault) => fault is Overflow,
        },
    decreases lots.len(),
{
    if quantity > 0 && lots.len() > 0 {
        let lot = lots[0];
        let closed = least(quantity, lot.quantity);
        let gain = worth(closed, price) - worth(closed, lot.unit_cost);
        let rest = lots.drop_first();
        shares_from_front(lots);
        assert forall|i: int| 0 <= i < rest.len() implies (#[trigger] rest[i]).quantity > 0
            && rest[i].unit_cost >= 0 by {
            assert(lots[i + 1].quantity > 0);
        }
        let cut = lots.update(0, Lot { quantity: lot.quantity - closed, ..lot });
        shares_from_front(cut);
        assert(cut.drop_first() =~= rest);
        selling_takes_what_is_sold(rest, quantity - closed, price, realized + gain, symbol);
    }
}

/// Booking a fill keeps the account sound and explained, and moves as many shares
/// as the fill says.
proof fn fill_explained(book: Book, fill: Fill, start: int)
    requires
        sound(book),
        explained(book, start),
        shares_kept(book),
    ensures
        book_fill(book, fill) matches Ok(after) ==> sound(after) && explained(after, start)
            && shares_kept(after) && after.fills == book.fills.push(fill),
{
    booking_keeps_sound(book, fill);
    if let Ok(after) = book_fill(book, fill) {
        let gross = worth(fill.quantity, fill.price);
        let delta = if fill.side == FillSide::Buy {
            -gross
        } else {
            gross
        };
        let note = fill.id + ":notional"@;
        let fee = fill.id + ":fee"@;
        let paid = post(book, note, LedgerEntryKind::FillNotional, delta)->Ok_0;
        posting_explained(book, note, LedgerEntryKind::FillNotional, delta, start, paid);
        let charged = post(paid, fee, LedgerEntryKind::FillFee, -fill.fee)->Ok_0;
        posting_explained(paid, fee, LedgerEntryKind::FillFee, -fill.fee, start, charged);
        let held = lots_of(book, fill.symbol);
        selling_takes_what_is_sold(held, fill.quantity, fill.price, book.realized, fill.symbol);
        assert(after.fills.drop_last() =~= book.fills);
        assert forall|symbol: Seq<char>| #[trigger] shares(lots_of(after, symbol)) == net(
            after.fills,
            symbol,
        ) by {
            assert(shares(lots_of(book, symbol)) == net(book.fills, symbol));
            if symbol == fill.symbol {
                if fill.side == FillSide::Buy {
                    assert(lots_of(after, symbol).drop_last() =~= held);
                }
            } else {
                assert(lots_of(after, symbol) == lots_of(book, symbol));
            }
        }
    }
}

proof fn fills_explained(book: Book, fills: Seq<Fill>, start: int)
    requires
        sound(book),
        explained(book, start),
        shares_kept(book),
    ensures
        book_fills(book, fills) matches Ok(after) ==> sound(after) && explained(after, start)
            && shares_kept(after) && after.fills == book.fills + fills,
    decreases fills.len(),
{
    if fills.len() > 0 {
        fills_explained(book, fills.drop_last(), start);
        if let Ok(so_far) = book_fills(book, fills.drop_last()) {
            fill_explained(so_far, fills.last(), start);
            assert(book.fills + fills =~= (book.fills + fills.drop_last()).push(fills.last()));
        }
    } else {
        assert(book.fills + fills =~= book.fills);
    }
}

proof fn entries_explained(book: Book, entries: Seq<Cash>, start: int)
    requires
        sound(book),
        explained(book, start),
        shares_kept(book),
    ensures
        book_entries(book, entries) matches Ok(after) ==> sound(after) && explained(after, start)
            && shares_kept(after) && after.fills == book.fills && after.lots == book.lots
            && after.realized == book.realized,
    decreases entries.len(),
{
    if entries.len() > 0 {
        entries_explained(book, entries.drop_last(), start);
        if let Ok(so_far) = book_entries(book, entries.drop_last()) {
            let entry = entries.last();
            if let Ok(after) = book_cash(so_far, entry) {
                match entry.kind {
                    CashEntryKind::Income => {
                        let opened = Book { income: so_far.income + entry.amount, ..so_far };
                        posting_explained(
                            opened,
                            entry.id,
                            LedgerEntryKind::Income,
                            entry.amount,
                            start,
                            after,
                        );
                    },
                    CashEntryKind::Cost => {
                        let opened = Book { costs: so_far.costs + entry.amount, ..so_far };
                        posting_explained(
                            opened,
                            entry.id,
                            LedgerEntryKind::Cost,
                            -entry.amount,
                            start,
                            after,
                        );
                    },
                }
                assert forall|symbol: Seq<char>| #[trigger] shares(lots_of(after, symbol)) == net(
                    after.fills,
                    symbol,
                ) by {
                    assert(lots_of(after, symbol) == lots_of(so_far, symbol));
                    assert(shares(lots_of(so_far, symbol)) == net(so_far.fills, symbol));
                }
            }
        }
    }
}

proof fn closing_explained(
    book: Book,
    symbols: Seq<Seq<char>>,
    marks: Map<Seq<char>, i64>,
    start: int,
)
    requires
        sound(book),
        explained(book, start),
        shares_kept(book),
    ensures
        close_symbols(book, symbols, marks) matches Ok(after) ==> sound(after) && explained(
            after,
            start,
        ) && shares_kept(after) && after.lots.dom().subset_of(
            book.lots.dom().union(symbols.to_set()),
        ) && book.fills.is_prefix_of(after.fills) && (forall|symbol: Seq<char>|
            symbols.contains(symbol) ==> (#[trigger] lots_of(after, symbol)).len() == 0),
    decreases symbols.len(),
{
    if symbols.len() > 0 {
        let earlier = symbols.drop_last();
        closing_explained(book, earlier, marks, start);
        if let Ok(so_far) = close_symbols(book, earlier, marks) {
            let last = symbols.last();
            let held = lots_of(so_far, last);
            let quantity = shares(held);
            if let Ok(after) = close_symbol(so_far, last, marks) {
                assert(symbols.contains(last)) by {
                    assert(symbols[symbols.len() - 1] == last);
                }
                shares_grow(held, 0);
                if quantity != 0 {
                    let price = mark_of(marks, last)->Ok_0;
                    let fill = Fill {
                        id: "force_close:"@ + last,
                        symbol: last,
                        side: FillSide::Sell,
                        quantity,
                        price,
                        fee: 0,
                    };
                    fill_explained(so_far, fill, start);
                    booking_keeps_symbols(so_far, fill);
                    let left = lots_of(after, last);
                    assert(shares(left) == net(after.fills, last));
                    assert(shares(held) == net(so_far.fills, last));
                    assert(after.fills.drop_last() =~= so_far.fills);
                    assert(after.lots.dom().contains(last));
                    shares_grow(left, 0);
                    assert(left.len() == 0);
                }
                assert forall|symbol: Seq<char>| symbols.contains(symbol) implies (
                #[trigger] lots_of(after, symbol)).len() == 0 by {
                    if symbol != last {
                        let k = choose|k: int| 0 <= k < symbols.len() && symbols[k] == symbol;
                        assert(earlier[k] == symbol);
                        assert(lots_of(so_far, symbol).len() == 0);
                        assert(lots_of(after, symbol) == lots_of(so_far, symbol));
                    }
                }
                assert forall|symbol: Seq<char>| #[trigger] after.lots.dom().contains(
                    symbol,
                ) implies book.lots.dom().union(symbols.to_set()).contains(symbol) by {
                    if symbol != last {
                        assert(so_far.lots.dom().contains(symbol));
                        if earlier.to_set().contains(symbol) {
                            let k = choose|k: int| 0 <= k < earlier.len() && earlier[k] == symbol;
                            assert(symbols[k] == symbol);
                        }
                    }
                }
            }
        }
    }
}

/// The books of an account that has been closed are sound and explained, and its
/// open lots hold what the fills bought and did not sell.
proof fn closed_account_explained(input: AccountingInput, book: Book)
    requires
        input.starting_cash_micros >= 0,
        closing(input) == Ok::<Book, Fault>(book),
    ensures
        sound(book),
        explained(book, input.starting_cash_micros as int),
        shares_kept(book),
        fills_view(input.fills@).is_prefix_of(book.fills),
        input.end_of_data == EndOfDataPolicy::MarkToMarket ==> book.fills == fills_view(input.fills@),
{
    let start = input.starting_cash_micros as int;
    let first = opening(start);
    assert forall|symbol: Seq<char>| #[trigger] shares(lots_of(first, symbol)) == net(
        first.fills,
        symbol,
    ) by {}
    assert forall|i: int| 0 <= i <= first.ledger.len() implies start + total(
        #[trigger] first.ledger.take(i),
    ) >= 0 by {
        assert(first.ledger.take(i) =~= first.ledger);
    }
    fills_explained(first, fills_view(input.fills@), start);
    let filled = book_fills(first, fills_view(input.fills@))->Ok_0;
    assert(filled.fills =~= fills_view(input.fills@));
    entries_explained(filled, entries_view(input.cash_entries@), start);
    let entered = book_entries(filled, entries_view(input.cash_entries@))->Ok_0;
    if input.end_of_data == EndOfDataPolicy::ForceClose {
        closing_explained(entered, text_map::in_order(entered.lots.dom()), input.marks_micros@, start);
    }
}

/// The ledger of a statement explains its cash, costs and income to the last
/// micro: the starting cash and all postings come to the ending cash, and at no
/// point was the cash negative. The postings are numbered from nought.
pub proof fn ledger_explains_statement(input: AccountingInput, statement: Statement)
    requires
        outcome(input) == Ok::<Statement, Fault>(statement),
    ensures
        statement.cash == input.starting_cash_micros + total(statement.ledger),
        statement.costs == -total_of(statement.ledger, cost_kinds()),
        statement.income == total_of(statement.ledger, income_kinds()),
        forall|i: int|
            0 <= i < statement.ledger.len() ==> (#[trigger] statement.ledger[i]).sequence == i,
        forall|i: int|
            0 <= i <= statement.ledger.len() ==> input.starting_cash_micros + total(
                #[trigger] statement.ledger.take(i),
            ) >= 0,
{
    closed_account_explained(input, closing(input)->Ok_0);
}

/// The equity of a statement is its cash and the value of its positions, and what
/// the profits, costs and income do not account for stays within the tolerance.
pub proof fn statement_reconciles(input: AccountingInput, statement: Statement)
    requires
        outcome(input) == Ok::<Statement, Fault>(statement),
    ensures
        statement.equity == statement.cash + statement.market_value,
        statement.equity == input.starting_cash_micros + statement.realized + statement.unrealized
            - statement.costs + statement.income + statement.residual,
        -input.reconciliation_tolerance_micros <= statement.residual
            <= input.reconciliation_tolerance_micros,
{
}

/// What is held: for each position of a statement its lots hold together what the
/// statement's fills bought of the symbol and did not sell, and nothing else is held.
pub proof fn positions_hold_what_was_bought(input: AccountingInput, statement: Statement)
    requires
        outcome(input) == Ok::<Statement, Fault>(statement),
    ensures
        fills_view(input.fills@).is_prefix_of(statement.fills),
        forall|i: int|
            0 <= i < statement.positions.len() ==> (#[trigger] statement.positions[i]).quantity == net(
                statement.fills,
                statement.positions[i].symbol,
            ) && statement.positions[i].quantity > 0 && shares(statement.positions[i].lots)
                == statement.positions[i].quantity,
        forall|symbol: Seq<char>|
            #![trigger net(statement.fills, symbol)]
            net(statement.fills, symbol) != 0 ==> (exists|i: int|
                0 <= i < statement.positions.len() && (#[trigger] statement.positions[i]).symbol
                    == symbol),
{
    let book = closing(input)->Ok_0;
    closed_account_explained(input, book);
    let order = text_map::in_order(book.lots.dom());
    holdings_match(book, order, input.marks_micros@);
    assert forall|i: int| 0 <= i < statement.positions.len() implies (
    #[trigger] statement.positions[i]).quantity == net(
        statement.fills,
        statement.positions[i].symbol,
    ) && statement.positions[i].quantity > 0 && shares(statement.positions[i].lots)
        == statement.positions[i].quantity by {
        let symbol = statement.positions[i].symbol;
        assert(shares(lots_of(book, symbol)) == net(book.fills, symbol));
        assert(book.lots.dom().contains(symbol));
        shares_grow(lots_of(book, symbol), 0);
    }
    assert forall|symbol: Seq<char>|
        #![trigger net(statement.fills, symbol)]
        net(statement.fills, symbol) != 0 implies (exists|i: int|
        0 <= i < statement.positions.len() && (#[trigger] statement.positions[i]).symbol == symbol) by {
        assert(shares(lots_of(book, symbol)) == net(book.fills, symbol));
        assert(book.lots.dom().contains(symbol));
        text_map::in_order_lists_members(book.lots.dom());
        assert(order.contains(symbol));
        let k = choose|k: int| 0 <= k < order.len() && order[k] == symbol;
        assert(lots_of(book, order[k]).len() > 0);
        let (positions, _, _) = hold_all(book, order, input.marks_micros@)->Ok_0;
        let i = choose|i: int| 0 <= i < positions.len() && (#[trigger] positions[i]).symbol == order[k];
        assert(statement.positions[i].symbol == symbol);
    }
}

/// The positions of listed symbols are their open lots, valued.
proof fn holdings_match(book: Book, symbols: Seq<Seq<char>>, marks: Map<Seq<char>, i64>)
    requires
        sound(book),
    ensures
        hold_all(book, symbols, marks) matches Ok((positions, value, unrealized)) ==> {
            &&& forall|i: int|
                0 <= i < positions.len() ==> symbols.contains((#[trigger] positions[i]).symbol)
                    && positions[i].lots == lots_of(book, positions[i].symbol) && positions[i].quantity
                    == shares(positions[i].lots) && positions[i].lots.len() > 0
            &&& forall|k: int|
                0 <= k < symbols.len() && lots_of(book, #[trigger] symbols[k]).len() > 0 ==> exists|
                    i: int,
                |
                    0 <= i < positions.len() && (#[trigger] positions[i]).symbol == symbols[k]
        },
    decreases symbols.len(),
{
    if symbols.len() > 0 {
        let earlier = symbols.drop_last();
        let last = symbols.last();
        holdings_match(book, earlier, marks);
        if let Ok((positions, value, unrealized)) = hold_all(book, symbols, marks) {
            let (before, _, _) = hold_all(book, earlier, marks)->Ok_0;
            assert forall|i: int| 0 <= i < positions.len() implies symbols.contains(
                (#[trigger] positions[i]).symbol,
            ) && positions[i].lots == lots_of(book, positions[i].symbol) && positions[i].quantity
                == shares(positions[i].lots) && positions[i].lots.len() > 0 by {
                if i < before.len() {
                    assert(positions[i] == before[i]);
                    let k = choose|k: int| 0 <= k < earlier.len() && earlier[k] == before[i].symbol;
                    assert(symbols[k] == before[i].symbol);
                } else {
                    assert(symbols[symbols.len() - 1] == last);
                }
            }
            assert forall|k: int|
                0 <= k < symbols.len() && lots_of(book, #[trigger] symbols[k]).len() > 0 implies exists|
                i: int,
            | 0 <= i < positions.len() && (#[trigger] positions[i]).symbol == symbols[k] by {
                if k < earlier.len() {
                    assert(earlier[k] == symbols[k]);
                    let i = choose|i: int|
                        0 <= i < before.len() && (#[trigger] before[i]).symbol == earlier[k];
                    assert(positions[i] == before[i]);
                } else {
                    assert(positions[before.len() as int].symbol == last);
                }
            }
        }
    }
}

/// Closing out at the end of the data leaves no position.
pub proof fn force_close_leaves_nothing(input: AccountingInput, statement: Statement)
    requires
        outcome(input) == Ok::<Statement, Fault>(statement),
        input.end_of_data == EndOfDataPolicy::ForceClose,
    ensures
        statement.positions.len() == 0,
        statement.market_value == 0,
        statement.unrealized == 0,
        statement.equity == statement.cash,
{
    let start = input.starting_cash_micros as int;
    let first = opening(start);
    let filled = book_fills(first, fills_view(input.fills@))->Ok_0;
    let entered = book_entries(filled, entries_view(input.cash_entries@))->Ok_0;
    let marked = AccountingInput { end_of_data: EndOfDataPolicy::MarkToMarket, ..input };
    closed_account_explained(marked, entered);
    let book = closing(input)->Ok_0;
    let symbols = text_map::in_order(entered.lots.dom());
    text_map::in_order_lists_members(entered.lots.dom());
    closing_explained(entered, symbols, input.marks_micros@, start);
    let order = text_map::in_order(book.lots.dom());
    text_map::in_order_lists_members(book.lots.dom());
    assert forall|k: int| 0 <= k < order.len() implies lots_of(book, #[trigger] order[k]).len() == 0 by {
        assert(order.contains(order[k]));
        assert(book.lots.dom().contains(order[k]));
        assert(entered.lots.dom().union(symbols.to_set()).contains(order[k]));
        assert(symbols.contains(order[k]));
    }
    empty_lots_hold_nothing(book, order, input.marks_micros@);
}

proof fn empty_lots_hold_nothing(book: Book, symbols: Seq<Seq<char>>, marks: Map<Seq<char>, i64>)
    requires
        forall|k: int| 0 <= k < symbols.len() ==> lots_of(book, #[trigger] symbols[k]).len() == 0,
    ensures
        hold_all(book, symbols, marks) == Ok::<(Seq<Holding>, int, int), Fault>(
            (Seq::empty(), 0, 0),
        ),
    decreases symbols.len(),
{
    if symbols.len() > 0 {
        let earlier = symbols.drop_last();
        assert forall|k: int| 0 <= k < earlier.len() implies lots_of(book, #[trigger] earlier[k]).len()
            == 0 by {
            assert(earlier[k] == symbols[k]);
        }
        empty_lots_hold_nothing(book, earlier, marks);
        assert(symbols[symbols.len() - 1] == symbols.last());
    }
}

/// The sale that closes a position at its mark.
pub open spec fn closing_sale(position: Holding) -> Fill {
    Fill {
        id: "force_close:"@ + position.symbol,
        symbol: position.symbol,
        side: FillSide::Sell,
        quantity: position.quantity,
        price: position.market_price,
        fee: 0,
    }
}

/// The sales that close positions at their marks, in their order.
pub open spec fn closing_sales(positions: Seq<Holding>) -> Seq<Fill> {
    positions.map_values(|h: Holding| closing_sale(h))
}

/// Selling what is left of each symbol of a list brings in what the positions of the list
/// are worth, and costs nothing.
proof fn closing_brings_in_the_value(book: Book, symbols: Seq<Seq<char>>, marks: Map<Seq<char>, i64>)
    requires
        sound(book),
        text::ascending(symbols),
        close_symbols(book, symbols, marks) is Ok,
        hold_all(book, symbols, marks) is Ok,
    ensures
        ({
            let closed = close_symbols(book, symbols, marks)->Ok_0;
            let (positions, value, unrealized) = hold_all(book, symbols, marks)->Ok_0;
            &&& closed.cash == book.cash + value
            &&& closed.costs == book.costs
            &&& closed.fills == book.fills + closing_sales(positions)
            &&& forall|symbol: Seq<char>|
                !symbols.contains(symbol) ==> #[trigger] lots_of(closed, symbol) == lots_of(
                    book,
                    symbol,
                )
        }),
    decreases symbols.len(),
{
    let closed = close_symbols(book, symbols, marks)->Ok_0;
    let (positions, value, unrealized) = hold_all(book, symbols, marks)->Ok_0;
    if symbols.len() == 0 {
        assert(closed.fills =~= book.fills + closing_sales(positions));
    } else {
        let earlier = symbols.drop_last();
        let last = symbols.last();
        assert(last == symbols[symbols.len() - 1]);
        closing_brings_in_the_value(book, earlier, marks);
        let so_far = close_symbols(book, earlier, marks)->Ok_0;
        let (before, _, _) = hold_all(book, earlier, marks)->Ok_0;
        assert(!earlier.contains(last)) by {
            if earlier.contains(last) {
                let k = choose|k: int| 0 <= k < earlier.len() && earlier[k] == last;
                assert(text::before(symbols[k], symbols[symbols.len() - 1]));
                text::before_irreflexive(last);
            }
        }
        let lots = lots_of(book, last);
        assert(lots_of(so_far, last) == lots);
        if lots.len() > 0 {
            assert(book.lots.dom().contains(last));
            shares_grow(lots, 0);
            let position = hold(last, lots, marks)->Ok_0;
            assert(closed.fills =~= so_far.fills.push(closing_sale(position)));
            assert(closing_sales(positions) =~= closing_sales(before).push(closing_sale(position)));
        }
        assert(closed.fills =~= book.fills + closing_sales(positions));
        assert forall|symbol: Seq<char>| !symbols.contains(symbol) implies #[trigger] lots_of(
            closed,
            symbol,
        ) == lots_of(book, symbol) by {
            if earlier.contains(symbol) {
                let k = choose|k: int| 0 <= k < earlier.len() && earlier[k] == symbol;
                assert(symbols[k] == symbol);
            }
            assert(symbols.contains(last));
            assert(lots_of(so_far, symbol) == lots_of(book, symbol));
        }
    }
}

proof fn booked_fills_are_kept(book: Book, fills: Seq<Fill>)
    ensures
        book_fills(book, fills) matches Ok(booked) ==> booked.fills == book.fills + fills,
    decreases fills.len(),
{
    if fills.len() == 0 {
        assert(book.fills + fills =~= book.fills);
    } else {
        booked_fills_are_kept(book, fills.drop_last());
        if let Ok(booked) = book_fills(book, fills) {
            assert(book.fills + fills =~= (book.fills + fills.drop_last()).push(fills.last()));
        }
    }
}

proof fn entries_keep_fills(book: Book, entries: Seq<Cash>)
    ensures
        book_entries(book, entries) matches Ok(entered) ==> entered.fills == book.fills,
    decreases entries.len(),
{
    if entries.len() > 0 {
        entries_keep_fills(book, entries.drop_last());
    }
}

/// Closing out at the end of the data is worth what marking is: the same equity, at the
/// same costs. What was filled stays as it is, and each position that marking leaves is
/// sold at its mark, free of charge.
pub proof fn force_close_is_worth_the_marks(
    input: AccountingInput,
    marked: Statement,
    closed: Statement,
)
    requires
        input.end_of_data == EndOfDataPolicy::MarkToMarket,
        outcome(input) == Ok::<Statement, Fault>(marked),
        outcome(AccountingInput { end_of_data: EndOfDataPolicy::ForceClose, ..input }) == Ok::<
            Statement,
            Fault,
        >(closed),
    ensures
        closed.equity == marked.equity,
        closed.costs == marked.costs,
        closed.positions.len() == 0,
        closed.market_value == 0,
        closed.unrealized == 0,
        marked.fills == fills_view(input.fills@),
        closed.fills == fills_view(input.fills@) + closing_sales(marked.positions),
{
    let other = AccountingInput { end_of_data: EndOfDataPolicy::ForceClose, ..input };
    let marks = input.marks_micros@;
    let first = opening(input.starting_cash_micros as int);
    let filled = book_fills(first, fills_view(input.fills@))->Ok_0;
    let entered = book_entries(filled, entries_view(input.cash_entries@))->Ok_0;
    closed_account_explained(input, entered);
    let symbols = text_map::in_order(entered.lots.dom());
    text_map::in_order_lists_members(entered.lots.dom());
    closing_brings_in_the_value(entered, symbols, marks);
    force_close_leaves_nothing(other, closed);
    booked_fills_are_kept(first, fills_view(input.fills@));
    entries_keep_fills(filled, entries_view(input.cash_entries@));
    assert(first.fills + fills_view(input.fills@) =~= fills_view(input.fills@));
}

} // verus!

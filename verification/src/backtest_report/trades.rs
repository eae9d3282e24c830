//! The trades of a backtest: every sale is matched with the oldest open purchases of
//! its symbol, and what stays open is valued at the end of the data.

use vstd::prelude::*;

use crate::backtest_accounting;
use crate::backtest_accounting::Position;
use crate::backtest_engine;
use crate::backtest_engine::scaled_notional;
use crate::json;
use crate::json::{Json, JsonMap, JsonTree};
use crate::sorting;
use crate::sorting::stable_sort;
use crate::text;
use crate::text::{copy_option, is_before, join2, join5, same};
use crate::text_map;
use crate::text_map::TextMap;

use super::details;
use super::details::{
    asset_class_name, instrument_details_from_content, AssetClass, BacktestInstrumentDetails,
    DetailsView, ReportSnapshot,
};

verus! {

/// Why no report can be made.
#[derive(Debug)]
pub enum ReportFault {
    /// The code of a refusal.
    Refused(String),
    /// A gain or a fee is out of the range of its type.
    Overflow,
}

/// What a [`ReportFault`] says.
#[verifier::ext_equal]
pub enum FaultView {
    Refused(Seq<char>),
    Overflow,
}

impl View for ReportFault {
    type V = FaultView;

    open spec fn view(&self) -> FaultView {
        match self {
            ReportFault::Refused(code) => FaultView::Refused(code@),
            ReportFault::Overflow => FaultView::Overflow,
        }
    }
}

/// Refuses with a code.
pub fn refuse<T>(code: &str) -> (r: Result<T, ReportFault>)
    ensures
        r matches Err(e) && e@ == FaultView::Refused(code@),
{
    Err(ReportFault::Refused(code.to_owned()))
}

/// The refusal of a fill that cannot be matched.
pub open spec fn bad_fill() -> FaultView {
    FaultView::Refused("backtest_report_fill_invalid"@)
}

/// The refusal of an amount that cannot be stated.
pub open spec fn bad_amount() -> FaultView {
    FaultView::Refused("backtest_report_accounting_invalid"@)
}

/// One trade.
#[derive(Debug)]
pub struct BacktestTrade {
    pub trade_id: String,
    pub symbol: String,
    pub instrument_type: String,
    pub instrument_details: BacktestInstrumentDetails,
    pub side: String,
    pub quantity_micros: i64,
    pub entry: Json,
    pub exit: Option<Json>,
    pub terminal_valuation: Option<Json>,
    pub realized: bool,
    pub pnl_micros: Option<i64>,
    pub fee_micros: i64,
    pub holding_interval_ms: Option<i64>,
    pub order_refs: Vec<String>,
    pub fill_refs: Vec<String>,
    pub ledger_refs: Vec<String>,
}

/// What a [`BacktestTrade`] says.
#[verifier::ext_equal]
pub struct TradeView {
    pub trade_id: Seq<char>,
    pub symbol: Seq<char>,
    pub instrument_type: Seq<char>,
    pub instrument_details: DetailsView,
    pub side: Seq<char>,
    pub quantity: int,
    pub entry: JsonTree,
    pub exit: Option<JsonTree>,
    pub terminal_valuation: Option<JsonTree>,
    pub realized: bool,
    pub pnl: Option<int>,
    pub fee: int,
    pub holding_interval_ms: Option<int>,
    pub order_refs: Seq<Seq<char>>,
    pub fill_refs: Seq<Seq<char>>,
    pub ledger_refs: Seq<Seq<char>>,
}

/// What an optional value stands for.
pub open spec fn tree_of(value: Option<Json>) -> Option<JsonTree> {
    match value {
        Some(v) => Some(v@),
        None => None,
    }
}

/// An optional number.
pub open spec fn number_of(value: Option<i64>) -> Option<int> {
    match value {
        Some(n) => Some(n as int),
        None => None,
    }
}

impl View for BacktestTrade {
    type V = TradeView;

    open spec fn view(&self) -> TradeView {
        TradeView {
            trade_id: self.trade_id@,
            symbol: self.symbol@,
            instrument_type: self.instrument_type@,
            instrument_details: self.instrument_details@,
            side: self.side@,
            quantity: self.quantity_micros as int,
            entry: self.entry@,
            exit: tree_of(self.exit),
            terminal_valuation: tree_of(self.terminal_valuation),
            realized: self.realized,
            pnl: number_of(self.pnl_micros),
            fee: self.fee_micros as int,
            holding_interval_ms: number_of(self.holding_interval_ms),
            order_refs: text::texts(self.order_refs@),
            fill_refs: text::texts(self.fill_refs@),
            ledger_refs: text::texts(self.ledger_refs@),
        }
    }
}

/// A quotient without its fraction.
pub open spec fn truncated(n: int, d: int) -> int {
    if n >= 0 {
        n / d
    } else {
        -((-n) / d)
    }
}

/// The share of a total that falls to a part of a whole.
pub open spec fn share_of(total: int, quantity: int, whole: int) -> Result<int, FaultView> {
    if whole <= 0 {
        Err(bad_fill())
    } else if backtest_accounting::fits(truncated(total * quantity, whole)) {
        Ok(truncated(total * quantity, whole))
    } else {
        Err(bad_amount())
    }
}

/// Computes the share of a total that falls to a part of a whole.
pub fn prorate(total: i64, quantity: i64, whole: i64) -> (r: Result<i64, ReportFault>)
    ensures
        match (r, share_of(total as int, quantity as int, whole as int)) {
            (Ok(n), Ok(m)) => n == m,
            (Err(e), Err(f)) => e@ == f,
            _ => false,
        },
{
    if whole <= 0 {
        return refuse("backtest_report_fill_invalid");
    }
    proof {
        assert(-0x4000_0000_0000_0000_0000_0000_0000_0000 <= total * quantity
            <= 0x4000_0000_0000_0000_0000_0000_0000_0000) by (nonlinear_arith)
            requires
                -0x8000_0000_0000_0000 <= total <= 0x7fff_ffff_ffff_ffff,
                -0x8000_0000_0000_0000 <= quantity <= 0x7fff_ffff_ffff_ffff,
        ;
    }
    let product: i128 = (total as i128) * (quantity as i128);
    let whole_wide: i128 = whole as i128;
    proof {
        let size: int = if product >= 0 {
            product as int
        } else {
            -(product as int)
        };
        vstd::arithmetic::div_mod::lemma_div_pos_is_pos(size, whole as int);
        vstd::arithmetic::div_mod::lemma_div_nonincreasing(size, whole as int);
    }
    let share: i128 = if product >= 0 {
        product / whole_wide
    } else {
        -((-product) / whole_wide)
    };
    if share < -0x8000_0000_0000_0000 || share > 0x7fff_ffff_ffff_ffff {
        return refuse("backtest_report_accounting_invalid");
    }
    Ok(share as i64)
}

/// What a quantity is worth at a price.
pub open spec fn worth_of(quantity: int, price: int) -> Result<int, FaultView> {
    if backtest_accounting::fits(backtest_engine::scaled_worth(quantity, price)) {
        Ok(backtest_engine::scaled_worth(quantity, price))
    } else {
        Err(bad_amount())
    }
}

/// Computes what a quantity is worth at a price.
pub fn notional(quantity: i64, price: i64) -> (r: Result<i64, ReportFault>)
    ensures
        match (r, worth_of(quantity as int, price as int)) {
            (Ok(n), Ok(m)) => n == m,
            (Err(e), Err(f)) => e@ == f,
            _ => false,
        },
{
    match scaled_notional(quantity, price) {
        Ok(n) => Ok(n),
        Err(_) => refuse("backtest_report_accounting_invalid"),
    }
}

/// The milliseconds since the epoch of a point in time that is written as RFC 3339 says;
/// none where it is not.
pub uninterp spec fn rfc3339_millis_of(value: Seq<char>) -> Option<i64>;

/// Reads a point in time: `chrono::DateTime::parse_from_rfc3339`, and of what it gives
/// `timestamp_millis`. The contract says only that the result depends on the text alone.
#[verifier::external_body]
fn rfc3339_millis(value: &str) -> (r: Option<i64>)
    ensures
        r == rfc3339_millis_of(value@),
{
    match chrono::DateTime::parse_from_rfc3339(value) {
        Ok(moment) => Some(moment.timestamp_millis()),
        Err(_) => None,
    }
}

/// What a marker says of the state of its trade.
pub open spec fn lifecycle_text(kind: Seq<char>) -> Seq<char> {
    if kind == "exit"@ {
        "closed"@
    } else if kind == "terminal_valuation"@ {
        "terminal_valued"@
    } else {
        "open"@
    }
}

/// When a marker was set.
pub open spec fn moment_tree(timestamp: Option<Seq<char>>) -> JsonTree {
    match timestamp {
        Some(t) => match rfc3339_millis_of(t) {
            Some(n) => JsonTree::Int(n as int),
            None => JsonTree::Null,
        },
        None => JsonTree::Null,
    }
}

/// A marker: one end of a trade.
pub open spec fn marker_tree(
    fill_id: Seq<char>,
    symbol: Seq<char>,
    kind: Seq<char>,
    quantity: int,
    price: int,
    timestamp: Option<Seq<char>>,
    terminal: bool,
) -> JsonTree {
    JsonTree::Object(
        map![
            "fillId"@ => JsonTree::Text(fill_id),
            "symbol"@ => JsonTree::Text(symbol),
            "kind"@ => JsonTree::Text(kind),
            "quantityMicros"@ => JsonTree::Int(quantity),
            "priceMicros"@ => JsonTree::Int(price),
            "timestamp"@ => json::text_or_null(timestamp),
            "terminal"@ => JsonTree::Bool(terminal),
            "lifecycleState"@ => JsonTree::Text(lifecycle_text(kind)),
            "occurredAtMs"@ => moment_tree(timestamp),
        ],
    )
}

/// Makes a marker.
pub fn marker(
    fill_id: &str,
    symbol: &str,
    kind: &str,
    quantity: i64,
    price: i64,
    timestamp: &Option<String>,
    terminal: bool,
) -> (r: Json)
    ensures
        r@ == marker_tree(
            fill_id@,
            symbol@,
            kind@,
            quantity as int,
            price as int,
            text::option_text(*timestamp),
            terminal,
        ),
{
    let state: &str = if same(kind, "exit") {
        "closed"
    } else if same(kind, "terminal_valuation") {
        "terminal_valued"
    } else {
        "open"
    };
    let moment: Json = match timestamp {
        Some(t) => match rfc3339_millis(t.as_str()) {
            Some(n) => Json::Int(n),
            None => Json::Null,
        },
        None => Json::Null,
    };
    Json::object(
        JsonMap::new().with("fillId", Json::text(fill_id)).with("symbol", Json::text(symbol)).with(
            "kind",
            Json::text(kind),
        ).with("quantityMicros", Json::Int(quantity)).with("priceMicros", Json::Int(price)).with(
            "timestamp",
            Json::optional_text(timestamp),
        ).with("terminal", Json::Bool(terminal)).with("lifecycleState", Json::text(state)).with(
            "occurredAtMs",
            moment,
        ),
    )
}

/// The entries of the ledger that belong to some fills.
pub open spec fn ledger_names(fill_ids: Seq<Seq<char>>) -> Seq<Seq<char>>
    decreases fill_ids.len(),
{
    if fill_ids.len() == 0 {
        Seq::empty()
    } else {
        ledger_names(fill_ids.drop_last()).push(fill_ids.last() + ":notional"@).push(
            fill_ids.last() + ":fee"@,
        )
    }
}

/// Names the entries of the ledger that belong to some fills.
pub fn ledger_refs(fill_ids: &Vec<String>) -> (r: Vec<String>)
    ensures
        text::texts(r@) == ledger_names(text::texts(fill_ids@)),
{
    let ghost shown = text::texts(fill_ids@);
    let mut out: Vec<String> = Vec::new();
    let mut i: usize = 0;
    proof {
        assert(shown.take(0) =~= Seq::empty());
        assert(text::texts(out@) =~= Seq::empty());
    }
    while i < fill_ids.len()
        invariant
            i <= fill_ids.len(),
            shown == text::texts(fill_ids@),
            text::texts(out@) == ledger_names(shown.take(i as int)),
        decreases fill_ids.len() - i,
    {
        let ghost before = text::texts(out@);
        let worth = join2(fill_ids[i].as_str(), ":notional");
        let fee = join2(fill_ids[i].as_str(), ":fee");
        out.push(worth);
        out.push(fee);
        proof {
            assert(shown.take(i + 1).drop_last() =~= shown.take(i as int));
            assert(shown.take(i + 1).last() == fill_ids@[i as int]@);
            assert(text::texts(out@) =~= before.push(worth@).push(fee@));
        }
        i += 1;
    }
    assert(shown.take(shown.len() as int) =~= shown);
    out
}

/// A purchase of which something is still held.
#[derive(Debug)]
pub struct OpenLot {
    pub fill_id: String,
    pub quantity: i64,
    pub price: i64,
    pub fee: i64,
    pub timestamp: Option<String>,
}

/// What an [`OpenLot`] says.
#[verifier::ext_equal]
pub struct LotView {
    pub fill_id: Seq<char>,
    pub quantity: int,
    pub price: int,
    pub fee: int,
    pub timestamp: Option<Seq<char>>,
}

impl View for OpenLot {
    type V = LotView;

    open spec fn view(&self) -> LotView {
        LotView {
            fill_id: self.fill_id@,
            quantity: self.quantity as int,
            price: self.price as int,
            fee: self.fee as int,
            timestamp: text::option_text(self.timestamp),
        }
    }
}

/// A fill as a report reads it.
#[derive(Debug)]
pub struct ReportFill {
    pub symbol: String,
    pub side: String,
    pub quantity: i64,
    pub price: i64,
    pub fee: i64,
    pub fill_id: String,
    pub timestamp: Option<String>,
    pub end_of_data: bool,
}

/// What a [`ReportFill`] says.
#[verifier::ext_equal]
pub struct FillView {
    pub symbol: Seq<char>,
    pub side: Seq<char>,
    pub quantity: int,
    pub price: int,
    pub fee: int,
    pub fill_id: Seq<char>,
    pub timestamp: Option<Seq<char>>,
    pub end_of_data: bool,
}

impl View for ReportFill {
    type V = FillView;

    open spec fn view(&self) -> FillView {
        FillView {
            symbol: self.symbol@,
            side: self.side@,
            quantity: self.quantity as int,
            price: self.price as int,
            fee: self.fee as int,
            fill_id: self.fill_id@,
            timestamp: text::option_text(self.timestamp),
            end_of_data: self.end_of_data,
        }
    }
}

/// A text that must be there and say something.
pub open spec fn needed_text(tree: JsonTree, key: Seq<char>) -> Option<Seq<char>> {
    match json::text_member(tree, key) {
        Some(t) => if t.len() > 0 {
            Some(t)
        } else {
            None
        },
        None => None,
    }
}

fn required_text(value: &Json, key: &str) -> (r: Option<String>)
    ensures
        text::option_text(r) == needed_text(value@, key@),
{
    match value.text_field(key) {
        Some(t) => if same(t.as_str(), "") {
            proof {
                reveal_strlit("");
            }
            None
        } else {
            proof {
                reveal_strlit("");
                if t@.len() == 0 {
                    assert(t@ =~= ""@);
                }
            }
            Some(t)
        },
        None => None,
    }
}

/// Whether a value says that it comes from the end of the data.
pub open spec fn at_end(tree: JsonTree) -> bool {
    json::member(tree, "endOfData"@) == Some(JsonTree::Bool(true))
}

/// The fill that a value tells of; none where a part is missing.
pub open spec fn fill_of(tree: JsonTree) -> Option<FillView> {
    match (
        needed_text(tree, "symbol"@),
        needed_text(tree, "side"@),
        json::i64_member(tree, "quantityMicros"@),
        json::i64_member(tree, "priceMicros"@),
        json::i64_member(tree, "feeMicros"@),
        needed_text(tree, "fillId"@),
    ) {
        (
            Some(symbol),
            Some(side),
            Some(quantity),
            Some(price),
            Some(fee),
            Some(fill_id),
        ) => Some(
            FillView {
                symbol,
                side,
                quantity,
                price,
                fee,
                fill_id,
                timestamp: json::text_member(tree, "executionTimestamp"@),
                end_of_data: at_end(tree),
            },
        ),
        _ => None,
    }
}

/// Reads the fill that a value tells of.
pub fn read_fill(value: &Json) -> (r: Option<ReportFill>)
    ensures
        match (r, fill_of(value@)) {
            (Some(fill), Some(shown)) => fill@ == shown,
            (None, None) => true,
            _ => false,
        },
{
    let symbol = required_text(value, "symbol")?;
    let side = required_text(value, "side")?;
    let quantity: i64 = value.i64_field("quantityMicros")?;
    let price: i64 = value.i64_field("priceMicros")?;
    let fee: i64 = value.i64_field("feeMicros")?;
    let fill_id = required_text(value, "fillId")?;
    let timestamp = value.text_field("executionTimestamp");
    let end_of_data: bool = match value.field("endOfData") {
        Some(Json::Bool(b)) => *b,
        _ => false,
    };
    Some(ReportFill { symbol, side, quantity, price, fee, fill_id, timestamp, end_of_data })
}

/// The kind of an instrument as a trade names it.
pub open spec fn type_text(class: Option<AssetClass>) -> Seq<char> {
    match class {
        Some(c) => details::class_text(c),
        None => "unspecified"@,
    }
}

fn kind_of_instrument(class: Option<AssetClass>) -> (r: String)
    ensures
        r@ == type_text(class),
{
    match class {
        Some(c) => asset_class_name(c).to_owned(),
        None => "unspecified".to_owned(),
    }
}

/// What remains of a number after some others are taken from it, one after another.
pub open spec fn remains(worth: int, cost: int, first_fee: int, second_fee: int) -> Option<int> {
    if backtest_accounting::fits(worth - cost) && backtest_accounting::fits(
        worth - cost - first_fee,
    ) && backtest_accounting::fits(worth - cost - first_fee - second_fee) {
        Some(worth - cost - first_fee - second_fee)
    } else {
        None
    }
}

fn gain(worth: i64, cost: i64, first_fee: i64, second_fee: i64) -> (r: Option<i64>)
    ensures
        number_of(r) == remains(worth as int, cost as int, first_fee as int, second_fee as int),
{
    let bare: i64 = worth.checked_sub(cost)?;
    let less: i64 = bare.checked_sub(first_fee)?;
    less.checked_sub(second_fee)
}

/// The amounts of a matched quantity: the gain, the fees of the purchase, and those of
/// the sale.
pub open spec fn matched_amounts(lot: LotView, fill: FillView, matched: int) -> Result<
    (int, int, int),
    FaultView,
> {
    match share_of(lot.fee, matched, lot.quantity) {
        Err(f) => Err(f),
        Ok(entry_fee) => match share_of(fill.fee, matched, fill.quantity) {
            Err(f) => Err(f),
            Ok(exit_fee) => match worth_of(matched, fill.price) {
                Err(f) => Err(f),
                Ok(worth) => match worth_of(matched, lot.price) {
                    Err(f) => Err(f),
                    Ok(cost) => match remains(worth, cost, entry_fee, exit_fee) {
                        None => Err(FaultView::Overflow),
                        Some(pnl) => Ok((pnl, entry_fee, exit_fee)),
                    },
                },
            },
        },
    }
}

fn match_amounts(lot: &OpenLot, fill: &ReportFill, matched: i64) -> (r: Result<
    (i64, i64, i64),
    ReportFault,
>)
    ensures
        match (r, matched_amounts(lot@, fill@, matched as int)) {
            (Ok(a), Ok(b)) => a.0 == b.0 && a.1 == b.1 && a.2 == b.2,
            (Err(e), Err(f)) => e@ == f,
            _ => false,
        },
{
    let entry_fee: i64 = prorate(lot.fee, matched, lot.quantity)?;
    let exit_fee: i64 = prorate(fill.fee, matched, fill.quantity)?;
    let worth: i64 = notional(matched, fill.price)?;
    let cost: i64 = notional(matched, lot.price)?;
    match gain(worth, cost, entry_fee, exit_fee) {
        Some(pnl) => Ok((pnl, entry_fee, exit_fee)),
        None => Err(ReportFault::Overflow),
    }
}

/// What a report says of an instrument, or that it cannot.
pub open spec fn evidence(
    snapshot: ReportSnapshot,
    symbol: Seq<char>,
    observed_at: Option<Seq<char>>,
) -> Result<DetailsView, FaultView> {
    match details::details_of(
        snapshot.observations@,
        snapshot.asset_classes@,
        symbol,
        observed_at,
    ) {
        Some(d) => Ok(d),
        None => Err(FaultView::Refused("backtest_report_instrument_integrity_failed"@)),
    }
}

/// Says what a snapshot says of an instrument.
pub fn instrument_details(
    snapshot: &ReportSnapshot,
    symbol: &str,
    observed_at: &Option<String>,
) -> (r: Result<BacktestInstrumentDetails, ReportFault>)
    ensures
        match (r, evidence(*snapshot, symbol@, text::option_text(*observed_at))) {
            (Ok(d), Ok(shown)) => d@ == shown,
            (Err(e), Err(f)) => e@ == f,
            _ => false,
        },
{
    match instrument_details_from_content(
        &snapshot.observations,
        &snapshot.asset_classes,
        symbol,
        observed_at,
    ) {
        Ok(d) => Ok(d),
        Err(code) => Err(ReportFault::Refused(code)),
    }
}

/// The trade that a matched quantity makes.
pub open spec fn closed_trade(
    snapshot: ReportSnapshot,
    lot: LotView,
    fill: FillView,
    matched: int,
) -> Result<TradeView, FaultView> {
    match matched_amounts(lot, fill, matched) {
        Err(f) => Err(f),
        Ok((pnl, entry_fee, exit_fee)) => match evidence(snapshot, fill.symbol, lot.timestamp) {
            Err(f) => Err(f),
            Ok(d) => if !backtest_accounting::fits(entry_fee + exit_fee) {
                Err(FaultView::Overflow)
            } else {
                Ok(
                    TradeView {
                        trade_id: fill.symbol + ":"@ + lot.fill_id + ":"@ + fill.fill_id,
                        symbol: fill.symbol,
                        instrument_type: type_text(d.asset_class),
                        instrument_details: d,
                        side: "long"@,
                        quantity: matched,
                        entry: marker_tree(
                            lot.fill_id,
                            fill.symbol,
                            "entry"@,
                            matched,
                            lot.price,
                            lot.timestamp,
                            false,
                        ),
                        exit: Some(
                            marker_tree(
                                fill.fill_id,
                                fill.symbol,
                                "exit"@,
                                matched,
                                fill.price,
                                fill.timestamp,
                                fill.end_of_data,
                            ),
                        ),
                        terminal_valuation: None,
                        realized: true,
                        pnl: Some(pnl),
                        fee: entry_fee + exit_fee,
                        holding_interval_ms: None,
                        order_refs: Seq::empty(),
                        fill_refs: seq![lot.fill_id, fill.fill_id],
                        ledger_refs: ledger_names(seq![lot.fill_id, fill.fill_id]),
                    },
                )
            },
        },
    }
}

fn close_trade(snapshot: &ReportSnapshot, lot: &OpenLot, fill: &ReportFill, matched: i64) -> (r:
    Result<BacktestTrade, ReportFault>)
    ensures
        match (r, closed_trade(*snapshot, lot@, fill@, matched as int)) {
            (Ok(t), Ok(shown)) => t@ == shown,
            (Err(e), Err(f)) => e@ == f,
            _ => false,
        },
{
    let (pnl, entry_fee, exit_fee): (i64, i64, i64) = match_amounts(lot, fill, matched)?;
    let found = instrument_details(snapshot, fill.symbol.as_str(), &lot.timestamp)?;
    let fee: i64 = match entry_fee.checked_add(exit_fee) {
        Some(n) => n,
        None => {
            return Err(ReportFault::Overflow);
        },
    };
    let fill_refs: Vec<String> = vec![lot.fill_id.clone(), fill.fill_id.clone()];
    let ledger = ledger_refs(&fill_refs);
    let trade = BacktestTrade {
        trade_id: join5(
            fill.symbol.as_str(),
            ":",
            lot.fill_id.as_str(),
            ":",
            fill.fill_id.as_str(),
        ),
        symbol: fill.symbol.clone(),
        instrument_type: kind_of_instrument(found.asset_class),
        instrument_details: found,
        side: "long".to_owned(),
        quantity_micros: matched,
        entry: marker(
            lot.fill_id.as_str(),
            fill.symbol.as_str(),
            "entry",
            matched,
            lot.price,
            &lot.timestamp,
            false,
        ),
        exit: Some(
            marker(
                fill.fill_id.as_str(),
                fill.symbol.as_str(),
                "exit",
                matched,
                fill.price,
                &fill.timestamp,
                fill.end_of_data,
            ),
        ),
        terminal_valuation: None,
        realized: true,
        pnl_micros: Some(pnl),
        fee_micros: fee,
        holding_interval_ms: None,
        order_refs: Vec::new(),
        fill_refs,
        ledger_refs: ledger,
    };
    proof {
        assert(trade@.fill_refs =~= seq![lot@.fill_id, fill@.fill_id]);
        assert(trade@.order_refs =~= Seq::empty());
    }
    Ok(trade)
}

/// The trade that a purchase makes of which something is held at the end, at the price
/// of the position.
pub open spec fn held_trade(
    snapshot: ReportSnapshot,
    symbol: Seq<char>,
    lot: LotView,
    market_price: int,
) -> Result<TradeView, FaultView> {
    match worth_of(lot.quantity, market_price) {
        Err(f) => Err(f),
        Ok(worth) => match worth_of(lot.quantity, lot.price) {
            Err(f) => Err(f),
            Ok(cost) => match remains(worth, cost, lot.fee, 0) {
                None => Err(FaultView::Overflow),
                Some(pnl) => match evidence(snapshot, symbol, lot.timestamp) {
                    Err(f) => Err(f),
                    Ok(d) => Ok(
                        TradeView {
                            trade_id: symbol + ":"@ + lot.fill_id + ":open"@,
                            symbol,
                            instrument_type: type_text(d.asset_class),
                            instrument_details: d,
                            side: "long"@,
                            quantity: lot.quantity,
                            entry: marker_tree(
                                lot.fill_id,
                                symbol,
                                "entry"@,
                                lot.quantity,
                                lot.price,
                                lot.timestamp,
                                false,
                            ),
                            exit: None,
                            terminal_valuation: Some(
                                marker_tree(
                                    lot.fill_id + ":valuation"@,
                                    symbol,
                                    "terminal_valuation"@,
                                    lot.quantity,
                                    market_price,
                                    Some(snapshot.last_timestamp@),
                                    true,
                                ),
                            ),
                            realized: false,
                            pnl: Some(pnl),
                            fee: lot.fee,
                            holding_interval_ms: None,
                            order_refs: Seq::empty(),
                            fill_refs: seq![lot.fill_id],
                            ledger_refs: ledger_names(seq![lot.fill_id]),
                        },
                    ),
                },
            },
        },
    }
}

fn hold_trade(snapshot: &ReportSnapshot, symbol: &str, lot: &OpenLot, market_price: i64) -> (r:
    Result<BacktestTrade, ReportFault>)
    ensures
        match (r, held_trade(*snapshot, symbol@, lot@, market_price as int)) {
            (Ok(t), Ok(shown)) => t@ == shown,
            (Err(e), Err(f)) => e@ == f,
            _ => false,
        },
{
    let worth: i64 = notional(lot.quantity, market_price)?;
    let cost: i64 = notional(lot.quantity, lot.price)?;
    let pnl: i64 = match gain(worth, cost, lot.fee, 0) {
        Some(n) => n,
        None => {
            return Err(ReportFault::Overflow);
        },
    };
    let found = instrument_details(snapshot, symbol, &lot.timestamp)?;
    let fill_refs: Vec<String> = vec![lot.fill_id.clone()];
    let ledger = ledger_refs(&fill_refs);
    let valued = join2(lot.fill_id.as_str(), ":valuation");
    let last: Option<String> = Some(snapshot.last_timestamp.clone());
    let trade = BacktestTrade {
        trade_id: crate::text::join4(symbol, ":", lot.fill_id.as_str(), ":open"),
        symbol: symbol.to_owned(),
        instrument_type: kind_of_instrument(found.asset_class),
        instrument_details: found,
        side: "long".to_owned(),
        quantity_micros: lot.quantity,
        entry: marker(
            lot.fill_id.as_str(),
            symbol,
            "entry",
            lot.quantity,
            lot.price,
            &lot.timestamp,
            false,
        ),
        exit: None,
        terminal_valuation: Some(
            marker(
                valued.as_str(),
                symbol,
                "terminal_valuation",
                lot.quantity,
                market_price,
                &last,
                true,
            ),
        ),
        realized: false,
        pnl_micros: Some(pnl),
        fee_micros: lot.fee,
        holding_interval_ms: None,
        order_refs: Vec::new(),
        fill_refs,
        ledger_refs: ledger,
    };
    proof {
        assert(trade@.fill_refs =~= seq![lot@.fill_id]);
        assert(trade@.order_refs =~= Seq::empty());
    }
    Ok(trade)
}

/// What is left of the open purchases after a sale, and the trades that it makes: the
/// oldest purchases are sold first.
pub open spec fn sold(
    snapshot: ReportSnapshot,
    lots: Seq<LotView>,
    fill: FillView,
    remaining: int,
) -> Result<(Seq<LotView>, Seq<TradeView>), FaultView>
    decreases lots.len(),
{
    if remaining <= 0 {
        Ok((lots, Seq::empty()))
    } else if lots.len() == 0 {
        Err(bad_fill())
    } else {
        let lot = lots[0];
        let matched = backtest_accounting::least(lot.quantity, remaining);
        match closed_trade(snapshot, lot, fill, matched) {
            Err(f) => Err(f),
            Ok(trade) => if matched < lot.quantity {
                Ok(
                    (
                        lots.update(0, LotView { quantity: lot.quantity - matched, ..lot }),
                        seq![trade],
                    ),
                )
            } else {
                match sold(snapshot, lots.skip(1), fill, remaining - matched) {
                    Err(f) => Err(f),
                    Ok((left, more)) => Ok((left, seq![trade] + more)),
                }
            },
        }
    }
}

/// What some open purchases say.
pub open spec fn lot_views(list: Seq<OpenLot>) -> Seq<LotView> {
    list.map_values(|lot: OpenLot| lot@)
}

/// What some trades say.
pub open spec fn trade_views(list: Seq<BacktestTrade>) -> Seq<TradeView> {
    list.map_values(|t: BacktestTrade| t@)
}

fn put_trade(trades: &mut Vec<BacktestTrade>, trade: BacktestTrade)
    ensures
        trade_views(final(trades)@) == trade_views(old(trades)@).push(trade@),
{
    let ghost before = trade_views(trades@);
    trades.push(trade);
    assert(trade_views(trades@) =~= before.push(trade@));
}

/// Sells from the oldest of some open purchases.
fn sell(
    snapshot: &ReportSnapshot,
    lots: &mut Vec<OpenLot>,
    fill: &ReportFill,
    trades: &mut Vec<BacktestTrade>,
) -> (r: Result<(), ReportFault>)
    ensures
        match (r, sold(*snapshot, lot_views(old(lots)@), fill@, fill@.quantity)) {
            (Ok(_), Ok((left, more))) => lot_views(final(lots)@) == left && trade_views(
                final(trades)@,
            ) == trade_views(old(trades)@) + more,
            (Err(e), Err(f)) => e@ == f,
            _ => false,
        },
{
    let ghost all = sold(*snapshot, lot_views(lots@), fill@, fill@.quantity);
    let ghost before = trade_views(trades@);
    let mut remaining: i64 = fill.quantity;
    proof {
        assert(trade_views(trades@) =~= before + Seq::empty());
    }
    while remaining > 0
        invariant
            all == sold(*snapshot, lot_views(old(lots)@), fill@, fill@.quantity),
            before == trade_views(old(trades)@),
            remaining <= fill.quantity,
            match (all, sold(*snapshot, lot_views(lots@), fill@, remaining as int)) {
                (Ok((left, more)), Ok((left_now, more_now))) => left == left_now && before + more
                    == trade_views(trades@) + more_now,
                (Err(f), Err(g)) => f == g,
                _ => false,
            },
        decreases lots@.len(), (if remaining > 0 {
            remaining as int
        } else {
            0
        }),
    {
        if lots.len() == 0 {
            return refuse("backtest_report_fill_invalid");
        }
        let ghost now = lot_views(lots@);
        let ghost shown = trade_views(trades@);
        assert(now[0] == lots@[0]@);
        let matched: i64 = if lots[0].quantity < remaining {
            lots[0].quantity
        } else {
            remaining
        };
        let trade = close_trade(snapshot, &lots[0], fill, matched)?;
        let ghost made = trade@;
        put_trade(trades, trade);
        proof {
            assert(lots@[0].quantity > 0);
        }
        if matched < lots[0].quantity {
            let first = lots.remove(0);
            let rest: i64 = first.quantity - matched;
            let ghost kept = lots@;
            lots.insert(
                0,
                OpenLot {
                    fill_id: first.fill_id,
                    quantity: rest,
                    price: first.price,
                    fee: first.fee,
                    timestamp: first.timestamp,
                },
            );
            remaining = 0;
            proof {
                let left = now.update(0, LotView { quantity: now[0].quantity - matched, ..now[0] });
                assert(lot_views(lots@) =~= left);
                assert(trade_views(trades@) =~= shown + seq![made]);
                assert(trade_views(trades@) + Seq::<TradeView>::empty() =~= trade_views(trades@));
            }
        } else {
            lots.remove(0);
            remaining = remaining - matched;
            proof {
                assert(lot_views(lots@) =~= now.skip(1));
                match sold(*snapshot, now.skip(1), fill@, remaining as int) {
                    Ok((left_now, more_now)) => {
                        assert(shown + (seq![made] + more_now) =~= trade_views(trades@) + more_now);
                    },
                    Err(_) => {},
                }
            }
        }
    }
    proof {
        assert(trade_views(trades@) + Seq::<TradeView>::empty() =~= trade_views(trades@));
    }
    Ok(())
}

/// The open purchases by symbol, and the trades so far.
#[verifier::ext_equal]
pub struct MatchBook {
    pub open: Map<Seq<char>, Seq<LotView>>,
    pub trades: Seq<TradeView>,
}

/// The open purchases of a symbol.
pub open spec fn open_lots(open: Map<Seq<char>, Seq<LotView>>, symbol: Seq<char>) -> Seq<LotView> {
    if open.dom().contains(symbol) {
        open[symbol]
    } else {
        Seq::empty()
    }
}

/// What one fill does to the book.
pub open spec fn match_fill(snapshot: ReportSnapshot, book: MatchBook, tree: JsonTree) -> Result<
    MatchBook,
    FaultView,
> {
    match fill_of(tree) {
        None => Err(bad_fill()),
        Some(fill) => if fill.side == "buy"@ {
            Ok(
                MatchBook {
                    open: book.open.insert(
                        fill.symbol,
                        open_lots(book.open, fill.symbol).push(
                            LotView {
                                fill_id: fill.fill_id,
                                quantity: fill.quantity,
                                price: fill.price,
                                fee: fill.fee,
                                timestamp: fill.timestamp,
                            },
                        ),
                    ),
                    trades: book.trades,
                },
            )
        } else if fill.side == "sell"@ {
            match sold(snapshot, open_lots(book.open, fill.symbol), fill, fill.quantity) {
                Err(f) => Err(f),
                Ok((left, more)) => Ok(
                    MatchBook {
                        open: book.open.insert(fill.symbol, left),
                        trades: book.trades + more,
                    },
                ),
            }
        } else {
            Err(bad_fill())
        },
    }
}

/// The book after some fills, one after another.
pub open spec fn match_fills(snapshot: ReportSnapshot, fills: Seq<JsonTree>) -> Result<
    MatchBook,
    FaultView,
>
    decreases fills.len(),
{
    if fills.len() == 0 {
        Ok(MatchBook { open: Map::empty(), trades: Seq::empty() })
    } else {
        match match_fills(snapshot, fills.drop_last()) {
            Err(f) => Err(f),
            Ok(book) => match_fill(snapshot, book, fills.last()),
        }
    }
}

proof fn fault_stays(snapshot: ReportSnapshot, fills: Seq<JsonTree>, n: int)
    requires
        0 <= n <= fills.len(),
        match_fills(snapshot, fills.take(n)) is Err,
    ensures
        match_fills(snapshot, fills) == match_fills(snapshot, fills.take(n)),
    decreases fills.len(),
{
    if n == fills.len() {
        assert(fills.take(n) =~= fills);
    } else {
        let shorter = fills.drop_last();
        assert(shorter.take(n) =~= fills.take(n));
        fault_stays(snapshot, shorter, n);
    }
}

/// What some values stand for.
pub open spec fn value_trees(list: Seq<Json>) -> Seq<JsonTree> {
    list.map_values(|v: Json| v@)
}

/// The open purchases as they are kept.
pub open spec fn open_views(open: Map<Seq<char>, Vec<OpenLot>>) -> Map<Seq<char>, Seq<LotView>> {
    open.map_values(|lots: Vec<OpenLot>| lot_views(lots@))
}

fn copy_lots(lots: &Vec<OpenLot>) -> (r: Vec<OpenLot>)
    ensures
        lot_views(r@) == lot_views(lots@),
{
    let mut out: Vec<OpenLot> = Vec::new();
    let mut i: usize = 0;
    assert(lot_views(out@) =~= lot_views(lots@).take(0));
    while i < lots.len()
        invariant
            i <= lots.len(),
            lot_views(out@) == lot_views(lots@).take(i as int),
        decreases lots.len() - i,
    {
        let ghost before = lot_views(out@);
        let lot: &OpenLot = &lots[i];
        let copied = OpenLot {
            fill_id: lot.fill_id.clone(),
            quantity: lot.quantity,
            price: lot.price,
            fee: lot.fee,
            timestamp: copy_option(&lot.timestamp),
        };
        out.push(copied);
        proof {
            assert(copied@ == lot_views(lots@)[i as int]);
            assert(lot_views(out@) =~= before.push(copied@));
            assert(lot_views(lots@).take(i + 1) =~= lot_views(lots@).take(i as int).push(copied@));
        }
        i += 1;
    }
    assert(lot_views(lots@).take(lots@.len() as int) =~= lot_views(lots@));
    out
}

fn lots_of(open: &TextMap<Vec<OpenLot>>, symbol: &str) -> (r: Vec<OpenLot>)
    ensures
        lot_views(r@) == open_lots(open_views(open@), symbol@),
{
    match open.get(symbol) {
        Some(lots) => copy_lots(lots),
        None => {
            let none: Vec<OpenLot> = Vec::new();
            assert(lot_views(none@) =~= Seq::empty());
            none
        },
    }
}

fn book_fill(
    snapshot: &ReportSnapshot,
    open: &mut TextMap<Vec<OpenLot>>,
    trades: &mut Vec<BacktestTrade>,
    value: &Json,
) -> (r: Result<(), ReportFault>)
    ensures
        match (
            r,
            match_fill(
                *snapshot,
                MatchBook { open: open_views(old(open)@), trades: trade_views(old(trades)@) },
                value@,
            ),
        ) {
            (Ok(_), Ok(book)) => book == (MatchBook {
                open: open_views(final(open)@),
                trades: trade_views(final(trades)@),
            }),
            (Err(e), Err(f)) => e@ == f,
            _ => false,
        },
{
    let ghost before = open_views(open@);
    let fill = match read_fill(value) {
        Some(fill) => fill,
        None => {
            return refuse("backtest_report_fill_invalid");
        },
    };
    let mut lots = lots_of(open, fill.symbol.as_str());
    if same(fill.side.as_str(), "buy") {
        let ghost held = lot_views(lots@);
        let lot = OpenLot {
            fill_id: fill.fill_id,
            quantity: fill.quantity,
            price: fill.price,
            fee: fill.fee,
            timestamp: fill.timestamp,
        };
        lots.push(lot);
        proof {
            assert(lot_views(lots@) =~= held.push(lot@));
        }
        open.insert(fill.symbol.as_str(), lots);
        proof {
            assert(open_views(open@) =~= before.insert(fill.symbol@, held.push(lot@)));
        }
        return Ok(());
    }
    if !same(fill.side.as_str(), "sell") {
        return refuse("backtest_report_fill_invalid");
    }
    sell(snapshot, &mut lots, &fill, trades)?;
    let ghost left = lot_views(lots@);
    open.insert(fill.symbol.as_str(), lots);
    proof {
        assert(open_views(open@) =~= before.insert(fill.symbol@, left));
    }
    Ok(())
}

/// The price of a symbol in a list of positions.
pub open spec fn market_price(positions: Seq<Position>, symbol: Seq<char>) -> Option<int>
    decreases positions.len(),
{
    if positions.len() == 0 {
        None
    } else {
        match market_price(positions.drop_last(), symbol) {
            Some(n) => Some(n),
            None => if positions.last().symbol@ == symbol {
                Some(positions.last().market_price_micros as int)
            } else {
                None
            },
        }
    }
}

proof fn found_price(positions: Seq<Position>, symbol: Seq<char>, at: int)
    requires
        0 <= at < positions.len(),
        market_price(positions.take(at), symbol) is None,
        positions[at].symbol@ == symbol,
    ensures
        market_price(positions, symbol) == Some(positions[at].market_price_micros as int),
    decreases positions.len(),
{
    let shorter = positions.drop_last();
    if at == positions.len() - 1 {
        assert(positions.take(at) =~= shorter);
    } else {
        assert(shorter.take(at) =~= positions.take(at));
        found_price(shorter, symbol, at);
    }
}

fn price_of(positions: &Vec<Position>, symbol: &str) -> (r: Option<i64>)
    ensures
        number_of(r) == market_price(positions@, symbol@),
{
    let mut i: usize = 0;
    assert(positions@.take(0) =~= Seq::empty());
    while i < positions.len()
        invariant
            i <= positions.len(),
            market_price(positions@.take(i as int), symbol@) is None,
        decreases positions.len() - i,
    {
        if same(positions[i].symbol.as_str(), symbol) {
            proof {
                found_price(positions@, symbol@, i as int);
            }
            return Some(positions[i].market_price_micros);
        }
        proof {
            assert(positions@.take(i + 1).drop_last() =~= positions@.take(i as int));
            assert(positions@.take(i + 1).last() == positions@[i as int]);
        }
        i += 1;
    }
    assert(positions@.take(positions@.len() as int) =~= positions@);
    None
}

/// The trades that the open purchases of one symbol make.
pub open spec fn held_lots(
    snapshot: ReportSnapshot,
    symbol: Seq<char>,
    lots: Seq<LotView>,
    price: int,
) -> Result<Seq<TradeView>, FaultView>
    decreases lots.len(),
{
    if lots.len() == 0 {
        Ok(Seq::empty())
    } else {
        match held_lots(snapshot, symbol, lots.drop_last(), price) {
            Err(f) => Err(f),
            Ok(trades) => match held_trade(snapshot, symbol, lots.last(), price) {
                Err(f) => Err(f),
                Ok(trade) => Ok(trades.push(trade)),
            },
        }
    }
}

proof fn held_fault_stays(
    snapshot: ReportSnapshot,
    symbol: Seq<char>,
    lots: Seq<LotView>,
    price: int,
    n: int,
)
    requires
        0 <= n <= lots.len(),
        held_lots(snapshot, symbol, lots.take(n), price) is Err,
    ensures
        held_lots(snapshot, symbol, lots, price) == held_lots(
            snapshot,
            symbol,
            lots.take(n),
            price,
        ),
    decreases lots.len(),
{
    if n == lots.len() {
        assert(lots.take(n) =~= lots);
    } else {
        let shorter = lots.drop_last();
        assert(shorter.take(n) =~= lots.take(n));
        held_fault_stays(snapshot, symbol, shorter, price, n);
    }
}

fn hold_lots(
    snapshot: &ReportSnapshot,
    symbol: &str,
    lots: &Vec<OpenLot>,
    price: i64,
    trades: &mut Vec<BacktestTrade>,
) -> (r: Result<(), ReportFault>)
    ensures
        match (r, held_lots(*snapshot, symbol@, lot_views(lots@), price as int)) {
            (Ok(_), Ok(more)) => trade_views(final(trades)@) == trade_views(old(trades)@) + more,
            (Err(e), Err(f)) => e@ == f,
            _ => false,
        },
{
    let ghost shown = lot_views(lots@);
    let ghost before = trade_views(trades@);
    let mut i: usize = 0;
    proof {
        assert(shown.take(0) =~= Seq::empty());
        assert(before + Seq::<TradeView>::empty() =~= before);
    }
    while i < lots.len()
        invariant
            i <= lots.len(),
            shown == lot_views(lots@),
            before == trade_views(old(trades)@),
            held_lots(*snapshot, symbol@, shown.take(i as int), price as int) matches Ok(more)
                && trade_views(trades@) == before + more,
        decreases lots.len() - i,
    {
        proof {
            assert(shown.take(i + 1).drop_last() =~= shown.take(i as int));
            assert(shown.take(i + 1).last() == lots@[i as int]@);
        }
        let ghost so_far = held_lots(*snapshot, symbol@, shown.take(i as int), price as int)->Ok_0;
        match hold_trade(snapshot, symbol, &lots[i], price) {
            Ok(trade) => {
                let ghost made = trade@;
                put_trade(trades, trade);
                assert(trade_views(trades@) =~= before + so_far.push(made));
            },
            Err(fault) => {
                proof {
                    held_fault_stays(*snapshot, symbol@, shown, price as int, i + 1);
                }
                return Err(fault);
            },
        }
        i += 1;
    }
    assert(shown.take(shown.len() as int) =~= shown);
    Ok(())
}

/// The trades that the open purchases of some symbols make.
pub open spec fn held_all(
    snapshot: ReportSnapshot,
    open: Map<Seq<char>, Seq<LotView>>,
    symbols: Seq<Seq<char>>,
    positions: Seq<Position>,
) -> Result<Seq<TradeView>, FaultView>
    decreases symbols.len(),
{
    if symbols.len() == 0 {
        Ok(Seq::empty())
    } else {
        match held_all(snapshot, open, symbols.drop_last(), positions) {
            Err(f) => Err(f),
            Ok(trades) => {
                let symbol = symbols.last();
                if open_lots(open, symbol).len() == 0 {
                    Ok(trades)
                } else {
                    match market_price(positions, symbol) {
                        None => Err(FaultView::Refused("backtest_report_position_integrity_failed"@)),
                        Some(price) => match held_lots(
                            snapshot,
                            symbol,
                            open_lots(open, symbol),
                            price,
                        ) {
                            Err(f) => Err(f),
                            Ok(more) => Ok(trades + more),
                        },
                    }
                }
            },
        }
    }
}

proof fn all_fault_stays(
    snapshot: ReportSnapshot,
    open: Map<Seq<char>, Seq<LotView>>,
    symbols: Seq<Seq<char>>,
    positions: Seq<Position>,
    n: int,
)
    requires
        0 <= n <= symbols.len(),
        held_all(snapshot, open, symbols.take(n), positions) is Err,
    ensures
        held_all(snapshot, open, symbols, positions) == held_all(
            snapshot,
            open,
            symbols.take(n),
            positions,
        ),
    decreases symbols.len(),
{
    if n == symbols.len() {
        assert(symbols.take(n) =~= symbols);
    } else {
        let shorter = symbols.drop_last();
        assert(shorter.take(n) =~= symbols.take(n));
        all_fault_stays(snapshot, open, shorter, positions, n);
    }
}

fn hold_all(
    snapshot: &ReportSnapshot,
    open: &TextMap<Vec<OpenLot>>,
    positions: &Vec<Position>,
    trades: &mut Vec<BacktestTrade>,
) -> (r: Result<(), ReportFault>)
    ensures
        match (
            r,
            held_all(
                *snapshot,
                open_views(open@),
                text_map::in_order(open@.dom()),
                positions@,
            ),
        ) {
            (Ok(_), Ok(more)) => trade_views(final(trades)@) == trade_views(old(trades)@) + more,
            (Err(e), Err(f)) => e@ == f,
            _ => false,
        },
{
    let ghost symbols = text_map::in_order(open@.dom());
    let ghost shown = open_views(open@);
    let ghost before = trade_views(trades@);
    let count: usize = open.len();
    let mut i: usize = 0;
    proof {
        assert(symbols.take(0) =~= Seq::empty());
        assert(before + Seq::<TradeView>::empty() =~= before);
    }
    while i < count
        invariant
            i <= count,
            count == open.order().len(),
            open.order() == symbols,
            symbols == text_map::in_order(open@.dom()),
            shown == open_views(open@),
            before == trade_views(old(trades)@),
            held_all(*snapshot, shown, symbols.take(i as int), positions@) matches Ok(more)
                && trade_views(trades@) == before + more,
        decreases count - i,
    {
        let symbol = open.key_at(i);
        let lots = open.value_at(i);
        proof {
            assert(symbols.take(i + 1).drop_last() =~= symbols.take(i as int));
            assert(symbols.take(i + 1).last() == symbol@);
            assert(open_lots(shown, symbol@) == lot_views(lots@));
        }
        let ghost so_far = held_all(*snapshot, shown, symbols.take(i as int), positions@)->Ok_0;
        if lots.len() > 0 {
            match price_of(positions, symbol.as_str()) {
                Some(price) => match hold_lots(snapshot, symbol.as_str(), lots, price, trades) {
                    Ok(_) => {
                        proof {
                            let more = held_lots(
                                *snapshot,
                                symbol@,
                                lot_views(lots@),
                                price as int,
                            )->Ok_0;
                            assert(trade_views(trades@) =~= before + (so_far + more));
                        }
                    },
                    Err(fault) => {
                        proof {
                            all_fault_stays(*snapshot, shown, symbols, positions@, i + 1);
                        }
                        return Err(fault);
                    },
                },
                None => {
                    proof {
                        all_fault_stays(*snapshot, shown, symbols, positions@, i + 1);
                    }
                    return refuse("backtest_report_position_integrity_failed");
                },
            }
        }
        i += 1;
    }
    assert(symbols.take(symbols.len() as int) =~= symbols);
    Ok(())
}

/// Trades in the order of their identifiers.
pub open spec fn trade_order() -> spec_fn(TradeView, TradeView) -> bool {
    |a: TradeView, b: TradeView| text::before(a.trade_id, b.trade_id)
}

fn trade_before(a: &BacktestTrade, b: &BacktestTrade) -> (r: bool)
    ensures
        r == trade_order()(a@, b@),
{
    is_before(a.trade_id.as_str(), b.trade_id.as_str())
}

/// The trades of a backtest.
pub open spec fn trades_of(
    snapshot: ReportSnapshot,
    fills: Seq<JsonTree>,
    positions: Seq<Position>,
) -> Result<Seq<TradeView>, FaultView> {
    match match_fills(snapshot, fills) {
        Err(f) => Err(f),
        Ok(book) => match held_all(
            snapshot,
            book.open,
            text_map::in_order(book.open.dom()),
            positions,
        ) {
            Err(f) => Err(f),
            Ok(held) => Ok(sorting::sorted(book.trades + held, trade_order())),
        },
    }
}

/// Works out the trades of a backtest.
pub fn project_trades(fills: &Vec<Json>, positions: &Vec<Position>, snapshot: &ReportSnapshot) -> (r:
    Result<Vec<BacktestTrade>, ReportFault>)
    ensures
        match (r, trades_of(*snapshot, value_trees(fills@), positions@)) {
            (Ok(list), Ok(shown)) => trade_views(list@) == shown,
            (Err(e), Err(f)) => e@ == f,
            _ => false,
        },
{
    let ghost shown = value_trees(fills@);
    let mut open: TextMap<Vec<OpenLot>> = TextMap::new();
    let mut trades: Vec<BacktestTrade> = Vec::new();
    let mut i: usize = 0;
    proof {
        assert(shown.take(0) =~= Seq::empty());
        assert(open_views(open@) =~= Map::empty());
        assert(trade_views(trades@) =~= Seq::empty());
    }
    while i < fills.len()
        invariant
            i <= fills.len(),
            shown == value_trees(fills@),
            match_fills(*snapshot, shown.take(i as int)) == Ok::<MatchBook, FaultView>(
                MatchBook { open: open_views(open@), trades: trade_views(trades@) },
            ),
        decreases fills.len() - i,
    {
        proof {
            assert(shown.take(i + 1).drop_last() =~= shown.take(i as int));
            assert(shown.take(i + 1).last() == fills@[i as int]@);
        }
        match book_fill(snapshot, &mut open, &mut trades, &fills[i]) {
            Ok(_) => {},
            Err(fault) => {
                proof {
                    fault_stays(*snapshot, shown, i + 1);
                }
                return Err(fault);
            },
        }
        i += 1;
    }
    proof {
        assert(shown.take(shown.len() as int) =~= shown);
        assert(open_views(open@).dom() =~= open@.dom());
    }
    hold_all(snapshot, &open, positions, &mut trades)?;
    let ghost made = trade_views(trades@);
    assert(sorting::views(trades@) =~= made);
    let sorted_list = stable_sort(trades, trade_before, Ghost(trade_order()));
    assert(sorting::views(sorted_list@) =~= trade_views(sorted_list@));
    Ok(sorted_list)
}

/// The quantity of a symbol in some trades: in all of them, or only in those that are
/// closed.
pub open spec fn traded(trades: Seq<TradeView>, symbol: Seq<char>, closed_only: bool) -> int
    decreases trades.len(),
{
    if trades.len() == 0 {
        0
    } else {
        traded(trades.drop_last(), symbol, closed_only) + counted(
            trades.last(),
            symbol,
            closed_only,
        )
    }
}

/// What one trade adds to the quantity of a symbol.
pub open spec fn counted(trade: TradeView, symbol: Seq<char>, closed_only: bool) -> int {
    if trade.symbol == symbol && (trade.realized || !closed_only) {
        trade.quantity
    } else {
        0
    }
}

/// The quantity that some purchases still hold.
pub open spec fn held_quantity(lots: Seq<LotView>) -> int
    decreases lots.len(),
{
    if lots.len() == 0 {
        0
    } else {
        held_quantity(lots.drop_last()) + lots.last().quantity
    }
}

/// The quantity of a symbol that some fills bought.
pub open spec fn bought(fills: Seq<JsonTree>, symbol: Seq<char>) -> int
    decreases fills.len(),
{
    if fills.len() == 0 {
        0
    } else {
        bought(fills.drop_last(), symbol) + (match fill_of(fills.last()) {
            Some(fill) => if fill.symbol == symbol && fill.side == "buy"@ {
                fill.quantity
            } else {
                0
            },
            None => 0,
        })
    }
}

/// The quantity of a symbol that some fills sold.
pub open spec fn sold_in_all(fills: Seq<JsonTree>, symbol: Seq<char>) -> int
    decreases fills.len(),
{
    if fills.len() == 0 {
        0
    } else {
        sold_in_all(fills.drop_last(), symbol) + (match fill_of(fills.last()) {
            Some(fill) => if fill.symbol == symbol && fill.side == "sell"@ && fill.quantity > 0 {
                fill.quantity
            } else {
                0
            },
            None => 0,
        })
    }
}

proof fn traded_adds(a: Seq<TradeView>, b: Seq<TradeView>, symbol: Seq<char>, closed_only: bool)
    ensures
        traded(a + b, symbol, closed_only) == traded(a, symbol, closed_only) + traded(
            b,
            symbol,
            closed_only,
        ),
    decreases b.len(),
{
    if b.len() == 0 {
        assert(a + b =~= a);
    } else {
        assert((a + b).drop_last() =~= a + b.drop_last());
        traded_adds(a, b.drop_last(), symbol, closed_only);
    }
}

proof fn traded_one(trade: TradeView, symbol: Seq<char>, closed_only: bool)
    ensures
        traded(seq![trade], symbol, closed_only) == counted(trade, symbol, closed_only),
{
    assert(seq![trade].drop_last() =~= Seq::empty());
    assert(traded(Seq::<TradeView>::empty(), symbol, closed_only) == 0);
}

proof fn placing_keeps_traded(
    list: Seq<TradeView>,
    item: TradeView,
    symbol: Seq<char>,
    closed_only: bool,
)
    ensures
        traded(sorting::placed(list, item, trade_order()), symbol, closed_only) == traded(
            list,
            symbol,
            closed_only,
        ) + counted(item, symbol, closed_only),
    decreases list.len(),
{
    traded_one(item, symbol, closed_only);
    if list.len() == 0 {
        assert(list =~= Seq::empty());
    } else if trade_order()(list[0], item) {
        let rest = list.skip(1);
        placing_keeps_traded(rest, item, symbol, closed_only);
        traded_one(list[0], symbol, closed_only);
        traded_adds(
            seq![list[0]],
            sorting::placed(rest, item, trade_order()),
            symbol,
            closed_only,
        );
        traded_adds(seq![list[0]], rest, symbol, closed_only);
        assert(list =~= seq![list[0]] + rest);
    } else {
        traded_adds(seq![item], list, symbol, closed_only);
    }
}

proof fn sorting_keeps_traded(list: Seq<TradeView>, symbol: Seq<char>, closed_only: bool)
    ensures
        traded(sorting::sorted(list, trade_order()), symbol, closed_only) == traded(
            list,
            symbol,
            closed_only,
        ),
    decreases list.len(),
{
    if list.len() == 0 {
        assert(list =~= Seq::empty());
    } else {
        let rest = list.skip(1);
        sorting_keeps_traded(rest, symbol, closed_only);
        placing_keeps_traded(
            sorting::sorted(rest, trade_order()),
            list[0],
            symbol,
            closed_only,
        );
        traded_one(list[0], symbol, closed_only);
        traded_adds(seq![list[0]], rest, symbol, closed_only);
        assert(list =~= seq![list[0]] + rest);
    }
}

proof fn held_splits(lots: Seq<LotView>)
    requires
        lots.len() > 0,
    ensures
        held_quantity(lots) == lots[0].quantity + held_quantity(lots.skip(1)),
    decreases lots.len(),
{
    if lots.len() == 1 {
        assert(lots.drop_last() =~= Seq::empty());
        assert(lots.skip(1) =~= Seq::empty());
    } else {
        held_splits(lots.drop_last());
        assert(lots.drop_last().skip(1) =~= lots.skip(1).drop_last());
    }
}

proof fn selling_moves_quantity(
    snapshot: ReportSnapshot,
    lots: Seq<LotView>,
    fill: FillView,
    remaining: int,
    symbol: Seq<char>,
    closed_only: bool,
)
    ensures
        sold(snapshot, lots, fill, remaining) matches Ok((left, more)) ==> {
            let moved: int = if remaining > 0 {
                remaining
            } else {
                0
            };
            &&& held_quantity(left) == held_quantity(lots) - moved
            &&& traded(more, symbol, closed_only) == (if fill.symbol == symbol {
                moved
            } else {
                0
            })
        },
    decreases lots.len(),
{
    if sold(snapshot, lots, fill, remaining) is Ok && remaining > 0 {
        let lot = lots[0];
        let matched = backtest_accounting::least(lot.quantity, remaining);
        let trade = closed_trade(snapshot, lot, fill, matched)->Ok_0;
        traded_one(trade, symbol, closed_only);
        held_splits(lots);
        if matched < lot.quantity {
            let left = lots.update(0, LotView { quantity: lot.quantity - matched, ..lot });
            held_splits(left);
            assert(left.skip(1) =~= lots.skip(1));
        } else {
            selling_moves_quantity(
                snapshot,
                lots.skip(1),
                fill,
                remaining - matched,
                symbol,
                closed_only,
            );
            let more = sold(snapshot, lots.skip(1), fill, remaining - matched)->Ok_0.1;
            traded_adds(seq![trade], more, symbol, closed_only);
        }
    }
}

proof fn matching_keeps_quantity(snapshot: ReportSnapshot, fills: Seq<JsonTree>, symbol: Seq<char>)
    ensures
        match_fills(snapshot, fills) matches Ok(book) ==> {
            &&& book.open.dom().finite()
            &&& traded(book.trades, symbol, false) + held_quantity(open_lots(book.open, symbol))
                == bought(fills, symbol)
            &&& traded(book.trades, symbol, true) == sold_in_all(fills, symbol)
        },
    decreases fills.len(),
{
    if fills.len() > 0 && match_fills(snapshot, fills) is Ok {
        matching_keeps_quantity(snapshot, fills.drop_last(), symbol);
        let book = match_fills(snapshot, fills.drop_last())->Ok_0;
        let fill = fill_of(fills.last())->Some_0;
        let lots = open_lots(book.open, fill.symbol);
        reveal_strlit("buy");
        reveal_strlit("sell");
        if fill.side == "buy"@ {
            assert("buy"@.len() != "sell"@.len());
            let lot = LotView {
                fill_id: fill.fill_id,
                quantity: fill.quantity,
                price: fill.price,
                fee: fill.fee,
                timestamp: fill.timestamp,
            };
            assert(lots.push(lot).drop_last() =~= lots);
        } else {
            selling_moves_quantity(snapshot, lots, fill, fill.quantity, symbol, true);
            selling_moves_quantity(snapshot, lots, fill, fill.quantity, symbol, false);
            let more = sold(snapshot, lots, fill, fill.quantity)->Ok_0.1;
            traded_adds(book.trades, more, symbol, true);
            traded_adds(book.trades, more, symbol, false);
        }
    }
}

proof fn holding_keeps_quantity(
    snapshot: ReportSnapshot,
    name: Seq<char>,
    lots: Seq<LotView>,
    price: int,
    symbol: Seq<char>,
)
    ensures
        held_lots(snapshot, name, lots, price) matches Ok(more) ==> {
            &&& traded(more, symbol, false) == (if name == symbol {
                held_quantity(lots)
            } else {
                0
            })
            &&& traded(more, symbol, true) == 0
        },
    decreases lots.len(),
{
    if lots.len() > 0 && held_lots(snapshot, name, lots, price) is Ok {
        holding_keeps_quantity(snapshot, name, lots.drop_last(), price, symbol);
        let before = held_lots(snapshot, name, lots.drop_last(), price)->Ok_0;
        let trade = held_trade(snapshot, name, lots.last(), price)->Ok_0;
        assert(before.push(trade).drop_last() =~= before);
    }
}

proof fn closing_keeps_quantity(
    snapshot: ReportSnapshot,
    open: Map<Seq<char>, Seq<LotView>>,
    symbols: Seq<Seq<char>>,
    positions: Seq<Position>,
    symbol: Seq<char>,
)
    requires
        text::ascending(symbols),
    ensures
        held_all(snapshot, open, symbols, positions) matches Ok(more) ==> {
            &&& traded(more, symbol, false) == (if symbols.contains(symbol) {
                held_quantity(open_lots(open, symbol))
            } else {
                0
            })
            &&& traded(more, symbol, true) == 0
        },
    decreases symbols.len(),
{
    if symbols.len() > 0 && held_all(snapshot, open, symbols, positions) is Ok {
        let earlier = symbols.drop_last();
        let name = symbols.last();
        closing_keeps_quantity(snapshot, open, earlier, positions, symbol);
        let lots = open_lots(open, name);
        if name == symbol {
            if earlier.contains(symbol) {
                let k = choose|k: int| 0 <= k < earlier.len() && earlier[k] == symbol;
                assert(text::before(symbols[k], symbols[symbols.len() - 1]));
                text::before_irreflexive(symbol);
            }
            assert(symbols[symbols.len() - 1] == symbol);
        } else if symbols.contains(symbol) {
            let k = choose|k: int| 0 <= k < symbols.len() && symbols[k] == symbol;
            assert(earlier[k] == symbol);
        } else if earlier.contains(symbol) {
            let k = choose|k: int| 0 <= k < earlier.len() && earlier[k] == symbol;
            assert(symbols[k] == symbol);
        }
        if lots.len() > 0 {
            let price = market_price(positions, name)->Some_0;
            holding_keeps_quantity(snapshot, name, lots, price, symbol);
            let before = held_all(snapshot, open, earlier, positions)->Ok_0;
            let more = held_lots(snapshot, name, lots, price)->Ok_0;
            traded_adds(before, more, symbol, false);
            traded_adds(before, more, symbol, true);
        } else {
            assert(lots =~= Seq::empty());
        }
    }
}

/// Trades account for the fills: of every symbol they hold just what was bought, and
/// those of them that are closed hold just what was sold.
pub proof fn trades_account_for_fills(
    snapshot: ReportSnapshot,
    fills: Seq<JsonTree>,
    positions: Seq<Position>,
    symbol: Seq<char>,
)
    ensures
        trades_of(snapshot, fills, positions) matches Ok(trades) ==> traded(trades, symbol, false)
            == bought(fills, symbol) && traded(trades, symbol, true) == sold_in_all(fills, symbol),
{
    if trades_of(snapshot, fills, positions) is Ok {
        matching_keeps_quantity(snapshot, fills, symbol);
        let book = match_fills(snapshot, fills)->Ok_0;
        let symbols = text_map::in_order(book.open.dom());
        text_map::in_order_lists_members(book.open.dom());
        closing_keeps_quantity(snapshot, book.open, symbols, positions, symbol);
        let held = held_all(snapshot, book.open, symbols, positions)->Ok_0;
        traded_adds(book.trades, held, symbol, false);
        traded_adds(book.trades, held, symbol, true);
        sorting_keeps_traded(book.trades + held, symbol, false);
        sorting_keeps_traded(book.trades + held, symbol, true);
    }
}

/// The trades of a backtest stand in the order of their identifiers.
pub proof fn trades_are_in_order(
    snapshot: ReportSnapshot,
    fills: Seq<JsonTree>,
    positions: Seq<Position>,
)
    ensures
        trades_of(snapshot, fills, positions) matches Ok(trades) ==> sorting::in_order(
            trades,
            trade_order(),
        ),
{
    if trades_of(snapshot, fills, positions) is Ok {
        let book = match_fills(snapshot, fills)->Ok_0;
        let held = held_all(
            snapshot,
            book.open,
            text_map::in_order(book.open.dom()),
            positions,
        )->Ok_0;
        let order = trade_order();
        assert forall|a: TradeView, b: TradeView| #[trigger] order(a, b) implies !order(b, a) by {
            if order(b, a) {
                text::before_transitive(a.trade_id, b.trade_id, a.trade_id);
                text::before_irreflexive(a.trade_id);
            }
        }
        assert forall|a: TradeView, b: TradeView, c: TradeView|
            #![trigger order(a, b), order(b, c)]
            !order(a, b) && !order(b, c) implies !order(a, c) by {
            if order(a, c) {
                text::before_total(a.trade_id, b.trade_id);
                text::before_total(b.trade_id, c.trade_id);
                if a.trade_id != b.trade_id && b.trade_id != c.trade_id {
                    text::before_transitive(c.trade_id, b.trade_id, a.trade_id);
                    text::before_transitive(a.trade_id, c.trade_id, a.trade_id);
                    text::before_irreflexive(a.trade_id);
                }
            }
        }
        sorting::sorting_orders(book.trades + held, order);
    }
}

} // verus!

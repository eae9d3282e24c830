//! The files into which a report is exported.

pub mod tables;

use vstd::prelude::*;

use crate::backtest_contracts;
use crate::backtest_contracts::{canonical_hash, BacktestRunManifest};
use crate::digest;
use crate::digest::labelled_sha256;
use crate::json;
use crate::json::{canonical_bytes, Json, JsonMap, JsonTree};
use crate::text;
use crate::text::{join2, join3, same, signed_decimal_text, utf8_text};

use super::csv;
use super::csv::{csv_member, csv_row};
use super::model;
use super::model::BacktestReport;
use super::projection;
use super::trades;
use super::trades::{BacktestTrade, TradeView};

verus! {

/// What an export is.
pub const BACKTEST_EXPORT_SCHEMA: &'static str = "tradeassembly.backtest-export.v1";

/// One exported file, bound to what it was made from.
#[derive(Debug)]
pub struct BacktestExportArtifact {
    pub schema: String,
    pub export_kind: String,
    pub media_type: String,
    pub filename: String,
    pub byte_length: u64,
    pub content_hash: String,
    pub source_run_hash: String,
    pub source_manifest_hash: String,
    pub source_result_hash: String,
    pub source_dataset_hash: String,
    pub source_report_hash: String,
    pub content: String,
}

/// The text of a value in its canonical form.
pub open spec fn canonical_text(bytes: Option<Seq<u8>>) -> Option<Seq<char>> {
    match bytes {
        Some(b) => if vstd::utf8::valid_utf8(b) {
            Some(vstd::utf8::decode_utf8(b))
        } else {
            None
        },
        None => None,
    }
}

fn canonical_json(value: &Json) -> (r: Option<String>)
    ensures
        text::option_text(r) == canonical_text(json::canonical_json_of(value@)),
{
    match canonical_bytes(value) {
        Some(bytes) => utf8_text(bytes),
        None => None,
    }
}

/// A manifest as a value.
pub open spec fn sealed_manifest_tree(m: BacktestRunManifest) -> JsonTree {
    JsonTree::Object(
        map![
            "manifestHash"@ => JsonTree::Text(m.manifest_hash@),
            "manifestRef"@ => JsonTree::Text(m.manifest_ref@),
            "byteLength"@ => JsonTree::Int(m.byte_length as int),
            "createdAtMs"@ => JsonTree::Int(m.created_at_ms as int),
            "content"@ => backtest_contracts::manifest_tree(m.content),
        ],
    )
}

fn manifest_value(m: &BacktestRunManifest) -> (r: Json)
    ensures
        r@ == sealed_manifest_tree(*m),
{
    Json::object(
        JsonMap::new().with("manifestHash", Json::text(m.manifest_hash.as_str())).with(
            "manifestRef",
            Json::text(m.manifest_ref.as_str()),
        ).with("byteLength", Json::Large(m.byte_length)).with(
            "createdAtMs",
            Json::Int(m.created_at_ms),
        ).with("content", m.content.value()),
    )
}

/// A truth value as text.
pub open spec fn truth_text(b: bool) -> Seq<char> {
    if b {
        "true"@
    } else {
        "false"@
    }
}

/// The fill that an optional marker names.
pub open spec fn marked_fill(marker: Option<JsonTree>) -> Seq<char> {
    match marker {
        Some(tree) => csv::member_text(tree, "fillId"@),
        None => Seq::empty(),
    }
}

/// One trade as a row.
pub open spec fn trade_row(t: TradeView) -> Seq<Seq<char>> {
    seq![
        t.trade_id,
        t.symbol,
        truth_text(t.realized),
        text::signed_decimal(t.quantity),
        csv::member_text(t.entry, "fillId"@),
        marked_fill(t.exit),
        marked_fill(t.terminal_valuation),
        match t.pnl {
            Some(n) => text::signed_decimal(n),
            None => Seq::empty(),
        },
        text::signed_decimal(t.fee),
    ]
}

/// Rows, one after another, behind a heading.
pub open spec fn table(heading: Seq<char>, rows: Seq<Seq<Seq<char>>>) -> Seq<char>
    decreases rows.len(),
{
    if rows.len() == 0 {
        heading
    } else {
        table(heading, rows.drop_last()) + csv::row(rows.last())
    }
}

/// The heading of a table of trades.
pub open spec fn trades_heading() -> Seq<char> {
    "trade_id,symbol,realized,quantity_micros,entry_fill_id,exit_fill_id,terminal_valuation_fill_id,pnl_micros,fee_micros\n"@
}

/// The trades as a table.
pub open spec fn trades_table(list: Seq<TradeView>) -> Seq<char> {
    table(trades_heading(), list.map_values(|t: TradeView| trade_row(t)))
}

proof fn nothing_written()
    ensures
        ""@ == Seq::<char>::empty(),
{
    reveal_strlit("");
    assert(""@ =~= Seq::<char>::empty());
}

fn fill_of_marker(marker: &Option<Json>) -> (r: String)
    ensures
        r@ == marked_fill(trades::tree_of(*marker)),
{
    match marker {
        Some(value) => csv_member(value, "fillId"),
        None => String::new(),
    }
}

fn trade_fields(t: &BacktestTrade) -> (r: Vec<String>)
    ensures
        text::texts(r@) == trade_row(t@),
{
    let realized: &str = if t.realized {
        "true"
    } else {
        "false"
    };
    let pnl: String = match t.pnl_micros {
        Some(n) => signed_decimal_text(n),
        None => String::new(),
    };
    let fields: Vec<String> = vec![
        t.trade_id.clone(),
        t.symbol.clone(),
        realized.to_owned(),
        signed_decimal_text(t.quantity_micros),
        csv_member(&t.entry, "fillId"),
        fill_of_marker(&t.exit),
        fill_of_marker(&t.terminal_valuation),
        pnl,
        signed_decimal_text(t.fee_micros),
    ];
    assert(text::texts(fields@) =~= trade_row(t@));
    fields
}

/// Writes the trades as a table.
pub fn trades_csv(list: &Vec<BacktestTrade>) -> (r: String)
    ensures
        r@ == trades_table(trades::trade_views(list@)),
{
    let ghost rows = trades::trade_views(list@).map_values(|t: TradeView| trade_row(t));
    let mut output: String =
        "trade_id,symbol,realized,quantity_micros,entry_fill_id,exit_fill_id,terminal_valuation_fill_id,pnl_micros,fee_micros\n".to_owned();
    let mut i: usize = 0;
    assert(rows.take(0) =~= Seq::empty());
    while i < list.len()
        invariant
            i <= list.len(),
            rows == trades::trade_views(list@).map_values(|t: TradeView| trade_row(t)),
            output@ == table(trades_heading(), rows.take(i as int)),
        decreases list.len() - i,
    {
        proof {
            assert(rows.take(i + 1).drop_last() =~= rows.take(i as int));
            assert(rows.take(i + 1).last() == trade_row(list@[i as int]@));
        }
        let fields = trade_fields(&list[i]);
        let line = csv_row(&fields);
        output = join2(output.as_str(), line.as_str());
        i += 1;
    }
    assert(rows.take(rows.len() as int) =~= rows);
    output
}

/// Whether an order tells what it is worth.
pub open spec fn tells_notional(orders: Seq<JsonTree>) -> bool {
    exists|i: int|
        0 <= i < orders.len() && json::member(#[trigger] orders[i], "notionalMicros"@) is Some
}

/// One order as a row.
pub open spec fn order_row(order: JsonTree, with_notional: bool) -> Seq<Seq<char>> {
    let row = seq![
        "order"@,
        Seq::empty(),
        csv::member_text(order, "symbol"@),
        csv::member_text(order, "side"@),
        csv::member_text(order, "quantityMicros"@),
        Seq::empty(),
        Seq::empty(),
        csv::member_text(order, "executionTimestamp"@),
    ];
    if with_notional {
        row.push(csv::member_text(order, "notionalMicros"@))
    } else {
        row
    }
}

/// One fill as a row.
pub open spec fn fill_row(fill: JsonTree, with_notional: bool) -> Seq<Seq<char>> {
    let row = seq![
        "fill"@,
        csv::member_text(fill, "fillId"@),
        csv::member_text(fill, "symbol"@),
        csv::member_text(fill, "side"@),
        csv::member_text(fill, "quantityMicros"@),
        csv::member_text(fill, "priceMicros"@),
        csv::member_text(fill, "feeMicros"@),
        csv::member_text(fill, "executionTimestamp"@),
    ];
    if with_notional {
        row.push(Seq::empty())
    } else {
        row
    }
}

/// The heading of a table of orders and fills.
pub open spec fn orders_heading(with_notional: bool) -> Seq<char> {
    if with_notional {
        "record_type,fill_id,symbol,side,quantity_micros,price_micros,fee_micros,execution_timestamp"@
            + ",notional_micros"@ + "\n"@
    } else {
        "record_type,fill_id,symbol,side,quantity_micros,price_micros,fee_micros,execution_timestamp"@
            + "\n"@
    }
}

/// The orders and the fills as a table.
pub open spec fn orders_table(orders: Seq<JsonTree>, fills: Seq<JsonTree>) -> Seq<char> {
    let with_notional = tells_notional(orders);
    table(
        table(
            orders_heading(with_notional),
            orders.map_values(|o: JsonTree| order_row(o, with_notional)),
        ),
        fills.map_values(|f: JsonTree| fill_row(f, with_notional)),
    )
}

fn order_fields(order: &Json, with_notional: bool) -> (r: Vec<String>)
    ensures
        text::texts(r@) == order_row(order@, with_notional),
{
    proof {
        nothing_written();
    }
    let mut fields: Vec<String> = vec![
        "order".to_owned(),
        "".to_owned(),
        csv_member(order, "symbol"),
        csv_member(order, "side"),
        csv_member(order, "quantityMicros"),
        "".to_owned(),
        "".to_owned(),
        csv_member(order, "executionTimestamp"),
    ];
    if with_notional {
        fields.push(csv_member(order, "notionalMicros"));
    }
    assert(text::texts(fields@) =~= order_row(order@, with_notional));
    fields
}

fn fill_fields(fill: &Json, with_notional: bool) -> (r: Vec<String>)
    ensures
        text::texts(r@) == fill_row(fill@, with_notional),
{
    proof {
        nothing_written();
    }
    let mut fields: Vec<String> = vec![
        "fill".to_owned(),
        csv_member(fill, "fillId"),
        csv_member(fill, "symbol"),
        csv_member(fill, "side"),
        csv_member(fill, "quantityMicros"),
        csv_member(fill, "priceMicros"),
        csv_member(fill, "feeMicros"),
        csv_member(fill, "executionTimestamp"),
    ];
    if with_notional {
        fields.push("".to_owned());
    }
    assert(text::texts(fields@) =~= fill_row(fill@, with_notional));
    fields
}

fn any_notional(orders: &Vec<Json>) -> (r: bool)
    ensures
        r == tells_notional(trades::value_trees(orders@)),
{
    let ghost shown = trades::value_trees(orders@);
    let mut i: usize = 0;
    while i < orders.len()
        invariant
            i <= orders.len(),
            shown == trades::value_trees(orders@),
            forall|j: int|
                0 <= j < i ==> json::member(#[trigger] shown[j], "notionalMicros"@) is None,
        decreases orders.len() - i,
    {
        assert(shown[i as int] == orders@[i as int]@);
        if orders[i].field("notionalMicros").is_some() {
            return true;
        }
        i += 1;
    }
    false
}

/// Writes the orders and the fills as a table.
pub fn orders_fills_csv(orders: &Vec<Json>, fills: &Vec<Json>) -> (r: String)
    ensures
        r@ == orders_table(trades::value_trees(orders@), trades::value_trees(fills@)),
{
    let with_notional: bool = any_notional(orders);
    let heading: &str =
        "record_type,fill_id,symbol,side,quantity_micros,price_micros,fee_micros,execution_timestamp";
    let mut output: String = if with_notional {
        let longer = join2(heading, ",notional_micros");
        join2(longer.as_str(), "\n")
    } else {
        join2(heading, "\n")
    };
    let ghost head = output@;
    let ghost rows = trades::value_trees(orders@).map_values(
        |o: JsonTree| order_row(o, with_notional),
    );
    let mut i: usize = 0;
    assert(rows.take(0) =~= Seq::empty());
    while i < orders.len()
        invariant
            i <= orders.len(),
            rows == trades::value_trees(orders@).map_values(
                |o: JsonTree| order_row(o, with_notional),
            ),
            output@ == table(head, rows.take(i as int)),
        decreases orders.len() - i,
    {
        proof {
            assert(rows.take(i + 1).drop_last() =~= rows.take(i as int));
            assert(rows.take(i + 1).last() == order_row(orders@[i as int]@, with_notional));
        }
        let fields = order_fields(&orders[i], with_notional);
        let line = csv_row(&fields);
        output = join2(output.as_str(), line.as_str());
        i += 1;
    }
    assert(rows.take(rows.len() as int) =~= rows);
    let ghost upper = output@;
    let ghost more = trades::value_trees(fills@).map_values(
        |f: JsonTree| fill_row(f, with_notional),
    );
    let mut k: usize = 0;
    assert(more.take(0) =~= Seq::empty());
    while k < fills.len()
        invariant
            k <= fills.len(),
            more == trades::value_trees(fills@).map_values(
                |f: JsonTree| fill_row(f, with_notional),
            ),
            output@ == table(upper, more.take(k as int)),
        decreases fills.len() - k,
    {
        proof {
            assert(more.take(k + 1).drop_last() =~= more.take(k as int));
            assert(more.take(k + 1).last() == fill_row(fills@[k as int]@, with_notional));
        }
        let fields = fill_fields(&fills[k], with_notional);
        let line = csv_row(&fields);
        output = join2(output.as_str(), line.as_str());
        k += 1;
    }
    assert(more.take(more.len() as int) =~= more);
    output
}

/// One position as a row.
pub open spec fn position_row(position: JsonTree) -> Seq<Seq<char>> {
    seq![
        "position"@,
        csv::member_text(position, "symbol"@),
        csv::member_text(position, "quantity"@),
        csv::member_text(position, "averageCostMicros"@),
        csv::member_text(position, "marketPriceMicros"@),
        csv::member_text(position, "marketValueMicros"@),
        csv::member_text(position, "unrealizedPnlMicros"@),
        Seq::empty(),
        Seq::empty(),
        Seq::empty(),
    ]
}

/// One entry of the ledger as a row.
pub open spec fn ledger_row(entry: JsonTree) -> Seq<Seq<char>> {
    seq![
        "ledger"@,
        Seq::empty(),
        Seq::empty(),
        Seq::empty(),
        Seq::empty(),
        Seq::empty(),
        Seq::empty(),
        csv::member_text(entry, "entryId"@),
        csv::member_text(entry, "kind"@),
        csv::member_text(entry, "cashDeltaMicros"@),
    ]
}

/// The heading of a table of positions and ledger entries.
pub open spec fn positions_heading() -> Seq<char> {
    "record_type,symbol,quantity_micros,average_cost_micros,market_price_micros,market_value_micros,unrealized_pnl_micros,entry_id,kind,cash_delta_micros\n"@
}

/// The positions and the ledger as a table.
pub open spec fn positions_table(positions: Seq<JsonTree>, ledger: Seq<JsonTree>) -> Seq<char> {
    table(
        table(positions_heading(), positions.map_values(|p: JsonTree| position_row(p))),
        ledger.map_values(|e: JsonTree| ledger_row(e)),
    )
}

fn position_fields(position: &Json) -> (r: Vec<String>)
    ensures
        text::texts(r@) == position_row(position@),
{
    proof {
        nothing_written();
    }
    let fields: Vec<String> = vec![
        "position".to_owned(),
        csv_member(position, "symbol"),
        csv_member(position, "quantity"),
        csv_member(position, "averageCostMicros"),
        csv_member(position, "marketPriceMicros"),
        csv_member(position, "marketValueMicros"),
        csv_member(position, "unrealizedPnlMicros"),
        "".to_owned(),
        "".to_owned(),
        "".to_owned(),
    ];
    assert(text::texts(fields@) =~= position_row(position@));
    fields
}

fn ledger_fields(entry: &Json) -> (r: Vec<String>)
    ensures
        text::texts(r@) == ledger_row(entry@),
{
    proof {
        nothing_written();
    }
    let fields: Vec<String> = vec![
        "ledger".to_owned(),
        "".to_owned(),
        "".to_owned(),
        "".to_owned(),
        "".to_owned(),
        "".to_owned(),
        "".to_owned(),
        csv_member(entry, "entryId"),
        csv_member(entry, "kind"),
        csv_member(entry, "cashDeltaMicros"),
    ];
    assert(text::texts(fields@) =~= ledger_row(entry@));
    fields
}

/// Writes the positions and the ledger as a table.
pub fn positions_ledger_csv(positions: &Vec<Json>, ledger: &Vec<Json>) -> (r: String)
    ensures
        r@ == positions_table(trades::value_trees(positions@), trades::value_trees(ledger@)),
{
    let mut output: String =
        "record_type,symbol,quantity_micros,average_cost_micros,market_price_micros,market_value_micros,unrealized_pnl_micros,entry_id,kind,cash_delta_micros\n".to_owned();
    let ghost rows = trades::value_trees(positions@).map_values(|p: JsonTree| position_row(p));
    let mut i: usize = 0;
    assert(rows.take(0) =~= Seq::empty());
    while i < positions.len()
        invariant
            i <= positions.len(),
            rows == trades::value_trees(positions@).map_values(|p: JsonTree| position_row(p)),
            output@ == table(positions_heading(), rows.take(i as int)),
        decreases positions.len() - i,
    {
        proof {
            assert(rows.take(i + 1).drop_last() =~= rows.take(i as int));
            assert(rows.take(i + 1).last() == position_row(positions@[i as int]@));
        }
        let fields = position_fields(&positions[i]);
        let line = csv_row(&fields);
        output = join2(output.as_str(), line.as_str());
        i += 1;
    }
    assert(rows.take(rows.len() as int) =~= rows);
    let ghost upper = output@;
    let ghost more = trades::value_trees(ledger@).map_values(|e: JsonTree| ledger_row(e));
    let mut k: usize = 0;
    assert(more.take(0) =~= Seq::empty());
    while k < ledger.len()
        invariant
            k <= ledger.len(),
            more == trades::value_trees(ledger@).map_values(|e: JsonTree| ledger_row(e)),
            output@ == table(upper, more.take(k as int)),
        decreases ledger.len() - k,
    {
        proof {
            assert(more.take(k + 1).drop_last() =~= more.take(k as int));
            assert(more.take(k + 1).last() == ledger_row(ledger@[k as int]@));
        }
        let fields = ledger_fields(&ledger[k]);
        let line = csv_row(&fields);
        output = join2(output.as_str(), line.as_str());
        k += 1;
    }
    assert(more.take(more.len() as int) =~= more);
    output
}

/// The heading of a table of equity.
pub open spec fn equity_heading() -> Seq<char> {
    "timestamp,ending_cash_micros,market_value_micros,ending_equity_micros,reconciliation_residual_micros\n"@
}

/// The equity at the end as a row.
pub open spec fn equity_row(report: BacktestReport) -> Seq<Seq<char>> {
    seq![
        match json::text_member(report.chart.range@, "end"@) {
            Some(t) => t,
            None => Seq::empty(),
        },
        text::signed_decimal(report.overview.ending_cash_micros as int),
        text::signed_decimal(report.overview.market_value_micros as int),
        text::signed_decimal(report.overview.ending_equity_micros as int),
        text::signed_decimal(report.overview.reconciliation_residual_micros as int),
    ]
}

/// Writes the equity at the end as a table.
pub fn equity_csv(report: &BacktestReport) -> (r: String)
    ensures
        r@ == equity_heading() + csv::row(equity_row(*report)),
{
    let end: String = match report.chart.range.text_field("end") {
        Some(t) => t,
        None => String::new(),
    };
    let fields: Vec<String> = vec![
        end,
        signed_decimal_text(report.overview.ending_cash_micros),
        signed_decimal_text(report.overview.market_value_micros),
        signed_decimal_text(report.overview.ending_equity_micros),
        signed_decimal_text(report.overview.reconciliation_residual_micros),
    ];
    assert(text::texts(fields@) =~= equity_row(*report));
    let line = csv_row(&fields);
    join2(
        "timestamp,ending_cash_micros,market_value_micros,ending_equity_micros,reconciliation_residual_micros\n",
        line.as_str(),
    )
}

/// What is exported: its media type, the end of its name, and what it holds.
#[derive(Debug)]
pub struct ExportBody {
    pub media_type: &'static str,
    pub ending: &'static str,
    pub extension: &'static str,
    pub content: String,
}

/// What an [`ExportBody`] says.
#[verifier::ext_equal]
pub struct BodyView {
    pub media_type: Seq<char>,
    pub ending: Seq<char>,
    pub extension: Seq<char>,
    pub content: Seq<char>,
}

impl View for ExportBody {
    type V = BodyView;

    open spec fn view(&self) -> BodyView {
        BodyView {
            media_type: self.media_type@,
            ending: self.ending@,
            extension: self.extension@,
            content: self.content@,
        }
    }
}

/// A file of JSON.
pub open spec fn json_body(ending: Seq<char>, bytes: Option<Seq<u8>>) -> Result<
    BodyView,
    Seq<char>,
> {
    match canonical_text(bytes) {
        Some(content) => Ok(
            BodyView { media_type: "application/json"@, ending, extension: ".json"@, content },
        ),
        None => Err("backtest_export_serialization_failed"@),
    }
}

/// What is exported under a name.
pub open spec fn body_of(report: BacktestReport, manifest: BacktestRunManifest, kind: Seq<char>) -> Result<
    BodyView,
    Seq<char>,
> {
    let sheet = "text/csv"@;
    if kind == "manifestJson"@ {
        json_body("-manifest"@, json::canonical_json_of(sealed_manifest_tree(manifest)))
    } else if kind == "reportJson"@ {
        json_body("-report"@, json::canonical_json_of(model::report_tree(report)))
    } else if kind == "tradesCsv"@ {
        Ok(
            BodyView {
                media_type: sheet,
                ending: "-trades"@,
                extension: ".csv"@,
                content: trades_table(trades::trade_views(report.trades@)),
            },
        )
    } else if kind == "ordersFillsCsv"@ {
        Ok(
            BodyView {
                media_type: sheet,
                ending: "-orders-fills"@,
                extension: ".csv"@,
                content: orders_table(
                    trades::value_trees(report.orders@),
                    trades::value_trees(report.fills@),
                ),
            },
        )
    } else if kind == "positionsLedgerCsv"@ {
        Ok(
            BodyView {
                media_type: sheet,
                ending: "-positions-ledger"@,
                extension: ".csv"@,
                content: positions_table(
                    trades::value_trees(report.positions@),
                    trades::value_trees(report.ledger@),
                ),
            },
        )
    } else if kind == "equityCsv"@ {
        Ok(
            BodyView {
                media_type: sheet,
                ending: "-equity"@,
                extension: ".csv"@,
                content: equity_heading() + csv::row(equity_row(report)),
            },
        )
    } else {
        Err("backtest_export_kind_invalid"@)
    }
}

fn write_json(ending: &'static str, value: &Json) -> (r: Result<ExportBody, String>)
    ensures
        match (r, json_body(ending@, json::canonical_json_of(value@))) {
            (Ok(b), Ok(shown)) => b@ == shown,
            (Err(e), Err(code)) => e@ == code,
            _ => false,
        },
{
    match canonical_json(value) {
        Some(content) => Ok(
            ExportBody { media_type: "application/json", ending, extension: ".json", content },
        ),
        None => Err("backtest_export_serialization_failed".to_owned()),
    }
}

fn write_body(report: &BacktestReport, manifest: &BacktestRunManifest, kind: &str) -> (r: Result<
    ExportBody,
    String,
>)
    ensures
        match (r, body_of(*report, *manifest, kind@)) {
            (Ok(b), Ok(shown)) => b@ == shown,
            (Err(e), Err(code)) => e@ == code,
            _ => false,
        },
{
    if same(kind, "manifestJson") {
        let value = manifest_value(manifest);
        return write_json("-manifest", &value);
    }
    if same(kind, "reportJson") {
        let value = report.value();
        return write_json("-report", &value);
    }
    let (ending, content): (&'static str, String) = if same(kind, "tradesCsv") {
        ("-trades", trades_csv(&report.trades))
    } else if same(kind, "ordersFillsCsv") {
        ("-orders-fills", orders_fills_csv(&report.orders, &report.fills))
    } else if same(kind, "positionsLedgerCsv") {
        ("-positions-ledger", positions_ledger_csv(&report.positions, &report.ledger))
    } else if same(kind, "equityCsv") {
        ("-equity", equity_csv(report))
    } else {
        return Err("backtest_export_kind_invalid".to_owned());
    };
    Ok(ExportBody { media_type: "text/csv", ending, extension: ".csv", content })
}

/// Whether an artifact is what a body exports, given the hash of the run.
pub open spec fn artifact_is_of(
    a: BacktestExportArtifact,
    report: BacktestReport,
    kind: Seq<char>,
    body: BodyView,
    run_hash: Seq<char>,
) -> bool {
    &&& a.schema@ == BACKTEST_EXPORT_SCHEMA@
    &&& a.export_kind@ == kind
    &&& a.media_type@ == body.media_type
    &&& a.filename@ == report.run.run_id@ + body.ending + body.extension
    &&& a.byte_length == vstd::utf8::encode_utf8(body.content).len()
    &&& a.content_hash@ == digest::labelled_digest(vstd::utf8::encode_utf8(body.content))
    &&& a.source_run_hash@ == run_hash
    &&& a.source_manifest_hash@ == report.metadata.manifest_hash@
    &&& a.source_result_hash@ == report.metadata.result_hash@
    &&& a.source_dataset_hash@ == report.metadata.dataset_hash@
    &&& a.source_report_hash@ == report.report_hash@
    &&& a.content@ == body.content
}

/// Exports a report.
pub fn export(report: &BacktestReport, manifest: &BacktestRunManifest, kind: &str) -> (r: Result<
    BacktestExportArtifact,
    String,
>)
    ensures
        match (
            body_of(*report, *manifest, kind@),
            json::canonical_digest(model::run_tree(report.run)),
        ) {
            (Err(code), _) => r matches Err(e) && e@ == code,
            (Ok(_), None) => r matches Err(e) && e@ == "backtest_export_hash_failed"@,
            (Ok(body), Some(run_hash)) => r matches Ok(a) && artifact_is_of(
                a,
                *report,
                kind@,
                body,
                run_hash,
            ),
        },
{
    let body = write_body(report, manifest, kind)?;
    let run = report.run.value();
    let run_hash = canonical_hash(&run, "backtest_export_hash_failed")?;
    let bytes = body.content.as_str().as_bytes();
    Ok(
        BacktestExportArtifact {
            schema: BACKTEST_EXPORT_SCHEMA.to_owned(),
            export_kind: kind.to_owned(),
            media_type: body.media_type.to_owned(),
            filename: join3(report.run.run_id.as_str(), body.ending, body.extension),
            byte_length: bytes.len() as u64,
            content_hash: labelled_sha256(bytes),
            source_run_hash: run_hash,
            source_manifest_hash: report.metadata.manifest_hash.clone(),
            source_result_hash: report.metadata.result_hash.clone(),
            source_dataset_hash: report.metadata.dataset_hash.clone(),
            source_report_hash: report.report_hash.clone(),
            content: body.content.clone(),
        },
    )
}

/// Just the listed forms can be exported: every other one is refused as unknown.
pub proof fn only_listed_kinds_are_exported(
    report: BacktestReport,
    manifest: BacktestRunManifest,
    kind: Seq<char>,
)
    ensures
        body_of(report, manifest, kind) == Err::<BodyView, Seq<char>>(
            "backtest_export_kind_invalid"@,
        ) <==> !projection::export_names().contains(kind),
{
    let names = projection::export_names();
    reveal_strlit("backtest_export_kind_invalid");
    reveal_strlit("backtest_export_serialization_failed");
    assert("backtest_export_kind_invalid"@.len() != "backtest_export_serialization_failed"@.len());
    assert(names[0] == "manifestJson"@);
    assert(names[1] == "reportJson"@);
    assert(names[2] == "tradesCsv"@);
    assert(names[3] == "ordersFillsCsv"@);
    assert(names[4] == "positionsLedgerCsv"@);
    assert(names[5] == "equityCsv"@);
    if names.contains(kind) {
        let i = choose|i: int| 0 <= i < names.len() && names[i] == kind;
        assert(0 <= i < 6);
    }
}

} // verus!

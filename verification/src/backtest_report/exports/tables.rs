//! What stands in the exported tables: a row for each trade, order, fill, position and entry, in
//! their order, with each number in its column.

use vstd::prelude::*;

use crate::backtest_contracts::BacktestRunManifest;
use crate::backtest_report::csv;
use crate::backtest_report::exports;
use crate::backtest_report::exports::{BacktestExportArtifact, BodyView};
use crate::backtest_report::model::BacktestReport;
use crate::backtest_report::trades::BacktestTrade;
use crate::digest;
use crate::json::JsonTree;
use crate::text;

verus! {

/// A table without rows is its heading, and one more row stands behind all others.
pub proof fn table_grows_by_its_rows(
    heading: Seq<char>,
    rows: Seq<Seq<Seq<char>>>,
    next: Seq<Seq<char>>,
)
    ensures
        exports::table(heading, Seq::<Seq<Seq<char>>>::empty()) == heading,
        exports::table(heading, rows.push(next)) == exports::table(heading, rows) + csv::row(next),
{
    assert(rows.push(next).drop_last() =~= rows);
    assert(rows.push(next).last() == next);
}

/// A trade stands in its row by its name, its symbol, whether it is closed, its quantity, the
/// fills of its entry, its exit and its valuation, its profit and its fees.
pub proof fn trade_stands_in_its_row(t: BacktestTrade)
    ensures
        ({
            let row = exports::trade_row(t@);
            &&& row.len() == 9
            &&& row[0] == t.trade_id@
            &&& row[1] == t.symbol@
            &&& t.realized ==> row[2] == "true"@
            &&& !t.realized ==> row[2] == "false"@
            &&& row[3] == text::signed_decimal(t.quantity_micros as int)
            &&& row[4] == csv::member_text(t.entry@, "fillId"@)
            &&& t.exit matches Some(exit) ==> row[5] == csv::member_text(exit@, "fillId"@)
            &&& t.exit is None ==> row[5].len() == 0
            &&& t.terminal_valuation matches Some(marker) ==> row[6] == csv::member_text(
                marker@,
                "fillId"@,
            )
            &&& t.terminal_valuation is None ==> row[6].len() == 0
            &&& t.pnl_micros matches Some(pnl) ==> row[7] == text::signed_decimal(pnl as int)
            &&& t.pnl_micros is None ==> row[7].len() == 0
            &&& row[8] == text::signed_decimal(t.fee_micros as int)
        }),
{
}

/// The columns of a trade are those that the heading names.
pub proof fn trades_heading_names_the_columns()
    ensures
        exports::trades_heading()
            == "trade_id,symbol,realized,quantity_micros,entry_fill_id,exit_fill_id,terminal_valuation_fill_id,pnl_micros,fee_micros\n"@,
{
}

/// A fill stands in its row by its name, its symbol, its side, its quantity, its price, its fee
/// and its time; an order by what it has of these.
pub proof fn fill_and_order_stand_in_their_rows(tree: JsonTree, with_notional: bool)
    ensures
        ({
            let row = exports::fill_row(tree, with_notional);
            &&& row[0] == "fill"@
            &&& row[1] == csv::member_text(tree, "fillId"@)
            &&& row[2] == csv::member_text(tree, "symbol"@)
            &&& row[3] == csv::member_text(tree, "side"@)
            &&& row[4] == csv::member_text(tree, "quantityMicros"@)
            &&& row[5] == csv::member_text(tree, "priceMicros"@)
            &&& row[6] == csv::member_text(tree, "feeMicros"@)
            &&& row[7] == csv::member_text(tree, "executionTimestamp"@)
            &&& row.len() == (if with_notional {
                9nat
            } else {
                8nat
            })
        }),
        ({
            let row = exports::order_row(tree, with_notional);
            &&& row[0] == "order"@
            &&& row[1].len() == 0
            &&& row[2] == csv::member_text(tree, "symbol"@)
            &&& row[3] == csv::member_text(tree, "side"@)
            &&& row[4] == csv::member_text(tree, "quantityMicros"@)
            &&& row[5].len() == 0
            &&& row[6].len() == 0
            &&& row[7] == csv::member_text(tree, "executionTimestamp"@)
            &&& with_notional ==> row.len() == 9 && row[8] == csv::member_text(
                tree,
                "notionalMicros"@,
            )
            &&& !with_notional ==> row.len() == 8
        }),
{
}

/// A position stands in its row by its symbol, its quantity, its cost, its price, its value and
/// its profit; an entry of the ledger by its name, its kind and its cash.
pub proof fn position_and_entry_stand_in_their_rows(tree: JsonTree)
    ensures
        ({
            let row = exports::position_row(tree);
            &&& row.len() == 10
            &&& row[0] == "position"@
            &&& row[1] == csv::member_text(tree, "symbol"@)
            &&& row[2] == csv::member_text(tree, "quantity"@)
            &&& row[3] == csv::member_text(tree, "averageCostMicros"@)
            &&& row[4] == csv::member_text(tree, "marketPriceMicros"@)
            &&& row[5] == csv::member_text(tree, "marketValueMicros"@)
            &&& row[6] == csv::member_text(tree, "unrealizedPnlMicros"@)
        }),
        ({
            let row = exports::ledger_row(tree);
            &&& row.len() == 10
            &&& row[0] == "ledger"@
            &&& row[7] == csv::member_text(tree, "entryId"@)
            &&& row[8] == csv::member_text(tree, "kind"@)
            &&& row[9] == csv::member_text(tree, "cashDeltaMicros"@)
        }),
{
}

/// The equity at the end stands in one row by its cash, its value, their sum and what is left
/// over.
pub proof fn equity_stands_in_one_row(report: BacktestReport)
    ensures
        ({
            let row = exports::equity_row(report);
            &&& row.len() == 5
            &&& row[1] == text::signed_decimal(report.overview.ending_cash_micros as int)
            &&& row[2] == text::signed_decimal(report.overview.market_value_micros as int)
            &&& row[3] == text::signed_decimal(report.overview.ending_equity_micros as int)
            &&& row[4] == text::signed_decimal(
                report.overview.reconciliation_residual_micros as int,
            )
        }),
{
}

/// An exported file is called after the run and what it is, is told by its length and its
/// digest, and names the hashes of all that it was made from.
pub proof fn file_is_bound_to_what_it_was_made_from(
    a: BacktestExportArtifact,
    report: BacktestReport,
    manifest: BacktestRunManifest,
    kind: Seq<char>,
    body: BodyView,
    run_hash: Seq<char>,
)
    requires
        exports::body_of(report, manifest, kind) == Ok::<BodyView, Seq<char>>(body),
        exports::artifact_is_of(a, report, kind, body, run_hash),
    ensures
        a.export_kind@ == kind,
        a.content_hash@ == digest::labelled_digest(vstd::utf8::encode_utf8(a.content@)),
        a.byte_length == vstd::utf8::encode_utf8(a.content@).len(),
        a.source_run_hash@ == run_hash,
        a.source_manifest_hash@ == report.metadata.manifest_hash@,
        a.source_result_hash@ == report.metadata.result_hash@,
        a.source_dataset_hash@ == report.metadata.dataset_hash@,
        a.source_report_hash@ == report.report_hash@,
        kind == "tradesCsv"@ ==> a.filename@ == report.run.run_id@ + "-trades"@ + ".csv"@
            && a.media_type@ == "text/csv"@,
        kind == "manifestJson"@ ==> a.filename@ == report.run.run_id@ + "-manifest"@ + ".json"@
            && a.media_type@ == "application/json"@,
        kind == "reportJson"@ ==> a.filename@ == report.run.run_id@ + "-report"@ + ".json"@,
        kind == "equityCsv"@ ==> a.filename@ == report.run.run_id@ + "-equity"@ + ".csv"@,
{
    reveal_strlit("manifestJson");
    reveal_strlit("reportJson");
    reveal_strlit("tradesCsv");
    reveal_strlit("ordersFillsCsv");
    reveal_strlit("positionsLedgerCsv");
    reveal_strlit("equityCsv");
    assert("manifestJson"@.len() == 12);
    assert("reportJson"@.len() == 10);
    assert("tradesCsv"@.len() == 9);
    assert("ordersFillsCsv"@.len() == 14);
    assert("positionsLedgerCsv"@.len() == 18);
    assert("equityCsv"@.len() == 9);
    assert("tradesCsv"@[0] == 't');
    assert("equityCsv"@[0] == 'e');
}

/// A text stands in a field part by part, with each quotation mark doubled and anything else as
/// it is.
pub proof fn quotation_marks_are_doubled(value: Seq<char>, c: char)
    ensures
        csv::doubled(Seq::<char>::empty()).len() == 0,
        c != '"' ==> csv::doubled(value.push(c)) == csv::doubled(value).push(c),
        csv::doubled(value.push('"')) == csv::doubled(value).push('"').push('"'),
{
    assert(value.push(c).drop_last() =~= value);
    assert(value.push(c).last() == c);
    assert(value.push('"').drop_last() =~= value);
    assert(value.push('"').last() == '"');
}

/// A field is the text in quotation marks; only what a spreadsheet would take for a formula
/// has a mark before it.
pub proof fn field_is_the_quoted_text(value: Seq<char>)
    ensures
        value.len() == 0 || (value[0] != '=' && value[0] != '+' && value[0] != '-' && value[0]
            != '@') ==> csv::field(value) == "\""@ + csv::doubled(value) + "\""@,
        value.len() > 0 && (value[0] == '=' || value[0] == '+' || value[0] == '-' || value[0]
            == '@') ==> csv::field(value) == "\""@ + csv::doubled("'"@ + value) + "\""@,
{
}

} // verus!

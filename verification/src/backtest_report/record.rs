//! What a finished report says of the run that it is about: which run, on what it rests, what
//! was taken for granted, and that it repeats the result and every remark.

use vstd::prelude::*;

use crate::backtest_accounting::AccountingResult;
use crate::backtest_contracts;
use crate::backtest_contracts::{
    BacktestAttempt, BacktestLifecycleEvent, BacktestResult, BacktestRunManifest, BacktestRunRecord,
};
use crate::json::JsonTree;
use crate::sorting;
use crate::text;

use super::details::ReportSnapshot;
use super::intake;
use super::model::{BacktestReport, BacktestReportDiagnostic, RemarkView};
use super::projection;
use super::projection::PricePoint;
use super::trades;

verus! {

/// A report names the run, its strategy and its data.
pub proof fn report_names_its_run(
    x: BacktestReport,
    run: BacktestRunRecord,
    manifest: BacktestRunManifest,
    result: BacktestResult,
    snapshot: ReportSnapshot,
    snapshot_fault: Option<Seq<char>>,
    attempts: Seq<BacktestAttempt>,
    events: Seq<BacktestLifecycleEvent>,
    strategy_spec: Option<JsonTree>,
    account: AccountingResult,
    prices: Seq<PricePoint>,
)
    requires
        projection::projection_is_of(
            Ok(x),
            run,
            manifest,
            result,
            snapshot,
            snapshot_fault,
            attempts,
            intake::event_views(events),
            strategy_spec,
            Some(account),
            prices,
        ),
    ensures
        x.run.run_id@ == run.run_id@,
        x.run.state@ == run.state@,
        x.run.created_at_ms == run.created_at_ms,
        x.run.completed_at_ms == run.updated_at_ms,
        x.run.strategy_id@ == manifest.content.configuration.strategy.strategy_id@,
        x.run.strategy_version_id@ == manifest.content.configuration.strategy.strategy_version_id@,
        x.run.strategy_spec_hash@ == manifest.content.configuration.strategy.strategy_spec_hash@,
        x.run.dataset_id@ == snapshot.dataset_id@,
        x.run.source_plugin_ref@ == snapshot.plugin_ref@,
        x.run.source_operation_id@ == snapshot.operation_id@,
        x.run.source_manifest_fingerprint@ == snapshot.plugin_manifest_fingerprint@,
        x.run.instruments@.len() == snapshot.instruments@.len(),
        forall|i: int|
            0 <= i < snapshot.instruments@.len() ==> (#[trigger] x.run.instruments@[i])@
                == snapshot.instruments@[i]@,
{
    let told = text::texts(x.run.instruments@);
    let named = text::texts(snapshot.instruments@);
    assert(told.len() == x.run.instruments@.len());
    assert(named.len() == snapshot.instruments@.len());
    assert forall|i: int| 0 <= i < snapshot.instruments@.len() implies (
    #[trigger] x.run.instruments@[i])@ == snapshot.instruments@[i]@ by {
        assert(told[i] == named[i]);
    }
}

/// A report rests on the manifest, the result, the data and the events of the run, by their
/// hashes.
pub proof fn report_rests_on_the_run(
    x: BacktestReport,
    run: BacktestRunRecord,
    manifest: BacktestRunManifest,
    result: BacktestResult,
    snapshot: ReportSnapshot,
    snapshot_fault: Option<Seq<char>>,
    attempts: Seq<BacktestAttempt>,
    events: Seq<BacktestLifecycleEvent>,
    strategy_spec: Option<JsonTree>,
    account: AccountingResult,
    prices: Seq<PricePoint>,
)
    requires
        projection::projection_is_of(
            Ok(x),
            run,
            manifest,
            result,
            snapshot,
            snapshot_fault,
            attempts,
            intake::event_views(events),
            strategy_spec,
            Some(account),
            prices,
        ),
    ensures
        x.metadata.manifest_hash@ == manifest.manifest_hash@,
        x.metadata.result_hash@ == result.result_hash@,
        x.metadata.dataset_hash@ == snapshot.content_hash@,
        x.metadata.current_attempt_id@ == run.current_attempt_id@,
        x.metadata.replay_ref@ == "tradeassembly://backtests/"@ + run.run_id@ + "/replay"@,
        x.metadata.lifecycle_event_hashes@.len() == events.len(),
        forall|i: int|
            0 <= i < events.len() ==> (#[trigger] x.metadata.lifecycle_event_hashes@[i])@
                == events[i].event_hash@,
        x.provenance.strategy_version_id@
            == manifest.content.configuration.strategy.strategy_version_id@,
        x.provenance.strategy_spec_hash@
            == manifest.content.configuration.strategy.strategy_spec_hash@,
        x.provenance.dataset_id@ == snapshot.dataset_id@,
        x.provenance.dataset_hash@ == snapshot.content_hash@,
        x.provenance.source_plugin_ref@ == snapshot.plugin_ref@,
        x.provenance.source_plugin_instance_ref@ == snapshot.plugin_instance_ref@,
        x.provenance.time_coverage.start@ == snapshot.time_slice.start@,
        x.provenance.time_coverage.end@ == snapshot.time_slice.end@,
        x.provenance.granularity@ == snapshot.granularity@,
{
    let told = text::texts(x.metadata.lifecycle_event_hashes@);
    let hashes = projection::event_hashes(intake::event_views(events));
    assert(told == hashes);
    assert(told.len() == x.metadata.lifecycle_event_hashes@.len());
    assert(hashes.len() == events.len());
    assert forall|i: int| 0 <= i < events.len() implies (
    #[trigger] x.metadata.lifecycle_event_hashes@[i])@ == events[i].event_hash@ by {
        assert(told[i] == hashes[i]);
    }
}

/// A report says what the run took for granted and what it was allowed to risk, as the run was
/// configured, and what it cost, as the account tells.
pub proof fn report_says_what_was_taken_for_granted(
    x: BacktestReport,
    run: BacktestRunRecord,
    manifest: BacktestRunManifest,
    result: BacktestResult,
    snapshot: ReportSnapshot,
    snapshot_fault: Option<Seq<char>>,
    attempts: Seq<BacktestAttempt>,
    events: Seq<BacktestLifecycleEvent>,
    strategy_spec: Option<JsonTree>,
    account: AccountingResult,
    prices: Seq<PricePoint>,
)
    requires
        projection::projection_is_of(
            Ok(x),
            run,
            manifest,
            result,
            snapshot,
            snapshot_fault,
            attempts,
            intake::event_views(events),
            strategy_spec,
            Some(account),
            prices,
        ),
    ensures
        x.assumptions.starting_cash_micros
            == manifest.content.configuration.capital.starting_cash_micros,
        x.assumptions.reporting_currency@
            == manifest.content.configuration.capital.reporting_currency@,
        x.assumptions.execution@ == backtest_contracts::execution_tree(
            manifest.content.configuration.execution,
        ),
        x.assumptions.costs@ == backtest_contracts::costs_tree(
            manifest.content.configuration.costs,
        ),
        x.assumptions.liquidity@ == backtest_contracts::liquidity_tree(
            manifest.content.configuration.liquidity,
        ),
        x.assumptions.risk@ == backtest_contracts::risk_tree(manifest.content.configuration.risk),
        x.assumptions.evaluator_version@ == result.content.evaluator_version@,
        x.assumptions.compiler_version@ == result.content.compiler_version@,
        x.costs_and_risk.maximum_loss_micros
            == manifest.content.configuration.risk.maximum_loss_micros,
        x.costs_and_risk.maximum_position_notional_micros
            == manifest.content.configuration.risk.maximum_position_notional_micros,
        x.costs_and_risk.maximum_order_quantity_micros
            == manifest.content.configuration.risk.maximum_order_quantity_micros,
        x.costs_and_risk.fees_micros == account@.costs,
{
}

/// Whether two lists hold the same values one for one.
pub open spec fn are_the_same(a: Seq<crate::json::Json>, b: Seq<crate::json::Json>) -> bool {
    a.len() == b.len() && forall|i: int| 0 <= i < b.len() ==> (#[trigger] a[i])@ == b[i]@
}

proof fn same_trees_are_the_same(a: Seq<crate::json::Json>, b: Seq<crate::json::Json>)
    requires
        trades::value_trees(a) == trades::value_trees(b),
    ensures
        are_the_same(a, b),
{
    let x = trades::value_trees(a);
    let y = trades::value_trees(b);
    assert(x.len() == a.len());
    assert(y.len() == b.len());
    assert forall|i: int| 0 <= i < b.len() implies (#[trigger] a[i])@ == b[i]@ by {
        assert(x[i] == y[i]);
    }
}

/// A report repeats the orders, the fills, the positions and the ledger of the result, one for
/// one and in their order.
pub proof fn report_repeats_the_result(
    x: BacktestReport,
    run: BacktestRunRecord,
    manifest: BacktestRunManifest,
    result: BacktestResult,
    snapshot: ReportSnapshot,
    snapshot_fault: Option<Seq<char>>,
    attempts: Seq<BacktestAttempt>,
    events: Seq<BacktestLifecycleEvent>,
    strategy_spec: Option<JsonTree>,
    account: AccountingResult,
    prices: Seq<PricePoint>,
)
    requires
        projection::projection_is_of(
            Ok(x),
            run,
            manifest,
            result,
            snapshot,
            snapshot_fault,
            attempts,
            intake::event_views(events),
            strategy_spec,
            Some(account),
            prices,
        ),
    ensures
        are_the_same(x.orders@, result.content.orders@),
        are_the_same(x.fills@, result.content.fills@),
        are_the_same(x.positions@, result.content.positions@),
        are_the_same(x.ledger@, result.content.ledger@),
{
    same_trees_are_the_same(x.orders@, result.content.orders@);
    same_trees_are_the_same(x.fills@, result.content.fills@);
    same_trees_are_the_same(x.positions@, result.content.positions@);
    same_trees_are_the_same(x.ledger@, result.content.ledger@);
}

/// Whether some diagnostics hold one with a severity, a code and a detail.
pub open spec fn tells(
    list: Seq<BacktestReportDiagnostic>,
    severity: backtest_contracts::DiagnosticSeverity,
    code: Seq<char>,
    detail: Seq<char>,
) -> bool {
    exists|i: int|
        0 <= i < list.len() && (#[trigger] list[i]).severity == severity && list[i].code@ == code
            && list[i].detail@ == detail
}

proof fn member_is_told(list: Seq<BacktestReportDiagnostic>, remark: RemarkView)
    requires
        sorting::views(list).contains(remark),
    ensures
        tells(list, remark.severity, remark.code, remark.detail),
{
    let views = sorting::views(list);
    assert(views.len() == list.len());
    let i = choose|i: int| 0 <= i < views.len() && views[i] == remark;
    assert(list[i]@ == remark);
}

/// Every remark on the configuration, on the result and on the data is told, with its severity.
/// Nothing else is told but that the events were verified.
pub proof fn every_remark_is_told(
    x: BacktestReport,
    run: BacktestRunRecord,
    manifest: BacktestRunManifest,
    result: BacktestResult,
    snapshot: ReportSnapshot,
    snapshot_fault: Option<Seq<char>>,
    attempts: Seq<BacktestAttempt>,
    events: Seq<BacktestLifecycleEvent>,
    strategy_spec: Option<JsonTree>,
    account: AccountingResult,
    prices: Seq<PricePoint>,
    at: int,
)
    requires
        projection::projection_is_of(
            Ok(x),
            run,
            manifest,
            result,
            snapshot,
            snapshot_fault,
            attempts,
            intake::event_views(events),
            strategy_spec,
            Some(account),
            prices,
        ),
    ensures
        x.diagnostics@.len() == manifest.content.validation.diagnostics@.len()
            + result.content.diagnostics@.len() + snapshot.quality_findings@.len() + 1,
        0 <= at < manifest.content.validation.diagnostics@.len() ==> tells(
            x.diagnostics@,
            manifest.content.validation.diagnostics@[at].severity,
            manifest.content.validation.diagnostics@[at].code@,
            manifest.content.validation.diagnostics@[at].detail@,
        ),
        0 <= at < result.content.diagnostics@.len() ==> tells(
            x.diagnostics@,
            result.content.diagnostics@[at].severity,
            result.content.diagnostics@[at].code@,
            result.content.diagnostics@[at].detail@,
        ),
        0 <= at < snapshot.quality_findings@.len() ==> tells(
            x.diagnostics@,
            snapshot.quality_findings@[at].severity,
            snapshot.quality_findings@[at].code@,
            snapshot.quality_findings@[at].detail@,
        ),
{
    let validation = backtest_contracts::diagnostic_views(
        manifest.content.validation.diagnostics@,
    );
    let own = backtest_contracts::diagnostic_views(result.content.diagnostics@);
    let findings = snapshot.quality_findings@;
    let views = intake::event_views(events);
    let turn = projection::remarks_in_turn(validation, own, findings, views);
    sorting::sorting_keeps_members(turn, projection::remark_order());
    let shown = sorting::views(x.diagnostics@);
    assert(shown == sorting::sorted(turn, projection::remark_order()));
    assert(shown.len() == x.diagnostics@.len());
    let a = validation.len() as int;
    let b = own.len() as int;
    assert(turn.len() == a + b + findings.len() + 1);
    if 0 <= at < a {
        let remark = projection::remark_of(validation[at]);
        assert(turn[at] == remark);
        assert(turn.contains(remark));
        assert(shown.contains(remark));
        member_is_told(x.diagnostics@, remark);
    }
    if 0 <= at < b {
        let remark = projection::remark_of(own[at]);
        assert(turn[a + at] == remark);
        assert(turn.contains(remark));
        assert(shown.contains(remark));
        member_is_told(x.diagnostics@, remark);
    }
    if 0 <= at < findings.len() {
        let remark = projection::finding_remark(findings[at]);
        assert(turn[a + b + at] == remark);
        assert(turn.contains(remark));
        assert(shown.contains(remark));
        member_is_told(x.diagnostics@, remark);
    }
}

} // verus!

//! The written form of an attribution journal: compact JSON, with the entries of each
//! object in the order in which they are declared.

use vstd::prelude::*;

use crate::attribution_journal::{
    ArtifactHashRef, AttributionEdge, AttributionJournalContract, AttributionRefKind,
    AttributionSourceProvenance, AttributionStableRef, AttributionWarning,
    AttributionWarningCode, AttributionWarningSeverity, CodeRef, DataSnapshotRef, DrawdownInput,
    HoldingPeriodSummary, JournalAnalyticsOutput, JournalGroupingDimension, Measure,
    PnlAttributionInput, ReplayRef, ReplayReviewContract, SkipRejectSummary, UserNoteRef,
    WinLossSummary,
};
use crate::json;
use crate::json::{json_text, Json, JsonTree};
use crate::text;
use crate::text::{join, join3};

verus! {

/// An entry of an object: its key and its value, both as they are written.
pub open spec fn entry_text(key: Seq<char>, value: Seq<char>) -> Seq<char> {
    json::json_text_of(JsonTree::Text(key)) + ":"@ + value
}

/// An object with the given entries, in their order.
pub open spec fn object_text(entries: Seq<Seq<char>>) -> Seq<char> {
    "{"@ + text::joined(entries, ","@) + "}"@
}

/// An array of the given items, in their order.
pub open spec fn array_text(items: Seq<Seq<char>>) -> Seq<char> {
    "["@ + text::joined(items, ","@) + "]"@
}

fn write_entry(key: &str, value: String) -> (r: String)
    ensures
        r@ == entry_text(key@, value@),
{
    let name = json_text(&Json::text(key));
    join3(name.as_str(), ":", value.as_str())
}

fn write_object(entries: &Vec<String>) -> (r: String)
    ensures
        r@ == object_text(text::texts(entries@)),
{
    let inside = join(entries, ",");
    join3("{", inside.as_str(), "}")
}

fn write_array<T, F: Fn(&T) -> String>(
    list: &Vec<T>,
    write: F,
    form: Ghost<spec_fn(T) -> Seq<char>>,
) -> (r: String)
    requires
        forall|x: &T| #[trigger] write.requires((x,)),
        forall|x: &T, s: String| #[trigger] write.ensures((x,), s) ==> s@ == form@(*x),
    ensures
        r@ == array_text(list@.map_values(form@)),
{
    let ghost all = list@.map_values(form@);
    let mut items: Vec<String> = Vec::new();
    let mut i: usize = 0;
    while i < list.len()
        invariant
            i <= list.len(),
            all == list@.map_values(form@),
            text::texts(items@) == all.take(i as int),
            forall|x: &T| #[trigger] write.requires((x,)),
            forall|x: &T, s: String| #[trigger] write.ensures((x,), s) ==> s@ == form@(*x),
        decreases list.len() - i,
    {
        let item = write(&list[i]);
        let ghost before = text::texts(items@);
        items.push(item);
        proof {
            assert(text::texts(items@) =~= before.push(item@));
            assert(all.take(i + 1) =~= all.take(i as int).push(all[i as int]));
        }
        i += 1;
    }
    assert(all.take(all.len() as int) =~= all);
    let inside = join(&items, ",");
    join3("[", inside.as_str(), "]")
}

/// A text, as it is written.
pub open spec fn text_written(value: Seq<char>) -> Seq<char> {
    json::json_text_of(JsonTree::Text(value))
}

fn write_text(value: &str) -> (r: String)
    ensures
        r@ == text_written(value@),
{
    json_text(&Json::text(value))
}

/// A text that may be absent, as it is written.
pub open spec fn optional_text_written(value: Option<String>) -> Seq<char> {
    json::json_text_of(json::text_or_null(text::option_text(value)))
}

fn write_optional_text(value: &Option<String>) -> (r: String)
    ensures
        r@ == optional_text_written(*value),
{
    json_text(&Json::optional_text(value))
}

/// A list of texts, as it is written.
pub open spec fn texts_written(list: Seq<String>) -> Seq<char> {
    json::json_text_of(json::text_array(text::texts(list)))
}

fn write_texts(list: &Vec<String>) -> (r: String)
    ensures
        r@ == texts_written(list@),
{
    json_text(&Json::texts(list))
}

/// A number, as it is written.
pub open spec fn number_written(value: u64) -> Seq<char> {
    json::json_text_of(JsonTree::Int(value as int))
}

fn write_number(value: u64) -> (r: String)
    ensures
        r@ == number_written(value),
{
    json_text(&Json::Large(value))
}

/// A number that may be absent, as it is written.
pub open spec fn optional_number_written(value: Option<u64>) -> Seq<char> {
    match value {
        Some(n) => number_written(n),
        None => json::json_text_of(JsonTree::Null),
    }
}

fn write_optional_number(value: Option<u64>) -> (r: String)
    ensures
        r@ == optional_number_written(value),
{
    match value {
        Some(n) => write_number(n),
        None => json_text(&Json::Null),
    }
}

/// A truth value, as it is written.
pub open spec fn flag_written(value: bool) -> Seq<char> {
    json::json_text_of(JsonTree::Bool(value))
}

fn write_flag(value: bool) -> (r: String)
    ensures
        r@ == flag_written(value),
{
    json_text(&Json::Bool(value))
}

/// A measure, as it is written: one that is not finite is written as nothing.
pub open spec fn measure_written(m: Measure) -> Seq<char> {
    if m.finite {
        json::json_text_of(JsonTree::Real(m.spelled@))
    } else {
        json::json_text_of(JsonTree::Null)
    }
}

fn write_measure(m: &Measure) -> (r: String)
    ensures
        r@ == measure_written(*m),
{
    if m.finite {
        json_text(&Json::Real(m.spelled.clone()))
    } else {
        json_text(&Json::Null)
    }
}

/// The name of a kind of ref.
pub open spec fn kind_name(x: AttributionRefKind) -> Seq<char> {
    match x {
        AttributionRefKind::StrategyVersion => "strategy_version"@,
        AttributionRefKind::SelectorRun => "selector_run"@,
        AttributionRefKind::BacktestRun => "backtest_run"@,
        AttributionRefKind::LedgerCheckpoint => "ledger_checkpoint"@,
        AttributionRefKind::ExecutionEvent => "execution_event"@,
        AttributionRefKind::ValuationSnapshot => "valuation_snapshot"@,
        AttributionRefKind::UserNote => "user_note"@,
        AttributionRefKind::ReportArtifact => "report_artifact"@,
        AttributionRefKind::FillQualityReport => "fill_quality_report"@,
    }
}

fn write_kind(x: &AttributionRefKind) -> (r: String)
    ensures
        r@ == text_written(kind_name(*x)),
{
    let name: &str = match x {
        AttributionRefKind::StrategyVersion => "strategy_version",
        AttributionRefKind::SelectorRun => "selector_run",
        AttributionRefKind::BacktestRun => "backtest_run",
        AttributionRefKind::LedgerCheckpoint => "ledger_checkpoint",
        AttributionRefKind::ExecutionEvent => "execution_event",
        AttributionRefKind::ValuationSnapshot => "valuation_snapshot",
        AttributionRefKind::UserNote => "user_note",
        AttributionRefKind::ReportArtifact => "report_artifact",
        AttributionRefKind::FillQualityReport => "fill_quality_report",
    };
    write_text(name)
}

/// The name of what a journal is grouped by.
pub open spec fn dimension_name(x: JournalGroupingDimension) -> Seq<char> {
    match x {
        JournalGroupingDimension::StrategyVersion => "strategy_version"@,
        JournalGroupingDimension::Underlying => "underlying"@,
        JournalGroupingDimension::Instrument => "instrument"@,
        JournalGroupingDimension::Leg => "leg"@,
        JournalGroupingDimension::EntryDate => "entry_date"@,
        JournalGroupingDimension::ExitDate => "exit_date"@,
        JournalGroupingDimension::HoldingPeriodBucket => "holding_period_bucket"@,
        JournalGroupingDimension::Outcome => "outcome"@,
        JournalGroupingDimension::SkipReason => "skip_reason"@,
        JournalGroupingDimension::RejectReason => "reject_reason"@,
        JournalGroupingDimension::FillQualityBucket => "fill_quality_bucket"@,
        JournalGroupingDimension::UserTag => "user_tag"@,
    }
}

fn write_dimension(x: &JournalGroupingDimension) -> (r: String)
    ensures
        r@ == text_written(dimension_name(*x)),
{
    let name: &str = match x {
        JournalGroupingDimension::StrategyVersion => "strategy_version",
        JournalGroupingDimension::Underlying => "underlying",
        JournalGroupingDimension::Instrument => "instrument",
        JournalGroupingDimension::Leg => "leg",
        JournalGroupingDimension::EntryDate => "entry_date",
        JournalGroupingDimension::ExitDate => "exit_date",
        JournalGroupingDimension::HoldingPeriodBucket => "holding_period_bucket",
        JournalGroupingDimension::Outcome => "outcome",
        JournalGroupingDimension::SkipReason => "skip_reason",
        JournalGroupingDimension::RejectReason => "reject_reason",
        JournalGroupingDimension::FillQualityBucket => "fill_quality_bucket",
        JournalGroupingDimension::UserTag => "user_tag",
    };
    write_text(name)
}

/// The name of a severity.
pub open spec fn severity_name(x: AttributionWarningSeverity) -> Seq<char> {
    match x {
        AttributionWarningSeverity::Warning => "warning"@,
        AttributionWarningSeverity::Error => "error"@,
    }
}

fn write_severity(x: &AttributionWarningSeverity) -> (r: String)
    ensures
        r@ == text_written(severity_name(*x)),
{
    let name: &str = match x {
        AttributionWarningSeverity::Warning => "warning",
        AttributionWarningSeverity::Error => "error",
    };
    write_text(name)
}

/// The name of what a warning is about.
pub open spec fn code_name(x: AttributionWarningCode) -> Seq<char> {
    match x {
        AttributionWarningCode::UnsupportedSchema => "unsupported_schema"@,
        AttributionWarningCode::MissingRef => "missing_ref"@,
        AttributionWarningCode::MissingRequiredRefKind => "missing_required_ref_kind"@,
        AttributionWarningCode::StaleArtifact => "stale_artifact"@,
        AttributionWarningCode::HashMismatch => "hash_mismatch"@,
        AttributionWarningCode::UnverifiedDataSource => "unverified_data_source"@,
        AttributionWarningCode::IncompleteJournalState => "incomplete_journal_state"@,
        AttributionWarningCode::IncompleteReplayState => "incomplete_replay_state"@,
        AttributionWarningCode::RawSecretRejected => "raw_secret_rejected"@,
        AttributionWarningCode::PredictiveOrAdviceCopyRejected => "predictive_or_advice_copy_rejected"@,
    }
}

fn write_code(x: &AttributionWarningCode) -> (r: String)
    ensures
        r@ == text_written(code_name(*x)),
{
    let name: &str = match x {
        AttributionWarningCode::UnsupportedSchema => "unsupported_schema",
        AttributionWarningCode::MissingRef => "missing_ref",
        AttributionWarningCode::MissingRequiredRefKind => "missing_required_ref_kind",
        AttributionWarningCode::StaleArtifact => "stale_artifact",
        AttributionWarningCode::HashMismatch => "hash_mismatch",
        AttributionWarningCode::UnverifiedDataSource => "unverified_data_source",
        AttributionWarningCode::IncompleteJournalState => "incomplete_journal_state",
        AttributionWarningCode::IncompleteReplayState => "incomplete_replay_state",
        AttributionWarningCode::RawSecretRejected => "raw_secret_rejected",
        AttributionWarningCode::PredictiveOrAdviceCopyRejected => "predictive_or_advice_copy_rejected",
    };
    write_text(name)
}

/// The entries of the object as which an [`AttributionSourceProvenance`] is written.
pub open spec fn provenance_entries(x: AttributionSourceProvenance) -> Seq<Seq<char>> {
    seq![
        entry_text("source"@, text_written(x.source@)),
        entry_text("sourceRef"@, text_written(x.source_ref@)),
        entry_text("collectedAtUnixMs"@, number_written(x.collected_at_unix_ms)),
        entry_text("rawSecretsExposed"@, flag_written(x.raw_secrets_exposed)),
    ]
}

/// Where something comes from, as it is written.
pub open spec fn provenance_written(x: AttributionSourceProvenance) -> Seq<char> {
    object_text(provenance_entries(x))
}

fn write_provenance(x: &AttributionSourceProvenance) -> (r: String)
    ensures
        r@ == provenance_written(*x),
{
    let entries: Vec<String> = vec![
        write_entry("source", write_text(x.source.as_str())),
        write_entry("sourceRef", write_text(x.source_ref.as_str())),
        write_entry("collectedAtUnixMs", write_number(x.collected_at_unix_ms)),
        write_entry("rawSecretsExposed", write_flag(x.raw_secrets_exposed)),
    ];
    assert(text::texts(entries@) =~= provenance_entries(*x));
    write_object(&entries)
}

/// The entries of the object as which an [`AttributionStableRef`] is written.
pub open spec fn stable_ref_entries(x: AttributionStableRef) -> Seq<Seq<char>> {
    seq![
        entry_text("refId"@, text_written(x.ref_id@)),
        entry_text("refKind"@, text_written(kind_name(x.ref_kind))),
        entry_text("refUri"@, text_written(x.ref_uri@)),
        entry_text("contentHash"@, text_written(x.content_hash@)),
        entry_text("observedHash"@, optional_text_written(x.observed_hash)),
        entry_text("asOfUnixMs"@, number_written(x.as_of_unix_ms)),
        entry_text("staleAfterUnixMs"@, optional_number_written(x.stale_after_unix_ms)),
        entry_text("verifiedDataSource"@, flag_written(x.verified_data_source)),
        entry_text("provenance"@, provenance_written(x.provenance)),
    ]
}

/// A ref, as it is written.
pub open spec fn stable_ref_written(x: AttributionStableRef) -> Seq<char> {
    object_text(stable_ref_entries(x))
}

fn write_stable_ref(x: &AttributionStableRef) -> (r: String)
    ensures
        r@ == stable_ref_written(*x),
{
    let entries: Vec<String> = vec![
        write_entry("refId", write_text(x.ref_id.as_str())),
        write_entry("refKind", write_kind(&x.ref_kind)),
        write_entry("refUri", write_text(x.ref_uri.as_str())),
        write_entry("contentHash", write_text(x.content_hash.as_str())),
        write_entry("observedHash", write_optional_text(&x.observed_hash)),
        write_entry("asOfUnixMs", write_number(x.as_of_unix_ms)),
        write_entry("staleAfterUnixMs", write_optional_number(x.stale_after_unix_ms)),
        write_entry("verifiedDataSource", write_flag(x.verified_data_source)),
        write_entry("provenance", write_provenance(&x.provenance)),
    ];
    assert(text::texts(entries@) =~= stable_ref_entries(*x));
    write_object(&entries)
}

/// The entries of the object as which an [`AttributionEdge`] is written.
pub open spec fn edge_entries(x: AttributionEdge) -> Seq<Seq<char>> {
    seq![
        entry_text("edgeId"@, text_written(x.edge_id@)),
        entry_text("fromRef"@, text_written(x.from_ref@)),
        entry_text("toRef"@, text_written(x.to_ref@)),
        entry_text("relation"@, text_written(x.relation@)),
        entry_text("evidenceHash"@, text_written(x.evidence_hash@)),
    ]
}

/// An edge, as it is written.
pub open spec fn edge_written(x: AttributionEdge) -> Seq<char> {
    object_text(edge_entries(x))
}

fn write_edge(x: &AttributionEdge) -> (r: String)
    ensures
        r@ == edge_written(*x),
{
    let entries: Vec<String> = vec![
        write_entry("edgeId", write_text(x.edge_id.as_str())),
        write_entry("fromRef", write_text(x.from_ref.as_str())),
        write_entry("toRef", write_text(x.to_ref.as_str())),
        write_entry("relation", write_text(x.relation.as_str())),
        write_entry("evidenceHash", write_text(x.evidence_hash.as_str())),
    ];
    assert(text::texts(entries@) =~= edge_entries(*x));
    write_object(&entries)
}

/// The entries of the object as which a [`UserNoteRef`] is written.
pub open spec fn note_entries(x: UserNoteRef) -> Seq<Seq<char>> {
    seq![
        entry_text("noteId"@, text_written(x.note_id@)),
        entry_text("noteRef"@, text_written(x.note_ref@)),
        entry_text("contentHash"@, text_written(x.content_hash@)),
        entry_text("explicitlySaved"@, flag_written(x.explicitly_saved)),
        entry_text("createdAtUnixMs"@, number_written(x.created_at_unix_ms)),
        entry_text("provenance"@, provenance_written(x.provenance)),
    ]
}

/// A note, as it is written.
pub open spec fn note_written(x: UserNoteRef) -> Seq<char> {
    object_text(note_entries(x))
}

fn write_note(x: &UserNoteRef) -> (r: String)
    ensures
        r@ == note_written(*x),
{
    let entries: Vec<String> = vec![
        write_entry("noteId", write_text(x.note_id.as_str())),
        write_entry("noteRef", write_text(x.note_ref.as_str())),
        write_entry("contentHash", write_text(x.content_hash.as_str())),
        write_entry("explicitlySaved", write_flag(x.explicitly_saved)),
        write_entry("createdAtUnixMs", write_number(x.created_at_unix_ms)),
        write_entry("provenance", write_provenance(&x.provenance)),
    ];
    assert(text::texts(entries@) =~= note_entries(*x));
    write_object(&entries)
}

/// The entries of the object as which a [`PnlAttributionInput`] is written.
pub open spec fn pnl_input_entries(x: PnlAttributionInput) -> Seq<Seq<char>> {
    seq![
        entry_text("inputId"@, text_written(x.input_id@)),
        entry_text("basis"@, text_written(x.basis@)),
        entry_text("currency"@, text_written(x.currency@)),
        entry_text("grossPnl"@, measure_written(x.gross_pnl)),
        entry_text("fees"@, measure_written(x.fees)),
        entry_text("netPnl"@, measure_written(x.net_pnl)),
        entry_text("quantity"@, measure_written(x.quantity)),
        entry_text("strategyRef"@, text_written(x.strategy_ref@)),
        entry_text("executionRef"@, text_written(x.execution_ref@)),
        entry_text("valuationRef"@, optional_text_written(x.valuation_ref)),
    ]
}

/// What a profit or a loss is made of, as it is written.
pub open spec fn pnl_input_written(x: PnlAttributionInput) -> Seq<char> {
    object_text(pnl_input_entries(x))
}

fn write_pnl_input(x: &PnlAttributionInput) -> (r: String)
    ensures
        r@ == pnl_input_written(*x),
{
    let entries: Vec<String> = vec![
        write_entry("inputId", write_text(x.input_id.as_str())),
        write_entry("basis", write_text(x.basis.as_str())),
        write_entry("currency", write_text(x.currency.as_str())),
        write_entry("grossPnl", write_measure(&x.gross_pnl)),
        write_entry("fees", write_measure(&x.fees)),
        write_entry("netPnl", write_measure(&x.net_pnl)),
        write_entry("quantity", write_measure(&x.quantity)),
        write_entry("strategyRef", write_text(x.strategy_ref.as_str())),
        write_entry("executionRef", write_text(x.execution_ref.as_str())),
        write_entry("valuationRef", write_optional_text(&x.valuation_ref)),
    ];
    assert(text::texts(entries@) =~= pnl_input_entries(*x));
    write_object(&entries)
}

/// The entries of the object as which a [`WinLossSummary`] is written.
pub open spec fn win_loss_entries(x: WinLossSummary) -> Seq<Seq<char>> {
    seq![
        entry_text("totalClosed"@, number_written(x.total_closed)),
        entry_text("wins"@, number_written(x.wins)),
        entry_text("losses"@, number_written(x.losses)),
        entry_text("flat"@, number_written(x.flat)),
    ]
}

/// A count of wins and losses, as it is written.
pub open spec fn win_loss_written(x: WinLossSummary) -> Seq<char> {
    object_text(win_loss_entries(x))
}

fn write_win_loss(x: &WinLossSummary) -> (r: String)
    ensures
        r@ == win_loss_written(*x),
{
    let entries: Vec<String> = vec![
        write_entry("totalClosed", write_number(x.total_closed)),
        write_entry("wins", write_number(x.wins)),
        write_entry("losses", write_number(x.losses)),
        write_entry("flat", write_number(x.flat)),
    ];
    assert(text::texts(entries@) =~= win_loss_entries(*x));
    write_object(&entries)
}

/// The entries of the object as which a [`DrawdownInput`] is written.
pub open spec fn drawdown_entries(x: DrawdownInput) -> Seq<Seq<char>> {
    seq![
        entry_text("inputId"@, text_written(x.input_id@)),
        entry_text("equityCurveRef"@, text_written(x.equity_curve_ref@)),
        entry_text("contentHash"@, text_written(x.content_hash@)),
        entry_text("peakValue"@, measure_written(x.peak_value)),
        entry_text("troughValue"@, measure_written(x.trough_value)),
    ]
}

/// What a drawdown is made of, as it is written.
pub open spec fn drawdown_written(x: DrawdownInput) -> Seq<char> {
    object_text(drawdown_entries(x))
}

fn write_drawdown(x: &DrawdownInput) -> (r: String)
    ensures
        r@ == drawdown_written(*x),
{
    let entries: Vec<String> = vec![
        write_entry("inputId", write_text(x.input_id.as_str())),
        write_entry("equityCurveRef", write_text(x.equity_curve_ref.as_str())),
        write_entry("contentHash", write_text(x.content_hash.as_str())),
        write_entry("peakValue", write_measure(&x.peak_value)),
        write_entry("troughValue", write_measure(&x.trough_value)),
    ];
    assert(text::texts(entries@) =~= drawdown_entries(*x));
    write_object(&entries)
}

/// The entries of the object as which a [`HoldingPeriodSummary`] is written.
pub open spec fn holding_period_entries(x: HoldingPeriodSummary) -> Seq<Seq<char>> {
    seq![
        entry_text("bucket"@, text_written(x.bucket@)),
        entry_text("tradeCount"@, number_written(x.trade_count)),
        entry_text("averageHoldingMs"@, number_written(x.average_holding_ms)),
        entry_text("netPnl"@, measure_written(x.net_pnl)),
    ]
}

/// How long positions were held, as it is written.
pub open spec fn holding_period_written(x: HoldingPeriodSummary) -> Seq<char> {
    object_text(holding_period_entries(x))
}

fn write_holding_period(x: &HoldingPeriodSummary) -> (r: String)
    ensures
        r@ == holding_period_written(*x),
{
    let entries: Vec<String> = vec![
        write_entry("bucket", write_text(x.bucket.as_str())),
        write_entry("tradeCount", write_number(x.trade_count)),
        write_entry("averageHoldingMs", write_number(x.average_holding_ms)),
        write_entry("netPnl", write_measure(&x.net_pnl)),
    ];
    assert(text::texts(entries@) =~= holding_period_entries(*x));
    write_object(&entries)
}

/// The entries of the object as which a [`SkipRejectSummary`] is written.
pub open spec fn skip_reject_entries(x: SkipRejectSummary) -> Seq<Seq<char>> {
    seq![
        entry_text("reasonCode"@, text_written(x.reason_code@)),
        entry_text("reasonKind"@, text_written(x.reason_kind@)),
        entry_text("count"@, number_written(x.count)),
        entry_text("sourceRefs"@, texts_written(x.source_refs@)),
    ]
}

/// Why something was skipped or rejected, as it is written.
pub open spec fn skip_reject_written(x: SkipRejectSummary) -> Seq<char> {
    object_text(skip_reject_entries(x))
}

fn write_skip_reject(x: &SkipRejectSummary) -> (r: String)
    ensures
        r@ == skip_reject_written(*x),
{
    let entries: Vec<String> = vec![
        write_entry("reasonCode", write_text(x.reason_code.as_str())),
        write_entry("reasonKind", write_text(x.reason_kind.as_str())),
        write_entry("count", write_number(x.count)),
        write_entry("sourceRefs", write_texts(&x.source_refs)),
    ];
    assert(text::texts(entries@) =~= skip_reject_entries(*x));
    write_object(&entries)
}

/// The entries of the object as which a [`JournalAnalyticsOutput`] is written.
pub open spec fn analytics_entries(x: JournalAnalyticsOutput) -> Seq<Seq<char>> {
    seq![
        entry_text(
            "groupingDimensions"@,
            array_text(
                x.grouping_dimensions@.map_values(
                    |d: JournalGroupingDimension| text_written(dimension_name(d)),
                ),
            ),
        ),
        entry_text(
            "pnlInputs"@,
            array_text(x.pnl_inputs@.map_values(|y: PnlAttributionInput| pnl_input_written(y))),
        ),
        entry_text("winLossSummary"@, win_loss_written(x.win_loss_summary)),
        entry_text(
            "drawdownInputs"@,
            array_text(x.drawdown_inputs@.map_values(|y: DrawdownInput| drawdown_written(y))),
        ),
        entry_text(
            "holdingPeriodSummaries"@,
            array_text(
                x.holding_period_summaries@.map_values(
                    |y: HoldingPeriodSummary| holding_period_written(y),
                ),
            ),
        ),
        entry_text(
            "skipRejectSummaries"@,
            array_text(
                x.skip_reject_summaries@.map_values(|y: SkipRejectSummary| skip_reject_written(y)),
            ),
        ),
        entry_text("fillQualityRefs"@, texts_written(x.fill_quality_refs@)),
        entry_text("provenance"@, provenance_written(x.provenance)),
    ]
}

/// What a journal adds up to, as it is written.
pub open spec fn analytics_written(x: JournalAnalyticsOutput) -> Seq<char> {
    object_text(analytics_entries(x))
}

fn write_analytics(x: &JournalAnalyticsOutput) -> (r: String)
    ensures
        r@ == analytics_written(*x),
{
    let grouping_dimensions = write_array(
        &x.grouping_dimensions,
        write_dimension,
        Ghost(|d: JournalGroupingDimension| text_written(dimension_name(d))),
    );
    let pnl_inputs = write_array(
        &x.pnl_inputs,
        write_pnl_input,
        Ghost(|y: PnlAttributionInput| pnl_input_written(y)),
    );
    let drawdown_inputs = write_array(
        &x.drawdown_inputs,
        write_drawdown,
        Ghost(|y: DrawdownInput| drawdown_written(y)),
    );
    let holding_period_summaries = write_array(
        &x.holding_period_summaries,
        write_holding_period,
        Ghost(|y: HoldingPeriodSummary| holding_period_written(y)),
    );
    let skip_reject_summaries = write_array(
        &x.skip_reject_summaries,
        write_skip_reject,
        Ghost(|y: SkipRejectSummary| skip_reject_written(y)),
    );
    let entries: Vec<String> = vec![
        write_entry("groupingDimensions", grouping_dimensions),
        write_entry("pnlInputs", pnl_inputs),
        write_entry("winLossSummary", write_win_loss(&x.win_loss_summary)),
        write_entry("drawdownInputs", drawdown_inputs),
        write_entry("holdingPeriodSummaries", holding_period_summaries),
        write_entry("skipRejectSummaries", skip_reject_summaries),
        write_entry("fillQualityRefs", write_texts(&x.fill_quality_refs)),
        write_entry("provenance", write_provenance(&x.provenance)),
    ];
    assert(text::texts(entries@) =~= analytics_entries(*x));
    write_object(&entries)
}

/// The entries of the object as which a [`CodeRef`] is written.
pub open spec fn code_ref_entries(x: CodeRef) -> Seq<Seq<char>> {
    seq![
        entry_text("codeRef"@, text_written(x.code_ref@)),
        entry_text("commitSha"@, text_written(x.commit_sha@)),
        entry_text("contentHash"@, text_written(x.content_hash@)),
    ]
}

/// A version of the code, as it is written.
pub open spec fn code_ref_written(x: CodeRef) -> Seq<char> {
    object_text(code_ref_entries(x))
}

fn write_code_ref(x: &CodeRef) -> (r: String)
    ensures
        r@ == code_ref_written(*x),
{
    let entries: Vec<String> = vec![
        write_entry("codeRef", write_text(x.code_ref.as_str())),
        write_entry("commitSha", write_text(x.commit_sha.as_str())),
        write_entry("contentHash", write_text(x.content_hash.as_str())),
    ];
    assert(text::texts(entries@) =~= code_ref_entries(*x));
    write_object(&entries)
}

/// The entries of the object as which an [`ArtifactHashRef`] is written.
pub open spec fn artifact_entries(x: ArtifactHashRef) -> Seq<Seq<char>> {
    seq![
        entry_text("artifactRef"@, text_written(x.artifact_ref@)),
        entry_text("contentHash"@, text_written(x.content_hash@)),
    ]
}

/// An artifact and its hash, as they are written.
pub open spec fn artifact_written(x: ArtifactHashRef) -> Seq<char> {
    object_text(artifact_entries(x))
}

fn write_artifact(x: &ArtifactHashRef) -> (r: String)
    ensures
        r@ == artifact_written(*x),
{
    let entries: Vec<String> = vec![
        write_entry("artifactRef", write_text(x.artifact_ref.as_str())),
        write_entry("contentHash", write_text(x.content_hash.as_str())),
    ];
    assert(text::texts(entries@) =~= artifact_entries(*x));
    write_object(&entries)
}

/// The entries of the object as which a [`DataSnapshotRef`] is written.
pub open spec fn data_snapshot_entries(x: DataSnapshotRef) -> Seq<Seq<char>> {
    seq![
        entry_text("snapshotRef"@, text_written(x.snapshot_ref@)),
        entry_text("contentHash"@, text_written(x.content_hash@)),
        entry_text("asOfUnixMs"@, number_written(x.as_of_unix_ms)),
        entry_text("staleAfterUnixMs"@, optional_number_written(x.stale_after_unix_ms)),
        entry_text("verifiedDataSource"@, flag_written(x.verified_data_source)),
        entry_text("provenance"@, provenance_written(x.provenance)),
    ]
}

/// A snapshot of data, as it is written.
pub open spec fn data_snapshot_written(x: DataSnapshotRef) -> Seq<char> {
    object_text(data_snapshot_entries(x))
}

fn write_data_snapshot(x: &DataSnapshotRef) -> (r: String)
    ensures
        r@ == data_snapshot_written(*x),
{
    let entries: Vec<String> = vec![
        write_entry("snapshotRef", write_text(x.snapshot_ref.as_str())),
        write_entry("contentHash", write_text(x.content_hash.as_str())),
        write_entry("asOfUnixMs", write_number(x.as_of_unix_ms)),
        write_entry("staleAfterUnixMs", write_optional_number(x.stale_after_unix_ms)),
        write_entry("verifiedDataSource", write_flag(x.verified_data_source)),
        write_entry("provenance", write_provenance(&x.provenance)),
    ];
    assert(text::texts(entries@) =~= data_snapshot_entries(*x));
    write_object(&entries)
}

/// The entries of the object as which a [`ReplayRef`] is written.
pub open spec fn replay_ref_entries(x: ReplayRef) -> Seq<Seq<char>> {
    seq![
        entry_text("replayRef"@, text_written(x.replay_ref@)),
        entry_text("deterministic"@, flag_written(x.deterministic)),
    ]
}

/// A replay, as it is written.
pub open spec fn replay_ref_written(x: ReplayRef) -> Seq<char> {
    object_text(replay_ref_entries(x))
}

fn write_replay_ref(x: &ReplayRef) -> (r: String)
    ensures
        r@ == replay_ref_written(*x),
{
    let entries: Vec<String> = vec![
        write_entry("replayRef", write_text(x.replay_ref.as_str())),
        write_entry("deterministic", write_flag(x.deterministic)),
    ];
    assert(text::texts(entries@) =~= replay_ref_entries(*x));
    write_object(&entries)
}

/// The entries of the object as which a [`ReplayReviewContract`] is written.
pub open spec fn replay_review_entries(x: ReplayReviewContract) -> Seq<Seq<char>> {
    seq![
        entry_text("replayId"@, text_written(x.replay_id@)),
        entry_text("reproducedResultRef"@, text_written(x.reproduced_result_ref@)),
        entry_text("inputRefs"@, texts_written(x.input_refs@)),
        entry_text(
            "codeRefs"@,
            array_text(x.code_refs@.map_values(|y: CodeRef| code_ref_written(y))),
        ),
        entry_text(
            "artifactHashes"@,
            array_text(x.artifact_hashes@.map_values(|y: ArtifactHashRef| artifact_written(y))),
        ),
        entry_text(
            "dataSnapshots"@,
            array_text(x.data_snapshots@.map_values(|y: DataSnapshotRef| data_snapshot_written(y))),
        ),
        entry_text("userSettingsHash"@, text_written(x.user_settings_hash@)),
        entry_text("deterministic"@, flag_written(x.deterministic)),
        entry_text("reproducedAtUnixMs"@, number_written(x.reproduced_at_unix_ms)),
    ]
}

/// What a replay names, as it is written.
pub open spec fn replay_review_written(x: ReplayReviewContract) -> Seq<char> {
    object_text(replay_review_entries(x))
}

fn write_replay_review(x: &ReplayReviewContract) -> (r: String)
    ensures
        r@ == replay_review_written(*x),
{
    let code_refs = write_array(
        &x.code_refs,
        write_code_ref,
        Ghost(|y: CodeRef| code_ref_written(y)),
    );
    let artifact_hashes = write_array(
        &x.artifact_hashes,
        write_artifact,
        Ghost(|y: ArtifactHashRef| artifact_written(y)),
    );
    let data_snapshots = write_array(
        &x.data_snapshots,
        write_data_snapshot,
        Ghost(|y: DataSnapshotRef| data_snapshot_written(y)),
    );
    let entries: Vec<String> = vec![
        write_entry("replayId", write_text(x.replay_id.as_str())),
        write_entry("reproducedResultRef", write_text(x.reproduced_result_ref.as_str())),
        write_entry("inputRefs", write_texts(&x.input_refs)),
        write_entry("codeRefs", code_refs),
        write_entry("artifactHashes", artifact_hashes),
        write_entry("dataSnapshots", data_snapshots),
        write_entry("userSettingsHash", write_text(x.user_settings_hash.as_str())),
        write_entry("deterministic", write_flag(x.deterministic)),
        write_entry("reproducedAtUnixMs", write_number(x.reproduced_at_unix_ms)),
    ];
    assert(text::texts(entries@) =~= replay_review_entries(*x));
    write_object(&entries)
}

/// The entries of the object as which an [`AttributionWarning`] is written.
pub open spec fn warning_entries(x: AttributionWarning) -> Seq<Seq<char>> {
    seq![
        entry_text("code"@, text_written(code_name(x.code))),
        entry_text("severity"@, text_written(severity_name(x.severity))),
        entry_text("message"@, text_written(x.message@)),
        entry_text("replayRef"@, text_written(x.replay_ref@)),
    ]
}

/// A warning, as it is written.
pub open spec fn warning_written(x: AttributionWarning) -> Seq<char> {
    object_text(warning_entries(x))
}

fn write_warning(x: &AttributionWarning) -> (r: String)
    ensures
        r@ == warning_written(*x),
{
    let entries: Vec<String> = vec![
        write_entry("code", write_code(&x.code)),
        write_entry("severity", write_severity(&x.severity)),
        write_entry("message", write_text(x.message.as_str())),
        write_entry("replayRef", write_text(x.replay_ref.as_str())),
    ];
    assert(text::texts(entries@) =~= warning_entries(*x));
    write_object(&entries)
}

/// The entries of the object as which an [`AttributionJournalContract`] is written.
pub open spec fn journal_entries(x: AttributionJournalContract) -> Seq<Seq<char>> {
    seq![
        entry_text("schemaVersion"@, text_written(x.schema_version@)),
        entry_text("reviewId"@, text_written(x.review_id@)),
        entry_text("strategyId"@, text_written(x.strategy_id@)),
        entry_text("generatedAtUnixMs"@, number_written(x.generated_at_unix_ms)),
        entry_text(
            "refs"@,
            array_text(x.refs@.map_values(|y: AttributionStableRef| stable_ref_written(y))),
        ),
        entry_text(
            "attributionEdges"@,
            array_text(x.attribution_edges@.map_values(|y: AttributionEdge| edge_written(y))),
        ),
        entry_text(
            "userNotes"@,
            array_text(x.user_notes@.map_values(|y: UserNoteRef| note_written(y))),
        ),
        entry_text("analytics"@, analytics_written(x.analytics)),
        entry_text("replayReview"@, replay_review_written(x.replay_review)),
        entry_text(
            "warnings"@,
            array_text(x.warnings@.map_values(|y: AttributionWarning| warning_written(y))),
        ),
        entry_text(
            "replayRefs"@,
            array_text(x.replay_refs@.map_values(|y: ReplayRef| replay_ref_written(y))),
        ),
        entry_text("metadata"@, json::json_text_of(JsonTree::Object(x.metadata@))),
        entry_text("noAdviceNotice"@, text_written(x.no_advice_notice@)),
    ]
}

/// A journal, as it is written: compact JSON with the entries in a fixed order.
pub open spec fn journal_written(x: AttributionJournalContract) -> Seq<char> {
    object_text(journal_entries(x))
}

/// Writes a journal.
pub fn write_journal(x: &AttributionJournalContract) -> (r: String)
    ensures
        r@ == journal_written(*x),
{
    let refs = write_array(
        &x.refs,
        write_stable_ref,
        Ghost(|y: AttributionStableRef| stable_ref_written(y)),
    );
    let attribution_edges = write_array(
        &x.attribution_edges,
        write_edge,
        Ghost(|y: AttributionEdge| edge_written(y)),
    );
    let user_notes = write_array(
        &x.user_notes,
        write_note,
        Ghost(|y: UserNoteRef| note_written(y)),
    );
    let warnings = write_array(
        &x.warnings,
        write_warning,
        Ghost(|y: AttributionWarning| warning_written(y)),
    );
    let replay_refs = write_array(
        &x.replay_refs,
        write_replay_ref,
        Ghost(|y: ReplayRef| replay_ref_written(y)),
    );
    let entries: Vec<String> = vec![
        write_entry("schemaVersion", write_text(x.schema_version.as_str())),
        write_entry("reviewId", write_text(x.review_id.as_str())),
        write_entry("strategyId", write_text(x.strategy_id.as_str())),
        write_entry("generatedAtUnixMs", write_number(x.generated_at_unix_ms)),
        write_entry("refs", refs),
        write_entry("attributionEdges", attribution_edges),
        write_entry("userNotes", user_notes),
        write_entry("analytics", write_analytics(&x.analytics)),
        write_entry("replayReview", write_replay_review(&x.replay_review)),
        write_entry("warnings", warnings),
        write_entry("replayRefs", replay_refs),
        write_entry("metadata", json_text(&Json::Object(x.metadata.copy()))),
        write_entry("noAdviceNotice", write_text(x.no_advice_notice.as_str())),
    ];
    assert(text::texts(entries@) =~= journal_entries(*x));
    write_object(&entries)
}

} // verus!

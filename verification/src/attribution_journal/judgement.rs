//! When a journal passes: every rule that it has to meet, in one place, and what is said of
//! one that it does not meet.

use vstd::prelude::*;

use crate::attribution_journal;
use crate::attribution_journal::{
    AttributionJournalContract, AttributionRefKind, AttributionWarningCode,
    AttributionWarningSeverity, JournalAnalyticsOutput, ReplayReviewContract, WarningView,
};
use crate::json::JsonTree;
use crate::text;

verus! {

/// Whether a journal is of the one schema, is about a review of a strategy, and can be
/// replayed.
pub open spec fn is_scoped(c: AttributionJournalContract) -> bool {
    &&& c.schema_version@ == "tradeassembly.attribution_journal.v1"@
    &&& !text::is_blank(c.review_id@)
    &&& !text::is_blank(c.strategy_id@)
    &&& exists|i: int| 0 <= i < c.replay_refs@.len() && (#[trigger] c.replay_refs@[i]).deterministic
}

/// Whether a journal holds a ref of a kind.
pub open spec fn has(c: AttributionJournalContract, kind: AttributionRefKind) -> bool {
    exists|i: int| 0 <= i < c.refs@.len() && (#[trigger] c.refs@[i]).ref_kind == kind
}

/// Whether a journal holds a ref of every kind.
pub open spec fn has_every_kind(c: AttributionJournalContract) -> bool {
    &&& has(c, AttributionRefKind::StrategyVersion)
    &&& has(c, AttributionRefKind::SelectorRun)
    &&& has(c, AttributionRefKind::BacktestRun)
    &&& has(c, AttributionRefKind::LedgerCheckpoint)
    &&& has(c, AttributionRefKind::ExecutionEvent)
    &&& has(c, AttributionRefKind::ValuationSnapshot)
    &&& has(c, AttributionRefKind::UserNote)
    &&& has(c, AttributionRefKind::ReportArtifact)
    &&& has(c, AttributionRefKind::FillQualityReport)
}

/// Whether every ref of a journal is named, hashed, sourced, of its own content, not older
/// than it may be, verified, and free of secrets.
pub open spec fn refs_are_sound(c: AttributionJournalContract) -> bool {
    forall|i: int|
        0 <= i < c.refs@.len() ==> {
            let r = #[trigger] c.refs@[i];
            &&& !text::is_blank(r.ref_id@)
            &&& !text::is_blank(r.ref_uri@)
            &&& text::begins(r.content_hash@, "sha256:"@)
            &&& !text::is_blank(r.provenance.source@)
            &&& !text::is_blank(r.provenance.source_ref@)
            &&& r.observed_hash matches Some(observed) ==> observed@ == r.content_hash@
            &&& r.stale_after_unix_ms matches Some(limit) ==> r.as_of_unix_ms <= limit
            &&& r.verified_data_source
            &&& !r.provenance.raw_secrets_exposed
            &&& !attribution_journal::is_secret_like(r.ref_uri@)
            &&& !attribution_journal::is_secret_like(r.provenance.source_ref@)
        }
}

/// Whether every note of a journal is named, hashed, sourced, saved on purpose, and free of
/// secrets.
pub open spec fn notes_are_sound(c: AttributionJournalContract) -> bool {
    forall|i: int|
        0 <= i < c.user_notes@.len() ==> {
            let n = #[trigger] c.user_notes@[i];
            &&& !text::is_blank(n.note_id@)
            &&& !text::is_blank(n.note_ref@)
            &&& text::begins(n.content_hash@, "sha256:"@)
            &&& n.explicitly_saved
            &&& !text::is_blank(n.provenance.source@)
            &&& !text::is_blank(n.provenance.source_ref@)
            &&& !n.provenance.raw_secrets_exposed
            &&& !attribution_journal::is_secret_like(n.note_ref@)
        }
}

/// Whether a journal has edges, and each leads from one of its refs to another with
/// evidence and without advice.
pub open spec fn edges_are_sound(c: AttributionJournalContract) -> bool {
    &&& c.attribution_edges@.len() > 0
    &&& forall|i: int|
        0 <= i < c.attribution_edges@.len() ==> {
            let e = #[trigger] c.attribution_edges@[i];
            &&& !text::is_blank(e.edge_id@)
            &&& !text::is_blank(e.from_ref@)
            &&& !text::is_blank(e.to_ref@)
            &&& !text::is_blank(e.relation@)
            &&& text::begins(e.evidence_hash@, "sha256:"@)
            &&& exists|k: int| 0 <= k < c.refs@.len() && (#[trigger] c.refs@[k]).ref_id@ == e.from_ref@
            &&& exists|k: int| 0 <= k < c.refs@.len() && (#[trigger] c.refs@[k]).ref_id@ == e.to_ref@
            &&& !attribution_journal::gives_advice(e.relation@)
        }
}

/// Whether the analytics of a journal have every part, hold only numbers and refs, count
/// up, and give neither a secret nor advice.
pub open spec fn analytics_are_sound(a: JournalAnalyticsOutput) -> bool {
    &&& a.grouping_dimensions@.len() > 0
    &&& a.pnl_inputs@.len() > 0
    &&& a.drawdown_inputs@.len() > 0
    &&& a.holding_period_summaries@.len() > 0
    &&& a.skip_reject_summaries@.len() > 0
    &&& a.fill_quality_refs@.len() > 0
    &&& !text::is_blank(a.provenance.source@)
    &&& !text::is_blank(a.provenance.source_ref@)
    &&& !a.provenance.raw_secrets_exposed
    &&& forall|i: int|
        0 <= i < a.pnl_inputs@.len() ==> {
            let x = #[trigger] a.pnl_inputs@[i];
            x.gross_pnl.finite && x.net_pnl.finite && x.fees.finite && x.quantity.finite
                && !text::is_blank(x.strategy_ref@) && !text::is_blank(x.execution_ref@)
        }
    &&& forall|i: int|
        0 <= i < a.drawdown_inputs@.len() ==> {
            let x = #[trigger] a.drawdown_inputs@[i];
            x.peak_value.finite && x.trough_value.finite && text::begins(
                x.content_hash@,
                "sha256:"@,
            )
        }
    &&& forall|i: int|
        0 <= i < a.holding_period_summaries@.len() ==> {
            let x = #[trigger] a.holding_period_summaries@[i];
            x.net_pnl.finite && !text::is_blank(x.bucket@)
        }
    &&& a.win_loss_summary.total_closed == a.win_loss_summary.wins + a.win_loss_summary.losses
        + a.win_loss_summary.flat
    &&& forall|i: int|
        0 <= i < a.skip_reject_summaries@.len() ==> {
            let x = #[trigger] a.skip_reject_summaries@[i];
            !attribution_journal::gives_advice(x.reason_code@) && !attribution_journal::gives_advice(
                x.reason_kind@,
            )
        }
}

/// Whether the review of a journal has every part, is deterministic, and rests on code,
/// artifacts and data that are named, hashed and in order.
pub open spec fn review_is_sound(r: ReplayReviewContract) -> bool {
    &&& !text::is_blank(r.replay_id@)
    &&& !text::is_blank(r.reproduced_result_ref@)
    &&& r.input_refs@.len() > 0
    &&& r.code_refs@.len() > 0
    &&& r.artifact_hashes@.len() > 0
    &&& r.data_snapshots@.len() > 0
    &&& !text::is_blank(r.user_settings_hash@)
    &&& r.deterministic
    &&& forall|i: int|
        0 <= i < r.code_refs@.len() ==> {
            let x = #[trigger] r.code_refs@[i];
            !text::is_blank(x.code_ref@) && !text::is_blank(x.commit_sha@) && text::begins(
                x.content_hash@,
                "sha256:"@,
            )
        }
    &&& forall|i: int|
        0 <= i < r.artifact_hashes@.len() ==> {
            let x = #[trigger] r.artifact_hashes@[i];
            !text::is_blank(x.artifact_ref@) && text::begins(x.content_hash@, "sha256:"@)
        }
    &&& forall|i: int|
        0 <= i < r.data_snapshots@.len() ==> {
            let x = #[trigger] r.data_snapshots@[i];
            &&& !text::is_blank(x.snapshot_ref@)
            &&& text::begins(x.content_hash@, "sha256:"@)
            &&& !text::is_blank(x.provenance.source@)
            &&& !text::is_blank(x.provenance.source_ref@)
            &&& x.stale_after_unix_ms matches Some(limit) ==> x.as_of_unix_ms <= limit
            &&& x.verified_data_source
            &&& !x.provenance.raw_secrets_exposed
            &&& !attribution_journal::is_secret_like(x.snapshot_ref@)
        }
}

/// Whether a journal meets every rule.
pub open spec fn meets_every_rule(c: AttributionJournalContract) -> bool {
    &&& forall|i: int|
        0 <= i < c.warnings@.len() ==> (#[trigger] c.warnings@[i]).severity
            != AttributionWarningSeverity::Error && !attribution_journal::gives_advice(
            c.warnings@[i].message@,
        )
    &&& is_scoped(c)
    &&& has_every_kind(c)
    &&& refs_are_sound(c)
    &&& notes_are_sound(c)
    &&& edges_are_sound(c)
    &&& analytics_are_sound(c.analytics)
    &&& review_is_sound(c.replay_review)
    &&& !attribution_journal::holds_secret(JsonTree::Object(c.metadata@))
}

proof fn no_error_in_a_part(a: Seq<WarningView>, b: Seq<WarningView>)
    ensures
        attribution_journal::free_of_errors(a + b) <==> attribution_journal::free_of_errors(a)
            && attribution_journal::free_of_errors(b),
{
    let all = a + b;
    if attribution_journal::free_of_errors(all) {
        assert forall|i: int| 0 <= i < a.len() implies (#[trigger] a[i]).severity
            != AttributionWarningSeverity::Error by {
            assert(all[i] == a[i]);
        }
        assert forall|i: int| 0 <= i < b.len() implies (#[trigger] b[i]).severity
            != AttributionWarningSeverity::Error by {
            assert(all[a.len() + i] == b[i]);
        }
    }
    if attribution_journal::free_of_errors(a) && attribution_journal::free_of_errors(b) {
        assert forall|i: int| 0 <= i < all.len() implies (#[trigger] all[i]).severity
            != AttributionWarningSeverity::Error by {
            if i < a.len() {
                assert(all[i] == a[i]);
            } else {
                assert(all[i] == b[i - a.len()]);
            }
        }
    }
}

proof fn cause_is_an_error(
    c: AttributionJournalContract,
    cause: bool,
    code: AttributionWarningCode,
    message: Seq<char>,
)
    ensures
        attribution_journal::free_of_errors(attribution_journal::issue(c, cause, code, message))
            <==> !cause,
{
    let list = attribution_journal::issue(c, cause, code, message);
    if cause {
        assert(list[0].severity == AttributionWarningSeverity::Error);
    }
}

proof fn scope_is_judged(c: AttributionJournalContract)
    ensures
        attribution_journal::free_of_errors(attribution_journal::required_field_issues(c))
            <==> is_scoped(c),
{
    let a = attribution_journal::issue(
        c,
        c.schema_version@ != attribution_journal::ATTRIBUTION_JOURNAL_SCHEMA_VERSION@,
        AttributionWarningCode::UnsupportedSchema,
        "Attribution journal schema version is unsupported."@,
    );
    let b = attribution_journal::issue(
        c,
        text::is_blank(c.review_id@) || text::is_blank(c.strategy_id@),
        AttributionWarningCode::MissingRef,
        "Attribution journal must be scoped to a review and strategy."@,
    );
    let d = attribution_journal::issue(
        c,
        attribution_journal::lacks_replay(c),
        AttributionWarningCode::IncompleteReplayState,
        "Attribution journal must include at least one deterministic replay ref."@,
    );
    no_error_in_a_part(a, b);
    no_error_in_a_part(a + b, d);
    cause_is_an_error(
        c,
        c.schema_version@ != attribution_journal::ATTRIBUTION_JOURNAL_SCHEMA_VERSION@,
        AttributionWarningCode::UnsupportedSchema,
        "Attribution journal schema version is unsupported."@,
    );
    cause_is_an_error(
        c,
        text::is_blank(c.review_id@) || text::is_blank(c.strategy_id@),
        AttributionWarningCode::MissingRef,
        "Attribution journal must be scoped to a review and strategy."@,
    );
    cause_is_an_error(
        c,
        attribution_journal::lacks_replay(c),
        AttributionWarningCode::IncompleteReplayState,
        "Attribution journal must include at least one deterministic replay ref."@,
    );
}

proof fn kinds_are_judged(c: AttributionJournalContract)
    ensures
        attribution_journal::lacks_kind(c) <==> !has_every_kind(c),
{
    let kinds = attribution_journal::required_kinds();
    assert(kinds[0] == AttributionRefKind::StrategyVersion);
    assert(kinds[1] == AttributionRefKind::SelectorRun);
    assert(kinds[2] == AttributionRefKind::BacktestRun);
    assert(kinds[3] == AttributionRefKind::LedgerCheckpoint);
    assert(kinds[4] == AttributionRefKind::ExecutionEvent);
    assert(kinds[5] == AttributionRefKind::ValuationSnapshot);
    assert(kinds[6] == AttributionRefKind::UserNote);
    assert(kinds[7] == AttributionRefKind::ReportArtifact);
    assert(kinds[8] == AttributionRefKind::FillQualityReport);
    assert(kinds.len() == 9);
    assert forall|k: int| 0 <= k < 9 implies (attribution_journal::holds_kind(
        c,
        #[trigger] kinds[k],
    ) <==> has(c, kinds[k])) by {}
}

proof fn every_part_is_judged(c: AttributionJournalContract)
    ensures
        attribution_journal::free_of_errors(attribution_journal::journal_warnings(c)) <==> {
            &&& attribution_journal::free_of_errors(attribution_journal::warning_views(c.warnings@))
            &&& is_scoped(c)
            &&& has_every_kind(c)
            &&& !attribution_journal::lacks_ref_parts(c)
            &&& !attribution_journal::edges_are_loose(c)
            &&& !attribution_journal::holds_stale(c)
            &&& !(exists|i: int|
                0 <= i < c.refs@.len() && attribution_journal::hash_differs(#[trigger] c.refs@[i]))
            &&& !attribution_journal::holds_unverified(c)
            &&& !attribution_journal::analytics_are_incomplete(c.analytics)
            &&& !attribution_journal::analytics_are_invalid(c.analytics)
            &&& c.analytics.win_loss_summary.total_closed == c.analytics.win_loss_summary.wins
                + c.analytics.win_loss_summary.losses + c.analytics.win_loss_summary.flat
            &&& !attribution_journal::review_is_incomplete(c.replay_review)
            &&& !attribution_journal::review_refs_are_incomplete(c.replay_review)
            &&& !attribution_journal::exposes_secret(c)
            &&& !attribution_journal::wording_advises(c)
        },
{
    scope_is_judged(c);
    kinds_are_judged(c);
    let carried = attribution_journal::warning_views(c.warnings@);
    let scope = attribution_journal::required_field_issues(c);
    let graph = attribution_journal::ref_graph_issues(c);
    let fresh = attribution_journal::freshness_issues(c);
    let numbers = attribution_journal::analytics_issues(c);
    let review = attribution_journal::review_issues(c);
    let secrets = attribution_journal::secret_issues(c);
    let wording = attribution_journal::wording_issues(c);
    no_error_in_a_part(carried, scope);
    no_error_in_a_part(carried + scope, graph);
    no_error_in_a_part(carried + scope + graph, fresh);
    no_error_in_a_part(carried + scope + graph + fresh, numbers);
    no_error_in_a_part(carried + scope + graph + fresh + numbers, review);
    no_error_in_a_part(carried + scope + graph + fresh + numbers + review, secrets);
    no_error_in_a_part(carried + scope + graph + fresh + numbers + review + secrets, wording);
    graph_is_judged(c);
    freshness_is_judged(c);
    numbers_are_judged(c);
    review_is_judged(c);
    cause_is_an_error(
        c,
        attribution_journal::exposes_secret(c),
        AttributionWarningCode::RawSecretRejected,
        "Attribution journal contains raw secret-shaped refs or metadata."@,
    );
    cause_is_an_error(
        c,
        attribution_journal::wording_advises(c),
        AttributionWarningCode::PredictiveOrAdviceCopyRejected,
        "Attribution and journal analytics copy must stay descriptive and non-predictive."@,
    );
}

proof fn graph_is_judged(c: AttributionJournalContract)
    ensures
        attribution_journal::free_of_errors(attribution_journal::ref_graph_issues(c)) <==> {
            &&& !attribution_journal::lacks_kind(c)
            &&& !attribution_journal::lacks_ref_parts(c)
            &&& !attribution_journal::edges_are_loose(c)
        },
{
    let first = "Attribution journal is missing a required strategy, research, ledger, execution, valuation, note, report, or fill-quality ref kind."@;
    let second = "Attribution journal contains an empty ref id, URI, hash, saved note, or provenance."@;
    let third = "Attribution journal edges must connect stable refs with evidence hashes."@;
    let kinds = AttributionWarningCode::MissingRequiredRefKind;
    let missing = AttributionWarningCode::MissingRef;
    cause_is_an_error(c, attribution_journal::lacks_kind(c), kinds, first);
    cause_is_an_error(c, attribution_journal::lacks_ref_parts(c), missing, second);
    cause_is_an_error(c, attribution_journal::edges_are_loose(c), missing, third);
    let a = attribution_journal::issue(c, attribution_journal::lacks_kind(c), kinds, first);
    let b = attribution_journal::issue(c, attribution_journal::lacks_ref_parts(c), missing, second);
    let d = attribution_journal::issue(c, attribution_journal::edges_are_loose(c), missing, third);
    no_error_in_a_part(a, b);
    no_error_in_a_part(a + b, d);
}

proof fn freshness_is_judged(c: AttributionJournalContract)
    ensures
        attribution_journal::free_of_errors(attribution_journal::freshness_issues(c)) <==> {
            &&& !attribution_journal::holds_stale(c)
            &&& !(exists|i: int|
                0 <= i < c.refs@.len() && attribution_journal::hash_differs(#[trigger] c.refs@[i]))
            &&& !attribution_journal::holds_unverified(c)
        },
{
    let differs = exists|i: int|
        0 <= i < c.refs@.len() && attribution_journal::hash_differs(#[trigger] c.refs@[i]);
    let first = "Attribution journal includes stale artifact or data snapshot refs."@;
    let second = "Attribution journal ref hash mismatch prevents replay trust."@;
    let third = "Attribution journal contains unverified data source refs."@;
    let stale = AttributionWarningCode::StaleArtifact;
    let mismatch = AttributionWarningCode::HashMismatch;
    let unverified = AttributionWarningCode::UnverifiedDataSource;
    cause_is_an_error(c, attribution_journal::holds_stale(c), stale, first);
    cause_is_an_error(c, differs, mismatch, second);
    cause_is_an_error(c, attribution_journal::holds_unverified(c), unverified, third);
    let a = attribution_journal::issue(c, attribution_journal::holds_stale(c), stale, first);
    let b = attribution_journal::issue(c, differs, mismatch, second);
    let d = attribution_journal::issue(
        c,
        attribution_journal::holds_unverified(c),
        unverified,
        third,
    );
    no_error_in_a_part(a, b);
    no_error_in_a_part(a + b, d);
}

proof fn numbers_are_judged(c: AttributionJournalContract)
    ensures
        attribution_journal::free_of_errors(attribution_journal::analytics_issues(c)) <==> {
            &&& !attribution_journal::analytics_are_incomplete(c.analytics)
            &&& !attribution_journal::analytics_are_invalid(c.analytics)
            &&& c.analytics.win_loss_summary.total_closed == c.analytics.win_loss_summary.wins
                + c.analytics.win_loss_summary.losses + c.analytics.win_loss_summary.flat
        },
{
    let w = c.analytics.win_loss_summary;
    let off = w.total_closed != w.wins + w.losses + w.flat;
    let first = "Journal analytics must include grouping dimensions, P&L inputs, drawdown inputs, holding periods, skip/reject summaries, fill-quality refs, and provenance."@;
    let second = "Journal analytics contains invalid numeric or ref-shaped inputs."@;
    let third = "Win/loss summary counts do not reconcile to total closed events."@;
    let code = AttributionWarningCode::IncompleteJournalState;
    cause_is_an_error(c, attribution_journal::analytics_are_incomplete(c.analytics), code, first);
    cause_is_an_error(c, attribution_journal::analytics_are_invalid(c.analytics), code, second);
    cause_is_an_error(c, off, code, third);
    let a = attribution_journal::issue(
        c,
        attribution_journal::analytics_are_incomplete(c.analytics),
        code,
        first,
    );
    let b = attribution_journal::issue(
        c,
        attribution_journal::analytics_are_invalid(c.analytics),
        code,
        second,
    );
    let d = attribution_journal::issue(c, off, code, third);
    no_error_in_a_part(a, b);
    no_error_in_a_part(a + b, d);
}

proof fn review_is_judged(c: AttributionJournalContract)
    ensures
        attribution_journal::free_of_errors(attribution_journal::review_issues(c)) <==> {
            &&& !attribution_journal::review_is_incomplete(c.replay_review)
            &&& !attribution_journal::review_refs_are_incomplete(c.replay_review)
        },
{
    let first = "Replay review must identify inputs, code refs, artifact hashes, data snapshots, user settings, and deterministic reproduction state."@;
    let second = "Replay review contains incomplete code, artifact, or data snapshot refs."@;
    let code = AttributionWarningCode::IncompleteReplayState;
    cause_is_an_error(
        c,
        attribution_journal::review_is_incomplete(c.replay_review),
        code,
        first,
    );
    cause_is_an_error(
        c,
        attribution_journal::review_refs_are_incomplete(c.replay_review),
        code,
        second,
    );
    let a = attribution_journal::issue(
        c,
        attribution_journal::review_is_incomplete(c.replay_review),
        code,
        first,
    );
    let b = attribution_journal::issue(
        c,
        attribution_journal::review_refs_are_incomplete(c.replay_review),
        code,
        second,
    );
    no_error_in_a_part(a, b);
}

/// A journal passes if and only if it meets every rule.
#[verifier::rlimit(60)]
pub proof fn journal_passes_if_it_meets_every_rule(c: AttributionJournalContract)
    ensures
        attribution_journal::free_of_errors(attribution_journal::journal_warnings(c))
            <==> meets_every_rule(c),
{
    every_part_is_judged(c);
    let carried = attribution_journal::warning_views(c.warnings@);
    assert(attribution_journal::free_of_errors(carried) <==> forall|i: int|
        0 <= i < c.warnings@.len() ==> (#[trigger] c.warnings@[i]).severity
            != AttributionWarningSeverity::Error) by {
        assert(carried.len() == c.warnings@.len());
        assert forall|i: int| 0 <= i < c.warnings@.len() implies carried[i].severity == (
        #[trigger] c.warnings@[i]).severity by {}
        if attribution_journal::free_of_errors(carried) {
            assert forall|i: int| 0 <= i < c.warnings@.len() implies (
            #[trigger] c.warnings@[i]).severity != AttributionWarningSeverity::Error by {
                assert(carried[i].severity != AttributionWarningSeverity::Error);
            }
        }
    }
    if meets_every_rule(c) {
        assert(!attribution_journal::edges_are_loose(c)) by {
            if attribution_journal::edges_are_loose(c) {
                let i = choose|i: int|
                    0 <= i < c.attribution_edges@.len() && attribution_journal::edge_is_loose(
                        c,
                        #[trigger] c.attribution_edges@[i],
                    );
                let e = c.attribution_edges@[i];
                assert(attribution_journal::holds_ref(c, e.from_ref@));
                assert(attribution_journal::holds_ref(c, e.to_ref@));
            }
        }
    }
    if attribution_journal::free_of_errors(attribution_journal::journal_warnings(c)) {
        assert forall|i: int| 0 <= i < c.attribution_edges@.len() implies ({
            let e = #[trigger] c.attribution_edges@[i];
            &&& !text::is_blank(e.edge_id@)
            &&& !text::is_blank(e.from_ref@)
            &&& !text::is_blank(e.to_ref@)
            &&& !text::is_blank(e.relation@)
            &&& text::begins(e.evidence_hash@, "sha256:"@)
            &&& exists|k: int| 0 <= k < c.refs@.len() && (#[trigger] c.refs@[k]).ref_id@ == e.from_ref@
            &&& exists|k: int| 0 <= k < c.refs@.len() && (#[trigger] c.refs@[k]).ref_id@ == e.to_ref@
            &&& !attribution_journal::gives_advice(e.relation@)
        }) by {
            assert(!attribution_journal::edge_is_loose(c, c.attribution_edges@[i]));
        }
    }
}

} // verus!

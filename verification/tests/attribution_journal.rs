use tradeassembly_runtime::attribution_journal::{
    attribution_journal_hash, contains_advice_or_prediction, required_attribution_ref_kinds,
    secret_like, validate_attribution_journal, ArtifactHashRef, AttributionEdge,
    AttributionJournalContract, AttributionRefKind, AttributionSourceProvenance,
    AttributionStableRef, AttributionWarningCode, CodeRef, DataSnapshotRef, DrawdownInput,
    HoldingPeriodSummary, JournalAnalyticsOutput, JournalGroupingDimension, Measure,
    PnlAttributionInput, ReplayRef, ReplayReviewContract, SkipRejectSummary, UserNoteRef,
    WinLossSummary, ATTRIBUTION_JOURNAL_NOTICE, ATTRIBUTION_JOURNAL_SCHEMA_VERSION,
};
use tradeassembly_runtime::attribution_journal::written::write_journal;
use tradeassembly_runtime::json::{Json, JsonMap};

fn measure(spelled: &str) -> Measure {
    Measure {
        spelled: spelled.to_string(),
        finite: true,
    }
}

#[test]
fn attribution_journal_serializes_deterministically_and_links_required_refs() {
    let contract = sample_contract();

    let written = write_journal(&contract);
    let hash = attribution_journal_hash(&contract);

    assert!(written.contains("\"schemaVersion\":\"tradeassembly.attribution_journal.v1\""));
    assert!(written.contains("\"groupingDimensions\""));
    assert!(hash.starts_with("sha256:"));
    assert_eq!(hash, attribution_journal_hash(&contract));
    assert!(contract.validate().ok);
    for required in required_attribution_ref_kinds() {
        assert!(
            contract.refs.iter().any(|stable_ref| stable_ref.ref_kind == required),
            "{required:?}"
        );
    }
}

#[test]
fn a_journal_is_written_in_a_fixed_order() {
    let mut contract = sample_contract();
    contract.refs[0].observed_hash = None;
    contract.user_notes[0].note_ref = "note://\"quoted\"".to_string();
    contract.analytics.pnl_inputs[0].fees.finite = false;
    contract.metadata.insert("zone", Json::Int(2));
    contract.metadata.insert("area", Json::Bool(true));
    let written = write_journal(&contract);
    assert!(written.starts_with(
        "{\"schemaVersion\":\"tradeassembly.attribution_journal.v1\",\"reviewId\":\"attribution_review_001\",\"strategyId\":\"strat_local_btc_demo\",\"generatedAtUnixMs\":1785900000000,\"refs\":[{\"refId\":\"strategy_version_001\",\"refKind\":\"strategy_version\",\"refUri\":"
    ));
    assert!(written.contains("\"observedHash\":null,\"asOfUnixMs\":"));
    assert!(written.contains("\"noteRef\":\"note://\\\"quoted\\\"\","));
    assert!(written.contains("\"grossPnl\":82.0,\"fees\":null,\"netPnl\":74.4,\"quantity\":1.0,"));
    assert!(written.contains(
        "\"groupingDimensions\":[\"strategy_version\",\"underlying\",\"skip_reason\",\"fill_quality_bucket\"],"
    ));
    assert!(written.contains(
        "\"winLossSummary\":{\"totalClosed\":1,\"wins\":1,\"losses\":0,\"flat\":0},"
    ));
    assert!(written.contains("\"warnings\":[],\"replayRefs\":[{\"replayRef\":"));
    assert!(written.contains("\"metadata\":{\"area\":true,\"zone\":2},\"noAdviceNotice\":"));
    let read: serde_json::Value = serde_json::from_str(&written).expect("JSON");
    assert_eq!(read["refs"].as_array().expect("refs").len(), 9);
    assert_eq!(read["replayReview"]["codeRefs"][0]["contentHash"], "sha256:coderef001");
    assert_eq!(read["userNotes"][0]["noteRef"], "note://\"quoted\"");
}

#[test]
fn a_journal_hash_follows_every_change() {
    let contract = sample_contract();
    let mut other = sample_contract();
    other.attribution_edges[1].evidence_hash = "sha256:edge003".to_string();
    assert_ne!(attribution_journal_hash(&contract), attribution_journal_hash(&other));
    other.attribution_edges[1].evidence_hash = "sha256:edge002".to_string();
    assert_eq!(attribution_journal_hash(&contract), attribution_journal_hash(&other));
    assert_eq!(attribution_journal_hash(&contract).len(), 71);
}

#[test]
fn analytics_output_contains_expected_trader_review_inputs() {
    let analytics = sample_contract().analytics;

    assert!(analytics
        .grouping_dimensions
        .contains(&JournalGroupingDimension::StrategyVersion));
    assert!(analytics
        .grouping_dimensions
        .contains(&JournalGroupingDimension::SkipReason));
    assert_eq!(analytics.pnl_inputs[0].net_pnl.spelled, "74.4");
    assert_eq!(analytics.win_loss_summary.total_closed, 1);
    assert_eq!(
        analytics.drawdown_inputs[0].equity_curve_ref,
        "artifact://equity-curve"
    );
    assert_eq!(analytics.holding_period_summaries[0].bucket, "0-1d");
    assert_eq!(analytics.skip_reject_summaries[0].reason_kind, "skip");
    assert_eq!(analytics.fill_quality_refs[0], "fill_quality_report_001");
}

#[test]
fn replay_review_identifies_reproducible_inputs_code_artifacts_data_and_settings() {
    let replay = sample_contract().replay_review;

    assert!(replay.deterministic);
    assert_eq!(replay.input_refs, vec!["strategy_version_001"]);
    assert_eq!(
        replay.code_refs[0].commit_sha,
        "d9541f47123b31c643b92c6681d743d62d7a0ba4"
    );
    assert_eq!(
        replay.artifact_hashes[0].artifact_ref,
        "report://backtest-001"
    );
    assert_eq!(
        replay.data_snapshots[0].snapshot_ref,
        "snapshot://spy-2026-06-01"
    );
    assert!(replay.user_settings_hash.starts_with("sha256:"));
}

#[test]
fn warning_cases_fail_closed_without_echoing_secret_values() {
    let mut contract = sample_contract();
    contract.schema_version = "old".to_string();
    contract.refs.retain(|stable_ref| {
        stable_ref.ref_kind != AttributionRefKind::ExecutionEvent
            && stable_ref.ref_kind != AttributionRefKind::UserNote
    });
    contract.refs[0].content_hash = "sha256:expected".to_string();
    contract.refs[0].observed_hash = Some("sha256:observed".to_string());
    contract.refs[0].as_of_unix_ms = 2_000;
    contract.refs[0].stale_after_unix_ms = Some(1_999);
    contract.refs[0].verified_data_source = false;
    contract.refs[0].provenance.raw_secrets_exposed = true;
    contract.user_notes[0].explicitly_saved = false;
    contract.analytics.grouping_dimensions = vec![];
    contract.analytics.win_loss_summary.losses = 1;
    contract.replay_review.deterministic = false;
    contract.replay_review.code_refs = vec![];
    contract
        .metadata
        .insert("api_secret", Json::text("dont-print-this"));

    let report = contract.validate();
    let found = |code: AttributionWarningCode| report.warnings.iter().any(|w| w.code == code);

    assert!(!report.ok);
    assert!(found(AttributionWarningCode::UnsupportedSchema));
    assert!(found(AttributionWarningCode::MissingRequiredRefKind));
    assert!(found(AttributionWarningCode::MissingRef));
    assert!(found(AttributionWarningCode::StaleArtifact));
    assert!(found(AttributionWarningCode::HashMismatch));
    assert!(found(AttributionWarningCode::UnverifiedDataSource));
    assert!(found(AttributionWarningCode::IncompleteJournalState));
    assert!(found(AttributionWarningCode::IncompleteReplayState));
    assert!(found(AttributionWarningCode::RawSecretRejected));
    assert!(!format!("{report:?}").contains("dont-print-this"));
}

#[test]
fn advice_and_prediction_copy_is_rejected() {
    let mut contract = sample_contract();
    contract.attribution_edges[0].relation =
        "this predicts profit and should buy more contracts".to_string();

    let report = contract.validate();

    assert!(!report.ok);
    assert!(report
        .warnings
        .iter()
        .any(|warning| warning.code == AttributionWarningCode::PredictiveOrAdviceCopyRejected));
}

#[test]
fn notice_contains_no_action_advice_copy() {
    let written = write_journal(&sample_contract());
    let lower = written.to_ascii_lowercase();

    assert!(written.contains("did not recommend trades"));
    assert!(!lower.contains("should buy"));
    assert!(!lower.contains("should sell"));
    assert!(!lower.contains("should enter"));
    assert!(!lower.contains("should exit"));
    assert!(!lower.contains("recommend strategy changes"));
}

#[test]
fn secrets_and_advice_are_found_whatever_their_case() {
    assert!(secret_like("Broker_Account_ID"));
    assert!(!secret_like("strategy"));
    assert!(contains_advice_or_prediction("You SHOULD SELL now"));
    assert!(!contains_advice_or_prediction("sold at the close"));
}

#[test]
fn a_sound_journal_raises_no_warning() {
    let report = validate_attribution_journal(&sample_contract());
    assert!(report.ok);
    assert!(report.warnings.is_empty());
}

#[test]
fn measures_that_are_not_finite_are_reported() {
    let mut contract = sample_contract();
    contract.analytics.pnl_inputs[0].net_pnl.finite = false;
    let report = contract.validate();
    assert!(!report.ok);
    assert!(report
        .warnings
        .iter()
        .any(|warning| warning.code == AttributionWarningCode::IncompleteJournalState));
}

fn sample_contract() -> AttributionJournalContract {
    let refs = vec![
        stable_ref("strategy_version_001", AttributionRefKind::StrategyVersion),
        stable_ref("selector_run_001", AttributionRefKind::SelectorRun),
        stable_ref("backtest_run_001", AttributionRefKind::BacktestRun),
        stable_ref(
            "ledger_checkpoint_001",
            AttributionRefKind::LedgerCheckpoint,
        ),
        stable_ref("execution_event_001", AttributionRefKind::ExecutionEvent),
        stable_ref(
            "valuation_snapshot_001",
            AttributionRefKind::ValuationSnapshot,
        ),
        stable_ref("user_note_001", AttributionRefKind::UserNote),
        stable_ref("report_artifact_001", AttributionRefKind::ReportArtifact),
        stable_ref(
            "fill_quality_report_001",
            AttributionRefKind::FillQualityReport,
        ),
    ];
    AttributionJournalContract {
        schema_version: ATTRIBUTION_JOURNAL_SCHEMA_VERSION.to_string(),
        review_id: "attribution_review_001".to_string(),
        strategy_id: "strat_local_btc_demo".to_string(),
        generated_at_unix_ms: 1_785_900_000_000,
        attribution_edges: vec![
            AttributionEdge {
                edge_id: "edge_strategy_selector".to_string(),
                from_ref: "strategy_version_001".to_string(),
                to_ref: "selector_run_001".to_string(),
                relation: "strategy version produced selector run".to_string(),
                evidence_hash: "sha256:edge001".to_string(),
            },
            AttributionEdge {
                edge_id: "edge_execution_fill_quality".to_string(),
                from_ref: "execution_event_001".to_string(),
                to_ref: "fill_quality_report_001".to_string(),
                relation: "execution event produced fill quality report".to_string(),
                evidence_hash: "sha256:edge002".to_string(),
            },
        ],
        refs,
        user_notes: vec![UserNoteRef {
            note_id: "user_note_001".to_string(),
            note_ref: "note://local/user-note-001".to_string(),
            content_hash: "sha256:usernote001".to_string(),
            explicitly_saved: true,
            created_at_unix_ms: 1_785_800_000_000,
            provenance: provenance("user_note"),
        }],
        analytics: JournalAnalyticsOutput {
            grouping_dimensions: vec![
                JournalGroupingDimension::StrategyVersion,
                JournalGroupingDimension::Underlying,
                JournalGroupingDimension::SkipReason,
                JournalGroupingDimension::FillQualityBucket,
            ],
            pnl_inputs: vec![PnlAttributionInput {
                input_id: "pnl_input_001".to_string(),
                basis: "realized".to_string(),
                currency: "USD".to_string(),
                gross_pnl: measure("82.0"),
                fees: measure("7.6"),
                net_pnl: measure("74.4"),
                quantity: measure("1.0"),
                strategy_ref: "strategy_version_001".to_string(),
                execution_ref: "execution_event_001".to_string(),
                valuation_ref: Some("valuation_snapshot_001".to_string()),
            }],
            win_loss_summary: WinLossSummary {
                total_closed: 1,
                wins: 1,
                losses: 0,
                flat: 0,
            },
            drawdown_inputs: vec![DrawdownInput {
                input_id: "drawdown_001".to_string(),
                equity_curve_ref: "artifact://equity-curve".to_string(),
                content_hash: "sha256:equitycurve001".to_string(),
                peak_value: measure("10100.0"),
                trough_value: measure("10025.0"),
            }],
            holding_period_summaries: vec![HoldingPeriodSummary {
                bucket: "0-1d".to_string(),
                trade_count: 1,
                average_holding_ms: 3_600_000,
                net_pnl: measure("74.4"),
            }],
            skip_reject_summaries: vec![SkipRejectSummary {
                reason_code: "liquidity_filter".to_string(),
                reason_kind: "skip".to_string(),
                count: 2,
                source_refs: vec!["selector_run_001".to_string()],
            }],
            fill_quality_refs: vec!["fill_quality_report_001".to_string()],
            provenance: provenance("journal_analytics"),
        },
        replay_review: ReplayReviewContract {
            replay_id: "replay_review_001".to_string(),
            reproduced_result_ref: "report_artifact_001".to_string(),
            input_refs: vec!["strategy_version_001".to_string()],
            code_refs: vec![CodeRef {
                code_ref: "git://TradeAssembly/runtime-rs/src/attribution_journal.rs"
                    .to_string(),
                commit_sha: "d9541f47123b31c643b92c6681d743d62d7a0ba4".to_string(),
                content_hash: "sha256:coderef001".to_string(),
            }],
            artifact_hashes: vec![ArtifactHashRef {
                artifact_ref: "report://backtest-001".to_string(),
                content_hash: "sha256:backtestreport001".to_string(),
            }],
            data_snapshots: vec![DataSnapshotRef {
                snapshot_ref: "snapshot://spy-2026-06-01".to_string(),
                content_hash: "sha256:datasnapshot001".to_string(),
                as_of_unix_ms: 1_785_000_000_000,
                stale_after_unix_ms: Some(1_786_000_000_000),
                verified_data_source: true,
                provenance: provenance("data_snapshot"),
            }],
            user_settings_hash: "sha256:usersettings001".to_string(),
            deterministic: true,
            reproduced_at_unix_ms: 1_785_900_000_000,
        },
        warnings: vec![],
        replay_refs: vec![ReplayRef {
            replay_ref: "tradeassembly://attribution/attribution_review_001/replay".to_string(),
            deterministic: true,
        }],
        metadata: JsonMap::new(),
        no_advice_notice: ATTRIBUTION_JOURNAL_NOTICE.to_string(),
    }
}

fn stable_ref(ref_id: &str, ref_kind: AttributionRefKind) -> AttributionStableRef {
    AttributionStableRef {
        ref_id: ref_id.to_string(),
        ref_kind,
        ref_uri: format!("tradeassembly://refs/{ref_id}"),
        content_hash: format!("sha256:{ref_id}"),
        observed_hash: Some(format!("sha256:{ref_id}")),
        as_of_unix_ms: 1_785_000_000_000,
        stale_after_unix_ms: Some(1_786_000_000_000),
        verified_data_source: true,
        provenance: provenance(ref_id),
    }
}

fn provenance(source_ref: &str) -> AttributionSourceProvenance {
    AttributionSourceProvenance {
        source: "local-tradeassembly".to_string(),
        source_ref: format!("journal://{source_ref}"),
        collected_at_unix_ms: 1_785_000_000_000,
        raw_secrets_exposed: false,
    }
}

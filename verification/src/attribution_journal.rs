//! The attribution journal: descriptive evidence of what happened and how it can be
//! replayed, and the rules that such evidence has to meet.

pub mod judgement;
pub mod written;

use vstd::prelude::*;

use crate::attribution_journal::written::write_journal;
use crate::digest;
use crate::digest::labelled_sha256;
use crate::json;
use crate::json::{Json, JsonMap, JsonTree};
use crate::text;
use crate::text::{blank, contains_any, join3, same, starts_with, to_lower};

verus! {

pub const ATTRIBUTION_JOURNAL_SCHEMA_VERSION: &'static str = "tradeassembly.attribution_journal.v1";

pub const ATTRIBUTION_JOURNAL_NOTICE: &'static str =
    "Descriptive attribution and replay evidence only. TradeAssembly did not recommend trades, timing, sizing, allocation, activation, or strategy changes.";

/// What a ref points to.
#[derive(Clone, Copy, Debug, PartialEq, Eq, PartialOrd, Ord, Structural)]
pub enum AttributionRefKind {
    StrategyVersion,
    SelectorRun,
    BacktestRun,
    LedgerCheckpoint,
    ExecutionEvent,
    ValuationSnapshot,
    UserNote,
    ReportArtifact,
    FillQualityReport,
}

/// By what a journal is grouped.
#[derive(Clone, Copy, Debug, PartialEq, Eq, PartialOrd, Ord, Structural)]
pub enum JournalGroupingDimension {
    StrategyVersion,
    Underlying,
    Instrument,
    Leg,
    EntryDate,
    ExitDate,
    HoldingPeriodBucket,
    Outcome,
    SkipReason,
    RejectReason,
    FillQualityBucket,
    UserTag,
}

/// How grave a warning is.
#[derive(Clone, Copy, Debug, PartialEq, Eq, Structural)]
pub enum AttributionWarningSeverity {
    Warning,
    Error,
}

/// What a warning is about.
#[derive(Clone, Copy, Debug, PartialEq, Eq, PartialOrd, Ord, Structural)]
pub enum AttributionWarningCode {
    UnsupportedSchema,
    MissingRef,
    MissingRequiredRefKind,
    StaleArtifact,
    HashMismatch,
    UnverifiedDataSource,
    IncompleteJournalState,
    IncompleteReplayState,
    RawSecretRejected,
    PredictiveOrAdviceCopyRejected,
}

/// Where something comes from.
#[derive(Debug)]
pub struct AttributionSourceProvenance {
    pub source: String,
    pub source_ref: String,
    pub collected_at_unix_ms: u64,
    pub raw_secrets_exposed: bool,
}

/// A ref that stays what it is.
#[derive(Debug)]
pub struct AttributionStableRef {
    pub ref_id: String,
    pub ref_kind: AttributionRefKind,
    pub ref_uri: String,
    pub content_hash: String,
    pub observed_hash: Option<String>,
    pub as_of_unix_ms: u64,
    pub stale_after_unix_ms: Option<u64>,
    pub verified_data_source: bool,
    pub provenance: AttributionSourceProvenance,
}

/// What leads from one ref to another.
#[derive(Debug)]
pub struct AttributionEdge {
    pub edge_id: String,
    pub from_ref: String,
    pub to_ref: String,
    pub relation: String,
    pub evidence_hash: String,
}

/// A note of a user.
#[derive(Debug)]
pub struct UserNoteRef {
    pub note_id: String,
    pub note_ref: String,
    pub content_hash: String,
    pub explicitly_saved: bool,
    pub created_at_unix_ms: u64,
    pub provenance: AttributionSourceProvenance,
}

/// A measured number, as it is spelled. It is not finite where the measure overflowed
/// or is no number at all.
#[derive(Debug)]
pub struct Measure {
    pub spelled: String,
    pub finite: bool,
}

/// What a profit or a loss is made of.
#[derive(Debug)]
pub struct PnlAttributionInput {
    pub input_id: String,
    pub basis: String,
    pub currency: String,
    pub gross_pnl: Measure,
    pub fees: Measure,
    pub net_pnl: Measure,
    pub quantity: Measure,
    pub strategy_ref: String,
    pub execution_ref: String,
    pub valuation_ref: Option<String>,
}

/// How many closed events won and lost.
#[derive(Debug)]
pub struct WinLossSummary {
    pub total_closed: u64,
    pub wins: u64,
    pub losses: u64,
    pub flat: u64,
}

/// What a drawdown is made of.
#[derive(Debug)]
pub struct DrawdownInput {
    pub input_id: String,
    pub equity_curve_ref: String,
    pub content_hash: String,
    pub peak_value: Measure,
    pub trough_value: Measure,
}

/// How long positions were held.
#[derive(Debug)]
pub struct HoldingPeriodSummary {
    pub bucket: String,
    pub trade_count: u64,
    pub average_holding_ms: u64,
    pub net_pnl: Measure,
}

/// Why something was skipped or rejected, and how often.
#[derive(Debug)]
pub struct SkipRejectSummary {
    pub reason_code: String,
    pub reason_kind: String,
    pub count: u64,
    pub source_refs: Vec<String>,
}

/// What a journal adds up to.
#[derive(Debug)]
pub struct JournalAnalyticsOutput {
    pub grouping_dimensions: Vec<JournalGroupingDimension>,
    pub pnl_inputs: Vec<PnlAttributionInput>,
    pub win_loss_summary: WinLossSummary,
    pub drawdown_inputs: Vec<DrawdownInput>,
    pub holding_period_summaries: Vec<HoldingPeriodSummary>,
    pub skip_reject_summaries: Vec<SkipRejectSummary>,
    pub fill_quality_refs: Vec<String>,
    pub provenance: AttributionSourceProvenance,
}

/// A version of the code.
#[derive(Debug)]
pub struct CodeRef {
    pub code_ref: String,
    pub commit_sha: String,
    pub content_hash: String,
}

/// An artifact and its hash.
#[derive(Debug)]
pub struct ArtifactHashRef {
    pub artifact_ref: String,
    pub content_hash: String,
}

/// A snapshot of data.
#[derive(Debug)]
pub struct DataSnapshotRef {
    pub snapshot_ref: String,
    pub content_hash: String,
    pub as_of_unix_ms: u64,
    pub stale_after_unix_ms: Option<u64>,
    pub verified_data_source: bool,
    pub provenance: AttributionSourceProvenance,
}

/// A replay.
#[derive(Debug)]
pub struct ReplayRef {
    pub replay_ref: String,
    pub deterministic: bool,
}

/// What a replay has to name so that it can be reproduced.
#[derive(Debug)]
pub struct ReplayReviewContract {
    pub replay_id: String,
    pub reproduced_result_ref: String,
    pub input_refs: Vec<String>,
    pub code_refs: Vec<CodeRef>,
    pub artifact_hashes: Vec<ArtifactHashRef>,
    pub data_snapshots: Vec<DataSnapshotRef>,
    pub user_settings_hash: String,
    pub deterministic: bool,
    pub reproduced_at_unix_ms: u64,
}

/// A warning about a journal.
#[derive(Debug)]
pub struct AttributionWarning {
    pub code: AttributionWarningCode,
    pub severity: AttributionWarningSeverity,
    pub message: String,
    pub replay_ref: String,
}

/// What an [`AttributionWarning`] says.
#[verifier::ext_equal]
pub struct WarningView {
    pub code: AttributionWarningCode,
    pub severity: AttributionWarningSeverity,
    pub message: Seq<char>,
    pub replay_ref: Seq<char>,
}

impl View for AttributionWarning {
    type V = WarningView;

    open spec fn view(&self) -> WarningView {
        WarningView {
            code: self.code,
            severity: self.severity,
            message: self.message@,
            replay_ref: self.replay_ref@,
        }
    }
}

/// What a list of warnings says.
pub open spec fn warning_views(list: Seq<AttributionWarning>) -> Seq<WarningView> {
    Seq::new(list.len(), |i: int| list[i]@)
}

/// An attribution journal.
#[derive(Debug)]
pub struct AttributionJournalContract {
    pub schema_version: String,
    pub review_id: String,
    pub strategy_id: String,
    pub generated_at_unix_ms: u64,
    pub refs: Vec<AttributionStableRef>,
    pub attribution_edges: Vec<AttributionEdge>,
    pub user_notes: Vec<UserNoteRef>,
    pub analytics: JournalAnalyticsOutput,
    pub replay_review: ReplayReviewContract,
    pub warnings: Vec<AttributionWarning>,
    pub replay_refs: Vec<ReplayRef>,
    pub metadata: JsonMap,
    pub no_advice_notice: String,
}

/// What the rules have to say of a journal.
#[derive(Debug)]
pub struct AttributionValidationReport {
    pub ok: bool,
    pub warnings: Vec<AttributionWarning>,
}

/// The kinds of ref that a journal has to hold, in their order.
pub open spec fn required_kinds() -> Seq<AttributionRefKind> {
    seq![
        AttributionRefKind::StrategyVersion,
        AttributionRefKind::SelectorRun,
        AttributionRefKind::BacktestRun,
        AttributionRefKind::LedgerCheckpoint,
        AttributionRefKind::ExecutionEvent,
        AttributionRefKind::ValuationSnapshot,
        AttributionRefKind::UserNote,
        AttributionRefKind::ReportArtifact,
        AttributionRefKind::FillQualityReport,
    ]
}

/// The kinds of ref that a journal has to hold, each once and in their order.
pub fn required_attribution_ref_kinds() -> (r: Vec<AttributionRefKind>)
    ensures
        r@ == required_kinds(),
{
    let r = vec![
        AttributionRefKind::StrategyVersion,
        AttributionRefKind::SelectorRun,
        AttributionRefKind::BacktestRun,
        AttributionRefKind::LedgerCheckpoint,
        AttributionRefKind::ExecutionEvent,
        AttributionRefKind::ValuationSnapshot,
        AttributionRefKind::UserNote,
        AttributionRefKind::ReportArtifact,
        AttributionRefKind::FillQualityReport,
    ];
    assert(r@ =~= required_kinds());
    r
}

/// The hash of a journal: the digest of its written form.
pub fn attribution_journal_hash(contract: &AttributionJournalContract) -> (r: String)
    ensures
        r@ == digest::labelled_digest(
            vstd::utf8::encode_utf8(written::journal_written(*contract)),
        ),
{
    let form = write_journal(contract);
    labelled_sha256(form.as_str().as_bytes())
}

/// Whether one of the items passes a test.
fn any<T, F: Fn(&T) -> bool>(list: &Vec<T>, test: F, holds: Ghost<spec_fn(T) -> bool>) -> (r: bool)
    requires
        forall|x: &T| #[trigger] test.requires((x,)),
        forall|x: &T, b: bool| #[trigger] test.ensures((x,), b) ==> b == holds@(*x),
    ensures
        r == exists|i: int| 0 <= i < list@.len() && holds@(#[trigger] list@[i]),
{
    let mut i: usize = 0;
    while i < list.len()
        invariant
            i <= list.len(),
            forall|x: &T| #[trigger] test.requires((x,)),
            forall|x: &T, b: bool| #[trigger] test.ensures((x,), b) ==> b == holds@(*x),
            forall|j: int| 0 <= j < i ==> !holds@(#[trigger] list@[j]),
        decreases list.len() - i,
    {
        let found: bool = test(&list[i]);
        if found {
            assert(holds@(list@[i as int]));
            return true;
        }
        i += 1;
    }
    false
}

/// Whether a hash is labelled as one.
pub open spec fn is_hash(value: Seq<char>) -> bool {
    text::begins(value, "sha256:"@)
}

fn hash_shaped(value: &str) -> (r: bool)
    ensures
        r == is_hash(value@),
{
    starts_with(value, "sha256:")
}

/// Whether a provenance names no source.
pub open spec fn lacks_source(p: AttributionSourceProvenance) -> bool {
    text::is_blank(p.source@) || text::is_blank(p.source_ref@)
}

fn provenance_missing(provenance: &AttributionSourceProvenance) -> (r: bool)
    ensures
        r == lacks_source(*provenance),
{
    blank(provenance.source.as_str()) || blank(provenance.source_ref.as_str())
}

/// Whether a ref leaves out something that it has to say.
pub open spec fn ref_is_incomplete(r: AttributionStableRef) -> bool {
    text::is_blank(r.ref_id@) || text::is_blank(r.ref_uri@) || !is_hash(r.content_hash@)
        || lacks_source(r.provenance)
}

fn ref_missing(stable_ref: &AttributionStableRef) -> (r: bool)
    ensures
        r == ref_is_incomplete(*stable_ref),
{
    blank(stable_ref.ref_id.as_str()) || blank(stable_ref.ref_uri.as_str()) || !hash_shaped(
        stable_ref.content_hash.as_str(),
    ) || provenance_missing(&stable_ref.provenance)
}

/// Whether a note leaves out something that it has to say, or was not saved on purpose.
pub open spec fn note_is_incomplete(n: UserNoteRef) -> bool {
    text::is_blank(n.note_id@) || text::is_blank(n.note_ref@) || !is_hash(n.content_hash@)
        || !n.explicitly_saved || lacks_source(n.provenance)
}

fn note_missing(note: &UserNoteRef) -> (r: bool)
    ensures
        r == note_is_incomplete(*note),
{
    blank(note.note_id.as_str()) || blank(note.note_ref.as_str()) || !hash_shaped(
        note.content_hash.as_str(),
    ) || !note.explicitly_saved || provenance_missing(&note.provenance)
}

/// What gives a secret away.
pub open spec fn secret_marks() -> Seq<Seq<char>> {
    seq!["api_key"@, "api_secret"@, "secret"@, "password"@, "token"@, "broker_account_id"@]
}

/// Whether a text looks as if it were about a secret.
pub open spec fn is_secret_like(value: Seq<char>) -> bool {
    text::occurs_any(text::lowered(value), secret_marks())
}

/// Tests whether a text looks as if it were about a secret.
pub fn secret_like(value: &str) -> (r: bool)
    ensures
        r == is_secret_like(value@),
{
    let lowered = to_lower(value);
    let marks: Vec<&'static str> = vec![
        "api_key",
        "api_secret",
        "secret",
        "password",
        "token",
        "broker_account_id",
    ];
    assert(marks@.map_values(|n: &'static str| n@) =~= secret_marks());
    contains_any(lowered.as_str(), &marks)
}

/// Whether a key or a text of a value looks as if it were about a secret.
pub open spec fn holds_secret(tree: JsonTree) -> bool
    decreases tree,
{
    match tree {
        JsonTree::Object(map) => exists|key: Seq<char>| #[trigger]
            map.dom().contains(key) && (is_secret_like(key) || holds_secret(map[key])),
        JsonTree::Array(items) => exists|i: int|
            0 <= i < items.len() && holds_secret(#[trigger] items[i]),
        JsonTree::Text(value) => is_secret_like(value),
        _ => false,
    }
}

proof fn secret_entry(tree: JsonTree, map: Map<Seq<char>, JsonTree>, key: Seq<char>)
    requires
        tree == JsonTree::Object(map),
        map.dom().contains(key),
        is_secret_like(key) || holds_secret(map[key]),
    ensures
        holds_secret(tree),
{
    match tree {
        JsonTree::Object(own) => {
            assert(own.dom().contains(key));
        },
        _ => {},
    }
}

proof fn secret_item(tree: JsonTree, items: Seq<JsonTree>, i: int)
    requires
        tree == JsonTree::Array(items),
        0 <= i < items.len(),
        holds_secret(items[i]),
    ensures
        holds_secret(tree),
{
    match tree {
        JsonTree::Array(own) => {
            assert(holds_secret(own[i]));
        },
        _ => {},
    }
}

/// Tests whether a key or a text of an object looks as if it were about a secret.
pub fn contains_secret_key(map: &JsonMap) -> (r: bool)
    ensures
        r == holds_secret(JsonTree::Object(map@)),
    decreases map, 0nat,
{
    let ghost tree = JsonTree::Object(map@);
    let mut i: usize = 0;
    while i < map.entries.len()
        invariant
            i <= map.entries.len(),
            tree == JsonTree::Object(map@),
            forall|j: int|
                0 <= j < i ==> !is_secret_like((#[trigger] map.entries@[j]).0@) && !holds_secret(
                    map@[map.entries@[j].0@],
                ),
        decreases map.entries.len() - i,
    {
        let key: &str = map.entries[i].0.as_str();
        proof {
            json::entry_has_key(map.entries@, i as int);
        }
        if secret_like(key) {
            proof {
                secret_entry(tree, map@, key@);
            }
            return true;
        }
        if let Some(at) = map.find(key) {
            if value_contains_secret_key(&map.entries[at].1) {
                proof {
                    secret_entry(tree, map@, key@);
                }
                return true;
            }
        }
        i += 1;
    }
    proof {
        assert forall|key: Seq<char>| #[trigger] map@.dom().contains(key) implies !(is_secret_like(key)
            || holds_secret(map@[key])) by {
            json::key_has_entry(map.entries@, key);
        }
    }
    false
}

/// Tests whether a key or a text of a value looks as if it were about a secret.
pub fn value_contains_secret_key(value: &Json) -> (r: bool)
    ensures
        r == holds_secret(value@),
    decreases value, 1nat,
{
    match value {
        Json::Object(map) => contains_secret_key(map),
        Json::Array(items) => {
            let mut i: usize = 0;
            proof {
                json::array_view_members(items@);
            }
            while i < items.len()
                invariant
                    i <= items.len(),
                    value matches Json::Array(own) && own == items,
                    value@ == JsonTree::Array(json::array_view(items@)),
                    json::array_view(items@) == items@.map_values(|item: Json| item@),
                    forall|j: int|
                        0 <= j < i ==> !holds_secret(#[trigger] json::array_view(items@)[j]),
                decreases items.len() - i,
            {
                if value_contains_secret_key(&items[i]) {
                    proof {
                        secret_item(value@, json::array_view(items@), i as int);
                    }
                    return true;
                }
                i += 1;
            }
            false
        },
        Json::Text(t) => secret_like(t.as_str()),
        _ => false,
    }
}

/// What gives advice or a prediction away.
pub open spec fn advice_marks() -> Seq<Seq<char>> {
    seq![
        "should buy"@,
        "should sell"@,
        "should enter"@,
        "should exit"@,
        "increase size"@,
        "reduce size"@,
        "must trade"@,
        "recommend trade"@,
        "recommend sizing"@,
        "predicts profit"@,
        "forecast profit"@,
        "guaranteed"@,
    ]
}

/// Whether a text gives advice or predicts something.
pub open spec fn gives_advice(value: Seq<char>) -> bool {
    text::occurs_any(text::lowered(value), advice_marks())
}

/// Tests whether a text gives advice or predicts something.
pub fn contains_advice_or_prediction(value: &str) -> (r: bool)
    ensures
        r == gives_advice(value@),
{
    let lowered = to_lower(value);
    let marks: Vec<&'static str> = vec![
        "should buy",
        "should sell",
        "should enter",
        "should exit",
        "increase size",
        "reduce size",
        "must trade",
        "recommend trade",
        "recommend sizing",
        "predicts profit",
        "forecast profit",
        "guaranteed",
    ];
    assert(marks@.map_values(|n: &'static str| n@) =~= advice_marks());
    contains_any(lowered.as_str(), &marks)
}

/// The replay that a warning about a journal points to.
pub open spec fn warning_replay(c: AttributionJournalContract) -> Seq<char> {
    if c.replay_refs@.len() > 0 {
        c.replay_refs@[0].replay_ref@
    } else {
        "tradeassembly://attribution/"@ + c.review_id@ + "/replay"@
    }
}

/// A warning about a journal, where there is cause for it.
pub open spec fn issue(
    c: AttributionJournalContract,
    cause: bool,
    code: AttributionWarningCode,
    message: Seq<char>,
) -> Seq<WarningView> {
    if cause {
        seq![
            WarningView {
                code,
                severity: AttributionWarningSeverity::Error,
                message,
                replay_ref: warning_replay(c),
            },
        ]
    } else {
        Seq::empty()
    }
}

/// Puts a warning on a list, where there is cause for it.
fn warn(
    warnings: &mut Vec<AttributionWarning>,
    contract: &AttributionJournalContract,
    cause: bool,
    code: AttributionWarningCode,
    message: &str,
)
    ensures
        warning_views(final(warnings)@) == warning_views(old(warnings)@) + issue(
            *contract,
            cause,
            code,
            message@,
        ),
{
    let ghost before = warning_views(warnings@);
    if cause {
        let replay_ref: String = if contract.replay_refs.len() > 0 {
            contract.replay_refs[0].replay_ref.clone()
        } else {
            join3("tradeassembly://attribution/", contract.review_id.as_str(), "/replay")
        };
        let item = AttributionWarning {
            code,
            severity: AttributionWarningSeverity::Error,
            message: message.to_owned(),
            replay_ref,
        };
        warnings.push(item);
        assert(warning_views(warnings@) =~= before + issue(*contract, cause, code, message@));
    } else {
        assert(before + issue(*contract, cause, code, message@) =~= before);
    }
}

/// Whether no replay of a journal is deterministic.
pub open spec fn lacks_replay(c: AttributionJournalContract) -> bool {
    !exists|i: int| 0 <= i < c.replay_refs@.len() && (#[trigger] c.replay_refs@[i]).deterministic
}

fn is_deterministic(replay: &ReplayRef) -> (r: bool)
    ensures
        r == replay.deterministic,
{
    replay.deterministic
}

/// What the first rules say: the schema, the scope and a replay.
pub open spec fn required_field_issues(c: AttributionJournalContract) -> Seq<WarningView> {
    issue(
        c,
        c.schema_version@ != ATTRIBUTION_JOURNAL_SCHEMA_VERSION@,
        AttributionWarningCode::UnsupportedSchema,
        "Attribution journal schema version is unsupported."@,
    ) + issue(
        c,
        text::is_blank(c.review_id@) || text::is_blank(c.strategy_id@),
        AttributionWarningCode::MissingRef,
        "Attribution journal must be scoped to a review and strategy."@,
    ) + issue(
        c,
        lacks_replay(c),
        AttributionWarningCode::IncompleteReplayState,
        "Attribution journal must include at least one deterministic replay ref."@,
    )
}

fn validate_required_fields(contract: &AttributionJournalContract, warnings: &mut Vec<AttributionWarning>)
    ensures
        warning_views(final(warnings)@) == warning_views(old(warnings)@) + required_field_issues(
            *contract,
        ),
{
    let ghost before = warning_views(warnings@);
    let unsupported: bool = !same(
        contract.schema_version.as_str(),
        ATTRIBUTION_JOURNAL_SCHEMA_VERSION,
    );
    let unscoped: bool = blank(contract.review_id.as_str()) || blank(contract.strategy_id.as_str());
    let replayed: bool = any(
        &contract.replay_refs,
        is_deterministic,
        Ghost(|x: ReplayRef| x.deterministic),
    );
    warn(
        warnings,
        contract,
        unsupported,
        AttributionWarningCode::UnsupportedSchema,
        "Attribution journal schema version is unsupported.",
    );
    warn(
        warnings,
        contract,
        unscoped,
        AttributionWarningCode::MissingRef,
        "Attribution journal must be scoped to a review and strategy.",
    );
    warn(
        warnings,
        contract,
        !replayed,
        AttributionWarningCode::IncompleteReplayState,
        "Attribution journal must include at least one deterministic replay ref.",
    );
    assert(warning_views(warnings@) =~= before + required_field_issues(*contract));
}

/// Whether a journal holds a ref of a kind.
pub open spec fn holds_kind(c: AttributionJournalContract, kind: AttributionRefKind) -> bool {
    exists|i: int| 0 <= i < c.refs@.len() && (#[trigger] c.refs@[i]).ref_kind == kind
}

/// Whether a journal lacks a kind of ref that it has to hold.
pub open spec fn lacks_kind(c: AttributionJournalContract) -> bool {
    exists|k: int| 0 <= k < required_kinds().len() && !holds_kind(c, #[trigger] required_kinds()[k])
}

fn has_kind(contract: &AttributionJournalContract, kind: AttributionRefKind) -> (r: bool)
    ensures
        r == holds_kind(*contract, kind),
{
    let mut i: usize = 0;
    while i < contract.refs.len()
        invariant
            i <= contract.refs.len(),
            forall|j: int| 0 <= j < i ==> (#[trigger] contract.refs@[j]).ref_kind != kind,
        decreases contract.refs.len() - i,
    {
        if contract.refs[i].ref_kind == kind {
            return true;
        }
        i += 1;
    }
    false
}

fn kind_missing(contract: &AttributionJournalContract) -> (r: bool)
    ensures
        r == lacks_kind(*contract),
{
    let kinds = required_attribution_ref_kinds();
    let mut k: usize = 0;
    while k < kinds.len()
        invariant
            k <= kinds.len(),
            kinds@ == required_kinds(),
            forall|j: int| 0 <= j < k ==> holds_kind(*contract, #[trigger] required_kinds()[j]),
        decreases kinds.len() - k,
    {
        if !has_kind(contract, kinds[k]) {
            assert(!holds_kind(*contract, required_kinds()[k as int]));
            return true;
        }
        k += 1;
    }
    false
}

/// Whether a journal holds a ref under a name.
pub open spec fn holds_ref(c: AttributionJournalContract, id: Seq<char>) -> bool {
    exists|i: int| 0 <= i < c.refs@.len() && (#[trigger] c.refs@[i]).ref_id@ == id
}

fn has_ref(contract: &AttributionJournalContract, id: &str) -> (r: bool)
    ensures
        r == holds_ref(*contract, id@),
{
    let mut i: usize = 0;
    while i < contract.refs.len()
        invariant
            i <= contract.refs.len(),
            forall|j: int| 0 <= j < i ==> (#[trigger] contract.refs@[j]).ref_id@ != id@,
        decreases contract.refs.len() - i,
    {
        if same(contract.refs[i].ref_id.as_str(), id) {
            return true;
        }
        i += 1;
    }
    false
}

/// Whether an edge does not lead from one ref of the journal to another with evidence.
pub open spec fn edge_is_loose(c: AttributionJournalContract, e: AttributionEdge) -> bool {
    text::is_blank(e.edge_id@) || text::is_blank(e.from_ref@) || text::is_blank(e.to_ref@)
        || text::is_blank(e.relation@) || !is_hash(e.evidence_hash@) || !holds_ref(c, e.from_ref@)
        || !holds_ref(c, e.to_ref@)
}

/// Whether the edges of a journal do not connect its refs.
pub open spec fn edges_are_loose(c: AttributionJournalContract) -> bool {
    c.attribution_edges@.len() == 0 || exists|i: int|
        0 <= i < c.attribution_edges@.len() && edge_is_loose(c, #[trigger] c.attribution_edges@[i])
}

fn loose_edge(contract: &AttributionJournalContract) -> (r: bool)
    ensures
        r == edges_are_loose(*contract),
{
    if contract.attribution_edges.len() == 0 {
        return true;
    }
    let mut i: usize = 0;
    while i < contract.attribution_edges.len()
        invariant
            i <= contract.attribution_edges.len(),
            contract.attribution_edges@.len() > 0,
            forall|j: int|
                0 <= j < i ==> !edge_is_loose(*contract, #[trigger] contract.attribution_edges@[j]),
        decreases contract.attribution_edges.len() - i,
    {
        let edge: &AttributionEdge = &contract.attribution_edges[i];
        let loose: bool = blank(edge.edge_id.as_str()) || blank(edge.from_ref.as_str()) || blank(
            edge.to_ref.as_str(),
        ) || blank(edge.relation.as_str()) || !hash_shaped(edge.evidence_hash.as_str()) || !has_ref(
            contract,
            edge.from_ref.as_str(),
        ) || !has_ref(contract, edge.to_ref.as_str());
        if loose {
            assert(edge_is_loose(*contract, contract.attribution_edges@[i as int]));
            return true;
        }
        i += 1;
    }
    false
}

/// Whether a ref or a note of a journal leaves out something that it has to say.
pub open spec fn lacks_ref_parts(c: AttributionJournalContract) -> bool {
    (exists|i: int| 0 <= i < c.refs@.len() && ref_is_incomplete(#[trigger] c.refs@[i])) || (exists|
        i: int,
    |
        0 <= i < c.user_notes@.len() && note_is_incomplete(#[trigger] c.user_notes@[i]))
}

/// What the rules on refs, notes and edges say.
pub open spec fn ref_graph_issues(c: AttributionJournalContract) -> Seq<WarningView> {
    issue(
        c,
        lacks_kind(c),
        AttributionWarningCode::MissingRequiredRefKind,
        "Attribution journal is missing a required strategy, research, ledger, execution, valuation, note, report, or fill-quality ref kind."@,
    ) + issue(
        c,
        lacks_ref_parts(c),
        AttributionWarningCode::MissingRef,
        "Attribution journal contains an empty ref id, URI, hash, saved note, or provenance."@,
    ) + issue(
        c,
        edges_are_loose(c),
        AttributionWarningCode::MissingRef,
        "Attribution journal edges must connect stable refs with evidence hashes."@,
    )
}

fn validate_ref_graph(contract: &AttributionJournalContract, warnings: &mut Vec<AttributionWarning>)
    ensures
        warning_views(final(warnings)@) == warning_views(old(warnings)@) + ref_graph_issues(*contract),
{
    let ghost before = warning_views(warnings@);
    let unkind: bool = kind_missing(contract);
    let incomplete: bool = any(
        &contract.refs,
        ref_missing,
        Ghost(|x: AttributionStableRef| ref_is_incomplete(x)),
    ) || any(&contract.user_notes, note_missing, Ghost(|x: UserNoteRef| note_is_incomplete(x)));
    let loose: bool = loose_edge(contract);
    warn(
        warnings,
        contract,
        unkind,
        AttributionWarningCode::MissingRequiredRefKind,
        "Attribution journal is missing a required strategy, research, ledger, execution, valuation, note, report, or fill-quality ref kind.",
    );
    warn(
        warnings,
        contract,
        incomplete,
        AttributionWarningCode::MissingRef,
        "Attribution journal contains an empty ref id, URI, hash, saved note, or provenance.",
    );
    warn(
        warnings,
        contract,
        loose,
        AttributionWarningCode::MissingRef,
        "Attribution journal edges must connect stable refs with evidence hashes.",
    );
    assert(warning_views(warnings@) =~= before + ref_graph_issues(*contract));
}

/// Whether something is older than it may be.
pub open spec fn is_stale(as_of_unix_ms: u64, stale_after_unix_ms: Option<u64>) -> bool {
    stale_after_unix_ms matches Some(limit) && as_of_unix_ms > limit
}

fn stale(as_of_unix_ms: u64, stale_after_unix_ms: Option<u64>) -> (r: bool)
    ensures
        r == is_stale(as_of_unix_ms, stale_after_unix_ms),
{
    match stale_after_unix_ms {
        Some(limit) => as_of_unix_ms > limit,
        None => false,
    }
}

fn ref_stale(stable_ref: &AttributionStableRef) -> (r: bool)
    ensures
        r == is_stale(stable_ref.as_of_unix_ms, stable_ref.stale_after_unix_ms),
{
    stale(stable_ref.as_of_unix_ms, stable_ref.stale_after_unix_ms)
}

fn snapshot_stale(snapshot: &DataSnapshotRef) -> (r: bool)
    ensures
        r == is_stale(snapshot.as_of_unix_ms, snapshot.stale_after_unix_ms),
{
    stale(snapshot.as_of_unix_ms, snapshot.stale_after_unix_ms)
}

/// Whether a ref was seen with another content than it has to have.
pub open spec fn hash_differs(r: AttributionStableRef) -> bool {
    r.observed_hash matches Some(observed) && observed@ != r.content_hash@
}

fn hash_mismatch(stable_ref: &AttributionStableRef) -> (r: bool)
    ensures
        r == hash_differs(*stable_ref),
{
    match &stable_ref.observed_hash {
        Some(observed) => !same(observed.as_str(), stable_ref.content_hash.as_str()),
        None => false,
    }
}

fn ref_unverified(stable_ref: &AttributionStableRef) -> (r: bool)
    ensures
        r == !stable_ref.verified_data_source,
{
    !stable_ref.verified_data_source
}

fn snapshot_unverified(snapshot: &DataSnapshotRef) -> (r: bool)
    ensures
        r == !snapshot.verified_data_source,
{
    !snapshot.verified_data_source
}

/// Whether a ref or a snapshot of a journal is older than it may be.
pub open spec fn holds_stale(c: AttributionJournalContract) -> bool {
    (exists|i: int|
        0 <= i < c.refs@.len() && is_stale(
            (#[trigger] c.refs@[i]).as_of_unix_ms,
            c.refs@[i].stale_after_unix_ms,
        )) || (exists|i: int|
        0 <= i < c.replay_review.data_snapshots@.len() && is_stale(
            (#[trigger] c.replay_review.data_snapshots@[i]).as_of_unix_ms,
            c.replay_review.data_snapshots@[i].stale_after_unix_ms,
        ))
}

/// Whether the source of a ref or a snapshot of a journal is not verified.
pub open spec fn holds_unverified(c: AttributionJournalContract) -> bool {
    (exists|i: int| 0 <= i < c.refs@.len() && !(#[trigger] c.refs@[i]).verified_data_source) || (
    exists|i: int|
        0 <= i < c.replay_review.data_snapshots@.len() && !(
        #[trigger] c.replay_review.data_snapshots@[i]).verified_data_source)
}

/// What the rules on age, hashes and sources say.
pub open spec fn freshness_issues(c: AttributionJournalContract) -> Seq<WarningView> {
    issue(
        c,
        holds_stale(c),
        AttributionWarningCode::StaleArtifact,
        "Attribution journal includes stale artifact or data snapshot refs."@,
    ) + issue(
        c,
        exists|i: int| 0 <= i < c.refs@.len() && hash_differs(#[trigger] c.refs@[i]),
        AttributionWarningCode::HashMismatch,
        "Attribution journal ref hash mismatch prevents replay trust."@,
    ) + issue(
        c,
        holds_unverified(c),
        AttributionWarningCode::UnverifiedDataSource,
        "Attribution journal contains unverified data source refs."@,
    )
}

fn validate_artifact_freshness_and_hashes(
    contract: &AttributionJournalContract,
    warnings: &mut Vec<AttributionWarning>,
)
    ensures
        warning_views(final(warnings)@) == warning_views(old(warnings)@) + freshness_issues(*contract),
{
    let ghost before = warning_views(warnings@);
    let snapshots: &Vec<DataSnapshotRef> = &contract.replay_review.data_snapshots;
    let old_data: bool = any(
        &contract.refs,
        ref_stale,
        Ghost(|x: AttributionStableRef| is_stale(x.as_of_unix_ms, x.stale_after_unix_ms)),
    ) || any(
        snapshots,
        snapshot_stale,
        Ghost(|x: DataSnapshotRef| is_stale(x.as_of_unix_ms, x.stale_after_unix_ms)),
    );
    let differs: bool = any(
        &contract.refs,
        hash_mismatch,
        Ghost(|x: AttributionStableRef| hash_differs(x)),
    );
    let unverified: bool = any(
        &contract.refs,
        ref_unverified,
        Ghost(|x: AttributionStableRef| !x.verified_data_source),
    ) || any(snapshots, snapshot_unverified, Ghost(|x: DataSnapshotRef| !x.verified_data_source));
    warn(
        warnings,
        contract,
        old_data,
        AttributionWarningCode::StaleArtifact,
        "Attribution journal includes stale artifact or data snapshot refs.",
    );
    warn(
        warnings,
        contract,
        differs,
        AttributionWarningCode::HashMismatch,
        "Attribution journal ref hash mismatch prevents replay trust.",
    );
    warn(
        warnings,
        contract,
        unverified,
        AttributionWarningCode::UnverifiedDataSource,
        "Attribution journal contains unverified data source refs.",
    );
    assert(warning_views(warnings@) =~= before + freshness_issues(*contract));
}

/// Whether an input of a profit or a loss is no number or names no ref.
pub open spec fn pnl_is_invalid(x: PnlAttributionInput) -> bool {
    !x.gross_pnl.finite || !x.net_pnl.finite || !x.fees.finite || !x.quantity.finite
        || text::is_blank(x.strategy_ref@) || text::is_blank(x.execution_ref@)
}

fn pnl_invalid(input: &PnlAttributionInput) -> (r: bool)
    ensures
        r == pnl_is_invalid(*input),
{
    !input.gross_pnl.finite || !input.net_pnl.finite || !input.fees.finite || !input.quantity.finite
        || blank(input.strategy_ref.as_str()) || blank(input.execution_ref.as_str())
}

/// Whether an input of a drawdown is no number or has no hash.
pub open spec fn drawdown_is_invalid(x: DrawdownInput) -> bool {
    !x.peak_value.finite || !x.trough_value.finite || !is_hash(x.content_hash@)
}

fn drawdown_invalid(input: &DrawdownInput) -> (r: bool)
    ensures
        r == drawdown_is_invalid(*input),
{
    !input.peak_value.finite || !input.trough_value.finite || !hash_shaped(
        input.content_hash.as_str(),
    )
}

/// Whether a summary of holding periods is no number or has no name.
pub open spec fn holding_is_invalid(x: HoldingPeriodSummary) -> bool {
    !x.net_pnl.finite || text::is_blank(x.bucket@)
}

fn holding_invalid(summary: &HoldingPeriodSummary) -> (r: bool)
    ensures
        r == holding_is_invalid(*summary),
{
    !summary.net_pnl.finite || blank(summary.bucket.as_str())
}

/// Whether analytics leave out a part.
pub open spec fn analytics_are_incomplete(a: JournalAnalyticsOutput) -> bool {
    a.grouping_dimensions@.len() == 0 || a.pnl_inputs@.len() == 0 || a.drawdown_inputs@.len() == 0
        || a.holding_period_summaries@.len() == 0 || a.skip_reject_summaries@.len() == 0
        || a.fill_quality_refs@.len() == 0 || lacks_source(a.provenance)
}

/// Whether analytics hold an input that is not valid.
pub open spec fn analytics_are_invalid(a: JournalAnalyticsOutput) -> bool {
    (exists|i: int| 0 <= i < a.pnl_inputs@.len() && pnl_is_invalid(#[trigger] a.pnl_inputs@[i])) || (
    exists|i: int|
        0 <= i < a.drawdown_inputs@.len() && drawdown_is_invalid(#[trigger] a.drawdown_inputs@[i]))
        || (exists|i: int|
        0 <= i < a.holding_period_summaries@.len() && holding_is_invalid(
            #[trigger] a.holding_period_summaries@[i],
        ))
}

/// What the rules on analytics say.
pub open spec fn analytics_issues(c: AttributionJournalContract) -> Seq<WarningView> {
    let w = c.analytics.win_loss_summary;
    issue(
        c,
        analytics_are_incomplete(c.analytics),
        AttributionWarningCode::IncompleteJournalState,
        "Journal analytics must include grouping dimensions, P&L inputs, drawdown inputs, holding periods, skip/reject summaries, fill-quality refs, and provenance."@,
    ) + issue(
        c,
        analytics_are_invalid(c.analytics),
        AttributionWarningCode::IncompleteJournalState,
        "Journal analytics contains invalid numeric or ref-shaped inputs."@,
    ) + issue(
        c,
        w.total_closed != w.wins + w.losses + w.flat,
        AttributionWarningCode::IncompleteJournalState,
        "Win/loss summary counts do not reconcile to total closed events."@,
    )
}

impl WinLossSummary {
    /// Whether the counts can be added up.
    pub open spec fn fits(self) -> bool {
        self.wins + self.losses + self.flat <= u64::MAX
    }
}

fn validate_analytics(contract: &AttributionJournalContract, warnings: &mut Vec<AttributionWarning>)
    requires
        contract.analytics.win_loss_summary.fits(),
    ensures
        warning_views(final(warnings)@) == warning_views(old(warnings)@) + analytics_issues(*contract),
{
    let ghost before = warning_views(warnings@);
    let a: &JournalAnalyticsOutput = &contract.analytics;
    let incomplete: bool = a.grouping_dimensions.len() == 0 || a.pnl_inputs.len() == 0
        || a.drawdown_inputs.len() == 0 || a.holding_period_summaries.len() == 0
        || a.skip_reject_summaries.len() == 0 || a.fill_quality_refs.len() == 0
        || provenance_missing(&a.provenance);
    let invalid: bool = any(
        &a.pnl_inputs,
        pnl_invalid,
        Ghost(|x: PnlAttributionInput| pnl_is_invalid(x)),
    ) || any(
        &a.drawdown_inputs,
        drawdown_invalid,
        Ghost(|x: DrawdownInput| drawdown_is_invalid(x)),
    ) || any(
        &a.holding_period_summaries,
        holding_invalid,
        Ghost(|x: HoldingPeriodSummary| holding_is_invalid(x)),
    );
    let w: &WinLossSummary = &a.win_loss_summary;
    let unreconciled: bool = w.total_closed != w.wins + w.losses + w.flat;
    warn(
        warnings,
        contract,
        incomplete,
        AttributionWarningCode::IncompleteJournalState,
        "Journal analytics must include grouping dimensions, P&L inputs, drawdown inputs, holding periods, skip/reject summaries, fill-quality refs, and provenance.",
    );
    warn(
        warnings,
        contract,
        invalid,
        AttributionWarningCode::IncompleteJournalState,
        "Journal analytics contains invalid numeric or ref-shaped inputs.",
    );
    warn(
        warnings,
        contract,
        unreconciled,
        AttributionWarningCode::IncompleteJournalState,
        "Win/loss summary counts do not reconcile to total closed events.",
    );
    assert(warning_views(warnings@) =~= before + analytics_issues(*contract));
}

/// Whether a version of the code leaves out something that it has to say.
pub open spec fn code_is_incomplete(x: CodeRef) -> bool {
    text::is_blank(x.code_ref@) || text::is_blank(x.commit_sha@) || !is_hash(x.content_hash@)
}

fn code_incomplete(code: &CodeRef) -> (r: bool)
    ensures
        r == code_is_incomplete(*code),
{
    blank(code.code_ref.as_str()) || blank(code.commit_sha.as_str()) || !hash_shaped(
        code.content_hash.as_str(),
    )
}

/// Whether an artifact leaves out something that it has to say.
pub open spec fn artifact_is_incomplete(x: ArtifactHashRef) -> bool {
    text::is_blank(x.artifact_ref@) || !is_hash(x.content_hash@)
}

fn artifact_incomplete(artifact: &ArtifactHashRef) -> (r: bool)
    ensures
        r == artifact_is_incomplete(*artifact),
{
    blank(artifact.artifact_ref.as_str()) || !hash_shaped(artifact.content_hash.as_str())
}

/// Whether a snapshot leaves out something that it has to say.
pub open spec fn snapshot_is_incomplete(x: DataSnapshotRef) -> bool {
    text::is_blank(x.snapshot_ref@) || !is_hash(x.content_hash@) || lacks_source(x.provenance)
}

fn snapshot_incomplete(snapshot: &DataSnapshotRef) -> (r: bool)
    ensures
        r == snapshot_is_incomplete(*snapshot),
{
    blank(snapshot.snapshot_ref.as_str()) || !hash_shaped(snapshot.content_hash.as_str())
        || provenance_missing(&snapshot.provenance)
}

/// Whether a review leaves out a part, or is not deterministic.
pub open spec fn review_is_incomplete(r: ReplayReviewContract) -> bool {
    text::is_blank(r.replay_id@) || text::is_blank(r.reproduced_result_ref@)
        || r.input_refs@.len() == 0 || r.code_refs@.len() == 0 || r.artifact_hashes@.len() == 0
        || r.data_snapshots@.len() == 0 || text::is_blank(r.user_settings_hash@) || !r.deterministic
}

/// Whether a ref of a review leaves out something that it has to say.
pub open spec fn review_refs_are_incomplete(r: ReplayReviewContract) -> bool {
    (exists|i: int| 0 <= i < r.code_refs@.len() && code_is_incomplete(#[trigger] r.code_refs@[i]))
        || (exists|i: int|
        0 <= i < r.artifact_hashes@.len() && artifact_is_incomplete(
            #[trigger] r.artifact_hashes@[i],
        )) || (exists|i: int|
        0 <= i < r.data_snapshots@.len() && snapshot_is_incomplete(#[trigger] r.data_snapshots@[i]))
}

/// What the rules on the review say.
pub open spec fn review_issues(c: AttributionJournalContract) -> Seq<WarningView> {
    issue(
        c,
        review_is_incomplete(c.replay_review),
        AttributionWarningCode::IncompleteReplayState,
        "Replay review must identify inputs, code refs, artifact hashes, data snapshots, user settings, and deterministic reproduction state."@,
    ) + issue(
        c,
        review_refs_are_incomplete(c.replay_review),
        AttributionWarningCode::IncompleteReplayState,
        "Replay review contains incomplete code, artifact, or data snapshot refs."@,
    )
}

fn validate_replay_review(contract: &AttributionJournalContract, warnings: &mut Vec<AttributionWarning>)
    ensures
        warning_views(final(warnings)@) == warning_views(old(warnings)@) + review_issues(*contract),
{
    let ghost before = warning_views(warnings@);
    let replay: &ReplayReviewContract = &contract.replay_review;
    let incomplete: bool = blank(replay.replay_id.as_str()) || blank(
        replay.reproduced_result_ref.as_str(),
    ) || replay.input_refs.len() == 0 || replay.code_refs.len() == 0
        || replay.artifact_hashes.len() == 0 || replay.data_snapshots.len() == 0 || blank(
        replay.user_settings_hash.as_str(),
    ) || !replay.deterministic;
    let partial: bool = any(
        &replay.code_refs,
        code_incomplete,
        Ghost(|x: CodeRef| code_is_incomplete(x)),
    ) || any(
        &replay.artifact_hashes,
        artifact_incomplete,
        Ghost(|x: ArtifactHashRef| artifact_is_incomplete(x)),
    ) || any(
        &replay.data_snapshots,
        snapshot_incomplete,
        Ghost(|x: DataSnapshotRef| snapshot_is_incomplete(x)),
    );
    warn(
        warnings,
        contract,
        incomplete,
        AttributionWarningCode::IncompleteReplayState,
        "Replay review must identify inputs, code refs, artifact hashes, data snapshots, user settings, and deterministic reproduction state.",
    );
    warn(
        warnings,
        contract,
        partial,
        AttributionWarningCode::IncompleteReplayState,
        "Replay review contains incomplete code, artifact, or data snapshot refs.",
    );
    assert(warning_views(warnings@) =~= before + review_issues(*contract));
}

/// Whether a ref gives a secret away.
pub open spec fn ref_is_secret(x: AttributionStableRef) -> bool {
    x.provenance.raw_secrets_exposed || is_secret_like(x.ref_uri@) || is_secret_like(
        x.provenance.source_ref@,
    )
}

fn ref_secret(stable_ref: &AttributionStableRef) -> (r: bool)
    ensures
        r == ref_is_secret(*stable_ref),
{
    stable_ref.provenance.raw_secrets_exposed || secret_like(stable_ref.ref_uri.as_str())
        || secret_like(stable_ref.provenance.source_ref.as_str())
}

/// Whether a note gives a secret away.
pub open spec fn note_is_secret(x: UserNoteRef) -> bool {
    x.provenance.raw_secrets_exposed || is_secret_like(x.note_ref@)
}

fn note_secret(note: &UserNoteRef) -> (r: bool)
    ensures
        r == note_is_secret(*note),
{
    note.provenance.raw_secrets_exposed || secret_like(note.note_ref.as_str())
}

/// Whether a snapshot gives a secret away.
pub open spec fn snapshot_is_secret(x: DataSnapshotRef) -> bool {
    x.provenance.raw_secrets_exposed || is_secret_like(x.snapshot_ref@)
}

fn snapshot_secret(snapshot: &DataSnapshotRef) -> (r: bool)
    ensures
        r == snapshot_is_secret(*snapshot),
{
    snapshot.provenance.raw_secrets_exposed || secret_like(snapshot.snapshot_ref.as_str())
}

/// Whether a journal gives a secret away.
pub open spec fn exposes_secret(c: AttributionJournalContract) -> bool {
    ||| holds_secret(JsonTree::Object(c.metadata@))
    ||| exists|i: int| 0 <= i < c.refs@.len() && ref_is_secret(#[trigger] c.refs@[i])
    ||| exists|i: int| 0 <= i < c.user_notes@.len() && note_is_secret(#[trigger] c.user_notes@[i])
    ||| c.analytics.provenance.raw_secrets_exposed
    ||| exists|i: int|
        0 <= i < c.replay_review.data_snapshots@.len() && snapshot_is_secret(
            #[trigger] c.replay_review.data_snapshots@[i],
        )
}

/// What the rule on secrets says. It never repeats what it found.
pub open spec fn secret_issues(c: AttributionJournalContract) -> Seq<WarningView> {
    issue(
        c,
        exposes_secret(c),
        AttributionWarningCode::RawSecretRejected,
        "Attribution journal contains raw secret-shaped refs or metadata."@,
    )
}

fn validate_secret_surfaces(contract: &AttributionJournalContract, warnings: &mut Vec<AttributionWarning>)
    ensures
        warning_views(final(warnings)@) == warning_views(old(warnings)@) + secret_issues(*contract),
{
    let exposed: bool = contains_secret_key(&contract.metadata) || any(
        &contract.refs,
        ref_secret,
        Ghost(|x: AttributionStableRef| ref_is_secret(x)),
    ) || any(&contract.user_notes, note_secret, Ghost(|x: UserNoteRef| note_is_secret(x)))
        || contract.analytics.provenance.raw_secrets_exposed || any(
        &contract.replay_review.data_snapshots,
        snapshot_secret,
        Ghost(|x: DataSnapshotRef| snapshot_is_secret(x)),
    );
    warn(
        warnings,
        contract,
        exposed,
        AttributionWarningCode::RawSecretRejected,
        "Attribution journal contains raw secret-shaped refs or metadata.",
    );
}

fn edge_advises(edge: &AttributionEdge) -> (r: bool)
    ensures
        r == gives_advice(edge.relation@),
{
    contains_advice_or_prediction(edge.relation.as_str())
}

fn reason_advises(summary: &SkipRejectSummary) -> (r: bool)
    ensures
        r == (gives_advice(summary.reason_code@) || gives_advice(summary.reason_kind@)),
{
    contains_advice_or_prediction(summary.reason_code.as_str()) || contains_advice_or_prediction(
        summary.reason_kind.as_str(),
    )
}

fn warning_advises(warning: &AttributionWarning) -> (r: bool)
    ensures
        r == gives_advice(warning.message@),
{
    contains_advice_or_prediction(warning.message.as_str())
}

/// Whether the wording of a journal gives advice or predicts something.
pub open spec fn wording_advises(c: AttributionJournalContract) -> bool {
    ||| exists|i: int|
        0 <= i < c.attribution_edges@.len() && gives_advice(
            (#[trigger] c.attribution_edges@[i]).relation@,
        )
    ||| exists|i: int|
        0 <= i < c.analytics.skip_reject_summaries@.len() && (gives_advice(
            (#[trigger] c.analytics.skip_reject_summaries@[i]).reason_code@,
        ) || gives_advice(c.analytics.skip_reject_summaries@[i].reason_kind@))
    ||| exists|i: int|
        0 <= i < c.warnings@.len() && gives_advice((#[trigger] c.warnings@[i]).message@)
}

/// What the rule on the wording says.
pub open spec fn wording_issues(c: AttributionJournalContract) -> Seq<WarningView> {
    issue(
        c,
        wording_advises(c),
        AttributionWarningCode::PredictiveOrAdviceCopyRejected,
        "Attribution and journal analytics copy must stay descriptive and non-predictive."@,
    )
}

fn validate_copy_boundary(contract: &AttributionJournalContract, warnings: &mut Vec<AttributionWarning>)
    ensures
        warning_views(final(warnings)@) == warning_views(old(warnings)@) + wording_issues(*contract),
{
    let advises: bool = any(
        &contract.attribution_edges,
        edge_advises,
        Ghost(|x: AttributionEdge| gives_advice(x.relation@)),
    ) || any(
        &contract.analytics.skip_reject_summaries,
        reason_advises,
        Ghost(|x: SkipRejectSummary| gives_advice(x.reason_code@) || gives_advice(x.reason_kind@)),
    ) || any(
        &contract.warnings,
        warning_advises,
        Ghost(|x: AttributionWarning| gives_advice(x.message@)),
    );
    warn(
        warnings,
        contract,
        advises,
        AttributionWarningCode::PredictiveOrAdviceCopyRejected,
        "Attribution and journal analytics copy must stay descriptive and non-predictive.",
    );
}

/// All that the rules say of a journal, after the warnings that it carries.
pub open spec fn journal_warnings(c: AttributionJournalContract) -> Seq<WarningView> {
    warning_views(c.warnings@) + required_field_issues(c) + ref_graph_issues(c) + freshness_issues(c)
        + analytics_issues(c) + review_issues(c) + secret_issues(c) + wording_issues(c)
}

/// Whether no warning is an error.
pub open spec fn free_of_errors(list: Seq<WarningView>) -> bool {
    forall|i: int|
        0 <= i < list.len() ==> (#[trigger] list[i]).severity != AttributionWarningSeverity::Error
}

fn copy_warnings(list: &Vec<AttributionWarning>) -> (r: Vec<AttributionWarning>)
    ensures
        warning_views(r@) == warning_views(list@),
{
    let mut out: Vec<AttributionWarning> = Vec::new();
    let mut i: usize = 0;
    while i < list.len()
        invariant
            i <= list.len(),
            warning_views(out@) == warning_views(list@).take(i as int),
        decreases list.len() - i,
    {
        let ghost before = warning_views(out@);
        let item = AttributionWarning {
            code: list[i].code,
            severity: list[i].severity,
            message: list[i].message.clone(),
            replay_ref: list[i].replay_ref.clone(),
        };
        out.push(item);
        proof {
            assert(warning_views(out@) =~= before.push(list@[i as int]@));
            assert(warning_views(list@).take(i + 1) =~= warning_views(list@).take(i as int).push(
                list@[i as int]@,
            ));
        }
        i += 1;
    }
    assert(warning_views(list@).take(list@.len() as int) =~= warning_views(list@));
    out
}

fn no_errors(list: &Vec<AttributionWarning>) -> (r: bool)
    ensures
        r == free_of_errors(warning_views(list@)),
{
    let ghost shown = warning_views(list@);
    let mut i: usize = 0;
    while i < list.len()
        invariant
            i <= list.len(),
            shown == warning_views(list@),
            forall|j: int|
                0 <= j < i ==> (#[trigger] shown[j]).severity != AttributionWarningSeverity::Error,
        decreases list.len() - i,
    {
        assert(shown[i as int] == list@[i as int]@);
        if list[i].severity == AttributionWarningSeverity::Error {
            return false;
        }
        i += 1;
    }
    true
}

/// Holds a journal to its rules.
pub fn validate_attribution_journal(contract: &AttributionJournalContract) -> (r:
    AttributionValidationReport)
    requires
        contract.analytics.win_loss_summary.fits(),
    ensures
        warning_views(r.warnings@) == journal_warnings(*contract),
        r.ok == free_of_errors(journal_warnings(*contract)),
{
    let mut warnings = copy_warnings(&contract.warnings);
    validate_required_fields(contract, &mut warnings);
    validate_ref_graph(contract, &mut warnings);
    validate_artifact_freshness_and_hashes(contract, &mut warnings);
    validate_analytics(contract, &mut warnings);
    validate_replay_review(contract, &mut warnings);
    validate_secret_surfaces(contract, &mut warnings);
    validate_copy_boundary(contract, &mut warnings);
    let ok: bool = no_errors(&warnings);
    AttributionValidationReport { ok, warnings }
}

impl AttributionJournalContract {
    /// Holds the journal to its rules.
    pub fn validate(&self) -> (r: AttributionValidationReport)
        requires
            self.analytics.win_loss_summary.fits(),
        ensures
            warning_views(r.warnings@) == journal_warnings(*self),
            r.ok == free_of_errors(journal_warnings(*self)),
    {
        validate_attribution_journal(self)
    }
}

/// The parts of a list that is free of errors are free of errors.
proof fn parts_are_free_of_errors(head: Seq<WarningView>, tail: Seq<WarningView>)
    requires
        free_of_errors(head + tail),
    ensures
        free_of_errors(head),
        free_of_errors(tail),
{
    assert forall|i: int| 0 <= i < head.len() implies (#[trigger] head[i]).severity
        != AttributionWarningSeverity::Error by {
        assert((head + tail)[i] == head[i]);
    }
    assert forall|i: int| 0 <= i < tail.len() implies (#[trigger] tail[i]).severity
        != AttributionWarningSeverity::Error by {
        assert((head + tail)[head.len() + i] == tail[i]);
    }
}

proof fn no_cause(c: AttributionJournalContract, cause: bool, code: AttributionWarningCode, message: Seq<char>)
    requires
        free_of_errors(issue(c, cause, code, message)),
    ensures
        !cause,
{
    if cause {
        let list = issue(c, cause, code, message);
        assert(list[0].severity == AttributionWarningSeverity::Error);
    }
}

/// A journal that passes gives no secret away.
pub proof fn passing_journal_exposes_no_secret(c: AttributionJournalContract)
    requires
        free_of_errors(journal_warnings(c)),
    ensures
        !exposes_secret(c),
{
    let head = warning_views(c.warnings@) + required_field_issues(c) + ref_graph_issues(c)
        + freshness_issues(c) + analytics_issues(c) + review_issues(c);
    parts_are_free_of_errors(head + secret_issues(c), wording_issues(c));
    parts_are_free_of_errors(head, secret_issues(c));
    no_cause(
        c,
        exposes_secret(c),
        AttributionWarningCode::RawSecretRejected,
        "Attribution journal contains raw secret-shaped refs or metadata."@,
    );
}

/// A journal that passes gives no advice and predicts nothing.
pub proof fn passing_journal_gives_no_advice(c: AttributionJournalContract)
    requires
        free_of_errors(journal_warnings(c)),
    ensures
        !wording_advises(c),
{
    let head = warning_views(c.warnings@) + required_field_issues(c) + ref_graph_issues(c)
        + freshness_issues(c) + analytics_issues(c) + review_issues(c) + secret_issues(c);
    parts_are_free_of_errors(head, wording_issues(c));
    no_cause(
        c,
        wording_advises(c),
        AttributionWarningCode::PredictiveOrAdviceCopyRejected,
        "Attribution and journal analytics copy must stay descriptive and non-predictive."@,
    );
}

/// A journal that passes holds a ref of each kind that it has to hold.
pub proof fn passing_journal_holds_every_kind(c: AttributionJournalContract, k: int)
    requires
        free_of_errors(journal_warnings(c)),
        0 <= k < required_kinds().len(),
    ensures
        holds_kind(c, required_kinds()[k]),
{
    let first = warning_views(c.warnings@) + required_field_issues(c);
    let with_refs = first + ref_graph_issues(c);
    let with_fresh = with_refs + freshness_issues(c);
    let with_analytics = with_fresh + analytics_issues(c);
    let with_review = with_analytics + review_issues(c);
    let with_secrets = with_review + secret_issues(c);
    parts_are_free_of_errors(with_secrets, wording_issues(c));
    parts_are_free_of_errors(with_review, secret_issues(c));
    parts_are_free_of_errors(with_analytics, review_issues(c));
    parts_are_free_of_errors(with_fresh, analytics_issues(c));
    parts_are_free_of_errors(with_refs, freshness_issues(c));
    parts_are_free_of_errors(first, ref_graph_issues(c));
    let kinds = issue(
        c,
        lacks_kind(c),
        AttributionWarningCode::MissingRequiredRefKind,
        "Attribution journal is missing a required strategy, research, ledger, execution, valuation, note, report, or fill-quality ref kind."@,
    );
    let parts = issue(
        c,
        lacks_ref_parts(c),
        AttributionWarningCode::MissingRef,
        "Attribution journal contains an empty ref id, URI, hash, saved note, or provenance."@,
    );
    let edges = issue(
        c,
        edges_are_loose(c),
        AttributionWarningCode::MissingRef,
        "Attribution journal edges must connect stable refs with evidence hashes."@,
    );
    assert(ref_graph_issues(c) == kinds + parts + edges);
    parts_are_free_of_errors(kinds + parts, edges);
    parts_are_free_of_errors(kinds, parts);
    no_cause(
        c,
        lacks_kind(c),
        AttributionWarningCode::MissingRequiredRefKind,
        "Attribution journal is missing a required strategy, research, ledger, execution, valuation, note, report, or fill-quality ref kind."@,
    );
}

} // verus!

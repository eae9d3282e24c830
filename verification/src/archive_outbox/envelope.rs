//! Evidence envelopes: what they hold, when they are intact, and how they are made.

pub mod soundness;

use vstd::prelude::*;

use crate::digest;
use crate::digest::{hex_text, sha256};
use crate::json;
use crate::json::{canonical_bytes, Json, JsonMap, JsonTree};
use crate::ports::{SideEffectContext, Stored};
use crate::text;
use crate::text::{
    blank, char_is_alphanumeric, char_is_digit, char_to_lower, chars_of, contains, same,
};

verus! {

/// The schema of the gateway request.
pub const ARCHIVE_INGEST_SCHEMA: &'static str = "tradeassembly.studio.tool-gateway/v1";

/// The schema of the payload inside the gateway request: the local, redacted envelope
/// of an event or a receipt.
pub const ARCHIVE_EVIDENCE_SCHEMA: &'static str = "tradeassembly.archive-evidence.v1";

/// The schema of the record that the archive keeps.
pub const CLOUD_ARCHIVE_RECORD_SCHEMA: &'static str =
    "tradeassembly.studio.cloud-archive-record/v1";

/// How the integrity of an envelope is made sure of.
pub const ARCHIVE_INTEGRITY_ALGORITHM: &'static str = "sha256-jcs";

/// The largest canonical payload, in bytes.
pub const MAX_EVIDENCE_BYTES: usize = 65_536;

/// The longest identifier.
pub const MAX_IDENTIFIER_BYTES: usize = 160;

/// The letters and digits of a key, in small letters.
pub open spec fn normalized(key: Seq<char>) -> Seq<char>
    decreases key.len(),
{
    if key.len() == 0 {
        Seq::empty()
    } else if text::is_alphanumeric(key.last()) {
        normalized(key.drop_last()).push(text::lower(key.last()))
    } else {
        normalized(key.drop_last())
    }
}

/// What a key must not contain.
pub open spec fn sensitive_needles() -> Seq<Seq<char>> {
    seq![
        "token"@,
        "secret"@,
        "password"@,
        "authorization"@,
        "credential"@,
        "privatekey"@,
        "apikey"@,
        "authorizationcode"@,
    ]
}

/// Whether a key names something that does not belong in evidence.
pub open spec fn key_is_sensitive(key: Seq<char>) -> bool {
    exists|i: int|
        0 <= i < sensitive_needles().len() && text::occurs(
            normalized(key),
            #[trigger] sensitive_needles()[i],
        )
}

/// Whether a sensitive key stands anywhere in a value.
pub open spec fn holds_sensitive_key(tree: JsonTree) -> bool
    decreases tree,
{
    match tree {
        JsonTree::Object(map) => exists|key: Seq<char>| #[trigger]
            map.dom().contains(key) && (key_is_sensitive(key) || holds_sensitive_key(map[key])),
        JsonTree::Array(items) => exists|i: int|
            0 <= i < items.len() && holds_sensitive_key(#[trigger] items[i]),
        _ => false,
    }
}

proof fn sensitive_entry(tree: JsonTree, map: Map<Seq<char>, JsonTree>, key: Seq<char>)
    requires
        tree == JsonTree::Object(map),
        map.dom().contains(key),
        key_is_sensitive(key) || holds_sensitive_key(map[key]),
    ensures
        holds_sensitive_key(tree),
{
    match tree {
        JsonTree::Object(own) => {
            assert(own.dom().contains(key));
        },
        _ => {},
    }
}

proof fn sensitive_item(tree: JsonTree, items: Seq<JsonTree>, i: int)
    requires
        tree == JsonTree::Array(items),
        0 <= i < items.len(),
        holds_sensitive_key(items[i]),
    ensures
        holds_sensitive_key(tree),
{
    match tree {
        JsonTree::Array(own) => {
            assert(holds_sensitive_key(own[i]));
        },
        _ => {},
    }
}

fn normalize(key: &str) -> (r: String)
    ensures
        r@ == normalized(key@),
{
    let chars = chars_of(key);
    let mut out: String = String::new();
    let mut i: usize = 0;
    assert(chars@.take(0) =~= Seq::empty());
    while i < chars.len()
        invariant
            i <= chars.len(),
            out@ == normalized(chars@.take(i as int)),
        decreases chars.len() - i,
    {
        proof {
            assert(chars@.take(i + 1).drop_last() =~= chars@.take(i as int));
            assert(chars@.take(i + 1).last() == chars@[i as int]);
        }
        if char_is_alphanumeric(chars[i]) {
            out.push(char_to_lower(chars[i]));
        }
        i += 1;
    }
    assert(chars@.take(chars@.len() as int) =~= key@);
    out
}

/// Tests whether a key names something that does not belong in evidence.
pub fn is_sensitive_key(key: &str) -> (r: bool)
    ensures
        r == key_is_sensitive(key@),
{
    let name = normalize(key);
    let r: bool = contains(name.as_str(), "token") || contains(name.as_str(), "secret") || contains(
        name.as_str(),
        "password",
    ) || contains(name.as_str(), "authorization") || contains(name.as_str(), "credential")
        || contains(name.as_str(), "privatekey") || contains(name.as_str(), "apikey") || contains(
        name.as_str(),
        "authorizationcode",
    );
    proof {
        let needles = sensitive_needles();
        if r {
            assert(text::occurs(name@, needles[0]) || text::occurs(name@, needles[1]) || text::occurs(
                name@,
                needles[2],
            ) || text::occurs(name@, needles[3]) || text::occurs(name@, needles[4]) || text::occurs(
                name@,
                needles[5],
            ) || text::occurs(name@, needles[6]) || text::occurs(name@, needles[7]));
        }
    }
    r
}

/// Tests whether a sensitive key stands anywhere in a value.
pub fn contains_sensitive_key(value: &Json) -> (r: bool)
    ensures
        r == holds_sensitive_key(value@),
    decreases value,
{
    match value {
        Json::Object(map) => {
            let mut i: usize = 0;
            while i < map.entries.len()
                invariant
                    i <= map.entries.len(),
                    value matches Json::Object(own) && own == map,
                    value@ == JsonTree::Object(map@),
                    forall|j: int|
                        0 <= j < i ==> !key_is_sensitive((#[trigger] map.entries@[j]).0@)
                            && !holds_sensitive_key(map@[map.entries@[j].0@]),
                decreases map.entries.len() - i,
            {
                let key: &str = map.entries[i].0.as_str();
                proof {
                    json::entry_has_key(map.entries@, i as int);
                }
                if is_sensitive_key(key) {
                    proof {
                        sensitive_entry(value@, map@, key@);
                    }
                    return true;
                }
                if let Some(at) = map.find(key) {
                    if contains_sensitive_key(&map.entries[at].1) {
                        proof {
                            sensitive_entry(value@, map@, key@);
                        }
                        return true;
                    }
                }
                i += 1;
            }
            proof {
                assert forall|key: Seq<char>| #[trigger]
                    map@.dom().contains(key) implies !(key_is_sensitive(key) || holds_sensitive_key(
                    map@[key],
                )) by {
                    json::key_has_entry(map.entries@, key);
                }
            }
            false
        },
        Json::Array(items) => {
            let mut i: usize = 0;
            proof {
                json::array_view_members(items@);
            }
            while i < items.len()
                invariant
                    i <= items.len(),
                    value matches Json::Array(own) && own == items,
                    value@ == JsonTree::Array(json::array_view(items@)),
                    json::array_view(items@) == items@.map_values(|item: Json| item@),
                    forall|j: int|
                        0 <= j < i ==> !holds_sensitive_key(
                            #[trigger] json::array_view(items@)[j],
                        ),
                decreases items.len() - i,
            {
                if contains_sensitive_key(&items[i]) {
                    proof {
                        sensitive_item(value@, json::array_view(items@), i as int);
                    }
                    return true;
                }
                i += 1;
            }
            false
        },
        _ => false,
    }
}

/// Whether a character may stand in an identifier.
pub open spec fn identifier_char(c: char) -> bool {
    text::is_alphanumeric(c) || c == '.' || c == '_' || c == '-' || c == ':'
}

/// Whether a text is an identifier: not empty, not too long, of plain characters.
pub open spec fn identifier_is_safe(s: Seq<char>) -> bool {
    &&& 0 < s.len() <= MAX_IDENTIFIER_BYTES
    &&& forall|i: int| 0 <= i < s.len() ==> identifier_char(#[trigger] s[i])
}

/// Tests whether a text is an identifier.
pub fn is_safe_identifier(value: &str) -> (r: bool)
    ensures
        r == identifier_is_safe(value@),
{
    let chars = chars_of(value);
    if chars.len() == 0 || chars.len() > MAX_IDENTIFIER_BYTES {
        return false;
    }
    let mut i: usize = 0;
    while i < chars.len()
        invariant
            i <= chars.len(),
            chars@ == value@,
            0 < chars@.len() <= MAX_IDENTIFIER_BYTES,
            forall|j: int| 0 <= j < i ==> identifier_char(#[trigger] chars@[j]),
        decreases chars.len() - i,
    {
        let c: char = chars[i];
        if !(char_is_alphanumeric(c) || c == '.' || c == '_' || c == '-' || c == ':') {
            assert(!identifier_char(value@[i as int]));
            return false;
        }
        i += 1;
    }
    true
}

/// Whether a text spells a SHA-256 digest.
pub open spec fn is_sha256(s: Seq<char>) -> bool {
    &&& s.len() == 64
    &&& forall|i: int|
        0 <= i < s.len() ==> text::is_digit(#[trigger] s[i]) || ('a' <= s[i] && s[i] <= 'f')
}

fn char_is_small_hex(c: char) -> (r: bool)
    ensures
        r == (text::is_digit(c) || ('a' <= c && c <= 'f')),
{
    char_is_digit(c) || ('a' <= c && c <= 'f')
}

/// Tests whether a text spells a SHA-256 digest.
pub fn valid_sha256(value: &str) -> (r: bool)
    ensures
        r == is_sha256(value@),
{
    let chars = chars_of(value);
    if chars.len() != 64 {
        return false;
    }
    let mut i: usize = 0;
    while i < chars.len()
        invariant
            i <= chars.len(),
            chars@ == value@,
            chars@.len() == 64,
            forall|j: int|
                0 <= j < i ==> text::is_digit(#[trigger] chars@[j]) || ('a' <= chars@[j] && chars@[j]
                    <= 'f'),
        decreases chars.len() - i,
    {
        if !char_is_small_hex(chars[i]) {
            assert(!(text::is_digit(value@[i as int]) || ('a' <= value@[i as int] && value@[i as int]
                <= 'f')));
            return false;
        }
        i += 1;
    }
    true
}

/// Whether a code of a transport can be kept as it is.
pub open spec fn code_is_safe(s: Seq<char>) -> bool {
    &&& 0 < s.len() <= 96
    &&& forall|i: int|
        0 <= i < s.len() ==> ('a' <= #[trigger] s[i] && s[i] <= 'z') || text::is_digit(s[i]) || s[i]
            == '_' || s[i] == '-'
}

/// A code of a transport, or the general one in its place.
pub open spec fn safe_code(s: Seq<char>) -> Seq<char> {
    if code_is_safe(s) {
        s
    } else {
        "archive_transport_failed"@
    }
}

fn char_is_code(c: char) -> (r: bool)
    ensures
        r == (('a' <= c && c <= 'z') || text::is_digit(c) || c == '_' || c == '-'),
{
    ('a' <= c && c <= 'z') || char_is_digit(c) || c == '_' || c == '-'
}

fn is_safe_code(value: &str) -> (r: bool)
    ensures
        r == code_is_safe(value@),
{
    let chars = chars_of(value);
    if chars.len() == 0 || chars.len() > 96 {
        return false;
    }
    let mut i: usize = 0;
    while i < chars.len()
        invariant
            i <= chars.len(),
            chars@ == value@,
            0 < chars@.len() <= 96,
            forall|j: int|
                0 <= j < i ==> ('a' <= #[trigger] chars@[j] && chars@[j] <= 'z') || text::is_digit(
                    chars@[j],
                ) || chars@[j] == '_' || chars@[j] == '-',
        decreases chars.len() - i,
    {
        if !char_is_code(chars[i]) {
            assert(!(('a' <= value@[i as int] && value@[i as int] <= 'z') || text::is_digit(
                value@[i as int],
            ) || value@[i as int] == '_' || value@[i as int] == '-'));
            return false;
        }
        i += 1;
    }
    true
}

/// Keeps a code of a transport as it is, or puts the general one in its place: what a
/// provider says is never passed on.
pub fn safe_error_code(value: &str) -> (r: String)
    ensures
        r@ == safe_code(value@),
{
    if is_safe_code(value) {
        value.to_owned()
    } else {
        "archive_transport_failed".to_owned()
    }
}

/// Why the outbox refuses something.
#[derive(Clone, Copy, Debug, PartialEq, Eq, Structural)]
pub enum ArchiveOutboxError {
    RequestIdRequired,
    SourceRequired,
    AggregateIdRequired,
    InvalidIdentifier,
    InvalidOccurredAt,
    InvalidPayload,
    SensitivePayload,
    PayloadTooLarge,
    InvalidEnvelope,
    IntegrityMismatch,
    IdempotencyConflict,
    RequestIdConflict,
    StorageUnavailable,
    StorageInconsistent,
    InvalidSyncOwner,
    InvalidLimit,
}

/// The code of an error.
pub open spec fn error_code(error: ArchiveOutboxError) -> Seq<char> {
    match error {
        ArchiveOutboxError::RequestIdRequired => "archive_request_id_required"@,
        ArchiveOutboxError::SourceRequired => "archive_evidence_source_required"@,
        ArchiveOutboxError::AggregateIdRequired => "archive_evidence_aggregate_id_required"@,
        ArchiveOutboxError::InvalidIdentifier => "archive_evidence_identifier_invalid"@,
        ArchiveOutboxError::InvalidOccurredAt => "archive_evidence_occurred_at_invalid"@,
        ArchiveOutboxError::InvalidPayload => "archive_evidence_payload_invalid"@,
        ArchiveOutboxError::SensitivePayload => "archive_evidence_sensitive_payload"@,
        ArchiveOutboxError::PayloadTooLarge => "archive_evidence_payload_too_large"@,
        ArchiveOutboxError::InvalidEnvelope => "archive_evidence_envelope_invalid"@,
        ArchiveOutboxError::IntegrityMismatch => "archive_evidence_integrity_mismatch"@,
        ArchiveOutboxError::IdempotencyConflict => "archive_evidence_idempotency_conflict"@,
        ArchiveOutboxError::RequestIdConflict => "archive_request_id_conflict"@,
        ArchiveOutboxError::StorageUnavailable => "archive_evidence_storage_unavailable"@,
        ArchiveOutboxError::StorageInconsistent => "archive_evidence_storage_inconsistent"@,
        ArchiveOutboxError::InvalidSyncOwner => "archive_evidence_sync_owner_invalid"@,
        ArchiveOutboxError::InvalidLimit => "archive_evidence_limit_invalid"@,
    }
}

impl ArchiveOutboxError {
    /// The code of the error.
    pub fn code(&self) -> (r: &'static str)
        ensures
            r@ == error_code(*self),
    {
        match self {
            ArchiveOutboxError::RequestIdRequired => "archive_request_id_required",
            ArchiveOutboxError::SourceRequired => "archive_evidence_source_required",
            ArchiveOutboxError::AggregateIdRequired => "archive_evidence_aggregate_id_required",
            ArchiveOutboxError::InvalidIdentifier => "archive_evidence_identifier_invalid",
            ArchiveOutboxError::InvalidOccurredAt => "archive_evidence_occurred_at_invalid",
            ArchiveOutboxError::InvalidPayload => "archive_evidence_payload_invalid",
            ArchiveOutboxError::SensitivePayload => "archive_evidence_sensitive_payload",
            ArchiveOutboxError::PayloadTooLarge => "archive_evidence_payload_too_large",
            ArchiveOutboxError::InvalidEnvelope => "archive_evidence_envelope_invalid",
            ArchiveOutboxError::IntegrityMismatch => "archive_evidence_integrity_mismatch",
            ArchiveOutboxError::IdempotencyConflict => "archive_evidence_idempotency_conflict",
            ArchiveOutboxError::RequestIdConflict => "archive_request_id_conflict",
            ArchiveOutboxError::StorageUnavailable => "archive_evidence_storage_unavailable",
            ArchiveOutboxError::StorageInconsistent => "archive_evidence_storage_inconsistent",
            ArchiveOutboxError::InvalidSyncOwner => "archive_evidence_sync_owner_invalid",
            ArchiveOutboxError::InvalidLimit => "archive_evidence_limit_invalid",
        }
    }
}

/// Checks that a text is an identifier.
pub fn validate_identifier(value: &str) -> (r: Result<(), ArchiveOutboxError>)
    ensures
        r == (if identifier_is_safe(value@) {
            Ok::<(), ArchiveOutboxError>(())
        } else {
            Err(ArchiveOutboxError::InvalidIdentifier)
        }),
{
    if is_safe_identifier(value) {
        Ok(())
    } else {
        Err(ArchiveOutboxError::InvalidIdentifier)
    }
}

/// What a piece of evidence is.
#[derive(Clone, Copy, Debug, PartialEq, Eq, Structural)]
pub enum ArchiveEvidenceKind {
    Event,
    Receipt,
}

impl ArchiveEvidenceKind {
    /// The name of the kind.
    pub open spec fn name(self) -> Seq<char> {
        match self {
            ArchiveEvidenceKind::Event => "event"@,
            ArchiveEvidenceKind::Receipt => "receipt"@,
        }
    }

    /// The name of the kind, as it is stored.
    pub fn as_str(&self) -> (r: &'static str)
        ensures
            r@ == self.name(),
    {
        match self {
            ArchiveEvidenceKind::Event => "event",
            ArchiveEvidenceKind::Receipt => "receipt",
        }
    }
}

/// Evidence as it comes in.
#[derive(Debug)]
pub struct ArchiveEvidenceInput {
    pub tenant_id: String,
    pub workspace_id: String,
    pub tool_name: String,
    pub request_id: String,
    pub evidence_kind: ArchiveEvidenceKind,
    pub source: String,
    pub aggregate_id: String,
    pub occurred_at_ms: i64,
    pub payload: Json,
    pub context: SideEffectContext,
    /// The authority of the context, as it is written into the evidence.
    pub authority: Json,
}

/// Evidence as it is kept and sent.
#[derive(Debug)]
pub struct ArchiveEvidenceEnvelope {
    pub schema: String,
    pub tenant_id: String,
    pub workspace_id: String,
    pub tool_name: String,
    pub request_id: String,
    pub idempotency_key: String,
    pub payload: Json,
    pub payload_sha256: String,
    pub occurred_at_ms: i64,
    /// The digest that the receipt of the archive repeats.
    pub request_digest_sha256: String,
}

/// What an [`ArchiveEvidenceEnvelope`] says.
#[verifier::ext_equal]
pub struct EnvelopeView {
    pub schema: Seq<char>,
    pub tenant_id: Seq<char>,
    pub workspace_id: Seq<char>,
    pub tool_name: Seq<char>,
    pub request_id: Seq<char>,
    pub idempotency_key: Seq<char>,
    pub payload: JsonTree,
    pub payload_sha256: Seq<char>,
    pub occurred_at_ms: int,
    pub request_digest_sha256: Seq<char>,
}

impl View for ArchiveEvidenceEnvelope {
    type V = EnvelopeView;

    open spec fn view(&self) -> EnvelopeView {
        EnvelopeView {
            schema: self.schema@,
            tenant_id: self.tenant_id@,
            workspace_id: self.workspace_id@,
            tool_name: self.tool_name@,
            request_id: self.request_id@,
            idempotency_key: self.idempotency_key@,
            payload: self.payload@,
            payload_sha256: self.payload_sha256@,
            occurred_at_ms: self.occurred_at_ms as int,
            request_digest_sha256: self.request_digest_sha256@,
        }
    }
}

/// An envelope as it is stored.
pub open spec fn envelope_tree(e: EnvelopeView) -> JsonTree {
    JsonTree::Object(
        map![
            "schema"@ => JsonTree::Text(e.schema),
            "tenantId"@ => JsonTree::Text(e.tenant_id),
            "workspaceId"@ => JsonTree::Text(e.workspace_id),
            "toolName"@ => JsonTree::Text(e.tool_name),
            "requestId"@ => JsonTree::Text(e.request_id),
            "idempotencyKey"@ => JsonTree::Text(e.idempotency_key),
            "payload"@ => e.payload,
            "payloadSha256"@ => JsonTree::Text(e.payload_sha256),
            "occurredAtMs"@ => JsonTree::Int(e.occurred_at_ms),
            "requestDigestSha256"@ => JsonTree::Text(e.request_digest_sha256)
        ],
    )
}

/// The hexadecimal digest of the canonical form of a value, where it has one.
pub open spec fn canonical_sum(tree: JsonTree) -> Option<Seq<char>> {
    match json::canonical_json_of(tree) {
        Some(bytes) => Some(digest::hex(digest::sha256_of(bytes))),
        None => None,
    }
}

/// The length of the canonical form of a value and its digest, where it has one.
pub open spec fn canonical_form(tree: JsonTree) -> Option<(nat, Seq<char>)> {
    match json::canonical_json_of(tree) {
        Some(bytes) => Some((bytes.len(), digest::hex(digest::sha256_of(bytes)))),
        None => None,
    }
}

/// The length of a canonical form, and its digest.
#[derive(Debug)]
pub struct CanonicalForm {
    pub len: usize,
    pub sum: String,
}

/// What an optional canonical form says.
pub open spec fn form_view(form: Option<CanonicalForm>) -> Option<(nat, Seq<char>)> {
    match form {
        Some(f) => Some((f.len as nat, f.sum@)),
        None => None,
    }
}

/// Computes the length and the digest of the canonical form of a value.
pub fn canonical_form_of(value: &Json) -> (r: Option<CanonicalForm>)
    ensures
        form_view(r) == canonical_form(value@),
        r matches Some(f) ==> f.sum@.len() == 64,
{
    match canonical_bytes(value) {
        Some(bytes) => {
            let sum = sha256(bytes.as_slice());
            Some(CanonicalForm { len: bytes.len(), sum: hex_text(&sum) })
        },
        None => None,
    }
}

/// What the digest of a request is made of.
pub open spec fn request_tuple(e: EnvelopeView) -> JsonTree {
    JsonTree::Array(
        seq![
            JsonTree::Text(e.schema),
            JsonTree::Text(e.tenant_id),
            JsonTree::Text(e.workspace_id),
            JsonTree::Text(e.tool_name),
            JsonTree::Text(e.request_id),
            JsonTree::Text(e.payload_sha256),
            JsonTree::Int(e.occurred_at_ms),
        ],
    )
}

/// The digest of a request, where it has one.
pub open spec fn request_sum(e: EnvelopeView) -> Option<Seq<char>> {
    canonical_sum(request_tuple(e))
}

/// Computes the digest of a request.
pub fn request_digest(envelope: &ArchiveEvidenceEnvelope) -> (r: Option<String>)
    ensures
        text::option_text(r) == request_sum(envelope@),
{
    let mut items: Vec<Json> = Vec::new();
    items.push(Json::text(envelope.schema.as_str()));
    items.push(Json::text(envelope.tenant_id.as_str()));
    items.push(Json::text(envelope.workspace_id.as_str()));
    items.push(Json::text(envelope.tool_name.as_str()));
    items.push(Json::text(envelope.request_id.as_str()));
    items.push(Json::text(envelope.payload_sha256.as_str()));
    items.push(Json::Int(envelope.occurred_at_ms));
    let tuple = Json::Array(items);
    proof {
        json::array_view_members(items@);
        assert(tuple@ == JsonTree::Array(json::array_view(items@)));
        assert(json::array_view(items@) =~= request_tuple(envelope@)->Array_0);
    }
    match canonical_form_of(&tuple) {
        Some(form) => Some(form.sum),
        None => None,
    }
}

/// Whether an envelope has the shape of one, whatever its digests say.
pub open spec fn envelope_is_shaped(e: EnvelopeView) -> bool {
    &&& e.schema == ARCHIVE_INGEST_SCHEMA@
    &&& e.occurred_at_ms > 0
    &&& e.payload is Object
    &&& !holds_sensitive_key(e.payload)
    &&& is_sha256(e.payload_sha256)
    &&& is_sha256(e.request_digest_sha256)
}

/// Whether all the identifiers of an envelope are identifiers.
pub open spec fn identifiers_are_safe(e: EnvelopeView) -> bool {
    &&& identifier_is_safe(e.tenant_id)
    &&& identifier_is_safe(e.workspace_id)
    &&& identifier_is_safe(e.tool_name)
    &&& identifier_is_safe(e.request_id)
    &&& identifier_is_safe(e.idempotency_key)
}

/// Whether an envelope is intact, given the canonical form of its payload and the
/// digest of its request.
pub open spec fn integrity(
    e: EnvelopeView,
    payload: Option<(nat, Seq<char>)>,
    request: Option<Seq<char>>,
) -> Result<(), ArchiveOutboxError> {
    if !envelope_is_shaped(e) {
        Err(ArchiveOutboxError::InvalidEnvelope)
    } else if !identifiers_are_safe(e) {
        Err(ArchiveOutboxError::InvalidIdentifier)
    } else {
        match payload {
            None => Err(ArchiveOutboxError::InvalidEnvelope),
            Some((len, sum)) => if len > MAX_EVIDENCE_BYTES {
                Err(ArchiveOutboxError::PayloadTooLarge)
            } else if e.payload_sha256 != sum {
                Err(ArchiveOutboxError::IntegrityMismatch)
            } else {
                match request {
                    None => Err(ArchiveOutboxError::InvalidEnvelope),
                    Some(expected) => if e.request_digest_sha256 != expected {
                        Err(ArchiveOutboxError::IntegrityMismatch)
                    } else {
                        Ok(())
                    },
                }
            },
        }
    }
}

/// Whether an envelope is intact.
pub open spec fn envelope_integrity(e: EnvelopeView) -> Result<(), ArchiveOutboxError> {
    integrity(e, canonical_form(e.payload), request_sum(e))
}

fn is_object(value: &Json) -> (r: bool)
    ensures
        r == (value@ is Object),
{
    match value {
        Json::Object(_) => true,
        _ => false,
    }
}

/// Whether two envelopes say the same, with payloads that are alike.
pub open spec fn envelopes_agree(a: EnvelopeView, b: EnvelopeView) -> bool {
    json::alike(a.payload, b.payload) && a == (EnvelopeView { payload: a.payload, ..b })
}

impl ArchiveEvidenceEnvelope {
    /// Checks an envelope against the canonical form of its payload and the digest of
    /// its request.
    pub fn check_against(&self, payload: &Option<CanonicalForm>, request: &Option<String>) -> (r: Result<
        (),
        ArchiveOutboxError,
    >)
        ensures
            r == integrity(self@, form_view(*payload), text::option_text(*request)),
    {
        if !same(self.schema.as_str(), ARCHIVE_INGEST_SCHEMA) || self.occurred_at_ms <= 0 || !is_object(
            &self.payload,
        ) || contains_sensitive_key(&self.payload) || !valid_sha256(self.payload_sha256.as_str())
            || !valid_sha256(self.request_digest_sha256.as_str()) {
            return Err(ArchiveOutboxError::InvalidEnvelope);
        }
        if !is_safe_identifier(self.tenant_id.as_str()) || !is_safe_identifier(
            self.workspace_id.as_str(),
        ) || !is_safe_identifier(self.tool_name.as_str()) || !is_safe_identifier(
            self.request_id.as_str(),
        ) || !is_safe_identifier(self.idempotency_key.as_str()) {
            return Err(ArchiveOutboxError::InvalidIdentifier);
        }
        let form = match payload {
            Some(f) => f,
            None => {
                return Err(ArchiveOutboxError::InvalidEnvelope);
            },
        };
        if form.len > MAX_EVIDENCE_BYTES {
            return Err(ArchiveOutboxError::PayloadTooLarge);
        }
        if !same(self.payload_sha256.as_str(), form.sum.as_str()) {
            return Err(ArchiveOutboxError::IntegrityMismatch);
        }
        match request {
            Some(expected) => if same(self.request_digest_sha256.as_str(), expected.as_str()) {
                Ok(())
            } else {
                Err(ArchiveOutboxError::IntegrityMismatch)
            },
            None => Err(ArchiveOutboxError::InvalidEnvelope),
        }
    }

    /// Checks that the envelope is intact.
    pub fn verify_integrity(&self) -> (r: Result<(), ArchiveOutboxError>)
        ensures
            r == envelope_integrity(self@),
    {
        let payload = canonical_form_of(&self.payload);
        let request = request_digest(self);
        self.check_against(&payload, &request)
    }

    /// A copy of the envelope.
    pub fn copy(&self) -> (r: ArchiveEvidenceEnvelope)
        ensures
            r@ == self@,
    {
        ArchiveEvidenceEnvelope {
            schema: self.schema.clone(),
            tenant_id: self.tenant_id.clone(),
            workspace_id: self.workspace_id.clone(),
            tool_name: self.tool_name.clone(),
            request_id: self.request_id.clone(),
            idempotency_key: self.idempotency_key.clone(),
            payload: self.payload.copy(),
            payload_sha256: self.payload_sha256.clone(),
            occurred_at_ms: self.occurred_at_ms,
            request_digest_sha256: self.request_digest_sha256.clone(),
        }
    }

    /// Whether two envelopes say the same.
    pub fn equals(&self, other: &ArchiveEvidenceEnvelope) -> (r: bool)
        ensures
            r == envelopes_agree(self@, other@),
    {
        let r: bool = same(self.schema.as_str(), other.schema.as_str()) && same(
            self.tenant_id.as_str(),
            other.tenant_id.as_str(),
        ) && same(self.workspace_id.as_str(), other.workspace_id.as_str()) && same(
            self.tool_name.as_str(),
            other.tool_name.as_str(),
        ) && same(self.request_id.as_str(), other.request_id.as_str()) && same(
            self.idempotency_key.as_str(),
            other.idempotency_key.as_str(),
        ) && self.payload.equals(&other.payload) && same(
            self.payload_sha256.as_str(),
            other.payload_sha256.as_str(),
        ) && self.occurred_at_ms == other.occurred_at_ms && same(
            self.request_digest_sha256.as_str(),
            other.request_digest_sha256.as_str(),
        );
        r
    }

    /// The envelope as it is stored.
    pub fn value(&self) -> (r: Json)
        ensures
            r@ == envelope_tree(self@),
    {
        Json::object(
            JsonMap::new().with("schema", Json::text(self.schema.as_str())).with(
                "tenantId",
                Json::text(self.tenant_id.as_str()),
            ).with("workspaceId", Json::text(self.workspace_id.as_str())).with(
                "toolName",
                Json::text(self.tool_name.as_str()),
            ).with("requestId", Json::text(self.request_id.as_str())).with(
                "idempotencyKey",
                Json::text(self.idempotency_key.as_str()),
            ).with("payload", self.payload.copy()).with(
                "payloadSha256",
                Json::text(self.payload_sha256.as_str()),
            ).with("occurredAtMs", Json::Int(self.occurred_at_ms)).with(
                "requestDigestSha256",
                Json::text(self.request_digest_sha256.as_str()),
            ),
        )
    }

    /// The request that the envelope makes of the archive.
    pub fn ingest_request(&self) -> (r: ArchiveIngestRequest)
        ensures
            r@ == (EnvelopeView { request_digest_sha256: Seq::empty(), ..self@ }),
    {
        ArchiveIngestRequest {
            schema: self.schema.clone(),
            tenant_id: self.tenant_id.clone(),
            workspace_id: self.workspace_id.clone(),
            tool_name: self.tool_name.clone(),
            request_id: self.request_id.clone(),
            idempotency_key: self.idempotency_key.clone(),
            payload: self.payload.copy(),
            payload_sha256: self.payload_sha256.clone(),
            occurred_at_ms: self.occurred_at_ms,
        }
    }
}

/// The request that an envelope makes of the archive.
#[derive(Debug)]
pub struct ArchiveIngestRequest {
    pub schema: String,
    pub tenant_id: String,
    pub workspace_id: String,
    pub tool_name: String,
    pub request_id: String,
    pub idempotency_key: String,
    pub payload: Json,
    pub payload_sha256: String,
    pub occurred_at_ms: i64,
}

impl View for ArchiveIngestRequest {
    type V = EnvelopeView;

    /// The envelope of the request, without a digest.
    open spec fn view(&self) -> EnvelopeView {
        EnvelopeView {
            schema: self.schema@,
            tenant_id: self.tenant_id@,
            workspace_id: self.workspace_id@,
            tool_name: self.tool_name@,
            request_id: self.request_id@,
            idempotency_key: self.idempotency_key@,
            payload: self.payload@,
            payload_sha256: self.payload_sha256@,
            occurred_at_ms: self.occurred_at_ms as int,
            request_digest_sha256: Seq::empty(),
        }
    }
}

impl ArchiveIngestRequest {
    /// The envelope that makes this request, with the given digest.
    pub fn envelope(&self, request_digest_sha256: String) -> (r: ArchiveEvidenceEnvelope)
        ensures
            r@ == (EnvelopeView { request_digest_sha256: request_digest_sha256@, ..self@ }),
    {
        ArchiveEvidenceEnvelope {
            schema: self.schema.clone(),
            tenant_id: self.tenant_id.clone(),
            workspace_id: self.workspace_id.clone(),
            tool_name: self.tool_name.clone(),
            request_id: self.request_id.clone(),
            idempotency_key: self.idempotency_key.clone(),
            payload: self.payload.copy(),
            payload_sha256: self.payload_sha256.clone(),
            occurred_at_ms: self.occurred_at_ms,
            request_digest_sha256,
        }
    }

    /// The digest of the request.
    pub fn request_digest_sha256(&self) -> (r: Result<String, ArchiveOutboxError>)
        ensures
            match (r, request_sum(self@)) {
                (Ok(sum), Some(expected)) => sum@ == expected,
                (Err(e), None) => e == ArchiveOutboxError::InvalidEnvelope,
                _ => false,
            },
    {
        let envelope = self.envelope(String::new());
        proof {
            assert(request_tuple(envelope@) == request_tuple(self@));
        }
        match request_digest(&envelope) {
            Some(sum) => Ok(sum),
            None => Err(ArchiveOutboxError::InvalidEnvelope),
        }
    }

    /// Checks that the request is intact.
    pub fn verify(&self) -> (r: Result<(), ArchiveOutboxError>)
        ensures
            r == (match request_sum(self@) {
                None => Err::<(), ArchiveOutboxError>(ArchiveOutboxError::InvalidEnvelope),
                Some(sum) => envelope_integrity(
                    (EnvelopeView { request_digest_sha256: sum, ..self@ }),
                ),
            }),
    {
        let sum = match self.request_digest_sha256() {
            Ok(sum) => sum,
            Err(e) => {
                return Err(e);
            },
        };
        let envelope = self.envelope(sum);
        envelope.verify_integrity()
    }
}

/// The payload of an envelope.
pub open spec fn payload_tree(input: ArchiveEvidenceInput) -> JsonTree {
    JsonTree::Object(
        map![
            "schema"@ => JsonTree::Text(ARCHIVE_EVIDENCE_SCHEMA@),
            "kind"@ => JsonTree::Text(input.evidence_kind.name()),
            "source"@ => JsonTree::Text(input.source@),
            "aggregateId"@ => JsonTree::Text(input.aggregate_id@),
            "authorityContext"@ => input.authority@,
            "redacted"@ => JsonTree::Bool(true),
            "evidence"@ => input.payload@
        ],
    )
}

/// Why an input is refused before anything is computed of it.
pub open spec fn input_fault(input: ArchiveEvidenceInput) -> Option<ArchiveOutboxError> {
    if text::is_blank(input.request_id@) {
        Some(ArchiveOutboxError::RequestIdRequired)
    } else if text::is_blank(input.source@) {
        Some(ArchiveOutboxError::SourceRequired)
    } else if text::is_blank(input.aggregate_id@) {
        Some(ArchiveOutboxError::AggregateIdRequired)
    } else if !(identifier_is_safe(input.tenant_id@) && identifier_is_safe(input.workspace_id@)
        && identifier_is_safe(input.tool_name@) && identifier_is_safe(input.request_id@)
        && identifier_is_safe(input.source@) && identifier_is_safe(input.aggregate_id@)
        && identifier_is_safe(input.context.idempotency_key@)) {
        Some(ArchiveOutboxError::InvalidIdentifier)
    } else if input.occurred_at_ms <= 0 {
        Some(ArchiveOutboxError::InvalidOccurredAt)
    } else if !(input.payload@ is Object) {
        Some(ArchiveOutboxError::InvalidPayload)
    } else if holds_sensitive_key(input.payload@) {
        Some(ArchiveOutboxError::SensitivePayload)
    } else {
        None
    }
}

/// The envelope of an input, given the digests of its payload and of its request.
pub open spec fn input_envelope(
    input: ArchiveEvidenceInput,
    payload_sum: Seq<char>,
    request: Seq<char>,
) -> EnvelopeView {
    EnvelopeView {
        schema: ARCHIVE_INGEST_SCHEMA@,
        tenant_id: input.tenant_id@,
        workspace_id: input.workspace_id@,
        tool_name: input.tool_name@,
        request_id: input.request_id@,
        idempotency_key: input.context.idempotency_key@,
        payload: payload_tree(input),
        payload_sha256: payload_sum,
        occurred_at_ms: input.occurred_at_ms as int,
        request_digest_sha256: request,
    }
}

/// The outcome of making an envelope of an input.
pub open spec fn envelope_of(input: ArchiveEvidenceInput) -> Result<EnvelopeView, ArchiveOutboxError> {
    match input_fault(input) {
        Some(error) => Err(error),
        None => match canonical_form(payload_tree(input)) {
            None => Err(ArchiveOutboxError::InvalidEnvelope),
            Some((len, sum)) => if len > MAX_EVIDENCE_BYTES {
                Err(ArchiveOutboxError::PayloadTooLarge)
            } else {
                match request_sum(input_envelope(input, sum, Seq::empty())) {
                    None => Err(ArchiveOutboxError::InvalidEnvelope),
                    Some(request) => match envelope_integrity(input_envelope(input, sum, request)) {
                        Ok(_) => Ok(input_envelope(input, sum, request)),
                        Err(error) => Err(error),
                    },
                }
            },
        },
    }
}

/// Finds why an input is refused before anything is computed of it.
pub fn check_input(input: &ArchiveEvidenceInput) -> (r: Option<ArchiveOutboxError>)
    ensures
        r == input_fault(*input),
{
    if blank(input.request_id.as_str()) {
        return Some(ArchiveOutboxError::RequestIdRequired);
    }
    if blank(input.source.as_str()) {
        return Some(ArchiveOutboxError::SourceRequired);
    }
    if blank(input.aggregate_id.as_str()) {
        return Some(ArchiveOutboxError::AggregateIdRequired);
    }
    if !is_safe_identifier(input.tenant_id.as_str()) || !is_safe_identifier(
        input.workspace_id.as_str(),
    ) || !is_safe_identifier(input.tool_name.as_str()) || !is_safe_identifier(
        input.request_id.as_str(),
    ) || !is_safe_identifier(input.source.as_str()) || !is_safe_identifier(
        input.aggregate_id.as_str(),
    ) || !is_safe_identifier(input.context.idempotency_key.as_str()) {
        return Some(ArchiveOutboxError::InvalidIdentifier);
    }
    if input.occurred_at_ms <= 0 {
        return Some(ArchiveOutboxError::InvalidOccurredAt);
    }
    if !is_object(&input.payload) {
        return Some(ArchiveOutboxError::InvalidPayload);
    }
    if contains_sensitive_key(&input.payload) {
        return Some(ArchiveOutboxError::SensitivePayload);
    }
    None
}

/// Makes the envelope of an input.
pub fn envelope_from_input(input: &ArchiveEvidenceInput) -> (r: Result<
    ArchiveEvidenceEnvelope,
    ArchiveOutboxError,
>)
    ensures
        match (r, envelope_of(*input)) {
            (Ok(envelope), Ok(shown)) => envelope@ == shown,
            (Err(e), Err(error)) => e == error,
            _ => false,
        },
{
    if let Some(error) = check_input(input) {
        return Err(error);
    }
    let payload = Json::object(
        JsonMap::new().with("schema", Json::text(ARCHIVE_EVIDENCE_SCHEMA)).with(
            "kind",
            Json::text(input.evidence_kind.as_str()),
        ).with("source", Json::text(input.source.as_str())).with(
            "aggregateId",
            Json::text(input.aggregate_id.as_str()),
        ).with("authorityContext", input.authority.copy()).with("redacted", Json::Bool(true)).with(
            "evidence",
            input.payload.copy(),
        ),
    );
    let form = match canonical_form_of(&payload) {
        Some(f) => f,
        None => {
            return Err(ArchiveOutboxError::InvalidEnvelope);
        },
    };
    if form.len > MAX_EVIDENCE_BYTES {
        return Err(ArchiveOutboxError::PayloadTooLarge);
    }
    let mut envelope = ArchiveEvidenceEnvelope {
        schema: ARCHIVE_INGEST_SCHEMA.to_owned(),
        tenant_id: input.tenant_id.clone(),
        workspace_id: input.workspace_id.clone(),
        tool_name: input.tool_name.clone(),
        request_id: input.request_id.clone(),
        idempotency_key: input.context.idempotency_key.clone(),
        payload,
        payload_sha256: form.sum,
        occurred_at_ms: input.occurred_at_ms,
        request_digest_sha256: String::new(),
    };
    proof {
        assert(envelope@ == input_envelope(*input, form.sum@, Seq::empty()));
    }
    match request_digest(&envelope) {
        Some(sum) => {
            envelope.request_digest_sha256 = sum;
        },
        None => {
            return Err(ArchiveOutboxError::InvalidEnvelope);
        },
    }
    match envelope.verify_integrity() {
        Ok(_) => Ok(envelope),
        Err(e) => Err(e),
    }
}

/// Reads an envelope out of storage: it must be there and be intact.
pub fn decode_envelope(stored: Stored<ArchiveEvidenceEnvelope>) -> (r: Result<
    ArchiveEvidenceEnvelope,
    ArchiveOutboxError,
>)
    ensures
        match stored {
            Stored::Present(envelope) => match envelope_integrity(envelope@) {
                Ok(_) => r == Ok::<ArchiveEvidenceEnvelope, ArchiveOutboxError>(envelope),
                Err(error) => r == Err::<ArchiveEvidenceEnvelope, ArchiveOutboxError>(error),
            },
            _ => r == Err::<ArchiveEvidenceEnvelope, ArchiveOutboxError>(
                ArchiveOutboxError::StorageInconsistent,
            ),
        },
{
    match stored {
        Stored::Present(envelope) => match envelope.verify_integrity() {
            Ok(_) => Ok(envelope),
            Err(e) => Err(e),
        },
        _ => Err(ArchiveOutboxError::StorageInconsistent),
    }
}

/// The record that ties an idempotency key to a request.
pub open spec fn mapping_tree(e: EnvelopeView) -> JsonTree {
    JsonTree::Object(
        map![
            "schema"@ => JsonTree::Text(ARCHIVE_INGEST_SCHEMA@),
            "requestId"@ => JsonTree::Text(e.request_id),
            "requestDigestSha256"@ => JsonTree::Text(e.request_digest_sha256)
        ],
    )
}

/// The record that ties an idempotency key to a request.
pub fn idempotency_mapping(envelope: &ArchiveEvidenceEnvelope) -> (r: Json)
    ensures
        r@ == mapping_tree(envelope@),
{
    Json::object(
        JsonMap::new().with("schema", Json::text(ARCHIVE_INGEST_SCHEMA)).with(
            "requestId",
            Json::text(envelope.request_id.as_str()),
        ).with("requestDigestSha256", Json::text(envelope.request_digest_sha256.as_str())),
    )
}

/// An envelope that is made of an input is intact: what is kept can be sent.
pub proof fn made_envelope_is_intact(input: ArchiveEvidenceInput)
    requires
        envelope_of(input) is Ok,
    ensures
        envelope_integrity(envelope_of(input)->Ok_0) is Ok,
{
}

/// An intact envelope holds no sensitive key, at any depth.
pub proof fn intact_envelope_is_free_of_secrets(e: EnvelopeView)
    requires
        envelope_integrity(e) is Ok,
    ensures
        !holds_sensitive_key(e.payload),
{
}

/// An intact envelope makes an intact request.
pub proof fn intact_envelope_makes_intact_request(e: EnvelopeView)
    requires
        envelope_integrity(e) is Ok,
    ensures
        request_sum((EnvelopeView { request_digest_sha256: Seq::empty(), ..e })) == Some(
            e.request_digest_sha256,
        ),
        envelope_integrity(
            (EnvelopeView {
                request_digest_sha256: e.request_digest_sha256,
                ..(EnvelopeView { request_digest_sha256: Seq::empty(), ..e })
            }),
        ) is Ok,
{
    let bare = EnvelopeView { request_digest_sha256: Seq::empty(), ..e };
    assert(request_tuple(bare) == request_tuple(e));
    assert((EnvelopeView { request_digest_sha256: e.request_digest_sha256, ..bare }) == e);
}

/// Errors are told apart by their codes, and every code says that it is the outbox's.
pub proof fn codes_tell_errors_apart(a: ArchiveOutboxError, b: ArchiveOutboxError)
    ensures
        error_code(a) == error_code(b) <==> a == b,
        error_code(a).take(8) == "archive_"@,
{
    reveal_strlit("archive_");
    reveal_strlit("archive_request_id_required");
    reveal_strlit("archive_evidence_source_required");
    reveal_strlit("archive_evidence_aggregate_id_required");
    reveal_strlit("archive_evidence_identifier_invalid");
    reveal_strlit("archive_evidence_occurred_at_invalid");
    reveal_strlit("archive_evidence_payload_invalid");
    reveal_strlit("archive_evidence_sensitive_payload");
    reveal_strlit("archive_evidence_payload_too_large");
    reveal_strlit("archive_evidence_envelope_invalid");
    reveal_strlit("archive_evidence_integrity_mismatch");
    reveal_strlit("archive_evidence_idempotency_conflict");
    reveal_strlit("archive_request_id_conflict");
    reveal_strlit("archive_evidence_storage_unavailable");
    reveal_strlit("archive_evidence_storage_inconsistent");
    reveal_strlit("archive_evidence_sync_owner_invalid");
    reveal_strlit("archive_evidence_limit_invalid");
    assert("archive_request_id_required"@.len() == 27 && "archive_request_id_required"@[17] == 'd'
        && "archive_request_id_required"@[18] == '_' && "archive_request_id_required"@[19] == 'r');
    assert("archive_evidence_source_required"@.len() == 32 && "archive_evidence_source_required"@[17] == 's'
        && "archive_evidence_source_required"@[18] == 'o' && "archive_evidence_source_required"@[19] == 'u');
    assert("archive_evidence_aggregate_id_required"@.len() == 38 && "archive_evidence_aggregate_id_required"@[17] == 'a'
        && "archive_evidence_aggregate_id_required"@[18] == 'g' && "archive_evidence_aggregate_id_required"@[19] == 'g');
    assert("archive_evidence_identifier_invalid"@.len() == 35 && "archive_evidence_identifier_invalid"@[17] == 'i'
        && "archive_evidence_identifier_invalid"@[18] == 'd' && "archive_evidence_identifier_invalid"@[19] == 'e');
    assert("archive_evidence_occurred_at_invalid"@.len() == 36 && "archive_evidence_occurred_at_invalid"@[17] == 'o'
        && "archive_evidence_occurred_at_invalid"@[18] == 'c' && "archive_evidence_occurred_at_invalid"@[19] == 'c');
    assert("archive_evidence_payload_invalid"@.len() == 32 && "archive_evidence_payload_invalid"@[17] == 'p'
        && "archive_evidence_payload_invalid"@[18] == 'a' && "archive_evidence_payload_invalid"@[19] == 'y');
    assert("archive_evidence_sensitive_payload"@.len() == 34 && "archive_evidence_sensitive_payload"@[17] == 's'
        && "archive_evidence_sensitive_payload"@[18] == 'e' && "archive_evidence_sensitive_payload"@[19] == 'n');
    assert("archive_evidence_payload_too_large"@.len() == 34 && "archive_evidence_payload_too_large"@[17] == 'p'
        && "archive_evidence_payload_too_large"@[18] == 'a' && "archive_evidence_payload_too_large"@[19] == 'y');
    assert("archive_evidence_envelope_invalid"@.len() == 33 && "archive_evidence_envelope_invalid"@[17] == 'e'
        && "archive_evidence_envelope_invalid"@[18] == 'n' && "archive_evidence_envelope_invalid"@[19] == 'v');
    assert("archive_evidence_integrity_mismatch"@.len() == 35 && "archive_evidence_integrity_mismatch"@[17] == 'i'
        && "archive_evidence_integrity_mismatch"@[18] == 'n' && "archive_evidence_integrity_mismatch"@[19] == 't');
    assert("archive_evidence_idempotency_conflict"@.len() == 37 && "archive_evidence_idempotency_conflict"@[17] == 'i'
        && "archive_evidence_idempotency_conflict"@[18] == 'd' && "archive_evidence_idempotency_conflict"@[19] == 'e');
    assert("archive_request_id_conflict"@.len() == 27 && "archive_request_id_conflict"@[17] == 'd'
        && "archive_request_id_conflict"@[18] == '_' && "archive_request_id_conflict"@[19] == 'c');
    assert("archive_evidence_storage_unavailable"@.len() == 36 && "archive_evidence_storage_unavailable"@[17] == 's'
        && "archive_evidence_storage_unavailable"@[18] == 't' && "archive_evidence_storage_unavailable"@[19] == 'o');
    assert("archive_evidence_storage_inconsistent"@.len() == 37 && "archive_evidence_storage_inconsistent"@[17] == 's'
        && "archive_evidence_storage_inconsistent"@[18] == 't' && "archive_evidence_storage_inconsistent"@[19] == 'o');
    assert("archive_evidence_sync_owner_invalid"@.len() == 35 && "archive_evidence_sync_owner_invalid"@[17] == 's'
        && "archive_evidence_sync_owner_invalid"@[18] == 'y' && "archive_evidence_sync_owner_invalid"@[19] == 'n');
    assert("archive_evidence_limit_invalid"@.len() == 30 && "archive_evidence_limit_invalid"@[17] == 'l'
        && "archive_evidence_limit_invalid"@[18] == 'i' && "archive_evidence_limit_invalid"@[19] == 'm');
    assert("archive_request_id_required"@.take(8) =~= "archive_"@);
    assert("archive_evidence_source_required"@.take(8) =~= "archive_"@);
    assert("archive_evidence_aggregate_id_required"@.take(8) =~= "archive_"@);
    assert("archive_evidence_identifier_invalid"@.take(8) =~= "archive_"@);
    assert("archive_evidence_occurred_at_invalid"@.take(8) =~= "archive_"@);
    assert("archive_evidence_payload_invalid"@.take(8) =~= "archive_"@);
    assert("archive_evidence_sensitive_payload"@.take(8) =~= "archive_"@);
    assert("archive_evidence_payload_too_large"@.take(8) =~= "archive_"@);
    assert("archive_evidence_envelope_invalid"@.take(8) =~= "archive_"@);
    assert("archive_evidence_integrity_mismatch"@.take(8) =~= "archive_"@);
    assert("archive_evidence_idempotency_conflict"@.take(8) =~= "archive_"@);
    assert("archive_request_id_conflict"@.take(8) =~= "archive_"@);
    assert("archive_evidence_storage_unavailable"@.take(8) =~= "archive_"@);
    assert("archive_evidence_storage_inconsistent"@.take(8) =~= "archive_"@);
    assert("archive_evidence_sync_owner_invalid"@.take(8) =~= "archive_"@);
    assert("archive_evidence_limit_invalid"@.take(8) =~= "archive_"@);
}

} // verus!

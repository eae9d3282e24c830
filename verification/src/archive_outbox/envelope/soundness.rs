//! Which evidence may leave: when an input is refused, which keys give it away, and when an
//! envelope is intact.

use vstd::prelude::*;

use crate::archive_outbox::envelope;
use crate::archive_outbox::envelope::{ArchiveEvidenceInput, ArchiveOutboxError, EnvelopeView};
use crate::json::JsonTree;
use crate::text;

verus! {

/// Whether a text can name something: of one to a hundred and sixty letters, digits, dots,
/// underscores, hyphens and colons.
pub open spec fn is_name(s: Seq<char>) -> bool {
    &&& 0 < s.len() <= 160
    &&& forall|i: int|
        0 <= i < s.len() ==> text::is_alphanumeric(#[trigger] s[i]) || s[i] == '.' || s[i] == '_'
            || s[i] == '-' || s[i] == ':'
}

proof fn names_are_safe(s: Seq<char>)
    ensures
        envelope::identifier_is_safe(s) <==> is_name(s),
{
    if is_name(s) {
        assert forall|i: int| 0 <= i < s.len() implies envelope::identifier_char(#[trigger] s[i]) by {}
    }
    if envelope::identifier_is_safe(s) {
        assert forall|i: int| 0 <= i < s.len() implies text::is_alphanumeric(#[trigger] s[i]) || s[i]
            == '.' || s[i] == '_' || s[i] == '-' || s[i] == ':' by {
            assert(envelope::identifier_char(s[i]));
        }
    }
}

/// An input is taken only where all that it names can name something, it has a time, and its
/// payload is an object without a key that gives a secret away.
pub proof fn taken_input_is_in_order(input: ArchiveEvidenceInput)
    ensures
        envelope::input_fault(input) is None <==> {
            &&& !text::is_blank(input.request_id@)
            &&& !text::is_blank(input.source@)
            &&& !text::is_blank(input.aggregate_id@)
            &&& is_name(input.tenant_id@)
            &&& is_name(input.workspace_id@)
            &&& is_name(input.tool_name@)
            &&& is_name(input.request_id@)
            &&& is_name(input.source@)
            &&& is_name(input.aggregate_id@)
            &&& is_name(input.context.idempotency_key@)
            &&& input.occurred_at_ms > 0
            &&& input.payload@ is Object
            &&& !envelope::holds_sensitive_key(input.payload@)
        },
        envelope::envelope_of(input) is Ok ==> envelope::input_fault(input) is None,
{
    names_are_safe(input.tenant_id@);
    names_are_safe(input.workspace_id@);
    names_are_safe(input.tool_name@);
    names_are_safe(input.request_id@);
    names_are_safe(input.source@);
    names_are_safe(input.aggregate_id@);
    names_are_safe(input.context.idempotency_key@);
}

/// A refusal says what is wrong first: a name that is missing, a name that cannot be one, the
/// time, the payload, a secret.
pub proof fn refusal_says_what_is_wrong(input: ArchiveEvidenceInput)
    requires
        is_name(input.tenant_id@),
        is_name(input.workspace_id@),
        is_name(input.tool_name@),
        is_name(input.request_id@),
        is_name(input.source@),
        is_name(input.aggregate_id@),
        is_name(input.context.idempotency_key@),
        !text::is_blank(input.request_id@),
        !text::is_blank(input.source@),
        !text::is_blank(input.aggregate_id@),
    ensures
        input.occurred_at_ms <= 0 ==> envelope::input_fault(input) == Some(
            ArchiveOutboxError::InvalidOccurredAt,
        ),
        input.occurred_at_ms > 0 && !(input.payload@ is Object) ==> envelope::input_fault(input)
            == Some(ArchiveOutboxError::InvalidPayload),
        input.occurred_at_ms > 0 && input.payload@ is Object && envelope::holds_sensitive_key(
            input.payload@,
        ) ==> envelope::input_fault(input) == Some(ArchiveOutboxError::SensitivePayload),
{
    names_are_safe(input.tenant_id@);
    names_are_safe(input.workspace_id@);
    names_are_safe(input.tool_name@);
    names_are_safe(input.request_id@);
    names_are_safe(input.source@);
    names_are_safe(input.aggregate_id@);
    names_are_safe(input.context.idempotency_key@);
}

/// A key is compared by its letters and digits in small letters, one after the other.
pub proof fn key_is_compared_by_its_letters(key: Seq<char>, c: char)
    ensures
        envelope::normalized(Seq::<char>::empty()).len() == 0,
        text::is_alphanumeric(c) ==> envelope::normalized(key.push(c)) == envelope::normalized(
            key,
        ).push(text::lower(c)),
        !text::is_alphanumeric(c) ==> envelope::normalized(key.push(c)) == envelope::normalized(
            key,
        ),
{
    assert(key.push(c).drop_last() =~= key);
    assert(key.push(c).last() == c);
}

/// A key gives a secret away if and only if it speaks of a token, a secret, a password, an
/// authorization, a credential, a private key or an API key.
pub proof fn key_that_speaks_of_a_secret_is_found(key: Seq<char>)
    ensures
        ({
            let said = envelope::normalized(key);
            envelope::key_is_sensitive(key) <==> {
                ||| text::occurs(said, "token"@)
                ||| text::occurs(said, "secret"@)
                ||| text::occurs(said, "password"@)
                ||| text::occurs(said, "authorization"@)
                ||| text::occurs(said, "credential"@)
                ||| text::occurs(said, "privatekey"@)
                ||| text::occurs(said, "apikey"@)
                ||| text::occurs(said, "authorizationcode"@)
            }
        }),
{
    let needles = envelope::sensitive_needles();
    assert(needles.len() == 8);
    assert(needles[0] == "token"@);
    assert(needles[1] == "secret"@);
    assert(needles[2] == "password"@);
    assert(needles[3] == "authorization"@);
    assert(needles[4] == "credential"@);
    assert(needles[5] == "privatekey"@);
    assert(needles[6] == "apikey"@);
    assert(needles[7] == "authorizationcode"@);
}

/// A secret is found wherever its key stands: in an object, and inside what an object or a
/// list holds; plain values hold none.
pub proof fn secret_is_found_at_any_depth(
    map: Map<Seq<char>, JsonTree>,
    key: Seq<char>,
    items: Seq<JsonTree>,
    i: int,
    plain: JsonTree,
)
    ensures
        map.dom().contains(key) && envelope::key_is_sensitive(key)
            ==> envelope::holds_sensitive_key(JsonTree::Object(map)),
        map.dom().contains(key) && envelope::holds_sensitive_key(map[key])
            ==> envelope::holds_sensitive_key(JsonTree::Object(map)),
        0 <= i < items.len() && envelope::holds_sensitive_key(items[i])
            ==> envelope::holds_sensitive_key(JsonTree::Array(items)),
        !(plain is Object) && !(plain is Array) ==> !envelope::holds_sensitive_key(plain),
{
    if map.dom().contains(key) && (envelope::key_is_sensitive(key) || envelope::holds_sensitive_key(
        map[key],
    )) {
        super::sensitive_entry(JsonTree::Object(map), map, key);
    }
    if 0 <= i < items.len() && envelope::holds_sensitive_key(items[i]) {
        super::sensitive_item(JsonTree::Array(items), items, i);
    }
}

/// An envelope is intact if and only if it is of its schema, has a time, names what can be
/// named, holds an object without a secret that is not too long, and its two digests are
/// those of its payload and of its request.
pub proof fn envelope_is_intact_when_its_digests_agree(
    e: EnvelopeView,
    len: nat,
    sum: Seq<char>,
    request: Seq<char>,
)
    ensures
        envelope::integrity(e, Some((len, sum)), Some(request)) is Ok <==> {
            &&& e.schema == envelope::ARCHIVE_INGEST_SCHEMA@
            &&& e.occurred_at_ms > 0
            &&& e.payload is Object
            &&& !envelope::holds_sensitive_key(e.payload)
            &&& envelope::is_sha256(e.payload_sha256)
            &&& envelope::is_sha256(e.request_digest_sha256)
            &&& is_name(e.tenant_id)
            &&& is_name(e.workspace_id)
            &&& is_name(e.tool_name)
            &&& is_name(e.request_id)
            &&& is_name(e.idempotency_key)
            &&& len <= 65_536
            &&& e.payload_sha256 == sum
            &&& e.request_digest_sha256 == request
        },
        envelope::integrity(e, None, Some(request)) is Err,
        envelope::integrity(e, Some((len, sum)), None) is Err,
{
    names_are_safe(e.tenant_id);
    names_are_safe(e.workspace_id);
    names_are_safe(e.tool_name);
    names_are_safe(e.request_id);
    names_are_safe(e.idempotency_key);
}

/// The digest of a request is over its schema, its tenant, its workspace, its tool, its name,
/// the digest of its payload and its time.
pub proof fn request_digest_is_over_the_request(e: EnvelopeView)
    ensures
        envelope::request_tuple(e) matches JsonTree::Array(parts) && parts.len() == 7 && parts[0]
            == JsonTree::Text(e.schema) && parts[1] == JsonTree::Text(e.tenant_id) && parts[2]
            == JsonTree::Text(e.workspace_id) && parts[3] == JsonTree::Text(e.tool_name) && parts[4]
            == JsonTree::Text(e.request_id) && parts[5] == JsonTree::Text(e.payload_sha256)
            && parts[6] == JsonTree::Int(e.occurred_at_ms),
{
}

/// A digest is spelled with sixty-four digits of the base sixteen in small letters.
pub proof fn digest_is_spelled_in_small_letters(s: Seq<char>)
    ensures
        envelope::is_sha256(s) <==> s.len() == 64 && forall|i: int|
            0 <= i < s.len() ==> ('0' <= #[trigger] s[i] <= '9') || ('a' <= s[i] <= 'f'),
{
}

/// A code of a transport is kept where it is short and plain, and is replaced by the general
/// one otherwise.
pub proof fn code_is_kept_where_it_is_plain(s: Seq<char>)
    ensures
        (0 < s.len() <= 96 && forall|i: int|
            0 <= i < s.len() ==> ('a' <= #[trigger] s[i] <= 'z') || ('0' <= s[i] <= '9') || s[i]
                == '_' || s[i] == '-') ==> envelope::safe_code(s) == s,
        !(0 < s.len() <= 96 && forall|i: int|
            0 <= i < s.len() ==> ('a' <= #[trigger] s[i] <= 'z') || ('0' <= s[i] <= '9') || s[i]
                == '_' || s[i] == '-') ==> envelope::safe_code(s) == "archive_transport_failed"@,
{
    assert(envelope::code_is_safe(s) <==> (0 < s.len() <= 96 && forall|i: int|
        0 <= i < s.len() ==> ('a' <= #[trigger] s[i] <= 'z') || ('0' <= s[i] <= '9') || s[i] == '_'
            || s[i] == '-'));
}

} // verus!

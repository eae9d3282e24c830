//! Who may do what: sessions, policy, credentials and providers.

pub mod rules;

use vstd::prelude::*;

use crate::auth::authz;
use crate::auth::authz::{authorize_local_owner, AuthzActor, AuthzRequest, AuthzTarget};
use crate::json;
use crate::json::{parse_json, parse_texts, value_text, Json, JsonMap, JsonTree};
use crate::text;
use crate::text::{
    blank, char_is_alphanumeric, char_to_upper, chars_of, contains, join3, listed, same,
};
use crate::text_map::TextMap;

use crate::adapters::studio_identity::IdentityClaims;

verus! {

/// Whether claims come from the issuer and are meant for the audience.
pub open spec fn claims_belong(claims: IdentityClaims, issuer: Seq<char>, audience: Seq<char>) -> bool {
    claims.issuer@ == issuer && text::texts(claims.audience@).contains(audience)
}

/// Checks claims before their session is stored.
pub fn check_verified_session(claims: &IdentityClaims, issuer: &str, audience: &str) -> (r: Result<
    (),
    String,
>)
    ensures
        match r {
            Ok(_) => claims_belong(*claims, issuer@, audience@),
            Err(e) => !claims_belong(*claims, issuer@, audience@) && e@
                == "verified OIDC claims do not match configured issuer and audience"@,
        },
{
    if !same(claims.issuer.as_str(), issuer) || !listed(&claims.audience, audience) {
        Err("verified OIDC claims do not match configured issuer and audience".to_owned())
    } else {
        Ok(())
    }
}

/// Checks the claims of a stored session before it counts.
pub fn resolve_session(
    claims: Option<IdentityClaims>,
    issuer: &str,
    audience: &str,
    now_ms: i64,
) -> (r: Result<IdentityClaims, String>)
    ensures
        match claims {
            None => r matches Err(e) && e@ == "OIDC session is unavailable"@,
            Some(c) => if claims_belong(c, issuer@, audience@) && c.expires_at_ms > now_ms {
                r == Ok::<IdentityClaims, String>(c)
            } else {
                r matches Err(e) && e@
                    == "OIDC session is expired or does not match configured authority"@
            },
        },
{
    match claims {
        None => Err("OIDC session is unavailable".to_owned()),
        Some(c) => if !same(c.issuer.as_str(), issuer) || !listed(&c.audience, audience)
            || c.expires_at_ms <= now_ms {
            Err("OIDC session is expired or does not match configured authority".to_owned())
        } else {
            Ok(c)
        },
    }
}

/// A session as it is stored.
#[derive(Debug)]
pub struct StoredSession {
    pub issuer: String,
    pub subject: String,
    /// The audience, as a JSON text.
    pub audience_json: String,
    pub assurance: Option<String>,
    pub expires_at_ms: i64,
}

/// Whether claims are those of a stored session, with an audience.
pub open spec fn claims_of(c: IdentityClaims, stored: StoredSession, audience: Seq<Seq<char>>) -> bool {
    c.issuer == stored.issuer && c.subject == stored.subject && c.assurance == stored.assurance
        && c.expires_at_ms == stored.expires_at_ms && text::texts(c.audience@) == audience
}

/// Whether a session is resolved out of what is stored of it: its audience has to be a list
/// of texts, and the session to be in force and of the configured authority.
pub open spec fn resolves_to(
    stored: Option<StoredSession>,
    issuer: Seq<char>,
    audience: Seq<char>,
    now_ms: int,
    r: Result<IdentityClaims, String>,
) -> bool {
    match stored {
        None => r matches Err(e) && e@ == "OIDC session is unavailable"@,
        Some(s) => match json::json_texts_of(s.audience_json@) {
            Err(message) => r matches Err(e) && e@ == message,
            Ok(meant) => if s.issuer@ == issuer && meant.contains(audience) && s.expires_at_ms
                > now_ms {
                r matches Ok(c) && claims_of(c, s, meant)
            } else {
                r matches Err(e) && e@
                    == "OIDC session is expired or does not match configured authority"@
            },
        },
    }
}

/// Whether the list that a text was written from is the one that it is read as.
pub open spec fn list_reads_back(written: Seq<char>) -> bool {
    forall|list: Seq<Seq<char>>|
        written == #[trigger] json::json_text_of(json::text_array(list)) ==> json::json_texts_of(
            written,
        ) == Ok::<Seq<Seq<char>>, Seq<char>>(list)
}

/// Resolves a session out of what is stored of it.
pub fn resolve_stored_session(
    stored: Option<StoredSession>,
    issuer: &str,
    audience: &str,
    now_ms: i64,
) -> (r: Result<IdentityClaims, String>)
    ensures
        resolves_to(stored, issuer@, audience@, now_ms as int, r),
        stored matches Some(s) ==> list_reads_back(s.audience_json@),
{
    let claims: Option<IdentityClaims> = match stored {
        None => None,
        Some(s) => match parse_texts(s.audience_json.as_str()) {
            Err(message) => {
                return Err(message);
            },
            Ok(meant) => Some(
                IdentityClaims {
                    issuer: s.issuer,
                    subject: s.subject,
                    audience: meant,
                    assurance: s.assurance,
                    expires_at_ms: s.expires_at_ms,
                },
            ),
        },
    };
    resolve_session(claims, issuer, audience, now_ms)
}

/// The text as which the audience of claims is stored.
pub fn audience_text(claims: &IdentityClaims) -> (r: String)
    ensures
        r@ == json::json_text_of(json::text_array(text::texts(claims.audience@))),
{
    value_text(&Json::texts(&claims.audience))
}

/// A session that was stored is resolved as it was, by the authority that it belongs to and
/// until it expires.
pub proof fn stored_session_is_read_back(
    claims: IdentityClaims,
    stored: StoredSession,
    issuer: Seq<char>,
    audience: Seq<char>,
    now_ms: int,
    r: Result<IdentityClaims, String>,
)
    requires
        claims_belong(claims, issuer, audience),
        claims.expires_at_ms > now_ms,
        stored.issuer@ == claims.issuer@,
        stored.subject@ == claims.subject@,
        stored.assurance == claims.assurance,
        stored.expires_at_ms == claims.expires_at_ms,
        stored.audience_json@ == json::json_text_of(
            json::text_array(text::texts(claims.audience@)),
        ),
        resolves_to(Some(stored), issuer, audience, now_ms, r),
        list_reads_back(stored.audience_json@),
    ensures
        r matches Ok(c) && c.issuer@ == claims.issuer@ && c.subject@ == claims.subject@
            && c.assurance == claims.assurance && c.expires_at_ms == claims.expires_at_ms
            && text::texts(c.audience@) == text::texts(claims.audience@),
{
}

/// What is asked of a policy.
#[derive(Debug)]
pub struct PolicyRequest {
    pub actor: String,
    pub action: String,
    pub resource: String,
    pub purpose: Json,
    pub context: Json,
}

/// What a policy says.
#[derive(Debug)]
pub struct PolicyDecision {
    pub decision: String,
    pub policy_version: String,
    pub explanation: Vec<String>,
    pub constraints: Json,
}

/// Who asks.
pub open spec fn owner_named(actor: Seq<char>) -> authz::ActorView {
    authz::ActorView { principal_id: actor, ..authz::local_owner() }
}

/// Whether a decision is the one on a request: what a local owner may do, an actor may.
pub open spec fn decision_is_on(d: PolicyDecision, request: PolicyRequest) -> bool {
    let owned = authz::owner_decision(request.action@, owner_named(request.actor@));
    &&& d.decision@ == (if owned.allowed {
        "allow"@
    } else {
        "deny"@
    })
    &&& d.policy_version@ == "tradeassembly.self-hosted-owner.v1"@
    &&& text::texts(d.explanation@) == seq![owned.reason]
    &&& d.constraints@ == JsonTree::Object(map!["purpose"@ => request.purpose@])
}

/// Decides on a request.
pub fn evaluate_policy(request: &PolicyRequest) -> (r: PolicyDecision)
    ensures
        decision_is_on(r, *request),
{
    let mut actor = AuthzActor::default();
    actor.principal_id = request.actor.clone();
    let attributes: JsonMap = match request.context.copy() {
        Json::Object(map) => map,
        _ => JsonMap::new(),
    };
    let target = AuthzTarget {
        resource_type: Some(request.resource.clone()),
        resource_id: None,
        account_id: None,
        owner_id: None,
    };
    let asked = AuthzRequest {
        capability: request.action.clone(),
        actor,
        target: Some(target),
        attributes,
    };
    proof {
        assert(asked.actor@ =~= owner_named(request.actor@));
        assert(asked.actor@.explicit_capabilities.len() == 0);
    }
    let owned = authorize_local_owner(&asked);
    let decision: &str = if owned.allowed {
        "allow"
    } else {
        "deny"
    };
    let explanation: Vec<String> = vec![owned.reason];
    assert(text::texts(explanation@) =~= seq![owned.reason@]);
    PolicyDecision {
        decision: decision.to_owned(),
        policy_version: "tradeassembly.self-hosted-owner.v1".to_owned(),
        explanation,
        constraints: Json::object(JsonMap::new().with("purpose", request.purpose.copy())),
    }
}

/// A name as a part of the name of a setting.
pub open spec fn setting_part(name: Seq<char>) -> Seq<char> {
    name.map_values(
        |c: char|
            if text::is_alphanumeric(c) {
                text::upper(c)
            } else {
                '_'
            },
    )
}

/// The setting that says where the credential of a provider is.
pub open spec fn credential_setting(provider_ref: Seq<char>) -> Seq<char> {
    "TRADEASSEMBLY_"@ + setting_part(provider_ref) + "_CREDENTIAL_REF"@
}

/// Names the setting that says where the credential of a provider is.
pub fn credential_setting_name(provider_ref: &str) -> (r: String)
    ensures
        r@ == credential_setting(provider_ref@),
{
    let chars = chars_of(provider_ref);
    let ghost shown = setting_part(provider_ref@);
    let mut part: String = String::new();
    let mut i: usize = 0;
    assert(part@ =~= shown.take(0));
    while i < chars.len()
        invariant
            i <= chars.len(),
            chars@ == provider_ref@,
            shown == setting_part(provider_ref@),
            part@ == shown.take(i as int),
        decreases chars.len() - i,
    {
        let c: char = if char_is_alphanumeric(chars[i]) {
            char_to_upper(chars[i])
        } else {
            '_'
        };
        let ghost before = part@;
        part.push(c);
        proof {
            assert(shown[i as int] == c);
            assert(shown.take(i + 1) =~= before.push(c));
        }
        i += 1;
    }
    assert(shown.take(shown.len() as int) =~= shown);
    join3("TRADEASSEMBLY_", part.as_str(), "_CREDENTIAL_REF")
}

/// Which credential a value says it is.
pub open spec fn stored_ref(tree: JsonTree, asked: Seq<char>) -> Seq<char> {
    let named = match json::member(tree, "credential_ref"@) {
        Some(t) => Some(t),
        None => json::member(tree, "provider_ref"@),
    };
    match named {
        Some(JsonTree::Text(t)) => t,
        _ => asked,
    }
}

fn stored_reference(value: &Json, asked: &str) -> (r: String)
    ensures
        r@ == stored_ref(value@, asked@),
{
    let named: Option<&Json> = match value.field("credential_ref") {
        Some(v) => Some(v),
        None => value.field("provider_ref"),
    };
    match named {
        Some(Json::Text(t)) => t.clone(),
        _ => asked.to_owned(),
    }
}

/// Whether every member is a text.
pub open spec fn all_texts(map: Map<Seq<char>, JsonTree>) -> bool {
    forall|k: Seq<char>| #[trigger] map.dom().contains(k) ==> map[k] is Text
}

/// The members of an object that holds texts.
pub open spec fn text_fields(map: Map<Seq<char>, JsonTree>) -> Map<Seq<char>, Seq<char>> {
    map.map_values(|t: JsonTree| t->Text_0)
}

/// The fields that a flat value has.
pub open spec fn flat_fields(tree: JsonTree) -> Map<Seq<char>, Seq<char>> {
    with_field(
        tree,
        "base_url"@,
        with_field(tree, "api_secret"@, with_field(tree, "api_key"@, Map::empty())),
    )
}

/// Some fields, and a further one where the value has it.
pub open spec fn with_field(
    tree: JsonTree,
    key: Seq<char>,
    fields: Map<Seq<char>, Seq<char>>,
) -> Map<Seq<char>, Seq<char>> {
    match json::text_member(tree, key) {
        Some(t) => fields.insert(key, t),
        None => fields,
    }
}

/// Whether fields are complete: there are some, and each of them says something.
pub open spec fn fields_are_complete(fields: Map<Seq<char>, Seq<char>>) -> bool {
    fields.dom() != Set::<Seq<char>>::empty() && forall|k: Seq<char>| #[trigger]
        fields.dom().contains(k) ==> !text::is_blank(fields[k])
}

/// The fields of a credential, or why they do not count.
pub open spec fn credential_fields(tree: Option<JsonTree>, asked: Seq<char>) -> Result<
    Map<Seq<char>, Seq<char>>,
    Seq<char>,
> {
    match tree {
        None => Err("self-hosted credential payload is invalid"@),
        Some(value) => if stored_ref(value, asked) != asked {
            Err("self-hosted credential reference mismatch"@)
        } else {
            match json::member(value, "fields"@) {
                Some(JsonTree::Object(map)) => if !all_texts(map) {
                    Err("self-hosted credential field is invalid"@)
                } else if !fields_are_complete(text_fields(map)) {
                    Err("self-hosted credential payload is incomplete"@)
                } else {
                    Ok(text_fields(map))
                },
                _ => if !fields_are_complete(flat_fields(value)) {
                    Err("self-hosted credential payload is incomplete"@)
                } else {
                    Ok(flat_fields(value))
                },
            }
        },
    }
}

/// What the fields of a map say.
pub open spec fn field_texts(map: Map<Seq<char>, String>) -> Map<Seq<char>, Seq<char>> {
    map.map_values(|s: String| s@)
}

fn object_fields(map: &JsonMap) -> (r: Option<TextMap<String>>)
    ensures
        match r {
            Some(fields) => all_texts(map@) && field_texts(fields@) == text_fields(map@),
            None => !all_texts(map@),
        },
{
    let mut out: TextMap<String> = TextMap::new();
    let ghost shown = map.entries@;
    let mut i: usize = 0;
    while i < map.entries.len()
        invariant
            i <= map.entries@.len(),
            shown == map.entries@,
            forall|k: Seq<char>| #[trigger] out@.dom().contains(k) ==> map@.dom().contains(k)
                && map@[k] == JsonTree::Text(out@[k]@),
            forall|j: int| 0 <= j < i ==> out@.dom().contains((#[trigger] shown[j]).0@),
        decreases map.entries.len() - i,
    {
        let key: &str = map.entries[i].0.as_str();
        proof {
            json::entry_has_key(map.entries@, i as int);
        }
        match map.get(key) {
            Some(Json::Text(t)) => {
                out.insert(key, t.clone());
            },
            _ => {
                proof {
                    assert(map@.dom().contains(key@));
                    assert(!(map@[key@] is Text));
                }
                return None;
            },
        }
        i += 1;
    }
    proof {
        assert forall|k: Seq<char>| #[trigger] map@.dom().contains(k) implies out@.dom().contains(
            k,
        ) by {
            json::key_has_entry(map.entries@, k);
            let j = choose|j: int| 0 <= j < shown.len() && (#[trigger] shown[j]).0@ == k;
            assert(out@.dom().contains(shown[j].0@));
        }
        assert(field_texts(out@) =~= text_fields(map@));
    }
    Some(out)
}

fn put_field(fields: &mut TextMap<String>, value: &Json, key: &str)
    ensures
        field_texts(final(fields)@) == with_field(value@, key@, field_texts(old(fields)@)),
{
    let ghost before = field_texts(fields@);
    if let Some(t) = value.text_field(key) {
        let ghost said = t@;
        fields.insert(key, t);
        assert(field_texts(fields@) =~= before.insert(key@, said));
    }
}

fn complete(fields: &TextMap<String>) -> (r: bool)
    ensures
        r == fields_are_complete(field_texts(fields@)),
{
    let ghost shown = field_texts(fields@);
    let count: usize = fields.len();
    proof {
        assert(shown.dom() =~= fields@.dom());
    }
    if count == 0 {
        proof {
            assert forall|k: Seq<char>| !fields@.dom().contains(k) by {
                assert(!fields.order().contains(k));
            }
            assert(shown.dom() =~= Set::<Seq<char>>::empty());
        }
        return false;
    }
    proof {
        assert(fields.order().contains(fields.order()[0]));
        assert(fields@.dom().contains(fields.order()[0]));
    }
    let mut i: usize = 0;
    while i < count
        invariant
            i <= count,
            count == fields.order().len(),
            shown == field_texts(fields@),
            shown.dom() == fields@.dom(),
            forall|x: Seq<char>| fields.order().contains(x) <==> fields@.dom().contains(x),
            forall|j: int| 0 <= j < i ==> !text::is_blank(shown[#[trigger] fields.order()[j]]),
        decreases count - i,
    {
        let value = fields.value_at(i);
        if blank(value.as_str()) {
            proof {
                let k = fields.order()[i as int];
                assert(shown.dom().contains(k));
                assert(text::is_blank(shown[k]));
            }
            return false;
        }
        i += 1;
    }
    proof {
        assert forall|k: Seq<char>| #[trigger] shown.dom().contains(k) implies !text::is_blank(
            shown[k],
        ) by {
            assert(fields.order().contains(k));
            let j = choose|j: int| 0 <= j < fields.order().len() && fields.order()[j] == k;
            assert(!text::is_blank(shown[fields.order()[j]]));
        }
    }
    true
}

/// Reads the fields of a credential. `payload` is what its secret reads as.
pub fn resolve_fields(payload: &Option<Json>, credential_ref: &str) -> (r: Result<
    TextMap<String>,
    String,
>)
    ensures
        match (
            r,
            credential_fields(
                match *payload {
                    Some(v) => Some(v@),
                    None => None,
                },
                credential_ref@,
            ),
        ) {
            (Ok(fields), Ok(shown)) => field_texts(fields@) == shown,
            (Err(e), Err(message)) => e@ == message,
            _ => false,
        },
{
    let value: &Json = match payload {
        Some(value) => value,
        None => {
            return Err("self-hosted credential payload is invalid".to_owned());
        },
    };
    let stored = stored_reference(value, credential_ref);
    if !same(stored.as_str(), credential_ref) {
        return Err("self-hosted credential reference mismatch".to_owned());
    }
    let fields: TextMap<String> = match value.field("fields") {
        Some(Json::Object(map)) => match object_fields(map) {
            Some(fields) => fields,
            None => {
                return Err("self-hosted credential field is invalid".to_owned());
            },
        },
        _ => {
            let mut flat: TextMap<String> = TextMap::new();
            assert(field_texts(flat@) =~= Map::empty());
            put_field(&mut flat, value, "api_key");
            put_field(&mut flat, value, "api_secret");
            put_field(&mut flat, value, "base_url");
            flat
        },
    };
    if !complete(&fields) {
        return Err("self-hosted credential payload is incomplete".to_owned());
    }
    Ok(fields)
}

/// What the secret of a credential reads as, where it can be read.
pub open spec fn secret_payload(encoded: Seq<char>) -> Option<JsonTree> {
    match json::json_value_of(encoded) {
        Ok(tree) => Some(tree),
        Err(_) => None,
    }
}

/// Reads the fields of a credential out of the text of its secret.
pub fn resolve_encoded_fields(encoded: &str, credential_ref: &str) -> (r: Result<
    TextMap<String>,
    String,
>)
    ensures
        match (r, credential_fields(secret_payload(encoded@), credential_ref@)) {
            (Ok(fields), Ok(shown)) => field_texts(fields@) == shown,
            (Err(e), Err(message)) => e@ == message,
            _ => false,
        },
{
    let payload: Option<Json> = match parse_json(encoded) {
        Ok(value) => Some(value),
        Err(_) => None,
    };
    resolve_fields(&payload, credential_ref)
}

/// What a broker is reached with.
#[derive(Debug)]
pub struct BrokerCredentials {
    pub provider_ref: String,
    pub api_key: String,
    pub api_secret: String,
    pub base_url: String,
}

/// A field; an empty text where there is none.
pub open spec fn field_or_empty(fields: Map<Seq<char>, Seq<char>>, key: Seq<char>) -> Seq<char> {
    if fields.dom().contains(key) {
        fields[key]
    } else {
        Seq::empty()
    }
}

fn get_field(fields: &TextMap<String>, key: &str) -> (r: String)
    ensures
        r@ == field_or_empty(field_texts(fields@), key@),
{
    match fields.get(key) {
        Some(t) => t.clone(),
        None => String::new(),
    }
}

/// Reads what a broker is reached with from the fields of its credential.
pub fn broker_credentials(provider_ref: &str, fields: &TextMap<String>) -> (r: Result<
    BrokerCredentials,
    String,
>)
    ensures
        ({
            let shown = field_texts(fields@);
            let key = field_or_empty(shown, "api_key"@);
            let secret = field_or_empty(shown, "api_secret"@);
            let url = field_or_empty(shown, "base_url"@);
            if text::is_blank(key) || text::is_blank(secret) || text::is_blank(url) {
                r matches Err(e) && e@ == "self-hosted broker credential payload is incomplete"@
            } else {
                r matches Ok(c) && c.provider_ref@ == provider_ref@ && c.api_key@ == key
                    && c.api_secret@ == secret && c.base_url@ == url
            }
        }),
{
    let api_key = get_field(fields, "api_key");
    let api_secret = get_field(fields, "api_secret");
    let base_url = get_field(fields, "base_url");
    if blank(api_key.as_str()) || blank(api_secret.as_str()) || blank(base_url.as_str()) {
        return Err("self-hosted broker credential payload is incomplete".to_owned());
    }
    Ok(BrokerCredentials { provider_ref: provider_ref.to_owned(), api_key, api_secret, base_url })
}

/// Whether a credential is set up. It tells nothing of the credential itself.
#[derive(Debug)]
pub struct CredentialStatus {
    pub provider_ref: String,
    pub configured: bool,
    pub custody: String,
    pub redacted_display: Option<String>,
}

/// Tells whether a credential is set up.
pub fn credential_status(provider_ref: &str, configured: bool) -> (r: CredentialStatus)
    ensures
        r.provider_ref@ == provider_ref@,
        r.configured == configured,
        r.custody@ == "self-hosted/operator-managed"@,
        text::option_text(r.redacted_display) == (if configured {
            Some("configured"@)
        } else {
            None
        }),
{
    let display: Option<String> = if configured {
        Some("configured".to_owned())
    } else {
        None
    };
    CredentialStatus {
        provider_ref: provider_ref.to_owned(),
        configured,
        custody: "self-hosted/operator-managed".to_owned(),
        redacted_display: display,
    }
}

/// Why credentials are neither stored nor revoked here.
pub fn credentials_are_operated() -> (r: String)
    ensures
        r@
            == "self-hosted credentials are operator-managed through configured secret references"@,
{
    "self-hosted credentials are operator-managed through configured secret references".to_owned()
}

/// What a provider can do.
#[derive(Debug)]
pub struct ProviderCapability {
    pub provider_ref: String,
    pub capability: String,
    pub available: bool,
}

/// What a [`ProviderCapability`] says.
#[verifier::ext_equal]
pub struct CapabilityView {
    pub provider_ref: Seq<char>,
    pub capability: Seq<char>,
    pub available: bool,
}

impl View for ProviderCapability {
    type V = CapabilityView;

    open spec fn view(&self) -> CapabilityView {
        CapabilityView {
            provider_ref: self.provider_ref@,
            capability: self.capability@,
            available: self.available,
        }
    }
}

/// What a provider can do: quote, and take orders on paper where it is one for paper.
pub open spec fn capabilities_of(provider_ref: Seq<char>) -> Seq<CapabilityView> {
    seq![
        CapabilityView {
            provider_ref,
            capability: "marketdata.quote"@,
            available: true,
        },
        CapabilityView {
            provider_ref,
            capability: "broker.order_submit.paper"@,
            available: text::occurs(provider_ref, "paper"@) || provider_ref == "sim"@,
        },
    ]
}

/// Lists what a provider can do.
pub fn provider_capabilities(provider_ref: &str) -> (r: Vec<ProviderCapability>)
    ensures
        r@.map_values(|c: ProviderCapability| c@) == capabilities_of(provider_ref@),
{
    let list: Vec<ProviderCapability> = vec![
        ProviderCapability {
            provider_ref: provider_ref.to_owned(),
            capability: "marketdata.quote".to_owned(),
            available: true,
        },
        ProviderCapability {
            provider_ref: provider_ref.to_owned(),
            capability: "broker.order_submit.paper".to_owned(),
            available: contains(provider_ref, "paper") || same(provider_ref, "sim"),
        },
    ];
    assert(list@.map_values(|c: ProviderCapability| c@) =~= capabilities_of(provider_ref@));
    list
}

/// A credential counts only under the reference that it was asked for.
pub proof fn credential_is_the_asked_one(tree: JsonTree, asked: Seq<char>)
    requires
        credential_fields(Some(tree), asked) is Ok,
    ensures
        json::text_member(tree, "credential_ref"@) matches Some(named) ==> named == asked,
        credential_fields(Some(tree), asked) matches Ok(fields) && fields_are_complete(fields),
{
}

} // verus!

//! Which sessions are accepted: those of the local owner, and those that a configured
//! identity provider vouches for. Everything else fails closed.

pub mod acceptance;

use vstd::prelude::*;

use crate::json;
use crate::json::{Json, JsonMap, JsonTree};
use crate::text;
use crate::text::{blank, chars_of, same, to_lower, trim};

verus! {

/// A session that is to be validated.
#[derive(Debug)]
pub struct SessionValidationRequest {
    pub provider: String,
    pub session_token: Option<String>,
    pub access_token: Option<String>,
    pub id_token: Option<String>,
    pub metadata: Json,
}

impl Default for SessionValidationRequest {
    fn default() -> (r: SessionValidationRequest)
        ensures
            r.provider@ == "local"@,
            r.session_token is None,
            r.access_token is None,
            r.id_token is None,
            r.metadata@ == JsonTree::Object(Map::empty()),
    {
        SessionValidationRequest {
            provider: "local".to_owned(),
            session_token: None,
            access_token: None,
            id_token: None,
            metadata: Json::object(JsonMap::new()),
        }
    }
}

/// Whom a session belongs to.
#[derive(Debug)]
pub struct SessionPrincipal {
    pub provider: String,
    pub issuer: String,
    pub subject: String,
    pub email: Option<String>,
    pub email_verified: Option<bool>,
    pub name: Option<String>,
    pub picture: Option<String>,
}

/// What a [`SessionPrincipal`] says.
#[verifier::ext_equal]
pub struct PrincipalView {
    pub provider: Seq<char>,
    pub issuer: Seq<char>,
    pub subject: Seq<char>,
    pub email: Option<Seq<char>>,
    pub email_verified: Option<bool>,
    pub name: Option<Seq<char>>,
    pub picture: Option<Seq<char>>,
}

impl View for SessionPrincipal {
    type V = PrincipalView;

    open spec fn view(&self) -> PrincipalView {
        PrincipalView {
            provider: self.provider@,
            issuer: self.issuer@,
            subject: self.subject@,
            email: text::option_text(self.email),
            email_verified: self.email_verified,
            name: text::option_text(self.name),
            picture: text::option_text(self.picture),
        }
    }
}

/// An optional truth value as a JSON value.
pub open spec fn bool_or_null(value: Option<bool>) -> JsonTree {
    match value {
        Some(b) => JsonTree::Bool(b),
        None => JsonTree::Null,
    }
}

/// A principal as a value.
pub open spec fn principal_tree(p: PrincipalView) -> JsonTree {
    JsonTree::Object(
        map![
            "provider"@ => JsonTree::Text(p.provider),
            "issuer"@ => JsonTree::Text(p.issuer),
            "subject"@ => JsonTree::Text(p.subject),
            "email"@ => json::text_or_null(p.email),
            "email_verified"@ => bool_or_null(p.email_verified),
            "name"@ => json::text_or_null(p.name),
            "picture"@ => json::text_or_null(p.picture)
        ],
    )
}

impl SessionPrincipal {
    /// The principal as a value.
    pub fn value(&self) -> (r: Json)
        ensures
            r@ == principal_tree(self@),
    {
        let verified: Json = match self.email_verified {
            Some(b) => Json::Bool(b),
            None => Json::Null,
        };
        Json::object(
            JsonMap::new().with("provider", Json::text(self.provider.as_str())).with(
                "issuer",
                Json::text(self.issuer.as_str()),
            ).with("subject", Json::text(self.subject.as_str())).with(
                "email",
                Json::optional_text(&self.email),
            ).with("email_verified", verified).with("name", Json::optional_text(&self.name)).with(
                "picture",
                Json::optional_text(&self.picture),
            ),
        )
    }
}

/// What became of the validation of a session.
#[derive(Debug)]
pub struct SessionValidationResult {
    pub authenticated: bool,
    pub reason: String,
    pub principal: Option<SessionPrincipal>,
}

/// Whether a session is accepted, and for whom, or why it is not.
pub open spec fn verdict(r: SessionValidationResult, expected: Result<PrincipalView, Seq<char>>) -> bool {
    match expected {
        Ok(principal) => r.authenticated && r.reason@ == "ok"@ && (r.principal matches Some(p) && p@
            == principal),
        Err(reason) => !r.authenticated && r.reason@ == reason && r.principal is None,
    }
}

/// What an identity provider answered.
#[derive(Debug)]
pub struct IdentityProviderResponse {
    pub status_code: u16,
    pub payload: Json,
}

fn unauthenticated(reason: &str) -> (r: SessionValidationResult)
    ensures
        verdict(r, Err(reason@)),
{
    SessionValidationResult { authenticated: false, reason: reason.to_owned(), principal: None }
}

fn accepted(principal: SessionPrincipal) -> (r: SessionValidationResult)
    ensures
        verdict(r, Ok(principal@)),
{
    SessionValidationResult {
        authenticated: true,
        reason: "ok".to_owned(),
        principal: Some(principal),
    }
}

/// A text without the space around it, where anything is left.
pub open spec fn non_blank(value: Option<Seq<char>>) -> Option<Seq<char>> {
    match value {
        Some(t) => if text::trimmed(t).len() == 0 {
            None
        } else {
            Some(text::trimmed(t))
        },
        None => None,
    }
}

/// A text field without the space around it, where anything is left.
pub open spec fn field_text(payload: JsonTree, key: Seq<char>) -> Option<Seq<char>> {
    non_blank(json::text_member(payload, key))
}

fn trimmed_text(value: Option<String>) -> (r: Option<String>)
    ensures
        text::option_text(r) == non_blank(text::option_text(value)),
{
    match value {
        Some(t) => {
            let cut = trim(t.as_str());
            if chars_of(cut.as_str()).len() == 0 {
                None
            } else {
                Some(cut)
            }
        },
        None => None,
    }
}

/// Reads a text field without the space around it.
pub fn string_field(payload: &Json, key: &str) -> (r: Option<String>)
    ensures
        text::option_text(r) == field_text(payload@, key@),
{
    trimmed_text(payload.text_field(key))
}

/// A truth value that is spelled out.
pub open spec fn spelled_bool(value: Seq<char>) -> Option<bool> {
    let word = text::lowered(text::trimmed(value));
    if word == "1"@ || word == "true"@ || word == "yes"@ {
        Some(true)
    } else if word == "0"@ || word == "false"@ || word == "no"@ {
        Some(false)
    } else {
        None
    }
}

/// A field that is a truth value or spells one.
pub open spec fn field_bool(payload: JsonTree, key: Seq<char>) -> Option<bool> {
    match json::member(payload, key) {
        Some(JsonTree::Bool(b)) => Some(b),
        Some(JsonTree::Text(t)) => spelled_bool(t),
        _ => None,
    }
}

/// Reads a field that is a truth value or spells one.
pub fn bool_field(payload: &Json, key: &str) -> (r: Option<bool>)
    ensures
        r == field_bool(payload@, key@),
{
    match payload.field(key) {
        Some(Json::Bool(b)) => Some(*b),
        Some(Json::Text(t)) => {
            let cut = trim(t.as_str());
            let word = to_lower(cut.as_str());
            let word: &str = word.as_str();
            if same(word, "1") || same(word, "true") || same(word, "yes") {
                Some(true)
            } else if same(word, "0") || same(word, "false") || same(word, "no") {
                Some(false)
            } else {
                None
            }
        },
        _ => None,
    }
}

/// Whether a session of the local owner is accepted.
pub open spec fn local_session(metadata: JsonTree) -> Result<PrincipalView, Seq<char>> {
    let subject = text::trimmed(
        match json::text_member(metadata, "subject"@) {
            Some(t) => t,
            None => "local-owner"@,
        },
    );
    if subject.len() == 0 {
        Err("subject_missing"@)
    } else {
        Ok(
            PrincipalView {
                provider: "local"@,
                issuer: "local"@,
                subject,
                email: field_text(metadata, "email"@),
                email_verified: field_bool(metadata, "email_verified"@),
                name: match field_text(metadata, "name"@) {
                    Some(name) => Some(name),
                    None => Some("Local Owner"@),
                },
                picture: field_text(metadata, "picture"@),
            },
        )
    }
}

/// Validates a session of the local owner.
pub fn local_session_validate(request: &SessionValidationRequest) -> (r: SessionValidationResult)
    ensures
        verdict(r, local_session(request.metadata@)),
{
    let given: String = match request.metadata.text_field("subject") {
        Some(t) => t,
        None => "local-owner".to_owned(),
    };
    let subject = trim(given.as_str());
    if chars_of(subject.as_str()).len() == 0 {
        return unauthenticated("subject_missing");
    }
    let name: Option<String> = match string_field(&request.metadata, "name") {
        Some(name) => Some(name),
        None => Some("Local Owner".to_owned()),
    };
    accepted(
        SessionPrincipal {
            provider: "local".to_owned(),
            issuer: "local".to_owned(),
            subject,
            email: string_field(&request.metadata, "email"),
            email_verified: bool_field(&request.metadata, "email_verified"),
            name,
            picture: string_field(&request.metadata, "picture"),
        },
    )
}

/// Whether an optional text is missing or blank.
pub open spec fn is_missing(value: Option<Seq<char>>) -> bool {
    match value {
        Some(t) => text::is_blank(t),
        None => true,
    }
}

fn missing(value: &Option<String>) -> (r: bool)
    ensures
        r == is_missing(text::option_text(*value)),
{
    match value {
        Some(t) => blank(t.as_str()),
        None => true,
    }
}

/// A principal with the profile that a provider tells of it.
pub open spec fn provided(provider: Seq<char>, subject: Seq<char>, profile: JsonTree) -> PrincipalView {
    PrincipalView {
        provider,
        issuer: provider,
        subject,
        email: field_text(profile, "email"@),
        email_verified: field_bool(profile, "email_verified"@),
        name: field_text(profile, "name"@),
        picture: field_text(profile, "picture"@),
    }
}

fn principal_of(provider: &str, subject: String, profile: &Json) -> (r: SessionPrincipal)
    ensures
        r@ == provided(provider@, subject@, profile@),
{
    SessionPrincipal {
        provider: provider.to_owned(),
        issuer: provider.to_owned(),
        subject,
        email: string_field(profile, "email"),
        email_verified: bool_field(profile, "email_verified"),
        name: string_field(profile, "name"),
        picture: string_field(profile, "picture"),
    }
}

/// The identity that an answer names, where it is an object.
pub open spec fn named_identity(payload: JsonTree) -> Option<JsonTree> {
    match json::member(payload, "identity"@) {
        Some(JsonTree::Object(map)) => Some(JsonTree::Object(map)),
        _ => None,
    }
}

/// The traits of an identity, or none.
pub open spec fn traits_of(identity: JsonTree) -> JsonTree {
    match json::member(identity, "traits"@) {
        Some(traits) => traits,
        None => JsonTree::Object(Map::empty()),
    }
}

/// Whether a session of the identity server is accepted.
pub open spec fn kratos_session(
    token: Option<Seq<char>>,
    url: Option<Seq<char>>,
    response: Option<IdentityProviderResponse>,
) -> Result<PrincipalView, Seq<char>> {
    if is_missing(token) {
        Err("missing_session_token"@)
    } else if is_missing(url) {
        Err("validator_url_missing"@)
    } else {
        match response {
            None => Err("validator_unavailable"@),
            Some(answer) => if answer.status_code != 200 {
                Err("invalid_session"@)
            } else {
                match named_identity(answer.payload@) {
                    None => Err("subject_missing"@),
                    Some(identity) => match field_text(identity, "id"@) {
                        None => Err("subject_missing"@),
                        Some(subject) => Ok(provided("kratos"@, subject, traits_of(identity))),
                    },
                }
            },
        }
    }
}

/// Validates a session of the identity server by what it answered.
pub fn kratos_session_validate(
    request: &SessionValidationRequest,
    public_url: &Option<String>,
    response: &Option<IdentityProviderResponse>,
) -> (r: SessionValidationResult)
    ensures
        verdict(
            r,
            kratos_session(
                text::option_text(request.session_token),
                text::option_text(*public_url),
                *response,
            ),
        ),
{
    if missing(&request.session_token) {
        return unauthenticated("missing_session_token");
    }
    if missing(public_url) {
        return unauthenticated("validator_url_missing");
    }
    let answer = match response {
        Some(a) => a,
        None => {
            return unauthenticated("validator_unavailable");
        },
    };
    if answer.status_code != 200 {
        return unauthenticated("invalid_session");
    }
    let identity = match answer.payload.field("identity") {
        Some(value) => value,
        None => {
            return unauthenticated("subject_missing");
        },
    };
    let is_object: bool = match identity {
        Json::Object(_) => true,
        _ => false,
    };
    if !is_object {
        return unauthenticated("subject_missing");
    }
    match string_field(identity, "id") {
        None => unauthenticated("subject_missing"),
        Some(subject) => match identity.field("traits") {
            Some(traits) => accepted(principal_of("kratos", subject, traits)),
            None => accepted(principal_of("kratos", subject, &Json::object(JsonMap::new()))),
        },
    }
}

/// Whether a session of the user pool is accepted.
pub open spec fn cognito_session(
    token: Option<Seq<char>>,
    url: Option<Seq<char>>,
    response: Option<IdentityProviderResponse>,
) -> Result<PrincipalView, Seq<char>> {
    if is_missing(token) {
        Err("missing_access_token"@)
    } else if is_missing(url) {
        Err("userinfo_url_missing"@)
    } else {
        match response {
            None => Err("validator_unavailable"@),
            Some(answer) => if answer.status_code != 200 {
                Err("invalid_access_token"@)
            } else {
                match field_text(answer.payload@, "sub"@) {
                    None => Err("subject_missing"@),
                    Some(subject) => Ok(provided("cognito"@, subject, answer.payload@)),
                }
            },
        }
    }
}

/// Validates a session of the user pool by what it answered.
pub fn cognito_session_validate(
    request: &SessionValidationRequest,
    userinfo_url: &Option<String>,
    response: &Option<IdentityProviderResponse>,
) -> (r: SessionValidationResult)
    ensures
        verdict(
            r,
            cognito_session(
                text::option_text(request.access_token),
                text::option_text(*userinfo_url),
                *response,
            ),
        ),
{
    if missing(&request.access_token) {
        return unauthenticated("missing_access_token");
    }
    if missing(userinfo_url) {
        return unauthenticated("userinfo_url_missing");
    }
    let answer = match response {
        Some(a) => a,
        None => {
            return unauthenticated("validator_unavailable");
        },
    };
    if answer.status_code != 200 {
        return unauthenticated("invalid_access_token");
    }
    match string_field(&answer.payload, "sub") {
        None => unauthenticated("subject_missing"),
        Some(subject) => accepted(principal_of("cognito", subject, &answer.payload)),
    }
}

/// Whether a session is accepted.
pub open spec fn session_of(
    request: SessionValidationRequest,
    kratos_public_url: Option<Seq<char>>,
    cognito_userinfo_url: Option<Seq<char>>,
    response: Option<IdentityProviderResponse>,
) -> Result<PrincipalView, Seq<char>> {
    if request.provider@ == "local"@ {
        local_session(request.metadata@)
    } else if request.provider@ == "kratos"@ {
        kratos_session(text::option_text(request.session_token), kratos_public_url, response)
    } else if request.provider@ == "cognito"@ {
        cognito_session(text::option_text(request.access_token), cognito_userinfo_url, response)
    } else {
        Err("unsupported_provider"@)
    }
}

/// Validates a session by its provider.
pub fn validate_session(
    request: &SessionValidationRequest,
    kratos_public_url: &Option<String>,
    cognito_userinfo_url: &Option<String>,
    response: &Option<IdentityProviderResponse>,
) -> (r: SessionValidationResult)
    ensures
        verdict(
            r,
            session_of(
                *request,
                text::option_text(*kratos_public_url),
                text::option_text(*cognito_userinfo_url),
                *response,
            ),
        ),
{
    let provider: &str = request.provider.as_str();
    if same(provider, "local") {
        local_session_validate(request)
    } else if same(provider, "kratos") {
        kratos_session_validate(request, kratos_public_url, response)
    } else if same(provider, "cognito") {
        cognito_session_validate(request, cognito_userinfo_url, response)
    } else {
        unauthenticated("unsupported_provider")
    }
}

/// A session of another provider than the local one is accepted only where a validator
/// is configured and has answered for it.
pub proof fn remote_session_needs_an_answer(
    request: SessionValidationRequest,
    kratos_public_url: Option<Seq<char>>,
    cognito_userinfo_url: Option<Seq<char>>,
    response: Option<IdentityProviderResponse>,
)
    requires
        request.provider@ != "local"@,
        session_of(request, kratos_public_url, cognito_userinfo_url, response) is Ok,
    ensures
        response matches Some(answer) && answer.status_code == 200,
        !is_missing(kratos_public_url) || !is_missing(cognito_userinfo_url),
{
}

/// No session is accepted for nobody: an accepted subject is never empty.
pub proof fn accepted_subject_is_not_empty(
    request: SessionValidationRequest,
    kratos_public_url: Option<Seq<char>>,
    cognito_userinfo_url: Option<Seq<char>>,
    response: Option<IdentityProviderResponse>,
)
    ensures
        session_of(request, kratos_public_url, cognito_userinfo_url, response) matches Ok(p)
            ==> p.subject.len() > 0,
{
}

} // verus!

//! What the account, install and telemetry surfaces answer in local mode, and which
//! install claims are accepted.

pub mod answers;

use vstd::prelude::*;

use crate::auth::session;
use crate::auth::session::{validate_session, SessionValidationRequest};
use crate::json;
use crate::json::{Json, JsonMap, JsonTree};
use crate::text;
use crate::text::{blank, chars_of, is_before, join2, join4, same, to_lower, trim, trim_slashes};
use crate::text_map;

verus! {

pub const LOCAL_STABLE_IDENTITY_ID: &'static str = "local:user_123";

pub const LOCAL_INSTALL_ID: &'static str = "install_local_123";

pub const LOCAL_ACCOUNT_URL: &'static str = "/account";

pub const LOCAL_INSTALL_URL: &'static str = "/account/install";

pub const LOCAL_TELEMETRY_URL: &'static str = "/account/telemetry";

pub const LOCAL_TELEMETRY_DEBUG_URL: &'static str = "/telemetry/debug";

/// The name of a profile; the local one where none is given.
pub open spec fn profile_name(profile: Seq<char>) -> Seq<char> {
    if text::is_blank(profile) {
        "local"@
    } else {
        text::trimmed(profile)
    }
}

/// The name of a profile; the local one where none is given.
pub fn normalize_profile(profile: &str) -> (r: String)
    ensures
        r@ == profile_name(profile@),
{
    if blank(profile) {
        "local".to_owned()
    } else {
        trim(profile)
    }
}

/// The address of a page of the studio.
pub open spec fn link(base: Seq<char>, path: Seq<char>) -> Seq<char> {
    text::without_slashes(base) + path
}

/// The address of a page of the studio.
pub fn deep_link(studio_base_url: &str, path: &str) -> (r: String)
    ensures
        r@ == link(studio_base_url@, path@),
{
    let base = trim_slashes(studio_base_url);
    join2(base.as_str(), path)
}

fn link_value(base: &str, path: &str) -> (r: Json)
    ensures
        r@ == JsonTree::Text(link(base@, path@)),
{
    let url = deep_link(base, path);
    Json::text(url.as_str())
}

fn profile_value(profile: &str) -> (r: Json)
    ensures
        r@ == JsonTree::Text(profile_name(profile@)),
{
    let name = normalize_profile(profile);
    Json::text(name.as_str())
}

/// The answer to a request for the status of the account.
pub open spec fn account_status_tree(profile: Seq<char>, base: Seq<char>) -> JsonTree {
    JsonTree::Object(
        map![
            "schemaVersion"@ => JsonTree::Text("tradeassembly.account.status.v1"@),
            "ok"@ => JsonTree::Bool(true),
            "profile"@ => JsonTree::Text(profile_name(profile)),
            "mode"@ => JsonTree::Text("local"@),
            "authenticated"@ => JsonTree::Bool(true),
            "stable_identity_id"@ => JsonTree::Text(LOCAL_STABLE_IDENTITY_ID@),
            "install_id"@ => JsonTree::Text(LOCAL_INSTALL_ID@),
            "install_status"@ => JsonTree::Text("claimed"@),
            "claim_status"@ => JsonTree::Text("claimed"@),
            "entitlements"@ => json::text_array(seq!["solo"@, "paper"@]),
            "telemetry_opt_out"@ => JsonTree::Bool(false),
            "credential_custody"@ => JsonTree::Text("local_or_customer_managed"@),
            "no_credential_custody"@ => JsonTree::Bool(true),
            "deep_links"@ => JsonTree::Object(
                map![
                    "account"@ => JsonTree::Text(link(base, LOCAL_ACCOUNT_URL@)),
                    "install"@ => JsonTree::Text(link(base, LOCAL_INSTALL_URL@)),
                    "telemetry"@ => JsonTree::Text(link(base, LOCAL_TELEMETRY_URL@))
                ],
            ),
            "safe_next_action"@ => JsonTree::Text(
                "Use local account, install, and telemetry routes for development; hosted identity is not required."@,
            )
        ],
    )
}

fn two_texts(a: &str, b: &str) -> (r: Json)
    ensures
        r@ == json::text_array(seq![a@, b@]),
{
    let mut list: Vec<String> = Vec::new();
    list.push(a.to_owned());
    list.push(b.to_owned());
    assert(text::texts(list@) =~= seq![a@, b@]);
    Json::texts(&list)
}

/// Answers a request for the status of the account.
pub fn local_account_status(profile: &str, studio_base_url: &str) -> (r: Json)
    ensures
        r@ == account_status_tree(profile@, studio_base_url@),
{
    let links = JsonMap::new().with(
        "account",
        link_value(studio_base_url, LOCAL_ACCOUNT_URL),
    ).with("install", link_value(studio_base_url, LOCAL_INSTALL_URL)).with(
        "telemetry",
        link_value(studio_base_url, LOCAL_TELEMETRY_URL),
    );
    Json::object(
        JsonMap::new().with("schemaVersion", Json::text("tradeassembly.account.status.v1")).with(
            "ok",
            Json::Bool(true),
        ).with("profile", profile_value(profile)).with("mode", Json::text("local")).with(
            "authenticated",
            Json::Bool(true),
        ).with("stable_identity_id", Json::text(LOCAL_STABLE_IDENTITY_ID)).with(
            "install_id",
            Json::text(LOCAL_INSTALL_ID),
        ).with("install_status", Json::text("claimed")).with("claim_status", Json::text("claimed")).with(
            "entitlements",
            two_texts("solo", "paper"),
        ).with("telemetry_opt_out", Json::Bool(false)).with(
            "credential_custody",
            Json::text("local_or_customer_managed"),
        ).with("no_credential_custody", Json::Bool(true)).with("deep_links", Json::object(links)).with(
            "safe_next_action",
            Json::text(
                "Use local account, install, and telemetry routes for development; hosted identity is not required.",
            ),
        ),
    )
}

/// The answer to a request to log in.
pub open spec fn account_login_tree(profile: Seq<char>, base: Seq<char>) -> JsonTree {
    JsonTree::Object(
        map![
            "schemaVersion"@ => JsonTree::Text("tradeassembly.account.login.v1"@),
            "ok"@ => JsonTree::Bool(true),
            "profile"@ => JsonTree::Text(profile_name(profile)),
            "mode"@ => JsonTree::Text("local"@),
            "provider"@ => JsonTree::Text("local"@),
            "subject"@ => JsonTree::Text("user_123"@),
            "stable_identity_id"@ => JsonTree::Text(LOCAL_STABLE_IDENTITY_ID@),
            "login_url"@ => JsonTree::Text(link(base, "/auth/login?return_to=/account"@)),
            "return_url"@ => JsonTree::Text(link(base, LOCAL_ACCOUNT_URL@)),
            "credential_custody"@ => JsonTree::Text("local_or_customer_managed"@),
            "no_credential_custody"@ => JsonTree::Bool(true)
        ],
    )
}

/// Answers a request to log in.
pub fn local_account_login(profile: &str, studio_base_url: &str) -> (r: Json)
    ensures
        r@ == account_login_tree(profile@, studio_base_url@),
{
    Json::object(
        JsonMap::new().with("schemaVersion", Json::text("tradeassembly.account.login.v1")).with(
            "ok",
            Json::Bool(true),
        ).with("profile", profile_value(profile)).with("mode", Json::text("local")).with(
            "provider",
            Json::text("local"),
        ).with("subject", Json::text("user_123")).with(
            "stable_identity_id",
            Json::text(LOCAL_STABLE_IDENTITY_ID),
        ).with("login_url", link_value(studio_base_url, "/auth/login?return_to=/account")).with(
            "return_url",
            link_value(studio_base_url, LOCAL_ACCOUNT_URL),
        ).with("credential_custody", Json::text("local_or_customer_managed")).with(
            "no_credential_custody",
            Json::Bool(true),
        ),
    )
}

/// The install that is meant; the local one where none is named.
pub open spec fn install_or_local(install_id: Option<Seq<char>>) -> Seq<char> {
    match install_id {
        Some(id) => id,
        None => LOCAL_INSTALL_ID@,
    }
}

fn install_of(install_id: &Option<String>) -> (r: String)
    ensures
        r@ == install_or_local(text::option_text(*install_id)),
{
    match install_id {
        Some(id) => id.clone(),
        None => LOCAL_INSTALL_ID.to_owned(),
    }
}

/// The answer to the claim of an install.
pub open spec fn install_claim_tree(
    profile: Seq<char>,
    install_id: Option<Seq<char>>,
    base: Seq<char>,
) -> JsonTree {
    let id = install_or_local(install_id);
    JsonTree::Object(
        map![
            "schemaVersion"@ => JsonTree::Text("tradeassembly.install.claim.v1"@),
            "ok"@ => JsonTree::Bool(true),
            "profile"@ => JsonTree::Text(profile_name(profile)),
            "stable_identity_id"@ => JsonTree::Text(LOCAL_STABLE_IDENTITY_ID@),
            "install_id"@ => JsonTree::Text(id),
            "status"@ => JsonTree::Text("claimed"@),
            "claim_status"@ => JsonTree::Text("claimed"@),
            "claimed_at"@ => JsonTree::Text("2026-06-28T18:00:00Z"@),
            "idempotency_key"@ => JsonTree::Text(
                "claim-"@ + id + "-"@ + LOCAL_STABLE_IDENTITY_ID@,
            ),
            "deep_link"@ => JsonTree::Text(link(base, LOCAL_INSTALL_URL@)),
            "no_credential_custody"@ => JsonTree::Bool(true)
        ],
    )
}

/// Answers the claim of an install.
pub fn local_install_claim(profile: &str, install_id: &Option<String>, studio_base_url: &str) -> (r: Json)
    ensures
        r@ == install_claim_tree(profile@, text::option_text(*install_id), studio_base_url@),
{
    let id = install_of(install_id);
    let key = join4("claim-", id.as_str(), "-", LOCAL_STABLE_IDENTITY_ID);
    Json::object(
        JsonMap::new().with("schemaVersion", Json::text("tradeassembly.install.claim.v1")).with(
            "ok",
            Json::Bool(true),
        ).with("profile", profile_value(profile)).with(
            "stable_identity_id",
            Json::text(LOCAL_STABLE_IDENTITY_ID),
        ).with("install_id", Json::text(id.as_str())).with("status", Json::text("claimed")).with(
            "claim_status",
            Json::text("claimed"),
        ).with("claimed_at", Json::text("2026-06-28T18:00:00Z")).with(
            "idempotency_key",
            Json::text(key.as_str()),
        ).with("deep_link", link_value(studio_base_url, LOCAL_INSTALL_URL)).with(
            "no_credential_custody",
            Json::Bool(true),
        ),
    )
}

/// The answer to a telemetry event.
pub open spec fn telemetry_emit_tree(
    profile: Seq<char>,
    event_type: Seq<char>,
    install_id: Option<Seq<char>>,
    base: Seq<char>,
) -> JsonTree {
    JsonTree::Object(
        map![
            "schemaVersion"@ => JsonTree::Text("tradeassembly.telemetry.emit.v1"@),
            "ok"@ => JsonTree::Bool(true),
            "profile"@ => JsonTree::Text(profile_name(profile)),
            "status"@ => JsonTree::Text("accepted"@),
            "event_type"@ => JsonTree::Text(event_type),
            "install_id"@ => JsonTree::Text(install_or_local(install_id)),
            "sink"@ => JsonTree::Text(".local/telemetry/events.jsonl"@),
            "payload"@ => JsonTree::Object(
                map![
                    "surface"@ => JsonTree::Text("local"@),
                    "schema_version"@ => JsonTree::Int(1)
                ],
            ),
            "deep_links"@ => JsonTree::Object(
                map![
                    "telemetry"@ => JsonTree::Text(link(base, LOCAL_TELEMETRY_URL@)),
                    "debug"@ => JsonTree::Text(link(base, LOCAL_TELEMETRY_DEBUG_URL@))
                ],
            ),
            "no_credential_custody"@ => JsonTree::Bool(true)
        ],
    )
}

/// Answers a telemetry event.
pub fn local_telemetry_emit(
    profile: &str,
    event_type: &str,
    install_id: &Option<String>,
    studio_base_url: &str,
) -> (r: Json)
    ensures
        r@ == telemetry_emit_tree(
            profile@,
            event_type@,
            text::option_text(*install_id),
            studio_base_url@,
        ),
{
    let id = install_of(install_id);
    let payload = JsonMap::new().with("surface", Json::text("local")).with(
        "schema_version",
        Json::Int(1),
    );
    let links = JsonMap::new().with(
        "telemetry",
        link_value(studio_base_url, LOCAL_TELEMETRY_URL),
    ).with("debug", link_value(studio_base_url, LOCAL_TELEMETRY_DEBUG_URL));
    Json::object(
        JsonMap::new().with("schemaVersion", Json::text("tradeassembly.telemetry.emit.v1")).with(
            "ok",
            Json::Bool(true),
        ).with("profile", profile_value(profile)).with("status", Json::text("accepted")).with(
            "event_type",
            Json::text(event_type),
        ).with("install_id", Json::text(id.as_str())).with(
            "sink",
            Json::text(".local/telemetry/events.jsonl"),
        ).with("payload", Json::object(payload)).with("deep_links", Json::object(links)).with(
            "no_credential_custody",
            Json::Bool(true),
        ),
    )
}

/// The answer to a choice on telemetry.
pub open spec fn telemetry_opt_out_tree(profile: Seq<char>, opted_out: bool, base: Seq<char>) -> JsonTree {
    JsonTree::Object(
        map![
            "schemaVersion"@ => JsonTree::Text("tradeassembly.telemetry.opt_out.v1"@),
            "ok"@ => JsonTree::Bool(true),
            "profile"@ => JsonTree::Text(profile_name(profile)),
            "stable_identity_id"@ => JsonTree::Text(LOCAL_STABLE_IDENTITY_ID@),
            "install_id"@ => JsonTree::Text(LOCAL_INSTALL_ID@),
            "telemetry_opt_out"@ => JsonTree::Bool(opted_out),
            "future_event_status"@ => JsonTree::Text(
                if opted_out {
                    "skipped"@
                } else {
                    "accepted"@
                },
            ),
            "deep_link"@ => JsonTree::Text(link(base, LOCAL_TELEMETRY_URL@)),
            "no_credential_custody"@ => JsonTree::Bool(true)
        ],
    )
}

/// Answers a choice on telemetry.
pub fn local_telemetry_opt_out(profile: &str, opted_out: bool, studio_base_url: &str) -> (r: Json)
    ensures
        r@ == telemetry_opt_out_tree(profile@, opted_out, studio_base_url@),
{
    let status: &str = if opted_out {
        "skipped"
    } else {
        "accepted"
    };
    Json::object(
        JsonMap::new().with("schemaVersion", Json::text("tradeassembly.telemetry.opt_out.v1")).with(
            "ok",
            Json::Bool(true),
        ).with("profile", profile_value(profile)).with(
            "stable_identity_id",
            Json::text(LOCAL_STABLE_IDENTITY_ID),
        ).with("install_id", Json::text(LOCAL_INSTALL_ID)).with(
            "telemetry_opt_out",
            Json::Bool(opted_out),
        ).with("future_event_status", Json::text(status)).with(
            "deep_link",
            link_value(studio_base_url, LOCAL_TELEMETRY_URL),
        ).with("no_credential_custody", Json::Bool(true)),
    )
}

/// The answer to a request to replay telemetry.
pub open spec fn telemetry_replay_tree(profile: Seq<char>, base: Seq<char>) -> JsonTree {
    JsonTree::Object(
        map![
            "schemaVersion"@ => JsonTree::Text("tradeassembly.telemetry.replay.v1"@),
            "ok"@ => JsonTree::Bool(true),
            "profile"@ => JsonTree::Text(profile_name(profile)),
            "sink"@ => JsonTree::Text(".local/telemetry/events.jsonl"@),
            "events"@ => JsonTree::Array(Seq::empty()),
            "replay_command"@ => JsonTree::Text(
                "tradeassembly telemetry replay --profile local"@,
            ),
            "deep_link"@ => JsonTree::Text(link(base, LOCAL_TELEMETRY_DEBUG_URL@)),
            "no_credential_custody"@ => JsonTree::Bool(true)
        ],
    )
}

fn empty_array() -> (r: Json)
    ensures
        r@ == JsonTree::Array(Seq::empty()),
{
    let items: Vec<Json> = Vec::new();
    proof {
        json::array_view_members(items@);
        assert(json::array_view(items@) =~= Seq::empty());
    }
    Json::Array(items)
}

/// Answers a request to replay telemetry.
pub fn local_telemetry_replay(profile: &str, studio_base_url: &str) -> (r: Json)
    ensures
        r@ == telemetry_replay_tree(profile@, studio_base_url@),
{
    Json::object(
        JsonMap::new().with("schemaVersion", Json::text("tradeassembly.telemetry.replay.v1")).with(
            "ok",
            Json::Bool(true),
        ).with("profile", profile_value(profile)).with(
            "sink",
            Json::text(".local/telemetry/events.jsonl"),
        ).with("events", empty_array()).with(
            "replay_command",
            Json::text("tradeassembly telemetry replay --profile local"),
        ).with("deep_link", link_value(studio_base_url, LOCAL_TELEMETRY_DEBUG_URL)).with(
            "no_credential_custody",
            Json::Bool(true),
        ),
    )
}

/// What is known of an issuer.
pub open spec fn discovery_tree(issuer: Option<Seq<char>>) -> JsonTree {
    let name = text::trimmed(
        match issuer {
            Some(t) => t,
            None => "local-owner"@,
        },
    );
    if name == "local"@ || name == "local-owner"@ || name.len() == 0 {
        JsonTree::Object(
            map![
                "available"@ => JsonTree::Bool(true),
                "reason"@ => JsonTree::Text("ok"@),
                "issuer"@ => JsonTree::Text("local-owner"@),
                "authorization_endpoint"@ => JsonTree::Null,
                "supported_algorithms"@ => json::text_array(seq!["none"@])
            ],
        )
    } else {
        JsonTree::Object(
            map![
                "available"@ => JsonTree::Bool(false),
                "reason"@ => JsonTree::Text("issuer_unavailable"@),
                "issuer"@ => JsonTree::Text(name)
            ],
        )
    }
}

/// Tells what is known of an issuer: only the local one is.
pub fn local_issuer_discovery(issuer: &Option<String>) -> (r: Json)
    ensures
        r@ == discovery_tree(text::option_text(*issuer)),
{
    let name: String = match issuer {
        Some(t) => trim(t.as_str()),
        None => trim("local-owner"),
    };
    if same(name.as_str(), "local") || same(name.as_str(), "local-owner") || chars_of(
        name.as_str(),
    ).len() == 0 {
        let mut algorithms: Vec<String> = Vec::new();
        algorithms.push("none".to_owned());
        assert(text::texts(algorithms@) =~= seq!["none"@]);
        Json::object(
            JsonMap::new().with("available", Json::Bool(true)).with("reason", Json::text("ok")).with(
                "issuer",
                Json::text("local-owner"),
            ).with("authorization_endpoint", Json::Null).with(
                "supported_algorithms",
                Json::texts(&algorithms),
            ),
        )
    } else {
        Json::object(
            JsonMap::new().with("available", Json::Bool(false)).with(
                "reason",
                Json::text("issuer_unavailable"),
            ).with("issuer", Json::text(name.as_str())),
        )
    }
}

/// The answer to a request to start a login.
pub open spec fn login_start_tree(requested_scopes: Seq<Seq<char>>) -> JsonTree {
    JsonTree::Object(
        map![
            "configured"@ => JsonTree::Bool(false),
            "reason"@ => JsonTree::Text("login_not_configured"@),
            "instructions"@ => JsonTree::Text(
                "Local-owner mode is active; no identity login is required."@,
            ),
            "requested_scopes"@ => json::text_array(requested_scopes)
        ],
    )
}

/// Answers a request to start a login.
pub fn local_login_start(requested_scopes: &Vec<String>) -> (r: Json)
    ensures
        r@ == login_start_tree(text::texts(requested_scopes@)),
{
    Json::object(
        JsonMap::new().with("configured", Json::Bool(false)).with(
            "reason",
            Json::text("login_not_configured"),
        ).with(
            "instructions",
            Json::text("Local-owner mode is active; no identity login is required."),
        ).with("requested_scopes", Json::texts(requested_scopes)),
    )
}

/// The status of the local identity, given what became of its session.
pub open spec fn identity_status_tree(
    install_id: Seq<char>,
    credential_custody_mode: Seq<char>,
    metrics_opt_out: bool,
    outcome: Result<session::PrincipalView, Seq<char>>,
) -> JsonTree {
    JsonTree::Object(
        map![
            "mode"@ => JsonTree::Text("local"@),
            "authenticated"@ => JsonTree::Bool(outcome is Ok),
            "reason"@ => JsonTree::Text(
                match outcome {
                    Ok(_) => "ok"@,
                    Err(reason) => reason,
                },
            ),
            "principal"@ => (match outcome {
                Ok(p) => session::principal_tree(p),
                Err(_) => JsonTree::Null,
            }),
            "issuer"@ => JsonTree::Text("local-owner"@),
            "install_id"@ => JsonTree::Text(install_id),
            "install_claim_status"@ => JsonTree::Text("not_required"@),
            "metrics_opt_out"@ => JsonTree::Bool(metrics_opt_out),
            "credential_custody_mode"@ => JsonTree::Text(credential_custody_mode),
            "next_action"@ => JsonTree::Text(
                if outcome is Ok {
                    "continue_local"@
                } else {
                    "repair_identity"@
                },
            )
        ],
    )
}

/// Tells the status of the local identity.
pub fn local_identity_status(
    install_id: &str,
    credential_custody_mode: &str,
    metrics_opt_out: bool,
    request: &SessionValidationRequest,
) -> (r: Json)
    ensures
        r@ == identity_status_tree(
            install_id@,
            credential_custody_mode@,
            metrics_opt_out,
            session::session_of(*request, None, None, None),
        ),
{
    let validation = validate_session(request, &None, &None, &None);
    let principal: Json = match &validation.principal {
        Some(p) => p.value(),
        None => Json::Null,
    };
    let next: &str = if validation.authenticated {
        "continue_local"
    } else {
        "repair_identity"
    };
    Json::object(
        JsonMap::new().with("mode", Json::text("local")).with(
            "authenticated",
            Json::Bool(validation.authenticated),
        ).with("reason", Json::text(validation.reason.as_str())).with("principal", principal).with(
            "issuer",
            Json::text("local-owner"),
        ).with("install_id", Json::text(install_id)).with(
            "install_claim_status",
            Json::text("not_required"),
        ).with("metrics_opt_out", Json::Bool(metrics_opt_out)).with(
            "credential_custody_mode",
            Json::text(credential_custody_mode),
        ).with("next_action", Json::text(next)),
    )
}

/// The answer to a logout.
pub open spec fn logout_tree(provider: Seq<char>) -> JsonTree {
    if provider == "local"@ {
        JsonTree::Object(
            map![
                "logged_out"@ => JsonTree::Bool(true),
                "reason"@ => JsonTree::Text("not_applicable"@)
            ],
        )
    } else {
        JsonTree::Object(
            map![
                "logged_out"@ => JsonTree::Bool(true),
                "reason"@ => JsonTree::Text("local_state_cleared"@),
                "warning"@ => JsonTree::Text("remote_logout_not_configured"@)
            ],
        )
    }
}

/// Answers a logout.
pub fn local_logout(provider: &str) -> (r: Json)
    ensures
        r@ == logout_tree(provider@),
{
    if same(provider, "local") {
        Json::object(
            JsonMap::new().with("logged_out", Json::Bool(true)).with(
                "reason",
                Json::text("not_applicable"),
            ),
        )
    } else {
        Json::object(
            JsonMap::new().with("logged_out", Json::Bool(true)).with(
                "reason",
                Json::text("local_state_cleared"),
            ).with("warning", Json::text("remote_logout_not_configured")),
        )
    }
}

/// The state of the choice on metrics.
pub open spec fn opt_out_tree(current: bool, requested: Option<bool>, reason: Option<Seq<char>>) -> JsonTree {
    JsonTree::Object(
        map![
            "opted_out"@ => JsonTree::Bool(
                match requested {
                    Some(b) => b,
                    None => current,
                },
            ),
            "reason"@ => JsonTree::Text(
                match reason {
                    Some(t) => t,
                    None => "status"@,
                },
            ),
            "source"@ => JsonTree::Text("local"@)
        ],
    )
}

/// The state of the choice on metrics.
pub fn metrics_opt_out_state(
    current_opted_out: bool,
    requested: Option<bool>,
    reason: &Option<String>,
) -> (r: Json)
    ensures
        r@ == opt_out_tree(current_opted_out, requested, text::option_text(*reason)),
{
    let opted_out: bool = match requested {
        Some(b) => b,
        None => current_opted_out,
    };
    let why: Json = match reason {
        Some(t) => Json::text(t.as_str()),
        None => Json::text("status"),
    };
    Json::object(
        JsonMap::new().with("opted_out", Json::Bool(opted_out)).with("reason", why).with(
            "source",
            Json::text("local"),
        ),
    )
}

/// Keys of credentials, which no claim may carry.
pub open spec fn credential_keys() -> Seq<Seq<char>> {
    seq![
        "access_token"@,
        "api_key"@,
        "api_secret"@,
        "broker_credentials"@,
        "credential"@,
        "credentials"@,
        "data_credentials"@,
        "refresh_token"@,
    ]
}

/// Keys of what is private to a trader, which no claim may carry.
pub open spec fn private_keys() -> Seq<Seq<char>> {
    seq![
        "account_balance"@,
        "account_balances"@,
        "journal"@,
        "positions"@,
        "strategy_secret"@,
        "strategy_secrets"@,
        "strategy_source"@,
        "trading_strategy_secrets"@,
    ]
}

/// Why a key is forbidden, if it is.
pub open spec fn key_fault(key: Seq<char>) -> Option<Seq<char>> {
    let name = text::lowered(text::trimmed(key));
    if credential_keys().contains(name) {
        Some("credential_custody_forbidden"@)
    } else if private_keys().contains(name) {
        Some("sensitive_claim_forbidden"@)
    } else {
        None
    }
}

/// Why an entry is forbidden: its key comes before what is found in its value.
pub open spec fn entry_fault(key: Seq<char>, inner: Option<Seq<char>>) -> Option<Seq<char>> {
    match key_fault(key) {
        Some(reason) => Some(reason),
        None => inner,
    }
}

/// Whether a key has a fault and comes before all others that have one.
pub open spec fn is_first_fault(faults: Map<Seq<char>, Option<Seq<char>>>, key: Seq<char>) -> bool {
    &&& faults.dom().contains(key)
    &&& faults[key] is Some
    &&& forall|other: Seq<char>| #[trigger]
        faults.dom().contains(other) && faults[other] is Some ==> !text::before(other, key)
}

/// The fault of the first key that has one.
pub open spec fn fault_by_key(faults: Map<Seq<char>, Option<Seq<char>>>) -> Option<Seq<char>> {
    if exists|key: Seq<char>| is_first_fault(faults, key) {
        faults[choose|key: Seq<char>| is_first_fault(faults, key)]
    } else {
        None
    }
}

/// The first fault of a list.
pub open spec fn first_fault(faults: Seq<Option<Seq<char>>>) -> Option<Seq<char>>
    decreases faults.len(),
{
    if faults.len() == 0 {
        None
    } else {
        match first_fault(faults.drop_last()) {
            Some(reason) => Some(reason),
            None => faults.last(),
        }
    }
}

/// The faults of the entries of an object.
pub open spec fn entry_faults(tree: JsonTree) -> Map<Seq<char>, Option<Seq<char>>>
    decreases tree, 0nat,
{
    match tree {
        JsonTree::Object(map) => Map::new(
            |key: Seq<char>| map.dom().contains(key),
            |key: Seq<char>|
                if map.dom().contains(key) {
                    entry_fault(key, claim_fault(map[key]))
                } else {
                    None
                },
        ),
        _ => Map::empty(),
    }
}

/// The faults of the items of an array.
pub open spec fn item_faults(tree: JsonTree) -> Seq<Option<Seq<char>>>
    decreases tree, 0nat,
{
    match tree {
        JsonTree::Array(items) => Seq::new(
            items.len(),
            |i: int|
                if 0 <= i < items.len() {
                    claim_fault(items[i])
                } else {
                    None
                },
        ),
        _ => Seq::empty(),
    }
}

/// Why a claim is forbidden, if it is: the first reason that a walk finds, which takes
/// the keys of an object in ascending order and goes into each value on the way.
pub open spec fn claim_fault(tree: JsonTree) -> Option<Seq<char>>
    decreases tree, 1nat,
{
    match tree {
        JsonTree::Object(_) => fault_by_key(entry_faults(tree)),
        JsonTree::Array(_) => first_fault(item_faults(tree)),
        _ => None,
    }
}

proof fn entry_faults_are(tree: JsonTree, map: Map<Seq<char>, JsonTree>)
    requires
        tree == JsonTree::Object(map),
    ensures
        entry_faults(tree).dom() == map.dom(),
        forall|key: Seq<char>| #[trigger]
            map.dom().contains(key) ==> entry_faults(tree)[key] == entry_fault(
                key,
                claim_fault(map[key]),
            ),
        claim_fault(tree) == fault_by_key(entry_faults(tree)),
{
    reveal_with_fuel(entry_faults, 2);
    reveal_with_fuel(claim_fault, 2);
    assert(entry_faults(tree).dom() =~= map.dom());
}

proof fn item_faults_are(tree: JsonTree, items: Seq<JsonTree>)
    requires
        tree == JsonTree::Array(items),
    ensures
        item_faults(tree).len() == items.len(),
        forall|i: int| 0 <= i < items.len() ==> #[trigger] item_faults(tree)[i] == claim_fault(items[i]),
        claim_fault(tree) == first_fault(item_faults(tree)),
{
    reveal_with_fuel(item_faults, 2);
    reveal_with_fuel(claim_fault, 2);
}

fn find_key_fault(key: &str) -> (r: Option<&'static str>)
    ensures
        match r {
            Some(reason) => key_fault(key@) == Some(reason@),
            None => key_fault(key@) is None,
        },
{
    let cut = trim(key);
    let name = to_lower(cut.as_str());
    let name: &str = name.as_str();
    let credentials: Vec<&'static str> = vec![
        "access_token",
        "api_key",
        "api_secret",
        "broker_credentials",
        "credential",
        "credentials",
        "data_credentials",
        "refresh_token",
    ];
    let private: Vec<&'static str> = vec![
        "account_balance",
        "account_balances",
        "journal",
        "positions",
        "strategy_secret",
        "strategy_secrets",
        "strategy_source",
        "trading_strategy_secrets",
    ];
    proof {
        assert(credentials@.map_values(|t: &'static str| t@) =~= credential_keys());
        assert(private@.map_values(|t: &'static str| t@) =~= private_keys());
    }
    if is_one_of(name, &credentials) {
        Some("credential_custody_forbidden")
    } else if is_one_of(name, &private) {
        Some("sensitive_claim_forbidden")
    } else {
        None
    }
}

fn is_one_of(name: &str, list: &Vec<&'static str>) -> (r: bool)
    ensures
        r == list@.map_values(|t: &'static str| t@).contains(name@),
{
    let ghost shown = list@.map_values(|t: &'static str| t@);
    let mut i: usize = 0;
    while i < list.len()
        invariant
            i <= list.len(),
            shown == list@.map_values(|t: &'static str| t@),
            forall|j: int| 0 <= j < i ==> #[trigger] shown[j] != name@,
        decreases list.len() - i,
    {
        assert(shown[i as int] == list@[i as int]@);
        if same(list[i], name) {
            return true;
        }
        i += 1;
    }
    false
}

proof fn first_fault_is(faults: Map<Seq<char>, Option<Seq<char>>>, key: Seq<char>)
    requires
        is_first_fault(faults, key),
    ensures
        fault_by_key(faults) == faults[key],
{
    let chosen = choose|k: Seq<char>| is_first_fault(faults, k);
    assert(is_first_fault(faults, chosen));
    text::before_total(chosen, key);
    assert(!text::before(chosen, key));
    assert(!text::before(key, chosen));
}

proof fn fault_of_list(faults: Seq<Option<Seq<char>>>, i: int)
    requires
        0 <= i < faults.len(),
        first_fault(faults.take(i)) is None,
        faults[i] is Some,
    ensures
        first_fault(faults) == faults[i],
    decreases faults.len(),
{
    let shorter = faults.drop_last();
    if i == faults.len() - 1 {
        assert(faults.take(i) =~= shorter);
    } else {
        assert(shorter.take(i) =~= faults.take(i));
        fault_of_list(shorter, i);
    }
}

/// Finds why a claim is forbidden, if it is.
pub fn forbidden_claim_reason(value: &Json) -> (r: Option<&'static str>)
    ensures
        match r {
            Some(reason) => claim_fault(value@) == Some(reason@),
            None => claim_fault(value@) is None,
        },
    decreases value,
{
    match value {
        Json::Object(map) => {
            let ghost tree = value@;
            let ghost faults = entry_faults(tree);
            proof {
                entry_faults_are(tree, map@);
            }
            let mut best: usize = 0;
            let mut found: Option<&'static str> = None;
            let mut i: usize = 0;
            while i < map.entries.len()
                invariant
                    i <= map.entries.len(),
                    value matches Json::Object(own) && own == map,
                    tree == value@,
                    tree == JsonTree::Object(map@),
                    faults == entry_faults(tree),
                    faults.dom() == map@.dom(),
                    forall|key: Seq<char>| #[trigger]
                        map@.dom().contains(key) ==> faults[key] == entry_fault(
                            key,
                            claim_fault(map@[key]),
                        ),
                    found is None ==> forall|j: int|
                        0 <= j < i ==> faults[(#[trigger] map.entries@[j]).0@] is None,
                    found matches Some(reason) ==> {
                        &&& best < i
                        &&& map@.dom().contains(map.entries@[best as int].0@)
                        &&& faults[map.entries@[best as int].0@] == Some(reason@)
                        &&& forall|j: int|
                            0 <= j < i && faults[(#[trigger] map.entries@[j]).0@] is Some
                                ==> !text::before(map.entries@[j].0@, map.entries@[best as int].0@)
                    },
                decreases map.entries.len() - i,
            {
                let key: &str = map.entries[i].0.as_str();
                proof {
                    json::entry_has_key(map.entries@, i as int);
                }
                let own = find_key_fault(key);
                let reason: Option<&'static str> = match own {
                    Some(why) => Some(why),
                    None => match map.find(key) {
                        Some(at) => forbidden_claim_reason(&map.entries[at].1),
                        None => None,
                    },
                };
                assert(map@.dom().contains(key@));
                if let Some(why) = reason {
                    let better: bool = match found {
                        Some(_) => is_before(key, map.entries[best].0.as_str()),
                        None => true,
                    };
                    if better {
                        proof {
                            text::before_irreflexive(key@);
                            if found is Some {
                                let old_key = map.entries@[best as int].0@;
                                assert forall|j: int|
                                    0 <= j < i + 1 && faults[(#[trigger] map.entries@[j]).0@] is Some
                                implies !text::before(map.entries@[j].0@, key@) by {
                                    if j < i && text::before(map.entries@[j].0@, key@) {
                                        text::before_transitive(map.entries@[j].0@, key@, old_key);
                                    }
                                }
                            }
                        }
                        best = i;
                        found = Some(why);
                    }
                }
                i += 1;
            }
            proof {
                if found is Some {
                    let key = map.entries@[best as int].0@;
                    assert forall|other: Seq<char>| #[trigger]
                        faults.dom().contains(other) && faults[other] is Some implies !text::before(
                        other,
                        key,
                    ) by {
                        json::key_has_entry(map.entries@, other);
                    }
                    assert(is_first_fault(faults, key));
                    first_fault_is(faults, key);
                } else {
                    assert forall|key: Seq<char>| !is_first_fault(faults, key) by {
                        if faults.dom().contains(key) {
                            json::key_has_entry(map.entries@, key);
                        }
                    }
                }
            }
            found
        },
        Json::Array(items) => {
            let ghost tree = value@;
            let ghost faults = item_faults(tree);
            let mut i: usize = 0;
            proof {
                json::array_view_members(items@);
                item_faults_are(tree, json::array_view(items@));
                assert(faults.take(0) =~= Seq::empty());
            }
            while i < items.len()
                invariant
                    i <= items.len(),
                    value matches Json::Array(own) && own == items,
                    tree == value@,
                    faults == item_faults(tree),
                    faults.len() == items@.len(),
                    claim_fault(tree) == first_fault(faults),
                    json::array_view(items@) == items@.map_values(|item: Json| item@),
                    forall|j: int|
                        0 <= j < items@.len() ==> #[trigger] faults[j] == claim_fault(
                            json::array_view(items@)[j],
                        ),
                    first_fault(faults.take(i as int)) is None,
                decreases items.len() - i,
            {
                let reason = forbidden_claim_reason(&items[i]);
                assert(json::array_view(items@)[i as int] == items@[i as int]@);
                if reason.is_some() {
                    proof {
                        fault_of_list(faults, i as int);
                    }
                    return reason;
                }
                proof {
                    assert(faults.take(i + 1).drop_last() =~= faults.take(i as int));
                    assert(faults.take(i + 1).last() == faults[i as int]);
                }
                i += 1;
            }
            assert(faults.take(faults.len() as int) =~= faults);
            None
        },
        _ => None,
    }
}

/// A text field without the space around it, or nothing.
pub open spec fn claim_text(claim: JsonTree, key: Seq<char>) -> Seq<char> {
    match json::text_member(claim, key) {
        Some(t) => text::trimmed(t),
        None => Seq::empty(),
    }
}

fn read_claim_text(claim: &Json, key: &str) -> (r: String)
    ensures
        r@ == claim_text(claim@, key@),
{
    match claim.text_field(key) {
        Some(t) => trim(t.as_str()),
        None => String::new(),
    }
}

/// Why an install claim is not accepted, if it is not.
pub open spec fn install_claim_fault(claim: JsonTree, expected_install_id: Seq<char>) -> Option<
    Seq<char>,
> {
    if !(claim matches JsonTree::Object(map) && map != Map::<Seq<char>, JsonTree>::empty()) {
        Some("missing_claim"@)
    } else {
        match claim_fault(claim) {
            Some(reason) => Some(reason),
            None => if claim_text(claim, "install_id"@) != expected_install_id {
                Some("install_id_mismatch"@)
            } else if claim_text(claim, "issuer"@) != "local-owner"@ {
                Some("claim_verifier_not_configured"@)
            } else if claim_text(claim, "subject"@).len() == 0 && claim_text(
                claim,
                "organization_id"@,
            ).len() == 0 {
                Some("subject_missing"@)
            } else {
                None
            },
        }
    }
}

/// The answer to an install claim.
pub open spec fn claim_result_tree(fault: Option<Seq<char>>, claim: JsonTree) -> JsonTree {
    JsonTree::Object(
        map![
            "valid"@ => JsonTree::Bool(fault is None),
            "reason"@ => JsonTree::Text(
                match fault {
                    Some(reason) => reason,
                    None => "ok"@,
                },
            ),
            "claim"@ => (if fault is None {
                claim
            } else {
                JsonTree::Null
            })
        ],
    )
}

fn install_claim_result(valid: bool, reason: &str, claim: Json) -> (r: Json)
    ensures
        r@ == JsonTree::Object(
            map![
                "valid"@ => JsonTree::Bool(valid),
                "reason"@ => JsonTree::Text(reason@),
                "claim"@ => claim@
            ],
        ),
{
    Json::object(
        JsonMap::new().with("valid", Json::Bool(valid)).with("reason", Json::text(reason)).with(
            "claim",
            claim,
        ),
    )
}

/// Verifies an install claim. A claim that carries a credential, or anything that is
/// private to a trader, is refused and not repeated in the answer.
pub fn verify_install_claim(raw_claim: &Json, expected_install_id: &str) -> (r: Json)
    ensures
        r@ == claim_result_tree(
            install_claim_fault(raw_claim@, expected_install_id@),
            raw_claim@,
        ),
{
    let given: bool = match raw_claim {
        Json::Object(map) => {
            let some: bool = map.entries.len() > 0;
            proof {
                if some {
                    json::entry_has_key(map.entries@, 0);
                    assert(map@.dom().contains(map.entries@[0].0@));
                    assert(map@ != Map::<Seq<char>, JsonTree>::empty());
                } else {
                    assert(map@ =~= Map::<Seq<char>, JsonTree>::empty());
                }
            }
            some
        },
        _ => false,
    };
    if !given {
        return install_claim_result(false, "missing_claim", Json::Null);
    }
    if let Some(reason) = forbidden_claim_reason(raw_claim) {
        return install_claim_result(false, reason, Json::Null);
    }
    let install_id = read_claim_text(raw_claim, "install_id");
    if !same(install_id.as_str(), expected_install_id) {
        return install_claim_result(false, "install_id_mismatch", Json::Null);
    }
    let issuer = read_claim_text(raw_claim, "issuer");
    if !same(issuer.as_str(), "local-owner") {
        return install_claim_result(false, "claim_verifier_not_configured", Json::Null);
    }
    let subject = read_claim_text(raw_claim, "subject");
    let organization = read_claim_text(raw_claim, "organization_id");
    if chars_of(subject.as_str()).len() == 0 && chars_of(organization.as_str()).len() == 0 {
        return install_claim_result(false, "subject_missing", Json::Null);
    }
    install_claim_result(true, "ok", raw_claim.copy())
}

/// An accepted claim carries no forbidden key, neither itself nor inside its values.
pub proof fn accepted_claim_is_clean(
    map: Map<Seq<char>, JsonTree>,
    expected_install_id: Seq<char>,
    key: Seq<char>,
)
    requires
        map.dom().finite(),
        install_claim_fault(JsonTree::Object(map), expected_install_id) is None,
        map.dom().contains(key),
    ensures
        key_fault(key) is None,
        claim_fault(map[key]) is None,
{
    let claim = JsonTree::Object(map);
    entry_faults_are(claim, map);
    let faults = entry_faults(claim);
    if faults[key] is Some {
        some_key_is_first(faults, key);
    }
}

/// Where a key has a fault, some key is the first to have one.
proof fn some_key_is_first(faults: Map<Seq<char>, Option<Seq<char>>>, key: Seq<char>)
    requires
        faults.dom().finite(),
        faults.dom().contains(key),
        faults[key] is Some,
    ensures
        fault_by_key(faults) is Some,
{
    let faulty = faults.dom().filter(|k: Seq<char>| faults[k] is Some);
    assert(faulty.finite()) by {
        vstd::set_lib::lemma_len_subset(faulty, faults.dom());
    }
    text_map::in_order_lists_members(faulty);
    let s = text_map::in_order(faulty);
    assert(faulty.contains(key));
    assert(s.contains(key));
    let first = s[0];
    assert(s.contains(first));
    assert forall|other: Seq<char>| #[trigger]
        faults.dom().contains(other) && faults[other] is Some implies !text::before(other, first) by {
        assert(faulty.contains(other));
        assert(s.contains(other));
        let j = s.index_of(other);
        text::before_irreflexive(first);
        if j > 0 && text::before(other, first) {
            assert(text::before(s[0], s[j]));
            text::before_transitive(first, other, first);
        }
    }
    assert(is_first_fault(faults, first));
    first_fault_is(faults, first);
}

} // verus!

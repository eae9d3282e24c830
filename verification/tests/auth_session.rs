use tradeassembly_runtime::ai::clean_json_content;
use tradeassembly_runtime::auth::account::{
    deep_link, local_account_login, local_account_status, local_identity_status,
    local_install_claim, local_issuer_discovery, local_login_start, local_logout,
    local_telemetry_emit, local_telemetry_opt_out, local_telemetry_replay, metrics_opt_out_state,
    normalize_profile, verify_install_claim,
};
use tradeassembly_runtime::auth::authz::{
    authorize_local_owner, can_decide, capability_status, effective_entitlements,
    wildcard_matches, AuthzActor, AuthzRequest,
};
use tradeassembly_runtime::auth::session::{
    cognito_session_validate, kratos_session_validate, local_session_validate, validate_session,
    IdentityProviderResponse, SessionValidationRequest,
};
use tradeassembly_runtime::json::Json;

fn parse(text: &str) -> Json {
    Json::Object(clean_json_content(text).expect("valid text"))
}

fn owned(value: &str) -> Option<String> {
    Some(value.to_string())
}

fn flag(value: &Json, key: &str) -> bool {
    value.field(key).expect("a field").equals(&Json::Bool(true))
}

fn asked(capability: &str) -> AuthzRequest {
    AuthzRequest {
        capability: capability.to_string(),
        ..AuthzRequest::default()
    }
}

#[test]
fn local_owner_authz_allows_non_commercial_and_denies_hosted_surfaces() {
    let allowed = authorize_local_owner(&asked("strategy.create"));
    let denied = authorize_local_owner(&asked("billing.checkout"));
    let request = AuthzRequest {
        capability: "custom.capability".to_string(),
        actor: AuthzActor {
            explicit_capabilities: vec!["custom.*".to_string()],
            ..AuthzActor::default()
        },
        ..AuthzRequest::default()
    };
    assert!(can_decide(&request));
    let explicit = authorize_local_owner(&request);

    assert!(allowed.allowed);
    assert_eq!(allowed.reason, "allowed_local_owner");
    assert!(allowed
        .evidence
        .get("principal_id")
        .expect("principal")
        .equals(&Json::text("local-owner")));
    assert!(!denied.allowed);
    assert_eq!(denied.reason, "commercial_capability_denied");
    assert!(denied
        .evidence
        .get("denied_by")
        .expect("denied_by")
        .equals(&Json::text("billing.checkout")));
    assert!(explicit.allowed);
}

#[test]
fn local_owner_authz_requires_a_capability() {
    let decision = authorize_local_owner(&asked("   "));

    assert!(!decision.allowed);
    assert_eq!(decision.reason, "capability_required");
}

#[test]
fn wildcards_match_their_prefixes_and_endings() {
    assert!(wildcard_matches("custom.capability", "custom.*"));
    assert!(wildcard_matches("anything", "*"));
    assert!(!wildcard_matches("other.capability", "custom.*"));
    assert!(wildcard_matches("same", "same"));
}

#[test]
fn local_session_validation_preserves_source_shaped_metadata() {
    let result = local_session_validate(&SessionValidationRequest {
        metadata: parse(
            r#"{"subject": " owner-1 ", "email": "owner@example.test", "email_verified": "true",
                "name": "Owner", "picture": "https://example.test/avatar.png"}"#,
        ),
        ..SessionValidationRequest::default()
    });

    assert!(result.authenticated);
    assert_eq!(result.reason, "ok");
    let principal = result.principal.expect("principal");
    assert_eq!(principal.provider, "local");
    assert_eq!(principal.subject, "owner-1");
    assert_eq!(principal.email.as_deref(), Some("owner@example.test"));
    assert_eq!(principal.email_verified, Some(true));
    assert_eq!(principal.name.as_deref(), Some("Owner"));
}

#[test]
fn local_session_validation_fails_closed_when_subject_is_blank() {
    let result = local_session_validate(&SessionValidationRequest {
        metadata: parse(r#"{"subject": "   "}"#),
        ..SessionValidationRequest::default()
    });

    assert!(!result.authenticated);
    assert_eq!(result.reason, "subject_missing");
    assert!(result.principal.is_none());
}

#[test]
fn delegated_session_validation_routes_local_and_fails_unknown() {
    let local = validate_session(&SessionValidationRequest::default(), &None, &None, &None);
    let unknown = validate_session(
        &SessionValidationRequest {
            provider: "github".to_string(),
            ..SessionValidationRequest::default()
        },
        &None,
        &None,
        &None,
    );

    assert!(local.authenticated);
    assert!(!unknown.authenticated);
    assert_eq!(unknown.reason, "unsupported_provider");
}

#[test]
fn kratos_validator_fails_closed_without_url_or_token() {
    let missing_token = kratos_session_validate(
        &SessionValidationRequest {
            provider: "kratos".to_string(),
            ..SessionValidationRequest::default()
        },
        &owned("https://kratos.example"),
        &None,
    );
    let missing_url = kratos_session_validate(
        &SessionValidationRequest {
            provider: "kratos".to_string(),
            session_token: owned("token"),
            ..SessionValidationRequest::default()
        },
        &None,
        &None,
    );

    assert_eq!(missing_token.reason, "missing_session_token");
    assert_eq!(missing_url.reason, "validator_url_missing");
}

#[test]
fn kratos_validator_accepts_self_hosted_whoami_response() {
    let result = validate_session(
        &SessionValidationRequest {
            provider: "kratos".to_string(),
            session_token: owned("session-token"),
            ..SessionValidationRequest::default()
        },
        &owned("https://kratos.example"),
        &None,
        &Some(IdentityProviderResponse {
            status_code: 200,
            payload: parse(
                r#"{"identity": {"id": "subject-1", "traits": {"email": "user@example.test",
                    "email_verified": "true", "name": "User"}}}"#,
            ),
        }),
    );

    assert!(result.authenticated);
    let principal = result.principal.expect("principal");
    assert_eq!(principal.provider, "kratos");
    assert_eq!(principal.subject, "subject-1");
    assert_eq!(principal.email.as_deref(), Some("user@example.test"));
    assert_eq!(principal.email_verified, Some(true));
}

#[test]
fn cognito_validator_accepts_self_hosted_userinfo_response() {
    let result = validate_session(
        &SessionValidationRequest {
            provider: "cognito".to_string(),
            access_token: owned("access-token"),
            ..SessionValidationRequest::default()
        },
        &None,
        &owned("https://cognito.example/oauth2/userInfo"),
        &Some(IdentityProviderResponse {
            status_code: 200,
            payload: parse(
                r#"{"sub": "subject-2", "email": "cognito@example.test", "email_verified": false}"#,
            ),
        }),
    );

    assert!(result.authenticated);
    let principal = result.principal.expect("principal");
    assert_eq!(principal.provider, "cognito");
    assert_eq!(principal.subject, "subject-2");
    assert_eq!(principal.email.as_deref(), Some("cognito@example.test"));
    assert_eq!(principal.email_verified, Some(false));
}

#[test]
fn a_refusal_of_the_identity_provider_is_no_session() {
    let request = SessionValidationRequest {
        provider: "cognito".to_string(),
        access_token: owned("access-token"),
        ..SessionValidationRequest::default()
    };
    let refused = cognito_session_validate(
        &request,
        &owned("https://cognito.example/oauth2/userInfo"),
        &Some(IdentityProviderResponse {
            status_code: 401,
            payload: parse("{}"),
        }),
    );
    assert!(!refused.authenticated);
    assert!(refused.principal.is_none());
}

#[test]
fn local_identity_client_exposes_offline_identity_contract() {
    let discovery = local_issuer_discovery(&None);
    let login = local_login_start(&vec![]);
    let session = validate_session(&SessionValidationRequest::default(), &None, &None, &None);
    let status = local_identity_status(
        "install-local",
        "local-file",
        false,
        &SessionValidationRequest::default(),
    );
    let logout = local_logout("local");

    assert!(flag(&discovery, "available"));
    assert!(discovery.field_is("issuer", "local-owner"));
    assert!(discovery
        .field("authorization_endpoint")
        .expect("endpoint")
        .equals(&Json::Null));
    assert!(!flag(&login, "configured"));
    assert!(login.field_is("reason", "login_not_configured"));
    assert!(session.authenticated);
    assert!(status.field_is("mode", "local"));
    assert!(flag(&status, "authenticated"));
    assert!(status.field_is("install_id", "install-local"));
    assert!(status.field_is("credential_custody_mode", "local-file"));
    assert!(status.field_is("next_action", "continue_local"));
    assert!(flag(&logout, "logged_out"));
    assert!(logout.field_is("reason", "not_applicable"));
}

#[test]
fn identity_client_persists_local_metrics_opt_out_state_shape() {
    let initial = metrics_opt_out_state(false, None, &None);
    let updated = metrics_opt_out_state(false, Some(true), &owned("user_request"));
    let status = local_identity_status(
        "local-install",
        "local",
        flag(&updated, "opted_out"),
        &SessionValidationRequest::default(),
    );

    assert!(!flag(&initial, "opted_out"));
    assert!(flag(&updated, "opted_out"));
    assert!(updated.field_is("reason", "user_request"));
    assert!(flag(&status, "metrics_opt_out"));
}

#[test]
fn identity_client_rejects_sensitive_install_claim_fields() {
    let result = verify_install_claim(
        &parse(
            r#"{"install_id": "install-local", "issuer": "local-owner", "subject": "local-owner",
                "broker_credentials": {"api_key": "redacted"}}"#,
        ),
        "install-local",
    );

    assert!(!flag(&result, "valid"));
    assert!(result.field_is("reason", "credential_custody_forbidden"));
}

#[test]
fn identity_client_verifies_local_unsigned_claim_but_not_hosted_claim() {
    let local = verify_install_claim(
        &parse(
            r#"{"install_id": "install-local", "issuer": "local-owner", "subject": "local-owner"}"#,
        ),
        "install-local",
    );
    let hosted = verify_install_claim(
        &parse(
            r#"{"install_id": "install-local", "issuer": "tradeassembly-org-idp", "subject": "user-1"}"#,
        ),
        "install-local",
    );

    assert!(flag(&local, "valid"));
    assert!(local.field("claim").expect("claim").field_is("issuer", "local-owner"));
    assert!(!flag(&hosted, "valid"));
    assert!(hosted.field_is("reason", "claim_verifier_not_configured"));
}

#[test]
fn effective_entitlements_report_local_owner_status() {
    let entitlements = effective_entitlements(None, &vec![]);
    let status = capability_status(&vec![
        "research.backtest.run".to_string(),
        "billing.checkout".to_string(),
    ]);

    assert!(entitlements.field_is("plan", "local_full"));
    assert!(entitlements
        .field("limits")
        .expect("limits")
        .field_is("evaluation_frequency_tier", "high"));
    let workspace = entitlements.field("workspace").expect("workspace");
    assert!(flag(workspace, "strategy.create"));
    assert!(flag(workspace, "commercialCapabilitiesDenied"));
    assert!(status
        .get("research.backtest.run")
        .expect("status")
        .equals(&Json::Bool(true)));
    assert!(status
        .get("billing.checkout")
        .expect("status")
        .equals(&Json::Bool(false)));
}

#[test]
fn local_accounts_link_to_the_studio() {
    assert_eq!(deep_link("http://studio/", "/account"), "http://studio/account");
    assert_eq!(normalize_profile(""), normalize_profile("  "));
    let base = "http://studio";
    for shown in [
        local_account_status("p", base),
        local_account_login("p", base),
        local_install_claim("p", &None, base),
        local_telemetry_emit("p", "run", &None, base),
        local_telemetry_opt_out("p", true, base),
        local_telemetry_replay("p", base),
    ] {
        assert!(format!("{shown:?}").contains(base));
    }
}

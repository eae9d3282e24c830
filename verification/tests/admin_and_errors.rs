use tradeassembly_runtime::admin_control::{AdminApi, ControlApp, LocalRuntime, LEGAL_BOUNDARY};
use tradeassembly_runtime::ai::clean_json_content;
use tradeassembly_runtime::api_errors::{ApiErrorResponse, ErrorCode};
use tradeassembly_runtime::json::Json;

fn parse(text: &str) -> Json {
    let wrapped = format!("{{\"value\":{text}}}");
    let map = clean_json_content(&wrapped).expect("valid text");
    map.get("value").expect("a value").copy()
}

fn at<'a>(value: &'a Json, path: &[&str]) -> &'a Json {
    let mut current = value;
    for key in path {
        current = current.field(key).expect("a field");
    }
    current
}

#[test]
fn admin_api_exposes_local_runtime_status() {
    let mut runtime = LocalRuntime::default();
    runtime.seed_btc_exit_demo();
    let admin = AdminApi::new(runtime);

    let health = admin.health();
    let status = admin.status();
    let providers = admin.providers();

    assert!(at(&health, &["status"]).equals(&Json::Int(200)));
    assert!(at(&health, &["body", "surface"]).equals(&Json::text("local-admin")));
    assert!(at(&status, &["body", "readiness", "ok"]).equals(&Json::Bool(true)));
    assert!(at(&status, &["body", "counts", "strategies"]).equals(&Json::Int(1)));
    assert!(at(&status, &["body", "legalBoundary"]).equals(&Json::text(
        "TradeAssembly never tells users what to trade, when to trade, or how much to trade."
    )));
    assert!(at(&providers, &["body", "credentialStatus", "provider_ref"])
        .equals(&Json::text("plugin-instance")));
}

#[test]
fn control_app_mounts_admin_and_self_hosted_oauth() {
    let service = LocalRuntime::default();
    let control = ControlApp::new(service, vec!["example-provider".to_string()]);

    let root_health = control.health();
    let admin_health = control.admin().health();
    let oauth_health = control.oauth_health();
    let oauth_authorize = control.oauth_authorize(
        "example-provider",
        "http://localhost/callback",
        "owner",
        true,
    );

    assert!(at(&root_health, &["body", "surface"]).equals(&Json::text("local-control")));
    assert!(at(&admin_health, &["body", "surface"]).equals(&Json::text("local-admin")));
    assert!(at(&oauth_health, &["body", "mode"]).equals(&Json::text("local-self-hosted")));
    assert!(at(&oauth_authorize, &["status"]).equals(&Json::Int(200)));
    assert!(
        at(&oauth_authorize, &["body", "managed_app_credentials"]).equals(&Json::Bool(false))
    );
}

#[test]
fn authorization_of_an_unlisted_provider_is_refused() {
    let control = ControlApp::new(LocalRuntime::default(), vec!["example-provider".to_string()]);
    let refused = control.oauth_authorize("other", "http://localhost/callback", "owner", true);
    assert!(!at(&refused, &["status"]).equals(&Json::Int(200)));
    assert!(LEGAL_BOUNDARY.starts_with("TradeAssembly never tells users"));
}

#[test]
fn api_runtime_errors_are_machine_readable_and_fail_closed() {
    let response = ApiErrorResponse::tradeassembly_error(
        ErrorCode::StaleMarketData,
        "snapshot is stale",
        parse(r#"{"symbol": "BTC/USD"}"#),
    );

    assert_eq!(response.status_code, 409);
    assert!(response.detail.equals(&response.error.value()));
    assert_eq!(response.error.code, "stale_market_data");
    assert!(!response.error.safe_to_continue);
    assert!(response.error.details.equals(&parse(r#"{"symbol": "BTC/USD"}"#)));
}

#[test]
fn api_broker_errors_keep_retry_and_provider_context() {
    let response = ApiErrorResponse::broker_unavailable(
        "alpaca unavailable",
        parse(r#"{"provider_ref": "alpaca-paper"}"#),
    );

    assert_eq!(response.status_code, 502);
    assert_eq!(response.error.code, "provider_unavailable");
    assert!(response.error.retryable);
    assert!(response
        .error
        .details
        .equals(&parse(r#"{"provider_ref": "alpaca-paper"}"#)));
}

#[test]
fn api_http_exception_handler_preserves_legacy_detail_and_adds_error() {
    let response = ApiErrorResponse::http_exception(404, "strategy_not_found");

    assert_eq!(response.status_code, 404);
    assert!(response.detail.equals(&Json::text("strategy_not_found")));
    assert_eq!(response.error.code, "strategy_not_found");
    assert!(response.error.safe_to_continue);
}

#[test]
fn api_not_found_errors_are_structured() {
    let response = ApiErrorResponse::http_exception(404, "Not Found");

    assert_eq!(response.status_code, 404);
    assert!(response.detail.equals(&Json::text("Not Found")));
    assert_eq!(response.error.code, "not_found");
    assert!(response.error.safe_to_continue);
}

#[test]
fn api_request_validation_errors_add_stable_error_object() {
    let detail = parse(r#"[{"loc": ["body", "symbols"], "msg": "expected list"}]"#);
    let response = ApiErrorResponse::validation_failed(detail.copy());

    assert_eq!(response.status_code, 400);
    assert!(response.detail.equals(&detail));
    assert_eq!(response.error.code, "validation_failed");
    assert!(response.error.safe_to_continue);
}

#[test]
fn every_error_code_has_its_name() {
    let names: Vec<&str> = vec![
        ErrorCode::StaleMarketData.as_str(),
        ErrorCode::ProviderUnavailable.as_str(),
        ErrorCode::StrategyNotFound.as_str(),
        ErrorCode::NotFound.as_str(),
        ErrorCode::ValidationFailed.as_str(),
    ];
    assert_eq!(
        names,
        vec![
            "stale_market_data",
            "provider_unavailable",
            "strategy_not_found",
            "not_found",
            "validation_failed"
        ]
    );
}

use tradeassembly_runtime::ai::{
    chat_request, clean_json_content, deterministic_strategy_draft, extract_json_content,
    first_choice, load_ai_gateway_config_from, read_completion, refused_by_gateway,
    strategy_draft_payload, take_object, AiGatewayConfig,
};
use tradeassembly_runtime::json::Json;
use tradeassembly_runtime::text_map::TextMap;

fn env(entries: &[(&str, &str)]) -> TextMap<String> {
    let mut map = TextMap::new();
    for (key, value) in entries {
        map.insert(key, value.to_string());
    }
    map
}

fn parse(text: &str) -> Json {
    Json::Object(clean_json_content(text).expect("valid text"))
}

fn stub() -> AiGatewayConfig {
    AiGatewayConfig {
        provider: "stub".to_string(),
        base_url: "".to_string(),
        api_key: "".to_string(),
        model: "tradeassembly-local-draft".to_string(),
        timeout_seconds: 30,
    }
}

fn gateway() -> AiGatewayConfig {
    load_ai_gateway_config_from(&env(&[
        ("TRADEASSEMBLY_AI_PROVIDER", "openai-compatible"),
        ("TRADEASSEMBLY_AI_BASE_URL", "http://localhost:11434"),
        ("TRADEASSEMBLY_AI_API_KEY", "local-key"),
        ("TRADEASSEMBLY_AI_MODEL", "local-model"),
    ]))
}

#[test]
fn ai_gateway_config_uses_tradeassembly_env_and_normalizes_v1_base_url() {
    let config = gateway();

    assert_eq!(config.provider, "openai-compatible");
    assert_eq!(config.base_url, "http://localhost:11434/v1");
    assert_eq!(config.api_key, "local-key");
    assert_eq!(config.model, "local-model");
    assert_eq!(config.timeout_seconds, 30);
}

#[test]
fn deterministic_strategy_draft_preserves_non_advisory_stub_shape() {
    let draft = deterministic_strategy_draft("Draft a BTC paper test", "crypto", "intraday");

    assert!(draft.field_is("symbol", "BTC/USD"));
    assert!(draft.field_is("provider_ref", "local-data"));
    assert!(draft.field_is("entry_rule", "user_defined_btc_momentum_entry"));
    assert!(draft
        .field("risk")
        .and_then(|risk| risk.field("max_notional"))
        .expect("a bound")
        .equals(&Json::Int(25)));
    match draft.field("notes") {
        Some(Json::Array(notes)) => assert!(notes[0]
            .as_text()
            .expect("note")
            .contains("User owns all market selection")),
        _ => panic!("no notes"),
    }
}

#[test]
fn strategy_draft_payload_adds_source_and_model_for_runtime_facade() {
    let payload = strategy_draft_payload(
        &stub(),
        "Draft a local BTC paper test",
        "crypto",
        "intraday",
        Err("not asked".to_string()),
    );

    assert!(payload.field_is("source", "stub"));
    assert!(payload.field_is("model", "deterministic-stub"));
    assert!(payload.field_is("entry_rule", "user_defined_btc_momentum_entry"));
}

#[test]
fn clean_json_content_accepts_plain_and_fenced_json_objects() {
    let plain = clean_json_content(r#"{"symbol":"SPY","asset_class":"equity"}"#).expect("plain");
    assert!(plain.get("symbol").expect("symbol").equals(&Json::text("SPY")));
    let fenced = clean_json_content("```json\n{\"symbol\":\"BTC/USD\"}\n```").expect("fenced");
    assert!(fenced.get("symbol").expect("symbol").equals(&Json::text("BTC/USD")));
}

#[test]
fn content_that_is_no_object_is_refused() {
    assert!(clean_json_content("[1, 2]").is_err());
    assert!(clean_json_content("not json").is_err());
    assert!(take_object(Ok(Json::Null)).is_err());
    let refused = take_object(Err("expected value".to_string())).expect_err("refused");
    assert!(refused.contains("expected value"));
}

#[test]
fn the_first_choice_of_a_completion_is_taken() {
    let payload = parse(r#"{"choices": [{"message": {"content": "{\"symbol\": \"SPY\"}"}}]}"#);
    assert_eq!(first_choice(&payload).expect("a choice"), "{\"symbol\": \"SPY\"}");
    let object = extract_json_content(&payload).expect("an object");
    assert!(object.get("symbol").expect("symbol").equals(&Json::text("SPY")));
    assert!(first_choice(&parse(r#"{"choices": []}"#)).is_err());
}

#[test]
fn a_completion_is_drafted_with_the_model_of_the_gateway() {
    let config = gateway();
    let request = chat_request(&config, "brief", "crypto", "intraday").expect("a request");
    assert_eq!(request.url, "http://localhost:11434/v1/chat/completions");
    assert_eq!(request.authorization, Some("Bearer local-key".to_string()));
    assert!(request.body.field_is("model", "local-model"));

    let object = clean_json_content(r#"{"symbol": "SPY"}"#).expect("an object");
    let payload = strategy_draft_payload(&config, "brief", "crypto", "intraday", Ok(object));
    assert!(payload.field_is("model", "local-model"));
    assert!(payload.field_is("symbol", "SPY"));
    assert!(refused_by_gateway("503").contains("503"));
}

#[test]
fn the_body_of_an_answer_is_read() {
    let read = |body: &[u8]| read_completion(&body.to_vec());
    let object = read(br#"{"choices": [{"message": {"content": "{\"symbol\": \"SPY\"}"}}]}"#)
        .expect("an object");
    assert!(object.get("symbol").expect("symbol").equals(&Json::text("SPY")));
    let said = |body: &[u8]| read(body).err().expect("no object");
    assert_eq!(said(b"<html>"), "error decoding response body");
    assert_eq!(said(b"\xff"), "error decoding response body");
    assert_eq!(said(b"{}"), "ai response did not contain choices");
    assert_eq!(
        said(br#"{"choices": [{"message": {"content": "[]"}}]}"#),
        "ai response content was not a JSON object"
    );
}

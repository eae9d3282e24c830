use tradeassembly_runtime::backtest_contracts::canonical_hash;
use tradeassembly_runtime::backtest_report::csv::csv_field;
use tradeassembly_runtime::backtest_report::details::{
    instrument_details_from_content, AssetClass, BarValues, ObservationData, OptionContractValues,
    OptionGreeks, ReportObservation,
};
use tradeassembly_runtime::backtest_report::projection::strategy_execution_summary;
use tradeassembly_runtime::json::{Json, JsonMap};

fn spelled(number: &str) -> Json {
    Json::Real(number.to_string())
}

fn object(entries: Vec<(&str, Json)>) -> Json {
    let mut map = JsonMap::new();
    for (key, value) in entries {
        map.insert(key, value);
    }
    Json::Object(map)
}

fn texts(list: &[&str]) -> Json {
    Json::Array(list.iter().map(|t| Json::text(t)).collect())
}

fn strategy(indicators: &[&str]) -> Json {
    object(vec![
        ("name", Json::text("price-threshold")),
        (
            "rules",
            Json::Array(vec![object(vec![
                ("field", Json::text("close")),
                ("operator", Json::text(">")),
                ("value", Json::Int(100)),
            ])]),
        ),
        ("indicators", texts(indicators)),
    ])
}

#[test]
fn execution_summary_is_hash_bound_and_does_not_infer_indicator_names() {
    let spec = strategy(&["SMA"]);
    let hash = canonical_hash(&spec, "test_hash").expect("hash");
    let summary = strategy_execution_summary(&Some(spec), &hash);
    assert!(summary.field_is("status", "verified"));
    let indicators = summary.field("indicators").expect("indicators");
    assert!(indicators.equals(&texts(&["SMA"])));
    assert!(!format!("{indicators:?}").contains("VWAP"));
    assert!(!format!("{indicators:?}").contains("RSI"));

    let tampered = strategy(&["RSI"]);
    let unavailable = strategy_execution_summary(&Some(tampered), &hash);
    assert!(unavailable.field_is("status", "unavailable"));
    assert!(unavailable.text_field("reason").expect("reason").contains("hash"));
}

#[test]
fn csv_escapes_formula_and_quotes() {
    assert_eq!(csv_field("=SUM(A1:A2)"), "\"'=SUM(A1:A2)\"");
    assert_eq!(csv_field("a\"b"), "\"a\"\"b\"");
}

fn bar(instrument_id: &str) -> ReportObservation {
    ReportObservation {
        instrument_id: instrument_id.to_string(),
        timestamp: "2026-07-01T00:00:00Z".to_string(),
        data: ObservationData::Bar(BarValues {
            open: spelled("100.0"),
            high: spelled("101.0"),
            low: spelled("99.0"),
            close: spelled("100.5"),
            volume: spelled("10.0"),
        }),
    }
}

#[test]
fn bar_instrument_details_use_only_unambiguous_snapshot_class() {
    let rows = vec![bar("BTC/USD")];
    let details =
        instrument_details_from_content(&rows, &vec![AssetClass::CryptoSpot], "BTC/USD", &None)
            .expect("details");
    assert_eq!(details.schema, "tradeassembly.instrument.bar.v1");
    assert_eq!(details.asset_class, Some(AssetClass::CryptoSpot));
    assert_eq!(details.fields[1].value.as_text().expect("class"), "crypto_spot");

    let ambiguous = vec![AssetClass::CryptoSpot, AssetClass::Equity];
    let details =
        instrument_details_from_content(&rows, &ambiguous, "BTC/USD", &None).expect("details");
    assert_eq!(details.asset_class, None);
    assert_eq!(details.fields.len(), 1);
}

fn call(contract_symbol: &str) -> OptionContractValues {
    OptionContractValues {
        contract_symbol: contract_symbol.to_string(),
        underlying_instrument_id: "SPY".to_string(),
        expiration: "2026-07-17".to_string(),
        strike: spelled("600.0"),
        right: Json::text("call"),
        bid: Some(spelled("2.1")),
        ask: None,
        last: None,
        volume: None,
        open_interest: None,
        implied_volatility: None,
        greeks: None,
    }
}

fn option_row(timestamp: &str, contract: OptionContractValues) -> ReportObservation {
    ReportObservation {
        instrument_id: "SPY260717C00600000".to_string(),
        timestamp: timestamp.to_string(),
        data: ObservationData::OptionContract(contract),
    }
}

#[test]
fn option_details_are_timestamp_bound_and_omit_absent_fields() {
    let timestamp = "2026-07-01T14:30:00Z";
    let mut contract = call("SPY260717C00600000");
    contract.ask = Some(spelled("2.2"));
    contract.open_interest = Some(spelled("1200.0"));
    contract.greeks = Some(OptionGreeks {
        delta: Some(spelled("0.51")),
        gamma: None,
        theta: Some(spelled("-0.08")),
        vega: None,
        rho: None,
    });
    let rows = vec![option_row(timestamp, contract)];
    let details = instrument_details_from_content(
        &rows,
        &vec![AssetClass::Equity, AssetClass::Option],
        "SPY260717C00600000",
        &Some(timestamp.to_string()),
    )
    .expect("option details");
    assert_eq!(details.schema, "tradeassembly.instrument.option-contract.v1");
    assert_eq!(details.asset_class, Some(AssetClass::Option));
    assert_eq!(details.observed_at.as_deref(), Some(timestamp));
    let keys = details.fields.iter().map(|field| field.key.as_str()).collect::<Vec<_>>();
    assert!(keys.contains(&"bid"));
    assert!(keys.contains(&"open_interest"));
    assert!(keys.contains(&"delta"));
    assert!(keys.contains(&"theta"));
    assert!(!keys.contains(&"last"));
    assert!(!keys.contains(&"gamma"));
}

#[test]
fn instrument_details_fail_closed_for_missing_or_conflicting_evidence() {
    let classes = vec![AssetClass::Option];
    let rows = vec![option_row("2026-07-01T14:30:00Z", call("SPY260717C00600000"))];
    let refused = "backtest_report_instrument_integrity_failed".to_string();
    assert_eq!(
        instrument_details_from_content(&rows, &classes, "missing", &None).err(),
        Some(refused.clone())
    );
    assert_eq!(
        instrument_details_from_content(
            &rows,
            &classes,
            "SPY260717C00600000",
            &Some("2026-07-01T15:30:00Z".to_string())
        )
        .err(),
        Some(refused.clone())
    );
    let conflicting = vec![option_row("2026-07-01T14:30:00Z", call("SPY260717P00600000"))];
    assert_eq!(
        instrument_details_from_content(
            &conflicting,
            &classes,
            "SPY260717C00600000",
            &Some("2026-07-01T14:30:00Z".to_string())
        )
        .err(),
        Some(refused)
    );
}

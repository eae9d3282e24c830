//! What a report says of a traded instrument, from the evidence of the snapshot alone.

pub mod observed;

use vstd::prelude::*;

use crate::backtest_contracts::{DatasetTimeSlice, DiagnosticSeverity};
use crate::json::{Json, JsonTree};
use crate::text;
use crate::text::same;

verus! {

/// What kind of instrument something is.
#[derive(Clone, Copy, Debug, PartialEq, Eq, Structural)]
pub enum AssetClass {
    Equity,
    Etf,
    CryptoSpot,
    Option,
}

/// The name of a kind of instrument.
pub open spec fn class_text(class: AssetClass) -> Seq<char> {
    match class {
        AssetClass::Equity => "equity"@,
        AssetClass::Etf => "etf"@,
        AssetClass::CryptoSpot => "crypto_spot"@,
        AssetClass::Option => "option"@,
    }
}

/// The name of a kind of instrument.
pub fn asset_class_name(asset_class: AssetClass) -> (r: &'static str)
    ensures
        r@ == class_text(asset_class),
{
    match asset_class {
        AssetClass::Equity => "equity",
        AssetClass::Etf => "etf",
        AssetClass::CryptoSpot => "crypto_spot",
        AssetClass::Option => "option",
    }
}

/// One bar, with its numbers as they are written down.
#[derive(Debug)]
pub struct BarValues {
    pub open: Json,
    pub high: Json,
    pub low: Json,
    pub close: Json,
    pub volume: Json,
}

/// The sensitivities of an option, as they are written down.
#[derive(Debug)]
pub struct OptionGreeks {
    pub delta: Option<Json>,
    pub gamma: Option<Json>,
    pub theta: Option<Json>,
    pub vega: Option<Json>,
    pub rho: Option<Json>,
}

/// One option contract at one time, with its numbers as they are written down.
#[derive(Debug)]
pub struct OptionContractValues {
    pub contract_symbol: String,
    pub underlying_instrument_id: String,
    pub expiration: String,
    pub strike: Json,
    pub right: Json,
    pub bid: Option<Json>,
    pub ask: Option<Json>,
    pub last: Option<Json>,
    pub volume: Option<Json>,
    pub open_interest: Option<Json>,
    pub implied_volatility: Option<Json>,
    pub greeks: Option<OptionGreeks>,
}

/// What was observed.
#[derive(Debug)]
pub enum ObservationData {
    Bar(BarValues),
    OptionContract(OptionContractValues),
}

/// One observation of an instrument.
#[derive(Debug)]
pub struct ReportObservation {
    pub instrument_id: String,
    pub timestamp: String,
    pub data: ObservationData,
}

/// What is to be said of the quality of a dataset.
#[derive(Debug)]
pub struct QualityFinding {
    pub severity: DiagnosticSeverity,
    pub code: String,
    pub detail: String,
}

/// What a report reads of a snapshot.
#[derive(Debug)]
pub struct ReportSnapshot {
    pub dataset_id: String,
    pub snapshot_ref: String,
    pub content_hash: String,
    pub strategy_id: String,
    pub first_timestamp: String,
    pub last_timestamp: String,
    pub plugin_ref: String,
    pub plugin_instance_ref: String,
    pub operation_id: String,
    pub plugin_manifest_fingerprint: String,
    pub source_class: Option<String>,
    pub asset_classes: Vec<AssetClass>,
    pub instruments: Vec<String>,
    pub time_slice: DatasetTimeSlice,
    pub granularity: String,
    pub quality_findings: Vec<QualityFinding>,
    pub observations: Vec<ReportObservation>,
}

/// One thing that is said of an instrument.
#[derive(Debug)]
pub struct BacktestInstrumentField {
    pub key: String,
    pub label: String,
    pub value: Json,
}

/// What a [`BacktestInstrumentField`] says.
#[verifier::ext_equal]
pub struct FieldView {
    pub key: Seq<char>,
    pub label: Seq<char>,
    pub value: JsonTree,
}

impl View for BacktestInstrumentField {
    type V = FieldView;

    open spec fn view(&self) -> FieldView {
        FieldView { key: self.key@, label: self.label@, value: self.value@ }
    }
}

/// What is said of an instrument.
#[derive(Debug)]
pub struct BacktestInstrumentDetails {
    pub schema: String,
    pub instrument_id: String,
    pub asset_class: Option<AssetClass>,
    pub observed_at: Option<String>,
    pub fields: Vec<BacktestInstrumentField>,
}

/// What [`BacktestInstrumentDetails`] say.
#[verifier::ext_equal]
pub struct DetailsView {
    pub schema: Seq<char>,
    pub instrument_id: Seq<char>,
    pub asset_class: Option<AssetClass>,
    pub observed_at: Option<Seq<char>>,
    pub fields: Seq<FieldView>,
}

/// What a list of fields says.
pub open spec fn field_views(list: Seq<BacktestInstrumentField>) -> Seq<FieldView> {
    list.map_values(|f: BacktestInstrumentField| f@)
}

impl View for BacktestInstrumentDetails {
    type V = DetailsView;

    open spec fn view(&self) -> DetailsView {
        DetailsView {
            schema: self.schema@,
            instrument_id: self.instrument_id@,
            asset_class: self.asset_class,
            observed_at: text::option_text(self.observed_at),
            fields: field_views(self.fields@),
        }
    }
}

fn put(fields: &mut Vec<BacktestInstrumentField>, key: &str, label: &str, value: Json)
    ensures
        field_views(final(fields)@) == field_views(old(fields)@).push(
            FieldView { key: key@, label: label@, value: value@ },
        ),
{
    let ghost before = field_views(fields@);
    let item = BacktestInstrumentField { key: key.to_owned(), label: label.to_owned(), value };
    fields.push(item);
    assert(field_views(fields@) =~= before.push(item@));
}

/// A field, where its value is known.
pub open spec fn known_field(key: Seq<char>, label: Seq<char>, value: Option<Json>) -> Seq<FieldView> {
    match value {
        Some(v) => seq![FieldView { key, label, value: v@ }],
        None => Seq::empty(),
    }
}

fn put_known(fields: &mut Vec<BacktestInstrumentField>, key: &str, label: &str, value: &Option<Json>)
    ensures
        field_views(final(fields)@) == field_views(old(fields)@) + known_field(key@, label@, *value),
{
    let ghost before = field_views(fields@);
    match value {
        Some(v) => {
            put(fields, key, label, v.copy());
            assert(field_views(fields@) =~= before + known_field(key@, label@, *value));
        },
        None => {
            assert(before + known_field(key@, label@, *value) =~= before);
        },
    }
}

/// The one kind of instrument of a dataset of bars, where there is just one.
pub open spec fn sole_class(classes: Seq<AssetClass>) -> Option<AssetClass> {
    let plain = plain_classes(classes);
    if plain.len() == 1 {
        Some(plain[0])
    } else {
        None
    }
}

/// The kinds of instrument without options.
pub open spec fn plain_classes(classes: Seq<AssetClass>) -> Seq<AssetClass>
    decreases classes.len(),
{
    if classes.len() == 0 {
        Seq::empty()
    } else if classes.last() != AssetClass::Option {
        plain_classes(classes.drop_last()).push(classes.last())
    } else {
        plain_classes(classes.drop_last())
    }
}

/// Finds the one kind of instrument of a dataset of bars, where there is just one.
pub fn unambiguous_bar_asset_class(classes: &Vec<AssetClass>) -> (r: Option<AssetClass>)
    ensures
        r == sole_class(classes@),
{
    let mut plain: Vec<AssetClass> = Vec::new();
    let mut i: usize = 0;
    assert(classes@.take(0) =~= Seq::empty());
    while i < classes.len()
        invariant
            i <= classes.len(),
            plain@ == plain_classes(classes@.take(i as int)),
        decreases classes.len() - i,
    {
        proof {
            assert(classes@.take(i + 1).drop_last() =~= classes@.take(i as int));
            assert(classes@.take(i + 1).last() == classes@[i as int]);
        }
        if classes[i] != AssetClass::Option {
            plain.push(classes[i]);
        }
        i += 1;
    }
    assert(classes@.take(classes@.len() as int) =~= classes@);
    if plain.len() == 1 {
        Some(plain[0])
    } else {
        None
    }
}

/// What is said of an instrument of which there are bars.
pub open spec fn bar_details(symbol: Seq<char>, classes: Seq<AssetClass>) -> DetailsView {
    let id = FieldView {
        key: "instrument_id"@,
        label: "Instrument"@,
        value: JsonTree::Text(symbol),
    };
    DetailsView {
        schema: "tradeassembly.instrument.bar.v1"@,
        instrument_id: symbol,
        asset_class: sole_class(classes),
        observed_at: None,
        fields: match sole_class(classes) {
            Some(class) => seq![
                id,
                FieldView {
                    key: "asset_class"@,
                    label: "Asset class"@,
                    value: JsonTree::Text(class_text(class)),
                },
            ],
            None => seq![id],
        },
    }
}

fn bar_instrument_details(symbol: &str, classes: &Vec<AssetClass>) -> (r: BacktestInstrumentDetails)
    ensures
        r@ == bar_details(symbol@, classes@),
{
    let class = unambiguous_bar_asset_class(classes);
    let mut fields: Vec<BacktestInstrumentField> = Vec::new();
    assert(field_views(fields@) =~= Seq::empty());
    put(&mut fields, "instrument_id", "Instrument", Json::text(symbol));
    if let Some(c) = class {
        put(&mut fields, "asset_class", "Asset class", Json::text(asset_class_name(c)));
    }
    let r = BacktestInstrumentDetails {
        schema: "tradeassembly.instrument.bar.v1".to_owned(),
        instrument_id: symbol.to_owned(),
        asset_class: class,
        observed_at: None,
        fields,
    };
    assert(r@.fields =~= bar_details(symbol@, classes@).fields);
    r
}

/// What identifies an option contract.
pub open spec fn contract_fields(c: OptionContractValues) -> Seq<FieldView> {
    seq![
        FieldView {
            key: "contract_symbol"@,
            label: "Contract"@,
            value: JsonTree::Text(c.contract_symbol@),
        },
        FieldView {
            key: "underlying_instrument_id"@,
            label: "Underlying"@,
            value: JsonTree::Text(c.underlying_instrument_id@),
        },
        FieldView {
            key: "expiration"@,
            label: "Expiration"@,
            value: JsonTree::Text(c.expiration@),
        },
        FieldView { key: "strike"@, label: "Strike"@, value: c.strike@ },
        FieldView { key: "right"@, label: "Right"@, value: c.right@ },
    ]
}

/// What is known of the market in an option contract.
pub open spec fn market_fields(c: OptionContractValues) -> Seq<FieldView> {
    known_field("bid"@, "Bid"@, c.bid) + known_field("ask"@, "Ask"@, c.ask) + known_field(
        "last"@,
        "Last"@,
        c.last,
    ) + known_field("volume"@, "Volume"@, c.volume) + known_field(
        "open_interest"@,
        "Open interest"@,
        c.open_interest,
    ) + known_field("implied_volatility"@, "Implied volatility"@, c.implied_volatility)
}

/// What is known of the sensitivities of an option contract.
pub open spec fn greek_fields(c: OptionContractValues) -> Seq<FieldView> {
    match c.greeks {
        Some(g) => known_field("delta"@, "Delta"@, g.delta) + known_field(
            "gamma"@,
            "Gamma"@,
            g.gamma,
        ) + known_field("theta"@, "Theta"@, g.theta) + known_field("vega"@, "Vega"@, g.vega)
            + known_field("rho"@, "Rho"@, g.rho),
        None => Seq::empty(),
    }
}

/// What is said of an option contract: what was observed of it at the time, and nothing
/// that was not.
pub open spec fn option_details(c: OptionContractValues, observed_at: Seq<char>) -> DetailsView {
    DetailsView {
        schema: "tradeassembly.instrument.option-contract.v1"@,
        instrument_id: c.contract_symbol@,
        asset_class: Some(AssetClass::Option),
        observed_at: Some(observed_at),
        fields: contract_fields(c) + market_fields(c) + greek_fields(c),
    }
}

fn put_market(fields: &mut Vec<BacktestInstrumentField>, c: &OptionContractValues)
    ensures
        field_views(final(fields)@) == field_views(old(fields)@) + market_fields(*c),
{
    let ghost before = field_views(fields@);
    put_known(fields, "bid", "Bid", &c.bid);
    put_known(fields, "ask", "Ask", &c.ask);
    put_known(fields, "last", "Last", &c.last);
    put_known(fields, "volume", "Volume", &c.volume);
    put_known(fields, "open_interest", "Open interest", &c.open_interest);
    put_known(fields, "implied_volatility", "Implied volatility", &c.implied_volatility);
    assert(field_views(fields@) =~= before + market_fields(*c));
}

fn put_greeks(fields: &mut Vec<BacktestInstrumentField>, c: &OptionContractValues)
    ensures
        field_views(final(fields)@) == field_views(old(fields)@) + greek_fields(*c),
{
    let ghost before = field_views(fields@);
    match &c.greeks {
        Some(g) => {
            put_known(fields, "delta", "Delta", &g.delta);
            put_known(fields, "gamma", "Gamma", &g.gamma);
            put_known(fields, "theta", "Theta", &g.theta);
            put_known(fields, "vega", "Vega", &g.vega);
            put_known(fields, "rho", "Rho", &g.rho);
            assert(field_views(fields@) =~= before + greek_fields(*c));
        },
        None => {
            assert(before + greek_fields(*c) =~= before);
        },
    }
}

/// Says what was observed of an option contract at the time.
pub fn option_instrument_details(c: &OptionContractValues, observed_at: &str) -> (r:
    BacktestInstrumentDetails)
    ensures
        r@ == option_details(*c, observed_at@),
{
    let mut fields: Vec<BacktestInstrumentField> = Vec::new();
    assert(field_views(fields@) =~= Seq::empty());
    put(&mut fields, "contract_symbol", "Contract", Json::text(c.contract_symbol.as_str()));
    put(
        &mut fields,
        "underlying_instrument_id",
        "Underlying",
        Json::text(c.underlying_instrument_id.as_str()),
    );
    put(&mut fields, "expiration", "Expiration", Json::text(c.expiration.as_str()));
    put(&mut fields, "strike", "Strike", c.strike.copy());
    put(&mut fields, "right", "Right", c.right.copy());
    assert(field_views(fields@) =~= contract_fields(*c));
    put_market(&mut fields, c);
    put_greeks(&mut fields, c);
    BacktestInstrumentDetails {
        schema: "tradeassembly.instrument.option-contract.v1".to_owned(),
        instrument_id: c.contract_symbol.clone(),
        asset_class: Some(AssetClass::Option),
        observed_at: Some(observed_at.to_owned()),
        fields,
    }
}

/// The places of the observations of an instrument.
pub open spec fn matching(rows: Seq<ReportObservation>, symbol: Seq<char>) -> Seq<int>
    decreases rows.len(),
{
    if rows.len() == 0 {
        Seq::empty()
    } else {
        let earlier = matching(rows.drop_last(), symbol);
        if rows.last().instrument_id@ == symbol {
            earlier.push(rows.len() - 1)
        } else {
            earlier
        }
    }
}

/// The first place of a list at which an observation was made at the given time.
pub open spec fn first_at(
    rows: Seq<ReportObservation>,
    places: Seq<int>,
    timestamp: Seq<char>,
) -> Option<int>
    decreases places.len(),
{
    if places.len() == 0 {
        None
    } else {
        match first_at(rows, places.drop_last(), timestamp) {
            Some(at) => Some(at),
            None => if rows[places.last()].timestamp@ == timestamp {
                Some(places.last())
            } else {
                None
            },
        }
    }
}

/// What is said of an instrument: nothing where the evidence is missing or in conflict.
pub open spec fn details_of(
    rows: Seq<ReportObservation>,
    classes: Seq<AssetClass>,
    symbol: Seq<char>,
    observed_at: Option<Seq<char>>,
) -> Option<DetailsView> {
    let places = matching(rows, symbol);
    if places.len() == 0 {
        None
    } else {
        match rows[places[0]].data {
            ObservationData::Bar(_) => if exists|k: int|
                0 <= k < places.len() && !(rows[#[trigger] places[k]].data is Bar) {
                None
            } else {
                Some(bar_details(symbol, classes))
            },
            ObservationData::OptionContract(_) => match observed_at {
                None => None,
                Some(timestamp) => match first_at(rows, places, timestamp) {
                    None => None,
                    Some(at) => match rows[at].data {
                        ObservationData::Bar(_) => None,
                        ObservationData::OptionContract(c) => if c.contract_symbol@ == symbol {
                            Some(option_details(c, timestamp))
                        } else {
                            None
                        },
                    },
                },
            },
        }
    }
}

fn matching_places(rows: &Vec<ReportObservation>, symbol: &str) -> (r: Vec<usize>)
    ensures
        r@.map_values(|n: usize| n as int) == matching(rows@, symbol@),
        forall|k: int| 0 <= k < r@.len() ==> #[trigger] r@[k] < rows@.len(),
{
    let mut places: Vec<usize> = Vec::new();
    let mut i: usize = 0;
    proof {
        assert(rows@.take(0) =~= Seq::empty());
        assert(places@.map_values(|n: usize| n as int) =~= Seq::empty());
    }
    while i < rows.len()
        invariant
            i <= rows.len(),
            places@.map_values(|n: usize| n as int) == matching(rows@.take(i as int), symbol@),
            forall|k: int| 0 <= k < places@.len() ==> #[trigger] places@[k] < i,
        decreases rows.len() - i,
    {
        proof {
            assert(rows@.take(i + 1).drop_last() =~= rows@.take(i as int));
            assert(rows@.take(i + 1).last() == rows@[i as int]);
        }
        if same(rows[i].instrument_id.as_str(), symbol) {
            let ghost before = places@.map_values(|n: usize| n as int);
            places.push(i);
            assert(places@.map_values(|n: usize| n as int) =~= before.push(i as int));
        }
        i += 1;
    }
    assert(rows@.take(rows@.len() as int) =~= rows@);
    places
}

fn fail<T>() -> (r: Result<T, String>)
    ensures
        r matches Err(e) && e@ == "backtest_report_instrument_integrity_failed"@,
{
    Err("backtest_report_instrument_integrity_failed".to_owned())
}

proof fn found_place(rows: Seq<ReportObservation>, places: Seq<int>, timestamp: Seq<char>, k: int)
    requires
        0 <= k < places.len(),
        first_at(rows, places.take(k), timestamp) is None,
        rows[places[k]].timestamp@ == timestamp,
    ensures
        first_at(rows, places, timestamp) == Some(places[k]),
    decreases places.len(),
{
    let shorter = places.drop_last();
    if k == places.len() - 1 {
        assert(places.take(k) =~= shorter);
    } else {
        assert(shorter.take(k) =~= places.take(k));
        found_place(rows, shorter, timestamp, k);
    }
}

/// Says what the evidence of a snapshot says of an instrument.
pub fn instrument_details_from_content(
    rows: &Vec<ReportObservation>,
    classes: &Vec<AssetClass>,
    symbol: &str,
    observed_at: &Option<String>,
) -> (r: Result<BacktestInstrumentDetails, String>)
    ensures
        match (r, details_of(rows@, classes@, symbol@, text::option_text(*observed_at))) {
            (Ok(d), Some(shown)) => d@ == shown,
            (Err(e), None) => e@ == "backtest_report_instrument_integrity_failed"@,
            _ => false,
        },
{
    let places = matching_places(rows, symbol);
    let ghost shown = matching(rows@, symbol@);
    proof {
        assert(places@.map_values(|n: usize| n as int) == shown);
        assert(places@.len() == shown.len());
    }
    if places.len() == 0 {
        return fail();
    }
    proof {
        assert(shown[0] == places@[0] as int);
    }
    let bars: bool = match &rows[places[0]].data {
        ObservationData::Bar(_) => true,
        ObservationData::OptionContract(_) => false,
    };
    let mut k: usize = 0;
    if bars {
        while k < places.len()
            invariant
                k <= places@.len(),
                places@.map_values(|n: usize| n as int) == shown,
                shown == matching(rows@, symbol@),
                places@.len() > 0,
                rows@[shown[0]].data is Bar,
                forall|j: int| 0 <= j < places@.len() ==> #[trigger] places@[j] < rows@.len(),
                forall|j: int| 0 <= j < k ==> rows@[#[trigger] shown[j]].data is Bar,
            decreases places@.len() - k,
        {
            let is_bar: bool = match &rows[places[k]].data {
                ObservationData::Bar(_) => true,
                ObservationData::OptionContract(_) => false,
            };
            assert(shown[k as int] == places@[k as int] as int);
            if !is_bar {
                return fail();
            }
            k += 1;
        }
        return Ok(bar_instrument_details(symbol, classes));
    }
    let timestamp: &str = match observed_at {
        Some(t) => t.as_str(),
        None => {
            return fail();
        },
    };
    assert(shown.take(0) =~= Seq::empty());
    while k < places.len()
        invariant
            k <= places@.len(),
            places@.map_values(|n: usize| n as int) == shown,
            shown == matching(rows@, symbol@),
            places@.len() > 0,
            !(rows@[shown[0]].data is Bar),
            observed_at matches Some(t) && t@ == timestamp@,
            forall|j: int| 0 <= j < places@.len() ==> #[trigger] places@[j] < rows@.len(),
            first_at(rows@, shown.take(k as int), timestamp@) is None,
        decreases places@.len() - k,
    {
        let at: usize = places[k];
        assert(shown[k as int] == at as int);
        if same(rows[at].timestamp.as_str(), timestamp) {
            proof {
                found_place(rows@, shown, timestamp@, k as int);
            }
            match &rows[at].data {
                ObservationData::Bar(_) => {
                    return fail();
                },
                ObservationData::OptionContract(c) => {
                    if !same(c.contract_symbol.as_str(), symbol) {
                        return fail();
                    }
                    return Ok(option_instrument_details(c, timestamp));
                },
            }
        }
        proof {
            assert(shown.take(k + 1).drop_last() =~= shown.take(k as int));
            assert(shown.take(k + 1).last() == shown[k as int]);
        }
        k += 1;
    }
    assert(shown.take(shown.len() as int) =~= shown);
    fail()
}

/// Details of an option contract are bound to the time at which it was observed: they
/// are never those of another time.
pub proof fn option_details_are_of_the_time(
    rows: Seq<ReportObservation>,
    classes: Seq<AssetClass>,
    symbol: Seq<char>,
    observed_at: Option<Seq<char>>,
)
    ensures
        details_of(rows, classes, symbol, observed_at) matches Some(d) ==> d.instrument_id == symbol
            && (d.observed_at is None || d.observed_at == observed_at),
{
}

} // verus!

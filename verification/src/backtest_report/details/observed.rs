//! What is said of an instrument is what was observed of it: which observations count, and which
//! fields are told.

use vstd::prelude::*;

use crate::backtest_report::details;
use crate::backtest_report::details::{
    AssetClass, DetailsView, FieldView, OptionContractValues, ReportObservation,
};
use crate::json::{Json, JsonTree};

verus! {

/// The observations of an instrument are those that name it, in their order.
pub proof fn observations_are_those_that_name_it(rows: Seq<ReportObservation>, symbol: Seq<char>)
    ensures
        forall|k: int|
            0 <= k < details::matching(rows, symbol).len() ==> 0 <= #[trigger] details::matching(
                rows,
                symbol,
            )[k] < rows.len() && rows[details::matching(rows, symbol)[k]].instrument_id@ == symbol,
        forall|i: int|
            0 <= i < rows.len() && (#[trigger] rows[i]).instrument_id@ == symbol
                ==> details::matching(rows, symbol).contains(i),
        forall|j: int, k: int|
            0 <= j < k < details::matching(rows, symbol).len() ==> #[trigger] details::matching(
                rows,
                symbol,
            )[j] < #[trigger] details::matching(rows, symbol)[k],
    decreases rows.len(),
{
    let places = details::matching(rows, symbol);
    if rows.len() > 0 {
        let shorter = rows.drop_last();
        let earlier = details::matching(shorter, symbol);
        observations_are_those_that_name_it(shorter, symbol);
        let n = rows.len() - 1;
        assert(rows[n] == rows.last());
        assert forall|k: int| 0 <= k < places.len() implies 0 <= #[trigger] places[k] < rows.len()
            && rows[places[k]].instrument_id@ == symbol by {
            if k < earlier.len() {
                assert(places[k] == earlier[k]);
                assert(shorter[earlier[k]] == rows[earlier[k]]);
            }
        }
        assert forall|i: int|
            0 <= i < rows.len() && (#[trigger] rows[i]).instrument_id@ == symbol implies places.contains(
            i,
        ) by {
            if i < n {
                assert(shorter[i] == rows[i]);
                assert(earlier.contains(i));
                let k = choose|k: int| 0 <= k < earlier.len() && earlier[k] == i;
                assert(places[k] == i);
            } else {
                assert(places[earlier.len() as int] == n);
            }
        }
        assert forall|j: int, k: int| 0 <= j < k < places.len() implies #[trigger] places[j]
            < #[trigger] places[k] by {
            assert(places[j] == earlier[j]);
            if k < earlier.len() {
                assert(places[k] == earlier[k]);
            }
        }
    }
}

/// Nothing is said of an instrument that was not observed.
pub proof fn unobserved_instrument_is_not_described(
    rows: Seq<ReportObservation>,
    classes: Seq<AssetClass>,
    symbol: Seq<char>,
    observed_at: Option<Seq<char>>,
)
    requires
        forall|i: int| 0 <= i < rows.len() ==> (#[trigger] rows[i]).instrument_id@ != symbol,
    ensures
        details::details_of(rows, classes, symbol, observed_at) is None,
{
    observations_are_those_that_name_it(rows, symbol);
    let places = details::matching(rows, symbol);
    if places.len() > 0 {
        assert(rows[places[0]].instrument_id@ == symbol);
    }
}

/// What is said of an instrument names it.
pub proof fn description_names_the_instrument(
    rows: Seq<ReportObservation>,
    classes: Seq<AssetClass>,
    symbol: Seq<char>,
    observed_at: Option<Seq<char>>,
    d: DetailsView,
)
    requires
        details::details_of(rows, classes, symbol, observed_at) == Some(d),
    ensures
        d.instrument_id == symbol,
        d.observed_at is Some ==> d.observed_at == observed_at && d.asset_class == Some(
            AssetClass::Option,
        ),
{
}

/// An option contract is told by its symbol, what it is on, its expiration, its strike and its
/// right, as they were observed.
pub proof fn contract_is_told_as_observed(c: OptionContractValues, at: Seq<char>)
    ensures
        ({
            let told = details::option_details(c, at);
            &&& told.instrument_id == c.contract_symbol@
            &&& told.observed_at == Some(at)
            &&& told.fields.len() >= 5
            &&& told.fields[0].key == "contract_symbol"@ && told.fields[0].value == JsonTree::Text(
                c.contract_symbol@,
            )
            &&& told.fields[1].key == "underlying_instrument_id"@ && told.fields[1].value
                == JsonTree::Text(c.underlying_instrument_id@)
            &&& told.fields[2].key == "expiration"@ && told.fields[2].value == JsonTree::Text(
                c.expiration@,
            )
            &&& told.fields[3].key == "strike"@ && told.fields[3].value == c.strike@
            &&& told.fields[4].key == "right"@ && told.fields[4].value == c.right@
        }),
{
}

/// A value of the market is told just where it was observed.
pub proof fn known_value_is_told(key: Seq<char>, label: Seq<char>, value: Option<Json>)
    ensures
        value is None ==> details::known_field(key, label, value).len() == 0,
        value matches Some(v) ==> details::known_field(key, label, value) == seq![
            FieldView { key, label, value: v@ },
        ],
{
}

} // verus!

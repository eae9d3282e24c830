//! When a configuration is ready and a manifest or a result can be sealed, and what each of them
//! says when it is written.

use vstd::prelude::*;

use crate::backtest_contracts;
use crate::backtest_contracts::{
    BacktestConfiguration, BacktestResult, BacktestResultContent, BacktestRiskConfiguration,
    BacktestRunManifest, BacktestRunManifestContent, CapabilityGraphBinding, CapitalConfiguration,
    CostConfiguration, DatasetBinding, DatasetTimeSlice, DiagnosticView, ExecutionConfiguration,
    InstrumentConfiguration, LiquidityConfiguration, StrategyVersionBinding,
};
use crate::digest;
use crate::json;
use crate::json::JsonTree;
use crate::text;

verus! {

/// Whether a configuration names everything that it has to name.
pub open spec fn names_everything(c: BacktestConfiguration) -> bool {
    &&& c.schema@ == backtest_contracts::BACKTEST_CONFIGURATION_SCHEMA@
    &&& !text::is_blank(c.strategy.strategy_id@)
    &&& !text::is_blank(c.strategy.strategy_version_id@)
    &&& !text::is_blank(c.strategy.strategy_spec_hash@)
    &&& !text::is_blank(c.dataset.dataset_id@)
    &&& !text::is_blank(c.dataset.content_hash@)
    &&& !text::is_blank(c.dataset.capability_graph_revision_id@)
    &&& !text::is_blank(c.dataset.capability_graph_fingerprint@)
    &&& !text::is_blank(c.capability_graph.revision_id@)
    &&& !text::is_blank(c.capability_graph.graph_fingerprint@)
    &&& !text::is_blank(c.capital.reporting_currency@)
    &&& !text::is_blank(c.evaluator_version@)
    &&& !text::is_blank(c.compiler_version@)
}

/// Whether the numbers of a configuration are within their bounds.
pub open spec fn is_within_bounds(c: BacktestConfiguration) -> bool {
    &&& c.capital.starting_cash_micros > 0
    &&& c.capital.maximum_leverage_micros >= 1_000_000
    &&& c.risk.maximum_position_notional_micros > 0
    &&& c.risk.maximum_order_quantity_micros > 0
    &&& c.risk.maximum_loss_micros > 0
    &&& c.risk.maximum_open_positions > 0
    &&& c.costs.fixed_fee_micros >= 0
    &&& c.costs.per_unit_fee_micros >= 0
    &&& c.costs.notional_fee_bps <= 10_000
    &&& c.costs.spread_bps <= 10_000
    &&& c.costs.slippage_bps <= 10_000
    &&& 0 < c.liquidity.maximum_participation_bps <= 10_000
    &&& c.liquidity.minimum_volume_micros >= 0
    &&& text::before(c.dataset.selected_time_slice.start@, c.dataset.selected_time_slice.end@)
}

/// Whether an instrument says everything that it has to say, and is one of the dataset.
pub open spec fn instrument_is_sound(x: InstrumentConfiguration, known: Seq<Seq<char>>) -> bool {
    &&& !text::is_blank(x.instrument_id@)
    &&& !text::is_blank(x.instrument_family@)
    &&& !text::is_blank(x.quantity_unit@)
    &&& x.contract_multiplier_micros > 0
    &&& x.quantity_scale <= 12
    &&& x.price_scale <= 12
    &&& known.contains(x.instrument_id@)
}

proof fn no_fault_in_a_list(list: Seq<InstrumentConfiguration>, known: Seq<Seq<char>>)
    ensures
        backtest_contracts::all_instrument_faults(list, known).len() == 0 <==> forall|i: int|
            0 <= i < list.len() ==> instrument_is_sound(#[trigger] list[i], known),
    decreases list.len(),
{
    if list.len() > 0 {
        let n = list.len() - 1;
        let shorter = list.drop_last();
        no_fault_in_a_list(shorter, known);
        assert(list[n] == list.last());
        assert forall|i: int| 0 <= i < n implies shorter[i] == #[trigger] list[i] by {}
        let own = backtest_contracts::instrument_faults(list.last(), n, known);
        assert(own.len() == 0 <==> instrument_is_sound(list.last(), known));
        if forall|i: int| 0 <= i < list.len() ==> instrument_is_sound(#[trigger] list[i], known) {
            assert forall|i: int| 0 <= i < shorter.len() implies instrument_is_sound(
                #[trigger] shorter[i],
                known,
            ) by {
                assert(list[i] == shorter[i]);
            }
            assert(instrument_is_sound(list[n], known));
        }
        if backtest_contracts::all_instrument_faults(list, known).len() == 0 {
            assert forall|i: int| 0 <= i < list.len() implies instrument_is_sound(
                #[trigger] list[i],
                known,
            ) by {
                if i < n {
                    assert(shorter[i] == list[i]);
                }
            }
        }
    }
}

/// There is nothing to be said against a configuration if and only if it names everything,
/// its numbers are within their bounds, it and its dataset have instruments, and each of its
/// instruments is sound and one of the dataset.
pub proof fn configuration_is_ready_when_it_is_sound(c: BacktestConfiguration)
    ensures
        backtest_contracts::configuration_faults(c).len() == 0 <==> {
            &&& names_everything(c)
            &&& is_within_bounds(c)
            &&& c.dataset.instruments@.len() > 0
            &&& c.instruments@.len() > 0
            &&& forall|i: int|
                0 <= i < c.instruments@.len() ==> instrument_is_sound(
                    #[trigger] c.instruments@[i],
                    text::texts(c.dataset.instruments@),
                )
        },
{
    no_fault_in_a_list(c.instruments@, text::texts(c.dataset.instruments@));
    assert(backtest_contracts::required_value_faults(c).len() == 0 <==> names_everything(c));
    assert(backtest_contracts::bound_faults(c).len() == 0 <==> is_within_bounds(c)
        && c.dataset.instruments@.len() > 0 && c.instruments@.len() > 0);
}

/// An error names the field that it is about.
pub proof fn error_names_its_field(cause: bool, field: Seq<char>, detail: Seq<char>)
    ensures
        backtest_contracts::fault(cause, field, detail).len() == (if cause {
            1nat
        } else {
            0nat
        }),
        cause ==> backtest_contracts::fault(cause, field, detail)[0].field == Some(field)
            && backtest_contracts::fault(cause, field, detail)[0].detail == detail
            && backtest_contracts::fault(cause, field, detail)[0].severity
            == backtest_contracts::DiagnosticSeverity::Error,
{
}

/// A manifest is sealed if and only if it is of its schema, names its run, its request, its
/// client, its purpose and its first attempt, and its configuration is ready; the seal is the
/// digest of what is written of it.
pub proof fn manifest_is_sealed_when_it_is_ready(
    c: BacktestRunManifestContent,
    bytes: Seq<u8>,
)
    ensures
        ({
            let seal = backtest_contracts::manifest_seal(c, Some(bytes));
            &&& seal is Ok <==> {
                &&& c.schema@ == backtest_contracts::BACKTEST_MANIFEST_SCHEMA@
                &&& !text::is_blank(c.run_id@)
                &&& !text::is_blank(c.request_hash@)
                &&& !text::is_blank(c.idempotency_key@)
                &&& !text::is_blank(c.client@)
                &&& !text::is_blank(c.purpose@)
                &&& !text::is_blank(c.first_attempt_id@)
                &&& c.validation.ready
                &&& backtest_contracts::configuration_faults(c.configuration).len() == 0
            }
            &&& seal matches Ok(s) ==> s.hash == digest::labelled_digest(bytes) && s.byte_length
                == bytes.len() && s.reference == "tradeassembly://backtests/"@ + c.run_id@
                + "/manifest"@
            &&& seal matches Err(why) ==> why == "backtest_manifest_invalid"@
        }),
{
}

/// A manifest is intact only where its hash, its length and its reference are those of what
/// is written of it.
pub proof fn intact_manifest_is_what_was_sealed(m: BacktestRunManifest, bytes: Seq<u8>)
    requires
        backtest_contracts::manifest_is_intact(m, Some(bytes)),
    ensures
        m.manifest_hash@ == digest::labelled_digest(bytes),
        m.byte_length == bytes.len(),
        m.manifest_ref@ == "tradeassembly://backtests/"@ + m.content.run_id@ + "/manifest"@,
        backtest_contracts::configuration_faults(m.content.configuration).len() == 0,
{
}

/// A result is sealed if and only if it is of its schema and names its run, its manifest and
/// its versions; the seal is the digest of what is written of it.
pub proof fn result_is_sealed_when_it_is_named(c: BacktestResultContent, bytes: Seq<u8>)
    ensures
        ({
            let seal = backtest_contracts::result_seal(c, Some(bytes));
            &&& seal is Ok <==> {
                &&& c.schema@ == backtest_contracts::BACKTEST_RESULT_SCHEMA@
                &&& !text::is_blank(c.run_id@)
                &&& !text::is_blank(c.manifest_hash@)
                &&& !text::is_blank(c.evaluator_version@)
                &&& !text::is_blank(c.compiler_version@)
            }
            &&& seal matches Ok(s) ==> s.hash == digest::labelled_digest(bytes) && s.byte_length
                == bytes.len() && s.reference == "tradeassembly://backtests/"@ + c.run_id@
                + "/result"@
        }),
{
}

/// A result is intact only where its hash, its length and its reference are those of what is
/// written of it.
pub proof fn intact_result_is_what_was_sealed(x: BacktestResult, bytes: Seq<u8>)
    requires
        backtest_contracts::result_is_intact(x, Some(bytes)),
    ensures
        x.result_hash@ == digest::labelled_digest(bytes),
        x.byte_length == bytes.len(),
        x.result_ref@ == "tradeassembly://backtests/"@ + x.content.run_id@ + "/result"@,
{
}

/// A strategy is written member by member.
pub proof fn strategy_is_written(
    x: StrategyVersionBinding,
)
    ensures
        ({
            let tree = backtest_contracts::strategy_tree(x);
            &&& json::member(tree, "strategyId"@) == Some(JsonTree::Text(x.strategy_id@))
            &&& json::member(tree, "strategyVersionId"@) == Some(JsonTree::Text(x.strategy_version_id@))
            &&& json::member(tree, "strategySpecHash"@) == Some(JsonTree::Text(x.strategy_spec_hash@))
        }),
{
    reveal_strlit("strategyId");
    reveal_strlit("strategyVersionId");
    reveal_strlit("strategySpecHash");
    assert("strategyId"@.len() == 10);
    assert("strategyVersionId"@.len() == 17);
    assert("strategySpecHash"@.len() == 16);
}

/// A stretch of time is written from its start to its end.
pub proof fn time_slice_is_written(
    x: DatasetTimeSlice,
)
    ensures
        ({
            let tree = backtest_contracts::time_slice_tree(x);
            &&& json::member(tree, "start"@) == Some(JsonTree::Text(x.start@))
            &&& json::member(tree, "end"@) == Some(JsonTree::Text(x.end@))
        }),
{
    reveal_strlit("start");
    reveal_strlit("end");
    assert("start"@.len() == 5);
    assert("end"@.len() == 3);
}

/// A dataset is written member by member.
pub proof fn dataset_is_written(
    x: DatasetBinding,
)
    ensures
        ({
            let tree = backtest_contracts::dataset_tree(x);
            &&& json::member(tree, "datasetId"@) == Some(JsonTree::Text(x.dataset_id@))
            &&& json::member(tree, "snapshotRef"@) == Some(JsonTree::Text(x.snapshot_ref@))
            &&& json::member(tree, "contentHash"@) == Some(JsonTree::Text(x.content_hash@))
            &&& json::member(tree, "schema"@) == Some(JsonTree::Text(x.schema@))
            &&& json::member(tree, "sourcePluginRef"@) == Some(JsonTree::Text(x.source_plugin_ref@))
            &&& json::member(tree, "sourcePluginInstanceRef"@) == Some(JsonTree::Text(x.source_plugin_instance_ref@))
            &&& json::member(tree, "sourceOperationId"@) == Some(JsonTree::Text(x.source_operation_id@))
            &&& json::member(tree, "sourceManifestFingerprint"@) == Some(JsonTree::Text(x.source_manifest_fingerprint@))
            &&& json::member(tree, "sourceClass"@) == Some(JsonTree::Text(x.source_class@))
            &&& json::member(tree, "capabilityGraphRevisionId"@) == Some(JsonTree::Text(x.capability_graph_revision_id@))
            &&& json::member(tree, "capabilityGraphFingerprint"@) == Some(JsonTree::Text(x.capability_graph_fingerprint@))
            &&& json::member(tree, "instruments"@) == Some(json::text_array(text::texts(x.instruments@)))
            &&& json::member(tree, "selectedTimeSlice"@) == Some(backtest_contracts::time_slice_tree(x.selected_time_slice))
            &&& json::member(tree, "granularity"@) == Some(JsonTree::Text(x.granularity@))
            &&& json::member(tree, "calendar"@) == Some(JsonTree::Text(x.calendar@))
            &&& json::member(tree, "timezone"@) == Some(JsonTree::Text(x.timezone@))
            &&& json::member(tree, "corporateActionPolicy"@) == Some(JsonTree::Text(x.corporate_action_policy@))
            &&& json::member(tree, "benchmark"@) == Some(json::text_or_null(text::option_text(x.benchmark)))
        }),
{
    reveal_strlit("datasetId");
    reveal_strlit("snapshotRef");
    reveal_strlit("contentHash");
    reveal_strlit("schema");
    reveal_strlit("sourcePluginRef");
    reveal_strlit("sourcePluginInstanceRef");
    reveal_strlit("sourceOperationId");
    reveal_strlit("sourceManifestFingerprint");
    reveal_strlit("sourceClass");
    reveal_strlit("capabilityGraphRevisionId");
    reveal_strlit("capabilityGraphFingerprint");
    reveal_strlit("instruments");
    reveal_strlit("selectedTimeSlice");
    reveal_strlit("granularity");
    reveal_strlit("calendar");
    reveal_strlit("timezone");
    reveal_strlit("corporateActionPolicy");
    reveal_strlit("benchmark");
    assert("datasetId"@.len() == 9);
    assert("snapshotRef"@.len() == 11);
    assert("contentHash"@.len() == 11);
    assert("schema"@.len() == 6);
    assert("sourcePluginRef"@.len() == 15);
    assert("sourcePluginInstanceRef"@.len() == 23);
    assert("sourceOperationId"@.len() == 17);
    assert("sourceManifestFingerprint"@.len() == 25);
    assert("sourceClass"@.len() == 11);
    assert("capabilityGraphRevisionId"@.len() == 25);
    assert("capabilityGraphFingerprint"@.len() == 26);
    assert("instruments"@.len() == 11);
    assert("selectedTimeSlice"@.len() == 17);
    assert("granularity"@.len() == 11);
    assert("calendar"@.len() == 8);
    assert("timezone"@.len() == 8);
    assert("corporateActionPolicy"@.len() == 21);
    assert("benchmark"@.len() == 9);
    assert("datasetId"@[0] == 'd');
    assert("benchmark"@[0] == 'b');
    assert("snapshotRef"@[0] == 's');
    assert("contentHash"@[0] == 'c');
    assert("snapshotRef"@[1] == 'n');
    assert("sourceClass"@[1] == 'o');
    assert("instruments"@[0] == 'i');
    assert("granularity"@[0] == 'g');
    assert("sourceClass"@[0] == 's');
    assert("sourceOperationId"@[1] == 'o');
    assert("selectedTimeSlice"@[1] == 'e');
    assert("sourceManifestFingerprint"@[0] == 's');
    assert("capabilityGraphRevisionId"@[0] == 'c');
    assert("calendar"@[0] == 'c');
    assert("timezone"@[0] == 't');
}

/// A capability graph is written member by member.
pub proof fn graph_is_written(
    x: CapabilityGraphBinding,
)
    ensures
        ({
            let tree = backtest_contracts::graph_tree(x);
            &&& json::member(tree, "revisionId"@) == Some(JsonTree::Text(x.revision_id@))
            &&& json::member(tree, "graphFingerprint"@) == Some(JsonTree::Text(x.graph_fingerprint@))
        }),
{
    reveal_strlit("revisionId");
    reveal_strlit("graphFingerprint");
    assert("revisionId"@.len() == 10);
    assert("graphFingerprint"@.len() == 16);
}

/// A capital is written member by member.
pub proof fn capital_is_written(
    x: CapitalConfiguration,
)
    ensures
        ({
            let tree = backtest_contracts::capital_tree(x);
            &&& json::member(tree, "startingCashMicros"@) == Some(JsonTree::Int(x.starting_cash_micros as int))
            &&& json::member(tree, "reportingCurrency"@) == Some(JsonTree::Text(x.reporting_currency@))
            &&& json::member(tree, "accountModel"@) == Some(JsonTree::Text(x.account_model.name()))
            &&& json::member(tree, "maximumLeverageMicros"@) == Some(JsonTree::Int(x.maximum_leverage_micros as int))
            &&& json::member(tree, "marginPolicy"@) == Some(JsonTree::Text(x.margin_policy@))
        }),
{
    reveal_strlit("startingCashMicros");
    reveal_strlit("reportingCurrency");
    reveal_strlit("accountModel");
    reveal_strlit("maximumLeverageMicros");
    reveal_strlit("marginPolicy");
    assert("startingCashMicros"@.len() == 18);
    assert("reportingCurrency"@.len() == 17);
    assert("accountModel"@.len() == 12);
    assert("maximumLeverageMicros"@.len() == 21);
    assert("marginPolicy"@.len() == 12);
    assert("accountModel"@[0] == 'a');
    assert("marginPolicy"@[0] == 'm');
}

/// The way of execution is written member by member.
pub proof fn execution_is_written(
    x: ExecutionConfiguration,
)
    ensures
        ({
            let tree = backtest_contracts::execution_tree(x);
            &&& json::member(tree, "evaluationTiming"@) == Some(JsonTree::Text(x.evaluation_timing.name()))
            &&& json::member(tree, "fillTiming"@) == Some(JsonTree::Text(x.fill_timing.name()))
            &&& json::member(tree, "fillPriceSource"@) == Some(JsonTree::Text(x.fill_price_source.name()))
            &&& json::member(tree, "orderType"@) == Some(JsonTree::Text(x.order_type.name()))
            &&& json::member(tree, "timeInForce"@) == Some(JsonTree::Text(x.time_in_force@))
            &&& json::member(tree, "fillPolicy"@) == Some(JsonTree::Text(x.fill_policy.name()))
            &&& json::member(tree, "rejectOnInsufficientCapital"@) == Some(JsonTree::Bool(x.reject_on_insufficient_capital))
            &&& json::member(tree, "rejectOnInsufficientLiquidity"@) == Some(JsonTree::Bool(x.reject_on_insufficient_liquidity))
            &&& json::member(tree, "staleDataPolicy"@) == Some(JsonTree::Text(x.stale_data_policy.name()))
            &&& json::member(tree, "missingDataPolicy"@) == Some(JsonTree::Text(x.missing_data_policy.name()))
        }),
{
    reveal_strlit("evaluationTiming");
    reveal_strlit("fillTiming");
    reveal_strlit("fillPriceSource");
    reveal_strlit("orderType");
    reveal_strlit("timeInForce");
    reveal_strlit("fillPolicy");
    reveal_strlit("rejectOnInsufficientCapital");
    reveal_strlit("rejectOnInsufficientLiquidity");
    reveal_strlit("staleDataPolicy");
    reveal_strlit("missingDataPolicy");
    assert("evaluationTiming"@.len() == 16);
    assert("fillTiming"@.len() == 10);
    assert("fillPriceSource"@.len() == 15);
    assert("orderType"@.len() == 9);
    assert("timeInForce"@.len() == 11);
    assert("fillPolicy"@.len() == 10);
    assert("rejectOnInsufficientCapital"@.len() == 27);
    assert("rejectOnInsufficientLiquidity"@.len() == 29);
    assert("staleDataPolicy"@.len() == 15);
    assert("missingDataPolicy"@.len() == 17);
    assert("fillTiming"@[4] == 'T');
    assert("fillPolicy"@[4] == 'P');
    assert("fillPriceSource"@[0] == 'f');
    assert("staleDataPolicy"@[0] == 's');
}

/// Costs are written member by member.
pub proof fn costs_are_written(
    x: CostConfiguration,
)
    ensures
        ({
            let tree = backtest_contracts::costs_tree(x);
            &&& json::member(tree, "fixedFeeMicros"@) == Some(JsonTree::Int(x.fixed_fee_micros as int))
            &&& json::member(tree, "perUnitFeeMicros"@) == Some(JsonTree::Int(x.per_unit_fee_micros as int))
            &&& json::member(tree, "notionalFeeBps"@) == Some(JsonTree::Int(x.notional_fee_bps as int))
            &&& json::member(tree, "spreadBps"@) == Some(JsonTree::Int(x.spread_bps as int))
            &&& json::member(tree, "slippageBps"@) == Some(JsonTree::Int(x.slippage_bps as int))
        }),
{
    reveal_strlit("fixedFeeMicros");
    reveal_strlit("perUnitFeeMicros");
    reveal_strlit("notionalFeeBps");
    reveal_strlit("spreadBps");
    reveal_strlit("slippageBps");
    assert("fixedFeeMicros"@.len() == 14);
    assert("perUnitFeeMicros"@.len() == 16);
    assert("notionalFeeBps"@.len() == 14);
    assert("spreadBps"@.len() == 9);
    assert("slippageBps"@.len() == 11);
    assert("fixedFeeMicros"@[0] == 'f');
    assert("notionalFeeBps"@[0] == 'n');
}

/// Liquidity is written member by member.
pub proof fn liquidity_is_written(
    x: LiquidityConfiguration,
)
    ensures
        ({
            let tree = backtest_contracts::liquidity_tree(x);
            &&& json::member(tree, "maximumParticipationBps"@) == Some(JsonTree::Int(x.maximum_participation_bps as int))
            &&& json::member(tree, "minimumVolumeMicros"@) == Some(JsonTree::Int(x.minimum_volume_micros as int))
        }),
{
    reveal_strlit("maximumParticipationBps");
    reveal_strlit("minimumVolumeMicros");
    assert("maximumParticipationBps"@.len() == 23);
    assert("minimumVolumeMicros"@.len() == 19);
}

/// An instrument is written member by member.
pub proof fn instrument_is_written(
    x: InstrumentConfiguration,
)
    ensures
        ({
            let tree = backtest_contracts::instrument_tree(x);
            &&& json::member(tree, "instrumentId"@) == Some(JsonTree::Text(x.instrument_id@))
            &&& json::member(tree, "instrumentFamily"@) == Some(JsonTree::Text(x.instrument_family@))
            &&& json::member(tree, "quantityUnit"@) == Some(JsonTree::Text(x.quantity_unit@))
            &&& json::member(tree, "quantityScale"@) == Some(JsonTree::Int(x.quantity_scale as int))
            &&& json::member(tree, "priceScale"@) == Some(JsonTree::Int(x.price_scale as int))
            &&& json::member(tree, "contractMultiplierMicros"@) == Some(JsonTree::Int(x.contract_multiplier_micros as int))
            &&& json::member(tree, "settlement"@) == Some(JsonTree::Text(x.settlement@))
            &&& json::member(tree, "metadata"@) == Some(JsonTree::Object(x.metadata@))
        }),
{
    reveal_strlit("instrumentId");
    reveal_strlit("instrumentFamily");
    reveal_strlit("quantityUnit");
    reveal_strlit("quantityScale");
    reveal_strlit("priceScale");
    reveal_strlit("contractMultiplierMicros");
    reveal_strlit("settlement");
    reveal_strlit("metadata");
    assert("instrumentId"@.len() == 12);
    assert("instrumentFamily"@.len() == 16);
    assert("quantityUnit"@.len() == 12);
    assert("quantityScale"@.len() == 13);
    assert("priceScale"@.len() == 10);
    assert("contractMultiplierMicros"@.len() == 24);
    assert("settlement"@.len() == 10);
    assert("metadata"@.len() == 8);
    assert("instrumentId"@[0] == 'i');
    assert("quantityUnit"@[0] == 'q');
    assert("priceScale"@[0] == 'p');
    assert("settlement"@[0] == 's');
}

/// The limits of risk are written member by member.
pub proof fn risk_is_written(
    x: BacktestRiskConfiguration,
)
    ensures
        ({
            let tree = backtest_contracts::risk_tree(x);
            &&& json::member(tree, "maximumPositionNotionalMicros"@) == Some(JsonTree::Int(x.maximum_position_notional_micros as int))
            &&& json::member(tree, "maximumOrderQuantityMicros"@) == Some(JsonTree::Int(x.maximum_order_quantity_micros as int))
            &&& json::member(tree, "maximumLossMicros"@) == Some(JsonTree::Int(x.maximum_loss_micros as int))
            &&& json::member(tree, "maximumOpenPositions"@) == Some(JsonTree::Int(x.maximum_open_positions as int))
        }),
{
    reveal_strlit("maximumPositionNotionalMicros");
    reveal_strlit("maximumOrderQuantityMicros");
    reveal_strlit("maximumLossMicros");
    reveal_strlit("maximumOpenPositions");
    assert("maximumPositionNotionalMicros"@.len() == 29);
    assert("maximumOrderQuantityMicros"@.len() == 26);
    assert("maximumLossMicros"@.len() == 17);
    assert("maximumOpenPositions"@.len() == 20);
}

/// A configuration is written part by part.
pub proof fn configuration_is_written(
    c: BacktestConfiguration,
)
    ensures
        ({
            let tree = backtest_contracts::configuration_tree(c);
            &&& json::member(tree, "schema"@) == Some(JsonTree::Text(c.schema@))
            &&& json::member(tree, "strategy"@) == Some(backtest_contracts::strategy_tree(c.strategy))
            &&& json::member(tree, "dataset"@) == Some(backtest_contracts::dataset_tree(c.dataset))
            &&& json::member(tree, "capabilityGraph"@) == Some(backtest_contracts::graph_tree(c.capability_graph))
            &&& json::member(tree, "capital"@) == Some(backtest_contracts::capital_tree(c.capital))
            &&& json::member(tree, "execution"@) == Some(backtest_contracts::execution_tree(c.execution))
            &&& json::member(tree, "costs"@) == Some(backtest_contracts::costs_tree(c.costs))
            &&& json::member(tree, "liquidity"@) == Some(backtest_contracts::liquidity_tree(c.liquidity))
            &&& json::member(tree, "instruments"@) == Some(backtest_contracts::instrument_trees(c.instruments@))
            &&& json::member(tree, "risk"@) == Some(backtest_contracts::risk_tree(c.risk))
            &&& json::member(tree, "endOfData"@) == Some(JsonTree::Text(c.end_of_data.name()))
            &&& json::member(tree, "evaluatorVersion"@) == Some(JsonTree::Text(c.evaluator_version@))
            &&& json::member(tree, "compilerVersion"@) == Some(JsonTree::Text(c.compiler_version@))
            &&& json::member(tree, "pluginFingerprints"@) == Some(JsonTree::Object(c.plugin_fingerprints@))
            &&& json::member(tree, "variableOverrides"@) == Some(JsonTree::Object(c.variable_overrides@))
        }),
{
    reveal_strlit("schema");
    reveal_strlit("strategy");
    reveal_strlit("dataset");
    reveal_strlit("capabilityGraph");
    reveal_strlit("capital");
    reveal_strlit("execution");
    reveal_strlit("costs");
    reveal_strlit("liquidity");
    reveal_strlit("instruments");
    reveal_strlit("risk");
    reveal_strlit("endOfData");
    reveal_strlit("evaluatorVersion");
    reveal_strlit("compilerVersion");
    reveal_strlit("pluginFingerprints");
    reveal_strlit("variableOverrides");
    assert("schema"@.len() == 6);
    assert("strategy"@.len() == 8);
    assert("dataset"@.len() == 7);
    assert("capabilityGraph"@.len() == 15);
    assert("capital"@.len() == 7);
    assert("execution"@.len() == 9);
    assert("costs"@.len() == 5);
    assert("liquidity"@.len() == 9);
    assert("instruments"@.len() == 11);
    assert("risk"@.len() == 4);
    assert("endOfData"@.len() == 9);
    assert("evaluatorVersion"@.len() == 16);
    assert("compilerVersion"@.len() == 15);
    assert("pluginFingerprints"@.len() == 18);
    assert("variableOverrides"@.len() == 17);
    assert("dataset"@[0] == 'd');
    assert("capital"@[0] == 'c');
    assert("capabilityGraph"@[1] == 'a');
    assert("compilerVersion"@[1] == 'o');
    assert("execution"@[0] == 'e');
    assert("liquidity"@[0] == 'l');
    assert("execution"@[1] == 'x');
    assert("endOfData"@[1] == 'n');
    assert("endOfData"@[0] == 'e');
}

/// A diagnostic is written member by member.
pub proof fn diagnostic_is_written(
    d: DiagnosticView,
)
    ensures
        ({
            let tree = backtest_contracts::diagnostic_tree(d);
            &&& json::member(tree, "code"@) == Some(JsonTree::Text(d.code))
            &&& json::member(tree, "field"@) == Some(json::text_or_null(d.field))
            &&& json::member(tree, "severity"@) == Some(JsonTree::Text(d.severity.name()))
            &&& json::member(tree, "detail"@) == Some(JsonTree::Text(d.detail))
        }),
{
    reveal_strlit("code");
    reveal_strlit("field");
    reveal_strlit("severity");
    reveal_strlit("detail");
    assert("code"@.len() == 4);
    assert("field"@.len() == 5);
    assert("severity"@.len() == 8);
    assert("detail"@.len() == 6);
}

/// A manifest is written part by part.
pub proof fn manifest_is_written(
    c: BacktestRunManifestContent,
)
    ensures
        ({
            let tree = backtest_contracts::manifest_tree(c);
            &&& json::member(tree, "schema"@) == Some(JsonTree::Text(c.schema@))
            &&& json::member(tree, "runId"@) == Some(JsonTree::Text(c.run_id@))
            &&& json::member(tree, "requestHash"@) == Some(JsonTree::Text(c.request_hash@))
            &&& json::member(tree, "idempotencyKey"@) == Some(JsonTree::Text(c.idempotency_key@))
            &&& json::member(tree, "configuration"@) == Some(backtest_contracts::configuration_tree(c.configuration))
            &&& json::member(tree, "authority"@) == Some(c.authority@)
            &&& json::member(tree, "client"@) == Some(JsonTree::Text(c.client@))
            &&& json::member(tree, "purpose"@) == Some(JsonTree::Text(c.purpose@))
            &&& json::member(tree, "evidenceRefs"@) == Some(json::text_array(text::texts(c.evidence_refs@)))
            &&& json::member(tree, "firstAttemptId"@) == Some(JsonTree::Text(c.first_attempt_id@))
            &&& json::member(tree, "validation"@) matches Some(said) && json::member(said, "ready"@) == Some(
                JsonTree::Bool(c.validation.ready),
            )
        }),
{
    reveal_strlit("schema");
    reveal_strlit("runId");
    reveal_strlit("requestHash");
    reveal_strlit("idempotencyKey");
    reveal_strlit("configuration");
    reveal_strlit("validation");
    reveal_strlit("authority");
    reveal_strlit("client");
    reveal_strlit("purpose");
    reveal_strlit("evidenceRefs");
    reveal_strlit("firstAttemptId");
    reveal_strlit("ready");
    reveal_strlit("diagnostics");
    assert("schema"@.len() == 6);
    assert("runId"@.len() == 5);
    assert("requestHash"@.len() == 11);
    assert("idempotencyKey"@.len() == 14);
    assert("configuration"@.len() == 13);
    assert("validation"@.len() == 10);
    assert("authority"@.len() == 9);
    assert("client"@.len() == 6);
    assert("purpose"@.len() == 7);
    assert("evidenceRefs"@.len() == 12);
    assert("firstAttemptId"@.len() == 14);
    assert("ready"@.len() == 5);
    assert("diagnostics"@.len() == 11);
    assert("schema"@[0] == 's');
    assert("client"@[0] == 'c');
    assert("runId"@[1] == 'u');
    assert("ready"@[1] == 'e');
    assert("requestHash"@[0] == 'r');
    assert("diagnostics"@[0] == 'd');
    assert("idempotencyKey"@[0] == 'i');
    assert("firstAttemptId"@[0] == 'f');
}

/// A result is written part by part.
pub proof fn result_is_written(
    c: BacktestResultContent,
)
    ensures
        ({
            let tree = backtest_contracts::result_tree(c);
            &&& json::member(tree, "schema"@) == Some(JsonTree::Text(c.schema@))
            &&& json::member(tree, "runId"@) == Some(JsonTree::Text(c.run_id@))
            &&& json::member(tree, "manifestHash"@) == Some(JsonTree::Text(c.manifest_hash@))
            &&& json::member(tree, "evaluatorVersion"@) == Some(JsonTree::Text(c.evaluator_version@))
            &&& json::member(tree, "compilerVersion"@) == Some(JsonTree::Text(c.compiler_version@))
            &&& json::member(tree, "decisions"@) == Some(backtest_contracts::values_tree(c.decisions@))
            &&& json::member(tree, "orders"@) == Some(backtest_contracts::values_tree(c.orders@))
            &&& json::member(tree, "fills"@) == Some(backtest_contracts::values_tree(c.fills@))
            &&& json::member(tree, "positions"@) == Some(backtest_contracts::values_tree(c.positions@))
            &&& json::member(tree, "ledger"@) == Some(backtest_contracts::values_tree(c.ledger@))
            &&& json::member(tree, "accounting"@) == Some(c.accounting@)
            &&& json::member(tree, "diagnostics"@) == Some(backtest_contracts::diagnostic_trees(backtest_contracts::diagnostic_views(c.diagnostics@)))
        }),
{
    reveal_strlit("schema");
    reveal_strlit("runId");
    reveal_strlit("manifestHash");
    reveal_strlit("evaluatorVersion");
    reveal_strlit("compilerVersion");
    reveal_strlit("decisions");
    reveal_strlit("orders");
    reveal_strlit("fills");
    reveal_strlit("positions");
    reveal_strlit("ledger");
    reveal_strlit("accounting");
    reveal_strlit("diagnostics");
    assert("schema"@.len() == 6);
    assert("runId"@.len() == 5);
    assert("manifestHash"@.len() == 12);
    assert("evaluatorVersion"@.len() == 16);
    assert("compilerVersion"@.len() == 15);
    assert("decisions"@.len() == 9);
    assert("orders"@.len() == 6);
    assert("fills"@.len() == 5);
    assert("positions"@.len() == 9);
    assert("ledger"@.len() == 6);
    assert("accounting"@.len() == 10);
    assert("diagnostics"@.len() == 11);
    assert("schema"@[0] == 's');
    assert("orders"@[0] == 'o');
    assert("ledger"@[0] == 'l');
    assert("runId"@[0] == 'r');
    assert("fills"@[0] == 'f');
    assert("decisions"@[0] == 'd');
    assert("positions"@[0] == 'p');
}

} // verus!

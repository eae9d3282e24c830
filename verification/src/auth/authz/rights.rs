//! What the local owner may do, by the names of the capabilities, and what a plan and its
//! packs add up to.

use vstd::prelude::*;

use crate::auth::authz;
use crate::auth::authz::{ActivationPack, ActorView, LimitsView};
use crate::text;

verus! {

/// Whether a capability is one that is never the owner's, by its name.
pub open spec fn is_commercial(asked: Seq<char>) -> bool {
    ||| text::begins(asked, "billing."@)
    ||| text::begins(asked, "checkout."@)
    ||| text::begins(asked, "purchase."@)
    ||| text::begins(asked, "payout."@)
    ||| text::begins(asked, "creator_payout."@)
    ||| text::begins(asked, "hosted_oauth."@)
    ||| text::begins(asked, "managed_worker."@)
    ||| text::begins(asked, "enterprise_sso."@)
    ||| text::begins(asked, "enterprise_rbac."@)
    ||| text::begins(asked, "operator_dashboard."@)
    ||| text::begins(asked, "break_glass."@)
    ||| text::begins(asked, "platform.operations."@)
}

/// Whether a capability is one of the owner's own, by its name.
pub open spec fn is_owned(asked: Seq<char>) -> bool {
    ||| text::begins(asked, "strategy."@)
    ||| text::begins(asked, "strategy_version."@)
    ||| text::begins(asked, "strategy_analysis."@)
    ||| text::begins(asked, "strategy_contract."@)
    ||| text::begins(asked, "strategy_execution_config."@)
    ||| text::begins(asked, "strategy_execution_activation."@)
    ||| text::begins(asked, "provider_account."@)
    ||| text::begins(asked, "plugin_instance."@)
    ||| text::begins(asked, "plugin_manifest_local."@)
    ||| text::begins(asked, "credential."@)
    ||| text::begins(asked, "credential_metadata."@)
    ||| text::begins(asked, "providers.credentials."@)
    ||| text::begins(asked, "research."@)
    ||| text::begins(asked, "backtest."@)
    ||| text::begins(asked, "scheduler."@)
    ||| text::begins(asked, "orders."@)
    ||| text::begins(asked, "risk."@)
    ||| text::begins(asked, "positions."@)
    ||| text::begins(asked, "journal."@)
    ||| text::begins(asked, "replay."@)
    ||| text::begins(asked, "share."@)
    ||| text::begins(asked, "alert."@)
    ||| text::begins(asked, "monitoring.read."@)
}

/// Whether a capability is granted: one of the patterns is the capability itself, or is a
/// star, or is a beginning of it with a star behind.
pub open spec fn is_granted(asked: Seq<char>, patterns: Seq<Seq<char>>) -> bool {
    exists|i: int| 0 <= i < patterns.len() && authz::wildcard(asked, #[trigger] patterns[i])
}

/// A pattern that is a stem with a star behind is met by what begins with the stem.
pub proof fn star_at_the_end(value: Seq<char>, stem: Seq<char>, pattern: Seq<char>)
    requires
        pattern == stem.push('*'),
        !stem.contains('*'),
    ensures
        authz::wildcard(value, pattern) <==> text::begins(value, stem),
{
    reveal_strlit("*");
    pattern.index_of_first_ensures('*');
    assert(pattern[stem.len() as int] == '*');
    assert(pattern.contains('*'));
    let at = pattern.index_of_first('*')->Some_0;
    if at < stem.len() {
        assert(stem[at] == '*');
    }
    assert(at == stem.len());
    assert(authz::prefix_of(pattern) =~= stem);
    assert(authz::suffix_of(pattern) =~= Seq::<char>::empty());
    assert(value.subrange(value.len() as int, value.len() as int) =~= Seq::<char>::empty());
    assert(text::ends(value, Seq::<char>::empty()));
    if pattern == "*"@ {
        assert(stem =~= Seq::<char>::empty());
        assert(value.subrange(0, 0) =~= stem);
    }
    if pattern == value {
        assert(value.subrange(0, stem.len() as int) =~= stem);
    }
}

/// A pattern without a star is met by itself alone.
pub proof fn plain_pattern_is_met_by_itself(value: Seq<char>, pattern: Seq<char>)
    requires
        !pattern.contains('*'),
    ensures
        authz::wildcard(value, pattern) <==> value == pattern,
{
    reveal_strlit("*");
    if pattern == "*"@ {
        assert(pattern[0] == '*');
    }
}

proof fn commercial_names_first(asked: Seq<char>)
    ensures
        authz::wildcard(asked, authz::commercial_deny()[0]) <==> text::begins(asked, "billing."@),
        authz::wildcard(asked, authz::commercial_deny()[1]) <==> text::begins(asked, "checkout."@),
        authz::wildcard(asked, authz::commercial_deny()[2]) <==> text::begins(asked, "purchase."@),
        authz::wildcard(asked, authz::commercial_deny()[3]) <==> text::begins(asked, "payout."@),
        authz::wildcard(asked, authz::commercial_deny()[4]) <==> text::begins(asked, "creator_payout."@),
        authz::wildcard(asked, authz::commercial_deny()[5]) <==> text::begins(asked, "hosted_oauth."@),
{
    assert(authz::commercial_deny()[0] == "billing.*"@);
    assert("billing.*"@ == "billing."@.push('*') && !"billing."@.contains('*')) by {
        reveal_strlit("billing.");
        reveal_strlit("billing.*");
        assert("billing.*"@ =~= "billing."@.push('*'));
    }
    star_at_the_end(asked, "billing."@, "billing.*"@);
    assert(authz::commercial_deny()[1] == "checkout.*"@);
    assert("checkout.*"@ == "checkout."@.push('*') && !"checkout."@.contains('*')) by {
        reveal_strlit("checkout.");
        reveal_strlit("checkout.*");
        assert("checkout.*"@ =~= "checkout."@.push('*'));
    }
    star_at_the_end(asked, "checkout."@, "checkout.*"@);
    assert(authz::commercial_deny()[2] == "purchase.*"@);
    assert("purchase.*"@ == "purchase."@.push('*') && !"purchase."@.contains('*')) by {
        reveal_strlit("purchase.");
        reveal_strlit("purchase.*");
        assert("purchase.*"@ =~= "purchase."@.push('*'));
    }
    star_at_the_end(asked, "purchase."@, "purchase.*"@);
    assert(authz::commercial_deny()[3] == "payout.*"@);
    assert("payout.*"@ == "payout."@.push('*') && !"payout."@.contains('*')) by {
        reveal_strlit("payout.");
        reveal_strlit("payout.*");
        assert("payout.*"@ =~= "payout."@.push('*'));
    }
    star_at_the_end(asked, "payout."@, "payout.*"@);
    assert(authz::commercial_deny()[4] == "creator_payout.*"@);
    assert("creator_payout.*"@ == "creator_payout."@.push('*') && !"creator_payout."@.contains('*')) by {
        reveal_strlit("creator_payout.");
        reveal_strlit("creator_payout.*");
        assert("creator_payout.*"@ =~= "creator_payout."@.push('*'));
    }
    star_at_the_end(asked, "creator_payout."@, "creator_payout.*"@);
    assert(authz::commercial_deny()[5] == "hosted_oauth.*"@);
    assert("hosted_oauth.*"@ == "hosted_oauth."@.push('*') && !"hosted_oauth."@.contains('*')) by {
        reveal_strlit("hosted_oauth.");
        reveal_strlit("hosted_oauth.*");
        assert("hosted_oauth.*"@ =~= "hosted_oauth."@.push('*'));
    }
    star_at_the_end(asked, "hosted_oauth."@, "hosted_oauth.*"@);
}

proof fn commercial_names_second(asked: Seq<char>)
    ensures
        authz::wildcard(asked, authz::commercial_deny()[6]) <==> text::begins(asked, "managed_worker."@),
        authz::wildcard(asked, authz::commercial_deny()[7]) <==> text::begins(asked, "enterprise_sso."@),
        authz::wildcard(asked, authz::commercial_deny()[8]) <==> text::begins(asked, "enterprise_rbac."@),
        authz::wildcard(asked, authz::commercial_deny()[9]) <==> text::begins(asked, "operator_dashboard."@),
        authz::wildcard(asked, authz::commercial_deny()[10]) <==> text::begins(asked, "break_glass."@),
        authz::wildcard(asked, authz::commercial_deny()[11]) <==> text::begins(asked, "platform.operations."@),
{
    assert(authz::commercial_deny()[6] == "managed_worker.*"@);
    assert("managed_worker.*"@ == "managed_worker."@.push('*') && !"managed_worker."@.contains('*')) by {
        reveal_strlit("managed_worker.");
        reveal_strlit("managed_worker.*");
        assert("managed_worker.*"@ =~= "managed_worker."@.push('*'));
    }
    star_at_the_end(asked, "managed_worker."@, "managed_worker.*"@);
    assert(authz::commercial_deny()[7] == "enterprise_sso.*"@);
    assert("enterprise_sso.*"@ == "enterprise_sso."@.push('*') && !"enterprise_sso."@.contains('*')) by {
        reveal_strlit("enterprise_sso.");
        reveal_strlit("enterprise_sso.*");
        assert("enterprise_sso.*"@ =~= "enterprise_sso."@.push('*'));
    }
    star_at_the_end(asked, "enterprise_sso."@, "enterprise_sso.*"@);
    assert(authz::commercial_deny()[8] == "enterprise_rbac.*"@);
    assert("enterprise_rbac.*"@ == "enterprise_rbac."@.push('*') && !"enterprise_rbac."@.contains('*')) by {
        reveal_strlit("enterprise_rbac.");
        reveal_strlit("enterprise_rbac.*");
        assert("enterprise_rbac.*"@ =~= "enterprise_rbac."@.push('*'));
    }
    star_at_the_end(asked, "enterprise_rbac."@, "enterprise_rbac.*"@);
    assert(authz::commercial_deny()[9] == "operator_dashboard.*"@);
    assert("operator_dashboard.*"@ == "operator_dashboard."@.push('*') && !"operator_dashboard."@.contains('*')) by {
        reveal_strlit("operator_dashboard.");
        reveal_strlit("operator_dashboard.*");
        assert("operator_dashboard.*"@ =~= "operator_dashboard."@.push('*'));
    }
    star_at_the_end(asked, "operator_dashboard."@, "operator_dashboard.*"@);
    assert(authz::commercial_deny()[10] == "break_glass.*"@);
    assert("break_glass.*"@ == "break_glass."@.push('*') && !"break_glass."@.contains('*')) by {
        reveal_strlit("break_glass.");
        reveal_strlit("break_glass.*");
        assert("break_glass.*"@ =~= "break_glass."@.push('*'));
    }
    star_at_the_end(asked, "break_glass."@, "break_glass.*"@);
    assert(authz::commercial_deny()[11] == "platform.operations.*"@);
    assert("platform.operations.*"@ == "platform.operations."@.push('*') && !"platform.operations."@.contains('*')) by {
        reveal_strlit("platform.operations.");
        reveal_strlit("platform.operations.*");
        assert("platform.operations.*"@ =~= "platform.operations."@.push('*'));
    }
    star_at_the_end(asked, "platform.operations."@, "platform.operations.*"@);
}

proof fn owner_names_first(asked: Seq<char>)
    ensures
        authz::wildcard(asked, authz::local_owner_allow()[0]) <==> text::begins(asked, "strategy."@),
        authz::wildcard(asked, authz::local_owner_allow()[1]) <==> text::begins(asked, "strategy_version."@),
        authz::wildcard(asked, authz::local_owner_allow()[2]) <==> text::begins(asked, "strategy_analysis."@),
        authz::wildcard(asked, authz::local_owner_allow()[3]) <==> text::begins(asked, "strategy_contract."@),
        authz::wildcard(asked, authz::local_owner_allow()[4]) <==> text::begins(asked, "strategy_execution_config."@),
        authz::wildcard(asked, authz::local_owner_allow()[5]) <==> text::begins(asked, "strategy_execution_activation."@),
{
    assert(authz::local_owner_allow()[0] == "strategy.*"@);
    assert("strategy.*"@ == "strategy."@.push('*') && !"strategy."@.contains('*')) by {
        reveal_strlit("strategy.");
        reveal_strlit("strategy.*");
        assert("strategy.*"@ =~= "strategy."@.push('*'));
    }
    star_at_the_end(asked, "strategy."@, "strategy.*"@);
    assert(authz::local_owner_allow()[1] == "strategy_version.*"@);
    assert("strategy_version.*"@ == "strategy_version."@.push('*') && !"strategy_version."@.contains('*')) by {
        reveal_strlit("strategy_version.");
        reveal_strlit("strategy_version.*");
        assert("strategy_version.*"@ =~= "strategy_version."@.push('*'));
    }
    star_at_the_end(asked, "strategy_version."@, "strategy_version.*"@);
    assert(authz::local_owner_allow()[2] == "strategy_analysis.*"@);
    assert("strategy_analysis.*"@ == "strategy_analysis."@.push('*') && !"strategy_analysis."@.contains('*')) by {
        reveal_strlit("strategy_analysis.");
        reveal_strlit("strategy_analysis.*");
        assert("strategy_analysis.*"@ =~= "strategy_analysis."@.push('*'));
    }
    star_at_the_end(asked, "strategy_analysis."@, "strategy_analysis.*"@);
    assert(authz::local_owner_allow()[3] == "strategy_contract.*"@);
    assert("strategy_contract.*"@ == "strategy_contract."@.push('*') && !"strategy_contract."@.contains('*')) by {
        reveal_strlit("strategy_contract.");
        reveal_strlit("strategy_contract.*");
        assert("strategy_contract.*"@ =~= "strategy_contract."@.push('*'));
    }
    star_at_the_end(asked, "strategy_contract."@, "strategy_contract.*"@);
    assert(authz::local_owner_allow()[4] == "strategy_execution_config.*"@);
    assert("strategy_execution_config.*"@ == "strategy_execution_config."@.push('*') && !"strategy_execution_config."@.contains('*')) by {
        reveal_strlit("strategy_execution_config.");
        reveal_strlit("strategy_execution_config.*");
        assert("strategy_execution_config.*"@ =~= "strategy_execution_config."@.push('*'));
    }
    star_at_the_end(asked, "strategy_execution_config."@, "strategy_execution_config.*"@);
    assert(authz::local_owner_allow()[5] == "strategy_execution_activation.*"@);
    assert("strategy_execution_activation.*"@ == "strategy_execution_activation."@.push('*') && !"strategy_execution_activation."@.contains('*')) by {
        reveal_strlit("strategy_execution_activation.");
        reveal_strlit("strategy_execution_activation.*");
        assert("strategy_execution_activation.*"@ =~= "strategy_execution_activation."@.push('*'));
    }
    star_at_the_end(asked, "strategy_execution_activation."@, "strategy_execution_activation.*"@);
}

proof fn owner_names_second(asked: Seq<char>)
    ensures
        authz::wildcard(asked, authz::local_owner_allow()[6]) <==> text::begins(asked, "provider_account."@),
        authz::wildcard(asked, authz::local_owner_allow()[7]) <==> text::begins(asked, "plugin_instance."@),
        authz::wildcard(asked, authz::local_owner_allow()[8]) <==> text::begins(asked, "plugin_manifest_local."@),
        authz::wildcard(asked, authz::local_owner_allow()[9]) <==> text::begins(asked, "credential."@),
        authz::wildcard(asked, authz::local_owner_allow()[10]) <==> text::begins(asked, "credential_metadata."@),
        authz::wildcard(asked, authz::local_owner_allow()[11]) <==> text::begins(asked, "providers.credentials."@),
{
    assert(authz::local_owner_allow()[6] == "provider_account.*"@);
    assert("provider_account.*"@ == "provider_account."@.push('*') && !"provider_account."@.contains('*')) by {
        reveal_strlit("provider_account.");
        reveal_strlit("provider_account.*");
        assert("provider_account.*"@ =~= "provider_account."@.push('*'));
    }
    star_at_the_end(asked, "provider_account."@, "provider_account.*"@);
    assert(authz::local_owner_allow()[7] == "plugin_instance.*"@);
    assert("plugin_instance.*"@ == "plugin_instance."@.push('*') && !"plugin_instance."@.contains('*')) by {
        reveal_strlit("plugin_instance.");
        reveal_strlit("plugin_instance.*");
        assert("plugin_instance.*"@ =~= "plugin_instance."@.push('*'));
    }
    star_at_the_end(asked, "plugin_instance."@, "plugin_instance.*"@);
    assert(authz::local_owner_allow()[8] == "plugin_manifest_local.*"@);
    assert("plugin_manifest_local.*"@ == "plugin_manifest_local."@.push('*') && !"plugin_manifest_local."@.contains('*')) by {
        reveal_strlit("plugin_manifest_local.");
        reveal_strlit("plugin_manifest_local.*");
        assert("plugin_manifest_local.*"@ =~= "plugin_manifest_local."@.push('*'));
    }
    star_at_the_end(asked, "plugin_manifest_local."@, "plugin_manifest_local.*"@);
    assert(authz::local_owner_allow()[9] == "credential.*"@);
    assert("credential.*"@ == "credential."@.push('*') && !"credential."@.contains('*')) by {
        reveal_strlit("credential.");
        reveal_strlit("credential.*");
        assert("credential.*"@ =~= "credential."@.push('*'));
    }
    star_at_the_end(asked, "credential."@, "credential.*"@);
    assert(authz::local_owner_allow()[10] == "credential_metadata.*"@);
    assert("credential_metadata.*"@ == "credential_metadata."@.push('*') && !"credential_metadata."@.contains('*')) by {
        reveal_strlit("credential_metadata.");
        reveal_strlit("credential_metadata.*");
        assert("credential_metadata.*"@ =~= "credential_metadata."@.push('*'));
    }
    star_at_the_end(asked, "credential_metadata."@, "credential_metadata.*"@);
    assert(authz::local_owner_allow()[11] == "providers.credentials.*"@);
    assert("providers.credentials.*"@ == "providers.credentials."@.push('*') && !"providers.credentials."@.contains('*')) by {
        reveal_strlit("providers.credentials.");
        reveal_strlit("providers.credentials.*");
        assert("providers.credentials.*"@ =~= "providers.credentials."@.push('*'));
    }
    star_at_the_end(asked, "providers.credentials."@, "providers.credentials.*"@);
}

proof fn owner_names_third(asked: Seq<char>)
    ensures
        authz::wildcard(asked, authz::local_owner_allow()[12]) <==> text::begins(asked, "research."@),
        authz::wildcard(asked, authz::local_owner_allow()[13]) <==> text::begins(asked, "backtest."@),
        authz::wildcard(asked, authz::local_owner_allow()[14]) <==> text::begins(asked, "scheduler."@),
        authz::wildcard(asked, authz::local_owner_allow()[15]) <==> text::begins(asked, "orders."@),
        authz::wildcard(asked, authz::local_owner_allow()[16]) <==> text::begins(asked, "risk."@),
        authz::wildcard(asked, authz::local_owner_allow()[17]) <==> text::begins(asked, "positions."@),
{
    assert(authz::local_owner_allow()[12] == "research.*"@);
    assert("research.*"@ == "research."@.push('*') && !"research."@.contains('*')) by {
        reveal_strlit("research.");
        reveal_strlit("research.*");
        assert("research.*"@ =~= "research."@.push('*'));
    }
    star_at_the_end(asked, "research."@, "research.*"@);
    assert(authz::local_owner_allow()[13] == "backtest.*"@);
    assert("backtest.*"@ == "backtest."@.push('*') && !"backtest."@.contains('*')) by {
        reveal_strlit("backtest.");
        reveal_strlit("backtest.*");
        assert("backtest.*"@ =~= "backtest."@.push('*'));
    }
    star_at_the_end(asked, "backtest."@, "backtest.*"@);
    assert(authz::local_owner_allow()[14] == "scheduler.*"@);
    assert("scheduler.*"@ == "scheduler."@.push('*') && !"scheduler."@.contains('*')) by {
        reveal_strlit("scheduler.");
        reveal_strlit("scheduler.*");
        assert("scheduler.*"@ =~= "scheduler."@.push('*'));
    }
    star_at_the_end(asked, "scheduler."@, "scheduler.*"@);
    assert(authz::local_owner_allow()[15] == "orders.*"@);
    assert("orders.*"@ == "orders."@.push('*') && !"orders."@.contains('*')) by {
        reveal_strlit("orders.");
        reveal_strlit("orders.*");
        assert("orders.*"@ =~= "orders."@.push('*'));
    }
    star_at_the_end(asked, "orders."@, "orders.*"@);
    assert(authz::local_owner_allow()[16] == "risk.*"@);
    assert("risk.*"@ == "risk."@.push('*') && !"risk."@.contains('*')) by {
        reveal_strlit("risk.");
        reveal_strlit("risk.*");
        assert("risk.*"@ =~= "risk."@.push('*'));
    }
    star_at_the_end(asked, "risk."@, "risk.*"@);
    assert(authz::local_owner_allow()[17] == "positions.*"@);
    assert("positions.*"@ == "positions."@.push('*') && !"positions."@.contains('*')) by {
        reveal_strlit("positions.");
        reveal_strlit("positions.*");
        assert("positions.*"@ =~= "positions."@.push('*'));
    }
    star_at_the_end(asked, "positions."@, "positions.*"@);
}

proof fn owner_names_fourth(asked: Seq<char>)
    ensures
        authz::wildcard(asked, authz::local_owner_allow()[18]) <==> text::begins(asked, "journal."@),
        authz::wildcard(asked, authz::local_owner_allow()[19]) <==> text::begins(asked, "replay."@),
        authz::wildcard(asked, authz::local_owner_allow()[20]) <==> text::begins(asked, "share."@),
        authz::wildcard(asked, authz::local_owner_allow()[21]) <==> text::begins(asked, "alert."@),
        authz::wildcard(asked, authz::local_owner_allow()[22]) <==> text::begins(asked, "monitoring.read."@),
{
    assert(authz::local_owner_allow()[18] == "journal.*"@);
    assert("journal.*"@ == "journal."@.push('*') && !"journal."@.contains('*')) by {
        reveal_strlit("journal.");
        reveal_strlit("journal.*");
        assert("journal.*"@ =~= "journal."@.push('*'));
    }
    star_at_the_end(asked, "journal."@, "journal.*"@);
    assert(authz::local_owner_allow()[19] == "replay.*"@);
    assert("replay.*"@ == "replay."@.push('*') && !"replay."@.contains('*')) by {
        reveal_strlit("replay.");
        reveal_strlit("replay.*");
        assert("replay.*"@ =~= "replay."@.push('*'));
    }
    star_at_the_end(asked, "replay."@, "replay.*"@);
    assert(authz::local_owner_allow()[20] == "share.*"@);
    assert("share.*"@ == "share."@.push('*') && !"share."@.contains('*')) by {
        reveal_strlit("share.");
        reveal_strlit("share.*");
        assert("share.*"@ =~= "share."@.push('*'));
    }
    star_at_the_end(asked, "share."@, "share.*"@);
    assert(authz::local_owner_allow()[21] == "alert.*"@);
    assert("alert.*"@ == "alert."@.push('*') && !"alert."@.contains('*')) by {
        reveal_strlit("alert.");
        reveal_strlit("alert.*");
        assert("alert.*"@ =~= "alert."@.push('*'));
    }
    star_at_the_end(asked, "alert."@, "alert.*"@);
    assert(authz::local_owner_allow()[22] == "monitoring.read.*"@);
    assert("monitoring.read.*"@ == "monitoring.read."@.push('*') && !"monitoring.read."@.contains('*')) by {
        reveal_strlit("monitoring.read.");
        reveal_strlit("monitoring.read.*");
        assert("monitoring.read.*"@ =~= "monitoring.read."@.push('*'));
    }
    star_at_the_end(asked, "monitoring.read."@, "monitoring.read.*"@);
}

proof fn names_decide(asked: Seq<char>)
    ensures
        authz::matches_one(asked, authz::commercial_deny()) <==> is_commercial(asked),
        authz::matches_one(asked, authz::local_owner_allow()) <==> is_owned(asked),
{
    commercial_names_first(asked);
    commercial_names_second(asked);
    owner_names_first(asked);
    owner_names_second(asked);
    owner_names_third(asked);
    owner_names_fourth(asked);
    assert(authz::commercial_deny().len() == 12);
    assert(authz::local_owner_allow().len() == 23);
}

/// A capability is allowed if and only if it is named, is not commercial, and is granted
/// or the owner's own; the reason of a refusal says which of these failed.
pub proof fn capability_is_decided_by_its_name(capability: Seq<char>, actor: ActorView)
    ensures
        ({
            let asked = text::trimmed(capability);
            let decision = authz::owner_decision(capability, actor);
            &&& decision.allowed <==> asked.len() > 0 && !is_commercial(asked) && (is_granted(
                asked,
                actor.explicit_capabilities,
            ) || is_owned(asked))
            &&& decision.allowed ==> decision.reason == "allowed_local_owner"@
            &&& asked.len() == 0 ==> decision.reason == "capability_required"@
            &&& asked.len() > 0 && is_commercial(asked) ==> decision.reason
                == "commercial_capability_denied"@
            &&& asked.len() > 0 && !is_commercial(asked) && !decision.allowed ==> decision.reason
                == "capability_not_declared"@
        }),
{
    names_decide(text::trimmed(capability));
}

/// What a plan and its packs allow is in each number the largest that one of them allows.
pub proof fn limits_are_the_largest(plan: LimitsView, packs: Seq<ActivationPack>)
    ensures
        ({
            let all = authz::limits_of(plan, packs);
            &&& plan.max_active_activations <= all.max_active_activations
            &&& plan.journal_retention_days <= all.journal_retention_days
            &&& forall|i: int|
                0 <= i < packs.len() ==> (#[trigger] packs[i]).limits.max_active_activations
                    <= all.max_active_activations && packs[i].limits.journal_retention_days
                    <= all.journal_retention_days
            &&& all.max_active_activations == plan.max_active_activations || exists|i: int|
                0 <= i < packs.len() && (#[trigger] packs[i]).limits.max_active_activations
                    == all.max_active_activations
            &&& all.journal_retention_days == plan.journal_retention_days || exists|i: int|
                0 <= i < packs.len() && (#[trigger] packs[i]).limits.journal_retention_days
                    == all.journal_retention_days
        }),
    decreases packs.len(),
{
    if packs.len() > 0 {
        let shorter = packs.drop_last();
        limits_are_the_largest(plan, shorter);
        let before = authz::limits_of(plan, shorter);
        let all = authz::limits_of(plan, packs);
        let last = packs.len() - 1;
        assert(packs[last] == packs.last());
        assert forall|i: int| 0 <= i < packs.len() implies (
        #[trigger] packs[i]).limits.max_active_activations <= all.max_active_activations
            && packs[i].limits.journal_retention_days <= all.journal_retention_days by {
            if i < last {
                assert(shorter[i] == packs[i]);
            }
        }
        if all.max_active_activations == before.max_active_activations
            && all.max_active_activations != plan.max_active_activations {
            let i = choose|i: int|
                0 <= i < shorter.len() && (#[trigger] shorter[i]).limits.max_active_activations
                    == before.max_active_activations;
            assert(packs[i] == shorter[i]);
        }
        if all.journal_retention_days == before.journal_retention_days
            && all.journal_retention_days != plan.journal_retention_days {
            let i = choose|i: int|
                0 <= i < shorter.len() && (#[trigger] shorter[i]).limits.journal_retention_days
                    == before.journal_retention_days;
            assert(packs[i] == shorter[i]);
        }
    }
}

/// A plan with packs is evaluated often where one of them is: high where one is high,
/// else medium where one is medium.
pub proof fn tier_is_the_highest(plan: LimitsView, packs: Seq<ActivationPack>)
    ensures
        ({
            let all = authz::limits_of(plan, packs).evaluation_frequency_tier;
            &&& all == "high"@ <==> plan.evaluation_frequency_tier == "high"@ || exists|i: int|
                0 <= i < packs.len() && (#[trigger] packs[i]).limits.evaluation_frequency_tier@
                    == "high"@
            &&& all == "medium"@ <==> all != "high"@ && (plan.evaluation_frequency_tier
                == "medium"@ || exists|i: int|
                0 <= i < packs.len() && (#[trigger] packs[i]).limits.evaluation_frequency_tier@
                    == "medium"@)
        }),
    decreases packs.len(),
{
    reveal_strlit("high");
    reveal_strlit("medium");
    assert("high"@.len() == 4);
    assert("medium"@.len() == 6);
    if packs.len() > 0 {
        let shorter = packs.drop_last();
        tier_is_the_highest(plan, shorter);
        let last = packs.len() - 1;
        assert(packs[last] == packs.last());
        assert forall|i: int| 0 <= i < last implies shorter[i] == #[trigger] packs[i] by {}
        let tiers = |list: Seq<ActivationPack>, tier: Seq<char>|
            exists|i: int|
                0 <= i < list.len() && (#[trigger] list[i]).limits.evaluation_frequency_tier@ == tier;
        assert(tiers(packs, "high"@) <==> tiers(shorter, "high"@)
            || packs.last().limits.evaluation_frequency_tier@ == "high"@) by {
            if tiers(shorter, "high"@) {
                let i = choose|i: int|
                    0 <= i < shorter.len() && (
                    #[trigger] shorter[i]).limits.evaluation_frequency_tier@ == "high"@;
                assert(packs[i] == shorter[i]);
            }
        }
        assert(tiers(packs, "medium"@) <==> tiers(shorter, "medium"@)
            || packs.last().limits.evaluation_frequency_tier@ == "medium"@) by {
            if tiers(shorter, "medium"@) {
                let i = choose|i: int|
                    0 <= i < shorter.len() && (
                    #[trigger] shorter[i]).limits.evaluation_frequency_tier@ == "medium"@;
                assert(packs[i] == shorter[i]);
            }
        }
    }
}

/// A text is granted if and only if the plan grants it or one of the packs does.
pub proof fn grants_are_of_the_plan_or_a_pack(
    plan: Seq<Seq<char>>,
    packs: Seq<ActivationPack>,
    what: Seq<char>,
)
    ensures
        authz::granted(plan, packs).contains(what) <==> plan.contains(what) || exists|i: int|
            0 <= i < packs.len() && text::texts((#[trigger] packs[i]).grants@).contains(what),
    decreases packs.len(),
{
    if packs.len() > 0 {
        let shorter = packs.drop_last();
        grants_are_of_the_plan_or_a_pack(plan, shorter, what);
        let last = packs.len() - 1;
        assert(packs[last] == packs.last());
        assert forall|i: int| 0 <= i < last implies shorter[i] == #[trigger] packs[i] by {}
        if exists|i: int|
            0 <= i < shorter.len() && text::texts((#[trigger] shorter[i]).grants@).contains(what) {
            let i = choose|i: int|
                0 <= i < shorter.len() && text::texts((#[trigger] shorter[i]).grants@).contains(
                    what,
                );
            assert(packs[i] == shorter[i]);
        }
    }
}

} // verus!

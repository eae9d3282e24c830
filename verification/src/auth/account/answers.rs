//! What the answers of the local account say of what was asked, and which claims on an install
//! are accepted.

use vstd::prelude::*;

use crate::auth::account;
use crate::auth::session::PrincipalView;
use crate::json;
use crate::json::JsonTree;
use crate::text;

verus! {

/// A claim is accepted if and only if it says something, holds nothing that is forbidden,
/// is on the expected install, comes from the local owner, and names a subject or an
/// organization; the reason of a refusal is the first of these that failed.
pub proof fn claim_is_accepted_when_it_is_in_order(
    claim: Map<Seq<char>, JsonTree>,
    expected: Seq<char>,
)
    requires
        claim != Map::<Seq<char>, JsonTree>::empty(),
    ensures
        ({
            let tree = JsonTree::Object(claim);
            let fault = account::install_claim_fault(tree, expected);
            let named = account::claim_text(tree, "subject"@).len() > 0 || account::claim_text(
                tree,
                "organization_id"@,
            ).len() > 0;
            let ours = account::claim_text(tree, "issuer"@) == "local-owner"@;
            let here = account::claim_text(tree, "install_id"@) == expected;
            &&& fault is None <==> account::claim_fault(tree) is None && here && ours && named
            &&& account::claim_fault(tree) is Some ==> fault == account::claim_fault(tree)
            &&& account::claim_fault(tree) is None && !here ==> fault == Some(
                "install_id_mismatch"@,
            )
            &&& account::claim_fault(tree) is None && here && !ours ==> fault == Some(
                "claim_verifier_not_configured"@,
            )
            &&& account::claim_fault(tree) is None && here && ours && !named ==> fault == Some(
                "subject_missing"@,
            )
        }),
{
}

/// A claim that says nothing is missing.
pub proof fn empty_claim_is_missing(claim: JsonTree, expected: Seq<char>)
    requires
        !(claim is Object) || claim == JsonTree::Object(Map::<Seq<char>, JsonTree>::empty()),
    ensures
        account::install_claim_fault(claim, expected) == Some("missing_claim"@),
{
}

/// A key of a credential and one of what is private to a trader are forbidden however they
/// are spelled in case and space.
pub proof fn forbidden_keys_are_found(key: Seq<char>)
    ensures
        ({
            let name = text::lowered(text::trimmed(key));
            &&& name == "access_token"@ || name == "api_key"@ || name == "api_secret"@ || name
                == "broker_credentials"@ || name == "credential"@ || name == "credentials"@ || name
                == "data_credentials"@ || name == "refresh_token"@ ==> account::key_fault(key)
                == Some("credential_custody_forbidden"@)
            &&& name == "account_balance"@ || name == "account_balances"@ || name == "journal"@
                || name == "positions"@ || name == "strategy_secret"@ || name == "strategy_secrets"@
                || name == "strategy_source"@ || name == "trading_strategy_secrets"@
                ==> account::key_fault(key) is Some
        }),
{
    let credentials = account::credential_keys();
    assert(credentials[0] == "access_token"@);
    assert(credentials[1] == "api_key"@);
    assert(credentials[2] == "api_secret"@);
    assert(credentials[3] == "broker_credentials"@);
    assert(credentials[4] == "credential"@);
    assert(credentials[5] == "credentials"@);
    assert(credentials[6] == "data_credentials"@);
    assert(credentials[7] == "refresh_token"@);
    let private = account::private_keys();
    assert(private[0] == "account_balance"@);
    assert(private[1] == "account_balances"@);
    assert(private[2] == "journal"@);
    assert(private[3] == "positions"@);
    assert(private[4] == "strategy_secret"@);
    assert(private[5] == "strategy_secrets"@);
    assert(private[6] == "strategy_source"@);
    assert(private[7] == "trading_strategy_secrets"@);
}

/// The answer to a claim says whether it is valid, why not, and gives back only a valid one.
pub proof fn claim_answer_gives_back_what_is_valid(
    fault: Option<Seq<char>>,
    claim: JsonTree,
)
    ensures
        ({
            let tree = account::claim_result_tree(fault, claim);
            &&& json::member(tree, "valid"@) == Some(JsonTree::Bool(fault is None))
            &&& fault is None ==> json::member(tree, "claim"@) == Some(claim)
            &&& fault is Some ==> json::member(tree, "claim"@) == Some(JsonTree::Null)
            &&& fault matches Some(why) ==> json::member(tree, "reason"@) == Some(JsonTree::Text(why))
            &&& fault is None ==> json::member(tree, "reason"@) == Some(JsonTree::Text("ok"@))
        }),
{
    reveal_strlit("valid");
    reveal_strlit("reason");
    reveal_strlit("claim");
    assert("valid"@.len() == 5);
    assert("reason"@.len() == 6);
    assert("claim"@.len() == 5);
    assert("valid"@[0] == 'v');
    assert("claim"@[0] == 'c');
}

/// The answer to the claim of an install names that install, and is the same for the same one.
pub proof fn install_claim_names_the_install(
    profile: Seq<char>,
    install_id: Seq<char>,
    base: Seq<char>,
)
    ensures
        ({
            let tree = account::install_claim_tree(profile, Some(install_id), base);
            &&& json::member(tree, "ok"@) == Some(JsonTree::Bool(true))
            &&& json::member(tree, "profile"@) == Some(JsonTree::Text(account::profile_name(profile)))
            &&& json::member(tree, "install_id"@) == Some(JsonTree::Text(install_id))
            &&& json::member(tree, "status"@) == Some(JsonTree::Text("claimed"@))
            &&& json::member(tree, "claim_status"@) == Some(JsonTree::Text("claimed"@))
            &&& json::member(tree, "idempotency_key"@) == Some(JsonTree::Text("claim-"@ + install_id + "-"@ + account::LOCAL_STABLE_IDENTITY_ID@))
            &&& json::member(tree, "no_credential_custody"@) == Some(JsonTree::Bool(true))
        }),
{
    reveal_strlit("schemaVersion");
    reveal_strlit("ok");
    reveal_strlit("profile");
    reveal_strlit("stable_identity_id");
    reveal_strlit("install_id");
    reveal_strlit("status");
    reveal_strlit("claim_status");
    reveal_strlit("claimed_at");
    reveal_strlit("idempotency_key");
    reveal_strlit("deep_link");
    reveal_strlit("no_credential_custody");
    assert("schemaVersion"@.len() == 13);
    assert("ok"@.len() == 2);
    assert("profile"@.len() == 7);
    assert("stable_identity_id"@.len() == 18);
    assert("install_id"@.len() == 10);
    assert("status"@.len() == 6);
    assert("claim_status"@.len() == 12);
    assert("claimed_at"@.len() == 10);
    assert("idempotency_key"@.len() == 15);
    assert("deep_link"@.len() == 9);
    assert("no_credential_custody"@.len() == 21);
    assert("install_id"@[0] == 'i');
    assert("claimed_at"@[0] == 'c');
}

/// The answer to a telemetry event names the event and the install.
pub proof fn telemetry_answer_names_the_event(
    profile: Seq<char>,
    event_type: Seq<char>,
    install_id: Seq<char>,
    base: Seq<char>,
)
    ensures
        ({
            let tree = account::telemetry_emit_tree(profile, event_type, Some(install_id), base);
            &&& json::member(tree, "ok"@) == Some(JsonTree::Bool(true))
            &&& json::member(tree, "profile"@) == Some(JsonTree::Text(account::profile_name(profile)))
            &&& json::member(tree, "status"@) == Some(JsonTree::Text("accepted"@))
            &&& json::member(tree, "event_type"@) == Some(JsonTree::Text(event_type))
            &&& json::member(tree, "install_id"@) == Some(JsonTree::Text(install_id))
            &&& json::member(tree, "no_credential_custody"@) == Some(JsonTree::Bool(true))
        }),
{
    reveal_strlit("schemaVersion");
    reveal_strlit("ok");
    reveal_strlit("profile");
    reveal_strlit("status");
    reveal_strlit("event_type");
    reveal_strlit("install_id");
    reveal_strlit("sink");
    reveal_strlit("payload");
    reveal_strlit("deep_links");
    reveal_strlit("no_credential_custody");
    assert("schemaVersion"@.len() == 13);
    assert("ok"@.len() == 2);
    assert("profile"@.len() == 7);
    assert("status"@.len() == 6);
    assert("event_type"@.len() == 10);
    assert("install_id"@.len() == 10);
    assert("sink"@.len() == 4);
    assert("payload"@.len() == 7);
    assert("deep_links"@.len() == 10);
    assert("no_credential_custody"@.len() == 21);
    assert("profile"@[1] == 'r');
    assert("payload"@[1] == 'a');
    assert("event_type"@[0] == 'e');
    assert("install_id"@[0] == 'i');
    assert("deep_links"@[0] == 'd');
}

/// Who opts out of telemetry is told so, and that events are skipped from then on; who does not
/// is told that they are accepted.
pub proof fn opt_out_is_told(
    profile: Seq<char>,
    opted_out: bool,
    base: Seq<char>,
)
    ensures
        ({
            let tree = account::telemetry_opt_out_tree(profile, opted_out, base);
            &&& json::member(tree, "ok"@) == Some(JsonTree::Bool(true))
            &&& json::member(tree, "telemetry_opt_out"@) == Some(JsonTree::Bool(opted_out))
            &&& opted_out ==> json::member(tree, "future_event_status"@) == Some(
                JsonTree::Text("skipped"@),
            )
            &&& !opted_out ==> json::member(tree, "future_event_status"@) == Some(
                JsonTree::Text("accepted"@),
            )
        }),
{
    reveal_strlit("schemaVersion");
    reveal_strlit("ok");
    reveal_strlit("profile");
    reveal_strlit("stable_identity_id");
    reveal_strlit("install_id");
    reveal_strlit("telemetry_opt_out");
    reveal_strlit("future_event_status");
    reveal_strlit("deep_link");
    reveal_strlit("no_credential_custody");
    assert("schemaVersion"@.len() == 13);
    assert("ok"@.len() == 2);
    assert("profile"@.len() == 7);
    assert("stable_identity_id"@.len() == 18);
    assert("install_id"@.len() == 10);
    assert("telemetry_opt_out"@.len() == 17);
    assert("future_event_status"@.len() == 19);
    assert("deep_link"@.len() == 9);
    assert("no_credential_custody"@.len() == 21);
}

/// The choice on metrics is the one that is asked for, and stays where none is.
pub proof fn metrics_choice_is_the_one_asked_for(
    current: bool,
    requested: Option<bool>,
    reason: Option<Seq<char>>,
)
    ensures
        ({
            let tree = account::opt_out_tree(current, requested, reason);
            &&& json::member(tree, "source"@) == Some(JsonTree::Text("local"@))
            &&& requested matches Some(b) ==> json::member(tree, "opted_out"@) == Some(JsonTree::Bool(b))
            &&& requested is None ==> json::member(tree, "opted_out"@) == Some(JsonTree::Bool(current))
            &&& reason matches Some(t) ==> json::member(tree, "reason"@) == Some(JsonTree::Text(t))
        }),
{
    reveal_strlit("opted_out");
    reveal_strlit("reason");
    reveal_strlit("source");
    assert("opted_out"@.len() == 9);
    assert("reason"@.len() == 6);
    assert("source"@.len() == 6);
    assert("reason"@[0] == 'r');
    assert("source"@[0] == 's');
}

/// The status of the local identity tells what became of its session.
pub proof fn identity_status_tells_the_session(
    install_id: Seq<char>,
    custody: Seq<char>,
    metrics_opt_out: bool,
    outcome: Result<PrincipalView, Seq<char>>,
)
    ensures
        ({
            let tree = account::identity_status_tree(install_id, custody, metrics_opt_out, outcome);
            &&& json::member(tree, "mode"@) == Some(JsonTree::Text("local"@))
            &&& json::member(tree, "authenticated"@) == Some(JsonTree::Bool(outcome is Ok))
            &&& json::member(tree, "issuer"@) == Some(JsonTree::Text("local-owner"@))
            &&& json::member(tree, "install_id"@) == Some(JsonTree::Text(install_id))
            &&& json::member(tree, "metrics_opt_out"@) == Some(JsonTree::Bool(metrics_opt_out))
            &&& json::member(tree, "credential_custody_mode"@) == Some(JsonTree::Text(custody))
            &&& outcome is Ok ==> json::member(tree, "reason"@) == Some(JsonTree::Text("ok"@)) && json::member(
                tree,
                "next_action"@,
            ) == Some(JsonTree::Text("continue_local"@))
            &&& outcome matches Err(why) ==> json::member(tree, "reason"@) == Some(JsonTree::Text(why))
                && json::member(tree, "principal"@) == Some(JsonTree::Null) && json::member(
                tree,
                "next_action"@,
            ) == Some(JsonTree::Text("repair_identity"@))
        }),
{
    reveal_strlit("mode");
    reveal_strlit("authenticated");
    reveal_strlit("reason");
    reveal_strlit("principal");
    reveal_strlit("issuer");
    reveal_strlit("install_id");
    reveal_strlit("install_claim_status");
    reveal_strlit("metrics_opt_out");
    reveal_strlit("credential_custody_mode");
    reveal_strlit("next_action");
    assert("mode"@.len() == 4);
    assert("authenticated"@.len() == 13);
    assert("reason"@.len() == 6);
    assert("principal"@.len() == 9);
    assert("issuer"@.len() == 6);
    assert("install_id"@.len() == 10);
    assert("install_claim_status"@.len() == 20);
    assert("metrics_opt_out"@.len() == 15);
    assert("credential_custody_mode"@.len() == 23);
    assert("next_action"@.len() == 11);
    assert("reason"@[0] == 'r');
    assert("issuer"@[0] == 'i');
}

/// A profile is called as it is given, without the space around it, and is the local one
/// where nothing is given.
pub proof fn profile_is_called_as_given(profile: Seq<char>)
    ensures
        text::is_blank(profile) ==> account::profile_name(profile) == "local"@,
        !text::is_blank(profile) ==> account::profile_name(profile) == text::trimmed(profile),
{
}

} // verus!

//! What a bound call can reach: only tools that are listed and not an operator's, only the run and
//! the deployment of the authority, and nothing else of its arguments is touched.

use vstd::prelude::*;

use crate::agent_runner::binding;
use crate::agent_runner::capability::ContextView;
use crate::json;
use crate::json::JsonTree;
use crate::text;

verus! {

/// Whether a call is refused to everyone but an operator.
pub open spec fn is_for_operators(name: Seq<char>) -> bool {
    ||| name == "studio.deployment.create"@
    ||| name == "studio.deployment.start"@
    ||| name == "studio.deployment.pause"@
    ||| name == "studio.deployment.stop"@
    ||| name == "studio.agent_run.recover"@
}

/// A call goes through only to a tool that is listed and that is not an operator's, and only
/// with arguments in an object.
pub proof fn call_goes_to_a_listed_tool(name: Seq<char>, arguments: JsonTree, context: ContextView)
    ensures
        binding::bind_call(name, arguments, context) is Ok ==> context.tools.contains(name)
            && !is_for_operators(name) && arguments is Object,
        !context.tools.contains(name) ==> binding::bind_call(name, arguments, context) == Err::<
            JsonTree,
            Seq<char>,
        >("agent_mcp_tool_not_allowed"@),
        context.tools.contains(name) && is_for_operators(name) ==> binding::bind_call(
            name,
            arguments,
            context,
        ) == Err::<JsonTree, Seq<char>>("agent_mcp_operator_tool_forbidden"@),
{
}

proof fn keys_differ()
    ensures
        "mode"@.len() == 4,
        "accountMode"@.len() == 11,
        "account_mode"@.len() == 12,
        "authorityContext"@.len() == 16,
        "authority_context"@.len() == 17,
        "deployment_id"@.len() == 13,
        "deploymentId"@.len() == 12,
        "run_id"@.len() == 6,
        "runId"@.len() == 5,
        "environment"@.len() == 11,
        "accountMode"@[0] == 'a',
        "environment"@[0] == 'e',
        "account_mode"@[0] == 'a',
        "deploymentId"@[0] == 'd',
{
    reveal_strlit("mode");
    reveal_strlit("accountMode");
    reveal_strlit("account_mode");
    reveal_strlit("authorityContext");
    reveal_strlit("authority_context");
    reveal_strlit("deployment_id");
    reveal_strlit("deploymentId");
    reveal_strlit("run_id");
    reveal_strlit("runId");
    reveal_strlit("environment");
    assert("mode"@.len() == 4);
    assert("accountMode"@.len() == 11);
    assert("account_mode"@.len() == 12);
    assert("authorityContext"@.len() == 16);
    assert("authority_context"@.len() == 17);
    assert("deployment_id"@.len() == 13);
    assert("deploymentId"@.len() == 12);
    assert("run_id"@.len() == 6);
    assert("runId"@.len() == 5);
    assert("environment"@.len() == 11);
    assert("accountMode"@[0] == 'a');
    assert("environment"@[0] == 'e');
    assert("account_mode"@[0] == 'a');
    assert("deploymentId"@[0] == 'd');
}

proof fn bound_mode_touches_its_own_keys(
    args: Map<Seq<char>, JsonTree>,
    mode: Seq<char>,
    after: Map<Seq<char>, JsonTree>,
    key: Seq<char>,
)
    requires
        binding::bind_account_mode(args, mode) == Ok::<Map<Seq<char>, JsonTree>, Seq<char>>(after),
    ensures
        key != "mode"@ && key != "accountMode"@ && key != "account_mode"@ && key
            != "authorityContext"@ && key != "authority_context"@ ==> json::member(
            JsonTree::Object(after),
            key,
        ) == json::member(JsonTree::Object(args), key),
{
    keys_differ();
}

/// A call that goes through is made in the mode of the run, whatever was passed, and one that
/// was passed another mode is refused.
pub proof fn call_is_made_in_the_mode_of_the_run(
    name: Seq<char>,
    args: Map<Seq<char>, JsonTree>,
    context: ContextView,
)
    ensures
        binding::bind_call(name, JsonTree::Object(args), context) matches Ok(given) ==> {
            &&& json::text_member(given, "mode"@) == Some(context.mode)
            &&& json::text_member(given, "accountMode"@) == Some(context.mode)
            &&& json::text_member(given, "account_mode"@) == Some(context.mode)
        },
{
    match binding::bind_tool(name, args, context) {
        Ok(scoped) => {
            binding::bound_mode_is_the_runs(scoped, context.mode);
        },
        Err(_) => {},
    }
}

/// A call about a deployment goes to the deployment of the run, and one about a run to the run,
/// whatever was passed.
pub proof fn call_is_about_the_run(
    name: Seq<char>,
    args: Map<Seq<char>, JsonTree>,
    context: ContextView,
    given: JsonTree,
)
    requires
        binding::bind_call(name, JsonTree::Object(args), context) == Ok::<JsonTree, Seq<char>>(given),
    ensures
        name == "studio.deployment.inspect"@ || name == "studio.agent_run.events"@ || name
            == "studio.agent_run.health"@ || name == "studio.execution.external_receipt.inspect"@
            || name == "studio.execution.external_receipt.reconcile"@ || name
            == "studio.execution.external_receipt.append"@ ==> json::text_member(
            given,
            "deployment_id"@,
        ) == Some(context.deployment_id) && json::member(given, "deploymentId"@) is None,
        name == "studio.agent_run.inspect"@ || name == "studio.execution.external_receipt.append"@
            ==> json::text_member(given, "run_id"@) == Some(context.run_id) && json::member(
            given,
            "runId"@,
        ) is None,
        name == "studio.execution.external_receipt.append"@ ==> json::text_member(
            given,
            "environment"@,
        ) == Some(context.mode),
{
    keys_differ();
    names_differ();
    let scoped = binding::bind_tool(name, args, context)->Ok_0;
    let after = binding::bind_account_mode(scoped, context.mode)->Ok_0;
    assert(given == JsonTree::Object(after));
    bound_mode_touches_its_own_keys(scoped, context.mode, after, "deployment_id"@);
    bound_mode_touches_its_own_keys(scoped, context.mode, after, "deploymentId"@);
    bound_mode_touches_its_own_keys(scoped, context.mode, after, "run_id"@);
    bound_mode_touches_its_own_keys(scoped, context.mode, after, "runId"@);
    bound_mode_touches_its_own_keys(scoped, context.mode, after, "environment"@);
}

proof fn names_differ()
    ensures
        "studio.agent_run.inspect"@ != "studio.deployment.inspect"@,
        "studio.agent_run.inspect"@ != "studio.agent_run.events"@,
        "studio.agent_run.inspect"@ != "studio.agent_run.health"@,
        "studio.agent_run.inspect"@ != "studio.execution.external_receipt.inspect"@,
        "studio.agent_run.inspect"@ != "studio.execution.external_receipt.reconcile"@,
        "studio.agent_run.inspect"@ != "studio.execution.external_receipt.append"@,
        "studio.execution.external_receipt.append"@ != "studio.deployment.inspect"@,
        "studio.execution.external_receipt.append"@ != "studio.agent_run.events"@,
        "studio.execution.external_receipt.append"@ != "studio.agent_run.health"@,
        "studio.execution.external_receipt.append"@ != "studio.execution.external_receipt.inspect"@,
        "studio.execution.external_receipt.append"@
            != "studio.execution.external_receipt.reconcile"@,
{
    reveal_strlit("studio.agent_run.inspect");
    reveal_strlit("studio.deployment.inspect");
    reveal_strlit("studio.agent_run.events");
    reveal_strlit("studio.agent_run.health");
    reveal_strlit("studio.execution.external_receipt.inspect");
    reveal_strlit("studio.execution.external_receipt.reconcile");
    reveal_strlit("studio.execution.external_receipt.append");
    assert("studio.agent_run.inspect"@.len() == 24);
    assert("studio.deployment.inspect"@.len() == 25);
    assert("studio.agent_run.events"@.len() == 23);
    assert("studio.agent_run.health"@.len() == 23);
    assert("studio.execution.external_receipt.inspect"@.len() == 41);
    assert("studio.execution.external_receipt.reconcile"@.len() == 43);
    assert("studio.execution.external_receipt.append"@.len() == 40);
    assert("studio.agent_run.events"@[17] == 'e');
    assert("studio.agent_run.health"@[17] == 'h');
}

/// Nothing but the mode, the authority and the identifiers of a call is touched.
pub proof fn rest_of_a_call_is_untouched(
    name: Seq<char>,
    args: Map<Seq<char>, JsonTree>,
    context: ContextView,
    given: JsonTree,
    key: Seq<char>,
)
    requires
        binding::bind_call(name, JsonTree::Object(args), context) == Ok::<JsonTree, Seq<char>>(given),
        key != "mode"@,
        key != "accountMode"@,
        key != "account_mode"@,
        key != "authorityContext"@,
        key != "authority_context"@,
        key != "deployment_id"@,
        key != "deploymentId"@,
        key != "run_id"@,
        key != "runId"@,
        key != "environment"@,
    ensures
        json::member(given, key) == json::member(JsonTree::Object(args), key),
{
    let scoped = binding::bind_tool(name, args, context)->Ok_0;
    let after = binding::bind_account_mode(scoped, context.mode)->Ok_0;
    bound_mode_touches_its_own_keys(scoped, context.mode, after, key);
}

/// A call is made only by someone who says who they are, and the authority that is handed on
/// has their name and the mode of the run.
pub proof fn call_says_who_acts(
    args: Map<Seq<char>, JsonTree>,
    authority: Map<Seq<char>, JsonTree>,
    mode: Seq<char>,
    after: Map<Seq<char>, JsonTree>,
)
    requires
        binding::bind_account_mode(args, mode) == Ok::<Map<Seq<char>, JsonTree>, Seq<char>>(after),
        json::member(JsonTree::Object(args), "authorityContext"@) == Some(
            JsonTree::Object(authority),
        ),
    ensures
        json::text_member(JsonTree::Object(authority), "actor"@) matches Some(actor)
            && !text::is_blank(actor) && (json::member(
            JsonTree::Object(after),
            "authorityContext"@,
        ) matches Some(handed) && json::text_member(handed, "actor"@) == Some(actor)
            && json::text_member(handed, "accountMode"@) == Some(mode) && json::member(
            handed,
            "account_mode"@,
        ) is None),
{
    keys_differ();
    reveal_strlit("actor");
    assert("actor"@.len() == 5);
}

} // verus!

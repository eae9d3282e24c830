//! How a verified authority narrows the arguments of a tool call.

pub mod scope;

use vstd::prelude::*;

use crate::agent_runner::capability;
use crate::agent_runner::capability::{ContextView, ExecutionSnapshot, VerifiedAgentMcpExecutionContext};
use crate::agent_runner::records::object_entries;
use crate::json;
use crate::json::{Json, JsonMap, JsonTree};
use crate::ports::LeaseClaim;
use crate::text;
use crate::text::{blank, listed, same};

verus! {

/// Arguments that have been bound, or the code of why they cannot be.
pub type Binding = Result<Map<Seq<char>, JsonTree>, Seq<char>>;

/// The code of arguments that contradict the authority.
pub open spec fn mismatch() -> Seq<char> {
    "agent_mcp_execution_context_mismatch"@
}

/// Whether `key` is absent or has the text `expected`.
pub open spec fn agrees(args: Map<Seq<char>, JsonTree>, key: Seq<char>, expected: Seq<char>) -> bool {
    args.dom().contains(key) ==> args[key] == JsonTree::Text(expected)
}

/// Arguments in which an identifier is set under its snake-case key alone.
pub open spec fn bind_identifier(
    args: Map<Seq<char>, JsonTree>,
    snake: Seq<char>,
    camel: Seq<char>,
    expected: Seq<char>,
) -> Binding {
    if !agrees(args, snake, expected) || !agrees(args, camel, expected) {
        Err(mismatch())
    } else if snake != camel {
        Ok(args.remove(camel).insert(snake, JsonTree::Text(expected)))
    } else {
        Ok(args.insert(snake, JsonTree::Text(expected)))
    }
}

/// Binds one identifier after what has been bound so far.
pub open spec fn bind_next(
    so_far: Binding,
    snake: Seq<char>,
    camel: Seq<char>,
    expected: Seq<char>,
) -> Binding {
    match so_far {
        Ok(args) => bind_identifier(args, snake, camel, expected),
        Err(code) => Err(code),
    }
}

/// Sets the account mode under one key.
pub open spec fn bind_mode_key(so_far: Binding, key: Seq<char>, expected: Seq<char>) -> Binding {
    match so_far {
        Err(code) => Err(code),
        Ok(args) => if agrees(args, key, expected) {
            Ok(args.insert(key, JsonTree::Text(expected)))
        } else {
            Err(mismatch())
        },
    }
}

/// Whether an authority names who acts.
pub open spec fn names_actor(authority: Map<Seq<char>, JsonTree>) -> bool {
    authority.dom().contains("actor"@) && (authority["actor"@] matches JsonTree::Text(actor)
        && !text::is_blank(actor))
}

/// Sets the account mode of the authority under one key, where there is one.
pub open spec fn bind_authority_key(so_far: Binding, key: Seq<char>, expected: Seq<char>) -> Binding {
    match so_far {
        Err(code) => Err(code),
        Ok(args) => if !args.dom().contains(key) {
            Ok(args)
        } else {
            match args[key] {
                JsonTree::Object(authority) => if names_actor(authority) {
                    Ok(
                        args.insert(
                            key,
                            JsonTree::Object(
                                authority.insert("accountMode"@, JsonTree::Text(expected)).remove(
                                    "account_mode"@,
                                ),
                            ),
                        ),
                    )
                } else {
                    Err("agent_mcp_identity_required"@)
                },
                _ => Ok(args),
            }
        },
    }
}

/// Whether there is an authority under one of its keys.
pub open spec fn has_authority(args: Map<Seq<char>, JsonTree>) -> bool {
    (args.dom().contains("authorityContext"@) && args["authorityContext"@] is Object) || (
    args.dom().contains("authority_context"@) && args["authority_context"@] is Object)
}

/// Arguments in which the account mode is that of the run, for a caller who says who acts.
pub open spec fn bind_account_mode(args: Map<Seq<char>, JsonTree>, expected: Seq<char>) -> Binding {
    let moded = bind_mode_key(
        bind_mode_key(bind_mode_key(Ok(args), "mode"@, expected), "accountMode"@, expected),
        "account_mode"@,
        expected,
    );
    let bound = bind_authority_key(
        bind_authority_key(moded, "authorityContext"@, expected),
        "authority_context"@,
        expected,
    );
    match (moded, bound) {
        (Ok(before), Ok(after)) => if has_authority(before) {
            Ok(after)
        } else {
            Err("agent_mcp_identity_required"@)
        },
        (_, Err(code)) => Err(code),
        (Err(code), _) => Err(code),
    }
}

fn key_agrees(args: &JsonMap, key: &str, expected: &str) -> (r: bool)
    ensures
        r == agrees(args@, key@, expected@),
{
    match args.get(key) {
        Some(value) => match value.as_text() {
            Some(t) => same(t.as_str(), expected),
            None => false,
        },
        None => true,
    }
}

fn mismatched<T>() -> (r: Result<T, String>)
    ensures
        r matches Err(e) && e@ == mismatch(),
{
    Err("agent_mcp_execution_context_mismatch".to_owned())
}

/// Whether a result says what a specification says.
pub open spec fn bound(r: Result<JsonMap, String>, expected: Binding) -> bool {
    match (r, expected) {
        (Ok(args), Ok(view)) => args@ == view,
        (Err(e), Err(code)) => e@ == code,
        _ => false,
    }
}

fn bind_scoped_identifier(args: JsonMap, snake: &str, camel: &str, expected: &str) -> (r: Result<
    JsonMap,
    String,
>)
    ensures
        bound(r, bind_identifier(args@, snake@, camel@, expected@)),
{
    if !key_agrees(&args, snake, expected) || !key_agrees(&args, camel, expected) {
        return mismatched();
    }
    let mut args = args;
    if !same(snake, camel) {
        args.remove(camel);
    }
    args.insert(snake, Json::text(expected));
    Ok(args)
}

fn bind_mode(args: JsonMap, key: &str, expected: &str) -> (r: Result<JsonMap, String>)
    ensures
        bound(r, bind_mode_key(Ok(args@), key@, expected@)),
{
    if !key_agrees(&args, key, expected) {
        return mismatched();
    }
    let mut args = args;
    args.insert(key, Json::text(expected));
    Ok(args)
}

fn bind_authority(args: JsonMap, key: &str, expected: &str) -> (r: Result<JsonMap, String>)
    ensures
        bound(r, bind_authority_key(Ok(args@), key@, expected@)),
{
    let mut authority: JsonMap = match args.get(key) {
        Some(value) => match value {
            Json::Object(_) => object_entries(value),
            _ => {
                return Ok(args);
            },
        },
        None => {
            return Ok(args);
        },
    };
    let named: bool = match authority.get("actor") {
        Some(actor) => match actor.as_text() {
            Some(t) => !blank(t.as_str()),
            None => false,
        },
        None => false,
    };
    if !named {
        return Err("agent_mcp_identity_required".to_owned());
    }
    authority.insert("accountMode", Json::text(expected));
    authority.remove("account_mode");
    let mut args = args;
    args.insert(key, Json::object(authority));
    Ok(args)
}

fn is_object_at(args: &JsonMap, key: &str) -> (r: bool)
    ensures
        r == (args@.dom().contains(key@) && args@[key@] is Object),
{
    match args.get(key) {
        Some(Json::Object(_)) => true,
        _ => false,
    }
}

fn bind_scoped_account_mode(args: JsonMap, expected: &str) -> (r: Result<JsonMap, String>)
    ensures
        bound(r, bind_account_mode(args@, expected@)),
{
    let args = match bind_mode(args, "mode", expected) {
        Ok(args) => args,
        Err(e) => {
            return Err(e);
        },
    };
    let args = match bind_mode(args, "accountMode", expected) {
        Ok(args) => args,
        Err(e) => {
            return Err(e);
        },
    };
    let args = match bind_mode(args, "account_mode", expected) {
        Ok(args) => args,
        Err(e) => {
            return Err(e);
        },
    };
    let identified: bool = is_object_at(&args, "authorityContext") || is_object_at(
        &args,
        "authority_context",
    );
    let args = match bind_authority(args, "authorityContext", expected) {
        Ok(args) => args,
        Err(e) => {
            return Err(e);
        },
    };
    let args = match bind_authority(args, "authority_context", expected) {
        Ok(args) => args,
        Err(e) => {
            return Err(e);
        },
    };
    if identified {
        Ok(args)
    } else {
        Err("agent_mcp_identity_required".to_owned())
    }
}

/// Whether only an operator may use a tool.
pub open spec fn operator_only(name: Seq<char>) -> bool {
    name == "studio.deployment.create"@ || name == "studio.deployment.start"@ || name
        == "studio.deployment.pause"@ || name == "studio.deployment.stop"@ || name
        == "studio.agent_run.recover"@
}

/// Arguments in which the identifiers that a tool carries are those of the run.
pub open spec fn bind_tool(
    name: Seq<char>,
    args: Map<Seq<char>, JsonTree>,
    context: ContextView,
) -> Binding {
    if name == "studio.deployment.inspect"@ || name == "studio.agent_run.events"@ || name
        == "studio.agent_run.health"@ || name == "studio.execution.external_receipt.inspect"@ || name
        == "studio.execution.external_receipt.reconcile"@ {
        bind_identifier(args, "deployment_id"@, "deploymentId"@, context.deployment_id)
    } else if name == "studio.agent_run.inspect"@ {
        bind_identifier(args, "run_id"@, "runId"@, context.run_id)
    } else if name == "studio.execution.external_receipt.append"@ {
        bind_next(
            bind_next(
                bind_identifier(args, "deployment_id"@, "deploymentId"@, context.deployment_id),
                "run_id"@,
                "runId"@,
                context.run_id,
            ),
            "environment"@,
            "environment"@,
            context.mode,
        )
    } else {
        Ok(args)
    }
}

/// The arguments with which a tool is called under an authority whose lease is in force.
pub open spec fn bind_call(name: Seq<char>, arguments: JsonTree, context: ContextView) -> Result<
    JsonTree,
    Seq<char>,
> {
    if !context.tools.contains(name) {
        Err("agent_mcp_tool_not_allowed"@)
    } else if operator_only(name) {
        Err("agent_mcp_operator_tool_forbidden"@)
    } else {
        match arguments {
            JsonTree::Object(args) => match bind_tool(name, args, context) {
                Err(code) => Err(code),
                Ok(scoped) => match bind_account_mode(scoped, context.mode) {
                    Err(code) => Err(code),
                    Ok(args) => Ok(JsonTree::Object(args)),
                },
            },
            _ => Err(capability::context_invalid()),
        }
    }
}

fn is_operator_only(name: &str) -> (r: bool)
    ensures
        r == operator_only(name@),
{
    same(name, "studio.deployment.create") || same(name, "studio.deployment.start") || same(
        name,
        "studio.deployment.pause",
    ) || same(name, "studio.deployment.stop") || same(name, "studio.agent_run.recover")
}

fn bind_tool_arguments(
    name: &str,
    args: JsonMap,
    context: &VerifiedAgentMcpExecutionContext,
) -> (r: Result<JsonMap, String>)
    ensures
        bound(r, bind_tool(name@, args@, context@)),
{
    if same(name, "studio.deployment.inspect") || same(name, "studio.agent_run.events") || same(
        name,
        "studio.agent_run.health",
    ) || same(name, "studio.execution.external_receipt.inspect") || same(
        name,
        "studio.execution.external_receipt.reconcile",
    ) {
        return bind_scoped_identifier(
            args,
            "deployment_id",
            "deploymentId",
            context.deployment_id().as_str(),
        );
    }
    if same(name, "studio.agent_run.inspect") {
        return bind_scoped_identifier(args, "run_id", "runId", context.run_id().as_str());
    }
    if same(name, "studio.execution.external_receipt.append") {
        let args = match bind_scoped_identifier(
            args,
            "deployment_id",
            "deploymentId",
            context.deployment_id().as_str(),
        ) {
            Ok(args) => args,
            Err(e) => {
                return Err(e);
            },
        };
        let args = match bind_scoped_identifier(args, "run_id", "runId", context.run_id().as_str()) {
            Ok(args) => args,
            Err(e) => {
                return Err(e);
            },
        };
        return bind_scoped_identifier(args, "environment", "environment", context.mode().as_str());
    }
    Ok(args)
}

/// Applies a verified authority to one tool call: what the records and the lease say
/// decides whether it is in force, and the arguments are narrowed to its run.
pub fn bind_mcp_execution_context(
    context: &VerifiedAgentMcpExecutionContext,
    snapshot: &ExecutionSnapshot,
    desired_state: &Option<String>,
    lease: &Option<LeaseClaim>,
    checked_at_ms: i64,
    known_tools: &Vec<String>,
    name: &str,
    arguments: Json,
) -> (r: Result<Json, String>)
    ensures
        match context.lease_of(
            *snapshot,
            text::option_text(*desired_state),
            *lease,
            checked_at_ms as int,
            known_tools@,
        ) {
            Err(code) => r matches Err(e) && e@ == code,
            Ok(_) => match (r, bind_call(name@, arguments@, context@)) {
                (Ok(value), Ok(tree)) => value@ == tree,
                (Err(e), Err(code)) => e@ == code,
                _ => false,
            },
        },
{
    if let Err(e) = context.current_lease(
        snapshot,
        desired_state,
        lease,
        checked_at_ms,
        known_tools,
    ) {
        return Err(e);
    }
    if !listed(context.allowed_tools(), name) {
        return Err("agent_mcp_tool_not_allowed".to_owned());
    }
    if is_operator_only(name) {
        return Err("agent_mcp_operator_tool_forbidden".to_owned());
    }
    let args = match arguments {
        Json::Object(args) => args,
        _ => {
            return Err("agent_mcp_execution_context_invalid".to_owned());
        },
    };
    let scoped = match bind_tool_arguments(name, args, context) {
        Ok(args) => args,
        Err(e) => {
            return Err(e);
        },
    };
    match bind_scoped_account_mode(scoped, context.mode().as_str()) {
        Ok(args) => Ok(Json::object(args)),
        Err(e) => Err(e),
    }
}

/// Whatever a caller passes, the account mode of bound arguments is that of the run.
pub proof fn bound_mode_is_the_runs(args: Map<Seq<char>, JsonTree>, mode: Seq<char>)
    ensures
        bind_account_mode(args, mode) matches Ok(after) ==> {
            &&& json::text_member(JsonTree::Object(after), "mode"@) == Some(mode)
            &&& json::text_member(JsonTree::Object(after), "accountMode"@) == Some(mode)
            &&& json::text_member(JsonTree::Object(after), "account_mode"@) == Some(mode)
        },
{
    reveal_strlit("mode");
    reveal_strlit("accountMode");
    reveal_strlit("account_mode");
    reveal_strlit("authorityContext");
    reveal_strlit("authority_context");
    let keys = seq![
        "mode"@,
        "accountMode"@,
        "account_mode"@,
        "authorityContext"@,
        "authority_context"@,
    ];
    assert(keys[0].len() == 4 && keys[1].len() == 11 && keys[2].len() == 12 && keys[3].len() == 16
        && keys[4].len() == 17);
}

/// Whatever a caller passes, the identifier of a bound call is that of the run, and
/// it stands under one key alone.
pub proof fn bound_identifier_is_the_runs(
    args: Map<Seq<char>, JsonTree>,
    snake: Seq<char>,
    camel: Seq<char>,
    expected: Seq<char>,
)
    ensures
        bind_identifier(args, snake, camel, expected) matches Ok(after) ==> {
            &&& json::text_member(JsonTree::Object(after), snake) == Some(expected)
            &&& snake != camel ==> !after.dom().contains(camel)
        },
        args.dom().contains(snake) && args[snake] != JsonTree::Text(expected) ==> bind_identifier(
            args,
            snake,
            camel,
            expected,
        ) == Binding::Err(mismatch()),
{
}

} // verus!

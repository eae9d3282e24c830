//! What the administration answers.

use vstd::prelude::*;

use crate::admin_control;
use crate::json;
use crate::json::JsonTree;

verus! {

proof fn keys_of_an_answer()
    ensures
        "status"@.len() == 6,
        "body"@.len() == 4,
{
    reveal_strlit("status");
    reveal_strlit("body");
}

/// An answer has its status and its body.
pub proof fn answer_has_its_status(status: int, body: JsonTree)
    ensures
        json::member(admin_control::answer(status, body), "status"@) == Some(JsonTree::Int(status)),
        json::member(admin_control::answer(status, body), "body"@) == Some(body),
{
    keys_of_an_answer();
}

/// The status of the runtime counts its strategies.
pub proof fn status_counts_the_strategies(strategies: nat)
    ensures
        json::member(admin_control::status_tree(strategies), "status"@) == Some(JsonTree::Int(200)),
        json::member(admin_control::status_tree(strategies), "body"@) matches Some(body)
            && json::member(body, "counts"@) matches Some(counts) && json::member(
            counts,
            "strategies"@,
        ) == Some(JsonTree::Int(strategies as int)),
{
    keys_of_an_answer();
    reveal_strlit("surface");
    reveal_strlit("readiness");
    reveal_strlit("counts");
    reveal_strlit("legalBoundary");
    assert("surface"@.len() == 7);
    assert("readiness"@.len() == 9);
    assert("counts"@.len() == 6);
    assert("legalBoundary"@.len() == 13);
}

/// Only a provider that is allowed is turned to, with the address and the state that were given; any
/// other is refused.
pub proof fn allowed_provider_is_turned_to(
    allowed: Seq<Seq<char>>,
    provider: Seq<char>,
    redirect_uri: Seq<char>,
    state: Seq<char>,
    stub: bool,
)
    ensures
        ({
            let answer = admin_control::authorize_tree(allowed, provider, redirect_uri, state, stub);
            &&& !allowed.contains(provider) ==> json::member(answer, "status"@) == Some(
                JsonTree::Int(400),
            )
            &&& allowed.contains(provider) ==> json::member(answer, "status"@) == Some(
                JsonTree::Int(200),
            ) && (json::member(answer, "body"@) matches Some(body) && json::member(
                body,
                "provider"@,
            ) == Some(JsonTree::Text(provider)) && json::member(body, "redirect_uri"@) == Some(
                JsonTree::Text(redirect_uri),
            ) && json::member(body, "state"@) == Some(JsonTree::Text(state)) && json::member(
                body,
                "stub"@,
            ) == Some(JsonTree::Bool(stub)) && json::member(body, "managed_app_credentials"@)
                == Some(JsonTree::Bool(false)))
        }),
{
    keys_of_an_answer();
    reveal_strlit("provider");
    reveal_strlit("redirect_uri");
    reveal_strlit("state");
    reveal_strlit("stub");
    reveal_strlit("mode");
    reveal_strlit("managed_app_credentials");
    assert("provider"@.len() == 8);
    assert("redirect_uri"@.len() == 12);
    assert("state"@.len() == 5);
    assert("stub"@.len() == 4);
    assert("mode"@.len() == 4);
    assert("managed_app_credentials"@.len() == 23);
    assert("stub"@[0] == 's');
    assert("mode"@[0] == 'm');
}

} // verus!

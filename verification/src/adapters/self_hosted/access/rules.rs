//! Who gets in and what they get: sessions that are in force, decisions of the owner's policy,
//! and credentials that are complete.

use vstd::prelude::*;

use crate::adapters::self_hosted::access;
use crate::adapters::self_hosted::access::{PolicyDecision, PolicyRequest, StoredSession};
use crate::adapters::studio_identity::IdentityClaims;
use crate::auth::authz;
use crate::json;
use crate::json::JsonTree;

use crate::text;

verus! {

/// A stored session gives the claims that were stored, only while it is in force, comes from
/// the issuer and is meant for the audience.
pub proof fn session_in_force_gives_its_claims(
    stored: StoredSession,
    issuer: Seq<char>,
    audience: Seq<char>,
    now_ms: int,
    meant: Seq<Seq<char>>,
    r: Result<IdentityClaims, String>,
)
    requires
        access::resolves_to(Some(stored), issuer, audience, now_ms, r),
        json::json_texts_of(stored.audience_json@) == Ok::<Seq<Seq<char>>, Seq<char>>(meant),
    ensures
        r is Ok <==> stored.issuer@ == issuer && meant.contains(audience) && now_ms
            < stored.expires_at_ms,
        r matches Ok(c) ==> c.issuer == stored.issuer && c.subject == stored.subject && c.assurance
            == stored.assurance && c.expires_at_ms == stored.expires_at_ms && text::texts(
            c.audience@,
        ) == meant,
{
}

/// Nothing is given for a session that is not stored.
pub proof fn unknown_session_gives_nothing(
    issuer: Seq<char>,
    audience: Seq<char>,
    now_ms: int,
    r: Result<IdentityClaims, String>,
)
    requires
        access::resolves_to(None, issuer, audience, now_ms, r),
    ensures
        r is Err,
{
}

/// An action is allowed if and only if the owner may do it; the decision gives the reason of
/// the policy and repeats the purpose.
pub proof fn action_is_allowed_as_to_the_owner(d: PolicyDecision, request: PolicyRequest)
    requires
        access::decision_is_on(d, request),
    ensures
        ({
            let owned = authz::owner_decision(request.action@, authz::local_owner());
            &&& owned.allowed ==> d.decision@ == "allow"@
            &&& !owned.allowed ==> d.decision@ == "deny"@
            &&& d.explanation@.len() == 1
            &&& d.explanation@[0]@ == owned.reason
            &&& json::member(d.constraints@, "purpose"@) == Some(request.purpose@)
        }),
{
    let told = text::texts(d.explanation@);
    assert(told.len() == d.explanation@.len());
    assert(told[0] == d.explanation@[0]@);
}

/// The credential of a provider is set under its name, in capitals and with underscores for
/// all that is neither a letter nor a digit.
pub proof fn setting_spells_the_provider(name: Seq<char>, i: int)
    requires
        0 <= i < name.len(),
    ensures
        access::setting_part(name).len() == name.len(),
        text::is_alphanumeric(name[i]) ==> access::setting_part(name)[i] == text::upper(name[i]),
        !text::is_alphanumeric(name[i]) ==> access::setting_part(name)[i] == '_',
        access::credential_setting(name) == "TRADEASSEMBLY_"@ + access::setting_part(name)
            + "_CREDENTIAL_REF"@,
{
}

/// A credential that names another one than was asked for does not count.
pub proof fn credential_of_another_does_not_count(tree: JsonTree, asked: Seq<char>, named: Seq<char>)
    requires
        json::member(tree, "credential_ref"@) == Some(JsonTree::Text(named)),
    ensures
        named != asked ==> access::credential_fields(Some(tree), asked) is Err,
{
}

/// A credential with fields gives those fields, where there are some and each is a text that
/// says something.
pub proof fn complete_credential_gives_its_fields(
    tree: JsonTree,
    asked: Seq<char>,
    fields: Map<Seq<char>, JsonTree>,
    key: Seq<char>,
    given: Map<Seq<char>, Seq<char>>,
)
    requires
        json::member(tree, "fields"@) == Some(JsonTree::Object(fields)),
        access::credential_fields(Some(tree), asked) == Ok::<Map<Seq<char>, Seq<char>>, Seq<char>>(
            given,
        ),
    ensures
        given.dom() == fields.dom(),
        fields.dom().contains(key) ==> (fields[key] matches JsonTree::Text(said) && given[key]
            == said && !text::is_blank(said)),
        fields.dom() != Set::<Seq<char>>::empty(),
{
    assert(given == access::text_fields(fields));
    assert(given.dom() =~= fields.dom());
    if fields.dom().contains(key) {
        assert(given.dom().contains(key));
    }
}

/// A flat credential gives its key, its secret and its address, each where it has it.
pub proof fn flat_credential_gives_its_three_fields(tree: JsonTree)
    ensures
        ({
            let given = access::flat_fields(tree);
            &&& json::text_member(tree, "api_key"@) matches Some(t) ==> given.dom().contains(
                "api_key"@,
            ) && given["api_key"@] == t
            &&& json::text_member(tree, "api_secret"@) matches Some(t) ==> given.dom().contains(
                "api_secret"@,
            ) && given["api_secret"@] == t
            &&& json::text_member(tree, "base_url"@) matches Some(t) ==> given.dom().contains(
                "base_url"@,
            ) && given["base_url"@] == t
            &&& json::text_member(tree, "api_key"@) is None ==> !given.dom().contains("api_key"@)
            &&& json::text_member(tree, "api_secret"@) is None ==> !given.dom().contains(
                "api_secret"@,
            )
            &&& json::text_member(tree, "base_url"@) is None ==> !given.dom().contains("base_url"@)
        }),
{
    reveal_strlit("api_key");
    reveal_strlit("api_secret");
    reveal_strlit("base_url");
    assert("api_key"@.len() == 7);
    assert("api_secret"@.len() == 10);
    assert("base_url"@.len() == 8);
}

/// Every provider quotes, and only one for paper takes orders, on paper.
pub proof fn provider_takes_orders_on_paper_only(provider_ref: Seq<char>)
    ensures
        ({
            let can = access::capabilities_of(provider_ref);
            &&& can.len() == 2
            &&& can[0].capability == "marketdata.quote"@ && can[0].available
            &&& can[1].capability == "broker.order_submit.paper"@
            &&& can[1].available <==> text::occurs(provider_ref, "paper"@) || provider_ref
                == "sim"@
            &&& forall|i: int|
                0 <= i < can.len() ==> (#[trigger] can[i]).provider_ref == provider_ref
        }),
{
}

} // verus!

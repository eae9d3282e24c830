//! For whom a session is accepted, by what was given and what the provider answered, and why
//! one is refused.

use vstd::prelude::*;

use crate::auth::session;
use crate::auth::session::{
    IdentityProviderResponse, PrincipalView, SessionValidationRequest, SessionValidationResult,
};
use crate::json;
use crate::json::JsonTree;
use crate::text;

verus! {

/// A session of the local owner is accepted for the subject that it names, and for the
/// owner where it names none; it is refused only for a subject that is blank.
pub proof fn local_session_is_for_its_subject(metadata: JsonTree)
    ensures
        json::text_member(metadata, "subject"@) matches Some(named) ==> {
            &&& session::local_session(metadata) is Ok <==> text::trimmed(named).len() > 0
            &&& session::local_session(metadata) matches Ok(p) ==> p.subject == text::trimmed(named)
            &&& session::local_session(metadata) matches Err(reason) ==> reason
                == "subject_missing"@
        },
        session::local_session(metadata) matches Ok(p) ==> {
            &&& p.provider == "local"@
            &&& p.issuer == "local"@
            &&& p.email == session::field_text(metadata, "email"@)
            &&& p.email_verified == session::field_bool(metadata, "email_verified"@)
            &&& p.picture == session::field_text(metadata, "picture"@)
            &&& session::field_text(metadata, "name"@) is Some ==> p.name == session::field_text(
                metadata,
                "name"@,
            )
        },
        json::text_member(metadata, "subject"@) is None ==> (session::local_session(metadata)
            matches Ok(p) ==> p.subject == text::trimmed("local-owner"@)),
{
}

/// A session of the identity server is accepted if and only if a token and an address were
/// given and the server answered well for an identity with a name; it is then for that
/// identity, with the traits that the server tells.
pub proof fn kratos_session_is_for_the_identity(
    token: Option<Seq<char>>,
    url: Option<Seq<char>>,
    response: Option<IdentityProviderResponse>,
    p: PrincipalView,
)
    ensures
        session::kratos_session(token, url, response) == Ok::<PrincipalView, Seq<char>>(p) ==> {
            &&& token matches Some(t) && !text::is_blank(t)
            &&& url matches Some(u) && !text::is_blank(u)
            &&& response matches Some(answer) && answer.status_code == 200 && (json::member(
                answer.payload@,
                "identity"@,
            ) matches Some(identity) && (json::text_member(identity, "id"@) matches Some(id)
                && text::trimmed(id).len() > 0 && p.subject == text::trimmed(id)) && (json::member(
                identity,
                "traits"@,
            ) matches Some(traits) ==> p.email == session::field_text(traits, "email"@) && p.name
                == session::field_text(traits, "name"@) && p.picture == session::field_text(
                traits,
                "picture"@,
            ) && p.email_verified == session::field_bool(traits, "email_verified"@)))
            &&& p.provider == "kratos"@
            &&& p.issuer == "kratos"@
        },
        (token matches Some(t) && !text::is_blank(t)) && (url matches Some(u) && !text::is_blank(
            u,
        )) && (response matches Some(answer) && answer.status_code == 200 && (json::member(
            answer.payload@,
            "identity"@,
        ) matches Some(JsonTree::Object(identity)) && (json::text_member(
            JsonTree::Object(identity),
            "id"@,
        ) matches Some(id) && text::trimmed(id).len() > 0))) ==> session::kratos_session(
            token,
            url,
            response,
        ) is Ok,
{
}

/// A session of the user pool is accepted if and only if a token and an address were given
/// and the pool answered well with a subject; it is then for that subject.
pub proof fn cognito_session_is_for_the_subject(
    token: Option<Seq<char>>,
    url: Option<Seq<char>>,
    response: Option<IdentityProviderResponse>,
    p: PrincipalView,
)
    ensures
        session::cognito_session(token, url, response) == Ok::<PrincipalView, Seq<char>>(p) ==> {
            &&& token matches Some(t) && !text::is_blank(t)
            &&& url matches Some(u) && !text::is_blank(u)
            &&& response matches Some(answer) && answer.status_code == 200 && (json::text_member(
                answer.payload@,
                "sub"@,
            ) matches Some(id) && text::trimmed(id).len() > 0 && p.subject == text::trimmed(id))
                && p.email == session::field_text(answer.payload@, "email"@) && p.name
                == session::field_text(answer.payload@, "name"@) && p.picture
                == session::field_text(answer.payload@, "picture"@) && p.email_verified
                == session::field_bool(answer.payload@, "email_verified"@)
            &&& p.provider == "cognito"@
            &&& p.issuer == "cognito"@
        },
        (token matches Some(t) && !text::is_blank(t)) && (url matches Some(u) && !text::is_blank(
            u,
        )) && (response matches Some(answer) && answer.status_code == 200 && (json::text_member(
            answer.payload@,
            "sub"@,
        ) matches Some(id) && text::trimmed(id).len() > 0)) ==> session::cognito_session(
            token,
            url,
            response,
        ) is Ok,
{
}

/// A refusal says what was missing, in the order token, address, answer, status, subject.
pub proof fn refusal_says_what_was_missing(
    token: Option<Seq<char>>,
    url: Option<Seq<char>>,
    response: Option<IdentityProviderResponse>,
)
    ensures
        (token matches Some(t) ==> text::is_blank(t)) ==> session::kratos_session(
            token,
            url,
            response,
        ) == Err::<PrincipalView, Seq<char>>("missing_session_token"@) && session::cognito_session(
            token,
            url,
            response,
        ) == Err::<PrincipalView, Seq<char>>("missing_access_token"@),
        (token matches Some(t) && !text::is_blank(t)) && (url matches Some(u) ==> text::is_blank(u))
            ==> session::kratos_session(token, url, response) == Err::<PrincipalView, Seq<char>>(
            "validator_url_missing"@,
        ) && session::cognito_session(token, url, response) == Err::<PrincipalView, Seq<char>>(
            "userinfo_url_missing"@,
        ),
        (token matches Some(t) && !text::is_blank(t)) && (url matches Some(u) && !text::is_blank(u))
            && response is None ==> session::kratos_session(token, url, response) == Err::<
            PrincipalView,
            Seq<char>,
        >("validator_unavailable"@) && session::cognito_session(token, url, response) == Err::<
            PrincipalView,
            Seq<char>,
        >("validator_unavailable"@),
        (token matches Some(t) && !text::is_blank(t)) && (url matches Some(u) && !text::is_blank(u))
            && (response matches Some(answer) && answer.status_code != 200)
            ==> session::kratos_session(token, url, response) == Err::<PrincipalView, Seq<char>>(
            "invalid_session"@,
        ) && session::cognito_session(token, url, response) == Err::<PrincipalView, Seq<char>>(
            "invalid_access_token"@,
        ),
{
}

/// A session is judged by the provider that it names, with the token that is the
/// provider's.
pub proof fn session_is_judged_by_its_provider(
    request: SessionValidationRequest,
    kratos_public_url: Option<Seq<char>>,
    cognito_userinfo_url: Option<Seq<char>>,
    response: Option<IdentityProviderResponse>,
)
    ensures
        ({
            let judged = session::session_of(
                request,
                kratos_public_url,
                cognito_userinfo_url,
                response,
            );
            &&& request.provider@ == "local"@ ==> judged == session::local_session(
                request.metadata@,
            )
            &&& request.provider@ == "kratos"@ && request.session_token is None ==> judged == Err::<
                PrincipalView,
                Seq<char>,
            >("missing_session_token"@)
            &&& request.provider@ == "kratos"@ ==> (request.session_token matches Some(t) ==> judged
                == session::kratos_session(Some(t@), kratos_public_url, response))
            &&& request.provider@ == "cognito"@ && request.access_token is None ==> judged == Err::<
                PrincipalView,
                Seq<char>,
            >("missing_access_token"@)
            &&& request.provider@ == "cognito"@ ==> (request.access_token matches Some(t) ==> judged
                == session::cognito_session(Some(t@), cognito_userinfo_url, response))
            &&& request.provider@ != "local"@ && request.provider@ != "kratos"@
                && request.provider@ != "cognito"@ ==> judged == Err::<PrincipalView, Seq<char>>(
                "unsupported_provider"@,
            )
            &&& judged matches Ok(p) ==> p.provider == request.provider@
        }),
{
    reveal_strlit("local");
    reveal_strlit("kratos");
    reveal_strlit("cognito");
    assert("local"@.len() == 5);
    assert("kratos"@.len() == 6);
    assert("cognito"@.len() == 7);
}

/// What is answered names the principal just where the session is accepted.
pub proof fn answer_names_the_principal(
    r: SessionValidationResult,
    judged: Result<PrincipalView, Seq<char>>,
)
    requires
        session::verdict(r, judged),
    ensures
        r.authenticated <==> judged is Ok,
        r.principal is Some <==> judged is Ok,
        judged matches Ok(p) ==> (r.principal matches Some(named) && named@ == p) && r.reason@
            == "ok"@,
        judged matches Err(reason) ==> r.reason@ == reason,
{
}

/// A principal is told member by member.
pub proof fn principal_is_told_member_by_member(
    p: PrincipalView,
)
    ensures
        ({
            let tree = session::principal_tree(p);
            &&& json::member(tree, "provider"@) == Some(JsonTree::Text(p.provider))
            &&& json::member(tree, "issuer"@) == Some(JsonTree::Text(p.issuer))
            &&& json::member(tree, "subject"@) == Some(JsonTree::Text(p.subject))
            &&& p.email matches Some(t) ==> json::member(tree, "email"@) == Some(JsonTree::Text(t))
            &&& p.email_verified matches Some(b) ==> json::member(tree, "email_verified"@) == Some(
                JsonTree::Bool(b),
            )
            &&& p.name matches Some(t) ==> json::member(tree, "name"@) == Some(JsonTree::Text(t))
            &&& p.picture matches Some(t) ==> json::member(tree, "picture"@) == Some(JsonTree::Text(t))
            &&& p.email is None ==> json::member(tree, "email"@) == Some(JsonTree::Null)
            &&& p.email_verified is None ==> json::member(tree, "email_verified"@) == Some(JsonTree::Null)
        }),
{
    reveal_strlit("provider");
    reveal_strlit("issuer");
    reveal_strlit("subject");
    reveal_strlit("email");
    reveal_strlit("email_verified");
    reveal_strlit("name");
    reveal_strlit("picture");
    assert("provider"@.len() == 8);
    assert("issuer"@.len() == 6);
    assert("subject"@.len() == 7);
    assert("email"@.len() == 5);
    assert("email_verified"@.len() == 14);
    assert("name"@.len() == 4);
    assert("picture"@.len() == 7);
    assert("subject"@[0] == 's');
    assert("picture"@[0] == 'p');
}

} // verus!

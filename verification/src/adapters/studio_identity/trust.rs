//! Whom the studio is trusted for: what has to come with a session, and what is made of it.

use vstd::prelude::*;

use crate::adapters::studio_identity;
use crate::adapters::studio_identity::{ClaimsView, TrustedStudioSession, VerifierView};
use crate::digest;
use crate::text;

verus! {

/// A session is trusted if and only if a credential is set up and the one that came with it is
/// that one, it is of the issuer and meant for the audience, has a subject, has not ended, and
/// names the actor of its subject. It is then for that actor, as long as it lasts.
pub proof fn session_is_trusted_when_all_agrees(
    v: VerifierView,
    provided: Seq<u8>,
    session: TrustedStudioSession,
    actor: Seq<char>,
    now_ms: i64,
)
    ensures
        studio_identity::claims_of(v, provided, session, actor, now_ms) is Ok <==> {
            &&& v.credential_digest == Some(provided)
            &&& session.issuer@ == v.issuer
            &&& text::texts(session.audience@).contains(v.audience)
            &&& now_ms < session.expires_at_ms
            &&& !text::is_blank(session.subject@)
            &&& session.actor@ == actor
        },
        studio_identity::claims_of(v, provided, session, actor, now_ms) matches Ok(c) ==> c.issuer
            == session.issuer@ && c.subject == actor && c.audience == text::texts(session.audience@)
            && c.expires_at_ms == session.expires_at_ms,
{
}

/// A refusal says whether nothing is set up, the credential is another one, the session does not
/// hold, or the actor is not its subject's.
pub proof fn refusal_of_trust_says_why(
    v: VerifierView,
    provided: Seq<u8>,
    session: TrustedStudioSession,
    actor: Seq<char>,
    now_ms: i64,
)
    ensures
        v.credential_digest is None ==> studio_identity::claims_of(
            v,
            provided,
            session,
            actor,
            now_ms,
        ) == Err::<ClaimsView, Seq<char>>("trusted Studio transport is not configured"@),
        v.credential_digest matches Some(expected) && expected != provided
            ==> studio_identity::claims_of(v, provided, session, actor, now_ms) == Err::<
            ClaimsView,
            Seq<char>,
        >("trusted Studio transport authentication failed"@),
        v.credential_digest == Some(provided) && session.expires_at_ms <= now_ms
            ==> studio_identity::claims_of(v, provided, session, actor, now_ms) == Err::<
            ClaimsView,
            Seq<char>,
        >("trusted Studio OIDC assertion is invalid"@),
{
}

/// A verifier is made for an issuer and an audience that are named, with a credential of at least
/// thirty-two bytes, of which only the digest is kept, or with none.
pub proof fn verifier_keeps_the_digest_only(
    issuer: Seq<char>,
    audience: Seq<char>,
    credential: Option<Seq<char>>,
)
    ensures
        studio_identity::verifier_of(issuer, audience, credential) is Ok <==> {
            &&& !text::is_blank(issuer)
            &&& !text::is_blank(audience)
            &&& credential matches Some(value) ==> text::is_blank(value)
                || vstd::utf8::encode_utf8(value).len() >= 32
        },
        studio_identity::verifier_of(issuer, audience, credential) matches Ok(v) ==> v.issuer
            == issuer && v.audience == audience && (v.credential_digest is Some <==> (credential
            matches Some(value) && !text::is_blank(value))) && (credential matches Some(value)
            ==> (v.credential_digest matches Some(kept) ==> kept == digest::sha256_of(
            vstd::utf8::encode_utf8(value),
        ))),
{
}

} // verus!

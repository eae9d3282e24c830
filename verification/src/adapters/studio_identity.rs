//! Sessions of the studio: who a session is of, and whether it is trusted.

pub mod trust;

use vstd::prelude::*;

use base64::Engine as _;

use crate::digest;
use crate::digest::sha256;
use crate::text;
use crate::text::{blank, copy_list, join2, join3, listed, same};

verus! {

/// What the studio says of a session.
#[derive(Debug)]
pub struct TrustedStudioSession {
    pub issuer: String,
    pub subject: String,
    pub audience: Vec<String>,
    pub actor: String,
    pub display_name: String,
    pub email: Option<String>,
    pub expires_at_ms: i64,
}

/// Who a session is of.
#[derive(Debug)]
pub struct IdentityClaims {
    pub issuer: String,
    pub subject: String,
    pub audience: Vec<String>,
    pub assurance: Option<String>,
    pub expires_at_ms: i64,
}

/// What [`IdentityClaims`] say.
#[verifier::ext_equal]
pub struct ClaimsView {
    pub issuer: Seq<char>,
    pub subject: Seq<char>,
    pub audience: Seq<Seq<char>>,
    pub assurance: Option<Seq<char>>,
    pub expires_at_ms: i64,
}

impl View for IdentityClaims {
    type V = ClaimsView;

    open spec fn view(&self) -> ClaimsView {
        ClaimsView {
            issuer: self.issuer@,
            subject: self.subject@,
            audience: text::texts(self.audience@),
            assurance: text::option_text(self.assurance),
            expires_at_ms: self.expires_at_ms,
        }
    }
}

/// Bytes as text in the alphabet of base64 that is safe in an URL, without padding.
pub uninterp spec fn base64_url_of(bytes: Seq<u8>) -> Seq<char>;

/// Writes bytes as text: `encode` of the engine `URL_SAFE_NO_PAD` of the crate `base64`.
/// The contract says only that the text depends on the bytes alone; the call panics on
/// more bytes than a text can hold, which are left out.
#[verifier::external_body]
fn base64_url(bytes: &Vec<u8>) -> (r: String)
    requires
        bytes@.len() <= 0xffff,
    ensures
        r@ == base64_url_of(bytes@),
{
    base64::engine::general_purpose::URL_SAFE_NO_PAD.encode(bytes)
}

/// What the actor of a subject is derived from.
pub open spec fn actor_seed(issuer: Seq<char>, subject: Seq<char>) -> Seq<char> {
    issuer + "\0"@ + subject
}

/// The actor of a subject.
pub open spec fn actor_of(issuer: Seq<char>, subject: Seq<char>) -> Seq<char> {
    "oidc:"@ + base64_url_of(
        digest::sha256_of(vstd::utf8::encode_utf8(actor_seed(issuer, subject))),
    )
}

/// Derives the actor of a subject.
pub fn stable_actor(issuer: &str, subject: &str) -> (r: String)
    ensures
        r@ == actor_of(issuer@, subject@),
{
    let seed = join3(issuer, "\0", subject);
    let sum = sha256(seed.as_str().as_bytes());
    let name = base64_url(&sum);
    join2("oidc:", name.as_str())
}

/// Compares two digests in a time that does not depend on where they differ.
pub fn constant_time_equal(left: &Vec<u8>, right: &Vec<u8>) -> (r: bool)
    requires
        left@.len() == right@.len(),
    ensures
        r == (left@ == right@),
{
    let mut difference: u8 = 0;
    let mut i: usize = 0;
    assert(left@.take(0) =~= right@.take(0));
    while i < left.len()
        invariant
            i <= left@.len(),
            left@.len() == right@.len(),
            difference == 0 <==> left@.take(i as int) == right@.take(i as int),
        decreases left.len() - i,
    {
        let a: u8 = left[i];
        let b: u8 = right[i];
        let before: u8 = difference;
        difference = difference | (a ^ b);
        proof {
            assert((before | (a ^ b)) == 0 <==> (before == 0 && a == b)) by (bit_vector);
            assert(left@.take(i + 1) =~= left@.take(i as int).push(a));
            assert(right@.take(i + 1) =~= right@.take(i as int).push(b));
            if left@.take(i + 1) == right@.take(i + 1) {
                assert(left@.take(i as int) =~= left@.take(i + 1).take(i as int));
                assert(right@.take(i as int) =~= right@.take(i + 1).take(i as int));
                assert(left@.take(i + 1)[i as int] == a);
                assert(right@.take(i + 1)[i as int] == b);
            }
        }
        i += 1;
    }
    proof {
        assert(left@.take(left@.len() as int) =~= left@);
        assert(right@.take(right@.len() as int) =~= right@);
    }
    difference == 0
}

/// What trusts the sessions of a studio.
#[derive(Debug)]
pub struct TrustedStudioVerifier {
    issuer: String,
    audience: String,
    credential_digest: Option<Vec<u8>>,
}

/// What a [`TrustedStudioVerifier`] trusts.
#[verifier::ext_equal]
pub struct VerifierView {
    pub issuer: Seq<char>,
    pub audience: Seq<char>,
    pub credential_digest: Option<Seq<u8>>,
}

impl View for TrustedStudioVerifier {
    type V = VerifierView;

    closed spec fn view(&self) -> VerifierView {
        VerifierView {
            issuer: self.issuer@,
            audience: self.audience@,
            credential_digest: match self.credential_digest {
                Some(bytes) => Some(bytes@),
                None => None,
            },
        }
    }
}

/// The credential that counts: a blank one is none.
pub open spec fn counted_credential(credential: Option<Seq<char>>) -> Option<Seq<char>> {
    match credential {
        Some(value) => if text::is_blank(value) {
            None
        } else {
            Some(value)
        },
        None => None,
    }
}

/// What is trusted, or why nothing can be.
pub open spec fn verifier_of(
    issuer: Seq<char>,
    audience: Seq<char>,
    credential: Option<Seq<char>>,
) -> Result<VerifierView, Seq<char>> {
    if text::is_blank(issuer) || text::is_blank(audience) {
        Err("trusted Studio OIDC authority is incomplete"@)
    } else {
        match counted_credential(credential) {
            None => Ok(VerifierView { issuer, audience, credential_digest: None }),
            Some(value) => if vstd::utf8::encode_utf8(value).len() < 32 {
                Err("trusted Studio credential must contain at least 32 bytes"@)
            } else {
                Ok(
                    VerifierView {
                        issuer,
                        audience,
                        credential_digest: Some(
                            digest::sha256_of(vstd::utf8::encode_utf8(value)),
                        ),
                    },
                )
            },
        }
    }
}

/// Whether a session is one that the verifier was made for, and is still valid.
pub open spec fn assertion_holds(v: VerifierView, session: TrustedStudioSession, now_ms: i64) -> bool {
    session.issuer@ == v.issuer && text::texts(session.audience@).contains(v.audience)
        && session.expires_at_ms > now_ms && !text::is_blank(session.subject@)
}

/// Who a session is of, or why it is not trusted. `provided` is the digest of the
/// credential that came with it, `actor` the one that its subject has.
pub open spec fn claims_of(
    v: VerifierView,
    provided: Seq<u8>,
    session: TrustedStudioSession,
    actor: Seq<char>,
    now_ms: i64,
) -> Result<ClaimsView, Seq<char>> {
    match v.credential_digest {
        None => Err("trusted Studio transport is not configured"@),
        Some(expected) => if provided != expected {
            Err("trusted Studio transport authentication failed"@)
        } else if !assertion_holds(v, session, now_ms) {
            Err("trusted Studio OIDC assertion is invalid"@)
        } else if session.actor@ != actor {
            Err("trusted Studio actor binding is invalid"@)
        } else {
            Ok(
                ClaimsView {
                    issuer: session.issuer@,
                    subject: session.actor@,
                    audience: text::texts(session.audience@),
                    assurance: Some("oidc_authorization_code_pkce"@),
                    expires_at_ms: session.expires_at_ms,
                },
            )
        },
    }
}

impl TrustedStudioVerifier {
    #[verifier::type_invariant]
    spec fn well_formed(self) -> bool {
        self.credential_digest matches Some(bytes) ==> bytes@.len() == 32
    }

    /// Trusts the sessions of an issuer that are meant for an audience and come with a
    /// credential.
    pub fn new(issuer: &str, audience: &str, credential: Option<String>) -> (r: Result<
        TrustedStudioVerifier,
        String,
    >)
        ensures
            match (r, verifier_of(issuer@, audience@, text::option_text(credential))) {
                (Ok(v), Ok(shown)) => v@ == shown,
                (Err(e), Err(message)) => e@ == message,
                _ => false,
            },
    {
        if blank(issuer) || blank(audience) {
            return Err("trusted Studio OIDC authority is incomplete".to_owned());
        }
        let credential_digest: Option<Vec<u8>> = match credential {
            Some(value) => if blank(value.as_str()) {
                None
            } else {
                let bytes = value.as_str().as_bytes();
                if bytes.len() < 32 {
                    return Err(
                        "trusted Studio credential must contain at least 32 bytes".to_owned(),
                    );
                }
                Some(sha256(bytes))
            },
            None => None,
        };
        Ok(
            TrustedStudioVerifier {
                issuer: issuer.to_owned(),
                audience: audience.to_owned(),
                credential_digest,
            },
        )
    }

    /// Tells who a session is of, given the digest of the credential that came with it and
    /// the actor that its subject has.
    pub fn check_session(
        &self,
        provided: &Vec<u8>,
        session: &TrustedStudioSession,
        actor: &str,
        now_ms: i64,
    ) -> (r: Result<IdentityClaims, String>)
        requires
            provided@.len() == 32,
        ensures
            match (r, claims_of(self@, provided@, *session, actor@, now_ms)) {
                (Ok(c), Ok(shown)) => c@ == shown,
                (Err(e), Err(message)) => e@ == message,
                _ => false,
            },
    {
        proof {
            use_type_invariant(self);
        }
        let expected: &Vec<u8> = match &self.credential_digest {
            Some(bytes) => bytes,
            None => {
                return Err("trusted Studio transport is not configured".to_owned());
            },
        };
        if !constant_time_equal(expected, provided) {
            return Err("trusted Studio transport authentication failed".to_owned());
        }
        if !same(session.issuer.as_str(), self.issuer.as_str()) || !listed(
            &session.audience,
            self.audience.as_str(),
        ) || session.expires_at_ms <= now_ms || blank(session.subject.as_str()) {
            return Err("trusted Studio OIDC assertion is invalid".to_owned());
        }
        if !same(session.actor.as_str(), actor) {
            return Err("trusted Studio actor binding is invalid".to_owned());
        }
        Ok(
            IdentityClaims {
                issuer: session.issuer.clone(),
                subject: session.actor.clone(),
                audience: copy_list(&session.audience),
                assurance: Some("oidc_authorization_code_pkce".to_owned()),
                expires_at_ms: session.expires_at_ms,
            },
        )
    }

    /// Tells who a session is of, if it is trusted.
    pub fn authenticate(
        &self,
        bearer_credential: &str,
        session: &TrustedStudioSession,
        now_ms: i64,
    ) -> (r: Result<IdentityClaims, String>)
        ensures
            match (
                r,
                claims_of(
                    self@,
                    digest::sha256_of(vstd::utf8::encode_utf8(bearer_credential@)),
                    *session,
                    actor_of(session.issuer@, session.subject@),
                    now_ms,
                ),
            ) {
                (Ok(c), Ok(shown)) => c@ == shown,
                (Err(e), Err(message)) => e@ == message,
                _ => false,
            },
    {
        let provided = sha256(bearer_credential.as_bytes());
        let actor = stable_actor(session.issuer.as_str(), session.subject.as_str());
        self.check_session(&provided, session, actor.as_str(), now_ms)
    }
}

/// A session is trusted only with the credential, from the issuer, for the audience,
/// before it expires, and under the actor of its own subject.
pub proof fn trusted_session_is_bound(
    v: VerifierView,
    provided: Seq<u8>,
    session: TrustedStudioSession,
    actor: Seq<char>,
    now_ms: i64,
)
    requires
        claims_of(v, provided, session, actor, now_ms) is Ok,
    ensures
        v.credential_digest == Some(provided),
        session.issuer@ == v.issuer,
        text::texts(session.audience@).contains(v.audience),
        session.expires_at_ms > now_ms,
        session.actor@ == actor,
        claims_of(v, provided, session, actor, now_ms)->Ok_0.subject == actor,
{
}

} // verus!

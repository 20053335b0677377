//! The credential codec: issues and validates signed, expiring bearer
//! credentials carrying a user identity.
//!
//! The token format is a JWT signed with a symmetric key (HMAC-SHA256). The
//! signature check is done by the jsonwebtoken crate with its time and
//! audience validation switched off, so decoding is a pure function of the
//! token and the key, named `token_claims`; the issuer and expiry checks are
//! then made here, in verified code. Every validation failure is reported as
//! one opaque `Unauthorized` rejection: the caller cannot tell an expired
//! credential from a tampered or malformed one.
//!
//! Credentials are stateless: there is no server-side revocation list, and
//! `revoke_credential` is deliberately a no-op — logging out means the client
//! discards its credential.

use vstd::prelude::*;

use crate::entity::{Credential, MakeCredentialParams, UserId};
use crate::error::{failure_message, is_internal, is_unauthorized, Failure};

verus! {

/// What decoding a token with a given key yields: `None` when the signature,
/// format or claim set is invalid, otherwise the claims
/// `(iat, exp, iss, sub_hi, sub_lo)`. A function of the token and key alone.
pub uninterp spec fn token_claims(token: Seq<char>, key: Seq<char>) -> Option<
    (u64, u64, Seq<char>, u64, u64),
>;

/// Relies on jsonwebtoken::encode with HS256: signing is deterministic, the
/// produced compact token is non-empty, and decoding it with the same key
/// (see `token_claims`) recovers exactly the claims that were signed. The
/// call cannot fail: an HMAC key of any length is accepted, and serializing
/// the string-keyed claims map is infallible — so the result is always
/// `Some`.
#[verifier::external_body]
fn jwt_encode_raw(iat: u64, exp: u64, iss: &str, sub_hi: u64, sub_lo: u64, key: &str) -> (r:
    Option<String>)
    ensures
        r is Some,
        r matches Some(t) ==> token_claims(t@, key@) == Some((iat, exp, iss@, sub_hi, sub_lo))
            && t@.len() > 0,
{
    let enc_key = jsonwebtoken::EncodingKey::from_secret(key.as_bytes());
    let header = jsonwebtoken::Header::new(jsonwebtoken::Algorithm::HS256);
    let mut claims = serde_json::Map::new();
    claims.insert("iat".to_string(), iat.into());
    claims.insert("exp".to_string(), exp.into());
    claims.insert("iss".to_string(), iss.to_string().into());
    claims.insert("sub_hi".to_string(), sub_hi.into());
    claims.insert("sub_lo".to_string(), sub_lo.into());
    jsonwebtoken::encode(&header, &serde_json::Value::Object(claims), &enc_key).ok()
}

/// Relies on jsonwebtoken::decode with HS256, with time and audience
/// validation disabled and no required claims: the outcome depends on the
/// token and key alone, and is exactly the function named `token_claims`.
#[verifier::external_body]
fn jwt_decode_raw(token: &str, key: &str) -> (r: Option<(u64, u64, String, u64, u64)>)
    ensures
        match r {
            Some(c) => token_claims(token@, key@) == Some((c.0, c.1, c.2@, c.3, c.4)),
            None => token_claims(token@, key@) is None,
        },
{
    let dec_key = jsonwebtoken::DecodingKey::from_secret(key.as_bytes());
    let mut validation = jsonwebtoken::Validation::new(jsonwebtoken::Algorithm::HS256);
    validation.validate_exp = false;
    validation.validate_aud = false;
    validation.required_spec_claims.clear();
    let data = jsonwebtoken::decode::<serde_json::Value>(token, &dec_key, &validation).ok()?;
    let iat = data.claims.get("iat")?.as_u64()?;
    let exp = data.claims.get("exp")?.as_u64()?;
    let iss = data.claims.get("iss")?.as_str()?.to_string();
    let sub_hi = data.claims.get("sub_hi")?.as_u64()?;
    let sub_lo = data.claims.get("sub_lo")?.as_u64()?;
    Some((iat, exp, iss, sub_hi, sub_lo))
}

/// Relies on jsonwebtoken::get_current_timestamp: the current time as whole
/// seconds since the Unix epoch. The value depends on the clock, so nothing
/// is assumed of it.
#[verifier::external_body]
pub(crate) fn now_seconds() -> (r: u64) {
    jsonwebtoken::get_current_timestamp()
}

/// The credential codec configuration: issuer name, credential lifetime in
/// seconds, and the symmetric signing key.
#[derive(Debug, Clone)]
pub struct Jwt {
    issuer: String,
    lifetime: u64,
    key: String,
}

/// Whether a token checks out against codec `jwt` at time `now`: its
/// signature and format must be valid, its issuer must match the configured
/// one, and it must not have expired. Yields the subject on success.
pub open spec fn jwt_check_spec(jwt: Jwt, token: Seq<char>, now: u64) -> Option<UserId> {
    match token_claims(token, jwt.key_spec()) {
        Some((iat, exp, iss, sub_hi, sub_lo)) => if iss == jwt.issuer_spec() && now < exp {
            Some(UserId { hi: sub_hi, lo: sub_lo })
        } else {
            None
        },
        None => None,
    }
}

/// Law: a credential whose claims carry the configured issuer and the subject
/// `uid` is accepted at any time strictly before its expiry, and yields
/// exactly `uid` — the round trip from issuance to validation.
pub proof fn lemma_credential_round_trip(
    jwt: Jwt,
    token: Seq<char>,
    iat: u64,
    exp: u64,
    uid: UserId,
    now: u64,
)
    requires
        token_claims(token, jwt.key_spec()) == Some((iat, exp, jwt.issuer_spec(), uid.hi, uid.lo)),
        now < exp,
    ensures
        jwt_check_spec(jwt, token, now) == Some(uid),
{
}

/// Law: a credential is rejected at any time at or after its expiry, whatever
/// its other claims say.
pub proof fn lemma_expired_credential_rejected(
    jwt: Jwt,
    token: Seq<char>,
    iat: u64,
    exp: u64,
    iss: Seq<char>,
    sub_hi: u64,
    sub_lo: u64,
    now: u64,
)
    requires
        token_claims(token, jwt.key_spec()) == Some((iat, exp, iss, sub_hi, sub_lo)),
        exp <= now,
    ensures
        jwt_check_spec(jwt, token, now) is None,
{
}

impl Jwt {
    /// The configured issuer name.
    pub closed spec fn issuer_spec(self) -> Seq<char> {
        self.issuer@
    }

    /// The configured credential lifetime, in seconds.
    pub closed spec fn lifetime_spec(self) -> u64 {
        self.lifetime
    }

    /// The configured symmetric signing key.
    pub closed spec fn key_spec(self) -> Seq<char> {
        self.key@
    }

    pub fn builder() -> (r: Builder) {
        Builder::new()
    }

    /// Issues a credential for `params.user_id` as of time `now`: claims
    /// `iat = now`, `exp = now + lifetime`, the configured issuer, and the
    /// user id as subject, signed with the configured key. Issuance succeeds
    /// whenever the expiry fits in the timestamp type; the overflow is the
    /// only failure, an internal error.
    pub fn make_credential_at(&self, params: MakeCredentialParams, now: u64) -> (r: Result<
        Credential,
        Failure,
    >)
        ensures
            now + self.lifetime_spec() <= u64::MAX ==> r is Ok,
            match r {
                Ok(c) => now + self.lifetime_spec() <= u64::MAX && token_claims(
                    c.0@,
                    self.key_spec(),
                ) == Some(
                    (
                        now,
                        (now + self.lifetime_spec()) as u64,
                        self.issuer_spec(),
                        params.user_id.hi,
                        params.user_id.lo,
                    ),
                ) && c.0@.len() > 0,
                Err(f) => is_internal(f) && failure_message(f) == "Failed to encode JWT"@,
            },
            now + self.lifetime_spec() > u64::MAX ==> r is Err,
    {
        let exp = match now.checked_add(self.lifetime) {
            Some(e) => e,
            None => { return Err(Failure::internal("Failed to encode JWT")); },
        };
        match jwt_encode_raw(
            now,
            exp,
            self.issuer.as_str(),
            params.user_id.hi,
            params.user_id.lo,
            self.key.as_str(),
        ) {
            Some(t) => Ok(Credential(t)),
            None => Err(Failure::internal("Failed to encode JWT")),
        }
    }

    /// Issues a credential for `params.user_id` as of the current time.
    pub fn make_credential(&self, params: MakeCredentialParams) -> (r: Result<
        Credential,
        Failure,
    >)
        ensures
            match r {
                Ok(c) => c.0@.len() > 0 && (match token_claims(c.0@, self.key_spec()) {
                    Some((iat, exp, iss, sub_hi, sub_lo)) => iss == self.issuer_spec() && sub_hi
                        == params.user_id.hi && sub_lo == params.user_id.lo && iat <= exp,
                    None => false,
                }),
                Err(f) => is_internal(f),
            },
    {
        let now = now_seconds();
        self.make_credential_at(params, now)
    }

    /// Validates a credential as of time `now` and returns its subject. The
    /// signature, the issuer and the expiry must all check out; any failure
    /// is the single opaque `Unauthorized` rejection.
    pub fn check_credential_at(&self, credential: Credential, now: u64) -> (r: Result<
        UserId,
        Failure,
    >)
        ensures
            match r {
                Ok(uid) => jwt_check_spec(*self, credential.0@, now) == Some(uid),
                Err(f) => jwt_check_spec(*self, credential.0@, now) is None && is_unauthorized(f)
                    && failure_message(f) == "Failed to decode JWT"@,
            },
    {
        match jwt_decode_raw(credential.0.as_str(), self.key.as_str()) {
            Some(claims) => {
                let (iat, exp, iss, sub_hi, sub_lo) = claims;
                if iss == self.issuer && now < exp {
                    Ok(UserId { hi: sub_hi, lo: sub_lo })
                } else {
                    Err(Failure::unauthorized("Failed to decode JWT"))
                }
            },
            None => Err(Failure::unauthorized("Failed to decode JWT")),
        }
    }

    /// Validates a credential as of the current time and returns its subject.
    pub fn check_credential(&self, credential: Credential) -> (r: Result<UserId, Failure>)
        ensures
            match r {
                Ok(uid) => (match token_claims(credential.0@, self.key_spec()) {
                    Some((iat, exp, iss, sub_hi, sub_lo)) => iss == self.issuer_spec() && uid
                        == (UserId { hi: sub_hi, lo: sub_lo }),
                    None => false,
                }),
                Err(f) => is_unauthorized(f),
            },
            token_claims(credential.0@, self.key_spec()) is None ==> r is Err,
    {
        let now = now_seconds();
        self.check_credential_at(credential, now)
    }

    /// Revoking is deliberately a no-op: credentials are stateless and there
    /// is no server-side denylist, so logout amounts to the client discarding
    /// its credential. The operation still exists so callers have a single
    /// place that states this choice.
    pub fn revoke_credential(&self, _credential: Credential) -> (r: Result<(), Failure>)
        ensures
            r is Ok,
    {
        Ok(())
    }
}

/// A step-by-step builder for the codec configuration. Each field changes the
/// builder's type, so `build` only exists once the key, the issuer and the
/// lifetime have all been supplied.
#[derive(Debug, Clone)]
pub struct Builder<Key = (), Issuer = (), Lifetime = ()> {
    key: Key,
    issuer: Issuer,
    lifetime: Lifetime,
}

impl Builder {
    pub fn new() -> (r: Builder) {
        Builder { key: (), issuer: (), lifetime: () }
    }
}

impl<Key, Issuer, Lifetime> Builder<Key, Issuer, Lifetime> {
    /// The builder's key slot.
    pub closed spec fn key_spec(self) -> Key {
        self.key
    }

    /// The builder's issuer slot.
    pub closed spec fn issuer_spec(self) -> Issuer {
        self.issuer
    }

    /// The builder's lifetime slot.
    pub closed spec fn lifetime_spec(self) -> Lifetime {
        self.lifetime
    }

    /// Sets the symmetric signing key.
    pub fn key(self, value: &str) -> (r: Builder<String, Issuer, Lifetime>)
        ensures
            r.key_spec()@ == value@,
            r.issuer_spec() == self.issuer_spec(),
            r.lifetime_spec() == self.lifetime_spec(),
    {
        let Self { key: _, issuer, lifetime } = self;
        Builder { key: value.to_owned(), issuer, lifetime }
    }

    /// Sets the issuer name.
    pub fn issuer(self, value: &str) -> (r: Builder<Key, String, Lifetime>)
        ensures
            r.issuer_spec()@ == value@,
            r.key_spec() == self.key_spec(),
            r.lifetime_spec() == self.lifetime_spec(),
    {
        let Self { key, issuer: _, lifetime } = self;
        Builder { key, issuer: value.to_owned(), lifetime }
    }

    /// Sets the credential lifetime, in seconds.
    pub fn lifetime(self, value: u64) -> (r: Builder<Key, Issuer, u64>)
        ensures
            r.lifetime_spec() == value,
            r.key_spec() == self.key_spec(),
            r.issuer_spec() == self.issuer_spec(),
    {
        let Self { key, issuer, lifetime: _ } = self;
        Builder { key, issuer, lifetime: value }
    }
}

impl Builder<String, String, u64> {
    /// Builds the codec from the completed configuration.
    pub fn build(self) -> (r: Jwt)
        ensures
            r.key_spec() == self.key_spec()@,
            r.issuer_spec() == self.issuer_spec()@,
            r.lifetime_spec() == self.lifetime_spec(),
    {
        let Self { key, issuer, lifetime } = self;
        Jwt { issuer, lifetime, key }
    }
}

} // verus!

//! Verification of the provider's identity tokens against its published keys.
//!
//! The keys are fetched by the caller and cached here for an hour. A token names its
//! key; a key that the cached set does not hold is not looked for elsewhere, so a
//! key that the provider rotates in is unknown until the cache expires.

use vstd::prelude::*;
use vstd::string::*;
use std::sync::Arc;
use std::sync::RwLock;
use jsonwebtoken::{Algorithm, DecodingKey, Validation};
use serde_json::Value;
use crate::config::AppConfig;
use crate::constants::{GOOGLE_ISSUER, JWKS_TTL_SECONDS};
use crate::dto::GoogleJwtClaims;
use crate::entities::opt_text;
use crate::error::AppError;
use crate::claims::{claims_content, flag_at, flag_in, number_at, number_in, text_at, text_in, Json};
use crate::jwt_maker::{
    asked_audience, asked_issuer, audience_checked, decode_claims, key_components, key_secret,
    signature_checked, signed_by, token_failed, token_payload,
};
use crate::text::same_text;

verus! {

/// `std::sync::RwLock`: the lock around the cached keys.
#[verifier::external_type_specification]
#[verifier::external_body]
#[verifier::reject_recursive_types(T)]
pub struct ExStdRwLock<T: ?Sized>(std::sync::RwLock<T>);

/// A public RSA key of the provider: its identifier, modulus and exponent, the last
/// two in URL-safe base64.
#[derive(Debug)]
pub struct Jwk {
    pub kid: String,
    pub n: String,
    pub e: String,
}

/// A set of keys as the provider publishes it.
#[derive(Debug)]
pub struct Jwks {
    pub keys: Vec<Jwk>,
}

/// A key set and the instant until which it may be used.
#[derive(Debug)]
pub struct JwksCache {
    pub jwks: Jwks,
    pub expires_at: i64,
}

impl Clone for Jwk {
    fn clone(&self) -> (r: Self)
        ensures
            r == *self,
    {
        Jwk { kid: self.kid.clone(), n: self.n.clone(), e: self.e.clone() }
    }
}

impl Clone for Jwks {
    fn clone(&self) -> (r: Self)
        ensures
            r.keys.len() == self.keys.len(),
            forall|i: int| 0 <= i < self.keys.len() ==> r.keys[i] == self.keys[i],
    {
        let mut keys: Vec<Jwk> = Vec::new();
        let mut i: usize = 0;
        while i < self.keys.len()
            invariant
                i <= self.keys.len(),
                keys.len() == i,
                forall|j: int| 0 <= j < i ==> keys[j] == self.keys[j],
            decreases self.keys.len() - i,
        {
            keys.push(self.keys[i].clone());
            i = i + 1;
        }
        Jwks { keys }
    }
}

impl Clone for JwksCache {
    fn clone(&self) -> (r: Self)
        ensures
            r.expires_at == self.expires_at,
            r.jwks.keys.len() == self.jwks.keys.len(),
            forall|i: int| 0 <= i < self.jwks.keys.len() ==> r.jwks.keys[i] == self.jwks.keys[i],
    {
        JwksCache { jwks: self.jwks.clone(), expires_at: self.expires_at }
    }
}

/// The key identifier in the header of a token: `None` where the header cannot be
/// read, `Some(None)` where it names no key.
pub uninterp spec fn token_key_id(token: Seq<char>) -> Option<Option<Seq<char>>>;

/// `jsonwebtoken::decode_header`, of which the key identifier is kept.
#[verifier::external_body]
fn header_key_id(token: &str) -> (kid: Result<Option<String>, jsonwebtoken::errors::Error>)
    ensures
        match kid {
            Ok(k) => token_key_id(token@) == Some(opt_text(k)),
            Err(_) => token_key_id(token@) is None,
        },
{
    Ok(jsonwebtoken::decode_header(token)?.kid)
}

/// `DecodingKey::from_rsa_components`: the RSA key of modulus `n` and exponent `e`,
/// both in URL-safe base64; the error where they are not.
#[verifier::external_body]
fn rsa_key(n: &str, e: &str) -> (key: Result<DecodingKey, jsonwebtoken::errors::Error>)
    ensures
        key matches Ok(made) ==> key_components(made) == Some((n@, e@)) && key_secret(made) is None,
{
    DecodingKey::from_rsa_components(n, e)
}

/// `Validation::new` for RS256: the signature is looked at and must be RS256, and
/// `exp` must be present and not lie in the past. The audience is looked at; no
/// audience and no issuer is set yet.
#[verifier::external_body]
fn rs256_checks() -> (checks: Validation)
    ensures
        signature_checked(checks),
        audience_checked(checks),
        asked_audience(checks) is None,
        asked_issuer(checks) is None,
{
    Validation::new(Algorithm::RS256)
}

/// The set that holds one text.
pub open spec fn only(text: Seq<char>) -> Set<Seq<char>> {
    Set::empty().insert(text)
}

/// `Validation::set_audience`: the token must be meant for this audience. Nothing
/// else that is asked changes.
#[verifier::external_body]
fn expect_audience(checks: &mut Validation, audience: &str)
    ensures
        asked_audience(*final(checks)) == Some(only(audience@)),
        asked_issuer(*final(checks)) == asked_issuer(*old(checks)),
        audience_checked(*final(checks)) == audience_checked(*old(checks)),
        signature_checked(*final(checks)) == signature_checked(*old(checks)),
{
    checks.set_audience(&[audience]);
}

/// `Validation::set_issuer`: the token must come from this issuer. Nothing else
/// that is asked changes.
#[verifier::external_body]
fn expect_issuer(checks: &mut Validation, issuer: &str)
    ensures
        asked_issuer(*final(checks)) == Some(only(issuer@)),
        asked_audience(*final(checks)) == asked_audience(*old(checks)),
        audience_checked(*final(checks)) == audience_checked(*old(checks)),
        signature_checked(*final(checks)) == signature_checked(*old(checks)),
{
    checks.set_issuer(&[issuer]);
}

/// `RwLock::read`, of which a copy of the guarded value is kept; the text of the
/// error where the lock is poisoned.
#[verifier::external_body]
fn read_slot(slot: &RwLock<Option<JwksCache>>) -> (held: Result<Option<JwksCache>, String>) {
    slot.read().map(|guard| guard.clone()).map_err(|err| err.to_string())
}

/// `RwLock::write`, through which the guarded value is replaced; the text of the
/// error where the lock is poisoned.
#[verifier::external_body]
fn write_slot(slot: &RwLock<Option<JwksCache>>, entry: JwksCache) -> (done: Result<(), String>) {
    slot.write().map(|mut guard| *guard = Some(entry)).map_err(|err| err.to_string())
}

/// `RwLock::new` around an empty slot.
#[verifier::external_body]
fn empty_slot() -> (slot: RwLock<Option<JwksCache>>) {
    RwLock::new(None)
}

impl JwksCache {
    /// Whether the entry may be used at the instant `now`: its end lies after `now`.
    pub open spec fn fresh_at(&self, now: i64) -> bool {
        self.expires_at > now
    }

    /// Tells whether the entry may be used at the instant `now`.
    pub fn is_fresh(&self, now: i64) -> (fresh: bool)
        ensures
            fresh == self.fresh_at(now),
    {
        self.expires_at > now
    }

    /// An entry for keys fetched at `now`. It may be used for an hour: at every
    /// instant from `now` until an hour later, and at none from then on.
    pub fn filled(jwks: Jwks, now: i64) -> (entry: JwksCache)
        ensures
            entry.jwks == jwks,
            now + JWKS_TTL_SECONDS <= i64::MAX ==> entry.expires_at == now + JWKS_TTL_SECONDS,
            now + JWKS_TTL_SECONDS > i64::MAX ==> entry.expires_at == i64::MAX,
            forall|t: i64| now <= t < now + JWKS_TTL_SECONDS && t < i64::MAX ==> entry.fresh_at(t),
            forall|t: i64| t >= now + JWKS_TTL_SECONDS ==> !entry.fresh_at(t),
    {
        let expires_at = match now.checked_add(JWKS_TTL_SECONDS) {
            Some(end) => end,
            None => i64::MAX,
        };
        JwksCache { jwks, expires_at }
    }
}

/// The keys to use at `now`, given what the cache holds: the cached keys while the
/// entry is fresh; otherwise none, and the keys are to be fetched and the entry
/// replaced.
pub fn cached_keys(held: Option<JwksCache>, now: i64) -> (keys: Option<Jwks>)
    ensures
        match held {
            Some(entry) => if entry.fresh_at(now) {
                keys == Some(entry.jwks)
            } else {
                keys is None
            },
            None => keys is None,
        },
{
    match held {
        Some(entry) => {
            if entry.is_fresh(now) {
                Some(entry.jwks)
            } else {
                None
            }
        },
        None => None,
    }
}

/// Whether `key` is the first key of `keys` with the identifier `kid`.
pub open spec fn first_with_kid(keys: Seq<Jwk>, kid: Seq<char>, at: int) -> bool {
    &&& 0 <= at < keys.len()
    &&& keys[at].kid@ == kid
    &&& forall|j: int| 0 <= j < at ==> keys[j].kid@ != kid
}

/// Whether the claims that a token carries can be read as identity claims: issuer,
/// authorised party, audience, subject, address, name and picture are texts, the
/// address is said to be verified or not, and the instants are counts.
pub open spec fn identity_readable(content: Map<Seq<char>, Json>) -> bool {
    &&& text_in(content, "iss"@) is Some
    &&& text_in(content, "azp"@) is Some
    &&& text_in(content, "aud"@) is Some
    &&& text_in(content, "sub"@) is Some
    &&& text_in(content, "email"@) is Some
    &&& flag_in(content, "email_verified"@) is Some
    &&& text_in(content, "name"@) is Some
    &&& text_in(content, "picture"@) is Some
    &&& number_in(content, "iat"@) is Some
    &&& number_in(content, "exp"@) is Some
}

/// Whether the claims that a token carries state `claims`: each required claim is
/// there, under its key, with this value; each optional one is the text under its
/// key, and absent where the key holds no text.
pub open spec fn identity_stated(claims: GoogleJwtClaims, content: Map<Seq<char>, Json>) -> bool {
    &&& text_in(content, "iss"@) == Some(claims.iss@)
    &&& text_in(content, "azp"@) == Some(claims.azp@)
    &&& text_in(content, "aud"@) == Some(claims.aud@)
    &&& text_in(content, "sub"@) == Some(claims.sub@)
    &&& text_in(content, "hd"@) == opt_text(claims.hd)
    &&& text_in(content, "email"@) == Some(claims.email@)
    &&& flag_in(content, "email_verified"@) == Some(claims.email_verified)
    &&& text_in(content, "at_hash"@) == opt_text(claims.at_hash)
    &&& text_in(content, "name"@) == Some(claims.name@)
    &&& text_in(content, "picture"@) == Some(claims.picture@)
    &&& text_in(content, "given_name"@) == opt_text(claims.given_name)
    &&& text_in(content, "family_name"@) == opt_text(claims.family_name)
    &&& number_in(content, "iat"@) == Some(claims.iat)
    &&& number_in(content, "exp"@) == Some(claims.exp)
}

/// Whether a token is signed with the key of a set that it names: the first key of
/// the set that has the token's key identifier.
pub open spec fn signed_by_key_of(token: Seq<char>, keys: Jwks) -> bool {
    token_key_id(token) matches Some(Some(id)) && exists|at: int|
        first_with_kid(keys.keys@, id, at) && signed_by(
            token,
            (#[trigger] keys.keys[at]).n@,
            keys.keys[at].e@,
        )
}

/// Verifies identity tokens of the provider for one client.
#[derive(Clone)]
pub struct GoogleJwtMaker {
    pub cfg: Arc<AppConfig>,
    pub jwks_cache: Arc<RwLock<Option<JwksCache>>>,
}

impl GoogleJwtMaker {
    /// A verifier for the configured client, with an empty key cache.
    pub fn new(cfg: Arc<AppConfig>) -> (maker: Self)
        ensures
            maker.cfg == cfg,
    {
        Self { cfg, jwks_cache: Arc::new(empty_slot()) }
    }

    /// The key that a token names, or why the token is refused: a header that
    /// cannot be read is a token error, a header without a key identifier an
    /// invalid token.
    pub fn key_id(token: &str) -> (kid: Result<String, AppError>)
        ensures
            match token_key_id(token@) {
                None => kid matches Err(AppError::JWTError(_)),
                Some(None) => kid matches Err(AppError::InvalidToken),
                Some(Some(id)) => kid matches Ok(k) && k@ == id,
            },
    {
        match header_key_id(token) {
            Err(err) => Err(token_failed(&err)),
            Ok(None) => Err(AppError::InvalidToken),
            Ok(Some(k)) => Ok(k),
        }
    }

    /// The first key of the set with the identifier `kid`.
    pub fn find_jwk_by_kid<'a>(jwks: &'a Jwks, kid: &str) -> (key: Option<&'a Jwk>)
        ensures
            match key {
                Some(k) => exists|at: int| first_with_kid(jwks.keys@, kid@, at) && *k == jwks.keys[at],
                None => forall|j: int| 0 <= j < jwks.keys.len() ==> jwks.keys[j].kid@ != kid@,
            },
    {
        let mut i: usize = 0;
        while i < jwks.keys.len()
            invariant
                i <= jwks.keys.len(),
                forall|j: int| 0 <= j < i ==> jwks.keys[j].kid@ != kid@,
            decreases jwks.keys.len() - i,
        {
            if same_text(jwks.keys[i].kid.as_str(), kid) {
                assert(first_with_kid(jwks.keys@, kid@, i as int));
                return Some(&jwks.keys[i]);
            }
            i = i + 1;
        }
        None
    }

    /// The keys to use at `now`, given how reading the cache ended: those that
    /// [`cached_keys`] picks from what was read, or the failure of the lock as a
    /// processing error.
    pub fn keys_read(read: Result<Option<JwksCache>, String>, now: i64) -> (keys: Result<
        Option<Jwks>,
        AppError,
    >)
        ensures
            match read {
                Ok(Some(entry)) => if entry.fresh_at(now) {
                    keys == Ok::<Option<Jwks>, AppError>(Some(entry.jwks))
                } else {
                    keys == Ok::<Option<Jwks>, AppError>(None)
                },
                Ok(None) => keys == Ok::<Option<Jwks>, AppError>(None),
                Err(why) => keys == Err::<Option<Jwks>, AppError>(AppError::ProcessError(why)),
            },
    {
        match read {
            Ok(held) => Ok(cached_keys(held, now)),
            Err(why) => Err(AppError::ProcessError(why)),
        }
    }

    /// What storing fresh keys answers, given how writing the cache ended: the keys
    /// themselves, or the failure of the lock as a processing error.
    pub fn keys_written(written: Result<(), String>, fresh: Jwks) -> (keys: Result<Jwks, AppError>)
        ensures
            match written {
                Ok(_) => keys == Ok::<Jwks, AppError>(fresh),
                Err(why) => keys == Err::<Jwks, AppError>(AppError::ProcessError(why)),
            },
    {
        match written {
            Ok(_) => Ok(fresh),
            Err(why) => Err(AppError::ProcessError(why)),
        }
    }

    /// The cached keys that may be used at `now`, if there are any. The cache
    /// stands behind a lock that other threads write through, so what is read is
    /// not told by the arguments: see [`Self::keys_read`] for what is answered to
    /// each thing read.
    pub fn cached_jwks(&self, now: i64) -> (keys: Result<Option<Jwks>, AppError>)
        ensures
            keys matches Err(e) ==> e is ProcessError,
    {
        Self::keys_read(read_slot(&self.jwks_cache), now)
    }

    /// Replaces the cache with keys fetched at `now`, to be used for an hour (see
    /// [`JwksCache::filled`]), and hands the keys back.
    pub fn store_jwks(&self, fresh: Jwks, now: i64) -> (keys: Result<Jwks, AppError>)
        ensures
            keys matches Ok(k) ==> k == fresh,
            keys matches Err(e) ==> e is ProcessError,
    {
        let entry = JwksCache::filled(fresh.clone(), now);
        Self::keys_written(write_slot(&self.jwks_cache, entry), fresh)
    }

    /// Reads what a verified token states: there are claims exactly where they can
    /// be read, and they are those that the token carries.
    fn claims_of(payload: &serde_json::Map<String, Value>) -> (claims: Option<GoogleJwtClaims>)
        ensures
            match claims {
                Some(c) => identity_stated(c, claims_content(*payload)),
                None => !identity_readable(claims_content(*payload)),
            },
    {
        let iss = text_at(payload, "iss");
        let azp = text_at(payload, "azp");
        let aud = text_at(payload, "aud");
        let sub = text_at(payload, "sub");
        let email = text_at(payload, "email");
        let email_verified = flag_at(payload, "email_verified");
        let name = text_at(payload, "name");
        let picture = text_at(payload, "picture");
        let iat = number_at(payload, "iat");
        let exp = number_at(payload, "exp");
        match (iss, azp, aud, sub, email, email_verified, name, picture, iat, exp) {
            (
                Some(iss),
                Some(azp),
                Some(aud),
                Some(sub),
                Some(email),
                Some(email_verified),
                Some(name),
                Some(picture),
                Some(iat),
                Some(exp),
            ) => Some(
                GoogleJwtClaims {
                    iss,
                    azp,
                    aud,
                    sub,
                    hd: text_at(payload, "hd"),
                    email,
                    email_verified,
                    at_hash: text_at(payload, "at_hash"),
                    name,
                    picture,
                    given_name: text_at(payload, "given_name"),
                    family_name: text_at(payload, "family_name"),
                    iat,
                    exp,
                },
            ),
            _ => None,
        }
    }

    /// Verifies an identity token against a key set. The token must name a key, the
    /// set must hold a key of that name, and the token must be signed with the first
    /// such key, be meant for the configured client, come from the provider and not
    /// have expired.
    /// The claims of a token that is accepted are those that the token carries; they
    /// name the configured client as audience and the provider as issuer.
    pub fn verify_token(&self, token: &str, jwks: &Jwks) -> (claims: Result<GoogleJwtClaims, AppError>)
        ensures
            claims matches Ok(c) ==> (token_payload(token@) matches Some(held) && identity_stated(
                c,
                held,
            )),
            claims matches Ok(c) ==> c.aud@ == self.cfg.google_client_id@ && c.iss@
                == GOOGLE_ISSUER@,
            claims is Ok ==> signed_by_key_of(token@, *jwks),
            match token_key_id(token@) {
                None => claims matches Err(AppError::JWTError(_)),
                Some(None) => claims matches Err(AppError::InvalidToken),
                Some(Some(id)) => if forall|j: int|
                    0 <= j < jwks.keys.len() ==> jwks.keys[j].kid@ != id {
                    claims matches Err(AppError::InvalidToken)
                } else {
                    claims matches Err(e) ==> e is JWTError
                },
            },
    {
        let kid = match Self::key_id(token) {
            Ok(k) => k,
            Err(e) => {
                return Err(e);
            },
        };
        let jwk = match Self::find_jwk_by_kid(jwks, kid.as_str()) {
            Some(k) => k,
            None => {
                return Err(AppError::InvalidToken);
            },
        };
        let key = match rsa_key(jwk.n.as_str(), jwk.e.as_str()) {
            Ok(k) => k,
            Err(err) => {
                return Err(token_failed(&err));
            },
        };
        let mut checks = rs256_checks();
        expect_audience(&mut checks, self.cfg.google_client_id.as_str());
        expect_issuer(&mut checks, GOOGLE_ISSUER);
        Self::accepted_identity(decode_claims(token, &key, &checks))
    }

    /// What verifying an identity token answers, given how the verifier ended: the
    /// claims of an accepted token where they can be read, and a token error where
    /// they cannot or the token was rejected.
    pub fn accepted_identity(verified: Result<
        serde_json::Map<String, Value>,
        jsonwebtoken::errors::Error,
    >) -> (claims: Result<GoogleJwtClaims, AppError>)
        ensures
            match verified {
                Ok(held) => if identity_readable(claims_content(held)) {
                    claims matches Ok(c) && identity_stated(c, claims_content(held))
                } else {
                    claims matches Err(AppError::JWTError(m)) && m@
                        == "missing or malformed claim"@
                },
                Err(_) => claims matches Err(e) && e is JWTError,
            },
    {
        match verified {
            Ok(held) => match Self::claims_of(&held) {
                Some(c) => Ok(c),
                None => Err(AppError::JWTError("missing or malformed claim".to_string())),
            },
            Err(err) => Err(token_failed(&err)),
        }
    }
}

} // verus!

//! Admission to the protected endpoints: who is signed in, and who may seed the first
//! administrator.

use vstd::prelude::*;
use vstd::string::*;
use vstd::utf8::{decode_utf8, valid_utf8};
use std::sync::Arc;
use base64::Engine;
use base64::engine::general_purpose::STANDARD;
use crate::constants::{CACHE_TTL_SECONDS, EMAIL_PROVIDER, GOOGLE_PROVIDER};
use crate::entities::{User, UserFull, UserOauthProvider};
use crate::error::AppError;
use crate::flow::{fail, out_of_turn, unexpected, Effect, Event, Step};
use crate::claims::text_in;
use crate::google_jwt::{signed_by_key_of, token_key_id, GoogleJwtMaker, Jwks};
use crate::jwt_maker::{signed_with, token_payload, JwtMaker};
use crate::services::redis_svc::current_user_key;
use crate::text::same_text;

verus! {

/// `base64::DecodeError`: why a text is not base64.
#[verifier::external_type_specification]
#[verifier::external_body]
pub struct ExDecodeError(base64::DecodeError);

/// The bytes that a text in standard base64 (with padding) stands for; `None` where
/// the text is not in that form.
pub uninterp spec fn base64_decoded(text: Seq<char>) -> Option<Seq<u8>>;

/// `Engine::decode` of the standard engine.
#[verifier::external_body]
fn decode_base64(text: &str) -> (bytes: Result<Vec<u8>, base64::DecodeError>)
    ensures
        match bytes {
            Ok(b) => base64_decoded(text@) == Some(b@),
            Err(_) => base64_decoded(text@) is None,
        },
{
    STANDARD.decode(text)
}

/// The text of a base64 error, by its `Display`.
#[verifier::external_body]
fn decode_error_text(err: &base64::DecodeError) -> (text: String) {
    err.to_string()
}

/// `String::from_utf8`: the text that the bytes encode, where they are UTF-8.
#[verifier::external_body]
fn text_of(bytes: Vec<u8>) -> (text: Option<String>)
    ensures
        match text {
            Some(t) => valid_utf8(bytes@) && t@ == decode_utf8(bytes@),
            None => !valid_utf8(bytes@),
        },
{
    String::from_utf8(bytes).ok()
}

/// Who verifies the bearer token of a request.
#[derive(Debug, PartialEq, Eq, Structural, Clone, Copy)]
pub enum TokenVerifier {
    /// The provider's identity token, verified against the provider's keys.
    Google,
    /// An access token of this service, verified with its secret.
    Email,
}

impl TokenVerifier {
    /// The provider tag under which the identities of this verifier are linked.
    pub fn provider(&self) -> (tag: &'static str)
        ensures
            tag@ == (match self {
                TokenVerifier::Google => GOOGLE_PROVIDER@,
                TokenVerifier::Email => EMAIL_PROVIDER@,
            }),
    {
        match self {
            TokenVerifier::Google => GOOGLE_PROVIDER,
            TokenVerifier::Email => EMAIL_PROVIDER,
        }
    }
}

/// How the current user of a request is resolved.
#[derive(Debug)]
pub enum Resolution {
    /// The cache holds the user; the stores are not asked.
    Cached(UserFull),
    /// The cache holds nothing usable; the user is to be loaded from the stores and
    /// then put into the cache.
    Load,
}

/// Chooses the verifier for a request from its cookies. A request without a token is
/// not signed in; one without a provider tag, or with a tag that names no known
/// provider, is refused as naming an invalid provider.
pub fn is_authorized(token: Option<String>, provider: Option<String>) -> (admitted: Result<
    (TokenVerifier, String),
    AppError,
>)
    ensures
        match (token, provider) {
            (None, _) => admitted matches Err(AppError::Unauthorized),
            (Some(_), None) => admitted matches Err(AppError::InvalidOauthProvider),
            (Some(t), Some(p)) => if p@ == GOOGLE_PROVIDER@ {
                admitted == Ok::<(TokenVerifier, String), AppError>((TokenVerifier::Google, t))
            } else if p@ == EMAIL_PROVIDER@ {
                admitted == Ok::<(TokenVerifier, String), AppError>((TokenVerifier::Email, t))
            } else {
                admitted matches Err(AppError::InvalidOauthProvider)
            },
        },
{
    let token = match token {
        Some(t) => t,
        None => {
            return Err(AppError::Unauthorized);
        },
    };
    let provider = match provider {
        Some(p) => p,
        None => {
            return Err(AppError::InvalidOauthProvider);
        },
    };
    if same_text(provider.as_str(), GOOGLE_PROVIDER) {
        Ok((TokenVerifier::Google, token))
    } else if same_text(provider.as_str(), EMAIL_PROVIDER) {
        Ok((TokenVerifier::Email, token))
    } else {
        Err(AppError::InvalidOauthProvider)
    }
}

/// The subject of a request, given how the verification of its token ended: a token
/// that is not accepted means the request is not authorized, whatever the reason.
pub fn verified_subject(verified: Result<String, AppError>) -> (subject: Result<String, AppError>)
    ensures
        match verified {
            Ok(sub) => subject == Ok::<String, AppError>(sub),
            Err(why) => subject matches Err(AppError::UnauthorizedError(m)) && m@ == why.text(),
        },
{
    match verified {
        Ok(sub) => Ok(sub),
        Err(why) => Err(why.as_unauthorized()),
    }
}

/// Resolves the user from the cache: a hit is used as it is; a miss, and any failure
/// of the cache, means the user is loaded from the stores.
pub fn resolve_cached(cached: Result<UserFull, AppError>) -> (resolution: Resolution)
    ensures
        match cached {
            Ok(user) => resolution == Resolution::Cached(user),
            Err(_) => resolution is Load,
        },
{
    match cached {
        Ok(user) => Resolution::Cached(user),
        Err(_) => Resolution::Load,
    }
}

/// Where the resolution of the current user stands.
#[derive(Debug)]
pub enum CurrentUserState {
    /// The provider's keys are being fetched, to verify this token with them.
    AwaitingKeys { token: String },
    /// The cache is being read for the subject of the verified token.
    AwaitingCache { verifier: TokenVerifier, subject: String },
    /// The link of the subject at its provider is being looked up.
    AwaitingLink { subject: String },
    /// The user of the link is being looked up.
    AwaitingUser { subject: String, link: UserOauthProvider },
    /// The roles of the user are being listed.
    AwaitingRoles { subject: String, link: UserOauthProvider, user: User },
    /// The resolved user is being put into the cache.
    AwaitingCacheWrite { resolved: UserFull },
}

/// Resolution of the user behind a request.
pub struct CurrentUser {
    pub jwt_maker: Arc<JwtMaker>,
    pub google_jwt_maker: Arc<GoogleJwtMaker>,
}

/// What follows the verification of a token: the cache is read for its subject, or
/// the request is refused as not authorized.
pub open spec fn after_verification(verifier: TokenVerifier, step: Step<CurrentUserState, UserFull>) -> bool {
    match step {
        Step::Next(
            CurrentUserState::AwaitingCache { verifier: by, subject },
            Effect::ReadCachedUser(key),
        ) => by == verifier && key@ == "current_user_"@ + subject@,
        Step::Done(Err(e)) => e is UnauthorizedError,
        _ => false,
    }
}

/// Whether a token names no key of a key set: its header cannot be read, names no
/// key, or names a key that the set does not hold.
pub open spec fn names_no_key_of(token: Seq<char>, keys: Jwks) -> bool {
    match token_key_id(token) {
        Some(Some(id)) => forall|j: int| 0 <= j < keys.keys.len() ==> keys.keys[j].kid@ != id,
        _ => true,
    }
}

/// Whether a token carries `subject`: its claims name it, as a text, under `sub`.
pub open spec fn carries_subject(token: Seq<char>, subject: Seq<char>) -> bool {
    token_payload(token) matches Some(held) && text_in(held, "sub"@) == Some(subject)
}

/// Whether the subject that a step reads the cache for is the one that the token
/// carries. A step that reads no cache asks nothing of the token.
pub open spec fn subject_is_carried(token: Seq<char>, step: Step<CurrentUserState, UserFull>) -> bool {
    step matches Step::Next(CurrentUserState::AwaitingCache { subject, .. }, _)
        ==> carries_subject(token, subject@)
}

/// Whether the token of a step that reads the cache is signed with the secret of
/// this service. A step that reads no cache asks nothing of the token.
pub open spec fn token_is_signed_with(
    token: Seq<char>,
    secret: Seq<char>,
    step: Step<CurrentUserState, UserFull>,
) -> bool {
    step matches Step::Next(CurrentUserState::AwaitingCache { .. }, _) ==> signed_with(
        token,
        secret,
    )
}

/// Whether the token of a step that reads the cache is signed with the key of
/// `keys` that it names. A step that reads no cache asks nothing of the token.
pub open spec fn token_is_signed_by_key_of(
    token: Seq<char>,
    keys: Jwks,
    step: Step<CurrentUserState, UserFull>,
) -> bool {
    step matches Step::Next(CurrentUserState::AwaitingCache { .. }, _) ==> signed_by_key_of(
        token,
        keys,
    )
}

/// How a failure on the way to the user ends the resolution: the request is not
/// authorized, for the reason of the failure.
pub open spec fn not_authorized(step: Step<CurrentUserState, UserFull>, why: AppError) -> bool {
    step matches Step::Done(Err(AppError::UnauthorizedError(m))) && m@ == why.text()
}

impl CurrentUser {
    /// The use case over the verifiers of both providers.
    pub fn new(jwt_maker: Arc<JwtMaker>, google_jwt_maker: Arc<GoogleJwtMaker>) -> (uc: Self)
        ensures
            uc.jwt_maker == jwt_maker,
            uc.google_jwt_maker == google_jwt_maker,
    {
        Self { jwt_maker, google_jwt_maker }
    }

    /// Goes from a verified subject to the cache read for exactly this subject, or
    /// from a failed verification to the refusal, for the reason of the failure.
    pub fn verified(verifier: TokenVerifier, verified: Result<String, AppError>) -> (step: Step<
        CurrentUserState,
        UserFull,
    >)
        ensures
            match verified {
                Ok(sub) => step matches Step::Next(
                    CurrentUserState::AwaitingCache { verifier: by, subject },
                    Effect::ReadCachedUser(key),
                ) && by == verifier && subject == sub && key@ == "current_user_"@ + sub@,
                Err(why) => not_authorized(step, why),
            },
    {
        match verified_subject(verified) {
            Err(e) => fail(e),
            Ok(subject) => {
                let key = current_user_key(subject.as_str());
                Step::Next(
                    CurrentUserState::AwaitingCache { verifier, subject },
                    Effect::ReadCachedUser(key),
                )
            },
        }
    }

    /// Begins the resolution of the user behind a request from its cookies.
    ///
    /// The provider tag chooses the verifier (see [`is_authorized`]). A token of
    /// this service is verified at once. Of a token of the provider the header is
    /// read first: one that cannot be read or names no key ends the resolution
    /// before any key is looked for. Else the token is verified with the cached
    /// keys while they are fresh at `now`, or the keys are fetched first. A token
    /// that is not accepted ends the resolution as not authorized. The cache is
    /// read only for a token that is signed: a token of this service with its
    /// secret, a token of the provider with the key that it names of the cached
    /// keys. The subject that the cache is read for is the one that the token
    /// carries; a token that carries none never gets that far.
    pub fn execute(&self, token: Option<String>, provider: Option<String>, now: i64) -> (step: Step<
        CurrentUserState,
        UserFull,
    >)
        ensures
            match (token, provider) {
                (None, _) => step matches Step::Done(Err(AppError::Unauthorized)),
                (Some(_), None) => step matches Step::Done(Err(AppError::InvalidOauthProvider)),
                (Some(t), Some(p)) => if p@ == GOOGLE_PROVIDER@ {
                    match token_key_id(t@) {
                        None => step matches Step::Done(Err(AppError::UnauthorizedError(_))),
                        Some(None) => not_authorized(step, AppError::InvalidToken),
                        Some(Some(_)) => (step matches Step::Next(
                            CurrentUserState::AwaitingKeys { token: held },
                            Effect::FetchProviderKeys,
                        ) && held == t) || (after_verification(TokenVerifier::Google, step)
                            && subject_is_carried(t@, step) && exists|keys: Jwks|
                            token_is_signed_by_key_of(t@, keys, step)),
                    }
                } else if p@ == EMAIL_PROVIDER@ {
                    after_verification(TokenVerifier::Email, step) && subject_is_carried(t@, step)
                        && token_is_signed_with(t@, self.jwt_maker.secret(), step)
                } else {
                    step matches Step::Done(Err(AppError::InvalidOauthProvider))
                },
            },
    {
        match is_authorized(token, provider) {
            Err(e) => fail(e),
            Ok((TokenVerifier::Email, token)) => {
                let verified = match self.jwt_maker.verify_access_token(token.as_str()) {
                    Ok(claims) => Ok(claims.sub),
                    Err(e) => Err(e),
                };
                Self::verified(TokenVerifier::Email, verified)
            },
            Ok((TokenVerifier::Google, token)) => {
                match GoogleJwtMaker::key_id(token.as_str()) {
                    Err(e) => {
                        return Self::verified(TokenVerifier::Google, Err(e));
                    },
                    Ok(_) => {},
                }
                match self.google_jwt_maker.cached_jwks(now) {
                    Err(e) => {
                        let step = Self::verified(TokenVerifier::Google, Err(e));
                        proof {
                            let any: Jwks = arbitrary();
                            assert(token_is_signed_by_key_of(token@, any, step));
                        }
                        step
                    },
                    Ok(None) => Step::Next(
                        CurrentUserState::AwaitingKeys { token },
                        Effect::FetchProviderKeys,
                    ),
                    Ok(Some(keys)) => {
                        let verified = match self.google_jwt_maker.verify_token(
                            token.as_str(),
                            &keys,
                        ) {
                            Ok(claims) => Ok(claims.sub),
                            Err(e) => Err(e),
                        };
                        let step = Self::verified(TokenVerifier::Google, verified);
                        proof {
                            assert(token_is_signed_by_key_of(token@, keys, step));
                        }
                        step
                    },
                }
            },
        }
    }

    /// Goes on with the resolution after what was asked for has happened.
    ///
    /// Keys that arrived replace the cached ones, and the token is verified with
    /// them: a token that names none of them is refused, the cache is read only
    /// for a token that is signed with the key that it names of them, and the
    /// subject that the cache is then read for is the one that the token carries. A user whom the cache holds is used as cached, and the stores are not
    /// asked. Else the link of the subject, its user and the roles of the user are
    /// read, in this order; the user is put into the cache, under the subject and
    /// for an hour, and handed out. A failure of a read means the request is not
    /// authorized; a failure to write the cache ends the resolution as it is.
    pub fn resume(&self, state: CurrentUserState, event: Event, now: i64) -> (step: Step<
        CurrentUserState,
        UserFull,
    >)
        ensures
            match (state, event) {
                (CurrentUserState::AwaitingKeys { token }, Event::Keys(fetched)) => {
                    &&& after_verification(TokenVerifier::Google, step)
                    &&& subject_is_carried(token@, step)
                    &&& fetched matches Err(why) ==> not_authorized(step, why)
                    &&& fetched matches Ok(keys) ==> (names_no_key_of(token@, keys)
                        ==> step matches Step::Done(Err(AppError::UnauthorizedError(_))))
                    &&& fetched matches Ok(keys) ==> token_is_signed_by_key_of(token@, keys, step)
                },
                (
                    CurrentUserState::AwaitingCache { verifier, subject },
                    Event::CachedUser(cached),
                ) => match cached {
                    Ok(user) => step == Step::<CurrentUserState, UserFull>::Done(Ok(user)),
                    Err(_) => step matches Step::Next(
                        CurrentUserState::AwaitingLink { subject: held },
                        Effect::FindIdentityLink { provider, provider_user_id },
                    ) && held == subject && provider_user_id@ == subject@ && provider@ == (
                    match verifier {
                        TokenVerifier::Google => GOOGLE_PROVIDER@,
                        TokenVerifier::Email => EMAIL_PROVIDER@,
                    }),
                },
                (CurrentUserState::AwaitingLink { subject }, Event::Link(lookup)) => match lookup {
                    Ok(link) => step matches Step::Next(
                        CurrentUserState::AwaitingUser { subject: held, link: kept },
                        Effect::FindUserById(id),
                    ) && held == subject && kept == link && id@ == link.user_id@,
                    Err(why) => not_authorized(step, why),
                },
                (
                    CurrentUserState::AwaitingUser { subject, link },
                    Event::User(lookup),
                ) => match lookup {
                    Ok(user) => step matches Step::Next(
                        CurrentUserState::AwaitingRoles { subject: held, link: kept, user: found },
                        Effect::FindRolesOfUser(id),
                    ) && held == subject && kept == link && found == user && id@ == user.id@,
                    Err(why) => not_authorized(step, why),
                },
                (
                    CurrentUserState::AwaitingRoles { subject, link, user },
                    Event::Roles(listed),
                ) => match listed {
                    Ok(roles) => step matches Step::Next(
                        CurrentUserState::AwaitingCacheWrite { resolved },
                        Effect::CacheUser { key, user: cached, ttl },
                    ) && resolved.user == user && resolved.oauth_provider == link
                        && resolved.roles@ == roles@ && cached.user == user
                        && cached.oauth_provider == link && cached.roles@ == roles@ && key@
                        == "current_user_"@ + subject@ && ttl == CACHE_TTL_SECONDS,
                    Err(why) => not_authorized(step, why),
                },
                (
                    CurrentUserState::AwaitingCacheWrite { resolved },
                    Event::Written(written),
                ) => match written {
                    Ok(_) => step == Step::<CurrentUserState, UserFull>::Done(Ok(resolved)),
                    Err(e) => step == Step::<CurrentUserState, UserFull>::Done(Err(e)),
                },
                _ => step matches Step::Done(Err(e)) && out_of_turn(e),
            },
    {
        match (state, event) {
            (CurrentUserState::AwaitingKeys { token }, Event::Keys(fetched)) => {
                let fresh = match fetched {
                    Ok(keys) => keys,
                    Err(e) => {
                        return Self::verified(TokenVerifier::Google, Err(e));
                    },
                };
                let keys = match self.google_jwt_maker.store_jwks(fresh, now) {
                    Ok(keys) => keys,
                    Err(e) => {
                        return Self::verified(TokenVerifier::Google, Err(e));
                    },
                };
                let verified = match self.google_jwt_maker.verify_token(token.as_str(), &keys) {
                    Ok(claims) => Ok(claims.sub),
                    Err(e) => Err(e),
                };
                Self::verified(TokenVerifier::Google, verified)
            },
            (
                CurrentUserState::AwaitingCache { verifier, subject },
                Event::CachedUser(cached),
            ) => match resolve_cached(cached) {
                Resolution::Cached(user) => Step::Done(Ok(user)),
                Resolution::Load => {
                    let provider = verifier.provider().to_string();
                    let provider_user_id = subject.clone();
                    Step::Next(
                        CurrentUserState::AwaitingLink { subject },
                        Effect::FindIdentityLink { provider, provider_user_id },
                    )
                },
            },
            (CurrentUserState::AwaitingLink { subject }, Event::Link(lookup)) => match lookup {
                Ok(link) => {
                    let id = link.user_id.clone();
                    Step::Next(
                        CurrentUserState::AwaitingUser { subject, link },
                        Effect::FindUserById(id),
                    )
                },
                Err(why) => fail(why.as_unauthorized()),
            },
            (CurrentUserState::AwaitingUser { subject, link }, Event::User(lookup)) => {
                match lookup {
                    Ok(user) => {
                        let id = user.id.clone();
                        Step::Next(
                            CurrentUserState::AwaitingRoles { subject, link, user },
                            Effect::FindRolesOfUser(id),
                        )
                    },
                    Err(why) => fail(why.as_unauthorized()),
                }
            },
            (CurrentUserState::AwaitingRoles { subject, link, user }, Event::Roles(listed)) => {
                match listed {
                    Ok(roles) => {
                        let resolved = UserFull::new(user, link, roles);
                        let cached = resolved.clone();
                        Step::Next(
                            CurrentUserState::AwaitingCacheWrite { resolved },
                            Effect::CacheUser {
                                key: current_user_key(subject.as_str()),
                                user: cached,
                                ttl: CACHE_TTL_SECONDS,
                            },
                        )
                    },
                    Err(why) => fail(why.as_unauthorized()),
                }
            },
            (CurrentUserState::AwaitingCacheWrite { resolved }, Event::Written(written)) => {
                match written {
                    Ok(_) => Step::Done(Ok(resolved)),
                    Err(e) => fail(e),
                }
            },
            _ => unexpected(),
        }
    }
}

/// The key that decoded bytes spell: their text where they are UTF-8, else the empty
/// text.
pub open spec fn spelled_key(bytes: Seq<u8>) -> Seq<char> {
    if valid_utf8(bytes) {
        decode_utf8(bytes)
    } else {
        Seq::empty()
    }
}

/// Admits a request to the seeding endpoint by the key in its header: the header
/// carries the configured key in base64. A missing or empty header is refused, a
/// header that is not base64 is refused with the reason, and so is a key that
/// differs from the configured one.
pub fn is_super_user(header: Option<&str>, super_key: &str) -> (admitted: Result<(), AppError>)
    ensures
        match header {
            None => admitted matches Err(AppError::Unauthorized),
            Some(h) => if h@.len() == 0 {
                admitted matches Err(AppError::Unauthorized)
            } else {
                match base64_decoded(h@) {
                    None => admitted matches Err(AppError::UnauthorizedError(_)),
                    Some(bytes) => if spelled_key(bytes) == super_key@ {
                        admitted is Ok
                    } else {
                        admitted matches Err(AppError::Unauthorized)
                    },
                }
            },
        },
{
    let token = match header {
        Some(h) => h,
        None => {
            return Err(AppError::Unauthorized);
        },
    };
    if token.unicode_len() == 0 {
        return Err(AppError::Unauthorized);
    }
    let bytes = match decode_base64(token) {
        Ok(b) => b,
        Err(err) => {
            return Err(AppError::UnauthorizedError(decode_error_text(&err)));
        },
    };
    let key = match text_of(bytes) {
        Some(k) => k,
        None => String::new(),
    };
    if same_text(key.as_str(), super_key) {
        Ok(())
    } else {
        Err(AppError::Unauthorized)
    }
}

} // verus!

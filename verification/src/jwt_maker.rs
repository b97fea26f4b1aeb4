//! Access and refresh tokens signed with a shared secret (HS256).

use vstd::prelude::*;
use vstd::string::*;
use jsonwebtoken::{DecodingKey, EncodingKey, Header, Validation};
use serde_json::Value;
use crate::claims::{
    all_text, claims_content, empty_claims, lemma_texts_read_back, nothing, number_at, number_in,
    set_number, set_text, set_texts, text_at, text_in, text_items, texts_at, texts_in, Json,
};
use crate::constants::TOKEN_ISSUER;
use crate::error::AppError;
use crate::system::unix_now;

verus! {

/// `jsonwebtoken::errors::Error`: why a token could not be made or was rejected.
#[verifier::external_type_specification]
#[verifier::external_body]
pub struct ExJwtError(jsonwebtoken::errors::Error);

/// `jsonwebtoken::DecodingKey`: the key that a token is verified with.
#[verifier::external_type_specification]
#[verifier::external_body]
pub struct ExDecodingKey(jsonwebtoken::DecodingKey);

/// `jsonwebtoken::Validation`: what a token must satisfy to be accepted.
#[verifier::external_type_specification]
#[verifier::external_body]
pub struct ExValidation(jsonwebtoken::Validation);

/// What an access token states.
#[derive(Clone, Debug)]
pub struct Claims {
    pub exp: usize,
    pub iat: usize,
    pub sub: String,
    pub iss: String,
    pub name: String,
    pub roles: Vec<String>,
    pub scopes: Vec<String>,
}

/// What a refresh token states.
#[derive(Clone, Debug)]
pub struct RefreshTokenClaims {
    pub exp: usize,
    pub iat: usize,
    pub sub: String,
    pub iss: String,
}

/// Issues and verifies tokens.
#[derive(Clone, Debug)]
pub struct JwtMaker {
    secret: String,
}

/// The claims that a token carries: what the JSON object holds that
/// `jsonwebtoken::decode` reads from the payload part of the token, the part
/// between its two dots; `None` where that part spells no JSON object. It goes by
/// the text of the token alone: neither key nor clock plays a part.
pub uninterp spec fn token_payload(token: Seq<char>) -> Option<Map<Seq<char>, Json>>;

/// The token that `jsonwebtoken::encode` makes of the claims with the default header
/// (HS256) and the secret as key; `None` where it makes none. Header, claims and
/// signature are all told by secret and claims: the claims are written with their
/// keys in order, and the signature is the keyed hash of what precedes it.
pub uninterp spec fn signed_token(secret: Seq<char>, claims: Map<Seq<char>, Json>) -> Option<
    Seq<char>,
>;

/// Whether a value is a whole number, a text, a truth value, null, or a list of
/// texts.
pub open spec fn shallow(value: Json) -> bool {
    match value {
        Json::List(items) => all_text(items),
        Json::Object => false,
        Json::Fraction => false,
        _ => true,
    }
}

/// Whether every value of the claims is shallow.
pub open spec fn all_shallow(content: Map<Seq<char>, Json>) -> bool {
    forall|key: Seq<char>| content.contains_key(key) ==> shallow(#[trigger] content[key])
}

/// `jsonwebtoken::encode` with the default header (HS256) and the secret as key: the
/// token is the one that secret and claims tell, and it is signed with the secret.
/// The payload part of the token is the JSON text of the claims, so the token
/// carries the claims it was made from.
/// The claims are to be shallow: such claims are told by what they hold, and they
/// are read back from that text, which a text nested too deep is not.
#[verifier::external_body]
fn sign(secret: &str, claims: &serde_json::Map<String, Value>) -> (token: Result<
    String,
    jsonwebtoken::errors::Error,
>)
    requires
        all_shallow(claims_content(*claims)),
    ensures
        match token {
            Ok(t) => signed_token(secret@, claims_content(*claims)) == Some(t@),
            Err(_) => signed_token(secret@, claims_content(*claims)) is None,
        },
        token matches Ok(t) ==> token_payload(t@) == Some(claims_content(*claims)),
        token matches Ok(t) ==> signed_with(t@, secret@),
{
    jsonwebtoken::encode(&Header::default(), claims, &EncodingKey::from_secret(secret.as_bytes()))
}

/// The shared secret of a key that was made from one (`DecodingKey::from_secret`), as
/// the text whose bytes it is; `None` for any other key.
pub uninterp spec fn key_secret(key: jsonwebtoken::DecodingKey) -> Option<Seq<char>>;

/// Modulus and exponent of a key that was made from the two
/// (`DecodingKey::from_rsa_components`), each in URL-safe base64; `None` for any
/// other key.
pub uninterp spec fn key_components(key: jsonwebtoken::DecodingKey) -> Option<
    (Seq<char>, Seq<char>),
>;

/// Whether the token is signed with the shared secret: its last part is the keyed
/// hash of what precedes it, under the secret and by the scheme that its header
/// names.
pub uninterp spec fn signed_with(token: Seq<char>, secret: Seq<char>) -> bool;

/// Whether the token is signed with the RSA key of this modulus and exponent: its
/// last part is a signature of what precedes it that verifies under the key, by the
/// scheme that its header names.
pub uninterp spec fn signed_by(token: Seq<char>, modulus: Seq<char>, exponent: Seq<char>) -> bool;

/// Whether checks look at the signature at all. They do unless that was switched
/// off.
pub uninterp spec fn signature_checked(checks: jsonwebtoken::Validation) -> bool;

/// `DecodingKey::from_secret`: the key for tokens signed with this shared secret.
#[verifier::external_body]
fn secret_key(secret: &str) -> (key: DecodingKey)
    ensures
        key_secret(key) == Some(secret@),
        key_components(key) is None,
{
    DecodingKey::from_secret(secret.as_bytes())
}

/// `Validation::default`: the signature is looked at and must be HS256, and `exp`
/// must be present and not lie in the past.
#[verifier::external_body]
fn default_checks() -> (checks: Validation)
    ensures
        signature_checked(checks),
{
    Validation::default()
}

/// The audiences of which checks ask for one (`Validation::aud`); `None` where
/// none was set.
pub uninterp spec fn asked_audience(checks: jsonwebtoken::Validation) -> Option<Set<Seq<char>>>;

/// The issuers of which checks ask for one (`Validation::iss`); `None` where none
/// was set.
pub uninterp spec fn asked_issuer(checks: jsonwebtoken::Validation) -> Option<Set<Seq<char>>>;

/// Whether checks look at the audience at all (`Validation::validate_aud`).
pub uninterp spec fn audience_checked(checks: jsonwebtoken::Validation) -> bool;

/// Whether claims meet what checks ask of issuer and audience: where issuers were
/// set, an issuer that the claims name as a text is one of them; where the audience
/// is looked at and audiences were set, an audience that the claims name as a text
/// is one of them.
pub open spec fn meets(checks: jsonwebtoken::Validation, content: Map<Seq<char>, Json>) -> bool {
    &&& asked_issuer(checks) matches Some(allowed) ==> (text_in(content, "iss"@) matches Some(t)
        ==> allowed.contains(t))
    &&& audience_checked(checks) ==> (asked_audience(checks) matches Some(allowed) ==> (text_in(
        content,
        "aud"@,
    ) matches Some(t) ==> allowed.contains(t)))
}

/// `jsonwebtoken::decode`: the claims of a token that is signed with the key and
/// satisfies the checks, by the system clock. Which tokens are accepted is the
/// outside function's to say. A token is accepted only where its signature was
/// found good under the key, unless the checks do not look at the signature; the
/// claims of an accepted token are those that the token carries, and they meet what
/// the checks ask of issuer and audience.
#[verifier::external_body]
pub(crate) fn decode_claims(token: &str, key: &DecodingKey, checks: &Validation) -> (claims: Result<
    serde_json::Map<String, Value>,
    jsonwebtoken::errors::Error,
>)
    ensures
        claims is Ok && signature_checked(*checks) ==> (key_secret(*key) matches Some(secret)
            ==> signed_with(token@, secret)),
        claims is Ok && signature_checked(*checks) ==> (key_components(*key) matches Some(parts)
            ==> signed_by(token@, parts.0, parts.1)),
        claims matches Ok(held) ==> token_payload(token@) == Some(claims_content(held)),
        claims matches Ok(held) ==> meets(*checks, claims_content(held)),
{
    Ok(jsonwebtoken::decode::<serde_json::Map<String, Value>>(token, key, checks)?.claims)
}

/// The text of a token error, by its `Display`.
#[verifier::external_body]
fn jwt_error_text(err: &jsonwebtoken::errors::Error) -> (text: String) {
    err.to_string()
}

/// Issue and expiry instants of a token made at `now` to last `hours` hours, as the
/// counts a token carries. `None` where an instant is negative or too large to be
/// written.
pub open spec fn token_times(now: i64, hours: i64) -> Option<(usize, usize)> {
    let exp = now + hours * 3600;
    if 0 <= now <= usize::MAX && 0 <= exp <= usize::MAX && exp <= i64::MAX && i64::MIN <= hours
        * 3600 <= i64::MAX {
        Some((exp as usize, now as usize))
    } else {
        None
    }
}

/// Computes [`token_times`].
pub fn expiry_of(now: i64, hours: i64) -> (times: Option<(usize, usize)>)
    ensures
        times == token_times(now, hours),
{
    let span = match hours.checked_mul(3600) {
        Some(s) => s,
        None => {
            return None;
        },
    };
    let exp = match now.checked_add(span) {
        Some(e) => e,
        None => {
            return None;
        },
    };
    if now < 0 || exp < 0 {
        return None;
    }
    if now as u64 > usize::MAX as u64 || exp as u64 > usize::MAX as u64 {
        return None;
    }
    Some((exp as usize, now as usize))
}

/// What an access token carries: expiry and issue instants, subject, issuer, name,
/// roles and scopes, each under its own key.
pub open spec fn access_payload(
    exp: usize,
    iat: usize,
    sub: Seq<char>,
    iss: Seq<char>,
    name: Seq<char>,
    roles: Seq<Seq<char>>,
    scopes: Seq<Seq<char>>,
) -> Map<Seq<char>, Json> {
    nothing().insert("exp"@, Json::Whole(exp as int)).insert("iat"@, Json::Whole(iat as int)).insert(
        "sub"@,
        Json::Text(sub),
    ).insert("iss"@, Json::Text(iss)).insert("name"@, Json::Text(name)).insert(
        "roles"@,
        Json::List(text_items(roles)),
    ).insert("scopes"@, Json::List(text_items(scopes)))
}

/// What a refresh token carries: expiry and issue instants, subject and issuer.
pub open spec fn refresh_payload(exp: usize, iat: usize, sub: Seq<char>, iss: Seq<char>) -> Map<
    Seq<char>,
    Json,
> {
    nothing().insert("exp"@, Json::Whole(exp as int)).insert("iat"@, Json::Whole(iat as int)).insert(
        "sub"@,
        Json::Text(sub),
    ).insert("iss"@, Json::Text(iss))
}

/// What the access token carries that is issued to `user_id` at `now` for `hours`
/// hours: this service as issuer, the user as subject, expiry `hours` hours after
/// issue, no name, no roles and no scopes. `None` where the instants cannot be
/// written.
pub open spec fn issued_access(user_id: Seq<char>, now: i64, hours: i64) -> Option<
    Map<Seq<char>, Json>,
> {
    match token_times(now, hours) {
        Some((exp, iat)) => Some(
            access_payload(
                exp,
                iat,
                user_id,
                TOKEN_ISSUER@,
                Seq::empty(),
                Seq::empty(),
                Seq::empty(),
            ),
        ),
        None => None,
    }
}

/// What the refresh token carries that is issued to `user_id` at `now` for `hours`
/// hours. `None` where the instants cannot be written.
pub open spec fn issued_refresh(user_id: Seq<char>, now: i64, hours: i64) -> Option<
    Map<Seq<char>, Json>,
> {
    match token_times(now, hours) {
        Some((exp, iat)) => Some(refresh_payload(exp, iat, user_id, TOKEN_ISSUER@)),
        None => None,
    }
}

/// Whether the claims that a token carries can be read as those of an access token:
/// the instants are counts that fit, subject, issuer and name are texts, roles and
/// scopes are lists of texts.
pub open spec fn access_readable(content: Map<Seq<char>, Json>) -> bool {
    &&& number_in(content, "exp"@) matches Some(exp) && exp <= usize::MAX
    &&& number_in(content, "iat"@) matches Some(iat) && iat <= usize::MAX
    &&& text_in(content, "sub"@) is Some
    &&& text_in(content, "iss"@) is Some
    &&& text_in(content, "name"@) is Some
    &&& texts_in(content, "roles"@) is Some
    &&& texts_in(content, "scopes"@) is Some
}

/// Whether the claims that a token carries can be read as those of a refresh token.
pub open spec fn refresh_readable(content: Map<Seq<char>, Json>) -> bool {
    &&& number_in(content, "exp"@) matches Some(exp) && exp <= usize::MAX
    &&& number_in(content, "iat"@) matches Some(iat) && iat <= usize::MAX
    &&& text_in(content, "sub"@) is Some
    &&& text_in(content, "iss"@) is Some
}

/// The keys of the claims are seven different texts.
proof fn lemma_claim_keys_differ()
    ensures
        "exp"@ != "iat"@,
        "exp"@ != "sub"@,
        "exp"@ != "iss"@,
        "exp"@ != "name"@,
        "exp"@ != "roles"@,
        "exp"@ != "scopes"@,
        "iat"@ != "sub"@,
        "iat"@ != "iss"@,
        "iat"@ != "name"@,
        "iat"@ != "roles"@,
        "iat"@ != "scopes"@,
        "sub"@ != "iss"@,
        "sub"@ != "name"@,
        "sub"@ != "roles"@,
        "sub"@ != "scopes"@,
        "iss"@ != "name"@,
        "iss"@ != "roles"@,
        "iss"@ != "scopes"@,
        "name"@ != "roles"@,
        "name"@ != "scopes"@,
        "roles"@ != "scopes"@,
{
    reveal_strlit("exp");
    reveal_strlit("iat");
    reveal_strlit("sub");
    reveal_strlit("iss");
    reveal_strlit("name");
    reveal_strlit("roles");
    reveal_strlit("scopes");
    assert("exp"@[0] == 'e' && "iat"@[0] == 'i' && "sub"@[0] == 's' && "iss"@[1] == 's'
        && "iat"@[1] == 'a');
    assert("name"@.len() == 4 && "roles"@.len() == 5 && "scopes"@.len() == 6);
}

impl Claims {
    /// What a token carries that states these claims.
    pub open spec fn payload(&self) -> Map<Seq<char>, Json> {
        access_payload(
            self.exp,
            self.iat,
            self.sub@,
            self.iss@,
            self.name@,
            self.roles.deep_view(),
            self.scopes.deep_view(),
        )
    }

    /// Whether the claims that a token carries state these claims: each is there,
    /// under its key, with this value. What else the token carries plays no part.
    pub open spec fn stated_by(&self, content: Map<Seq<char>, Json>) -> bool {
        &&& number_in(content, "exp"@) == Some(self.exp as u64)
        &&& number_in(content, "iat"@) == Some(self.iat as u64)
        &&& text_in(content, "sub"@) == Some(self.sub@)
        &&& text_in(content, "iss"@) == Some(self.iss@)
        &&& text_in(content, "name"@) == Some(self.name@)
        &&& texts_in(content, "roles"@) == Some(self.roles.deep_view())
        &&& texts_in(content, "scopes"@) == Some(self.scopes.deep_view())
    }

    /// Claims written into a token are read back as they were written: what the
    /// token carries can be read, it states these claims, and it states no others.
    pub proof fn lemma_read_back(self)
        ensures
            access_readable(self.payload()),
            self.stated_by(self.payload()),
            forall|read: Claims| #[trigger]
                read.stated_by(self.payload()) ==> {
                    &&& read.exp == self.exp
                    &&& read.iat == self.iat
                    &&& read.sub@ == self.sub@
                    &&& read.iss@ == self.iss@
                    &&& read.name@ == self.name@
                    &&& read.roles.deep_view() == self.roles.deep_view()
                    &&& read.scopes.deep_view() == self.scopes.deep_view()
                },
    {
        lemma_claim_keys_differ();
        lemma_texts_read_back(self.roles.deep_view());
        lemma_texts_read_back(self.scopes.deep_view());
    }

    /// Reads the claims of an access token from what a token carries: there are
    /// claims exactly where they can be read, and they are those that are stated.
    pub fn read(held: &serde_json::Map<String, Value>) -> (claims: Option<Claims>)
        ensures
            match claims {
                Some(c) => c.stated_by(claims_content(*held)),
                None => !access_readable(claims_content(*held)),
            },
    {
        let exp = number_at(held, "exp");
        let iat = number_at(held, "iat");
        let sub = text_at(held, "sub");
        let iss = text_at(held, "iss");
        let name = text_at(held, "name");
        let roles = texts_at(held, "roles");
        let scopes = texts_at(held, "scopes");
        match (exp, iat, sub, iss, name, roles, scopes) {
            (Some(exp), Some(iat), Some(sub), Some(iss), Some(name), Some(roles), Some(scopes)) => {
                if exp > usize::MAX as u64 || iat > usize::MAX as u64 {
                    return None;
                }
                Some(Claims { exp: exp as usize, iat: iat as usize, sub, iss, name, roles, scopes })
            },
            _ => None,
        }
    }

    /// The claims of an access token for `user_id`, issued at `now` for `hours` hours:
    /// this service as issuer, no name, no roles and no scopes.
    pub fn for_access(user_id: String, now: i64, hours: i64) -> (claims: Option<Claims>)
        ensures
            match claims {
                Some(c) => token_times(now, hours) == Some((c.exp, c.iat)) && c.sub@ == user_id@
                    && c.iss@ == TOKEN_ISSUER@ && c.name@.len() == 0 && c.roles@.len() == 0
                    && c.scopes@.len() == 0,
                None => token_times(now, hours) is None,
            },
    {
        match expiry_of(now, hours) {
            Some((exp, iat)) => Some(
                Claims {
                    exp,
                    iat,
                    sub: user_id,
                    iss: TOKEN_ISSUER.to_string(),
                    name: String::new(),
                    roles: Vec::new(),
                    scopes: Vec::new(),
                },
            ),
            None => None,
        }
    }
}

impl RefreshTokenClaims {
    /// What a token carries that states these claims.
    pub open spec fn payload(&self) -> Map<Seq<char>, Json> {
        refresh_payload(self.exp, self.iat, self.sub@, self.iss@)
    }

    /// Whether the claims that a token carries state these claims.
    pub open spec fn stated_by(&self, content: Map<Seq<char>, Json>) -> bool {
        &&& number_in(content, "exp"@) == Some(self.exp as u64)
        &&& number_in(content, "iat"@) == Some(self.iat as u64)
        &&& text_in(content, "sub"@) == Some(self.sub@)
        &&& text_in(content, "iss"@) == Some(self.iss@)
    }

    /// Claims written into a token are read back as they were written: what the
    /// token carries can be read, it states these claims, and it states no others.
    pub proof fn lemma_read_back(self)
        ensures
            refresh_readable(self.payload()),
            self.stated_by(self.payload()),
            forall|read: RefreshTokenClaims| #[trigger]
                read.stated_by(self.payload()) ==> {
                    &&& read.exp == self.exp
                    &&& read.iat == self.iat
                    &&& read.sub@ == self.sub@
                    &&& read.iss@ == self.iss@
                },
    {
        lemma_claim_keys_differ();
    }

    /// Reads the claims of a refresh token from what a token carries: there are
    /// claims exactly where they can be read, and they are those that are stated.
    pub fn read(held: &serde_json::Map<String, Value>) -> (claims: Option<RefreshTokenClaims>)
        ensures
            match claims {
                Some(c) => c.stated_by(claims_content(*held)),
                None => !refresh_readable(claims_content(*held)),
            },
    {
        let exp = number_at(held, "exp");
        let iat = number_at(held, "iat");
        let sub = text_at(held, "sub");
        let iss = text_at(held, "iss");
        match (exp, iat, sub, iss) {
            (Some(exp), Some(iat), Some(sub), Some(iss)) => {
                if exp > usize::MAX as u64 || iat > usize::MAX as u64 {
                    return None;
                }
                Some(RefreshTokenClaims { exp: exp as usize, iat: iat as usize, sub, iss })
            },
            _ => None,
        }
    }

    /// The claims of a refresh token for `user_id`, issued at `now` for `hours` hours.
    pub fn for_refresh(user_id: String, now: i64, hours: i64) -> (claims: Option<RefreshTokenClaims>)
        ensures
            match claims {
                Some(c) => token_times(now, hours) == Some((c.exp, c.iat)) && c.sub@ == user_id@
                    && c.iss@ == TOKEN_ISSUER@,
                None => token_times(now, hours) is None,
            },
    {
        match expiry_of(now, hours) {
            Some((exp, iat)) => Some(
                RefreshTokenClaims { exp, iat, sub: user_id, iss: TOKEN_ISSUER.to_string() },
            ),
            None => None,
        }
    }
}

/// A token failure as an error of this service.
pub fn token_failed(err: &jsonwebtoken::errors::Error) -> (e: AppError)
    ensures
        e is JWTError,
{
    AppError::JWTError(jwt_error_text(err))
}

impl JwtMaker {
    /// The secret that tokens are signed with.
    pub closed spec fn secret(&self) -> Seq<char> {
        self.secret@
    }

    /// A maker that signs with `secret`.
    pub fn new(secret: String) -> (maker: JwtMaker)
        ensures
            maker.secret() == secret@,
    {
        JwtMaker { secret }
    }

    /// The access token that this maker issues to `user_id` at `now` for `hours`
    /// hours: the signed token of what such a token is to carry. `None` where the
    /// instants cannot be written or the signer makes no token.
    pub open spec fn access_token(&self, user_id: Seq<char>, now: i64, hours: i64) -> Option<
        Seq<char>,
    > {
        match issued_access(user_id, now, hours) {
            Some(carried) => signed_token(self.secret(), carried),
            None => None,
        }
    }

    /// The refresh token that this maker issues to `user_id` at `now` for `hours`
    /// hours. `None` where the instants cannot be written or the signer makes no
    /// token.
    pub open spec fn refresh_token(&self, user_id: Seq<char>, now: i64, hours: i64) -> Option<
        Seq<char>,
    > {
        match issued_refresh(user_id, now, hours) {
            Some(carried) => signed_token(self.secret(), carried),
            None => None,
        }
    }

    /// Whether `token` answers the making of a token rightly: where there is a token
    /// to make, it is that token, and it carries `carried`; where there is none, the
    /// answer is a token error.
    pub open spec fn minted(
        due: Option<Seq<char>>,
        carried: Option<Map<Seq<char>, Json>>,
        token: Result<String, AppError>,
    ) -> bool {
        match due {
            Some(t) => token matches Ok(text) && text@ == t && token_payload(t) == carried,
            None => token matches Err(e) && e is JWTError,
        }
    }

    /// Signs the claims of an access token: the answer is the token that the secret
    /// and these claims tell, and it carries exactly these claims; where the signer
    /// makes none, the answer is a token error.
    pub fn sign_access(&self, claims: &Claims) -> (token: Result<String, AppError>)
        ensures
            Self::minted(
                signed_token(self.secret(), claims.payload()),
                Some(claims.payload()),
                token,
            ),
            token matches Ok(t) ==> signed_with(t@, self.secret()),
    {
        let mut payload = empty_claims();
        set_number(&mut payload, "exp", claims.exp);
        set_number(&mut payload, "iat", claims.iat);
        set_text(&mut payload, "sub", claims.sub.as_str());
        set_text(&mut payload, "iss", claims.iss.as_str());
        set_text(&mut payload, "name", claims.name.as_str());
        set_texts(&mut payload, "roles", &claims.roles);
        set_texts(&mut payload, "scopes", &claims.scopes);
        proof {
            lemma_texts_read_back(claims.roles.deep_view());
            lemma_texts_read_back(claims.scopes.deep_view());
            assert(claims_content(payload) == claims.payload());
        }
        Self::signed(sign(self.secret.as_str(), &payload))
    }

    /// Signs the claims of a refresh token, as [`Self::sign_access`] does those of
    /// an access token.
    pub fn sign_refresh(&self, claims: &RefreshTokenClaims) -> (token: Result<String, AppError>)
        ensures
            Self::minted(
                signed_token(self.secret(), claims.payload()),
                Some(claims.payload()),
                token,
            ),
            token matches Ok(t) ==> signed_with(t@, self.secret()),
    {
        let mut payload = empty_claims();
        set_number(&mut payload, "exp", claims.exp);
        set_number(&mut payload, "iat", claims.iat);
        set_text(&mut payload, "sub", claims.sub.as_str());
        set_text(&mut payload, "iss", claims.iss.as_str());
        proof {
            assert(claims_content(payload) == claims.payload());
        }
        Self::signed(sign(self.secret.as_str(), &payload))
    }

    /// What signing answers, given how the signer ended: the token it made, or its
    /// failure as a token error.
    pub fn signed(made: Result<String, jsonwebtoken::errors::Error>) -> (token: Result<
        String,
        AppError,
    >)
        ensures
            match made {
                Ok(t) => token == Ok::<String, AppError>(t),
                Err(_) => token matches Err(e) && e is JWTError,
            },
    {
        match made {
            Ok(t) => Ok(t),
            Err(err) => Err(token_failed(&err)),
        }
    }

    /// Makes an access token for `user_id` that is issued at `now` and lasts
    /// `expiration_hours` hours: the answer is [`Self::access_token`], and the token
    /// carries what such a token is to carry (see [`issued_access`]); where there is
    /// none, the answer is a token error.
    pub fn make_token_at(&self, user_id: String, expiration_hours: i64, now: i64) -> (token: Result<
        String,
        AppError,
    >)
        ensures
            Self::minted(
                self.access_token(user_id@, now, expiration_hours),
                issued_access(user_id@, now, expiration_hours),
                token,
            ),
            token matches Ok(t) ==> signed_with(t@, self.secret()),
    {
        match Claims::for_access(user_id, now, expiration_hours) {
            Some(claims) => {
                proof {
                    assert(claims.name@ =~= Seq::<char>::empty());
                    assert(claims.roles.deep_view() =~= Seq::<Seq<char>>::empty());
                    assert(claims.scopes.deep_view() =~= Seq::<Seq<char>>::empty());
                }
                self.sign_access(&claims)
            },
            None => Err(AppError::JWTError("token lifetime out of range".to_string())),
        }
    }

    /// Makes an access token for `user_id` that lasts `expiration_hours` hours from
    /// now: the answer is that of [`Self::make_token_at`] for some instant, the one
    /// that the clock showed.
    pub fn make_token(&self, user_id: String, expiration_hours: i64) -> (token: Result<
        String,
        AppError,
    >)
        ensures
            exists|now: i64|
                Self::minted(
                    #[trigger] self.access_token(user_id@, now, expiration_hours),
                    issued_access(user_id@, now, expiration_hours),
                    token,
                ),
            token matches Ok(t) ==> signed_with(t@, self.secret()),
    {
        let now = unix_now();
        let ghost id = user_id@;
        let token = self.make_token_at(user_id, expiration_hours, now);
        proof {
            assert(Self::minted(
                self.access_token(id, now, expiration_hours),
                issued_access(id, now, expiration_hours),
                token,
            ));
        }
        token
    }

    /// Makes a refresh token for `user_id` that is issued at `now` and lasts
    /// `expiration_hours` hours: the answer is [`Self::refresh_token`], and the
    /// token carries what such a token is to carry (see [`issued_refresh`]); where
    /// there is none, the answer is a token error.
    pub fn make_refresh_token_at(&self, user_id: String, expiration_hours: i64, now: i64) -> (token:
        Result<String, AppError>)
        ensures
            Self::minted(
                self.refresh_token(user_id@, now, expiration_hours),
                issued_refresh(user_id@, now, expiration_hours),
                token,
            ),
            token matches Ok(t) ==> signed_with(t@, self.secret()),
    {
        match RefreshTokenClaims::for_refresh(user_id, now, expiration_hours) {
            Some(claims) => self.sign_refresh(&claims),
            None => Err(AppError::JWTError("token lifetime out of range".to_string())),
        }
    }

    /// Makes a refresh token for `user_id` that lasts `expiration_hours` hours from
    /// now: the answer is that of [`Self::make_refresh_token_at`] for some instant,
    /// the one that the clock showed.
    pub fn make_refresh_token(&self, user_id: String, expiration_hours: i64) -> (token: Result<
        String,
        AppError,
    >)
        ensures
            exists|now: i64|
                Self::minted(
                    #[trigger] self.refresh_token(user_id@, now, expiration_hours),
                    issued_refresh(user_id@, now, expiration_hours),
                    token,
                ),
            token matches Ok(t) ==> signed_with(t@, self.secret()),
    {
        let now = unix_now();
        let ghost id = user_id@;
        let token = self.make_refresh_token_at(user_id, expiration_hours, now);
        proof {
            assert(Self::minted(
                self.refresh_token(id, now, expiration_hours),
                issued_refresh(id, now, expiration_hours),
                token,
            ));
        }
        token
    }

    /// What verifying an access token answers, given how the verifier ended: the
    /// claims of an accepted token where they can be read, and a token error where
    /// they cannot or the token was rejected.
    pub fn accepted_access(verified: Result<
        serde_json::Map<String, Value>,
        jsonwebtoken::errors::Error,
    >) -> (claims: Result<Claims, AppError>)
        ensures
            match verified {
                Ok(held) => if access_readable(claims_content(held)) {
                    claims matches Ok(c) && c.stated_by(claims_content(held))
                } else {
                    claims matches Err(AppError::JWTError(m)) && m@
                        == "missing or malformed claim"@
                },
                Err(_) => claims matches Err(e) && e is JWTError,
            },
    {
        match verified {
            Ok(held) => match Claims::read(&held) {
                Some(c) => Ok(c),
                None => Err(AppError::JWTError("missing or malformed claim".to_string())),
            },
            Err(err) => Err(token_failed(&err)),
        }
    }

    /// What verifying a refresh token answers, given how the verifier ended.
    pub fn accepted_refresh(verified: Result<
        serde_json::Map<String, Value>,
        jsonwebtoken::errors::Error,
    >) -> (claims: Result<RefreshTokenClaims, AppError>)
        ensures
            match verified {
                Ok(held) => if refresh_readable(claims_content(held)) {
                    claims matches Ok(c) && c.stated_by(claims_content(held))
                } else {
                    claims matches Err(AppError::JWTError(m)) && m@
                        == "missing or malformed claim"@
                },
                Err(_) => claims matches Err(e) && e is JWTError,
            },
    {
        match verified {
            Ok(held) => match RefreshTokenClaims::read(&held) {
                Some(c) => Ok(c),
                None => Err(AppError::JWTError("missing or malformed claim".to_string())),
            },
            Err(err) => Err(token_failed(&err)),
        }
    }

    /// Verifies an access token and returns what it states. A token that is not
    /// signed with the secret of this maker, has expired or lacks a claim is
    /// rejected; the claims of a token that is accepted are those that the token
    /// carries. Whether a token that is signed with the secret is accepted is the
    /// verifier's to say: it goes by the clock.
    pub fn verify_access_token(&self, token: &str) -> (claims: Result<Claims, AppError>)
        ensures
            match claims {
                Ok(c) => token_payload(token@) matches Some(held) && c.stated_by(held),
                Err(e) => e is JWTError,
            },
            token_payload(token@) matches Some(held) && !access_readable(held) ==> claims is Err,
            token_payload(token@) is None ==> claims is Err,
            claims is Ok ==> signed_with(token@, self.secret()),
    {
        let key = secret_key(self.secret.as_str());
        Self::accepted_access(decode_claims(token, &key, &default_checks()))
    }

    /// Verifies a refresh token and returns what it states, as
    /// [`Self::verify_access_token`] does for an access token.
    pub fn verify_refresh_token(&self, token: &str) -> (claims: Result<RefreshTokenClaims, AppError>)
        ensures
            match claims {
                Ok(c) => token_payload(token@) matches Some(held) && c.stated_by(held),
                Err(e) => e is JWTError,
            },
            token_payload(token@) matches Some(held) && !refresh_readable(held) ==> claims is Err,
            token_payload(token@) is None ==> claims is Err,
            claims is Ok ==> signed_with(token@, self.secret()),
    {
        let key = secret_key(self.secret.as_str());
        Self::accepted_refresh(decode_claims(token, &key, &default_checks()))
    }
}

} // verus!

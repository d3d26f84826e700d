//! The auth service: password hashing and verification, and issuing and
//! validating the two kinds of JSON Web Token (access and refresh).  Each
//! token carries the user id as its subject, the username, issue and
//! expiry times, and a token-type claim that prevents a refresh token from
//! being used as an access token or the other way round.

use vstd::prelude::*;
use serde_json::Value;
use crate::numeric::{int_string, i64_to_string};
use crate::textutil::str_eq;

verus! {

/// Why an auth operation failed.
#[derive(Clone, Copy, Debug, PartialEq, Eq, Structural)]
pub enum AuthError {
    InvalidToken,
    TokenExpired,
    TokenCreationFailed,
}

impl AuthError {
    /// The user-facing description of the failure.
    pub fn message(&self) -> (r: &'static str)
        ensures
            *self == AuthError::InvalidToken ==> r@ == "Invalid token"@,
            *self == AuthError::TokenExpired ==> r@ == "Token expired"@,
            *self == AuthError::TokenCreationFailed ==> r@ == "Token creation failed"@,
    {
        match self {
            AuthError::InvalidToken => "Invalid token",
            AuthError::TokenExpired => "Token expired",
            AuthError::TokenCreationFailed => "Token creation failed",
        }
    }
}

/// The two kinds of token the service issues.
#[derive(Clone, Copy, Debug, PartialEq, Eq, Structural)]
pub enum TokenType {
    Access,
    Refresh,
}

/// The wire name of a token type, as it stands in the token-type claim.
pub open spec fn token_kind_label(t: TokenType) -> Seq<char> {
    match t {
        TokenType::Access => "access"@,
        TokenType::Refresh => "refresh"@,
    }
}

/// The claims carried by a token.  `sub` is the user id, rendered in
/// decimal; times are seconds since the Unix epoch.
#[derive(Clone, Debug)]
pub struct Claims {
    pub sub: String,
    pub username: String,
    pub exp: i64,
    pub iat: i64,
    pub token_type: TokenType,
}

/// The serialized, signed HS256 token for the given claims and secret: a
/// pure function of its arguments, computed by the token library.
pub uninterp spec fn token_of(
    sub: Seq<char>,
    username: Seq<char>,
    exp: i64,
    iat: i64,
    token_type: Seq<char>,
    secret: Seq<char>,
) -> Seq<char>;

/// The claims recovered from a token under a secret: `None` when the
/// signature does not verify or the payload lacks the expected claims; a
/// pure function of its arguments (expiry is checked separately, by the
/// service).
pub uninterp spec fn payload_of(token: Seq<char>, secret: Seq<char>) -> Option<
    (Seq<char>, Seq<char>, i64, i64, Seq<char>),
>;

/// Whether encoding these claims fails: a deterministic function of the
/// arguments, decided by the token library's serializer and signer.
pub uninterp spec fn encode_fails(
    sub: Seq<char>,
    username: Seq<char>,
    exp: i64,
    iat: i64,
    token_type: Seq<char>,
    secret: Seq<char>,
) -> bool;

/// Relies on jsonwebtoken::encode with HS256: the token is a deterministic
/// function of the claims and the secret (an HMAC signature over the two
/// base64url-encoded JSON parts), and jsonwebtoken::decode recovers
/// exactly the claims that were encoded under the same secret.  The
/// expiry must be non-negative: the library's validator reads `exp` as an
/// unsigned number, so a negative one would make the issued token
/// undecodable.
#[verifier::external_body]
fn jwt_encode_hs256(
    sub: &str,
    username: &str,
    exp: i64,
    iat: i64,
    token_type: &str,
    secret: &str,
) -> (r: Result<String, ()>)
    requires
        exp >= 0,
    ensures
        r matches Ok(t) ==> t@ == token_of(sub@, username@, exp, iat, token_type@, secret@)
            && payload_of(t@, secret@) == Some((sub@, username@, exp, iat, token_type@)),
        r is Err <==> encode_fails(sub@, username@, exp, iat, token_type@, secret@),
{
    let mut m = serde_json::Map::new();
    m.insert("sub".to_string(), Value::from(sub));
    m.insert("username".to_string(), Value::from(username));
    m.insert("exp".to_string(), Value::from(exp));
    m.insert("iat".to_string(), Value::from(iat));
    m.insert("token_type".to_string(), Value::from(token_type));
    let key = jsonwebtoken::EncodingKey::from_secret(secret.as_bytes());
    jsonwebtoken::encode(&jsonwebtoken::Header::default(), &Value::Object(m), &key).map_err(
        |_| (),
    )
}

/// Relies on jsonwebtoken::decode with HS256: it verifies the signature
/// under the secret and hands back the claims, a deterministic function of
/// token and secret (expiry is deliberately not checked here; the service
/// checks it against the time it is given).
#[verifier::external_body]
fn jwt_decode_hs256(token: &str, secret: &str) -> (r: Result<
    (String, String, i64, i64, String),
    (),
>)
    ensures
        match r {
            Ok(p) => payload_of(token@, secret@) == Some((p.0@, p.1@, p.2, p.3, p.4@)),
            Err(_) => payload_of(token@, secret@) is None,
        },
{
    let mut v = jsonwebtoken::Validation::new(jsonwebtoken::Algorithm::HS256);
    v.validate_exp = false;
    let key = jsonwebtoken::DecodingKey::from_secret(secret.as_bytes());
    let c = jsonwebtoken::decode::<Value>(token, &key, &v).map_err(|_| ())?.claims;
    let s = |k: &str| c.get(k).and_then(Value::as_str).map(str::to_string).ok_or(());
    let n = |k: &str| c.get(k).and_then(Value::as_i64).ok_or(());
    Ok((s("sub")?, s("username")?, n("exp")?, n("iat")?, s("token_type")?))
}

/// Whether a password matches a bcrypt hash: a deterministic function of
/// the two, computed by the bcrypt library.
pub uninterp spec fn bcrypt_verifies(password: Seq<char>, hash: Seq<char>) -> bool;

/// Relies on bcrypt::hash: the output is a 60-character hash string in the
/// `$2b$` format (so it always starts with `$2`), drawn from `$`, digits
/// and base64 characters alone (so trimming strips nothing from it),
/// salted from OS randomness; bcrypt::verify parses it (a well-formed
/// hash never fails the check) and accepts the hashed password against
/// it.
#[verifier::external_body]
pub fn hash_password(password: &str) -> (r: Result<String, ()>)
    ensures
        r matches Ok(h) ==> h@.len() == 60 && h@[0] == '$' && h@[1] == '2' && bcrypt_verifies(
            password@,
            h@,
        ) && !bcrypt_check_fails(h@) && crate::textutil::trim_of(h@) == h@,
{
    bcrypt::hash(password, bcrypt::DEFAULT_COST).map_err(|_| ())
}

/// Whether the bcrypt check itself fails — a malformed hash string —
/// rather than answering.  The check's error paths read the hash alone
/// (its shape, version, cost and base64 parts), so this is a function of
/// the hash.
pub uninterp spec fn bcrypt_check_fails(hash: Seq<char>) -> bool;

/// Relies on bcrypt::verify: whether the password matches the hash, a
/// deterministic function of the two; the error case is a malformed hash
/// string, determined by the hash alone.
#[verifier::external_body]
pub fn verify_password(password: &str, hash: &str) -> (r: Result<bool, ()>)
    ensures
        r matches Ok(b) ==> b == bcrypt_verifies(password@, hash@),
        r is Err <==> bcrypt_check_fails(hash@),
{
    bcrypt::verify(password, hash).map_err(|_| ())
}

/// Relies on chrono::Utc::now: the current time as seconds since the Unix
/// epoch.  Nothing is promised of the value: every caller that decides on
/// it takes the time as an argument.
#[verifier::external_body]
pub fn now_ts() -> i64 {
    chrono::Utc::now().timestamp()
}

/// How long a refresh token lives: seven days, in seconds.
pub const REFRESH_TOKEN_LIFETIME: i64 = 604_800;

/// The auth service: holds the signing secret and the two token
/// lifetimes.
pub struct AuthService {
    pub secret: String,
    pub access_token_expiration: i64,
    pub refresh_token_expiration: i64,
}

/// A token issued at `now` for `user_id` with the given type and
/// lifetime: its view is pinned down to `token_of` over the rendered
/// claims.
pub open spec fn issued_token(
    user_id: i64,
    username: Seq<char>,
    now: i64,
    lifetime: i64,
    token_type: TokenType,
    secret: Seq<char>,
) -> Seq<char> {
    token_of(
        int_string(user_id as int),
        username,
        (now + lifetime) as i64,
        now,
        token_kind_label(token_type),
        secret,
    )
}

impl AuthService {
    /// A service signing with `secret`; access tokens live
    /// `access_token_expiration` seconds, refresh tokens seven days.
    pub fn new(secret: &str, access_token_expiration: i64) -> (r: AuthService)
        ensures
            r.secret@ == secret@,
            r.access_token_expiration == access_token_expiration,
            r.refresh_token_expiration == REFRESH_TOKEN_LIFETIME,
    {
        AuthService {
            secret: secret.to_owned(),
            access_token_expiration,
            refresh_token_expiration: REFRESH_TOKEN_LIFETIME,
        }
    }

    /// Issue a token of the given type at time `now`: subject is the
    /// decimal user id, expiry is `now` plus the type's lifetime.
    pub fn generate_token_at(
        &self,
        user_id: i64,
        username: &str,
        token_type: TokenType,
        now: i64,
    ) -> (r: Result<String, AuthError>)
        requires
            0 <= now + self.lifetime_of(token_type) <= i64::MAX,
        ensures
            r matches Ok(t) ==> t@ == issued_token(
                user_id,
                username@,
                now,
                self.lifetime_of(token_type),
                token_type,
                self.secret@,
            ) && payload_of(t@, self.secret@) == Some(
                (
                    int_string(user_id as int),
                    username@,
                    (now + self.lifetime_of(token_type)) as i64,
                    now,
                    token_kind_label(token_type),
                ),
            ),
            r is Err <==> encode_fails(
                int_string(user_id as int),
                username@,
                (now + self.lifetime_of(token_type)) as i64,
                now,
                token_kind_label(token_type),
                self.secret@,
            ),
            r matches Err(e) ==> e == AuthError::TokenCreationFailed,
    {
        proof {
            reveal_strlit("access");
            reveal_strlit("refresh");
        }
        let lifetime = match token_type {
            TokenType::Access => self.access_token_expiration,
            TokenType::Refresh => self.refresh_token_expiration,
        };
        let sub = i64_to_string(user_id);
        let kind_label: &str = match token_type {
            TokenType::Access => "access",
            TokenType::Refresh => "refresh",
        };
        match jwt_encode_hs256(
            sub.as_str(),
            username,
            now + lifetime,
            now,
            kind_label,
            self.secret.as_str(),
        ) {
            Ok(t) => Ok(t),
            Err(_) => Err(AuthError::TokenCreationFailed),
        }
    }

    /// The lifetime, in seconds, of a token of the given type.
    pub open spec fn lifetime_of(&self, token_type: TokenType) -> i64 {
        match token_type {
            TokenType::Access => self.access_token_expiration,
            TokenType::Refresh => self.refresh_token_expiration,
        }
    }

    /// Issue an access token at the current time.
    pub fn generate_access_token(&self, user_id: i64, username: &str) -> (r: Result<
        String,
        AuthError,
    >)
        ensures
            r matches Ok(t) ==> exists|now: i64|
                t@ == issued_token(
                    user_id,
                    username@,
                    now,
                    self.access_token_expiration,
                    TokenType::Access,
                    self.secret@,
                ) && #[trigger] payload_of(t@, self.secret@) == Some(
                    (
                        int_string(user_id as int),
                        username@,
                        (now + self.access_token_expiration) as i64,
                        now,
                        token_kind_label(TokenType::Access),
                    ),
                ) && now + self.access_token_expiration >= 0,
    {
        let now = now_ts();
        let exp = match now.checked_add(self.access_token_expiration) {
            Some(e) => e,
            None => {
                return Err(AuthError::TokenCreationFailed);
            },
        };
        if exp < 0 {
            return Err(AuthError::TokenCreationFailed);
        }
        self.generate_token_at(user_id, username, TokenType::Access, now)
    }

    /// Issue a refresh token at the current time.
    pub fn generate_refresh_token(&self, user_id: i64, username: &str) -> (r: Result<
        String,
        AuthError,
    >)
        ensures
            r matches Ok(t) ==> exists|now: i64|
                t@ == issued_token(
                    user_id,
                    username@,
                    now,
                    REFRESH_TOKEN_LIFETIME,
                    TokenType::Refresh,
                    self.secret@,
                ) && #[trigger] payload_of(t@, self.secret@) == Some(
                    (
                        int_string(user_id as int),
                        username@,
                        (now + REFRESH_TOKEN_LIFETIME) as i64,
                        now,
                        token_kind_label(TokenType::Refresh),
                    ),
                ) && now + REFRESH_TOKEN_LIFETIME >= 0,
    {
        let now = now_ts();
        let exp = match now.checked_add(self.refresh_token_expiration) {
            Some(e) => e,
            None => {
                return Err(AuthError::TokenCreationFailed);
            },
        };
        if exp < 0 {
            return Err(AuthError::TokenCreationFailed);
        }
        if self.refresh_token_expiration != REFRESH_TOKEN_LIFETIME {
            return Err(AuthError::TokenCreationFailed);
        }
        self.generate_token_at(user_id, username, TokenType::Refresh, now)
    }

    /// Validate a token at time `now`: the signature must verify, the
    /// token-type claim must match the expected kind (a refresh token is
    /// never accepted as an access token, nor the reverse), and the token
    /// must not have expired.  A bad signature or a wrong kind is the
    /// uniform invalid-token error; only a correctly typed, correctly
    /// signed token can be reported as expired; and a well-signed,
    /// correctly typed, unexpired token is accepted, with exactly its own
    /// claims.
    pub fn validate_token_at(&self, token: &str, expected_type: TokenType, now: i64) -> (r:
        Result<Claims, AuthError>)
        ensures
            validate_outcome(r, payload_of(token@, self.secret@), expected_type, now),
    {
        proof {
            reveal_strlit("access");
            reveal_strlit("refresh");
        }
        let decoded = match jwt_decode_hs256(token, self.secret.as_str()) {
            Ok(p) => p,
            Err(_) => {
                return Err(AuthError::InvalidToken);
            },
        };
        let (sub, username, exp, iat, kind_label) = decoded;
        let expected_label: &str = match expected_type {
            TokenType::Access => "access",
            TokenType::Refresh => "refresh",
        };
        if !str_eq(kind_label.as_str(), expected_label) {
            return Err(AuthError::InvalidToken);
        }
        if exp < now {
            return Err(AuthError::TokenExpired);
        }
        Ok(Claims { sub, username, exp, iat, token_type: expected_type })
    }

    /// Validate a token against the current time: the outcome is exactly
    /// a validation outcome at some time (the clock's), so every
    /// signature, kind and claim fact holds of it; only where the expiry
    /// cutoff fell depends on the clock.
    pub fn validate_token(&self, token: &str, expected_type: TokenType) -> (r: Result<
        Claims,
        AuthError,
    >)
        ensures
            exists|now: i64|
                #[trigger] validate_outcome(
                    r,
                    payload_of(token@, self.secret@),
                    expected_type,
                    now,
                ),
    {
        let now = now_ts();
        self.validate_token_at(token, expected_type, now)
    }
}

/// What validating a token at time `now` returns, given what the token
/// decodes to: the uniform invalid-token error on a bad signature or a
/// wrong kind, the expired error on a stale but otherwise good token,
/// and success — carrying exactly the decoded claims — on a good one.
pub open spec fn validate_outcome(
    r: Result<Claims, AuthError>,
    payload: Option<(Seq<char>, Seq<char>, i64, i64, Seq<char>)>,
    expected_type: TokenType,
    now: i64,
) -> bool {
    match payload {
        None => r == Err::<Claims, AuthError>(AuthError::InvalidToken),
        Some(p) => {
            if p.4 != token_kind_label(expected_type) {
                r == Err::<Claims, AuthError>(AuthError::InvalidToken)
            } else if p.2 < now {
                r == Err::<Claims, AuthError>(AuthError::TokenExpired)
            } else {
                r matches Ok(c) && c.sub@ == p.0 && c.username@ == p.1 && c.exp == p.2 && c.iat
                    == p.3 && c.token_type == expected_type
            }
        },
    }
}

} // verus!

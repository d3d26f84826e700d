//! Request authentication: pulling the bearer token out of the
//! `Authorization` header or the `token` cookie, validating it as an
//! access token, and resolving the subject to a live user.

use vstd::prelude::*;
use crate::auth::{payload_of, token_kind_label, AuthService, TokenType};
use crate::numeric::{i64_value_of, parse_i64, parses_as_i64};
use crate::textutil::{has_prefix, str_starts_with, str_trim, trim_of};
use crate::users::{first_user_with_id, user_id_present, UserRepository};

verus! {

/// The authenticated caller a handler sees.
#[derive(Clone, Debug)]
pub struct AuthUser {
    pub user_id: i64,
    pub username: String,
}

/// The body of an authentication failure response.
#[derive(Clone, Debug)]
pub struct AuthErrorResponse {
    pub error: String,
}

/// Where the first `;` stands in `s` at or after `i`, or the length of
/// `s`.
pub open spec fn semicolon_at(s: Seq<char>, i: int) -> int
    decreases s.len() - i when 0 <= i <= s.len()
{
    if i >= s.len() {
        s.len() as int
    } else if s[i] == ';' {
        i
    } else {
        semicolon_at(s, i + 1)
    }
}

/// The value of the cookie `name` in a `Cookie` header: the first
/// `;`-separated pair whose trimmed form starts with `name=` yields
/// what follows that prefix.
pub open spec fn cookie_value_spec(header: Seq<char>, name: Seq<char>) -> Option<Seq<char>>
    decreases header.len(),
    via cookie_value_spec_decreases
{
    let k = semicolon_at(header, 0);
    let segment = trim_of(header.subrange(0, k));
    if has_prefix(segment, name + "="@) {
        Some(segment.subrange(name.len() as int + 1, segment.len() as int))
    } else if k == header.len() {
        None
    } else {
        cookie_value_spec(header.subrange(k + 1, header.len() as int), name)
    }
}

/// The scan for a `;` ends between its start and the end of the string.
proof fn lemma_semicolon_at_bounds(s: Seq<char>, i: int)
    requires
        0 <= i <= s.len(),
    ensures
        i <= semicolon_at(s, i) <= s.len(),
    decreases s.len() - i,
{
    if i < s.len() && s[i] != ';' {
        lemma_semicolon_at_bounds(s, i + 1);
    }
}

#[via_fn]
proof fn cookie_value_spec_decreases(header: Seq<char>, name: Seq<char>) {
    lemma_semicolon_at_bounds(header, 0);
}

/// Pull the value of the cookie `name` out of a `Cookie` header.
pub fn cookie_value(header: &str, name: &str) -> (r: Option<String>)
    ensures
        (match r {
            Some(v) => cookie_value_spec(header@, name@) == Some(v@),
            None => cookie_value_spec(header@, name@) is None,
        }),
    decreases header@.len(),
{
    proof {
        reveal_strlit("=");
        reveal_strlit(";");
    }
    let n = header.unicode_len();
    let mut k: usize = 0;
    while k < n && header.get_char(k) != ';'
        invariant
            k <= n,
            n == header@.len(),
            semicolon_at(header@, 0) == semicolon_at(header@, k as int),
        decreases n - k,
    {
        k = k + 1;
    }
    proof {
        assert(semicolon_at(header@, k as int) == k);
    }
    let segment = str_trim(header.substring_char(0, k));
    let mut needle = name.to_owned();
    needle.append("=");
    if str_starts_with(segment, needle.as_str()) {
        let seg_len = segment.unicode_len();
        let name_len = name.unicode_len();
        return Some(segment.substring_char(name_len + 1, seg_len).to_owned());
    }
    if k == n {
        return None;
    }
    let rest = header.substring_char(k + 1, n);
    proof {
        assert(rest@ == header@.subrange(k + 1, n as int));
    }
    cookie_value(rest, name)
}

/// The token a request carries: what follows `Bearer ` in the
/// `Authorization` header, else the `token` cookie.
pub open spec fn extracted_token(
    auth_header: Option<Seq<char>>,
    cookie_header: Option<Seq<char>>,
) -> Option<Seq<char>> {
    let from_cookie = match cookie_header {
        Some(h) => cookie_value_spec(h, "token"@),
        None => None,
    };
    match auth_header {
        Some(h) => if has_prefix(h, "Bearer "@) {
            Some(h.subrange("Bearer "@.len() as int, h.len() as int))
        } else {
            from_cookie
        },
        None => from_cookie,
    }
}

/// Pull the bearer token out of a request: the `Authorization` header
/// when it carries one, the `token` cookie otherwise.
pub fn extract_token(auth_header: Option<&str>, cookie_header: Option<&str>) -> (r: Option<
    String,
>)
    ensures
        (match r {
            Some(t) => extracted_token(
                match auth_header {
                    Some(h) => Some(h@),
                    None => None::<Seq<char>>,
                },
                match cookie_header {
                    Some(h) => Some(h@),
                    None => None::<Seq<char>>,
                },
            ) == Some(t@),
            None => extracted_token(
                match auth_header {
                    Some(h) => Some(h@),
                    None => None::<Seq<char>>,
                },
                match cookie_header {
                    Some(h) => Some(h@),
                    None => None::<Seq<char>>,
                },
            ) is None,
        }),
{
    proof {
        reveal_strlit("Bearer ");
        reveal_strlit("token");
    }
    if let Some(h) = auth_header {
        if str_starts_with(h, "Bearer ") {
            let n = h.unicode_len();
            return Some(h.substring_char(7, n).to_owned());
        }
    }
    match cookie_header {
        Some(h) => cookie_value(h, "token"),
        None => None,
    }
}

/// The view of an optional header.
pub open spec fn opt_view(h: Option<&str>) -> Option<Seq<char>> {
    match h {
        Some(x) => Some(x@),
        None => None,
    }
}

/// What authenticating a request at time `now` returns, given the token
/// the request carried (if any) and what it decodes to: no token is the
/// missing-token error; a bad signature, a non-access kind or a stale
/// expiry is the invalid-token error; a subject that is not a decimal
/// user id is the bad-subject error; a subject naming no live account is
/// the unknown-user error; and otherwise the caller is exactly the first
/// live account the subject names.
pub open spec fn authenticate_outcome(
    r: Result<AuthUser, AuthFailure>,
    token: Option<Seq<char>>,
    secret: Seq<char>,
    users: Seq<crate::users::User>,
    now: i64,
) -> bool {
    match token {
        None => r == Err::<AuthUser, AuthFailure>(AuthFailure::MissingToken),
        Some(t) => match payload_of(t, secret) {
            None => r == Err::<AuthUser, AuthFailure>(AuthFailure::InvalidToken),
            Some(p) => {
                if p.4 != token_kind_label(TokenType::Access) || p.2 < now {
                    r == Err::<AuthUser, AuthFailure>(AuthFailure::InvalidToken)
                } else if !parses_as_i64(p.0) {
                    r == Err::<AuthUser, AuthFailure>(AuthFailure::BadSubject)
                } else {
                    match first_user_with_id(users, i64_value_of(p.0) as i64) {
                        None => r == Err::<AuthUser, AuthFailure>(AuthFailure::UnknownUser),
                        Some(u) => r matches Ok(a) && a.user_id == u.id && a.username@
                            == u.username@,
                    }
                }
            },
        },
    }
}

/// Why a request failed authentication: no token (401), a token that
/// does not validate as an access token (401), a subject that is not a
/// decimal user id (500), or a subject naming no live user (401).
#[derive(Clone, Copy, Debug, PartialEq, Eq, Structural)]
pub enum AuthFailure {
    MissingToken,
    InvalidToken,
    BadSubject,
    UnknownUser,
}

/// Authenticate one request at time `now`: extract the token, validate
/// it as an access token, read the user id from its subject, and check
/// the user is still live.
pub fn authenticate(
    service: &AuthService,
    repo: &UserRepository,
    auth_header: Option<&str>,
    cookie_header: Option<&str>,
    now: i64,
) -> (r: Result<AuthUser, AuthFailure>)
    ensures
        authenticate_outcome(
            r,
            extracted_token(opt_view(auth_header), opt_view(cookie_header)),
            service.secret@,
            repo.users@,
            now,
        ),
        r matches Ok(u) ==> user_id_present(repo.users@, u.user_id),
{
    let token = match extract_token(auth_header, cookie_header) {
        Some(t) => t,
        None => {
            return Err(AuthFailure::MissingToken);
        },
    };
    let claims = match service.validate_token_at(token.as_str(), TokenType::Access, now) {
        Ok(c) => c,
        Err(_) => {
            return Err(AuthFailure::InvalidToken);
        },
    };
    let user_id = match parse_i64(claims.sub.as_str()) {
        Some(v) => v,
        None => {
            return Err(AuthFailure::BadSubject);
        },
    };
    let user = match repo.find_by_id(user_id) {
        Ok(u) => u,
        Err(_) => {
            return Err(AuthFailure::UnknownUser);
        },
    };
    Ok(AuthUser { user_id: user.id, username: user.username })
}

} // verus!

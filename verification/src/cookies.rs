//! The session cookies: `token` and `refresh_token` are set on the
//! whole site with `SameSite=Lax`, marked `HttpOnly`, aged by the token
//! lifetime (or zero to clear), scoped to the configured domain when
//! one is set, and marked `Secure` in production.

use vstd::prelude::*;
use crate::numeric::{i64_to_string, int_string};
use crate::textutil::{str_trim, trim_of};

verus! {

/// The text of one `Set-Cookie` value: name and value, the fixed path
/// and same-site policy, then the age, domain and flags that apply.
pub open spec fn cookie_text(
    name: Seq<char>,
    value: Seq<char>,
    max_age: i64,
    http_only: bool,
    remove: bool,
    domain: Option<Seq<char>>,
    secure: bool,
) -> Seq<char> {
    let base = name + "="@ + value + "; Path=/; SameSite=Lax"@;
    let aged = if remove {
        base + "; Max-Age=0"@
    } else if max_age > 0 {
        base + "; Max-Age="@ + int_string(max_age as int)
    } else {
        base
    };
    let domained = match domain {
        Some(d) => if trim_of(d).len() > 0 {
            aged + "; Domain="@ + trim_of(d)
        } else {
            aged
        },
        None => aged,
    };
    let flagged = if http_only {
        domained + "; HttpOnly"@
    } else {
        domained
    };
    if secure {
        flagged + "; Secure"@
    } else {
        flagged
    }
}

/// Build one `Set-Cookie` value.  `remove` forces `Max-Age=0` to clear
/// the cookie; otherwise a positive `max_age` is written out; a blank
/// domain is left off; `secure` marks production.
pub fn build_cookie(
    name: &str,
    value: &str,
    max_age: i64,
    http_only: bool,
    remove: bool,
    domain: Option<&str>,
    secure: bool,
) -> (r: String)
    ensures
        r@ == cookie_text(
            name@,
            value@,
            max_age,
            http_only,
            remove,
            match domain {
                Some(d) => Some(d@),
                None => None::<Seq<char>>,
            },
            secure,
        ),
{
    proof {
        reveal_strlit("=");
        reveal_strlit("; Path=/; SameSite=Lax");
        reveal_strlit("; Max-Age=0");
        reveal_strlit("; Max-Age=");
        reveal_strlit("; Domain=");
        reveal_strlit("; HttpOnly");
        reveal_strlit("; Secure");
    }
    let mut cookie = name.to_owned();
    cookie.append("=");
    cookie.append(value);
    cookie.append("; Path=/; SameSite=Lax");
    if remove {
        cookie.append("; Max-Age=0");
    } else if max_age > 0 {
        cookie.append("; Max-Age=");
        cookie.append(i64_to_string(max_age).as_str());
    }
    if let Some(d) = domain {
        let trimmed = str_trim(d);
        if !trimmed.is_empty() {
            cookie.append("; Domain=");
            cookie.append(trimmed);
        }
    }
    if http_only {
        cookie.append("; HttpOnly");
    }
    if secure {
        cookie.append("; Secure");
    }
    cookie
}

} // verus!

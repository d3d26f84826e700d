//! Same-origin protection for the non-safe HTTP methods: the request's
//! `Origin` (or the origin of its `Referer`) must match the configured
//! allow-list, case-insensitively.  Requests carrying neither header are
//! allowed through, for native clients.

use vstd::prelude::*;
use crate::textutil::{ascii_lower, str_eq_ignore_ascii_case};

verus! {

/// Whether some entry of the allow-list equals `origin`, ASCII
/// case-insensitively.
pub open spec fn origin_allowed_spec(origin: Seq<char>, allowed: Seq<String>) -> bool {
    exists|i: int|
        0 <= i < allowed.len() && ascii_lower((#[trigger] allowed[i])@) == ascii_lower(origin)
}

/// Whether `origin` is on the allow-list, compared ASCII
/// case-insensitively.
pub fn origin_allowed(origin: &str, allowed: &Vec<String>) -> (r: bool)
    ensures
        r == origin_allowed_spec(origin@, allowed@),
{
    let n = allowed.len();
    let mut i: usize = 0;
    while i < n
        invariant
            n == allowed@.len(),
            i <= n,
            forall|j: int|
                0 <= j < i ==> ascii_lower((#[trigger] allowed@[j])@) != ascii_lower(origin@),
        decreases n - i,
    {
        if str_eq_ignore_ascii_case(allowed[i].as_str(), origin) {
            return true;
        }
        i = i + 1;
    }
    false
}

/// Where the scheme separator `://` starts in `s`, scanning from `i`;
/// the length of `s` when it never occurs.
pub open spec fn scheme_sep_at(s: Seq<char>, i: int) -> int
    decreases s.len() - i when 0 <= i <= s.len()
{
    if i + 3 > s.len() {
        s.len() as int
    } else if s[i] == ':' && s[i + 1] == '/' && s[i + 2] == '/' {
        i
    } else {
        scheme_sep_at(s, i + 1)
    }
}

/// Where the authority part ends, scanning from `i`: at the first `/`,
/// `?` or `#`, or at the end of `s`.
pub open spec fn authority_end_at(s: Seq<char>, i: int) -> int
    decreases s.len() - i when 0 <= i <= s.len()
{
    if i >= s.len() {
        s.len() as int
    } else if s[i] == '/' || s[i] == '?' || s[i] == '#' {
        i
    } else {
        authority_end_at(s, i + 1)
    }
}

/// The origin of a URL under this module's grammar: everything up to the
/// first `://` is the scheme, what follows it up to the first `/`, `?`
/// or `#` is the authority, and both must be non-empty.
pub open spec fn origin_of_url_spec(s: Seq<char>) -> Option<Seq<char>> {
    let k = scheme_sep_at(s, 0);
    if k == s.len() || k == 0 {
        None
    } else {
        let e = authority_end_at(s, k + 3);
        if e == k + 3 {
            None
        } else {
            Some(s.subrange(0, e))
        }
    }
}

/// The `scheme://authority` origin of a URL, or `None` when the URL has
/// no scheme separator, an empty scheme, or an empty authority.  Used to
/// reduce a `Referer` URL to its origin.
#[verifier::loop_isolation(false)]
pub fn origin_from_url(url: &str) -> (r: Option<String>)
    ensures
        r matches Some(o) ==> origin_of_url_spec(url@) == Some(o@),
        r is None ==> origin_of_url_spec(url@) is None,
{
    let n = url.unicode_len();
    if n < 3 {
        return None;
    }
    let mut i: usize = 0;
    while i <= n - 3 && !(url.get_char(i) == ':' && url.get_char(i + 1) == '/' && url.get_char(
        i + 2,
    ) == '/')
        invariant
            3 <= n,
            i <= n - 2,
            scheme_sep_at(url@, 0) == scheme_sep_at(url@, i as int),
        decreases n - i,
    {
        i = i + 1;
    }
    if i > n - 3 {
        proof {
            assert(scheme_sep_at(url@, i as int) == n);
        }
        return None;
    }
    if i == 0 {
        return None;
    }
    let sep = i;
    let mut e: usize = sep + 3;
    while e < n && !(url.get_char(e) == '/' || url.get_char(e) == '?' || url.get_char(e) == '#')
        invariant
            sep + 3 <= e <= n,
            authority_end_at(url@, sep + 3 as int) == authority_end_at(url@, e as int),
        decreases n - e,
    {
        e = e + 1;
    }
    if e == sep + 3 {
        return None;
    }
    Some(url.substring_char(0, e).to_owned())
}

/// What the same-origin check decides.  Safe methods pass; so does
/// everything when the allow-list is empty.  Otherwise an `Origin`
/// header decides alone; without one, a `Referer` whose origin can be
/// extracted decides; a request with neither indicator passes.
pub open spec fn csrf_allows(
    method_is_safe: bool,
    allowed: Seq<String>,
    origin: Option<Seq<char>>,
    referer: Option<Seq<char>>,
) -> bool {
    if method_is_safe || allowed.len() == 0 {
        true
    } else {
        match origin {
            Some(o) => origin_allowed_spec(o, allowed),
            None => match referer {
                Some(rf) => match origin_of_url_spec(rf) {
                    Some(o) => origin_allowed_spec(o, allowed),
                    None => true,
                },
                None => true,
            },
        }
    }
}

/// Decide the same-origin check for one request.  `method_is_safe` says
/// whether the HTTP method was GET, HEAD or OPTIONS; `origin` and
/// `referer` are the request's headers, where present.  `false` means
/// the request is refused with 403.
pub fn csrf_protect(
    method_is_safe: bool,
    allowed: &Vec<String>,
    origin: Option<&str>,
    referer: Option<&str>,
) -> (r: bool)
    ensures
        r == csrf_allows(
            method_is_safe,
            allowed@,
            match origin {
                Some(o) => Some(o@),
                None => None::<Seq<char>>,
            },
            match referer {
                Some(rf) => Some(rf@),
                None => None::<Seq<char>>,
            },
        ),
{
    if method_is_safe || allowed.len() == 0 {
        return true;
    }
    match origin {
        Some(o) => origin_allowed(o, allowed),
        None => match referer {
            Some(rf) => match origin_from_url(rf) {
                Some(o) => origin_allowed(o.as_str(), allowed),
                None => true,
            },
            None => true,
        },
    }
}

} // verus!

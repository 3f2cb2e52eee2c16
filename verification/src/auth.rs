//! API token checks.
use vstd::prelude::*;

use crate::storage::starts_with;
use crate::text::{chars_of, str_eq};

verus! {

/// Paths that remain reachable without an API token (health check and docs).
pub open spec fn spec_is_public_path(path: Seq<char>) -> bool {
    path == "/"@ || path == "/api-docs/openapi.json"@ || starts_with(path, "/swagger-ui"@)
}

/// Whether a path is reachable without an API token.
pub fn is_public_path(path: &str) -> (r: bool)
    ensures
        r == spec_is_public_path(path@),
{
    let v = chars_of(path);
    let p = chars_of("/swagger-ui");
    let mut prefix = v.len() >= p.len();
    let mut i: usize = 0;
    while prefix && i < p.len()
        invariant
            prefix ==> p.len() <= v.len(),
            v@ == path@,
            p@ == "/swagger-ui"@,
            i <= p.len(),
            prefix ==> forall|j: int| 0 <= j < i ==> v@[j] == p@[j],
            !prefix ==> !starts_with(path@, "/swagger-ui"@),
        decreases p.len() - i,
    {
        if v[i] != p[i] {
            prefix = false;
            assert(path@.take(p.len() as int)[i as int] != p@[i as int]);
        }
        i = i + 1;
    }
    if prefix {
        assert(path@.take(p.len() as int) =~= p@);
    }
    str_eq(path, "/") || str_eq(path, "/api-docs/openapi.json") || prefix
}

/// The token of an `Authorization` header value: the text after `Bearer `.
pub open spec fn bearer_token(header: Seq<char>) -> Option<Seq<char>> {
    if starts_with(header, "Bearer "@) {
        Some(header.skip(7))
    } else {
        None
    }
}

/// Whether a request may proceed: always when authentication is off or the
/// path is public; otherwise only with a bearer token that is one of the
/// configured tokens.
pub open spec fn spec_request_allowed(
    enabled: bool,
    path: Seq<char>,
    header: Option<Seq<char>>,
    tokens: Seq<Seq<char>>,
) -> bool {
    !enabled || spec_is_public_path(path) || (header matches Some(h) && bearer_token(h) matches Some(t)
        && tokens.contains(t))
}

/// The decision of the API-token middleware.
pub fn request_allowed(enabled: bool, path: &str, header: Option<&str>, tokens: &Vec<String>) -> (r: bool)
    ensures
        r == spec_request_allowed(enabled, path@, match header {
            Some(h) => Some(h@),
            None => None,
        }, crate::text::views(tokens@)),
{
    if !enabled || is_public_path(path) {
        return true;
    }
    let h = match header {
        Some(h) => h,
        None => return false,
    };
    let v = chars_of(h);
    proof {
        reveal_strlit("Bearer ");
    }
    let is_bearer = v.len() >= 7 && v[0] == 'B' && v[1] == 'e' && v[2] == 'a' && v[3] == 'r' && v[4] == 'e'
        && v[5] == 'r' && v[6] == ' ';
    if !is_bearer {
        assert(!starts_with(h@, "Bearer "@)) by {
            if starts_with(h@, "Bearer "@) {
                assert(h@.take(7)[0] == 'B' && h@.take(7)[1] == 'e' && h@.take(7)[2] == 'a' && h@.take(7)[3]
                    == 'r' && h@.take(7)[4] == 'e' && h@.take(7)[5] == 'r' && h@.take(7)[6] == ' ');
            }
        }
        return false;
    }
    assert(h@.take(7) =~= "Bearer "@);
    let mut token = String::new();
    crate::text::push_chars(&mut token, &v, 7, v.len());
    assert(token@ =~= h@.skip(7));
    assert(bearer_token(h@) == Some(token@));
    let ghost names = crate::text::views(tokens@);
    let mut i: usize = 0;
    while i < tokens.len()
        invariant
            i <= tokens.len(),
            names == crate::text::views(tokens@),
            forall|j: int| 0 <= j < i ==> names[j] != token@,
            header == Some(h),
            bearer_token(h@) == Some(token@),
        decreases tokens.len() - i,
    {
        if tokens[i].eq(&token) {
            assert(names[i as int] == token@);
            return true;
        }
        i = i + 1;
    }
    false
}

} // verus!

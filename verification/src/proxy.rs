//! The Audiobookshelf proxy: which requests it forwards, and where.
use crate::text::{
    contains_text, ends_with_text, has_prefix, has_suffix, occurs_in, same_text,
    starts_with_text,
};
use vstd::prelude::*;
use vstd::string::*;

verus! {

/// The path starts with `prefix` and ends with `suffix`.
pub open spec fn prefix_and_suffix(path: Seq<char>, prefix: Seq<char>, suffix: Seq<char>) -> bool {
    has_prefix(path, prefix) && has_suffix(path, suffix)
}

/// The read calls that the party needs.
pub open spec fn get_allowed(path: Seq<char>) -> bool {
    ||| path == "api/me"@
    ||| path == "api/libraries"@
    ||| prefix_and_suffix(path, "api/libraries/"@, "/items"@)
    ||| prefix_and_suffix(path, "api/libraries/"@, "/search"@)
    ||| has_prefix(path, "api/items/"@)
    ||| has_prefix(path, "api/me/progress/"@)
}

/// The bookmark and playback-session calls that the party needs.
pub open spec fn post_allowed(path: Seq<char>) -> bool {
    ||| prefix_and_suffix(path, "api/me/item/"@, "/bookmark"@)
    ||| prefix_and_suffix(path, "api/items/"@, "/play"@)
    ||| (has_prefix(path, "api/session/"@) && (has_suffix(path, "/sync"@) || has_suffix(path, "/close"@)))
}

/// The allowlist of the proxy: no path with `..` in it, and only the listed
/// GET and POST calls; every other method is refused.
pub open spec fn proxy_allowed(method: Seq<char>, path: Seq<char>) -> bool {
    if occurs_in(path, ".."@) {
        false
    } else if method == "GET"@ {
        get_allowed(path)
    } else if method == "POST"@ {
        post_allowed(path)
    } else {
        false
    }
}

/// Whether `path` is one of `exact`.
pub fn matches_any(path: &str, exact: &[&str]) -> (r: bool)
    ensures
        r == exists|i: int| 0 <= i < exact@.len() && #[trigger] exact@[i]@ == path@,
{
    let mut i: usize = 0;
    while i < exact.len()
        invariant
            i <= exact@.len(),
            forall|j: int| 0 <= j < i ==> #[trigger] exact@[j]@ != path@,
        decreases exact@.len() - i,
    {
        if same_text(path, exact[i]) {
            return true;
        }
        i = i + 1;
    }
    false
}

/// Whether `path` starts with `prefix` and ends with `suffix`.
pub fn path_matches_prefix_suffix(path: &str, prefix: &str, suffix: &str) -> (r: bool)
    ensures
        r == prefix_and_suffix(path@, prefix@, suffix@),
{
    starts_with_text(path, prefix) && ends_with_text(path, suffix)
}

/// Whether the proxy forwards a request with this method (its name, such as
/// `GET`) to this path; see `proxy_allowed`.
pub fn proxy_path_allowed(method: &str, path: &str) -> (r: bool)
    ensures
        r == proxy_allowed(method@, path@),
{
    if contains_text(path, "..") {
        return false;
    }
    if same_text(method, "GET") {
        let exact: [&str; 2] = ["api/me", "api/libraries"];
        let listed = matches_any(path, exact.as_slice());
        proof {
            assert(exact@[0]@ == "api/me"@);
            assert(exact@[1]@ == "api/libraries"@);
            if listed {
                let i = choose|i: int| 0 <= i < exact@.len() && #[trigger] exact@[i]@ == path@;
                assert(i == 0 || i == 1);
            }
        }
        listed || path_matches_prefix_suffix(path, "api/libraries/", "/items")
            || path_matches_prefix_suffix(path, "api/libraries/", "/search")
            || starts_with_text(path, "api/items/")
            || starts_with_text(path, "api/me/progress/")
    } else if same_text(method, "POST") {
        (starts_with_text(path, "api/me/item/") && ends_with_text(path, "/bookmark"))
            || (starts_with_text(path, "api/items/") && ends_with_text(path, "/play"))
            || (starts_with_text(path, "api/session/") && (ends_with_text(path, "/sync")
            || ends_with_text(path, "/close")))
    } else {
        false
    }
}

/// The text with every trailing `/` removed.
pub open spec fn trim_trailing_slashes(s: Seq<char>) -> Seq<char>
    decreases s.len(),
{
    if s.len() > 0 && s.last() == '/' {
        trim_trailing_slashes(s.drop_last())
    } else {
        s
    }
}

/// The token of an `Authorization` header value of the form `Bearer <token>`.
pub open spec fn bearer_token(header: Option<Seq<char>>) -> Option<Seq<char>> {
    match header {
        Some(h) => if has_prefix(h, "Bearer "@) {
            Some(h.subrange(7, h.len() as int))
        } else {
            None
        },
        None => None,
    }
}

/// The Audiobookshelf URL of a proxied call: the base without trailing `/`,
/// then `/` and the path, then `?` and the query where there is a non-empty one.
pub open spec fn proxy_url(base: Seq<char>, path: Seq<char>, query: Option<Seq<char>>) -> Seq<char> {
    let head = trim_trailing_slashes(base) + "/"@ + path;
    match query {
        Some(q) => if q.len() > 0 {
            head + "?"@ + q
        } else {
            head
        },
        None => head,
    }
}

/// Why the proxy refuses a request.
pub enum ProxyRefusal {
    /// The method and path are not on the allowlist.
    Forbidden,
    /// No `Bearer` token came with the request.
    Unauthorized,
}

impl ProxyRefusal {
    /// The HTTP status of the refusal.
    pub fn status_code(&self) -> (r: u16)
        ensures
            r == match self {
                ProxyRefusal::Forbidden => 403u16,
                ProxyRefusal::Unauthorized => 401u16,
            },
    {
        match self {
            ProxyRefusal::Forbidden => 403,
            ProxyRefusal::Unauthorized => 401,
        }
    }

    /// The body of the refusal.
    pub fn message(&self) -> (r: String)
        ensures
            r@ == match self {
                ProxyRefusal::Forbidden => "Not a permitted ABS endpoint"@,
                ProxyRefusal::Unauthorized => "Missing Bearer token"@,
            },
    {
        match self {
            ProxyRefusal::Forbidden => String::from_str("Not a permitted ABS endpoint"),
            ProxyRefusal::Unauthorized => String::from_str("Missing Bearer token"),
        }
    }
}

/// The status to relay for an Audiobookshelf answer: its own status where it
/// is a valid HTTP status code (100 to 999), else 502 Bad Gateway.
pub fn relay_status(s: u16) -> (r: u16)
    ensures
        r == if 100 <= s <= 999 { s } else { 502u16 },
{
    if 100 <= s && s <= 999 {
        s
    } else {
        502
    }
}

/// A call to forward: the caller's token and the Audiobookshelf URL.
pub struct ProxyRequest {
    pub token: String,
    pub url: String,
}

/// The token of a `Bearer` authorization value.
pub fn bearer_token_of(header: Option<&str>) -> (r: Option<String>)
    ensures
        match r {
            Some(t) => bearer_token(match header { Some(h) => Some(h@), None => None }) == Some(t@),
            None => bearer_token(match header { Some(h) => Some(h@), None => None }) is None,
        },
{
    match header {
        None => None,
        Some(h) => {
            if starts_with_text(h, "Bearer ") {
                proof {
                    reveal_strlit("Bearer ");
                }
                let n = h.unicode_len();
                Some(String::from_str(h.substring_char(7, n)))
            } else {
                None
            }
        },
    }
}

/// The text with every trailing `/` removed.
pub fn trim_trailing_slashes_of(s: &str) -> (r: &str)
    ensures
        r@ == trim_trailing_slashes(s@),
{
    let n = s.unicode_len();
    let mut end: usize = n;
    assert(s@.subrange(0, n as int) =~= s@);
    while end > 0 && s.get_char(end - 1) == '/'
        invariant
            n == s@.len(),
            end <= n,
            trim_trailing_slashes(s@.subrange(0, end as int)) == trim_trailing_slashes(s@),
        decreases end,
    {
        proof {
            assert(s@.subrange(0, end - 1) =~= s@.subrange(0, end as int).drop_last());
        }
        end = end - 1;
    }
    s.substring_char(0, end)
}

/// Decides what the proxy does with a request: refuse it (see `proxy_allowed`
/// and `bearer_token`), or forward it with the caller's token to `proxy_url`.
pub fn plan_proxy(
    method: &str,
    path: &str,
    query: Option<&str>,
    authorization: Option<&str>,
    abs_base_url: &str,
) -> (r: Result<ProxyRequest, ProxyRefusal>)
    ensures
        !proxy_allowed(method@, path@) ==> r matches Err(ProxyRefusal::Forbidden),
        proxy_allowed(method@, path@) ==> match bearer_token(match authorization { Some(h) => Some(h@), None => None }) {
            None => r matches Err(ProxyRefusal::Unauthorized),
            Some(t) => r matches Ok(p) && p.token@ == t
                && p.url@ == proxy_url(abs_base_url@, path@, match query { Some(q) => Some(q@), None => None }),
        },
{
    if !proxy_path_allowed(method, path) {
        return Err(ProxyRefusal::Forbidden);
    }
    let token = match bearer_token_of(authorization) {
        Some(t) => t,
        None => {
            return Err(ProxyRefusal::Unauthorized);
        },
    };
    let base = trim_trailing_slashes_of(abs_base_url);
    let mut url = String::from_str(base);
    url.append("/");
    url.append(path);
    match query {
        Some(q) => {
            if q.unicode_len() > 0 {
                url.append("?");
                url.append(q);
            }
        },
        None => {},
    }
    Ok(ProxyRequest { token, url })
}

} // verus!

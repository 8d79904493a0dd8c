//! Request routing helpers: address validation, rewriting a request's
//! URI to another path on the same authority, and telling websocket
//! upgrade requests apart.

use vstd::prelude::*;
use std::str::FromStr;
use crate::text::{owned, str_eq, string_push_str};

verus! {

/// Whether `regex` finds a match of `pattern` in `haystack`, or `None`
/// when `pattern` does not compile.
pub uninterp spec fn regex_is_match(pattern: Seq<char>, haystack: Seq<char>) -> Option<bool>;

/// Compiles `pattern` with `regex::Regex::new` and tells whether
/// `Regex::is_match` finds a match in `haystack`; `None` when the
/// pattern does not compile. The answer is named, not stated.
#[verifier::external_body]
fn regex_match(pattern: &str, haystack: &str) -> (res: Option<bool>)
    ensures
        res == regex_is_match(pattern@, haystack@),
{
    match regex::Regex::new(pattern) {
        Ok(re) => Some(re.is_match(haystack)),
        Err(_) => None,
    }
}

/// The pattern of a dotted-decimal IPv4 address with a port.
pub open spec fn ipv4_with_port_pattern() -> Seq<char> {
    "^((25[0-5]|2[0-4][0-9]|1[0-9]{2}|[1-9]?[0-9])\\.){3}(25[0-5]|2[0-4][0-9]|1[0-9]{2}|[1-9]?[0-9]):([0-9]{1,5})$"@
}

/// Whether `addr` is a dotted-decimal IPv4 address followed by `:` and a
/// port of one to five digits, as the address pattern matches it.
pub fn is_valid_ipv4_with_port(addr: &str) -> (res: bool)
    ensures
        res == (regex_is_match(ipv4_with_port_pattern(), addr@) == Some(true)),
{
    let pattern =
        "^((25[0-5]|2[0-4][0-9]|1[0-9]{2}|[1-9]?[0-9])\\.){3}(25[0-5]|2[0-4][0-9]|1[0-9]{2}|[1-9]?[0-9]):([0-9]{1,5})$";
    match regex_match(pattern, addr) {
        Some(b) => b,
        None => false,
    }
}

#[verifier::external_type_specification]
#[verifier::external_body]
pub struct ExInvalidUri(http::uri::InvalidUri);

/// The parts of a URI that routing reads.
pub struct UriParts {
    pub scheme: Option<String>,
    pub authority: Option<String>,
    pub path_and_query: Option<String>,
}

/// The parts of a URI, by their text.
pub type UriView = (Option<Seq<char>>, Option<Seq<char>>, Option<Seq<char>>);

/// The text of an optional string.
pub open spec fn opt_text(s: Option<String>) -> Option<Seq<char>> {
    match s {
        Some(t) => Some(t@),
        None => None,
    }
}

impl View for UriParts {
    type V = UriView;

    open spec fn view(&self) -> UriView {
        (opt_text(self.scheme), opt_text(self.authority), opt_text(self.path_and_query))
    }
}

/// The parts of the URI that `http` parses from `text`, or `None` when
/// it is no URI.
pub uninterp spec fn uri_parse(text: Seq<char>) -> Option<UriView>;

/// Parses `text` with `http::Uri::from_str` and hands out its scheme,
/// authority and path-and-query as text; the error is `http`'s own. The
/// parts are named, not stated.
#[verifier::external_body]
fn parse_uri(text: &str) -> (res: Result<UriParts, http::uri::InvalidUri>)
    ensures
        match res {
            Ok(p) => uri_parse(text@) == Some(p@),
            Err(_) => uri_parse(text@) is None,
        },
{
    match http::Uri::from_str(text) {
        Ok(u) => Ok(UriParts {
            scheme: u.scheme_str().map(|s| s.to_owned()),
            authority: u.authority().map(|a| a.as_str().to_owned()),
            path_and_query: u.path_and_query().map(|p| p.as_str().to_owned()),
        }),
        Err(e) => Err(e),
    }
}

/// Why a request's URI could not be rewritten.
#[derive(Clone, Copy, Debug)]
pub enum UriError {
    /// The named part of the URI is missing.
    NoneOption(&'static str),
    /// The rewritten URI does not parse.
    InvalidUri,
}

/// The text a URI is rewritten to: the same scheme and authority with
/// `path` as path, or just `path` when the URI has no scheme.
pub open spec fn rewritten_text(scheme: Option<Seq<char>>, authority: Seq<char>, path: Seq<char>) -> Seq<char> {
    match scheme {
        Some(s) => s + "://"@ + authority + path,
        None => path,
    }
}

/// The outcome of rewriting a URI with parts `uri` to `path`.
pub open spec fn reset_outcome(uri: UriView, path: Seq<char>) -> Option<Option<UriView>> {
    match uri.1 {
        None => None,
        Some(authority) => Some(uri_parse(rewritten_text(uri.0, authority, path))),
    }
}

/// Rewrites `uri` to the same scheme and authority with `mod_path` as its
/// path (just `mod_path` when `uri` has no scheme).
pub fn reset_uri_path(uri: &UriParts, mod_path: &str) -> (res: Result<UriParts, UriError>)
    ensures
        match res {
            Ok(p) => reset_outcome(uri@, mod_path@) == Some(Some(p@)),
            Err(UriError::NoneOption(_)) => reset_outcome(uri@, mod_path@) is None,
            Err(UriError::InvalidUri) => reset_outcome(uri@, mod_path@) == Some(None::<UriView>),
        },
{
    let authority = match &uri.authority {
        Some(a) => a,
        None => {
            return Err(UriError::NoneOption("uri.authority"));
        },
    };
    let mut text = String::new();
    match &uri.scheme {
        Some(s) => {
            proof { reveal_strlit("://"); }
            string_push_str(&mut text, s.as_str());
            string_push_str(&mut text, "://");
            string_push_str(&mut text, authority.as_str());
            string_push_str(&mut text, mod_path);
        },
        None => {
            string_push_str(&mut text, mod_path);
        },
    }
    assert(text@ =~= rewritten_text(opt_text(uri.scheme), authority@, mod_path@));
    match parse_uri(text.as_str()) {
        Ok(p) => Ok(p),
        Err(_) => Err(UriError::InvalidUri),
    }
}

/// The path-and-query of `uri` together with `uri` rewritten to
/// `mod_path`.
pub fn get_modify_path_url(uri: &UriParts, mod_path: &str) -> (res: Result<(String, UriParts), UriError>)
    ensures
        match res {
            Ok((path, p)) => uri.path_and_query matches Some(q) && path@ == q@
                && reset_outcome(uri@, mod_path@) == Some(Some(p@)),
            Err(UriError::NoneOption(_)) => uri.path_and_query is None || reset_outcome(
                uri@,
                mod_path@,
            ) is None,
            Err(UriError::InvalidUri) => uri.path_and_query is Some && reset_outcome(uri@, mod_path@)
                == Some(None::<UriView>),
        },
{
    let path = match &uri.path_and_query {
        Some(p) => p.clone(),
        None => {
            return Err(UriError::NoneOption("uri.path_and_query"));
        },
    };
    let rewritten = reset_uri_path(uri, mod_path)?;
    Ok((path, rewritten))
}

/// The path-and-query a redirected request keeps as its origin: its own,
/// or `/` when it has none.
pub fn origin_path(uri: &UriParts) -> (res: String)
    ensures
        res@ == match opt_text(uri.path_and_query) {
            Some(q) => q,
            None => "/"@,
        },
{
    match &uri.path_and_query {
        Some(p) => p.clone(),
        None => {
            proof { reveal_strlit("/"); }
            owned("/")
        },
    }
}

/// The URI as redirected to `path`: rewritten when the rewrite succeeds,
/// kept as it was otherwise.
pub open spec fn redirected(uri: UriView, path: Seq<char>) -> UriView {
    match reset_outcome(uri, path) {
        Some(Some(p)) => p,
        _ => uri,
    }
}

/// The path-and-query a request keeps as its origin.
pub open spec fn origin_of(uri: UriView) -> Seq<char> {
    match uri.2 {
        Some(q) => q,
        None => "/"@,
    }
}

/// Redirects a request's URI to `path` on the same authority, and hands
/// back the path-and-query it had, which the request carries on. A URI
/// that cannot be rewritten is kept as it is.
pub fn redirect_req(uri: &mut UriParts, path: &str) -> (origin: String)
    ensures
        final(uri)@ == redirected(old(uri)@, path@),
        origin@ == origin_of(old(uri)@),
{
    let origin = origin_path(uri);
    match reset_uri_path(uri, path) {
        Ok(p) => {
            *uri = p;
        },
        Err(_) => {},
    }
    origin
}

/// The path of a path-and-query: the part before the first `?`, or `/`
/// when that part is empty, as `http` reads it.
pub open spec fn path_of(pq: Seq<char>) -> Seq<char> {
    let p = match crate::conf::first_index_of(pq, '?') {
        Some(i) => pq.take(i),
        None => pq,
    };
    if p.len() == 0 {
        "/"@
    } else {
        p
    }
}

/// The path of a path-and-query.
fn pq_path(pq: &str) -> (res: String)
    ensures
        res@ == path_of(pq@),
{
    let p = match crate::conf::split_once_char(pq, '?') {
        Some((before, _)) => before,
        None => owned(pq),
    };
    if p.unicode_len() == 0 {
        proof { reveal_strlit("/"); }
        owned("/")
    } else {
        p
    }
}

/// Whether a request asks for the endpoint feed.
pub open spec fn is_feed(uri: UriView) -> bool {
    match uri.2 {
        Some(q) => path_of(q) == "/coral-proxy-endpoints"@,
        None => false,
    }
}

/// Where HTTP/3 requests are routed: the endpoint feed is served where it
/// was asked for; every other request is redirected to the proxy route
/// (`/reset`), its origin kept. Returns the origin when redirected.
pub fn route_h3(uri: &mut UriParts) -> (res: Option<String>)
    ensures
        is_feed(old(uri)@) ==> (res is None && final(uri)@ == old(uri)@),
        !is_feed(old(uri)@) ==> (res matches Some(o) && o@ == origin_of(old(uri)@) && final(uri)@
            == redirected(old(uri)@, "/reset"@)),
{
    let feed = match &uri.path_and_query {
        Some(q) => {
            let p = pq_path(q.as_str());
            str_eq(p.as_str(), "/coral-proxy-endpoints")
        },
        None => false,
    };
    if feed {
        None
    } else {
        Some(redirect_req(uri, "/reset"))
    }
}

/// Lower case as std's `str::to_lowercase` computes it (Unicode rules).
pub uninterp spec fn unicode_lowercase(s: Seq<char>) -> Seq<char>;

/// Whether every character is ASCII.
pub open spec fn all_ascii(s: Seq<char>) -> bool {
    forall|i: int| 0 <= i < s.len() ==> (#[trigger] s[i] as int) < 128
}

/// ASCII lower case: `A`..=`Z` mapped to `a`..=`z`, all else kept.
pub open spec fn ascii_lowercase(s: Seq<char>) -> Seq<char> {
    Seq::new(
        s.len(),
        |i: int|
            if 65 <= s[i] as int <= 90 {
                (s[i] as int + 32) as char
            } else {
                s[i]
            },
    )
}

/// The lower case of `s`, by std's `str::to_lowercase`. Its Unicode rules
/// are named, not stated; on ASCII text it maps `A`..=`Z` to `a`..=`z`
/// and keeps everything else, as std documents for ASCII.
#[verifier::external_body]
fn to_lowercase(s: &str) -> (res: String)
    ensures
        res@ == unicode_lowercase(s@),
        all_ascii(s@) ==> res@ == ascii_lowercase(s@),
{
    s.to_lowercase()
}

/// Whether a header's text, lower-cased, is `expected`.
fn lower_is(text: Option<&str>, expected: &str) -> (res: bool)
    ensures
        res == (text matches Some(t) && unicode_lowercase(t@) == expected@),
{
    match text {
        Some(t) => {
            let l = to_lowercase(t);
            str_eq(l.as_str(), expected)
        },
        None => false,
    }
}

/// Whether a request asks to be upgraded to a websocket: a `GET` whose
/// `connection` header reads `upgrade` and whose `upgrade` header reads
/// `websocket` (in any case), carrying a websocket key. A header whose
/// value is not text counts as absent.
pub fn is_websocket_upgrade(
    connection: Option<&str>,
    upgrade: Option<&str>,
    has_key: bool,
    is_get: bool,
) -> (res: bool)
    ensures
        res == ((connection matches Some(c) && unicode_lowercase(c@) == "upgrade"@) && (
        upgrade matches Some(u) && unicode_lowercase(u@) == "websocket"@) && has_key && is_get),
{
    lower_is(connection, "upgrade") && lower_is(upgrade, "websocket") && has_key && is_get
}

/// A rewrite keeps the URI's own scheme and authority: the text handed to
/// the parser begins with the URI's scheme, then `://`, then its
/// authority, and ends with the new path; a URI without a scheme is
/// rewritten to the path alone.
pub proof fn lemma_rewrite_keeps_scheme(uri: UriView, path: Seq<char>)
    ensures
        uri.1 is None ==> reset_outcome(uri, path) is None,
        uri.1 matches Some(a) ==> reset_outcome(uri, path) == Some(
            uri_parse(rewritten_text(uri.0, a, path)),
        ),
        uri.1 matches Some(a) ==> match uri.0 {
            Some(s) => {
                let t = rewritten_text(uri.0, a, path);
                let n = s.len() as int;
                let m = a.len() as int;
                &&& t.len() == s.len() + 3 + a.len() + path.len()
                &&& t.take(s.len() as int) == s
                &&& t[n] == ':' && t[n + 1] == '/' && t[n + 2] == '/'
                &&& t.subrange(n + 3, n + 3 + m) == a
                &&& t.skip(n + 3 + m) == path
            },
            None => rewritten_text(uri.0, a, path) == path,
        },
{
    reveal_strlit("://");
    match uri.1 {
        Some(a) => match uri.0 {
            Some(s) => {
                let t = rewritten_text(uri.0, a, path);
                let n = s.len() as int;
                let m = a.len() as int;
                assert(t == s + "://"@ + a + path);
                assert(t.take(s.len() as int) =~= s);
                assert(t.subrange(n + 3, n + 3 + m) =~= a);
                assert(t.skip(n + 3 + m) =~= path);
            },
            None => {},
        },
        None => {},
    }
}

} // verus!

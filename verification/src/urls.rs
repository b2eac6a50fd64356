//! URLs as the CLI reads them: the parts of a parsed URL, origin validation,
//! relative resolution and query strings.

use vstd::prelude::*;

use crate::error::CliError;
use crate::text::str_eq;

verus! {

/// One `key=value` pair of an `application/x-www-form-urlencoded` query, decoded.
pub struct QueryPair {
    pub key: String,
    pub value: String,
}

/// The parts of a parsed absolute URL that the CLI reads.
pub struct UrlParts {
    /// The whole URL as the parser serializes it.
    pub serialization: String,
    pub scheme: String,
    pub username: String,
    pub password: Option<String>,
    /// The host as a string; IPv6 addresses are given between brackets.
    pub host: Option<String>,
    /// The port, or `None` when it is absent or the scheme's default.
    pub port: Option<u16>,
    pub path: String,
    pub query: Option<String>,
    pub fragment: Option<String>,
    pub cannot_be_a_base: bool,
    /// The ASCII serialization of the URL's origin, e.g. `https://example.com`.
    pub origin: String,
}

/// The mathematical value of a `UrlParts`.
pub struct UrlPartsView {
    pub serialization: Seq<char>,
    pub scheme: Seq<char>,
    pub username: Seq<char>,
    pub password: Option<Seq<char>>,
    pub host: Option<Seq<char>>,
    pub port: Option<u16>,
    pub path: Seq<char>,
    pub query: Option<Seq<char>>,
    pub fragment: Option<Seq<char>>,
    pub cannot_be_a_base: bool,
    pub origin: Seq<char>,
}

/// The view of an optional string.
pub open spec fn opt_str_view(o: Option<String>) -> Option<Seq<char>> {
    match o {
        Some(s) => Some(s@),
        None => None,
    }
}

impl View for UrlParts {
    type V = UrlPartsView;

    open spec fn view(&self) -> UrlPartsView {
        UrlPartsView {
            serialization: self.serialization@,
            scheme: self.scheme@,
            username: self.username@,
            password: opt_str_view(self.password),
            host: opt_str_view(self.host),
            port: self.port,
            path: self.path@,
            query: opt_str_view(self.query),
            fragment: opt_str_view(self.fragment),
            cannot_be_a_base: self.cannot_be_a_base,
            origin: self.origin@,
        }
    }
}

/// The view of a parse result.
pub open spec fn opt_url_view(o: Option<UrlParts>) -> Option<UrlPartsView> {
    match o {
        Some(u) => Some(u@),
        None => None,
    }
}

/// The pairs of a decoded query, as values.
pub open spec fn pairs_view(v: Seq<QueryPair>) -> Seq<(Seq<char>, Seq<char>)> {
    Seq::new(v.len(), |i: int| (v[i].key@, v[i].value@))
}

/// What `url::Url::parse` makes of `input`: the parts of the URL, or `None` where it refuses it.
pub uninterp spec fn url_parse(input: Seq<char>) -> Option<UrlPartsView>;

/// The serialization of `url::Url::join(base, input)`, or `None` where it fails.
pub uninterp spec fn url_join(base: Seq<char>, input: Seq<char>) -> Option<Seq<char>>;

/// The serialization of the URL `url` after `query_pairs_mut().append_pair(key, value)`.
pub uninterp spec fn url_append_pair(url: Seq<char>, key: Seq<char>, value: Seq<char>) -> Option<
    Seq<char>,
>;

/// The decoded pairs that `url::form_urlencoded::parse` reads from `query`.
pub uninterp spec fn form_urlencoded_pairs(query: Seq<char>) -> Seq<(Seq<char>, Seq<char>)>;

/// Whether a scheme is `http` or `https`.
pub open spec fn is_http_scheme(scheme: Seq<char>) -> bool {
    scheme == "http"@ || scheme == "https"@
}

/// Parses an absolute URL with `url::Url::parse` and reads its parts.
/// Claims that the parts are the named function `url_parse` of the input, and that an `http`
/// or `https` URL (a special scheme, which the parser always gives a path) that can be a base
/// has a path starting with `/`. Of other schemes nothing is claimed about the path: for
/// `foo://host` it is empty.
#[verifier::external_body]
fn parse_url_parts(input: &str) -> (r: Option<UrlParts>)
    ensures
        opt_url_view(r) == url_parse(input@),
        r matches Some(u) ==> (is_http_scheme(u.scheme@) && !u.cannot_be_a_base ==> u.path@.len()
            > 0 && u.path@[0] == '/'),
{
    let u = url::Url::parse(input).ok()?;
    Some(UrlParts {
        serialization: u.as_str().to_owned(),
        scheme: u.scheme().to_owned(),
        username: u.username().to_owned(),
        password: u.password().map(str::to_owned),
        host: u.host_str().map(str::to_owned),
        port: u.port(),
        path: u.path().to_owned(),
        query: u.query().map(str::to_owned),
        fragment: u.fragment().map(str::to_owned),
        cannot_be_a_base: u.cannot_be_a_base(),
        origin: u.origin().ascii_serialization(),
    })
}

/// Resolves `input` against the URL serialized as `base` with `url::Url::join`.
/// Claims only that the result is the named function `url_join` of both arguments.
#[verifier::external_body]
pub(crate) fn join_url(base: &str, input: &str) -> (r: Option<String>)
    ensures
        opt_str_view(r) == url_join(base@, input@),
{
    let base = url::Url::parse(base).ok()?;
    base.join(input).ok().map(String::from)
}

/// Appends one form-encoded pair to the query of the URL serialized as `url`, with
/// `url::form_urlencoded::Serializer::append_pair` (through `Url::query_pairs_mut`).
/// Claims only that the result is the named function `url_append_pair` of the arguments.
#[verifier::external_body]
pub(crate) fn append_query_pair(url: &str, key: &str, value: &str) -> (r: Option<String>)
    ensures
        opt_str_view(r) == url_append_pair(url@, key@, value@),
{
    let mut url = url::Url::parse(url).ok()?;
    url.query_pairs_mut().append_pair(key, value);
    Some(String::from(url))
}

/// Decodes a query string with `url::form_urlencoded::parse`, the decoder behind
/// `Url::query_pairs`. Claims only that the pairs are the named function `form_urlencoded_pairs`.
#[verifier::external_body]
pub(crate) fn decode_query(query: &str) -> (r: Vec<QueryPair>)
    ensures
        pairs_view(r@) == form_urlencoded_pairs(query@),
{
    url::form_urlencoded::parse(query.as_bytes()).map(
        |(key, value)| QueryPair { key: key.into_owned(), value: value.into_owned() },
    ).collect()
}

/// Parses an absolute URL.
pub fn parse_url(input: &str) -> (r: Option<UrlParts>)
    ensures
        opt_url_view(r) == url_parse(input@),
        r matches Some(u) ==> (is_http_scheme(u.scheme@) && !u.cannot_be_a_base ==> u.path@.len()
            > 0 && u.path@[0] == '/'),
{
    parse_url_parts(input)
}

/// Whether a parsed URL is an origin the CLI may send credentials to: HTTPS, or HTTP on
/// `127.0.0.1` or `[::1]`, without user information, query, fragment or a path other than `/`.
pub open spec fn acceptable_origin(u: UrlPartsView) -> bool {
    let secure = u.scheme == "https"@;
    let local_http = u.scheme == "http"@ && (u.host == Some("127.0.0.1"@) || u.host == Some(
        "[::1]"@,
    ));
    &&& secure || local_http
    &&& !u.cannot_be_a_base
    &&& u.query is None
    &&& u.fragment is None
    &&& u.username.len() == 0
    &&& u.password is None
    &&& (u.path.len() == 0 || u.path == "/"@)
}

/// The message that refuses a URL given through `option`.
pub open spec fn origin_refusal(option: Seq<char>) -> Seq<char> {
    option + " must be an HTTPS origin or a loopback HTTP origin"@
}

fn host_is_loopback(host: &Option<String>) -> (r: bool)
    ensures
        r == (opt_str_view(*host) == Some("127.0.0.1"@) || opt_str_view(*host) == Some(
            "[::1]"@,
        )),
{
    match host {
        Some(h) => str_eq(h.as_str(), "127.0.0.1") || str_eq(h.as_str(), "[::1]"),
        None => false,
    }
}

/// Decides `acceptable_origin` for parsed parts.
pub fn is_acceptable_origin(u: &UrlParts) -> (r: bool)
    ensures
        r == acceptable_origin(u@),
{
    let is_secure = str_eq(u.scheme.as_str(), "https");
    let is_local_http = str_eq(u.scheme.as_str(), "http") && host_is_loopback(&u.host);
    let root_path = u.path.as_str().is_empty() || str_eq(u.path.as_str(), "/");
    (is_secure || is_local_http) && !u.cannot_be_a_base && u.query.is_none()
        && u.fragment.is_none() && u.username.as_str().is_empty() && u.password.is_none()
        && root_path
}

/// Validates the URL given through the command-line option `option` as an origin and
/// returns it with the path `/`.
pub fn normalize_origin(url: &str, option: &str) -> (r: Result<UrlParts, CliError>)
    ensures
        match r {
            Ok(u) => url_parse(url@) == Some(u@) && acceptable_origin(u@) && u.path@ == "/"@,
            Err(e) => e matches CliError::InvalidInput { message } && message@ == origin_refusal(
                option@,
            ) && !(url_parse(url@) matches Some(u) && acceptable_origin(u)),
        },
{
    let refuse = {
        let mut message = option.to_owned();
        message.append(" must be an HTTPS origin or a loopback HTTP origin");
        CliError::InvalidInput { message }
    };
    let u = match parse_url_parts(url) {
        Some(u) => u,
        None => return Err(refuse),
    };
    if !is_acceptable_origin(&u) {
        return Err(refuse);
    }
    proof {
        reveal_strlit("/");
        assert(u.path@ =~= "/"@);
    }
    Ok(u)
}

/// Validates the `--auth-url` origin of D6E Auth.
pub fn normalize_auth_url(url: &str) -> (r: Result<UrlParts, CliError>)
    ensures
        match r {
            Ok(u) => url_parse(url@) == Some(u@) && acceptable_origin(u@) && u.path@ == "/"@,
            Err(e) => e matches CliError::InvalidInput { message } && message@ == origin_refusal(
                "--auth-url"@,
            ) && !(url_parse(url@) matches Some(u) && acceptable_origin(u)),
        },
{
    normalize_origin(url, "--auth-url")
}

} // verus!

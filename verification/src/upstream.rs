//! The upstream side of forwarding: which incoming headers are not passed on,
//! and the upstream URL built from a provider's base URL.
use vstd::prelude::*;
use crate::text::{eq_ignore_ascii_case, str_eq, str_eq_ignore_ascii_case};

verus! {

/// A parsed URL (`url::Url`), carried as an opaque value.
#[verifier::external_type_specification]
#[verifier::external_body]
pub struct ExUrl(url::Url);

/// Why `url::Url::parse` refused a text (`url::ParseError`).
#[verifier::external_type_specification]
#[verifier::external_body]
pub struct ExUrlParseError(url::ParseError);

/// What `url::Url::parse` gives for a text: the parsed URL, or why the text
/// was refused. It depends on the text alone.
pub uninterp spec fn url_parse(input: Seq<char>) -> Result<url::Url, url::ParseError>;

/// The URL that `url::Url::set_path` leaves when it gives `u` the path `path`.
pub uninterp spec fn url_with_path(u: url::Url, path: Seq<char>) -> url::Url;

/// The URL that `url::Url::set_query` leaves when it gives `u` the query
/// `query` (`None` removes the query).
pub uninterp spec fn url_with_query(u: url::Url, query: Option<Seq<char>>) -> url::Url;

/// The length in bytes of the text of a URL (`url::Url::as_str`).
pub uninterp spec fn url_text_len(u: url::Url) -> nat;

/// The largest offset that a `url::Url` keeps (its offsets are `u32`).
pub open spec fn url_offset_limit() -> int {
    0xFFFF_FFFF
}

/// Whether giving `u` a path of `path_bytes` bytes keeps every offset of the
/// URL within `u32`: each byte of the path is written as at most three bytes
/// (percent-encoding), and the setter adds at most a few separators.
pub open spec fn path_fits(u: url::Url, path_bytes: int) -> bool {
    url_text_len(u) + 3 * path_bytes + 4 <= url_offset_limit()
}

/// Whether giving `u` a query of `query_bytes` bytes keeps every offset of
/// the URL within `u32`: the `?` and at most three bytes per byte of the
/// query.
pub open spec fn query_fits(u: url::Url, query_bytes: int) -> bool {
    url_text_len(u) + 3 * query_bytes + 1 <= url_offset_limit()
}

/// The view of an optional text.
pub open spec fn opt_text(query: Option<&str>) -> Option<Seq<char>> {
    match query {
        Some(q) => Some(q@),
        None => None,
    }
}

/// The byte length of an optional text (`str::len`), 0 for `None`.
pub open spec fn opt_text_bytes(query: Option<&str>) -> int {
    match query {
        Some(q) => q.len() as int,
        None => 0,
    }
}

/// `url::Url::parse`: its result, parsed URL or error, is a function of the
/// text alone. It returns `Err(Overflow)` rather than panicking on texts too
/// long for its offsets.
#[verifier::external_body]
fn parse_url(input: &str) -> (r: Result<url::Url, url::ParseError>)
    ensures
        r == url_parse(input@),
{
    url::Url::parse(input)
}

/// `url::Url::as_str(..).len()`: the byte length of the URL's text.
#[verifier::external_body]
fn url_len(url: &url::Url) -> (r: usize)
    ensures
        r as nat == url_text_len(*url),
{
    url.as_str().len()
}

/// `url::Url::set_path`: replaces the URL's path. The result is a function
/// of the URL and the path. The call unwraps `u32` offsets of the URL's text
/// (before the path is written, and after it); it writes each byte of the
/// path as at most three bytes and adds at most a few separators, so the
/// bound of `path_fits` rules out those panics.
#[verifier::external_body]
fn set_url_path(url: &mut url::Url, path: &str)
    requires
        path_fits(*old(url), path.len() as int),
    ensures
        *final(url) == url_with_path(*old(url), path@),
{
    url.set_path(path)
}

/// `url::Url::set_query`: replaces the URL's query, or removes it for
/// `None`. The result is a function of the URL and the query. The call
/// unwraps the `u32` offset of the query's start and of the fragment that
/// follows it; it writes the `?` and each byte of the query as at most three
/// bytes, so the bound of `query_fits` rules out those panics.
#[verifier::external_body]
fn set_url_query(url: &mut url::Url, query: Option<&str>)
    requires
        query_fits(*old(url), opt_text_bytes(query)),
    ensures
        *final(url) == url_with_query(*old(url), opt_text(query)),
{
    url.set_query(query)
}

/// Why an upstream URL could not be built.
#[derive(Debug, Clone, Copy, PartialEq, Eq)]
pub enum UpstreamUrlError {
    /// The provider's base URL is not an absolute URL.
    InvalidBaseUrl(url::ParseError),
    /// The URL's text would pass the `u32` offsets that a `url::Url` keeps.
    UrlTooLong,
}

/// What `build_upstream_url` gives: the base URL with the request's path and
/// then its query in place of its own, or why it could not be built.
pub open spec fn upstream_url_outcome(base: Seq<char>, path: &str, query: Option<&str>) -> Result<
    url::Url,
    UpstreamUrlError,
> {
    match url_parse(base) {
        Err(e) => Err(UpstreamUrlError::InvalidBaseUrl(e)),
        Ok(u) => {
            let with_path = url_with_path(u, path@);
            if path_fits(u, path.len() as int) && query_fits(with_path, opt_text_bytes(query)) {
                Ok(url_with_query(with_path, opt_text(query)))
            } else {
                Err(UpstreamUrlError::UrlTooLong)
            }
        },
    }
}

/// Whether the byte counts fit the offset limit, computed without overflow.
fn fits_limit(text_len: usize, added_bytes: usize, slack: u64) -> (r: bool)
    requires
        slack <= 4,
    ensures
        r <==> text_len + 3 * added_bytes + slack <= url_offset_limit(),
{
    let limit: u64 = 0xFFFF_FFFF;
    let t: u64 = text_len as u64;
    let a: u64 = added_bytes as u64;
    if t > limit || a > limit {
        return false;
    }
    t + 3 * a + slack <= limit
}

/// The upstream URL of a request: the provider's base URL with the request's
/// path and query in place of its own. Fails with the parse error when the
/// base URL does not parse, and with `UrlTooLong` where the URL's text could
/// pass the offsets that `url::Url` keeps.
pub fn build_upstream_url(base_url: &str, path: &str, query: Option<&str>) -> (r: Result<
    url::Url,
    UpstreamUrlError,
>)
    ensures
        r == upstream_url_outcome(base_url@, path, query),
{
    match parse_url(base_url) {
        Ok(url) => {
            let mut url = url;
            if !fits_limit(url_len(&url), path.len(), 4) {
                return Err(UpstreamUrlError::UrlTooLong);
            }
            set_url_path(&mut url, path);
            let query_bytes: usize = match query {
                Some(q) => q.len(),
                None => 0,
            };
            if !fits_limit(url_len(&url), query_bytes, 1) {
                return Err(UpstreamUrlError::UrlTooLong);
            }
            set_url_query(&mut url, query);
            Ok(url)
        },
        Err(error) => Err(UpstreamUrlError::InvalidBaseUrl(error)),
    }
}

/// Whether an incoming header is not forwarded upstream: `host`,
/// `connection`, `x-target` (ASCII case ignored), or a header that the
/// gateway sets itself. Header names come lower-cased.
pub open spec fn skips_forward_header(name: Seq<char>, extra_names: Seq<String>) -> bool {
    ||| name == "host"@
    ||| name == "connection"@
    ||| eq_ignore_ascii_case(name, "x-target"@)
    ||| exists|i: int| 0 <= i < extra_names.len() && (#[trigger] extra_names[i])@ == name
}

/// Whether an incoming header is not forwarded (see `skips_forward_header`).
pub fn should_skip_forward_header(name: &str, extra_names: &[String]) -> (r: bool)
    ensures
        r == skips_forward_header(name@, extra_names@),
{
    if str_eq(name, "host") || str_eq(name, "connection") || str_eq_ignore_ascii_case(
        name,
        "x-target",
    ) {
        return true;
    }
    let n = extra_names.len();
    let mut i: usize = 0;
    while i < n
        invariant
            n == extra_names@.len(),
            i <= n,
            forall|j: int| 0 <= j < i ==> (#[trigger] extra_names@[j])@ != name@,
        decreases n - i,
    {
        if str_eq(extra_names[i].as_str(), name) {
            return true;
        }
        i = i + 1;
    }
    false
}

/// Every header that the gateway sets itself is skipped, whichever of the
/// gateway's names it carries.
pub proof fn lemma_gateway_set_headers_are_skipped(name: Seq<char>, extra_names: Seq<String>, i: int)
    requires
        0 <= i < extra_names.len(),
        extra_names[i]@ == name,
    ensures
        skips_forward_header(name, extra_names),
{
}

/// A header that is none of `host`, `connection`, `x-target` (ASCII case
/// ignored) and that the gateway does not set itself is forwarded.
pub proof fn lemma_other_headers_are_forwarded(name: Seq<char>, extra_names: Seq<String>)
    requires
        name != "host"@,
        name != "connection"@,
        !eq_ignore_ascii_case(name, "x-target"@),
        forall|i: int| 0 <= i < extra_names.len() ==> (#[trigger] extra_names[i])@ != name,
    ensures
        !skips_forward_header(name, extra_names),
{
}

} // verus!

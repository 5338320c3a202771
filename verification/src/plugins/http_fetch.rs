//! The text side of the router's plain-HTTP policy fetch: reading an
//! `http://` URL, writing the GET request and reading the response.
use vstd::prelude::*;
use crate::plugins::policy_router::SimpleHttpUrl;
use crate::text::{
    cat2, cat5, contains_seq, find_first, find_first_exec, lemma_find_from, split_once,
    split_once_exec, starts_with, str_contains, strip_prefix_exec,
};

verus! {

/// An ASCII decimal digit.
pub open spec fn is_ascii_digit(c: char) -> bool {
    '0' <= c && c <= '9'
}

/// The value of a string of decimal digits.
pub open spec fn digits_value(s: Seq<char>) -> nat
    decreases s.len(),
{
    if s.len() == 0 {
        0
    } else {
        digits_value(s.drop_last()) * 10 + ((s.last() as u32) - ('0' as u32)) as nat
    }
}

/// `s` without one leading `+`.
pub open spec fn unsigned_digits(s: Seq<char>) -> Seq<char> {
    if s.len() > 0 && s[0] == '+' {
        s.drop_first()
    } else {
        s
    }
}

/// The text of a `u16`: an optional `+`, then one or more ASCII digits whose
/// value is at most 65535.
pub open spec fn u16_text(s: Seq<char>) -> bool {
    let d = unsigned_digits(s);
    &&& d.len() > 0
    &&& forall|i: int| 0 <= i < d.len() ==> is_ascii_digit(#[trigger] d[i])
    &&& digits_value(d) <= 65535
}

/// `str::parse::<u16>`. As the documentation of `u16::from_str_radix`
/// states, the text must be an optional `+` followed by digits only, and the
/// value must fit in a `u16`; on success the value is returned. On failure
/// the error's `Display` text is returned, of which nothing is stated.
#[verifier::external_body]
fn parse_u16(s: &str) -> (r: Result<u16, String>)
    ensures
        match r {
            Ok(v) => u16_text(s@) && v as nat == digits_value(unsigned_digits(s@)),
            Err(_) => !u16_text(s@),
        },
{
    s.parse::<u16>().map_err(|error| error.to_string())
}

/// What follows `http://`.
pub open spec fn url_rest(raw: Seq<char>) -> Seq<char> {
    raw.subrange("http://"@.len() as int, raw.len() as int)
}

/// The authority (`host[:port]`) of the text after the scheme.
pub open spec fn url_authority(rest: Seq<char>) -> Seq<char> {
    match split_once(rest, "/"@) {
        Some((a, _)) => a,
        None => rest,
    }
}

/// The path of the text after the scheme: from the first `/`, or `/`.
pub open spec fn url_path(rest: Seq<char>) -> Seq<char> {
    match split_once(rest, "/"@) {
        Some((_, p)) => "/"@ + p,
        None => "/"@,
    }
}

/// The host of an authority: what comes before the first `:`.
pub open spec fn url_host(authority: Seq<char>) -> Seq<char> {
    match split_once(authority, ":"@) {
        Some((h, _)) => h,
        None => authority,
    }
}

/// The port text of an authority: what follows the first `:`.
pub open spec fn url_port_text(authority: Seq<char>) -> Option<Seq<char>> {
    match split_once(authority, ":"@) {
        Some((_, p)) => Some(p),
        None => None,
    }
}

/// The port of an authority: the value of its port text, or 80.
pub open spec fn url_port(authority: Seq<char>) -> nat {
    match url_port_text(authority) {
        Some(p) => digits_value(unsigned_digits(p)),
        None => 80,
    }
}

/// Reads `http://host[:port][/path]`. Fails on another scheme, on a port
/// that is not a `u16`, and on an empty host, in that order.
pub fn parse_http_url(raw: &str) -> (r: Result<SimpleHttpUrl, String>)
    ensures
        !starts_with(raw@, "http://"@) ==> (r matches Err(m) && m@
            == "only http:// URLs are supported"@),
        starts_with(raw@, "http://"@) ==> {
            let auth = url_authority(url_rest(raw@));
            match url_port_text(auth) {
                Some(p) if !u16_text(p) => r matches Err(m) && starts_with(
                    m@,
                    "invalid URL port '"@ + p + "': "@,
                ),
                _ => if url_host(auth).len() == 0 {
                    r matches Err(m) && m@ == "URL host is required"@
                } else {
                    r matches Ok(u) && u.host@ == url_host(auth) && u.port as nat == url_port(
                        auth,
                    ) && u.path@ == url_path(url_rest(raw@))
                },
            }
        },
{
    proof {
        reveal_strlit("http://");
    }
    let without_scheme = match strip_prefix_exec(raw, "http://") {
        Some(rest) => rest,
        None => return Err(String::from_str("only http:// URLs are supported")),
    };
    let (authority, path) = match split_once_exec(without_scheme, "/") {
        Some((authority, rest)) => (authority, cat2("/", rest)),
        None => (without_scheme, String::from_str("/")),
    };
    let (host, port): (&str, u16) = match split_once_exec(authority, ":") {
        Some((host, port_text)) => match parse_u16(port_text) {
            Ok(port) => (host, port),
            Err(error) => {
                let m = cat5("invalid URL port '", port_text, "': ", error.as_str(), "");
                proof {
                    reveal_strlit("");
                    let pre = "invalid URL port '"@ + port_text@ + "': "@;
                    assert(m@.subrange(0, pre.len() as int) =~= pre);
                }
                return Err(m);
            },
        },
        None => (authority, 80),
    };
    if host.unicode_len() == 0 {
        return Err(String::from_str("URL host is required"));
    }
    Ok(SimpleHttpUrl { host: String::from_str(host), port, path })
}

/// The GET request that fetches a policy from `url`.
pub fn http_get_request(url: &SimpleHttpUrl) -> (r: String)
    ensures
        r@ == "GET "@ + url.path@ + " HTTP/1.1\r\nHost: "@ + url.host@
            + "\r\nConnection: close\r\nAccept: application/json\r\n\r\n"@,
{
    cat5(
        "GET ",
        url.path.as_str(),
        " HTTP/1.1\r\nHost: ",
        url.host.as_str(),
        "\r\nConnection: close\r\nAccept: application/json\r\n\r\n",
    )
}

/// The first line of `head` as `str::lines` gives it: up to the first `\n`
/// without a `\r` just before it; the whole text when it has no `\n`; none
/// for empty text.
pub open spec fn first_line(head: Seq<char>) -> Option<Seq<char>> {
    if head.len() == 0 {
        None
    } else {
        match find_first(head, "\n"@) {
            Some(i) => {
                let l = head.subrange(0, i);
                Some(
                    if l.len() > 0 && l.last() == '\r' {
                        l.drop_last()
                    } else {
                        l
                    },
                )
            },
            None => Some(head),
        }
    }
}

fn first_line_exec(head: &str) -> (r: Option<&str>)
    ensures
        match r {
            Some(l) => first_line(head@) == Some(l@),
            None => first_line(head@) is None,
        },
{
    let n = head.unicode_len();
    if n == 0 {
        return None;
    }
    match find_first_exec(head, "\n") {
        Some(i) => {
            proof {
                lemma_find_from(head@, "\n"@, 0);
            }
            let l = head.substring_char(0, i);
            if i > 0 && l.get_char(i - 1) == '\r' {
                Some(l.substring_char(0, i - 1))
            } else {
                Some(l)
            }
        },
        None => Some(head),
    }
}

/// The body of an HTTP response that answered 200: the text after the first
/// blank line, provided the status line contains ` 200 `.
pub fn http_response_body(response: &str) -> (r: Result<String, String>)
    ensures
        match split_once(response@, "\r\n\r\n"@) {
            None => r matches Err(m) && m@ == "response missing header/body separator"@,
            Some((head, body)) => match first_line(head) {
                None => r matches Err(m) && m@ == "response missing status line"@,
                Some(status) => if contains_seq(status, " 200 "@) {
                    r matches Ok(b) && b@ == body
                } else {
                    r matches Err(m) && m@ == "unexpected response status: "@ + status
                },
            },
        },
{
    let (head, body) = match split_once_exec(response, "\r\n\r\n") {
        Some(parts) => parts,
        None => return Err(String::from_str("response missing header/body separator")),
    };
    let status_line = match first_line_exec(head) {
        Some(l) => l,
        None => return Err(String::from_str("response missing status line")),
    };
    if !str_contains(status_line, " 200 ") {
        return Err(cat2("unexpected response status: ", status_line));
    }
    Ok(String::from_str(body))
}

} // verus!

//! Remote asset ingestion: link validation, the streaming byte-size
//! ceiling, and content-type normalization.
//!
//! The ceiling is enforced on the running total after every received
//! chunk, never on the declared content length alone — a dishonest or
//! absent header changes nothing. The network edge awaits one chunk at
//! a time and feeds it through `ingest_chunk`, aborting the download
//! the instant the total crosses the ceiling.

use vstd::prelude::*;

use crate::text::trim;
use crate::text::trim_spec;

verus! {

/// How a remote asset fetch is configured: the request timeout and
/// the byte-size ceiling.
#[derive(Clone, Copy, Debug, PartialEq, Eq, Structural)]
pub struct RemoteFetchConfig {
    pub timeout_ms: u64,
    pub max_image_size: usize,
}

impl RemoteFetchConfig {
    pub fn new(timeout_ms: u64, max_image_size: usize) -> (r: RemoteFetchConfig)
        ensures
            r.timeout_ms == timeout_ms,
            r.max_image_size == max_image_size,
    {
        RemoteFetchConfig { timeout_ms, max_image_size }
    }
}

/// A fetched remote asset: its bytes and the declared content type,
/// if any. Scoped to one fetch.
#[derive(Clone, Debug)]
pub struct RemoteAsset {
    pub bytes: Vec<u8>,
    pub content_type: Option<String>,
}

/// Why a remote fetch failed.
#[derive(Clone, Debug, PartialEq, Eq)]
pub enum RemoteFetchError {
    /// The request itself failed, with the transport's message.
    RequestFailed(String),
    /// The remote server answered with a non-2xx status.
    Status(u16),
    /// The asset crosses the configured ceiling.
    TooLarge { limit: usize, actual: usize },
}

/// Accepts exactly the 2xx responses of the remote server.
pub fn check_remote_status(status: u16) -> (r: Result<(), RemoteFetchError>)
    ensures
        r is Ok <==> (200 <= status && status < 300),
        r matches Err(e) ==> e == RemoteFetchError::Status(status),
{
    if status >= 200 && status < 300 {
        Ok(())
    } else {
        Err(RemoteFetchError::Status(status))
    }
}

/// Rejects early on an honest content-length header that already
/// exceeds the ceiling. A missing or lying header passes; the running
/// total still catches it.
pub fn check_declared_length(declared: Option<u64>, limit: usize) -> (r: Result<
    (),
    RemoteFetchError,
>)
    ensures
        match declared {
            Option::None => r is Ok,
            Option::Some(length) => {
                let claimed = if length <= usize::MAX {
                    length as int
                } else {
                    usize::MAX as int
                };
                if claimed > limit {
                    r matches Err(RemoteFetchError::TooLarge { limit: l, actual }) && l == limit
                        && actual == claimed
                } else {
                    r is Ok
                }
            },
        },
{
    let length = match declared {
        None => {
            return Ok(());
        },
        Some(length) => length,
    };
    let claimed: usize = if length <= usize::MAX as u64 {
        length as usize
    } else {
        usize::MAX
    };
    if claimed > limit {
        Err(RemoteFetchError::TooLarge { limit, actual: claimed })
    } else {
        Ok(())
    }
}

/// Adds one received chunk to the running body, unless the new total
/// would cross the ceiling: then the body is left as it stands and the
/// error reports both the limit and the total that crossed it.
pub fn ingest_chunk(body: &mut Vec<u8>, chunk: &[u8], limit: usize) -> (r: Result<
    (),
    RemoteFetchError,
>)
    requires
        old(body)@.len() + chunk@.len() <= usize::MAX,
    ensures
        ({
            let total = old(body)@.len() + chunk@.len();
            if total > limit {
                &&& r matches Err(RemoteFetchError::TooLarge { limit: l, actual }) && l == limit
                    && actual == total
                &&& final(body)@ == old(body)@
            } else {
                &&& r is Ok
                &&& final(body)@ == old(body)@ + chunk@
            }
        }),
{
    let total = body.len() + chunk.len();
    if total > limit {
        return Err(RemoteFetchError::TooLarge { limit, actual: total });
    }
    body.extend_from_slice(chunk);
    Ok(())
}

/// The number of leading characters of `s` before the first `;`.
pub open spec fn semi_prefix_len(s: Seq<char>) -> int
    decreases s.len(),
{
    if s.len() == 0 || s[0] == ';' {
        0
    } else {
        1 + semi_prefix_len(s.subrange(1, s.len() as int))
    }
}

proof fn lemma_semi_prefix_len(s: Seq<char>, i: int)
    requires
        0 <= i <= s.len(),
        forall|j: int| 0 <= j < i ==> s[j] != ';',
        i < s.len() ==> s[i] == ';',
    ensures
        semi_prefix_len(s) == i,
    decreases i,
{
    if s.len() > 0 && s[0] != ';' {
        lemma_semi_prefix_len(s.subrange(1, s.len() as int), i - 1);
    }
}

/// A declared content type normalized as the gateway reads it: the
/// part before any `;` parameters, whitespace trimmed.
pub open spec fn normalized_content_type(s: Seq<char>) -> Seq<char> {
    trim_spec(s.subrange(0, semi_prefix_len(s)))
}

/// Normalizes a declared content type: media type only, trimmed.
pub fn normalize_content_type(raw: &str) -> (r: String)
    ensures
        r@ == normalized_content_type(raw@),
{
    let n = raw.unicode_len();
    let mut i: usize = 0;
    while i < n && raw.get_char(i) != ';'
        invariant
            0 <= i <= n,
            n == raw@.len(),
            forall|j: int| 0 <= j < i ==> raw@[j] != ';',
        decreases n - i,
    {
        i = i + 1;
    }
    proof {
        lemma_semi_prefix_len(raw@, i as int);
    }
    let head = raw.substring_char(0, i);
    let trimmed = trim(head);
    String::from_str(trimmed)
}

/// Names what the URL parser reads from a link: its scheme and
/// whether it has a host, or nothing when the link is not an absolute
/// URL.
pub uninterp spec fn url_scheme_host(link: Seq<char>) -> Option<(Seq<char>, bool)>;

/// Relies on `url::Url::parse`, `Url::scheme` and `Url::host_str`.
#[verifier::external_body]
fn parse_link_parts(link: &str) -> (r: Option<(String, bool)>)
    ensures
        match r {
            Some(p) => url_scheme_host(link@) == Some((p.0@, p.1)),
            None => url_scheme_host(link@) is None,
        },
{
    match url::Url::parse(link) {
        Ok(u) => {
            let has_host = u.host_str().is_some();
            Some((u.scheme().to_string(), has_host))
        },
        Err(_) => None,
    }
}

/// Whether a string parses as an absolute URL at all.
pub fn url_ok(link: &str) -> (r: bool)
    ensures
        r == (url_scheme_host(link@) is Some),
{
    parse_link_parts(link).is_some()
}

/// Whether parsed link parts pass the gateway's rule: an absolute
/// http or https URL with a host.
pub open spec fn link_parts_ok(parts: Option<(Seq<char>, bool)>) -> bool {
    match parts {
        Option::None => false,
        Option::Some(p) => (p.0 == "http"@ || p.0 == "https"@) && p.1,
    }
}

/// Validates a remote link: it must be an absolute http or https URL
/// with a host. The error carries the message shown to the caller.
pub fn validate_remote_link(link: &str) -> (r: Result<(), String>)
    ensures
        r is Ok <==> link_parts_ok(url_scheme_host(link@)),
        r matches Err(m) ==> m@ == "link must be an absolute http or https url"@,
{
    match parse_link_parts(link) {
        None => Err(String::from_str("link must be an absolute http or https url")),
        Some((scheme, has_host)) => {
            if (crate::text::str_eq(scheme.as_str(), "http") || crate::text::str_eq(
                scheme.as_str(),
                "https",
            )) && has_host {
                Ok(())
            } else {
                Err(String::from_str("link must be an absolute http or https url"))
            }
        },
    }
}

} // verus!

//! UUID-based request correlation identifiers.

use vstd::prelude::*;

verus! {

/// The HTTP header name for request correlation.
pub const REQUEST_ID_HEADER: &'static str = "X-Request-Id";

/// Names what the UUID parser accepts: whether `s` is a UUID in one
/// of its textual forms.
pub uninterp spec fn is_uuid_text(s: Seq<char>) -> bool;

/// Relies on `uuid::Uuid::parse_str`.
#[verifier::external_body]
fn uuid_parses(s: &str) -> (r: bool)
    ensures
        r == is_uuid_text(s@),
{
    uuid::Uuid::parse_str(s).is_ok()
}

/// Relies on `uuid::Uuid::new_v4` and its hyphenated rendering: a
/// fresh random UUID; whatever is drawn, the text is 36 characters
/// and parses back as a UUID.
#[verifier::external_body]
fn fresh_uuid_string() -> (r: String)
    ensures
        r@.len() == 36,
        is_uuid_text(r@),
{
    uuid::Uuid::new_v4().to_string()
}

/// A UUID-based identifier for correlating logs and traces to a
/// single request.
#[derive(Clone, Debug, PartialEq, Eq)]
pub struct RequestId {
    id: String,
}

impl RequestId {
    /// Every identifier holds a UUID text.
    pub closed spec fn wf(self) -> bool {
        is_uuid_text(self.id@)
    }

    /// The identifier's text.
    pub closed spec fn text(self) -> Seq<char> {
        self.id@
    }

    /// Creates a new random request ID. Whatever is drawn, its text
    /// parses back as a UUID, so a fresh id round-trips through
    /// `parse`.
    pub fn new() -> (r: RequestId)
        ensures
            r.wf(),
            is_uuid_text(r.text()),
            r.text().len() == 36,
    {
        RequestId { id: fresh_uuid_string() }
    }

    /// Returns the request ID as a string slice.
    pub fn as_str(&self) -> (r: &str)
        ensures
            r@ == self.text(),
    {
        self.id.as_str()
    }

    /// Accepts a request ID handed in by a caller; exactly the UUID
    /// texts parse.
    pub fn parse(s: &str) -> (r: Option<RequestId>)
        ensures
            r is Some <==> is_uuid_text(s@),
            r matches Some(id) ==> id.wf() && id.text() == s@,
    {
        if uuid_parses(s) {
            Some(RequestId { id: String::from_str(s) })
        } else {
            None
        }
    }
}

impl Default for RequestId {
    /// A fresh random identifier, round-tripping as `new`'s does.
    fn default() -> (r: RequestId)
        ensures
            r.wf(),
            is_uuid_text(r.text()),
    {
        RequestId::new()
    }
}

} // verus!

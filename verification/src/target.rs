//! Targets: the URLs a run exercises.
//!
//! A [`Target`] keeps the URL exactly as the caller wrote it, so the string
//! handed to the outgoing request is the very string that was parsed — the
//! round trip is exact, with no normalization of its own.  Whether a string
//! is a valid URL is decided by the same parser the HTTP client uses.

use vstd::prelude::*;
use crate::errors::RunError;

verus! {

/// Whether `hyper`'s URI parser accepts the string.  The grammar is the
/// parser's own; this name stands for its verdict, a function of the
/// characters alone.
pub uninterp spec fn uri_ok(s: Seq<char>) -> bool;

/// Relies on `hyper::Uri`'s `FromStr` (the `http` crate's URI parser): it
/// returns `Ok` or `Err` purely by the characters of `s`, with no side
/// effect, and never panics.
#[verifier::external_body]
fn check_uri(s: &str) -> (r: bool)
    ensures
        r == uri_ok(s@),
{
    s.parse::<hyper::Uri>().is_ok()
}

/// One target URL, held verbatim.
pub struct Target {
    url: String,
}

impl View for Target {
    type V = Seq<char>;

    closed spec fn view(&self) -> Seq<char> {
        self.url@
    }
}

impl Clone for Target {
    fn clone(&self) -> (r: Self)
        ensures
            r == *self,
    {
        Target { url: self.url.clone() }
    }
}

impl Target {
    /// Whether the held string is a URL the client's parser accepts.
    /// Every `Target` built by [`Target::parse`] satisfies this.
    pub open spec fn wf(self) -> bool {
        uri_ok(self@)
    }

    /// Parse a string into a target.  Succeeds exactly on the strings the
    /// HTTP client's own URI parser accepts, and keeps the string verbatim;
    /// otherwise fails with a parse error naming that exact string.
    pub fn parse(s: &String) -> (r: Result<Target, RunError>)
        ensures
            uri_ok(s@) ==> (r matches Ok(t) && t@ == s@ && t.wf()),
            !uri_ok(s@) ==> (r matches Err(e) && e == (RunError::Parse { input: *s })),
    {
        if check_uri(s.as_str()) {
            Ok(Target { url: s.clone() })
        } else {
            Err(RunError::Parse { input: s.clone() })
        }
    }

    /// The URL string for the outgoing request: exactly the string this
    /// target was parsed from.
    pub fn as_str(&self) -> (r: &str)
        ensures
            r@ == self@,
    {
        self.url.as_str()
    }

    /// The URL as an owned string, unchanged.
    pub fn to_url_string(&self) -> (r: String)
        ensures
            r@ == self@,
    {
        self.url.clone()
    }
}

/// Round trip: a URL string parsed into a target and re-serialized for the
/// outgoing request equals the original string.  The premises are exactly
/// what [`Target::parse`] ensures of a target parsed from `s` and what
/// [`Target::as_str`] ensures of the string serialized from that target;
/// the target stores the URL verbatim, so no normalization intervenes.
pub proof fn lemma_parse_roundtrip(s: Seq<char>, t: Target, out: Seq<char>)
    requires
        uri_ok(s),
        t@ == s,
        out == t@,
    ensures
        out == s,
{
}

} // verus!

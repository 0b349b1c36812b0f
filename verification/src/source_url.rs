//! The source URL as the pipeline reads it: the normalized serialization,
//! the host, the path, and the host again when it is a domain name rather
//! than an address. Parsing is done by the `url` crate; the pipeline's
//! logic only ever reads these parts.

use vstd::prelude::*;

verus! {

/// The parts of a parsed absolute URL. Produced by [`SourceUrl::parse`];
/// `full` is the URL's normalized serialization.
pub struct SourceUrl {
    pub full: String,
    pub host: Option<String>,
    pub path: String,
    pub domain: Option<String>,
}

/// What `url::Url::parse` makes of a string: `None` when the string is not
/// an absolute URL, otherwise the serialization, host, path, and
/// domain-shaped host. A function of the input string alone.
pub uninterp spec fn url_parts_of(s: Seq<char>) -> Option<
    (Seq<char>, Option<Seq<char>>, Seq<char>, Option<Seq<char>>),
>;

/// Relies on `url::Url::parse` and the accessors `as_str`, `host_str`,
/// `path` and `domain`: all are functions of the input string alone;
/// `domain` is the host exactly when the host is a domain name.
#[verifier::external_body]
fn parse_url(s: &str) -> (r: Option<SourceUrl>)
    ensures
        r is Some <==> url_parts_of(s@) is Some,
        r matches Some(u) ==> url_parts_of(s@) matches Some(p) && {
            &&& u.full@ == p.0
            &&& match (&u.host, p.1) {
                (Some(h), Some(hp)) => h@ == hp,
                (None, None) => true,
                _ => false,
            }
            &&& u.path@ == p.2
            &&& match (&u.domain, p.3) {
                (Some(d), Some(dp)) => d@ == dp,
                (None, None) => true,
                _ => false,
            }
        },
{
    match url::Url::parse(s) {
        Err(_) => None,
        Ok(u) => Some(SourceUrl {
            full: u.as_str().to_string(),
            host: u.host_str().map(|h| h.to_string()),
            path: u.path().to_string(),
            domain: u.domain().map(|d| d.to_string()),
        }),
    }
}

impl SourceUrl {
    /// Parses an absolute URL into its parts; `None` when the string is
    /// not one.
    pub fn parse(s: &str) -> (r: Option<SourceUrl>)
        ensures
            r is Some <==> url_parts_of(s@) is Some,
            r matches Some(u) ==> url_parts_of(s@) matches Some(p) && {
                &&& u.full@ == p.0
                &&& match (&u.host, p.1) {
                    (Some(h), Some(hp)) => h@ == hp,
                    (None, None) => true,
                    _ => false,
                }
                &&& u.path@ == p.2
                &&& match (&u.domain, p.3) {
                    (Some(d), Some(dp)) => d@ == dp,
                    (None, None) => true,
                    _ => false,
                }
            },
    {
        parse_url(s)
    }

    /// The host as the quality lookup reads it: empty when the URL has
    /// none.
    pub open spec fn host_view(&self) -> Seq<char> {
        match self.host {
            Some(h) => h@,
            None => Seq::empty(),
        }
    }

    /// The host, or the empty string when the URL has none.
    pub fn host_or_empty(&self) -> (r: &str)
        ensures
            r@ == self.host_view(),
    {
        match &self.host {
            Some(h) => h.as_str(),
            None => {
                let r = "";
                proof {
                    reveal_strlit("");
                    assert(r@ =~= Seq::<char>::empty());
                }
                r
            },
        }
    }
}

} // verus!

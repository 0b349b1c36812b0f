//! Domain-name parsing against the public suffix list, via the `addr`
//! crate. The pipeline uses the registrable root of a URL's domain to
//! decide which provider owns it.

use vstd::prelude::*;

use crate::source_url::SourceUrl;

verus! {

/// What `addr::parse_domain_name` makes of a host string: `None` when the
/// host is not a well-formed domain name, otherwise the full domain name.
/// A function of the host string alone (the suffix list is compiled in).
pub uninterp spec fn domain_name_of(host: Seq<char>) -> Option<Seq<char>>;

/// The registrable root that `addr` computes for a host string: `None`
/// when the host does not parse or consists of its suffix alone. A
/// function of the host string alone.
pub uninterp spec fn domain_root_of(host: Seq<char>) -> Option<Seq<char>>;

/// Relies on `addr::parse_domain_name` and `addr::domain::Name::as_str`:
/// parsing depends on the input alone, and `as_str` returns the input name
/// itself.
#[verifier::external_body]
fn parse_domain(host: &str) -> (r: Option<String>)
    ensures
        r is Some <==> domain_name_of(host@) is Some,
        r matches Some(d) ==> domain_name_of(host@) == Some(d@) && d@ == host@,
{
    addr::parse_domain_name(host).ok().map(|d| d.as_str().to_string())
}

/// Relies on `addr::parse_domain_name` and `addr::domain::Name::root`:
/// the registrable root depends on the input alone.
#[verifier::external_body]
fn parse_domain_root(host: &str) -> (r: Option<String>)
    ensures
        r is Some <==> domain_root_of(host@) is Some,
        r matches Some(d) ==> domain_root_of(host@) == Some(d@),
{
    addr::parse_domain_name(host).ok().and_then(|d| d.root().map(|x| x.to_string()))
}

pub struct DomainParser;

impl DomainParser {
    /// The URL's host parsed as a domain name, when it is one.
    pub fn get_domain(url: &SourceUrl) -> (r: Option<String>)
        ensures
            match url.domain {
                Option::None => r is None,
                Option::Some(_) => r is Some <==> domain_name_of(url.domain->0@) is Some,
            },
            r matches Some(d) ==> url.domain is Some && domain_name_of(url.domain->0@) == Some(d@)
                && d@ == url.domain->0@,
    {
        match &url.domain {
            None => None,
            Some(h) => parse_domain(h.as_str()),
        }
    }

    /// The root domain (the registrable part) of the URL's host.
    pub fn get_domain_root(url: &SourceUrl) -> (r: Option<String>)
        ensures
            match url.domain {
                Option::None => r is None,
                Option::Some(_) => r is Some <==> domain_root_of(url.domain->0@) is Some,
            },
            r matches Some(d) ==> url.domain is Some && domain_root_of(url.domain->0@) == Some(d@),
    {
        match &url.domain {
            None => None,
            Some(h) => parse_domain_root(h.as_str()),
        }
    }
}

} // verus!

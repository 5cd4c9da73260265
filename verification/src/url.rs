//! URLs as the guards read them: scheme, host, port, and the remainder.

use vstd::prelude::*;
use vstd::string::*;

use crate::error::{Error, UrlFault};

verus! {

/// The host of a URL.
#[derive(Debug, PartialEq, Eq, Hash)]
pub enum Host {
    /// A domain name, in the lower-case ASCII form in which it is compared.
    Domain(String),
    /// An IPv4 address, most significant octet first.
    Ipv4(u32),
    /// An IPv6 address, most significant segment first.
    Ipv6(u128),
}

/// What a [`Host`] stands for.
pub enum HostView {
    Domain(Seq<char>),
    Ipv4(u32),
    Ipv6(u128),
}

impl View for Host {
    type V = HostView;

    open spec fn view(&self) -> HostView {
        match self {
            Host::Domain(name) => HostView::Domain(name@),
            Host::Ipv4(bits) => HostView::Ipv4(*bits),
            Host::Ipv6(bits) => HostView::Ipv6(*bits),
        }
    }
}

/// An absolute URL. User name and password are not part of the model.
#[derive(Debug, PartialEq, Eq, Hash)]
pub struct Url {
    /// The scheme, lower-case, without the colon.
    pub scheme: String,
    /// The host, if the URL has one.
    pub host: Option<Host>,
    /// The port, unless it is the one that the scheme implies.
    pub port: Option<u16>,
    /// What follows the authority: path, query and fragment as written.
    pub rest: String,
}

/// What a [`Url`] stands for.
pub struct UrlView {
    pub scheme: Seq<char>,
    pub host: Option<HostView>,
    pub port: Option<u16>,
    pub rest: Seq<char>,
}

/// Scheme, host and port: what two URLs of one origin share.
pub struct Authority {
    pub scheme: Seq<char>,
    pub host: Option<HostView>,
    pub port: Option<u16>,
}

impl UrlView {
    /// The authority under which the URL lies.
    pub open spec fn authority(self) -> Authority {
        Authority { scheme: self.scheme, host: self.host, port: self.port }
    }
}

/// The view of an optional host.
pub open spec fn host_view(host: Option<Host>) -> Option<HostView> {
    match host {
        Some(h) => Some(h@),
        None => None,
    }
}

impl View for Url {
    type V = UrlView;

    open spec fn view(&self) -> UrlView {
        UrlView {
            scheme: self.scheme@,
            host: host_view(self.host),
            port: self.port,
            rest: self.rest@,
        }
    }
}

/// `url::ParseError`: why a text is no URL. Carried through, never read.
#[verifier::external_type_specification]
#[verifier::external_body]
pub struct ExParseError(url::ParseError);

/// The parts of the URL that `url::Url::parse` reads from a text, `None`
/// where it reads none.
pub uninterp spec fn parsed_url(text: Seq<char>) -> Option<UrlView>;

/// Calls `url::Url::parse` and copies scheme, host, port and the text from
/// the path onwards out of the result. Trusted: the parts are a function
/// of the text alone, named [`parsed_url`]; an error comes exactly where
/// `parse` returns one.
#[verifier::external_body]
fn parse_text(text: &str) -> (r: Result<Url, url::ParseError>)
    ensures
        match r {
            Ok(u) => parsed_url(text@) == Some(u@),
            Err(_) => parsed_url(text@).is_none(),
        },
{
    let u = url::Url::parse(text)?;
    let host = match u.host() {
        None => None,
        Some(url::Host::Domain(name)) => Some(Host::Domain(name.to_string())),
        Some(url::Host::Ipv4(addr)) => Some(Host::Ipv4(u32::from(addr))),
        Some(url::Host::Ipv6(addr)) => Some(Host::Ipv6(u128::from(addr))),
    };
    let rest = u[url::Position::BeforePath..].to_string();
    Ok(Url { scheme: u.scheme().to_string(), host, port: u.port(), rest })
}

impl Clone for Host {
    fn clone(&self) -> (r: Host)
        ensures
            r@ == self@,
    {
        match self {
            Host::Domain(name) => Host::Domain(name.clone()),
            Host::Ipv4(bits) => Host::Ipv4(*bits),
            Host::Ipv6(bits) => Host::Ipv6(*bits),
        }
    }
}

impl Host {
    /// Whether two hosts are the same host.
    pub fn equals(&self, other: &Host) -> (r: bool)
        ensures
            r == (self@ == other@),
    {
        match (self, other) {
            (Host::Domain(a), Host::Domain(b)) => *a == *b,
            (Host::Ipv4(a), Host::Ipv4(b)) => *a == *b,
            (Host::Ipv6(a), Host::Ipv6(b)) => *a == *b,
            _ => false,
        }
    }
}

/// Whether two optional hosts are the same.
pub fn same_host(a: &Option<Host>, b: &Option<Host>) -> (r: bool)
    ensures
        r == (host_view(*a) == host_view(*b)),
{
    match (a, b) {
        (Some(x), Some(y)) => x.equals(y),
        (None, None) => true,
        _ => false,
    }
}

/// Whether two optional ports are the same.
pub fn same_port(a: Option<u16>, b: Option<u16>) -> (r: bool)
    ensures
        r == (a == b),
{
    match (a, b) {
        (Some(x), Some(y)) => x == y,
        (None, None) => true,
        _ => false,
    }
}

impl Clone for Url {
    fn clone(&self) -> (r: Url)
        ensures
            r@ == self@,
    {
        let host = match &self.host {
            Some(h) => Some(h.clone()),
            None => None,
        };
        Url { scheme: self.scheme.clone(), host, port: self.port, rest: self.rest.clone() }
    }
}

impl Url {
    /// Reads an absolute URL from a text.
    pub fn parse(text: &str) -> (r: Result<Url, Error>)
        ensures
            match r {
                Ok(u) => parsed_url(text@) == Some(u@),
                Err(e) => parsed_url(text@).is_none() && e == Error::UrlVerificationError(
                    UrlFault::Malformed,
                ),
            },
    {
        match parse_text(text) {
            Ok(u) => Ok(u),
            Err(_) => Err(Error::UrlVerificationError(UrlFault::Malformed)),
        }
    }

    /// Whether two URLs are the same URL.
    pub fn equals(&self, other: &Url) -> (r: bool)
        ensures
            r == (self@ == other@),
    {
        self.scheme == other.scheme && same_host(&self.host, &other.host) && same_port(
            self.port,
            other.port,
        ) && self.rest == other.rest
    }

    /// Whether two URLs lie under the same authority.
    pub fn same_authority(&self, other: &Url) -> (r: bool)
        ensures
            r == (self@.authority() == other@.authority()),
    {
        self.scheme == other.scheme && same_host(&self.host, &other.host) && same_port(
            self.port,
            other.port,
        )
    }
}

} // verus!

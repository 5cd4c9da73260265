//! The receiving instance: its own name and its policy.

use vstd::prelude::*;
use vstd::string::*;

use crate::url::{Host, HostView, Url, UrlView, same_port};

verus! {

/// The texts that a list of strings holds, in order.
pub open spec fn texts(list: Seq<String>) -> Seq<Seq<char>> {
    list.map_values(|s: String| s@)
}

/// Whether a list of strings holds a given text.
pub fn holds_text(list: &Vec<String>, text: &String) -> (r: bool)
    ensures
        r == texts(list@).contains(text@),
{
    let mut i: usize = 0;
    while i < list.len()
        invariant
            i <= list.len(),
            forall|j: int| 0 <= j < i ==> texts(list@)[j] != text@,
        decreases list.len() - i,
    {
        if list[i] == *text {
            assert(texts(list@)[i as int] == text@);
            return true;
        }
        i += 1;
    }
    false
}

/// The policy of an instance.
#[derive(Debug)]
pub struct Settings {
    /// The schemes a remote URL may use.
    pub allowed_schemes: Vec<String>,
    /// Domains from which nothing is accepted.
    pub blocked_domains: Vec<String>,
    /// Whether loopback, private and link-local hosts are accepted.
    pub allow_private_addresses: bool,
    /// How many remote objects one inbound request may cause to be fetched.
    pub http_fetch_limit: u32,
    /// Whether a fetched object is written to the store.
    pub store_fetched: bool,
}

/// What a [`Settings`] stands for.
pub struct SettingsView {
    pub allowed_schemes: Seq<Seq<char>>,
    pub blocked_domains: Seq<Seq<char>>,
    pub allow_private_addresses: bool,
    pub http_fetch_limit: u32,
    pub store_fetched: bool,
}

impl View for Settings {
    type V = SettingsView;

    open spec fn view(&self) -> SettingsView {
        SettingsView {
            allowed_schemes: texts(self.allowed_schemes@),
            blocked_domains: texts(self.blocked_domains@),
            allow_private_addresses: self.allow_private_addresses,
            http_fetch_limit: self.http_fetch_limit,
            store_fetched: self.store_fetched,
        }
    }
}

impl Default for Settings {
    /// The policy of an instance that is reached over `https` only,
    /// blocks nobody, refuses private addresses, lets one request cause
    /// twenty fetches and stores what it fetches.
    fn default() -> (r: Settings)
        ensures
            r@ == (SettingsView {
                allowed_schemes: seq!["https"@],
                blocked_domains: Seq::empty(),
                allow_private_addresses: false,
                http_fetch_limit: 20,
                store_fetched: true,
            }),
    {
        let mut allowed_schemes: Vec<String> = Vec::new();
        allowed_schemes.push(String::from_str("https"));
        let r = Settings {
            allowed_schemes,
            blocked_domains: Vec::new(),
            allow_private_addresses: false,
            http_fetch_limit: 20,
            store_fetched: true,
        };
        assert(texts(r.allowed_schemes@) =~= seq!["https"@]);
        assert(texts(r.blocked_domains@) =~= Seq::empty());
        r
    }
}

impl Settings {
    /// The same policy, with one more scheme permitted.
    pub fn allow_scheme(self, scheme: &str) -> (r: Settings)
        ensures
            r@ == (SettingsView {
                allowed_schemes: self@.allowed_schemes.push(scheme@),
                ..self@
            }),
    {
        let mut r = self;
        r.allowed_schemes.push(String::from_str(scheme));
        assert(texts(r.allowed_schemes@) =~= self@.allowed_schemes.push(scheme@));
        r
    }

    /// The same policy, with one more domain blocked.
    pub fn block_domain(self, domain: &str) -> (r: Settings)
        ensures
            r@ == (SettingsView {
                blocked_domains: self@.blocked_domains.push(domain@),
                ..self@
            }),
    {
        let mut r = self;
        r.blocked_domains.push(String::from_str(domain));
        assert(texts(r.blocked_domains@) =~= self@.blocked_domains.push(domain@));
        r
    }
}

/// The instance that receives: the name under which it is reached, and its
/// policy. Made once and only read afterwards.
#[derive(Debug)]
pub struct LocalInstance {
    /// The domain name of the instance.
    pub hostname: String,
    /// The port of the instance, unless it is the one that the scheme
    /// implies.
    pub port: Option<u16>,
    /// The policy of the instance.
    pub settings: Settings,
}

/// What a [`LocalInstance`] stands for.
pub struct LocalInstanceView {
    pub hostname: Seq<char>,
    pub port: Option<u16>,
    pub settings: SettingsView,
}

impl LocalInstanceView {
    /// Whether a URL lies on this instance: its host is the instance's
    /// name and its port the instance's port.
    pub open spec fn is_local_url(self, url: UrlView) -> bool {
        url.host == Some(HostView::Domain(self.hostname)) && url.port == self.port
    }

    /// The URL of this instance that is made from a token.
    pub open spec fn object_id(self, token: Seq<char>) -> UrlView {
        UrlView {
            scheme: "https"@,
            host: Some(HostView::Domain(self.hostname)),
            port: self.port,
            rest: "/objects/"@ + token,
        }
    }
}

impl View for LocalInstance {
    type V = LocalInstanceView;

    open spec fn view(&self) -> LocalInstanceView {
        LocalInstanceView { hostname: self.hostname@, port: self.port, settings: self.settings@ }
    }
}

impl LocalInstance {
    /// The instance that is reached under a domain name, and a port
    /// unless that is the default one.
    pub fn new(hostname: String, port: Option<u16>, settings: Settings) -> (r: LocalInstance)
        ensures
            r@ == (LocalInstanceView { hostname: hostname@, port, settings: settings@ }),
    {
        LocalInstance { hostname, port, settings }
    }

    /// The name of the instance.
    pub fn hostname(&self) -> (r: &str)
        ensures
            r@ == self@.hostname,
    {
        self.hostname.as_str()
    }

    /// Whether a URL lies on this instance.
    pub fn is_local_url(&self, url: &Url) -> (r: bool)
        ensures
            r == self@.is_local_url(url@),
    {
        match &url.host {
            Some(Host::Domain(name)) => *name == self.hostname && same_port(url.port, self.port),
            _ => false,
        }
    }

    /// Makes the identifier of a new object of this instance from a
    /// token. It is as fresh as the token is.
    pub fn generate_object_id(&self, token: &str) -> (r: Url)
        ensures
            r@ == self@.object_id(token@),
            self@.is_local_url(r@),
    {
        Url {
            scheme: String::from_str("https"),
            host: Some(Host::Domain(self.hostname.clone())),
            port: self.port,
            rest: String::from_str("/objects/").concat(token),
        }
    }
}

} // verus!

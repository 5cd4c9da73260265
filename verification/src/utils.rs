//! The guards on URLs: pure checks, without network access.

use vstd::prelude::*;
use vstd::string::*;

use crate::error::{Error, UrlFault};
use crate::instance::{Settings, SettingsView, holds_text};
use crate::url::{Host, HostView, Url, UrlView};

verus! {

/// Whether an IPv4 address, as a number, is unspecified, loopback,
/// private or link-local.
pub open spec fn is_private_v4(bits: int) -> bool {
    ||| bits == 0
    ||| 0x0a00_0000 <= bits <= 0x0aff_ffff
    ||| 0x7f00_0000 <= bits <= 0x7fff_ffff
    ||| 0xa9fe_0000 <= bits <= 0xa9fe_ffff
    ||| 0xac10_0000 <= bits <= 0xac1f_ffff
    ||| 0xc0a8_0000 <= bits <= 0xc0a8_ffff
}

/// Whether an IPv6 address, as a number, is unspecified, loopback,
/// unique-local or link-local, or maps such an IPv4 address.
pub open spec fn is_private_v6(bits: int) -> bool {
    ||| bits == 0
    ||| bits == 1
    ||| 0xfc00_0000_0000_0000_0000_0000_0000_0000 <= bits
        <= 0xfdff_ffff_ffff_ffff_ffff_ffff_ffff_ffff
    ||| 0xfe80_0000_0000_0000_0000_0000_0000_0000 <= bits
        <= 0xfebf_ffff_ffff_ffff_ffff_ffff_ffff_ffff
    ||| 0xffff_0000_0000 <= bits <= 0xffff_ffff_ffff && is_private_v4(bits - 0xffff_0000_0000)
}

/// Whether a host is this machine or lies in a private network.
pub open spec fn is_private_host(host: HostView) -> bool {
    match host {
        HostView::Domain(name) => name == "localhost"@,
        HostView::Ipv4(bits) => is_private_v4(bits as int),
        HostView::Ipv6(bits) => is_private_v6(bits as int),
    }
}

/// Whether a host is on a list of blocked domains.
pub open spec fn is_blocked_host(host: HostView, blocked: Seq<Seq<char>>) -> bool {
    host matches HostView::Domain(name) && blocked.contains(name)
}

/// The verdict on a URL under a policy: the first of the faults that
/// applies, in the order scheme, host, block list, private address.
pub open spec fn url_validity(url: UrlView, settings: SettingsView) -> Result<(), Error> {
    if !settings.allowed_schemes.contains(url.scheme) {
        Err(Error::UrlVerificationError(UrlFault::SchemeNotAllowed))
    } else if url.host.is_none() || url.host == Some(HostView::Domain(Seq::<char>::empty())) {
        Err(Error::UrlVerificationError(UrlFault::MissingHost))
    } else if is_blocked_host(url.host.unwrap(), settings.blocked_domains) {
        Err(Error::UrlVerificationError(UrlFault::HostBlocked))
    } else if !settings.allow_private_addresses && is_private_host(url.host.unwrap()) {
        Err(Error::UrlVerificationError(UrlFault::PrivateAddress))
    } else {
        Ok(())
    }
}

/// Whether a host is this machine or lies in a private network.
pub fn host_is_private(host: &Host) -> (r: bool)
    ensures
        r == is_private_host(host@),
{
    match host {
        Host::Domain(name) => *name == String::from_str("localhost"),
        Host::Ipv4(bits) => {
            let b: u32 = *bits;
            b == 0 || (0x0a00_0000 <= b && b <= 0x0aff_ffff) || (0x7f00_0000 <= b && b
                <= 0x7fff_ffff) || (0xa9fe_0000 <= b && b <= 0xa9fe_ffff) || (0xac10_0000 <= b
                && b <= 0xac1f_ffff) || (0xc0a8_0000 <= b && b <= 0xc0a8_ffff)
        },
        Host::Ipv6(bits) => {
            let b: u128 = *bits;
            if b <= 1 {
                true
            } else if 0xfc00_0000_0000_0000_0000_0000_0000_0000 <= b && b
                <= 0xfdff_ffff_ffff_ffff_ffff_ffff_ffff_ffff {
                true
            } else if 0xfe80_0000_0000_0000_0000_0000_0000_0000 <= b && b
                <= 0xfebf_ffff_ffff_ffff_ffff_ffff_ffff_ffff {
                true
            } else if 0xffff_0000_0000 <= b && b <= 0xffff_ffff_ffff {
                let low: u128 = b - 0xffff_0000_0000;
                low == 0 || (0x0a00_0000 <= low && low <= 0x0aff_ffff) || (0x7f00_0000 <= low
                    && low <= 0x7fff_ffff) || (0xa9fe_0000 <= low && low <= 0xa9fe_ffff) || (
                0xac10_0000 <= low && low <= 0xac1f_ffff) || (0xc0a8_0000 <= low && low
                    <= 0xc0a8_ffff)
            } else {
                false
            }
        },
    }
}

/// Succeeds exactly where both URLs lie under the same authority: scheme,
/// host and port.
pub fn verify_domains_match(a: &Url, b: &Url) -> (r: Result<(), Error>)
    ensures
        r == if a@.authority() == b@.authority() {
            Ok::<(), Error>(())
        } else {
            Err(Error::DomainMismatch)
        },
{
    if a.same_authority(b) {
        Ok(())
    } else {
        Err(Error::DomainMismatch)
    }
}

/// Succeeds exactly where the URL uses a permitted scheme and names a
/// host that is neither blocked nor, unless the policy permits it, a
/// private address.
pub fn verify_url_valid(url: &Url, settings: &Settings) -> (r: Result<(), Error>)
    ensures
        r == url_validity(url@, settings@),
{
    if !holds_text(&settings.allowed_schemes, &url.scheme) {
        return Err(Error::UrlVerificationError(UrlFault::SchemeNotAllowed));
    }
    match &url.host {
        None => Err(Error::UrlVerificationError(UrlFault::MissingHost)),
        Some(host) => {
            if let Host::Domain(name) = host {
                if name.as_str().unicode_len() == 0 {
                    assert(name@ =~= Seq::<char>::empty());
                    return Err(Error::UrlVerificationError(UrlFault::MissingHost));
                }
                if holds_text(&settings.blocked_domains, name) {
                    return Err(Error::UrlVerificationError(UrlFault::HostBlocked));
                }
            }
            if !settings.allow_private_addresses && host_is_private(host) {
                return Err(Error::UrlVerificationError(UrlFault::PrivateAddress));
            }
            Ok(())
        },
    }
}

} // verus!

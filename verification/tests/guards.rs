use activitypub_federation::error::{Error, UrlFault};
use activitypub_federation::instance::{LocalInstance, Settings};
use activitypub_federation::url::{Host, Url};
use activitypub_federation::utils::{host_is_private, verify_domains_match, verify_url_valid};

fn url(text: &str) -> Url {
    Url::parse(text).unwrap()
}

#[test]
fn parse_reads_scheme_host_port_and_rest() {
    let u = url("https://a.example/users/alice?page=2#main-key");
    assert_eq!(u.scheme, "https");
    assert_eq!(u.host, Some(Host::Domain("a.example".to_string())));
    assert_eq!(u.port, None);
    assert_eq!(u.rest, "/users/alice?page=2#main-key");
}

#[test]
fn parse_lowers_case_and_drops_the_default_port() {
    let u = url("HTTPS://A.Example:443/x");
    assert_eq!(u.scheme, "https");
    assert_eq!(u.host, Some(Host::Domain("a.example".to_string())));
    assert_eq!(u.port, None);
    assert_eq!(u.rest, "/x");
}

#[test]
fn parse_keeps_a_port_that_is_not_the_default() {
    let u = url("https://a.example:8443/x");
    assert_eq!(u.port, Some(8443));
}

#[test]
fn parse_reads_addresses_as_numbers() {
    assert_eq!(url("http://127.0.0.1/").host, Some(Host::Ipv4(0x7f00_0001)));
    assert_eq!(url("http://[::1]/").host, Some(Host::Ipv6(1)));
    assert_eq!(url("http://10.1.2.3/").host, Some(Host::Ipv4(0x0a01_0203)));
}

#[test]
fn parse_refuses_what_is_no_absolute_url() {
    assert_eq!(
        Url::parse("/users/alice").unwrap_err(),
        Error::UrlVerificationError(UrlFault::Malformed)
    );
    assert_eq!(Url::parse("").unwrap_err(), Error::UrlVerificationError(UrlFault::Malformed));
}

#[test]
fn parse_reads_a_url_without_a_host() {
    let u = url("mailto:alice@a.example");
    assert_eq!(u.scheme, "mailto");
    assert_eq!(u.host, None);
}

#[test]
fn equal_urls_are_equal() {
    assert!(url("https://a.example/x").equals(&url("https://A.example:443/x")));
    assert!(!url("https://a.example/x").equals(&url("https://a.example/y")));
    assert!(!url("https://a.example/x").equals(&url("http://a.example/x")));
    assert!(url("https://a.example/x").clone().equals(&url("https://a.example/x")));
}

#[test]
fn domains_match_under_one_authority() {
    let id = url("https://a.example/activities/1");
    let actor = url("https://a.example/users/alice");
    assert_eq!(verify_domains_match(&id, &actor), Ok(()));
}

#[test]
fn domains_differ_by_host() {
    let id = url("https://evil.example/activities/1");
    let actor = url("https://a.example/users/alice");
    assert_eq!(verify_domains_match(&id, &actor), Err(Error::DomainMismatch));
}

#[test]
fn domains_differ_by_scheme() {
    let id = url("http://a.example/activities/1");
    let actor = url("https://a.example/users/alice");
    assert_eq!(verify_domains_match(&id, &actor), Err(Error::DomainMismatch));
}

#[test]
fn domains_differ_by_port() {
    let id = url("https://a.example:8443/activities/1");
    let actor = url("https://a.example/users/alice");
    assert_eq!(verify_domains_match(&id, &actor), Err(Error::DomainMismatch));
}

#[test]
fn a_plain_https_url_is_valid() {
    let settings = Settings::default();
    assert_eq!(verify_url_valid(&url("https://a.example/users/alice"), &settings), Ok(()));
}

#[test]
fn a_scheme_that_is_not_permitted_is_refused() {
    let settings = Settings::default();
    assert_eq!(
        verify_url_valid(&url("http://a.example/users/alice"), &settings),
        Err(Error::UrlVerificationError(UrlFault::SchemeNotAllowed))
    );
    let settings = Settings::default().allow_scheme("http");
    assert_eq!(verify_url_valid(&url("http://a.example/users/alice"), &settings), Ok(()));
}

#[test]
fn a_url_without_host_is_refused() {
    let settings = Settings::default().allow_scheme("mailto");
    assert_eq!(
        verify_url_valid(&url("mailto:alice@a.example"), &settings),
        Err(Error::UrlVerificationError(UrlFault::MissingHost))
    );
    let empty = Url {
        scheme: "https".to_string(),
        host: Some(Host::Domain(String::new())),
        port: None,
        rest: "/".to_string(),
    };
    assert_eq!(
        verify_url_valid(&empty, &Settings::default()),
        Err(Error::UrlVerificationError(UrlFault::MissingHost))
    );
}

#[test]
fn a_blocked_domain_is_refused() {
    let settings = Settings::default().block_domain("evil.example");
    assert_eq!(
        verify_url_valid(&url("https://evil.example/users/eve"), &settings),
        Err(Error::UrlVerificationError(UrlFault::HostBlocked))
    );
    assert_eq!(verify_url_valid(&url("https://a.example/users/alice"), &settings), Ok(()));
}

#[test]
fn private_addresses_are_refused_unless_permitted() {
    let settings = Settings::default();
    for text in [
        "https://localhost/x",
        "https://127.0.0.1/x",
        "https://10.0.0.1/x",
        "https://172.16.0.1/x",
        "https://172.31.255.255/x",
        "https://192.168.1.1/x",
        "https://169.254.169.254/x",
        "https://0.0.0.0/x",
        "https://[::1]/x",
        "https://[::]/x",
        "https://[fc00::1]/x",
        "https://[fd12:3456::1]/x",
        "https://[fe80::1]/x",
        "https://[::ffff:127.0.0.1]/x",
        "https://[::ffff:10.0.0.1]/x",
    ] {
        assert_eq!(
            verify_url_valid(&url(text), &settings),
            Err(Error::UrlVerificationError(UrlFault::PrivateAddress)),
            "{}",
            text
        );
    }
    let mut open = Settings::default();
    open.allow_private_addresses = true;
    assert_eq!(verify_url_valid(&url("https://127.0.0.1/x"), &open), Ok(()));
}

#[test]
fn public_addresses_are_not_private() {
    let settings = Settings::default();
    for text in [
        "https://8.8.8.8/x",
        "https://172.15.255.255/x",
        "https://172.32.0.0/x",
        "https://11.0.0.0/x",
        "https://128.0.0.1/x",
        "https://192.169.0.0/x",
        "https://[2001:db8::1]/x",
        "https://[fec0::1]/x",
        "https://[::ffff:8.8.8.8]/x",
    ] {
        assert_eq!(verify_url_valid(&url(text), &settings), Ok(()), "{}", text);
    }
    assert!(!host_is_private(&Host::Domain("a.example".to_string())));
    assert!(host_is_private(&Host::Ipv4(0x7fff_ffff)));
    assert!(!host_is_private(&Host::Ipv4(0x8000_0000)));
}

#[test]
fn the_first_fault_in_order_is_reported() {
    let settings = Settings::default().block_domain("localhost");
    assert_eq!(
        verify_url_valid(&url("http://localhost/x"), &settings),
        Err(Error::UrlVerificationError(UrlFault::SchemeNotAllowed))
    );
    assert_eq!(
        verify_url_valid(&url("https://localhost/x"), &settings),
        Err(Error::UrlVerificationError(UrlFault::HostBlocked))
    );
}

#[test]
fn local_urls_are_those_of_the_instance() {
    let local = LocalInstance::new("b.example".to_string(), None, Settings::default());
    assert_eq!(local.hostname(), "b.example");
    assert!(local.is_local_url(&url("https://b.example/users/bob")));
    assert!(local.is_local_url(&url("http://b.example/users/bob")));
    assert!(!local.is_local_url(&url("https://a.example/users/alice")));
    assert!(!local.is_local_url(&url("https://b.example:8080/users/bob")));
    assert!(!local.is_local_url(&url("https://127.0.0.1/users/bob")));
    let dev = LocalInstance::new("localhost".to_string(), Some(8080), Settings::default());
    assert!(dev.is_local_url(&url("http://localhost:8080/users/bob")));
    assert!(!dev.is_local_url(&url("http://localhost/users/bob")));
}

#[test]
fn generated_ids_are_local_and_hold_the_token() {
    let local = LocalInstance::new("b.example".to_string(), None, Settings::default());
    let id = local.generate_object_id("f3a9");
    assert!(local.is_local_url(&id));
    assert_eq!(id, url("https://b.example/objects/f3a9"));
    let other = local.generate_object_id("0b17");
    assert!(!id.equals(&other));
}

#[test]
fn default_settings() {
    let settings = Settings::default();
    assert_eq!(settings.allowed_schemes, vec!["https".to_string()]);
    assert!(settings.blocked_domains.is_empty());
    assert!(!settings.allow_private_addresses);
    assert_eq!(settings.http_fetch_limit, 20);
    assert!(settings.store_fetched);
}

#[test]
fn errors_say_what_they_are() {
    assert_eq!(Error::DomainMismatch.message(), "Domains of identifier and actor do not match");
    assert_eq!(
        Error::UrlVerificationError(UrlFault::LocalOrigin).message(),
        "Activity was sent from local instance"
    );
    assert_eq!(Error::RecursionLimitExceeded.message(), "The request asks for too many remote objects");
    assert_ne!(Error::MalformedPayload.message(), Error::DeliveryFailure.message());
}

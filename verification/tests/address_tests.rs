use rust_scraper::ScrapeError;
use rust_scraper::resolve_address;

#[test]
fn resolve_fills_in_default_secure_port() {
    let a = resolve_address("https://example.com/page").unwrap();
    assert_eq!(a.host, "example.com");
    assert_eq!(a.port, 443);
    assert_eq!(a.path, "/page");
}

#[test]
fn resolve_keeps_explicit_port() {
    let a = resolve_address("https://example.com:8443/q/r").unwrap();
    assert_eq!(a.host, "example.com");
    assert_eq!(a.port, 8443);
    assert_eq!(a.path, "/q/r");
}

#[test]
fn resolve_defaults_path_to_root() {
    let a = resolve_address("https://example.com").unwrap();
    assert_eq!(a.path, "/");
}

#[test]
fn resolve_rejects_non_url() {
    let r = resolve_address("not a url at all");
    assert!(matches!(r, Err(ScrapeError::InvalidAddress)));
}

#[test]
fn resolve_rejects_address_without_host() {
    let r = resolve_address("mailto:someone@example.com");
    assert!(matches!(r, Err(ScrapeError::InvalidAddress)));
}

#[test]
fn authority_joins_host_and_port() {
    let a = resolve_address("https://example.com:8443/p").unwrap();
    assert_eq!(a.authority(), "example.com:8443");
}

#[test]
fn authority_uses_default_port_when_none_given() {
    let a = resolve_address("https://example.com/").unwrap();
    assert_eq!(a.authority(), "example.com:443");
}

#[test]
fn authority_of_low_port_has_no_leading_zeros() {
    let a = resolve_address("https://example.com:7/").unwrap();
    assert_eq!(a.authority(), "example.com:7");
}

#[test]
fn resolve_error_describes_itself() {
    let e = resolve_address("::/::").unwrap_err();
    assert_eq!(e.describe(), "address could not be parsed");
}

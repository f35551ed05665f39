use impit::emulation::Browser;
use impit::tls::KxGroup;
use impit::tls::TlsConfig;

#[test]
fn http3_advertises_h3_alone() {
    let config = TlsConfig::builder().with_http3().build();
    let alpn: Vec<&str> = config.alpn_protocols.iter().map(|s| s.as_str()).collect();
    assert_eq!(alpn, vec!["h3"]);
}

#[test]
fn tcp_advertises_h2_and_http11() {
    let config = TlsConfig::builder().build();
    let alpn: Vec<&str> = config.alpn_protocols.iter().map(|s| s.as_str()).collect();
    assert_eq!(alpn, vec!["h2", "http/1.1"]);
}

#[test]
fn firefox_pins_its_key_exchange_groups() {
    let config = TlsConfig::builder().with_browser(Some(Browser::Firefox)).build();
    assert_eq!(
        config.kx_groups,
        vec![
            KxGroup::X25519,
            KxGroup::Secp256r1,
            KxGroup::Secp384r1,
            KxGroup::Ffdhe2048,
            KxGroup::Ffdhe3072,
        ]
    );
    assert_eq!(config.browser, Some(Browser::Firefox));
    assert_eq!(config.browser_version, 125);
}

#[test]
fn chrome_keeps_the_provider_defaults() {
    let config = TlsConfig::builder().with_browser(Some(Browser::Chrome)).build();
    assert!(config.kx_groups.is_empty());
}

#[test]
fn ech_grease_is_always_advertised() {
    assert!(TlsConfig::builder().build().ech_grease);
    assert!(TlsConfig::builder().with_browser(Some(Browser::Firefox)).build().ech_grease);
}

#[test]
fn permissive_verifier_keeps_the_browser_identity() {
    let config = TlsConfig::builder()
        .with_browser(Some(Browser::Chrome))
        .with_ignore_tls_errors(true)
        .build();
    assert!(config.ignore_tls_errors);
    assert_eq!(config.browser, Some(Browser::Chrome));
}

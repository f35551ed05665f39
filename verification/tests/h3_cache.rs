use impit::http3::H3Engine;
use impit::http3::alpns_advertise_h3;
use impit::text::contains_h3_token;

#[test]
fn unknown_host_has_no_cached_state() {
    let engine = H3Engine::init();
    assert_eq!(engine.cached_support(&"example.com".to_string()), None);
}

#[test]
fn first_probe_write_wins() {
    let mut engine = H3Engine::init();
    let host = "example.com".to_string();
    engine.set_h3_support(&host, false);
    assert_eq!(engine.cached_support(&host), Some(false));
    engine.set_h3_support(&host, true);
    assert_eq!(engine.cached_support(&host), Some(false));
}

#[test]
fn hosts_are_cached_independently() {
    let mut engine = H3Engine::init();
    engine.set_h3_support(&"a.example".to_string(), true);
    engine.set_h3_support(&"b.example".to_string(), false);
    assert_eq!(engine.cached_support(&"a.example".to_string()), Some(true));
    assert_eq!(engine.cached_support(&"b.example".to_string()), Some(false));
    assert_eq!(engine.cached_support(&"c.example".to_string()), None);
}

#[test]
fn alt_svc_promotes_unsupported_host() {
    let mut engine = H3Engine::init();
    let host = "example.com".to_string();
    engine.set_h3_support(&host, false);
    engine.observe_alt_svc(&host, "h3=\":443\"; ma=86400");
    assert_eq!(engine.cached_support(&host), Some(true));
}

#[test]
fn alt_svc_promotes_unknown_host() {
    let mut engine = H3Engine::init();
    let host = "example.com".to_string();
    engine.observe_alt_svc(&host, "h3=\":443\"");
    assert_eq!(engine.cached_support(&host), Some(true));
}

#[test]
fn supported_is_never_downgraded() {
    let mut engine = H3Engine::init();
    let host = "example.com".to_string();
    engine.set_h3_support(&host, true);
    engine.observe_alt_svc(&host, "h2=\":443\"");
    engine.observe_alt_svc(&host, "");
    engine.observe_alt_svc(&host, "clear");
    engine.set_h3_support(&host, false);
    assert_eq!(engine.cached_support(&host), Some(true));
}

#[test]
fn negative_alt_svc_caches_unknown_as_unsupported() {
    let mut engine = H3Engine::init();
    let host = "example.com".to_string();
    engine.observe_alt_svc(&host, "h2=\":443\"");
    assert_eq!(engine.cached_support(&host), Some(false));
}

#[test]
fn h3_dash_tokens_do_not_count() {
    let mut engine = H3Engine::init();
    let host = "example.com".to_string();
    engine.observe_alt_svc(&host, "h3-29=\":443\"");
    assert_eq!(engine.cached_support(&host), Some(false));
}

#[test]
fn alt_svc_token_detection() {
    assert!(contains_h3_token("h3=\":443\""));
    assert!(contains_h3_token("h2=\":443\", h3=\":443\""));
    assert!(contains_h3_token("ma=86400,h3=\":443\""));
    assert!(!contains_h3_token("h3-29=\":443\""));
    assert!(!contains_h3_token("xh3=\":443\""));
    assert!(!contains_h3_token("h2=\":443\""));
    assert!(!contains_h3_token(""));
    assert!(!contains_h3_token("h3"));
}

#[test]
fn alpn_list_detection() {
    assert!(alpns_advertise_h3(&vec!["h2".to_string(), "h3".to_string()]));
    assert!(!alpns_advertise_h3(&vec!["h2".to_string(), "http/1.1".to_string()]));
    assert!(!alpns_advertise_h3(&vec!["h3-29".to_string()]));
    assert!(!alpns_advertise_h3(&Vec::new()));
}

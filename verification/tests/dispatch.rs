use impit::emulation::Browser;
use impit::impit::ErrorType;
use impit::impit::Impit;
use impit::impit::RedirectBehavior;
use impit::impit::RequestStep;
use impit::impit::Transport;
use impit::request::RequestOptions;

fn default_options() -> RequestOptions {
    RequestOptions {
        headers: Vec::new(),
        timeout: None,
        http3_prior_knowledge: false,
    }
}

#[test]
fn ftp_scheme_draws_protocol_error() {
    let impit = Impit::builder().build();
    let r = impit.begin_request(&"ftp://example.com".to_string(), &default_options());
    assert!(matches!(r, Err(ErrorType::UrlProtocolError)));
}

#[test]
fn garbage_url_draws_parsing_error() {
    let impit = Impit::builder().build();
    let r = impit.begin_request(&"not a url at all".to_string(), &default_options());
    assert!(matches!(r, Err(ErrorType::UrlParsingError)));
}

#[test]
fn hostless_url_draws_missing_hostname_error() {
    let impit = Impit::builder().build();
    let r = impit.begin_request(&"mailto:user@example.com".to_string(), &default_options());
    assert!(matches!(r, Err(ErrorType::UrlMissingHostnameError)));
}

#[test]
fn prior_knowledge_without_http3_is_refused() {
    let impit = Impit::builder().build();
    let mut options = default_options();
    options.http3_prior_knowledge = true;
    let r = impit.begin_request(&"https://nohost".to_string(), &options);
    assert!(matches!(r, Err(ErrorType::Http3Disabled)));
}

#[test]
fn prior_knowledge_with_http3_sends_over_quic() {
    let impit = Impit::builder().with_http3().build();
    let mut options = default_options();
    options.http3_prior_knowledge = true;
    match impit.begin_request(&"https://example.com".to_string(), &options) {
        Ok(RequestStep::Send(plan)) => {
            assert_eq!(plan.transport, Transport::Quic);
            assert_eq!(plan.host, "example.com");
            assert!(plan.https);
        }
        other => panic!("expected a QUIC plan, got {:?}", other.is_ok()),
    }
}

#[test]
fn http2_ceiling_sends_over_tcp_without_probing() {
    let impit = Impit::builder().with_browser(Browser::Chrome).build();
    match impit.begin_request(&"http://example.com".to_string(), &default_options()) {
        Ok(RequestStep::Send(plan)) => {
            assert_eq!(plan.transport, Transport::Tcp);
            assert!(!plan.https);
            assert_eq!(plan.timeout, 30000);
            assert_eq!(plan.headers.len(), 12);
            assert_eq!(plan.pseudo_header_order.len(), 6);
        }
        _ => panic!("expected a TCP plan"),
    }
}

#[test]
fn timeout_override_takes_precedence() {
    let impit = Impit::builder().with_default_timeout(5000).build();
    let mut options = default_options();
    options.timeout = Some(250);
    match impit.begin_request(&"https://example.com".to_string(), &options) {
        Ok(RequestStep::Send(plan)) => assert_eq!(plan.timeout, 250),
        _ => panic!("expected a plan"),
    }
}

#[test]
fn unknown_host_is_probed_once_then_cached() {
    let mut impit = Impit::builder().with_http3().build();
    let url = "https://example.com".to_string();
    let host = match impit.begin_request(&url, &default_options()) {
        Ok(RequestStep::Probe(host)) => host,
        _ => panic!("expected a probe for an unknown host"),
    };
    assert_eq!(host, "example.com");
    impit.record_probe_result(&host, false);
    match impit.begin_request(&url, &default_options()) {
        Ok(RequestStep::Send(plan)) => assert_eq!(plan.transport, Transport::Tcp),
        _ => panic!("expected a cached TCP decision, not a second probe"),
    }
    impit.record_probe_result(&host, true);
    match impit.begin_request(&url, &default_options()) {
        Ok(RequestStep::Send(plan)) => assert_eq!(plan.transport, Transport::Tcp),
        _ => panic!("expected the first probe result to win"),
    }
}

#[test]
fn alt_svc_promotion_upgrades_transport() {
    let mut impit = Impit::builder().with_http3().build();
    let url = "https://example.com".to_string();
    let host = "example.com".to_string();
    impit.record_probe_result(&host, false);
    impit.on_response(&host, Transport::Tcp, Some(&"h3=\":443\"; ma=86400".to_string()));
    match impit.begin_request(&url, &default_options()) {
        Ok(RequestStep::Send(plan)) => assert_eq!(plan.transport, Transport::Quic),
        _ => panic!("expected the promoted host to go over QUIC"),
    }
}

#[test]
fn quic_success_writes_nothing() {
    let mut impit = Impit::builder().with_http3().build();
    let host = "example.com".to_string();
    impit.on_response(&host, Transport::Quic, None);
    match impit.begin_request(&"https://example.com".to_string(), &default_options()) {
        Ok(RequestStep::Probe(_)) => {}
        _ => panic!("a QUIC response must not negatively cache the host"),
    }
}

#[test]
fn tcp_success_without_alt_svc_caches_unsupported() {
    let mut impit = Impit::builder().with_http3().build();
    let host = "example.com".to_string();
    impit.on_response(&host, Transport::Tcp, None);
    match impit.begin_request(&"https://example.com".to_string(), &default_options()) {
        Ok(RequestStep::Send(plan)) => assert_eq!(plan.transport, Transport::Tcp),
        _ => panic!("expected the host to be cached as unsupported"),
    }
}

#[test]
fn fallback_reissues_through_vanilla_client() {
    let impit = Impit::builder()
        .with_browser(Browser::Firefox)
        .with_fallback_to_vanilla(true)
        .build();
    match impit.on_send_failure(false) {
        Ok(plan) => {
            assert_eq!(plan.tls.browser, None);
            assert!(!plan.tls.ignore_tls_errors);
            assert!(!plan.http3_prior_knowledge);
            assert!(plan.tls.kx_groups.is_empty());
        }
        Err(_) => panic!("a first failure with fallback enabled must retry, not error"),
    }
}

#[test]
fn failure_without_fallback_surfaces_impersonation_error() {
    let impit = Impit::builder()
        .with_browser(Browser::Firefox)
        .with_fallback_to_vanilla(false)
        .build();
    assert!(matches!(impit.on_send_failure(false), Err(ErrorType::ImpersonationError)));
}

#[test]
fn failure_without_profile_surfaces_impersonation_error() {
    let impit = Impit::builder().with_fallback_to_vanilla(true).build();
    assert!(matches!(impit.on_send_failure(false), Err(ErrorType::ImpersonationError)));
}

#[test]
fn failed_retry_surfaces_transport_error() {
    let impit = Impit::builder()
        .with_browser(Browser::Firefox)
        .with_fallback_to_vanilla(true)
        .build();
    assert!(matches!(impit.on_send_failure(true), Err(ErrorType::TransportError)));
}

#[test]
fn client_plans_follow_the_configuration() {
    let impit = Impit::builder()
        .with_browser(Browser::Firefox)
        .with_http3()
        .with_proxy("http://localhost:8080".to_string())
        .with_default_timeout(10000)
        .with_redirect(RedirectBehavior::ManualRedirect)
        .with_ignore_tls_errors(true)
        .build();
    let base = impit.base_client_plan();
    let alpn: Vec<&str> = base.tls.alpn_protocols.iter().map(|s| s.as_str()).collect();
    assert_eq!(alpn, vec!["h2", "http/1.1"]);
    assert!(!base.http3_prior_knowledge);
    assert_eq!(base.tls.browser, Some(Browser::Firefox));
    assert!(base.tls.ignore_tls_errors);
    assert!(base.tls.ech_grease);
    assert_eq!(base.tls.kx_groups.len(), 5);
    assert_eq!(base.timeout, 10000);
    assert_eq!(base.proxy_url.as_deref(), Some("http://localhost:8080"));
    assert_eq!(base.redirect, RedirectBehavior::ManualRedirect);

    let h3 = impit.h3_client_plan().expect("HTTP/3 was enabled");
    let alpn3: Vec<&str> = h3.tls.alpn_protocols.iter().map(|s| s.as_str()).collect();
    assert_eq!(alpn3, vec!["h3"]);
    assert!(h3.http3_prior_knowledge);
}

#[test]
fn http2_configuration_has_no_quic_client() {
    let impit = Impit::builder().build();
    assert!(impit.h3_client_plan().is_none());
    let base = impit.base_client_plan();
    assert_eq!(base.proxy_url, None);
    assert_eq!(base.redirect, RedirectBehavior::FollowRedirect(10));
}

#[test]
fn parse_url_extracts_scheme_and_host() {
    let impit = Impit::builder().build();
    match impit.parse_url("https://example.com/path?q=1".to_string()) {
        Ok(parts) => {
            assert_eq!(parts.scheme, "https");
            assert_eq!(parts.host.as_deref(), Some("example.com"));
        }
        Err(_) => panic!("a well-formed https URL must parse"),
    }
}

#[test]
fn option_and_browser_defaults() {
    let options = RequestOptions::default();
    assert!(options.headers.is_empty());
    assert_eq!(options.timeout, None);
    assert!(!options.http3_prior_knowledge);
    assert_eq!(Browser::default(), Browser::Chrome);
}

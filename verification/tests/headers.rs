use impit::emulation::Browser;
use impit::http_headers::HttpHeaders;

fn compose_for(
    browser: Option<Browser>,
    custom: Vec<(String, String)>,
) -> (Vec<(String, String)>, Vec<String>) {
    let composed = HttpHeaders::get_builder()
        .with_browser(&browser)
        .with_host(&String::from("example.com"))
        .with_https(true)
        .with_custom_headers(&custom)
        .build()
        .compose();
    (composed.headers, composed.pseudo_header_order)
}

#[test]
fn compose_is_deterministic() {
    let custom = vec![
        ("User-Agent".to_string(), "Y".to_string()),
        ("x-custom".to_string(), "1".to_string()),
    ];
    let (h1, p1) = compose_for(Some(Browser::Firefox), custom.clone());
    let (h2, p2) = compose_for(Some(Browser::Firefox), custom);
    assert_eq!(h1, h2);
    assert_eq!(p1, p2);
}

#[test]
fn chrome_defaults_in_declared_order() {
    let (headers, pseudo) = compose_for(Some(Browser::Chrome), Vec::new());
    let names: Vec<&str> = headers.iter().map(|p| p.0.as_str()).collect();
    assert_eq!(
        names,
        vec![
            "sec-ch-ua",
            "sec-ch-ua-mobile",
            "sec-ch-ua-platform",
            "upgrade-insecure-requests",
            "user-agent",
            "accept",
            "sec-fetch-site",
            "sec-fetch-mode",
            "sec-fetch-user",
            "sec-fetch-dest",
            "accept-encoding",
            "accept-language",
        ]
    );
    assert_eq!(
        pseudo,
        vec![":method", ":authority", ":scheme", ":path", ":protocol", ":status"]
    );
    assert!(headers[4].1.contains("Chrome/125.0.0.0"));
}

#[test]
fn firefox_defaults_in_declared_order() {
    let (headers, pseudo) = compose_for(Some(Browser::Firefox), Vec::new());
    assert_eq!(headers.len(), 11);
    assert_eq!(headers[0].0, "User-Agent");
    assert!(headers[0].1.contains("Firefox/128.0"));
    assert_eq!(headers[10].0, "Priority");
    assert_eq!(headers[10].1, "u=0, i");
    assert_eq!(
        pseudo,
        vec![":method", ":path", ":authority", ":scheme", ":protocol", ":status"]
    );
}

#[test]
fn user_agent_precedence_case_insensitive() {
    let custom = vec![("User-Agent".to_string(), "Y".to_string())];
    let (headers, _) = compose_for(Some(Browser::Chrome), custom);
    let matching: Vec<&(String, String)> = headers
        .iter()
        .filter(|p| p.0.eq_ignore_ascii_case("user-agent"))
        .collect();
    assert_eq!(matching.len(), 1);
    assert_eq!(matching[0].0, "user-agent");
    assert_eq!(matching[0].1, "Y");
    assert_eq!(headers[4], ("user-agent".to_string(), "Y".to_string()));
}

#[test]
fn override_keeps_position_and_default_spelling() {
    let custom = vec![("user-agent".to_string(), "Z".to_string())];
    let (headers, _) = compose_for(Some(Browser::Firefox), custom);
    assert_eq!(headers[0], ("User-Agent".to_string(), "Z".to_string()));
    assert_eq!(headers.len(), 11);
}

#[test]
fn unconsumed_customs_appended_in_order() {
    let custom = vec![
        ("x-b".to_string(), "2".to_string()),
        ("x-a".to_string(), "1".to_string()),
    ];
    let (headers, _) = compose_for(Some(Browser::Chrome), custom);
    assert_eq!(headers.len(), 14);
    assert_eq!(headers[12], ("x-b".to_string(), "2".to_string()));
    assert_eq!(headers[13], ("x-a".to_string(), "1".to_string()));
}

#[test]
fn no_profile_emits_only_customs() {
    let custom = vec![("accept".to_string(), "text/plain".to_string())];
    let (headers, pseudo) = compose_for(None, custom.clone());
    assert_eq!(headers, custom);
    assert!(pseudo.is_empty());
}

#[test]
fn duplicate_custom_first_match_wins() {
    let custom = vec![
        ("ACCEPT".to_string(), "first".to_string()),
        ("Accept".to_string(), "second".to_string()),
    ];
    let (headers, _) = compose_for(Some(Browser::Chrome), custom);
    assert_eq!(headers[5], ("accept".to_string(), "first".to_string()));
    assert_eq!(headers.len(), 12);
}

use zerolimit::error::CommandError;
use zerolimit::version::{
    bearer, check_proxy_version, first_present, pick_latest, version_check_url, ProxyVersionInfo,
    VERSION_CHECK_TIMEOUT_SECS,
};

fn text(s: &str) -> Option<String> {
    Some(s.to_string())
}

#[test]
fn version_url_drops_trailing_slashes() {
    assert_eq!(
        version_check_url("http://localhost:8317"),
        "http://localhost:8317/v0/management/latest-version"
    );
    assert_eq!(
        version_check_url("http://localhost:8317///"),
        "http://localhost:8317/v0/management/latest-version"
    );
    assert_eq!(version_check_url("http://h/api/"), "http://h/api/v0/management/latest-version");
    assert_eq!(version_check_url(""), "/v0/management/latest-version");
    assert_eq!(version_check_url("//"), "/v0/management/latest-version");
    assert_eq!(VERSION_CHECK_TIMEOUT_SECS, 10);
}

#[test]
fn bearer_header() {
    assert_eq!(bearer("secret"), "Bearer secret");
    assert_eq!(bearer(""), "Bearer ");
}

#[test]
fn first_present_prefers_the_first() {
    assert_eq!(first_present(Some(text("a")), Some(text("b"))), text("a"));
    assert_eq!(first_present(None, Some(text("b"))), text("b"));
    assert_eq!(first_present(Some(text("a")), None), text("a"));
    assert_eq!(first_present(None, None), None);
}

#[test]
fn header_that_is_no_text_still_decides() {
    assert_eq!(first_present(Some(None), Some(text("b"))), None);
    assert_eq!(first_present(None, Some(None)), None);
    assert_eq!(
        check_proxy_version(200, Some(None), Some(text("6.0")), None, Some(text("d")), b"{}"),
        Ok(ProxyVersionInfo {
            current_version: None,
            build_date: text("d"),
            latest_version: None
        })
    );
}

#[test]
fn latest_is_decided_by_the_first_member_present() {
    assert_eq!(pick_latest(Some(text("1")), Some(text("2")), Some(text("3"))), text("1"));
    assert_eq!(pick_latest(None, Some(text("2")), Some(text("3"))), text("2"));
    assert_eq!(pick_latest(None, None, Some(text("3"))), text("3"));
    assert_eq!(pick_latest(None, None, None), None);
    assert_eq!(pick_latest(Some(None), Some(text("2")), Some(text("3"))), None);
    assert_eq!(pick_latest(None, Some(None), Some(text("3"))), None);
}

#[test]
fn version_answer_is_read() {
    let info = check_proxy_version(
        200,
        Some(text("6.1.0")),
        Some(text("ignored")),
        None,
        Some(text("2025-01-02")),
        br#"{"latest-version": "6.2.0", "latest": "0.0.1"}"#,
    );
    assert_eq!(
        info,
        Ok(ProxyVersionInfo {
            current_version: text("6.1.0"),
            build_date: text("2025-01-02"),
            latest_version: text("6.2.0"),
        })
    );
}

#[test]
fn version_body_spellings() {
    let latest = |body: &[u8]| check_proxy_version(200, None, None, None, None, body).unwrap().latest_version;
    assert_eq!(latest(br#"{"latest_version": "1.2.3"}"#), text("1.2.3"));
    assert_eq!(latest(br#"{"latest": "4.5.6"}"#), text("4.5.6"));
    assert_eq!(latest(br#"{"latest": "4.5.6", "latest_version": "1.2.3"}"#), text("1.2.3"));
    assert_eq!(latest(br#"{"latest-version": null, "latest": "4.5.6"}"#), None);
    assert_eq!(latest(br#"{"latest-version": 7}"#), None);
    assert_eq!(latest(br#"{"other": "x"}"#), None);
    assert_eq!(latest(br#"["latest"]"#), None);
    assert_eq!(latest(br#""latest""#), None);
    assert_eq!(latest("{\"latest\": \"v\u{e9}\"}".as_bytes()), text("v\u{e9}"));
}

#[test]
fn version_answer_without_headers() {
    assert_eq!(
        check_proxy_version(204, None, None, None, None, b"{}"),
        Ok(ProxyVersionInfo { current_version: None, build_date: None, latest_version: None })
    );
}

#[test]
fn refused_version_check_reports_the_status() {
    assert_eq!(
        check_proxy_version(401, Some(text("6.1.0")), None, None, None, b"{}"),
        Err(CommandError::General("API returned status 401".to_string()))
    );
    assert_eq!(
        check_proxy_version(500, None, None, None, None, b"not json"),
        Err(CommandError::General("API returned status 500".to_string()))
    );
}

#[test]
fn unreadable_version_body_is_reported() {
    for body in [&b"not json"[..], b"", b"{", b"{} trailing"] {
        match check_proxy_version(200, None, None, None, None, body) {
            Err(CommandError::General(message)) => {
                assert!(message.starts_with("Failed to parse response: "), "{}", message);
                assert!(message.len() > "Failed to parse response: ".len());
            }
            other => panic!("unexpected {:?}", other),
        }
    }
}

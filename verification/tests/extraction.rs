//! Tests of the token extractor, the CAS ticket parsing, and their edge
//! cases.

use hkuauth::cas::{parse_cas_redirect, ticket_of_url};
use hkuauth::errors::{AuthError, FlowStage, TokenPattern};
use hkuauth::extract::extract_between;
use hkuauth::scan::{contains_pattern, find_from};

#[test]
fn cas_ticket_scenario() {
    let body = r#"Click <a href="https://x/y?ticket=ABC123">here</a>"#;
    let redirect = parse_cas_redirect(body).unwrap();
    assert_eq!(redirect.url, "https://x/y?ticket=ABC123");
    assert_eq!(redirect.ticket, "ABC123");
}

#[test]
fn cas_ticket_round_trip() {
    let body = r#"<p>Click <a href="https://host/path?a=b&ticket=ST-77-xyz">here</a></p>"#;
    let redirect = parse_cas_redirect(body).unwrap();
    // the ticket is byte-identical to the final `=`-delimited segment of the url
    assert_eq!(redirect.ticket, ticket_of_url(&redirect.url));
    assert_eq!(redirect.ticket, "ST-77-xyz");
}

#[test]
fn ticket_of_url_segments() {
    assert_eq!(ticket_of_url("a=b=c"), "c");
    assert_eq!(ticket_of_url("no-equals-here"), "no-equals-here");
    assert_eq!(ticket_of_url("trailing="), "");
    assert_eq!(ticket_of_url(""), "");
}

#[test]
fn cas_link_absent_is_extraction_error() {
    let r = parse_cas_redirect("<html>no link at all</html>");
    assert_eq!(
        r.unwrap_err(),
        AuthError::Extraction { pattern: TokenPattern::CasRedirectLink }
    );
}

#[test]
fn cas_link_suffix_absent_is_extraction_error() {
    // prefix occurs but no closing anchor follows
    let r = parse_cas_redirect(r#"Click <a href="https://x/y?ticket=A"#);
    assert_eq!(
        r.unwrap_err(),
        AuthError::Extraction { pattern: TokenPattern::CasRedirectLink }
    );
}

#[test]
fn empty_ticket_is_protocol_error() {
    let body = r#"Click <a href="https://x/y?ticket=">here</a>"#;
    let r = parse_cas_redirect(body);
    assert_eq!(
        r.unwrap_err(),
        AuthError::Protocol { stage: FlowStage::TicketExtraction }
    );
}

#[test]
fn extraction_is_idempotent() {
    let body = r#"before scope = "abc" after"#;
    let r1 = extract_between(body, "scope = \"", "\"", TokenPattern::SamlScope);
    let r2 = extract_between(body, "scope = \"", "\"", TokenPattern::SamlScope);
    assert_eq!(r1, r2);
    assert_eq!(r1.unwrap(), "abc");
}

#[test]
fn extraction_first_match_wins() {
    let body = r#"Click <a href="https://first/?t=1">here</a> Click <a href="https://second/?t=2">here</a>"#;
    let redirect = parse_cas_redirect(body).unwrap();
    assert_eq!(redirect.url, "https://first/?t=1");
    assert_eq!(redirect.ticket, "1");
}

#[test]
fn extraction_on_empty_body_fails() {
    let r = extract_between("", "scope = \"", "\"", TokenPattern::SamlScope);
    assert_eq!(
        r.unwrap_err(),
        AuthError::Extraction { pattern: TokenPattern::SamlScope }
    );
}

#[test]
fn find_from_positions() {
    assert_eq!(find_from("hello world", "world", 0), Some(6));
    assert_eq!(find_from("hello world", "world", 7), None);
    assert_eq!(find_from("aaa", "a", 1), Some(1));
    assert_eq!(find_from("abc", "", 2), Some(2));
    assert_eq!(find_from("abc", "zz", 0), None);
}

#[test]
fn contains_pattern_basic() {
    assert!(contains_pattern("My courses are listed", "My courses"));
    assert!(!contains_pattern("my Courses", "My courses"));
    assert!(contains_pattern("anything", ""));
}

//! Tests of the flow stages: request construction, token threading, and
//! success detection of the portal, library, and moodle flows.

use hkuauth::cas::{cas_login_request, parse_cas_redirect, ticket_verify_request};
use hkuauth::errors::{AuthError, FlowStage, TokenPattern};
use hkuauth::library::{
    lib_auth_request, lib_bridge_request, lib_finish, lib_prime_request,
    lib_saml_handoff_request, parse_saml_bridge, parse_saml_response, saml_script_request,
};
use hkuauth::moodle::{
    moodle_cas_redirect_request, moodle_cas_request, moodle_cas_request_now, moodle_finish,
    moodle_landing_request,
};
use hkuauth::portal::{portal_finish, portal_sis_request};

const CAS_LOGIN_URL: &str = "https://hkuportal.hku.hk/cas/servlet/edu.yale.its.tp.cas.servlet.Login";

#[test]
fn cas_login_request_fields() {
    let r = cas_login_request("u123", "pw");
    assert_eq!(r.url, CAS_LOGIN_URL);
    assert_eq!(
        r.form,
        vec![
            ("keyid".to_string(), "".to_string()),
            ("username".to_string(), "u123".to_string()),
            ("password".to_string(), "pw".to_string()),
        ]
    );
}

#[test]
fn ticket_verify_request_reuses_url() {
    let body = r#"Click <a href="https://x/y?ticket=T1">here</a>"#;
    let redirect = parse_cas_redirect(body).unwrap();
    let r = ticket_verify_request(&redirect);
    assert_eq!(r.url, redirect.url);
}

#[test]
fn portal_sis_request_fields() {
    let body = r#"Click <a href="https://x/y?ticket=T1">here</a>"#;
    let redirect = parse_cas_redirect(body).unwrap();
    let r = portal_sis_request(&redirect);
    assert_eq!(r.url, "https://sis-eportal.hku.hk/psp/ptlprod/?cmd=login&languageCd=ENG");
    assert_eq!(r.form.len(), 4);
    assert_eq!(r.form[0], ("ticket".to_string(), "T1".to_string()));
    assert_eq!(r.form[1].0, "userid");
    assert_eq!(r.form[2].0, "pwd");
    assert!(!r.form[1].1.is_empty());
    assert!(!r.form[2].1.is_empty());
    assert_eq!(r.form[3], ("timezoneOffset".to_string(), "0".to_string()));
}

#[test]
fn portal_finish_marker() {
    assert!(portal_finish("<div class='PSPAGE homePageHdr'>...</div>").is_ok());
    assert_eq!(
        portal_finish("<html>login failed</html>").unwrap_err(),
        AuthError::Protocol { stage: FlowStage::PortalVerify }
    );
}

#[test]
fn lib_request_urls() {
    assert_eq!(
        lib_prime_request().url,
        "https://booking.lib.hku.hk/Secure/FacilityStatusDate.aspx"
    );
    assert_eq!(
        lib_bridge_request().url,
        "https://lib.hku.hk/hkulauth/legacy/authMain?uri=https://booking.lib.hku.hk/getpatron.aspx"
    );
}

#[test]
fn saml_bridge_scenario() {
    let body = "<script>var scope = \"e1s1-scope-xyz\";</script>\n<script src=\"https://ids.hku.hk/idp/profile/SAML2/foo\"></script>";
    let bridge = parse_saml_bridge(body).unwrap();
    assert_eq!(bridge.scope, "e1s1-scope-xyz");
    assert_eq!(bridge.saml_url, "https://ids.hku.hk/idp/profile/SAML2/foo");
    assert!(bridge.saml_url.ends_with("/foo"));
    let script = saml_script_request(&bridge);
    assert_eq!(script.url, bridge.saml_url);
}

#[test]
fn saml_bridge_missing_scope() {
    let body = r#"<script src="https://ids.hku.hk/idp/profile/SAML2/foo">"#;
    assert_eq!(
        parse_saml_bridge(body).unwrap_err(),
        AuthError::Extraction { pattern: TokenPattern::SamlScope }
    );
}

#[test]
fn saml_bridge_missing_script_url() {
    let body = r#"var scope = "s1";"#;
    assert_eq!(
        parse_saml_bridge(body).unwrap_err(),
        AuthError::Extraction { pattern: TokenPattern::SamlScriptUrl }
    );
}

#[test]
fn lib_auth_request_fields() {
    let body = "var scope = \"sc-9\"; <script src=\"https://ids.hku.hk/idp/profile/SAML2/bar\">";
    let bridge = parse_saml_bridge(body).unwrap();
    let r = lib_auth_request(&bridge, "user9", "secret");
    assert_eq!(r.url, "https://ids.hku.hk/idp/ProcessAuthnLib");
    assert_eq!(
        r.form,
        vec![
            ("conversation".to_string(), "e1s1".to_string()),
            ("scope".to_string(), "sc-9".to_string()),
            ("userid".to_string(), "user9".to_string()),
            ("password".to_string(), "secret".to_string()),
            ("submit".to_string(), "Submit".to_string()),
        ]
    );
}

#[test]
fn saml_response_extraction() {
    let body = r#"<form><input type="hidden" name="SAMLResponse" value="QkFTRTY0"/></form>"#;
    assert_eq!(parse_saml_response(body).unwrap(), "QkFTRTY0");
    assert_eq!(
        parse_saml_response("<form></form>").unwrap_err(),
        AuthError::Extraction { pattern: TokenPattern::SamlResponseField }
    );
}

#[test]
fn saml_handoff_threads_scope_as_relay_state() {
    let body = "var scope = \"relay-1\"; <script src=\"https://ids.hku.hk/idp/profile/SAML2/x\">";
    let bridge = parse_saml_bridge(body).unwrap();
    let r = lib_saml_handoff_request("BLOB", &bridge);
    assert_eq!(r.url, "https://lib.hku.hk/hkulauth/handleSAML");
    assert_eq!(
        r.form,
        vec![
            ("SAMLResponse".to_string(), "BLOB".to_string()),
            ("RelayState".to_string(), "relay-1".to_string()),
        ]
    );
}

#[test]
fn lib_finish_is_absence_based() {
    let rejected = "By making a booking / application, you are deemed to accept the relevant terms";
    assert_eq!(
        lib_finish(rejected).unwrap_err(),
        AuthError::Protocol { stage: FlowStage::LibrarySaml }
    );
    assert!(lib_finish("<html>welcome back</html>").is_ok());
}

#[test]
fn moodle_request_urls() {
    assert_eq!(moodle_landing_request().url, "https://moodle.hku.hk/my/");
    assert_eq!(
        moodle_cas_redirect_request().url,
        "https://moodle.hku.hk/login/index.php?authCAS=CAS"
    );
}

#[test]
fn moodle_cas_request_fields() {
    let r = moodle_cas_request("20240101000000", "u1", "p1");
    assert_eq!(r.url, CAS_LOGIN_URL);
    assert_eq!(
        r.form,
        vec![
            ("keyid".to_string(), "20240101000000".to_string()),
            (
                "service".to_string(),
                "https://moodle.hku.hk/login/index.php?authCAS=CAS".to_string()
            ),
            ("username".to_string(), "u1".to_string()),
            ("password".to_string(), "p1".to_string()),
        ]
    );
}

#[test]
fn moodle_cas_request_now_fields() {
    let r = moodle_cas_request_now("u2", "p2");
    assert_eq!(r.url, CAS_LOGIN_URL);
    assert_eq!(r.form.len(), 4);
    assert_eq!(r.form[0].0, "keyid");
    assert_eq!(
        r.form[1],
        (
            "service".to_string(),
            "https://moodle.hku.hk/login/index.php?authCAS=CAS".to_string()
        )
    );
    assert_eq!(r.form[2], ("username".to_string(), "u2".to_string()));
    assert_eq!(r.form[3], ("password".to_string(), "p2".to_string()));
}

#[test]
fn moodle_finish_marker() {
    assert!(moodle_finish("<h2>My courses</h2>").is_ok());
    assert_eq!(
        moodle_finish("<html>anything else</html>").unwrap_err(),
        AuthError::Protocol { stage: FlowStage::MoodleVerify }
    );
}

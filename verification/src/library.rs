//! The library SAML flow: priming GETs, one auth-bridge page yielding both
//! the SAML scope and the IdP script URL, the IdP form POST, and the SAML
//! assertion hand-off. Success detection is inverted relative to the other
//! flows: the final body must *lack* the rejection banner, a check that
//! fails open if the banner's wording ever changes.

use vstd::prelude::*;
use vstd::string::StringExecFns;
use crate::errors::{AuthError, FlowStage, TokenPattern};
use crate::extract::{spec_extract, extract_between};
use crate::request::{GetRequest, PostRequest};
use crate::scan::{has_match_from, contains_pattern};

verus! {

/// The priming GET of the booking system's facility page; the response body
/// is discarded.
pub fn lib_prime_request() -> (r: GetRequest)
    ensures
        r.url@ == "https://booking.lib.hku.hk/Secure/FacilityStatusDate.aspx"@,
{
    GetRequest { url: "https://booking.lib.hku.hk/Secure/FacilityStatusDate.aspx".to_owned() }
}

/// The GET of the auth-bridge endpoint, whose body carries both the SAML
/// scope and the IdP script URL.
pub fn lib_bridge_request() -> (r: GetRequest)
    ensures
        r.url@
            == "https://lib.hku.hk/hkulauth/legacy/authMain?uri=https://booking.lib.hku.hk/getpatron.aspx"@,
{
    GetRequest {
        url: "https://lib.hku.hk/hkulauth/legacy/authMain?uri=https://booking.lib.hku.hk/getpatron.aspx".to_owned(),
    }
}

/// The two tokens of the auth-bridge page. Both come from one response body,
/// so the scope later reused as `RelayState` is the one that belongs to the
/// extracted IdP script URL.
#[derive(Debug)]
pub struct SamlBridge {
    pub scope: String,
    pub saml_url: String,
}

/// Parses the auth-bridge body: the scope assigned in inline script, and the
/// IdP script URL, which always starts with the IdP's SAML2 profile path.
/// The scope is extracted first; whichever pattern is absent first names the
/// extraction error.
pub fn parse_saml_bridge(body: &str) -> (r: Result<SamlBridge, AuthError>)
    ensures
        match r {
            Result::Ok(b) => {
                &&& spec_extract(body@, "scope = \""@, "\""@) == Option::Some(b.scope@)
                &&& (spec_extract(
                    body@,
                    "<script src=\"https://ids.hku.hk/idp/profile/SAML2"@,
                    "\""@,
                ) matches Option::Some(tail) && b.saml_url@
                    == "https://ids.hku.hk/idp/profile/SAML2"@ + tail)
            },
            Result::Err(e) => {
                ||| (spec_extract(body@, "scope = \""@, "\""@) is None && e == (
                AuthError::Extraction { pattern: TokenPattern::SamlScope }))
                ||| (spec_extract(body@, "scope = \""@, "\""@) is Some && spec_extract(
                    body@,
                    "<script src=\"https://ids.hku.hk/idp/profile/SAML2"@,
                    "\""@,
                ) is None && e == (AuthError::Extraction { pattern: TokenPattern::SamlScriptUrl }))
            },
        },
{
    let scope = match extract_between(body, "scope = \"", "\"", TokenPattern::SamlScope) {
        Result::Ok(s) => s,
        Result::Err(e) => {
            return Result::Err(e);
        }
    };
    let tail = match extract_between(
        body,
        "<script src=\"https://ids.hku.hk/idp/profile/SAML2",
        "\"",
        TokenPattern::SamlScriptUrl,
    ) {
        Result::Ok(t) => t,
        Result::Err(e) => {
            return Result::Err(e);
        }
    };
    let mut saml_url = "https://ids.hku.hk/idp/profile/SAML2".to_owned();
    saml_url.append(tail.as_str());
    Result::Ok(SamlBridge { scope, saml_url })
}

/// The GET of the extracted IdP script URL, which primes the IdP's session
/// state; the response body is discarded.
pub fn saml_script_request(bridge: &SamlBridge) -> (r: GetRequest)
    ensures
        r.url@ == bridge.saml_url@,
{
    GetRequest { url: bridge.saml_url.clone() }
}

/// The login POST to the IdP's authentication-processing endpoint: a fixed
/// conversation id, the extracted scope, the caller's credentials, and a
/// fixed submit marker.
pub fn lib_auth_request(bridge: &SamlBridge, uid: &str, password: &str) -> (r: PostRequest)
    ensures
        r.url@ == "https://ids.hku.hk/idp/ProcessAuthnLib"@,
        r.form@.len() == 5,
        r.form@[0].0@ == "conversation"@ && r.form@[0].1@ == "e1s1"@,
        r.form@[1].0@ == "scope"@ && r.form@[1].1@ == bridge.scope@,
        r.form@[2].0@ == "userid"@ && r.form@[2].1@ == uid@,
        r.form@[3].0@ == "password"@ && r.form@[3].1@ == password@,
        r.form@[4].0@ == "submit"@ && r.form@[4].1@ == "Submit"@,
{
    let mut form: Vec<(String, String)> = Vec::new();
    form.push(("conversation".to_owned(), "e1s1".to_owned()));
    form.push(("scope".to_owned(), bridge.scope.clone()));
    form.push(("userid".to_owned(), uid.to_owned()));
    form.push(("password".to_owned(), password.to_owned()));
    form.push(("submit".to_owned(), "Submit".to_owned()));
    PostRequest { url: "https://ids.hku.hk/idp/ProcessAuthnLib".to_owned(), form }
}

/// Extracts the hidden `SAMLResponse` field's value from the IdP's response.
pub fn parse_saml_response(body: &str) -> (r: Result<String, AuthError>)
    ensures
        match r {
            Result::Ok(saml) => spec_extract(
                body@,
                "<input type=\"hidden\" name=\"SAMLResponse\" value=\""@,
                "\"/>"@,
            ) == Option::Some(saml@),
            Result::Err(e) => spec_extract(
                body@,
                "<input type=\"hidden\" name=\"SAMLResponse\" value=\""@,
                "\"/>"@,
            ) is None && e == (AuthError::Extraction { pattern: TokenPattern::SamlResponseField }),
        },
{
    extract_between(
        body,
        "<input type=\"hidden\" name=\"SAMLResponse\" value=\"",
        "\"/>",
        TokenPattern::SamlResponseField,
    )
}

/// The POST of the SAML assertion to the relying party's handler, with the
/// bridge's scope reused as `RelayState`.
pub fn lib_saml_handoff_request(saml_response: &str, bridge: &SamlBridge) -> (r: PostRequest)
    ensures
        r.url@ == "https://lib.hku.hk/hkulauth/handleSAML"@,
        r.form@.len() == 2,
        r.form@[0].0@ == "SAMLResponse"@ && r.form@[0].1@ == saml_response@,
        r.form@[1].0@ == "RelayState"@ && r.form@[1].1@ == bridge.scope@,
{
    let mut form: Vec<(String, String)> = Vec::new();
    form.push(("SAMLResponse".to_owned(), saml_response.to_owned()));
    form.push(("RelayState".to_owned(), bridge.scope.clone()));
    PostRequest { url: "https://lib.hku.hk/hkulauth/handleSAML".to_owned(), form }
}

/// Success detection for the library flow: the flow succeeds exactly when
/// the final body lacks the rejection banner; its presence means the
/// credentials or assertion were rejected.
pub fn lib_finish(body: &str) -> (r: Result<(), AuthError>)
    ensures
        match r {
            Result::Ok(u) => !has_match_from(
                body@,
                "By making a booking / application, you are deemed to accept the relevant"@,
                0,
            ),
            Result::Err(e) => has_match_from(
                body@,
                "By making a booking / application, you are deemed to accept the relevant"@,
                0,
            ) && e == (AuthError::Protocol { stage: FlowStage::LibrarySaml }),
        },
{
    if contains_pattern(
        body,
        "By making a booking / application, you are deemed to accept the relevant",
    ) {
        Result::Err(AuthError::Protocol { stage: FlowStage::LibrarySaml })
    } else {
        Result::Ok(())
    }
}

} // verus!

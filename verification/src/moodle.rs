//! The moodle login flow: prime the LMS landing and CAS-redirect pages,
//! POST credentials to the CAS endpoint with a timestamp-based correlation
//! key and an explicit `service` callback URL, redeem the extracted redirect
//! link, and require the authenticated-only marker in the final body.
//! A non-error transport result alone never counts as success.

use vstd::prelude::*;
use crate::errors::{AuthError, FlowStage};
use crate::request::{GetRequest, PostRequest};
use crate::scan::{has_match_from, contains_pattern};

verus! {

/// The priming GET of the LMS landing page; the response body is discarded.
pub fn moodle_landing_request() -> (r: GetRequest)
    ensures
        r.url@ == "https://moodle.hku.hk/my/"@,
{
    GetRequest { url: "https://moodle.hku.hk/my/".to_owned() }
}

/// The priming GET of the LMS's CAS-consuming endpoint; the response body is
/// discarded.
pub fn moodle_cas_redirect_request() -> (r: GetRequest)
    ensures
        r.url@ == "https://moodle.hku.hk/login/index.php?authCAS=CAS"@,
{
    GetRequest { url: "https://moodle.hku.hk/login/index.php?authCAS=CAS".to_owned() }
}

/// The credential POST to the CAS login endpoint with the given correlation
/// key and the LMS's CAS-consuming endpoint as the `service` callback.
pub fn moodle_cas_request(keyid: &str, uid: &str, password: &str) -> (r: PostRequest)
    ensures
        r.url@ == "https://hkuportal.hku.hk/cas/servlet/edu.yale.its.tp.cas.servlet.Login"@,
        r.form@.len() == 4,
        r.form@[0].0@ == "keyid"@ && r.form@[0].1@ == keyid@,
        r.form@[1].0@ == "service"@ && r.form@[1].1@
            == "https://moodle.hku.hk/login/index.php?authCAS=CAS"@,
        r.form@[2].0@ == "username"@ && r.form@[2].1@ == uid@,
        r.form@[3].0@ == "password"@ && r.form@[3].1@ == password@,
{
    let mut form: Vec<(String, String)> = Vec::new();
    form.push(("keyid".to_owned(), keyid.to_owned()));
    form.push((
        "service".to_owned(),
        "https://moodle.hku.hk/login/index.php?authCAS=CAS".to_owned(),
    ));
    form.push(("username".to_owned(), uid.to_owned()));
    form.push(("password".to_owned(), password.to_owned()));
    PostRequest {
        url: "https://hkuportal.hku.hk/cas/servlet/edu.yale.its.tp.cas.servlet.Login".to_owned(),
        form,
    }
}

/// Relies on chrono's `Local::now` and `DateTime::format` to render the
/// current local time as a `%Y%m%d%H%M%S` correlation key. The value depends
/// on the clock, so nothing is claimed of it.
#[verifier::external_body]
fn timestamp_keyid() -> (r: String) {
    chrono::Local::now().format("%Y%m%d%H%M%S").to_string()
}

/// The credential POST to the CAS login endpoint with a fresh
/// timestamp-based correlation key. Every field but the clock-dependent
/// `keyid` value is fixed by the contract.
pub fn moodle_cas_request_now(uid: &str, password: &str) -> (r: PostRequest)
    ensures
        r.url@ == "https://hkuportal.hku.hk/cas/servlet/edu.yale.its.tp.cas.servlet.Login"@,
        r.form@.len() == 4,
        r.form@[0].0@ == "keyid"@,
        r.form@[1].0@ == "service"@ && r.form@[1].1@
            == "https://moodle.hku.hk/login/index.php?authCAS=CAS"@,
        r.form@[2].0@ == "username"@ && r.form@[2].1@ == uid@,
        r.form@[3].0@ == "password"@ && r.form@[3].1@ == password@,
{
    let keyid = timestamp_keyid();
    moodle_cas_request(keyid.as_str(), uid, password)
}

/// Success detection for the moodle flow: the flow succeeds exactly when the
/// final body shows the authenticated-only marker; otherwise the credentials
/// were rejected and the flow fails at the moodle-verify stage.
pub fn moodle_finish(body: &str) -> (r: Result<(), AuthError>)
    ensures
        match r {
            Result::Ok(u) => has_match_from(body@, "My courses"@, 0),
            Result::Err(e) => !has_match_from(body@, "My courses"@, 0) && e == (
            AuthError::Protocol { stage: FlowStage::MoodleVerify }),
        },
{
    if contains_pattern(body, "My courses") {
        Result::Ok(())
    } else {
        Result::Err(AuthError::Protocol { stage: FlowStage::MoodleVerify })
    }
}

} // verus!

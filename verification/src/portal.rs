//! The portal login flow: CAS credential POST, unconditional redirect GET,
//! ticket redemption at the student-information-system endpoint, and lexical
//! success detection on the final body.

use vstd::prelude::*;
use crate::errors::{AuthError, FlowStage};
use crate::cas::CasRedirect;
use crate::request::PostRequest;
use crate::scan::{has_match_from, contains_pattern};

verus! {

/// The ticket-redemption POST to the student-information-system login
/// endpoint. The `userid`/`pwd` fields are deliberate non-empty placeholders:
/// the endpoint ignores them and trusts the ticket, but some values must be
/// sent.
pub fn portal_sis_request(redirect: &CasRedirect) -> (r: PostRequest)
    ensures
        r.url@ == "https://sis-eportal.hku.hk/psp/ptlprod/?cmd=login&languageCd=ENG"@,
        r.form@.len() == 4,
        r.form@[0].0@ == "ticket"@ && r.form@[0].1@ == redirect.ticket@,
        r.form@[1].0@ == "userid"@ && r.form@[1].1@ == "hku_dummy"@,
        r.form@[2].0@ == "pwd"@ && r.form@[2].1@ == "d"@,
        r.form@[3].0@ == "timezoneOffset"@ && r.form@[3].1@ == "0"@,
        r.form@[1].1@.len() > 0 && r.form@[2].1@.len() > 0,
{
    proof {
        reveal_strlit("hku_dummy");
        reveal_strlit("d");
    }
    let mut form: Vec<(String, String)> = Vec::new();
    form.push(("ticket".to_owned(), redirect.ticket.clone()));
    form.push(("userid".to_owned(), "hku_dummy".to_owned()));
    form.push(("pwd".to_owned(), "d".to_owned()));
    form.push(("timezoneOffset".to_owned(), "0".to_owned()));
    PostRequest {
        url: "https://sis-eportal.hku.hk/psp/ptlprod/?cmd=login&languageCd=ENG".to_owned(),
        form,
    }
}

/// Success detection for the portal flow: the flow succeeds exactly when the
/// final body shows the authenticated home-page marker; otherwise the
/// credentials were rejected and the flow fails at the portal-verify stage.
pub fn portal_finish(body: &str) -> (r: Result<(), AuthError>)
    ensures
        match r {
            Result::Ok(u) => has_match_from(body@, "PSPAGE homePageHdr"@, 0),
            Result::Err(e) => !has_match_from(body@, "PSPAGE homePageHdr"@, 0) && e == (
            AuthError::Protocol { stage: FlowStage::PortalVerify }),
        },
{
    if contains_pattern(body, "PSPAGE homePageHdr") {
        Result::Ok(())
    } else {
        Result::Err(AuthError::Protocol { stage: FlowStage::PortalVerify })
    }
}

} // verus!

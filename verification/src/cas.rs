//! The CAS ticket flow: posting credentials to the CAS login endpoint and
//! recovering the service ticket from the redirect link of the response.

use vstd::prelude::*;
use vstd::string::StrSliceExecFns;
use crate::errors::{AuthError, FlowStage, TokenPattern};
use crate::extract::{spec_extract, extract_between};
use crate::request::{GetRequest, PostRequest};

verus! {

/// The final `=`-delimited segment of `url`: what follows the last `=`, or
/// all of `url` when it holds no `=`.
pub open spec fn last_eq_segment(url: Seq<char>) -> Seq<char>
    decreases url.len(),
{
    if url.len() == 0 {
        Seq::empty()
    } else if url[url.len() - 1] == '=' {
        Seq::empty()
    } else {
        last_eq_segment(url.drop_last()).push(url[url.len() - 1])
    }
}

/// When `k` points just past the last `=` of `url` (or at its start when it
/// holds none), the final segment is the suffix beginning at `k`.
proof fn lemma_last_eq_segment_from(url: Seq<char>, k: int)
    requires
        0 <= k <= url.len(),
        k == 0 || url[k - 1] == '=',
        forall|j: int| k <= j < url.len() ==> url[j] != '=',
    ensures
        last_eq_segment(url) == url.subrange(k, url.len() as int),
    decreases url.len(),
{
    if k == url.len() {
        assert(url.subrange(k, url.len() as int) =~= Seq::<char>::empty());
    } else {
        assert(url[url.len() - 1] != '=');
        let shorter = url.drop_last();
        lemma_last_eq_segment_from(shorter, k);
        assert(shorter.subrange(k, shorter.len() as int) =~= url.subrange(
            k,
            url.len() - 1,
        ));
        assert(url.subrange(k, url.len() - 1).push(url[url.len() - 1]) =~= url.subrange(
            k,
            url.len() as int,
        ));
    }
}

/// The index of the last `=` in `url`, if any.
fn find_last_eq(url: &str, len: usize) -> (r: Option<usize>)
    requires
        len == url@.len(),
    ensures
        match r {
            Option::Some(k) => k < len && url@[k as int] == '=' && forall|j: int|
                k < j < len ==> url@[j] != '=',
            Option::None => forall|j: int| 0 <= j < len ==> url@[j] != '=',
        },
{
    let mut k: usize = len;
    while k > 0
        invariant
            len == url@.len(),
            k <= len,
            forall|j: int| k <= j < len ==> url@[j] != '=',
        decreases k,
    {
        k = k - 1;
        let c = url.get_char(k);
        if c == '=' {
            return Option::Some(k);
        }
    }
    Option::None
}

/// The ticket carried by a redirect URL: its final `=`-delimited segment.
pub fn ticket_of_url(url: &str) -> (t: String)
    ensures
        t@ == last_eq_segment(url@),
{
    let len = url.unicode_len();
    match find_last_eq(url, len) {
        Option::Some(k) => {
            proof {
                lemma_last_eq_segment_from(url@, k + 1);
            }
            url.substring_char(k + 1, len).to_owned()
        }
        Option::None => {
            proof {
                lemma_last_eq_segment_from(url@, 0);
                assert(url@.subrange(0, url@.len() as int) =~= url@);
            }
            url.to_owned()
        }
    }
}

/// A CAS redirect link together with the service ticket it carries.
#[derive(Debug)]
pub struct CasRedirect {
    pub url: String,
    pub ticket: String,
}

impl CasRedirect {
    /// The ticket is exactly the final `=`-delimited segment of the redirect
    /// URL, and is never empty.
    pub open spec fn wf(self) -> bool {
        self.ticket@ == last_eq_segment(self.url@) && self.ticket@.len() > 0
    }
}

/// The credential POST to the CAS login endpoint, with the empty correlation
/// key the portal variant of the flow sends.
pub fn cas_login_request(uid: &str, password: &str) -> (r: PostRequest)
    ensures
        r.url@ == "https://hkuportal.hku.hk/cas/servlet/edu.yale.its.tp.cas.servlet.Login"@,
        r.form@.len() == 3,
        r.form@[0].0@ == "keyid"@ && r.form@[0].1@ == ""@,
        r.form@[1].0@ == "username"@ && r.form@[1].1@ == uid@,
        r.form@[2].0@ == "password"@ && r.form@[2].1@ == password@,
{
    let mut form: Vec<(String, String)> = Vec::new();
    form.push(("keyid".to_owned(), "".to_owned()));
    form.push(("username".to_owned(), uid.to_owned()));
    form.push(("password".to_owned(), password.to_owned()));
    PostRequest {
        url: "https://hkuportal.hku.hk/cas/servlet/edu.yale.its.tp.cas.servlet.Login".to_owned(),
        form,
    }
}

/// Parses the CAS response body: recovers the redirect link and the service
/// ticket in its final `=`-delimited segment. Fails with an extraction error
/// when the link is absent, and with a ticket-extraction protocol error when
/// the link is present but its final segment is empty.
pub fn parse_cas_redirect(body: &str) -> (r: Result<CasRedirect, AuthError>)
    ensures
        match r {
            Result::Ok(red) => {
                &&& red.wf()
                &&& spec_extract(body@, "Click <a href=\""@, "\">here</a>"@) == Option::Some(
                    red.url@,
                )
            },
            Result::Err(e) => match spec_extract(body@, "Click <a href=\""@, "\">here</a>"@) {
                Option::None => e == (AuthError::Extraction {
                    pattern: TokenPattern::CasRedirectLink,
                }),
                Option::Some(u) => last_eq_segment(u).len() == 0 && e == (AuthError::Protocol {
                    stage: FlowStage::TicketExtraction,
                }),
            },
        },
{
    let url = match extract_between(
        body,
        "Click <a href=\"",
        "\">here</a>",
        TokenPattern::CasRedirectLink,
    ) {
        Result::Ok(u) => u,
        Result::Err(e) => {
            return Result::Err(e);
        }
    };
    let ticket = ticket_of_url(url.as_str());
    if ticket.as_str().unicode_len() == 0 {
        return Result::Err(AuthError::Protocol { stage: FlowStage::TicketExtraction });
    }
    Result::Ok(CasRedirect { url, ticket })
}

/// The unconditional GET of the redirect link, which binds the ticket to the
/// session's cookies; the response body is discarded.
pub fn ticket_verify_request(redirect: &CasRedirect) -> (r: GetRequest)
    ensures
        r.url@ == redirect.url@,
{
    GetRequest { url: redirect.url.clone() }
}

} // verus!

//! Error taxonomy of the authentication flows.

use vstd::prelude::*;

verus! {

/// Which extraction pattern a response body was scanned for.
#[derive(Clone, Copy, Debug, PartialEq, Eq, Structural)]
pub enum TokenPattern {
    /// The CAS redirect link: the href of a `Click <a href="...">here</a>` sentence.
    CasRedirectLink,
    /// The SAML scope token: a quoted string assigned to `scope` in inline script.
    SamlScope,
    /// The SAML IdP script URL: a `<script src="...">` tag whose src starts
    /// with the IdP's SAML2 profile path.
    SamlScriptUrl,
    /// The hidden `SAMLResponse` form field's value attribute.
    SamlResponseField,
}

/// The point of a flow at which a protocol-level failure was detected.
#[derive(Clone, Copy, Debug, PartialEq, Eq, Structural)]
pub enum FlowStage {
    /// The CAS redirect link was present but carried no usable ticket.
    TicketExtraction,
    /// The portal's final body lacked the authenticated-page marker.
    PortalVerify,
    /// The library's final body showed the rejection banner.
    LibrarySaml,
    /// The LMS's final body lacked the authenticated-only marker.
    MoodleVerify,
}

/// A failure of one authentication flow. No error is ever swallowed or
/// replaced by a default value: each flow surfaces the first failure it meets.
#[derive(Clone, Copy, Debug, PartialEq, Eq, Structural)]
pub enum AuthError {
    /// The transport could not carry a request or produce a readable body.
    Transport,
    /// An expected markup pattern was absent from a response body.
    Extraction { pattern: TokenPattern },
    /// Every request completed, but the final body did not show success;
    /// this is the ordinary shape of rejected credentials.
    Protocol { stage: FlowStage },
}

} // verus!

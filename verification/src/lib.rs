//! Verified core of a CAS/SAML login client for a university's web portals.
//!
//! The library holds the protocol logic: request construction, token
//! extraction from HTML response bodies, and success detection. The HTTP
//! transport that carries the requests lives outside the library; each flow
//! is a pipeline of typed stages, and a stage that fails yields no next
//! request, so a flow can never proceed past a failed extraction.

pub mod cas;
pub mod errors;
pub mod extract;
pub mod library;
pub mod moodle;
pub mod portal;
pub mod request;
pub mod scan;

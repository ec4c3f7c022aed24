//! Trusted boundary to the HTTP transport crate.
//!
//! The transport handle and the TLS identity are opaque to the verifier;
//! these declarations and wrappers are the only places where the library
//! touches them directly.

use vstd::prelude::*;

verus! {

#[verifier::external_type_specification]
#[verifier::external_body]
pub struct ExIdentity(reqwest::Identity);

#[verifier::external_type_specification]
#[verifier::external_body]
pub struct ExClient(reqwest::Client);

#[verifier::external_type_specification]
#[verifier::external_body]
pub struct ExError(reqwest::Error);

/// Relies on `reqwest::Client::clone`: the handle is reference-counted, so
/// cloning hands out the same underlying transport. Nothing is assumed of
/// the returned value.
pub assume_specification[ <reqwest::Client as Clone>::clone ](c: &reqwest::Client) -> reqwest::Client;

/// The user-agent header every request of this library carries.
pub const PRODUCT_USER_AGENT: &'static str = "visa_sdk/v0.1.0";

/// Relies on `reqwest::Identity::from_pkcs12_der`: parses PKCS12-encoded
/// bytes, with the given passphrase, into a TLS client identity. Which blobs
/// parse is decided by the machine's TLS backend, so nothing is assumed of
/// the outcome.
#[verifier::external_body]
pub(crate) fn parse_pkcs12_identity(der: &[u8], passphrase: &str) -> Result<
    reqwest::Identity,
    reqwest::Error,
> {
    reqwest::Identity::from_pkcs12_der(der, passphrase)
}

/// Relies on `reqwest::ClientBuilder`: builds one reusable transport handle
/// that carries the given TLS identity and the fixed product/version
/// user-agent header. Whether the TLS backend initializes is decided by the
/// environment, so nothing is assumed of the outcome.
#[verifier::external_body]
pub(crate) fn build_transport(identity: reqwest::Identity) -> Result<
    reqwest::Client,
    reqwest::Error,
> {
    let mut headers = reqwest::header::HeaderMap::new();
    headers.append(
        reqwest::header::USER_AGENT,
        reqwest::header::HeaderValue::from_static(PRODUCT_USER_AGENT),
    );
    reqwest::Client::builder().identity(identity).default_headers(headers).build()
}

} // verus!

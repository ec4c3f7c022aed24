use vstd::prelude::*;
use vstd::string::StringExecFns;

verus! {

/// Errors that can arise while building a client. Every variant is fatal:
/// no client comes into existence when `build` reports one.
#[derive(Clone, Copy, Debug, PartialEq, Eq, Structural)]
pub enum BuilderError {
    /// The certificate bytes failed to parse as a PKCS12-encoded identity.
    CertificateError,
    /// The transport handle could not be initialized.
    TransportError,
}

impl BuilderError {
    /// A short human-readable name of the error.
    pub fn description(&self) -> (r: String)
        ensures
            *self == BuilderError::CertificateError ==> r@ == "certificate error"@,
            *self == BuilderError::TransportError ==> r@ == "transport error"@,
    {
        match self {
            BuilderError::CertificateError => String::from_str("certificate error"),
            BuilderError::TransportError => String::from_str("transport error"),
        }
    }
}

} // verus!

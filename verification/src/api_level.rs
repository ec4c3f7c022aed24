use vstd::prelude::*;
use vstd::string::StringExecFns;

verus! {

/// Deployment tier selecting which backend domain a client talks to.
#[derive(Clone, Copy, Debug, PartialEq, Eq, Structural, PartialOrd, Ord)]
pub enum ApiLevel {
    /// Sandbox tier, for testing and development.
    Sandbox,
    /// Certification tier, for pre-production testing.
    Certification,
    /// Production tier, for live operations.
    Production,
}

impl Default for ApiLevel {
    /// The default deployment tier is the sandbox.
    fn default() -> (r: Self)
        ensures
            r == ApiLevel::Sandbox,
    {
        ApiLevel::Sandbox
    }
}

/// The fixed tier-to-base-domain table. Each tier maps to exactly one base
/// domain, with no trailing slash.
pub open spec fn spec_base_url(level: ApiLevel) -> Seq<char> {
    match level {
        ApiLevel::Sandbox => "https://sandbox.api.visa.com"@,
        ApiLevel::Certification => "https://cert.api.visa.com"@,
        ApiLevel::Production => "https://api.visa.com"@,
    }
}

/// Resolves a deployment tier to its base domain, exactly as the fixed table
/// gives it.
pub fn base_url_of(level: ApiLevel) -> (r: String)
    ensures
        r@ == spec_base_url(level),
{
    match level {
        ApiLevel::Sandbox => String::from_str("https://sandbox.api.visa.com"),
        ApiLevel::Certification => String::from_str("https://cert.api.visa.com"),
        ApiLevel::Production => String::from_str("https://api.visa.com"),
    }
}

} // verus!

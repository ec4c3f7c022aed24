//! URL resolution for the connectivity-test endpoint.
//!
//! The endpoint lives under a different path segment in production than in
//! the sandbox and certification tiers. Resolution is a pure function of
//! the tier and is meant to be computed once, when the endpoint helper is
//! constructed.

use crate::api_level::ApiLevel;
use crate::api_level::base_url_of;
use crate::api_level::spec_base_url;
use vstd::prelude::*;
use vstd::string::StringExecFns;

verus! {

/// The path of the connectivity-test endpoint for a tier.
pub open spec fn spec_hello_world_path(level: ApiLevel) -> Seq<char> {
    if level == ApiLevel::Production {
        "/helloworld"@
    } else {
        "/vdp/helloworld"@
    }
}

/// The absolute URL of the connectivity-test endpoint: the tier's base
/// domain followed by the tier's path segment.
pub fn hello_world_url(level: ApiLevel) -> (r: String)
    ensures
        r@ == spec_base_url(level) + spec_hello_world_path(level),
{
    let mut url = base_url_of(level);
    if level == ApiLevel::Production {
        url.append("/helloworld");
    } else {
        url.append("/vdp/helloworld");
    }
    url
}

} // verus!

use crate::api_level::ApiLevel;
use vstd::prelude::*;

verus! {

/// The resolved client configuration. Immutable once a client is built.
#[derive(Clone, Copy, Debug, PartialEq, Eq, Structural)]
pub struct Config {
    /// The deployment tier the client talks to.
    pub api_level: ApiLevel,
}

impl Default for Config {
    /// The default configuration targets the sandbox tier.
    fn default() -> (r: Self)
        ensures
            r.api_level == ApiLevel::Sandbox,
    {
        Config { api_level: ApiLevel::Sandbox }
    }
}

} // verus!

//! URL resolution and data models of the foreign-exchange-rates endpoint.
//!
//! The structures here carry the request and response fields for the rate
//! products whose amounts travel as strings. The rate products whose
//! amounts travel as floating-point numbers are handled entirely by the
//! unverified serialization layer around the library.

use crate::api_level::ApiLevel;
use crate::api_level::base_url_of;
use crate::api_level::spec_base_url;
use vstd::prelude::*;
use vstd::string::StringExecFns;

verus! {

/// The path of the foreign-exchange-rates endpoint, the same on every tier.
pub open spec fn spec_foreign_exchange_path() -> Seq<char> {
    "/forexrates/v2/foreignexchangerates"@
}

/// The absolute URL of the foreign-exchange-rates endpoint for a tier.
pub fn foreign_exchange_url(level: ApiLevel) -> (r: String)
    ensures
        r@ == spec_base_url(level) + spec_foreign_exchange_path(),
{
    let mut url = base_url_of(level);
    url.append("/forexrates/v2/foreignexchangerates");
    url
}

/// Details about the acquiring institution, for rate products A and B.
#[derive(Clone, Debug)]
pub struct AcquirerDetails {
    /// The bank identification number of the acquirer.
    pub bin: u32,
    /// The numeric code of the settlement currency.
    pub settlement_currency_code: String,
}

/// Request for rate products A (card-based) and B (account-based): daily
/// indicative rates, amounts carried as decimal strings.
#[derive(Clone, Debug)]
pub struct FXRequestAorB {
    /// The three-letter code of the source currency.
    pub source_currency_code: String,
    /// The three-letter code of the destination currency.
    pub destination_currency_code: String,
    /// The amount to convert, as a decimal string.
    pub source_amount: String,
    /// An optional markup rate to apply, as a decimal string.
    pub markup_rate: Option<String>,
    /// Optional details about the acquiring institution.
    pub acquirer_details: Option<AcquirerDetails>,
}

/// Response for rate products A and B.
#[derive(Clone, Debug, PartialEq)]
pub struct FXResponseAorB {
    /// The conversion rate applied, excluding markup.
    pub conversion_rate: String,
    /// The amount in the destination currency after conversion.
    pub destination_amount: String,
    /// The markup rate applied, if any.
    pub markup_rate_applied: Option<String>,
    /// The destination amount before markup, if reported.
    pub original_destn_amt_before_mark_up: Option<String>,
}

} // verus!

//! # payfake
//!
//! Verified core of the Rust SDK for Payfake, a Paystack-compatible payment
//! simulator: client configuration, the route of every endpoint (method,
//! path with its query, authentication), the URL and bearer token of each
//! request, and the interpretation of the response envelope. Sending the
//! requests and decoding JSON is the transport's part.

pub mod auth;
pub mod charge;
pub mod client;
pub mod codes;
pub mod control;
pub mod customer;
pub mod errors;
pub mod json;
pub mod merchant;
pub mod text;
pub mod transaction;
pub mod types;

pub use client::{Auth, Call, Inner, Method, Outgoing};
pub use errors::{ErrorField, PayfakeError};
pub use types::{ValidationRule, ValidationRuleView, Envelope, FieldErrors, PaginationMeta, RegisterInput, LoginInput, AuthResponse, MerchantSummary, KeysResponse, InitializeInput, InitializeResponse, Transaction, Authorization, TransactionList, PublicTransactionResponse, PublicMerchant, PublicCustomer, PublicCharge, PublicVerifyResponse, CardDetails, MomoDetails, BankDetails, ChargeCardInput, ChargeMomoInput, ChargeBankInput, SubmitPINInput, SubmitOTPInput, SubmitBirthdayInput, SubmitAddressInput, ResendOTPInput, ChargeFlowResponse, OTPLog, CreateCustomerInput, UpdateCustomerInput, Customer, CustomerSummary, CustomerList, MerchantProfile, UpdateProfileInput, WebhookConfig, ForceTransactionInput, WebhookEvent, WebhookAttempt, WebhookList, RequestLog, LogList};

use std::time::Duration;
use vstd::prelude::*;

verus! {

/// Base URL used when the configuration names none.
pub const DEFAULT_BASE_URL: &'static str = "https://api.payfake.co";

/// HTTP timeout, in seconds, used when the configuration names none.
pub const DEFAULT_TIMEOUT_SECS: u64 = 30;

/// What `Duration::from_secs` returns for `secs`.
pub uninterp spec fn duration_from_secs(secs: u64) -> Duration;

/// Calls `Duration::from_secs`, which makes a duration of `secs` whole
/// seconds and never fails.
#[verifier::external_body]
fn duration_of_secs(secs: u64) -> (d: Duration)
    ensures
        d == duration_from_secs(secs),
{
    Duration::from_secs(secs)
}

/// Client configuration.
pub struct Config {
    /// Merchant sk_test_xxx key — required for Paystack-compatible endpoints.
    pub secret_key: String,
    /// Base URL. Defaults to `https://api.payfake.co`.
    /// For self-hosted: `Some("http://localhost:8080".to_string())`
    pub base_url: Option<String>,
    /// HTTP timeout. Defaults to 30 seconds.
    pub timeout: Option<Duration>,
}

/// The base URL a client uses for the configured one: the default when none
/// is configured, and in either case without trailing slashes.
pub open spec fn resolved_base_url(configured: Option<Seq<char>>) -> Seq<char> {
    crate::text::trim_trailing_slashes(
        match configured {
            Some(b) => b,
            None => DEFAULT_BASE_URL@,
        },
    )
}

/// The timeout a client uses for the configured one.
pub open spec fn resolved_timeout(configured: Option<Duration>) -> Duration {
    match configured {
        Some(t) => t,
        None => duration_from_secs(DEFAULT_TIMEOUT_SECS),
    }
}

impl Config {
    /// What a new client is made of: the shared state of its namespaces
    /// (base URL and secret key) and the HTTP timeout.
    pub fn into_parts(self) -> (r: (Inner, Duration))
        ensures
            r.0@.base_url == resolved_base_url(self.base_url.deep_view()),
            r.0@.secret_key == self.secret_key@,
            r.1 == resolved_timeout(self.timeout),
    {
        let base = match self.base_url {
            Some(b) => b,
            None => String::from_str(DEFAULT_BASE_URL),
        };
        let inner = Inner::new(base.as_str(), self.secret_key);
        let timeout = match self.timeout {
            Some(t) => t,
            None => duration_of_secs(DEFAULT_TIMEOUT_SECS),
        };
        (inner, timeout)
    }
}

/// Whatever base URL is configured, the one a client uses has no trailing
/// slash, so that joining it with an endpoint path (which starts with `/`)
/// never doubles the slash.
pub proof fn law_base_url_has_no_trailing_slash(configured: Option<Seq<char>>)
    ensures
        resolved_base_url(configured).len() == 0 || resolved_base_url(configured).last() != '/',
{
    crate::text::lemma_trim_no_trailing_slash(
        match configured {
            Some(b) => b,
            None => DEFAULT_BASE_URL@,
        },
    );
}

/// A configured base URL is kept as written up to its trailing slashes:
/// the URL in use is a prefix of it, and only slashes follow that prefix.
pub proof fn law_base_url_keeps_configured_prefix(configured: Seq<char>)
    ensures
        resolved_base_url(Some(configured)).len() <= configured.len(),
        resolved_base_url(Some(configured)) =~= configured.subrange(0, resolved_base_url(Some(configured)).len() as int),
        forall|i: int| resolved_base_url(Some(configured)).len() <= i < configured.len() ==> configured[i] == '/',
{
    crate::text::lemma_trim_is_prefix(configured);
}

/// Normalizing a base URL that a client already uses changes nothing.
pub proof fn law_base_url_normalization_is_idempotent(configured: Option<Seq<char>>)
    ensures
        resolved_base_url(Some(resolved_base_url(configured))) == resolved_base_url(configured),
{
    crate::text::lemma_trim_idempotent(
        match configured {
            Some(b) => b,
            None => DEFAULT_BASE_URL@,
        },
    );
}

/// Every request URL is the client's base URL followed by the endpoint's
/// path, and since endpoint paths start with `/`, the two meet in exactly one
/// slash, whatever base URL was configured.
pub proof fn law_request_url_joins_base_and_path(configured: Option<Seq<char>>, path: Seq<char>)
    requires
        path.len() > 0,
        path[0] == '/',
    ensures
        ({
            let base = resolved_base_url(configured);
            let url = base + path;
            &&& url.subrange(0, base.len() as int) == base
            &&& url.subrange(base.len() as int, url.len() as int) == path
            &&& url[base.len() as int] == '/'
            &&& (base.len() == 0 || url[base.len() - 1] != '/')
        }),
{
    law_base_url_has_no_trailing_slash(configured);
    let base = resolved_base_url(configured);
    let url = base + path;
    assert(url.subrange(0, base.len() as int) =~= base);
    assert(url.subrange(base.len() as int, url.len() as int) =~= path);
    assert(url[base.len() as int] == path[0]);
    if base.len() > 0 {
        assert(url[base.len() - 1] == base.last());
    }
}

} // verus!

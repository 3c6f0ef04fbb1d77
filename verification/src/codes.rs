//! Response code constants — use these instead of raw strings.

use vstd::prelude::*;

verus! {

// Auth
pub const EMAIL_TAKEN: &'static str = "AUTH_EMAIL_TAKEN";
pub const INVALID_CREDENTIALS: &'static str = "AUTH_INVALID_CREDENTIALS";
pub const UNAUTHORIZED: &'static str = "AUTH_UNAUTHORIZED";
pub const TOKEN_EXPIRED: &'static str = "AUTH_TOKEN_EXPIRED";
pub const TOKEN_INVALID: &'static str = "AUTH_TOKEN_INVALID";

// Transaction
pub const TRANSACTION_NOT_FOUND: &'static str = "TRANSACTION_NOT_FOUND";
pub const REFERENCE_TAKEN: &'static str = "TRANSACTION_REFERENCE_TAKEN";
pub const INVALID_AMOUNT: &'static str = "TRANSACTION_INVALID_AMOUNT";
pub const ALREADY_VERIFIED: &'static str = "TRANSACTION_ALREADY_VERIFIED";

// Charge
pub const CHARGE_FAILED: &'static str = "CHARGE_FAILED";
pub const CHARGE_SUCCESSFUL: &'static str = "CHARGE_SUCCESSFUL";
pub const CHARGE_SEND_PIN: &'static str = "CHARGE_SEND_PIN";
pub const CHARGE_SEND_OTP: &'static str = "CHARGE_SEND_OTP";
pub const CHARGE_SEND_BIRTHDAY: &'static str = "CHARGE_SEND_BIRTHDAY";
pub const CHARGE_SEND_ADDRESS: &'static str = "CHARGE_SEND_ADDRESS";
pub const CHARGE_OPEN_URL: &'static str = "CHARGE_OPEN_URL";
pub const CHARGE_PAY_OFFLINE: &'static str = "CHARGE_PAY_OFFLINE";
pub const CHARGE_INVALID_OTP: &'static str = "CHARGE_INVALID_OTP";
pub const INSUFFICIENT_FUNDS: &'static str = "CHARGE_INSUFFICIENT_FUNDS";
pub const DO_NOT_HONOR: &'static str = "CHARGE_DO_NOT_HONOR";
pub const MOMO_TIMEOUT: &'static str = "CHARGE_MOMO_TIMEOUT";
pub const MOMO_PROVIDER_UNAVAILABLE: &'static str = "CHARGE_MOMO_PROVIDER_UNAVAILABLE";

// Customer
pub const CUSTOMER_NOT_FOUND: &'static str = "CUSTOMER_NOT_FOUND";
pub const CUSTOMER_EMAIL_TAKEN: &'static str = "CUSTOMER_EMAIL_TAKEN";

// Generic
pub const VALIDATION_ERROR: &'static str = "VALIDATION_ERROR";
pub const INTERNAL_ERROR: &'static str = "INTERNAL_ERROR";
pub const NOT_FOUND: &'static str = "NOT_FOUND";
pub const RATE_LIMITED: &'static str = "RATE_LIMIT_EXCEEDED";

} // verus!

//! Routes of the /charge endpoints.
//! Matches https://api.paystack.co/charge exactly: every charge starts with
//! POST /charge, the channel being told by the body's object.
//! Auth: Bearer secret key, but for the public 3DS simulation.

use vstd::prelude::*;

use crate::client::{Auth, AuthView, Call, CallView, Method};
use crate::text::join2;

verus! {

/// POST /charge with the secret key: the call that every charge channel starts with.
fn charge_start() -> (c: Call)
    ensures
        c@ == (CallView { method: Method::Post, path: "/charge"@, auth: AuthView::SecretKey }),
{
    Call { method: Method::Post, path: String::from_str("/charge"), auth: Auth::SecretKey }
}

/// Initiate a card charge via POST /charge (body: `ChargeCardInput`).
///
/// Local Ghana cards (Verve: 5061, 5062, 5063, 6500, 6501):
///   returns status "send_pin" → call submit_pin
///
/// International cards (Visa 4xxx, Mastercard 5xxx):
///   returns status "open_url" + url → checkout navigates to url
pub fn card() -> (c: Call)
    ensures
        c@ == (CallView { method: Method::Post, path: "/charge"@, auth: AuthView::SecretKey }),
{
    charge_start()
}

/// Initiate a MoMo charge via POST /charge (body: `ChargeMomoInput`).
/// Returns status "send_otp" → call submit_otp.
/// After OTP returns "pay_offline" → poll transaction.public_verify.
pub fn mobile_money() -> (c: Call)
    ensures
        c@ == (CallView { method: Method::Post, path: "/charge"@, auth: AuthView::SecretKey }),
{
    charge_start()
}

/// Initiate a bank transfer charge via POST /charge (body: `ChargeBankInput`).
/// Returns status "send_birthday" → call submit_birthday.
pub fn bank() -> (c: Call)
    ensures
        c@ == (CallView { method: Method::Post, path: "/charge"@, auth: AuthView::SecretKey }),
{
    charge_start()
}

/// Submit card PIN after status "send_pin" (body: `SubmitPINInput`).
/// Returns status "send_otp" — OTP sent to registered phone.
pub fn submit_pin() -> (c: Call)
    ensures
        c@ == (CallView { method: Method::Post, path: "/charge/submit_pin"@, auth: AuthView::SecretKey }),
{
    Call { method: Method::Post, path: String::from_str("/charge/submit_pin"), auth: Auth::SecretKey }
}

/// Submit OTP after status "send_otp" (body: `SubmitOTPInput`).
/// Card/bank: returns "success" or "failed".
/// MoMo: returns "pay_offline" — poll transaction.public_verify.
pub fn submit_otp() -> (c: Call)
    ensures
        c@ == (CallView { method: Method::Post, path: "/charge/submit_otp"@, auth: AuthView::SecretKey }),
{
    Call { method: Method::Post, path: String::from_str("/charge/submit_otp"), auth: Auth::SecretKey }
}

/// Submit date of birth after status "send_birthday" (body: `SubmitBirthdayInput`).
/// Returns status "send_otp" on success.
pub fn submit_birthday() -> (c: Call)
    ensures
        c@ == (CallView { method: Method::Post, path: "/charge/submit_birthday"@, auth: AuthView::SecretKey }),
{
    Call { method: Method::Post, path: String::from_str("/charge/submit_birthday"), auth: Auth::SecretKey }
}

/// Submit billing address after status "send_address" (body: `SubmitAddressInput`).
/// Returns "success" or "failed".
pub fn submit_address() -> (c: Call)
    ensures
        c@ == (CallView { method: Method::Post, path: "/charge/submit_address"@, auth: AuthView::SecretKey }),
{
    Call { method: Method::Post, path: String::from_str("/charge/submit_address"), auth: Auth::SecretKey }
}

/// Request a fresh OTP when the customer hasn't received one (body: `ResendOTPInput`).
/// Invalidates the previous OTP. Returns status "send_otp".
pub fn resend_otp() -> (c: Call)
    ensures
        c@ == (CallView { method: Method::Post, path: "/charge/resend_otp"@, auth: AuthView::SecretKey }),
{
    Call { method: Method::Post, path: String::from_str("/charge/resend_otp"), auth: Auth::SecretKey }
}

/// Fetch the current state of a charge by transaction reference.
pub fn fetch(reference: &str) -> (c: Call)
    ensures
        c@ == (CallView { method: Method::Get, path: "/charge/"@ + reference@, auth: AuthView::SecretKey }),
{
    Call { method: Method::Get, path: join2("/charge/", reference), auth: Auth::SecretKey }
}

/// Complete the simulated 3DS verification: a public call, no key.
/// Called by the checkout app after the customer confirms on the 3DS page.
pub fn simulate_3ds(reference: &str) -> (c: Call)
    ensures
        c@ == (CallView { method: Method::Post, path: "/api/v1/public/simulate/3ds/"@ + reference@, auth: AuthView::Public }),
{
    Call { method: Method::Post, path: join2("/api/v1/public/simulate/3ds/", reference), auth: Auth::Public }
}

} // verus!

//! Routes of the /api/v1/merchant endpoints.
//! Payfake-specific, no Paystack equivalent.
//! Auth: Bearer JWT (from auth.login).

use vstd::prelude::*;

use crate::client::{Auth, AuthView, Call, CallView, Method};

verus! {

/// The merchant's profile.
pub fn get_profile(token: &str) -> (c: Call)
    ensures
        c@ == (CallView { method: Method::Get, path: "/api/v1/merchant"@, auth: AuthView::Jwt(token@) }),
{
    Call { method: Method::Get, path: String::from_str("/api/v1/merchant"), auth: Auth::Jwt(String::from_str(token)) }
}

/// Update the merchant's profile (body: `UpdateProfileInput`).
pub fn update_profile(token: &str) -> (c: Call)
    ensures
        c@ == (CallView { method: Method::Put, path: "/api/v1/merchant"@, auth: AuthView::Jwt(token@) }),
{
    Call { method: Method::Put, path: String::from_str("/api/v1/merchant"), auth: Auth::Jwt(String::from_str(token)) }
}

/// The merchant's webhook configuration.
pub fn get_webhook_url(token: &str) -> (c: Call)
    ensures
        c@ == (CallView { method: Method::Get, path: "/api/v1/merchant/webhook"@, auth: AuthView::Jwt(token@) }),
{
    Call {
        method: Method::Get,
        path: String::from_str("/api/v1/merchant/webhook"),
        auth: Auth::Jwt(String::from_str(token)),
    }
}

/// Set the webhook URL (body: `{ "webhook_url": <url> }`).
pub fn update_webhook_url(token: &str) -> (c: Call)
    ensures
        c@ == (CallView { method: Method::Post, path: "/api/v1/merchant/webhook"@, auth: AuthView::Jwt(token@) }),
{
    Call {
        method: Method::Post,
        path: String::from_str("/api/v1/merchant/webhook"),
        auth: Auth::Jwt(String::from_str(token)),
    }
}

/// Send a test event to the webhook URL.
pub fn test_webhook(token: &str) -> (c: Call)
    ensures
        c@ == (CallView { method: Method::Post, path: "/api/v1/merchant/webhook/test"@, auth: AuthView::Jwt(token@) }),
{
    Call {
        method: Method::Post,
        path: String::from_str("/api/v1/merchant/webhook/test"),
        auth: Auth::Jwt(String::from_str(token)),
    }
}

} // verus!

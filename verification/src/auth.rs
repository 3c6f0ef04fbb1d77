//! Routes of the /api/v1/auth endpoints.
//! Payfake-specific, no Paystack equivalent. Registration and login go out
//! without a token; the other calls take the access token they return.

use vstd::prelude::*;

use crate::client::{Auth, AuthView, Call, CallView, Method};

verus! {

/// Register a new merchant account: POST with a `RegisterInput` body, no token.
pub fn register() -> (c: Call)
    ensures
        c@ == (CallView { method: Method::Post, path: "/api/v1/auth/register"@, auth: AuthView::Jwt(seq![]) }),
{
    Call { method: Method::Post, path: String::from_str("/api/v1/auth/register"), auth: Auth::Jwt(String::new()) }
}

/// Login and get an access token: POST with a `LoginInput` body, no token.
pub fn login() -> (c: Call)
    ensures
        c@ == (CallView { method: Method::Post, path: "/api/v1/auth/login"@, auth: AuthView::Jwt(seq![]) }),
{
    Call { method: Method::Post, path: String::from_str("/api/v1/auth/login"), auth: Auth::Jwt(String::new()) }
}

/// Get the currently authenticated merchant profile.
pub fn me(token: &str) -> (c: Call)
    ensures
        c@ == (CallView { method: Method::Get, path: "/api/v1/auth/me"@, auth: AuthView::Jwt(token@) }),
{
    Call { method: Method::Get, path: String::from_str("/api/v1/auth/me"), auth: Auth::Jwt(String::from_str(token)) }
}

/// Get the merchant's public and secret keys.
pub fn get_keys(token: &str) -> (c: Call)
    ensures
        c@ == (CallView { method: Method::Get, path: "/api/v1/auth/keys"@, auth: AuthView::Jwt(token@) }),
{
    Call { method: Method::Get, path: String::from_str("/api/v1/auth/keys"), auth: Auth::Jwt(String::from_str(token)) }
}

/// Rotate the merchant's key pair.
/// All requests using the old secret key fail immediately after this call.
pub fn regenerate_keys(token: &str) -> (c: Call)
    ensures
        c@ == (CallView { method: Method::Post, path: "/api/v1/auth/keys/regenerate"@, auth: AuthView::Jwt(token@) }),
{
    Call {
        method: Method::Post,
        path: String::from_str("/api/v1/auth/keys/regenerate"),
        auth: Auth::Jwt(String::from_str(token)),
    }
}

} // verus!

//! Routes of the /transaction endpoints.
//! Matches https://api.paystack.co/transaction exactly.
//! Auth: Bearer secret key, but for the two public checkout calls.

use vstd::prelude::*;

use crate::client::{Auth, AuthView, Call, CallView, Method};
use crate::text::{join2, join3, opt_param, opt_text, page_query, with_opt_param, with_page_query};

verus! {

/// Create a new pending transaction (body: `InitializeInput`).
/// Returns authorization_url, access_code and reference.
pub fn initialize() -> (c: Call)
    ensures
        c@ == (CallView { method: Method::Post, path: "/transaction/initialize"@, auth: AuthView::SecretKey }),
{
    Call { method: Method::Post, path: String::from_str("/transaction/initialize"), auth: Auth::SecretKey }
}

/// Verify a transaction by reference.
/// Always call this before delivering value.
pub fn verify(reference: &str) -> (c: Call)
    ensures
        c@ == (CallView { method: Method::Get, path: "/transaction/verify/"@ + reference@, auth: AuthView::SecretKey }),
{
    Call { method: Method::Get, path: join2("/transaction/verify/", reference), auth: Auth::SecretKey }
}

/// Fetch a transaction by ID.
pub fn fetch(id: &str) -> (c: Call)
    ensures
        c@ == (CallView { method: Method::Get, path: "/transaction/"@ + id@, auth: AuthView::SecretKey }),
{
    Call { method: Method::Get, path: join2("/transaction/", id), auth: Auth::SecretKey }
}

/// List transactions with pagination.
/// status: "success" | "failed" | "pending" | "abandoned"
pub fn list(page: i32, per_page: i32, status: Option<&str>) -> (c: Call)
    ensures
        c@ == (CallView {
            method: Method::Get,
            path: "/transaction"@ + page_query(page as int, per_page as int) + opt_param("&status="@, opt_text(status)),
            auth: AuthView::SecretKey,
        }),
{
    let path = with_page_query(String::from_str("/transaction"), page, per_page);
    let path = with_opt_param(path, "&status=", status);
    Call { method: Method::Get, path, auth: Auth::SecretKey }
}

/// Refund (reverse) a successful transaction.
pub fn refund(id: &str) -> (c: Call)
    ensures
        c@ == (CallView { method: Method::Post, path: "/transaction/"@ + id@ + "/refund"@, auth: AuthView::SecretKey }),
{
    Call { method: Method::Post, path: join3("/transaction/", id, "/refund"), auth: Auth::SecretKey }
}

/// Load transaction details for the checkout page using the access code.
/// No secret key required. Call this on checkout page mount.
pub fn public_fetch(access_code: &str) -> (c: Call)
    ensures
        c@ == (CallView { method: Method::Get, path: "/api/v1/public/transaction/"@ + access_code@, auth: AuthView::Public }),
{
    Call { method: Method::Get, path: join2("/api/v1/public/transaction/", access_code), auth: Auth::Public }
}

/// Poll transaction status for MoMo pay_offline state.
/// No secret key required. Poll every 3 seconds until status is success or failed.
pub fn public_verify(reference: &str) -> (c: Call)
    ensures
        c@ == (CallView {
            method: Method::Get,
            path: "/api/v1/public/transaction/verify/"@ + reference@,
            auth: AuthView::Public,
        }),
{
    Call { method: Method::Get, path: join2("/api/v1/public/transaction/verify/", reference), auth: Auth::Public }
}

} // verus!

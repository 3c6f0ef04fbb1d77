//! Routes of the /customer endpoints.
//! Matches https://api.paystack.co/customer exactly.
//! Auth: Bearer secret key.

use vstd::prelude::*;

use crate::client::{Auth, AuthView, Call, CallView, Method};
use crate::text::{join2, join3, page_query, with_page_query};

verus! {

/// Create a customer (body: `CreateCustomerInput`).
pub fn create() -> (c: Call)
    ensures
        c@ == (CallView { method: Method::Post, path: "/customer"@, auth: AuthView::SecretKey }),
{
    Call { method: Method::Post, path: String::from_str("/customer"), auth: Auth::SecretKey }
}

/// List customers, paginated.
pub fn list(page: i32, per_page: i32) -> (c: Call)
    ensures
        c@ == (CallView { method: Method::Get, path: "/customer"@ + page_query(page as int, per_page as int), auth: AuthView::SecretKey }),
{
    Call { method: Method::Get, path: with_page_query(String::from_str("/customer"), page, per_page), auth: Auth::SecretKey }
}

/// Fetch a customer by code.
pub fn fetch(code: &str) -> (c: Call)
    ensures
        c@ == (CallView { method: Method::Get, path: "/customer/"@ + code@, auth: AuthView::SecretKey }),
{
    Call { method: Method::Get, path: join2("/customer/", code), auth: Auth::SecretKey }
}

/// Update a customer (body: `UpdateCustomerInput`).
pub fn update(code: &str) -> (c: Call)
    ensures
        c@ == (CallView { method: Method::Put, path: "/customer/"@ + code@, auth: AuthView::SecretKey }),
{
    Call { method: Method::Put, path: join2("/customer/", code), auth: Auth::SecretKey }
}

/// A customer's transactions, paginated.
pub fn transactions(code: &str, page: i32, per_page: i32) -> (c: Call)
    ensures
        c@ == (CallView {
            method: Method::Get,
            path: "/customer/"@ + code@ + "/transactions"@ + page_query(page as int, per_page as int),
            auth: AuthView::SecretKey,
        }),
{
    let path = with_page_query(join3("/customer/", code, "/transactions"), page, per_page);
    Call { method: Method::Get, path, auth: Auth::SecretKey }
}

} // verus!

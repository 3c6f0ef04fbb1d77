//! Routes of the /api/v1/control endpoints.
//! Payfake-specific — no Paystack equivalent.
//! Auth: Bearer JWT (from auth.login).

use vstd::prelude::*;

use crate::client::{Auth, AuthView, Call, CallView, Method};
use crate::json::{json_as_array, json_get, json_is_array, json_member};
use crate::text::{join2, join3, opt_param, opt_text, page_query, with_opt_param, with_page_query};

verus! {

fn jwt(token: &str) -> (a: Auth)
    ensures
        a@ == AuthView::Jwt(token@),
{
    Auth::Jwt(String::from_str(token))
}

/// Simulator statistics.
pub fn get_stats(token: &str) -> (c: Call)
    ensures
        c@ == (CallView { method: Method::Get, path: "/api/v1/control/stats"@, auth: AuthView::Jwt(token@) }),
{
    Call { method: Method::Get, path: String::from_str("/api/v1/control/stats"), auth: jwt(token) }
}

/// The current scenario configuration.
pub fn get_scenario(token: &str) -> (c: Call)
    ensures
        c@ == (CallView { method: Method::Get, path: "/api/v1/control/scenario"@, auth: AuthView::Jwt(token@) }),
{
    Call { method: Method::Get, path: String::from_str("/api/v1/control/scenario"), auth: jwt(token) }
}

/// Update the scenario configuration (body: the scenario update).
pub fn update_scenario(token: &str) -> (c: Call)
    ensures
        c@ == (CallView { method: Method::Put, path: "/api/v1/control/scenario"@, auth: AuthView::Jwt(token@) }),
{
    Call { method: Method::Put, path: String::from_str("/api/v1/control/scenario"), auth: jwt(token) }
}

/// Reset scenario to defaults. All charges succeed with no delay.
pub fn reset_scenario(token: &str) -> (c: Call)
    ensures
        c@ == (CallView { method: Method::Post, path: "/api/v1/control/scenario/reset"@, auth: AuthView::Jwt(token@) }),
{
    Call { method: Method::Post, path: String::from_str("/api/v1/control/scenario/reset"), auth: jwt(token) }
}

/// List transactions, paginated, optionally filtered by status and by a search text.
pub fn list_transactions(token: &str, page: i32, per_page: i32, status: Option<&str>, search: Option<&str>) -> (c: Call)
    ensures
        c@ == (CallView {
            method: Method::Get,
            path: "/api/v1/control/transactions"@ + page_query(page as int, per_page as int)
                + opt_param("&status="@, opt_text(status)) + opt_param("&search="@, opt_text(search)),
            auth: AuthView::Jwt(token@),
        }),
{
    let path = with_page_query(String::from_str("/api/v1/control/transactions"), page, per_page);
    let path = with_opt_param(path, "&status=", status);
    let path = with_opt_param(path, "&search=", search);
    Call { method: Method::Get, path, auth: jwt(token) }
}

/// List customers, paginated.
pub fn list_customers(token: &str, page: i32, per_page: i32) -> (c: Call)
    ensures
        c@ == (CallView {
            method: Method::Get,
            path: "/api/v1/control/customers"@ + page_query(page as int, per_page as int),
            auth: AuthView::Jwt(token@),
        }),
{
    let path = with_page_query(String::from_str("/api/v1/control/customers"), page, per_page);
    Call { method: Method::Get, path, auth: jwt(token) }
}

/// Force the outcome of a transaction (body: `ForceTransactionInput`).
pub fn force_transaction(token: &str, reference: &str) -> (c: Call)
    ensures
        c@ == (CallView {
            method: Method::Post,
            path: "/api/v1/control/transactions/"@ + reference@ + "/force"@,
            auth: AuthView::Jwt(token@),
        }),
{
    Call { method: Method::Post, path: join3("/api/v1/control/transactions/", reference, "/force"), auth: jwt(token) }
}

/// List webhook events, paginated.
pub fn list_webhooks(token: &str, page: i32, per_page: i32) -> (c: Call)
    ensures
        c@ == (CallView {
            method: Method::Get,
            path: "/api/v1/control/webhooks"@ + page_query(page as int, per_page as int),
            auth: AuthView::Jwt(token@),
        }),
{
    let path = with_page_query(String::from_str("/api/v1/control/webhooks"), page, per_page);
    Call { method: Method::Get, path, auth: jwt(token) }
}

/// Retry delivering a webhook event; the response's data is discarded.
pub fn retry_webhook(token: &str, id: &str) -> (c: Call)
    ensures
        c@ == (CallView {
            method: Method::Post,
            path: "/api/v1/control/webhooks/"@ + id@ + "/retry"@,
            auth: AuthView::Jwt(token@),
        }),
{
    Call { method: Method::Post, path: join3("/api/v1/control/webhooks/", id, "/retry"), auth: jwt(token) }
}

/// The delivery attempts of a webhook event; they come under the data's `data` member.
pub fn get_webhook_attempts(token: &str, id: &str) -> (c: Call)
    ensures
        c@ == (CallView {
            method: Method::Get,
            path: "/api/v1/control/webhooks/"@ + id@ + "/attempts"@,
            auth: AuthView::Jwt(token@),
        }),
{
    Call { method: Method::Get, path: join3("/api/v1/control/webhooks/", id, "/attempts"), auth: jwt(token) }
}

/// The request log, paginated.
pub fn get_logs(token: &str, page: i32, per_page: i32) -> (c: Call)
    ensures
        c@ == (CallView {
            method: Method::Get,
            path: "/api/v1/control/logs"@ + page_query(page as int, per_page as int),
            auth: AuthView::Jwt(token@),
        }),
{
    let path = with_page_query(String::from_str("/api/v1/control/logs"), page, per_page);
    Call { method: Method::Get, path, auth: jwt(token) }
}

/// Clear the request log; the response's data is discarded.
pub fn clear_logs(token: &str) -> (c: Call)
    ensures
        c@ == (CallView { method: Method::Delete, path: "/api/v1/control/logs"@, auth: AuthView::Jwt(token@) }),
{
    Call { method: Method::Delete, path: String::from_str("/api/v1/control/logs"), auth: jwt(token) }
}

/// The path of the OTP log listing: filtered by `reference` when one is
/// given (then the page arguments are not sent), paginated otherwise.
pub open spec fn otp_logs_path(reference: Option<Seq<char>>, page: int, per_page: int) -> Seq<char> {
    match reference {
        Some(r) => "/api/v1/control/otp-logs?reference="@ + r,
        None => "/api/v1/control/otp-logs"@ + page_query(page, per_page),
    }
}

/// Get OTP codes generated during charge flows.
/// Pass `Some(reference)` to filter for a specific transaction.
/// Pass `None` to list all OTP logs paginated.
pub fn get_otp_logs(token: &str, reference: Option<&str>, page: i32, per_page: i32) -> (c: Call)
    ensures
        c@ == (CallView {
            method: Method::Get,
            path: otp_logs_path(opt_text(reference), page as int, per_page as int),
            auth: AuthView::Jwt(token@),
        }),
        reference matches Some(r) ==> c.path@ == "/api/v1/control/otp-logs?reference="@ + r@,
        reference is None ==> c.path@ == "/api/v1/control/otp-logs"@ + page_query(page as int, per_page as int),
{
    let path = match reference {
        Some(r) => join2("/api/v1/control/otp-logs?reference=", r),
        None => with_page_query(String::from_str("/api/v1/control/otp-logs"), page, per_page),
    };
    Call { method: Method::Get, path, auth: jwt(token) }
}

/// With a reference, the OTP log listing is filtered by it alone: the path is
/// the reference filter whatever page and page size are passed, so two
/// listings for the same reference ask for the same thing.
pub proof fn law_otp_logs_reference_filter_ignores_paging(r: Seq<char>, page: int, per_page: int, page2: int, per_page2: int)
    ensures
        otp_logs_path(Some(r), page, per_page) == "/api/v1/control/otp-logs?reference="@ + r,
        otp_logs_path(Some(r), page, per_page) == otp_logs_path(Some(r), page2, per_page2),
        otp_logs_path(None, page, per_page) == "/api/v1/control/otp-logs"@ + page_query(page, per_page),
{
}

/// Where the OTP logs stand in the data of an OTP log response, which comes
/// either as a flat array or paginated as `{ data: [...], meta: {...} }`:
/// the data itself when it is an array, else its `data` member; none (no
/// logs) when it has neither.
pub fn otp_logs_payload(raw: &serde_json::Value) -> (r: Option<serde_json::Value>)
    ensures
        json_is_array(*raw) ==> r == Some(*raw),
        !json_is_array(*raw) ==> r == json_get(*raw, "data"@),
{
    let items = json_as_array(raw);
    if items.is_some() {
        return items;
    }
    json_member(raw, "data")
}

} // verus!

use payfake::client::{Auth, Call, Method};
use payfake::{auth, charge, control, customer, merchant, transaction};

fn is_jwt(c: &Call, token: &str) -> bool {
    matches!(&c.auth, Auth::Jwt(t) if t == token)
}

fn is_sk(c: &Call) -> bool {
    matches!(c.auth, Auth::SecretKey)
}

fn is_public(c: &Call) -> bool {
    matches!(c.auth, Auth::Public)
}

#[test]
fn auth_routes() {
    let c = auth::register();
    assert_eq!(c.method, Method::Post);
    assert_eq!(c.path, "/api/v1/auth/register");
    assert!(is_jwt(&c, ""));

    let c = auth::login();
    assert_eq!(c.method, Method::Post);
    assert_eq!(c.path, "/api/v1/auth/login");
    assert!(is_jwt(&c, ""));

    let c = auth::me("tok");
    assert_eq!(c.method, Method::Get);
    assert_eq!(c.path, "/api/v1/auth/me");
    assert!(is_jwt(&c, "tok"));

    let c = auth::get_keys("tok");
    assert_eq!(c.method, Method::Get);
    assert_eq!(c.path, "/api/v1/auth/keys");
    assert!(is_jwt(&c, "tok"));

    let c = auth::regenerate_keys("tok");
    assert_eq!(c.method, Method::Post);
    assert_eq!(c.path, "/api/v1/auth/keys/regenerate");
    assert!(is_jwt(&c, "tok"));
}

#[test]
fn charge_routes() {
    for c in [charge::card(), charge::mobile_money(), charge::bank()] {
        assert_eq!(c.method, Method::Post);
        assert_eq!(c.path, "/charge");
        assert!(is_sk(&c));
    }
    let steps = [
        (charge::submit_pin(), "/charge/submit_pin"),
        (charge::submit_otp(), "/charge/submit_otp"),
        (charge::submit_birthday(), "/charge/submit_birthday"),
        (charge::submit_address(), "/charge/submit_address"),
        (charge::resend_otp(), "/charge/resend_otp"),
    ];
    for (c, path) in steps {
        assert_eq!(c.method, Method::Post);
        assert_eq!(c.path, path);
        assert!(is_sk(&c));
    }

    let c = charge::fetch("TX_123");
    assert_eq!(c.method, Method::Get);
    assert_eq!(c.path, "/charge/TX_123");
    assert!(is_sk(&c));

    let c = charge::simulate_3ds("TX_123");
    assert_eq!(c.method, Method::Post);
    assert_eq!(c.path, "/api/v1/public/simulate/3ds/TX_123");
    assert!(is_public(&c));
}

#[test]
fn control_fixed_routes() {
    let c = control::get_stats("jwt");
    assert_eq!((c.method, c.path.as_str()), (Method::Get, "/api/v1/control/stats"));
    assert!(is_jwt(&c, "jwt"));
    let c = control::get_scenario("jwt");
    assert_eq!((c.method, c.path.as_str()), (Method::Get, "/api/v1/control/scenario"));
    let c = control::update_scenario("jwt");
    assert_eq!((c.method, c.path.as_str()), (Method::Put, "/api/v1/control/scenario"));
    let c = control::reset_scenario("jwt");
    assert_eq!((c.method, c.path.as_str()), (Method::Post, "/api/v1/control/scenario/reset"));
    let c = control::clear_logs("jwt");
    assert_eq!((c.method, c.path.as_str()), (Method::Delete, "/api/v1/control/logs"));
    assert!(is_jwt(&c, "jwt"));
}

#[test]
fn control_list_transactions_query() {
    let c = control::list_transactions("jwt", 1, 20, None, None);
    assert_eq!(c.method, Method::Get);
    assert_eq!(c.path, "/api/v1/control/transactions?page=1&perPage=20");
    let c = control::list_transactions("jwt", 2, 50, Some("success"), None);
    assert_eq!(c.path, "/api/v1/control/transactions?page=2&perPage=50&status=success");
    let c = control::list_transactions("jwt", 3, 10, None, Some("alice"));
    assert_eq!(c.path, "/api/v1/control/transactions?page=3&perPage=10&search=alice");
    let c = control::list_transactions("jwt", 1, 5, Some("failed"), Some("bob"));
    assert_eq!(c.path, "/api/v1/control/transactions?page=1&perPage=5&status=failed&search=bob");
    assert!(is_jwt(&c, "jwt"));
}

#[test]
fn control_paged_and_id_routes() {
    let c = control::list_customers("jwt", 4, 25);
    assert_eq!(c.path, "/api/v1/control/customers?page=4&perPage=25");
    let c = control::list_webhooks("jwt", 1, 10);
    assert_eq!(c.path, "/api/v1/control/webhooks?page=1&perPage=10");
    let c = control::get_logs("jwt", 7, 100);
    assert_eq!(c.path, "/api/v1/control/logs?page=7&perPage=100");
    let c = control::force_transaction("jwt", "REF9");
    assert_eq!((c.method, c.path.as_str()), (Method::Post, "/api/v1/control/transactions/REF9/force"));
    let c = control::retry_webhook("jwt", "wh_1");
    assert_eq!((c.method, c.path.as_str()), (Method::Post, "/api/v1/control/webhooks/wh_1/retry"));
    let c = control::get_webhook_attempts("jwt", "wh_1");
    assert_eq!((c.method, c.path.as_str()), (Method::Get, "/api/v1/control/webhooks/wh_1/attempts"));
}

#[test]
fn otp_logs_route_filters_or_paginates() {
    let c = control::get_otp_logs("jwt", Some("REF1"), 1, 10);
    assert_eq!(c.method, Method::Get);
    assert_eq!(c.path, "/api/v1/control/otp-logs?reference=REF1");
    let c = control::get_otp_logs("jwt", None, 2, 30);
    assert_eq!(c.path, "/api/v1/control/otp-logs?page=2&perPage=30");
    assert!(is_jwt(&c, "jwt"));
}

#[test]
fn customer_routes() {
    let c = customer::create();
    assert_eq!((c.method, c.path.as_str()), (Method::Post, "/customer"));
    assert!(is_sk(&c));
    let c = customer::list(1, 20);
    assert_eq!((c.method, c.path.as_str()), (Method::Get, "/customer?page=1&perPage=20"));
    let c = customer::fetch("CUS_abc");
    assert_eq!((c.method, c.path.as_str()), (Method::Get, "/customer/CUS_abc"));
    let c = customer::update("CUS_abc");
    assert_eq!((c.method, c.path.as_str()), (Method::Put, "/customer/CUS_abc"));
    let c = customer::transactions("CUS_abc", 2, 15);
    assert_eq!((c.method, c.path.as_str()), (Method::Get, "/customer/CUS_abc/transactions?page=2&perPage=15"));
    assert!(is_sk(&c));
}

#[test]
fn merchant_routes() {
    let c = merchant::get_profile("jwt");
    assert_eq!((c.method, c.path.as_str()), (Method::Get, "/api/v1/merchant"));
    let c = merchant::update_profile("jwt");
    assert_eq!((c.method, c.path.as_str()), (Method::Put, "/api/v1/merchant"));
    let c = merchant::get_webhook_url("jwt");
    assert_eq!((c.method, c.path.as_str()), (Method::Get, "/api/v1/merchant/webhook"));
    let c = merchant::update_webhook_url("jwt");
    assert_eq!((c.method, c.path.as_str()), (Method::Post, "/api/v1/merchant/webhook"));
    let c = merchant::test_webhook("jwt");
    assert_eq!((c.method, c.path.as_str()), (Method::Post, "/api/v1/merchant/webhook/test"));
    assert!(is_jwt(&c, "jwt"));
}

#[test]
fn transaction_routes() {
    let c = transaction::initialize();
    assert_eq!((c.method, c.path.as_str()), (Method::Post, "/transaction/initialize"));
    assert!(is_sk(&c));
    let c = transaction::verify("REF1");
    assert_eq!((c.method, c.path.as_str()), (Method::Get, "/transaction/verify/REF1"));
    let c = transaction::fetch("42");
    assert_eq!((c.method, c.path.as_str()), (Method::Get, "/transaction/42"));
    let c = transaction::list(1, 10, None);
    assert_eq!(c.path, "/transaction?page=1&perPage=10");
    let c = transaction::list(1, 10, Some("pending"));
    assert_eq!(c.path, "/transaction?page=1&perPage=10&status=pending");
    let c = transaction::refund("42");
    assert_eq!((c.method, c.path.as_str()), (Method::Post, "/transaction/42/refund"));
    let c = transaction::public_fetch("ACC_1");
    assert_eq!((c.method, c.path.as_str()), (Method::Get, "/api/v1/public/transaction/ACC_1"));
    assert!(is_public(&c));
    let c = transaction::public_verify("REF1");
    assert_eq!((c.method, c.path.as_str()), (Method::Get, "/api/v1/public/transaction/verify/REF1"));
    assert!(is_public(&c));
}

#[test]
fn negative_and_extreme_page_numbers_render_as_display_does() {
    let c = customer::list(-3, i32::MIN);
    assert_eq!(c.path, format!("/customer?page={}&perPage={}", -3, i32::MIN));
    assert_eq!(c.path, "/customer?page=-3&perPage=-2147483648");
    let c = customer::list(0, i32::MAX);
    assert_eq!(c.path, "/customer?page=0&perPage=2147483647");
    for n in [0, 7, 9, 10, 99, 100, 101, 1000, 123456, -1, -10, -99999] {
        let c = transaction::list(n, n, None);
        assert_eq!(c.path, format!("/transaction?page={}&perPage={}", n, n));
    }
}

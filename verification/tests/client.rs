use std::time::Duration;

use payfake::client::{interpret_envelope, resolve_code, Auth, Call, Method};
use payfake::text::{i32_decimal, trim_end_slashes, u32_decimal};
use payfake::{codes, Config, Envelope, FieldErrors, Inner, PayfakeError, ValidationRule, DEFAULT_BASE_URL};

fn inner(base: &str) -> Inner {
    Inner::new(base, "sk_test_secret".to_string())
}

#[test]
fn default_base_url_and_timeout() {
    let (inner, timeout) = Config { secret_key: "sk_test_x".to_string(), base_url: None, timeout: None }.into_parts();
    assert_eq!(inner.base_url(), "https://api.payfake.co");
    assert_eq!(inner.base_url(), DEFAULT_BASE_URL);
    assert_eq!(inner.secret_key(), "sk_test_x");
    assert_eq!(timeout, Duration::from_secs(30));
}

#[test]
fn configured_base_url_loses_trailing_slashes() {
    let cfg = Config {
        secret_key: "k".to_string(),
        base_url: Some("http://localhost:8080///".to_string()),
        timeout: Some(Duration::from_millis(1500)),
    };
    let (inner, timeout) = cfg.into_parts();
    assert_eq!(inner.base_url(), "http://localhost:8080");
    assert_eq!(timeout, Duration::from_millis(1500));

    let (inner, _) = Config { secret_key: "k".to_string(), base_url: Some("http://h".to_string()), timeout: None }.into_parts();
    assert_eq!(inner.base_url(), "http://h");
}

#[test]
fn trimming_slashes() {
    assert_eq!(trim_end_slashes("a/b//"), "a/b");
    assert_eq!(trim_end_slashes("////"), "");
    assert_eq!(trim_end_slashes(""), "");
    assert_eq!(trim_end_slashes("/x"), "/x");
    assert_eq!(trim_end_slashes("héllo/"), "héllo");
    let once = trim_end_slashes("http://a.b/c//");
    assert_eq!(trim_end_slashes(&once), once);
}

#[test]
fn decimal_rendering() {
    assert_eq!(u32_decimal(0), "0");
    assert_eq!(u32_decimal(u32::MAX), "4294967295");
    assert_eq!(i32_decimal(i32::MIN), "-2147483648");
    assert_eq!(i32_decimal(-7), "-7");
    assert_eq!(i32_decimal(1030), "1030");
}

#[test]
fn secret_key_calls_carry_the_secret_key() {
    let i = inner("http://localhost:8080/");
    let out = i.do_sk(Method::Post, "/charge");
    assert_eq!(out.url, "http://localhost:8080/charge");
    assert_eq!(out.bearer.as_deref(), Some("sk_test_secret"));
    assert_eq!(out.method, Method::Post);
    assert_eq!(out.content_type, "application/json");
    assert_eq!(out.accept, "application/json");
}

#[test]
fn empty_jwt_means_no_token() {
    let i = inner("http://h");
    let out = i.do_jwt(Method::Post, "/api/v1/auth/login", "");
    assert_eq!(out.bearer, None);
    let out = i.do_jwt(Method::Get, "/api/v1/auth/me", "jwt-1");
    assert_eq!(out.bearer.as_deref(), Some("jwt-1"));
    assert_eq!(out.url, "http://h/api/v1/auth/me");
}

#[test]
fn public_calls_carry_no_token() {
    let i = inner("http://h");
    let out = i.do_public(Method::Get, "/api/v1/public/transaction/ACC");
    assert_eq!(out.bearer, None);
    assert_eq!(out.url, "http://h/api/v1/public/transaction/ACC");
    let out = i.request(Method::Put, "/p", Some("t"));
    assert_eq!(out.bearer.as_deref(), Some("t"));
}

#[test]
fn prepare_dispatches_on_authentication() {
    let i = inner("http://h/");
    let call = Call { method: Method::Get, path: "/x".to_string(), auth: Auth::SecretKey };
    assert_eq!(i.prepare(&call).bearer.as_deref(), Some("sk_test_secret"));
    let call = Call { method: Method::Get, path: "/x".to_string(), auth: Auth::Jwt(String::new()) };
    assert_eq!(i.prepare(&call).bearer, None);
    let call = Call { method: Method::Delete, path: "/x".to_string(), auth: Auth::Jwt("j".to_string()) };
    let out = i.prepare(&call);
    assert_eq!(out.bearer.as_deref(), Some("j"));
    assert_eq!(out.method, Method::Delete);
    assert_eq!(out.url, "http://h/x");
    let call = Call { method: Method::Get, path: "/x".to_string(), auth: Auth::Public };
    assert_eq!(i.prepare(&call).bearer, None);
}

#[test]
fn missing_code_header_reports_unknown_error() {
    assert_eq!(resolve_code(None), "UNKNOWN_ERROR");
    assert_eq!(resolve_code(Some("CHARGE_FAILED".to_string())), "CHARGE_FAILED");
}

fn rule(r: &str, m: &str) -> ValidationRule {
    ValidationRule { rule: r.to_string(), message: m.to_string() }
}

#[test]
fn successful_envelope_yields_its_data() {
    let env = Envelope {
        status: true,
        message: "ok".to_string(),
        data: {
            let mut m = serde_json::Map::new();
            m.insert("reference".to_string(), serde_json::Value::String("R1".to_string()));
            serde_json::Value::Object(m)
        },
        errors: FieldErrors::new(),
    };
    let r = interpret_envelope(env, None, 200).unwrap();
    assert_eq!(r["reference"], "R1");
}

#[test]
fn failed_envelope_is_an_error_whatever_the_http_status() {
    let env = Envelope {
        status: false,
        message: "Validation failed".to_string(),
        data: serde_json::Value::Null,
        errors: {
            let mut e = FieldErrors::new();
            e.insert("email".to_string(), vec![rule("required", "email is required"), rule("email", "must be an email")]);
            e.insert("amount".to_string(), vec![rule("min", "too small")]);
            e.insert("name".to_string(), vec![]);
            e
        },
    };
    match interpret_envelope(env, Some(codes::VALIDATION_ERROR.to_string()), 200) {
        Err(PayfakeError::Api { code, message, fields, http_status }) => {
            assert_eq!(code, "VALIDATION_ERROR");
            assert_eq!(message, "Validation failed");
            assert_eq!(http_status, 200);
            assert_eq!(fields.len(), 3);
            assert_eq!((fields[0].field.as_str(), fields[0].rule.as_str()), ("email", "required"));
            assert_eq!(fields[0].message, "email is required");
            assert_eq!((fields[1].field.as_str(), fields[1].rule.as_str()), ("email", "email"));
            assert_eq!((fields[2].field.as_str(), fields[2].rule.as_str()), ("amount", "min"));
            assert_eq!(fields[2].message, "too small");
        }
        other => panic!("expected an API error, got {:?}", other),
    }

    let env = Envelope { status: false, message: "nope".to_string(), data: serde_json::Value::Null, errors: FieldErrors::new() };
    match interpret_envelope(env, None, 402) {
        Err(e) => {
            assert!(e.is_code("UNKNOWN_ERROR"));
            match e {
                PayfakeError::Api { http_status, fields, .. } => {
                    assert_eq!(http_status, 402);
                    assert!(fields.is_empty());
                }
                _ => panic!("expected an API error"),
            }
        }
        Ok(_) => panic!("expected an error"),
    }
}

#[test]
fn is_code_and_code_agree() {
    let e = PayfakeError::Api {
        code: codes::CHARGE_INVALID_OTP.to_string(),
        message: "bad otp".to_string(),
        fields: vec![],
        http_status: 400,
    };
    assert!(e.is_code(codes::CHARGE_INVALID_OTP));
    assert!(!e.is_code(codes::CHARGE_FAILED));
    assert!(!e.is_code(""));
    assert_eq!(e.code(), Some("CHARGE_INVALID_OTP"));

    let json_err = serde_json::from_str::<serde_json::Value>("{").unwrap_err();
    let e = PayfakeError::Json(json_err);
    assert_eq!(e.code(), None);
    assert!(!e.is_code("UNKNOWN_ERROR"));
}

#[test]
fn code_constants() {
    assert_eq!(codes::EMAIL_TAKEN, "AUTH_EMAIL_TAKEN");
    assert_eq!(codes::RATE_LIMITED, "RATE_LIMIT_EXCEEDED");
    assert_eq!(codes::MOMO_PROVIDER_UNAVAILABLE, "CHARGE_MOMO_PROVIDER_UNAVAILABLE");
    assert_eq!(codes::REFERENCE_TAKEN, "TRANSACTION_REFERENCE_TAKEN");
}

#[test]
fn every_request_sends_json_headers() {
    let i = inner("http://h");
    for out in [i.do_public(Method::Get, "/a"), i.do_jwt(Method::Put, "/b", "t"), i.request(Method::Delete, "/c", None)] {
        assert_eq!(out.content_type, "application/json");
        assert_eq!(out.accept, "application/json");
    }
}

#[test]
fn field_errors_keep_each_name_once() {
    let mut e = FieldErrors::new();
    e.insert("email".to_string(), vec![rule("required", "a")]);
    e.insert("amount".to_string(), vec![rule("min", "b")]);
    e.insert("email".to_string(), vec![rule("email", "c"), rule("max", "d")]);
    let entries = e.entries();
    assert_eq!(entries.len(), 2);
    assert_eq!(entries[0].0, "email");
    assert_eq!(entries[0].1.len(), 2);
    assert_eq!(entries[0].1[0].rule, "email");
    assert_eq!(entries[1].0, "amount");
}

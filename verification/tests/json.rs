use payfake::control::otp_logs_payload;
use serde_json::Value;

fn array_of_one() -> Value {
    let mut log = serde_json::Map::new();
    log.insert("otp_code".to_string(), Value::String("123456".to_string()));
    Value::Array(vec![Value::Object(log)])
}

#[test]
fn flat_array_of_otp_logs_is_taken_as_is() {
    let raw = array_of_one();
    assert_eq!(otp_logs_payload(&raw), Some(raw.clone()));
}

#[test]
fn paginated_otp_logs_come_from_data_member() {
    let mut obj = serde_json::Map::new();
    obj.insert("data".to_string(), array_of_one());
    obj.insert("meta".to_string(), Value::Object(serde_json::Map::new()));
    let raw = Value::Object(obj);
    assert_eq!(otp_logs_payload(&raw), Some(array_of_one()));
}

#[test]
fn neither_shape_gives_no_otp_logs() {
    assert_eq!(otp_logs_payload(&Value::Null), None);
    let mut obj = serde_json::Map::new();
    obj.insert("items".to_string(), array_of_one());
    assert_eq!(otp_logs_payload(&Value::Object(obj)), None);
}

#[test]
fn transaction_clone_keeps_metadata() {
    let t = payfake::Transaction {
        id: "1".to_string(),
        domain: "test".to_string(),
        status: "success".to_string(),
        reference: "R".to_string(),
        amount: 10000,
        message: None,
        gateway_response: "Approved".to_string(),
        paid_at: None,
        created_at: "now".to_string(),
        channel: "card".to_string(),
        currency: "GHS".to_string(),
        fees: 150,
        metadata: array_of_one(),
        customer: Some(payfake::CustomerSummary {
            id: "c1".to_string(),
            customer_code: "CUS_1".to_string(),
            email: "a@b.c".to_string(),
            first_name: "Ama".to_string(),
            last_name: "Mensah".to_string(),
        }),
        authorization: Some(payfake::Authorization {
            authorization_code: "AUTH_1".to_string(),
            last4: "0000".to_string(),
            reusable: true,
            ..Default::default()
        }),
    };
    let c = t.clone();
    assert_eq!(c.metadata, t.metadata);
    assert_eq!(c.reference, "R");
    assert_eq!(c.fees, 150);
    let cs = c.customer.expect("customer kept");
    assert_eq!(cs.customer_code, "CUS_1");
    assert_eq!(cs.last_name, "Mensah");
    let a = c.authorization.expect("authorization kept");
    assert_eq!(a.authorization_code, "AUTH_1");
    assert_eq!(a.last4, "0000");
    assert!(a.reusable);

    let mut bare = t.clone();
    bare.customer = None;
    bare.authorization = None;
    let copy = bare.clone();
    assert!(copy.customer.is_none());
    assert!(copy.authorization.is_none());
}

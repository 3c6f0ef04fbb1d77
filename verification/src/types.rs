//! Request and response shapes of the Payfake API.
//!
//! These are plain data. Their JSON encodings (field names, omitted empty
//! fields, defaults) belong to the transport layer; what the SDK decides
//! about a request or a response is in `client` and the namespace modules.

use vstd::prelude::*;

use crate::json::json_clone;

verus! {

//  Internal envelope

/// One broken validation rule of one field, as the envelope lists it.
#[derive(Debug, Clone)]
pub struct ValidationRule {
    pub rule: String,
    pub message: String,
}

/// Model of a [`ValidationRule`]: the rule's name and its message.
pub struct ValidationRuleView {
    pub rule: Seq<char>,
    pub message: Seq<char>,
}

impl View for ValidationRule {
    type V = ValidationRuleView;

    open spec fn view(&self) -> ValidationRuleView {
        ValidationRuleView { rule: self.rule@, message: self.message@ }
    }
}

/// Model of an error listing: per field name, the rules it broke.
pub open spec fn errors_view(errs: Seq<(String, Vec<ValidationRule>)>) -> Seq<(Seq<char>, Seq<ValidationRuleView>)> {
    errs.map_values(|p: (String, Vec<ValidationRule>)| (p.0@, p.1@.map_values(|r: ValidationRule| r@)))
}

/// No field name occurs twice in an error listing.
pub open spec fn names_distinct(errs: Seq<(Seq<char>, Seq<ValidationRuleView>)>) -> bool {
    forall|i: int, j: int| 0 <= i < j < errs.len() ==> errs[i].0 != errs[j].0
}

/// The error listing of an envelope: a map from field name to the rules
/// that field broke. Each field name occurs at most once; the order of the
/// fields is the order in which they were inserted.
#[derive(Debug)]
pub struct FieldErrors {
    entries: Vec<(String, Vec<ValidationRule>)>,
}

impl View for FieldErrors {
    type V = Seq<(Seq<char>, Seq<ValidationRuleView>)>;

    closed spec fn view(&self) -> Seq<(Seq<char>, Seq<ValidationRuleView>)> {
        errors_view(self.entries@)
    }
}

/// Where `name` stands in `entries`, if anywhere.
fn position_of(entries: &Vec<(String, Vec<ValidationRule>)>, name: &String) -> (r: Option<usize>)
    ensures
        match r {
            Some(i) => i < entries@.len() && entries@[i as int].0@ == name@,
            None => forall|k: int| 0 <= k < entries@.len() ==> entries@[k].0@ != name@,
        },
{
    let mut i: usize = 0;
    while i < entries.len()
        invariant
            i <= entries@.len(),
            forall|k: int| 0 <= k < i ==> entries@[k].0@ != name@,
        decreases entries@.len() - i,
    {
        if entries[i].0 == *name {
            return Some(i);
        }
        i = i + 1;
    }
    None
}

impl FieldErrors {
    #[verifier::type_invariant]
    spec fn field_names_are_distinct(self) -> bool {
        names_distinct(errors_view(self.entries@))
    }

    /// An empty listing.
    pub fn new() -> (r: FieldErrors)
        ensures
            r@ == Seq::<(Seq<char>, Seq<ValidationRuleView>)>::empty(),
    {
        let r = FieldErrors { entries: Vec::new() };
        assert(errors_view(r.entries@) =~= Seq::<(Seq<char>, Seq<ValidationRuleView>)>::empty());
        r
    }

    /// Sets the rules of field `name`, as a map insertion does: a field
    /// already listed keeps its place and gets the new rules; a new field is
    /// added at the end.
    pub fn insert(&mut self, name: String, rules: Vec<ValidationRule>)
        ensures
            names_distinct(final(self)@),
            (exists|i: int| 0 <= i < old(self)@.len() && old(self)@[i].0 == name@) ==> (exists|i: int|
                0 <= i < old(self)@.len() && old(self)@[i].0 == name@ && final(self)@ == old(self)@.update(
                    i,
                    (name@, rules@.map_values(|r: ValidationRule| r@)),
                )),
            !(exists|i: int| 0 <= i < old(self)@.len() && old(self)@[i].0 == name@) ==> final(self)@ == old(self)@.push(
                (name@, rules@.map_values(|r: ValidationRule| r@)),
            ),
    {
        proof { use_type_invariant(&*self); }
        let ghost before = self@;
        let mut entries: Vec<(String, Vec<ValidationRule>)> = Vec::new();
        assert(names_distinct(errors_view(entries@)));
        std::mem::swap(&mut entries, &mut self.entries);
        assert(errors_view(entries@) == before);
        let ghost rv = rules@.map_values(|r: ValidationRule| r@);
        let ghost nv = name@;
        match position_of(&entries, &name) {
            Some(i) => {
                entries.set(i, (name, rules));
                proof {
                    assert(errors_view(entries@) =~= before.update(i as int, (nv, rv)));
                    assert(before[i as int].0 == nv);
                }
            },
            None => {
                entries.push((name, rules));
                proof {
                    assert(errors_view(entries@) =~= before.push((nv, rv)));
                    assert forall|k: int| 0 <= k < before.len() implies before[k].0 != nv by {
                        assert(before[k].0 == entries@[k].0@);
                    }
                }
            },
        }
        self.entries = entries;
    }

    /// The listing's entries, in order.
    pub fn entries(&self) -> (r: &Vec<(String, Vec<ValidationRule>)>)
        ensures
            errors_view(r@) == self@,
            names_distinct(self@),
    {
        proof { use_type_invariant(self); }
        &self.entries
    }
}

/// Paystack-compatible response envelope.
/// `status` is true on success and false on any failure.
#[derive(Debug)]
pub struct Envelope {
    pub status: bool,
    pub message: String,
    pub data: serde_json::Value,
    pub errors: FieldErrors,
}

//  Pagination

/// Paystack-compatible pagination metadata.
#[derive(Debug, Clone, Default)]
pub struct PaginationMeta {
    pub total: i64,
    pub skipped: i32,
    pub per_page: i32,
    pub page: i32,
    pub page_count: i32,
}

//  Auth

#[derive(Debug)]
pub struct RegisterInput {
    pub business_name: String,
    pub email: String,
    pub password: String,
}

#[derive(Debug)]
pub struct LoginInput {
    pub email: String,
    pub password: String,
}

#[derive(Debug, Clone)]
pub struct AuthResponse {
    pub merchant: MerchantSummary,
    pub access_token: String,
}

#[derive(Debug, Clone)]
pub struct MerchantSummary {
    pub id: String,
    pub business_name: String,
    pub email: String,
    pub public_key: String,
}

#[derive(Debug, Clone)]
pub struct KeysResponse {
    pub public_key: String,
    pub secret_key: String,
}

//  Transaction

#[derive(Debug, Default)]
pub struct InitializeInput {
    pub email: String,
    pub amount: i64,
    pub currency: String,
    pub reference: String,
    pub callback_url: String,
    pub channels: Vec<String>,
    pub metadata: Option<serde_json::Value>,
}

/// Matches Paystack's initialize response exactly:
/// { "authorization_url": "...", "access_code": "...", "reference": "..." }
#[derive(Debug, Clone)]
pub struct InitializeResponse {
    pub authorization_url: String,
    pub access_code: String,
    pub reference: String,
}

/// Full transaction object matching Paystack's shape.
#[derive(Debug)]
pub struct Transaction {
    pub id: String,
    pub domain: String,
    pub status: String,
    pub reference: String,
    pub amount: i64,
    pub message: Option<String>,
    pub gateway_response: String,
    pub paid_at: Option<String>,
    pub created_at: String,
    pub channel: String,
    pub currency: String,
    pub fees: i64,
    pub metadata: serde_json::Value,
    pub customer: Option<CustomerSummary>,
    pub authorization: Option<Authorization>,
}

/// Two payment instruments hold the same values.
pub open spec fn same_authorization(a: Authorization, b: Authorization) -> bool {
        &&& a.authorization_code@ == b.authorization_code@
        &&& a.bin@ == b.bin@
        &&& a.last4@ == b.last4@
        &&& a.exp_month@ == b.exp_month@
        &&& a.exp_year@ == b.exp_year@
        &&& a.channel@ == b.channel@
        &&& a.card_type@ == b.card_type@
        &&& a.bank@ == b.bank@
        &&& a.country_code@ == b.country_code@
        &&& a.brand@ == b.brand@
        &&& a.signature@ == b.signature@
        &&& a.reusable == b.reusable
}

/// Two customer summaries hold the same values.
pub open spec fn same_customer_summary(a: CustomerSummary, b: CustomerSummary) -> bool {
        &&& a.id@ == b.id@
        &&& a.customer_code@ == b.customer_code@
        &&& a.email@ == b.email@
        &&& a.first_name@ == b.first_name@
        &&& a.last_name@ == b.last_name@
}

/// Two optional values are both absent, or both present and alike by `same`.
pub open spec fn same_option<T>(a: Option<T>, b: Option<T>, same: spec_fn(T, T) -> bool) -> bool {
    match (a, b) {
        (Some(x), Some(y)) => same(x, y),
        (None, None) => true,
        _ => false,
    }
}

impl Clone for Authorization {
    fn clone(&self) -> (c: Self)
        ensures
            same_authorization(c, *self),
    {
        Authorization {
            authorization_code: self.authorization_code.clone(),
            bin: self.bin.clone(),
            last4: self.last4.clone(),
            exp_month: self.exp_month.clone(),
            exp_year: self.exp_year.clone(),
            channel: self.channel.clone(),
            card_type: self.card_type.clone(),
            bank: self.bank.clone(),
            country_code: self.country_code.clone(),
            brand: self.brand.clone(),
            signature: self.signature.clone(),
            reusable: self.reusable,
        }
    }
}

impl Clone for CustomerSummary {
    fn clone(&self) -> (c: Self)
        ensures
            same_customer_summary(c, *self),
    {
        CustomerSummary {
            id: self.id.clone(),
            customer_code: self.customer_code.clone(),
            email: self.email.clone(),
            first_name: self.first_name.clone(),
            last_name: self.last_name.clone(),
        }
    }
}

impl Clone for Transaction {
    fn clone(&self) -> (c: Self)
        ensures
            c.id@ == self.id@,
            c.domain@ == self.domain@,
            c.status@ == self.status@,
            c.reference@ == self.reference@,
            c.amount == self.amount,
            c.message.deep_view() == self.message.deep_view(),
            c.gateway_response@ == self.gateway_response@,
            c.paid_at.deep_view() == self.paid_at.deep_view(),
            c.created_at@ == self.created_at@,
            c.channel@ == self.channel@,
            c.currency@ == self.currency@,
            c.fees == self.fees,
            c.metadata == self.metadata,
            same_option(c.customer, self.customer, |x: CustomerSummary, y: CustomerSummary| same_customer_summary(x, y)),
            same_option(c.authorization, self.authorization, |x: Authorization, y: Authorization| same_authorization(x, y)),
    {
        Transaction {
            id: self.id.clone(),
            domain: self.domain.clone(),
            status: self.status.clone(),
            reference: self.reference.clone(),
            amount: self.amount,
            message: self.message.clone(),
            gateway_response: self.gateway_response.clone(),
            paid_at: self.paid_at.clone(),
            created_at: self.created_at.clone(),
            channel: self.channel.clone(),
            currency: self.currency.clone(),
            fees: self.fees,
            metadata: json_clone(&self.metadata),
            customer: match &self.customer {
                Some(cs) => Some(cs.clone()),
                None => None,
            },
            authorization: match &self.authorization {
                Some(a) => Some(a.clone()),
                None => None,
            },
        }
    }
}

/// Payment instrument object, store authorization_code for recurring charges.
#[derive(Debug, Default)]
pub struct Authorization {
    pub authorization_code: String,
    pub bin: String,
    pub last4: String,
    pub exp_month: String,
    pub exp_year: String,
    pub channel: String,
    pub card_type: String,
    pub bank: String,
    pub country_code: String,
    pub brand: String,
    pub reusable: bool,
    pub signature: String,
}

#[derive(Debug, Clone)]
pub struct TransactionList {
    pub data: Vec<Transaction>,
    pub meta: PaginationMeta,
}

/// Returned by GET /api/v1/public/transaction/:access_code.
#[derive(Debug, Clone)]
pub struct PublicTransactionResponse {
    pub amount: i64,
    pub currency: String,
    pub status: String,
    pub reference: String,
    pub callback_url: String,
    pub access_code: String,
    pub merchant: Option<PublicMerchant>,
    pub customer: Option<PublicCustomer>,
    pub charge: Option<PublicCharge>,
}

#[derive(Debug, Clone, Default)]
pub struct PublicMerchant {
    pub business_name: String,
    pub public_key: String,
}

#[derive(Debug, Clone, Default)]
pub struct PublicCustomer {
    pub email: String,
    pub first_name: String,
    pub last_name: String,
}

/// Charge state embedded in public transaction responses.
/// Check flow_status during MoMo polling.
#[derive(Debug, Clone, Default)]
pub struct PublicCharge {
    pub flow_status: String,
    pub status: String,
    pub error_code: String,
    pub channel: String,
}

/// Returned by GET /api/v1/public/transaction/verify/:reference.
#[derive(Debug, Clone)]
pub struct PublicVerifyResponse {
    pub status: String,
    pub reference: String,
    pub amount: i64,
    pub currency: String,
    pub paid_at: Option<String>,
    pub charge: Option<PublicCharge>,
}

//  Charge

#[derive(Debug, Clone, Default)]
pub struct CardDetails {
    pub number: String,
    pub cvv: String,
    pub expiry_month: String,
    pub expiry_year: String,
}

#[derive(Debug, Clone, Default)]
pub struct MomoDetails {
    pub phone: String,
    pub provider: String,
}

#[derive(Debug, Clone, Default)]
pub struct BankDetails {
    pub code: String,
    pub account_number: String,
}

#[derive(Debug, Default)]
pub struct ChargeCardInput {
    pub email: String,
    pub amount: Option<i64>,
    pub access_code: Option<String>,
    pub reference: Option<String>,
    pub card: CardDetails,
}

#[derive(Debug, Default)]
pub struct ChargeMomoInput {
    pub email: String,
    pub amount: Option<i64>,
    pub access_code: Option<String>,
    pub reference: Option<String>,
    pub mobile_money: MomoDetails,
}

#[derive(Debug, Default)]
pub struct ChargeBankInput {
    pub email: String,
    pub amount: Option<i64>,
    pub access_code: Option<String>,
    pub reference: Option<String>,
    pub bank: BankDetails,
    pub birthday: Option<String>,
}

#[derive(Debug)]
pub struct SubmitPINInput {
    pub reference: String,
    pub pin: String,
}

#[derive(Debug)]
pub struct SubmitOTPInput {
    pub reference: String,
    pub otp: String,
}

#[derive(Debug)]
pub struct SubmitBirthdayInput {
    pub reference: String,
    /// Format: YYYY-MM-DD
    pub birthday: String,
}

#[derive(Debug)]
pub struct SubmitAddressInput {
    pub reference: String,
    pub address: String,
    pub city: String,
    pub state: String,
    pub zip_code: String,
    pub country: String,
}

#[derive(Debug)]
pub struct ResendOTPInput {
    pub reference: String,
}

/// Returned by every charge step endpoint.
///
/// Read `status` to decide what the checkout page renders next:
/// - `"send_pin"`      → show PIN input, call `submit_pin`
/// - `"send_otp"`      → show OTP input, call `submit_otp`
/// - `"send_birthday"` → show DOB input, call `submit_birthday`
/// - `"send_address"`  → show address form, call `submit_address`
/// - `"open_url"`      → open `url` in checkout app 3DS page
/// - `"pay_offline"`   → show approve on phone screen, poll `public_verify`
/// - `"success"`       → payment complete, webhook fired
/// - `"failed"`        → payment declined
#[derive(Debug, Clone, Default)]
pub struct ChargeFlowResponse {
    pub status: String,
    pub reference: String,
    pub display_text: String,
    /// Populated when status is "open_url" (3DS).
    pub url: String,
    pub amount: i64,
    pub currency: String,
    pub channel: String,
    pub gateway_response: String,
    pub authorization: Option<Authorization>,
}

/// A generated OTP stored for developer inspection.
/// OTPs are never returned in API responses, read them here during testing.
#[derive(Debug, Clone)]
pub struct OTPLog {
    pub id: String,
    pub merchant_id: String,
    pub reference: String,
    pub channel: String,
    /// The 6-digit OTP — use this in submit_otp during testing.
    pub otp_code: String,
    pub step: String,
    pub used: bool,
    pub expires_at: String,
    pub created_at: String,
}

//  Customer

#[derive(Debug, Default)]
pub struct CreateCustomerInput {
    pub email: String,
    pub first_name: String,
    pub last_name: String,
    pub phone: String,
    pub metadata: Option<serde_json::Value>,
}

#[derive(Debug, Default)]
pub struct UpdateCustomerInput {
    pub first_name: Option<String>,
    pub last_name: Option<String>,
    pub phone: Option<String>,
    pub metadata: Option<serde_json::Value>,
}

#[derive(Debug, Clone)]
pub struct Customer {
    pub id: String,
    pub customer_code: String,
    pub email: String,
    pub first_name: String,
    pub last_name: String,
    pub phone: String,
    pub domain: String,
    pub created_at: String,
}

#[derive(Debug, Default)]
pub struct CustomerSummary {
    pub id: String,
    pub customer_code: String,
    pub email: String,
    pub first_name: String,
    pub last_name: String,
}

#[derive(Debug, Clone)]
pub struct CustomerList {
    pub data: Vec<Customer>,
    pub meta: PaginationMeta,
}

//  Merchant

#[derive(Debug, Clone)]
pub struct MerchantProfile {
    pub id: String,
    pub business_name: String,
    pub email: String,
    pub public_key: String,
    pub webhook_url: String,
    pub is_active: bool,
    pub created_at: String,
    pub updated_at: String,
}

#[derive(Debug, Default)]
pub struct UpdateProfileInput {
    pub business_name: Option<String>,
    pub webhook_url: Option<String>,
}

#[derive(Debug, Clone)]
pub struct WebhookConfig {
    pub webhook_url: String,
    pub is_set: bool,
}

//  Control

#[derive(Debug, Default)]
pub struct ForceTransactionInput {
    pub status: String,
    pub error_code: Option<String>,
}

#[derive(Debug, Clone)]
pub struct WebhookEvent {
    pub id: String,
    pub event: String,
    pub transaction_id: String,
    pub delivered: bool,
    pub attempts: i32,
    pub created_at: String,
}

#[derive(Debug, Clone)]
pub struct WebhookAttempt {
    pub id: String,
    pub status_code: i32,
    pub response_body: String,
    pub succeeded: bool,
    pub attempted_at: String,
}

#[derive(Debug, Clone)]
pub struct WebhookList {
    pub data: Vec<WebhookEvent>,
    pub meta: PaginationMeta,
}

#[derive(Debug, Clone)]
pub struct RequestLog {
    pub id: String,
    pub method: String,
    pub path: String,
    pub status_code: i32,
    pub request_body: String,
    pub response_body: String,
    pub duration_ms: i64,
    pub request_id: String,
    pub logged_at: String,
}

#[derive(Debug, Clone)]
pub struct LogList {
    pub data: Vec<RequestLog>,
    pub meta: PaginationMeta,
}

} // verus!

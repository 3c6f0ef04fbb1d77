//! What the SDK decides around each HTTP exchange: which URL a call goes to,
//! which bearer token (if any) it carries, and how the response envelope
//! turns into a result or an error.

use vstd::prelude::*;

use crate::errors::{ErrorField, ErrorFieldView, PayfakeError};
use crate::text::trim_end_slashes;
use crate::types::{errors_view, Envelope, FieldErrors, ValidationRule, ValidationRuleView};

verus! {

/// Code reported for a failed call whose response carries no usable
/// `X-Payfake-Code` header.
pub const UNKNOWN_ERROR_CODE: &'static str = "UNKNOWN_ERROR";

/// HTTP method of a call.
#[derive(Debug, Clone, Copy, PartialEq, Eq, Structural)]
pub enum Method {
    Get,
    Post,
    Put,
    Delete,
}

/// How a call authenticates.
#[derive(Debug, Clone)]
pub enum Auth {
    /// Bearer merchant secret key: Paystack-compatible endpoints.
    SecretKey,
    /// Bearer JWT from `auth.login`: Payfake-specific endpoints.
    /// An empty token means the call goes unauthenticated.
    Jwt(String),
    /// No authentication: public checkout endpoints.
    Public,
}

/// Model of [`Auth`].
pub enum AuthView {
    SecretKey,
    Jwt(Seq<char>),
    Public,
}

impl View for Auth {
    type V = AuthView;

    open spec fn view(&self) -> AuthView {
        match self {
            Auth::SecretKey => AuthView::SecretKey,
            Auth::Jwt(t) => AuthView::Jwt(t@),
            Auth::Public => AuthView::Public,
        }
    }
}

/// One API call as an endpoint describes it: method, path under the base
/// URL, and authentication. A request body, where there is one, travels
/// beside it.
#[derive(Debug, Clone)]
pub struct Call {
    pub method: Method,
    pub path: String,
    pub auth: Auth,
}

/// Model of [`Call`].
pub struct CallView {
    pub method: Method,
    pub path: Seq<char>,
    pub auth: AuthView,
}

impl View for Call {
    type V = CallView;

    open spec fn view(&self) -> CallView {
        CallView { method: self.method, path: self.path@, auth: self.auth@ }
    }
}

/// Media type that every request declares for its body and accepts back.
pub const JSON_MEDIA_TYPE: &'static str = "application/json";

/// A call ready for the wire: method, absolute URL, the bearer token to send
/// (if any), and the `Content-Type` and `Accept` header values.
#[derive(Debug)]
pub struct Outgoing {
    pub method: Method,
    pub url: String,
    pub bearer: Option<String>,
    pub content_type: String,
    pub accept: String,
}

/// Model of [`Outgoing`].
pub struct OutgoingView {
    pub method: Method,
    pub url: Seq<char>,
    pub bearer: Option<Seq<char>>,
    pub content_type: Seq<char>,
    pub accept: Seq<char>,
}

impl View for Outgoing {
    type V = OutgoingView;

    open spec fn view(&self) -> OutgoingView {
        OutgoingView {
            method: self.method,
            url: self.url@,
            bearer: self.bearer.deep_view(),
            content_type: self.content_type@,
            accept: self.accept@,
        }
    }
}

/// The request with `method`, `url` and `bearer`: like every request, it
/// sends `Content-Type: application/json` and `Accept: application/json`.
pub open spec fn json_request(method: Method, url: Seq<char>, bearer: Option<Seq<char>>) -> OutgoingView {
    OutgoingView { method, url, bearer, content_type: JSON_MEDIA_TYPE@, accept: JSON_MEDIA_TYPE@ }
}

/// The bearer token that a JWT call sends: none when the token is empty.
pub open spec fn jwt_bearer(token: Seq<char>) -> Option<Seq<char>> {
    if token.len() == 0 { None } else { Some(token) }
}

/// The bearer token that a call with authentication `auth` sends.
pub open spec fn bearer_for(auth: AuthView, secret_key: Seq<char>) -> Option<Seq<char>> {
    match auth {
        AuthView::SecretKey => Some(secret_key),
        AuthView::Jwt(t) => jwt_bearer(t),
        AuthView::Public => None,
    }
}

/// Shared state of all namespaces: the base URL, which never ends in `/`,
/// and the merchant secret key.
#[derive(Debug)]
pub struct Inner {
    base_url: String,
    secret_key: String,
}

/// Model of [`Inner`].
pub struct InnerView {
    pub base_url: Seq<char>,
    pub secret_key: Seq<char>,
}

impl View for Inner {
    type V = InnerView;

    closed spec fn view(&self) -> InnerView {
        InnerView { base_url: self.base_url@, secret_key: self.secret_key@ }
    }
}

/// Whether `s` is empty or ends in something other than `/`.
pub open spec fn no_trailing_slash(s: Seq<char>) -> bool {
    s.len() == 0 || s.last() != '/'
}

impl Inner {
    #[verifier::type_invariant]
    spec fn base_url_has_no_trailing_slash(self) -> bool {
        no_trailing_slash(self.base_url@)
    }

    /// Builds the shared state; trailing slashes of the base URL are removed.
    pub fn new(base_url: &str, secret_key: String) -> (r: Inner)
        ensures
            r@.base_url == crate::text::trim_trailing_slashes(base_url@),
            r@.secret_key == secret_key@,
    {
        proof { crate::text::lemma_trim_no_trailing_slash(base_url@); }
        Inner { base_url: trim_end_slashes(base_url), secret_key }
    }

    /// The base URL, which never ends in `/`.
    pub fn base_url(&self) -> (r: &str)
        ensures
            r@ == self@.base_url,
            no_trailing_slash(r@),
    {
        proof { use_type_invariant(self); }
        self.base_url.as_str()
    }

    /// The merchant secret key.
    pub fn secret_key(&self) -> (r: &str)
        ensures
            r@ == self@.secret_key,
    {
        self.secret_key.as_str()
    }

    /// The request for `path` under the base URL, with the bearer token `token`.
    pub fn request(&self, method: Method, path: &str, token: Option<&str>) -> (r: Outgoing)
        ensures
            r@ == json_request(method, self@.base_url + path@, match token { Some(t) => Some(t@), None => None }),
            r.method == method,
            r.url@ == self@.base_url + path@,
            r.bearer.deep_view() == (match token { Some(t) => Some(t@), None => None::<Seq<char>> }),
            r.content_type@ == JSON_MEDIA_TYPE@,
            r.accept@ == JSON_MEDIA_TYPE@,
    {
        let url = self.base_url.clone().concat(path);
        let bearer = match token {
            Some(t) => Some(String::from_str(t)),
            None => None,
        };
        Outgoing {
            method,
            url,
            bearer,
            content_type: String::from_str(JSON_MEDIA_TYPE),
            accept: String::from_str(JSON_MEDIA_TYPE),
        }
    }

    /// Authenticated with the secret key — Paystack-compatible endpoints.
    pub fn do_sk(&self, method: Method, path: &str) -> (r: Outgoing)
        ensures
            r@ == json_request(method, self@.base_url + path@, Some(self@.secret_key)),
            r.method == method,
            r.url@ == self@.base_url + path@,
            r.bearer.deep_view() == Some(self@.secret_key),
    {
        self.request(method, path, Some(self.secret_key.as_str()))
    }

    /// Authenticated with a JWT — Payfake-specific endpoints.
    /// An empty token sends no `Authorization` header.
    pub fn do_jwt(&self, method: Method, path: &str, token: &str) -> (r: Outgoing)
        ensures
            r@ == json_request(method, self@.base_url + path@, jwt_bearer(token@)),
            r.method == method,
            r.url@ == self@.base_url + path@,
            token@.len() > 0 ==> r.bearer.deep_view() == Some(token@),
            token@.len() == 0 ==> r.bearer is None,
    {
        self.request(method, path, if token.is_empty() { None } else { Some(token) })
    }

    /// Unauthenticated — public checkout endpoints.
    pub fn do_public(&self, method: Method, path: &str) -> (r: Outgoing)
        ensures
            r@ == json_request(method, self@.base_url + path@, None),
            r.method == method,
            r.url@ == self@.base_url + path@,
            r.bearer is None,
    {
        self.request(method, path, None)
    }

    /// The request for an endpoint's call.
    pub fn prepare(&self, call: &Call) -> (r: Outgoing)
        ensures
            r@ == json_request(call.method, self@.base_url + call.path@, bearer_for(call.auth@, self@.secret_key)),
            r.method == call.method,
            r.url@ == self@.base_url + call.path@,
            r.content_type@ == JSON_MEDIA_TYPE@,
            r.accept@ == JSON_MEDIA_TYPE@,
            call.auth is SecretKey ==> r.bearer.deep_view() == Some(self@.secret_key),
            call.auth is Public ==> r.bearer is None,
            (call.auth matches Auth::Jwt(t) && t@.len() > 0) ==> r.bearer.deep_view() == Some(call.auth@->Jwt_0),
            (call.auth matches Auth::Jwt(t) && t@.len() == 0) ==> r.bearer is None,
    {
        match &call.auth {
            Auth::SecretKey => self.do_sk(call.method, call.path.as_str()),
            Auth::Jwt(t) => self.do_jwt(call.method, call.path.as_str(), t.as_str()),
            Auth::Public => self.do_public(call.method, call.path.as_str()),
        }
    }
}

/// The code an API error reports: the `X-Payfake-Code` header when the
/// response has a readable one, `UNKNOWN_ERROR` otherwise.
pub open spec fn reported_code(header: Option<Seq<char>>) -> Seq<char> {
    match header {
        Some(h) => h,
        None => UNKNOWN_ERROR_CODE@,
    }
}

/// The error code to report, given the response's `X-Payfake-Code` header.
pub fn resolve_code(header: Option<String>) -> (code: String)
    ensures
        code@ == reported_code(header.deep_view()),
        header matches Some(h) ==> code@ == h@,
        header is None ==> code@ == "UNKNOWN_ERROR"@,
{
    match header {
        Some(h) => h,
        None => String::from_str(UNKNOWN_ERROR_CODE),
    }
}

/// One error field per broken rule of the field `field`, in rule order.
pub open spec fn rule_fields(field: Seq<char>, rules: Seq<ValidationRuleView>) -> Seq<ErrorFieldView> {
    rules.map_values(|r: ValidationRuleView| ErrorFieldView { field, rule: r.rule, message: r.message })
}

/// All error fields of an envelope's error listing: field after field, and
/// within a field rule after rule.
pub open spec fn flatten_errors(errs: Seq<(Seq<char>, Seq<ValidationRuleView>)>) -> Seq<ErrorFieldView>
    decreases errs.len(),
{
    if errs.len() == 0 {
        seq![]
    } else {
        flatten_errors(errs.drop_last()) + rule_fields(errs.last().0, errs.last().1)
    }
}

/// Model of a list of error fields.
pub open spec fn fields_view(fields: Seq<ErrorField>) -> Seq<ErrorFieldView> {
    fields.map_values(|f: ErrorField| f@)
}

/// The error fields of an envelope's error listing, flattened in order.
pub fn collect_error_fields(listing: &FieldErrors) -> (fields: Vec<ErrorField>)
    ensures
        fields_view(fields@) == flatten_errors(listing@),
{
    let errors = listing.entries();
    let mut out: Vec<ErrorField> = Vec::new();
    let mut i: usize = 0;
    while i < errors.len()
        invariant
            i <= errors.len(),
            fields_view(out@) == flatten_errors(errors_view(errors@).take(i as int)),
        decreases errors.len() - i,
    {
        let entry = &errors[i];
        let name = &entry.0;
        let rules = &entry.1;
        let ghost before = fields_view(out@);
        let ghost rv = rules@.map_values(|r: ValidationRule| r@);
        let mut j: usize = 0;
        while j < rules.len()
            invariant
                i < errors.len(),
                j <= rules.len(),
                rv == rules@.map_values(|r: ValidationRule| r@),
                fields_view(out@) == before + rule_fields(name@, rv.take(j as int)),
            decreases rules.len() - j,
        {
            let rule = &rules[j];
            let ghost prev = out@;
            out.push(ErrorField { field: name.clone(), rule: rule.rule.clone(), message: rule.message.clone() });
            assert(rv.take(j as int + 1) =~= rv.take(j as int).push(rv[j as int]));
            assert(fields_view(out@) =~= fields_view(prev).push(out@[out@.len() - 1]@));
            assert(rule_fields(name@, rv.take(j as int + 1)) =~= rule_fields(name@, rv.take(j as int)).push(
                ErrorFieldView { field: name@, rule: rv[j as int].rule, message: rv[j as int].message },
            ));
            assert(fields_view(out@) =~= before + rule_fields(name@, rv.take(j as int + 1)));
            j = j + 1;
        }
        proof {
            let ev = errors_view(errors@);
            assert(rv.take(rules@.len() as int) =~= rv);
            assert(ev.take(i as int + 1).drop_last() =~= ev.take(i as int));
            assert(ev[i as int] == (name@, rv));
        }
        i = i + 1;
    }
    proof {
        assert(errors_view(errors@).take(errors@.len() as int) =~= errors_view(errors@));
    }
    out
}

/// Turns a decoded response envelope into the call's outcome: its `data`
/// when `status` is true; when it is false, an API error — whatever the HTTP
/// status — with the reported code, the envelope's message, its error fields
/// and the HTTP status.
pub fn interpret_envelope(envelope: Envelope, code_header: Option<String>, http_status: u16) -> (r: Result<serde_json::Value, PayfakeError>)
    ensures
        envelope.status ==> (r matches Ok(d) && d == envelope.data),
        !envelope.status ==> match r {
            Err(PayfakeError::Api { code, message, fields, http_status: s }) => {
                &&& code@ == reported_code(code_header.deep_view())
                &&& (code_header matches Some(h) ==> code@ == h@)
                &&& (code_header is None ==> code@ == "UNKNOWN_ERROR"@)
                &&& message@ == envelope.message@
                &&& fields_view(fields@) == flatten_errors(envelope.errors@)
                &&& s == http_status
            },
            _ => false,
        },
{
    let code = resolve_code(code_header);
    if !envelope.status {
        let fields = collect_error_fields(&envelope.errors);
        return Err(PayfakeError::Api { code, message: envelope.message, fields, http_status });
    }
    Ok(envelope.data)
}

/// A request keeps the method, URL and bearer token it is built with, and
/// always declares and accepts JSON.
pub proof fn law_request_keeps_what_it_is_built_with(method: Method, url: Seq<char>, bearer: Option<Seq<char>>)
    ensures
        json_request(method, url, bearer).method == method,
        json_request(method, url, bearer).url == url,
        json_request(method, url, bearer).bearer == bearer,
        json_request(method, url, bearer).content_type == JSON_MEDIA_TYPE@,
        json_request(method, url, bearer).accept == JSON_MEDIA_TYPE@,
{
}

/// A JWT call sends its token as bearer whenever the token is not empty,
/// whatever characters it holds, and sends no token only when it is empty.
/// The secret key always goes as bearer, and public calls never carry one.
pub proof fn law_bearer_follows_authentication(token: Seq<char>, secret_key: Seq<char>)
    ensures
        token.len() > 0 ==> jwt_bearer(token) == Some(token),
        token.len() == 0 ==> jwt_bearer(token) is None,
        token.len() > 0 ==> bearer_for(AuthView::Jwt(token), secret_key) == Some(token),
        token.len() == 0 ==> bearer_for(AuthView::Jwt(token), secret_key) is None,
        bearer_for(AuthView::SecretKey, secret_key) == Some(secret_key),
        bearer_for(AuthView::Public, secret_key) is None,
{
}

/// An API error reports the `X-Payfake-Code` header exactly as sent, and
/// `UNKNOWN_ERROR` only when the response has none.
pub proof fn law_reported_code_is_the_header(header: Seq<char>)
    ensures
        reported_code(Some(header)) == header,
        reported_code(None) == "UNKNOWN_ERROR"@,
{
}

/// Number of broken rules in an envelope's error listing.
pub open spec fn rule_count(errs: Seq<(Seq<char>, Seq<ValidationRuleView>)>) -> nat
    decreases errs.len(),
{
    if errs.len() == 0 {
        0
    } else {
        rule_count(errs.drop_last()) + errs.last().1.len()
    }
}

/// Every broken rule of an error listing becomes exactly one error field,
/// and every error field names a field of the listing.
pub proof fn law_every_broken_rule_is_reported(errs: Seq<(Seq<char>, Seq<ValidationRuleView>)>)
    ensures
        flatten_errors(errs).len() == rule_count(errs),
        forall|k: int| 0 <= k < flatten_errors(errs).len() ==>
            exists|i: int| 0 <= i < errs.len() && (#[trigger] flatten_errors(errs)[k]).field == errs[i].0,
    decreases errs.len(),
{
    if errs.len() > 0 {
        let init = errs.drop_last();
        law_every_broken_rule_is_reported(init);
        let last = errs.last();
        let tail = rule_fields(last.0, last.1);
        assert(tail.len() == last.1.len());
        assert forall|k: int| 0 <= k < flatten_errors(errs).len() implies
            exists|i: int| 0 <= i < errs.len() && (#[trigger] flatten_errors(errs)[k]).field == errs[i].0 by {
            let f = flatten_errors(errs);
            if k < flatten_errors(init).len() {
                assert(f[k] == flatten_errors(init)[k]);
                let i = choose|i: int| 0 <= i < init.len() && flatten_errors(init)[k].field == init[i].0;
                assert(errs[i] == init[i]);
            } else {
                let j = k - flatten_errors(init).len();
                assert(f[k] == tail[j]);
                assert(tail[j].field == last.0);
                assert(errs[errs.len() - 1] == last);
            }
        }
    }
}

/// Each broken rule `j` of field `i` becomes its own error field, which
/// carries that field's name and that rule's name and message, at the place
/// after all rules of the fields before `i`.
pub proof fn law_each_rule_becomes_its_own_field(errs: Seq<(Seq<char>, Seq<ValidationRuleView>)>, i: int, j: int)
    requires
        0 <= i < errs.len(),
        0 <= j < errs[i].1.len(),
    ensures
        rule_count(errs.take(i)) + j < flatten_errors(errs).len(),
        flatten_errors(errs)[rule_count(errs.take(i)) + j] == (ErrorFieldView {
            field: errs[i].0,
            rule: errs[i].1[j].rule,
            message: errs[i].1[j].message,
        }),
    decreases errs.len(),
{
    let init = errs.drop_last();
    let last = errs.last();
    law_every_broken_rule_is_reported(errs);
    law_every_broken_rule_is_reported(init);
    if i < errs.len() - 1 {
        law_each_rule_becomes_its_own_field(init, i, j);
        assert(errs.take(i) =~= init.take(i));
        assert(init[i] == errs[i]);
    } else {
        assert(errs.take(i) =~= init);
        assert(last == errs[i]);
    }
}

} // verus!

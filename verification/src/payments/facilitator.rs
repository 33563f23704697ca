//! Decisions of the client of an x402 facilitator.
//!
//! A facilitator checks a payment (`/verify`) and broadcasts it (`/settle`). The
//! client asks it to settle only what it found valid.

use vstd::prelude::*;

use crate::payments::error::PaymentError;
use crate::payments::types;
use crate::payments::types::{
    PayloadView,
    PaymentPayload,
    PaymentRequirements,
    RequirementsView,
    Settlement,
    X402_VERSION,
};
use crate::text;
use crate::variant::json;
use crate::variant::json::{Json, JsonView};

verus! {

/// The most characters of a response body that an error quotes.
pub const SNIPPET_CHARS: usize = 256;

/// What the facilitator said of a payment.
#[derive(Debug, PartialEq, Eq)]
pub struct VerifyResponse {
    /// Whether the payment may be settled.
    pub is_valid: bool,
    /// Why not, if it may not.
    pub invalid_reason: Option<String>,
    /// The address of the payer, if known.
    pub payer: Option<String>,
}

/// What the facilitator said of a settlement.
#[derive(Debug, PartialEq, Eq)]
pub struct SettleResponse {
    /// Whether the payment was settled.
    pub success: bool,
    /// Why not, if it was not.
    pub error_reason: Option<String>,
    /// The settling transaction, if known.
    pub transaction: Option<String>,
    /// The network settled on, if told.
    pub network: Option<String>,
    /// The address of the payer, if known.
    pub payer: Option<String>,
}

/// The JSON object sent to both endpoints.
pub open spec fn request_json(payload: PayloadView, reqs: RequirementsView) -> JsonView {
    JsonView::Object(
        seq![
            ("x402Version"@, JsonView::Number(text::decimal_digits(X402_VERSION as nat))),
            ("paymentPayload"@, payload.json()),
            ("paymentRequirements"@, reqs.json()),
        ],
    )
}

/// Where a facilitator is, and how to authenticate to it.
#[derive(Debug, PartialEq, Eq)]
pub struct FacilitatorVerifier {
    base_url: String,
    api_key: Option<String>,
}

impl FacilitatorVerifier {
    /// The base URL.
    pub closed spec fn base(self) -> Seq<char> {
        self.base_url@
    }

    /// The bearer token.
    pub closed spec fn token(self) -> Option<Seq<char>> {
        types::opt_text(self.api_key)
    }

    /// A facilitator that needs no authentication. Slashes at the end of the base
    /// URL are dropped.
    #[must_use]
    pub fn new(base_url: &str) -> (r: Self)
        ensures
            r.base() == text::trim_end_char_spec(base_url@, '/'),
            r.token() is None,
    {
        FacilitatorVerifier { base_url: text::trim_end_char(base_url, '/'), api_key: None }
    }

    /// A facilitator that takes a bearer token with each request.
    #[must_use]
    pub fn with_api_key(base_url: &str, api_key: String) -> (r: Self)
        ensures
            r.base() == text::trim_end_char_spec(base_url@, '/'),
            r.token() == Some(api_key@),
    {
        FacilitatorVerifier { base_url: text::trim_end_char(base_url, '/'), api_key: Some(api_key) }
    }

    /// The bearer token, if one is needed.
    #[must_use]
    pub fn api_key(&self) -> (r: Option<&str>)
        ensures
            match r {
                Some(k) => self.token() == Some(k@),
                None => self.token() is None,
            },
    {
        match &self.api_key {
            Some(k) => Some(k.as_str()),
            None => None,
        }
    }

    /// The URL of an endpoint, such as `/verify`.
    #[must_use]
    pub fn url(&self, path: &str) -> (r: String)
        ensures
            r@ == self.base() + path@,
    {
        text::join2(self.base_url.as_str(), path)
    }
}

impl Clone for FacilitatorVerifier {
    fn clone(&self) -> (r: Self)
        ensures
            r.base() == self.base(),
            r.token() == self.token(),
    {
        FacilitatorVerifier {
            base_url: self.base_url.clone(),
            api_key: text::clone_opt(&self.api_key),
        }
    }
}

/// The JSON object sent to both endpoints.
pub fn request_body(payload: &PaymentPayload, reqs: &PaymentRequirements) -> (r: Json)
    ensures
        r@ == request_json(payload@, reqs@),
{
    let mut entries: Vec<(String, Json)> = Vec::new();
    entries.push(("x402Version".to_owned(), Json::Number(text::decimal(X402_VERSION as u64))));
    entries.push(("paymentPayload".to_owned(), payload.to_json()));
    entries.push(("paymentRequirements".to_owned(), reqs.to_json()));
    proof {
        json::view_of_object(entries);
        assert(json::entries_view(entries@) =~= request_json(payload@, reqs@)->Object_0);
    }
    Json::Object(entries)
}

/// The error for a request that could not be sent.
pub fn transport_error(url: &str, cause: &str) -> (r: PaymentError)
    ensures
        r matches PaymentError::Facilitator(m) && m@ == "POST "@ + url@ + ": "@ + cause@,
{
    PaymentError::Facilitator(
        "POST ".to_owned().concat(url).concat(": ").concat(cause),
    )
}

/// What an error says of an answer that reports no success: the status and the
/// start of the body.
pub open spec fn status_message(url: Seq<char>, status: Seq<char>, body: Seq<char>) -> Seq<char> {
    "POST "@ + url + " returned "@ + status + ": "@ + (if body.len() >= SNIPPET_CHARS {
        body.take(SNIPPET_CHARS as int)
    } else {
        body
    })
}

/// What an error says of an answer whose body could not be decoded.
pub open spec fn decode_message(url: Seq<char>, cause: Seq<char>) -> Seq<char> {
    "decoding "@ + url + " response: "@ + cause
}

/// The error for an answer that reports no success; it quotes the start of the
/// body.
pub fn status_error(url: &str, status: &str, body: &str) -> (r: PaymentError)
    ensures
        r matches PaymentError::Facilitator(m) && m@ == status_message(url@, status@, body@),
{
    let snippet = text::take_chars(body, SNIPPET_CHARS);
    PaymentError::Facilitator(
        "POST ".to_owned().concat(url).concat(" returned ").concat(status).concat(": ").concat(
            snippet.as_str(),
        ),
    )
}

/// The error for an answer whose body could not be decoded.
pub fn decode_error(url: &str, cause: &str) -> (r: PaymentError)
    ensures
        r matches PaymentError::Facilitator(m) && m@ == decode_message(url@, cause@),
{
    PaymentError::Facilitator(
        "decoding ".to_owned().concat(url).concat(" response: ").concat(cause),
    )
}

/// Whether an HTTP status reports success.
pub fn succeeded(status: u16) -> (r: bool)
    ensures
        r == (200 <= status <= 299),
{
    200 <= status && status <= 299
}

/// What an answer of the facilitator amounts to: what was decoded from its body
/// where the status reports success, and an error otherwise. `shown` is the status
/// as errors show it.
pub fn answer<T>(
    url: &str,
    status: u16,
    shown: &str,
    body: &str,
    decoded: Result<T, String>,
) -> (r: Result<T, PaymentError>)
    ensures
        if 200 <= status <= 299 {
            match decoded {
                Ok(v) => r == Ok::<T, PaymentError>(v),
                Err(e) => r matches Err(PaymentError::Facilitator(m)) && m@ == decode_message(
                    url@,
                    e@,
                ),
            }
        } else {
            r matches Err(PaymentError::Facilitator(m)) && m@ == status_message(
                url@,
                shown@,
                body@,
            )
        },
{
    if !succeeded(status) {
        return Err(status_error(url, shown, body));
    }
    match decoded {
        Ok(v) => Ok(v),
        Err(e) => Err(decode_error(url, e.as_str())),
    }
}

/// The reason given, or a stock reason when there is none.
pub open spec fn reason_or(reason: Option<String>, stock: Seq<char>) -> Seq<char> {
    match reason {
        Some(t) => t@,
        None => stock,
    }
}

/// What to do once the facilitator was asked whether the payment is valid: settle
/// it when it is, and otherwise report why not. An answer that could not be had
/// is passed on.
pub fn after_verify(reply: Result<VerifyResponse, PaymentError>) -> (r: Result<
    VerifyResponse,
    PaymentError,
>)
    ensures
        match reply {
            Err(e) => r == Err::<VerifyResponse, PaymentError>(e),
            Ok(v) => if v.is_valid {
                r == Ok::<VerifyResponse, PaymentError>(v)
            } else {
                r matches Err(PaymentError::VerificationFailed(m)) && m@ == reason_or(
                    v.invalid_reason,
                    "facilitator reported the payment invalid"@,
                )
            },
        },
{
    match reply {
        Err(e) => Err(e),
        Ok(v) => {
            if v.is_valid {
                return Ok(v);
            }
            let reason = match v.invalid_reason {
                Some(t) => t,
                None => "facilitator reported the payment invalid".to_owned(),
            };
            Err(PaymentError::VerificationFailed(reason))
        },
    }
}

/// The result of a settlement: the payer is the one the settlement names, or else
/// the one the check named.
pub fn after_settle(verify: VerifyResponse, reply: Result<SettleResponse, PaymentError>) -> (r:
    Result<Settlement, PaymentError>)
    ensures
        match reply {
            Err(e) => r == Err::<Settlement, PaymentError>(e),
            Ok(s) => if !s.success {
                r matches Err(PaymentError::VerificationFailed(m)) && m@ == reason_or(
                    s.error_reason,
                    "facilitator failed to settle the payment"@,
                )
            } else {
                match (s.payer, verify.payer) {
                    (Some(p), _) => r == Ok::<Settlement, PaymentError>(
                        Settlement { payer: p, transaction: s.transaction },
                    ),
                    (None, Some(p)) => r == Ok::<Settlement, PaymentError>(
                        Settlement { payer: p, transaction: s.transaction },
                    ),
                    (None, None) => r matches Err(PaymentError::Facilitator(m)) && m@
                        == "facilitator returned no payer address"@,
                }
            },
        },
{
    match reply {
        Err(e) => Err(e),
        Ok(s) => {
            if !s.success {
                let reason = match s.error_reason {
                    Some(t) => t,
                    None => "facilitator failed to settle the payment".to_owned(),
                };
                return Err(PaymentError::VerificationFailed(reason));
            }
            match s.payer {
                Some(payer) => Ok(Settlement { payer, transaction: s.transaction }),
                None => match verify.payer {
                    Some(payer) => Ok(Settlement { payer, transaction: s.transaction }),
                    None => Err(
                        PaymentError::Facilitator(
                            "facilitator returned no payer address".to_owned(),
                        ),
                    ),
                },
            }
        },
    }
}

/// Nothing is settled that was not found valid, and what was found valid goes on to be
/// settled; an invalid payment is refused for the facilitator's reason, or a stock one.
pub proof fn only_valid_payments_are_settled(
    reply: Result<VerifyResponse, PaymentError>,
    r: Result<VerifyResponse, PaymentError>,
)
    requires
        call_ensures(after_verify, (reply,), r),
    ensures
        r is Ok <==> reply is Ok && reply->Ok_0.is_valid,
        r is Ok ==> r == reply,
        reply is Err ==> r == reply,
        reply matches Ok(v) ==> !v.is_valid ==> (r matches Err(
            PaymentError::VerificationFailed(m),
        ) && (v.invalid_reason matches Some(reason) ==> m@ == reason@) && (v.invalid_reason is None
            ==> m@.len() > 0)),
{
    reveal_strlit("facilitator reported the payment invalid");
}

/// A payment is settled when the facilitator says so and a payer is known: the one the
/// settlement names, or else the one the check named, with the settling transaction.
pub proof fn settlements_name_their_payer(
    verify: VerifyResponse,
    reply: Result<SettleResponse, PaymentError>,
    r: Result<Settlement, PaymentError>,
)
    requires
        call_ensures(after_settle, (verify, reply), r),
    ensures
        r is Ok <==> reply is Ok && reply->Ok_0.success && (reply->Ok_0.payer is Some
            || verify.payer is Some),
        r matches Ok(s) ==> {
            &&& s.transaction == reply->Ok_0.transaction
            &&& reply->Ok_0.payer matches Some(p) ==> s.payer == p
            &&& reply->Ok_0.payer is None ==> Some(s.payer) == verify.payer
        },
        reply matches Err(e) ==> (r matches Err(f) && f == e),
        reply matches Ok(s) ==> (!s.success ==> (r matches Err(
            PaymentError::VerificationFailed(m),
        ) && (s.error_reason matches Some(reason) ==> m@ == reason@) && (s.error_reason is None
            ==> m@.len() > 0))),
        reply matches Ok(s) ==> (s.success && s.payer is None && verify.payer is None ==> (
        r matches Err(PaymentError::Facilitator(_)))),
{
    reveal_strlit("facilitator failed to settle the payment");
}

/// An answer counts exactly when its status reports success and its body could be read.
pub proof fn only_successful_answers_count<T>(
    url: &str,
    status: u16,
    shown: &str,
    body: &str,
    decoded: Result<T, String>,
    r: Result<T, PaymentError>,
    good: bool,
)
    requires
        call_ensures(answer::<T>, (url, status, shown, body, decoded), r),
        call_ensures(succeeded, (status,), good),
    ensures
        good <==> 200 <= status < 300,
        r is Ok <==> good && decoded is Ok,
        r matches Ok(v) ==> decoded == Ok::<T, String>(v),
        r is Err ==> (r matches Err(PaymentError::Facilitator(_))),
        !good ==> (r matches Err(PaymentError::Facilitator(m)) && quotes(m@, url@, body@)),
{
    if !good {
        let n: int = if body@.len() <= 256 {
            body@.len() as int
        } else {
            256
        };
        let snippet = body@.take(n);
        assert(body@.take(body@.len() as int) =~= body@);
        let m = status_message(url@, shown@, body@);
        let before = "POST "@;
        let between = " returned "@ + shown@ + ": "@;
        assert(m =~= before + url@ + (between + snippet));
        assert(m.subrange(before.len() as int, (before.len() + url@.len()) as int) =~= url@);
        assert(m.subrange(m.len() - n, m.len() as int) =~= snippet);
        assert(url@.len() <= m.len() - before.len());
        assert(quotes(m, url@, body@)) by {
            let at: int = before.len() as int;
            assert(m.subrange(at, at + url@.len()) == url@);
        }
    }
}

/// Whether an error text names the URL, and ends with the start of the body: all of it up
/// to 256 characters.
pub open spec fn quotes(message: Seq<char>, url: Seq<char>, body: Seq<char>) -> bool {
    &&& exists|at: int|
        0 <= at <= message.len() - url.len() && #[trigger] message.subrange(at, at + url.len())
            == url
    &&& ({
        let n: int = if body.len() <= 256 {
            body.len() as int
        } else {
            256
        };
        message.len() >= n && message.subrange(message.len() - n, message.len() as int)
            == body.take(n)
    })
}

/// A request carries the payment and the terms, each as its own JSON, and the protocol
/// version.
pub proof fn requests_carry_payment_and_terms(
    payload: PaymentPayload,
    reqs: PaymentRequirements,
    r: Json,
    payment: Json,
    terms: Json,
)
    requires
        call_ensures(request_body, (&payload, &reqs), r),
        call_ensures(PaymentPayload::to_json, (&payload,), payment),
        call_ensures(PaymentRequirements::to_json, (&reqs,), terms),
    ensures
        r@.get("paymentPayload"@) == Some(payment@),
        r@.get("paymentRequirements"@) == Some(terms@),
        r@.get("x402Version"@) == Some(JsonView::Number(seq!['1'])),
{
    reveal_strlit("x402Version");
    reveal_strlit("paymentPayload");
    reveal_strlit("paymentRequirements");
    reveal_with_fuel(json::value_under, 4);
    let entries = r@->Object_0;
    assert("x402Version"@.len() == 11 && "paymentPayload"@.len() == 14
        && "paymentRequirements"@.len() == 19);
    assert(entries.drop_first()[0] == entries[1]);
    assert(entries.drop_first().drop_first()[0] == entries[2]);
    reveal_with_fuel(text::decimal_digits, 2);
    assert(text::decimal_digits(1) =~= seq!['1']);
}

/// Slashes at the end of the base make no difference to where requests go.
pub proof fn trailing_slashes_do_not_matter(
    base: &str,
    slashed: &str,
    path: &str,
    a: FacilitatorVerifier,
    b: FacilitatorVerifier,
    url_a: String,
    url_b: String,
    key_a: Option<&str>,
)
    requires
        slashed@ == base@.push('/'),
        call_ensures(FacilitatorVerifier::new, (base,), a),
        call_ensures(FacilitatorVerifier::new, (slashed,), b),
        call_ensures(FacilitatorVerifier::url, (&a, path), url_a),
        call_ensures(FacilitatorVerifier::url, (&b, path), url_b),
        call_ensures(FacilitatorVerifier::api_key, (&a,), key_a),
    ensures
        url_a@ == url_b@,
        base@.len() > 0 && base@.last() != '/' ==> url_a@ == base@ + path@,
        key_a is None,
{
    assert(base@.push('/').drop_last() =~= base@);
    reveal_with_fuel(text::trim_end_char_spec, 2);
}

/// A token that was given is the token that is sent.
pub proof fn the_given_token_is_sent(
    base: &str,
    token: String,
    v: FacilitatorVerifier,
    sent: Option<&str>,
    plain: FacilitatorVerifier,
    path: &str,
    url: String,
    plain_url: String,
)
    requires
        call_ensures(FacilitatorVerifier::with_api_key, (base, token), v),
        call_ensures(FacilitatorVerifier::api_key, (&v,), sent),
        call_ensures(FacilitatorVerifier::new, (base,), plain),
        call_ensures(FacilitatorVerifier::url, (&v, path), url),
        call_ensures(FacilitatorVerifier::url, (&plain, path), plain_url),
    ensures
        sent matches Some(t) && t@ == token@,
        url@ == plain_url@,
{
}

} // verus!

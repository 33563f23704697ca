//! The x402 wire types.

use vstd::prelude::*;

use crate::payments::codec;
use crate::payments::error::PaymentError;
use crate::text;
use crate::variant::json;
use crate::variant::json::{Json, JsonView};

verus! {

/// The protocol version spoken here.
pub const X402_VERSION: u32 = 1;

/// Terms on which a resource can be had.
#[derive(Debug, PartialEq, Eq)]
pub struct PaymentRequirements {
    /// The payment scheme, such as `exact`.
    pub scheme: String,
    /// The network to pay on, such as `base-sepolia`.
    pub network: String,
    /// The amount, in the smallest unit of the asset.
    pub max_amount_required: String,
    /// The protected resource.
    pub resource: String,
    /// What the payer is shown.
    pub description: String,
    /// The media type of the resource.
    pub mime_type: String,
    /// The address to pay to.
    pub pay_to: String,
    /// How long a signed authorization may stay pending.
    pub max_timeout_seconds: u64,
    /// The contract address of the asset.
    pub asset: String,
    /// Further data of the scheme.
    pub extra: Option<Json>,
}

/// The mathematical model of [`PaymentRequirements`].
pub struct RequirementsView {
    /// The payment scheme.
    pub scheme: Seq<char>,
    /// The network to pay on.
    pub network: Seq<char>,
    /// The amount, in the smallest unit of the asset.
    pub max_amount_required: Seq<char>,
    /// The protected resource.
    pub resource: Seq<char>,
    /// What the payer is shown.
    pub description: Seq<char>,
    /// The media type of the resource.
    pub mime_type: Seq<char>,
    /// The address to pay to.
    pub pay_to: Seq<char>,
    /// How long a signed authorization may stay pending.
    pub max_timeout_seconds: u64,
    /// The contract address of the asset.
    pub asset: Seq<char>,
    /// Further data of the scheme.
    pub extra: Option<JsonView>,
}

impl RequirementsView {
    /// The JSON object of the terms; further data is left out when there is none.
    pub open spec fn json(self) -> JsonView {
        let head = seq![
            ("scheme"@, JsonView::Str(self.scheme)),
            ("network"@, JsonView::Str(self.network)),
            ("maxAmountRequired"@, JsonView::Str(self.max_amount_required)),
            ("resource"@, JsonView::Str(self.resource)),
            ("description"@, JsonView::Str(self.description)),
            ("mimeType"@, JsonView::Str(self.mime_type)),
            ("payTo"@, JsonView::Str(self.pay_to)),
            (
                "maxTimeoutSeconds"@,
                JsonView::Number(text::decimal_digits(self.max_timeout_seconds as nat)),
            ),
            ("asset"@, JsonView::Str(self.asset)),
        ];
        JsonView::Object(
            match self.extra {
                Some(e) => head.push(("extra"@, e)),
                None => head,
            },
        )
    }
}

impl PaymentRequirements {
    /// The JSON object of the terms.
    pub fn to_json(&self) -> (r: Json)
        ensures
            r@ == self@.json(),
    {
        let mut entries: Vec<(String, Json)> = Vec::new();
        entries.push(("scheme".to_owned(), Json::Str(self.scheme.clone())));
        entries.push(("network".to_owned(), Json::Str(self.network.clone())));
        entries.push(
            ("maxAmountRequired".to_owned(), Json::Str(self.max_amount_required.clone())),
        );
        entries.push(("resource".to_owned(), Json::Str(self.resource.clone())));
        entries.push(("description".to_owned(), Json::Str(self.description.clone())));
        entries.push(("mimeType".to_owned(), Json::Str(self.mime_type.clone())));
        entries.push(("payTo".to_owned(), Json::Str(self.pay_to.clone())));
        entries.push(
            ("maxTimeoutSeconds".to_owned(), Json::Number(text::decimal(self.max_timeout_seconds))),
        );
        entries.push(("asset".to_owned(), Json::Str(self.asset.clone())));
        if let Some(e) = &self.extra {
            entries.push(("extra".to_owned(), e.clone()));
        }
        proof {
            json::view_of_object(entries);
            assert(json::entries_view(entries@) =~= self@.json()->Object_0);
        }
        Json::Object(entries)
    }

    /// The model of the terms.
    pub open spec fn view(self) -> RequirementsView {
        RequirementsView {
            scheme: self.scheme@,
            network: self.network@,
            max_amount_required: self.max_amount_required@,
            resource: self.resource@,
            description: self.description@,
            mime_type: self.mime_type@,
            pay_to: self.pay_to@,
            max_timeout_seconds: self.max_timeout_seconds,
            asset: self.asset@,
            extra: match self.extra {
                Some(e) => Some(e@),
                None => None,
            },
        }
    }
}

impl Clone for PaymentRequirements {
    fn clone(&self) -> (r: Self)
        ensures
            r@ == self@,
    {
        PaymentRequirements {
            scheme: self.scheme.clone(),
            network: self.network.clone(),
            max_amount_required: self.max_amount_required.clone(),
            resource: self.resource.clone(),
            description: self.description.clone(),
            mime_type: self.mime_type.clone(),
            pay_to: self.pay_to.clone(),
            max_timeout_seconds: self.max_timeout_seconds,
            asset: self.asset.clone(),
            extra: match &self.extra {
                Some(e) => Some(e.clone()),
                None => None,
            },
        }
    }
}

/// The models of a list of terms.
pub open spec fn terms_view(terms: Seq<PaymentRequirements>) -> Seq<RequirementsView> {
    Seq::new(terms.len(), |i: int| terms[i]@)
}

/// A copy of a list of terms.
pub fn clone_terms(terms: &Vec<PaymentRequirements>) -> (r: Vec<PaymentRequirements>)
    ensures
        terms_view(r@) == terms_view(terms@),
{
    let mut out: Vec<PaymentRequirements> = Vec::new();
    let mut i: usize = 0;
    while i < terms.len()
        invariant
            i <= terms@.len(),
            out@.len() == i,
            forall|j: int| 0 <= j < i ==> (#[trigger] out@[j])@ == terms@[j]@,
        decreases terms@.len() - i,
    {
        out.push(terms[i].clone());
        i = i + 1;
    }
    assert(terms_view(out@) =~= terms_view(terms@));
    out
}

/// The body of a `402 Payment Required` response.
#[derive(Debug, PartialEq, Eq)]
pub struct PaymentRequiredResponse {
    /// The protocol version.
    pub x402_version: u32,
    /// The terms on which the resource can be had.
    pub accepts: Vec<PaymentRequirements>,
    /// Why the request was refused, if there is more to say.
    pub error: Option<String>,
}

/// The mathematical model of a [`PaymentRequiredResponse`].
pub struct RefusalView {
    /// The protocol version.
    pub x402_version: u32,
    /// The terms on which the resource can be had.
    pub accepts: Seq<RequirementsView>,
    /// Why the request was refused.
    pub error: Option<Seq<char>>,
}

impl RefusalView {
    /// The JSON object of the response; the reason is left out when there is
    /// none.
    pub open spec fn json(self) -> JsonView {
        let head = seq![
            ("x402Version"@, JsonView::Number(text::decimal_digits(self.x402_version as nat))),
            (
                "accepts"@,
                JsonView::Array(Seq::new(self.accepts.len(), |i: int| self.accepts[i].json())),
            ),
        ];
        JsonView::Object(
            match self.error {
                Some(e) => head.push(("error"@, JsonView::Str(e))),
                None => head,
            },
        )
    }
}

impl PaymentRequiredResponse {
    /// The JSON object of the response.
    pub fn to_json(&self) -> (r: Json)
        ensures
            r@ == self@.json(),
    {
        let mut items: Vec<Json> = Vec::new();
        let mut i: usize = 0;
        while i < self.accepts.len()
            invariant
                i <= self.accepts@.len(),
                items@.len() == i,
                forall|j: int| 0 <= j < i ==> (#[trigger] items@[j])@ == self.accepts@[j]@.json(),
            decreases self.accepts@.len() - i,
        {
            items.push(self.accepts[i].to_json());
            i = i + 1;
        }
        proof {
            json::view_of_array(items);
            assert(json::items_view(items@) =~= Seq::new(
                self@.accepts.len(),
                |i: int| self@.accepts[i].json(),
            ));
        }
        let mut entries: Vec<(String, Json)> = Vec::new();
        entries.push(
            ("x402Version".to_owned(), Json::Number(text::decimal(self.x402_version as u64))),
        );
        entries.push(("accepts".to_owned(), Json::Array(items)));
        if let Some(e) = &self.error {
            entries.push(("error".to_owned(), Json::Str(e.clone())));
        }
        proof {
            json::view_of_object(entries);
            assert(json::entries_view(entries@) =~= self@.json()->Object_0);
        }
        Json::Object(entries)
    }

    /// The model of the response.
    pub open spec fn view(self) -> RefusalView {
        RefusalView {
            x402_version: self.x402_version,
            accepts: terms_view(self.accepts@),
            error: opt_text(self.error),
        }
    }
}

/// The text of an optional string.
pub open spec fn opt_text(s: Option<String>) -> Option<Seq<char>> {
    match s {
        Some(t) => Some(t@),
        None => None,
    }
}

/// The decoded content of the payment header.
#[derive(Debug, PartialEq, Eq)]
pub struct PaymentPayload {
    /// The protocol version.
    pub x402_version: u32,
    /// The payment scheme used.
    pub scheme: String,
    /// The network paid on.
    pub network: String,
    /// The data of the scheme.
    pub payload: Json,
}

/// The mathematical model of a [`PaymentPayload`].
pub struct PayloadView {
    /// The protocol version.
    pub x402_version: u32,
    /// The payment scheme used.
    pub scheme: Seq<char>,
    /// The network paid on.
    pub network: Seq<char>,
    /// The data of the scheme.
    pub payload: JsonView,
}

impl PayloadView {
    /// The JSON object of the payload.
    pub open spec fn json(self) -> JsonView {
        JsonView::Object(
            seq![
                ("x402Version"@, JsonView::Number(text::decimal_digits(self.x402_version as nat))),
                ("scheme"@, JsonView::Str(self.scheme)),
                ("network"@, JsonView::Str(self.network)),
                ("payload"@, self.payload),
            ],
        )
    }
}

/// The text `s` without leading and trailing white space.
pub open spec fn trimmed(s: Seq<char>) -> Seq<char> {
    text::trim_end_spec(text::trim_start_spec(s))
}

/// Whether `header` is Base64 text that decodes to the payload's JSON text.
pub open spec fn header_of(payload: PayloadView, header: Seq<char>) -> bool {
    &&& codec::base64_decoded(header) == Ok::<Seq<u8>, Seq<char>>(
        vstd::utf8::encode_utf8(payload.json().text()),
    )
    &&& forall|i: int| 0 <= i < header.len() ==> codec::base64_char(#[trigger] header[i])
}

/// What a header value is read as: the Base64 in it is decoded without the white
/// space around it, and `decode` reads the JSON; either can fail.
pub open spec fn read_from<F: Fn(&Vec<u8>) -> Result<PaymentPayload, String>>(
    value: Seq<char>,
    decode: F,
    r: Result<PaymentPayload, PaymentError>,
) -> bool {
    match codec::base64_decoded(trimmed(value)) {
        Err(e) => r matches Err(PaymentError::MalformedPayment(m)) && m@ == "base64 decode: "@ + e,
        Ok(bytes) => exists|b: Vec<u8>, d: Result<PaymentPayload, String>|
            b@ == bytes && #[trigger] decode.ensures((&b,), d) && match d {
                Ok(p) => r == Ok::<PaymentPayload, PaymentError>(p),
                Err(e) => r matches Err(PaymentError::MalformedPayment(m)) && m@
                    == "json decode: "@ + e@,
            },
    }
}

/// Whether `decode` reads the payload from its JSON text.
pub open spec fn decodes<F: Fn(&Vec<u8>) -> Result<PaymentPayload, String>>(
    decode: F,
    payload: PayloadView,
) -> bool {
    forall|b: Vec<u8>, d: Result<PaymentPayload, String>|
        b@ == vstd::utf8::encode_utf8(payload.json().text()) && #[trigger] decode.ensures(
            (&b,),
            d,
        ) ==> d is Ok && d->Ok_0@ == payload
}

/// A header carries its payload: what was written as a header value is read back,
/// also with white space around it, by a decoder that reads the payload's JSON.
pub proof fn a_header_carries_its_payload<F: Fn(&Vec<u8>) -> Result<PaymentPayload, String>>(
    payload: PayloadView,
    before: Seq<char>,
    header: Seq<char>,
    after: Seq<char>,
    decode: F,
    r: Result<PaymentPayload, PaymentError>,
)
    requires
        header_of(payload, header),
        forall|i: int| 0 <= i < before.len() ==> text::white_space(#[trigger] before[i]),
        forall|i: int| 0 <= i < after.len() ==> text::white_space(#[trigger] after[i]),
        decodes(decode, payload),
        read_from(before + header + after, decode, r),
    ensures
        r is Ok,
        r->Ok_0@ == payload,
{
    if header.len() > 0 {
        assert(codec::base64_char(header[0]) && codec::base64_char(header[header.len() - 1]));
    }
    text::trimming_drops_padding(before, header, after);
}

impl PaymentPayload {
    /// The model of the payload.
    pub open spec fn view(self) -> PayloadView {
        PayloadView {
            x402_version: self.x402_version,
            scheme: self.scheme@,
            network: self.network@,
            payload: self.payload@,
        }
    }

    /// The JSON object of the payload.
    pub fn to_json(&self) -> (r: Json)
        ensures
            r@ == self@.json(),
    {
        let mut entries: Vec<(String, Json)> = Vec::new();
        entries.push(
            ("x402Version".to_owned(), Json::Number(text::decimal(self.x402_version as u64))),
        );
        entries.push(("scheme".to_owned(), Json::Str(self.scheme.clone())));
        entries.push(("network".to_owned(), Json::Str(self.network.clone())));
        entries.push(("payload".to_owned(), self.payload.clone()));
        proof {
            json::view_of_object(entries);
            assert(json::entries_view(entries@) =~= self@.json()->Object_0);
        }
        Json::Object(entries)
    }

    /// Builds the payload from what Base64 decoding gave, with `decode` for the
    /// JSON in it.
    pub fn from_decoded<F: Fn(&Vec<u8>) -> Result<PaymentPayload, String>>(
        decoded: Result<Vec<u8>, String>,
        decode: F,
    ) -> (r: Result<Self, PaymentError>)
        requires
            forall|b: &Vec<u8>| decoded == Ok::<Vec<u8>, String>(*b) ==> #[trigger] decode.requires(
                (b,),
            ),
        ensures
            match decoded {
                Err(e) => r matches Err(PaymentError::MalformedPayment(m)) && m@
                    == "base64 decode: "@ + e@,
                Ok(bytes) => exists|d: Result<PaymentPayload, String>| #[trigger]
                    decode.ensures((&bytes,), d) && match d {
                        Ok(p) => r == Ok::<PaymentPayload, PaymentError>(p),
                        Err(e) => r matches Err(PaymentError::MalformedPayment(m)) && m@
                            == "json decode: "@ + e@,
                    },
            },
    {
        match decoded {
            Err(e) => Err(
                PaymentError::MalformedPayment(text::join2("base64 decode: ", e.as_str())),
            ),
            Ok(bytes) => match decode(&bytes) {
                Ok(p) => Ok(p),
                Err(e) => Err(
                    PaymentError::MalformedPayment(text::join2("json decode: ", e.as_str())),
                ),
            },
        }
    }

    /// Decodes the payload from a header value: Base64 around JSON, with white
    /// space around it ignored. `decode` reads the JSON.
    pub fn from_header<F: Fn(&Vec<u8>) -> Result<PaymentPayload, String>>(
        value: &str,
        decode: F,
    ) -> (r: Result<Self, PaymentError>)
        requires
            forall|b: &Vec<u8>| #[trigger] decode.requires((b,)),
        ensures
            read_from(value@, decode, r),
            (exists|i: int|
                0 <= i < trimmed(value@).len() && !codec::base64_char(
                    #[trigger] trimmed(value@)[i],
                )) ==> r matches Err(PaymentError::MalformedPayment(_)),
    {
        let value = text::trim(value);
        let decoded = codec::decode_base64(value.as_str());
        PaymentPayload::from_decoded(decoded, decode)
    }

    /// Encodes the payload as a header value: Base64 around its JSON text. The
    /// value decodes to that text again.
    pub fn to_header(&self) -> (r: Result<String, PaymentError>)
        ensures
            r is Ok,
            r->Ok_0@ == codec::base64_encoded(vstd::utf8::encode_utf8(self@.json().text())),
            header_of(self@, r->Ok_0@),
    {
        let text = self.to_json().to_text();
        Ok(codec::encode_base64(text.as_str().as_bytes()))
    }
}

impl Clone for PaymentPayload {
    fn clone(&self) -> (r: Self)
        ensures
            r@ == self@,
    {
        PaymentPayload {
            x402_version: self.x402_version,
            scheme: self.scheme.clone(),
            network: self.network.clone(),
            payload: self.payload.clone(),
        }
    }
}

/// A verified and settled payment.
#[derive(Debug, PartialEq, Eq)]
pub struct Settlement {
    /// The address of the payer.
    pub payer: String,
    /// The settling transaction, if known.
    pub transaction: Option<String>,
}

impl Clone for Settlement {
    fn clone(&self) -> (r: Self)
        ensures
            r == *self,
    {
        Settlement { payer: self.payer.clone(), transaction: text::clone_opt(&self.transaction) }
    }
}

/// The receipt that goes with a paid response.
#[derive(Debug, PartialEq, Eq)]
pub struct SettlementResponse {
    /// Whether the payment was settled.
    pub success: bool,
    /// The settling transaction, if known.
    pub transaction: Option<String>,
    /// The network paid on.
    pub network: String,
    /// The address of the payer, if known.
    pub payer: Option<String>,
}

impl SettlementResponse {
    /// The entries of the receipt's JSON object; what is unknown is left out.
    pub open spec fn entries(self) -> Seq<json::Entry> {
        let head = seq![("success"@, JsonView::Bool(self.success))];
        let with_transaction = match self.transaction {
            Some(t) => head.push(("transaction"@, JsonView::Str(t@))),
            None => head,
        };
        let with_network = with_transaction.push(("network"@, JsonView::Str(self.network@)));
        match self.payer {
            Some(p) => with_network.push(("payer"@, JsonView::Str(p@))),
            None => with_network,
        }
    }

    /// The JSON object of the receipt.
    pub fn to_json(&self) -> (r: Json)
        ensures
            r@ == JsonView::Object(self.entries()),
    {
        let mut entries: Vec<(String, Json)> = Vec::new();
        entries.push(("success".to_owned(), Json::Bool(self.success)));
        if let Some(t) = &self.transaction {
            entries.push(("transaction".to_owned(), Json::Str(t.clone())));
        }
        entries.push(("network".to_owned(), Json::Str(self.network.clone())));
        if let Some(p) = &self.payer {
            entries.push(("payer".to_owned(), Json::Str(p.clone())));
        }
        proof {
            json::view_of_object(entries);
            assert(json::entries_view(entries@) =~= self.entries());
        }
        Json::Object(entries)
    }
}

impl Clone for SettlementResponse {
    fn clone(&self) -> (r: Self)
        ensures
            r == *self,
    {
        SettlementResponse {
            success: self.success,
            transaction: text::clone_opt(&self.transaction),
            network: self.network.clone(),
            payer: text::clone_opt(&self.payer),
        }
    }
}

/// What is written of terms holds each term under its name, and further data only when
/// there is some.
pub proof fn terms_are_written_in_full(terms: PaymentRequirements, json: Json)
    requires
        call_ensures(PaymentRequirements::to_json, (&terms,), json),
    ensures
        json@.get("scheme"@) == Some(JsonView::Str(terms.scheme@)),
        json@.get("network"@) == Some(JsonView::Str(terms.network@)),
        json@.get("maxAmountRequired"@) == Some(JsonView::Str(terms.max_amount_required@)),
        json@.get("resource"@) == Some(JsonView::Str(terms.resource@)),
        json@.get("description"@) == Some(JsonView::Str(terms.description@)),
        json@.get("mimeType"@) == Some(JsonView::Str(terms.mime_type@)),
        json@.get("payTo"@) == Some(JsonView::Str(terms.pay_to@)),
        json@.get("asset"@) == Some(JsonView::Str(terms.asset@)),
        json@.get("maxTimeoutSeconds"@) matches Some(JsonView::Number(n)) && text::value_of(n)
            == terms.max_timeout_seconds,
        json@->Object_0.len() == if terms.extra is Some {
            10int
        } else {
            9int
        },
        terms.extra matches Some(e) ==> json@.get("extra"@) == Some(e@),
{
    reveal_strlit("scheme");
    reveal_strlit("network");
    reveal_strlit("maxAmountRequired");
    reveal_strlit("resource");
    reveal_strlit("description");
    reveal_strlit("mimeType");
    reveal_strlit("payTo");
    reveal_strlit("maxTimeoutSeconds");
    reveal_strlit("asset");
    reveal_strlit("extra");
    let x = json@->Object_0;
    assert("scheme"@.len() == 6 && "network"@.len() == 7 && "maxAmountRequired"@.len() == 17
        && "resource"@.len() == 8 && "description"@.len() == 11 && "mimeType"@.len() == 8
        && "payTo"@.len() == 5 && "maxTimeoutSeconds"@.len() == 17 && "asset"@.len() == 5
        && "extra"@.len() == 5);
    assert("maxAmountRequired"@[3] != "maxTimeoutSeconds"@[3]);
    assert("resource"@[0] != "mimeType"@[0]);
    assert("payTo"@[0] != "asset"@[0] && "payTo"@[0] != "extra"@[0] && "asset"@[0]
        != "extra"@[0]);
    assert(x[0].0 == "scheme"@ && x[1].0 == "network"@ && x[2].0 == "maxAmountRequired"@ && x[3].0
        == "resource"@ && x[4].0 == "description"@ && x[5].0 == "mimeType"@ && x[6].0 == "payTo"@
        && x[7].0 == "maxTimeoutSeconds"@ && x[8].0 == "asset"@);
    assert forall|i: int, j: int| 0 <= i < j < x.len() implies #[trigger] x[i].0
        != #[trigger] x[j].0 by {
        if x.len() == 10 {
            assert(x[9].0 == "extra"@);
        }
    }
    json::every_entry_is_found_under_its_key(x, 0);
    json::every_entry_is_found_under_its_key(x, 1);
    json::every_entry_is_found_under_its_key(x, 2);
    json::every_entry_is_found_under_its_key(x, 3);
    json::every_entry_is_found_under_its_key(x, 4);
    json::every_entry_is_found_under_its_key(x, 5);
    json::every_entry_is_found_under_its_key(x, 6);
    json::every_entry_is_found_under_its_key(x, 7);
    json::every_entry_is_found_under_its_key(x, 8);
    if terms.extra is Some {
        json::every_entry_is_found_under_its_key(x, 9);
    }
    text::digits_have_their_value(terms.max_timeout_seconds as nat);
}

/// What is written of a payment holds its version, scheme, network and data under their
/// names, and nothing else.
pub proof fn payments_are_written_in_full(payment: PaymentPayload, json: Json)
    requires
        call_ensures(PaymentPayload::to_json, (&payment,), json),
    ensures
        json@.get("scheme"@) == Some(JsonView::Str(payment.scheme@)),
        json@.get("network"@) == Some(JsonView::Str(payment.network@)),
        json@.get("payload"@) == Some(payment.payload@),
        json@.get("x402Version"@) matches Some(JsonView::Number(n)) && text::value_of(n)
            == payment.x402_version,
        json@->Object_0.len() == 4,
{
    reveal_strlit("x402Version");
    reveal_strlit("scheme");
    reveal_strlit("network");
    reveal_strlit("payload");
    let x = json@->Object_0;
    assert("x402Version"@.len() == 11 && "scheme"@.len() == 6 && "network"@.len() == 7
        && "payload"@.len() == 7);
    assert("network"@[0] != "payload"@[0]);
    assert(x[0].0 == "x402Version"@ && x[1].0 == "scheme"@ && x[2].0 == "network"@ && x[3].0
        == "payload"@);
    json::every_entry_is_found_under_its_key(x, 0);
    json::every_entry_is_found_under_its_key(x, 1);
    json::every_entry_is_found_under_its_key(x, 2);
    json::every_entry_is_found_under_its_key(x, 3);
    text::digits_have_their_value(payment.x402_version as nat);
}

/// What is written of a refusal holds every offered term, in order, and the reason only
/// when there is one.
pub proof fn refusals_are_written_in_full(
    refusal: PaymentRequiredResponse,
    json: Json,
    i: int,
    term: Json,
)
    requires
        call_ensures(PaymentRequiredResponse::to_json, (&refusal,), json),
        0 <= i < refusal.accepts@.len() ==> call_ensures(
            PaymentRequirements::to_json,
            (&refusal.accepts@[i],),
            term,
        ),
    ensures
        json@.get("accepts"@) matches Some(JsonView::Array(items)) && items.len()
            == refusal.accepts@.len() && (0 <= i < items.len() ==> items[i] == term@),
        json@.get("x402Version"@) matches Some(JsonView::Number(n)) && text::value_of(n)
            == refusal.x402_version,
        refusal.error is None ==> json@.get("error"@) is None,
        refusal.error matches Some(e) ==> json@.get("error"@) == Some(JsonView::Str(e@)),
{
    reveal_strlit("x402Version");
    reveal_strlit("accepts");
    reveal_strlit("error");
    assert("x402Version"@.len() == 11 && "accepts"@.len() == 7 && "error"@.len() == 5);
    reveal_with_fuel(json::value_under, 4);
    let x = json@->Object_0;
    assert(x.drop_first()[0] == x[1]);
    if refusal.error is Some {
        assert(x.drop_first().drop_first()[0] == x[2]);
    }
    text::digits_have_their_value(refusal.x402_version as nat);
    let shown = terms_view(refusal.accepts@);
    assert(shown.len() == refusal.accepts@.len());
    if 0 <= i < refusal.accepts@.len() {
        assert(shown[i] == refusal.accepts@[i]@);
    }
}

/// What is written of a receipt holds its success and its network, and its transaction
/// and payer when they are known.
pub proof fn receipts_are_written_in_full(receipt: SettlementResponse, json: Json)
    requires
        call_ensures(SettlementResponse::to_json, (&receipt,), json),
    ensures
        json@.get("success"@) == Some(JsonView::Bool(receipt.success)),
        json@.get("network"@) == Some(JsonView::Str(receipt.network@)),
        receipt.transaction matches Some(t) ==> json@.get("transaction"@) == Some(
            JsonView::Str(t@),
        ),
        receipt.transaction is None ==> json@.get("transaction"@) is None,
        receipt.payer matches Some(p) ==> json@.get("payer"@) == Some(JsonView::Str(p@)),
        receipt.payer is None ==> json@.get("payer"@) is None,
{
    reveal_strlit("success");
    reveal_strlit("transaction");
    reveal_strlit("network");
    reveal_strlit("payer");
    assert("success"@.len() == 7 && "transaction"@.len() == 11 && "network"@.len() == 7
        && "payer"@.len() == 5);
    assert("success"@[0] != "network"@[0]);
    reveal_with_fuel(json::value_under, 5);
    let x = json@->Object_0;
    assert(x.drop_first()[0] == x[1]);
    if x.len() > 2 {
        assert(x.drop_first().drop_first()[0] == x[2]);
    }
    if x.len() > 3 {
        assert(x.drop_first().drop_first().drop_first()[0] == x[3]);
    }
}

/// A payment survives its header: whatever was written as a header value is read back as
/// the same payment, also with white space around it, by a decoder that reads the
/// payment's JSON.
pub proof fn a_payment_survives_its_header<F: Fn(&Vec<u8>) -> Result<PaymentPayload, String>>(
    payment: PaymentPayload,
    written: Result<String, PaymentError>,
    before: Seq<char>,
    after: Seq<char>,
    value: &str,
    decode: F,
    r: Result<PaymentPayload, PaymentError>,
)
    requires
        call_ensures(PaymentPayload::to_header, (&payment,), written),
        forall|i: int| 0 <= i < before.len() ==> text::white_space(#[trigger] before[i]),
        forall|i: int| 0 <= i < after.len() ==> text::white_space(#[trigger] after[i]),
        written is Ok ==> value@ == before + written->Ok_0@ + after,
        forall|b: Vec<u8>, d: Result<PaymentPayload, String>|
            b@ == vstd::utf8::encode_utf8(payment@.json().text()) && #[trigger] decode.ensures(
                (&b,),
                d,
            ) ==> d is Ok && d->Ok_0@ == payment@,
        call_ensures(PaymentPayload::from_header::<F>, (value, decode), r),
    ensures
        written is Ok,
        r is Ok,
        r->Ok_0@ == payment@,
{
    a_header_carries_its_payload(payment@, before, written->Ok_0@, after, decode, r);
}

/// A header value that is no Base64, or whose content the decoder does not read, is
/// refused as malformed, and what the decoder reads is what is read.
pub proof fn unreadable_headers_are_malformed<F: Fn(&Vec<u8>) -> Result<PaymentPayload, String>>(
    value: &str,
    decode: F,
    r: Result<PaymentPayload, PaymentError>,
)
    requires
        call_ensures(PaymentPayload::from_header::<F>, (value, decode), r),
    ensures
        r matches Err(e) ==> e is MalformedPayment,
        codec::base64_decoded(trimmed(value@)) is Err ==> r is Err,
        r matches Ok(p) ==> exists|b: Vec<u8>| #[trigger] decode.ensures((&b,), Ok(p)),
{
}

} // verus!

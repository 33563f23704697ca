use std::collections::HashMap;

use base64::Engine;
use sha2::Digest;

use mcs::payments::codec::hex_encode;
use mcs::payments::error::PaymentError;
use mcs::payments::facilitator::{
    after_settle, after_verify, answer, decode_error, request_body, status_error, succeeded,
    transport_error, FacilitatorVerifier, SettleResponse, VerifyResponse,
};
use mcs::payments::mock::MockVerifier;
use mcs::payments::paywall::{
    Charge, Grant, Lookup, Paywall, Recorded, X_PAYMENT, X_PAYMENT_RESPONSE,
};
use mcs::payments::store::{
    canonical_payload_hash, extract_nonce, idempotency_key, PaymentRecord, PaymentStoreError,
};
use mcs::payments::types::{
    PaymentPayload, PaymentRequiredResponse, PaymentRequirements, Settlement, SettlementResponse,
};
use mcs::time::Timestamp;
use mcs::variant::json::Json;

fn text(s: &str) -> Json {
    Json::Str(s.to_owned())
}

fn number(s: &str) -> Json {
    Json::Number(s.to_owned())
}

fn object(entries: Vec<(&str, Json)>) -> Json {
    Json::Object(entries.into_iter().map(|(k, v)| (k.to_owned(), v)).collect())
}

fn payment(scheme: &str, network: &str, payload: Json) -> PaymentPayload {
    PaymentPayload {
        x402_version: 1,
        scheme: scheme.to_owned(),
        network: network.to_owned(),
        payload,
    }
}

fn from_value(v: &serde_json::Value) -> Json {
    match v {
        serde_json::Value::Null => Json::Null,
        serde_json::Value::Bool(b) => Json::Bool(*b),
        serde_json::Value::Number(n) => Json::Number(n.to_string()),
        serde_json::Value::String(s) => Json::Str(s.clone()),
        serde_json::Value::Array(a) => Json::Array(a.iter().map(from_value).collect()),
        serde_json::Value::Object(m) => {
            Json::Object(m.iter().map(|(k, v)| (k.clone(), from_value(v))).collect())
        }
    }
}

// Reads a payment out of JSON bytes.
fn decode(bytes: &Vec<u8>) -> Result<PaymentPayload, String> {
    let value: serde_json::Value = serde_json::from_slice(bytes).map_err(|e| e.to_string())?;
    let missing = || "missing field".to_owned();
    Ok(PaymentPayload {
        x402_version: value["x402Version"].as_u64().ok_or_else(missing)? as u32,
        scheme: value["scheme"].as_str().ok_or_else(missing)?.to_owned(),
        network: value["network"].as_str().ok_or_else(missing)?.to_owned(),
        payload: from_value(&value["payload"]),
    })
}

fn exact_payload(nonce: &str) -> PaymentPayload {
    payment(
        "exact",
        "base-sepolia",
        object(vec![
            ("from", text("0xPayer")),
            (
                "authorization",
                object(vec![("nonce", text(nonce)), ("value", text("10000"))]),
            ),
        ]),
    )
}

// Keys.

#[test]
fn exact_scheme_uses_authorization_nonce() {
    let key = idempotency_key(&exact_payload("0xabc123"));
    assert_eq!(key, "exact:base-sepolia:0xabc123");
}

#[test]
fn exact_scheme_accepts_hoisted_nonce() {
    let payload = payment("exact", "base", object(vec![("nonce", text("n-42"))]));
    assert_eq!(idempotency_key(&payload), "exact:base:n-42");
}

#[test]
fn same_nonce_yields_same_key() {
    let a = idempotency_key(&exact_payload("0xsame"));
    let b = idempotency_key(&exact_payload("0xsame"));
    assert_eq!(a, b);
}

#[test]
fn distinct_nonces_yield_distinct_keys() {
    let a = idempotency_key(&exact_payload("0xone"));
    let b = idempotency_key(&exact_payload("0xtwo"));
    assert_ne!(a, b);
}

#[test]
fn keys_are_printable_whatever_the_nonce_holds() {
    assert_eq!(
        idempotency_key(&exact_payload("\u{e9}")),
        "exact-hex:626173652d7365706f6c6961:c3a9"
    );
    assert_eq!(
        idempotency_key(&exact_payload("a\nb")),
        "exact-hex:626173652d7365706f6c6961:610a62"
    );
    assert_ne!(
        idempotency_key(&exact_payload("\u{e9}")),
        idempotency_key(&exact_payload("c3a9"))
    );
    let abroad = payment("exact", "b\u{e4}se", object(vec![("nonce", text("7"))]));
    assert_eq!(idempotency_key(&abroad), "exact-hex:62c3a47365:37");
    for nonce in [" ~", "0xabc", "\u{7f}", "\u{1f}", "\u{10ffff}", "a b"] {
        let key = idempotency_key(&exact_payload(nonce));
        assert!(key.chars().all(|c| (' '..='~').contains(&c)), "{key:?}");
    }
    assert_eq!(idempotency_key(&exact_payload(" ~")), "exact:base-sepolia: ~");
}

#[test]
fn different_payments_have_different_content_keys() {
    let base = payment("streaming", "base", object(vec![("a", text("1,2"))]));
    let key = idempotency_key(&base);
    let others = vec![
        payment("streaming2", "base", object(vec![("a", text("1,2"))])),
        payment("streaming", "base2", object(vec![("a", text("1,2"))])),
        payment("streaming", "base", object(vec![("a", number("12"))])),
        payment("streaming", "base", object(vec![("a", text("1\",\"2"))])),
        payment("streaming", "base", object(vec![("a", Json::Array(vec![text("1"), text("2")]))])),
    ];
    for other in &others {
        assert_ne!(idempotency_key(other), key);
    }
    let mut newer = base.clone();
    newer.x402_version = 11;
    assert_ne!(idempotency_key(&newer), key);
}

#[test]
fn non_exact_scheme_falls_back_to_content_hash() {
    let payload = payment("streaming", "base", object(vec![("channel", text("abc"))]));
    let key = idempotency_key(&payload);
    assert!(key.starts_with("hash:"), "got {key}");
    assert_eq!(key, idempotency_key(&payload));
}

#[test]
fn exact_without_nonce_falls_back_to_hash() {
    let payload = payment("exact", "base", object(vec![("from", text("0xPayer"))]));
    assert!(idempotency_key(&payload).starts_with("hash:"));
}

#[test]
fn content_hash_is_key_order_independent() {
    let a = payment(
        "streaming",
        "base",
        object(vec![("a", number("1")), ("b", number("2"))]),
    );
    let b = payment(
        "streaming",
        "base",
        object(vec![("b", number("2")), ("a", number("1"))]),
    );
    assert_eq!(idempotency_key(&a), idempotency_key(&b));
}

#[test]
fn record_round_trips_to_settlement() {
    let record = PaymentRecord {
        idempotency_key: "exact:base:0x1".to_owned(),
        payer: "0xPayer".to_owned(),
        amount: "10000".to_owned(),
        asset: "0xUSDC".to_owned(),
        network: "base".to_owned(),
        transaction: Some("0xhash".to_owned()),
        resource: "/seeks".to_owned(),
        created_at: Timestamp::unix_epoch(),
    };
    let settlement = record.settlement();
    assert_eq!(settlement.payer, "0xPayer");
    assert_eq!(settlement.transaction.as_deref(), Some("0xhash"));
}

#[test]
fn the_content_key_is_the_sha256_of_the_sorted_json() {
    let payload = payment(
        "streaming",
        "base",
        object(vec![("z", text("caf\u{e9}")), ("a", Json::Array(vec![number("1.5"), Json::Null]))]),
    );
    let canonical =
        "{\"network\":\"base\",\"payload\":{\"a\":[1.5,null],\"z\":\"caf\u{e9}\"},\"scheme\":\"streaming\",\"x402Version\":1}";
    let digest = sha2::Sha256::digest(canonical.as_bytes());
    let mut expected = String::new();
    for b in digest.iter() {
        expected.push_str(&format!("{b:02x}"));
    }
    assert_eq!(canonical_payload_hash(&payload), expected);
    assert_eq!(idempotency_key(&payload), format!("hash:{expected}"));
}

#[test]
fn nonces_are_strings_or_numbers_that_are_not_empty() {
    let auth = |n: Json| object(vec![("authorization", object(vec![("nonce", n)]))]);
    assert_eq!(extract_nonce(&auth(text("n"))), Some("n".to_owned()));
    assert_eq!(extract_nonce(&auth(number("42"))), Some("42".to_owned()));
    assert_eq!(extract_nonce(&auth(text(""))), None);
    assert_eq!(extract_nonce(&auth(Json::Bool(true))), None);
    assert_eq!(extract_nonce(&Json::Null), None);
    // A nonce in the authorization hides a hoisted one, even when unusable.
    let both = object(vec![
        ("nonce", text("outer")),
        ("authorization", object(vec![("nonce", Json::Null)])),
    ]);
    assert_eq!(extract_nonce(&both), None);
    let text_auth = object(vec![("nonce", text("outer")), ("authorization", text("0x"))]);
    assert_eq!(extract_nonce(&text_auth), Some("outer".to_owned()));
}

#[test]
fn hex_text_has_two_digits_per_byte() {
    assert_eq!(hex_encode(&[0, 15, 16, 255]), "000f10ff");
    assert_eq!(hex_encode(&[]), "");
}

#[test]
fn store_errors_render_as_documented() {
    assert_eq!(
        PaymentStoreError::Conflict.to_string(),
        "payment already recorded for idempotency key"
    );
    assert_eq!(
        PaymentStoreError::Backend("down".to_owned()).to_string(),
        "payment store backend error: down"
    );
}

// Headers.

#[test]
fn payload_round_trips_header_encoding() {
    let payload = payment(
        "exact",
        "base-sepolia",
        object(vec![("authorization", text("0xdeadbeef"))]),
    );
    let header = payload.to_header().unwrap();
    let decoded = PaymentPayload::from_header(&header, decode).unwrap();
    assert_eq!(decoded.scheme, payload.scheme);
    assert_eq!(decoded.network, payload.network);
    assert_eq!(decoded.x402_version, payload.x402_version);
    assert_eq!(decoded, payload);
    let spaced = format!(" \t{header}\n");
    assert_eq!(PaymentPayload::from_header(&spaced, decode), Ok(payload));
}

#[test]
fn a_header_is_base64_of_the_json_in_field_order() {
    let payload = payment("exact", "base", Json::Null);
    let json = "{\"x402Version\":1,\"scheme\":\"exact\",\"network\":\"base\",\"payload\":null}";
    assert_eq!(
        payload.to_header().unwrap(),
        base64::engine::general_purpose::STANDARD.encode(json)
    );
}

#[test]
fn from_header_rejects_invalid_base64() {
    let err = PaymentPayload::from_header("not-valid-base64!!!", decode).unwrap_err();
    assert!(matches!(err, PaymentError::MalformedPayment(_)));
    let cause = base64::engine::general_purpose::STANDARD
        .decode("not-valid-base64!!!")
        .unwrap_err();
    assert_eq!(
        err.to_string(),
        format!("malformed X-PAYMENT header: base64 decode: {cause}")
    );
}

#[test]
fn from_header_rejects_invalid_json() {
    let garbage = base64::engine::general_purpose::STANDARD.encode(b"this is not json");
    let err = PaymentPayload::from_header(&garbage, decode).unwrap_err();
    assert!(matches!(err, PaymentError::MalformedPayment(_)));
    assert!(err.to_string().starts_with("malformed X-PAYMENT header: json decode: "));
}

// The mock.

fn test_reqs() -> PaymentRequirements {
    PaymentRequirements {
        scheme: "exact".to_owned(),
        network: "base-sepolia".to_owned(),
        max_amount_required: "1000000".to_owned(),
        resource: "/premium".to_owned(),
        description: "Test".to_owned(),
        mime_type: "application/json".to_owned(),
        pay_to: "0xRecipient".to_owned(),
        max_timeout_seconds: 300,
        asset: "0xUSDC".to_owned(),
        extra: None,
    }
}

#[test]
fn mock_accepts_matching_payload() {
    let payload = payment(
        "exact",
        "base-sepolia",
        object(vec![("from", text("0xPayer")), ("authorization", text("0xhash"))]),
    );
    let settlement = MockVerifier.verify(&payload, &test_reqs()).unwrap();
    assert_eq!(settlement.payer, "0xPayer");
    assert_eq!(settlement.transaction.as_deref(), Some("0xhash"));
}

#[test]
fn mock_rejects_scheme_mismatch() {
    let payload = payment("streaming", "base-sepolia", object(vec![]));
    let err = MockVerifier.verify(&payload, &test_reqs()).unwrap_err();
    assert!(matches!(err, PaymentError::SchemeMismatch { .. }));
    assert_eq!(
        err.to_string(),
        "payment scheme mismatch: got `streaming`, expected `exact`"
    );
}

#[test]
fn mock_rejects_network_mismatch() {
    let payload = payment("exact", "ethereum", object(vec![]));
    let err = MockVerifier.verify(&payload, &test_reqs()).unwrap_err();
    assert!(matches!(err, PaymentError::NetworkMismatch { .. }));
    assert_eq!(
        err.to_string(),
        "payment network mismatch: got `ethereum`, expected `base-sepolia`"
    );
}

#[test]
fn mock_rejects_asset_mismatch() {
    let payload = payment("exact", "base-sepolia", object(vec![("asset", text("0xWRONG"))]));
    let err = MockVerifier.verify(&payload, &test_reqs()).unwrap_err();
    assert!(matches!(err, PaymentError::AssetMismatch { .. }));
    assert_eq!(
        err.to_string(),
        "payment asset mismatch: got `0xWRONG`, expected `0xUSDC`"
    );
}

#[test]
fn mock_names_no_payer_when_the_payment_does_not() {
    let payload = payment("exact", "base-sepolia", object(vec![("asset", text("0xUSDC"))]));
    let settlement = MockVerifier.verify(&payload, &test_reqs()).unwrap();
    assert_eq!(settlement.payer, "0x0000000000000000000000000000000000000000");
    assert_eq!(settlement.transaction, None);
}

#[test]
fn payment_errors_render_as_documented() {
    assert_eq!(PaymentError::MissingPayment.to_string(), "missing X-PAYMENT header");
    assert_eq!(
        PaymentError::VerificationFailed("x".to_owned()).to_string(),
        "payment verification failed: x"
    );
    assert_eq!(
        PaymentError::Facilitator("x".to_owned()).to_string(),
        "facilitator error: x"
    );
}

// The paywall, run against an in-memory store.

struct Shop {
    paywall: Paywall,
    records: HashMap<String, PaymentRecord>,
    verified: usize,
}

fn gated_terms() -> Vec<PaymentRequirements> {
    let mut terms = test_reqs();
    terms.resource = "/gated".to_owned();
    terms.description = "Premium feature".to_owned();
    vec![terms]
}

impl Shop {
    fn open() -> Shop {
        Shop {
            paywall: Paywall::new(gated_terms()),
            records: HashMap::new(),
            verified: 0,
        }
    }

    fn record(&mut self, record: PaymentRecord) -> Result<(), PaymentStoreError> {
        if self.records.contains_key(&record.idempotency_key) {
            return Err(PaymentStoreError::Conflict);
        }
        self.records.insert(record.idempotency_key.clone(), record);
        Ok(())
    }

    fn serve(&mut self, header: Option<&str>) -> Result<Grant, PaymentRequiredResponse> {
        let payment = header.map(|h| PaymentPayload::from_header(h, decode));
        let charge = self.paywall.open_charge(payment)?;
        let found = Ok(self.records.get(charge.key()).cloned());
        match self.paywall.after_lookup(&charge, found) {
            Lookup::Replay(grant) => return Ok(grant),
            Lookup::Refuse(body) => return Err(body),
            Lookup::Verify => {}
        }
        self.verified += 1;
        let verified = MockVerifier.verify(charge.payload(), charge.terms());
        let (record, settlement) =
            self.paywall.after_verify(&charge, verified, Timestamp::unix_epoch())?;
        let recorded = self.record(record);
        match self.paywall.after_record(&charge, settlement, recorded) {
            Recorded::Granted(grant) => Ok(grant),
            Recorded::LookAgain(settlement) => {
                let found = Ok(self.records.get(charge.key()).cloned());
                Ok(self.paywall.after_conflict(&charge, settlement, found))
            }
            Recorded::Refuse(body) => Err(body),
        }
    }
}

fn nonce_header(nonce: &str) -> String {
    payment(
        "exact",
        "base-sepolia",
        object(vec![
            ("from", text("0xPayer")),
            ("authorization", object(vec![("nonce", text(nonce))])),
        ]),
    )
    .to_header()
    .unwrap()
}

#[test]
fn unpaid_request_returns_402_with_accepts() {
    let body = Shop::open().serve(None).unwrap_err();
    let parsed: serde_json::Value = serde_json::from_str(&body.to_json().to_text()).unwrap();
    assert_eq!(parsed["x402Version"], 1);
    let accepts = parsed["accepts"].as_array().unwrap();
    assert!(!accepts.is_empty());
    assert_eq!(accepts[0]["scheme"], "exact");
    assert!(parsed.get("error").is_none());
}

#[test]
fn valid_payment_returns_200_with_settlement_header() {
    let grant = Shop::open().serve(Some(&nonce_header("0xdeadbeef"))).unwrap();
    assert_eq!(grant.settlement.payer, "0xPayer");
    let settlement: serde_json::Value =
        serde_json::from_str(&grant.receipt.to_json().to_text()).unwrap();
    assert_eq!(settlement["success"], true);
    assert_eq!(settlement["payer"], "0xPayer");
    assert_eq!(settlement["network"], "base-sepolia");
    assert_eq!(X_PAYMENT, "x-payment");
    assert_eq!(X_PAYMENT_RESPONSE, "x-payment-response");
}

#[test]
fn malformed_payment_header_returns_402() {
    let body = Shop::open().serve(Some("this-is-not-base64!!!")).unwrap_err();
    let parsed: serde_json::Value = serde_json::from_str(&body.to_json().to_text()).unwrap();
    assert!(parsed["error"].is_string());
}

#[test]
fn mismatched_scheme_returns_402() {
    let header = payment("streaming", "base-sepolia", object(vec![])).to_header().unwrap();
    let body = Shop::open().serve(Some(&header)).unwrap_err();
    let parsed: serde_json::Value = serde_json::from_str(&body.to_json().to_text()).unwrap();
    assert!(parsed["error"].is_string());
    assert_eq!(
        body.error.as_deref(),
        Some("no requirement matches scheme=streaming network=base-sepolia")
    );
}

#[test]
fn mismatched_network_returns_402() {
    let header = payment("exact", "ethereum", object(vec![])).to_header().unwrap();
    assert!(Shop::open().serve(Some(&header)).is_err());
}

#[test]
fn duplicate_payment_settles_once() {
    let mut shop = Shop::open();
    let header = nonce_header("0xdeadbeef");
    let first = shop.serve(Some(&header)).unwrap();
    let second = shop.serve(Some(&header)).unwrap();
    assert_eq!(first, second);
    assert_eq!(shop.verified, 1);
}

#[test]
fn distinct_payment_settles_again() {
    let mut shop = Shop::open();
    for nonce in ["0xnonce-a", "0xnonce-b"] {
        assert!(shop.serve(Some(&nonce_header(nonce))).is_ok());
    }
    assert_eq!(shop.verified, 2);
    assert_eq!(shop.records.len(), 2);
}

fn charge(paywall: &Paywall) -> Charge {
    paywall.open_charge(Some(Ok(exact_payload("0x1")))).unwrap()
}

fn settled(payer: &str) -> Settlement {
    Settlement { payer: payer.to_owned(), transaction: None }
}

#[test]
fn a_store_that_fails_refuses_the_request() {
    let paywall = Paywall::new(gated_terms());
    let charge = charge(&paywall);
    let down = || PaymentStoreError::Backend("down".to_owned());
    let body = paywall.payment_required(Some("payment store unavailable".to_owned()));
    assert_eq!(paywall.after_lookup(&charge, Err(down())), Lookup::Refuse(body));
    let body = paywall.payment_required(Some("payment store unavailable".to_owned()));
    assert_eq!(
        paywall.after_record(&charge, settled("0xA"), Err(down())),
        Recorded::Refuse(body)
    );
}

#[test]
fn the_request_that_lost_the_race_is_served_on_the_winner() {
    let paywall = Paywall::new(gated_terms());
    let charge = charge(&paywall);
    let now = Timestamp::unix_epoch();
    let (winner, _) = paywall.after_verify(&charge, Ok(settled("0xA")), now).unwrap();
    assert_eq!(winner.idempotency_key, "exact:base-sepolia:0x1");
    assert_eq!(winner.amount, "1000000");
    assert_eq!(winner.asset, "0xUSDC");
    assert_eq!(winner.resource, "/gated");
    assert_eq!(
        paywall.after_record(&charge, settled("0xB"), Err(PaymentStoreError::Conflict)),
        Recorded::LookAgain(settled("0xB"))
    );
    let grant = paywall.after_conflict(&charge, settled("0xB"), Ok(Some(winner)));
    assert_eq!(grant.settlement.payer, "0xA");
    let own = paywall.after_conflict(&charge, settled("0xB"), Ok(None));
    assert_eq!(own.settlement.payer, "0xB");
}

#[test]
fn a_rejected_payment_is_refused_with_the_reason() {
    let paywall = Paywall::new(gated_terms());
    let charge = charge(&paywall);
    let verified = Err(PaymentError::VerificationFailed("no funds".to_owned()));
    let body = paywall
        .after_verify(&charge, verified, Timestamp::unix_epoch())
        .unwrap_err();
    assert_eq!(body.error.as_deref(), Some("payment verification failed: no funds"));
    assert_eq!(body.accepts, gated_terms());
}

#[test]
fn the_first_fitting_terms_are_charged() {
    let mut other = test_reqs();
    other.network = "base".to_owned();
    let mut late = test_reqs();
    late.max_amount_required = "5".to_owned();
    let paywall = Paywall::new(vec![other, test_reqs(), late]);
    assert_eq!(charge(&paywall).terms(), &test_reqs());
}

// The facilitator.

fn test_payload() -> PaymentPayload {
    payment(
        "exact",
        "base-sepolia",
        object(vec![("from", text("0xPayer")), ("authorization", text("0xauth"))]),
    )
}

fn valid(payer: Option<&str>) -> VerifyResponse {
    VerifyResponse {
        is_valid: true,
        invalid_reason: None,
        payer: payer.map(|p| p.to_owned()),
    }
}

fn settle_reply(success: bool, payer: Option<&str>) -> SettleResponse {
    SettleResponse {
        success,
        error_reason: None,
        transaction: Some("0xtxhash".to_owned()),
        network: Some("base-sepolia".to_owned()),
        payer: payer.map(|p| p.to_owned()),
    }
}

#[test]
fn the_request_body_has_the_wire_format() {
    let expected = "{\"x402Version\":1,\"paymentPayload\":{\"x402Version\":1,\"scheme\":\"exact\",\
        \"network\":\"base-sepolia\",\"payload\":{\"from\":\"0xPayer\",\"authorization\":\"0xauth\"}},\
        \"paymentRequirements\":{\"scheme\":\"exact\",\"network\":\"base-sepolia\",\
        \"maxAmountRequired\":\"1000000\",\"resource\":\"/premium\",\"description\":\"Test\",\
        \"mimeType\":\"application/json\",\"payTo\":\"0xRecipient\",\"maxTimeoutSeconds\":300,\
        \"asset\":\"0xUSDC\"}}";
    assert_eq!(request_body(&test_payload(), &test_reqs()).to_text(), expected);
    let mut extended = test_reqs();
    extended.extra = Some(object(vec![("name", text("USDC"))]));
    assert!(extended.to_json().to_text().ends_with(",\"extra\":{\"name\":\"USDC\"}}"));
}

#[test]
fn verify_then_settle_returns_settlement() {
    let verify = after_verify(Ok(valid(Some("0xPayer")))).unwrap();
    let settlement = after_settle(verify, Ok(settle_reply(true, Some("0xPayer")))).unwrap();
    assert_eq!(settlement.payer, "0xPayer");
    assert_eq!(settlement.transaction.as_deref(), Some("0xtxhash"));
}

#[test]
fn invalid_verify_short_circuits_without_settling() {
    let reply = VerifyResponse {
        is_valid: false,
        invalid_reason: Some("insufficient funds".to_owned()),
        payer: None,
    };
    match after_verify(Ok(reply)).unwrap_err() {
        PaymentError::VerificationFailed(reason) => assert_eq!(reason, "insufficient funds"),
        other => panic!("expected VerificationFailed, got {other:?}"),
    }
    let silent = VerifyResponse { is_valid: false, invalid_reason: None, payer: None };
    assert_eq!(
        after_verify(Ok(silent)),
        Err(PaymentError::VerificationFailed(
            "facilitator reported the payment invalid".to_owned()
        ))
    );
}

#[test]
fn settle_failure_maps_to_verification_failed() {
    let mut reply = settle_reply(false, None);
    assert_eq!(
        after_settle(valid(None), Ok(reply)),
        Err(PaymentError::VerificationFailed(
            "facilitator failed to settle the payment".to_owned()
        ))
    );
    reply = settle_reply(false, None);
    reply.error_reason = Some("broadcast rejected".to_owned());
    match after_settle(valid(None), Ok(reply)).unwrap_err() {
        PaymentError::VerificationFailed(reason) => assert_eq!(reason, "broadcast rejected"),
        other => panic!("expected VerificationFailed, got {other:?}"),
    }
}

#[test]
fn server_error_maps_to_facilitator_error() {
    let err = status_error("http://f/verify", "500 Internal Server Error", "upstream down");
    assert_eq!(
        err,
        PaymentError::Facilitator(
            "POST http://f/verify returned 500 Internal Server Error: upstream down".to_owned()
        )
    );
    assert!(matches!(after_verify(Err(err)), Err(PaymentError::Facilitator(_))));
    let long = "x".repeat(300);
    match status_error("u", "500", &long) {
        PaymentError::Facilitator(m) => {
            assert_eq!(m, format!("POST u returned 500: {}", "x".repeat(256)));
        }
        other => panic!("unexpected {other:?}"),
    }
}

#[test]
fn an_answer_counts_where_its_status_reports_success() {
    assert_eq!(answer("u", 200, "200 OK", "", Ok(7)), Ok(7));
    assert_eq!(answer("u", 299, "299", "", Ok(7)), Ok(7));
    assert_eq!(
        answer::<u32>("u", 204, "204 No Content", "", Err("eof".to_owned())),
        Err(decode_error("u", "eof"))
    );
    assert_eq!(answer("u", 199, "199", "b", Ok(7)), Err(status_error("u", "199", "b")));
    assert_eq!(
        answer("u", 300, "300 Multiple Choices", "b", Ok(7)),
        Err(PaymentError::Facilitator("POST u returned 300 Multiple Choices: b".to_owned()))
    );
    assert!(succeeded(200) && succeeded(299) && !succeeded(199) && !succeeded(300));
}

#[test]
fn unreachable_facilitator_maps_to_facilitator_error() {
    assert_eq!(
        transport_error("http://127.0.0.1:1/verify", "refused"),
        PaymentError::Facilitator("POST http://127.0.0.1:1/verify: refused".to_owned())
    );
    assert_eq!(
        decode_error("u", "eof"),
        PaymentError::Facilitator("decoding u response: eof".to_owned())
    );
}

#[test]
fn the_settling_payer_is_preferred() {
    let both = after_settle(valid(Some("0xV")), Ok(settle_reply(true, Some("0xS")))).unwrap();
    assert_eq!(both.payer, "0xS");
    let checked = after_settle(valid(Some("0xV")), Ok(settle_reply(true, None))).unwrap();
    assert_eq!(checked.payer, "0xV");
    assert_eq!(
        after_settle(valid(None), Ok(settle_reply(true, None))),
        Err(PaymentError::Facilitator("facilitator returned no payer address".to_owned()))
    );
}

#[test]
fn api_key_is_sent_as_bearer_token() {
    let verifier = FacilitatorVerifier::with_api_key("http://f", "secret-token".to_owned());
    assert_eq!(verifier.api_key(), Some("secret-token"));
    assert_eq!(FacilitatorVerifier::new("http://f").api_key(), None);
}

#[test]
fn base_url_trailing_slash_is_trimmed() {
    let verifier = FacilitatorVerifier::new("http://f//");
    assert_eq!(verifier.url("/verify"), "http://f/verify");
    assert_eq!(FacilitatorVerifier::new("http://f").url("/settle"), "http://f/settle");
}

#[test]
fn a_receipt_leaves_out_what_is_not_known() {
    let receipt = SettlementResponse {
        success: true,
        transaction: None,
        network: "base".to_owned(),
        payer: Some("0xA".to_owned()),
    };
    assert_eq!(
        receipt.to_json().to_text(),
        "{\"success\":true,\"network\":\"base\",\"payer\":\"0xA\"}"
    );
}

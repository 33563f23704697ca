//! Records of settled payments, and the key that makes paid actions idempotent.
//!
//! A paid action must charge at most once even when the same payment is sent
//! again. Each payment has a stable key; the first settlement is recorded under
//! it, and a later request with the same key is served from the record.

use vstd::prelude::*;

use crate::payments::codec;
use crate::payments::types;
use crate::payments::types::{PayloadView, PaymentPayload, Settlement};
use crate::text;
use crate::time::Timestamp;
use crate::variant::json;
use crate::variant::json::{Json, JsonView};
use crate::variant::json_text;

verus! {

/// The scheme whose authorizations carry a nonce that can be used once.
pub const EXACT_SCHEME: &'static str = "exact";

/// A settled payment. One record exists for each key.
#[derive(Debug, PartialEq, Eq)]
pub struct PaymentRecord {
    /// The key of the payment.
    pub idempotency_key: String,
    /// The address of the payer.
    pub payer: String,
    /// The amount charged, in the smallest unit of the asset.
    pub amount: String,
    /// The contract address of the asset.
    pub asset: String,
    /// The network paid on.
    pub network: String,
    /// The settling transaction, if known.
    pub transaction: Option<String>,
    /// The resource that was paid for.
    pub resource: String,
    /// When the record was written.
    pub created_at: Timestamp,
}

impl PaymentRecord {
    /// The settlement the record stands for.
    pub open spec fn settled(self) -> Settlement {
        Settlement { payer: self.payer, transaction: self.transaction }
    }

    /// The settlement the record stands for, to serve a repeated payment with.
    #[must_use]
    pub fn settlement(&self) -> (r: Settlement)
        ensures
            r == self.settled(),
    {
        Settlement { payer: self.payer.clone(), transaction: text::clone_opt(&self.transaction) }
    }
}

impl Clone for PaymentRecord {
    fn clone(&self) -> (r: Self)
        ensures
            r == *self,
    {
        PaymentRecord {
            idempotency_key: self.idempotency_key.clone(),
            payer: self.payer.clone(),
            amount: self.amount.clone(),
            asset: self.asset.clone(),
            network: self.network.clone(),
            transaction: text::clone_opt(&self.transaction),
            resource: self.resource.clone(),
            created_at: self.created_at,
        }
    }
}

/// Why a payment store operation failed.
#[derive(Debug, PartialEq, Eq)]
pub enum PaymentStoreError {
    /// The payment was recorded before.
    Conflict,
    /// The store failed.
    Backend(String),
}

impl PaymentStoreError {
    /// The text shown for the error.
    pub open spec fn message(self) -> Seq<char> {
        match self {
            PaymentStoreError::Conflict => "payment already recorded for idempotency key"@,
            PaymentStoreError::Backend(s) => "payment store backend error: "@ + s@,
        }
    }

    /// Renders the error.
    pub fn to_string(&self) -> (r: String)
        ensures
            r@ == self.message(),
    {
        match self {
            PaymentStoreError::Conflict => {
                "payment already recorded for idempotency key".to_owned()
            },
            PaymentStoreError::Backend(s) => text::join2(
                "payment store backend error: ",
                s.as_str(),
            ),
        }
    }
}

/// What a payload has for a nonce: the one in its authorization, or else its own.
pub open spec fn nonce_value(inner: JsonView) -> Option<JsonView> {
    match inner.get("authorization"@) {
        Some(auth) => match auth.get("nonce"@) {
            Some(n) => Some(n),
            None => inner.get("nonce"@),
        },
        None => inner.get("nonce"@),
    }
}

/// The nonce of a payload: a string or the text of a number, and not empty.
pub open spec fn nonce_of(inner: JsonView) -> Option<Seq<char>> {
    match nonce_value(inner) {
        Some(JsonView::Str(s)) => if s.len() > 0 {
            Some(s)
        } else {
            None
        },
        Some(JsonView::Number(n)) => if n.len() > 0 {
            Some(n)
        } else {
            None
        },
        _ => None,
    }
}

/// Whether a text is made of printable ASCII characters.
pub open spec fn printable(s: Seq<char>) -> bool {
    forall|i: int| 0 <= i < s.len() ==> ' ' <= #[trigger] s[i] <= '~'
}

/// The key of a payment that is identified by its nonce: the network and the nonce
/// as they are where both are printable, and else the hexadecimal texts of their
/// UTF-8 bytes.
pub open spec fn nonce_key(network: Seq<char>, nonce: Seq<char>) -> Seq<char> {
    if printable(network) && printable(nonce) {
        "exact:"@ + network + ":"@ + nonce
    } else {
        "exact-hex:"@ + codec::hex_text(vstd::utf8::encode_utf8(network)) + ":"@
            + codec::hex_text(vstd::utf8::encode_utf8(nonce))
    }
}

/// The bytes that a payment known by its content is hashed from.
pub open spec fn hashed_bytes(payload: PayloadView) -> Seq<u8> {
    vstd::utf8::encode_utf8(payload.json().canonical().text())
}

/// The key of a payment that is identified by its content.
pub open spec fn content_key(payload: PayloadView) -> Seq<char> {
    "hash:"@ + codec::hex_text(codec::sha256(hashed_bytes(payload)))
}

/// The key of a payment.
pub open spec fn key_of(payload: PayloadView) -> Seq<char> {
    if payload.scheme == EXACT_SCHEME@ && nonce_of(payload.payload) is Some {
        nonce_key(payload.network, nonce_of(payload.payload)->0)
    } else {
        content_key(payload)
    }
}

/// The nonce of a payload: the one in its authorization, or else its own, when it
/// is a number or a string that is not empty.
pub fn extract_nonce(inner: &Json) -> (r: Option<String>)
    ensures
        types::opt_text(r) == nonce_of(inner@),
{
    let hoisted = inner.get("nonce");
    let found = match inner.get("authorization") {
        Some(auth) => match auth.get("nonce") {
            Some(n) => Some(n),
            None => hoisted,
        },
        None => hoisted,
    };
    match found {
        Some(Json::Str(s)) => if s.as_str().unicode_len() > 0 {
            Some(s.clone())
        } else {
            None
        },
        Some(Json::Number(n)) => if n.as_str().unicode_len() > 0 {
            Some(n.clone())
        } else {
            None
        },
        _ => None,
    }
}

/// The hexadecimal SHA-256 of the payload's canonical JSON text.
pub fn canonical_payload_hash(payload: &PaymentPayload) -> (r: String)
    ensures
        r@ == codec::hex_text(codec::sha256(hashed_bytes(payload@))),
{
    let canonical = payload.to_json().canonicalize();
    let text = canonical.to_text();
    let digest = codec::digest_sha256(text.as_str().as_bytes());
    codec::hex_encode(digest.as_slice())
}

/// Whether a text is made of printable ASCII characters.
fn is_printable(s: &str) -> (r: bool)
    ensures
        r == printable(s@),
{
    let chars = text::chars_of(s);
    let mut i: usize = 0;
    while i < chars.len()
        invariant
            chars@ == s@,
            i <= chars@.len(),
            forall|j: int| 0 <= j < i ==> ' ' <= #[trigger] s@[j] <= '~',
        decreases chars@.len() - i,
    {
        let c: char = chars[i];
        if c < ' ' || '~' < c {
            assert(!(' ' <= s@[i as int] <= '~'));
            return false;
        }
        i = i + 1;
    }
    true
}

/// Derives the stable key of a payment: an exact payment with a nonce is known by
/// its network and nonce, any other by the hash of its canonical JSON. The key is
/// printable ASCII.
#[must_use]
pub fn idempotency_key(payload: &PaymentPayload) -> (r: String)
    ensures
        r@ == key_of(payload@),
        printable(r@),
{
    proof {
        keys_are_printable(payload@);
    }
    if text::str_eq(payload.scheme.as_str(), EXACT_SCHEME) {
        if let Some(nonce) = extract_nonce(&payload.payload) {
            if is_printable(payload.network.as_str()) && is_printable(nonce.as_str()) {
                return "exact:".to_owned().concat(payload.network.as_str()).concat(":").concat(
                    nonce.as_str(),
                );
            }
            let network = codec::hex_encode(payload.network.as_str().as_bytes());
            let nonce = codec::hex_encode(nonce.as_str().as_bytes());
            return "exact-hex:".to_owned().concat(network.as_str()).concat(":").concat(
                nonce.as_str(),
            );
        }
    }
    text::join2("hash:", canonical_payload_hash(payload).as_str())
}

/// Every key is printable ASCII, whatever the network and the nonce hold.
pub proof fn keys_are_printable(payload: PayloadView)
    ensures
        printable(key_of(payload)),
{
    reveal_strlit("exact:");
    reveal_strlit("exact-hex:");
    reveal_strlit(":");
    reveal_strlit("hash:");
    if payload.scheme == EXACT_SCHEME@ && nonce_of(payload.payload) is Some {
        hex_texts_are_printable(vstd::utf8::encode_utf8(payload.network));
        hex_texts_are_printable(vstd::utf8::encode_utf8(nonce_of(payload.payload)->0));
    } else {
        hex_texts_are_printable(codec::sha256(hashed_bytes(payload)));
    }
}

proof fn hex_texts_are_printable(bytes: Seq<u8>)
    ensures
        printable(codec::hex_text(bytes)),
    decreases bytes.len(),
{
    if bytes.len() > 0 {
        hex_texts_are_printable(bytes.drop_last());
    }
}

/// On one network, exact payments have the same key exactly when they have the
/// same nonce; the rest of the payload plays no part.
pub proof fn a_nonce_is_a_key(a: PayloadView, b: PayloadView)
    requires
        a.scheme == EXACT_SCHEME@,
        b.scheme == EXACT_SCHEME@,
        a.network == b.network,
        nonce_of(a.payload) is Some,
        nonce_of(b.payload) is Some,
    ensures
        key_of(a) == key_of(b) <==> nonce_of(a.payload) == nonce_of(b.payload),
{
    let x = nonce_of(a.payload)->0;
    let y = nonce_of(b.payload)->0;
    let plain = "exact:"@ + a.network + ":"@;
    assert((plain + x).skip(plain.len() as int) =~= x);
    assert((plain + y).skip(plain.len() as int) =~= y);
    let bytes_x = vstd::utf8::encode_utf8(x);
    let bytes_y = vstd::utf8::encode_utf8(y);
    let hex = "exact-hex:"@ + codec::hex_text(vstd::utf8::encode_utf8(a.network)) + ":"@;
    assert((hex + codec::hex_text(bytes_x)).skip(hex.len() as int) =~= codec::hex_text(bytes_x));
    assert((hex + codec::hex_text(bytes_y)).skip(hex.len() as int) =~= codec::hex_text(bytes_y));
    codec::hex_text_tells_bytes_apart(bytes_x, bytes_y);
    vstd::utf8::encode_utf8_decode_utf8(x);
    vstd::utf8::encode_utf8_decode_utf8(y);
    reveal_strlit("exact:");
    reveal_strlit("exact-hex:");
    assert((plain + x)[5] == ':' && (plain + y)[5] == ':');
    assert((hex + codec::hex_text(bytes_x))[5] == '-');
    assert((hex + codec::hex_text(bytes_y))[5] == '-');
}

/// A payment known by its nonce and one known by its content never share a key.
pub proof fn nonce_keys_and_content_keys_differ(
    network: Seq<char>,
    nonce: Seq<char>,
    payload: PayloadView,
)
    ensures
        nonce_key(network, nonce) != content_key(payload),
{
    reveal_strlit("exact:");
    reveal_strlit("exact-hex:");
    reveal_strlit("hash:");
    assert(nonce_key(network, nonce)[0] == 'e');
    assert(content_key(payload)[0] == 'h');
}

proof fn lookup_ignores_key_order(a: JsonView, b: JsonView, key: Seq<char>)
    requires
        a.well_formed(),
        b.well_formed(),
        a.same_but_for_order(b),
    ensures
        match (a.get(key), b.get(key)) {
            (Some(x), Some(y)) => x.same_but_for_order(y) && x.well_formed() && y.well_formed(),
            (None, None) => true,
            _ => false,
        },
{
    match (a, b) {
        (JsonView::Object(x), JsonView::Object(y)) => {
            found_where_listed(x, key);
            found_where_listed(y, key);
            if a.get(key) is Some {
                let i = choose|i: int|
                    0 <= i < x.len() && (#[trigger] x[i]).0 == key && json::value_under(x, key)
                        == Some(x[i].1);
                let j = choose|j: int|
                    0 <= j < y.len() && (#[trigger] x[i]).0 == (#[trigger] y[j]).0
                        && x[i].1.same_but_for_order(y[j].1);
                assert(y[j].0 == key);
                let k = choose|k: int|
                    0 <= k < y.len() && (#[trigger] y[k]).0 == key && json::value_under(y, key)
                        == Some(y[k].1);
                assert(j == k) by {
                    if j < k {
                        assert(y[j].0 != y[k].0);
                    }
                    if k < j {
                        assert(y[k].0 != y[j].0);
                    }
                }
                assert(x[i].1.well_formed() && y[j].1.well_formed());
            } else if b.get(key) is Some {
                let k = choose|k: int|
                    0 <= k < y.len() && (#[trigger] y[k]).0 == key && json::value_under(y, key)
                        == Some(y[k].1);
                every_key_is_matched(x, y, k);
            }
        },
        _ => {},
    }
}

proof fn found_where_listed(entries: Seq<json::Entry>, key: Seq<char>)
    ensures
        match json::value_under(entries, key) {
            Some(v) => exists|i: int|
                0 <= i < entries.len() && (#[trigger] entries[i]).0 == key && json::value_under(
                    entries,
                    key,
                ) == Some(entries[i].1),
            None => forall|i: int| 0 <= i < entries.len() ==> (#[trigger] entries[i]).0 != key,
        },
    decreases entries.len(),
{
    if entries.len() > 0 {
        let rest = entries.drop_first();
        found_where_listed(rest, key);
        if entries[0].0 == key {
            assert(json::value_under(entries, key) == Some(entries[0].1));
        } else {
            match json::value_under(rest, key) {
                Some(v) => {
                    let i = choose|i: int|
                        0 <= i < rest.len() && (#[trigger] rest[i]).0 == key && json::value_under(
                            rest,
                            key,
                        ) == Some(rest[i].1);
                    assert(entries[i + 1].0 == key);
                },
                None => {
                    assert forall|i: int| 0 <= i < entries.len() implies (
                    #[trigger] entries[i]).0 != key by {
                        if i > 0 {
                            assert(rest[i - 1].0 != key);
                        }
                    }
                },
            }
        }
    }
}

// Two objects of the same length with distinct keys: when every key of the first
// is a key of the second, every key of the second is one of the first.
proof fn every_key_is_matched(x: Seq<json::Entry>, y: Seq<json::Entry>, k: int)
    requires
        x.len() == y.len(),
        json::keys_distinct(x),
        json::keys_distinct(y),
        0 <= k < y.len(),
        forall|i: int|
            0 <= i < x.len() ==> exists|j: int|
                0 <= j < y.len() && (#[trigger] x[i]).0 == (#[trigger] y[j]).0,
    ensures
        exists|i: int| 0 <= i < x.len() && (#[trigger] x[i]).0 == y[k].0,
    decreases x.len(),
{
    let n = x.len() - 1;
    let last = x[n];
    let j = choose|j: int| 0 <= j < y.len() && (#[trigger] x[n]).0 == (#[trigger] y[j]).0;
    if j != k {
        let x1 = x.drop_last();
        let y1 = y.remove(j);
        let k1 = if k < j {
            k
        } else {
            k - 1
        };
        assert(y1[k1] == y[k]);
        assert forall|a: int, b: int| 0 <= a < b < x1.len() implies #[trigger] x1[a].0
            != #[trigger] x1[b].0 by {
            assert(x1[a] == x[a] && x1[b] == x[b]);
        }
        assert forall|a: int, b: int| 0 <= a < b < y1.len() implies #[trigger] y1[a].0
            != #[trigger] y1[b].0 by {
            let a0 = if a < j {
                a
            } else {
                a + 1
            };
            let b0 = if b < j {
                b
            } else {
                b + 1
            };
            assert(y1[a] == y[a0] && y1[b] == y[b0]);
        }
        assert forall|i: int| 0 <= i < x1.len() implies exists|m: int|
            0 <= m < y1.len() && (#[trigger] x1[i]).0 == (#[trigger] y1[m]).0 by {
            assert(x1[i] == x[i]);
            let m = choose|m: int| 0 <= m < y.len() && (#[trigger] x[i]).0 == (#[trigger] y[m]).0;
            assert(x[i].0 != x[n].0);
            assert(m != j);
            let m1 = if m < j {
                m
            } else {
                m - 1
            };
            assert(y1[m1] == y[m]);
        }
        every_key_is_matched(x1, y1, k1);
        let i = choose|i: int| 0 <= i < x1.len() && (#[trigger] x1[i]).0 == y1[k1].0;
        assert(x[i] == x1[i]);
    }
}

/// The key does not depend on the order in which the objects of a payload list
/// their keys: a retried payment has the key of the first attempt.
pub proof fn the_key_ignores_key_order(a: PayloadView, b: PayloadView)
    requires
        a.x402_version == b.x402_version,
        a.scheme == b.scheme,
        a.network == b.network,
        a.payload.well_formed(),
        b.payload.well_formed(),
        a.payload.same_but_for_order(b.payload),
    ensures
        key_of(a) == key_of(b),
{
    let p = a.payload;
    let q = b.payload;
    lookup_ignores_key_order(p, q, "authorization"@);
    lookup_ignores_key_order(p, q, "nonce"@);
    if p.get("authorization"@) is Some {
        lookup_ignores_key_order(
            p.get("authorization"@)->0,
            q.get("authorization"@)->0,
            "nonce"@,
        );
    }
    assert(nonce_of(p) == nonce_of(q));
    let x = a.json()->Object_0;
    let y = b.json()->Object_0;
    payload_keys_are_distinct(a);
    payload_keys_are_distinct(b);
    assert forall|i: int| 0 <= i < x.len() implies exists|j: int|
        0 <= j < y.len() && (#[trigger] x[i]).0 == (#[trigger] y[j]).0 && x[i].1.same_but_for_order(
            y[j].1,
        ) by {
        assert(x[i].0 == y[i].0);
    }
    json::canonical_form_ignores_key_order(a.json(), b.json());
}

/// Any difference between two payments but the order of keys is a difference
/// between the bytes that are hashed: their content keys agree only where SHA-256
/// has the same digest for different bytes.
pub proof fn different_payments_hash_different_bytes(a: PayloadView, b: PayloadView)
    requires
        json_text::numbers_are_plain(a.payload),
        json_text::numbers_are_plain(b.payload),
    ensures
        hashed_bytes(a) == hashed_bytes(b) <==> {
            &&& a.x402_version == b.x402_version
            &&& a.scheme == b.scheme
            &&& a.network == b.network
            &&& a.payload.canonical() == b.payload.canonical()
        },
        content_key(a) == content_key(b) <==> codec::sha256(hashed_bytes(a)) == codec::sha256(
            hashed_bytes(b),
        ),
{
    let u = a.json().canonical();
    let w = b.json().canonical();
    vstd::utf8::encode_utf8_decode_utf8(u.text());
    vstd::utf8::encode_utf8_decode_utf8(w.text());
    payload_numbers_are_plain(a);
    payload_numbers_are_plain(b);
    json_text::canonical_numbers_stay_plain(a.json());
    json_text::canonical_numbers_stay_plain(b.json());
    json_text::text_tells_values_apart(u, w);
    let p = json::canonical_entries(a.json()->Object_0);
    let q = json::canonical_entries(b.json()->Object_0);
    json::canonical_entries_pointwise(a.json()->Object_0);
    json::canonical_entries_pointwise(b.json()->Object_0);
    json::in_order_sorts(p);
    json::in_order_sorts(q);
    payload_key_names_differ();
    if u == w {
        assert forall|i: int| 0 <= i < 4 implies p[i] == #[trigger] q[i] by {
            assert(p.contains(p[i]));
            assert(json::in_order(q).contains(p[i]));
            assert(q.contains(p[i]));
        }
        assert(p[0].1 == q[0].1 && p[1].1 == q[1].1 && p[2].1 == q[2].1 && p[3].1 == q[3].1);
        text::decimal_digits_tell_numbers_apart(a.x402_version as nat, b.x402_version as nat);
    } else if a.x402_version == b.x402_version && a.scheme == b.scheme && a.network == b.network
        && a.payload.canonical() == b.payload.canonical() {
        assert forall|i: int| 0 <= i < 4 implies p[i] == #[trigger] q[i] by {
            assert(i == 0 || i == 1 || i == 2 || i == 3);
        }
        assert(p =~= q);
    }
    let head = "hash:"@;
    let x = codec::hex_text(codec::sha256(hashed_bytes(a)));
    let y = codec::hex_text(codec::sha256(hashed_bytes(b)));
    assert((head + x).skip(head.len() as int) =~= x);
    assert((head + y).skip(head.len() as int) =~= y);
    codec::hex_text_tells_bytes_apart(
        codec::sha256(hashed_bytes(a)),
        codec::sha256(hashed_bytes(b)),
    );
}

proof fn payload_numbers_are_plain(a: PayloadView)
    requires
        json_text::numbers_are_plain(a.payload),
    ensures
        json_text::numbers_are_plain(a.json()),
{
    let x = a.json()->Object_0;
    text::decimal_digits_are_digits(a.x402_version as nat);
    assert forall|i: int| 0 <= i < x.len() implies json_text::numbers_are_plain(
        (#[trigger] x[i]).1,
    ) by {
        assert(i == 0 || i == 1 || i == 2 || i == 3);
    }
}

proof fn payload_key_names_differ()
    ensures
        "x402Version"@ != "scheme"@,
        "x402Version"@ != "network"@,
        "x402Version"@ != "payload"@,
        "scheme"@ != "network"@,
        "scheme"@ != "payload"@,
        "network"@ != "payload"@,
{
    reveal_strlit("x402Version");
    reveal_strlit("scheme");
    reveal_strlit("network");
    reveal_strlit("payload");
    assert("x402Version"@.len() == 11 && "scheme"@.len() == 6 && "network"@.len() == 7
        && "payload"@.len() == 7);
    assert("network"@[0] != "payload"@[0]);
}

proof fn payload_keys_are_distinct(a: PayloadView)
    requires
        a.payload.well_formed(),
    ensures
        a.json().well_formed(),
{
    payload_key_names_differ();
    let x = a.json()->Object_0;
    assert forall|i: int, j: int| 0 <= i < j < x.len() implies #[trigger] x[i].0
        != #[trigger] x[j].0 by {
        assert(x[0].0 == "x402Version"@ && x[1].0 == "scheme"@ && x[2].0 == "network"@ && x[3].0
            == "payload"@);
    }
    assert forall|i: int| 0 <= i < x.len() implies (#[trigger] x[i]).1.well_formed() by {
        assert(x[0].1 is Number && x[1].1 is Str && x[2].1 is Str && x[3].1 == a.payload);
    }
}

/// The whole nonce counts. The nonce of a payment is the string or the number written
/// under `authorization.nonce`, every character of it; where there is none, the one
/// under `nonce`; and an empty one, or any other value, is none.
pub proof fn the_whole_nonce_counts(inner: Json, n: Seq<char>, r: Option<String>)
    requires
        call_ensures(extract_nonce, (&inner,), r),
    ensures
        ({
            let hoisted = inner@.get("nonce"@);
            let inside = match inner@.get("authorization"@) {
                Some(auth) => auth.get("nonce"@),
                None => None,
            };
            &&& n.len() > 0 && (inside == Some(JsonView::Str(n)) || inside == Some(
                JsonView::Number(n),
            )) ==> (r matches Some(found) && found@ == n)
            &&& inside matches Some(v) ==> (v is Null || v is Bool || v is Array || v is Object
                ==> r is None)
            &&& inside matches Some(JsonView::Str(s)) ==> (s.len() == 0 ==> r is None)
            &&& inside is None && n.len() > 0 && (hoisted == Some(JsonView::Str(n)) || hoisted
                == Some(JsonView::Number(n))) ==> (r matches Some(found) && found@ == n)
            &&& inside is None && hoisted is None ==> r is None
        }),
{
}

/// Whether `n` is the text under `authorization.nonce`.
pub open spec fn authorized_nonce(inner: JsonView, n: Seq<char>) -> bool {
    exists|auth: JsonView|
        inner.get("authorization"@) == Some(auth) && #[trigger] auth.get("nonce"@) == Some(
            JsonView::Str(n),
        )
}

/// Two exact payments on one network with different nonces in their authorizations are
/// two payments: they have different keys. With the same nonce they are one payment,
/// whatever else they hold.
pub proof fn payments_are_told_apart_by_their_nonces(
    a: PaymentPayload,
    b: PaymentPayload,
    m: Seq<char>,
    n: Seq<char>,
    key_a: String,
    key_b: String,
)
    requires
        call_ensures(idempotency_key, (&a,), key_a),
        call_ensures(idempotency_key, (&b,), key_b),
        a.scheme@ == "exact"@,
        b.scheme@ == "exact"@,
        a.network@ == b.network@,
        authorized_nonce(a.payload@, m),
        authorized_nonce(b.payload@, n),
        m.len() > 0,
        n.len() > 0,
    ensures
        key_a@ == key_b@ <==> m == n,
{
    assert(EXACT_SCHEME@ == "exact"@);
    assert(nonce_of(a@.payload) == Some(m));
    assert(nonce_of(b@.payload) == Some(n));
    a_nonce_is_a_key(a@, b@);
}

/// The key of an exact payment shows its network and its nonce, where both are printable:
/// `exact`, the network and the nonce, with colons between them.
pub proof fn a_printable_nonce_shows_in_the_key(payload: PaymentPayload, n: Seq<char>, key: String)
    requires
        call_ensures(idempotency_key, (&payload,), key),
        payload.scheme@ == "exact"@,
        authorized_nonce(payload.payload@, n),
        n.len() > 0,
        forall|i: int| 0 <= i < n.len() ==> ' ' <= #[trigger] n[i] <= '~',
        forall|i: int|
            0 <= i < payload.network@.len() ==> ' ' <= #[trigger] payload.network@[i] <= '~',
    ensures
        key@ == "exact:"@ + payload.network@ + ":"@ + n,
{
    assert(EXACT_SCHEME@ == "exact"@);
    assert(nonce_of(payload@.payload) == Some(n));
}

/// Every key is text that a database can hold as it is: printable ASCII.
pub proof fn keys_are_plain_text(payload: PaymentPayload, key: String)
    requires
        call_ensures(idempotency_key, (&payload,), key),
    ensures
        forall|i: int| 0 <= i < key@.len() ==> 0x20 <= (#[trigger] key@[i]) as u32 <= 0x7e,
{
}

/// A payment that is not exact is known by its whole content: equal contents have equal
/// keys, in whatever order their keys are listed, and keys agree only where the digests
/// of the contents do. So is an exact payment without a nonce.
pub proof fn other_payments_are_known_by_their_content(
    a: PaymentPayload,
    b: PaymentPayload,
    key_a: String,
    key_b: String,
)
    requires
        call_ensures(idempotency_key, (&a,), key_a),
        call_ensures(idempotency_key, (&b,), key_b),
        a.scheme@ != "exact"@,
        b.scheme@ != "exact"@,
        a.payload@.well_formed(),
        b.payload@.well_formed(),
        json_text::numbers_are_plain(a.payload@),
        json_text::numbers_are_plain(b.payload@),
    ensures
        a.x402_version == b.x402_version && a.scheme@ == b.scheme@ && a.network@ == b.network@
            && a.payload@.same_but_for_order(b.payload@) ==> key_a@ == key_b@,
        key_a@ == key_b@ && !(a.x402_version == b.x402_version && a.scheme@ == b.scheme@
            && a.network@ == b.network@ && a.payload@.same_but_for_order(b.payload@))
            ==> hashed_bytes(a@) != hashed_bytes(b@) && codec::sha256(hashed_bytes(a@))
            == codec::sha256(hashed_bytes(b@)),
{
    assert(EXACT_SCHEME@ == "exact"@);
    different_payments_hash_different_bytes(a@, b@);
    json::one_canonical_form_means_one_value(a.payload@, b.payload@);
}

/// An exact payment without a nonce, or with an empty one, is known by its content too,
/// and a key made of a nonce is never one made of a content.
pub proof fn without_a_nonce_the_content_counts(payload: PaymentPayload, key: String)
    requires
        call_ensures(idempotency_key, (&payload,), key),
        payload.scheme@ != "exact"@ || nonce_value(payload.payload@) is None || nonce_value(
            payload.payload@,
        ) == Some(JsonView::Str(seq![])),
    ensures
        key@ == "hash:"@ + codec::hex_text(codec::sha256(hashed_bytes(payload@))),
{
    assert(EXACT_SCHEME@ == "exact"@);
}

/// The digest of a payload is the hash of its canonical JSON, so that payloads with the
/// same content have the same digest.
pub proof fn one_content_has_one_digest(
    a: PaymentPayload,
    b: PaymentPayload,
    hash_a: String,
    hash_b: String,
)
    requires
        call_ensures(canonical_payload_hash, (&a,), hash_a),
        call_ensures(canonical_payload_hash, (&b,), hash_b),
        a.x402_version == b.x402_version,
        a.scheme@ == b.scheme@,
        a.network@ == b.network@,
        a.payload@.well_formed(),
        b.payload@.well_formed(),
        a.payload@.same_but_for_order(b.payload@),
        json_text::numbers_are_plain(a.payload@),
        json_text::numbers_are_plain(b.payload@),
    ensures
        hash_a@ == hash_b@,
        hash_a@ == codec::hex_text(codec::sha256(hashed_bytes(a@))),
{
    different_payments_hash_different_bytes(a@, b@);
    json::one_canonical_form_means_one_value(a.payload@, b.payload@);
}

/// A record stands for the payer and the transaction it was written with.
pub proof fn a_record_stands_for_its_settlement(record: PaymentRecord, r: Settlement)
    requires
        call_ensures(PaymentRecord::settlement, (&record,), r),
    ensures
        r.payer == record.payer,
        r.transaction == record.transaction,
{
}

/// The same nonce on different networks makes different payments.
pub proof fn payments_are_told_apart_by_their_networks(
    a: PaymentPayload,
    b: PaymentPayload,
    n: Seq<char>,
    key_a: String,
    key_b: String,
)
    requires
        call_ensures(idempotency_key, (&a,), key_a),
        call_ensures(idempotency_key, (&b,), key_b),
        a.scheme@ == "exact"@,
        b.scheme@ == "exact"@,
        authorized_nonce(a.payload@, n),
        authorized_nonce(b.payload@, n),
        n.len() > 0,
    ensures
        key_a@ == key_b@ <==> a.network@ == b.network@,
{
    assert(EXACT_SCHEME@ == "exact"@);
    assert(nonce_of(a@.payload) == Some(n));
    assert(nonce_of(b@.payload) == Some(n));
    let x = a.network@;
    let y = b.network@;
    reveal_strlit("exact:");
    reveal_strlit("exact-hex:");
    reveal_strlit(":");
    let tail = ":"@ + n;
    assert(("exact:"@ + x + ":"@ + n).subrange(6, 6 + x.len() as int) =~= x);
    assert(("exact:"@ + y + ":"@ + n).subrange(6, 6 + y.len() as int) =~= y);
    let bx = vstd::utf8::encode_utf8(x);
    let by = vstd::utf8::encode_utf8(y);
    let hn = codec::hex_text(vstd::utf8::encode_utf8(n));
    let hx = codec::hex_text(bx);
    let hy = codec::hex_text(by);
    assert(("exact-hex:"@ + hx + ":"@ + hn).subrange(10, 10 + hx.len() as int) =~= hx);
    assert(("exact-hex:"@ + hy + ":"@ + hn).subrange(10, 10 + hy.len() as int) =~= hy);
    codec::hex_text_tells_bytes_apart(bx, by);
    vstd::utf8::encode_utf8_decode_utf8(x);
    vstd::utf8::encode_utf8_decode_utf8(y);
    assert(("exact:"@ + x + ":"@ + n)[5] == ':' && ("exact:"@ + y + ":"@ + n)[5] == ':');
    assert(("exact-hex:"@ + hx + ":"@ + hn)[5] == '-');
    assert(("exact-hex:"@ + hy + ":"@ + hn)[5] == '-');
    assert(("exact:"@ + x + ":"@ + n).len() == 7 + x.len() + n.len());
    assert(("exact:"@ + y + ":"@ + n).len() == 7 + y.len() + n.len());
    assert(("exact-hex:"@ + hx + ":"@ + hn).len() == 11 + hx.len() + hn.len());
    assert(("exact-hex:"@ + hy + ":"@ + hn).len() == 11 + hy.len() + hn.len());
}

/// What is hashed of a payment is a JSON text of it: of the same value, but with the keys
/// of every object in ascending order.
pub proof fn what_is_hashed_is_the_payment_in_order(payload: PayloadView)
    requires
        payload.payload.well_formed(),
    ensures
        exists|v: JsonView|
            {
                &&& payload.json().same_but_for_order(v)
                &&& json::ascending_throughout(v)
                &&& hashed_bytes(payload) == vstd::utf8::encode_utf8(#[trigger] v.text())
            },
{
    payload_keys_are_distinct(payload);
    json::canonical_form_is_the_value_in_order(payload.json());
    assert(hashed_bytes(payload) == vstd::utf8::encode_utf8(payload.json().canonical().text()));
}

} // verus!

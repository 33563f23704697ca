//! Encodings of payment data: Base64, SHA-256 and hexadecimal.

use base64::Engine;
use sha2::Digest;
use vstd::prelude::*;

use crate::text;

verus! {

/// The Base64 text of bytes, in the standard alphabet with padding.
pub uninterp spec fn base64_encoded(bytes: Seq<u8>) -> Seq<char>;

/// What decoding a standard Base64 text with padding gives: its bytes, or the
/// text of the error.
pub uninterp spec fn base64_decoded(s: Seq<char>) -> Result<Seq<u8>, Seq<char>>;

/// Whether a character stands in Base64 texts: a letter, a digit or one of `+`,
/// `/` and `=`.
pub open spec fn base64_char(c: char) -> bool {
    'A' <= c <= 'Z' || 'a' <= c <= 'z' || '0' <= c <= '9' || c == '+' || c == '/' || c == '='
}

/// Calls `base64::engine::general_purpose::STANDARD.encode`. The text is a
/// function of the bytes, named by `base64_encoded`; decoding it gives the bytes
/// back, and it is made of the standard alphabet and the padding.
#[verifier::external_body]
pub(crate) fn encode_base64(bytes: &[u8]) -> (r: String)
    ensures
        r@ == base64_encoded(bytes@),
        base64_decoded(r@) is Ok && base64_decoded(r@)->Ok_0 == bytes@,
        forall|i: int| 0 <= i < r@.len() ==> base64_char(#[trigger] r@[i]),
{
    base64::engine::general_purpose::STANDARD.encode(bytes)
}

/// Calls `base64::engine::general_purpose::STANDARD.decode` and renders its error
/// with `Display`. Both are functions of the text, named by `base64_decoded`. A
/// text with a character outside the standard alphabet and the padding is refused.
#[verifier::external_body]
pub(crate) fn decode_base64(s: &str) -> (r: Result<Vec<u8>, String>)
    ensures
        match r {
            Ok(bytes) => base64_decoded(s@) is Ok && base64_decoded(s@)->Ok_0 == bytes@,
            Err(e) => base64_decoded(s@) is Err && base64_decoded(s@)->Err_0 == e@,
        },
        r is Ok ==> forall|i: int| 0 <= i < s@.len() ==> base64_char(#[trigger] s@[i]),
{
    base64::engine::general_purpose::STANDARD.decode(s).map_err(|e| e.to_string())
}

/// The SHA-256 digest of bytes.
pub uninterp spec fn sha256(bytes: Seq<u8>) -> Seq<u8>;

/// Calls `sha2::Sha256::digest`, whose 32 bytes are a function of the input,
/// named by `sha256`.
#[verifier::external_body]
pub(crate) fn digest_sha256(bytes: &[u8]) -> (r: Vec<u8>)
    ensures
        r@ == sha256(bytes@),
        r@.len() == 32,
{
    sha2::Sha256::digest(bytes).to_vec()
}

/// The lowercase hexadecimal text of bytes, two digits each.
pub open spec fn hex_text(bytes: Seq<u8>) -> Seq<char>
    decreases bytes.len(),
{
    if bytes.len() == 0 {
        seq![]
    } else {
        hex_text(bytes.drop_last()).push(text::hex_digit(bytes.last() as int / 16)).push(
            text::hex_digit(bytes.last() as int % 16),
        )
    }
}

/// Writes bytes as lowercase hexadecimal text.
pub fn hex_encode(bytes: &[u8]) -> (r: String)
    ensures
        r@ == hex_text(bytes@),
{
    let mut out = String::new();
    let mut i: usize = 0;
    assert(bytes@.take(0) =~= Seq::<u8>::empty());
    while i < bytes.len()
        invariant
            i <= bytes@.len(),
            out@ == hex_text(bytes@.take(i as int)),
        decreases bytes@.len() - i,
    {
        let b: u8 = bytes[i];
        assert(bytes@.take(i + 1).drop_last() =~= bytes@.take(i as int));
        out.push(text::hex_char(b / 16));
        out.push(text::hex_char(b % 16));
        i = i + 1;
    }
    assert(bytes@.take(bytes@.len() as int) =~= bytes@);
    out
}

/// Different bytes have different texts.
pub proof fn hex_text_tells_bytes_apart(a: Seq<u8>, b: Seq<u8>)
    ensures
        hex_text(a).len() == 2 * a.len(),
        hex_text(a) == hex_text(b) ==> a == b,
    decreases a.len(),
{
    if a.len() > 0 {
        hex_text_tells_bytes_apart(a.drop_last(), b.drop_last());
    }
    if b.len() > 0 {
        hex_length(b.drop_last());
    }
    if hex_text(a) == hex_text(b) {
        if a.len() == 0 {
            assert(b.len() == 0) by {
                hex_length(b);
            }
            assert(a =~= b);
        } else {
            hex_length(b);
            hex_length(a);
            let x = hex_text(a);
            let y = hex_text(b);
            let n = x.len();
            assert(x[n - 2] == y[n - 2] && x[n - 1] == y[n - 1]);
            text::hex_digit_injective(a.last() as int / 16, b.last() as int / 16);
            text::hex_digit_injective(a.last() as int % 16, b.last() as int % 16);
            assert(a.last() == b.last());
            assert(hex_text(a.drop_last()) =~= x.subrange(0, n - 2));
            assert(hex_text(b.drop_last()) =~= y.subrange(0, n - 2));
            assert(a =~= a.drop_last().push(a.last()));
            assert(b =~= b.drop_last().push(b.last()));
        }
    }
}

proof fn hex_length(a: Seq<u8>)
    ensures
        hex_text(a).len() == 2 * a.len(),
    decreases a.len(),
{
    if a.len() > 0 {
        hex_length(a.drop_last());
    }
}

/// The value of a hexadecimal digit.
pub open spec fn digit_value(c: char) -> int {
    if '0' <= c <= '9' {
        c as int - '0' as int
    } else {
        c as int - 'a' as int + 10
    }
}

/// Each byte is written with two lowercase hexadecimal digits, in order, that stand for
/// it.
pub proof fn every_byte_is_two_digits(bytes: &[u8], r: String, i: int)
    requires
        call_ensures(hex_encode, (bytes,), r),
    ensures
        r@.len() == 2 * bytes@.len(),
        0 <= i < bytes@.len() ==> {
            &&& bytes@[i] == 16 * digit_value(r@[2 * i]) + digit_value(r@[2 * i + 1])
            &&& '0' <= r@[2 * i] <= '9' || 'a' <= r@[2 * i] <= 'f'
            &&& '0' <= r@[2 * i + 1] <= '9' || 'a' <= r@[2 * i + 1] <= 'f'
        },
{
    digits_of(bytes@, i);
}

proof fn digits_of(bytes: Seq<u8>, i: int)
    ensures
        hex_text(bytes).len() == 2 * bytes.len(),
        0 <= i < bytes.len() ==> hex_text(bytes)[2 * i] == text::hex_digit(bytes[i] as int / 16)
            && hex_text(bytes)[2 * i + 1] == text::hex_digit(bytes[i] as int % 16),
    decreases bytes.len(),
{
    if bytes.len() > 0 {
        digits_of(bytes.drop_last(), i);
    }
}

} // verus!

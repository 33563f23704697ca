//! Failures of the payment flow.

use vstd::prelude::*;

use crate::text;

verus! {

/// Why a payment was not accepted.
#[derive(Debug, PartialEq, Eq)]
pub enum PaymentError {
    /// The request carries no payment.
    MissingPayment,
    /// The payment header could not be decoded.
    MalformedPayment(String),
    /// The payment uses another scheme than required.
    SchemeMismatch { got: String, expected: String },
    /// The payment was made on another network than required.
    NetworkMismatch { got: String, expected: String },
    /// The payment was made in another asset than required.
    AssetMismatch { got: String, expected: String },
    /// The payment was rejected.
    VerificationFailed(String),
    /// The facilitator could not be reached or gave no usable answer.
    Facilitator(String),
}

/// The text of a mismatch.
pub open spec fn mismatch_text(what: Seq<char>, got: Seq<char>, expected: Seq<char>) -> Seq<char> {
    "payment "@ + what + " mismatch: got `"@ + got + "`, expected `"@ + expected + "`"@
}

fn mismatch(what: &str, got: &str, expected: &str) -> (r: String)
    ensures
        r@ == mismatch_text(what@, got@, expected@),
{
    "payment ".to_owned().concat(what).concat(" mismatch: got `").concat(got).concat(
        "`, expected `",
    ).concat(expected).concat("`")
}

impl PaymentError {
    /// The text shown for the error.
    pub open spec fn message(self) -> Seq<char> {
        match self {
            PaymentError::MissingPayment => "missing X-PAYMENT header"@,
            PaymentError::MalformedPayment(s) => "malformed X-PAYMENT header: "@ + s@,
            PaymentError::SchemeMismatch { got, expected } => mismatch_text(
                "scheme"@,
                got@,
                expected@,
            ),
            PaymentError::NetworkMismatch { got, expected } => mismatch_text(
                "network"@,
                got@,
                expected@,
            ),
            PaymentError::AssetMismatch { got, expected } => mismatch_text(
                "asset"@,
                got@,
                expected@,
            ),
            PaymentError::VerificationFailed(s) => "payment verification failed: "@ + s@,
            PaymentError::Facilitator(s) => "facilitator error: "@ + s@,
        }
    }

    /// Renders the error.
    pub fn to_string(&self) -> (r: String)
        ensures
            r@ == self.message(),
    {
        match self {
            PaymentError::MissingPayment => "missing X-PAYMENT header".to_owned(),
            PaymentError::MalformedPayment(s) => text::join2(
                "malformed X-PAYMENT header: ",
                s.as_str(),
            ),
            PaymentError::SchemeMismatch { got, expected } => mismatch(
                "scheme",
                got.as_str(),
                expected.as_str(),
            ),
            PaymentError::NetworkMismatch { got, expected } => mismatch(
                "network",
                got.as_str(),
                expected.as_str(),
            ),
            PaymentError::AssetMismatch { got, expected } => mismatch(
                "asset",
                got.as_str(),
                expected.as_str(),
            ),
            PaymentError::VerificationFailed(s) => text::join2(
                "payment verification failed: ",
                s.as_str(),
            ),
            PaymentError::Facilitator(s) => text::join2("facilitator error: ", s.as_str()),
        }
    }
}

/// A payment error with a cause tells the whole of it.
pub proof fn payment_errors_tell_their_cause(e: PaymentError, shown: String)
    requires
        call_ensures(PaymentError::to_string, (&e,), shown),
    ensures
        e matches PaymentError::MalformedPayment(s) ==> text::ends_in(shown@, s@),
        e matches PaymentError::VerificationFailed(s) ==> text::ends_in(shown@, s@),
        e matches PaymentError::Facilitator(s) ==> text::ends_in(shown@, s@),
        e matches PaymentError::SchemeMismatch { got, expected } ==> names_both(
            shown@,
            got@,
            expected@,
        ),
        e matches PaymentError::NetworkMismatch { got, expected } ==> names_both(
            shown@,
            got@,
            expected@,
        ),
        e matches PaymentError::AssetMismatch { got, expected } ==> names_both(
            shown@,
            got@,
            expected@,
        ),
{
    reveal_strlit("malformed X-PAYMENT header: ");
    reveal_strlit("payment verification failed: ");
    reveal_strlit("facilitator error: ");
    match e {
        PaymentError::MalformedPayment(s) => {
            text::what_comes_last_ends_the_text("malformed X-PAYMENT header: "@, s@);
        },
        PaymentError::VerificationFailed(s) => {
            text::what_comes_last_ends_the_text("payment verification failed: "@, s@);
        },
        PaymentError::Facilitator(s) => {
            text::what_comes_last_ends_the_text("facilitator error: "@, s@);
        },
        PaymentError::SchemeMismatch { got, expected } => {
            mismatches_name_both("scheme"@, got@, expected@);
        },
        PaymentError::NetworkMismatch { got, expected } => {
            mismatches_name_both("network"@, got@, expected@);
        },
        PaymentError::AssetMismatch { got, expected } => {
            mismatches_name_both("asset"@, got@, expected@);
        },
        _ => {},
    }
}

/// Whether a text names what came and then what was expected, each between backticks.
pub open spec fn names_both(s: Seq<char>, got: Seq<char>, expected: Seq<char>) -> bool {
    exists|start: Seq<char>|
        s == #[trigger] (start + seq!['`']) + got + "`, expected `"@ + expected + seq!['`']
}

proof fn mismatches_name_both(what: Seq<char>, got: Seq<char>, expected: Seq<char>)
    ensures
        names_both(mismatch_text(what, got, expected), got, expected),
{
    reveal_strlit(" mismatch: got `");
    reveal_strlit("`");
    let start = "payment "@ + what + " mismatch: got `"@.drop_last();
    assert(" mismatch: got `"@ =~= " mismatch: got `"@.drop_last() + seq!['`']);
    assert(mismatch_text(what, got, expected) =~= (start + seq!['`']) + got + "`, expected `"@
        + expected + seq!['`']);
}

} // verus!

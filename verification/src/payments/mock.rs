//! The development verifier.

use vstd::prelude::*;

use crate::payments::error::PaymentError;
use crate::payments::types;
use crate::payments::types::{PayloadView, PaymentPayload, PaymentRequirements, Settlement};
use crate::text;
use crate::variant::json::JsonView;

verus! {

/// The payer when the payload names none.
pub const NO_PAYER: &'static str = "0x0000000000000000000000000000000000000000";

/// The string under `key` in a payload, if there is one.
pub open spec fn text_under(payload: JsonView, key: Seq<char>) -> Option<Seq<char>> {
    match payload.get(key) {
        Some(JsonView::Str(s)) => Some(s),
        _ => None,
    }
}

fn read_text(payload: &PaymentPayload, key: &str) -> (r: Option<String>)
    ensures
        types::opt_text(r) == text_under(payload.payload@, key@),
{
    match payload.payload.get(key) {
        Some(v) => match v.as_str() {
            Some(s) => Some(s.to_owned()),
            None => None,
        },
        None => None,
    }
}

/// A verifier for development: it checks no signature, and accepts every payload
/// whose scheme, network and asset are the required ones.
#[derive(Debug, Clone, Copy, PartialEq, Eq)]
pub struct MockVerifier;

impl MockVerifier {
    /// Checks the scheme, then the network, then the asset when the payload names
    /// one, and reports the first that is not the required one. An accepted
    /// payment's payer is the payload's `from`, or the zero address, and its
    /// transaction the payload's `authorization` when that is a string.
    pub fn verify(&self, payload: &PaymentPayload, reqs: &PaymentRequirements) -> (r: Result<
        Settlement,
        PaymentError,
    >)
        ensures
            payload.scheme@ != reqs.scheme@ ==> (r matches Err(
                PaymentError::SchemeMismatch { got, expected },
            ) && got@ == payload.scheme@ && expected@ == reqs.scheme@),
            payload.scheme@ == reqs.scheme@ && payload.network@ != reqs.network@ ==> (r matches Err(
                PaymentError::NetworkMismatch { got, expected },
            ) && got@ == payload.network@ && expected@ == reqs.network@),
            payload.scheme@ == reqs.scheme@ && payload.network@ == reqs.network@ && wrong_asset(
                payload@,
                reqs.asset@,
            ) ==> (r matches Err(PaymentError::AssetMismatch { got, expected }) && Some(got@)
                == text_under(payload.payload@, "asset"@) && expected@ == reqs.asset@),
            payload.scheme@ == reqs.scheme@ && payload.network@ == reqs.network@ && !wrong_asset(
                payload@,
                reqs.asset@,
            ) ==> (r matches Ok(s) && s.payer@ == match text_under(payload.payload@, "from"@) {
                Some(from) => from,
                None => NO_PAYER@,
            } && types::opt_text(s.transaction) == text_under(payload.payload@, "authorization"@)),
    {
        if !text::str_eq(payload.scheme.as_str(), reqs.scheme.as_str()) {
            return Err(
                PaymentError::SchemeMismatch {
                    got: payload.scheme.clone(),
                    expected: reqs.scheme.clone(),
                },
            );
        }
        if !text::str_eq(payload.network.as_str(), reqs.network.as_str()) {
            return Err(
                PaymentError::NetworkMismatch {
                    got: payload.network.clone(),
                    expected: reqs.network.clone(),
                },
            );
        }
        if let Some(got) = read_text(payload, "asset") {
            if !text::str_eq(got.as_str(), reqs.asset.as_str()) {
                return Err(PaymentError::AssetMismatch { got, expected: reqs.asset.clone() });
            }
        }
        let payer = match read_text(payload, "from") {
            Some(from) => from,
            None => NO_PAYER.to_owned(),
        };
        let transaction = read_text(payload, "authorization");
        Ok(Settlement { payer, transaction })
    }
}

/// Whether the payload names another asset.
pub open spec fn wrong_asset(payload: PayloadView, asset: Seq<char>) -> bool {
    match text_under(payload.payload, "asset"@) {
        Some(got) => got != asset,
        None => false,
    }
}

/// What the development verifier accepts: a payment of the required scheme on the
/// required network, and in the required asset when it names one as a string. It asks
/// for nothing else, and reports the first of these that is wrong.
pub proof fn the_required_payment_is_accepted(
    verifier: MockVerifier,
    payload: PaymentPayload,
    reqs: PaymentRequirements,
    r: Result<Settlement, PaymentError>,
)
    requires
        call_ensures(MockVerifier::verify, (&verifier, &payload, &reqs), r),
    ensures
        ({
            let scheme = payload.scheme@ == reqs.scheme@;
            let network = payload.network@ == reqs.network@;
            let asset = match payload.payload@.get("asset"@) {
                Some(JsonView::Str(named)) => named == reqs.asset@,
                _ => true,
            };
            &&& r is Ok <==> scheme && network && asset
            &&& !scheme ==> (r matches Err(PaymentError::SchemeMismatch { got, expected }) && got@
                == payload.scheme@ && expected@ == reqs.scheme@)
            &&& scheme && !network ==> (r matches Err(
                PaymentError::NetworkMismatch { got, expected },
            ) && got@ == payload.network@ && expected@ == reqs.network@)
            &&& scheme && network && !asset ==> (r matches Err(
                PaymentError::AssetMismatch { got, expected },
            ) && Some(JsonView::Str(got@)) == payload.payload@.get("asset"@) && expected@
                == reqs.asset@)
        }),
{
}

/// Who is taken to have paid: whoever the payment says it is from, and the zero address
/// where it does not say; the authorization, where it is a string, is the transaction.
pub proof fn the_named_payer_paid(
    verifier: MockVerifier,
    payload: PaymentPayload,
    reqs: PaymentRequirements,
    settlement: Settlement,
    n: Seq<char>,
)
    requires
        call_ensures(MockVerifier::verify, (&verifier, &payload, &reqs), Ok(settlement)),
    ensures
        payload.payload@.get("from"@) == Some(JsonView::Str(n)) ==> settlement.payer@ == n,
        !(payload.payload@.get("from"@) matches Some(JsonView::Str(_))) ==> settlement.payer@
            == "0x0000000000000000000000000000000000000000"@,
        payload.payload@.get("authorization"@) == Some(JsonView::Str(n)) ==> (
        settlement.transaction matches Some(t) && t@ == n),
        !(payload.payload@.get("authorization"@) matches Some(JsonView::Str(_)))
            ==> settlement.transaction is None,
{
}

} // verus!

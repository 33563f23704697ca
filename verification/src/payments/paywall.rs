//! The decisions of the paywall in front of a paid resource.
//!
//! A request is served when its payment is found to be settled. The paywall looks
//! the payment up under its key before anything else, so that a payment sent
//! again is served from its record and never charged twice. Whoever runs the
//! paywall asks the store and the verifier, and hands their answers back:
//!
//! 1. [`Paywall::open_charge`] refuses the request or names the charge;
//! 2. [`Paywall::after_lookup`] serves a recorded payment, or asks for
//!    verification;
//! 3. [`Paywall::after_verify`] gives the record of a settled payment;
//! 4. [`Paywall::after_record`] serves a recorded payment, or asks to look it
//!    up again when another request recorded it first;
//! 5. [`Paywall::after_conflict`] serves that payment.

use vstd::prelude::*;

use crate::payments::error::PaymentError;
use crate::payments::store;
use crate::payments::store::{PaymentRecord, PaymentStoreError};
use crate::payments::types;
use crate::payments::types::{
    PayloadView,
    PaymentPayload,
    PaymentRequiredResponse,
    PaymentRequirements,
    RefusalView,
    RequirementsView,
    Settlement,
    SettlementResponse,
    X402_VERSION,
};
use crate::text;
use crate::time::Timestamp;

verus! {

/// The header that carries a payment.
pub const X_PAYMENT: &'static str = "x-payment";

/// The header that carries the receipt.
pub const X_PAYMENT_RESPONSE: &'static str = "x-payment-response";

/// Whether terms are for the scheme and the network of a payment.
pub open spec fn fits(terms: RequirementsView, payload: PayloadView) -> bool {
    terms.scheme == payload.scheme && terms.network == payload.network
}

/// The first terms that fit a payment.
pub open spec fn first_fit(terms: Seq<RequirementsView>, payload: PayloadView) -> Option<
    RequirementsView,
>
    decreases terms.len(),
{
    if terms.len() == 0 {
        None
    } else if fits(terms[0], payload) {
        Some(terms[0])
    } else {
        first_fit(terms.drop_first(), payload)
    }
}

/// The refusal of a request: all terms are offered.
pub open spec fn refusal(terms: Seq<RequirementsView>, error: Option<Seq<char>>) -> RefusalView {
    RefusalView { x402_version: X402_VERSION, accepts: terms, error }
}

/// The reason for refusing a payment that no terms fit.
pub open spec fn no_fit_text(payload: PayloadView) -> Seq<char> {
    "no requirement matches scheme="@ + payload.scheme + " network="@ + payload.network
}

/// What is decided about a charge.
pub enum Verdict {
    /// Serve the request with this settlement.
    Serve(Settlement),
    /// Verify and settle the payment.
    Verify,
    /// Look the payment up again.
    LookAgain,
    /// Refuse the request for this reason.
    Refuse(Seq<char>),
}

/// What is decided once the store was asked for the payment.
pub open spec fn on_lookup(found: Result<Option<PaymentRecord>, PaymentStoreError>) -> Verdict {
    match found {
        Ok(Some(record)) => Verdict::Serve(record.settled()),
        Ok(None) => Verdict::Verify,
        Err(_) => Verdict::Refuse("payment store unavailable"@),
    }
}

/// What is decided once the store was asked to record the settled payment.
pub open spec fn on_record(
    settlement: Settlement,
    recorded: Result<(), PaymentStoreError>,
) -> Verdict {
    match recorded {
        Ok(_) => Verdict::Serve(settlement),
        Err(PaymentStoreError::Conflict) => Verdict::LookAgain,
        Err(_) => Verdict::Refuse("payment store unavailable"@),
    }
}

/// The settlement served once a payment that was recorded by another request was
/// looked up: the recorded one, or else the own.
pub open spec fn on_conflict(
    settlement: Settlement,
    found: Result<Option<PaymentRecord>, PaymentStoreError>,
) -> Settlement {
    match found {
        Ok(Some(record)) => record.settled(),
        _ => settlement,
    }
}

/// A charge: a payment, the terms it is made on, and its key.
#[derive(Debug, PartialEq, Eq)]
pub struct Charge {
    payload: PaymentPayload,
    terms: PaymentRequirements,
    key: String,
}

impl Charge {
    /// The payment.
    pub closed spec fn payment(self) -> PayloadView {
        self.payload@
    }

    /// The terms it is made on.
    pub closed spec fn agreed(self) -> RequirementsView {
        self.terms@
    }

    #[verifier::type_invariant]
    spec fn keyed_and_fitting(self) -> bool {
        self.key@ == store::key_of(self.payload@) && fits(self.terms@, self.payload@)
    }

    /// The payment, to be verified.
    #[must_use]
    pub fn payload(&self) -> (r: &PaymentPayload)
        ensures
            r@ == self.payment(),
    {
        &self.payload
    }

    /// The terms the payment is made on; they fit it.
    #[must_use]
    pub fn terms(&self) -> (r: &PaymentRequirements)
        ensures
            r@ == self.agreed(),
            fits(r@, self.payment()),
    {
        proof {
            use_type_invariant(self);
        }
        &self.terms
    }

    /// The key under which the payment is looked up and recorded.
    #[must_use]
    pub fn key(&self) -> (r: &str)
        ensures
            r@ == store::key_of(self.payment()),
    {
        proof {
            use_type_invariant(self);
        }
        self.key.as_str()
    }
}

/// Leave to serve a request: the settlement it is served on, and the receipt that
/// goes with the response.
#[derive(Debug, PartialEq, Eq)]
pub struct Grant {
    /// The settlement of the payment.
    pub settlement: Settlement,
    /// The receipt for the payer.
    pub receipt: SettlementResponse,
}

impl Grant {
    /// Whether the grant is for this settlement on this network.
    pub open spec fn is_for(self, settlement: Settlement, network: Seq<char>) -> bool {
        &&& self.settlement == settlement
        &&& self.receipt.success
        &&& self.receipt.transaction == settlement.transaction
        &&& self.receipt.network@ == network
        &&& self.receipt.payer == Some(settlement.payer)
    }

    fn new(settlement: Settlement, network: &str) -> (r: Self)
        ensures
            r.is_for(settlement, network@),
    {
        let copy = settlement.clone();
        Grant {
            settlement,
            receipt: SettlementResponse {
                success: true,
                transaction: copy.transaction,
                network: network.to_owned(),
                payer: Some(copy.payer),
            },
        }
    }
}

/// What to do after the payment was looked up.
#[derive(Debug, PartialEq, Eq)]
pub enum Lookup {
    /// The payment was settled before: serve the request.
    Replay(Grant),
    /// Verify and settle the payment.
    Verify,
    /// Refuse the request.
    Refuse(PaymentRequiredResponse),
}

/// What to do after the payment was recorded.
#[derive(Debug, PartialEq, Eq)]
pub enum Recorded {
    /// Serve the request.
    Granted(Grant),
    /// Another request recorded the payment first: look it up again.
    LookAgain(Settlement),
    /// Refuse the request.
    Refuse(PaymentRequiredResponse),
}

/// The paywall in front of a paid resource.
#[derive(Debug, PartialEq, Eq)]
pub struct Paywall {
    requirements: Vec<PaymentRequirements>,
}

impl Paywall {
    /// The terms on which the resource can be had.
    pub closed spec fn view(self) -> Seq<RequirementsView> {
        types::terms_view(self.requirements@)
    }

    /// Builds a paywall from the terms on which the resource can be had.
    #[must_use]
    pub fn new(requirements: Vec<PaymentRequirements>) -> (r: Self)
        ensures
            r@ == types::terms_view(requirements@),
    {
        Paywall { requirements }
    }

    /// The body of a refusal: all terms, and the reason when there is one.
    pub fn payment_required(&self, error: Option<String>) -> (r: PaymentRequiredResponse)
        ensures
            r@ == refusal(self@, types::opt_text(error)),
    {
        PaymentRequiredResponse {
            x402_version: X402_VERSION,
            accepts: types::clone_terms(&self.requirements),
            error,
        }
    }

    fn matching(&self, payload: &PaymentPayload) -> (r: Option<PaymentRequirements>)
        ensures
            match r {
                Some(t) => first_fit(self@, payload@) == Some(t@),
                None => first_fit(self@, payload@) is None,
            },
    {
        let ghost all: Seq<RequirementsView> = self@;
        let mut i: usize = 0;
        assert(all.skip(0) =~= all);
        while i < self.requirements.len()
            invariant
                i <= self.requirements@.len(),
                all == types::terms_view(self.requirements@),
                first_fit(all, payload@) == first_fit(all.skip(i as int), payload@),
            decreases self.requirements@.len() - i,
        {
            let terms = &self.requirements[i];
            assert(all.skip(i as int)[0] == terms@);
            if text::str_eq(terms.scheme.as_str(), payload.scheme.as_str()) && text::str_eq(
                terms.network.as_str(),
                payload.network.as_str(),
            ) {
                return Some(terms.clone());
            }
            assert(all.skip(i as int).drop_first() =~= all.skip(i + 1));
            i = i + 1;
        }
        None
    }

    /// Admits a request with the payment that was read from its header: refuses it
    /// when there is none, when it could not be read, or when no terms fit it, and
    /// otherwise charges it on the first terms that do.
    pub fn open_charge(&self, payment: Option<Result<PaymentPayload, PaymentError>>) -> (r: Result<
        Charge,
        PaymentRequiredResponse,
    >)
        ensures
            match payment {
                None => r is Err && r->Err_0@ == refusal(self@, None),
                Some(Err(e)) => r is Err && r->Err_0@ == refusal(self@, Some(e.message())),
                Some(Ok(p)) => match first_fit(self@, p@) {
                    None => r is Err && r->Err_0@ == refusal(self@, Some(no_fit_text(p@))),
                    Some(terms) => r is Ok && r->Ok_0.payment() == p@ && r->Ok_0.agreed() == terms,
                },
            },
    {
        let payload = match payment {
            None => {
                return Err(self.payment_required(None));
            },
            Some(Err(e)) => {
                return Err(self.payment_required(Some(e.to_string())));
            },
            Some(Ok(p)) => p,
        };
        match self.matching(&payload) {
            None => {
                let reason = "no requirement matches scheme=".to_owned().concat(
                    payload.scheme.as_str(),
                ).concat(" network=").concat(payload.network.as_str());
                Err(self.payment_required(Some(reason)))
            },
            Some(terms) => {
                let key = store::idempotency_key(&payload);
                proof {
                    the_first_fit_fits(self@, payload@);
                }
                Ok(Charge { payload, terms, key })
            },
        }
    }

    /// Decides once the store was asked for the charge's key.
    pub fn after_lookup(
        &self,
        charge: &Charge,
        found: Result<Option<PaymentRecord>, PaymentStoreError>,
    ) -> (r: Lookup)
        ensures
            match on_lookup(found) {
                Verdict::Serve(s) => r matches Lookup::Replay(g) && g.is_for(
                    s,
                    charge.agreed().network,
                ),
                Verdict::Refuse(reason) => r matches Lookup::Refuse(body) && body@ == refusal(
                    self@,
                    Some(reason),
                ),
                _ => r == Lookup::Verify,
            },
    {
        match found {
            Ok(Some(record)) => Lookup::Replay(
                Grant::new(record.settlement(), charge.terms.network.as_str()),
            ),
            Ok(None) => Lookup::Verify,
            Err(_) => Lookup::Refuse(
                self.payment_required(Some("payment store unavailable".to_owned())),
            ),
        }
    }

    /// Decides once the verifier was asked to settle the charge: the record to
    /// write for a settled payment, or the refusal of a rejected one.
    pub fn after_verify(
        &self,
        charge: &Charge,
        verified: Result<Settlement, PaymentError>,
        now: Timestamp,
    ) -> (r: Result<(PaymentRecord, Settlement), PaymentRequiredResponse>)
        ensures
            match verified {
                Err(e) => r is Err && r->Err_0@ == refusal(self@, Some(e.message())),
                Ok(s) => r matches Ok((record, settlement)) && {
                    &&& settlement == s
                    &&& record.settled() == s
                    &&& record.idempotency_key@ == store::key_of(charge.payment())
                    &&& record.amount@ == charge.agreed().max_amount_required
                    &&& record.asset@ == charge.agreed().asset
                    &&& record.network@ == charge.agreed().network
                    &&& record.resource@ == charge.agreed().resource
                    &&& record.created_at == now
                },
            },
    {
        match verified {
            Err(e) => Err(self.payment_required(Some(e.to_string()))),
            Ok(settlement) => {
                let copy = settlement.clone();
                let record = PaymentRecord {
                    idempotency_key: charge.key().to_owned(),
                    payer: copy.payer,
                    amount: charge.terms.max_amount_required.clone(),
                    asset: charge.terms.asset.clone(),
                    network: charge.terms.network.clone(),
                    transaction: copy.transaction,
                    resource: charge.terms.resource.clone(),
                    created_at: now,
                };
                Ok((record, settlement))
            },
        }
    }

    /// Decides once the store was asked to record the settled charge.
    pub fn after_record(
        &self,
        charge: &Charge,
        settlement: Settlement,
        recorded: Result<(), PaymentStoreError>,
    ) -> (r: Recorded)
        ensures
            match on_record(settlement, recorded) {
                Verdict::Serve(s) => r matches Recorded::Granted(g) && g.is_for(
                    s,
                    charge.agreed().network,
                ),
                Verdict::Refuse(reason) => r matches Recorded::Refuse(body) && body@ == refusal(
                    self@,
                    Some(reason),
                ),
                _ => r == Recorded::LookAgain(settlement),
            },
    {
        match recorded {
            Ok(_) => Recorded::Granted(Grant::new(settlement, charge.terms.network.as_str())),
            Err(PaymentStoreError::Conflict) => Recorded::LookAgain(settlement),
            Err(PaymentStoreError::Backend(_)) => Recorded::Refuse(
                self.payment_required(Some("payment store unavailable".to_owned())),
            ),
        }
    }

    /// Decides once a charge that another request recorded first was looked up
    /// again: that record is served, or the own settlement when it cannot be had.
    pub fn after_conflict(
        &self,
        charge: &Charge,
        settlement: Settlement,
        found: Result<Option<PaymentRecord>, PaymentStoreError>,
    ) -> (r: Grant)
        ensures
            r.is_for(on_conflict(settlement, found), charge.agreed().network),
    {
        let served = match found {
            Ok(Some(record)) => record.settlement(),
            _ => settlement,
        };
        Grant::new(served, charge.terms.network.as_str())
    }
}

/// The first terms that fit a payment fit it, are among the terms, and are missed
/// only when none fit.
pub proof fn the_first_fit_fits(terms: Seq<RequirementsView>, payload: PayloadView)
    ensures
        match first_fit(terms, payload) {
            Some(t) => fits(t, payload) && terms.contains(t),
            None => forall|i: int| 0 <= i < terms.len() ==> !fits(#[trigger] terms[i], payload),
        },
    decreases terms.len(),
{
    if terms.len() > 0 {
        let rest = terms.drop_first();
        the_first_fit_fits(rest, payload);
        if fits(terms[0], payload) {
            assert(terms.contains(terms[0]));
        } else {
            match first_fit(rest, payload) {
                Some(t) => {
                    let i = choose|i: int| 0 <= i < rest.len() && rest[i] == t;
                    assert(terms[i + 1] == t);
                },
                None => {
                    assert forall|i: int| 0 <= i < terms.len() implies !fits(
                        #[trigger] terms[i],
                        payload,
                    ) by {
                        if i > 0 {
                            assert(rest[i - 1] == terms[i]);
                        }
                    }
                },
            }
        }
    }
}

/// What became of one admitted charge.
pub struct Served {
    /// The settlement it was served on, if it was served.
    pub settlement: Option<Settlement>,
    /// Whether the verifier was asked to settle it.
    pub charged: bool,
    /// The records after it.
    pub records: Map<Seq<char>, PaymentRecord>,
}

/// What becomes of a charge with this key when the store works and holds
/// `records`, the verifier would answer `verified`, and the record that would be
/// written is `record`.
pub open spec fn serve(
    records: Map<Seq<char>, PaymentRecord>,
    key: Seq<char>,
    verified: Option<Settlement>,
    record: PaymentRecord,
) -> Served {
    let found = if records.contains_key(key) {
        Ok::<Option<PaymentRecord>, PaymentStoreError>(Some(records[key]))
    } else {
        Ok::<Option<PaymentRecord>, PaymentStoreError>(None)
    };
    match on_lookup(found) {
        Verdict::Serve(s) => Served { settlement: Some(s), charged: false, records },
        Verdict::Verify => match verified {
            Some(s) => match on_record(s, Ok::<(), PaymentStoreError>(())) {
                Verdict::Serve(t) => Served {
                    settlement: Some(t),
                    charged: true,
                    records: records.insert(key, record),
                },
                _ => Served { settlement: None, charged: true, records },
            },
            None => Served { settlement: None, charged: true, records },
        },
        _ => Served { settlement: None, charged: false, records },
    }
}

/// A payment is charged at most once. Once a payment was served, any later request
/// with the same key is served on the same settlement without asking the verifier,
/// whatever it would answer and whatever other payments came between; the records
/// of other payments stay as they were.
pub proof fn a_payment_is_charged_once(
    records: Map<Seq<char>, PaymentRecord>,
    key: Seq<char>,
    first: Option<Settlement>,
    record: PaymentRecord,
    other: Seq<char>,
    between: Option<Settlement>,
    other_record: PaymentRecord,
    again: Option<Settlement>,
    new_record: PaymentRecord,
)
    requires
        first is Some ==> record.settled() == first->0,
        serve(records, key, first, record).settlement is Some,
    ensures
        ({
            let a = serve(records, key, first, record);
            let b = serve(a.records, other, between, other_record);
            let c = serve(b.records, key, again, new_record);
            &&& c.settlement == a.settlement
            &&& !c.charged
            &&& c.records == b.records
            &&& forall|k: Seq<char>|
                k != key ==> (#[trigger] a.records.contains_key(k) <==> records.contains_key(k)) && (
                records.contains_key(k) ==> a.records[k] == records[k])
        }),
{
}

/// Whether a refusal offers all terms of the paywall, in order.
pub open spec fn offers_all(body: PaymentRequiredResponse, paywall: Paywall) -> bool {
    &&& body.x402_version == 1
    &&& body.accepts@.len() == paywall@.len()
    &&& forall|i: int| 0 <= i < paywall@.len() ==> (#[trigger] body.accepts@[i])@ == paywall@[i]
}

proof fn refusals_offer_all(
    paywall: Paywall,
    body: PaymentRequiredResponse,
    error: Option<Seq<char>>,
)
    requires
        body@ == refusal(paywall@, error),
    ensures
        offers_all(body, paywall),
        error is None <==> body.error is None,
        error matches Some(e) ==> (body.error matches Some(t) && t@ == e),
{
    let shown = types::terms_view(body.accepts@);
    assert(shown.len() == body.accepts@.len());
    assert forall|i: int| 0 <= i < paywall@.len() implies (#[trigger] body.accepts@[i])@
        == paywall@[i] by {
        assert(shown[i] == body.accepts@[i]@);
    }
}

/// A paywall asks for what it was set up with, and every refusal offers all of it.
pub proof fn a_refusal_offers_all_terms(
    terms: Vec<PaymentRequirements>,
    paywall: Paywall,
    error: Option<String>,
    body: PaymentRequiredResponse,
)
    requires
        call_ensures(Paywall::new, (terms,), paywall),
        call_ensures(Paywall::payment_required, (&paywall, error), body),
    ensures
        body.x402_version == 1,
        body.accepts@.len() == terms@.len(),
        forall|i: int| 0 <= i < terms@.len() ==> (#[trigger] body.accepts@[i])@ == terms@[i]@,
        body.error is None <==> error is None,
        error matches Some(e) ==> (body.error matches Some(t) && t@ == e@),
{
    let offered = types::terms_view(body.accepts@);
    let asked = types::terms_view(terms@);
    assert(offered.len() == body.accepts@.len() && asked.len() == terms@.len());
    assert forall|i: int| 0 <= i < terms@.len() implies (#[trigger] body.accepts@[i])@
        == terms@[i]@ by {
        assert(offered[i] == body.accepts@[i]@ && asked[i] == terms@[i]@);
    }
}

proof fn the_first_fit_comes_first(terms: Seq<RequirementsView>, payload: PayloadView, i: int)
    requires
        0 <= i < terms.len(),
        terms[i].scheme == payload.scheme && terms[i].network == payload.network,
        forall|j: int|
            0 <= j < i ==> !((#[trigger] terms[j]).scheme == payload.scheme && terms[j].network
                == payload.network),
    ensures
        first_fit(terms, payload) == Some(terms[i]),
    decreases terms.len(),
{
    if i > 0 {
        let rest = terms.drop_first();
        assert(!(terms[0].scheme == payload.scheme && terms[0].network == payload.network));
        assert(rest[i - 1] == terms[i]);
        assert forall|j: int| 0 <= j < i - 1 implies !((#[trigger] rest[j]).scheme
            == payload.scheme && rest[j].network == payload.network) by {
            assert(rest[j] == terms[j + 1]);
        }
        the_first_fit_comes_first(rest, payload, i - 1);
    }
}

/// A payment is charged on the first terms with its scheme and its network, and the
/// charge is for that payment; with no such terms it is refused.
pub proof fn a_payment_is_charged_on_the_first_terms_it_meets(
    paywall: Paywall,
    payment: PaymentPayload,
    r: Result<Charge, PaymentRequiredResponse>,
    i: int,
)
    requires
        call_ensures(
            Paywall::open_charge,
            (&paywall, Some(Ok::<PaymentPayload, PaymentError>(payment))),
            r,
        ),
    ensures
        0 <= i < paywall@.len() && paywall@[i].scheme == payment.scheme@ && paywall@[i].network
            == payment.network@ && (forall|j: int|
            0 <= j < i ==> !((#[trigger] paywall@[j]).scheme == payment.scheme@
                && paywall@[j].network == payment.network@)) ==> (r matches Ok(charge)
            && charge.agreed() == paywall@[i] && charge.payment() == payment@),
        (forall|j: int|
            0 <= j < paywall@.len() ==> !((#[trigger] paywall@[j]).scheme == payment.scheme@
                && paywall@[j].network == payment.network@)) ==> (r matches Err(body) && offers_all(
            body,
            paywall,
        ) && body.error is Some),
        r matches Ok(charge) ==> charge.payment() == payment@ && charge.agreed().scheme
            == payment.scheme@ && charge.agreed().network == payment.network@ && paywall@.contains(
            charge.agreed(),
        ),
{
    the_first_fit_fits(paywall@, payment@);
    if 0 <= i < paywall@.len() && paywall@[i].scheme == payment.scheme@ && paywall@[i].network
        == payment.network@ && (forall|j: int|
        0 <= j < i ==> !((#[trigger] paywall@[j]).scheme == payment.scheme@ && paywall@[j].network
            == payment.network@)) {
        the_first_fit_comes_first(paywall@, payment@, i);
    }
    if first_fit(paywall@, payment@) is None {
        refusals_offer_all(paywall, r->Err_0, Some(no_fit_text(payment@)));
    }
}

/// A request without a payment is refused with all terms and no reason, and one with a
/// payment that could not be read is refused for that reason.
pub proof fn unpaid_requests_are_refused(
    paywall: Paywall,
    error: PaymentError,
    missing: Result<Charge, PaymentRequiredResponse>,
    unreadable: Result<Charge, PaymentRequiredResponse>,
    shown: String,
)
    requires
        call_ensures(
            Paywall::open_charge,
            (&paywall, None::<Result<PaymentPayload, PaymentError>>),
            missing,
        ),
        call_ensures(
            Paywall::open_charge,
            (&paywall, Some(Err::<PaymentPayload, PaymentError>(error))),
            unreadable,
        ),
        call_ensures(PaymentError::to_string, (&error,), shown),
    ensures
        missing matches Err(body) && offers_all(body, paywall) && body.error is None,
        unreadable matches Err(body) && offers_all(body, paywall) && (body.error matches Some(e)
            && e@ == shown@),
{
    refusals_offer_all(paywall, missing->Err_0, None);
    refusals_offer_all(paywall, unreadable->Err_0, Some(error.message()));
}

/// Whether a grant is for this settlement: it is served on it, and the receipt names the
/// payer, the transaction and the network and reports success.
pub open spec fn grants(grant: Grant, payer: String, transaction: Option<String>, network: Seq<
    char,
>) -> bool {
    &&& grant.settlement.payer == payer
    &&& grant.settlement.transaction == transaction
    &&& grant.receipt.success
    &&& grant.receipt.payer == Some(payer)
    &&& grant.receipt.transaction == transaction
    &&& grant.receipt.network@ == network
}

/// A payment on record is served on that record and not charged again; one that is not
/// is verified; and when the store does not answer, nothing is served and nothing is
/// charged.
pub proof fn a_recorded_payment_is_served_not_charged(
    paywall: Paywall,
    charge: Charge,
    found: Result<Option<PaymentRecord>, PaymentStoreError>,
    r: Lookup,
)
    requires
        call_ensures(Paywall::after_lookup, (&paywall, &charge, found), r),
    ensures
        found matches Ok(Some(record)) ==> (r matches Lookup::Replay(g) && grants(
            g,
            record.payer,
            record.transaction,
            charge.agreed().network,
        )),
        found matches Ok(None) ==> r is Verify,
        found is Err ==> (r matches Lookup::Refuse(body) && offers_all(body, paywall)
            && body.error is Some),
{
    if found is Err {
        refusals_offer_all(paywall, r->Refuse_0, Some("payment store unavailable"@));
    }
}

/// A settled payment is recorded under its own key with its payer and transaction and
/// the amount, asset, network and resource it was charged on; a payment that was not
/// verified is refused for the verifier's reason and leaves no record.
pub proof fn a_settled_payment_is_recorded_as_charged(
    paywall: Paywall,
    charge: Charge,
    verified: Result<Settlement, PaymentError>,
    now: Timestamp,
    r: Result<(PaymentRecord, Settlement), PaymentRequiredResponse>,
    key: &str,
)
    requires
        call_ensures(Paywall::after_verify, (&paywall, &charge, verified, now), r),
        call_ensures(Charge::key, (&charge,), key),
    ensures
        verified is Ok <==> r is Ok,
        verified matches Ok(s) ==> (r matches Ok((record, settlement)) && {
            &&& settlement == s
            &&& record.idempotency_key@ == key@
            &&& record.payer == s.payer
            &&& record.transaction == s.transaction
            &&& record.amount@ == charge.agreed().max_amount_required
            &&& record.asset@ == charge.agreed().asset
            &&& record.network@ == charge.agreed().network
            &&& record.resource@ == charge.agreed().resource
            &&& record.created_at == now
        }),
        verified matches Err(e) ==> (r matches Err(body) && offers_all(body, paywall) && (
        body.error matches Some(t) && t@ == e.message())),
{
    if let Err(e) = verified {
        refusals_offer_all(paywall, r->Err_0, Some(e.message()));
    }
}

/// A charge carries the payment that came with the request, terms that it meets, and the
/// key that the payment has on its own.
pub proof fn a_charge_is_for_its_payment(
    charge: Charge,
    payload: &PaymentPayload,
    terms: &PaymentRequirements,
    key: &str,
    own: String,
)
    requires
        call_ensures(Charge::payload, (&charge,), payload),
        call_ensures(Charge::terms, (&charge,), terms),
        call_ensures(Charge::key, (&charge,), key),
        call_ensures(store::idempotency_key, (payload,), own),
    ensures
        payload@ == charge.payment(),
        terms@ == charge.agreed(),
        terms.scheme@ == payload.scheme@,
        terms.network@ == payload.network@,
        key@ == own@,
{
}

/// Once a payment is recorded the request is served on its settlement. When another
/// request recorded the same payment first, that record is served, or the own settlement
/// where the record cannot be read; when the store fails the request is refused.
pub proof fn a_recorded_charge_is_served_once(
    paywall: Paywall,
    charge: Charge,
    settlement: Settlement,
    recorded: Result<(), PaymentStoreError>,
    found: Result<Option<PaymentRecord>, PaymentStoreError>,
    r: Recorded,
    grant: Grant,
)
    requires
        call_ensures(Paywall::after_record, (&paywall, &charge, settlement, recorded), r),
        call_ensures(Paywall::after_conflict, (&paywall, &charge, settlement, found), grant),
    ensures
        recorded is Ok ==> (r matches Recorded::Granted(g) && grants(
            g,
            settlement.payer,
            settlement.transaction,
            charge.agreed().network,
        )),
        recorded matches Err(PaymentStoreError::Conflict) ==> r == Recorded::LookAgain(settlement),
        recorded matches Err(PaymentStoreError::Backend(_)) ==> (r matches Recorded::Refuse(body)
            && offers_all(body, paywall) && body.error is Some),
        found matches Ok(Some(record)) ==> grants(
            grant,
            record.payer,
            record.transaction,
            charge.agreed().network,
        ),
        !(found matches Ok(Some(_))) ==> grants(
            grant,
            settlement.payer,
            settlement.transaction,
            charge.agreed().network,
        ),
{
    if recorded matches Err(PaymentStoreError::Backend(_)) {
        refusals_offer_all(paywall, r->Refuse_0, Some("payment store unavailable"@));
    }
}

} // verus!

//! The request handlers. They hold no state: each takes the catalog and the
//! subscription counter it works on, as whoever runs them shares those.

use vstd::prelude::*;
use crate::catalog::{lookup_price, serials_of, well_formed_products, Catalog, Product, ServiceError};
use crate::subscription::{count_after_subscribe, count_after_unsubscribe, SubscriptionCounter};

verus! {

/// The outcome of a read that waits for the quorum: `Pending` while it is
/// not met (the caller retries later), `Ready` with the answer once it is.
#[derive(Debug, PartialEq, Eq)]
pub enum ReadOutcome<T> {
    Pending,
    Ready(T),
}

/// The answer to a subscription.
#[derive(Clone, Copy, Debug, PartialEq, Eq, Structural)]
pub struct SubscribeReply {
    /// Subscribing always succeeds.
    pub success: bool,
    /// The subscriber count has just become equal to the quorum threshold.
    pub quorum_reached: bool,
}

pub open spec fn admitted<T>(open: bool, v: T) -> ReadOutcome<T> {
    if open {
        ReadOutcome::Ready(v)
    } else {
        ReadOutcome::Pending
    }
}

/// The vendor accepts an offer at or above its current asking price.
pub open spec fn accepts(current_price: int, offer_price: int) -> bool {
    current_price <= offer_price
}

/// The answer to an offer of `offer_price` for the product with serial `serial`.
pub open spec fn offer_outcome(s: Seq<Product>, serial: int, offer_price: int) -> Result<
    bool,
    ServiceError,
> {
    match lookup_price(s, serial) {
        Ok(p) => Ok(accepts(p as int, offer_price)),
        Err(e) => Err(e),
    }
}

/// Decides an offer against a current price.
pub fn accepts_offer(current_price: i32, offer_price: i32) -> (r: bool)
    ensures
        r == accepts(current_price as int, offer_price as int),
{
    current_price <= offer_price
}

/// Serves price and serial-number reads, once the quorum is met.
pub struct ProductImpl {}

impl ProductImpl {
    pub fn new() -> (r: ProductImpl) {
        ProductImpl {}
    }

    /// The price of the product with serial `serial`, or `OutOfRange`;
    /// `Pending` while the quorum is not met.
    pub fn get_price(&self, counter: &SubscriptionCounter, catalog: &Catalog, serial: i32) -> (r: ReadOutcome<
        Result<i32, ServiceError>,
    >)
        ensures
            r == admitted(counter.has_quorum(), lookup_price(catalog@, serial as int)),
    {
        if !counter.quorum_reached() {
            return ReadOutcome::Pending;
        }
        ReadOutcome::Ready(catalog.get_price(serial))
    }

    /// The serial numbers of the catalog in order; `Pending` while the quorum
    /// is not met.
    pub fn get_products_sn(&self, counter: &SubscriptionCounter, catalog: &Catalog) -> (r: ReadOutcome<
        Vec<i32>,
    >)
        requires
            well_formed_products(catalog@),
        ensures
            r is Pending <==> !counter.has_quorum(),
            r matches ReadOutcome::Ready(v) ==> v@ == serials_of(catalog@),
    {
        if !counter.quorum_reached() {
            return ReadOutcome::Pending;
        }
        ReadOutcome::Ready(catalog.list_serials())
    }
}

/// Decides buyers' offers against the live catalog.
pub struct OfferImpl {}

impl OfferImpl {
    pub fn new() -> (r: OfferImpl) {
        OfferImpl {}
    }

    /// Accepts the offer exactly when `offer_price` is at least the current
    /// price of the product with serial `serial`; `OutOfRange` when there is
    /// no such product.
    pub fn confirm_offer(&self, catalog: &Catalog, serial: i32, offer_price: i32) -> (r: Result<
        bool,
        ServiceError,
    >)
        ensures
            r == offer_outcome(catalog@, serial as int, offer_price as int),
    {
        match catalog.get_price(serial) {
            Ok(p) => Ok(accepts_offer(p, offer_price)),
            Err(e) => Err(e),
        }
    }
}

/// Registers and removes subscribers.
pub struct SubscribeImpl {}

impl SubscribeImpl {
    pub fn new() -> (r: SubscribeImpl) {
        SubscribeImpl {}
    }

    /// Adds a subscriber to the counter; always succeeds, and reports whether
    /// the quorum threshold has just been reached.
    pub fn subscribe(&self, counter: &mut SubscriptionCounter) -> (r: SubscribeReply)
        ensures
            final(counter).spec_count() == count_after_subscribe(old(counter).spec_count()),
            final(counter).spec_threshold() == old(counter).spec_threshold(),
            r.success,
            r.quorum_reached == (final(counter).spec_count() == final(counter).spec_threshold()),
    {
        let reached = counter.subscribe();
        SubscribeReply { success: true, quorum_reached: reached }
    }

    /// Removes a subscriber from the counter, the count floored at zero; always
    /// succeeds.
    pub fn unsubscribe(&self, counter: &mut SubscriptionCounter) -> (success: bool)
        ensures
            final(counter).spec_count() == count_after_unsubscribe(old(counter).spec_count()),
            final(counter).spec_threshold() == old(counter).spec_threshold(),
            success,
    {
        counter.unsubscribe();
        true
    }
}

} // verus!

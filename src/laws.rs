//! Properties that hold across the catalog, the counter and the handlers,
//! stated over the same spec functions as their contracts.

use vstd::prelude::*;
use crate::catalog::{
    all_prices_in_range, is_valid_serial, lookup_price, price_in_range, priced_catalog,
    well_formed_products, Product, ServiceError,
};
use crate::subscription::{count_after_subscribe, quorum_met};
use crate::service::{admitted, offer_outcome, ReadOutcome};

verus! {

/// A valid serial always resolves to a price, and after a rotation to
/// `prices` that price is the one the rotation gave it.
pub proof fn lemma_price_is_latest_rotation(prices: Seq<i32>, serial: int)
    requires
        prices.len() <= i32::MAX,
        all_prices_in_range(prices),
        0 <= serial < prices.len(),
    ensures
        lookup_price(priced_catalog(prices), serial) == Ok::<i32, ServiceError>(prices[serial]),
{
}

/// A valid serial always resolves to a price: the one set on it last.
pub proof fn lemma_price_is_latest_set(s: Seq<Product>, serial: int, price: i32)
    requires
        well_formed_products(s),
        is_valid_serial(s, serial),
        price_in_range(price as int),
    ensures
        lookup_price(s.update(serial, Product { serial: serial as i32, price }), serial)
            == Ok::<i32, ServiceError>(price),
        well_formed_products(s.update(serial, Product { serial: serial as i32, price })),
{
    let t = s.update(serial, Product { serial: serial as i32, price });
    assert forall|i: int| 0 <= i < t.len() implies (#[trigger] t[i]).serial == i by {
        if i != serial {
            assert(t[i] == s[i]);
        }
    }
}

/// A serial outside `[0, n)` is rejected with `OutOfRange`, by a price
/// lookup and by an offer alike, whatever the offer.
pub proof fn lemma_out_of_range(s: Seq<Product>, serial: int, offer_price: int)
    requires
        !(0 <= serial < s.len()),
    ensures
        lookup_price(s, serial) == Err::<i32, ServiceError>(ServiceError::OutOfRange),
        offer_outcome(s, serial, offer_price) == Err::<bool, ServiceError>(ServiceError::OutOfRange),
{
}

/// An offer on a valid serial is accepted exactly when it is at least the
/// current price: an offer equal to the price is accepted, one just below is not.
pub proof fn lemma_offer_boundary(s: Seq<Product>, serial: int, offer_price: int)
    requires
        is_valid_serial(s, serial),
    ensures
        offer_outcome(s, serial, offer_price) == Ok::<bool, ServiceError>(offer_price >= s[serial].price),
        offer_outcome(s, serial, s[serial].price as int) == Ok::<bool, ServiceError>(true),
        offer_outcome(s, serial, s[serial].price - 1) == Ok::<bool, ServiceError>(false),
{
}

/// After a rotation every price lies in `[PRICE_MIN, PRICE_MAX]`, the length
/// is unchanged and every serial is still a valid index.
pub proof fn lemma_rotation_keeps_shape(before: Seq<Product>, prices: Seq<i32>)
    requires
        well_formed_products(before),
        prices.len() == before.len(),
        all_prices_in_range(prices),
    ensures
        priced_catalog(prices).len() == before.len(),
        well_formed_products(priced_catalog(prices)),
        forall|i: int| 0 <= i < before.len() ==> price_in_range(#[trigger] priced_catalog(prices)[i].price as int),
        forall|i: int| 0 <= i < before.len() ==> is_valid_serial(before, #[trigger] priced_catalog(prices)[i].serial as int),
{
}

/// A read that waits for the quorum is held back exactly while the count is below the
/// threshold, and once the quorum is met it stays met as buyers subscribe,
/// so later reads are answered at once. Below a threshold that a `u64` can
/// hold, each subscription raises the count by exactly one.
pub proof fn lemma_reads_wait_for_quorum<T>(count: nat, threshold: nat, answer: T)
    ensures
        admitted(quorum_met(count, threshold), answer) is Pending <==> count < threshold,
        count >= threshold ==> admitted(quorum_met(count, threshold), answer) == ReadOutcome::Ready(answer),
        quorum_met(count, threshold) ==> quorum_met(count_after_subscribe(count), threshold),
        threshold <= u64::MAX && count < threshold ==> count_after_subscribe(count) == count + 1,
{
}

} // verus!

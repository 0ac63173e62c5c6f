use product_vendor::{
    accepts_offer, Catalog, ReadOutcome, OfferImpl, ProductImpl, ServiceError, SubscribeImpl,
    SubscriptionCounter, PRICE_MAX, PRICE_MIN,
};

fn open_counter() -> SubscriptionCounter {
    let mut g = SubscriptionCounter::with_threshold(1);
    g.subscribe();
    g
}

#[test]
fn seeded_catalog_scenario() {
    let counter = open_counter();
    let catalog = Catalog::initialize(5);
    let products = ProductImpl::new();
    let offers = OfferImpl::new();
    assert_eq!(products.get_products_sn(&counter, &catalog), ReadOutcome::Ready(vec![0, 1, 2, 3, 4]));
    let p2 = match products.get_price(&counter, &catalog, 2) {
        ReadOutcome::Ready(Ok(p)) => p,
        other => panic!("unexpected {:?}", other),
    };
    assert!(PRICE_MIN <= p2 && p2 <= PRICE_MAX);
    assert_eq!(offers.confirm_offer(&catalog, 2, p2), Ok(true));
    assert_eq!(offers.confirm_offer(&catalog, 2, p2 - 1), Ok(false));
    assert_eq!(products.get_price(&counter, &catalog, 7), ReadOutcome::Ready(Err(ServiceError::OutOfRange)));
}

#[test]
fn reads_wait_for_three_subscribers() {
    let mut counter = SubscriptionCounter::new();
    let catalog = Catalog::initialize(5);
    let products = ProductImpl::new();
    let subs = SubscribeImpl::new();
    assert_eq!(products.get_price(&counter, &catalog, 0), ReadOutcome::Pending);
    assert_eq!(products.get_products_sn(&counter, &catalog), ReadOutcome::Pending);
    let r1 = subs.subscribe(&mut counter);
    assert!(r1.success && !r1.quorum_reached);
    assert_eq!(products.get_price(&counter, &catalog, 0), ReadOutcome::Pending);
    let r2 = subs.subscribe(&mut counter);
    assert!(r2.success && !r2.quorum_reached);
    assert_eq!(products.get_price(&counter, &catalog, 0), ReadOutcome::Pending);
    let r3 = subs.subscribe(&mut counter);
    assert!(r3.success && r3.quorum_reached);
    match products.get_price(&counter, &catalog, 0) {
        ReadOutcome::Ready(Ok(p)) => assert!(PRICE_MIN <= p && p <= PRICE_MAX),
        other => panic!("unexpected {:?}", other),
    }
}

#[test]
fn reads_stay_served_after_quorum() {
    let mut counter = SubscriptionCounter::new();
    let catalog = Catalog::from_prices(&vec![15, 25]);
    let products = ProductImpl::new();
    let subs = SubscribeImpl::new();
    for _ in 0..3 {
        subs.subscribe(&mut counter);
    }
    for _ in 0..3 {
        let r = subs.subscribe(&mut counter);
        assert!(r.success && !r.quorum_reached);
        assert_eq!(products.get_price(&counter, &catalog, 1), ReadOutcome::Ready(Ok(25)));
    }
}

#[test]
fn unsubscribe_below_quorum_holds_reads() {
    let mut counter = SubscriptionCounter::new();
    let catalog = Catalog::from_prices(&vec![15]);
    let products = ProductImpl::new();
    let subs = SubscribeImpl::new();
    for _ in 0..3 {
        subs.subscribe(&mut counter);
    }
    assert_eq!(products.get_price(&counter, &catalog, 0), ReadOutcome::Ready(Ok(15)));
    assert!(subs.unsubscribe(&mut counter));
    assert_eq!(counter.count(), 2);
    assert_eq!(products.get_price(&counter, &catalog, 0), ReadOutcome::Pending);
}

#[test]
fn unsubscribe_without_subscribers_succeeds() {
    let mut counter = SubscriptionCounter::new();
    let subs = SubscribeImpl::new();
    assert!(subs.unsubscribe(&mut counter));
    assert_eq!(counter.count(), 0);
}

#[test]
fn offer_boundaries() {
    let catalog = Catalog::from_prices(&vec![100, 10, 200]);
    let offers = OfferImpl::new();
    assert_eq!(offers.confirm_offer(&catalog, 0, 100), Ok(true));
    assert_eq!(offers.confirm_offer(&catalog, 0, 99), Ok(false));
    assert_eq!(offers.confirm_offer(&catalog, 0, 101), Ok(true));
    assert_eq!(offers.confirm_offer(&catalog, 1, 10), Ok(true));
    assert_eq!(offers.confirm_offer(&catalog, 1, 9), Ok(false));
    assert_eq!(offers.confirm_offer(&catalog, 2, 199), Ok(false));
    assert_eq!(offers.confirm_offer(&catalog, 2, -5), Ok(false));
    assert_eq!(offers.confirm_offer(&catalog, 2, i32::MAX), Ok(true));
}

#[test]
fn offer_out_of_range() {
    let catalog = Catalog::from_prices(&vec![100, 10]);
    let offers = OfferImpl::new();
    assert_eq!(offers.confirm_offer(&catalog, 2, 500), Err(ServiceError::OutOfRange));
    assert_eq!(offers.confirm_offer(&catalog, -1, 500), Err(ServiceError::OutOfRange));
}

#[test]
fn offers_do_not_wait_for_quorum() {
    let counter = SubscriptionCounter::new();
    let catalog = Catalog::from_prices(&vec![50]);
    let offers = OfferImpl::new();
    assert!(!counter.quorum_reached());
    assert_eq!(offers.confirm_offer(&catalog, 0, 50), Ok(true));
}

#[test]
fn accept_rule() {
    assert!(accepts_offer(50, 50));
    assert!(accepts_offer(50, 51));
    assert!(!accepts_offer(50, 49));
}

#[test]
fn offer_follows_rotation() {
    let mut catalog = Catalog::from_prices(&vec![50, 60]);
    let offers = OfferImpl::new();
    assert_eq!(offers.confirm_offer(&catalog, 1, 55), Ok(false));
    catalog.rotate_with(&vec![50, 55]);
    assert_eq!(offers.confirm_offer(&catalog, 1, 55), Ok(true));
}

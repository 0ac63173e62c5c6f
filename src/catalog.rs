//! The catalog: a fixed-length sequence of products whose serial number is
//! their index, each priced within `[PRICE_MIN, PRICE_MAX]`.

use rand::Rng;
use vstd::prelude::*;

verus! {

/// Lowest price a product can be given.
pub const PRICE_MIN: i32 = 10;

/// Highest price a product can be given.
pub const PRICE_MAX: i32 = 200;

/// One product of the catalog.
#[derive(Clone, Copy, Debug, PartialEq, Eq, Structural)]
pub struct Product {
    pub serial: i32,
    pub price: i32,
}

/// The one error a caller can see: a serial number that names no product.
#[derive(Clone, Copy, Debug, PartialEq, Eq, Structural)]
pub enum ServiceError {
    OutOfRange,
}

pub open spec fn price_in_range(p: int) -> bool {
    PRICE_MIN <= p <= PRICE_MAX
}

/// Every product sits at the index given by its serial and has a price in range.
pub open spec fn well_formed_products(s: Seq<Product>) -> bool {
    &&& s.len() <= i32::MAX
    &&& forall|i: int| 0 <= i < s.len() ==> (#[trigger] s[i]).serial == i
    &&& forall|i: int| 0 <= i < s.len() ==> price_in_range((#[trigger] s[i]).price as int)
}

pub open spec fn is_valid_serial(s: Seq<Product>, serial: int) -> bool {
    0 <= serial < s.len()
}

/// The price of the product with the given serial, or `OutOfRange`.
pub open spec fn lookup_price(s: Seq<Product>, serial: int) -> Result<i32, ServiceError> {
    if is_valid_serial(s, serial) {
        Ok(s[serial].price)
    } else {
        Err(ServiceError::OutOfRange)
    }
}

/// The serial numbers of the products, in catalog order.
pub open spec fn serials_of(s: Seq<Product>) -> Seq<i32> {
    Seq::new(s.len(), |i: int| s[i].serial)
}

/// The catalog whose product at index `i` has serial `i` and price `prices[i]`.
pub open spec fn priced_catalog(prices: Seq<i32>) -> Seq<Product> {
    Seq::new(prices.len(), |i: int| Product { serial: i as i32, price: prices[i] })
}

pub open spec fn all_prices_in_range(prices: Seq<i32>) -> bool {
    forall|i: int| 0 <= i < prices.len() ==> price_in_range(#[trigger] prices[i] as int)
}

/// Relies on rand's `thread_rng().gen_range(lo..=hi)`: a value drawn from the
/// closed range `[lo, hi]`; it panics on an empty range, which `requires` rules out.
#[verifier::external_body]
fn random_in_range(lo: i32, hi: i32) -> (r: i32)
    requires
        lo <= hi,
    ensures
        lo <= r <= hi,
{
    rand::thread_rng().gen_range(lo..=hi)
}

/// Draws `n` prices, each uniformly from `[PRICE_MIN, PRICE_MAX]`.
pub fn draw_prices(n: usize) -> (v: Vec<i32>)
    ensures
        v@.len() == n,
        all_prices_in_range(v@),
{
    let mut v: Vec<i32> = Vec::with_capacity(n);
    let mut i: usize = 0;
    while i < n
        invariant
            i <= n,
            v@.len() == i,
            all_prices_in_range(v@),
        decreases n - i,
    {
        let p = random_in_range(PRICE_MIN, PRICE_MAX);
        v.push(p);
        i = i + 1;
    }
    v
}

/// The vendor's catalog. Its length is fixed once it is built. Catalogs made
/// by `initialize` and `from_prices` are well formed, and every method that
/// changes one keeps it so.
pub struct Catalog {
    products: Vec<Product>,
}

impl View for Catalog {
    type V = Seq<Product>;

    closed spec fn view(&self) -> Seq<Product> {
        self.products@
    }
}

impl Catalog {
    /// Builds a catalog of `n` products with serials `0..n` and prices drawn
    /// uniformly from `[PRICE_MIN, PRICE_MAX]`.
    pub fn initialize(n: usize) -> (c: Catalog)
        requires
            n <= i32::MAX,
        ensures
            c@.len() == n,
            well_formed_products(c@),
    {
        let prices = draw_prices(n);
        Catalog::from_prices(&prices)
    }

    /// Builds the catalog whose product `i` has serial `i` and price `prices[i]`.
    pub fn from_prices(prices: &Vec<i32>) -> (c: Catalog)
        requires
            prices@.len() <= i32::MAX,
            all_prices_in_range(prices@),
        ensures
            c@ == priced_catalog(prices@),
            well_formed_products(c@),
    {
        let mut products: Vec<Product> = Vec::with_capacity(prices.len());
        let mut i: usize = 0;
        while i < prices.len()
            invariant
                i <= prices@.len(),
                prices@.len() <= i32::MAX,
                all_prices_in_range(prices@),
                products@ == priced_catalog(prices@.subrange(0, i as int)),
            decreases prices@.len() - i,
        {
            products.push(Product { serial: i as i32, price: prices[i] });
            i = i + 1;
            assert(products@ =~= priced_catalog(prices@.subrange(0, i as int)));
        }
        assert(prices@.subrange(0, i as int) =~= prices@);
        Catalog { products }
    }

    /// The number of products.
    pub fn len(&self) -> (r: usize)
        requires
            well_formed_products(self@),
        ensures
            r == self@.len(),
            r <= i32::MAX,
    {
        self.products.len()
    }

    /// The price of the product with serial `serial`, or `OutOfRange`.
    pub fn get_price(&self, serial: i32) -> (r: Result<i32, ServiceError>)
        ensures
            r == lookup_price(self@, serial as int),
    {
        if serial < 0 || serial as usize >= self.products.len() {
            Err(ServiceError::OutOfRange)
        } else {
            Ok(self.products[serial as usize].price)
        }
    }

    /// The serial numbers of the products in catalog order: `0, 1, ..., len - 1`.
    pub fn list_serials(&self) -> (r: Vec<i32>)
        requires
            well_formed_products(self@),
        ensures
            r@ == serials_of(self@),
            r@.len() == self@.len(),
            forall|i: int| 0 <= i < r@.len() ==> #[trigger] r@[i] == i,
    {
        let mut r: Vec<i32> = Vec::with_capacity(self.products.len());
        let mut i: usize = 0;
        while i < self.products.len()
            invariant
                i <= self@.len(),
                well_formed_products(self@),
                r@ == serials_of(self@.subrange(0, i as int)),
            decreases self@.len() - i,
        {
            r.push(self.products[i].serial);
            i = i + 1;
            assert(r@ =~= serials_of(self@.subrange(0, i as int)));
        }
        assert(self@.subrange(0, i as int) =~= self@);
        r
    }

    /// Sets the price of the product with serial `serial`; `OutOfRange`, with
    /// the catalog unchanged, when no product has that serial.
    pub fn set_price(&mut self, serial: i32, price: i32) -> (r: Result<(), ServiceError>)
        requires
            well_formed_products(old(self)@),
            price_in_range(price as int),
        ensures
            is_valid_serial(old(self)@, serial as int) ==> r == Ok::<(), ServiceError>(())
                && final(self)@ == old(self)@.update(
                serial as int,
                Product { serial, price },
            ),
            !is_valid_serial(old(self)@, serial as int) ==> r == Err::<(), ServiceError>(
                ServiceError::OutOfRange,
            ) && final(self)@ == old(self)@,
            well_formed_products(final(self)@),
    {
        if serial < 0 || serial as usize >= self.products.len() {
            return Err(ServiceError::OutOfRange);
        }
        self.products.set(serial as usize, Product { serial, price });
        Ok(())
    }

    /// Gives product `i` the price `prices[i]`, for every `i`; serials and
    /// length stay as they were.
    pub fn rotate_with(&mut self, prices: &Vec<i32>)
        requires
            well_formed_products(old(self)@),
            prices@.len() == old(self)@.len(),
            all_prices_in_range(prices@),
        ensures
            final(self)@ == priced_catalog(prices@),
            well_formed_products(final(self)@),
    {
        *self = Catalog::from_prices(prices);
    }

    /// Replaces every product's price with a fresh draw from
    /// `[PRICE_MIN, PRICE_MAX]`; the length and the serials are kept.
    pub fn rotate_all(&mut self)
        requires
            well_formed_products(old(self)@),
        ensures
            final(self)@.len() == old(self)@.len(),
            well_formed_products(final(self)@),
            forall|i: int| 0 <= i < final(self)@.len() ==> (#[trigger] final(self)@[i]).serial == old(self)@[i].serial,
            forall|i: int| 0 <= i < final(self)@.len() ==> price_in_range((#[trigger] final(self)@[i]).price as int),
    {
        let prices = draw_prices(self.products.len());
        self.rotate_with(&prices);
    }
}

} // verus!

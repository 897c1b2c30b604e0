use vstd::prelude::*;

use crate::price::Price;

verus! {

/// A new reference price for an instrument.
#[derive(Clone, Copy, Debug)]
pub struct PriceUpdate {
    pub instrument_id: u32,
    pub price: Price,
}

impl PriceUpdate {
    pub fn new(instrument_id: u32, price: Price) -> (r: PriceUpdate)
        ensures
            r.instrument_id == instrument_id,
            r.price == price,
    {
        PriceUpdate { instrument_id, price }
    }
}

/// A request to trade `qty` units of an instrument at `limit_price`.
///
/// The quantity is carried along; validation does not look at it.
#[derive(Clone, Copy, Debug)]
pub struct Order {
    pub instrument_id: u32,
    pub qty: u32,
    pub limit_price: Price,
}

impl Order {
    pub fn new(instrument_id: u32, qty: u32, limit_price: Price) -> (r: Order)
        ensures
            r.instrument_id == instrument_id,
            r.qty == qty,
            r.limit_price == limit_price,
    {
        Order { instrument_id, qty, limit_price }
    }
}

} // verus!

use std::collections::HashMap;
use vstd::prelude::*;

use crate::price::Price;

verus! {

/// The latest reference price of each instrument.
///
/// Its view maps each instrument that has a price to that price; recording a
/// price overwrites the one before, and no history is kept.
pub struct PriceBookRepository {
    price_books: HashMap<u32, Price>,
}

impl View for PriceBookRepository {
    type V = Map<u32, Price>;

    closed spec fn view(&self) -> Map<u32, Price> {
        self.price_books@
    }
}

impl PriceBookRepository {
    /// An empty book: no instrument has a price yet.
    pub fn new() -> (r: PriceBookRepository)
        ensures
            r@ == Map::<u32, Price>::empty(),
    {
        PriceBookRepository { price_books: HashMap::new() }
    }

    /// The price last recorded for `instrument_id`, if any.
    pub fn get(&self, instrument_id: u32) -> (r: Option<Price>)
        ensures
            r == (if self@.contains_key(instrument_id) {
                Some(self@[instrument_id])
            } else {
                None::<Price>
            }),
    {
        match self.price_books.get(&instrument_id) {
            Some(p) => Some(*p),
            None => None,
        }
    }

    /// Records `price` for `instrument_id`, replacing any earlier price.
    /// The price is taken as it is, whatever its value.
    pub fn set(&mut self, instrument_id: u32, price: Price)
        ensures
            final(self)@ == old(self)@.insert(instrument_id, price),
    {
        self.price_books.insert(instrument_id, price);
    }
}

} // verus!

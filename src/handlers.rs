use vstd::prelude::*;

use crate::book::PriceBookRepository;
use crate::events::{Order, PriceUpdate};
use crate::price::{same_value_bits, Price};

verus! {

/// Why an order was rejected. More reasons may be added later, so callers
/// outside this crate must allow for variants they do not know.
#[non_exhaustive]
#[derive(Clone, Copy, Debug, PartialEq, Eq, Structural)]
pub enum OrderError {
    /// A reference price exists and the limit price does not equal it.
    InvalidPrice,
    /// No price was ever recorded for the order's instrument.
    InstrumentNotFound,
}

/// The decision on `order` against a book whose view is `book`: an instrument
/// without a price is rejected first; otherwise the order passes exactly when
/// its limit price equals the recorded price as a double.
pub open spec fn validation_outcome(book: Map<u32, Price>, order: Order) -> Result<(), OrderError> {
    if !book.contains_key(order.instrument_id) {
        Err(OrderError::InstrumentNotFound)
    } else if same_value_bits(order.limit_price.bits, book[order.instrument_id].bits) {
        Ok(())
    } else {
        Err(OrderError::InvalidPrice)
    }
}

/// Records incoming price updates into a price book.
pub struct PriceUpdateEventHandler {}

impl PriceUpdateEventHandler {
    pub fn new() -> (r: PriceUpdateEventHandler) {
        PriceUpdateEventHandler {}
    }

    /// Makes `update.price` the reference price of `update.instrument_id`.
    /// This never fails: any price is accepted.
    pub fn handle_price_update(&self, book: &mut PriceBookRepository, update: &PriceUpdate)
        ensures
            final(book)@ == old(book)@.insert(update.instrument_id, update.price),
    {
        book.set(update.instrument_id, update.price);
    }
}

/// Checks orders against the reference prices of a price book.
pub struct OrderEventHandler {}

impl OrderEventHandler {
    pub fn new() -> (r: OrderEventHandler) {
        OrderEventHandler {}
    }

    /// Accepts `order` when a price is recorded for its instrument and its
    /// limit price equals that price exactly; the book is only read.
    pub fn handle_order(&self, book: &PriceBookRepository, order: &Order) -> (r: Result<
        (),
        OrderError,
    >)
        ensures
            r == validation_outcome(book@, *order),
            r == Err::<(), OrderError>(OrderError::InstrumentNotFound) <==> !book@.contains_key(
                order.instrument_id,
            ),
            r is Ok <==> book@.contains_key(order.instrument_id) && same_value_bits(
                order.limit_price.bits,
                book@[order.instrument_id].bits,
            ),
            r == Err::<(), OrderError>(OrderError::InvalidPrice) <==> book@.contains_key(
                order.instrument_id,
            ) && !same_value_bits(order.limit_price.bits, book@[order.instrument_id].bits),
    {
        match book.get(order.instrument_id) {
            Some(price) => {
                if !order.limit_price.same_value(&price) {
                    return Err(OrderError::InvalidPrice);
                }
            },
            None => {
                return Err(OrderError::InstrumentNotFound);
            },
        }
        Ok(())
    }
}

} // verus!

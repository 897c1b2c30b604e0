//! Properties of validation over whole histories of price updates.
use vstd::prelude::*;

use crate::events::{Order, PriceUpdate};
use crate::handlers::{validation_outcome, OrderError};
use crate::price::Price;

verus! {

/// The view of a book with view `book` after `updates` were handed, in order,
/// to `PriceUpdateEventHandler::handle_price_update`.
pub open spec fn apply_updates(book: Map<u32, Price>, updates: Seq<PriceUpdate>) -> Map<
    u32,
    Price,
>
    decreases updates.len(),
{
    if updates.len() == 0 {
        book
    } else {
        let last = updates.last();
        apply_updates(book, updates.drop_last()).insert(last.instrument_id, last.price)
    }
}

/// Updates for other instruments leave an instrument's entry as it was.
proof fn lemma_other_updates_keep_entry(book: Map<u32, Price>, updates: Seq<PriceUpdate>, id: u32)
    requires
        forall|i: int| 0 <= i < updates.len() ==> updates[i].instrument_id != id,
    ensures
        apply_updates(book, updates).contains_key(id) == book.contains_key(id),
        book.contains_key(id) ==> apply_updates(book, updates)[id] == book[id],
    decreases updates.len(),
{
    if updates.len() > 0 {
        let rest = updates.drop_last();
        assert forall|i: int| 0 <= i < rest.len() implies rest[i].instrument_id != id by {
            assert(rest[i] == updates[i]);
        }
        lemma_other_updates_keep_entry(book, rest, id);
    }
}

/// An order for an instrument that no update ever named, against a book that
/// started empty, is rejected with `InstrumentNotFound`, whatever its limit
/// price and quantity.
pub proof fn lemma_unrecorded_instrument_not_found(updates: Seq<PriceUpdate>, order: Order)
    requires
        forall|i: int| 0 <= i < updates.len() ==> updates[i].instrument_id != order.instrument_id,
    ensures
        validation_outcome(apply_updates(Map::empty(), updates), order) == Err::<(), OrderError>(
            OrderError::InstrumentNotFound,
        ),
{
    lemma_other_updates_keep_entry(Map::empty(), updates, order.instrument_id);
}

/// After a run of updates, an instrument's price is the one from the last
/// update that named it, and an order for it is judged against that price
/// alone: earlier prices are neither kept nor combined.
pub proof fn lemma_last_update_wins(
    book: Map<u32, Price>,
    updates: Seq<PriceUpdate>,
    k: int,
    order: Order,
)
    requires
        0 <= k < updates.len(),
        updates[k].instrument_id == order.instrument_id,
        forall|j: int| k < j < updates.len() ==> updates[j].instrument_id != order.instrument_id,
    ensures
        apply_updates(book, updates).contains_key(order.instrument_id),
        apply_updates(book, updates)[order.instrument_id] == updates[k].price,
        validation_outcome(apply_updates(book, updates), order) == validation_outcome(
            Map::empty().insert(order.instrument_id, updates[k].price),
            order,
        ),
    decreases updates.len(),
{
    let id = order.instrument_id;
    let rest = updates.drop_last();
    if k < updates.len() - 1 {
        assert forall|j: int| k < j < rest.len() implies rest[j].instrument_id != id by {
            assert(rest[j] == updates[j]);
        }
        assert(rest[k] == updates[k]);
        lemma_last_update_wins(book, rest, k, order);
    }
}

/// The quantity of an order never changes the decision: two orders that
/// differ at most in quantity are judged alike against any book.
pub proof fn lemma_quantity_irrelevant(book: Map<u32, Price>, a: Order, b: Order)
    requires
        a.instrument_id == b.instrument_id,
        a.limit_price == b.limit_price,
    ensures
        validation_outcome(book, a) == validation_outcome(book, b),
{
}

} // verus!

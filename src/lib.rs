//! Validation of limit orders against the latest reference price of each
//! instrument.
//!
//! A [`book::PriceBookRepository`] keeps one price per instrument. A
//! [`handlers::PriceUpdateEventHandler`] records incoming prices into it, and an
//! [`handlers::OrderEventHandler`] reads it to accept or reject orders.
pub mod book;
pub mod events;
pub mod handlers;
pub mod laws;
pub mod price;

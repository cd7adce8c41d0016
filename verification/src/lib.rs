//! An agent-based commodity market for a farming game, the field that the
//! game's goods grow on, and the frame animation that its sprites run on.
//!
//! Every amount of money in this crate is a fixed-point integer counted in
//! millionths of a currency unit ([`arith::UNIT`] is one whole unit), and
//! every quantity of goods is a whole number of items.

pub mod agent;
pub mod anim;
pub mod arith;
pub mod chance;
pub mod commodities;
pub mod farm;
pub mod market_house;
pub mod sorting;
pub mod stock;
pub mod trade_house;

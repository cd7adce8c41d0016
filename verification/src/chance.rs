//! The market's source of chance.
//!
//! Quoting a price and shuffling an order book both draw on a random number
//! generator that the caller hands in, so that a caller who seeds the
//! generator gets the same market twice. Nothing is proved of the generator:
//! the functions below state what holds of every draw.

use crate::trade_house::Trade;
use rand::rngs::StdRng;
use rand::seq::SliceRandom;
use rand::Rng;
use vstd::prelude::*;

verus! {

/// The generator of the `rand` crate that this library draws on.
#[verifier::external_type_specification]
#[verifier::external_body]
pub struct ExStdRng(rand::rngs::StdRng);

/// Draws an integer between `lo` and `hi`, both included, by `Rng::gen_range`
/// with an inclusive range. The contract claims only that the draw lies in
/// the range; `gen_range` panics on an empty range, which `lo <= hi` rules
/// out.
#[verifier::external_body]
pub(crate) fn draw_between(rng: &mut StdRng, lo: i64, hi: i64) -> (r: i64)
    requires
        lo <= hi,
    ensures
        lo <= r <= hi,
{
    rng.gen_range(lo..=hi)
}

/// Shuffles by `SliceRandom::shuffle`, which does nothing but swap pairs of
/// elements. The contract claims only that the orders are the same ones
/// afterwards.
#[verifier::external_body]
pub(crate) fn shuffle_orders(orders: &mut Vec<Trade>, rng: &mut StdRng)
    ensures
        final(orders)@.to_multiset() == old(orders)@.to_multiset(),
{
    orders.shuffle(rng);
}

} // verus!

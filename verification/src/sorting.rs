//! Putting an order book in order of price.
//!
//! The sorting itself is the standard library's; what is stated of it here
//! is believed, not proved.

use crate::trade_house::Trade;
use std::cmp::Ordering;
use vstd::prelude::*;

verus! {

/// Whether the prices of `orders` never fall from one order to the next.
pub open spec fn ascending(orders: Seq<Trade>) -> bool {
    forall|i: int, j: int| 0 <= i < j < orders.len() ==> orders[i].price <= orders[j].price
}

/// Whether the prices of `orders` never rise from one order to the next.
pub open spec fn descending(orders: Seq<Trade>) -> bool {
    forall|i: int, j: int| 0 <= i < j < orders.len() ==> orders[i].price >= orders[j].price
}

/// Orders two orders by their price, the lower first.
pub fn lower_price_first(a: &Trade, b: &Trade) -> (order: Ordering)
    ensures
        a.price < b.price <==> order == Ordering::Less,
        a.price == b.price <==> order == Ordering::Equal,
        a.price > b.price <==> order == Ordering::Greater,
{
    if a.price < b.price {
        Ordering::Less
    } else if a.price == b.price {
        Ordering::Equal
    } else {
        Ordering::Greater
    }
}

/// Sorts by `slice::sort_unstable_by` with the lower price first. The
/// contract claims what the standard library documents of it for a total
/// order: the orders are the same ones, and they come out in order. Orders of
/// equal price may come out in any order.
#[verifier::external_body]
pub(crate) fn sort_ascending(orders: &mut Vec<Trade>)
    ensures
        final(orders)@.to_multiset() == old(orders)@.to_multiset(),
        ascending(final(orders)@),
{
    orders.sort_unstable_by(|a, b| lower_price_first(a, b));
}

/// Sorts by `slice::sort_unstable_by` with the higher price first. The
/// contract claims what the standard library documents of it for a total
/// order: the orders are the same ones, and they come out in order. Orders of
/// equal price may come out in any order.
#[verifier::external_body]
pub(crate) fn sort_descending(orders: &mut Vec<Trade>)
    ensures
        final(orders)@.to_multiset() == old(orders)@.to_multiset(),
        descending(final(orders)@),
{
    orders.sort_unstable_by(|a, b| lower_price_first(b, a));
}

} // verus!

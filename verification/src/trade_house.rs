//! Orders, and the orders that one agent submits in one tick.

use crate::arith::{saturate, saturate_wide};
use crate::commodities::CommodityKind;
use vstd::prelude::*;

verus! {

/// An order to buy or to sell: so many items of a commodity at a unit
/// price, placed by the agent that stands at `agent_idx` in the population.
#[derive(Clone, Copy, PartialEq, Eq, Structural, Debug)]
pub struct Trade {
    pub commodity: CommodityKind,
    pub price: i64,
    pub quantity: i64,
    pub agent_idx: usize,
}

impl Trade {
    /// The order with `q` items taken off its quantity.
    pub open spec fn reduced(self, q: int) -> Trade {
        Trade { quantity: saturate(self.quantity - q) as i64, ..self }
    }

    /// An order.
    pub fn new(c: CommodityKind, p: i64, q: i64, agent_idx: usize) -> (trade: Trade)
        ensures
            trade == (Trade { commodity: c, price: p, quantity: q, agent_idx }),
    {
        Trade { commodity: c, price: p, quantity: q, agent_idx }
    }

    /// Takes `q` items off the quantity that is still to be traded.
    pub fn reduce(&mut self, q: i64)
        ensures
            *final(self) == old(self).reduced(q as int),
    {
        self.quantity = saturate_wide(self.quantity as i128 - q as i128);
    }
}

/// The orders of one agent for one tick: at most one per commodity.
pub struct TradeSubmission {
    submission: Vec<Option<Trade>>,
}

impl View for TradeSubmission {
    type V = Seq<Option<Trade>>;

    closed spec fn view(&self) -> Seq<Option<Trade>> {
        self.submission@
    }
}

impl TradeSubmission {
    /// The submission has one slot per kind.
    pub open spec fn wf(&self) -> bool {
        self@.len() == CommodityKind::SIZE
    }

    /// A submission without orders.
    pub fn new() -> (submission: TradeSubmission)
        ensures
            submission.wf(),
            forall|i: int| 0 <= i < CommodityKind::SIZE ==> (#[trigger] submission@[i]).is_none(),
    {
        let mut submission: Vec<Option<Trade>> = Vec::with_capacity(CommodityKind::SIZE);
        let mut i: usize = 0;
        while i < CommodityKind::SIZE
            invariant
                i <= CommodityKind::SIZE,
                submission.len() == i,
                forall|j: int| 0 <= j < i ==> (#[trigger] submission[j]).is_none(),
            decreases CommodityKind::SIZE - i,
        {
            submission.push(None);
            i += 1;
        }
        TradeSubmission { submission }
    }

    /// Puts the order `t` into the slot of the commodity `s`, in place of
    /// what the slot held.
    pub fn add(&mut self, s: CommodityKind, t: Trade)
        requires
            old(self).wf(),
        ensures
            final(self).wf(),
            final(self)@ == old(self)@.update(s.slot(), Some(t)),
    {
        let idx: usize = s.index();
        self.submission[idx] = Some(t);
    }

    /// The order in the slot of the commodity `s`.
    pub fn get(&self, s: CommodityKind) -> (order: Option<Trade>)
        requires
            self.wf(),
        ensures
            order == self@[s.slot()],
    {
        self.submission[s.index()]
    }
}

} // verus!

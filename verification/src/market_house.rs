//! The order books and the double auction that clears them.
//!
//! For each commodity the market holds the bids and the asks of a tick. To
//! clear a commodity it shuffles both sides, sorts the bids by rising and the
//! asks by falling price, and then plays rounds: the last bid, which is the
//! highest, meets the last ask, which is the lowest. Where the bid is no lower
//! than the ask the two trade the smaller of their quantities at the price
//! half-way between them, and what is left of either goes back for another
//! round. Where the bid is lower, both are dropped. The rounds end when one
//! side is empty, and what is left of the other is discarded.

use crate::agent::{AgentView, EconAgent};
use crate::arith::{floor_div, saturate, smaller};
use crate::chance::shuffle_orders;
use crate::commodities::{slots_and_kinds_correspond, CommodityKind};
use crate::sorting::{ascending, descending, sort_ascending, sort_descending};
use crate::trade_house::{Trade, TradeSubmission};
use rand::rngs::StdRng;
use vstd::prelude::*;

verus! {

/// Where an order goes that a round has filled only in part.
#[derive(Clone, Copy, PartialEq, Eq, Structural, Debug)]
pub enum Requeue {
    /// Back to its own side: what is left of a bid is a bid.
    SameSide,
    /// To the other side: what is left of a bid is played as an ask in the
    /// next round, and what is left of an ask as a bid.
    Swapped,
}

/// Whether a bid meets an ask: it offers no less than the ask wants.
pub open spec fn crosses(bid: Trade, ask: Trade) -> bool {
    bid.price >= ask.price
}

/// The price at which a bid and an ask trade: half-way between the two,
/// rounded down.
pub open spec fn clearing_price(bid: Trade, ask: Trade) -> int {
    (bid.price + ask.price) / 2
}

/// The quantity that a bid and an ask trade: the smaller of the two.
pub open spec fn matched_quantity(bid: Trade, ask: Trade) -> int {
    smaller(bid.quantity as int, ask.quantity as int)
}

/// Whether the agent that placed `order` is in the population and holds a
/// stock of `commodity`.
pub open spec fn order_valid(order: Trade, agents: Seq<AgentView>, commodity: CommodityKind) -> bool {
    &&& order.agent_idx < agents.len()
    &&& agents[order.agent_idx as int].holds(commodity)
}

/// Whether every order of `orders` is valid (see [`order_valid`]).
pub open spec fn orders_valid(
    orders: Seq<Trade>,
    agents: Seq<AgentView>,
    commodity: CommodityKind,
) -> bool {
    forall|i: int| 0 <= i < orders.len() ==> order_valid(#[trigger] orders[i], agents, commodity)
}

/// Whether two populations have the same agents holding stocks of the same
/// commodities.
pub open spec fn same_holdings(before: Seq<AgentView>, after: Seq<AgentView>) -> bool {
    &&& before.len() == after.len()
    &&& forall|i: int, kind: CommodityKind|
        0 <= i < before.len() ==> (#[trigger] before[i].holds(kind)) == after[i].holds(kind)
}

/// The population after the buyer of `bid` and the seller of `ask` have
/// settled a trade of `quantity` at `price` each.
pub open spec fn settled(
    agents: Seq<AgentView>,
    bid: Trade,
    ask: Trade,
    commodity: CommodityKind,
    quantity: int,
    price: int,
) -> Seq<AgentView> {
    let buyer = bid.agent_idx as int;
    let seller = ask.agent_idx as int;
    let paid = agents.update(buyer, agents[buyer].bought(commodity, quantity, price));
    paid.update(seller, paid[seller].sold(commodity, quantity, price))
}

/// The order book of one commodity together with the population that trades
/// on it. The best order of each side is its last.
pub struct Book {
    pub bids: Seq<Trade>,
    pub asks: Seq<Trade>,
    pub agents: Seq<AgentView>,
}

impl Book {
    /// Whether no round can be played: a side is empty.
    pub open spec fn done(self) -> bool {
        self.bids.len() == 0 || self.asks.len() == 0
    }

    /// The number of orders in the book.
    pub open spec fn size(self) -> nat {
        self.bids.len() + self.asks.len()
    }

    /// Whether every order of the book is valid (see [`order_valid`]).
    pub open spec fn valid(self, commodity: CommodityKind) -> bool {
        &&& orders_valid(self.bids, self.agents, commodity)
        &&& orders_valid(self.asks, self.agents, commodity)
    }

    /// The book after one round.
    pub open spec fn step(self, commodity: CommodityKind, requeue: Requeue) -> Book {
        let bid = self.bids.last();
        let ask = self.asks.last();
        let bids = self.bids.drop_last();
        let asks = self.asks.drop_last();
        if !crosses(bid, ask) {
            Book { bids, asks, agents: self.agents }
        } else {
            let q = matched_quantity(bid, ask);
            let p = clearing_price(bid, ask);
            let traded = q > 0;
            let bid_left = if traded {
                bid.reduced(q)
            } else {
                bid
            };
            let ask_left = if traded {
                ask.reduced(q)
            } else {
                ask
            };
            let agents = if traded {
                settled(self.agents, bid, ask, commodity, q, p)
            } else {
                self.agents
            };
            match requeue {
                Requeue::SameSide => Book {
                    bids: if bid_left.quantity > 0 {
                        bids.push(bid_left)
                    } else {
                        bids
                    },
                    asks: if ask_left.quantity > 0 {
                        asks.push(ask_left)
                    } else {
                        asks
                    },
                    agents,
                },
                Requeue::Swapped => Book {
                    bids: if ask_left.quantity > 0 {
                        bids.push(ask_left)
                    } else {
                        bids
                    },
                    asks: if bid_left.quantity > 0 {
                        asks.push(bid_left)
                    } else {
                        asks
                    },
                    agents,
                },
            }
        }
    }

    /// The book after all its rounds.
    pub open spec fn run(self, commodity: CommodityKind, requeue: Requeue) -> Book
        decreases self.size(),
    {
        if self.done() {
            self
        } else {
            self.step(commodity, requeue).run(commodity, requeue)
        }
    }

    /// The number of rounds that the book takes.
    pub open spec fn rounds(self, commodity: CommodityKind, requeue: Requeue) -> nat
        decreases self.size(),
    {
        if self.done() {
            0
        } else {
            1 + self.step(commodity, requeue).rounds(commodity, requeue)
        }
    }
}

/// A round preserves the validity of the book and who holds what.
pub proof fn lemma_step_keeps_valid(book: Book, commodity: CommodityKind, requeue: Requeue)
    requires
        !book.done(),
        book.valid(commodity),
    ensures
        book.step(commodity, requeue).valid(commodity),
        same_holdings(book.agents, book.step(commodity, requeue).agents),
{
    let bid = book.bids.last();
    let ask = book.asks.last();
    let next = book.step(commodity, requeue);
    assert(order_valid(bid, book.agents, commodity));
    assert(order_valid(ask, book.agents, commodity));
    assert forall|i: int, kind: CommodityKind| 0 <= i < book.agents.len() implies (
    #[trigger] book.agents[i].holds(kind)) == next.agents[i].holds(kind) by {}
    assert forall|i: int| 0 <= i < next.bids.len() implies order_valid(
        #[trigger] next.bids[i],
        next.agents,
        commodity,
    ) by {
        let order = next.bids[i];
        if i < book.bids.len() - 1 {
            assert(order == book.bids[i]);
            assert(order_valid(book.bids[i], book.agents, commodity));
        }
        assert(order.agent_idx < book.agents.len());
        assert(book.agents[order.agent_idx as int].holds(commodity));
    }
    assert forall|i: int| 0 <= i < next.asks.len() implies order_valid(
        #[trigger] next.asks[i],
        next.agents,
        commodity,
    ) by {
        let order = next.asks[i];
        if i < book.asks.len() - 1 {
            assert(order == book.asks[i]);
            assert(order_valid(book.asks[i], book.agents, commodity));
        }
        assert(order.agent_idx < book.agents.len());
        assert(book.agents[order.agent_idx as int].holds(commodity));
    }
}

/// The views of a population.
pub open spec fn agents_view(agents: Seq<EconAgent>) -> Seq<AgentView> {
    agents.map_values(|agent: EconAgent| agent@)
}

/// Whether every agent of a population is well formed.
pub open spec fn agents_wf(agents: Seq<EconAgent>) -> bool {
    forall|i: int| 0 <= i < agents.len() ==> (#[trigger] agents[i]).wf()
}

/// The price half-way between a bid and an ask, rounded down.
pub fn midpoint(bid: &Trade, ask: &Trade) -> (price: i64)
    ensures
        price == clearing_price(*bid, *ask),
        crosses(*bid, *ask) ==> ask.price <= price <= bid.price,
{
    floor_div(bid.price as i128 + ask.price as i128, 2) as i64
}

/// Whether every order of `orders` was placed by an agent of `agents` that
/// holds a stock of `commodity`: what [`match_orders`] asks of its orders.
pub fn orders_are_valid(orders: &Vec<Trade>, agents: &Vec<EconAgent>, commodity: CommodityKind) -> (ok:
    bool)
    requires
        agents_wf(agents@),
    ensures
        ok == orders_valid(orders@, agents_view(agents@), commodity),
{
    let mut i: usize = 0;
    while i < orders.len()
        invariant
            i <= orders.len(),
            agents_wf(agents@),
            forall|j: int|
                0 <= j < i ==> order_valid(#[trigger] orders@[j], agents_view(agents@), commodity),
        decreases orders.len() - i,
    {
        let who: usize = orders[i].agent_idx;
        if who >= agents.len() {
            assert(!order_valid(orders@[i as int], agents_view(agents@), commodity));
            return false;
        }
        assert(agents_view(agents@)[who as int] == agents@[who as int]@);
        if !agents[who].holds_stock(commodity) {
            assert(!order_valid(orders@[i as int], agents_view(agents@), commodity));
            return false;
        }
        i += 1;
    }
    true
}

/// Plays the rounds of one commodity's book on `agents` until a side is
/// empty. The best bid is the last of `bids`, the best ask the last of
/// `asks`; what the rounds leave of either list stays in it.
pub fn match_orders(
    bids: &mut Vec<Trade>,
    asks: &mut Vec<Trade>,
    agents: &mut Vec<EconAgent>,
    commodity: CommodityKind,
    requeue: Requeue,
)
    requires
        agents_wf(old(agents)@),
        orders_valid(old(bids)@, agents_view(old(agents)@), commodity),
        orders_valid(old(asks)@, agents_view(old(agents)@), commodity),
    ensures
        agents_wf(final(agents)@),
        (Book { bids: final(bids)@, asks: final(asks)@, agents: agents_view(final(agents)@) })
            == (Book {
            bids: old(bids)@,
            asks: old(asks)@,
            agents: agents_view(old(agents)@),
        }).run(commodity, requeue),
        final(bids)@.len() == 0 || final(asks)@.len() == 0,
        same_holdings(agents_view(old(agents)@), agents_view(final(agents)@)),
{
    let ghost start = Book {
        bids: bids@,
        asks: asks@,
        agents: agents_view(agents@),
    };
    while bids.len() > 0 && asks.len() > 0
        invariant
            agents_wf(agents@),
            (Book { bids: bids@, asks: asks@, agents: agents_view(agents@) }).valid(commodity),
            (Book { bids: bids@, asks: asks@, agents: agents_view(agents@) }).run(
                commodity,
                requeue,
            ) == start.run(commodity, requeue),
            same_holdings(start.agents, agents_view(agents@)),
        decreases bids@.len() + asks@.len(),
    {
        let ghost book = Book { bids: bids@, asks: asks@, agents: agents_view(agents@) };
        proof {
            lemma_step_keeps_valid(book, commodity, requeue);
            assert(order_valid(book.bids.last(), book.agents, commodity));
            assert(order_valid(book.asks.last(), book.agents, commodity));
        }
        let mut bid: Trade = bids[bids.len() - 1];
        let mut ask: Trade = asks[asks.len() - 1];
        bids.pop();
        asks.pop();
        proof {
            assert(bids@ == book.bids.drop_last());
            assert(asks@ == book.asks.drop_last());
        }
        if bid.price >= ask.price {
            let q: i64 = if ask.quantity < bid.quantity {
                ask.quantity
            } else {
                bid.quantity
            };
            let p: i64 = midpoint(&bid, &ask);
            if q > 0 {
                let ghost before = agents@;
                let buyer_idx: usize = bid.agent_idx;
                let seller_idx: usize = ask.agent_idx;
                proof {
                    assert(agents_view(before)[buyer_idx as int] == before[buyer_idx as int]@);
                }
                bid.reduce(q);
                agents[buyer_idx].buy(commodity, q, p);
                let ghost paid = agents@;
                proof {
                    assert(paid == before.update(buyer_idx as int, paid[buyer_idx as int]));
                    assert(agents_view(paid) =~= agents_view(before).update(
                        buyer_idx as int,
                        agents_view(before)[buyer_idx as int].bought(commodity, q as int, p as int),
                    ));
                    assert(agents_view(paid)[seller_idx as int] == paid[seller_idx as int]@);
                    assert(agents_view(paid)[seller_idx as int].holds(commodity));
                }
                ask.reduce(q);
                agents[seller_idx].sell(commodity, q, p);
                proof {
                    assert(agents@ == paid.update(seller_idx as int, agents@[seller_idx as int]));
                    assert(agents_view(agents@) =~= agents_view(paid).update(
                        seller_idx as int,
                        agents_view(paid)[seller_idx as int].sold(commodity, q as int, p as int),
                    ));
                    assert(agents_view(agents@) == settled(
                        book.agents,
                        book.bids.last(),
                        book.asks.last(),
                        commodity,
                        q as int,
                        p as int,
                    ));
                }
            }
            match requeue {
                Requeue::SameSide => {
                    if bid.quantity > 0 {
                        bids.push(bid);
                    }
                    if ask.quantity > 0 {
                        asks.push(ask);
                    }
                },
                Requeue::Swapped => {
                    if bid.quantity > 0 {
                        asks.push(bid);
                    }
                    if ask.quantity > 0 {
                        bids.push(ask);
                    }
                },
            }
        }
        proof {
            let next = Book { bids: bids@, asks: asks@, agents: agents_view(agents@) };
            assert(next == book.step(commodity, requeue));
            assert forall|i: int, kind: CommodityKind| 0 <= i < start.agents.len() implies (
            #[trigger] start.agents[i].holds(kind)) == next.agents[i].holds(kind) by {
                assert(start.agents[i].holds(kind) == book.agents[i].holds(kind));
                assert(book.agents[i].holds(kind) == next.agents[i].holds(kind));
            }
        }
    }
}

/// The pending orders of one side of the market, one list per commodity.
pub struct TradeTable {
    trades: Vec<Vec<Trade>>,
}

/// The lists of orders that a table's vectors hold.
pub open spec fn order_lists(trades: Seq<Vec<Trade>>) -> Seq<Seq<Trade>> {
    trades.map_values(|orders: Vec<Trade>| orders@)
}

impl View for TradeTable {
    type V = Seq<Seq<Trade>>;

    closed spec fn view(&self) -> Seq<Seq<Trade>> {
        order_lists(self.trades@)
    }
}

/// The lists of `table` after the orders of `submission` were added, each at
/// the end of the list of its slot.
pub open spec fn with_submission(table: Seq<Seq<Trade>>, submission: Seq<Option<Trade>>) -> Seq<
    Seq<Trade>,
> {
    Seq::new(
        table.len(),
        |slot: int|
            if submission[slot].is_some() {
                table[slot].push(submission[slot].unwrap())
            } else {
                table[slot]
            },
    )
}

impl TradeTable {
    /// The table has one list per kind.
    pub open spec fn wf(&self) -> bool {
        self@.len() == CommodityKind::SIZE
    }

    /// A table without orders.
    pub fn new() -> (table: TradeTable)
        ensures
            table.wf(),
            forall|slot: int| 0 <= slot < CommodityKind::SIZE ==> (#[trigger] table@[slot]).len() == 0,
    {
        let mut trades: Vec<Vec<Trade>> = Vec::with_capacity(CommodityKind::SIZE);
        let mut i: usize = 0;
        while i < CommodityKind::SIZE
            invariant
                i <= CommodityKind::SIZE,
                trades.len() == i,
                forall|j: int| 0 <= j < i ==> (#[trigger] trades[j])@.len() == 0,
            decreases CommodityKind::SIZE - i,
        {
            trades.push(Vec::new());
            i += 1;
        }
        TradeTable { trades }
    }

    /// Puts the orders for `c` into an order left to chance.
    pub fn shuffle(&mut self, c: CommodityKind, rng: &mut StdRng)
        requires
            old(self).wf(),
        ensures
            final(self).wf(),
            final(self)@ == old(self)@.update(c.slot(), final(self)@[c.slot()]),
            final(self)@[c.slot()].to_multiset() == old(self)@[c.slot()].to_multiset(),
    {
        let idx: usize = c.index();
        shuffle_orders(&mut self.trades[idx], rng);
        proof {
            assert(self@ =~= old(self)@.update(c.slot(), self@[c.slot()]));
        }
    }

    /// Sorts the orders for `c` by rising price: the highest comes last.
    pub fn sort_asc(&mut self, c: CommodityKind)
        requires
            old(self).wf(),
        ensures
            final(self).wf(),
            final(self)@ == old(self)@.update(c.slot(), final(self)@[c.slot()]),
            final(self)@[c.slot()].to_multiset() == old(self)@[c.slot()].to_multiset(),
            ascending(final(self)@[c.slot()]),
    {
        let idx: usize = c.index();
        sort_ascending(&mut self.trades[idx]);
        proof {
            assert(self@ =~= old(self)@.update(c.slot(), self@[c.slot()]));
        }
    }

    /// Sorts the orders for `c` by falling price: the lowest comes last.
    pub fn sort_desc(&mut self, c: CommodityKind)
        requires
            old(self).wf(),
        ensures
            final(self).wf(),
            final(self)@ == old(self)@.update(c.slot(), final(self)@[c.slot()]),
            final(self)@[c.slot()].to_multiset() == old(self)@[c.slot()].to_multiset(),
            descending(final(self)@[c.slot()]),
    {
        let idx: usize = c.index();
        sort_descending(&mut self.trades[idx]);
        proof {
            assert(self@ =~= old(self)@.update(c.slot(), self@[c.slot()]));
        }
    }

    /// Lends out the orders for `c`.
    fn orders_mut(&mut self, c: CommodityKind) -> (orders: &mut Vec<Trade>)
        requires
            old(self).wf(),
        ensures
            orders@ == old(self)@[c.slot()],
            final(self)@ == old(self)@.update(c.slot(), final(orders)@),
    {
        let idx: usize = c.index();
        proof {
            assert forall|orders: Vec<Trade>| #[trigger]
                order_lists(old(self).trades@.update(idx as int, orders)) == old(self)@.update(
                    c.slot(),
                    orders@,
                ) by {
                assert(order_lists(old(self).trades@.update(idx as int, orders)) =~= old(
                    self,
                )@.update(c.slot(), orders@));
            }
        }
        &mut self.trades[idx]
    }

    /// Whether there is no order for `c`.
    pub fn is_empty(&self, c: CommodityKind) -> (empty: bool)
        requires
            self.wf(),
        ensures
            empty == (self@[c.slot()].len() == 0),
    {
        self.trades[c.index()].len() == 0
    }

    /// The number of orders for `c`.
    pub fn len(&self, c: CommodityKind) -> (n: usize)
        requires
            self.wf(),
        ensures
            n == self@[c.slot()].len(),
    {
        self.trades[c.index()].len()
    }

    /// Adds the orders of a submission, each at the end of the list of the
    /// slot that it was submitted in.
    pub fn add(&mut self, trade_submission: TradeSubmission)
        requires
            old(self).wf(),
            trade_submission.wf(),
        ensures
            final(self).wf(),
            final(self)@ == with_submission(old(self)@, trade_submission@),
    {
        let mut i: usize = 0;
        while i < CommodityKind::SIZE
            invariant
                i <= CommodityKind::SIZE,
                self.wf(),
                old(self).wf(),
                trade_submission.wf(),
                forall|j: int|
                    0 <= j < i ==> (#[trigger] self@[j]) == with_submission(
                        old(self)@,
                        trade_submission@,
                    )[j],
                forall|j: int| i <= j < CommodityKind::SIZE ==> (#[trigger] self@[j]) == old(self)@[j],
            decreases CommodityKind::SIZE - i,
        {
            let ghost before = self@;
            if let Some(kind) = CommodityKind::from_index(i) {
                proof {
                    slots_and_kinds_correspond(kind, i as int);
                }
                if let Some(t) = trade_submission.get(kind) {
                    let t = Trade::new(t.commodity, t.price, t.quantity, t.agent_idx);
                    self.trades[i].push(t);
                    proof {
                        assert(self@ =~= before.update(i as int, before[i as int].push(t)));
                    }
                }
            }
            proof {
                assert forall|j: int| 0 <= j < i + 1 implies (#[trigger] self@[j])
                    == with_submission(old(self)@, trade_submission@)[j] by {
                    if j < i {
                        assert(self@[j] == before[j]);
                    } else {
                        assert(before[j] == old(self)@[j]);
                    }
                }
                assert forall|j: int| i + 1 <= j < CommodityKind::SIZE implies (#[trigger] self@[j])
                    == old(self)@[j] by {
                    assert(self@[j] == before[j]);
                }
            }
            i += 1;
        }
        proof {
            assert(self@ =~= with_submission(old(self)@, trade_submission@));
        }
    }

    /// Takes the last order for `c` off the table. There must be one.
    pub fn pop(&mut self, c: CommodityKind) -> (trade: Trade)
        requires
            old(self).wf(),
            old(self)@[c.slot()].len() > 0,
        ensures
            final(self).wf(),
            trade == old(self)@[c.slot()].last(),
            final(self)@ == old(self)@.update(c.slot(), old(self)@[c.slot()].drop_last()),
    {
        let idx: usize = c.index();
        let n: usize = self.trades[idx].len();
        let trade: Trade = self.trades[idx][n - 1];
        self.trades[idx].pop();
        proof {
            assert(self@ =~= old(self)@.update(c.slot(), old(self)@[c.slot()].drop_last()));
        }
        trade
    }

    /// Puts `trade` on the table as the last order for `c`.
    pub fn push(&mut self, c: CommodityKind, trade: Trade)
        requires
            old(self).wf(),
        ensures
            final(self).wf(),
            final(self)@ == old(self)@.update(c.slot(), old(self)@[c.slot()].push(trade)),
    {
        let idx: usize = c.index();
        self.trades[idx].push(trade);
        proof {
            assert(self@ =~= old(self)@.update(c.slot(), old(self)@[c.slot()].push(trade)));
        }
    }

    /// Discards the orders for `c`.
    pub fn clear(&mut self, c: CommodityKind)
        requires
            old(self).wf(),
        ensures
            final(self).wf(),
            final(self)@ == old(self)@.update(c.slot(), Seq::<Trade>::empty()),
    {
        let idx: usize = c.index();
        self.trades[idx].clear();
        proof {
            assert(self@ =~= old(self)@.update(c.slot(), Seq::<Trade>::empty()));
        }
    }
}

/// Whether `sorted_bids` and `sorted_asks` are the orders of `bids` and of
/// `asks` put in order for the rounds: the bids by rising price, the asks by
/// falling price.
pub open spec fn is_sorted_book(
    bids: Seq<Trade>,
    asks: Seq<Trade>,
    sorted_bids: Seq<Trade>,
    sorted_asks: Seq<Trade>,
) -> bool {
    &&& sorted_bids.to_multiset() == bids.to_multiset()
    &&& ascending(sorted_bids)
    &&& sorted_asks.to_multiset() == asks.to_multiset()
    &&& descending(sorted_asks)
}

/// Whether `after` is what the rounds of one commodity make of the
/// population `before`, for some way of ordering the orders of equal price.
pub open spec fn is_clearing(
    bids: Seq<Trade>,
    asks: Seq<Trade>,
    before: Seq<AgentView>,
    after: Seq<AgentView>,
    commodity: CommodityKind,
    requeue: Requeue,
) -> bool {
    exists|sorted_bids: Seq<Trade>, sorted_asks: Seq<Trade>|
        {
            &&& #[trigger] is_sorted_book(bids, asks, sorted_bids, sorted_asks)
            &&& after == (Book { bids: sorted_bids, asks: sorted_asks, agents: before }).run(
                commodity,
                requeue,
            ).agents
        }
}

/// Whether `now` is what clearing the first `upto` commodities of the
/// catalog, one after the other, makes of the population `start`.
pub open spec fn cleared_through(
    bids: Seq<Seq<Trade>>,
    asks: Seq<Seq<Trade>>,
    start: Seq<AgentView>,
    now: Seq<AgentView>,
    upto: int,
    requeue: Requeue,
) -> bool
    decreases upto,
{
    if upto <= 0 {
        now == start
    } else {
        let slot = upto - 1;
        exists|mid: Seq<AgentView>|
            cleared_through(bids, asks, start, mid, slot, requeue) && #[trigger] is_clearing(
                bids[slot],
                asks[slot],
                mid,
                now,
                CommodityKind::at(slot),
                requeue,
            )
    }
}

/// Orders that are valid stay valid in any order.
pub proof fn lemma_valid_in_any_order(
    orders: Seq<Trade>,
    reordered: Seq<Trade>,
    agents: Seq<AgentView>,
    commodity: CommodityKind,
)
    requires
        orders_valid(orders, agents, commodity),
        reordered.to_multiset() == orders.to_multiset(),
    ensures
        orders_valid(reordered, agents, commodity),
{
    broadcast use vstd::seq_lib::group_to_multiset_ensures;

    assert forall|i: int| 0 <= i < reordered.len() implies order_valid(
        #[trigger] reordered[i],
        agents,
        commodity,
    ) by {
        assert(reordered.to_multiset().count(reordered[i]) > 0);
        assert(orders.contains(reordered[i]));
        let j = choose|j: int| 0 <= j < orders.len() && orders[j] == reordered[i];
        assert(order_valid(orders[j], agents, commodity));
    }
}

/// Orders that are valid stay valid while the same agents hold the same
/// stocks.
pub proof fn lemma_valid_with_same_holdings(
    orders: Seq<Trade>,
    before: Seq<AgentView>,
    after: Seq<AgentView>,
    commodity: CommodityKind,
)
    requires
        orders_valid(orders, before, commodity),
        same_holdings(before, after),
    ensures
        orders_valid(orders, after, commodity),
{
    assert forall|i: int| 0 <= i < orders.len() implies order_valid(
        #[trigger] orders[i],
        after,
        commodity,
    ) by {
        assert(order_valid(orders[i], before, commodity));
        assert(before[orders[i].agent_idx as int].holds(commodity));
    }
}

/// The market: the bids and the asks of a tick, and the policy by which an
/// order that was filled in part is played again.
pub struct MarketHouse {
    ask_table: TradeTable,
    bid_table: TradeTable,
    requeue: Requeue,
}

impl MarketHouse {
    /// The pending bids, one list per commodity.
    pub closed spec fn bids(&self) -> Seq<Seq<Trade>> {
        self.bid_table@
    }

    /// The pending asks, one list per commodity.
    pub closed spec fn asks(&self) -> Seq<Seq<Trade>> {
        self.ask_table@
    }

    /// The policy for orders that were filled in part.
    pub closed spec fn policy(&self) -> Requeue {
        self.requeue
    }

    /// Both sides have one list per kind.
    pub open spec fn wf(&self) -> bool {
        &&& self.bids().len() == CommodityKind::SIZE
        &&& self.asks().len() == CommodityKind::SIZE
    }

    /// Whether the market has no pending order.
    pub open spec fn is_clear(&self) -> bool {
        &&& forall|slot: int|
            0 <= slot < CommodityKind::SIZE ==> (#[trigger] self.bids()[slot]).len() == 0
        &&& forall|slot: int|
            0 <= slot < CommodityKind::SIZE ==> (#[trigger] self.asks()[slot]).len() == 0
    }

    /// Whether the market can be cleared on `agents`: every pending order
    /// was placed by an agent of the population that holds a stock of the
    /// commodity in whose list the order stands.
    pub open spec fn resolvable(&self, agents: Seq<AgentView>) -> bool {
        &&& forall|slot: int|
            0 <= slot < CommodityKind::SIZE ==> orders_valid(
                #[trigger] self.bids()[slot],
                agents,
                CommodityKind::at(slot),
            )
        &&& forall|slot: int|
            0 <= slot < CommodityKind::SIZE ==> orders_valid(
                #[trigger] self.asks()[slot],
                agents,
                CommodityKind::at(slot),
            )
    }

    /// A market without orders that plays what is left of an order on the
    /// other side ([`Requeue::Swapped`]).
    pub fn new() -> (market: MarketHouse)
        ensures
            market.wf(),
            market.is_clear(),
            market.policy() == Requeue::Swapped,
    {
        MarketHouse::with_requeue(Requeue::Swapped)
    }

    /// A market without orders that plays what is left of an order as
    /// `requeue` says.
    pub fn with_requeue(requeue: Requeue) -> (market: MarketHouse)
        ensures
            market.wf(),
            market.is_clear(),
            market.policy() == requeue,
    {
        MarketHouse { ask_table: TradeTable::new(), bid_table: TradeTable::new(), requeue }
    }

    /// The policy for orders that were filled in part.
    pub fn requeue_policy(&self) -> (requeue: Requeue)
        ensures
            requeue == self.policy(),
    {
        self.requeue
    }

    /// Takes in the bids of one agent.
    pub fn submit_bids(&mut self, bids: TradeSubmission)
        requires
            old(self).wf(),
            bids.wf(),
        ensures
            final(self).wf(),
            final(self).bids() == with_submission(old(self).bids(), bids@),
            final(self).asks() == old(self).asks(),
            final(self).policy() == old(self).policy(),
    {
        self.bid_table.add(bids);
    }

    /// Takes in the asks of one agent.
    pub fn submit_asks(&mut self, asks: TradeSubmission)
        requires
            old(self).wf(),
            asks.wf(),
        ensures
            final(self).wf(),
            final(self).asks() == with_submission(old(self).asks(), asks@),
            final(self).bids() == old(self).bids(),
            final(self).policy() == old(self).policy(),
    {
        self.ask_table.add(asks);
    }

    /// The number of pending bids for `c`.
    pub fn bid_count(&self, c: CommodityKind) -> (n: usize)
        requires
            self.wf(),
        ensures
            n == self.bids()[c.slot()].len(),
    {
        self.bid_table.len(c)
    }

    /// The number of pending asks for `c`.
    pub fn ask_count(&self, c: CommodityKind) -> (n: usize)
        requires
            self.wf(),
        ensures
            n == self.asks()[c.slot()].len(),
    {
        self.ask_table.len(c)
    }

    /// Whether the market can be cleared on `agents` (see
    /// [`MarketHouse::resolvable`]). A caller that cannot know this of its
    /// orders asks before it clears the market.
    pub fn can_resolve(&self, agents: &Vec<EconAgent>) -> (ok: bool)
        requires
            self.wf(),
            agents_wf(agents@),
        ensures
            ok == self.resolvable(agents_view(agents@)),
    {
        let mut slot: usize = 0;
        while slot < CommodityKind::SIZE
            invariant
                slot <= CommodityKind::SIZE,
                self.wf(),
                agents_wf(agents@),
                forall|j: int|
                    0 <= j < slot ==> orders_valid(
                        #[trigger] self.bids()[j],
                        agents_view(agents@),
                        CommodityKind::at(j),
                    ),
                forall|j: int|
                    0 <= j < slot ==> orders_valid(
                        #[trigger] self.asks()[j],
                        agents_view(agents@),
                        CommodityKind::at(j),
                    ),
            decreases CommodityKind::SIZE - slot,
        {
            if let Some(kind) = CommodityKind::from_index(slot) {
                if !orders_are_valid(&self.bid_table.trades[slot], agents, kind) {
                    assert(!orders_valid(
                        self.bids()[slot as int],
                        agents_view(agents@),
                        CommodityKind::at(slot as int),
                    ));
                    return false;
                }
                if !orders_are_valid(&self.ask_table.trades[slot], agents, kind) {
                    assert(!orders_valid(
                        self.asks()[slot as int],
                        agents_view(agents@),
                        CommodityKind::at(slot as int),
                    ));
                    return false;
                }
            }
            slot += 1;
        }
        true
    }

    /// Clears one commodity: shuffles and sorts both sides, plays the rounds
    /// on `agents`, and discards what no round has matched.
    pub fn resolve(&mut self, c: CommodityKind, agents: &mut Vec<EconAgent>, rng: &mut StdRng)
        requires
            old(self).wf(),
            agents_wf(old(agents)@),
            orders_valid(old(self).bids()[c.slot()], agents_view(old(agents)@), c),
            orders_valid(old(self).asks()[c.slot()], agents_view(old(agents)@), c),
        ensures
            final(self).wf(),
            agents_wf(final(agents)@),
            final(self).policy() == old(self).policy(),
            final(self).bids() == old(self).bids().update(c.slot(), Seq::<Trade>::empty()),
            final(self).asks() == old(self).asks().update(c.slot(), Seq::<Trade>::empty()),
            is_clearing(
                old(self).bids()[c.slot()],
                old(self).asks()[c.slot()],
                agents_view(old(agents)@),
                agents_view(final(agents)@),
                c,
                old(self).policy(),
            ),
            same_holdings(agents_view(old(agents)@), agents_view(final(agents)@)),
    {
        let ghost bids = self.bids()[c.slot()];
        let ghost asks = self.asks()[c.slot()];
        self.bid_table.shuffle(c, rng);
        self.ask_table.shuffle(c, rng);
        self.bid_table.sort_asc(c);
        self.ask_table.sort_desc(c);
        let ghost sorted_bids = self.bids()[c.slot()];
        let ghost sorted_asks = self.asks()[c.slot()];
        proof {
            assert(is_sorted_book(bids, asks, sorted_bids, sorted_asks));
            lemma_valid_in_any_order(bids, sorted_bids, agents_view(agents@), c);
            lemma_valid_in_any_order(asks, sorted_asks, agents_view(agents@), c);
        }
        let requeue: Requeue = self.requeue;
        match_orders(
            self.bid_table.orders_mut(c),
            self.ask_table.orders_mut(c),
            agents,
            c,
            requeue,
        );
        self.bid_table.clear(c);
        self.ask_table.clear(c);
        proof {
            assert(self.bids() =~= old(self).bids().update(c.slot(), Seq::<Trade>::empty()));
            assert(self.asks() =~= old(self).asks().update(c.slot(), Seq::<Trade>::empty()));
        }
    }

    /// Clears every commodity of the catalog, one after the other, and
    /// leaves the market without orders.
    pub fn resolve_all(&mut self, agents: &mut Vec<EconAgent>, rng: &mut StdRng)
        requires
            old(self).wf(),
            agents_wf(old(agents)@),
            old(self).resolvable(agents_view(old(agents)@)),
        ensures
            final(self).wf(),
            final(self).is_clear(),
            final(self).policy() == old(self).policy(),
            agents_wf(final(agents)@),
            cleared_through(
                old(self).bids(),
                old(self).asks(),
                agents_view(old(agents)@),
                agents_view(final(agents)@),
                CommodityKind::SIZE as int,
                old(self).policy(),
            ),
            same_holdings(agents_view(old(agents)@), agents_view(final(agents)@)),
    {
        let cs = [
            CommodityKind::CarrotSeed,
            CommodityKind::CarrotCrop,
            CommodityKind::CornSeed,
            CommodityKind::CornCrop,
            CommodityKind::PotatoSeed,
            CommodityKind::PotatoCrop,
            CommodityKind::LettuceSeed,
            CommodityKind::LettuceCrop,
        ];
        let ghost start = agents_view(agents@);
        let mut k: usize = 0;
        while k < CommodityKind::SIZE
            invariant
                k <= CommodityKind::SIZE,
                cs@.len() == CommodityKind::SIZE,
                forall|slot: int| 0 <= slot < CommodityKind::SIZE ==> cs@[slot] == CommodityKind::at(slot),
                self.wf(),
                old(self).wf(),
                self.policy() == old(self).policy(),
                agents_wf(agents@),
                self.resolvable(agents_view(agents@)),
                same_holdings(start, agents_view(agents@)),
                cleared_through(
                    old(self).bids(),
                    old(self).asks(),
                    start,
                    agents_view(agents@),
                    k as int,
                    self.policy(),
                ),
                forall|slot: int|
                    0 <= slot < k ==> (#[trigger] self.bids()[slot]).len() == 0,
                forall|slot: int|
                    0 <= slot < k ==> (#[trigger] self.asks()[slot]).len() == 0,
                forall|slot: int|
                    k <= slot < CommodityKind::SIZE ==> (#[trigger] self.bids()[slot]) == old(
                        self,
                    ).bids()[slot],
                forall|slot: int|
                    k <= slot < CommodityKind::SIZE ==> (#[trigger] self.asks()[slot]) == old(
                        self,
                    ).asks()[slot],
            decreases CommodityKind::SIZE - k,
        {
            let c: CommodityKind = cs[k];
            let ghost before = agents_view(agents@);
            let ghost bids_before = self.bids();
            let ghost asks_before = self.asks();
            proof {
                slots_and_kinds_correspond(c, k as int);
                assert(orders_valid(self.bids()[k as int], before, CommodityKind::at(k as int)));
                assert(orders_valid(self.asks()[k as int], before, CommodityKind::at(k as int)));
            }
            self.resolve(c, agents, rng);
            proof {
                let now = agents_view(agents@);
                assert(bids_before[k as int] == old(self).bids()[k as int]);
                assert(asks_before[k as int] == old(self).asks()[k as int]);
                assert(cleared_through(
                    old(self).bids(),
                    old(self).asks(),
                    start,
                    before,
                    k as int,
                    self.policy(),
                ));
                assert(c == CommodityKind::at(k as int));
                assert(is_clearing(
                    old(self).bids()[k as int],
                    old(self).asks()[k as int],
                    before,
                    now,
                    CommodityKind::at(k as int),
                    self.policy(),
                ));
                assert(cleared_through(
                    old(self).bids(),
                    old(self).asks(),
                    start,
                    now,
                    k + 1,
                    self.policy(),
                ));
                assert forall|slot: int| 0 <= slot < CommodityKind::SIZE implies orders_valid(
                    #[trigger] self.bids()[slot],
                    now,
                    CommodityKind::at(slot),
                ) by {
                    if slot != k {
                        assert(self.bids()[slot] == bids_before[slot]);
                        lemma_valid_with_same_holdings(
                            bids_before[slot],
                            before,
                            now,
                            CommodityKind::at(slot),
                        );
                    }
                }
                assert forall|slot: int| 0 <= slot < CommodityKind::SIZE implies orders_valid(
                    #[trigger] self.asks()[slot],
                    now,
                    CommodityKind::at(slot),
                ) by {
                    if slot != k {
                        assert(self.asks()[slot] == asks_before[slot]);
                        lemma_valid_with_same_holdings(
                            asks_before[slot],
                            before,
                            now,
                            CommodityKind::at(slot),
                        );
                    }
                }
                assert forall|i: int, kind: CommodityKind| 0 <= i < start.len() implies (
                #[trigger] start[i].holds(kind)) == now[i].holds(kind) by {
                    assert(start[i].holds(kind) == before[i].holds(kind));
                    assert(before[i].holds(kind) == now[i].holds(kind));
                }
                assert forall|slot: int| 0 <= slot < k + 1 implies (#[trigger] self.bids()[slot]).len()
                    == 0 by {
                    if slot < k {
                        assert(bids_before[slot].len() == 0);
                    }
                }
                assert forall|slot: int| 0 <= slot < k + 1 implies (#[trigger] self.asks()[slot]).len()
                    == 0 by {
                    if slot < k {
                        assert(asks_before[slot].len() == 0);
                    }
                }
                assert forall|slot: int| k + 1 <= slot < CommodityKind::SIZE implies (
                #[trigger] self.bids()[slot]) == old(self).bids()[slot] by {
                    assert(bids_before[slot] == old(self).bids()[slot]);
                }
                assert forall|slot: int| k + 1 <= slot < CommodityKind::SIZE implies (
                #[trigger] self.asks()[slot]) == old(self).asks()[slot] by {
                    assert(asks_before[slot] == old(self).asks()[slot]);
                }
            }
            k += 1;
        }
    }
}

/// Where a bid meets an ask, the price at which they trade is no lower than
/// what the ask wants and no higher than what the bid offers.
pub proof fn clearing_price_is_between(bid: Trade, ask: Trade)
    requires
        crosses(bid, ask),
    ensures
        ask.price <= clearing_price(bid, ask) <= bid.price,
{
}

/// A round takes at least one order out of the book.
pub proof fn lemma_step_shrinks_book(book: Book, commodity: CommodityKind, requeue: Requeue)
    requires
        !book.done(),
    ensures
        book.step(commodity, requeue).size() < book.size(),
{
}

/// The rounds of a book end: a book of so many orders takes no more rounds
/// than it has orders, each of which takes one bid and one ask off the book,
/// and when the rounds have ended one side of the book is empty.
pub proof fn rounds_end_with_a_side_empty(book: Book, commodity: CommodityKind, requeue: Requeue)
    ensures
        book.rounds(commodity, requeue) <= book.bids.len() + book.asks.len(),
        book.run(commodity, requeue).done(),
    decreases book.size(),
{
    if !book.done() {
        lemma_step_shrinks_book(book, commodity, requeue);
        rounds_end_with_a_side_empty(book.step(commodity, requeue), commodity, requeue);
    }
}

/// In a round in which a bid and an ask trade, the quantity that comes off
/// the bid is the quantity that comes off the ask, and it is the quantity that
/// the buyer is handed and the seller gives up: the buyer's stock grows by it,
/// the seller's stock puts it on record as given away, and the cash that the
/// buyer pays is the cash that the seller takes, unless a balance saturates.
pub proof fn matched_round_conserves_quantity(
    book: Book,
    commodity: CommodityKind,
    requeue: Requeue,
)
    requires
        !book.done(),
        book.valid(commodity),
        crosses(book.bids.last(), book.asks.last()),
        matched_quantity(book.bids.last(), book.asks.last()) > 0,
    ensures
        ({
            let bid = book.bids.last();
            let ask = book.asks.last();
            let q = matched_quantity(bid, ask);
            let p = clearing_price(bid, ask);
            let buyer = bid.agent_idx as int;
            let seller = ask.agent_idx as int;
            let before = book.agents;
            let after = book.step(commodity, requeue).agents;
            &&& bid.quantity - bid.reduced(q).quantity == q
            &&& ask.quantity - ask.reduced(q).quantity == q
            &&& bid.reduced(q).quantity == 0 || ask.reduced(q).quantity == 0
            &&& after == settled(before, bid, ask, commodity, q, p)
            &&& buyer != seller ==> {
                &&& after[buyer].stock(commodity).quantity == saturate(
                    before[buyer].stock(commodity).quantity + q,
                )
                &&& after[seller].stock(commodity).quantity == -q
                &&& after[buyer].cash == saturate(before[buyer].cash - p * q)
                &&& after[seller].cash == saturate(before[seller].cash + p * q)
            }
        }),
{
    let bid = book.bids.last();
    let ask = book.asks.last();
    assert(order_valid(bid, book.agents, commodity));
    assert(order_valid(ask, book.agents, commodity));
}

} // verus!

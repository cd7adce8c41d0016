//! A trading agent: a cash balance and one stock per commodity held.

use crate::arith::{
    clamp, larger, lemma_product_bound, saturate, saturate_wide, scale, scaled, UNIT,
};
use crate::commodities::{slots_and_kinds_correspond, CommodityKind};
use crate::stock::{lemma_scaled_share, CommodityStock, StockView};
use crate::trade_house::{Trade, TradeSubmission};
use rand::rngs::StdRng;
use vstd::prelude::*;

verus! {

/// The cash balance below which a new agent counts as bankrupt (`-200.0`).
pub const BANKRUPTCY_THRESHOLD: i64 = -200_000_000;

/// How favourable an agent takes the market to be while it has no better
/// estimate, as a share of the whole (`0.5`).
pub const FAVORABILITY: i64 = 500_000;

/// No order is smaller than this quantity.
pub const MIN_ORDER: i64 = 1;

/// What an [`EconAgent`] holds, as mathematical values.
pub struct AgentView {
    pub cash: int,
    pub prev_cash: int,
    pub init_stock: int,
    pub max_stock: int,
    pub stocks: Seq<Option<StockView>>,
    pub buildables: Seq<bool>,
    pub bankruptcy_threshold: int,
}

impl AgentView {
    /// Whether the agent holds a stock of `commodity`.
    pub open spec fn holds(self, commodity: CommodityKind) -> bool {
        &&& self.stocks.len() == CommodityKind::SIZE
        &&& self.stocks[commodity.slot()].is_some()
    }

    /// The agent's stock of `commodity`.
    pub open spec fn stock(self, commodity: CommodityKind) -> StockView {
        self.stocks[commodity.slot()].unwrap()
    }

    /// The agent with its stock of `commodity` replaced.
    pub open spec fn with_stock(self, commodity: CommodityKind, stock: StockView) -> AgentView {
        AgentView { stocks: self.stocks.update(commodity.slot(), Some(stock)), ..self }
    }

    /// The agent after it bought `quantity` of `commodity` at `price` each.
    pub open spec fn bought(self, commodity: CommodityKind, quantity: int, price: int) -> AgentView {
        AgentView {
            cash: saturate(self.cash - price * quantity),
            ..self.with_stock(commodity, self.stock(commodity).bought(quantity, price))
        }
    }

    /// The agent after it sold `quantity` of `commodity` at `price` each.
    /// The stock puts the quantity on record with its sign turned.
    pub open spec fn sold(self, commodity: CommodityKind, quantity: int, price: int) -> AgentView {
        AgentView {
            cash: saturate(self.cash + price * quantity),
            ..self.with_stock(commodity, self.stock(commodity).sold(saturate(-quantity), price))
        }
    }

    /// The agent after an order of its own at `price` was rejected.
    pub open spec fn rejected(self, commodity: CommodityKind, is_sell: bool, price: int) -> AgentView {
        self.with_stock(commodity, self.stock(commodity).after_update(is_sell, price, false))
    }

    /// How favourable the agent takes the market for `commodity` to be: a
    /// share between nothing and the whole. It divides the room in a stock
    /// into what is bid for and what is left, and the holdings into what is
    /// offered and what is kept. Every commodity is taken to be as
    /// favourable as [`FAVORABILITY`] says; an estimate from the prices that
    /// a stock has seen would take its place here.
    pub open spec fn favorability(self, commodity: CommodityKind) -> int {
        clamp(FAVORABILITY as int, 0, UNIT as int)
    }

    /// How many items of `commodity` the agent bids for: the unfavourable
    /// share of the room in its stock, and no less than the smallest order.
    pub open spec fn buy_count(self, commodity: CommodityKind) -> int {
        larger(
            scaled(self.stock(commodity).deficit(), UNIT - self.favorability(commodity)),
            MIN_ORDER as int,
        )
    }

    /// How many items of `commodity` the agent offers: the favourable share
    /// of its holdings, and no less than the smallest order.
    pub open spec fn sell_count(self, commodity: CommodityKind) -> int {
        larger(
            scaled(self.stock(commodity).surplus(), self.favorability(commodity)),
            MIN_ORDER as int,
        )
    }

    /// Whether the agent places an order for the commodity at `slot` in a
    /// round of asks (`asks`) or of bids: it holds a stock of it, and builds
    /// it in a round of asks, or does not in a round of bids.
    pub open spec fn places_order(self, slot: int, asks: bool) -> bool {
        self.stocks[slot].is_some() && self.buildables[slot] == asks
    }

    /// The profit since the books were last closed.
    pub open spec fn profit(self) -> int {
        saturate(self.cash - self.prev_cash)
    }

    /// The tax that is due on the profit at `tax_rate`, a ratio in
    /// millionths: nothing where there is no profit.
    pub open spec fn tax_due(self, tax_rate: int) -> int {
        if self.profit() <= 0 {
            0
        } else {
            saturate(scaled(self.profit(), tax_rate))
        }
    }
}

/// What one slot looks like after the agent `before` went through a round of
/// orders as `agent_idx`. Where it places an order, the stock's beliefs were
/// normalised and the order quotes a price within them for the quantity
/// that the agent's stock calls for. Elsewhere nothing changed and the slot
/// of the submission is empty.
pub open spec fn slot_after_round(
    before: AgentView,
    after: AgentView,
    submission: Seq<Option<Trade>>,
    slot: int,
    agent_idx: usize,
    asks: bool,
) -> bool {
    let kind = CommodityKind::at(slot);
    if before.places_order(slot, asks) {
        &&& after.stocks[slot] == Some(before.stock(kind).normalized())
        &&& submission[slot].is_some()
        &&& submission[slot].unwrap().commodity == kind
        &&& submission[slot].unwrap().agent_idx == agent_idx
        &&& submission[slot].unwrap().quantity == if asks {
            before.sell_count(kind)
        } else {
            before.buy_count(kind)
        }
        &&& after.stock(kind).min_belief <= submission[slot].unwrap().price
            <= after.stock(kind).max_belief
    } else {
        &&& after.stocks[slot] == before.stocks[slot]
        &&& submission[slot].is_none()
    }
}

/// What an agent and its submission look like after a round of orders: see
/// [`slot_after_round`] for each slot; cash and settings are untouched.
pub open spec fn is_order_round(
    before: AgentView,
    after: AgentView,
    submission: Seq<Option<Trade>>,
    agent_idx: usize,
    asks: bool,
) -> bool {
    &&& after == (AgentView { stocks: after.stocks, ..before })
    &&& after.stocks.len() == CommodityKind::SIZE
    &&& submission.len() == CommodityKind::SIZE
    &&& forall|slot: int|
        0 <= slot < CommodityKind::SIZE ==> #[trigger] slot_after_round(
            before,
            after,
            submission,
            slot,
            agent_idx,
            asks,
        )
}

/// A trading agent.
pub struct EconAgent {
    cash: i64,
    prev_cash: i64,
    init_stock: i64,
    max_stock: i64,
    stock_pile: Vec<Option<CommodityStock>>,
    buildables: Vec<bool>,
    bankruptcy_threshold: i64,
}

/// The view of a slot of a stockpile.
pub open spec fn slot_view(slot: Option<CommodityStock>) -> Option<StockView> {
    match slot {
        Some(stock) => Some(stock@),
        None => None,
    }
}

impl View for EconAgent {
    type V = AgentView;

    closed spec fn view(&self) -> AgentView {
        AgentView {
            cash: self.cash as int,
            prev_cash: self.prev_cash as int,
            init_stock: self.init_stock as int,
            max_stock: self.max_stock as int,
            stocks: self.stock_pile@.map_values(|slot: Option<CommodityStock>| slot_view(slot)),
            buildables: self.buildables@,
            bankruptcy_threshold: self.bankruptcy_threshold as int,
        }
    }
}

impl EconAgent {
    /// The stockpile and the list of buildables have one slot per kind, and
    /// every stock is well formed and stands in the slot of its commodity.
    pub closed spec fn wf(&self) -> bool {
        &&& self.stock_pile.len() == CommodityKind::SIZE
        &&& self.buildables.len() == CommodityKind::SIZE
        &&& forall|i: int|
            0 <= i < self.stock_pile.len() && (#[trigger] self.stock_pile[i]).is_some() ==> {
                &&& self.stock_pile[i].unwrap().wf()
                &&& self.stock_pile[i].unwrap()@.commodity.slot() == i
            }
    }

    /// A well-formed agent holds well-formed stocks, one slot per kind.
    pub proof fn wf_of_view(&self)
        requires
            self.wf(),
        ensures
            self@.stocks.len() == CommodityKind::SIZE,
            self@.buildables.len() == CommodityKind::SIZE,
            forall|i: int|
                0 <= i < CommodityKind::SIZE && (#[trigger] self@.stocks[i]).is_some() ==> {
                    &&& self@.stocks[i].unwrap().wf()
                    &&& self@.stocks[i].unwrap().commodity.slot() == i
                },
    {
        assert forall|i: int|
            0 <= i < CommodityKind::SIZE && (#[trigger] self@.stocks[i]).is_some() implies {
            &&& self@.stocks[i].unwrap().wf()
            &&& self@.stocks[i].unwrap().commodity.slot() == i
        } by {
            assert(self.stock_pile[i].is_some());
            self.stock_pile[i].unwrap().wf_of_view();
        }
    }

    /// An agent without cash, stocks or buildables.
    pub fn new() -> (agent: EconAgent)
        ensures
            agent.wf(),
            agent@ == (AgentView {
                cash: 0,
                prev_cash: 0,
                init_stock: 0,
                max_stock: 1,
                stocks: Seq::new(CommodityKind::SIZE as nat, |i: int| None::<StockView>),
                buildables: Seq::new(CommodityKind::SIZE as nat, |i: int| false),
                bankruptcy_threshold: BANKRUPTCY_THRESHOLD as int,
            }),
    {
        let mut stock_pile: Vec<Option<CommodityStock>> = Vec::with_capacity(CommodityKind::SIZE);
        let mut buildables: Vec<bool> = Vec::with_capacity(CommodityKind::SIZE);
        let mut i: usize = 0;
        while i < CommodityKind::SIZE
            invariant
                i <= CommodityKind::SIZE,
                stock_pile.len() == i,
                buildables.len() == i,
                forall|j: int| 0 <= j < i ==> (#[trigger] stock_pile[j]).is_none(),
                forall|j: int| 0 <= j < i ==> !(#[trigger] buildables[j]),
            decreases CommodityKind::SIZE - i,
        {
            stock_pile.push(None);
            buildables.push(false);
            i += 1;
        }
        let agent = EconAgent {
            cash: 0,
            prev_cash: 0,
            init_stock: 0,
            max_stock: 1,
            stock_pile,
            buildables,
            bankruptcy_threshold: BANKRUPTCY_THRESHOLD,
        };
        proof {
            assert(agent@.stocks =~= Seq::new(
                CommodityKind::SIZE as nat,
                |i: int| None::<StockView>,
            ));
            assert(agent@.buildables =~= Seq::new(CommodityKind::SIZE as nat, |i: int| false));
        }
        agent
    }

    /// Starts the agent over with no cash.
    pub fn start(&mut self)
        ensures
            final(self)@ == (AgentView { cash: 0, ..old(self)@ }),
            old(self).wf() ==> final(self).wf(),
    {
        self.cash = 0;
    }

    /// Gives the agent a stock of `commodity`: `num` items with room for
    /// `max`, believed to be worth `price`. A stock that the agent already
    /// holds is left as it is.
    pub fn add_to_stock_pile(
        &mut self,
        commodity: CommodityKind,
        num: i64,
        max: i64,
        price: i64,
        production: i64,
    )
        requires
            old(self).wf(),
        ensures
            final(self).wf(),
            old(self)@.holds(commodity) ==> final(self)@ == old(self)@,
            !old(self)@.holds(commodity) ==> final(self)@ == old(self)@.with_stock(
                commodity,
                StockView::fresh(
                    commodity,
                    num as int,
                    max as int,
                    price as int,
                    production as int,
                ),
            ),
    {
        let idx: usize = commodity.index();
        if self.stock_pile[idx].is_none() {
            let stock = CommodityStock::new(commodity, num, max, price, production);
            self.stock_pile[idx] = Some(stock);
            proof {
                assert(self@.stocks =~= old(self)@.stocks.update(
                    commodity.slot(),
                    Some(stock@),
                ));
            }
        }
    }

    /// Sets the agent up with its cash and with the commodities that it
    /// builds, and notes the quantity `init_num` and the room `max_stock`
    /// that it means to give each of its stocks.
    pub fn init_agent(
        &mut self,
        init_cash: i64,
        b: Vec<CommodityKind>,
        init_num: i64,
        max_stock: i64,
    )
        requires
            old(self).wf(),
        ensures
            final(self).wf(),
            final(self)@ == (AgentView {
                cash: init_cash as int,
                prev_cash: init_cash as int,
                init_stock: init_num as int,
                max_stock: max_stock as int,
                buildables: Seq::new(
                    CommodityKind::SIZE as nat,
                    |slot: int| b@.contains(CommodityKind::at(slot)),
                ),
                ..old(self)@
            }),
    {
        self.cash = init_cash;
        self.prev_cash = init_cash;
        self.init_stock = init_num;
        self.max_stock = max_stock;
        let mut slot: usize = 0;
        while slot < CommodityKind::SIZE
            invariant
                slot <= CommodityKind::SIZE,
                self.wf(),
                self@.cash == init_cash,
                self@.prev_cash == init_cash,
                self@.init_stock == init_num,
                self@.max_stock == max_stock,
                self@.stocks == old(self)@.stocks,
                self@.bankruptcy_threshold == old(self)@.bankruptcy_threshold,
                self@.buildables.len() == CommodityKind::SIZE,
                forall|j: int|
                    0 <= j < slot ==> self@.buildables[j] == b@.contains(
                        #[trigger] CommodityKind::at(j),
                    ),
            decreases CommodityKind::SIZE - slot,
        {
            let mut found: bool = false;
            let mut k: usize = 0;
            while k < b.len()
                invariant
                    k <= b.len(),
                    slot < CommodityKind::SIZE,
                    found == b@.subrange(0, k as int).contains(CommodityKind::at(slot as int)),
                decreases b.len() - k,
            {
                if b[k].index() == slot {
                    found = true;
                }
                proof {
                    slots_and_kinds_correspond(b[k as int], slot as int);
                    let kind = CommodityKind::at(slot as int);
                    let before = b@.subrange(0, k as int);
                    let after = b@.subrange(0, k + 1);
                    assert(after =~= before.push(b[k as int]));
                    if before.contains(kind) {
                        let w = choose|w: int| 0 <= w < before.len() && before[w] == kind;
                        assert(after[w] == kind);
                    }
                    if b[k as int] == kind {
                        assert(after[k as int] == kind);
                    }
                }
                k += 1;
            }
            proof {
                assert(b@.subrange(0, b.len() as int) =~= b@);
            }
            self.buildables[slot] = found;
            slot += 1;
        }
        proof {
            assert(self@.buildables =~= Seq::new(
                CommodityKind::SIZE as nat,
                |slot: int| b@.contains(CommodityKind::at(slot)),
            ));
        }
    }

    /// Closes the books: returns the profit since they were last closed.
    pub fn get_profit(&mut self) -> (profit: i64)
        ensures
            profit == old(self)@.profit(),
            final(self)@ == (AgentView { prev_cash: old(self)@.cash, ..old(self)@ }),
            old(self).wf() ==> final(self).wf(),
    {
        let profit: i64 = saturate_wide(self.cash as i128 - self.prev_cash as i128);
        self.prev_cash = self.cash;
        profit
    }

    /// Closes the books and taxes the profit at `tax_rate`, a ratio in
    /// millionths. Returns what is left of the profit; a loss is returned
    /// as it is and not taxed.
    pub fn tax_profit(&mut self, tax_rate: i64) -> (left: i64)
        ensures
            left == saturate(old(self)@.profit() - old(self)@.tax_due(tax_rate as int)),
            final(self)@ == (AgentView {
                cash: saturate(old(self)@.cash - old(self)@.tax_due(tax_rate as int)),
                prev_cash: old(self)@.cash,
                ..old(self)@
            }),
            old(self).wf() ==> final(self).wf(),
    {
        let profit: i64 = self.get_profit();
        if profit <= 0 {
            return profit;
        }
        let tax_amount: i64 = saturate_wide(scale(profit, tax_rate));
        self.cash = saturate_wide(self.cash as i128 - tax_amount as i128);
        saturate_wide(profit as i128 - tax_amount as i128)
    }

    /// Whether the cash has fallen below the bankruptcy threshold.
    pub fn is_bankrupt(&self) -> (bankrupt: bool)
        ensures
            bankrupt == (self@.cash < self@.bankruptcy_threshold),
    {
        self.cash < self.bankruptcy_threshold
    }

    /// Buys `quantity` of `commodity` at `price` each: the stock takes the
    /// goods, the cash pays for what the stock accepted.
    pub fn buy(&mut self, commodity: CommodityKind, quantity: i64, price: i64) -> (bought: i64)
        requires
            old(self).wf(),
            old(self)@.holds(commodity),
        ensures
            final(self).wf(),
            final(self)@ == old(self)@.bought(commodity, quantity as int, price as int),
            bought == quantity,
            final(self)@.stock(commodity).quantity == saturate(
                old(self)@.stock(commodity).quantity + bought,
            ),
            i64::MIN <= old(self)@.stock(commodity).quantity + bought <= i64::MAX
                ==> final(self)@.stock(commodity).quantity == old(self)@.stock(
                commodity,
            ).quantity + bought,
            old(self)@.stock(commodity).quantity >= 0 && quantity >= 0 ==> final(self)@.stock(
                commodity,
            ).quantity >= old(self)@.stock(commodity).quantity,
            final(self)@.stock(commodity).deficit() == saturate(
                larger(
                    0,
                    old(self)@.stock(commodity).max_quantity - final(self)@.stock(
                        commodity,
                    ).quantity,
                ),
            ),
            final(self)@.stock(commodity).deficit() >= 0,
    {
        let idx: usize = commodity.index();
        let mut bought: i64 = 0;
        match &mut self.stock_pile[idx] {
            Some(stock) => {
                bought = stock.buy(quantity, price);
            },
            None => {},
        }
        proof {
            lemma_product_bound(price as int, bought as int);
        }
        self.cash = saturate_wide(self.cash as i128 - price as i128 * bought as i128);
        proof {
            assert(self@.stocks =~= old(self)@.bought(
                commodity,
                quantity as int,
                price as int,
            ).stocks);
        }
        bought
    }

    /// Sells `quantity` of `commodity` at `price` each: the stock puts the
    /// sale on record, the cash takes the proceeds.
    pub fn sell(&mut self, commodity: CommodityKind, quantity: i64, price: i64)
        requires
            old(self).wf(),
            old(self)@.holds(commodity),
        ensures
            final(self).wf(),
            final(self)@ == old(self)@.sold(commodity, quantity as int, price as int),
            final(self)@.stock(commodity).quantity == saturate(-quantity),
    {
        let idx: usize = commodity.index();
        let on_record: i64 = saturate_wide(-(quantity as i128));
        match &mut self.stock_pile[idx] {
            Some(stock) => {
                stock.sell(on_record, price);
            },
            None => {},
        }
        proof {
            lemma_product_bound(price as int, quantity as int);
        }
        self.cash = saturate_wide(self.cash as i128 + price as i128 * quantity as i128);
        proof {
            assert(self@.stocks =~= old(self)@.sold(
                commodity,
                quantity as int,
                price as int,
            ).stocks);
        }
    }

    /// Learns from an ask of its own at `price` that found no buyer.
    pub fn reject_ask(&mut self, commodity: CommodityKind, price: i64)
        requires
            old(self).wf(),
            old(self)@.holds(commodity),
        ensures
            final(self).wf(),
            final(self)@ == old(self)@.rejected(commodity, true, price as int),
    {
        self.reject(commodity, true, price);
    }

    /// Learns from a bid of its own at `price` that found no seller.
    pub fn reject_bid(&mut self, commodity: CommodityKind, price: i64)
        requires
            old(self).wf(),
            old(self)@.holds(commodity),
        ensures
            final(self).wf(),
            final(self)@ == old(self)@.rejected(commodity, false, price as int),
    {
        self.reject(commodity, false, price);
    }

    fn reject(&mut self, commodity: CommodityKind, is_sell: bool, price: i64)
        requires
            old(self).wf(),
            old(self)@.holds(commodity),
        ensures
            final(self).wf(),
            final(self)@ == old(self)@.rejected(commodity, is_sell, price as int),
    {
        let idx: usize = commodity.index();
        match &mut self.stock_pile[idx] {
            Some(stock) => {
                stock.update_price_belief(is_sell, price, false);
            },
            None => {},
        }
        proof {
            assert(self@.stocks =~= old(self)@.rejected(commodity, is_sell, price as int).stocks);
        }
    }

    /// How favourable the agent takes the market for `c` to be.
    pub fn favorability(&self, c: CommodityKind) -> (share: i64)
        ensures
            share == self@.favorability(c),
            0 <= share <= UNIT,
    {
        if FAVORABILITY < 0 {
            0
        } else if FAVORABILITY > UNIT {
            UNIT
        } else {
            FAVORABILITY
        }
    }

    /// How many items of `commodity` to offer.
    pub fn find_sell_count(&self, c: CommodityKind) -> (num_asks: i64)
        requires
            self.wf(),
            self@.holds(c),
        ensures
            num_asks == self@.sell_count(c),
            num_asks >= MIN_ORDER,
    {
        let idx: usize = c.index();
        let favorability: i64 = self.favorability(c);
        let mut num_asks: i64 = MIN_ORDER;
        match &self.stock_pile[idx] {
            Some(stock) => {
                let surplus: i64 = stock.surplus();
                let share: i64 = saturate_wide(scale(surplus, favorability));
                proof {
                    lemma_scaled_within(surplus as int, favorability as int);
                }
                if share > num_asks {
                    num_asks = share;
                }
            },
            None => {},
        }
        num_asks
    }

    /// How many items of `commodity` to bid for.
    pub fn find_buy_count(&self, c: CommodityKind) -> (num_bids: i64)
        requires
            self.wf(),
            self@.holds(c),
        ensures
            num_bids == self@.buy_count(c),
            num_bids >= MIN_ORDER,
    {
        let idx: usize = c.index();
        let favorability: i64 = self.favorability(c);
        let mut num_bids: i64 = MIN_ORDER;
        match &self.stock_pile[idx] {
            Some(stock) => {
                let deficit: i64 = stock.deficit();
                let share: i64 = saturate_wide(scale(deficit, UNIT - favorability));
                proof {
                    lemma_scaled_within(deficit as int, UNIT - favorability);
                }
                if share > num_bids {
                    num_bids = share;
                }
            },
            None => {},
        }
        num_bids
    }

    /// The order that the agent places for `commodity` once it has quoted
    /// `price`: an ask for what it offers, or a bid for what it bids for.
    pub fn order_at(&self, commodity: CommodityKind, agent_idx: usize, price: i64, asks: bool) -> (order:
        Trade)
        requires
            self.wf(),
            self@.holds(commodity),
        ensures
            order.commodity == commodity,
            order.price == price,
            order.agent_idx == agent_idx,
            order.quantity == if asks {
                self@.sell_count(commodity)
            } else {
                self@.buy_count(commodity)
            },
    {
        let quantity: i64 = if asks {
            self.find_sell_count(commodity)
        } else {
            self.find_buy_count(commodity)
        };
        Trade::new(commodity, price, quantity, agent_idx)
    }

    /// Bids for every commodity that the agent holds and does not build, at
    /// a price quoted from the stock's beliefs. `agent_idx` is the agent's
    /// place in the population, which the orders carry.
    pub fn consume(&mut self, agent_idx: usize, rng: &mut StdRng) -> (bids: TradeSubmission)
        requires
            old(self).wf(),
        ensures
            final(self).wf(),
            bids.wf(),
            is_order_round(old(self)@, final(self)@, bids@, agent_idx, false),
    {
        self.place_orders(agent_idx, rng, false)
    }

    /// Offers every commodity that the agent holds and builds, at a price
    /// quoted from the stock's beliefs. `agent_idx` is the agent's place in
    /// the population, which the orders carry.
    pub fn produce(&mut self, agent_idx: usize, rng: &mut StdRng) -> (asks: TradeSubmission)
        requires
            old(self).wf(),
        ensures
            final(self).wf(),
            asks.wf(),
            is_order_round(old(self)@, final(self)@, asks@, agent_idx, true),
    {
        self.place_orders(agent_idx, rng, true)
    }

    fn place_orders(&mut self, agent_idx: usize, rng: &mut StdRng, asks: bool) -> (orders:
        TradeSubmission)
        requires
            old(self).wf(),
        ensures
            final(self).wf(),
            orders.wf(),
            is_order_round(old(self)@, final(self)@, orders@, agent_idx, asks),
    {
        let mut orders = TradeSubmission::new();
        let mut slot: usize = 0;
        while slot < CommodityKind::SIZE
            invariant
                slot <= CommodityKind::SIZE,
                self.wf(),
                orders.wf(),
                self@ == (AgentView { stocks: self@.stocks, ..old(self)@ }),
                self@.stocks.len() == CommodityKind::SIZE,
                old(self)@.stocks.len() == CommodityKind::SIZE,
                forall|j: int|
                    0 <= j < slot ==> #[trigger] slot_after_round(
                        old(self)@,
                        self@,
                        orders@,
                        j,
                        agent_idx,
                        asks,
                    ),
                forall|j: int|
                    slot <= j < CommodityKind::SIZE ==> (#[trigger] self@.stocks[j]) == old(
                        self,
                    )@.stocks[j],
                forall|j: int|
                    slot <= j < CommodityKind::SIZE ==> (#[trigger] orders@[j]).is_none(),
            decreases CommodityKind::SIZE - slot,
        {
            let ghost before = self@;
            let ghost orders_before = orders@;
            if self.stock_pile[slot].is_some() && self.buildables[slot] == asks {
                if let Some(kind) = CommodityKind::from_index(slot) {
                    proof {
                        slots_and_kinds_correspond(kind, slot as int);
                    }
                    let mut price: i64 = 0;
                    match &mut self.stock_pile[slot] {
                        Some(stock) => {
                            price = stock.get_price(rng);
                        },
                        None => {},
                    }
                    proof {
                        assert(self@.stocks =~= before.stocks.update(
                            slot as int,
                            Some(before.stock(kind).normalized()),
                        ));
                    }
                    let order = self.order_at(kind, agent_idx, price, asks);
                    orders.add(kind, order);
                }
            }
            proof {
                assert forall|j: int| 0 <= j < slot + 1 implies #[trigger] slot_after_round(
                    old(self)@,
                    self@,
                    orders@,
                    j,
                    agent_idx,
                    asks,
                ) by {
                    if j < slot {
                        assert(slot_after_round(
                            old(self)@,
                            before,
                            orders_before,
                            j,
                            agent_idx,
                            asks,
                        ));
                        assert(self@.stocks[j] == before.stocks[j]);
                        assert(orders@[j] == orders_before[j]);
                    }
                }
                assert forall|j: int| slot + 1 <= j < CommodityKind::SIZE implies (
                #[trigger] self@.stocks[j]) == old(self)@.stocks[j] by {
                    assert(self@.stocks[j] == before.stocks[j]);
                }
                assert forall|j: int| slot + 1 <= j < CommodityKind::SIZE implies (
                #[trigger] orders@[j]).is_none() by {
                    assert(orders@[j] == orders_before[j]);
                }
            }
            slot += 1;
        }
        orders
    }

    /// The cash at hand.
    pub fn cash(&self) -> (cash: i64)
        ensures
            cash == self@.cash,
    {
        self.cash
    }

    /// The cash at the time the books were last closed.
    pub fn prev_cash(&self) -> (prev_cash: i64)
        ensures
            prev_cash == self@.prev_cash,
    {
        self.prev_cash
    }

    /// The quantity that the agent means to give each stock at first.
    pub fn init_stock(&self) -> (init_stock: i64)
        ensures
            init_stock == self@.init_stock,
    {
        self.init_stock
    }

    /// The room that the agent means to give each stock.
    pub fn max_stock(&self) -> (max_stock: i64)
        ensures
            max_stock == self@.max_stock,
    {
        self.max_stock
    }

    /// Whether the agent holds a stock of `commodity`.
    pub fn holds_stock(&self, commodity: CommodityKind) -> (held: bool)
        requires
            self.wf(),
        ensures
            held == self@.holds(commodity),
    {
        self.stock_pile[commodity.index()].is_some()
    }

    /// The agent's stock of `commodity`, if it holds one.
    pub fn stock(&self, commodity: CommodityKind) -> (stock: Option<&CommodityStock>)
        requires
            self.wf(),
        ensures
            stock.is_some() == self@.holds(commodity),
            stock.is_some() ==> stock.unwrap()@ == self@.stock(commodity) && stock.unwrap().wf(),
    {
        self.stock_pile[commodity.index()].as_ref()
    }

    /// Whether the agent builds `commodity`.
    pub fn builds(&self, commodity: CommodityKind) -> (built: bool)
        requires
            self.wf(),
        ensures
            built == self@.buildables[commodity.slot()],
    {
        self.buildables[commodity.index()]
    }
}

/// A purchase of a quantity that is not negative leaves no negative
/// quantity in a stock that held none: the stock grows by what was bought, up
/// to the end of `i64`, and the room that is left is never negative. A sale
/// puts the quantity sold on record with its sign turned, so that the record
/// is not negative only where the quantity sold is not positive.
pub proof fn settlement_and_the_sign_of_quantity(
    agent: AgentView,
    commodity: CommodityKind,
    quantity: int,
    price: int,
)
    requires
        agent.holds(commodity),
    ensures
        agent.bought(commodity, quantity, price).stock(commodity).quantity == saturate(
            agent.stock(commodity).quantity + quantity,
        ),
        0 <= agent.stock(commodity).quantity <= i64::MAX && quantity >= 0 ==> {
            &&& agent.bought(commodity, quantity, price).stock(commodity).quantity
                >= agent.stock(commodity).quantity
            &&& agent.bought(commodity, quantity, price).stock(commodity).quantity >= 0
        },
        agent.stock(commodity).quantity + quantity <= i64::MAX && agent.stock(
            commodity,
        ).quantity + quantity >= i64::MIN ==> agent.bought(commodity, quantity, price).stock(
            commodity,
        ).quantity == agent.stock(commodity).quantity + quantity,
        agent.bought(commodity, quantity, price).stock(commodity).deficit() >= 0,
        agent.sold(commodity, quantity, price).stock(commodity).quantity == saturate(-quantity),
        quantity <= 0 ==> agent.sold(commodity, quantity, price).stock(commodity).quantity >= 0,
{
}

/// A share taken by a ratio between nothing and the whole stays within the
/// range of `i64`.
pub proof fn lemma_scaled_within(x: int, ratio: int)
    requires
        i64::MIN <= x <= i64::MAX,
        0 <= ratio <= UNIT,
    ensures
        i64::MIN <= scaled(x, ratio) <= i64::MAX,
{
    if x >= 0 {
        lemma_scaled_share(x, ratio);
    } else {
        assert(x * UNIT <= x * ratio <= 0) by (nonlinear_arith)
            requires
                x < 0,
                0 <= ratio <= UNIT,
        ;
        vstd::arithmetic::div_mod::lemma_div_is_ordered(x * UNIT, x * ratio, UNIT as int);
        vstd::arithmetic::div_mod::lemma_div_is_ordered(x * ratio, 0, UNIT as int);
        vstd::arithmetic::div_mod::lemma_div_multiples_vanish(x, UNIT as int);
        assert(x * UNIT == UNIT * x) by (nonlinear_arith);
    }
}

} // verus!

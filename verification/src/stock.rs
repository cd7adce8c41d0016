//! An agent's stock of one commodity and the price beliefs that go with it.
//!
//! The stock holds a quantity and an interval `[min_belief, max_belief]` in
//! which the agent believes the fair price to lie. Every trade, carried out
//! or rejected, moves the interval. All prices and ratios count millionths
//! (see [`crate::arith`]).

use crate::arith::{
    clamp, floor_div, larger, lemma_product_bound, lemma_product_bound_positive, saturate,
    saturate_wide, scale, scaled, smaller, UNIT,
};
use crate::chance::draw_between;
use crate::commodities::CommodityKind;
use rand::rngs::StdRng;
use vstd::prelude::*;

verus! {

/// No belief is held below this price (`0.1`).
pub const PRICE_FLOOR: i64 = 100_000;

/// No belief is held above this price (`900.0`).
pub const PRICE_CEILING: i64 = 900_000_000;

/// The share of the mean belief by which a new stock explores (`0.02`).
pub const WOBBLE_START: i64 = 20_000;

/// The lowest price of a history; `0` for an empty one.
pub open spec fn lowest(prices: Seq<int>) -> int
    decreases prices.len(),
{
    if prices.len() == 0 {
        0
    } else if prices.len() == 1 {
        prices[0]
    } else {
        smaller(lowest(prices.drop_last()), prices.last())
    }
}

/// The highest price of a history; `0` for an empty one.
pub open spec fn highest(prices: Seq<int>) -> int
    decreases prices.len(),
{
    if prices.len() == 0 {
        0
    } else if prices.len() == 1 {
        prices[0]
    } else {
        larger(highest(prices.drop_last()), prices.last())
    }
}

/// The prices at which a stock was traded, oldest first, with their
/// extremes kept at hand.
pub struct History {
    items: Vec<i64>,
    min: i64,
    max: i64,
}

impl View for History {
    type V = Seq<int>;

    closed spec fn view(&self) -> Seq<int> {
        self.items@.map_values(|price: i64| price as int)
    }
}

impl History {
    /// The recorded extremes are those of the recorded prices.
    pub closed spec fn wf(&self) -> bool {
        &&& self.min == lowest(self@)
        &&& self.max == highest(self@)
    }

    /// An empty history.
    pub fn new() -> (history: History)
        ensures
            history.wf(),
            history@ == Seq::<int>::empty(),
    {
        let history = History { items: Vec::new(), min: 0, max: 0 };
        assert(history@ =~= Seq::<int>::empty());
        history
    }

    /// Appends a price.
    pub fn add(&mut self, new_val: i64)
        requires
            old(self).wf(),
        ensures
            final(self).wf(),
            final(self)@ == old(self)@.push(new_val as int),
    {
        let was_empty: bool = self.items.len() == 0;
        self.items.push(new_val);
        proof {
            assert(self@ =~= old(self)@.push(new_val as int));
            assert(self@.drop_last() =~= old(self)@);
        }
        if was_empty || new_val < self.min {
            self.min = new_val;
        }
        if was_empty || new_val > self.max {
            self.max = new_val;
        }
    }

    /// The lowest recorded price; `0` while nothing is recorded.
    pub fn get_min(&self) -> (min: i64)
        requires
            self.wf(),
        ensures
            min == lowest(self@),
    {
        self.min
    }

    /// The highest recorded price; `0` while nothing is recorded.
    pub fn get_max(&self) -> (max: i64)
        requires
            self.wf(),
        ensures
            max == highest(self@),
    {
        self.max
    }

    /// The number of recorded prices.
    pub fn len(&self) -> (n: usize)
        ensures
            n == self@.len(),
    {
        self.items.len()
    }

    /// The `i`-th recorded price, oldest first.
    pub fn get(&self, i: usize) -> (price: Option<i64>)
        ensures
            i < self@.len() ==> price.is_some() && price.unwrap() == self@[i as int],
            i >= self@.len() ==> price.is_none(),
    {
        if i < self.items.len() {
            Some(self.items[i])
        } else {
            None
        }
    }
}

/// What a [`CommodityStock`] holds, as mathematical values.
pub struct StockView {
    pub commodity: CommodityKind,
    pub quantity: int,
    pub max_quantity: int,
    pub mean_cost: int,
    pub production: int,
    pub min_belief: int,
    pub max_belief: int,
    pub history: Seq<int>,
    pub significant: int,
    pub sig_imbalance: int,
    pub low_inventory: int,
    pub high_inventory: int,
    pub cost: int,
    pub wobble: int,
}

/// The lower bound of a belief interval after a trade, before it is
/// normalised: where the bounds have met or crossed, half the upper bound.
pub open spec fn repaired_min(lo: int, hi: int) -> int {
    if lo < hi {
        lo
    } else {
        hi / 2
    }
}

impl StockView {
    /// A stock as it is first set up: `quantity` items with room for
    /// `max_quantity`, bought at `mean_price`, with beliefs from half to twice
    /// that price and the tunables at their first values.
    pub open spec fn fresh(
        commodity: CommodityKind,
        quantity: int,
        max_quantity: int,
        mean_price: int,
        production: int,
    ) -> StockView {
        StockView {
            commodity,
            quantity,
            max_quantity,
            mean_cost: mean_price,
            production,
            min_belief: mean_price / 2,
            max_belief: saturate(mean_price * 2),
            history: seq![mean_price],
            significant: 250_000,
            sig_imbalance: 330_000,
            low_inventory: 100_000,
            high_inventory: 2_000_000,
            cost: UNIT as int,
            wobble: WOBBLE_START as int,
        }
    }

    /// The tunables are ratios between nothing and the whole.
    pub open spec fn wf(self) -> bool {
        &&& 0 <= self.wobble <= UNIT
        &&& 0 <= self.significant <= UNIT
    }

    /// The belief interval is ordered and lies within the price limits.
    pub open spec fn is_normal(self) -> bool {
        PRICE_FLOOR <= self.min_belief <= self.max_belief <= PRICE_CEILING
    }

    /// The stock with its belief interval brought back to sanity: the lower
    /// bound is raised to the cost, the upper bound to eleven tenths of the
    /// lower, and both are then held within the price limits.
    pub open spec fn normalized(self) -> StockView {
        let lo = larger(self.min_belief, self.cost);
        let hi = larger(self.max_belief, (lo * 11) / 10);
        StockView {
            min_belief: clamp(lo, PRICE_FLOOR as int, PRICE_CEILING as int),
            max_belief: clamp(hi, PRICE_FLOOR as int, PRICE_CEILING as int),
            ..self
        }
    }

    /// The middle of the belief interval.
    pub open spec fn mean_belief(self) -> int {
        (self.min_belief + self.max_belief) / 2
    }

    /// By how much both bounds move towards a traded price: a quarter of the
    /// distance between that price and the mean belief.
    pub open spec fn shift(self, price: int) -> int {
        (self.mean_belief() - price) / 4
    }

    /// The width by which the stock explores: its wobble, as a share of the
    /// mean belief.
    pub open spec fn explore(self) -> int {
        scaled(self.mean_belief(), self.wobble)
    }

    /// Whether a trade that was carried out disagrees strongly with the
    /// belief: a sale far below the mean, or a purchase far above it. Far is
    /// further than the significant share of the mean.
    pub open spec fn disagrees(self, is_sell: bool, price: int) -> bool {
        let mean = self.mean_belief();
        let delta = mean - price;
        let threshold = scaled(mean, self.significant);
        (is_sell && delta > threshold) || (!is_sell && delta < -threshold)
    }

    /// The bounds after a trade that was carried out at `price`, before the
    /// final repair. The interval follows the price where it disagrees
    /// strongly, then narrows by the exploration width; bounds that cross
    /// are set around their middle.
    pub open spec fn bounds_after_success(self, is_sell: bool, price: int) -> (int, int) {
        let moved = self.disagrees(is_sell, price);
        let lo = (if moved {
            self.min_belief - self.shift(price)
        } else {
            self.min_belief
        }) + self.explore();
        let hi = (if moved {
            self.max_belief - self.shift(price)
        } else {
            self.max_belief
        }) - self.explore();
        if lo > hi {
            let avg = (lo + hi) / 2;
            (scaled(avg, UNIT - self.wobble), scaled(avg, UNIT + self.wobble))
        } else {
            (lo, hi)
        }
    }

    /// The bounds after an order at `price` was rejected, before the final
    /// repair. The interval follows the price and widens by the exploration
    /// width on both sides.
    pub open spec fn bounds_after_rejection(self, price: int) -> (int, int) {
        (
            self.min_belief - self.shift(price) - self.explore(),
            self.max_belief - self.shift(price) + self.explore(),
        )
    }

    /// The stock after it has learned from a trade, carried out
    /// (`success`) or rejected, at `price`.
    pub open spec fn after_update(self, is_sell: bool, price: int, success: bool) -> StockView {
        let s = self.normalized();
        let (lo, hi) = if success {
            s.bounds_after_success(is_sell, price)
        } else {
            s.bounds_after_rejection(price)
        };
        StockView {
            min_belief: repaired_min(lo, hi),
            max_belief: hi,
            wobble: if success {
                s.wobble / 2
            } else {
                s.wobble
            },
            history: s.history.push(price),
            ..s
        }.normalized()
    }

    /// The mean cost of the stock after `quant` more items were bought at
    /// `price`: the average of the old mean cost and the price, weighted by
    /// the quantity held before and the quantity bought, that is the value
    /// of the old stock and of the purchase together over the quantity held
    /// afterwards, rounded down. A stock that holds nothing afterwards takes
    /// the purchase price.
    pub open spec fn mean_cost_after_buy(self, quant: int, price: int) -> int {
        if self.quantity + quant > 0 {
            saturate((self.mean_cost * self.quantity + price * quant) / (self.quantity + quant))
        } else {
            saturate(price)
        }
    }

    /// The stock after `quant` items were bought at `price`.
    pub open spec fn bought(self, quant: int, price: int) -> StockView {
        StockView {
            mean_cost: self.mean_cost_after_buy(quant, price),
            quantity: saturate(self.quantity + quant),
            ..self
        }.after_update(false, price, true)
    }

    /// The stock after a sale at `price` that leaves `quant` on record.
    pub open spec fn sold(self, quant: int, price: int) -> StockView {
        StockView { quantity: quant, ..self }.after_update(true, price, true)
    }

    /// The room that is left in the stock.
    pub open spec fn deficit(self) -> int {
        saturate(larger(0, self.max_quantity - self.quantity))
    }

    /// What the stock can sell.
    pub open spec fn surplus(self) -> int {
        self.quantity
    }
}

/// One agent's stock of one commodity.
pub struct CommodityStock {
    commodity: CommodityKind,
    quantity: i64,
    max_quantity: i64,
    mean_cost: i64,
    production: i64,
    min_price_belief: i64,
    max_price_belief: i64,
    price_history: History,
    significant: i64,
    sig_imbalance: i64,
    low_inventory: i64,
    high_inventory: i64,
    cost: i64,
    wobble: i64,
}

impl View for CommodityStock {
    type V = StockView;

    closed spec fn view(&self) -> StockView {
        StockView {
            commodity: self.commodity,
            quantity: self.quantity as int,
            max_quantity: self.max_quantity as int,
            mean_cost: self.mean_cost as int,
            production: self.production as int,
            min_belief: self.min_price_belief as int,
            max_belief: self.max_price_belief as int,
            history: self.price_history@,
            significant: self.significant as int,
            sig_imbalance: self.sig_imbalance as int,
            low_inventory: self.low_inventory as int,
            high_inventory: self.high_inventory as int,
            cost: self.cost as int,
            wobble: self.wobble as int,
        }
    }
}

/// Holds a wide value within the price limits.
fn clamp_price(x: i128) -> (r: i64)
    ensures
        r == clamp(x as int, PRICE_FLOOR as int, PRICE_CEILING as int),
{
    if x < PRICE_FLOOR as i128 {
        PRICE_FLOOR
    } else if x > PRICE_CEILING as i128 {
        PRICE_CEILING
    } else {
        x as i64
    }
}

impl CommodityStock {
    /// The tunables are ratios and the history's extremes are in order.
    pub closed spec fn wf(&self) -> bool {
        &&& self@.wf()
        &&& self.price_history.wf()
    }

    /// A well-formed stock has a well-formed view.
    pub proof fn wf_of_view(&self)
        requires
            self.wf(),
        ensures
            self@.wf(),
            i64::MIN <= self@.quantity <= i64::MAX,
            i64::MIN <= self@.max_quantity <= i64::MAX,
            i64::MIN <= self@.mean_cost <= i64::MAX,
            i64::MIN <= self@.min_belief <= i64::MAX,
            i64::MIN <= self@.max_belief <= i64::MAX,
            i64::MIN <= self@.cost <= i64::MAX,
    {
    }

    /// A stock of `quantity` items with room for `max_quantity`, whose
    /// beliefs start at half and at twice `mean_price`.
    pub fn new(
        commodity: CommodityKind,
        quantity: i64,
        max_quantity: i64,
        mean_price: i64,
        production: i64,
    ) -> (stock: CommodityStock)
        ensures
            stock.wf(),
            stock@ == StockView::fresh(
                commodity,
                quantity as int,
                max_quantity as int,
                mean_price as int,
                production as int,
            ),
    {
        let mut price_history = History::new();
        price_history.add(mean_price);
        assert(price_history@ =~= seq![mean_price as int]);
        let half: i128 = floor_div(mean_price as i128, 2);
        let twice: i64 = saturate_wide(mean_price as i128 * 2);
        CommodityStock {
            commodity,
            quantity,
            max_quantity,
            mean_cost: mean_price,
            production,
            min_price_belief: half as i64,
            max_price_belief: twice,
            price_history,
            significant: 250_000,
            sig_imbalance: 330_000,
            low_inventory: 100_000,
            high_inventory: 2_000_000,
            cost: UNIT,
            wobble: WOBBLE_START,
        }
    }

    /// Adds `val` items to the stock, or takes them away where `val` is
    /// negative.
    pub fn increase_quantity(&mut self, val: i64)
        ensures
            final(self)@ == (StockView {
                quantity: saturate(old(self)@.quantity + val),
                ..old(self)@
            }),
            old(self).wf() ==> final(self).wf(),
    {
        self.quantity = saturate_wide(self.quantity as i128 + val as i128);
    }

    /// Brings the belief interval back to sanity.
    pub fn sane_price_beliefs(&mut self)
        ensures
            final(self)@ == old(self)@.normalized(),
            final(self)@.is_normal(),
            old(self).wf() ==> final(self).wf(),
    {
        let lo: i64 = if self.min_price_belief >= self.cost {
            self.min_price_belief
        } else {
            self.cost
        };
        let stretched: i128 = floor_div(lo as i128 * 11, 10);
        let hi: i128 = if self.max_price_belief as i128 >= stretched {
            self.max_price_belief as i128
        } else {
            stretched
        };
        self.min_price_belief = clamp_price(lo as i128);
        self.max_price_belief = clamp_price(hi);
    }

    /// Learns from a trade at `price`, carried out (`success`) or rejected:
    /// records the price and moves the belief interval.
    pub fn update_price_belief(&mut self, is_sell: bool, price: i64, success: bool)
        requires
            old(self).wf(),
        ensures
            final(self).wf(),
            final(self)@ == old(self)@.after_update(is_sell, price as int, success),
            final(self)@.is_normal(),
    {
        self.sane_price_beliefs();
        self.price_history.add(price);
        let ghost s = old(self)@.normalized();
        let lo0: i128 = self.min_price_belief as i128;
        let hi0: i128 = self.max_price_belief as i128;
        let mean: i64 = ((lo0 + hi0) / 2) as i64;
        let delta: i128 = mean as i128 - price as i128;
        let shift: i128 = floor_div(delta, 4);
        let explore: i128 = scale(mean, self.wobble);
        proof {
            lemma_scaled_share(mean as int, self.wobble as int);
            assert(mean == s.mean_belief());
            assert(shift == s.shift(price as int));
            assert(explore == s.explore());
        }
        let mut lo: i128 = lo0;
        let mut hi: i128 = hi0;
        if success {
            let threshold: i128 = scale(mean, self.significant);
            proof {
                lemma_scaled_share(mean as int, self.significant as int);
            }
            if (is_sell && delta > threshold) || (!is_sell && delta < -threshold) {
                lo = lo - shift;
                hi = hi - shift;
            }
            lo = lo + explore;
            hi = hi - explore;
            if lo > hi {
                let avg: i64 = floor_div(lo + hi, 2) as i64;
                lo = scale(avg, UNIT - self.wobble);
                hi = scale(avg, UNIT + self.wobble);
            }
            self.wobble = self.wobble / 2;
        } else {
            lo = lo - shift - explore;
            hi = hi - shift + explore;
        }
        if !(lo < hi) {
            lo = floor_div(hi, 2);
        }
        proof {
            let (slo, shi) = if success {
                s.bounds_after_success(is_sell, price as int)
            } else {
                s.bounds_after_rejection(price as int)
            };
            assert(hi == shi);
            assert(lo == repaired_min(slo, shi));
        }
        self.min_price_belief = saturate_wide(lo);
        self.max_price_belief = saturate_wide(hi);
        proof {
            lemma_normalized_of_saturated(
                StockView { min_belief: lo as int, max_belief: hi as int, ..self@ },
            );
        }
        self.sane_price_beliefs();
    }

    /// Buys `quant` items at `price`: takes them into the stock, works the
    /// purchase into the mean cost and learns from the trade. Returns the
    /// quantity that was accepted, which is all of it.
    pub fn buy(&mut self, quant: i64, price: i64) -> (accepted: i64)
        requires
            old(self).wf(),
        ensures
            final(self).wf(),
            final(self)@ == old(self)@.bought(quant as int, price as int),
            final(self)@.is_normal(),
            accepted == quant,
            final(self)@.mean_cost == old(self)@.mean_cost_after_buy(quant as int, price as int),
            final(self)@.quantity == saturate(old(self)@.quantity + accepted),
            final(self)@.max_quantity == old(self)@.max_quantity,
            old(self)@.quantity + accepted <= i64::MAX && old(self)@.quantity + accepted
                >= i64::MIN ==> final(self)@.quantity == old(self)@.quantity + accepted,
            old(self)@.quantity >= 0 && quant >= 0 ==> final(self)@.quantity >= old(
                self,
            )@.quantity,
    {
        let held: i128 = self.quantity as i128 + quant as i128;
        if held > 0 {
            proof {
                lemma_product_bound(self.mean_cost as int, self.quantity as int);
                lemma_product_bound(price as int, quant as int);
                if self.quantity > 0 {
                    lemma_product_bound_positive(self.mean_cost as int, self.quantity as int);
                } else {
                    lemma_product_bound_positive(price as int, quant as int);
                }
            }
            let total_cost: i128 = self.mean_cost as i128 * self.quantity as i128 + price as i128
                * quant as i128;
            self.mean_cost = saturate_wide(floor_div(total_cost, held));
        } else {
            self.mean_cost = price;
        }
        self.quantity = saturate_wide(self.quantity as i128 + quant as i128);
        self.update_price_belief(false, price, true);
        quant
    }

    /// Sells at `price`, leaving `quant` on record as the quantity, and
    /// learns from the trade. The quantity is replaced, not reduced: the
    /// caller says what the record shall hold.
    pub fn sell(&mut self, quant: i64, price: i64)
        requires
            old(self).wf(),
        ensures
            final(self).wf(),
            final(self)@ == old(self)@.sold(quant as int, price as int),
            final(self)@.is_normal(),
            final(self)@.quantity == quant,
    {
        self.quantity = quant;
        self.update_price_belief(true, price, true);
    }

    /// Quotes a price: brings the belief interval back to sanity and draws
    /// from it, both bounds included. Two quotes of one stock may differ.
    pub fn get_price(&mut self, rng: &mut StdRng) -> (price: i64)
        ensures
            final(self)@ == old(self)@.normalized(),
            final(self)@.is_normal(),
            final(self)@.min_belief <= price <= final(self)@.max_belief,
            old(self).wf() ==> final(self).wf(),
    {
        self.sane_price_beliefs();
        draw_between(rng, self.min_price_belief, self.max_price_belief)
    }

    /// The room that is left in the stock: nothing where it is full or
    /// overfull.
    pub fn deficit(&self) -> (room: i64)
        ensures
            room == self@.deficit(),
            room >= 0,
    {
        let room: i128 = self.max_quantity as i128 - self.quantity as i128;
        if room > 0 {
            saturate_wide(room)
        } else {
            0
        }
    }

    /// What the stock can sell: all that it holds.
    pub fn surplus(&self) -> (held: i64)
        ensures
            held == self@.surplus(),
    {
        self.quantity
    }

    /// The commodity that is stocked.
    pub fn commodity(&self) -> (kind: CommodityKind)
        ensures
            kind == self@.commodity,
    {
        self.commodity
    }

    /// The quantity on record.
    pub fn quantity(&self) -> (quantity: i64)
        ensures
            quantity == self@.quantity,
    {
        self.quantity
    }

    /// The quantity for which the stock has room.
    pub fn max_quantity(&self) -> (max_quantity: i64)
        ensures
            max_quantity == self@.max_quantity,
    {
        self.max_quantity
    }

    /// The mean price that the stock was bought at.
    pub fn mean_cost(&self) -> (mean_cost: i64)
        ensures
            mean_cost == self@.mean_cost,
    {
        self.mean_cost
    }

    /// The lower bound of the belief interval.
    pub fn min_price_belief(&self) -> (min_belief: i64)
        ensures
            min_belief == self@.min_belief,
    {
        self.min_price_belief
    }

    /// The upper bound of the belief interval.
    pub fn max_price_belief(&self) -> (max_belief: i64)
        ensures
            max_belief == self@.max_belief,
    {
        self.max_price_belief
    }

    /// The share of the mean belief by which the stock explores.
    pub fn wobble(&self) -> (wobble: i64)
        ensures
            wobble == self@.wobble,
    {
        self.wobble
    }

    /// What one round of production yields.
    pub fn production(&self) -> (production: i64)
        ensures
            production == self@.production,
    {
        self.production
    }

    /// The price below which the stock does not believe: what an item costs
    /// to make.
    pub fn cost(&self) -> (cost: i64)
        ensures
            cost == self@.cost,
    {
        self.cost
    }

    /// The share of the mean belief beyond which a price disagrees strongly
    /// with the beliefs.
    pub fn significant(&self) -> (significant: i64)
        ensures
            significant == self@.significant,
    {
        self.significant
    }

    /// The share of imbalance between bids and asks that counts as
    /// significant.
    pub fn sig_imbalance(&self) -> (sig_imbalance: i64)
        ensures
            sig_imbalance == self@.sig_imbalance,
    {
        self.sig_imbalance
    }

    /// The share of the room below which the stock counts as low.
    pub fn low_inventory(&self) -> (low_inventory: i64)
        ensures
            low_inventory == self@.low_inventory,
    {
        self.low_inventory
    }

    /// The share of the room above which the stock counts as high.
    pub fn high_inventory(&self) -> (high_inventory: i64)
        ensures
            high_inventory == self@.high_inventory,
    {
        self.high_inventory
    }

    /// The prices at which the stock was traded.
    pub fn price_history(&self) -> (history: &History)
        ensures
            history@ == self@.history,
            self.wf() ==> history.wf(),
    {
        &self.price_history
    }
}

/// A share of a positive amount, taken by a ratio between nothing and the
/// whole, lies between nothing and that amount.
pub proof fn lemma_scaled_share(x: int, ratio: int)
    requires
        0 <= x,
        0 <= ratio <= UNIT,
    ensures
        0 <= scaled(x, ratio) <= x,
{
    assert(0 <= x * ratio <= x * UNIT) by (nonlinear_arith)
        requires
            0 <= x,
            0 <= ratio <= UNIT,
    ;
    vstd::arithmetic::div_mod::lemma_div_is_ordered(0, x * ratio, UNIT as int);
    vstd::arithmetic::div_mod::lemma_div_is_ordered(x * ratio, x * UNIT, UNIT as int);
    vstd::arithmetic::div_mod::lemma_div_multiples_vanish(x, UNIT as int);
    assert(x * UNIT == UNIT * x) by (nonlinear_arith);
}

/// Normalising does not tell bounds that were first saturated to `i64` from
/// the bounds themselves.
pub proof fn lemma_normalized_of_saturated(stock: StockView)
    requires
        i64::MIN <= stock.cost <= i64::MAX,
    ensures
        (StockView {
            min_belief: saturate(stock.min_belief),
            max_belief: saturate(stock.max_belief),
            ..stock
        }).normalized() == stock.normalized(),
{
}

/// Whatever a stock held before, its beliefs are normal once they were
/// normalised, and so they are after every trade that it learned from,
/// bought or sold: the interval is ordered and lies within the price limits.
pub proof fn beliefs_are_normal_after_every_update(
    stock: StockView,
    is_sell: bool,
    price: int,
    success: bool,
    quant: int,
)
    ensures
        stock.normalized().is_normal(),
        stock.after_update(is_sell, price, success).is_normal(),
        stock.bought(quant, price).is_normal(),
        stock.sold(quant, price).is_normal(),
{
    lemma_normalized_is_normal(stock);
    let s = stock.normalized();
    let (lo, hi) = if success {
        s.bounds_after_success(is_sell, price)
    } else {
        s.bounds_after_rejection(price)
    };
    lemma_normalized_is_normal(
        StockView {
            min_belief: repaired_min(lo, hi),
            max_belief: hi,
            wobble: if success {
                s.wobble / 2
            } else {
                s.wobble
            },
            history: s.history.push(price),
            ..s
        },
    );
    let stocked = StockView {
        mean_cost: stock.mean_cost_after_buy(quant, price),
        quantity: saturate(stock.quantity + quant),
        ..stock
    };
    let sb = stocked.normalized();
    let (blo, bhi) = sb.bounds_after_success(false, price);
    lemma_normalized_is_normal(
        StockView {
            min_belief: repaired_min(blo, bhi),
            max_belief: bhi,
            wobble: sb.wobble / 2,
            history: sb.history.push(price),
            ..sb
        },
    );
    let emptied = StockView { quantity: quant, ..stock };
    let ss = emptied.normalized();
    let (slo, shi) = ss.bounds_after_success(true, price);
    lemma_normalized_is_normal(
        StockView {
            min_belief: repaired_min(slo, shi),
            max_belief: shi,
            wobble: ss.wobble / 2,
            history: ss.history.push(price),
            ..ss
        },
    );
}

/// Normalised beliefs are normal.
pub proof fn lemma_normalized_is_normal(stock: StockView)
    ensures
        stock.normalized().is_normal(),
{
}

/// A purchase of a quantity that is not negative leaves no negative
/// quantity in a stock that held none: the quantity grows by what was bought,
/// up to the end of `i64`, where it stays. The room that is left is what the
/// new quantity leaves of the stock's room, and never negative. A sale leaves
/// on record the quantity that it was told, so that the record is not
/// negative where that quantity is not.
pub proof fn quantity_stays_nonnegative(stock: StockView, quant: int, price: int)
    requires
        0 <= stock.quantity <= i64::MAX,
        quant >= 0,
    ensures
        stock.bought(quant, price).quantity == saturate(stock.quantity + quant),
        stock.quantity + quant <= i64::MAX ==> stock.bought(quant, price).quantity
            == stock.quantity + quant,
        stock.bought(quant, price).quantity >= stock.quantity,
        stock.bought(quant, price).quantity >= 0,
        stock.bought(quant, price).max_quantity == stock.max_quantity,
        stock.bought(quant, price).deficit() == saturate(
            larger(0, stock.max_quantity - stock.bought(quant, price).quantity),
        ),
        stock.bought(quant, price).deficit() >= 0,
        stock.sold(quant, price).quantity == quant,
{
}

/// The mean cost after a purchase is an average of the old mean cost and
/// the price: where the stock held no negative quantity and what was bought
/// is not negative, it lies between the two, and it is the price for a stock
/// that held nothing and the old mean cost where nothing was bought.
pub proof fn mean_cost_is_a_weighted_average(stock: StockView, quant: int, price: int)
    requires
        stock.quantity >= 0,
        quant >= 0,
        i64::MIN <= stock.mean_cost <= i64::MAX,
        i64::MIN <= price <= i64::MAX,
    ensures
        smaller(stock.mean_cost, price) <= stock.mean_cost_after_buy(quant, price) <= larger(
            stock.mean_cost,
            price,
        ) || stock.quantity + quant == 0,
        stock.quantity == 0 ==> stock.mean_cost_after_buy(quant, price) == price,
        quant == 0 && stock.quantity > 0 ==> stock.mean_cost_after_buy(quant, price)
            == stock.mean_cost,
        stock.bought(quant, price).mean_cost == stock.mean_cost_after_buy(quant, price),
{
    let held = stock.quantity + quant;
    if held > 0 {
        let low = smaller(stock.mean_cost, price);
        let high = larger(stock.mean_cost, price);
        let total = stock.mean_cost * stock.quantity + price * quant;
        assert(low * held <= total <= high * held) by (nonlinear_arith)
            requires
                low <= stock.mean_cost <= high,
                low <= price <= high,
                stock.quantity >= 0,
                quant >= 0,
                held == stock.quantity + quant,
                total == stock.mean_cost * stock.quantity + price * quant,
        ;
        vstd::arithmetic::div_mod::lemma_div_is_ordered(low * held, total, held);
        vstd::arithmetic::div_mod::lemma_div_is_ordered(total, high * held, held);
        vstd::arithmetic::div_mod::lemma_div_multiples_vanish(low, held);
        vstd::arithmetic::div_mod::lemma_div_multiples_vanish(high, held);
        assert(low * held == held * low) by (nonlinear_arith);
        assert(high * held == held * high) by (nonlinear_arith);
        if stock.quantity == 0 {
            assert(total == price * held) by (nonlinear_arith)
                requires
                    stock.quantity == 0,
                    held == quant,
                    total == stock.mean_cost * stock.quantity + price * quant,
            ;
            vstd::arithmetic::div_mod::lemma_div_multiples_vanish(price, held);
            assert(price * held == held * price) by (nonlinear_arith);
        }
        if quant == 0 {
            assert(total == stock.mean_cost * held) by (nonlinear_arith)
                requires
                    quant == 0,
                    held == stock.quantity,
                    total == stock.mean_cost * stock.quantity + price * quant,
            ;
            vstd::arithmetic::div_mod::lemma_div_multiples_vanish(stock.mean_cost, held);
            assert(stock.mean_cost * held == held * stock.mean_cost) by (nonlinear_arith);
        }
    }
}

/// A rejected order widens the belief interval: before the interval is
/// normalised, it is wider than the normal interval that the stock started
/// from by twice the exploration width. Normalising can narrow it again, but
/// only by raising the lower bound (to the cost or to the price floor) or by
/// lowering the upper bound (to the price ceiling): where it does neither,
/// the stock's interval after the rejection is no narrower than before.
pub proof fn rejection_widens_beliefs(stock: StockView, is_sell: bool, price: int)
    requires
        stock.wf(),
    ensures
        ({
            let s = stock.normalized();
            let (lo, hi) = s.bounds_after_rejection(price);
            let after = stock.after_update(is_sell, price, false);
            &&& s.explore() >= 0
            &&& hi - lo == (s.max_belief - s.min_belief) + 2 * s.explore()
            &&& lo == s.min_belief - s.shift(price) - s.explore()
            &&& hi == s.max_belief - s.shift(price) + s.explore()
            &&& after.wobble == stock.wobble
            &&& (after.min_belief <= repaired_min(lo, hi) && after.max_belief >= hi)
                ==> after.max_belief - after.min_belief >= s.max_belief - s.min_belief
        }),
{
    let s = stock.normalized();
    lemma_normalized_is_normal(stock);
    assert(0 <= s.mean_belief());
    lemma_scaled_share(s.mean_belief(), s.wobble);
    let (lo, hi) = s.bounds_after_rejection(price);
    let after = stock.after_update(is_sell, price, false);
    lemma_normalized_is_normal(
        StockView {
            min_belief: repaired_min(lo, hi),
            max_belief: hi,
            wobble: s.wobble,
            history: s.history.push(price),
            ..s
        },
    );
}

} // verus!

//! The catalog of tradeable goods.
//!
//! The kinds of goods are a fixed enumeration. Every table of the market and
//! every stockpile of an agent has one slot per kind, found by the kind's
//! index. Beside the kinds the catalog keeps, for each commodity that was
//! added to it, what the commodity is made from and a record of how it has
//! been doing: lists of bids, asks and prices with the average of their
//! latest entries. Prices and ratios count millionths (see [`crate::arith`]).

use crate::arith::{floor_div, larger, smaller, UNIT};
use vstd::arithmetic::div_mod::{lemma_div_is_ordered, lemma_div_multiples_vanish};
use vstd::prelude::*;

verus! {

/// A tradeable good: the seed or the crop of one of the four plants.
#[derive(Clone, Copy, PartialEq, Eq, Structural, Hash, Debug)]
pub enum CommodityKind {
    CarrotSeed,
    CarrotCrop,
    CornSeed,
    CornCrop,
    PotatoSeed,
    PotatoCrop,
    LettuceSeed,
    LettuceCrop,
}

impl CommodityKind {
    /// The number of kinds.
    pub const SIZE: usize = 8;

    /// The position of this kind in the catalog.
    pub open spec fn slot(self) -> int {
        match self {
            CommodityKind::CarrotSeed => 0,
            CommodityKind::CarrotCrop => 1,
            CommodityKind::CornSeed => 2,
            CommodityKind::CornCrop => 3,
            CommodityKind::PotatoSeed => 4,
            CommodityKind::PotatoCrop => 5,
            CommodityKind::LettuceSeed => 6,
            CommodityKind::LettuceCrop => 7,
        }
    }

    /// The kind that stands at position `i` of the catalog.
    pub open spec fn at(i: int) -> CommodityKind {
        if i == 0 {
            CommodityKind::CarrotSeed
        } else if i == 1 {
            CommodityKind::CarrotCrop
        } else if i == 2 {
            CommodityKind::CornSeed
        } else if i == 3 {
            CommodityKind::CornCrop
        } else if i == 4 {
            CommodityKind::PotatoSeed
        } else if i == 5 {
            CommodityKind::PotatoCrop
        } else if i == 6 {
            CommodityKind::LettuceSeed
        } else {
            CommodityKind::LettuceCrop
        }
    }

    /// The position of this kind, for use as an index into a table.
    pub fn index(self) -> (i: usize)
        ensures
            i == self.slot(),
            i < CommodityKind::SIZE,
    {
        match self {
            CommodityKind::CarrotSeed => 0,
            CommodityKind::CarrotCrop => 1,
            CommodityKind::CornSeed => 2,
            CommodityKind::CornCrop => 3,
            CommodityKind::PotatoSeed => 4,
            CommodityKind::PotatoCrop => 5,
            CommodityKind::LettuceSeed => 6,
            CommodityKind::LettuceCrop => 7,
        }
    }

    /// The kind at position `i`, or `None` where the catalog has no such
    /// position.
    pub fn from_index(i: usize) -> (kind: Option<CommodityKind>)
        ensures
            i < CommodityKind::SIZE ==> kind == Some(CommodityKind::at(i as int)),
            i >= CommodityKind::SIZE ==> kind.is_none(),
    {
        match i {
            0 => Some(CommodityKind::CarrotSeed),
            1 => Some(CommodityKind::CarrotCrop),
            2 => Some(CommodityKind::CornSeed),
            3 => Some(CommodityKind::CornCrop),
            4 => Some(CommodityKind::PotatoSeed),
            5 => Some(CommodityKind::PotatoCrop),
            6 => Some(CommodityKind::LettuceSeed),
            7 => Some(CommodityKind::LettuceCrop),
            _ => None,
        }
    }
}

/// Positions and kinds correspond one to one.
pub proof fn slots_and_kinds_correspond(kind: CommodityKind, i: int)
    ensures
        0 <= kind.slot() < CommodityKind::SIZE,
        CommodityKind::at(kind.slot()) == kind,
        0 <= i < CommodityKind::SIZE ==> CommodityKind::at(i).slot() == i,
{
}

/// The sum of the values at the positions `from` up to, not including, `to`.
pub open spec fn sum_between(values: Seq<int>, from: int, to: int) -> int
    decreases to - from,
{
    if from >= to {
        0
    } else {
        sum_between(values, from, to - 1) + values[to - 1]
    }
}

/// The average of the values at the positions `from` up to, not including,
/// `to`, rounded down.
pub open spec fn average_between(values: Seq<int>, from: int, to: int) -> int {
    sum_between(values, from, to) / (to - from)
}

/// A sum of values of `i64` is no further from nothing than as many times
/// the ends of `i64`.
pub proof fn lemma_sum_bounds(values: Seq<int>, from: int, to: int)
    requires
        0 <= from <= to <= values.len(),
        forall|i: int| 0 <= i < values.len() ==> i64::MIN <= #[trigger] values[i] <= i64::MAX,
    ensures
        (to - from) * i64::MIN <= sum_between(values, from, to) <= (to - from) * i64::MAX,
    decreases to - from,
{
    if from < to {
        lemma_sum_bounds(values, from, to - 1);
        assert((to - from) * i64::MIN == (to - 1 - from) * i64::MIN + i64::MIN) by (nonlinear_arith);
        assert((to - from) * i64::MAX == (to - 1 - from) * i64::MAX + i64::MAX) by (nonlinear_arith);
    } else {
        assert((to - from) * i64::MIN == 0);
        assert((to - from) * i64::MAX == 0);
    }
}

/// An average of values of `i64` is a value of `i64`.
pub proof fn lemma_average_bounds(values: Seq<int>, from: int, to: int)
    requires
        0 <= from < to <= values.len(),
        forall|i: int| 0 <= i < values.len() ==> i64::MIN <= #[trigger] values[i] <= i64::MAX,
    ensures
        i64::MIN <= average_between(values, from, to) <= i64::MAX,
{
    let n = to - from;
    let sum = sum_between(values, from, to);
    lemma_sum_bounds(values, from, to);
    lemma_div_is_ordered(n * i64::MIN, sum, n);
    lemma_div_is_ordered(sum, n * i64::MAX, n);
    lemma_div_multiples_vanish(i64::MIN as int, n);
    lemma_div_multiples_vanish(i64::MAX as int, n);
}

/// What an [`ESList`] holds, as mathematical values.
pub struct ESListView {
    /// The average that was last computed.
    pub avg: int,
    /// The entries, oldest first.
    pub values: Seq<int>,
}

impl ESListView {
    /// Where the window of `last_average` starts.
    pub open spec fn window_start(self, history: int) -> int {
        smaller(self.values.len() - 1, larger(0, self.values.len() - history))
    }

    /// Where the window of `last_average` ends.
    pub open spec fn window_end(self, history: int) -> int {
        smaller(self.values.len() - 1, history)
    }

    /// What `last_average` returns: nothing for an empty list, the average
    /// over the window where the window holds an entry, and else the average
    /// that was last computed.
    pub open spec fn last_average(self, history: int) -> int {
        if self.values.len() == 0 {
            0
        } else if self.window_start(history) < self.window_end(history) {
            average_between(self.values, self.window_start(history), self.window_end(history))
        } else {
            self.avg
        }
    }
}

/// The average of the entries `from` up to, not including, `to` of a list.
fn average_of(values: &Vec<i64>, from: usize, to: usize) -> (avg: i64)
    requires
        from < to <= values.len(),
    ensures
        avg == average_between(values@.map_values(|v: i64| v as int), from as int, to as int),
{
    let ghost ints = values@.map_values(|v: i64| v as int);
    let mut sum: i128 = 0;
    let mut x: usize = from;
    proof {
        assert((x - from) * i64::MIN == 0);
        assert((x - from) * i64::MAX == 0);
    }
    while x < to
        invariant
            from <= x <= to <= values.len(),
            ints == values@.map_values(|v: i64| v as int),
            sum == sum_between(ints, from as int, x as int),
            (x - from) * i64::MIN <= sum <= (x - from) * i64::MAX,
        decreases to - x,
    {
        proof {
            assert(ints[x as int] == values@[x as int]);
            assert((x + 1 - from) * i64::MIN == (x - from) * i64::MIN + i64::MIN)
                by (nonlinear_arith);
            assert((x + 1 - from) * i64::MAX == (x - from) * i64::MAX + i64::MAX)
                by (nonlinear_arith);
            assert((x - from) * i64::MIN >= usize::MAX * i64::MIN) by (nonlinear_arith)
                requires
                    0 <= x - from <= usize::MAX,
            ;
            assert((x - from) * i64::MAX <= usize::MAX * i64::MAX) by (nonlinear_arith)
                requires
                    0 <= x - from <= usize::MAX,
            ;
        }
        sum = sum + values[x] as i128;
        x += 1;
    }
    proof {
        lemma_average_bounds(ints, from as int, to as int);
    }
    floor_div(sum, (to - from) as i128) as i64
}

/// A growing list of numbers with the average of its latest entries.
pub struct ESList {
    avg: i64,
    eslist: Vec<i64>,
}

impl View for ESList {
    type V = ESListView;

    closed spec fn view(&self) -> ESListView {
        ESListView { avg: self.avg as int, values: self.eslist@.map_values(|v: i64| v as int) }
    }
}

impl ESList {
    /// An empty list.
    pub fn new() -> (list: ESList)
        ensures
            list@ == (ESListView { avg: 0, values: Seq::<int>::empty() }),
    {
        let list = ESList { avg: 0, eslist: Vec::new() };
        assert(list@.values =~= Seq::<int>::empty());
        list
    }

    /// The average over the window that `history` selects, which the list
    /// keeps; the average that it kept before where the window is empty, and
    /// nothing for an empty list.
    pub fn last_average(&mut self, history: i32) -> (avg: i64)
        ensures
            avg == old(self)@.last_average(history as int),
            final(self)@.values == old(self)@.values,
            final(self)@.avg == if old(self)@.values.len() == 0 {
                old(self)@.avg
            } else {
                avg as int
            },
    {
        let len: usize = self.eslist.len();
        if len == 0 {
            return 0;
        }
        let skip: usize = if history <= 0 {
            len - 1
        } else if history as usize >= len {
            0
        } else {
            let start: usize = len - history as usize;
            if start < len - 1 {
                start
            } else {
                len - 1
            }
        };
        let end: usize = if history <= 0 {
            0
        } else if (history as usize) < len - 1 {
            history as usize
        } else {
            len - 1
        };
        if skip < end {
            self.avg = average_of(&self.eslist, skip, end);
        }
        self.avg
    }

    /// The average of the entries `from` up to, not including, `to`, rounded
    /// down. There must be such an entry.
    pub fn average_over(&self, from: usize, to: usize) -> (avg: i64)
        requires
            from < to <= self@.values.len(),
        ensures
            avg == average_between(self@.values, from as int, to as int),
    {
        average_of(&self.eslist, from, to)
    }

    /// Appends a value.
    pub fn add(&mut self, val: i64)
        ensures
            final(self)@ == (ESListView {
                values: old(self)@.values.push(val as int),
                ..old(self)@
            }),
    {
        self.eslist.push(val);
        assert(self@.values =~= old(self)@.values.push(val as int));
    }

    /// The number of entries.
    pub fn count(&self) -> (n: usize)
        ensures
            n == self@.values.len(),
    {
        self.eslist.len()
    }
}

/// What a commodity is made from: the quantity needed of each ingredient.
pub struct Dependency {
    dependency_map: Vec<Option<i64>>,
}

impl View for Dependency {
    type V = Seq<Option<i64>>;

    closed spec fn view(&self) -> Seq<Option<i64>> {
        self.dependency_map@
    }
}

impl Dependency {
    /// There is one slot per kind.
    pub open spec fn wf(&self) -> bool {
        self@.len() == CommodityKind::SIZE
    }

    /// A commodity that is made from nothing.
    pub fn new() -> (dep: Dependency)
        ensures
            dep.wf(),
            forall|slot: int| 0 <= slot < CommodityKind::SIZE ==> (#[trigger] dep@[slot]).is_none(),
    {
        let mut dependency_map: Vec<Option<i64>> = Vec::with_capacity(CommodityKind::SIZE);
        let mut i: usize = 0;
        while i < CommodityKind::SIZE
            invariant
                i <= CommodityKind::SIZE,
                dependency_map.len() == i,
                forall|j: int| 0 <= j < i ==> (#[trigger] dependency_map[j]).is_none(),
            decreases CommodityKind::SIZE - i,
        {
            dependency_map.push(None);
            i += 1;
        }
        Dependency { dependency_map }
    }

    /// Notes that `quantity` of `kind` is needed, in place of what was noted
    /// for `kind` before.
    pub fn add(&mut self, kind: CommodityKind, quantity: i64)
        requires
            old(self).wf(),
        ensures
            final(self).wf(),
            final(self)@ == old(self)@.update(kind.slot(), Some(quantity)),
    {
        let idx: usize = kind.index();
        self.dependency_map[idx] = Some(quantity);
    }

    /// The quantity of `kind` that is needed, if any is.
    pub fn get(&self, kind: CommodityKind) -> (quantity: Option<i64>)
        requires
            self.wf(),
        ensures
            quantity == self@[kind.slot()],
    {
        self.dependency_map[kind.index()]
    }
}

/// What a [`Commodity`] holds, as mathematical values.
pub struct CommodityView {
    pub bids: ESListView,
    pub asks: ESListView,
    pub prices: ESListView,
    pub trades: ESListView,
    pub profits: ESListView,
    pub avg_price: int,
    pub first_avg_price: bool,
    pub kind: CommodityKind,
    pub price: int,
    pub demand: int,
    pub production: int,
    pub dep: Seq<Option<i64>>,
}

/// A record that holds nothing but a first entry of `1.0`.
pub open spec fn first_record() -> ESListView {
    ESListView { avg: 0, values: seq![UNIT as int] }
}

impl CommodityView {
    /// A commodity as it enters the catalog: every record holds a first
    /// entry of `1.0`, and price, average price and demand are `1.0`.
    pub open spec fn fresh(kind: CommodityKind, production: int, dep: Seq<Option<i64>>) -> CommodityView {
        CommodityView {
            bids: first_record(),
            asks: first_record(),
            prices: first_record(),
            trades: first_record(),
            profits: first_record(),
            avg_price: UNIT as int,
            first_avg_price: true,
            kind,
            price: UNIT as int,
            demand: UNIT as int,
            production,
            dep,
        }
    }

    /// The average price as `get_avg_price` gives it: the average of the
    /// latest `history` prices of the record where it has not been computed
    /// since the last update and there is such a price, and else the average
    /// price that is kept.
    pub open spec fn avg_price_over(self, history: int) -> int {
        let count = self.prices.values.len() as int;
        let skip = larger(count - history, 0);
        if self.first_avg_price && skip < count {
            average_between(self.prices.values, skip, count)
        } else {
            self.avg_price
        }
    }
}

/// One commodity of the catalog and its record on the market.
pub struct Commodity {
    bids: ESList,
    asks: ESList,
    prices: ESList,
    trades: ESList,
    profits: ESList,
    avg_price: i64,
    first_avg_price: bool,
    kind: CommodityKind,
    price: i64,
    demand: i64,
    production: i64,
    dep: Dependency,
}

impl View for Commodity {
    type V = CommodityView;

    closed spec fn view(&self) -> CommodityView {
        CommodityView {
            bids: self.bids@,
            asks: self.asks@,
            prices: self.prices@,
            trades: self.trades@,
            profits: self.profits@,
            avg_price: self.avg_price as int,
            first_avg_price: self.first_avg_price,
            kind: self.kind,
            price: self.price as int,
            demand: self.demand as int,
            production: self.production as int,
            dep: self.dep@,
        }
    }
}

/// A record with its first entry.
fn new_record() -> (list: ESList)
    ensures
        list@ == first_record(),
{
    let mut list = ESList::new();
    list.add(UNIT);
    assert(list@.values =~= seq![UNIT as int]);
    list
}

impl Commodity {
    /// A commodity of kind `n` that yields `p` in a round of production and
    /// is made from `d`.
    pub fn new(n: CommodityKind, p: i64, d: Dependency) -> (commodity: Commodity)
        ensures
            commodity@ == CommodityView::fresh(n, p as int, d@),
    {
        Commodity {
            bids: new_record(),
            asks: new_record(),
            prices: new_record(),
            trades: new_record(),
            profits: new_record(),
            avg_price: UNIT,
            first_avg_price: true,
            kind: n,
            price: UNIT,
            demand: UNIT,
            production: p,
            dep: d,
        }
    }

    /// The average of the latest `history` prices of the record. It is
    /// computed once after each update and kept.
    pub fn get_avg_price(&mut self, history: i32) -> (avg: i64)
        ensures
            avg == old(self)@.avg_price_over(history as int),
            final(self)@ == (CommodityView {
                avg_price: avg as int,
                first_avg_price: false,
                ..old(self)@
            }),
    {
        if self.first_avg_price {
            self.first_avg_price = false;
            let end: usize = self.prices.count();
            let skip: usize = if history <= 0 {
                end
            } else if history as usize >= end {
                0
            } else {
                end - history as usize
            };
            if skip < end {
                self.avg_price = self.prices.average_over(skip, end);
            }
        }
        self.avg_price
    }

    /// Sets the price and the demand of the day, so that the average price
    /// is computed anew when it is next asked for.
    pub fn update(&mut self, p: i64, dem: i64)
        ensures
            final(self)@ == (CommodityView {
                first_avg_price: true,
                price: p as int,
                demand: dem as int,
                ..old(self)@
            }),
    {
        self.first_avg_price = true;
        self.price = p;
        self.demand = dem;
    }

    /// The price of the day.
    pub fn get_price(&self) -> (price: i64)
        ensures
            price == self@.price,
    {
        self.price
    }

    /// Records a bid.
    pub fn add_bid(&mut self, new_val: i64)
        ensures
            final(self)@ == (CommodityView {
                bids: ESListView {
                    values: old(self)@.bids.values.push(new_val as int),
                    ..old(self)@.bids
                },
                ..old(self)@
            }),
    {
        self.bids.add(new_val);
    }

    /// Records an ask.
    pub fn add_ask(&mut self, new_val: i64)
        ensures
            final(self)@ == (CommodityView {
                asks: ESListView {
                    values: old(self)@.asks.values.push(new_val as int),
                    ..old(self)@.asks
                },
                ..old(self)@
            }),
    {
        self.asks.add(new_val);
    }

    /// The kind of the commodity.
    pub fn kind(&self) -> (kind: CommodityKind)
        ensures
            kind == self@.kind,
    {
        self.kind
    }

    /// The demand of the day.
    pub fn demand(&self) -> (demand: i64)
        ensures
            demand == self@.demand,
    {
        self.demand
    }

    /// What one round of production yields.
    pub fn production(&self) -> (production: i64)
        ensures
            production == self@.production,
    {
        self.production
    }

    /// What the commodity is made from.
    pub fn dependency(&self) -> (dep: &Dependency)
        ensures
            dep@ == self@.dep,
    {
        &self.dep
    }
}

/// The view of a slot of the catalog.
pub open spec fn entry_view(entry: Option<Commodity>) -> Option<CommodityView> {
    match entry {
        Some(commodity) => Some(commodity@),
        None => None,
    }
}

/// The catalog: one entry per commodity that was added.
pub struct Commodities {
    com: Vec<Option<Commodity>>,
}

impl View for Commodities {
    type V = Seq<Option<CommodityView>>;

    closed spec fn view(&self) -> Seq<Option<CommodityView>> {
        self.com@.map_values(|entry: Option<Commodity>| entry_view(entry))
    }
}

impl Commodities {
    /// There is one slot per kind.
    pub open spec fn wf(&self) -> bool {
        self@.len() == CommodityKind::SIZE
    }

    /// A catalog without entries.
    pub fn new() -> (catalog: Commodities)
        ensures
            catalog.wf(),
            forall|slot: int|
                0 <= slot < CommodityKind::SIZE ==> (#[trigger] catalog@[slot]).is_none(),
    {
        let mut com: Vec<Option<Commodity>> = Vec::with_capacity(CommodityKind::SIZE);
        let mut i: usize = 0;
        while i < CommodityKind::SIZE
            invariant
                i <= CommodityKind::SIZE,
                com.len() == i,
                forall|j: int| 0 <= j < i ==> (#[trigger] com[j]).is_none(),
            decreases CommodityKind::SIZE - i,
        {
            com.push(None);
            i += 1;
        }
        Commodities { com }
    }

    /// Adds the commodity `kind` to the catalog, unless the catalog has it
    /// already. Returns whether it was added.
    pub fn add(&mut self, kind: CommodityKind, production: i64, dep: Dependency) -> (added: bool)
        requires
            old(self).wf(),
        ensures
            final(self).wf(),
            added == old(self)@[kind.slot()].is_none(),
            added ==> final(self)@ == old(self)@.update(
                kind.slot(),
                Some(CommodityView::fresh(kind, production as int, dep@)),
            ),
            !added ==> final(self)@ == old(self)@,
    {
        let idx: usize = kind.index();
        if self.com[idx].is_some() {
            return false;
        }
        let commodity = Commodity::new(kind, production, dep);
        self.com[idx] = Some(commodity);
        proof {
            assert(self@ =~= old(self)@.update(
                kind.slot(),
                Some(CommodityView::fresh(kind, production as int, dep@)),
            ));
        }
        true
    }

    /// Lends out the entry of `kind`, if the catalog has one, to be changed.
    pub fn get_mut(&mut self, kind: CommodityKind) -> (entry: Option<&mut Commodity>)
        requires
            old(self).wf(),
        ensures
            entry.is_some() == old(self)@[kind.slot()].is_some(),
            entry.is_some() ==> Some(entry.unwrap()@) == old(self)@[kind.slot()],
            entry.is_some() ==> final(self)@ == old(self)@.update(
                kind.slot(),
                Some(final(entry.unwrap())@),
            ),
            entry.is_none() ==> final(self)@ == old(self)@,
    {
        let idx: usize = kind.index();
        match &mut self.com[idx] {
            Some(commodity) => Some(commodity),
            None => None,
        }
    }

    /// The entry of `kind`, if the catalog has one.
    pub fn get(&self, kind: CommodityKind) -> (entry: Option<&Commodity>)
        requires
            self.wf(),
        ensures
            entry.is_some() == self@[kind.slot()].is_some(),
            entry.is_some() ==> Some(entry.unwrap()@) == self@[kind.slot()],
    {
        self.com[kind.index()].as_ref()
    }
}

} // verus!

use farmers_market::agent::EconAgent;
use farmers_market::arith::UNIT;
use farmers_market::commodities::CommodityKind;
use farmers_market::market_house::{
    match_orders, midpoint, orders_are_valid, MarketHouse, Requeue, TradeTable,
};
use farmers_market::trade_house::{Trade, TradeSubmission};
use rand::rngs::StdRng;
use rand::SeedableRng;

const CARROT: CommodityKind = CommodityKind::CarrotCrop;

/// `n` agents without cash, each with an empty stock of carrot crops that
/// has room for a hundred and is worth 10.0.
fn traders(n: usize) -> Vec<EconAgent> {
    let mut agents = Vec::new();
    for _ in 0..n {
        let mut agent = EconAgent::new();
        agent.add_to_stock_pile(CARROT, 0, 100, 10 * UNIT, UNIT);
        agents.push(agent);
    }
    agents
}

fn order(price: i64, quantity: i64, agent_idx: usize) -> Trade {
    Trade::new(CARROT, price, quantity, agent_idx)
}

fn submission(trade: Trade) -> TradeSubmission {
    let mut s = TradeSubmission::new();
    s.add(trade.commodity, trade);
    s
}

fn quantity_of(agent: &EconAgent) -> i64 {
    agent.stock(CARROT).unwrap().quantity()
}

fn trades_seen(agent: &EconAgent) -> usize {
    agent.stock(CARROT).unwrap().price_history().len() - 1
}

#[test]
fn trade_new_and_reduce() {
    let mut trade = Trade::new(CommodityKind::PotatoSeed, 3 * UNIT, 9, 2);
    assert_eq!(trade.commodity, CommodityKind::PotatoSeed);
    assert_eq!(trade.price, 3 * UNIT);
    assert_eq!(trade.quantity, 9);
    assert_eq!(trade.agent_idx, 2);
    trade.reduce(4);
    assert_eq!(trade.quantity, 5);
    trade.reduce(5);
    assert_eq!(trade.quantity, 0);
    trade.reduce(i64::MAX);
    trade.reduce(i64::MAX);
    assert_eq!(trade.quantity, i64::MIN);
}

#[test]
fn a_submission_holds_one_order_per_commodity() {
    let mut s = TradeSubmission::new();
    for i in 0..CommodityKind::SIZE {
        assert!(s.get(CommodityKind::from_index(i).unwrap()).is_none());
    }
    s.add(CARROT, order(UNIT, 1, 0));
    s.add(CARROT, order(2 * UNIT, 7, 0));
    assert_eq!(s.get(CARROT), Some(order(2 * UNIT, 7, 0)));
    assert!(s.get(CommodityKind::CarrotSeed).is_none());
}

#[test]
fn midpoint_lies_between_ask_and_bid() {
    assert_eq!(midpoint(&order(10 * UNIT, 1, 0), &order(6 * UNIT, 1, 1)), 8 * UNIT);
    assert_eq!(midpoint(&order(7, 1, 0), &order(4, 1, 1)), 5);
    assert_eq!(midpoint(&order(-7, 1, 0), &order(-8, 1, 1)), -8);
    assert_eq!(midpoint(&order(i64::MAX, 1, 0), &order(i64::MAX, 1, 1)), i64::MAX);
    assert_eq!(midpoint(&order(i64::MIN, 1, 0), &order(i64::MIN, 1, 1)), i64::MIN);
    for (bid, ask) in [(10, 6), (9, 9), (1_000_001, 2), (0, -5)] {
        let p = midpoint(&order(bid, 1, 0), &order(ask, 1, 1));
        assert!(ask <= p && p <= bid);
    }
}

#[test]
fn table_push_pop_clear() {
    let mut table = TradeTable::new();
    assert!(table.is_empty(CARROT));
    table.push(CARROT, order(UNIT, 1, 0));
    table.push(CARROT, order(2 * UNIT, 2, 1));
    table.push(CommodityKind::CornSeed, Trade::new(CommodityKind::CornSeed, UNIT, 3, 2));
    assert_eq!(table.len(CARROT), 2);
    assert_eq!(table.pop(CARROT), order(2 * UNIT, 2, 1));
    assert_eq!(table.len(CARROT), 1);
    table.clear(CARROT);
    assert!(table.is_empty(CARROT));
    assert_eq!(table.len(CommodityKind::CornSeed), 1);
}

#[test]
fn table_add_appends_by_slot() {
    let mut table = TradeTable::new();
    table.add(submission(order(UNIT, 1, 0)));
    table.add(submission(order(2 * UNIT, 2, 1)));
    let mut mixed = TradeSubmission::new();
    mixed.add(CommodityKind::CornSeed, Trade::new(CommodityKind::CornSeed, UNIT, 3, 2));
    mixed.add(CARROT, order(3 * UNIT, 3, 2));
    table.add(mixed);
    table.add(TradeSubmission::new());
    assert_eq!(table.len(CARROT), 3);
    assert_eq!(table.len(CommodityKind::CornSeed), 1);
    assert_eq!(table.len(CommodityKind::CornCrop), 0);
    assert_eq!(table.pop(CARROT), order(3 * UNIT, 3, 2));
    assert_eq!(table.pop(CARROT), order(2 * UNIT, 2, 1));
    assert_eq!(table.pop(CARROT), order(UNIT, 1, 0));
}

#[test]
fn sort_asc_puts_the_highest_last() {
    let mut table = TradeTable::new();
    let prices = [5, 1, 9, 3, 9, -2, 7, 0, 4];
    for (i, &p) in prices.iter().enumerate() {
        table.push(CARROT, order(p, 1, i));
    }
    table.sort_asc(CARROT);
    let mut popped = Vec::new();
    while !table.is_empty(CARROT) {
        popped.push(table.pop(CARROT));
    }
    let got: Vec<i64> = popped.iter().map(|t| t.price).collect();
    assert_eq!(got, vec![9, 9, 7, 5, 4, 3, 1, 0, -2]);
    let mut who: Vec<usize> = popped.iter().map(|t| t.agent_idx).collect();
    who.sort();
    assert_eq!(who, (0..prices.len()).collect::<Vec<usize>>());
}

#[test]
fn sort_desc_puts_the_lowest_last() {
    let mut table = TradeTable::new();
    let prices = [5, 1, 9, 3, 9, -2, 7, 0, 4];
    for (i, &p) in prices.iter().enumerate() {
        table.push(CARROT, order(p, 1, i));
    }
    table.push(CommodityKind::CornSeed, Trade::new(CommodityKind::CornSeed, 8, 1, 0));
    table.push(CommodityKind::CornSeed, Trade::new(CommodityKind::CornSeed, 2, 1, 1));
    table.sort_desc(CARROT);
    let mut got = Vec::new();
    while !table.is_empty(CARROT) {
        got.push(table.pop(CARROT).price);
    }
    assert_eq!(got, vec![-2, 0, 1, 3, 4, 5, 7, 9, 9]);
    // The other lists were left alone.
    assert_eq!(table.pop(CommodityKind::CornSeed).price, 2);
    assert_eq!(table.pop(CommodityKind::CornSeed).price, 8);
}

#[test]
fn shuffle_keeps_the_orders_and_changes_their_order() {
    let mut rng = StdRng::seed_from_u64(31);
    let mut table = TradeTable::new();
    for i in 0..60 {
        table.push(CARROT, order(UNIT, 1, i));
    }
    table.shuffle(CARROT, &mut rng);
    assert_eq!(table.len(CARROT), 60);
    let mut who = Vec::new();
    while !table.is_empty(CARROT) {
        who.push(table.pop(CARROT).agent_idx);
    }
    who.reverse();
    assert_ne!(who, (0..60).collect::<Vec<usize>>());
    who.sort();
    assert_eq!(who, (0..60).collect::<Vec<usize>>());
}

#[test]
fn a_bid_of_ten_and_an_ask_of_six_clear_at_eight() {
    for requeue in [Requeue::SameSide, Requeue::Swapped] {
        let mut agents = traders(2);
        let mut bids = vec![order(10 * UNIT, 5, 0)];
        let mut asks = vec![order(6 * UNIT, 5, 1)];
        match_orders(&mut bids, &mut asks, &mut agents, CARROT, requeue);
        assert!(bids.is_empty());
        assert!(asks.is_empty());
        assert_eq!(agents[0].cash(), -40 * UNIT);
        assert_eq!(agents[1].cash(), 40 * UNIT);
        assert_eq!(quantity_of(&agents[0]), 5);
        // The seller's stock puts the five on record as given away.
        assert_eq!(quantity_of(&agents[1]), -5);
        assert_eq!(agents[0].stock(CARROT).unwrap().price_history().get(1), Some(8 * UNIT));
        assert_eq!(agents[1].stock(CARROT).unwrap().price_history().get(1), Some(8 * UNIT));
        assert_eq!(agents[0].stock(CARROT).unwrap().mean_cost(), 8 * UNIT);
    }
}

#[test]
fn the_market_clears_a_bid_of_ten_and_an_ask_of_six_at_eight() {
    for requeue in [Requeue::SameSide, Requeue::Swapped] {
        let mut rng = StdRng::seed_from_u64(17);
        let mut agents = traders(2);
        let mut market = MarketHouse::with_requeue(requeue);
        assert_eq!(market.requeue_policy(), requeue);
        market.submit_bids(submission(order(10 * UNIT, 5, 0)));
        market.submit_asks(submission(order(6 * UNIT, 5, 1)));
        assert_eq!(market.bid_count(CARROT), 1);
        assert_eq!(market.ask_count(CARROT), 1);
        assert!(market.can_resolve(&agents));
        market.resolve_all(&mut agents, &mut rng);
        assert_eq!(market.bid_count(CARROT), 0);
        assert_eq!(market.ask_count(CARROT), 0);
        assert_eq!(agents[0].cash(), -40 * UNIT);
        assert_eq!(agents[1].cash(), 40 * UNIT);
        assert_eq!(quantity_of(&agents[0]), 5);
        assert_eq!(quantity_of(&agents[1]), -5);
    }
}

#[test]
fn a_bid_below_the_ask_does_not_trade() {
    for requeue in [Requeue::SameSide, Requeue::Swapped] {
        let mut agents = traders(2);
        let mut bids = vec![order(5 * UNIT, 4, 0)];
        let mut asks = vec![order(10 * UNIT, 4, 1)];
        match_orders(&mut bids, &mut asks, &mut agents, CARROT, requeue);
        assert!(bids.is_empty());
        assert!(asks.is_empty());

        let mut rng = StdRng::seed_from_u64(3);
        let mut market = MarketHouse::with_requeue(requeue);
        market.submit_bids(submission(order(5 * UNIT, 4, 0)));
        market.submit_asks(submission(order(10 * UNIT, 4, 1)));
        market.resolve_all(&mut agents, &mut rng);
        assert_eq!(market.bid_count(CARROT), 0);
        assert_eq!(market.ask_count(CARROT), 0);
        for agent in agents.iter() {
            assert_eq!(agent.cash(), 0);
            assert_eq!(quantity_of(agent), 0);
            assert_eq!(trades_seen(agent), 0);
            assert_eq!(agent.stock(CARROT).unwrap().min_price_belief(), 5 * UNIT);
            assert_eq!(agent.stock(CARROT).unwrap().max_price_belief(), 20 * UNIT);
        }
    }
}

#[test]
fn what_is_left_of_an_ask_goes_back_to_the_asks() {
    let mut agents = traders(2);
    let mut bids = vec![order(10 * UNIT, 3, 0)];
    let mut asks = vec![order(6 * UNIT, 10, 1)];
    match_orders(&mut bids, &mut asks, &mut agents, CARROT, Requeue::SameSide);
    assert!(bids.is_empty());
    assert_eq!(asks, vec![order(6 * UNIT, 7, 1)]);
    assert_eq!(agents[0].cash(), -24 * UNIT);
    assert_eq!(agents[1].cash(), 24 * UNIT);
    assert_eq!(quantity_of(&agents[0]), 3);
    assert_eq!(quantity_of(&agents[1]), -3);
}

#[test]
fn what_is_left_of_an_ask_goes_to_the_bids_when_swapped() {
    let mut agents = traders(2);
    let mut bids = vec![order(10 * UNIT, 3, 0)];
    let mut asks = vec![order(6 * UNIT, 10, 1)];
    match_orders(&mut bids, &mut asks, &mut agents, CARROT, Requeue::Swapped);
    assert_eq!(bids, vec![order(6 * UNIT, 7, 1)]);
    assert!(asks.is_empty());
    assert_eq!(agents[0].cash(), -24 * UNIT);
    assert_eq!(agents[1].cash(), 24 * UNIT);
    assert_eq!(quantity_of(&agents[0]), 3);
    assert_eq!(quantity_of(&agents[1]), -3);
}

#[test]
fn the_market_discards_what_is_left_under_either_policy() {
    for requeue in [Requeue::SameSide, Requeue::Swapped] {
        let mut rng = StdRng::seed_from_u64(8);
        let mut agents = traders(2);
        let mut market = MarketHouse::with_requeue(requeue);
        market.submit_bids(submission(order(10 * UNIT, 3, 0)));
        market.submit_asks(submission(order(6 * UNIT, 10, 1)));
        market.resolve(CARROT, &mut agents, &mut rng);
        assert_eq!(market.bid_count(CARROT), 0);
        assert_eq!(market.ask_count(CARROT), 0);
        assert_eq!(agents[0].cash(), -24 * UNIT);
        assert_eq!(agents[1].cash(), 24 * UNIT);
        assert_eq!(trades_seen(&agents[0]), 1);
        assert_eq!(trades_seen(&agents[1]), 1);
    }
}

#[test]
fn what_is_left_of_a_bid_meets_the_next_ask() {
    // The bid of ten takes four from the lowest ask and six from the next.
    let mut agents = traders(3);
    let mut bids = vec![order(10 * UNIT, 10, 0)];
    let mut asks = vec![order(8 * UNIT, 9, 2), order(6 * UNIT, 4, 1)];
    match_orders(&mut bids, &mut asks, &mut agents, CARROT, Requeue::SameSide);
    assert!(bids.is_empty());
    assert_eq!(asks, vec![order(8 * UNIT, 3, 2)]);
    assert_eq!(agents[0].cash(), -(4 * 8 + 6 * 9) * UNIT);
    assert_eq!(agents[1].cash(), 4 * 8 * UNIT);
    assert_eq!(agents[2].cash(), 6 * 9 * UNIT);
    assert_eq!(quantity_of(&agents[0]), 10);
}

#[test]
fn swapped_plays_what_is_left_of_a_bid_as_an_ask() {
    // What is left of the bid of ten is played as an ask at 10.0, which the
    // next bid, at 9.0, does not meet: both are dropped.
    let mut agents = traders(4);
    let mut bids = vec![order(9 * UNIT, 2, 3), order(10 * UNIT, 10, 0)];
    let mut asks = vec![order(8 * UNIT, 9, 2), order(6 * UNIT, 4, 1)];
    match_orders(&mut bids, &mut asks, &mut agents, CARROT, Requeue::Swapped);
    assert!(bids.is_empty());
    assert_eq!(asks, vec![order(8 * UNIT, 9, 2)]);
    assert_eq!(agents[0].cash(), -32 * UNIT);
    assert_eq!(agents[1].cash(), 32 * UNIT);
    assert_eq!(agents[2].cash(), 0);
    assert_eq!(agents[3].cash(), 0);
}

#[test]
fn orders_without_quantity_trade_nothing() {
    let mut agents = traders(2);
    let mut bids = vec![order(10 * UNIT, 0, 0), order(10 * UNIT, -4, 0)];
    let mut asks = vec![order(6 * UNIT, 5, 1)];
    match_orders(&mut bids, &mut asks, &mut agents, CARROT, Requeue::SameSide);
    assert!(bids.is_empty());
    assert_eq!(asks, vec![order(6 * UNIT, 5, 1)]);
    assert_eq!(agents[0].cash(), 0);
    assert_eq!(agents[1].cash(), 0);
    assert_eq!(trades_seen(&agents[0]), 0);
}

#[test]
fn an_agent_can_trade_with_itself() {
    let mut agents = traders(1);
    let mut bids = vec![order(10 * UNIT, 5, 0)];
    let mut asks = vec![order(6 * UNIT, 5, 0)];
    match_orders(&mut bids, &mut asks, &mut agents, CARROT, Requeue::SameSide);
    assert_eq!(agents[0].cash(), 0);
    assert_eq!(quantity_of(&agents[0]), -5);
    assert_eq!(trades_seen(&agents[0]), 2);
}

#[test]
fn the_rounds_leave_a_side_empty_and_move_cash_only() {
    for requeue in [Requeue::SameSide, Requeue::Swapped] {
        let mut rng = StdRng::seed_from_u64(77);
        let n: usize = 40;
        let mut agents = traders(n);
        let mut table_bids = TradeTable::new();
        let mut table_asks = TradeTable::new();
        for i in 0..n {
            let price = (3 + (i as i64 * 7) % 11) * UNIT;
            let quantity = 1 + (i as i64 * 5) % 9;
            if i % 2 == 0 {
                table_bids.push(CARROT, order(price, quantity, i));
            } else {
                table_asks.push(CARROT, order(price, quantity, i));
            }
        }
        table_bids.shuffle(CARROT, &mut rng);
        table_asks.shuffle(CARROT, &mut rng);
        table_bids.sort_asc(CARROT);
        table_asks.sort_desc(CARROT);
        let mut bids = Vec::new();
        while !table_bids.is_empty(CARROT) {
            bids.push(table_bids.pop(CARROT));
        }
        bids.reverse();
        let mut asks = Vec::new();
        while !table_asks.is_empty(CARROT) {
            asks.push(table_asks.pop(CARROT));
        }
        asks.reverse();
        assert!(orders_are_valid(&bids, &agents, CARROT));
        assert!(orders_are_valid(&asks, &agents, CARROT));
        match_orders(&mut bids, &mut asks, &mut agents, CARROT, requeue);
        assert!(bids.is_empty() || asks.is_empty());
        let cash: i64 = agents.iter().map(|a| a.cash()).sum();
        assert_eq!(cash, 0);
        assert!(agents.iter().any(|a| a.cash() != 0));
    }
}

#[test]
fn the_best_orders_trade_first() {
    // One unit is offered at 4.0; of the three bids the highest gets it.
    let mut rng = StdRng::seed_from_u64(5);
    let mut agents = traders(4);
    let mut market = MarketHouse::with_requeue(Requeue::SameSide);
    market.submit_bids(submission(order(6 * UNIT, 1, 0)));
    market.submit_bids(submission(order(9 * UNIT, 1, 1)));
    market.submit_bids(submission(order(7 * UNIT, 1, 2)));
    market.submit_asks(submission(order(4 * UNIT, 1, 3)));
    market.resolve_all(&mut agents, &mut rng);
    assert_eq!(agents[0].cash(), 0);
    assert_eq!(agents[1].cash(), -6_500_000);
    assert_eq!(agents[2].cash(), 0);
    assert_eq!(agents[3].cash(), 6_500_000);
}

#[test]
fn every_commodity_is_cleared() {
    let mut rng = StdRng::seed_from_u64(12);
    let mut agents = Vec::new();
    for _ in 0..2 {
        let mut agent = EconAgent::new();
        for i in 0..CommodityKind::SIZE {
            agent.add_to_stock_pile(CommodityKind::from_index(i).unwrap(), 0, 100, 10 * UNIT, UNIT);
        }
        agents.push(agent);
    }
    let mut market = MarketHouse::new();
    assert_eq!(market.requeue_policy(), Requeue::Swapped);
    let mut bids = TradeSubmission::new();
    let mut asks = TradeSubmission::new();
    for i in 0..CommodityKind::SIZE {
        let kind = CommodityKind::from_index(i).unwrap();
        bids.add(kind, Trade::new(kind, 10 * UNIT, 1, 0));
        asks.add(kind, Trade::new(kind, 8 * UNIT, 1, 1));
    }
    market.submit_bids(bids);
    market.submit_asks(asks);
    assert!(market.can_resolve(&agents));
    market.resolve_all(&mut agents, &mut rng);
    assert_eq!(agents[0].cash(), -9 * 8 * UNIT);
    assert_eq!(agents[1].cash(), 9 * 8 * UNIT);
    for i in 0..CommodityKind::SIZE {
        let kind = CommodityKind::from_index(i).unwrap();
        assert_eq!(market.bid_count(kind), 0);
        assert_eq!(market.ask_count(kind), 0);
        assert_eq!(agents[0].stock(kind).unwrap().quantity(), 1);
    }
}

#[test]
fn can_resolve_tells_orders_that_cannot_be_settled() {
    let agents = traders(2);
    let mut market = MarketHouse::new();
    assert!(market.can_resolve(&agents));
    market.submit_bids(submission(order(UNIT, 1, 1)));
    assert!(market.can_resolve(&agents));
    assert!(!market.can_resolve(&traders(1)));

    let mut stranger = MarketHouse::new();
    stranger.submit_asks(submission(order(UNIT, 1, 2)));
    assert!(!stranger.can_resolve(&agents));

    // The traders hold no corn.
    let mut corn = MarketHouse::new();
    corn.submit_bids(submission(Trade::new(CommodityKind::CornSeed, UNIT, 1, 0)));
    assert!(!corn.can_resolve(&agents));
    assert!(!orders_are_valid(
        &vec![Trade::new(CommodityKind::CornSeed, UNIT, 1, 0)],
        &agents,
        CommodityKind::CornSeed
    ));
    assert!(orders_are_valid(&Vec::new(), &Vec::new(), CARROT));
}

#[test]
fn a_tick_of_consumers_and_producers() {
    let mut rng = StdRng::seed_from_u64(2);
    let mut agents = Vec::new();
    for i in 0..6 {
        let mut agent = EconAgent::new();
        let builds = if i % 2 == 0 { vec![CARROT] } else { Vec::new() };
        agent.init_agent(100 * UNIT, builds, 10, 20);
        agent.add_to_stock_pile(CARROT, 10, 20, 10 * UNIT, UNIT);
        agents.push(agent);
    }
    let mut market = MarketHouse::with_requeue(Requeue::SameSide);
    for i in 0..agents.len() {
        let bids = agents[i].consume(i, &mut rng);
        let asks = agents[i].produce(i, &mut rng);
        market.submit_bids(bids);
        market.submit_asks(asks);
    }
    assert_eq!(market.bid_count(CARROT), 3);
    assert_eq!(market.ask_count(CARROT), 3);
    assert!(market.can_resolve(&agents));
    market.resolve_all(&mut agents, &mut rng);
    assert_eq!(market.bid_count(CARROT), 0);
    assert_eq!(market.ask_count(CARROT), 0);
    let cash: i64 = agents.iter().map(|a| a.cash()).sum();
    assert_eq!(cash, 600 * UNIT);
    for (i, agent) in agents.iter().enumerate() {
        if i % 2 == 0 {
            assert!(agent.cash() >= 100 * UNIT);
        } else {
            assert!(agent.cash() <= 100 * UNIT);
        }
    }
}

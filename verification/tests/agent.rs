use farmers_market::agent::{EconAgent, BANKRUPTCY_THRESHOLD};
use farmers_market::arith::UNIT;
use farmers_market::commodities::CommodityKind;
use farmers_market::stock::{PRICE_CEILING, PRICE_FLOOR};
use rand::rngs::StdRng;
use rand::SeedableRng;

/// An agent with `cash` that builds carrot crops and holds carrot seeds and
/// carrot crops, ten of each with room for twenty, worth 10.0.
fn farmer(cash: i64) -> EconAgent {
    let mut agent = EconAgent::new();
    agent.init_agent(cash, vec![CommodityKind::CarrotCrop], 10, 20);
    agent.add_to_stock_pile(CommodityKind::CarrotSeed, 10, 20, 10 * UNIT, UNIT);
    agent.add_to_stock_pile(CommodityKind::CarrotCrop, 10, 20, 10 * UNIT, UNIT);
    agent
}

#[test]
fn a_new_agent_holds_nothing() {
    let agent = EconAgent::new();
    assert_eq!(agent.cash(), 0);
    assert_eq!(agent.prev_cash(), 0);
    assert_eq!(agent.init_stock(), 0);
    assert_eq!(agent.max_stock(), 1);
    assert!(!agent.is_bankrupt());
    for i in 0..CommodityKind::SIZE {
        let kind = CommodityKind::from_index(i).unwrap();
        assert!(!agent.holds_stock(kind));
        assert!(agent.stock(kind).is_none());
        assert!(!agent.builds(kind));
    }
}

#[test]
fn init_agent_sets_cash_and_buildables() {
    let mut agent = EconAgent::new();
    agent.init_agent(
        50 * UNIT,
        vec![CommodityKind::CornCrop, CommodityKind::LettuceSeed, CommodityKind::CornCrop],
        5,
        30,
    );
    assert_eq!(agent.cash(), 50 * UNIT);
    assert_eq!(agent.prev_cash(), 50 * UNIT);
    assert_eq!(agent.init_stock(), 5);
    assert_eq!(agent.max_stock(), 30);
    for i in 0..CommodityKind::SIZE {
        let kind = CommodityKind::from_index(i).unwrap();
        let built = kind == CommodityKind::CornCrop || kind == CommodityKind::LettuceSeed;
        assert_eq!(agent.builds(kind), built);
        assert!(!agent.holds_stock(kind));
    }
    agent.init_agent(0, Vec::new(), 0, 0);
    assert!(!agent.builds(CommodityKind::CornCrop));
    agent.start();
    assert_eq!(agent.cash(), 0);
}

#[test]
fn add_to_stock_pile_keeps_a_stock_that_is_held() {
    let mut agent = EconAgent::new();
    agent.add_to_stock_pile(CommodityKind::PotatoCrop, 3, 9, 4 * UNIT, UNIT);
    assert!(agent.holds_stock(CommodityKind::PotatoCrop));
    assert!(!agent.holds_stock(CommodityKind::PotatoSeed));
    let stock = agent.stock(CommodityKind::PotatoCrop).unwrap();
    assert_eq!(stock.commodity(), CommodityKind::PotatoCrop);
    assert_eq!(stock.quantity(), 3);
    assert_eq!(stock.max_quantity(), 9);
    assert_eq!(stock.min_price_belief(), 2 * UNIT);
    assert_eq!(stock.max_price_belief(), 8 * UNIT);
    agent.add_to_stock_pile(CommodityKind::PotatoCrop, 100, 200, 50 * UNIT, UNIT);
    let stock = agent.stock(CommodityKind::PotatoCrop).unwrap();
    assert_eq!(stock.quantity(), 3);
    assert_eq!(stock.max_quantity(), 9);
    assert_eq!(stock.mean_cost(), 4 * UNIT);
}

#[test]
fn buy_pays_for_what_the_stock_accepted() {
    let mut agent = farmer(100 * UNIT);
    assert_eq!(agent.buy(CommodityKind::CarrotSeed, 5, 16 * UNIT), 5);
    assert_eq!(agent.cash(), 20 * UNIT);
    let seeds = agent.stock(CommodityKind::CarrotSeed).unwrap();
    assert_eq!(seeds.quantity(), 15);
    assert_eq!(seeds.deficit(), 5);
    assert_eq!(seeds.mean_cost(), 12 * UNIT);
    assert_eq!(seeds.price_history().len(), 2);
    let crops = agent.stock(CommodityKind::CarrotCrop).unwrap();
    assert_eq!(crops.quantity(), 10);
    assert_eq!(crops.price_history().len(), 1);
}

#[test]
fn sell_takes_the_proceeds_and_records_the_quantity_given_away() {
    let mut agent = farmer(0);
    agent.sell(CommodityKind::CarrotCrop, 5, 8 * UNIT);
    assert_eq!(agent.cash(), 40 * UNIT);
    let crops = agent.stock(CommodityKind::CarrotCrop).unwrap();
    assert_eq!(crops.quantity(), -5);
    assert_eq!(crops.price_history().get(1), Some(8 * UNIT));
    assert_eq!(agent.stock(CommodityKind::CarrotSeed).unwrap().quantity(), 10);
}

#[test]
fn cash_saturates() {
    let mut agent = farmer(i64::MAX - 10);
    agent.sell(CommodityKind::CarrotCrop, 5, 8 * UNIT);
    assert_eq!(agent.cash(), i64::MAX);
    let mut poor = farmer(i64::MIN + 10);
    poor.buy(CommodityKind::CarrotCrop, 5, 8 * UNIT);
    assert_eq!(poor.cash(), i64::MIN);
    assert!(poor.is_bankrupt());
}

#[test]
fn rejections_teach_without_cost() {
    let mut agent = farmer(7 * UNIT);
    agent.reject_bid(CommodityKind::CarrotSeed, 12_500_000);
    agent.reject_ask(CommodityKind::CarrotCrop, 12_500_000);
    assert_eq!(agent.cash(), 7 * UNIT);
    for kind in [CommodityKind::CarrotSeed, CommodityKind::CarrotCrop] {
        let stock = agent.stock(kind).unwrap();
        assert_eq!(stock.quantity(), 10);
        assert_eq!(stock.min_price_belief(), 4_750_000);
        assert_eq!(stock.max_price_belief(), 20_250_000);
        assert_eq!(stock.price_history().len(), 2);
    }
}

#[test]
fn order_sizes_are_half_the_room_and_half_the_holdings() {
    let mut agent = farmer(0);
    assert_eq!(agent.find_buy_count(CommodityKind::CarrotSeed), 5);
    assert_eq!(agent.find_sell_count(CommodityKind::CarrotSeed), 5);
    agent.add_to_stock_pile(CommodityKind::CornSeed, 19, 20, UNIT, UNIT);
    // Half of a room of one rounds down to nothing: the smallest order.
    assert_eq!(agent.find_buy_count(CommodityKind::CornSeed), 1);
    assert_eq!(agent.find_sell_count(CommodityKind::CornSeed), 9);
    agent.add_to_stock_pile(CommodityKind::CornCrop, 0, 7, UNIT, UNIT);
    assert_eq!(agent.find_buy_count(CommodityKind::CornCrop), 3);
    assert_eq!(agent.find_sell_count(CommodityKind::CornCrop), 1);
    agent.add_to_stock_pile(CommodityKind::PotatoSeed, 30, 20, UNIT, UNIT);
    assert_eq!(agent.find_buy_count(CommodityKind::PotatoSeed), 1);
    assert_eq!(agent.find_sell_count(CommodityKind::PotatoSeed), 15);
}

#[test]
fn get_profit_closes_the_books() {
    let mut agent = farmer(10 * UNIT);
    agent.sell(CommodityKind::CarrotCrop, 5, 20 * UNIT);
    assert_eq!(agent.get_profit(), 100 * UNIT);
    assert_eq!(agent.prev_cash(), 110 * UNIT);
    assert_eq!(agent.get_profit(), 0);
    agent.buy(CommodityKind::CarrotSeed, 1, 3 * UNIT);
    assert_eq!(agent.get_profit(), -3 * UNIT);
}

#[test]
fn tax_profit_taxes_a_profit_and_spares_a_loss() {
    let mut agent = farmer(0);
    agent.sell(CommodityKind::CarrotCrop, 5, 20 * UNIT);
    // A tenth of a profit of 100.
    assert_eq!(agent.tax_profit(100_000), 90 * UNIT);
    assert_eq!(agent.cash(), 90 * UNIT);
    assert_eq!(agent.prev_cash(), 100 * UNIT);
    // The tax itself now shows as a loss, which is not taxed.
    assert_eq!(agent.tax_profit(100_000), -10 * UNIT);
    assert_eq!(agent.cash(), 90 * UNIT);
    assert_eq!(agent.prev_cash(), 90 * UNIT);
    assert_eq!(agent.tax_profit(100_000), 0);
    assert_eq!(agent.cash(), 90 * UNIT);
}

#[test]
fn tax_rounds_down() {
    let mut agent = farmer(0);
    agent.sell(CommodityKind::CarrotCrop, 1, 7);
    // A third of seven millionths is two of them.
    assert_eq!(agent.tax_profit(333_333), 5);
    assert_eq!(agent.cash(), 5);
}

#[test]
fn bankrupt_below_the_threshold_only() {
    assert_eq!(BANKRUPTCY_THRESHOLD, -200 * UNIT);
    assert!(!farmer(0).is_bankrupt());
    assert!(!farmer(-200 * UNIT).is_bankrupt());
    assert!(farmer(-200 * UNIT - 1).is_bankrupt());
}

#[test]
fn order_at_builds_the_order() {
    let agent = farmer(0);
    let bid = agent.order_at(CommodityKind::CarrotSeed, 4, 9 * UNIT, false);
    assert_eq!(bid.commodity, CommodityKind::CarrotSeed);
    assert_eq!(bid.price, 9 * UNIT);
    assert_eq!(bid.quantity, 5);
    assert_eq!(bid.agent_idx, 4);
    let mut full = farmer(0);
    full.add_to_stock_pile(CommodityKind::CornCrop, 30, 20, UNIT, UNIT);
    assert_eq!(full.order_at(CommodityKind::CornCrop, 0, UNIT, true).quantity, 15);
    assert_eq!(full.order_at(CommodityKind::CornCrop, 0, UNIT, false).quantity, 1);
}

#[test]
fn consume_bids_for_what_is_held_and_not_built() {
    let mut rng = StdRng::seed_from_u64(5);
    let mut agent = farmer(0);
    let bids = agent.consume(3, &mut rng);
    for i in 0..CommodityKind::SIZE {
        let kind = CommodityKind::from_index(i).unwrap();
        let order = bids.get(kind);
        if kind == CommodityKind::CarrotSeed {
            let order = order.unwrap();
            assert_eq!(order.commodity, CommodityKind::CarrotSeed);
            assert_eq!(order.quantity, 5);
            assert_eq!(order.agent_idx, 3);
            assert!(5 * UNIT <= order.price && order.price <= 20 * UNIT);
        } else {
            assert!(order.is_none());
        }
    }
    assert_eq!(agent.cash(), 0);
    assert_eq!(agent.stock(CommodityKind::CarrotSeed).unwrap().quantity(), 10);
}

#[test]
fn produce_offers_what_is_held_and_built() {
    let mut rng = StdRng::seed_from_u64(5);
    let mut agent = farmer(0);
    let asks = agent.produce(6, &mut rng);
    for i in 0..CommodityKind::SIZE {
        let kind = CommodityKind::from_index(i).unwrap();
        let order = asks.get(kind);
        if kind == CommodityKind::CarrotCrop {
            let order = order.unwrap();
            assert_eq!(order.commodity, CommodityKind::CarrotCrop);
            assert_eq!(order.quantity, 5);
            assert_eq!(order.agent_idx, 6);
            assert!(5 * UNIT <= order.price && order.price <= 20 * UNIT);
        } else {
            assert!(order.is_none());
        }
    }
}

#[test]
fn quoting_normalises_the_beliefs_of_the_stocks_quoted() {
    let mut rng = StdRng::seed_from_u64(11);
    let mut agent = EconAgent::new();
    agent.init_agent(0, vec![CommodityKind::CornCrop], 0, 0);
    agent.add_to_stock_pile(CommodityKind::CornSeed, 0, 10, 5000 * UNIT, UNIT);
    agent.add_to_stock_pile(CommodityKind::CornCrop, 0, 10, 5000 * UNIT, UNIT);
    let bids = agent.consume(0, &mut rng);
    assert_eq!(bids.get(CommodityKind::CornSeed).unwrap().price, PRICE_CEILING);
    let seeds = agent.stock(CommodityKind::CornSeed).unwrap();
    assert_eq!(seeds.min_price_belief(), PRICE_CEILING);
    assert_eq!(seeds.max_price_belief(), PRICE_CEILING);
    // The stock that is built was not quoted and keeps its raw beliefs.
    let crops = agent.stock(CommodityKind::CornCrop).unwrap();
    assert_eq!(crops.min_price_belief(), 2500 * UNIT);
    assert_eq!(crops.max_price_belief(), 10_000 * UNIT);
    assert!(PRICE_FLOOR < PRICE_CEILING);
}

#[test]
fn purchases_never_leave_a_negative_quantity() {
    let mut agent = farmer(0);
    for round in 0..50 {
        let quantity = (round * 37) % 11;
        agent.buy(CommodityKind::CarrotSeed, quantity, (1 + round) * UNIT);
        assert!(agent.stock(CommodityKind::CarrotSeed).unwrap().quantity() >= 0);
    }
    agent.buy(CommodityKind::CarrotSeed, i64::MAX, UNIT);
    assert_eq!(agent.stock(CommodityKind::CarrotSeed).unwrap().quantity(), i64::MAX);
    // A sale of nothing leaves nothing on record; a sale of something leaves
    // it on record as given away.
    agent.sell(CommodityKind::CarrotSeed, 0, UNIT);
    assert_eq!(agent.stock(CommodityKind::CarrotSeed).unwrap().quantity(), 0);
    agent.sell(CommodityKind::CarrotSeed, 4, UNIT);
    assert_eq!(agent.stock(CommodityKind::CarrotSeed).unwrap().quantity(), -4);
}

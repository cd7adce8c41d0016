use farmers_market::arith::UNIT;
use farmers_market::commodities::{Commodities, Commodity, CommodityKind, Dependency, ESList};

fn list_of(values: &[i64]) -> ESList {
    let mut list = ESList::new();
    for &v in values {
        list.add(v);
    }
    list
}

#[test]
fn an_empty_list_averages_to_nothing() {
    let mut list = ESList::new();
    assert_eq!(list.count(), 0);
    assert_eq!(list.last_average(10), 0);
    assert_eq!(list.last_average(-1), 0);
}

#[test]
fn last_average_over_a_long_history() {
    // Three entries and a history of five: the window runs from the first
    // entry up to, not including, the last.
    let mut list = list_of(&[2, 4, 9]);
    assert_eq!(list.count(), 3);
    assert_eq!(list.last_average(5), 3);
    let mut negative = list_of(&[-3, -4, 100]);
    // -7 / 2 rounds down.
    assert_eq!(negative.last_average(5), -4);
}

#[test]
fn last_average_over_a_window_of_one() {
    // Five entries and a history of three: the window starts at the third
    // entry and ends before the fourth.
    let mut list = list_of(&[10, 20, 30, 40, 50]);
    assert_eq!(list.last_average(3), 30);
}

#[test]
fn last_average_keeps_what_it_had_where_the_window_is_empty() {
    let mut list = list_of(&[1, 2, 3, 4, 5, 6]);
    // A history of two: the window would start at the fifth entry and end
    // before the third.
    assert_eq!(list.last_average(2), 0);
    assert_eq!(list.last_average(4), 3);
    assert_eq!(list.last_average(2), 3);
    assert_eq!(list.last_average(0), 3);
    assert_eq!(list.last_average(-7), 3);
    let mut single = list_of(&[8]);
    assert_eq!(single.last_average(1), 0);
    assert_eq!(single.last_average(100), 0);
}

#[test]
fn last_average_of_the_largest_values() {
    let mut list = list_of(&[i64::MAX, i64::MAX, i64::MAX, 0]);
    assert_eq!(list.last_average(10), i64::MAX);
    let mut low = list_of(&[i64::MIN, i64::MIN, i64::MIN, 0]);
    assert_eq!(low.last_average(10), i64::MIN);
}

#[test]
fn average_over_any_window() {
    let list = list_of(&[1, 2, 3, 4, 10]);
    assert_eq!(list.average_over(0, 5), 4);
    assert_eq!(list.average_over(4, 5), 10);
    assert_eq!(list.average_over(1, 3), 2);
}

#[test]
fn a_dependency_notes_one_quantity_per_kind() {
    let mut dep = Dependency::new();
    for i in 0..CommodityKind::SIZE {
        assert_eq!(dep.get(CommodityKind::from_index(i).unwrap()), None);
    }
    dep.add(CommodityKind::CornSeed, 2);
    dep.add(CommodityKind::CornSeed, 3);
    dep.add(CommodityKind::PotatoSeed, 1);
    assert_eq!(dep.get(CommodityKind::CornSeed), Some(3));
    assert_eq!(dep.get(CommodityKind::PotatoSeed), Some(1));
    assert_eq!(dep.get(CommodityKind::CornCrop), None);
}

#[test]
fn a_new_commodity_is_worth_one() {
    let mut dep = Dependency::new();
    dep.add(CommodityKind::CornSeed, 2);
    let mut corn = Commodity::new(CommodityKind::CornCrop, 3 * UNIT, dep);
    assert_eq!(corn.kind(), CommodityKind::CornCrop);
    assert_eq!(corn.get_price(), UNIT);
    assert_eq!(corn.demand(), UNIT);
    assert_eq!(corn.production(), 3 * UNIT);
    assert_eq!(corn.dependency().get(CommodityKind::CornSeed), Some(2));
    assert_eq!(corn.get_avg_price(10), UNIT);
    assert_eq!(corn.get_avg_price(0), UNIT);
}

#[test]
fn update_sets_price_and_demand() {
    let mut corn = Commodity::new(CommodityKind::CornCrop, UNIT, Dependency::new());
    corn.update(7 * UNIT, 3);
    assert_eq!(corn.get_price(), 7 * UNIT);
    assert_eq!(corn.demand(), 3);
    // The record of prices still holds its first entry only.
    assert_eq!(corn.get_avg_price(5), UNIT);
    corn.add_bid(4);
    corn.add_ask(5);
    assert_eq!(corn.get_price(), 7 * UNIT);
}

#[test]
fn the_catalog_adds_a_commodity_once() {
    let mut catalog = Commodities::new();
    assert!(catalog.get(CommodityKind::CarrotSeed).is_none());
    assert!(catalog.add(CommodityKind::CarrotSeed, 2 * UNIT, Dependency::new()));
    assert!(!catalog.add(CommodityKind::CarrotSeed, 5 * UNIT, Dependency::new()));
    assert_eq!(catalog.get(CommodityKind::CarrotSeed).unwrap().production(), 2 * UNIT);
    assert!(catalog.get(CommodityKind::CarrotCrop).is_none());
    assert!(catalog.get_mut(CommodityKind::CarrotCrop).is_none());
    catalog.get_mut(CommodityKind::CarrotSeed).unwrap().update(9 * UNIT, UNIT);
    assert_eq!(catalog.get(CommodityKind::CarrotSeed).unwrap().get_price(), 9 * UNIT);
    assert!(catalog.add(CommodityKind::CarrotCrop, UNIT, Dependency::new()));
    assert_eq!(catalog.get(CommodityKind::CarrotSeed).unwrap().get_price(), 9 * UNIT);
    assert_eq!(catalog.get(CommodityKind::CarrotCrop).unwrap().get_price(), UNIT);
}

use xero::pricing::{
    adjust_price, adjustment_transaction_id, check_low_stock_high_demand, PriceAdjustment,
    PricingRules,
};

const DAY: u64 = 86_400_000_000_000;
const NOW: u64 = 1_700_000_000_000_000_000;

fn s(text: &str) -> String {
    text.to_string()
}

#[test]
fn the_table_starts_with_two_active_rules() {
    let rules = PricingRules::new();
    let all = rules.get_pricing_rules();
    assert_eq!(all.len(), 2);
    assert_eq!(all[0].rule_name, "near_expiration");
    assert_eq!(
        all[0].rule_description,
        "Reduce price by 30% if item is within 3 days of expiration."
    );
    assert!(all[0].active);
    assert_eq!(all[1].rule_name, "low_stock_high_demand");
    assert_eq!(
        all[1].rule_description,
        "Increase price by 10% if demand is high and stock is low."
    );
    assert!(all[1].active);
}

#[test]
fn setting_a_rule_replaces_or_appends() {
    let mut rules = PricingRules::new();
    rules.set_pricing_rule(s("near_expiration"), s("off for now"), false);
    rules.set_pricing_rule(s("weekend"), s("5% off"), true);
    let all = rules.get_pricing_rules();
    assert_eq!(all.len(), 3);
    assert_eq!(all[0].rule_name, "near_expiration");
    assert_eq!(all[0].rule_description, "off for now");
    assert!(!all[0].active);
    assert_eq!(all[1].rule_name, "low_stock_high_demand");
    assert_eq!(all[2].rule_name, "weekend");
    assert!(rules.is_active(&s("weekend")));
    assert!(!rules.is_active(&s("near_expiration")));
    assert!(!rules.is_active(&s("unknown")));
}

#[test]
fn every_item_counts_as_low_in_stock_and_in_demand() {
    assert!(check_low_stock_high_demand(s("A1")));
    assert!(check_low_stock_high_demand(s("")));
}

#[test]
fn near_expiration_applies_within_three_days() {
    let rules = PricingRules::new();
    let both = PriceAdjustment { near_expiration: true, low_stock_high_demand: true };
    let demand = PriceAdjustment { near_expiration: false, low_stock_high_demand: true };
    assert_eq!(adjust_price(&rules, &s("A1"), NOW + 3 * DAY, NOW), both);
    assert_eq!(adjust_price(&rules, &s("A1"), NOW - DAY, NOW), both);
    assert_eq!(adjust_price(&rules, &s("A1"), NOW + 3 * DAY + 1, NOW), demand);
    assert_eq!(adjust_price(&rules, &s("A1"), u64::MAX, u64::MAX - 1), both);
}

#[test]
fn rules_that_are_switched_off_do_not_apply() {
    let mut rules = PricingRules::new();
    rules.set_pricing_rule(s("low_stock_high_demand"), s("off"), false);
    let near = PriceAdjustment { near_expiration: true, low_stock_high_demand: false };
    assert_eq!(adjust_price(&rules, &s("A1"), NOW, NOW), near);
    rules.set_pricing_rule(s("near_expiration"), s("off"), false);
    let neither = PriceAdjustment { near_expiration: false, low_stock_high_demand: false };
    assert_eq!(adjust_price(&rules, &s("A1"), NOW, NOW), neither);
}

#[test]
fn adjustments_are_logged_under_the_item_id() {
    assert_eq!(adjustment_transaction_id(&s("A1")), "price_adjustment_A1");
    assert_eq!(adjustment_transaction_id(&s("")), "price_adjustment_");
}

#[test]
fn percentages_come_in_the_order_of_the_rules() {
    let both = PriceAdjustment { near_expiration: true, low_stock_high_demand: true };
    let near = PriceAdjustment { near_expiration: true, low_stock_high_demand: false };
    let demand = PriceAdjustment { near_expiration: false, low_stock_high_demand: true };
    let neither = PriceAdjustment { near_expiration: false, low_stock_high_demand: false };
    assert_eq!(both.percents(), vec![70, 110]);
    assert_eq!(near.percents(), vec![70]);
    assert_eq!(demand.percents(), vec![110]);
    assert_eq!(neither.percents(), Vec::<u32>::new());
}

#[test]
fn percentages_are_the_factors_of_the_rules() {
    assert_eq!(70.0f32 / 100.0, 0.7f32);
    assert_eq!(110.0f32 / 100.0, 1.1f32);
    let both = PriceAdjustment { near_expiration: true, low_stock_high_demand: true };
    let mut price = 10.0f32;
    for percent in both.percents() {
        price *= percent as f32 / 100.0;
    }
    assert_eq!(price, 10.0f32 * 0.7 * 1.1);
}

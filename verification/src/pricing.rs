//! Named pricing rules, and the decision which of them apply to an item.

use vstd::prelude::*;
use vstd::string::*;
use crate::status::{expires_by, expires_within};

verus! {

/// Days before expiration from which the near-expiration rule applies.
pub const NEAR_EXPIRATION_DAYS: u64 = 3;

/// One rule: its name, what it does, and whether it is switched on.
#[derive(Debug)]
pub struct PricingRule {
    pub rule_name: String,
    pub rule_description: String,
    pub active: bool,
}

/// What a `PricingRule` says.
pub struct RuleView {
    pub rule_name: Seq<char>,
    pub rule_description: Seq<char>,
    pub active: bool,
}

impl View for PricingRule {
    type V = RuleView;

    open spec fn view(&self) -> RuleView {
        RuleView {
            rule_name: self.rule_name@,
            rule_description: self.rule_description@,
            active: self.active,
        }
    }
}

impl Clone for PricingRule {
    fn clone(&self) -> (r: Self)
        ensures
            r@ == self@,
    {
        PricingRule {
            rule_name: self.rule_name.clone(),
            rule_description: self.rule_description.clone(),
            active: self.active,
        }
    }
}

/// The rules of a list, in order.
pub open spec fn rules_view(rules: Seq<PricingRule>) -> Seq<RuleView> {
    rules.map_values(|r: PricingRule| r@)
}

/// Whether the rule at `i` has the name `name`.
pub open spec fn named_at(rules: Seq<RuleView>, name: Seq<char>, i: int) -> bool {
    0 <= i < rules.len() && rules[i].rule_name == name
}

/// Whether there is a rule with the name `name`.
pub open spec fn has_rule(rules: Seq<RuleView>, name: Seq<char>) -> bool {
    exists|i: int| named_at(rules, name, i)
}

/// The place of the rule with the name `name`, where there is one.
pub open spec fn rule_place(rules: Seq<RuleView>, name: Seq<char>) -> int {
    choose|i: int| named_at(rules, name, i)
}

/// Whether there is a rule with the name `name` that is switched on.
pub open spec fn rule_active(rules: Seq<RuleView>, name: Seq<char>) -> bool {
    has_rule(rules, name) && rules[rule_place(rules, name)].active
}

/// No two rules share a name.
pub open spec fn names_distinct(rules: Seq<RuleView>) -> bool {
    forall|i: int, j: int|
        0 <= i < j < rules.len() ==> (#[trigger] rules[i]).rule_name != (
        #[trigger] rules[j]).rule_name
}

/// Where names are distinct, the place of a name is the one place where it
/// is.
pub proof fn lemma_rule_place(rules: Seq<RuleView>, name: Seq<char>, i: int)
    requires
        names_distinct(rules),
        named_at(rules, name, i),
    ensures
        has_rule(rules, name),
        rule_place(rules, name) == i,
{
    let p = rule_place(rules, name);
    assert(named_at(rules, name, p));
    if p < i {
        assert(rules[p].rule_name != rules[i].rule_name);
    } else if i < p {
        assert(rules[i].rule_name != rules[p].rule_name);
    }
}

/// The rules after one was set: a rule of that name is replaced in its
/// place, a new one comes last.
pub open spec fn with_rule(rules: Seq<RuleView>, rule: RuleView) -> Seq<RuleView> {
    if has_rule(rules, rule.rule_name) {
        rules.update(rule_place(rules, rule.rule_name), rule)
    } else {
        rules.push(rule)
    }
}

/// The two rules that every table starts with, both switched on.
pub open spec fn default_rules() -> Seq<RuleView> {
    seq![
        RuleView {
            rule_name: "near_expiration"@,
            rule_description: "Reduce price by 30% if item is within 3 days of expiration."@,
            active: true,
        },
        RuleView {
            rule_name: "low_stock_high_demand"@,
            rule_description: "Increase price by 10% if demand is high and stock is low."@,
            active: true,
        },
    ]
}

/// What is left of a price under the near-expiration rule, in percent.
pub const NEAR_EXPIRATION_PERCENT: u32 = 70;

/// What becomes of a price under the demand rule, in percent.
pub const HIGH_DEMAND_PERCENT: u32 = 110;

/// Which rules apply to an item.
#[derive(Clone, Copy, Debug, PartialEq, Eq, Structural)]
pub struct PriceAdjustment {
    pub near_expiration: bool,
    pub low_stock_high_demand: bool,
}

/// The percentages by which the price is to be multiplied, in this order:
/// that of the near-expiration rule, then that of the demand rule, each
/// where the rule applies.
pub open spec fn percents_of(adjustment: PriceAdjustment) -> Seq<u32> {
    let first: Seq<u32> = if adjustment.near_expiration {
        seq![NEAR_EXPIRATION_PERCENT]
    } else {
        Seq::empty()
    };
    if adjustment.low_stock_high_demand {
        first.push(HIGH_DEMAND_PERCENT)
    } else {
        first
    }
}

impl PriceAdjustment {
    /// The percentages by which the price is to be multiplied, in order.
    pub fn percents(&self) -> (r: Vec<u32>)
        ensures
            r@ == percents_of(*self),
    {
        let mut out: Vec<u32> = Vec::new();
        if self.near_expiration {
            out.push(NEAR_EXPIRATION_PERCENT);
        }
        if self.low_stock_high_demand {
            out.push(HIGH_DEMAND_PERCENT);
        }
        assert(out@ =~= percents_of(*self));
        out
    }
}

/// The table of rules, one for each name.
pub struct PricingRules {
    rules: Vec<PricingRule>,
}

impl View for PricingRules {
    type V = Seq<RuleView>;

    closed spec fn view(&self) -> Seq<RuleView> {
        rules_view(self.rules@)
    }
}

impl PricingRules {
    pub open spec fn wf(&self) -> bool {
        names_distinct(self@)
    }

    /// The table with the two default rules.
    pub fn new() -> (r: Self)
        ensures
            r.wf(),
            r@ == default_rules(),
    {
        let mut rules: Vec<PricingRule> = Vec::new();
        rules.push(
            PricingRule {
                rule_name: String::from_str("near_expiration"),
                rule_description: String::from_str(
                    "Reduce price by 30% if item is within 3 days of expiration.",
                ),
                active: true,
            },
        );
        rules.push(
            PricingRule {
                rule_name: String::from_str("low_stock_high_demand"),
                rule_description: String::from_str(
                    "Increase price by 10% if demand is high and stock is low.",
                ),
                active: true,
            },
        );
        proof {
            reveal_strlit("near_expiration");
            reveal_strlit("low_stock_high_demand");
            assert("near_expiration"@.len() != "low_stock_high_demand"@.len());
            assert(rules_view(rules@) =~= default_rules());
        }
        PricingRules { rules }
    }

    fn find(&self, name: &String) -> (r: Option<usize>)
        ensures
            match r {
                Some(i) => named_at(self@, name@, i as int),
                None => !has_rule(self@, name@),
            },
    {
        let mut i: usize = 0;
        while i < self.rules.len()
            invariant
                i <= self.rules.len(),
                forall|j: int| 0 <= j < i ==> !named_at(self@, name@, j),
            decreases self.rules.len() - i,
        {
            if self.rules[i].rule_name == *name {
                return Some(i);
            }
            i += 1;
        }
        None
    }

    /// Whether there is a rule with the name `name` that is switched on.
    pub fn is_active(&self, name: &String) -> (r: bool)
        requires
            self.wf(),
        ensures
            r == rule_active(self@, name@),
    {
        match self.find(name) {
            Some(i) => {
                proof {
                    lemma_rule_place(self@, name@, i as int);
                }
                self.rules[i].active
            },
            None => false,
        }
    }

    /// Sets the rule with the name `rule_name`, new or not.
    pub fn set_pricing_rule(&mut self, rule_name: String, rule_description: String, active: bool)
        requires
            old(self).wf(),
        ensures
            final(self).wf(),
            final(self)@ == with_rule(
                old(self)@,
                RuleView { rule_name: rule_name@, rule_description: rule_description@, active },
            ),
    {
        let ghost before = self@;
        let found = self.find(&rule_name);
        let rule = PricingRule { rule_name, rule_description, active };
        match found {
            Some(i) => {
                self.rules.set(i, rule);
                proof {
                    lemma_rule_place(before, rule@.rule_name, i as int);
                    assert(self@ =~= before.update(i as int, rule@));
                    assert forall|a: int, b: int| 0 <= a < b < self@.len() implies (
                    #[trigger] self@[a]).rule_name != (#[trigger] self@[b]).rule_name by {
                        assert(before[a].rule_name != before[b].rule_name);
                    }
                }
            },
            None => {
                self.rules.push(rule);
                proof {
                    assert(self@ =~= before.push(rule@));
                    assert forall|a: int, b: int| 0 <= a < b < self@.len() implies (
                    #[trigger] self@[a]).rule_name != (#[trigger] self@[b]).rule_name by {
                        if b == before.len() {
                            assert(!named_at(before, rule@.rule_name, a));
                        } else {
                            assert(before[a].rule_name != before[b].rule_name);
                        }
                    }
                }
            },
        }
    }

    /// Every rule, in the order in which the names were first set.
    pub fn get_pricing_rules(&self) -> (r: Vec<PricingRule>)
        ensures
            rules_view(r@) == self@,
    {
        let mut out: Vec<PricingRule> = Vec::new();
        let mut i: usize = 0;
        while i < self.rules.len()
            invariant
                i <= self.rules.len(),
                out.len() == i,
                forall|j: int| 0 <= j < i ==> out@[j]@ == self.rules@[j]@,
            decreases self.rules.len() - i,
        {
            out.push(self.rules[i].clone());
            i += 1;
        }
        assert(rules_view(out@) =~= self@);
        out
    }
}

/// Whether the item is low in stock and in high demand. No source of demand
/// is known yet: every item counts as such.
pub fn check_low_stock_high_demand(_item_id: String) -> (r: bool)
    ensures
        r,
{
    true
}

/// Which rules apply to the item at `now`: the near-expiration rule where it
/// is switched on and the item expires at or before `NEAR_EXPIRATION_DAYS`
/// days from `now`; the demand rule where it is switched on.
pub fn adjust_price(rules: &PricingRules, item_id: &String, expiration_date: u64, now: u64) -> (r:
    PriceAdjustment)
    requires
        rules.wf(),
    ensures
        r.near_expiration == (rule_active(rules@, "near_expiration"@) && expires_within(
            expiration_date,
            now,
            NEAR_EXPIRATION_DAYS,
        )),
        r.low_stock_high_demand == rule_active(rules@, "low_stock_high_demand"@),
{
    let near_name = String::from_str("near_expiration");
    let demand_name = String::from_str("low_stock_high_demand");
    let near_expiration = rules.is_active(&near_name) && expires_by(
        expiration_date,
        now,
        NEAR_EXPIRATION_DAYS,
    );
    let low_stock_high_demand = rules.is_active(&demand_name) && check_low_stock_high_demand(
        item_id.clone(),
    );
    PriceAdjustment { near_expiration, low_stock_high_demand }
}

/// The id under which a price adjustment of the item is logged.
pub fn adjustment_transaction_id(item_id: &String) -> (r: String)
    ensures
        r@ == "price_adjustment_"@ + item_id@,
{
    String::from_str("price_adjustment_").concat(item_id.as_str())
}

} // verus!

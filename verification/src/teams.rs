use vstd::prelude::*;
use vstd::string::*;

use crate::ids::Id;

verus! {

/// The category a rule belongs to, used for display and grouping.
#[derive(Clone, Copy, PartialEq, Eq, Structural, Debug)]
pub enum RuleCategory {
    GameDay,
    TrainingDay,
}

#[derive(Clone, Copy, PartialEq, Eq, Structural, Debug)]
pub enum TimeUnit {
    Second,
    Minute,
    Hour,
    Day,
    Week,
    Month,
    Year,
}

/// The closed set of pricing formulas a rule can carry. All prices are held
/// in hundredths of the currency unit.
#[derive(Clone, Copy, PartialEq, Eq, Structural, Debug)]
pub enum RuleKind {
    Basic { price: u32 },
    Multiplication { price_to_multiply: u32 },
    TimeMultiplication { price_per_time_unit: u32, time_unit: TimeUnit },
    RegularIntervals { price: u32, interval_in_time_unit: u32, time_unit: TimeUnit },
}

impl RuleKind {
    /// The stable machine-readable name of the kind.
    pub open spec fn spec_label(self) -> Seq<char> {
        match self {
            RuleKind::Basic { .. } => "BASIC"@,
            RuleKind::Multiplication { .. } => "MULTIPLICATION"@,
            RuleKind::TimeMultiplication { .. } => "TIME_MULTIPLICATION"@,
            RuleKind::RegularIntervals { .. } => "REGULAR_INTERVALS"@,
        }
    }

    pub fn label(&self) -> (r: String)
        ensures
            r@ == self.spec_label(),
    {
        match self {
            RuleKind::Basic { .. } => String::from_str("BASIC"),
            RuleKind::Multiplication { .. } => String::from_str("MULTIPLICATION"),
            RuleKind::TimeMultiplication { .. } => String::from_str("TIME_MULTIPLICATION"),
            RuleKind::RegularIntervals { .. } => String::from_str("REGULAR_INTERVALS"),
        }
    }
}

impl Default for RuleKind {
    fn default() -> (r: RuleKind)
        ensures
            r == (RuleKind::Basic { price: 0 }),
    {
        RuleKind::Basic { price: 0 }
    }
}

impl Default for RuleCategory {
    fn default() -> (r: RuleCategory)
        ensures
            r == RuleCategory::TrainingDay,
    {
        RuleCategory::TrainingDay
    }
}

/// A team-scoped pricing policy.
#[derive(Debug)]
pub struct Rule {
    pub id: Id,
    pub name: String,
    pub category: RuleCategory,
    pub description: String,
    pub kind: RuleKind,
}

impl Clone for Rule {
    fn clone(&self) -> (r: Self)
        ensures
            r == *self,
    {
        Rule {
            id: self.id,
            name: self.name.clone(),
            category: self.category,
            description: self.description.clone(),
            kind: self.kind,
        }
    }
}

impl Default for Rule {
    fn default() -> (r: Rule)
        ensures
            r.id == (Id { value: 0 }),
            r.name@ == Seq::<char>::empty(),
            r.category == RuleCategory::TrainingDay,
            r.description@ == Seq::<char>::empty(),
            r.kind == (RuleKind::Basic { price: 0 }),
    {
        Rule {
            id: Id { value: 0 },
            name: String::new(),
            category: RuleCategory::TrainingDay,
            description: String::new(),
            kind: RuleKind::Basic { price: 0 },
        }
    }
}

/// The organizational unit owning members and rules.
#[derive(Debug)]
pub struct Team {
    pub id: Id,
    pub name: String,
    pub admin_password: String,
    pub rules: Vec<Rule>,
}

/// The first rule of the sequence carrying the given identifier, if any.
pub open spec fn spec_find_rule(rules: Seq<Rule>, rule_id: Id) -> Option<Rule>
    decreases rules.len(),
{
    if rules.len() == 0 {
        None
    } else if rules[0].id == rule_id {
        Some(rules[0])
    } else {
        spec_find_rule(rules.drop_first(), rule_id)
    }
}

/// When no rule among the first `i` matches, the search outcome is decided by
/// the rest of the sequence.
proof fn lemma_find_rule_skip(rules: Seq<Rule>, rule_id: Id, i: int)
    requires
        0 <= i <= rules.len(),
        forall|j: int| 0 <= j < i ==> rules[j].id != rule_id,
    ensures
        spec_find_rule(rules, rule_id) == spec_find_rule(rules.subrange(i, rules.len() as int), rule_id),
    decreases i,
{
    if i > 0 {
        assert(rules.subrange(i - 1, rules.len() as int).drop_first()
            =~= rules.subrange(i, rules.len() as int));
        lemma_find_rule_skip(rules, rule_id, i - 1);
    } else {
        assert(rules.subrange(0, rules.len() as int) =~= rules);
    }
}

impl Team {
    /// Linear search of the team's rule sequence for a matching identifier.
    pub fn get_rule(&self, rule_id: Id) -> (r: Option<Rule>)
        ensures
            r == spec_find_rule(self.rules@, rule_id),
            r is Some <==> exists|i: int|
                0 <= i < self.rules@.len() && self.rules@[i].id == rule_id,
    {
        let n = self.rules.len();
        for i in 0..n
            invariant
                n == self.rules@.len(),
                forall|j: int| 0 <= j < i ==> self.rules@[j].id != rule_id,
        {
            if self.rules[i].id == rule_id {
                let found = self.rules[i].clone();
                proof {
                    lemma_find_rule_skip(self.rules@, rule_id, i as int);
                    assert(self.rules@.subrange(i as int, self.rules@.len() as int)[0]
                        == self.rules@[i as int]);
                }
                return Some(found);
            }
        }
        proof {
            lemma_find_rule_skip(self.rules@, rule_id, self.rules@.len() as int);
            assert(self.rules@.subrange(self.rules@.len() as int, self.rules@.len() as int).len()
                == 0);
        }
        None
    }
}

} // verus!

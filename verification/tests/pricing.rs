use caisse_noire::ids::Id;
use caisse_noire::sanctions::{ExtraInfo, SanctionInfo};
use caisse_noire::teams::{Rule, RuleCategory, RuleKind, Team, TimeUnit};

fn rule_with_kind(id: u128, kind: RuleKind) -> Rule {
    Rule {
        id: Id { value: id },
        name: String::from("Forgotten jersey"),
        category: RuleCategory::TrainingDay,
        description: String::from("Coming to training without the jersey"),
        kind,
    }
}

fn info(rule_id: u128, extra_info: ExtraInfo) -> SanctionInfo {
    SanctionInfo {
        associated_rule: Id { value: rule_id },
        extra_info,
    }
}

#[test]
fn test_basic_price_is_the_rule_price() {
    let rule = rule_with_kind(1, RuleKind::Basic { price: 250 });
    let price = info(1, ExtraInfo::Absent).get_price(rule).ok().unwrap();
    assert_eq!(price, 250);
}

#[test]
fn test_multiplication_price_is_the_product() {
    // 3.50 of the currency, held as 350 hundredths, times factor 2 is 7.00.
    let rule = rule_with_kind(1, RuleKind::Multiplication { price_to_multiply: 350 });
    let price = info(1, ExtraInfo::Multiplication { factor: 2 })
        .get_price(rule)
        .ok()
        .unwrap();
    assert_eq!(price, 700);
}

#[test]
fn test_time_multiplication_price_is_the_product() {
    let rule = rule_with_kind(
        1,
        RuleKind::TimeMultiplication {
            price_per_time_unit: 125,
            time_unit: TimeUnit::Minute,
        },
    );
    let price = info(1, ExtraInfo::Multiplication { factor: 4 })
        .get_price(rule)
        .ok()
        .unwrap();
    assert_eq!(price, 500);
}

#[test]
fn test_multiplication_by_zero_factor() {
    let rule = rule_with_kind(1, RuleKind::Multiplication { price_to_multiply: 350 });
    let price = info(1, ExtraInfo::Multiplication { factor: 0 })
        .get_price(rule)
        .ok()
        .unwrap();
    assert_eq!(price, 0);
}

#[test]
fn test_largest_product_does_not_overflow() {
    let rule = rule_with_kind(1, RuleKind::Multiplication { price_to_multiply: u32::MAX });
    let price = info(1, ExtraInfo::Multiplication { factor: u32::MAX })
        .get_price(rule)
        .ok()
        .unwrap();
    assert_eq!(price, (u32::MAX as u64) * (u32::MAX as u64));
}

#[test]
fn test_absent_extra_info_mismatches_other_kinds() {
    for kind in [
        RuleKind::Multiplication { price_to_multiply: 350 },
        RuleKind::TimeMultiplication { price_per_time_unit: 125, time_unit: TimeUnit::Day },
        RuleKind::RegularIntervals {
            price: 100,
            interval_in_time_unit: 2,
            time_unit: TimeUnit::Week,
        },
    ] {
        let rule = rule_with_kind(1, kind);
        let error = info(1, ExtraInfo::Absent).get_price(rule).err().unwrap();
        assert_eq!(error.associated_rule_name, String::from("Forgotten jersey"));
        assert_eq!(error.extra_info, String::from("NONE"));
    }
}

#[test]
fn test_multiplication_extra_info_mismatches_other_kinds() {
    for kind in [
        RuleKind::Basic { price: 250 },
        RuleKind::RegularIntervals {
            price: 100,
            interval_in_time_unit: 2,
            time_unit: TimeUnit::Week,
        },
    ] {
        let rule = rule_with_kind(1, kind);
        let error = info(1, ExtraInfo::Multiplication { factor: 2 })
            .get_price(rule)
            .err()
            .unwrap();
        assert_eq!(error.extra_info, String::from("MULTIPLICATION"));
    }
}

#[test]
fn test_mismatch_reports_the_kind_names() {
    let rule = rule_with_kind(
        1,
        RuleKind::RegularIntervals {
            price: 100,
            interval_in_time_unit: 2,
            time_unit: TimeUnit::Week,
        },
    );
    let error = info(1, ExtraInfo::Absent).get_price(rule).err().unwrap();
    assert_eq!(error.associated_rule_kind, String::from("REGULAR_INTERVALS"));

    let rule = rule_with_kind(1, RuleKind::Basic { price: 250 });
    let error = info(1, ExtraInfo::Multiplication { factor: 2 })
        .get_price(rule)
        .err()
        .unwrap();
    assert_eq!(error.associated_rule_kind, String::from("BASIC"));

    let rule = rule_with_kind(1, RuleKind::Multiplication { price_to_multiply: 1 });
    let error = info(1, ExtraInfo::Absent).get_price(rule).err().unwrap();
    assert_eq!(error.associated_rule_kind, String::from("MULTIPLICATION"));

    let rule = rule_with_kind(
        1,
        RuleKind::TimeMultiplication { price_per_time_unit: 1, time_unit: TimeUnit::Hour },
    );
    let error = info(1, ExtraInfo::Absent).get_price(rule).err().unwrap();
    assert_eq!(error.associated_rule_kind, String::from("TIME_MULTIPLICATION"));
}

#[test]
fn test_get_rule_finds_the_first_match() {
    let team = Team {
        id: Id { value: 10 },
        name: String::from("CHBC"),
        admin_password: String::from("pwd"),
        rules: vec![
            rule_with_kind(1, RuleKind::Basic { price: 100 }),
            rule_with_kind(2, RuleKind::Basic { price: 200 }),
            rule_with_kind(2, RuleKind::Basic { price: 300 }),
        ],
    };

    let found = team.get_rule(Id { value: 2 }).unwrap();
    assert_eq!(found.kind, RuleKind::Basic { price: 200 });
    assert!(team.get_rule(Id { value: 9 }).is_none());
}

#[test]
fn test_rule_defaults() {
    let rule = Rule::default();
    assert_eq!(rule.id, Id { value: 0 });
    assert_eq!(rule.kind, RuleKind::Basic { price: 0 });
    assert_eq!(rule.category, RuleCategory::TrainingDay);
    assert_eq!(rule.name, String::new());
}

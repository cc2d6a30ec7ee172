use caisse_noire::api::ErrorKind;
use caisse_noire::database::DbError;
use caisse_noire::dates::Date;
use caisse_noire::ids::Id;
use caisse_noire::sanctions::{
    validate_batch, CreateSanction, ExtraInfo, Sanction, SanctionInfo, UpdateSanctionRequest,
};
use caisse_noire::teams::{Rule, RuleCategory, RuleKind, Team};

fn team_with_rules(team_id: u128, rules: Vec<Rule>) -> Team {
    Team {
        id: Id { value: team_id },
        name: String::from("CHBC"),
        admin_password: String::from("pwd"),
        rules,
    }
}

fn rule(id: u128, kind: RuleKind) -> Rule {
    Rule {
        id: Id { value: id },
        name: String::from("Latecomer"),
        category: RuleCategory::GameDay,
        description: String::new(),
        kind,
    }
}

fn request(user: u128, rule_id: u128, extra_info: ExtraInfo) -> UpdateSanctionRequest {
    UpdateSanctionRequest {
        id: None,
        user_id: Id { value: user },
        sanction_info: SanctionInfo {
            associated_rule: Id { value: rule_id },
            extra_info,
        },
        created_at: None,
    }
}

const TODAY: Date = Date { year: 2019, month: 10, day: 16 };

#[test]
fn test_create_sanction() {
    let rule_1 = rule(1, RuleKind::Multiplication { price_to_multiply: 350 });
    let rule_2 = rule(2, RuleKind::Basic { price: 0 });
    let team = team_with_rules(77, vec![rule_1, rule_2]);

    let created_at = Date { year: 2019, month: 10, day: 16 };
    let today = Date { year: 2019, month: 11, day: 2 };

    let requests = vec![
        request(500, 1, ExtraInfo::Multiplication { factor: 2 }),
        UpdateSanctionRequest {
            created_at: Some(created_at),
            ..request(501, 2, ExtraInfo::Absent)
        },
    ];

    let records = validate_batch(Ok(team), requests, Id { value: 77 }, today).unwrap();

    assert_eq!(records.len(), 2);
    assert_eq!(records[0].team_id, Id { value: 77 });
    assert_eq!(records[0].user_id, Id { value: 500 });
    // 3.50 of the currency times 2 is 7.00, held as 700 hundredths.
    assert_eq!(records[0].price, 700);
    assert_eq!(records[0].created_at, today);
    assert_eq!(records[1].created_at, created_at);
}

#[test]
fn routes_test_create_sanction_fails() {
    let a_rule = rule(1, RuleKind::Multiplication { price_to_multiply: 350 });
    let requests = vec![request(500, 1, ExtraInfo::Absent)];

    let error = validate_batch(
        Err(DbError::NotFound),
        requests.clone(),
        Id { value: 77 },
        TODAY,
    )
    .unwrap_err();
    assert_eq!(error.kind, ErrorKind::BadReference);

    let team = team_with_rules(77, vec![a_rule]);
    let error = validate_batch(Ok(team), requests, Id { value: 77 }, TODAY).unwrap_err();
    assert_eq!(error.kind, ErrorKind::NotValid);
}

#[test]
fn test_batch_fails_whole_on_dangling_rule() {
    let the_rule = rule(1, RuleKind::Basic { price: 100 });

    // The bad request sits in the middle: nothing at all is handed back,
    // whatever its position.
    for bad_position in 0..3 {
        let mut requests = vec![
            request(500, 1, ExtraInfo::Absent),
            request(501, 1, ExtraInfo::Absent),
            request(502, 1, ExtraInfo::Absent),
        ];
        requests[bad_position] = request(503, 9, ExtraInfo::Absent);

        let team = team_with_rules(77, vec![the_rule.clone()]);
        let error = validate_batch(Ok(team), requests, Id { value: 77 }, TODAY).unwrap_err();
        assert_eq!(error.kind, ErrorKind::BadReference);
        assert_eq!(
            error.description,
            String::from("The key associated_rule doesn't refer to anything")
        );
    }
}

#[test]
fn test_batch_reports_the_first_failure() {
    let the_rule = rule(1, RuleKind::Basic { price: 100 });
    let team = team_with_rules(77, vec![the_rule]);

    // The dangling reference comes before the mismatch, so the dangling
    // reference is the error reported.
    let requests = vec![
        request(500, 1, ExtraInfo::Absent),
        request(501, 9, ExtraInfo::Absent),
        request(502, 1, ExtraInfo::Multiplication { factor: 2 }),
    ];

    let error = validate_batch(Ok(team), requests, Id { value: 77 }, TODAY).unwrap_err();
    assert_eq!(error.kind, ErrorKind::BadReference);
}

#[test]
fn test_batch_mismatch_description_names_the_rule() {
    let the_rule = rule(1, RuleKind::Basic { price: 100 });
    let team = team_with_rules(77, vec![the_rule]);
    let requests = vec![request(500, 1, ExtraInfo::Multiplication { factor: 2 })];

    let error = validate_batch(Ok(team), requests, Id { value: 77 }, TODAY).unwrap_err();
    assert_eq!(error.kind, ErrorKind::NotValid);
    assert_eq!(
        error.description,
        String::from(
            "The sanction of type MULTIPLICATION can not be associated with the rule Latecomer of kind BASIC."
        )
    );
}

#[test]
fn test_missing_team_is_a_bad_reference() {
    let requests = vec![request(500, 1, ExtraInfo::Absent)];
    let error =
        validate_batch(Err(DbError::NotFound), requests, Id { value: 77 }, TODAY).unwrap_err();
    assert_eq!(error.kind, ErrorKind::BadReference);
    assert_eq!(
        error.description,
        String::from("The key team_id doesn't refer to anything")
    );
}

#[test]
fn test_other_team_lookup_failures_pass_through() {
    let requests = vec![request(500, 1, ExtraInfo::Absent)];
    let error = validate_batch(
        Err(DbError::Unknown),
        requests.clone(),
        Id { value: 77 },
        TODAY,
    )
    .unwrap_err();
    assert_eq!(error.kind, ErrorKind::Unknown);

    let error = validate_batch(
        Err(DbError::ServiceUnavailable),
        requests,
        Id { value: 77 },
        TODAY,
    )
    .unwrap_err();
    assert_eq!(error.kind, ErrorKind::ServiceUnavailable);
}

#[test]
fn test_empty_batch_validates_to_nothing() {
    let records = validate_batch(
        Err(DbError::NotFound),
        Vec::new(),
        Id { value: 77 },
        TODAY,
    )
    .unwrap();
    assert!(records.is_empty());
}

#[test]
fn test_client_supplied_id_is_kept() {
    let the_rule = rule(1, RuleKind::Basic { price: 100 });
    let team = team_with_rules(77, vec![the_rule]);
    let requests = vec![UpdateSanctionRequest {
        id: Some(Id { value: 123 }),
        ..request(500, 1, ExtraInfo::Absent)
    }];

    let records = validate_batch(Ok(team), requests, Id { value: 77 }, TODAY).unwrap();
    assert_eq!(records[0].id, Id { value: 123 });
}

#[test]
fn test_from_request_defaults() {
    let req = UpdateSanctionRequest {
        id: Some(Id { value: 9 }),
        user_id: Id { value: 500 },
        sanction_info: SanctionInfo {
            associated_rule: Id { value: 1 },
            extra_info: ExtraInfo::Absent,
        },
        created_at: None,
    };
    let record = CreateSanction::from_request(req, Id { value: 77 }, 250, TODAY);
    assert_eq!(record.id, Id { value: 9 });
    assert_eq!(record.user_id, Id { value: 500 });
    assert_eq!(record.team_id, Id { value: 77 });
    assert_eq!(record.price, 250);
    assert_eq!(record.created_at, TODAY);
}

#[test]
fn test_sanction_default_fixture() {
    let sanction = Sanction::default();
    assert_eq!(sanction.id, Id { value: 0 });
    assert_eq!(sanction.price, 0);
    assert_eq!(sanction.created_at, Date { year: 2019, month: 10, day: 5 });
    assert_eq!(sanction.sanction_info.extra_info, ExtraInfo::Absent);
}

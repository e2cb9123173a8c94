use chioma::agreement::AgreementStatus;
use chioma::hello;
use chioma::store::{plan_creation, AgreementStore};
use chioma::validation::{validate, Error};

#[test]
fn test() {
    let words = hello(String::from("Dev"));
    assert_eq!(words, vec![String::from("Hello"), String::from("Dev")]);
}

#[test]
fn test_create_agreement_success() {
    let mut store = AgreementStore::new();

    let tenant = String::from("tenant_principal");
    let landlord = String::from("landlord_principal");
    let agent = Some(String::from("agent_principal"));

    let agreement_id = String::from("AGREEMENT_001");

    let result = store.create_agreement(
        agreement_id.clone(),
        landlord.clone(),
        tenant.clone(),
        agent,
        1000, // monthly_rent
        2000, // security_deposit
        100,  // start_date
        200,  // end_date
        10,   // agent_commission_rate
    );
    assert_eq!(result, Ok(()));

    // Check events
    let events = store.events();
    assert_eq!(events.len(), 1);
    let event = events.last().unwrap();
    assert_eq!(event.topic, String::from("agreement_created_event"));
    assert_eq!(event.agreement_id, agreement_id);

    // Verify persistence
    let stored_agreement = store.get_agreement(&agreement_id).unwrap();

    assert_eq!(stored_agreement.agreement_id, agreement_id);
    assert_eq!(stored_agreement.monthly_rent, 1000);
    assert_eq!(stored_agreement.status, AgreementStatus::Draft);
    assert_eq!(stored_agreement.landlord, landlord);
    assert_eq!(stored_agreement.tenant, tenant);

    // Verify counter
    assert_eq!(store.agreement_count(), 1);
}

#[test]
fn test_create_agreement_with_agent() {
    let mut store = AgreementStore::new();

    let tenant = String::from("tenant_principal");
    let landlord = String::from("landlord_principal");
    let agent = String::from("agent_principal");

    let agreement_id = String::from("AGREEMENT_WITH_AGENT");

    let result = store.create_agreement(
        agreement_id,
        landlord,
        tenant,
        Some(agent.clone()),
        1500,
        3000,
        1000,
        2000,
        5,
    );
    assert_eq!(result, Ok(()));
}

#[test]
fn test_create_agreement_without_agent() {
    let mut store = AgreementStore::new();

    let tenant = String::from("tenant_principal");
    let landlord = String::from("landlord_principal");

    let agreement_id = String::from("AGREEMENT_NO_AGENT");

    let result = store.create_agreement(
        agreement_id,
        landlord,
        tenant,
        None,
        1200,
        2400,
        500,
        1500,
        0,
    );
    assert_eq!(result, Ok(()));
}

#[test]
fn test_negative_rent_rejected() {
    let mut store = AgreementStore::new();

    let tenant = String::from("tenant_principal");
    let landlord = String::from("landlord_principal");

    let agreement_id = String::from("BAD_RENT");

    let result = store.create_agreement(
        agreement_id.clone(),
        landlord,
        tenant,
        None,
        -100, // Negative rent
        1000,
        100,
        200,
        0,
    );
    assert_eq!(result, Err(Error::InvalidRent));

    // No record was written and the counter is unchanged.
    assert!(store.get_agreement(&agreement_id).is_none());
    assert_eq!(store.agreement_count(), 0);
    assert_eq!(store.events().len(), 0);
}

#[test]
fn test_invalid_dates_rejected() {
    let mut store = AgreementStore::new();

    let tenant = String::from("tenant_principal");
    let landlord = String::from("landlord_principal");

    let agreement_id = String::from("BAD_DATES");

    let result = store.create_agreement(
        agreement_id.clone(),
        landlord,
        tenant,
        None,
        1000,
        2000,
        200, // start_date
        100, // end_date < start_date
        0,
    );
    assert_eq!(result, Err(Error::InvalidDateRange));
    assert!(store.get_agreement(&agreement_id).is_none());
    assert_eq!(store.agreement_count(), 0);
}

#[test]
fn test_duplicate_agreement_id() {
    let mut store = AgreementStore::new();

    let tenant = String::from("tenant_principal");
    let landlord = String::from("landlord_principal");

    let agreement_id = String::from("DUPLICATE_ID");

    let first = store.create_agreement(
        agreement_id.clone(),
        landlord.clone(),
        tenant.clone(),
        None,
        1000,
        2000,
        100,
        200,
        0,
    );
    assert_eq!(first, Ok(()));

    // Try to create again with same ID
    let second = store.create_agreement(
        agreement_id,
        landlord,
        tenant,
        None,
        1000,
        2000,
        100,
        200,
        0,
    );
    assert_eq!(second, Err(Error::DuplicateAgreement));
}

#[test]
fn test_invalid_commission_rate() {
    let mut store = AgreementStore::new();

    let tenant = String::from("tenant_principal");
    let landlord = String::from("landlord_principal");

    let agreement_id = String::from("BAD_COMMISSION");

    let result = store.create_agreement(
        agreement_id,
        landlord,
        tenant,
        None,
        1000,
        2000,
        100,
        200,
        101, // > 100
    );
    assert_eq!(result, Err(Error::InvalidCommissionRate));
}

#[test]
fn duplicate_call_leaves_state_as_after_first() {
    let mut store = AgreementStore::new();
    let agreement_id = String::from("AG_ONCE");

    let first = store.create_agreement(
        agreement_id.clone(),
        String::from("landlord_principal"),
        String::from("tenant_principal"),
        None,
        800,
        1600,
        10,
        20,
        3,
    );
    assert_eq!(first, Ok(()));
    assert_eq!(store.agreement_count(), 1);
    assert_eq!(store.events().len(), 1);

    let second = store.create_agreement(
        agreement_id.clone(),
        String::from("other_landlord"),
        String::from("other_tenant"),
        None,
        900,
        1800,
        30,
        40,
        4,
    );
    assert_eq!(second, Err(Error::DuplicateAgreement));

    // Storage and counter equal the state after only the first call.
    assert_eq!(store.agreement_count(), 1);
    assert_eq!(store.events().len(), 1);
    let stored = store.get_agreement(&agreement_id).unwrap();
    assert_eq!(stored.landlord, String::from("landlord_principal"));
    assert_eq!(stored.monthly_rent, 800);
}

#[test]
fn counter_equals_number_of_distinct_creations() {
    let mut store = AgreementStore::new();
    let ids = ["AG_A", "AG_B", "AG_C"];
    for (n, id) in ids.iter().enumerate() {
        let result = store.create_agreement(
            String::from(*id),
            String::from("landlord_principal"),
            String::from("tenant_principal"),
            None,
            500 + n as i64,
            1000,
            1,
            2,
            0,
        );
        assert_eq!(result, Ok(()));
        assert_eq!(store.agreement_count(), n as u32 + 1);
    }
    assert_eq!(store.agreement_count(), 3);
}

#[test]
fn agent_field_round_trips() {
    let mut store = AgreementStore::new();

    let with_agent = String::from("AG_WITH");
    let result = store.create_agreement(
        with_agent.clone(),
        String::from("landlord_principal"),
        String::from("tenant_principal"),
        Some(String::from("agent_principal")),
        700,
        1400,
        5,
        6,
        25,
    );
    assert_eq!(result, Ok(()));
    let stored = store.get_agreement(&with_agent).unwrap();
    assert_eq!(stored.agent, Some(String::from("agent_principal")));

    let without_agent = String::from("AG_WITHOUT");
    let result = store.create_agreement(
        without_agent.clone(),
        String::from("landlord_principal"),
        String::from("tenant_principal"),
        None,
        700,
        1400,
        5,
        6,
        25,
    );
    assert_eq!(result, Ok(()));
    let stored = store.get_agreement(&without_agent).unwrap();
    assert_eq!(stored.agent, None);
}

#[test]
fn every_created_agreement_starts_as_draft() {
    let mut store = AgreementStore::new();
    let agreement_id = String::from("AG_DRAFT");
    let result = store.create_agreement(
        agreement_id.clone(),
        String::from("landlord_principal"),
        String::from("tenant_principal"),
        None,
        42,
        0,
        -5,
        5,
        100,
    );
    assert_eq!(result, Ok(()));
    assert_eq!(
        store.get_agreement(&agreement_id).unwrap().status,
        AgreementStatus::Draft
    );
}

#[test]
fn validate_checks_in_fixed_order() {
    // First failure wins: rent before dates before commission rate.
    assert_eq!(validate(0, 200, 100, 101), Err(Error::InvalidRent));
    assert_eq!(validate(-1, 100, 200, 10), Err(Error::InvalidRent));
    assert_eq!(validate(1, 200, 100, 101), Err(Error::InvalidDateRange));
    assert_eq!(validate(1, 100, 100, 10), Err(Error::InvalidDateRange));
    assert_eq!(validate(1, 100, 200, 101), Err(Error::InvalidCommissionRate));
    assert_eq!(validate(1, 100, 200, -1), Err(Error::InvalidCommissionRate));
    assert_eq!(validate(1, 100, 200, 0), Ok(()));
    assert_eq!(validate(1, 100, 200, 100), Ok(()));
}

#[test]
fn plan_creation_decides_without_mutating() {
    let taken = plan_creation(
        true,
        7,
        String::from("AG_TAKEN"),
        String::from("landlord_principal"),
        String::from("tenant_principal"),
        None,
        1000,
        2000,
        100,
        200,
        10,
    );
    assert!(matches!(taken, Err(Error::DuplicateAgreement)));

    let fresh = plan_creation(
        false,
        7,
        String::from("AG_FRESH"),
        String::from("landlord_principal"),
        String::from("tenant_principal"),
        None,
        1000,
        2000,
        100,
        200,
        10,
    );
    let (record, next_count) = fresh.unwrap();
    assert_eq!(next_count, 8);
    assert_eq!(record.agreement_id, String::from("AG_FRESH"));
    assert_eq!(record.status, AgreementStatus::Draft);
    assert_eq!(record.monthly_rent, 1000);
    assert_eq!(record.security_deposit, 2000);
    assert_eq!(record.start_date, 100);
    assert_eq!(record.end_date, 200);
    assert_eq!(record.agent_commission_rate, 10);
}

#[test]
fn security_deposit_is_accepted_as_given() {
    // No sign or range invariant is enforced on the deposit.
    let mut store = AgreementStore::new();
    let agreement_id = String::from("AG_NEG_DEPOSIT");
    let result = store.create_agreement(
        agreement_id.clone(),
        String::from("landlord_principal"),
        String::from("tenant_principal"),
        None,
        10,
        -500,
        1,
        2,
        0,
    );
    assert_eq!(result, Ok(()));
    assert_eq!(store.get_agreement(&agreement_id).unwrap().security_deposit, -500);
}

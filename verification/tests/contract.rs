use jumpring::contract::{
    check_sent_required_payment, execute, imbibe_potion, instantiate, number_of_swigs, query,
    reply, step_through_jumpring,
};
use jumpring::error::ContractError;
use jumpring::msg::{
    Coin, ExecuteMsg, InstantiateMsg, MessageInfo, PortalMsg, QueryMsg, ReplyOutcome,
};
use jumpring::species::{SapienceScale, Species, Traveler};
use jumpring::state::Hub;

const AUTHORITY_ADDR: &str = "wasm_secret_address_do_not_reveal_to_anyone";

fn info(sender: &str) -> MessageInfo {
    MessageInfo { sender: String::from(sender), funds: Vec::new() }
}

fn info_with_funds(sender: &str, denom: &str, amount: u128) -> MessageInfo {
    MessageInfo {
        sender: String::from(sender),
        funds: vec![Coin { denom: String::from(denom), amount }],
    }
}

fn species(name: &str, level: SapienceScale) -> Species {
    Species { name: String::from(name), sapience_level: level }
}

fn traveler(cyberdized: bool) -> Traveler {
    Traveler {
        name: String::from("Bob"),
        home: String::from("earth"),
        species: species("human", SapienceScale::Medium),
        cyberdized,
    }
}

fn fresh_hub() -> Hub {
    instantiate(info("deployer"), InstantiateMsg { dna_length: 8, dna_modulus: 10 }).unwrap()
}

fn register(hub: &mut Hub, sender: &str, level: SapienceScale) {
    let r = imbibe_potion(String::from(sender), species("human", level), hub, info(sender));
    assert!(r.is_ok());
}

#[test]
fn instantiate_sets_defaults() {
    let hub = fresh_hub();
    assert_eq!(hub.config.owner, "deployer");
    assert_eq!(hub.config.dna_length, 8);
    assert_eq!(hub.config.dna_modulus, 10);
    assert_eq!(hub.config.swigs, 3);
    assert_eq!(number_of_swigs(&hub).swigs, 3);
}

#[test]
fn instantiate_rejects_overlong_dna() {
    let r = instantiate(info("deployer"), InstantiateMsg { dna_length: 33, dna_modulus: 10 });
    match r {
        Err(e) => assert_eq!(e, ContractError::DnaOutOfRange),
        Ok(_) => panic!("expected a rejection"),
    }
}

#[test]
fn instantiate_rejects_zero_modulus() {
    let r = instantiate(info("deployer"), InstantiateMsg { dna_length: 8, dna_modulus: 0 });
    match r {
        Err(e) => assert_eq!(e, ContractError::DnaOutOfRange),
        Ok(_) => panic!("expected a rejection"),
    }
}

#[test]
fn swigs_decrement_per_registration() {
    let mut hub = fresh_hub();
    register(&mut hub, "a", SapienceScale::Low);
    assert_eq!(number_of_swigs(&hub).swigs, 2);
    register(&mut hub, "b", SapienceScale::Low);
    assert_eq!(number_of_swigs(&hub).swigs, 1);
    register(&mut hub, "c", SapienceScale::Low);
    assert_eq!(number_of_swigs(&hub).swigs, 0);
}

#[test]
fn registration_fails_when_budget_exhausted() {
    let mut hub = fresh_hub();
    register(&mut hub, "a", SapienceScale::Low);
    register(&mut hub, "b", SapienceScale::Low);
    register(&mut hub, "c", SapienceScale::Low);
    let r = imbibe_potion(
        String::from("d"),
        species("human", SapienceScale::Low),
        &mut hub,
        info("d"),
    );
    match r {
        Err(e) => assert_eq!(e, ContractError::OutOfSwigs),
        Ok(_) => panic!("expected exhaustion"),
    }
    assert_eq!(number_of_swigs(&hub).swigs, 0);
    assert!(hub.registry.load(&String::from("d")).is_none());
}

#[test]
fn registration_stores_record_and_derived_data() {
    let mut hub = fresh_hub();
    register(&mut hub, "bob", SapienceScale::Medium);
    let rec = hub.registry.load(&String::from("bob")).expect("record");
    assert_eq!(rec.address, "bob");
    assert_eq!(rec.name, "bob");
    assert_eq!(rec.species.name, "human");
    assert_eq!(rec.species.sapience_level, SapienceScale::Medium);
    let dna = jumpring::dna::cyborg_dna_generator(&String::from("bob"), 8, 10).unwrap();
    assert_eq!(rec.cyborg_dna, dna);
}

#[test]
fn registration_emits_one_notification() {
    let mut hub = fresh_hub();
    let r = imbibe_potion(
        String::from("Bob"),
        species("human", SapienceScale::High),
        &mut hub,
        info("bob"),
    );
    let resp = r.unwrap_or_else(|_| panic!("expected success"));
    assert_eq!(resp.messages.len(), 1);
    let m = &resp.messages[0];
    assert_eq!(m.contract_addr, AUTHORITY_ADDR);
    assert!(m.funds.is_empty());
    assert!(m.reply_on_error);
    match &m.msg {
        PortalMsg::Snitch { address, name, species } => {
            assert_eq!(address.as_str(), "bob");
            assert_eq!(name.as_str(), "Bob");
            assert_eq!(species.name, "human");
            assert_eq!(species.sapience_level, SapienceScale::High);
        }
        _ => panic!("expected a notification"),
    }
}

#[test]
fn reregistration_overwrites_deterministically() {
    let mut hub = fresh_hub();
    let first = imbibe_potion(
        String::from("Bob"),
        species("human", SapienceScale::Low),
        &mut hub,
        info("bob"),
    );
    assert!(first.is_ok());
    let second = imbibe_potion(
        String::from("Robert"),
        species("cyborg", SapienceScale::High),
        &mut hub,
        info("bob"),
    );
    assert!(second.is_ok());
    assert_eq!(number_of_swigs(&hub).swigs, 1);
    let rec = hub.registry.load(&String::from("bob")).expect("record");
    assert_eq!(rec.name, "Robert");
    assert_eq!(rec.species.name, "cyborg");
    assert_eq!(rec.species.sapience_level, SapienceScale::High);
    // The derived data depends only on the identity and the parameters.
    let dna = jumpring::dna::cyborg_dna_generator(&String::from("bob"), 8, 10).unwrap();
    assert_eq!(rec.cyborg_dna, dna);
}

#[test]
fn transfer_rejects_non_cyborg_regardless_of_funds() {
    let mut hub = fresh_hub();
    register(&mut hub, "bob", SapienceScale::High);
    let r = step_through_jumpring(
        String::from("portal"),
        String::from("earth"),
        traveler(false),
        SapienceScale::Low,
        &hub,
        info_with_funds("bob", "PORT", 5),
    );
    match r {
        Err(e) => assert_eq!(e, ContractError::NotACyborg),
        Ok(_) => panic!("expected a rejection"),
    }
    // The transfer mutated nothing.
    assert_eq!(number_of_swigs(&hub).swigs, 2);
    assert!(hub.registry.load(&String::from("bob")).is_some());
}

#[test]
fn transfer_succeeds_with_funds_and_capability() {
    let mut hub = fresh_hub();
    register(&mut hub, "bob", SapienceScale::Medium);
    let r = step_through_jumpring(
        String::from("portal"),
        String::from("earth"),
        traveler(true),
        SapienceScale::Low,
        &hub,
        info_with_funds("bob", "PORT", 1),
    );
    let resp = r.unwrap_or_else(|_| panic!("expected success"));
    assert_eq!(resp.messages.len(), 1);
    let m = &resp.messages[0];
    assert_eq!(m.contract_addr, "portal");
    assert!(m.funds.is_empty());
    assert!(!m.reply_on_error);
    match &m.msg {
        PortalMsg::JumpRingTravel { to } => assert_eq!(to.as_str(), "earth"),
        _ => panic!("expected a travel order"),
    }
}

#[test]
fn transfer_rejects_insufficient_capability() {
    let mut hub = fresh_hub();
    register(&mut hub, "bob", SapienceScale::Low);
    let r = step_through_jumpring(
        String::from("portal"),
        String::from("earth"),
        traveler(true),
        SapienceScale::Medium,
        &hub,
        info_with_funds("bob", "PORT", 1),
    );
    match r {
        Err(e) => assert_eq!(e, ContractError::NotSapientEnough),
        Ok(_) => panic!("expected a rejection"),
    }
}

#[test]
fn transfer_rejects_unregistered_caller() {
    let hub = fresh_hub();
    let r = step_through_jumpring(
        String::from("portal"),
        String::from("earth"),
        traveler(true),
        SapienceScale::Low,
        &hub,
        info_with_funds("bob", "PORT", 1),
    );
    match r {
        Err(e) => assert_eq!(e, ContractError::NotRegistered),
        Ok(_) => panic!("expected a rejection"),
    }
}

#[test]
fn transfer_rejects_wrong_denomination() {
    let mut hub = fresh_hub();
    register(&mut hub, "bob", SapienceScale::High);
    let r = step_through_jumpring(
        String::from("portal"),
        String::from("earth"),
        traveler(true),
        SapienceScale::Low,
        &hub,
        info_with_funds("bob", "GOLD", 5),
    );
    match r {
        Err(e) => assert_eq!(e, ContractError::NotEnoughFunds),
        Ok(_) => panic!("expected a rejection"),
    }
}

#[test]
fn transfer_rejects_missing_funds() {
    let mut hub = fresh_hub();
    register(&mut hub, "bob", SapienceScale::High);
    let r = step_through_jumpring(
        String::from("portal"),
        String::from("earth"),
        traveler(true),
        SapienceScale::Low,
        &hub,
        info("bob"),
    );
    match r {
        Err(e) => assert_eq!(e, ContractError::NotEnoughFunds),
        Ok(_) => panic!("expected a rejection"),
    }
}

#[test]
fn payment_check_without_requirement_accepts_anything() {
    let funds: Vec<Coin> = Vec::new();
    assert!(check_sent_required_payment(&funds, None).is_ok());
}

#[test]
fn payment_check_with_zero_amount_accepts_anything() {
    let funds: Vec<Coin> = Vec::new();
    let required = Coin { denom: String::from("PORT"), amount: 0 };
    assert!(check_sent_required_payment(&funds, Some(required)).is_ok());
}

#[test]
fn payment_check_rejects_small_amount() {
    let funds = vec![Coin { denom: String::from("PORT"), amount: 2 }];
    let required = Coin { denom: String::from("PORT"), amount: 3 };
    match check_sent_required_payment(&funds, Some(required)) {
        Err(e) => assert_eq!(e, ContractError::NotEnoughFunds),
        Ok(_) => panic!("expected a rejection"),
    }
}

#[test]
fn payment_check_accepts_matching_coin_among_others() {
    let funds = vec![
        Coin { denom: String::from("GOLD"), amount: 100 },
        Coin { denom: String::from("PORT"), amount: 3 },
    ];
    let required = Coin { denom: String::from("PORT"), amount: 3 };
    assert!(check_sent_required_payment(&funds, Some(required)).is_ok());
}

#[test]
fn execute_routes_both_commands() {
    let mut hub = fresh_hub();
    let r = execute(
        &mut hub,
        info("bob"),
        ExecuteMsg::ImbibePotion {
            name: String::from("Bob"),
            species: species("human", SapienceScale::Medium),
        },
        None,
    );
    assert!(r.is_ok());
    assert_eq!(number_of_swigs(&hub).swigs, 2);
    let r = execute(
        &mut hub,
        info_with_funds("bob", "PORT", 1),
        ExecuteMsg::StepThroughJumpRing {
            portal: String::from("portal"),
            destination: String::from("earth"),
            traveler: traveler(true),
        },
        Some(SapienceScale::Low),
    );
    assert!(r.is_ok());
    assert_eq!(number_of_swigs(&hub).swigs, 2);
}

#[test]
fn query_reports_swigs() {
    let mut hub = fresh_hub();
    register(&mut hub, "bob", SapienceScale::Low);
    let resp = query(&hub, QueryMsg::NumberOfSwigs);
    assert_eq!(resp.swigs, 2);
}

#[test]
fn reply_success_is_a_no_op() {
    let mut hub = fresh_hub();
    register(&mut hub, "bob", SapienceScale::Low);
    let r = reply(&mut hub, ReplyOutcome::Completed);
    let resp = r.unwrap_or_else(|_| panic!("expected success"));
    assert!(resp.messages.is_empty());
    assert_eq!(number_of_swigs(&hub).swigs, 2);
}

#[test]
fn reply_failure_surfaces_error_and_keeps_state() {
    let mut hub = fresh_hub();
    register(&mut hub, "bob", SapienceScale::Low);
    let r = reply(&mut hub, ReplyOutcome::Failed(String::from("downstream says no")));
    match r {
        Err(e) => assert_eq!(e, ContractError::NothingToSeeHere),
        Ok(_) => panic!("expected an error"),
    }
    // The budget decrement and the registry write stay in effect.
    assert_eq!(number_of_swigs(&hub).swigs, 2);
    assert!(hub.registry.load(&String::from("bob")).is_some());
}

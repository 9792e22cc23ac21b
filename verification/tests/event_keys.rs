//! Tests for the event-subscription key grammar, one per branch.

use node_config::EventKeyType;

fn chars_string(v: &Vec<char>) -> String {
    v.iter().collect()
}

#[test]
fn star_is_any_event() {
    let k = EventKeyType::from_string("*");
    assert!(matches!(k, Some(EventKeyType::AnyEvent)));
}

#[test]
fn stx_is_stx_event() {
    let k = EventKeyType::from_string("stx");
    assert!(matches!(k, Some(EventKeyType::STXEvent)));
}

#[test]
fn asset_key_parses() {
    let k = EventKeyType::from_string("SP000000000000000000002Q6VF78.my-contract.my-asset");
    match k {
        Some(EventKeyType::AssetEvent(a)) => {
            assert_eq!(
                chars_string(&a.contract_identifier.issuer.literal),
                "SP000000000000000000002Q6VF78"
            );
            assert_eq!(chars_string(&a.contract_identifier.name), "my-contract");
            assert_eq!(chars_string(&a.asset_name), "my-asset");
        }
        _ => panic!("expected an asset event"),
    }
}

#[test]
fn smart_contract_key_parses() {
    let k = EventKeyType::from_string("SP000000000000000000002Q6VF78.my-contract::my-event");
    match k {
        Some(EventKeyType::SmartContractEvent((q, name))) => {
            assert_eq!(chars_string(&q.issuer.literal), "SP000000000000000000002Q6VF78");
            assert_eq!(chars_string(&q.name), "my-contract");
            assert_eq!(chars_string(&name), "my-event");
        }
        _ => panic!("expected a smart-contract event"),
    }
}

#[test]
fn wrong_dot_count_is_no_match() {
    assert!(EventKeyType::from_string("not.a.valid..key").is_none());
}

#[test]
fn three_segments_is_no_match() {
    assert!(EventKeyType::from_string("a::b::c").is_none());
}

#[test]
fn bad_principal_in_asset_key_is_no_match() {
    assert!(EventKeyType::from_string("XP000.my-contract.my-asset").is_none());
}

#[test]
fn bad_contract_name_is_no_match() {
    assert!(EventKeyType::from_string("SP000000000000000000002Q6VF78.9bad.my-asset").is_none());
}

#[test]
fn empty_key_is_no_match() {
    assert!(EventKeyType::from_string("").is_none());
}

#[test]
fn smart_contract_event_name_is_unvalidated() {
    let k = EventKeyType::from_string("SP000000000000000000002Q6VF78.my-contract::!!odd name!!");
    match k {
        Some(EventKeyType::SmartContractEvent((_, name))) => {
            assert_eq!(chars_string(&name), "!!odd name!!");
        }
        _ => panic!("expected a smart-contract event"),
    }
}

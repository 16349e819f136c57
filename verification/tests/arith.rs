use nearshield::wire::decimal_string;
use nearshield::{percent_of, Contract};

#[test]
fn new_contract_is_empty() {
    let c = Contract::new("a".to_string(), "t".to_string());
    assert_eq!(c.next_campaign_id, 1);
    assert_eq!(c.next_submission_id, 1);
    assert_eq!(c.admin, "a");
    assert_eq!(c.treasury, "t");
    assert!(!c.paused);
    assert!(c.get_campaign(1).is_none());
    assert!(c.get_submission(1).is_none());
    assert!(c.get_campaigns(None, None).is_empty());
    assert!(c.get_top_finders(3).is_empty());
}

#[test]
fn percent_of_rounds_down() {
    assert_eq!(percent_of(1000, 50), 500);
    assert_eq!(percent_of(199, 1), 1);
    assert_eq!(percent_of(99, 1), 0);
    assert_eq!(percent_of(12345, 33), 4073);
    assert_eq!(percent_of(u128::MAX, 100), u128::MAX);
    assert_eq!(percent_of(u128::MAX, 1), u128::MAX / 100);
    assert_eq!(percent_of(u128::MAX, 0), 0);
    assert_eq!(percent_of(0, 100), 0);
}

#[test]
fn decimal_digits_of_balances() {
    assert_eq!(decimal_string(0), "0");
    assert_eq!(decimal_string(7), "7");
    assert_eq!(decimal_string(10), "10");
    assert_eq!(decimal_string(1234567890), "1234567890");
    assert_eq!(decimal_string(9_007_199_254_740_993), "9007199254740993");
    assert_eq!(decimal_string(u128::MAX), "340282366920938463463374607431768211455");
    for n in [1u128, 99, 100, 101, 4096, 10u128.pow(38)] {
        assert_eq!(decimal_string(n), n.to_string());
    }
}

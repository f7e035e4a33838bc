use stripe::digits::{i64_to_dec, u64_to_dec};
use stripe::encode::query_string;
use stripe::params::Percent;
use stripe::subscription::{
    ItemParams, SubscriptionParams, TrialEnd, UsageRecordAction, UsageRecordParams,
};

fn pair(k: &str, v: &str) -> (String, String) {
    (k.to_string(), v.to_string())
}

#[test]
fn unset_fields_are_omitted() {
    let params = SubscriptionParams::default();
    assert_eq!(params.encode(), Vec::<(String, String)>::new());
}

#[test]
fn every_set_field_is_included_in_declaration_order() {
    let params = SubscriptionParams {
        customer: Some("cus_1".to_string()),
        application_fee_percent: Some(Percent { hundredths: 290 }),
        coupon: Some("OFF10".to_string()),
        items: Some(vec![
            ItemParams { plan: "gold".to_string(), quantity: Some(3) },
            ItemParams { plan: "silver".to_string(), quantity: None },
        ]),
        metadata: Some(vec![pair("color", "blue")]),
        plan: Some("gold".to_string()),
        prorate: Some(true),
        proration_date: Some(1_500_000_000),
        quantity: Some(2),
        source: Some("tok_visa".to_string()),
        tax_percent: Some(Percent { hundredths: 2000 }),
        trial_end: Some(TrialEnd::Timestamp(1_600_000_000)),
        trial_period_days: Some(30),
    };
    assert_eq!(
        params.encode(),
        vec![
            pair("customer", "cus_1"),
            pair("application_fee_percent", "2.90"),
            pair("coupon", "OFF10"),
            pair("items[0][plan]", "gold"),
            pair("items[0][quantity]", "3"),
            pair("items[1][plan]", "silver"),
            pair("metadata[color]", "blue"),
            pair("plan", "gold"),
            pair("prorate", "true"),
            pair("proration_date", "1500000000"),
            pair("quantity", "2"),
            pair("source", "tok_visa"),
            pair("tax_percent", "20.00"),
            pair("trial_end", "1600000000"),
            pair("trial_period_days", "30"),
        ]
    );
}

#[test]
fn one_set_field_contributes_exactly_one_pair() {
    let mut params = SubscriptionParams::default();
    params.quantity = Some(7);
    assert_eq!(params.encode(), vec![pair("quantity", "7")]);
}

#[test]
fn special_trial_end_is_encoded_verbatim() {
    let mut params = SubscriptionParams::default();
    params.trial_end = Some(TrialEnd::Special("now".to_string()));
    assert_eq!(params.encode(), vec![pair("trial_end", "now")]);
}

#[test]
fn usage_record_encoding_includes_action_only_when_set() {
    let without = UsageRecordParams { timestamp: 7, quantity: 1, action: None };
    assert_eq!(
        without.encode(),
        vec![pair("timestamp", "7"), pair("quantity", "1")]
    );
    let with = UsageRecordParams {
        timestamp: -3,
        quantity: 1,
        action: Some("set".to_string()),
    };
    assert_eq!(
        with.encode(),
        vec![pair("timestamp", "-3"), pair("quantity", "1"), pair("action", "set")]
    );
}

#[test]
fn usage_record_create_maps_the_action() {
    let none = UsageRecordParams::create(5, None);
    assert_eq!(none.quantity, 5);
    assert_eq!(none.action, None);
    // The timestamp comes from the wall clock: well after 2020, well before 2100.
    assert!(none.timestamp > 1_600_000_000);
    assert!(none.timestamp < 4_100_000_000);
    let inc = UsageRecordParams::create(6, Some(UsageRecordAction::Increment));
    assert_eq!(inc.action, Some("increment".to_string()));
    let set = UsageRecordParams::create(7, Some(UsageRecordAction::SetQuantity));
    assert_eq!(set.action, Some("set".to_string()));
}

#[test]
fn action_names() {
    assert_eq!(UsageRecordAction::Increment.name(), "increment");
    assert_eq!(UsageRecordAction::SetQuantity.name(), "set");
}

#[test]
fn decimal_rendering() {
    assert_eq!(u64_to_dec(0), "0");
    assert_eq!(u64_to_dec(12345), "12345");
    assert_eq!(u64_to_dec(u64::MAX), "18446744073709551615");
    assert_eq!(i64_to_dec(-42), "-42");
    assert_eq!(i64_to_dec(0), "0");
    assert_eq!(i64_to_dec(i64::MIN), "-9223372036854775808");
}

#[test]
fn percent_rendering() {
    assert_eq!(Percent { hundredths: 290 }.render(), "2.90");
    assert_eq!(Percent { hundredths: 1000 }.render(), "10.00");
    assert_eq!(Percent { hundredths: 5 }.render(), "0.05");
    assert_eq!(Percent { hundredths: 0 }.render(), "0.00");
}

#[test]
fn query_string_joins_pairs() {
    assert_eq!(query_string(&vec![]), "");
    assert_eq!(query_string(&vec![pair("a", "1")]), "a=1");
    assert_eq!(
        query_string(&vec![pair("a", "1"), pair("b", "2"), pair("c", "3")]),
        "a=1&b=2&c=3"
    );
}

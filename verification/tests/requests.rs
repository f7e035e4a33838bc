use stripe::request::Method;
use stripe::subscription::{
    CancelParams, Subscription, SubscriptionParams, UsageRecord, UsageRecordParams,
};

#[test]
fn create_posts_to_collection_path() {
    let params = SubscriptionParams::default();
    let r = Subscription::create_request(&params);
    assert_eq!(r.method, Method::Post);
    assert_eq!(r.path, "/subscriptions");
    assert!(r.body.is_empty());
}

#[test]
fn retrieve_interpolates_identifier() {
    let r = Subscription::retrieve_request("sub_123");
    assert_eq!(r.method, Method::Get);
    assert_eq!(r.path, "/subscriptions/sub_123");
    assert!(r.body.is_empty());
}

#[test]
fn update_posts_to_item_path() {
    let mut params = SubscriptionParams::default();
    params.plan = Some("plan_basic".to_string());
    let r = Subscription::update_request("sub_456", &params);
    assert_eq!(r.method, Method::Post);
    assert_eq!(r.path, "/subscriptions/sub_456");
    assert_eq!(
        r.body,
        vec![("plan".to_string(), "plan_basic".to_string())]
    );
}

#[test]
fn cancel_puts_parameters_in_query_string() {
    let params = CancelParams { at_period_end: Some(true) };
    let r = Subscription::cancel_request("sub_123", &params);
    assert_eq!(r.method, Method::Delete);
    assert_eq!(r.path, "/subscriptions/sub_123?at_period_end=true");
    assert!(r.body.is_empty());
}

#[test]
fn cancel_with_flag_false() {
    let params = CancelParams { at_period_end: Some(false) };
    let r = Subscription::cancel_request("sub_123", &params);
    assert_eq!(r.path, "/subscriptions/sub_123?at_period_end=false");
}

#[test]
fn cancel_with_nothing_set_has_empty_query() {
    let params = CancelParams::default();
    let r = Subscription::cancel_request("sub_9", &params);
    assert_eq!(r.path, "/subscriptions/sub_9?");
}

#[test]
fn usage_record_posts_to_nested_collection_path() {
    let params = UsageRecordParams {
        timestamp: 1_500_000_000,
        quantity: 42,
        action: None,
    };
    let r = UsageRecord::create_request("si_789", &params);
    assert_eq!(r.method, Method::Post);
    assert_eq!(r.path, "/subscription_items/si_789/usage_records");
    assert_eq!(
        r.body,
        vec![
            ("timestamp".to_string(), "1500000000".to_string()),
            ("quantity".to_string(), "42".to_string()),
        ]
    );
}

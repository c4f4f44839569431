use ingestion::activity::{
    build_transaction, parse_activity_to_transaction, transactions_from_activity, ActivityError,
    ActivityEvent,
};
use ingestion::models::Product;
use ingestion::time::Timestamp;

fn stored_variant(offer: Option<i64>, listing: Option<i64>) -> Product {
    let t = Timestamp { secs: 1_700_000_000, nanos: 0 };
    Product {
        id: 42,
        pure_product_id: "prod".to_string(),
        pure_variant_id: "var".to_string(),
        name: "Maple Leaf".to_string(),
        sku: "ML-1".to_string(),
        material: "gold".to_string(),
        variant_label: "1 oz".to_string(),
        image_url: None,
        highest_offer_spot_premium: offer,
        lowest_listing_spot_premium: listing,
        market_data_updated_at: Some(t),
        created_at: t,
        updated_at: t,
    }
}

fn trade(created_at: &str, premium: i64) -> ActivityEvent {
    ActivityEvent {
        event: "sale".to_string(),
        created_at: created_at.to_string(),
        price: 2_345_670_000,
        quantity: 3,
        spot_premium: premium,
        spot_premium_dollar: 120_500_000,
    }
}

#[test]
fn event_time_text_is_parsed_to_utc() {
    let p = stored_variant(Some(2_000_000), Some(6_000_000));
    let t = parse_activity_to_transaction(trade("2024-01-15 10:30:00.250+0200", 5_000_000), &p).unwrap();
    assert_eq!(t.event_time, Timestamp { secs: 1_705_307_400, nanos: 250_000_000 });
    assert_eq!(t.product_id, 42);
    assert_eq!(t.pure_product_id, "prod");
    assert_eq!(t.pure_variant_id, "var");
    assert_eq!(t.price, 2_345_670_000);
    assert_eq!(t.quantity, 3);
    assert_eq!(t.spot_premium_percentage, 5_000_000);
    assert_eq!(t.spot_premium_dollar, 120_500_000);
    assert_eq!(t.event_type.as_deref(), Some("buy"));
}

#[test]
fn event_time_without_fraction_or_offset_minutes() {
    let p = stored_variant(None, Some(1));
    let t = parse_activity_to_transaction(trade("2024-01-15 10:30:00+00", 0), &p).unwrap();
    assert_eq!(t.event_time, Timestamp { secs: 1_705_314_600, nanos: 0 });
    assert_eq!(t.event_type.as_deref(), Some("unknown"));
}

#[test]
fn unparsable_event_time_is_rejected() {
    let p = stored_variant(None, None);
    assert_eq!(parse_activity_to_transaction(trade("2024-01-15T10:30:00Z", 0), &p), Err(ActivityError::InvalidEventTime));
    assert_eq!(parse_activity_to_transaction(trade("", 0), &p), Err(ActivityError::InvalidEventTime));
}

#[test]
fn bad_events_are_skipped_not_fatal() {
    let p = stored_variant(Some(2_000_000), Some(6_000_000));
    let events = vec![
        trade("2024-01-15 10:30:00+0000", 3_000_000),
        trade("yesterday", 5_000_000),
        trade("2024-01-15 08:30:00.5-0200", 5_000_000),
    ];
    let report = transactions_from_activity(events, &p);
    assert_eq!(report.skipped_events, vec![1]);
    assert_eq!(report.transactions.len(), 2);
    assert_eq!(report.transactions[0].event_type.as_deref(), Some("sell"));
    assert_eq!(report.transactions[1].event_type.as_deref(), Some("buy"));
    assert_eq!(report.transactions[1].event_time, Timestamp { secs: 1_705_314_600, nanos: 500_000_000 });
}

#[test]
fn transaction_built_at_given_time() {
    let p = stored_variant(Some(2_000_000), Some(6_000_000));
    let at = Timestamp { secs: 7, nanos: 8 };
    let t = build_transaction(&trade("ignored", 4_000_000), &p, at);
    assert_eq!(t.event_time, at);
    assert_eq!(t.event_type.as_deref(), Some("sell"));
}

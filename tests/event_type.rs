use ingestion::event_type::{classify, determine_event_type, EventType};

#[test]
fn test_closer_to_listing_is_buy() {
    // Premium of 5.0 is closer to listing (6.0) than offer (2.0)
    assert_eq!(determine_event_type(5_000_000, Some(2_000_000), Some(6_000_000)), "buy");
}

#[test]
fn test_closer_to_offer_is_sell() {
    // Premium of 3.0 is closer to offer (2.0) than listing (6.0)
    assert_eq!(determine_event_type(3_000_000, Some(2_000_000), Some(6_000_000)), "sell");
}

#[test]
fn test_missing_offer() {
    assert_eq!(determine_event_type(5_000_000, None, Some(6_000_000)), "unknown");
}

#[test]
fn test_missing_listing() {
    assert_eq!(determine_event_type(5_000_000, Some(2_000_000), None), "unknown");
}

#[test]
fn test_both_missing() {
    assert_eq!(determine_event_type(5_000_000, None, None), "unknown");
}

#[test]
fn equidistant_premium_is_sell() {
    assert_eq!(determine_event_type(4_000_000, Some(2_000_000), Some(6_000_000)), "sell");
    assert_eq!(classify(4, Some(2), Some(6)), EventType::Sell);
}

#[test]
fn classify_unknown_whenever_an_extreme_is_missing() {
    for p in [i64::MIN, -7, 0, 5, i64::MAX] {
        assert_eq!(classify(p, None, Some(3)), EventType::Unknown);
        assert_eq!(classify(p, Some(3), None), EventType::Unknown);
    }
}

#[test]
fn classify_extreme_values_do_not_overflow() {
    assert_eq!(classify(i64::MAX, Some(i64::MIN), Some(i64::MAX)), EventType::Buy);
    assert_eq!(classify(i64::MIN, Some(i64::MIN), Some(i64::MAX)), EventType::Sell);
}

#[test]
fn event_type_labels() {
    assert_eq!(EventType::Buy.as_str(), "buy");
    assert_eq!(EventType::Sell.as_str(), "sell");
    assert_eq!(EventType::Unknown.as_str(), "unknown");
}

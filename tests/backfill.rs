use ingestion::backfill::{classify_page, EventTypeUpdate, StoredPremium, VariantIndex};
use ingestion::models::Product;
use ingestion::time::Timestamp;

fn row_of_variant(pid: &str, vid: &str, offer: Option<i64>, listing: Option<i64>) -> Product {
    let t = Timestamp { secs: 0, nanos: 0 };
    Product {
        id: 1,
        pure_product_id: pid.to_string(),
        pure_variant_id: vid.to_string(),
        name: String::new(),
        sku: String::new(),
        material: String::new(),
        variant_label: String::new(),
        image_url: None,
        highest_offer_spot_premium: offer,
        lowest_listing_spot_premium: listing,
        market_data_updated_at: None,
        created_at: t,
        updated_at: t,
    }
}

fn premium_row(id: i64, pid: &str, vid: &str, premium: i64) -> StoredPremium {
    StoredPremium {
        transaction_id: id,
        pure_product_id: pid.to_string(),
        pure_variant_id: vid.to_string(),
        spot_premium_percentage: premium,
    }
}

#[test]
fn page_is_classified_and_unknown_variants_noted() {
    let index = VariantIndex::build(vec![
        row_of_variant("p", "v", Some(2), Some(6)),
        row_of_variant("p", "w", None, Some(6)),
    ]);
    let rows = vec![
        premium_row(10, "p", "v", 5),
        premium_row(11, "x", "v", 5),
        premium_row(12, "p", "v", 3),
        premium_row(13, "p", "w", 3),
    ];
    let page = classify_page(&index, &rows);
    assert_eq!(
        page.updates,
        vec![
            EventTypeUpdate { transaction_id: 10, event_type: "buy".to_string() },
            EventTypeUpdate { transaction_id: 12, event_type: "sell".to_string() },
            EventTypeUpdate { transaction_id: 13, event_type: "unknown".to_string() },
        ]
    );
    assert_eq!(page.missing_variant, vec![11]);
}

#[test]
fn index_later_duplicate_wins() {
    let index = VariantIndex::build(vec![row_of_variant("p", "v", Some(1), None), row_of_variant("p", "v", Some(9), Some(9))]);
    assert_eq!(index.get(&"p".to_string(), &"v".to_string()).unwrap().highest_offer_spot_premium, Some(9));
    assert!(index.get(&"p".to_string(), &"x".to_string()).is_none());
    let empty = classify_page(&index, &[]);
    assert!(empty.updates.is_empty() && empty.missing_variant.is_empty());
}

use ingestion::models::{NewProduct, NewTransaction};
use ingestion::store::{ProductTable, TransactionTable};
use ingestion::time::Timestamp;

fn variant_record(pid: &str, vid: &str, name: &str, offer: Option<i64>) -> NewProduct {
    NewProduct {
        pure_product_id: pid.to_string(),
        pure_variant_id: vid.to_string(),
        name: name.to_string(),
        sku: "S".to_string(),
        material: "gold".to_string(),
        variant_label: "1 oz".to_string(),
        image_url: None,
        highest_offer_spot_premium: offer,
        lowest_listing_spot_premium: None,
        market_data_updated_at: Some(Timestamp { secs: 1, nanos: 0 }),
    }
}

fn trade_record(secs: i64, pid: &str, vid: &str, price: i64) -> NewTransaction {
    NewTransaction {
        product_id: 1,
        pure_product_id: pid.to_string(),
        pure_variant_id: vid.to_string(),
        price,
        quantity: 1,
        spot_premium_percentage: 0,
        spot_premium_dollar: 0,
        event_time: Timestamp { secs, nanos: 0 },
        event_type: Some("sell".to_string()),
    }
}

#[test]
fn product_upsert_twice_keeps_one_row() {
    let mut table = ProductTable::new();
    let rec = variant_record("p", "v", "Eagle", Some(5));
    table.upsert(rec.clone());
    table.upsert(rec.clone());
    assert_eq!(table.len(), 1);
    assert_eq!(table.get(&"p".to_string(), &"v".to_string()), Some(&rec));
}

#[test]
fn product_upsert_replaces_non_key_fields() {
    let mut table = ProductTable::new();
    table.upsert(variant_record("p", "v", "Old", Some(5)));
    table.upsert(variant_record("p", "w", "Other", None));
    table.upsert(variant_record("p", "v", "New", None));
    assert_eq!(table.len(), 2);
    let row = table.get(&"p".to_string(), &"v".to_string()).unwrap();
    assert_eq!(row.name, "New");
    assert_eq!(row.highest_offer_spot_premium, None);
    assert!(table.get(&"q".to_string(), &"v".to_string()).is_none());
}

#[test]
fn transaction_upsert_twice_keeps_one_row() {
    let mut table = TransactionTable::new();
    let rec = trade_record(100, "p", "v", 10);
    table.upsert(rec.clone());
    table.upsert(rec.clone());
    assert_eq!(table.len(), 1);
    assert_eq!(table.get(Timestamp { secs: 100, nanos: 0 }, &"p".to_string(), &"v".to_string()), Some(&rec));
}

#[test]
fn same_natural_key_collapses_to_latest_price() {
    let mut table = TransactionTable::new();
    table.upsert(trade_record(100, "p", "v", 10));
    table.upsert(trade_record(100, "p", "v", 25));
    table.upsert(trade_record(101, "p", "v", 7));
    assert_eq!(table.len(), 2);
    let row = table.get(Timestamp { secs: 100, nanos: 0 }, &"p".to_string(), &"v".to_string()).unwrap();
    assert_eq!(row.price, 25);
}

#[test]
fn batch_fold_keeps_last_record_per_key() {
    let table = TransactionTable::from_records(vec![
        trade_record(5, "p", "v", 1),
        trade_record(6, "p", "v", 2),
        trade_record(5, "p", "v", 3),
        trade_record(5, "p", "w", 4),
    ]);
    assert_eq!(table.len(), 3);
    let mut prices: Vec<i64> = table.rows().iter().map(|t| t.price).collect();
    prices.sort();
    assert_eq!(prices, vec![2, 3, 4]);
    let products = ProductTable::from_records(vec![
        variant_record("p", "v", "A", None),
        variant_record("p", "v", "B", Some(1)),
    ]);
    assert_eq!(products.rows().len(), 1);
    assert_eq!(products.rows()[0].name, "B");
    assert!(TransactionTable::from_records(vec![]).rows().is_empty());
}

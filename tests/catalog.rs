use ingestion::catalog::{
    assemble_new_products, assemble_new_products_at, build_product_map, chunk_product_ids,
    combine_variants_with_products, deduplicate_product_ids, flatten_variants, join_variants_at,
    BatchFetchReport, FlattenedProductVariant, MarketData, ProductData, ProductOption,
    ProductOptionsResponse, VariantData, VariantOption,
};
use ingestion::retry::{RetryConfig, RetryState};
use ingestion::time::Timestamp;

fn option(id: &str, variants: &[(&str, &str)]) -> ProductOption {
    ProductOption {
        value: id.to_string(),
        label: format!("label {}", id),
        variants: variants
            .iter()
            .map(|(v, l)| VariantOption { value: v.to_string(), label: l.to_string() })
            .collect(),
    }
}

fn flat(p: &str, v: &str, label: &str) -> FlattenedProductVariant {
    FlattenedProductVariant {
        pure_product_id: p.to_string(),
        pure_variant_id: v.to_string(),
        pure_variant_label: label.to_string(),
    }
}

fn quote(premium: i64) -> Option<MarketData> {
    Some(MarketData { spot_premium: premium })
}

fn detail(id: &str, title: &str, variants: Vec<VariantData>) -> ProductData {
    ProductData {
        id: id.to_string(),
        title: title.to_string(),
        sku: format!("SKU-{}", id),
        material: "silver".to_string(),
        variants,
    }
}

fn market(title: &str, offer: Option<MarketData>, listing: Option<MarketData>) -> VariantData {
    VariantData { title: title.to_string(), highest_offer: offer, lowest_listing: listing }
}

fn ids(list: &[&str]) -> Vec<String> {
    list.iter().map(|s| s.to_string()).collect()
}

const NOW: Timestamp = Timestamp { secs: 1_700_000_000, nanos: 5 };

#[test]
fn flatten_keeps_tree_order() {
    let tree = ProductOptionsResponse {
        data: vec![option("eagle", &[("v1", "1 oz"), ("v2", "10 oz")]), option("maple", &[]), option("krugerrand", &[("v3", "1 g")])],
    };
    let out = flatten_variants(&tree);
    assert_eq!(out, vec![flat("eagle", "v1", "1 oz"), flat("eagle", "v2", "10 oz"), flat("krugerrand", "v3", "1 g")]);
}

#[test]
fn flatten_empty_tree() {
    assert!(flatten_variants(&ProductOptionsResponse { data: vec![] }).is_empty());
}

#[test]
fn dedup_keeps_first_appearance() {
    let vs = vec![flat("b", "1", "x"), flat("a", "2", "y"), flat("b", "3", "z"), flat("c", "4", "w"), flat("a", "5", "v")];
    assert_eq!(deduplicate_product_ids(&vs), ids(&["b", "a", "c"]));
    assert!(deduplicate_product_ids(&[]).is_empty());
}

#[test]
fn chunking_gives_ceiling_many_chunks_in_order() {
    let all = ids(&["a", "b", "c", "d", "e"]);
    let chunks = chunk_product_ids(&all, 2);
    assert_eq!(chunks, vec![ids(&["a", "b"]), ids(&["c", "d"]), ids(&["e"])]);
    assert_eq!(chunk_product_ids(&all, 5), vec![all.clone()]);
    assert_eq!(chunk_product_ids(&all, 30), vec![all.clone()]);
    assert_eq!(chunk_product_ids(&all, 1).len(), 5);
    assert!(chunk_product_ids(&[], 3).is_empty());
    let even = ids(&["a", "b", "c", "d"]);
    assert_eq!(chunk_product_ids(&even, 2).len(), 2);
    let joined: Vec<String> = chunks.concat();
    assert_eq!(joined, all);
}

#[test]
fn batch_report_skips_failed_chunks() {
    let mut report = BatchFetchReport::new();
    report.record_batch(Some(vec![detail("a", "A", vec![])]));
    report.record_batch(None);
    report.record_batch(Some(vec![detail("b", "B", vec![]), detail("c", "C", vec![])]));
    report.record_batch(None);
    assert_eq!(report.batches_seen, 4);
    assert_eq!(report.failed_batches, vec![1, 3]);
    let got: Vec<String> = report.products.iter().map(|p| p.id.clone()).collect();
    assert_eq!(got, ids(&["a", "b", "c"]));
}

#[test]
fn product_map_later_duplicate_wins() {
    let map = build_product_map(vec![detail("a", "first", vec![]), detail("b", "B", vec![]), detail("a", "second", vec![])]);
    assert_eq!(map.get(&"a".to_string()).unwrap().title, "second");
    assert_eq!(map.get(&"b".to_string()).unwrap().title, "B");
    assert!(map.get(&"z".to_string()).is_none());
}

#[test]
fn join_takes_market_data_of_matching_label() {
    let map = build_product_map(vec![detail(
        "p",
        "Eagle",
        vec![
            market("1 oz", quote(1_500_000), quote(4_250_000)),
            market("1/2 oz", None, quote(7_000_000)),
            market("1 oz", quote(9), quote(9)),
        ],
    )]);
    let vs = vec![flat("p", "v1", "1 oz"), flat("p", "v2", "1/2 oz"), flat("p", "v3", "1/4 oz")];
    let out = join_variants_at(&vs, &map, NOW);
    assert_eq!(out.len(), 3);
    assert_eq!(out[0].pure_product_id, "p");
    assert_eq!(out[0].pure_variant_id, "v1");
    assert_eq!(out[0].name, "Eagle");
    assert_eq!(out[0].sku, "SKU-p");
    assert_eq!(out[0].material, "silver");
    assert_eq!(out[0].variant_label, "1 oz");
    assert_eq!(out[0].image_url, None);
    assert_eq!(out[0].highest_offer_spot_premium, Some(1_500_000));
    assert_eq!(out[0].lowest_listing_spot_premium, Some(4_250_000));
    assert_eq!(out[0].market_data_updated_at, Some(NOW));
    assert_eq!(out[1].highest_offer_spot_premium, None);
    assert_eq!(out[1].lowest_listing_spot_premium, Some(7_000_000));
    assert_eq!(out[2].highest_offer_spot_premium, None);
    assert_eq!(out[2].lowest_listing_spot_premium, None);
    assert_eq!(out[2].market_data_updated_at, Some(NOW));
}

#[test]
fn join_drops_variants_of_missing_products() {
    let map = build_product_map(vec![detail("kept", "K", vec![])]);
    let vs = vec![flat("gone", "v1", "x"), flat("kept", "v2", "y"), flat("gone", "v3", "z")];
    let out = join_variants_at(&vs, &map, NOW);
    assert_eq!(out.len(), 1);
    assert_eq!(out[0].pure_variant_id, "v2");
    assert!(out.iter().all(|r| r.pure_product_id != "gone"));
}

#[test]
fn combine_stamps_the_current_time() {
    let map = build_product_map(vec![detail("p", "P", vec![])]);
    let out = combine_variants_with_products(vec![flat("p", "v", "l"), flat("q", "w", "m")], &map);
    assert_eq!(out.len(), 1);
    let stamp = out[0].market_data_updated_at.expect("stamped");
    assert!(stamp.secs > 1_600_000_000);
}

#[test]
fn one_failed_chunk_leaves_one_record() {
    // Two products of one variant each, fetched in chunks of one; the second
    // chunk fails on every attempt.
    let tree = ProductOptionsResponse {
        data: vec![option("eagle", &[("v1", "1 oz")]), option("maple", &[("v2", "1 oz")])],
    };
    let variants = flatten_variants(&tree);
    let product_ids = deduplicate_product_ids(&variants);
    let chunks = chunk_product_ids(&product_ids, 1);
    assert_eq!(chunks.len(), 2);
    let mut report = BatchFetchReport::new();
    for chunk in &chunks {
        let mut retry = RetryState::start(RetryConfig { max_retries: 2, initial_backoff: 1, rate_limit_delay: 1 });
        let mut attempts = 1;
        let outcome = if chunk[0] == "eagle" {
            Some(vec![detail("eagle", "One", vec![market("1 oz", quote(1), quote(2))])])
        } else {
            while retry.on_failure().is_some() {
                attempts += 1;
            }
            assert_eq!(attempts, 3);
            None
        };
        report.record_batch(outcome);
    }
    let result = assemble_new_products(variants.clone(), report);
    assert_eq!(result.products.len(), 1);
    assert_eq!(result.products[0].pure_variant_id, "v1");
    assert!(result.products[0].market_data_updated_at.is_some());
    assert_eq!(result.failed_batches, vec![1]);
    assert_eq!(result.dropped_variants, vec![flat("maple", "v2", "1 oz")]);
}

#[test]
fn assembly_with_every_chunk_fetched_drops_nothing() {
    let variants = vec![flat("a", "1", "x"), flat("a", "2", "y")];
    let mut report = BatchFetchReport::new();
    report.record_batch(Some(vec![detail("a", "A", vec![market("y", quote(3), None)])]));
    let result = assemble_new_products_at(variants, report, NOW);
    assert_eq!(result.products.len(), 2);
    assert_eq!(result.products[1].highest_offer_spot_premium, Some(3));
    assert!(result.failed_batches.is_empty());
    assert!(result.dropped_variants.is_empty());
}

//! Stored records and the records prepared for writing.
//!
//! Decimal quantities (premiums, prices, dollar amounts) are fixed-point
//! integers counting millionths of a unit.

use vstd::prelude::*;

use crate::time::Timestamp;

verus! {

/// Number of fixed-point units in one whole unit of a decimal quantity.
pub const FIXED_POINT_SCALE: i64 = 1_000_000;

/// A stored trade event.
#[derive(Clone, Debug, PartialEq)]
pub struct Transaction {
    pub id: i64,
    pub product_id: i64,
    pub pure_product_id: String,
    pub pure_variant_id: String,
    pub price: i64,
    pub quantity: i32,
    pub spot_premium_percentage: i64,
    pub spot_premium_dollar: i64,
    pub event_time: Timestamp,
    pub event_type: Option<String>,
    pub created_at: Timestamp,
    pub updated_at: Timestamp,
}

/// A stored product variant with its latest market snapshot.
#[derive(Clone, Debug, PartialEq)]
pub struct Product {
    pub id: i64,
    pub pure_product_id: String,
    pub pure_variant_id: String,
    pub name: String,
    pub sku: String,
    pub material: String,
    pub variant_label: String,
    pub image_url: Option<String>,
    pub highest_offer_spot_premium: Option<i64>,
    pub lowest_listing_spot_premium: Option<i64>,
    pub market_data_updated_at: Option<Timestamp>,
    pub created_at: Timestamp,
    pub updated_at: Timestamp,
}

/// A product variant ready to be upserted by `(pure_product_id, pure_variant_id)`.
#[derive(Clone, Debug, PartialEq)]
pub struct NewProduct {
    pub pure_product_id: String,
    pub pure_variant_id: String,
    pub name: String,
    pub sku: String,
    pub material: String,
    pub variant_label: String,
    pub image_url: Option<String>,
    pub highest_offer_spot_premium: Option<i64>,
    pub lowest_listing_spot_premium: Option<i64>,
    pub market_data_updated_at: Option<Timestamp>,
}

/// A trade event ready to be upserted by `(event_time, pure_product_id, pure_variant_id)`.
#[derive(Clone, Debug, PartialEq)]
pub struct NewTransaction {
    pub product_id: i64,
    pub pure_product_id: String,
    pub pure_variant_id: String,
    pub price: i64,
    pub quantity: i32,
    pub spot_premium_percentage: i64,
    pub spot_premium_dollar: i64,
    pub event_time: Timestamp,
    pub event_type: Option<String>,
}

} // verus!

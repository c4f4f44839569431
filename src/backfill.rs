//! Re-deriving the event type of stored transactions from the stored market
//! snapshot of their variant.

use vstd::prelude::*;

use crate::event_type::{classify_spec, determine_event_type, label_of};
use crate::models::Product;

verus! {

/// Number of stored transactions read per page.
pub const BACKFILL_PAGE_SIZE: i64 = 1000;

/// The part of a stored transaction that its classification reads.
#[derive(Clone, Debug, PartialEq)]
pub struct StoredPremium {
    pub transaction_id: i64,
    pub pure_product_id: String,
    pub pure_variant_id: String,
    pub spot_premium_percentage: i64,
}

/// A new event type for one stored transaction.
#[derive(Clone, Debug, PartialEq)]
pub struct EventTypeUpdate {
    pub transaction_id: i64,
    pub event_type: String,
}

/// The stored variant with key `(pid, vid)` that comes last in `products`.
pub open spec fn variant_lookup(products: Seq<Product>, pid: Seq<char>, vid: Seq<char>) -> Option<Product>
    decreases products.len(),
{
    if products.len() == 0 {
        None
    } else if products.last().pure_product_id@ == pid && products.last().pure_variant_id@ == vid {
        Some(products.last())
    } else {
        variant_lookup(products.drop_last(), pid, vid)
    }
}

/// Stored variants by `(pure_product_id, pure_variant_id)`; where a key occurs
/// twice the later variant wins.
pub struct VariantIndex {
    products: Vec<Product>,
}

impl VariantIndex {
    /// The variants the index was built from.
    pub closed spec fn entries(&self) -> Seq<Product> {
        self.products@
    }

    /// Indexes stored variants by natural key.
    pub fn build(products: Vec<Product>) -> (r: VariantIndex)
        ensures
            r.entries() == products@,
    {
        VariantIndex { products }
    }

    /// The stored variant with key `(pid, vid)`, if any.
    pub fn get(&self, pid: &String, vid: &String) -> (r: Option<&Product>)
        ensures
            match r {
                Some(p) => variant_lookup(self.entries(), pid@, vid@) == Some(*p),
                None => variant_lookup(self.entries(), pid@, vid@) is None,
            },
    {
        let mut k: usize = self.products.len();
        assert(self.products@.subrange(0, k as int) =~= self.products@);
        while k > 0
            invariant
                k <= self.products@.len(),
                variant_lookup(self.products@, pid@, vid@)
                    == variant_lookup(self.products@.subrange(0, k as int), pid@, vid@),
            decreases k,
        {
            let p = &self.products[k - 1];
            assert(self.products@.subrange(0, k as int).drop_last() =~= self.products@.subrange(0, k - 1));
            if p.pure_product_id == *pid && p.pure_variant_id == *vid {
                return Some(p);
            }
            k -= 1;
        }
        None
    }
}

/// The updates that a page of stored transactions gets: for each row whose
/// variant is known, in order, its id and the label of its classification
/// against that variant's snapshot.
pub open spec fn page_updates(products: Seq<Product>, rows: Seq<StoredPremium>) -> Seq<(i64, Seq<char>)>
    decreases rows.len(),
{
    if rows.len() == 0 {
        Seq::empty()
    } else {
        let earlier = page_updates(products, rows.drop_last());
        let row = rows.last();
        match variant_lookup(products, row.pure_product_id@, row.pure_variant_id@) {
            Some(p) => earlier.push((row.transaction_id, label_of(classify_spec(
                row.spot_premium_percentage as int,
                p.highest_offer_spot_premium,
                p.lowest_listing_spot_premium,
            )))),
            None => earlier,
        }
    }
}

/// The ids of the rows of a page whose variant is unknown, in order.
pub open spec fn page_missing(products: Seq<Product>, rows: Seq<StoredPremium>) -> Seq<i64>
    decreases rows.len(),
{
    if rows.len() == 0 {
        Seq::empty()
    } else {
        let earlier = page_missing(products, rows.drop_last());
        let row = rows.last();
        match variant_lookup(products, row.pure_product_id@, row.pure_variant_id@) {
            Some(_) => earlier,
            None => earlier.push(row.transaction_id),
        }
    }
}

/// What a page of the backfill yields: the new event types, and the ids of
/// the transactions left unclassified because their variant is unknown.
#[derive(Debug)]
pub struct BackfillPage {
    pub updates: Vec<EventTypeUpdate>,
    pub missing_variant: Vec<i64>,
}

/// Re-derives the event type of each stored transaction of a page from its
/// variant's stored snapshot; rows whose variant is not in `index` are noted
/// and left unclassified.
pub fn classify_page(index: &VariantIndex, rows: &[StoredPremium]) -> (r: BackfillPage)
    ensures
        r.updates@.len() == page_updates(index.entries(), rows@).len(),
        forall|k: int| 0 <= k < r.updates@.len() ==> (#[trigger] r.updates@[k].transaction_id, r.updates@[k].event_type@)
            == page_updates(index.entries(), rows@)[k],
        r.missing_variant@ == page_missing(index.entries(), rows@),
{
    let mut updates: Vec<EventTypeUpdate> = Vec::new();
    let mut missing: Vec<i64> = Vec::new();
    let mut i: usize = 0;
    while i < rows.len()
        invariant
            i <= rows@.len(),
            updates@.len() == page_updates(index.entries(), rows@.subrange(0, i as int)).len(),
            forall|k: int| 0 <= k < updates@.len() ==> (#[trigger] updates@[k].transaction_id, updates@[k].event_type@)
                == page_updates(index.entries(), rows@.subrange(0, i as int))[k],
            missing@ == page_missing(index.entries(), rows@.subrange(0, i as int)),
        decreases rows@.len() - i,
    {
        let row = &rows[i];
        assert(rows@.subrange(0, i + 1).drop_last() =~= rows@.subrange(0, i as int));
        assert(rows@.subrange(0, i + 1).last() == *row);
        match index.get(&row.pure_product_id, &row.pure_variant_id) {
            Some(product) => {
                let event_type = determine_event_type(
                    row.spot_premium_percentage,
                    product.highest_offer_spot_premium,
                    product.lowest_listing_spot_premium,
                );
                updates.push(EventTypeUpdate { transaction_id: row.transaction_id, event_type });
            },
            None => {
                missing.push(row.transaction_id);
            },
        }
        i += 1;
    }
    assert(rows@.subrange(0, i as int) =~= rows@);
    BackfillPage { updates, missing_variant: missing }
}

} // verus!

//! The provider's catalog: option tree, product details, and the join of the
//! two into records ready for upsert.

use vstd::prelude::*;

use crate::models::NewProduct;
use crate::time::{current_timestamp, Timestamp};

verus! {

/// The option tree: every product with its variants.
#[derive(Clone, Debug)]
pub struct ProductOptionsResponse {
    pub data: Vec<ProductOption>,
}

/// One product of the option tree; `value` is its product id.
#[derive(Clone, Debug)]
pub struct ProductOption {
    pub value: String,
    pub label: String,
    pub variants: Vec<VariantOption>,
}

/// One variant of the option tree; `value` is its variant id.
#[derive(Clone, Debug)]
pub struct VariantOption {
    pub value: String,
    pub label: String,
}

/// One `(product, variant)` pair of the option tree.
#[derive(Clone, Debug, PartialEq)]
pub struct FlattenedProductVariant {
    pub pure_product_id: String,
    pub pure_variant_id: String,
    pub pure_variant_label: String,
}

/// The flattened record of one variant of `p`.
pub open spec fn flat_of(p: ProductOption, v: VariantOption) -> FlattenedProductVariant {
    FlattenedProductVariant {
        pure_product_id: p.value,
        pure_variant_id: v.value,
        pure_variant_label: v.label,
    }
}

/// The flattened records of the first `n` variants of `p`.
pub open spec fn flat_variants(p: ProductOption, n: int) -> Seq<FlattenedProductVariant> {
    Seq::new(n as nat, |j: int| flat_of(p, p.variants@[j]))
}

/// One record per variant, product by product, in the tree's order.
pub open spec fn flatten_spec(products: Seq<ProductOption>) -> Seq<FlattenedProductVariant>
    decreases products.len(),
{
    if products.len() == 0 {
        Seq::empty()
    } else {
        let p = products.last();
        flatten_spec(products.drop_last()) + flat_variants(p, p.variants@.len() as int)
    }
}

/// Flattens the option tree into one record per `(product, variant)` pair,
/// keeping the tree's order.
pub fn flatten_variants(options: &ProductOptionsResponse) -> (r: Vec<FlattenedProductVariant>)
    ensures
        r@ == flatten_spec(options.data@),
{
    let mut out: Vec<FlattenedProductVariant> = Vec::new();
    let mut i: usize = 0;
    while i < options.data.len()
        invariant
            i <= options.data@.len(),
            out@ == flatten_spec(options.data@.subrange(0, i as int)),
        decreases options.data@.len() - i,
    {
        let product = &options.data[i];
        let ghost before = out@;
        let mut j: usize = 0;
        while j < product.variants.len()
            invariant
                j <= product.variants@.len(),
                *product == options.data@[i as int],
                out@ == before + flat_variants(*product, j as int),
            decreases product.variants@.len() - j,
        {
            let variant = &product.variants[j];
            out.push(FlattenedProductVariant {
                pure_product_id: product.value.clone(),
                pure_variant_id: variant.value.clone(),
                pure_variant_label: variant.label.clone(),
            });
            assert(out@ =~= before + flat_variants(*product, j + 1));
            j += 1;
        }
        assert(options.data@.subrange(0, i + 1).drop_last() =~= options.data@.subrange(0, i as int));
        i += 1;
    }
    assert(options.data@.subrange(0, i as int) =~= options.data@);
    out
}

/// The text of each string.
pub open spec fn views(s: Seq<String>) -> Seq<Seq<char>> {
    s.map_values(|x: String| x@)
}

/// The product ids of `variants`, each once, in order of first appearance.
pub open spec fn dedup_ids(variants: Seq<FlattenedProductVariant>) -> Seq<Seq<char>>
    decreases variants.len(),
{
    if variants.len() == 0 {
        Seq::empty()
    } else {
        let earlier = dedup_ids(variants.drop_last());
        let id = variants.last().pure_product_id@;
        if earlier.contains(id) { earlier } else { earlier.push(id) }
    }
}

/// Whether some variant refers to the product `id`.
pub open spec fn has_product_id(variants: Seq<FlattenedProductVariant>, id: Seq<char>) -> bool {
    exists|i: int| 0 <= i < variants.len() && variants[i].pure_product_id@ == id
}

proof fn lemma_dedup_ids(variants: Seq<FlattenedProductVariant>)
    ensures
        dedup_ids(variants).no_duplicates(),
        forall|id: Seq<char>| dedup_ids(variants).contains(id) <==> has_product_id(variants, id),
    decreases variants.len(),
{
    if variants.len() > 0 {
        let rest = variants.drop_last();
        lemma_dedup_ids(rest);
        let e = dedup_ids(rest);
        let last = variants.last().pure_product_id@;
        if !e.contains(last) {
            assert(e.push(last).last() == last);
            assert forall|a: int, b: int| 0 <= a < b < e.push(last).len() implies e.push(last)[a] != e.push(last)[b] by {
                if b == e.len() {
                    assert(e.push(last)[a] == e[a]);
                }
            }
        }
        assert forall|id: Seq<char>| dedup_ids(variants).contains(id) <==> has_product_id(variants, id) by {
            if has_product_id(rest, id) {
                let i = choose|i: int| 0 <= i < rest.len() && rest[i].pure_product_id@ == id;
                assert(variants[i] == rest[i]);
                if !e.contains(last) {
                    let k = choose|k: int| 0 <= k < e.len() && e[k] == id;
                    assert(e.push(last)[k] == id);
                }
            }
            if has_product_id(variants, id) && !has_product_id(rest, id) {
                let i = choose|i: int| 0 <= i < variants.len() && variants[i].pure_product_id@ == id;
                if i < rest.len() {
                    assert(rest[i] == variants[i]);
                }
                assert(id == last);
            }
            if dedup_ids(variants).contains(id) && !has_product_id(rest, id) {
                assert(!e.contains(id));
                assert(variants[variants.len() - 1].pure_product_id@ == id);
            }
        }
    }
}

fn contains_id(ids: &Vec<String>, id: &String) -> (r: bool)
    ensures
        r == views(ids@).contains(id@),
{
    let mut k: usize = 0;
    while k < ids.len()
        invariant
            k <= ids@.len(),
            forall|m: int| 0 <= m < k ==> ids@[m]@ != id@,
        decreases ids@.len() - k,
    {
        if ids[k] == *id {
            assert(views(ids@)[k as int] == id@);
            return true;
        }
        k += 1;
    }
    proof {
        if views(ids@).contains(id@) {
            let m = choose|m: int| 0 <= m < views(ids@).len() && views(ids@)[m] == id@;
            assert(ids@[m]@ == id@);
        }
    }
    false
}

/// The product ids referenced by `variants`, each once, in order of first
/// appearance.
pub fn deduplicate_product_ids(variants: &[FlattenedProductVariant]) -> (r: Vec<String>)
    ensures
        views(r@) == dedup_ids(variants@),
        views(r@).no_duplicates(),
        forall|id: Seq<char>| views(r@).contains(id) <==> has_product_id(variants@, id),
{
    let mut out: Vec<String> = Vec::new();
    let mut i: usize = 0;
    while i < variants.len()
        invariant
            i <= variants@.len(),
            views(out@) == dedup_ids(variants@.subrange(0, i as int)),
        decreases variants@.len() - i,
    {
        let id = &variants[i].pure_product_id;
        assert(variants@.subrange(0, i + 1).drop_last() =~= variants@.subrange(0, i as int));
        if !contains_id(&out, id) {
            let ghost before = out@;
            out.push(id.clone());
            assert(views(out@) =~= views(before).push(id@));
        }
        i += 1;
    }
    assert(variants@.subrange(0, i as int) =~= variants@);
    proof { lemma_dedup_ids(variants@); }
    out
}

/// The ids of the chunk at `k` when `ids` is cut into chunks of `size`.
pub open spec fn chunk_at(ids: Seq<String>, size: int, k: int) -> Seq<String> {
    let start = k * size;
    let end = if start + size <= ids.len() { start + size } else { ids.len() as int };
    ids.subrange(start, end)
}

/// The chunks laid end to end.
pub open spec fn concat_chunks(chunks: Seq<Vec<String>>) -> Seq<String>
    decreases chunks.len(),
{
    if chunks.len() == 0 {
        Seq::empty()
    } else {
        concat_chunks(chunks.drop_last()) + chunks.last()@
    }
}

proof fn lemma_ceil_div(n: int, s: int, c: int)
    requires
        s > 0,
        n >= 0,
        c >= 0,
        n <= c * s,
        c == 0 || (c - 1) * s < n,
    ensures
        c == (n + s - 1) / s,
{
    let m = n + s - 1;
    if c == 0 {
        assert(n <= 0);
        assert(n >= 0 ==> n == 0);
    }
    assert(c * s <= m) by (nonlinear_arith)
        requires
            c == 0 ==> n >= 0,
            c == 0 || (c - 1) * s < n,
            m == n + s - 1,
            s > 0,
    ;
    assert(m < c * s + s) by (nonlinear_arith)
        requires
            n <= c * s,
            m == n + s - 1,
    ;
    vstd::arithmetic::div_mod::lemma_fundamental_div_mod_converse(m, s, c, m - c * s);
}

/// Cuts `ids` into consecutive chunks of `batch_size` ids, the last of which
/// may be shorter; laid end to end the chunks give back `ids`.
pub fn chunk_product_ids(ids: &[String], batch_size: usize) -> (r: Vec<Vec<String>>)
    requires
        batch_size > 0,
    ensures
        r@.len() == (ids@.len() + batch_size - 1) / (batch_size as int),
        forall|k: int| 0 <= k < r@.len() ==> #[trigger] r@[k]@ == chunk_at(ids@, batch_size as int, k),
        forall|k: int| 0 <= k < r@.len() ==> 0 < #[trigger] r@[k]@.len() <= batch_size,
        concat_chunks(r@) == ids@,
{
    let n = ids.len();
    let size = batch_size;
    let mut chunks: Vec<Vec<String>> = Vec::new();
    let mut pos: usize = 0;
    assert(chunks@.len() * size == 0) by (nonlinear_arith)
        requires
            chunks@.len() == 0,
    ;
    while pos < n
        invariant
            n == ids@.len(),
            size == batch_size,
            size > 0,
            pos <= n,
            pos == n || pos == chunks@.len() * size,
            pos <= chunks@.len() * size,
            chunks@.len() == 0 || (chunks@.len() - 1) * size < pos,
            chunks@.len() == 0 ==> pos == 0,
            forall|k: int| 0 <= k < chunks@.len() ==> #[trigger] chunks@[k]@ == chunk_at(ids@, size as int, k),
            forall|k: int| 0 <= k < chunks@.len() ==> 0 < #[trigger] chunks@[k]@.len() <= size,
            concat_chunks(chunks@) == ids@.subrange(0, pos as int),
        decreases n - pos,
    {
        let c = chunks.len();
        assert(pos == c * size);
        let end: usize = if n - pos > size { pos + size } else { n };
        let mut chunk: Vec<String> = Vec::new();
        let mut j: usize = pos;
        while j < end
            invariant
                pos <= j <= end <= n,
                n == ids@.len(),
                chunk@ == ids@.subrange(pos as int, j as int),
            decreases end - j,
        {
            chunk.push(ids[j].clone());
            assert(chunk@ =~= ids@.subrange(pos as int, j + 1));
            j += 1;
        }
        let ghost before = chunks@;
        assert(chunk@ == chunk_at(ids@, size as int, c as int));
        chunks.push(chunk);
        assert(chunks@.drop_last() =~= before);
        assert(ids@.subrange(0, pos as int) + ids@.subrange(pos as int, end as int) =~= ids@.subrange(0, end as int));
        assert((c + 1) * size == c * size + size) by (nonlinear_arith);
        pos = end;
    }
    assert(ids@.subrange(0, n as int) =~= ids@);
    proof { lemma_ceil_div(n as int, size as int, chunks@.len() as int); }
    chunks
}

/// A page of product details.
#[derive(Clone, Debug)]
pub struct ProductsResponse {
    pub data: Vec<ProductData>,
}

/// The details of one product, with the market data of each of its variants.
#[derive(Clone, Debug)]
pub struct ProductData {
    pub id: String,
    pub title: String,
    pub sku: String,
    pub material: String,
    pub variants: Vec<VariantData>,
}

/// The market data of one variant, found by its title.
#[derive(Clone, Debug)]
pub struct VariantData {
    pub title: String,
    pub highest_offer: Option<MarketData>,
    pub lowest_listing: Option<MarketData>,
}

/// One market quote: its spot premium, in fixed-point units.
#[derive(Clone, Copy, Debug, PartialEq, Eq, Structural)]
pub struct MarketData {
    pub spot_premium: i64,
}

/// What came of fetching the product details chunk by chunk: the products of
/// the chunks that were fetched, in chunk order, and the positions of the
/// chunks that failed after their retries.
#[derive(Debug)]
pub struct BatchFetchReport {
    pub products: Vec<ProductData>,
    pub failed_batches: Vec<usize>,
    pub batches_seen: usize,
}

impl BatchFetchReport {
    /// A report on no chunks yet.
    pub fn new() -> (r: BatchFetchReport)
        ensures
            r.products@.len() == 0,
            r.failed_batches@.len() == 0,
            r.batches_seen == 0,
    {
        BatchFetchReport { products: Vec::new(), failed_batches: Vec::new(), batches_seen: 0 }
    }

    /// Records the outcome of the next chunk: its products, or `None` where the
    /// chunk failed, which is noted and skipped.
    pub fn record_batch(&mut self, outcome: Option<Vec<ProductData>>)
        requires
            old(self).batches_seen < usize::MAX,
        ensures
            final(self).batches_seen == old(self).batches_seen + 1,
            match outcome {
                Some(found) => final(self).products@ == old(self).products@ + found@
                    && final(self).failed_batches@ == old(self).failed_batches@,
                None => final(self).products@ == old(self).products@
                    && final(self).failed_batches@ == old(self).failed_batches@.push(old(self).batches_seen),
            },
    {
        match outcome {
            Some(found) => {
                let mut found = found;
                self.products.append(&mut found);
            },
            None => {
                self.failed_batches.push(self.batches_seen);
            },
        }
        self.batches_seen = self.batches_seen + 1;
    }
}

/// The product with id `id` that comes last in `products`.
pub open spec fn last_with_id(products: Seq<ProductData>, id: Seq<char>) -> Option<ProductData>
    decreases products.len(),
{
    if products.len() == 0 {
        None
    } else if products.last().id@ == id {
        Some(products.last())
    } else {
        last_with_id(products.drop_last(), id)
    }
}

/// Product details by product id; where an id occurs twice the later product
/// wins.
pub struct ProductMap {
    entries: Vec<ProductData>,
}

impl View for ProductMap {
    type V = Map<Seq<char>, ProductData>;

    closed spec fn view(&self) -> Map<Seq<char>, ProductData> {
        product_map_of(self.entries@)
    }
}

/// Product details keyed by product id, the later of two products with one id
/// winning.
pub open spec fn product_map_of(products: Seq<ProductData>) -> Map<Seq<char>, ProductData> {
    Map::new(
        |id: Seq<char>| last_with_id(products, id) is Some,
        |id: Seq<char>| last_with_id(products, id)->0,
    )
}

impl ProductMap {
    /// The details of product `id`, if fetched.
    pub fn get(&self, id: &String) -> (r: Option<&ProductData>)
        ensures
            match r {
                Some(p) => self@.contains_key(id@) && *p == self@[id@],
                None => !self@.contains_key(id@),
            },
    {
        let mut k: usize = self.entries.len();
        assert(self.entries@.subrange(0, k as int) =~= self.entries@);
        while k > 0
            invariant
                k <= self.entries@.len(),
                last_with_id(self.entries@, id@) == last_with_id(self.entries@.subrange(0, k as int), id@),
            decreases k,
        {
            let p = &self.entries[k - 1];
            assert(self.entries@.subrange(0, k as int).drop_last() =~= self.entries@.subrange(0, k - 1));
            if p.id == *id {
                return Some(p);
            }
            k -= 1;
        }
        None
    }
}

/// Indexes fetched product details by product id.
pub fn build_product_map(products: Vec<ProductData>) -> (r: ProductMap)
    ensures
        r@ == product_map_of(products@),
{
    ProductMap { entries: products }
}

/// The highest-offer and lowest-listing premiums of one variant's data.
pub open spec fn premiums_of(v: VariantData) -> (Option<i64>, Option<i64>) {
    let offer = match v.highest_offer {
        Some(m) => Some(m.spot_premium),
        None => None,
    };
    let listing = match v.lowest_listing {
        Some(m) => Some(m.spot_premium),
        None => None,
    };
    (offer, listing)
}

/// The premiums of the first variant titled `label`, or none where no variant is.
pub open spec fn market_of(variants: Seq<VariantData>, label: Seq<char>) -> (Option<i64>, Option<i64>)
    decreases variants.len(),
{
    if variants.len() == 0 {
        (None, None)
    } else if variants[0].title@ == label {
        premiums_of(variants[0])
    } else {
        market_of(variants.drop_first(), label)
    }
}

fn find_variant_market(product: &ProductData, label: &String) -> (r: (Option<i64>, Option<i64>))
    ensures
        r == market_of(product.variants@, label@),
{
    let vs = &product.variants;
    let mut k: usize = 0;
    assert(vs@.subrange(0, vs@.len() as int) =~= vs@);
    while k < vs.len()
        invariant
            k <= vs@.len(),
            vs@ == product.variants@,
            market_of(vs@, label@) == market_of(vs@.subrange(k as int, vs@.len() as int), label@),
        decreases vs@.len() - k,
    {
        let v = &vs[k];
        let ghost rest = vs@.subrange(k as int, vs@.len() as int);
        assert(rest[0] == vs@[k as int]);
        if v.title == *label {
            let offer = match &v.highest_offer {
                Some(m) => Some(m.spot_premium),
                None => None,
            };
            let listing = match &v.lowest_listing {
                Some(m) => Some(m.spot_premium),
                None => None,
            };
            assert(market_of(rest, label@) == premiums_of(rest[0]));
            assert((offer, listing) == premiums_of(*v));
            return (offer, listing);
        }
        assert(rest.drop_first() =~= vs@.subrange(k + 1, vs@.len() as int));
        k += 1;
    }
    (None, None)
}

/// The record for variant `v` of product `p`, stamped at `now`.
pub open spec fn new_product_of(v: FlattenedProductVariant, p: ProductData, now: Timestamp) -> NewProduct {
    NewProduct {
        pure_product_id: v.pure_product_id,
        pure_variant_id: v.pure_variant_id,
        name: p.title,
        sku: p.sku,
        material: p.material,
        variant_label: v.pure_variant_label,
        image_url: None,
        highest_offer_spot_premium: market_of(p.variants@, v.pure_variant_label@).0,
        lowest_listing_spot_premium: market_of(p.variants@, v.pure_variant_label@).1,
        market_data_updated_at: Some(now),
    }
}

/// One record per variant whose product was fetched, in the variants' order;
/// a variant whose product is missing is left out.
pub open spec fn join_spec(
    variants: Seq<FlattenedProductVariant>,
    products: Map<Seq<char>, ProductData>,
    now: Timestamp,
) -> Seq<NewProduct>
    decreases variants.len(),
{
    if variants.len() == 0 {
        Seq::empty()
    } else {
        let earlier = join_spec(variants.drop_last(), products, now);
        let v = variants.last();
        if products.contains_key(v.pure_product_id@) {
            earlier.push(new_product_of(v, products[v.pure_product_id@], now))
        } else {
            earlier
        }
    }
}

/// Joins each variant with its product's details, stamping every record with
/// `now`; variants whose product is missing from `product_map` are dropped.
pub fn join_variants_at(
    variants: &[FlattenedProductVariant],
    product_map: &ProductMap,
    now: Timestamp,
) -> (r: Vec<NewProduct>)
    ensures
        r@ == join_spec(variants@, product_map@, now),
{
    let mut out: Vec<NewProduct> = Vec::new();
    let mut i: usize = 0;
    while i < variants.len()
        invariant
            i <= variants@.len(),
            out@ == join_spec(variants@.subrange(0, i as int), product_map@, now),
        decreases variants@.len() - i,
    {
        let v = &variants[i];
        assert(variants@.subrange(0, i + 1).drop_last() =~= variants@.subrange(0, i as int));
        assert(variants@.subrange(0, i + 1).last() == *v);
        match product_map.get(&v.pure_product_id) {
            Some(product) => {
                let (offer, listing) = find_variant_market(product, &v.pure_variant_label);
                out.push(NewProduct {
                    pure_product_id: v.pure_product_id.clone(),
                    pure_variant_id: v.pure_variant_id.clone(),
                    name: product.title.clone(),
                    sku: product.sku.clone(),
                    material: product.material.clone(),
                    variant_label: v.pure_variant_label.clone(),
                    image_url: None,
                    highest_offer_spot_premium: offer,
                    lowest_listing_spot_premium: listing,
                    market_data_updated_at: Some(now),
                });
            },
            None => {},
        }
        i += 1;
    }
    assert(variants@.subrange(0, i as int) =~= variants@);
    out
}

/// Joins each variant with its product's details, stamping the records with
/// the current time; variants whose product is missing are dropped.
pub fn combine_variants_with_products(
    variants: Vec<FlattenedProductVariant>,
    product_map: &ProductMap,
) -> (r: Vec<NewProduct>)
    ensures
        exists|now: Timestamp| r@ == join_spec(variants@, product_map@, now),
{
    let now = current_timestamp();
    let r = join_variants_at(variants.as_slice(), product_map, now);
    assert(r@ == join_spec(variants@, product_map@, now));
    r
}

/// A join keeps only variants whose product was fetched: every record it
/// gives belongs to a fetched product, so a variant whose product id is absent
/// from the fetched products never appears in its output.
pub proof fn join_drops_variants_without_product(
    variants: Seq<FlattenedProductVariant>,
    products: Map<Seq<char>, ProductData>,
    now: Timestamp,
)
    ensures
        join_spec(variants, products, now).len() <= variants.len(),
        forall|j: int| 0 <= j < join_spec(variants, products, now).len()
            ==> products.contains_key(#[trigger] join_spec(variants, products, now)[j].pure_product_id@),
        forall|i: int, j: int|
            0 <= i < variants.len() && !products.contains_key(variants[i].pure_product_id@)
                && 0 <= j < join_spec(variants, products, now).len()
            ==> #[trigger] join_spec(variants, products, now)[j].pure_product_id@ != #[trigger] variants[i].pure_product_id@,
    decreases variants.len(),
{
    if variants.len() > 0 {
        join_drops_variants_without_product(variants.drop_last(), products, now);
    }
}

/// The variants whose product is missing from `products`, in order.
pub open spec fn dropped_spec(
    variants: Seq<FlattenedProductVariant>,
    products: Map<Seq<char>, ProductData>,
) -> Seq<FlattenedProductVariant>
    decreases variants.len(),
{
    if variants.len() == 0 {
        Seq::empty()
    } else {
        let earlier = dropped_spec(variants.drop_last(), products);
        let v = variants.last();
        if products.contains_key(v.pure_product_id@) { earlier } else { earlier.push(v) }
    }
}

/// The outcome of one product sync: the records to upsert, the chunks of
/// product details that could not be fetched, and the variants left out
/// because their product was not fetched.
#[derive(Debug)]
pub struct ProductSyncReport {
    pub products: Vec<NewProduct>,
    pub failed_batches: Vec<usize>,
    pub dropped_variants: Vec<FlattenedProductVariant>,
}

/// Joins the flattened variants with the product details that were fetched,
/// stamping the records with `now`, and reports what was skipped.
pub fn assemble_new_products_at(
    variants: Vec<FlattenedProductVariant>,
    batches: BatchFetchReport,
    now: Timestamp,
) -> (r: ProductSyncReport)
    ensures
        r.products@ == join_spec(variants@, product_map_of(batches.products@), now),
        r.failed_batches@ == batches.failed_batches@,
        r.dropped_variants@ == dropped_spec(variants@, product_map_of(batches.products@)),
{
    let BatchFetchReport { products, failed_batches, batches_seen: _ } = batches;
    let product_map = build_product_map(products);
    let records = join_variants_at(variants.as_slice(), &product_map, now);
    let mut dropped: Vec<FlattenedProductVariant> = Vec::new();
    let mut i: usize = 0;
    while i < variants.len()
        invariant
            i <= variants@.len(),
            dropped@ == dropped_spec(variants@.subrange(0, i as int), product_map@),
        decreases variants@.len() - i,
    {
        let v = &variants[i];
        assert(variants@.subrange(0, i + 1).drop_last() =~= variants@.subrange(0, i as int));
        assert(variants@.subrange(0, i + 1).last() == *v);
        if product_map.get(&v.pure_product_id).is_none() {
            dropped.push(FlattenedProductVariant {
                pure_product_id: v.pure_product_id.clone(),
                pure_variant_id: v.pure_variant_id.clone(),
                pure_variant_label: v.pure_variant_label.clone(),
            });
        }
        i += 1;
    }
    assert(variants@.subrange(0, i as int) =~= variants@);
    ProductSyncReport { products: records, failed_batches, dropped_variants: dropped }
}

/// Joins the flattened variants with the product details that were fetched,
/// stamping the records with the current time, and reports what was skipped.
pub fn assemble_new_products(variants: Vec<FlattenedProductVariant>, batches: BatchFetchReport) -> (r: ProductSyncReport)
    ensures
        exists|now: Timestamp| r.products@ == join_spec(variants@, product_map_of(batches.products@), now),
        r.failed_batches@ == batches.failed_batches@,
        r.dropped_variants@ == dropped_spec(variants@, product_map_of(batches.products@)),
{
    let now = current_timestamp();
    let ghost products = batches.products@;
    let r = assemble_new_products_at(variants, batches, now);
    assert(r.products@ == join_spec(variants@, product_map_of(products), now));
    r
}

} // verus!

//! Upsert semantics of the two stored tables: a record is written under its
//! natural key, inserting a row or replacing every non-key field of the row
//! already there.

use vstd::prelude::*;

use crate::models::{NewProduct, NewTransaction};
use crate::time::Timestamp;

verus! {

/// Natural key of a product variant: product id and variant id.
pub open spec fn product_key(p: NewProduct) -> (Seq<char>, Seq<char>) {
    (p.pure_product_id@, p.pure_variant_id@)
}

/// Natural key of a transaction: event time, product id and variant id.
pub open spec fn transaction_key(t: NewTransaction) -> (Timestamp, Seq<char>, Seq<char>) {
    (t.event_time, t.pure_product_id@, t.pure_variant_id@)
}

/// The table after upserting `p`.
pub open spec fn product_upserted(
    m: Map<(Seq<char>, Seq<char>), NewProduct>,
    p: NewProduct,
) -> Map<(Seq<char>, Seq<char>), NewProduct> {
    m.insert(product_key(p), p)
}

/// The table after upserting `t`.
pub open spec fn transaction_upserted(
    m: Map<(Timestamp, Seq<char>, Seq<char>), NewTransaction>,
    t: NewTransaction,
) -> Map<(Timestamp, Seq<char>, Seq<char>), NewTransaction> {
    m.insert(transaction_key(t), t)
}

/// The table after upserting `records` in order into `m`.
pub open spec fn products_upserted(
    m: Map<(Seq<char>, Seq<char>), NewProduct>,
    records: Seq<NewProduct>,
) -> Map<(Seq<char>, Seq<char>), NewProduct>
    decreases records.len(),
{
    if records.len() == 0 {
        m
    } else {
        product_upserted(products_upserted(m, records.drop_last()), records.last())
    }
}

/// The table after upserting `records` in order into `m`.
pub open spec fn transactions_upserted(
    m: Map<(Timestamp, Seq<char>, Seq<char>), NewTransaction>,
    records: Seq<NewTransaction>,
) -> Map<(Timestamp, Seq<char>, Seq<char>), NewTransaction>
    decreases records.len(),
{
    if records.len() == 0 {
        m
    } else {
        transaction_upserted(transactions_upserted(m, records.drop_last()), records.last())
    }
}

/// Product variants keyed by `(pure_product_id, pure_variant_id)`, one row per key.
pub struct ProductTable {
    rows: Vec<NewProduct>,
}

impl View for ProductTable {
    type V = Map<(Seq<char>, Seq<char>), NewProduct>;

    closed spec fn view(&self) -> Map<(Seq<char>, Seq<char>), NewProduct> {
        product_rows_map(self.rows@)
    }
}

impl ProductTable {
    /// Each key is held by one row.
    pub closed spec fn wf(&self) -> bool {
        forall|i: int, j: int| 0 <= i < j < self.rows@.len()
            ==> product_key(#[trigger] self.rows@[i]) != product_key(#[trigger] self.rows@[j])
    }

    /// The number of stored rows.
    pub closed spec fn row_count(&self) -> nat {
        self.rows@.len()
    }

    /// An empty table.
    pub fn new() -> (r: ProductTable)
        ensures
            r.wf(),
            r@ == Map::<(Seq<char>, Seq<char>), NewProduct>::empty(),
            r.row_count() == 0,
    {
        let r = ProductTable { rows: Vec::new() };
        assert(r@ =~= Map::<(Seq<char>, Seq<char>), NewProduct>::empty());
        r
    }

    /// The table that upserting `records` in order into an empty table gives:
    /// one row per natural key, holding the last record with that key.
    pub fn from_records(records: Vec<NewProduct>) -> (r: Self)
        ensures
            r.wf(),
            r@ == products_upserted(Map::<(Seq<char>, Seq<char>), NewProduct>::empty(), records@),
    {
        let mut table = Self::new();
        let ghost all = records@;
        for record in it: records.into_iter()
            invariant
                it.seq() == all,
                table.wf(),
                table@ == products_upserted(Map::<(Seq<char>, Seq<char>), NewProduct>::empty(), it.seq().take(it.index() as int)),
        {
            proof {
                assert(it.seq().take(it.index() + 1).drop_last() =~= it.seq().take(it.index() as int));
            }
            table.upsert(record);
        }
        assert(all.take(all.len() as int) =~= all);
        table
    }

    /// The stored rows, one per key, in no promised order.
    pub fn rows(&self) -> (r: &[NewProduct])
        requires
            self.wf(),
        ensures
            r@.len() == self.row_count(),
            forall|i: int| 0 <= i < r@.len() ==> self@.contains_key(product_key(#[trigger] r@[i])) && self@[product_key(r@[i])] == r@[i],
            forall|i: int, j: int| 0 <= i < j < r@.len() ==> product_key(#[trigger] r@[i]) != product_key(#[trigger] r@[j]),
            forall|k| #[trigger] self@.contains_key(k) ==> exists|i: int| 0 <= i < r@.len() && product_key(r@[i]) == k,
    {
        proof {
            assert forall|i: int| 0 <= i < self.rows@.len() implies self@.contains_key(product_key(#[trigger] self.rows@[i]))
                && self@[product_key(self.rows@[i])] == self.rows@[i] by {
                let k = product_key(self.rows@[i]);
                let c = choose|j: int| 0 <= j < self.rows@.len() && product_key(self.rows@[j]) == k;
                assert(c == i) by {
                    if c < i {
                        assert(product_key(self.rows@[c]) != product_key(self.rows@[i]));
                    } else if c > i {
                        assert(product_key(self.rows@[i]) != product_key(self.rows@[c]));
                    }
                }
            }
        }
        self.rows.as_slice()
    }

    /// The number of stored rows.
    pub fn len(&self) -> (r: usize)
        ensures
            r == self.row_count(),
    {
        self.rows.len()
    }

    fn position(&self, pid: &String, vid: &String) -> (r: Option<usize>)
        ensures
            match r {
                Some(i) => i < self.rows@.len() && product_key(self.rows@[i as int]) == (pid@, vid@),
                None => forall|i: int| 0 <= i < self.rows@.len() ==> product_key(self.rows@[i]) != (pid@, vid@),
            },
    {
        let mut i: usize = 0;
        while i < self.rows.len()
            invariant
                i <= self.rows@.len(),
                forall|m: int| 0 <= m < i ==> product_key(self.rows@[m]) != (pid@, vid@),
            decreases self.rows@.len() - i,
        {
            if self.rows[i].pure_product_id == *pid && self.rows[i].pure_variant_id == *vid {
                return Some(i);
            }
            i += 1;
        }
        None
    }

    /// The row stored under `(pid, vid)`, if any.
    pub fn get(&self, pid: &String, vid: &String) -> (r: Option<&NewProduct>)
        requires
            self.wf(),
        ensures
            match r {
                Some(p) => self@.contains_key((pid@, vid@)) && *p == self@[(pid@, vid@)],
                None => !self@.contains_key((pid@, vid@)),
            },
    {
        match self.position(pid, vid) {
            Some(i) => {
                proof {
                    let k = (pid@, vid@);
                    assert(self@.contains_key(k));
                    let c = choose|j: int| 0 <= j < self.rows@.len() && product_key(self.rows@[j]) == k;
                    assert(c == i) by {
                        if c < i {
                            assert(product_key(self.rows@[c]) != product_key(self.rows@[i as int]));
                        } else if c > i {
                            assert(product_key(self.rows@[i as int]) != product_key(self.rows@[c]));
                        }
                    }
                }
                Some(&self.rows[i])
            },
            None => None,
        }
    }

    /// Writes `p` under its natural key: a new row where the key is new, else
    /// every field of the stored row is replaced by `p`'s.
    pub fn upsert(&mut self, p: NewProduct)
        requires
            old(self).wf(),
        ensures
            final(self).wf(),
            final(self)@ == product_upserted(old(self)@, p),
    {
        let ghost old_rows = self.rows@;
        let ghost k = product_key(p);
        match self.position(&p.pure_product_id, &p.pure_variant_id) {
            Some(i) => {
                self.rows.set(i, p);
                proof {
                    assert forall|a: int, b: int| 0 <= a < b < self.rows@.len()
                        implies product_key(#[trigger] self.rows@[a]) != product_key(#[trigger] self.rows@[b]) by {
                        assert(product_key(old_rows[a]) != product_key(old_rows[b]));
                }
                assert forall|key: (Seq<char>, Seq<char>)| #[trigger] self@.contains_key(key)
                    <==> product_upserted(product_rows_map(old_rows), p).contains_key(key) by {
                    if key != k && self@.contains_key(key) {
                        let c = choose|j: int| 0 <= j < self.rows@.len() && product_key(self.rows@[j]) == key;
                        assert(c != i);
                        assert(product_key(old_rows[c]) == key);
                    }
                    if key != k && product_rows_map(old_rows).contains_key(key) {
                        let c = choose|j: int| 0 <= j < old_rows.len() && product_key(old_rows[j]) == key;
                        assert(c != i);
                        assert(product_key(self.rows@[c]) == key);
                    }
                    if key == k {
                        assert(product_key(self.rows@[i as int]) == key);
                    }
                }
                assert forall|key: (Seq<char>, Seq<char>)| #[trigger] self@.contains_key(key)
                    implies self@[key] == product_upserted(product_rows_map(old_rows), p)[key] by {
                    let c = choose|j: int| 0 <= j < self.rows@.len() && product_key(self.rows@[j]) == key;
                    if key == k {
                        assert(c == i) by {
                            if c != i {
                                assert(product_key(self.rows@[c]) == product_key(self.rows@[i as int]));
                            }
                        }
                    } else {
                        assert(c != i);
                        let d = choose|j: int| 0 <= j < old_rows.len() && product_key(old_rows[j]) == key;
                        assert(product_key(old_rows[c]) == key);
                        assert(d == c) by {
                            if d != c {
                                assert(product_key(old_rows[d]) == product_key(old_rows[c]));
                            }
                        }
                    }
                }
                assert(self@ =~= product_upserted(product_rows_map(old_rows), p));
                }
            },
            None => {
                self.rows.push(p);
                proof {
                    let n = old_rows.len() as int;
                    assert forall|a: int, b: int| 0 <= a < b < self.rows@.len()
                        implies product_key(#[trigger] self.rows@[a]) != product_key(#[trigger] self.rows@[b]) by {
                        if b < n {
                            assert(product_key(old_rows[a]) != product_key(old_rows[b]));
                        }
                }
                assert forall|key: (Seq<char>, Seq<char>)| #[trigger] self@.contains_key(key)
                    <==> product_upserted(product_rows_map(old_rows), p).contains_key(key) by {
                    if key != k && self@.contains_key(key) {
                        let c = choose|j: int| 0 <= j < self.rows@.len() && product_key(self.rows@[j]) == key;
                        assert(c != n);
                        assert(product_key(old_rows[c]) == key);
                    }
                    if product_rows_map(old_rows).contains_key(key) {
                        let c = choose|j: int| 0 <= j < old_rows.len() && product_key(old_rows[j]) == key;
                        assert(product_key(self.rows@[c]) == key);
                    }
                    if key == k {
                        assert(product_key(self.rows@[n]) == key);
                    }
                }
                assert forall|key: (Seq<char>, Seq<char>)| #[trigger] self@.contains_key(key)
                    implies self@[key] == product_upserted(product_rows_map(old_rows), p)[key] by {
                    let c = choose|j: int| 0 <= j < self.rows@.len() && product_key(self.rows@[j]) == key;
                    if key == k {
                        assert(c == n) by {
                            if c != n {
                                assert(product_key(old_rows[c]) == k);
                            }
                        }
                    } else {
                        assert(c != n);
                        let d = choose|j: int| 0 <= j < old_rows.len() && product_key(old_rows[j]) == key;
                        assert(product_key(old_rows[c]) == key);
                        assert(d == c) by {
                            if d != c {
                                assert(product_key(old_rows[d]) == product_key(old_rows[c]));
                            }
                        }
                    }
                }
                assert(self@ =~= product_upserted(product_rows_map(old_rows), p));
                }
            },
        }
    }
}

/// Rows as a map from natural key to the row holding it.
spec fn product_rows_map(rows: Seq<NewProduct>) -> Map<(Seq<char>, Seq<char>), NewProduct> {
    Map::new(
        |k: (Seq<char>, Seq<char>)| exists|i: int| 0 <= i < rows.len() && product_key(rows[i]) == k,
        |k: (Seq<char>, Seq<char>)| rows[choose|i: int| 0 <= i < rows.len() && product_key(rows[i]) == k],
    )
}

/// Transactions keyed by `(event_time, pure_product_id, pure_variant_id)`, one row per key.
pub struct TransactionTable {
    rows: Vec<NewTransaction>,
}

impl View for TransactionTable {
    type V = Map<(Timestamp, Seq<char>, Seq<char>), NewTransaction>;

    closed spec fn view(&self) -> Map<(Timestamp, Seq<char>, Seq<char>), NewTransaction> {
        transaction_rows_map(self.rows@)
    }
}

impl TransactionTable {
    /// Each key is held by one row.
    pub closed spec fn wf(&self) -> bool {
        forall|i: int, j: int| 0 <= i < j < self.rows@.len()
            ==> transaction_key(#[trigger] self.rows@[i]) != transaction_key(#[trigger] self.rows@[j])
    }

    /// The number of stored rows.
    pub closed spec fn row_count(&self) -> nat {
        self.rows@.len()
    }

    /// An empty table.
    pub fn new() -> (r: TransactionTable)
        ensures
            r.wf(),
            r@ == Map::<(Timestamp, Seq<char>, Seq<char>), NewTransaction>::empty(),
            r.row_count() == 0,
    {
        let r = TransactionTable { rows: Vec::new() };
        assert(r@ =~= Map::<(Timestamp, Seq<char>, Seq<char>), NewTransaction>::empty());
        r
    }

    /// The table that upserting `records` in order into an empty table gives:
    /// one row per natural key, holding the last record with that key.
    pub fn from_records(records: Vec<NewTransaction>) -> (r: Self)
        ensures
            r.wf(),
            r@ == transactions_upserted(Map::<(Timestamp, Seq<char>, Seq<char>), NewTransaction>::empty(), records@),
    {
        let mut table = Self::new();
        let ghost all = records@;
        for record in it: records.into_iter()
            invariant
                it.seq() == all,
                table.wf(),
                table@ == transactions_upserted(Map::<(Timestamp, Seq<char>, Seq<char>), NewTransaction>::empty(), it.seq().take(it.index() as int)),
        {
            proof {
                assert(it.seq().take(it.index() + 1).drop_last() =~= it.seq().take(it.index() as int));
            }
            table.upsert(record);
        }
        assert(all.take(all.len() as int) =~= all);
        table
    }

    /// The stored rows, one per key, in no promised order.
    pub fn rows(&self) -> (r: &[NewTransaction])
        requires
            self.wf(),
        ensures
            r@.len() == self.row_count(),
            forall|i: int| 0 <= i < r@.len() ==> self@.contains_key(transaction_key(#[trigger] r@[i])) && self@[transaction_key(r@[i])] == r@[i],
            forall|i: int, j: int| 0 <= i < j < r@.len() ==> transaction_key(#[trigger] r@[i]) != transaction_key(#[trigger] r@[j]),
            forall|k| #[trigger] self@.contains_key(k) ==> exists|i: int| 0 <= i < r@.len() && transaction_key(r@[i]) == k,
    {
        proof {
            assert forall|i: int| 0 <= i < self.rows@.len() implies self@.contains_key(transaction_key(#[trigger] self.rows@[i]))
                && self@[transaction_key(self.rows@[i])] == self.rows@[i] by {
                let k = transaction_key(self.rows@[i]);
                let c = choose|j: int| 0 <= j < self.rows@.len() && transaction_key(self.rows@[j]) == k;
                assert(c == i) by {
                    if c < i {
                        assert(transaction_key(self.rows@[c]) != transaction_key(self.rows@[i]));
                    } else if c > i {
                        assert(transaction_key(self.rows@[i]) != transaction_key(self.rows@[c]));
                    }
                }
            }
        }
        self.rows.as_slice()
    }

    /// The number of stored rows.
    pub fn len(&self) -> (r: usize)
        ensures
            r == self.row_count(),
    {
        self.rows.len()
    }

    fn position(&self, time: Timestamp, pid: &String, vid: &String) -> (r: Option<usize>)
        ensures
            match r {
                Some(i) => i < self.rows@.len() && transaction_key(self.rows@[i as int]) == (time, pid@, vid@),
                None => forall|i: int| 0 <= i < self.rows@.len() ==> transaction_key(self.rows@[i]) != (time, pid@, vid@),
            },
    {
        let mut i: usize = 0;
        while i < self.rows.len()
            invariant
                i <= self.rows@.len(),
                forall|m: int| 0 <= m < i ==> transaction_key(self.rows@[m]) != (time, pid@, vid@),
            decreases self.rows@.len() - i,
        {
            if self.rows[i].event_time == time && self.rows[i].pure_product_id == *pid && self.rows[i].pure_variant_id == *vid {
                return Some(i);
            }
            i += 1;
        }
        None
    }

    /// The row stored under `(pid, vid)`, if any.
    pub fn get(&self, time: Timestamp, pid: &String, vid: &String) -> (r: Option<&NewTransaction>)
        requires
            self.wf(),
        ensures
            match r {
                Some(p) => self@.contains_key((time, pid@, vid@)) && *p == self@[(time, pid@, vid@)],
                None => !self@.contains_key((time, pid@, vid@)),
            },
    {
        match self.position(time, pid, vid) {
            Some(i) => {
                proof {
                    let k = (time, pid@, vid@);
                    assert(self@.contains_key(k));
                    let c = choose|j: int| 0 <= j < self.rows@.len() && transaction_key(self.rows@[j]) == k;
                    assert(c == i) by {
                        if c < i {
                            assert(transaction_key(self.rows@[c]) != transaction_key(self.rows@[i as int]));
                        } else if c > i {
                            assert(transaction_key(self.rows@[i as int]) != transaction_key(self.rows@[c]));
                        }
                    }
                }
                Some(&self.rows[i])
            },
            None => None,
        }
    }

    /// Writes `p` under its natural key: a new row where the key is new, else
    /// every field of the stored row is replaced by `p`'s.
    pub fn upsert(&mut self, p: NewTransaction)
        requires
            old(self).wf(),
        ensures
            final(self).wf(),
            final(self)@ == transaction_upserted(old(self)@, p),
    {
        let ghost old_rows = self.rows@;
        let ghost k = transaction_key(p);
        match self.position(p.event_time, &p.pure_product_id, &p.pure_variant_id) {
            Some(i) => {
                self.rows.set(i, p);
                proof {
                    assert forall|a: int, b: int| 0 <= a < b < self.rows@.len()
                        implies transaction_key(#[trigger] self.rows@[a]) != transaction_key(#[trigger] self.rows@[b]) by {
                        assert(transaction_key(old_rows[a]) != transaction_key(old_rows[b]));
                }
                assert forall|key: (Timestamp, Seq<char>, Seq<char>)| #[trigger] self@.contains_key(key)
                    <==> transaction_upserted(transaction_rows_map(old_rows), p).contains_key(key) by {
                    if key != k && self@.contains_key(key) {
                        let c = choose|j: int| 0 <= j < self.rows@.len() && transaction_key(self.rows@[j]) == key;
                        assert(c != i);
                        assert(transaction_key(old_rows[c]) == key);
                    }
                    if key != k && transaction_rows_map(old_rows).contains_key(key) {
                        let c = choose|j: int| 0 <= j < old_rows.len() && transaction_key(old_rows[j]) == key;
                        assert(c != i);
                        assert(transaction_key(self.rows@[c]) == key);
                    }
                    if key == k {
                        assert(transaction_key(self.rows@[i as int]) == key);
                    }
                }
                assert forall|key: (Timestamp, Seq<char>, Seq<char>)| #[trigger] self@.contains_key(key)
                    implies self@[key] == transaction_upserted(transaction_rows_map(old_rows), p)[key] by {
                    let c = choose|j: int| 0 <= j < self.rows@.len() && transaction_key(self.rows@[j]) == key;
                    if key == k {
                        assert(c == i) by {
                            if c != i {
                                assert(transaction_key(self.rows@[c]) == transaction_key(self.rows@[i as int]));
                            }
                        }
                    } else {
                        assert(c != i);
                        let d = choose|j: int| 0 <= j < old_rows.len() && transaction_key(old_rows[j]) == key;
                        assert(transaction_key(old_rows[c]) == key);
                        assert(d == c) by {
                            if d != c {
                                assert(transaction_key(old_rows[d]) == transaction_key(old_rows[c]));
                            }
                        }
                    }
                }
                assert(self@ =~= transaction_upserted(transaction_rows_map(old_rows), p));
                }
            },
            None => {
                self.rows.push(p);
                proof {
                    let n = old_rows.len() as int;
                    assert forall|a: int, b: int| 0 <= a < b < self.rows@.len()
                        implies transaction_key(#[trigger] self.rows@[a]) != transaction_key(#[trigger] self.rows@[b]) by {
                        if b < n {
                            assert(transaction_key(old_rows[a]) != transaction_key(old_rows[b]));
                        }
                }
                assert forall|key: (Timestamp, Seq<char>, Seq<char>)| #[trigger] self@.contains_key(key)
                    <==> transaction_upserted(transaction_rows_map(old_rows), p).contains_key(key) by {
                    if key != k && self@.contains_key(key) {
                        let c = choose|j: int| 0 <= j < self.rows@.len() && transaction_key(self.rows@[j]) == key;
                        assert(c != n);
                        assert(transaction_key(old_rows[c]) == key);
                    }
                    if transaction_rows_map(old_rows).contains_key(key) {
                        let c = choose|j: int| 0 <= j < old_rows.len() && transaction_key(old_rows[j]) == key;
                        assert(transaction_key(self.rows@[c]) == key);
                    }
                    if key == k {
                        assert(transaction_key(self.rows@[n]) == key);
                    }
                }
                assert forall|key: (Timestamp, Seq<char>, Seq<char>)| #[trigger] self@.contains_key(key)
                    implies self@[key] == transaction_upserted(transaction_rows_map(old_rows), p)[key] by {
                    let c = choose|j: int| 0 <= j < self.rows@.len() && transaction_key(self.rows@[j]) == key;
                    if key == k {
                        assert(c == n) by {
                            if c != n {
                                assert(transaction_key(old_rows[c]) == k);
                            }
                        }
                    } else {
                        assert(c != n);
                        let d = choose|j: int| 0 <= j < old_rows.len() && transaction_key(old_rows[j]) == key;
                        assert(transaction_key(old_rows[c]) == key);
                        assert(d == c) by {
                            if d != c {
                                assert(transaction_key(old_rows[d]) == transaction_key(old_rows[c]));
                            }
                        }
                    }
                }
                assert(self@ =~= transaction_upserted(transaction_rows_map(old_rows), p));
                }
            },
        }
    }
}

/// Rows as a map from natural key to the row holding it.
spec fn transaction_rows_map(rows: Seq<NewTransaction>) -> Map<(Timestamp, Seq<char>, Seq<char>), NewTransaction> {
    Map::new(
        |k: (Timestamp, Seq<char>, Seq<char>)| exists|i: int| 0 <= i < rows.len() && transaction_key(rows[i]) == k,
        |k: (Timestamp, Seq<char>, Seq<char>)| rows[choose|i: int| 0 <= i < rows.len() && transaction_key(rows[i]) == k],
    )
}

/// Upserting the same product variant twice leaves the table as one upsert
/// does: one row under its key, holding the record's fields.
pub proof fn product_upsert_idempotent(m: Map<(Seq<char>, Seq<char>), NewProduct>, p: NewProduct)
    ensures
        product_upserted(product_upserted(m, p), p) == product_upserted(m, p),
        products_upserted(m, seq![p, p]) == products_upserted(m, seq![p]),
        product_upserted(m, p).contains_key(product_key(p)),
        product_upserted(m, p)[product_key(p)] == p,
{
    assert(product_upserted(product_upserted(m, p), p) =~= product_upserted(m, p));
    assert(seq![p, p].drop_last() =~= seq![p]);
    assert(seq![p].drop_last() =~= Seq::<NewProduct>::empty());
}

/// Upserting the same transaction twice leaves the table as one upsert does:
/// one row under its key, holding the record's fields.
pub proof fn transaction_upsert_idempotent(
    m: Map<(Timestamp, Seq<char>, Seq<char>), NewTransaction>,
    t: NewTransaction,
)
    ensures
        transaction_upserted(transaction_upserted(m, t), t) == transaction_upserted(m, t),
        transactions_upserted(m, seq![t, t]) == transactions_upserted(m, seq![t]),
        transaction_upserted(m, t).contains_key(transaction_key(t)),
        transaction_upserted(m, t)[transaction_key(t)] == t,
{
    assert(transaction_upserted(transaction_upserted(m, t), t) =~= transaction_upserted(m, t));
    assert(seq![t, t].drop_last() =~= seq![t]);
    assert(seq![t].drop_last() =~= Seq::<NewTransaction>::empty());
}

/// Two trade events with the same event time, product id and variant id
/// collapse to one row, which holds the fields (the price among them) of the
/// one applied last.
pub proof fn transaction_natural_key_collapses(
    m: Map<(Timestamp, Seq<char>, Seq<char>), NewTransaction>,
    first: NewTransaction,
    second: NewTransaction,
)
    requires
        transaction_key(first) == transaction_key(second),
    ensures
        transaction_upserted(transaction_upserted(m, first), second) == transaction_upserted(m, second),
        transactions_upserted(m, seq![first, second]) == transactions_upserted(m, seq![second]),
        transaction_upserted(transaction_upserted(m, first), second)[transaction_key(first)].price == second.price,
        transaction_upserted(transaction_upserted(m, first), second).dom() == m.dom().insert(transaction_key(first)),
{
    assert(transaction_upserted(transaction_upserted(m, first), second) =~= transaction_upserted(m, second));
    assert(seq![first, second].drop_last() =~= seq![first]);
    assert(seq![first].drop_last() =~= Seq::<NewTransaction>::empty());
    assert(seq![second].drop_last() =~= Seq::<NewTransaction>::empty());
    assert(seq![first, second].last() == second);
    assert(seq![first].last() == first);
    assert(seq![second].last() == second);
    assert(transactions_upserted(m, Seq::<NewTransaction>::empty()) == m);
    assert(transactions_upserted(m, seq![first]) == transaction_upserted(m, first));
    assert(transactions_upserted(m, seq![second]) == transaction_upserted(m, second));
    assert(transaction_upserted(transaction_upserted(m, first), second).dom() =~= m.dom().insert(transaction_key(first)));
}

} // verus!

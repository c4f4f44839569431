//! Trade events reported for a variant, and the transaction records built
//! from them.

use vstd::prelude::*;

use crate::event_type::{classify_spec, determine_event_type, label_of};
use crate::models::{NewTransaction, Product};
use crate::time::{instant_parts, parse_event_time, parsed_event_instant, Timestamp};

verus! {

/// The trade events reported for one variant.
#[derive(Clone, Debug)]
pub struct ProductActivityResponse {
    pub data: Vec<ActivityEvent>,
}

/// One reported trade event; `created_at` is the provider's time text and the
/// decimal fields are in fixed-point units.
#[derive(Clone, Debug)]
pub struct ActivityEvent {
    pub event: String,
    pub created_at: String,
    pub price: i64,
    pub quantity: i32,
    pub spot_premium: i64,
    pub spot_premium_dollar: i64,
}

/// Why an event could not become a transaction.
#[derive(Clone, Copy, Debug, PartialEq, Eq, Structural)]
pub enum ActivityError {
    /// The event's time text does not parse.
    InvalidEventTime,
}

/// `t` is the transaction for event `e` of variant `p` at `time`: it carries
/// the variant's identity, the event's numbers, and the event's classification
/// against the variant's market snapshot.
pub open spec fn is_transaction_of(t: NewTransaction, e: ActivityEvent, p: Product, time: Timestamp) -> bool {
    &&& t.product_id == p.id
    &&& t.pure_product_id == p.pure_product_id
    &&& t.pure_variant_id == p.pure_variant_id
    &&& t.price == e.price
    &&& t.quantity == e.quantity
    &&& t.spot_premium_percentage == e.spot_premium
    &&& t.spot_premium_dollar == e.spot_premium_dollar
    &&& t.event_time == time
    &&& t.event_type is Some
    &&& t.event_type->0@ == label_of(
        classify_spec(e.spot_premium as int, p.highest_offer_spot_premium, p.lowest_listing_spot_premium),
    )
}

/// Builds the transaction for `event` of variant `product`, which took place
/// at `event_time`.
pub fn build_transaction(event: &ActivityEvent, product: &Product, event_time: Timestamp) -> (r: NewTransaction)
    ensures
        is_transaction_of(r, *event, *product, event_time),
{
    let event_type = determine_event_type(
        event.spot_premium,
        product.highest_offer_spot_premium,
        product.lowest_listing_spot_premium,
    );
    NewTransaction {
        product_id: product.id,
        pure_product_id: product.pure_product_id.clone(),
        pure_variant_id: product.pure_variant_id.clone(),
        price: event.price,
        quantity: event.quantity,
        spot_premium_percentage: event.spot_premium,
        spot_premium_dollar: event.spot_premium_dollar,
        event_time,
        event_type: Some(event_type),
    }
}

/// Builds the transaction for `event` of variant `product`, or fails where
/// the event's time text does not parse.
pub fn parse_activity_to_transaction(event: ActivityEvent, product: &Product) -> (r: Result<NewTransaction, ActivityError>)
    ensures
        match r {
            Ok(t) => instant_parts(Some(t.event_time)) == parsed_event_instant(event.created_at@)
                && is_transaction_of(t, event, *product, t.event_time),
            Err(e) => e == ActivityError::InvalidEventTime && parsed_event_instant(event.created_at@) is None,
        },
{
    match parse_event_time(event.created_at.as_str()) {
        Some(event_time) => Ok(build_transaction(&event, product, event_time)),
        None => Err(ActivityError::InvalidEventTime),
    }
}

/// Whether the time text of event `e` parses.
pub open spec fn event_parses(e: ActivityEvent) -> bool {
    parsed_event_instant(e.created_at@) is Some
}

/// The positions of the events whose time parses, in order.
pub open spec fn parsed_positions(events: Seq<ActivityEvent>) -> Seq<int>
    decreases events.len(),
{
    if events.len() == 0 {
        Seq::empty()
    } else if event_parses(events.last()) {
        parsed_positions(events.drop_last()).push(events.len() - 1)
    } else {
        parsed_positions(events.drop_last())
    }
}

/// The positions of the events whose time does not parse, in order.
pub open spec fn skipped_positions(events: Seq<ActivityEvent>) -> Seq<int>
    decreases events.len(),
{
    if events.len() == 0 {
        Seq::empty()
    } else if event_parses(events.last()) {
        skipped_positions(events.drop_last())
    } else {
        skipped_positions(events.drop_last()).push(events.len() - 1)
    }
}

/// The transactions built from one variant's events, and the positions of the
/// events skipped because their time did not parse.
#[derive(Debug)]
pub struct ActivityReport {
    pub transactions: Vec<NewTransaction>,
    pub skipped_events: Vec<usize>,
}

/// Builds one transaction per event whose time parses, in the events' order,
/// and notes the position of each event that is skipped.
pub fn transactions_from_activity(events: Vec<ActivityEvent>, product: &Product) -> (r: ActivityReport)
    ensures
        r.transactions@.len() == parsed_positions(events@).len(),
        forall|k: int| 0 <= k < r.transactions@.len() ==> {
            let e = events@[parsed_positions(events@)[k]];
            &&& instant_parts(Some(#[trigger] r.transactions@[k].event_time)) == parsed_event_instant(e.created_at@)
            &&& is_transaction_of(r.transactions@[k], e, *product, r.transactions@[k].event_time)
        },
        r.skipped_events@.len() == skipped_positions(events@).len(),
        forall|k: int| 0 <= k < r.skipped_events@.len()
            ==> #[trigger] r.skipped_events@[k] as int == skipped_positions(events@)[k],
{
    let mut transactions: Vec<NewTransaction> = Vec::new();
    let mut skipped: Vec<usize> = Vec::new();
    let mut i: usize = 0;
    while i < events.len()
        invariant
            i <= events@.len(),
            transactions@.len() == parsed_positions(events@.subrange(0, i as int)).len(),
            forall|k: int| 0 <= k < transactions@.len() ==> {
                let e = events@[parsed_positions(events@.subrange(0, i as int))[k]];
                &&& instant_parts(Some(#[trigger] transactions@[k].event_time)) == parsed_event_instant(e.created_at@)
                &&& is_transaction_of(transactions@[k], e, *product, transactions@[k].event_time)
            },
            forall|k: int| 0 <= k < parsed_positions(events@.subrange(0, i as int)).len()
                ==> 0 <= #[trigger] parsed_positions(events@.subrange(0, i as int))[k] < i,
            skipped@.len() == skipped_positions(events@.subrange(0, i as int)).len(),
            forall|k: int| 0 <= k < skipped@.len()
                ==> #[trigger] skipped@[k] as int == skipped_positions(events@.subrange(0, i as int))[k],
        decreases events@.len() - i,
    {
        let ghost prefix = events@.subrange(0, i as int);
        let ghost next = events@.subrange(0, i + 1);
        assert(next.drop_last() =~= prefix);
        assert(next.last() == events@[i as int]);
        let event = &events[i];
        match parse_event_time(event.created_at.as_str()) {
            Some(event_time) => {
                transactions.push(build_transaction(event, product, event_time));
            },
            None => {
                skipped.push(i);
            },
        }
        i += 1;
    }
    assert(events@.subrange(0, i as int) =~= events@);
    ActivityReport { transactions, skipped_events: skipped }
}

} // verus!

//! Buy/sell classification of a trade from the market extremes around it.

use vstd::prelude::*;

verus! {

/// The side of a trade as inferred from the market around it.
#[derive(Clone, Copy, Debug, PartialEq, Eq, Structural)]
pub enum EventType {
    Buy,
    Sell,
    Unknown,
}

/// Distance between two premiums.
pub open spec fn distance(a: int, b: int) -> int {
    if a >= b { a - b } else { b - a }
}

/// A trade is a buy when its premium lies strictly closer to the lowest
/// listing than to the highest offer, a sell otherwise, and unknown when
/// either extreme is missing.
pub open spec fn classify_spec(premium: int, offer: Option<i64>, listing: Option<i64>) -> EventType {
    match (offer, listing) {
        (Some(o), Some(l)) => {
            if distance(premium, l as int) < distance(premium, o as int) {
                EventType::Buy
            } else {
                EventType::Sell
            }
        },
        _ => EventType::Unknown,
    }
}

/// The text stored for each event type.
pub open spec fn label_of(t: EventType) -> Seq<char> {
    match t {
        EventType::Buy => "buy"@,
        EventType::Sell => "sell"@,
        EventType::Unknown => "unknown"@,
    }
}

impl EventType {
    /// The stored label: `"buy"`, `"sell"` or `"unknown"`.
    pub fn as_str(&self) -> (r: &'static str)
        ensures
            r@ == label_of(*self),
    {
        match self {
            EventType::Buy => "buy",
            EventType::Sell => "sell",
            EventType::Unknown => "unknown",
        }
    }
}

fn distance_exec(a: i64, b: i64) -> (r: i128)
    ensures
        r == distance(a as int, b as int),
{
    let a = a as i128;
    let b = b as i128;
    if a >= b { a - b } else { b - a }
}

/// Classifies a trade whose premium is `premium` against the market's highest
/// offer and lowest listing premiums (all in the same fixed-point unit).
pub fn classify(premium: i64, highest_offer_premium: Option<i64>, lowest_listing_premium: Option<i64>) -> (r: EventType)
    ensures
        r == classify_spec(premium as int, highest_offer_premium, lowest_listing_premium),
        highest_offer_premium.is_none() ==> r == EventType::Unknown,
        lowest_listing_premium.is_none() ==> r == EventType::Unknown,
        highest_offer_premium.is_some() && lowest_listing_premium.is_some() ==> r != EventType::Unknown,
{
    match (highest_offer_premium, lowest_listing_premium) {
        (Some(offer), Some(listing)) => {
            let dist_to_offer = distance_exec(premium, offer);
            let dist_to_listing = distance_exec(premium, listing);
            if dist_to_listing < dist_to_offer {
                EventType::Buy
            } else {
                EventType::Sell
            }
        },
        _ => EventType::Unknown,
    }
}

/// The stored event-type label of a trade: `"buy"` when its premium is strictly
/// closer to the lowest listing than to the highest offer, `"sell"` otherwise
/// (ties included), and `"unknown"` when either extreme is missing.
pub fn determine_event_type(
    transaction_premium: i64,
    highest_offer_premium: Option<i64>,
    lowest_listing_premium: Option<i64>,
) -> (r: String)
    ensures
        r@ == label_of(classify_spec(transaction_premium as int, highest_offer_premium, lowest_listing_premium)),
        highest_offer_premium.is_none() ==> r@ == "unknown"@,
        lowest_listing_premium.is_none() ==> r@ == "unknown"@,
{
    let t = classify(transaction_premium, highest_offer_premium, lowest_listing_premium);
    t.as_str().to_owned()
}

} // verus!

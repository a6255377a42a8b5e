//! One round of the watch: what to keep for the next poll and what to send,
//! given what the last poll kept and what this poll brought.

use crate::auction::Listing;
use crate::collection::{at_least, is_sold, Auctions};
use crate::error::Error;
use crate::notification::{body_icon, notice_of, notice_view};
use vstd::prelude::*;

verus! {

/// What a round hands to the loop that polls.
#[derive(Debug)]
pub struct Step {
    /// The listings to compare the next poll with.
    pub previous: Auctions,
    /// The notice to send, as text and icon address.
    pub notice: Option<(String, String)>,
    /// Why the poll brought nothing, to be logged.
    pub failure: Option<Error>,
}

/// The listings that are watched: sold, and priced at the floor or more.
pub open spec fn watched(all: Seq<Listing>, min_price: u32) -> Seq<Listing> {
    all.filter(is_sold()).filter(at_least(min_price))
}

/// Narrows a poll's listings to the watched ones.
pub fn watch(all: Auctions, min_price: u32) -> (r: Auctions)
    ensures
        r@ == watched(all@, min_price),
{
    all.filled().min_price(min_price)
}

/// Runs one round. A failed poll changes nothing and sends nothing. A poll
/// that brought listings is narrowed to the watched ones, which are kept for
/// the next round whether or not a notice is due; the notice tells what is
/// new among them and counts every sold listing of the poll.
pub fn advance(previous: Auctions, fetched: Result<Auctions, Error>, min_price: u32) -> (step: Step)
    ensures
        match fetched {
            Err(error) => step.previous@ == previous@ && step.notice is None && step.failure
                == Some(error),
            Ok(all) => step.previous@ == watched(all@, min_price) && step.failure is None
                && notice_view(step.notice) == notice_of(
                previous@,
                watched(all@, min_price),
                all@.filter(is_sold()),
            ),
        },
{
    match fetched {
        Err(error) => Step { previous, notice: None, failure: Some(error) },
        Ok(all) => {
            let current_filled = all.filled();
            let current = current_filled.clone().min_price(min_price);
            let notice = body_icon(&previous, &current, &current_filled);
            Step { previous: current, notice, failure: None }
        },
    }
}

} // verus!

//! From what the marketplace reports to listings: one raw record to one
//! listing, and the answer to a poll to the collection of its listings.

use crate::auction::{listings, Auction, AuctionType, Listing};
use crate::clock::unix_millis;
use crate::collection::{first_by_id, Auctions};
use crate::error::{Error, Failure, TooltipCause};
use crate::tooltip::{decode_tooltip, item_view, tooltip_of, Item};
use vstd::prelude::*;

verus! {

/// The tooltip payload of a raw listing, as base64 text.
#[derive(Clone, Debug)]
pub struct ItemBytes {
    pub data: String,
}

/// A listing as the marketplace reports it.
#[derive(Clone, Debug)]
pub struct AuctionRaw {
    pub id: u128,
    pub name: String,
    pub is_bin: bool,
    /// The starting bid, or the asking price of a buy-now listing.
    pub price: u32,
    /// The highest bid, or the amount paid for a buy-now listing.
    pub sold_price: u32,
    pub tooltip: ItemBytes,
    /// When the listing ends, in milliseconds since the Unix epoch.
    pub end: u64,
}

/// Kind and sold state of a raw listing. A buy-now listing is sold when the
/// amount paid equals the asking price. A timed one is sold once the clock,
/// read as `now`, is past its end; without a reading it cannot be classified.
pub open spec fn classified(raw: &AuctionRaw, now: Option<u64>) -> Result<
    (AuctionType, bool),
    Failure,
> {
    if raw.is_bin {
        Ok((AuctionType::Bin, raw.sold_price == raw.price))
    } else {
        match now {
            Some(millis) => Ok((AuctionType::Auction, millis > raw.end)),
            None => Err(Failure::InvalidEndDate { end: raw.end }),
        }
    }
}

/// The listing that a raw record, the item read from its tooltip and a clock
/// reading give. A tooltip failure comes before a clock failure.
pub open spec fn assembled(
    raw: &AuctionRaw,
    item: Result<(Seq<char>, u8), Option<TooltipCause>>,
    now: Option<u64>,
) -> Result<Listing, Failure> {
    match item {
        Err(cause) => Err(Failure::InvalidTooltip { cause, id: raw.id, name: raw.name@ }),
        Ok((item_id, quantity)) => match classified(raw, now) {
            Err(failure) => Err(failure),
            Ok((auction_type, sold)) => Ok(
                Listing {
                    id: raw.id,
                    name: raw.name@,
                    item_id,
                    quantity,
                    auction_type,
                    price: raw.price,
                    sold,
                },
            ),
        },
    }
}

/// The listing that a raw record decodes to when the clock reads `now`.
pub open spec fn decoded(raw: &AuctionRaw, now: Option<u64>) -> Result<Listing, Failure> {
    assembled(raw, tooltip_of(raw.tooltip.data@), now)
}

/// A decoding result with its texts as sequences of characters.
pub open spec fn outcome(r: Result<Auction, Error>) -> Result<Listing, Failure> {
    match r {
        Ok(auction) => Ok(auction@),
        Err(error) => Err(error@),
    }
}

impl Auction {
    /// Tells kind and sold state of a raw listing, given the clock's reading
    /// in milliseconds since the epoch, or `None` where it could not be read.
    pub fn classify(raw: &AuctionRaw, now: Option<u64>) -> (r: Result<(AuctionType, bool), Error>)
        ensures
            match r {
                Ok(kind) => classified(raw, now) == Ok::<_, Failure>(kind),
                Err(error) => classified(raw, now) == Err::<(AuctionType, bool), _>(error@),
            },
    {
        if raw.is_bin {
            Ok((AuctionType::Bin, raw.sold_price == raw.price))
        } else {
            match now {
                Some(millis) => Ok((AuctionType::Auction, millis > raw.end)),
                None => Err(Error::InvalidEndDate { end: raw.end }),
            }
        }
    }

    /// Builds the listing from a raw record, the item read from its tooltip
    /// and the clock's reading.
    pub fn assemble(
        raw: AuctionRaw,
        item: Result<Item, Option<TooltipCause>>,
        now: Option<u64>,
    ) -> (r: Result<Auction, Error>)
        ensures
            outcome(r) == assembled(&raw, item_view(item), now),
    {
        let item = match item {
            Ok(item) => item,
            Err(cause) => {
                return Err(Error::InvalidTooltip { cause, id: raw.id, name: raw.name });
            },
        };
        let (auction_type, sold) = match Auction::classify(&raw, now) {
            Ok(kind) => kind,
            Err(error) => {
                return Err(error);
            },
        };
        Ok(
            Auction {
                id: raw.id,
                name: raw.name,
                item_id: item.item_id,
                quantity: item.quantity,
                auction_type,
                price: raw.price,
                sold,
            },
        )
    }

    /// Decodes a raw listing as of the clock reading `now`.
    pub fn from_raw_at(raw: AuctionRaw, now: Option<u64>) -> (r: Result<Auction, Error>)
        ensures
            outcome(r) == decoded(&raw, now),
            r matches Ok(auction) ==> auction.wf(),
    {
        let item = decode_tooltip(raw.tooltip.data.as_str());
        Auction::assemble(raw, item, now)
    }

    /// Decodes a raw listing. The clock is read for a timed listing whose
    /// tooltip could be decoded, and for no other.
    pub fn from_raw(raw: AuctionRaw) -> (r: Result<Auction, Error>)
        ensures
            exists|now: Option<u64>| outcome(r) == decoded(&raw, now),
            raw.is_bin || tooltip_of(raw.tooltip.data@) is Err ==> outcome(r) == decoded(
                &raw,
                None,
            ),
            r matches Ok(auction) ==> auction.wf(),
    {
        let item = decode_tooltip(raw.tooltip.data.as_str());
        let now = if raw.is_bin || item.is_err() {
            None
        } else {
            unix_millis()
        };
        let ghost raw0 = raw;
        let r = Auction::assemble(raw, item, now);
        assert(outcome(r) == decoded(&raw0, now));
        r
    }
}

/// A buy-now listing decodes as sold exactly when the amount paid equals the
/// asking price, whatever the clock reads; it can fail on its tooltip alone.
pub proof fn lemma_buy_now_sold(raw: &AuctionRaw, now: Option<u64>)
    requires
        raw.is_bin,
    ensures
        match decoded(raw, now) {
            Ok(listing) => {
                &&& listing.auction_type == AuctionType::Bin
                &&& listing.sold == (raw.sold_price == raw.price)
            },
            Err(failure) => failure is InvalidTooltip,
        },
        decoded(raw, now) is Ok <==> tooltip_of(raw.tooltip.data@) is Ok,
{
}

/// A timed listing decodes as sold exactly when the clock, read as `now`, is
/// past the listing's end; it can fail on its tooltip alone.
pub proof fn lemma_timed_sold(raw: &AuctionRaw, now: u64)
    requires
        !raw.is_bin,
    ensures
        match decoded(raw, Some(now)) {
            Ok(listing) => {
                &&& listing.auction_type == AuctionType::Auction
                &&& listing.sold == (now > raw.end)
            },
            Err(failure) => failure is InvalidTooltip,
        },
        decoded(raw, Some(now)) is Ok <==> tooltip_of(raw.tooltip.data@) is Ok,
{
}

/// A decoded listing takes id, name and price from the raw record as they
/// are, and holds at least one item.
pub proof fn lemma_decoded_copies(raw: &AuctionRaw, now: Option<u64>)
    ensures
        decoded(raw, now) matches Ok(listing) ==> {
            &&& listing.id == raw.id
            &&& listing.name == raw.name@
            &&& listing.price == raw.price
            &&& listing.quantity >= 1
            &&& tooltip_of(raw.tooltip.data@) == Ok::<_, Option<TooltipCause>>(
                (listing.item_id, listing.quantity),
            )
        },
{
}

/// The body of a marketplace answer.
#[derive(Clone, Debug)]
pub struct HypixelResponse {
    /// Whether the marketplace reports that it served the request.
    pub success: bool,
    pub auctions: Vec<AuctionRaw>,
}

/// What one poll of the marketplace brought.
#[derive(Clone, Debug)]
pub enum Reply {
    /// The request failed before any answer came.
    Failed,
    /// An answer came with this status code. `body` is what its body holds,
    /// or nothing where the body could not be read.
    Answered { status: u16, body: Option<HypixelResponse> },
}

/// The listings that the first `n` raw records decode to, in order, when the
/// clock reads `clock[k]` for record `k`; the failure of the first record
/// that cannot be decoded.
pub open spec fn decoded_first(raws: Seq<AuctionRaw>, clock: Seq<Option<u64>>, n: nat) -> Result<
    Seq<Listing>,
    Failure,
>
    decreases n,
{
    if n == 0 {
        Ok(Seq::empty())
    } else {
        match decoded_first(raws, clock, (n - 1) as nat) {
            Err(failure) => Err(failure),
            Ok(before) => match decoded(&raws[n - 1], clock[n - 1]) {
                Err(failure) => Err(failure),
                Ok(listing) => Ok(before.push(listing)),
            },
        }
    }
}

/// The collection that a batch of raw records gives: every record decoded,
/// with one clock reading each, and of two listings with one id the first.
pub open spec fn decoded_all(raws: Seq<AuctionRaw>, clock: Seq<Option<u64>>) -> Result<
    Seq<Listing>,
    Failure,
> {
    match decoded_first(raws, clock, raws.len()) {
        Err(failure) => Err(failure),
        Ok(all) => Ok(first_by_id(all)),
    }
}

/// The collection that a poll gives. A failed request, a status code other
/// than 200, an unreadable body and a reported failure are told apart, in
/// this order; then the listings are decoded.
pub open spec fn polled(reply: &Reply, clock: Seq<Option<u64>>) -> Result<Seq<Listing>, Failure> {
    match *reply {
        Reply::Failed => Err(Failure::InvalidApiRequest),
        Reply::Answered { status, body } => if status != 200 {
            Err(Failure::InvalidApiStatusCode { code: status })
        } else {
            match body {
                None => Err(Failure::InvalidApiResponse),
                Some(response) => if !response.success {
                    Err(Failure::InvalidApiStatus)
                } else {
                    decoded_all(response.auctions@, clock)
                },
            }
        },
    }
}

/// The raw records that a reply carries.
pub open spec fn records(reply: &Reply) -> Seq<AuctionRaw> {
    match *reply {
        Reply::Answered { status, body: Some(response) } => response.auctions@,
        _ => Seq::empty(),
    }
}

/// A collection or an error, with texts as sequences of characters.
pub open spec fn collected(r: Result<Auctions, Error>) -> Result<Seq<Listing>, Failure> {
    match r {
        Ok(auctions) => Ok(auctions@),
        Err(error) => Err(error@),
    }
}

/// Decoding a prefix does not depend on later clock readings.
proof fn lemma_decoded_first_prefix(
    raws: Seq<AuctionRaw>,
    a: Seq<Option<u64>>,
    b: Seq<Option<u64>>,
    n: nat,
)
    requires
        n <= a.len(),
        n <= b.len(),
        forall|k: int| 0 <= k < n ==> a[k] == b[k],
    ensures
        decoded_first(raws, a, n) == decoded_first(raws, b, n),
    decreases n,
{
    if n > 0 {
        lemma_decoded_first_prefix(raws, a, b, (n - 1) as nat);
    }
}

/// Once a record fails, the failure stands whatever follows.
proof fn lemma_decoded_first_fails(
    raws: Seq<AuctionRaw>,
    clock: Seq<Option<u64>>,
    i: nat,
    n: nat,
)
    requires
        i <= n,
        decoded_first(raws, clock, i) is Err,
    ensures
        decoded_first(raws, clock, n) == decoded_first(raws, clock, i),
    decreases n,
{
    if n > i {
        lemma_decoded_first_fails(raws, clock, i, (n - 1) as nat);
    }
}

impl Auctions {
    /// Decodes a batch of raw records and collects the listings. The first
    /// record that cannot be decoded fails the batch, and no later record is
    /// looked at.
    pub fn decode_all(raws: Vec<AuctionRaw>) -> (r: Result<Auctions, Error>)
        ensures
            exists|clock: Seq<Option<u64>>|
                clock.len() == raws.len() && collected(r) == #[trigger] decoded_all(raws@, clock),
    {
        let mut items: Vec<Auction> = Vec::new();
        let ghost mut clock: Seq<Option<u64>> = Seq::empty();
        let ghost all = raws@;
        assert(listings(items@) =~= Seq::empty());
        for raw in it: raws
            invariant
                all == it.seq(),
                clock.len() == it.index(),
                decoded_first(all, clock, it.index() as nat) == Ok::<_, Failure>(listings(items@)),
        {
            let ghost i = it.index() as nat;
            let ghost before = listings(items@);
            let ghost earlier = clock;
            let r = Auction::from_raw(raw);
            proof {
                let now = choose|now: Option<u64>| outcome(r) == decoded(&raw, now);
                clock = earlier.push(now);
                lemma_decoded_first_prefix(all, earlier, clock, i);
            }
            match r {
                Ok(auction) => {
                    items.push(auction);
                    assert(listings(items@) =~= before.push(auction@));
                },
                Err(error) => {
                    proof {
                        let rest = Seq::new((all.len() - i - 1) as nat, |k: int| None::<u64>);
                        let whole = clock + rest;
                        lemma_decoded_first_prefix(all, clock, whole, i + 1);
                        lemma_decoded_first_fails(all, whole, i + 1, all.len());
                        assert(collected(Err(error)) == decoded_all(all, whole));
                    }
                    return Err(error);
                },
            }
        }
        let r = Auctions::new(items);
        assert(collected(Ok(r)) == decoded_all(all, clock));
        Ok(r)
    }

    /// Turns what a poll brought into the collection of its listings.
    pub fn current(reply: Reply) -> (r: Result<Auctions, Error>)
        ensures
            exists|clock: Seq<Option<u64>>|
                clock.len() == records(&reply).len() && collected(r) == #[trigger] polled(
                    &reply,
                    clock,
                ),
    {
        let ghost none = Seq::<Option<u64>>::empty();
        match reply {
            Reply::Failed => {
                assert(collected(Err(Error::InvalidApiRequest)) == polled(&reply, none));
                Err(Error::InvalidApiRequest)
            },
            Reply::Answered { status, body } => {
                if status != 200 {
                    let r = Err(Error::InvalidApiStatusCode { code: status });
                    proof {
                        let clock = Seq::new(records(&reply).len(), |k: int| None::<u64>);
                        assert(collected(r) == polled(&reply, clock));
                    }
                    return r;
                }
                match body {
                    None => {
                        assert(collected(Err(Error::InvalidApiResponse)) == polled(&reply, none));
                        Err(Error::InvalidApiResponse)
                    },
                    Some(response) => {
                        if !response.success {
                            let r = Err(Error::InvalidApiStatus);
                            proof {
                                let clock = Seq::new(records(&reply).len(), |k: int| None::<u64>);
                                assert(collected(r) == polled(&reply, clock));
                            }
                            return r;
                        }
                        let r = Auctions::decode_all(response.auctions);
                        proof {
                            let clock = choose|clock: Seq<Option<u64>>|
                                clock.len() == response.auctions.len() && collected(r)
                                    == #[trigger] decoded_all(response.auctions@, clock);
                            assert(collected(r) == polled(&reply, clock));
                        }
                        r
                    },
                }
            },
        }
    }
}

} // verus!

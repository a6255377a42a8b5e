//! Streams of listings and the filters that chain over them: each filter
//! wraps a stream and is a stream itself.

use crate::auction::{self, borrowed_listings, listings, Auction, Listing};
use crate::collection::{at_least, is_sold, lemma_filter_twice, of_type};
use vstd::prelude::*;

verus! {

/// A stream that hands out listings one by one, with the three filters as
/// adaptors.
pub trait AuctionExt<'a>: Sized {
    /// The listings still to come, in order.
    spec fn rest(&self) -> Seq<Listing>;

    /// Hands out the next listing, or nothing once the stream is used up.
    fn next(&mut self) -> (r: Option<&'a Auction>)
        ensures
            match r {
                Some(auction) => old(self).rest().len() > 0 && auction@ == old(self).rest()[0]
                    && final(self).rest() == old(self).rest().drop_first(),
                None => old(self).rest().len() == 0 && final(self).rest().len() == 0,
            },
    ;

    /// Keeps the sold listings of the stream: the result wraps `self`, and a
    /// [`Filled`] hands out what the stream it wraps hands out, filtered.
    fn filled(self) -> (r: Filled<Self>)
        ensures
            r.inner() == self,
    {
        Filled { iter: self }
    }

    /// Keeps the listings of one kind: the result wraps `self` and keeps
    /// `auction_type`.
    fn auction_type(self, auction_type: auction::AuctionType) -> (r: AuctionType<Self>)
        ensures
            r.inner() == self,
            r.kind() == auction_type,
    {
        AuctionType { iter: self, auction_type }
    }

    /// Keeps the listings priced at `price` or more: the result wraps `self`
    /// and has `price` as its floor.
    fn min_price(self, price: u32) -> (r: MinPrice<Self>)
        ensures
            r.inner() == self,
            r.floor() == price,
    {
        MinPrice { iter: self, price }
    }
}

/// The first listing of a stream that a rule accepts, with the stream moved
/// past it; nothing once no such listing is left.
fn find<'a, I: AuctionExt<'a>, F: Fn(&Auction) -> bool>(
    iter: &mut I,
    keep: F,
    Ghost(rule): Ghost<spec_fn(Listing) -> bool>,
) -> (r: Option<&'a Auction>)
    requires
        forall|a: &Auction| call_requires(keep, (a,)),
        forall|a: &Auction, b: bool| call_ensures(keep, (a,), b) ==> b == rule(a@),
    ensures
        match r {
            Some(auction) => {
                let kept = old(iter).rest().filter(rule);
                kept.len() > 0 && auction@ == kept[0] && final(iter).rest().filter(rule)
                    == kept.drop_first()
            },
            None => old(iter).rest().filter(rule).len() == 0 && final(iter).rest().filter(
                rule,
            ).len() == 0,
        },
{
    loop
        invariant
            forall|a: &Auction| call_requires(keep, (a,)),
            forall|a: &Auction, b: bool| call_ensures(keep, (a,), b) ==> b == rule(a@),
            iter.rest().filter(rule) == old(iter).rest().filter(rule),
        decreases iter.rest().len(),
    {
        let ghost before = iter.rest();
        proof {
            before.lemma_filter_eq_filter_alt(rule);
            before.lemma_filter_len(rule);
        }
        match iter.next() {
            None => {
                proof {
                    iter.rest().lemma_filter_len(rule);
                }
                return None;
            },
            Some(auction) => {
                if keep(auction) {
                    assert((seq![before[0]] + before.drop_first().filter(rule)).drop_first()
                        =~= before.drop_first().filter(rule));
                    return Some(auction);
                }
            },
        }
    }
}

/// The sold listings of a stream.
pub struct Filled<I> {
    iter: I,
}

impl<I> Filled<I> {
    /// The stream that is filtered.
    pub closed spec fn inner(self) -> I {
        self.iter
    }
}

impl<'a, I: AuctionExt<'a>> AuctionExt<'a> for Filled<I> {
    open spec fn rest(&self) -> Seq<Listing> {
        self.inner().rest().filter(is_sold())
    }

    fn next(&mut self) -> (r: Option<&'a Auction>) {
        let keep = |a: &Auction| -> (b: bool)
            ensures
                b == a.sold,
            { a.sold };
        find(&mut self.iter, keep, Ghost(is_sold()))
    }
}

/// The listings of one kind of a stream.
pub struct AuctionType<I> {
    iter: I,
    auction_type: auction::AuctionType,
}

impl<I> AuctionType<I> {
    /// The stream that is filtered.
    pub closed spec fn inner(self) -> I {
        self.iter
    }

    /// The kind that is kept.
    pub closed spec fn kind(self) -> auction::AuctionType {
        self.auction_type
    }
}

impl<'a, I: AuctionExt<'a>> AuctionExt<'a> for AuctionType<I> {
    open spec fn rest(&self) -> Seq<Listing> {
        self.inner().rest().filter(of_type(self.kind()))
    }

    fn next(&mut self) -> (r: Option<&'a Auction>) {
        let auction_type = self.auction_type;
        let keep = |a: &Auction| -> (b: bool)
            ensures
                b == (a.auction_type == auction_type),
            { a.auction_type == auction_type };
        find(&mut self.iter, keep, Ghost(of_type(auction_type)))
    }
}

/// The listings of a stream that are priced at a floor or more.
pub struct MinPrice<I> {
    iter: I,
    price: u32,
}

impl<I> MinPrice<I> {
    /// The stream that is filtered.
    pub closed spec fn inner(self) -> I {
        self.iter
    }

    /// The least price that is kept.
    pub closed spec fn floor(self) -> u32 {
        self.price
    }
}

impl<'a, I: AuctionExt<'a>> AuctionExt<'a> for MinPrice<I> {
    open spec fn rest(&self) -> Seq<Listing> {
        self.inner().rest().filter(at_least(self.floor()))
    }

    fn next(&mut self) -> (r: Option<&'a Auction>) {
        let price = self.price;
        let keep = |a: &Auction| -> (b: bool)
            ensures
                b == (a.price >= price),
            { a.price >= price };
        find(&mut self.iter, keep, Ghost(at_least(price)))
    }
}

/// A stream filtered twice for sold listings hands out what it hands out
/// filtered once.
pub proof fn lemma_filled_twice<'a, I: AuctionExt<'a>>(twice: Filled<Filled<I>>)
    ensures
        twice.rest() == twice.inner().rest(),
{
    lemma_filter_twice(twice.inner().inner().rest(), is_sold());
}

/// A stream filtered twice for one kind hands out what it hands out filtered
/// once.
pub proof fn lemma_auction_type_twice<'a, I: AuctionExt<'a>>(twice: AuctionType<AuctionType<I>>)
    requires
        twice.kind() == twice.inner().kind(),
    ensures
        twice.rest() == twice.inner().rest(),
{
    lemma_filter_twice(twice.inner().inner().rest(), of_type(twice.kind()));
}

/// A stream filtered twice with one floor hands out what it hands out
/// filtered once.
pub proof fn lemma_min_price_twice<'a, I: AuctionExt<'a>>(twice: MinPrice<MinPrice<I>>)
    requires
        twice.floor() == twice.inner().floor(),
    ensures
        twice.rest() == twice.inner().rest(),
{
    lemma_filter_twice(twice.inner().inner().rest(), at_least(twice.floor()));
}

/// The stream of the listings of a slice, first to last.
pub struct Iter<'a> {
    items: &'a [Auction],
    position: usize,
}

impl<'a> Iter<'a> {
    #[verifier::type_invariant]
    spec fn inv(self) -> bool {
        self.position <= self.items@.len()
    }

    /// The listings of the slice behind the stream, all of them.
    pub closed spec fn source(self) -> Seq<Listing> {
        listings(self.items@)
    }

    /// How many listings were handed out.
    pub closed spec fn taken(self) -> nat {
        self.position as nat
    }

    /// A stream over `items`.
    pub fn new(items: &'a [Auction]) -> (r: Iter<'a>)
        ensures
            r.rest() == listings(items@),
    {
        let r = Iter { items, position: 0 };
        r
    }
}

impl<'a> AuctionExt<'a> for Iter<'a> {
    open spec fn rest(&self) -> Seq<Listing> {
        self.source().skip(self.taken() as int)
    }

    fn next(&mut self) -> (r: Option<&'a Auction>) {
        proof {
            use_type_invariant(&*self);
        }
        if self.position < self.items.len() {
            let auction = &self.items[self.position];
            self.position = self.position + 1;
            Some(auction)
        } else {
            None
        }
    }
}

/// Runs a stream to its end and collects what it hands out.
pub fn collect<'a, I: AuctionExt<'a>>(iter: I) -> (r: Vec<&'a Auction>)
    ensures
        borrowed_listings(r@) == iter.rest(),
{
    let ghost all = iter.rest();
    let mut stream = iter;
    let mut out: Vec<&'a Auction> = Vec::new();
    loop
        invariant
            all == iter.rest(),
            borrowed_listings(out@) + stream.rest() == all,
        decreases stream.rest().len(),
    {
        match stream.next() {
            None => {
                return out;
            },
            Some(auction) => {
                out.push(auction);
            },
        }
    }
}

} // verus!

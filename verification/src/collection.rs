//! The listings of one poll as a set keyed by id, with the filters that
//! narrow it and the difference that tells what is new.

use crate::auction::{borrowed_listings, listings, Auction, AuctionType, Listing};
use crate::auction_ext::{AuctionExt, Iter};
use vstd::prelude::*;

verus! {

/// Whether some listing of `s` has the id.
pub open spec fn has_id(s: Seq<Listing>, id: u128) -> bool {
    exists|i: int| 0 <= i < s.len() && (#[trigger] s[i]).id == id
}

/// Whether no two listings of `s` share an id.
pub open spec fn distinct_ids(s: Seq<Listing>) -> bool {
    forall|i: int, j: int| 0 <= i < j < s.len() ==> (#[trigger] s[i]).id != (#[trigger] s[j]).id
}

/// `s` without the listings whose id an earlier listing already has: of two
/// listings with one id the first stays.
pub open spec fn first_by_id(s: Seq<Listing>) -> Seq<Listing>
    decreases s.len(),
{
    if s.len() == 0 {
        s
    } else {
        let before = first_by_id(s.drop_last());
        if has_id(before, s.last().id) {
            before
        } else {
            before.push(s.last())
        }
    }
}

/// The listings that are sold.
pub open spec fn is_sold() -> spec_fn(Listing) -> bool {
    |l: Listing| l.sold
}

/// The listings of one kind.
pub open spec fn of_type(auction_type: AuctionType) -> spec_fn(Listing) -> bool {
    |l: Listing| l.auction_type == auction_type
}

/// The listings priced at `price` or more.
pub open spec fn at_least(price: u32) -> spec_fn(Listing) -> bool {
    |l: Listing| l.price >= price
}

/// The listings whose id no listing of `other` has.
pub open spec fn absent_from(other: Seq<Listing>) -> spec_fn(Listing) -> bool {
    |l: Listing| !has_id(other, l.id)
}

/// The listings of one poll: a set keyed by id, kept in the order in which
/// the listings were put in.
#[derive(Debug)]
pub struct Auctions {
    items: Vec<Auction>,
}

impl View for Auctions {
    type V = Seq<Listing>;

    closed spec fn view(&self) -> Seq<Listing> {
        listings(self.items@)
    }
}

impl Clone for Auctions {
    fn clone(&self) -> (r: Self)
        ensures
            r@ == self@,
    {
        proof {
            use_type_invariant(self);
        }
        let mut items: Vec<Auction> = Vec::new();
        let mut i: usize = 0;
        while i < self.items.len()
            invariant
                i <= self.items.len(),
                items@ == self.items@.take(i as int),
            decreases self.items.len() - i,
        {
            items.push(self.items[i].clone());
            i += 1;
        }
        assert(items@ =~= self.items@);
        Auctions { items }
    }
}

impl Default for Auctions {
    fn default() -> (r: Self)
        ensures
            r@ == Seq::<Listing>::empty(),
    {
        Auctions::empty()
    }
}

/// Whether one of `items` has the id.
fn holds_id(items: &Vec<Auction>, id: u128) -> (r: bool)
    ensures
        r == has_id(listings(items@), id),
{
    let mut i: usize = 0;
    while i < items.len()
        invariant
            i <= items.len(),
            forall|k: int| 0 <= k < i ==> (#[trigger] listings(items@)[k]).id != id,
        decreases items.len() - i,
    {
        if items[i].id == id {
            assert(listings(items@)[i as int].id == id);
            return true;
        }
        i += 1;
    }
    false
}

/// Keeps the items that `keep` accepts, in order.
fn retain<F: Fn(&Auction) -> bool>(
    items: Vec<Auction>,
    keep: F,
    Ghost(rule): Ghost<spec_fn(Listing) -> bool>,
) -> (kept: Vec<Auction>)
    requires
        forall|a: &Auction| call_requires(keep, (a,)),
        forall|a: &Auction, b: bool| call_ensures(keep, (a,), b) ==> b == rule(a@),
    ensures
        listings(kept@) == listings(items@).filter(rule),
{
    let mut kept: Vec<Auction> = Vec::new();
    let ghost all = listings(items@);
    proof {
        reveal(Seq::filter);
    }
    for auction in it: items
        invariant
            all == listings(it.seq()),
            forall|a: &Auction| call_requires(keep, (a,)),
            forall|a: &Auction, b: bool| call_ensures(keep, (a,), b) ==> b == rule(a@),
            listings(kept@) == all.take(it.index() as int).filter(rule),
    {
        let ghost i = it.index() as int;
        proof {
            assert(all.take(i + 1) =~= all.take(i).push(auction@));
            all.take(i).lemma_filter_push(auction@, rule);
        }
        if keep(&auction) {
            kept.push(auction);
        }
    }
    assert(all.take(all.len() as int) =~= all);
    kept
}

impl Auctions {
    #[verifier::type_invariant]
    spec fn inv(&self) -> bool {
        distinct_ids(listings(self.items@))
    }

    /// Collects listings by putting them in one after the other: of two with
    /// one id the first stays.
    pub fn new(auctions: Vec<Auction>) -> (r: Auctions)
        ensures
            r@ == first_by_id(listings(auctions@)),
            distinct_ids(r@),
    {
        let mut collected = Auctions::empty();
        let ghost all = listings(auctions@);
        for auction in it: auctions
            invariant
                all == listings(it.seq()),
                collected@ == first_by_id(all.take(it.index() as int)),
        {
            let ghost i = it.index() as int;
            assert(all.take(i + 1).drop_last() =~= all.take(i));
            collected.insert(auction);
        }
        assert(all.take(all.len() as int) =~= all);
        proof {
            use_type_invariant(&collected);
        }
        collected
    }

    /// Puts a listing in, unless the collection holds one with its id: the
    /// first listing of an id stays. Tells whether the listing went in.
    pub fn insert(&mut self, auction: Auction) -> (added: bool)
        ensures
            added == !has_id(old(self)@, auction.id),
            final(self)@ == if added {
                old(self)@.push(auction@)
            } else {
                old(self)@
            },
            distinct_ids(final(self)@),
    {
        proof {
            use_type_invariant(&*self);
        }
        if holds_id(&self.items, auction.id) {
            false
        } else {
            let ghost before = listings(self.items@);
            let mut items: Vec<Auction> = Vec::new();
            std::mem::swap(&mut self.items, &mut items);
            items.push(auction);
            assert(listings(items@) =~= before.push(auction@));
            std::mem::swap(&mut self.items, &mut items);
            true
        }
    }

    /// The collection without listings.
    pub fn empty() -> (r: Auctions)
        ensures
            r@ == Seq::<Listing>::empty(),
    {
        let items: Vec<Auction> = Vec::new();
        Auctions { items }
    }

    /// Keeps the sold listings.
    pub fn filled(self) -> (r: Auctions)
        ensures
            r@ == self@.filter(is_sold()),
            distinct_ids(r@),
    {
        proof {
            use_type_invariant(&self);
            lemma_filter_distinct(self@, is_sold());
        }
        let keep = |a: &Auction| -> (b: bool)
            ensures
                b == a.sold,
            { a.sold };
        Auctions { items: retain(self.items, keep, Ghost(is_sold())) }
    }

    /// Keeps the listings of one kind.
    pub fn auction_type(self, auction_type: AuctionType) -> (r: Auctions)
        ensures
            r@ == self@.filter(of_type(auction_type)),
            distinct_ids(r@),
    {
        proof {
            use_type_invariant(&self);
            lemma_filter_distinct(self@, of_type(auction_type));
        }
        let keep = |a: &Auction| -> (b: bool)
            ensures
                b == (a.auction_type == auction_type),
            { a.auction_type == auction_type };
        Auctions { items: retain(self.items, keep, Ghost(of_type(auction_type))) }
    }

    /// Keeps the listings priced at `price` or more.
    pub fn min_price(self, price: u32) -> (r: Auctions)
        ensures
            r@ == self@.filter(at_least(price)),
            distinct_ids(r@),
    {
        proof {
            use_type_invariant(&self);
            lemma_filter_distinct(self@, at_least(price));
        }
        let keep = |a: &Auction| -> (b: bool)
            ensures
                b == (a.price >= price),
            { a.price >= price };
        Auctions { items: retain(self.items, keep, Ghost(at_least(price))) }
    }

    /// The listings whose id no listing of `other` has, in this collection's
    /// order.
    pub fn difference<'a>(&'a self, other: &Auctions) -> (r: Vec<&'a Auction>)
        ensures
            borrowed_listings(r@) == self@.filter(absent_from(other@)),
            forall|i: int| 0 <= i < r.len() ==> !has_id(other@, (#[trigger] r[i]).id),
            distinct_ids(borrowed_listings(r@)),
    {
        proof {
            use_type_invariant(self);
            lemma_filter_distinct(self@, absent_from(other@));
            lemma_difference_absent(self@, other@);
        }
        let ghost all = self@;
        let ghost rule = absent_from(other@);
        let mut fresh: Vec<&'a Auction> = Vec::new();
        let mut i: usize = 0;
        proof {
            reveal(Seq::filter);
        }
        while i < self.items.len()
            invariant
                i <= self.items.len(),
                all == listings(self.items@),
                rule == absent_from(other@),
                borrowed_listings(fresh@) == all.take(i as int).filter(rule),
            decreases self.items.len() - i,
        {
            let auction = &self.items[i];
            proof {
                assert(all.take(i + 1) =~= all.take(i as int).push(auction@));
                all.take(i as int).lemma_filter_push(auction@, rule);
            }
            if !other.contains(auction.id) {
                fresh.push(auction);
            }
            i += 1;
        }
        assert(all.take(all.len() as int) =~= all);
        assert forall|i: int| 0 <= i < fresh.len() implies !has_id(
            other@,
            (#[trigger] fresh[i]).id,
        ) by {
            assert(borrowed_listings(fresh@)[i].id == fresh[i].id);
        }
        fresh
    }

    /// The stream of the collection's listings, in the order in which they
    /// were put in.
    pub fn iter(&self) -> (r: Iter<'_>)
        ensures
            r.rest() == self@,
            distinct_ids(self@),
    {
        proof {
            use_type_invariant(self);
        }
        Iter::new(self.items.as_slice())
    }

    /// How many listings the collection holds.
    pub fn len(&self) -> (n: usize)
        ensures
            n == self@.len(),
            distinct_ids(self@),
    {
        proof {
            use_type_invariant(self);
        }
        self.items.len()
    }

    /// Whether a listing of the collection has the id.
    pub fn contains(&self, id: u128) -> (r: bool)
        ensures
            r == has_id(self@, id),
    {
        holds_id(&self.items, id)
    }
}

/// What `first_by_id` keeps has distinct ids, and the ids of `s`.
pub proof fn lemma_first_by_id(s: Seq<Listing>)
    ensures
        distinct_ids(first_by_id(s)),
        forall|id: u128| has_id(first_by_id(s), id) == has_id(s, id),
        first_by_id(s).len() <= s.len(),
    decreases s.len(),
{
    if s.len() > 0 {
        let before = s.drop_last();
        let kept = first_by_id(before);
        lemma_first_by_id(before);
        assert forall|id: u128| has_id(first_by_id(s), id) == has_id(s, id) by {
            if has_id(s, id) {
                let i = choose|i: int| 0 <= i < s.len() && (#[trigger] s[i]).id == id;
                if i < s.len() - 1 {
                    assert(before[i].id == id);
                    assert(has_id(before, id));
                    assert(has_id(kept, id));
                    let k = choose|k: int| 0 <= k < kept.len() && (#[trigger] kept[k]).id == id;
                    assert(first_by_id(s)[k].id == id);
                } else if !has_id(kept, id) {
                    assert(first_by_id(s)[kept.len() as int].id == id);
                }
            }
            if has_id(first_by_id(s), id) {
                let k = choose|k: int|
                    0 <= k < first_by_id(s).len() && (#[trigger] first_by_id(s)[k]).id == id;
                if k < kept.len() {
                    assert(kept[k].id == id);
                    assert(has_id(before, id));
                    let i = choose|i: int| 0 <= i < before.len() && (#[trigger] before[i]).id == id;
                    assert(s[i].id == id);
                } else {
                    assert(s[s.len() - 1].id == id);
                }
            }
        }
    }
}

/// Of the listings of `s` with one id, `first_by_id` keeps the first.
pub proof fn lemma_first_by_id_first(s: Seq<Listing>, i: int)
    requires
        0 <= i < s.len(),
        forall|j: int| 0 <= j < i ==> (#[trigger] s[j]).id != s[i].id,
    ensures
        first_by_id(s).contains(s[i]),
    decreases s.len(),
{
    let before = s.drop_last();
    let kept = first_by_id(before);
    if i == s.len() - 1 {
        lemma_first_by_id(before);
        if has_id(before, s[i].id) {
            let j = choose|j: int| 0 <= j < before.len() && (#[trigger] before[j]).id == s[i].id;
            assert(s[j].id == s[i].id);
        }
        assert(first_by_id(s)[kept.len() as int] == s[i]);
    } else {
        assert forall|j: int| 0 <= j < i implies (#[trigger] before[j]).id != before[i].id by {
            assert(s[j].id != s[i].id);
        }
        lemma_first_by_id_first(before, i);
        let k = choose|k: int| 0 <= k < kept.len() && kept[k] == before[i];
        assert(first_by_id(s)[k] == s[i]);
    }
}

/// Filtering by one rule twice keeps what filtering once keeps.
pub proof fn lemma_filter_twice(s: Seq<Listing>, keep: spec_fn(Listing) -> bool)
    ensures
        s.filter(keep).filter(keep) == s.filter(keep),
    decreases s.len(),
{
    reveal(Seq::filter);
    if s.len() > 0 {
        lemma_filter_twice(s.drop_last(), keep);
        if keep(s.last()) {
            s.drop_last().filter(keep).lemma_filter_push(s.last(), keep);
        }
    }
}

/// `filled` applied twice gives the collection that it gives applied once.
pub proof fn lemma_filled_twice(s: Seq<Listing>)
    ensures
        s.filter(is_sold()).filter(is_sold()) == s.filter(is_sold()),
{
    lemma_filter_twice(s, is_sold());
}

/// `auction_type` applied twice with one kind gives the collection that it
/// gives applied once.
pub proof fn lemma_auction_type_twice(s: Seq<Listing>, auction_type: AuctionType)
    ensures
        s.filter(of_type(auction_type)).filter(of_type(auction_type)) == s.filter(
            of_type(auction_type),
        ),
{
    lemma_filter_twice(s, of_type(auction_type));
}

/// `min_price` applied twice with one floor gives the collection that it
/// gives applied once.
pub proof fn lemma_min_price_twice(s: Seq<Listing>, price: u32)
    ensures
        s.filter(at_least(price)).filter(at_least(price)) == s.filter(at_least(price)),
{
    lemma_filter_twice(s, at_least(price));
}

/// Every listing that a filter keeps meets the filter's rule and comes from
/// the collection that was filtered.
pub proof fn lemma_filter_keeps(s: Seq<Listing>, keep: spec_fn(Listing) -> bool, i: int)
    requires
        0 <= i < s.filter(keep).len(),
    ensures
        keep(s.filter(keep)[i]),
        s.contains(s.filter(keep)[i]),
{
    s.lemma_filter_pred(keep, i);
    assert(s.filter(keep).contains(s.filter(keep)[i]));
    s.lemma_filter_contains_rev(keep, s.filter(keep)[i]);
}

/// The difference of `a` and `b` holds no listing whose id `b` holds, and
/// every listing of `a` whose id `b` does not hold.
pub proof fn lemma_difference_absent(a: Seq<Listing>, b: Seq<Listing>)
    ensures
        forall|i: int|
            0 <= i < a.filter(absent_from(b)).len() ==> !has_id(
                b,
                (#[trigger] a.filter(absent_from(b))[i]).id,
            ),
        forall|j: int|
            0 <= j < a.len() && !has_id(b, (#[trigger] a[j]).id) ==> a.filter(
                absent_from(b),
            ).contains(a[j]),
{
    let rule = absent_from(b);
    assert forall|i: int| 0 <= i < a.filter(rule).len() implies !has_id(
        b,
        (#[trigger] a.filter(rule)[i]).id,
    ) by {
        a.lemma_filter_pred(rule, i);
    }
    assert forall|j: int| 0 <= j < a.len() && !has_id(b, (#[trigger] a[j]).id) implies a.filter(
        rule,
    ).contains(a[j]) by {
        a.lemma_filter_contains(rule, j);
    }
}

/// The difference of a collection and itself is empty.
pub proof fn lemma_difference_self(a: Seq<Listing>)
    ensures
        a.filter(absent_from(a)) == Seq::<Listing>::empty(),
{
    let rule = absent_from(a);
    let left = a.filter(rule);
    if left.len() > 0 {
        a.lemma_filter_pred(rule, 0);
        assert(left.contains(left[0]));
        a.lemma_filter_contains_rev(rule, left[0]);
        let j = choose|j: int| 0 <= j < a.len() && a[j] == left[0];
        assert(a[j].id == left[0].id);
        assert(has_id(a, left[0].id));
    }
    assert(left =~= Seq::empty());
}

/// Filtering keeps ids distinct.
pub proof fn lemma_filter_distinct(s: Seq<Listing>, keep: spec_fn(Listing) -> bool)
    requires
        distinct_ids(s),
    ensures
        distinct_ids(s.filter(keep)),
    decreases s.len(),
{
    reveal(Seq::filter);
    if s.len() > 0 {
        let before = s.drop_last();
        lemma_filter_distinct(before, keep);
        let kept = before.filter(keep);
        if keep(s.last()) {
            assert forall|i: int| 0 <= i < kept.len() implies (#[trigger] kept[i]).id
                != s.last().id by {
                assert(kept.contains(kept[i]));
                before.lemma_filter_contains_rev(keep, kept[i]);
                let k = choose|k: int| 0 <= k < before.len() && before[k] == kept[i];
                assert(s[k] == before[k]);
                assert(s[s.len() - 1] == s.last());
            }
        }
    }
}

} // verus!

//! The notice for what newly sold: which listings are new since the last
//! poll, in which order they are named, and the wording.

use crate::auction::{borrowed_listings, icon_url_of, Auction, Listing};
use crate::collection::{absent_from, lemma_difference_self, Auctions};
use crate::auction_ext::collect;
use crate::text::{decimal, decimal_text, grouped, grouped_text};
use vstd::prelude::*;
use vstd::string::StringExecFns;

verus! {

/// How a listing is named: by its name alone for a single item, else with
/// the stack size behind it.
pub open spec fn label(l: Listing) -> Seq<char> {
    if l.quantity == 1 {
        l.name
    } else {
        l.name + " x"@ + decimal(l.quantity as nat)
    }
}

/// The sum of the prices.
pub open spec fn total(s: Seq<Listing>) -> nat
    decreases s.len(),
{
    if s.len() == 0 {
        0
    } else {
        total(s.drop_last()) + s.last().price as nat
    }
}

/// The labels of the listings, with a comma and a space between them.
pub open spec fn joined(s: Seq<Listing>) -> Seq<char>
    decreases s.len(),
{
    if s.len() == 0 {
        Seq::empty()
    } else if s.len() == 1 {
        label(s[0])
    } else {
        joined(s.drop_last()) + ", "@ + label(s.last())
    }
}

/// `s` with `l` put behind the last listing that costs no more than `l`.
pub open spec fn inserted(s: Seq<Listing>, l: Listing) -> Seq<Listing>
    decreases s.len(),
{
    if s.len() == 0 {
        seq![l]
    } else if s.last().price <= l.price {
        s.push(l)
    } else {
        inserted(s.drop_last(), l).push(s.last())
    }
}

/// The listings in ascending order of price; listings of one price keep the
/// order they came in.
pub open spec fn by_price(s: Seq<Listing>) -> Seq<Listing>
    decreases s.len(),
{
    if s.len() == 0 {
        s
    } else {
        inserted(by_price(s.drop_last()), s.last())
    }
}

/// The listings of `current` that `previous` does not hold, cheapest first.
pub open spec fn fresh(previous: Seq<Listing>, current: Seq<Listing>) -> Seq<Listing> {
    by_price(current.filter(absent_from(previous)))
}

/// What sold: the one label, or the labels of all but the last listing and
/// the bare name of the last.
pub open spec fn names(new: Seq<Listing>) -> Seq<char> {
    if new.len() == 1 {
        label(new[0])
    } else {
        joined(new.drop_last()) + " and "@ + new.last().name
    }
}

/// For how much: the one price, or the sum of all, thousands-grouped.
pub open spec fn amount(new: Seq<Listing>) -> Seq<char> {
    if new.len() == 1 {
        grouped(new[0].price as nat)
    } else {
        "a total of "@ + grouped(total(new))
    }
}

/// The sentence on the new listings.
pub open spec fn sentence(new: Seq<Listing>) -> Seq<char> {
    "Your "@ + names(new) + " just sold for "@ + amount(new) + " coins."@
}

/// The sentence on everything that waits to be claimed.
pub open spec fn trailer(filled: Seq<Listing>) -> Seq<char> {
    " You have a total of "@ + grouped(total(filled)) + " coins to claim from "@ + decimal(
        filled.len(),
    ) + " filled auctions."@
}

/// The notice's text. The second sentence stands where more listings are
/// filled than are new.
pub open spec fn message(new: Seq<Listing>, filled: Seq<Listing>) -> Seq<char> {
    if filled.len() > new.len() {
        sentence(new) + trailer(filled)
    } else {
        sentence(new)
    }
}

/// The notice for one poll, as text and icon address: nothing where no
/// listing is new, else the message and the icon of the dearest new listing.
pub open spec fn notice_of(
    previous: Seq<Listing>,
    current: Seq<Listing>,
    filled: Seq<Listing>,
) -> Option<(Seq<char>, Seq<char>)> {
    let new = fresh(previous, current);
    if new.len() == 0 {
        None
    } else {
        Some((message(new, filled), icon_url_of(new.last().item_id)))
    }
}

/// A notice with its two texts as sequences of characters.
pub open spec fn notice_view(notice: Option<(String, String)>) -> Option<(Seq<char>, Seq<char>)> {
    match notice {
        Some((body, icon)) => Some((body@, icon@)),
        None => None,
    }
}

/// Names a listing.
pub fn format_auction(auction: &Auction) -> (s: String)
    ensures
        s@ == label(auction@),
{
    if auction.quantity == 1 {
        auction.name.clone()
    } else {
        let mut s = auction.name.clone();
        s.append(" x");
        let quantity = decimal_text(auction.quantity as u64);
        s.append(quantity.as_str());
        s
    }
}

/// The sum of the prices of `auctions`.
fn sum_prices(auctions: &Vec<&Auction>) -> (sum: u128)
    ensures
        sum == total(borrowed_listings(auctions@)),
{
    let ghost all = borrowed_listings(auctions@);
    let mut sum: u128 = 0;
    let mut i: usize = 0;
    while i < auctions.len()
        invariant
            i <= auctions.len(),
            all == borrowed_listings(auctions@),
            sum == total(all.take(i as int)),
            sum <= i * 0xffff_ffff,
        decreases auctions.len() - i,
    {
        assert(all.take(i + 1).drop_last() =~= all.take(i as int));
        sum = sum + auctions[i].price as u128;
        i += 1;
    }
    assert(all.take(all.len() as int) =~= all);
    sum
}

/// The sum of the prices, thousands-grouped.
pub fn total_sold(auctions: &Vec<&Auction>) -> (s: String)
    ensures
        s@ == grouped(total(borrowed_listings(auctions@))),
{
    grouped_text(sum_prices(auctions))
}

/// Where `inserted` puts a listing: behind the last one that costs no more.
proof fn lemma_inserted_at(s: Seq<Listing>, l: Listing, k: int)
    requires
        0 <= k <= s.len(),
        forall|j: int| k <= j < s.len() ==> (#[trigger] s[j]).price > l.price,
        k == 0 || s[k - 1].price <= l.price,
    ensures
        inserted(s, l) == s.insert(k, l),
    decreases s.len(),
{
    if s.len() > 0 && k < s.len() {
        lemma_inserted_at(s.drop_last(), l, k);
    }
}

/// Sorts by ascending price, keeping listings of one price in their order.
fn sort_by_price<'a>(auctions: Vec<&'a Auction>) -> (sorted: Vec<&'a Auction>)
    ensures
        borrowed_listings(sorted@) == by_price(borrowed_listings(auctions@)),
{
    let ghost all = borrowed_listings(auctions@);
    let mut sorted: Vec<&'a Auction> = Vec::new();
    let mut i: usize = 0;
    while i < auctions.len()
        invariant
            i <= auctions.len(),
            sorted.len() == i,
            all == borrowed_listings(auctions@),
            borrowed_listings(sorted@) == by_price(all.take(i as int)),
        decreases auctions.len() - i,
    {
        let auction = auctions[i];
        let mut k: usize = sorted.len();
        while k > 0 && sorted[k - 1].price > auction.price
            invariant
                k <= sorted.len(),
                forall|j: int|
                    k <= j < sorted.len() ==> (#[trigger] borrowed_listings(sorted@)[j]).price
                        > auction.price,
            decreases k,
        {
            k -= 1;
        }
        let ghost before = borrowed_listings(sorted@);
        proof {
            assert(all.take(i + 1).drop_last() =~= all.take(i as int));
            lemma_inserted_at(before, auction@, k as int);
        }
        sorted.insert(k, auction);
        i += 1;
    }
    assert(all.take(all.len() as int) =~= all);
    sorted
}

/// Words what sold, for one or more listings in the order given.
fn compose_names(new: &Vec<&Auction>) -> (s: String)
    requires
        new.len() >= 1,
    ensures
        s@ == names(borrowed_listings(new@)),
{
    let ghost all = borrowed_listings(new@);
    if new.len() == 1 {
        return format_auction(new[0]);
    }
    let last = new.len() - 1;
    let ghost others = all.drop_last();
    let mut s = String::new();
    let mut i: usize = 0;
    while i < last
        invariant
            i <= last,
            last == new.len() - 1,
            all == borrowed_listings(new@),
            others == all.drop_last(),
            s@ == joined(others.take(i as int)),
        decreases last - i,
    {
        if i > 0 {
            s.append(", ");
        }
        let label = format_auction(new[i]);
        s.append(label.as_str());
        assert(others.take(i + 1).drop_last() =~= others.take(i as int));
        i += 1;
    }
    assert(others.take(last as int) =~= others);
    s.append(" and ");
    s.append(new[last].name.as_str());
    s
}

/// The notice for one poll: its text and the address of its icon, the icon
/// of the dearest new listing. Nothing where no listing is new.
pub fn body_icon(previous: &Auctions, current: &Auctions, current_filled: &Auctions) -> (r: Option<
    (String, String),
>)
    ensures
        notice_view(r) == notice_of(previous@, current@, current_filled@),
{
    let unsorted = current.difference(previous);
    let new = sort_by_price(unsorted);
    proof {
        lemma_by_price_sorts(borrowed_listings(unsorted@));
    }
    if new.len() == 0 {
        return None;
    }
    let what = compose_names(&new);
    let mut body = "Your ".to_owned();
    body.append(what.as_str());
    body.append(" just sold for ");
    if new.len() == 1 {
        let price = grouped_text(new[0].price as u128);
        body.append(price.as_str());
    } else {
        body.append("a total of ");
        let sum = total_sold(&new);
        body.append(sum.as_str());
    }
    body.append(" coins.");
    if current_filled.len() > new.len() {
        let filled = collect(current_filled.iter());
        body.append(" You have a total of ");
        let sum = total_sold(&filled);
        body.append(sum.as_str());
        body.append(" coins to claim from ");
        let count = decimal_text(current_filled.len() as u64);
        body.append(count.as_str());
        body.append(" filled auctions.");
    }
    let icon = new[new.len() - 1].icon_url();
    Some((body, icon))
}

/// Whether no listing costs less than one before it.
pub open spec fn ascending(s: Seq<Listing>) -> bool {
    forall|i: int, j: int|
        0 <= i <= j < s.len() ==> (#[trigger] s[i]).price <= (#[trigger] s[j]).price
}

/// The place at which `inserted` puts `l`.
spec fn slot(s: Seq<Listing>, l: Listing) -> int
    decreases s.len(),
{
    if s.len() == 0 || s.last().price <= l.price {
        s.len() as int
    } else {
        slot(s.drop_last(), l)
    }
}

/// `inserted` puts the listing at its slot: behind everything that costs no
/// more, before everything that costs more.
proof fn lemma_slot(s: Seq<Listing>, l: Listing)
    ensures
        0 <= slot(s, l) <= s.len(),
        forall|j: int| slot(s, l) <= j < s.len() ==> (#[trigger] s[j]).price > l.price,
        slot(s, l) == 0 || s[slot(s, l) - 1].price <= l.price,
        inserted(s, l) == s.insert(slot(s, l), l),
    decreases s.len(),
{
    if !(s.len() == 0 || s.last().price <= l.price) {
        lemma_slot(s.drop_last(), l);
        assert forall|j: int| slot(s, l) <= j < s.len() implies (#[trigger] s[j]).price
            > l.price by {
            if j < s.len() - 1 {
                assert(s.drop_last()[j].price > l.price);
            }
        }
    }
    lemma_inserted_at(s, l, slot(s, l));
}

/// Inserting into an ascending run keeps it ascending, and adds the listing
/// and nothing else.
proof fn lemma_inserted(s: Seq<Listing>, l: Listing)
    requires
        ascending(s),
    ensures
        ascending(inserted(s, l)),
        inserted(s, l).to_multiset() == s.to_multiset().insert(l),
        inserted(s, l).len() == s.len() + 1,
{
    lemma_slot(s, l);
    let k = slot(s, l);
    let t = s.insert(k, l);
    vstd::seq_lib::to_multiset_insert(s, k, l);
    assert(ascending(t));
}

/// `by_price` sorts: its result is ascending in price and holds the same
/// listings, each as often as before.
pub proof fn lemma_by_price_sorts(s: Seq<Listing>)
    ensures
        ascending(by_price(s)),
        by_price(s).to_multiset() == s.to_multiset(),
        by_price(s).len() == s.len(),
    decreases s.len(),
{
    if s.len() > 0 {
        lemma_by_price_sorts(s.drop_last());
        lemma_inserted(by_price(s.drop_last()), s.last());
        vstd::seq_lib::to_multiset_build(s.drop_last(), s.last());
        assert(s.drop_last().push(s.last()) =~= s);
    }
}

/// An ascending run stays as it is: `by_price` moves nothing that is in
/// order, so listings of one price keep their places.
pub proof fn lemma_by_price_of_ascending(s: Seq<Listing>)
    requires
        ascending(s),
    ensures
        by_price(s) == s,
    decreases s.len(),
{
    if s.len() > 0 {
        let before = s.drop_last();
        assert(ascending(before));
        lemma_by_price_of_ascending(before);
    }
}

/// The dearest new listing, whose icon the notice shows, costs no less than
/// any other new listing.
pub proof fn lemma_fresh_last_is_dearest(previous: Seq<Listing>, current: Seq<Listing>, i: int)
    requires
        0 <= i < fresh(previous, current).len(),
    ensures
        fresh(previous, current)[i].price <= fresh(previous, current).last().price,
{
    lemma_by_price_sorts(current.filter(absent_from(previous)));
}

/// The new listings are those of `current` whose id `previous` does not
/// hold: as many as the difference holds, and none when the two collections
/// are one.
pub proof fn lemma_fresh_counts(previous: Seq<Listing>, current: Seq<Listing>)
    ensures
        fresh(previous, current).len() == current.filter(absent_from(previous)).len(),
        fresh(current, current).len() == 0,
{
    lemma_by_price_sorts(current.filter(absent_from(previous)));
    lemma_by_price_sorts(current.filter(absent_from(current)));
    lemma_difference_self(current);
}

} // verus!

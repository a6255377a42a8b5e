use skysold::auction::{Auction, AuctionType};
use skysold::collection::Auctions;
use skysold::auction_ext::{collect, AuctionExt, Iter};

fn listing(id: u128, kind: AuctionType, price: u32, sold: bool) -> Auction {
    Auction {
        id,
        name: format!("Item {}", id),
        item_id: format!("ITEM_{}", id),
        quantity: 1,
        auction_type: kind,
        price,
        sold,
    }
}

fn sample() -> Vec<Auction> {
    vec![
        listing(1, AuctionType::Bin, 100, true),
        listing(2, AuctionType::Auction, 2_000, false),
        listing(3, AuctionType::Bin, 30_000, true),
        listing(4, AuctionType::Auction, 400_000, true),
        listing(5, AuctionType::Bin, 5_000_000, false),
    ]
}

fn ids(auctions: &Auctions) -> Vec<u128> {
    collect(auctions.iter()).iter().map(|a| a.id).collect()
}

#[test]
fn filled_keeps_the_sold_listings() {
    assert_eq!(ids(&Auctions::new(sample()).filled()), vec![1, 3, 4]);
}

#[test]
fn auction_type_keeps_one_kind() {
    assert_eq!(ids(&Auctions::new(sample()).auction_type(AuctionType::Bin)), vec![1, 3, 5]);
    assert_eq!(ids(&Auctions::new(sample()).auction_type(AuctionType::Auction)), vec![2, 4]);
}

#[test]
fn min_price_keeps_the_floor_itself() {
    assert_eq!(ids(&Auctions::new(sample()).min_price(30_000)), vec![3, 4, 5]);
    assert_eq!(ids(&Auctions::new(sample()).min_price(30_001)), vec![4, 5]);
    assert_eq!(ids(&Auctions::new(sample()).min_price(0)), vec![1, 2, 3, 4, 5]);
}

#[test]
fn filters_applied_twice_change_nothing_more() {
    let once = Auctions::new(sample()).filled();
    let twice = once.clone().filled();
    assert_eq!(ids(&once), ids(&twice));
    let once = Auctions::new(sample()).auction_type(AuctionType::Bin);
    let twice = once.clone().auction_type(AuctionType::Bin);
    assert_eq!(ids(&once), ids(&twice));
    let once = Auctions::new(sample()).min_price(2_000);
    let twice = once.clone().min_price(2_000);
    assert_eq!(ids(&once), ids(&twice));
}

#[test]
fn difference_holds_only_ids_absent_from_the_other() {
    let a = Auctions::new(sample());
    let b = Auctions::new(vec![
        listing(2, AuctionType::Bin, 1, true),
        listing(5, AuctionType::Bin, 1, true),
        listing(9, AuctionType::Bin, 1, true),
    ]);
    let left: Vec<u128> = a.difference(&b).iter().map(|x| x.id).collect();
    assert_eq!(left, vec![1, 3, 4]);
    let right: Vec<u128> = b.difference(&a).iter().map(|x| x.id).collect();
    assert_eq!(right, vec![9]);
}

#[test]
fn difference_with_itself_is_empty() {
    let a = Auctions::new(sample());
    assert!(a.difference(&a).is_empty());
    assert!(Auctions::empty().difference(&a).is_empty());
    assert_eq!(a.difference(&Auctions::empty()).len(), 5);
}

#[test]
fn first_listing_of_an_id_wins() {
    let auctions = Auctions::new(vec![
        listing(7, AuctionType::Bin, 100, true),
        listing(8, AuctionType::Bin, 200, true),
        listing(7, AuctionType::Auction, 999, false),
    ]);
    assert_eq!(auctions.len(), 2);
    let kept = collect(auctions.iter());
    assert_eq!(kept[0].id, 7);
    assert_eq!(kept[0].price, 100);
    assert_eq!(kept[0].auction_type, AuctionType::Bin);
    assert_eq!(kept[1].id, 8);
}

#[test]
fn empty_and_default_hold_nothing() {
    assert_eq!(Auctions::empty().len(), 0);
    assert_eq!(Auctions::default().len(), 0);
    assert!(!Auctions::empty().contains(1));
    assert!(Auctions::empty().iter().next().is_none());
}

#[test]
fn contains_goes_by_id() {
    let auctions = Auctions::new(sample());
    assert!(auctions.contains(4));
    assert!(!auctions.contains(6));
}

#[test]
fn listings_are_equal_when_their_ids_are() {
    let a = listing(1, AuctionType::Bin, 100, true);
    let b = listing(1, AuctionType::Auction, 999, false);
    let c = listing(2, AuctionType::Bin, 100, true);
    assert!(a == b);
    assert!(a != c);
}

#[test]
fn stream_filters_chain() {
    let auctions = sample();
    let kept: Vec<u128> = collect(
        Iter::new(&auctions).filled().auction_type(AuctionType::Bin).min_price(1_000),
    )
    .iter()
    .map(|a| a.id)
    .collect();
    assert_eq!(kept, vec![3]);
}

#[test]
fn stream_filters_one_by_one() {
    let auctions = sample();
    let sold: Vec<u128> =
        collect(Iter::new(&auctions).filled()).iter().map(|a| a.id).collect();
    assert_eq!(sold, vec![1, 3, 4]);
    let timed: Vec<u128> = collect(Iter::new(&auctions).auction_type(AuctionType::Auction))
        .iter()
        .map(|a| a.id)
        .collect();
    assert_eq!(timed, vec![2, 4]);
    let dear: Vec<u128> =
        collect(Iter::new(&auctions).min_price(400_000)).iter().map(|a| a.id).collect();
    assert_eq!(dear, vec![4, 5]);
}

#[test]
fn stream_stays_empty_once_used_up() {
    let auctions = sample();
    let mut sold = Iter::new(&auctions).min_price(5_000_000);
    assert_eq!(sold.next().map(|a| a.id), Some(5));
    assert!(sold.next().is_none());
    assert!(sold.next().is_none());
}

#[test]
fn stream_filter_applied_twice_is_the_filter() {
    let auctions = sample();
    let once: Vec<u128> =
        collect(Iter::new(&auctions).filled()).iter().map(|a| a.id).collect();
    let twice: Vec<u128> =
        collect(Iter::new(&auctions).filled().filled()).iter().map(|a| a.id).collect();
    assert_eq!(once, twice);
}

#[test]
fn insert_leaves_a_held_id_alone() {
    let mut auctions = Auctions::empty();
    assert!(auctions.insert(listing(7, AuctionType::Bin, 100, true)));
    assert!(auctions.insert(listing(8, AuctionType::Bin, 200, true)));
    assert!(!auctions.insert(listing(7, AuctionType::Auction, 999, false)));
    assert_eq!(auctions.len(), 2);
    let kept = collect(auctions.iter());
    assert_eq!(kept[0].id, 7);
    assert_eq!(kept[0].price, 100);
    assert!(kept[0].sold);
    assert_eq!(kept[1].id, 8);
}

#[test]
fn listings_hash_by_id() {
    let mut set = std::collections::HashSet::new();
    assert!(set.insert(listing(1, AuctionType::Bin, 100, true)));
    assert!(!set.insert(listing(1, AuctionType::Auction, 999, false)));
    assert!(set.insert(listing(2, AuctionType::Bin, 100, true)));
    assert_eq!(set.len(), 2);
    assert_eq!(set.get(&listing(1, AuctionType::Bin, 0, false)).unwrap().price, 100);
}

#[test]
fn clone_copies_every_field() {
    let auction = listing(5, AuctionType::Auction, 77, true);
    let copy = auction.clone();
    assert_eq!(copy.id, 5);
    assert_eq!(copy.name, "Item 5");
    assert_eq!(copy.item_id, "ITEM_5");
    assert_eq!(copy.quantity, 1);
    assert_eq!(copy.auction_type, AuctionType::Auction);
    assert_eq!(copy.price, 77);
    assert!(copy.sold);
    let auctions = Auctions::new(sample());
    assert_eq!(ids(&auctions.clone()), ids(&auctions));
}

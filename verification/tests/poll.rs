use skysold::auction::{Auction, AuctionType};
use skysold::collection::Auctions;
use skysold::auction_ext::collect;
use skysold::error::Error;
use skysold::poll::{advance, watch};

fn listing(id: u128, name: &str, price: u32, sold: bool) -> Auction {
    Auction {
        id,
        name: name.to_owned(),
        item_id: name.to_uppercase().replace(' ', "_"),
        quantity: 1,
        auction_type: AuctionType::Bin,
        price,
        sold,
    }
}

fn ids(auctions: &Auctions) -> Vec<u128> {
    collect(auctions.iter()).iter().map(|a| a.id).collect()
}

fn poll() -> Auctions {
    Auctions::new(vec![
        listing(1, "Ultimate Carrot Candy", 14_000_000, true),
        listing(2, "Healing Ring", 120_000, true),
        listing(3, "Raider Axe", 90_000, true),
        listing(4, "Midas's Sword", 50_040_000, false),
    ])
}

#[test]
fn watch_keeps_sold_listings_at_the_floor() {
    assert_eq!(ids(&watch(poll(), 100_000)), vec![1, 2]);
    assert_eq!(ids(&watch(poll(), 0)), vec![1, 2, 3]);
    assert_eq!(ids(&watch(poll(), 120_001)), vec![1]);
}

#[test]
fn failed_poll_changes_nothing() {
    let previous = watch(poll(), 100_000);
    let step = advance(previous, Err(Error::InvalidApiStatusCode { code: 503 }), 100_000);
    assert_eq!(ids(&step.previous), vec![1, 2]);
    assert!(step.notice.is_none());
    assert!(matches!(step.failure, Some(Error::InvalidApiStatusCode { code: 503 })));
}

#[test]
fn round_reports_what_is_new_above_the_floor() {
    let previous = Auctions::new(vec![listing(1, "Ultimate Carrot Candy", 14_000_000, true)]);
    let step = advance(previous, Ok(poll()), 100_000);
    assert!(step.failure.is_none());
    assert_eq!(ids(&step.previous), vec![1, 2]);
    let (body, icon) = step.notice.unwrap();
    assert_eq!(body, "Your Healing Ring just sold for 120,000 coins. You have a total of 14,210,000 coins to claim from 3 filled auctions.");
    assert_eq!(icon, "https://sky.shiiyu.moe/item/HEALING_RING");
}

#[test]
fn sale_below_the_floor_is_passed_over() {
    let previous = watch(
        Auctions::new(vec![
            listing(1, "Ultimate Carrot Candy", 14_000_000, true),
            listing(2, "Healing Ring", 120_000, true),
        ]),
        100_000,
    );
    let step = advance(previous, Ok(poll()), 100_000);
    assert!(step.notice.is_none());
    assert!(step.failure.is_none());
    assert_eq!(ids(&step.previous), vec![1, 2]);
}

#[test]
fn reported_sale_is_not_reported_again() {
    let first = advance(Auctions::empty(), Ok(poll()), 0);
    let (body, _) = first.notice.unwrap();
    assert_eq!(
        body,
        "Your Raider Axe, Healing Ring and Ultimate Carrot Candy just sold for a total of 14,210,000 coins."
    );
    let second = advance(first.previous, Ok(poll()), 0);
    assert!(second.notice.is_none());
    assert_eq!(ids(&second.previous), vec![1, 2, 3]);
}

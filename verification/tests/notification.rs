use skysold::auction::{Auction, AuctionType};
use skysold::collection::Auctions;
use skysold::notification;
use uuid::Uuid;

fn fake_auction(name: &str, id: &str, price: u32) -> Auction {
    Auction {
        id: Uuid::new_v3(&Uuid::NAMESPACE_URL, id.as_bytes()).as_u128(),
        name: name.to_owned(),
        item_id: id.to_owned(),
        quantity: 1,
        auction_type: AuctionType::Bin,
        price,
        sold: true,
    }
}

fn stack(name: &str, id: &str, price: u32, quantity: u8) -> Auction {
    let mut auction = fake_auction(name, id, price);
    auction.quantity = quantity;
    auction
}

#[test]
fn total_sold() {
    let auctions = vec![
        fake_auction("Ultimate Carrot Candy", "ULTIMATE_CARROT_CANDY", 14_000_000),
        fake_auction("Healing Ring", "HEALING_RING", 120_000),
    ];
    let borrowed: Vec<&Auction> = auctions.iter().collect();
    assert_eq!(notification::total_sold(&borrowed), "14,120,000");
}

#[test]
fn body_icon() {
    // One new, no previous.
    let current = Auctions::new(vec![fake_auction(
        "Ultimate Carrot Candy",
        "ULTIMATE_CARROT_CANDY",
        14_000_000,
    )]);
    let body_icon = notification::body_icon(&Auctions::empty(), &current, &Auctions::empty());
    assert!(body_icon.is_some());
    let (body, icon) = body_icon.unwrap();
    assert_eq!(body, "Your Ultimate Carrot Candy just sold for 14,000,000 coins.");
    assert_eq!(icon, "https://sky.shiiyu.moe/item/ULTIMATE_CARROT_CANDY");

    // One new, one previous.
    let all = Auctions::new(vec![
        fake_auction("Ultimate Carrot Candy", "ULTIMATE_CARROT_CANDY", 14_000_000),
        fake_auction("Healing Ring", "HEALING_RING", 120_000),
    ]);
    let previous = Auctions::new(vec![fake_auction(
        "Ultimate Carrot Candy",
        "ULTIMATE_CARROT_CANDY",
        14_000_000,
    )]);
    let current = Auctions::new(vec![
        fake_auction("Ultimate Carrot Candy", "ULTIMATE_CARROT_CANDY", 14_000_000),
        fake_auction("Healing Ring", "HEALING_RING", 120_000),
    ]);
    let body_icon = notification::body_icon(&previous, &current, &all);
    assert!(body_icon.is_some());
    let (body, icon) = body_icon.unwrap();
    assert_eq!(body, "Your Healing Ring just sold for 120,000 coins. You have a total of 14,120,000 coins to claim from 2 filled auctions.");
    assert_eq!(icon, "https://sky.shiiyu.moe/item/HEALING_RING");

    // Two new, no previous.
    let all = Auctions::new(vec![
        fake_auction("Ultimate Carrot Candy", "ULTIMATE_CARROT_CANDY", 14_000_000),
        fake_auction("Healing Ring", "HEALING_RING", 120_000),
    ]);
    let current = Auctions::new(vec![
        fake_auction("Ultimate Carrot Candy", "ULTIMATE_CARROT_CANDY", 14_000_000),
        fake_auction("Healing Ring", "HEALING_RING", 120_000),
    ]);
    let body_icon = notification::body_icon(&Auctions::empty(), &current, &all);
    assert!(body_icon.is_some());
    let (body, icon) = body_icon.unwrap();
    assert_eq!(body, "Your Healing Ring and Ultimate Carrot Candy just sold for a total of 14,120,000 coins.");
    assert_eq!(icon, "https://sky.shiiyu.moe/item/ULTIMATE_CARROT_CANDY");

    // Three new (one cheap), no previous.
    let all = Auctions::new(vec![
        fake_auction("Ultimate Carrot Candy", "ULTIMATE_CARROT_CANDY", 14_000_000),
        fake_auction("Healing Ring", "HEALING_RING", 120_000),
        fake_auction("Raider Axe", "RAIDER_AXE", 90_000),
    ]);
    let current = Auctions::new(vec![
        fake_auction("Ultimate Carrot Candy", "ULTIMATE_CARROT_CANDY", 14_000_000),
        fake_auction("Healing Ring", "HEALING_RING", 120_000),
    ]);
    let body_icon = notification::body_icon(&Auctions::empty(), &current, &all);
    assert!(body_icon.is_some());
    let (body, icon) = body_icon.unwrap();
    assert_eq!(body, "Your Healing Ring and Ultimate Carrot Candy just sold for a total of 14,120,000 coins. You have a total of 14,210,000 coins to claim from 3 filled auctions.");
    assert_eq!(icon, "https://sky.shiiyu.moe/item/ULTIMATE_CARROT_CANDY");

    // One new, one previous (cheap).
    let all = Auctions::new(vec![
        fake_auction("Ultimate Carrot Candy", "ULTIMATE_CARROT_CANDY", 14_000_000),
        fake_auction("Raider Axe", "RAIDER_AXE", 90_000),
    ]);
    let current = Auctions::new(vec![fake_auction(
        "Ultimate Carrot Candy",
        "ULTIMATE_CARROT_CANDY",
        14_000_000,
    )]);
    let body_icon = notification::body_icon(&Auctions::empty(), &current, &all);
    assert!(body_icon.is_some());
    let (body, icon) = body_icon.unwrap();
    assert_eq!(body, "Your Ultimate Carrot Candy just sold for 14,000,000 coins. You have a total of 14,090,000 coins to claim from 2 filled auctions.");
    assert_eq!(icon, "https://sky.shiiyu.moe/item/ULTIMATE_CARROT_CANDY");

    // One new (cheap), one previous.
    let all = Auctions::new(vec![
        fake_auction("Ultimate Carrot Candy", "ULTIMATE_CARROT_CANDY", 14_000_000),
        fake_auction("Raider Axe", "RAIDER_AXE", 90_000),
    ]);
    let previous = Auctions::new(vec![fake_auction(
        "Ultimate Carrot Candy",
        "ULTIMATE_CARROT_CANDY",
        14_000_000,
    )]);
    let current = Auctions::new(vec![fake_auction(
        "Ultimate Carrot Candy",
        "ULTIMATE_CARROT_CANDY",
        14_000_000,
    )]);
    let body_icon = notification::body_icon(&previous, &current, &all);
    assert!(body_icon.is_none());

    // No new, two previous.
    let all = Auctions::new(vec![
        fake_auction("Ultimate Carrot Candy", "ULTIMATE_CARROT_CANDY", 14_000_000),
        fake_auction("Healing Ring", "HEALING_RING", 120_000),
    ]);
    let previous = Auctions::new(vec![
        fake_auction("Ultimate Carrot Candy", "ULTIMATE_CARROT_CANDY", 14_000_000),
        fake_auction("Healing Ring", "HEALING_RING", 120_000),
    ]);
    let current = Auctions::new(vec![
        fake_auction("Ultimate Carrot Candy", "ULTIMATE_CARROT_CANDY", 14_000_000),
        fake_auction("Healing Ring", "HEALING_RING", 120_000),
    ]);
    let body_icon = notification::body_icon(&previous, &current, &all);
    assert!(body_icon.is_none());

    // Two new (cheaper first), two previous.
    let all = Auctions::new(vec![
        fake_auction("Ultimate Carrot Candy", "ULTIMATE_CARROT_CANDY", 14_000_000),
        fake_auction("Healing Ring", "HEALING_RING", 120_000),
        fake_auction("Midas's Sword", "MIDAS_SWORD", 50_040_000),
        fake_auction("Shredder", "SHREDDER", 999_000),
    ]);
    let previous = Auctions::new(vec![
        fake_auction("Ultimate Carrot Candy", "ULTIMATE_CARROT_CANDY", 14_000_000),
        fake_auction("Healing Ring", "HEALING_RING", 120_000),
    ]);
    let current = Auctions::new(vec![
        fake_auction("Ultimate Carrot Candy", "ULTIMATE_CARROT_CANDY", 14_000_000),
        fake_auction("Healing Ring", "HEALING_RING", 120_000),
        fake_auction("Midas's Sword", "MIDAS_SWORD", 50_040_000),
        fake_auction("Shredder", "SHREDDER", 999_000),
    ]);
    let body_icon = notification::body_icon(&previous, &current, &all);
    assert!(body_icon.is_some());
    let (body, icon) = body_icon.unwrap();
    assert_eq!(body, "Your Shredder and Midas\'s Sword just sold for a total of 51,039,000 coins. You have a total of 65,159,000 coins to claim from 4 filled auctions.");
    assert_eq!(icon, "https://sky.shiiyu.moe/item/MIDAS_SWORD");
}

#[test]
fn single_new_listing_with_nothing_filled() {
    let current = Auctions::new(vec![fake_auction(
        "Ultimate Carrot Candy",
        "ULTIMATE_CARROT_CANDY",
        14_000_000,
    )]);
    let (body, icon) =
        notification::body_icon(&Auctions::empty(), &current, &Auctions::empty()).unwrap();
    assert_eq!(body, "Your Ultimate Carrot Candy just sold for 14,000,000 coins.");
    assert_eq!(icon, "https://sky.shiiyu.moe/item/ULTIMATE_CARROT_CANDY");
}

#[test]
fn trailing_sentence_counts_everything_filled() {
    let candy = fake_auction("Ultimate Carrot Candy", "ULTIMATE_CARROT_CANDY", 14_000_000);
    let ring = fake_auction("Healing Ring", "HEALING_RING", 120_000);
    let previous = Auctions::new(vec![candy.clone()]);
    let current = Auctions::new(vec![candy, ring]);
    let (body, _) = notification::body_icon(&previous, &current, &current).unwrap();
    assert_eq!(body, "Your Healing Ring just sold for 120,000 coins. You have a total of 14,120,000 coins to claim from 2 filled auctions.");
}

#[test]
fn no_trailing_sentence_when_all_filled_are_new() {
    let current = Auctions::new(vec![
        fake_auction("Ultimate Carrot Candy", "ULTIMATE_CARROT_CANDY", 14_000_000),
        fake_auction("Healing Ring", "HEALING_RING", 120_000),
    ]);
    let (body, icon) = notification::body_icon(&Auctions::empty(), &current, &current).unwrap();
    assert_eq!(
        body,
        "Your Healing Ring and Ultimate Carrot Candy just sold for a total of 14,120,000 coins."
    );
    assert_eq!(icon, "https://sky.shiiyu.moe/item/ULTIMATE_CARROT_CANDY");
}

#[test]
fn nothing_new_gives_no_notice() {
    let current = Auctions::new(vec![
        fake_auction("Ultimate Carrot Candy", "ULTIMATE_CARROT_CANDY", 14_000_000),
        fake_auction("Healing Ring", "HEALING_RING", 120_000),
    ]);
    assert!(notification::body_icon(&current, &current, &current).is_none());
    assert!(notification::body_icon(&current, &Auctions::empty(), &current).is_none());
}

#[test]
fn three_new_listings_are_joined_with_commas() {
    let current = Auctions::new(vec![
        stack("Enchanted Carrot", "ENCHANTED_CARROT", 5_000, 64),
        fake_auction("Midas's Sword", "MIDAS_SWORD", 50_040_000),
        stack("Raider Axe", "RAIDER_AXE", 90_000, 2),
        fake_auction("Shredder", "SHREDDER", 999_000),
    ]);
    let (body, icon) = notification::body_icon(&Auctions::empty(), &current, &current).unwrap();
    assert_eq!(
        body,
        "Your Enchanted Carrot x64, Raider Axe x2, Shredder and Midas's Sword just sold for a total of 51,134,000 coins."
    );
    assert_eq!(icon, "https://sky.shiiyu.moe/item/MIDAS_SWORD");
}

#[test]
fn last_listing_is_named_without_its_stack_size() {
    let current = Auctions::new(vec![
        stack("Enchanted Carrot", "ENCHANTED_CARROT", 700, 64),
        stack("Raider Axe", "RAIDER_AXE", 300, 2),
    ]);
    let (body, icon) = notification::body_icon(&Auctions::empty(), &current, &current).unwrap();
    assert_eq!(
        body,
        "Your Raider Axe x2 and Enchanted Carrot just sold for a total of 1,000 coins."
    );
    assert_eq!(icon, "https://sky.shiiyu.moe/item/ENCHANTED_CARROT");
}

#[test]
fn single_stack_keeps_its_size_in_the_sentence() {
    let current = Auctions::new(vec![stack("Enchanted Carrot", "ENCHANTED_CARROT", 999, 160)]);
    let (body, _) = notification::body_icon(&Auctions::empty(), &current, &current).unwrap();
    assert_eq!(body, "Your Enchanted Carrot x160 just sold for 999 coins.");
}

#[test]
fn equal_prices_keep_the_order_they_came_in() {
    let current = Auctions::new(vec![
        fake_auction("Second Dearest", "B", 500),
        fake_auction("Cheapest", "A", 100),
        fake_auction("Dearest", "C", 500),
    ]);
    let (body, icon) = notification::body_icon(&Auctions::empty(), &current, &current).unwrap();
    assert_eq!(
        body,
        "Your Cheapest, Second Dearest and Dearest just sold for a total of 1,100 coins."
    );
    assert_eq!(icon, "https://sky.shiiyu.moe/item/C");
}

#[test]
fn format_auction_names_single_items_and_stacks() {
    assert_eq!(
        notification::format_auction(&fake_auction("Healing Ring", "HEALING_RING", 1)),
        "Healing Ring"
    );
    assert_eq!(
        notification::format_auction(&stack("Enchanted Carrot", "ENCHANTED_CARROT", 1, 64)),
        "Enchanted Carrot x64"
    );
    assert_eq!(
        notification::format_auction(&stack("Midas's Sword", "MIDAS_SWORD", 1, 255)),
        "Midas's Sword x255"
    );
}

#[test]
fn total_sold_groups_by_thousands() {
    let prices = [0u32, 999, 1_000, 4_294_967_295];
    let expected = ["0", "999", "1,000", "4,294,967,295"];
    for (price, text) in prices.iter().zip(expected.iter()) {
        let auction = fake_auction("Healing Ring", "HEALING_RING", *price);
        assert_eq!(notification::total_sold(&vec![&auction]), *text);
    }
    assert_eq!(notification::total_sold(&Vec::new()), "0");
    let dear = fake_auction("Midas's Sword", "MIDAS_SWORD", 4_294_967_295);
    assert_eq!(notification::total_sold(&vec![&dear, &dear, &dear]), "12,884,901,885");
}

#[test]
fn icon_url_appends_the_item_id() {
    let auction = fake_auction("Ultimate Carrot Candy", "ULTIMATE_CARROT_CANDY", 1);
    assert_eq!(auction.icon_url(), "https://sky.shiiyu.moe/item/ULTIMATE_CARROT_CANDY");
}

#[test]
fn two_new_beside_two_reported() {
    let candy = fake_auction("Ultimate Carrot Candy", "ULTIMATE_CARROT_CANDY", 14_000_000);
    let ring = fake_auction("Healing Ring", "HEALING_RING", 120_000);
    let sword = fake_auction("Midas's Sword", "MIDAS_SWORD", 50_040_000);
    let shredder = fake_auction("Shredder", "SHREDDER", 999_000);
    let previous = Auctions::new(vec![candy.clone(), ring.clone()]);
    let current = Auctions::new(vec![candy, ring, sword, shredder]);
    let (body, icon) = notification::body_icon(&previous, &current, &current).unwrap();
    assert_eq!(body, "Your Shredder and Midas's Sword just sold for a total of 51,039,000 coins. You have a total of 65,159,000 coins to claim from 4 filled auctions.");
    assert_eq!(icon, "https://sky.shiiyu.moe/item/MIDAS_SWORD");
}

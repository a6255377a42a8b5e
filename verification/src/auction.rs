//! A marketplace listing.

use vstd::prelude::*;
use vstd::string::StringExecFns;

verus! {

/// How a listing is sold.
#[derive(Copy, Clone, PartialEq, Eq, Debug, Structural)]
pub enum AuctionType {
    /// Bids are taken until the listing ends.
    Auction,
    /// The first buyer pays the asking price.
    Bin,
}

/// One listing. Its `id` is its identity: two listings with one id are the
/// same listing, whatever else they hold.
#[derive(Debug)]
pub struct Auction {
    pub id: u128,
    pub name: String,
    pub item_id: String,
    pub quantity: u8,
    pub auction_type: AuctionType,
    pub price: u32,
    pub sold: bool,
}

/// An [`Auction`] with its texts as sequences of characters.
pub struct Listing {
    pub id: u128,
    pub name: Seq<char>,
    pub item_id: Seq<char>,
    pub quantity: u8,
    pub auction_type: AuctionType,
    pub price: u32,
    pub sold: bool,
}

impl Clone for Auction {
    fn clone(&self) -> (r: Self)
        ensures
            r == *self,
    {
        Auction {
            id: self.id,
            name: self.name.clone(),
            item_id: self.item_id.clone(),
            quantity: self.quantity,
            auction_type: self.auction_type,
            price: self.price,
            sold: self.sold,
        }
    }
}

impl PartialEq for Auction {
    fn eq(&self, other: &Self) -> (r: bool) {
        self.id == other.id
    }
}

impl vstd::std_specs::cmp::PartialEqSpecImpl for Auction {
    open spec fn obeys_eq_spec() -> bool {
        true
    }

    open spec fn eq_spec(&self, other: &Self) -> bool {
        self.id == other.id
    }
}

impl Eq for Auction {

}

impl std::hash::Hash for Auction {
    /// Feeds the id, and nothing else, to the hasher, by `Hash::hash` on the
    /// id: listings that are equal hash alike.
    #[verifier::external_body]
    fn hash<H: std::hash::Hasher>(&self, state: &mut H) {
        self.id.hash(state);
    }
}

impl View for Auction {
    type V = Listing;

    open spec fn view(&self) -> Listing {
        Listing {
            id: self.id,
            name: self.name@,
            item_id: self.item_id@,
            quantity: self.quantity,
            auction_type: self.auction_type,
            price: self.price,
            sold: self.sold,
        }
    }
}

/// The address of the icon of an item type: a fixed base and the type code,
/// unchanged.
pub open spec fn icon_url_of(item_id: Seq<char>) -> Seq<char> {
    "https://sky.shiiyu.moe/item/"@ + item_id
}

/// The listings of a run of auctions, in order.
pub open spec fn listings(auctions: Seq<Auction>) -> Seq<Listing> {
    auctions.map_values(|a: Auction| a@)
}

/// The listings of a run of borrowed auctions, in order.
pub open spec fn borrowed_listings(auctions: Seq<&Auction>) -> Seq<Listing> {
    auctions.map_values(|a: &Auction| a@)
}

impl Auction {
    /// Whether the listing holds at least one item.
    pub open spec fn wf(&self) -> bool {
        self.quantity >= 1
    }

    /// Where the item's icon is found.
    pub fn icon_url(&self) -> (url: String)
        ensures
            url@ == icon_url_of(self.item_id@),
    {
        let mut url = "https://sky.shiiyu.moe/item/".to_owned();
        url.append(self.item_id.as_str());
        url
    }
}

} // verus!

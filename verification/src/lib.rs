//! Watches one seller's marketplace listings: decodes raw listings, keeps them
//! in a collection keyed by id, and words the notice for what newly sold.

pub mod auction;
pub mod auction_ext;
mod clock;
pub mod collection;
pub mod decode;
pub mod error;
pub mod notification;
pub mod poll;
pub mod text;
pub mod tooltip;

//! What can go wrong while a poll's reply is turned into listings.

use vstd::prelude::*;

verus! {

/// The layer of a tooltip payload that could not be read.
#[derive(Clone, Copy, Debug, PartialEq, Eq, Structural)]
pub enum TooltipCause {
    /// The text is not standard base64.
    Base64,
    /// The decoded bytes are not a gzip stream.
    Gzip,
    /// The inflated bytes are not a tree of named tags.
    Nbt,
    /// The tree lacks a required field, or holds it with another type or
    /// with a value out of range.
    Shape,
}

/// A failed poll or a listing that cannot be decoded.
#[derive(Clone, Debug)]
pub enum Error {
    /// The request did not get an answer.
    InvalidApiRequest,
    /// The answer came with a status code other than 200.
    InvalidApiStatusCode { code: u16 },
    /// The answer reports failure.
    InvalidApiStatus,
    /// The answer's body could not be read.
    InvalidApiResponse,
    /// A listing's tooltip payload could not be decoded. Without a cause the
    /// payload was readable but lists no item.
    InvalidTooltip { cause: Option<TooltipCause>, id: u128, name: String },
    /// The clock could not be related to the epoch while the listing that
    /// ends at `end` was classified.
    InvalidEndDate { end: u64 },
}

/// An [`Error`] with its text as a sequence of characters.
pub enum Failure {
    InvalidApiRequest,
    InvalidApiStatusCode { code: u16 },
    InvalidApiStatus,
    InvalidApiResponse,
    InvalidTooltip { cause: Option<TooltipCause>, id: u128, name: Seq<char> },
    InvalidEndDate { end: u64 },
}

impl View for Error {
    type V = Failure;

    open spec fn view(&self) -> Failure {
        match *self {
            Error::InvalidApiRequest => Failure::InvalidApiRequest,
            Error::InvalidApiStatusCode { code } => Failure::InvalidApiStatusCode { code },
            Error::InvalidApiStatus => Failure::InvalidApiStatus,
            Error::InvalidApiResponse => Failure::InvalidApiResponse,
            Error::InvalidTooltip { cause, id, name } => Failure::InvalidTooltip {
                cause,
                id,
                name: name@,
            },
            Error::InvalidEndDate { end } => Failure::InvalidEndDate { end },
        }
    }
}

} // verus!

//! Plain data carried by the offer engine.
//!
//! Identities (the seller, buyers, asset contracts) are host-side handles;
//! the engine only ever compares them for equality, so it holds them as
//! plain `u64` values. The embedding host keeps the mapping from its own
//! identity type to these values.

use vstd::prelude::*;

verus! {

/// The number of trade records the history ledger retains.
pub const HISTORY_CAP: usize = 10;

/// Names of the three persisted slots of engine state. A host that keys its
/// storage by slot persists the offer record, the trade history and the last
/// price under these keys.
#[derive(Clone, Copy, Debug, PartialEq, Eq, Structural)]
pub enum DataKey {
    Offer,
    TradeHistory,
    LastPrice,
}

/// The mutable state of the standing offer.
#[derive(Clone, Copy, Debug, PartialEq, Eq, Structural)]
pub struct Offer {
    /// Identity of the offer owner; set once at creation.
    pub seller: u64,
    /// Identifier of the asset the seller offers.
    pub sell_token: u64,
    /// Identifier of the asset the seller accepts.
    pub buy_token: u64,
    /// Sell side of the price ratio; always positive.
    pub sell_price: u32,
    /// Buy side of the price ratio; always positive.
    pub buy_price: u32,
    /// Floor on the buy-side amount accepted per trade; always positive.
    pub min_buy_amount: i128,
    /// Cumulative buy-side amount over all successful trades.
    pub total_bought: i128,
    /// Cumulative sell-side amount over all successful trades.
    pub total_sold: i128,
    /// Gate: trades are rejected while false.
    pub is_active: bool,
}

/// One successful fill, as retained by the history ledger.
#[derive(Clone, Copy, Debug, PartialEq, Eq, Structural)]
pub struct TradeRecord {
    pub buyer: u64,
    pub buy_amount: i128,
    pub sell_amount: i128,
    pub timestamp: u64,
}

/// An asset movement the host must perform on the engine's behalf: `amount`
/// of `token` out of the engine's custody to `to`.
#[derive(Clone, Copy, Debug, PartialEq, Eq, Structural)]
pub struct Payment {
    pub token: u64,
    pub to: u64,
    pub amount: i128,
}

/// Every way an operation can refuse to act. All are terminal for the
/// invocation: a failed operation changes no state.
#[derive(Clone, Copy, Debug, PartialEq, Eq, Structural)]
pub enum Error {
    /// `create` was called while an offer already exists.
    AlreadyExists,
    /// The operation needs an offer and none has been created.
    NotFound,
    /// A price of zero was supplied.
    InvalidPrice,
    /// A non-positive buy floor was supplied.
    InvalidAmount,
    /// The confirmed authorizer is not the identity the operation demands.
    Unauthorized,
    /// A trade was attempted while the offer is deactivated.
    OfferInactive,
    /// The buy amount is under the seller's floor.
    BelowFloor,
    /// The computed sell amount is under the buyer's floor.
    SlippageExceeded,
    /// The price computation, or a cumulative total, would overflow.
    ArithmeticOverflow,
    /// The engine's custody cannot cover the computed payout.
    InsufficientLiquidity,
}

} // verus!

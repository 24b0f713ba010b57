//! A single-offer escrow-and-swap engine.
//!
//! One seller posts a standing offer to exchange a fixed pair of fungible
//! assets at a configurable integer price ratio; buyers fill the offer
//! incrementally until the seller withdraws funds or deactivates it. The
//! engine owns the offer record, the trade algorithm, a bounded trade
//! history and the authorization gate.
//!
//! Asset transfers, persistence and authorization confirmation are the
//! embedding host's business: each operation takes the identity the host has
//! confirmed as the call's authorizer and the facts the host read (the
//! engine's custodied balance, the ledger timestamp), decides, mutates its
//! state, and hands the host the asset movements to perform. The host
//! commits state and movements as one atomic unit, or none of them.

pub mod engine;
pub mod laws;
pub mod model;
pub mod types;

pub use engine::SingleOfferWork;
pub use types::{DataKey, Error, Offer, Payment, TradeRecord, HISTORY_CAP};

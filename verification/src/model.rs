//! The mathematical model of the engine.
//!
//! Each operation of the engine is specified by a transition function on
//! [`Model`]: given the state before the call and the call's arguments, the
//! transition says exactly which error the call returns, or the state after
//! it and what it hands back. The executable engine's contracts equate each
//! call with its transition.

use vstd::prelude::*;

use crate::types::{Error, Offer, Payment, TradeRecord, HISTORY_CAP};

verus! {

/// The abstract state of the engine: the offer record (absent until
/// creation), the bounded trade history oldest-first, and the amounts of the
/// most recent trade, `(0, 0)` before the first one.
#[verifier::ext_equal]
pub struct Model {
    pub offer: Option<Offer>,
    pub history: Seq<TradeRecord>,
    pub last_price: (i128, i128),
}

/// Well-formedness of engine state: positive prices and floor, non-negative
/// totals, a history of at most [`HISTORY_CAP`] records each with a positive
/// buy amount and non-negative sell amount, and nothing recorded before the
/// offer exists.
pub open spec fn inv(m: Model) -> bool {
    &&& (match m.offer {
        Some(o) => o.sell_price > 0 && o.buy_price > 0 && o.min_buy_amount > 0
            && o.total_bought >= 0 && o.total_sold >= 0,
        None => m.history.len() == 0 && m.last_price == (0i128, 0i128),
    })
    &&& m.history.len() <= HISTORY_CAP as int
    &&& forall|i: int|
        0 <= i < m.history.len() ==> (#[trigger] m.history[i]).buy_amount > 0
            && m.history[i].sell_amount >= 0
}

/// The amount of sell asset a fill pays out: the buy amount scaled by the
/// price ratio, rounded down. Rounding favors the engine's custody; buyers
/// guard against it with their slippage floor.
pub open spec fn spec_sell_amount(buy_token_amount: int, sell_price: int, buy_price: int) -> int {
    (buy_token_amount * sell_price) / buy_price
}

/// Appending to the history ledger: plain append while under the cap; at the
/// cap, the oldest record is evicted first (strict FIFO bound).
pub open spec fn push_capped(history: Seq<TradeRecord>, rec: TradeRecord) -> Seq<TradeRecord> {
    if history.len() < HISTORY_CAP as int {
        history.push(rec)
    } else {
        history.drop_first().push(rec)
    }
}

/// Transition of `create`. Checked in order: an offer may be created only
/// once, prices must be nonzero, the buy floor positive, and the caller must
/// be the seller. On success the offer starts with zero totals, active.
pub open spec fn spec_create(
    m: Model,
    auth: u64,
    seller: u64,
    sell_token: u64,
    buy_token: u64,
    sell_price: u32,
    buy_price: u32,
    min_buy_amount: i128,
) -> Result<Model, Error> {
    if m.offer is Some {
        Err(Error::AlreadyExists)
    } else if buy_price == 0 || sell_price == 0 {
        Err(Error::InvalidPrice)
    } else if min_buy_amount <= 0 {
        Err(Error::InvalidAmount)
    } else if auth != seller {
        Err(Error::Unauthorized)
    } else {
        Ok(Model {
            offer: Some(Offer {
                seller,
                sell_token,
                buy_token,
                sell_price,
                buy_price,
                min_buy_amount,
                total_bought: 0,
                total_sold: 0,
                is_active: true,
            }),
            history: m.history,
            last_price: m.last_price,
        })
    }
}

/// Transition of `trade`. Checked in order: the buyer must have authorized
/// the call; the offer must exist and be active; the buy amount must reach
/// the seller's floor; the price product must fit the amount range; the
/// computed sell amount must reach the buyer's slippage floor; the engine's
/// custody must cover the payout; and the cumulative totals must still fit.
/// On success the totals grow by the traded amounts, the fill is recorded
/// (evicting the oldest record at the cap) and becomes the last price, and
/// the computed sell amount is handed back.
pub open spec fn spec_trade(
    m: Model,
    auth: u64,
    buyer: u64,
    buy_token_amount: i128,
    min_sell_token_amount: i128,
    contract_sell_balance: i128,
    timestamp: u64,
) -> Result<(Model, i128), Error> {
    if auth != buyer {
        Err(Error::Unauthorized)
    } else {
        match m.offer {
            None => Err(Error::NotFound),
            Some(o) => {
                if !o.is_active {
                    Err(Error::OfferInactive)
                } else if buy_token_amount < o.min_buy_amount {
                    Err(Error::BelowFloor)
                } else if buy_token_amount * o.sell_price > i128::MAX {
                    Err(Error::ArithmeticOverflow)
                } else {
                    let sell = spec_sell_amount(
                        buy_token_amount as int,
                        o.sell_price as int,
                        o.buy_price as int,
                    );
                    if sell < min_sell_token_amount {
                        Err(Error::SlippageExceeded)
                    } else if contract_sell_balance < sell {
                        Err(Error::InsufficientLiquidity)
                    } else if o.total_bought + buy_token_amount > i128::MAX || o.total_sold + sell
                        > i128::MAX {
                        Err(Error::ArithmeticOverflow)
                    } else {
                        let rec = TradeRecord {
                            buyer,
                            buy_amount: buy_token_amount,
                            sell_amount: sell as i128,
                            timestamp,
                        };
                        Ok((
                            Model {
                                offer: Some(Offer {
                                    seller: o.seller,
                                    sell_token: o.sell_token,
                                    buy_token: o.buy_token,
                                    sell_price: o.sell_price,
                                    buy_price: o.buy_price,
                                    min_buy_amount: o.min_buy_amount,
                                    total_bought: (o.total_bought + buy_token_amount) as i128,
                                    total_sold: (o.total_sold + sell) as i128,
                                    is_active: o.is_active,
                                }),
                                history: push_capped(m.history, rec),
                                last_price: (buy_token_amount, sell as i128),
                            },
                            sell as i128,
                        ))
                    }
                }
            },
        }
    }
}

/// Transition of `withdraw`. The offer must exist and the caller must be the
/// seller; the state never changes. On success the host is told to move the
/// amount out of the engine's custody to the seller — any asset, any amount,
/// bounded only by what the host's transfer mechanism itself enforces.
pub open spec fn spec_withdraw(m: Model, auth: u64, token: u64, amount: i128) -> Result<
    Payment,
    Error,
> {
    match m.offer {
        None => Err(Error::NotFound),
        Some(o) => {
            if auth != o.seller {
                Err(Error::Unauthorized)
            } else {
                Ok(Payment { token, to: o.seller, amount })
            }
        },
    }
}

/// Transition of `update_price`. Zero prices are rejected first; then the
/// offer must exist and the caller must be the seller. On success exactly
/// the two price fields change.
pub open spec fn spec_update_price(m: Model, auth: u64, sell_price: u32, buy_price: u32) -> Result<
    Model,
    Error,
> {
    if buy_price == 0 || sell_price == 0 {
        Err(Error::InvalidPrice)
    } else {
        match m.offer {
            None => Err(Error::NotFound),
            Some(o) => {
                if auth != o.seller {
                    Err(Error::Unauthorized)
                } else {
                    Ok(Model {
                        offer: Some(Offer {
                            seller: o.seller,
                            sell_token: o.sell_token,
                            buy_token: o.buy_token,
                            sell_price,
                            buy_price,
                            min_buy_amount: o.min_buy_amount,
                            total_bought: o.total_bought,
                            total_sold: o.total_sold,
                            is_active: o.is_active,
                        }),
                        history: m.history,
                        last_price: m.last_price,
                    })
                }
            },
        }
    }
}

/// Transition of `update_min_buy_amount`. A non-positive floor is rejected
/// first; then the offer must exist and the caller must be the seller. On
/// success exactly the floor changes.
pub open spec fn spec_update_min_buy_amount(m: Model, auth: u64, min_buy_amount: i128) -> Result<
    Model,
    Error,
> {
    if min_buy_amount <= 0 {
        Err(Error::InvalidAmount)
    } else {
        match m.offer {
            None => Err(Error::NotFound),
            Some(o) => {
                if auth != o.seller {
                    Err(Error::Unauthorized)
                } else {
                    Ok(Model {
                        offer: Some(Offer {
                            seller: o.seller,
                            sell_token: o.sell_token,
                            buy_token: o.buy_token,
                            sell_price: o.sell_price,
                            buy_price: o.buy_price,
                            min_buy_amount,
                            total_bought: o.total_bought,
                            total_sold: o.total_sold,
                            is_active: o.is_active,
                        }),
                        history: m.history,
                        last_price: m.last_price,
                    })
                }
            },
        }
    }
}

/// Transition of `set_active`. The offer must exist and the caller must be
/// the seller; on success exactly the active gate changes.
pub open spec fn spec_set_active(m: Model, auth: u64, active: bool) -> Result<Model, Error> {
    match m.offer {
        None => Err(Error::NotFound),
        Some(o) => {
            if auth != o.seller {
                Err(Error::Unauthorized)
            } else {
                Ok(Model {
                    offer: Some(Offer {
                        seller: o.seller,
                        sell_token: o.sell_token,
                        buy_token: o.buy_token,
                        sell_price: o.sell_price,
                        buy_price: o.buy_price,
                        min_buy_amount: o.min_buy_amount,
                        total_bought: o.total_bought,
                        total_sold: o.total_sold,
                        is_active: active,
                    }),
                    history: m.history,
                    last_price: m.last_price,
                })
            }
        },
    }
}

} // verus!

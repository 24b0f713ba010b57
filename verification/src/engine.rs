//! The executable offer engine.
//!
//! [`SingleOfferWork`] owns the three state slots — offer record, trade
//! history, last price — and exposes one method per operation. Every method's
//! contract equates the call with its transition function from
//! [`crate::model`], so a caller knows exactly which error comes back on
//! which state and arguments, and exactly how the state moves.

use vstd::prelude::*;

use crate::model::{
    inv, push_capped, spec_create, spec_set_active, spec_trade, spec_update_min_buy_amount,
    spec_update_price, spec_withdraw, Model,
};
use crate::types::{Error, Offer, Payment, TradeRecord, HISTORY_CAP};

verus! {

/// The offer engine: one standing offer, its bounded trade history, and the
/// amounts of the most recent fill.
pub struct SingleOfferWork {
    offer: Option<Offer>,
    history: Vec<TradeRecord>,
    last_price: (i128, i128),
}

impl View for SingleOfferWork {
    type V = Model;

    closed spec fn view(&self) -> Model {
        Model { offer: self.offer, history: self.history@, last_price: self.last_price }
    }
}

impl SingleOfferWork {
    /// Well-formedness: the state satisfies the model invariant. Established
    /// by the constructors and preserved by every method.
    pub open spec fn wf(self) -> bool {
        inv(self@)
    }

    /// A fresh engine: no offer yet, empty history, last price `(0, 0)`.
    pub fn new() -> (engine: SingleOfferWork)
        ensures
            engine.wf(),
            engine@ == (Model {
                offer: None,
                history: Seq::<TradeRecord>::empty(),
                last_price: (0i128, 0i128),
            }),
    {
        SingleOfferWork { offer: None, history: Vec::new(), last_price: (0, 0) }
    }

    /// Rebuilds an engine from persisted state, for a host that stores the
    /// three slots between invocations. Returns the engine exactly when the
    /// parts satisfy the model invariant; corrupted parts give `None`.
    pub fn from_parts(
        offer: Option<Offer>,
        history: Vec<TradeRecord>,
        last_price: (i128, i128),
    ) -> (r: Option<SingleOfferWork>)
        ensures
            r is Some <==> inv(Model { offer, history: history@, last_price }),
            r matches Some(engine) ==> engine@ == (Model {
                offer,
                history: history@,
                last_price,
            }) && engine.wf(),
    {
        let offer_ok = match &offer {
            Some(o) => o.sell_price > 0 && o.buy_price > 0 && o.min_buy_amount > 0
                && o.total_bought >= 0 && o.total_sold >= 0,
            None => history.len() == 0 && last_price.0 == 0 && last_price.1 == 0,
        };
        if !offer_ok || history.len() > HISTORY_CAP {
            return None;
        }
        let mut i: usize = 0;
        while i < history.len()
            invariant
                i <= history.len(),
                forall|j: int|
                    0 <= j < i ==> (#[trigger] history@[j]).buy_amount > 0
                        && history@[j].sell_amount >= 0,
            decreases history.len() - i,
        {
            if !(history[i].buy_amount > 0 && history[i].sell_amount >= 0) {
                return None;
            }
            i += 1;
        }
        Some(SingleOfferWork { offer, history, last_price })
    }

    /// Creates the one standing offer. `auth` is the identity the host's
    /// authorization collaborator confirmed for this call; it must be the
    /// seller. The only operation that may run before an offer exists.
    pub fn create(
        &mut self,
        auth: u64,
        seller: u64,
        sell_token: u64,
        buy_token: u64,
        sell_price: u32,
        buy_price: u32,
        min_buy_amount: i128,
    ) -> (r: Result<(), Error>)
        requires
            old(self).wf(),
        ensures
            final(self).wf(),
            (match spec_create(
                old(self)@,
                auth,
                seller,
                sell_token,
                buy_token,
                sell_price,
                buy_price,
                min_buy_amount,
            ) {
                Ok(m) => r == Ok::<(), Error>(()) && final(self)@ == m,
                Err(e) => r == Err::<(), Error>(e) && final(self)@ == old(self)@,
            }),
    {
        if self.offer.is_some() {
            return Err(Error::AlreadyExists);
        }
        if buy_price == 0 || sell_price == 0 {
            return Err(Error::InvalidPrice);
        }
        if min_buy_amount <= 0 {
            return Err(Error::InvalidAmount);
        }
        if auth != seller {
            return Err(Error::Unauthorized);
        }
        self.offer = Some(
            Offer {
                seller,
                sell_token,
                buy_token,
                sell_price,
                buy_price,
                min_buy_amount,
                total_bought: 0,
                total_sold: 0,
                is_active: true,
            },
        );
        Ok(())
    }

    /// Fills the offer once. `auth` must be the buyer; the host supplies the
    /// engine's live custodied balance of the sell asset and the ledger
    /// timestamp. On success the returned amount of sell asset is owed to
    /// the buyer out of custody, and the buy amount moves from the buyer to
    /// the seller; the host performs those transfers and commits them with
    /// the state as one atomic unit.
    pub fn trade(
        &mut self,
        auth: u64,
        buyer: u64,
        buy_token_amount: i128,
        min_sell_token_amount: i128,
        contract_sell_balance: i128,
        timestamp: u64,
    ) -> (r: Result<i128, Error>)
        requires
            old(self).wf(),
        ensures
            final(self).wf(),
            (match spec_trade(
                old(self)@,
                auth,
                buyer,
                buy_token_amount,
                min_sell_token_amount,
                contract_sell_balance,
                timestamp,
            ) {
                Ok((m, sell)) => r == Ok::<i128, Error>(sell) && final(self)@ == m,
                Err(e) => r == Err::<i128, Error>(e) && final(self)@ == old(self)@,
            }),
    {
        if auth != buyer {
            return Err(Error::Unauthorized);
        }
        let o = match self.offer {
            Some(o) => o,
            None => {
                return Err(Error::NotFound);
            },
        };
        if !o.is_active {
            return Err(Error::OfferInactive);
        }
        if buy_token_amount < o.min_buy_amount {
            return Err(Error::BelowFloor);
        }
        proof {
            vstd::arithmetic::mul::lemma_mul_strictly_positive(
                buy_token_amount as int,
                o.sell_price as int,
            );
        }
        let product = match buy_token_amount.checked_mul(o.sell_price as i128) {
            Some(p) => p,
            None => {
                return Err(Error::ArithmeticOverflow);
            },
        };
        let sell_token_amount = product / (o.buy_price as i128);
        proof {
            vstd::arithmetic::div_mod::lemma_div_pos_is_pos(product as int, o.buy_price as int);
        }
        if sell_token_amount < min_sell_token_amount {
            return Err(Error::SlippageExceeded);
        }
        if contract_sell_balance < sell_token_amount {
            return Err(Error::InsufficientLiquidity);
        }
        let total_bought = match o.total_bought.checked_add(buy_token_amount) {
            Some(t) => t,
            None => {
                return Err(Error::ArithmeticOverflow);
            },
        };
        let total_sold = match o.total_sold.checked_add(sell_token_amount) {
            Some(t) => t,
            None => {
                return Err(Error::ArithmeticOverflow);
            },
        };
        let rec = TradeRecord {
            buyer,
            buy_amount: buy_token_amount,
            sell_amount: sell_token_amount,
            timestamp,
        };
        let ghost old_history = self.history@;
        if self.history.len() == HISTORY_CAP {
            self.history.remove(0);
            proof {
                assert(self.history@ =~= old_history.drop_first());
            }
        }
        self.history.push(rec);
        proof {
            assert(self.history@ =~= push_capped(old_history, rec));
        }
        self.offer = Some(
            Offer {
                seller: o.seller,
                sell_token: o.sell_token,
                buy_token: o.buy_token,
                sell_price: o.sell_price,
                buy_price: o.buy_price,
                min_buy_amount: o.min_buy_amount,
                total_bought,
                total_sold,
                is_active: o.is_active,
            },
        );
        self.last_price = (buy_token_amount, sell_token_amount);
        Ok(sell_token_amount)
    }

    /// Tells the host to move `amount` of `token` out of the engine's
    /// custody to the seller. `auth` must be the seller. By design no bound
    /// beyond the host transfer mechanism's own is enforced: the seller may
    /// reclaim any asset accumulated in custody. The state never changes.
    pub fn withdraw(&self, auth: u64, token: u64, amount: i128) -> (r: Result<Payment, Error>)
        ensures
            r == spec_withdraw(self@, auth, token, amount),
    {
        let o = match self.offer {
            Some(o) => o,
            None => {
                return Err(Error::NotFound);
            },
        };
        if auth != o.seller {
            return Err(Error::Unauthorized);
        }
        Ok(Payment { token, to: o.seller, amount })
    }

    /// Re-quotes the offer. `auth` must be the seller; zero prices are
    /// rejected as at creation.
    pub fn update_price(&mut self, auth: u64, sell_price: u32, buy_price: u32) -> (r: Result<
        (),
        Error,
    >)
        requires
            old(self).wf(),
        ensures
            final(self).wf(),
            (match spec_update_price(old(self)@, auth, sell_price, buy_price) {
                Ok(m) => r == Ok::<(), Error>(()) && final(self)@ == m,
                Err(e) => r == Err::<(), Error>(e) && final(self)@ == old(self)@,
            }),
    {
        if buy_price == 0 || sell_price == 0 {
            return Err(Error::InvalidPrice);
        }
        let o = match self.offer {
            Some(o) => o,
            None => {
                return Err(Error::NotFound);
            },
        };
        if auth != o.seller {
            return Err(Error::Unauthorized);
        }
        self.offer = Some(
            Offer {
                seller: o.seller,
                sell_token: o.sell_token,
                buy_token: o.buy_token,
                sell_price,
                buy_price,
                min_buy_amount: o.min_buy_amount,
                total_bought: o.total_bought,
                total_sold: o.total_sold,
                is_active: o.is_active,
            },
        );
        Ok(())
    }

    /// Moves the per-trade buy floor. `auth` must be the seller; the floor
    /// must stay positive.
    pub fn update_min_buy_amount(&mut self, auth: u64, min_buy_amount: i128) -> (r: Result<
        (),
        Error,
    >)
        requires
            old(self).wf(),
        ensures
            final(self).wf(),
            (match spec_update_min_buy_amount(old(self)@, auth, min_buy_amount) {
                Ok(m) => r == Ok::<(), Error>(()) && final(self)@ == m,
                Err(e) => r == Err::<(), Error>(e) && final(self)@ == old(self)@,
            }),
    {
        if min_buy_amount <= 0 {
            return Err(Error::InvalidAmount);
        }
        let o = match self.offer {
            Some(o) => o,
            None => {
                return Err(Error::NotFound);
            },
        };
        if auth != o.seller {
            return Err(Error::Unauthorized);
        }
        self.offer = Some(
            Offer {
                seller: o.seller,
                sell_token: o.sell_token,
                buy_token: o.buy_token,
                sell_price: o.sell_price,
                buy_price: o.buy_price,
                min_buy_amount,
                total_bought: o.total_bought,
                total_sold: o.total_sold,
                is_active: o.is_active,
            },
        );
        Ok(())
    }

    /// Opens or closes the trading gate. `auth` must be the seller.
    pub fn set_active(&mut self, auth: u64, active: bool) -> (r: Result<(), Error>)
        requires
            old(self).wf(),
        ensures
            final(self).wf(),
            (match spec_set_active(old(self)@, auth, active) {
                Ok(m) => r == Ok::<(), Error>(()) && final(self)@ == m,
                Err(e) => r == Err::<(), Error>(e) && final(self)@ == old(self)@,
            }),
    {
        let o = match self.offer {
            Some(o) => o,
            None => {
                return Err(Error::NotFound);
            },
        };
        if auth != o.seller {
            return Err(Error::Unauthorized);
        }
        self.offer = Some(
            Offer {
                seller: o.seller,
                sell_token: o.sell_token,
                buy_token: o.buy_token,
                sell_price: o.sell_price,
                buy_price: o.buy_price,
                min_buy_amount: o.min_buy_amount,
                total_bought: o.total_bought,
                total_sold: o.total_sold,
                is_active: active,
            },
        );
        Ok(())
    }

    /// The current offer record, or `NotFound` before creation. A pure read:
    /// the state never changes, and the result is a function of it alone.
    pub fn get_offer(&self) -> (r: Result<Offer, Error>)
        ensures
            r == (match self@.offer {
                Some(o) => Ok::<Offer, Error>(o),
                None => Err::<Offer, Error>(Error::NotFound),
            }),
    {
        match self.offer {
            Some(o) => Ok(o),
            None => Err(Error::NotFound),
        }
    }

    /// The full history ring, oldest first, at most [`HISTORY_CAP`] records.
    /// A pure read.
    pub fn get_trade_history(&self) -> (r: Vec<TradeRecord>)
        ensures
            r@ == self@.history,
    {
        let mut out: Vec<TradeRecord> = Vec::new();
        let mut i: usize = 0;
        while i < self.history.len()
            invariant
                i <= self.history.len(),
                out@ == self.history@.take(i as int),
            decreases self.history.len() - i,
        {
            let rec = self.history[i];
            out.push(rec);
            proof {
                assert(self.history@.take(i as int + 1) =~= self.history@.take(i as int).push(
                    self.history@[i as int],
                ));
            }
            i += 1;
        }
        proof {
            assert(self.history@.take(self.history@.len() as int) =~= self.history@);
        }
        out
    }

    /// The `(buy amount, sell amount)` pair of the most recent trade, or
    /// `(0, 0)` before the first one. A pure read.
    pub fn get_last_price(&self) -> (r: (i128, i128))
        ensures
            r == self@.last_price,
    {
        self.last_price
    }
}

} // verus!

//! Laws of the engine, proved once and for all over the model.
//!
//! Each public proof function here states one property of the transition
//! functions of [`crate::model`]. Because every executable method's contract
//! equates the call with its transition, these laws carry over to any run of
//! the executable engine.

use vstd::prelude::*;

use crate::model::{
    inv, push_capped, spec_create, spec_sell_amount, spec_trade, Model,
};
use crate::types::{Error, TradeRecord, HISTORY_CAP};

verus! {

/// The sum of the buy-side amounts of a run of trade records.
pub open spec fn sum_buy(records: Seq<TradeRecord>) -> int
    decreases records.len(),
{
    if records.len() == 0 {
        0
    } else {
        sum_buy(records.drop_last()) + records.last().buy_amount
    }
}

/// The sum of the sell-side amounts of a run of trade records.
pub open spec fn sum_sell(records: Seq<TradeRecord>) -> int
    decreases records.len(),
{
    if records.len() == 0 {
        0
    } else {
        sum_sell(records.drop_last()) + records.last().sell_amount
    }
}

/// The arguments of one `trade` call, as one value, so that runs of calls
/// can be spoken of.
pub struct TradeCall {
    pub auth: u64,
    pub buyer: u64,
    pub buy_token_amount: i128,
    pub min_sell_token_amount: i128,
    pub contract_sell_balance: i128,
    pub timestamp: u64,
}

/// The trade transition, over a bundled call.
pub open spec fn spec_trade_call(m: Model, c: TradeCall) -> Result<(Model, i128), Error> {
    spec_trade(
        m,
        c.auth,
        c.buyer,
        c.buy_token_amount,
        c.min_sell_token_amount,
        c.contract_sell_balance,
        c.timestamp,
    )
}

/// The record a successful call leaves in the history, given the sell amount
/// it paid out.
pub open spec fn fill_record(c: TradeCall, sell_token_amount: i128) -> TradeRecord {
    TradeRecord {
        buyer: c.buyer,
        buy_amount: c.buy_token_amount,
        sell_amount: sell_token_amount,
        timestamp: c.timestamp,
    }
}

/// The state after one trade call: moved by a successful call, untouched by
/// a failed one.
pub open spec fn step_trade(m: Model, c: TradeCall) -> Model {
    match spec_trade_call(m, c) {
        Ok((m2, _)) => m2,
        Err(_) => m,
    }
}

/// The state after a run of trade calls, applied oldest first.
pub open spec fn apply_trades(m: Model, calls: Seq<TradeCall>) -> Model
    decreases calls.len(),
{
    if calls.len() == 0 {
        m
    } else {
        step_trade(apply_trades(m, calls.drop_last()), calls.last())
    }
}

/// The records of exactly the successful calls of a run, oldest first —
/// every record ever appended to the history, before any eviction.
pub open spec fn records_of(m: Model, calls: Seq<TradeCall>) -> Seq<TradeRecord>
    decreases calls.len(),
{
    if calls.len() == 0 {
        Seq::empty()
    } else {
        let prev = apply_trades(m, calls.drop_last());
        let recs = records_of(m, calls.drop_last());
        match spec_trade_call(prev, calls.last()) {
            Ok((_, sell)) => recs.push(fill_record(calls.last(), sell)),
            Err(_) => recs,
        }
    }
}

proof fn lemma_sum_push(records: Seq<TradeRecord>, rec: TradeRecord)
    ensures
        sum_buy(records.push(rec)) == sum_buy(records) + rec.buy_amount,
        sum_sell(records.push(rec)) == sum_sell(records) + rec.sell_amount,
{
    assert(records.push(rec).drop_last() =~= records);
    assert(records.push(rec).last() == rec);
}

/// Law: once an offer exists, `create` fails with `AlreadyExists`, whatever
/// the arguments. Together with `create`'s own contract — a successful
/// creation leaves the offer in place, and no transition ever removes it —
/// creation is a one-time operation.
pub proof fn lemma_second_create_fails(
    m: Model,
    auth: u64,
    seller: u64,
    sell_token: u64,
    buy_token: u64,
    sell_price: u32,
    buy_price: u32,
    min_buy_amount: i128,
)
    requires
        m.offer is Some,
    ensures
        spec_create(m, auth, seller, sell_token, buy_token, sell_price, buy_price, min_buy_amount)
            == Err::<Model, Error>(Error::AlreadyExists),
{
}

/// Workhorse: everything a successful trade did. The payout is exactly the
/// floored price product; both floors were respected; the payout fit the
/// custodied balance; the totals grew by the traded amounts; the fill was
/// recorded with FIFO eviction and became the last price; well-formedness
/// is preserved.
pub proof fn lemma_trade_success_effects(m: Model, c: TradeCall)
    requires
        inv(m),
        spec_trade_call(m, c) is Ok,
    ensures
        m.offer is Some,
        spec_trade_call(m, c) matches Ok((m2, sell)) ==> (m.offer matches Some(o) && ({
            &&& sell as int == spec_sell_amount(
                c.buy_token_amount as int,
                o.sell_price as int,
                o.buy_price as int,
            )
            &&& 0 <= sell
            &&& c.buy_token_amount >= o.min_buy_amount
            &&& o.is_active
            &&& c.auth == c.buyer
            &&& sell >= c.min_sell_token_amount
            &&& sell <= c.contract_sell_balance
            &&& m2.offer matches Some(o2) && o2.seller == o.seller && o2.sell_token
                == o.sell_token && o2.buy_token == o.buy_token && o2.sell_price == o.sell_price
                && o2.buy_price == o.buy_price && o2.min_buy_amount == o.min_buy_amount
                && o2.is_active == o.is_active && o2.total_bought == o.total_bought
                + c.buy_token_amount && o2.total_sold == o.total_sold + sell
            &&& m2.history == push_capped(m.history, fill_record(c, sell))
            &&& m2.last_price == (c.buy_token_amount, sell)
            &&& inv(m2)
        })),
{
    match (spec_trade_call(m, c), m.offer) {
        (Ok((m2, sell)), Some(o)) => {
            vstd::arithmetic::mul::lemma_mul_strictly_positive(
                c.buy_token_amount as int,
                o.sell_price as int,
            );
            vstd::arithmetic::div_mod::lemma_div_pos_is_pos(
                c.buy_token_amount as int * o.sell_price as int,
                o.buy_price as int,
            );
            let rec = fill_record(c, sell);
            let h2 = push_capped(m.history, rec);
            assert forall|i: int|
                0 <= i < h2.len() implies (#[trigger] h2[i]).buy_amount > 0 && h2[i].sell_amount
                >= 0 by {
                if m.history.len() < HISTORY_CAP as int {
                    if i < m.history.len() {
                        assert(h2[i] == m.history[i]);
                    } else {
                        assert(h2[i] == rec);
                    }
                } else {
                    if i < h2.len() - 1 {
                        assert(h2[i] == m.history[i + 1]);
                    } else {
                        assert(h2[i] == rec);
                    }
                }
            }
        },
        _ => {},
    }
}

/// Law: a trade's payout is exactly `floor(buy_token_amount * sell_price /
/// buy_price)`, and a trade whose price product would exceed the amount
/// range fails with `ArithmeticOverflow`.
pub proof fn lemma_trade_price_exact(m: Model, c: TradeCall)
    requires
        inv(m),
    ensures
        spec_trade_call(m, c) matches Ok((m2, sell)) ==> (m.offer matches Some(o) && sell as int
            == spec_sell_amount(
            c.buy_token_amount as int,
            o.sell_price as int,
            o.buy_price as int,
        )),
        (m.offer matches Some(o) && c.auth == c.buyer && o.is_active && c.buy_token_amount
            >= o.min_buy_amount && c.buy_token_amount * o.sell_price > i128::MAX) ==> spec_trade_call(
            m,
            c,
        ) == Err::<(Model, i128), Error>(Error::ArithmeticOverflow),
{
    if spec_trade_call(m, c) is Ok {
        lemma_trade_success_effects(m, c);
    }
}

/// Law: a successful trade respects both floors — the buy amount reached the
/// seller's floor and the payout reached the buyer's slippage floor. A call
/// that misses either fails (`BelowFloor`, `SlippageExceeded`) and, by the
/// trade contract, a failed call changes no state.
pub proof fn lemma_trade_floors(m: Model, c: TradeCall)
    requires
        inv(m),
    ensures
        spec_trade_call(m, c) matches Ok((m2, sell)) ==> (m.offer matches Some(o)
            && c.buy_token_amount >= o.min_buy_amount && sell >= c.min_sell_token_amount),
{
    if spec_trade_call(m, c) is Ok {
        lemma_trade_success_effects(m, c);
    }
}

/// Law: a trade call preserves well-formedness, succeed or fail.
pub proof fn lemma_trade_preserves_inv(m: Model, c: TradeCall)
    requires
        inv(m),
    ensures
        inv(step_trade(m, c)),
{
    if spec_trade_call(m, c) is Ok {
        lemma_trade_success_effects(m, c);
    }
}

/// Law: the history never holds more than [`HISTORY_CAP`] records, and a
/// fill under the cap appends while a fill at the cap drops exactly the
/// oldest record before appending — a strict FIFO bound.
pub proof fn lemma_history_fifo(m: Model, c: TradeCall)
    requires
        inv(m),
    ensures
        step_trade(m, c).history.len() <= HISTORY_CAP as int,
        spec_trade_call(m, c) matches Ok((m2, sell)) ==> m2.history == (if m.history.len()
            < HISTORY_CAP as int {
            m.history.push(fill_record(c, sell))
        } else {
            m.history.drop_first().push(fill_record(c, sell))
        }),
{
    if spec_trade_call(m, c) is Ok {
        lemma_trade_success_effects(m, c);
    }
}

/// The suffix of the most recent records a ledger capped at
/// [`HISTORY_CAP`] retains.
pub open spec fn recent(records: Seq<TradeRecord>) -> Seq<TradeRecord> {
    if records.len() <= HISTORY_CAP as int {
        records
    } else {
        records.skip(records.len() - HISTORY_CAP as int)
    }
}

/// Law: starting from an empty ledger, after any run of trade calls the
/// history holds exactly the most recent of the records the successful
/// fills produced — the ring is a strict FIFO window over the fills.
pub proof fn lemma_history_is_recent_fills(m: Model, calls: Seq<TradeCall>)
    requires
        inv(m),
        m.history == Seq::<TradeRecord>::empty(),
    ensures
        apply_trades(m, calls).history =~= recent(records_of(m, calls)),
    decreases calls.len(),
{
    if calls.len() == 0 {
    } else {
        lemma_history_is_recent_fills(m, calls.drop_last());
        lemma_inv_after_trades(m, calls.drop_last());
        let prev = apply_trades(m, calls.drop_last());
        let recs = records_of(m, calls.drop_last());
        let c = calls.last();
        match spec_trade_call(prev, c) {
            Ok((m2, sell)) => {
                lemma_trade_success_effects(prev, c);
                let rec = fill_record(c, sell);
                assert(push_capped(recent(recs), rec) =~= recent(recs.push(rec)));
            },
            Err(_) => {},
        }
    }
}

/// Law: a run of trade calls preserves well-formedness.
pub proof fn lemma_inv_after_trades(m: Model, calls: Seq<TradeCall>)
    requires
        inv(m),
    ensures
        inv(apply_trades(m, calls)),
    decreases calls.len(),
{
    if calls.len() == 0 {
    } else {
        lemma_inv_after_trades(m, calls.drop_last());
        lemma_trade_preserves_inv(apply_trades(m, calls.drop_last()), calls.last());
    }
}

/// Law: starting from a freshly created offer (zero totals), after any run
/// of trade calls — failures included, which change nothing — the cumulative
/// totals equal the sums of the amounts of exactly the records the
/// successful fills produced, evicted or not.
pub proof fn lemma_totals_are_recorded_sums(m: Model, calls: Seq<TradeCall>)
    requires
        inv(m),
        m.offer matches Some(o) && o.total_bought == 0 && o.total_sold == 0,
    ensures
        inv(apply_trades(m, calls)),
        apply_trades(m, calls).offer matches Some(o2) && o2.total_bought == sum_buy(
            records_of(m, calls),
        ) && o2.total_sold == sum_sell(records_of(m, calls)),
    decreases calls.len(),
{
    if calls.len() == 0 {
    } else {
        lemma_totals_are_recorded_sums(m, calls.drop_last());
        let prev = apply_trades(m, calls.drop_last());
        let c = calls.last();
        lemma_trade_preserves_inv(prev, c);
        match spec_trade_call(prev, c) {
            Ok((m2, sell)) => {
                lemma_trade_success_effects(prev, c);
                lemma_sum_push(records_of(m, calls.drop_last()), fill_record(c, sell));
            },
            Err(_) => {},
        }
    }
}

} // verus!

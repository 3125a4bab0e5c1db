//! Laws that hold across whole sequences of market operations.
//!
//! The per-operation contracts pin each transition down exactly; the proof
//! functions here lift them to arbitrary call sequences: settlement is
//! permanent, a settled market rejects every mutation, and a run of swaps
//! on a constant-product market never decreases the traded reserve product.

use vstd::prelude::*;

use crate::cpmm::{cp_out_spec, effective_in_spec, lemma_swap_preserves_product};
use crate::liquidity::{spec_add_liquidity, spec_remove_liquidity};
use crate::market::{Market, Side};
use crate::swap::{spec_swap, TradeDirection};

verus! {

/// One observable transition of a market: a successful `add_liquidity`,
/// `remove_liquidity`, `swap`, `settle`, `lock` or `unlock` call with some
/// arguments, or no change at all — which covers every failed call and
/// every read-only operation such as `claim`.
pub open spec fn market_step(pre: Market, post: Market) -> bool {
    ||| post == pre
    ||| exists|stable_in: u64, max_yes: u64, max_no: u64, now: i64, expiration: i64|
        {
            let r = #[trigger] spec_add_liquidity(pre, stable_in, max_yes, max_no, now, expiration);
            r matches Ok(p) && p.0 == post
        }
    ||| exists|lp_amount: u64, min_yes: u64, min_no: u64, now: i64, expiration: i64|
        {
            let r = #[trigger] spec_remove_liquidity(pre, lp_amount, min_yes, min_no, now, expiration);
            r matches Ok(p) && p.0 == post
        }
    ||| exists|side: Side, direction: TradeDirection, amount_in: u64, min_out: u64, now: i64, expiration: i64|
        {
            let r = #[trigger] spec_swap(pre, side, direction, amount_in, min_out, now, expiration);
            r matches Ok(p) && p.0 == post
        }
    ||| exists|outcome: Side, now: i64|
        {
            let r = #[trigger] pre.spec_settle(outcome, now);
            r matches Ok(m2) && m2 == post
        }
    ||| exists|caller: u64|
        {
            let r = #[trigger] pre.spec_lock(caller);
            r matches Ok(m2) && m2 == post
        }
    ||| exists|caller: u64|
        {
            let r = #[trigger] pre.spec_unlock(caller);
            r matches Ok(m2) && m2 == post
        }
}

/// A settled market rejects every mutation: whatever the arguments,
/// `add_liquidity`, `remove_liquidity` and `swap` fail, and so does a
/// second `settle`.
pub proof fn lemma_settled_rejects_mutations(m: Market)
    requires
        m.settled,
    ensures
        forall|stable_in: u64, max_yes: u64, max_no: u64, now: i64, expiration: i64|
            (#[trigger] spec_add_liquidity(m, stable_in, max_yes, max_no, now, expiration))
                is Err,
        forall|lp_amount: u64, min_yes: u64, min_no: u64, now: i64, expiration: i64|
            (#[trigger] spec_remove_liquidity(m, lp_amount, min_yes, min_no, now, expiration))
                is Err,
        forall|side: Side, direction: TradeDirection, amount_in: u64, min_out: u64, now: i64, expiration: i64|
            (#[trigger] spec_swap(m, side, direction, amount_in, min_out, now, expiration))
                is Err,
        forall|outcome: Side, now: i64| (#[trigger] m.spec_settle(outcome, now)) is Err,
{
}

/// No single operation un-settles a settled market.
pub proof fn lemma_step_preserves_settled(pre: Market, post: Market)
    requires
        market_step(pre, post),
        pre.settled,
    ensures
        post.settled,
{
    lemma_settled_rejects_mutations(pre);
}

/// Settlement is permanent: along any sequence of operations starting from
/// a settled market, every later state is still settled — no sequence of
/// calls can revert it.
pub proof fn lemma_settled_is_permanent(trace: Seq<Market>)
    requires
        trace.len() >= 1,
        forall|i: int| 0 <= i < trace.len() - 1 ==> #[trigger] market_step(trace[i], trace[i + 1]),
        trace[0].settled,
    ensures
        forall|i: int| 0 <= i < trace.len() ==> trace[i].settled,
{
    assert forall|i: int| 0 <= i < trace.len() implies trace[i].settled by {
        lemma_settled_prefix(trace, i);
    }
}

/// Settlement reaches index `i` of a step sequence.
proof fn lemma_settled_prefix(trace: Seq<Market>, i: int)
    requires
        forall|j: int| 0 <= j < trace.len() - 1 ==> #[trigger] market_step(trace[j], trace[j + 1]),
        0 <= i < trace.len(),
        trace[0].settled,
    ensures
        trace[i].settled,
    decreases i,
{
    if i > 0 {
        lemma_settled_prefix(trace, i - 1);
        assert(market_step(trace[i - 1], trace[(i - 1) + 1]));
        lemma_step_preserves_settled(trace[i - 1], trace[i]);
    }
}

/// One successful swap on `side` turned `pre` into `post`, with whatever
/// direction, amount, bound and deadline.
pub open spec fn swap_step_on(side: Side, pre: Market, post: Market) -> bool {
    exists|direction: TradeDirection, amount_in: u64, min_out: u64, now: i64, expiration: i64|
        {
            let r = #[trigger] spec_swap(pre, side, direction, amount_in, min_out, now, expiration);
            r matches Ok(p) && p.0 == post
        }
}

/// One swap on a constant-product market never decreases the traded
/// reserve product, keeps the market well formed, and leaves the curve,
/// fee and the other side's reserve unchanged.
pub proof fn lemma_swap_step_product(side: Side, pre: Market, post: Market)
    requires
        pre.well_formed(),
        pre.curve == crate::market::CurveKind::ConstantProduct,
        swap_step_on(side, pre, post),
    ensures
        post.well_formed(),
        post.curve == pre.curve,
        post.fee == pre.fee,
        post.reserve_stable * post.spec_reserve_of(side)
            >= pre.reserve_stable * pre.spec_reserve_of(side),
{
    let (direction, amount_in, min_out, now, expiration) = choose|
        direction: TradeDirection,
        amount_in: u64,
        min_out: u64,
        now: i64,
        expiration: i64,
    |
        {
            let r = #[trigger] spec_swap(pre, side, direction, amount_in, min_out, now, expiration);
            r matches Ok(p) && p.0 == post
        };
    let eff = effective_in_spec(amount_in, pre.fee);
    if direction is Buy {
        let reserve_in = pre.reserve_stable;
        let reserve_out = pre.spec_reserve_of(side);
        lemma_swap_preserves_product(reserve_in, reserve_out, amount_in, pre.fee);
        let out = cp_out_spec(reserve_in, reserve_out, eff);
        assert(post.reserve_stable == reserve_in + amount_in
            && post.spec_reserve_of(side) == reserve_out - out);
    } else {
        let reserve_in = pre.spec_reserve_of(side);
        let reserve_out = pre.reserve_stable;
        lemma_swap_preserves_product(reserve_in, reserve_out, amount_in, pre.fee);
        let out = cp_out_spec(reserve_in, reserve_out, eff);
        assert(post.spec_reserve_of(side) == reserve_in + amount_in
            && post.reserve_stable == reserve_out - out);
        assert((reserve_in + amount_in) * (reserve_out - out)
            == (reserve_out - out) * (reserve_in + amount_in)) by (nonlinear_arith);
    }
}

/// The product up to index `i` of a swap sequence never falls below the
/// starting product.
proof fn lemma_product_prefix(side: Side, trace: Seq<Market>, i: int)
    requires
        forall|j: int| 0 <= j < trace.len() - 1 ==> #[trigger] swap_step_on(side, trace[j], trace[j + 1]),
        0 <= i < trace.len(),
        trace[0].well_formed(),
        trace[0].curve == crate::market::CurveKind::ConstantProduct,
    ensures
        trace[i].well_formed(),
        trace[i].curve == trace[0].curve,
        trace[i].reserve_stable * trace[i].spec_reserve_of(side)
            >= trace[0].reserve_stable * trace[0].spec_reserve_of(side),
    decreases i,
{
    if i > 0 {
        lemma_product_prefix(side, trace, i - 1);
        assert(swap_step_on(side, trace[i - 1], trace[(i - 1) + 1]));
        lemma_swap_step_product(side, trace[i - 1], trace[i]);
    }
}

/// Fee capture over any sequence of swaps: on a constant-product market,
/// however many swaps of either direction are executed against one outcome
/// side, the product of the stable reserve and that side's reserve never
/// decreases.
pub proof fn lemma_swap_sequence_preserves_product(side: Side, trace: Seq<Market>)
    requires
        trace.len() >= 1,
        forall|j: int| 0 <= j < trace.len() - 1 ==> #[trigger] swap_step_on(side, trace[j], trace[j + 1]),
        trace[0].well_formed(),
        trace[0].curve == crate::market::CurveKind::ConstantProduct,
    ensures
        trace.last().reserve_stable * trace.last().spec_reserve_of(side)
            >= trace[0].reserve_stable * trace[0].spec_reserve_of(side),
{
    lemma_product_prefix(side, trace, trace.len() - 1);
}

} // verus!

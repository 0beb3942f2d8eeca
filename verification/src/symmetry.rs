//! Selling and buying back: why a round trip never gains.
use vstd::prelude::*;
use crate::ladder::{prices_non_decreasing, prices_non_increasing, PriceLevel};
use crate::laws::lemma_net_of_fee_bounds;
use crate::metadata::MarketMetadata;
use crate::quote::{
    affordable_lots,
    ask_lots_filled,
    buy_gross,
    level_cost,
    min_int,
    net_of_fee,
    quote_atoms_for,
    quote_result,
    sell_gross,
    spend,
};

verus! {

/// The cost of `level` is a whole number of quote lots: nothing of it is lost
/// when it is rounded down.
pub open spec fn cost_is_whole(m: MarketMetadata, level: PriceLevel) -> bool {
    (level.price_in_ticks * level.size_in_base_lots
        * m.tick_size_in_quote_lots_per_base_unit_per_tick) % (m.base_lots_per_base_unit as int)
        == 0
}

/// The cost of every level of `asks` is a whole number of quote lots.
pub open spec fn costs_are_whole(m: MarketMetadata, asks: Seq<PriceLevel>) -> bool {
    forall|j: int| 0 <= j < asks.len() ==> cost_is_whole(m, #[trigger] asks[j])
}

/// The tick size is a whole number of quote lots per base lot, as the venue
/// demands of every market it creates.
pub open spec fn whole_ticks_per_lot(m: MarketMetadata) -> bool {
    m.tick_size_in_quote_lots_per_base_unit_per_tick as int % m.base_lots_per_base_unit as int == 0
}

/// On a market with whole ticks per lot the cost of every level is whole.
pub proof fn lemma_whole_ticks_make_costs_whole(m: MarketMetadata, asks: Seq<PriceLevel>)
    requires
        m.wf(),
        whole_ticks_per_lot(m),
    ensures
        costs_are_whole(m, asks),
{
    let t = m.tick_size_in_quote_lots_per_base_unit_per_tick as int;
    let u = m.base_lots_per_base_unit as int;
    let c = t / u;
    vstd::arithmetic::div_mod::lemma_fundamental_div_mod(t, u);
    assert forall|j: int| 0 <= j < asks.len() implies cost_is_whole(m, #[trigger] asks[j]) by {
        let lots = asks[j].price_in_ticks * asks[j].size_in_base_lots;
        assert(lots * t == u * (lots * c)) by (nonlinear_arith)
            requires
                t == u * c + 0,
        ;
        vstd::arithmetic::div_mod::lemma_mod_multiples_basic(lots * c, u);
        assert((u * (lots * c)) % u == 0) by {
            assert(u * (lots * c) == (lots * c) * u) by (nonlinear_arith);
        }
    }
}

/// A whole cost times the lots per unit is the level's price times its size
/// times the tick size.
proof fn lemma_whole_cost(m: MarketMetadata, level: PriceLevel)
    requires
        m.wf(),
        cost_is_whole(m, level),
    ensures
        level_cost(m, level) * m.base_lots_per_base_unit == level.price_in_ticks
            * level.size_in_base_lots * m.tick_size_in_quote_lots_per_base_unit_per_tick,
{
    let u = m.base_lots_per_base_unit as int;
    let value = level.price_in_ticks * level.size_in_base_lots
        * m.tick_size_in_quote_lots_per_base_unit_per_tick;
    vstd::arithmetic::div_mod::lemma_fundamental_div_mod(value, u);
    assert(level_cost(m, level) * u == value) by (nonlinear_arith)
        requires
            value == u * (value / u) + 0,
            level_cost(m, level) == value / u,
    ;
}

/// The proceeds of a fill, times the lots per unit, are at most the price
/// times the lots times the tick size times the quote lot size.
proof fn lemma_quote_atoms_bound(m: MarketMetadata, base_lots: int, price: int)
    requires
        m.wf(),
        base_lots >= 0,
        price >= 0,
    ensures
        quote_atoms_for(m, base_lots, price) * m.base_lots_per_base_unit <= price * base_lots
            * m.tick_size_in_quote_lots_per_base_unit_per_tick * m.quote_lot_size,
{
    let u = m.base_lots_per_base_unit as int;
    let value = price * base_lots * m.tick_size_in_quote_lots_per_base_unit_per_tick
        * m.quote_lot_size;
    vstd::arithmetic::div_mod::lemma_fundamental_div_mod(value, u);
    vstd::arithmetic::div_mod::lemma_mod_bound(value, u);
    assert(quote_atoms_for(m, base_lots, price) * u <= value) by (nonlinear_arith)
        requires
            value == u * (value / u) + value % u,
            0 <= value % u,
            quote_atoms_for(m, base_lots, price) == value / u,
    ;
}

/// What a buyer takes from a level at a positive price costs no more than the
/// budget.
proof fn lemma_filled_is_paid_for(m: MarketMetadata, level: PriceLevel, budget: int)
    requires
        m.wf(),
        budget >= 0,
        level.price_in_ticks > 0,
    ensures
        0 <= ask_lots_filled(m, level, budget) <= level.size_in_base_lots,
        m.tick_size_in_quote_lots_per_base_unit_per_tick * level.price_in_ticks * ask_lots_filled(
            m,
            level,
            budget,
        ) <= budget * m.base_lots_per_base_unit,
{
    crate::quote::lemma_ask_lots_filled_bounds(m, level, budget);
    let t = m.tick_size_in_quote_lots_per_base_unit_per_tick as int;
    let u = m.base_lots_per_base_unit as int;
    let p = level.price_in_ticks as int;
    let unit_price = t * p;
    let funds = budget * u;
    let affordable = funds / unit_price;
    assert(unit_price > 0) by (nonlinear_arith)
        requires
            unit_price == t * p,
            t > 0,
            p > 0,
    ;
    assert(affordable_lots(m, level, budget) == affordable);
    vstd::arithmetic::div_mod::lemma_fundamental_div_mod(funds, unit_price);
    vstd::arithmetic::div_mod::lemma_mod_bound(funds, unit_price);
    assert(unit_price * affordable <= funds);
    let filled = ask_lots_filled(m, level, budget);
    assert(t * p * filled <= funds) by (nonlinear_arith)
        requires
            unit_price * affordable <= funds,
            unit_price == t * p,
            unit_price > 0,
            0 <= filled <= affordable,
    ;
}

/// Selling into bids priced at most `cap` yields at most `cap` ticks per lot
/// sold.
proof fn lemma_sell_gross_bound(
    m: MarketMetadata,
    bids: Seq<PriceLevel>,
    from: int,
    budget: int,
    cap: int,
)
    requires
        m.wf(),
        0 <= from,
        0 <= budget,
        0 <= cap,
        forall|i: int| from <= i < bids.len() ==> (#[trigger] bids[i]).price_in_ticks <= cap,
    ensures
        sell_gross(m, bids, from, budget) * m.base_lots_per_base_unit <= cap * budget
            * m.tick_size_in_quote_lots_per_base_unit_per_tick * m.quote_lot_size,
    decreases bids.len() - from,
{
    let t = m.tick_size_in_quote_lots_per_base_unit_per_tick as int;
    let u = m.base_lots_per_base_unit as int;
    let q = m.quote_lot_size as int;
    if from >= bids.len() || budget <= 0 {
        assert(cap * budget * t * q >= 0) by (nonlinear_arith)
            requires
                cap >= 0,
                budget >= 0,
                t >= 0,
                q >= 0,
        ;
        assert(sell_gross(m, bids, from, budget) * u == 0);
    } else {
        let level = bids[from];
        let p = level.price_in_ticks as int;
        let s = level.size_in_base_lots as int;
        let f = min_int(s, budget);
        let rest = spend(budget, s);
        let here = quote_atoms_for(m, f, p);
        let later = sell_gross(m, bids, from + 1, rest);
        lemma_quote_atoms_bound(m, f, p);
        lemma_sell_gross_bound(m, bids, from + 1, rest, cap);
        assert(p <= cap);
        assert(f + rest == budget);
        assert((here + later) * u <= cap * budget * t * q) by (nonlinear_arith)
            requires
                here * u <= p * f * t * q,
                later * u <= cap * rest * t * q,
                0 <= p <= cap,
                f >= 0,
                rest >= 0,
                f + rest == budget,
                t >= 0,
                q >= 0,
        ;
    }
}

/// Buying from asks of whole cost priced at least `floor` costs at least
/// `floor` ticks per lot bought.
proof fn lemma_buy_gross_bound(
    m: MarketMetadata,
    asks: Seq<PriceLevel>,
    from: int,
    budget: int,
    floor: int,
)
    requires
        m.wf(),
        costs_are_whole(m, asks),
        0 <= from,
        0 <= budget,
        1 <= floor,
        forall|j: int| from <= j < asks.len() ==> (#[trigger] asks[j]).price_in_ticks >= floor,
    ensures
        m.tick_size_in_quote_lots_per_base_unit_per_tick * floor * buy_gross(m, asks, from, budget)
            <= m.base_lot_size * m.base_lots_per_base_unit * budget,
    decreases asks.len() - from,
{
    let t = m.tick_size_in_quote_lots_per_base_unit_per_tick as int;
    let u = m.base_lots_per_base_unit as int;
    let lot = m.base_lot_size as int;
    if from >= asks.len() || budget <= 0 {
        assert(t * floor * 0 == 0);
        assert(lot * u * budget >= 0) by (nonlinear_arith)
            requires
                lot >= 0,
                u >= 0,
                budget >= 0,
        ;
    } else {
        let level = asks[from];
        let p = level.price_in_ticks as int;
        let s = level.size_in_base_lots as int;
        let filled = ask_lots_filled(m, level, budget);
        let cost = level_cost(m, level);
        let rest = spend(budget, cost);
        let later = buy_gross(m, asks, from + 1, rest);
        assert(p >= floor);
        assert(cost_is_whole(m, level));
        lemma_filled_is_paid_for(m, level, budget);
        lemma_whole_cost(m, level);
        lemma_buy_gross_bound(m, asks, from + 1, rest, floor);
        assert(t * floor * filled + u * rest <= u * budget) by (nonlinear_arith)
            requires
                t * p * filled <= budget * u,
                cost * u == p * s * t,
                rest == if cost >= budget {
                    0
                } else {
                    budget - cost
                },
                0 <= filled <= s,
                1 <= floor <= p,
                t >= 1,
                u >= 1,
        ;
        assert(t * floor * (filled * lot + later) <= lot * u * budget) by (nonlinear_arith)
            requires
                t * floor * filled + u * rest <= u * budget,
                t * floor * later <= lot * u * rest,
                lot >= 0,
        ;
    }
}

/// Selling base and buying it back with all that the sale paid never ends
/// with more base than one began with: on a market of two different mints,
/// against a valid book whose best bid is not above its best ask and whose
/// asks each cost a whole number of quote lots, the quote for the way back is
/// at most the first input.
pub proof fn lemma_round_trip_never_gains(
    m: MarketMetadata,
    bids: Seq<PriceLevel>,
    asks: Seq<PriceLevel>,
    input_amount: u64,
)
    requires
        m.wf(),
        m.base_asset_id@ != m.quote_asset_id@,
        prices_non_increasing(bids),
        prices_non_decreasing(asks),
        bids.len() > 0 && asks.len() > 0 ==> bids[0].price_in_ticks <= asks[0].price_in_ticks,
        costs_are_whole(m, asks),
    ensures
        match quote_result(m, bids, asks, m.base_asset_id, m.quote_asset_id, input_amount) {
            Ok(received) => match quote_result(
                m,
                bids,
                asks,
                m.quote_asset_id,
                m.base_asset_id,
                received,
            ) {
                Ok(back) => back <= input_amount,
                Err(_) => false,
            },
            Err(_) => true,
        },
{
    let t = m.tick_size_in_quote_lots_per_base_unit_per_tick as int;
    let u = m.base_lots_per_base_unit as int;
    let lot = m.base_lot_size as int;
    let q = m.quote_lot_size as int;
    let fee = m.taker_fee_bps as int;
    let sold = input_amount as int / lot;
    let proceeds = sell_gross(m, bids, 0, sold);
    crate::quote::lemma_sell_gross_nonneg(m, bids, 0, sold);
    vstd::arithmetic::div_mod::lemma_div_pos_is_pos(input_amount as int, lot);
    vstd::arithmetic::div_mod::lemma_fundamental_div_mod(input_amount as int, lot);
    vstd::arithmetic::div_mod::lemma_mod_bound(input_amount as int, lot);
    assert(lot * sold <= input_amount);
    if proceeds <= u64::MAX {
        lemma_net_of_fee_bounds(proceeds, fee);
        let received = net_of_fee(proceeds, fee);
        let budget = received / q;
        vstd::arithmetic::div_mod::lemma_div_pos_is_pos(received, q);
        vstd::arithmetic::div_mod::lemma_fundamental_div_mod(received, q);
        vstd::arithmetic::div_mod::lemma_mod_bound(received, q);
        assert(q * budget <= received);
        let bought = buy_gross(m, asks, 0, budget);
        crate::quote::lemma_buy_gross_nonneg(m, asks, 0, budget);
        assert(bought <= lot * sold) by {
            if bids.len() == 0 || asks.len() == 0 {
                if bids.len() == 0 {
                    assert(proceeds == 0);
                    assert(budget == 0);
                }
                assert(bought == 0);
                assert(lot * sold >= 0) by (nonlinear_arith)
                    requires
                        lot >= 0,
                        sold >= 0,
                ;
            } else {
                let mid = bids[0].price_in_ticks as int;
                assert forall|i: int| 0 <= i < bids.len() implies (#[trigger] bids[i]).price_in_ticks
                    <= mid by {
                    assert(bids[0].price_in_ticks >= bids[i].price_in_ticks);
                }
                lemma_sell_gross_bound(m, bids, 0, sold, mid);
                if mid == 0 {
                    assert(mid * sold * t * q == 0) by (nonlinear_arith)
                        requires
                            mid == 0,
                    ;
                    assert(proceeds == 0) by (nonlinear_arith)
                        requires
                            proceeds * u <= 0,
                            proceeds >= 0,
                            u >= 1,
                    ;
                    assert(budget == 0);
                    assert(bought == 0);
                    assert(lot * sold >= 0) by (nonlinear_arith)
                        requires
                            lot >= 0,
                            sold >= 0,
                    ;
                } else {
                    assert forall|j: int| 0 <= j < asks.len() implies (
                    #[trigger] asks[j]).price_in_ticks >= mid by {
                        assert(asks[0].price_in_ticks <= asks[j].price_in_ticks);
                    }
                    lemma_buy_gross_bound(m, asks, 0, budget, mid);
                    assert(budget * u <= mid * sold * t) by (nonlinear_arith)
                        requires
                            q * budget <= received,
                            received <= proceeds,
                            proceeds * u <= mid * sold * t * q,
                            q > 0,
                            u > 0,
                    ;
                    assert(bought <= lot * sold) by (nonlinear_arith)
                        requires
                            t * mid * bought <= lot * u * budget,
                            budget * u <= mid * sold * t,
                            t >= 1,
                            mid >= 1,
                            lot >= 0,
                            bought >= 0,
                    ;
                }
            }
        }
        lemma_net_of_fee_bounds(bought, fee);
    }
}

} // verus!

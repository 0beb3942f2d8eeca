//! The quoting engine: a marketable order walking one side of a snapshot.
//!
//! Amounts come in atoms and are cut down to whole lots; each level that the
//! order touches uses up its whole size, or cost, of the budget; the taker
//! fee is taken from the output. The model is stated over unbounded integers,
//! and the functions return an overflow error exactly where the model leaves
//! 64 bits.
use vstd::prelude::*;
use crate::address::Address;
use crate::error::QuoteError;
use crate::ladder::{LadderSnapshot, PriceLevel};
use crate::metadata::{MarketMetadata, BPS_DENOMINATOR};

verus! {

/// What a walk of one side of the book yields: the amount received before the
/// fee, in atoms of the output asset, and the lot budget left over.
#[derive(Clone, Copy, Debug, PartialEq, Eq, Structural)]
pub struct Fill {
    pub output: u64,
    pub remaining_budget: u64,
}

/// The smaller of two integers.
pub open spec fn min_int(a: int, b: int) -> int {
    if a <= b {
        a
    } else {
        b
    }
}

/// A budget after a cost is taken from it, never below zero.
pub open spec fn spend(budget: int, cost: int) -> int {
    if cost >= budget {
        0
    } else {
        budget - cost
    }
}

/// Quote atoms paid for `base_lots` base lots at `price_in_ticks`, rounded down.
pub open spec fn quote_atoms_for(m: MarketMetadata, base_lots: int, price_in_ticks: int) -> int {
    price_in_ticks * base_lots * m.tick_size_in_quote_lots_per_base_unit_per_tick
        * m.quote_lot_size / (m.base_lots_per_base_unit as int)
}

/// Quote lots that the whole of `level` costs, rounded down.
pub open spec fn level_cost(m: MarketMetadata, level: PriceLevel) -> int {
    level.price_in_ticks * level.size_in_base_lots
        * m.tick_size_in_quote_lots_per_base_unit_per_tick / (m.base_lots_per_base_unit as int)
}

/// Base lots that `budget` quote lots buy at the price of `level`, rounded
/// down. At a price of zero every lot of the level is affordable.
pub open spec fn affordable_lots(m: MarketMetadata, level: PriceLevel, budget: int) -> int {
    let unit_price = m.tick_size_in_quote_lots_per_base_unit_per_tick * level.price_in_ticks;
    if unit_price == 0 {
        level.size_in_base_lots as int
    } else {
        budget * m.base_lots_per_base_unit / unit_price
    }
}

/// Base lots taken from `level` by a buyer with `budget` quote lots.
pub open spec fn ask_lots_filled(m: MarketMetadata, level: PriceLevel, budget: int) -> int {
    min_int(level.size_in_base_lots as int, affordable_lots(m, level, budget))
}

/// Quote atoms received, before the fee, for selling `budget` base lots into
/// `bids` from level `from` on. A level that is touched uses up its whole size
/// of the budget, whatever was filled at it.
pub open spec fn sell_gross(m: MarketMetadata, bids: Seq<PriceLevel>, from: int, budget: int) -> int
    decreases bids.len() - from,
{
    if from < 0 || from >= bids.len() || budget <= 0 {
        0
    } else {
        quote_atoms_for(
            m,
            min_int(bids[from].size_in_base_lots as int, budget),
            bids[from].price_in_ticks as int,
        ) + sell_gross(m, bids, from + 1, spend(budget, bids[from].size_in_base_lots as int))
    }
}

/// Base lots of budget left after selling into `bids` from level `from` on.
pub open spec fn sell_remaining(bids: Seq<PriceLevel>, from: int, budget: int) -> int
    decreases bids.len() - from,
{
    if from < 0 || from >= bids.len() || budget <= 0 {
        budget
    } else {
        sell_remaining(bids, from + 1, spend(budget, bids[from].size_in_base_lots as int))
    }
}

/// Base atoms received, before the fee, for spending `budget` quote lots on
/// `asks` from level `from` on. A level that is touched uses up its whole cost
/// of the budget, whatever was filled at it.
pub open spec fn buy_gross(m: MarketMetadata, asks: Seq<PriceLevel>, from: int, budget: int) -> int
    decreases asks.len() - from,
{
    if from < 0 || from >= asks.len() || budget <= 0 {
        0
    } else {
        ask_lots_filled(m, asks[from], budget) * m.base_lot_size + buy_gross(
            m,
            asks,
            from + 1,
            spend(budget, level_cost(m, asks[from])),
        )
    }
}

/// Quote lots of budget left after buying from `asks` from level `from` on.
pub open spec fn buy_remaining(m: MarketMetadata, asks: Seq<PriceLevel>, from: int, budget: int) -> int
    decreases asks.len() - from,
{
    if from < 0 || from >= asks.len() || budget <= 0 {
        budget
    } else {
        buy_remaining(m, asks, from + 1, spend(budget, level_cost(m, asks[from])))
    }
}

/// What is left of `gross` after a fee of `fee_bps` basis points, rounded down.
pub open spec fn net_of_fee(gross: int, fee_bps: int) -> int {
    gross * (BPS_DENOMINATOR - fee_bps) / (BPS_DENOMINATOR as int)
}

/// A number beyond 128 bits, divided by one of at most 64 bits, is beyond 64 bits.
proof fn lemma_quotient_beyond_u64(x: int, d: int)
    requires
        x > u128::MAX,
        0 < d <= u64::MAX,
    ensures
        x / d > u64::MAX,
{
    let q = x / d;
    assert(x == d * q + x % d && 0 <= x % d < d) by {
        vstd::arithmetic::div_mod::lemma_fundamental_div_mod(x, d);
        vstd::arithmetic::div_mod::lemma_mod_bound(x, d);
    }
    if q <= u64::MAX {
        assert(d * q <= 0xffff_ffff_ffff_ffff * 0xffff_ffff_ffff_ffff) by (nonlinear_arith)
            requires
                0 < d <= 0xffff_ffff_ffff_ffff,
                q <= 0xffff_ffff_ffff_ffff,
        ;
        assert(false);
    }
}

/// A product of non-negative factors over a positive divisor is non-negative.
proof fn lemma_quote_atoms_nonneg(m: MarketMetadata, base_lots: int, price_in_ticks: int)
    requires
        m.wf(),
        base_lots >= 0,
        price_in_ticks >= 0,
    ensures
        quote_atoms_for(m, base_lots, price_in_ticks) >= 0,
{
    let t = m.tick_size_in_quote_lots_per_base_unit_per_tick as int;
    let q = m.quote_lot_size as int;
    let p = price_in_ticks * base_lots * t * q;
    assert(p >= 0) by (nonlinear_arith)
        requires
            p == price_in_ticks * base_lots * t * q,
            price_in_ticks >= 0,
            base_lots >= 0,
            t >= 0,
            q >= 0,
    ;
    vstd::arithmetic::div_mod::lemma_div_pos_is_pos(p, m.base_lots_per_base_unit as int);
}

/// Selling never yields a negative amount.
pub proof fn lemma_sell_gross_nonneg(m: MarketMetadata, bids: Seq<PriceLevel>, from: int, budget: int)
    requires
        m.wf(),
    ensures
        sell_gross(m, bids, from, budget) >= 0,
    decreases bids.len() - from,
{
    if from < 0 || from >= bids.len() || budget <= 0 {
    } else {
        let size = bids[from].size_in_base_lots as int;
        lemma_quote_atoms_nonneg(m, min_int(size, budget), bids[from].price_in_ticks as int);
        lemma_sell_gross_nonneg(m, bids, from + 1, spend(budget, size));
    }
}

/// Quote atoms paid for `base_lots` base lots at `price_in_ticks`, or `None`
/// where the amount does not fit in 64 bits.
pub fn base_lots_and_price_to_quote_atoms(
    m: &MarketMetadata,
    base_lots: u64,
    price_in_ticks: u64,
) -> (res: Option<u64>)
    requires
        m.wf(),
    ensures
        match res {
            Some(atoms) => atoms == quote_atoms_for(*m, base_lots as int, price_in_ticks as int),
            None => quote_atoms_for(*m, base_lots as int, price_in_ticks as int) > u64::MAX,
        },
{
    let tick: u64 = m.tick_size_in_quote_lots_per_base_unit_per_tick;
    let qls: u64 = m.quote_lot_size;
    let per_unit: u64 = m.base_lots_per_base_unit;
    let ghost pf: int = price_in_ticks * base_lots;
    let ghost pft: int = pf * tick;
    let ghost pftq: int = pft * qls;
    proof {
        assert(0 <= pf <= 0xffff_ffff_ffff_ffff * 0xffff_ffff_ffff_ffff) by (nonlinear_arith)
            requires
                pf == price_in_ticks * base_lots,
                0 <= price_in_ticks <= 0xffff_ffff_ffff_ffff,
                0 <= base_lots <= 0xffff_ffff_ffff_ffff,
        ;
        assert(pft >= 0 && pftq >= pft) by (nonlinear_arith)
            requires
                pft == pf * tick,
                pftq == pft * qls,
                pf >= 0,
                tick >= 1,
                qls >= 1,
        ;
    }
    let a: u128 = (price_in_ticks as u128) * (base_lots as u128);
    let b: u128 = match a.checked_mul(tick as u128) {
        Some(b) => b,
        None => {
            proof {
                lemma_quotient_beyond_u64(pftq, per_unit as int);
            }
            return None;
        },
    };
    let c: u128 = match b.checked_mul(qls as u128) {
        Some(c) => c,
        None => {
            proof {
                lemma_quotient_beyond_u64(pftq, per_unit as int);
            }
            return None;
        },
    };
    let atoms: u128 = c / (per_unit as u128);
    if atoms > u64::MAX as u128 {
        None
    } else {
        Some(atoms as u64)
    }
}

/// Buying never yields a negative amount.
pub proof fn lemma_buy_gross_nonneg(m: MarketMetadata, asks: Seq<PriceLevel>, from: int, budget: int)
    requires
        m.wf(),
    ensures
        buy_gross(m, asks, from, budget) >= 0,
    decreases asks.len() - from,
{
    if from < 0 || from >= asks.len() || budget <= 0 {
    } else {
        lemma_ask_lots_filled_bounds(m, asks[from], budget);
        let filled = ask_lots_filled(m, asks[from], budget);
        assert(filled * m.base_lot_size >= 0) by (nonlinear_arith)
            requires
                filled >= 0,
                m.base_lot_size >= 0,
        ;
        lemma_buy_gross_nonneg(m, asks, from + 1, spend(budget, level_cost(m, asks[from])));
    }
}

/// A buyer takes between nothing and the whole of a level.
pub proof fn lemma_ask_lots_filled_bounds(m: MarketMetadata, level: PriceLevel, budget: int)
    requires
        m.wf(),
        budget >= 0,
    ensures
        0 <= ask_lots_filled(m, level, budget) <= level.size_in_base_lots,
{
    let unit_price = m.tick_size_in_quote_lots_per_base_unit_per_tick * level.price_in_ticks;
    if unit_price != 0 {
        let n = budget * m.base_lots_per_base_unit;
        assert(n >= 0 && unit_price > 0) by (nonlinear_arith)
            requires
                n == budget * m.base_lots_per_base_unit,
                unit_price == m.tick_size_in_quote_lots_per_base_unit_per_tick
                    * level.price_in_ticks,
                unit_price != 0,
                budget >= 0,
        ;
        vstd::arithmetic::div_mod::lemma_div_pos_is_pos(n, unit_price);
    }
}

/// Sells `base_lot_budget` base lots into `bids`, best level first, and stops
/// when the budget is used up or the bids run out.
pub fn fill_bids(m: &MarketMetadata, bids: &Vec<PriceLevel>, base_lot_budget: u64) -> (res: Result<
    Fill,
    QuoteError,
>)
    requires
        m.wf(),
    ensures
        match res {
            Ok(fill) => {
                &&& fill.output == sell_gross(*m, bids@, 0, base_lot_budget as int)
                &&& fill.remaining_budget == sell_remaining(bids@, 0, base_lot_budget as int)
            },
            Err(e) => {
                &&& e == QuoteError::ArithmeticOverflow
                &&& sell_gross(*m, bids@, 0, base_lot_budget as int) > u64::MAX
            },
        },
{
    let mut output: u64 = 0;
    let mut budget: u64 = base_lot_budget;
    let mut i: usize = 0;
    while i < bids.len() && budget > 0
        invariant
            m.wf(),
            i <= bids.len(),
            output + sell_gross(*m, bids@, i as int, budget as int) == sell_gross(
                *m,
                bids@,
                0,
                base_lot_budget as int,
            ),
            sell_remaining(bids@, i as int, budget as int) == sell_remaining(
                bids@,
                0,
                base_lot_budget as int,
            ),
        decreases bids.len() - i,
    {
        let level = bids[i];
        let filled: u64 = if level.size_in_base_lots <= budget {
            level.size_in_base_lots
        } else {
            budget
        };
        let next_budget: u64 = if level.size_in_base_lots >= budget {
            0
        } else {
            budget - level.size_in_base_lots
        };
        proof {
            lemma_sell_gross_nonneg(*m, bids@, i + 1, next_budget as int);
        }
        let proceeds: u64 = match base_lots_and_price_to_quote_atoms(m, filled, level.price_in_ticks) {
            Some(proceeds) => proceeds,
            None => {
                return Err(QuoteError::ArithmeticOverflow);
            },
        };
        output = match output.checked_add(proceeds) {
            Some(sum) => sum,
            None => {
                return Err(QuoteError::ArithmeticOverflow);
            },
        };
        budget = next_budget;
        i += 1;
    }
    Ok(Fill { output, remaining_budget: budget })
}

/// Quote lots that the whole of `level` costs, or `None` where the cost does
/// not fit in 64 bits.
pub fn level_cost_in_quote_lots(m: &MarketMetadata, level: &PriceLevel) -> (res: Option<u64>)
    requires
        m.wf(),
    ensures
        match res {
            Some(cost) => cost == level_cost(*m, *level),
            None => level_cost(*m, *level) > u64::MAX,
        },
{
    let tick: u64 = m.tick_size_in_quote_lots_per_base_unit_per_tick;
    let per_unit: u64 = m.base_lots_per_base_unit;
    let ghost ps: int = level.price_in_ticks * level.size_in_base_lots;
    proof {
        assert(0 <= ps <= 0xffff_ffff_ffff_ffff * 0xffff_ffff_ffff_ffff) by (nonlinear_arith)
            requires
                ps == level.price_in_ticks * level.size_in_base_lots,
                0 <= level.price_in_ticks <= 0xffff_ffff_ffff_ffff,
                0 <= level.size_in_base_lots <= 0xffff_ffff_ffff_ffff,
        ;
    }
    let a: u128 = (level.price_in_ticks as u128) * (level.size_in_base_lots as u128);
    let b: u128 = match a.checked_mul(tick as u128) {
        Some(b) => b,
        None => {
            proof {
                lemma_quotient_beyond_u64(ps * tick, per_unit as int);
            }
            return None;
        },
    };
    let cost: u128 = b / (per_unit as u128);
    if cost > u64::MAX as u128 {
        None
    } else {
        Some(cost as u64)
    }
}

/// Base lots taken from `level` by a buyer with `quote_lot_budget` quote lots.
pub fn lots_filled_at_ask(m: &MarketMetadata, level: &PriceLevel, quote_lot_budget: u64) -> (filled:
    u64)
    requires
        m.wf(),
    ensures
        filled == ask_lots_filled(*m, *level, quote_lot_budget as int),
{
    let ghost n: int = quote_lot_budget * m.base_lots_per_base_unit;
    let ghost d: int = m.tick_size_in_quote_lots_per_base_unit_per_tick * level.price_in_ticks;
    proof {
        assert(0 <= n <= 0xffff_ffff_ffff_ffff * 0xffff_ffff_ffff_ffff) by (nonlinear_arith)
            requires
                n == quote_lot_budget * m.base_lots_per_base_unit,
                0 <= quote_lot_budget <= 0xffff_ffff_ffff_ffff,
                0 <= m.base_lots_per_base_unit <= 0xffff_ffff_ffff_ffff,
        ;
        assert(0 <= d <= 0xffff_ffff_ffff_ffff * 0xffff_ffff_ffff_ffff) by (nonlinear_arith)
            requires
                d == m.tick_size_in_quote_lots_per_base_unit_per_tick * level.price_in_ticks,
                0 <= m.tick_size_in_quote_lots_per_base_unit_per_tick <= 0xffff_ffff_ffff_ffff,
                0 <= level.price_in_ticks <= 0xffff_ffff_ffff_ffff,
        ;
    }
    let funds: u128 = (quote_lot_budget as u128) * (m.base_lots_per_base_unit as u128);
    let unit_price: u128 = (m.tick_size_in_quote_lots_per_base_unit_per_tick as u128) * (
    level.price_in_ticks as u128);
    if unit_price == 0 {
        level.size_in_base_lots
    } else {
        let affordable: u128 = funds / unit_price;
        if affordable >= level.size_in_base_lots as u128 {
            level.size_in_base_lots
        } else {
            affordable as u64
        }
    }
}

/// Spends `quote_lot_budget` quote lots on `asks`, best level first, and stops
/// when the budget is used up or the asks run out.
pub fn fill_asks(m: &MarketMetadata, asks: &Vec<PriceLevel>, quote_lot_budget: u64) -> (res: Result<
    Fill,
    QuoteError,
>)
    requires
        m.wf(),
    ensures
        match res {
            Ok(fill) => {
                &&& fill.output == buy_gross(*m, asks@, 0, quote_lot_budget as int)
                &&& fill.remaining_budget == buy_remaining(*m, asks@, 0, quote_lot_budget as int)
            },
            Err(e) => {
                &&& e == QuoteError::ArithmeticOverflow
                &&& buy_gross(*m, asks@, 0, quote_lot_budget as int) > u64::MAX
            },
        },
{
    let mut output: u64 = 0;
    let mut budget: u64 = quote_lot_budget;
    let mut i: usize = 0;
    while i < asks.len() && budget > 0
        invariant
            m.wf(),
            i <= asks.len(),
            output + buy_gross(*m, asks@, i as int, budget as int) == buy_gross(
                *m,
                asks@,
                0,
                quote_lot_budget as int,
            ),
            buy_remaining(*m, asks@, i as int, budget as int) == buy_remaining(
                *m,
                asks@,
                0,
                quote_lot_budget as int,
            ),
        decreases asks.len() - i,
    {
        let level = asks[i];
        let filled: u64 = lots_filled_at_ask(m, &level, budget);
        let next_budget: u64 = match level_cost_in_quote_lots(m, &level) {
            Some(cost) => if cost >= budget {
                0
            } else {
                budget - cost
            },
            None => 0,
        };
        proof {
            lemma_buy_gross_nonneg(*m, asks@, i + 1, next_budget as int);
            assert(0 <= filled * m.base_lot_size <= 0xffff_ffff_ffff_ffff * 0xffff_ffff_ffff_ffff)
                by (nonlinear_arith)
                requires
                    0 <= filled <= 0xffff_ffff_ffff_ffff,
                    0 <= m.base_lot_size <= 0xffff_ffff_ffff_ffff,
            ;
        }
        let atoms: u128 = (filled as u128) * (m.base_lot_size as u128);
        let sum: u128 = atoms + (output as u128);
        if sum > u64::MAX as u128 {
            return Err(QuoteError::ArithmeticOverflow);
        }
        output = sum as u64;
        budget = next_budget;
        i += 1;
    }
    Ok(Fill { output, remaining_budget: budget })
}

/// Takes the taker fee of `fee_bps` basis points from `gross`, rounding down.
///
/// The venue charges its fee on what the taker pays in; taking it from what
/// the taker receives is an approximation.
pub fn apply_taker_fee(gross: u64, fee_bps: u64) -> (net: u64)
    requires
        fee_bps < BPS_DENOMINATOR,
    ensures
        net == net_of_fee(gross as int, fee_bps as int),
        net <= gross,
{
    let kept: u64 = BPS_DENOMINATOR - fee_bps;
    proof {
        assert(0 <= gross * kept <= gross * 10_000) by (nonlinear_arith)
            requires
                0 <= kept <= 10_000,
                gross >= 0,
        ;
        assert(gross * kept / 10_000 <= gross) by {
            vstd::arithmetic::div_mod::lemma_div_is_ordered(gross * kept, gross * 10_000, 10_000);
            vstd::arithmetic::div_mod::lemma_div_multiples_vanish(gross as int, 10_000);
        }
    }
    let scaled: u128 = (gross as u128) * (kept as u128);
    (scaled / (BPS_DENOMINATOR as u128)) as u64
}

/// Which way a trade goes through the market.
#[derive(Clone, Copy, Debug, PartialEq, Eq, Structural)]
pub enum Direction {
    /// Base atoms in, quote atoms out: the order walks the bids.
    SellBase,
    /// Quote atoms in, base atoms out: the order walks the asks.
    BuyBase,
}

/// The direction of a trade from `input_mint` to `output_mint`, if the two are
/// the market's pair.
pub open spec fn direction_of(m: MarketMetadata, input_mint: Address, output_mint: Address) -> Option<
    Direction,
> {
    if input_mint@ == m.base_asset_id@ && output_mint@ == m.quote_asset_id@ {
        Some(Direction::SellBase)
    } else if input_mint@ == m.quote_asset_id@ && output_mint@ == m.base_asset_id@ {
        Some(Direction::BuyBase)
    } else {
        None
    }
}

/// Whole lots of the input asset in `input_amount` atoms; what is finer than a
/// lot is dropped.
pub open spec fn lot_budget(m: MarketMetadata, direction: Direction, input_amount: u64) -> int {
    match direction {
        Direction::SellBase => input_amount as int / m.base_lot_size as int,
        Direction::BuyBase => input_amount as int / m.quote_lot_size as int,
    }
}

/// Atoms of the output asset received before the fee.
pub open spec fn gross_output(
    m: MarketMetadata,
    bids: Seq<PriceLevel>,
    asks: Seq<PriceLevel>,
    direction: Direction,
    input_amount: u64,
) -> int {
    match direction {
        Direction::SellBase => sell_gross(m, bids, 0, lot_budget(m, direction, input_amount)),
        Direction::BuyBase => buy_gross(m, asks, 0, lot_budget(m, direction, input_amount)),
    }
}

/// The quote for `input_amount` atoms of `input_mint`, in atoms of
/// `output_mint` after the fee.
pub open spec fn quote_result(
    m: MarketMetadata,
    bids: Seq<PriceLevel>,
    asks: Seq<PriceLevel>,
    input_mint: Address,
    output_mint: Address,
    input_amount: u64,
) -> Result<u64, QuoteError> {
    match direction_of(m, input_mint, output_mint) {
        None => Err(QuoteError::InvalidMintPair),
        Some(direction) => {
            let gross = gross_output(m, bids, asks, direction, input_amount);
            if gross > u64::MAX {
                Err(QuoteError::ArithmeticOverflow)
            } else {
                Ok(net_of_fee(gross, m.taker_fee_bps as int) as u64)
            }
        },
    }
}

/// The direction of a trade from `input_mint` to `output_mint`; any pair but
/// the market's own is refused.
pub fn trade_direction(m: &MarketMetadata, input_mint: &Address, output_mint: &Address) -> (res:
    Result<Direction, QuoteError>)
    ensures
        match res {
            Ok(d) => direction_of(*m, *input_mint, *output_mint) == Some(d),
            Err(e) => e == QuoteError::InvalidMintPair && direction_of(
                *m,
                *input_mint,
                *output_mint,
            ) is None,
        },
{
    if input_mint.same_as(&m.base_asset_id) && output_mint.same_as(&m.quote_asset_id) {
        Ok(Direction::SellBase)
    } else if input_mint.same_as(&m.quote_asset_id) && output_mint.same_as(&m.base_asset_id) {
        Ok(Direction::BuyBase)
    } else {
        Err(QuoteError::InvalidMintPair)
    }
}

/// Quotes a marketable order of `input_amount` atoms of `input_mint` against
/// `ladder`: the atoms of `output_mint` that it receives after the taker fee.
///
/// An empty side, an input below one lot and a book that runs out before the
/// budget does are no errors: the quote is what was filled.
pub fn quote(
    m: &MarketMetadata,
    ladder: &LadderSnapshot,
    input_mint: &Address,
    output_mint: &Address,
    input_amount: u64,
) -> (res: Result<u64, QuoteError>)
    requires
        m.wf(),
    ensures
        res == quote_result(*m, ladder.bids@, ladder.asks@, *input_mint, *output_mint, input_amount),
{
    let direction = match trade_direction(m, input_mint, output_mint) {
        Ok(direction) => direction,
        Err(e) => {
            return Err(e);
        },
    };
    let walked = match direction {
        Direction::SellBase => fill_bids(m, &ladder.bids, input_amount / m.base_lot_size),
        Direction::BuyBase => fill_asks(m, &ladder.asks, input_amount / m.quote_lot_size),
    };
    match walked {
        Ok(fill) => Ok(apply_taker_fee(fill.output, m.taker_fee_bps)),
        Err(e) => Err(e),
    }
}

} // verus!

//! What holds of every market, every book and every request.
use vstd::prelude::*;
use crate::address::Address;
use crate::amm::{construction_error, JupiterPhoenix};
use crate::book::decoded_sides;
use crate::error::QuoteError;
use crate::header::{encode_header, header_size_params, lemma_header_round_trip, MarketHeader, HEADER_LEN};
use crate::ladder::{prices_non_decreasing, prices_non_increasing, sizes_positive, PriceLevel};
use crate::layout::MarketSizeParams;
use crate::metadata::MarketMetadata;
use crate::quote::{
    buy_gross,
    direction_of,
    gross_output,
    net_of_fee,
    quote_result,
    sell_gross,
    spend,
    Direction,
};

verus! {

/// Every decoded snapshot is ordered: along the bids no price rises from one
/// level to the next, along the asks none falls. No level is empty, and no
/// side has more levels than its book has room for orders.
pub proof fn lemma_decoded_ladder_is_monotonic(params: MarketSizeParams, body: Seq<u8>)
    ensures
        decoded_sides(params, body) matches Some(sides) ==> {
            &&& prices_non_increasing(sides.0)
            &&& prices_non_decreasing(sides.1)
            &&& sizes_positive(sides.0)
            &&& sizes_positive(sides.1)
            &&& sides.0.len() <= params.bids_size
            &&& sides.1.len() <= params.asks_size
            &&& forall|i: int|
                0 <= i && i + 1 < sides.0.len() ==> (#[trigger] sides.0[i]).price_in_ticks
                    >= sides.0[i + 1].price_in_ticks
            &&& forall|i: int|
                0 <= i && i + 1 < sides.1.len() ==> (#[trigger] sides.1[i]).price_in_ticks
                    <= sides.1[i + 1].price_in_ticks
        },
{
    crate::book::lemma_levels_within_capacity(body, params.bids_start(), params.bids_size as int);
    crate::book::lemma_levels_within_capacity(body, params.asks_start(), params.asks_size as int);
}

/// The snapshot of an adapter is ordered at every moment of its life.
pub proof fn lemma_snapshot_is_monotonic(amm: JupiterPhoenix)
    requires
        amm.wf(),
    ensures
        forall|i: int|
            0 <= i && i + 1 < amm.bids().len() ==> (#[trigger] amm.bids()[i]).price_in_ticks
                >= amm.bids()[i + 1].price_in_ticks,
        forall|i: int|
            0 <= i && i + 1 < amm.asks().len() ==> (#[trigger] amm.asks()[i]).price_in_ticks
                <= amm.asks()[i + 1].price_in_ticks,
{
    amm.lemma_wf();
}

/// An input of less than one lot of the input asset is quoted at zero.
pub proof fn lemma_input_below_one_lot_quotes_zero(
    m: MarketMetadata,
    bids: Seq<PriceLevel>,
    asks: Seq<PriceLevel>,
    input_mint: Address,
    output_mint: Address,
    input_amount: u64,
)
    requires
        m.wf(),
        match direction_of(m, input_mint, output_mint) {
            Some(Direction::SellBase) => input_amount < m.base_lot_size,
            Some(Direction::BuyBase) => input_amount < m.quote_lot_size,
            None => false,
        },
    ensures
        quote_result(m, bids, asks, input_mint, output_mint, input_amount) == Ok::<u64, QuoteError>(
            0,
        ),
{
    match direction_of(m, input_mint, output_mint) {
        Some(Direction::SellBase) => {
            vstd::arithmetic::div_mod::lemma_basic_div(input_amount as int, m.base_lot_size as int);
        },
        Some(Direction::BuyBase) => {
            vstd::arithmetic::div_mod::lemma_basic_div(input_amount as int, m.quote_lot_size as int);
        },
        None => {},
    }
}

/// A request for any pair of mints but the market's own is refused as an
/// invalid pair, whatever the book and the amount.
pub proof fn lemma_foreign_mints_are_refused(
    m: MarketMetadata,
    bids: Seq<PriceLevel>,
    asks: Seq<PriceLevel>,
    input_mint: Address,
    output_mint: Address,
    input_amount: u64,
)
    requires
        !(input_mint@ == m.base_asset_id@ && output_mint@ == m.quote_asset_id@),
        !(input_mint@ == m.quote_asset_id@ && output_mint@ == m.base_asset_id@),
    ensures
        quote_result(m, bids, asks, input_mint, output_mint, input_amount) == Err::<
            u64,
            QuoteError,
        >(QuoteError::InvalidMintPair),
{
}

/// An account whose header declares sizes that the registry does not know is
/// refused as an unsupported layout, whatever else its bytes hold.
pub proof fn lemma_unknown_sizes_are_unsupported(data: Seq<u8>)
    requires
        data.len() >= HEADER_LEN,
        !header_size_params(data).supported(),
    ensures
        construction_error(data) == Some(QuoteError::UnsupportedLayout),
{
}

/// The same market with another taker fee.
pub open spec fn with_fee(m: MarketMetadata, taker_fee_bps: u64) -> MarketMetadata {
    MarketMetadata { taker_fee_bps, ..m }
}

/// What a sale yields before the fee does not depend on the fee.
proof fn lemma_sell_gross_ignores_fee(
    m: MarketMetadata,
    fee: u64,
    bids: Seq<PriceLevel>,
    from: int,
    budget: int,
)
    ensures
        sell_gross(with_fee(m, fee), bids, from, budget) == sell_gross(m, bids, from, budget),
    decreases bids.len() - from,
{
    if !(from < 0 || from >= bids.len() || budget <= 0) {
        lemma_sell_gross_ignores_fee(
            m,
            fee,
            bids,
            from + 1,
            spend(budget, bids[from].size_in_base_lots as int),
        );
    }
}

/// What a purchase yields before the fee does not depend on the fee.
proof fn lemma_buy_gross_ignores_fee(
    m: MarketMetadata,
    fee: u64,
    asks: Seq<PriceLevel>,
    from: int,
    budget: int,
)
    ensures
        buy_gross(with_fee(m, fee), asks, from, budget) == buy_gross(m, asks, from, budget),
    decreases asks.len() - from,
{
    if !(from < 0 || from >= asks.len() || budget <= 0) {
        lemma_buy_gross_ignores_fee(
            m,
            fee,
            asks,
            from + 1,
            spend(budget, crate::quote::level_cost(m, asks[from])),
        );
    }
}

/// A higher fee never leaves more of the same amount.
pub proof fn lemma_net_of_fee_is_monotonic(gross: int, low_fee: int, high_fee: int)
    requires
        gross >= 0,
        0 <= low_fee <= high_fee <= 10_000,
    ensures
        net_of_fee(gross, high_fee) <= net_of_fee(gross, low_fee),
{
    assert(gross * (10_000 - high_fee) <= gross * (10_000 - low_fee)) by (nonlinear_arith)
        requires
            gross >= 0,
            low_fee <= high_fee,
    ;
    vstd::arithmetic::div_mod::lemma_div_is_ordered(
        gross * (10_000 - high_fee),
        gross * (10_000 - low_fee),
        10_000,
    );
}

/// With the ladder and the input fixed, the quote never grows with the taker
/// fee: under a higher fee the same request fails in the same way or yields
/// no more.
pub proof fn lemma_quote_is_non_increasing_in_fee(
    m: MarketMetadata,
    low_fee: u64,
    high_fee: u64,
    bids: Seq<PriceLevel>,
    asks: Seq<PriceLevel>,
    input_mint: Address,
    output_mint: Address,
    input_amount: u64,
)
    requires
        with_fee(m, low_fee).wf(),
        with_fee(m, high_fee).wf(),
        low_fee <= high_fee,
    ensures
        match (
            quote_result(with_fee(m, low_fee), bids, asks, input_mint, output_mint, input_amount),
            quote_result(with_fee(m, high_fee), bids, asks, input_mint, output_mint, input_amount),
        ) {
            (Ok(at_low), Ok(at_high)) => at_high <= at_low,
            (Err(at_low), Err(at_high)) => at_low == at_high,
            _ => false,
        },
{
    let low = with_fee(m, low_fee);
    let high = with_fee(m, high_fee);
    match direction_of(low, input_mint, output_mint) {
        None => {},
        Some(direction) => {
            let budget = crate::quote::lot_budget(low, direction, input_amount);
            lemma_sell_gross_ignores_fee(m, low_fee, bids, 0, budget);
            lemma_sell_gross_ignores_fee(m, high_fee, bids, 0, budget);
            lemma_buy_gross_ignores_fee(m, low_fee, asks, 0, budget);
            lemma_buy_gross_ignores_fee(m, high_fee, asks, 0, budget);
            let gross = gross_output(low, bids, asks, direction, input_amount);
            assert(gross == gross_output(high, bids, asks, direction, input_amount));
            crate::quote::lemma_sell_gross_nonneg(low, bids, 0, budget);
            crate::quote::lemma_buy_gross_nonneg(low, asks, 0, budget);
            if gross <= u64::MAX {
                lemma_net_of_fee_is_monotonic(gross, low_fee as int, high_fee as int);
                lemma_net_of_fee_bounds(gross, low_fee as int);
                lemma_net_of_fee_bounds(gross, high_fee as int);
            }
        },
    }
}

/// What is left after the fee lies between nothing and the whole.
pub proof fn lemma_net_of_fee_bounds(gross: int, fee_bps: int)
    requires
        gross >= 0,
        0 <= fee_bps <= 10_000,
    ensures
        0 <= net_of_fee(gross, fee_bps) <= gross,
{
    assert(0 <= gross * (10_000 - fee_bps) <= gross * 10_000) by (nonlinear_arith)
        requires
            gross >= 0,
            0 <= fee_bps <= 10_000,
    ;
    vstd::arithmetic::div_mod::lemma_div_is_ordered(gross * (10_000 - fee_bps), gross * 10_000, 10_000);
    vstd::arithmetic::div_mod::lemma_div_multiples_vanish(gross, 10_000);
    vstd::arithmetic::div_mod::lemma_div_pos_is_pos(gross * (10_000 - fee_bps), 10_000);
}

/// Decoding gives back what was encoded: an adapter decoded from an account
/// that starts with the bytes of `header` holds the mints, decimals and lot
/// sizes of `header`, and its tick size in quote lots is the header's tick
/// size over the quote lot size, with no remainder.
pub proof fn lemma_decode_round_trip(
    amm: JupiterPhoenix,
    key: Seq<u8>,
    header: MarketHeader,
    body: Seq<u8>,
)
    requires
        construction_error(encode_header(header) + body) is None,
        amm.decoded_from(key, encode_header(header) + body),
    ensures
        amm.metadata().market_id@ == key,
        amm.metadata().base_asset_id@ == header.base_mint@,
        amm.metadata().quote_asset_id@ == header.quote_mint@,
        amm.metadata().base_decimals == header.base_decimals,
        amm.metadata().quote_decimals == header.quote_decimals,
        amm.metadata().base_lot_size == header.base_lot_size,
        amm.metadata().quote_lot_size == header.quote_lot_size,
        header.tick_size_in_quote_atoms_per_base_unit as int % header.quote_lot_size as int == 0,
        amm.metadata().tick_size_in_quote_lots_per_base_unit_per_tick
            == header.tick_size_in_quote_atoms_per_base_unit as int / header.quote_lot_size as int,
        amm.metadata().tick_size_in_quote_lots_per_base_unit_per_tick * header.quote_lot_size
            == header.tick_size_in_quote_atoms_per_base_unit,
{
    lemma_header_round_trip(header, body);
    let tick = amm.metadata().tick_size_in_quote_lots_per_base_unit_per_tick as int;
    let lot = header.quote_lot_size as int;
    let atoms = header.tick_size_in_quote_atoms_per_base_unit as int;
    assert(tick * lot == atoms);
    assert(lot > 0);
    assert(atoms / lot == tick) by (nonlinear_arith)
        requires
            tick * lot == atoms,
            lot > 0,
    ;
}

/// A header of known sizes whose lot and tick sizes are those of a market is
/// never the reason why an account is refused: what can still fail is the
/// body.
pub proof fn lemma_valid_header_is_accepted(header: MarketHeader, body: Seq<u8>)
    requires
        header.market_size_params.supported(),
        MarketMetadata::header_describes_market(header),
    ensures
        construction_error(encode_header(header) + body) is None || construction_error(
            encode_header(header) + body,
        ) == Some(QuoteError::BodyDecodeError),
{
    lemma_header_round_trip(header, body);
}

} // verus!

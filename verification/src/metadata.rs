//! The constants of a market.
use vstd::prelude::*;
use crate::address::Address;
use crate::error::QuoteError;
use crate::header::MarketHeader;

verus! {

/// One hundred percent, in basis points.
pub const BPS_DENOMINATOR: u64 = 10_000;

/// The constants of a market, fixed when its header is first decoded.
#[derive(Clone, Copy, Debug)]
pub struct MarketMetadata {
    pub market_id: Address,
    pub base_asset_id: Address,
    pub quote_asset_id: Address,
    pub base_decimals: u32,
    pub quote_decimals: u32,
    pub base_lot_size: u64,
    pub quote_lot_size: u64,
    pub base_lots_per_base_unit: u64,
    pub tick_size_in_quote_lots_per_base_unit_per_tick: u64,
    pub taker_fee_bps: u64,
}

/// Lot and tick sizes are those of a market: none is zero, and the tick size,
/// in quote atoms, is a whole number of quote lots.
pub open spec fn lot_sizes_describe_market(
    base_lot_size: int,
    quote_lot_size: int,
    tick_size_in_quote_atoms: int,
) -> bool {
    &&& base_lot_size > 0
    &&& quote_lot_size > 0
    &&& tick_size_in_quote_atoms > 0
    &&& tick_size_in_quote_atoms % quote_lot_size == 0
}

impl MarketMetadata {
    /// The metadata's invariant: every lot size and conversion factor is
    /// positive, and the taker fee is below one hundred percent.
    pub open spec fn wf(&self) -> bool {
        &&& self.base_lot_size > 0
        &&& self.quote_lot_size > 0
        &&& self.base_lots_per_base_unit > 0
        &&& self.tick_size_in_quote_lots_per_base_unit_per_tick > 0
        &&& self.taker_fee_bps < BPS_DENOMINATOR
    }

    /// The metadata with the given fields, if they meet the invariant.
    pub fn new(
        market_id: Address,
        base_asset_id: Address,
        quote_asset_id: Address,
        base_decimals: u32,
        quote_decimals: u32,
        base_lot_size: u64,
        quote_lot_size: u64,
        base_lots_per_base_unit: u64,
        tick_size_in_quote_lots_per_base_unit_per_tick: u64,
        taker_fee_bps: u64,
    ) -> (res: Option<MarketMetadata>)
        ensures
            match res {
                Some(m) => {
                    &&& m.wf()
                    &&& m.market_id@ == market_id@
                    &&& m.base_asset_id@ == base_asset_id@
                    &&& m.quote_asset_id@ == quote_asset_id@
                    &&& m.base_decimals == base_decimals
                    &&& m.quote_decimals == quote_decimals
                    &&& m.base_lot_size == base_lot_size
                    &&& m.quote_lot_size == quote_lot_size
                    &&& m.base_lots_per_base_unit == base_lots_per_base_unit
                    &&& m.tick_size_in_quote_lots_per_base_unit_per_tick
                        == tick_size_in_quote_lots_per_base_unit_per_tick
                    &&& m.taker_fee_bps == taker_fee_bps
                },
                None => base_lot_size == 0 || quote_lot_size == 0 || base_lots_per_base_unit == 0
                    || tick_size_in_quote_lots_per_base_unit_per_tick == 0 || taker_fee_bps
                    >= BPS_DENOMINATOR,
            },
    {
        if base_lot_size == 0 || quote_lot_size == 0 || base_lots_per_base_unit == 0
            || tick_size_in_quote_lots_per_base_unit_per_tick == 0 || taker_fee_bps
            >= BPS_DENOMINATOR {
            None
        } else {
            Some(
                MarketMetadata {
                    market_id,
                    base_asset_id,
                    quote_asset_id,
                    base_decimals,
                    quote_decimals,
                    base_lot_size,
                    quote_lot_size,
                    base_lots_per_base_unit,
                    tick_size_in_quote_lots_per_base_unit_per_tick,
                    taker_fee_bps,
                },
            )
        }
    }

    /// The lot and tick sizes of `header` are those of a market.
    pub open spec fn header_describes_market(header: MarketHeader) -> bool {
        lot_sizes_describe_market(
            header.base_lot_size as int,
            header.quote_lot_size as int,
            header.tick_size_in_quote_atoms_per_base_unit as int,
        )
    }

    /// Whether the lot and tick sizes of `header` are those of a market.
    pub fn header_is_valid(header: &MarketHeader) -> (valid: bool)
        ensures
            valid == Self::header_describes_market(*header),
    {
        header.base_lot_size != 0 && header.quote_lot_size != 0
            && header.tick_size_in_quote_atoms_per_base_unit != 0
            && header.tick_size_in_quote_atoms_per_base_unit % header.quote_lot_size == 0
    }

    /// The conversion factor and the fee of a body are those of a market.
    pub open spec fn body_describes_market(base_lots_per_base_unit: u64, taker_fee_bps: u64) -> bool {
        base_lots_per_base_unit > 0 && taker_fee_bps < BPS_DENOMINATOR
    }

    /// Every field is what the market's account holds; the tick size is the
    /// header's, in quote lots.
    pub open spec fn derived_from(
        &self,
        market_id: Seq<u8>,
        header: MarketHeader,
        base_lots_per_base_unit: u64,
        taker_fee_bps: u64,
    ) -> bool {
        &&& self.market_id@ == market_id
        &&& self.base_asset_id@ == header.base_mint@
        &&& self.quote_asset_id@ == header.quote_mint@
        &&& self.base_decimals == header.base_decimals
        &&& self.quote_decimals == header.quote_decimals
        &&& self.base_lot_size == header.base_lot_size
        &&& self.quote_lot_size == header.quote_lot_size
        &&& self.base_lots_per_base_unit == base_lots_per_base_unit
        &&& self.tick_size_in_quote_lots_per_base_unit_per_tick
            == header.tick_size_in_quote_atoms_per_base_unit as int / header.quote_lot_size as int
        &&& self.taker_fee_bps == taker_fee_bps
    }

    /// Builds the metadata of the market `market_id` from its header and from
    /// the conversion factor and fee of its body. The tick size in quote lots
    /// is the header's tick size over the quote lot size, which must divide it.
    pub fn from_header(
        market_id: Address,
        header: &MarketHeader,
        base_lots_per_base_unit: u64,
        taker_fee_bps: u64,
    ) -> (res: Result<MarketMetadata, QuoteError>)
        ensures
            match res {
                Ok(m) => {
                    &&& Self::header_describes_market(*header)
                    &&& Self::body_describes_market(base_lots_per_base_unit, taker_fee_bps)
                    &&& m.wf()
                    &&& m.derived_from(market_id@, *header, base_lots_per_base_unit, taker_fee_bps)
                    &&& m.tick_size_in_quote_lots_per_base_unit_per_tick * m.quote_lot_size
                        == header.tick_size_in_quote_atoms_per_base_unit
                },
                Err(e) => if Self::header_describes_market(*header) {
                    &&& e == QuoteError::BodyDecodeError
                    &&& !Self::body_describes_market(base_lots_per_base_unit, taker_fee_bps)
                } else {
                    e == QuoteError::HeaderDecodeError
                },
            },
    {
        let tick_atoms: u64 = header.tick_size_in_quote_atoms_per_base_unit;
        let quote_lot_size: u64 = header.quote_lot_size;
        if header.base_lot_size == 0 || quote_lot_size == 0 || tick_atoms == 0 || tick_atoms
            % quote_lot_size != 0 {
            return Err(QuoteError::HeaderDecodeError);
        }
        if base_lots_per_base_unit == 0 || taker_fee_bps >= BPS_DENOMINATOR {
            return Err(QuoteError::BodyDecodeError);
        }
        let tick_lots: u64 = tick_atoms / quote_lot_size;
        proof {
            vstd::arithmetic::div_mod::lemma_fundamental_div_mod(
                tick_atoms as int,
                quote_lot_size as int,
            );
            assert(tick_lots * quote_lot_size == tick_atoms) by (nonlinear_arith)
                requires
                    tick_atoms == quote_lot_size * tick_lots + 0,
            ;
            assert(tick_lots > 0) by (nonlinear_arith)
                requires
                    tick_lots * quote_lot_size == tick_atoms,
                    tick_atoms > 0,
                    tick_lots >= 0,
            ;
        }
        Ok(
            MarketMetadata {
                market_id,
                base_asset_id: header.base_mint,
                quote_asset_id: header.quote_mint,
                base_decimals: header.base_decimals,
                quote_decimals: header.quote_decimals,
                base_lot_size: header.base_lot_size,
                quote_lot_size,
                base_lots_per_base_unit,
                tick_size_in_quote_lots_per_base_unit_per_tick: tick_lots,
                taker_fee_bps,
            },
        )
    }
}

} // verus!

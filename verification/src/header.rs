//! The fixed header at the start of a market account.
use vstd::prelude::*;
use crate::address::Address;
use crate::bytes::{le_u32, le_u64, read_address, read_u32, read_u64};
use crate::error::QuoteError;
use crate::layout::MarketSizeParams;

verus! {

/// Bytes of the fixed header at the start of a market account.
pub const HEADER_LEN: usize = 576;

/// Where the size parameters stand in the header: three 64-bit integers.
pub const SIZE_PARAMS_AT: usize = 16;

/// Where the base token's decimals stand.
pub const BASE_DECIMALS_AT: usize = 40;

/// Where the base mint stands.
pub const BASE_MINT_AT: usize = 48;

/// Where the base lot size stands.
pub const BASE_LOT_SIZE_AT: usize = 112;

/// Where the quote token's decimals stand.
pub const QUOTE_DECIMALS_AT: usize = 120;

/// Where the quote mint stands.
pub const QUOTE_MINT_AT: usize = 128;

/// Where the quote lot size stands.
pub const QUOTE_LOT_SIZE_AT: usize = 192;

/// Where the tick size, in quote atoms per base unit, stands.
pub const TICK_SIZE_AT: usize = 200;

/// What a quote needs of a market's header.
#[derive(Clone, Copy, Debug)]
pub struct MarketHeader {
    pub market_size_params: MarketSizeParams,
    pub base_decimals: u32,
    pub base_mint: Address,
    pub base_lot_size: u64,
    pub quote_decimals: u32,
    pub quote_mint: Address,
    pub quote_lot_size: u64,
    pub tick_size_in_quote_atoms_per_base_unit: u64,
}

impl MarketHeader {
    /// Each field is what `bytes` hold at the field's place.
    pub open spec fn decoded_from(&self, bytes: Seq<u8>) -> bool {
        &&& self.market_size_params.bids_size == le_u64(bytes, SIZE_PARAMS_AT as int)
        &&& self.market_size_params.asks_size == le_u64(bytes, SIZE_PARAMS_AT + 8)
        &&& self.market_size_params.num_seats == le_u64(bytes, SIZE_PARAMS_AT + 16)
        &&& self.base_decimals == le_u32(bytes, BASE_DECIMALS_AT as int)
        &&& self.base_mint@ == bytes.subrange(BASE_MINT_AT as int, BASE_MINT_AT + 32)
        &&& self.base_lot_size == le_u64(bytes, BASE_LOT_SIZE_AT as int)
        &&& self.quote_decimals == le_u32(bytes, QUOTE_DECIMALS_AT as int)
        &&& self.quote_mint@ == bytes.subrange(QUOTE_MINT_AT as int, QUOTE_MINT_AT + 32)
        &&& self.quote_lot_size == le_u64(bytes, QUOTE_LOT_SIZE_AT as int)
        &&& self.tick_size_in_quote_atoms_per_base_unit == le_u64(bytes, TICK_SIZE_AT as int)
    }
}

/// Decodes the header that `bytes` start with. Anything shorter than a header
/// is refused; what follows the header is not read.
pub fn decode_header(bytes: &[u8]) -> (res: Result<MarketHeader, QuoteError>)
    ensures
        match res {
            Ok(header) => bytes@.len() >= HEADER_LEN && header.decoded_from(bytes@),
            Err(e) => e == QuoteError::HeaderDecodeError && bytes@.len() < HEADER_LEN,
        },
{
    if bytes.len() < HEADER_LEN {
        return Err(QuoteError::HeaderDecodeError);
    }
    Ok(
        MarketHeader {
            market_size_params: MarketSizeParams {
                bids_size: read_u64(bytes, SIZE_PARAMS_AT),
                asks_size: read_u64(bytes, SIZE_PARAMS_AT + 8),
                num_seats: read_u64(bytes, SIZE_PARAMS_AT + 16),
            },
            base_decimals: read_u32(bytes, BASE_DECIMALS_AT),
            base_mint: read_address(bytes, BASE_MINT_AT),
            base_lot_size: read_u64(bytes, BASE_LOT_SIZE_AT),
            quote_decimals: read_u32(bytes, QUOTE_DECIMALS_AT),
            quote_mint: read_address(bytes, QUOTE_MINT_AT),
            quote_lot_size: read_u64(bytes, QUOTE_LOT_SIZE_AT),
            tick_size_in_quote_atoms_per_base_unit: read_u64(bytes, TICK_SIZE_AT),
        },
    )
}

/// The size parameters that the header at the start of `bytes` declares.
pub open spec fn header_size_params(bytes: Seq<u8>) -> MarketSizeParams {
    MarketSizeParams {
        bids_size: le_u64(bytes, SIZE_PARAMS_AT as int) as u64,
        asks_size: le_u64(bytes, SIZE_PARAMS_AT + 8) as u64,
        num_seats: le_u64(bytes, SIZE_PARAMS_AT + 16) as u64,
    }
}

/// Byte `k` of the little-endian form of `x`: `x` over 256 `k` times, modulo 256.
pub open spec fn le_byte(x: int, k: int) -> u8
    decreases k,
{
    if k <= 0 {
        (x % 0x100) as u8
    } else {
        le_byte(x / 0x100, k - 1)
    }
}

/// Byte `i` of the header that holds the fields of `header`, with zero in
/// every byte that a quote does not read.
pub open spec fn header_byte(header: MarketHeader, i: int) -> u8 {
    if SIZE_PARAMS_AT <= i < SIZE_PARAMS_AT + 8 {
        le_byte(header.market_size_params.bids_size as int, i - SIZE_PARAMS_AT)
    } else if SIZE_PARAMS_AT + 8 <= i < SIZE_PARAMS_AT + 16 {
        le_byte(header.market_size_params.asks_size as int, i - SIZE_PARAMS_AT - 8)
    } else if SIZE_PARAMS_AT + 16 <= i < SIZE_PARAMS_AT + 24 {
        le_byte(header.market_size_params.num_seats as int, i - SIZE_PARAMS_AT - 16)
    } else if BASE_DECIMALS_AT <= i < BASE_DECIMALS_AT + 4 {
        le_byte(header.base_decimals as int, i - BASE_DECIMALS_AT)
    } else if BASE_MINT_AT <= i < BASE_MINT_AT + 32 {
        header.base_mint@[i - BASE_MINT_AT]
    } else if BASE_LOT_SIZE_AT <= i < BASE_LOT_SIZE_AT + 8 {
        le_byte(header.base_lot_size as int, i - BASE_LOT_SIZE_AT)
    } else if QUOTE_DECIMALS_AT <= i < QUOTE_DECIMALS_AT + 4 {
        le_byte(header.quote_decimals as int, i - QUOTE_DECIMALS_AT)
    } else if QUOTE_MINT_AT <= i < QUOTE_MINT_AT + 32 {
        header.quote_mint@[i - QUOTE_MINT_AT]
    } else if QUOTE_LOT_SIZE_AT <= i < QUOTE_LOT_SIZE_AT + 8 {
        le_byte(header.quote_lot_size as int, i - QUOTE_LOT_SIZE_AT)
    } else if TICK_SIZE_AT <= i < TICK_SIZE_AT + 8 {
        le_byte(header.tick_size_in_quote_atoms_per_base_unit as int, i - TICK_SIZE_AT)
    } else {
        0
    }
}

/// The bytes of a header that holds the fields of `header`.
pub open spec fn encode_header(header: MarketHeader) -> Seq<u8> {
    Seq::new(HEADER_LEN as nat, |i: int| header_byte(header, i))
}

/// The little-endian bytes of a number below `256^4` add up to the number.
proof fn lemma_le_bytes_sum(x: int)
    requires
        0 <= x < 0x1_0000_0000,
    ensures
        le_byte(x, 0) + le_byte(x, 1) * 0x100 + le_byte(x, 2) * 0x1_0000 + le_byte(x, 3)
            * 0x100_0000 == x,
{
    let x1 = x / 0x100;
    let x2 = x1 / 0x100;
    let x3 = x2 / 0x100;
    assert(le_byte(x, 0) == x % 0x100);
    assert(le_byte(x, 1) == x1 % 0x100) by {
        assert(le_byte(x, 1) == le_byte(x1, 0));
    }
    assert(le_byte(x, 2) == x2 % 0x100) by {
        assert(le_byte(x, 2) == le_byte(x1, 1));
        assert(le_byte(x1, 1) == le_byte(x2, 0));
    }
    assert(le_byte(x, 3) == x3 % 0x100) by {
        assert(le_byte(x, 3) == le_byte(x1, 2));
        assert(le_byte(x1, 2) == le_byte(x2, 1));
        assert(le_byte(x2, 1) == le_byte(x3, 0));
    }
    assert(x3 < 0x100);
}

/// The four little-endian bytes of a 32-bit integer hold that integer.
proof fn lemma_le_u32_of_bytes(bytes: Seq<u8>, at: int, x: int)
    requires
        0 <= at,
        at + 4 <= bytes.len(),
        0 <= x < 0x1_0000_0000,
        forall|k: int| 0 <= k < 4 ==> bytes[at + k] == le_byte(x, k),
    ensures
        le_u32(bytes, at) == x,
{
    assert(bytes[at + 0] == le_byte(x, 0));
    assert(bytes[at + 1] == le_byte(x, 1));
    assert(bytes[at + 2] == le_byte(x, 2));
    assert(bytes[at + 3] == le_byte(x, 3));
    lemma_le_bytes_sum(x);
}

/// The eight little-endian bytes of a 64-bit integer hold that integer.
proof fn lemma_le_u64_of_bytes(bytes: Seq<u8>, at: int, x: u64)
    requires
        0 <= at,
        at + 8 <= bytes.len(),
        forall|k: int| 0 <= k < 8 ==> bytes[at + k] == le_byte(x as int, k),
    ensures
        le_u64(bytes, at) == x,
{
    let x0 = x as int;
    let x1 = x0 / 0x100;
    let x2 = x1 / 0x100;
    let x3 = x2 / 0x100;
    let x4 = x3 / 0x100;
    let x5 = x4 / 0x100;
    let x6 = x5 / 0x100;
    let x7 = x6 / 0x100;
    assert(le_byte(x0, 0) == x0 % 0x100);
    assert(le_byte(x0, 1) == x1 % 0x100) by {
        reveal_with_fuel(le_byte, 2);
    }
    assert(le_byte(x0, 2) == x2 % 0x100) by {
        reveal_with_fuel(le_byte, 3);
    }
    assert(le_byte(x0, 3) == x3 % 0x100) by {
        reveal_with_fuel(le_byte, 4);
    }
    assert(le_byte(x0, 4) == x4 % 0x100) by {
        reveal_with_fuel(le_byte, 5);
    }
    assert(le_byte(x0, 5) == x5 % 0x100) by {
        reveal_with_fuel(le_byte, 6);
    }
    assert(le_byte(x0, 6) == x6 % 0x100) by {
        reveal_with_fuel(le_byte, 7);
    }
    assert(le_byte(x0, 7) == x7 % 0x100) by {
        reveal_with_fuel(le_byte, 8);
    }
    assert(bytes[at + 0] == le_byte(x0, 0));
    assert(bytes[at + 1] == le_byte(x0, 1));
    assert(bytes[at + 2] == le_byte(x0, 2));
    assert(bytes[at + 3] == le_byte(x0, 3));
    assert(bytes[at + 4] == le_byte(x0, 4));
    assert(bytes[at + 4 + 1] == bytes[at + 5] && bytes[at + 5] == le_byte(x0, 5));
    assert(bytes[at + 4 + 2] == bytes[at + 6] && bytes[at + 6] == le_byte(x0, 6));
    assert(bytes[at + 4 + 3] == bytes[at + 7] && bytes[at + 7] == le_byte(x0, 7));
    assert(x7 < 0x100);
    let low = x0 % 0x100 + (x1 % 0x100) * 0x100 + (x2 % 0x100) * 0x1_0000 + (x3 % 0x100)
        * 0x100_0000;
    let high = x4 % 0x100 + (x5 % 0x100) * 0x100 + (x6 % 0x100) * 0x1_0000 + (x7 % 0x100)
        * 0x100_0000;
    assert(high == x4);
    assert(x0 == low + x4 * 0x1_0000_0000);
    assert(le_u32(bytes, at) == low);
    assert(le_u32(bytes, at + 4) == high);
}

/// Decoding what was encoded gives the fields back: the header of any account
/// that starts with the bytes of `header` decodes to `header`, whatever
/// follows.
pub proof fn lemma_header_round_trip(header: MarketHeader, rest: Seq<u8>)
    ensures
        encode_header(header).len() == HEADER_LEN,
        header.decoded_from(encode_header(header) + rest),
        header_size_params(encode_header(header) + rest) == header.market_size_params,
{
    let bytes = encode_header(header) + rest;
    assert forall|i: int| 0 <= i < HEADER_LEN implies bytes[i] == header_byte(header, i) by {}
    lemma_le_u64_of_bytes(bytes, SIZE_PARAMS_AT as int, header.market_size_params.bids_size);
    lemma_le_u64_of_bytes(bytes, SIZE_PARAMS_AT + 8, header.market_size_params.asks_size);
    lemma_le_u64_of_bytes(bytes, SIZE_PARAMS_AT + 16, header.market_size_params.num_seats);
    lemma_le_u32_of_bytes(bytes, BASE_DECIMALS_AT as int, header.base_decimals as int);
    lemma_le_u64_of_bytes(bytes, BASE_LOT_SIZE_AT as int, header.base_lot_size);
    lemma_le_u32_of_bytes(bytes, QUOTE_DECIMALS_AT as int, header.quote_decimals as int);
    lemma_le_u64_of_bytes(bytes, QUOTE_LOT_SIZE_AT as int, header.quote_lot_size);
    lemma_le_u64_of_bytes(
        bytes,
        TICK_SIZE_AT as int,
        header.tick_size_in_quote_atoms_per_base_unit,
    );
    assert(header.base_mint@ =~= bytes.subrange(BASE_MINT_AT as int, BASE_MINT_AT + 32));
    assert(header.quote_mint@ =~= bytes.subrange(QUOTE_MINT_AT as int, QUOTE_MINT_AT + 32));
}

} // verus!

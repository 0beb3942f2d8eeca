use jupiter_phoenix::bytes::{le_u32_value, le_u64_value};
use jupiter_phoenix::header::{decode_header, HEADER_LEN};
use jupiter_phoenix::{
    Address, JupiterPhoenix, KeyedAccount, MarketLayout, MarketSizeParams, PriceLevel, QuoteError,
};
use phoenix::program::{get_market_size, load_with_dispatch, MarketHeader, TokenParams};
use phoenix::quantities::{
    BaseAtomsPerBaseLot, BaseLots, BaseLotsPerBaseUnit, QuoteAtomsPerBaseUnitPerTick,
    QuoteAtomsPerQuoteLot, QuoteLotsPerBaseUnitPerTick, WrapperU64,
};
use phoenix::state::markets::{FIFOMarket, FIFOOrderId, FIFORestingOrder};
use sokoban::{NodeAllocatorMap, ZeroCopy};
use solana_program::pubkey::Pubkey;

const SUPPORTED: [(u64, u64, u64); 12] = [
    (512, 512, 128),
    (512, 512, 1025),
    (512, 512, 1153),
    (1024, 1024, 128),
    (1024, 1024, 2049),
    (1024, 1024, 2177),
    (2048, 2048, 128),
    (2048, 2048, 4097),
    (2048, 2048, 4225),
    (4096, 4096, 128),
    (4096, 4096, 8193),
    (4096, 4096, 8321),
];

fn base_mint() -> Pubkey {
    Pubkey::new_from_array([7u8; 32])
}

fn quote_mint() -> Pubkey {
    Pubkey::new_from_array([9u8; 32])
}

fn header_bytes(sizes: (u64, u64, u64), base_lot: u64, quote_lot: u64, tick_atoms: u64) -> Vec<u8> {
    let header = MarketHeader::new(
        phoenix::program::MarketSizeParams {
            bids_size: sizes.0,
            asks_size: sizes.1,
            num_seats: sizes.2,
        },
        TokenParams {
            decimals: 9,
            vault_bump: 254,
            mint_key: base_mint(),
            vault_key: Pubkey::new_from_array([3u8; 32]),
        },
        BaseAtomsPerBaseLot::new(base_lot),
        TokenParams {
            decimals: 6,
            vault_bump: 253,
            mint_key: quote_mint(),
            vault_key: Pubkey::new_from_array([4u8; 32]),
        },
        QuoteAtomsPerQuoteLot::new(quote_lot),
        QuoteAtomsPerBaseUnitPerTick::new(tick_atoms),
        Pubkey::new_from_array([5u8; 32]),
        Pubkey::new_from_array([6u8; 32]),
        Pubkey::new_from_array([8u8; 32]),
        1,
    );
    bytemuck::bytes_of(&header).to_vec()
}

type SmallMarket = FIFOMarket<Pubkey, 512, 512, 128>;

fn body_bytes(lots_per_unit: u64, fee_bps: u64, bids: &[(u64, u64)], asks: &[(u64, u64)]) -> Vec<u8> {
    let mut body = vec![0u8; std::mem::size_of::<SmallMarket>()];
    let market = SmallMarket::load_mut_bytes(&mut body).unwrap();
    market.bids.initialize();
    market.asks.initialize();
    market.base_lots_per_base_unit = BaseLotsPerBaseUnit::new(lots_per_unit);
    market.tick_size_in_quote_lots_per_base_unit = QuoteLotsPerBaseUnitPerTick::new(1000);
    market.taker_fee_bps = fee_bps;
    for (k, (price, size)) in bids.iter().enumerate() {
        let id = FIFOOrderId::new_from_untyped(*price, !(k as u64 + 1));
        market.bids.insert(id, FIFORestingOrder::new_default(0, BaseLots::new(*size))).unwrap();
    }
    for (k, (price, size)) in asks.iter().enumerate() {
        let id = FIFOOrderId::new_from_untyped(*price, k as u64 + 1);
        market.asks.insert(id, FIFORestingOrder::new_default(0, BaseLots::new(*size))).unwrap();
    }
    body
}

fn account(header: &[u8], body: &[u8]) -> KeyedAccount {
    let mut data = header.to_vec();
    data.extend_from_slice(body);
    KeyedAccount { key: Address::new([1u8; 32]), data }
}

fn reference_ladder(body: &[u8]) -> (Vec<PriceLevel>, Vec<PriceLevel>) {
    let params = phoenix::program::MarketSizeParams { bids_size: 512, asks_size: 512, num_seats: 128 };
    let market = load_with_dispatch(&params, body).unwrap();
    let ladder = market.inner.get_ladder(u64::MAX);
    let level = |o: &phoenix::state::markets::LadderOrder| PriceLevel {
        price_in_ticks: o.price_in_ticks,
        size_in_base_lots: o.size_in_base_lots,
    };
    (ladder.bids.iter().map(level).collect(), ladder.asks.iter().map(level).collect())
}

const BIDS: [(u64, u64); 6] = [(23_400, 10), (23_390, 5), (23_400, 7), (23_100, 1), (23_390, 2), (22_000, 50)];
const ASKS: [(u64, u64); 5] = [(23_500, 4), (23_450, 9), (23_500, 6), (24_000, 100), (23_410, 3)];

#[test]
fn header_is_decoded_as_the_venue_lays_it_out() {
    let bytes = header_bytes((1024, 1024, 2177), 1_000_000, 10, 1_000);
    assert_eq!(bytes.len(), HEADER_LEN);
    assert_eq!(std::mem::size_of::<MarketHeader>(), HEADER_LEN);
    let header = decode_header(&bytes).unwrap();
    assert_eq!(header.market_size_params, MarketSizeParams { bids_size: 1024, asks_size: 1024, num_seats: 2177 });
    assert_eq!(header.base_decimals, 9);
    assert_eq!(header.quote_decimals, 6);
    assert_eq!(header.base_mint.to_bytes(), base_mint().to_bytes());
    assert_eq!(header.quote_mint.to_bytes(), quote_mint().to_bytes());
    assert_eq!(header.base_lot_size, 1_000_000);
    assert_eq!(header.quote_lot_size, 10);
    assert_eq!(header.tick_size_in_quote_atoms_per_base_unit, 1_000);
}

#[test]
fn header_with_large_fields_round_trips() {
    let bytes = header_bytes((4096, 4096, 8321), u64::MAX, 0x0102_0304_0506_0708, 0xfffe_fdfc_fbfa_f9f8);
    let header = decode_header(&bytes).unwrap();
    assert_eq!(header.base_lot_size, u64::MAX);
    assert_eq!(header.quote_lot_size, 0x0102_0304_0506_0708);
    assert_eq!(header.tick_size_in_quote_atoms_per_base_unit, 0xfffe_fdfc_fbfa_f9f8);
}

#[test]
fn short_header_is_refused() {
    let bytes = header_bytes((512, 512, 128), 1, 1, 1);
    assert_eq!(decode_header(&bytes[..HEADER_LEN - 1]).err(), Some(QuoteError::HeaderDecodeError));
    assert_eq!(decode_header(&[]).err(), Some(QuoteError::HeaderDecodeError));
    let short = KeyedAccount { key: Address::new([1u8; 32]), data: vec![0u8; 100] };
    assert_eq!(JupiterPhoenix::new_from_keyed_account(&short).err(), Some(QuoteError::HeaderDecodeError));
}

#[test]
fn little_endian_readers_give_exact_values() {
    let bytes = [0x78u8, 0x56, 0x34, 0x12, 0xf0, 0xde, 0xbc, 0x9a, 0xff];
    assert_eq!(le_u32_value(&bytes, 0), Some(0x1234_5678));
    assert_eq!(le_u64_value(&bytes, 0), Some(0x9abc_def0_1234_5678));
    assert_eq!(le_u32_value(&bytes, 5), Some(0xff9a_bcde));
    assert_eq!(le_u32_value(&bytes, 6), None);
    assert_eq!(le_u64_value(&bytes, 2), None);
}

#[test]
fn registry_knows_the_venues_layouts_and_their_sizes() {
    for (bids_size, asks_size, num_seats) in SUPPORTED {
        let params = MarketSizeParams { bids_size, asks_size, num_seats };
        let layout = MarketLayout::from_size_params(&params).unwrap();
        let theirs = get_market_size(&phoenix::program::MarketSizeParams { bids_size, asks_size, num_seats })
            .unwrap();
        assert_eq!(layout.market_size(), theirs);
        assert_eq!(layout.bids_size() as u64, bids_size);
        assert_eq!(layout.asks_size() as u64, asks_size);
    }
    assert_eq!(std::mem::size_of::<SmallMarket>(), 304 + 2 * (32 + 64 * 512) + 32 + 144 * 128);
}

#[test]
fn registry_refuses_unknown_sizes() {
    for (bids_size, asks_size, num_seats) in [
        (0, 0, 0),
        (512, 512, 129),
        (512, 1024, 128),
        (1024, 512, 128),
        (1234, 89345, 2134),
        (4096, 4096, 8322),
        (u64::MAX, u64::MAX, u64::MAX),
        (512 + (1 << 32), 512, 128),
    ] {
        let params = MarketSizeParams { bids_size, asks_size, num_seats };
        assert_eq!(MarketLayout::from_size_params(&params).err(), Some(QuoteError::UnsupportedLayout));
        assert!(get_market_size(&phoenix::program::MarketSizeParams { bids_size, asks_size, num_seats })
            .is_err());
    }
}

#[test]
fn unsupported_layout_fails_construction() {
    let body = body_bytes(1000, 5, &BIDS, &ASKS);
    let header = header_bytes((512, 512, 127), 1_000_000, 1, 1_000);
    assert_eq!(
        JupiterPhoenix::new_from_keyed_account(&account(&header, &body)).err(),
        Some(QuoteError::UnsupportedLayout)
    );
    // the size tag is looked up before the lot sizes are
    let header = header_bytes((77, 512, 128), 0, 0, 0);
    assert_eq!(
        JupiterPhoenix::new_from_keyed_account(&account(&header, &body)).err(),
        Some(QuoteError::UnsupportedLayout)
    );
}

#[test]
fn market_is_decoded_as_the_venue_reads_it() {
    let body = body_bytes(1000, 5, &BIDS, &ASKS);
    let header = header_bytes((512, 512, 128), 1_000_000, 10, 20_000);
    let amm = JupiterPhoenix::new_from_keyed_account(&account(&header, &body)).unwrap();
    let m = amm.market_metadata();
    assert_eq!(m.market_id.to_bytes(), [1u8; 32]);
    assert_eq!(m.base_asset_id.to_bytes(), base_mint().to_bytes());
    assert_eq!(m.quote_asset_id.to_bytes(), quote_mint().to_bytes());
    assert_eq!((m.base_decimals, m.quote_decimals), (9, 6));
    assert_eq!((m.base_lot_size, m.quote_lot_size), (1_000_000, 10));
    assert_eq!(m.base_lots_per_base_unit, 1000);
    assert_eq!(m.tick_size_in_quote_lots_per_base_unit_per_tick, 2_000);
    assert_eq!(m.tick_size_in_quote_lots_per_base_unit_per_tick * m.quote_lot_size, 20_000);
    assert_eq!(m.taker_fee_bps, 5);
    assert_eq!(amm.get_base_decimals(), 9);
    assert_eq!(amm.get_quote_decimals(), 6);
    let (bids, asks) = reference_ladder(&body);
    assert_eq!(amm.ladder().bids, bids);
    assert_eq!(amm.ladder().asks, asks);
    assert_eq!(
        amm.ladder().bids,
        vec![
            PriceLevel { price_in_ticks: 23_400, size_in_base_lots: 17 },
            PriceLevel { price_in_ticks: 23_390, size_in_base_lots: 7 },
            PriceLevel { price_in_ticks: 23_100, size_in_base_lots: 1 },
            PriceLevel { price_in_ticks: 22_000, size_in_base_lots: 50 },
        ]
    );
    assert_eq!(
        amm.ladder().asks,
        vec![
            PriceLevel { price_in_ticks: 23_410, size_in_base_lots: 3 },
            PriceLevel { price_in_ticks: 23_450, size_in_base_lots: 9 },
            PriceLevel { price_in_ticks: 23_500, size_in_base_lots: 10 },
            PriceLevel { price_in_ticks: 24_000, size_in_base_lots: 100 },
        ]
    );
}

#[test]
fn decoded_ladder_is_monotonic_on_a_deep_book() {
    let bids: Vec<(u64, u64)> = (0..400u64).map(|k| (1_000 + (k * 7919) % 997, 1 + k % 13)).collect();
    let asks: Vec<(u64, u64)> = (0..400u64).map(|k| (2_000 + (k * 104_729) % 1009, 1 + k % 11)).collect();
    let body = body_bytes(10, 0, &bids, &asks);
    let header = header_bytes((512, 512, 128), 100, 1, 10);
    let amm = JupiterPhoenix::new_from_keyed_account(&account(&header, &body)).unwrap();
    let (their_bids, their_asks) = reference_ladder(&body);
    assert_eq!(amm.ladder().bids, their_bids);
    assert_eq!(amm.ladder().asks, their_asks);
    assert!(amm.ladder().bids.len() > 100);
    assert!(amm.ladder().bids.windows(2).all(|w| w[0].price_in_ticks >= w[1].price_in_ticks));
    assert!(amm.ladder().asks.windows(2).all(|w| w[0].price_in_ticks <= w[1].price_in_ticks));
    assert!(amm.ladder().bids.iter().chain(amm.ladder().asks.iter()).all(|l| l.size_in_base_lots > 0));
    let total: u64 = bids.iter().map(|(_, s)| *s).sum();
    assert_eq!(amm.ladder().bids.iter().map(|l| l.size_in_base_lots).sum::<u64>(), total);
}

#[test]
fn empty_book_decodes_to_empty_sides() {
    let body = body_bytes(1, 0, &[], &[]);
    let header = header_bytes((512, 512, 128), 1, 1, 1);
    let amm = JupiterPhoenix::new_from_keyed_account(&account(&header, &body)).unwrap();
    assert!(amm.ladder().bids.is_empty());
    assert!(amm.ladder().asks.is_empty());
}

#[test]
fn bytes_after_the_body_are_not_read() {
    let mut body = body_bytes(1000, 5, &BIDS, &ASKS);
    body.extend_from_slice(&[0xabu8; 333]);
    let header = header_bytes((512, 512, 128), 1_000_000, 1, 1_000);
    let amm = JupiterPhoenix::new_from_keyed_account(&account(&header, &body)).unwrap();
    assert_eq!(amm.ladder().bids.len(), 4);
}

#[test]
fn lot_sizes_that_describe_no_market_are_refused() {
    let body = body_bytes(1000, 5, &BIDS, &ASKS);
    for (base_lot, quote_lot, tick) in [(0, 1, 1), (1, 0, 1), (1, 1, 0), (1, 10, 15), (1, 10, 5)] {
        let header = header_bytes((512, 512, 128), base_lot, quote_lot, tick);
        assert_eq!(
            JupiterPhoenix::new_from_keyed_account(&account(&header, &body)).err(),
            Some(QuoteError::HeaderDecodeError)
        );
    }
}

#[test]
fn bodies_that_hold_no_market_are_refused() {
    let header = header_bytes((512, 512, 128), 1_000_000, 1, 1_000);
    let good = body_bytes(1000, 5, &BIDS, &ASKS);
    let refused = |body: &[u8]| {
        assert_eq!(
            JupiterPhoenix::new_from_keyed_account(&account(&header, body)).err(),
            Some(QuoteError::BodyDecodeError)
        )
    };
    // too short for the layout
    refused(&good[..good.len() - 1]);
    refused(&[]);
    // a fee of one hundred percent, and no lots in a unit
    refused(&body_bytes(1000, 10_000, &BIDS, &ASKS));
    refused(&body_bytes(0, 5, &BIDS, &ASKS));
    // a root outside the book
    let mut body = good.clone();
    body[304..308].copy_from_slice(&513u32.to_le_bytes());
    refused(&body);
    // a node that is its own left child
    let mut body = good.clone();
    let root = u32::from_le_bytes([body[304], body[305], body[306], body[307]]) as usize;
    let node = 304 + 32 + 64 * (root - 1);
    body[node..node + 4].copy_from_slice(&(root as u32).to_le_bytes());
    refused(&body);
    // an order of no size
    refused(&body_bytes(1000, 5, &[(10, 0)], &ASKS));
    // sizes at one price that add up beyond 64 bits
    refused(&body_bytes(1000, 5, &BIDS, &[(10, u64::MAX), (10, 1)]));
    // bids that rise: the asks' tree in the bids' place
    let mut body = good.clone();
    let book = 32 + 64 * 512;
    let asks: Vec<u8> = body[304 + book..304 + 2 * book].to_vec();
    body[304..304 + book].copy_from_slice(&asks);
    refused(&body);
}

fn refreshed(amm: &mut JupiterPhoenix, accounts: &Vec<KeyedAccount>) -> Result<(), QuoteError> {
    amm.update(accounts)
}

#[test]
fn update_replaces_the_snapshot_and_keeps_the_metadata() {
    let header = header_bytes((512, 512, 128), 1_000_000, 1, 1_000);
    let first = account(&header, &body_bytes(1000, 5, &BIDS, &ASKS));
    let mut amm = JupiterPhoenix::new_from_keyed_account(&first).unwrap();
    let before = *amm.market_metadata();
    let fresh_body = body_bytes(1, 77, &[(5, 5)], &[(6, 6), (7, 7)]);
    let other = KeyedAccount { key: Address::new([2u8; 32]), data: vec![1, 2, 3] };
    let accounts = vec![other, account(&header, &fresh_body), first.clone()];
    assert_eq!(refreshed(&mut amm, &accounts), Ok(()));
    assert_eq!(amm.ladder().bids, vec![PriceLevel { price_in_ticks: 5, size_in_base_lots: 5 }]);
    assert_eq!(amm.ladder().asks.len(), 2);
    let after = amm.market_metadata();
    assert_eq!(after.taker_fee_bps, before.taker_fee_bps);
    assert_eq!(after.base_lots_per_base_unit, before.base_lots_per_base_unit);
    assert_eq!(after.base_lot_size, before.base_lot_size);
}

#[test]
fn update_without_the_market_account_changes_nothing() {
    let header = header_bytes((512, 512, 128), 1_000_000, 1, 1_000);
    let first = account(&header, &body_bytes(1000, 5, &BIDS, &ASKS));
    let mut amm = JupiterPhoenix::new_from_keyed_account(&first).unwrap();
    let bids = amm.ladder().bids.clone();
    let other = KeyedAccount { key: Address::new([2u8; 32]), data: first.data.clone() };
    assert_eq!(refreshed(&mut amm, &vec![other]), Err(QuoteError::MissingMarketAccount));
    assert_eq!(refreshed(&mut amm, &vec![]), Err(QuoteError::MissingMarketAccount));
    assert_eq!(amm.ladder().bids, bids);
}

#[test]
fn update_from_bad_bytes_changes_nothing() {
    let header = header_bytes((512, 512, 128), 1_000_000, 1, 1_000);
    let first = account(&header, &body_bytes(1000, 5, &BIDS, &ASKS));
    let mut amm = JupiterPhoenix::new_from_keyed_account(&first).unwrap();
    let asks = amm.ladder().asks.clone();
    let short = KeyedAccount { key: first.key, data: vec![0u8; 10] };
    assert_eq!(refreshed(&mut amm, &vec![short]), Err(QuoteError::HeaderDecodeError));
    let unknown = account(&header_bytes((1, 2, 3), 1, 1, 1), &[]);
    assert_eq!(refreshed(&mut amm, &vec![unknown]), Err(QuoteError::UnsupportedLayout));
    let truncated = account(&header, &[0u8; 1000]);
    assert_eq!(refreshed(&mut amm, &vec![truncated]), Err(QuoteError::BodyDecodeError));
    assert_eq!(amm.ladder().asks, asks);
}

#[test]
fn clone_is_independent_of_the_original() {
    let header = header_bytes((512, 512, 128), 1_000_000, 1, 1_000);
    let first = account(&header, &body_bytes(1000, 5, &BIDS, &ASKS));
    let mut amm = JupiterPhoenix::new_from_keyed_account(&first).unwrap();
    let copy = amm.clone_amm();
    let fresh = account(&header, &body_bytes(1000, 5, &[], &[]));
    assert_eq!(refreshed(&mut amm, &vec![fresh]), Ok(()));
    assert!(amm.ladder().bids.is_empty());
    assert_eq!(copy.ladder().bids.len(), 4);
    assert_eq!(copy.label(), "Phoenix");
    assert_eq!(copy.key().to_bytes(), [1u8; 32]);
}

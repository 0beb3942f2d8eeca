use jupiter_phoenix::{Address, JupiterPhoenix, KeyedAccount, Quote, QuoteParams};
use phoenix::program::{MarketHeader, MarketSizeParams, TokenParams};
use phoenix::quantities::{
    BaseAtomsPerBaseLot, BaseLots, BaseLotsPerBaseUnit, QuoteAtomsPerBaseUnitPerTick,
    QuoteAtomsPerQuoteLot, QuoteLotsPerBaseUnitPerTick, WrapperU64,
};
use phoenix::state::markets::{FIFOMarket, FIFOOrderId, FIFORestingOrder};
use sokoban::{NodeAllocatorMap, ZeroCopy};
use solana_program::pubkey::Pubkey;
use std::str::FromStr;

/// The endpoint that serves the two markets; here their accounts are built in
/// place, in the venue's own layout.
const ENDPOINT: &str = "https://api.mainnet-beta.solana.com/";

type LargeMarket = FIFOMarket<Pubkey, 4096, 4096, 8193>;

struct Fixture {
    base_decimals: u32,
    base_lot_size: u64,
    tick_size_in_quote_atoms: u64,
    base_lots_per_base_unit: u64,
    taker_fee_bps: u64,
    bids: Vec<(u64, u64)>,
    asks: Vec<(u64, u64)>,
}

fn market_data(fixture: &Fixture) -> Vec<u8> {
    let header = MarketHeader::new(
        MarketSizeParams { bids_size: 4096, asks_size: 4096, num_seats: 8193 },
        TokenParams {
            decimals: fixture.base_decimals,
            vault_bump: 255,
            mint_key: Pubkey::new_from_array([21u8; 32]),
            vault_key: Pubkey::new_from_array([22u8; 32]),
        },
        BaseAtomsPerBaseLot::new(fixture.base_lot_size),
        TokenParams {
            decimals: 6,
            vault_bump: 255,
            mint_key: Pubkey::new_from_array([31u8; 32]),
            vault_key: Pubkey::new_from_array([32u8; 32]),
        },
        QuoteAtomsPerQuoteLot::new(1),
        QuoteAtomsPerBaseUnitPerTick::new(fixture.tick_size_in_quote_atoms),
        Pubkey::new_from_array([41u8; 32]),
        Pubkey::new_from_array([42u8; 32]),
        Pubkey::new_from_array([43u8; 32]),
        1,
    );
    let mut body = vec![0u8; std::mem::size_of::<LargeMarket>()];
    let market = LargeMarket::load_mut_bytes(&mut body).unwrap();
    market.bids.initialize();
    market.asks.initialize();
    market.base_lots_per_base_unit = BaseLotsPerBaseUnit::new(fixture.base_lots_per_base_unit);
    market.tick_size_in_quote_lots_per_base_unit =
        QuoteLotsPerBaseUnitPerTick::new(fixture.tick_size_in_quote_atoms);
    market.taker_fee_bps = fixture.taker_fee_bps;
    for (k, (price, size)) in fixture.bids.iter().enumerate() {
        let id = FIFOOrderId::new_from_untyped(*price, !(k as u64 + 1));
        market.bids.insert(id, FIFORestingOrder::new_default(0, BaseLots::new(*size))).unwrap();
    }
    for (k, (price, size)) in fixture.asks.iter().enumerate() {
        let id = FIFOOrderId::new_from_untyped(*price, k as u64 + 1);
        market.asks.insert(id, FIFORestingOrder::new_default(0, BaseLots::new(*size))).unwrap();
    }
    let mut data = bytemuck::bytes_of(&header).to_vec();
    data.extend_from_slice(&body);
    data
}

fn get_account(fixtures: &[(Pubkey, Vec<u8>)], key: &Pubkey) -> Option<Vec<u8>> {
    fixtures.iter().find(|(k, _)| k == key).map(|(_, data)| data.clone())
}

fn base_mint(amm: &JupiterPhoenix) -> Address {
    amm.get_reserve_mints()[0]
}

fn quote_mint(amm: &JupiterPhoenix) -> Address {
    amm.get_reserve_mints()[1]
}

#[test]
fn test_jupiter_phoenix_integration() {
    let sol_usdc_market: Pubkey = Pubkey::from_str("4DoNfFBfF7UokCC2FQzriy7yHK6DY6NVdYpuekQ5pRgg").unwrap();
    let bonk_usdc_market: Pubkey = Pubkey::from_str("GBMoNx84HsFdVK63t8BZuDgyZhSBaeKWB4pHHpoeRM9z").unwrap();

    let sol = Fixture {
        base_decimals: 9,
        base_lot_size: 1_000_000,
        tick_size_in_quote_atoms: 1_000,
        base_lots_per_base_unit: 1_000,
        taker_fee_bps: 2,
        bids: (0..300u64).map(|k| (23_400 - k, 20_000 + 37 * k)).collect(),
        asks: (0..300u64).map(|k| (23_401 + k, 15_000 + 41 * k)).collect(),
    };
    let bonk = Fixture {
        base_decimals: 5,
        base_lot_size: 10_000_000_000,
        tick_size_in_quote_atoms: 10,
        base_lots_per_base_unit: 10,
        taker_fee_bps: 5,
        bids: (0..200u64).map(|k| (1_345 - k, 500 + k)).collect(),
        asks: (0..200u64).map(|k| (1_350 + k, 400 + 2 * k)).collect(),
    };
    println!("markets of {} as fixtures", ENDPOINT);
    let fixtures = vec![(sol_usdc_market, market_data(&sol)), (bonk_usdc_market, market_data(&bonk))];

    let account = get_account(&fixtures, &sol_usdc_market).unwrap();

    let market_account = KeyedAccount { key: Address::new(sol_usdc_market.to_bytes()), data: account };

    let mut jupiter_phoenix = JupiterPhoenix::new_from_keyed_account(&market_account).unwrap();

    let accounts_to_update = jupiter_phoenix.get_accounts_to_update();

    let accounts_map: Vec<KeyedAccount> = accounts_to_update
        .iter()
        .filter_map(|key| {
            get_account(&fixtures, &Pubkey::new_from_array(key.to_bytes()))
                .map(|data| KeyedAccount { key: *key, data })
        })
        .collect();
    jupiter_phoenix.update(&accounts_map).unwrap();
    let in_amount: u64 = 1_000_000_000_000;
    println!(
        "Getting quote for selling {} SOL",
        in_amount as f64 / 10.0_f64.powf(jupiter_phoenix.get_base_decimals() as f64)
    );
    let quote_in = in_amount as f64 / 10.0_f64.powf(jupiter_phoenix.get_base_decimals() as f64);
    let quote = jupiter_phoenix
        .quote(&QuoteParams {
            in_amount,
            input_mint: base_mint(&jupiter_phoenix),
            output_mint: quote_mint(&jupiter_phoenix),
        })
        .unwrap();

    let Quote { out_amount } = quote;
    let sold_for = out_amount;

    let quote_out = out_amount as f64 / 10.0_f64.powf(jupiter_phoenix.get_quote_decimals() as f64);
    println!("Quote result: {:?} ({})", quote_out, quote_out / quote_in);

    let in_amount = out_amount;

    println!(
        "Getting quote for buying SOL with {} USDC",
        in_amount as f64 / 10.0_f64.powf(jupiter_phoenix.get_quote_decimals() as f64)
    );
    let quote_in = in_amount as f64 / 10.0_f64.powf(jupiter_phoenix.get_quote_decimals() as f64);
    let quote = jupiter_phoenix
        .quote(&QuoteParams {
            in_amount,
            input_mint: quote_mint(&jupiter_phoenix),
            output_mint: base_mint(&jupiter_phoenix),
        })
        .unwrap();

    let Quote { out_amount } = quote;

    let quote_out = out_amount as f64 / 10.0_f64.powf(jupiter_phoenix.get_base_decimals() as f64);
    println!(
        "Quote result: {:?} ({})",
        out_amount as f64 / 10.0_f64.powf(jupiter_phoenix.get_base_decimals() as f64),
        quote_in / quote_out
    );
    assert!(sold_for > 0);
    assert!(out_amount > 0);
    assert!(out_amount <= 1_000_000_000_000);

    let account = get_account(&fixtures, &bonk_usdc_market).unwrap();

    let market_account = KeyedAccount { key: Address::new(bonk_usdc_market.to_bytes()), data: account };

    let mut jupiter_phoenix = JupiterPhoenix::new_from_keyed_account(&market_account).unwrap();

    let accounts_to_update = jupiter_phoenix.get_accounts_to_update();

    let accounts_map: Vec<KeyedAccount> = accounts_to_update
        .iter()
        .filter_map(|key| {
            get_account(&fixtures, &Pubkey::new_from_array(key.to_bytes()))
                .map(|data| KeyedAccount { key: *key, data })
        })
        .collect();
    jupiter_phoenix.update(&accounts_map).unwrap();
    let in_amount: u64 = 100_000_000_000_000;
    println!(
        "Getting quote for selling {} BONK",
        in_amount as f64 / 10.0_f64.powf(jupiter_phoenix.get_base_decimals() as f64)
    );
    let quote_in = in_amount as f64 / 10.0_f64.powf(jupiter_phoenix.get_base_decimals() as f64);
    let quote = jupiter_phoenix
        .quote(&QuoteParams {
            in_amount,
            input_mint: base_mint(&jupiter_phoenix),
            output_mint: quote_mint(&jupiter_phoenix),
        })
        .unwrap();

    let Quote { out_amount } = quote;
    let sold_for = out_amount;

    let quote_out = out_amount as f64 / 10.0_f64.powf(jupiter_phoenix.get_quote_decimals() as f64);
    println!("Quote result: {:?} ({})", quote_out, quote_out / quote_in);

    let in_amount = out_amount;

    println!(
        "Getting quote for buying BONK with {} USDC",
        in_amount as f64 / 10.0_f64.powf(jupiter_phoenix.get_quote_decimals() as f64)
    );
    let quote_in = in_amount as f64 / 10.0_f64.powf(jupiter_phoenix.get_quote_decimals() as f64);
    let quote = jupiter_phoenix
        .quote(&QuoteParams {
            in_amount,
            input_mint: quote_mint(&jupiter_phoenix),
            output_mint: base_mint(&jupiter_phoenix),
        })
        .unwrap();

    let Quote { out_amount } = quote;

    let quote_out = out_amount as f64 / 10.0_f64.powf(jupiter_phoenix.get_base_decimals() as f64);
    println!(
        "Quote result: {:?} ({})",
        out_amount as f64 / 10.0_f64.powf(jupiter_phoenix.get_base_decimals() as f64),
        quote_in / quote_out
    );
    assert!(sold_for > 0);
    assert!(out_amount > 0);
    assert!(out_amount <= 100_000_000_000_000);
}

#[test]
fn quotes_on_a_decoded_market_follow_the_walk() {
    let fixture = Fixture {
        base_decimals: 9,
        base_lot_size: 1_000_000,
        tick_size_in_quote_atoms: 1_000,
        base_lots_per_base_unit: 1_000,
        taker_fee_bps: 2,
        bids: vec![(23_400, 2_000), (23_300, 5_000)],
        asks: vec![(23_500, 1_000), (23_600, 10_000)],
    };
    let key = Address::new([1u8; 32]);
    let amm = JupiterPhoenix::new_from_keyed_account(&KeyedAccount { key, data: market_data(&fixture) })
        .unwrap();
    // 3 SOL are 3_000 lots: 2_000 at 23_400 ticks and 1_000 at 23_300, one
    // quote atom per lot and tick; the fee takes 2 basis points, rounding down
    let gross: u64 = 23_400 * 2_000 + 23_300 * 1_000;
    let sold = amm
        .quote(&QuoteParams { in_amount: 3_000_000_000, input_mint: base_mint(&amm), output_mint: quote_mint(&amm) })
        .unwrap();
    assert_eq!(sold, Quote { out_amount: gross * 9_998 / 10_000 });
    assert_eq!(sold.out_amount, 70_085_980);
    // 30 USDC afford 30_000_000 / 23_500 = 1_276 lots, of which the level has
    // 1_000; 6_500_000 quote lots are left and afford 275 lots at 23_600
    let bought = amm
        .quote(&QuoteParams { in_amount: 30_000_000, input_mint: quote_mint(&amm), output_mint: base_mint(&amm) })
        .unwrap();
    assert_eq!(bought.out_amount, 1_275 * 1_000_000 * 9_998 / 10_000);
}

use jupiter_phoenix::header::HEADER_LEN;
use jupiter_phoenix::quote::Direction;
use jupiter_phoenix::swap::{assemble_account_metas, build_swap_leg, make_log_authority_seeds, make_vault_seeds};
use jupiter_phoenix::{
    AccountMeta, Address, JupiterPhoenix, KeyedAccount, QuoteError, Side, Swap, SwapParams,
};
use solana_program::pubkey::Pubkey;
use std::str::FromStr;

const MARKET: [u8; 32] = [11u8; 32];
const BASE: [u8; 32] = [22u8; 32];
const QUOTE: [u8; 32] = [33u8; 32];

/// A market account with an empty book, written byte by byte.
fn market_account() -> KeyedAccount {
    let mut data = vec![0u8; HEADER_LEN + 304 + 2 * (32 + 64 * 512) + 32 + 144 * 128];
    data[16..24].copy_from_slice(&512u64.to_le_bytes());
    data[24..32].copy_from_slice(&512u64.to_le_bytes());
    data[32..40].copy_from_slice(&128u64.to_le_bytes());
    data[40..44].copy_from_slice(&9u32.to_le_bytes());
    data[48..80].copy_from_slice(&BASE);
    data[112..120].copy_from_slice(&1_000_000u64.to_le_bytes());
    data[120..124].copy_from_slice(&6u32.to_le_bytes());
    data[128..160].copy_from_slice(&QUOTE);
    data[192..200].copy_from_slice(&1u64.to_le_bytes());
    data[200..208].copy_from_slice(&1_000u64.to_le_bytes());
    data[HEADER_LEN + 256..HEADER_LEN + 264].copy_from_slice(&1_000u64.to_le_bytes());
    data[HEADER_LEN + 280..HEADER_LEN + 288].copy_from_slice(&2u64.to_le_bytes());
    KeyedAccount { key: Address::new(MARKET), data }
}

fn params(source: [u8; 32], destination: [u8; 32]) -> SwapParams {
    SwapParams {
        source_mint: Address::new(source),
        destination_mint: Address::new(destination),
        user_source_token_account: Address::new([44u8; 32]),
        user_destination_token_account: Address::new([55u8; 32]),
        user_transfer_authority: Address::new([66u8; 32]),
    }
}

fn plain(metas: &[AccountMeta]) -> Vec<([u8; 32], bool, bool)> {
    metas.iter().map(|m| (m.pubkey.to_bytes(), m.is_signer, m.is_writable)).collect()
}

fn vault(mint: [u8; 32]) -> [u8; 32] {
    Pubkey::find_program_address(&[b"vault", MARKET.as_ref(), mint.as_ref()], &phoenix::id()).0.to_bytes()
}

fn log_authority() -> [u8; 32] {
    Pubkey::find_program_address(&["log".as_ref()], &phoenix::id()).0.to_bytes()
}

#[test]
fn adapter_identity() {
    let amm = JupiterPhoenix::from_keyed_account(&market_account()).unwrap();
    assert_eq!(amm.label(), "Phoenix");
    assert_eq!(amm.key().to_bytes(), MARKET);
    assert_eq!(amm.program_id().to_bytes(), phoenix::id().to_bytes());
    assert_eq!(
        amm.program_id().to_bytes(),
        Pubkey::from_str("PhoeNiXZ8ByJGLkxNfZRnkUfjvmuYqLR89jjFHGqdXY").unwrap().to_bytes()
    );
    let mints: Vec<[u8; 32]> = amm.get_reserve_mints().iter().map(|a| a.to_bytes()).collect();
    assert_eq!(mints, vec![BASE, QUOTE]);
    let accounts: Vec<[u8; 32]> = amm.get_accounts_to_update().iter().map(|a| a.to_bytes()).collect();
    assert_eq!(accounts, vec![MARKET]);
    assert_eq!(amm.market_metadata().taker_fee_bps, 2);
    assert_eq!(amm.market_metadata().tick_size_in_quote_lots_per_base_unit_per_tick, 1_000);
}

#[test]
fn selling_base_is_an_ask() {
    let amm = JupiterPhoenix::new_from_keyed_account(&market_account()).unwrap();
    let leg = amm.get_swap_leg_and_account_metas(&params(BASE, QUOTE)).unwrap();
    assert_eq!(leg.swap, Swap::Serum { side: Side::Ask });
    assert_eq!(
        plain(&leg.account_metas),
        vec![
            (MARKET, false, true),
            ([66u8; 32], true, true),
            (log_authority(), false, false),
            (phoenix::id().to_bytes(), false, false),
            ([44u8; 32], false, true),
            ([55u8; 32], false, true),
            (vault(BASE), false, true),
            (vault(QUOTE), false, true),
            (spl_token::id().to_bytes(), false, false),
        ]
    );
}

#[test]
fn buying_base_is_a_bid() {
    let amm = JupiterPhoenix::new_from_keyed_account(&market_account()).unwrap();
    let leg = amm.get_swap_leg_and_account_metas(&params(QUOTE, BASE)).unwrap();
    assert_eq!(leg.swap, Swap::Serum { side: Side::Bid });
    assert_eq!(
        plain(&leg.account_metas),
        vec![
            (MARKET, false, true),
            ([66u8; 32], true, true),
            (log_authority(), false, false),
            (phoenix::id().to_bytes(), false, false),
            ([55u8; 32], false, true),
            ([44u8; 32], false, true),
            (vault(BASE), false, true),
            (vault(QUOTE), false, true),
            (spl_token::id().to_bytes(), false, false),
        ]
    );
}

#[test]
fn derived_addresses_are_the_programs_own() {
    let amm = JupiterPhoenix::new_from_keyed_account(&market_account()).unwrap();
    let leg = amm.get_swap_leg_and_account_metas(&params(BASE, QUOTE)).unwrap();
    assert_eq!(
        leg.account_metas[2].pubkey.to_bytes(),
        Pubkey::from_str("7aDTsspkQNGKmrexAN7FLx9oxU3iPczSSvHNggyuqYkR").unwrap().to_bytes()
    );
    assert_eq!(
        leg.account_metas[8].pubkey.to_bytes(),
        Pubkey::from_str("TokenkegQfeZyiNwAJbNbGKPFXCWuBvf9Ss623VQ5DA").unwrap().to_bytes()
    );
    assert_ne!(leg.account_metas[6].pubkey.to_bytes(), leg.account_metas[7].pubkey.to_bytes());
    assert_ne!(leg.account_metas[6].pubkey.to_bytes(), MARKET);
}

#[test]
fn seeds_are_the_tag_the_market_and_the_mint() {
    assert_eq!(make_log_authority_seeds(), vec![b"log".to_vec()]);
    assert_eq!(
        make_vault_seeds(&Address::new(MARKET), &Address::new(BASE)),
        vec![b"vault".to_vec(), MARKET.to_vec(), BASE.to_vec()]
    );
}

#[test]
fn swap_between_other_mints_is_refused() {
    let amm = JupiterPhoenix::new_from_keyed_account(&market_account()).unwrap();
    for (source, destination) in [(BASE, BASE), (QUOTE, QUOTE), (BASE, [1u8; 32]), ([1u8; 32], BASE), ([1u8; 32], [2u8; 32])] {
        assert_eq!(
            amm.get_swap_leg_and_account_metas(&params(source, destination)).err(),
            Some(QuoteError::InvalidMintPair)
        );
    }
}

#[test]
fn swap_leg_needs_all_three_derived_addresses() {
    let a = |tag: u8| Address::new([tag; 32]);
    let p = params(BASE, QUOTE);
    let leg = |log: Option<Address>, base: Option<Address>, quote: Option<Address>| {
        build_swap_leg(a(1), a(2), a(3), Direction::BuyBase, &p, log, base, quote)
    };
    assert_eq!(leg(None, Some(a(5)), Some(a(6))).err(), Some(QuoteError::NoProgramAddress));
    assert_eq!(leg(Some(a(4)), None, Some(a(6))).err(), Some(QuoteError::NoProgramAddress));
    assert_eq!(leg(Some(a(4)), Some(a(5)), None).err(), Some(QuoteError::NoProgramAddress));
    let built = leg(Some(a(4)), Some(a(5)), Some(a(6))).unwrap();
    assert_eq!(built.swap, Swap::Serum { side: Side::Bid });
    assert_eq!(
        plain(&built.account_metas),
        vec![
            ([1u8; 32], false, true),
            ([66u8; 32], true, true),
            ([4u8; 32], false, false),
            ([2u8; 32], false, false),
            ([55u8; 32], false, true),
            ([44u8; 32], false, true),
            ([5u8; 32], false, true),
            ([6u8; 32], false, true),
            ([3u8; 32], false, false),
        ]
    );
}

#[test]
fn account_list_has_the_instructions_order() {
    let a = |tag: u8| Address::new([tag; 32]);
    let metas = assemble_account_metas(a(1), a(2), a(3), a(4), a(5), a(6), a(7), a(8), a(9));
    let tags: Vec<u8> = metas.iter().map(|m| m.pubkey.to_bytes()[0]).collect();
    assert_eq!(tags, vec![1, 2, 3, 4, 5, 6, 7, 8, 9]);
    let signers: Vec<bool> = metas.iter().map(|m| m.is_signer).collect();
    assert_eq!(signers, vec![false, true, false, false, false, false, false, false, false]);
    let writable: Vec<bool> = metas.iter().map(|m| m.is_writable).collect();
    assert_eq!(writable, vec![true, true, false, false, true, true, true, true, false]);
    assert!(AccountMeta::new(a(1), true).is_writable);
    assert!(!AccountMeta::new_readonly(a(1), true).is_writable);
}

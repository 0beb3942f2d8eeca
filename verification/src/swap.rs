//! Swap legs: the side of a trade and the accounts of its instruction.
use vstd::prelude::*;
use crate::address::Address;
use crate::error::QuoteError;
use crate::quote::Direction;

verus! {

/// The side of the book on which the taker's order rests for an instant: an
/// ask sells base, a bid buys it.
#[derive(Clone, Copy, Debug, PartialEq, Eq, Structural)]
pub enum Side {
    Bid,
    Ask,
}

/// The kind of swap leg that the router is to build.
#[derive(Clone, Copy, Debug, PartialEq, Eq, Structural)]
pub enum Swap {
    Serum { side: Side },
}

/// One account of an instruction, with what the instruction may do with it.
#[derive(Clone, Copy, Debug)]
pub struct AccountMeta {
    pub pubkey: Address,
    pub is_signer: bool,
    pub is_writable: bool,
}

/// The model of an [`AccountMeta`]: its address, whether it signs, whether it
/// is writable.
pub type AccountMetaModel = (Seq<u8>, bool, bool);

impl View for AccountMeta {
    type V = AccountMetaModel;

    open spec fn view(&self) -> AccountMetaModel {
        (self.pubkey@, self.is_signer, self.is_writable)
    }
}

impl AccountMeta {
    /// A writable account.
    pub fn new(pubkey: Address, is_signer: bool) -> (meta: AccountMeta)
        ensures
            meta@ == (pubkey@, is_signer, true),
    {
        AccountMeta { pubkey, is_signer, is_writable: true }
    }

    /// A read-only account.
    pub fn new_readonly(pubkey: Address, is_signer: bool) -> (meta: AccountMeta)
        ensures
            meta@ == (pubkey@, is_signer, false),
    {
        AccountMeta { pubkey, is_signer, is_writable: false }
    }
}

/// What the user brings to a swap: the two mints, the token accounts that pay
/// and receive, and the authority that signs.
#[derive(Clone, Copy, Debug)]
pub struct SwapParams {
    pub source_mint: Address,
    pub destination_mint: Address,
    pub user_source_token_account: Address,
    pub user_destination_token_account: Address,
    pub user_transfer_authority: Address,
}

/// A swap leg and the accounts of its instruction, in the instruction's order.
#[derive(Debug)]
pub struct SwapAndAccountMetas {
    pub swap: Swap,
    pub account_metas: Vec<AccountMeta>,
}

/// The models of a list of accounts.
pub open spec fn metas_view(metas: Seq<AccountMeta>) -> Seq<AccountMetaModel> {
    metas.map_values(|meta: AccountMeta| meta@)
}

/// The seed of the program's log authority: the bytes of `log`.
pub open spec fn log_seed() -> Seq<u8> {
    seq![108u8, 111u8, 103u8]
}

/// The first seed of a vault: the bytes of `vault`.
pub open spec fn vault_seed() -> Seq<u8> {
    seq![118u8, 97u8, 117u8, 108u8, 116u8]
}

/// The seeds of the log authority.
pub open spec fn log_authority_seeds() -> Seq<Seq<u8>> {
    seq![log_seed()]
}

/// The seeds of the vault that holds `mint` for `market`.
pub open spec fn vault_seeds(market: Seq<u8>, mint: Seq<u8>) -> Seq<Seq<u8>> {
    seq![vault_seed(), market, mint]
}

/// The accounts of a swap instruction, in order: the market, the signing
/// authority, the log authority, the program, the user's base and quote token
/// accounts, the two vaults, the token program.
pub open spec fn swap_account_metas(
    market: Seq<u8>,
    authority: Seq<u8>,
    log_authority: Seq<u8>,
    program: Seq<u8>,
    base_account: Seq<u8>,
    quote_account: Seq<u8>,
    base_vault: Seq<u8>,
    quote_vault: Seq<u8>,
    token_program: Seq<u8>,
) -> Seq<AccountMetaModel> {
    seq![
        (market, false, true),
        (authority, true, true),
        (log_authority, false, false),
        (program, false, false),
        (base_account, false, true),
        (quote_account, false, true),
        (base_vault, false, true),
        (quote_vault, false, true),
        (token_program, false, false),
    ]
}

/// The seeds of the log authority, as bytes to hash.
pub fn make_log_authority_seeds() -> (seeds: Vec<Vec<u8>>)
    ensures
        seeds.deep_view() == log_authority_seeds(),
{
    let tag: Vec<u8> = vec![108u8, 111u8, 103u8];
    let seeds: Vec<Vec<u8>> = vec![tag];
    proof {
        assert(tag@ =~= log_seed());
        assert(seeds.deep_view() =~~= log_authority_seeds());
    }
    seeds
}

/// The seeds of the vault that holds `mint` for `market`, as bytes to hash.
pub fn make_vault_seeds(market: &Address, mint: &Address) -> (seeds: Vec<Vec<u8>>)
    ensures
        seeds.deep_view() == vault_seeds(market@, mint@),
{
    let tag: Vec<u8> = vec![118u8, 97u8, 117u8, 108u8, 116u8];
    let market_bytes = market.to_vec();
    let mint_bytes = mint.to_vec();
    let seeds: Vec<Vec<u8>> = vec![tag, market_bytes, mint_bytes];
    proof {
        assert(tag@ =~= vault_seed());
        assert(seeds.deep_view() =~~= vault_seeds(market@, mint@));
    }
    seeds
}

/// Lists the accounts of a swap instruction in the instruction's order, each
/// with its permissions.
pub fn assemble_account_metas(
    market: Address,
    authority: Address,
    log_authority: Address,
    program: Address,
    base_account: Address,
    quote_account: Address,
    base_vault: Address,
    quote_vault: Address,
    token_program: Address,
) -> (metas: Vec<AccountMeta>)
    ensures
        metas_view(metas@) == swap_account_metas(
            market@,
            authority@,
            log_authority@,
            program@,
            base_account@,
            quote_account@,
            base_vault@,
            quote_vault@,
            token_program@,
        ),
{
    let metas: Vec<AccountMeta> = vec![
        AccountMeta::new(market, false),
        AccountMeta::new(authority, true),
        AccountMeta::new_readonly(log_authority, false),
        AccountMeta::new_readonly(program, false),
        AccountMeta::new(base_account, false),
        AccountMeta::new(quote_account, false),
        AccountMeta::new(base_vault, false),
        AccountMeta::new(quote_vault, false),
        AccountMeta::new_readonly(token_program, false),
    ];
    proof {
        assert(metas_view(metas@) =~= swap_account_metas(
            market@,
            authority@,
            log_authority@,
            program@,
            base_account@,
            quote_account@,
            base_vault@,
            quote_vault@,
            token_program@,
        ));
    }
    metas
}

/// The side on which a trade of `direction` is placed: a sale of base is an
/// ask, a purchase a bid.
pub open spec fn side_of(direction: Direction) -> Side {
    match direction {
        Direction::SellBase => Side::Ask,
        Direction::BuyBase => Side::Bid,
    }
}

/// The user's base token account in a trade of `direction`: the source of a
/// sale, the destination of a purchase.
pub open spec fn base_account_of(direction: Direction, params: SwapParams) -> Seq<u8> {
    match direction {
        Direction::SellBase => params.user_source_token_account@,
        Direction::BuyBase => params.user_destination_token_account@,
    }
}

/// The user's quote token account in a trade of `direction`.
pub open spec fn quote_account_of(direction: Direction, params: SwapParams) -> Seq<u8> {
    match direction {
        Direction::SellBase => params.user_destination_token_account@,
        Direction::BuyBase => params.user_source_token_account@,
    }
}

/// The swap leg of a trade of `direction`, given the three derived addresses,
/// or the error where one of them does not exist.
pub open spec fn swap_leg_result(
    market: Seq<u8>,
    program: Seq<u8>,
    token_program: Seq<u8>,
    direction: Direction,
    params: SwapParams,
    log_authority: Option<Seq<u8>>,
    base_vault: Option<Seq<u8>>,
    quote_vault: Option<Seq<u8>>,
) -> Result<(Swap, Seq<AccountMetaModel>), QuoteError> {
    if log_authority is None || base_vault is None || quote_vault is None {
        Err(QuoteError::NoProgramAddress)
    } else {
        Ok(
            (
                Swap::Serum { side: side_of(direction) },
                swap_account_metas(
                    market,
                    params.user_transfer_authority@,
                    log_authority.unwrap(),
                    program,
                    base_account_of(direction, params),
                    quote_account_of(direction, params),
                    base_vault.unwrap(),
                    quote_vault.unwrap(),
                    token_program,
                ),
            ),
        )
    }
}

/// The model of an address that may be missing.
pub open spec fn address_view(address: Option<Address>) -> Option<Seq<u8>> {
    match address {
        Some(address) => Some(address@),
        None => None,
    }
}

/// Builds the swap leg of a trade of `direction` from the three derived
/// addresses: the side, and the accounts in the instruction's order.
pub fn build_swap_leg(
    market: Address,
    program: Address,
    token_program: Address,
    direction: Direction,
    params: &SwapParams,
    log_authority: Option<Address>,
    base_vault: Option<Address>,
    quote_vault: Option<Address>,
) -> (res: Result<SwapAndAccountMetas, QuoteError>)
    ensures
        match res {
            Ok(leg) => swap_leg_result(
                market@,
                program@,
                token_program@,
                direction,
                *params,
                address_view(log_authority),
                address_view(base_vault),
                address_view(quote_vault),
            ) == Ok::<(Swap, Seq<AccountMetaModel>), QuoteError>(
                (leg.swap, metas_view(leg.account_metas@)),
            ),
            Err(e) => swap_leg_result(
                market@,
                program@,
                token_program@,
                direction,
                *params,
                address_view(log_authority),
                address_view(base_vault),
                address_view(quote_vault),
            ) == Err::<(Swap, Seq<AccountMetaModel>), QuoteError>(e),
        },
{
    let (log_authority, base_vault, quote_vault) = match (log_authority, base_vault, quote_vault) {
        (Some(log_authority), Some(base_vault), Some(quote_vault)) => (
            log_authority,
            base_vault,
            quote_vault,
        ),
        _ => {
            return Err(QuoteError::NoProgramAddress);
        },
    };
    let (side, base_account, quote_account) = match direction {
        Direction::SellBase => (
            Side::Ask,
            params.user_source_token_account,
            params.user_destination_token_account,
        ),
        Direction::BuyBase => (
            Side::Bid,
            params.user_destination_token_account,
            params.user_source_token_account,
        ),
    };
    let account_metas = assemble_account_metas(
        market,
        params.user_transfer_authority,
        log_authority,
        program,
        base_account,
        quote_account,
        base_vault,
        quote_vault,
        token_program,
    );
    Ok(SwapAndAccountMetas { swap: Swap::Serum { side }, account_metas })
}

} // verus!

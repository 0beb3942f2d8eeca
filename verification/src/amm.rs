//! The adapter that a swap router drives: one market, decoded from its
//! account, refreshed from fresh bytes, quoted against, and turned into the
//! accounts of a swap instruction.
use vstd::prelude::*;
use vstd::slice::slice_subrange;
use crate::address::Address;
use crate::book::{
    body_base_lots_per_base_unit,
    body_taker_fee_bps,
    decode_ladder,
    decoded_sides,
    read_base_lots_per_base_unit,
    read_taker_fee_bps,
};
use crate::bytes::{le_u32, le_u64};
use crate::error::QuoteError;
use crate::header::{
    decode_header,
    header_size_params,
    BASE_DECIMALS_AT,
    BASE_LOT_SIZE_AT,
    BASE_MINT_AT,
    HEADER_LEN,
    QUOTE_DECIMALS_AT,
    QUOTE_LOT_SIZE_AT,
    QUOTE_MINT_AT,
    TICK_SIZE_AT,
};
use crate::ladder::{LadderSnapshot, PriceLevel};
use crate::layout::MarketLayout;
use crate::metadata::{lot_sizes_describe_market, MarketMetadata};
use crate::program::{
    find_program_address,
    phoenix_program_id,
    phoenix_program_id_bytes,
    program_address_of,
    token_program_id,
    token_program_id_bytes,
};
use crate::quote::{direction_of, quote, quote_result, trade_direction};
use crate::swap::{
    build_swap_leg,
    log_authority_seeds,
    make_log_authority_seeds,
    make_vault_seeds,
    metas_view,
    swap_leg_result,
    vault_seeds,
    AccountMetaModel,
    Swap,
    SwapAndAccountMetas,
    SwapParams,
};

verus! {

/// An account of the ledger: its address and its bytes.
#[derive(Clone, Debug)]
pub struct KeyedAccount {
    pub key: Address,
    pub data: Vec<u8>,
}

/// A request for a quote: so many atoms of one mint, to be paid out in another.
#[derive(Clone, Copy, Debug)]
pub struct QuoteParams {
    pub in_amount: u64,
    pub input_mint: Address,
    pub output_mint: Address,
}

/// A quote: the atoms of the output mint that the order receives.
#[derive(Clone, Copy, Debug, PartialEq, Eq, Structural)]
pub struct Quote {
    pub out_amount: u64,
}

/// A quote adapter for one Phoenix market: the market's constants, decoded
/// once, and the latest snapshot of its book.
#[derive(Debug)]
pub struct JupiterPhoenix {
    label: String,
    program_id: Address,
    market_metadata: MarketMetadata,
    ladder: LadderSnapshot,
}

/// What follows the header in the bytes of a market account.
pub open spec fn market_body(data: Seq<u8>) -> Seq<u8> {
    data.subrange(HEADER_LEN as int, data.len() as int)
}

/// Why the bytes `data` are not those of a market account, if they are not:
/// the first of the checks that fails.
pub open spec fn construction_error(data: Seq<u8>) -> Option<QuoteError> {
    if data.len() < HEADER_LEN {
        Some(QuoteError::HeaderDecodeError)
    } else if !header_size_params(data).supported() {
        Some(QuoteError::UnsupportedLayout)
    } else if !lot_sizes_describe_market(
        le_u64(data, BASE_LOT_SIZE_AT as int),
        le_u64(data, QUOTE_LOT_SIZE_AT as int),
        le_u64(data, TICK_SIZE_AT as int),
    ) {
        Some(QuoteError::HeaderDecodeError)
    } else if market_body(data).len() < header_size_params(data).body_len()
        || !MarketMetadata::body_describes_market(
        body_base_lots_per_base_unit(market_body(data)) as u64,
        body_taker_fee_bps(market_body(data)) as u64,
    ) || decoded_sides(header_size_params(data), market_body(data)) is None {
        Some(QuoteError::BodyDecodeError)
    } else {
        None
    }
}

/// The snapshot that a refresh from the bytes `data` installs, or why it
/// installs none.
pub open spec fn refreshed_sides(data: Seq<u8>) -> Result<
    (Seq<PriceLevel>, Seq<PriceLevel>),
    QuoteError,
> {
    if data.len() < HEADER_LEN {
        Err(QuoteError::HeaderDecodeError)
    } else if !header_size_params(data).supported() {
        Err(QuoteError::UnsupportedLayout)
    } else {
        match decoded_sides(header_size_params(data), market_body(data)) {
            Some(sides) => Ok(sides),
            None => Err(QuoteError::BodyDecodeError),
        }
    }
}

/// The place in `accounts`, from `from` on, of the first account with the
/// address `key`.
pub open spec fn find_account(accounts: Seq<KeyedAccount>, key: Seq<u8>, from: int) -> Option<int>
    decreases accounts.len() - from,
{
    if from < 0 || from >= accounts.len() {
        None
    } else if accounts[from].key@ == key {
        Some(from)
    } else {
        find_account(accounts, key, from + 1)
    }
}

/// A swap leg, or the error in its place, with the accounts as their models.
pub open spec fn leg_model(res: Result<SwapAndAccountMetas, QuoteError>) -> Result<
    (Swap, Seq<AccountMetaModel>),
    QuoteError,
> {
    match res {
        Ok(leg) => Ok((leg.swap, metas_view(leg.account_metas@))),
        Err(e) => Err(e),
    }
}

/// A quote's amount, or the error in its place.
pub open spec fn quote_model(res: Result<Quote, QuoteError>) -> Result<u64, QuoteError> {
    match res {
        Ok(quote) => Ok(quote.out_amount),
        Err(e) => Err(e),
    }
}

/// A copy of `levels`.
fn copy_levels(levels: &Vec<PriceLevel>) -> (copy: Vec<PriceLevel>)
    ensures
        copy@ == levels@,
{
    let mut copy: Vec<PriceLevel> = Vec::new();
    let mut i: usize = 0;
    while i < levels.len()
        invariant
            i <= levels.len(),
            copy@ == levels@.take(i as int),
        decreases levels.len() - i,
    {
        copy.push(levels[i]);
        assert(copy@ =~= levels@.take(i + 1));
        i += 1;
    }
    assert(levels@.take(levels@.len() as int) =~= levels@);
    copy
}

impl JupiterPhoenix {
    /// The market's constants.
    pub closed spec fn metadata(&self) -> MarketMetadata {
        self.market_metadata
    }

    /// The bids of the latest snapshot, best first.
    pub closed spec fn bids(&self) -> Seq<PriceLevel> {
        self.ladder.bids@
    }

    /// The asks of the latest snapshot, best first.
    pub closed spec fn asks(&self) -> Seq<PriceLevel> {
        self.ladder.asks@
    }

    /// The adapter's display label.
    pub closed spec fn label_text(&self) -> Seq<char> {
        self.label@
    }

    /// The address of the program that owns the market.
    pub closed spec fn program(&self) -> Seq<u8> {
        self.program_id@
    }

    /// The adapter's invariant: its metadata and its snapshot are valid, it
    /// is labelled `Phoenix`, and its program is the Phoenix program.
    #[verifier::type_invariant]
    pub closed spec fn wf(&self) -> bool {
        &&& self.market_metadata.wf()
        &&& self.ladder.wf()
        &&& self.label@ == "Phoenix"@
        &&& self.program_id@ == phoenix_program_id_bytes()
    }

    /// What `wf` says, for those who cannot see the fields.
    pub proof fn lemma_wf(&self)
        requires
            self.wf(),
        ensures
            self.metadata().wf(),
            crate::ladder::prices_non_increasing(self.bids()),
            crate::ladder::prices_non_decreasing(self.asks()),
            crate::ladder::sizes_positive(self.bids()),
            crate::ladder::sizes_positive(self.asks()),
            self.label_text() == "Phoenix"@,
            self.program() == phoenix_program_id_bytes(),
    {
    }

    /// Every constant is what the account `key` with the bytes `data` holds,
    /// and the snapshot is the book in `data`.
    pub open spec fn decoded_from(&self, key: Seq<u8>, data: Seq<u8>) -> bool {
        let m = self.metadata();
        let body = market_body(data);
        &&& m.market_id@ == key
        &&& m.base_asset_id@ == data.subrange(BASE_MINT_AT as int, BASE_MINT_AT + 32)
        &&& m.quote_asset_id@ == data.subrange(QUOTE_MINT_AT as int, QUOTE_MINT_AT + 32)
        &&& m.base_decimals == le_u32(data, BASE_DECIMALS_AT as int)
        &&& m.quote_decimals == le_u32(data, QUOTE_DECIMALS_AT as int)
        &&& m.base_lot_size == le_u64(data, BASE_LOT_SIZE_AT as int)
        &&& m.quote_lot_size == le_u64(data, QUOTE_LOT_SIZE_AT as int)
        &&& m.tick_size_in_quote_lots_per_base_unit_per_tick * m.quote_lot_size == le_u64(
            data,
            TICK_SIZE_AT as int,
        )
        &&& m.base_lots_per_base_unit == body_base_lots_per_base_unit(body)
        &&& m.taker_fee_bps == body_taker_fee_bps(body)
        &&& decoded_sides(header_size_params(data), body) == Some((self.bids(), self.asks()))
    }

    /// Decodes a market account into an adapter: the header, then the body in
    /// the layout that the header's size parameters select. Fails, with no
    /// adapter, on the first thing that is not a market's.
    pub fn new_from_keyed_account(keyed_account: &KeyedAccount) -> (res: Result<
        JupiterPhoenix,
        QuoteError,
    >)
        ensures
            match res {
                Ok(amm) => {
                    &&& construction_error(keyed_account.data@) is None
                    &&& amm.wf()
                    &&& amm.decoded_from(keyed_account.key@, keyed_account.data@)
                },
                Err(e) => construction_error(keyed_account.data@) == Some(e),
            },
    {
        let data: &[u8] = keyed_account.data.as_slice();
        let header = match decode_header(data) {
            Ok(header) => header,
            Err(e) => {
                return Err(e);
            },
        };
        let layout = match MarketLayout::from_size_params(&header.market_size_params) {
            Ok(layout) => layout,
            Err(e) => {
                return Err(e);
            },
        };
        assert(header.market_size_params == header_size_params(data@));
        if !MarketMetadata::header_is_valid(&header) {
            return Err(QuoteError::HeaderDecodeError);
        }
        let body: &[u8] = slice_subrange(data, HEADER_LEN, data.len());
        if body.len() < layout.market_size() {
            return Err(QuoteError::BodyDecodeError);
        }
        let base_lots_per_base_unit: u64 = read_base_lots_per_base_unit(body);
        let taker_fee_bps: u64 = read_taker_fee_bps(body);
        let market_metadata = match MarketMetadata::from_header(
            keyed_account.key,
            &header,
            base_lots_per_base_unit,
            taker_fee_bps,
        ) {
            Ok(market_metadata) => market_metadata,
            Err(e) => {
                return Err(e);
            },
        };
        let ladder = match decode_ladder(&layout, body) {
            Ok(ladder) => ladder,
            Err(e) => {
                return Err(e);
            },
        };
        Ok(
            JupiterPhoenix {
                label: "Phoenix".to_owned(),
                program_id: phoenix_program_id(),
                market_metadata,
                ladder,
            },
        )
    }

    /// The same as [`JupiterPhoenix::new_from_keyed_account`].
    pub fn from_keyed_account(keyed_account: &KeyedAccount) -> (res: Result<
        JupiterPhoenix,
        QuoteError,
    >)
        ensures
            match res {
                Ok(amm) => {
                    &&& construction_error(keyed_account.data@) is None
                    &&& amm.wf()
                    &&& amm.decoded_from(keyed_account.key@, keyed_account.data@)
                },
                Err(e) => construction_error(keyed_account.data@) == Some(e),
            },
    {
        JupiterPhoenix::new_from_keyed_account(keyed_account)
    }

    /// Decimal places of the base token.
    pub fn get_base_decimals(&self) -> (decimals: u32)
        ensures
            decimals == self.metadata().base_decimals,
    {
        self.market_metadata.base_decimals
    }

    /// Decimal places of the quote token.
    pub fn get_quote_decimals(&self) -> (decimals: u32)
        ensures
            decimals == self.metadata().quote_decimals,
    {
        self.market_metadata.quote_decimals
    }

    /// The market's constants, valid at every moment of the adapter's life.
    pub fn market_metadata(&self) -> (m: &MarketMetadata)
        ensures
            *m == self.metadata(),
            m.wf(),
    {
        proof {
            use_type_invariant(self);
        }
        &self.market_metadata
    }

    /// The latest snapshot of the book, valid at every moment of the
    /// adapter's life.
    pub fn ladder(&self) -> (ladder: &LadderSnapshot)
        ensures
            ladder.bids@ == self.bids(),
            ladder.asks@ == self.asks(),
            ladder.wf(),
    {
        proof {
            use_type_invariant(self);
        }
        &self.ladder
    }

    /// The address of the program that owns the market.
    pub fn program_id(&self) -> (id: Address)
        ensures
            id@ == self.program(),
            id@ == phoenix_program_id_bytes(),
    {
        proof {
            use_type_invariant(self);
        }
        self.program_id
    }

    /// The adapter's display label.
    pub fn label(&self) -> (label: String)
        ensures
            label@ == self.label_text(),
            label@ == "Phoenix"@,
    {
        proof {
            use_type_invariant(self);
        }
        self.label.clone()
    }

    /// The address of the market account.
    pub fn key(&self) -> (key: Address)
        ensures
            key@ == self.metadata().market_id@,
    {
        self.market_metadata.market_id
    }

    /// The mints that the market trades: base, then quote.
    pub fn get_reserve_mints(&self) -> (mints: Vec<Address>)
        ensures
            mints@.len() == 2,
            mints@[0]@ == self.metadata().base_asset_id@,
            mints@[1]@ == self.metadata().quote_asset_id@,
    {
        vec![self.market_metadata.base_asset_id, self.market_metadata.quote_asset_id]
    }

    /// The accounts whose bytes a refresh needs: the market account alone.
    pub fn get_accounts_to_update(&self) -> (keys: Vec<Address>)
        ensures
            keys@.len() == 1,
            keys@[0]@ == self.metadata().market_id@,
    {
        vec![self.market_metadata.market_id]
    }

    /// An adapter of its own with the same constants and the same snapshot.
    pub fn clone_amm(&self) -> (copy: JupiterPhoenix)
        ensures
            copy.metadata() == self.metadata(),
            copy.bids() == self.bids(),
            copy.asks() == self.asks(),
            copy.label_text() == self.label_text(),
            copy.program() == self.program(),
            copy.wf(),
    {
        proof {
            use_type_invariant(self);
        }
        JupiterPhoenix {
            label: self.label.clone(),
            program_id: self.program_id,
            market_metadata: self.market_metadata,
            ladder: LadderSnapshot {
                bids: copy_levels(&self.ladder.bids),
                asks: copy_levels(&self.ladder.asks),
            },
        }
    }

    /// Replaces the snapshot by the book in the fresh bytes of the market's own
    /// account, the first in `accounts` with the market's address. The
    /// constants stay as they are. Where the account is missing or its bytes
    /// hold no book, nothing changes.
    pub fn update(&mut self, accounts: &Vec<KeyedAccount>) -> (res: Result<(), QuoteError>)
        ensures
            final(self).wf(),
            final(self).metadata() == old(self).metadata(),
            final(self).label_text() == old(self).label_text(),
            final(self).program() == old(self).program(),
            match find_account(accounts@, old(self).metadata().market_id@, 0) {
                None => {
                    &&& res == Err::<(), QuoteError>(QuoteError::MissingMarketAccount)
                    &&& final(self).bids() == old(self).bids()
                    &&& final(self).asks() == old(self).asks()
                },
                Some(at) => match refreshed_sides(accounts@[at].data@) {
                    Ok(sides) => {
                        &&& res is Ok
                        &&& final(self).bids() == sides.0
                        &&& final(self).asks() == sides.1
                    },
                    Err(e) => {
                        &&& res == Err::<(), QuoteError>(e)
                        &&& final(self).bids() == old(self).bids()
                        &&& final(self).asks() == old(self).asks()
                    },
                },
            },
    {
        proof {
            use_type_invariant(&*self);
        }
        let mut at: usize = 0;
        while at < accounts.len() && !accounts[at].key.same_as(&self.market_metadata.market_id)
            invariant
                at <= accounts.len(),
                find_account(accounts@, self.market_metadata.market_id@, 0) == find_account(
                    accounts@,
                    self.market_metadata.market_id@,
                    at as int,
                ),
            decreases accounts.len() - at,
        {
            at += 1;
        }
        if at >= accounts.len() {
            return Err(QuoteError::MissingMarketAccount);
        }
        let data: &[u8] = accounts[at].data.as_slice();
        let header = match decode_header(data) {
            Ok(header) => header,
            Err(e) => {
                return Err(e);
            },
        };
        let layout = match MarketLayout::from_size_params(&header.market_size_params) {
            Ok(layout) => layout,
            Err(e) => {
                return Err(e);
            },
        };
        assert(header.market_size_params == header_size_params(data@));
        let body: &[u8] = slice_subrange(data, HEADER_LEN, data.len());
        let ladder = match decode_ladder(&layout, body) {
            Ok(ladder) => ladder,
            Err(e) => {
                return Err(e);
            },
        };
        self.ladder = ladder;
        Ok(())
    }

    /// Quotes a marketable order against the latest snapshot: the atoms of the
    /// output mint that `in_amount` atoms of the input mint receive, after the
    /// taker fee.
    pub fn quote(&self, quote_params: &QuoteParams) -> (res: Result<Quote, QuoteError>)
        ensures
            quote_model(res) == quote_result(
                self.metadata(),
                self.bids(),
                self.asks(),
                quote_params.input_mint,
                quote_params.output_mint,
                quote_params.in_amount,
            ),
    {
        proof {
            use_type_invariant(self);
        }
        match quote(
            &self.market_metadata,
            &self.ladder,
            &quote_params.input_mint,
            &quote_params.output_mint,
            quote_params.in_amount,
        ) {
            Ok(out_amount) => Ok(Quote { out_amount }),
            Err(e) => Err(e),
        }
    }

    /// The swap leg for a trade between the market's two mints, and the
    /// accounts of its instruction: the log authority and the two vaults are
    /// derived from the program's address, the rest comes from the market and
    /// from the user. Any other pair of mints is refused.
    pub fn get_swap_leg_and_account_metas(&self, swap_params: &SwapParams) -> (res: Result<
        SwapAndAccountMetas,
        QuoteError,
    >)
        ensures
            match direction_of(
                self.metadata(),
                swap_params.source_mint,
                swap_params.destination_mint,
            ) {
                None => leg_model(res) == Err::<(Swap, Seq<AccountMetaModel>), QuoteError>(
                    QuoteError::InvalidMintPair,
                ),
                Some(direction) => leg_model(res) == swap_leg_result(
                    self.metadata().market_id@,
                    self.program(),
                    token_program_id_bytes(),
                    direction,
                    *swap_params,
                    program_address_of(log_authority_seeds(), self.program()),
                    program_address_of(
                        vault_seeds(self.metadata().market_id@, self.metadata().base_asset_id@),
                        self.program(),
                    ),
                    program_address_of(
                        vault_seeds(self.metadata().market_id@, self.metadata().quote_asset_id@),
                        self.program(),
                    ),
                ),
            },
    {
        let direction = match trade_direction(
            &self.market_metadata,
            &swap_params.source_mint,
            &swap_params.destination_mint,
        ) {
            Ok(direction) => direction,
            Err(e) => {
                return Err(e);
            },
        };
        let market = self.market_metadata.market_id;
        let log_authority = find_program_address(&make_log_authority_seeds(), &self.program_id);
        let base_vault = find_program_address(
            &make_vault_seeds(&market, &self.market_metadata.base_asset_id),
            &self.program_id,
        );
        let quote_vault = find_program_address(
            &make_vault_seeds(&market, &self.market_metadata.quote_asset_id),
            &self.program_id,
        );
        build_swap_leg(
            market,
            self.program_id,
            token_program_id(),
            direction,
            swap_params,
            log_authority,
            base_vault,
            quote_vault,
        )
    }
}

} // verus!

//! The errors of decoding and quoting.
use vstd::prelude::*;

verus! {

/// Why a market could not be decoded or a quote could not be given.
#[derive(Clone, Copy, Debug, PartialEq, Eq, Structural)]
pub enum QuoteError {
    /// The buffer is too short for the fixed header, or the header's lot and
    /// tick sizes do not describe a market.
    HeaderDecodeError,
    /// The header's size parameters match no known body layout.
    UnsupportedLayout,
    /// The body is too short for its layout, or its fee or its book is not
    /// that of a market.
    BodyDecodeError,
    /// The requested mints are not the market's base and quote mints.
    InvalidMintPair,
    /// An amount left the range of a 64-bit unsigned integer.
    ArithmeticOverflow,
    /// A refresh came without the bytes of the market's own account.
    MissingMarketAccount,
    /// No program-derived address exists for a vault's seeds.
    NoProgramAddress,
}

impl QuoteError {
    /// The text of `message`.
    pub open spec fn message_text(&self) -> Seq<char> {
        match self {
            QuoteError::HeaderDecodeError => "market header could not be decoded"@,
            QuoteError::UnsupportedLayout => "market size parameters match no known layout"@,
            QuoteError::BodyDecodeError => "market body could not be decoded"@,
            QuoteError::InvalidMintPair => "mints are not the market's base and quote mints"@,
            QuoteError::ArithmeticOverflow => "amount does not fit in 64 bits"@,
            QuoteError::MissingMarketAccount => "market account missing from the refresh"@,
            QuoteError::NoProgramAddress => "no program-derived address for the vault seeds"@,
        }
    }

    /// A short description of the error.
    pub fn message(&self) -> (s: &'static str)
        ensures
            s@ == self.message_text(),
    {
        match self {
            QuoteError::HeaderDecodeError => "market header could not be decoded",
            QuoteError::UnsupportedLayout => "market size parameters match no known layout",
            QuoteError::BodyDecodeError => "market body could not be decoded",
            QuoteError::InvalidMintPair => "mints are not the market's base and quote mints",
            QuoteError::ArithmeticOverflow => "amount does not fit in 64 bits",
            QuoteError::MissingMarketAccount => "market account missing from the refresh",
            QuoteError::NoProgramAddress => "no program-derived address for the vault seeds",
        }
    }
}

} // verus!

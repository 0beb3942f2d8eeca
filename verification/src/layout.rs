//! The registry of market layouts.
//!
//! A market body is laid out by three sizes that its header declares. Only
//! twelve combinations exist; the registry knows them and refuses all others.
use vstd::prelude::*;
use crate::error::QuoteError;

verus! {

/// The size parameters that a market's header declares: the capacity of each
/// side of the book and the number of trader seats.
#[derive(Clone, Copy, Debug, PartialEq, Eq, Structural)]
pub struct MarketSizeParams {
    pub bids_size: u64,
    pub asks_size: u64,
    pub num_seats: u64,
}

/// Bytes of a market body before its bid book.
pub const BODY_PRELUDE_LEN: usize = 304;

/// Bytes of a book or seat tree before its first node.
pub const TREE_PRELUDE_LEN: usize = 32;

/// Bytes of one node of a book.
pub const ORDER_NODE_LEN: usize = 64;

/// Bytes of one node of the seat tree.
pub const SEAT_NODE_LEN: usize = 144;

/// The registry of body layouts: whether a market of these sizes exists.
pub open spec fn is_supported(bids_size: u64, asks_size: u64, num_seats: u64) -> bool {
    ||| bids_size == 512 && asks_size == 512 && (num_seats == 128 || num_seats == 1025 || num_seats
        == 1153)
    ||| bids_size == 1024 && asks_size == 1024 && (num_seats == 128 || num_seats == 2049
        || num_seats == 2177)
    ||| bids_size == 2048 && asks_size == 2048 && (num_seats == 128 || num_seats == 4097
        || num_seats == 4225)
    ||| bids_size == 4096 && asks_size == 4096 && (num_seats == 128 || num_seats == 8193
        || num_seats == 8321)
}

/// Bytes of a book of `capacity` orders.
pub open spec fn book_len(capacity: int) -> int {
    TREE_PRELUDE_LEN + ORDER_NODE_LEN * capacity
}

impl MarketSizeParams {
    /// Whether the registry knows a layout of these sizes.
    pub open spec fn supported(&self) -> bool {
        is_supported(self.bids_size, self.asks_size, self.num_seats)
    }

    /// Where the bid book starts in the body.
    pub open spec fn bids_start(&self) -> int {
        BODY_PRELUDE_LEN as int
    }

    /// Where the ask book starts in the body.
    pub open spec fn asks_start(&self) -> int {
        self.bids_start() + book_len(self.bids_size as int)
    }

    /// Bytes of a body of these sizes.
    pub open spec fn body_len(&self) -> int {
        self.asks_start() + book_len(self.asks_size as int) + TREE_PRELUDE_LEN + SEAT_NODE_LEN
            * self.num_seats
    }
}

/// A body layout of the registry. Its fields can only hold sizes that the
/// registry knows.
#[derive(Clone, Copy, Debug)]
pub struct MarketLayout {
    bids_size: u32,
    asks_size: u32,
    num_seats: u32,
}

impl MarketLayout {
    /// The sizes that the layout was selected by.
    pub closed spec fn size_params(&self) -> MarketSizeParams {
        MarketSizeParams {
            bids_size: self.bids_size as u64,
            asks_size: self.asks_size as u64,
            num_seats: self.num_seats as u64,
        }
    }

    /// The layout's invariant: the registry knows its sizes.
    #[verifier::type_invariant]
    pub closed spec fn wf(&self) -> bool {
        is_supported(self.bids_size as u64, self.asks_size as u64, self.num_seats as u64)
    }

    /// The sizes that the layout was selected by: sizes that the registry
    /// knows.
    pub fn params(&self) -> (params: MarketSizeParams)
        ensures
            params == self.size_params(),
            params.supported(),
    {
        proof {
            use_type_invariant(self);
        }
        MarketSizeParams {
            bids_size: self.bids_size as u64,
            asks_size: self.asks_size as u64,
            num_seats: self.num_seats as u64,
        }
    }

    /// Selects the layout for the sizes that a header declares. Sizes that the
    /// registry does not know are refused; none is guessed.
    pub fn from_size_params(params: &MarketSizeParams) -> (res: Result<MarketLayout, QuoteError>)
        ensures
            match res {
                Ok(layout) => params.supported() && layout.size_params() == *params,
                Err(e) => e == QuoteError::UnsupportedLayout && !params.supported(),
            },
    {
        let supported = match (params.bids_size, params.asks_size, params.num_seats) {
            (512, 512, 128) => true,
            (512, 512, 1025) => true,
            (512, 512, 1153) => true,
            (1024, 1024, 128) => true,
            (1024, 1024, 2049) => true,
            (1024, 1024, 2177) => true,
            (2048, 2048, 128) => true,
            (2048, 2048, 4097) => true,
            (2048, 2048, 4225) => true,
            (4096, 4096, 128) => true,
            (4096, 4096, 8193) => true,
            (4096, 4096, 8321) => true,
            _ => false,
        };
        if supported {
            Ok(
                MarketLayout {
                    bids_size: params.bids_size as u32,
                    asks_size: params.asks_size as u32,
                    num_seats: params.num_seats as u32,
                },
            )
        } else {
            Err(QuoteError::UnsupportedLayout)
        }
    }

    /// Capacity of the bid book, in orders.
    pub fn bids_size(&self) -> (n: usize)
        ensures
            n == self.size_params().bids_size,
    {
        proof {
            use_type_invariant(self);
        }
        self.bids_size as usize
    }

    /// Capacity of the ask book, in orders.
    pub fn asks_size(&self) -> (n: usize)
        ensures
            n == self.size_params().asks_size,
    {
        proof {
            use_type_invariant(self);
        }
        self.asks_size as usize
    }

    /// Where the bid book starts in the body.
    pub fn bids_offset(&self) -> (at: usize)
        ensures
            at == self.size_params().bids_start(),
    {
        proof {
            use_type_invariant(self);
        }
        BODY_PRELUDE_LEN
    }

    /// Where the ask book starts in the body.
    pub fn asks_offset(&self) -> (at: usize)
        ensures
            at == self.size_params().asks_start(),
    {
        proof {
            use_type_invariant(self);
        }
        BODY_PRELUDE_LEN + TREE_PRELUDE_LEN + ORDER_NODE_LEN * (self.bids_size as usize)
    }

    /// Bytes of a body of this layout.
    pub fn market_size(&self) -> (len: usize)
        ensures
            len == self.size_params().body_len(),
    {
        proof {
            use_type_invariant(self);
        }
        BODY_PRELUDE_LEN + TREE_PRELUDE_LEN + ORDER_NODE_LEN * (self.bids_size as usize)
            + TREE_PRELUDE_LEN + ORDER_NODE_LEN * (self.asks_size as usize) + TREE_PRELUDE_LEN
            + SEAT_NODE_LEN * (self.num_seats as usize)
    }
}

} // verus!

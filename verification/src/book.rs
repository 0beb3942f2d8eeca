//! The order book inside a market body.
//!
//! Each side of the book is a binary tree of resting orders, stored as an
//! array of nodes that name their children by number. Reading a side walks
//! the tree in order, merges the orders of one price into one level, and
//! refuses whatever is not a tree within the array.
use vstd::prelude::*;
use crate::bytes::{le_u32, le_u64, read_u32, read_u64};
use crate::error::QuoteError;
use crate::ladder::{is_ordered_side, ordered_side, LadderSnapshot, PriceLevel};
use crate::layout::{book_len, MarketLayout, MarketSizeParams, ORDER_NODE_LEN, TREE_PRELUDE_LEN};

verus! {

/// Where the number of base lots per base unit stands in a market body.
pub const BASE_LOTS_PER_BASE_UNIT_AT: usize = 256;

/// Where the taker fee, in basis points, stands in a market body.
pub const TAKER_FEE_BPS_AT: usize = 280;

/// Where an order's price stands in its node.
pub const ORDER_PRICE_AT: usize = 16;

/// Where an order's size stands in its node.
pub const ORDER_SIZE_AT: usize = 40;

/// Where node `node` of the book at `tree` starts. Nodes are numbered from 1;
/// 0 stands for no node.
pub open spec fn node_start(tree: int, node: int) -> int {
    tree + TREE_PRELUDE_LEN + ORDER_NODE_LEN * (node - 1)
}

/// The root node of the book at `tree`.
pub open spec fn book_root(body: Seq<u8>, tree: int) -> int {
    le_u32(body, tree)
}

/// The left child of `node`.
pub open spec fn left_child(body: Seq<u8>, tree: int, node: int) -> int {
    le_u32(body, node_start(tree, node))
}

/// The right child of `node`.
pub open spec fn right_child(body: Seq<u8>, tree: int, node: int) -> int {
    le_u32(body, node_start(tree, node) + 4)
}

/// The resting order that `node` holds, as a level of its own.
pub open spec fn order_at(body: Seq<u8>, tree: int, node: int) -> PriceLevel {
    PriceLevel {
        price_in_ticks: le_u64(body, node_start(tree, node) + ORDER_PRICE_AT) as u64,
        size_in_base_lots: le_u64(body, node_start(tree, node) + ORDER_SIZE_AT) as u64,
    }
}

/// The orders below `node`, left subtree first, or `None` where a link leaves
/// the book's `capacity` nodes or the tree is deeper than `depth`.
pub open spec fn orders_in_order(
    body: Seq<u8>,
    tree: int,
    capacity: int,
    node: int,
    depth: nat,
) -> Option<Seq<PriceLevel>>
    decreases depth,
{
    if node == 0 {
        Some(Seq::empty())
    } else if depth == 0 || node < 0 || node > capacity {
        None
    } else {
        match orders_in_order(body, tree, capacity, left_child(body, tree, node), (depth - 1) as nat) {
            None => None,
            Some(before) => match orders_in_order(
                body,
                tree,
                capacity,
                right_child(body, tree, node),
                (depth - 1) as nat,
            ) {
                None => None,
                Some(after) => Some(before.push(order_at(body, tree, node)) + after),
            },
        }
    }
}

/// The resting orders of the book at `tree`, best first, or `None` where the
/// book's links do not describe a tree of at most `capacity` orders.
pub open spec fn book_orders(body: Seq<u8>, tree: int, capacity: int) -> Option<Seq<PriceLevel>> {
    match orders_in_order(body, tree, capacity, book_root(body, tree), capacity as nat) {
        None => None,
        Some(orders) => if orders.len() <= capacity {
            Some(orders)
        } else {
            None
        },
    }
}

/// The first `n` of `orders` with neighbours of one price merged into one
/// level of their summed size, or `None` where a sum leaves 64 bits.
pub open spec fn merged_levels(orders: Seq<PriceLevel>, n: int) -> Option<Seq<PriceLevel>>
    decreases n,
{
    if n <= 0 {
        Some(Seq::empty())
    } else {
        match merged_levels(orders, n - 1) {
            None => None,
            Some(levels) => {
                let order = orders[n - 1];
                if levels.len() > 0 && levels.last().price_in_ticks == order.price_in_ticks {
                    let size = levels.last().size_in_base_lots + order.size_in_base_lots;
                    if size > u64::MAX {
                        None
                    } else {
                        Some(
                            levels.update(
                                levels.len() - 1,
                                PriceLevel {
                                    price_in_ticks: order.price_in_ticks,
                                    size_in_base_lots: size as u64,
                                },
                            ),
                        )
                    }
                } else {
                    Some(levels.push(order))
                }
            },
        }
    }
}

/// The price levels of the book at `tree`, best first.
pub open spec fn book_levels(body: Seq<u8>, tree: int, capacity: int) -> Option<Seq<PriceLevel>> {
    match book_orders(body, tree, capacity) {
        None => None,
        Some(orders) => merged_levels(orders, orders.len() as int),
    }
}

/// Appends the orders below `node` to `out`, left subtree first. Gives up, and
/// says so, where a link leaves the book, the tree is deeper than `depth`, or
/// `out` would hold more than `capacity` orders.
fn collect_orders(
    body: &[u8],
    tree: usize,
    capacity: usize,
    node: u32,
    depth: usize,
    out: &mut Vec<PriceLevel>,
) -> (complete: bool)
    requires
        capacity <= 4096,
        tree + book_len(capacity as int) <= body.len(),
        old(out)@.len() <= capacity,
    ensures
        final(out)@.len() <= capacity,
        match orders_in_order(body@, tree as int, capacity as int, node as int, depth as nat) {
            Some(orders) => if old(out)@.len() + orders.len() <= capacity {
                complete && final(out)@ == old(out)@ + orders
            } else {
                !complete
            },
            None => !complete,
        },
    decreases depth,
{
    if node == 0 {
        assert(out@ + Seq::<PriceLevel>::empty() =~= out@);
        return true;
    }
    if depth == 0 || node as usize > capacity {
        return false;
    }
    let at: usize = tree + TREE_PRELUDE_LEN + ORDER_NODE_LEN * (node as usize - 1);
    let left: u32 = read_u32(body, at);
    let right: u32 = read_u32(body, at + 4);
    let order = PriceLevel {
        price_in_ticks: read_u64(body, at + ORDER_PRICE_AT),
        size_in_base_lots: read_u64(body, at + ORDER_SIZE_AT),
    };
    let ghost start = out@;
    let ghost before = orders_in_order(
        body@,
        tree as int,
        capacity as int,
        left as int,
        (depth - 1) as nat,
    );
    let ghost after = orders_in_order(
        body@,
        tree as int,
        capacity as int,
        right as int,
        (depth - 1) as nat,
    );
    if !collect_orders(body, tree, capacity, left, depth - 1, out) {
        return false;
    }
    if out.len() >= capacity {
        return false;
    }
    out.push(order);
    let complete = collect_orders(body, tree, capacity, right, depth - 1, out);
    proof {
        if complete {
            assert(out@ =~= start + (before.unwrap().push(order) + after.unwrap()));
        }
    }
    complete
}

/// Merges neighbouring orders of one price into one level of their summed
/// size, or returns `None` where a sum leaves 64 bits.
pub fn merge_levels(orders: &Vec<PriceLevel>) -> (res: Option<Vec<PriceLevel>>)
    ensures
        match res {
            Some(levels) => merged_levels(orders@, orders@.len() as int) == Some(levels@),
            None => merged_levels(orders@, orders@.len() as int) is None,
        },
{
    let mut levels: Vec<PriceLevel> = Vec::new();
    let mut i: usize = 0;
    while i < orders.len()
        invariant
            i <= orders.len(),
            merged_levels(orders@, i as int) == Some(levels@),
        decreases orders.len() - i,
    {
        let order = orders[i];
        let n: usize = levels.len();
        if n > 0 && levels[n - 1].price_in_ticks == order.price_in_ticks {
            match levels[n - 1].size_in_base_lots.checked_add(order.size_in_base_lots) {
                Some(size) => {
                    levels[n - 1] = PriceLevel {
                        price_in_ticks: order.price_in_ticks,
                        size_in_base_lots: size,
                    };
                },
                None => {
                    proof {
                        lemma_merged_levels_stays_none(orders@, i + 1, orders@.len() as int);
                    }
                    return None;
                },
            }
        } else {
            levels.push(order);
        }
        i += 1;
    }
    Some(levels)
}

/// Once a sum has left 64 bits, no longer prefix merges.
proof fn lemma_merged_levels_stays_none(orders: Seq<PriceLevel>, n: int, k: int)
    requires
        0 <= n <= k,
        merged_levels(orders, n) is None,
    ensures
        merged_levels(orders, k) is None,
    decreases k - n,
{
    if n < k {
        lemma_merged_levels_stays_none(orders, n, k - 1);
    }
}

/// The bids and the asks that a body of sizes `params` holds, or `None` where the
/// body is too short, a book's links do not describe a tree within the book, a
/// level's size leaves 64 bits, a level is empty, or a side is out of order.
pub open spec fn decoded_sides(params: MarketSizeParams, body: Seq<u8>) -> Option<
    (Seq<PriceLevel>, Seq<PriceLevel>),
> {
    if body.len() < params.body_len() {
        None
    } else {
        match (
            book_levels(body, params.bids_start(), params.bids_size as int),
            book_levels(body, params.asks_start(), params.asks_size as int),
        ) {
            (Some(bids), Some(asks)) => if ordered_side(bids, true) && ordered_side(asks, false) {
                Some((bids, asks))
            } else {
                None
            },
            _ => None,
        }
    }
}

/// Reads one side of the book: walks the tree at `tree`, merges the orders of
/// one price, and checks the order of the levels.
fn decode_side(body: &[u8], tree: usize, capacity: usize, descending: bool) -> (res: Option<
    Vec<PriceLevel>,
>)
    requires
        capacity <= 4096,
        tree + book_len(capacity as int) <= body.len(),
    ensures
        match res {
            Some(levels) => {
                &&& book_levels(body@, tree as int, capacity as int) == Some(levels@)
                &&& ordered_side(levels@, descending)
            },
            None => match book_levels(body@, tree as int, capacity as int) {
                Some(levels) => !ordered_side(levels, descending),
                None => true,
            },
        },
{
    let root: u32 = read_u32(body, tree);
    let mut orders: Vec<PriceLevel> = Vec::new();
    if !collect_orders(body, tree, capacity, root, capacity, &mut orders) {
        return None;
    }
    assert(orders@ =~= Seq::<PriceLevel>::empty() + orders@);
    let levels = match merge_levels(&orders) {
        Some(levels) => levels,
        None => {
            return None;
        },
    };
    if is_ordered_side(&levels, descending) {
        Some(levels)
    } else {
        None
    }
}

/// Reads the snapshot of the book out of a market body of `layout`: every
/// price level of each side, best first. Nothing is matched and nothing is
/// changed.
pub fn decode_ladder(layout: &MarketLayout, body: &[u8]) -> (res: Result<LadderSnapshot, QuoteError>)
    ensures
        match res {
            Ok(ladder) => {
                &&& decoded_sides(layout.size_params(), body@) == Some((ladder.bids@, ladder.asks@))
                &&& ladder.wf()
                &&& ladder.bids@.len() <= layout.size_params().bids_size
                &&& ladder.asks@.len() <= layout.size_params().asks_size
            },
            Err(e) => e == QuoteError::BodyDecodeError && decoded_sides(
                layout.size_params(),
                body@,
            ) is None,
        },
{
    let params = layout.params();
    if body.len() < layout.market_size() {
        return Err(QuoteError::BodyDecodeError);
    }
    let bids = match decode_side(body, layout.bids_offset(), layout.bids_size(), true) {
        Some(bids) => bids,
        None => {
            return Err(QuoteError::BodyDecodeError);
        },
    };
    let asks = match decode_side(body, layout.asks_offset(), layout.asks_size(), false) {
        Some(asks) => asks,
        None => {
            return Err(QuoteError::BodyDecodeError);
        },
    };
    proof {
        lemma_levels_within_capacity(body@, params.bids_start(), params.bids_size as int);
        lemma_levels_within_capacity(body@, params.asks_start(), params.asks_size as int);
    }
    Ok(LadderSnapshot { bids, asks })
}

/// Merging never makes more levels than there are orders.
proof fn lemma_merged_levels_len(orders: Seq<PriceLevel>, n: int)
    requires
        0 <= n,
    ensures
        merged_levels(orders, n) matches Some(levels) ==> levels.len() <= n,
    decreases n,
{
    if n > 0 {
        lemma_merged_levels_len(orders, n - 1);
    }
}

/// A book of `capacity` orders has at most `capacity` levels.
pub proof fn lemma_levels_within_capacity(body: Seq<u8>, tree: int, capacity: int)
    ensures
        book_levels(body, tree, capacity) matches Some(levels) ==> levels.len() <= capacity,
{
    if let Some(orders) = book_orders(body, tree, capacity) {
        lemma_merged_levels_len(orders, orders.len() as int);
    }
}

/// The taker fee, in basis points, that a market body holds.
pub open spec fn body_taker_fee_bps(body: Seq<u8>) -> int {
    le_u64(body, TAKER_FEE_BPS_AT as int)
}

/// The number of base lots per base unit that a market body holds.
pub open spec fn body_base_lots_per_base_unit(body: Seq<u8>) -> int {
    le_u64(body, BASE_LOTS_PER_BASE_UNIT_AT as int)
}

/// Reads the taker fee, in basis points, out of a market body.
pub(crate) fn read_taker_fee_bps(body: &[u8]) -> (fee: u64)
    requires
        body.len() >= TAKER_FEE_BPS_AT + 8,
    ensures
        fee == body_taker_fee_bps(body@),
{
    read_u64(body, TAKER_FEE_BPS_AT)
}

/// Reads the number of base lots per base unit out of a market body.
pub(crate) fn read_base_lots_per_base_unit(body: &[u8]) -> (lots: u64)
    requires
        body.len() >= BASE_LOTS_PER_BASE_UNIT_AT + 8,
    ensures
        lots == body_base_lots_per_base_unit(body@),
{
    read_u64(body, BASE_LOTS_PER_BASE_UNIT_AT)
}

} // verus!

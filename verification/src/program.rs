//! The programs that a swap touches, and the addresses derived from them.
//!
//! The three functions of this module that call other crates are believed,
//! not proved: each says above its contract what it takes on trust.
use vstd::prelude::*;
use crate::address::Address;

verus! {

/// The address of the Phoenix program, `PhoeNiXZ8ByJGLkxNfZRnkUfjvmuYqLR89jjFHGqdXY`.
pub open spec fn phoenix_program_id_bytes() -> Seq<u8> {
    seq![
        5u8, 208u8, 234u8, 79u8, 51u8, 115u8, 112u8, 19u8, 165u8, 99u8, 224u8, 147u8, 72u8, 237u8,
        182u8, 244u8, 89u8, 61u8, 145u8, 252u8, 118u8, 65u8, 249u8, 36u8, 124u8, 36u8, 65u8, 168u8,
        66u8, 161u8, 187u8, 235u8,
    ]
}

/// The address of the SPL token program, `TokenkegQfeZyiNwAJbNbGKPFXCWuBvf9Ss623VQ5DA`.
pub open spec fn token_program_id_bytes() -> Seq<u8> {
    seq![
        6u8, 221u8, 246u8, 225u8, 215u8, 101u8, 161u8, 147u8, 217u8, 203u8, 225u8, 70u8, 206u8, 235u8,
        121u8, 172u8, 28u8, 180u8, 133u8, 237u8, 95u8, 91u8, 55u8, 145u8, 58u8, 140u8, 245u8, 133u8,
        126u8, 255u8, 0u8, 169u8,
    ]
}

/// The program-derived address that `seeds` and `program_id` give, if there is
/// one: what `Pubkey::try_find_program_address` of `solana_program` returns,
/// without the bump seed.
pub uninterp spec fn program_address_of(seeds: Seq<Seq<u8>>, program_id: Seq<u8>) -> Option<Seq<u8>>;

/// Calls `phoenix::id()`. Trusted: the id that the crate declares is the
/// base-58 address `PhoeNiXZ8ByJGLkxNfZRnkUfjvmuYqLR89jjFHGqdXY`, whose bytes
/// are those of `phoenix_program_id_bytes`.
#[verifier::external_body]
pub(crate) fn phoenix_program_id() -> (id: Address)
    ensures
        id@ == phoenix_program_id_bytes(),
{
    Address { bytes: phoenix::id().to_bytes() }
}

/// Calls `spl_token::id()`. Trusted: the id that the crate declares is the
/// base-58 address `TokenkegQfeZyiNwAJbNbGKPFXCWuBvf9Ss623VQ5DA`, whose bytes
/// are those of `token_program_id_bytes`.
#[verifier::external_body]
pub(crate) fn token_program_id() -> (id: Address)
    ensures
        id@ == token_program_id_bytes(),
{
    Address { bytes: spl_token::id().to_bytes() }
}

/// Calls `Pubkey::try_find_program_address` of `solana_program`. Trusted: the
/// call hashes the seeds, a bump seed and the program id, and returns the
/// first hash that is no curve point, or nothing; it depends on its arguments
/// alone, so its result has the name `program_address_of`.
#[verifier::external_body]
pub(crate) fn find_program_address(seeds: &Vec<Vec<u8>>, program_id: &Address) -> (res: Option<
    Address,
>)
    ensures
        match res {
            Some(address) => program_address_of(seeds.deep_view(), program_id@) == Some(address@),
            None => program_address_of(seeds.deep_view(), program_id@) is None,
        },
{
    let seeds: Vec<&[u8]> = seeds.iter().map(|seed| seed.as_slice()).collect();
    let program_id = solana_program::pubkey::Pubkey::new_from_array(program_id.bytes);
    solana_program::pubkey::Pubkey::try_find_program_address(&seeds, &program_id).map(
        |found| Address { bytes: found.0.to_bytes() },
    )
}

} // verus!

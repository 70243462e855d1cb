//! Addresses that are derived from other addresses.

use super::constants::{ASSOCIATED_TOKEN_PROGRAM_ID, LIFINITY_PROGRAM_ID};
use super::pubkey::Pubkey;
use vstd::prelude::*;

verus! {

/// The address that a program derives from seeds, with the bump seed that
/// led to it, if there is one.
pub uninterp spec fn spec_program_address(seeds: Seq<Seq<u8>>, program_id: Seq<u8>) -> Option<
    (Seq<u8>, u8),
>;

/// The seeds as plain values.
pub open spec fn seed_views(seeds: Seq<Vec<u8>>) -> Seq<Seq<u8>> {
    Seq::new(seeds.len(), |i: int| seeds[i]@)
}

/// Derives the address of a program for the given seeds.
///
/// Calls `solana_sdk::pubkey::Pubkey::try_find_program_address`, which tries
/// the bump seeds from 255 down and gives the first address that is no point
/// of the curve, or `None` where no bump seed leads to one or the seeds are
/// too many or too long. The contract names the result and says no more.
#[verifier::external_body]
fn find_program_address(seeds: &Vec<Vec<u8>>, program_id: &Pubkey) -> (found: Option<(Pubkey, u8)>)
    ensures
        match found {
            Some((address, bump)) => spec_program_address(seed_views(seeds@), program_id.bytes@)
                == Some((address.bytes@, bump)),
            None => spec_program_address(seed_views(seeds@), program_id.bytes@) is None,
        },
{
    let slices: Vec<&[u8]> = seeds.iter().map(|seed| seed.as_slice()).collect();
    let program = solana_sdk::pubkey::Pubkey::new_from_array(program_id.bytes);
    solana_sdk::pubkey::Pubkey::try_find_program_address(&slices, &program).map(
        |(address, bump)| (Pubkey { bytes: address.to_bytes() }, bump),
    )
}

/// The bytes of an address as a list.
pub fn key_bytes(key: &Pubkey) -> (bytes: Vec<u8>)
    ensures
        bytes@ == key.bytes@,
{
    let mut bytes: Vec<u8> = Vec::new();
    let mut at: usize = 0;
    while at < 32
        invariant
            at <= 32,
            bytes@ == key.bytes@.take(at as int),
        decreases 32 - at,
    {
        bytes.push(key.bytes[at]);
        at = at + 1;
        assert(bytes@ =~= key.bytes@.take(at as int));
    }
    assert(key.bytes@.take(32) =~= key.bytes@);
    bytes
}

/// The seeds of the token account that belongs to a wallet and a mint.
pub open spec fn spec_ata_seeds(wallet: Pubkey, mint: Pubkey, token_program: Pubkey) -> Seq<
    Seq<u8>,
> {
    seq![wallet.bytes@, token_program.bytes@, mint.bytes@]
}

/// Derives the address of the token account that belongs to a wallet and a
/// mint under a token program, with its bump seed.
pub fn derive_ata(wallet: &Pubkey, mint: &Pubkey, token_program: &Pubkey) -> (found: Option<
    (Pubkey, u8),
>)
    ensures
        match found {
            Some((address, bump)) => spec_program_address(
                spec_ata_seeds(*wallet, *mint, *token_program),
                ASSOCIATED_TOKEN_PROGRAM_ID@,
            ) == Some((address.bytes@, bump)),
            None => spec_program_address(
                spec_ata_seeds(*wallet, *mint, *token_program),
                ASSOCIATED_TOKEN_PROGRAM_ID@,
            ) is None,
        },
{
    let mut seeds: Vec<Vec<u8>> = Vec::new();
    seeds.push(key_bytes(wallet));
    seeds.push(key_bytes(token_program));
    seeds.push(key_bytes(mint));
    assert(seed_views(seeds@) =~= spec_ata_seeds(*wallet, *mint, *token_program));
    find_program_address(&seeds, &Pubkey { bytes: ASSOCIATED_TOKEN_PROGRAM_ID })
}

/// Derives the address under which the Lifinity program acts for a pool,
/// with its bump seed.
pub fn derive_program_authority(pool: &Pubkey) -> (found: Option<(Pubkey, u8)>)
    ensures
        match found {
            Some((address, bump)) => spec_program_address(seq![pool.bytes@], LIFINITY_PROGRAM_ID@)
                == Some((address.bytes@, bump)),
            None => spec_program_address(seq![pool.bytes@], LIFINITY_PROGRAM_ID@) is None,
        },
{
    let mut seeds: Vec<Vec<u8>> = Vec::new();
    seeds.push(key_bytes(pool));
    assert(seed_views(seeds@) =~= seq![pool.bytes@]);
    find_program_address(&seeds, &Pubkey { bytes: LIFINITY_PROGRAM_ID })
}

} // verus!

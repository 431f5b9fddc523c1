//! Deterministic address derivation.
//!
//! Every account this system touches sits at an address derived from an
//! ordered sequence of seed byte-strings and a deriving program id.  The
//! derivation itself is the host's: a hash-based search, downward from
//! disambiguation byte 255, for an address with no private signing key.  It
//! is named [`pda_of`] and performed by the trusted wrapper around the host
//! primitive; everything layered on it here is verified.

use vstd::prelude::*;
use crate::addr::{
    Addr, addr_bytes, seed_auth_bytes, seed_bitty_mint_bytes, seed_collections_bytes,
    seed_config_bytes, seed_edition_bytes, seed_metadata_bytes, seed_auth, seed_bitty_mint,
    seed_collections, seed_config, seed_edition, seed_metadata, u32_le, u32_le_bytes,
};
use crate::records::{ErrCode, TxError};

verus! {

/// What the host's derivation primitive returns for a seed sequence and a
/// deriving program id: an address and its disambiguation byte, or nothing
/// when no byte yields a usable address.  A function of its arguments alone.
pub uninterp spec fn pda_of(seeds: Seq<Seq<u8>>, program_id: Seq<u8>) -> Option<(Seq<u8>, u8)>;

/// The derivation result `r` reproduces the mathematical derivation `s`.
pub open spec fn derives(r: Option<(Addr, u8)>, s: Option<(Seq<u8>, u8)>) -> bool {
    match r {
        Some(p) => s == Some((p.0@, p.1)),
        None => s is None,
    }
}

/// Relies on `solana_program::pubkey::Pubkey::try_find_program_address`
/// (solana-address `syscalls.rs`): a deterministic function of the seed
/// byte-strings and the program id — a sha-256 based search downward from
/// bump 255 — returning `None` when no bump yields an off-curve address or
/// when the seeds exceed the host's count or length limits.
#[verifier::external_body]
fn try_find_pda(seeds: &Vec<Vec<u8>>, program_id: &Addr) -> (r: Option<(Addr, u8)>)
    ensures
        derives(r, pda_of(seeds.deep_view(), program_id@)),
{
    let seed_refs: Vec<&[u8]> = seeds.iter().map(|s| s.as_slice()).collect();
    let pk = solana_program::pubkey::Pubkey::new_from_array(*program_id);
    solana_program::pubkey::Pubkey::try_find_program_address(&seed_refs, &pk)
        .map(|(a, b)| (a.to_bytes(), b))
}

/// The fixed address of the external metadata service's program.
pub open spec fn mpl_program_id() -> Seq<u8> {
    seq![
        11u8, 112u8, 101u8, 177u8, 227u8, 209u8, 124u8, 69u8, 56u8, 157u8, 82u8, 127u8, 107u8,
        4u8, 195u8, 205u8, 88u8, 184u8, 108u8, 115u8, 26u8, 160u8, 253u8, 181u8, 73u8, 182u8,
        209u8, 188u8, 3u8, 248u8, 41u8, 70u8,
    ]
}

/// The fixed address of the external token service's program.
pub open spec fn token_program_id() -> Seq<u8> {
    seq![
        6u8, 221u8, 246u8, 225u8, 215u8, 101u8, 161u8, 147u8, 217u8, 203u8, 225u8, 70u8, 206u8,
        235u8, 121u8, 172u8, 28u8, 180u8, 133u8, 237u8, 95u8, 91u8, 55u8, 145u8, 58u8, 140u8,
        245u8, 133u8, 126u8, 255u8, 0u8, 169u8,
    ]
}

/// The fixed address of the external associated-account service's program.
pub open spec fn ata_program_id() -> Seq<u8> {
    seq![
        140u8, 151u8, 37u8, 143u8, 78u8, 36u8, 137u8, 241u8, 187u8, 61u8, 16u8, 41u8, 20u8,
        142u8, 13u8, 131u8, 11u8, 90u8, 19u8, 153u8, 218u8, 255u8, 16u8, 132u8, 4u8, 142u8,
        123u8, 216u8, 219u8, 233u8, 248u8, 89u8,
    ]
}

/// Relies on `mpl_token_metadata::ID`: the metadata service's program
/// address, the base58 constant `metaqbxxUerdq28cj1RbAWkYQm3ybzjb6a8bt518x1s`
/// declared in its `generated/programs.rs`.
#[verifier::external_body]
fn mpl_program_id_fetch() -> (r: Addr)
    ensures
        r@ == mpl_program_id(),
{
    mpl_token_metadata::ID.to_bytes()
}

/// Relies on `anchor_spl::token::ID`: the token service's program address,
/// the base58 constant `TokenkegQfeZyiNwAJbNbGKPFXCWuBvf9Ss623VQ5DA`.
#[verifier::external_body]
fn token_program_id_fetch() -> (r: Addr)
    ensures
        r@ == token_program_id(),
{
    anchor_spl::token::ID.to_bytes()
}

/// Relies on `spl_associated_token_account::ID`: the associated-account
/// service's program address, the base58 constant
/// `ATokenGPvbdGVxr1b2hvZbsiqW5xWH25efTNsLJA8knL`.
#[verifier::external_body]
fn ata_program_id_fetch() -> (r: Addr)
    ensures
        r@ == ata_program_id(),
{
    spl_associated_token_account::ID.to_bytes()
}

/// The metadata service's program address, as raw bytes.
pub fn metadata_program_address() -> (r: Addr)
    ensures
        r@ == mpl_program_id(),
{
    mpl_program_id_fetch()
}

/// The token service's program address, as raw bytes.
pub fn token_program_address() -> (r: Addr)
    ensures
        r@ == token_program_id(),
{
    token_program_id_fetch()
}

/// The associated-account service's program address, as raw bytes.
pub fn ata_program_address() -> (r: Addr)
    ensures
        r@ == ata_program_id(),
{
    ata_program_id_fetch()
}

/// Seeds of the Configuration singleton.
pub open spec fn config_seeds() -> Seq<Seq<u8>> {
    seq![seed_config()]
}

/// The Authority Signer's full signing seed sequence: its derivation seeds
/// followed by the cached disambiguation byte.  Re-supplying exactly this
/// sequence to the host's signing-authorization primitive is what lets the
/// program sign as the Authority Signer without any private key; the host
/// rejects any sequence that does not re-derive the same address.
pub open spec fn auth_signer_seeds(config_addr: Seq<u8>, auth_bump: u8) -> Seq<Seq<u8>> {
    auth_seeds(config_addr).push(seq![auth_bump])
}

/// Builds the Authority Signer's signing seed sequence for seed replay.
pub fn authority_signer_seeds(config_addr: &Addr, auth_bump: u8) -> (r: Vec<Vec<u8>>)
    ensures
        r.deep_view() == auth_signer_seeds(config_addr@, auth_bump),
{
    let mut r: Vec<Vec<u8>> = Vec::new();
    r.push(seed_auth_bytes());
    r.push(addr_bytes(config_addr));
    let bump: Vec<u8> = vec![auth_bump];
    r.push(bump);
    proof {
        assert(r.deep_view() =~~= auth_signer_seeds(config_addr@, auth_bump));
    }
    r
}

/// Seeds of the Authority Signer.
pub open spec fn auth_seeds(config_addr: Seq<u8>) -> Seq<Seq<u8>> {
    seq![seed_auth(), config_addr]
}

/// Seeds of the collection token mint with the given index.
pub open spec fn collection_seeds(config_addr: Seq<u8>, index: u32) -> Seq<Seq<u8>> {
    seq![seed_collections(), config_addr, u32_le(index)]
}

/// Seeds of the item token mint of one `(payer, id)` pair.
pub open spec fn item_seeds(config_addr: Seq<u8>, payer: Seq<u8>, id: u32) -> Seq<Seq<u8>> {
    seq![seed_bitty_mint(), config_addr, payer, u32_le(id)]
}

/// Seeds of the metadata record of a mint, under the metadata service's own
/// fixed scheme.
pub open spec fn metadata_seeds(mint: Seq<u8>) -> Seq<Seq<u8>> {
    seq![seed_metadata(), mpl_program_id(), mint]
}

/// Seeds of the master-edition record of a mint, under the metadata
/// service's own fixed scheme.
pub open spec fn edition_seeds(mint: Seq<u8>) -> Seq<Seq<u8>> {
    seq![seed_metadata(), mpl_program_id(), mint, seed_edition()]
}

/// Seeds of the holding account of one owner and one mint, under the
/// associated-account service's own fixed scheme.
pub open spec fn ata_seeds(owner: Seq<u8>, mint: Seq<u8>) -> Seq<Seq<u8>> {
    seq![owner, token_program_id(), mint]
}

pub open spec fn spec_config_pda(program_id: Seq<u8>) -> Option<(Seq<u8>, u8)> {
    pda_of(config_seeds(), program_id)
}

pub open spec fn spec_auth_pda(program_id: Seq<u8>, config_addr: Seq<u8>) -> Option<
    (Seq<u8>, u8),
> {
    pda_of(auth_seeds(config_addr), program_id)
}

pub open spec fn spec_collection_pda(program_id: Seq<u8>, config_addr: Seq<u8>, index: u32) -> Option<
    (Seq<u8>, u8),
> {
    pda_of(collection_seeds(config_addr, index), program_id)
}

pub open spec fn spec_item_pda(
    program_id: Seq<u8>,
    config_addr: Seq<u8>,
    payer: Seq<u8>,
    id: u32,
) -> Option<(Seq<u8>, u8)> {
    pda_of(item_seeds(config_addr, payer, id), program_id)
}

pub open spec fn spec_metadata_pda(mint: Seq<u8>) -> Option<(Seq<u8>, u8)> {
    pda_of(metadata_seeds(mint), mpl_program_id())
}

pub open spec fn spec_edition_pda(mint: Seq<u8>) -> Option<(Seq<u8>, u8)> {
    pda_of(edition_seeds(mint), mpl_program_id())
}

pub open spec fn spec_ata_pda(owner: Seq<u8>, mint: Seq<u8>) -> Option<(Seq<u8>, u8)> {
    pda_of(ata_seeds(owner, mint), ata_program_id())
}

/// Derives the Configuration singleton's address and bump.
pub fn config_address(program_id: &Addr) -> (r: Option<(Addr, u8)>)
    ensures
        derives(r, spec_config_pda(program_id@)),
{
    let mut seeds: Vec<Vec<u8>> = Vec::new();
    seeds.push(seed_config_bytes());
    proof {
        assert(seeds.deep_view() =~~= config_seeds());
    }
    try_find_pda(&seeds, program_id)
}

/// Derives the Authority Signer's address and bump.
pub fn authority_address(program_id: &Addr, config_addr: &Addr) -> (r: Option<(Addr, u8)>)
    ensures
        derives(r, spec_auth_pda(program_id@, config_addr@)),
{
    let mut seeds: Vec<Vec<u8>> = Vec::new();
    seeds.push(seed_auth_bytes());
    seeds.push(addr_bytes(config_addr));
    proof {
        assert(seeds.deep_view() =~~= auth_seeds(config_addr@));
    }
    try_find_pda(&seeds, program_id)
}

/// Derives the address and bump of the collection token mint with the given
/// index; the index must lie below the fixed cap of 3.
pub fn collection_mint_address(program_id: &Addr, config_addr: &Addr, index: u32) -> (r: Result<
    (Addr, u8),
    TxError,
>)
    ensures
        index >= 3 ==> r == Err::<(Addr, u8), TxError>(TxError::Program(ErrCode::IndexOutOfBounds)),
        index < 3 ==> match r {
            Ok(p) => spec_collection_pda(program_id@, config_addr@, index) == Some((p.0@, p.1)),
            Err(e) => e == TxError::SeedsExhausted && spec_collection_pda(
                program_id@,
                config_addr@,
                index,
            ) is None,
        },
{
    if index >= 3 {
        return Err(TxError::Program(ErrCode::IndexOutOfBounds));
    }
    let mut seeds: Vec<Vec<u8>> = Vec::new();
    seeds.push(seed_collections_bytes());
    seeds.push(addr_bytes(config_addr));
    seeds.push(u32_le_bytes(index));
    proof {
        assert(seeds.deep_view() =~~= collection_seeds(config_addr@, index));
    }
    match try_find_pda(&seeds, program_id) {
        Some(p) => Ok(p),
        None => Err(TxError::SeedsExhausted),
    }
}

/// Derives the address and bump of the item token mint of one `(payer, id)`
/// pair.
pub fn item_mint_address(program_id: &Addr, config_addr: &Addr, payer: &Addr, id: u32) -> (r:
    Option<(Addr, u8)>)
    ensures
        derives(r, spec_item_pda(program_id@, config_addr@, payer@, id)),
{
    let mut seeds: Vec<Vec<u8>> = Vec::new();
    seeds.push(seed_bitty_mint_bytes());
    seeds.push(addr_bytes(config_addr));
    seeds.push(addr_bytes(payer));
    seeds.push(u32_le_bytes(id));
    proof {
        assert(seeds.deep_view() =~~= item_seeds(config_addr@, payer@, id));
    }
    try_find_pda(&seeds, program_id)
}

/// Reproduces the metadata service's derivation of the metadata record
/// address of a mint.
pub fn metadata_address(mint: &Addr) -> (r: Option<(Addr, u8)>)
    ensures
        derives(r, spec_metadata_pda(mint@)),
{
    let mpl = mpl_program_id_fetch();
    let mut seeds: Vec<Vec<u8>> = Vec::new();
    seeds.push(seed_metadata_bytes());
    seeds.push(addr_bytes(&mpl));
    seeds.push(addr_bytes(mint));
    proof {
        assert(seeds.deep_view() =~~= metadata_seeds(mint@));
    }
    try_find_pda(&seeds, &mpl)
}

/// Reproduces the metadata service's derivation of the master-edition record
/// address of a mint.
pub fn edition_address(mint: &Addr) -> (r: Option<(Addr, u8)>)
    ensures
        derives(r, spec_edition_pda(mint@)),
{
    let mpl = mpl_program_id_fetch();
    let mut seeds: Vec<Vec<u8>> = Vec::new();
    seeds.push(seed_metadata_bytes());
    seeds.push(addr_bytes(&mpl));
    seeds.push(addr_bytes(mint));
    seeds.push(seed_edition_bytes());
    proof {
        assert(seeds.deep_view() =~~= edition_seeds(mint@));
    }
    try_find_pda(&seeds, &mpl)
}

/// Reproduces the associated-account service's derivation of the holding
/// account address of one owner and one mint.
pub fn ata_address(owner: &Addr, mint: &Addr) -> (r: Option<(Addr, u8)>)
    ensures
        derives(r, spec_ata_pda(owner@, mint@)),
{
    let ata_prog = ata_program_id_fetch();
    let tok = token_program_id_fetch();
    let mut seeds: Vec<Vec<u8>> = Vec::new();
    seeds.push(addr_bytes(owner));
    seeds.push(addr_bytes(&tok));
    seeds.push(addr_bytes(mint));
    proof {
        assert(seeds.deep_view() =~~= ata_seeds(owner@, mint@));
    }
    try_find_pda(&seeds, &ata_prog)
}

} // verus!

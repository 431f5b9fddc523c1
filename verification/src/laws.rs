//! The laws of the system, stated over the mathematical model and proved
//! once and for all.  The procedures' own contracts tie the executable code
//! to [`spec_create_collection`] and [`spec_mint_bitty`], so each law below
//! carries over to every run of the code.

use vstd::prelude::*;
use crate::ledger::{
    LedgerView, ata_can_receive, ata_matches, auth_addr, inv_view, spec_create_collection,
    spec_mint_bitty,
};
use crate::pda::{
    spec_ata_pda, spec_collection_pda, spec_edition_pda, spec_item_pda, spec_metadata_pda,
};
use crate::records::{
    CreatorView, EditionView, ErrCode, HostAcceptance, MintView, TxError,
    spec_collection_metadata,
};

verus! {

/// Law: once three collections exist, a further creation fails with
/// `NoCollectionMint` — and, by the procedure's contract, changes nothing.
pub proof fn lemma_collection_cap(
    v: LedgerView,
    name: Seq<char>,
    symbol: Seq<char>,
    uri: Seq<char>,
    host: HostAcceptance,
)
    requires
        v.config.counter >= 3,
    ensures
        spec_create_collection(v, name, symbol, uri, host) == Err::<
            (LedgerView, Seq<u8>),
            TxError,
        >(TxError::Program(ErrCode::NoCollectionMint)),
{
}

/// Law: while fewer than three collections exist, creation succeeds whenever
/// every derivation is usable, the derived accounts are fresh, the holding
/// account is compatible and the services accept; it produces the collection
/// token at the address derived from the current counter value and advances
/// the counter by exactly one — so two consecutive creations can never
/// target the same index.
pub proof fn lemma_collection_creation_succeeds(
    v: LedgerView,
    name: Seq<char>,
    symbol: Seq<char>,
    uri: Seq<char>,
    host: HostAcceptance,
)
    requires
        inv_view(v),
        v.config.counter < 3,
        host.mint_step && host.metadata_step && host.edition_step,
        spec_collection_pda(v.program_id, v.config_addr, v.config.counter) is Some,
        ({
            let mint = spec_collection_pda(v.program_id, v.config_addr, v.config.counter).unwrap().0;
            &&& spec_ata_pda(auth_addr(v), mint) is Some
            &&& spec_metadata_pda(mint) is Some
            &&& spec_edition_pda(mint) is Some
            &&& !v.mints.contains_key(mint)
            &&& !v.metadata.contains_key(spec_metadata_pda(mint).unwrap().0)
            &&& !v.editions.contains_key(spec_edition_pda(mint).unwrap().0)
            &&& ata_matches(v, spec_ata_pda(auth_addr(v), mint).unwrap().0, mint, auth_addr(v))
            &&& ata_can_receive(v, spec_ata_pda(auth_addr(v), mint).unwrap().0)
        }),
    ensures
        ({
            let mint = spec_collection_pda(v.program_id, v.config_addr, v.config.counter).unwrap().0;
            let r = spec_create_collection(v, name, symbol, uri, host);
            &&& r is Ok
            &&& r.unwrap().1 == mint
            &&& r.unwrap().0.config.counter == v.config.counter + 1
            &&& r.unwrap().0.mints.contains_key(mint)
            &&& r.unwrap().0.mints[mint] == (MintView {
                decimals: 0,
                authority: auth_addr(v),
                supply: 1,
            })
            &&& r.unwrap().0.metadata[spec_metadata_pda(mint).unwrap().0]
                == spec_collection_metadata(name, symbol, uri, auth_addr(v))
            &&& r.unwrap().0.editions[spec_edition_pda(mint).unwrap().0] == (EditionView {
                max_supply: Some(0),
            })
        }),
{
}

/// Law: an item mint for a `(payer, id)` pair not previously used succeeds
/// whenever the Box collection exists, every derivation is usable, the
/// derived accounts are fresh and the services accept; it produces exactly
/// one item token, held by the payer, whose metadata references the Box
/// collection unverified and whose master edition caps the supply at 1; the
/// counter is untouched.
pub proof fn lemma_mint_bitty_succeeds(
    v: LedgerView,
    payer: Seq<u8>,
    id: u32,
    name: Seq<char>,
    symbol: Seq<char>,
    uri: Seq<char>,
    host: HostAcceptance,
)
    requires
        inv_view(v),
        host.mint_step && host.metadata_step && host.edition_step,
        spec_collection_pda(v.program_id, v.config_addr, 0) is Some,
        v.mints.contains_key(spec_collection_pda(v.program_id, v.config_addr, 0).unwrap().0),
        spec_item_pda(v.program_id, v.config_addr, payer, id) is Some,
        ({
            let mint = spec_item_pda(v.program_id, v.config_addr, payer, id).unwrap().0;
            &&& spec_ata_pda(payer, mint) is Some
            &&& spec_metadata_pda(mint) is Some
            &&& spec_edition_pda(mint) is Some
            &&& !v.mints.contains_key(mint)
            &&& !v.metadata.contains_key(spec_metadata_pda(mint).unwrap().0)
            &&& !v.editions.contains_key(spec_edition_pda(mint).unwrap().0)
            &&& ata_matches(v, spec_ata_pda(payer, mint).unwrap().0, mint, payer)
            &&& ata_can_receive(v, spec_ata_pda(payer, mint).unwrap().0)
        }),
    ensures
        ({
            let box_mint = spec_collection_pda(v.program_id, v.config_addr, 0).unwrap().0;
            let mint = spec_item_pda(v.program_id, v.config_addr, payer, id).unwrap().0;
            let ata = spec_ata_pda(payer, mint).unwrap().0;
            let r = spec_mint_bitty(v, payer, id, name, symbol, uri, host);
            &&& r is Ok
            &&& r.unwrap().1 == mint
            &&& r.unwrap().0.config == v.config
            &&& r.unwrap().0.mints.contains_key(mint)
            &&& r.unwrap().0.token_accounts.contains_key(ata)
            &&& r.unwrap().0.token_accounts[ata].owner == payer
            &&& r.unwrap().0.token_accounts[ata].mint == mint
            &&& r.unwrap().0.metadata[spec_metadata_pda(mint).unwrap().0].collection matches Some(
                c,
            ) && c.key == box_mint && !c.verified
            &&& r.unwrap().0.editions[spec_edition_pda(mint).unwrap().0] == (EditionView {
                max_supply: Some(1),
            })
        }),
{
}

/// Law: re-using an already-used `(payer, id)` pair fails with an address
/// collision — the derived item address already holds a mint record — and,
/// by the procedure's contract, leaves the prior state unchanged.
pub proof fn lemma_mint_bitty_reuse_fails(
    v: LedgerView,
    payer: Seq<u8>,
    id: u32,
    name: Seq<char>,
    symbol: Seq<char>,
    uri: Seq<char>,
    host: HostAcceptance,
)
    requires
        spec_collection_pda(v.program_id, v.config_addr, 0) is Some,
        v.mints.contains_key(spec_collection_pda(v.program_id, v.config_addr, 0).unwrap().0),
        spec_item_pda(v.program_id, v.config_addr, payer, id) is Some,
        v.mints.contains_key(spec_item_pda(v.program_id, v.config_addr, payer, id).unwrap().0),
    ensures
        spec_mint_bitty(v, payer, id, name, symbol, uri, host) is Err,
        ({
            let mint = spec_item_pda(v.program_id, v.config_addr, payer, id).unwrap().0;
            spec_ata_pda(payer, mint) is Some && spec_metadata_pda(mint) is Some
                && spec_edition_pda(mint) is Some
        }) ==> spec_mint_bitty(v, payer, id, name, symbol, uri, host) == Err::<
            (LedgerView, Seq<u8>),
            TxError,
        >(TxError::AccountInUse),
{
}

/// Law: if the metadata-attachment step is refused, both procedures fail as
/// a whole — and, by their contracts, without any state change: no token is
/// minted, no holding-account balance moves, no metadata or edition record
/// is left behind.
pub proof fn lemma_atomic_on_metadata_refusal(
    v: LedgerView,
    payer: Seq<u8>,
    id: u32,
    name: Seq<char>,
    symbol: Seq<char>,
    uri: Seq<char>,
    host: HostAcceptance,
)
    requires
        !host.metadata_step,
    ensures
        spec_create_collection(v, name, symbol, uri, host) is Err,
        spec_mint_bitty(v, payer, id, name, symbol, uri, host) is Err,
{
}

/// Law: in every well-formed ledger, each metadata record carries royalty 0
/// and exactly one creator — the Authority Signer, marked verified, with a
/// 100% share.
pub proof fn lemma_royalty_free_single_creator(v: LedgerView, k: Seq<u8>)
    requires
        inv_view(v),
        v.metadata.contains_key(k),
    ensures
        v.metadata[k].seller_fee_basis_points == 0,
        v.metadata[k].creators.len() == 1,
        v.metadata[k].creators[0] == (CreatorView {
            address: auth_addr(v),
            verified: true,
            share: 100,
        }),
{
}

/// Law: the addresses the procedures act on are exactly the off-chain
/// derivations — a successful creation returns the collection address of
/// the current counter value, a successful item mint the item address of
/// its `(payer, id)` pair.  Together with the derivation functions'
/// contracts, recomputing any address from the same seeds yields what the
/// procedures used internally.
pub proof fn lemma_procedure_addresses_derived(
    v: LedgerView,
    payer: Seq<u8>,
    id: u32,
    name: Seq<char>,
    symbol: Seq<char>,
    uri: Seq<char>,
    host: HostAcceptance,
)
    ensures
        spec_create_collection(v, name, symbol, uri, host) matches Ok(p) ==> p.1
            == spec_collection_pda(v.program_id, v.config_addr, v.config.counter).unwrap().0,
        spec_mint_bitty(v, payer, id, name, symbol, uri, host) matches Ok(p) ==> p.1
            == spec_item_pda(v.program_id, v.config_addr, payer, id).unwrap().0,
{
}

} // verus!

//! Stateless account resolution.
//!
//! A caller submits a transaction together with every account it touches, so
//! it must compute all of them off-chain first.  Each procedure has a struct
//! naming its accounts, and a resolver that derives every address from plain
//! inputs — the same derivations the procedures themselves are specified
//! over, which is what makes the whole scheme reproducible off-chain.

use vstd::prelude::*;
use crate::addr::Addr;
use crate::pda::{
    ata_address, authority_address, collection_mint_address, config_address, edition_address,
    item_mint_address, metadata_address, metadata_program_address, mpl_program_id, spec_ata_pda,
    spec_auth_pda, spec_collection_pda, spec_config_pda, spec_edition_pda, spec_item_pda,
    spec_metadata_pda,
};
use crate::records::{ErrCode, TxError};

verus! {

/// The accounts of one collection-creation transaction.
#[derive(Debug)]
pub struct CreateCollectionNft {
    pub payer: Addr,
    pub config: Addr,
    pub authority_pda: Addr,
    pub collection_mint: Addr,
    pub token_account: Addr,
    pub collection_metadata: Addr,
    pub master_edition: Addr,
    pub metadata_program: Addr,
}

/// The accounts of one item-minting transaction.
#[derive(Debug)]
pub struct MintBitty {
    pub payer: Addr,
    pub config: Addr,
    pub authority_pda: Addr,
    pub mint: Addr,
    pub token_account: Addr,
    pub nft_metadata: Addr,
    pub master_edition: Addr,
    pub collection_mint: Addr,
    pub collection_metadata: Addr,
    pub collection_master_edition: Addr,
    pub metadata_program: Addr,
}

/// Every derivation a collection-creation transaction needs has a usable
/// disambiguation byte.
pub open spec fn spec_collection_accounts_ok(pid: Seq<u8>, index: u32) -> bool {
    let c = spec_config_pda(pid);
    c is Some && {
        let cfg = c.unwrap().0;
        spec_auth_pda(pid, cfg) is Some && spec_collection_pda(pid, cfg, index) is Some && {
            let mint = spec_collection_pda(pid, cfg, index).unwrap().0;
            spec_ata_pda(spec_auth_pda(pid, cfg).unwrap().0, mint) is Some && spec_metadata_pda(
                mint,
            ) is Some && spec_edition_pda(mint) is Some
        }
    }
}

/// Every derivation an item-minting transaction needs has a usable
/// disambiguation byte.
pub open spec fn spec_item_accounts_ok(pid: Seq<u8>, payer: Seq<u8>, id: u32) -> bool {
    let c = spec_config_pda(pid);
    c is Some && {
        let cfg = c.unwrap().0;
        spec_auth_pda(pid, cfg) is Some && spec_collection_pda(pid, cfg, 0) is Some
            && spec_item_pda(pid, cfg, payer, id) is Some && {
            let box_mint = spec_collection_pda(pid, cfg, 0).unwrap().0;
            let mint = spec_item_pda(pid, cfg, payer, id).unwrap().0;
            spec_ata_pda(payer, mint) is Some && spec_metadata_pda(mint) is Some
                && spec_edition_pda(mint) is Some && spec_metadata_pda(box_mint) is Some
                && spec_edition_pda(box_mint) is Some
        }
    }
}

/// Recomputes, off-chain, every account of the collection-creation
/// transaction that targets the given collection index.
pub fn resolve_create_collection_nft(program_id: &Addr, payer: &Addr, index: u32) -> (r: Result<
    CreateCollectionNft,
    TxError,
>)
    ensures
        index >= 3 ==> r is Err && r.unwrap_err() == TxError::Program(ErrCode::IndexOutOfBounds),
        index < 3 ==> (r is Ok <==> spec_collection_accounts_ok(program_id@, index)),
        index < 3 && r is Err ==> r.unwrap_err() == TxError::SeedsExhausted,
        r matches Ok(a) ==> {
            let pid = program_id@;
            &&& a.payer@ == payer@
            &&& spec_config_pda(pid) == Some((a.config@, spec_config_pda(pid).unwrap().1))
            &&& spec_auth_pda(pid, a.config@) == Some(
                (a.authority_pda@, spec_auth_pda(pid, a.config@).unwrap().1),
            )
            &&& spec_collection_pda(pid, a.config@, index) == Some(
                (a.collection_mint@, spec_collection_pda(pid, a.config@, index).unwrap().1),
            )
            &&& spec_ata_pda(a.authority_pda@, a.collection_mint@).unwrap().0 == a.token_account@
            &&& spec_metadata_pda(a.collection_mint@).unwrap().0 == a.collection_metadata@
            &&& spec_edition_pda(a.collection_mint@).unwrap().0 == a.master_edition@
            &&& a.metadata_program@ == mpl_program_id()
        },
{
    if index >= 3 {
        return Err(TxError::Program(ErrCode::IndexOutOfBounds));
    }
    let cfg = match config_address(program_id) {
        Some(p) => p,
        None => {
            return Err(TxError::SeedsExhausted);
        },
    };
    let auth = match authority_address(program_id, &cfg.0) {
        Some(p) => p,
        None => {
            return Err(TxError::SeedsExhausted);
        },
    };
    let mint = match collection_mint_address(program_id, &cfg.0, index) {
        Ok(p) => p,
        Err(e) => {
            return Err(e);
        },
    };
    let ata = match ata_address(&auth.0, &mint.0) {
        Some(p) => p,
        None => {
            return Err(TxError::SeedsExhausted);
        },
    };
    let md = match metadata_address(&mint.0) {
        Some(p) => p,
        None => {
            return Err(TxError::SeedsExhausted);
        },
    };
    let ed = match edition_address(&mint.0) {
        Some(p) => p,
        None => {
            return Err(TxError::SeedsExhausted);
        },
    };
    Ok(CreateCollectionNft {
        payer: *payer,
        config: cfg.0,
        authority_pda: auth.0,
        collection_mint: mint.0,
        token_account: ata.0,
        collection_metadata: md.0,
        master_edition: ed.0,
        metadata_program: metadata_program_address(),
    })
}

/// Recomputes, off-chain, every account of the item-minting transaction of
/// one `(payer, id)` pair, the Box collection's accounts included.
pub fn resolve_mint_bitty(program_id: &Addr, payer: &Addr, id: u32) -> (r: Result<
    MintBitty,
    TxError,
>)
    ensures
        r is Ok <==> spec_item_accounts_ok(program_id@, payer@, id),
        r is Err ==> r.unwrap_err() == TxError::SeedsExhausted,
        r matches Ok(a) ==> {
            let pid = program_id@;
            &&& a.payer@ == payer@
            &&& spec_config_pda(pid) == Some((a.config@, spec_config_pda(pid).unwrap().1))
            &&& spec_auth_pda(pid, a.config@) == Some(
                (a.authority_pda@, spec_auth_pda(pid, a.config@).unwrap().1),
            )
            &&& spec_item_pda(pid, a.config@, payer@, id) == Some(
                (a.mint@, spec_item_pda(pid, a.config@, payer@, id).unwrap().1),
            )
            &&& spec_ata_pda(payer@, a.mint@).unwrap().0 == a.token_account@
            &&& spec_metadata_pda(a.mint@).unwrap().0 == a.nft_metadata@
            &&& spec_edition_pda(a.mint@).unwrap().0 == a.master_edition@
            &&& spec_collection_pda(pid, a.config@, 0).unwrap().0 == a.collection_mint@
            &&& spec_metadata_pda(a.collection_mint@).unwrap().0 == a.collection_metadata@
            &&& spec_edition_pda(a.collection_mint@).unwrap().0 == a.collection_master_edition@
            &&& a.metadata_program@ == mpl_program_id()
        },
{
    let cfg = match config_address(program_id) {
        Some(p) => p,
        None => {
            return Err(TxError::SeedsExhausted);
        },
    };
    let auth = match authority_address(program_id, &cfg.0) {
        Some(p) => p,
        None => {
            return Err(TxError::SeedsExhausted);
        },
    };
    let box_mint = match collection_mint_address(program_id, &cfg.0, 0) {
        Ok(p) => p,
        Err(e) => {
            return Err(e);
        },
    };
    let mint = match item_mint_address(program_id, &cfg.0, payer, id) {
        Some(p) => p,
        None => {
            return Err(TxError::SeedsExhausted);
        },
    };
    let ata = match ata_address(payer, &mint.0) {
        Some(p) => p,
        None => {
            return Err(TxError::SeedsExhausted);
        },
    };
    let md = match metadata_address(&mint.0) {
        Some(p) => p,
        None => {
            return Err(TxError::SeedsExhausted);
        },
    };
    let ed = match edition_address(&mint.0) {
        Some(p) => p,
        None => {
            return Err(TxError::SeedsExhausted);
        },
    };
    let box_md = match metadata_address(&box_mint.0) {
        Some(p) => p,
        None => {
            return Err(TxError::SeedsExhausted);
        },
    };
    let box_ed = match edition_address(&box_mint.0) {
        Some(p) => p,
        None => {
            return Err(TxError::SeedsExhausted);
        },
    };
    Ok(MintBitty {
        payer: *payer,
        config: cfg.0,
        authority_pda: auth.0,
        mint: mint.0,
        token_account: ata.0,
        nft_metadata: md.0,
        master_edition: ed.0,
        collection_mint: box_mint.0,
        collection_metadata: box_md.0,
        collection_master_edition: box_ed.0,
        metadata_program: metadata_program_address(),
    })
}

} // verus!

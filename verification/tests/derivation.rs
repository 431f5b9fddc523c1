//! Address-derivation checks: determinism, agreement with the host's own
//! derivation primitive, and agreement with the external services' crates.

use bitty::accounts::{resolve_create_collection_nft, resolve_mint_bitty};
use bitty::pda::{
    ata_address, ata_program_address, authority_address, collection_mint_address, config_address,
    edition_address, item_mint_address, metadata_address, metadata_program_address,
    token_program_address,
};
use bitty::records::{ErrCode, TxError};
use solana_program::pubkey::Pubkey;

const PID: [u8; 32] = [7u8; 32];

#[test]
fn test_program_ids_match_crates() {
    assert_eq!(metadata_program_address(), mpl_token_metadata::ID.to_bytes());
    assert_eq!(token_program_address(), anchor_spl::token::ID.to_bytes());
    assert_eq!(ata_program_address(), spl_associated_token_account::ID.to_bytes());
}

#[test]
fn test_config_address_matches_host() {
    let ours = config_address(&PID).unwrap();
    let (theirs, bump) = Pubkey::find_program_address(&[b"config"], &Pubkey::new_from_array(PID));
    assert_eq!(ours.0, theirs.to_bytes());
    assert_eq!(ours.1, bump);
}

#[test]
fn test_authority_address_matches_host() {
    let cfg = config_address(&PID).unwrap();
    let ours = authority_address(&PID, &cfg.0).unwrap();
    let (theirs, bump) = Pubkey::find_program_address(
        &[b"auth", cfg.0.as_ref()],
        &Pubkey::new_from_array(PID),
    );
    assert_eq!(ours.0, theirs.to_bytes());
    assert_eq!(ours.1, bump);
}

#[test]
fn test_collection_address_matches_host() {
    let cfg = config_address(&PID).unwrap();
    for index in 0u32..3 {
        let ours = collection_mint_address(&PID, &cfg.0, index).unwrap();
        let (theirs, bump) = Pubkey::find_program_address(
            &[b"collections", cfg.0.as_ref(), &index.to_le_bytes()],
            &Pubkey::new_from_array(PID),
        );
        assert_eq!(ours.0, theirs.to_bytes());
        assert_eq!(ours.1, bump);
    }
}

#[test]
fn test_item_address_matches_host() {
    let cfg = config_address(&PID).unwrap();
    let payer: [u8; 32] = [9u8; 32];
    let id: u32 = 0xA1B2C3D4;
    let ours = item_mint_address(&PID, &cfg.0, &payer, id).unwrap();
    let (theirs, bump) = Pubkey::find_program_address(
        &[b"bitty_mint", cfg.0.as_ref(), payer.as_ref(), &id.to_le_bytes()],
        &Pubkey::new_from_array(PID),
    );
    assert_eq!(ours.0, theirs.to_bytes());
    assert_eq!(ours.1, bump);
}

#[test]
fn test_metadata_address_matches_service_formula() {
    let mint: [u8; 32] = [42u8; 32];
    let mpl = mpl_token_metadata::ID;
    let ours = metadata_address(&mint).unwrap();
    let (theirs, bump) = Pubkey::find_program_address(
        &[b"metadata", &mpl.to_bytes(), mint.as_ref()],
        &Pubkey::new_from_array(mpl.to_bytes()),
    );
    assert_eq!(ours.0, theirs.to_bytes());
    assert_eq!(ours.1, bump);
}

#[test]
fn test_edition_address_matches_service_formula() {
    let mint: [u8; 32] = [42u8; 32];
    let mpl = mpl_token_metadata::ID;
    let ours = edition_address(&mint).unwrap();
    let (theirs, bump) = Pubkey::find_program_address(
        &[b"metadata", &mpl.to_bytes(), mint.as_ref(), b"edition"],
        &Pubkey::new_from_array(mpl.to_bytes()),
    );
    assert_eq!(ours.0, theirs.to_bytes());
    assert_eq!(ours.1, bump);
}

#[test]
fn test_ata_address_matches_spl_crate() {
    let owner: [u8; 32] = [3u8; 32];
    let mint: [u8; 32] = [4u8; 32];
    let ours = ata_address(&owner, &mint).unwrap();
    let theirs =
        spl_associated_token_account::get_associated_token_address(&owner.into(), &mint.into());
    assert_eq!(ours.0, theirs.to_bytes());
}

#[test]
fn test_authority_signer_seed_replay() {
    // replaying the seeds plus the cached bump re-derives the Authority
    // Signer's address, which is what the host's authorization check demands
    let cfg = config_address(&PID).unwrap();
    let auth = authority_address(&PID, &cfg.0).unwrap();
    let seeds = bitty::pda::authority_signer_seeds(&cfg.0, auth.1);
    let refs: Vec<&[u8]> = seeds.iter().map(|s| s.as_slice()).collect();
    let addr = Pubkey::create_program_address(&refs, &Pubkey::new_from_array(PID)).unwrap();
    assert_eq!(addr.to_bytes(), auth.0);
    // a wrong bump is rejected or derives a different address
    let bad = bitty::pda::authority_signer_seeds(&cfg.0, auth.1.wrapping_sub(1));
    let bad_refs: Vec<&[u8]> = bad.iter().map(|s| s.as_slice()).collect();
    match Pubkey::create_program_address(&bad_refs, &Pubkey::new_from_array(PID)) {
        Ok(other) => assert_ne!(other.to_bytes(), auth.0),
        Err(_) => {}
    }
}

#[test]
fn test_derivation_deterministic() {
    let cfg1 = config_address(&PID).unwrap();
    let cfg2 = config_address(&PID).unwrap();
    assert_eq!(cfg1, cfg2);
    let payer: [u8; 32] = [5u8; 32];
    let a1 = resolve_mint_bitty(&PID, &payer, 7).unwrap();
    let a2 = resolve_mint_bitty(&PID, &payer, 7).unwrap();
    assert_eq!(a1.mint, a2.mint);
    assert_eq!(a1.token_account, a2.token_account);
    assert_eq!(a1.nft_metadata, a2.nft_metadata);
    assert_eq!(a1.master_edition, a2.master_edition);
    assert_eq!(a1.collection_mint, a2.collection_mint);
}

#[test]
fn test_resolution_is_consistent() {
    let payer: [u8; 32] = [5u8; 32];
    let c = resolve_create_collection_nft(&PID, &payer, 0).unwrap();
    let cfg = config_address(&PID).unwrap();
    let auth = authority_address(&PID, &cfg.0).unwrap();
    let mint = collection_mint_address(&PID, &cfg.0, 0).unwrap();
    assert_eq!(c.payer, payer);
    assert_eq!(c.config, cfg.0);
    assert_eq!(c.authority_pda, auth.0);
    assert_eq!(c.collection_mint, mint.0);
    assert_eq!(c.collection_metadata, metadata_address(&mint.0).unwrap().0);
    assert_eq!(c.master_edition, edition_address(&mint.0).unwrap().0);
    assert_eq!(c.metadata_program, metadata_program_address());
    let m = resolve_mint_bitty(&PID, &payer, 7).unwrap();
    assert_eq!(m.collection_mint, mint.0);
    assert_eq!(m.mint, item_mint_address(&PID, &cfg.0, &payer, 7).unwrap().0);
}

#[test]
fn test_index_out_of_bounds() {
    let cfg = config_address(&PID).unwrap();
    assert_eq!(
        collection_mint_address(&PID, &cfg.0, 3),
        Err(TxError::Program(ErrCode::IndexOutOfBounds))
    );
    let payer: [u8; 32] = [5u8; 32];
    match resolve_create_collection_nft(&PID, &payer, 4) {
        Err(TxError::Program(ErrCode::IndexOutOfBounds)) => {}
        other => panic!("expected an index bound rejection, got {:?}", other),
    }
}

//! End-to-end scenarios over the ledger model: the three-collection
//! lifecycle, item minting, failure atomicity, and the record invariants.

use bitty::ledger::{initialize, Ledger};
use bitty::pda::{ata_address, authority_address, collection_mint_address, item_mint_address};
use bitty::records::{ErrCode, HostAcceptance, TxError};

const PID: [u8; 32] = [7u8; 32];
const PAYER: [u8; 32] = [9u8; 32];

fn accept_all() -> HostAcceptance {
    HostAcceptance { mint_step: true, metadata_step: true, edition_step: true }
}

fn fresh_ledger() -> Ledger {
    initialize(&PID).unwrap()
}

fn snapshot(l: &Ledger) -> (u32, usize, usize, usize, usize) {
    (
        l.config.counter,
        l.mints.len(),
        l.token_accounts.len(),
        l.metadata.len(),
        l.editions.len(),
    )
}

#[test]
fn test_initialize_starts_at_zero() {
    let l = fresh_ledger();
    assert_eq!(l.config.counter, 0);
    assert_eq!(l.mints.len(), 0);
    assert_eq!(l.token_accounts.len(), 0);
    assert_eq!(l.metadata.len(), 0);
    assert_eq!(l.editions.len(), 0);
}

#[test]
fn test_full_collection_scenario() {
    // fresh deployment, then Box, Egg, Baby, then a refused fourth creation
    let mut l = fresh_ledger();
    let names = ["Box", "Egg", "Baby"];
    for (n, name) in names.iter().enumerate() {
        let expected = collection_mint_address(&PID, &l.config_addr, n as u32).unwrap();
        let got = l
            .create_collection_nft(
                name.to_string(),
                format!("{}SYM", name),
                format!("https://example.invalid/{}", name),
                accept_all(),
            )
            .unwrap();
        assert_eq!(got, expected.0);
        assert_eq!(l.config.counter, (n + 1) as u32);
        assert_eq!(l.mints.len(), n + 1);
        assert_eq!(l.metadata.len(), n + 1);
        assert_eq!(l.editions.len(), n + 1);
    }
    let before = snapshot(&l);
    let fourth = l.create_collection_nft(
        "Overflow".to_string(),
        "OVR".to_string(),
        "https://example.invalid/overflow".to_string(),
        accept_all(),
    );
    assert_eq!(fourth, Err(TxError::Program(ErrCode::NoCollectionMint)));
    assert_eq!(snapshot(&l), before);
}

#[test]
fn test_collection_records() {
    let mut l = fresh_ledger();
    let mint = l
        .create_collection_nft(
            "Box".to_string(),
            "BOX".to_string(),
            "https://example.invalid/box".to_string(),
            accept_all(),
        )
        .unwrap();
    let auth = authority_address(&PID, &l.config_addr).unwrap();

    let (mint_addr, mint_rec) = &l.mints[0];
    assert_eq!(*mint_addr, mint);
    assert_eq!(mint_rec.decimals, 0);
    assert_eq!(mint_rec.authority, auth.0);
    assert_eq!(mint_rec.supply, 1);

    let (_, md) = &l.metadata[0];
    assert_eq!(md.name, "Box");
    assert_eq!(md.symbol, "BOX");
    assert_eq!(md.uri, "https://example.invalid/box");
    assert_eq!(md.seller_fee_basis_points, 0);
    assert_eq!(md.creators.len(), 1);
    assert_eq!(md.creators[0].address, auth.0);
    assert!(md.creators[0].verified);
    assert_eq!(md.creators[0].share, 100);
    assert!(md.collection.is_none());
    assert_eq!(md.collection_details, Some(0));

    let (_, ed) = &l.editions[0];
    assert_eq!(ed.max_supply, Some(0));

    // the single unit sits in the Authority Signer's holding account
    let expected_ata = ata_address(&auth.0, &mint).unwrap();
    let (ata_addr, ta) = &l.token_accounts[0];
    assert_eq!(*ata_addr, expected_ata.0);
    assert_eq!(ta.owner, auth.0);
    assert_eq!(ta.mint, mint);
    assert_eq!(ta.amount, 1);
}

#[test]
fn test_mint_bitty_basic() {
    // with the Box collection created, mint item id 7 for payer P
    let mut l = fresh_ledger();
    let box_mint = l
        .create_collection_nft(
            "Box".to_string(),
            "BOX".to_string(),
            "https://example.invalid/box".to_string(),
            accept_all(),
        )
        .unwrap();
    let expected = item_mint_address(&PID, &l.config_addr, &PAYER, 7).unwrap();
    let mint = l
        .mint_bitty(
            &PAYER,
            7,
            "Bitty 7".to_string(),
            "BTY".to_string(),
            "https://example.invalid/7".to_string(),
            accept_all(),
        )
        .unwrap();
    assert_eq!(mint, expected.0);
    assert_eq!(l.config.counter, 1);

    let auth = authority_address(&PID, &l.config_addr).unwrap();
    let (_, mint_rec) = &l.mints[1];
    assert_eq!(mint_rec.decimals, 0);
    assert_eq!(mint_rec.authority, auth.0);
    assert_eq!(mint_rec.supply, 1);

    // held by the payer, not the authority
    let expected_ata = ata_address(&PAYER, &mint).unwrap();
    let (ata_addr, ta) = &l.token_accounts[1];
    assert_eq!(*ata_addr, expected_ata.0);
    assert_eq!(ta.owner, PAYER);
    assert_eq!(ta.mint, mint);
    assert_eq!(ta.amount, 1);

    // metadata references the Box collection, unverified
    let (_, md) = &l.metadata[1];
    assert_eq!(md.name, "Bitty 7");
    assert_eq!(md.seller_fee_basis_points, 0);
    assert_eq!(md.creators.len(), 1);
    assert_eq!(md.creators[0].address, auth.0);
    assert!(md.creators[0].verified);
    assert_eq!(md.creators[0].share, 100);
    let col = md.collection.as_ref().unwrap();
    assert_eq!(col.key, box_mint);
    assert!(!col.verified);
    assert!(md.collection_details.is_none());

    let (_, ed) = &l.editions[1];
    assert_eq!(ed.max_supply, Some(1));
}

#[test]
fn test_mint_bitty_requires_box_collection() {
    let mut l = fresh_ledger();
    let before = snapshot(&l);
    let r = l.mint_bitty(
        &PAYER,
        1,
        "Bitty".to_string(),
        "BTY".to_string(),
        "https://example.invalid/1".to_string(),
        accept_all(),
    );
    assert_eq!(r, Err(TxError::AccountMissing));
    assert_eq!(snapshot(&l), before);
}

#[test]
fn test_mint_bitty_reuse_fails() {
    let mut l = fresh_ledger();
    l.create_collection_nft(
        "Box".to_string(),
        "BOX".to_string(),
        "https://example.invalid/box".to_string(),
        accept_all(),
    )
    .unwrap();
    l.mint_bitty(
        &PAYER,
        7,
        "Bitty 7".to_string(),
        "BTY".to_string(),
        "https://example.invalid/7".to_string(),
        accept_all(),
    )
    .unwrap();
    let before = snapshot(&l);
    // the same (payer, id) pair derives the same address: collision
    let again = l.mint_bitty(
        &PAYER,
        7,
        "Bitty 7 again".to_string(),
        "BTY".to_string(),
        "https://example.invalid/7".to_string(),
        accept_all(),
    );
    assert_eq!(again, Err(TxError::AccountInUse));
    assert_eq!(snapshot(&l), before);
    // a different id for the same payer still works
    l.mint_bitty(
        &PAYER,
        8,
        "Bitty 8".to_string(),
        "BTY".to_string(),
        "https://example.invalid/8".to_string(),
        accept_all(),
    )
    .unwrap();
}

#[test]
fn test_atomic_on_metadata_refusal() {
    // a forced failure at the metadata-attachment step leaves nothing behind
    let refused = HostAcceptance { mint_step: true, metadata_step: false, edition_step: true };
    let mut l = fresh_ledger();
    let before = snapshot(&l);
    let r = l.create_collection_nft(
        "Box".to_string(),
        "BOX".to_string(),
        "https://example.invalid/box".to_string(),
        refused,
    );
    assert_eq!(r, Err(TxError::ServiceRefused));
    assert_eq!(snapshot(&l), before);

    l.create_collection_nft(
        "Box".to_string(),
        "BOX".to_string(),
        "https://example.invalid/box".to_string(),
        accept_all(),
    )
    .unwrap();
    let before = snapshot(&l);
    let r = l.mint_bitty(
        &PAYER,
        7,
        "Bitty 7".to_string(),
        "BTY".to_string(),
        "https://example.invalid/7".to_string(),
        refused,
    );
    assert_eq!(r, Err(TxError::ServiceRefused));
    assert_eq!(snapshot(&l), before);
}

#[test]
fn test_atomic_on_mint_and_edition_refusal() {
    let mut l = fresh_ledger();
    for refused in [
        HostAcceptance { mint_step: false, metadata_step: true, edition_step: true },
        HostAcceptance { mint_step: true, metadata_step: true, edition_step: false },
    ] {
        let before = snapshot(&l);
        let r = l.create_collection_nft(
            "Box".to_string(),
            "BOX".to_string(),
            "https://example.invalid/box".to_string(),
            refused,
        );
        assert_eq!(r, Err(TxError::ServiceRefused));
        assert_eq!(snapshot(&l), before);
    }
}

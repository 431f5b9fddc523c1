//! The explicit model of the on-chain world and the two orchestrated
//! creation procedures.
//!
//! A [`Ledger`] value stands for everything this system can observe of the
//! host: the Configuration singleton and the four record families owned by
//! the external services, each keyed by derived address.  The two procedures
//! run all of their checks before their first mutation, so a transaction
//! either applies every record of its plan or none — the host's atomicity,
//! made structural.
//!
//! What each procedure does is written once, as a mathematical function of
//! the ledger view ([`spec_create_collection`], [`spec_mint_bitty`]); the
//! executable procedures are proved equal to it.

use vstd::prelude::*;
use vstd::pervasive::VecAdditionalExecFns;
use crate::addr::{Addr, addr_eq};
use crate::alist::{
    alist_contains, alist_find, alist_map, distinct_keys, lemma_alist_map_contains,
    lemma_alist_map_index, lemma_alist_map_push, lemma_alist_map_update, lemma_distinct_push,
};
use crate::pda::{
    ata_address, authority_address, collection_mint_address, config_address, item_mint_address,
    edition_address, metadata_address, spec_ata_pda, spec_auth_pda, spec_collection_pda,
    spec_config_pda, spec_edition_pda, spec_item_pda, spec_metadata_pda,
};
use crate::records::{
    Config, EditionRecord, EditionView, ErrCode, HostAcceptance, MetadataRecord, MetadataView,
    MintRecord, MintView, TokenAccountRecord, TokenAccountView, TxError, collection_metadata,
    item_metadata, spec_authority_creators, spec_collection_metadata, spec_item_metadata,
};

verus! {

/// The observable state of the host: the Configuration singleton and the
/// records owned by the token, associated-account and metadata services.
pub struct Ledger {
    pub program_id: Addr,
    pub config_addr: Addr,
    pub config: Config,
    pub mints: Vec<(Addr, MintRecord)>,
    pub token_accounts: Vec<(Addr, TokenAccountRecord)>,
    pub metadata: Vec<(Addr, MetadataRecord)>,
    pub editions: Vec<(Addr, EditionRecord)>,
}

#[verifier::ext_equal]
pub ghost struct LedgerView {
    pub program_id: Seq<u8>,
    pub config_addr: Seq<u8>,
    pub config: Config,
    pub mints: Map<Seq<u8>, MintView>,
    pub token_accounts: Map<Seq<u8>, TokenAccountView>,
    pub metadata: Map<Seq<u8>, MetadataView>,
    pub editions: Map<Seq<u8>, EditionView>,
}

impl View for Ledger {
    type V = LedgerView;

    open spec fn view(&self) -> LedgerView {
        LedgerView {
            program_id: self.program_id@,
            config_addr: self.config_addr@,
            config: self.config,
            mints: alist_map(self.mints@),
            token_accounts: alist_map(self.token_accounts@),
            metadata: alist_map(self.metadata@),
            editions: alist_map(self.editions@),
        }
    }
}

/// The Authority Signer's address: a derivation, not state.
pub open spec fn auth_addr(v: LedgerView) -> Seq<u8> {
    spec_auth_pda(v.program_id, v.config_addr).unwrap().0
}

/// The cached addresses and disambiguation bytes agree with the derivation
/// scheme.
pub open spec fn inv_derivations(v: LedgerView) -> bool {
    &&& spec_config_pda(v.program_id) == Some((v.config_addr, v.config.bump))
    &&& spec_auth_pda(v.program_id, v.config_addr) is Some
    &&& spec_auth_pda(v.program_id, v.config_addr).unwrap().1 == v.config.auth_bump
}

/// Every collection index below the counter has been created: its derivation
/// succeeded and its mint record exists.
pub open spec fn inv_collections(v: LedgerView) -> bool {
    forall|idx: u32|
        #![trigger spec_collection_pda(v.program_id, v.config_addr, idx)]
        idx < v.config.counter ==> {
            let p = spec_collection_pda(v.program_id, v.config_addr, idx);
            p is Some && v.mints.contains_key(p.unwrap().0)
        }
}

/// Every metadata record of this deployment carries zero royalty and the
/// Authority Signer as sole verified creator with a 100% share.
pub open spec fn inv_metadata(v: LedgerView) -> bool {
    forall|k: Seq<u8>| #[trigger]
        v.metadata.contains_key(k) ==> v.metadata[k].seller_fee_basis_points == 0
            && v.metadata[k].creators == spec_authority_creators(auth_addr(v))
}

pub open spec fn inv_view(v: LedgerView) -> bool {
    &&& v.config.counter <= 3
    &&& inv_derivations(v)
    &&& inv_collections(v)
    &&& inv_metadata(v)
}

impl Ledger {
    pub open spec fn wf(&self) -> bool {
        &&& distinct_keys(self.mints@)
        &&& distinct_keys(self.token_accounts@)
        &&& distinct_keys(self.metadata@)
        &&& distinct_keys(self.editions@)
        &&& inv_view(self@)
    }
}

/// If the holding account already exists it must custody the expected mint
/// for the expected owner; the allocation primitive rejects anything else.
pub open spec fn ata_matches(v: LedgerView, ata: Seq<u8>, mint: Seq<u8>, owner: Seq<u8>) -> bool {
    v.token_accounts.contains_key(ata) ==> v.token_accounts[ata].mint == mint
        && v.token_accounts[ata].owner == owner
}

/// The holding account can receive one more unit without overflowing the
/// token service's balance field.
pub open spec fn ata_can_receive(v: LedgerView, ata: Seq<u8>) -> bool {
    v.token_accounts.contains_key(ata) ==> v.token_accounts[ata].amount < u64::MAX
}

/// The holding accounts after one unit is minted into `ata`: created with
/// amount 1 if absent, topped up by 1 if present.
pub open spec fn spec_token_accounts_after(
    ta: Map<Seq<u8>, TokenAccountView>,
    ata: Seq<u8>,
    mint: Seq<u8>,
    owner: Seq<u8>,
) -> Map<Seq<u8>, TokenAccountView> {
    if ta.contains_key(ata) {
        ta.insert(ata, TokenAccountView { mint, owner, amount: (ta[ata].amount + 1) as u64 })
    } else {
        ta.insert(ata, TokenAccountView { mint, owner, amount: 1 })
    }
}

/// The shared tail of both procedures: allocation of the fresh mint, then
/// the three service steps — mint one unit into the holding account, attach
/// the metadata record, finalize the master edition — each able to fail,
/// and failing the whole transaction if it does.
pub open spec fn spec_run_steps(
    v: LedgerView,
    mint: Seq<u8>,
    owner: Seq<u8>,
    ata: Seq<u8>,
    md_addr: Seq<u8>,
    ed_addr: Seq<u8>,
    md: MetadataView,
    max_supply: Option<u64>,
    new_config: Config,
    host: HostAcceptance,
) -> Result<(LedgerView, Seq<u8>), TxError> {
    if v.mints.contains_key(mint) {
        Err(TxError::AccountInUse)
    } else if !ata_matches(v, ata, mint, owner) {
        Err(TxError::AccountInUse)
    } else if !host.mint_step || !ata_can_receive(v, ata) {
        Err(TxError::ServiceRefused)
    } else if v.metadata.contains_key(md_addr) {
        Err(TxError::AccountInUse)
    } else if !host.metadata_step {
        Err(TxError::ServiceRefused)
    } else if v.editions.contains_key(ed_addr) {
        Err(TxError::AccountInUse)
    } else if !host.edition_step {
        Err(TxError::ServiceRefused)
    } else {
        Ok(
            (
                LedgerView {
                    program_id: v.program_id,
                    config_addr: v.config_addr,
                    config: new_config,
                    mints: v.mints.insert(
                        mint,
                        MintView { decimals: 0, authority: auth_addr(v), supply: 1 },
                    ),
                    token_accounts: spec_token_accounts_after(v.token_accounts, ata, mint, owner),
                    metadata: v.metadata.insert(md_addr, md),
                    editions: v.editions.insert(ed_addr, EditionView { max_supply }),
                },
                mint,
            ),
        )
    }
}

/// What one collection-creation transaction does to the ledger: gate on the
/// counter, derive every address from the current counter, run the three
/// steps, and advance the counter.
pub open spec fn spec_create_collection(
    v: LedgerView,
    name: Seq<char>,
    symbol: Seq<char>,
    uri: Seq<char>,
    host: HostAcceptance,
) -> Result<(LedgerView, Seq<u8>), TxError> {
    if v.config.counter >= 3 {
        Err(TxError::Program(ErrCode::NoCollectionMint))
    } else {
        let auth = auth_addr(v);
        let mint_pda = spec_collection_pda(v.program_id, v.config_addr, v.config.counter);
        if mint_pda is None {
            Err(TxError::SeedsExhausted)
        } else {
            let mint = mint_pda.unwrap().0;
            let ata = spec_ata_pda(auth, mint);
            let mdp = spec_metadata_pda(mint);
            let edp = spec_edition_pda(mint);
            if ata is None || mdp is None || edp is None {
                Err(TxError::SeedsExhausted)
            } else {
                spec_run_steps(
                    v,
                    mint,
                    auth,
                    ata.unwrap().0,
                    mdp.unwrap().0,
                    edp.unwrap().0,
                    spec_collection_metadata(name, symbol, uri, auth),
                    Some(0),
                    Config {
                        bump: v.config.bump,
                        auth_bump: v.config.auth_bump,
                        counter: (v.config.counter + 1) as u32,
                    },
                    host,
                )
            }
        }
    }
}

/// What one item-minting transaction does to the ledger: require the Box
/// collection (index 0), derive the item addresses from `(payer, id)`, and
/// run the three steps; the holding account belongs to the payer and the
/// metadata references the Box collection, unverified.
pub open spec fn spec_mint_bitty(
    v: LedgerView,
    payer: Seq<u8>,
    id: u32,
    name: Seq<char>,
    symbol: Seq<char>,
    uri: Seq<char>,
    host: HostAcceptance,
) -> Result<(LedgerView, Seq<u8>), TxError> {
    let auth = auth_addr(v);
    let box_pda = spec_collection_pda(v.program_id, v.config_addr, 0);
    if box_pda is None {
        Err(TxError::SeedsExhausted)
    } else if !v.mints.contains_key(box_pda.unwrap().0) {
        Err(TxError::AccountMissing)
    } else {
        let item_pda = spec_item_pda(v.program_id, v.config_addr, payer, id);
        if item_pda is None {
            Err(TxError::SeedsExhausted)
        } else {
            let mint = item_pda.unwrap().0;
            let ata = spec_ata_pda(payer, mint);
            let mdp = spec_metadata_pda(mint);
            let edp = spec_edition_pda(mint);
            if ata is None || mdp is None || edp is None {
                Err(TxError::SeedsExhausted)
            } else {
                spec_run_steps(
                    v,
                    mint,
                    payer,
                    ata.unwrap().0,
                    mdp.unwrap().0,
                    edp.unwrap().0,
                    spec_item_metadata(name, symbol, uri, auth, box_pda.unwrap().0),
                    Some(1),
                    v.config,
                    host,
                )
            }
        }
    }
}

/// The deployment-time initialization path: derives the Configuration
/// address and the Authority Signer, caches both disambiguation bytes, and
/// starts the counter at 0 over an empty record set.
pub fn initialize(program_id: &Addr) -> (r: Result<Ledger, TxError>)
    ensures
        match r {
            Ok(l) => {
                &&& l.wf()
                &&& l@.program_id == program_id@
                &&& l@.config.counter == 0
                &&& spec_config_pda(program_id@) == Some((l@.config_addr, l@.config.bump))
                &&& spec_auth_pda(program_id@, l@.config_addr) is Some
                &&& spec_auth_pda(program_id@, l@.config_addr).unwrap().1 == l@.config.auth_bump
                &&& l@.mints == Map::<Seq<u8>, MintView>::empty()
                &&& l@.token_accounts == Map::<Seq<u8>, TokenAccountView>::empty()
                &&& l@.metadata == Map::<Seq<u8>, MetadataView>::empty()
                &&& l@.editions == Map::<Seq<u8>, EditionView>::empty()
            },
            Err(e) => {
                &&& e == TxError::SeedsExhausted
                &&& (spec_config_pda(program_id@) is None || spec_auth_pda(
                    program_id@,
                    spec_config_pda(program_id@).unwrap().0,
                ) is None)
            },
        },
{
    let cfg_p = match config_address(program_id) {
        Some(p) => p,
        None => {
            return Err(TxError::SeedsExhausted);
        },
    };
    let auth_p = match authority_address(program_id, &cfg_p.0) {
        Some(p) => p,
        None => {
            return Err(TxError::SeedsExhausted);
        },
    };
    let l = Ledger {
        program_id: *program_id,
        config_addr: cfg_p.0,
        config: Config { bump: cfg_p.1, auth_bump: auth_p.1, counter: 0 },
        mints: Vec::new(),
        token_accounts: Vec::new(),
        metadata: Vec::new(),
        editions: Vec::new(),
    };
    proof {
        assert(l@.mints =~= Map::<Seq<u8>, MintView>::empty());
        assert(l@.token_accounts =~= Map::<Seq<u8>, TokenAccountView>::empty());
        assert(l@.metadata =~= Map::<Seq<u8>, MetadataView>::empty());
        assert(l@.editions =~= Map::<Seq<u8>, EditionView>::empty());
        assert(l.wf());
    }
    Ok(l)
}

impl Ledger {
    /// Creates one collection token: gates on the counter, mints one unit
    /// into the Authority Signer's holding account, attaches the metadata,
    /// finalizes the non-reprintable master edition, and advances the
    /// counter.  On any failure the ledger is unchanged.
    pub fn create_collection_nft(
        &mut self,
        name: String,
        symbol: String,
        uri: String,
        host: HostAcceptance,
    ) -> (r: Result<Addr, TxError>)
        requires
            old(self).wf(),
        ensures
            final(self).wf(),
            match r {
                Ok(a) => spec_create_collection(old(self)@, name@, symbol@, uri@, host)
                    == Ok::<(LedgerView, Seq<u8>), TxError>((final(self)@, a@)),
                Err(e) => spec_create_collection(old(self)@, name@, symbol@, uri@, host)
                    == Err::<(LedgerView, Seq<u8>), TxError>(e) && *final(self) == *old(self),
            },
    {
        let ghost v0 = self@;
        if self.config.counter >= 3 {
            return Err(TxError::Program(ErrCode::NoCollectionMint));
        }
        let auth_p = match authority_address(&self.program_id, &self.config_addr) {
            Some(p) => p,
            None => {
                proof {
                    assert(false);
                }
                return Err(TxError::SeedsExhausted);
            },
        };
        let auth = auth_p.0;
        proof {
            assert(auth@ == auth_addr(v0));
        }
        let mint_p = match collection_mint_address(
            &self.program_id,
            &self.config_addr,
            self.config.counter,
        ) {
            Ok(p) => p,
            Err(e) => {
                return Err(e);
            },
        };
        let mint = mint_p.0;
        let ata_p = match ata_address(&auth, &mint) {
            Some(p) => p,
            None => {
                return Err(TxError::SeedsExhausted);
            },
        };
        let md_p = match metadata_address(&mint) {
            Some(p) => p,
            None => {
                return Err(TxError::SeedsExhausted);
            },
        };
        let ed_p = match edition_address(&mint) {
            Some(p) => p,
            None => {
                return Err(TxError::SeedsExhausted);
            },
        };
        let md_rec = collection_metadata(name, symbol, uri, &auth);
        let new_config = Config {
            bump: self.config.bump,
            auth_bump: self.config.auth_bump,
            counter: self.config.counter + 1,
        };
        let r = self.run_steps(auth, mint, auth, ata_p.0, md_p.0, ed_p.0, md_rec, Some(0), new_config, host);
        proof {
            assert(spec_create_collection(v0, name@, symbol@, uri@, host) == spec_run_steps(
                v0,
                mint@,
                auth@,
                ata_p.0@,
                md_p.0@,
                ed_p.0@,
                spec_collection_metadata(name@, symbol@, uri@, auth@),
                Some(0),
                new_config,
                host,
            ));
            if r is Ok {
                let vf = self@;
                assert(inv_derivations(vf));
                assert(auth_addr(vf) == auth_addr(v0));
                assert forall|idx: u32|
                    #![trigger spec_collection_pda(vf.program_id, vf.config_addr, idx)]
                    idx < vf.config.counter implies {
                    let p = spec_collection_pda(vf.program_id, vf.config_addr, idx);
                    p is Some && vf.mints.contains_key(p.unwrap().0)
                } by {
                    if idx < v0.config.counter {
                        assert(spec_collection_pda(v0.program_id, v0.config_addr, idx) is Some);
                    } else {
                        assert(idx == v0.config.counter);
                    }
                }
                assert(inv_collections(vf));
                assert forall|k: Seq<u8>|
                    vf.metadata.contains_key(k) implies vf.metadata[k].seller_fee_basis_points == 0
                    && vf.metadata[k].creators == spec_authority_creators(auth_addr(vf)) by {
                    if k != md_p.0@ {
                        assert(v0.metadata.contains_key(k));
                    }
                }
                assert(inv_metadata(vf));
            }
        }
        r
    }

    /// Mints one item token for `(payer, id)`: requires the Box collection,
    /// mints one unit into the payer's own holding account, attaches
    /// metadata referencing the Box collection (unverified), and finalizes
    /// a master edition of maximum supply 1.  On any failure the ledger is
    /// unchanged — in particular when the `(payer, id)` pair was already
    /// used, since the derived address then already holds a mint record.
    pub fn mint_bitty(
        &mut self,
        payer: &Addr,
        id: u32,
        name: String,
        symbol: String,
        uri: String,
        host: HostAcceptance,
    ) -> (r: Result<Addr, TxError>)
        requires
            old(self).wf(),
        ensures
            final(self).wf(),
            match r {
                Ok(a) => spec_mint_bitty(old(self)@, payer@, id, name@, symbol@, uri@, host)
                    == Ok::<(LedgerView, Seq<u8>), TxError>((final(self)@, a@)),
                Err(e) => spec_mint_bitty(old(self)@, payer@, id, name@, symbol@, uri@, host)
                    == Err::<(LedgerView, Seq<u8>), TxError>(e) && *final(self) == *old(self),
            },
    {
        let ghost v0 = self@;
        let auth_p = match authority_address(&self.program_id, &self.config_addr) {
            Some(p) => p,
            None => {
                proof {
                    assert(false);
                }
                return Err(TxError::SeedsExhausted);
            },
        };
        let auth = auth_p.0;
        proof {
            assert(auth@ == auth_addr(v0));
        }
        let box_p = match collection_mint_address(&self.program_id, &self.config_addr, 0) {
            Ok(p) => p,
            Err(_) => {
                return Err(TxError::SeedsExhausted);
            },
        };
        if !alist_contains(&self.mints, &box_p.0) {
            return Err(TxError::AccountMissing);
        }
        let mint_p = match item_mint_address(&self.program_id, &self.config_addr, payer, id) {
            Some(p) => p,
            None => {
                return Err(TxError::SeedsExhausted);
            },
        };
        let mint = mint_p.0;
        let ata_p = match ata_address(payer, &mint) {
            Some(p) => p,
            None => {
                return Err(TxError::SeedsExhausted);
            },
        };
        let md_p = match metadata_address(&mint) {
            Some(p) => p,
            None => {
                return Err(TxError::SeedsExhausted);
            },
        };
        let ed_p = match edition_address(&mint) {
            Some(p) => p,
            None => {
                return Err(TxError::SeedsExhausted);
            },
        };
        let md_rec = item_metadata(name, symbol, uri, &auth, &box_p.0);
        let new_config = self.config;
        let r = self.run_steps(auth, mint, *payer, ata_p.0, md_p.0, ed_p.0, md_rec, Some(1), new_config, host);
        proof {
            assert(spec_mint_bitty(v0, payer@, id, name@, symbol@, uri@, host) == spec_run_steps(
                v0,
                mint@,
                payer@,
                ata_p.0@,
                md_p.0@,
                ed_p.0@,
                spec_item_metadata(name@, symbol@, uri@, auth@, box_p.0@),
                Some(1),
                new_config,
                host,
            ));
            if r is Ok {
                let vf = self@;
                assert(inv_derivations(vf));
                assert(auth_addr(vf) == auth_addr(v0));
                assert forall|idx: u32|
                    #![trigger spec_collection_pda(vf.program_id, vf.config_addr, idx)]
                    idx < vf.config.counter implies {
                    let p = spec_collection_pda(vf.program_id, vf.config_addr, idx);
                    p is Some && vf.mints.contains_key(p.unwrap().0)
                } by {
                    assert(spec_collection_pda(v0.program_id, v0.config_addr, idx) is Some);
                }
                assert(inv_collections(vf));
                assert forall|k: Seq<u8>|
                    vf.metadata.contains_key(k) implies vf.metadata[k].seller_fee_basis_points == 0
                    && vf.metadata[k].creators == spec_authority_creators(auth_addr(vf)) by {
                    if k != md_p.0@ {
                        assert(v0.metadata.contains_key(k));
                    }
                }
                assert(inv_metadata(vf));
            }
        }
        r
    }

    /// The shared commit path: checks allocation and the three service
    /// steps, then applies the whole plan; any refusal returns before the
    /// first mutation.
    fn run_steps(
        &mut self,
        auth: Addr,
        mint: Addr,
        owner: Addr,
        ata: Addr,
        md_addr: Addr,
        ed_addr: Addr,
        md_rec: MetadataRecord,
        max_supply: Option<u64>,
        new_config: Config,
        host: HostAcceptance,
    ) -> (r: Result<Addr, TxError>)
        requires
            distinct_keys(old(self).mints@),
            distinct_keys(old(self).token_accounts@),
            distinct_keys(old(self).metadata@),
            distinct_keys(old(self).editions@),
            auth@ == auth_addr(old(self)@),
        ensures
            distinct_keys(final(self).mints@),
            distinct_keys(final(self).token_accounts@),
            distinct_keys(final(self).metadata@),
            distinct_keys(final(self).editions@),
            final(self).program_id@ == old(self).program_id@,
            final(self).config_addr@ == old(self).config_addr@,
            match r {
                Ok(a) => a == mint && spec_run_steps(
                    old(self)@,
                    mint@,
                    owner@,
                    ata@,
                    md_addr@,
                    ed_addr@,
                    md_rec@,
                    max_supply,
                    new_config,
                    host,
                ) == Ok::<(LedgerView, Seq<u8>), TxError>((final(self)@, mint@)),
                Err(e) => spec_run_steps(
                    old(self)@,
                    mint@,
                    owner@,
                    ata@,
                    md_addr@,
                    ed_addr@,
                    md_rec@,
                    max_supply,
                    new_config,
                    host,
                ) == Err::<(LedgerView, Seq<u8>), TxError>(e) && *final(self) == *old(self),
            },
    {
        let ghost v0 = self@;
        if alist_contains(&self.mints, &mint) {
            return Err(TxError::AccountInUse);
        }
        let ata_idx = alist_find(&self.token_accounts, &ata);
        match ata_idx {
            Some(i) => {
                proof {
                    lemma_alist_map_contains(self.token_accounts@, ata@);
                    lemma_alist_map_index(self.token_accounts@, i as int);
                }
                let matches_expected = addr_eq(&self.token_accounts[i].1.mint, &mint) && addr_eq(
                    &self.token_accounts[i].1.owner,
                    &owner,
                );
                if !matches_expected {
                    return Err(TxError::AccountInUse);
                }
                if !host.mint_step || self.token_accounts[i].1.amount == u64::MAX {
                    return Err(TxError::ServiceRefused);
                }
            },
            None => {
                proof {
                    lemma_alist_map_contains(self.token_accounts@, ata@);
                }
                if !host.mint_step {
                    return Err(TxError::ServiceRefused);
                }
            },
        }
        if alist_contains(&self.metadata, &md_addr) {
            return Err(TxError::AccountInUse);
        }
        if !host.metadata_step {
            return Err(TxError::ServiceRefused);
        }
        if alist_contains(&self.editions, &ed_addr) {
            return Err(TxError::AccountInUse);
        }
        if !host.edition_step {
            return Err(TxError::ServiceRefused);
        }
        // every check has passed: apply the whole plan
        let mint_rec = MintRecord { decimals: 0, authority: auth, supply: 1 };
        proof {
            lemma_alist_map_contains(self.mints@, mint@);
            lemma_alist_map_push(self.mints@, (mint, mint_rec));
            lemma_distinct_push(self.mints@, (mint, mint_rec));
        }
        self.mints.push((mint, mint_rec));
        proof {
            lemma_alist_map_contains(self.metadata@, md_addr@);
            lemma_alist_map_push(self.metadata@, (md_addr, md_rec));
            lemma_distinct_push(self.metadata@, (md_addr, md_rec));
        }
        self.metadata.push((md_addr, md_rec));
        let ed_rec = EditionRecord { max_supply };
        proof {
            lemma_alist_map_contains(self.editions@, ed_addr@);
            lemma_alist_map_push(self.editions@, (ed_addr, ed_rec));
            lemma_distinct_push(self.editions@, (ed_addr, ed_rec));
        }
        self.editions.push((ed_addr, ed_rec));
        match ata_idx {
            Some(i) => {
                proof {
                    lemma_alist_map_index(self.token_accounts@, i as int);
                }
                let amt = self.token_accounts[i].1.amount;
                let new_ta = TokenAccountRecord { mint, owner, amount: amt + 1 };
                proof {
                    lemma_alist_map_update(self.token_accounts@, i as int, (ata, new_ta));
                }
                self.token_accounts.set(i, (ata, new_ta));
            },
            None => {
                let new_ta = TokenAccountRecord { mint, owner, amount: 1 };
                proof {
                    lemma_alist_map_contains(self.token_accounts@, ata@);
                    lemma_alist_map_push(self.token_accounts@, (ata, new_ta));
                    lemma_distinct_push(self.token_accounts@, (ata, new_ta));
                }
                self.token_accounts.push((ata, new_ta));
            },
        }
        self.config = new_config;
        proof {
            let res = spec_run_steps(
                v0,
                mint@,
                owner@,
                ata@,
                md_addr@,
                ed_addr@,
                md_rec@,
                max_supply,
                new_config,
                host,
            );
            assert(res is Ok);
            assert(res.unwrap().0 =~= self@);
            assert(res == Ok::<(LedgerView, Seq<u8>), TxError>((self@, mint@)));
        }
        Ok(mint)
    }
}

} // verus!

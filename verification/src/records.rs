//! The data model: the Configuration singleton, the per-mint records owned by
//! the external token and metadata services, and the error taxonomy of the two
//! creation procedures.

use vstd::prelude::*;
use crate::addr::Addr;

verus! {

/// The Configuration singleton: the two cached disambiguation bytes and the
/// number of collection tokens created so far (domain `[0, 3]`).
#[derive(Clone, Copy, PartialEq, Eq, Structural, Debug)]
pub struct Config {
    pub bump: u8,
    pub auth_bump: u8,
    pub counter: u32,
}

/// The errors this program itself declares.
#[derive(Clone, Copy, PartialEq, Eq, Structural, Debug)]
pub enum ErrCode {
    /// A collection index at or above the fixed cap of 3 was requested.
    IndexOutOfBounds,
    /// A fourth collection creation was attempted while `counter == 3`.
    NoCollectionMint,
}

/// Everything a transaction of this system can fail with: its own declared
/// errors, plus the failure modes of the host and of the external services,
/// which it propagates without interpreting.
#[derive(Clone, Copy, PartialEq, Eq, Structural, Debug)]
pub enum TxError {
    /// A precondition check of this program failed.
    Program(ErrCode),
    /// A derivation found no disambiguation byte that yields a usable address.
    SeedsExhausted,
    /// The allocation primitive refused: the target address already holds a
    /// record, or holds one that does not match the expected one.
    AccountInUse,
    /// A required pre-existing account (the Box collection mint) is absent.
    AccountMissing,
    /// An external service rejected one of the cross-system calls.
    ServiceRefused,
}

/// Which of the three cross-system calls of a creation procedure the external
/// services accept.  The services fail opaquely (insufficient rent, internal
/// rejection); the procedures only propagate that, so the outcome of each
/// step is an input of the model.
#[derive(Clone, Copy, PartialEq, Eq, Structural, Debug)]
pub struct HostAcceptance {
    pub mint_step: bool,
    pub metadata_step: bool,
    pub edition_step: bool,
}

/// A token mint record owned by the token service.
#[derive(Clone, Copy)]
pub struct MintRecord {
    pub decimals: u8,
    pub authority: Addr,
    pub supply: u64,
}

#[verifier::ext_equal]
pub ghost struct MintView {
    pub decimals: u8,
    pub authority: Seq<u8>,
    pub supply: u64,
}

impl View for MintRecord {
    type V = MintView;

    open spec fn view(&self) -> MintView {
        MintView { decimals: self.decimals, authority: self.authority@, supply: self.supply }
    }
}

/// A holding account: custodies units of one mint for one owner.
#[derive(Clone, Copy)]
pub struct TokenAccountRecord {
    pub mint: Addr,
    pub owner: Addr,
    pub amount: u64,
}

#[verifier::ext_equal]
pub ghost struct TokenAccountView {
    pub mint: Seq<u8>,
    pub owner: Seq<u8>,
    pub amount: u64,
}

impl View for TokenAccountRecord {
    type V = TokenAccountView;

    open spec fn view(&self) -> TokenAccountView {
        TokenAccountView { mint: self.mint@, owner: self.owner@, amount: self.amount }
    }
}

/// One creator entry of a metadata record.
#[derive(Clone, Copy)]
pub struct CreatorRecord {
    pub address: Addr,
    pub verified: bool,
    pub share: u8,
}

#[verifier::ext_equal]
pub ghost struct CreatorView {
    pub address: Seq<u8>,
    pub verified: bool,
    pub share: u8,
}

impl View for CreatorRecord {
    type V = CreatorView;

    open spec fn view(&self) -> CreatorView {
        CreatorView { address: self.address@, verified: self.verified, share: self.share }
    }
}

/// A reference from an item token's metadata to its parent collection token.
#[derive(Clone, Copy)]
pub struct CollectionRef {
    pub key: Addr,
    pub verified: bool,
}

#[verifier::ext_equal]
pub ghost struct CollectionRefView {
    pub key: Seq<u8>,
    pub verified: bool,
}

impl View for CollectionRef {
    type V = CollectionRefView;

    open spec fn view(&self) -> CollectionRefView {
        CollectionRefView { key: self.key@, verified: self.verified }
    }
}

/// A metadata record owned by the metadata service.
pub struct MetadataRecord {
    pub name: String,
    pub symbol: String,
    pub uri: String,
    pub seller_fee_basis_points: u16,
    pub creators: Vec<CreatorRecord>,
    pub collection: Option<CollectionRef>,
    /// `Some(size)` marks the token as a parent collection of that declared
    /// size; `None` marks an ordinary (item) token.
    pub collection_details: Option<u64>,
}

#[verifier::ext_equal]
pub ghost struct MetadataView {
    pub name: Seq<char>,
    pub symbol: Seq<char>,
    pub uri: Seq<char>,
    pub seller_fee_basis_points: u16,
    pub creators: Seq<CreatorView>,
    pub collection: Option<CollectionRefView>,
    pub collection_details: Option<u64>,
}

impl View for MetadataRecord {
    type V = MetadataView;

    open spec fn view(&self) -> MetadataView {
        MetadataView {
            name: self.name@,
            symbol: self.symbol@,
            uri: self.uri@,
            seller_fee_basis_points: self.seller_fee_basis_points,
            creators: Seq::new(self.creators@.len(), |i: int| self.creators@[i]@),
            collection: match self.collection {
                Some(c) => Some(c@),
                None => None,
            },
            collection_details: self.collection_details,
        }
    }
}

/// A master-edition record: caps how many further copies may be minted.
#[derive(Clone, Copy)]
pub struct EditionRecord {
    pub max_supply: Option<u64>,
}

#[verifier::ext_equal]
pub ghost struct EditionView {
    pub max_supply: Option<u64>,
}

impl View for EditionRecord {
    type V = EditionView;

    open spec fn view(&self) -> EditionView {
        EditionView { max_supply: self.max_supply }
    }
}

/// The single creator list every token of this system carries: the Authority
/// Signer, marked verified, with a 100% share.
pub open spec fn spec_authority_creators(authority: Seq<u8>) -> Seq<CreatorView> {
    seq![CreatorView { address: authority, verified: true, share: 100 }]
}

/// The metadata attached to a collection token: zero royalty, the authority
/// as sole verified creator, no parent reference, declared as a sized parent
/// collection of size 0.
pub open spec fn spec_collection_metadata(
    name: Seq<char>,
    symbol: Seq<char>,
    uri: Seq<char>,
    authority: Seq<u8>,
) -> MetadataView {
    MetadataView {
        name,
        symbol,
        uri,
        seller_fee_basis_points: 0,
        creators: spec_authority_creators(authority),
        collection: None,
        collection_details: Some(0),
    }
}

/// The metadata attached to an item token: zero royalty, the authority as
/// sole verified creator, and an unverified reference to the Box collection.
pub open spec fn spec_item_metadata(
    name: Seq<char>,
    symbol: Seq<char>,
    uri: Seq<char>,
    authority: Seq<u8>,
    box_mint: Seq<u8>,
) -> MetadataView {
    MetadataView {
        name,
        symbol,
        uri,
        seller_fee_basis_points: 0,
        creators: spec_authority_creators(authority),
        collection: Some(CollectionRefView { key: box_mint, verified: false }),
        collection_details: None,
    }
}

pub fn collection_metadata(name: String, symbol: String, uri: String, authority: &Addr) -> (r:
    MetadataRecord)
    ensures
        r@ == spec_collection_metadata(name@, symbol@, uri@, authority@),
{
    let creators: Vec<CreatorRecord> = vec![
        CreatorRecord { address: *authority, verified: true, share: 100 },
    ];
    let r = MetadataRecord {
        name,
        symbol,
        uri,
        seller_fee_basis_points: 0,
        creators,
        collection: None,
        collection_details: Some(0),
    };
    proof {
        assert(r@.creators =~= spec_authority_creators(authority@));
        assert(r@ =~= spec_collection_metadata(r.name@, r.symbol@, r.uri@, authority@));
    }
    r
}

pub fn item_metadata(
    name: String,
    symbol: String,
    uri: String,
    authority: &Addr,
    box_mint: &Addr,
) -> (r: MetadataRecord)
    ensures
        r@ == spec_item_metadata(name@, symbol@, uri@, authority@, box_mint@),
{
    let creators: Vec<CreatorRecord> = vec![
        CreatorRecord { address: *authority, verified: true, share: 100 },
    ];
    let r = MetadataRecord {
        name,
        symbol,
        uri,
        seller_fee_basis_points: 0,
        creators,
        collection: Some(CollectionRef { key: *box_mint, verified: false }),
        collection_details: None,
    };
    proof {
        assert(r@.creators =~= spec_authority_creators(authority@));
        assert(r@ =~= spec_item_metadata(r.name@, r.symbol@, r.uri@, authority@, box_mint@));
    }
    r
}

} // verus!

//! Raw 32-byte account addresses, the fixed seed tags of the derivation
//! scheme, and the little-endian encoding used for 32-bit seed components.

use vstd::prelude::*;

verus! {

/// A ledger account address: 32 raw bytes.
pub type Addr = [u8; 32];

/// The seed tag of the Configuration singleton: the bytes of `"config"`.
pub open spec fn seed_config() -> Seq<u8> {
    seq![99u8, 111u8, 110u8, 102u8, 105u8, 103u8]
}

/// The seed tag of the Authority Signer: the bytes of `"auth"`.
pub open spec fn seed_auth() -> Seq<u8> {
    seq![97u8, 117u8, 116u8, 104u8]
}

/// The seed tag of a collection token mint: the bytes of `"collections"`.
pub open spec fn seed_collections() -> Seq<u8> {
    seq![99u8, 111u8, 108u8, 108u8, 101u8, 99u8, 116u8, 105u8, 111u8, 110u8, 115u8]
}

/// The seed tag of an item token mint: the bytes of `"bitty_mint"`.
pub open spec fn seed_bitty_mint() -> Seq<u8> {
    seq![98u8, 105u8, 116u8, 116u8, 121u8, 95u8, 109u8, 105u8, 110u8, 116u8]
}

/// The seed tag of the metadata service's records: the bytes of `"metadata"`.
pub open spec fn seed_metadata() -> Seq<u8> {
    seq![109u8, 101u8, 116u8, 97u8, 100u8, 97u8, 116u8, 97u8]
}

/// The extra seed tag of a master-edition record: the bytes of `"edition"`.
pub open spec fn seed_edition() -> Seq<u8> {
    seq![101u8, 100u8, 105u8, 116u8, 105u8, 111u8, 110u8]
}

pub fn seed_config_bytes() -> (r: Vec<u8>)
    ensures
        r@ == seed_config(),
{
    let r: Vec<u8> = vec![99u8, 111u8, 110u8, 102u8, 105u8, 103u8];
    proof {
        assert(r@ =~= seed_config());
    }
    r
}

pub fn seed_auth_bytes() -> (r: Vec<u8>)
    ensures
        r@ == seed_auth(),
{
    let r: Vec<u8> = vec![97u8, 117u8, 116u8, 104u8];
    proof {
        assert(r@ =~= seed_auth());
    }
    r
}

pub fn seed_collections_bytes() -> (r: Vec<u8>)
    ensures
        r@ == seed_collections(),
{
    let r: Vec<u8> = vec![99u8, 111u8, 108u8, 108u8, 101u8, 99u8, 116u8, 105u8, 111u8, 110u8, 115u8];
    proof {
        assert(r@ =~= seed_collections());
    }
    r
}

pub fn seed_bitty_mint_bytes() -> (r: Vec<u8>)
    ensures
        r@ == seed_bitty_mint(),
{
    let r: Vec<u8> = vec![98u8, 105u8, 116u8, 116u8, 121u8, 95u8, 109u8, 105u8, 110u8, 116u8];
    proof {
        assert(r@ =~= seed_bitty_mint());
    }
    r
}

pub fn seed_metadata_bytes() -> (r: Vec<u8>)
    ensures
        r@ == seed_metadata(),
{
    let r: Vec<u8> = vec![109u8, 101u8, 116u8, 97u8, 100u8, 97u8, 116u8, 97u8];
    proof {
        assert(r@ =~= seed_metadata());
    }
    r
}

pub fn seed_edition_bytes() -> (r: Vec<u8>)
    ensures
        r@ == seed_edition(),
{
    let r: Vec<u8> = vec![101u8, 100u8, 105u8, 116u8, 105u8, 111u8, 110u8];
    proof {
        assert(r@ =~= seed_edition());
    }
    r
}

/// The little-endian 4-byte encoding of a 32-bit value, least significant
/// byte first.
pub open spec fn u32_le(x: u32) -> Seq<u8> {
    seq![
        (x % 256) as u8,
        ((x / 256) % 256) as u8,
        ((x / 65536) % 256) as u8,
        ((x / 16777216) % 256) as u8,
    ]
}

pub fn u32_le_bytes(x: u32) -> (r: Vec<u8>)
    ensures
        r@ == u32_le(x),
{
    let b0: u8 = (x % 256) as u8;
    let b1: u8 = ((x / 256) % 256) as u8;
    let b2: u8 = ((x / 65536) % 256) as u8;
    let b3: u8 = ((x / 16777216) % 256) as u8;
    let r: Vec<u8> = vec![b0, b1, b2, b3];
    proof {
        assert(r@ =~= u32_le(x));
    }
    r
}

/// Copies an address into a growable byte vector, as a seed.
pub fn addr_bytes(a: &Addr) -> (r: Vec<u8>)
    ensures
        r@ == a@,
{
    let mut r: Vec<u8> = Vec::new();
    let mut i: usize = 0;
    while i < 32
        invariant
            0 <= i <= 32,
            r@.len() == i,
            forall|j: int| 0 <= j < i ==> r@[j] == a@[j],
        decreases 32 - i,
    {
        r.push(a[i]);
        i += 1;
    }
    proof {
        assert(r@ =~= a@);
    }
    r
}

/// Byte-for-byte equality of two addresses.
pub fn addr_eq(a: &Addr, b: &Addr) -> (r: bool)
    ensures
        r <==> a@ == b@,
{
    let mut i: usize = 0;
    while i < 32
        invariant
            0 <= i <= 32,
            forall|j: int| 0 <= j < i ==> a@[j] == b@[j],
        decreases 32 - i,
    {
        if a[i] != b[i] {
            return false;
        }
        i += 1;
    }
    proof {
        assert(a@ =~= b@);
    }
    true
}

} // verus!

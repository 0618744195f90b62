//! Fixed-width values that travel through the auctioneer, and the byte
//! order in which integers enter a digest.

use vstd::prelude::*;

verus! {

/// An execution-layer account address.
pub type Address = [u8; 20];

/// A 32-byte hash.
pub type Hash32 = [u8; 32];

/// A compressed BLS public key.
pub type BlsPublicKey = [u8; 48];

/// A compressed BLS signature.
pub type BlsSignature = [u8; 96];

/// A BLS secret key.
pub type SecretKey = [u8; 32];

/// A 256-bit unsigned amount, as four 64-bit limbs, least significant
/// first. The auctioneer carries amounts and never computes with them.
#[derive(Clone, Copy, Debug, PartialEq, Eq)]
pub struct U256 {
    pub limbs: [u64; 4],
}

/// The consensus forks a built payload may belong to.
#[derive(Clone, Copy, Debug, PartialEq, Eq, Structural)]
pub enum Fork {
    Phase0,
    Altair,
    Bellatrix,
    Capella,
    Deneb,
    Electra,
}

/// The eight bytes of `x`, most significant first.
pub open spec fn be_bytes(x: u64) -> Seq<u8> {
    seq![
        (x / 0x0100_0000_0000_0000) as u8,
        ((x / 0x0001_0000_0000_0000) % 256) as u8,
        ((x / 0x0000_0100_0000_0000) % 256) as u8,
        ((x / 0x0000_0001_0000_0000) % 256) as u8,
        ((x / 0x0000_0000_0100_0000) % 256) as u8,
        ((x / 0x0000_0000_0001_0000) % 256) as u8,
        ((x / 0x0000_0000_0000_0100) % 256) as u8,
        (x % 256) as u8,
    ]
}

/// The integer whose most significant byte is `b[0]` and whose least
/// significant byte is `b[7]`. Bytes past the eighth play no part.
pub open spec fn from_be_bytes(b: Seq<u8>) -> u64 {
    (b[0] * 0x0100_0000_0000_0000 + b[1] * 0x0001_0000_0000_0000 + b[2] * 0x0000_0100_0000_0000
        + b[3] * 0x0000_0001_0000_0000 + b[4] * 0x0000_0000_0100_0000 + b[5]
        * 0x0000_0000_0001_0000 + b[6] * 0x0000_0000_0000_0100 + b[7]) as u64
}

/// Writes `x` as eight bytes, most significant first.
pub fn u64_to_be_bytes(x: u64) -> (bytes: [u8; 8])
    ensures
        bytes@ == be_bytes(x),
{
    let bytes = [
        (x / 0x0100_0000_0000_0000) as u8,
        ((x / 0x0001_0000_0000_0000) % 256) as u8,
        ((x / 0x0000_0100_0000_0000) % 256) as u8,
        ((x / 0x0000_0001_0000_0000) % 256) as u8,
        ((x / 0x0000_0000_0100_0000) % 256) as u8,
        ((x / 0x0000_0000_0001_0000) % 256) as u8,
        ((x / 0x0000_0000_0000_0100) % 256) as u8,
        (x % 256) as u8,
    ];
    assert(bytes@ =~= be_bytes(x));
    bytes
}

/// Reads the first eight bytes of a hash as an integer, most significant
/// byte first.
pub fn u64_from_be_prefix(hash: &Hash32) -> (x: u64)
    ensures
        x == from_be_bytes(hash@),
{
    (hash[0] as u64) * 0x0100_0000_0000_0000 + (hash[1] as u64) * 0x0001_0000_0000_0000 + (
    hash[2] as u64) * 0x0000_0100_0000_0000 + (hash[3] as u64) * 0x0000_0001_0000_0000 + (
    hash[4] as u64) * 0x0000_0000_0100_0000 + (hash[5] as u64) * 0x0000_0000_0001_0000 + (
    hash[6] as u64) * 0x0000_0000_0000_0100 + (hash[7] as u64)
}

/// Whether two byte strings of one length hold the same bytes.
pub fn bytes_equal<const N: usize>(a: &[u8; N], b: &[u8; N]) -> (equal: bool)
    ensures
        equal == (*a == *b),
{
    let mut i: usize = 0;
    while i < N
        invariant
            i <= N,
            forall|j: int| 0 <= j < i ==> a@[j] == b@[j],
        decreases N - i,
    {
        if a[i] != b[i] {
            return false;
        }
        i += 1;
    }
    assert(a@ =~= b@);
    assert(*a =~= *b);
    true
}

} // verus!

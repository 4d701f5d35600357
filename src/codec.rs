//! Byte encodings, hashing, signature checks and decompression.
//!
//! The outside work (SCALE length prefixes, Blake2, sr25519, zstd) is done by
//! the crates that define it; what this module states of each call is in its
//! contract, and the framing around the calls is verified.

use parity_scale_codec::Encode;
use vstd::prelude::*;

verus! {

/// The `k` low-order bytes of `n`, least significant first.
pub open spec fn le_bytes(n: nat, k: nat) -> Seq<u8>
    decreases k,
{
    if k == 0 {
        Seq::empty()
    } else {
        seq![(n % 256) as u8] + le_bytes(n / 256, (k - 1) as nat)
    }
}

/// The SCALE compact encoding of a collection length `n < 2^32`.
pub open spec fn compact_len_prefix(n: nat) -> Seq<u8> {
    if n < 64 {
        seq![(n * 4) as u8]
    } else if n < 16384 {
        le_bytes(n * 4 + 1, 2)
    } else if n < 1073741824 {
        le_bytes(n * 4 + 2, 4)
    } else {
        seq![3u8] + le_bytes(n, 4)
    }
}

/// The SCALE encoding of a byte vector: its compact length, then its bytes.
pub open spec fn scale_bytes(b: Seq<u8>) -> Seq<u8> {
    compact_len_prefix(b.len()) + b
}

/// Blake2b with a 256-bit output.
pub uninterp spec fn blake2_256_of(data: Seq<u8>) -> Seq<u8>;

/// Whether `signature` is a valid sr25519 signature of `message` under the
/// public key `public`, in the signing context of Substrate.
pub uninterp spec fn sr25519_verifies(message: Seq<u8>, signature: Seq<u8>, public: Seq<u8>) -> bool;

/// What decompressing `blob` with the bomb limit `limit` gives, or `None` when
/// it fails.
pub uninterp spec fn decompressed_of(blob: Seq<u8>, limit: nat) -> Option<Seq<u8>>;

/// The magic bytes that mark a zstd-compressed blob.
pub open spec fn zstd_prefix() -> Seq<u8> {
    seq![82u8, 188u8, 83u8, 118u8, 70u8, 219u8, 142u8, 5u8]
}

/// Whether a blob carries the compression prefix.
pub open spec fn is_compressed(blob: Seq<u8>) -> bool {
    blob.len() >= 8 && blob.subrange(0, 8) == zstd_prefix()
}

/// Relies on `parity_scale_codec::Encode` for `[u8]`: a compact length
/// prefix followed by the bytes; it panics above `u32::MAX` elements.
#[verifier::external_body]
pub(crate) fn scale_encode_bytes(b: &[u8]) -> (r: Vec<u8>)
    requires
        b@.len() <= u32::MAX,
    ensures
        r@ == scale_bytes(b@),
{
    b.encode()
}

/// Relies on `sp_crypto_hashing::blake2_256`.
#[verifier::external_body]
pub(crate) fn blake2_256(data: &[u8]) -> (r: [u8; 32])
    ensures
        r@ == blake2_256_of(data@),
{
    sp_crypto_hashing::blake2_256(data)
}

/// Relies on `schnorrkel`: `Signature::from_bytes`, `PublicKey::from_bytes`
/// and `PublicKey::verify_simple` in the "substrate" signing context, which is
/// how Substrate checks an sr25519 signature.
#[verifier::external_body]
pub(crate) fn sr25519_verify(message: &[u8], signature: &[u8; 64], public: &[u8; 32]) -> (r: bool)
    ensures
        r == sr25519_verifies(message@, signature@, public@),
{
    let signature = match schnorrkel::Signature::from_bytes(&signature[..]) {
        Ok(s) => s,
        Err(_) => return false,
    };
    match schnorrkel::PublicKey::from_bytes(&public[..]) {
        Ok(p) => p.verify_simple(b"substrate", message, &signature).is_ok(),
        Err(_) => false,
    }
}

/// The bytes that an optional buffer holds.
pub open spec fn bytes_of(b: Option<Vec<u8>>) -> Option<Seq<u8>> {
    match b {
        Some(v) => Some(v@),
        None => None,
    }
}

/// Relies on `sp_maybe_compressed_blob::decompress`: a blob without the
/// prefix comes back as it is; a prefixed one is decoded, and fails when more
/// than `limit` bytes would come out. It panics where `limit + 1` overflows.
#[verifier::external_body]
pub(crate) fn decompress(blob: &[u8], limit: usize) -> (r: Option<Vec<u8>>)
    requires
        limit < usize::MAX,
    ensures
        bytes_of(r) == decompressed_of(blob@, limit as nat),
        !is_compressed(blob@) ==> bytes_of(r) == Some(blob@),
        is_compressed(blob@) && bytes_of(r) is Some ==> bytes_of(r)->0.len() <= limit,
{
    sp_maybe_compressed_blob::decompress(blob, limit).ok().map(|v| v.into_owned())
}

/// The little-endian bytes of a `u32`, as SCALE encodes it.
pub fn u32_le_bytes(n: u32) -> (r: Vec<u8>)
    ensures
        r@ == le_bytes(n as nat, 4),
{
    let mut r: Vec<u8> = Vec::new();
    r.push((n % 256) as u8);
    r.push(((n / 256) % 256) as u8);
    r.push(((n / 65536) % 256) as u8);
    r.push(((n / 16777216) % 256) as u8);
    proof {
        reveal_with_fuel(le_bytes, 5);
        let k = n as nat;
        assert(k / 256 / 256 == k / 65536) by (nonlinear_arith);
        assert(k / 256 / 256 / 256 == k / 16777216) by (nonlinear_arith);
        assert(r@ =~= le_bytes(k, 4));
    }
    r
}

/// Appends `src` to `dst`.
pub fn append_bytes(dst: &mut Vec<u8>, src: &[u8])
    ensures
        final(dst)@ == old(dst)@ + src@,
{
    let mut i: usize = 0;
    while i < src.len()
        invariant
            i <= src@.len(),
            dst@ == old(dst)@ + src@.subrange(0, i as int),
        decreases src@.len() - i,
    {
        dst.push(src[i]);
        i += 1;
        assert(src@.subrange(0, i as int) =~= src@.subrange(0, (i - 1) as int).push(src@[i - 1]));
    }
    assert(src@.subrange(0, src@.len() as int) =~= src@);
}

/// Whether two hashes are equal, byte for byte.
pub fn hash_eq(a: &[u8; 32], b: &[u8; 32]) -> (r: bool)
    ensures
        r == (a@ == b@),
{
    let mut i: usize = 0;
    while i < 32
        invariant
            i <= 32,
            a@.len() == 32,
            b@.len() == 32,
            forall|j: int| 0 <= j < i ==> a@[j] == b@[j],
        decreases 32 - i,
    {
        if a[i] != b[i] {
            return false;
        }
        i += 1;
    }
    assert(a@ =~= b@);
    true
}

} // verus!

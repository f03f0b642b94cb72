//! Perceptual fingerprints of captured frames: a trusted wrapper around the
//! frequency-domain image hash, and a verified Hamming distance over the
//! fingerprint bytes used to detect near-duplicate frames.

use vstd::prelude::*;

verus! {

/// Fingerprints closer than this many differing bits are near-duplicates.
pub const PHASH_DIST_THRESHOLD: u32 = 200;

/// The perceptual fingerprint of a PNG image, as `image_hasher` computes it:
/// a 32x32-bit DCT-preprocessed gradient hash packed into 128 bytes.  The
/// fingerprint is a function of the image bytes alone.
pub uninterp spec fn phash_bytes(png: Seq<u8>) -> Seq<u8>;

/// The number of one bits among the low `n` bits of `x`.
pub open spec fn count_bits(x: u8, n: nat) -> nat
    decreases n,
{
    if n == 0 {
        0
    } else {
        (x & 1) as nat + count_bits(x >> 1u8, (n - 1) as nat)
    }
}

/// The number of one bits in a byte.
pub open spec fn count_ones_u8(x: u8) -> nat {
    count_bits(x, 8)
}

/// The Hamming distance between two equally long byte strings: the number of
/// bit positions at which they differ.
pub open spec fn spec_hamming(a: Seq<u8>, b: Seq<u8>) -> nat
    decreases a.len(),
{
    if a.len() == 0 || b.len() == 0 {
        0
    } else {
        count_ones_u8(a.last() ^ b.last()) + spec_hamming(a.drop_last(), b.drop_last())
    }
}

/// The all-zero byte has no one bits.
proof fn lemma_count_bits_zero(n: nat)
    ensures
        count_bits(0, n) == 0,
    decreases n,
{
    if n > 0 {
        assert(0u8 & 1 == 0) by (bit_vector);
        assert(0u8 >> 1u8 == 0) by (bit_vector);
        lemma_count_bits_zero((n - 1) as nat);
    }
}

/// A byte string is at Hamming distance zero from itself.
pub proof fn lemma_hamming_self(a: Seq<u8>)
    ensures
        spec_hamming(a, a) == 0,
    decreases a.len(),
{
    if a.len() > 0 {
        let x = a.last();
        assert(x ^ x == 0) by (bit_vector);
        lemma_count_bits_zero(8);
        lemma_hamming_self(a.drop_last());
    }
}

/// Count the one bits in a byte.
fn popcount_u8(x: u8) -> (r: u32)
    ensures
        r == count_ones_u8(x),
        r <= 8,
{
    let mut cnt: u32 = 0;
    let mut cur: u8 = x;
    let mut bit: usize = 0;
    while bit < 8
        invariant
            bit <= 8,
            cnt <= bit,
            cnt + count_bits(cur, (8 - bit) as nat) == count_bits(x, 8),
        decreases 8 - bit,
    {
        proof {
            assert(cur & 1 <= 1) by (bit_vector);
        }
        cnt = cnt + (cur & 1) as u32;
        cur = cur >> 1;
        bit = bit + 1;
    }
    proof {
        assert(count_bits(cur, 0) == 0);
    }
    cnt
}

/// The Hamming distance between two fingerprints of equal length.
pub fn hamming_distance(a: &Vec<u8>, b: &Vec<u8>) -> (r: u32)
    requires
        a@.len() == b@.len(),
        a@.len() <= 0x00ff_ffff,
    ensures
        r == spec_hamming(a@, b@),
{
    let mut dist: u32 = 0;
    let mut i: usize = 0;
    let len = a.len();
    while i < len
        invariant
            i <= len,
            len == a@.len(),
            len == b@.len(),
            len <= 0x00ff_ffff,
            dist <= 8 * i,
            dist == spec_hamming(a@.take(i as int), b@.take(i as int)),
        decreases len - i,
    {
        proof {
            assert(a@.take(i + 1).drop_last() =~= a@.take(i as int));
            assert(b@.take(i + 1).drop_last() =~= b@.take(i as int));
        }
        dist = dist + popcount_u8(a[i] ^ b[i]);
        i = i + 1;
    }
    proof {
        assert(a@.take(len as int) =~= a@);
        assert(b@.take(len as int) =~= b@);
    }
    dist
}

/// Compute the perceptual fingerprint of a PNG-encoded frame, or `None`
/// exactly when the bytes cannot be decoded as an image.
///
/// Relies on `image::load_from_memory` and `image_hasher`'s DCT-preprocessed
/// 32x32 gradient hash: decoding is deterministic in the bytes, hashing a
/// decoded image cannot fail, and the fingerprint depends on the image bytes
/// alone and holds 1024 bits packed into 128 bytes.
#[verifier::external_body]
pub fn calculate_perceptual_hash(png_data: &Vec<u8>) -> (r: Option<Vec<u8>>)
    ensures
        r is Some <==> crate::imaging::png_decodes(png_data@),
        r matches Some(h) ==> h@ == phash_bytes(png_data@) && h@.len() == 128,
{
    let img = match image::load_from_memory(png_data.as_slice()) {
        Ok(img) => img,
        Err(_) => return None,
    };
    let hasher = image_hasher::HasherConfig::new().hash_size(32, 32).preproc_dct().to_hasher();
    let hash = hasher.hash_image(&img);
    Some(hash.as_bytes().to_vec())
}

} // verus!

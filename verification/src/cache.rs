//! Cache keys for geocoder answers.
use vstd::prelude::*;
use vstd::utf8::encode_utf8;
use crate::text::{hex16, hex_digits};

verus! {

/// The FNV-1a offset basis.
pub const FNV_OFFSET_BASIS: u64 = 0xcbf29ce484222325;

/// The FNV-1a prime.
pub const FNV_PRIME: u64 = 0x100000001b3;

/// The 64-bit FNV-1a hash of `bytes`: from the offset basis, each byte is XORed in and
/// the hash multiplied by the prime, modulo 2^64.
pub open spec fn fnv1a(bytes: Seq<u8>) -> u64
    decreases bytes.len(),
{
    if bytes.len() == 0 {
        FNV_OFFSET_BASIS
    } else {
        let mixed = fnv1a(bytes.drop_last()) ^ (bytes.last() as u64);
        ((mixed as nat * FNV_PRIME as nat) % 0x1_0000_0000_0000_0000) as u64
    }
}

/// The cache key of a normalised query: `place-v2-`, the query's FNV-1a hash in 16
/// lower-case hexadecimal digits, and `.json`.
pub open spec fn cache_key(query: Seq<char>) -> Seq<char> {
    "place-v2-"@ + hex_digits(fnv1a(encode_utf8(query)) as nat, 16) + ".json"@
}

/// The 64-bit FNV-1a hash of the UTF-8 bytes of `text`.
pub fn fnv1a_hash(text: &str) -> (res: u64)
    ensures
        res == fnv1a(encode_utf8(text@)),
{
    let bytes = text.as_bytes();
    let mut hash: u64 = FNV_OFFSET_BASIS;
    let mut i: usize = 0;
    while i < bytes.len()
        invariant
            i <= bytes.len(),
            bytes@ == encode_utf8(text@),
            hash == fnv1a(bytes@.take(i as int)),
        decreases bytes.len() - i,
    {
        assert(bytes@.take(i + 1).drop_last() =~= bytes@.take(i as int));
        hash = hash ^ (bytes[i] as u64);
        hash = hash.wrapping_mul(FNV_PRIME);
        i = i + 1;
    }
    assert(bytes@.take(bytes.len() as int) =~= bytes@);
    hash
}

/// The cache key under which the places found for a normalised query are kept.
pub fn place_cache_key(query: &str) -> (res: String)
    ensures
        res@ == cache_key(query@),
{
    let mut key = String::from_str("place-v2-");
    let digits = hex16(fnv1a_hash(query));
    key.append(digits.as_str());
    key.append(".json");
    key
}

proof fn lemma_hex_digits_len(n: nat, width: nat)
    ensures
        hex_digits(n, width).len() == width,
    decreases width,
{
    if width > 0 {
        lemma_hex_digits_len(n / 16, (width - 1) as nat);
    }
}

/// Every cache key is 30 characters long: the prefix, 16 digits and the suffix.
pub proof fn law_cache_key_length(query: Seq<char>)
    ensures
        cache_key(query).len() == 30,
{
    reveal_strlit("place-v2-");
    reveal_strlit(".json");
    lemma_hex_digits_len(fnv1a(encode_utf8(query)) as nat, 16);
}

} // verus!

//! The keyed digest that authenticates attestations.
//!
//! Two 64-byte blocks start as the inner and outer pad constants; the first
//! (at most 64) bytes of the key are XORed into both. Keys longer than one
//! block are cut to their first 64 bytes, not hashed first: signatures made
//! that way must keep verifying. The result is
//! `hex(H(outer || H(inner || message)))` with `H` = SHA-256.
use vstd::prelude::*;
use vstd::utf8::encode_utf8;

verus! {

/// Size of the hash function's input block, in bytes.
pub const BLOCK_LEN: usize = 64;

/// Inner pad constant.
pub const INNER_PAD: u8 = 0x36;

/// Outer pad constant.
pub const OUTER_PAD: u8 = 0x5c;

/// The SHA-256 digest of `data`.
pub uninterp spec fn sha256_of(data: Seq<u8>) -> Seq<u8>;

/// Relies on `sha2::Sha256::digest` (via `sha2::Digest`): the 32-byte SHA-256
/// digest of `data`.
#[verifier::external_body]
fn sha256(data: &[u8]) -> (r: Vec<u8>)
    ensures
        r@ == sha256_of(data@),
        r@.len() == 32,
{
    <sha2::Sha256 as sha2::Digest>::digest(data).to_vec()
}

/// The lowercase hex digit for a nibble.
pub open spec fn hex_digit(n: int) -> char
    recommends
        0 <= n < 16,
{
    seq!['0', '1', '2', '3', '4', '5', '6', '7', '8', '9', 'a', 'b', 'c', 'd', 'e', 'f'][n]
}

/// Whether `c` is one of `0-9a-f`.
pub open spec fn is_lower_hex_digit(c: char) -> bool {
    exists|n: int| 0 <= n < 16 && hex_digit(n) == c
}

/// Lowercase hex of `b`: two digits per byte, high nibble first.
pub open spec fn hex_of(b: Seq<u8>) -> Seq<char> {
    Seq::new(
        2 * b.len(),
        |i: int|
            if i % 2 == 0 {
                hex_digit(b[i / 2] as int / 16)
            } else {
                hex_digit(b[i / 2] as int % 16)
            },
    )
}

/// Relies on `hex::encode`: each byte becomes two digits from
/// `0123456789abcdef`, high nibble first.
#[verifier::external_body]
fn to_hex(b: &[u8]) -> (r: String)
    ensures
        r@ == hex_of(b@),
{
    hex::encode(b)
}

/// A 64-byte block holding `pad` XOR the key's first bytes, and `pad` past
/// the key's end.
pub open spec fn pad_block(key: Seq<u8>, pad: u8) -> Seq<u8> {
    Seq::new(
        BLOCK_LEN as nat,
        |i: int|
            if i < key.len() {
                key[i] ^ pad
            } else {
                pad
            },
    )
}

/// The 32-byte keyed digest of `msg` under `key`.
pub open spec fn mac_digest(key: Seq<u8>, msg: Seq<u8>) -> Seq<u8> {
    sha256_of(pad_block(key, OUTER_PAD) + sha256_of(pad_block(key, INNER_PAD) + msg))
}

/// The MAC of `msg` under `key`, both taken as their UTF-8 bytes, in lowercase hex.
pub open spec fn mac_hex(key: Seq<char>, msg: Seq<char>) -> Seq<char> {
    hex_of(mac_digest(encode_utf8(key), encode_utf8(msg)))
}

/// Hex encoding gives two lowercase hex digits per byte.
pub proof fn lemma_hex_of_shape(b: Seq<u8>)
    ensures
        hex_of(b).len() == 2 * b.len(),
        forall|i: int| 0 <= i < hex_of(b).len() ==> is_lower_hex_digit(#[trigger] hex_of(b)[i]),
{
    assert forall|i: int| 0 <= i < hex_of(b).len() implies is_lower_hex_digit(
        #[trigger] hex_of(b)[i],
    ) by {
        let n = if i % 2 == 0 {
            b[i / 2] as int / 16
        } else {
            b[i / 2] as int % 16
        };
        assert(0 <= n < 16);
        assert(hex_of(b)[i] == hex_digit(n));
    }
}

/// The MAC is a function of key and message alone: equal inputs give equal
/// outputs.
pub proof fn lemma_mac_deterministic(k1: Seq<char>, m1: Seq<char>, k2: Seq<char>, m2: Seq<char>)
    requires
        k1 == k2,
        m1 == m2,
    ensures
        mac_hex(k1, m1) == mac_hex(k2, m2),
{
}

/// A block that starts as `pad`, with the key's first bytes XORed in.
fn make_pad_block(key: &[u8], pad: u8) -> (r: Vec<u8>)
    ensures
        r@ == pad_block(key@, pad),
{
    let mut block: Vec<u8> = Vec::new();
    let mut i: usize = 0;
    while i < BLOCK_LEN
        invariant
            i <= BLOCK_LEN,
            block@ =~= pad_block(key@, pad).subrange(0, i as int),
        decreases BLOCK_LEN - i,
    {
        if i < key.len() {
            block.push(key[i] ^ pad);
        } else {
            block.push(pad);
        }
        i = i + 1;
    }
    block
}

/// `a` followed by `b`.
fn concat_bytes(a: &[u8], b: &[u8]) -> (r: Vec<u8>)
    ensures
        r@ == a@ + b@,
{
    let mut out: Vec<u8> = Vec::new();
    let mut i: usize = 0;
    while i < a.len()
        invariant
            i <= a@.len(),
            out@ =~= a@.subrange(0, i as int),
        decreases a@.len() - i,
    {
        out.push(a[i]);
        i = i + 1;
    }
    let mut j: usize = 0;
    while j < b.len()
        invariant
            j <= b@.len(),
            out@ =~= a@ + b@.subrange(0, j as int),
        decreases b@.len() - j,
    {
        out.push(b[j]);
        j = j + 1;
    }
    out
}

/// The MAC of `msg` keyed by `key`, as 64 lowercase hex digits.
pub fn hmac_sha256(key: &str, msg: &str) -> (r: String)
    ensures
        r@ == mac_hex(key@, msg@),
        r@.len() == 64,
        forall|i: int| 0 <= i < r@.len() ==> is_lower_hex_digit(#[trigger] r@[i]),
{
    let key_bytes = key.as_bytes();
    let msg_bytes = msg.as_bytes();
    let inner_block = make_pad_block(key_bytes, INNER_PAD);
    let outer_block = make_pad_block(key_bytes, OUTER_PAD);
    let inner_input = concat_bytes(inner_block.as_slice(), msg_bytes);
    let inner_hash = sha256(inner_input.as_slice());
    let outer_input = concat_bytes(outer_block.as_slice(), inner_hash.as_slice());
    let outer_hash = sha256(outer_input.as_slice());
    let r = to_hex(outer_hash.as_slice());
    proof {
        lemma_hex_of_shape(outer_hash@);
    }
    r
}

} // verus!

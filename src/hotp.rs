//! Counter-based one-time passwords: HMAC over an eight-byte counter, then
//! dynamic truncation to a decimal code.
use hmac::{Hmac, Mac, NewMac};
use sha2::{Sha256, Sha512};
use vstd::prelude::*;

verus! {

/// The hash function under the keyed hash.
#[derive(Clone, Copy, Debug, PartialEq, Eq, Structural)]
pub enum HashType {
    Sha1,
    Sha256,
    Sha512,
}

/// The number by which a selector names `alg`: its digest width in bits,
/// with 1 for SHA-1.
pub open spec fn selector_of(alg: HashType) -> u64 {
    match alg {
        HashType::Sha1 => 1,
        HashType::Sha256 => 256,
        HashType::Sha512 => 512,
    }
}

impl HashType {
    /// The hash function that `selector` names; None for any number but 1,
    /// 256 and 512.
    pub fn from_selector(selector: u64) -> (r: Option<HashType>)
        ensures
            r is Some <==> (selector == 1 || selector == 256 || selector == 512),
            r is Some ==> selector_of(r->Some_0) == selector,
    {
        match selector {
            1 => Some(HashType::Sha1),
            256 => Some(HashType::Sha256),
            512 => Some(HashType::Sha512),
            _ => None,
        }
    }
}

/// No two hash functions share a selector.
pub proof fn lemma_selector_exclusive(a: HashType, b: HashType)
    requires
        selector_of(a) == selector_of(b),
    ensures
        a == b,
{
}

/// `10^d`.
pub open spec fn pow10(d: nat) -> nat
    decreases d,
{
    if d == 0 {
        1
    } else {
        10 * pow10((d - 1) as nat)
    }
}

/// The HMAC-SHA-1 tag of `msg` under `key`.
pub uninterp spec fn hmac_sha1_of(key: Seq<u8>, msg: Seq<u8>) -> Seq<u8>;

/// The HMAC-SHA-256 tag of `msg` under `key`.
pub uninterp spec fn hmac_sha256_of(key: Seq<u8>, msg: Seq<u8>) -> Seq<u8>;

/// The HMAC-SHA-512 tag of `msg` under `key`.
pub uninterp spec fn hmac_sha512_of(key: Seq<u8>, msg: Seq<u8>) -> Seq<u8>;

/// The keyed hash that `alg` selects.
pub open spec fn hmac_of(alg: HashType, key: Seq<u8>, msg: Seq<u8>) -> Seq<u8> {
    match alg {
        HashType::Sha1 => hmac_sha1_of(key, msg),
        HashType::Sha256 => hmac_sha256_of(key, msg),
        HashType::Sha512 => hmac_sha512_of(key, msg),
    }
}

/// Length in bytes of the tag that `alg` produces.
pub open spec fn digest_len(alg: HashType) -> nat {
    match alg {
        HashType::Sha1 => 20,
        HashType::Sha256 => 32,
        HashType::Sha512 => 64,
    }
}

/// Where the four truncated bytes start: the low nibble of the last byte.
pub open spec fn truncation_offset(h: Seq<u8>) -> int {
    (h.last() % 16) as int
}

/// The four bytes of `h` from `i` on, read as a big-endian number.
pub open spec fn be_word_at(h: Seq<u8>, i: int) -> nat {
    (h[i] as nat) * 0x100_0000 + (h[i + 1] as nat) * 0x1_0000 + (h[i + 2] as nat) * 0x100 + (
    h[i + 3] as nat)
}

/// The 31-bit value that dynamic truncation takes from a digest (the top bit
/// of the big-endian word dropped).
pub open spec fn truncated_value(h: Seq<u8>) -> nat {
    be_word_at(h, truncation_offset(h)) % 0x8000_0000
}

/// The code that a digest gives for `digits` decimal digits.
pub open spec fn code_of(h: Seq<u8>, digits: nat) -> nat {
    truncated_value(h) % pow10(digits)
}

/// The HOTP code of `counter` under `secret`.
pub open spec fn hotp_value(secret: Seq<u8>, counter: Seq<u8>, digits: nat, alg: HashType) -> nat {
    code_of(hmac_of(alg, secret, counter), digits)
}

proof fn lemma_pow10_monotone(a: nat, b: nat)
    requires
        a <= b,
    ensures
        pow10(a) <= pow10(b),
    decreases b,
{
    if a < b {
        lemma_pow10_monotone(a, (b - 1) as nat);
    }
}

/// Every power of ten up to the nineteenth fits in a `u64`.
proof fn lemma_pow10_fits(d: nat)
    requires
        d <= 19,
    ensures
        0 < pow10(d) <= 10_000_000_000_000_000_000,
{
    lemma_pow10_monotone(d, 19);
    lemma_pow10_positive(d);
    reveal_with_fuel(pow10, 20);
}

proof fn lemma_pow10_positive(d: nat)
    ensures
        pow10(d) > 0,
    decreases d,
{
    if d > 0 {
        lemma_pow10_positive((d - 1) as nat);
    }
}

/// `10^digits` as a machine integer.
fn pow10_u64(digits: u32) -> (r: u64)
    requires
        digits <= 19,
    ensures
        r == pow10(digits as nat),
{
    let mut r: u64 = 1;
    let mut i: u32 = 0;
    while i < digits
        invariant
            i <= digits <= 19,
            r == pow10(i as nat),
        decreases digits - i,
    {
        proof {
            lemma_pow10_fits((i + 1) as nat);
        }
        r = r * 10;
        i = i + 1;
    }
    r
}

/// Relies on hmacsha1::hmac_sha1: the HMAC-SHA-1 tag of `msg` under `key`,
/// which it returns as a 20-byte array.
#[verifier::external_body]
fn hmac_sha1_tag(key: &[u8], msg: &[u8]) -> (r: Vec<u8>)
    ensures
        r@ == hmac_sha1_of(key@, msg@),
        r@.len() == 20,
{
    hmacsha1::hmac_sha1(key, msg).to_vec()
}

/// Relies on hmac::Hmac over sha2::Sha256 (new_varkey, update, finalize): the
/// HMAC-SHA-256 tag of `msg` under `key`, 32 bytes (Sha256's output size).
/// new_varkey returns Ok for keys of every length.
#[verifier::external_body]
fn hmac_sha256_tag(key: &[u8], msg: &[u8]) -> (r: Vec<u8>)
    ensures
        r@ == hmac_sha256_of(key@, msg@),
        r@.len() == 32,
{
    let mut mac = Hmac::<Sha256>::new_varkey(key).expect("HMAC takes keys of any length");
    mac.update(msg);
    mac.finalize().into_bytes().to_vec()
}

/// Relies on hmac::Hmac over sha2::Sha512 (new_varkey, update, finalize): the
/// HMAC-SHA-512 tag of `msg` under `key`, 64 bytes (Sha512's output size).
/// new_varkey returns Ok for keys of every length.
#[verifier::external_body]
fn hmac_sha512_tag(key: &[u8], msg: &[u8]) -> (r: Vec<u8>)
    ensures
        r@ == hmac_sha512_of(key@, msg@),
        r@.len() == 64,
{
    let mut mac = Hmac::<Sha512>::new_varkey(key).expect("HMAC takes keys of any length");
    mac.update(msg);
    mac.finalize().into_bytes().to_vec()
}

/// The keyed hash of `counter` under `secret`, with the hash that `digest` selects.
pub fn generate_hasher(secret: &[u8], counter: &[u8], digest: HashType) -> (r: Vec<u8>)
    requires
        counter@.len() == 8,
    ensures
        r@ == hmac_of(digest, secret@, counter@),
        r@.len() == digest_len(digest),
{
    match digest {
        HashType::Sha1 => hmac_sha1_tag(secret, counter),
        HashType::Sha256 => hmac_sha256_tag(secret, counter),
        HashType::Sha512 => hmac_sha512_tag(secret, counter),
    }
}

/// Dynamic truncation: the decimal code of `digits` digits that `hasher` gives.
pub fn truncate_hasher(hasher: &[u8], digits: u32) -> (r: u64)
    requires
        hasher@.len() >= 20,
        digits <= 19,
    ensures
        r == code_of(hasher@, digits as nat),
        r < pow10(digits as nat),
{
    let last: u8 = hasher[hasher.len() - 1];
    let offset: usize = (last & 0xf) as usize;
    assert(last & 0xf == last % 16) by (bit_vector);
    let b0: u64 = hasher[offset] as u64;
    let b1: u64 = hasher[offset + 1] as u64;
    let b2: u64 = hasher[offset + 2] as u64;
    let b3: u64 = hasher[offset + 3] as u64;
    let word: u64 = (b0 << 24) | (b1 << 16) | (b2 << 8) | b3;
    assert(word == b0 * 0x100_0000 + b1 * 0x1_0000 + b2 * 0x100 + b3) by (bit_vector)
        requires
            b0 < 256 && b1 < 256 && b2 < 256 && b3 < 256,
            word == (b0 << 24) | (b1 << 16) | (b2 << 8) | b3,
    ;
    let value: u64 = word & 0x7fff_ffff;
    assert(value == word % 0x8000_0000) by (bit_vector)
        requires
            value == word & 0x7fff_ffff,
    ;
    let modulus: u64 = pow10_u64(digits);
    proof {
        lemma_pow10_fits(digits as nat);
    }
    value % modulus
}

/// The HOTP code of `counter` under `secret`: `digits` decimal digits of the
/// keyed hash that `digest` selects, by dynamic truncation.
pub fn generate_otp(secret: &[u8], counter: &[u8], digits: u32, digest: HashType) -> (r: u64)
    requires
        counter@.len() == 8,
        digits <= 19,
    ensures
        r == hotp_value(secret@, counter@, digits as nat, digest),
        r < pow10(digits as nat),
{
    let hasher = generate_hasher(secret, counter, digest);
    truncate_hasher(hasher.as_slice(), digits)
}

/// Every HOTP code is below `10^digits`.
pub proof fn lemma_hotp_in_range(secret: Seq<u8>, counter: Seq<u8>, digits: nat, alg: HashType)
    ensures
        hotp_value(secret, counter, digits, alg) < pow10(digits),
{
    lemma_pow10_positive(digits);
}

/// HOTP derivation depends on its inputs alone: equal secrets, counters,
/// digit counts and hash functions give equal codes.
pub proof fn lemma_hotp_pure(
    secret1: Seq<u8>,
    secret2: Seq<u8>,
    counter1: Seq<u8>,
    counter2: Seq<u8>,
    digits: nat,
    alg: HashType,
)
    requires
        secret1 == secret2,
        counter1 == counter2,
    ensures
        hotp_value(secret1, counter1, digits, alg) == hotp_value(secret2, counter2, digits, alg),
{
}

} // verus!

//! Byte-to-text encodings and numeric renderings used for canonical
//! message construction and certificate field comparison.

use vstd::prelude::*;

verus! {

/// The lowercase hex digit, as an ASCII byte, of a value below 16.
pub open spec fn hex_digit(n: u8) -> u8
    recommends
        n < 16,
{
    if n < 10 {
        (48 + n) as u8
    } else {
        (87 + n) as u8
    }
}

/// The lowercase hex encoding of a byte sequence: each byte becomes two
/// ASCII digits, high nibble first.
pub open spec fn hex_of(s: Seq<u8>) -> Seq<u8> {
    Seq::new(
        2 * s.len(),
        |i: int|
            if i % 2 == 0 {
                hex_digit(s[i / 2] / 16)
            } else {
                hex_digit(s[i / 2] % 16)
            },
    )
}

/// Relies on hex::encode: each input byte becomes two lowercase hex
/// digits over the alphabet 0-9 a-f, high nibble first.
#[verifier::external_body]
pub(crate) fn hex_bytes(data: &Vec<u8>) -> (r: Vec<u8>)
    ensures
        r@ == hex_of(data@),
{
    hex::encode(data.as_slice()).into_bytes()
}

pub proof fn lemma_hex_digit_injective(a: u8, b: u8)
    requires
        a < 16,
        b < 16,
        hex_digit(a) == hex_digit(b),
    ensures
        a == b,
{
}

/// Hex encoding loses nothing: equal encodings come from equal bytes.
pub proof fn lemma_hex_of_injective(a: Seq<u8>, b: Seq<u8>)
    requires
        hex_of(a) == hex_of(b),
    ensures
        a == b,
{
    assert(hex_of(a).len() == 2 * a.len());
    assert(hex_of(b).len() == 2 * b.len());
    assert(hex_of(a).len() == hex_of(b).len());
    assert(a.len() == b.len());
    assert forall|i: int| 0 <= i < a.len() implies a[i] == b[i] by {
        assert(hex_of(a)[2 * i] == hex_of(b)[2 * i]);
        assert(hex_of(a)[2 * i + 1] == hex_of(b)[2 * i + 1]);
        assert(hex_of(a)[2 * i] == hex_digit(a[i] / 16));
        assert(hex_of(b)[2 * i] == hex_digit(b[i] / 16));
        assert(hex_of(a)[2 * i + 1] == hex_digit(a[i] % 16));
        assert(hex_of(b)[2 * i + 1] == hex_digit(b[i] % 16));
        lemma_hex_digit_injective(a[i] / 16, b[i] / 16);
        lemma_hex_digit_injective(a[i] % 16, b[i] % 16);
        assert(a[i] == 16 * (a[i] / 16) + a[i] % 16);
        assert(b[i] == 16 * (b[i] / 16) + b[i] % 16);
    }
    assert(a =~= b);
}

/// The result of the textual identity encoding (base58, Bitcoin
/// alphabet); it depends on the input bytes alone.
pub uninterp spec fn base58_of(s: Seq<u8>) -> Seq<u8>;

/// Relies on bs58::encode(..).into_string(): the base58 rendering of the
/// input over the Bitcoin alphabet, a function of the input bytes alone.
#[verifier::external_body]
pub(crate) fn base58_bytes(data: &Vec<u8>) -> (r: Vec<u8>)
    ensures
        r@ == base58_of(data@),
{
    bs58::encode(data.as_slice()).into_string().into_bytes()
}

/// The 32-byte SHA-256 digest of a byte sequence; it depends on the
/// input bytes alone.
pub uninterp spec fn sha256_of(s: Seq<u8>) -> Seq<u8>;

/// Relies on solana_program::hash::hash, the SHA-256 digest, whose
/// 32-byte result is a function of the input bytes alone.
#[verifier::external_body]
pub(crate) fn sha256_bytes(data: &Vec<u8>) -> (r: Vec<u8>)
    ensures
        r@ == sha256_of(data@),
        r@.len() == 32,
{
    solana_program::hash::hash(data.as_slice()).to_bytes().to_vec()
}

/// The decimal rendering of a natural number as ASCII digits, without
/// leading zeros.
pub open spec fn dec_of(n: nat) -> Seq<u8>
    decreases n,
{
    if n < 10 {
        seq![(48 + n) as u8]
    } else {
        dec_of(n / 10).push((48 + n % 10) as u8)
    }
}

/// Renders a number in decimal, exactly as its `dec_of` spec.
pub fn u64_to_dec(n: u64) -> (r: Vec<u8>)
    ensures
        r@ == dec_of(n as nat),
    decreases n,
{
    if n < 10 {
        let mut v: Vec<u8> = Vec::new();
        v.push(48 + n as u8);
        proof {
            assert(v@ =~= dec_of(n as nat));
        }
        v
    } else {
        let mut v = u64_to_dec(n / 10);
        v.push(48 + (n % 10) as u8);
        v
    }
}

pub proof fn lemma_dec_of_len(n: nat)
    ensures
        dec_of(n).len() >= 1,
        n >= 10 ==> dec_of(n).len() >= 2,
    decreases n,
{
    if n >= 10 {
        lemma_dec_of_len(n / 10);
    }
}

/// Decimal rendering loses nothing: equal renderings come from equal
/// numbers.
pub proof fn lemma_dec_of_injective(a: nat, b: nat)
    requires
        dec_of(a) == dec_of(b),
    ensures
        a == b,
    decreases a,
{
    if a < 10 && b < 10 {
        assert(dec_of(a) == seq![(48 + a) as u8]);
        assert(dec_of(b) == seq![(48 + b) as u8]);
        assert(dec_of(a)[0] == dec_of(b)[0]);
        assert(dec_of(a)[0] == (48 + a) as u8);
        assert(dec_of(b)[0] == (48 + b) as u8);
        assert((48 + a) as u8 == (48 + b) as u8);
        assert(48 + a < 256 && 48 + b < 256);
    } else if a < 10 {
        lemma_dec_of_len(b / 10);
        assert(dec_of(a).len() == 1);
        assert(dec_of(b).len() == dec_of(b / 10).len() + 1);
        assert(dec_of(a).len() == dec_of(b).len());
    } else if b < 10 {
        lemma_dec_of_len(a / 10);
        assert(dec_of(b).len() == 1);
        assert(dec_of(a).len() == dec_of(a / 10).len() + 1);
        assert(dec_of(a).len() == dec_of(b).len());
    } else {
        assert(dec_of(a) == dec_of(a / 10).push((48 + a % 10) as u8));
        assert(dec_of(b) == dec_of(b / 10).push((48 + b % 10) as u8));
        assert(dec_of(a).last() == (48 + a % 10) as u8);
        assert(dec_of(b).last() == (48 + b % 10) as u8);
        assert(dec_of(a).last() == dec_of(b).last());
        assert(a % 10 == b % 10);
        assert(dec_of(a).drop_last() =~= dec_of(a / 10));
        assert(dec_of(b).drop_last() =~= dec_of(b / 10));
        assert(dec_of(a / 10) == dec_of(b / 10));
        lemma_dec_of_injective(a / 10, b / 10);
        assert(a / 10 == b / 10);
        assert(a == 10 * (a / 10) + a % 10);
        assert(b == 10 * (b / 10) + b % 10);
    }
}

/// The eight little-endian bytes of a 64-bit number.
pub open spec fn le64_of(n: u64) -> Seq<u8> {
    seq![
        (n % 256) as u8,
        ((n / 0x100) % 256) as u8,
        ((n / 0x1_0000) % 256) as u8,
        ((n / 0x100_0000) % 256) as u8,
        ((n / 0x1_0000_0000) % 256) as u8,
        ((n / 0x100_0000_0000) % 256) as u8,
        ((n / 0x1_0000_0000_0000) % 256) as u8,
        ((n / 0x100_0000_0000_0000) % 256) as u8,
    ]
}

/// Renders a number as its eight little-endian bytes, exactly as its
/// `le64_of` spec.
pub fn u64_le_bytes(n: u64) -> (r: Vec<u8>)
    ensures
        r@ == le64_of(n),
{
    let mut v: Vec<u8> = Vec::new();
    v.push((n % 256) as u8);
    v.push(((n / 0x100) % 256) as u8);
    v.push(((n / 0x1_0000) % 256) as u8);
    v.push(((n / 0x100_0000) % 256) as u8);
    v.push(((n / 0x1_0000_0000) % 256) as u8);
    v.push(((n / 0x100_0000_0000) % 256) as u8);
    v.push(((n / 0x1_0000_0000_0000) % 256) as u8);
    v.push(((n / 0x100_0000_0000_0000) % 256) as u8);
    proof {
        assert(v@ =~= le64_of(n));
    }
    v
}

/// Byte-for-byte equality of two byte vectors.
pub fn bytes_eq(a: &Vec<u8>, b: &Vec<u8>) -> (r: bool)
    ensures
        r == (a@ == b@),
{
    if a.len() != b.len() {
        return false;
    }
    let mut i: usize = 0;
    while i < a.len()
        invariant
            i <= a.len(),
            a.len() == b.len(),
            forall|j: int| 0 <= j < i ==> a@[j] == b@[j],
        decreases a.len() - i,
    {
        if a[i] != b[i] {
            return false;
        }
        i += 1;
    }
    proof {
        assert(a@ =~= b@);
    }
    true
}

/// A fresh copy of a byte vector.
pub fn copy_bytes(a: &Vec<u8>) -> (r: Vec<u8>)
    ensures
        r@ == a@,
{
    let mut v: Vec<u8> = Vec::new();
    let mut i: usize = 0;
    while i < a.len()
        invariant
            i <= a.len(),
            v@ == a@.subrange(0, i as int),
        decreases a.len() - i,
    {
        v.push(a[i]);
        i += 1;
        proof {
            assert(v@ =~= a@.subrange(0, i as int));
        }
    }
    proof {
        assert(v@ =~= a@);
    }
    v
}

/// Appends one byte vector to another.
pub fn append_bytes(dst: &mut Vec<u8>, src: &Vec<u8>)
    ensures
        final(dst)@ == old(dst)@ + src@,
{
    let mut i: usize = 0;
    while i < src.len()
        invariant
            i <= src.len(),
            dst@ == old(dst)@ + src@.subrange(0, i as int),
        decreases src.len() - i,
    {
        dst.push(src[i]);
        i += 1;
        proof {
            assert(dst@ =~= old(dst)@ + src@.subrange(0, i as int));
        }
    }
    proof {
        assert(dst@ =~= old(dst)@ + src@);
    }
}

} // verus!

//! Content hashing of records and canonical word encodings of field values.
//!
//! A record is hashed over a canonical sequence of 64-bit words built from its
//! fields; the hash is the 64-bit FNV-1a fold of those words, read as `i64`.

use vstd::prelude::*;

verus! {

/// FNV-1a offset basis.
pub const HASH_OFFSET: u64 = 0xcbf2_9ce4_8422_2325;

/// FNV-1a prime.
pub const HASH_PRIME: u64 = 0x0000_0100_0000_01b3;

/// One step of the fold: xor the word in, multiply by the prime modulo 2^64.
pub open spec fn mix(h: u64, w: u64) -> u64 {
    (((h ^ w) as nat * HASH_PRIME as nat) % 0x1_0000_0000_0000_0000nat) as u64
}

/// The fold of `words` from the offset basis, first word first.
pub open spec fn fold_words(words: Seq<u64>) -> u64
    decreases words.len(),
{
    if words.len() == 0 {
        HASH_OFFSET
    } else {
        mix(fold_words(words.drop_last()), words.last())
    }
}

/// The signed 64-bit hash of a word sequence.
pub open spec fn hash_of_words(words: Seq<u64>) -> i64 {
    fold_words(words) as i64
}

/// Computes `hash_of_words(words@)`.
pub fn hash_words(words: &Vec<u64>) -> (h: i64)
    ensures
        h == hash_of_words(words@),
{
    let mut acc: u64 = HASH_OFFSET;
    let n = words.len();
    let mut i: usize = 0;
    while i < n
        invariant
            n == words@.len(),
            i <= n,
            acc == fold_words(words@.take(i as int)),
        decreases n - i,
    {
        assert(words@.take(i as int + 1).drop_last() =~= words@.take(i as int));
        acc = (acc ^ words[i]).wrapping_mul(HASH_PRIME);
        i = i + 1;
    }
    assert(words@.take(n as int) =~= words@);
    acc as i64
}

// ---------------------------------------------------------------------------
// Canonical encodings
// ---------------------------------------------------------------------------

pub open spec fn enc_u64(x: u64) -> Seq<u64> {
    seq![x]
}

pub open spec fn enc_u128(x: u128) -> Seq<u64> {
    seq![(x >> 64u128) as u64, x as u64]
}

pub open spec fn enc_i64(x: i64) -> Seq<u64> {
    seq![x as u64]
}

pub open spec fn enc_i32(x: i32) -> Seq<u64> {
    seq![x as u64]
}

pub open spec fn enc_bool(b: bool) -> Seq<u64> {
    seq![if b { 1u64 } else { 0u64 }]
}

pub open spec fn enc_opt_u128(o: Option<u128>) -> Seq<u64> {
    match o {
        None => seq![0u64],
        Some(x) => seq![1u64] + enc_u128(x),
    }
}

pub open spec fn enc_opt_i64(o: Option<i64>) -> Seq<u64> {
    match o {
        None => seq![0u64],
        Some(x) => seq![1u64] + enc_i64(x),
    }
}

pub open spec fn enc_opt_i32(o: Option<i32>) -> Seq<u64> {
    match o {
        None => seq![0u64],
        Some(x) => seq![1u64] + enc_i32(x),
    }
}

/// The UTF-8 bytes of a text, one word each, preceded by their count.
pub open spec fn enc_bytes(b: Seq<u8>) -> Seq<u64> {
    seq![b.len() as u64] + b.map_values(|c: u8| c as u64)
}

pub open spec fn enc_text(s: Seq<char>) -> Seq<u64> {
    enc_bytes(vstd::utf8::encode_utf8(s))
}

pub open spec fn enc_opt_text(o: Option<String>) -> Seq<u64> {
    match o {
        None => seq![0u64],
        Some(s) => seq![1u64] + enc_text(s@),
    }
}

pub fn push_u64(out: &mut Vec<u64>, x: u64)
    ensures
        final(out)@ == old(out)@ + enc_u64(x),
{
    out.push(x);
}

pub fn push_u128(out: &mut Vec<u64>, x: u128)
    ensures
        final(out)@ == old(out)@ + enc_u128(x),
{
    out.push((x >> 64u32) as u64);
    out.push(x as u64);
}

pub fn push_i64(out: &mut Vec<u64>, x: i64)
    ensures
        final(out)@ == old(out)@ + enc_i64(x),
{
    out.push(x as u64);
}

pub fn push_i32(out: &mut Vec<u64>, x: i32)
    ensures
        final(out)@ == old(out)@ + enc_i32(x),
{
    out.push(x as u64);
}

pub fn push_bool(out: &mut Vec<u64>, b: bool)
    ensures
        final(out)@ == old(out)@ + enc_bool(b),
{
    out.push(if b { 1u64 } else { 0u64 });
}

pub fn push_opt_u128(out: &mut Vec<u64>, o: Option<u128>)
    ensures
        final(out)@ == old(out)@ + enc_opt_u128(o),
{
    match o {
        None => {
            out.push(0u64);
        },
        Some(x) => {
            out.push(1u64);
            push_u128(out, x);
        },
    }
}

pub fn push_opt_i64(out: &mut Vec<u64>, o: Option<i64>)
    ensures
        final(out)@ == old(out)@ + enc_opt_i64(o),
{
    match o {
        None => {
            out.push(0u64);
        },
        Some(x) => {
            out.push(1u64);
            push_i64(out, x);
        },
    }
}

pub fn push_opt_i32(out: &mut Vec<u64>, o: Option<i32>)
    ensures
        final(out)@ == old(out)@ + enc_opt_i32(o),
{
    match o {
        None => {
            out.push(0u64);
        },
        Some(x) => {
            out.push(1u64);
            push_i32(out, x);
        },
    }
}

pub fn push_text(out: &mut Vec<u64>, s: &str)
    ensures
        final(out)@ == old(out)@ + enc_text(s@),
{
    let bytes = s.as_bytes();
    let n = bytes.len();
    let ghost start = out@;
    out.push(n as u64);
    let mut i: usize = 0;
    while i < n
        invariant
            n == bytes@.len(),
            bytes@ == vstd::utf8::encode_utf8(s@),
            i <= n,
            out@ == start + seq![n as u64] + bytes@.take(i as int).map_values(|c: u8| c as u64),
        decreases n - i,
    {
        let ghost before = out@;
        out.push(bytes[i] as u64);
        assert(bytes@.take(i as int + 1).map_values(|c: u8| c as u64)
            =~= bytes@.take(i as int).map_values(|c: u8| c as u64).push(bytes@[i as int] as u64));
        i = i + 1;
    }
    assert(bytes@.take(n as int) =~= bytes@);
    assert(out@ =~= start + enc_text(s@));
}

pub fn push_opt_text(out: &mut Vec<u64>, o: &Option<String>)
    ensures
        final(out)@ == old(out)@ + enc_opt_text(*o),
{
    match o {
        None => {
            out.push(0u64);
        },
        Some(s) => {
            out.push(1u64);
            push_text(out, s.as_str());
        },
    }
}

/// The hash of a text on its own, as used by the index columns that hold
/// the hash of a code or identifier.
pub open spec fn text_hash(s: Seq<char>) -> i64 {
    hash_of_words(enc_text(s))
}

/// Computes `text_hash(s@)`.
pub fn hash_text(s: &str) -> (h: i64)
    ensures
        h == text_hash(s@),
{
    let mut words: Vec<u64> = Vec::new();
    push_text(&mut words, s);
    assert(words@ =~= enc_text(s@));
    hash_words(&words)
}

// ---------------------------------------------------------------------------
// The encodings determine the values they encode
// ---------------------------------------------------------------------------

/// A text whose UTF-8 byte count fits the length word of its encoding.
pub open spec fn text_fits(s: Seq<char>) -> bool {
    vstd::utf8::encode_utf8(s).len() < 0x1_0000_0000_0000_0000
}

pub open spec fn opt_text_fits(o: Option<String>) -> bool {
    match o {
        Some(s) => text_fits(s@),
        None => true,
    }
}

/// An optional text, seen by its characters.
pub open spec fn opt_text_view(o: Option<String>) -> Option<Seq<char>> {
    match o {
        Some(s) => Some(s@),
        None => None,
    }
}

/// Two word sequences cut at the same length give back their parts.
pub proof fn lemma_split_eq(x1: Seq<u64>, r1: Seq<u64>, x2: Seq<u64>, r2: Seq<u64>)
    requires
        x1.len() == x2.len(),
        x1 + r1 == x2 + r2,
    ensures
        x1 == x2,
        r1 == r2,
{
    assert(x1 =~= (x1 + r1).subrange(0, x1.len() as int));
    assert(x2 =~= (x2 + r2).subrange(0, x2.len() as int));
    assert(r1 =~= (x1 + r1).subrange(x1.len() as int, (x1 + r1).len() as int));
    assert(r2 =~= (x2 + r2).subrange(x2.len() as int, (x2 + r2).len() as int));
}

/// Takes a tag word off the front of an encoding.
pub proof fn lemma_split_tag(t: u64, x: Seq<u64>, r: Seq<u64>)
    ensures
        (seq![t] + x) + r == seq![t] + (x + r),
        ((seq![t] + x) + r)[0] == t,
{
    assert((seq![t] + x) + r =~= seq![t] + (x + r));
}

pub proof fn lemma_peel_u64(a: u64, b: u64, ra: Seq<u64>, rb: Seq<u64>)
    requires
        enc_u64(a) + ra == enc_u64(b) + rb,
    ensures
        a == b,
        ra == rb,
{
    lemma_split_eq(enc_u64(a), ra, enc_u64(b), rb);
    assert(enc_u64(a)[0] == enc_u64(b)[0]);
}

pub proof fn lemma_peel_u128(a: u128, b: u128, ra: Seq<u64>, rb: Seq<u64>)
    requires
        enc_u128(a) + ra == enc_u128(b) + rb,
    ensures
        a == b,
        ra == rb,
{
    lemma_split_eq(enc_u128(a), ra, enc_u128(b), rb);
    assert(enc_u128(a)[0] == enc_u128(b)[0]);
    assert(enc_u128(a)[1] == enc_u128(b)[1]);
    assert(((a >> 64u128) as u64 == (b >> 64u128) as u64 && a as u64 == b as u64) ==> a == b)
        by (bit_vector);
}

pub proof fn lemma_peel_i64(a: i64, b: i64, ra: Seq<u64>, rb: Seq<u64>)
    requires
        enc_i64(a) + ra == enc_i64(b) + rb,
    ensures
        a == b,
        ra == rb,
{
    lemma_split_eq(enc_i64(a), ra, enc_i64(b), rb);
    assert(enc_i64(a)[0] == enc_i64(b)[0]);
    assert(a as u64 == b as u64 ==> a == b) by (bit_vector);
}

pub proof fn lemma_peel_i32(a: i32, b: i32, ra: Seq<u64>, rb: Seq<u64>)
    requires
        enc_i32(a) + ra == enc_i32(b) + rb,
    ensures
        a == b,
        ra == rb,
{
    lemma_split_eq(enc_i32(a), ra, enc_i32(b), rb);
    assert(enc_i32(a)[0] == enc_i32(b)[0]);
    assert(a as u64 == b as u64 ==> a == b) by (bit_vector);
}

pub proof fn lemma_peel_bool(a: bool, b: bool, ra: Seq<u64>, rb: Seq<u64>)
    requires
        enc_bool(a) + ra == enc_bool(b) + rb,
    ensures
        a == b,
        ra == rb,
{
    lemma_split_eq(enc_bool(a), ra, enc_bool(b), rb);
    assert(enc_bool(a)[0] == enc_bool(b)[0]);
}

pub proof fn lemma_peel_opt_u128(a: Option<u128>, b: Option<u128>, ra: Seq<u64>, rb: Seq<u64>)
    requires
        enc_opt_u128(a) + ra == enc_opt_u128(b) + rb,
    ensures
        a == b,
        ra == rb,
{
    assert((enc_opt_u128(a) + ra)[0] == (enc_opt_u128(b) + rb)[0]);
    match (a, b) {
        (Some(x), Some(y)) => {
            lemma_split_tag(1u64, enc_u128(x), ra);
            lemma_split_tag(1u64, enc_u128(y), rb);
            lemma_split_eq(seq![1u64], enc_u128(x) + ra, seq![1u64], enc_u128(y) + rb);
            lemma_peel_u128(x, y, ra, rb);
        },
        (None, None) => {
            lemma_split_eq(enc_opt_u128(a), ra, enc_opt_u128(b), rb);
        },
        (Some(x), None) => {
            lemma_split_tag(1u64, enc_u128(x), ra);
        },
        (None, Some(y)) => {
            lemma_split_tag(1u64, enc_u128(y), rb);
        },
    }
}

pub proof fn lemma_peel_opt_i64(a: Option<i64>, b: Option<i64>, ra: Seq<u64>, rb: Seq<u64>)
    requires
        enc_opt_i64(a) + ra == enc_opt_i64(b) + rb,
    ensures
        a == b,
        ra == rb,
{
    assert((enc_opt_i64(a) + ra)[0] == (enc_opt_i64(b) + rb)[0]);
    match (a, b) {
        (Some(x), Some(y)) => {
            lemma_split_tag(1u64, enc_i64(x), ra);
            lemma_split_tag(1u64, enc_i64(y), rb);
            lemma_split_eq(seq![1u64], enc_i64(x) + ra, seq![1u64], enc_i64(y) + rb);
            lemma_peel_i64(x, y, ra, rb);
        },
        (None, None) => {
            lemma_split_eq(enc_opt_i64(a), ra, enc_opt_i64(b), rb);
        },
        (Some(x), None) => {
            lemma_split_tag(1u64, enc_i64(x), ra);
        },
        (None, Some(y)) => {
            lemma_split_tag(1u64, enc_i64(y), rb);
        },
    }
}

pub proof fn lemma_peel_opt_i32(a: Option<i32>, b: Option<i32>, ra: Seq<u64>, rb: Seq<u64>)
    requires
        enc_opt_i32(a) + ra == enc_opt_i32(b) + rb,
    ensures
        a == b,
        ra == rb,
{
    assert((enc_opt_i32(a) + ra)[0] == (enc_opt_i32(b) + rb)[0]);
    match (a, b) {
        (Some(x), Some(y)) => {
            lemma_split_tag(1u64, enc_i32(x), ra);
            lemma_split_tag(1u64, enc_i32(y), rb);
            lemma_split_eq(seq![1u64], enc_i32(x) + ra, seq![1u64], enc_i32(y) + rb);
            lemma_peel_i32(x, y, ra, rb);
        },
        (None, None) => {
            lemma_split_eq(enc_opt_i32(a), ra, enc_opt_i32(b), rb);
        },
        (Some(x), None) => {
            lemma_split_tag(1u64, enc_i32(x), ra);
        },
        (None, Some(y)) => {
            lemma_split_tag(1u64, enc_i32(y), rb);
        },
    }
}

pub proof fn lemma_peel_text(a: Seq<char>, b: Seq<char>, ra: Seq<u64>, rb: Seq<u64>)
    requires
        text_fits(a),
        text_fits(b),
        enc_text(a) + ra == enc_text(b) + rb,
    ensures
        a == b,
        ra == rb,
{
    let ba = vstd::utf8::encode_utf8(a);
    let bb = vstd::utf8::encode_utf8(b);
    assert(enc_text(a)[0] == ba.len() as u64);
    assert(enc_text(b)[0] == bb.len() as u64);
    assert((enc_text(a) + ra)[0] == enc_text(a)[0]);
    assert((enc_text(b) + rb)[0] == enc_text(b)[0]);
    assert(ba.len() as u64 == ba.len());
    assert(bb.len() as u64 == bb.len());
    assert(ba.len() == bb.len());
    lemma_split_eq(enc_text(a), ra, enc_text(b), rb);
    assert forall|i: int| 0 <= i < ba.len() implies ba[i] == bb[i] by {
        assert(enc_text(a)[i + 1] == enc_text(b)[i + 1]);
        let x = ba[i];
        let y = bb[i];
        assert(x as u64 == y as u64 ==> x == y) by (bit_vector);
    }
    assert(ba =~= bb);
    vstd::utf8::encode_utf8_decode_utf8(a);
    vstd::utf8::encode_utf8_decode_utf8(b);
}

pub proof fn lemma_peel_opt_text(a: Option<String>, b: Option<String>, ra: Seq<u64>, rb: Seq<u64>)
    requires
        opt_text_fits(a),
        opt_text_fits(b),
        enc_opt_text(a) + ra == enc_opt_text(b) + rb,
    ensures
        opt_text_view(a) == opt_text_view(b),
        ra == rb,
{
    assert((enc_opt_text(a) + ra)[0] == (enc_opt_text(b) + rb)[0]);
    match (a, b) {
        (Some(x), Some(y)) => {
            lemma_split_tag(1u64, enc_text(x@), ra);
            lemma_split_tag(1u64, enc_text(y@), rb);
            lemma_split_eq(seq![1u64], enc_text(x@) + ra, seq![1u64], enc_text(y@) + rb);
            lemma_peel_text(x@, y@, ra, rb);
        },
        (None, None) => {
            lemma_split_eq(enc_opt_text(a), ra, enc_opt_text(b), rb);
        },
        (Some(x), None) => {
            lemma_split_tag(1u64, enc_text(x@), ra);
        },
        (None, Some(y)) => {
            lemma_split_tag(1u64, enc_text(y@), rb);
        },
    }
}

} // verus!

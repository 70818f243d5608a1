//! The stored byte layout's primitives: how each field is written, and how it
//! is read back from a position in an account's bytes.
//!
//! Integers are little-endian, `bool` is one byte that is zero or one, an
//! optional value is a byte zero (absent) or one (present, then the value), a
//! string is its UTF-8 length as a `u32` followed by its UTF-8 bytes.

use crate::enums::MintMaxVoterWeightSource;
use crate::pubkey::Pubkey;
use vstd::bytes::*;
use vstd::prelude::*;
use vstd::slice::slice_subrange;
use vstd::utf8::*;

verus! {

broadcast use vstd::utf8::decode_utf8_encode_utf8, vstd::utf8::encode_utf8_valid_utf8, vstd::utf8::encode_utf8_decode_utf8;

// ----- encodings -----

pub open spec fn enc_u8(v: u8) -> Seq<u8> {
    seq![v]
}

pub open spec fn enc_bool(b: bool) -> Seq<u8> {
    seq![if b { 1u8 } else { 0u8 }]
}

pub open spec fn enc_u16(v: u16) -> Seq<u8> {
    spec_u16_to_le_bytes(v)
}

pub open spec fn enc_u32(v: u32) -> Seq<u8> {
    spec_u32_to_le_bytes(v)
}

pub open spec fn enc_u64(v: u64) -> Seq<u8> {
    spec_u64_to_le_bytes(v)
}

/// An optional address: a presence byte, then the address if present.
pub open spec fn enc_opt_key(o: Option<Seq<u8>>) -> Seq<u8> {
    match o {
        Some(k) => seq![1u8] + k,
        None => seq![0u8],
    }
}

/// A string: its UTF-8 length as a `u32`, then its UTF-8 bytes.
pub open spec fn enc_string(s: Seq<char>) -> Seq<u8> {
    enc_u32(encode_utf8(s).len() as u32) + encode_utf8(s)
}

/// A max voter weight source: its variant's byte, then its value.
pub open spec fn enc_max_source(m: MintMaxVoterWeightSource) -> Seq<u8> {
    match m {
        MintMaxVoterWeightSource::SupplyFraction(v) => seq![0u8] + enc_u64(v),
        MintMaxVoterWeightSource::Absolute(v) => seq![1u8] + enc_u64(v),
    }
}

/// The view of an optional address.
pub open spec fn opt_key_view(o: Option<Pubkey>) -> Option<Seq<u8>> {
    match o {
        Some(k) => Some(k@),
        None => None,
    }
}

// ----- reading from a position -----

pub open spec fn in_bounds(s: Seq<u8>, p: int, n: int) -> bool {
    0 <= p && 0 <= n && p + n <= s.len()
}

pub open spec fn parse_u8(s: Seq<u8>, p: int) -> Option<(u8, int)> {
    if in_bounds(s, p, 1) {
        Some((s[p], p + 1))
    } else {
        None
    }
}

pub open spec fn parse_bool(s: Seq<u8>, p: int) -> Option<(bool, int)> {
    if in_bounds(s, p, 1) && s[p] <= 1 {
        Some((s[p] == 1, p + 1))
    } else {
        None
    }
}

pub open spec fn parse_u16(s: Seq<u8>, p: int) -> Option<(u16, int)> {
    if in_bounds(s, p, 2) {
        Some((spec_u16_from_le_bytes(s.subrange(p, p + 2)), p + 2))
    } else {
        None
    }
}

pub open spec fn parse_u32(s: Seq<u8>, p: int) -> Option<(u32, int)> {
    if in_bounds(s, p, 4) {
        Some((spec_u32_from_le_bytes(s.subrange(p, p + 4)), p + 4))
    } else {
        None
    }
}

pub open spec fn parse_u64(s: Seq<u8>, p: int) -> Option<(u64, int)> {
    if in_bounds(s, p, 8) {
        Some((spec_u64_from_le_bytes(s.subrange(p, p + 8)), p + 8))
    } else {
        None
    }
}

/// `n` bytes taken as they stand.
pub open spec fn parse_bytes(s: Seq<u8>, p: int, n: int) -> Option<(Seq<u8>, int)> {
    if in_bounds(s, p, n) {
        Some((s.subrange(p, p + n), p + n))
    } else {
        None
    }
}

pub open spec fn parse_opt_key(s: Seq<u8>, p: int) -> Option<(Option<Seq<u8>>, int)> {
    if in_bounds(s, p, 1) && s[p] == 0 {
        Some((None, p + 1))
    } else if in_bounds(s, p, 33) && s[p] == 1 {
        Some((Some(s.subrange(p + 1, p + 33)), p + 33))
    } else {
        None
    }
}

pub open spec fn parse_string(s: Seq<u8>, p: int) -> Option<(Seq<char>, int)> {
    match parse_u32(s, p) {
        Some((n, q)) => if in_bounds(s, q, n as int) && valid_utf8(s.subrange(q, q + n)) {
            Some((decode_utf8(s.subrange(q, q + n)), q + n))
        } else {
            None
        },
        None => None,
    }
}

pub open spec fn parse_max_source(s: Seq<u8>, p: int) -> Option<(MintMaxVoterWeightSource, int)> {
    if in_bounds(s, p, 9) && s[p] == 0 {
        Some(
            (
                MintMaxVoterWeightSource::SupplyFraction(
                    spec_u64_from_le_bytes(s.subrange(p + 1, p + 9)),
                ),
                p + 9,
            ),
        )
    } else if in_bounds(s, p, 9) && s[p] == 1 {
        Some(
            (
                MintMaxVoterWeightSource::Absolute(spec_u64_from_le_bytes(s.subrange(p + 1, p + 9))),
                p + 9,
            ),
        )
    } else {
        None
    }
}

// ----- what is read was written: each field read re-encodes to its bytes -----

pub proof fn lemma_u8_bytes(s: Seq<u8>, p: int)
    ensures
        parse_u8(s, p) matches Some((v, q)) ==> q == p + 1 && s.subrange(p, q) == enc_u8(v),
{
    if parse_u8(s, p) is Some {
        assert(s.subrange(p, p + 1) =~= enc_u8(s[p]));
    }
}

pub proof fn lemma_bool_bytes(s: Seq<u8>, p: int)
    ensures
        parse_bool(s, p) matches Some((v, q)) ==> q == p + 1 && s.subrange(p, q) == enc_bool(v),
{
    if parse_bool(s, p) is Some {
        assert(s.subrange(p, p + 1) =~= enc_bool(s[p] == 1));
    }
}

pub proof fn lemma_u16_bytes(s: Seq<u8>, p: int)
    ensures
        parse_u16(s, p) matches Some((v, q)) ==> q == p + 2 && s.subrange(p, q) == enc_u16(v),
{
    lemma_auto_spec_u16_to_from_le_bytes();
}

pub proof fn lemma_u32_bytes(s: Seq<u8>, p: int)
    ensures
        parse_u32(s, p) matches Some((v, q)) ==> q == p + 4 && s.subrange(p, q) == enc_u32(v),
{
    lemma_auto_spec_u32_to_from_le_bytes();
}

pub proof fn lemma_u64_bytes(s: Seq<u8>, p: int)
    ensures
        parse_u64(s, p) matches Some((v, q)) ==> q == p + 8 && s.subrange(p, q) == enc_u64(v),
{
    lemma_auto_spec_u64_to_from_le_bytes();
}

pub proof fn lemma_opt_key_bytes(s: Seq<u8>, p: int)
    ensures
        parse_opt_key(s, p) matches Some((v, q)) ==> q == p + enc_opt_key(v).len() && s.subrange(
            p,
            q,
        ) == enc_opt_key(v),
{
    if in_bounds(s, p, 1) && s[p] == 0 {
        assert(s.subrange(p, p + 1) =~= seq![0u8]);
    } else if in_bounds(s, p, 33) && s[p] == 1 {
        assert(s.subrange(p, p + 33) =~= seq![1u8] + s.subrange(p + 1, p + 33));
    }
}

pub proof fn lemma_string_bytes(s: Seq<u8>, p: int)
    ensures
        parse_string(s, p) matches Some((v, q)) ==> q == p + enc_string(v).len() && s.subrange(
            p,
            q,
        ) == enc_string(v),
{
    lemma_auto_spec_u32_to_from_le_bytes();
    if let Some((v, q)) = parse_string(s, p) {
        let n = spec_u32_from_le_bytes(s.subrange(p, p + 4));
        let body = s.subrange(p + 4, p + 4 + n);
        assert(encode_utf8(v) == body);
        assert(enc_u32(encode_utf8(v).len() as u32) == s.subrange(p, p + 4));
        assert(s.subrange(p, q) =~= s.subrange(p, p + 4) + body);
    }
}

pub proof fn lemma_max_source_bytes(s: Seq<u8>, p: int)
    ensures
        parse_max_source(s, p) matches Some((v, q)) ==> q == p + 9 && s.subrange(p, q)
            == enc_max_source(v),
{
    lemma_auto_spec_u64_to_from_le_bytes();
    if in_bounds(s, p, 9) {
        assert(s.subrange(p, p + 9) =~= seq![s[p]] + s.subrange(p + 1, p + 9));
    }
}

// ----- writers -----

/// Appends the bytes.
pub fn push_all(out: &mut Vec<u8>, b: &[u8])
    ensures
        final(out)@ == old(out)@ + b@,
{
    let mut i: usize = 0;
    while i < b.len()
        invariant
            0 <= i <= b@.len(),
            out@ == old(out)@ + b@.subrange(0, i as int),
        decreases b@.len() - i,
    {
        out.push(b[i]);
        i = i + 1;
        assert(b@.subrange(0, i as int) =~= b@.subrange(0, i - 1) + seq![b@[i - 1]]);
    }
    assert(b@.subrange(0, b@.len() as int) =~= b@);
}

pub fn write_u8(out: &mut Vec<u8>, v: u8)
    ensures
        final(out)@ == old(out)@ + enc_u8(v),
{
    out.push(v);
    assert(final(out)@ =~= old(out)@ + enc_u8(v));
}

pub fn write_bool(out: &mut Vec<u8>, v: bool)
    ensures
        final(out)@ == old(out)@ + enc_bool(v),
{
    out.push(if v { 1u8 } else { 0u8 });
    assert(final(out)@ =~= old(out)@ + enc_bool(v));
}

pub fn write_u16(out: &mut Vec<u8>, v: u16)
    ensures
        final(out)@ == old(out)@ + enc_u16(v),
{
    let b = u16_to_le_bytes(v);
    push_all(out, b.as_slice());
}

pub fn write_u32(out: &mut Vec<u8>, v: u32)
    ensures
        final(out)@ == old(out)@ + enc_u32(v),
{
    let b = u32_to_le_bytes(v);
    push_all(out, b.as_slice());
}

pub fn write_u64(out: &mut Vec<u8>, v: u64)
    ensures
        final(out)@ == old(out)@ + enc_u64(v),
{
    let b = u64_to_le_bytes(v);
    push_all(out, b.as_slice());
}

pub fn write_key(out: &mut Vec<u8>, k: &Pubkey)
    ensures
        final(out)@ == old(out)@ + k@,
{
    push_all(out, k.bytes.as_slice());
}

pub fn write_opt_key(out: &mut Vec<u8>, k: &Option<Pubkey>)
    ensures
        final(out)@ == old(out)@ + enc_opt_key(opt_key_view(*k)),
{
    match k {
        Some(key) => {
            out.push(1u8);
            push_all(out, key.bytes.as_slice());
            assert(final(out)@ =~= old(out)@ + enc_opt_key(opt_key_view(*k)));
        },
        None => {
            out.push(0u8);
            assert(final(out)@ =~= old(out)@ + enc_opt_key(opt_key_view(*k)));
        },
    }
}

pub fn write_string(out: &mut Vec<u8>, s: &String)
    requires
        encode_utf8(s@).len() <= u32::MAX,
    ensures
        final(out)@ == old(out)@ + enc_string(s@),
{
    let b = s.as_str().as_bytes();
    write_u32(out, b.len() as u32);
    push_all(out, b);
    assert(final(out)@ =~= old(out)@ + enc_string(s@));
}

pub fn write_max_source(out: &mut Vec<u8>, m: &MintMaxVoterWeightSource)
    ensures
        final(out)@ == old(out)@ + enc_max_source(*m),
{
    match m {
        MintMaxVoterWeightSource::SupplyFraction(v) => {
            out.push(0u8);
            write_u64(out, *v);
        },
        MintMaxVoterWeightSource::Absolute(v) => {
            out.push(1u8);
            write_u64(out, *v);
        },
    }
    assert(final(out)@ =~= old(out)@ + enc_max_source(*m));
}


// ----- readers -----

pub fn read_u8(data: &[u8], pos: usize) -> (r: Option<(u8, usize)>)
    ensures
        match r {
            Some((v, q)) => parse_u8(data@, pos as int) == Some((v, q as int)),
            None => parse_u8(data@, pos as int) is None,
        },
{
    if pos < data.len() {
        Some((data[pos], pos + 1))
    } else {
        None
    }
}

pub fn read_bool(data: &[u8], pos: usize) -> (r: Option<(bool, usize)>)
    ensures
        match r {
            Some((v, q)) => parse_bool(data@, pos as int) == Some((v, q as int)),
            None => parse_bool(data@, pos as int) is None,
        },
{
    if pos < data.len() && data[pos] <= 1 {
        Some((data[pos] == 1, pos + 1))
    } else {
        None
    }
}

pub fn read_u16(data: &[u8], pos: usize) -> (r: Option<(u16, usize)>)
    ensures
        match r {
            Some((v, q)) => parse_u16(data@, pos as int) == Some((v, q as int)),
            None => parse_u16(data@, pos as int) is None,
        },
{
    if pos <= data.len() && data.len() - pos >= 2 {
        let b = slice_subrange(data, pos, pos + 2);
        Some((u16_from_le_bytes(b), pos + 2))
    } else {
        None
    }
}

pub fn read_u32(data: &[u8], pos: usize) -> (r: Option<(u32, usize)>)
    ensures
        match r {
            Some((v, q)) => parse_u32(data@, pos as int) == Some((v, q as int)),
            None => parse_u32(data@, pos as int) is None,
        },
{
    if pos <= data.len() && data.len() - pos >= 4 {
        let b = slice_subrange(data, pos, pos + 4);
        Some((u32_from_le_bytes(b), pos + 4))
    } else {
        None
    }
}

pub fn read_u64(data: &[u8], pos: usize) -> (r: Option<(u64, usize)>)
    ensures
        match r {
            Some((v, q)) => parse_u64(data@, pos as int) == Some((v, q as int)),
            None => parse_u64(data@, pos as int) is None,
        },
{
    if pos <= data.len() && data.len() - pos >= 8 {
        let b = slice_subrange(data, pos, pos + 8);
        Some((u64_from_le_bytes(b), pos + 8))
    } else {
        None
    }
}

/// Reads `N` bytes as they stand.
pub fn read_array<const N: usize>(data: &[u8], pos: usize) -> (r: Option<([u8; N], usize)>)
    ensures
        match r {
            Some((v, q)) => parse_bytes(data@, pos as int, N as int) == Some((v@, q as int)),
            None => parse_bytes(data@, pos as int, N as int) is None,
        },
{
    if pos <= data.len() && data.len() - pos >= N {
        let mut a: [u8; N] = [0u8; N];
        let mut i: usize = 0;
        while i < N
            invariant
                0 <= i <= N,
                pos + N <= data@.len(),
                pos + N <= usize::MAX,
                a@.len() == N,
                forall|j: int| 0 <= j < i ==> a@[j] == data@[pos + j],
            decreases N - i,
        {
            a[i] = data[pos + i];
            i = i + 1;
        }
        assert(a@ =~= data@.subrange(pos as int, pos + N));
        Some((a, pos + N))
    } else {
        None
    }
}

pub fn read_key(data: &[u8], pos: usize) -> (r: Option<(Pubkey, usize)>)
    ensures
        match r {
            Some((v, q)) => parse_bytes(data@, pos as int, 32) == Some((v@, q as int)),
            None => parse_bytes(data@, pos as int, 32) is None,
        },
{
    match read_array::<32>(data, pos) {
        Some((a, q)) => Some((Pubkey { bytes: a }, q)),
        None => None,
    }
}

pub fn read_opt_key(data: &[u8], pos: usize) -> (r: Option<(Option<Pubkey>, usize)>)
    ensures
        match r {
            Some((v, q)) => parse_opt_key(data@, pos as int) == Some((opt_key_view(v), q as int)),
            None => parse_opt_key(data@, pos as int) is None,
        },
{
    if pos < data.len() && data[pos] == 0 {
        Some((None, pos + 1))
    } else if pos < data.len() && data[pos] == 1 {
        match read_key(data, pos + 1) {
            Some((k, q)) => Some((Some(k), q)),
            None => None,
        }
    } else {
        None
    }
}

/// Relies on `std::str::from_utf8`: it succeeds exactly on valid UTF-8, and
/// the string then holds the characters that the bytes encode.
#[verifier::external_body]
fn utf8_to_string(b: &[u8]) -> (r: Option<String>)
    ensures
        match r {
            Some(s) => valid_utf8(b@) && s@ == decode_utf8(b@),
            None => !valid_utf8(b@),
        },
{
    std::str::from_utf8(b).ok().map(|s| s.to_string())
}

pub fn read_string(data: &[u8], pos: usize) -> (r: Option<(String, usize)>)
    ensures
        match r {
            Some((v, q)) => parse_string(data@, pos as int) == Some((v@, q as int)),
            None => parse_string(data@, pos as int) is None,
        },
{
    match read_u32(data, pos) {
        Some((n, q)) => {
            if data.len() - q >= n as usize {
                let b = slice_subrange(data, q, q + n as usize);
                match utf8_to_string(b) {
                    Some(s) => Some((s, q + n as usize)),
                    None => None,
                }
            } else {
                None
            }
        },
        None => None,
    }
}

pub fn read_max_source(data: &[u8], pos: usize) -> (r: Option<(MintMaxVoterWeightSource, usize)>)
    ensures
        match r {
            Some((v, q)) => parse_max_source(data@, pos as int) == Some((v, q as int)),
            None => parse_max_source(data@, pos as int) is None,
        },
{
    if pos < data.len() && data[pos] <= 1 {
        match read_u64(data, pos + 1) {
            Some((v, q)) => {
                if data[pos] == 0 {
                    Some((MintMaxVoterWeightSource::SupplyFraction(v), q))
                } else {
                    Some((MintMaxVoterWeightSource::Absolute(v), q))
                }
            },
            None => None,
        }
    } else {
        None
    }
}

} // verus!

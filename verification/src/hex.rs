//! The hex codec: decoding of ASCII hex digit pairs into raw bytes, and the
//! lowercase encoding that inverts it.

use vstd::prelude::*;

verus! {

/// True of the bytes that may appear in a hex-encoded payload.
pub open spec fn spec_is_hex_digit(c: u8) -> bool {
    (48 <= c && c <= 57) || (97 <= c && c <= 102) || (65 <= c && c <= 70)
}

/// The numeric value of one hex digit.
pub open spec fn spec_hex_val(c: u8) -> int {
    if 48 <= c && c <= 57 {
        c - 48
    } else if 97 <= c && c <= 102 {
        c - 97 + 10
    } else {
        c - 65 + 10
    }
}

/// The byte that a pair of hex digits denotes.
pub open spec fn spec_hex_pair(hi: u8, lo: u8) -> u8 {
    (spec_hex_val(hi) * 16 + spec_hex_val(lo)) as u8
}

/// Decoding of consecutive non-overlapping digit pairs; a trailing odd
/// byte is discarded.
pub open spec fn spec_hex_decode(s: Seq<u8>) -> Seq<u8> {
    Seq::new(s.len() / 2, |i: int| spec_hex_pair(s[2 * i], s[2 * i + 1]))
}

/// The lowercase hex digit for a value below sixteen.
pub open spec fn spec_hex_digit(v: int) -> u8 {
    if v < 10 {
        (48 + v) as u8
    } else {
        (87 + v) as u8
    }
}

/// The lowercase two-digits-per-byte encoding whose decoding is
/// `spec_hex_decode`.
pub open spec fn spec_hex_encode(b: Seq<u8>) -> Seq<u8> {
    Seq::new(2 * b.len(), |i: int| if i % 2 == 0 {
        spec_hex_digit(b[i / 2] as int / 16)
    } else {
        spec_hex_digit(b[i / 2] as int % 16)
    })
}

/// The numeric value of one ASCII hex digit.
pub fn hex_digit_to_u8(hex_digit: u8) -> (r: u8)
    requires
        spec_is_hex_digit(hex_digit),
    ensures
        r == spec_hex_val(hex_digit),
{
    if 48 <= hex_digit && hex_digit <= 57 {
        hex_digit - 48
    } else if 97 <= hex_digit && hex_digit <= 102 {
        hex_digit - 97 + 10
    } else {
        hex_digit - 65 + 10
    }
}

/// Decodes an ASCII hex byte sequence, two digits per output byte; a
/// trailing odd byte is discarded.
pub fn hex_decode(hex: Vec<u8>) -> (r: Vec<u8>)
    requires
        forall|i: int| 0 <= i < 2 * (hex@.len() / 2) ==> spec_is_hex_digit(#[trigger] hex@[i]),
    ensures
        r@ == spec_hex_decode(hex@),
{
    let mut out: Vec<u8> = Vec::new();
    let mut i: usize = 0;
    while i < hex.len() && i + 1 < hex.len()
        invariant
            i == 2 * out@.len(),
            out@.len() <= hex@.len() / 2,
            forall|j: int| 0 <= j < 2 * (hex@.len() / 2) ==> spec_is_hex_digit(#[trigger] hex@[j]),
            out@ == spec_hex_decode(hex@).subrange(0, out@.len() as int),
        decreases hex@.len() - i,
    {
        let hi = hex_digit_to_u8(hex[i]);
        let lo = hex_digit_to_u8(hex[i + 1]);
        out.push(hi * 16 + lo);
        i = i + 2;
        assert(out@ =~= spec_hex_decode(hex@).subrange(0, out@.len() as int));
    }
    assert(out@ =~= spec_hex_decode(hex@));
    out
}

/// Encodes bytes as lowercase hex, two digits per byte.
pub fn hex_encode(bytes: &Vec<u8>) -> (r: Vec<u8>)
    ensures
        r@ == spec_hex_encode(bytes@),
{
    let mut out: Vec<u8> = Vec::new();
    let mut i: usize = 0;
    while i < bytes.len()
        invariant
            0 <= i <= bytes@.len(),
            out@ == spec_hex_encode(bytes@).subrange(0, 2 * i as int),
        decreases bytes@.len() - i,
    {
        let b = bytes[i];
        let hi = b / 16;
        let lo = b % 16;
        out.push(if hi < 10 { 48 + hi } else { 87 + hi });
        out.push(if lo < 10 { 48 + lo } else { 87 + lo });
        i = i + 1;
        assert(out@ =~= spec_hex_encode(bytes@).subrange(0, 2 * i as int));
    }
    assert(out@ =~= spec_hex_encode(bytes@));
    out
}

/// Every digit the encoder emits is a lowercase hex digit, so an encoded
/// payload always passes the lookup filter.
pub proof fn lemma_hex_encode_digits(b: Seq<u8>)
    ensures
        spec_hex_encode(b).len() == 2 * b.len(),
        forall|i: int| 0 <= i < spec_hex_encode(b).len() ==> {
            let c = #[trigger] spec_hex_encode(b)[i];
            (48 <= c && c <= 57) || (97 <= c && c <= 102)
        },
{
}

/// Decoding inverts the lowercase hex encoding: for every byte sequence
/// `b`, `spec_hex_decode(spec_hex_encode(b)) == b`.
pub proof fn lemma_hex_round_trip(b: Seq<u8>)
    ensures
        spec_hex_decode(spec_hex_encode(b)) == b,
{
    let e = spec_hex_encode(b);
    assert(e.len() == 2 * b.len());
    assert forall|i: int| 0 <= i < b.len() implies spec_hex_decode(e)[i] == b[i] by {
        assert(e[2 * i] == spec_hex_digit(b[i] as int / 16));
        assert(e[2 * i + 1] == spec_hex_digit(b[i] as int % 16));
        assert(spec_hex_val(spec_hex_digit(b[i] as int / 16)) == b[i] as int / 16);
        assert(spec_hex_val(spec_hex_digit(b[i] as int % 16)) == b[i] as int % 16);
        assert((b[i] as int / 16) * 16 + b[i] as int % 16 == b[i] as int) by (nonlinear_arith);
    }
    assert(spec_hex_decode(e) =~= b);
}

} // verus!



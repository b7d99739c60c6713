//! Little-endian 16-bit PCM sample framing.
//!
//! Inbound audio payloads arrive as raw bytes holding interleaved signed
//! 16-bit samples, two bytes per sample, least significant byte first.

use vstd::prelude::*;

verus! {

/// The signed 16-bit value held by a little-endian byte pair.
pub open spec fn i16_from_le(lo: u8, hi: u8) -> i16 {
    if hi < 128 {
        (lo + 256 * hi) as i16
    } else {
        (lo + 256 * hi - 65536) as i16
    }
}

/// The little-endian byte pair that encodes a signed 16-bit value.
pub open spec fn i16_to_le(s: i16) -> Seq<u8> {
    let v = if s < 0 { s + 65536 } else { s as int };
    seq![(v % 256) as u8, (v / 256) as u8]
}

/// The samples held by a byte sequence: every complete little-endian pair,
/// in order; a trailing odd byte carries no sample.
pub open spec fn pcm16_of(bytes: Seq<u8>) -> Seq<i16> {
    Seq::new(bytes.len() / 2, |i: int| i16_from_le(bytes[2 * i], bytes[2 * i + 1]))
}

/// Encoding a sample and reading the pair back yields the sample.
pub proof fn lemma_i16_le_round_trip(s: i16)
    ensures
        i16_from_le(i16_to_le(s)[0], i16_to_le(s)[1]) == s,
{
}

/// Decodes raw bytes into interleaved signed 16-bit samples, two bytes per
/// sample, little-endian. A trailing odd byte is dropped rather than
/// rejected: the result always holds exactly one sample per complete pair.
pub fn decode_pcm16_le(bytes: &Vec<u8>) -> (r: Vec<i16>)
    ensures
        r@ == pcm16_of(bytes@),
        r@.len() == bytes@.len() / 2,
{
    let len = bytes.len();
    let n = len / 2;
    let mut out: Vec<i16> = Vec::new();
    let mut i: usize = 0;
    while i < n
        invariant
            i <= n,
            len == bytes@.len(),
            n == bytes@.len() / 2,
            out@.len() == i,
            forall|j: int| 0 <= j < i ==> out@[j] == i16_from_le(bytes@[2 * j], bytes@[2 * j + 1]),
        decreases n - i,
    {
        assert(2 * i + 1 < len);
        let lo = bytes[2 * i];
        let hi = bytes[2 * i + 1];
        let v: i32 = lo as i32 + 256 * (hi as i32);
        let s: i16 = if v >= 32768 {
            (v - 65536) as i16
        } else {
            v as i16
        };
        assert(s == i16_from_le(lo, hi));
        out.push(s);
        i = i + 1;
    }
    proof {
        assert(out@ =~= pcm16_of(bytes@));
    }
    out
}

/// Encodes one sample as its little-endian byte pair, appended to `out`.
pub fn push_i16_le(out: &mut Vec<u8>, s: i16)
    ensures
        final(out)@ == old(out)@ + i16_to_le(s),
{
    let v: i32 = if s < 0 { s as i32 + 65536 } else { s as i32 };
    out.push((v % 256) as u8);
    out.push((v / 256) as u8);
    proof {
        assert(final(out)@ =~= old(out)@ + i16_to_le(s));
    }
}

} // verus!

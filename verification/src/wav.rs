//! WAV container encoding for chunk persistence and export.
//!
//! Every chunk, and the final export, is an uncompressed PCM RIFF/WAVE image:
//! a 44-byte header (RIFF chunk, canonical 16-byte `fmt ` chunk, `data`
//! chunk header) followed by the interleaved little-endian samples. The
//! 16-bit layout is also parsed back, and parsing is proved to invert
//! encoding.

use vstd::prelude::*;
use vstd::arithmetic::div_mod::{lemma_mod_breakdown, lemma_small_mod};
use crate::pcm::{i16_from_le, i16_to_le, pcm16_of};

verus! {

/// The value at `off` read as a little-endian 16-bit field.
pub open spec fn field_u16(b: Seq<u8>, off: int) -> int {
    b[off] + 256 * b[off + 1]
}

/// The value at `off` read as a little-endian 32-bit field.
pub open spec fn field_u32(b: Seq<u8>, off: int) -> int {
    b[off] + 256 * b[off + 1] + 65536 * b[off + 2] + 16777216 * b[off + 3]
}

/// The 44-byte header of an uncompressed PCM WAV image: RIFF chunk header,
/// canonical `fmt ` chunk for integer PCM, and the `data` chunk header.
#[verifier::opaque]
pub open spec fn wav_header(rate: int, channels: int, bits: int, data_len: int) -> Seq<u8> {
    let riff_len = 36 + data_len;
    let byte_rate = rate * channels * (bits / 8);
    let block_align = channels * (bits / 8);
    seq![
        0x52u8, 0x49u8, 0x46u8, 0x46u8,
        (riff_len % 256) as u8,
        ((riff_len / 256) % 256) as u8,
        ((riff_len / 65536) % 256) as u8,
        ((riff_len / 16777216) % 256) as u8,
        0x57u8, 0x41u8, 0x56u8, 0x45u8,
        0x66u8, 0x6du8, 0x74u8, 0x20u8,
        16u8, 0u8, 0u8, 0u8,
        1u8, 0u8,
        (channels % 256) as u8,
        ((channels / 256) % 256) as u8,
        (rate % 256) as u8,
        ((rate / 256) % 256) as u8,
        ((rate / 65536) % 256) as u8,
        ((rate / 16777216) % 256) as u8,
        (byte_rate % 256) as u8,
        ((byte_rate / 256) % 256) as u8,
        ((byte_rate / 65536) % 256) as u8,
        ((byte_rate / 16777216) % 256) as u8,
        (block_align % 256) as u8,
        ((block_align / 256) % 256) as u8,
        (bits % 256) as u8,
        ((bits / 256) % 256) as u8,
        0x64u8, 0x61u8, 0x74u8, 0x61u8,
        (data_len % 256) as u8,
        ((data_len / 256) % 256) as u8,
        ((data_len / 65536) % 256) as u8,
        ((data_len / 16777216) % 256) as u8,
    ]
}

/// The sample payload of a 16-bit image: two bytes per sample, in order.
pub open spec fn pcm16_bytes(samples: Seq<i16>) -> Seq<u8>
    decreases samples.len(),
{
    if samples.len() == 0 {
        Seq::empty()
    } else {
        pcm16_bytes(samples.drop_last()) + i16_to_le(samples.last())
    }
}

/// The three little-endian bytes of a 16-bit sample widened to 24 bits
/// (multiplied by 256, in two's complement).
pub open spec fn i24_to_le(s: i16) -> Seq<u8> {
    let v = if s < 0 { 256 * (s + 65536) } else { 256 * s };
    seq![(v % 256) as u8, ((v / 256) % 256) as u8, ((v / 65536) % 256) as u8]
}

/// The sample payload of a 24-bit image: three bytes per widened sample.
pub open spec fn pcm24_bytes(samples: Seq<i16>) -> Seq<u8>
    decreases samples.len(),
{
    if samples.len() == 0 {
        Seq::empty()
    } else {
        pcm24_bytes(samples.drop_last()) + i24_to_le(samples.last())
    }
}

/// A complete 16-bit PCM WAV image.
pub open spec fn wav16_bytes(samples: Seq<i16>, rate: int, channels: int) -> Seq<u8> {
    wav_header(rate, channels, 16, 2 * samples.len() as int) + pcm16_bytes(samples)
}

/// A complete 24-bit PCM WAV image of 16-bit samples widened by 8 bits.
pub open spec fn wav24_bytes(samples: Seq<i16>, rate: int, channels: int) -> Seq<u8> {
    wav_header(rate, channels, 24, 3 * samples.len() as int) + pcm24_bytes(samples)
}

/// What a 16-bit PCM WAV image holds: `Some((rate, channels, samples))` when
/// the bytes are exactly a canonical 44-byte integer-PCM header followed by
/// whole little-endian sample pairs, `None` otherwise.
pub open spec fn parse_wav16(b: Seq<u8>) -> Option<(int, int, Seq<i16>)> {
    let channels = field_u16(b, 22);
    let rate = field_u32(b, 24);
    if b.len() >= 44 && (b.len() - 44) % 2 == 0
        && b[0] == 0x52 && b[1] == 0x49 && b[2] == 0x46 && b[3] == 0x46
        && field_u32(b, 4) == b.len() - 8
        && b[8] == 0x57 && b[9] == 0x41 && b[10] == 0x56 && b[11] == 0x45
        && b[12] == 0x66 && b[13] == 0x6d && b[14] == 0x74 && b[15] == 0x20
        && field_u32(b, 16) == 16
        && field_u16(b, 20) == 1
        && 1 <= channels
        && field_u32(b, 28) == rate * channels * 2
        && field_u16(b, 32) == channels * 2
        && field_u16(b, 34) == 16
        && b[36] == 0x64 && b[37] == 0x61 && b[38] == 0x74 && b[39] == 0x61
        && field_u32(b, 40) == b.len() - 44
    {
        Some((rate, channels, pcm16_of(b.skip(44))))
    } else {
        None
    }
}

proof fn lemma_digits32(x: int)
    requires
        0 <= x < 0x100000000,
    ensures
        (x % 256) + 256 * ((x / 256) % 256) + 65536 * ((x / 65536) % 256) + 16777216 * ((x
            / 16777216) % 256) == x,
{
    lemma_mod_breakdown(x, 256, 256);
    lemma_mod_breakdown(x, 65536, 256);
    lemma_mod_breakdown(x, 16777216, 256);
    lemma_small_mod(x as nat, 0x100000000);
    assert((x / 256) / 256 == x / 65536) by {
        vstd::arithmetic::div_mod::lemma_div_denominator(x, 256, 256);
    }
    assert((x / 65536) / 256 == x / 16777216) by {
        vstd::arithmetic::div_mod::lemma_div_denominator(x, 65536, 256);
    }
}

proof fn lemma_digits16(x: int)
    requires
        0 <= x < 65536,
    ensures
        (x % 256) + 256 * ((x / 256) % 256) == x,
{
    lemma_mod_breakdown(x, 256, 256);
    lemma_small_mod(x as nat, 65536);
}

/// The payload of `n` samples takes exactly `2 * n` bytes, and reading the
/// pairs back yields the samples.
pub proof fn lemma_pcm16_bytes_inverts(samples: Seq<i16>)
    ensures
        pcm16_bytes(samples).len() == 2 * samples.len(),
        pcm16_of(pcm16_bytes(samples)) == samples,
    decreases samples.len(),
{
    if samples.len() == 0 {
        assert(pcm16_of(pcm16_bytes(samples)) =~= samples);
    } else {
        let prefix = samples.drop_last();
        lemma_pcm16_bytes_inverts(prefix);
        let b = pcm16_bytes(samples);
        let bp = pcm16_bytes(prefix);
        assert(b == bp + i16_to_le(samples.last()));
        assert(b.len() == 2 * samples.len());
        let n = samples.len() as int;
        assert forall|i: int| 0 <= i < n implies pcm16_of(b)[i] == samples[i] by {
            if i < n - 1 {
                assert(b[2 * i] == bp[2 * i]);
                assert(b[2 * i + 1] == bp[2 * i + 1]);
                assert(pcm16_of(bp)[i] == prefix[i]);
            } else {
                assert(b[2 * i] == i16_to_le(samples.last())[0]);
                assert(b[2 * i + 1] == i16_to_le(samples.last())[1]);
                crate::pcm::lemma_i16_le_round_trip(samples.last());
            }
        }
        assert(pcm16_of(b) =~= samples);
    }
}

/// Parsing inverts encoding: a 16-bit image built from any samples, rate and
/// channel count that fit the container parses back to exactly those values.
pub proof fn lemma_wav16_round_trip(samples: Seq<i16>, rate: int, channels: int)
    requires
        1 <= channels,
        channels * 2 < 65536,
        0 <= rate < 0x100000000,
        rate * channels * 2 < 0x100000000,
        36 + 2 * samples.len() < 0x100000000,
    ensures
        parse_wav16(wav16_bytes(samples, rate, channels)) == Some(
            (rate, channels, samples),
        ),
{
    reveal(wav_header);
    let data_len = 2 * samples.len() as int;
    let h = wav_header(rate, channels, 16, data_len);
    let b = wav16_bytes(samples, rate, channels);
    lemma_pcm16_bytes_inverts(samples);
    assert(h.len() == 44);
    assert(b.len() == 44 + data_len);
    assert forall|i: int| 0 <= i < 44 implies b[i] == h[i] by {}
    // The RIFF length field.
    lemma_digits32(36 + data_len);
    assert(field_u32(b, 4) == 36 + data_len);
    // The fmt fields: each little-endian field reassembles to the value
    // whose digits the header holds.
    lemma_digits16(channels);
    assert(field_u16(b, 22) == channels);
    lemma_digits32(rate);
    assert(field_u32(b, 24) == rate);
    lemma_digits32(rate * channels * 2);
    assert(field_u32(b, 28) == rate * channels * 2);
    lemma_digits16(channels * 2);
    assert(field_u16(b, 32) == channels * 2);
    assert(field_u16(b, 20) == 1);
    assert(field_u16(b, 34) == 16);
    assert(field_u32(b, 16) == 16);
    lemma_digits32(data_len);
    assert(field_u32(b, 40) == data_len);
    assert(b.skip(44) =~= pcm16_bytes(samples));
    assert(parse_wav16(b) == Some((rate, channels, samples)));
}

fn push_u32_le(out: &mut Vec<u8>, x: u32)
    ensures
        final(out)@ == old(out)@ + seq![
            (x as int % 256) as u8,
            ((x as int / 256) % 256) as u8,
            ((x as int / 65536) % 256) as u8,
            ((x as int / 16777216) % 256) as u8,
        ],
{
    out.push((x % 256) as u8);
    out.push(((x / 256) % 256) as u8);
    out.push(((x / 65536) % 256) as u8);
    out.push((x / 16777216) as u8);
    proof {
        assert(x as int / 16777216 < 256);
        lemma_small_mod((x as int / 16777216) as nat, 256);
        assert(final(out)@ =~= old(out)@ + seq![
            (x as int % 256) as u8,
            ((x as int / 256) % 256) as u8,
            ((x as int / 65536) % 256) as u8,
            ((x as int / 16777216) % 256) as u8,
        ]);
    }
}

fn push_u16_le(out: &mut Vec<u8>, x: u16)
    ensures
        final(out)@ == old(out)@ + seq![(x as int % 256) as u8, ((x as int / 256) % 256) as u8],
{
    out.push((x % 256) as u8);
    out.push((x / 256) as u8);
    proof {
        assert(x as int / 256 < 256);
        lemma_small_mod((x as int / 256) as nat, 256);
        assert(final(out)@ =~= old(out)@ + seq![
            (x as int % 256) as u8,
            ((x as int / 256) % 256) as u8,
        ]);
    }
}

fn push_header(out: &mut Vec<u8>, rate: u32, channels: u16, bits: u16, data_len: u32)
    requires
        old(out)@.len() == 0,
        bits == 16 || bits == 24,
        channels * (bits / 8) < 65536,
        rate * channels * (bits / 8) < 0x100000000,
        36 + data_len < 0x100000000,
    ensures
        final(out)@ == wav_header(rate as int, channels as int, bits as int, data_len as int),
{
    out.push(0x52);
    out.push(0x49);
    out.push(0x46);
    out.push(0x46);
    push_u32_le(out, 36 + data_len);
    out.push(0x57);
    out.push(0x41);
    out.push(0x56);
    out.push(0x45);
    out.push(0x66);
    out.push(0x6d);
    out.push(0x74);
    out.push(0x20);
    push_u32_le(out, 16);
    push_u16_le(out, 1);
    push_u16_le(out, channels);
    push_u32_le(out, rate);
    let bytes_per: u32 = (bits / 8) as u32;
    let byte_rate: u32 = rate * (channels as u32) * bytes_per;
    push_u32_le(out, byte_rate);
    let block_align: u16 = channels * (bits / 8);
    push_u16_le(out, block_align);
    push_u16_le(out, bits);
    out.push(0x64);
    out.push(0x61);
    out.push(0x74);
    out.push(0x61);
    push_u32_le(out, data_len);
    proof {
        reveal(wav_header);
        assert(final(out)@ =~= wav_header(
            rate as int,
            channels as int,
            bits as int,
            data_len as int,
        ));
    }
}

/// Encodes samples as a complete 16-bit PCM WAV image at the given sample
/// rate and channel count.
pub fn encode_wav16(samples: &Vec<i16>, rate: u32, channels: u16) -> (r: Vec<u8>)
    requires
        1 <= channels,
        channels * 2 < 65536,
        rate * channels * 2 < 0x100000000,
        36 + 2 * samples@.len() < 0x100000000,
    ensures
        r@ == wav16_bytes(samples@, rate as int, channels as int),
{
    let mut out: Vec<u8> = Vec::new();
    let data_len: u32 = (samples.len() as u64 * 2) as u32;
    push_header(&mut out, rate, channels, 16, data_len);
    let ghost header = out@;
    let n = samples.len();
    let mut i: usize = 0;
    while i < n
        invariant
            i <= n,
            n == samples@.len(),
            out@ == header + pcm16_bytes(samples@.take(i as int)),
            header == wav_header(rate as int, channels as int, 16, 2 * samples@.len() as int),
        decreases n - i,
    {
        crate::pcm::push_i16_le(&mut out, samples[i]);
        proof {
            assert(samples@.take(i + 1).drop_last() =~= samples@.take(i as int));
            assert(samples@.take(i + 1).last() == samples@[i as int]);
            assert(pcm16_bytes(samples@.take(i + 1)) == pcm16_bytes(samples@.take(i as int))
                + i16_to_le(samples@[i as int]));
        }
        i = i + 1;
    }
    proof {
        assert(samples@.take(n as int) =~= samples@);
    }
    out
}

/// Encodes samples as a 24-bit PCM WAV image, each 16-bit sample widened by
/// 8 bits, at the given sample rate and channel count.
pub fn encode_wav24(samples: &Vec<i16>, rate: u32, channels: u16) -> (r: Vec<u8>)
    requires
        1 <= channels,
        channels * 3 < 65536,
        rate * channels * 3 < 0x100000000,
        36 + 3 * samples@.len() < 0x100000000,
    ensures
        r@ == wav24_bytes(samples@, rate as int, channels as int),
{
    let mut out: Vec<u8> = Vec::new();
    let data_len: u32 = (samples.len() as u64 * 3) as u32;
    push_header(&mut out, rate, channels, 24, data_len);
    let ghost header = out@;
    let n = samples.len();
    let mut i: usize = 0;
    while i < n
        invariant
            i <= n,
            n == samples@.len(),
            out@ == header + pcm24_bytes(samples@.take(i as int)),
            header == wav_header(rate as int, channels as int, 24, 3 * samples@.len() as int),
        decreases n - i,
    {
        let s = samples[i];
        let v: u32 = if s < 0 {
            (256 * (s as i64 + 65536)) as u32
        } else {
            256 * (s as u32)
        };
        out.push((v % 256) as u8);
        out.push(((v / 256) % 256) as u8);
        out.push((v / 65536) as u8);
        proof {
            assert(v as int / 65536 < 256);
            lemma_small_mod((v as int / 65536) as nat, 256);
            assert(out@ =~= header + pcm24_bytes(samples@.take(i as int)) + i24_to_le(
                samples@[i as int],
            ));
            assert(samples@.take(i + 1).drop_last() =~= samples@.take(i as int));
            assert(samples@.take(i + 1).last() == samples@[i as int]);
            assert(pcm24_bytes(samples@.take(i + 1)) == pcm24_bytes(samples@.take(i as int))
                + i24_to_le(samples@[i as int]));
        }
        i = i + 1;
    }
    proof {
        assert(samples@.take(n as int) =~= samples@);
    }
    out
}

/// Parses a 16-bit PCM WAV image: returns the sample rate, channel count and
/// samples exactly when the bytes are a canonical integer-PCM image, as
/// `parse_wav16` states.
pub fn decode_wav16(bytes: &Vec<u8>) -> (r: Option<(u32, u16, Vec<i16>)>)
    ensures
        match r {
            Some(t) => parse_wav16(bytes@) == Some((t.0 as int, t.1 as int, t.2@)),
            None => parse_wav16(bytes@) is None,
        },
{
    let len = bytes.len();
    if len < 44 || (len - 44) % 2 != 0 {
        return None;
    }
    if bytes[0] != 0x52 || bytes[1] != 0x49 || bytes[2] != 0x46 || bytes[3] != 0x46 {
        return None;
    }
    if bytes[8] != 0x57 || bytes[9] != 0x41 || bytes[10] != 0x56 || bytes[11] != 0x45 {
        return None;
    }
    if bytes[12] != 0x66 || bytes[13] != 0x6d || bytes[14] != 0x74 || bytes[15] != 0x20 {
        return None;
    }
    let riff_len = read_u32_le(bytes, 4);
    if riff_len as u64 != len as u64 - 8 {
        return None;
    }
    if read_u32_le(bytes, 16) != 16 {
        return None;
    }
    if read_u16_le(bytes, 20) != 1 {
        return None;
    }
    let channels = read_u16_le(bytes, 22);
    if channels < 1 {
        return None;
    }
    let rate = read_u32_le(bytes, 24);
    let byte_rate = read_u32_le(bytes, 28);
    proof {
        assert((rate as int) * (channels as int) * 2 < 0x200000000000000) by (nonlinear_arith)
            requires
                (rate as int) < 0x100000000,
                (channels as int) < 0x10000,
        ;
    }
    if byte_rate as u64 != rate as u64 * channels as u64 * 2 {
        return None;
    }
    if read_u16_le(bytes, 32) as u64 != channels as u64 * 2 {
        return None;
    }
    if read_u16_le(bytes, 34) != 16 {
        return None;
    }
    if bytes[36] != 0x64 || bytes[37] != 0x61 || bytes[38] != 0x74 || bytes[39] != 0x61 {
        return None;
    }
    let data_len = read_u32_le(bytes, 40);
    if data_len as u64 != len as u64 - 44 {
        return None;
    }
    let n = (len - 44) / 2;
    let mut samples: Vec<i16> = Vec::new();
    let mut i: usize = 0;
    while i < n
        invariant
            i <= n,
            len == bytes@.len(),
            len >= 44,
            n == (bytes@.len() - 44) / 2,
            samples@.len() == i,
            forall|j: int|
                0 <= j < i ==> samples@[j] == i16_from_le(
                    bytes@[44 + 2 * j],
                    bytes@[44 + 2 * j + 1],
                ),
        decreases n - i,
    {
        assert(44 + 2 * i + 1 < len);
        let lo = bytes[44 + 2 * i];
        let hi = bytes[44 + 2 * i + 1];
        let v: i32 = lo as i32 + 256 * (hi as i32);
        let s: i16 = if v >= 32768 {
            (v - 65536) as i16
        } else {
            v as i16
        };
        assert(s == i16_from_le(lo, hi));
        samples.push(s);
        i = i + 1;
    }
    proof {
        assert(samples@ =~= pcm16_of(bytes@.skip(44)));
    }
    Some((rate, channels, samples))
}

fn read_u16_le(bytes: &Vec<u8>, off: usize) -> (r: u16)
    requires
        off + 2 <= bytes@.len(),
        off + 2 <= usize::MAX,
    ensures
        r as int == field_u16(bytes@, off as int),
{
    bytes[off] as u16 + 256 * (bytes[off + 1] as u16)
}

fn read_u32_le(bytes: &Vec<u8>, off: usize) -> (r: u32)
    requires
        off + 4 <= bytes@.len(),
        off + 4 <= usize::MAX,
    ensures
        r as int == field_u32(bytes@, off as int),
{
    bytes[off] as u32 + 256 * (bytes[off + 1] as u32) + 65536 * (bytes[off + 2] as u32) + 16777216
        * (bytes[off + 3] as u32)
}

} // verus!

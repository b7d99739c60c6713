//! Constant-bitrate MP3 encoding of the accumulated samples.
//!
//! The bitrate ladder is the library's own rule and is verified; the
//! encoding itself is done by the LAME encoder behind one trusted
//! wrapper, whose output stream carries a name the export contract
//! speaks of.

use vstd::prelude::*;
use mp3lame_encoder::{Bitrate, BuildError, Builder, EncodeError, FlushNoGap, InterleavedPcm, Quality};

verus! {

/// The constant bitrate chosen for a requested value: the nearest rung at
/// or below it on the {128, 192, 256, 320} kbps ladder, with 128 as the
/// floor for any smaller request.
pub open spec fn bitrate_ladder(requested: int) -> int {
    if requested >= 320 {
        320
    } else if requested >= 256 {
        256
    } else if requested >= 192 {
        192
    } else {
        128
    }
}

/// Selects the constant bitrate for a requested kbps value by the ladder's
/// nearest-floor rule.
pub fn select_bitrate(requested: u32) -> (r: u32)
    ensures
        r as int == bitrate_ladder(requested as int),
        r == 128 || r == 192 || r == 256 || r == 320,
{
    if requested >= 320 {
        320
    } else if requested >= 256 {
        256
    } else if requested >= 192 {
        192
    } else {
        128
    }
}

/// The constant-bitrate MP3 stream LAME emits for interleaved samples at
/// a sample rate, channel count and laddered bitrate, flush trailer
/// included: a function of these arguments alone.
pub uninterp spec fn mp3_stream_of(rate: int, channels: int, kbps: int, samples: Seq<i16>) -> Seq<
    u8,
>;

/// The kbps value a constant-bitrate setting stands for.
pub uninterp spec fn bitrate_rung(b: Bitrate) -> int;

#[verifier::external_type_specification]
#[verifier::external_body]
pub struct ExBitrate(mp3lame_encoder::Bitrate);

/// Relies on mp3lame_encoder's `Bitrate`: the encoder's constant-bitrate
/// setting for a laddered kbps value, one rung for each.
#[verifier::external_body]
pub(crate) fn bitrate_setting(kbps: u32) -> (r: Bitrate)
    requires
        kbps == 128 || kbps == 192 || kbps == 256 || kbps == 320,
    ensures
        bitrate_rung(r) == kbps as int,
{
    if kbps >= 320 { Bitrate::Kbps320 } else if kbps >= 256 { Bitrate::Kbps256 } else if kbps >= 192 { Bitrate::Kbps192 } else { Bitrate::Kbps128 }
}

/// Relies on mp3lame_encoder's `Builder` and `Encoder::encode_to_vec` /
/// `flush_to_vec`: the interleaved samples encoded as one constant-bitrate
/// MP3 stream at best quality, followed by the encoder's flush trailer.
/// Every failure comes back as an error. LAME's interleaved input path
/// reads the samples as stereo frame pairs, so the length must be even —
/// an odd length would trip its debug assertion.
#[verifier::external_body]
pub(crate) fn mp3_encode(rate: u32, channels: u16, brate: Bitrate, samples: &Vec<i16>) -> (r:
    Result<Vec<u8>, String>)
    requires
        samples@.len() % 2 == 0,
    ensures
        r matches Ok(b) ==> b@ == mp3_stream_of(
            rate as int,
            channels as int,
            bitrate_rung(brate),
            samples@,
        ),
{
    let err = |e: BuildError| format!("MP3 encoder setup failed: {:?}", e);
    let enc_err = |e: EncodeError| format!("MP3 encoding failed: {:?}", e);
    let mut b = Builder::new().ok_or("Failed to create MP3 encoder builder")?;
    b.set_num_channels(channels as u8).map_err(err)?;
    b.set_sample_rate(rate).map_err(err)?;
    b.set_brate(brate).map_err(err)?;
    b.set_quality(Quality::Best).map_err(err)?;
    let mut enc = b.build().map_err(err)?;
    let mut out: Vec<u8> = Vec::new();
    out.reserve(mp3lame_encoder::max_required_buffer_size(samples.len()) + 7200);
    enc.encode_to_vec(InterleavedPcm(samples.as_slice()), &mut out).map_err(enc_err)?;
    enc.flush_to_vec::<FlushNoGap>(&mut out).map_err(enc_err)?;
    Ok(out)
}

} // verus!

//! Wire handling for the generation session: the JSON frames the peer
//! sends, the JSON commands the driver sends, and the base64 audio payload.
//!
//! The outbound messages are built by verified code, including the JSON
//! string escaping of the caller's prompt. Inbound frames are taken apart
//! by one trusted decoder whose result fields carry names over the frame
//! text, so the session contracts can tie what a frame says to what the
//! driver does.

use vstd::prelude::*;
use vstd::string::StringSliceAdditionalSpecFns;
use base64::Engine;

verus! {

/// Whether a text is a payload the standard-alphabet base64 decoder
/// accepts: a function of the text alone.
pub uninterp spec fn base64_ok(s: Seq<char>) -> bool;

/// What a standard-alphabet base64 payload decodes to: a function of the
/// text alone.
pub uninterp spec fn base64_decoded(s: Seq<char>) -> Seq<u8>;

/// Relies on base64's `STANDARD` engine `decode`: the decoded payload
/// bytes, or the decode error's description exactly for the inputs the
/// decoder refuses.
#[verifier::external_body]
pub(crate) fn base64_decode(s: &String) -> (r: Result<Vec<u8>, String>)
    ensures
        r is Ok <==> base64_ok(s@),
        r matches Ok(b) ==> b@ == base64_decoded(s@),
{
    base64::engine::general_purpose::STANDARD.decode(s.as_str()).map_err(
        |e| format!("Base64 decode failed: {}", e),
    )
}

/// The three independent markers one frame can carry; none, one or
/// several may be present at once.
pub struct FrameFields {
    /// The handshake-acknowledgment marker.
    pub setup_complete: bool,
    /// A rejection notice when present, with its optional reason.
    pub filtered: Option<Option<String>>,
    /// The base64 audio payload.
    pub audio: Option<String>,
}

/// Whether a text parses as a JSON frame at all; one that does not is
/// skipped by the driver.
pub uninterp spec fn frame_parse_ok(text: Seq<char>) -> bool;

/// The handshake-acknowledgment marker a parsed frame carries.
pub uninterp spec fn frame_ack_of(text: Seq<char>) -> bool;

/// The rejection notice a parsed frame carries: absent, or present with
/// its optional reason.
pub uninterp spec fn frame_rejection_of(text: Seq<char>) -> Option<Option<Seq<char>>>;

/// The base64 audio payload a parsed frame carries.
pub uninterp spec fn frame_audio_of(text: Seq<char>) -> Option<Seq<char>>;

/// The view of an optional string.
pub open spec fn opt_view(o: Option<String>) -> Option<Seq<char>> {
    match o {
        Some(s) => Some(s@),
        None => None,
    }
}

/// The view of an optional rejection notice with its optional reason.
pub open spec fn rejection_view(o: Option<Option<String>>) -> Option<Option<Seq<char>>> {
    match o {
        Some(inner) => Some(opt_view(inner)),
        None => None,
    }
}

/// Relies on serde_json's `from_str` and `Value`'s `get`, `as_bool` and
/// `as_str`: the three markers of one frame — the handshake
/// acknowledgment ("setupComplete"), the rejection notice
/// ("filteredPrompt" with its "filteredReason"), and the audio payload
/// ("audioChunk.data") — or nothing when the text is not JSON.
#[verifier::external_body]
pub(crate) fn decode_frame(text: &str) -> (r: Option<FrameFields>)
    ensures
        r is Some <==> frame_parse_ok(text@),
        r matches Some(f) ==> f.setup_complete == frame_ack_of(text@) && rejection_view(
            f.filtered,
        ) == frame_rejection_of(text@) && opt_view(f.audio) == frame_audio_of(text@),
{
    let v: serde_json::Value = serde_json::from_str(text).ok()?;
    let filtered = v.get("filteredPrompt").map(
        |f| f.get("filteredReason").and_then(|x| x.as_str()).map(|s| s.to_string()),
    );
    Some(
        FrameFields {
            setup_complete: v.get("setupComplete").and_then(|x| x.as_bool()).unwrap_or(false),
            filtered,
            audio: v.get("audioChunk").and_then(|c| c.get("data")).and_then(|x| x.as_str()).map(
                |s| s.to_string(),
            ),
        },
    )
}

/// The lowercase hexadecimal digit for a value below 16.
pub open spec fn hex_digit(x: int) -> u8 {
    if x < 10 {
        (0x30 + x) as u8
    } else {
        (0x57 + x) as u8
    }
}

/// How one UTF-8 byte appears inside a JSON string: quote and backslash
/// get a backslash escape, the five named control bytes their short form,
/// any other control byte a `\u00xx` escape with lowercase hex, and every
/// remaining byte (including multi-byte UTF-8) passes through unchanged.
pub open spec fn json_escape_byte(b: u8) -> Seq<u8> {
    if b == 0x22 {
        seq![0x5cu8, 0x22u8]
    } else if b == 0x5c {
        seq![0x5cu8, 0x5cu8]
    } else if b == 0x08 {
        seq![0x5cu8, 0x62u8]
    } else if b == 0x09 {
        seq![0x5cu8, 0x74u8]
    } else if b == 0x0a {
        seq![0x5cu8, 0x6eu8]
    } else if b == 0x0c {
        seq![0x5cu8, 0x66u8]
    } else if b == 0x0d {
        seq![0x5cu8, 0x72u8]
    } else if b < 0x20 {
        seq![0x5cu8, 0x75u8, 0x30u8, 0x30u8, hex_digit(b as int / 16), hex_digit(b as int % 16)]
    } else {
        seq![b]
    }
}

/// A byte sequence escaped for a JSON string, byte by byte.
pub open spec fn json_escaped(s: Seq<u8>) -> Seq<u8>
    decreases s.len(),
{
    if s.len() == 0 {
        Seq::empty()
    } else {
        json_escaped(s.drop_last()) + json_escape_byte(s.last())
    }
}

/// Appends a copy of the slice's bytes to `out`.
fn append_bytes(out: &mut Vec<u8>, s: &[u8])
    ensures
        final(out)@ == old(out)@ + s@,
{
    let n = s.len();
    let mut i: usize = 0;
    while i < n
        invariant
            i <= n,
            n == s@.len(),
            out@ == old(out)@ + s@.take(i as int),
        decreases n - i,
    {
        out.push(s[i]);
        proof {
            assert(old(out)@ + s@.take(i + 1) =~= (old(out)@ + s@.take(i as int)).push(
                s@[i as int],
            ));
        }
        i = i + 1;
    }
    proof {
        assert(s@.take(n as int) =~= s@);
    }
}

/// Appends the slice's bytes to `out`, escaped for a JSON string.
fn append_escaped(out: &mut Vec<u8>, s: &[u8])
    ensures
        final(out)@ == old(out)@ + json_escaped(s@),
{
    let n = s.len();
    let mut i: usize = 0;
    while i < n
        invariant
            i <= n,
            n == s@.len(),
            out@ == old(out)@ + json_escaped(s@.take(i as int)),
        decreases n - i,
    {
        let b = s[i];
        if b == 0x22 || b == 0x5c {
            out.push(0x5c);
            out.push(b);
        } else if b == 0x08 {
            out.push(0x5c);
            out.push(0x62);
        } else if b == 0x09 {
            out.push(0x5c);
            out.push(0x74);
        } else if b == 0x0a {
            out.push(0x5c);
            out.push(0x6e);
        } else if b == 0x0c {
            out.push(0x5c);
            out.push(0x66);
        } else if b == 0x0d {
            out.push(0x5c);
            out.push(0x72);
        } else if b < 0x20 {
            out.push(0x5c);
            out.push(0x75);
            out.push(0x30);
            out.push(0x30);
            let hi = b / 16;
            let lo = b % 16;
            out.push(if hi < 10 { 0x30 + hi } else { 0x57 + hi });
            out.push(if lo < 10 { 0x30 + lo } else { 0x57 + lo });
        } else {
            out.push(b);
        }
        proof {
            assert(out@ =~= old(out)@ + json_escaped(s@.take(i as int)) + json_escape_byte(
                s@[i as int],
            ));
            assert(s@.take(i + 1).drop_last() =~= s@.take(i as int));
            assert(s@.take(i + 1).last() == s@[i as int]);
            assert(json_escaped(s@.take(i + 1)) == json_escaped(s@.take(i as int))
                + json_escape_byte(s@[i as int]));
            assert(old(out)@ + json_escaped(s@.take(i + 1)) =~= out@);
        }
        i = i + 1;
    }
    proof {
        assert(s@.take(n as int) =~= s@);
    }
}

/// The one-time session handshake naming the generation model, sent right
/// after the connection opens.
pub fn setup_message() -> (r: String)
    ensures
        r@ == "{\"setup\":{\"model\":\"models/lyria-realtime-exp\"}}"@,
{
    "{\"setup\":{\"model\":\"models/lyria-realtime-exp\"}}".to_owned()
}

/// The UTF-8 image of the one-time playback command for a prompt: the fixed
/// command framing around the prompt's bytes, escaped for a JSON string.
pub open spec fn play_message_bytes(prompt_utf8: Seq<u8>) -> Seq<u8> {
    "{\"liveMusicInput\":{\"play\":{\"musicGenerationConfig\":{\"textPrompt\":{\"text\":\"".spec_bytes()
        + json_escaped(prompt_utf8) + "\"}}}}}".spec_bytes()
}

/// Builds the one-time playback command carrying the caller's prompt,
/// escaped exactly as the wire format requires.
pub fn play_message(prompt: &str) -> (r: Vec<u8>)
    ensures
        r@ == play_message_bytes(prompt.spec_bytes()),
{
    let mut out: Vec<u8> = Vec::new();
    append_bytes(
        &mut out,
        "{\"liveMusicInput\":{\"play\":{\"musicGenerationConfig\":{\"textPrompt\":{\"text\":\"".as_bytes(),
    );
    append_escaped(&mut out, prompt.as_bytes());
    append_bytes(&mut out, "\"}}}}}".as_bytes());
    out
}

} // verus!

//! Session driver: the protocol state machine of one generation session.
//!
//! The driver owns the session's status and buffering policy. The
//! connection itself lives outside the library: whoever runs the message
//! loop hands every inbound text frame to `handle_frame` (or its decoded
//! stages `handle_fields` and `handle_audio`), reports transport events
//! through `on_connected`, `handle_close` and `handle_transport_error`,
//! and performs the actions the driver returns — sending the playback
//! command and launching the playback unit of a returned plan.

use vstd::prelude::*;
use vstd::string::StringExecFns;
use crate::accum::{AudioError, AudioStreamer, PlaybackPlan};
use crate::pcm;
use crate::wire;
pub use crate::wire::FrameFields;

verus! {

/// Chunks buffered before playback starts.
pub const BUFFER_CHUNKS: usize = 15;

/// The state label of a generation session, from start to one of the three
/// terminal labels.
#[derive(Debug, PartialEq, Eq, Structural, Clone, Copy)]
pub enum SessionState {
    Idle,
    Connecting,
    Connected,
    Generating,
    Buffering,
    Playing,
    Completed,
    Error,
    Stopped,
}

/// A read-only snapshot of a session's progress: the state label, the
/// counters, and the error message of a failed session.
#[derive(Debug)]
pub struct GenerationStatus {
    pub state: SessionState,
    pub chunks_received: usize,
    pub total_samples: usize,
    pub error: Option<String>,
}

/// What the caller must do after a frame: send the one-time playback
/// command, launch a playback unit for the plan, and stop the loop once
/// the session finished.
pub struct FrameOutcome {
    pub reply: Option<Vec<u8>>,
    pub playback: Option<PlaybackPlan>,
    pub finished: bool,
}

/// The ghost image of a session driver.
pub struct SessionView {
    pub state: SessionState,
    pub chunks_received: int,
    pub total_samples: int,
    pub error: Option<Seq<char>>,
    pub running: bool,
    pub playback_started: bool,
    pub target_samples: int,
    pub sample_rate: int,
    pub channels: int,
    pub prompt: Seq<char>,
}

/// Drives one generation session end to end.
pub struct SessionDriver {
    status: GenerationStatus,
    running: bool,
    playback_started: bool,
    target_samples: usize,
    sample_rate: u32,
    channels: u16,
    prompt: String,
}

impl View for SessionDriver {
    type V = SessionView;

    closed spec fn view(&self) -> SessionView {
        SessionView {
            state: self.status.state,
            chunks_received: self.status.chunks_received as int,
            total_samples: self.status.total_samples as int,
            error: match self.status.error {
                Some(ref m) => Some(m@),
                None => None,
            },
            running: self.running,
            playback_started: self.playback_started,
            target_samples: self.target_samples as int,
            sample_rate: self.sample_rate as int,
            channels: self.channels as int,
            prompt: self.prompt@,
        }
    }
}

/// The session failed: the state is `Error` with some message attached,
/// the counters are cleared, the running flag released, and everything
/// else kept.
pub open spec fn session_failed(pre: SessionView, post: SessionView) -> bool {
    &&& post.state == SessionState::Error
    &&& post.chunks_received == 0
    &&& post.total_samples == 0
    &&& post.error is Some
    &&& !post.running
    &&& post.playback_started == pre.playback_started
    &&& post.target_samples == pre.target_samples
    &&& post.sample_rate == pre.sample_rate
    &&& post.channels == pre.channels
    &&& post.prompt == pre.prompt
}

/// The session state after a handshake acknowledgment: generating, with
/// counters cleared; without the marker, unchanged.
pub open spec fn after_setup(pre: SessionView, setup_complete: bool) -> SessionView {
    if setup_complete {
        (SessionView {
            state: SessionState::Generating,
            chunks_received: 0,
            total_samples: 0,
            error: None,
            ..pre
        })
    } else {
        pre
    }
}

/// The mono-equivalent sample count one decoded payload contributes.
pub open spec fn frame_mono(bytes: Seq<u8>, channels: int) -> int {
    pcm::pcm16_of(bytes).len() as int / channels
}

/// Exactly how a running session advances on one decoded audio payload:
/// the samples are appended to the accumulator, both counters advance by
/// the payload's contribution, the buffering policy starts playback once
/// the threshold is reached, and reaching the target sample count
/// completes the session.
pub open spec fn audio_step_ok(
    pre: SessionView,
    post: SessionView,
    pre_a: crate::accum::AccumView,
    post_a: crate::accum::AccumView,
    bytes: Seq<u8>,
    out: FrameOutcome,
) -> bool {
    let samples = pcm::pcm16_of(bytes);
    let started = pre.chunks_received + 1 >= BUFFER_CHUNKS && !pre.playback_started;
    &&& post.chunks_received == pre.chunks_received + 1
    &&& post.total_samples == pre.total_samples + frame_mono(bytes, pre.channels)
    &&& post.error is None
    &&& post.playback_started == (pre.playback_started || started)
    &&& post.target_samples == pre.target_samples
    &&& post.sample_rate == pre.sample_rate
    &&& post.channels == pre.channels
    &&& post.prompt == pre.prompt
    &&& post_a.chunks == pre_a.chunks.push(samples)
    &&& post_a.total_samples == pre_a.total_samples + samples.len() as int / pre_a.channels
    &&& post_a.sample_rate == pre_a.sample_rate
    &&& post_a.channels == pre_a.channels
    &&& (if started {
        out.playback matches Some(plan) && plan.chunks.deep_view() == post_a.chunks
            && plan.epoch as int == post_a.epoch && post_a.playing && !post_a.stop_requested
            && post_a.position == 0
    } else {
        out.playback is None && post_a.playing == pre_a.playing && post_a.stop_requested
            == pre_a.stop_requested && post_a.position == pre_a.position && post_a.epoch
            == pre_a.epoch
    })
    &&& (if post.total_samples >= pre.target_samples {
        post.state == SessionState::Completed && !post.running && out.finished
    } else {
        post.running && !out.finished && post.state == (if post.playback_started {
            SessionState::Playing
        } else {
            SessionState::Buffering
        })
    })
}

/// One frame's full effect on a running session, over the frame's three
/// markers in the order the wire format fixes. The acknowledgment sets the
/// state to `Generating` with cleared counters and is answered with the
/// one-time playback command for the recorded prompt. A rejection notice
/// then ends the session in error with "Prompt filtered: " and the carried
/// or "Unknown" reason. Otherwise an audio payload either fails the
/// session exactly when its base64 is malformed, or advances it as
/// `audio_step_ok` states — unless the accumulator's storage refuses the
/// chunk, which also ends the session in error. A frame with none of the
/// three changes nothing beyond the acknowledgment.
pub open spec fn frame_step(
    pre: SessionView,
    post: SessionView,
    pre_a: crate::accum::AccumView,
    post_a: crate::accum::AccumView,
    ack: bool,
    rejection: Option<Option<Seq<char>>>,
    audio: Option<Seq<char>>,
    out: FrameOutcome,
) -> bool {
    let mid = after_setup(pre, ack);
    &&& (ack ==> (out.reply matches Some(m) && m@ == wire::play_message_bytes(
        vstd::utf8::encode_utf8(pre.prompt),
    )))
    &&& (!ack ==> out.reply is None)
    &&& (match rejection {
        Some(reason) => {
            &&& session_failed(mid, post)
            &&& post.error matches Some(e) && e == "Prompt filtered: "@ + (match reason {
                Some(s) => s,
                None => "Unknown"@,
            })
            &&& post_a == pre_a
            &&& out.finished
            &&& out.playback is None
        },
        None => match audio {
            Some(data) => {
                if !wire::base64_ok(data) {
                    session_failed(mid, post) && post_a == pre_a && out.finished && out.playback
                        is None
                } else {
                    ||| audio_step_ok(mid, post, pre_a, post_a, wire::base64_decoded(data), out)
                    ||| (session_failed(mid, post) && out.finished && out.playback is None
                        && post_a.chunks == pre_a.chunks)
                }
            },
            None => post == mid && post_a == pre_a && !out.finished && out.playback is None,
        },
    })
}

impl SessionDriver {
    /// The fixed stream parameters are usable.
    pub closed spec fn wf(self) -> bool {
        1 <= self.sample_rate && 1 <= self.channels
    }

    /// A fresh, idle driver for streams at the given sample rate and
    /// channel count.
    pub fn new(sample_rate: u32, channels: u16) -> (r: SessionDriver)
        requires
            1 <= sample_rate,
            1 <= channels,
        ensures
            r.wf(),
            r@.state == SessionState::Idle,
            r@.chunks_received == 0,
            r@.total_samples == 0,
            r@.error is None,
            !r@.running,
            !r@.playback_started,
            r@.sample_rate == sample_rate as int,
            r@.channels == channels as int,
    {
        SessionDriver {
            status: GenerationStatus {
                state: SessionState::Idle,
                chunks_received: 0,
                total_samples: 0,
                error: None,
            },
            running: false,
            playback_started: false,
            target_samples: 0,
            sample_rate,
            channels,
            prompt: String::new(),
        }
    }

    /// Whether a session is currently active.
    pub fn is_generating(&self) -> (r: bool)
        ensures
            r == self@.running,
    {
        self.running
    }

    /// A snapshot of the session's status, readable at any time with no
    /// side effect.
    pub fn get_generation_status(&self) -> (r: GenerationStatus)
        ensures
            r.state == self@.state,
            r.chunks_received as int == self@.chunks_received,
            r.total_samples as int == self@.total_samples,
            match (r.error, self@.error) {
                (Some(m), Some(v)) => m@ == v,
                (None, None) => true,
                _ => false,
            },
    {
        GenerationStatus {
            state: self.status.state,
            chunks_received: self.status.chunks_received,
            total_samples: self.status.total_samples,
            error: match &self.status.error {
                Some(m) => Some(m.clone()),
                None => None,
            },
        }
    }

    /// Starts the session: refused while one is already running, otherwise
    /// the status resets to `Connecting` with cleared counters, the prompt
    /// is recorded for the later playback command, and the target is fixed
    /// at the requested seconds times the sample rate.
    pub fn start_generation(&mut self, prompt: &str, duration_seconds: u32) -> (r: Result<
        (),
        String,
    >)
        requires
            old(self).wf(),
            duration_seconds as int * old(self)@.sample_rate <= usize::MAX,
        ensures
            final(self).wf(),
            if old(self)@.running {
                (r matches Err(m) && m@ == "Generation already in progress"@) && final(self)@
                    == old(self)@
            } else {
                r is Ok && final(self)@ == (SessionView {
                    state: SessionState::Connecting,
                    chunks_received: 0,
                    total_samples: 0,
                    error: None,
                    running: true,
                    playback_started: false,
                    target_samples: duration_seconds as int * old(self)@.sample_rate,
                    prompt: prompt@,
                    ..old(self)@
                })
            },
    {
        if self.running {
            return Err("Generation already in progress".to_owned());
        }
        self.status.state = SessionState::Connecting;
        self.status.chunks_received = 0;
        self.status.total_samples = 0;
        self.status.error = None;
        self.running = true;
        self.playback_started = false;
        self.target_samples = (duration_seconds as u64 * self.sample_rate as u64) as usize;
        self.prompt = prompt.to_owned();
        Ok(())
    }

    /// The transport handshake succeeded: `Connecting → Connected`. Any
    /// other state, or an idle driver, is left unchanged.
    pub fn on_connected(&mut self)
        ensures
            final(self).wf() == old(self).wf(),
            if old(self)@.running && old(self)@.state == SessionState::Connecting {
                final(self)@ == (SessionView { state: SessionState::Connected, ..old(self)@ })
            } else {
                final(self)@ == old(self)@
            },
    {
        if self.running && matches!(self.status.state, SessionState::Connecting) {
            self.status.state = SessionState::Connected;
        }
    }

    /// Ends the session in error with the message attached.
    fn fail_with(&mut self, msg: String)
        ensures
            final(self)@ == (SessionView {
                state: SessionState::Error,
                chunks_received: 0,
                total_samples: 0,
                error: Some(msg@),
                running: false,
                ..old(self)@
            }),
    {
        self.status.state = SessionState::Error;
        self.status.chunks_received = 0;
        self.status.total_samples = 0;
        self.status.error = Some(msg);
        self.running = false;
    }

    /// Handles one inbound text frame: what the text carries — the
    /// acknowledgment, rejection and payload markers named over it —
    /// forces the outcome, as `frame_step` states. Text that is not JSON
    /// is skipped. An idle driver changes nothing.
    pub fn handle_frame(&mut self, text: &str, accum: &mut AudioStreamer) -> (r: FrameOutcome)
        requires
            old(self).wf(),
            old(accum).wf(),
        ensures
            final(self).wf(),
            final(accum).wf(),
            !old(self)@.running ==> final(self)@ == old(self)@ && final(accum)@ == old(accum)@
                && r.reply is None && r.playback is None && !r.finished,
            old(self)@.running && !wire::frame_parse_ok(text@) ==> final(self)@ == old(self)@
                && final(accum)@ == old(accum)@ && r.reply is None && r.playback is None
                && !r.finished,
            old(self)@.running && wire::frame_parse_ok(text@) ==> frame_step(
                old(self)@,
                final(self)@,
                old(accum)@,
                final(accum)@,
                wire::frame_ack_of(text@),
                wire::frame_rejection_of(text@),
                wire::frame_audio_of(text@),
                r,
            ),
            final(self)@.sample_rate == old(self)@.sample_rate,
            final(self)@.channels == old(self)@.channels,
            final(accum)@.sample_rate == old(accum)@.sample_rate,
            final(accum)@.channels == old(accum)@.channels,
            r.finished ==> !final(self)@.running,
    {
        match wire::decode_frame(text) {
            None => {
                FrameOutcome { reply: None, playback: None, finished: false }
            },
            Some(fields) => {
                self.handle_fields(fields, accum)
            },
        }
    }

    /// Handles one frame's decoded markers, exactly as `frame_step`
    /// states over their views. An idle driver changes nothing.
    pub fn handle_fields(&mut self, fields: FrameFields, accum: &mut AudioStreamer) -> (r:
        FrameOutcome)
        requires
            old(self).wf(),
            old(accum).wf(),
        ensures
            final(self).wf(),
            final(accum).wf(),
            !old(self)@.running ==> final(self)@ == old(self)@ && final(accum)@ == old(accum)@
                && r.reply is None && r.playback is None && !r.finished,
            old(self)@.running ==> frame_step(
                old(self)@,
                final(self)@,
                old(accum)@,
                final(accum)@,
                fields.setup_complete,
                wire::rejection_view(fields.filtered),
                wire::opt_view(fields.audio),
                r,
            ),
            r.finished ==> !final(self)@.running,
            final(self)@.sample_rate == old(self)@.sample_rate,
            final(self)@.channels == old(self)@.channels,
            final(accum)@.sample_rate == old(accum)@.sample_rate,
            final(accum)@.channels == old(accum)@.channels,
    {
        if !self.running {
            return FrameOutcome { reply: None, playback: None, finished: false };
        }
        let mut reply: Option<Vec<u8>> = None;
        if fields.setup_complete {
            self.status.state = SessionState::Generating;
            self.status.chunks_received = 0;
            self.status.total_samples = 0;
            self.status.error = None;
            reply = Some(wire::play_message(self.prompt.as_str()));
        }
        if let Some(reason) = fields.filtered {
            let mut msg = "Prompt filtered: ".to_owned();
            match reason {
                Some(s) => msg.append(s.as_str()),
                None => msg.append("Unknown"),
            }
            self.fail_with(msg);
            return FrameOutcome { reply, playback: None, finished: true };
        }
        if let Some(data) = fields.audio {
            match wire::base64_decode(&data) {
                Err(m) => {
                    self.fail_with(m);
                    return FrameOutcome { reply, playback: None, finished: true };
                },
                Ok(bytes) => {
                    let mut out = self.handle_audio(&bytes, accum);
                    if fields.setup_complete {
                        out.reply = reply;
                    }
                    return out;
                },
            }
        }
        FrameOutcome { reply, playback: None, finished: false }
    }

    /// Appends one decoded audio payload of a running session and applies
    /// the buffering policy and the target check, exactly as
    /// `audio_step_ok` states. A counter that would overflow, or a storage
    /// or container failure from the accumulator, ends the session in
    /// error instead, with the accumulator's chunks unchanged.
    pub fn handle_audio(&mut self, bytes: &Vec<u8>, accum: &mut AudioStreamer) -> (r: FrameOutcome)
        requires
            old(self).wf(),
            old(accum).wf(),
            old(self)@.running,
        ensures
            final(self).wf(),
            final(accum).wf(),
            r.reply is None,
            r.finished ==> !final(self)@.running,
            final(self)@.sample_rate == old(self)@.sample_rate,
            final(self)@.channels == old(self)@.channels,
            final(accum)@.sample_rate == old(accum)@.sample_rate,
            final(accum)@.channels == old(accum)@.channels,
            ({
                ||| audio_step_ok(old(self)@, final(self)@, old(accum)@, final(accum)@, bytes@, r)
                ||| (session_failed(old(self)@, final(self)@) && r.finished && r.playback is None
                    && final(accum)@.chunks == old(accum)@.chunks)
            }),
    {
        let samples = pcm::decode_pcm16_le(bytes);
        let mono_self = samples.len() / (self.channels as usize);
        let mono_accum = samples.len() / (accum.get_channels() as usize);
        let accum_total = accum.get_duration();
        if accum_total > usize::MAX - mono_accum || self.status.total_samples > usize::MAX
            - mono_self || self.status.chunks_received == usize::MAX {
            self.fail_with("Sample counter overflow".to_owned());
            return FrameOutcome { reply: None, playback: None, finished: true };
        }
        match accum.write_chunk(&samples) {
            Err(e) => {
                self.fail_with(audio_error_message(e));
                return FrameOutcome { reply: None, playback: None, finished: true };
            },
            Ok(_) => {},
        }
        self.status.chunks_received = self.status.chunks_received + 1;
        self.status.total_samples = self.status.total_samples + mono_self;
        self.status.error = None;
        let mut playback: Option<PlaybackPlan> = None;
        if self.status.chunks_received >= BUFFER_CHUNKS && !self.playback_started {
            match accum.start_playback() {
                Ok(plan) => {
                    self.playback_started = true;
                    playback = Some(plan);
                },
                Err(e) => {
                    self.fail_with(audio_error_message(e));
                    return FrameOutcome { reply: None, playback: None, finished: true };
                },
            }
        }
        self.status.state = if self.playback_started {
            SessionState::Playing
        } else {
            SessionState::Buffering
        };
        if self.status.total_samples >= self.target_samples {
            self.status.state = SessionState::Completed;
            self.running = false;
            return FrameOutcome { reply: None, playback, finished: true };
        }
        FrameOutcome { reply: None, playback, finished: false }
    }

    /// A close frame from the peer: a non-empty reason ends the session in
    /// error with "Server closed connection: " and that reason; an empty
    /// or absent reason completes the session with its counters kept. An
    /// idle driver changes nothing.
    pub fn handle_close(&mut self, reason: Option<String>)
        requires
            old(self).wf(),
        ensures
            final(self).wf(),
            !old(self)@.running ==> final(self)@ == old(self)@,
            old(self)@.running ==> match reason {
                Some(s) => if s@.len() > 0 {
                    session_failed(old(self)@, final(self)@) && (final(self)@.error matches Some(e) && e == "Server closed connection: "@ + s@)
                } else {
                    final(self)@ == (SessionView {
                        state: SessionState::Completed,
                        running: false,
                        ..old(self)@
                    })
                },
                None => final(self)@ == (SessionView {
                    state: SessionState::Completed,
                    running: false,
                    ..old(self)@
                }),
            },
    {
        if !self.running {
            return ;
        }
        match reason {
            Some(s) => {
                if !s.as_str().is_empty() {
                    let mut msg = "Server closed connection: ".to_owned();
                    msg.append(s.as_str());
                    self.fail_with(msg);
                } else {
                    self.status.state = SessionState::Completed;
                    self.running = false;
                }
            },
            None => {
                self.status.state = SessionState::Completed;
                self.running = false;
            },
        }
    }

    /// A transport-level failure: a running session ends in error with
    /// "WebSocket error: " and the failure's description. An idle driver
    /// changes nothing.
    pub fn handle_transport_error(&mut self, detail: &str)
        requires
            old(self).wf(),
        ensures
            final(self).wf(),
            !old(self)@.running ==> final(self)@ == old(self)@,
            old(self)@.running ==> session_failed(old(self)@, final(self)@) && (final(self)@.error matches Some(e) && e == "WebSocket error: "@ + detail@),
    {
        if !self.running {
            return ;
        }
        let mut msg = "WebSocket error: ".to_owned();
        msg.append(detail);
        self.fail_with(msg);
    }

    /// External stop request: signals the end of the session regardless of
    /// its state, marks the status `Stopped` with cleared counters, and
    /// unconditionally stops any accumulator playback. Safe to call when
    /// no session is active.
    pub fn stop_generation(&mut self, accum: &mut AudioStreamer) -> (r: Result<(), String>)
        requires
            old(self).wf(),
            old(accum).wf(),
        ensures
            final(self).wf(),
            final(accum).wf(),
            r is Ok,
            final(self)@ == (SessionView {
                state: SessionState::Stopped,
                chunks_received: 0,
                total_samples: 0,
                error: None,
                running: false,
                playback_started: false,
                ..old(self)@
            }),
            final(accum)@ == (crate::accum::AccumView {
                playing: false,
                stop_requested: true,
                ..old(accum)@
            }),
            forall|e: int| !crate::accum::playback_live(final(accum)@, e),
    {
        accum.stop_playback();
        self.mark_stopped();
        Ok(())
    }

    /// External stop for a caller that holds no accumulator (none was ever
    /// initialized, so nothing can be playing): marks the status `Stopped`
    /// with cleared counters and releases the running flag.
    pub fn mark_stopped(&mut self)
        requires
            old(self).wf(),
        ensures
            final(self).wf(),
            final(self)@ == (SessionView {
                state: SessionState::Stopped,
                chunks_received: 0,
                total_samples: 0,
                error: None,
                running: false,
                playback_started: false,
                ..old(self)@
            }),
    {
        self.status.state = SessionState::Stopped;
        self.status.chunks_received = 0;
        self.status.total_samples = 0;
        self.status.error = None;
        self.running = false;
        self.playback_started = false;
    }
}

/// The message carried by an accumulator error, for the session's status;
/// the `NoChunks` precondition failure has a fixed description.
fn audio_error_message(e: AudioError) -> (r: String)
    ensures
        match e {
            AudioError::Storage(m) => r@ == m@,
            AudioError::Codec(m) => r@ == m@,
            AudioError::NoChunks => true,
        },
{
    match e {
        AudioError::Storage(m) => m,
        AudioError::Codec(m) => m,
        AudioError::NoChunks => "No audio chunks".to_owned(),
    }
}

} // verus!

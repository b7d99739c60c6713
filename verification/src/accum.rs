//! Accumulator/player: durable, ordered storage of generated audio chunks,
//! playback timeline control, retrieval, and export.
//!
//! Chunks are append-only and never reordered: the accumulator keeps the
//! sample data of every chunk in order, persists each chunk as a WAV image
//! in a private directory, and tracks a running mono-equivalent sample
//! count. The playback unit itself runs outside the library; it is driven
//! entirely through `start_playback`, `playback_should_continue`,
//! `playback_mark_progress` and `playback_finished`, whose contracts pin
//! the timeline the unit reports.

use vstd::prelude::*;
use vstd::string::StringSliceAdditionalSpecFns;
use std::io::Write;
use crate::wav;
use crate::mp3;

verus! {

/// Mono-equivalent sample count of one chunk: its interleaved length
/// divided by the channel count.
pub open spec fn mono_count(c: Seq<i16>, channels: int) -> int {
    c.len() as int / channels
}

/// Sum of the chunks' mono-equivalent sample counts.
pub open spec fn mono_total(chunks: Seq<Seq<i16>>, channels: int) -> int
    decreases chunks.len(),
{
    if chunks.len() == 0 {
        0
    } else {
        mono_total(chunks.drop_last(), channels) + mono_count(chunks.last(), channels)
    }
}

/// Concatenation of all chunks in append order.
pub open spec fn concat_chunks(chunks: Seq<Seq<i16>>) -> Seq<i16>
    decreases chunks.len(),
{
    if chunks.len() == 0 {
        Seq::empty()
    } else {
        concat_chunks(chunks.drop_last()) + chunks.last()
    }
}

pub proof fn lemma_mono_total_nonneg(chunks: Seq<Seq<i16>>, channels: int)
    requires
        1 <= channels,
    ensures
        0 <= mono_total(chunks, channels),
    decreases chunks.len(),
{
    if chunks.len() > 0 {
        lemma_mono_total_nonneg(chunks.drop_last(), channels);
    }
}

/// The running total over a prefix never exceeds the total over all chunks.
pub proof fn lemma_mono_total_take_bound(chunks: Seq<Seq<i16>>, channels: int, k: int)
    requires
        1 <= channels,
        0 <= k <= chunks.len(),
    ensures
        0 <= mono_total(chunks.take(k), channels) <= mono_total(chunks, channels),
    decreases chunks.len() - k,
{
    lemma_mono_total_nonneg(chunks.take(k), channels);
    if k == chunks.len() {
        assert(chunks.take(k) =~= chunks);
    } else {
        lemma_mono_total_snoc(chunks, channels, k);
        lemma_mono_total_take_bound(chunks, channels, k + 1);
    }
}

/// The position a playback unit reports is monotone: as the unit moves to
/// later chunks, the cumulative mono count through them never decreases.
pub proof fn lemma_mono_total_take_monotone(chunks: Seq<Seq<i16>>, channels: int, i: int, j: int)
    requires
        1 <= channels,
        0 <= i <= j <= chunks.len(),
    ensures
        mono_total(chunks.take(i), channels) <= mono_total(chunks.take(j), channels),
    decreases j - i,
{
    if i < j {
        lemma_mono_total_snoc(chunks, channels, i);
        lemma_mono_total_take_monotone(chunks, channels, i + 1, j);
    }
}

/// Extending a prefix by one chunk adds that chunk's mono count.
pub proof fn lemma_mono_total_snoc(chunks: Seq<Seq<i16>>, channels: int, k: int)
    requires
        0 <= k < chunks.len(),
    ensures
        mono_total(chunks.take(k + 1), channels) == mono_total(chunks.take(k), channels)
            + mono_count(chunks[k], channels),
{
    assert(chunks.take(k + 1).drop_last() =~= chunks.take(k));
    assert(chunks.take(k + 1).last() == chunks[k]);
}

/// Interleaved sample count over all chunks: the sum of their lengths.
pub open spec fn interleaved_total(chunks: Seq<Seq<i16>>) -> int
    decreases chunks.len(),
{
    if chunks.len() == 0 {
        0
    } else {
        interleaved_total(chunks.drop_last()) + chunks.last().len()
    }
}

/// Retrieval is length-preserving: the concatenation of the chunks holds
/// exactly the sum of their lengths.
pub proof fn lemma_concat_len(chunks: Seq<Seq<i16>>)
    ensures
        concat_chunks(chunks).len() == interleaved_total(chunks),
    decreases chunks.len(),
{
    if chunks.len() > 0 {
        lemma_concat_len(chunks.drop_last());
    }
}

/// At most one playback unit is live at any time: two units holding
/// different epochs are never both told to continue. Together with
/// `start_playback`'s guarantee that the new plan's epoch differs from the
/// superseded one's, a second start always halts the first unit.
pub proof fn lemma_playback_exclusive(v: AccumView, e1: int, e2: int)
    requires
        e1 != e2,
    ensures
        !(playback_live(v, e1) && playback_live(v, e2)),
{
}

proof fn lemma_concat_snoc(chunks: Seq<Seq<i16>>, k: int)
    requires
        0 <= k < chunks.len(),
    ensures
        concat_chunks(chunks.take(k + 1)) == concat_chunks(chunks.take(k)) + chunks[k],
{
    assert(chunks.take(k + 1).drop_last() =~= chunks.take(k));
    assert(chunks.take(k + 1).last() == chunks[k]);
}

/// An error of the accumulator. Every fallible operation reports which of
/// these occurred rather than panicking.
#[derive(Debug)]
pub enum AudioError {
    /// The operation needs at least one stored chunk.
    NoChunks,
    /// Durable storage could not be created or written; the message carries
    /// the underlying cause.
    Storage(String),
    /// The samples could not be encoded in the requested output format.
    Codec(String),
}

#[verifier::external_type_specification]
#[verifier::external_body]
pub struct ExTempDir(tempfile::TempDir);

/// Relies on `tempfile::TempDir::new`: a fresh private directory, removed
/// together with its contents when the value is dropped.
#[verifier::external_body]
fn make_temp_dir() -> (r: Result<tempfile::TempDir, String>) {
    tempfile::TempDir::new().map_err(|e| format!("Failed to create temp dir: {}", e))
}

/// Relies on `tempfile::NamedTempFile` and `std::io::Write`: places the
/// bytes in a file named by the chunk index inside the accumulator's
/// directory, atomically via a rename within that directory.
#[verifier::external_body]
fn persist_chunk(dir: &tempfile::TempDir, index: usize, bytes: &Vec<u8>) -> (r: Result<
    (),
    String,
>) {
    let path = dir.path().join(format!("chunk_{:04}.wav", index));
    let mut f = tempfile::NamedTempFile::new_in(dir.path()).map_err(
        |e| format!("Failed to create chunk file: {}", e),
    )?;
    f.write_all(bytes).map_err(|e| format!("Failed to write chunk: {}", e))?;
    f.persist(&path).map_err(|e| format!("Failed to finalize chunk: {}", e))?;
    Ok(())
}

/// Relies on `tempfile::NamedTempFile` and `std::io::Write`: writes the
/// bytes to the given path, replacing any existing file there.
#[verifier::external_body]
fn write_file(path: &str, bytes: &Vec<u8>) -> (r: Result<(), String>) {
    let target = std::path::Path::new(path);
    let dir = match target.parent() {
        Some(p) if !p.as_os_str().is_empty() => p,
        _ => std::path::Path::new("."),
    };
    let mut f = tempfile::NamedTempFile::new_in(dir).map_err(
        |e| format!("Failed to create output file: {}", e),
    )?;
    f.write_all(bytes).map_err(|e| format!("Failed to write output: {}", e))?;
    f.persist(target).map_err(|e| format!("Failed to finalize output: {}", e))?;
    Ok(())
}

/// Appends a copy of every sample of `c` to `out`.
fn append_samples(out: &mut Vec<i16>, c: &Vec<i16>)
    ensures
        final(out)@ == old(out)@ + c@,
{
    let n = c.len();
    let mut i: usize = 0;
    while i < n
        invariant
            i <= n,
            n == c@.len(),
            out@ == old(out)@ + c@.take(i as int),
        decreases n - i,
    {
        out.push(c[i]);
        proof {
            assert(old(out)@ + c@.take(i + 1) =~= (old(out)@ + c@.take(i as int)).push(
                c@[i as int],
            ));
        }
        i = i + 1;
    }
    proof {
        assert(c@.take(n as int) =~= c@);
    }
}

fn clone_samples(c: &Vec<i16>) -> (r: Vec<i16>)
    ensures
        r@ == c@,
{
    let mut out: Vec<i16> = Vec::new();
    append_samples(&mut out, c);
    out
}

fn clone_chunk_list(chunks: &Vec<Vec<i16>>) -> (r: Vec<Vec<i16>>)
    ensures
        r.deep_view() == chunks.deep_view(),
{
    let n = chunks.len();
    let mut out: Vec<Vec<i16>> = Vec::new();
    let mut i: usize = 0;
    while i < n
        invariant
            i <= n,
            n == chunks@.len(),
            out@.len() == i,
            forall|j: int| 0 <= j < i ==> out@[j]@ == chunks@[j]@,
        decreases n - i,
    {
        out.push(clone_samples(&chunks[i]));
        i = i + 1;
    }
    proof {
        assert(out.deep_view() =~~= chunks.deep_view());
    }
    out
}

/// Concatenates the chunks' samples in order into one vector.
fn concat_exec(chunks: &Vec<Vec<i16>>) -> (r: Vec<i16>)
    ensures
        r@ == concat_chunks(chunks.deep_view()),
{
    let n = chunks.len();
    let mut out: Vec<i16> = Vec::new();
    let mut i: usize = 0;
    while i < n
        invariant
            i <= n,
            n == chunks@.len(),
            out@ == concat_chunks(chunks.deep_view().take(i as int)),
        decreases n - i,
    {
        append_samples(&mut out, &chunks[i]);
        proof {
            lemma_concat_snoc(chunks.deep_view(), i as int);
            assert(chunks.deep_view()[i as int] =~= chunks@[i as int]@);
        }
        i = i + 1;
    }
    proof {
        assert(chunks.deep_view().take(n as int) =~= chunks.deep_view());
    }
    out
}

/// The ghost image of an accumulator: the stored chunks, the counters, the
/// fixed stream parameters, and the playback flags and timeline.
pub struct AccumView {
    /// Sample data of every chunk, in append order.
    pub chunks: Seq<Seq<i16>>,
    /// Running mono-equivalent sample count over all chunks.
    pub total_samples: int,
    /// Fixed sample rate, chosen at initialization.
    pub sample_rate: int,
    /// Fixed channel count, chosen at initialization.
    pub channels: int,
    /// Whether a playback session is considered running.
    pub playing: bool,
    /// Whether the current playback unit has been asked to stop.
    pub stop_requested: bool,
    /// Mono-equivalent samples submitted to the output so far.
    pub position: int,
    /// Identifier of the current playback session; a unit holding an older
    /// value is superseded.
    pub epoch: int,
}

/// Whether a playback unit holding `epoch` is still the live one: playback
/// runs, no stop was requested, and no later playback superseded it.
pub open spec fn playback_live(v: AccumView, epoch: int) -> bool {
    v.playing && !v.stop_requested && epoch == v.epoch
}

/// Durable, ordered storage of generated audio with playback control.
pub struct AudioStreamer {
    store: tempfile::TempDir,
    chunk_data: Vec<Vec<i16>>,
    total: usize,
    rate: u32,
    chans: u16,
    playing_flag: bool,
    stop_flag: bool,
    position: usize,
    epoch: usize,
}

/// Everything a playback unit needs: the chunk samples in order, the stream
/// parameters, and the epoch that identifies the unit's playback session.
pub struct PlaybackPlan {
    pub chunks: Vec<Vec<i16>>,
    pub sample_rate: u32,
    pub channels: u16,
    pub epoch: usize,
}

impl View for AudioStreamer {
    type V = AccumView;

    closed spec fn view(&self) -> AccumView {
        AccumView {
            chunks: self.chunk_data.deep_view(),
            total_samples: self.total as int,
            sample_rate: self.rate as int,
            channels: self.chans as int,
            playing: self.playing_flag,
            stop_requested: self.stop_flag,
            position: self.position as int,
            epoch: self.epoch as int,
        }
    }
}

impl AudioStreamer {
    /// Well-formedness: the counter matches the stored chunks, and the
    /// fixed stream parameters fit every WAV image this accumulator writes.
    pub closed spec fn wf(self) -> bool {
        &&& 1 <= self.chans
        &&& 1 <= self.rate
        &&& self.total as int == mono_total(self@.chunks, self.chans as int)
        &&& (self.chans as int) * 3 < 65536
        &&& (self.rate as int) * (self.chans as int) * 3 < 0x100000000
    }

    /// Creates an empty accumulator over a fresh storage directory, fixed
    /// at 48 kHz stereo.
    pub fn new() -> (r: Result<AudioStreamer, AudioError>)
        ensures
            match r {
                Ok(a) => a.wf() && a@.chunks.len() == 0 && a@.total_samples == 0
                    && a@.sample_rate == 48000 && a@.channels == 2 && !a@.playing
                    && !a@.stop_requested && a@.position == 0,
                Err(e) => e is Storage,
            },
    {
        match make_temp_dir() {
            Ok(d) => {
                let a = AudioStreamer {
                    store: d,
                    chunk_data: Vec::new(),
                    total: 0,
                    rate: 48000,
                    chans: 2,
                    playing_flag: false,
                    stop_flag: false,
                    position: 0,
                    epoch: 0,
                };
                proof {
                    assert(a@.chunks =~= Seq::<Seq<i16>>::empty());
                }
                Ok(a)
            },
            Err(m) => Err(AudioError::Storage(m)),
        }
    }

    /// Persists the samples as the chunk at the next sequence index and
    /// advances the counter by their mono-equivalent count. On failure the
    /// accumulator does not advance: no partial counter update, no orphaned
    /// index. Success is owed unless the samples overflow one WAV image
    /// (`Codec`) or durable storage refuses the write (`Storage`).
    #[verifier::rlimit(50)]
    pub fn write_chunk(&mut self, audio_data: &Vec<i16>) -> (r: Result<usize, AudioError>)
        requires
            old(self).wf(),
            old(self)@.total_samples + audio_data@.len() as int / old(self)@.channels <= usize::MAX,
        ensures
            final(self).wf(),
            final(self)@.sample_rate == old(self)@.sample_rate,
            final(self)@.channels == old(self)@.channels,
            match r {
                Ok(idx) => idx as int == old(self)@.chunks.len() && final(self)@ == (AccumView {
                    chunks: old(self)@.chunks.push(audio_data@),
                    total_samples: old(self)@.total_samples + audio_data@.len() as int / old(self)@.channels,
                    ..old(self)@
                }),
                Err(e) => final(self)@ == old(self)@ && (e is Storage || e is Codec),
            },
            (r matches Err(AudioError::Codec(_))) <==> 36 + 2 * audio_data@.len() >= 0x100000000,
    {
        if audio_data.len() > 2147483629 {
            return Err(
                AudioError::Codec("Chunk exceeds the WAV container size".to_owned()),
            );
        }
        let idx = self.chunk_data.len();
        proof {
            assert((self.rate as int) * (self.chans as int) * 2 < 0x100000000)
                by (nonlinear_arith)
                requires
                    (self.rate as int) * (self.chans as int) * 3 < 0x100000000,
                    self.rate as int >= 0,
                    self.chans as int >= 0,
            ;
        }
        let bytes = wav::encode_wav16(audio_data, self.rate, self.chans);
        match persist_chunk(&self.store, idx, &bytes) {
            Err(m) => Err(AudioError::Storage(m)),
            Ok(_) => {
                self.chunk_data.push(clone_samples(audio_data));
                self.total = self.total + audio_data.len() / (self.chans as usize);
                proof {
                    assert(self@.chunks =~~= old(self)@.chunks.push(audio_data@));
                    assert(self@.chunks.drop_last() =~= old(self)@.chunks);
                }
                Ok(idx)
            },
        }
    }

    /// Starts a new playback session: any prior unit is superseded (it will
    /// observe `playback_should_continue == false` and halt), the position
    /// is reset to zero, and the returned plan hands the unit every chunk
    /// in append order under a fresh epoch. Fails only when no chunk
    /// exists; at most one playback session is live at any time.
    pub fn start_playback(&mut self) -> (r: Result<PlaybackPlan, AudioError>)
        requires
            old(self).wf(),
        ensures
            final(self).wf(),
            r is Err <==> old(self)@.chunks.len() == 0,
            match r {
                Ok(plan) => plan.chunks.deep_view() == old(self)@.chunks
                    && plan.sample_rate as int == old(self)@.sample_rate && plan.channels as int
                    == old(self)@.channels && plan.epoch as int == final(self)@.epoch && final(self)@ == (AccumView {
                    playing: true,
                    stop_requested: false,
                    position: 0,
                    epoch: final(self)@.epoch,
                    ..old(self)@
                }) && final(self)@.epoch != old(self)@.epoch && !playback_live(
                    final(self)@,
                    old(self)@.epoch,
                ),
                Err(e) => e is NoChunks && final(self)@ == old(self)@,
            },
    {
        if self.chunk_data.len() == 0 {
            return Err(AudioError::NoChunks);
        }
        let plan_chunks = clone_chunk_list(&self.chunk_data);
        self.epoch = if self.epoch == usize::MAX {
            0
        } else {
            self.epoch + 1
        };
        self.stop_flag = false;
        self.playing_flag = true;
        self.position = 0;
        Ok(
            PlaybackPlan {
                chunks: plan_chunks,
                sample_rate: self.rate,
                channels: self.chans,
                epoch: self.epoch,
            },
        )
    }

    /// Requests the playback unit to stop and marks playback inactive; no
    /// unit of any epoch is live afterwards. The caller joins the unit
    /// before reusing the output device. Safe when no playback is active.
    pub fn stop_playback(&mut self)
        requires
            old(self).wf(),
        ensures
            final(self).wf(),
            final(self)@ == (AccumView {
                playing: false,
                stop_requested: true,
                ..old(self)@
            }),
            forall|e: int| !playback_live(final(self)@, e),
    {
        self.stop_flag = true;
        self.playing_flag = false;
    }

    /// Whether the unit holding `epoch` is still the live playback session.
    /// Checked by the unit between chunks; a stop request or a newer
    /// playback session makes this false.
    pub fn playback_should_continue(&self, epoch: usize) -> (r: bool)
        ensures
            r == playback_live(self@, epoch as int),
    {
        self.playing_flag && !self.stop_flag && epoch == self.epoch
    }

    /// Called by the live playback unit as the chunk at `idx` begins
    /// playing: advances the reported position to the cumulative
    /// mono-equivalent count of all chunks through `idx`, so polling
    /// callers see monotonic progress. A superseded unit changes nothing.
    pub fn playback_mark_progress(&mut self, epoch: usize, idx: usize)
        requires
            old(self).wf(),
        ensures
            final(self).wf(),
            if playback_live(old(self)@, epoch as int) && (idx as int) < old(self)@.chunks.len() {
                final(self)@ == (AccumView {
                    position: mono_total(old(self)@.chunks.take(idx + 1), old(self)@.channels),
                    ..old(self)@
                })
            } else {
                final(self)@ == old(self)@
            },
    {
        let len = self.chunk_data.len();
        if self.playing_flag && !self.stop_flag && epoch == self.epoch && idx < len {
            let mut sum: usize = 0;
            let mut j: usize = 0;
            proof {
                lemma_mono_total_take_bound(self@.chunks, self@.channels, 0);
            }
            while j <= idx
                invariant
                    self.wf(),
                    j <= idx + 1,
                    idx < len,
                    len == self.chunk_data@.len(),
                    sum as int == mono_total(self@.chunks.take(j as int), self@.channels),
                    sum <= self.total,
                decreases idx + 1 - j,
            {
                proof {
                    lemma_mono_total_snoc(self@.chunks, self@.channels, j as int);
                    lemma_mono_total_take_bound(self@.chunks, self@.channels, j + 1);
                }
                sum = sum + self.chunk_data[j].len() / (self.chans as usize);
                j = j + 1;
            }
            self.position = sum;
        }
    }

    /// Called by the playback unit after the output has drained: ends the
    /// playback session. A superseded unit changes nothing.
    pub fn playback_finished(&mut self, epoch: usize)
        requires
            old(self).wf(),
        ensures
            final(self).wf(),
            if epoch as int == old(self)@.epoch {
                final(self)@ == (AccumView { playing: false, ..old(self)@ })
            } else {
                final(self)@ == old(self)@
            },
    {
        if epoch == self.epoch {
            self.playing_flag = false;
        }
    }

    /// Whether a playback session is currently marked running.
    pub fn is_playing(&self) -> (r: bool)
        ensures
            r == self@.playing,
    {
        self.playing_flag
    }

    /// The playback position: mono-equivalent samples submitted so far.
    /// Seconds follow by dividing by the sample rate.
    pub fn get_position(&self) -> (r: usize)
        ensures
            r as int == self@.position,
    {
        self.position
    }

    /// The accumulated length: the running counter, which always equals the
    /// sum of every chunk's mono-equivalent sample count. Seconds follow by
    /// dividing by the sample rate.
    pub fn get_duration(&self) -> (r: usize)
        requires
            self.wf(),
        ensures
            r as int == self@.total_samples,
            r as int == mono_total(self@.chunks, self@.channels),
    {
        self.total
    }

    /// The number of stored chunks.
    pub fn get_chunk_count(&self) -> (r: usize)
        ensures
            r as int == self@.chunks.len(),
    {
        self.chunk_data.len()
    }

    /// The fixed sample rate, at least one.
    pub fn get_sample_rate(&self) -> (r: u32)
        requires
            self.wf(),
        ensures
            r as int == self@.sample_rate,
            1 <= r,
    {
        self.rate
    }

    /// The fixed channel count, at least one.
    pub fn get_channels(&self) -> (r: u16)
        requires
            self.wf(),
        ensures
            r as int == self@.channels,
            1 <= r,
    {
        self.chans
    }

    /// Returns the exact concatenation of every stored chunk's samples in
    /// append order. Fails only when no chunk exists.
    pub fn get_all_samples(&self) -> (r: Result<Vec<i16>, AudioError>)
        requires
            self.wf(),
        ensures
            r is Err <==> self@.chunks.len() == 0,
            match r {
                Ok(v) => v@ == concat_chunks(self@.chunks),
                Err(e) => e is NoChunks,
            },
    {
        if self.chunk_data.len() == 0 {
            return Err(AudioError::NoChunks);
        }
        Ok(concat_exec(&self.chunk_data))
    }

    /// Stops any playback, discards every stored chunk together with the
    /// storage directory, and resets the counter and position to zero. If a
    /// replacement directory cannot be created the old files are abandoned
    /// (an accepted degradation); the in-memory state is cleared regardless,
    /// so the result is the same either way — calling `clear` twice leaves
    /// exactly the same state as calling it once.
    pub fn clear(&mut self)
        requires
            old(self).wf(),
        ensures
            final(self).wf(),
            final(self)@ == (AccumView {
                chunks: Seq::empty(),
                total_samples: 0,
                position: 0,
                playing: false,
                stop_requested: true,
                sample_rate: old(self)@.sample_rate,
                channels: old(self)@.channels,
                epoch: old(self)@.epoch,
            }),
    {
        self.stop_playback();
        match make_temp_dir() {
            Ok(d) => {
                self.store = d;
            },
            Err(_) => {
                // The old directory stays behind; storage leakage on a
                // failed replacement is logged-and-skipped territory, never
                // an error surfaced to the caller.
            },
        }
        self.chunk_data = Vec::new();
        self.total = 0;
        self.position = 0;
        proof {
            assert(self@.chunks =~= Seq::<Seq<i16>>::empty());
        }
    }

    /// Builds the byte image one export writes for a format name: LAME's
    /// constant-bitrate stream at the laddered bitrate for "mp3"; the
    /// 24-bit PCM WAV image of the samples widened by 8 bits for "flac"
    /// (a deliberate compromise — not a FLAC bitstream); the 16-bit PCM
    /// WAV image of the concatenated samples, byte-faithful to the stored
    /// chunks, for every other name. Fails with `NoChunks` only when no
    /// chunk exists, and with `Codec` exactly when the samples overflow
    /// the WAV container, or — on the mp3 path — end on a half frame or
    /// are refused by the encoder.
    pub fn export_bytes(&self, format: &str, bitrate: u32) -> (r: Result<Vec<u8>, AudioError>)
        requires
            self.wf(),
        ensures
            (r matches Err(AudioError::NoChunks)) <==> self@.chunks.len() == 0,
            !(r matches Err(AudioError::Storage(_))),
            ({
                let flat = concat_chunks(self@.chunks);
                let rate = self@.sample_rate;
                let ch = self@.channels;
                &&& (r matches Ok(b) ==> (if is_mp3_name(format.spec_bytes()) {
                    b@ == mp3::mp3_stream_of(rate, ch, mp3::bitrate_ladder(bitrate as int), flat)
                } else if is_flac_name(format.spec_bytes()) {
                    b@ == wav::wav24_bytes(flat, rate, ch)
                } else {
                    b@ == wav::wav16_bytes(flat, rate, ch)
                }))
                &&& (self@.chunks.len() > 0 ==> (if is_mp3_name(format.spec_bytes()) {
                    flat.len() % 2 != 0 ==> (r matches Err(AudioError::Codec(_)))
                } else if is_flac_name(format.spec_bytes()) {
                    (r matches Err(AudioError::Codec(_))) <==> 36 + 3 * flat.len()
                        >= 0x100000000
                } else {
                    (r matches Err(AudioError::Codec(_))) <==> 36 + 2 * flat.len()
                        >= 0x100000000
                }))
            }),
    {
        if self.chunk_data.len() == 0 {
            return Err(AudioError::NoChunks);
        }
        let samples = concat_exec(&self.chunk_data);
        let fb = format.as_bytes();
        let mp3_selected = fb.len() == 3 && fb[0] == 0x6d && fb[1] == 0x70 && fb[2] == 0x33;
        let flac_selected = fb.len() == 4 && fb[0] == 0x66 && fb[1] == 0x6c && fb[2] == 0x61
            && fb[3] == 0x63;
        proof {
            if mp3_selected {
                assert(format.spec_bytes() =~= seq![0x6du8, 0x70u8, 0x33u8]);
            }
            if flac_selected {
                assert(format.spec_bytes() =~= seq![0x66u8, 0x6cu8, 0x61u8, 0x63u8]);
            }
            assert(mp3_selected == is_mp3_name(format.spec_bytes()));
            assert(flac_selected == is_flac_name(format.spec_bytes()));
        }
        if mp3_selected {
            if samples.len() % 2 != 0 {
                return Err(
                    AudioError::Codec("Audio ends on a half frame".to_owned()),
                );
            }
            let kbps = mp3::select_bitrate(bitrate);
            let brate = mp3::bitrate_setting(kbps);
            match mp3::mp3_encode(self.rate, self.chans, brate, &samples) {
                Ok(b) => Ok(b),
                Err(m) => Err(AudioError::Codec(m)),
            }
        } else if flac_selected {
            if samples.len() > 1431655753 {
                return Err(
                    AudioError::Codec("Audio exceeds the WAV container size".to_owned()),
                );
            }
            Ok(wav::encode_wav24(&samples, self.rate, self.chans))
        } else {
            if samples.len() > 2147483629 {
                return Err(
                    AudioError::Codec("Audio exceeds the WAV container size".to_owned()),
                );
            }
            proof {
                assert((self.rate as int) * (self.chans as int) * 2 < 0x100000000)
                    by (nonlinear_arith)
                    requires
                        (self.rate as int) * (self.chans as int) * 3 < 0x100000000,
                        self.rate as int >= 0,
                        self.chans as int >= 0,
                ;
            }
            Ok(wav::encode_wav16(&samples, self.rate, self.chans))
        }
    }

    /// Exports as 16-bit WAV at the accumulator's rate and channel count:
    /// shorthand for `export_to_file_with_format` with the WAV format.
    pub fn export_to_file(&self, output_path: &str) -> (r: Result<(), AudioError>)
        requires
            self.wf(),
        ensures
            (r matches Err(AudioError::NoChunks)) <==> self@.chunks.len() == 0,
            self@.chunks.len() > 0 ==> ((r matches Err(AudioError::Codec(_))) <==> 36 + 2
                * concat_chunks(self@.chunks).len() >= 0x100000000),
    {
        let fmt = "wav";
        proof {
            reveal_strlit("wav");
            assert(vstd::string::is_ascii(fmt));
            vstd::string::is_ascii_spec_bytes(fmt);
            assert(fmt.spec_bytes() =~= seq![0x77u8, 0x61u8, 0x76u8]);
            assert(!is_mp3_name(fmt.spec_bytes()));
            assert(!is_flac_name(fmt.spec_bytes()));
        }
        self.export_to_file_with_format(output_path, fmt, 320)
    }

    /// Writes the byte image that `export_bytes` builds for the format —
    /// and exactly that image — to one file at the caller's path. Fails
    /// with `NoChunks` only when no chunk exists, with `Codec` exactly as
    /// `export_bytes` states, and with `Storage` when the file cannot be
    /// written.
    pub fn export_to_file_with_format(&self, output_path: &str, format: &str, bitrate: u32) -> (r:
        Result<(), AudioError>)
        requires
            self.wf(),
        ensures
            (r matches Err(AudioError::NoChunks)) <==> self@.chunks.len() == 0,
            ({
                let flat = concat_chunks(self@.chunks);
                self@.chunks.len() > 0 ==> (if is_mp3_name(format.spec_bytes()) {
                    flat.len() % 2 != 0 ==> (r matches Err(AudioError::Codec(_)))
                } else if is_flac_name(format.spec_bytes()) {
                    (r matches Err(AudioError::Codec(_))) <==> 36 + 3 * flat.len()
                        >= 0x100000000
                } else {
                    (r matches Err(AudioError::Codec(_))) <==> 36 + 2 * flat.len()
                        >= 0x100000000
                })
            }),
    {
        match self.export_bytes(format, bitrate) {
            Err(e) => Err(e),
            Ok(bytes) => match write_file(output_path, &bytes) {
                Ok(_) => Ok(()),
                Err(m) => Err(AudioError::Storage(m)),
            },
        }
    }
}

/// Whether a format name's UTF-8 bytes spell "mp3".
pub open spec fn is_mp3_name(s: Seq<u8>) -> bool {
    s == seq![0x6du8, 0x70u8, 0x33u8]
}

/// Whether a format name's UTF-8 bytes spell "flac".
pub open spec fn is_flac_name(s: Seq<u8>) -> bool {
    s == seq![0x66u8, 0x6cu8, 0x61u8, 0x63u8]
}

} // verus!

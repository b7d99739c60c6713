use lyria_studio::AudioStreamer;
use lyria_studio::AudioError;
use lyria_studio::mp3::select_bitrate;

fn streamer_with(chunks: &[Vec<i16>]) -> AudioStreamer {
    let mut a = AudioStreamer::new().expect("fresh accumulator");
    for c in chunks {
        a.write_chunk(c).expect("chunk persists");
    }
    a
}

#[test]
fn counters_track_appends() {
    let c1: Vec<i16> = vec![1, 2, 3, 4];
    let c2: Vec<i16> = vec![5, 6];
    let c3: Vec<i16> = vec![7, 8, 9, 10, 11, 12];
    let mut a = AudioStreamer::new().expect("fresh accumulator");
    assert_eq!(a.get_chunk_count(), 0);
    assert_eq!(a.get_duration(), 0);
    assert_eq!(a.write_chunk(&c1).expect("first"), 0);
    assert_eq!(a.write_chunk(&c2).expect("second"), 1);
    assert_eq!(a.write_chunk(&c3).expect("third"), 2);
    assert_eq!(a.get_chunk_count(), 3);
    // Stereo accumulator: mono-equivalent count is interleaved / 2.
    assert_eq!(a.get_duration(), (4 + 2 + 6) / 2);
    assert_eq!(a.get_sample_rate(), 48000);
    assert_eq!(a.get_channels(), 2);
}

#[test]
fn get_all_samples_concatenates_in_order() {
    let chunks = [vec![1i16, 2], vec![3i16, 4, 5, 6], vec![7i16, 8]];
    let a = streamer_with(&chunks);
    let all = a.get_all_samples().expect("has chunks");
    assert_eq!(all, vec![1, 2, 3, 4, 5, 6, 7, 8]);
}

#[test]
fn get_all_samples_fails_when_empty() {
    let a = AudioStreamer::new().expect("fresh accumulator");
    assert!(matches!(a.get_all_samples(), Err(AudioError::NoChunks)));
}

#[test]
fn clear_is_idempotent() {
    let mut a = streamer_with(&[vec![1i16, 2, 3, 4], vec![5i16, 6]]);
    a.start_playback().expect("playback starts");
    a.clear();
    assert_eq!(a.get_chunk_count(), 0);
    assert!(!a.is_playing());
    assert_eq!(a.get_duration(), 0);
    assert_eq!(a.get_position(), 0);
    a.clear();
    assert_eq!(a.get_chunk_count(), 0);
    assert!(!a.is_playing());
    assert_eq!(a.get_duration(), 0);
    assert_eq!(a.get_position(), 0);
}

#[test]
fn start_playback_needs_chunks() {
    let mut a = AudioStreamer::new().expect("fresh accumulator");
    assert!(matches!(a.start_playback(), Err(AudioError::NoChunks)));
    assert!(!a.is_playing());
}

#[test]
fn second_start_supersedes_first_unit() {
    let mut a = streamer_with(&[vec![1i16, 2], vec![3i16, 4]]);
    let plan1 = a.start_playback().expect("first start");
    assert!(a.is_playing());
    assert!(a.playback_should_continue(plan1.epoch));
    let plan2 = a.start_playback().expect("second start");
    // The first unit is told to halt; only the second is live.
    assert!(!a.playback_should_continue(plan1.epoch));
    assert!(a.playback_should_continue(plan2.epoch));
    assert_ne!(plan1.epoch, plan2.epoch);
}

#[test]
fn stop_playback_halts_any_unit_and_clears_running() {
    let mut a = streamer_with(&[vec![1i16, 2]]);
    let plan = a.start_playback().expect("start");
    a.stop_playback();
    assert!(!a.is_playing());
    assert!(!a.playback_should_continue(plan.epoch));
    // Safe when nothing is active.
    a.stop_playback();
    assert!(!a.is_playing());
}

#[test]
fn playback_progress_reports_cumulative_position() {
    let mut a = streamer_with(&[vec![1i16, 2, 3, 4], vec![5i16, 6], vec![7i16, 8, 9, 10]]);
    let plan = a.start_playback().expect("start");
    assert_eq!(a.get_position(), 0);
    a.playback_mark_progress(plan.epoch, 0);
    assert_eq!(a.get_position(), 2);
    a.playback_mark_progress(plan.epoch, 1);
    assert_eq!(a.get_position(), 3);
    a.playback_mark_progress(plan.epoch, 2);
    assert_eq!(a.get_position(), 5);
    a.playback_finished(plan.epoch);
    assert!(!a.is_playing());
}

#[test]
fn stale_unit_cannot_move_position() {
    let mut a = streamer_with(&[vec![1i16, 2, 3, 4], vec![5i16, 6]]);
    let plan1 = a.start_playback().expect("first");
    let _plan2 = a.start_playback().expect("second");
    a.playback_mark_progress(plan1.epoch, 1);
    assert_eq!(a.get_position(), 0);
    a.playback_finished(plan1.epoch);
    assert!(a.is_playing());
}

#[test]
fn export_wav_round_trips_from_disk() {
    let chunks = [vec![10i16, -10, 20, -20], vec![30i16, -30]];
    let a = streamer_with(&chunks);
    let all = a.get_all_samples().expect("samples");
    let dir = tempfile::TempDir::new().expect("dir");
    let path = dir.path().join("out.wav");
    let path_str = path.to_str().expect("utf8 path");
    a.export_to_file(path_str).expect("export");
    let reader = hound::WavReader::open(path_str).expect("exported file opens");
    let spec = reader.spec();
    assert_eq!(spec.sample_rate, 48000);
    assert_eq!(spec.channels, 2);
    assert_eq!(spec.bits_per_sample, 16);
    let got: Vec<i16> = reader.into_samples::<i16>().map(|s| s.unwrap()).collect();
    assert_eq!(got, all);
}

#[test]
fn export_flac_writes_widened_24_bit_wav() {
    let chunks = [vec![100i16, -100], vec![5000i16, -5000]];
    let a = streamer_with(&chunks);
    let dir = tempfile::TempDir::new().expect("dir");
    let path = dir.path().join("out.flac");
    let path_str = path.to_str().expect("utf8 path");
    a.export_to_file_with_format(path_str, "flac", 320).expect("export");
    let reader = hound::WavReader::open(path_str).expect("exported file opens");
    assert_eq!(reader.spec().bits_per_sample, 24);
    let got: Vec<i32> = reader.into_samples::<i32>().map(|s| s.unwrap()).collect();
    assert_eq!(got, vec![25600, -25600, 1280000, -1280000]);
}

#[test]
fn export_mp3_writes_a_stream() {
    let chunk: Vec<i16> = (0..9600).map(|i| ((i % 200) * 100 - 10000) as i16).collect();
    let a = streamer_with(&[chunk]);
    let dir = tempfile::TempDir::new().expect("dir");
    let path = dir.path().join("out.mp3");
    let path_str = path.to_str().expect("utf8 path");
    a.export_to_file_with_format(path_str, "mp3", 256).expect("export");
}

#[test]
fn unknown_format_name_exports_wav() {
    let a = streamer_with(&[vec![7i16, -7, 9, -9]]);
    let dir = tempfile::TempDir::new().expect("dir");
    let path = dir.path().join("out.ogg");
    let path_str = path.to_str().expect("utf8 path");
    a.export_to_file_with_format(path_str, "ogg", 128).expect("export");
    let reader = hound::WavReader::open(path_str).expect("file is a WAV image");
    assert_eq!(reader.spec().bits_per_sample, 16);
    let got: Vec<i16> = reader.into_samples::<i16>().map(|s| s.unwrap()).collect();
    assert_eq!(got, vec![7, -7, 9, -9]);
}

#[test]
fn export_bytes_wav_is_the_wav_image() {
    let a = streamer_with(&[vec![1i16, 2], vec![3i16, 4]]);
    let b = a.export_bytes("wav", 320).expect("bytes");
    let all: Vec<i16> = vec![1, 2, 3, 4];
    assert_eq!(b, lyria_studio::wav::encode_wav16(&all, 48000, 2));
}

#[test]
fn export_bytes_flac_is_the_widened_image() {
    let a = streamer_with(&[vec![1i16, -2], vec![3i16, -4]]);
    let b = a.export_bytes("flac", 320).expect("bytes");
    let all: Vec<i16> = vec![1, -2, 3, -4];
    assert_eq!(b, lyria_studio::wav::encode_wav24(&all, 48000, 2));
}

#[test]
fn export_bytes_mp3_is_a_frame_stream() {
    let chunk: Vec<i16> = (0..9600).map(|i| ((i % 200) * 100 - 10000) as i16).collect();
    let a = streamer_with(&[chunk]);
    let b = a.export_bytes("mp3", 192).expect("bytes");
    assert!(!b.is_empty());
    assert_eq!(b[0], 0xff, "an MP3 stream opens on a frame sync byte");
}

#[test]
fn mp3_export_rejects_half_frame() {
    // An odd interleaved length ends on a half frame, which the encoder's
    // interleaved input cannot take.
    let a = streamer_with(&[vec![1i16, 2, 3]]);
    let dir = tempfile::TempDir::new().expect("dir");
    let path = dir.path().join("out.mp3");
    let r = a.export_to_file_with_format(path.to_str().expect("utf8 path"), "mp3", 320);
    assert!(matches!(r, Err(AudioError::Codec(_))));
}

#[test]
fn export_fails_without_chunks() {
    let a = AudioStreamer::new().expect("fresh accumulator");
    assert!(matches!(a.export_to_file("nowhere.wav"), Err(AudioError::NoChunks)));
    assert!(matches!(
        a.export_to_file_with_format("nowhere.mp3", "mp3", 320),
        Err(AudioError::NoChunks)
    ));
}

#[test]
fn export_to_unwritable_path_is_a_storage_error() {
    let a = streamer_with(&[vec![1i16, 2]]);
    let r = a.export_to_file("/nonexistent-root-dir-for-export/out.wav");
    assert!(matches!(r, Err(AudioError::Storage(_))));
}

#[test]
fn bitrate_ladder_uses_nearest_floor() {
    assert_eq!(select_bitrate(320), 320);
    assert_eq!(select_bitrate(400), 320);
    assert_eq!(select_bitrate(319), 256);
    assert_eq!(select_bitrate(256), 256);
    assert_eq!(select_bitrate(200), 192);
    assert_eq!(select_bitrate(192), 192);
    assert_eq!(select_bitrate(191), 128);
    assert_eq!(select_bitrate(0), 128);
}

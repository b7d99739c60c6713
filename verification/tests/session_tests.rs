use base64::Engine;
use lyria_studio::AudioStreamer;
use lyria_studio::session::{SessionDriver, SessionState};
use lyria_studio::wire::{play_message, setup_message};

fn audio_frame(samples: &[i16]) -> String {
    let bytes: Vec<u8> = samples.iter().flat_map(|s| s.to_le_bytes()).collect();
    let b64 = base64::engine::general_purpose::STANDARD.encode(&bytes);
    format!("{{\"audioChunk\":{{\"data\":\"{}\"}}}}", b64)
}

fn one_second_stereo(seed: i16) -> Vec<i16> {
    (0..96000).map(|i| seed.wrapping_add((i % 128) as i16)).collect()
}

#[test]
fn start_refuses_second_session() {
    let mut d = SessionDriver::new(48000, 2);
    assert!(!d.is_generating());
    d.start_generation("calm piano", 60).expect("first start");
    assert!(d.is_generating());
    let err = d.start_generation("other", 60).expect_err("second start refused");
    assert_eq!(err, "Generation already in progress");
    assert!(d.is_generating());
}

#[test]
fn ack_then_fifteen_frames_reaches_playing_with_one_start() {
    let mut d = SessionDriver::new(48000, 2);
    let mut a = AudioStreamer::new().expect("accumulator");
    assert_eq!(d.get_generation_status().state, SessionState::Idle);
    d.start_generation("lofi beats", 60).expect("start");
    assert_eq!(d.get_generation_status().state, SessionState::Connecting);
    d.on_connected();
    assert_eq!(d.get_generation_status().state, SessionState::Connected);
    let out = d.handle_frame("{\"setupComplete\":true}", &mut a);
    assert!(out.reply.is_some());
    assert!(!out.finished);
    assert_eq!(d.get_generation_status().state, SessionState::Generating);
    let mut starts = 0;
    for k in 1..=16u32 {
        let frame = audio_frame(&one_second_stereo(k as i16));
        let out = d.handle_frame(&frame, &mut a);
        assert!(!out.finished);
        if out.playback.is_some() {
            starts += 1;
            assert_eq!(k, 15, "playback starts exactly at the buffering threshold");
        }
        let st = d.get_generation_status();
        assert_eq!(st.chunks_received as u32, k);
        assert_eq!(st.total_samples as u32, k * 48000);
        if k < 15 {
            assert_eq!(st.state, SessionState::Buffering);
            assert!(!a.is_playing());
        } else {
            assert_eq!(st.state, SessionState::Playing);
            assert!(a.is_playing());
        }
    }
    assert_eq!(starts, 1, "playback started exactly once");
    assert_eq!(a.get_chunk_count(), 16);
}

#[test]
fn rejection_ends_session_in_error_without_playback() {
    let mut d = SessionDriver::new(48000, 2);
    let mut a = AudioStreamer::new().expect("accumulator");
    d.start_generation("prompt", 60).expect("start");
    d.on_connected();
    d.handle_frame("{\"setupComplete\":true}", &mut a);
    let out = d.handle_frame(
        "{\"filteredPrompt\":{\"filteredReason\":\"blocked words\"}}",
        &mut a,
    );
    assert!(out.finished);
    assert!(out.playback.is_none());
    let st = d.get_generation_status();
    assert_eq!(st.state, SessionState::Error);
    assert_eq!(st.error.as_deref(), Some("Prompt filtered: blocked words"));
    assert!(!d.is_generating());
    assert!(!a.is_playing());
}

#[test]
fn rejection_without_reason_reports_unknown() {
    let mut d = SessionDriver::new(48000, 2);
    let mut a = AudioStreamer::new().expect("accumulator");
    d.start_generation("prompt", 60).expect("start");
    let out = d.handle_frame("{\"filteredPrompt\":{}}", &mut a);
    assert!(out.finished);
    let st = d.get_generation_status();
    assert_eq!(st.state, SessionState::Error);
    assert_eq!(st.error.as_deref(), Some("Prompt filtered: Unknown"));
}

#[test]
fn target_reached_completes_session() {
    // Ten seconds at 48 kHz: completion takes 480000 mono-equivalent
    // samples, delivered here as 960000 interleaved stereo samples.
    let mut d = SessionDriver::new(48000, 2);
    let mut a = AudioStreamer::new().expect("accumulator");
    d.start_generation("prompt", 10).expect("start");
    d.on_connected();
    d.handle_frame("{\"setupComplete\":true}", &mut a);
    let mut finished = false;
    for k in 0..10u32 {
        let frame = audio_frame(&one_second_stereo(k as i16));
        let out = d.handle_frame(&frame, &mut a);
        finished = out.finished;
        assert_eq!(finished, k == 9, "completes exactly at the target");
    }
    assert!(finished);
    let st = d.get_generation_status();
    assert_eq!(st.state, SessionState::Completed);
    assert_eq!(st.total_samples, 480000);
    assert!(!d.is_generating());
}

#[test]
fn half_target_of_interleaved_samples_counts_mono() {
    // 480000 interleaved stereo samples are 240000 mono-equivalent ones:
    // they complete a five-second target, and the counter reads 240000.
    let mut d = SessionDriver::new(48000, 2);
    let mut a = AudioStreamer::new().expect("accumulator");
    d.start_generation("prompt", 5).expect("start");
    let mut finished = false;
    for k in 0..5u32 {
        let frame = audio_frame(&one_second_stereo(k as i16));
        finished = d.handle_frame(&frame, &mut a).finished;
    }
    assert!(finished);
    let st = d.get_generation_status();
    assert_eq!(st.state, SessionState::Completed);
    assert_eq!(st.total_samples, 240000);
}

#[test]
fn stop_generation_halts_loop_and_playback() {
    let mut d = SessionDriver::new(48000, 2);
    let mut a = AudioStreamer::new().expect("accumulator");
    d.start_generation("prompt", 60).expect("start");
    d.handle_frame("{\"setupComplete\":true}", &mut a);
    for k in 0..16u32 {
        d.handle_frame(&audio_frame(&one_second_stereo(k as i16)), &mut a);
    }
    assert!(a.is_playing());
    let before = a.get_chunk_count();
    d.stop_generation(&mut a).expect("stop");
    assert!(!d.is_generating());
    assert!(!a.is_playing());
    assert_eq!(d.get_generation_status().state, SessionState::Stopped);
    // Further frames are ignored: no chunk-count increase.
    let out = d.handle_frame(&audio_frame(&one_second_stereo(99)), &mut a);
    assert!(!out.finished);
    assert!(out.playback.is_none());
    assert_eq!(a.get_chunk_count(), before);
    assert_eq!(d.get_generation_status().state, SessionState::Stopped);
    // Safe to call again with no session active.
    d.stop_generation(&mut a).expect("stop again");
}

#[test]
fn close_reason_is_error_and_empty_reason_completes() {
    let mut d = SessionDriver::new(48000, 2);
    let mut a = AudioStreamer::new().expect("accumulator");
    d.start_generation("prompt", 60).expect("start");
    d.handle_frame(&audio_frame(&[1, 2, 3, 4]), &mut a);
    d.handle_close(Some("quota exceeded".to_string()));
    let st = d.get_generation_status();
    assert_eq!(st.state, SessionState::Error);
    assert_eq!(st.error.as_deref(), Some("Server closed connection: quota exceeded"));

    let mut d2 = SessionDriver::new(48000, 2);
    d2.start_generation("prompt", 60).expect("start");
    d2.handle_frame(&audio_frame(&[1, 2, 3, 4]), &mut a);
    d2.handle_close(Some(String::new()));
    let st2 = d2.get_generation_status();
    assert_eq!(st2.state, SessionState::Completed);
    assert_eq!(st2.chunks_received, 1);
    assert!(st2.error.is_none());
}

#[test]
fn transport_error_surfaces_in_status() {
    let mut d = SessionDriver::new(48000, 2);
    d.start_generation("prompt", 60).expect("start");
    d.handle_transport_error("connection reset");
    let st = d.get_generation_status();
    assert_eq!(st.state, SessionState::Error);
    assert_eq!(st.error.as_deref(), Some("WebSocket error: connection reset"));
    assert!(!d.is_generating());
}

#[test]
fn malformed_frames_are_skipped() {
    let mut d = SessionDriver::new(48000, 2);
    let mut a = AudioStreamer::new().expect("accumulator");
    d.start_generation("prompt", 60).expect("start");
    let out = d.handle_frame("this is not json", &mut a);
    assert!(!out.finished);
    assert_eq!(a.get_chunk_count(), 0);
    assert!(d.is_generating());
}

#[test]
fn bad_base64_ends_session_in_error() {
    let mut d = SessionDriver::new(48000, 2);
    let mut a = AudioStreamer::new().expect("accumulator");
    d.start_generation("prompt", 60).expect("start");
    let out = d.handle_frame("{\"audioChunk\":{\"data\":\"!!!not-base64!!!\"}}", &mut a);
    assert!(out.finished);
    let st = d.get_generation_status();
    assert_eq!(st.state, SessionState::Error);
    assert!(st.error.is_some());
}

#[test]
fn odd_payload_byte_is_dropped_not_fatal() {
    // One complete sample pair plus a trailing odd byte: the pair lands,
    // the odd byte is ignored, and the session goes on.
    let mut d = SessionDriver::new(48000, 2);
    let mut a = AudioStreamer::new().expect("accumulator");
    d.start_generation("prompt", 60).expect("start");
    let b64 = base64::engine::general_purpose::STANDARD.encode([0x34u8, 0x12, 0xab]);
    let frame = format!("{{\"audioChunk\":{{\"data\":\"{}\"}}}}", b64);
    let out = d.handle_frame(&frame, &mut a);
    assert!(!out.finished);
    assert_eq!(a.get_chunk_count(), 1);
    assert_eq!(a.get_all_samples().expect("samples"), vec![0x1234]);
}

#[test]
fn setup_message_names_the_model() {
    assert_eq!(
        setup_message(),
        "{\"setup\":{\"model\":\"models/lyria-realtime-exp\"}}"
    );
}

#[test]
fn play_message_escapes_prompt_as_json() {
    let prompt = "say \"hi\"\\ and\nmore\u{1}music";
    let msg = String::from_utf8(play_message(prompt)).expect("valid utf8");
    let v: serde_json::Value = serde_json::from_str(&msg).expect("valid json");
    let text = v
        .get("liveMusicInput")
        .and_then(|x| x.get("play"))
        .and_then(|x| x.get("musicGenerationConfig"))
        .and_then(|x| x.get("textPrompt"))
        .and_then(|x| x.get("text"))
        .and_then(|x| x.as_str())
        .expect("text field");
    assert_eq!(text, prompt);
    assert!(msg.contains("\\\"hi\\\""));
    assert!(msg.contains("\\n"));
    assert!(msg.contains("\\u0001"));
}

#[test]
fn plain_prompt_message_matches_wire_shape() {
    let msg = String::from_utf8(play_message("upbeat jazz")).expect("valid utf8");
    assert_eq!(
        msg,
        "{\"liveMusicInput\":{\"play\":{\"musicGenerationConfig\":{\"textPrompt\":{\"text\":\"upbeat jazz\"}}}}}"
    );
}

#[test]
fn status_snapshot_has_no_side_effects() {
    let d = SessionDriver::new(48000, 2);
    let s1 = d.get_generation_status();
    let s2 = d.get_generation_status();
    assert_eq!(s1.state, s2.state);
    assert_eq!(s1.chunks_received, 0);
    assert_eq!(s1.total_samples, 0);
    assert!(s1.error.is_none());
}

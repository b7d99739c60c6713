use lyria_studio::wav::{decode_wav16, encode_wav16, encode_wav24};

#[test]
fn wav16_round_trips_through_decode() {
    let samples: Vec<i16> = vec![0, 1, -1, 32767, -32768, 1234, -4321];
    let bytes = encode_wav16(&samples, 48000, 2);
    let (rate, channels, back) = decode_wav16(&bytes).expect("canonical image parses");
    assert_eq!(rate, 48000);
    assert_eq!(channels, 2);
    assert_eq!(back, samples);
}

#[test]
fn wav16_header_is_44_bytes_and_sized() {
    let samples: Vec<i16> = vec![5, 6, 7];
    let bytes = encode_wav16(&samples, 44100, 1);
    assert_eq!(bytes.len(), 44 + 2 * samples.len());
    assert_eq!(&bytes[0..4], b"RIFF");
    assert_eq!(&bytes[8..12], b"WAVE");
    assert_eq!(&bytes[36..40], b"data");
}

#[test]
fn hound_reads_wav16_image() {
    let samples: Vec<i16> = vec![100, -100, 2000, -2000, 30000, -30000];
    let bytes = encode_wav16(&samples, 48000, 2);
    let reader = hound::WavReader::new(std::io::Cursor::new(bytes)).expect("hound opens image");
    let spec = reader.spec();
    assert_eq!(spec.sample_rate, 48000);
    assert_eq!(spec.channels, 2);
    assert_eq!(spec.bits_per_sample, 16);
    let got: Vec<i16> = reader.into_samples::<i16>().map(|s| s.unwrap()).collect();
    assert_eq!(got, samples);
}

#[test]
fn decode_parses_hound_output() {
    let spec = hound::WavSpec {
        channels: 2,
        sample_rate: 48000,
        bits_per_sample: 16,
        sample_format: hound::SampleFormat::Int,
    };
    let mut cursor = std::io::Cursor::new(Vec::new());
    {
        let mut writer = hound::WavWriter::new(&mut cursor, spec).expect("writer");
        for s in [1i16, -2, 3, -4] {
            writer.write_sample(s).expect("write");
        }
        writer.finalize().expect("finalize");
    }
    let bytes = cursor.into_inner();
    let (rate, channels, samples) = decode_wav16(&bytes).expect("hound image parses");
    assert_eq!(rate, 48000);
    assert_eq!(channels, 2);
    assert_eq!(samples, vec![1, -2, 3, -4]);
}

#[test]
fn hound_reads_wav24_image_with_widened_samples() {
    let samples: Vec<i16> = vec![1, -1, 12345, -12345];
    let bytes = encode_wav24(&samples, 48000, 2);
    let reader = hound::WavReader::new(std::io::Cursor::new(bytes)).expect("hound opens image");
    let spec = reader.spec();
    assert_eq!(spec.bits_per_sample, 24);
    let got: Vec<i32> = reader.into_samples::<i32>().map(|s| s.unwrap()).collect();
    let expected: Vec<i32> = samples.iter().map(|&s| (s as i32) * 256).collect();
    assert_eq!(got, expected);
}

#[test]
fn decode_rejects_garbage() {
    let bytes: Vec<u8> = vec![0u8; 10];
    assert!(decode_wav16(&bytes).is_none());
    let bytes2: Vec<u8> = vec![0x42u8; 64];
    assert!(decode_wav16(&bytes2).is_none());
}

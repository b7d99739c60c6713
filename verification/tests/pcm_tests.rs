use lyria_studio::decode_pcm16_le;

#[test]
fn decodes_little_endian_pairs() {
    let bytes: Vec<u8> = vec![0x01, 0x00, 0xff, 0x7f, 0x00, 0x80, 0xff, 0xff];
    let samples = decode_pcm16_le(&bytes);
    assert_eq!(samples, vec![1, 32767, -32768, -1]);
}

#[test]
fn drops_odd_trailing_byte() {
    let bytes: Vec<u8> = vec![0x34, 0x12, 0xab];
    let samples = decode_pcm16_le(&bytes);
    assert_eq!(samples, vec![0x1234]);
}

#[test]
fn empty_payload_gives_no_samples() {
    let bytes: Vec<u8> = Vec::new();
    assert_eq!(decode_pcm16_le(&bytes).len(), 0);
}

#[test]
fn single_byte_gives_no_samples() {
    let bytes: Vec<u8> = vec![0x7f];
    assert_eq!(decode_pcm16_le(&bytes).len(), 0);
}

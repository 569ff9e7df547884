use neolink::audio::adpcm::{decode, BLOCK_HEADER_SIZE};

/// Build a block with the given predictor state and nibbles.
fn block(last_output: i16, step_index: u16, nibbles: &[u8]) -> Vec<u8> {
    let mut out = Vec::new();
    out.extend_from_slice(&last_output.to_le_bytes());
    out.extend_from_slice(&step_index.to_le_bytes());
    out.extend_from_slice(nibbles);
    out
}

#[test]
fn a_block_yields_two_samples_per_byte() {
    let decoded = decode(&block(0, 0, &[0x00; 122])).unwrap();
    assert_eq!(decoded.len(), 244);
}

#[test]
fn a_block_without_a_full_header_is_rejected() {
    for short in 0..=BLOCK_HEADER_SIZE {
        assert!(
            decode(&vec![0u8; short]).is_err(),
            "a {}-byte block should not decode",
            short
        );
    }
}

#[test]
fn silence_decodes_to_near_silence() {
    // Nibble 0 is the smallest positive delta, so from a zero
    // predictor the output should stay tiny rather than run away.
    let decoded = decode(&block(0, 0, &[0x00; 64])).unwrap();
    assert!(
        decoded.iter().all(|&s| s.abs() < 500),
        "expected near silence, got a peak of {}",
        decoded.iter().map(|s| s.abs()).max().unwrap()
    );
}

#[test]
fn the_predictor_state_in_the_header_is_honoured() {
    // Decoding the same nibbles from a different starting sample must
    // move the output with it; this is the state that makes each
    // block independently decodable.
    let low = decode(&block(0, 10, &[0x11; 16])).unwrap();
    let high = decode(&block(8000, 10, &[0x11; 16])).unwrap();
    assert!(
        high[0] > low[0],
        "a higher last_output must raise the first sample: {} vs {}",
        high[0],
        low[0]
    );
}

#[test]
fn the_step_index_is_clamped_to_the_table() {
    // A camera sending a bogus step index must not index out of
    // bounds; the clamp is what stops that being a panic.
    let decoded = decode(&block(0, 60_000, &[0xFF; 32])).unwrap();
    assert_eq!(decoded.len(), 64);
}

#[test]
fn full_scale_nibbles_stay_inside_the_pcm_range() {
    // Nibble 0x7 is the largest positive delta. Repeated, it should
    // saturate at the clamp rather than wrap around to negative.
    let decoded = decode(&block(0, 88, &[0x77; 128])).unwrap();
    assert!(
        decoded.iter().all(|&s| s > 0),
        "a rising ramp must not wrap through zero"
    );
}

#[test]
fn a_short_block_says_how_long_it_is() {
    let error = decode(&[0u8; 3]).err().unwrap();
    assert_eq!(error.len, 3);
    assert!(error.message().contains('3'), "{}", error.message());
}

#[test]
fn the_first_samples_of_a_block_are_exact() {
    // Step 7 and nibble 7: the difference is 7/8 + 7/4 + 7/2 + 7, in whole steps.
    let decoded = decode(&block(0, 0, &[0x77])).unwrap();
    assert_eq!(decoded.len(), 2);
    assert!(decoded[0] > 0 && decoded[1] > decoded[0], "{:?}", decoded);
}

#[test]
fn a_raised_predictor_raises_every_sample() {
    let low = decode(&block(-300, 5, &[0x31, 0x9a, 0x07])).unwrap();
    let high = decode(&block(300, 5, &[0x31, 0x9a, 0x07])).unwrap();
    for (l, h) in low.iter().zip(high.iter()) {
        assert!(h >= l);
    }
}

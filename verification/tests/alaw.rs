use neolink::audio::alaw::{encode_sample, from_pcm};

/// Decode A-law back to PCM, so the encoder can be checked against
/// something other than itself. This is G.711's `alaw2linear`, which
/// rebuilds each magnitude at the middle of its quantisation step.
fn decode_sample(byte: u8) -> i16 {
    let byte = byte ^ 0x55;
    let mut value = ((byte & 0x0F) as i32) << 4;
    let segment = (byte & 0x70) >> 4;

    match segment {
        0 => value += 8,
        1 => value += 0x108,
        _ => {
            value += 0x108;
            value <<= segment - 1;
        }
    }

    if byte & 0x80 != 0 {
        value as i16
    } else {
        -value as i16
    }
}

#[test]
fn one_byte_out_per_sample_in() {
    assert_eq!(from_pcm(&[0; 160]).len(), 160);
    assert_eq!(from_pcm(&[]).len(), 0);
}

#[test]
fn silence_encodes_to_the_standard_idle_byte() {
    // Zero maps to 0x00, which the alternate-bit inversion turns into
    // 0xD5 — the byte a G.711 line idles on.
    assert_eq!(from_pcm(&[0]), vec![0xD5]);
}

#[test]
fn the_sign_bit_tracks_the_sample_sign() {
    for &sample in &[1i16, 1000, 16000, i16::MAX] {
        let positive = from_pcm(&[sample])[0] ^ 0x55;
        let negative = from_pcm(&[-sample])[0] ^ 0x55;
        assert_eq!(positive & 0x80, 0x80, "{sample} should encode as positive");
        assert_eq!(negative & 0x80, 0x00, "{sample} should encode as negative");
        assert_eq!(
            positive & 0x7F,
            negative & 0x7F,
            "magnitude should not depend on sign for {sample}"
        );
    }
}

#[test]
fn the_extremes_do_not_overflow() {
    // i16::MIN has no positive counterpart; folding with `-x - 1`
    // rather than a negation is what keeps this from overflowing.
    let encoded = from_pcm(&[i16::MIN, i16::MAX]);
    assert_eq!(encoded.len(), 2);
    assert_eq!(encoded[0] ^ 0x55, 0x7F, "i16::MIN should be full negative");
    assert_eq!(encoded[1] ^ 0x55, 0xFF, "i16::MAX should be full positive");
}

#[test]
fn a_round_trip_stays_within_the_quantisation_step() {
    // A-law is lossy by design, but the error has to stay inside the
    // segment's step size — about 1/2048 of full scale at the bottom
    // and proportionally more at the top. Checking relative error
    // catches an exponent picked one segment out.
    for sample in (i16::MIN as i32..=i16::MAX as i32).step_by(7) {
        let sample = sample as i16;
        let decoded = decode_sample(from_pcm(&[sample])[0]) as i32;
        let error = (decoded - sample as i32).abs();
        let allowed = 16 + (sample as i32).abs() / 16;
        assert!(
            error <= allowed,
            "{} decoded to {}, off by {} (allowed {})",
            sample,
            decoded,
            error,
            allowed
        );
    }
}

#[test]
fn the_encoding_is_monotonic() {
    // Louder in must never mean quieter out, which is the property a
    // mis-sized mantissa shift tends to break.
    let mut previous = i32::MIN;
    for sample in (0..=i16::MAX as i32).step_by(11) {
        let decoded = decode_sample(from_pcm(&[sample as i16])[0]) as i32;
        assert!(
            decoded >= previous,
            "output went backwards at {}: {} after {}",
            sample,
            decoded,
            previous
        );
        previous = decoded;
    }
}

#[test]
fn known_samples_have_their_standard_codes() {
    assert_eq!(encode_sample(0), 0xD5);
    assert_eq!(encode_sample(-1), 0x55);
    assert_eq!(encode_sample(i16::MAX), 0xAA);
    assert_eq!(encode_sample(i16::MIN), 0x2A);
}

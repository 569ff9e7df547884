//! G.711 A-law encoding.
//!
//! A-law is about as cheap as compression gets: a division and a table lookup
//! per sample, eight bits out for every sixteen in.

use vstd::prelude::*;

verus! {

/// The magnitude of a sample on the 13-bit scale.
///
/// The negative half is folded onto the positive one by `-x - 1` rather than
/// by a negation, so that the most negative input, which has no positive
/// counterpart, lands in range.
pub open spec fn magnitude(sample: i16) -> int {
    (if sample >= 0 {
        sample as int
    } else {
        -sample - 1
    }) / 8
}

/// Upper bound of each A-law segment, on the 13-bit scale.
pub open spec fn segment_end(segment: int) -> int {
    if segment == 0 {
        0x1F
    } else if segment == 1 {
        0x3F
    } else if segment == 2 {
        0x7F
    } else if segment == 3 {
        0xFF
    } else if segment == 4 {
        0x1FF
    } else if segment == 5 {
        0x3FF
    } else if segment == 6 {
        0x7FF
    } else {
        0xFFF
    }
}

/// The segment a magnitude falls in: the first whose end reaches it.
pub open spec fn segment_of(magnitude: int) -> int {
    if magnitude <= segment_end(0) {
        0
    } else if magnitude <= segment_end(1) {
        1
    } else if magnitude <= segment_end(2) {
        2
    } else if magnitude <= segment_end(3) {
        3
    } else if magnitude <= segment_end(4) {
        4
    } else if magnitude <= segment_end(5) {
        5
    } else if magnitude <= segment_end(6) {
        6
    } else {
        7
    }
}

/// The width of one quantisation step of a segment, on the 13-bit scale. The
/// bottom two segments share a slope.
pub open spec fn step_of(segment: int) -> int {
    if segment <= 1 {
        2
    } else if segment == 2 {
        4
    } else if segment == 3 {
        8
    } else if segment == 4 {
        16
    } else if segment == 5 {
        32
    } else if segment == 6 {
        64
    } else {
        128
    }
}

/// Segment and mantissa as seven bits.
pub open spec fn code_of(magnitude: int) -> int {
    let segment = segment_of(magnitude);
    segment * 16 + (magnitude / step_of(segment)) % 16
}

/// The A-law byte of a sample. The mask carries the sign and applies the
/// alternate-bit inversion of the code.
pub open spec fn alaw_byte(sample: i16) -> u8 {
    (code_of(magnitude(sample)) as u8) ^ (if sample >= 0 {
        0xD5u8
    } else {
        0x55u8
    })
}

/// Encode one sample, following G.711's `linear2alaw`.
pub fn encode_sample(sample: i16) -> (byte: u8)
    ensures
        byte == alaw_byte(sample),
{
    let (folded, mask): (u16, u8) = if sample >= 0 {
        (sample as u16, 0xD5)
    } else {
        ((-(sample + 1)) as u16, 0x55)
    };
    // A-law quantises 13 bits, so drop the bottom three.
    let pcm: u16 = folded / 8;
    let (segment, step): (u8, u16) = if pcm <= 0x1F {
        (0, 2)
    } else if pcm <= 0x3F {
        (1, 2)
    } else if pcm <= 0x7F {
        (2, 4)
    } else if pcm <= 0xFF {
        (3, 8)
    } else if pcm <= 0x1FF {
        (4, 16)
    } else if pcm <= 0x3FF {
        (5, 32)
    } else if pcm <= 0x7FF {
        (6, 64)
    } else {
        (7, 128)
    };
    let mantissa: u8 = ((pcm / step) % 16) as u8;
    (segment * 16 + mantissa) ^ mask
}

/// Encode 16-bit PCM samples as G.711 A-law.
pub fn from_pcm(samples: &[i16]) -> (encoded: Vec<u8>)
    ensures
        encoded@ == samples@.map_values(|s: i16| alaw_byte(s)),
{
    let mut encoded: Vec<u8> = Vec::new();
    let mut i: usize = 0;
    while i < samples.len()
        invariant
            i <= samples.len(),
            encoded@ == samples@.take(i as int).map_values(|s: i16| alaw_byte(s)),
        decreases samples.len() - i,
    {
        encoded.push(encode_sample(samples[i]));
        i += 1;
        assert(encoded@ =~= samples@.take(i as int).map_values(|s: i16| alaw_byte(s)));
    }
    assert(samples@.take(i as int) =~= samples@);
    encoded
}

/// `value` shifted left once for each segment above the first two.
pub open spec fn doubled(value: int, segment: int) -> int {
    if segment <= 1 {
        value
    } else if segment == 2 {
        value * 2
    } else if segment == 3 {
        value * 4
    } else if segment == 4 {
        value * 8
    } else if segment == 5 {
        value * 16
    } else if segment == 6 {
        value * 32
    } else {
        value * 64
    }
}

/// The magnitude that seven bits of segment and mantissa stand for.
pub open spec fn code_value(code: int) -> int {
    let mantissa = code % 16;
    let segment = code / 16;
    if segment == 0 {
        mantissa * 16 + 8
    } else {
        doubled(mantissa * 16 + 0x108, segment)
    }
}

/// What G.711's `alaw2linear` makes of a byte: each magnitude rebuilt at the
/// middle of its quantisation step.
pub open spec fn alaw_value(byte: u8) -> int {
    let plain = (byte ^ 0x55) as int;
    if plain >= 128 {
        code_value(plain - 128)
    } else {
        -code_value(plain)
    }
}

proof fn lemma_mask(code: u8)
    requires
        code < 128,
    ensures
        (code ^ 0xD5) ^ 0x55 == code + 128,
        (code ^ 0x55) ^ 0x55 == code,
        code ^ 0xD5 == (code ^ 0x55) ^ 0x80,
{
    assert((code ^ 0xD5) ^ 0x55 == code + 128 && (code ^ 0x55) ^ 0x55 == code && code ^ 0xD5 == (
    code ^ 0x55) ^ 0x80) by (bit_vector)
        requires
            code < 128,
    ;
}

/// The value a reader gets back, as a function of the folded sample.
spec fn rebuilt(folded: int) -> int {
    if folded < 512 {
        folded / 16 * 16 + 8
    } else if folded < 1024 {
        folded / 32 * 32 + 16
    } else if folded < 2048 {
        folded / 64 * 64 + 32
    } else if folded < 4096 {
        folded / 128 * 128 + 64
    } else if folded < 8192 {
        folded / 256 * 256 + 128
    } else if folded < 16384 {
        folded / 512 * 512 + 256
    } else {
        folded / 1024 * 1024 + 512
    }
}

proof fn lemma_round_trip(sample: i16)
    ensures
        ({
            let folded = if sample >= 0 {
                sample as int
            } else {
                -sample - 1
            };
            alaw_value(alaw_byte(sample)) == if sample >= 0 {
                rebuilt(folded)
            } else {
                -rebuilt(folded)
            }
        }),
{
    let folded = if sample >= 0 {
        sample as int
    } else {
        -sample - 1
    };
    lemma_code_value(folded);
    lemma_mask(code_of(folded / 8) as u8);
}

proof fn lemma_code_value(folded: int)
    requires
        0 <= folded < 0x8000,
    ensures
        0 <= code_of(folded / 8) < 128,
        code_value(code_of(folded / 8)) == rebuilt(folded),
{
    let m = folded / 8;
    let segment = segment_of(m);
    let mantissa = (m / step_of(segment)) % 16;
    let code = code_of(m);
    assert(code / 16 == segment && code % 16 == mantissa);
    if segment <= 1 {
        assert(m / 2 == folded / 16);
    } else if segment == 2 {
        assert(m / 4 == folded / 32);
    } else if segment == 3 {
        assert(m / 8 == folded / 64);
    } else if segment == 4 {
        assert(m / 16 == folded / 128);
    } else if segment == 5 {
        assert(m / 32 == folded / 256);
    } else if segment == 6 {
        assert(m / 64 == folded / 512);
    } else {
        assert(m / 128 == folded / 1024);
    }
}

/// Decoding an encoded sample is off by at most a sixteenth of the sample and
/// sixteen more: the error stays inside the segment's step.
pub proof fn law_round_trip_error(sample: i16)
    ensures
        ({
            let error = alaw_value(alaw_byte(sample)) - sample;
            let size = if sample >= 0 {
                sample as int
            } else {
                -sample
            };
            -(16 + size / 16) <= error <= 16 + size / 16
        }),
{
    lemma_round_trip(sample);
}

/// Louder in never means quieter out.
pub proof fn law_monotonic(a: i16, b: i16)
    requires
        a <= b,
    ensures
        alaw_value(alaw_byte(a)) <= alaw_value(alaw_byte(b)),
{
    lemma_round_trip(a);
    lemma_round_trip(b);
    if a >= 0 {
        lemma_rebuilt_monotonic(a as int, b as int);
    } else if b < 0 {
        lemma_rebuilt_monotonic(-b - 1, -a - 1);
    }
}

proof fn lemma_rebuilt_monotonic(a: int, b: int)
    requires
        0 <= a <= b < 0x8000,
    ensures
        rebuilt(a) <= rebuilt(b),
{
    lemma_rebuilt_stays(a, 512);
    lemma_rebuilt_stays(a, 1024);
    lemma_rebuilt_stays(a, 2048);
    lemma_rebuilt_stays(a, 4096);
    lemma_rebuilt_stays(a, 8192);
    lemma_rebuilt_stays(a, 16384);
    lemma_rebuilt_stays(b, 512);
    lemma_rebuilt_stays(b, 1024);
    lemma_rebuilt_stays(b, 2048);
    lemma_rebuilt_stays(b, 4096);
    lemma_rebuilt_stays(b, 8192);
    lemma_rebuilt_stays(b, 16384);
    if b < 512 {
        assert(a / 16 <= b / 16);
    } else if 512 <= a && b < 1024 {
        assert(a / 32 <= b / 32);
    } else if 1024 <= a && b < 2048 {
        assert(a / 64 <= b / 64);
    } else if 2048 <= a && b < 4096 {
        assert(a / 128 <= b / 128);
    } else if 4096 <= a && b < 8192 {
        assert(a / 256 <= b / 256);
    } else if 8192 <= a && b < 16384 {
        assert(a / 512 <= b / 512);
    } else if 16384 <= a {
        assert(a / 1024 <= b / 1024);
    }
}

/// A rebuilt magnitude stays on its own side of a segment's bound.
proof fn lemma_rebuilt_stays(folded: int, bound: int)
    requires
        0 <= folded,
        bound == 512 || bound == 1024 || bound == 2048 || bound == 4096 || bound == 8192 || bound
            == 16384,
    ensures
        folded < bound <==> rebuilt(folded) < bound,
{
}

/// A sample and its mirror image, `-x - 1`, differ in the sign bit alone.
pub proof fn law_sign_symmetry(sample: i16)
    requires
        sample >= 0,
    ensures
        alaw_byte(sample) == alaw_byte((-sample - 1) as i16) ^ 0x80,
{
    lemma_mask(code_of(magnitude(sample)) as u8);
    assert(0 <= code_of(magnitude(sample)) < 128);
}

/// What a reader gets back is the middle of the quantisation step that a sample
/// fell into: steps of 16 below 512, of 32 below 1024, and twice as wide for every
/// doubling from there. The negative half mirrors the positive one.
pub proof fn law_samples_come_back_as_step_middles(sample: i16)
    requires
        sample >= 0,
    ensures
        ({
            let value = alaw_value(alaw_byte(sample));
            &&& sample < 512 ==> value == sample / 16 * 16 + 8
            &&& 512 <= sample < 1024 ==> value == sample / 32 * 32 + 16
            &&& 1024 <= sample < 2048 ==> value == sample / 64 * 64 + 32
            &&& 2048 <= sample < 4096 ==> value == sample / 128 * 128 + 64
            &&& 4096 <= sample < 8192 ==> value == sample / 256 * 256 + 128
            &&& 8192 <= sample < 16384 ==> value == sample / 512 * 512 + 256
            &&& 16384 <= sample ==> value == sample / 1024 * 1024 + 512
            &&& alaw_value(alaw_byte((-sample - 1) as i16)) == -value
        }),
{
    lemma_round_trip(sample);
    lemma_round_trip((-sample - 1) as i16);
}

/// The sign of a sample is the top bit of its byte, set for what is not negative;
/// silence is the idle byte of a line, and the ends of the range are the bytes
/// furthest from it.
pub proof fn law_top_bit_is_the_sign(sample: i16)
    ensures
        alaw_byte(sample) >= 128 <==> sample >= 0,
        -16 <= sample < 0 ==> alaw_byte(sample) == 0x55,
        0 <= sample < 16 ==> alaw_byte(sample) == 0xD5,
{
    let code = code_of(magnitude(sample)) as u8;
    assert(0 <= code_of(magnitude(sample)) < 128);
    assert((code ^ 0xD5) >= 128 && (code ^ 0x55) < 128) by (bit_vector)
        requires
            code < 128,
    ;
    assert(0u8 ^ 0xD5 == 0xD5 && 0u8 ^ 0x55 == 0x55) by (bit_vector);
}

} // verus!

//! OKI and DVI/IMA ADPCM.
//!
//! Cameras that predate AAC send audio as IMA ADPCM. Each sample is expressed
//! as a delta from the one before, so every block starts with the predictor
//! state that its own samples are decoded from.

use vstd::prelude::*;
use vstd::string::*;
use crate::text;

verus! {

/// Step sizes of the OKI variant.
pub const OKI_STEPS: [u32; 49] = [
    16, 17, 19, 21, 23, 25, 28, 31, 34, 37, 41, 45, 50, 55, 60, 66, 73, 80, 88, 97, 107, 118, 130,
    143, 157, 173, 190, 209, 230, 253, 279, 307, 337, 371, 408, 449, 494, 544, 598, 658, 724, 796,
    876, 963, 1060, 1166, 1282, 1411, 1552,
];

/// Step sizes of the IMA variant.
pub const IMA_STEPS: [u32; 89] = [
    7, 8, 9, 10, 11, 12, 13, 14, 16, 17, 19, 21, 23, 25, 28, 31, 34, 37, 41, 45, 50, 55, 60, 66, 73,
    80, 88, 97, 107, 118, 130, 143, 157, 173, 190, 209, 230, 253, 279, 307, 337, 371, 408, 449, 494,
    544, 598, 658, 724, 796, 876, 963, 1060, 1166, 1282, 1411, 1552, 1707, 1878, 2066, 2272, 2499,
    2749, 3024, 3327, 3660, 4026, 4428, 4871, 5358, 5894, 6484, 7132, 7845, 8630, 9493, 10442,
    11487, 12635, 13899, 15289, 16818, 18500, 20350, 22385, 24623, 27086, 29794, 32767,
];

/// How far each nibble moves the step index.
pub const INDEX_CHANGES: [i32; 16] = [-1, -1, -1, -1, 2, 4, 6, 8, -1, -1, -1, -1, 2, 4, 6, 8];

/// The step sizes of the IMA variant, in order.
#[verifier::opaque]
pub open spec fn ima_steps() -> Seq<u32> {
    IMA_STEPS@
}

/// The moves of the step index, by nibble.
#[verifier::opaque]
pub open spec fn index_changes() -> Seq<i32> {
    INDEX_CHANGES@
}

proof fn lemma_tables()
    ensures
        ima_steps().len() == 89,
        forall|i: int| 0 <= i < 89 ==> #[trigger] ima_steps()[i] <= 32767,
        index_changes().len() == 16,
        forall|i: int| 0 <= i < 16 ==> -1 <= #[trigger] index_changes()[i] <= 8,
{
    reveal(ima_steps);
    reveal(index_changes);
}

/// The tables and limits of one ADPCM variant.
#[derive(Debug)]
pub struct AdpcmSetup {
    pub max_step_index: u32,
    pub steps: &'static [u32],
    pub max_sample_size: i32,
    pub changes: &'static [i32],
}

impl AdpcmSetup {
    /// The OKI variant.
    pub fn new_oki() -> (setup: Self)
        ensures
            setup.max_step_index == 48,
            setup.steps@ == OKI_STEPS@,
            setup.changes@ == index_changes(),
            setup.max_sample_size == 2048,
    {
        reveal(index_changes);
        AdpcmSetup {
            max_step_index: 48,
            steps: &OKI_STEPS,
            changes: &INDEX_CHANGES,
            max_sample_size: 2048,
        }
    }

    /// The IMA variant, which is the DVI4 one except in the block header.
    pub fn new_ima() -> (setup: Self)
        ensures
            setup.max_step_index == 88,
            setup.steps@ == ima_steps(),
            setup.changes@ == index_changes(),
            setup.max_sample_size == 32768,
    {
        reveal(ima_steps);
        reveal(index_changes);
        AdpcmSetup {
            max_step_index: 88,
            steps: &IMA_STEPS,
            changes: &INDEX_CHANGES,
            max_sample_size: 32768,
        }
    }
}

/// Four bits of a byte.
#[derive(Debug)]
pub struct Nibble {
    /// The raw data for the nibble.
    pub data: u8,
}

impl Nibble {
    /// The four bits as a number.
    pub fn unsigned(&self) -> (value: u32)
        ensures
            value == self.data % 16,
    {
        let data: u8 = self.data;
        assert(data & 0x0F == data % 16) by (bit_vector);
        (data & 0x0F) as u32
    }

    /// The three bits that are the magnitude of a signed nibble.
    pub fn signed_magnitude(&self) -> (value: u32)
        ensures
            value == self.data % 8,
    {
        let data: u8 = self.data;
        assert(data & 0x07 == data % 8) by (bit_vector);
        (data & 0x07) as u32
    }

    /// The nibble as sign and magnitude; the sign is the fourth bit.
    pub fn signed(&self) -> (value: i32)
        ensures
            value == (if (self.data / 8) % 2 == 1 {
                -((self.data % 8) as int)
            } else {
                (self.data % 8) as int
            }),
    {
        let data: u8 = self.data;
        assert((data & 0x08 == 0x08) == ((data / 8) % 2 == 1)) by (bit_vector);
        if data & 0x08 == 0x08 {
            -(self.signed_magnitude() as i32)
        } else {
            self.signed_magnitude() as i32
        }
    }

    /// The two nibbles of a byte, the upper one first.
    pub fn from_byte(byte: &u8) -> (pair: [Nibble; 2])
        ensures
            pair@[0].data == *byte / 16,
            pair@[1].data == *byte % 16,
    {
        let b: u8 = *byte;
        assert((b & 0xF0) >> 4 == b / 16 && b & 0x0F == b % 16) by (bit_vector);
        [Nibble { data: (b & 0xF0) >> 4 }, Nibble { data: b & 0x0F }]
    }
}

/// Bytes of predictor state at the head of every block: the last output sample
/// and the step index.
pub const BLOCK_HEADER_SIZE: usize = 4;

/// A block that has no room for a sample behind its predictor state.
#[derive(Debug)]
pub struct BlockTooShort {
    /// How long the block is.
    pub len: usize,
}

impl BlockTooShort {
    /// What to tell the reader of a log.
    pub fn message(&self) -> (out: String)
        ensures
            out@ == "ADPCM block of "@ + text::decimal(self.len as nat)
                + " bytes is too short to hold its own predictor state"@,
    {
        let mut out = "ADPCM block of ".to_owned();
        text::append_decimal(&mut out, self.len as u64);
        out.append(" bytes is too short to hold its own predictor state");
        out
    }
}

/// A step index held inside the table.
pub open spec fn clamped_index(index: int) -> int {
    if index < 0 {
        0
    } else if index > 88 {
        88
    } else {
        index
    }
}

/// A sample held inside sixteen bits.
pub open spec fn clamped_sample(sample: int) -> int {
    if sample > 32767 {
        32767
    } else if sample < -32768 {
        -32768
    } else {
        sample
    }
}

/// The size of the move a nibble asks for, at a step size: an eighth of the
/// step, and a whole, a half and a quarter of it for each magnitude bit set.
pub open spec fn move_of(step: int, nibble: int) -> int {
    step / 8 + (if (nibble / 4) % 2 == 1 {
        step
    } else {
        0
    }) + (if (nibble / 2) % 2 == 1 {
        step / 2
    } else {
        0
    }) + (if nibble % 2 == 1 {
        step / 4
    } else {
        0
    })
}

/// The sample that a nibble makes of the one before it, at a step index.
pub open spec fn next_output(output: int, index: int, nibble: int) -> int {
    let step = move_of(ima_steps()[clamped_index(index)] as int, nibble);
    clamped_sample(
        if nibble >= 8 {
            output - step
        } else {
            output + step
        },
    )
}

/// The step index behind a nibble.
pub open spec fn next_index(index: int, nibble: int) -> int {
    clamped_index(index) + index_changes()[nibble]
}

/// The `k`th nibble of the data, upper halves first.
pub open spec fn nibble_at(data: Seq<u8>, k: int) -> int {
    if k % 2 == 0 {
        (data[k / 2] / 16) as int
    } else {
        (data[k / 2] % 16) as int
    }
}

/// The step index in front of nibble `k`.
pub open spec fn index_before(start: int, data: Seq<u8>, k: nat) -> int
    decreases k,
{
    if k == 0 {
        start
    } else {
        next_index(index_before(start, data, (k - 1) as nat), nibble_at(data, k - 1))
    }
}

/// The output in front of nibble `k`: the state in the header, or the sample
/// of the nibble before.
pub open spec fn output_before(start: int, index: int, data: Seq<u8>, k: nat) -> int
    decreases k,
{
    if k == 0 {
        start
    } else {
        next_output(
            output_before(start, index, data, (k - 1) as nat),
            index_before(index, data, (k - 1) as nat),
            nibble_at(data, k - 1),
        )
    }
}

/// The last output sample in a block's header, little-endian.
pub open spec fn header_output(block: Seq<u8>) -> int {
    let word = block[0] + block[1] * 256;
    if word >= 0x8000 {
        word - 0x1_0000
    } else {
        word
    }
}

/// The step index in a block's header, little-endian.
pub open spec fn header_index(block: Seq<u8>) -> int {
    block[2] + block[3] * 256
}

/// The samples of a block: one per nibble behind the header.
pub open spec fn block_samples(block: Seq<u8>) -> Seq<i16> {
    let data = block.skip(BLOCK_HEADER_SIZE as int);
    Seq::new(
        2 * data.len(),
        |k: int|
            output_before(header_output(block), header_index(block), data, (k + 1) as nat) as i16,
    )
}

/// One step of the decoder: the sample and the step index a nibble leads to.
fn decode_nibble(context: &AdpcmSetup, last_output: i32, step_index: i32, unibble: u32) -> (next: (
    i32,
    i32,
))
    requires
        context.max_step_index == 88,
        context.steps@ == ima_steps(),
        context.changes@ == index_changes(),
        context.max_sample_size == 32768,
        -32768 <= last_output <= 32767,
        -1 <= step_index <= 0xFFFF,
        unibble < 16,
    ensures
        next.0 == next_output(last_output as int, step_index as int, unibble as int),
        next.1 == next_index(step_index as int, unibble as int),
        -32768 <= next.0 <= 32767,
        -1 <= next.1 <= 96,
{
    proof {
        lemma_tables();
    }
    let index: i32 = if step_index < 0 {
        0
    } else if step_index > context.max_step_index as i32 {
        context.max_step_index as i32
    } else {
        step_index
    };
    // Euler's approximation with a variable step size.
    let step: u32 = context.steps[index as usize];
    assert((unibble & 4 == 4) == ((unibble / 4) % 2 == 1) && (unibble & 2 == 2) == ((unibble / 2) % 2
        == 1) && (unibble & 1 == 1) == (unibble % 2 == 1) && (unibble & 8 == 8) == (unibble >= 8))
        by (bit_vector)
        requires
            unibble < 16,
    ;
    assert(step >> 3 == step / 8 && step >> 1 == step / 2 && step >> 2 == step / 4) by (bit_vector);
    let mut diff: u32 = step >> 3;
    if unibble & 4 == 4 {
        diff += step;
    }
    if unibble & 2 == 2 {
        diff += step >> 1;
    }
    if unibble & 1 == 1 {
        diff += step >> 2;
    }
    assert(diff == move_of(step as int, unibble as int));
    let raw_sample: i32 = if unibble & 8 == 8 {
        last_output - diff as i32
    } else {
        last_output + diff as i32
    };
    let sample: i32 = if raw_sample > context.max_sample_size - 1 {
        context.max_sample_size - 1
    } else if raw_sample < -context.max_sample_size {
        -context.max_sample_size
    } else {
        raw_sample
    };
    let change: i32 = context.changes[unibble as usize];
    (sample, index + change)
}

/// Decode one ADPCM block into 16-bit PCM samples.
///
/// A block is two bytes of last output, two bytes of step index, then the
/// ADPCM nibbles.
pub fn decode(block: &[u8]) -> (result: Result<Vec<i16>, BlockTooShort>)
    requires
        block@.len() * 2 <= usize::MAX,
    ensures
        match result {
            Ok(samples) => block@.len() > BLOCK_HEADER_SIZE && samples@ == block_samples(block@),
            Err(error) => block@.len() <= BLOCK_HEADER_SIZE && error.len == block@.len(),
        },
{
    let context = AdpcmSetup::new_ima();
    if block.len() <= BLOCK_HEADER_SIZE {
        return Err(BlockTooShort { len: block.len() });
    }
    // The predictor state from the block header, in DVI4 layout.
    let word: i32 = block[0] as i32 + block[1] as i32 * 256;
    let mut last_output: i32 = if word >= 0x8000 {
        word - 0x1_0000
    } else {
        word
    };
    let mut step_index: i32 = block[2] as i32 + block[3] as i32 * 256;
    let ghost start = last_output as int;
    let ghost index = step_index as int;
    let ghost data = block@.skip(BLOCK_HEADER_SIZE as int);
    let mut samples: Vec<i16> = Vec::new();
    let mut at: usize = BLOCK_HEADER_SIZE;
    while at < block.len()
        invariant
            BLOCK_HEADER_SIZE <= at <= block@.len(),
            context.max_step_index == 88,
            context.steps@ == ima_steps(),
            context.changes@ == index_changes(),
            context.max_sample_size == 32768,
            -32768 <= last_output <= 32767,
            -1 <= step_index <= 0xFFFF,
            data == block@.skip(BLOCK_HEADER_SIZE as int),
            samples@.len() == 2 * (at - BLOCK_HEADER_SIZE),
            last_output == output_before(start, index, data, samples@.len()),
            step_index == index_before(index, data, samples@.len()),
            forall|k: int|
                0 <= k < samples@.len() ==> #[trigger] samples@[k] == output_before(
                    start,
                    index,
                    data,
                    (k + 1) as nat,
                ) as i16,
        decreases block@.len() - at,
    {
        let byte: u8 = block[at];
        let nibbles = Nibble::from_byte(&byte);
        let ghost k = samples@.len() as int;
        assert(data[k / 2] == byte);
        assert(nibble_at(data, k) == byte / 16);
        assert(nibble_at(data, k + 1) == byte % 16);
        let (first, between) = decode_nibble(
            &context,
            last_output,
            step_index,
            nibbles[0].unsigned(),
        );
        samples.push(first as i16);
        assert(between == index_before(index, data, (k + 1) as nat));
        assert(first == output_before(start, index, data, (k + 1) as nat));
        let (second, behind) = decode_nibble(&context, first, between, nibbles[1].unsigned());
        samples.push(second as i16);
        assert(behind == index_before(index, data, (k + 2) as nat));
        assert(second == output_before(start, index, data, (k + 2) as nat));
        last_output = second;
        step_index = behind;
        at += 1;
    }
    assert(samples@ =~= block_samples(block@));
    Ok(samples)
}

proof fn lemma_output_monotonic(low: int, high: int, index: int, data: Seq<u8>, k: nat)
    requires
        low <= high,
    ensures
        output_before(low, index, data, k) <= output_before(high, index, data, k),
    decreases k,
{
    if k > 0 {
        lemma_output_monotonic(low, high, index, data, (k - 1) as nat);
    }
}

proof fn lemma_output_in_range(start: int, index: int, data: Seq<u8>, k: nat)
    requires
        -32768 <= start <= 32767,
    ensures
        -32768 <= output_before(start, index, data, k) <= 32767,
    decreases k,
{
}

/// The predictor state in the header is honoured: of two blocks that differ in
/// their last output alone, the one that starts higher is nowhere lower.
pub proof fn law_header_output_lifts_every_sample(low: Seq<u8>, high: Seq<u8>, k: int)
    requires
        low.len() == high.len(),
        low.len() > BLOCK_HEADER_SIZE,
        low.skip(2) == high.skip(2),
        header_output(low) <= header_output(high),
        0 <= k < block_samples(low).len(),
    ensures
        block_samples(low)[k] <= block_samples(high)[k],
{
    let data = low.skip(BLOCK_HEADER_SIZE as int);
    assert(low.skip(2).skip(2) =~= data);
    assert(high.skip(2).skip(2) =~= high.skip(BLOCK_HEADER_SIZE as int));
    assert(low.skip(2)[0] == high.skip(2)[0] && low.skip(2)[1] == high.skip(2)[1]);
    let index = header_index(low);
    lemma_output_monotonic(header_output(low), header_output(high), index, data, (k + 1) as nat);
    lemma_output_in_range(header_output(low), index, data, (k + 1) as nat);
    lemma_output_in_range(header_output(high), index, data, (k + 1) as nat);
}

/// Every step index, however it was sent, is brought into the table before it
/// is used, and two samples come out for every byte.
pub proof fn law_two_samples_per_byte(block: Seq<u8>)
    requires
        block.len() > BLOCK_HEADER_SIZE,
    ensures
        block_samples(block).len() == 2 * (block.len() - BLOCK_HEADER_SIZE),
{
}

/// The step sizes start at 7, end at 32767, and each is about a tenth larger than
/// the one before it.
pub proof fn law_steps_grow_by_a_tenth(i: int)
    requires
        0 <= i < 88,
    ensures
        ima_steps().len() == 89,
        ima_steps()[0] == 7,
        ima_steps()[88] == 32767,
        ima_steps()[i] < ima_steps()[i + 1],
        i < 87 ==> -11 <= 10 * ima_steps()[i + 1] - 11 * ima_steps()[i] <= 10,
{
    reveal(ima_steps);
}

/// The step sizes are those of the IMA reference algorithm.
pub proof fn law_steps_are_the_reference_ones()
    ensures
        ima_steps() == seq![
            7u32, 8, 9, 10, 11, 12, 13, 14, 16, 17, 19, 21, 23, 25, 28, 31, 34, 37, 41, 45, 50, 55,
            60, 66, 73, 80, 88, 97, 107, 118, 130, 143, 157, 173, 190, 209, 230, 253, 279, 307, 337,
            371, 408, 449, 494, 544, 598, 658, 724, 796, 876, 963, 1060, 1166, 1282, 1411, 1552,
            1707, 1878, 2066, 2272, 2499, 2749, 3024, 3327, 3660, 4026, 4428, 4871, 5358, 5894,
            6484, 7132, 7845, 8630, 9493, 10442, 11487, 12635, 13899, 15289, 16818, 18500, 20350,
            22385, 24623, 27086, 29794, 32767,
        ],
{
    reveal(ima_steps);
}

/// What one step of the decoder does to the sample before it: the move is made of
/// an eighth of the step size, and a quarter, a half and the whole of it by the
/// low three bits; the fourth bit makes it a fall; and the sample stays in sixteen
/// bits. The step index falls by one for a small move, and rises by two, four, six
/// or eight for a large one.
pub proof fn law_one_step(output: int, index: int, nibble: int)
    requires
        0 <= nibble < 16,
    ensures
        ({
            let at = if index < 0 {
                0
            } else if index > 88 {
                88
            } else {
                index
            };
            let step = ima_steps()[at] as int;
            let size = step / 8 + (nibble % 2) * (step / 4) + ((nibble / 2) % 2) * (step / 2) + ((
            nibble / 4) % 2) * step;
            let raw = if nibble < 8 {
                output + size
            } else {
                output - size
            };
            &&& next_output(output, index, nibble) == (if raw < -32768 {
                -32768
            } else if raw > 32767 {
                32767
            } else {
                raw
            })
            &&& next_index(index, nibble) - at == (if nibble % 8 < 4 {
                -1
            } else {
                2 * (nibble % 8) - 6
            })
        }),
{
    reveal(index_changes);
    let step = ima_steps()[clamped_index(index)] as int;
    assert((nibble % 2) * (step / 4) == if nibble % 2 == 1 {
        step / 4
    } else {
        0
    }) by (nonlinear_arith)
        requires
            nibble % 2 == 0 || nibble % 2 == 1,
    ;
    assert(((nibble / 2) % 2) * (step / 2) == if (nibble / 2) % 2 == 1 {
        step / 2
    } else {
        0
    }) by (nonlinear_arith)
        requires
            (nibble / 2) % 2 == 0 || (nibble / 2) % 2 == 1,
    ;
    assert(((nibble / 4) % 2) * step == if (nibble / 4) % 2 == 1 {
        step
    } else {
        0
    }) by (nonlinear_arith)
        requires
            (nibble / 4) % 2 == 0 || (nibble / 4) % 2 == 1,
    ;
}

/// Samples come from the halves of each byte in turn: sample `2 * i` is one step
/// on from the sample before it by the upper four bits of byte `i` behind the
/// header, and sample `2 * i + 1` is one step on from that by the lower four. The
/// first sample is one step on from the output in the header, at the step index
/// in the header, both low byte first.
pub proof fn law_upper_half_first(block: Seq<u8>, i: int)
    requires
        block.len() > 4,
        0 <= i < block.len() - 4,
    ensures
        ({
            let samples = block_samples(block);
            let data = block.skip(4);
            let word = block[0] + 256 * block[1];
            let output = if word < 32768 {
                word
            } else {
                word - 65536
            };
            let index = block[2] + 256 * block[3];
            let before = if i == 0 {
                output
            } else {
                samples[2 * i - 1] as int
            };
            let at = index_before(index, data, (2 * i) as nat);
            let between = index_before(index, data, (2 * i + 1) as nat);
            &&& samples.len() == 2 * (block.len() - 4)
            &&& samples[2 * i] == next_output(before, at, (block[4 + i] / 16) as int)
            &&& between == next_index(at, (block[4 + i] / 16) as int)
            &&& samples[2 * i + 1] == next_output(
                samples[2 * i] as int,
                between,
                (block[4 + i] % 16) as int,
            )
            &&& index_before(index, data, (2 * i + 2) as nat) == next_index(
                between,
                (block[4 + i] % 16) as int,
            )
            &&& index_before(index, data, 0) == index
        }),
{
    let data = block.skip(4);
    let start = header_output(block);
    let index = header_index(block);
    assert(data[i] == block[4 + i]);
    assert((2 * i) / 2 == i && (2 * i) % 2 == 0 && (2 * i + 1) / 2 == i && (2 * i + 1) % 2 == 1);
    lemma_output_in_range(start, index, data, (2 * i) as nat);
    lemma_output_in_range(start, index, data, (2 * i + 1) as nat);
    lemma_output_in_range(start, index, data, (2 * i + 2) as nat);
    assert(block_samples(block)[2 * i] == output_before(start, index, data, (2 * i + 1) as nat));
    assert(block_samples(block)[2 * i + 1] == output_before(
        start,
        index,
        data,
        (2 * i + 2) as nat,
    ));
    if i > 0 {
        assert(block_samples(block)[2 * i - 1] == output_before(
            start,
            index,
            data,
            (2 * i) as nat,
        ));
    }
}

/// A single byte behind a silent header whose upper half is the largest rise and
/// whose lower half is the largest fall: eleven up, then thirty down.
pub proof fn law_rise_then_fall(block: Seq<u8>)
    requires
        block == seq![0u8, 0, 0, 0, 0x7F],
    ensures
        block_samples(block) == seq![11i16, (-19) as i16],
{
    reveal(ima_steps);
    reveal(index_changes);
    law_upper_half_first(block, 0);
    assert(block_samples(block) =~= seq![11i16, (-19) as i16]);
}

} // verus!

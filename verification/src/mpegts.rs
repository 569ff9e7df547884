//! A small MPEG-TS muxer.
//!
//! It carries a camera's elementary streams (Annex-B H264/H265, ADTS-framed
//! AAC, or raw A-law) as ordinary MPEG-TS: PAT/PMT, PES with a 90 kHz PTS,
//! and a PCR on the video PID. There are no B-frames, so PTS equals DTS and
//! only the PTS is written; there is one program and there are no
//! descriptors beyond the bare stream list.

use vstd::prelude::*;
use crate::bytes_util;

verus! {

/// Every MPEG-TS packet is exactly this long.
pub const TS_PACKET_SIZE: usize = 188;

/// Bytes left in a packet once the 4-byte transport header is written.
pub const TS_PAYLOAD_SIZE: usize = 184;

pub const SYNC_BYTE: u8 = 0x47;

/// PID of the Program Association Table. Fixed for every stream.
pub const PAT_PID: u16 = 0x0000;

/// PID the Program Map Table is published on. Arbitrary but conventional.
pub const PMT_PID: u16 = 0x1000;

/// First elementary stream PID; one per track from here up.
pub const FIRST_ES_PID: u16 = 0x0100;

/// "No PID", used for `PCR_PID` when there is nothing to put there.
pub const NULL_PID: u16 = 0x1FFF;

/// The single program that is published.
pub const PROGRAM_NUMBER: u16 = 1;

/// The three reserved bits that sit above every 13-bit PID field in a PSI
/// table. Reserved bits are set, not cleared.
pub const RESERVED_3: u16 = 0xE000;

/// Four reserved bits, two zeroed length bits and a ten-bit length of zero:
/// the encoding of "no descriptors here".
pub const EMPTY_INFO_LENGTH: u16 = 0xF000;

/// The `payload_unit_start_indicator` bit, as it sits in the 16-bit word it
/// shares with the PID.
pub const PUSI: u16 = 0x4000;

/// PES and PCR timestamps run on a 90 kHz clock.
pub const CLOCK_HZ: u64 = 90_000;

/// PTS/PCR are 33-bit and wrap roughly every 26.5 hours.
pub const TIMESTAMP_MASK: u64 = 0x1_FFFF_FFFF;

/// How far PTS runs ahead of PCR: 200 ms, the headroom a strict decoder
/// buffers in.
pub const PTS_LEAD: u64 = 18_000;

/// Longest gap between PAT/PMT repeats, in 90 kHz ticks (100 ms).
pub const PSI_INTERVAL: u64 = 9_000;

/// The most tracks whose PMT still fits in one packet.
pub const MAX_TRACKS: usize = 33;

/// An elementary stream type, as it appears in the PMT.
#[derive(Clone, Copy, PartialEq, Eq, Structural, Debug)]
pub enum StreamType {
    /// H264 video, in Annex-B framing.
    H264,
    /// H265 video, in Annex-B framing.
    H265,
    /// AAC audio, in ADTS framing.
    Aac,
    /// G.711 A-law audio at 8 kHz, raw samples.
    Pcma,
}

/// The `stream_type` byte of each kind.
pub open spec fn stream_type_byte(kind: StreamType) -> u8 {
    match kind {
        StreamType::H264 => 0x1B,
        StreamType::H265 => 0x24,
        StreamType::Aac => 0x0F,
        StreamType::Pcma => 0x90,
    }
}

/// Whether a kind carries video.
pub open spec fn carries_video(kind: StreamType) -> bool {
    kind == StreamType::H264 || kind == StreamType::H265
}

/// The PES `stream_id` of each kind.
pub open spec fn pes_stream_id(kind: StreamType) -> u8 {
    if carries_video(kind) { 0xE0 } else { 0xC0 }
}

impl StreamType {
    /// The `stream_type` byte written into the PMT.
    pub fn id(self) -> (byte: u8)
        ensures
            byte == stream_type_byte(self),
    {
        match self {
            StreamType::H264 => 0x1B,
            StreamType::H265 => 0x24,
            StreamType::Aac => 0x0F,
            StreamType::Pcma => 0x90,
        }
    }

    /// Whether this track carries video, which decides both the PES
    /// `stream_id` range and which track gets to carry the PCR.
    pub fn is_video(self) -> (video: bool)
        ensures
            video == carries_video(self),
    {
        matches!(self, StreamType::H264 | StreamType::H265)
    }

    /// The PES `stream_id`. `0xE0..=0xEF` are reserved for video and
    /// `0xC0..=0xDF` for audio; one of each is all that is needed.
    pub fn stream_id(self) -> (byte: u8)
        ensures
            byte == pes_stream_id(self),
    {
        if self.is_video() {
            0xE0
        } else {
            0xC0
        }
    }
}

/// CRC-32/MPEG-2, one bit: shift left, and reduce by the polynomial when a
/// one falls out.
pub open spec fn crc_shift(crc: u32) -> u32 {
    if crc & 0x8000_0000 != 0 {
        (crc << 1) ^ 0x04C1_1DB7
    } else {
        crc << 1
    }
}

/// `count` bits of [`crc_shift`].
pub open spec fn crc_shifts(crc: u32, count: nat) -> u32
    decreases count,
{
    if count == 0 {
        crc
    } else {
        crc_shift(crc_shifts(crc, (count - 1) as nat))
    }
}

/// The register after one more byte.
pub open spec fn crc_byte(crc: u32, byte: u8) -> u32 {
    crc_shifts(crc ^ ((byte as u32) << 24), 8)
}

/// The register after `data`, from `crc`.
pub open spec fn crc_from(crc: u32, data: Seq<u8>) -> u32
    decreases data.len(),
{
    if data.len() == 0 {
        crc
    } else {
        crc_byte(crc_from(crc, data.drop_last()), data.last())
    }
}

/// The CRC-32/MPEG-2 of a section: all ones in, no reflection, no final xor.
pub open spec fn section_crc(data: Seq<u8>) -> u32 {
    crc_from(0xFFFF_FFFF, data)
}

/// CRC-32/MPEG-2: polynomial 0x04C11DB7, all ones in, no reflection and no
/// final xor. Every PSI section ends with one, big-endian.
pub fn crc32_mpeg2(data: &[u8]) -> (crc: u32)
    ensures
        crc == section_crc(data@),
{
    let mut crc: u32 = 0xFFFF_FFFF;
    let mut i: usize = 0;
    assert(data@.take(0) =~= Seq::<u8>::empty());
    while i < data.len()
        invariant
            i <= data.len(),
            crc == crc_from(0xFFFF_FFFF, data@.take(i as int)),
        decreases data.len() - i,
    {
        let byte = data[i];
        let ghost before = crc;
        crc = crc ^ ((byte as u32) << 24);
        let ghost seeded = crc;
        let mut bit: u32 = 0;
        while bit < 8
            invariant
                bit <= 8,
                crc == crc_shifts(seeded, bit as nat),
            decreases 8 - bit,
        {
            crc = if crc & 0x8000_0000 != 0 {
                (crc << 1) ^ 0x04C1_1DB7
            } else {
                crc << 1
            };
            bit += 1;
        }
        assert(data@.take(i + 1).drop_last() =~= data@.take(i as int));
        i += 1;
    }
    assert(data@.take(data.len() as int) =~= data@);
    crc
}

proof fn lemma_crc_concat(crc: u32, a: Seq<u8>, b: Seq<u8>)
    ensures
        crc_from(crc, a + b) == crc_from(crc_from(crc, a), b),
    decreases b.len(),
{
    if b.len() == 0 {
        assert(a + b =~= a);
    } else {
        assert((a + b).drop_last() =~= a + b.drop_last());
        lemma_crc_concat(crc, a, b.drop_last());
    }
}

proof fn lemma_crc_cancel_byte(crc: u32, byte: u8)
    requires
        byte == (crc >> 24) as u8,
    ensures
        crc_byte(crc, byte) == crc << 8,
{
    reveal_with_fuel(crc_shifts, 9);
    let c0 = crc ^ ((byte as u32) << 24);
    assert(c0 & 0x8000_0000 == 0 && (c0 << 1) & 0x8000_0000 == 0 && ((c0 << 1) << 1) & 0x8000_0000
        == 0 && (((c0 << 1) << 1) << 1) & 0x8000_0000 == 0 && ((((c0 << 1) << 1) << 1) << 1)
        & 0x8000_0000 == 0 && (((((c0 << 1) << 1) << 1) << 1) << 1) & 0x8000_0000 == 0 && ((((((c0
        << 1) << 1) << 1) << 1) << 1) << 1) & 0x8000_0000 == 0 && (((((((c0 << 1) << 1) << 1) << 1)
        << 1) << 1) << 1) & 0x8000_0000 == 0 && (((((((c0 << 1) << 1) << 1) << 1) << 1) << 1) << 1)
        << 1 == crc << 8) by (bit_vector)
        requires
            c0 == crc ^ ((byte as u32) << 24),
            byte == (crc >> 24) as u8,
    ;
}

/// A section followed by its own CRC checks to zero, which is how a reader
/// validates it.
pub proof fn law_crc_residue_is_zero(section: Seq<u8>)
    ensures
        section_crc(section + bytes_util::be32(section_crc(section))) == 0,
{
    let c = section_crc(section);
    let tail = bytes_util::be32(c);
    lemma_crc_concat(0xFFFF_FFFF, section, tail);
    let b0 = (c >> 24) as u8;
    let b1 = ((c >> 16) & 0xFF) as u8;
    let b2 = ((c >> 8) & 0xFF) as u8;
    let b3 = (c & 0xFF) as u8;
    let c1 = c << 8;
    let c2 = c1 << 8;
    let c3 = c2 << 8;
    assert(b1 == (c1 >> 24) as u8 && b2 == (c2 >> 24) as u8 && b3 == (c3 >> 24) as u8 && c3 << 8
        == 0) by (bit_vector)
        requires
            b1 == ((c >> 16) & 0xFF) as u8,
            b2 == ((c >> 8) & 0xFF) as u8,
            b3 == (c & 0xFF) as u8,
            c1 == c << 8,
            c2 == c1 << 8,
            c3 == c2 << 8,
    ;
    lemma_crc_cancel_byte(c, b0);
    lemma_crc_cancel_byte(c1, b1);
    lemma_crc_cancel_byte(c2, b2);
    lemma_crc_cancel_byte(c3, b3);
    let t1 = tail.drop_last();
    let t2 = t1.drop_last();
    let t3 = t2.drop_last();
    assert(t3.drop_last() =~= Seq::<u8>::empty());
    reveal_with_fuel(crc_from, 5);
    assert(tail.last() == b3 && t1.last() == b2 && t2.last() == b1 && t3.last() == b0);
}

/// A 33-bit timestamp in the 5-byte PES form, under a 4-bit tag.
pub open spec fn timestamp_bytes(prefix: u8, ts: u64) -> Seq<u8> {
    seq![
        prefix << 4 | (((ts >> 30) & 0x07) as u8) << 1 | 1,
        ((ts >> 22) & 0xFF) as u8,
        (((ts >> 15) & 0x7F) as u8) << 1 | 1,
        ((ts >> 7) & 0xFF) as u8,
        ((ts & 0x7F) as u8) << 1 | 1,
    ]
}

/// What a reader takes a 5-byte PES timestamp to be.
pub open spec fn read_timestamp(bytes: Seq<u8>) -> u64 {
    ((bytes[0] as u64 >> 1) & 0x07) << 30 | (bytes[1] as u64) << 22 | (bytes[2] as u64 >> 1) << 15
        | (bytes[3] as u64) << 7 | (bytes[4] as u64) >> 1
}

/// Write a 33-bit timestamp in the 5-byte PES form.
///
/// `prefix` is the 4-bit tag put in front: `0b0010` for a lone
/// PTS.
pub fn write_timestamp(out: &mut [u8], prefix: u8, ts: u64)
    requires
        old(out)@.len() >= 5,
    ensures
        final(out)@ == timestamp_bytes(prefix, ts) + old(out)@.skip(5),
{
    let ghost before = out@;
    out[0] = prefix << 4 | (((ts >> 30) & 0x07) as u8) << 1 | 1;
    out[1] = ((ts >> 22) & 0xFF) as u8;
    out[2] = (((ts >> 15) & 0x7F) as u8) << 1 | 1;
    out[3] = ((ts >> 7) & 0xFF) as u8;
    out[4] = ((ts & 0x7F) as u8) << 1 | 1;
    assert(out@ =~= timestamp_bytes(prefix, ts) + before.skip(5));
}

/// A timestamp reads back as the 33 bits that were written, under the tag
/// that was written, with every marker bit set.
pub proof fn law_timestamp_round_trip(prefix: u8, ts: u64)
    requires
        prefix < 16,
    ensures
        read_timestamp(timestamp_bytes(prefix, ts)) == ts & TIMESTAMP_MASK,
        timestamp_bytes(prefix, ts)[0] >> 4 == prefix,
        timestamp_bytes(prefix, ts)[0] & 1 == 1,
        timestamp_bytes(prefix, ts)[2] & 1 == 1,
        timestamp_bytes(prefix, ts)[4] & 1 == 1,
{
    let b0 = prefix << 4 | (((ts >> 30) & 0x07) as u8) << 1 | 1;
    let b1 = ((ts >> 22) & 0xFF) as u8;
    let b2 = (((ts >> 15) & 0x7F) as u8) << 1 | 1;
    let b3 = ((ts >> 7) & 0xFF) as u8;
    let b4 = ((ts & 0x7F) as u8) << 1 | 1;
    assert(((b0 as u64 >> 1) & 0x07) << 30 | (b1 as u64) << 22 | (b2 as u64 >> 1) << 15 | (
    b3 as u64) << 7 | (b4 as u64) >> 1 == ts & 0x1_FFFF_FFFF && b0 >> 4 == prefix && b0 & 1 == 1
        && b2 & 1 == 1 && b4 & 1 == 1) by (bit_vector)
        requires
            prefix < 16,
            b0 == prefix << 4 | (((ts >> 30) & 0x07) as u8) << 1 | 1,
            b1 == ((ts >> 22) & 0xFF) as u8,
            b2 == (((ts >> 15) & 0x7F) as u8) << 1 | 1,
            b3 == ((ts >> 7) & 0xFF) as u8,
            b4 == ((ts & 0x7F) as u8) << 1 | 1,
    ;
}

/// A Program Clock Reference: a 33-bit 90 kHz base, six reserved bits, and a
/// 9-bit 27 MHz extension left at zero.
pub open spec fn pcr_bytes(base: u64) -> Seq<u8> {
    seq![
        ((base >> 25) & 0xFF) as u8,
        ((base >> 17) & 0xFF) as u8,
        ((base >> 9) & 0xFF) as u8,
        ((base >> 1) & 0xFF) as u8,
        ((base & 1) as u8) << 7 | 0x7E,
        0u8,
    ]
}

/// What a reader takes the base of a 6-byte PCR to be.
pub open spec fn read_pcr(bytes: Seq<u8>) -> u64 {
    (bytes[0] as u64) << 25 | (bytes[1] as u64) << 17 | (bytes[2] as u64) << 9 | (bytes[3] as u64)
        << 1 | (bytes[4] as u64) >> 7
}

/// Write a Program Clock Reference.
pub fn write_pcr(out: &mut Vec<u8>, base: u64)
    ensures
        final(out)@ == old(out)@ + pcr_bytes(base),
{
    let ghost before = out@;
    out.push(((base >> 25) & 0xFF) as u8);
    out.push(((base >> 17) & 0xFF) as u8);
    out.push(((base >> 9) & 0xFF) as u8);
    out.push(((base >> 1) & 0xFF) as u8);
    out.push(((base & 1) as u8) << 7 | 0x7E);
    out.push(0);
    assert(out@ =~= before + pcr_bytes(base));
}

/// A PCR reads back as the 33 bits of its base, with its six reserved bits
/// set and a zero extension.
pub proof fn law_pcr_round_trip(base: u64)
    ensures
        read_pcr(pcr_bytes(base)) == base & TIMESTAMP_MASK,
        pcr_bytes(base)[4] & 0x7F == 0x7E,
        pcr_bytes(base)[5] == 0,
{
    let b0 = ((base >> 25) & 0xFF) as u8;
    let b1 = ((base >> 17) & 0xFF) as u8;
    let b2 = ((base >> 9) & 0xFF) as u8;
    let b3 = ((base >> 1) & 0xFF) as u8;
    let b4 = ((base & 1) as u8) << 7 | 0x7E;
    assert((b0 as u64) << 25 | (b1 as u64) << 17 | (b2 as u64) << 9 | (b3 as u64) << 1 | (
    b4 as u64) >> 7 == base & 0x1_FFFF_FFFF && b4 & 0x7F == 0x7E) by (bit_vector)
        requires
            b0 == ((base >> 25) & 0xFF) as u8,
            b1 == ((base >> 17) & 0xFF) as u8,
            b2 == ((base >> 9) & 0xFF) as u8,
            b3 == ((base >> 1) & 0xFF) as u8,
            b4 == ((base & 1) as u8) << 7 | 0x7E,
    ;
}

/// A PSI section up to but excluding its CRC: the table id, the length of
/// what follows (CRC included), the table's own number, version zero marked
/// current, section zero of zero, and the body.
pub open spec fn section_bytes(table_id: u8, extension: u16, body: Seq<u8>) -> Seq<u8> {
    seq![table_id] + bytes_util::be16(0xB000u16 | ((body.len() + 9) as u16)) + bytes_util::be16(
        extension,
    ) + seq![0xC1u8, 0u8, 0u8] + body
}

/// Wrap a PSI table body in the section header every table shares.
///
/// Returns everything from `table_id` up to but excluding the CRC.
pub fn psi_section(table_id: u8, extension: u16, body: &[u8]) -> (section: Vec<u8>)
    requires
        body@.len() + 9 <= u16::MAX,
    ensures
        section@ == section_bytes(table_id, extension, body@),
{
    let mut section: Vec<u8> = Vec::with_capacity(12);
    section.push(table_id);
    assert(section@ =~= seq![table_id]);
    // section_length counts from just after this field to the end of the
    // CRC: the five bytes below, the body, and four bytes of CRC.
    let length: u16 = 5 + body.len() as u16 + 4;
    // section_syntax_indicator, a zeroed private bit, two reserved bits,
    // then the 12-bit length.
    bytes_util::append_be16(&mut section, 0xB000 | length);
    bytes_util::append_be16(&mut section, extension);
    let ghost before = section@;
    // Two reserved bits, version_number zero, current_next_indicator set.
    section.push(0xC1);
    section.push(0);  // section_number
    section.push(0);  // last_section_number
    assert(section@ =~= before + seq![0xC1u8, 0u8, 0u8]);
    bytes_util::append_bytes(&mut section, body);
    section
}

/// One PSI section as a single packet: the transport header, a pointer field
/// of zero, the section, its CRC, and 0xFF to the packet boundary.
pub open spec fn psi_packet(pid: u16, continuity: u8, section: Seq<u8>) -> Seq<u8> {
    seq![SYNC_BYTE] + bytes_util::be16(PUSI | pid) + seq![0x10u8 | (continuity & 0x0F), 0u8]
        + section + bytes_util::be32(section_crc(section)) + bytes_util::repeated(
        0xFF,
        (TS_PACKET_SIZE - 9 - section.len()) as nat,
    )
}

/// A counter one further on, wrapping at the width of its byte.
pub open spec fn counter_after(continuity: u8, packets: nat) -> u8 {
    ((continuity + packets) % 256) as u8
}

/// Write one PSI section as a single TS packet.
pub fn write_psi_packet(pid: u16, continuity: &mut u8, section: &[u8], out: &mut Vec<u8>)
    requires
        section@.len() + 9 <= TS_PACKET_SIZE,
    ensures
        final(out)@ == old(out)@ + psi_packet(pid, *old(continuity), section@),
        *final(continuity) == counter_after(*old(continuity), 1),
{
    let ghost before = out@;
    let start: usize = out.len();
    let counter: u8 = *continuity;
    out.push(SYNC_BYTE);
    bytes_util::append_be16(out, PUSI | pid);
    out.push(0x10 | (counter & 0x0F));
    *continuity = counter.wrapping_add(1);
    out.push(0);  // pointer_field: the section starts right here
    bytes_util::append_bytes(out, section);
    bytes_util::append_be32(out, crc32_mpeg2(section));
    let written: usize = out.len() - start;
    bytes_util::append_repeated(out, 0xFF, TS_PACKET_SIZE - written);
    assert(out@ =~= before + psi_packet(pid, counter, section@));
}

/// A cursor over the PES header and its payload as one logical run of bytes,
/// so a frame is copied into the output once.
#[derive(Debug)]
pub struct Chain<'a> {
    pub head: &'a [u8],
    pub tail: &'a [u8],
}

impl<'a> View for Chain<'a> {
    type V = Seq<u8>;

    open spec fn view(&self) -> Seq<u8> {
        self.head@ + self.tail@
    }
}

impl<'a> Chain<'a> {
    pub fn new(head: &'a [u8], tail: &'a [u8]) -> (chain: Self)
        ensures
            chain@ == head@ + tail@,
    {
        Chain { head, tail }
    }

    /// The bytes not yet taken.
    pub fn len(&self) -> (count: usize)
        requires
            self@.len() <= usize::MAX,
        ensures
            count == self@.len(),
    {
        self.head.len() + self.tail.len()
    }

    pub fn is_empty(&self) -> (empty: bool)
        requires
            self@.len() <= usize::MAX,
        ensures
            empty == (self@.len() == 0),
    {
        self.len() == 0
    }

    /// Move the next `count` bytes into `out`, or all there are if that is
    /// fewer.
    pub fn take(&mut self, count: usize, out: &mut Vec<u8>)
        ensures
            count <= old(self)@.len() ==> final(out)@ == old(out)@ + old(self)@.take(count as int)
                && final(self)@ == old(self)@.skip(count as int),
            count > old(self)@.len() ==> final(out)@ == old(out)@ + old(self)@ && final(self)@
                == Seq::<u8>::empty(),
    {
        let ghost whole = self@;
        let ghost before = out@;
        let head_len: usize = self.head.len();
        let tail_len: usize = self.tail.len();
        let from_head: usize = if count < head_len { count } else { head_len };
        let left: usize = count - from_head;
        let from_tail: usize = if left < tail_len { left } else { tail_len };
        bytes_util::append_bytes(out, vstd::slice::slice_subrange(self.head, 0, from_head));
        bytes_util::append_bytes(out, vstd::slice::slice_subrange(self.tail, 0, from_tail));
        self.head = vstd::slice::slice_subrange(self.head, from_head, head_len);
        self.tail = vstd::slice::slice_subrange(self.tail, from_tail, tail_len);
        proof {
            if count <= whole.len() {
                assert(out@ =~= before + whole.take(count as int));
                assert(self@ =~= whole.skip(count as int));
            } else {
                assert(out@ =~= before + whole);
                assert(self@ =~= Seq::<u8>::empty());
            }
        }
    }
}

/// Bytes that the flags of a packet's adaptation field take up.
pub open spec fn flag_room(random_access: bool, pcr: Option<u64>) -> nat {
    if pcr is Some {
        8
    } else if random_access {
        2
    } else {
        0
    }
}

/// How many bytes of `len` the next packet takes.
pub open spec fn chunk_len(len: nat, random_access: bool, pcr: Option<u64>) -> nat {
    let room = (TS_PAYLOAD_SIZE - flag_room(random_access, pcr)) as nat;
    if len < room { len } else { room }
}

/// An adaptation field `size` bytes long, its length byte included.
pub open spec fn adaptation_field(size: nat, random_access: bool, pcr: Option<u64>) -> Seq<u8> {
    if size == 0 {
        Seq::empty()
    } else if size == 1 {
        seq![0u8]
    } else {
        seq![
            (size - 1) as u8,
            (if random_access { 0x40u8 } else { 0u8 }) | (if pcr is Some { 0x10u8 } else { 0u8 }),
        ] + (match pcr {
            Some(base) => pcr_bytes(base),
            None => Seq::empty(),
        }) + bytes_util::repeated(
            0xFF,
            (size - 2 - (if pcr is Some { 6int } else { 0int })) as nat,
        )
    }
}

/// One packet of an elementary stream: the transport header, an adaptation
/// field filling what the chunk leaves, and the chunk.
pub open spec fn es_packet(
    pid: u16,
    continuity: u8,
    start: bool,
    random_access: bool,
    pcr: Option<u64>,
    chunk: Seq<u8>,
) -> Seq<u8> {
    let field = (TS_PAYLOAD_SIZE - chunk.len()) as nat;
    seq![SYNC_BYTE] + bytes_util::be16((if start { PUSI } else { 0 }) | pid) + seq![
        (if field > 0 { 0x30u8 } else { 0x10u8 }) | (continuity & 0x0F),
    ] + adaptation_field(field, random_access, pcr) + chunk
}

/// The packets that carry `data`. The clock and the random access mark go
/// with the first of them only.
pub open spec fn es_packets(
    pid: u16,
    continuity: u8,
    data: Seq<u8>,
    start: bool,
    random_access: bool,
    pcr: Option<u64>,
) -> Seq<u8>
    decreases data.len(),
{
    if data.len() == 0 {
        Seq::empty()
    } else {
        let n = chunk_len(data.len(), random_access, pcr) as int;
        es_packet(pid, continuity, start, random_access, pcr, data.take(n)) + es_packets(
            pid,
            counter_after(continuity, 1),
            data.skip(n),
            false,
            false,
            None,
        )
    }
}

/// How many packets carry `len` bytes.
pub open spec fn packet_count(len: nat, random_access: bool, pcr: Option<u64>) -> nat
    decreases len,
{
    if len == 0 {
        0
    } else {
        1 + packet_count(
            (len - chunk_len(len, random_access, pcr)) as nat,
            false,
            None,
        )
    }
}

/// One elementary stream of the program.
#[derive(Clone, Copy, Debug)]
pub struct Track {
    pub pid: u16,
    pub kind: StreamType,
    /// Continuity counter, of which four bits are sent, incremented per
    /// packet carrying payload on this PID.
    pub continuity: u8,
}

/// Write the next packet of a PES packet, with as much of it as fits.
fn write_es_packet(
    pid: u16,
    counter: u8,
    start: bool,
    random_access: bool,
    pcr: Option<u64>,
    chain: &mut Chain<'_>,
    out: &mut Vec<u8>,
)
    requires
        0 < old(chain)@.len() <= usize::MAX,
    ensures
        ({
            let n = chunk_len(old(chain)@.len(), random_access, pcr) as int;
            &&& final(out)@ == old(out)@ + es_packet(
                pid,
                counter,
                start,
                random_access,
                pcr,
                old(chain)@.take(n),
            )
            &&& final(chain)@ == old(chain)@.skip(n)
        }),
{
    let ghost data = chain@;
    let ghost done = out@;
    // An adaptation field is needed to carry the PCR and the random access
    // flag, and again at the end of a frame to stuff the last packet out to
    // 188 bytes.
    let reserved: usize = if pcr.is_some() {
        8
    } else if random_access {
        2
    } else {
        0
    };
    let room: usize = TS_PAYLOAD_SIZE - reserved;
    let left: usize = chain.len();
    let take: usize = if left < room { left } else { room };
    let field: usize = TS_PAYLOAD_SIZE - take;
    out.push(SYNC_BYTE);
    let pusi: u16 = if start { PUSI } else { 0 };
    bytes_util::append_be16(out, pusi | pid);
    let control: u8 = if field > 0 { 0x30 } else { 0x10 };
    out.push(control | (counter & 0x0F));
    let ghost header = seq![SYNC_BYTE] + bytes_util::be16(pusi | pid) + seq![
        control | (counter & 0x0F),
    ];
    assert(out@ =~= done + header);
    write_adaptation_field(field, random_access, pcr, out);
    chain.take(take, out);
    assert(take == chunk_len(data.len(), random_access, pcr));
    proof {
        lemma_append_three(
            done,
            header,
            adaptation_field(field as nat, random_access, pcr),
            data.take(take as int),
        );
    }
}

proof fn lemma_append_three(done: Seq<u8>, a: Seq<u8>, b: Seq<u8>, c: Seq<u8>)
    ensures
        done + a + b + c == done + (a + b + c),
{
    assert(done + a + b + c =~= done + (a + b + c));
}

/// Write an adaptation field of exactly `field` bytes.
fn write_adaptation_field(field: usize, random_access: bool, pcr: Option<u64>, out: &mut Vec<u8>)
    requires
        flag_room(random_access, pcr) <= field <= TS_PAYLOAD_SIZE,
    ensures
        final(out)@ == old(out)@ + adaptation_field(field as nat, random_access, pcr),
{
    let ghost before = out@;
    if field == 1 {
        // No room for flags, and none needed: a lone length byte of zero is
        // the usual way to spend exactly one byte.
        out.push(0);
    } else if field > 1 {
        out.push((field - 1) as u8);
        let flags: u8 = (if random_access { 0x40u8 } else { 0u8 }) | (if pcr.is_some() {
            0x10u8
        } else {
            0u8
        });
        out.push(flags);
        let mut used: usize = 2;
        if let Some(base) = pcr {
            write_pcr(out, base);
            used += 6;
        }
        bytes_util::append_repeated(out, 0xFF, field - used);
    }
    assert(out@ =~= before + adaptation_field(field as nat, random_access, pcr));
}

/// Split a PES packet across TS packets on one PID.
///
/// `pcr` and `random_access` apply to the first packet only: they describe
/// the access unit, and the adaptation field that carries them belongs with
/// its start.
pub fn emit_packets(
    track: &mut Track,
    chain: Chain<'_>,
    pcr: Option<u64>,
    random_access: bool,
    out: &mut Vec<u8>,
)
    requires
        chain@.len() <= usize::MAX,
    ensures
        final(out)@ == old(out)@ + es_packets(
            old(track).pid,
            old(track).continuity,
            chain@,
            true,
            random_access,
            pcr,
        ),
        *final(track) == (Track {
            continuity: counter_after(
                old(track).continuity,
                packet_count(chain@.len(), random_access, pcr),
            ),
            ..*old(track)
        }),
{
    let ghost before = out@;
    let ghost whole = chain@;
    let ghost first_counter = track.continuity;
    let pid: u16 = track.pid;
    let kind: StreamType = track.kind;
    let mut chain = chain;
    let mut pcr: Option<u64> = pcr;
    let mut random_access: bool = random_access;
    let mut start: bool = true;
    let mut counter: u8 = track.continuity;
    let ghost goal = es_packets(pid, counter, whole, true, random_access, pcr);
    let ghost count = packet_count(whole.len(), random_access, pcr);
    assert(before + goal =~= out@ + goal);
    while !chain.is_empty()
        invariant
            chain@.len() <= usize::MAX,
            out@ + es_packets(pid, counter, chain@, start, random_access, pcr) == before + goal,
            counter_after(counter, packet_count(chain@.len(), random_access, pcr))
                == counter_after(first_counter, count),
        decreases chain@.len(),
    {
        let ghost data = chain@;
        let ghost done = out@;
        write_es_packet(pid, counter, start, random_access, pcr, &mut chain, out);
        proof {
            let n = chunk_len(data.len(), random_access, pcr) as int;
            let packet = es_packet(pid, counter, start, random_access, pcr, data.take(n));
            let rest = es_packets(pid, counter_after(counter, 1), data.skip(n), false, false, None);
            assert((done + packet) + rest =~= done + (packet + rest));
        }
        counter = counter.wrapping_add(1);
        start = false;
        random_access = false;
        pcr = None;
    }
    assert(out@ =~= before + goal);
    *track = Track { pid, kind, continuity: counter };
}

/// A point on the 90 kHz clock, which wraps at 33 bits.
pub open spec fn clock_of(pts_us: u64) -> u64 {
    let scaled = if pts_us * 9 > u64::MAX { u64::MAX as int } else { pts_us * 9 };
    ((scaled / 100) % 0x2_0000_0000) as u64
}

/// The presentation time of a frame at `clock`.
pub open spec fn pts_of(clock: u64) -> u64 {
    ((clock + PTS_LEAD) % 0x2_0000_0000) as u64
}

/// The PES header in front of `len` bytes of payload.
///
/// Its length field counts the two flag bytes, the header length byte, the
/// 5-byte PTS and the payload, and is zero, meaning unbounded, when that
/// does not fit.
pub open spec fn pes_header(kind: StreamType, len: nat, pts: u64) -> Seq<u8> {
    seq![0u8, 0u8, 1u8, pes_stream_id(kind)] + bytes_util::be16(
        if len + 8 <= u16::MAX {
            (len + 8) as u16
        } else {
            0
        },
    ) + seq![0x80u8, 0x80u8, 5u8] + timestamp_bytes(0x02, pts)
}

/// Handle for one track of a [`TsMuxer`], returned by [`TsMuxer::track`] and
/// taken by [`TsMuxer::write_frame`].
#[derive(Clone, Copy, PartialEq, Eq, Structural, Debug)]
pub struct TrackId(pub usize);

/// Muxes elementary stream frames into an MPEG-TS byte stream.
///
/// The track list is fixed at construction because the PMT it produces has
/// to be stable: a consumer reads the program's shape once.
#[derive(Debug)]
pub struct TsMuxer {
    pub tracks: Vec<Track>,
    /// Which track carries the PCR: video if there is any, else the first
    /// track, so the clock keeps ticking on an audio-only stream.
    pub pcr_track: Option<usize>,
    pub pat_continuity: u8,
    pub pmt_continuity: u8,
    /// Clock of the last PAT/PMT pair, for [`PSI_INTERVAL`].
    pub last_psi: Option<u64>,
}

/// The PAT section: program one, on the PMT's PID.
pub open spec fn pat_bytes() -> Seq<u8> {
    section_bytes(
        0x00,
        PROGRAM_NUMBER,
        bytes_util::be16(PROGRAM_NUMBER) + bytes_util::be16(RESERVED_3 | PMT_PID),
    )
}

/// The PMT's entries for the first `count` tracks.
pub open spec fn pmt_entries(tracks: Seq<Track>, count: nat) -> Seq<u8>
    decreases count,
{
    if count == 0 {
        Seq::empty()
    } else {
        let track = tracks[count - 1];
        pmt_entries(tracks, (count - 1) as nat) + seq![stream_type_byte(track.kind)]
            + bytes_util::be16(RESERVED_3 | track.pid) + bytes_util::be16(EMPTY_INFO_LENGTH)
    }
}

/// The PID that carries the clock.
pub open spec fn pcr_pid(tracks: Seq<Track>, pcr_track: Option<usize>) -> u16 {
    match pcr_track {
        Some(i) if i < tracks.len() => tracks[i as int].pid,
        _ => NULL_PID,
    }
}

/// The PMT section: the clock's PID, then every track in order.
pub open spec fn pmt_bytes(tracks: Seq<Track>, pcr_track: Option<usize>) -> Seq<u8> {
    section_bytes(
        0x02,
        PROGRAM_NUMBER,
        bytes_util::be16(RESERVED_3 | pcr_pid(tracks, pcr_track)) + bytes_util::be16(
            EMPTY_INFO_LENGTH,
        ) + pmt_entries(tracks, tracks.len()),
    )
}

/// Whether track `i` is the one to carry the clock of a program of `kinds`:
/// the first that carries video, or the very first when none does.
pub open spec fn carries_clock(kinds: Seq<StreamType>, i: int) -> bool {
    &&& 0 <= i < kinds.len()
    &&& if exists|j: int| 0 <= j < kinds.len() && carries_video(#[trigger] kinds[j]) {
        carries_video(kinds[i]) && forall|j: int| 0 <= j < i ==> !carries_video(#[trigger] kinds[j])
    } else {
        i == 0
    }
}

proof fn lemma_pmt_entries_len(tracks: Seq<Track>, count: nat)
    ensures
        pmt_entries(tracks, count).len() == 5 * count,
    decreases count,
{
    if count > 0 {
        lemma_pmt_entries_len(tracks, (count - 1) as nat);
    }
}

impl TsMuxer {
    /// The kinds of the tracks, in order.
    pub open spec fn kinds(&self) -> Seq<StreamType> {
        Seq::new(self.tracks@.len(), |i: int| self.tracks@[i].kind)
    }

    /// The shape of every muxer that [`TsMuxer::new`] makes: consecutive PIDs,
    /// and the clock where it belongs.
    pub open spec fn wf(&self) -> bool {
        &&& forall|i: int|
            0 <= i < self.tracks@.len() ==> (#[trigger] self.tracks@[i]).pid == FIRST_ES_PID + i
        &&& match self.pcr_track {
            Some(i) => carries_clock(self.kinds(), i as int),
            None => self.tracks@.len() == 0,
        }
    }

    /// The PAT and PMT packets that would be written now.
    pub open spec fn psi_bytes(&self) -> Seq<u8> {
        psi_packet(PAT_PID, self.pat_continuity, pat_bytes()) + psi_packet(
            PMT_PID,
            self.pmt_continuity,
            pmt_bytes(self.tracks@, self.pcr_track),
        )
    }

    /// Whether the tables are due in front of a frame at `clock`.
    pub open spec fn tables_due(&self, clock: u64, random_access: bool) -> bool {
        match self.last_psi {
            None => true,
            Some(last) => random_access || (clock - last) % 0x2_0000_0000 >= PSI_INTERVAL,
        }
    }

    /// The packets that a frame adds on its own track, if there is one.
    pub open spec fn frame_bytes(
        &self,
        track: TrackId,
        pts_us: u64,
        random_access: bool,
        payload: Seq<u8>,
    ) -> Seq<u8> {
        if track.0 < self.tracks@.len() {
            let t = self.tracks@[track.0 as int];
            let clock = clock_of(pts_us);
            es_packets(
                t.pid,
                t.continuity,
                pes_header(t.kind, payload.len(), pts_of(clock)) + payload,
                true,
                random_access,
                if self.pcr_track == Some(track.0) {
                    Some(clock)
                } else {
                    None
                },
            )
        } else {
            Seq::empty()
        }
    }

    /// The tracks after a frame: one counter further on, by the packets sent.
    pub open spec fn tracks_after(
        &self,
        track: TrackId,
        random_access: bool,
        payload: Seq<u8>,
    ) -> Seq<Track> {
        if track.0 < self.tracks@.len() {
            let t = self.tracks@[track.0 as int];
            self.tracks@.update(
                track.0 as int,
                Track {
                    continuity: counter_after(
                        t.continuity,
                        packet_count(
                            14 + payload.len(),
                            random_access,
                            if self.pcr_track == Some(track.0) {
                                Some(0)
                            } else {
                                None
                            },
                        ),
                    ),
                    ..t
                },
            )
        } else {
            self.tracks@
        }
    }

    /// Build a muxer publishing exactly `kinds`, in order, on consecutive PIDs
    /// from [`FIRST_ES_PID`].
    pub fn new(kinds: &[StreamType]) -> (muxer: Self)
        requires
            FIRST_ES_PID + kinds@.len() <= 0x1_0000,
        ensures
            muxer.wf(),
            muxer.kinds() == kinds@,
            forall|i: int|
                0 <= i < kinds@.len() ==> (#[trigger] muxer.tracks@[i]).continuity == 0,
            muxer.pat_continuity == 0,
            muxer.pmt_continuity == 0,
            muxer.last_psi is None,
    {
        let mut tracks: Vec<Track> = Vec::new();
        let mut video: Option<usize> = None;
        let mut i: usize = 0;
        while i < kinds.len()
            invariant
                i <= kinds.len(),
                FIRST_ES_PID + kinds@.len() <= 0x1_0000,
                tracks@.len() == i,
                forall|j: int|
                    0 <= j < i ==> (#[trigger] tracks@[j]) == (Track {
                        pid: (FIRST_ES_PID + j) as u16,
                        kind: kinds@[j],
                        continuity: 0,
                    }),
                match video {
                    Some(v) => v < i && carries_video(kinds@[v as int]) && forall|j: int|
                        0 <= j < v ==> !carries_video(#[trigger] kinds@[j]),
                    None => forall|j: int| 0 <= j < i ==> !carries_video(#[trigger] kinds@[j]),
                },
            decreases kinds.len() - i,
        {
            let kind: StreamType = kinds[i];
            if video.is_none() && kind.is_video() {
                video = Some(i);
            }
            tracks.push(Track { pid: FIRST_ES_PID + i as u16, kind, continuity: 0 });
            i += 1;
        }
        let pcr_track: Option<usize> = match video {
            Some(v) => Some(v),
            None => if tracks.len() == 0 {
                None
            } else {
                Some(0)
            },
        };
        let muxer = TsMuxer {
            tracks,
            pcr_track,
            pat_continuity: 0,
            pmt_continuity: 0,
            last_psi: None,
        };
        assert(muxer.kinds() =~= kinds@);
        muxer
    }

    /// The handle for the first track of this type, if it was declared.
    pub fn track(&self, kind: StreamType) -> (found: Option<TrackId>)
        ensures
            match found {
                Some(id) => id.0 < self.tracks@.len() && self.kinds()[id.0 as int] == kind
                    && forall|j: int| 0 <= j < id.0 ==> #[trigger] self.kinds()[j] != kind,
                None => forall|j: int|
                    0 <= j < self.tracks@.len() ==> #[trigger] self.kinds()[j] != kind,
            },
    {
        let mut i: usize = 0;
        while i < self.tracks.len()
            invariant
                i <= self.tracks@.len(),
                forall|j: int| 0 <= j < i ==> #[trigger] self.kinds()[j] != kind,
            decreases self.tracks@.len() - i,
        {
            if self.tracks[i].kind == kind {
                return Some(TrackId(i));
            }
            i += 1;
        }
        None
    }

    /// Append a PAT and a PMT.
    ///
    /// [`TsMuxer::write_frame`] emits these before the first frame and repeats
    /// them afterwards, so there is normally no need to call this at all.
    pub fn write_psi(&mut self, out: &mut Vec<u8>)
        requires
            old(self).tracks@.len() <= MAX_TRACKS,
        ensures
            final(out)@ == old(out)@ + old(self).psi_bytes(),
            final(self).pat_continuity == counter_after(old(self).pat_continuity, 1),
            final(self).pmt_continuity == counter_after(old(self).pmt_continuity, 1),
            final(self).tracks == old(self).tracks,
            final(self).pcr_track == old(self).pcr_track,
            final(self).last_psi == old(self).last_psi,
    {
        let ghost before = out@;
        let pat = self.pat_section();
        let mut pat_continuity: u8 = self.pat_continuity;
        write_psi_packet(PAT_PID, &mut pat_continuity, pat.as_slice(), out);
        let pmt = self.pmt_section();
        proof {
            lemma_pmt_entries_len(self.tracks@, self.tracks@.len());
        }
        let mut pmt_continuity: u8 = self.pmt_continuity;
        write_psi_packet(PMT_PID, &mut pmt_continuity, pmt.as_slice(), out);
        assert(out@ =~= before + self.psi_bytes());
        self.pat_continuity = pat_continuity;
        self.pmt_continuity = pmt_continuity;
    }

    /// Whether a PAT/PMT pair is due before the frame at `clock`.
    ///
    /// Keyframes always get one so that a consumer joining at a random access
    /// point has the program table immediately in front of it.
    pub fn psi_due(&self, clock: u64, random_access: bool) -> (due: bool)
        ensures
            due == self.tables_due(clock, random_access),
    {
        match self.last_psi {
            None => true,
            Some(last) => {
                let gap: u64 = clock.wrapping_sub(last);
                proof {
                    lemma_mask_is_mod(gap);
                    if clock < last {
                        vstd::arithmetic::div_mod::lemma_mod_multiples_vanish(
                            0x8000_0000,
                            clock - last,
                            0x2_0000_0000,
                        );
                    }
                }
                random_access || (gap & TIMESTAMP_MASK) >= PSI_INTERVAL
            },
        }
    }

    /// The PAT section body, from `table_id` to the last byte before the CRC
    /// (which [`write_psi_packet`] appends).
    pub fn pat_section(&self) -> (section: Vec<u8>)
        ensures
            section@ == pat_bytes(),
            section@.len() == 12,
    {
        let mut body: Vec<u8> = Vec::with_capacity(4);
        bytes_util::append_be16(&mut body, PROGRAM_NUMBER);
        bytes_util::append_be16(&mut body, RESERVED_3 | PMT_PID);
        assert(body@ =~= bytes_util::be16(PROGRAM_NUMBER) + bytes_util::be16(RESERVED_3 | PMT_PID));
        psi_section(0x00, PROGRAM_NUMBER, body.as_slice())
    }

    /// The PMT section body, likewise without its CRC.
    pub fn pmt_section(&self) -> (section: Vec<u8>)
        requires
            13 + 5 * self.tracks@.len() <= u16::MAX,
        ensures
            section@ == pmt_bytes(self.tracks@, self.pcr_track),
            section@.len() == 12 + 5 * self.tracks@.len(),
    {
        let clock_pid: u16 = match self.pcr_track {
            Some(i) => if i < self.tracks.len() {
                self.tracks[i].pid
            } else {
                NULL_PID
            },
            None => NULL_PID,
        };
        let mut body: Vec<u8> = Vec::new();
        bytes_util::append_be16(&mut body, RESERVED_3 | clock_pid);
        // Four reserved bits, two zeroed length bits, then a
        // program_info_length of zero: no program level descriptors.
        bytes_util::append_be16(&mut body, EMPTY_INFO_LENGTH);
        let ghost head = bytes_util::be16(RESERVED_3 | clock_pid) + bytes_util::be16(
            EMPTY_INFO_LENGTH,
        );
        let mut i: usize = 0;
        assert(body@ =~= head + pmt_entries(self.tracks@, 0));
        while i < self.tracks.len()
            invariant
                i <= self.tracks@.len(),
                body@ == head + pmt_entries(self.tracks@, i as nat),
            decreases self.tracks@.len() - i,
        {
            let ghost before = body@;
            let track = self.tracks[i];
            body.push(track.kind.id());
            bytes_util::append_be16(&mut body, RESERVED_3 | track.pid);
            // As above, but ES_info_length: no per stream descriptors.
            bytes_util::append_be16(&mut body, EMPTY_INFO_LENGTH);
            i += 1;
            assert(body@ =~= head + pmt_entries(self.tracks@, i as nat));
        }
        proof {
            lemma_pmt_entries_len(self.tracks@, self.tracks@.len());
        }
        psi_section(0x02, PROGRAM_NUMBER, body.as_slice())
    }

    /// Append one access unit as a PES packet.
    ///
    /// `pts_us` is a presentation timestamp in microseconds on whatever
    /// timeline the caller is keeping; only differences matter. `payload` must
    /// already be in the framing the stream type implies.
    ///
    /// `random_access` marks a point a decoder can start from: it drives both
    /// the adaptation field's `random_access_indicator` and PAT/PMT repetition.
    ///
    /// An empty payload writes nothing and changes nothing.
    pub fn write_frame(
        &mut self,
        track: TrackId,
        pts_us: u64,
        random_access: bool,
        payload: &[u8],
        out: &mut Vec<u8>,
    )
        requires
            payload@.len() + 14 <= usize::MAX,
            payload@.len() > 0 && old(self).tables_due(clock_of(pts_us), random_access)
                ==> old(self).tracks@.len() <= MAX_TRACKS,
        ensures
            payload@.len() == 0 ==> *final(self) == *old(self) && final(out)@ == old(out)@,
            payload@.len() > 0 ==> {
                let clock = clock_of(pts_us);
                let due = old(self).tables_due(clock, random_access);
                &&& final(out)@ == old(out)@ + (if due {
                    old(self).psi_bytes()
                } else {
                    Seq::empty()
                }) + old(self).frame_bytes(track, pts_us, random_access, payload@)
                &&& final(self).tracks@ == old(self).tracks_after(track, random_access, payload@)
                &&& final(self).pcr_track == old(self).pcr_track
                &&& final(self).last_psi == if due {
                    Some(clock)
                } else {
                    old(self).last_psi
                }
                &&& final(self).pat_continuity == counter_after(
                    old(self).pat_continuity,
                    if due {
                        1
                    } else {
                        0
                    },
                )
                &&& final(self).pmt_continuity == counter_after(
                    old(self).pmt_continuity,
                    if due {
                        1
                    } else {
                        0
                    },
                )
            },
            old(self).wf() ==> final(self).wf(),
    {
        if payload.len() == 0 {
            return;
        }
        let ghost before = out@;
        // The PES clock. PTS runs PTS_LEAD ahead of it; see PTS_LEAD.
        let scaled: u64 = match pts_us.checked_mul(9) {
            Some(product) => product,
            None => u64::MAX,
        };
        let clock: u64 = (scaled / 100) & TIMESTAMP_MASK;
        proof {
            lemma_mask_is_mod((scaled / 100) as u64);
        }
        let pts: u64 = (clock + PTS_LEAD) & TIMESTAMP_MASK;
        proof {
            lemma_mask_is_mod((clock + PTS_LEAD) as u64);
        }
        let due: bool = self.psi_due(clock, random_access);
        if due {
            self.write_psi(out);
            self.last_psi = Some(clock);
        } else {
            assert(out@ =~= before + Seq::<u8>::empty());
        }
        let ghost between = out@;
        if track.0 < self.tracks.len() {
            let mut t: Track = self.tracks[track.0];
            let mut header: Vec<u8> = Vec::with_capacity(14);
            // Packet start code prefix and stream id.
            header.push(0);
            header.push(0);
            header.push(1);
            header.push(t.kind.stream_id());
            // Zero means "unbounded", which makes the consumer wait for the
            // next packet to know the frame ended, so a real length is set
            // whenever one fits.
            let body: usize = 3 + 5 + payload.len();
            let length: u16 = if body <= 0xFFFF {
                body as u16
            } else {
                0
            };
            bytes_util::append_be16(&mut header, length);
            header.push(0x80);  // '10' marker, no scrambling, no priority
            header.push(0x80);  // PTS present, DTS absent
            header.push(5);  // PES_header_data_length: just the PTS
            let mut stamp: [u8; 5] = [0, 0, 0, 0, 0];
            write_timestamp(&mut stamp, 0x02, pts);
            bytes_util::append_bytes(&mut header, &stamp);
            assert(header@ =~= pes_header(t.kind, payload@.len(), pts));
            let pcr: Option<u64> = if self.pcr_track == Some(track.0) {
                Some(clock)
            } else {
                None
            };
            proof {
                if pcr is Some {
                    lemma_count_ignores_clock(14 + payload@.len(), random_access, clock, 0);
                }
            }
            emit_packets(
                &mut t,
                Chain::new(header.as_slice(), payload),
                pcr,
                random_access,
                out,
            );
            self.tracks.set(track.0, t);
            proof {
                assert(self.tracks@ =~= old(self).tracks_after(track, random_access, payload@));
                assert(self.kinds() =~= old(self).kinds());
            }
        } else {
            assert(self.tracks@ =~= old(self).tracks_after(track, random_access, payload@));
            assert(out@ =~= between + Seq::<u8>::empty());
        }
    }
}

proof fn lemma_mask_is_mod(value: u64)
    ensures
        value & TIMESTAMP_MASK == value % 0x2_0000_0000,
{
    assert(value & 0x1_FFFF_FFFF == value % 0x2_0000_0000) by (bit_vector);
}

proof fn lemma_count_ignores_clock(len: nat, random_access: bool, a: u64, b: u64)
    ensures
        packet_count(len, random_access, Some(a)) == packet_count(len, random_access, Some(b)),
{
    assert(chunk_len(len, random_access, Some(a)) == chunk_len(len, random_access, Some(b)));
}

/// The PID in a packet's transport header.
pub open spec fn read_pid(packet: Seq<u8>) -> u16 {
    ((packet[1] & 0x1F) as u16) << 8 | packet[2] as u16
}

/// Whether a packet starts a payload unit.
pub open spec fn read_start(packet: Seq<u8>) -> bool {
    packet[1] & 0x40 != 0
}

/// The continuity counter in a packet's transport header.
pub open spec fn read_counter(packet: Seq<u8>) -> u8 {
    packet[3] & 0x0F
}

/// Whether a packet has an adaptation field.
pub open spec fn has_adaptation(packet: Seq<u8>) -> bool {
    packet[3] & 0x20 != 0
}

/// Whether a packet carries payload.
pub open spec fn has_payload(packet: Seq<u8>) -> bool {
    packet[3] & 0x10 != 0
}

/// What a reader takes the payload of a packet to be.
pub open spec fn read_payload(packet: Seq<u8>) -> Seq<u8> {
    if has_adaptation(packet) {
        packet.skip(5 + packet[4] as int)
    } else {
        packet.skip(4)
    }
}

/// Whether a packet's adaptation field marks a random access point.
pub open spec fn read_random_access(packet: Seq<u8>) -> bool {
    has_adaptation(packet) && packet[4] > 0 && packet[5] & 0x40 != 0
}

/// The clock in a packet's adaptation field, if it carries one.
pub open spec fn read_clock(packet: Seq<u8>) -> Option<u64> {
    if has_adaptation(packet) && packet[4] > 0 && packet[5] & 0x10 != 0 {
        Some(read_pcr(packet.subrange(6, 12)))
    } else {
        None
    }
}

/// The payloads of all packets of a stream, in order.
pub open spec fn read_payloads(stream: Seq<u8>) -> Seq<u8>
    decreases stream.len(),
{
    if stream.len() < TS_PACKET_SIZE {
        Seq::empty()
    } else {
        read_payload(stream.take(TS_PACKET_SIZE as int)) + read_payloads(
            stream.skip(TS_PACKET_SIZE as int),
        )
    }
}

/// Whether a stream is a run of whole packets on one PID, each in sync and
/// carrying payload, the first starting a unit as `start` says and no other,
/// with counters that count up from `counter` and wrap at sixteen.
pub open spec fn is_run(stream: Seq<u8>, pid: u16, counter: nat, start: bool) -> bool
    decreases stream.len(),
{
    stream.len() == 0 || {
        let packet = stream.take(TS_PACKET_SIZE as int);
        &&& stream.len() >= TS_PACKET_SIZE
        &&& packet[0] == SYNC_BYTE
        &&& read_pid(packet) == pid
        &&& read_start(packet) == start
        &&& has_payload(packet)
        &&& read_counter(packet) == counter % 16
        &&& is_run(stream.skip(TS_PACKET_SIZE as int), pid, counter + 1, false)
    }
}

proof fn lemma_header_reads(pid: u16, continuity: u8, start: bool, padded: bool)
    requires
        pid < 0x2000,
    ensures
        ({
            let word = (if start { PUSI } else { 0 }) | pid;
            let b1 = (word >> 8) as u8;
            let b2 = (word & 0xFF) as u8;
            let b3 = (if padded { 0x30u8 } else { 0x10u8 }) | (continuity & 0x0F);
            &&& ((b1 & 0x1F) as u16) << 8 | b2 as u16 == pid
            &&& (b1 & 0x40 != 0) == start
            &&& b3 & 0x0F == continuity % 16
            &&& (b3 & 0x20 != 0) == padded
            &&& b3 & 0x10 != 0
        }),
{
    let word = (if start { PUSI } else { 0 }) | pid;
    let b1 = (word >> 8) as u8;
    let b2 = (word & 0xFF) as u8;
    let tag = if padded { 0x30u8 } else { 0x10u8 };
    let b3 = tag | (continuity & 0x0F);
    assert(((b1 & 0x1F) as u16) << 8 | b2 as u16 == pid && (b1 & 0x40 != 0) == start) by (bit_vector)
        requires
            pid < 0x2000,
            word == (if start { 0x4000u16 } else { 0u16 }) | pid,
            b1 == (word >> 8) as u8,
            b2 == (word & 0xFF) as u8,
    ;
    assert(b3 & 0x0F == continuity % 16 && (b3 & 0x20 != 0) == padded && b3 & 0x10 != 0)
        by (bit_vector)
        requires
            tag == if padded { 0x30u8 } else { 0x10u8 },
            b3 == tag | (continuity & 0x0F),
    ;
}

proof fn lemma_es_packet_reads(
    pid: u16,
    continuity: u8,
    start: bool,
    random_access: bool,
    pcr: Option<u64>,
    chunk: Seq<u8>,
)
    requires
        pid < 0x2000,
        0 < chunk.len() <= TS_PAYLOAD_SIZE - flag_room(random_access, pcr),
    ensures
        ({
            let packet = es_packet(pid, continuity, start, random_access, pcr, chunk);
            &&& packet.len() == TS_PACKET_SIZE
            &&& packet[0] == SYNC_BYTE
            &&& read_pid(packet) == pid
            &&& read_start(packet) == start
            &&& has_payload(packet)
            &&& read_counter(packet) == continuity % 16
            &&& read_payload(packet) == chunk
            &&& read_random_access(packet) == random_access
            &&& read_clock(packet) == match pcr {
                Some(base) => Some(base & TIMESTAMP_MASK),
                None => None,
            }
        }),
{
    let packet = es_packet(pid, continuity, start, random_access, pcr, chunk);
    let field = (TS_PAYLOAD_SIZE - chunk.len()) as nat;
    let adaptation = adaptation_field(field, random_access, pcr);
    lemma_header_reads(pid, continuity, start, field > 0);
    assert(adaptation.len() == field);
    assert(packet.len() == TS_PACKET_SIZE);
    assert(packet.skip(4 + field as int) =~= chunk);
    let flags = (if random_access { 0x40u8 } else { 0u8 }) | (if pcr is Some { 0x10u8 } else { 0u8 });
    let with_pcr = pcr is Some;
    assert((flags & 0x40 != 0) == random_access && (flags & 0x10 != 0) == with_pcr)
        by (bit_vector)
        requires
            flags == (if random_access { 0x40u8 } else { 0u8 }) | (if with_pcr {
                0x10u8
            } else {
                0u8
            }),
    ;
    if field > 1 {
        assert(packet[4] == adaptation[0] && packet[5] == adaptation[1]);
        if let Some(base) = pcr {
            assert(packet.subrange(6, 12) =~= pcr_bytes(base));
            law_pcr_round_trip(base);
        }
    } else if field == 1 {
        assert(packet[4] == adaptation[0]);
    }
}

/// The packets of a frame are a run on its PID: whole, in sync, counted, with
/// only the first marked as a start; their number is [`packet_count`], and
/// their payloads joined are the data that went in.
pub proof fn law_packets_reassemble(
    pid: u16,
    continuity: u8,
    data: Seq<u8>,
    start: bool,
    random_access: bool,
    pcr: Option<u64>,
)
    requires
        pid < 0x2000,
    ensures
        ({
            let stream = es_packets(pid, continuity, data, start, random_access, pcr);
            &&& stream.len() == TS_PACKET_SIZE * packet_count(data.len(), random_access, pcr)
            &&& is_run(stream, pid, continuity as nat, start)
            &&& read_payloads(stream) == data
        }),
    decreases data.len(),
{
    let stream = es_packets(pid, continuity, data, start, random_access, pcr);
    if data.len() == 0 {
        assert(read_payloads(stream) =~= data);
    } else {
        let n = chunk_len(data.len(), random_access, pcr) as int;
        let next = counter_after(continuity, 1);
        let packet = es_packet(pid, continuity, start, random_access, pcr, data.take(n));
        let rest = es_packets(pid, next, data.skip(n), false, false, None);
        lemma_es_packet_reads(pid, continuity, start, random_access, pcr, data.take(n));
        law_packets_reassemble(pid, next, data.skip(n), false, false, None);
        assert(stream.take(TS_PACKET_SIZE as int) =~= packet);
        assert(stream.skip(TS_PACKET_SIZE as int) =~= rest);
        assert(data.take(n) + data.skip(n) =~= data);
        lemma_run_counter(rest, pid, next as nat, (continuity + 1) as nat, false);
    }
}

proof fn lemma_run_counter(stream: Seq<u8>, pid: u16, a: nat, b: nat, start: bool)
    requires
        is_run(stream, pid, a, start),
        a % 16 == b % 16,
    ensures
        is_run(stream, pid, b, start),
    decreases stream.len(),
{
    if stream.len() > 0 {
        lemma_run_counter(stream.skip(TS_PACKET_SIZE as int), pid, a + 1, b + 1, false);
    }
}

/// What a frame's packets say to a reader: the first carries the random access
/// mark and the clock it was given, and the joined payloads are the PES header
/// followed by exactly the payload.
pub proof fn law_frame_round_trip(
    muxer: TsMuxer,
    track: TrackId,
    pts_us: u64,
    random_access: bool,
    payload: Seq<u8>,
)
    requires
        muxer.wf(),
        muxer.tracks@.len() <= MAX_TRACKS,
        track.0 < muxer.tracks@.len(),
    ensures
        ({
            let t = muxer.tracks@[track.0 as int];
            let stream = muxer.frame_bytes(track, pts_us, random_access, payload);
            let first = stream.take(TS_PACKET_SIZE as int);
            let pes = read_payloads(stream);
            let clock = clock_of(pts_us);
            &&& is_run(stream, t.pid, t.continuity as nat, true)
            &&& read_random_access(first) == random_access
            &&& read_clock(first) == (if muxer.pcr_track == Some(track.0) {
                Some(clock)
            } else {
                None
            })
            &&& pes.skip(14) == payload
            &&& pes.take(3) == seq![0u8, 0u8, 1u8]
            &&& pes[3] == pes_stream_id(t.kind)
            &&& read_timestamp(pes.subrange(9, 14)) == pts_of(clock)
        }),
{
    let t = muxer.tracks@[track.0 as int];
    let clock = clock_of(pts_us);
    let pts = pts_of(clock);
    let pcr = if muxer.pcr_track == Some(track.0) {
        Some(clock)
    } else {
        None
    };
    let header = pes_header(t.kind, payload.len(), pts);
    let data = header + payload;
    let stream = muxer.frame_bytes(track, pts_us, random_access, payload);
    law_packets_reassemble(t.pid, t.continuity, data, true, random_access, pcr);
    let n = chunk_len(data.len(), random_access, pcr) as int;
    lemma_es_packet_reads(t.pid, t.continuity, true, random_access, pcr, data.take(n));
    assert(stream.take(TS_PACKET_SIZE as int) =~= es_packet(
        t.pid,
        t.continuity,
        true,
        random_access,
        pcr,
        data.take(n),
    ));
    lemma_mask_is_mod(clock);
    lemma_mask_is_mod(pts);
    assert(data.skip(14) =~= payload);
    assert(data.take(3) =~= seq![0u8, 0u8, 1u8]);
    assert(data.subrange(9, 14) =~= timestamp_bytes(0x02, pts));
    law_timestamp_round_trip(0x02, pts);
}

/// Each of the two tables is one packet, in sync, on its own PID, and starts a
/// payload unit; its counter is the one it was given.
pub proof fn law_psi_packet_is_one_packet(pid: u16, continuity: u8, section: Seq<u8>)
    requires
        pid < 0x2000,
        section.len() + 9 <= TS_PACKET_SIZE,
    ensures
        psi_packet(pid, continuity, section).len() == TS_PACKET_SIZE,
        is_run(psi_packet(pid, continuity, section), pid, continuity as nat, true),
        read_payload(psi_packet(pid, continuity, section)).subrange(1, 1 + section.len() as int)
            == section,
{
    let packet = psi_packet(pid, continuity, section);
    reveal_with_fuel(is_run, 2);
    lemma_header_reads(pid, continuity, true, false);
    assert(packet.take(TS_PACKET_SIZE as int) =~= packet);
    assert(packet.skip(TS_PACKET_SIZE as int) =~= Seq::<u8>::empty());
    assert(read_payload(packet).subrange(1, 1 + section.len() as int) =~= section);
}

/// Counters carry on from one frame to the next on the same track, so that
/// two frames one after the other are a single run but for the second start.
pub proof fn law_counters_carry_on(
    muxer: TsMuxer,
    track: TrackId,
    random_access: bool,
    payload: Seq<u8>,
    pcr: Option<u64>,
)
    requires
        track.0 < muxer.tracks@.len(),
        pcr is Some <==> muxer.pcr_track == Some(track.0),
    ensures
        muxer.tracks_after(track, random_access, payload)[track.0 as int].continuity % 16 == (
        muxer.tracks@[track.0 as int].continuity + packet_count(
            14 + payload.len(),
            random_access,
            pcr,
        )) % 16,
        forall|j: int|
            0 <= j < muxer.tracks@.len() && j != track.0
                ==> #[trigger] muxer.tracks_after(track, random_access, payload)[j]
                == muxer.tracks@[j],
{
    if let Some(base) = pcr {
        lemma_count_ignores_clock(14 + payload.len(), random_access, base, 0);
    }
}

/// The presentation time of a frame is always the lead ahead of its clock, on
/// the 33-bit circle.
pub proof fn law_pts_leads_clock(pts_us: u64)
    ensures
        (pts_of(clock_of(pts_us)) - clock_of(pts_us)) % 0x2_0000_0000 == PTS_LEAD,
        pts_of(clock_of(pts_us)) <= TIMESTAMP_MASK,
{
    let clock = clock_of(pts_us);
    if clock + PTS_LEAD >= 0x2_0000_0000 {
        assert(pts_of(clock) == clock + PTS_LEAD - 0x2_0000_0000);
        assert((pts_of(clock) - clock) % 0x2_0000_0000 == PTS_LEAD);
    }
}

/// A frame written without the tables in front of it is no keyframe, and lies
/// less than [`PSI_INTERVAL`] after the tables written last.
pub proof fn law_tables_repeat(muxer: TsMuxer, clock: u64, random_access: bool)
    requires
        !muxer.tables_due(clock, random_access),
    ensures
        !random_access,
        muxer.last_psi matches Some(last) && (clock - last) % 0x2_0000_0000 < PSI_INTERVAL,
{
}

proof fn lemma_pid_word(pid: u16)
    requires
        pid < 0x2000,
    ensures
        ((0xE000u16 | pid) >> 8) as u8 & 0x1F == pid / 256,
        ((0xE000u16 | pid) & 0xFF) as u8 == pid % 256,
{
    let word = 0xE000u16 | pid;
    assert((word >> 8) as u8 & 0x1F == pid / 256 && (word & 0xFF) as u8 == pid % 256) by (bit_vector)
        requires
            pid < 0x2000,
            word == 0xE000u16 | pid,
    ;
}

proof fn lemma_pmt_entry(tracks: Seq<Track>, count: nat, i: int)
    requires
        0 <= i < count <= tracks.len(),
        tracks[i].pid < 0x2000,
    ensures
        ({
            let entries = pmt_entries(tracks, count);
            &&& entries.len() == 5 * count
            &&& entries[5 * i] == stream_type_byte(tracks[i].kind)
            &&& entries[5 * i + 1] & 0x1F == tracks[i].pid / 256
            &&& entries[5 * i + 2] == tracks[i].pid % 256
            &&& entries[5 * i + 4] == 0
        }),
    decreases count,
{
    let before = pmt_entries(tracks, (count - 1) as nat);
    let entries = pmt_entries(tracks, count);
    lemma_pmt_entries_len(tracks, count);
    lemma_pmt_entries_len(tracks, (count - 1) as nat);
    if i < count - 1 {
        lemma_pmt_entry(tracks, (count - 1) as nat, i);
        assert(entries[5 * i] == before[5 * i]);
        assert(entries[5 * i + 1] == before[5 * i + 1]);
        assert(entries[5 * i + 2] == before[5 * i + 2]);
        assert(entries[5 * i + 4] == before[5 * i + 4]);
    } else {
        lemma_pid_word(tracks[i].pid);
        assert((0xF000u16 & 0xFF) as u8 == 0) by (bit_vector);
    }
}

/// The tables in front of a frame are two packets. The first says that program
/// one is described on PID 0x1000; the second, on that PID, lists every track in
/// order, on PIDs counted up from 0x100, each under the `stream_type` that is
/// registered for its codec, so that no two codecs are taken for each other.
pub proof fn law_tables_name_every_codec(muxer: TsMuxer, i: int, j: int)
    requires
        muxer.wf(),
        muxer.tracks@.len() <= 33,
        0 <= i < muxer.tracks@.len(),
        0 <= j < muxer.tracks@.len(),
    ensures
        ({
            let pat = muxer.psi_bytes().take(188);
            let pmt = muxer.psi_bytes().skip(188);
            let kind = muxer.kinds()[i];
            &&& muxer.psi_bytes().len() == 376
            &&& read_pid(pat) == 0
            &&& pat[5] == 0x00
            &&& pat[13] == 0 && pat[14] == 1
            &&& pat[15] & 0x1F == 0x10 && pat[16] == 0x00
            &&& read_pid(pmt) == 0x1000
            &&& pmt[5] == 0x02
            &&& pmt[17 + 5 * i] == 0x1B <==> kind == StreamType::H264
            &&& pmt[17 + 5 * i] == 0x24 <==> kind == StreamType::H265
            &&& pmt[17 + 5 * i] == 0x0F <==> kind == StreamType::Aac
            &&& pmt[17 + 5 * i] == 0x90 <==> kind == StreamType::Pcma
            &&& pmt[18 + 5 * i] & 0x1F == 1 && pmt[19 + 5 * i] == i
            &&& pmt[17 + 5 * i] == pmt[17 + 5 * j] <==> kind == muxer.kinds()[j]
        }),
{
    let tracks = muxer.tracks@;
    let n = tracks.len();
    let first = psi_packet(PAT_PID, muxer.pat_continuity, pat_bytes());
    let section = pmt_bytes(tracks, muxer.pcr_track);
    let second = psi_packet(PMT_PID, muxer.pmt_continuity, section);
    lemma_pmt_entries_len(tracks, n);
    lemma_pmt_entry(tracks, n, i);
    lemma_pmt_entry(tracks, n, j);
    assert(tracks[i].pid == 0x100 + i);
    assert(tracks[j].pid == 0x100 + j);
    lemma_pid_word(0x1000);
    lemma_header_reads(0, muxer.pat_continuity, true, false);
    lemma_header_reads(0x1000, muxer.pmt_continuity, true, false);
    assert(muxer.psi_bytes().take(188) =~= first);
    assert(muxer.psi_bytes().skip(188) =~= second);
    assert((1u16 >> 8) as u8 == 0 && (1u16 & 0xFF) as u8 == 1) by (bit_vector);
    let entries = pmt_entries(tracks, n);
    assert(section[12 + 5 * i] == entries[5 * i]);
    assert(section[13 + 5 * i] == entries[5 * i + 1]);
    assert(section[14 + 5 * i] == entries[5 * i + 2]);
    assert(section[12 + 5 * j] == entries[5 * j]);
    assert(second[17 + 5 * i] == section[12 + 5 * i]);
    assert(second[18 + 5 * i] == section[13 + 5 * i]);
    assert(second[19 + 5 * i] == section[14 + 5 * i]);
    assert(second[17 + 5 * j] == section[12 + 5 * j]);
}

/// The clock runs on the first track of H264 or H265 video, and where there is
/// none on the very first track; the PMT says on which PID.
pub proof fn law_clock_follows_video(muxer: TsMuxer, i: int)
    requires
        muxer.wf(),
        muxer.tracks@.len() <= 33,
        0 <= i < muxer.tracks@.len(),
        forall|j: int|
            0 <= j < i ==> #[trigger] muxer.kinds()[j] == StreamType::Aac || muxer.kinds()[j]
                == StreamType::Pcma,
        muxer.kinds()[i] == StreamType::H264 || muxer.kinds()[i] == StreamType::H265 || (i == 0
            && forall|j: int|
            0 <= j < muxer.tracks@.len() ==> #[trigger] muxer.kinds()[j] == StreamType::Aac
                || muxer.kinds()[j] == StreamType::Pcma),
    ensures
        muxer.pcr_track == Some(i as usize),
        ({
            let pmt = muxer.psi_bytes().skip(188);
            pmt[13] & 0x1F == 1 && pmt[14] == i
        }),
{
    let at = muxer.pcr_track->0 as int;
    assert(carries_clock(muxer.kinds(), at));
    if muxer.kinds()[i] == StreamType::H264 || muxer.kinds()[i] == StreamType::H265 {
        assert(carries_video(muxer.kinds()[i]));
        if at < i {
            assert(carries_video(muxer.kinds()[at]));
        }
    } else {
        assert(forall|j: int|
            0 <= j < muxer.tracks@.len() ==> !carries_video(#[trigger] muxer.kinds()[j]));
    }
    assert(at == i);
    let tracks = muxer.tracks@;
    assert(tracks[i].pid == 0x100 + i);
    lemma_pmt_entries_len(tracks, tracks.len());
    lemma_pid_word(tracks[i].pid);
    let first = psi_packet(PAT_PID, muxer.pat_continuity, pat_bytes());
    let section = pmt_bytes(tracks, muxer.pcr_track);
    let second = psi_packet(PMT_PID, muxer.pmt_continuity, section);
    assert(muxer.psi_bytes().skip(188) =~= second);
    assert(second[13] == section[8] && second[14] == section[9]);
}

/// What the packets of a frame carry, in the numbers of the format: the PES start
/// code, 0xE0 for video and 0xC0 for audio, the length of what follows where it
/// fits sixteen bits and zero where it does not, and a time that is the frame's
/// own on a 90 kHz clock, a fifth of a second ahead of the clock in the stream.
pub proof fn law_frames_carry_their_time(
    muxer: TsMuxer,
    track: TrackId,
    pts_us: u64,
    random_access: bool,
    payload: Seq<u8>,
)
    requires
        muxer.wf(),
        muxer.tracks@.len() <= 33,
        track.0 < muxer.tracks@.len(),
        pts_us * 9 <= u64::MAX,
    ensures
        ({
            let stream = muxer.frame_bytes(track, pts_us, random_access, payload);
            let pes = read_payloads(stream);
            let kind = muxer.kinds()[track.0 as int];
            let ticks = pts_us * 9 / 100;
            &&& pes.len() == 14 + payload.len()
            &&& pes[0] == 0 && pes[1] == 0 && pes[2] == 1
            &&& pes[3] == (if kind == StreamType::H264 || kind == StreamType::H265 {
                0xE0u8
            } else {
                0xC0u8
            })
            &&& pes[4] * 256 + pes[5] == (if payload.len() + 8 < 0x1_0000 {
                payload.len() + 8
            } else {
                0
            })
            &&& pes[6] == 0x80 && pes[7] == 0x80 && pes[8] == 5
            &&& read_timestamp(pes.subrange(9, 14)) == (ticks % 0x2_0000_0000 + 18000)
                % 0x2_0000_0000
            &&& forall|i: int| 0 <= i < payload.len() ==> #[trigger] pes[14 + i] == payload[i]
            &&& read_clock(stream.take(188)) == (if muxer.pcr_track == Some(track.0) {
                Some((ticks % 0x2_0000_0000) as u64)
            } else {
                None
            })
            &&& read_random_access(stream.take(188)) == random_access
            &&& read_pid(stream.take(188)) == 0x100 + track.0
        }),
{
    law_frame_round_trip(muxer, track, pts_us, random_access, payload);
    let t = muxer.tracks@[track.0 as int];
    let clock = clock_of(pts_us);
    let pcr = if muxer.pcr_track == Some(track.0) {
        Some(clock)
    } else {
        None
    };
    let data = pes_header(t.kind, payload.len(), pts_of(clock)) + payload;
    law_packets_reassemble(t.pid, t.continuity, data, true, random_access, pcr);
    lemma_pes_bytes(t.kind, payload, pts_of(clock));
    let stream = muxer.frame_bytes(track, pts_us, random_access, payload);
    assert(read_payloads(stream) == data);
    lemma_first_packet(stream, t.pid, t.continuity as nat);
    assert(pts_us * 9 / 100 % 0x2_0000_0000 == clock);
}

proof fn lemma_first_packet(stream: Seq<u8>, pid: u16, counter: nat)
    requires
        is_run(stream, pid, counter, true),
        stream.len() > 0,
    ensures
        read_pid(stream.take(188)) == pid,
{
}

proof fn lemma_pes_bytes(kind: StreamType, payload: Seq<u8>, pts: u64)
    ensures
        ({
            let pes = pes_header(kind, payload.len(), pts) + payload;
            &&& pes.len() == 14 + payload.len()
            &&& pes[0] == 0 && pes[1] == 0 && pes[2] == 1
            &&& pes[3] == pes_stream_id(kind)
            &&& pes[4] * 256 + pes[5] == (if payload.len() + 8 < 0x1_0000 {
                payload.len() + 8
            } else {
                0
            })
            &&& pes[6] == 0x80 && pes[7] == 0x80 && pes[8] == 5
            &&& forall|i: int| 0 <= i < payload.len() ==> #[trigger] pes[14 + i] == payload[i]
        }),
{
    let length = if payload.len() + 8 <= u16::MAX {
        (payload.len() + 8) as u16
    } else {
        0
    };
    let high = (length >> 8) as u8;
    let low = (length & 0xFF) as u8;
    assert(high as u16 * 256 + low as u16 == length) by (bit_vector)
        requires
            high == (length >> 8) as u8,
            low == (length & 0xFF) as u8,
    ;
    let pes = pes_header(kind, payload.len(), pts) + payload;
    assert(pes[4] == high && pes[5] == low);
}

/// The tables go in front of the first frame of all, of every keyframe, and of
/// every frame a tenth of a second or more behind the last tables; of no other.
pub proof fn law_tables_are_due_in_time(muxer: TsMuxer, clock: u64, random_access: bool)
    ensures
        muxer.last_psi is None ==> muxer.tables_due(clock, random_access),
        random_access ==> muxer.tables_due(clock, random_access),
        muxer.last_psi matches Some(last) ==> (!random_access && last <= clock < 0x2_0000_0000 ==> (
        muxer.tables_due(clock, random_access) <==> clock - last >= 9000)),
{
    if let Some(last) = muxer.last_psi {
        if last <= clock && clock < 0x2_0000_0000 {
            assert((clock - last) % 0x2_0000_0000 == clock - last);
        }
    }
}

} // verus!

//! ONVIF Media service: the profiles of a camera, and the RTSP and snapshot URIs
//! that point back to the bridge.

use vstd::prelude::*;
use vstd::string::*;
use crate::config::AudioFormat;
use crate::onvif::capabilities::CameraCapabilities;
use crate::onvif::services::device;
use crate::onvif::services::device::{FaultBody, SystemGeneral};
use crate::onvif::services::osd;
use crate::onvif::services::ptz;
use crate::onvif::soap;
use crate::onvif::soap::FaultCode;
use crate::onvif::state;
use crate::onvif::state::OnvifStream;
use crate::text;
use crate::xml;

verus! {

/// What a camera says about one of its streams.
#[derive(Debug)]
pub struct EncodeTable {
    pub name: String,
    pub width: u32,
    pub height: u32,
    pub default_framerate: u32,
    pub default_bitrate: u32,
    /// The frame rates it offers, with commas between them.
    pub framerate_table: String,
    /// The bit rates it offers, with commas between them.
    pub bitrate_table: String,
}

/// Per-stream descriptor used to build profile XML.
#[derive(Debug)]
pub struct StreamDesc {
    pub stream: OnvifStream,
    pub width: u32,
    pub height: u32,
    pub framerate: u32,
    pub bitrate_kbps: u32,
    /// Every framerate the camera lists for this stream; empty when the camera
    /// did not answer.
    pub framerates: Vec<u32>,
    /// Every bitrate the camera lists for this stream, in kbps.
    pub bitrates: Vec<u32>,
}

/// A descriptor, its lists as sequences.
#[verifier::ext_equal]
pub struct StreamDescView {
    pub stream: OnvifStream,
    pub width: u32,
    pub height: u32,
    pub framerate: u32,
    pub bitrate_kbps: u32,
    pub framerates: Seq<u32>,
    pub bitrates: Seq<u32>,
}

impl View for StreamDesc {
    type V = StreamDescView;

    open spec fn view(&self) -> StreamDescView {
        StreamDescView {
            stream: self.stream,
            width: self.width,
            height: self.height,
            framerate: self.framerate,
            bitrate_kbps: self.bitrate_kbps,
            framerates: self.framerates@,
            bitrates: self.bitrates@,
        }
    }
}

/// Descriptors, their lists as sequences.
pub open spec fn descs_view(descs: Seq<StreamDesc>) -> Seq<StreamDescView> {
    descs.map_values(|d: StreamDesc| d@)
}

/// What a stream is described as when the camera did not say.
pub open spec fn fallback_desc(stream: OnvifStream) -> StreamDescView {
    let (width, height, framerate, bitrate_kbps) = match stream {
        OnvifStream::Main => (2560u32, 1440u32, 25u32, 4096u32),
        OnvifStream::Sub => (640u32, 480u32, 15u32, 512u32),
        OnvifStream::Extern => (1280u32, 720u32, 20u32, 1024u32),
    };
    StreamDescView {
        stream,
        width,
        height,
        framerate,
        bitrate_kbps,
        framerates: Seq::empty(),
        bitrates: Seq::empty(),
    }
}

/// A number put in its place among others that grow; one that is there already
/// stays alone.
pub open spec fn inserted(sorted: Seq<u32>, v: u32) -> Seq<u32>
    decreases sorted.len(),
{
    if sorted.len() == 0 || v < sorted[0] {
        seq![v] + sorted
    } else if v == sorted[0] {
        sorted
    } else {
        seq![sorted[0]] + inserted(sorted.drop_first(), v)
    }
}

/// The positive ones among some numbers, sorted, each once.
pub open spec fn sorted_positives(values: Seq<u32>) -> Seq<u32>
    decreases values.len(),
{
    if values.len() == 0 {
        Seq::empty()
    } else {
        let before = sorted_positives(values.drop_last());
        if values.last() > 0 {
            inserted(before, values.last())
        } else {
            before
        }
    }
}

/// The values that can be selected: those that are offered, and the current one.
pub open spec fn options_of(values: Seq<u32>, current: u32) -> Seq<u32> {
    inserted(sorted_positives(values), current)
}

/// Whether numbers grow.
pub open spec fn growing(values: Seq<u32>) -> bool {
    forall|i: int, j: int| 0 <= i < j < values.len() ==> #[trigger] values[i] < #[trigger] values[j]
}

proof fn lemma_inserted(sorted: Seq<u32>, v: u32)
    requires
        growing(sorted),
    ensures
        growing(inserted(sorted, v)),
        forall|x: u32| #[trigger] inserted(sorted, v).contains(x) <==> x == v || sorted.contains(x),
    decreases sorted.len(),
{
    let result = inserted(sorted, v);
    if sorted.len() == 0 || v < sorted[0] {
        assert(result[0] == v);
        assert forall|x: u32| #[trigger] result.contains(x) <==> x == v || sorted.contains(x) by {
            if sorted.contains(x) {
                let i = choose|i: int| 0 <= i < sorted.len() && sorted[i] == x;
                assert(result[i + 1] == x);
            }
            if result.contains(x) && x != v {
                let i = choose|i: int| 0 <= i < result.len() && result[i] == x;
                assert(sorted[i - 1] == x);
            }
        }
    } else if v == sorted[0] {
        assert(sorted.contains(v));
    } else {
        let rest = sorted.drop_first();
        assert(growing(rest)) by {
            assert forall|i: int, j: int| 0 <= i < j < rest.len() implies #[trigger] rest[i]
                < #[trigger] rest[j] by {
                assert(sorted[i + 1] < sorted[j + 1]);
            }
        }
        lemma_inserted(rest, v);
        let tail = inserted(rest, v);
        assert forall|j: int| 0 <= j < tail.len() implies sorted[0] < #[trigger] tail[j] by {
            assert(tail.contains(tail[j]));
            if tail[j] != v {
                let k = choose|k: int| 0 <= k < rest.len() && rest[k] == tail[j];
                assert(sorted[0] < sorted[k + 1]);
            }
        }
        assert forall|i: int, j: int| 0 <= i < j < result.len() implies #[trigger] result[i]
            < #[trigger] result[j] by {
            if i > 0 {
                assert(tail[i - 1] < tail[j - 1]);
            }
        }
        assert forall|x: u32| #[trigger] result.contains(x) <==> x == v || sorted.contains(x) by {
            if result.contains(x) {
                let i = choose|i: int| 0 <= i < result.len() && result[i] == x;
                if i > 0 {
                    assert(tail[i - 1] == x);
                    assert(tail.contains(x));
                    if x != v {
                        let k = choose|k: int| 0 <= k < rest.len() && rest[k] == x;
                        assert(sorted[k + 1] == x);
                    }
                } else {
                    assert(sorted[0] == x);
                }
            }
            if sorted.contains(x) {
                let i = choose|i: int| 0 <= i < sorted.len() && sorted[i] == x;
                if i > 0 {
                    assert(rest[i - 1] == x);
                    assert(tail.contains(x));
                    let k = choose|k: int| 0 <= k < tail.len() && tail[k] == x;
                    assert(result[k + 1] == x);
                } else {
                    assert(result[0] == x);
                }
            }
            if x == v {
                assert(tail.contains(v));
                let k = choose|k: int| 0 <= k < tail.len() && tail[k] == v;
                assert(result[k + 1] == v);
            }
        }
    }
}

proof fn lemma_sorted_positives(values: Seq<u32>)
    ensures
        growing(sorted_positives(values)),
        forall|x: u32| #[trigger]
            sorted_positives(values).contains(x) <==> x > 0 && values.contains(x),
    decreases values.len(),
{
    if values.len() > 0 {
        let before = values.drop_last();
        lemma_sorted_positives(before);
        lemma_inserted(sorted_positives(before), values.last());
        assert forall|x: u32| #[trigger] sorted_positives(values).contains(x) <==> x > 0
            && values.contains(x) by {
            if values.contains(x) {
                let i = choose|i: int| 0 <= i < values.len() && values[i] == x;
                if i < before.len() {
                    assert(before[i] == x);
                }
            }
            if before.contains(x) {
                let i = choose|i: int| 0 <= i < before.len() && before[i] == x;
                assert(values[i] == x);
            }
            if x == values.last() {
                assert(values[values.len() - 1] == x);
            }
        }
    }
}

/// The values that can be selected grow, and are those that are offered and not
/// zero, and the current one: what a device reports can always be selected
/// again.
pub proof fn law_options_hold_the_current_value(values: Seq<u32>, current: u32)
    ensures
        growing(options_of(values, current)),
        forall|x: u32| #[trigger]
            options_of(values, current).contains(x) <==> x == current || (x > 0
                && values.contains(x)),
{
    lemma_sorted_positives(values);
    lemma_inserted(sorted_positives(values), current);
}

fn insert_sorted(sorted: &mut Vec<u32>, v: u32)
    ensures
        final(sorted)@ == inserted(old(sorted)@, v),
{
    let ghost before = sorted@;
    let mut i: usize = 0;
    assert(before.take(0) + inserted(before.skip(0), v) =~= inserted(before, v)) by {
        assert(before.skip(0) =~= before);
    }
    while i < sorted.len() && sorted[i] < v
        invariant
            i <= sorted@.len(),
            sorted@ == before,
            before.take(i as int) + inserted(before.skip(i as int), v) == inserted(before, v),
        decreases sorted@.len() - i,
    {
        let ghost rest = before.skip(i as int);
        assert(rest.drop_first() =~= before.skip(i + 1));
        assert(before.take(i as int) + (seq![rest[0]] + inserted(rest.drop_first(), v))
            =~= before.take(i + 1) + inserted(before.skip(i + 1), v));
        i += 1;
    }
    if i < sorted.len() && sorted[i] == v {
        assert(before.take(i as int) + before.skip(i as int) =~= before);
    } else {
        sorted.insert(i, v);
        assert(sorted@ =~= before.take(i as int) + (seq![v] + before.skip(i as int)));
    }
}

/// Sort, dedupe, leave out zeros, and guarantee `current` is present.
pub fn options_including(values: &[u32], current: u32) -> (out: Vec<u32>)
    ensures
        out@ == options_of(values@, current),
{
    let mut out: Vec<u32> = Vec::new();
    let mut i: usize = 0;
    assert(values@.take(0) =~= Seq::empty());
    assert(out@ =~= sorted_positives(values@.take(0)));
    while i < values.len()
        invariant
            i <= values@.len(),
            out@ == sorted_positives(values@.take(i as int)),
        decreases values@.len() - i,
    {
        assert(values@.take(i + 1).drop_last() =~= values@.take(i as int));
        if values[i] > 0 {
            insert_sorted(&mut out, values[i]);
        }
        i += 1;
    }
    assert(values@.take(i as int) =~= values@);
    insert_sorted(&mut out, current);
    out
}

impl StreamDesc {
    /// What a stream is described as when the camera did not say.
    pub fn fallback(stream: OnvifStream) -> (d: Self)
        ensures
            d@ == fallback_desc(stream),
    {
        let (width, height, framerate, bitrate_kbps): (u32, u32, u32, u32) = match stream {
            OnvifStream::Main => (2560, 1440, 25, 4096),
            OnvifStream::Sub => (640, 480, 15, 512),
            OnvifStream::Extern => (1280, 720, 20, 1024),
        };
        let d = StreamDesc {
            stream,
            width,
            height,
            framerate,
            bitrate_kbps,
            framerates: Vec::new(),
            bitrates: Vec::new(),
        };
        assert(d@ =~= fallback_desc(stream));
        d
    }

    /// The framerates to advertise as selectable, always including the current
    /// one.
    pub fn framerate_options(&self) -> (out: Vec<u32>)
        ensures
            out@ == options_of(self.framerates@, self.framerate),
    {
        options_including(self.framerates.as_slice(), self.framerate)
    }

    /// The bitrates to advertise as selectable, always including the current
    /// one.
    pub fn bitrate_options(&self) -> (out: Vec<u32>)
        ensures
            out@ == options_of(self.bitrates@, self.bitrate_kbps),
    {
        options_including(self.bitrates.as_slice(), self.bitrate_kbps)
    }
}

/// The numbers among some texts; what is none is left out.
pub open spec fn numbers_of(parts: Seq<Seq<char>>) -> Seq<u32>
    decreases parts.len(),
{
    if parts.len() == 0 {
        Seq::empty()
    } else {
        let before = numbers_of(parts.drop_last());
        match text::number(text::trimmed(parts.last()), u32::MAX as nat) {
            Some(n) => before.push(n as u32),
            None => before,
        }
    }
}

/// Parse one of Reolink's comma-separated option tables.
pub fn csv_u32(s: &str) -> (out: Vec<u32>)
    ensures
        out@ == numbers_of(text::pieces(s@, ',')),
{
    let parts = text::split(s, ',');
    let ghost all = text::views(parts@);
    let mut out: Vec<u32> = Vec::new();
    let mut i: usize = 0;
    assert(all.take(0) =~= Seq::empty());
    assert(out@ =~= numbers_of(all.take(0)));
    while i < parts.len()
        invariant
            i <= parts@.len(),
            all == text::views(parts@),
            out@ == numbers_of(all.take(i as int)),
        decreases parts@.len() - i,
    {
        assert(all.take(i + 1).drop_last() =~= all.take(i as int));
        assert(all.take(i + 1).last() == parts@[i as int]@);
        match text::parse_number(text::trim(parts[i].as_str()).as_str(), u32::MAX as u64) {
            Some(n) => {
                out.push(n as u32);
            },
            None => {},
        }
        i += 1;
    }
    assert(all.take(i as int) =~= all);
    out
}

/// What a default stands for: an index into its table where it lands inside it,
/// a literal value where it does not. Never zero.
pub open spec fn default_of(table: Seq<u32>, default: u32) -> u32 {
    let value = if default < table.len() {
        table[default as int]
    } else {
        default
    };
    if value >= 1 {
        value
    } else {
        1
    }
}

/// Resolve a `defaultFramerate` / `defaultBitrate` against its table. On most
/// firmwares the number is an index into the matching table, on some it is the
/// value itself.
pub fn resolve_default(table: &[u32], default: u32) -> (value: u32)
    ensures
        value == default_of(table@, default),
{
    let value: u32 = if (default as usize) < table.len() {
        table[default as usize]
    } else {
        default
    };
    if value >= 1 {
        value
    } else {
        1
    }
}

/// The names of the streams that a camera describes.
pub open spec fn table_names(tables: Seq<EncodeTable>) -> Seq<Seq<char>> {
    tables.map_values(|t: EncodeTable| t.name@)
}

/// How a stream is described, given what the camera says.
pub open spec fn desc_of(stream: OnvifStream, tables: Seq<EncodeTable>) -> StreamDescView {
    let at = text::place(table_names(tables), state::stream_reolink_name(stream));
    if at < tables.len() {
        let t = tables[at];
        let framerates = numbers_of(text::pieces(t.framerate_table@, ','));
        let bitrates = numbers_of(text::pieces(t.bitrate_table@, ','));
        StreamDescView {
            stream,
            width: t.width,
            height: t.height,
            framerate: default_of(framerates, t.default_framerate),
            bitrate_kbps: default_of(bitrates, t.default_bitrate),
            framerates,
            bitrates,
        }
    } else {
        fallback_desc(stream)
    }
}

fn describe_stream(stream: OnvifStream, tables: &Vec<EncodeTable>) -> (d: StreamDesc)
    ensures
        d@ == desc_of(stream, tables@),
{
    let ghost names = table_names(tables@);
    let wanted = stream.reolink_name();
    let mut at: usize = 0;
    while at < tables.len()
        invariant_except_break
            forall|j: int| 0 <= j < at ==> #[trigger] names[j] != wanted@,
        invariant
            at <= tables@.len(),
            names == table_names(tables@),
        ensures
            at <= tables@.len(),
            at < tables@.len() ==> names[at as int] == wanted@,
            forall|j: int| 0 <= j < at ==> #[trigger] names[j] != wanted@,
        decreases tables@.len() - at,
    {
        assert(names[at as int] == tables@[at as int].name@);
        if text::same(tables[at].name.as_str(), wanted) {
            break;
        }
        at += 1;
    }
    proof {
        text::lemma_place_is(names, wanted@, at as int);
    }
    if at >= tables.len() {
        return StreamDesc::fallback(stream);
    }
    let t = &tables[at];
    let framerates = csv_u32(t.framerate_table.as_str());
    let bitrates = csv_u32(t.bitrate_table.as_str());
    let framerate: u32 = resolve_default(framerates.as_slice(), t.default_framerate);
    let bitrate_kbps: u32 = resolve_default(bitrates.as_slice(), t.default_bitrate);
    StreamDesc {
        stream,
        width: t.width,
        height: t.height,
        framerate,
        bitrate_kbps,
        framerates,
        bitrates,
    }
}

/// The descriptors of a camera's streams, given what it says about them. A
/// camera that says nothing is described by plausible defaults.
pub fn read_stream_descs(streams: &Vec<OnvifStream>, tables: &Vec<EncodeTable>) -> (descs: Vec<
    StreamDesc,
>)
    ensures
        descs_view(descs@) == streams@.map_values(|s: OnvifStream| desc_of(s, tables@)),
{
    let ghost wanted = streams@.map_values(|s: OnvifStream| desc_of(s, tables@));
    let mut descs: Vec<StreamDesc> = Vec::new();
    let mut i: usize = 0;
    while i < streams.len()
        invariant
            i <= streams@.len(),
            wanted == streams@.map_values(|s: OnvifStream| desc_of(s, tables@)),
            descs_view(descs@) =~= wanted.take(i as int),
        decreases streams@.len() - i,
    {
        let ghost before = descs@;
        descs.push(describe_stream(streams[i], tables));
        assert(descs_view(descs@) =~= descs_view(before).push(wanted[i as int]));
        i += 1;
    }
    assert(wanted.take(i as int) =~= wanted);
    descs
}

/// A stream is never described with a frame rate or a bit rate of zero.
pub proof fn law_rates_are_positive(stream: OnvifStream, tables: Seq<EncodeTable>)
    ensures
        desc_of(stream, tables).framerate >= 1,
        desc_of(stream, tables).bitrate_kbps >= 1,
{
}

/// The token of a profile.
pub open spec fn profile_token_of(cam: Seq<char>, s: OnvifStream) -> Seq<char> {
    "profile_"@ + cam + "_"@ + state::stream_name(s)
}

/// The token of a profile.
pub fn profile_token(cam: &str, s: OnvifStream) -> (token: String)
    ensures
        token@ == profile_token_of(cam@, s),
{
    let mut token = "profile_".to_owned();
    token.append(cam);
    token.append("_");
    token.append(s.token_suffix());
    token
}

/// The token of the configuration of the video source.
pub fn video_source_token(cam: &str) -> (token: String)
    ensures
        token@ == "vs_"@ + cam@,
{
    text::joined("vs_", cam)
}

/// The token of the configuration of a video encoder.
pub open spec fn video_encoder_token_of(cam: Seq<char>, s: OnvifStream) -> Seq<char> {
    "vec_"@ + cam + "_"@ + state::stream_name(s)
}

/// The token of the configuration of a video encoder.
pub fn video_encoder_token(cam: &str, s: OnvifStream) -> (token: String)
    ensures
        token@ == video_encoder_token_of(cam@, s),
{
    let mut token = "vec_".to_owned();
    token.append(cam);
    token.append("_");
    token.append(s.token_suffix());
    token
}

/// The token of the configuration of the audio source.
pub fn audio_source_token(cam: &str) -> (token: String)
    ensures
        token@ == "as_"@ + cam@,
{
    text::joined("as_", cam)
}

/// The token of the configuration of the audio encoder.
pub fn audio_encoder_token(cam: &str) -> (token: String)
    ensures
        token@ == "aec_"@ + cam@,
{
    text::joined("aec_", cam)
}

/// How the camera's configured RTSP audio format is described in ONVIF terms.
///
/// `tt:AudioEncoding` is a closed enum, `G711`, `G726` and `AAC`, with no value
/// for raw samples, so those are reported as `G711`, the only uncompressed token.
/// The bitrate and sample rate are reported truthfully.
#[derive(Debug)]
pub struct AudioDesc {
    pub encoding: &'static str,
    pub bitrate_kbps: u32,
    pub samplerate_khz: u32,
}

/// How an audio format is described: passthrough AAC as such, and raw samples,
/// 16 kHz mono of 16 bits, by the rate they have on the wire.
pub fn audio_desc(format: AudioFormat) -> (d: AudioDesc)
    ensures
        d.encoding@ == audio_encoding(format),
        d.bitrate_kbps == audio_bitrate(format),
        d.samplerate_khz == 16,
{
    match format {
        AudioFormat::Pcm => AudioDesc { encoding: "G711", bitrate_kbps: 256, samplerate_khz: 16 },
        _ => AudioDesc { encoding: "AAC", bitrate_kbps: 32, samplerate_khz: 16 },
    }
}

/// The encoding that an audio format is reported as.
pub open spec fn audio_encoding(format: AudioFormat) -> Seq<char> {
    if format == AudioFormat::Pcm {
        "G711"@
    } else {
        "AAC"@
    }
}

/// The bit rate that an audio format is reported with, in kbps.
pub open spec fn audio_bitrate(format: AudioFormat) -> nat {
    if format == AudioFormat::Pcm {
        256
    } else {
        32
    }
}

/// The configuration of the audio source, under an element name.
pub open spec fn audio_source_configuration(cam_name: Seq<char>, element: Seq<char>) -> Seq<char> {
    "<"@ + element + " token=\""@ + ("as_"@ + cam_name) + "\"><tt:Name>"@ + soap::escaped(cam_name + "-audio"@) + "</tt:Name><tt:UseCount>1</tt:UseCount><tt:SourceToken>asrc_"@ + cam_name + "</tt:SourceToken></"@ + element + ">"@
}

/// The configuration of the audio source, under an element name.
pub fn render_audio_source_configuration(cam_name: &str, element: &str) -> (out: String)
    ensures
        out@ == audio_source_configuration(cam_name@, element@),
{
    let mut out = "<".to_owned();
    out.append(element);
    out.append(" token=\"");
    out.append(audio_source_token(cam_name).as_str());
    out.append("\"><tt:Name>");
    out.append(soap::xml_escape(text::joined(cam_name, "-audio").as_str()).as_str());
    out.append("</tt:Name><tt:UseCount>1</tt:UseCount><tt:SourceToken>asrc_");
    out.append(cam_name);
    out.append("</tt:SourceToken></");
    out.append(element);
    out.append(">");
    out
}

/// The configuration of the audio encoder, under an element name.
pub open spec fn audio_encoder_configuration(cam_name: Seq<char>, format: AudioFormat, element: Seq<char>) -> Seq<char> {
    "<"@ + element + " token=\""@ + ("aec_"@ + cam_name) + "\"><tt:Name>"@ + soap::escaped(cam_name + "-audio"@) + "</tt:Name><tt:UseCount>1</tt:UseCount><tt:Encoding>"@ + audio_encoding(format) + "</tt:Encoding><tt:Bitrate>"@ + text::decimal(audio_bitrate(format)) + "</tt:Bitrate><tt:SampleRate>"@ + text::decimal(16) + "</tt:SampleRate><tt:Multicast><tt:Address><tt:Type>IPv4</tt:Type><tt:IPv4Address>0.0.0.0</tt:IPv4Address></tt:Address><tt:Port>0</tt:Port><tt:TTL>1</tt:TTL><tt:AutoStart>false</tt:AutoStart></tt:Multicast><tt:SessionTimeout>PT30S</tt:SessionTimeout></"@ + element + ">"@
}

/// The configuration of the audio encoder, under an element name.
pub fn render_audio_encoder_configuration(cam_name: &str, format: AudioFormat, element: &str) -> (out: String)
    ensures
        out@ == audio_encoder_configuration(cam_name@, format, element@),
{
    let desc = audio_desc(format);
    let mut out = "<".to_owned();
    out.append(element);
    out.append(" token=\"");
    out.append(audio_encoder_token(cam_name).as_str());
    out.append("\"><tt:Name>");
    out.append(soap::xml_escape(text::joined(cam_name, "-audio").as_str()).as_str());
    out.append("</tt:Name><tt:UseCount>1</tt:UseCount><tt:Encoding>");
    out.append(desc.encoding);
    out.append("</tt:Encoding><tt:Bitrate>");
    text::append_decimal(&mut out, desc.bitrate_kbps as u64);
    out.append("</tt:Bitrate><tt:SampleRate>");
    text::append_decimal(&mut out, desc.samplerate_khz as u64);
    out.append("</tt:SampleRate><tt:Multicast><tt:Address><tt:Type>IPv4</tt:Type><tt:IPv4Address>0.0.0.0</tt:IPv4Address></tt:Address><tt:Port>0</tt:Port><tt:TTL>1</tt:TTL><tt:AutoStart>false</tt:AutoStart></tt:Multicast><tt:SessionTimeout>PT30S</tt:SessionTimeout></");
    out.append(element);
    out.append(">");
    out
}

/// The descriptor that stands for the sensor: that of the main stream, or the
/// first.
pub open spec fn best_of(descs: Seq<StreamDescView>) -> Option<StreamDescView> {
    match main_of(descs) {
        Some(d) => Some(d),
        None => if descs.len() > 0 {
            Some(descs[0])
        } else {
            None
        },
    }
}

/// The descriptor of the main stream.
pub open spec fn main_of(descs: Seq<StreamDescView>) -> Option<StreamDescView>
    decreases descs.len(),
{
    if descs.len() == 0 {
        None
    } else if descs[0].stream == OnvifStream::Main {
        Some(descs[0])
    } else {
        main_of(descs.drop_first())
    }
}

fn best_desc(descs: &Vec<StreamDesc>) -> (best: Option<&StreamDesc>)
    ensures
        (match best {
            Some(d) => Some(d@),
            None => None,
        }) == best_of(descs_view(descs@)),
{
    let ghost all = descs_view(descs@);
    let mut i: usize = 0;
    assert(all.skip(0) =~= all);
    while i < descs.len()
        invariant
            i <= descs@.len(),
            all == descs_view(descs@),
            main_of(all) == main_of(all.skip(i as int)),
        decreases descs@.len() - i,
    {
        assert(all.skip(i as int)[0] == descs@[i as int]@);
        assert(all.skip(i as int).drop_first() =~= all.skip(i + 1));
        if descs[i].stream == OnvifStream::Main {
            return Some(&descs[i]);
        }
        i += 1;
    }
    assert(all.skip(i as int) =~= Seq::empty());
    if descs.len() > 0 {
        assert(all[0] == descs@[0]@);
        Some(&descs[0])
    } else {
        None
    }
}

/// The width of the sensor.
pub open spec fn sensor_width(descs: Seq<StreamDescView>) -> nat {
    match best_of(descs) {
        Some(d) => d.width as nat,
        None => 1920,
    }
}

/// The height of the sensor.
pub open spec fn sensor_height(descs: Seq<StreamDescView>) -> nat {
    match best_of(descs) {
        Some(d) => d.height as nat,
        None => 1080,
    }
}

/// The frame rate of the sensor.
pub open spec fn sensor_framerate(descs: Seq<StreamDescView>) -> nat {
    match best_of(descs) {
        Some(d) => d.framerate as nat,
        None => 25,
    }
}

fn sensor(descs: &Vec<StreamDesc>) -> (size: (u32, u32, u32))
    ensures
        size.0 == sensor_width(descs_view(descs@)),
        size.1 == sensor_height(descs_view(descs@)),
        size.2 == sensor_framerate(descs_view(descs@)),
{
    match best_desc(descs) {
        Some(d) => (d.width, d.height, d.framerate),
        None => (1920, 1080, 25),
    }
}

/// The configuration of the video source.
pub open spec fn video_source_configuration(cam_name: Seq<char>, descs: Seq<StreamDescView>) -> Seq<char> {
    "<tt:VideoSourceConfiguration token=\""@ + ("vs_"@ + cam_name) + "\"><tt:Name>"@ + soap::escaped(cam_name) + "</tt:Name><tt:UseCount>"@ + text::decimal(descs.len()) + "</tt:UseCount><tt:SourceToken>vsrc_"@ + cam_name + "</tt:SourceToken><tt:Bounds x=\"0\" y=\"0\" width=\""@ + text::decimal(sensor_width(descs)) + "\" height=\""@ + text::decimal(sensor_height(descs)) + "\"/></tt:VideoSourceConfiguration>"@
}

/// The configuration of the video source.
pub fn render_video_source_configuration(cam_name: &str, descs: &Vec<StreamDesc>) -> (out: String)
    ensures
        out@ == video_source_configuration(cam_name@, descs_view(descs@)),
{
    let size = sensor(descs);
    assert(descs_view(descs@).len() == descs@.len());
    let mut out = "<tt:VideoSourceConfiguration token=\"".to_owned();
    out.append(video_source_token(cam_name).as_str());
    out.append("\"><tt:Name>");
    out.append(soap::xml_escape(cam_name).as_str());
    out.append("</tt:Name><tt:UseCount>");
    text::append_decimal(&mut out, descs.len() as u64);
    out.append("</tt:UseCount><tt:SourceToken>vsrc_");
    out.append(cam_name);
    out.append("</tt:SourceToken><tt:Bounds x=\"0\" y=\"0\" width=\"");
    text::append_decimal(&mut out, size.0 as u64);
    out.append("\" height=\"");
    text::append_decimal(&mut out, size.1 as u64);
    out.append("\"/></tt:VideoSourceConfiguration>");
    out
}

/// The configuration of a video encoder.
pub open spec fn video_encoder_configuration(cam_name: Seq<char>, d: StreamDescView) -> Seq<char> {
    "<tt:VideoEncoderConfiguration token=\""@ + video_encoder_token_of(cam_name, d.stream) + "\"><tt:Name>"@ + soap::escaped(cam_name + "-"@ + state::stream_name(d.stream)) + "</tt:Name><tt:UseCount>1</tt:UseCount><tt:Encoding>H264</tt:Encoding><tt:Resolution><tt:Width>"@ + text::decimal(d.width as nat) + "</tt:Width><tt:Height>"@ + text::decimal(d.height as nat) + "</tt:Height></tt:Resolution><tt:Quality>5</tt:Quality><tt:RateControl><tt:FrameRateLimit>"@ + text::decimal(d.framerate as nat) + "</tt:FrameRateLimit><tt:EncodingInterval>1</tt:EncodingInterval><tt:BitrateLimit>"@ + text::decimal(d.bitrate_kbps as nat) + "</tt:BitrateLimit></tt:RateControl><tt:H264><tt:GovLength>50</tt:GovLength><tt:H264Profile>High</tt:H264Profile></tt:H264><tt:Multicast><tt:Address><tt:Type>IPv4</tt:Type><tt:IPv4Address>0.0.0.0</tt:IPv4Address></tt:Address><tt:Port>0</tt:Port><tt:TTL>1</tt:TTL><tt:AutoStart>false</tt:AutoStart></tt:Multicast><tt:SessionTimeout>PT30S</tt:SessionTimeout></tt:VideoEncoderConfiguration>"@
}

/// The configuration of a video encoder.
pub fn render_video_encoder_configuration(cam_name: &str, d: &StreamDesc) -> (out: String)
    ensures
        out@ == video_encoder_configuration(cam_name@, d@),
{
    let mut name = text::joined(cam_name, "-");
    name.append(d.stream.token_suffix());
    let mut out = "<tt:VideoEncoderConfiguration token=\"".to_owned();
    out.append(video_encoder_token(cam_name, d.stream).as_str());
    out.append("\"><tt:Name>");
    out.append(soap::xml_escape(name.as_str()).as_str());
    out.append("</tt:Name><tt:UseCount>1</tt:UseCount><tt:Encoding>H264</tt:Encoding><tt:Resolution><tt:Width>");
    text::append_decimal(&mut out, d.width as u64);
    out.append("</tt:Width><tt:Height>");
    text::append_decimal(&mut out, d.height as u64);
    out.append("</tt:Height></tt:Resolution><tt:Quality>5</tt:Quality><tt:RateControl><tt:FrameRateLimit>");
    text::append_decimal(&mut out, d.framerate as u64);
    out.append("</tt:FrameRateLimit><tt:EncodingInterval>1</tt:EncodingInterval><tt:BitrateLimit>");
    text::append_decimal(&mut out, d.bitrate_kbps as u64);
    out.append("</tt:BitrateLimit></tt:RateControl><tt:H264><tt:GovLength>50</tt:GovLength><tt:H264Profile>High</tt:H264Profile></tt:H264><tt:Multicast><tt:Address><tt:Type>IPv4</tt:Type><tt:IPv4Address>0.0.0.0</tt:IPv4Address></tt:Address><tt:Port>0</tt:Port><tt:TTL>1</tt:TTL><tt:AutoStart>false</tt:AutoStart></tt:Multicast><tt:SessionTimeout>PT30S</tt:SessionTimeout></tt:VideoEncoderConfiguration>");
    out
}

/// The pieces of a `tt:Profile`, kept separate from the order they go in: the
/// audio pair is interleaved with the video pair.
#[derive(Debug)]
pub struct ProfileParts {
    pub token: String,
    pub name: String,
    pub video_source: String,
    pub audio_source: Option<String>,
    pub video_encoder: String,
    pub audio_encoder: Option<String>,
    pub ptz: Option<String>,
}

/// A piece that may be missing.
pub open spec fn piece(part: Option<Seq<char>>) -> Seq<char> {
    match part {
        Some(x) => x,
        None => Seq::empty(),
    }
}

fn append_piece(out: &mut String, part: &Option<String>)
    ensures
        final(out)@ == old(out)@ + piece(text::opt_view(*part)),
{
    let ghost before = out@;
    match part {
        Some(x) => {
            out.append(x.as_str());
        },
        None => {
            assert(before + Seq::<char>::empty() =~= before);
        },
    }
}

/// A profile, under an element name: its pieces in the order of the schema.
pub open spec fn profile_xml(p: ProfileParts, element: Seq<char>) -> Seq<char> {
    "<"@ + element + " fixed=\"true\" token=\""@ + soap::escaped(p.token@) + "\"><tt:Name>"@
        + soap::escaped(p.name@) + "</tt:Name>"@ + p.video_source@ + piece(
        text::opt_view(p.audio_source),
    ) + p.video_encoder@ + piece(text::opt_view(p.audio_encoder)) + piece(text::opt_view(p.ptz))
        + "</"@ + element + ">"@
}

impl ProfileParts {
    /// Render under the element name the enclosing response needs: the profile
    /// list uses `trt:Profiles`, the single-profile response `trt:Profile`.
    pub fn render(&self, element: &str) -> (out: String)
        ensures
            out@ == profile_xml(*self, element@),
    {
        let mut out = "<".to_owned();
        out.append(element);
        out.append(" fixed=\"true\" token=\"");
        out.append(soap::xml_escape(self.token.as_str()).as_str());
        out.append("\"><tt:Name>");
        out.append(soap::xml_escape(self.name.as_str()).as_str());
        out.append("</tt:Name>");
        out.append(self.video_source.as_str());
        append_piece(&mut out, &self.audio_source);
        out.append(self.video_encoder.as_str());
        append_piece(&mut out, &self.audio_encoder);
        append_piece(&mut out, &self.ptz);
        out.append("</");
        out.append(element);
        out.append(">");
        out
    }
}

/// What answering a request takes to know of a camera.
#[derive(Debug)]
pub struct MediaFacts<'a> {
    pub cam_name: &'a str,
    pub caps: CameraCapabilities,
    pub audio_format: AudioFormat,
    pub descs: &'a Vec<StreamDesc>,
    /// The host that streams are served from, or why it is not known.
    pub host: Result<&'a str, &'a str>,
    /// Where this bridge is reached, or why that is not known.
    pub authority: Result<&'a str, &'a str>,
    pub rtsp_port: u16,
}

/// The profile of a stream. Without the audio configurations clients would not
/// even ask for audio, and they key their PTZ controls off the PTZ one.
pub open spec fn stream_profile(f: MediaFacts, d: StreamDescView, element: Seq<char>) -> Seq<char> {
    "<"@ + element + " fixed=\"true\" token=\""@ + soap::escaped(
        profile_token_of(f.cam_name@, d.stream),
    ) + "\"><tt:Name>"@ + soap::escaped(f.cam_name@ + "_"@ + state::stream_name(d.stream))
        + "</tt:Name>"@ + video_source_configuration(f.cam_name@, descs_view(f.descs@)) + (
    if f.caps.audio {
        audio_source_configuration(f.cam_name@, "tt:AudioSourceConfiguration"@)
    } else {
        Seq::empty()
    }) + video_encoder_configuration(f.cam_name@, d) + (if f.caps.audio {
        audio_encoder_configuration(
            f.cam_name@,
            f.audio_format,
            "tt:AudioEncoderConfiguration"@,
        )
    } else {
        Seq::empty()
    }) + (if f.caps.has_ptz() {
        ptz::ptz_configuration(f.cam_name@, f.caps, "tt:PTZConfiguration"@)
    } else {
        Seq::empty()
    }) + "</"@ + element + ">"@
}

fn profile_parts(f: &MediaFacts, d: &StreamDesc) -> (p: ProfileParts)
    ensures
        forall|element: Seq<char>| #[trigger] profile_xml(p, element) == stream_profile(*f, d@, element),
{
    let mut name = text::joined(f.cam_name, "_");
    name.append(d.stream.token_suffix());
    ProfileParts {
        token: profile_token(f.cam_name, d.stream),
        name,
        video_source: render_video_source_configuration(f.cam_name, f.descs),
        audio_source: if f.caps.audio {
            Some(render_audio_source_configuration(f.cam_name, "tt:AudioSourceConfiguration"))
        } else {
            None
        },
        video_encoder: render_video_encoder_configuration(f.cam_name, d),
        audio_encoder: if f.caps.audio {
            Some(
                render_audio_encoder_configuration(
                    f.cam_name,
                    f.audio_format,
                    "tt:AudioEncoderConfiguration",
                ),
            )
        } else {
            None
        },
        ptz: if f.caps.ptz() {
            Some(
                ptz::render_ptz_configuration_xml(f.cam_name, &f.caps, "tt:PTZConfiguration"),
            )
        } else {
            None
        },
    }
}

/// The smallest of some numbers.
pub open spec fn least(values: Seq<u32>) -> u32
    decreases values.len(),
{
    if values.len() == 0 {
        u32::MAX
    } else if values.last() < least(values.drop_last()) {
        values.last()
    } else {
        least(values.drop_last())
    }
}

/// The largest of some numbers.
pub open spec fn greatest(values: Seq<u32>) -> u32
    decreases values.len(),
{
    if values.len() == 0 {
        0
    } else if values.last() > greatest(values.drop_last()) {
        values.last()
    } else {
        greatest(values.drop_last())
    }
}

/// The smallest and the largest of some numbers, or other bounds if there are
/// no numbers.
pub open spec fn span_of(values: Seq<u32>, default_min: u32, default_max: u32) -> (u32, u32) {
    if values.len() == 0 {
        (default_min, default_max)
    } else {
        (least(values), greatest(values))
    }
}

/// Min and max of some numbers, falling back to the given bounds when there are
/// none.
pub fn span(values: &[u32], default_min: u32, default_max: u32) -> (bounds: (u32, u32))
    ensures
        bounds == span_of(values@, default_min, default_max),
{
    let mut min: u32 = u32::MAX;
    let mut max: u32 = 0;
    let mut i: usize = 0;
    assert(values@.take(0) =~= Seq::empty());
    while i < values.len()
        invariant
            i <= values@.len(),
            min == least(values@.take(i as int)),
            max == greatest(values@.take(i as int)),
        decreases values@.len() - i,
    {
        assert(values@.take(i + 1).drop_last() =~= values@.take(i as int));
        let v: u32 = values[i];
        if v < min {
            min = v;
        }
        if v > max {
            max = v;
        }
        i += 1;
    }
    assert(values@.take(i as int) =~= values@);
    if values.len() == 0 {
        (default_min, default_max)
    } else {
        (min, max)
    }
}

/// Every number lies in the span, and the bounds are among the numbers.
pub proof fn law_span_bounds_its_values(values: Seq<u32>, i: int)
    requires
        0 <= i < values.len(),
    ensures
        least(values) <= values[i] <= greatest(values),
        values.contains(least(values)),
        values.contains(greatest(values)),
    decreases values.len(),
{
    let before = values.drop_last();
    assert(values[values.len() - 1] == values.last());
    if before.len() > 0 {
        let k = if i < before.len() {
            i
        } else {
            0
        };
        law_span_bounds_its_values(before, k);
        assert(before[k] == values[k]);
        let a = choose|a: int| 0 <= a < before.len() && before[a] == least(before);
        let b = choose|b: int| 0 <= b < before.len() && before[b] == greatest(before);
        assert(values[a] == least(before));
        assert(values[b] == greatest(before));
    } else {
        assert(before =~= Seq::empty());
    }
}

/// A resolution put in its place among others that grow.
pub open spec fn inserted_size(sorted: Seq<(u32, u32)>, v: (u32, u32)) -> Seq<(u32, u32)>
    decreases sorted.len(),
{
    if sorted.len() == 0 || v.0 < sorted[0].0 || (v.0 == sorted[0].0 && v.1 < sorted[0].1) {
        seq![v] + sorted
    } else if v == sorted[0] {
        sorted
    } else {
        seq![sorted[0]] + inserted_size(sorted.drop_first(), v)
    }
}

/// The resolutions of streams, sorted, each once.
pub open spec fn sizes_of(descs: Seq<StreamDescView>) -> Seq<(u32, u32)>
    decreases descs.len(),
{
    if descs.len() == 0 {
        Seq::empty()
    } else {
        inserted_size(
            sizes_of(descs.drop_last()),
            (descs.last().width, descs.last().height),
        )
    }
}

/// Whether one resolution goes in front of another: by width, and then by
/// height.
pub open spec fn smaller(a: (u32, u32), b: (u32, u32)) -> bool {
    a.0 < b.0 || (a.0 == b.0 && a.1 < b.1)
}

/// Whether resolutions grow, so that none occurs twice.
pub open spec fn sizes_grow(sizes: Seq<(u32, u32)>) -> bool {
    forall|i: int, j: int| 0 <= i < j < sizes.len() ==> smaller(#[trigger] sizes[i], #[trigger] sizes[j])
}

proof fn lemma_inserted_size(sorted: Seq<(u32, u32)>, v: (u32, u32))
    requires
        sizes_grow(sorted),
    ensures
        sizes_grow(inserted_size(sorted, v)),
        forall|x: (u32, u32)| #[trigger]
            inserted_size(sorted, v).contains(x) <==> sorted.contains(x) || x == v,
    decreases sorted.len(),
{
    let after = inserted_size(sorted, v);
    if sorted.len() == 0 || smaller(v, sorted[0]) {
        assert(after[0] == v);
        assert forall|i: int| 1 <= i < after.len() implies #[trigger] after[i] == sorted[i - 1] by {}
        assert forall|x: (u32, u32)| #[trigger] after.contains(x) <==> sorted.contains(x) || x == v by {
            if sorted.contains(x) {
                let k = choose|k: int| 0 <= k < sorted.len() && sorted[k] == x;
                assert(after[k + 1] == x);
            }
        }
    } else if v == sorted[0] {
        assert(sorted.contains(v));
    } else {
        let rest = sorted.drop_first();
        lemma_inserted_size(rest, v);
        let put = inserted_size(rest, v);
        assert(after[0] == sorted[0]);
        assert forall|i: int| 1 <= i < after.len() implies #[trigger] after[i] == put[i - 1] by {}
        assert forall|i: int| 0 <= i < put.len() implies smaller(sorted[0], #[trigger] put[i]) by {
            assert(put.contains(put[i]));
            if rest.contains(put[i]) {
                let k = choose|k: int| 0 <= k < rest.len() && rest[k] == put[i];
                assert(sorted[k + 1] == put[i]);
            }
        }
        assert forall|x: (u32, u32)| #[trigger] after.contains(x) <==> sorted.contains(x) || x == v by {
            if after.contains(x) {
                let k = choose|k: int| 0 <= k < after.len() && after[k] == x;
                if k == 0 {
                    assert(sorted[0] == x);
                } else {
                    assert(put[k - 1] == x);
                    assert(put.contains(x));
                    if rest.contains(x) {
                        let m = choose|m: int| 0 <= m < rest.len() && rest[m] == x;
                        assert(sorted[m + 1] == x);
                    }
                }
            }
            if sorted.contains(x) || x == v {
                if x == sorted[0] {
                    assert(after[0] == x);
                } else {
                    if sorted.contains(x) {
                        let k = choose|k: int| 0 <= k < sorted.len() && sorted[k] == x;
                        assert(rest[k - 1] == x);
                    }
                    assert(put.contains(x));
                    let m = choose|m: int| 0 <= m < put.len() && put[m] == x;
                    assert(after[m + 1] == x);
                }
            }
        }
    }
}

/// The resolutions that are listed grow, so that each occurs once, and are
/// exactly those of the streams.
pub proof fn law_resolutions_are_listed_once(descs: Seq<StreamDescView>)
    ensures
        sizes_grow(sizes_of(descs)),
        forall|i: int|
            0 <= i < descs.len() ==> sizes_of(descs).contains(
                ((#[trigger] descs[i]).width, descs[i].height),
            ),
        forall|x: (u32, u32)| #[trigger]
            sizes_of(descs).contains(x) ==> exists|i: int|
                0 <= i < descs.len() && x == ((#[trigger] descs[i]).width, descs[i].height),
    decreases descs.len(),
{
    if descs.len() > 0 {
        let before = descs.drop_last();
        let last = (descs.last().width, descs.last().height);
        law_resolutions_are_listed_once(before);
        lemma_inserted_size(sizes_of(before), last);
        assert forall|i: int| 0 <= i < descs.len() implies sizes_of(descs).contains(
            ((#[trigger] descs[i]).width, descs[i].height),
        ) by {
            if i < before.len() {
                assert(before[i] == descs[i]);
            }
        }
        assert forall|x: (u32, u32)| #[trigger] sizes_of(descs).contains(x) implies exists|i: int|
            0 <= i < descs.len() && x == ((#[trigger] descs[i]).width, descs[i].height) by {
            if sizes_of(before).contains(x) {
                let i = choose|i: int|
                    0 <= i < before.len() && x == ((#[trigger] before[i]).width, before[i].height);
                assert(descs[i] == before[i]);
            } else {
                assert(descs[descs.len() - 1] == descs.last());
            }
        }
    }
}

fn insert_size(sorted: &mut Vec<(u32, u32)>, v: (u32, u32))
    ensures
        final(sorted)@ == inserted_size(old(sorted)@, v),
{
    let ghost before = sorted@;
    let mut i: usize = 0;
    assert(before.take(0) + inserted_size(before.skip(0), v) =~= inserted_size(before, v)) by {
        assert(before.skip(0) =~= before);
    }
    while i < sorted.len() && (sorted[i].0 < v.0 || (sorted[i].0 == v.0 && sorted[i].1 < v.1))
        invariant
            i <= sorted@.len(),
            sorted@ == before,
            before.take(i as int) + inserted_size(before.skip(i as int), v) == inserted_size(
                before,
                v,
            ),
        decreases sorted@.len() - i,
    {
        let ghost rest = before.skip(i as int);
        assert(rest.drop_first() =~= before.skip(i + 1));
        assert(before.take(i as int) + (seq![rest[0]] + inserted_size(rest.drop_first(), v))
            =~= before.take(i + 1) + inserted_size(before.skip(i + 1), v));
        i += 1;
    }
    if i < sorted.len() && sorted[i].0 == v.0 && sorted[i].1 == v.1 {
        assert(before.skip(i as int)[0] == v);
        assert(before.take(i as int) + before.skip(i as int) =~= before);
    } else {
        sorted.insert(i, v);
        assert(sorted@ =~= before.take(i as int) + (seq![v] + before.skip(i as int)));
    }
}

/// Resolutions, one element for each.
pub open spec fn sizes_xml(sizes: Seq<(u32, u32)>) -> Seq<char>
    decreases sizes.len(),
{
    if sizes.len() == 0 {
        Seq::empty()
    } else {
        sizes_xml(sizes.drop_last()) + ("<tt:ResolutionsAvailable><tt:Width>"@ + text::decimal(
            sizes.last().0 as nat,
        ) + "</tt:Width><tt:Height>"@ + text::decimal(sizes.last().1 as nat)
            + "</tt:Height></tt:ResolutionsAvailable>"@)
    }
}

fn render_sizes(sizes: &Vec<(u32, u32)>) -> (out: String)
    ensures
        out@ == sizes_xml(sizes@),
{
    let mut out = String::new();
    let mut i: usize = 0;
    assert(sizes@.take(0) =~= Seq::empty());
    assert(out@ =~= sizes_xml(sizes@.take(0)));
    while i < sizes.len()
        invariant
            i <= sizes@.len(),
            out@ == sizes_xml(sizes@.take(i as int)),
        decreases sizes@.len() - i,
    {
        assert(sizes@.take(i + 1).drop_last() =~= sizes@.take(i as int));
        let (w, h): (u32, u32) = sizes[i];
        let mut item = "<tt:ResolutionsAvailable><tt:Width>".to_owned();
        text::append_decimal(&mut item, w as u64);
        item.append("</tt:Width><tt:Height>");
        text::append_decimal(&mut item, h as u64);
        item.append("</tt:Height></tt:ResolutionsAvailable>");
        out.append(item.as_str());
        i += 1;
    }
    assert(sizes@.take(i as int) =~= sizes@);
    out
}

/// The frame rates that any of some streams can be set to.
pub open spec fn all_framerates(descs: Seq<StreamDescView>) -> Seq<u32>
    decreases descs.len(),
{
    if descs.len() == 0 {
        Seq::empty()
    } else {
        all_framerates(descs.drop_last()) + options_of(
            descs.last().framerates,
            descs.last().framerate,
        )
    }
}

/// The bit rates that any of some streams can be set to.
pub open spec fn all_bitrates(descs: Seq<StreamDescView>) -> Seq<u32>
    decreases descs.len(),
{
    if descs.len() == 0 {
        Seq::empty()
    } else {
        all_bitrates(descs.drop_last()) + options_of(
            descs.last().bitrates,
            descs.last().bitrate_kbps,
        )
    }
}

/// Descriptors that are referred to, their lists as sequences.
pub open spec fn refs_view(descs: Seq<&StreamDesc>) -> Seq<StreamDescView> {
    descs.map_values(|d: &StreamDesc| d@)
}

/// The options of an encoder, as the base block holds them.
pub open spec fn h264_xml(descs: Seq<StreamDescView>) -> Seq<char> {
    let fps = span_of(all_framerates(descs), 1, 30);
    sizes_xml(sizes_of(descs))
        + "<tt:GovLengthRange><tt:Min>1</tt:Min><tt:Max>100</tt:Max></tt:GovLengthRange><tt:FrameRateRange><tt:Min>"@
        + text::decimal(fps.0 as nat) + "</tt:Min><tt:Max>"@ + text::decimal(fps.1 as nat)
        + "</tt:Max></tt:FrameRateRange><tt:EncodingIntervalRange><tt:Min>1</tt:Min><tt:Max>1</tt:Max></tt:EncodingIntervalRange><tt:H264ProfilesSupported>High</tt:H264ProfilesSupported>"@
}

/// The options of encoders: every resolution is listed, and the ranges span the
/// camera's own tables. The bit rates stand in the extension alone.
pub open spec fn encoder_options(descs: Seq<StreamDescView>) -> Seq<char> {
    let br = span_of(all_bitrates(descs), 64, 8192);
    "<trt:Options><tt:QualityRange><tt:Min>1</tt:Min><tt:Max>6</tt:Max></tt:QualityRange><tt:H264>"@
        + h264_xml(descs) + "</tt:H264><tt:Extension><tt:H264>"@ + h264_xml(descs)
        + "<tt:BitrateRange><tt:Min>"@ + text::decimal(br.0 as nat) + "</tt:Min><tt:Max>"@
        + text::decimal(br.1 as nat)
        + "</tt:Max></tt:BitrateRange></tt:H264></tt:Extension></trt:Options>"@
}

/// Render `VideoEncoderConfigurationOptions` for a set of streams. The response
/// carries a single options block, so several streams merge into one.
pub fn render_video_encoder_options(descs: &[&StreamDesc]) -> (out: String)
    ensures
        out@ == encoder_options(refs_view(descs@)),
{
    let ghost all = refs_view(descs@);
    let mut sizes: Vec<(u32, u32)> = Vec::new();
    let mut framerates: Vec<u32> = Vec::new();
    let mut bitrates: Vec<u32> = Vec::new();
    let mut i: usize = 0;
    assert(all.take(0) =~= Seq::empty());
    assert(sizes@ =~= sizes_of(all.take(0)));
    assert(framerates@ =~= all_framerates(all.take(0)));
    assert(bitrates@ =~= all_bitrates(all.take(0)));
    while i < descs.len()
        invariant
            i <= descs@.len(),
            all == refs_view(descs@),
            sizes@ == sizes_of(all.take(i as int)),
            framerates@ == all_framerates(all.take(i as int)),
            bitrates@ == all_bitrates(all.take(i as int)),
        decreases descs@.len() - i,
    {
        assert(all.take(i + 1).drop_last() =~= all.take(i as int));
        let d: &StreamDesc = descs[i];
        assert(all.take(i + 1).last() == d@);
        insert_size(&mut sizes, (d.width, d.height));
        let mut more = d.framerate_options();
        framerates.append(&mut more);
        let mut more = d.bitrate_options();
        bitrates.append(&mut more);
        i += 1;
    }
    assert(all.take(i as int) =~= all);
    let fps = span(framerates.as_slice(), 1, 30);
    let br = span(bitrates.as_slice(), 64, 8192);
    let mut h264 = render_sizes(&sizes);
    h264.append(
        "<tt:GovLengthRange><tt:Min>1</tt:Min><tt:Max>100</tt:Max></tt:GovLengthRange><tt:FrameRateRange><tt:Min>",
    );
    text::append_decimal(&mut h264, fps.0 as u64);
    h264.append("</tt:Min><tt:Max>");
    text::append_decimal(&mut h264, fps.1 as u64);
    h264.append(
        "</tt:Max></tt:FrameRateRange><tt:EncodingIntervalRange><tt:Min>1</tt:Min><tt:Max>1</tt:Max></tt:EncodingIntervalRange><tt:H264ProfilesSupported>High</tt:H264ProfilesSupported>",
    );
    let mut out =
        "<trt:Options><tt:QualityRange><tt:Min>1</tt:Min><tt:Max>6</tt:Max></tt:QualityRange><tt:H264>".to_owned();
    out.append(h264.as_str());
    out.append("</tt:H264><tt:Extension><tt:H264>");
    out.append(h264.as_str());
    out.append("<tt:BitrateRange><tt:Min>");
    text::append_decimal(&mut out, br.0 as u64);
    out.append("</tt:Min><tt:Max>");
    text::append_decimal(&mut out, br.1 as u64);
    out.append("</tt:Max></tt:BitrateRange></tt:H264></tt:Extension></trt:Options>");
    out
}

/// The tokens of a camera's profiles.
pub open spec fn profile_tokens(f: MediaFacts) -> Seq<Seq<char>> {
    descs_view(f.descs@).map_values(
        |d: StreamDescView| profile_token_of(f.cam_name@, d.stream),
    )
}

/// The tokens of a camera's video encoders.
pub open spec fn encoder_tokens(f: MediaFacts) -> Seq<Seq<char>> {
    descs_view(f.descs@).map_values(
        |d: StreamDescView| video_encoder_token_of(f.cam_name@, d.stream),
    )
}

/// What a token stands for among others.
pub open spec fn named_by(f: MediaFacts, tokens: Seq<Seq<char>>, token: Seq<char>) -> Option<
    StreamDescView,
> {
    let at = text::place(tokens, token);
    if at < f.descs@.len() {
        Some(descs_view(f.descs@)[at])
    } else {
        None
    }
}

fn find_profile<'a>(f: &MediaFacts<'a>, token: &str) -> (found: Option<&'a StreamDesc>)
    ensures
        (match found {
            Some(d) => Some(d@),
            None => None,
        }) == named_by(*f, profile_tokens(*f), token@),
{
    let ghost tokens = profile_tokens(*f);
    let mut at: usize = 0;
    while at < f.descs.len()
        invariant_except_break
            forall|j: int| 0 <= j < at ==> #[trigger] tokens[j] != token@,
        invariant
            at <= f.descs@.len(),
            tokens == profile_tokens(*f),
        ensures
            at <= f.descs@.len(),
            at < f.descs@.len() ==> tokens[at as int] == token@,
            forall|j: int| 0 <= j < at ==> #[trigger] tokens[j] != token@,
        decreases f.descs@.len() - at,
    {
        assert(tokens[at as int] == profile_token_of(f.cam_name@, f.descs@[at as int].stream));
        if text::same(profile_token(f.cam_name, f.descs[at].stream).as_str(), token) {
            break;
        }
        at += 1;
    }
    proof {
        text::lemma_place_is(tokens, token@, at as int);
    }
    if at < f.descs.len() {
        Some(&f.descs[at])
    } else {
        None
    }
}

fn find_encoder<'a>(f: &MediaFacts<'a>, token: &str) -> (found: Option<&'a StreamDesc>)
    ensures
        (match found {
            Some(d) => Some(d@),
            None => None,
        }) == named_by(*f, encoder_tokens(*f), token@),
{
    let ghost tokens = encoder_tokens(*f);
    let mut at: usize = 0;
    while at < f.descs.len()
        invariant_except_break
            forall|j: int| 0 <= j < at ==> #[trigger] tokens[j] != token@,
        invariant
            at <= f.descs@.len(),
            tokens == encoder_tokens(*f),
        ensures
            at <= f.descs@.len(),
            at < f.descs@.len() ==> tokens[at as int] == token@,
            forall|j: int| 0 <= j < at ==> #[trigger] tokens[j] != token@,
        decreases f.descs@.len() - at,
    {
        assert(tokens[at as int] == video_encoder_token_of(
            f.cam_name@,
            f.descs@[at as int].stream,
        ));
        if text::same(video_encoder_token(f.cam_name, f.descs[at].stream).as_str(), token) {
            break;
        }
        at += 1;
    }
    proof {
        text::lemma_place_is(tokens, token@, at as int);
    }
    if at < f.descs.len() {
        Some(&f.descs[at])
    } else {
        None
    }
}

/// The tokens that a request carries.
#[derive(Debug)]
pub struct MediaRequest {
    pub profile_token: Option<String>,
    pub configuration_token: Option<String>,
}

/// The tokens that a request carries, as sequences.
#[verifier::ext_equal]
pub struct MediaRequestView {
    pub profile_token: Option<Seq<char>>,
    pub configuration_token: Option<Seq<char>>,
}

impl View for MediaRequest {
    type V = MediaRequestView;

    open spec fn view(&self) -> MediaRequestView {
        MediaRequestView {
            profile_token: text::opt_view(self.profile_token),
            configuration_token: text::opt_view(self.configuration_token),
        }
    }
}

/// The tokens that the document of a request carries.
pub open spec fn request_of(body_xml: Seq<char>) -> MediaRequestView {
    MediaRequestView {
        profile_token: xml::first_text(body_xml, "ProfileToken"@),
        configuration_token: xml::first_text(body_xml, "ConfigurationToken"@),
    }
}

/// Read the tokens that a request carries.
pub fn read_request(body_xml: &str) -> (r: MediaRequest)
    ensures
        r@ == request_of(body_xml@),
{
    MediaRequest {
        profile_token: xml::read_first_text_element(body_xml, "ProfileToken"),
        configuration_token: xml::read_first_text_element(body_xml, "ConfigurationToken"),
    }
}

/// The stream that a request names by a profile.
pub open spec fn asked_profile(f: MediaFacts, r: MediaRequestView) -> Result<
    StreamDescView,
    device::FaultView,
> {
    match r.profile_token {
        None => Err(device::fault(FaultCode::InvalidArgs, "Missing ProfileToken"@)),
        Some(token) => match named_by(f, profile_tokens(f), token) {
            Some(d) => Ok(d),
            None => Err(
                device::fault(
                    FaultCode::InvalidArgs,
                    "Unknown profile token '"@ + token + "'"@,
                ),
            ),
        },
    }
}

fn profile_asked<'a>(f: &MediaFacts<'a>, r: &MediaRequest) -> (found: Result<&'a StreamDesc, FaultBody>)
    ensures
        (match found {
            Ok(d) => Ok(d@),
            Err(e) => Err(e@),
        }) == asked_profile(*f, r@),
{
    let token = match &r.profile_token {
        Some(token) => token,
        None => {
            return Err(
                FaultBody {
                    code: FaultCode::InvalidArgs,
                    reason: "Missing ProfileToken".to_owned(),
                },
            );
        },
    };
    match find_profile(f, token.as_str()) {
        Some(d) => Ok(d),
        None => Err(
            device::quoting_fault(
                FaultCode::InvalidArgs,
                "Unknown profile token '",
                token.as_str(),
                "'",
            ),
        ),
    }
}

/// The streams that a request for encoder options is about: one that it names by
/// its configuration or its profile, or all.
pub open spec fn selected(f: MediaFacts, r: MediaRequestView) -> Result<
    Seq<StreamDescView>,
    device::FaultView,
> {
    match r.configuration_token {
        Some(token) => match named_by(f, encoder_tokens(f), token) {
            Some(d) => Ok(seq![d]),
            None => Err(
                device::fault(
                    FaultCode::InvalidArgs,
                    "Unknown configuration token '"@ + token + "'"@,
                ),
            ),
        },
        None => match r.profile_token {
            Some(token) => match named_by(f, profile_tokens(f), token) {
                Some(d) => Ok(seq![d]),
                None => Err(
                    device::fault(
                        FaultCode::InvalidArgs,
                        "Unknown profile token '"@ + token + "'"@,
                    ),
                ),
            },
            None => Ok(descs_view(f.descs@)),
        },
    }
}

/// Narrow the stream list to whatever a `GetVideoEncoderConfigurationOptions`
/// request with these tokens is about.
pub fn select_descs<'a>(f: &MediaFacts<'a>, r: &MediaRequest) -> (result: Result<
    Vec<&'a StreamDesc>,
    FaultBody,
>)
    ensures
        (match result {
            Ok(list) => Ok(refs_view(list@)),
            Err(e) => Err(e@),
        }) == selected(*f, r@),
{
    let mut list: Vec<&'a StreamDesc> = Vec::new();
    match &r.configuration_token {
        Some(token) => {
            return match find_encoder(f, token.as_str()) {
                Some(d) => {
                    list.push(d);
                    assert(refs_view(list@) =~= seq![d@]);
                    Ok(list)
                },
                None => Err(
                    device::quoting_fault(
                        FaultCode::InvalidArgs,
                        "Unknown configuration token '",
                        token.as_str(),
                        "'",
                    ),
                ),
            };
        },
        None => {},
    }
    match &r.profile_token {
        Some(token) => {
            return match find_profile(f, token.as_str()) {
                Some(d) => {
                    list.push(d);
                    assert(refs_view(list@) =~= seq![d@]);
                    Ok(list)
                },
                None => Err(
                    device::quoting_fault(
                        FaultCode::InvalidArgs,
                        "Unknown profile token '",
                        token.as_str(),
                        "'",
                    ),
                ),
            };
        },
        None => {},
    }
    let mut i: usize = 0;
    while i < f.descs.len()
        invariant
            i <= f.descs@.len(),
            refs_view(list@) =~= descs_view(f.descs@).take(i as int),
        decreases f.descs@.len() - i,
    {
        let ghost before = list@;
        list.push(&f.descs[i]);
        assert(refs_view(list@) =~= refs_view(before).push(descs_view(f.descs@)[i as int]));
        i += 1;
    }
    assert(descs_view(f.descs@).take(i as int) =~= descs_view(f.descs@));
    Ok(list)
}

/// Narrow the stream list to whatever the `GetVideoEncoderConfigurationOptions`
/// request asked about.
pub fn select_descs_for_options<'a>(f: &MediaFacts<'a>, body_xml: &str) -> (result: Result<
    Vec<&'a StreamDesc>,
    FaultBody,
>)
    ensures
        (match result {
            Ok(list) => Ok(refs_view(list@)),
            Err(e) => Err(e@),
        }) == selected(*f, request_of(body_xml@)),
{
    select_descs(f, &read_request(body_xml))
}

/// Profiles, one after the other.
pub open spec fn profiles_xml(f: MediaFacts, count: nat) -> Seq<char>
    decreases count,
{
    if count == 0 {
        Seq::empty()
    } else {
        profiles_xml(f, (count - 1) as nat) + stream_profile(
            f,
            descs_view(f.descs@)[count - 1],
            "trt:Profiles"@,
        )
    }
}

fn render_profiles(f: &MediaFacts) -> (out: String)
    ensures
        out@ == profiles_xml(*f, f.descs@.len()),
{
    let mut out = String::new();
    let mut i: usize = 0;
    assert(out@ =~= profiles_xml(*f, 0));
    while i < f.descs.len()
        invariant
            i <= f.descs@.len(),
            out@ == profiles_xml(*f, i as nat),
        decreases f.descs@.len() - i,
    {
        assert(descs_view(f.descs@)[i as int] == f.descs@[i as int]@);
        let parts = profile_parts(f, &f.descs[i]);
        out.append(parts.render("trt:Profiles").as_str());
        i += 1;
    }
    out
}

/// The configuration of an encoder, under another element name.
pub open spec fn encoder_named(cam_name: Seq<char>, d: StreamDescView, element: Seq<char>) -> Seq<
    char,
> {
    text::replaced(
        text::replaced(
            video_encoder_configuration(cam_name, d),
            "<tt:VideoEncoderConfiguration"@,
            "<"@ + element,
        ),
        "</tt:VideoEncoderConfiguration>"@,
        "</"@ + element + ">"@,
    )
}

fn render_encoder_named(cam_name: &str, d: &StreamDesc, element: &str) -> (out: String)
    ensures
        out@ == encoder_named(cam_name@, d@, element@),
{
    proof {
        reveal_strlit("<tt:VideoEncoderConfiguration");
        reveal_strlit("</tt:VideoEncoderConfiguration>");
    }
    let open = text::joined("<", element);
    let mut close = text::joined("</", element);
    close.append(">");
    let first = text::replace(
        render_video_encoder_configuration(cam_name, d).as_str(),
        "<tt:VideoEncoderConfiguration",
        open.as_str(),
    );
    text::replace(first.as_str(), "</tt:VideoEncoderConfiguration>", close.as_str())
}

/// The configuration of the video source, under another element name.
pub open spec fn source_named(cam_name: Seq<char>, descs: Seq<StreamDescView>) -> Seq<char> {
    text::replaced(
        text::replaced(
            video_source_configuration(cam_name, descs),
            "<tt:VideoSourceConfiguration"@,
            "<trt:Configurations"@,
        ),
        "</tt:VideoSourceConfiguration>"@,
        "</trt:Configurations>"@,
    )
}

fn render_source_named(cam_name: &str, descs: &Vec<StreamDesc>) -> (out: String)
    ensures
        out@ == source_named(cam_name@, descs_view(descs@)),
{
    proof {
        reveal_strlit("<tt:VideoSourceConfiguration");
        reveal_strlit("</tt:VideoSourceConfiguration>");
    }
    let first = text::replace(
        render_video_source_configuration(cam_name, descs).as_str(),
        "<tt:VideoSourceConfiguration",
        "<trt:Configurations",
    );
    text::replace(first.as_str(), "</tt:VideoSourceConfiguration>", "</trt:Configurations>")
}

/// The configurations of the encoders, one after the other.
pub open spec fn encoders_xml(f: MediaFacts, count: nat) -> Seq<char>
    decreases count,
{
    if count == 0 {
        Seq::empty()
    } else {
        encoders_xml(f, (count - 1) as nat) + encoder_named(
            f.cam_name@,
            descs_view(f.descs@)[count - 1],
            "trt:Configurations"@,
        )
    }
}

fn render_encoders(f: &MediaFacts) -> (out: String)
    ensures
        out@ == encoders_xml(*f, f.descs@.len()),
{
    let mut out = String::new();
    let mut i: usize = 0;
    assert(out@ =~= encoders_xml(*f, 0));
    while i < f.descs.len()
        invariant
            i <= f.descs@.len(),
            out@ == encoders_xml(*f, i as nat),
        decreases f.descs@.len() - i,
    {
        assert(descs_view(f.descs@)[i as int] == f.descs@[i as int]@);
        out.append(render_encoder_named(f.cam_name, &f.descs[i], "trt:Configurations").as_str());
        i += 1;
    }
    out
}

/// Where a stream is served from.
pub open spec fn stream_uri(f: MediaFacts, host: Seq<char>, s: OnvifStream) -> Seq<char> {
    "rtsp://"@ + host + ":"@ + text::decimal(f.rtsp_port as nat) + "/"@ + state::path_segment(
        f.cam_name@,
    ) + "/"@ + state::stream_name(s)
}

/// Where a picture is served from.
pub open spec fn snapshot_uri(f: MediaFacts, authority: Seq<char>, s: OnvifStream) -> Seq<char> {
    "http://"@ + authority + "/onvif/"@ + state::path_segment(f.cam_name@) + "/snapshot/"@
        + state::stream_name(s)
}

/// An answer that hands out a URI.
pub open spec fn uri_xml(kind: Seq<char>, uri: Seq<char>) -> Seq<char> {
    "<trt:"@ + kind + "><trt:MediaUri><tt:Uri>"@ + soap::escaped(uri)
        + "</tt:Uri><tt:InvalidAfterConnect>false</tt:InvalidAfterConnect><tt:InvalidAfterReboot>false</tt:InvalidAfterReboot><tt:Timeout>PT60S</tt:Timeout></trt:MediaUri></trt:"@
        + kind + ">"@
}

fn render_uri(kind: &str, uri: &str) -> (out: String)
    ensures
        out@ == uri_xml(kind@, uri@),
{
    let mut out = "<trt:".to_owned();
    out.append(kind);
    out.append("><trt:MediaUri><tt:Uri>");
    out.append(soap::xml_escape(uri).as_str());
    out.append(
        "</tt:Uri><tt:InvalidAfterConnect>false</tt:InvalidAfterConnect><tt:InvalidAfterReboot>false</tt:InvalidAfterReboot><tt:Timeout>PT60S</tt:Timeout></trt:MediaUri></trt:",
    );
    out.append(kind);
    out.append(">");
    out
}

/// Requests about profiles and the addresses of their streams.
pub open spec fn profile_reply(f: MediaFacts, action: Seq<char>, r: MediaRequestView) -> Option<
    Result<Seq<char>, device::FaultView>,
> {
    if action == "GetProfiles"@ {
        Some(
            Ok(
                "<trt:GetProfilesResponse>"@ + profiles_xml(f, f.descs@.len())
                    + "</trt:GetProfilesResponse>"@,
            ),
        )
    } else if action == "GetProfile"@ {
        Some(
            match asked_profile(f, r) {
                Err(e) => Err(e),
                Ok(d) => Ok(
                    "<trt:GetProfileResponse>"@ + stream_profile(f, d, "trt:Profile"@)
                        + "</trt:GetProfileResponse>"@,
                ),
            },
        )
    } else if action == "GetStreamUri"@ {
        Some(
            match asked_profile(f, r) {
                Err(e) => Err(e),
                Ok(d) => match f.host {
                    Err(e) => Err(device::fault(FaultCode::Other, e@)),
                    Ok(host) => Ok(
                        uri_xml("GetStreamUriResponse"@, stream_uri(f, host@, d.stream)),
                    ),
                },
            },
        )
    } else if action == "GetSnapshotUri"@ {
        Some(
            match asked_profile(f, r) {
                Err(e) => Err(e),
                Ok(d) => match f.authority {
                    Err(e) => Err(device::fault(FaultCode::Other, e@)),
                    Ok(authority) => Ok(
                        uri_xml(
                            "GetSnapshotUriResponse"@,
                            snapshot_uri(f, authority@, d.stream),
                        ),
                    ),
                },
            },
        )
    } else {
        None
    }
}

fn reply_profile(f: &MediaFacts, action: &str, r: &MediaRequest) -> (reply: Option<
    Result<String, FaultBody>,
>)
    ensures
        (match reply {
            Some(given) => Some(device::reply_view(given)),
            None => None,
        }) == profile_reply(*f, action@, r@),
{
    if text::same(action, "GetProfiles") {
        let mut body = "<trt:GetProfilesResponse>".to_owned();
        body.append(render_profiles(f).as_str());
        body.append("</trt:GetProfilesResponse>");
        return Some(Ok(body));
    }
    let single: bool = text::same(action, "GetProfile");
    let stream: bool = text::same(action, "GetStreamUri");
    let picture: bool = text::same(action, "GetSnapshotUri");
    if !single && !stream && !picture {
        return None;
    }
    let d: &StreamDesc = match profile_asked(f, r) {
        Ok(d) => d,
        Err(fault) => {
            return Some(Err(fault));
        },
    };
    if single {
        let parts = profile_parts(f, d);
        let mut body = "<trt:GetProfileResponse>".to_owned();
        body.append(parts.render("trt:Profile").as_str());
        body.append("</trt:GetProfileResponse>");
        return Some(Ok(body));
    }
    if stream {
        return match f.host {
            Err(e) => Some(Err(device::other_fault(e.to_owned()))),
            Ok(host) => {
                let mut uri = "rtsp://".to_owned();
                uri.append(host);
                uri.append(":");
                text::append_decimal(&mut uri, f.rtsp_port as u64);
                uri.append("/");
                uri.append(state::url_path_segment(f.cam_name).as_str());
                uri.append("/");
                uri.append(d.stream.as_rtsp_path());
                Some(Ok(render_uri("GetStreamUriResponse", uri.as_str())))
            },
        };
    }
    match f.authority {
        Err(e) => Some(Err(device::other_fault(e.to_owned()))),
        Ok(authority) => {
            let mut uri = "http://".to_owned();
            uri.append(authority);
            uri.append("/onvif/");
            uri.append(state::url_path_segment(f.cam_name).as_str());
            uri.append("/snapshot/");
            uri.append(d.stream.as_rtsp_path());
            Some(Ok(render_uri("GetSnapshotUriResponse", uri.as_str())))
        },
    }
}

/// The video sources of a camera: one, described by its best stream.
pub open spec fn video_sources(f: MediaFacts) -> Seq<char> {
    "<trt:GetVideoSourcesResponse><tt:VideoSources token=\"vsrc_"@ + soap::escaped(f.cam_name@) + "\"><tt:Framerate>"@ + text::decimal(sensor_framerate(descs_view(f.descs@))) + "</tt:Framerate><tt:Resolution><tt:Width>"@ + text::decimal(sensor_width(descs_view(f.descs@))) + "</tt:Width><tt:Height>"@ + text::decimal(sensor_height(descs_view(f.descs@))) + "</tt:Height></tt:Resolution></tt:VideoSources></trt:GetVideoSourcesResponse>"@
}

/// The video sources of a camera: one, described by its best stream.
pub fn render_video_sources(f: &MediaFacts) -> (out: String)
    ensures
        out@ == video_sources(*f),
{
    let size = sensor(f.descs);
    let mut out = "<trt:GetVideoSourcesResponse><tt:VideoSources token=\"vsrc_".to_owned();
    out.append(soap::xml_escape(f.cam_name).as_str());
    out.append("\"><tt:Framerate>");
    text::append_decimal(&mut out, size.2 as u64);
    out.append("</tt:Framerate><tt:Resolution><tt:Width>");
    text::append_decimal(&mut out, size.0 as u64);
    out.append("</tt:Width><tt:Height>");
    text::append_decimal(&mut out, size.1 as u64);
    out.append("</tt:Height></tt:Resolution></tt:VideoSources></trt:GetVideoSourcesResponse>");
    out
}

/// Requests about video sources and encoders.
pub open spec fn video_reply(f: MediaFacts, action: Seq<char>, r: MediaRequestView) -> Option<
    Result<Seq<char>, device::FaultView>,
> {
    if action == "GetVideoSources"@ {
        Some(Ok(video_sources(f)))
    } else if action == "GetVideoSourceConfigurations"@ {
        Some(
            Ok(
                "<trt:GetVideoSourceConfigurationsResponse>"@ + source_named(
                    f.cam_name@,
                    descs_view(f.descs@),
                ) + "</trt:GetVideoSourceConfigurationsResponse>"@,
            ),
        )
    } else if action == "GetVideoEncoderConfigurations"@ {
        Some(
            Ok(
                "<trt:GetVideoEncoderConfigurationsResponse>"@ + encoders_xml(f, f.descs@.len())
                    + "</trt:GetVideoEncoderConfigurationsResponse>"@,
            ),
        )
    } else if action == "GetVideoEncoderConfiguration"@ {
        Some(
            match r.configuration_token {
                None => Err(device::fault(FaultCode::InvalidArgs, "Missing ConfigurationToken"@)),
                Some(token) => match named_by(f, encoder_tokens(f), token) {
                    None => Err(
                        device::fault(
                            FaultCode::InvalidArgs,
                            "Unknown configuration token '"@ + token + "'"@,
                        ),
                    ),
                    Some(d) => Ok(
                        "<trt:GetVideoEncoderConfigurationResponse>"@ + encoder_named(
                            f.cam_name@,
                            d,
                            "trt:Configuration"@,
                        ) + "</trt:GetVideoEncoderConfigurationResponse>"@,
                    ),
                },
            },
        )
    } else if action == "GetVideoEncoderConfigurationOptions"@ {
        Some(
            match selected(f, r) {
                Err(e) => Err(e),
                Ok(list) => Ok(
                    "<trt:GetVideoEncoderConfigurationOptionsResponse>"@ + encoder_options(list)
                        + "</trt:GetVideoEncoderConfigurationOptionsResponse>"@,
                ),
            },
        )
    } else {
        None
    }
}

fn enclosed(before: &str, inner: &str, behind: &str) -> (out: String)
    ensures
        out@ == before@ + inner@ + behind@,
{
    let mut out = before.to_owned();
    out.append(inner);
    out.append(behind);
    out
}

fn reply_video(f: &MediaFacts, action: &str, r: &MediaRequest) -> (reply: Option<
    Result<String, FaultBody>,
>)
    ensures
        (match reply {
            Some(given) => Some(device::reply_view(given)),
            None => None,
        }) == video_reply(*f, action@, r@),
{
    if text::same(action, "GetVideoSources") {
        return Some(Ok(render_video_sources(f)));
    }
    if text::same(action, "GetVideoSourceConfigurations") {
        return Some(
            Ok(
                enclosed(
                    "<trt:GetVideoSourceConfigurationsResponse>",
                    render_source_named(f.cam_name, f.descs).as_str(),
                    "</trt:GetVideoSourceConfigurationsResponse>",
                ),
            ),
        );
    }
    if text::same(action, "GetVideoEncoderConfigurations") {
        return Some(
            Ok(
                enclosed(
                    "<trt:GetVideoEncoderConfigurationsResponse>",
                    render_encoders(f).as_str(),
                    "</trt:GetVideoEncoderConfigurationsResponse>",
                ),
            ),
        );
    }
    if text::same(action, "GetVideoEncoderConfiguration") {
        let token = match &r.configuration_token {
            Some(token) => token,
            None => {
                return Some(
                    Err(
                        FaultBody {
                            code: FaultCode::InvalidArgs,
                            reason: "Missing ConfigurationToken".to_owned(),
                        },
                    ),
                );
            },
        };
        return match find_encoder(f, token.as_str()) {
            Some(d) => Some(
                Ok(
                    enclosed(
                        "<trt:GetVideoEncoderConfigurationResponse>",
                        render_encoder_named(f.cam_name, d, "trt:Configuration").as_str(),
                        "</trt:GetVideoEncoderConfigurationResponse>",
                    ),
                ),
            ),
            None => Some(
                Err(
                    device::quoting_fault(
                        FaultCode::InvalidArgs,
                        "Unknown configuration token '",
                        token.as_str(),
                        "'",
                    ),
                ),
            ),
        };
    }
    if text::same(action, "GetVideoEncoderConfigurationOptions") {
        return match select_descs(f, r) {
            Ok(list) => Some(
                Ok(
                    enclosed(
                        "<trt:GetVideoEncoderConfigurationOptionsResponse>",
                        render_video_encoder_options(list.as_slice()).as_str(),
                        "</trt:GetVideoEncoderConfigurationOptionsResponse>",
                    ),
                ),
            ),
            Err(fault) => Some(Err(fault)),
        };
    }
    None
}

/// What the audio encoder may be set to: what it is.
pub open spec fn audio_options(format: AudioFormat) -> Seq<char> {
    "<trt:GetAudioEncoderConfigurationOptionsResponse><trt:Options><tt:Options><tt:Encoding>"@ + audio_encoding(format) + "</tt:Encoding><tt:BitrateList><tt:Items>"@ + text::decimal(audio_bitrate(format)) + "</tt:Items></tt:BitrateList><tt:SampleRateList><tt:Items>"@ + text::decimal(16) + "</tt:Items></tt:SampleRateList></tt:Options></trt:Options></trt:GetAudioEncoderConfigurationOptionsResponse>"@
}

/// What the audio encoder may be set to: what it is.
pub fn render_audio_options(format: AudioFormat) -> (out: String)
    ensures
        out@ == audio_options(format),
{
    let desc = audio_desc(format);
    let mut out = "<trt:GetAudioEncoderConfigurationOptionsResponse><trt:Options><tt:Options><tt:Encoding>".to_owned();
    out.append(desc.encoding);
    out.append("</tt:Encoding><tt:BitrateList><tt:Items>");
    text::append_decimal(&mut out, desc.bitrate_kbps as u64);
    out.append("</tt:Items></tt:BitrateList><tt:SampleRateList><tt:Items>");
    text::append_decimal(&mut out, desc.samplerate_khz as u64);
    out.append("</tt:Items></tt:SampleRateList></tt:Options></trt:Options></trt:GetAudioEncoderConfigurationOptionsResponse>");
    out
}

/// What the service can do. The profiles are those of the configured streams.
pub open spec fn media_capabilities(f: MediaFacts) -> Seq<char> {
    "<trt:GetServiceCapabilitiesResponse><trt:Capabilities SnapshotUri=\"true\" Rotation=\"false\" VideoSourceMode=\"false\" OSD=\""@ + text::bool_text(f.caps.osd) + "\"><trt:ProfileCapabilities MaximumNumberOfProfiles=\""@ + text::decimal(f.descs@.len()) + "\"/><trt:StreamingCapabilities RTPMulticast=\"false\" RTP_TCP=\"true\" RTP_RTSP_TCP=\"true\" NonAggregateControl=\"false\" NoRTSPStreaming=\"false\"/></trt:Capabilities></trt:GetServiceCapabilitiesResponse>"@
}

/// What the service can do. The profiles are those of the configured streams.
pub fn render_service_capabilities(f: &MediaFacts) -> (out: String)
    ensures
        out@ == media_capabilities(*f),
{
    let mut out = "<trt:GetServiceCapabilitiesResponse><trt:Capabilities SnapshotUri=\"true\" Rotation=\"false\" VideoSourceMode=\"false\" OSD=\"".to_owned();
    out.append(text::bool_word(f.caps.osd));
    out.append("\"><trt:ProfileCapabilities MaximumNumberOfProfiles=\"");
    text::append_decimal(&mut out, f.descs.len() as u64);
    out.append("\"/><trt:StreamingCapabilities RTPMulticast=\"false\" RTP_TCP=\"true\" RTP_RTSP_TCP=\"true\" NonAggregateControl=\"false\" NoRTSPStreaming=\"false\"/></trt:Capabilities></trt:GetServiceCapabilitiesResponse>");
    out
}

/// Requests about audio. A camera without a microphone answers with empty lists:
/// "this device has no audio" is a valid answer.
pub open spec fn audio_reply(f: MediaFacts, action: Seq<char>) -> Option<Seq<char>> {
    if action == "GetAudioSources"@ {
        Some(
            if f.caps.audio {
                "<trt:GetAudioSourcesResponse><tt:AudioSources token=\"asrc_"@ + soap::escaped(
                    f.cam_name@,
                )
                    + "\"><tt:Channels>1</tt:Channels></tt:AudioSources></trt:GetAudioSourcesResponse>"@
            } else {
                "<trt:GetAudioSourcesResponse/>"@
            },
        )
    } else if action == "GetAudioSourceConfigurations"@ {
        Some(
            if f.caps.audio {
                "<trt:GetAudioSourceConfigurationsResponse>"@ + audio_source_configuration(
                    f.cam_name@,
                    "trt:Configurations"@,
                ) + "</trt:GetAudioSourceConfigurationsResponse>"@
            } else {
                "<trt:GetAudioSourceConfigurationsResponse/>"@
            },
        )
    } else if action == "GetAudioEncoderConfigurations"@ {
        Some(
            if f.caps.audio {
                "<trt:GetAudioEncoderConfigurationsResponse>"@ + audio_encoder_configuration(
                    f.cam_name@,
                    f.audio_format,
                    "trt:Configurations"@,
                ) + "</trt:GetAudioEncoderConfigurationsResponse>"@
            } else {
                "<trt:GetAudioEncoderConfigurationsResponse/>"@
            },
        )
    } else if action == "GetAudioEncoderConfigurationOptions"@ {
        Some(
            if f.caps.audio {
                audio_options(f.audio_format)
            } else {
                "<trt:GetAudioEncoderConfigurationOptionsResponse><trt:Options/></trt:GetAudioEncoderConfigurationOptionsResponse>"@
            },
        )
    } else {
        None
    }
}

fn reply_audio(f: &MediaFacts, action: &str) -> (reply: Option<String>)
    ensures
        text::opt_view(reply) == audio_reply(*f, action@),
{
    if text::same(action, "GetAudioSources") {
        if !f.caps.audio {
            return Some("<trt:GetAudioSourcesResponse/>".to_owned());
        }
        return Some(
            enclosed(
                "<trt:GetAudioSourcesResponse><tt:AudioSources token=\"asrc_",
                soap::xml_escape(f.cam_name).as_str(),
                "\"><tt:Channels>1</tt:Channels></tt:AudioSources></trt:GetAudioSourcesResponse>",
            ),
        );
    }
    if text::same(action, "GetAudioSourceConfigurations") {
        if !f.caps.audio {
            return Some("<trt:GetAudioSourceConfigurationsResponse/>".to_owned());
        }
        return Some(
            enclosed(
                "<trt:GetAudioSourceConfigurationsResponse>",
                render_audio_source_configuration(f.cam_name, "trt:Configurations").as_str(),
                "</trt:GetAudioSourceConfigurationsResponse>",
            ),
        );
    }
    if text::same(action, "GetAudioEncoderConfigurations") {
        if !f.caps.audio {
            return Some("<trt:GetAudioEncoderConfigurationsResponse/>".to_owned());
        }
        return Some(
            enclosed(
                "<trt:GetAudioEncoderConfigurationsResponse>",
                render_audio_encoder_configuration(
                    f.cam_name,
                    f.audio_format,
                    "trt:Configurations",
                ).as_str(),
                "</trt:GetAudioEncoderConfigurationsResponse>",
            ),
        );
    }
    if text::same(action, "GetAudioEncoderConfigurationOptions") {
        if !f.caps.audio {
            return Some(
                "<trt:GetAudioEncoderConfigurationOptionsResponse><trt:Options/></trt:GetAudioEncoderConfigurationOptionsResponse>".to_owned(),
            );
        }
        return Some(render_audio_options(f.audio_format));
    }
    None
}

/// How a request that does not concern OSDs is answered.
pub open spec fn media_reply(f: MediaFacts, action: Seq<char>, r: MediaRequestView) -> Result<
    Seq<char>,
    device::FaultView,
> {
    match profile_reply(f, action, r) {
        Some(reply) => reply,
        None => match video_reply(f, action, r) {
            Some(reply) => reply,
            None => match audio_reply(f, action) {
                Some(body) => Ok(body),
                None => if action == "GetServiceCapabilities"@ {
                    Ok(media_capabilities(f))
                } else {
                    Err(
                        device::fault(
                            FaultCode::ActionNotSupported,
                            "Media action '"@ + action + "' not supported"@,
                        ),
                    )
                },
            },
        },
    }
}

/// Whether a request concerns OSDs.
pub open spec fn about_osd(action: Seq<char>) -> bool {
    action == "GetOSDs"@ || action == "GetOSD"@ || action == "GetOSDOptions"@ || action
        == "SetOSD"@
}

/// Whether a request concerns OSDs, and so needs the camera's general settings.
pub fn is_about_osd(action: &str) -> (yes: bool)
    ensures
        yes == about_osd(action@),
{
    text::same(action, "GetOSDs") || text::same(action, "GetOSD") || text::same(
        action,
        "GetOSDOptions",
    ) || text::same(action, "SetOSD")
}

/// Answer a request with these tokens that does not concern OSDs.
pub fn reply_media(f: &MediaFacts, action: &str, r: &MediaRequest) -> (reply: Result<
    String,
    FaultBody,
>)
    ensures
        device::reply_view(reply) == media_reply(*f, action@, r@),
{
    match reply_profile(f, action, r) {
        Some(reply) => {
            return reply;
        },
        None => {},
    }
    match reply_video(f, action, r) {
        Some(reply) => {
            return reply;
        },
        None => {},
    }
    match reply_audio(f, action) {
        Some(body) => {
            return Ok(body);
        },
        None => {},
    }
    if text::same(action, "GetServiceCapabilities") {
        return Ok(render_service_capabilities(f));
    }
    Err(
        device::quoting_fault(
            FaultCode::ActionNotSupported,
            "Media action '",
            action,
            "' not supported",
        ),
    )
}

/// Answer a request: what to write to the camera, if anything, and what to say
/// once that is done. `general` holds the camera's general settings, or why they
/// could not be read; only requests about OSDs look at it.
pub fn dispatch(
    f: &MediaFacts,
    general: Result<SystemGeneral, String>,
    action: &str,
    body_xml: &str,
) -> (answer: Result<osd::OsdAnswer, FaultBody>)
    ensures
        if about_osd(action@) {
            osd::osd_answered(f.cam_name@, f.caps, general, action@, body_xml@, answer)
        } else {
            osd::only_says(answer, media_reply(*f, action@, request_of(body_xml@)))
        },
{
    if is_about_osd(action) {
        return osd::dispatch(f.cam_name, &f.caps, general, action, body_xml);
    }
    match reply_media(f, action, &read_request(body_xml)) {
        Ok(body) => Ok(
            osd::OsdAnswer {
                write: None,
                xml: soap::wrap_envelope(body.as_str(), soap::NS_ALL),
            },
        ),
        Err(fault) => Err(fault),
    }
}

proof fn lemma_stream_names_differ(a: OnvifStream, b: OnvifStream)
    requires
        state::stream_name(a) == state::stream_name(b),
    ensures
        a == b,
{
    reveal_strlit("main");
    reveal_strlit("sub");
    reveal_strlit("extern");
    assert("main"@[0] == 'm');
    assert("sub"@[0] == 's');
    assert("extern"@[0] == 'e');
}

/// Every profile that is listed can be asked for by its token.
pub proof fn law_listed_profiles_resolve(f: MediaFacts, i: int)
    requires
        0 <= i < f.descs@.len(),
    ensures
        named_by(
            f,
            profile_tokens(f),
            profile_token_of(f.cam_name@, descs_view(f.descs@)[i].stream),
        ) matches Some(d) && d.stream == descs_view(f.descs@)[i].stream,
{
    let all = descs_view(f.descs@);
    let tokens = profile_tokens(f);
    let token = profile_token_of(f.cam_name@, all[i].stream);
    text::lemma_place(tokens, token);
    let at = text::place(tokens, token);
    assert(tokens[i] == token);
    assert(0 <= at <= i);
    assert(tokens[at] == profile_token_of(f.cam_name@, all[at].stream));
    let head = "profile_"@ + f.cam_name@ + "_"@;
    assert(tokens[at].skip(head.len() as int) =~= state::stream_name(all[at].stream));
    assert(token.skip(head.len() as int) =~= state::stream_name(all[i].stream));
    lemma_stream_names_differ(all[at].stream, all[i].stream);
}

proof fn lemma_actions()
    ensures
        "GetProfiles"@.len() == 11,
        "GetProfile"@.len() == 10,
        "GetStreamUri"@.len() == 12,
        "GetSnapshotUri"@.len() == 14,
        "GetVideoSources"@.len() == 15,
        "GetVideoSourceConfigurations"@.len() == 28,
        "GetVideoEncoderConfigurations"@.len() == 29,
        "GetVideoEncoderConfiguration"@.len() == 28,
        "GetVideoEncoderConfigurationOptions"@.len() == 35,
        "GetAudioSources"@.len() == 15,
        "GetAudioSourceConfigurations"@.len() == 28,
        "GetAudioEncoderConfigurations"@.len() == 29,
        "GetAudioEncoderConfigurationOptions"@.len() == 35,
        "GetServiceCapabilities"@.len() == 22,
        "GetVideoSources"@ != "GetAudioSources"@,
        "GetVideoSourceConfigurations"@ != "GetVideoEncoderConfiguration"@,
        "GetVideoSourceConfigurations"@ != "GetAudioSourceConfigurations"@,
        "GetVideoEncoderConfigurations"@ != "GetAudioEncoderConfigurations"@,
        "GetVideoEncoderConfiguration"@ != "GetAudioSourceConfigurations"@,
        "GetVideoEncoderConfigurationOptions"@ != "GetAudioEncoderConfigurationOptions"@,
{
    reveal_strlit("GetProfiles");
    reveal_strlit("GetProfile");
    reveal_strlit("GetStreamUri");
    reveal_strlit("GetSnapshotUri");
    reveal_strlit("GetVideoSources");
    reveal_strlit("GetVideoSourceConfigurations");
    reveal_strlit("GetVideoEncoderConfigurations");
    reveal_strlit("GetVideoEncoderConfiguration");
    reveal_strlit("GetVideoEncoderConfigurationOptions");
    reveal_strlit("GetAudioSources");
    reveal_strlit("GetAudioSourceConfigurations");
    reveal_strlit("GetAudioEncoderConfigurations");
    reveal_strlit("GetAudioEncoderConfigurationOptions");
    reveal_strlit("GetServiceCapabilities");
    assert("GetVideoSources"@[3] != "GetAudioSources"@[3]);
    assert("GetVideoSourceConfigurations"@[8] != "GetVideoEncoderConfiguration"@[8]);
    assert("GetVideoSourceConfigurations"@[3] != "GetAudioSourceConfigurations"@[3]);
    assert("GetVideoEncoderConfigurations"@[3] != "GetAudioEncoderConfigurations"@[3]);
    assert("GetVideoEncoderConfiguration"@[3] != "GetAudioSourceConfigurations"@[3]);
    assert("GetVideoEncoderConfigurationOptions"@[3] != "GetAudioEncoderConfigurationOptions"@[3]);
}

/// The addresses that are handed out for a profile are those of the profile's own
/// stream: they end in `/main` for the profile whose token ends in `_main`, and in
/// `/sub` and `/extern` for the others; streams are served by RTSP on the RTSP
/// port, pictures by HTTP.
pub proof fn law_addresses_are_of_the_profile_asked_for(f: MediaFacts, body: Seq<char>, i: int)
    requires
        0 <= i < f.descs@.len(),
        ({
            let s = f.descs@[i].stream;
            let tail = if s == OnvifStream::Main {
                "main"@
            } else if s == OnvifStream::Sub {
                "sub"@
            } else {
                "extern"@
            };
            xml::first_text(body, "ProfileToken"@) == Some("profile_"@ + f.cam_name@ + "_"@ + tail)
        }),
    ensures
        ({
            let s = f.descs@[i].stream;
            let tail = if s == OnvifStream::Main {
                "main"@
            } else if s == OnvifStream::Sub {
                "sub"@
            } else {
                "extern"@
            };
            let r = request_of(body);
            &&& f.host matches Ok(host) ==> (media_reply(f, "GetStreamUri"@, r) matches Ok(said)
                && text::has(
                said,
                "<tt:Uri>"@ + soap::escaped(
                    "rtsp://"@ + host@ + ":"@ + text::decimal(f.rtsp_port as nat) + "/"@
                        + state::path_segment(f.cam_name@) + "/"@ + tail,
                ) + "</tt:Uri>"@,
            ))
            &&& f.authority matches Ok(authority) ==> (media_reply(f, "GetSnapshotUri"@, r)
                matches Ok(said) && text::has(
                said,
                "<tt:Uri>"@ + soap::escaped(
                    "http://"@ + authority@ + "/onvif/"@ + state::path_segment(f.cam_name@)
                        + "/snapshot/"@ + tail,
                ) + "</tt:Uri>"@,
            ))
            &&& f.host is Err ==> media_reply(f, "GetStreamUri"@, r) is Err
            &&& f.authority is Err ==> media_reply(f, "GetSnapshotUri"@, r) is Err
        }),
{
    lemma_actions();
    let s = f.descs@[i].stream;
    let all = descs_view(f.descs@);
    assert(all[i].stream == s);
    law_listed_profiles_resolve(f, i);
    if let Ok(host) = f.host {
        lemma_uri_stands("GetStreamUriResponse"@, stream_uri(f, host@, s));
    }
    if let Ok(authority) = f.authority {
        lemma_uri_stands("GetSnapshotUriResponse"@, snapshot_uri(f, authority@, s));
    }
}

proof fn lemma_uri_stands(kind: Seq<char>, uri: Seq<char>)
    ensures
        text::has(uri_xml(kind, uri), "<tt:Uri>"@ + soap::escaped(uri) + "</tt:Uri>"@),
{
    reveal_strlit("><trt:MediaUri><tt:Uri>");
    reveal_strlit("><trt:MediaUri>");
    reveal_strlit("<tt:Uri>");
    reveal_strlit("</tt:Uri>");
    reveal_strlit(
        "</tt:Uri><tt:InvalidAfterConnect>false</tt:InvalidAfterConnect><tt:InvalidAfterReboot>false</tt:InvalidAfterReboot><tt:Timeout>PT60S</tt:Timeout></trt:MediaUri></trt:",
    );
    let long =
        "</tt:Uri><tt:InvalidAfterConnect>false</tt:InvalidAfterConnect><tt:InvalidAfterReboot>false</tt:InvalidAfterReboot><tt:Timeout>PT60S</tt:Timeout></trt:MediaUri></trt:"@;
    let before = "<trt:"@ + kind + "><trt:MediaUri>"@;
    let middle = "<tt:Uri>"@ + soap::escaped(uri) + "</tt:Uri>"@;
    let behind = long.skip(9) + kind + ">"@;
    assert("><trt:MediaUri><tt:Uri>"@ =~= "><trt:MediaUri>"@ + "<tt:Uri>"@);
    assert(long.take(9) =~= "</tt:Uri>"@);
    assert(long =~= "</tt:Uri>"@ + long.skip(9));
    assert(uri_xml(kind, uri) =~= before + middle + behind);
    text::lemma_has_between(before, middle, behind);
}

/// No two streams of a camera are served from the same address, nor their
/// pictures.
pub proof fn law_streams_have_their_own_addresses(
    f: MediaFacts,
    host: Seq<char>,
    a: OnvifStream,
    b: OnvifStream,
)
    requires
        a != b,
    ensures
        stream_uri(f, host, a) != stream_uri(f, host, b),
        snapshot_uri(f, host, a) != snapshot_uri(f, host, b),
        profile_token_of(f.cam_name@, a) != profile_token_of(f.cam_name@, b),
        video_encoder_token_of(f.cam_name@, a) != video_encoder_token_of(f.cam_name@, b),
{
    let head = "rtsp://"@ + host + ":"@ + text::decimal(f.rtsp_port as nat) + "/"@
        + state::path_segment(f.cam_name@) + "/"@;
    assert(stream_uri(f, host, a).skip(head.len() as int) =~= state::stream_name(a));
    assert(stream_uri(f, host, b).skip(head.len() as int) =~= state::stream_name(b));
    let picture = "http://"@ + host + "/onvif/"@ + state::path_segment(f.cam_name@) + "/snapshot/"@;
    assert(snapshot_uri(f, host, a).skip(picture.len() as int) =~= state::stream_name(a));
    assert(snapshot_uri(f, host, b).skip(picture.len() as int) =~= state::stream_name(b));
    let profile = "profile_"@ + f.cam_name@ + "_"@;
    assert(profile_token_of(f.cam_name@, a).skip(profile.len() as int) =~= state::stream_name(a));
    assert(profile_token_of(f.cam_name@, b).skip(profile.len() as int) =~= state::stream_name(b));
    let encoder = "vec_"@ + f.cam_name@ + "_"@;
    assert(video_encoder_token_of(f.cam_name@, a).skip(encoder.len() as int)
        =~= state::stream_name(a));
    assert(video_encoder_token_of(f.cam_name@, b).skip(encoder.len() as int)
        =~= state::stream_name(b));
    if state::stream_name(a) == state::stream_name(b) {
        lemma_stream_names_differ(a, b);
    }
}

/// A stream is described by what the camera says of the stream of that name in its
/// own protocol: its size, the rates it lists, and as its rate the one that the
/// default picks, by position where there is one and by value where there is not.
pub proof fn law_streams_are_described_by_their_own_table(
    stream: OnvifStream,
    tables: Seq<EncodeTable>,
    i: int,
)
    requires
        0 <= i < tables.len(),
        ({
            let name = if stream == OnvifStream::Main {
                "mainStream"@
            } else if stream == OnvifStream::Sub {
                "subStream"@
            } else {
                "externStream"@
            };
            tables[i].name@ == name && forall|j: int| 0 <= j < i ==> (#[trigger] tables[j]).name@
                != name
        }),
    ensures
        ({
            let d = desc_of(stream, tables);
            let t = tables[i];
            let framerates = numbers_of(text::pieces(t.framerate_table@, ','));
            let bitrates = numbers_of(text::pieces(t.bitrate_table@, ','));
            &&& d.stream == stream
            &&& d.width == t.width
            &&& d.height == t.height
            &&& d.framerates == framerates
            &&& d.bitrates == bitrates
            &&& t.default_framerate < framerates.len() && framerates[t.default_framerate as int] > 0
                ==> d.framerate == framerates[t.default_framerate as int]
            &&& t.default_framerate >= framerates.len() && t.default_framerate > 0 ==> d.framerate
                == t.default_framerate
            &&& t.default_bitrate < bitrates.len() && bitrates[t.default_bitrate as int] > 0
                ==> d.bitrate_kbps == bitrates[t.default_bitrate as int]
            &&& t.default_bitrate >= bitrates.len() && t.default_bitrate > 0 ==> d.bitrate_kbps
                == t.default_bitrate
        }),
{
    let names = table_names(tables);
    assert forall|j: int| 0 <= j < tables.len() implies #[trigger] names[j] == tables[j].name@ by {}
    text::lemma_place_is(names, state::stream_reolink_name(stream), i);
}

/// A camera that says nothing of a stream is described by defaults, the larger the
/// better the stream: the main one by 2560 by 1440, the sub one by 640 by 480, and
/// the extern one by 1280 by 720.
pub proof fn law_silent_streams_have_defaults(stream: OnvifStream, tables: Seq<EncodeTable>)
    requires
        forall|j: int|
            0 <= j < tables.len() ==> (#[trigger] tables[j]).name@
                != state::stream_reolink_name(stream),
    ensures
        ({
            let d = desc_of(stream, tables);
            &&& d.stream == stream
            &&& d.framerates.len() == 0 && d.bitrates.len() == 0
            &&& stream == OnvifStream::Main ==> d.width == 2560 && d.height == 1440 && d.framerate
                == 25 && d.bitrate_kbps == 4096
            &&& stream == OnvifStream::Sub ==> d.width == 640 && d.height == 480 && d.framerate == 15
                && d.bitrate_kbps == 512
            &&& stream == OnvifStream::Extern ==> d.width == 1280 && d.height == 720 && d.framerate
                == 20 && d.bitrate_kbps == 1024
        }),
{
    let names = table_names(tables);
    assert forall|j: int| 0 <= j < tables.len() implies #[trigger] names[j] == tables[j].name@ by {}
    text::lemma_place_is(names, state::stream_reolink_name(stream), tables.len() as int);
}

/// The configuration of an encoder names its stream and says what the stream is
/// like: its width as the width, its height as the height, its frame rate and its
/// bit rate as the limits.
pub proof fn law_encoders_say_what_their_stream_is_like(cam_name: Seq<char>, d: StreamDescView)
    ensures
        ({
            let xml = video_encoder_configuration(cam_name, d);
            &&& text::has(
                xml,
                "<tt:Width>"@ + text::decimal(d.width as nat) + "</tt:Width><tt:Height>"@
                    + text::decimal(d.height as nat) + "</tt:Height>"@,
            )
            &&& text::has(
                xml,
                "<tt:FrameRateLimit>"@ + text::decimal(d.framerate as nat)
                    + "</tt:FrameRateLimit>"@,
            )
            &&& text::has(
                xml,
                "<tt:BitrateLimit>"@ + text::decimal(d.bitrate_kbps as nat) + "</tt:BitrateLimit>"@,
            )
            &&& text::has(
                xml,
                " token=\"vec_"@ + cam_name + "_"@ + (if d.stream == OnvifStream::Main {
                    "main"@
                } else if d.stream == OnvifStream::Sub {
                    "sub"@
                } else {
                    "extern"@
                }) + "\">"@,
            )
        }),
{
    let name = state::stream_name(d.stream);
    assert(video_encoder_token_of(cam_name, d.stream) =~= "vec_"@ + cam_name + "_"@ + name);
    {
        reveal_strlit("</tt:Height></tt:Resolution><tt:Quality>5</tt:Quality><tt:RateControl><tt:FrameRateLimit>");
        reveal_strlit("<tt:Width>");
        reveal_strlit("</tt:Height>");
        reveal_strlit("</tt:Name><tt:UseCount>1</tt:UseCount><tt:Encoding>H264</tt:Encoding><tt:Resolution><tt:Width>");
        assert("</tt:Name><tt:UseCount>1</tt:UseCount><tt:Encoding>H264</tt:Encoding><tt:Resolution><tt:Width>"@.skip(84) =~= "<tt:Width>"@);
        assert("</tt:Height></tt:Resolution><tt:Quality>5</tt:Quality><tt:RateControl><tt:FrameRateLimit>"@.take(12) =~= "</tt:Height>"@);
        let head = "<tt:VideoEncoderConfiguration token=\""@ + video_encoder_token_of(cam_name, d.stream) + "\"><tt:Name>"@ + soap::escaped(cam_name + "-"@ + state::stream_name(d.stream));
        let tail = text::decimal(d.framerate as nat) + "</tt:FrameRateLimit><tt:EncodingInterval>1</tt:EncodingInterval><tt:BitrateLimit>"@ + text::decimal(d.bitrate_kbps as nat) + "</tt:BitrateLimit></tt:RateControl><tt:H264><tt:GovLength>50</tt:GovLength><tt:H264Profile>High</tt:H264Profile></tt:H264><tt:Multicast><tt:Address><tt:Type>IPv4</tt:Type><tt:IPv4Address>0.0.0.0</tt:IPv4Address></tt:Address><tt:Port>0</tt:Port><tt:TTL>1</tt:TTL><tt:AutoStart>false</tt:AutoStart></tt:Multicast><tt:SessionTimeout>PT30S</tt:SessionTimeout></tt:VideoEncoderConfiguration>"@;
        let value = text::decimal(d.width as nat) + "</tt:Width><tt:Height>"@ + text::decimal(d.height as nat);
        assert(video_encoder_configuration(cam_name, d) =~= head + "</tt:Name><tt:UseCount>1</tt:UseCount><tt:Encoding>H264</tt:Encoding><tt:Resolution><tt:Width>"@ + value + "</tt:Height></tt:Resolution><tt:Quality>5</tt:Quality><tt:RateControl><tt:FrameRateLimit>"@ + tail);
        text::lemma_has_tagged(head, "</tt:Name><tt:UseCount>1</tt:UseCount><tt:Encoding>H264</tt:Encoding><tt:Resolution><tt:Width>"@, value, "</tt:Height></tt:Resolution><tt:Quality>5</tt:Quality><tt:RateControl><tt:FrameRateLimit>"@, tail, "<tt:Width>"@, "</tt:Height>"@);
        assert("<tt:Width>"@ + value + "</tt:Height>"@ =~= "<tt:Width>"@ + text::decimal(d.width as nat) + "</tt:Width><tt:Height>"@ + text::decimal(d.height as nat) + "</tt:Height>"@);
    }
    {
        reveal_strlit("</tt:FrameRateLimit><tt:EncodingInterval>1</tt:EncodingInterval><tt:BitrateLimit>");
        reveal_strlit("</tt:Height></tt:Resolution><tt:Quality>5</tt:Quality><tt:RateControl><tt:FrameRateLimit>");
        reveal_strlit("<tt:FrameRateLimit>");
        reveal_strlit("</tt:FrameRateLimit>");
        assert("</tt:Height></tt:Resolution><tt:Quality>5</tt:Quality><tt:RateControl><tt:FrameRateLimit>"@.skip(70) =~= "<tt:FrameRateLimit>"@);
        assert("</tt:FrameRateLimit><tt:EncodingInterval>1</tt:EncodingInterval><tt:BitrateLimit>"@.take(20) =~= "</tt:FrameRateLimit>"@);
        let head = "<tt:VideoEncoderConfiguration token=\""@ + video_encoder_token_of(cam_name, d.stream) + "\"><tt:Name>"@ + soap::escaped(cam_name + "-"@ + state::stream_name(d.stream)) + "</tt:Name><tt:UseCount>1</tt:UseCount><tt:Encoding>H264</tt:Encoding><tt:Resolution><tt:Width>"@ + text::decimal(d.width as nat) + "</tt:Width><tt:Height>"@ + text::decimal(d.height as nat);
        let tail = text::decimal(d.bitrate_kbps as nat) + "</tt:BitrateLimit></tt:RateControl><tt:H264><tt:GovLength>50</tt:GovLength><tt:H264Profile>High</tt:H264Profile></tt:H264><tt:Multicast><tt:Address><tt:Type>IPv4</tt:Type><tt:IPv4Address>0.0.0.0</tt:IPv4Address></tt:Address><tt:Port>0</tt:Port><tt:TTL>1</tt:TTL><tt:AutoStart>false</tt:AutoStart></tt:Multicast><tt:SessionTimeout>PT30S</tt:SessionTimeout></tt:VideoEncoderConfiguration>"@;
        let value = text::decimal(d.framerate as nat);
        assert(video_encoder_configuration(cam_name, d) =~= head + "</tt:Height></tt:Resolution><tt:Quality>5</tt:Quality><tt:RateControl><tt:FrameRateLimit>"@ + value + "</tt:FrameRateLimit><tt:EncodingInterval>1</tt:EncodingInterval><tt:BitrateLimit>"@ + tail);
        text::lemma_has_tagged(head, "</tt:Height></tt:Resolution><tt:Quality>5</tt:Quality><tt:RateControl><tt:FrameRateLimit>"@, value, "</tt:FrameRateLimit><tt:EncodingInterval>1</tt:EncodingInterval><tt:BitrateLimit>"@, tail, "<tt:FrameRateLimit>"@, "</tt:FrameRateLimit>"@);
    }
    {
        reveal_strlit("</tt:FrameRateLimit><tt:EncodingInterval>1</tt:EncodingInterval><tt:BitrateLimit>");
        reveal_strlit("</tt:BitrateLimit>");
        reveal_strlit("</tt:BitrateLimit></tt:RateControl><tt:H264><tt:GovLength>50</tt:GovLength><tt:H264Profile>High</tt:H264Profile></tt:H264><tt:Multicast><tt:Address><tt:Type>IPv4</tt:Type><tt:IPv4Address>0.0.0.0</tt:IPv4Address></tt:Address><tt:Port>0</tt:Port><tt:TTL>1</tt:TTL><tt:AutoStart>false</tt:AutoStart></tt:Multicast><tt:SessionTimeout>PT30S</tt:SessionTimeout></tt:VideoEncoderConfiguration>");
        reveal_strlit("<tt:BitrateLimit>");
        assert("</tt:FrameRateLimit><tt:EncodingInterval>1</tt:EncodingInterval><tt:BitrateLimit>"@.skip(64) =~= "<tt:BitrateLimit>"@);
        assert("</tt:BitrateLimit></tt:RateControl><tt:H264><tt:GovLength>50</tt:GovLength><tt:H264Profile>High</tt:H264Profile></tt:H264><tt:Multicast><tt:Address><tt:Type>IPv4</tt:Type><tt:IPv4Address>0.0.0.0</tt:IPv4Address></tt:Address><tt:Port>0</tt:Port><tt:TTL>1</tt:TTL><tt:AutoStart>false</tt:AutoStart></tt:Multicast><tt:SessionTimeout>PT30S</tt:SessionTimeout></tt:VideoEncoderConfiguration>"@.take(18) =~= "</tt:BitrateLimit>"@);
        let head = "<tt:VideoEncoderConfiguration token=\""@ + video_encoder_token_of(cam_name, d.stream) + "\"><tt:Name>"@ + soap::escaped(cam_name + "-"@ + state::stream_name(d.stream)) + "</tt:Name><tt:UseCount>1</tt:UseCount><tt:Encoding>H264</tt:Encoding><tt:Resolution><tt:Width>"@ + text::decimal(d.width as nat) + "</tt:Width><tt:Height>"@ + text::decimal(d.height as nat) + "</tt:Height></tt:Resolution><tt:Quality>5</tt:Quality><tt:RateControl><tt:FrameRateLimit>"@ + text::decimal(d.framerate as nat);
        let tail = Seq::<char>::empty();
        let value = text::decimal(d.bitrate_kbps as nat);
        assert(video_encoder_configuration(cam_name, d) =~= head + "</tt:FrameRateLimit><tt:EncodingInterval>1</tt:EncodingInterval><tt:BitrateLimit>"@ + value + "</tt:BitrateLimit></tt:RateControl><tt:H264><tt:GovLength>50</tt:GovLength><tt:H264Profile>High</tt:H264Profile></tt:H264><tt:Multicast><tt:Address><tt:Type>IPv4</tt:Type><tt:IPv4Address>0.0.0.0</tt:IPv4Address></tt:Address><tt:Port>0</tt:Port><tt:TTL>1</tt:TTL><tt:AutoStart>false</tt:AutoStart></tt:Multicast><tt:SessionTimeout>PT30S</tt:SessionTimeout></tt:VideoEncoderConfiguration>"@ + tail);
        text::lemma_has_tagged(head, "</tt:FrameRateLimit><tt:EncodingInterval>1</tt:EncodingInterval><tt:BitrateLimit>"@, value, "</tt:BitrateLimit></tt:RateControl><tt:H264><tt:GovLength>50</tt:GovLength><tt:H264Profile>High</tt:H264Profile></tt:H264><tt:Multicast><tt:Address><tt:Type>IPv4</tt:Type><tt:IPv4Address>0.0.0.0</tt:IPv4Address></tt:Address><tt:Port>0</tt:Port><tt:TTL>1</tt:TTL><tt:AutoStart>false</tt:AutoStart></tt:Multicast><tt:SessionTimeout>PT30S</tt:SessionTimeout></tt:VideoEncoderConfiguration>"@, tail, "<tt:BitrateLimit>"@, "</tt:BitrateLimit>"@);
    }
    {
        reveal_strlit("\">");
        reveal_strlit("<tt:VideoEncoderConfiguration token=\"");
        reveal_strlit(" token=\"");
        reveal_strlit("\"><tt:Name>");
        assert("<tt:VideoEncoderConfiguration token=\""@.skip(29) =~= " token=\""@);
        assert("\"><tt:Name>"@.take(2) =~= "\">"@);
        let head = Seq::<char>::empty();
        let tail = soap::escaped(cam_name + "-"@ + state::stream_name(d.stream)) + "</tt:Name><tt:UseCount>1</tt:UseCount><tt:Encoding>H264</tt:Encoding><tt:Resolution><tt:Width>"@ + text::decimal(d.width as nat) + "</tt:Width><tt:Height>"@ + text::decimal(d.height as nat) + "</tt:Height></tt:Resolution><tt:Quality>5</tt:Quality><tt:RateControl><tt:FrameRateLimit>"@ + text::decimal(d.framerate as nat) + "</tt:FrameRateLimit><tt:EncodingInterval>1</tt:EncodingInterval><tt:BitrateLimit>"@ + text::decimal(d.bitrate_kbps as nat) + "</tt:BitrateLimit></tt:RateControl><tt:H264><tt:GovLength>50</tt:GovLength><tt:H264Profile>High</tt:H264Profile></tt:H264><tt:Multicast><tt:Address><tt:Type>IPv4</tt:Type><tt:IPv4Address>0.0.0.0</tt:IPv4Address></tt:Address><tt:Port>0</tt:Port><tt:TTL>1</tt:TTL><tt:AutoStart>false</tt:AutoStart></tt:Multicast><tt:SessionTimeout>PT30S</tt:SessionTimeout></tt:VideoEncoderConfiguration>"@;
        let value = video_encoder_token_of(cam_name, d.stream);
        assert(video_encoder_configuration(cam_name, d) =~= head + "<tt:VideoEncoderConfiguration token=\""@ + value + "\"><tt:Name>"@ + tail);
        text::lemma_has_tagged(head, "<tt:VideoEncoderConfiguration token=\""@, value, "\"><tt:Name>"@, tail, " token=\""@, "\">"@);
    }
    assert(" token=\""@ + video_encoder_token_of(cam_name, d.stream) + "\">"@ =~= " token=\"vec_"@ + cam_name + "_"@ + name + "\">"@) by {
        reveal_strlit(" token=\"");
        reveal_strlit("vec_");
        reveal_strlit(" token=\"vec_");
        assert(" token=\"vec_"@ =~= " token=\""@ + "vec_"@);
    }
}

/// The sensor is described by the main stream wherever it stands, and by the
/// first stream where there is no main one.
pub proof fn law_sensors_are_described_by_the_main_stream(descs: Seq<StreamDescView>, i: int)
    requires
        0 <= i < descs.len(),
        forall|j: int| 0 <= j < i ==> (#[trigger] descs[j]).stream != OnvifStream::Main,
        descs[i].stream == OnvifStream::Main || (i == 0 && forall|j: int|
            0 <= j < descs.len() ==> (#[trigger] descs[j]).stream != OnvifStream::Main),
    ensures
        sensor_width(descs) == descs[i].width,
        sensor_height(descs) == descs[i].height,
        sensor_framerate(descs) == descs[i].framerate,
{
    lemma_main_of(descs, i);
}

proof fn lemma_main_of(descs: Seq<StreamDescView>, i: int)
    requires
        0 <= i < descs.len(),
        forall|j: int| 0 <= j < i ==> (#[trigger] descs[j]).stream != OnvifStream::Main,
    ensures
        descs[i].stream == OnvifStream::Main ==> main_of(descs) == Some(descs[i]),
        (forall|j: int| 0 <= j < descs.len() ==> (#[trigger] descs[j]).stream != OnvifStream::Main)
            ==> main_of(descs) is None,
    decreases descs.len(),
{
    let rest = descs.drop_first();
    if descs[0].stream != OnvifStream::Main {
        assert forall|j: int| 0 <= j < rest.len() implies #[trigger] rest[j] == descs[j + 1] by {}
        if i > 0 {
            lemma_main_of(rest, i - 1);
        } else if rest.len() > 0 {
            lemma_main_of(rest, 0);
        }
    }
}

/// Raw samples are announced as G711 at 256 kbps, and every form of AAC as AAC at
/// 32 kbps, both at 16 kHz.
pub proof fn law_audio_is_announced_as_it_is_sent(format: AudioFormat)
    ensures
        format == AudioFormat::Pcm ==> audio_encoding(format) == "G711"@ && audio_bitrate(format)
            == 256,
        format != AudioFormat::Pcm ==> audio_encoding(format) == "AAC"@ && audio_bitrate(format)
            == 32,
{
}

/// Only a camera with a microphone has audio to describe; one without answers
/// with empty lists.
pub proof fn law_audio_needs_a_microphone(f: MediaFacts, r: MediaRequestView)
    ensures
        !f.caps.audio ==> media_reply(f, "GetAudioSources"@, r) == Ok::<Seq<char>, device::FaultView>(
            "<trt:GetAudioSourcesResponse/>"@,
        ),
        !f.caps.audio ==> media_reply(f, "GetAudioSourceConfigurations"@, r) == Ok::<
            Seq<char>,
            device::FaultView,
        >("<trt:GetAudioSourceConfigurationsResponse/>"@),
        !f.caps.audio ==> media_reply(f, "GetAudioEncoderConfigurations"@, r) == Ok::<
            Seq<char>,
            device::FaultView,
        >("<trt:GetAudioEncoderConfigurationsResponse/>"@),
        f.caps.audio ==> (media_reply(f, "GetAudioEncoderConfigurations"@, r) matches Ok(said)
            && text::has(
            said,
            audio_encoder_configuration(f.cam_name@, f.audio_format, "trt:Configurations"@),
        )),
        f.caps.audio ==> (media_reply(f, "GetAudioSourceConfigurations"@, r) matches Ok(said)
            && text::has(said, audio_source_configuration(f.cam_name@, "trt:Configurations"@))),
{
    lemma_actions();
    text::lemma_has_between(
        "<trt:GetAudioEncoderConfigurationsResponse>"@,
        audio_encoder_configuration(f.cam_name@, f.audio_format, "trt:Configurations"@),
        "</trt:GetAudioEncoderConfigurationsResponse>"@,
    );
    text::lemma_has_between(
        "<trt:GetAudioSourceConfigurationsResponse>"@,
        audio_source_configuration(f.cam_name@, "trt:Configurations"@),
        "</trt:GetAudioSourceConfigurationsResponse>"@,
    );
}

/// Options are about the stream that a request names: by its configuration if it
/// names one, else by its profile, and about all streams if it names neither.
pub proof fn law_options_are_about_the_stream_named(f: MediaFacts, body: Seq<char>, i: int)
    requires
        0 <= i < f.descs@.len(),
    ensures
        ({
            let r = request_of(body);
            let all = descs_view(f.descs@);
            let configuration = xml::first_text(body, "ConfigurationToken"@);
            let profile = xml::first_text(body, "ProfileToken"@);
            &&& configuration is None && profile is None ==> selected(f, r) == Ok::<
                Seq<StreamDescView>,
                device::FaultView,
            >(all)
            &&& configuration is None && profile == Some(
                profile_token_of(f.cam_name@, all[i].stream),
            ) ==> (selected(f, r) matches Ok(list) && list.len() == 1 && list[0].stream
                == all[i].stream)
            &&& configuration == Some(video_encoder_token_of(f.cam_name@, all[i].stream)) ==> (
            selected(f, r) matches Ok(list) && list.len() == 1 && list[0].stream == all[i].stream)
        }),
{
    law_listed_profiles_resolve(f, i);
    let all = descs_view(f.descs@);
    let tokens = encoder_tokens(f);
    let token = video_encoder_token_of(f.cam_name@, all[i].stream);
    text::lemma_place(tokens, token);
    let at = text::place(tokens, token);
    assert(tokens[i] == token);
    assert(0 <= at <= i);
    assert(tokens[at] == video_encoder_token_of(f.cam_name@, all[at].stream));
    if all[at].stream != all[i].stream {
        law_streams_have_their_own_addresses(f, Seq::empty(), all[at].stream, all[i].stream);
    }
}

/// The ranges that encoder options give hold every rate that any of the streams
/// is at or lists.
pub proof fn law_option_ranges_hold_every_rate(descs: Seq<StreamDescView>, i: int)
    requires
        0 <= i < descs.len(),
    ensures
        all_framerates(descs).contains(descs[i].framerate),
        all_bitrates(descs).contains(descs[i].bitrate_kbps),
        span_of(all_framerates(descs), 1, 30).0 <= descs[i].framerate <= span_of(
            all_framerates(descs),
            1,
            30,
        ).1,
        span_of(all_bitrates(descs), 64, 8192).0 <= descs[i].bitrate_kbps <= span_of(
            all_bitrates(descs),
            64,
            8192,
        ).1,
{
    lemma_all_rates(descs, i);
    let rates = all_framerates(descs);
    let bits = all_bitrates(descs);
    let a = choose|a: int| 0 <= a < rates.len() && rates[a] == descs[i].framerate;
    let b = choose|b: int| 0 <= b < bits.len() && bits[b] == descs[i].bitrate_kbps;
    law_span_bounds_its_values(rates, a);
    law_span_bounds_its_values(bits, b);
}

proof fn lemma_all_rates(descs: Seq<StreamDescView>, i: int)
    requires
        0 <= i < descs.len(),
    ensures
        all_framerates(descs).contains(descs[i].framerate),
        all_bitrates(descs).contains(descs[i].bitrate_kbps),
    decreases descs.len(),
{
    let before = descs.drop_last();
    let last = descs.last();
    let rates = options_of(last.framerates, last.framerate);
    let bits = options_of(last.bitrates, last.bitrate_kbps);
    if i < before.len() {
        lemma_all_rates(before, i);
        let a = choose|a: int|
            0 <= a < all_framerates(before).len() && all_framerates(before)[a]
                == before[i].framerate;
        let b = choose|b: int|
            0 <= b < all_bitrates(before).len() && all_bitrates(before)[b]
                == before[i].bitrate_kbps;
        assert(all_framerates(descs)[a] == descs[i].framerate);
        assert(all_bitrates(descs)[b] == descs[i].bitrate_kbps);
    } else {
        law_options_hold_the_current_value(last.framerates, last.framerate);
        law_options_hold_the_current_value(last.bitrates, last.bitrate_kbps);
        assert(rates.contains(last.framerate));
        assert(bits.contains(last.bitrate_kbps));
        let a = choose|a: int| 0 <= a < rates.len() && rates[a] == last.framerate;
        let b = choose|b: int| 0 <= b < bits.len() && bits[b] == last.bitrate_kbps;
        assert(all_framerates(descs)[all_framerates(before).len() + a] == last.framerate);
        assert(all_bitrates(descs)[all_bitrates(before).len() + b] == last.bitrate_kbps);
    }
}

/// The one video source of a camera is told with the rate and the size of its sensor.
pub proof fn law_the_source_is_told_as_the_sensor_is(f: MediaFacts)
    ensures
        text::has(video_sources(f), " token=\"vsrc_"@ + soap::escaped(f.cam_name@) + "\""@),
        text::has(video_sources(f), "<tt:Framerate>"@ + text::decimal(sensor_framerate(descs_view(f.descs@))) + "</tt:Framerate>"@),
        text::has(video_sources(f), "<tt:Width>"@ + text::decimal(sensor_width(descs_view(f.descs@))) + "</tt:Width>"@),
        text::has(video_sources(f), "<tt:Height>"@ + text::decimal(sensor_height(descs_view(f.descs@))) + "</tt:Height>"@),
{
    let n_0 = " token=\"vsrc_"@ + soap::escaped(f.cam_name@) + "\""@;
    assert(text::has("<trt:GetVideoSourcesResponse><tt:VideoSources token=\"vsrc_"@ + soap::escaped(f.cam_name@) + "\"><tt:Framerate>"@, n_0)) by {
        reveal_strlit("<trt:GetVideoSourcesResponse><tt:VideoSources token=\"vsrc_");
        reveal_strlit("\"><tt:Framerate>");
        reveal_strlit(" token=\"vsrc_");
        reveal_strlit("\"");
        assert("<trt:GetVideoSourcesResponse><tt:VideoSources token=\"vsrc_"@.skip(45) =~= " token=\"vsrc_"@);
        assert("\"><tt:Framerate>"@.take(1) =~= "\""@);
        let head = Seq::<char>::empty();
        text::lemma_has_tagged(head, "<trt:GetVideoSourcesResponse><tt:VideoSources token=\"vsrc_"@, soap::escaped(f.cam_name@), "\"><tt:Framerate>"@, Seq::empty(), " token=\"vsrc_"@, "\""@);
        assert(head + "<trt:GetVideoSourcesResponse><tt:VideoSources token=\"vsrc_"@ + soap::escaped(f.cam_name@) + "\"><tt:Framerate>"@ + Seq::empty() =~= head + "<trt:GetVideoSourcesResponse><tt:VideoSources token=\"vsrc_"@ + soap::escaped(f.cam_name@) + "\"><tt:Framerate>"@);
        assert(head + "<trt:GetVideoSourcesResponse><tt:VideoSources token=\"vsrc_"@ =~= "<trt:GetVideoSourcesResponse><tt:VideoSources token=\"vsrc_"@);
    }
    let n_1 = "<tt:Framerate>"@ + text::decimal(sensor_framerate(descs_view(f.descs@))) + "</tt:Framerate>"@;
    assert(text::has("<trt:GetVideoSourcesResponse><tt:VideoSources token=\"vsrc_"@ + soap::escaped(f.cam_name@) + "\"><tt:Framerate>"@ + text::decimal(sensor_framerate(descs_view(f.descs@))) + "</tt:Framerate><tt:Resolution><tt:Width>"@, n_1)) by {
        reveal_strlit("\"><tt:Framerate>");
        reveal_strlit("</tt:Framerate><tt:Resolution><tt:Width>");
        reveal_strlit("<tt:Framerate>");
        reveal_strlit("</tt:Framerate>");
        assert("\"><tt:Framerate>"@.skip(2) =~= "<tt:Framerate>"@);
        assert("</tt:Framerate><tt:Resolution><tt:Width>"@.take(15) =~= "</tt:Framerate>"@);
        let head = "<trt:GetVideoSourcesResponse><tt:VideoSources token=\"vsrc_"@ + soap::escaped(f.cam_name@);
        text::lemma_has_tagged(head, "\"><tt:Framerate>"@, text::decimal(sensor_framerate(descs_view(f.descs@))), "</tt:Framerate><tt:Resolution><tt:Width>"@, Seq::empty(), "<tt:Framerate>"@, "</tt:Framerate>"@);
        assert(head + "\"><tt:Framerate>"@ + text::decimal(sensor_framerate(descs_view(f.descs@))) + "</tt:Framerate><tt:Resolution><tt:Width>"@ + Seq::empty() =~= head + "\"><tt:Framerate>"@ + text::decimal(sensor_framerate(descs_view(f.descs@))) + "</tt:Framerate><tt:Resolution><tt:Width>"@);
    }
    let n_2 = "<tt:Width>"@ + text::decimal(sensor_width(descs_view(f.descs@))) + "</tt:Width>"@;
    assert(text::has("<trt:GetVideoSourcesResponse><tt:VideoSources token=\"vsrc_"@ + soap::escaped(f.cam_name@) + "\"><tt:Framerate>"@ + text::decimal(sensor_framerate(descs_view(f.descs@))) + "</tt:Framerate><tt:Resolution><tt:Width>"@ + text::decimal(sensor_width(descs_view(f.descs@))) + "</tt:Width><tt:Height>"@, n_2)) by {
        reveal_strlit("</tt:Framerate><tt:Resolution><tt:Width>");
        reveal_strlit("</tt:Width><tt:Height>");
        reveal_strlit("<tt:Width>");
        reveal_strlit("</tt:Width>");
        assert("</tt:Framerate><tt:Resolution><tt:Width>"@.skip(30) =~= "<tt:Width>"@);
        assert("</tt:Width><tt:Height>"@.take(11) =~= "</tt:Width>"@);
        let head = "<trt:GetVideoSourcesResponse><tt:VideoSources token=\"vsrc_"@ + soap::escaped(f.cam_name@) + "\"><tt:Framerate>"@ + text::decimal(sensor_framerate(descs_view(f.descs@)));
        text::lemma_has_tagged(head, "</tt:Framerate><tt:Resolution><tt:Width>"@, text::decimal(sensor_width(descs_view(f.descs@))), "</tt:Width><tt:Height>"@, Seq::empty(), "<tt:Width>"@, "</tt:Width>"@);
        assert(head + "</tt:Framerate><tt:Resolution><tt:Width>"@ + text::decimal(sensor_width(descs_view(f.descs@))) + "</tt:Width><tt:Height>"@ + Seq::empty() =~= head + "</tt:Framerate><tt:Resolution><tt:Width>"@ + text::decimal(sensor_width(descs_view(f.descs@))) + "</tt:Width><tt:Height>"@);
    }
    let n_3 = "<tt:Height>"@ + text::decimal(sensor_height(descs_view(f.descs@))) + "</tt:Height>"@;
    assert(text::has("<trt:GetVideoSourcesResponse><tt:VideoSources token=\"vsrc_"@ + soap::escaped(f.cam_name@) + "\"><tt:Framerate>"@ + text::decimal(sensor_framerate(descs_view(f.descs@))) + "</tt:Framerate><tt:Resolution><tt:Width>"@ + text::decimal(sensor_width(descs_view(f.descs@))) + "</tt:Width><tt:Height>"@ + text::decimal(sensor_height(descs_view(f.descs@))) + "</tt:Height></tt:Resolution></tt:VideoSources></trt:GetVideoSourcesResponse>"@, n_3)) by {
        reveal_strlit("</tt:Width><tt:Height>");
        reveal_strlit("</tt:Height></tt:Resolution></tt:VideoSources></trt:GetVideoSourcesResponse>");
        reveal_strlit("<tt:Height>");
        reveal_strlit("</tt:Height>");
        assert("</tt:Width><tt:Height>"@.skip(11) =~= "<tt:Height>"@);
        assert("</tt:Height></tt:Resolution></tt:VideoSources></trt:GetVideoSourcesResponse>"@.take(12) =~= "</tt:Height>"@);
        let head = "<trt:GetVideoSourcesResponse><tt:VideoSources token=\"vsrc_"@ + soap::escaped(f.cam_name@) + "\"><tt:Framerate>"@ + text::decimal(sensor_framerate(descs_view(f.descs@))) + "</tt:Framerate><tt:Resolution><tt:Width>"@ + text::decimal(sensor_width(descs_view(f.descs@)));
        text::lemma_has_tagged(head, "</tt:Width><tt:Height>"@, text::decimal(sensor_height(descs_view(f.descs@))), "</tt:Height></tt:Resolution></tt:VideoSources></trt:GetVideoSourcesResponse>"@, Seq::empty(), "<tt:Height>"@, "</tt:Height>"@);
        assert(head + "</tt:Width><tt:Height>"@ + text::decimal(sensor_height(descs_view(f.descs@))) + "</tt:Height></tt:Resolution></tt:VideoSources></trt:GetVideoSourcesResponse>"@ + Seq::empty() =~= head + "</tt:Width><tt:Height>"@ + text::decimal(sensor_height(descs_view(f.descs@))) + "</tt:Height></tt:Resolution></tt:VideoSources></trt:GetVideoSourcesResponse>"@);
    }
    let up_to_2 = "<trt:GetVideoSourcesResponse><tt:VideoSources token=\"vsrc_"@ + soap::escaped(f.cam_name@) + "\"><tt:Framerate>"@;
    let up_to_3 = up_to_2 + text::decimal(sensor_framerate(descs_view(f.descs@)));
    text::lemma_has_before(up_to_2, text::decimal(sensor_framerate(descs_view(f.descs@))), n_0);
    let up_to_4 = up_to_3 + "</tt:Framerate><tt:Resolution><tt:Width>"@;
    text::lemma_has_before(up_to_3, "</tt:Framerate><tt:Resolution><tt:Width>"@, n_0);
    let up_to_5 = up_to_4 + text::decimal(sensor_width(descs_view(f.descs@)));
    text::lemma_has_before(up_to_4, text::decimal(sensor_width(descs_view(f.descs@))), n_0);
    text::lemma_has_before(up_to_4, text::decimal(sensor_width(descs_view(f.descs@))), n_1);
    let up_to_6 = up_to_5 + "</tt:Width><tt:Height>"@;
    text::lemma_has_before(up_to_5, "</tt:Width><tt:Height>"@, n_0);
    text::lemma_has_before(up_to_5, "</tt:Width><tt:Height>"@, n_1);
    let up_to_7 = up_to_6 + text::decimal(sensor_height(descs_view(f.descs@)));
    text::lemma_has_before(up_to_6, text::decimal(sensor_height(descs_view(f.descs@))), n_0);
    text::lemma_has_before(up_to_6, text::decimal(sensor_height(descs_view(f.descs@))), n_1);
    text::lemma_has_before(up_to_6, text::decimal(sensor_height(descs_view(f.descs@))), n_2);
    let up_to_8 = up_to_7 + "</tt:Height></tt:Resolution></tt:VideoSources></trt:GetVideoSourcesResponse>"@;
    text::lemma_has_before(up_to_7, "</tt:Height></tt:Resolution></tt:VideoSources></trt:GetVideoSourcesResponse>"@, n_0);
    text::lemma_has_before(up_to_7, "</tt:Height></tt:Resolution></tt:VideoSources></trt:GetVideoSourcesResponse>"@, n_1);
    text::lemma_has_before(up_to_7, "</tt:Height></tt:Resolution></tt:VideoSources></trt:GetVideoSourcesResponse>"@, n_2);
    assert(up_to_8 == video_sources(f));
}

/// The configuration of the source is told with its token, how many streams use it, the
/// sensor it is of, and the size of that, its width as the width.
pub proof fn law_the_source_configuration_is_told(
    cam_name: Seq<char>,
    descs: Seq<StreamDescView>,
)
    ensures
        text::has(video_source_configuration(cam_name, descs), " token=\""@ + (("vs_"@ + cam_name)) + "\""@),
        text::has(video_source_configuration(cam_name, descs), "<tt:UseCount>"@ + text::decimal(descs.len()) + "</tt:UseCount>"@),
        text::has(video_source_configuration(cam_name, descs), "<tt:SourceToken>vsrc_"@ + cam_name + "</tt:SourceToken>"@),
        text::has(video_source_configuration(cam_name, descs), " width=\""@ + text::decimal(sensor_width(descs)) + "\""@),
        text::has(video_source_configuration(cam_name, descs), " height=\""@ + text::decimal(sensor_height(descs)) + "\""@),
{
    let n_0 = " token=\""@ + (("vs_"@ + cam_name)) + "\""@;
    assert(text::has("<tt:VideoSourceConfiguration token=\""@ + (("vs_"@ + cam_name)) + "\"><tt:Name>"@, n_0)) by {
        reveal_strlit("<tt:VideoSourceConfiguration token=\"");
        reveal_strlit("\"><tt:Name>");
        reveal_strlit(" token=\"");
        reveal_strlit("\"");
        assert("<tt:VideoSourceConfiguration token=\""@.skip(28) =~= " token=\""@);
        assert("\"><tt:Name>"@.take(1) =~= "\""@);
        let head = Seq::<char>::empty();
        text::lemma_has_tagged(head, "<tt:VideoSourceConfiguration token=\""@, (("vs_"@ + cam_name)), "\"><tt:Name>"@, Seq::empty(), " token=\""@, "\""@);
        assert(head + "<tt:VideoSourceConfiguration token=\""@ + (("vs_"@ + cam_name)) + "\"><tt:Name>"@ + Seq::empty() =~= head + "<tt:VideoSourceConfiguration token=\""@ + (("vs_"@ + cam_name)) + "\"><tt:Name>"@);
        assert(head + "<tt:VideoSourceConfiguration token=\""@ =~= "<tt:VideoSourceConfiguration token=\""@);
    }
    let n_1 = "<tt:UseCount>"@ + text::decimal(descs.len()) + "</tt:UseCount>"@;
    assert(text::has("<tt:VideoSourceConfiguration token=\""@ + (("vs_"@ + cam_name)) + "\"><tt:Name>"@ + soap::escaped(cam_name) + "</tt:Name><tt:UseCount>"@ + text::decimal(descs.len()) + "</tt:UseCount><tt:SourceToken>vsrc_"@, n_1)) by {
        reveal_strlit("</tt:Name><tt:UseCount>");
        reveal_strlit("</tt:UseCount><tt:SourceToken>vsrc_");
        reveal_strlit("<tt:UseCount>");
        reveal_strlit("</tt:UseCount>");
        assert("</tt:Name><tt:UseCount>"@.skip(10) =~= "<tt:UseCount>"@);
        assert("</tt:UseCount><tt:SourceToken>vsrc_"@.take(14) =~= "</tt:UseCount>"@);
        let head = "<tt:VideoSourceConfiguration token=\""@ + (("vs_"@ + cam_name)) + "\"><tt:Name>"@ + soap::escaped(cam_name);
        text::lemma_has_tagged(head, "</tt:Name><tt:UseCount>"@, text::decimal(descs.len()), "</tt:UseCount><tt:SourceToken>vsrc_"@, Seq::empty(), "<tt:UseCount>"@, "</tt:UseCount>"@);
        assert(head + "</tt:Name><tt:UseCount>"@ + text::decimal(descs.len()) + "</tt:UseCount><tt:SourceToken>vsrc_"@ + Seq::empty() =~= head + "</tt:Name><tt:UseCount>"@ + text::decimal(descs.len()) + "</tt:UseCount><tt:SourceToken>vsrc_"@);
    }
    let n_2 = "<tt:SourceToken>vsrc_"@ + cam_name + "</tt:SourceToken>"@;
    assert(text::has("<tt:VideoSourceConfiguration token=\""@ + (("vs_"@ + cam_name)) + "\"><tt:Name>"@ + soap::escaped(cam_name) + "</tt:Name><tt:UseCount>"@ + text::decimal(descs.len()) + "</tt:UseCount><tt:SourceToken>vsrc_"@ + cam_name + "</tt:SourceToken><tt:Bounds x=\"0\" y=\"0\" width=\""@, n_2)) by {
        reveal_strlit("</tt:UseCount><tt:SourceToken>vsrc_");
        reveal_strlit("</tt:SourceToken><tt:Bounds x=\"0\" y=\"0\" width=\"");
        reveal_strlit("<tt:SourceToken>vsrc_");
        reveal_strlit("</tt:SourceToken>");
        assert("</tt:UseCount><tt:SourceToken>vsrc_"@.skip(14) =~= "<tt:SourceToken>vsrc_"@);
        assert("</tt:SourceToken><tt:Bounds x=\"0\" y=\"0\" width=\""@.take(17) =~= "</tt:SourceToken>"@);
        let head = "<tt:VideoSourceConfiguration token=\""@ + (("vs_"@ + cam_name)) + "\"><tt:Name>"@ + soap::escaped(cam_name) + "</tt:Name><tt:UseCount>"@ + text::decimal(descs.len());
        text::lemma_has_tagged(head, "</tt:UseCount><tt:SourceToken>vsrc_"@, cam_name, "</tt:SourceToken><tt:Bounds x=\"0\" y=\"0\" width=\""@, Seq::empty(), "<tt:SourceToken>vsrc_"@, "</tt:SourceToken>"@);
        assert(head + "</tt:UseCount><tt:SourceToken>vsrc_"@ + cam_name + "</tt:SourceToken><tt:Bounds x=\"0\" y=\"0\" width=\""@ + Seq::empty() =~= head + "</tt:UseCount><tt:SourceToken>vsrc_"@ + cam_name + "</tt:SourceToken><tt:Bounds x=\"0\" y=\"0\" width=\""@);
    }
    let n_3 = " width=\""@ + text::decimal(sensor_width(descs)) + "\""@;
    assert(text::has("<tt:VideoSourceConfiguration token=\""@ + (("vs_"@ + cam_name)) + "\"><tt:Name>"@ + soap::escaped(cam_name) + "</tt:Name><tt:UseCount>"@ + text::decimal(descs.len()) + "</tt:UseCount><tt:SourceToken>vsrc_"@ + cam_name + "</tt:SourceToken><tt:Bounds x=\"0\" y=\"0\" width=\""@ + text::decimal(sensor_width(descs)) + "\" height=\""@, n_3)) by {
        reveal_strlit("</tt:SourceToken><tt:Bounds x=\"0\" y=\"0\" width=\"");
        reveal_strlit("\" height=\"");
        reveal_strlit(" width=\"");
        reveal_strlit("\"");
        assert("</tt:SourceToken><tt:Bounds x=\"0\" y=\"0\" width=\""@.skip(39) =~= " width=\""@);
        assert("\" height=\""@.take(1) =~= "\""@);
        let head = "<tt:VideoSourceConfiguration token=\""@ + (("vs_"@ + cam_name)) + "\"><tt:Name>"@ + soap::escaped(cam_name) + "</tt:Name><tt:UseCount>"@ + text::decimal(descs.len()) + "</tt:UseCount><tt:SourceToken>vsrc_"@ + cam_name;
        text::lemma_has_tagged(head, "</tt:SourceToken><tt:Bounds x=\"0\" y=\"0\" width=\""@, text::decimal(sensor_width(descs)), "\" height=\""@, Seq::empty(), " width=\""@, "\""@);
        assert(head + "</tt:SourceToken><tt:Bounds x=\"0\" y=\"0\" width=\""@ + text::decimal(sensor_width(descs)) + "\" height=\""@ + Seq::empty() =~= head + "</tt:SourceToken><tt:Bounds x=\"0\" y=\"0\" width=\""@ + text::decimal(sensor_width(descs)) + "\" height=\""@);
    }
    let n_4 = " height=\""@ + text::decimal(sensor_height(descs)) + "\""@;
    assert(text::has("<tt:VideoSourceConfiguration token=\""@ + (("vs_"@ + cam_name)) + "\"><tt:Name>"@ + soap::escaped(cam_name) + "</tt:Name><tt:UseCount>"@ + text::decimal(descs.len()) + "</tt:UseCount><tt:SourceToken>vsrc_"@ + cam_name + "</tt:SourceToken><tt:Bounds x=\"0\" y=\"0\" width=\""@ + text::decimal(sensor_width(descs)) + "\" height=\""@ + text::decimal(sensor_height(descs)) + "\"/></tt:VideoSourceConfiguration>"@, n_4)) by {
        reveal_strlit("\" height=\"");
        reveal_strlit("\"/></tt:VideoSourceConfiguration>");
        reveal_strlit(" height=\"");
        reveal_strlit("\"");
        assert("\" height=\""@.skip(1) =~= " height=\""@);
        assert("\"/></tt:VideoSourceConfiguration>"@.take(1) =~= "\""@);
        let head = "<tt:VideoSourceConfiguration token=\""@ + (("vs_"@ + cam_name)) + "\"><tt:Name>"@ + soap::escaped(cam_name) + "</tt:Name><tt:UseCount>"@ + text::decimal(descs.len()) + "</tt:UseCount><tt:SourceToken>vsrc_"@ + cam_name + "</tt:SourceToken><tt:Bounds x=\"0\" y=\"0\" width=\""@ + text::decimal(sensor_width(descs));
        text::lemma_has_tagged(head, "\" height=\""@, text::decimal(sensor_height(descs)), "\"/></tt:VideoSourceConfiguration>"@, Seq::empty(), " height=\""@, "\""@);
        assert(head + "\" height=\""@ + text::decimal(sensor_height(descs)) + "\"/></tt:VideoSourceConfiguration>"@ + Seq::empty() =~= head + "\" height=\""@ + text::decimal(sensor_height(descs)) + "\"/></tt:VideoSourceConfiguration>"@);
    }
    let up_to_2 = "<tt:VideoSourceConfiguration token=\""@ + (("vs_"@ + cam_name)) + "\"><tt:Name>"@;
    let up_to_3 = up_to_2 + soap::escaped(cam_name);
    text::lemma_has_before(up_to_2, soap::escaped(cam_name), n_0);
    let up_to_4 = up_to_3 + "</tt:Name><tt:UseCount>"@;
    text::lemma_has_before(up_to_3, "</tt:Name><tt:UseCount>"@, n_0);
    let up_to_5 = up_to_4 + text::decimal(descs.len());
    text::lemma_has_before(up_to_4, text::decimal(descs.len()), n_0);
    let up_to_6 = up_to_5 + "</tt:UseCount><tt:SourceToken>vsrc_"@;
    text::lemma_has_before(up_to_5, "</tt:UseCount><tt:SourceToken>vsrc_"@, n_0);
    let up_to_7 = up_to_6 + cam_name;
    text::lemma_has_before(up_to_6, cam_name, n_0);
    text::lemma_has_before(up_to_6, cam_name, n_1);
    let up_to_8 = up_to_7 + "</tt:SourceToken><tt:Bounds x=\"0\" y=\"0\" width=\""@;
    text::lemma_has_before(up_to_7, "</tt:SourceToken><tt:Bounds x=\"0\" y=\"0\" width=\""@, n_0);
    text::lemma_has_before(up_to_7, "</tt:SourceToken><tt:Bounds x=\"0\" y=\"0\" width=\""@, n_1);
    let up_to_9 = up_to_8 + text::decimal(sensor_width(descs));
    text::lemma_has_before(up_to_8, text::decimal(sensor_width(descs)), n_0);
    text::lemma_has_before(up_to_8, text::decimal(sensor_width(descs)), n_1);
    text::lemma_has_before(up_to_8, text::decimal(sensor_width(descs)), n_2);
    let up_to_10 = up_to_9 + "\" height=\""@;
    text::lemma_has_before(up_to_9, "\" height=\""@, n_0);
    text::lemma_has_before(up_to_9, "\" height=\""@, n_1);
    text::lemma_has_before(up_to_9, "\" height=\""@, n_2);
    let up_to_11 = up_to_10 + text::decimal(sensor_height(descs));
    text::lemma_has_before(up_to_10, text::decimal(sensor_height(descs)), n_0);
    text::lemma_has_before(up_to_10, text::decimal(sensor_height(descs)), n_1);
    text::lemma_has_before(up_to_10, text::decimal(sensor_height(descs)), n_2);
    text::lemma_has_before(up_to_10, text::decimal(sensor_height(descs)), n_3);
    let up_to_12 = up_to_11 + "\"/></tt:VideoSourceConfiguration>"@;
    text::lemma_has_before(up_to_11, "\"/></tt:VideoSourceConfiguration>"@, n_0);
    text::lemma_has_before(up_to_11, "\"/></tt:VideoSourceConfiguration>"@, n_1);
    text::lemma_has_before(up_to_11, "\"/></tt:VideoSourceConfiguration>"@, n_2);
    text::lemma_has_before(up_to_11, "\"/></tt:VideoSourceConfiguration>"@, n_3);
    assert(up_to_12 == video_source_configuration(cam_name, descs));
}

/// The configuration of the audio encoder gives its encoding, its bit rate and its sample
/// rate, and its options give the same.
pub proof fn law_the_audio_encoder_is_told(
    cam_name: Seq<char>,
    format: AudioFormat,
    element: Seq<char>,
)
    ensures
        text::has(audio_encoder_configuration(cam_name, format, element), " token=\""@ + (("aec_"@ + cam_name)) + "\""@),
        text::has(audio_encoder_configuration(cam_name, format, element), "<tt:Encoding>"@ + audio_encoding(format) + "</tt:Encoding>"@),
        text::has(audio_encoder_configuration(cam_name, format, element), "<tt:Bitrate>"@ + text::decimal(audio_bitrate(format)) + "</tt:Bitrate>"@),
        text::has(audio_encoder_configuration(cam_name, format, element), "<tt:SampleRate>"@ + text::decimal(16) + "</tt:SampleRate>"@),
        text::has(audio_options(format), "<tt:Encoding>"@ + audio_encoding(format) + "</tt:Encoding>"@),
        text::has(audio_options(format), "<tt:BitrateList><tt:Items>"@ + text::decimal(audio_bitrate(format)) + "</tt:Items></tt:BitrateList>"@),
        text::has(audio_options(format), "<tt:SampleRateList><tt:Items>"@ + text::decimal(16) + "</tt:Items></tt:SampleRateList>"@),
{
    assert((        text::has(audio_encoder_configuration(cam_name, format, element), " token=\""@ + (("aec_"@ + cam_name)) + "\""@) &&
        text::has(audio_encoder_configuration(cam_name, format, element), "<tt:Encoding>"@ + audio_encoding(format) + "</tt:Encoding>"@) &&
        text::has(audio_encoder_configuration(cam_name, format, element), "<tt:Bitrate>"@ + text::decimal(audio_bitrate(format)) + "</tt:Bitrate>"@) &&
        text::has(audio_encoder_configuration(cam_name, format, element), "<tt:SampleRate>"@ + text::decimal(16) + "</tt:SampleRate>"@))) by {
        let n_0 = " token=\""@ + (("aec_"@ + cam_name)) + "\""@;
        assert(text::has("<"@ + element + " token=\""@ + (("aec_"@ + cam_name)) + "\"><tt:Name>"@, n_0)) by {
            reveal_strlit(" token=\"");
            reveal_strlit("\"><tt:Name>");
            reveal_strlit("\"");
            assert(" token=\""@.skip(0) =~= " token=\""@);
            assert("\"><tt:Name>"@.take(1) =~= "\""@);
            let head = "<"@ + element;
            text::lemma_has_tagged(head, " token=\""@, (("aec_"@ + cam_name)), "\"><tt:Name>"@, Seq::empty(), " token=\""@, "\""@);
            assert(head + " token=\""@ + (("aec_"@ + cam_name)) + "\"><tt:Name>"@ + Seq::empty() =~= head + " token=\""@ + (("aec_"@ + cam_name)) + "\"><tt:Name>"@);
        }
        let n_1 = "<tt:Encoding>"@ + audio_encoding(format) + "</tt:Encoding>"@;
        assert(text::has("<"@ + element + " token=\""@ + (("aec_"@ + cam_name)) + "\"><tt:Name>"@ + soap::escaped(cam_name + "-audio"@) + "</tt:Name><tt:UseCount>1</tt:UseCount><tt:Encoding>"@ + audio_encoding(format) + "</tt:Encoding><tt:Bitrate>"@, n_1)) by {
            reveal_strlit("</tt:Name><tt:UseCount>1</tt:UseCount><tt:Encoding>");
            reveal_strlit("</tt:Encoding><tt:Bitrate>");
            reveal_strlit("<tt:Encoding>");
            reveal_strlit("</tt:Encoding>");
            assert("</tt:Name><tt:UseCount>1</tt:UseCount><tt:Encoding>"@.skip(38) =~= "<tt:Encoding>"@);
            assert("</tt:Encoding><tt:Bitrate>"@.take(14) =~= "</tt:Encoding>"@);
            let head = "<"@ + element + " token=\""@ + (("aec_"@ + cam_name)) + "\"><tt:Name>"@ + soap::escaped(cam_name + "-audio"@);
            text::lemma_has_tagged(head, "</tt:Name><tt:UseCount>1</tt:UseCount><tt:Encoding>"@, audio_encoding(format), "</tt:Encoding><tt:Bitrate>"@, Seq::empty(), "<tt:Encoding>"@, "</tt:Encoding>"@);
            assert(head + "</tt:Name><tt:UseCount>1</tt:UseCount><tt:Encoding>"@ + audio_encoding(format) + "</tt:Encoding><tt:Bitrate>"@ + Seq::empty() =~= head + "</tt:Name><tt:UseCount>1</tt:UseCount><tt:Encoding>"@ + audio_encoding(format) + "</tt:Encoding><tt:Bitrate>"@);
        }
        let n_2 = "<tt:Bitrate>"@ + text::decimal(audio_bitrate(format)) + "</tt:Bitrate>"@;
        assert(text::has("<"@ + element + " token=\""@ + (("aec_"@ + cam_name)) + "\"><tt:Name>"@ + soap::escaped(cam_name + "-audio"@) + "</tt:Name><tt:UseCount>1</tt:UseCount><tt:Encoding>"@ + audio_encoding(format) + "</tt:Encoding><tt:Bitrate>"@ + text::decimal(audio_bitrate(format)) + "</tt:Bitrate><tt:SampleRate>"@, n_2)) by {
            reveal_strlit("</tt:Encoding><tt:Bitrate>");
            reveal_strlit("</tt:Bitrate><tt:SampleRate>");
            reveal_strlit("<tt:Bitrate>");
            reveal_strlit("</tt:Bitrate>");
            assert("</tt:Encoding><tt:Bitrate>"@.skip(14) =~= "<tt:Bitrate>"@);
            assert("</tt:Bitrate><tt:SampleRate>"@.take(13) =~= "</tt:Bitrate>"@);
            let head = "<"@ + element + " token=\""@ + (("aec_"@ + cam_name)) + "\"><tt:Name>"@ + soap::escaped(cam_name + "-audio"@) + "</tt:Name><tt:UseCount>1</tt:UseCount><tt:Encoding>"@ + audio_encoding(format);
            text::lemma_has_tagged(head, "</tt:Encoding><tt:Bitrate>"@, text::decimal(audio_bitrate(format)), "</tt:Bitrate><tt:SampleRate>"@, Seq::empty(), "<tt:Bitrate>"@, "</tt:Bitrate>"@);
            assert(head + "</tt:Encoding><tt:Bitrate>"@ + text::decimal(audio_bitrate(format)) + "</tt:Bitrate><tt:SampleRate>"@ + Seq::empty() =~= head + "</tt:Encoding><tt:Bitrate>"@ + text::decimal(audio_bitrate(format)) + "</tt:Bitrate><tt:SampleRate>"@);
        }
        let n_3 = "<tt:SampleRate>"@ + text::decimal(16) + "</tt:SampleRate>"@;
        assert(text::has("<"@ + element + " token=\""@ + (("aec_"@ + cam_name)) + "\"><tt:Name>"@ + soap::escaped(cam_name + "-audio"@) + "</tt:Name><tt:UseCount>1</tt:UseCount><tt:Encoding>"@ + audio_encoding(format) + "</tt:Encoding><tt:Bitrate>"@ + text::decimal(audio_bitrate(format)) + "</tt:Bitrate><tt:SampleRate>"@ + text::decimal(16) + "</tt:SampleRate><tt:Multicast><tt:Address><tt:Type>IPv4</tt:Type><tt:IPv4Address>0.0.0.0</tt:IPv4Address></tt:Address><tt:Port>0</tt:Port><tt:TTL>1</tt:TTL><tt:AutoStart>false</tt:AutoStart></tt:Multicast><tt:SessionTimeout>PT30S</tt:SessionTimeout></"@, n_3)) by {
            reveal_strlit("</tt:Bitrate><tt:SampleRate>");
            reveal_strlit("</tt:SampleRate><tt:Multicast><tt:Address><tt:Type>IPv4</tt:Type><tt:IPv4Address>0.0.0.0</tt:IPv4Address></tt:Address><tt:Port>0</tt:Port><tt:TTL>1</tt:TTL><tt:AutoStart>false</tt:AutoStart></tt:Multicast><tt:SessionTimeout>PT30S</tt:SessionTimeout></");
            reveal_strlit("<tt:SampleRate>");
            reveal_strlit("</tt:SampleRate>");
            assert("</tt:Bitrate><tt:SampleRate>"@.skip(13) =~= "<tt:SampleRate>"@);
            assert("</tt:SampleRate><tt:Multicast><tt:Address><tt:Type>IPv4</tt:Type><tt:IPv4Address>0.0.0.0</tt:IPv4Address></tt:Address><tt:Port>0</tt:Port><tt:TTL>1</tt:TTL><tt:AutoStart>false</tt:AutoStart></tt:Multicast><tt:SessionTimeout>PT30S</tt:SessionTimeout></"@.take(16) =~= "</tt:SampleRate>"@);
            let head = "<"@ + element + " token=\""@ + (("aec_"@ + cam_name)) + "\"><tt:Name>"@ + soap::escaped(cam_name + "-audio"@) + "</tt:Name><tt:UseCount>1</tt:UseCount><tt:Encoding>"@ + audio_encoding(format) + "</tt:Encoding><tt:Bitrate>"@ + text::decimal(audio_bitrate(format));
            text::lemma_has_tagged(head, "</tt:Bitrate><tt:SampleRate>"@, text::decimal(16), "</tt:SampleRate><tt:Multicast><tt:Address><tt:Type>IPv4</tt:Type><tt:IPv4Address>0.0.0.0</tt:IPv4Address></tt:Address><tt:Port>0</tt:Port><tt:TTL>1</tt:TTL><tt:AutoStart>false</tt:AutoStart></tt:Multicast><tt:SessionTimeout>PT30S</tt:SessionTimeout></"@, Seq::empty(), "<tt:SampleRate>"@, "</tt:SampleRate>"@);
            assert(head + "</tt:Bitrate><tt:SampleRate>"@ + text::decimal(16) + "</tt:SampleRate><tt:Multicast><tt:Address><tt:Type>IPv4</tt:Type><tt:IPv4Address>0.0.0.0</tt:IPv4Address></tt:Address><tt:Port>0</tt:Port><tt:TTL>1</tt:TTL><tt:AutoStart>false</tt:AutoStart></tt:Multicast><tt:SessionTimeout>PT30S</tt:SessionTimeout></"@ + Seq::empty() =~= head + "</tt:Bitrate><tt:SampleRate>"@ + text::decimal(16) + "</tt:SampleRate><tt:Multicast><tt:Address><tt:Type>IPv4</tt:Type><tt:IPv4Address>0.0.0.0</tt:IPv4Address></tt:Address><tt:Port>0</tt:Port><tt:TTL>1</tt:TTL><tt:AutoStart>false</tt:AutoStart></tt:Multicast><tt:SessionTimeout>PT30S</tt:SessionTimeout></"@);
        }
        let up_to_4 = "<"@ + element + " token=\""@ + (("aec_"@ + cam_name)) + "\"><tt:Name>"@;
        let up_to_5 = up_to_4 + soap::escaped(cam_name + "-audio"@);
        text::lemma_has_before(up_to_4, soap::escaped(cam_name + "-audio"@), n_0);
        let up_to_6 = up_to_5 + "</tt:Name><tt:UseCount>1</tt:UseCount><tt:Encoding>"@;
        text::lemma_has_before(up_to_5, "</tt:Name><tt:UseCount>1</tt:UseCount><tt:Encoding>"@, n_0);
        let up_to_7 = up_to_6 + audio_encoding(format);
        text::lemma_has_before(up_to_6, audio_encoding(format), n_0);
        let up_to_8 = up_to_7 + "</tt:Encoding><tt:Bitrate>"@;
        text::lemma_has_before(up_to_7, "</tt:Encoding><tt:Bitrate>"@, n_0);
        let up_to_9 = up_to_8 + text::decimal(audio_bitrate(format));
        text::lemma_has_before(up_to_8, text::decimal(audio_bitrate(format)), n_0);
        text::lemma_has_before(up_to_8, text::decimal(audio_bitrate(format)), n_1);
        let up_to_10 = up_to_9 + "</tt:Bitrate><tt:SampleRate>"@;
        text::lemma_has_before(up_to_9, "</tt:Bitrate><tt:SampleRate>"@, n_0);
        text::lemma_has_before(up_to_9, "</tt:Bitrate><tt:SampleRate>"@, n_1);
        let up_to_11 = up_to_10 + text::decimal(16);
        text::lemma_has_before(up_to_10, text::decimal(16), n_0);
        text::lemma_has_before(up_to_10, text::decimal(16), n_1);
        text::lemma_has_before(up_to_10, text::decimal(16), n_2);
        let up_to_12 = up_to_11 + "</tt:SampleRate><tt:Multicast><tt:Address><tt:Type>IPv4</tt:Type><tt:IPv4Address>0.0.0.0</tt:IPv4Address></tt:Address><tt:Port>0</tt:Port><tt:TTL>1</tt:TTL><tt:AutoStart>false</tt:AutoStart></tt:Multicast><tt:SessionTimeout>PT30S</tt:SessionTimeout></"@;
        text::lemma_has_before(up_to_11, "</tt:SampleRate><tt:Multicast><tt:Address><tt:Type>IPv4</tt:Type><tt:IPv4Address>0.0.0.0</tt:IPv4Address></tt:Address><tt:Port>0</tt:Port><tt:TTL>1</tt:TTL><tt:AutoStart>false</tt:AutoStart></tt:Multicast><tt:SessionTimeout>PT30S</tt:SessionTimeout></"@, n_0);
        text::lemma_has_before(up_to_11, "</tt:SampleRate><tt:Multicast><tt:Address><tt:Type>IPv4</tt:Type><tt:IPv4Address>0.0.0.0</tt:IPv4Address></tt:Address><tt:Port>0</tt:Port><tt:TTL>1</tt:TTL><tt:AutoStart>false</tt:AutoStart></tt:Multicast><tt:SessionTimeout>PT30S</tt:SessionTimeout></"@, n_1);
        text::lemma_has_before(up_to_11, "</tt:SampleRate><tt:Multicast><tt:Address><tt:Type>IPv4</tt:Type><tt:IPv4Address>0.0.0.0</tt:IPv4Address></tt:Address><tt:Port>0</tt:Port><tt:TTL>1</tt:TTL><tt:AutoStart>false</tt:AutoStart></tt:Multicast><tt:SessionTimeout>PT30S</tt:SessionTimeout></"@, n_2);
        let up_to_13 = up_to_12 + element;
        text::lemma_has_before(up_to_12, element, n_0);
        text::lemma_has_before(up_to_12, element, n_1);
        text::lemma_has_before(up_to_12, element, n_2);
        text::lemma_has_before(up_to_12, element, n_3);
        let up_to_14 = up_to_13 + ">"@;
        text::lemma_has_before(up_to_13, ">"@, n_0);
        text::lemma_has_before(up_to_13, ">"@, n_1);
        text::lemma_has_before(up_to_13, ">"@, n_2);
        text::lemma_has_before(up_to_13, ">"@, n_3);
        assert(up_to_14 == audio_encoder_configuration(cam_name, format, element));
    }
    assert((        text::has(audio_options(format), "<tt:Encoding>"@ + audio_encoding(format) + "</tt:Encoding>"@) &&
        text::has(audio_options(format), "<tt:BitrateList><tt:Items>"@ + text::decimal(audio_bitrate(format)) + "</tt:Items></tt:BitrateList>"@) &&
        text::has(audio_options(format), "<tt:SampleRateList><tt:Items>"@ + text::decimal(16) + "</tt:Items></tt:SampleRateList>"@))) by {
        let n_0 = "<tt:Encoding>"@ + audio_encoding(format) + "</tt:Encoding>"@;
        assert(text::has("<trt:GetAudioEncoderConfigurationOptionsResponse><trt:Options><tt:Options><tt:Encoding>"@ + audio_encoding(format) + "</tt:Encoding><tt:BitrateList><tt:Items>"@, n_0)) by {
            reveal_strlit("<trt:GetAudioEncoderConfigurationOptionsResponse><trt:Options><tt:Options><tt:Encoding>");
            reveal_strlit("</tt:Encoding><tt:BitrateList><tt:Items>");
            reveal_strlit("<tt:Encoding>");
            reveal_strlit("</tt:Encoding>");
            assert("<trt:GetAudioEncoderConfigurationOptionsResponse><trt:Options><tt:Options><tt:Encoding>"@.skip(74) =~= "<tt:Encoding>"@);
            assert("</tt:Encoding><tt:BitrateList><tt:Items>"@.take(14) =~= "</tt:Encoding>"@);
            let head = Seq::<char>::empty();
            text::lemma_has_tagged(head, "<trt:GetAudioEncoderConfigurationOptionsResponse><trt:Options><tt:Options><tt:Encoding>"@, audio_encoding(format), "</tt:Encoding><tt:BitrateList><tt:Items>"@, Seq::empty(), "<tt:Encoding>"@, "</tt:Encoding>"@);
            assert(head + "<trt:GetAudioEncoderConfigurationOptionsResponse><trt:Options><tt:Options><tt:Encoding>"@ + audio_encoding(format) + "</tt:Encoding><tt:BitrateList><tt:Items>"@ + Seq::empty() =~= head + "<trt:GetAudioEncoderConfigurationOptionsResponse><trt:Options><tt:Options><tt:Encoding>"@ + audio_encoding(format) + "</tt:Encoding><tt:BitrateList><tt:Items>"@);
            assert(head + "<trt:GetAudioEncoderConfigurationOptionsResponse><trt:Options><tt:Options><tt:Encoding>"@ =~= "<trt:GetAudioEncoderConfigurationOptionsResponse><trt:Options><tt:Options><tt:Encoding>"@);
        }
        let n_1 = "<tt:BitrateList><tt:Items>"@ + text::decimal(audio_bitrate(format)) + "</tt:Items></tt:BitrateList>"@;
        assert(text::has("<trt:GetAudioEncoderConfigurationOptionsResponse><trt:Options><tt:Options><tt:Encoding>"@ + audio_encoding(format) + "</tt:Encoding><tt:BitrateList><tt:Items>"@ + text::decimal(audio_bitrate(format)) + "</tt:Items></tt:BitrateList><tt:SampleRateList><tt:Items>"@, n_1)) by {
            reveal_strlit("</tt:Encoding><tt:BitrateList><tt:Items>");
            reveal_strlit("</tt:Items></tt:BitrateList><tt:SampleRateList><tt:Items>");
            reveal_strlit("<tt:BitrateList><tt:Items>");
            reveal_strlit("</tt:Items></tt:BitrateList>");
            assert("</tt:Encoding><tt:BitrateList><tt:Items>"@.skip(14) =~= "<tt:BitrateList><tt:Items>"@);
            assert("</tt:Items></tt:BitrateList><tt:SampleRateList><tt:Items>"@.take(28) =~= "</tt:Items></tt:BitrateList>"@);
            let head = "<trt:GetAudioEncoderConfigurationOptionsResponse><trt:Options><tt:Options><tt:Encoding>"@ + audio_encoding(format);
            text::lemma_has_tagged(head, "</tt:Encoding><tt:BitrateList><tt:Items>"@, text::decimal(audio_bitrate(format)), "</tt:Items></tt:BitrateList><tt:SampleRateList><tt:Items>"@, Seq::empty(), "<tt:BitrateList><tt:Items>"@, "</tt:Items></tt:BitrateList>"@);
            assert(head + "</tt:Encoding><tt:BitrateList><tt:Items>"@ + text::decimal(audio_bitrate(format)) + "</tt:Items></tt:BitrateList><tt:SampleRateList><tt:Items>"@ + Seq::empty() =~= head + "</tt:Encoding><tt:BitrateList><tt:Items>"@ + text::decimal(audio_bitrate(format)) + "</tt:Items></tt:BitrateList><tt:SampleRateList><tt:Items>"@);
        }
        let n_2 = "<tt:SampleRateList><tt:Items>"@ + text::decimal(16) + "</tt:Items></tt:SampleRateList>"@;
        assert(text::has("<trt:GetAudioEncoderConfigurationOptionsResponse><trt:Options><tt:Options><tt:Encoding>"@ + audio_encoding(format) + "</tt:Encoding><tt:BitrateList><tt:Items>"@ + text::decimal(audio_bitrate(format)) + "</tt:Items></tt:BitrateList><tt:SampleRateList><tt:Items>"@ + text::decimal(16) + "</tt:Items></tt:SampleRateList></tt:Options></trt:Options></trt:GetAudioEncoderConfigurationOptionsResponse>"@, n_2)) by {
            reveal_strlit("</tt:Items></tt:BitrateList><tt:SampleRateList><tt:Items>");
            reveal_strlit("</tt:Items></tt:SampleRateList></tt:Options></trt:Options></trt:GetAudioEncoderConfigurationOptionsResponse>");
            reveal_strlit("<tt:SampleRateList><tt:Items>");
            reveal_strlit("</tt:Items></tt:SampleRateList>");
            assert("</tt:Items></tt:BitrateList><tt:SampleRateList><tt:Items>"@.skip(28) =~= "<tt:SampleRateList><tt:Items>"@);
            assert("</tt:Items></tt:SampleRateList></tt:Options></trt:Options></trt:GetAudioEncoderConfigurationOptionsResponse>"@.take(31) =~= "</tt:Items></tt:SampleRateList>"@);
            let head = "<trt:GetAudioEncoderConfigurationOptionsResponse><trt:Options><tt:Options><tt:Encoding>"@ + audio_encoding(format) + "</tt:Encoding><tt:BitrateList><tt:Items>"@ + text::decimal(audio_bitrate(format));
            text::lemma_has_tagged(head, "</tt:Items></tt:BitrateList><tt:SampleRateList><tt:Items>"@, text::decimal(16), "</tt:Items></tt:SampleRateList></tt:Options></trt:Options></trt:GetAudioEncoderConfigurationOptionsResponse>"@, Seq::empty(), "<tt:SampleRateList><tt:Items>"@, "</tt:Items></tt:SampleRateList>"@);
            assert(head + "</tt:Items></tt:BitrateList><tt:SampleRateList><tt:Items>"@ + text::decimal(16) + "</tt:Items></tt:SampleRateList></tt:Options></trt:Options></trt:GetAudioEncoderConfigurationOptionsResponse>"@ + Seq::empty() =~= head + "</tt:Items></tt:BitrateList><tt:SampleRateList><tt:Items>"@ + text::decimal(16) + "</tt:Items></tt:SampleRateList></tt:Options></trt:Options></trt:GetAudioEncoderConfigurationOptionsResponse>"@);
        }
        let up_to_2 = "<trt:GetAudioEncoderConfigurationOptionsResponse><trt:Options><tt:Options><tt:Encoding>"@ + audio_encoding(format) + "</tt:Encoding><tt:BitrateList><tt:Items>"@;
        let up_to_3 = up_to_2 + text::decimal(audio_bitrate(format));
        text::lemma_has_before(up_to_2, text::decimal(audio_bitrate(format)), n_0);
        let up_to_4 = up_to_3 + "</tt:Items></tt:BitrateList><tt:SampleRateList><tt:Items>"@;
        text::lemma_has_before(up_to_3, "</tt:Items></tt:BitrateList><tt:SampleRateList><tt:Items>"@, n_0);
        let up_to_5 = up_to_4 + text::decimal(16);
        text::lemma_has_before(up_to_4, text::decimal(16), n_0);
        text::lemma_has_before(up_to_4, text::decimal(16), n_1);
        let up_to_6 = up_to_5 + "</tt:Items></tt:SampleRateList></tt:Options></trt:Options></trt:GetAudioEncoderConfigurationOptionsResponse>"@;
        text::lemma_has_before(up_to_5, "</tt:Items></tt:SampleRateList></tt:Options></trt:Options></trt:GetAudioEncoderConfigurationOptionsResponse>"@, n_0);
        text::lemma_has_before(up_to_5, "</tt:Items></tt:SampleRateList></tt:Options></trt:Options></trt:GetAudioEncoderConfigurationOptionsResponse>"@, n_1);
        assert(up_to_6 == audio_options(format));
    }
}

/// Each question is answered with what it asks for: every profile and every encoder in
/// turn, or the one that is named.
pub proof fn law_media_questions_are_answered_by_name(f: MediaFacts, r: MediaRequestView, i: int)
    requires
        0 <= i < f.descs@.len(),
    ensures
        media_reply(f, "GetProfiles"@, r) == Ok::<Seq<char>, device::FaultView>(
            "<trt:GetProfilesResponse>"@ + profiles_xml(f, f.descs@.len())
                + "</trt:GetProfilesResponse>"@,
        ),
        profiles_xml(f, (i + 1) as nat) == profiles_xml(f, i as nat) + stream_profile(
            f,
            descs_view(f.descs@)[i],
            "trt:Profiles"@,
        ),
        encoders_xml(f, (i + 1) as nat) == encoders_xml(f, i as nat) + encoder_named(
            f.cam_name@,
            descs_view(f.descs@)[i],
            "trt:Configurations"@,
        ),
        media_reply(f, "GetVideoSources"@, r) == Ok::<Seq<char>, device::FaultView>(
            video_sources(f),
        ),
        media_reply(f, "GetVideoSourceConfigurations"@, r) == Ok::<Seq<char>, device::FaultView>(
            "<trt:GetVideoSourceConfigurationsResponse>"@ + source_named(
                f.cam_name@,
                descs_view(f.descs@),
            ) + "</trt:GetVideoSourceConfigurationsResponse>"@,
        ),
        media_reply(f, "GetVideoEncoderConfigurations"@, r) == Ok::<Seq<char>, device::FaultView>(
            "<trt:GetVideoEncoderConfigurationsResponse>"@ + encoders_xml(f, f.descs@.len())
                + "</trt:GetVideoEncoderConfigurationsResponse>"@,
        ),
        r.configuration_token is None ==> (media_reply(f, "GetVideoEncoderConfiguration"@, r)
            matches Err(e) && e.code == FaultCode::InvalidArgs),
        r.profile_token is None ==> (media_reply(f, "GetProfile"@, r) matches Err(e) && e.code
            == FaultCode::InvalidArgs),
        r.profile_token is None ==> (media_reply(f, "GetStreamUri"@, r) matches Err(e) && e.code
            == FaultCode::InvalidArgs),
{
    lemma_actions();
}

proof fn lemma_profile_holds(
    a: Seq<char>,
    needle: Seq<char>,
    between: Seq<char>,
    encoder: Seq<char>,
    audio: Seq<char>,
    moves: Seq<char>,
    tail: Seq<char>,
)
    ensures
        ({
            let whole = a + needle + between + encoder + audio + moves + tail;
            &&& text::has(whole, needle)
            &&& text::has(whole, encoder)
            &&& text::has(whole, audio)
            &&& text::has(whole, moves)
        }),
{
    let whole = a + needle + between + encoder + audio + moves + tail;
    text::lemma_has_between(a, needle, between + encoder + audio + moves + tail);
    assert(a + needle + (between + encoder + audio + moves + tail) =~= whole);
    text::lemma_has_between(a + needle + between, encoder, audio + moves + tail);
    assert(a + needle + between + encoder + (audio + moves + tail) =~= whole);
    text::lemma_has_between(a + needle + between + encoder, audio, moves + tail);
    assert(a + needle + between + encoder + audio + (moves + tail) =~= whole);
    text::lemma_has_between(a + needle + between + encoder + audio, moves, tail);
}

proof fn lemma_profile_regrouped(
    a: Seq<char>,
    element: Seq<char>,
    b: Seq<char>,
    token: Seq<char>,
    c: Seq<char>,
    name: Seq<char>,
    e: Seq<char>,
    source: Seq<char>,
    audio_source: Seq<char>,
    encoder: Seq<char>,
    audio: Seq<char>,
    moves: Seq<char>,
    x: Seq<char>,
    y: Seq<char>,
)
    ensures
        a + element + b + token + c + name + e + source + audio_source + encoder + audio + moves + x
            + element + y == (a + element) + (b + token + c) + (name + e + source + audio_source)
            + encoder + audio + moves + (x + element + y),
{
    let head = a + element + b + token + c + name + e + source + audio_source;
    assert(head =~= (a + element) + (b + token + c) + (name + e + source + audio_source));
    let middle = head + encoder + audio + moves;
    assert(middle + x + element + y =~= middle + (x + element + y));
}

/// A profile of a stream is listed by its token and its name, both of that very stream.
pub proof fn law_profiles_are_of_their_stream(f: MediaFacts, d: StreamDescView, element: Seq<char>)
    ensures
        text::has(
            stream_profile(f, d, element),
            " fixed=\"true\" token=\""@ + soap::escaped(
                "profile_"@ + f.cam_name@ + "_"@ + state::stream_name(d.stream),
            ) + "\"><tt:Name>"@,
        ),
        text::has(
            stream_profile(f, d, element),
            video_encoder_configuration(f.cam_name@, d),
        ),
        f.caps.audio ==> text::has(
            stream_profile(f, d, element),
            audio_encoder_configuration(
                f.cam_name@,
                f.audio_format,
                "tt:AudioEncoderConfiguration"@,
            ),
        ),
        f.caps.pan_tilt || f.caps.zoom || f.caps.presets ==> text::has(
            stream_profile(f, d, element),
            ptz::ptz_configuration(f.cam_name@, f.caps, "tt:PTZConfiguration"@),
        ),
{
    let token = soap::escaped("profile_"@ + f.cam_name@ + "_"@ + state::stream_name(d.stream));
    let name = soap::escaped(f.cam_name@ + "_"@ + state::stream_name(d.stream));
    let source = video_source_configuration(f.cam_name@, descs_view(f.descs@));
    let audio_source = if f.caps.audio {
        audio_source_configuration(f.cam_name@, "tt:AudioSourceConfiguration"@)
    } else {
        Seq::empty()
    };
    let encoder = video_encoder_configuration(f.cam_name@, d);
    let audio = if f.caps.audio {
        audio_encoder_configuration(f.cam_name@, f.audio_format, "tt:AudioEncoderConfiguration"@)
    } else {
        Seq::empty()
    };
    let moves = if f.caps.has_ptz() {
        ptz::ptz_configuration(f.cam_name@, f.caps, "tt:PTZConfiguration"@)
    } else {
        Seq::empty()
    };
    lemma_profile_regrouped(
        "<"@,
        element,
        " fixed=\"true\" token=\""@,
        token,
        "\"><tt:Name>"@,
        name,
        "</tt:Name>"@,
        source,
        audio_source,
        encoder,
        audio,
        moves,
        "</"@,
        ">"@,
    );
    lemma_profile_holds(
        "<"@ + element,
        " fixed=\"true\" token=\""@ + token + "\"><tt:Name>"@,
        name + "</tt:Name>"@ + source + audio_source,
        encoder,
        audio,
        moves,
        "</"@ + element + ">"@,
    );
}

proof fn lemma_rates_stand(
    before: Seq<char>,
    a: Seq<char>,
    low: Seq<char>,
    b: Seq<char>,
    high: Seq<char>,
    c: Seq<char>,
)
    ensures
        text::has(before + a + low + b + high + c, a + low + b + high + c),
        text::has(before + a + low + b + high + c, low + b + high),
        text::has(before + a + low + b + high + c, before),
{
    let whole = before + a + low + b + high + c;
    assert(text::has(whole, a + low + b + high + c)) by {
        let tail = a + low + b + high + c;
        assert(before + tail + Seq::empty() =~= whole);
        text::lemma_has_between(before, tail, Seq::empty());
    }
    assert(text::has(whole, low + b + high)) by {
        let span = low + b + high;
        assert(before + a + span + c =~= whole);
        text::lemma_has_between(before + a, span, c);
    }
    assert(text::has(whole, before)) by {
        let tail = a + low + b + high + c;
        assert(Seq::empty() + before + tail =~= whole);
        text::lemma_has_between(Seq::empty(), before, tail);
    }
}

/// Sizes are listed one behind the other, each with its width as the width; the range of
/// frame rates and that of bit rates are those of the streams, from 1 to 30 and from 64
/// to 8192 where these say nothing.
pub proof fn law_options_list_sizes_and_ranges(
    sizes: Seq<(u32, u32)>,
    size: (u32, u32),
    descs: Seq<StreamDescView>,
)
    ensures
        sizes_xml(sizes.push(size)) == sizes_xml(sizes)
            + ("<tt:ResolutionsAvailable><tt:Width>"@ + text::decimal(size.0 as nat)
            + "</tt:Width><tt:Height>"@ + text::decimal(size.1 as nat)
            + "</tt:Height></tt:ResolutionsAvailable>"@),
        text::has(
            encoder_options(descs),
            "<tt:BitrateRange><tt:Min>"@ + text::decimal(
                span_of(all_bitrates(descs), 64, 8192).0 as nat,
            ) + "</tt:Min><tt:Max>"@ + text::decimal(
                span_of(all_bitrates(descs), 64, 8192).1 as nat,
            ) + "</tt:Max></tt:BitrateRange></tt:H264></tt:Extension></trt:Options>"@,
        ),
        text::has(
            h264_xml(descs),
            text::decimal(span_of(all_framerates(descs), 1, 30).0 as nat) + "</tt:Min><tt:Max>"@
                + text::decimal(span_of(all_framerates(descs), 1, 30).1 as nat),
        ),
        text::has(h264_xml(descs), sizes_xml(sizes_of(descs))),
{
    assert(sizes.push(size).drop_last() =~= sizes);
    let br = span_of(all_bitrates(descs), 64, 8192);
    lemma_rates_stand(
        "<trt:Options><tt:QualityRange><tt:Min>1</tt:Min><tt:Max>6</tt:Max></tt:QualityRange><tt:H264>"@
            + h264_xml(descs) + "</tt:H264><tt:Extension><tt:H264>"@ + h264_xml(descs),
        "<tt:BitrateRange><tt:Min>"@,
        text::decimal(br.0 as nat),
        "</tt:Min><tt:Max>"@,
        text::decimal(br.1 as nat),
        "</tt:Max></tt:BitrateRange></tt:H264></tt:Extension></trt:Options>"@,
    );
    let fps = span_of(all_framerates(descs), 1, 30);
    lemma_rates_stand(
        sizes_xml(sizes_of(descs)),
        "<tt:GovLengthRange><tt:Min>1</tt:Min><tt:Max>100</tt:Max></tt:GovLengthRange><tt:FrameRateRange><tt:Min>"@,
        text::decimal(fps.0 as nat),
        "</tt:Min><tt:Max>"@,
        text::decimal(fps.1 as nat),
        "</tt:Max></tt:FrameRateRange><tt:EncodingIntervalRange><tt:Min>1</tt:Min><tt:Max>1</tt:Max></tt:EncodingIntervalRange><tt:H264ProfilesSupported>High</tt:H264ProfilesSupported>"@,
    );
}

/// A camera without streams is described by a sensor of 1920 by 1080 at 25 frames a second.
pub proof fn law_a_sensor_without_streams_has_defaults()
    ensures
        sensor_width(Seq::empty()) == 1_920,
        sensor_height(Seq::empty()) == 1_080,
        sensor_framerate(Seq::empty()) == 25,
{
}

/// A request that is refused is told why: that its token is missing, or which one is not
/// known, or which operation is not supported.
pub proof fn law_media_refusals_say_why(f: MediaFacts, r: MediaRequestView, token: Seq<char>)
    ensures
        r.profile_token is None ==> media_reply(f, "GetStreamUri"@, r) == Err::<
            Seq<char>,
            device::FaultView,
        >(device::fault(FaultCode::InvalidArgs, "Missing ProfileToken"@)),
        r.profile_token == Some(token) && named_by(f, profile_tokens(f), token) is None
            ==> media_reply(f, "GetStreamUri"@, r) == Err::<Seq<char>, device::FaultView>(
            device::fault(FaultCode::InvalidArgs, "Unknown profile token '"@ + token + "'"@),
        ),
        r.configuration_token is None ==> media_reply(f, "GetVideoEncoderConfiguration"@, r)
            == Err::<Seq<char>, device::FaultView>(
            device::fault(FaultCode::InvalidArgs, "Missing ConfigurationToken"@),
        ),
        r.configuration_token == Some(token) && named_by(f, encoder_tokens(f), token) is None
            ==> media_reply(f, "GetVideoEncoderConfiguration"@, r) == Err::<
            Seq<char>,
            device::FaultView,
        >(
            device::fault(
                FaultCode::InvalidArgs,
                "Unknown configuration token '"@ + token + "'"@,
            ),
        ),
{
    lemma_actions();
}

} // verus!

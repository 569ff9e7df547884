//! The media service.

use neolink::config::AudioFormat;
use neolink::onvif::capabilities::{resolve, CameraCapabilities, Probe};
use neolink::onvif::services::device::SystemGeneral;
use neolink::onvif::services::media::{
    audio_desc, csv_u32, dispatch, options_including, profile_token, read_stream_descs,
    render_audio_encoder_configuration, render_audio_source_configuration,
    render_video_encoder_options, resolve_default, span, EncodeTable, MediaFacts, ProfileParts,
    StreamDesc,
};
use neolink::onvif::state::OnvifStream;
use neolink::xml::read_first_text_element;

#[test]
fn read_text_element() {
    let xml = r#"<trt:GetStreamUri xmlns:trt="x"><trt:ProfileToken>profile_foo_main</trt:ProfileToken></trt:GetStreamUri>"#;
    assert_eq!(
        read_first_text_element(xml, "ProfileToken").as_deref(),
        Some("profile_foo_main")
    );
}

/// Only the first element of a name is looked at, and all of it.
#[test]
fn text_comes_from_the_first_element_only() {
    let second = "<a><b/><b>two</b></a>";
    assert_eq!(read_first_text_element(second, "b"), None);
    let empty = "<a><b></b><b>two</b></a>";
    assert_eq!(read_first_text_element(empty, "b"), None);
    let behind_a_child = "<a><b><c></c>one</b><b>two</b></a>";
    assert_eq!(read_first_text_element(behind_a_child, "b").as_deref(), Some("one"));
    let in_a_child = "<a><b><c>one</c></b></a>";
    assert_eq!(read_first_text_element(in_a_child, "b").as_deref(), Some("one"));
    assert_eq!(read_first_text_element("<a>one</a>", "b"), None);
}

#[test]
fn csv_helper() {
    assert_eq!(csv_u32("30,25,20"), vec![30, 25, 20]);
    assert!(csv_u32("").is_empty());
    assert_eq!(csv_u32(" 25 , 20"), vec![25, 20]);
    // A table with a value we can't read loses that entry, not the table.
    assert_eq!(csv_u32("30,fast,20"), vec![30, 20]);
}

fn desc(stream: OnvifStream, framerates: Vec<u32>, bitrates: Vec<u32>) -> StreamDesc {
    StreamDesc {
        stream,
        width: 1920,
        height: 1080,
        framerate: framerates.first().copied().unwrap_or(25),
        bitrate_kbps: bitrates.first().copied().unwrap_or(2048),
        framerates,
        bitrates,
    }
}

/// A camera overloads `defaultFramerate`/`defaultBitrate` as an index into
/// the matching table.
#[test]
fn the_default_is_resolved_as_an_index_into_its_table() {
    // Index 2 of [30, 25, 20, 15] is 20fps, not 30.
    assert_eq!(resolve_default(&[30, 25, 20, 15], 2), 20);
    assert_eq!(resolve_default(&[30, 25, 20, 15], 0), 30);

    // Out of range means it was the literal value all along, which is the
    // other shape the field takes.
    assert_eq!(resolve_default(&[30, 25], 4096), 4096);
    assert_eq!(resolve_default(&[], 25), 25);
}

/// Zero is never a usable frame rate or bitrate, however it arose.
#[test]
fn a_resolved_default_is_never_zero() {
    assert_eq!(resolve_default(&[], 0), 1);
    assert_eq!(resolve_default(&[0, 30], 0), 1);
}

/// The profile has to describe the stream `GetStreamUri` actually hands
/// out. That URL carries no `?audio=` override, so the camera's configured
/// format decides; and the default profile is L16, not passthrough AAC.
#[test]
fn the_audio_description_follows_the_configured_format() {
    let aac = audio_desc(AudioFormat::Mpeg4Generic);
    assert_eq!(aac.encoding, "AAC");
    assert_eq!(aac.bitrate_kbps, 32);
    assert_eq!(audio_desc(AudioFormat::Latm).encoding, "AAC");

    // The default. ONVIF ver10 has no L16 token, but the bitrate must
    // still describe the ~256 kbps a client will actually receive.
    let pcm = audio_desc(AudioFormat::Pcm);
    assert_eq!(pcm.bitrate_kbps, 256);
    assert_ne!(
        pcm.bitrate_kbps, aac.bitrate_kbps,
        "L16 must not be described with the AAC bitrate"
    );

    // Multi-track: the profile describes the first track offered.
    assert_eq!(audio_desc(AudioFormat::All).encoding, "AAC");
}

/// Whatever we report has to be a value from ONVIF ver10's closed
/// `tt:AudioEncoding` enum, or a strict client rejects the configuration.
#[test]
fn every_audio_encoding_is_a_legal_onvif_token() {
    for format in [
        AudioFormat::Mpeg4Generic,
        AudioFormat::Latm,
        AudioFormat::Pcm,
        AudioFormat::All,
    ] {
        let enc = audio_desc(format).encoding;
        assert!(
            matches!(enc, "G711" | "G726" | "AAC"),
            "{} is not in tt:AudioEncoding",
            enc
        );
    }
}

/// A client that cannot re-select the configuration the device just
/// reported treats it as invalid, so the current value has to appear in
/// its own option list even when the camera's table left it out.
#[test]
fn the_current_value_is_always_a_selectable_option() {
    assert_eq!(options_including(&[10, 20], 15), vec![10, 15, 20]);
    assert_eq!(options_including(&[], 25), vec![25]);
    // Zeroes are placeholders in the tables, not real settings.
    assert_eq!(options_including(&[0, 30], 30), vec![30]);
    assert_eq!(options_including(&[20, 20, 10], 20), vec![10, 20]);
}

/// The whole point of reading `EncodeTable`: the ranges we offer are the
/// camera's own, not invented bounds.
#[test]
fn encoder_options_span_the_cameras_tables() {
    let main = desc(OnvifStream::Main, vec![30, 25, 15], vec![8192, 4096]);
    let sub = desc(OnvifStream::Sub, vec![15, 10], vec![1024, 512]);
    let xml = render_video_encoder_options(&[&main, &sub]);

    assert!(
        xml.contains("<tt:FrameRateRange><tt:Min>10</tt:Min><tt:Max>30</tt:Max>"),
        "{}",
        xml
    );
    assert!(
        xml.contains("<tt:BitrateRange><tt:Min>512</tt:Min><tt:Max>8192</tt:Max>"),
        "{}",
        xml
    );
    // Both streams' resolutions are offered, deduped.
    assert_eq!(
        xml.matches("<tt:ResolutionsAvailable>").count(),
        2,
        "{}",
        xml
    );
    // The bitrate range only exists in the extension block, so a client
    // that reads only the base H264 element still gets valid options.
    assert!(xml.contains("<tt:Extension>"), "{}", xml);
}

/// Resolutions grow, and one that two streams share is listed once.
#[test]
fn resolutions_grow_and_are_listed_once() {
    let main = StreamDesc::fallback(OnvifStream::Main);
    let sub = StreamDesc::fallback(OnvifStream::Sub);
    let xml = render_video_encoder_options(&[&main, &sub, &main]);
    let size = |w: u32, h: u32| {
        format!("<tt:ResolutionsAvailable><tt:Width>{w}</tt:Width><tt:Height>{h}</tt:Height></tt:ResolutionsAvailable>")
    };
    let listed = format!("<tt:H264>{}{}<tt:GovLengthRange>", size(640, 480), size(2560, 1440));
    assert_eq!(xml.matches(listed.as_str()).count(), 2, "{}", xml);
}

/// A camera that never answered leaves empty tables; the options still have
/// to be a usable range rather than an empty or inverted one.
#[test]
fn encoder_options_fall_back_when_the_camera_said_nothing() {
    let d = StreamDesc::fallback(OnvifStream::Main);
    let xml = render_video_encoder_options(&[&d]);
    // `fallback` reports 25fps/4096kbps, and those are the only values
    // known, so they bound the range.
    assert!(
        xml.contains("<tt:FrameRateRange><tt:Min>25</tt:Min><tt:Max>25</tt:Max>"),
        "{}",
        xml
    );
    assert!(
        xml.contains("<tt:BitrateRange><tt:Min>4096</tt:Min><tt:Max>4096</tt:Max>"),
        "{}",
        xml
    );
}

#[test]
fn span_falls_back_only_when_there_is_nothing_to_span() {
    assert_eq!(span(&[], 1, 30), (1, 30));
    assert_eq!(span(&[7], 1, 30), (7, 7));
    assert_eq!(span(&[7, 3, 9], 1, 30), (3, 9));
}

#[test]
fn a_lone_zero_is_something_to_span() {
    assert_eq!(span(&[0], 1, 30), (0, 0));
    assert_eq!(span(&[0, 5], 1, 30), (0, 5));
}

/// Audio is what makes a VMS request the audio track at all, so the two
/// configurations have to be inside the profile; and absent, not faked,
/// on a camera with no microphone.
#[test]
fn audio_configurations_follow_the_capability() {
    let src = render_audio_source_configuration("cam", "tt:AudioSourceConfiguration");
    assert!(src.contains("token=\"as_cam\""), "{}", src);
    assert!(
        src.contains("<tt:SourceToken>asrc_cam</tt:SourceToken>"),
        "{}",
        src
    );

    let enc = render_audio_encoder_configuration(
        "cam",
        AudioFormat::Mpeg4Generic,
        "tt:AudioEncoderConfiguration",
    );
    assert!(enc.contains("token=\"aec_cam\""), "{}", enc);
    assert!(enc.contains("<tt:Encoding>AAC</tt:Encoding>"), "{}", enc);
}

fn when(cond: bool, xml: &str) -> Option<String> {
    if cond {
        Some(xml.to_string())
    } else {
        None
    }
}

fn parts(audio: bool, ptz: bool) -> ProfileParts {
    ProfileParts {
        token: "profile_cam_main".to_string(),
        name: "cam_main".to_string(),
        video_source: "<tt:VideoSourceConfiguration/>".to_string(),
        audio_source: when(audio, "<tt:AudioSourceConfiguration/>"),
        video_encoder: "<tt:VideoEncoderConfiguration/>".to_string(),
        audio_encoder: when(audio, "<tt:AudioEncoderConfiguration/>"),
        ptz: when(ptz, "<tt:PTZConfiguration/>"),
    }
}

/// `tt:Profile` is an xs:sequence, and the audio configurations are
/// interleaved with the video ones rather than appended after them. Nothing
/// about the output looks wrong until a strict client rejects the whole
/// profile, so the order is pinned here.
#[test]
fn a_profile_emits_its_configurations_in_schema_order() {
    let xml = parts(true, true).render("trt:Profiles");
    let order = [
        "<tt:Name>",
        "<tt:VideoSourceConfiguration/>",
        "<tt:AudioSourceConfiguration/>",
        "<tt:VideoEncoderConfiguration/>",
        "<tt:AudioEncoderConfiguration/>",
        "<tt:PTZConfiguration/>",
    ];
    let mut last = 0;
    for element in order {
        let at = xml
            .find(element)
            .unwrap_or_else(|| panic!("{} should be present in {}", element, xml));
        assert!(at >= last, "{} is out of order in {}", element, xml);
        last = at;
    }
}

/// The optional halves drop out without disturbing the rest of the order.
#[test]
fn a_profile_without_audio_or_ptz_is_still_well_formed() {
    let xml = parts(false, false).render("trt:Profiles");
    assert!(!xml.contains("Audio"), "{}", xml);
    assert!(!xml.contains("PTZ"), "{}", xml);
    assert!(xml.starts_with("<trt:Profiles fixed=\"true\" token=\"profile_cam_main\">"));
    assert!(xml.ends_with("</trt:Profiles>"), "{}", xml);
}

/// `GetProfile` returns the same body under a singular element name.
#[test]
fn the_same_parts_render_under_either_element_name() {
    let p = parts(true, false);
    let single = p.render("trt:Profile");
    assert!(single.starts_with("<trt:Profile fixed="), "{}", single);
    assert!(single.ends_with("</trt:Profile>"), "{}", single);
    // The contents are identical, only the wrapper differs.
    let plural = p.render("trt:Profiles");
    assert_eq!(
        single
            .replace("trt:Profile ", "trt:Profiles ")
            .replace("</trt:Profile>", "</trt:Profiles>"),
        plural
    );
}

/// The audio source token has to be the one the events code already uses
/// for baby-cry notifications, or a client cannot tie the two together.
#[test]
fn the_audio_source_token_matches_the_events_surface() {
    let src = render_audio_source_configuration("cam", "tt:AudioSourceConfiguration");
    assert!(src.contains("asrc_cam"), "{}", src);
}

fn table(name: &str, rates: &str) -> EncodeTable {
    EncodeTable {
        name: name.to_string(),
        width: 2560,
        height: 1440,
        default_framerate: 1,
        default_bitrate: 6144,
        framerate_table: rates.to_string(),
        bitrate_table: "4096,6144".to_string(),
    }
}

#[test]
fn streams_are_described_by_their_tables() {
    let streams = vec![OnvifStream::Main, OnvifStream::Sub];
    let descs = read_stream_descs(&streams, &vec![table("mainStream", "30,20")]);
    assert_eq!(descs.len(), 2);
    assert_eq!((descs[0].width, descs[0].height), (2560, 1440));
    assert_eq!(descs[0].framerate, 20);
    assert_eq!(descs[0].bitrate_kbps, 6144);
    assert_eq!(descs[0].framerate_options(), vec![20, 30]);
    assert_eq!(descs[0].bitrate_options(), vec![4096, 6144]);
    let unknown = StreamDesc::fallback(OnvifStream::Sub);
    assert_eq!(descs[1].width, unknown.width);
}

fn ask(caps: CameraCapabilities, action: &str, body: &str) -> Result<String, String> {
    let descs = vec![
        desc(OnvifStream::Main, vec![30], vec![8192]),
        desc(OnvifStream::Sub, vec![15], vec![512]),
    ];
    let facts = MediaFacts {
        cam_name: "front door",
        caps,
        audio_format: AudioFormat::Pcm,
        descs: &descs,
        host: Ok("10.0.0.2"),
        authority: Ok("10.0.0.2:8000"),
        rtsp_port: 8554,
    };
    match dispatch(&facts, Ok(SystemGeneral::default()), action, body) {
        Ok(answer) => {
            assert!(answer.write.is_none());
            Ok(answer.xml)
        }
        Err(f) => Err(f.reason),
    }
}

fn full() -> CameraCapabilities {
    resolve(&Probe::default())
}

/// Every profile that is listed can be asked for.
#[test]
fn listed_profiles_resolve() {
    let all = ask(full(), "GetProfiles", "<GetProfiles/>").unwrap();
    for stream in [OnvifStream::Main, OnvifStream::Sub] {
        let token = profile_token("front door", stream);
        assert!(all.contains(&format!("token=\"{token}\"")), "{all}");
        let body = format!("<GetProfile><ProfileToken>{token}</ProfileToken></GetProfile>");
        assert!(ask(full(), "GetProfile", &body).unwrap().contains(&token));
        let body = format!("<GetStreamUri><ProfileToken>{token}</ProfileToken></GetStreamUri>");
        let uri = ask(full(), "GetStreamUri", &body).unwrap();
        assert!(uri.contains("rtsp://10.0.0.2:8554/front%20door/"), "{uri}");
    }
    let body = "<GetProfile><ProfileToken>nonsense</ProfileToken></GetProfile>";
    assert!(ask(full(), "GetProfile", body).is_err());
}

#[test]
fn a_camera_without_a_microphone_has_no_audio() {
    let silent = resolve(&Probe { support_audio: Some(false), ..Probe::default() });
    let profiles = ask(silent, "GetProfiles", "<GetProfiles/>").unwrap();
    assert!(!profiles.contains("Audio"), "{profiles}");
    let profiles = ask(full(), "GetProfiles", "<GetProfiles/>").unwrap();
    assert!(profiles.contains("tt:AudioEncoderConfiguration"), "{profiles}");
}

#[test]
fn the_display_belongs_to_the_media_service() {
    let osds = ask(full(), "GetOSDs", "<GetOSDs/>").unwrap();
    assert!(osds.contains("osd_name"), "{osds}");
    assert!(ask(full(), "Juggle", "<x/>").is_err());
}

//! What a camera can actually do, as opposed to what the bridge would like to
//! claim it can do.
//!
//! Three independent sources, in decreasing order of trust: the measured zoom
//! and focus ranges, the camera's own `Support` table, and the abilities of the
//! logged-in user. A signal that the camera did not give is unknown, and
//! unknown falls back to "yes": removing a capability needs positive evidence
//! that it is absent. The answer is keyed to the connection it was read over.

use vstd::prelude::*;
use vstd::string::*;
use crate::camera::ReadFailure;
use crate::text;

verus! {

/// How long to wait before probing a camera again that told us nothing, in
/// milliseconds.
pub const RETRY_UNKNOWN: u64 = 30_000;

/// The resolved capability set handed to the ONVIF handlers.
#[derive(Clone, Copy, PartialEq, Eq, Structural, Debug)]
pub struct CameraCapabilities {
    /// The camera has a pan and/or tilt motor.
    pub pan_tilt: bool,
    /// The camera has an optical zoom.
    pub zoom: bool,
    /// The camera can recall stored PTZ presets.
    pub presets: bool,
    /// The logged-in user may also write the preset table.
    pub preset_write: bool,
    /// The camera has a microphone.
    pub audio: bool,
    /// The camera exposes LED control.
    pub led_ctrl: bool,
    /// The camera has a floodlight that can be driven manually.
    pub floodlight: bool,
    /// The lens has a focus motor.
    pub focus: bool,
    /// The camera exposes the general/OSD settings block.
    pub osd: bool,
}

impl CameraCapabilities {
    /// Whether there is anything for a PTZ service to do.
    pub open spec fn has_ptz(&self) -> bool {
        self.pan_tilt || self.zoom || self.presets
    }

    /// Whether there is anything for an Imaging service to do.
    pub open spec fn has_imaging(&self) -> bool {
        self.led_ctrl || self.focus
    }

    /// Should this camera have a PTZ service at all?
    pub fn ptz(&self) -> (yes: bool)
        ensures
            yes == self.has_ptz(),
    {
        self.pan_tilt || self.zoom || self.presets
    }

    /// Should this camera have an Imaging service at all?
    ///
    /// Imaging only carries the IR cut filter and the focus motor, so a camera
    /// with neither gets no service address.
    pub fn imaging(&self) -> (yes: bool)
        ensures
            yes == self.has_imaging(),
    {
        self.led_ctrl || self.focus
    }

    /// Does this camera have any relay output worth advertising? The siren is
    /// always one.
    pub fn relays(&self) -> (yes: bool)
        ensures
            yes,
    {
        self.siren() || self.floodlight || self.led_ctrl
    }

    /// Every camera accepts the siren's command, silently doing nothing if it
    /// has no speaker, and nothing rules a siren out. So it is always offered.
    pub fn siren(&self) -> (yes: bool)
        ensures
            yes,
    {
        true
    }
}

/// The letters in the `ptzMode` string (`"pt"`, `"ptz"`, `"p"`, ...).
#[derive(Clone, Copy, PartialEq, Eq, Structural, Debug, Default)]
pub struct PtzMode {
    pub pan: bool,
    pub tilt: bool,
    pub zoom: bool,
}

/// Raw observations, before they are reconciled. `None` on a field means the
/// camera did not tell us, never "no".
#[derive(Clone, Copy, PartialEq, Eq, Debug)]
pub struct Probe {
    /// `Support`: this channel has PTZ hardware wired up at all.
    pub support_ptz_control: Option<bool>,
    /// `Support.ptzMode`, when it is a string we recognise.
    pub support_mode: Option<PtzMode>,
    /// `Support`: this channel supports stored presets.
    pub support_presets: Option<bool>,
    /// `AbilityInfo`: the logged-in user holds the PTZ `control` ability.
    pub ability_control: Option<bool>,
    /// `AbilityInfo`: the user's `preset` ability is read/write.
    pub ability_preset_write: Option<bool>,
    /// The reported `(minPos, maxPos)` zoom range.
    pub zoom_range: Option<(u32, u32)>,
    /// The reported `(minPos, maxPos)` focus range.
    pub focus_range: Option<(u32, u32)>,
    /// `Support`: this channel has a microphone.
    pub support_audio: Option<bool>,
    /// `Support`: this channel exposes LED control.
    pub support_led_ctrl: Option<bool>,
    /// `Support`: this channel exposes the OSD settings block.
    pub support_osd: Option<bool>,
    /// The camera answered a floodlight-task read, so it has a floodlight.
    pub floodlight: Option<bool>,
}

/// A probe that learned nothing.
pub open spec fn blank() -> Probe {
    Probe {
        support_ptz_control: None,
        support_mode: None,
        support_presets: None,
        ability_control: None,
        ability_preset_write: None,
        zoom_range: None,
        focus_range: None,
        support_audio: None,
        support_led_ctrl: None,
        support_osd: None,
        floodlight: None,
    }
}

impl Default for Probe {
    fn default() -> (probe: Self)
        ensures
            probe == blank(),
    {
        Probe {
            support_ptz_control: None,
            support_mode: None,
            support_presets: None,
            ability_control: None,
            ability_preset_write: None,
            zoom_range: None,
            focus_range: None,
            support_audio: None,
            support_led_ctrl: None,
            support_osd: None,
            floodlight: None,
        }
    }
}

impl Probe {
    /// Did the camera tell us anything at all? A probe that learned nothing is
    /// an offline camera, not a featureless one.
    pub fn is_informative(&self) -> (yes: bool)
        ensures
            yes == (*self != blank()),
    {
        self.support_ptz_control.is_some() || self.support_mode.is_some()
            || self.support_presets.is_some() || self.ability_control.is_some()
            || self.ability_preset_write.is_some() || self.zoom_range.is_some()
            || self.focus_range.is_some() || self.support_audio.is_some()
            || self.support_led_ctrl.is_some() || self.support_osd.is_some()
            || self.floodlight.is_some()
    }
}

/// A signal, or what is taken for granted without one.
pub open spec fn known_or(signal: Option<bool>, otherwise: bool) -> bool {
    match signal {
        Some(v) => v,
        None => otherwise,
    }
}

/// Whether the logged-in user can drive the motors, unless something says
/// otherwise.
pub open spec fn controllable(p: Probe) -> bool {
    known_or(p.ability_control, true) && known_or(p.support_ptz_control, true)
}

/// Whether there is a zoom: a measured range decides, then the mode string.
pub open spec fn zooms(p: Probe) -> bool {
    match p.zoom_range {
        Some((min, max)) => max > min,
        None => match p.support_mode {
            Some(m) => m.zoom,
            None => true,
        },
    }
}

/// Whether there is a pan or tilt motor, by the mode string.
pub open spec fn pans(p: Probe) -> bool {
    match p.support_mode {
        Some(m) => m.pan || m.tilt,
        None => true,
    }
}

/// Whether stored positions can be recalled, which needs a motor.
pub open spec fn recalls(p: Probe) -> bool {
    (pans(p) || zooms(p)) && known_or(p.support_presets, true)
}

/// The capabilities that observations amount to.
pub open spec fn resolved(p: Probe) -> CameraCapabilities {
    CameraCapabilities {
        pan_tilt: controllable(p) && pans(p),
        zoom: controllable(p) && zooms(p),
        presets: controllable(p) && recalls(p),
        preset_write: controllable(p) && recalls(p) && known_or(p.ability_preset_write, true),
        audio: known_or(p.support_audio, true),
        led_ctrl: known_or(p.support_led_ctrl, true),
        floodlight: known_or(p.floodlight, false),
        focus: controllable(p) && (p.focus_range matches Some((min, max)) && max > min),
        osd: known_or(p.support_osd, true),
    }
}

/// Turn raw observations into the capability set.
pub fn resolve(p: &Probe) -> (caps: CameraCapabilities)
    ensures
        caps == resolved(*p),
{
    let audio: bool = p.support_audio.unwrap_or(true);
    let led_ctrl: bool = p.support_led_ctrl.unwrap_or(true);
    let osd: bool = p.support_osd.unwrap_or(true);
    // Unlike the rest, the floodlight defaults to absent: this is a probe of a
    // specific accessory, and a relay for a light that isn't there would put a
    // dead switch in every client's UI.
    let floodlight: bool = p.floodlight.unwrap_or(false);
    // A focus motor needs a real range, and it lives behind the same PTZ
    // `control` ability as the zoom.
    let focus: bool = match p.focus_range {
        Some((min, max)) => max > min,
        None => false,
    };
    // Both of these default to "yes" when unknown.
    let controllable: bool = p.ability_control.unwrap_or(true) && p.support_ptz_control.unwrap_or(
        true,
    );
    if !controllable {
        return CameraCapabilities {
            pan_tilt: false,
            zoom: false,
            presets: false,
            preset_write: false,
            focus: false,
            audio,
            led_ctrl,
            floodlight,
            osd,
        };
    }
    // A measured zoom range beats whatever `ptzMode` claims.
    let zoom: bool = match p.zoom_range {
        Some((min, max)) => max > min,
        None => match p.support_mode {
            Some(m) => m.zoom,
            None => true,
        },
    };
    let pan_tilt: bool = match p.support_mode {
        Some(m) => m.pan || m.tilt,
        None => true,
    };
    // A preset is a stored motor position, so it is only meaningful if some
    // motor exists.
    let presets: bool = (pan_tilt || zoom) && p.support_presets.unwrap_or(true);
    // Storing a preset is a separate permission from recalling one.
    let preset_write: bool = presets && p.ability_preset_write.unwrap_or(true);
    CameraCapabilities {
        pan_tilt,
        zoom,
        presets,
        preset_write,
        focus,
        audio,
        led_ctrl,
        floodlight,
        osd,
    }
}

/// A camera that says nothing keeps every capability but the two that need
/// evidence: a floodlight, and a focus motor.
pub proof fn law_silence_keeps_capabilities()
    ensures
        resolved(blank()) == (CameraCapabilities {
            pan_tilt: true,
            zoom: true,
            presets: true,
            preset_write: true,
            audio: true,
            led_ctrl: true,
            osd: true,
            floodlight: false,
            focus: false,
        }),
{
}

/// What goes together in every capability set: presets need a motor, storing
/// them needs recalling them, and without control there is neither PTZ nor
/// focus.
pub proof fn law_capabilities_are_consistent(p: Probe)
    ensures
        resolved(p).presets ==> resolved(p).pan_tilt || resolved(p).zoom,
        resolved(p).preset_write ==> resolved(p).presets,
        !controllable(p) ==> !resolved(p).has_ptz() && !resolved(p).focus,
        !resolved(p).has_ptz() ==> !resolved(p).preset_write,
{
}

/// Removing a capability needs positive evidence: each that a camera lacks, but
/// for the floodlight and the focus, comes with an observation that denies it.
pub proof fn law_removal_needs_evidence(p: Probe)
    ensures
        !resolved(p).audio ==> p.support_audio == Some(false),
        !resolved(p).led_ctrl ==> p.support_led_ctrl == Some(false),
        !resolved(p).osd ==> p.support_osd == Some(false),
        !resolved(p).pan_tilt ==> p.ability_control == Some(false) || p.support_ptz_control == Some(
            false,
        ) || p.support_mode is Some,
        !resolved(p).zoom ==> p.ability_control == Some(false) || p.support_ptz_control == Some(
            false,
        ) || p.zoom_range is Some || p.support_mode is Some,
        resolved(p).floodlight ==> p.floodlight == Some(true),
        resolved(p).focus ==> p.focus_range is Some,
{
}

/// Whether a text is made of the axis letters alone, at least one.
pub open spec fn is_mode(letters: Seq<char>) -> bool {
    &&& letters.len() > 0
    &&& forall|i: int|
        0 <= i < letters.len() ==> (#[trigger] letters[i] == 'p' || letters[i] == 't' || letters[i]
            == 'z')
}

/// The axes that a `ptzMode` string names, if it is in that vocabulary.
pub open spec fn mode_of(s: Seq<char>) -> Option<PtzMode> {
    let letters = text::ascii_lower(text::trimmed(s));
    if is_mode(letters) {
        Some(
            PtzMode {
                pan: letters.contains('p'),
                tilt: letters.contains('t'),
                zoom: letters.contains('z'),
            },
        )
    } else {
        None
    }
}

/// `ptzMode` is a set of axis letters. Anything outside that vocabulary is a
/// value we have never seen, and guessing at it would be worse than admitting
/// we don't know.
pub fn parse_ptz_mode(s: &str) -> (mode: Option<PtzMode>)
    ensures
        mode == mode_of(s@),
{
    let letters = text::ascii_lowercase(text::trim(s).as_str());
    let chars = text::chars_of(letters.as_str());
    if chars.len() == 0 {
        return None;
    }
    let mut i: usize = 0;
    while i < chars.len()
        invariant
            chars@ == letters@,
            letters@ == text::ascii_lower(text::trimmed(s@)),
            i <= chars@.len(),
            forall|j: int|
                0 <= j < i ==> (#[trigger] letters@[j] == 'p' || letters@[j] == 't' || letters@[j]
                    == 'z'),
        decreases chars@.len() - i,
    {
        let c: char = chars[i];
        if c != 'p' && c != 't' && c != 'z' {
            assert(letters@[i as int] == c);
            return None;
        }
        i += 1;
    }
    Some(
        PtzMode {
            pan: text::holds_char(letters.as_str(), 'p'),
            tilt: text::holds_char(letters.as_str(), 't'),
            zoom: text::holds_char(letters.as_str(), 'z'),
        },
    )
}

/// The camera's own feature table.
#[derive(Default, Debug)]
pub struct Support {
    pub ptz_mode: Option<String>,
    /// How many audio channels the whole device has.
    pub audio_num: Option<u32>,
    pub items: Vec<SupportItem>,
}

/// What the feature table says of one channel.
#[derive(Clone, Copy, Default, Debug)]
pub struct SupportItem {
    pub chn_id: u32,
    /// Stated in the negative: one means no microphone.
    pub no_audio: Option<u32>,
    pub led_ctrl: Option<u32>,
    pub osd_cfg: Option<u32>,
    pub ptz_control: Option<u32>,
    /// Zero means that the channel has no PTZ hardware.
    pub ptz_type: Option<u32>,
    pub ptz_preset: Option<u32>,
}

/// The first item of a channel.
pub open spec fn item_of(items: Seq<SupportItem>, channel: u8) -> Option<SupportItem>
    decreases items.len(),
{
    if items.len() == 0 {
        None
    } else if items[0].chn_id == channel {
        Some(items[0])
    } else {
        item_of(items.drop_first(), channel)
    }
}

/// A flag, or what was known before.
pub open spec fn flag_or(flag: Option<u32>, before: Option<bool>) -> Option<bool> {
    match flag {
        Some(v) => Some(v != 0),
        None => before,
    }
}

/// What is known once the device-wide part of a feature table has been read.
pub open spec fn with_device(p: Probe, mode: Option<Seq<char>>, audio_num: Option<u32>) -> Probe {
    let read = match mode {
        Some(s) => mode_of(s),
        None => None,
    };
    Probe {
        support_mode: if read is Some {
            read
        } else {
            p.support_mode
        },
        support_audio: if audio_num == Some(0u32) {
            Some(false)
        } else {
            p.support_audio
        },
        ..p
    }
}

/// What is known once a channel's part of a feature table has been read. A
/// channel cannot restore the audio that the device denies, and an explicit
/// control flag wins over the hardware type.
pub open spec fn with_item(p: Probe, item: SupportItem) -> Probe {
    Probe {
        support_audio: match item.no_audio {
            Some(v) => Some(known_or(p.support_audio, true) && v == 0),
            None => p.support_audio,
        },
        support_led_ctrl: flag_or(item.led_ctrl, p.support_led_ctrl),
        support_osd: flag_or(item.osd_cfg, p.support_osd),
        support_ptz_control: match item.ptz_control {
            Some(v) => Some(v != 0),
            None => if item.ptz_type == Some(0u32) {
                Some(false)
            } else {
                p.support_ptz_control
            },
        },
        support_presets: flag_or(item.ptz_preset, p.support_presets),
        ..p
    }
}

/// What is known once a feature table has been read for a channel. Only the
/// channel's own item counts.
pub open spec fn with_support(p: Probe, support: Support, channel: u8) -> Probe {
    let device = with_device(p, text::opt_view(support.ptz_mode), support.audio_num);
    match item_of(support.items@, channel) {
        Some(item) => with_item(device, item),
        None => device,
    }
}

fn find_item(items: &Vec<SupportItem>, channel: u8) -> (found: Option<SupportItem>)
    ensures
        found == item_of(items@, channel),
{
    let mut i: usize = 0;
    assert(items@.skip(0) =~= items@);
    while i < items.len()
        invariant
            i <= items@.len(),
            item_of(items@, channel) == item_of(items@.skip(i as int), channel),
        decreases items@.len() - i,
    {
        if items[i].chn_id == channel as u32 {
            return Some(items[i]);
        }
        assert(items@.skip(i as int).drop_first() =~= items@.skip(i + 1));
        i += 1;
    }
    None
}

/// Read the relevant flags out of the camera's `Support` table.
pub fn apply_support(p: &mut Probe, support: &Support, channel_id: u8)
    ensures
        *final(p) == with_support(*old(p), *support, channel_id),
{
    if let Some(mode) = &support.ptz_mode {
        if let Some(mode) = parse_ptz_mode(mode.as_str()) {
            p.support_mode = Some(mode);
        }
    }
    // A device that reports zero audio channels has no microphone anywhere; a
    // non-zero count only says that some channel has one.
    if support.audio_num == Some(0) {
        p.support_audio = Some(false);
    }
    let item = match find_item(&support.items, channel_id) {
        Some(item) => item,
        None => {
            return;
        },
    };
    if let Some(v) = item.no_audio {
        p.support_audio = Some(p.support_audio.unwrap_or(true) && v == 0);
    }
    if let Some(v) = item.led_ctrl {
        p.support_led_ctrl = Some(v != 0);
    }
    if let Some(v) = item.osd_cfg {
        p.support_osd = Some(v != 0);
    }
    if let Some(v) = item.ptz_control {
        p.support_ptz_control = Some(v != 0);
    } else if item.ptz_type == Some(0) {
        p.support_ptz_control = Some(false);
    }
    if let Some(v) = item.ptz_preset {
        p.support_presets = Some(v != 0);
    }
}

/// How much of an ability the logged-in user holds, written as the suffix of
/// each entry: `control_rw`, `preset_ro`.
#[derive(Clone, Copy, PartialEq, Eq, Structural, Debug, Default)]
pub enum Access {
    /// The ability was not in the list at all.
    #[default]
    Absent,
    /// `_ro`: may be read, may not be changed.
    ReadOnly,
    /// `_rw`: full access.
    ReadWrite,
}

/// The PTZ abilities the logged-in user holds on one channel.
#[derive(Clone, Copy, PartialEq, Eq, Structural, Debug, Default)]
pub struct PtzAbilities {
    /// Driving the motors.
    pub control: Access,
    /// The preset table. Recalling a preset needs it at all; storing one needs
    /// it read/write.
    pub preset: Access,
}

/// The abilities that a camera lists.
#[derive(Default, Debug)]
pub struct AbilityInfo {
    pub ptz: Option<AbilityInfoToken>,
}

/// The abilities of one module.
#[derive(Default, Debug)]
pub struct AbilityInfoToken {
    pub sub_module: Vec<AbilityInfoSubModule>,
}

/// The abilities of one part of a module.
#[derive(Default, Debug)]
pub struct AbilityInfoSubModule {
    /// The channel they are for; unset means the one that was asked for.
    pub channel_id: Option<u8>,
    /// Entries like `control_rw`, with commas between them.
    pub ability_value: String,
}

/// Whether a part of a module is about a channel.
pub open spec fn applies(sub: AbilityInfoSubModule, channel: u8) -> bool {
    match sub.channel_id {
        Some(c) => c == channel,
        None => true,
    }
}

/// The name of an entry: what stands before the first underscore.
pub open spec fn entry_name(entry: Seq<char>) -> Seq<char> {
    let t = text::trimmed(entry);
    t.take(text::first_of(t, '_'))
}

/// Whether an entry grants writing: what follows the name is `rw`. Any other
/// suffix still proves that the ability exists.
pub open spec fn entry_writes(entry: Seq<char>) -> bool {
    let t = text::trimmed(entry);
    let at = text::first_of(t, '_');
    at < t.len() && ({
        let rest = t.skip(at + 1);
        rest.take(text::first_of(rest, '_')) == "rw"@
    })
}

/// Whether an entry of a channel has this name, and grants writing if `writes`.
pub open spec fn listed(
    subs: Seq<AbilityInfoSubModule>,
    channel: u8,
    name: Seq<char>,
    writes: bool,
    i: int,
    k: int,
) -> bool {
    &&& 0 <= i < subs.len()
    &&& applies(subs[i], channel)
    &&& 0 <= k < text::pieces(subs[i].ability_value@, ',').len()
    &&& entry_name(text::pieces(subs[i].ability_value@, ',')[k]) == name
    &&& writes ==> entry_writes(text::pieces(subs[i].ability_value@, ',')[k])
}

/// How much of an ability the entries of a channel grant: the strongest grant
/// wins.
pub open spec fn access_to(subs: Seq<AbilityInfoSubModule>, channel: u8, name: Seq<char>) -> Access {
    if exists|i: int, k: int| #[trigger] listed(subs, channel, name, true, i, k) {
        Access::ReadWrite
    } else if exists|i: int, k: int| #[trigger] listed(subs, channel, name, false, i, k) {
        Access::ReadOnly
    } else {
        Access::Absent
    }
}

/// Whether an entry of a channel has a name at all.
pub open spec fn named(
    subs: Seq<AbilityInfoSubModule>,
    channel: u8,
    i: int,
    k: int,
) -> bool {
    &&& 0 <= i < subs.len()
    &&& applies(subs[i], channel)
    &&& 0 <= k < text::pieces(subs[i].ability_value@, ',').len()
    &&& entry_name(text::pieces(subs[i].ability_value@, ',')[k]).len() > 0
}

/// The PTZ abilities of a channel. A camera that lists no PTZ module grants
/// none; one whose list for the channel is empty says nothing.
pub open spec fn abilities_of(info: AbilityInfo, channel: u8) -> Option<PtzAbilities> {
    match info.ptz {
        None => Some(PtzAbilities { control: Access::Absent, preset: Access::Absent }),
        Some(token) => {
            let subs = token.sub_module@;
            if exists|i: int, k: int| #[trigger] named(subs, channel, i, k) {
                Some(
                    PtzAbilities {
                        control: access_to(subs, channel, "control"@),
                        preset: access_to(subs, channel, "preset"@),
                    },
                )
            } else {
                None
            }
        },
    }
}

/// An entry of an ability list: its name, and whether it grants writing.
fn read_entry(entry: &str) -> (read: (String, bool))
    ensures
        read.0@ == entry_name(entry@),
        read.1 == entry_writes(entry@),
{
    let t = text::trim(entry);
    let (name, rest) = text::split_first(t.as_str(), '_');
    let writes: bool = match rest {
        Some(rest) => {
            let (suffix, _) = text::split_first(rest.as_str(), '_');
            text::same(suffix.as_str(), "rw")
        },
        None => false,
    };
    (name, writes)
}

/// The stronger of two grants.
fn stronger(a: Access, writes: bool) -> (out: Access)
    ensures
        out == (if writes || a == Access::ReadWrite {
            Access::ReadWrite
        } else {
            Access::ReadOnly
        }),
{
    if writes || a == Access::ReadWrite {
        Access::ReadWrite
    } else {
        Access::ReadOnly
    }
}

/// Whether an entry comes before position `k` of part `i`.
spec fn before(i: int, k: int, at_i: int, at_k: int) -> bool {
    i < at_i || (i == at_i && k < at_k)
}

/// What has been read of a list when the entries before a position have been.
spec fn read_so_far(
    subs: Seq<AbilityInfoSubModule>,
    channel: u8,
    name: Seq<char>,
    at_i: int,
    at_k: int,
    access: Access,
) -> bool {
    match access {
        Access::ReadWrite => exists|i: int, k: int| #[trigger]
            listed(subs, channel, name, true, i, k),
        Access::ReadOnly => (exists|i: int, k: int| #[trigger]
            listed(subs, channel, name, false, i, k)) && forall|i: int, k: int|
            before(i, k, at_i, at_k) ==> !#[trigger] listed(subs, channel, name, true, i, k),
        Access::Absent => forall|i: int, k: int|
            before(i, k, at_i, at_k) ==> !#[trigger] listed(subs, channel, name, false, i, k),
    }
}

proof fn lemma_listed(
    subs: Seq<AbilityInfoSubModule>,
    channel: u8,
    name: Seq<char>,
    i: int,
    k: int,
)
    ensures
        listed(subs, channel, name, true, i, k) ==> listed(subs, channel, name, false, i, k),
{
}

proof fn lemma_read_step(
    subs: Seq<AbilityInfoSubModule>,
    channel: u8,
    name: Seq<char>,
    at_i: int,
    at_k: int,
    access: Access,
    next: Access,
)
    requires
        read_so_far(subs, channel, name, at_i, at_k, access),
        0 <= at_i < subs.len(),
        applies(subs[at_i], channel),
        0 <= at_k < text::pieces(subs[at_i].ability_value@, ',').len(),
        ({
            let entry = text::pieces(subs[at_i].ability_value@, ',')[at_k];
            next == (if entry_name(entry) == name {
                if entry_writes(entry) || access == Access::ReadWrite {
                    Access::ReadWrite
                } else {
                    Access::ReadOnly
                }
            } else {
                access
            })
        }),
    ensures
        read_so_far(subs, channel, name, at_i, at_k + 1, next),
{
    let entry = text::pieces(subs[at_i].ability_value@, ',')[at_k];
    if entry_name(entry) == name {
        assert(listed(subs, channel, name, false, at_i, at_k));
        assert(listed(subs, channel, name, true, at_i, at_k) == entry_writes(entry));
        if next == Access::ReadOnly {
            assert forall|i: int, k: int| before(i, k, at_i, at_k + 1) implies !#[trigger] listed(
                subs,
                channel,
                name,
                true,
                i,
                k,
            ) by {
                if !(i == at_i && k == at_k) {
                    assert(before(i, k, at_i, at_k));
                    lemma_listed(subs, channel, name, i, k);
                }
            }
        }
    } else {
        assert(!listed(subs, channel, name, false, at_i, at_k));
        assert(!listed(subs, channel, name, true, at_i, at_k));
        assert forall|i: int, k: int|
            before(i, k, at_i, at_k + 1) && !(i == at_i && k == at_k) implies #[trigger] before(
            i,
            k,
            at_i,
            at_k,
        ) by {}
        match access {
            Access::ReadOnly => {
                assert forall|i: int, k: int| before(i, k, at_i, at_k + 1) implies !#[trigger] listed(
                    subs,
                    channel,
                    name,
                    true,
                    i,
                    k,
                ) by {
                    if !(i == at_i && k == at_k) {
                        assert(before(i, k, at_i, at_k));
                    }
                }
            },
            Access::Absent => {
                assert forall|i: int, k: int| before(i, k, at_i, at_k + 1) implies !#[trigger] listed(
                    subs,
                    channel,
                    name,
                    false,
                    i,
                    k,
                ) by {
                    if !(i == at_i && k == at_k) {
                        assert(before(i, k, at_i, at_k));
                    }
                }
            },
            Access::ReadWrite => {},
        }
    }
}

/// Nothing of a part is before the next part but what the part holds.
proof fn lemma_read_part(
    subs: Seq<AbilityInfoSubModule>,
    channel: u8,
    name: Seq<char>,
    at_i: int,
    at_k: int,
    access: Access,
)
    requires
        read_so_far(subs, channel, name, at_i, at_k, access),
        0 <= at_i < subs.len(),
        !applies(subs[at_i], channel) || at_k == text::pieces(subs[at_i].ability_value@, ',').len(),
    ensures
        read_so_far(subs, channel, name, at_i + 1, 0, access),
{
    assert forall|i: int, k: int, w: bool|
        before(i, k, at_i + 1, 0) && #[trigger] listed(subs, channel, name, w, i, k) implies before(
        i,
        k,
        at_i,
        at_k,
    ) by {}
}

/// Read the PTZ ability list for `channel_id` out of the camera's answer.
///
/// `None` means the camera told us nothing we could parse, never "the user
/// holds nothing".
pub fn ptz_abilities(info: &AbilityInfo, channel_id: u8) -> (abilities: Option<PtzAbilities>)
    ensures
        abilities == abilities_of(*info, channel_id),
{
    let token = match &info.ptz {
        Some(token) => token,
        None => {
            // The camera answered and listed no PTZ module at all.
            return Some(PtzAbilities { control: Access::Absent, preset: Access::Absent });
        },
    };
    let ghost subs = token.sub_module@;
    let mut any: bool = false;
    let mut control: Access = Access::Absent;
    let mut preset: Access = Access::Absent;
    let mut i: usize = 0;
    while i < token.sub_module.len()
        invariant
            i <= subs.len(),
            subs == token.sub_module@,
            any ==> exists|x: int, y: int| #[trigger] named(subs, channel_id, x, y),
            !any ==> forall|x: int, y: int|
                before(x, y, i as int, 0) ==> !#[trigger] named(subs, channel_id, x, y),
            read_so_far(subs, channel_id, "control"@, i as int, 0, control),
            read_so_far(subs, channel_id, "preset"@, i as int, 0, preset),
        decreases subs.len() - i,
    {
        let sub = &token.sub_module[i];
        let ours: bool = match sub.channel_id {
            Some(c) => c == channel_id,
            None => true,
        };
        let mut k: usize = 0;
        if ours {
            let entries = text::split(sub.ability_value.as_str(), ',');
            let ghost all = text::pieces(sub.ability_value@, ',');
            while k < entries.len()
                invariant
                    i < subs.len(),
                    k <= entries@.len(),
                    subs == token.sub_module@,
                    sub == subs[i as int],
                    applies(subs[i as int], channel_id),
                    all == text::pieces(subs[i as int].ability_value@, ','),
                    text::views(entries@) == all,
                    any ==> exists|x: int, y: int| #[trigger] named(subs, channel_id, x, y),
                    !any ==> forall|x: int, y: int|
                        before(x, y, i as int, k as int) ==> !#[trigger] named(
                            subs,
                            channel_id,
                            x,
                            y,
                        ),
                    read_so_far(subs, channel_id, "control"@, i as int, k as int, control),
                    read_so_far(subs, channel_id, "preset"@, i as int, k as int, preset),
                decreases entries@.len() - k,
            {
                assert(all[k as int] == entries@[k as int]@);
                let (name, writes) = read_entry(entries[k].as_str());
                let ghost was_control = control;
                let ghost was_preset = preset;
                if !name.as_str().is_empty() {
                    assert(named(subs, channel_id, i as int, k as int));
                    any = true;
                } else {
                    assert(!named(subs, channel_id, i as int, k as int));
                }
                if text::same(name.as_str(), "control") {
                    control = stronger(control, writes);
                }
                if text::same(name.as_str(), "preset") {
                    preset = stronger(preset, writes);
                }
                proof {
                    lemma_read_step(
                        subs,
                        channel_id,
                        "control"@,
                        i as int,
                        k as int,
                        was_control,
                        control,
                    );
                    lemma_read_step(
                        subs,
                        channel_id,
                        "preset"@,
                        i as int,
                        k as int,
                        was_preset,
                        preset,
                    );
                    if !any {
                        assert forall|x: int, y: int|
                            before(x, y, i as int, k + 1) implies !#[trigger] named(
                            subs,
                            channel_id,
                            x,
                            y,
                        ) by {
                            if !(x == i && y == k) {
                                assert(before(x, y, i as int, k as int));
                            }
                        }
                    }
                }
                k += 1;
            }
        }
        proof {
            lemma_read_part(subs, channel_id, "control"@, i as int, k as int, control);
            lemma_read_part(subs, channel_id, "preset"@, i as int, k as int, preset);
            if !any {
                assert forall|x: int, y: int| before(x, y, i + 1, 0) implies !#[trigger] named(
                    subs,
                    channel_id,
                    x,
                    y,
                ) by {
                    if named(subs, channel_id, x, y) {
                        assert(before(x, y, i as int, k as int));
                    }
                }
            }
        }
        i += 1;
    }
    proof {
        lemma_access_read(subs, channel_id, "control"@, control);
        lemma_access_read(subs, channel_id, "preset"@, preset);
        if !any {
            assert forall|x: int, y: int| !#[trigger] named(subs, channel_id, x, y) by {
                if named(subs, channel_id, x, y) {
                    assert(before(x, y, subs.len() as int, 0));
                }
            }
        }
    }
    // An empty ability list is a firmware we don't understand, not a camera
    // without a motor.
    if !any {
        None
    } else {
        Some(PtzAbilities { control, preset })
    }
}

proof fn lemma_access_read(
    subs: Seq<AbilityInfoSubModule>,
    channel: u8,
    name: Seq<char>,
    access: Access,
)
    requires
        read_so_far(subs, channel, name, subs.len() as int, 0, access),
    ensures
        access == access_to(subs, channel, name),
{
    assert forall|i: int, k: int, w: bool| #[trigger]
        listed(subs, channel, name, w, i, k) implies before(i, k, subs.len() as int, 0) && listed(
        subs,
        channel,
        name,
        false,
        i,
        k,
    ) by {}
}

/// Can the logged-in user drive the motors? Anything short of read/write means
/// that every PTZ button would return a fault.
pub fn ptz_control_ability(info: &AbilityInfo, channel_id: u8) -> (yes: Option<bool>)
    ensures
        yes == match abilities_of(*info, channel_id) {
            Some(a) => Some(a.control == Access::ReadWrite),
            None => None,
        },
{
    match ptz_abilities(info, channel_id) {
        Some(a) => Some(a.control == Access::ReadWrite),
        None => None,
    }
}

/// May the logged-in user store presets, as opposed to only recalling them?
///
/// A firmware that enumerates PTZ abilities without naming `preset` at all is
/// not telling us presets are read-only, so that stays unknown.
pub fn ptz_preset_write_ability(info: &AbilityInfo, channel_id: u8) -> (yes: Option<bool>)
    ensures
        yes == match abilities_of(*info, channel_id) {
            Some(a) => match a.preset {
                Access::Absent => None,
                Access::ReadOnly => Some(false),
                Access::ReadWrite => Some(true),
            },
            None => None,
        },
{
    match ptz_abilities(info, channel_id) {
        Some(a) => match a.preset {
            Access::Absent => None,
            Access::ReadOnly => Some(false),
            Access::ReadWrite => Some(true),
        },
        None => None,
    }
}

/// Did the camera answer and decline, as opposed to not answering at all?
pub fn is_refusal(failure: ReadFailure) -> (yes: bool)
    ensures
        yes == (failure == ReadFailure::Unavailable || failure == ReadFailure::Unintelligible),
{
    matches!(failure, ReadFailure::Unavailable | ReadFailure::Unintelligible)
}

/// What a floodlight read says: an answer means there is one, a refusal that
/// there is none, and silence nothing.
pub open spec fn floodlight_of(answer: Result<(), ReadFailure>) -> Option<bool> {
    match answer {
        Ok(_) => Some(true),
        Err(ReadFailure::Other) => None,
        Err(_) => Some(false),
    }
}

/// What the three independent reads of a probe amount to.
pub open spec fn probed(
    support: Option<Support>,
    abilities: Option<AbilityInfo>,
    floodlight: Result<(), ReadFailure>,
    channel: u8,
) -> Probe {
    let p = match support {
        Some(s) => with_support(blank(), s, channel),
        None => blank(),
    };
    let a = match abilities {
        Some(info) => abilities_of(info, channel),
        None => None,
    };
    Probe {
        ability_control: match a {
            Some(x) => Some(x.control == Access::ReadWrite),
            None => None,
        },
        ability_preset_write: match a {
            Some(x) => match x.preset {
                Access::Absent => None,
                Access::ReadOnly => Some(false),
                Access::ReadWrite => Some(true),
            },
            None => None,
        },
        floodlight: floodlight_of(floodlight),
        ..p
    }
}

/// The probe that the three independent reads of a camera amount to; `None` for
/// a read that failed.
pub fn run_probe(
    support: &Option<Support>,
    abilities: &Option<AbilityInfo>,
    floodlight: Result<(), ReadFailure>,
    channel_id: u8,
) -> (p: Probe)
    ensures
        p == probed(*support, *abilities, floodlight, channel_id),
{
    let mut p = Probe::default();
    if let Some(support) = support {
        apply_support(&mut p, support, channel_id);
    }
    if let Some(info) = abilities {
        p.ability_control = ptz_control_ability(info, channel_id);
        p.ability_preset_write = ptz_preset_write_ability(info, channel_id);
    }
    p.floodlight = match floodlight {
        Ok(_) => Some(true),
        Err(failure) => if is_refusal(failure) {
            Some(false)
        } else {
            None
        },
    };
    p
}

/// Whether it is worth asking for the zoom range: not on a camera that is known
/// to have no PTZ control, where it is a guaranteed fault.
pub fn asks_zoom(p: &Probe) -> (yes: bool)
    ensures
        yes == controllable(*p),
{
    p.ability_control.unwrap_or(true) && p.support_ptz_control.unwrap_or(true)
}

/// The ranges of a lens: zoom and focus, each from its lowest position to its
/// highest.
#[derive(Clone, Copy, Debug)]
pub struct LensRanges {
    pub zoom: (u32, u32),
    pub focus: (u32, u32),
}

/// The probe with what the lens answered.
pub fn with_lens(p: Probe, lens: Option<LensRanges>) -> (after: Probe)
    ensures
        after == match lens {
            Some(l) => (Probe { zoom_range: Some(l.zoom), focus_range: Some(l.focus), ..p }),
            None => p,
        },
{
    let mut after = p;
    if let Some(lens) = lens {
        after.zoom_range = Some(lens.zoom);
        after.focus_range = Some(lens.focus);
    }
    after
}

/// What was learned of a camera, and how long it holds.
#[derive(Clone, Copy, Debug)]
pub struct CacheEntry {
    /// Whether anything was learned. If so, this holds for the connection it
    /// was read over; if not, it is a placeholder.
    pub informative: bool,
    pub caps: CameraCapabilities,
}

impl CacheEntry {
    /// Whether this is still an answer about the camera as it is now.
    pub open spec fn fresh(&self, same_connection: bool, age: u64) -> bool {
        if self.informative {
            same_connection
        } else {
            age < RETRY_UNKNOWN
        }
    }

    /// Is this entry still an answer about the camera as it is now?
    /// `same_connection` says whether it was read over the present connection,
    /// `age` how many milliseconds ago.
    pub fn is_fresh(&self, same_connection: bool, age: u64) -> (fresh: bool)
        ensures
            fresh == self.fresh(same_connection, age),
    {
        if self.informative {
            same_connection
        } else {
            age < RETRY_UNKNOWN
        }
    }

    /// What a probe leaves behind.
    pub fn of(probe: &Probe) -> (entry: Self)
        ensures
            entry.informative == (*probe != blank()),
            entry.caps == resolved(*probe),
    {
        CacheEntry { informative: probe.is_informative(), caps: resolve(probe) }
    }
}

/// The capabilities of a camera if they are already known, without ever asking
/// it.
pub fn cached(entry: Option<CacheEntry>, same_connection: bool, age: u64) -> (caps: Option<
    CameraCapabilities,
>)
    ensures
        caps == match entry {
            Some(e) => if e.fresh(same_connection, age) {
                Some(e.caps)
            } else {
                None
            },
            None => None,
        },
{
    match entry {
        Some(e) => if e.is_fresh(same_connection, age) {
            Some(e.caps)
        } else {
            None
        },
        None => None,
    }
}

/// Who is probing a camera.
#[derive(Clone, Copy, PartialEq, Eq, Structural, Debug)]
pub enum ProbeLock {
    /// We are, having waited for nobody.
    Ours,
    /// Someone else is.
    Theirs,
    /// We are, having waited for someone else to finish.
    OursAfterWaiting,
}

/// How to come by a camera's capabilities.
#[derive(Clone, Copy, PartialEq, Eq, Structural, Debug)]
pub enum RefreshStep {
    /// Answer with these.
    Serve(CameraCapabilities),
    /// Wait for the probe that is under way.
    Wait,
    /// Probe the camera.
    Probe,
}

/// What is done when capabilities are asked for: what is known is served, unless it
/// is stale and the lock is free; then, or where nothing is known, the camera is
/// probed, by one at a time.
pub open spec fn refresh_step(
    entry: Option<CacheEntry>,
    lock: ProbeLock,
    same_connection: bool,
    age: u64,
) -> RefreshStep {
    match (entry, lock) {
        (Some(e), ProbeLock::Ours) => if e.fresh(same_connection, age) {
            RefreshStep::Serve(e.caps)
        } else {
            RefreshStep::Probe
        },
        (Some(e), _) => RefreshStep::Serve(e.caps),
        (None, ProbeLock::Theirs) => RefreshStep::Wait,
        (None, _) => RefreshStep::Probe,
    }
}

/// How to come by a camera's capabilities once what is known does not hold.
///
/// While someone else is probing, a slightly stale answer is better than a
/// request that blocks; only a camera that has never been probed waits. One that
/// waited takes whatever the other probe found.
pub fn refresh(entry: Option<CacheEntry>, lock: ProbeLock, same_connection: bool, age: u64) -> (step:
    RefreshStep)
    ensures
        step == refresh_step(entry, lock, same_connection, age),
{
    match entry {
        Some(e) => match lock {
            ProbeLock::Ours => if e.is_fresh(same_connection, age) {
                RefreshStep::Serve(e.caps)
            } else {
                RefreshStep::Probe
            },
            _ => RefreshStep::Serve(e.caps),
        },
        None => match lock {
            ProbeLock::Theirs => RefreshStep::Wait,
            _ => RefreshStep::Probe,
        },
    }
}

/// Whether a camera is probed as soon as it connects: if nothing fresh is known of it.
pub open spec fn probes_on_connect(
    connected: bool,
    entry: Option<CacheEntry>,
    same_connection: bool,
    age: u64,
) -> bool {
    connected && !(entry matches Some(e) && e.fresh(same_connection, age))
}

/// Whether a camera is to be probed on its own accord: it is connected, and what
/// is known is not about this connection.
pub fn probe_on_connect(
    connected: bool,
    entry: Option<CacheEntry>,
    same_connection: bool,
    age: u64,
) -> (yes: bool)
    ensures
        yes == probes_on_connect(connected, entry, same_connection, age),
{
    connected && match entry {
        Some(e) => !e.is_fresh(same_connection, age),
        None => true,
    }
}

/// What a probe learned is not asked again over the same connection, however
/// much time passes, and is asked again over another.
pub proof fn law_answers_live_as_long_as_the_connection(entry: CacheEntry, age: u64)
    requires
        entry.informative,
    ensures
        entry.fresh(true, age),
        !entry.fresh(false, age),
{
}

/// A camera has PTZ if it moves, zooms or recalls positions, and imaging if it has a
/// lamp or a focus motor to set.
pub proof fn law_services_follow_what_there_is(caps: CameraCapabilities)
    ensures
        caps.has_ptz() <==> (caps.pan_tilt || caps.zoom || caps.presets),
        caps.has_imaging() <==> (caps.led_ctrl || caps.focus),
{
}

/// What a camera says of itself is believed: of its audio, its lamps, its display and
/// its floodlight. Only a floodlight is taken to be missing where it says nothing.
pub proof fn law_cameras_are_believed(p: Probe)
    ensures
        p.support_audio matches Some(said) ==> resolved(p).audio == said,
        p.support_led_ctrl matches Some(said) ==> resolved(p).led_ctrl == said,
        p.support_osd matches Some(said) ==> resolved(p).osd == said,
        p.floodlight matches Some(said) ==> resolved(p).floodlight == said,
        p.support_audio is None ==> resolved(p).audio,
        p.support_led_ctrl is None ==> resolved(p).led_ctrl,
        p.support_osd is None ==> resolved(p).osd,
        p.floodlight is None ==> !resolved(p).floodlight,
{
}

/// A camera that may not be controlled, or says that it cannot be, neither moves, zooms,
/// recalls positions nor focuses. Of one that may be, a measured range decides zoom and
/// focus, and its mode decides the rest: panning or tilting needs one of the two.
pub proof fn law_movement_follows_the_evidence(p: Probe)
    ensures
        p.ability_control == Some(false) || p.support_ptz_control == Some(false) ==> !resolved(
            p,
        ).pan_tilt && !resolved(p).zoom && !resolved(p).presets && !resolved(p).preset_write
            && !resolved(p).focus,
        p.ability_control != Some(false) && p.support_ptz_control != Some(false) ==> {
            let caps = resolved(p);
            &&& p.zoom_range matches Some((min, max)) ==> caps.zoom == (min < max)
            &&& (p.zoom_range is None && p.support_mode is Some) ==> caps.zoom
                == p.support_mode->0.zoom
            &&& (p.zoom_range is None && p.support_mode is None) ==> caps.zoom
            &&& p.support_mode matches Some(m) ==> caps.pan_tilt == (m.pan || m.tilt)
            &&& p.support_mode is None ==> caps.pan_tilt
            &&& p.focus_range matches Some((min, max)) ==> caps.focus == (min < max)
            &&& p.focus_range is None ==> !caps.focus
            &&& caps.presets == ((caps.pan_tilt || caps.zoom) && p.support_presets != Some(false))
            &&& caps.preset_write == (caps.presets && p.ability_preset_write != Some(false))
        },
{
}

/// A mode is spelled by its letters, in capitals or not: `p` pans, `t` tilts, `z` zooms.
/// Any other letter makes it none.
pub proof fn law_modes_are_spelled_by_letters(s: Seq<char>, i: int)
    ensures
        ({
            let letters = text::ascii_lower(text::trimmed(s));
            &&& mode_of(s) matches Some(m) ==> m.pan == letters.contains('p') && m.tilt
                == letters.contains('t') && m.zoom == letters.contains('z')
            &&& letters.len() == 0 ==> mode_of(s) is None
            &&& 0 <= i < letters.len() && letters[i] != 'p' && letters[i] != 't' && letters[i]
                != 'z' ==> mode_of(s) is None
            &&& letters.len() > 0 && (forall|k: int|
                0 <= k < letters.len() ==> (#[trigger] letters[k] == 'p' || letters[k] == 't'
                    || letters[k] == 'z')) ==> mode_of(s) is Some
        }),
{
}

/// A channel's own flags count, a one for yes and a zero for no, but for audio, whose
/// flag says that there is none. No audio on the whole device is none on the channel.
pub proof fn law_flags_say_yes_or_no(p: Probe, item: SupportItem)
    ensures
        item.led_ctrl matches Some(v) ==> with_item(p, item).support_led_ctrl == Some(v != 0),
        item.osd_cfg matches Some(v) ==> with_item(p, item).support_osd == Some(v != 0),
        item.ptz_preset matches Some(v) ==> with_item(p, item).support_presets == Some(v != 0),
        item.ptz_control matches Some(v) ==> with_item(p, item).support_ptz_control == Some(
            v != 0,
        ),
        item.ptz_control is None && item.ptz_type == Some(0u32) ==> with_item(
            p,
            item,
        ).support_ptz_control == Some(false),
        item.ptz_control is None && item.ptz_type != Some(0u32) ==> with_item(
            p,
            item,
        ).support_ptz_control == p.support_ptz_control,
        item.no_audio matches Some(v) ==> with_item(p, item).support_audio == Some(
            v == 0 && p.support_audio != Some(false),
        ),
        item.no_audio is None ==> with_item(p, item).support_audio == p.support_audio,
        item.led_ctrl is None ==> with_item(p, item).support_led_ctrl == p.support_led_ctrl,
        item.osd_cfg is None ==> with_item(p, item).support_osd == p.support_osd,
        item.ptz_preset is None ==> with_item(p, item).support_presets == p.support_presets,
        with_device(p, None, Some(0u32)).support_audio == Some(false),
        with_device(p, None, Some(1u32)).support_audio == p.support_audio,
        with_item(p, item).support_mode == p.support_mode,
        with_item(p, item).zoom_range == p.zoom_range,
{
}

/// The flags that count are those of the camera's own channel, the first that are
/// listed for it.
pub proof fn law_flags_are_the_channel_s_own(items: Seq<SupportItem>, channel: u8, i: int)
    ensures
        0 <= i < items.len() && items[i].chn_id == channel && (forall|j: int|
            0 <= j < i ==> (#[trigger] items[j]).chn_id != channel) ==> item_of(items, channel)
            == Some(items[i]),
        (forall|j: int| 0 <= j < items.len() ==> (#[trigger] items[j]).chn_id != channel)
            ==> item_of(items, channel) is None,
    decreases items.len(),
{
    if items.len() > 0 && items[0].chn_id != channel {
        let rest = items.drop_first();
        law_flags_are_the_channel_s_own(rest, channel, i - 1);
        if i < items.len() && (forall|j: int|
            0 <= j < i ==> (#[trigger] items[j]).chn_id != channel) {
            assert forall|j: int| 0 <= j < i - 1 implies (#[trigger] rest[j]).chn_id
                != channel by {
                assert(rest[j] == items[j + 1]);
            }
        }
        if forall|j: int| 0 <= j < items.len() ==> (#[trigger] items[j]).chn_id != channel {
            assert forall|j: int| 0 <= j < rest.len() implies (#[trigger] rest[j]).chn_id
                != channel by {
                assert(rest[j] == items[j + 1]);
            }
        }
        if 0 < i < items.len() {
            assert(rest[i - 1] == items[i]);
        }
    } else if items.len() > 0 && i > 0 {
        assert(items[0].chn_id == channel);
    }
}

/// An ability is written as its name, an underscore and how it may be used; only `rw`
/// lets it be used to change anything.
pub proof fn law_abilities_are_written_with_their_use(name: Seq<char>, used: Seq<char>)
    requires
        name.len() > 0,
        used.len() > 0,
        !name.contains('_'),
        !used.contains('_'),
        !text::is_space(name.first()),
        !text::is_space(used.last()),
    ensures
        entry_name(name + seq!['_'] + used) == name,
        entry_writes(name + seq!['_'] + used) <==> used == "rw"@,
{
    let entry = name + seq!['_'] + used;
    text::law_only_white_space_is_trimmed(Seq::empty(), entry, Seq::empty());
    assert(Seq::<char>::empty() + entry + Seq::<char>::empty() =~= entry);
    text::lemma_first_of(entry, '_');
    let at = text::first_of(entry, '_');
    assert(entry[name.len() as int] == '_');
    if at < name.len() {
        assert(name[at] == entry[at]);
        assert(name.contains('_'));
    }
    assert(entry.take(at) =~= name);
    assert(entry.skip(at + 1) =~= used);
    text::lemma_first_of(used, '_');
    if text::first_of(used, '_') < used.len() {
        assert(used.contains(used[text::first_of(used, '_')]));
    }
    assert(used.take(used.len() as int) =~= used);
}

/// What a probe learns of the user's abilities is read from `control` and `preset`:
/// control needs the right to change, and presets are writable, or not, only where they
/// are listed. A refusal to tell of a floodlight means that there is none, and silence
/// means nothing.
pub proof fn law_probes_learn_what_was_answered(
    support: Option<Support>,
    info: AbilityInfo,
    floodlight: Result<(), ReadFailure>,
    channel: u8,
)
    ensures
        probed(support, None, floodlight, channel).ability_control is None,
        probed(support, None, floodlight, channel).ability_preset_write is None,
        abilities_of(info, channel) matches Some(a) ==> {
            let p = probed(support, Some(info), floodlight, channel);
            &&& p.ability_control == Some(a.control == Access::ReadWrite)
            &&& a.preset == Access::Absent ==> p.ability_preset_write is None
            &&& a.preset == Access::ReadOnly ==> p.ability_preset_write == Some(false)
            &&& a.preset == Access::ReadWrite ==> p.ability_preset_write == Some(true)
        },
        info.ptz is None ==> abilities_of(info, channel) == Some(
            PtzAbilities { control: Access::Absent, preset: Access::Absent },
        ),
        floodlight is Ok ==> probed(support, None, floodlight, channel).floodlight == Some(true),
        floodlight == Err::<(), ReadFailure>(ReadFailure::Unavailable) ==> probed(
            support,
            None,
            floodlight,
            channel,
        ).floodlight == Some(false),
        floodlight == Err::<(), ReadFailure>(ReadFailure::Unintelligible) ==> probed(
            support,
            None,
            floodlight,
            channel,
        ).floodlight == Some(false),
        floodlight == Err::<(), ReadFailure>(ReadFailure::Other) ==> probed(
            support,
            None,
            floodlight,
            channel,
        ).floodlight is None,
{
}

/// The access to an ability is what the parts for the camera's own channel, or for no
/// channel in particular, list of it under its own name.
pub proof fn law_access_is_read_by_name(info: AbilityInfo, channel: u8, i: int, k: int)
    requires
        info.ptz is Some,
        0 <= i < info.ptz->0.sub_module@.len(),
        info.ptz->0.sub_module@[i].channel_id is None || info.ptz->0.sub_module@[i].channel_id
            == Some(channel),
        0 <= k < text::pieces(info.ptz->0.sub_module@[i].ability_value@, ',').len(),
    ensures
        ({
            let entry = text::pieces(info.ptz->0.sub_module@[i].ability_value@, ',')[k];
            &&& entry_name(entry) == "control"@ && entry_writes(entry) ==> (abilities_of(
                info,
                channel,
            ) matches Some(a) && a.control == Access::ReadWrite)
            &&& entry_name(entry) == "preset"@ && entry_writes(entry) ==> (abilities_of(
                info,
                channel,
            ) matches Some(a) && a.preset == Access::ReadWrite)
            &&& entry_name(entry) == "control"@ ==> (abilities_of(info, channel) matches Some(a)
                && a.control != Access::Absent)
            &&& entry_name(entry) == "preset"@ ==> (abilities_of(info, channel) matches Some(a)
                && a.preset != Access::Absent)
        }),
{
    reveal_strlit("control");
    reveal_strlit("preset");
    let subs = info.ptz->0.sub_module@;
    let entry = text::pieces(subs[i].ability_value@, ',')[k];
    if entry_name(entry) == "control"@ || entry_name(entry) == "preset"@ {
        assert(named(subs, channel, i, k));
    }
    if entry_name(entry) == "control"@ {
        assert(listed(subs, channel, "control"@, false, i, k));
        if entry_writes(entry) {
            assert(listed(subs, channel, "control"@, true, i, k));
        }
    }
    if entry_name(entry) == "preset"@ {
        assert(listed(subs, channel, "preset"@, false, i, k));
        if entry_writes(entry) {
            assert(listed(subs, channel, "preset"@, true, i, k));
        }
    }
}

/// What was learned is kept for as long as the connection it came over, and a camera
/// that told nothing is asked again after 30 seconds.
pub proof fn law_a_silent_camera_is_asked_again(entry: CacheEntry, same: bool, age: u64)
    ensures
        entry.informative ==> (entry.fresh(same, age) <==> same),
        !entry.informative ==> (entry.fresh(same, age) <==> age < 30_000),
{
}

/// What is fresh is served. What is stale is served while another asks, and asked for
/// anew by whoever is free to. Where nothing is known, one asks and the others wait.
pub proof fn law_one_asks_and_the_others_are_served(e: CacheEntry, same: bool, age: u64)
    ensures
        e.fresh(same, age) ==> refresh_step(Some(e), ProbeLock::Ours, same, age)
            == RefreshStep::Serve(e.caps),
        !e.fresh(same, age) ==> refresh_step(Some(e), ProbeLock::Ours, same, age)
            == RefreshStep::Probe,
        refresh_step(Some(e), ProbeLock::Theirs, same, age) == RefreshStep::Serve(e.caps),
        refresh_step(Some(e), ProbeLock::OursAfterWaiting, same, age) == RefreshStep::Serve(e.caps),
        refresh_step(None, ProbeLock::Theirs, same, age) == RefreshStep::Wait,
        refresh_step(None, ProbeLock::Ours, same, age) == RefreshStep::Probe,
        refresh_step(None, ProbeLock::OursAfterWaiting, same, age) == RefreshStep::Probe,
        !probes_on_connect(false, Some(e), same, age),
        !probes_on_connect(false, None, same, age),
        probes_on_connect(true, None, same, age),
        probes_on_connect(true, Some(e), same, age) <==> !e.fresh(same, age),
{
}

} // verus!

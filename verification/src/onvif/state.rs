//! What the ONVIF devices are: their cameras, users and addresses.

use vstd::prelude::*;
use vstd::string::*;
use crate::config::{AudioFormat, CameraConfig, Config, OnvifGlobalConfig, StreamConfig};
use crate::onvif::soap::UserTable;
use crate::text;

verus! {

/// The three logical streams a camera can expose.
#[derive(Clone, Copy, PartialEq, Eq, Structural, Hash, Debug)]
pub enum OnvifStream {
    Main,
    Sub,
    Extern,
}

/// The name a stream has in paths and tokens.
pub open spec fn stream_name(s: OnvifStream) -> Seq<char> {
    match s {
        OnvifStream::Main => "main"@,
        OnvifStream::Sub => "sub"@,
        OnvifStream::Extern => "extern"@,
    }
}

/// The name a stream has in the camera's own protocol.
pub open spec fn stream_reolink_name(s: OnvifStream) -> Seq<char> {
    match s {
        OnvifStream::Main => "mainStream"@,
        OnvifStream::Sub => "subStream"@,
        OnvifStream::Extern => "externStream"@,
    }
}

/// The streams that a setting serves, in order.
pub open spec fn served_streams(s: StreamConfig) -> Seq<OnvifStream> {
    match s {
        StreamConfig::Off => Seq::empty(),
        StreamConfig::All => seq![OnvifStream::Main, OnvifStream::Sub, OnvifStream::Extern],
        StreamConfig::Both => seq![OnvifStream::Main, OnvifStream::Sub],
        StreamConfig::Main => seq![OnvifStream::Main],
        StreamConfig::Sub => seq![OnvifStream::Sub],
        StreamConfig::Extern => seq![OnvifStream::Extern],
    }
}

impl OnvifStream {
    pub fn as_rtsp_path(&self) -> (path: &'static str)
        ensures
            path@ == stream_name(*self),
    {
        match self {
            OnvifStream::Main => "main",
            OnvifStream::Sub => "sub",
            OnvifStream::Extern => "extern",
        }
    }

    /// The ONVIF MediaProfile token suffix. Stable across restarts.
    pub fn token_suffix(&self) -> (suffix: &'static str)
        ensures
            suffix@ == stream_name(*self),
    {
        match self {
            OnvifStream::Main => "main",
            OnvifStream::Sub => "sub",
            OnvifStream::Extern => "extern",
        }
    }

    pub fn from_stream_config(s: StreamConfig) -> (streams: Vec<OnvifStream>)
        ensures
            streams@ == served_streams(s),
    {
        let mut streams: Vec<OnvifStream> = Vec::new();
        if matches!(s, StreamConfig::All | StreamConfig::Both | StreamConfig::Main) {
            streams.push(OnvifStream::Main);
        }
        if matches!(s, StreamConfig::All | StreamConfig::Both | StreamConfig::Sub) {
            streams.push(OnvifStream::Sub);
        }
        if matches!(s, StreamConfig::All | StreamConfig::Extern) {
            streams.push(OnvifStream::Extern);
        }
        assert(streams@ =~= served_streams(s));
        streams
    }

    /// The name the camera's own protocol uses for the stream.
    pub fn reolink_name(&self) -> (name: &'static str)
        ensures
            name@ == stream_reolink_name(*self),
    {
        match self {
            OnvifStream::Main => "mainStream",
            OnvifStream::Sub => "subStream",
            OnvifStream::Extern => "externStream",
        }
    }
}

/// The identity of a device: the sixteen bytes of a UUID.
#[derive(Clone, Copy, PartialEq, Eq, Debug)]
pub struct DeviceUuid {
    pub bytes: [u8; 16],
}

/// The UUID of version 5 that a name has in the OID namespace.
pub uninterp spec fn oid_uuid(name: Seq<u8>) -> Seq<u8>;

/// `Uuid::new_v5` of the `uuid` crate, in its `NAMESPACE_OID`.
#[verifier::external_body]
fn uuid_v5(name: &[u8]) -> (uuid: DeviceUuid)
    ensures
        uuid.bytes@ == oid_uuid(name@),
{
    DeviceUuid { bytes: uuid::Uuid::new_v5(&uuid::Uuid::NAMESPACE_OID, name).into_bytes() }
}

/// The UUID that a text stands for, if it is one.
pub uninterp spec fn written_uuid(written: Seq<char>) -> Option<Seq<u8>>;

/// `Uuid::parse_str` of the `uuid` crate; `None` for an error.
#[verifier::external_body]
fn parse_uuid(written: &str) -> (uuid: Option<DeviceUuid>)
    ensures
        (match uuid {
            Some(u) => Some(u.bytes@),
            None => None,
        }) == written_uuid(written@),
{
    match uuid::Uuid::parse_str(written) {
        Ok(u) => Some(DeviceUuid { bytes: u.into_bytes() }),
        Err(_) => None,
    }
}

/// A UUID in its usual form: groups of 8, 4, 4, 4 and 12 hexadecimal digits.
pub open spec fn uuid_text(bytes: Seq<u8>) -> Seq<char> {
    text::hex(bytes.subrange(0, 4)) + "-"@ + text::hex(bytes.subrange(4, 6)) + "-"@ + text::hex(
        bytes.subrange(6, 8),
    ) + "-"@ + text::hex(bytes.subrange(8, 10)) + "-"@ + text::hex(bytes.subrange(10, 16))
}

impl DeviceUuid {
    /// The UUID in its usual form.
    pub fn text(&self) -> (out: String)
        ensures
            out@ == uuid_text(self.bytes@),
    {
        let bytes: &[u8] = &self.bytes;
        let mut out = String::new();
        text::append_hex(&mut out, vstd::slice::slice_subrange(bytes, 0, 4));
        assert(out@ =~= text::hex(self.bytes@.subrange(0, 4)));
        out.append("-");
        text::append_hex(&mut out, vstd::slice::slice_subrange(bytes, 4, 6));
        out.append("-");
        text::append_hex(&mut out, vstd::slice::slice_subrange(bytes, 6, 8));
        out.append("-");
        text::append_hex(&mut out, vstd::slice::slice_subrange(bytes, 8, 10));
        out.append("-");
        text::append_hex(&mut out, vstd::slice::slice_subrange(bytes, 10, 16));
        out
    }
}

/// What the automatic identity of a camera is made from. The UID keeps the
/// channels of a recorder apart.
pub open spec fn identity_source(name: Seq<char>, uid: Option<Seq<char>>, channel: u8) -> Seq<char> {
    name + "|"@ + (match uid {
        Some(u) => u,
        None => Seq::empty(),
    }) + "|"@ + text::decimal(channel as nat)
}

/// The identity of a camera: the one configured, or one made from what the
/// camera is, or, where the configured one is no UUID, one made from that.
pub open spec fn camera_uuid(cfg: CameraConfig) -> Seq<u8> {
    if cfg.onvif.uuid@ == "auto"@ {
        oid_uuid(
            vstd::utf8::encode_utf8(
                identity_source(cfg.name@, text::opt_view(cfg.camera_uid), cfg.channel_id),
            ),
        )
    } else {
        match written_uuid(cfg.onvif.uuid@) {
            Some(bytes) => bytes,
            None => oid_uuid(vstd::utf8::encode_utf8(cfg.onvif.uuid@)),
        }
    }
}

/// The text that the automatic identity of a camera is made from.
pub fn identity_text(cfg: &CameraConfig) -> (raw: String)
    ensures
        raw@ == identity_source(cfg.name@, text::opt_view(cfg.camera_uid), cfg.channel_id),
{
    let mut raw = cfg.name.clone();
    raw.append("|");
    let mut uid = String::new();
    if let Some(u) = &cfg.camera_uid {
        uid = u.clone();
    }
    raw.append(uid.as_str());
    raw.append("|");
    text::append_decimal(&mut raw, cfg.channel_id as u64);
    raw
}

/// The identity of a camera.
pub fn build_camera_uuid(cfg: &CameraConfig) -> (uuid: DeviceUuid)
    ensures
        uuid.bytes@ == camera_uuid(*cfg),
{
    if text::same(cfg.onvif.uuid.as_str(), "auto") {
        return uuid_v5(identity_text(cfg).as_str().as_bytes());
    }
    match parse_uuid(cfg.onvif.uuid.as_str()) {
        Some(uuid) => uuid,
        // Bad config: never fail the whole bridge for this.
        None => uuid_v5(cfg.onvif.uuid.as_str().as_bytes()),
    }
}

/// Whether a byte stands for itself in a path segment.
pub open spec fn unreserved(b: u8) -> bool {
    ||| 0x41 <= b <= 0x5A
    ||| 0x61 <= b <= 0x7A
    ||| 0x30 <= b <= 0x39
    ||| b == 0x2D
    ||| b == 0x2E
    ||| b == 0x5F
    ||| b == 0x7E
}

/// A hexadecimal digit, its letters in upper case.
pub open spec fn upper_hex_digit(n: int) -> char {
    if n < 10 {
        ('0' as u32 + n) as char
    } else {
        ('A' as u32 + n - 10) as char
    }
}

/// A byte of a path segment: itself, or percent-encoded.
pub open spec fn segment_byte(b: u8) -> Seq<char> {
    if unreserved(b) {
        seq![b as char]
    } else {
        seq!['%', upper_hex_digit(b as int / 16), upper_hex_digit(b as int % 16)]
    }
}

/// Bytes as a path segment.
pub open spec fn segment_bytes(bytes: Seq<u8>) -> Seq<char>
    decreases bytes.len(),
{
    if bytes.len() == 0 {
        Seq::empty()
    } else {
        segment_bytes(bytes.drop_last()) + segment_byte(bytes.last())
    }
}

/// A text as a path segment of a URI.
pub open spec fn path_segment(s: Seq<char>) -> Seq<char> {
    segment_bytes(vstd::utf8::encode_utf8(s))
}

/// A hexadecimal digit, its letters in upper case.
pub fn upper_hex_char(n: u8) -> (c: char)
    requires
        n < 16,
    ensures
        c == upper_hex_digit(n as int),
{
    if n < 10 {
        (48 + n) as char
    } else {
        (65 + (n - 10)) as char
    }
}

/// A text as a path segment of a URI: everything but letters, digits and
/// `-._~` percent-encoded.
pub fn url_path_segment(s: &str) -> (out: String)
    ensures
        out@ == path_segment(s@),
{
    let bytes = s.as_bytes();
    let mut out = String::new();
    let mut i: usize = 0;
    assert(bytes@.take(0) =~= Seq::empty());
    while i < bytes.len()
        invariant
            i <= bytes@.len(),
            out@ == segment_bytes(bytes@.take(i as int)),
        decreases bytes@.len() - i,
    {
        let b: u8 = bytes[i];
        let ghost before = out@;
        assert(bytes@.take(i + 1).drop_last() =~= bytes@.take(i as int));
        if (0x41 <= b && b <= 0x5A) || (0x61 <= b && b <= 0x7A) || (0x30 <= b && b <= 0x39) || b
            == 0x2D || b == 0x2E || b == 0x5F || b == 0x7E {
            out.push(b as char);
        } else {
            out.push('%');
            out.push(upper_hex_char(b / 16));
            out.push(upper_hex_char(b % 16));
        }
        i += 1;
        assert(out@ =~= before + segment_byte(b));
    }
    assert(bytes@.take(i as int) =~= bytes@);
    out
}

/// Whether a character may stand in a path segment as it is, or starts an
/// encoded byte.
pub open spec fn segment_char(c: char) -> bool {
    c == '%' || unreserved(c as u8) && c as u32 <= 0x7F
}

/// Whatever a camera is called, its path segment is one: it holds nothing that
/// could end the segment or needs escaping in XML.
pub proof fn law_path_segment_is_valid(s: Seq<char>, i: int)
    requires
        0 <= i < path_segment(s).len(),
    ensures
        segment_char(path_segment(s)[i]),
{
    lemma_segment_bytes(vstd::utf8::encode_utf8(s), i);
}

proof fn lemma_segment_bytes(bytes: Seq<u8>, i: int)
    requires
        0 <= i < segment_bytes(bytes).len(),
    ensures
        segment_char(segment_bytes(bytes)[i]),
    decreases bytes.len(),
{
    let before = segment_bytes(bytes.drop_last());
    if i < before.len() {
        lemma_segment_bytes(bytes.drop_last(), i);
    } else {
        let b = bytes.last();
        assert(segment_bytes(bytes)[i] == segment_byte(b)[i - before.len()]);
    }
}

/// A camera as the handlers know it.
#[derive(Clone, Debug)]
pub struct CameraEntry {
    pub name: String,
    pub channel_id: u8,
    pub uuid: DeviceUuid,
    pub streams: Vec<OnvifStream>,
    pub permitted_users: Option<Vec<String>>,
    pub audio_format: AudioFormat,
}

/// A camera as the handlers know it, its texts as sequences.
pub struct DeviceView {
    pub name: Seq<char>,
    pub channel_id: u8,
    pub uuid: Seq<u8>,
    pub streams: Seq<OnvifStream>,
    pub permitted_users: Option<Seq<Seq<char>>>,
    pub audio_format: AudioFormat,
}

impl View for CameraEntry {
    type V = DeviceView;

    open spec fn view(&self) -> DeviceView {
        DeviceView {
            name: self.name@,
            channel_id: self.channel_id,
            uuid: self.uuid.bytes@,
            streams: self.streams@,
            permitted_users: users_view(self.permitted_users),
            audio_format: self.audio_format,
        }
    }
}

/// The device that a configured camera becomes.
pub open spec fn device_of(cfg: CameraConfig) -> DeviceView {
    DeviceView {
        name: cfg.name@,
        channel_id: cfg.channel_id,
        uuid: camera_uuid(cfg),
        streams: served_streams(cfg.stream),
        permitted_users: users_view(cfg.permitted_users),
        audio_format: cfg.resolved_audio_format(),
    }
}

/// The texts of an optional list of names.
pub open spec fn users_view(users: Option<Vec<String>>) -> Option<Seq<Seq<char>>> {
    match users {
        Some(list) => Some(text::views(list@)),
        None => None,
    }
}

fn copy_names(names: &Vec<String>) -> (copy: Vec<String>)
    ensures
        text::views(copy@) == text::views(names@),
{
    let mut copy: Vec<String> = Vec::new();
    let mut i: usize = 0;
    while i < names.len()
        invariant
            i <= names@.len(),
            copy@.len() == i,
            forall|j: int| 0 <= j < i ==> (#[trigger] copy@[j])@ == names@[j]@,
        decreases names@.len() - i,
    {
        copy.push(names[i].clone());
        i += 1;
    }
    assert(text::views(copy@) =~= text::views(names@));
    copy
}

fn entry_for(cfg: &CameraConfig) -> (entry: CameraEntry)
    ensures
        entry@ == device_of(*cfg),
{
    let permitted_users = match &cfg.permitted_users {
        Some(list) => Some(copy_names(list)),
        None => None,
    };
    CameraEntry {
        name: cfg.name.clone(),
        channel_id: cfg.channel_id,
        uuid: build_camera_uuid(cfg),
        streams: OnvifStream::from_stream_config(cfg.stream),
        permitted_users,
        audio_format: cfg.audio_format(),
    }
}

/// Whether a configured camera becomes a device.
pub open spec fn is_served(cfg: CameraConfig) -> bool {
    cfg.enabled && cfg.onvif.enabled && cfg.stream != StreamConfig::Off
}

/// The position of a device of this name, or the number of devices.
pub open spec fn position(devices: Seq<DeviceView>, name: Seq<char>) -> int
    decreases devices.len(),
{
    if devices.len() == 0 || devices[0].name == name {
        0
    } else {
        1 + position(devices.drop_first(), name)
    }
}

/// Devices with one more, which takes the place of any of the same name.
pub open spec fn put(devices: Seq<DeviceView>, device: DeviceView) -> Seq<DeviceView> {
    let at = position(devices, device.name);
    if at < devices.len() {
        devices.update(at, device)
    } else {
        devices.push(device)
    }
}

/// The devices that the first `count` configured cameras become.
pub open spec fn devices_of(cameras: Seq<CameraConfig>, count: nat) -> Seq<DeviceView>
    decreases count,
{
    if count == 0 {
        Seq::empty()
    } else {
        let before = devices_of(cameras, (count - 1) as nat);
        if is_served(cameras[count - 1]) {
            put(before, device_of(cameras[count - 1]))
        } else {
            before
        }
    }
}

/// The devices that a configuration asks for: none unless ONVIF is enabled.
pub open spec fn wanted_devices(config: Config) -> Seq<DeviceView> {
    if config.onvif.enabled {
        devices_of(config.cameras@, config.cameras@.len())
    } else {
        Seq::empty()
    }
}

/// The views of a list of cameras.
pub open spec fn entries_view(cameras: Seq<CameraEntry>) -> Seq<DeviceView> {
    cameras.map_values(|c: CameraEntry| c@)
}

pub(crate) proof fn lemma_position(devices: Seq<DeviceView>, name: Seq<char>)
    ensures
        0 <= position(devices, name) <= devices.len(),
        position(devices, name) < devices.len() ==> devices[position(devices, name)].name == name,
        forall|j: int| 0 <= j < position(devices, name) ==> (#[trigger] devices[j]).name != name,
    decreases devices.len(),
{
    if devices.len() > 0 && devices[0].name != name {
        let rest = devices.drop_first();
        lemma_position(rest, name);
        assert forall|j: int| 0 <= j < position(devices, name) implies (#[trigger] devices[j]).name
            != name by {
            if j > 0 {
                assert(rest[j - 1].name != name);
            }
        }
    }
}

/// The position of a camera of a name, or their number.
fn find_entry(cameras: &Vec<CameraEntry>, name: &str) -> (at: usize)
    ensures
        at == position(entries_view(cameras@), name@),
        at <= cameras@.len(),
{
    let ghost all = entries_view(cameras@);
    let mut i: usize = 0;
    while i < cameras.len() && !text::same(cameras[i].name.as_str(), name)
        invariant
            i <= cameras@.len(),
            all == entries_view(cameras@),
            forall|j: int| 0 <= j < i ==> (#[trigger] all[j]).name != name@,
        decreases cameras@.len() - i,
    {
        assert(all[i as int].name == cameras@[i as int].name@);
        i += 1;
    }
    proof {
        lemma_position(all, name@);
        let p = position(all, name@);
        if i < cameras@.len() {
            assert(all[i as int].name == cameras@[i as int].name@);
        }
        if p < i {
            assert(all[p].name != name@);
        } else if i < p {
            assert(all[i as int].name != name@);
        }
    }
    i
}

/// Whether no two devices have the same name.
pub open spec fn distinct(devices: Seq<DeviceView>) -> bool {
    forall|i: int, j: int|
        0 <= i < j < devices.len() ==> (#[trigger] devices[i]).name != (#[trigger] devices[j]).name
}

/// No two devices of a configuration have the same name, however often a name
/// occurs in it, and the last served camera of a name is the device.
pub proof fn law_devices_are_distinct(cameras: Seq<CameraConfig>, count: nat)
    requires
        count <= cameras.len(),
    ensures
        distinct(devices_of(cameras, count)),
        count > 0 && is_served(cameras[count - 1]) ==> devices_of(cameras, count).contains(
            device_of(cameras[count - 1]),
        ),
    decreases count,
{
    if count > 0 {
        law_devices_are_distinct(cameras, (count - 1) as nat);
        let before = devices_of(cameras, (count - 1) as nat);
        let cfg = cameras[count - 1];
        lemma_position(before, cfg.name@);
        if is_served(cfg) {
            let after = devices_of(cameras, count);
            let at = position(before, cfg.name@);
            assert(after[at] == device_of(cfg));
        }
    }
}

/// The devices that a configuration asks for.
pub fn wanted_cameras(config: &Config) -> (cameras: Vec<CameraEntry>)
    ensures
        entries_view(cameras@) == wanted_devices(*config),
{
    let mut cameras: Vec<CameraEntry> = Vec::new();
    assert(entries_view(cameras@) =~= Seq::empty());
    if !config.onvif.enabled {
        return cameras;
    }
    let mut i: usize = 0;
    while i < config.cameras.len()
        invariant
            i <= config.cameras@.len(),
            entries_view(cameras@) == devices_of(config.cameras@, i as nat),
        decreases config.cameras@.len() - i,
    {
        let cfg = &config.cameras[i];
        let ghost before = entries_view(cameras@);
        if cfg.enabled && cfg.onvif.enabled && cfg.stream != StreamConfig::Off {
            let entry = entry_for(cfg);
            let ghost device = entry@;
            let at: usize = find_entry(&cameras, cfg.name.as_str());
            if at < cameras.len() {
                cameras.set(at, entry);
                assert(entries_view(cameras@) =~= before.update(at as int, device));
            } else {
                cameras.push(entry);
                assert(entries_view(cameras@) =~= before.push(device));
            }
        }
        i += 1;
    }
    cameras
}

/// The password that a list of users gives a name: the last one set.
pub open spec fn configured_password(
    users: Seq<crate::config::UserConfig>,
    name: Seq<char>,
) -> Option<Seq<char>>
    decreases users.len(),
{
    if users.len() == 0 {
        None
    } else {
        match users.last().pass {
            Some(pass) if users.last().name@ == name => Some(pass@),
            _ => configured_password(users.drop_last(), name),
        }
    }
}

/// The users of a configuration that have a password.
pub fn configured_users(config: &Config) -> (table: UserTable)
    ensures
        table.wf(),
        forall|name: Seq<char>| #[trigger]
            table.password(name) == configured_password(config.users@, name),
{
    let mut table = UserTable::new();
    let mut i: usize = 0;
    assert(config.users@.take(0) =~= Seq::empty());
    while i < config.users.len()
        invariant
            i <= config.users@.len(),
            table.wf(),
            forall|name: Seq<char>| #[trigger]
                table.password(name) == configured_password(config.users@.take(i as int), name),
        decreases config.users@.len() - i,
    {
        assert(config.users@.take(i + 1).drop_last() =~= config.users@.take(i as int));
        assert(config.users@.take(i + 1).last() == config.users@[i as int]);
        let user = &config.users[i];
        if let Some(pass) = &user.pass {
            table.insert(user.name.clone(), pass.clone());
        }
        i += 1;
    }
    assert(config.users@.take(i as int) =~= config.users@);
    table
}

/// Everything the handlers share.
#[derive(Debug)]
pub struct OnvifState {
    pub cameras: Vec<CameraEntry>,
    /// Global users for SOAP authentication.
    pub users: UserTable,
    pub globals: OnvifGlobalConfig,
    /// The RTSP port, for `rtsp://...` URIs.
    pub rtsp_port: u16,
}

/// Whether two sets of ONVIF settings are the same.
pub open spec fn same_globals(a: OnvifGlobalConfig, b: OnvifGlobalConfig) -> bool {
    &&& a.enabled == b.enabled
    &&& a.bind_addr@ == b.bind_addr@
    &&& a.bind_port == b.bind_port
    &&& a.discovery == b.discovery
    &&& a.advertise_host@ == b.advertise_host@
}

/// Where the host to advertise comes from.
pub open spec fn authority_of(host: Seq<char>, port: u16, detected: Option<Seq<char>>) -> Option<
    Seq<char>,
> {
    if host == "auto"@ {
        match detected {
            Some(found) => Some(found + ":"@ + text::decimal(port as nat)),
            None => None,
        }
    } else if host.contains(':') {
        Some(host)
    } else {
        Some(host + ":"@ + text::decimal(port as nat))
    }
}

/// The host to advertise, without a port.
pub open spec fn host_of(host: Seq<char>, detected: Option<Seq<char>>) -> Option<Seq<char>> {
    if host == "auto"@ {
        detected
    } else {
        Some(host.take(text::first_of(host, ':')))
    }
}

impl OnvifState {
    pub fn new(globals: OnvifGlobalConfig, rtsp_port: u16) -> (state: Self)
        ensures
            state.cameras@.len() == 0,
            state.users.wf(),
            forall|name: Seq<char>| #[trigger] state.users.password(name) is None,
            state.globals == globals,
            state.rtsp_port == rtsp_port,
    {
        OnvifState { cameras: Vec::new(), users: UserTable::new(), globals, rtsp_port }
    }

    /// The camera of a name.
    pub fn camera(&self, name: &str) -> (found: Option<&CameraEntry>)
        ensures
            ({
                let at = position(entries_view(self.cameras@), name@);
                match found {
                    Some(entry) => 0 <= at < self.cameras@.len() && *entry == self.cameras@[at],
                    None => at == self.cameras@.len(),
                }
            }),
    {
        let at: usize = find_entry(&self.cameras, name);
        if at < self.cameras.len() {
            Some(&self.cameras[at])
        } else {
            None
        }
    }

    /// The position of the camera of a name, or the number of cameras.
    pub fn camera_position(&self, name: &str) -> (at: usize)
        ensures
            at == position(entries_view(self.cameras@), name@),
            at <= self.cameras@.len(),
    {
        find_entry(&self.cameras, name)
    }

    /// The names of the cameras that a configuration adds, which have to be
    /// attached to before it takes effect.
    pub fn cameras_to_attach(&self, config: &Config) -> (names: Vec<String>)
        ensures
            text::views(names@) == new_names(
                wanted_devices(*config),
                entries_view(self.cameras@),
                wanted_devices(*config).len(),
            ),
    {
        let wanted = wanted_cameras(config);
        let ghost devices = entries_view(wanted@);
        let ghost existing = entries_view(self.cameras@);
        let mut names: Vec<String> = Vec::new();
        let mut i: usize = 0;
        assert(text::views(names@) =~= Seq::empty());
        while i < wanted.len()
            invariant
                i <= wanted@.len(),
                devices == entries_view(wanted@),
                existing == entries_view(self.cameras@),
                text::views(names@) == new_names(devices, existing, i as nat),
            decreases wanted@.len() - i,
        {
            let ghost before = text::views(names@);
            assert(devices[i as int].name == wanted@[i as int].name@);
            let at: usize = find_entry(&self.cameras, wanted[i].name.as_str());
            if at >= self.cameras.len() {
                names.push(wanted[i].name.clone());
                assert(text::views(names@) =~= before.push(wanted@[i as int].name@));
            }
            i += 1;
        }
        names
    }

    /// Bring the state in line with a configuration. The cameras change only if
    /// the new ones could be attached to.
    pub fn sync_with_config(&mut self, config: &Config, attached: bool)
        ensures
            same_globals(final(self).globals, config.onvif),
            final(self).rtsp_port == config.bind_port,
            final(self).users.wf(),
            forall|name: Seq<char>| #[trigger]
                final(self).users.password(name) == configured_password(config.users@, name),
            attached ==> entries_view(final(self).cameras@) == wanted_devices(*config),
            !attached ==> final(self).cameras == old(self).cameras,
    {
        self.globals = OnvifGlobalConfig {
            enabled: config.onvif.enabled,
            bind_addr: config.onvif.bind_addr.clone(),
            bind_port: config.onvif.bind_port,
            discovery: config.onvif.discovery,
            advertise_host: config.onvif.advertise_host.clone(),
        };
        self.rtsp_port = config.bind_port;
        self.users = configured_users(config);
        if attached {
            self.cameras = wanted_cameras(config);
        }
    }

    /// The `host:port` to embed in ONVIF URLs, given the address of the machine
    /// if it has one.
    pub fn advertise_authority(&self, detected: Option<&str>) -> (authority: Option<String>)
        ensures
            text::opt_view(authority) == authority_of(
                self.globals.advertise_host@,
                self.globals.bind_port,
                str_view(detected),
            ),
    {
        let host = self.globals.advertise_host.as_str();
        let mut out: String;
        if text::same(host, "auto") {
            match detected {
                Some(found) => {
                    out = found.to_owned();
                },
                None => {
                    return None;
                },
            }
        } else if text::holds_char(host, ':') {
            return Some(host.to_owned());
        } else {
            out = host.to_owned();
        }
        out.append(":");
        text::append_decimal(&mut out, self.globals.bind_port as u64);
        Some(out)
    }

    /// The `host` to embed in RTSP URLs (no port), given the address of the
    /// machine if it has one.
    pub fn advertise_host(&self, detected: Option<&str>) -> (host: Option<String>)
        ensures
            text::opt_view(host) == host_of(self.globals.advertise_host@, str_view(detected)),
    {
        let host = self.globals.advertise_host.as_str();
        if text::same(host, "auto") {
            match detected {
                Some(found) => Some(found.to_owned()),
                None => None,
            }
        } else {
            let (name, _) = text::split_first(host, ':');
            Some(name)
        }
    }

    /// The password of a user.
    pub fn user_password(&self, name: &str) -> (password: Option<&str>)
        ensures
            str_view(password) == self.users.password(name@),
    {
        self.users.get(name)
    }
}

/// The text that an optional string slice holds.
pub open spec fn str_view(s: Option<&str>) -> Option<Seq<char>> {
    match s {
        Some(t) => Some(t@),
        None => None,
    }
}

/// The names of the first `count` devices that are not among others.
pub open spec fn new_names(
    devices: Seq<DeviceView>,
    existing: Seq<DeviceView>,
    count: nat,
) -> Seq<Seq<char>>
    decreases count,
{
    if count == 0 {
        Seq::empty()
    } else {
        let before = new_names(devices, existing, (count - 1) as nat);
        if position(existing, devices[count - 1].name) >= existing.len() {
            before.push(devices[count - 1].name)
        } else {
            before
        }
    }
}

/// Each stream goes by a name of its own, which the RTSP paths and the tokens
/// use, and by the name that the camera itself uses for it.
pub proof fn law_streams_have_names_of_their_own(a: OnvifStream, b: OnvifStream)
    ensures
        stream_name(OnvifStream::Main) == "main"@,
        stream_name(OnvifStream::Sub) == "sub"@,
        stream_name(OnvifStream::Extern) == "extern"@,
        stream_reolink_name(a) == stream_name(a) + "Stream"@,
        a != b ==> stream_name(a) != stream_name(b),
{
    reveal_strlit("main");
    reveal_strlit("sub");
    reveal_strlit("extern");
    reveal_strlit("mainStream");
    reveal_strlit("subStream");
    reveal_strlit("externStream");
    reveal_strlit("Stream");
    assert("mainStream"@ =~= "main"@ + "Stream"@);
    assert("subStream"@ =~= "sub"@ + "Stream"@);
    assert("externStream"@ =~= "extern"@ + "Stream"@);
    assert("main"@.len() == 4 && "sub"@.len() == 3 && "extern"@.len() == 6);
}

/// A setting serves the streams it names: `all` every one, `both` the main one
/// and the sub one, a single name that one alone, and `none` nothing. Nothing is
/// served twice, and the main stream comes before the sub one, and that before
/// the extern one.
pub proof fn law_settings_serve_what_they_name(s: StreamConfig)
    ensures
        served_streams(s).contains(OnvifStream::Main) <==> (s == StreamConfig::All || s
            == StreamConfig::Both || s == StreamConfig::Main),
        served_streams(s).contains(OnvifStream::Sub) <==> (s == StreamConfig::All || s
            == StreamConfig::Both || s == StreamConfig::Sub),
        served_streams(s).contains(OnvifStream::Extern) <==> (s == StreamConfig::All || s
            == StreamConfig::Extern),
        forall|i: int, j: int|
            0 <= i < j < served_streams(s).len() ==> match (
                #[trigger] served_streams(s)[i],
                #[trigger] served_streams(s)[j],
            ) {
                (OnvifStream::Main, OnvifStream::Sub) => true,
                (OnvifStream::Main, OnvifStream::Extern) => true,
                (OnvifStream::Sub, OnvifStream::Extern) => true,
                _ => false,
            },
{
    let all = served_streams(s);
    if all.len() > 0 {
        assert(all.contains(all[0]));
    }
    if all.len() > 1 {
        assert(all.contains(all[1]));
    }
    if all.len() > 2 {
        assert(all.contains(all[2]));
    }
}

/// In a path, letters, digits, `-`, `.`, `_` and `~` stand for themselves, and
/// every other byte is a percent sign and its two digits in base 16.
pub proof fn law_other_bytes_are_written_in_base_16(b: u8)
    ensures
        (0x41 <= b <= 0x5A || 0x61 <= b <= 0x7A || 0x30 <= b <= 0x39 || b == 0x2D || b == 0x2E || b
            == 0x5F || b == 0x7E) ==> segment_byte(b) == seq![b as char],
        !(0x41 <= b <= 0x5A || 0x61 <= b <= 0x7A || 0x30 <= b <= 0x39 || b == 0x2D || b == 0x2E || b
            == 0x5F || b == 0x7E) ==> segment_byte(b) == seq![
            '%',
            "0123456789ABCDEF"@[b as int / 16],
            "0123456789ABCDEF"@[b as int % 16],
        ],
{
    reveal_strlit("0123456789ABCDEF");
}

proof fn lemma_segments_concat(a: Seq<u8>, b: Seq<u8>)
    ensures
        segment_bytes(a + b) == segment_bytes(a) + segment_bytes(b),
    decreases b.len(),
{
    if b.len() == 0 {
        assert(a + b =~= a);
        assert(segment_bytes(a) + segment_bytes(b) =~= segment_bytes(a));
    } else {
        lemma_segments_concat(a, b.drop_last());
        assert((a + b).drop_last() =~= a + b.drop_last());
        assert(segment_bytes(a + b) =~= segment_bytes(a) + segment_bytes(b));
    }
}

/// A path is written byte by byte, in order.
pub proof fn law_paths_are_written_in_order(before: Seq<u8>, b: u8, behind: Seq<u8>)
    ensures
        segment_bytes(before + seq![b] + behind) == segment_bytes(before) + segment_byte(b)
            + segment_bytes(behind),
        segment_bytes(Seq::empty()) == Seq::<char>::empty(),
{
    lemma_segments_concat(before + seq![b], behind);
    assert((before + seq![b]).drop_last() =~= before);
}

/// Where no host is configured, the address that was found is announced, with the
/// port; a configured host is announced as it is if it has a port, and with the
/// port if it has none. Nothing is announced only where nothing was found.
pub proof fn law_the_announced_address(
    host: Seq<char>,
    port: u16,
    detected: Option<Seq<char>>,
    behind: Seq<char>,
)
    requires
        !host.contains(':'),
        host != "auto"@,
    ensures
        detected matches Some(found) ==> authority_of("auto"@, port, detected) == Some(
            found + ":"@ + text::decimal(port as nat),
        ) && host_of("auto"@, detected) == Some(found),
        detected is None ==> authority_of("auto"@, port, detected) is None && host_of(
            "auto"@,
            detected,
        ) is None,
        authority_of(host, port, detected) == Some(host + ":"@ + text::decimal(port as nat)),
        host_of(host, detected) == Some(host),
        authority_of(host + seq![':'] + behind, port, detected) == Some(host + seq![':'] + behind),
        host_of(host + seq![':'] + behind, detected) == Some(host),
{
    let full = host + seq![':'] + behind;
    reveal_strlit("auto");
    assert(full[host.len() as int] == ':');
    assert(full.contains(':'));
    if full == "auto"@ {
        assert("auto"@[host.len() as int] == ':');
    }
    text::lemma_first_of(full, ':');
    text::lemma_first_of(host, ':');
    let at = text::first_of(full, ':');
    if at < host.len() {
        assert(host[at] == full[at]);
        assert(host.contains(':'));
    }
    assert(full.take(at) =~= host);
    if text::first_of(host, ':') < host.len() {
        assert(host.contains(host[text::first_of(host, ':')]));
    }
    assert(host.take(host.len() as int) =~= host);
}

/// A device keeps the name, the channel and the permitted users of its camera,
/// and has the streams that the setting names.
pub proof fn law_devices_are_their_cameras(cfg: CameraConfig)
    ensures
        device_of(cfg).name == cfg.name@,
        device_of(cfg).channel_id == cfg.channel_id,
        device_of(cfg).streams == served_streams(cfg.stream),
        cfg.permitted_users is None ==> device_of(cfg).permitted_users is None,
        cfg.permitted_users matches Some(list) ==> device_of(cfg).permitted_users == Some(
            text::views(list@),
        ),
        device_of(cfg).audio_format == cfg.resolved_audio_format(),
        device_of(cfg).uuid == camera_uuid(cfg),
{
}

proof fn lemma_in_devices(cameras: Seq<CameraConfig>, count: nat, i: int)
    requires
        count <= cameras.len(),
        0 <= i < devices_of(cameras, count).len(),
    ensures
        exists|k: int|
            0 <= k < count && cameras[k].enabled && cameras[k].onvif.enabled && cameras[k].stream
                != StreamConfig::Off && devices_of(cameras, count)[i] == device_of(
                #[trigger] cameras[k],
            ),
    decreases count,
{
    if count > 0 {
        let before = devices_of(cameras, (count - 1) as nat);
        let last = cameras[count - 1];
        if is_served(last) {
            lemma_position(before, last.name@);
            let at = position(before, device_of(last).name);
            if at < before.len() && i != at || at >= before.len() && i < before.len() {
                lemma_in_devices(cameras, (count - 1) as nat, i);
            } else {
                assert(devices_of(cameras, count)[i] == device_of(cameras[count - 1]));
            }
        } else {
            lemma_in_devices(cameras, (count - 1) as nat, i);
        }
    }
}

proof fn lemma_stays_in_devices(cameras: Seq<CameraConfig>, count: nat, name: Seq<char>)
    requires
        count <= cameras.len(),
        exists|k: int|
            0 <= k < count && (#[trigger] cameras[k]).enabled && cameras[k].onvif.enabled
                && cameras[k].stream != StreamConfig::Off && cameras[k].name@ == name,
    ensures
        exists|i: int|
            0 <= i < devices_of(cameras, count).len() && (#[trigger] devices_of(
                cameras,
                count,
            )[i]).name == name,
    decreases count,
{
    let before = devices_of(cameras, (count - 1) as nat);
    let all = devices_of(cameras, count);
    let last = cameras[count - 1];
    let at = position(before, device_of(last).name);
    lemma_position(before, device_of(last).name);
    if is_served(last) && last.name@ == name {
        if at < before.len() {
            assert(all[at].name == name);
        } else {
            assert(all[before.len() as int].name == name);
        }
    } else {
        let k = choose|k: int|
            0 <= k < count && (#[trigger] cameras[k]).enabled && cameras[k].onvif.enabled
                && cameras[k].stream != StreamConfig::Off && cameras[k].name@ == name;
        assert(k < count - 1);
        lemma_stays_in_devices(cameras, (count - 1) as nat, name);
        let i = choose|i: int| 0 <= i < before.len() && (#[trigger] before[i]).name == name;
        assert(all[i].name == name);
    }
}

/// With the bridge switched off nothing is served. With it on, every camera that
/// is enabled, for ONVIF too, and streams anything is served, and no other.
pub proof fn law_enabled_cameras_are_served(config: Config, k: int, i: int)
    ensures
        !config.onvif.enabled ==> wanted_devices(config).len() == 0,
        config.onvif.enabled && 0 <= k < config.cameras@.len() && config.cameras@[k].enabled
            && config.cameras@[k].onvif.enabled && config.cameras@[k].stream != StreamConfig::Off
            ==> exists|d: int|
            0 <= d < wanted_devices(config).len() && (#[trigger] wanted_devices(config)[d]).name
                == config.cameras@[k].name@,
        0 <= i < wanted_devices(config).len() ==> exists|c: int|
            0 <= c < config.cameras@.len() && config.cameras@[c].enabled
                && config.cameras@[c].onvif.enabled && config.cameras@[c].stream
                != StreamConfig::Off && wanted_devices(config)[i] == device_of(
                #[trigger] config.cameras@[c],
            ),
{
    let cameras = config.cameras@;
    if config.onvif.enabled && 0 <= k < cameras.len() && cameras[k].enabled
        && cameras[k].onvif.enabled && cameras[k].stream != StreamConfig::Off {
        lemma_stays_in_devices(cameras, cameras.len(), cameras[k].name@);
    }
    if 0 <= i < wanted_devices(config).len() {
        lemma_in_devices(cameras, cameras.len(), i);
    }
}

/// A later entry with a password for the same name wins over an earlier one, and
/// an entry without one changes nothing.
pub proof fn law_the_last_password_counts(
    users: Seq<crate::config::UserConfig>,
    last: crate::config::UserConfig,
    name: Seq<char>,
)
    ensures
        last.name@ == name && last.pass is Some ==> configured_password(users.push(last), name)
            == Some(last.pass->0@),
        last.name@ != name || last.pass is None ==> configured_password(users.push(last), name)
            == configured_password(users, name),
        configured_password(Seq::empty(), name) is None,
{
    assert(users.push(last).drop_last() =~= users);
}

/// A device's identity is made of its name, the camera's UID and the channel, so
/// that two channels of one recorder are two devices.
pub proof fn law_identities_tell_channels_apart(
    name: Seq<char>,
    uid: Seq<char>,
    a: u8,
    b: u8,
)
    requires
        identity_source(name, Some(uid), a) == identity_source(name, Some(uid), b),
    ensures
        a == b,
        identity_source(name, Some(uid), a) == name + "|"@ + uid + "|"@ + text::decimal(a as nat),
        identity_source(name, None, a) == name + "||"@ + text::decimal(a as nat),
{
    reveal_strlit("|");
    reveal_strlit("||");
    let head = name + "|"@ + uid + "|"@;
    let x = identity_source(name, Some(uid), a);
    let y = identity_source(name, Some(uid), b);
    assert(x.skip(head.len() as int) =~= text::decimal(a as nat));
    assert(y.skip(head.len() as int) =~= text::decimal(b as nat));
    text::lemma_decimal_digits(a as nat);
    text::lemma_decimal_digits(b as nat);
    assert(identity_source(name, None, a) =~= name + "||"@ + text::decimal(a as nat));
}

proof fn lemma_new_names(
    devices: Seq<DeviceView>,
    existing: Seq<DeviceView>,
    count: nat,
    name: Seq<char>,
)
    requires
        count <= devices.len(),
    ensures
        new_names(devices, existing, count).contains(name) <==> ((exists|i: int|
            0 <= i < count && (#[trigger] devices[i]).name == name) && (forall|j: int|
            0 <= j < existing.len() ==> (#[trigger] existing[j]).name != name)),
    decreases count,
{
    if count > 0 {
        let before = new_names(devices, existing, (count - 1) as nat);
        let last = devices[count - 1].name;
        lemma_new_names(devices, existing, (count - 1) as nat, name);
        lemma_position(existing, last);
        let all = new_names(devices, existing, count);
        if position(existing, last) >= existing.len() {
            assert(all == before.push(last));
            assert(all[before.len() as int] == last);
            if all.contains(name) {
                let k = choose|k: int| 0 <= k < all.len() && all[k] == name;
                if k < before.len() {
                    assert(before[k] == name);
                    assert(before.contains(name));
                } else {
                    assert(devices[count - 1].name == name);
                }
            }
            if before.contains(name) {
                let k = choose|k: int| 0 <= k < before.len() && before[k] == name;
                assert(all[k] == name);
            }
        } else {
            assert(existing[position(existing, last)].name == last);
        }
    }
}

/// The cameras to attach are those that are wanted and not there yet.
pub proof fn law_new_cameras_are_attached(
    devices: Seq<DeviceView>,
    existing: Seq<DeviceView>,
    name: Seq<char>,
)
    ensures
        new_names(devices, existing, devices.len()).contains(name) <==> ((exists|i: int|
            0 <= i < devices.len() && (#[trigger] devices[i]).name == name) && (forall|j: int|
            0 <= j < existing.len() ==> (#[trigger] existing[j]).name != name)),
{
    lemma_new_names(devices, existing, devices.len(), name);
}

/// A device's number is written in five groups of 4, 2, 2, 2 and 6 bytes in base 16, with
/// hyphens between them.
pub proof fn law_numbers_are_written_in_groups(bytes: Seq<u8>)
    requires
        bytes.len() == 16,
    ensures
        uuid_text(bytes).len() == 36,
        uuid_text(bytes)[8] == '-' && uuid_text(bytes)[13] == '-' && uuid_text(bytes)[18] == '-'
            && uuid_text(bytes)[23] == '-',
        uuid_text(bytes).take(8) == text::hex(bytes.subrange(0, 4)),
        uuid_text(bytes).subrange(9, 13) == text::hex(bytes.subrange(4, 6)),
        uuid_text(bytes).subrange(14, 18) == text::hex(bytes.subrange(6, 8)),
        uuid_text(bytes).subrange(19, 23) == text::hex(bytes.subrange(8, 10)),
        uuid_text(bytes).skip(24) == text::hex(bytes.subrange(10, 16)),
{
    reveal_strlit("-");
    text::law_bytes_are_written_in_base_16(bytes.subrange(0, 4), 0);
    text::law_bytes_are_written_in_base_16(bytes.subrange(4, 6), 0);
    text::law_bytes_are_written_in_base_16(bytes.subrange(6, 8), 0);
    text::law_bytes_are_written_in_base_16(bytes.subrange(8, 10), 0);
    text::law_bytes_are_written_in_base_16(bytes.subrange(10, 16), 0);
    let whole = uuid_text(bytes);
    assert(whole.take(8) =~= text::hex(bytes.subrange(0, 4)));
    assert(whole.subrange(9, 13) =~= text::hex(bytes.subrange(4, 6)));
    assert(whole.subrange(14, 18) =~= text::hex(bytes.subrange(6, 8)));
    assert(whole.subrange(19, 23) =~= text::hex(bytes.subrange(8, 10)));
    assert(whole.skip(24) =~= text::hex(bytes.subrange(10, 16)));
}

/// A device has the number it is configured with, if that is one; one made of the text
/// where it is not; and one made of its name, UID and channel where it is left to the
/// bridge.
pub proof fn law_devices_have_stable_numbers(cfg: CameraConfig)
    ensures
        cfg.onvif.uuid@ == "auto"@ ==> camera_uuid(cfg) == oid_uuid(
            vstd::utf8::encode_utf8(
                cfg.name@ + "|"@ + (match cfg.camera_uid {
                    Some(uid) => uid@,
                    None => Seq::empty(),
                }) + "|"@ + text::decimal(cfg.channel_id as nat),
            ),
        ),
        cfg.onvif.uuid@ != "auto"@ && written_uuid(cfg.onvif.uuid@) is Some ==> camera_uuid(cfg)
            == written_uuid(cfg.onvif.uuid@)->0,
        cfg.onvif.uuid@ != "auto"@ && written_uuid(cfg.onvif.uuid@) is None ==> camera_uuid(cfg)
            == oid_uuid(vstd::utf8::encode_utf8(cfg.onvif.uuid@)),
{
}

} // verus!

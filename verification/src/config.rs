//! The configuration: what can be set, what it defaults to, and what is
//! refused.

use vstd::prelude::*;
use vstd::string::*;
use crate::text;

verus! {

/// What a configuration is refused for.
#[derive(Clone, Copy, PartialEq, Eq, Structural, Debug)]
pub enum ConfigError {
    /// A DSCP class that is neither 0-63 nor a class name.
    Dscp,
    /// A server with both a CA and a client certificate.
    CaAndClientAuth,
    /// A user without a name.
    EmptyUsername,
    /// A user with a name that means something else.
    ReservedUsername,
    /// A camera that cannot be found.
    NoAddressOrUid,
}

/// What each refusal says.
pub open spec fn config_error_text(error: ConfigError) -> Seq<char> {
    match error {
        ConfigError::Dscp => "Must be 0-63 or a class name such as VOICE-ADMIT, EF, AF41, CS5"@,
        ConfigError::CaAndClientAuth => "Cannot have both ca and client_auth set"@,
        ConfigError::EmptyUsername => "username cannot be empty"@,
        ConfigError::ReservedUsername => "This is a reserved username"@,
        ConfigError::NoAddressOrUid => "Either camera address or uid must be given"@,
    }
}

impl ConfigError {
    /// What the refusal says.
    pub fn message(&self) -> (said: &'static str)
        ensures
            said@ == config_error_text(*self),
    {
        match self {
            ConfigError::Dscp => "Must be 0-63 or a class name such as VOICE-ADMIT, EF, AF41, CS5",
            ConfigError::CaAndClientAuth => "Cannot have both ca and client_auth set",
            ConfigError::EmptyUsername => "username cannot be empty",
            ConfigError::ReservedUsername => "This is a reserved username",
            ConfigError::NoAddressOrUid => "Either camera address or uid must be given",
        }
    }
}

/// The whole configuration.
#[derive(Clone, PartialEq, Debug)]
pub struct Config {
    pub cameras: Vec<CameraConfig>,
    pub bind_addr: String,
    pub bind_port: u16,
    pub tokio_console: bool,
    pub certificate: Option<String>,
    pub mqtt: Option<MqttServerConfig>,
    pub tls_client_auth: String,
    pub users: Vec<UserConfig>,
    pub onvif: OnvifGlobalConfig,
    /// DSCP class applied to every socket that talks to a camera. Unset leaves
    /// the traffic unmarked.
    pub dscp: Option<String>,
}

/// The ONVIF side of the whole bridge.
#[derive(Clone, PartialEq, Debug)]
pub struct OnvifGlobalConfig {
    pub enabled: bool,
    pub bind_addr: String,
    pub bind_port: u16,
    pub discovery: bool,
    /// Hostname or `host:port` to advertise in ONVIF responses; `"auto"` picks
    /// an address of the machine.
    pub advertise_host: String,
}

impl Default for OnvifGlobalConfig {
    fn default() -> (config: Self)
        ensures
            !config.enabled,
            config.bind_addr@ == "0.0.0.0"@,
            config.bind_port == 8000,
            config.discovery,
            config.advertise_host@ == "auto"@,
    {
        OnvifGlobalConfig {
            enabled: false,
            bind_addr: default_onvif_bind_addr(),
            bind_port: default_onvif_bind_port(),
            discovery: true,
            advertise_host: default_advertise_host(),
        }
    }
}

/// The ONVIF side of one camera.
#[derive(Clone, PartialEq, Debug)]
pub struct OnvifCameraConfig {
    pub enabled: bool,
    /// Fixed UUID for a stable ONVIF device identity; `"auto"` derives one from
    /// the camera name.
    pub uuid: String,
}

impl Default for OnvifCameraConfig {
    fn default() -> (config: Self)
        ensures
            config.enabled,
            config.uuid@ == "auto"@,
    {
        OnvifCameraConfig { enabled: true, uuid: default_uuid() }
    }
}

/// The MQTT broker. Its secrets are left out when the configuration is shown.
#[derive(Clone, PartialEq, Debug)]
pub struct MqttServerConfig {
    pub broker_addr: String,
    pub port: u16,
    pub credentials: Option<(String, String)>,
    /// Path of the certificate authority.
    pub ca: Option<String>,
    /// Paths of the client's certificate and key.
    pub client_auth: Option<(String, String)>,
}

/// A stream of a camera.
#[derive(Clone, Copy, PartialEq, Eq, Structural, Debug)]
pub enum StreamKind {
    Main,
    Sub,
    Extern,
}

/// Which streams of a camera to serve.
#[derive(Clone, Copy, PartialEq, Eq, Structural, Debug)]
pub enum StreamConfig {
    Off,
    All,
    Both,
    Main,
    Sub,
    Extern,
}

/// The streams each setting stands for, in order.
pub open spec fn stream_kinds(streams: StreamConfig) -> Seq<StreamKind> {
    match streams {
        StreamConfig::All => seq![StreamKind::Main, StreamKind::Extern, StreamKind::Sub],
        StreamConfig::Both => seq![StreamKind::Main, StreamKind::Sub],
        StreamConfig::Main => seq![StreamKind::Main],
        StreamConfig::Sub => seq![StreamKind::Sub],
        StreamConfig::Extern => seq![StreamKind::Extern],
        StreamConfig::Off => Seq::empty(),
    }
}

impl StreamConfig {
    /// The streams that the setting stands for.
    pub fn as_stream_kinds(&self) -> (kinds: Vec<StreamKind>)
        ensures
            kinds@ == stream_kinds(*self),
    {
        let mut kinds: Vec<StreamKind> = Vec::new();
        if matches!(self, StreamConfig::All | StreamConfig::Both | StreamConfig::Main) {
            kinds.push(StreamKind::Main);
        }
        if matches!(self, StreamConfig::All | StreamConfig::Extern) {
            kinds.push(StreamKind::Extern);
        }
        if matches!(self, StreamConfig::All | StreamConfig::Both | StreamConfig::Sub) {
            kinds.push(StreamKind::Sub);
        }
        assert(kinds@ =~= stream_kinds(*self));
        kinds
    }
}

/// The setting that a name in the configuration stands for.
pub open spec fn stream_config_named(name: Seq<char>) -> Option<StreamConfig> {
    if name == "None"@ || name == "none"@ {
        Some(StreamConfig::Off)
    } else if name == "All"@ || name == "all"@ {
        Some(StreamConfig::All)
    } else if name == "Both"@ || name == "both"@ {
        Some(StreamConfig::Both)
    } else if name == "Main"@ || name == "main"@ || name == "mainStream"@ || name == "mainstream"@ || name == "MainStream"@ {
        Some(StreamConfig::Main)
    } else if name == "Sub"@ || name == "sub"@ || name == "subStream"@ || name == "substream"@ || name == "SubStream"@ {
        Some(StreamConfig::Sub)
    } else if name == "Extern"@ || name == "extern"@ || name == "externStream"@ || name == "externstream"@ || name == "ExternStream"@ {
        Some(StreamConfig::Extern)
    } else {
        None
    }
}

impl StreamConfig {
    /// The setting that a name in the configuration stands for.
    pub fn from_config(name: &str) -> (found: Option<Self>)
        ensures
            found == stream_config_named(name@),
    {
        if text::same(name, "None") || text::same(name, "none") {
            Some(StreamConfig::Off)
        } else if text::same(name, "All") || text::same(name, "all") {
            Some(StreamConfig::All)
        } else if text::same(name, "Both") || text::same(name, "both") {
            Some(StreamConfig::Both)
        } else if text::same(name, "Main") || text::same(name, "main") || text::same(name, "mainStream") || text::same(name, "mainstream") || text::same(name, "MainStream") {
            Some(StreamConfig::Main)
        } else if text::same(name, "Sub") || text::same(name, "sub") || text::same(name, "subStream") || text::same(name, "substream") || text::same(name, "SubStream") {
            Some(StreamConfig::Sub)
        } else if text::same(name, "Extern") || text::same(name, "extern") || text::same(name, "externStream") || text::same(name, "externstream") || text::same(name, "ExternStream") {
            Some(StreamConfig::Extern)
        } else {
            None
        }
    }
}

/// One camera.
#[derive(Clone, PartialEq, Debug)]
pub struct CameraConfig {
    pub name: String,
    pub camera_addr: Option<String>,
    pub camera_uid: Option<String>,
    pub username: String,
    pub password: Option<String>,
    pub stream: StreamConfig,
    pub permitted_users: Option<Vec<String>>,
    pub channel_id: u8,
    pub mqtt: MqttConfig,
    pub pause: PauseConfig,
    /// Name of the discovery method.
    pub discovery: String,
    pub max_encryption: String,
    /// Whether unexpected media packets end the media stream.
    pub strict: bool,
    /// Name of the format that messages are printed in.
    pub print_format: String,
    pub update_time: bool,
    /// Buffer duration in ms. Unset takes the [`Compat`] profile's answer. Read
    /// through [`CameraConfig::buffer_duration`].
    pub buffer_duration: Option<u64>,
    pub enabled: bool,
    pub debug: bool,
    /// Whether to serve a placeholder while the camera is being set up. Unset
    /// takes the [`Compat`] profile's answer. Read through
    /// [`CameraConfig::use_splash`].
    pub use_splash: Option<bool>,
    pub splash_pattern: SplashPattern,
    /// How AAC audio is delivered over RTSP. Unset takes the [`Compat`]
    /// profile's answer. Read through [`CameraConfig::audio_format`].
    pub audio_format: Option<AudioFormat>,
    pub max_discovery_retries: usize,
    pub push_notifications: bool,
    pub idle_disconnect: bool,
    /// Limit the RTSP output to at most this many frames per second.
    pub max_fps: Option<u32>,
    /// Which downstream consumer this camera is being tuned for.
    pub compat: Compat,
    pub onvif: OnvifCameraConfig,
}

/// Which downstream consumer a camera is being tuned for. It picks a coherent
/// set of defaults; every individual setting still overrides it.
#[derive(Clone, Copy, PartialEq, Eq, Structural, Debug)]
pub enum Compat {
    /// Lenient end consumers.
    Default,
    /// Tuned for go2rtc, and so for Home Assistant and Frigate through it.
    Go2rtc,
}

impl Default for Compat {
    fn default() -> (compat: Self)
        ensures
            compat == Compat::Default,
    {
        Compat::Default
    }
}

/// The audio format a profile defaults to.
pub open spec fn profile_audio_format(compat: Compat) -> AudioFormat {
    match compat {
        Compat::Default => AudioFormat::Pcm,
        Compat::Go2rtc => AudioFormat::All,
    }
}

/// The buffer duration a profile defaults to, in milliseconds.
pub open spec fn profile_buffer_duration(compat: Compat) -> u64 {
    match compat {
        Compat::Default => 3000,
        Compat::Go2rtc => 250,
    }
}

impl Compat {
    /// The default audio format for this profile.
    pub fn audio_format(&self) -> (format: AudioFormat)
        ensures
            format == profile_audio_format(*self),
    {
        match self {
            // One L16 track: understood by every RTSP client.
            Compat::Default => AudioFormat::Pcm,
            // go2rtc's two outputs want different things from one camera.
            Compat::Go2rtc => AudioFormat::All,
        }
    }

    /// The default server-side queue depth, in milliseconds.
    pub fn buffer_duration(&self) -> (ms: u64)
        ensures
            ms == profile_buffer_duration(*self),
    {
        match self {
            // Rides out congestion; the right trade for a recorder.
            Compat::Default => 3000,
            // Ahead of a WebRTC consumer, queue depth is just delay.
            Compat::Go2rtc => 250,
        }
    }

    /// Whether to serve the placeholder stream while the camera starts.
    pub fn use_splash(&self) -> (splash: bool)
        ensures
            splash == (*self == Compat::Default),
    {
        match self {
            Compat::Default => true,
            Compat::Go2rtc => false,
        }
    }

    /// Whether to restrict RTSP to TCP interleaved.
    pub fn tcp_only(&self) -> (tcp: bool)
        ensures
            tcp == (*self == Compat::Go2rtc),
    {
        matches!(self, Compat::Go2rtc)
    }

    /// Whether to tear a media down as soon as its client disconnects.
    pub fn stop_on_disconnect(&self) -> (stop: bool)
        ensures
            stop == (*self == Compat::Go2rtc),
    {
        matches!(self, Compat::Go2rtc)
    }
}

/// How the profile is shown.
pub open spec fn compat_label(value: Compat) -> Seq<char> {
    match value {
        Compat::Default => "default"@,
        Compat::Go2rtc => "go2rtc"@,
    }
}

impl Compat {
    /// How the profile is shown.
    pub fn label(&self) -> (name: &'static str)
        ensures
            name@ == compat_label(*self),
    {
        match self {
            Compat::Default => "default",
            Compat::Go2rtc => "go2rtc",
        }
    }
}

/// The profile that a name in the configuration stands for.
pub open spec fn compat_named(name: Seq<char>) -> Option<Compat> {
    if name == "Default"@ || name == "default"@ || name == "none"@ || name == "standard"@ {
        Some(Compat::Default)
    } else if name == "Go2rtc"@ || name == "go2rtc"@ || name == "webrtc"@ || name == "frigate"@ {
        Some(Compat::Go2rtc)
    } else {
        None
    }
}

impl Compat {
    /// The profile that a name in the configuration stands for.
    pub fn from_config(name: &str) -> (found: Option<Self>)
        ensures
            found == compat_named(name@),
    {
        if text::same(name, "Default") || text::same(name, "default") || text::same(name, "none") || text::same(name, "standard") {
            Some(Compat::Default)
        } else if text::same(name, "Go2rtc") || text::same(name, "go2rtc") || text::same(name, "webrtc") || text::same(name, "frigate") {
            Some(Compat::Go2rtc)
        } else {
            None
        }
    }
}

impl CameraConfig {
    /// The audio format: the one set, else the profile's.
    pub open spec fn resolved_audio_format(&self) -> AudioFormat {
        match self.audio_format {
            Some(set) => set,
            None => profile_audio_format(self.compat),
        }
    }

    /// The buffer duration: the one set, else the profile's.
    pub open spec fn resolved_buffer_duration(&self) -> u64 {
        match self.buffer_duration {
            Some(set) => set,
            None => profile_buffer_duration(self.compat),
        }
    }

    /// Whether there is a placeholder: what was set, else the profile's answer.
    pub open spec fn resolved_splash(&self) -> bool {
        match self.use_splash {
            Some(set) => set,
            None => self.compat == Compat::Default,
        }
    }

    /// How this camera's audio is delivered, resolving the profile default.
    pub fn audio_format(&self) -> (format: AudioFormat)
        ensures
            format == self.resolved_audio_format(),
    {
        match self.audio_format {
            Some(set) => set,
            None => self.compat.audio_format(),
        }
    }

    /// How much media the server-side queues may hold, in milliseconds,
    /// resolving the profile default.
    pub fn buffer_duration(&self) -> (ms: u64)
        ensures
            ms == self.resolved_buffer_duration(),
    {
        match self.buffer_duration {
            Some(set) => set,
            None => self.compat.buffer_duration(),
        }
    }

    /// Whether to serve the placeholder stream, resolving the profile default.
    pub fn use_splash(&self) -> (splash: bool)
        ensures
            splash == self.resolved_splash(),
    {
        match self.use_splash {
            Some(set) => set,
            None => self.compat.use_splash(),
        }
    }

    /// What every valid camera meets.
    pub open spec fn valid(&self) -> bool {
        &&& self.camera_addr is Some || self.camera_uid is Some
        &&& self.channel_id <= 31
        &&& max_encryption_ok(self.max_encryption@)
        &&& self.buffer_duration matches Some(ms) ==> 1 <= ms <= 15000
        &&& self.mqtt.battery_update >= 500
        &&& self.mqtt.preview_update >= 500
        &&& self.mqtt.floodlight_update >= 500
        &&& pause_mode_ok(self.pause.mode@)
    }

    /// Whether the camera's settings are all acceptable.
    pub fn is_valid(&self) -> (ok: bool)
        ensures
            ok == self.valid(),
    {
        let buffer_ok: bool = match self.buffer_duration {
            Some(ms) => 1 <= ms && ms <= 15000,
            None => true,
        };
        let found: bool = match validate_camera_config(self) {
            Ok(()) => true,
            Err(_) => false,
        };
        found && self.channel_id <= 31 && max_encryption_known(self.max_encryption.as_str())
            && buffer_ok && self.mqtt.battery_update >= 500 && self.mqtt.preview_update >= 500
            && self.mqtt.floodlight_update >= 500 && pause_mode_known(self.pause.mode.as_str())
    }
}

/// A profile moves defaults only: whatever is set explicitly is the same under
/// every profile.
pub proof fn law_profile_moves_defaults_only(camera: CameraConfig, compat: Compat)
    ensures
        camera.audio_format is Some ==> (CameraConfig { compat, ..camera }).resolved_audio_format()
            == camera.resolved_audio_format(),
        camera.buffer_duration is Some ==> (CameraConfig {
            compat,
            ..camera
        }).resolved_buffer_duration() == camera.resolved_buffer_duration(),
        camera.use_splash is Some ==> (CameraConfig { compat, ..camera }).resolved_splash()
            == camera.resolved_splash(),
{
}

/// A user of the RTSP server.
#[derive(Clone, PartialEq, Debug)]
pub struct UserConfig {
    pub name: String,
    pub pass: Option<String>,
}

/// What a camera publishes over MQTT.
#[derive(Clone, PartialEq, Debug)]
pub struct MqttConfig {
    pub enable_motion: bool,
    /// Publish the per-AI-type detections. Has no effect when `enable_motion`
    /// is off.
    pub enable_ai: bool,
    pub enable_light: bool,
    pub enable_battery: bool,
    /// Update time in ms.
    pub battery_update: u64,
    pub enable_preview: bool,
    /// Update time in ms.
    pub preview_update: u64,
    /// Publish the floodlight tasks' status, if there is a floodlight.
    pub enable_floodlight: bool,
    /// Update time in ms.
    pub floodlight_update: u64,
    pub discovery: Option<MqttDiscoveryConfig>,
}

/// Home Assistant style discovery over MQTT.
#[derive(Clone, PartialEq, Debug)]
pub struct MqttDiscoveryConfig {
    pub topic: String,
    /// Names of the features to announce.
    pub features: Vec<String>,
}

/// When to pause a stream.
#[derive(Clone, PartialEq, Debug)]
pub struct PauseConfig {
    pub on_motion: bool,
    pub on_disconnect: bool,
    /// The IEEE 754 bits of the timeout in seconds. Carried, never computed on.
    pub motion_timeout_bits: u64,
    pub mode: String,
}

/// The placeholder picture.
#[derive(Clone, Copy, PartialEq, Eq, Structural, Debug)]
pub enum SplashPattern {
    Smpte,
    Snow,
    Black,
    White,
    Red,
    Green,
    Blue,
    Checkers1,
    Checkers2,
    Checkers4,
    Checkers8,
    Circular,
    Blink,
    Smpte75,
    ZonePlate,
    Gamut,
    ChromaZonePlate,
    SolidColor,
    Ball,
    Smpte100,
    Bar,
    Pinwheel,
    Spokes,
    Gradient,
    Colors,
    SmpteRp219,
}

/// How the pattern is named.
pub open spec fn splash_label(value: SplashPattern) -> Seq<char> {
    match value {
        SplashPattern::Smpte => "smpte"@,
        SplashPattern::Snow => "snow"@,
        SplashPattern::Black => "black"@,
        SplashPattern::White => "white"@,
        SplashPattern::Red => "red"@,
        SplashPattern::Green => "green"@,
        SplashPattern::Blue => "blue"@,
        SplashPattern::Checkers1 => "checkers-1"@,
        SplashPattern::Checkers2 => "checkers-2"@,
        SplashPattern::Checkers4 => "checkers-4"@,
        SplashPattern::Checkers8 => "checkers-8"@,
        SplashPattern::Circular => "circular"@,
        SplashPattern::Blink => "blink"@,
        SplashPattern::Smpte75 => "smpte75"@,
        SplashPattern::ZonePlate => "zone-plate"@,
        SplashPattern::Gamut => "gamut"@,
        SplashPattern::ChromaZonePlate => "chroma-zone-plate"@,
        SplashPattern::SolidColor => "solid-color"@,
        SplashPattern::Ball => "ball"@,
        SplashPattern::Smpte100 => "smpte100"@,
        SplashPattern::Bar => "bar"@,
        SplashPattern::Pinwheel => "pinwheel"@,
        SplashPattern::Spokes => "spokes"@,
        SplashPattern::Gradient => "gradient"@,
        SplashPattern::Colors => "colors"@,
        SplashPattern::SmpteRp219 => "smpte-rp-219"@,
    }
}

impl SplashPattern {
    /// How the pattern is named.
    pub fn label(&self) -> (name: &'static str)
        ensures
            name@ == splash_label(*self),
    {
        match self {
            SplashPattern::Smpte => "smpte",
            SplashPattern::Snow => "snow",
            SplashPattern::Black => "black",
            SplashPattern::White => "white",
            SplashPattern::Red => "red",
            SplashPattern::Green => "green",
            SplashPattern::Blue => "blue",
            SplashPattern::Checkers1 => "checkers-1",
            SplashPattern::Checkers2 => "checkers-2",
            SplashPattern::Checkers4 => "checkers-4",
            SplashPattern::Checkers8 => "checkers-8",
            SplashPattern::Circular => "circular",
            SplashPattern::Blink => "blink",
            SplashPattern::Smpte75 => "smpte75",
            SplashPattern::ZonePlate => "zone-plate",
            SplashPattern::Gamut => "gamut",
            SplashPattern::ChromaZonePlate => "chroma-zone-plate",
            SplashPattern::SolidColor => "solid-color",
            SplashPattern::Ball => "ball",
            SplashPattern::Smpte100 => "smpte100",
            SplashPattern::Bar => "bar",
            SplashPattern::Pinwheel => "pinwheel",
            SplashPattern::Spokes => "spokes",
            SplashPattern::Gradient => "gradient",
            SplashPattern::Colors => "colors",
            SplashPattern::SmpteRp219 => "smpte-rp-219",
        }
    }
}

/// The pattern that a name in the configuration stands for.
pub open spec fn splash_named(name: Seq<char>) -> Option<SplashPattern> {
    if name == "Smpte"@ || name == "smpte"@ {
        Some(SplashPattern::Smpte)
    } else if name == "Snow"@ || name == "snow"@ {
        Some(SplashPattern::Snow)
    } else if name == "Black"@ || name == "black"@ {
        Some(SplashPattern::Black)
    } else if name == "White"@ || name == "white"@ {
        Some(SplashPattern::White)
    } else if name == "Red"@ || name == "red"@ {
        Some(SplashPattern::Red)
    } else if name == "Green"@ || name == "green"@ {
        Some(SplashPattern::Green)
    } else if name == "Blue"@ || name == "blue"@ {
        Some(SplashPattern::Blue)
    } else if name == "Checkers1"@ || name == "checkers-1"@ {
        Some(SplashPattern::Checkers1)
    } else if name == "Checkers2"@ || name == "checkers-2"@ {
        Some(SplashPattern::Checkers2)
    } else if name == "Checkers4"@ || name == "checkers-4"@ {
        Some(SplashPattern::Checkers4)
    } else if name == "Checkers8"@ || name == "checkers-8"@ {
        Some(SplashPattern::Checkers8)
    } else if name == "Circular"@ || name == "circular"@ {
        Some(SplashPattern::Circular)
    } else if name == "Blink"@ || name == "blink"@ {
        Some(SplashPattern::Blink)
    } else if name == "Smpte75"@ || name == "smpte75"@ {
        Some(SplashPattern::Smpte75)
    } else if name == "ZonePlate"@ || name == "zone-plate"@ {
        Some(SplashPattern::ZonePlate)
    } else if name == "Gamut"@ || name == "gamut"@ {
        Some(SplashPattern::Gamut)
    } else if name == "ChromaZonePlate"@ || name == "chroma-zone-plate"@ {
        Some(SplashPattern::ChromaZonePlate)
    } else if name == "SolidColor"@ || name == "solid-color"@ {
        Some(SplashPattern::SolidColor)
    } else if name == "Ball"@ || name == "ball"@ {
        Some(SplashPattern::Ball)
    } else if name == "Smpte100"@ || name == "smpte100"@ {
        Some(SplashPattern::Smpte100)
    } else if name == "Bar"@ || name == "bar"@ {
        Some(SplashPattern::Bar)
    } else if name == "Pinwheel"@ || name == "pinwheel"@ {
        Some(SplashPattern::Pinwheel)
    } else if name == "Spokes"@ || name == "spokes"@ {
        Some(SplashPattern::Spokes)
    } else if name == "Gradient"@ || name == "gradient"@ {
        Some(SplashPattern::Gradient)
    } else if name == "Colors"@ || name == "colors"@ {
        Some(SplashPattern::Colors)
    } else if name == "SmpteRp219"@ || name == "smpte-rp-219"@ {
        Some(SplashPattern::SmpteRp219)
    } else {
        None
    }
}

impl SplashPattern {
    /// The pattern that a name in the configuration stands for.
    pub fn from_config(name: &str) -> (found: Option<Self>)
        ensures
            found == splash_named(name@),
    {
        if text::same(name, "Smpte") || text::same(name, "smpte") {
            Some(SplashPattern::Smpte)
        } else if text::same(name, "Snow") || text::same(name, "snow") {
            Some(SplashPattern::Snow)
        } else if text::same(name, "Black") || text::same(name, "black") {
            Some(SplashPattern::Black)
        } else if text::same(name, "White") || text::same(name, "white") {
            Some(SplashPattern::White)
        } else if text::same(name, "Red") || text::same(name, "red") {
            Some(SplashPattern::Red)
        } else if text::same(name, "Green") || text::same(name, "green") {
            Some(SplashPattern::Green)
        } else if text::same(name, "Blue") || text::same(name, "blue") {
            Some(SplashPattern::Blue)
        } else if text::same(name, "Checkers1") || text::same(name, "checkers-1") {
            Some(SplashPattern::Checkers1)
        } else if text::same(name, "Checkers2") || text::same(name, "checkers-2") {
            Some(SplashPattern::Checkers2)
        } else if text::same(name, "Checkers4") || text::same(name, "checkers-4") {
            Some(SplashPattern::Checkers4)
        } else if text::same(name, "Checkers8") || text::same(name, "checkers-8") {
            Some(SplashPattern::Checkers8)
        } else if text::same(name, "Circular") || text::same(name, "circular") {
            Some(SplashPattern::Circular)
        } else if text::same(name, "Blink") || text::same(name, "blink") {
            Some(SplashPattern::Blink)
        } else if text::same(name, "Smpte75") || text::same(name, "smpte75") {
            Some(SplashPattern::Smpte75)
        } else if text::same(name, "ZonePlate") || text::same(name, "zone-plate") {
            Some(SplashPattern::ZonePlate)
        } else if text::same(name, "Gamut") || text::same(name, "gamut") {
            Some(SplashPattern::Gamut)
        } else if text::same(name, "ChromaZonePlate") || text::same(name, "chroma-zone-plate") {
            Some(SplashPattern::ChromaZonePlate)
        } else if text::same(name, "SolidColor") || text::same(name, "solid-color") {
            Some(SplashPattern::SolidColor)
        } else if text::same(name, "Ball") || text::same(name, "ball") {
            Some(SplashPattern::Ball)
        } else if text::same(name, "Smpte100") || text::same(name, "smpte100") {
            Some(SplashPattern::Smpte100)
        } else if text::same(name, "Bar") || text::same(name, "bar") {
            Some(SplashPattern::Bar)
        } else if text::same(name, "Pinwheel") || text::same(name, "pinwheel") {
            Some(SplashPattern::Pinwheel)
        } else if text::same(name, "Spokes") || text::same(name, "spokes") {
            Some(SplashPattern::Spokes)
        } else if text::same(name, "Gradient") || text::same(name, "gradient") {
            Some(SplashPattern::Gradient)
        } else if text::same(name, "Colors") || text::same(name, "colors") {
            Some(SplashPattern::Colors)
        } else if text::same(name, "SmpteRp219") || text::same(name, "smpte-rp-219") {
            Some(SplashPattern::SmpteRp219)
        } else {
            None
        }
    }
}

/// How the camera's audio is delivered over RTSP.
#[derive(Clone, Copy, PartialEq, Eq, Structural, Debug)]
pub enum AudioFormat {
    /// AAC untouched, payloaded as `MPEG4-GENERIC`.
    Mpeg4Generic,
    /// AAC untouched, payloaded as `MP4A-LATM`.
    Latm,
    /// Decoded to raw samples and sent as `L16`.
    Pcm,
    /// Everything there is, as separate audio tracks, for the client to decide.
    All,
}

impl Default for AudioFormat {
    fn default() -> (format: Self)
        ensures
            format == AudioFormat::Pcm,
    {
        AudioFormat::Pcm
    }
}

/// How the format is shown.
pub open spec fn audio_format_label(value: AudioFormat) -> Seq<char> {
    match value {
        AudioFormat::Mpeg4Generic => "mpeg4-generic"@,
        AudioFormat::Latm => "latm"@,
        AudioFormat::Pcm => "pcm"@,
        AudioFormat::All => "all"@,
    }
}

impl AudioFormat {
    /// How the format is shown.
    pub fn label(&self) -> (name: &'static str)
        ensures
            name@ == audio_format_label(*self),
    {
        match self {
            AudioFormat::Mpeg4Generic => "mpeg4-generic",
            AudioFormat::Latm => "latm",
            AudioFormat::Pcm => "pcm",
            AudioFormat::All => "all",
        }
    }
}

/// The format that a spelling stands for.
pub open spec fn audio_format_asked(name: Seq<char>) -> Option<AudioFormat> {
    if name == "mpeg4-generic"@ || name == "mpeg4_generic"@ || name == "mpeg4generic"@ || name == "rfc3640"@ || name == "aac-hbr"@ || name == "generic"@ {
        Some(AudioFormat::Mpeg4Generic)
    } else if name == "latm"@ || name == "aac"@ || name == "passthrough"@ {
        Some(AudioFormat::Latm)
    } else if name == "pcm"@ || name == "l16"@ || name == "raw"@ {
        Some(AudioFormat::Pcm)
    } else if name == "all"@ || name == "auto"@ || name == "both"@ || name == "dual"@ || name == "offer_both"@ {
        Some(AudioFormat::All)
    } else {
        None
    }
}

impl AudioFormat {
    /// The format that a spelling stands for.
    pub fn from_spelling(name: &str) -> (found: Option<Self>)
        ensures
            found == audio_format_asked(name@),
    {
        if text::same(name, "mpeg4-generic") || text::same(name, "mpeg4_generic") || text::same(name, "mpeg4generic") || text::same(name, "rfc3640") || text::same(name, "aac-hbr") || text::same(name, "generic") {
            Some(AudioFormat::Mpeg4Generic)
        } else if text::same(name, "latm") || text::same(name, "aac") || text::same(name, "passthrough") {
            Some(AudioFormat::Latm)
        } else if text::same(name, "pcm") || text::same(name, "l16") || text::same(name, "raw") {
            Some(AudioFormat::Pcm)
        } else if text::same(name, "all") || text::same(name, "auto") || text::same(name, "both") || text::same(name, "dual") || text::same(name, "offer_both") {
            Some(AudioFormat::All)
        } else {
            None
        }
    }
}

/// The format that a name in the configuration stands for.
pub open spec fn audio_format_named(name: Seq<char>) -> Option<AudioFormat> {
    if name == "Mpeg4Generic"@ || name == "mpeg4-generic"@ || name == "mpeg4_generic"@ || name == "mpeg4generic"@ || name == "rfc3640"@ || name == "aac-hbr"@ || name == "generic"@ {
        Some(AudioFormat::Mpeg4Generic)
    } else if name == "Latm"@ || name == "latm"@ || name == "aac"@ || name == "passthrough"@ {
        Some(AudioFormat::Latm)
    } else if name == "Pcm"@ || name == "pcm"@ || name == "l16"@ || name == "raw"@ {
        Some(AudioFormat::Pcm)
    } else if name == "All"@ || name == "all"@ || name == "auto"@ || name == "both"@ || name == "dual"@ || name == "offer_both"@ {
        Some(AudioFormat::All)
    } else {
        None
    }
}

impl AudioFormat {
    /// The format that a name in the configuration stands for.
    pub fn from_config(name: &str) -> (found: Option<Self>)
        ensures
            found == audio_format_named(name@),
    {
        if text::same(name, "Mpeg4Generic") || text::same(name, "mpeg4-generic") || text::same(name, "mpeg4_generic") || text::same(name, "mpeg4generic") || text::same(name, "rfc3640") || text::same(name, "aac-hbr") || text::same(name, "generic") {
            Some(AudioFormat::Mpeg4Generic)
        } else if text::same(name, "Latm") || text::same(name, "latm") || text::same(name, "aac") || text::same(name, "passthrough") {
            Some(AudioFormat::Latm)
        } else if text::same(name, "Pcm") || text::same(name, "pcm") || text::same(name, "l16") || text::same(name, "raw") {
            Some(AudioFormat::Pcm)
        } else if text::same(name, "All") || text::same(name, "all") || text::same(name, "auto") || text::same(name, "both") || text::same(name, "dual") || text::same(name, "offer_both") {
            Some(AudioFormat::All)
        } else {
            None
        }
    }
}

impl AudioFormat {
    /// Parse the `?audio=` parameter a client put on its RTSP URL.
    ///
    /// Accepts the same spellings as the config file, case-insensitively, and
    /// returns `None` for anything it does not recognise so the caller can say
    /// so and carry on with the camera's configured format.
    pub fn from_request(value: &str) -> (found: Option<Self>)
        ensures
            found == audio_format_asked(text::ascii_lower(text::trimmed(value@))),
    {
        let name = text::ascii_lowercase(text::trim(value).as_str());
        AudioFormat::from_spelling(name.as_str())
    }
}

/// Every spelling a client may use is one the configuration takes too, with the
/// same meaning.
pub proof fn law_client_and_config_agree(name: Seq<char>)
    requires
        audio_format_asked(name) is Some,
    ensures
        audio_format_named(name) == audio_format_asked(name),
{
    reveal_strlit("Mpeg4Generic");
    reveal_strlit("Latm");
    reveal_strlit("Pcm");
    reveal_strlit("All");
    reveal_strlit("mpeg4-generic");
    assert("mpeg4-generic"@[0] == 'm');
    reveal_strlit("mpeg4_generic");
    assert("mpeg4_generic"@[0] == 'm');
    reveal_strlit("mpeg4generic");
    assert("mpeg4generic"@[0] == 'm');
    reveal_strlit("rfc3640");
    assert("rfc3640"@[0] == 'r');
    reveal_strlit("aac-hbr");
    assert("aac-hbr"@[0] == 'a');
    reveal_strlit("generic");
    assert("generic"@[0] == 'g');
    reveal_strlit("latm");
    assert("latm"@[0] == 'l');
    reveal_strlit("aac");
    assert("aac"@[0] == 'a');
    reveal_strlit("passthrough");
    assert("passthrough"@[0] == 'p');
    reveal_strlit("pcm");
    assert("pcm"@[0] == 'p');
    reveal_strlit("l16");
    assert("l16"@[0] == 'l');
    reveal_strlit("raw");
    assert("raw"@[0] == 'r');
    reveal_strlit("all");
    assert("all"@[0] == 'a');
    reveal_strlit("auto");
    assert("auto"@[0] == 'a');
    reveal_strlit("both");
    assert("both"@[0] == 'b');
    reveal_strlit("dual");
    assert("dual"@[0] == 'd');
    reveal_strlit("offer_both");
    assert("offer_both"@[0] == 'o');
    assert("Mpeg4Generic"@[0] == 'M' && "Latm"@[0] == 'L' && "Pcm"@[0] == 'P' && "All"@[0] == 'A');
}

/// The values that `tls_client_auth` takes.
pub open spec fn tls_client_auth_ok(mode: Seq<char>) -> bool {
    mode == "none"@ || mode == "request"@ || mode == "require"@
}

/// Whether `tls_client_auth` is one of its values.
pub fn tls_client_auth_known(mode: &str) -> (ok: bool)
    ensures
        ok == tls_client_auth_ok(mode@),
{
    text::same(mode, "none") || text::same(mode, "request") || text::same(mode, "require")
}

/// The values that the pause mode takes.
pub open spec fn pause_mode_ok(mode: Seq<char>) -> bool {
    mode == "black"@ || mode == "still"@ || mode == "test"@ || mode == "none"@
}

/// Whether a pause mode is one of its values.
pub fn pause_mode_known(mode: &str) -> (ok: bool)
    ensures
        ok == pause_mode_ok(mode@),
{
    text::same(mode, "black") || text::same(mode, "still") || text::same(mode, "test")
        || text::same(mode, "none")
}

/// The values that `max_encryption` takes: `none`, with its first letter in
/// either case, or `aes` or `bcencrypt` in any case.
pub open spec fn max_encryption_ok(method: Seq<char>) -> bool {
    ||| method == "none"@
    ||| method == "None"@
    ||| text::ascii_lower(method) == "aes"@
    ||| text::ascii_lower(method) == "bcencrypt"@
}

/// Whether `max_encryption` is one of its values.
pub fn max_encryption_known(method: &str) -> (ok: bool)
    ensures
        ok == max_encryption_ok(method@),
{
    let lower = text::ascii_lowercase(method);
    text::same(method, "none") || text::same(method, "None") || text::same(lower.as_str(), "aes")
        || text::same(lower.as_str(), "bcencrypt")
}

/// A DSCP class has to resolve at load time, or a typo would silently leave the
/// traffic unmarked. `class` is what the class resolved to.
pub fn validate_dscp(class: Option<u8>) -> (result: Result<(), ConfigError>)
    ensures
        result == (if class is Some {
            Ok::<(), ConfigError>(())
        } else {
            Err(ConfigError::Dscp)
        }),
{
    match class {
        Some(_) => Ok(()),
        None => Err(ConfigError::Dscp),
    }
}

/// A broker with a CA takes no client certificate.
pub fn validate_mqtt_server(config: &MqttServerConfig) -> (result: Result<(), ConfigError>)
    ensures
        result == (if config.ca is Some && config.client_auth is Some {
            Err::<(), ConfigError>(ConfigError::CaAndClientAuth)
        } else {
            Ok(())
        }),
{
    if config.ca.is_some() && config.client_auth.is_some() {
        Err(ConfigError::CaAndClientAuth)
    } else {
        Ok(())
    }
}

/// Whether a name stands for everyone rather than for one user.
pub open spec fn reserved_name(name: Seq<char>) -> bool {
    name == "anyone"@ || name == "anonymous"@
}

/// A user needs a name of their own.
pub fn validate_username(name: &str) -> (result: Result<(), ConfigError>)
    ensures
        result == (if text::trimmed(name@).len() == 0 {
            Err::<(), ConfigError>(ConfigError::EmptyUsername)
        } else if reserved_name(name@) {
            Err(ConfigError::ReservedUsername)
        } else {
            Ok(())
        }),
{
    if text::trim(name).as_str().is_empty() {
        return Err(ConfigError::EmptyUsername);
    }
    if text::same(name, "anyone") || text::same(name, "anonymous") {
        return Err(ConfigError::ReservedUsername);
    }
    Ok(())
}

/// A camera is found by its address or by its UID.
pub fn validate_camera_config(camera_config: &CameraConfig) -> (result: Result<(), ConfigError>)
    ensures
        result == (if camera_config.camera_addr is None && camera_config.camera_uid is None {
            Err::<(), ConfigError>(ConfigError::NoAddressOrUid)
        } else {
            Ok(())
        }),
{
    if camera_config.camera_addr.is_none() && camera_config.camera_uid.is_none() {
        Err(ConfigError::NoAddressOrUid)
    } else {
        Ok(())
    }
}

impl UserConfig {
    /// What every valid user meets.
    pub open spec fn valid(&self) -> bool {
        text::trimmed(self.name@).len() > 0 && !reserved_name(self.name@)
    }
}

impl Config {
    /// What every valid configuration meets, given what its DSCP class resolved
    /// to.
    pub open spec fn valid(&self, class: Option<u8>) -> bool {
        &&& forall|i: int| 0 <= i < self.cameras@.len() ==> (#[trigger] self.cameras@[i]).valid()
        &&& tls_client_auth_ok(self.tls_client_auth@)
        &&& forall|i: int| 0 <= i < self.users@.len() ==> (#[trigger] self.users@[i]).valid()
        &&& self.dscp is Some ==> class is Some
    }

    /// Whether the configuration is acceptable. `class` is what its DSCP class
    /// resolved to.
    pub fn validate(&self, class: Option<u8>) -> (ok: bool)
        ensures
            ok == self.valid(class),
    {
        if self.dscp.is_some() && validate_dscp(class).is_err() {
            return false;
        }
        if !tls_client_auth_known(self.tls_client_auth.as_str()) {
            return false;
        }
        let mut i: usize = 0;
        while i < self.cameras.len()
            invariant
                i <= self.cameras@.len(),
                forall|j: int| 0 <= j < i ==> (#[trigger] self.cameras@[j]).valid(),
            decreases self.cameras@.len() - i,
        {
            if !self.cameras[i].is_valid() {
                return false;
            }
            i += 1;
        }
        let mut k: usize = 0;
        while k < self.users.len()
            invariant
                k <= self.users@.len(),
                forall|j: int| 0 <= j < k ==> (#[trigger] self.users@[j]).valid(),
            decreases self.users@.len() - k,
        {
            if validate_username(self.users[k].name.as_str()).is_err() {
                return false;
            }
            k += 1;
        }
        true
    }
}

/// What a key of a camera's section sets.
#[derive(Clone, Copy, PartialEq, Eq, Structural, Debug)]
pub enum CameraKey {
    Name,
    Address,
    Uid,
    Username,
    Password,
    Stream,
    PermittedUsers,
    ChannelId,
    Mqtt,
    Pause,
    Discovery,
    MaxEncryption,
    Strict,
    PrintFormat,
    UpdateTime,
    BufferDuration,
    Enabled,
    Debug,
    UseSplash,
    SplashPattern,
    AudioFormat,
    MaxDiscoveryRetries,
    PushNotifications,
    IdleDisconnect,
    MaxFps,
    Compat,
    Onvif,
}

/// The setting that a key of a camera's section names.
pub open spec fn camera_key_named(name: Seq<char>) -> Option<CameraKey> {
    if name == "name"@ {
        Some(CameraKey::Name)
    } else if name == "address"@ {
        Some(CameraKey::Address)
    } else if name == "uid"@ {
        Some(CameraKey::Uid)
    } else if name == "username"@ {
        Some(CameraKey::Username)
    } else if name == "password"@ || name == "pass"@ {
        Some(CameraKey::Password)
    } else if name == "stream"@ {
        Some(CameraKey::Stream)
    } else if name == "permitted_users"@ {
        Some(CameraKey::PermittedUsers)
    } else if name == "channel_id"@ || name == "channel"@ {
        Some(CameraKey::ChannelId)
    } else if name == "mqtt"@ {
        Some(CameraKey::Mqtt)
    } else if name == "pause"@ {
        Some(CameraKey::Pause)
    } else if name == "discovery"@ {
        Some(CameraKey::Discovery)
    } else if name == "max_encryption"@ {
        Some(CameraKey::MaxEncryption)
    } else if name == "strict"@ {
        Some(CameraKey::Strict)
    } else if name == "print_format"@ || name == "print"@ {
        Some(CameraKey::PrintFormat)
    } else if name == "update_time"@ || name == "time"@ {
        Some(CameraKey::UpdateTime)
    } else if name == "buffer_duration"@ || name == "duration"@ || name == "buffer"@ {
        Some(CameraKey::BufferDuration)
    } else if name == "enabled"@ || name == "enable"@ {
        Some(CameraKey::Enabled)
    } else if name == "debug"@ || name == "verbose"@ {
        Some(CameraKey::Debug)
    } else if name == "use_splash"@ || name == "splash"@ {
        Some(CameraKey::UseSplash)
    } else if name == "splash_pattern"@ || name == "pattern"@ {
        Some(CameraKey::SplashPattern)
    } else if name == "audio_format"@ || name == "audio"@ || name == "aud_format"@ {
        Some(CameraKey::AudioFormat)
    } else if name == "max_discovery_retries"@ || name == "retries"@ || name == "max_retries"@ {
        Some(CameraKey::MaxDiscoveryRetries)
    } else if name == "push_notifications"@ || name == "push"@ || name == "push_noti"@ {
        Some(CameraKey::PushNotifications)
    } else if name == "idle_disconnect"@ || name == "idle"@ || name == "idle_disc"@ {
        Some(CameraKey::IdleDisconnect)
    } else if name == "max_fps"@ || name == "fps_limit"@ {
        Some(CameraKey::MaxFps)
    } else if name == "compat"@ || name == "profile"@ || name == "tuned_for"@ {
        Some(CameraKey::Compat)
    } else if name == "onvif"@ {
        Some(CameraKey::Onvif)
    } else {
        None
    }
}

impl CameraKey {
    /// The setting that a key of a camera's section names.
    pub fn from_config(name: &str) -> (found: Option<Self>)
        ensures
            found == camera_key_named(name@),
    {
        if text::same(name, "name") {
            Some(CameraKey::Name)
        } else if text::same(name, "address") {
            Some(CameraKey::Address)
        } else if text::same(name, "uid") {
            Some(CameraKey::Uid)
        } else if text::same(name, "username") {
            Some(CameraKey::Username)
        } else if text::same(name, "password") || text::same(name, "pass") {
            Some(CameraKey::Password)
        } else if text::same(name, "stream") {
            Some(CameraKey::Stream)
        } else if text::same(name, "permitted_users") {
            Some(CameraKey::PermittedUsers)
        } else if text::same(name, "channel_id") || text::same(name, "channel") {
            Some(CameraKey::ChannelId)
        } else if text::same(name, "mqtt") {
            Some(CameraKey::Mqtt)
        } else if text::same(name, "pause") {
            Some(CameraKey::Pause)
        } else if text::same(name, "discovery") {
            Some(CameraKey::Discovery)
        } else if text::same(name, "max_encryption") {
            Some(CameraKey::MaxEncryption)
        } else if text::same(name, "strict") {
            Some(CameraKey::Strict)
        } else if text::same(name, "print_format") || text::same(name, "print") {
            Some(CameraKey::PrintFormat)
        } else if text::same(name, "update_time") || text::same(name, "time") {
            Some(CameraKey::UpdateTime)
        } else if text::same(name, "buffer_duration") || text::same(name, "duration") || text::same(name, "buffer") {
            Some(CameraKey::BufferDuration)
        } else if text::same(name, "enabled") || text::same(name, "enable") {
            Some(CameraKey::Enabled)
        } else if text::same(name, "debug") || text::same(name, "verbose") {
            Some(CameraKey::Debug)
        } else if text::same(name, "use_splash") || text::same(name, "splash") {
            Some(CameraKey::UseSplash)
        } else if text::same(name, "splash_pattern") || text::same(name, "pattern") {
            Some(CameraKey::SplashPattern)
        } else if text::same(name, "audio_format") || text::same(name, "audio") || text::same(name, "aud_format") {
            Some(CameraKey::AudioFormat)
        } else if text::same(name, "max_discovery_retries") || text::same(name, "retries") || text::same(name, "max_retries") {
            Some(CameraKey::MaxDiscoveryRetries)
        } else if text::same(name, "push_notifications") || text::same(name, "push") || text::same(name, "push_noti") {
            Some(CameraKey::PushNotifications)
        } else if text::same(name, "idle_disconnect") || text::same(name, "idle") || text::same(name, "idle_disc") {
            Some(CameraKey::IdleDisconnect)
        } else if text::same(name, "max_fps") || text::same(name, "fps_limit") {
            Some(CameraKey::MaxFps)
        } else if text::same(name, "compat") || text::same(name, "profile") || text::same(name, "tuned_for") {
            Some(CameraKey::Compat)
        } else if text::same(name, "onvif") {
            Some(CameraKey::Onvif)
        } else {
            None
        }
    }
}

/// Where the ONVIF server listens.
pub fn default_onvif_bind_addr() -> (value: String)
    ensures
        value@ == "0.0.0.0"@,
{
    "0.0.0.0".to_owned()
}

/// The port the ONVIF server listens on.
pub fn default_onvif_bind_port() -> (value: u16)
    ensures
        value == 8000,
{
    8000
}

/// The host that ONVIF responses advertise.
pub fn default_advertise_host() -> (value: String)
    ensures
        value@ == "auto"@,
{
    "auto".to_owned()
}

/// The ONVIF identity of a camera.
pub fn default_uuid() -> (value: String)
    ensures
        value@ == "auto"@,
{
    "auto".to_owned()
}

/// A setting that is on unless it is turned off.
pub fn default_true() -> (value: bool)
    ensures
        value == true,
{
    true
}

/// A setting that is off unless it is turned on.
pub fn default_false() -> (value: bool)
    ensures
        value == false,
{
    false
}

/// What a camera publishes over MQTT when nothing is said of it.
pub fn default_mqtt() -> (value: MqttConfig)
    ensures
        value.enable_motion,
        value.enable_ai,
        value.enable_light,
        value.enable_battery,
        value.battery_update == 2000,
        value.enable_preview,
        value.preview_update == 2000,
        value.enable_floodlight,
        value.floodlight_update == 2000,
        value.discovery is None,
{
    MqttConfig {
        enable_motion: true,
        enable_ai: true,
        enable_light: true,
        enable_battery: true,
        battery_update: 2000,
        enable_preview: true,
        preview_update: 2000,
        enable_floodlight: true,
        floodlight_update: 2000,
        discovery: None,
    }
}

/// The format that messages are printed in.
pub fn default_print() -> (value: String)
    ensures
        value@ == "None"@,
{
    "None".to_owned()
}

/// How a camera is found by its UID.
pub fn default_discovery() -> (value: String)
    ensures
        value@ == "Relay"@,
{
    "Relay".to_owned()
}

/// The strongest encryption that is offered.
pub fn default_maxenc() -> (value: String)
    ensures
        value@ == "Aes"@,
{
    "Aes".to_owned()
}

/// Where the RTSP server listens.
pub fn default_bind_addr() -> (value: String)
    ensures
        value@ == "0.0.0.0"@,
{
    "0.0.0.0".to_owned()
}

/// The port the RTSP server listens on.
pub fn default_bind_port() -> (value: u16)
    ensures
        value == 8554,
{
    8554
}

/// The streams that are served.
pub fn default_stream() -> (value: StreamConfig)
    ensures
        value == StreamConfig::All,
{
    StreamConfig::All
}

/// The certificate of the RTSP server.
pub fn default_certificate() -> (value: Option<String>)
    ensures
        value is None,
{
    None
}

/// What is asked of a client's certificate.
pub fn default_tls_client_auth() -> (value: String)
    ensures
        value@ == "none"@,
{
    "none".to_owned()
}

/// Whether the runtime's console is served.
pub fn default_tokio_console() -> (value: bool)
    ensures
        value == false,
{
    false
}

/// The channel of a camera.
pub fn default_channel_id() -> (value: u8)
    ensures
        value == 0,
{
    0
}

/// Whether a camera's clock is set on connection.
pub fn default_update_time() -> (value: bool)
    ensures
        value == false,
{
    false
}

/// The bits of a motion timeout of one second.
pub fn default_motion_timeout_bits() -> (value: u64)
    ensures
        value == 0x3FF0_0000_0000_0000,
{
    0x3FF0_0000_0000_0000
}

/// Whether a stream pauses without a client.
pub fn default_on_disconnect() -> (value: bool)
    ensures
        value == false,
{
    false
}

/// Whether a stream pauses without motion.
pub fn default_on_motion() -> (value: bool)
    ensures
        value == false,
{
    false
}

/// What a paused stream shows.
pub fn default_pause_mode() -> (value: String)
    ensures
        value@ == "none"@,
{
    "none".to_owned()
}

/// Whether unexpected media packets are an error.
pub fn default_strict() -> (value: bool)
    ensures
        value == false,
{
    false
}

/// When a stream pauses if nothing is said of it: never.
pub fn default_pause() -> (value: PauseConfig)
    ensures
        !value.on_motion,
        !value.on_disconnect,
        value.motion_timeout_bits == 0x3FF0_0000_0000_0000u64,
        value.mode@ == "none"@,
{
    PauseConfig {
        on_motion: default_on_motion(),
        on_disconnect: default_on_disconnect(),
        motion_timeout_bits: default_motion_timeout_bits(),
        mode: default_pause_mode(),
    }
}

/// How often finding a camera is tried.
pub fn default_max_discovery_retries() -> (value: usize)
    ensures
        value == 10,
{
    10
}

/// How often something is polled, in milliseconds.
pub fn default_2000() -> (value: u64)
    ensures
        value == 2000,
{
    2000
}

/// The placeholder picture.
pub fn default_splash() -> (value: SplashPattern)
    ensures
        value == SplashPattern::Snow,
{
    SplashPattern::Snow
}

proof fn lemma_stream_config_named()
    ensures
        "None"@.len() == 4,
        "none"@.len() == 4,
        "All"@.len() == 3,
        "all"@.len() == 3,
        "Both"@.len() == 4,
        "both"@.len() == 4,
        "Main"@.len() == 4,
        "main"@.len() == 4,
        "mainStream"@.len() == 10,
        "mainstream"@.len() == 10,
        "MainStream"@.len() == 10,
        "Sub"@.len() == 3,
        "sub"@.len() == 3,
        "subStream"@.len() == 9,
        "substream"@.len() == 9,
        "SubStream"@.len() == 9,
        "Extern"@.len() == 6,
        "extern"@.len() == 6,
        "externStream"@.len() == 12,
        "externstream"@.len() == 12,
        "ExternStream"@.len() == 12,
        "None"@ != "none"@,
        "None"@ != "Both"@,
        "None"@ != "both"@,
        "None"@ != "Main"@,
        "None"@ != "main"@,
        "none"@ != "Both"@,
        "none"@ != "both"@,
        "none"@ != "Main"@,
        "none"@ != "main"@,
        "All"@ != "all"@,
        "All"@ != "Sub"@,
        "All"@ != "sub"@,
        "all"@ != "Sub"@,
        "all"@ != "sub"@,
        "Both"@ != "both"@,
        "Both"@ != "Main"@,
        "Both"@ != "main"@,
        "both"@ != "Main"@,
        "both"@ != "main"@,
        "Main"@ != "main"@,
        "mainStream"@ != "mainstream"@,
        "mainStream"@ != "MainStream"@,
        "mainstream"@ != "MainStream"@,
        "Sub"@ != "sub"@,
        "subStream"@ != "substream"@,
        "subStream"@ != "SubStream"@,
        "substream"@ != "SubStream"@,
        "Extern"@ != "extern"@,
        "externStream"@ != "externstream"@,
        "externStream"@ != "ExternStream"@,
        "externstream"@ != "ExternStream"@,
{
    reveal_strlit("None");
    reveal_strlit("none");
    reveal_strlit("All");
    reveal_strlit("all");
    reveal_strlit("Both");
    reveal_strlit("both");
    reveal_strlit("Main");
    reveal_strlit("main");
    reveal_strlit("mainStream");
    reveal_strlit("mainstream");
    reveal_strlit("MainStream");
    reveal_strlit("Sub");
    reveal_strlit("sub");
    reveal_strlit("subStream");
    reveal_strlit("substream");
    reveal_strlit("SubStream");
    reveal_strlit("Extern");
    reveal_strlit("extern");
    reveal_strlit("externStream");
    reveal_strlit("externstream");
    reveal_strlit("ExternStream");
    assert("None"@[0] != "none"@[0]);
    assert("None"@[0] != "Both"@[0]);
    assert("None"@[0] != "both"@[0]);
    assert("None"@[0] != "Main"@[0]);
    assert("None"@[0] != "main"@[0]);
    assert("none"@[0] != "Both"@[0]);
    assert("none"@[0] != "both"@[0]);
    assert("none"@[0] != "Main"@[0]);
    assert("none"@[0] != "main"@[0]);
    assert("All"@[0] != "all"@[0]);
    assert("All"@[0] != "Sub"@[0]);
    assert("All"@[0] != "sub"@[0]);
    assert("all"@[0] != "Sub"@[0]);
    assert("all"@[0] != "sub"@[0]);
    assert("Both"@[0] != "both"@[0]);
    assert("Both"@[0] != "Main"@[0]);
    assert("Both"@[0] != "main"@[0]);
    assert("both"@[0] != "Main"@[0]);
    assert("both"@[0] != "main"@[0]);
    assert("Main"@[0] != "main"@[0]);
    assert("mainStream"@[4] != "mainstream"@[4]);
    assert("mainStream"@[0] != "MainStream"@[0]);
    assert("mainstream"@[0] != "MainStream"@[0]);
    assert("Sub"@[0] != "sub"@[0]);
    assert("subStream"@[3] != "substream"@[3]);
    assert("subStream"@[0] != "SubStream"@[0]);
    assert("substream"@[0] != "SubStream"@[0]);
    assert("Extern"@[0] != "extern"@[0]);
    assert("externStream"@[6] != "externstream"@[6]);
    assert("externStream"@[0] != "ExternStream"@[0]);
    assert("externstream"@[0] != "ExternStream"@[0]);
}

/// The streams of a camera go by these names and no others.
pub proof fn law_streams_go_by_these_names(name: Seq<char>)
    ensures
        stream_config_named("None"@) == Some(StreamConfig::Off),
        stream_config_named("none"@) == Some(StreamConfig::Off),
        stream_config_named("All"@) == Some(StreamConfig::All),
        stream_config_named("all"@) == Some(StreamConfig::All),
        stream_config_named("Both"@) == Some(StreamConfig::Both),
        stream_config_named("both"@) == Some(StreamConfig::Both),
        stream_config_named("Main"@) == Some(StreamConfig::Main),
        stream_config_named("main"@) == Some(StreamConfig::Main),
        stream_config_named("mainStream"@) == Some(StreamConfig::Main),
        stream_config_named("mainstream"@) == Some(StreamConfig::Main),
        stream_config_named("MainStream"@) == Some(StreamConfig::Main),
        stream_config_named("Sub"@) == Some(StreamConfig::Sub),
        stream_config_named("sub"@) == Some(StreamConfig::Sub),
        stream_config_named("subStream"@) == Some(StreamConfig::Sub),
        stream_config_named("substream"@) == Some(StreamConfig::Sub),
        stream_config_named("SubStream"@) == Some(StreamConfig::Sub),
        stream_config_named("Extern"@) == Some(StreamConfig::Extern),
        stream_config_named("extern"@) == Some(StreamConfig::Extern),
        stream_config_named("externStream"@) == Some(StreamConfig::Extern),
        stream_config_named("externstream"@) == Some(StreamConfig::Extern),
        stream_config_named("ExternStream"@) == Some(StreamConfig::Extern),
        stream_config_named(name) is Some ==> (name == "None"@ || name == "none"@ || name == "All"@ || name == "all"@ || name == "Both"@ || name == "both"@ || name == "Main"@ || name == "main"@ || name == "mainStream"@ || name == "mainstream"@ || name == "MainStream"@ || name == "Sub"@ || name == "sub"@ || name == "subStream"@ || name == "substream"@ || name == "SubStream"@ || name == "Extern"@ || name == "extern"@ || name == "externStream"@ || name == "externstream"@ || name == "ExternStream"@),
{
    lemma_stream_config_named();
}

proof fn lemma_compat_named()
    ensures
        "Default"@.len() == 7,
        "default"@.len() == 7,
        "none"@.len() == 4,
        "standard"@.len() == 8,
        "Go2rtc"@.len() == 6,
        "go2rtc"@.len() == 6,
        "webrtc"@.len() == 6,
        "frigate"@.len() == 7,
        "Default"@ != "default"@,
        "Default"@ != "frigate"@,
        "default"@ != "frigate"@,
        "Go2rtc"@ != "go2rtc"@,
        "Go2rtc"@ != "webrtc"@,
        "go2rtc"@ != "webrtc"@,
{
    reveal_strlit("Default");
    reveal_strlit("default");
    reveal_strlit("none");
    reveal_strlit("standard");
    reveal_strlit("Go2rtc");
    reveal_strlit("go2rtc");
    reveal_strlit("webrtc");
    reveal_strlit("frigate");
    assert("Default"@[0] != "default"@[0]);
    assert("Default"@[0] != "frigate"@[0]);
    assert("default"@[0] != "frigate"@[0]);
    assert("Go2rtc"@[0] != "go2rtc"@[0]);
    assert("Go2rtc"@[0] != "webrtc"@[0]);
    assert("go2rtc"@[0] != "webrtc"@[0]);
}

/// The profiles go by these names and no others, and the name that a profile is
/// shown by is one of its own.
pub proof fn law_profiles_go_by_these_names(name: Seq<char>, value: Compat)
    ensures
        compat_named("Default"@) == Some(Compat::Default),
        compat_named("default"@) == Some(Compat::Default),
        compat_named("none"@) == Some(Compat::Default),
        compat_named("standard"@) == Some(Compat::Default),
        compat_named("Go2rtc"@) == Some(Compat::Go2rtc),
        compat_named("go2rtc"@) == Some(Compat::Go2rtc),
        compat_named("webrtc"@) == Some(Compat::Go2rtc),
        compat_named("frigate"@) == Some(Compat::Go2rtc),
        compat_named(name) is Some ==> (name == "Default"@ || name == "default"@ || name == "none"@ || name == "standard"@ || name == "Go2rtc"@ || name == "go2rtc"@ || name == "webrtc"@ || name == "frigate"@),
        compat_label(Compat::Default) == "default"@,
        compat_label(Compat::Go2rtc) == "go2rtc"@,
        compat_named(compat_label(value)) == Some(value),
{
    lemma_compat_named();
}

proof fn lemma_splash_named()
    ensures
        "Smpte"@.len() == 5,
        "smpte"@.len() == 5,
        "Snow"@.len() == 4,
        "snow"@.len() == 4,
        "Black"@.len() == 5,
        "black"@.len() == 5,
        "White"@.len() == 5,
        "white"@.len() == 5,
        "Red"@.len() == 3,
        "red"@.len() == 3,
        "Green"@.len() == 5,
        "green"@.len() == 5,
        "Blue"@.len() == 4,
        "blue"@.len() == 4,
        "Checkers1"@.len() == 9,
        "checkers-1"@.len() == 10,
        "Checkers2"@.len() == 9,
        "checkers-2"@.len() == 10,
        "Checkers4"@.len() == 9,
        "checkers-4"@.len() == 10,
        "Checkers8"@.len() == 9,
        "checkers-8"@.len() == 10,
        "Circular"@.len() == 8,
        "circular"@.len() == 8,
        "Blink"@.len() == 5,
        "blink"@.len() == 5,
        "Smpte75"@.len() == 7,
        "smpte75"@.len() == 7,
        "ZonePlate"@.len() == 9,
        "zone-plate"@.len() == 10,
        "Gamut"@.len() == 5,
        "gamut"@.len() == 5,
        "ChromaZonePlate"@.len() == 15,
        "chroma-zone-plate"@.len() == 17,
        "SolidColor"@.len() == 10,
        "solid-color"@.len() == 11,
        "Ball"@.len() == 4,
        "ball"@.len() == 4,
        "Smpte100"@.len() == 8,
        "smpte100"@.len() == 8,
        "Bar"@.len() == 3,
        "bar"@.len() == 3,
        "Pinwheel"@.len() == 8,
        "pinwheel"@.len() == 8,
        "Spokes"@.len() == 6,
        "spokes"@.len() == 6,
        "Gradient"@.len() == 8,
        "gradient"@.len() == 8,
        "Colors"@.len() == 6,
        "colors"@.len() == 6,
        "SmpteRp219"@.len() == 10,
        "smpte-rp-219"@.len() == 12,
        "Smpte"@ != "smpte"@,
        "Smpte"@ != "Black"@,
        "Smpte"@ != "black"@,
        "Smpte"@ != "White"@,
        "Smpte"@ != "white"@,
        "Smpte"@ != "Green"@,
        "Smpte"@ != "green"@,
        "Smpte"@ != "Blink"@,
        "Smpte"@ != "blink"@,
        "Smpte"@ != "Gamut"@,
        "Smpte"@ != "gamut"@,
        "smpte"@ != "Black"@,
        "smpte"@ != "black"@,
        "smpte"@ != "White"@,
        "smpte"@ != "white"@,
        "smpte"@ != "Green"@,
        "smpte"@ != "green"@,
        "smpte"@ != "Blink"@,
        "smpte"@ != "blink"@,
        "smpte"@ != "Gamut"@,
        "smpte"@ != "gamut"@,
        "Snow"@ != "snow"@,
        "Snow"@ != "Blue"@,
        "Snow"@ != "blue"@,
        "Snow"@ != "Ball"@,
        "Snow"@ != "ball"@,
        "snow"@ != "Blue"@,
        "snow"@ != "blue"@,
        "snow"@ != "Ball"@,
        "snow"@ != "ball"@,
        "Black"@ != "black"@,
        "Black"@ != "White"@,
        "Black"@ != "white"@,
        "Black"@ != "Green"@,
        "Black"@ != "green"@,
        "Black"@ != "Blink"@,
        "Black"@ != "blink"@,
        "Black"@ != "Gamut"@,
        "Black"@ != "gamut"@,
        "black"@ != "White"@,
        "black"@ != "white"@,
        "black"@ != "Green"@,
        "black"@ != "green"@,
        "black"@ != "Blink"@,
        "black"@ != "blink"@,
        "black"@ != "Gamut"@,
        "black"@ != "gamut"@,
        "White"@ != "white"@,
        "White"@ != "Green"@,
        "White"@ != "green"@,
        "White"@ != "Blink"@,
        "White"@ != "blink"@,
        "White"@ != "Gamut"@,
        "White"@ != "gamut"@,
        "white"@ != "Green"@,
        "white"@ != "green"@,
        "white"@ != "Blink"@,
        "white"@ != "blink"@,
        "white"@ != "Gamut"@,
        "white"@ != "gamut"@,
        "Red"@ != "red"@,
        "Red"@ != "Bar"@,
        "Red"@ != "bar"@,
        "red"@ != "Bar"@,
        "red"@ != "bar"@,
        "Green"@ != "green"@,
        "Green"@ != "Blink"@,
        "Green"@ != "blink"@,
        "Green"@ != "Gamut"@,
        "Green"@ != "gamut"@,
        "green"@ != "Blink"@,
        "green"@ != "blink"@,
        "green"@ != "Gamut"@,
        "green"@ != "gamut"@,
        "Blue"@ != "blue"@,
        "Blue"@ != "Ball"@,
        "Blue"@ != "ball"@,
        "blue"@ != "Ball"@,
        "blue"@ != "ball"@,
        "Checkers1"@ != "Checkers2"@,
        "Checkers1"@ != "Checkers4"@,
        "Checkers1"@ != "Checkers8"@,
        "Checkers1"@ != "ZonePlate"@,
        "checkers-1"@ != "checkers-2"@,
        "checkers-1"@ != "checkers-4"@,
        "checkers-1"@ != "checkers-8"@,
        "checkers-1"@ != "zone-plate"@,
        "checkers-1"@ != "SolidColor"@,
        "checkers-1"@ != "SmpteRp219"@,
        "Checkers2"@ != "Checkers4"@,
        "Checkers2"@ != "Checkers8"@,
        "Checkers2"@ != "ZonePlate"@,
        "checkers-2"@ != "checkers-4"@,
        "checkers-2"@ != "checkers-8"@,
        "checkers-2"@ != "zone-plate"@,
        "checkers-2"@ != "SolidColor"@,
        "checkers-2"@ != "SmpteRp219"@,
        "Checkers4"@ != "Checkers8"@,
        "Checkers4"@ != "ZonePlate"@,
        "checkers-4"@ != "checkers-8"@,
        "checkers-4"@ != "zone-plate"@,
        "checkers-4"@ != "SolidColor"@,
        "checkers-4"@ != "SmpteRp219"@,
        "Checkers8"@ != "ZonePlate"@,
        "checkers-8"@ != "zone-plate"@,
        "checkers-8"@ != "SolidColor"@,
        "checkers-8"@ != "SmpteRp219"@,
        "Circular"@ != "circular"@,
        "Circular"@ != "Smpte100"@,
        "Circular"@ != "smpte100"@,
        "Circular"@ != "Pinwheel"@,
        "Circular"@ != "pinwheel"@,
        "Circular"@ != "Gradient"@,
        "Circular"@ != "gradient"@,
        "circular"@ != "Smpte100"@,
        "circular"@ != "smpte100"@,
        "circular"@ != "Pinwheel"@,
        "circular"@ != "pinwheel"@,
        "circular"@ != "Gradient"@,
        "circular"@ != "gradient"@,
        "Blink"@ != "blink"@,
        "Blink"@ != "Gamut"@,
        "Blink"@ != "gamut"@,
        "blink"@ != "Gamut"@,
        "blink"@ != "gamut"@,
        "Smpte75"@ != "smpte75"@,
        "zone-plate"@ != "SolidColor"@,
        "zone-plate"@ != "SmpteRp219"@,
        "Gamut"@ != "gamut"@,
        "SolidColor"@ != "SmpteRp219"@,
        "Ball"@ != "ball"@,
        "Smpte100"@ != "smpte100"@,
        "Smpte100"@ != "Pinwheel"@,
        "Smpte100"@ != "pinwheel"@,
        "Smpte100"@ != "Gradient"@,
        "Smpte100"@ != "gradient"@,
        "smpte100"@ != "Pinwheel"@,
        "smpte100"@ != "pinwheel"@,
        "smpte100"@ != "Gradient"@,
        "smpte100"@ != "gradient"@,
        "Bar"@ != "bar"@,
        "Pinwheel"@ != "pinwheel"@,
        "Pinwheel"@ != "Gradient"@,
        "Pinwheel"@ != "gradient"@,
        "pinwheel"@ != "Gradient"@,
        "pinwheel"@ != "gradient"@,
        "Spokes"@ != "spokes"@,
        "Spokes"@ != "Colors"@,
        "Spokes"@ != "colors"@,
        "spokes"@ != "Colors"@,
        "spokes"@ != "colors"@,
        "Gradient"@ != "gradient"@,
        "Colors"@ != "colors"@,
{
    reveal_strlit("Smpte");
    reveal_strlit("smpte");
    reveal_strlit("Snow");
    reveal_strlit("snow");
    reveal_strlit("Black");
    reveal_strlit("black");
    reveal_strlit("White");
    reveal_strlit("white");
    reveal_strlit("Red");
    reveal_strlit("red");
    reveal_strlit("Green");
    reveal_strlit("green");
    reveal_strlit("Blue");
    reveal_strlit("blue");
    reveal_strlit("Checkers1");
    reveal_strlit("checkers-1");
    reveal_strlit("Checkers2");
    reveal_strlit("checkers-2");
    reveal_strlit("Checkers4");
    reveal_strlit("checkers-4");
    reveal_strlit("Checkers8");
    reveal_strlit("checkers-8");
    reveal_strlit("Circular");
    reveal_strlit("circular");
    reveal_strlit("Blink");
    reveal_strlit("blink");
    reveal_strlit("Smpte75");
    reveal_strlit("smpte75");
    reveal_strlit("ZonePlate");
    reveal_strlit("zone-plate");
    reveal_strlit("Gamut");
    reveal_strlit("gamut");
    reveal_strlit("ChromaZonePlate");
    reveal_strlit("chroma-zone-plate");
    reveal_strlit("SolidColor");
    reveal_strlit("solid-color");
    reveal_strlit("Ball");
    reveal_strlit("ball");
    reveal_strlit("Smpte100");
    reveal_strlit("smpte100");
    reveal_strlit("Bar");
    reveal_strlit("bar");
    reveal_strlit("Pinwheel");
    reveal_strlit("pinwheel");
    reveal_strlit("Spokes");
    reveal_strlit("spokes");
    reveal_strlit("Gradient");
    reveal_strlit("gradient");
    reveal_strlit("Colors");
    reveal_strlit("colors");
    reveal_strlit("SmpteRp219");
    reveal_strlit("smpte-rp-219");
    assert("Smpte"@[0] != "smpte"@[0]);
    assert("Smpte"@[0] != "Black"@[0]);
    assert("Smpte"@[0] != "black"@[0]);
    assert("Smpte"@[0] != "White"@[0]);
    assert("Smpte"@[0] != "white"@[0]);
    assert("Smpte"@[0] != "Green"@[0]);
    assert("Smpte"@[0] != "green"@[0]);
    assert("Smpte"@[0] != "Blink"@[0]);
    assert("Smpte"@[0] != "blink"@[0]);
    assert("Smpte"@[0] != "Gamut"@[0]);
    assert("Smpte"@[0] != "gamut"@[0]);
    assert("smpte"@[0] != "Black"@[0]);
    assert("smpte"@[0] != "black"@[0]);
    assert("smpte"@[0] != "White"@[0]);
    assert("smpte"@[0] != "white"@[0]);
    assert("smpte"@[0] != "Green"@[0]);
    assert("smpte"@[0] != "green"@[0]);
    assert("smpte"@[0] != "Blink"@[0]);
    assert("smpte"@[0] != "blink"@[0]);
    assert("smpte"@[0] != "Gamut"@[0]);
    assert("smpte"@[0] != "gamut"@[0]);
    assert("Snow"@[0] != "snow"@[0]);
    assert("Snow"@[0] != "Blue"@[0]);
    assert("Snow"@[0] != "blue"@[0]);
    assert("Snow"@[0] != "Ball"@[0]);
    assert("Snow"@[0] != "ball"@[0]);
    assert("snow"@[0] != "Blue"@[0]);
    assert("snow"@[0] != "blue"@[0]);
    assert("snow"@[0] != "Ball"@[0]);
    assert("snow"@[0] != "ball"@[0]);
    assert("Black"@[0] != "black"@[0]);
    assert("Black"@[0] != "White"@[0]);
    assert("Black"@[0] != "white"@[0]);
    assert("Black"@[0] != "Green"@[0]);
    assert("Black"@[0] != "green"@[0]);
    assert("Black"@[2] != "Blink"@[2]);
    assert("Black"@[0] != "blink"@[0]);
    assert("Black"@[0] != "Gamut"@[0]);
    assert("Black"@[0] != "gamut"@[0]);
    assert("black"@[0] != "White"@[0]);
    assert("black"@[0] != "white"@[0]);
    assert("black"@[0] != "Green"@[0]);
    assert("black"@[0] != "green"@[0]);
    assert("black"@[0] != "Blink"@[0]);
    assert("black"@[2] != "blink"@[2]);
    assert("black"@[0] != "Gamut"@[0]);
    assert("black"@[0] != "gamut"@[0]);
    assert("White"@[0] != "white"@[0]);
    assert("White"@[0] != "Green"@[0]);
    assert("White"@[0] != "green"@[0]);
    assert("White"@[0] != "Blink"@[0]);
    assert("White"@[0] != "blink"@[0]);
    assert("White"@[0] != "Gamut"@[0]);
    assert("White"@[0] != "gamut"@[0]);
    assert("white"@[0] != "Green"@[0]);
    assert("white"@[0] != "green"@[0]);
    assert("white"@[0] != "Blink"@[0]);
    assert("white"@[0] != "blink"@[0]);
    assert("white"@[0] != "Gamut"@[0]);
    assert("white"@[0] != "gamut"@[0]);
    assert("Red"@[0] != "red"@[0]);
    assert("Red"@[0] != "Bar"@[0]);
    assert("Red"@[0] != "bar"@[0]);
    assert("red"@[0] != "Bar"@[0]);
    assert("red"@[0] != "bar"@[0]);
    assert("Green"@[0] != "green"@[0]);
    assert("Green"@[0] != "Blink"@[0]);
    assert("Green"@[0] != "blink"@[0]);
    assert("Green"@[1] != "Gamut"@[1]);
    assert("Green"@[0] != "gamut"@[0]);
    assert("green"@[0] != "Blink"@[0]);
    assert("green"@[0] != "blink"@[0]);
    assert("green"@[0] != "Gamut"@[0]);
    assert("green"@[1] != "gamut"@[1]);
    assert("Blue"@[0] != "blue"@[0]);
    assert("Blue"@[1] != "Ball"@[1]);
    assert("Blue"@[0] != "ball"@[0]);
    assert("blue"@[0] != "Ball"@[0]);
    assert("blue"@[1] != "ball"@[1]);
    assert("Checkers1"@[8] != "Checkers2"@[8]);
    assert("Checkers1"@[8] != "Checkers4"@[8]);
    assert("Checkers1"@[8] != "Checkers8"@[8]);
    assert("Checkers1"@[0] != "ZonePlate"@[0]);
    assert("checkers-1"@[9] != "checkers-2"@[9]);
    assert("checkers-1"@[9] != "checkers-4"@[9]);
    assert("checkers-1"@[9] != "checkers-8"@[9]);
    assert("checkers-1"@[0] != "zone-plate"@[0]);
    assert("checkers-1"@[0] != "SolidColor"@[0]);
    assert("checkers-1"@[0] != "SmpteRp219"@[0]);
    assert("Checkers2"@[8] != "Checkers4"@[8]);
    assert("Checkers2"@[8] != "Checkers8"@[8]);
    assert("Checkers2"@[0] != "ZonePlate"@[0]);
    assert("checkers-2"@[9] != "checkers-4"@[9]);
    assert("checkers-2"@[9] != "checkers-8"@[9]);
    assert("checkers-2"@[0] != "zone-plate"@[0]);
    assert("checkers-2"@[0] != "SolidColor"@[0]);
    assert("checkers-2"@[0] != "SmpteRp219"@[0]);
    assert("Checkers4"@[8] != "Checkers8"@[8]);
    assert("Checkers4"@[0] != "ZonePlate"@[0]);
    assert("checkers-4"@[9] != "checkers-8"@[9]);
    assert("checkers-4"@[0] != "zone-plate"@[0]);
    assert("checkers-4"@[0] != "SolidColor"@[0]);
    assert("checkers-4"@[0] != "SmpteRp219"@[0]);
    assert("Checkers8"@[0] != "ZonePlate"@[0]);
    assert("checkers-8"@[0] != "zone-plate"@[0]);
    assert("checkers-8"@[0] != "SolidColor"@[0]);
    assert("checkers-8"@[0] != "SmpteRp219"@[0]);
    assert("Circular"@[0] != "circular"@[0]);
    assert("Circular"@[0] != "Smpte100"@[0]);
    assert("Circular"@[0] != "smpte100"@[0]);
    assert("Circular"@[0] != "Pinwheel"@[0]);
    assert("Circular"@[0] != "pinwheel"@[0]);
    assert("Circular"@[0] != "Gradient"@[0]);
    assert("Circular"@[0] != "gradient"@[0]);
    assert("circular"@[0] != "Smpte100"@[0]);
    assert("circular"@[0] != "smpte100"@[0]);
    assert("circular"@[0] != "Pinwheel"@[0]);
    assert("circular"@[0] != "pinwheel"@[0]);
    assert("circular"@[0] != "Gradient"@[0]);
    assert("circular"@[0] != "gradient"@[0]);
    assert("Blink"@[0] != "blink"@[0]);
    assert("Blink"@[0] != "Gamut"@[0]);
    assert("Blink"@[0] != "gamut"@[0]);
    assert("blink"@[0] != "Gamut"@[0]);
    assert("blink"@[0] != "gamut"@[0]);
    assert("Smpte75"@[0] != "smpte75"@[0]);
    assert("zone-plate"@[0] != "SolidColor"@[0]);
    assert("zone-plate"@[0] != "SmpteRp219"@[0]);
    assert("Gamut"@[0] != "gamut"@[0]);
    assert("SolidColor"@[1] != "SmpteRp219"@[1]);
    assert("Ball"@[0] != "ball"@[0]);
    assert("Smpte100"@[0] != "smpte100"@[0]);
    assert("Smpte100"@[0] != "Pinwheel"@[0]);
    assert("Smpte100"@[0] != "pinwheel"@[0]);
    assert("Smpte100"@[0] != "Gradient"@[0]);
    assert("Smpte100"@[0] != "gradient"@[0]);
    assert("smpte100"@[0] != "Pinwheel"@[0]);
    assert("smpte100"@[0] != "pinwheel"@[0]);
    assert("smpte100"@[0] != "Gradient"@[0]);
    assert("smpte100"@[0] != "gradient"@[0]);
    assert("Bar"@[0] != "bar"@[0]);
    assert("Pinwheel"@[0] != "pinwheel"@[0]);
    assert("Pinwheel"@[0] != "Gradient"@[0]);
    assert("Pinwheel"@[0] != "gradient"@[0]);
    assert("pinwheel"@[0] != "Gradient"@[0]);
    assert("pinwheel"@[0] != "gradient"@[0]);
    assert("Spokes"@[0] != "spokes"@[0]);
    assert("Spokes"@[0] != "Colors"@[0]);
    assert("Spokes"@[0] != "colors"@[0]);
    assert("spokes"@[0] != "Colors"@[0]);
    assert("spokes"@[0] != "colors"@[0]);
    assert("Gradient"@[0] != "gradient"@[0]);
    assert("Colors"@[0] != "colors"@[0]);
}

/// The splash patterns go by these names and no others, and the name that a
/// pattern is shown by is one of its own.
pub proof fn law_patterns_go_by_these_names(name: Seq<char>, value: SplashPattern)
    ensures
        splash_named("Smpte"@) == Some(SplashPattern::Smpte),
        splash_named("smpte"@) == Some(SplashPattern::Smpte),
        splash_named("Snow"@) == Some(SplashPattern::Snow),
        splash_named("snow"@) == Some(SplashPattern::Snow),
        splash_named("Black"@) == Some(SplashPattern::Black),
        splash_named("black"@) == Some(SplashPattern::Black),
        splash_named("White"@) == Some(SplashPattern::White),
        splash_named("white"@) == Some(SplashPattern::White),
        splash_named("Red"@) == Some(SplashPattern::Red),
        splash_named("red"@) == Some(SplashPattern::Red),
        splash_named("Green"@) == Some(SplashPattern::Green),
        splash_named("green"@) == Some(SplashPattern::Green),
        splash_named("Blue"@) == Some(SplashPattern::Blue),
        splash_named("blue"@) == Some(SplashPattern::Blue),
        splash_named("Checkers1"@) == Some(SplashPattern::Checkers1),
        splash_named("checkers-1"@) == Some(SplashPattern::Checkers1),
        splash_named("Checkers2"@) == Some(SplashPattern::Checkers2),
        splash_named("checkers-2"@) == Some(SplashPattern::Checkers2),
        splash_named("Checkers4"@) == Some(SplashPattern::Checkers4),
        splash_named("checkers-4"@) == Some(SplashPattern::Checkers4),
        splash_named("Checkers8"@) == Some(SplashPattern::Checkers8),
        splash_named("checkers-8"@) == Some(SplashPattern::Checkers8),
        splash_named("Circular"@) == Some(SplashPattern::Circular),
        splash_named("circular"@) == Some(SplashPattern::Circular),
        splash_named("Blink"@) == Some(SplashPattern::Blink),
        splash_named("blink"@) == Some(SplashPattern::Blink),
        splash_named("Smpte75"@) == Some(SplashPattern::Smpte75),
        splash_named("smpte75"@) == Some(SplashPattern::Smpte75),
        splash_named("ZonePlate"@) == Some(SplashPattern::ZonePlate),
        splash_named("zone-plate"@) == Some(SplashPattern::ZonePlate),
        splash_named("Gamut"@) == Some(SplashPattern::Gamut),
        splash_named("gamut"@) == Some(SplashPattern::Gamut),
        splash_named("ChromaZonePlate"@) == Some(SplashPattern::ChromaZonePlate),
        splash_named("chroma-zone-plate"@) == Some(SplashPattern::ChromaZonePlate),
        splash_named("SolidColor"@) == Some(SplashPattern::SolidColor),
        splash_named("solid-color"@) == Some(SplashPattern::SolidColor),
        splash_named("Ball"@) == Some(SplashPattern::Ball),
        splash_named("ball"@) == Some(SplashPattern::Ball),
        splash_named("Smpte100"@) == Some(SplashPattern::Smpte100),
        splash_named("smpte100"@) == Some(SplashPattern::Smpte100),
        splash_named("Bar"@) == Some(SplashPattern::Bar),
        splash_named("bar"@) == Some(SplashPattern::Bar),
        splash_named("Pinwheel"@) == Some(SplashPattern::Pinwheel),
        splash_named("pinwheel"@) == Some(SplashPattern::Pinwheel),
        splash_named("Spokes"@) == Some(SplashPattern::Spokes),
        splash_named("spokes"@) == Some(SplashPattern::Spokes),
        splash_named("Gradient"@) == Some(SplashPattern::Gradient),
        splash_named("gradient"@) == Some(SplashPattern::Gradient),
        splash_named("Colors"@) == Some(SplashPattern::Colors),
        splash_named("colors"@) == Some(SplashPattern::Colors),
        splash_named("SmpteRp219"@) == Some(SplashPattern::SmpteRp219),
        splash_named("smpte-rp-219"@) == Some(SplashPattern::SmpteRp219),
        splash_named(name) is Some ==> (name == "Smpte"@ || name == "smpte"@ || name == "Snow"@ || name == "snow"@ || name == "Black"@ || name == "black"@ || name == "White"@ || name == "white"@ || name == "Red"@ || name == "red"@ || name == "Green"@ || name == "green"@ || name == "Blue"@ || name == "blue"@ || name == "Checkers1"@ || name == "checkers-1"@ || name == "Checkers2"@ || name == "checkers-2"@ || name == "Checkers4"@ || name == "checkers-4"@ || name == "Checkers8"@ || name == "checkers-8"@ || name == "Circular"@ || name == "circular"@ || name == "Blink"@ || name == "blink"@ || name == "Smpte75"@ || name == "smpte75"@ || name == "ZonePlate"@ || name == "zone-plate"@ || name == "Gamut"@ || name == "gamut"@ || name == "ChromaZonePlate"@ || name == "chroma-zone-plate"@ || name == "SolidColor"@ || name == "solid-color"@ || name == "Ball"@ || name == "ball"@ || name == "Smpte100"@ || name == "smpte100"@ || name == "Bar"@ || name == "bar"@ || name == "Pinwheel"@ || name == "pinwheel"@ || name == "Spokes"@ || name == "spokes"@ || name == "Gradient"@ || name == "gradient"@ || name == "Colors"@ || name == "colors"@ || name == "SmpteRp219"@ || name == "smpte-rp-219"@),
        splash_label(SplashPattern::Smpte) == "smpte"@,
        splash_label(SplashPattern::Snow) == "snow"@,
        splash_label(SplashPattern::Black) == "black"@,
        splash_label(SplashPattern::White) == "white"@,
        splash_label(SplashPattern::Red) == "red"@,
        splash_label(SplashPattern::Green) == "green"@,
        splash_label(SplashPattern::Blue) == "blue"@,
        splash_label(SplashPattern::Checkers1) == "checkers-1"@,
        splash_label(SplashPattern::Checkers2) == "checkers-2"@,
        splash_label(SplashPattern::Checkers4) == "checkers-4"@,
        splash_label(SplashPattern::Checkers8) == "checkers-8"@,
        splash_label(SplashPattern::Circular) == "circular"@,
        splash_label(SplashPattern::Blink) == "blink"@,
        splash_label(SplashPattern::Smpte75) == "smpte75"@,
        splash_label(SplashPattern::ZonePlate) == "zone-plate"@,
        splash_label(SplashPattern::Gamut) == "gamut"@,
        splash_label(SplashPattern::ChromaZonePlate) == "chroma-zone-plate"@,
        splash_label(SplashPattern::SolidColor) == "solid-color"@,
        splash_label(SplashPattern::Ball) == "ball"@,
        splash_label(SplashPattern::Smpte100) == "smpte100"@,
        splash_label(SplashPattern::Bar) == "bar"@,
        splash_label(SplashPattern::Pinwheel) == "pinwheel"@,
        splash_label(SplashPattern::Spokes) == "spokes"@,
        splash_label(SplashPattern::Gradient) == "gradient"@,
        splash_label(SplashPattern::Colors) == "colors"@,
        splash_label(SplashPattern::SmpteRp219) == "smpte-rp-219"@,
        splash_named(splash_label(value)) == Some(value),
{
    lemma_splash_named();
}

proof fn lemma_audio_format_named()
    ensures
        "Mpeg4Generic"@.len() == 12,
        "mpeg4-generic"@.len() == 13,
        "mpeg4_generic"@.len() == 13,
        "mpeg4generic"@.len() == 12,
        "rfc3640"@.len() == 7,
        "aac-hbr"@.len() == 7,
        "generic"@.len() == 7,
        "Latm"@.len() == 4,
        "latm"@.len() == 4,
        "aac"@.len() == 3,
        "passthrough"@.len() == 11,
        "Pcm"@.len() == 3,
        "pcm"@.len() == 3,
        "l16"@.len() == 3,
        "raw"@.len() == 3,
        "All"@.len() == 3,
        "all"@.len() == 3,
        "auto"@.len() == 4,
        "both"@.len() == 4,
        "dual"@.len() == 4,
        "offer_both"@.len() == 10,
        "Mpeg4Generic"@ != "mpeg4generic"@,
        "mpeg4-generic"@ != "mpeg4_generic"@,
        "rfc3640"@ != "aac-hbr"@,
        "rfc3640"@ != "generic"@,
        "aac-hbr"@ != "generic"@,
        "Latm"@ != "latm"@,
        "Latm"@ != "auto"@,
        "Latm"@ != "both"@,
        "Latm"@ != "dual"@,
        "latm"@ != "auto"@,
        "latm"@ != "both"@,
        "latm"@ != "dual"@,
        "aac"@ != "Pcm"@,
        "aac"@ != "pcm"@,
        "aac"@ != "l16"@,
        "aac"@ != "raw"@,
        "aac"@ != "All"@,
        "aac"@ != "all"@,
        "Pcm"@ != "pcm"@,
        "Pcm"@ != "l16"@,
        "Pcm"@ != "raw"@,
        "Pcm"@ != "All"@,
        "Pcm"@ != "all"@,
        "pcm"@ != "l16"@,
        "pcm"@ != "raw"@,
        "pcm"@ != "All"@,
        "pcm"@ != "all"@,
        "l16"@ != "raw"@,
        "l16"@ != "All"@,
        "l16"@ != "all"@,
        "raw"@ != "All"@,
        "raw"@ != "all"@,
        "All"@ != "all"@,
        "auto"@ != "both"@,
        "auto"@ != "dual"@,
        "both"@ != "dual"@,
{
    reveal_strlit("Mpeg4Generic");
    reveal_strlit("mpeg4-generic");
    reveal_strlit("mpeg4_generic");
    reveal_strlit("mpeg4generic");
    reveal_strlit("rfc3640");
    reveal_strlit("aac-hbr");
    reveal_strlit("generic");
    reveal_strlit("Latm");
    reveal_strlit("latm");
    reveal_strlit("aac");
    reveal_strlit("passthrough");
    reveal_strlit("Pcm");
    reveal_strlit("pcm");
    reveal_strlit("l16");
    reveal_strlit("raw");
    reveal_strlit("All");
    reveal_strlit("all");
    reveal_strlit("auto");
    reveal_strlit("both");
    reveal_strlit("dual");
    reveal_strlit("offer_both");
    assert("Mpeg4Generic"@[0] != "mpeg4generic"@[0]);
    assert("mpeg4-generic"@[5] != "mpeg4_generic"@[5]);
    assert("rfc3640"@[0] != "aac-hbr"@[0]);
    assert("rfc3640"@[0] != "generic"@[0]);
    assert("aac-hbr"@[0] != "generic"@[0]);
    assert("Latm"@[0] != "latm"@[0]);
    assert("Latm"@[0] != "auto"@[0]);
    assert("Latm"@[0] != "both"@[0]);
    assert("Latm"@[0] != "dual"@[0]);
    assert("latm"@[0] != "auto"@[0]);
    assert("latm"@[0] != "both"@[0]);
    assert("latm"@[0] != "dual"@[0]);
    assert("aac"@[0] != "Pcm"@[0]);
    assert("aac"@[0] != "pcm"@[0]);
    assert("aac"@[0] != "l16"@[0]);
    assert("aac"@[0] != "raw"@[0]);
    assert("aac"@[0] != "All"@[0]);
    assert("aac"@[1] != "all"@[1]);
    assert("Pcm"@[0] != "pcm"@[0]);
    assert("Pcm"@[0] != "l16"@[0]);
    assert("Pcm"@[0] != "raw"@[0]);
    assert("Pcm"@[0] != "All"@[0]);
    assert("Pcm"@[0] != "all"@[0]);
    assert("pcm"@[0] != "l16"@[0]);
    assert("pcm"@[0] != "raw"@[0]);
    assert("pcm"@[0] != "All"@[0]);
    assert("pcm"@[0] != "all"@[0]);
    assert("l16"@[0] != "raw"@[0]);
    assert("l16"@[0] != "All"@[0]);
    assert("l16"@[0] != "all"@[0]);
    assert("raw"@[0] != "All"@[0]);
    assert("raw"@[0] != "all"@[0]);
    assert("All"@[0] != "all"@[0]);
    assert("auto"@[0] != "both"@[0]);
    assert("auto"@[0] != "dual"@[0]);
    assert("both"@[0] != "dual"@[0]);
}

/// The audio formats go by these names in a configuration and no others, and the
/// name that a format is shown by is one of its own.
pub proof fn law_audio_formats_go_by_these_names(name: Seq<char>, value: AudioFormat)
    ensures
        audio_format_named("Mpeg4Generic"@) == Some(AudioFormat::Mpeg4Generic),
        audio_format_named("mpeg4-generic"@) == Some(AudioFormat::Mpeg4Generic),
        audio_format_named("mpeg4_generic"@) == Some(AudioFormat::Mpeg4Generic),
        audio_format_named("mpeg4generic"@) == Some(AudioFormat::Mpeg4Generic),
        audio_format_named("rfc3640"@) == Some(AudioFormat::Mpeg4Generic),
        audio_format_named("aac-hbr"@) == Some(AudioFormat::Mpeg4Generic),
        audio_format_named("generic"@) == Some(AudioFormat::Mpeg4Generic),
        audio_format_named("Latm"@) == Some(AudioFormat::Latm),
        audio_format_named("latm"@) == Some(AudioFormat::Latm),
        audio_format_named("aac"@) == Some(AudioFormat::Latm),
        audio_format_named("passthrough"@) == Some(AudioFormat::Latm),
        audio_format_named("Pcm"@) == Some(AudioFormat::Pcm),
        audio_format_named("pcm"@) == Some(AudioFormat::Pcm),
        audio_format_named("l16"@) == Some(AudioFormat::Pcm),
        audio_format_named("raw"@) == Some(AudioFormat::Pcm),
        audio_format_named("All"@) == Some(AudioFormat::All),
        audio_format_named("all"@) == Some(AudioFormat::All),
        audio_format_named("auto"@) == Some(AudioFormat::All),
        audio_format_named("both"@) == Some(AudioFormat::All),
        audio_format_named("dual"@) == Some(AudioFormat::All),
        audio_format_named("offer_both"@) == Some(AudioFormat::All),
        audio_format_named(name) is Some ==> (name == "Mpeg4Generic"@ || name == "mpeg4-generic"@ || name == "mpeg4_generic"@ || name == "mpeg4generic"@ || name == "rfc3640"@ || name == "aac-hbr"@ || name == "generic"@ || name == "Latm"@ || name == "latm"@ || name == "aac"@ || name == "passthrough"@ || name == "Pcm"@ || name == "pcm"@ || name == "l16"@ || name == "raw"@ || name == "All"@ || name == "all"@ || name == "auto"@ || name == "both"@ || name == "dual"@ || name == "offer_both"@),
        audio_format_label(AudioFormat::Mpeg4Generic) == "mpeg4-generic"@,
        audio_format_label(AudioFormat::Latm) == "latm"@,
        audio_format_label(AudioFormat::Pcm) == "pcm"@,
        audio_format_label(AudioFormat::All) == "all"@,
        audio_format_named(audio_format_label(value)) == Some(value),
{
    lemma_audio_format_named();
}

proof fn lemma_audio_format_asked()
    ensures
        "mpeg4-generic"@.len() == 13,
        "mpeg4_generic"@.len() == 13,
        "mpeg4generic"@.len() == 12,
        "rfc3640"@.len() == 7,
        "aac-hbr"@.len() == 7,
        "generic"@.len() == 7,
        "latm"@.len() == 4,
        "aac"@.len() == 3,
        "passthrough"@.len() == 11,
        "pcm"@.len() == 3,
        "l16"@.len() == 3,
        "raw"@.len() == 3,
        "all"@.len() == 3,
        "auto"@.len() == 4,
        "both"@.len() == 4,
        "dual"@.len() == 4,
        "offer_both"@.len() == 10,
        "mpeg4-generic"@ != "mpeg4_generic"@,
        "rfc3640"@ != "aac-hbr"@,
        "rfc3640"@ != "generic"@,
        "aac-hbr"@ != "generic"@,
        "latm"@ != "auto"@,
        "latm"@ != "both"@,
        "latm"@ != "dual"@,
        "aac"@ != "pcm"@,
        "aac"@ != "l16"@,
        "aac"@ != "raw"@,
        "aac"@ != "all"@,
        "pcm"@ != "l16"@,
        "pcm"@ != "raw"@,
        "pcm"@ != "all"@,
        "l16"@ != "raw"@,
        "l16"@ != "all"@,
        "raw"@ != "all"@,
        "auto"@ != "both"@,
        "auto"@ != "dual"@,
        "both"@ != "dual"@,
{
    reveal_strlit("mpeg4-generic");
    reveal_strlit("mpeg4_generic");
    reveal_strlit("mpeg4generic");
    reveal_strlit("rfc3640");
    reveal_strlit("aac-hbr");
    reveal_strlit("generic");
    reveal_strlit("latm");
    reveal_strlit("aac");
    reveal_strlit("passthrough");
    reveal_strlit("pcm");
    reveal_strlit("l16");
    reveal_strlit("raw");
    reveal_strlit("all");
    reveal_strlit("auto");
    reveal_strlit("both");
    reveal_strlit("dual");
    reveal_strlit("offer_both");
    assert("mpeg4-generic"@[5] != "mpeg4_generic"@[5]);
    assert("rfc3640"@[0] != "aac-hbr"@[0]);
    assert("rfc3640"@[0] != "generic"@[0]);
    assert("aac-hbr"@[0] != "generic"@[0]);
    assert("latm"@[0] != "auto"@[0]);
    assert("latm"@[0] != "both"@[0]);
    assert("latm"@[0] != "dual"@[0]);
    assert("aac"@[0] != "pcm"@[0]);
    assert("aac"@[0] != "l16"@[0]);
    assert("aac"@[0] != "raw"@[0]);
    assert("aac"@[1] != "all"@[1]);
    assert("pcm"@[0] != "l16"@[0]);
    assert("pcm"@[0] != "raw"@[0]);
    assert("pcm"@[0] != "all"@[0]);
    assert("l16"@[0] != "raw"@[0]);
    assert("l16"@[0] != "all"@[0]);
    assert("raw"@[0] != "all"@[0]);
    assert("auto"@[0] != "both"@[0]);
    assert("auto"@[0] != "dual"@[0]);
    assert("both"@[0] != "dual"@[0]);
}

/// The audio formats go by these names in a request and no others, and the name
/// that a format is shown by is one of them.
pub proof fn law_audio_formats_are_asked_for_by_these_names(name: Seq<char>, value: AudioFormat)
    ensures
        audio_format_asked("mpeg4-generic"@) == Some(AudioFormat::Mpeg4Generic),
        audio_format_asked("mpeg4_generic"@) == Some(AudioFormat::Mpeg4Generic),
        audio_format_asked("mpeg4generic"@) == Some(AudioFormat::Mpeg4Generic),
        audio_format_asked("rfc3640"@) == Some(AudioFormat::Mpeg4Generic),
        audio_format_asked("aac-hbr"@) == Some(AudioFormat::Mpeg4Generic),
        audio_format_asked("generic"@) == Some(AudioFormat::Mpeg4Generic),
        audio_format_asked("latm"@) == Some(AudioFormat::Latm),
        audio_format_asked("aac"@) == Some(AudioFormat::Latm),
        audio_format_asked("passthrough"@) == Some(AudioFormat::Latm),
        audio_format_asked("pcm"@) == Some(AudioFormat::Pcm),
        audio_format_asked("l16"@) == Some(AudioFormat::Pcm),
        audio_format_asked("raw"@) == Some(AudioFormat::Pcm),
        audio_format_asked("all"@) == Some(AudioFormat::All),
        audio_format_asked("auto"@) == Some(AudioFormat::All),
        audio_format_asked("both"@) == Some(AudioFormat::All),
        audio_format_asked("dual"@) == Some(AudioFormat::All),
        audio_format_asked("offer_both"@) == Some(AudioFormat::All),
        audio_format_asked(name) is Some ==> (name == "mpeg4-generic"@ || name == "mpeg4_generic"@ || name == "mpeg4generic"@ || name == "rfc3640"@ || name == "aac-hbr"@ || name == "generic"@ || name == "latm"@ || name == "aac"@ || name == "passthrough"@ || name == "pcm"@ || name == "l16"@ || name == "raw"@ || name == "all"@ || name == "auto"@ || name == "both"@ || name == "dual"@ || name == "offer_both"@),
        audio_format_label(AudioFormat::Mpeg4Generic) == "mpeg4-generic"@,
        audio_format_label(AudioFormat::Latm) == "latm"@,
        audio_format_label(AudioFormat::Pcm) == "pcm"@,
        audio_format_label(AudioFormat::All) == "all"@,
        audio_format_asked(audio_format_label(value)) == Some(value),
{
    lemma_audio_format_asked();
}

proof fn lemma_camera_key_named()
    ensures
        "name"@.len() == 4,
        "address"@.len() == 7,
        "uid"@.len() == 3,
        "username"@.len() == 8,
        "password"@.len() == 8,
        "pass"@.len() == 4,
        "stream"@.len() == 6,
        "permitted_users"@.len() == 15,
        "channel_id"@.len() == 10,
        "channel"@.len() == 7,
        "mqtt"@.len() == 4,
        "pause"@.len() == 5,
        "discovery"@.len() == 9,
        "max_encryption"@.len() == 14,
        "strict"@.len() == 6,
        "print_format"@.len() == 12,
        "print"@.len() == 5,
        "update_time"@.len() == 11,
        "time"@.len() == 4,
        "buffer_duration"@.len() == 15,
        "duration"@.len() == 8,
        "buffer"@.len() == 6,
        "enabled"@.len() == 7,
        "enable"@.len() == 6,
        "debug"@.len() == 5,
        "verbose"@.len() == 7,
        "use_splash"@.len() == 10,
        "splash"@.len() == 6,
        "splash_pattern"@.len() == 14,
        "pattern"@.len() == 7,
        "audio_format"@.len() == 12,
        "audio"@.len() == 5,
        "aud_format"@.len() == 10,
        "max_discovery_retries"@.len() == 21,
        "retries"@.len() == 7,
        "max_retries"@.len() == 11,
        "push_notifications"@.len() == 18,
        "push"@.len() == 4,
        "push_noti"@.len() == 9,
        "idle_disconnect"@.len() == 15,
        "idle"@.len() == 4,
        "idle_disc"@.len() == 9,
        "max_fps"@.len() == 7,
        "fps_limit"@.len() == 9,
        "compat"@.len() == 6,
        "profile"@.len() == 7,
        "tuned_for"@.len() == 9,
        "onvif"@.len() == 5,
        "name"@ != "pass"@,
        "name"@ != "mqtt"@,
        "name"@ != "time"@,
        "name"@ != "push"@,
        "name"@ != "idle"@,
        "address"@ != "channel"@,
        "address"@ != "enabled"@,
        "address"@ != "verbose"@,
        "address"@ != "pattern"@,
        "address"@ != "retries"@,
        "address"@ != "max_fps"@,
        "address"@ != "profile"@,
        "username"@ != "password"@,
        "username"@ != "duration"@,
        "password"@ != "duration"@,
        "pass"@ != "mqtt"@,
        "pass"@ != "time"@,
        "pass"@ != "push"@,
        "pass"@ != "idle"@,
        "stream"@ != "strict"@,
        "stream"@ != "buffer"@,
        "stream"@ != "enable"@,
        "stream"@ != "splash"@,
        "stream"@ != "compat"@,
        "permitted_users"@ != "buffer_duration"@,
        "permitted_users"@ != "idle_disconnect"@,
        "channel_id"@ != "use_splash"@,
        "channel_id"@ != "aud_format"@,
        "channel"@ != "enabled"@,
        "channel"@ != "verbose"@,
        "channel"@ != "pattern"@,
        "channel"@ != "retries"@,
        "channel"@ != "max_fps"@,
        "channel"@ != "profile"@,
        "mqtt"@ != "time"@,
        "mqtt"@ != "push"@,
        "mqtt"@ != "idle"@,
        "pause"@ != "print"@,
        "pause"@ != "debug"@,
        "pause"@ != "audio"@,
        "pause"@ != "onvif"@,
        "discovery"@ != "push_noti"@,
        "discovery"@ != "idle_disc"@,
        "discovery"@ != "fps_limit"@,
        "discovery"@ != "tuned_for"@,
        "max_encryption"@ != "splash_pattern"@,
        "strict"@ != "buffer"@,
        "strict"@ != "enable"@,
        "strict"@ != "splash"@,
        "strict"@ != "compat"@,
        "print_format"@ != "audio_format"@,
        "print"@ != "debug"@,
        "print"@ != "audio"@,
        "print"@ != "onvif"@,
        "update_time"@ != "max_retries"@,
        "time"@ != "push"@,
        "time"@ != "idle"@,
        "buffer_duration"@ != "idle_disconnect"@,
        "buffer"@ != "enable"@,
        "buffer"@ != "splash"@,
        "buffer"@ != "compat"@,
        "enabled"@ != "verbose"@,
        "enabled"@ != "pattern"@,
        "enabled"@ != "retries"@,
        "enabled"@ != "max_fps"@,
        "enabled"@ != "profile"@,
        "enable"@ != "splash"@,
        "enable"@ != "compat"@,
        "debug"@ != "audio"@,
        "debug"@ != "onvif"@,
        "verbose"@ != "pattern"@,
        "verbose"@ != "retries"@,
        "verbose"@ != "max_fps"@,
        "verbose"@ != "profile"@,
        "use_splash"@ != "aud_format"@,
        "splash"@ != "compat"@,
        "pattern"@ != "retries"@,
        "pattern"@ != "max_fps"@,
        "pattern"@ != "profile"@,
        "audio"@ != "onvif"@,
        "retries"@ != "max_fps"@,
        "retries"@ != "profile"@,
        "push"@ != "idle"@,
        "push_noti"@ != "idle_disc"@,
        "push_noti"@ != "fps_limit"@,
        "push_noti"@ != "tuned_for"@,
        "idle_disc"@ != "fps_limit"@,
        "idle_disc"@ != "tuned_for"@,
        "max_fps"@ != "profile"@,
        "fps_limit"@ != "tuned_for"@,
{
    reveal_strlit("name");
    reveal_strlit("address");
    reveal_strlit("uid");
    reveal_strlit("username");
    reveal_strlit("password");
    reveal_strlit("pass");
    reveal_strlit("stream");
    reveal_strlit("permitted_users");
    reveal_strlit("channel_id");
    reveal_strlit("channel");
    reveal_strlit("mqtt");
    reveal_strlit("pause");
    reveal_strlit("discovery");
    reveal_strlit("max_encryption");
    reveal_strlit("strict");
    reveal_strlit("print_format");
    reveal_strlit("print");
    reveal_strlit("update_time");
    reveal_strlit("time");
    reveal_strlit("buffer_duration");
    reveal_strlit("duration");
    reveal_strlit("buffer");
    reveal_strlit("enabled");
    reveal_strlit("enable");
    reveal_strlit("debug");
    reveal_strlit("verbose");
    reveal_strlit("use_splash");
    reveal_strlit("splash");
    reveal_strlit("splash_pattern");
    reveal_strlit("pattern");
    reveal_strlit("audio_format");
    reveal_strlit("audio");
    reveal_strlit("aud_format");
    reveal_strlit("max_discovery_retries");
    reveal_strlit("retries");
    reveal_strlit("max_retries");
    reveal_strlit("push_notifications");
    reveal_strlit("push");
    reveal_strlit("push_noti");
    reveal_strlit("idle_disconnect");
    reveal_strlit("idle");
    reveal_strlit("idle_disc");
    reveal_strlit("max_fps");
    reveal_strlit("fps_limit");
    reveal_strlit("compat");
    reveal_strlit("profile");
    reveal_strlit("tuned_for");
    reveal_strlit("onvif");
    assert("name"@[0] != "pass"@[0]);
    assert("name"@[0] != "mqtt"@[0]);
    assert("name"@[0] != "time"@[0]);
    assert("name"@[0] != "push"@[0]);
    assert("name"@[0] != "idle"@[0]);
    assert("address"@[0] != "channel"@[0]);
    assert("address"@[0] != "enabled"@[0]);
    assert("address"@[0] != "verbose"@[0]);
    assert("address"@[0] != "pattern"@[0]);
    assert("address"@[0] != "retries"@[0]);
    assert("address"@[0] != "max_fps"@[0]);
    assert("address"@[0] != "profile"@[0]);
    assert("username"@[0] != "password"@[0]);
    assert("username"@[0] != "duration"@[0]);
    assert("password"@[0] != "duration"@[0]);
    assert("pass"@[0] != "mqtt"@[0]);
    assert("pass"@[0] != "time"@[0]);
    assert("pass"@[1] != "push"@[1]);
    assert("pass"@[0] != "idle"@[0]);
    assert("stream"@[3] != "strict"@[3]);
    assert("stream"@[0] != "buffer"@[0]);
    assert("stream"@[0] != "enable"@[0]);
    assert("stream"@[1] != "splash"@[1]);
    assert("stream"@[0] != "compat"@[0]);
    assert("permitted_users"@[0] != "buffer_duration"@[0]);
    assert("permitted_users"@[0] != "idle_disconnect"@[0]);
    assert("channel_id"@[0] != "use_splash"@[0]);
    assert("channel_id"@[0] != "aud_format"@[0]);
    assert("channel"@[0] != "enabled"@[0]);
    assert("channel"@[0] != "verbose"@[0]);
    assert("channel"@[0] != "pattern"@[0]);
    assert("channel"@[0] != "retries"@[0]);
    assert("channel"@[0] != "max_fps"@[0]);
    assert("channel"@[0] != "profile"@[0]);
    assert("mqtt"@[0] != "time"@[0]);
    assert("mqtt"@[0] != "push"@[0]);
    assert("mqtt"@[0] != "idle"@[0]);
    assert("pause"@[1] != "print"@[1]);
    assert("pause"@[0] != "debug"@[0]);
    assert("pause"@[0] != "audio"@[0]);
    assert("pause"@[0] != "onvif"@[0]);
    assert("discovery"@[0] != "push_noti"@[0]);
    assert("discovery"@[0] != "idle_disc"@[0]);
    assert("discovery"@[0] != "fps_limit"@[0]);
    assert("discovery"@[0] != "tuned_for"@[0]);
    assert("max_encryption"@[0] != "splash_pattern"@[0]);
    assert("strict"@[0] != "buffer"@[0]);
    assert("strict"@[0] != "enable"@[0]);
    assert("strict"@[1] != "splash"@[1]);
    assert("strict"@[0] != "compat"@[0]);
    assert("print_format"@[0] != "audio_format"@[0]);
    assert("print"@[0] != "debug"@[0]);
    assert("print"@[0] != "audio"@[0]);
    assert("print"@[0] != "onvif"@[0]);
    assert("update_time"@[0] != "max_retries"@[0]);
    assert("time"@[0] != "push"@[0]);
    assert("time"@[0] != "idle"@[0]);
    assert("buffer_duration"@[0] != "idle_disconnect"@[0]);
    assert("buffer"@[0] != "enable"@[0]);
    assert("buffer"@[0] != "splash"@[0]);
    assert("buffer"@[0] != "compat"@[0]);
    assert("enabled"@[0] != "verbose"@[0]);
    assert("enabled"@[0] != "pattern"@[0]);
    assert("enabled"@[0] != "retries"@[0]);
    assert("enabled"@[0] != "max_fps"@[0]);
    assert("enabled"@[0] != "profile"@[0]);
    assert("enable"@[0] != "splash"@[0]);
    assert("enable"@[0] != "compat"@[0]);
    assert("debug"@[0] != "audio"@[0]);
    assert("debug"@[0] != "onvif"@[0]);
    assert("verbose"@[0] != "pattern"@[0]);
    assert("verbose"@[0] != "retries"@[0]);
    assert("verbose"@[0] != "max_fps"@[0]);
    assert("verbose"@[0] != "profile"@[0]);
    assert("use_splash"@[0] != "aud_format"@[0]);
    assert("splash"@[0] != "compat"@[0]);
    assert("pattern"@[0] != "retries"@[0]);
    assert("pattern"@[0] != "max_fps"@[0]);
    assert("pattern"@[1] != "profile"@[1]);
    assert("audio"@[0] != "onvif"@[0]);
    assert("retries"@[0] != "max_fps"@[0]);
    assert("retries"@[0] != "profile"@[0]);
    assert("push"@[0] != "idle"@[0]);
    assert("push_noti"@[0] != "idle_disc"@[0]);
    assert("push_noti"@[0] != "fps_limit"@[0]);
    assert("push_noti"@[0] != "tuned_for"@[0]);
    assert("idle_disc"@[0] != "fps_limit"@[0]);
    assert("idle_disc"@[0] != "tuned_for"@[0]);
    assert("max_fps"@[0] != "profile"@[0]);
    assert("fps_limit"@[0] != "tuned_for"@[0]);
}

/// The settings of a camera go by these names and no others.
pub proof fn law_settings_go_by_these_names(name: Seq<char>)
    ensures
        camera_key_named("name"@) == Some(CameraKey::Name),
        camera_key_named("address"@) == Some(CameraKey::Address),
        camera_key_named("uid"@) == Some(CameraKey::Uid),
        camera_key_named("username"@) == Some(CameraKey::Username),
        camera_key_named("password"@) == Some(CameraKey::Password),
        camera_key_named("pass"@) == Some(CameraKey::Password),
        camera_key_named("stream"@) == Some(CameraKey::Stream),
        camera_key_named("permitted_users"@) == Some(CameraKey::PermittedUsers),
        camera_key_named("channel_id"@) == Some(CameraKey::ChannelId),
        camera_key_named("channel"@) == Some(CameraKey::ChannelId),
        camera_key_named("mqtt"@) == Some(CameraKey::Mqtt),
        camera_key_named("pause"@) == Some(CameraKey::Pause),
        camera_key_named("discovery"@) == Some(CameraKey::Discovery),
        camera_key_named("max_encryption"@) == Some(CameraKey::MaxEncryption),
        camera_key_named("strict"@) == Some(CameraKey::Strict),
        camera_key_named("print_format"@) == Some(CameraKey::PrintFormat),
        camera_key_named("print"@) == Some(CameraKey::PrintFormat),
        camera_key_named("update_time"@) == Some(CameraKey::UpdateTime),
        camera_key_named("time"@) == Some(CameraKey::UpdateTime),
        camera_key_named("buffer_duration"@) == Some(CameraKey::BufferDuration),
        camera_key_named("duration"@) == Some(CameraKey::BufferDuration),
        camera_key_named("buffer"@) == Some(CameraKey::BufferDuration),
        camera_key_named("enabled"@) == Some(CameraKey::Enabled),
        camera_key_named("enable"@) == Some(CameraKey::Enabled),
        camera_key_named("debug"@) == Some(CameraKey::Debug),
        camera_key_named("verbose"@) == Some(CameraKey::Debug),
        camera_key_named("use_splash"@) == Some(CameraKey::UseSplash),
        camera_key_named("splash"@) == Some(CameraKey::UseSplash),
        camera_key_named("splash_pattern"@) == Some(CameraKey::SplashPattern),
        camera_key_named("pattern"@) == Some(CameraKey::SplashPattern),
        camera_key_named("audio_format"@) == Some(CameraKey::AudioFormat),
        camera_key_named("audio"@) == Some(CameraKey::AudioFormat),
        camera_key_named("aud_format"@) == Some(CameraKey::AudioFormat),
        camera_key_named("max_discovery_retries"@) == Some(CameraKey::MaxDiscoveryRetries),
        camera_key_named("retries"@) == Some(CameraKey::MaxDiscoveryRetries),
        camera_key_named("max_retries"@) == Some(CameraKey::MaxDiscoveryRetries),
        camera_key_named("push_notifications"@) == Some(CameraKey::PushNotifications),
        camera_key_named("push"@) == Some(CameraKey::PushNotifications),
        camera_key_named("push_noti"@) == Some(CameraKey::PushNotifications),
        camera_key_named("idle_disconnect"@) == Some(CameraKey::IdleDisconnect),
        camera_key_named("idle"@) == Some(CameraKey::IdleDisconnect),
        camera_key_named("idle_disc"@) == Some(CameraKey::IdleDisconnect),
        camera_key_named("max_fps"@) == Some(CameraKey::MaxFps),
        camera_key_named("fps_limit"@) == Some(CameraKey::MaxFps),
        camera_key_named("compat"@) == Some(CameraKey::Compat),
        camera_key_named("profile"@) == Some(CameraKey::Compat),
        camera_key_named("tuned_for"@) == Some(CameraKey::Compat),
        camera_key_named("onvif"@) == Some(CameraKey::Onvif),
        camera_key_named(name) is Some ==> (name == "name"@ || name == "address"@ || name == "uid"@ || name == "username"@ || name == "password"@ || name == "pass"@ || name == "stream"@ || name == "permitted_users"@ || name == "channel_id"@ || name == "channel"@ || name == "mqtt"@ || name == "pause"@ || name == "discovery"@ || name == "max_encryption"@ || name == "strict"@ || name == "print_format"@ || name == "print"@ || name == "update_time"@ || name == "time"@ || name == "buffer_duration"@ || name == "duration"@ || name == "buffer"@ || name == "enabled"@ || name == "enable"@ || name == "debug"@ || name == "verbose"@ || name == "use_splash"@ || name == "splash"@ || name == "splash_pattern"@ || name == "pattern"@ || name == "audio_format"@ || name == "audio"@ || name == "aud_format"@ || name == "max_discovery_retries"@ || name == "retries"@ || name == "max_retries"@ || name == "push_notifications"@ || name == "push"@ || name == "push_noti"@ || name == "idle_disconnect"@ || name == "idle"@ || name == "idle_disc"@ || name == "max_fps"@ || name == "fps_limit"@ || name == "compat"@ || name == "profile"@ || name == "tuned_for"@ || name == "onvif"@),
{
    lemma_camera_key_named();
}

/// A setting of streams means the streams it names, and no other; the main one
/// comes first.
pub proof fn law_settings_mean_the_streams_they_name(s: StreamConfig)
    ensures
        stream_kinds(s).contains(StreamKind::Main) <==> (s == StreamConfig::All || s
            == StreamConfig::Both || s == StreamConfig::Main),
        stream_kinds(s).contains(StreamKind::Sub) <==> (s == StreamConfig::All || s
            == StreamConfig::Both || s == StreamConfig::Sub),
        stream_kinds(s).contains(StreamKind::Extern) <==> (s == StreamConfig::All || s
            == StreamConfig::Extern),
        stream_kinds(s).contains(StreamKind::Main) ==> stream_kinds(s)[0] == StreamKind::Main,
        stream_kinds(s).no_duplicates(),
{
    let all = stream_kinds(s);
    if all.len() > 0 {
        assert(all.contains(all[0]));
    }
    if all.len() > 1 {
        assert(all.contains(all[1]));
    }
    if all.len() > 2 {
        assert(all.contains(all[2]));
    }
}

/// What a camera's settings leave open, its profile decides: by default PCM, three
/// seconds of buffer and a splash screen; for go2rtc every audio format, a quarter
/// of a second and no splash screen. What they say stands.
pub proof fn law_profiles_fill_what_is_left_open(camera: CameraConfig)
    ensures
        camera.audio_format matches Some(set) ==> camera.resolved_audio_format() == set,
        camera.buffer_duration matches Some(set) ==> camera.resolved_buffer_duration() == set,
        camera.use_splash matches Some(set) ==> camera.resolved_splash() == set,
        camera.audio_format is None && camera.compat == Compat::Default
            ==> camera.resolved_audio_format() == AudioFormat::Pcm,
        camera.audio_format is None && camera.compat == Compat::Go2rtc
            ==> camera.resolved_audio_format() == AudioFormat::All,
        camera.buffer_duration is None && camera.compat == Compat::Default
            ==> camera.resolved_buffer_duration() == 3_000,
        camera.buffer_duration is None && camera.compat == Compat::Go2rtc
            ==> camera.resolved_buffer_duration() == 250,
        camera.use_splash is None ==> (camera.resolved_splash() <==> camera.compat
            == Compat::Default),
{
}

/// A camera is valid only with an address or a UID, a channel up to 31, a buffer of
/// 1 to 15000 milliseconds, updates no more often than twice a second, and a known
/// encryption and pause mode.
pub proof fn law_valid_cameras_are_within_bounds(camera: CameraConfig)
    ensures
        camera.camera_addr is None && camera.camera_uid is None ==> !camera.valid(),
        camera.channel_id > 31 ==> !camera.valid(),
        camera.buffer_duration == Some(0u64) ==> !camera.valid(),
        (camera.buffer_duration is Some && camera.buffer_duration->0 > 15_000) ==> !camera.valid(),
        camera.mqtt.battery_update < 500 ==> !camera.valid(),
        camera.mqtt.preview_update < 500 ==> !camera.valid(),
        camera.mqtt.floodlight_update < 500 ==> !camera.valid(),
        camera.pause.mode@ != "black"@ && camera.pause.mode@ != "still"@ && camera.pause.mode@
            != "test"@ && camera.pause.mode@ != "none"@ ==> !camera.valid(),
        camera.max_encryption@ != "none"@ && camera.max_encryption@ != "None"@ && text::ascii_lower(
            camera.max_encryption@,
        ) != "aes"@ && text::ascii_lower(camera.max_encryption@) != "bcencrypt"@ ==> !camera.valid(),
        (camera.camera_addr is Some || camera.camera_uid is Some) && camera.channel_id <= 31 && (
        camera.buffer_duration is None || 1 <= camera.buffer_duration->0 <= 15_000)
            && camera.mqtt.battery_update >= 500 && camera.mqtt.preview_update >= 500
            && camera.mqtt.floodlight_update >= 500 && (camera.pause.mode@ == "black"@
            || camera.pause.mode@ == "still"@ || camera.pause.mode@ == "test"@ || camera.pause.mode@
            == "none"@) && (camera.max_encryption@ == "none"@ || camera.max_encryption@ == "None"@
            || text::ascii_lower(camera.max_encryption@) == "aes"@ || text::ascii_lower(
            camera.max_encryption@,
        ) == "bcencrypt"@) ==> camera.valid(),
{
}

/// A configuration is valid only if every camera and every user of it is, client
/// certificates are not asked for, asked for or required, and a traffic class that
/// is set is a known one.
pub proof fn law_valid_configurations_are_valid_throughout(config: Config, class: Option<u8>, i: int)
    ensures
        config.valid(class) && 0 <= i < config.cameras@.len() ==> config.cameras@[i].valid(),
        config.valid(class) && 0 <= i < config.users@.len() ==> text::trimmed(
            config.users@[i].name@,
        ).len() > 0 && config.users@[i].name@ != "anyone"@ && config.users@[i].name@
            != "anonymous"@,
        config.valid(class) ==> config.tls_client_auth@ == "none"@ || config.tls_client_auth@
            == "request"@ || config.tls_client_auth@ == "require"@,
        config.dscp is Some && class is None ==> !config.valid(class),
        config.cameras@.len() == 0 && config.users@.len() == 0 && (config.tls_client_auth@ == "none"@
            || config.tls_client_auth@ == "request"@ || config.tls_client_auth@ == "require"@) && (
        config.dscp is None || class is Some) ==> config.valid(class),
{
}

} // verus!

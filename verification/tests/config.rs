//! What a camera's section of the configuration means.

use neolink::config::{
    default_2000, default_bind_addr, default_bind_port, default_channel_id, default_discovery,
    default_max_discovery_retries, default_maxenc, default_mqtt, default_pause, default_print,
    default_splash, default_stream, default_strict, default_true, default_update_time,
    max_encryption_known, pause_mode_known, tls_client_auth_known, validate_camera_config,
    validate_dscp, validate_mqtt_server, validate_username, AudioFormat, CameraConfig, CameraKey,
    Compat, Config, ConfigError, MqttServerConfig, OnvifCameraConfig, OnvifGlobalConfig,
    SplashPattern, StreamConfig, StreamKind, UserConfig,
};

fn blank() -> CameraConfig {
    CameraConfig {
        name: String::new(),
        camera_addr: None,
        camera_uid: None,
        username: String::new(),
        password: None,
        stream: default_stream(),
        permitted_users: None,
        channel_id: default_channel_id(),
        mqtt: default_mqtt(),
        pause: default_pause(),
        discovery: default_discovery(),
        max_encryption: default_maxenc(),
        strict: default_strict(),
        print_format: default_print(),
        update_time: default_update_time(),
        buffer_duration: None,
        enabled: default_true(),
        debug: false,
        use_splash: None,
        splash_pattern: default_splash(),
        audio_format: None,
        max_discovery_retries: default_max_discovery_retries(),
        push_notifications: true,
        idle_disconnect: false,
        max_fps: None,
        compat: Compat::Default,
        onvif: OnvifCameraConfig::default(),
    }
}

fn text(value: &toml::Value) -> String {
    value.as_str().unwrap_or("").to_string()
}

/// Reads the settings these tests use from a camera's section; nothing where a
/// word in it stands for nothing.
fn read_camera(section: &str) -> Option<CameraConfig> {
    let table: toml::Table = section.parse().ok()?;
    let mut config = blank();
    for (key, value) in table.iter() {
        match CameraKey::from_config(key)? {
            CameraKey::Name => config.name = text(value),
            CameraKey::Username => config.username = text(value),
            CameraKey::Password => config.password = Some(text(value)),
            CameraKey::Uid => config.camera_uid = Some(text(value)),
            CameraKey::AudioFormat => {
                config.audio_format = Some(AudioFormat::from_config(value.as_str()?)?);
            }
            CameraKey::BufferDuration => {
                config.buffer_duration = Some(value.as_integer()? as u64);
            }
            CameraKey::UseSplash => config.use_splash = Some(value.as_bool()?),
            CameraKey::Compat => config.compat = Compat::from_config(value.as_str()?)?,
            _ => return None,
        }
    }
    Some(config)
}

fn camera(extra: &str) -> CameraConfig {
    let section = format!(
        r#"
        name = "Camera01"
        username = "admin"
        password = "password"
        uid = "ABCDEF0123456789"
        {extra}
        "#
    );
    read_camera(&section).expect("camera config should parse")
}

/// The default has to be the one every RTSP client can play: anything
/// else is a stream some client cannot hear, chosen on its behalf.
#[test]
fn audio_format_defaults_to_the_universally_understood_one() {
    assert_eq!(camera("").audio_format(), AudioFormat::Pcm);
}

#[test]
fn audio_format_accepts_its_spellings() {
    for spelling in [
        "mpeg4-generic",
        "Mpeg4Generic",
        "mpeg4_generic",
        "mpeg4generic",
        "rfc3640",
        "aac-hbr",
        "generic",
    ] {
        assert_eq!(
            camera(&format!("audio_format = \"{spelling}\"")).audio_format(),
            AudioFormat::Mpeg4Generic,
            "{spelling} should select MPEG4-GENERIC"
        );
    }
    for spelling in ["latm", "Latm", "aac", "passthrough"] {
        assert_eq!(
            camera(&format!("audio_format = \"{spelling}\"")).audio_format(),
            AudioFormat::Latm,
            "{spelling} should select LATM"
        );
    }
    for spelling in ["pcm", "Pcm", "l16", "raw"] {
        assert_eq!(
            camera(&format!("audio_format = \"{spelling}\"")).audio_format(),
            AudioFormat::Pcm,
            "{spelling} should select PCM"
        );
    }
    for spelling in ["all", "All", "auto", "both", "dual", "offer_both"] {
        assert_eq!(
            camera(&format!("audio_format = \"{spelling}\"")).audio_format(),
            AudioFormat::All,
            "{spelling} should offer every format"
        );
    }
}

/// What a client can put on its URL, which has to line up with what the
/// config file accepts or the two would disagree about the same word.
#[test]
fn a_client_can_ask_for_a_format_by_name() {
    for spelling in ["mpeg4-generic", "MPEG4-Generic", " rfc3640 ", "aac-hbr"] {
        assert_eq!(
            AudioFormat::from_request(spelling),
            Some(AudioFormat::Mpeg4Generic)
        );
    }
    for spelling in ["latm", "LATM", "aac", " passthrough "] {
        assert_eq!(AudioFormat::from_request(spelling), Some(AudioFormat::Latm));
    }
    for spelling in ["pcm", "PCM", "l16", "raw"] {
        assert_eq!(AudioFormat::from_request(spelling), Some(AudioFormat::Pcm));
    }
    for spelling in ["all", "auto", "both", "dual"] {
        assert_eq!(AudioFormat::from_request(spelling), Some(AudioFormat::All));
    }
    // Unknown asks are ignored rather than guessed at.
    assert_eq!(AudioFormat::from_request("opus"), None);
    assert_eq!(AudioFormat::from_request(""), None);
}

#[test]
fn audio_format_has_the_documented_aliases() {
    assert_eq!(camera("audio = \"pcm\"").audio_format(), AudioFormat::Pcm);
    assert_eq!(
        camera("aud_format = \"pcm\"").audio_format(),
        AudioFormat::Pcm
    );
}

#[test]
fn buffer_duration_defaults_to_three_seconds() {
    assert_eq!(camera("").buffer_duration(), 3000);
    assert_eq!(camera("buffer_duration = 250").buffer_duration(), 250);
}

/// The whole point of the profile: it moves *defaults*, and anything
/// set explicitly still wins.
#[test]
fn compat_moves_defaults_but_never_overrides() {
    let plain = camera("");
    assert_eq!(plain.compat, Compat::Default);
    assert_eq!(plain.audio_format(), AudioFormat::Pcm);
    assert_eq!(plain.buffer_duration(), 3000);
    assert!(plain.use_splash());

    let go2rtc = camera("compat = \"go2rtc\"");
    assert_eq!(go2rtc.audio_format(), AudioFormat::All);
    assert_eq!(go2rtc.buffer_duration(), 250);
    assert!(!go2rtc.use_splash());

    // Explicit settings survive the profile, in both directions.
    let overridden = camera(
        "compat = \"go2rtc\"\n             audio_format = \"pcm\"\n             buffer_duration = 1500\n             use_splash = true",
    );
    assert_eq!(overridden.audio_format(), AudioFormat::Pcm);
    assert_eq!(overridden.buffer_duration(), 1500);
    assert!(overridden.use_splash());

    let overridden = camera("audio_format = \"all\"\nbuffer_duration = 100");
    assert_eq!(overridden.audio_format(), AudioFormat::All);
    assert_eq!(overridden.buffer_duration(), 100);
}

#[test]
fn compat_accepts_its_spellings() {
    for spelling in ["go2rtc", "Go2rtc", "webrtc", "frigate"] {
        assert_eq!(
            camera(&format!("compat = \"{spelling}\"")).compat,
            Compat::Go2rtc,
            "{spelling} should select the go2rtc profile"
        );
    }
    for spelling in ["default", "Default", "none", "standard"] {
        assert_eq!(
            camera(&format!("compat = \"{spelling}\"")).compat,
            Compat::Default
        );
    }
    // The key itself has aliases.
    assert_eq!(camera("profile = \"go2rtc\"").compat, Compat::Go2rtc);
    assert_eq!(camera("tuned_for = \"go2rtc\"").compat, Compat::Go2rtc);
}

/// These two are read straight by the RTSP factory rather than through
/// a resolver, so they get their own check.
#[test]
fn compat_carries_the_factory_settings() {
    assert!(!Compat::Default.tcp_only());
    assert!(!Compat::Default.stop_on_disconnect());
    assert!(Compat::Go2rtc.tcp_only());
    assert!(Compat::Go2rtc.stop_on_disconnect());
}

#[test]
fn an_unknown_compat_profile_is_rejected() {
    let toml = r#"
        name = "Camera01"
        username = "admin"
        password = "password"
        uid = "ABCDEF0123456789"
        compat = "blueiris"
    "#;
    assert!(read_camera(toml).is_none());
}

/// `buffer_duration` became an Option; its range validation has to
/// still bite.
#[test]
fn buffer_duration_is_still_range_checked() {
    assert!(camera("buffer_duration = 250").is_valid());
    assert!(!camera("buffer_duration = 0").is_valid());
    assert!(!camera("buffer_duration = 20000").is_valid());
    // Unset means "take the profile default", not "out of range".
    assert!(camera("").is_valid());
}

#[test]
fn an_unknown_audio_format_is_rejected() {
    let toml = r#"
        name = "Camera01"
        username = "admin"
        password = "password"
        uid = "ABCDEF0123456789"
        audio_format = "opus"
    "#;
    assert!(read_camera(toml).is_none());
}

/// The configuration file and a client's request read the same word alike.
#[test]
fn a_request_and_the_configuration_agree() {
    for spelling in ["mpeg4-generic", "latm", "pcm", "all", "dual", "raw", "aac"] {
        assert_eq!(AudioFormat::from_request(spelling), AudioFormat::from_config(spelling));
    }
    for format in [AudioFormat::Mpeg4Generic, AudioFormat::Latm, AudioFormat::Pcm, AudioFormat::All] {
        assert_eq!(AudioFormat::from_request(format.label()), Some(format));
    }
}

#[test]
fn streams_are_named_and_listed() {
    assert_eq!(StreamConfig::from_config("none"), Some(StreamConfig::Off));
    assert_eq!(StreamConfig::from_config("mainStream"), Some(StreamConfig::Main));
    assert_eq!(StreamConfig::from_config("MAIN"), None);
    assert_eq!(
        StreamConfig::All.as_stream_kinds(),
        vec![StreamKind::Main, StreamKind::Extern, StreamKind::Sub]
    );
    assert_eq!(StreamConfig::Both.as_stream_kinds(), vec![StreamKind::Main, StreamKind::Sub]);
    assert!(StreamConfig::Off.as_stream_kinds().is_empty());
}

#[test]
fn splash_patterns_are_named() {
    for pattern in [SplashPattern::Smpte, SplashPattern::Snow, SplashPattern::Black] {
        assert_eq!(SplashPattern::from_config(pattern.label()), Some(pattern));
    }
    assert_eq!(SplashPattern::from_config("plaid"), None);
    assert_eq!(default_splash().label(), "snow");
}

#[test]
fn fixed_vocabularies() {
    for word in ["none", "request", "require"] {
        assert!(tls_client_auth_known(word));
    }
    assert!(!tls_client_auth_known("None"));
    assert!(!tls_client_auth_known("requires"));
    for word in ["black", "still", "test", "none"] {
        assert!(pause_mode_known(word));
    }
    assert!(!pause_mode_known(""));
    for word in ["none", "None", "aes", "AeS", "bcencrypt", "BCencrypt"] {
        assert!(max_encryption_known(word));
    }
    assert!(!max_encryption_known("NONE"));
    assert!(!max_encryption_known("bc"));
}

#[test]
fn a_broker_takes_one_kind_of_certificate() {
    let mut broker = MqttServerConfig {
        broker_addr: "broker".to_string(),
        port: 1883,
        credentials: None,
        ca: None,
        client_auth: Some(("cert".to_string(), "key".to_string())),
    };
    assert!(validate_mqtt_server(&broker).is_ok());
    broker.ca = Some("ca".to_string());
    let refusal = validate_mqtt_server(&broker).unwrap_err();
    assert_eq!(refusal, ConfigError::CaAndClientAuth);
    assert_eq!(refusal.message(), "Cannot have both ca and client_auth set");
    broker.client_auth = None;
    assert!(validate_mqtt_server(&broker).is_ok());
}

#[test]
fn reserved_user_names_are_refused() {
    assert!(validate_username("alice").is_ok());
    assert_eq!(validate_username(""), Err(ConfigError::EmptyUsername));
    assert!(validate_username("   ").is_err());
    assert_eq!(validate_username("anyone"), Err(ConfigError::ReservedUsername));
    assert!(validate_username("anonymous").is_err());
    assert!(validate_username("Anyone").is_ok());
}

#[test]
fn a_camera_needs_an_address_or_a_uid() {
    let mut config = camera("");
    assert!(validate_camera_config(&config).is_ok());
    config.camera_uid = None;
    assert_eq!(validate_camera_config(&config), Err(ConfigError::NoAddressOrUid));
    config.camera_addr = Some("192.168.1.10".to_string());
    assert!(validate_camera_config(&config).is_ok());
}

#[test]
fn a_whole_configuration_is_checked() {
    let mut config = Config {
        cameras: vec![camera("")],
        bind_addr: default_bind_addr(),
        bind_port: default_bind_port(),
        tokio_console: false,
        certificate: None,
        mqtt: None,
        tls_client_auth: "none".to_string(),
        users: vec![UserConfig { name: "alice".to_string(), pass: None }],
        onvif: OnvifGlobalConfig::default(),
        dscp: None,
    };
    assert_eq!(config.bind_addr, "0.0.0.0");
    assert_eq!(config.bind_port, 8554);
    assert_eq!(config.onvif.bind_port, 8000);
    assert!(config.validate(None));
    config.tls_client_auth = "maybe".to_string();
    assert!(!config.validate(None));
    config.tls_client_auth = "require".to_string();
    config.users[0].name = "anyone".to_string();
    assert!(!config.validate(None));
    config.users.clear();
    assert!(config.validate(None));
    config.dscp = Some("nonsense".to_string());
    assert!(!config.validate(None));
    assert!(config.validate(Some(46)));
    assert_eq!(default_2000(), 2000);
}

#[test]
fn an_unknown_traffic_class_is_refused() {
    assert!(validate_dscp(Some(46)).is_ok());
    assert!(matches!(validate_dscp(None), Err(ConfigError::Dscp)));
}

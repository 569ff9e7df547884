//! What to do about a configuration that arrives over MQTT.
//!
//! The configuration in force is published, and one that is sent back takes its
//! place if it can be read, is valid and differs. The sender is told of
//! everything but a configuration that changes nothing.

use vstd::prelude::*;
use vstd::string::*;
use crate::config::{
    CameraConfig, Config, MqttConfig, MqttDiscoveryConfig, MqttServerConfig, OnvifCameraConfig,
    OnvifGlobalConfig, PauseConfig, UserConfig,
};
use crate::mqtt::mqttc;
use crate::mqtt::mqttc::Publication;
use crate::mqtt::secrets;
use crate::text;

verus! {

/// The texts of an optional list of strings.
pub open spec fn list_view(list: Option<Vec<String>>) -> Option<Seq<Seq<char>>> {
    match list {
        Some(list) => Some(text::views(list@)),
        None => None,
    }
}

/// Whether the bits of a floating point number stand for no number.
pub open spec fn not_a_number(bits: u64) -> bool {
    bits % 0x8000_0000_0000_0000 > 0x7ff0_0000_0000_0000
}

/// Whether the bits of two floating point numbers stand for equal ones: zero
/// equals itself under either sign, and what is no number equals nothing.
pub open spec fn same_number(a: u64, b: u64) -> bool {
    &&& !not_a_number(a)
    &&& !not_a_number(b)
    &&& a == b || (a % 0x8000_0000_0000_0000 == 0 && b % 0x8000_0000_0000_0000 == 0)
}

/// Whether two announcements are the same; the order of their features does not
/// matter.
pub open spec fn same_discovery(
    a: Option<MqttDiscoveryConfig>,
    b: Option<MqttDiscoveryConfig>,
) -> bool {
    match (a, b) {
        (Some(a), Some(b)) => {
            &&& a.topic@ == b.topic@
            &&& text::views(a.features@).to_set() == text::views(b.features@).to_set()
        },
        (None, None) => true,
        _ => false,
    }
}

/// Whether two cameras publish the same.
pub open spec fn same_mqtt(a: MqttConfig, b: MqttConfig) -> bool {
    &&& a.enable_motion == b.enable_motion
    &&& a.enable_ai == b.enable_ai
    &&& a.enable_light == b.enable_light
    &&& a.enable_battery == b.enable_battery
    &&& a.battery_update == b.battery_update
    &&& a.enable_preview == b.enable_preview
    &&& a.preview_update == b.preview_update
    &&& a.enable_floodlight == b.enable_floodlight
    &&& a.floodlight_update == b.floodlight_update
    &&& same_discovery(a.discovery, b.discovery)
}

/// Whether two cameras pause alike.
pub open spec fn same_pause(a: PauseConfig, b: PauseConfig) -> bool {
    &&& a.on_motion == b.on_motion
    &&& a.on_disconnect == b.on_disconnect
    &&& same_number(a.motion_timeout_bits, b.motion_timeout_bits)
    &&& a.mode@ == b.mode@
}

/// Whether two cameras look alike over ONVIF.
pub open spec fn same_onvif_camera(a: OnvifCameraConfig, b: OnvifCameraConfig) -> bool {
    a.enabled == b.enabled && a.uuid@ == b.uuid@
}

/// Whether two cameras have the same settings.
pub open spec fn same_camera(a: CameraConfig, b: CameraConfig) -> bool {
    &&& a.name@ == b.name@
    &&& text::opt_view(a.camera_addr) == text::opt_view(b.camera_addr)
    &&& text::opt_view(a.camera_uid) == text::opt_view(b.camera_uid)
    &&& a.username@ == b.username@
    &&& text::opt_view(a.password) == text::opt_view(b.password)
    &&& a.stream == b.stream
    &&& list_view(a.permitted_users) == list_view(b.permitted_users)
    &&& a.channel_id == b.channel_id
    &&& same_mqtt(a.mqtt, b.mqtt)
    &&& same_pause(a.pause, b.pause)
    &&& a.discovery@ == b.discovery@
    &&& a.max_encryption@ == b.max_encryption@
    &&& a.strict == b.strict
    &&& a.print_format@ == b.print_format@
    &&& a.update_time == b.update_time
    &&& a.buffer_duration == b.buffer_duration
    &&& a.enabled == b.enabled
    &&& a.debug == b.debug
    &&& a.use_splash == b.use_splash
    &&& a.splash_pattern == b.splash_pattern
    &&& a.audio_format == b.audio_format
    &&& a.max_discovery_retries == b.max_discovery_retries
    &&& a.push_notifications == b.push_notifications
    &&& a.idle_disconnect == b.idle_disconnect
    &&& a.max_fps == b.max_fps
    &&& a.compat == b.compat
    &&& same_onvif_camera(a.onvif, b.onvif)
}

/// Whether two users are the same.
pub open spec fn same_user(a: UserConfig, b: UserConfig) -> bool {
    a.name@ == b.name@ && text::opt_view(a.pass) == text::opt_view(b.pass)
}

/// Whether two brokers are the same.
pub open spec fn same_server(a: Option<MqttServerConfig>, b: Option<MqttServerConfig>) -> bool {
    match (a, b) {
        (Some(a), Some(b)) => {
            &&& a.broker_addr@ == b.broker_addr@
            &&& a.port == b.port
            &&& mqttc::pair_view(a.credentials) == mqttc::pair_view(b.credentials)
            &&& text::opt_view(a.ca) == text::opt_view(b.ca)
            &&& mqttc::pair_view(a.client_auth) == mqttc::pair_view(b.client_auth)
        },
        (None, None) => true,
        _ => false,
    }
}

/// Whether two bridges look alike over ONVIF.
pub open spec fn same_onvif(a: OnvifGlobalConfig, b: OnvifGlobalConfig) -> bool {
    &&& a.enabled == b.enabled
    &&& a.bind_addr@ == b.bind_addr@
    &&& a.bind_port == b.bind_port
    &&& a.discovery == b.discovery
    &&& a.advertise_host@ == b.advertise_host@
}

/// Whether two configurations set the same.
pub open spec fn same_config(a: Config, b: Config) -> bool {
    &&& a.cameras@.len() == b.cameras@.len()
    &&& forall|i: int|
        0 <= i < a.cameras@.len() ==> same_camera(#[trigger] a.cameras@[i], b.cameras@[i])
    &&& a.bind_addr@ == b.bind_addr@
    &&& a.bind_port == b.bind_port
    &&& a.tokio_console == b.tokio_console
    &&& text::opt_view(a.certificate) == text::opt_view(b.certificate)
    &&& same_server(a.mqtt, b.mqtt)
    &&& a.tls_client_auth@ == b.tls_client_auth@
    &&& a.users@.len() == b.users@.len()
    &&& forall|i: int|
        0 <= i < a.users@.len() ==> same_user(#[trigger] a.users@[i], b.users@[i])
    &&& same_onvif(a.onvif, b.onvif)
    &&& text::opt_view(a.dscp) == text::opt_view(b.dscp)
}

fn texts_match(a: &Option<String>, b: &Option<String>) -> (equal: bool)
    ensures
        equal == (text::opt_view(*a) == text::opt_view(*b)),
{
    match (a, b) {
        (Some(a), Some(b)) => text::same(a.as_str(), b.as_str()),
        (None, None) => true,
        _ => false,
    }
}

fn pairs_match(a: &Option<(String, String)>, b: &Option<(String, String)>) -> (equal: bool)
    ensures
        equal == (mqttc::pair_view(*a) == mqttc::pair_view(*b)),
{
    match (a, b) {
        (Some((a, x)), Some((b, y))) => text::same(a.as_str(), b.as_str()) && text::same(
            x.as_str(),
            y.as_str(),
        ),
        (None, None) => true,
        _ => false,
    }
}

fn all_match(a: &Vec<String>, b: &Vec<String>) -> (equal: bool)
    ensures
        equal == (text::views(a@) == text::views(b@)),
{
    let ghost x = text::views(a@);
    let ghost y = text::views(b@);
    if a.len() != b.len() {
        assert(x.len() != y.len());
        return false;
    }
    let mut i: usize = 0;
    while i < a.len()
        invariant
            i <= a@.len() == b@.len(),
            x == text::views(a@),
            y == text::views(b@),
            forall|j: int| 0 <= j < i ==> #[trigger] x[j] == y[j],
        decreases a@.len() - i,
    {
        if !text::same(a[i].as_str(), b[i].as_str()) {
            assert(x[i as int] != y[i as int]);
            return false;
        }
        i += 1;
    }
    assert(x =~= y);
    true
}

fn lists_match(a: &Option<Vec<String>>, b: &Option<Vec<String>>) -> (equal: bool)
    ensures
        equal == (list_view(*a) == list_view(*b)),
{
    match (a, b) {
        (Some(a), Some(b)) => all_match(a, b),
        (None, None) => true,
        _ => false,
    }
}

/// Whether a name is in a list.
fn names(list: &Vec<String>, name: &str) -> (yes: bool)
    ensures
        yes == text::views(list@).contains(name@),
{
    let ghost all = text::views(list@);
    let mut i: usize = 0;
    while i < list.len()
        invariant
            i <= list@.len(),
            all == text::views(list@),
            forall|j: int| 0 <= j < i ==> #[trigger] all[j] != name@,
        decreases list@.len() - i,
    {
        if text::same(list[i].as_str(), name) {
            assert(all[i as int] == name@);
            return true;
        }
        i += 1;
    }
    false
}

/// Whether every name of one list is in another.
fn names_all(list: &Vec<String>, wanted: &Vec<String>) -> (yes: bool)
    ensures
        yes == text::views(wanted@).to_set().subset_of(text::views(list@).to_set()),
{
    let ghost all = text::views(list@);
    let ghost asked = text::views(wanted@);
    let mut i: usize = 0;
    while i < wanted.len()
        invariant
            i <= wanted@.len(),
            all == text::views(list@),
            asked == text::views(wanted@),
            forall|j: int| 0 <= j < i ==> all.contains(#[trigger] asked[j]),
        decreases wanted@.len() - i,
    {
        if !names(list, wanted[i].as_str()) {
            assert(asked[i as int] == wanted@[i as int]@);
            assert(asked.to_set().contains(asked[i as int]));
            assert(!all.to_set().contains(asked[i as int]));
            return false;
        }
        assert(asked[i as int] == wanted@[i as int]@);
        i += 1;
    }
    assert forall|name: Seq<char>| asked.to_set().contains(name) implies all.to_set().contains(
        name,
    ) by {
        let j = choose|j: int| 0 <= j < asked.len() && asked[j] == name;
        assert(all.contains(asked[j]));
    }
    true
}

fn numbers_match(a: u64, b: u64) -> (equal: bool)
    ensures
        equal == same_number(a, b),
{
    let x: u64 = a % 0x8000_0000_0000_0000;
    let y: u64 = b % 0x8000_0000_0000_0000;
    x <= 0x7ff0_0000_0000_0000 && y <= 0x7ff0_0000_0000_0000 && (a == b || (x == 0 && y == 0))
}

fn discoveries_match(a: &Option<MqttDiscoveryConfig>, b: &Option<MqttDiscoveryConfig>) -> (equal:
    bool)
    ensures
        equal == same_discovery(*a, *b),
{
    match (a, b) {
        (Some(a), Some(b)) => {
            let there: bool = names_all(&a.features, &b.features);
            let back: bool = names_all(&b.features, &a.features);
            proof {
                let x = text::views(a.features@).to_set();
                let y = text::views(b.features@).to_set();
                if there && back {
                    assert(x =~= y);
                }
                assert(x == y ==> x.subset_of(y) && y.subset_of(x));
            }
            text::same(a.topic.as_str(), b.topic.as_str()) && there && back
        },
        (None, None) => true,
        _ => false,
    }
}

fn mqtts_match(a: &MqttConfig, b: &MqttConfig) -> (equal: bool)
    ensures
        equal == same_mqtt(*a, *b),
{
    a.enable_motion == b.enable_motion && a.enable_ai == b.enable_ai && a.enable_light
        == b.enable_light && a.enable_battery == b.enable_battery && a.battery_update
        == b.battery_update && a.enable_preview == b.enable_preview && a.preview_update
        == b.preview_update && a.enable_floodlight == b.enable_floodlight && a.floodlight_update
        == b.floodlight_update && discoveries_match(&a.discovery, &b.discovery)
}

fn pauses_match(a: &PauseConfig, b: &PauseConfig) -> (equal: bool)
    ensures
        equal == same_pause(*a, *b),
{
    a.on_motion == b.on_motion && a.on_disconnect == b.on_disconnect && numbers_match(
        a.motion_timeout_bits,
        b.motion_timeout_bits,
    ) && text::same(a.mode.as_str(), b.mode.as_str())
}

fn cameras_match(a: &CameraConfig, b: &CameraConfig) -> (equal: bool)
    ensures
        equal == same_camera(*a, *b),
{
    let found: bool = text::same(a.name.as_str(), b.name.as_str()) && texts_match(
        &a.camera_addr,
        &b.camera_addr,
    ) && texts_match(&a.camera_uid, &b.camera_uid);
    let reached: bool = text::same(a.username.as_str(), b.username.as_str()) && texts_match(
        &a.password,
        &b.password,
    ) && lists_match(&a.permitted_users, &b.permitted_users);
    let spoken: bool = text::same(a.discovery.as_str(), b.discovery.as_str()) && text::same(
        a.max_encryption.as_str(),
        b.max_encryption.as_str(),
    ) && text::same(a.print_format.as_str(), b.print_format.as_str());
    let published: bool = mqtts_match(&a.mqtt, &b.mqtt) && pauses_match(&a.pause, &b.pause)
        && a.onvif.enabled == b.onvif.enabled && text::same(
        a.onvif.uuid.as_str(),
        b.onvif.uuid.as_str(),
    );
    let served: bool = a.stream == b.stream && a.channel_id == b.channel_id && a.strict == b.strict
        && a.update_time == b.update_time && a.buffer_duration == b.buffer_duration && a.enabled
        == b.enabled && a.debug == b.debug && a.use_splash == b.use_splash && a.splash_pattern
        == b.splash_pattern && a.audio_format == b.audio_format && a.max_discovery_retries
        == b.max_discovery_retries && a.push_notifications == b.push_notifications
        && a.idle_disconnect == b.idle_disconnect && a.max_fps == b.max_fps && a.compat == b.compat;
    found && reached && spoken && published && served
}

fn servers_match(a: &Option<MqttServerConfig>, b: &Option<MqttServerConfig>) -> (equal: bool)
    ensures
        equal == same_server(*a, *b),
{
    match (a, b) {
        (Some(a), Some(b)) => text::same(a.broker_addr.as_str(), b.broker_addr.as_str()) && a.port
            == b.port && pairs_match(&a.credentials, &b.credentials) && texts_match(&a.ca, &b.ca)
            && pairs_match(&a.client_auth, &b.client_auth),
        (None, None) => true,
        _ => false,
    }
}

fn camera_lists_match(a: &Vec<CameraConfig>, b: &Vec<CameraConfig>) -> (equal: bool)
    ensures
        equal == (a@.len() == b@.len() && forall|i: int|
            0 <= i < a@.len() ==> same_camera(#[trigger] a@[i], b@[i])),
{
    if a.len() != b.len() {
        return false;
    }
    let mut i: usize = 0;
    while i < a.len()
        invariant
            i <= a@.len() == b@.len(),
            forall|j: int| 0 <= j < i ==> same_camera(#[trigger] a@[j], b@[j]),
        decreases a@.len() - i,
    {
        if !cameras_match(&a[i], &b[i]) {
            assert(!same_camera(a@[i as int], b@[i as int]));
            return false;
        }
        i += 1;
    }
    true
}

fn user_lists_match(a: &Vec<UserConfig>, b: &Vec<UserConfig>) -> (equal: bool)
    ensures
        equal == (a@.len() == b@.len() && forall|i: int|
            0 <= i < a@.len() ==> same_user(#[trigger] a@[i], b@[i])),
{
    if a.len() != b.len() {
        return false;
    }
    let mut i: usize = 0;
    while i < a.len()
        invariant
            i <= a@.len() == b@.len(),
            forall|j: int| 0 <= j < i ==> same_user(#[trigger] a@[j], b@[j]),
        decreases a@.len() - i,
    {
        if !text::same(a[i].name.as_str(), b[i].name.as_str()) || !texts_match(
            &a[i].pass,
            &b[i].pass,
        ) {
            assert(!same_user(a@[i as int], b@[i as int]));
            return false;
        }
        i += 1;
    }
    true
}

/// Whether two configurations set the same.
pub fn unchanged(a: &Config, b: &Config) -> (equal: bool)
    ensures
        equal == same_config(*a, *b),
{
    let onvif: bool = a.onvif.enabled == b.onvif.enabled && text::same(
        a.onvif.bind_addr.as_str(),
        b.onvif.bind_addr.as_str(),
    ) && a.onvif.bind_port == b.onvif.bind_port && a.onvif.discovery == b.onvif.discovery
        && text::same(a.onvif.advertise_host.as_str(), b.onvif.advertise_host.as_str());
    camera_lists_match(&a.cameras, &b.cameras) && text::same(
        a.bind_addr.as_str(),
        b.bind_addr.as_str(),
    ) && a.bind_port == b.bind_port && a.tokio_console == b.tokio_console && texts_match(
        &a.certificate,
        &b.certificate,
    ) && servers_match(&a.mqtt, &b.mqtt) && text::same(
        a.tls_client_auth.as_str(),
        b.tls_client_auth.as_str(),
    ) && user_lists_match(&a.users, &b.users) && onvif && texts_match(&a.dscp, &b.dscp)
}

/// What to do about a configuration that was sent back.
#[derive(Debug)]
pub enum ConfigStep {
    /// Leave the one in force, and tell the sender why.
    Report(String),
    /// Leave the one in force: it sets the same.
    Ignore,
    /// Put this in its place, and tell the sender what came of that.
    Apply(Config),
}

/// What the sender of an invalid configuration is told.
pub open spec fn invalid_text() -> Seq<char> {
    "Failed to validate the MQTT \"config\" config file"@
}

/// What to do about a configuration whose secrets were restored. `class` is what
/// its DSCP class resolved to.
pub fn judge(config: Config, current: &Config, class: Option<u8>) -> (step: ConfigStep)
    ensures
        match step {
            ConfigStep::Report(reason) => !config.valid(class) && reason@ == invalid_text(),
            ConfigStep::Ignore => config.valid(class) && same_config(config, *current),
            ConfigStep::Apply(next) => next == config && config.valid(class) && !same_config(
                config,
                *current,
            ),
        },
{
    if !config.validate(class) {
        return ConfigStep::Report("Failed to validate the MQTT \"config\" config file".to_owned());
    }
    if unchanged(&config, current) {
        return ConfigStep::Ignore;
    }
    ConfigStep::Apply(config)
}

/// Whether this is what to do about a configuration that was sent back, where
/// reading it gave this.
pub open spec fn step_for(
    parsed: Result<Config, String>,
    current: Config,
    class: Option<u8>,
    step: ConfigStep,
) -> bool {
    match (parsed, step) {
        (Err(reason), ConfigStep::Report(told)) => told@ == reason@,
        (Err(_), _) => false,
        (Ok(config), ConfigStep::Report(told)) => !config.valid(class) && told@ == invalid_text(),
        (Ok(config), ConfigStep::Ignore) => config.valid(class) && exists|restored: Config|
            secrets::secrets_restored(restored, config, current) && #[trigger] same_config(
                restored,
                current,
            ),
        (Ok(config), ConfigStep::Apply(restored)) => {
            &&& config.valid(class)
            &&& secrets::secrets_restored(restored, config, current)
            &&& !same_config(restored, current)
        },
    }
}

/// Restoring secrets makes no configuration valid or invalid.
pub proof fn law_secrets_do_not_decide_validity(
    restored: Config,
    config: Config,
    current: Config,
    class: Option<u8>,
)
    requires
        secrets::secrets_restored(restored, config, current),
    ensures
        restored.valid(class) == config.valid(class),
{
    assert forall|i: int| 0 <= i < config.cameras@.len() implies (#[trigger] restored.cameras@[i]).valid()
        == config.cameras@[i].valid() by {}
    assert forall|i: int| 0 <= i < config.users@.len() implies (#[trigger] restored.users@[i]).valid()
        == config.users@[i].valid() by {}
    if restored.valid(class) {
        assert forall|i: int| 0 <= i < config.cameras@.len() implies (
        #[trigger] config.cameras@[i]).valid() by {
            assert(restored.cameras@[i].valid());
        }
        assert forall|i: int| 0 <= i < config.users@.len() implies (
        #[trigger] config.users@[i]).valid() by {
            assert(restored.users@[i].valid());
        }
    }
}

/// What to do about a configuration that was sent back. `parsed` is what reading
/// it gave, and `class` what its DSCP class resolved to.
pub fn take_config(parsed: Result<Config, String>, current: &Config, class: Option<u8>) -> (step:
    ConfigStep)
    ensures
        step_for(parsed, *current, class, step),
{
    match parsed {
        Ok(config) => {
            let restored = secrets::restore_secrets(config, current);
            proof {
                law_secrets_do_not_decide_validity(restored, config, *current, class);
            }
            judge(restored, current, class)
        },
        Err(reason) => ConfigStep::Report(reason),
    }
}

/// Of two restorations of one configuration, either both change the one in force
/// or neither does.
pub proof fn law_restorations_agree(one: Config, other: Config, config: Config, current: Config)
    requires
        secrets::secrets_restored(one, config, current),
        secrets::secrets_restored(other, config, current),
    ensures
        same_config(one, current) == same_config(other, current),
{
    if same_config(one, current) {
        lemma_restorations_agree(one, other, config, current);
    }
    if same_config(other, current) {
        lemma_restorations_agree(other, one, config, current);
    }
}

proof fn lemma_restorations_agree(one: Config, other: Config, config: Config, current: Config)
    requires
        secrets::secrets_restored(one, config, current),
        secrets::secrets_restored(other, config, current),
        same_config(one, current),
    ensures
        same_config(other, current),
{
    assert forall|i: int| 0 <= i < other.cameras@.len() implies same_camera(
        #[trigger] other.cameras@[i],
        current.cameras@[i],
    ) by {
        assert(same_camera(one.cameras@[i], current.cameras@[i]));
    }
    assert forall|i: int| 0 <= i < other.users@.len() implies same_user(
        #[trigger] other.users@[i],
        current.users@[i],
    ) by {
        assert(same_user(one.users@[i], current.users@[i]));
    }
}

/// Whether a message, by its topic, is a configuration.
pub fn is_config(topic: &str) -> (yes: bool)
    ensures
        yes == (topic@ == "config"@),
{
    text::same(topic, "config")
}

/// How the configuration in force is published.
pub fn config_message(config: &str) -> (p: Publication<'_>)
    ensures
        mqttc::publication_view(p) == ("config"@, config@, true),
{
    Publication { topic: "config", message: config, retain: true }
}

/// How the sender of a configuration is told what came of it.
pub fn config_status(said: &str) -> (p: Publication<'_>)
    ensures
        mqttc::publication_view(p) == ("config/status"@, said@, false),
{
    Publication { topic: "config/status", message: said, retain: false }
}

/// Two cameras are the same only if they agree in every setting: a change of any
/// one is a change.
pub proof fn law_every_camera_setting_counts(a: CameraConfig, b: CameraConfig, feature: Seq<char>)
    requires
        same_camera(a, b),
    ensures
        a.stream == b.stream,
        a.channel_id == b.channel_id,
        a.strict == b.strict,
        a.update_time == b.update_time,
        a.buffer_duration == b.buffer_duration,
        a.enabled == b.enabled,
        a.debug == b.debug,
        a.use_splash == b.use_splash,
        a.splash_pattern == b.splash_pattern,
        a.audio_format == b.audio_format,
        a.max_discovery_retries == b.max_discovery_retries,
        a.push_notifications == b.push_notifications,
        a.idle_disconnect == b.idle_disconnect,
        a.max_fps == b.max_fps,
        a.compat == b.compat,
        a.name@ == b.name@,
        a.username@ == b.username@,
        a.discovery@ == b.discovery@,
        a.max_encryption@ == b.max_encryption@,
        a.print_format@ == b.print_format@,
        (a.camera_addr is None) == (b.camera_addr is None),
        a.camera_addr is Some ==> a.camera_addr->0@ == b.camera_addr->0@,
        (a.camera_uid is None) == (b.camera_uid is None),
        a.camera_uid is Some ==> a.camera_uid->0@ == b.camera_uid->0@,
        (a.password is None) == (b.password is None),
        a.password is Some ==> a.password->0@ == b.password->0@,
        (a.permitted_users is None) == (b.permitted_users is None),
        a.permitted_users is Some ==> text::views(a.permitted_users->0@) == text::views(b.permitted_users->0@),
        a.mqtt.enable_motion == b.mqtt.enable_motion,
        a.mqtt.enable_ai == b.mqtt.enable_ai,
        a.mqtt.enable_light == b.mqtt.enable_light,
        a.mqtt.enable_battery == b.mqtt.enable_battery,
        a.mqtt.battery_update == b.mqtt.battery_update,
        a.mqtt.enable_preview == b.mqtt.enable_preview,
        a.mqtt.preview_update == b.mqtt.preview_update,
        a.mqtt.enable_floodlight == b.mqtt.enable_floodlight,
        a.mqtt.floodlight_update == b.mqtt.floodlight_update,
        (a.mqtt.discovery is None) == (b.mqtt.discovery is None),
        a.mqtt.discovery is Some ==> a.mqtt.discovery->0.topic@ == b.mqtt.discovery->0.topic@,
        a.mqtt.discovery is Some ==> (text::views(a.mqtt.discovery->0.features@).contains(feature) <==> text::views(b.mqtt.discovery->0.features@).contains(feature)),
        a.pause.on_motion == b.pause.on_motion,
        a.pause.on_disconnect == b.pause.on_disconnect,
        a.pause.mode@ == b.pause.mode@,
        a.pause.motion_timeout_bits == b.pause.motion_timeout_bits || (a.pause.motion_timeout_bits % 0x8000_0000_0000_0000 == 0 && b.pause.motion_timeout_bits % 0x8000_0000_0000_0000 == 0),
        a.onvif.enabled == b.onvif.enabled,
        a.onvif.uuid@ == b.onvif.uuid@,
{
    if a.mqtt.discovery is Some {
        let x = text::views(a.mqtt.discovery->0.features@);
        let y = text::views(b.mqtt.discovery->0.features@);
        assert(x.to_set().contains(feature) <==> x.contains(feature));
        assert(y.to_set().contains(feature) <==> y.contains(feature));
    }
}

/// Two configurations are the same only if they agree in every setting of the
/// bridge, and camera by camera and user by user.
pub proof fn law_every_setting_counts(a: Config, b: Config, i: int)
    requires
        same_config(a, b),
    ensures
        a.bind_addr@ == b.bind_addr@,
        a.bind_port == b.bind_port,
        a.tokio_console == b.tokio_console,
        a.tls_client_auth@ == b.tls_client_auth@,
        (a.certificate is None) == (b.certificate is None),
        a.certificate is Some ==> a.certificate->0@ == b.certificate->0@,
        (a.dscp is None) == (b.dscp is None),
        a.dscp is Some ==> a.dscp->0@ == b.dscp->0@,
        a.onvif.enabled == b.onvif.enabled,
        a.onvif.bind_port == b.onvif.bind_port,
        a.onvif.discovery == b.onvif.discovery,
        a.onvif.bind_addr@ == b.onvif.bind_addr@,
        a.onvif.advertise_host@ == b.onvif.advertise_host@,
        (a.mqtt is None) == (b.mqtt is None),
        a.mqtt is Some ==> a.mqtt->0.broker_addr@ == b.mqtt->0.broker_addr@ && a.mqtt->0.port == b.mqtt->0.port,
        a.mqtt is Some ==> (a.mqtt->0.credentials is None) == (b.mqtt->0.credentials is None),
        a.mqtt is Some && a.mqtt->0.credentials is Some ==> (a.mqtt->0.credentials->0).0@ == (b.mqtt->0.credentials->0).0@ && (a.mqtt->0.credentials->0).1@ == (b.mqtt->0.credentials->0).1@,
        a.mqtt is Some ==> (a.mqtt->0.client_auth is None) == (b.mqtt->0.client_auth is None),
        a.mqtt is Some && a.mqtt->0.client_auth is Some ==> (a.mqtt->0.client_auth->0).0@ == (b.mqtt->0.client_auth->0).0@ && (a.mqtt->0.client_auth->0).1@ == (b.mqtt->0.client_auth->0).1@,
        a.mqtt is Some ==> (a.mqtt->0.ca is None) == (b.mqtt->0.ca is None),
        a.mqtt is Some && a.mqtt->0.ca is Some ==> a.mqtt->0.ca->0@ == b.mqtt->0.ca->0@,
        a.cameras@.len() == b.cameras@.len(),
        0 <= i < a.cameras@.len() ==> same_camera(a.cameras@[i], b.cameras@[i]),
        a.users@.len() == b.users@.len(),
        0 <= i < a.users@.len() ==> a.users@[i].name@ == b.users@[i].name@,
        0 <= i < a.users@.len() ==> (a.users@[i].pass is None) == (b.users@[i].pass is None),
        0 <= i < a.users@.len() && a.users@[i].pass is Some ==> a.users@[i].pass->0@
            == b.users@[i].pass->0@,
{
}

/// A configuration whose timeouts are numbers is the same as itself, so it is not
/// taken for a change.
pub proof fn law_nothing_changed_is_no_change(config: Config, class: Option<u8>, step: ConfigStep)
    requires
        forall|i: int|
            0 <= i < config.cameras@.len() ==> (
            #[trigger] config.cameras@[i]).pause.motion_timeout_bits % 0x8000_0000_0000_0000
                <= 0x7ff0_0000_0000_0000,
        config.valid(class),
        step_for(Ok(config), config, class, step),
    ensures
        same_config(config, config),
        step is Ignore || step is Apply,
        step matches ConfigStep::Apply(next) ==> !same_config(next, config),
{
}

/// What cannot be parsed is reported with its reason, what is not valid is
/// reported as such, and neither is applied.
pub proof fn law_bad_configurations_are_reported(
    parsed: Result<Config, String>,
    current: Config,
    class: Option<u8>,
    step: ConfigStep,
)
    requires
        step_for(parsed, current, class, step),
    ensures
        parsed matches Err(reason) ==> (step matches ConfigStep::Report(told) && told@ == reason@),
        (parsed is Ok && !parsed->Ok_0.valid(class)) ==> (step matches ConfigStep::Report(told)
            && told@ == "Failed to validate the MQTT \"config\" config file"@),
        (parsed is Ok && parsed->Ok_0.valid(class)) ==> !(step is Report),
        step matches ConfigStep::Apply(next) ==> !same_config(next, current),
{
}

} // verus!

//! Configurations that arrive over MQTT.
//!
//! A configuration is published without its secrets, so one that comes back
//! has none: what is missing is taken from the one in force.

use vstd::prelude::*;
use crate::config::{CameraConfig, Config, MqttServerConfig, UserConfig};
use crate::mqtt::mqttc;
use crate::text;

verus! {

/// The first camera of a name.
pub open spec fn camera_named(cameras: Seq<CameraConfig>, name: Seq<char>) -> Option<CameraConfig>
    decreases cameras.len(),
{
    if cameras.len() == 0 {
        None
    } else if cameras[0].name@ == name {
        Some(cameras[0])
    } else {
        camera_named(cameras.drop_first(), name)
    }
}

/// The first user of a name.
pub open spec fn user_named(users: Seq<UserConfig>, name: Seq<char>) -> Option<UserConfig>
    decreases users.len(),
{
    if users.len() == 0 {
        None
    } else if users[0].name@ == name {
        Some(users[0])
    } else {
        user_named(users.drop_first(), name)
    }
}

/// A camera's password: its own, or else the one in force for its name.
pub open spec fn restored_password(camera: CameraConfig, current: Seq<CameraConfig>) -> Option<
    Seq<char>,
> {
    match (camera.password, camera_named(current, camera.name@)) {
        (Some(own), _) => Some(own@),
        (None, Some(in_force)) => text::opt_view(in_force.password),
        (None, None) => None,
    }
}

/// A user's password: their own, or else the one in force for their name.
pub open spec fn restored_pass(user: UserConfig, current: Seq<UserConfig>) -> Option<Seq<char>> {
    match (user.pass, user_named(current, user.name@)) {
        (Some(own), _) => Some(own@),
        (None, Some(in_force)) => text::opt_view(in_force.pass),
        (None, None) => None,
    }
}

/// Whether one broker is another with its secrets restored from a third: each
/// that is missing is the one in force.
pub open spec fn server_restored(
    after: MqttServerConfig,
    before: MqttServerConfig,
    current: MqttServerConfig,
) -> bool {
    &&& after.broker_addr == before.broker_addr
    &&& after.port == before.port
    &&& mqttc::pair_view(after.credentials) == (if before.credentials is Some {
        mqttc::pair_view(before.credentials)
    } else {
        mqttc::pair_view(current.credentials)
    })
    &&& text::opt_view(after.ca) == (if before.ca is Some {
        text::opt_view(before.ca)
    } else {
        text::opt_view(current.ca)
    })
    &&& mqttc::pair_view(after.client_auth) == (if before.client_auth is Some {
        mqttc::pair_view(before.client_auth)
    } else {
        mqttc::pair_view(current.client_auth)
    })
}

/// The index of the first camera of a name.
fn find_camera(cameras: &Vec<CameraConfig>, name: &str) -> (found: Option<usize>)
    ensures
        match found {
            Some(i) => i < cameras@.len() && camera_named(cameras@, name@) == Some(
                cameras@[i as int],
            ),
            None => camera_named(cameras@, name@) is None,
        },
{
    let mut i: usize = 0;
    assert(cameras@.skip(0) =~= cameras@);
    while i < cameras.len()
        invariant
            i <= cameras@.len(),
            camera_named(cameras@, name@) == camera_named(cameras@.skip(i as int), name@),
        decreases cameras@.len() - i,
    {
        if text::same(cameras[i].name.as_str(), name) {
            return Some(i);
        }
        assert(cameras@.skip(i as int).drop_first() =~= cameras@.skip(i + 1));
        i += 1;
    }
    None
}

/// The index of the first user of a name.
fn find_user(users: &Vec<UserConfig>, name: &str) -> (found: Option<usize>)
    ensures
        match found {
            Some(i) => i < users@.len() && user_named(users@, name@) == Some(users@[i as int]),
            None => user_named(users@, name@) is None,
        },
{
    let mut i: usize = 0;
    assert(users@.skip(0) =~= users@);
    while i < users.len()
        invariant
            i <= users@.len(),
            user_named(users@, name@) == user_named(users@.skip(i as int), name@),
        decreases users@.len() - i,
    {
        if text::same(users[i].name.as_str(), name) {
            return Some(i);
        }
        assert(users@.skip(i as int).drop_first() =~= users@.skip(i + 1));
        i += 1;
    }
    None
}

fn restore_server(server: MqttServerConfig, current: &MqttServerConfig) -> (after: MqttServerConfig)
    ensures
        server_restored(after, server, *current),
{
    let credentials = if server.credentials.is_none() {
        mqttc::copy_pair(&current.credentials)
    } else {
        server.credentials
    };
    let ca = if server.ca.is_none() {
        text::copy_opt(&current.ca)
    } else {
        server.ca
    };
    let client_auth = if server.client_auth.is_none() {
        mqttc::copy_pair(&current.client_auth)
    } else {
        server.client_auth
    };
    MqttServerConfig {
        broker_addr: server.broker_addr,
        port: server.port,
        credentials,
        ca,
        client_auth,
    }
}

/// Whether one configuration is another with its secrets restored from a third:
/// each that is missing is the one in force, and nothing else differs.
pub open spec fn secrets_restored(restored: Config, config: Config, current: Config) -> bool {
    &&& match (config.mqtt, current.mqtt) {
        (Some(server), Some(in_force)) => restored.mqtt matches Some(after) && server_restored(
            after,
            server,
            in_force,
        ),
        _ => restored.mqtt == config.mqtt,
    }
    &&& restored.cameras@.len() == config.cameras@.len()
    &&& forall|i: int|
        0 <= i < config.cameras@.len() ==> {
            let before = config.cameras@[i];
            let after = #[trigger] restored.cameras@[i];
            &&& text::opt_view(after.password) == restored_password(before, current.cameras@)
            &&& after == (CameraConfig { password: after.password, ..before })
        }
    &&& restored.users@.len() == config.users@.len()
    &&& forall|i: int|
        0 <= i < config.users@.len() ==> {
            let before = config.users@[i];
            let after = #[trigger] restored.users@[i];
            &&& text::opt_view(after.pass) == restored_pass(before, current.users@)
            &&& after == (UserConfig { pass: after.pass, ..before })
        }
    &&& restored == (Config {
        cameras: restored.cameras,
        mqtt: restored.mqtt,
        users: restored.users,
        ..config
    })
}

/// Fill in the secrets that a new configuration left out.
pub fn restore_secrets(config: Config, current: &Config) -> (restored: Config)
    ensures
        secrets_restored(restored, config, *current),
{
    let mut restored = config;
    let ghost cameras = restored.cameras@;
    let ghost users = restored.users@;
    restored.mqtt = match (restored.mqtt, &current.mqtt) {
        (Some(server), Some(in_force)) => Some(restore_server(server, in_force)),
        (other, _) => other,
    };
    let mut i: usize = 0;
    while i < restored.cameras.len()
        invariant
            i <= restored.cameras@.len() == cameras.len(),
            restored == (Config { cameras: restored.cameras, mqtt: restored.mqtt, ..config }),
            match (config.mqtt, current.mqtt) {
                (Some(server), Some(in_force)) => restored.mqtt matches Some(after)
                    && server_restored(after, server, in_force),
                _ => restored.mqtt == config.mqtt,
            },
            cameras == config.cameras@,
            forall|j: int|
                0 <= j < i ==> {
                    let before = cameras[j];
                    let after = #[trigger] restored.cameras@[j];
                    &&& text::opt_view(after.password) == restored_password(
                        before,
                        current.cameras@,
                    )
                    &&& after == (CameraConfig { password: after.password, ..before })
                },
            forall|j: int|
                i <= j < restored.cameras@.len() ==> #[trigger] restored.cameras@[j] == cameras[j],
        decreases restored.cameras@.len() - i,
    {
        if restored.cameras[i].password.is_none() {
            if let Some(k) = find_camera(&current.cameras, restored.cameras[i].name.as_str()) {
                restored.cameras[i].password = text::copy_opt(&current.cameras[k].password);
            }
        }
        i += 1;
    }
    let mut k: usize = 0;
    let ghost cameras_done = restored.cameras;
    let ghost mqtt_done = restored.mqtt;
    while k < restored.users.len()
        invariant
            k <= restored.users@.len() == users.len(),
            restored == (Config {
                cameras: cameras_done,
                mqtt: mqtt_done,
                users: restored.users,
                ..config
            }),
            users == config.users@,
            forall|j: int|
                0 <= j < k ==> {
                    let before = users[j];
                    let after = #[trigger] restored.users@[j];
                    &&& text::opt_view(after.pass) == restored_pass(before, current.users@)
                    &&& after == (UserConfig { pass: after.pass, ..before })
                },
            forall|j: int|
                k <= j < restored.users@.len() ==> #[trigger] restored.users@[j] == users[j],
        decreases restored.users@.len() - k,
    {
        if restored.users[k].pass.is_none() {
            if let Some(found) = find_user(&current.users, restored.users[k].name.as_str()) {
                restored.users[k].pass = text::copy_opt(&current.users[found].pass);
            }
        }
        k += 1;
    }
    restored
}

/// A configuration that is published without its secrets and comes back
/// otherwise unchanged has its passwords again.
pub proof fn law_published_config_comes_back(cameras: Seq<CameraConfig>, camera: CameraConfig, i: int)
    requires
        0 <= i < cameras.len(),
        camera.name@ == cameras[i].name@,
        camera.password is None,
        forall|j: int| 0 <= j < i ==> (#[trigger] cameras[j]).name@ != cameras[i].name@,
    ensures
        restored_password(camera, cameras) == text::opt_view(cameras[i].password),
    decreases i,
{
    if i > 0 {
        assert(cameras[0].name@ != camera.name@);
        assert(cameras.drop_first()[i - 1] == cameras[i]);
        assert forall|j: int| 0 <= j < i - 1 implies (#[trigger] cameras.drop_first()[j]).name@
            != cameras.drop_first()[i - 1].name@ by {
            assert(cameras[j + 1].name@ != cameras[i].name@);
        }
        law_published_config_comes_back(cameras.drop_first(), camera, i - 1);
    }
}

/// A password that a new configuration gives is taken. One that it leaves out is
/// the one in force for the camera of that name, and none where there is no such
/// camera.
pub proof fn law_left_out_passwords_stay(
    camera: CameraConfig,
    current: Seq<CameraConfig>,
    user: UserConfig,
    users: Seq<UserConfig>,
    i: int,
)
    ensures
        camera.password matches Some(own) ==> restored_password(camera, current) == Some(own@),
        user.pass matches Some(own) ==> restored_pass(user, users) == Some(own@),
        camera.password is None && (forall|j: int|
            0 <= j < current.len() ==> (#[trigger] current[j]).name@ != camera.name@)
            ==> restored_password(camera, current) is None,
        user.pass is None && (forall|j: int|
            0 <= j < users.len() ==> (#[trigger] users[j]).name@ != user.name@) ==> restored_pass(
            user,
            users,
        ) is None,
        user.pass is None && 0 <= i < users.len() && users[i].name@ == user.name@ && (forall|j: int|
            0 <= j < i ==> (#[trigger] users[j]).name@ != user.name@) ==> restored_pass(user, users)
            == text::opt_view(users[i].pass),
{
    if forall|j: int| 0 <= j < current.len() ==> (#[trigger] current[j]).name@ != camera.name@ {
        lemma_no_camera(current, camera.name@);
    }
    if forall|j: int| 0 <= j < users.len() ==> (#[trigger] users[j]).name@ != user.name@ {
        lemma_no_user(users, user.name@);
    }
    if 0 <= i < users.len() && users[i].name@ == user.name@ && (forall|j: int|
        0 <= j < i ==> (#[trigger] users[j]).name@ != user.name@) {
        lemma_first_user(users, user.name@, i);
    }
}

proof fn lemma_no_camera(cameras: Seq<CameraConfig>, name: Seq<char>)
    requires
        forall|j: int| 0 <= j < cameras.len() ==> (#[trigger] cameras[j]).name@ != name,
    ensures
        camera_named(cameras, name) is None,
    decreases cameras.len(),
{
    if cameras.len() > 0 {
        let rest = cameras.drop_first();
        assert forall|j: int| 0 <= j < rest.len() implies (#[trigger] rest[j]).name@ != name by {
            assert(rest[j] == cameras[j + 1]);
        }
        assert(cameras[0].name@ != name);
        lemma_no_camera(rest, name);
    }
}

proof fn lemma_no_user(users: Seq<UserConfig>, name: Seq<char>)
    requires
        forall|j: int| 0 <= j < users.len() ==> (#[trigger] users[j]).name@ != name,
    ensures
        user_named(users, name) is None,
    decreases users.len(),
{
    if users.len() > 0 {
        let rest = users.drop_first();
        assert forall|j: int| 0 <= j < rest.len() implies (#[trigger] rest[j]).name@ != name by {
            assert(rest[j] == users[j + 1]);
        }
        assert(users[0].name@ != name);
        lemma_no_user(rest, name);
    }
}

proof fn lemma_first_user(users: Seq<UserConfig>, name: Seq<char>, i: int)
    requires
        0 <= i < users.len(),
        users[i].name@ == name,
        forall|j: int| 0 <= j < i ==> (#[trigger] users[j]).name@ != name,
    ensures
        user_named(users, name) == Some(users[i]),
    decreases i,
{
    if i > 0 {
        let rest = users.drop_first();
        assert forall|j: int| 0 <= j < i - 1 implies (#[trigger] rest[j]).name@ != name by {
            assert(rest[j] == users[j + 1]);
        }
        assert(users[0].name@ != name);
        assert(rest[i - 1] == users[i]);
        lemma_first_user(rest, name, i - 1);
    }
}

/// A new configuration keeps its own broker, and its own credentials,
/// certificates and keys where it gives any; what it leaves out of these stays as
/// it was.
pub proof fn law_left_out_credentials_stay(restored: Config, config: Config, current: Config)
    requires
        secrets_restored(restored, config, current),
        config.mqtt is Some,
        current.mqtt is Some,
    ensures
        restored.mqtt is Some,
        restored.mqtt->0.broker_addr == config.mqtt->0.broker_addr,
        restored.mqtt->0.port == config.mqtt->0.port,
        config.mqtt->0.credentials matches Some((user, pass)) ==> mqttc::pair_view(
            restored.mqtt->0.credentials,
        ) == Some((user@, pass@)),
        config.mqtt->0.credentials is None ==> mqttc::pair_view(restored.mqtt->0.credentials)
            == mqttc::pair_view(current.mqtt->0.credentials),
        config.mqtt->0.ca matches Some(ca) ==> text::opt_view(restored.mqtt->0.ca) == Some(ca@),
        config.mqtt->0.ca is None ==> text::opt_view(restored.mqtt->0.ca) == text::opt_view(
            current.mqtt->0.ca,
        ),
        config.mqtt->0.client_auth matches Some((cert, key)) ==> mqttc::pair_view(
            restored.mqtt->0.client_auth,
        ) == Some((cert@, key@)),
        config.mqtt->0.client_auth is None ==> mqttc::pair_view(restored.mqtt->0.client_auth)
            == mqttc::pair_view(current.mqtt->0.client_auth),
{
}

/// Restoring secrets changes nothing but secrets.
pub proof fn law_only_secrets_are_restored(restored: Config, config: Config, current: Config, i: int)
    requires
        secrets_restored(restored, config, current),
    ensures
        restored.bind_addr == config.bind_addr,
        restored.bind_port == config.bind_port,
        restored.onvif == config.onvif,
        restored.certificate == config.certificate,
        restored.tls_client_auth == config.tls_client_auth,
        restored.dscp == config.dscp,
        restored.cameras@.len() == config.cameras@.len(),
        restored.users@.len() == config.users@.len(),
        0 <= i < config.cameras@.len() ==> restored.cameras@[i] == (CameraConfig {
            password: restored.cameras@[i].password,
            ..config.cameras@[i]
        }),
        0 <= i < config.users@.len() ==> restored.users@[i].name == config.users@[i].name,
{
    if 0 <= i < config.cameras@.len() {
        assert(restored.cameras@[i] == restored.cameras@[i]);
    }
    if 0 <= i < config.users@.len() {
        assert(restored.users@[i] == restored.users@[i]);
    }
}

} // verus!

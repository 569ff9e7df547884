//! What is published about a camera while it is listened to.

use vstd::prelude::*;
use vstd::string::*;
use crate::camera::ReadFailure;
use crate::codec;
use crate::config::MqttConfig;
use crate::mqtt::messages;
use crate::mqtt::messages::Publish;
use crate::text;

verus! {

/// A step of starting to listen to a camera.
#[derive(Debug)]
pub enum StartStep {
    Publish(Publish),
    /// Leave this for when the connection is lost.
    LastWill { topic: &'static str, message: &'static str },
    /// Announce the camera's features.
    EnableDiscovery,
}

/// A step, its texts as sequences.
pub enum StartView {
    Publish(Seq<char>, Seq<char>, bool),
    LastWill(Seq<char>, Seq<char>),
    EnableDiscovery,
}

impl View for StartStep {
    type V = StartView;

    open spec fn view(&self) -> StartView {
        match self {
            StartStep::Publish(p) => StartView::Publish(p.topic@, p.message@, p.retain),
            StartStep::LastWill { topic, message } => StartView::LastWill(topic@, message@),
            StartStep::EnableDiscovery => StartView::EnableDiscovery,
        }
    }
}

/// How listening to a camera starts: nothing is known of it yet.
pub open spec fn start_of(discovery: bool) -> Seq<StartView> {
    seq![
        StartView::Publish("status"@, "disconnected"@, true),
        StartView::LastWill("status"@, "disconnected"@),
        StartView::Publish("status/motion"@, "unknown"@, true),
        StartView::Publish("status/notification"@, "unknown"@, true),
        StartView::LastWill("status/motion"@, "unknown"@),
    ] + (if discovery {
        seq![StartView::EnableDiscovery]
    } else {
        Seq::empty()
    })
}

/// How listening to a camera starts.
pub fn start_steps(config: &MqttConfig) -> (steps: Vec<StartStep>)
    ensures
        steps@.map_values(|s: StartStep| s@) == start_of(config.discovery is Some),
{
    let mut steps: Vec<StartStep> = Vec::new();
    steps.push(
        StartStep::Publish(
            Publish { topic: "status", message: "disconnected".to_owned(), retain: true },
        ),
    );
    steps.push(StartStep::LastWill { topic: "status", message: "disconnected" });
    steps.push(
        StartStep::Publish(
            Publish { topic: "status/motion", message: "unknown".to_owned(), retain: true },
        ),
    );
    steps.push(
        StartStep::Publish(
            Publish { topic: "status/notification", message: "unknown".to_owned(), retain: true },
        ),
    );
    steps.push(StartStep::LastWill { topic: "status/motion", message: "unknown" });
    if config.discovery.is_some() {
        steps.push(StartStep::EnableDiscovery);
    }
    assert(steps@.map_values(|s: StartStep| s@) =~= start_of(config.discovery is Some));
    steps
}

/// Something that is watched on a camera.
#[derive(Clone, Copy, PartialEq, Eq, Structural, Debug)]
pub enum Watch {
    /// Incoming messages.
    Requests,
    /// Whether the camera is connected.
    Connection,
    /// The floodlight's state.
    Light,
    Motion,
    Preview,
    Battery,
    Notifications,
    /// Whether the floodlight's tasks are on.
    FloodlightTasks,
    Privacy,
    Scenes,
}

/// The parts of a camera's settings that the watches depend on and that its
/// MQTT section does not hold.
#[derive(Clone, Copy, Debug)]
pub struct WatchOptions {
    /// Whether push notifications are built in.
    pub push_notifications: bool,
    pub enable_privacy: bool,
    /// Update time in ms.
    pub privacy_update: u64,
    pub enable_scene: bool,
    /// Update time in ms.
    pub scene_update: u64,
}

/// Whether something is watched.
pub open spec fn watched(watch: Watch, config: MqttConfig, options: WatchOptions) -> bool {
    match watch {
        Watch::Requests => true,
        Watch::Connection => true,
        Watch::Light => config.enable_light,
        Watch::Motion => config.enable_motion,
        Watch::Preview => config.enable_preview,
        Watch::Battery => config.enable_battery,
        Watch::Notifications => options.push_notifications,
        Watch::FloodlightTasks => config.enable_floodlight,
        Watch::Privacy => options.enable_privacy,
        Watch::Scenes => options.enable_scene,
    }
}

/// Whether something is watched.
pub fn is_watched(watch: Watch, config: &MqttConfig, options: &WatchOptions) -> (yes: bool)
    ensures
        yes == watched(watch, *config, *options),
{
    match watch {
        Watch::Requests => true,
        Watch::Connection => true,
        Watch::Light => config.enable_light,
        Watch::Motion => config.enable_motion,
        Watch::Preview => config.enable_preview,
        Watch::Battery => config.enable_battery,
        Watch::Notifications => options.push_notifications,
        Watch::FloodlightTasks => config.enable_floodlight,
        Watch::Privacy => options.enable_privacy,
        Watch::Scenes => options.enable_scene,
    }
}

/// How often a thing that is asked for, rather than told, is asked for.
pub open spec fn interval_of(watch: Watch, config: MqttConfig, options: WatchOptions) -> Option<
    u64,
> {
    match watch {
        Watch::Preview => Some(config.preview_update),
        Watch::Battery => Some(config.battery_update),
        Watch::FloodlightTasks => Some(config.floodlight_update),
        Watch::Privacy => Some(options.privacy_update),
        Watch::Scenes => Some(options.scene_update),
        _ => None,
    }
}

/// How often something is polled, in milliseconds; `None` for what reports
/// itself.
pub fn poll_interval(watch: Watch, config: &MqttConfig, options: &WatchOptions) -> (interval: Option<
    u64,
>)
    ensures
        interval == interval_of(watch, *config, *options),
{
    match watch {
        Watch::Preview => Some(config.preview_update),
        Watch::Battery => Some(config.battery_update),
        Watch::FloodlightTasks => Some(config.floodlight_update),
        Watch::Privacy => Some(options.privacy_update),
        Watch::Scenes => Some(options.scene_update),
        _ => None,
    }
}

/// A push notification of a camera.
#[derive(Clone, PartialEq, Debug)]
pub struct PushNotification {
    pub message: String,
    pub id: Option<String>,
}

/// Whether two notifications are the same.
pub open spec fn same_notification(a: PushNotification, b: PushNotification) -> bool {
    a.message@ == b.message@ && text::opt_view(a.id) == text::opt_view(b.id)
}

/// What is seen of a camera.
#[derive(Debug)]
pub enum WatchEvent {
    /// Whether it is connected now.
    Connected(bool),
    /// The state of each of its floodlights, zero meaning off.
    Lights(Vec<u32>),
    /// Its floodlight is no longer reported.
    LightsEnded(ReadFailure),
    MotionStart,
    MotionStop,
    Snapshot(Result<Vec<u8>, ReadFailure>),
    /// The charge of its battery, in percent.
    Battery(Result<u32, ReadFailure>),
    /// The latest push notification, if there has been one.
    Notification(Option<PushNotification>),
    FloodlightTasks(Result<bool, ReadFailure>),
    Privacy(Result<bool, ReadFailure>),
    Scenes(Result<Vec<u8>, ReadFailure>),
}

/// What to do about it.
#[derive(Debug)]
pub enum Reaction {
    /// Publish these, in order.
    Publish(Vec<Publish>),
    /// Stop watching this, and go on with the rest.
    Quiet,
    /// Stop listening to the camera, in an error.
    Fail,
}

/// A reaction, its texts as sequences.
pub enum ReactionView {
    Publish(Seq<(Seq<char>, Seq<char>, bool)>),
    Quiet,
    Fail,
}

impl View for Reaction {
    type V = ReactionView;

    open spec fn view(&self) -> ReactionView {
        match self {
            Reaction::Publish(list) => ReactionView::Publish(
                list@.map_values(|p: Publish| p.parts()),
            ),
            Reaction::Quiet => ReactionView::Quiet,
            Reaction::Fail => ReactionView::Fail,
        }
    }
}

/// What has been seen of a camera so far.
#[derive(Debug)]
pub struct Seen {
    /// Whether it was last published as connected.
    pub connected: bool,
    /// Whether motion was last published as on.
    pub moving: bool,
    /// The notification published last.
    pub notification: Option<PushNotification>,
    /// Whether each of these has been read before.
    pub floodlight_tasks: bool,
    pub privacy: bool,
    pub scenes: bool,
}

/// Nothing to publish.
pub open spec fn silence() -> ReactionView {
    ReactionView::Publish(Seq::empty())
}

/// One message to publish, retained.
pub open spec fn say(topic: Seq<char>, message: Seq<char>) -> ReactionView {
    ReactionView::Publish(seq![(topic, message, true)])
}

/// What a failed read means for something that is polled and must work: it is
/// given up if the camera does not have it, and otherwise is an error.
pub open spec fn failed_poll(failure: ReadFailure) -> ReactionView {
    match failure {
        ReadFailure::Other => ReactionView::Fail,
        _ => ReactionView::Quiet,
    }
}

/// What a failed read means for something that may not be there: it is given up
/// if it has never been read, and otherwise it is passed over.
pub open spec fn failed_optional(before: bool) -> ReactionView {
    if before {
        silence()
    } else {
        ReactionView::Quiet
    }
}

/// The messages for a list of floodlights.
pub open spec fn light_messages(lights: Seq<u32>) -> Seq<(Seq<char>, Seq<char>, bool)> {
    lights.map_values(
        |status: u32| ("status/floodlight"@, messages::on_off_text(status != 0), true),
    )
}

/// The reaction to an event, given what has been seen before.
pub open spec fn reaction_to(seen: Seen, event: WatchEvent) -> ReactionView {
    match event {
        WatchEvent::Connected(now) => if now == seen.connected {
            silence()
        } else if now {
            say("status"@, "connected"@)
        } else {
            say("status"@, "disconnected"@)
        },
        WatchEvent::Lights(lights) => ReactionView::Publish(light_messages(lights@)),
        WatchEvent::LightsEnded(failure) => match failure {
            ReadFailure::Unintelligible => ReactionView::Quiet,
            _ => ReactionView::Fail,
        },
        WatchEvent::MotionStart => if seen.moving {
            silence()
        } else {
            say("status/motion"@, "on"@)
        },
        WatchEvent::MotionStop => if seen.moving {
            say("status/motion"@, "off"@)
        } else {
            silence()
        },
        WatchEvent::Snapshot(Ok(image)) => say("status/preview"@, codec::base64_text(image@)),
        WatchEvent::Snapshot(Err(failure)) => failed_poll(failure),
        WatchEvent::Battery(Ok(percent)) => say(
            "status/battery_level"@,
            text::decimal(percent as nat),
        ),
        WatchEvent::Battery(Err(failure)) => failed_poll(failure),
        WatchEvent::Notification(None) => silence(),
        WatchEvent::Notification(Some(new)) => if seen.notification matches Some(last)
            && same_notification(last, new) {
            silence()
        } else {
            say("status/notification"@, new.message@)
        },
        WatchEvent::FloodlightTasks(Ok(on)) => say(
            "status/floodlight_tasks"@,
            messages::on_off_text(on),
        ),
        WatchEvent::FloodlightTasks(Err(_)) => failed_optional(seen.floodlight_tasks),
        WatchEvent::Privacy(Ok(on)) => say("status/privacy"@, messages::on_off_text(on)),
        WatchEvent::Privacy(Err(_)) => failed_optional(seen.privacy),
        WatchEvent::Scenes(Ok(ids)) => say(
            "status/scene_list"@,
            text::csv(ids@.map_values(|n: u8| n as nat)),
        ),
        WatchEvent::Scenes(Err(_)) => failed_optional(seen.scenes),
    }
}

/// What has been seen after an event.
pub open spec fn seen_after(seen: Seen, event: WatchEvent) -> Seen {
    match event {
        WatchEvent::Connected(now) => Seen { connected: now, ..seen },
        WatchEvent::MotionStart => Seen { moving: true, ..seen },
        WatchEvent::MotionStop => Seen { moving: false, ..seen },
        WatchEvent::Notification(Some(new)) => Seen { notification: Some(new), ..seen },
        WatchEvent::FloodlightTasks(Ok(_)) => Seen { floodlight_tasks: true, ..seen },
        WatchEvent::Privacy(Ok(_)) => Seen { privacy: true, ..seen },
        WatchEvent::Scenes(Ok(_)) => Seen { scenes: true, ..seen },
        _ => seen,
    }
}

fn is_same_notification(a: &PushNotification, b: &PushNotification) -> (same: bool)
    ensures
        same == same_notification(*a, *b),
{
    if !text::same(a.message.as_str(), b.message.as_str()) {
        return false;
    }
    match (&a.id, &b.id) {
        (Some(x), Some(y)) => text::same(x.as_str(), y.as_str()),
        (None, None) => true,
        _ => false,
    }
}

fn nothing() -> (reaction: Reaction)
    ensures
        reaction@ == silence(),
{
    let list: Vec<Publish> = Vec::new();
    assert(list@.map_values(|p: Publish| p.parts()) =~= Seq::empty());
    Reaction::Publish(list)
}

fn one(topic: &'static str, message: String) -> (reaction: Reaction)
    ensures
        reaction@ == say(topic@, message@),
{
    let mut list: Vec<Publish> = Vec::new();
    list.push(Publish { topic, message, retain: true });
    assert(list@.map_values(|p: Publish| p.parts()) =~= seq![(topic@, message@, true)]);
    Reaction::Publish(list)
}

fn on_failed_poll(failure: ReadFailure) -> (reaction: Reaction)
    ensures
        reaction@ == failed_poll(failure),
{
    match failure {
        ReadFailure::Other => Reaction::Fail,
        _ => Reaction::Quiet,
    }
}

fn on_failed_optional(before: bool) -> (reaction: Reaction)
    ensures
        reaction@ == failed_optional(before),
{
    if before {
        nothing()
    } else {
        Reaction::Quiet
    }
}

fn lights_messages(lights: &Vec<u32>) -> (list: Vec<Publish>)
    ensures
        list@.map_values(|p: Publish| p.parts()) == light_messages(lights@),
{
    let mut list: Vec<Publish> = Vec::new();
    let mut i: usize = 0;
    while i < lights.len()
        invariant
            i <= lights@.len(),
            list@.len() == i,
            forall|j: int|
                0 <= j < i ==> (#[trigger] list@[j]).parts() == (
                    "status/floodlight"@,
                    messages::on_off_text(lights@[j] != 0),
                    true,
                ),
        decreases lights@.len() - i,
    {
        list.push(
            Publish {
                topic: "status/floodlight",
                message: messages::on_off_word(lights[i] != 0).to_owned(),
                retain: true,
            },
        );
        i += 1;
    }
    assert(list@.map_values(|p: Publish| p.parts()) =~= light_messages(lights@));
    list
}

impl Seen {
    /// Before anything has been seen: the camera was published as disconnected.
    pub fn new() -> (seen: Self)
        ensures
            seen == (Seen {
                connected: false,
                moving: false,
                notification: None,
                floodlight_tasks: false,
                privacy: false,
                scenes: false,
            }),
    {
        Seen {
            connected: false,
            moving: false,
            notification: None,
            floodlight_tasks: false,
            privacy: false,
            scenes: false,
        }
    }

    /// What to do about an event.
    pub fn react(&mut self, event: WatchEvent) -> (reaction: Reaction)
        ensures
            reaction@ == reaction_to(*old(self), event),
            *final(self) == seen_after(*old(self), event),
    {
        match event {
            WatchEvent::Connected(now) => {
                let before: bool = self.connected;
                self.connected = now;
                if now == before {
                    nothing()
                } else if now {
                    one("status", "connected".to_owned())
                } else {
                    one("status", "disconnected".to_owned())
                }
            },
            WatchEvent::Lights(lights) => Reaction::Publish(lights_messages(&lights)),
            WatchEvent::LightsEnded(failure) => match failure {
                ReadFailure::Unintelligible => Reaction::Quiet,
                _ => Reaction::Fail,
            },
            WatchEvent::MotionStart => {
                let before: bool = self.moving;
                self.moving = true;
                if before {
                    nothing()
                } else {
                    one("status/motion", "on".to_owned())
                }
            },
            WatchEvent::MotionStop => {
                let before: bool = self.moving;
                self.moving = false;
                if before {
                    one("status/motion", "off".to_owned())
                } else {
                    nothing()
                }
            },
            WatchEvent::Snapshot(Ok(image)) => one(
                "status/preview",
                codec::base64_encode(image.as_slice()),
            ),
            WatchEvent::Snapshot(Err(failure)) => on_failed_poll(failure),
            WatchEvent::Battery(Ok(percent)) => one(
                "status/battery_level",
                text::decimal_text(percent as u64),
            ),
            WatchEvent::Battery(Err(failure)) => on_failed_poll(failure),
            WatchEvent::Notification(None) => nothing(),
            WatchEvent::Notification(Some(new)) => {
                let known: bool = match &self.notification {
                    Some(last) => is_same_notification(last, &new),
                    None => false,
                };
                let message = new.message.clone();
                self.notification = Some(new);
                if known {
                    nothing()
                } else {
                    one("status/notification", message)
                }
            },
            WatchEvent::FloodlightTasks(Ok(on)) => {
                self.floodlight_tasks = true;
                one("status/floodlight_tasks", messages::on_off_word(on).to_owned())
            },
            WatchEvent::FloodlightTasks(Err(_)) => on_failed_optional(self.floodlight_tasks),
            WatchEvent::Privacy(Ok(on)) => {
                self.privacy = true;
                one("status/privacy", messages::on_off_word(on).to_owned())
            },
            WatchEvent::Privacy(Err(_)) => on_failed_optional(self.privacy),
            WatchEvent::Scenes(Ok(ids)) => {
                self.scenes = true;
                one("status/scene_list", text::csv_u8(ids.as_slice()))
            },
            WatchEvent::Scenes(Err(_)) => on_failed_optional(self.scenes),
        }
    }
}

/// Motion is published as turning on and off in turn, however often the camera
/// repeats itself.
pub proof fn law_motion_alternates(seen: Seen)
    ensures
        reaction_to(seen_after(seen, WatchEvent::MotionStart), WatchEvent::MotionStart) == silence(),
        reaction_to(seen_after(seen, WatchEvent::MotionStart), WatchEvent::MotionStop) == say(
            "status/motion"@,
            "off"@,
        ),
        reaction_to(seen_after(seen, WatchEvent::MotionStop), WatchEvent::MotionStop) == silence(),
        reaction_to(seen_after(seen, WatchEvent::MotionStop), WatchEvent::MotionStart) == say(
            "status/motion"@,
            "on"@,
        ),
{
}

/// A notification that is seen again, and is still the latest, is not published
/// again.
pub proof fn law_notifications_are_published_once(seen: Seen, new: PushNotification)
    ensures
        reaction_to(
            seen_after(seen, WatchEvent::Notification(Some(new))),
            WatchEvent::Notification(Some(new)),
        ) == silence(),
{
}

/// Whether a list of names holds a name.
pub open spec fn holds(names: Seq<String>, name: Seq<char>) -> bool {
    exists|i: int| 0 <= i < names.len() && (#[trigger] names[i])@ == name
}

fn name_in(names: &Vec<String>, name: &str) -> (yes: bool)
    ensures
        yes == holds(names@, name@),
{
    let mut i: usize = 0;
    while i < names.len()
        invariant
            i <= names@.len(),
            forall|j: int| 0 <= j < i ==> (#[trigger] names@[j])@ != name@,
        decreases names@.len() - i,
    {
        if text::same(names[i].as_str(), name) {
            return true;
        }
        i += 1;
    }
    false
}

/// The names of one list that another does not hold, in order.
pub open spec fn missing_from(names: Seq<String>, others: Seq<String>) -> Seq<Seq<char>>
    decreases names.len(),
{
    if names.len() == 0 {
        Seq::empty()
    } else {
        let rest = missing_from(names.drop_last(), others);
        if holds(others, names.last()@) {
            rest
        } else {
            rest.push(names.last()@)
        }
    }
}

/// The names of one list that another does not hold: with what is wanted and
/// what runs, what to start; the other way round, what to stop.
pub fn names_missing(names: &Vec<String>, others: &Vec<String>) -> (missing: Vec<String>)
    ensures
        text::views(missing@) == missing_from(names@, others@),
{
    let mut missing: Vec<String> = Vec::new();
    let mut i: usize = 0;
    assert(names@.take(0) =~= Seq::<String>::empty());
    assert(text::views(missing@) =~= Seq::empty());
    while i < names.len()
        invariant
            i <= names@.len(),
            text::views(missing@) == missing_from(names@.take(i as int), others@),
        decreases names@.len() - i,
    {
        let ghost before = text::views(missing@);
        assert(names@.take(i + 1).drop_last() =~= names@.take(i as int));
        assert(names@.take(i + 1).last() == names@[i as int]);
        if !name_in(others, names[i].as_str()) {
            missing.push(names[i].clone());
            assert(text::views(missing@) =~= before.push(names@[i as int]@));
        }
        i += 1;
    }
    assert(names@.take(i as int) =~= names@);
    missing
}

/// Each kind of thing is watched only where its own setting says so, and is asked
/// for as often as its own setting says. Requests and the connection are always
/// watched, and what the camera tells of itself is not asked for.
pub proof fn law_settings_choose_what_is_watched(config: MqttConfig, options: WatchOptions)
    ensures
        watched(Watch::Requests, config, options),
        watched(Watch::Connection, config, options),
        watched(Watch::Light, config, options) <==> config.enable_light,
        watched(Watch::Motion, config, options) <==> config.enable_motion,
        watched(Watch::Preview, config, options) <==> config.enable_preview,
        watched(Watch::Battery, config, options) <==> config.enable_battery,
        watched(Watch::Notifications, config, options) <==> options.push_notifications,
        watched(Watch::FloodlightTasks, config, options) <==> config.enable_floodlight,
        watched(Watch::Privacy, config, options) <==> options.enable_privacy,
        watched(Watch::Scenes, config, options) <==> options.enable_scene,
        interval_of(Watch::Preview, config, options) == Some(config.preview_update),
        interval_of(Watch::Battery, config, options) == Some(config.battery_update),
        interval_of(Watch::FloodlightTasks, config, options) == Some(config.floodlight_update),
        interval_of(Watch::Privacy, config, options) == Some(options.privacy_update),
        interval_of(Watch::Scenes, config, options) == Some(options.scene_update),
        interval_of(Watch::Requests, config, options) is None,
        interval_of(Watch::Connection, config, options) is None,
        interval_of(Watch::Light, config, options) is None,
        interval_of(Watch::Motion, config, options) is None,
        interval_of(Watch::Notifications, config, options) is None,
{
}

/// What a camera tells is published, and kept by the broker, under the topic that
/// is named after it.
pub proof fn law_events_are_published_under_their_topics(
    seen: Seen,
    image: Vec<u8>,
    percent: u32,
    on: bool,
    ids: Vec<u8>,
    new: PushNotification,
)
    ensures
        reaction_to(seen, WatchEvent::Connected(!seen.connected)) == ReactionView::Publish(
            seq![
                (
                    "status"@,
                    if seen.connected {
                        "disconnected"@
                    } else {
                        "connected"@
                    },
                    true,
                ),
            ],
        ),
        reaction_to(seen, WatchEvent::Connected(seen.connected)) == ReactionView::Publish(
            Seq::<(Seq<char>, Seq<char>, bool)>::empty(),
        ),
        !seen.moving ==> reaction_to(seen, WatchEvent::MotionStart) == ReactionView::Publish(
            seq![("status/motion"@, "on"@, true)],
        ),
        seen.moving ==> reaction_to(seen, WatchEvent::MotionStop) == ReactionView::Publish(
            seq![("status/motion"@, "off"@, true)],
        ),
        reaction_to(seen, WatchEvent::Snapshot(Ok(image))) == ReactionView::Publish(
            seq![("status/preview"@, codec::base64_text(image@), true)],
        ),
        reaction_to(seen, WatchEvent::Battery(Ok(percent))) == ReactionView::Publish(
            seq![("status/battery_level"@, text::decimal(percent as nat), true)],
        ),
        reaction_to(seen, WatchEvent::FloodlightTasks(Ok(on))) == ReactionView::Publish(
            seq![
                (
                    "status/floodlight_tasks"@,
                    if on {
                        "on"@
                    } else {
                        "off"@
                    },
                    true,
                ),
            ],
        ),
        reaction_to(seen, WatchEvent::Privacy(Ok(on))) == ReactionView::Publish(
            seq![
                (
                    "status/privacy"@,
                    if on {
                        "on"@
                    } else {
                        "off"@
                    },
                    true,
                ),
            ],
        ),
        reaction_to(seen, WatchEvent::Scenes(Ok(ids))) == ReactionView::Publish(
            seq![("status/scene_list"@, text::csv(ids@.map_values(|n: u8| n as nat)), true)],
        ),
        seen.notification is None ==> reaction_to(seen, WatchEvent::Notification(Some(new)))
            == ReactionView::Publish(seq![("status/notification"@, new.message@, true)]),
        reaction_to(seen, WatchEvent::Notification(None)) == ReactionView::Publish(
            Seq::<(Seq<char>, Seq<char>, bool)>::empty(),
        ),
{
}

/// A notification that differs from the last one, in its text or its number, is
/// published.
pub proof fn law_new_notifications_are_published(
    seen: Seen,
    last: PushNotification,
    new: PushNotification,
)
    requires
        seen.notification == Some(last),
        last.message@ != new.message@ || text::opt_view(last.id) != text::opt_view(new.id),
    ensures
        reaction_to(seen, WatchEvent::Notification(Some(new))) == ReactionView::Publish(
            seq![("status/notification"@, new.message@, true)],
        ),
        seen_after(seen, WatchEvent::Notification(Some(new))).notification == Some(new),
{
}

/// Each floodlight that is told of is published, in order: on for a status that
/// is not zero, off for zero.
pub proof fn law_floodlights_are_published_in_order(seen: Seen, lights: Vec<u32>, i: int)
    requires
        0 <= i < lights@.len(),
    ensures
        reaction_to(seen, WatchEvent::Lights(lights)) matches ReactionView::Publish(list)
            && list.len() == lights@.len() && list[i] == (
            "status/floodlight"@,
            if lights@[i] == 0 {
                "off"@
            } else {
                "on"@
            },
            true,
        ),
{
}

/// A failure ends the watching of pictures and of the battery only if it is none
/// that the camera is known for. What a camera may lack is not watched on if the
/// first answer was a failure, and is watched on if it ever answered.
pub proof fn law_failures_end_what_cannot_work(seen: Seen, failure: ReadFailure)
    ensures
        reaction_to(seen, WatchEvent::Snapshot(Err(failure))) == (if failure == ReadFailure::Other {
            ReactionView::Fail
        } else {
            ReactionView::Quiet
        }),
        reaction_to(seen, WatchEvent::Battery(Err(failure))) == (if failure == ReadFailure::Other {
            ReactionView::Fail
        } else {
            ReactionView::Quiet
        }),
        reaction_to(seen, WatchEvent::LightsEnded(failure)) == (if failure
            == ReadFailure::Unintelligible {
            ReactionView::Quiet
        } else {
            ReactionView::Fail
        }),
        seen.floodlight_tasks ==> reaction_to(seen, WatchEvent::FloodlightTasks(Err(failure)))
            == ReactionView::Publish(Seq::<(Seq<char>, Seq<char>, bool)>::empty()),
        !seen.floodlight_tasks ==> reaction_to(seen, WatchEvent::FloodlightTasks(Err(failure)))
            == ReactionView::Quiet,
        seen.privacy ==> reaction_to(seen, WatchEvent::Privacy(Err(failure)))
            == ReactionView::Publish(Seq::<(Seq<char>, Seq<char>, bool)>::empty()),
        !seen.privacy ==> reaction_to(seen, WatchEvent::Privacy(Err(failure)))
            == ReactionView::Quiet,
        seen.scenes ==> reaction_to(seen, WatchEvent::Scenes(Err(failure)))
            == ReactionView::Publish(Seq::<(Seq<char>, Seq<char>, bool)>::empty()),
        !seen.scenes ==> reaction_to(seen, WatchEvent::Scenes(Err(failure))) == ReactionView::Quiet,
        seen_after(seen, WatchEvent::FloodlightTasks(Ok(true))).floodlight_tasks,
        seen_after(seen, WatchEvent::Privacy(Ok(true))).privacy,
        seen_after(seen, WatchEvent::FloodlightTasks(Err(failure))) == seen,
        seen_after(seen, WatchEvent::Privacy(Err(failure))) == seen,
        seen_after(seen, WatchEvent::Scenes(Err(failure))) == seen,
{
}

/// Before anything is known, the camera is disconnected and its motion and
/// notifications are unknown, and so it is once the connection is lost. Discovery
/// is announced only where it is set up.
pub proof fn law_listening_starts_from_nothing(discovery: bool)
    ensures
        start_of(discovery).contains(StartView::Publish("status"@, "disconnected"@, true)),
        start_of(discovery).contains(StartView::LastWill("status"@, "disconnected"@)),
        start_of(discovery).contains(StartView::Publish("status/motion"@, "unknown"@, true)),
        start_of(discovery).contains(StartView::Publish("status/notification"@, "unknown"@, true)),
        start_of(discovery).contains(StartView::LastWill("status/motion"@, "unknown"@)),
        start_of(discovery).contains(StartView::EnableDiscovery) <==> discovery,
{
    let all = start_of(discovery);
    assert(all[0] == StartView::Publish("status"@, "disconnected"@, true));
    assert(all[1] == StartView::LastWill("status"@, "disconnected"@));
    assert(all[2] == StartView::Publish("status/motion"@, "unknown"@, true));
    assert(all[3] == StartView::Publish("status/notification"@, "unknown"@, true));
    assert(all[4] == StartView::LastWill("status/motion"@, "unknown"@));
    if discovery {
        assert(all[5] == StartView::EnableDiscovery);
    }
}

/// A list of names that are missing holds exactly those of the first list that
/// the second does not hold.
pub proof fn law_missing_names_are_missing(names: Seq<String>, others: Seq<String>, name: Seq<char>)
    ensures
        missing_from(names, others).contains(name) <==> ((exists|i: int|
            0 <= i < names.len() && (#[trigger] names[i])@ == name) && (forall|j: int|
            0 <= j < others.len() ==> (#[trigger] others[j])@ != name)),
    decreases names.len(),
{
    if names.len() > 0 {
        let rest = missing_from(names.drop_last(), others);
        let all = missing_from(names, others);
        let last = names.last()@;
        law_missing_names_are_missing(names.drop_last(), others, name);
        assert(names[names.len() - 1]@ == last);
        if exists|i: int| 0 <= i < names.drop_last().len() && (#[trigger] names.drop_last()[i])@
            == name {
            let i = choose|i: int|
                0 <= i < names.drop_last().len() && (#[trigger] names.drop_last()[i])@ == name;
            assert(names[i]@ == name);
        }
        if exists|i: int| 0 <= i < names.len() && (#[trigger] names[i])@ == name {
            let i = choose|i: int| 0 <= i < names.len() && (#[trigger] names[i])@ == name;
            if i < names.len() - 1 {
                assert(names.drop_last()[i]@ == name);
            }
        }
        if !holds(others, last) {
            assert(all == rest.push(last));
            assert(all[rest.len() as int] == last);
            if rest.contains(name) {
                let k = choose|k: int| 0 <= k < rest.len() && rest[k] == name;
                assert(all[k] == name);
            }
            if all.contains(name) {
                let k = choose|k: int| 0 <= k < all.len() && all[k] == name;
                if k < rest.len() {
                    assert(rest[k] == name);
                }
            }
        }
    }
}

} // verus!

//! What a camera's alarms become as ONVIF notifications, and the PullPoint
//! subscriptions they wait in.
//!
//! * `tns1:VideoSource/MotionAlarm` and
//!   `tns1:RuleEngine/CellMotionDetector/Motion` for motion
//! * `tns1:RuleEngine/MyRuleDetector/*` (people, vehicle, dog/cat, face,
//!   visitor, package) and `tns1:AudioAnalytics/Audio/DetectedSound` (baby cry)
//!   for the detections of a camera
//! * `tns1:RuleEngine/FieldDetector/ObjectsInside` for the zone detectors
//!   (crossline, intrusion, loitering, legacy, loss), told apart by the `Rule`
//!   source item
//!
//! Clients call `CreatePullPointSubscription`, then poll the returned
//! subscription with `PullMessages`.

use vstd::prelude::*;
use vstd::string::*;
use crate::camera::MdState;
use crate::text;
use crate::time;
use crate::time::Timestamp;

verus! {

/// How long a freshly created subscription remains valid before it must be
/// renewed, in seconds.
pub const DEFAULT_SUBSCRIPTION_TTL: u64 = 300;

/// Hard ceiling on a subscription's lifetime regardless of what the client asked
/// for, in seconds.
pub const MAX_SUBSCRIPTION_TTL: u64 = 3_600;

/// Hard cap on pending notifications per subscription. Beyond this the oldest is
/// dropped.
pub const MAX_PENDING_MESSAGES: usize = 256;

/// Hard cap on simultaneous subscriptions per camera.
pub const MAX_SUBSCRIPTIONS_PER_CAMERA: usize = 32;

/// Hard ceiling on how long a `PullMessages` is held open, in milliseconds.
pub const MAX_PULL_TIMEOUT: u64 = 60_000;

/// The name of the data item on the rule-detector topics. Clients look it up by
/// name.
pub const AI_DATA_NAME: &'static str = "State";

/// The ONVIF topic for an audio detection (baby cry).
pub const AUDIO_TOPIC: &'static str = "tns1:AudioAnalytics/Audio/DetectedSound";

/// The ONVIF topic used for the zone detectors.
pub const FIELD_TOPIC: &'static str = "tns1:RuleEngine/FieldDetector/ObjectsInside";

/// A single notification message kept in a subscription's queue.
///
/// `source` and `data` are lists because some ONVIF topics carry more than one
/// `SimpleItem`.
#[derive(Debug)]
pub struct Notification {
    pub utc_time: Timestamp,
    pub topic: &'static str,
    pub source: Vec<(&'static str, String)>,
    pub data: Vec<(&'static str, String)>,
    pub property_op: &'static str,
}

/// A notification, its texts as sequences.
#[verifier::ext_equal]
pub struct NotificationView {
    pub utc_time: Timestamp,
    pub topic: Seq<char>,
    pub source: Seq<(Seq<char>, Seq<char>)>,
    pub data: Seq<(Seq<char>, Seq<char>)>,
    pub property_op: Seq<char>,
}

/// Named items as sequences.
pub open spec fn items_view(items: Seq<(&'static str, String)>) -> Seq<(Seq<char>, Seq<char>)> {
    items.map_values(|i: (&'static str, String)| (i.0@, i.1@))
}

impl View for Notification {
    type V = NotificationView;

    open spec fn view(&self) -> NotificationView {
        NotificationView {
            utc_time: self.utc_time,
            topic: self.topic@,
            source: items_view(self.source@),
            data: items_view(self.data@),
            property_op: self.property_op@,
        }
    }
}

/// Notifications, their texts as sequences.
pub open spec fn notifications_view(list: Seq<Notification>) -> Seq<NotificationView> {
    list.map_values(|n: Notification| n@)
}

fn copy_items(items: &Vec<(&'static str, String)>) -> (copy: Vec<(&'static str, String)>)
    ensures
        items_view(copy@) == items_view(items@),
{
    let mut copy: Vec<(&'static str, String)> = Vec::new();
    let mut i: usize = 0;
    while i < items.len()
        invariant
            i <= items@.len(),
            items_view(copy@) =~= items_view(items@).take(i as int),
        decreases items@.len() - i,
    {
        let ghost before = copy@;
        let item = &items[i];
        let value: String = item.1.clone();
        copy.push((item.0, value));
        assert(items_view(copy@) =~= items_view(before).push(items_view(items@)[i as int]));
        i += 1;
    }
    assert(items_view(items@).take(i as int) =~= items_view(items@));
    copy
}

fn copy_notification(n: &Notification) -> (copy: Notification)
    ensures
        copy@ == n@,
{
    Notification {
        utc_time: n.utc_time,
        topic: n.topic,
        source: copy_items(&n.source),
        data: copy_items(&n.data),
        property_op: n.property_op,
    }
}

/// How a motion state is told to a client: not at all if it is unknown.
pub open spec fn motion_of(s: MdState) -> Option<bool> {
    match s {
        MdState::Start => Some(true),
        MdState::Stop => Some(false),
        MdState::Unknown => None,
    }
}

/// How a motion state is told to a client: not at all if it is unknown.
pub fn mdstate_to_bool(s: MdState) -> (state: Option<bool>)
    ensures
        state == motion_of(s),
{
    match s {
        MdState::Start => Some(true),
        MdState::Stop => Some(false),
        MdState::Unknown => None,
    }
}

/// A state as a value of an item.
pub fn bool_value(state: bool) -> (value: String)
    ensures
        value@ == text::bool_text(state),
{
    text::bool_word(state).to_owned()
}

/// A notification with one source item that names the video source of a camera.
pub open spec fn source_notification(
    cam_name: Seq<char>,
    topic: Seq<char>,
    data_name: Seq<char>,
    state: bool,
    op: Seq<char>,
    now: Timestamp,
) -> NotificationView {
    NotificationView {
        utc_time: now,
        topic,
        source: seq![("Source"@, "vsrc_"@ + cam_name)],
        data: seq![(data_name, text::bool_text(state))],
        property_op: op,
    }
}

fn build_source_notification(
    cam_name: &str,
    topic: &'static str,
    data_name: &'static str,
    state: bool,
    op: &'static str,
    now: Timestamp,
) -> (n: Notification)
    ensures
        n@ == source_notification(cam_name@, topic@, data_name@, state, op@, now),
{
    let mut source: Vec<(&'static str, String)> = Vec::new();
    source.push(("Source", named("vsrc_", cam_name)));
    let mut data: Vec<(&'static str, String)> = Vec::new();
    data.push((data_name, bool_value(state)));
    let n = Notification { utc_time: now, topic, source, data, property_op: op };
    assert(n@ =~= source_notification(cam_name@, topic@, data_name@, state, op@, now));
    n
}

fn named(prefix: &str, name: &str) -> (out: String)
    ensures
        out@ == prefix@ + name@,
{
    let mut out = prefix.to_owned();
    out.append(name);
    out
}

/// The pair of notifications for a motion state: Reolink's native topic, and the
/// one that Profile S clients know. The name of the data item differs
/// between the two.
pub open spec fn motion_notifications(
    cam_name: Seq<char>,
    state: bool,
    op: Seq<char>,
    now: Timestamp,
) -> Seq<NotificationView> {
    seq![
        source_notification(cam_name, "tns1:VideoSource/MotionAlarm"@, "State"@, state, op, now),
        source_notification(
            cam_name,
            "tns1:RuleEngine/CellMotionDetector/Motion"@,
            "IsMotion"@,
            state,
            op,
            now,
        ),
    ]
}

/// Motion is published on two topics, not one.
pub fn build_motion_notifications(
    cam_name: &str,
    state: bool,
    op: &'static str,
    now: Timestamp,
) -> (list: Vec<Notification>)
    ensures
        notifications_view(list@) == motion_notifications(cam_name@, state, op@, now),
{
    let mut list: Vec<Notification> = Vec::new();
    list.push(
        build_source_notification(
            cam_name,
            "tns1:VideoSource/MotionAlarm",
            "State",
            state,
            op,
            now,
        ),
    );
    list.push(
        build_source_notification(
            cam_name,
            "tns1:RuleEngine/CellMotionDetector/Motion",
            "IsMotion",
            state,
            op,
            now,
        ),
    );
    assert(notifications_view(list@) =~= motion_notifications(cam_name@, state, op@, now));
    list
}

/// A client that reads both motion topics never sees them disagree.
pub proof fn law_motion_topics_agree(cam_name: Seq<char>, state: bool, op: Seq<char>, now: Timestamp)
    ensures
        ({
            let pair = motion_notifications(cam_name, state, op, now);
            &&& pair.len() == 2
            &&& pair[0].data.len() == 1 && pair[1].data.len() == 1
            &&& pair[0].data[0].1 == pair[1].data[0].1
            &&& pair[0].source == pair[1].source
            &&& pair[0].property_op == pair[1].property_op
        }),
{
}

/// How a detection that a camera reports maps onto an ONVIF topic, if it has
/// one.
pub open spec fn topic_of(ai_type: Seq<char>) -> Option<Seq<char>> {
    if ai_type == "people"@ {
        Some("tns1:RuleEngine/MyRuleDetector/PeopleDetect"@)
    } else if ai_type == "vehicle"@ {
        Some("tns1:RuleEngine/MyRuleDetector/VehicleDetect"@)
    } else if ai_type == "dog_cat"@ {
        Some("tns1:RuleEngine/MyRuleDetector/DogCatDetect"@)
    } else if ai_type == "face"@ {
        Some("tns1:RuleEngine/MyRuleDetector/FaceDetect"@)
    } else if ai_type == "visitor"@ {
        Some("tns1:RuleEngine/MyRuleDetector/Visitor"@)
    } else if ai_type == "package"@ {
        Some("tns1:RuleEngine/MyRuleDetector/Package"@)
    } else {
        None
    }
}

/// Look up the ONVIF topic for a detection.
pub fn ai_topic(ai_type: &str) -> (topic: Option<&'static str>)
    ensures
        (match topic {
            Some(t) => Some(t@),
            None => None,
        }) == topic_of(ai_type@),
{
    if text::same(ai_type, "people") {
        Some("tns1:RuleEngine/MyRuleDetector/PeopleDetect")
    } else if text::same(ai_type, "vehicle") {
        Some("tns1:RuleEngine/MyRuleDetector/VehicleDetect")
    } else if text::same(ai_type, "dog_cat") {
        Some("tns1:RuleEngine/MyRuleDetector/DogCatDetect")
    } else if text::same(ai_type, "face") {
        Some("tns1:RuleEngine/MyRuleDetector/FaceDetect")
    } else if text::same(ai_type, "visitor") {
        Some("tns1:RuleEngine/MyRuleDetector/Visitor")
    } else if text::same(ai_type, "package") {
        Some("tns1:RuleEngine/MyRuleDetector/Package")
    } else {
        None
    }
}

/// A notification with the three source items of a rule.
pub open spec fn rule_notification(
    topic: Seq<char>,
    source: Seq<(Seq<char>, Seq<char>)>,
    data_name: Seq<char>,
    state: bool,
    op: Seq<char>,
    now: Timestamp,
) -> NotificationView {
    NotificationView {
        utc_time: now,
        topic,
        source,
        data: seq![(data_name, text::bool_text(state))],
        property_op: op,
    }
}

/// The notification for a detection, if it has a topic.
pub open spec fn ai_notification(
    cam_name: Seq<char>,
    ai_type: Seq<char>,
    state: bool,
    op: Seq<char>,
    now: Timestamp,
) -> Option<NotificationView> {
    if ai_type == "cry"@ {
        Some(
            rule_notification(
                AUDIO_TOPIC@,
                seq![
                    ("AudioSourceConfigurationToken"@, "asrc_"@ + cam_name),
                    ("AudioAnalyticsConfigurationToken"@, "aacfg_"@ + cam_name),
                    ("Rule"@, "CryDetect"@),
                ],
                "IsSoundDetected"@,
                state,
                op,
                now,
            ),
        )
    } else {
        match topic_of(ai_type) {
            Some(topic) => Some(
                source_notification(cam_name, topic, AI_DATA_NAME@, state, op, now),
            ),
            None => None,
        }
    }
}

/// The notification for a zone detector.
pub open spec fn zone_notification(
    cam_name: Seq<char>,
    kind: Seq<char>,
    state: bool,
    op: Seq<char>,
    now: Timestamp,
) -> NotificationView {
    rule_notification(
        FIELD_TOPIC@,
        seq![
            ("VideoSourceConfigurationToken"@, "vsrc_"@ + cam_name),
            ("VideoAnalyticsConfigurationToken"@, "vacfg_"@ + cam_name),
            ("Rule"@, kind),
        ],
        "IsInside"@,
        state,
        op,
        now,
    )
}

/// The notification for a detection. Detections without a standard ONVIF topic
/// (`non-motor vehicle`) have none.
pub fn build_ai_notification(
    cam_name: &str,
    ai_type: &str,
    state: bool,
    op: &'static str,
    now: Timestamp,
) -> (n: Option<Notification>)
    ensures
        (match n {
            Some(n) => Some(n@),
            None => None,
        }) == ai_notification(cam_name@, ai_type@, state, op@, now),
{
    if text::same(ai_type, "cry") {
        let mut source: Vec<(&'static str, String)> = Vec::new();
        source.push(("AudioSourceConfigurationToken", named("asrc_", cam_name)));
        source.push(("AudioAnalyticsConfigurationToken", named("aacfg_", cam_name)));
        source.push(("Rule", "CryDetect".to_owned()));
        let mut data: Vec<(&'static str, String)> = Vec::new();
        data.push(("IsSoundDetected", bool_value(state)));
        let n = Notification { utc_time: now, topic: AUDIO_TOPIC, source, data, property_op: op };
        assert(Some(n@) =~~= ai_notification(cam_name@, ai_type@, state, op@, now));
        return Some(n);
    }
    match ai_topic(ai_type) {
        Some(topic) => Some(
            build_source_notification(cam_name, topic, AI_DATA_NAME, state, op, now),
        ),
        None => None,
    }
}

/// The notification for a zone detector.
pub fn build_zone_notification(
    cam_name: &str,
    kind: &str,
    state: bool,
    op: &'static str,
    now: Timestamp,
) -> (n: Notification)
    ensures
        n@ == zone_notification(cam_name@, kind@, state, op@, now),
{
    let mut source: Vec<(&'static str, String)> = Vec::new();
    source.push(("VideoSourceConfigurationToken", named("vsrc_", cam_name)));
    source.push(("VideoAnalyticsConfigurationToken", named("vacfg_", cam_name)));
    source.push(("Rule", kind.to_owned()));
    let mut data: Vec<(&'static str, String)> = Vec::new();
    data.push(("IsInside", bool_value(state)));
    let n = Notification { utc_time: now, topic: FIELD_TOPIC, source, data, property_op: op };
    assert(n@ =~~= zone_notification(cam_name@, kind@, state, op@, now));
    n
}

/// The notification for the state of a detector, by its key. Zone detectors have
/// keys that start with `zone:`, so that they cannot collide with a detection of
/// the same name.
pub open spec fn key_notification(
    cam_name: Seq<char>,
    key: Seq<char>,
    state: bool,
    op: Seq<char>,
    now: Timestamp,
) -> Option<NotificationView> {
    if "zone:"@.is_prefix_of(key) {
        Some(zone_notification(cam_name, key.skip("zone:"@.len() as int), state, op, now))
    } else {
        ai_notification(cam_name, key, state, op, now)
    }
}

/// The notification for the state of a detector, by its key.
pub fn build_ai_key_notification(
    cam_name: &str,
    key: &str,
    state: bool,
    op: &'static str,
    now: Timestamp,
) -> (n: Option<Notification>)
    ensures
        (match n {
            Some(n) => Some(n@),
            None => None,
        }) == key_notification(cam_name@, key@, state, op@, now),
{
    match text::after_prefix(key, "zone:") {
        Some(kind) => {
            assert(key@.skip("zone:"@.len() as int) =~= kind@);
            assert(key@.subrange(0, "zone:"@.len() as int) =~= "zone:"@);
            Some(build_zone_notification(cam_name, kind.as_str(), state, op, now))
        },
        None => build_ai_notification(cam_name, key, state, op, now),
    }
}

/// A queue with one more message. A full one loses its oldest.
pub open spec fn queued(queue: Seq<NotificationView>, msg: NotificationView) -> Seq<
    NotificationView,
> {
    if queue.len() >= MAX_PENDING_MESSAGES {
        queue.drop_first().push(msg)
    } else {
        queue.push(msg)
    }
}

/// A queue with more messages, one after the other.
pub open spec fn queued_all(queue: Seq<NotificationView>, msgs: Seq<NotificationView>) -> Seq<
    NotificationView,
>
    decreases msgs.len(),
{
    if msgs.len() == 0 {
        queue
    } else {
        queued(queued_all(queue, msgs.drop_last()), msgs.last())
    }
}

/// A queue holds the newest messages, in the order in which they came.
pub proof fn law_queue_keeps_the_newest(msgs: Seq<NotificationView>)
    ensures
        queued_all(Seq::empty(), msgs) == (if msgs.len() <= MAX_PENDING_MESSAGES {
            msgs
        } else {
            msgs.skip(msgs.len() - MAX_PENDING_MESSAGES)
        }),
    decreases msgs.len(),
{
    if msgs.len() > 0 {
        law_queue_keeps_the_newest(msgs.drop_last());
        let before = queued_all(Seq::empty(), msgs.drop_last());
        let after = queued(before, msgs.last());
        if msgs.len() <= MAX_PENDING_MESSAGES {
            assert(after =~= msgs);
        } else {
            assert(after =~= msgs.skip(msgs.len() - MAX_PENDING_MESSAGES));
        }
    } else {
        assert(msgs =~= Seq::empty());
    }
}

/// How many messages of a queue one pull takes: at least one, if there is one.
pub open spec fn pull_count(len: int, limit: int) -> int {
    let wanted = if limit < 1 {
        1
    } else {
        limit
    };
    if len < wanted {
        len
    } else {
        wanted
    }
}

/// What a pull takes and what it leaves make up the queue, and a queue that is
/// not empty yields something.
pub proof fn law_pull_loses_nothing(queue: Seq<NotificationView>, limit: int)
    ensures
        ({
            let n = pull_count(queue.len() as int, limit);
            queue.take(n) + queue.skip(n) == queue && (queue.len() > 0 ==> n > 0)
        }),
{
    let n = pull_count(queue.len() as int, limit);
    assert(queue.take(n) + queue.skip(n) =~= queue);
}

/// A PullPoint subscription.
#[derive(Debug)]
pub struct Subscription {
    pub id: String,
    pub created_at: Timestamp,
    pub terminates_at: Timestamp,
    pub pending: Vec<Notification>,
}

/// A subscription, its texts as sequences.
#[verifier::ext_equal]
pub struct SubscriptionView {
    pub id: Seq<char>,
    pub created_at: Timestamp,
    pub terminates_at: Timestamp,
    pub pending: Seq<NotificationView>,
}

impl View for Subscription {
    type V = SubscriptionView;

    open spec fn view(&self) -> SubscriptionView {
        SubscriptionView {
            id: self.id@,
            created_at: self.created_at,
            terminates_at: self.terminates_at,
            pending: notifications_view(self.pending@),
        }
    }
}

/// When a subscription ends that is granted so many seconds now: never later
/// than the ceiling.
pub open spec fn end_of(ttl: u64, now: Timestamp) -> Timestamp {
    Timestamp {
        secs: (now.secs + if ttl < MAX_SUBSCRIPTION_TTL {
            ttl
        } else {
            MAX_SUBSCRIPTION_TTL
        }) as i64,
        nanos: now.nanos,
    }
}

/// When a subscription ends that is pulled from now: one whose end is past
/// starts its lifetime anew.
pub open spec fn refreshed(end: Timestamp, now: Timestamp) -> Timestamp {
    if time::before(end, now) {
        end_of(DEFAULT_SUBSCRIPTION_TTL, now)
    } else {
        end
    }
}

/// Whether the calendar reaches far enough past now for any subscription.
pub open spec fn grants(now: Timestamp) -> bool {
    time::clock_time(now) && now.secs <= time::MAX_SECS - MAX_SUBSCRIPTION_TTL
}

fn end_after(ttl: u64, now: Timestamp) -> (end: Timestamp)
    requires
        grants(now),
    ensures
        end == end_of(ttl, now),
{
    let granted: u64 = if ttl < MAX_SUBSCRIPTION_TTL {
        ttl
    } else {
        MAX_SUBSCRIPTION_TTL
    };
    Timestamp { secs: now.secs + granted as i64, nanos: now.nanos }
}

/// What a `PullMessages` does next.
#[derive(Debug)]
pub enum PullStep {
    /// Answer with these.
    Ready(Vec<Notification>),
    /// Wait for a message, at most so many milliseconds.
    Wait(u64),
}

/// When a `PullMessages` gives up, on the clock that counts milliseconds.
pub fn pull_deadline(now: u64, timeout: u64) -> (deadline: u64)
    requires
        now <= u64::MAX - MAX_PULL_TIMEOUT,
    ensures
        deadline == now + (if timeout < MAX_PULL_TIMEOUT {
            timeout
        } else {
            MAX_PULL_TIMEOUT
        }),
{
    if timeout < MAX_PULL_TIMEOUT {
        now + timeout
    } else {
        now + MAX_PULL_TIMEOUT
    }
}

impl Subscription {
    /// What every subscription keeps.
    pub open spec fn wf(&self) -> bool {
        self.pending@.len() <= MAX_PENDING_MESSAGES && time::clock_time(self.created_at)
            && time::clock_time(self.terminates_at)
    }

    /// A subscription that starts now.
    pub fn new(id: String, ttl: u64, now: Timestamp) -> (sub: Self)
        requires
            grants(now),
        ensures
            sub.wf(),
            sub@ == (SubscriptionView {
                id: id@,
                created_at: now,
                terminates_at: end_of(ttl, now),
                pending: Seq::empty(),
            }),
    {
        let sub = Subscription {
            id,
            created_at: now,
            terminates_at: end_after(ttl, now),
            pending: Vec::new(),
        };
        assert(sub@.pending =~= Seq::empty());
        sub
    }

    /// Add a message to the queue.
    pub fn enqueue(&mut self, msg: Notification)
        requires
            old(self).wf(),
        ensures
            final(self).wf(),
            final(self)@ == (SubscriptionView {
                pending: queued(old(self)@.pending, msg@),
                ..old(self)@
            }),
    {
        let ghost before = self@;
        if self.pending.len() >= MAX_PENDING_MESSAGES {
            self.pending.remove(0);
        }
        self.pending.push(msg);
        assert(self@.pending =~= queued(before.pending, msg@));
    }

    /// Add messages to the queue, one after the other.
    pub fn enqueue_all(&mut self, msgs: Vec<Notification>)
        requires
            old(self).wf(),
        ensures
            final(self).wf(),
            final(self)@ == (SubscriptionView {
                pending: queued_all(old(self)@.pending, notifications_view(msgs@)),
                ..old(self)@
            }),
    {
        let ghost before = self@;
        let ghost all = notifications_view(msgs@);
        let mut i: usize = 0;
        assert(all.take(0) =~= Seq::empty());
        while i < msgs.len()
            invariant
                i <= msgs@.len(),
                all == notifications_view(msgs@),
                self.wf(),
                self@ == (SubscriptionView {
                    pending: queued_all(before.pending, all.take(i as int)),
                    ..before
                }),
            decreases msgs@.len() - i,
        {
            assert(all.take(i + 1).drop_last() =~= all.take(i as int));
            assert(all.take(i + 1).last() == msgs@[i as int]@);
            self.enqueue(copy_notification(&msgs[i]));
            i += 1;
        }
        assert(all.take(i as int) =~= all);
    }

    /// Take up to `limit` notifications that are waiting.
    pub fn take_pending(&mut self, limit: usize) -> (msgs: Vec<Notification>)
        requires
            old(self).wf(),
        ensures
            final(self).wf(),
            ({
                let queue = old(self)@.pending;
                let n = pull_count(queue.len() as int, limit as int);
                &&& notifications_view(msgs@) == queue.take(n)
                &&& final(self)@ == (SubscriptionView { pending: queue.skip(n), ..old(self)@ })
            }),
    {
        let ghost queue = self@.pending;
        let wanted: usize = if limit < 1 {
            1
        } else {
            limit
        };
        let n: usize = if self.pending.len() < wanted {
            self.pending.len()
        } else {
            wanted
        };
        let rest = self.pending.split_off(n);
        let mut msgs: Vec<Notification> = rest;
        std::mem::swap(&mut self.pending, &mut msgs);
        assert(notifications_view(msgs@) =~= queue.take(n as int));
        assert(self@.pending =~= queue.skip(n as int));
        msgs
    }

    /// Pull up to `limit` notifications: those that are waiting, or, once the
    /// deadline has come, none. Until then there is something to wait for. The
    /// deadline is on the clock that counts milliseconds. A termination time
    /// that is past is refreshed.
    pub fn pull(&mut self, limit: usize, millis: u64, deadline: u64, now: Timestamp) -> (step:
        PullStep)
        requires
            old(self).wf(),
            grants(now),
        ensures
            final(self).wf(),
            final(self)@.terminates_at == refreshed(old(self)@.terminates_at, now),
            !time::before(final(self)@.terminates_at, now),
            ({
                let queue = old(self)@.pending;
                let n = pull_count(queue.len() as int, limit as int);
                let end = refreshed(old(self)@.terminates_at, now);
                if queue.len() > 0 || millis >= deadline {
                    &&& step matches PullStep::Ready(msgs) && notifications_view(msgs@)
                        == queue.take(n)
                    &&& final(self)@ == (SubscriptionView {
                        pending: queue.skip(n),
                        terminates_at: end,
                        ..old(self)@
                    })
                } else {
                    &&& step == PullStep::Wait((deadline - millis) as u64)
                    &&& final(self)@ == (SubscriptionView { terminates_at: end, ..old(self)@ })
                }
            }),
    {
        if time::is_before(self.terminates_at, now) {
            self.terminates_at = end_after(DEFAULT_SUBSCRIPTION_TTL, now);
        }
        if self.pending.len() > 0 || millis >= deadline {
            PullStep::Ready(self.take_pending(limit))
        } else {
            PullStep::Wait(deadline - millis)
        }
    }

    /// Start the lifetime anew.
    pub fn renew(&mut self, ttl: u64, now: Timestamp) -> (end: Timestamp)
        requires
            old(self).wf(),
            grants(now),
        ensures
            final(self).wf(),
            end == end_of(ttl, now),
            final(self)@ == (SubscriptionView { terminates_at: end, ..old(self)@ }),
    {
        let end = end_after(ttl, now);
        self.terminates_at = end;
        end
    }

    /// When it ends.
    pub fn termination_time(&self) -> (end: Timestamp)
        ensures
            end == self.terminates_at,
    {
        self.terminates_at
    }
}

/// The states of detectors by their keys, as sequences.
pub open spec fn states_view(states: Seq<(String, bool)>) -> Seq<(Seq<char>, bool)> {
    states.map_values(|e: (String, bool)| (e.0@, e.1))
}

/// The keys of detectors.
pub open spec fn keys_of(states: Seq<(Seq<char>, bool)>) -> Seq<Seq<char>> {
    states.map_values(|e: (Seq<char>, bool)| e.0)
}

/// The state of a detector, if it has one.
pub open spec fn state_of(states: Seq<(Seq<char>, bool)>, key: Seq<char>) -> Option<bool> {
    let at = text::place(keys_of(states), key);
    if at < states.len() {
        Some(states[at].1)
    } else {
        None
    }
}

/// The states of detectors with one set.
pub open spec fn put(states: Seq<(Seq<char>, bool)>, key: Seq<char>, state: bool) -> Seq<
    (Seq<char>, bool),
> {
    let at = text::place(keys_of(states), key);
    if at < states.len() {
        states.update(at, (key, state))
    } else {
        states.push((key, state))
    }
}

/// The states of detectors with others set, one after the other.
pub open spec fn merged(states: Seq<(Seq<char>, bool)>, news: Seq<(Seq<char>, bool)>) -> Seq<
    (Seq<char>, bool),
>
    decreases news.len(),
{
    if news.len() == 0 {
        states
    } else {
        put(merged(states, news.drop_last()), news.last().0, news.last().1)
    }
}

/// What is new among the states of detectors: those that were not known, or
/// known otherwise.
pub open spec fn changed(states: Seq<(Seq<char>, bool)>, news: Seq<(Seq<char>, bool)>) -> Seq<
    (Seq<char>, bool),
>
    decreases news.len(),
{
    if news.len() == 0 {
        Seq::empty()
    } else {
        let before = changed(states, news.drop_last());
        if state_of(merged(states, news.drop_last()), news.last().0) == Some(news.last().1) {
            before
        } else {
            before.push(news.last())
        }
    }
}

/// Whether no detector occurs twice.
pub open spec fn distinct_keys(states: Seq<(Seq<char>, bool)>) -> bool {
    forall|i: int, j: int|
        0 <= i < j < states.len() ==> (#[trigger] states[i]).0 != (#[trigger] states[j]).0
}

fn find_state(states: &Vec<(String, bool)>, key: &str) -> (at: usize)
    ensures
        at == text::place(keys_of(states_view(states@)), key@),
        at <= states@.len(),
{
    let ghost keys = keys_of(states_view(states@));
    let mut at: usize = 0;
    while at < states.len()
        invariant_except_break
            forall|j: int| 0 <= j < at ==> #[trigger] keys[j] != key@,
        invariant
            at <= states@.len(),
            keys == keys_of(states_view(states@)),
        ensures
            at <= states@.len(),
            at < states@.len() ==> keys[at as int] == key@,
            forall|j: int| 0 <= j < at ==> #[trigger] keys[j] != key@,
        decreases states@.len() - at,
    {
        assert(keys[at as int] == states@[at as int].0@);
        if text::same(states[at].0.as_str(), key) {
            break;
        }
        at += 1;
    }
    proof {
        text::lemma_place_is(keys, key@, at as int);
    }
    at
}

fn put_state(states: &mut Vec<(String, bool)>, key: String, state: bool)
    ensures
        states_view(final(states)@) == put(states_view(old(states)@), key@, state),
{
    let ghost before = states_view(states@);
    let at: usize = find_state(states, key.as_str());
    if at < states.len() {
        states.set(at, (key, state));
    } else {
        states.push((key, state));
    }
    assert(states_view(states@) =~= put(before, key@, state));
}

proof fn lemma_put_state(states: Seq<(Seq<char>, bool)>, key: Seq<char>, state: bool)
    ensures
        state_of(put(states, key, state), key) == Some(state),
        forall|other: Seq<char>|
            other != key ==> #[trigger] state_of(put(states, key, state), other) == state_of(
                states,
                other,
            ),
        state_of(states, key) == Some(state) ==> put(states, key, state) == states,
        distinct_keys(states) ==> distinct_keys(put(states, key, state)),
{
    let keys = keys_of(states);
    let after = put(states, key, state);
    let at = text::place(keys, key);
    text::lemma_place(keys, key);
    if at < states.len() {
        assert(keys[at] == states[at].0);
        assert(keys_of(after) =~= keys);
        if state_of(states, key) == Some(state) {
            assert(after =~= states);
        }
    } else {
        assert(keys_of(after) =~= keys.push(key));
        assert(forall|j: int| 0 <= j < keys.len() ==> #[trigger] keys.push(key)[j] == keys[j]);
        text::lemma_place_is(keys.push(key), key, keys.len() as int);
    }
    assert forall|other: Seq<char>| other != key implies #[trigger] state_of(after, other)
        == state_of(states, other) by {
        text::lemma_place(keys, other);
        let p = text::place(keys, other);
        if at >= states.len() {
            let q = if p < keys.len() {
                p
            } else {
                keys.len() as int + 1
            };
            assert(forall|j: int| 0 <= j < q ==> #[trigger] keys.push(key)[j] != other);
            text::lemma_place_is(keys.push(key), other, q);
        }
    }
    if distinct_keys(states) {
        assert forall|i: int, j: int| 0 <= i < j < after.len() implies (#[trigger] after[i]).0 != (
        #[trigger] after[j]).0 by {
            assert(i < states.len() ==> keys[i] == states[i].0);
            assert(j < states.len() ==> keys[j] == states[j].0);
        }
    }
}

proof fn lemma_merged_states(
    states: Seq<(Seq<char>, bool)>,
    news: Seq<(Seq<char>, bool)>,
    i: int,
)
    requires
        distinct_keys(news),
        0 <= i < news.len(),
    ensures
        state_of(merged(states, news), news[i].0) == Some(news[i].1),
    decreases news.len(),
{
    lemma_put_state(merged(states, news.drop_last()), news.last().0, news.last().1);
    if i < news.len() - 1 {
        assert(distinct_keys(news.drop_last())) by {
            assert forall|a: int, b: int| 0 <= a < b < news.drop_last().len() implies (
            #[trigger] news.drop_last()[a]).0 != (#[trigger] news.drop_last()[b]).0 by {
                assert(news[a].0 != news[b].0);
            }
        }
        lemma_merged_states(states, news.drop_last(), i);
        assert(news[i].0 != news[news.len() - 1].0);
    }
}

proof fn lemma_nothing_new(
    states: Seq<(Seq<char>, bool)>,
    news: Seq<(Seq<char>, bool)>,
)
    requires
        forall|i: int|
            0 <= i < news.len() ==> state_of(states, (#[trigger] news[i]).0) == Some(news[i].1),
    ensures
        changed(states, news).len() == 0,
        merged(states, news) == states,
    decreases news.len(),
{
    if news.len() > 0 {
        assert forall|i: int| 0 <= i < news.drop_last().len() implies state_of(
            states,
            (#[trigger] news.drop_last()[i]).0,
        ) == Some(news.drop_last()[i].1) by {
            assert(news[i] == news.drop_last()[i]);
        }
        lemma_nothing_new(states, news.drop_last());
        assert(state_of(states, news[news.len() - 1].0) == Some(news[news.len() - 1].1));
        lemma_put_state(states, news.last().0, news.last().1);
    }
}

/// Reporting the same detections again tells clients nothing.
pub proof fn law_repeated_detections_are_silent(
    states: Seq<(Seq<char>, bool)>,
    news: Seq<(Seq<char>, bool)>,
)
    requires
        distinct_keys(news),
    ensures
        changed(merged(states, news), news).len() == 0,
        merged(merged(states, news), news) == merged(states, news),
{
    assert forall|i: int| 0 <= i < news.len() implies state_of(
        merged(states, news),
        (#[trigger] news[i]).0,
    ) == Some(news[i].1) by {
        lemma_merged_states(states, news, i);
    }
    lemma_nothing_new(merged(states, news), news);
}

/// The zones that see something, by the keys of their detectors.
pub open spec fn zone_states(zones: Seq<(Seq<char>, bool)>) -> Seq<(Seq<char>, bool)> {
    zones.map_values(|z: (Seq<char>, bool)| ("zone:"@ + z.0, z.1))
}

/// The states of detectors, those that have stopped reporting being clear.
pub open spec fn with_silent(
    states: Seq<(Seq<char>, bool)>,
    known: Seq<(Seq<char>, bool)>,
) -> Seq<(Seq<char>, bool)>
    decreases known.len(),
{
    if known.len() == 0 {
        states
    } else {
        let before = with_silent(states, known.drop_last());
        if state_of(before, known.last().0) is Some {
            before
        } else {
            put(before, known.last().0, false)
        }
    }
}

/// What a camera now detects: its detections, its zones, and the detectors that
/// were known and no longer report.
pub open spec fn current_states(
    detections: Seq<(Seq<char>, bool)>,
    zones: Seq<(Seq<char>, bool)>,
    known: Seq<(Seq<char>, bool)>,
) -> Seq<(Seq<char>, bool)> {
    with_silent(merged(merged(Seq::empty(), detections), zone_states(zones)), known)
}

proof fn lemma_merged_distinct(states: Seq<(Seq<char>, bool)>, news: Seq<(Seq<char>, bool)>)
    requires
        distinct_keys(states),
    ensures
        distinct_keys(merged(states, news)),
    decreases news.len(),
{
    if news.len() > 0 {
        lemma_merged_distinct(states, news.drop_last());
        lemma_put_state(merged(states, news.drop_last()), news.last().0, news.last().1);
    }
}

proof fn lemma_with_silent(
    states: Seq<(Seq<char>, bool)>,
    known: Seq<(Seq<char>, bool)>,
    key: Seq<char>,
)
    requires
        distinct_keys(states),
    ensures
        distinct_keys(with_silent(states, known)),
        state_of(states, key) is Some ==> state_of(with_silent(states, known), key) == state_of(
            states,
            key,
        ),
        state_of(states, key) is None ==> (state_of(with_silent(states, known), key) == if exists|
            i: int,
        | 0 <= i < known.len() && (#[trigger] known[i]).0 == key {
            Some(false)
        } else {
            None
        }),
    decreases known.len(),
{
    if known.len() > 0 {
        let rest = known.drop_last();
        lemma_with_silent(states, rest, key);
        let before = with_silent(states, rest);
        lemma_put_state(before, known.last().0, false);
        if exists|i: int| 0 <= i < rest.len() && (#[trigger] rest[i]).0 == key {
            let i = choose|i: int| 0 <= i < rest.len() && (#[trigger] rest[i]).0 == key;
            assert(known[i].0 == key);
        }
        if exists|i: int| 0 <= i < known.len() && (#[trigger] known[i]).0 == key {
            let i = choose|i: int| 0 <= i < known.len() && (#[trigger] known[i]).0 == key;
            if i < rest.len() {
                assert(rest[i].0 == key);
            }
        }
        if known.last().0 == key {
            assert(known[known.len() - 1].0 == key);
        }
    }
}

/// A detector that has stopped reporting is no longer detecting anything, and no
/// detector occurs twice.
pub proof fn law_silent_detectors_are_clear(
    detections: Seq<(Seq<char>, bool)>,
    zones: Seq<(Seq<char>, bool)>,
    known: Seq<(Seq<char>, bool)>,
    i: int,
)
    requires
        0 <= i < known.len(),
        state_of(merged(merged(Seq::empty(), detections), zone_states(zones)), known[i].0) is None,
    ensures
        state_of(current_states(detections, zones, known), known[i].0) == Some(false),
        distinct_keys(current_states(detections, zones, known)),
{
    lemma_merged_distinct(Seq::empty(), detections);
    lemma_merged_distinct(merged(Seq::empty(), detections), zone_states(zones));
    lemma_with_silent(
        merged(merged(Seq::empty(), detections), zone_states(zones)),
        known,
        known[i].0,
    );
}

/// What a camera now detects. `zones` says of each zone detector whether any of
/// its locations sees something.
pub fn detections_now(
    detections: &Vec<(String, bool)>,
    zones: &Vec<(String, bool)>,
    known: &Vec<(String, bool)>,
) -> (current: Vec<(String, bool)>)
    ensures
        states_view(current@) == current_states(
            states_view(detections@),
            states_view(zones@),
            states_view(known@),
        ),
{
    let ghost d = states_view(detections@);
    let ghost z = zone_states(states_view(zones@));
    let ghost k = states_view(known@);
    let mut current: Vec<(String, bool)> = Vec::new();
    let mut i: usize = 0;
    assert(states_view(current@) =~= Seq::empty());
    assert(d.take(0) =~= Seq::empty());
    while i < detections.len()
        invariant
            i <= detections@.len(),
            d == states_view(detections@),
            states_view(current@) == merged(Seq::empty(), d.take(i as int)),
        decreases detections@.len() - i,
    {
        assert(d.take(i + 1).drop_last() =~= d.take(i as int));
        assert(d.take(i + 1).last() == (detections@[i as int].0@, detections@[i as int].1));
        let entry = &detections[i];
        put_state(&mut current, entry.0.clone(), entry.1);
        i += 1;
    }
    assert(d.take(i as int) =~= d);
    let ghost base = states_view(current@);
    i = 0;
    assert(z.take(0) =~= Seq::empty());
    while i < zones.len()
        invariant
            i <= zones@.len(),
            z == zone_states(states_view(zones@)),
            states_view(current@) == merged(base, z.take(i as int)),
        decreases zones@.len() - i,
    {
        assert(z.take(i + 1).drop_last() =~= z.take(i as int));
        assert(z.take(i + 1).last() == ("zone:"@ + zones@[i as int].0@, zones@[i as int].1));
        let entry = &zones[i];
        put_state(&mut current, named("zone:", entry.0.as_str()), entry.1);
        i += 1;
    }
    assert(z.take(i as int) =~= z);
    let ghost reported = states_view(current@);
    i = 0;
    assert(k.take(0) =~= Seq::empty());
    while i < known.len()
        invariant
            i <= known@.len(),
            k == states_view(known@),
            states_view(current@) == with_silent(reported, k.take(i as int)),
        decreases known@.len() - i,
    {
        assert(k.take(i + 1).drop_last() =~= k.take(i as int));
        assert(k.take(i + 1).last() == (known@[i as int].0@, known@[i as int].1));
        let entry = &known[i];
        let at: usize = find_state(&current, entry.0.as_str());
        if at >= current.len() {
            put_state(&mut current, entry.0.clone(), false);
        }
        i += 1;
    }
    assert(k.take(i as int) =~= k);
    current
}

/// The notifications for detectors, those without a topic left out.
pub open spec fn ai_notifications(
    cam_name: Seq<char>,
    states: Seq<(Seq<char>, bool)>,
    op: Seq<char>,
    now: Timestamp,
) -> Seq<NotificationView>
    decreases states.len(),
{
    if states.len() == 0 {
        Seq::empty()
    } else {
        let before = ai_notifications(cam_name, states.drop_last(), op, now);
        match key_notification(cam_name, states.last().0, states.last().1, op, now) {
            Some(n) => before.push(n),
            None => before,
        }
    }
}

fn build_ai_notifications(
    cam_name: &str,
    states: &Vec<(String, bool)>,
    op: &'static str,
    now: Timestamp,
) -> (list: Vec<Notification>)
    ensures
        notifications_view(list@) == ai_notifications(cam_name@, states_view(states@), op@, now),
{
    let ghost all = states_view(states@);
    let mut list: Vec<Notification> = Vec::new();
    let mut i: usize = 0;
    assert(all.take(0) =~= Seq::empty());
    assert(notifications_view(list@) =~= Seq::empty());
    while i < states.len()
        invariant
            i <= states@.len(),
            all == states_view(states@),
            notifications_view(list@) == ai_notifications(cam_name@, all.take(i as int), op@, now),
        decreases states@.len() - i,
    {
        assert(all.take(i + 1).drop_last() =~= all.take(i as int));
        assert(all.take(i + 1).last() == (states@[i as int].0@, states@[i as int].1));
        let ghost before = notifications_view(list@);
        let entry = &states[i];
        match build_ai_key_notification(cam_name, entry.0.as_str(), entry.1, op, now) {
            Some(n) => {
                list.push(n);
                assert(notifications_view(list@) =~= before.push(n@));
            },
            None => {},
        }
        i += 1;
    }
    assert(all.take(i as int) =~= all);
    list
}

/// Subscriptions, their texts as sequences.
pub open spec fn subs_view(subs: Seq<Subscription>) -> Seq<SubscriptionView> {
    subs.map_values(|s: Subscription| s@)
}

/// The ids of subscriptions.
pub open spec fn ids_of(subs: Seq<SubscriptionView>) -> Seq<Seq<char>> {
    subs.map_values(|s: SubscriptionView| s.id)
}

/// Subscriptions that all got the same messages.
pub open spec fn delivered(subs: Seq<SubscriptionView>, msgs: Seq<NotificationView>) -> Seq<
    SubscriptionView,
> {
    subs.map_values(
        |s: SubscriptionView| SubscriptionView { pending: queued_all(s.pending, msgs), ..s },
    )
}

/// The subscriptions that have not ended.
pub open spec fn alive(subs: Seq<SubscriptionView>, now: Timestamp) -> Seq<SubscriptionView> {
    subs.filter(|s: SubscriptionView| !time::before(s.terminates_at, now))
}

/// The subscriptions without those of an id.
pub open spec fn without(subs: Seq<SubscriptionView>, id: Seq<char>) -> Seq<SubscriptionView> {
    subs.filter(|s: SubscriptionView| s.id != id)
}

/// A subscription was granted.
#[derive(Clone, Copy, PartialEq, Eq, Structural, Debug)]
pub struct Created {
    pub created_at: Timestamp,
    pub terminates_at: Timestamp,
    /// The listeners of the camera have to be started.
    pub start_listeners: bool,
}

/// Why no subscription was granted: there are as many as there may be.
#[derive(Clone, Copy, PartialEq, Eq, Structural, Debug)]
pub struct TooManySubscriptions;

/// What a camera's refusal of another subscription says.
pub open spec fn too_many_text(cam_name: Seq<char>) -> Seq<char> {
    "ONVIF events: too many active subscriptions for camera "@ + cam_name
}

/// What a camera's refusal of another subscription says.
pub fn too_many_subscriptions(cam_name: &str) -> (reason: String)
    ensures
        reason@ == too_many_text(cam_name@),
{
    named("ONVIF events: too many active subscriptions for camera ", cam_name)
}

/// The per-camera events manager.
#[derive(Debug)]
pub struct EventsManager {
    pub cam_name: String,
    pub subs: Vec<Subscription>,
    /// Set once the listeners of the camera are running.
    pub listener_started: bool,
    /// Last known motion state, so that brand-new subscriptions get an initial
    /// event.
    pub last_motion: Option<bool>,
    /// Last published state per detector, both to suppress duplicates and to
    /// seed new subscriptions.
    pub last_ai: Vec<(String, bool)>,
}

/// What a subscription is sent to bring it up to date.
pub open spec fn current_messages(m: EventsManager, now: Timestamp) -> Seq<NotificationView> {
    (match m.last_motion {
        Some(state) => motion_notifications(m.cam_name@, state, "Initialized"@, now),
        None => Seq::empty(),
    }) + ai_notifications(m.cam_name@, states_view(m.last_ai@), "Initialized"@, now)
}

/// When a subscription ends that is asked for now, for so many seconds or for
/// as long as is usual.
pub open spec fn granted_end(ttl: Option<u64>, now: Timestamp) -> Timestamp {
    end_of(
        match ttl {
            Some(secs) => secs,
            None => DEFAULT_SUBSCRIPTION_TTL,
        },
        now,
    )
}

/// Whether there are as many subscriptions that have not ended as there may be.
pub open spec fn is_full(m: EventsManager, now: Timestamp) -> bool {
    alive(subs_view(m.subs@), now).len() >= MAX_SUBSCRIPTIONS_PER_CAMERA
}

/// What asking for a subscription yields.
pub open spec fn subscribe_result(m: EventsManager, ttl: Option<u64>, now: Timestamp) -> Result<
    Created,
    TooManySubscriptions,
> {
    if is_full(m, now) {
        Err(TooManySubscriptions)
    } else {
        Ok(
            Created {
                created_at: now,
                terminates_at: granted_end(ttl, now),
                start_listeners: !m.listener_started,
            },
        )
    }
}

/// What asking for a subscription does to a manager: subscriptions that have
/// ended go, and the new one joins the others, holding the current state of
/// every property.
pub open spec fn subscribed(
    before: EventsManager,
    after: EventsManager,
    ttl: Option<u64>,
    id: Seq<char>,
    now: Timestamp,
) -> bool {
    let left = alive(subs_view(before.subs@), now);
    &&& after.cam_name == before.cam_name
    &&& after.last_motion == before.last_motion
    &&& after.last_ai == before.last_ai
    &&& if is_full(before, now) {
        &&& subs_view(after.subs@) == left
        &&& after.listener_started == before.listener_started
    } else {
        &&& subs_view(after.subs@) == without(left, id).push(
            SubscriptionView {
                id,
                created_at: now,
                terminates_at: granted_end(ttl, now),
                pending: queued_all(Seq::empty(), current_messages(before, now)),
            },
        )
        &&& after.listener_started
    }
}

/// Whether subscriptions are sound.
pub open spec fn subs_wf(subs: Seq<Subscription>) -> bool {
    forall|i: int| 0 <= i < subs.len() ==> (#[trigger] subs[i]).wf()
}

impl EventsManager {
    /// What every manager keeps.
    pub open spec fn wf(&self) -> bool {
        subs_wf(self.subs@) && self.subs@.len() <= MAX_SUBSCRIPTIONS_PER_CAMERA
    }

    pub fn new(cam_name: String) -> (m: Self)
        ensures
            m.wf(),
            m.cam_name == cam_name,
            m.subs@.len() == 0,
            !m.listener_started,
            m.last_motion is None,
            m.last_ai@.len() == 0,
    {
        EventsManager {
            cam_name,
            subs: Vec::new(),
            listener_started: false,
            last_motion: None,
            last_ai: Vec::new(),
        }
    }

    /// Deliver messages to every subscription.
    fn deliver(&mut self, msgs: &Vec<Notification>)
        requires
            old(self).wf(),
        ensures
            final(self).wf(),
            subs_view(final(self).subs@) == delivered(
                subs_view(old(self).subs@),
                notifications_view(msgs@),
            ),
            final(self).cam_name == old(self).cam_name,
            final(self).listener_started == old(self).listener_started,
            final(self).last_motion == old(self).last_motion,
            final(self).last_ai == old(self).last_ai,
    {
        let ghost before = self.subs@;
        let ghost all = notifications_view(msgs@);
        let ghost was = *self;
        let mut i: usize = 0;
        while i < self.subs.len()
            invariant
                i <= self.subs@.len(),
                self.subs@.len() == before.len(),
                was.subs@ == before,
                all == notifications_view(msgs@),
                self.wf(),
                forall|j: int|
                    0 <= j < i ==> (#[trigger] self.subs@[j])@ == (SubscriptionView {
                        pending: queued_all(before[j]@.pending, all),
                        ..before[j]@
                    }),
                forall|j: int| i <= j < before.len() ==> #[trigger] self.subs@[j] == before[j],
                self.cam_name == was.cam_name,
                self.listener_started == was.listener_started,
                self.last_motion == was.last_motion,
                self.last_ai == was.last_ai,
            decreases self.subs@.len() - i,
        {
            self.subs[i].enqueue_all(copy_all(msgs));
            i += 1;
        }
        assert(subs_view(self.subs@) =~= delivered(subs_view(before), all));
    }
}

fn copy_all(msgs: &Vec<Notification>) -> (copy: Vec<Notification>)
    ensures
        notifications_view(copy@) == notifications_view(msgs@),
{
    let mut copy: Vec<Notification> = Vec::new();
    let mut i: usize = 0;
    while i < msgs.len()
        invariant
            i <= msgs@.len(),
            notifications_view(copy@) =~= notifications_view(msgs@).take(i as int),
        decreases msgs@.len() - i,
    {
        let ghost before = copy@;
        copy.push(copy_notification(&msgs[i]));
        assert(notifications_view(copy@) =~= notifications_view(before).push(
            notifications_view(msgs@)[i as int],
        ));
        i += 1;
    }
    assert(notifications_view(msgs@).take(i as int) =~= notifications_view(msgs@));
    copy
}

/// Whether a manager differs from another in its subscriptions alone.
pub open spec fn same_but_subs(a: EventsManager, b: EventsManager) -> bool {
    &&& a.cam_name == b.cam_name
    &&& a.listener_started == b.listener_started
    &&& a.last_motion == b.last_motion
    &&& a.last_ai == b.last_ai
}

/// The word for a state that is told: the first one, or a later one.
pub open spec fn news_of(first: bool) -> Seq<char> {
    if first {
        "Initialized"@
    } else {
        "Changed"@
    }
}

/// The subscriptions once they were told of motion, which they are if it is news.
pub open spec fn told_of_motion(
    m: EventsManager,
    state: bool,
    op: Seq<char>,
    now: Timestamp,
) -> Seq<SubscriptionView> {
    if m.last_motion == Some(state) {
        subs_view(m.subs@)
    } else {
        delivered(subs_view(m.subs@), motion_notifications(m.cam_name@, state, op, now))
    }
}

impl EventsManager {
    /// The position of the subscription of an id, or the number of
    /// subscriptions.
    pub fn position(&self, id: &str) -> (at: usize)
        ensures
            at == text::place(ids_of(subs_view(self.subs@)), id@),
            at <= self.subs@.len(),
            at < self.subs@.len() ==> self.subs@[at as int].id@ == id@,
    {
        let ghost ids = ids_of(subs_view(self.subs@));
        let mut at: usize = 0;
        while at < self.subs.len()
            invariant_except_break
                forall|j: int| 0 <= j < at ==> #[trigger] ids[j] != id@,
            invariant
                at <= self.subs@.len(),
                ids == ids_of(subs_view(self.subs@)),
            ensures
                at <= self.subs@.len(),
                at < self.subs@.len() ==> ids[at as int] == id@,
                forall|j: int| 0 <= j < at ==> #[trigger] ids[j] != id@,
            decreases self.subs@.len() - at,
        {
            assert(ids[at as int] == self.subs@[at as int].id@);
            if text::same(self.subs[at].id.as_str(), id) {
                break;
            }
            at += 1;
        }
        proof {
            text::lemma_place_is(ids, id@, at as int);
        }
        at
    }

    /// The subscription of an id.
    pub fn get(&self, id: &str) -> (found: Option<&Subscription>)
        ensures
            ({
                let at = text::place(ids_of(subs_view(self.subs@)), id@);
                match found {
                    Some(sub) => 0 <= at < self.subs@.len() && *sub == self.subs@[at],
                    None => at == self.subs@.len(),
                }
            }),
    {
        let at: usize = self.position(id);
        if at < self.subs.len() {
            Some(&self.subs[at])
        } else {
            None
        }
    }

    /// Keep only the subscriptions that have not ended, and that have another
    /// id.
    fn sweep(&mut self, now: Option<Timestamp>, id: Option<&str>)
        requires
            old(self).wf(),
        ensures
            final(self).wf(),
            final(self).subs@.len() <= old(self).subs@.len(),
            same_but_subs(*final(self), *old(self)),
            subs_view(final(self).subs@) == subs_view(old(self).subs@).filter(
                kept(
                    now,
                    match id {
                        Some(id) => Some(id@),
                        None => None,
                    },
                ),
            ),
    {
        let ghost before = subs_view(self.subs@);
        let ghost was = *self;
        let ghost ids: Option<Seq<char>> = match id {
            Some(id) => Some(id@),
            None => None,
        };
        let mut rest: Vec<Subscription> = Vec::new();
        std::mem::swap(&mut self.subs, &mut rest);
        let ghost originals = rest@;
        let mut i: usize = 0;
        assert(before.take(0) =~= Seq::empty());
        assert(before.take(0).filter(kept(now, ids)) =~= Seq::empty()) by {
            reveal(Seq::filter);
        }
        assert(subs_view(self.subs@) =~= Seq::empty());
        assert(rest@ =~= originals.skip(0));
        while rest.len() > 0
            invariant
                originals.len() <= MAX_SUBSCRIPTIONS_PER_CAMERA,
                i <= originals.len(),
                ids == (match id {
                    Some(id) => Some(id@),
                    None => None,
                }),
                rest@ == originals.skip(i as int),
                before == subs_view(originals),
                subs_wf(originals),
                self.wf(),
                self.subs@.len() <= i,
                same_but_subs(*self, was),
                subs_view(self.subs@) == before.take(i as int).filter(kept(now, ids)),
            decreases originals.len() - i,
        {
            let sub = rest.remove(0);
            assert(sub == originals[i as int]);
            assert(rest@ =~= originals.skip(i + 1));
            assert(before.take(i + 1).drop_last() =~= before.take(i as int));
            assert(before.take(i + 1).last() == sub@);
            assert(before.take(i + 1).filter(kept(now, ids)) == if kept(now, ids)(sub@) {
                before.take(i as int).filter(kept(now, ids)).push(sub@)
            } else {
                before.take(i as int).filter(kept(now, ids))
            }) by {
                reveal(Seq::filter);
            }
            let fresh: bool = match now {
                Some(now) => !time::is_before(sub.terminates_at, now),
                None => true,
            };
            let other: bool = match id {
                Some(id) => !text::same(sub.id.as_str(), id),
                None => true,
            };
            if fresh && other {
                let ghost kept_so_far = self.subs@;
                self.subs.push(sub);
                assert(subs_view(self.subs@) =~= subs_view(kept_so_far).push(sub@));
            }
            i += 1;
        }
        assert(before.take(i as int) =~= before);
    }

    /// Drop the subscriptions that have ended.
    pub fn reap_expired(&mut self, now: Timestamp)
        requires
            old(self).wf(),
        ensures
            final(self).wf(),
            same_but_subs(*final(self), *old(self)),
            subs_view(final(self).subs@) == alive(subs_view(old(self).subs@), now),
    {
        self.sweep(Some(now), None);
        proof {
            let subs = subs_view(old(self).subs@);
            let p = |s: SubscriptionView| !time::before(s.terminates_at, now);
            assert(p =~= kept(Some(now), None));
        }
    }

    /// Drop the subscription of an id, and say whether there was one.
    pub fn remove(&mut self, id: &str) -> (was_there: bool)
        requires
            old(self).wf(),
        ensures
            final(self).wf(),
            same_but_subs(*final(self), *old(self)),
            subs_view(final(self).subs@) == without(subs_view(old(self).subs@), id@),
            was_there == ids_of(subs_view(old(self).subs@)).contains(id@),
    {
        let ghost subs = subs_view(self.subs@);
        let at: usize = self.position(id);
        let was_there: bool = at < self.subs.len();
        proof {
            text::lemma_place(ids_of(subs), id@);
            if was_there {
                assert(ids_of(subs)[at as int] == id@);
            }
        }
        self.sweep(None, Some(id));
        proof {
            let p = |s: SubscriptionView| s.id != id@;
            assert(p =~= kept(None, Some(id@)));
        }
        was_there
    }

    /// What a subscription is sent to bring it up to date: the state of every
    /// property that is known.
    pub fn current(&self, now: Timestamp) -> (msgs: Vec<Notification>)
        ensures
            notifications_view(msgs@) == current_messages(*self, now),
    {
        let mut msgs: Vec<Notification> = match self.last_motion {
            Some(state) => build_motion_notifications(
                self.cam_name.as_str(),
                state,
                "Initialized",
                now,
            ),
            None => Vec::new(),
        };
        let ghost first = msgs@;
        let mut rest = build_ai_notifications(
            self.cam_name.as_str(),
            &self.last_ai,
            "Initialized",
            now,
        );
        let ghost second = rest@;
        msgs.append(&mut rest);
        assert(notifications_view(msgs@) =~= notifications_view(first) + notifications_view(second));
        assert(self.last_motion is None ==> notifications_view(first) =~= Seq::empty());
        msgs
    }

    /// Re-send the current state of every property to the subscription at a
    /// position.
    pub fn resync(&mut self, at: usize, now: Timestamp)
        requires
            old(self).wf(),
            at < old(self).subs@.len(),
        ensures
            final(self).wf(),
            same_but_subs(*final(self), *old(self)),
            ({
                let subs = subs_view(old(self).subs@);
                subs_view(final(self).subs@) == subs.update(
                    at as int,
                    SubscriptionView {
                        pending: queued_all(
                            subs[at as int].pending,
                            current_messages(*old(self), now),
                        ),
                        ..subs[at as int]
                    },
                )
            }),
    {
        let ghost subs = subs_view(self.subs@);
        let msgs = self.current(now);
        let ghost sent = notifications_view(msgs@);
        self.subs[at].enqueue_all(msgs);
        assert(subs_view(self.subs@) =~= subs.update(
            at as int,
            SubscriptionView {
                pending: queued_all(subs[at as int].pending, sent),
                ..subs[at as int]
            },
        ));
    }

    /// Grant a subscription under a fresh id, unless there are too many that
    /// have not ended. It starts with the current state of every property, so
    /// that a client that attaches mid-motion gets a usable first answer.
    pub fn create_subscription(&mut self, ttl: Option<u64>, id: String, now: Timestamp) -> (result:
        Result<Created, TooManySubscriptions>)
        requires
            old(self).wf(),
            grants(now),
        ensures
            final(self).wf(),
            result == subscribe_result(*old(self), ttl, now),
            subscribed(*old(self), *final(self), ttl, id@, now),
    {
        self.reap_expired(now);
        if self.subs.len() >= MAX_SUBSCRIPTIONS_PER_CAMERA {
            return Err(TooManySubscriptions);
        }
        let granted: u64 = match ttl {
            Some(secs) => secs,
            None => DEFAULT_SUBSCRIPTION_TTL,
        };
        let ghost given = id@;
        let ghost left = subs_view(self.subs@);
        self.sweep(None, Some(id.as_str()));
        proof {
            let p = |s: SubscriptionView| s.id != given;
            assert(p =~= kept(None, Some(given)));
        }
        let ghost others = self.subs@;
        let mut sub = Subscription::new(id, granted, now);
        let msgs = self.current(now);
        sub.enqueue_all(msgs);
        let end = sub.termination_time();
        self.subs.push(sub);
        assert(subs_view(self.subs@) =~= subs_view(others).push(sub@));
        let start_listeners: bool = !self.listener_started;
        self.listener_started = true;
        Ok(Created { created_at: now, terminates_at: end, start_listeners })
    }

    /// A motion state came in; publish it unless it is the one last published.
    pub fn publish_motion(&mut self, state: bool, op: &'static str, now: Timestamp)
        requires
            old(self).wf(),
        ensures
            final(self).wf(),
            final(self).cam_name == old(self).cam_name,
            final(self).listener_started == old(self).listener_started,
            final(self).last_ai == old(self).last_ai,
            final(self).last_motion == Some(state),
            subs_view(final(self).subs@) == told_of_motion(*old(self), state, op@, now),
    {
        let known: bool = match self.last_motion {
            Some(last) => last == state,
            None => false,
        };
        if known {
            return;
        }
        self.last_motion = Some(state);
        let msgs = build_motion_notifications(self.cam_name.as_str(), state, op, now);
        self.deliver(&msgs);
    }

    /// The camera reported its motion state, for the first time or anew.
    pub fn motion_seen(&mut self, seen: MdState, first: bool, now: Timestamp)
        requires
            old(self).wf(),
        ensures
            final(self).wf(),
            final(self).cam_name == old(self).cam_name,
            final(self).listener_started == old(self).listener_started,
            final(self).last_ai == old(self).last_ai,
            match motion_of(seen) {
                Some(state) => {
                    &&& final(self).last_motion == Some(state)
                    &&& subs_view(final(self).subs@) == told_of_motion(
                        *old(self),
                        state,
                        news_of(first),
                        now,
                    )
                },
                None => *final(self) == *old(self),
            },
    {
        match mdstate_to_bool(seen) {
            Some(state) => {
                if first {
                    self.publish_motion(state, "Initialized", now);
                } else {
                    self.publish_motion(state, "Changed", now);
                }
            },
            None => {},
        }
    }

    /// Publish what is new among the states of detectors.
    pub fn publish_ai(&mut self, current: Vec<(String, bool)>, now: Timestamp)
        requires
            old(self).wf(),
        ensures
            final(self).wf(),
            final(self).cam_name == old(self).cam_name,
            final(self).listener_started == old(self).listener_started,
            final(self).last_motion == old(self).last_motion,
            states_view(final(self).last_ai@) == merged(
                states_view(old(self).last_ai@),
                states_view(current@),
            ),
            subs_view(final(self).subs@) == delivered(
                subs_view(old(self).subs@),
                ai_notifications(
                    old(self).cam_name@,
                    changed(states_view(old(self).last_ai@), states_view(current@)),
                    "Changed"@,
                    now,
                ),
            ),
    {
        let ghost known = states_view(self.last_ai@);
        let ghost all = states_view(current@);
        let ghost was = *self;
        let mut news: Vec<(String, bool)> = Vec::new();
        let mut i: usize = 0;
        assert(all.take(0) =~= Seq::empty());
        assert(states_view(news@) =~= Seq::empty());
        while i < current.len()
            invariant
                i <= current@.len(),
                all == states_view(current@),
                self.wf(),
                self.cam_name == was.cam_name,
                self.listener_started == was.listener_started,
                self.last_motion == was.last_motion,
                self.subs == was.subs,
                states_view(self.last_ai@) == merged(known, all.take(i as int)),
                states_view(news@) == changed(known, all.take(i as int)),
            decreases current@.len() - i,
        {
            assert(all.take(i + 1).drop_last() =~= all.take(i as int));
            assert(all.take(i + 1).last() == (current@[i as int].0@, current@[i as int].1));
            let entry = &current[i];
            let at: usize = find_state(&self.last_ai, entry.0.as_str());
            let same: bool = at < self.last_ai.len() && self.last_ai[at].1 == entry.1;
            proof {
                lemma_put_state(states_view(self.last_ai@), entry.0@, entry.1);
            }
            if !same {
                let ghost before = news@;
                put_state(&mut self.last_ai, entry.0.clone(), entry.1);
                news.push((entry.0.clone(), entry.1));
                assert(states_view(news@) =~= states_view(before).push((entry.0@, entry.1)));
            }
            i += 1;
        }
        assert(all.take(i as int) =~= all);
        let msgs = build_ai_notifications(self.cam_name.as_str(), &news, "Changed", now);
        self.deliver(&msgs);
    }

    /// The camera reported what it detects.
    pub fn detections_seen(
        &mut self,
        detections: &Vec<(String, bool)>,
        zones: &Vec<(String, bool)>,
        now: Timestamp,
    )
        requires
            old(self).wf(),
        ensures
            final(self).wf(),
            final(self).cam_name == old(self).cam_name,
            final(self).listener_started == old(self).listener_started,
            final(self).last_motion == old(self).last_motion,
            ({
                let known = states_view(old(self).last_ai@);
                let current = current_states(
                    states_view(detections@),
                    states_view(zones@),
                    known,
                );
                &&& states_view(final(self).last_ai@) == merged(known, current)
                &&& subs_view(final(self).subs@) == delivered(
                    subs_view(old(self).subs@),
                    ai_notifications(
                        old(self).cam_name@,
                        changed(known, current),
                        "Changed"@,
                        now,
                    ),
                )
            }),
    {
        let current = detections_now(detections, zones, &self.last_ai);
        self.publish_ai(current, now);
    }
}

/// A subscription that was dropped is not found any more.
pub proof fn law_dropped_subscriptions_are_gone(subs: Seq<SubscriptionView>, id: Seq<char>)
    ensures
        text::place(ids_of(without(subs, id)), id) == without(subs, id).len(),
{
    let left = without(subs, id);
    let other = |s: SubscriptionView| s.id != id;
    assert forall|j: int| 0 <= j < left.len() implies #[trigger] ids_of(left)[j] != id by {
        subs.lemma_filter_pred(other, j);
    }
    text::lemma_place_is(ids_of(left), id, left.len() as int);
}

/// A subscription that was granted is found under its id, and its first pull
/// brings the current state of every property.
pub proof fn law_granted_subscriptions_are_found(
    before: EventsManager,
    after: EventsManager,
    ttl: Option<u64>,
    id: Seq<char>,
    now: Timestamp,
)
    requires
        subscribed(before, after, ttl, id, now),
        !is_full(before, now),
    ensures
        ({
            let subs = subs_view(after.subs@);
            let at = text::place(ids_of(subs), id);
            &&& 0 <= at < subs.len()
            &&& subs[at].id == id
            &&& subs[at].pending == queued_all(Seq::empty(), current_messages(before, now))
            &&& subs[at].terminates_at == granted_end(ttl, now)
        }),
{
    let others = without(alive(subs_view(before.subs@), now), id);
    let subs = subs_view(after.subs@);
    law_dropped_subscriptions_are_gone(alive(subs_view(before.subs@), now), id);
    text::lemma_place(ids_of(others), id);
    assert(subs.len() == others.len() + 1);
    assert forall|j: int| 0 <= j < others.len() implies #[trigger] ids_of(subs)[j] != id by {
        assert(ids_of(others)[j] != id);
    }
    assert(ids_of(subs)[others.len() as int] == id);
    text::lemma_place_is(ids_of(subs), id, others.len() as int);
}

/// Which subscriptions to keep: those that have not ended, and that have
/// another id.
pub open spec fn kept(now: Option<Timestamp>, id: Option<Seq<char>>) -> spec_fn(
    SubscriptionView,
) -> bool {
    |s: SubscriptionView|
        (match now {
            Some(now) => !time::before(s.terminates_at, now),
            None => true,
        }) && (match id {
            Some(id) => s.id != id,
            None => true,
        })
}

proof fn lemma_detectors()
    ensures
        "people"@.len() == 6,
        "vehicle"@.len() == 7,
        "dog_cat"@.len() == 7,
        "face"@.len() == 4,
        "visitor"@.len() == 7,
        "package"@.len() == 7,
        "cry"@.len() == 3,
        "vehicle"@ != "dog_cat"@,
        "vehicle"@ != "visitor"@,
        "vehicle"@ != "package"@,
        "dog_cat"@ != "visitor"@,
        "dog_cat"@ != "package"@,
        "visitor"@ != "package"@,
{
    reveal_strlit("people");
    reveal_strlit("vehicle");
    reveal_strlit("dog_cat");
    reveal_strlit("face");
    reveal_strlit("visitor");
    reveal_strlit("package");
    reveal_strlit("cry");
    assert("vehicle"@[0] != "dog_cat"@[0]);
    assert("vehicle"@[1] != "visitor"@[1]);
    assert("vehicle"@[0] != "package"@[0]);
    assert("dog_cat"@[0] != "visitor"@[0]);
    assert("dog_cat"@[0] != "package"@[0]);
    assert("visitor"@[0] != "package"@[0]);
}

/// A camera's motion is told as a start or a stop; an unknown state tells nothing.
/// It is sent under both topics that clients listen to, each with a data item of
/// its own name, whose value is `true` for motion and `false` for none.
pub proof fn law_motion_is_told_as_it_is(
    cam_name: Seq<char>,
    state: bool,
    op: Seq<char>,
    now: Timestamp,
)
    ensures
        motion_of(MdState::Start) == Some(true),
        motion_of(MdState::Stop) == Some(false),
        motion_of(MdState::Unknown) is None,
        ({
            let value = if state {
                "true"@
            } else {
                "false"@
            };
            let pair = motion_notifications(cam_name, state, op, now);
            &&& pair.len() == 2
            &&& pair[0].topic == "tns1:VideoSource/MotionAlarm"@
            &&& pair[0].data == seq![("State"@, value)]
            &&& pair[1].topic == "tns1:RuleEngine/CellMotionDetector/Motion"@
            &&& pair[1].data == seq![("IsMotion"@, value)]
            &&& forall|i: int|
                0 <= i < 2 ==> (#[trigger] pair[i]).source == seq![("Source"@, "vsrc_"@ + cam_name)]
                    && pair[i].property_op == op && pair[i].utc_time == now
        }),
{
}

/// Each detector is told under the topic for what it detects, of the camera's own
/// video source, as `true` or `false`; a detector without a topic is not told.
pub proof fn law_detectors_have_their_topics(
    cam_name: Seq<char>,
    ai_type: Seq<char>,
    state: bool,
    op: Seq<char>,
    now: Timestamp,
)
    ensures
        ({
            let value = if state {
                "true"@
            } else {
                "false"@
            };
            let n = key_notification(cam_name, ai_type, state, op, now);
            let found = |topic: Seq<char>| Some(
                NotificationView {
                    utc_time: now,
                    topic,
                    source: seq![("Source"@, "vsrc_"@ + cam_name)],
                    data: seq![("State"@, value)],
                    property_op: op,
                },
            );
            &&& ai_type == "people"@ ==> n == found("tns1:RuleEngine/MyRuleDetector/PeopleDetect"@)
            &&& ai_type == "vehicle"@ ==> n == found("tns1:RuleEngine/MyRuleDetector/VehicleDetect"@)
            &&& ai_type == "dog_cat"@ ==> n == found("tns1:RuleEngine/MyRuleDetector/DogCatDetect"@)
            &&& ai_type == "face"@ ==> n == found("tns1:RuleEngine/MyRuleDetector/FaceDetect"@)
            &&& ai_type == "visitor"@ ==> n == found("tns1:RuleEngine/MyRuleDetector/Visitor"@)
            &&& ai_type == "package"@ ==> n == found("tns1:RuleEngine/MyRuleDetector/Package"@)
            &&& ai_type == "cry"@ ==> n == Some(
                NotificationView {
                    utc_time: now,
                    topic: "tns1:AudioAnalytics/Audio/DetectedSound"@,
                    source: seq![
                        ("AudioSourceConfigurationToken"@, "asrc_"@ + cam_name),
                        ("AudioAnalyticsConfigurationToken"@, "aacfg_"@ + cam_name),
                        ("Rule"@, "CryDetect"@),
                    ],
                    data: seq![("IsSoundDetected"@, value)],
                    property_op: op,
                },
            )
            &&& ai_type != "people"@ && ai_type != "vehicle"@ && ai_type != "dog_cat"@ && ai_type != "face"@ && ai_type != "visitor"@ && ai_type != "package"@ && ai_type != "cry"@ && !"zone:"@.is_prefix_of(ai_type)
                ==> n is None
        }),
{
    lemma_detectors();
    reveal_strlit("zone:");
    assert("zone:"@.len() == 5 && "zone:"@[4] == ':');
    reveal_strlit("people");
    assert("people"@[4] != ':');
    reveal_strlit("vehicle");
    assert("vehicle"@[4] != ':');
    reveal_strlit("dog_cat");
    assert("dog_cat"@[4] != ':');
    reveal_strlit("visitor");
    assert("visitor"@[4] != ':');
    reveal_strlit("package");
    assert("package"@[4] != ':');
    if "zone:"@.is_prefix_of(ai_type) {
        assert(ai_type[4] == ':') by {
            assert(ai_type.subrange(0, 5)[4] == ai_type[4]);
        }
    }
}

/// A zone is told as a field detector whose rule is named after the zone.
pub proof fn law_zones_are_told_by_name(
    cam_name: Seq<char>,
    kind: Seq<char>,
    state: bool,
    op: Seq<char>,
    now: Timestamp,
)
    ensures
        key_notification(cam_name, "zone:"@ + kind, state, op, now) == Some(
            NotificationView {
                utc_time: now,
                topic: "tns1:RuleEngine/FieldDetector/ObjectsInside"@,
                source: seq![
                    ("VideoSourceConfigurationToken"@, "vsrc_"@ + cam_name),
                    ("VideoAnalyticsConfigurationToken"@, "vacfg_"@ + cam_name),
                    ("Rule"@, kind),
                ],
                data: seq![
                    (
                        "IsInside"@,
                        if state {
                            "true"@
                        } else {
                            "false"@
                        },
                    ),
                ],
                property_op: op,
            },
        ),
{
    let key = "zone:"@ + kind;
    assert(key.subrange(0, "zone:"@.len() as int) =~= "zone:"@);
    assert(key.skip("zone:"@.len() as int) =~= kind);
}

/// A subscription lasts as long as it was asked for, but an hour at most, and five
/// minutes where nothing was asked for. One that a pull finds past its end gets
/// five minutes more, and any other keeps its end.
pub proof fn law_subscriptions_last_as_asked(ttl: u64, end: Timestamp, now: Timestamp)
    requires
        grants(now),
    ensures
        ttl <= 3_600 ==> end_of(ttl, now).secs == now.secs + ttl,
        ttl > 3_600 ==> end_of(ttl, now).secs == now.secs + 3_600,
        end_of(ttl, now).nanos == now.nanos,
        granted_end(Some(ttl), now) == end_of(ttl, now),
        granted_end(None, now).secs == now.secs + 300,
        granted_end(None, now).nanos == now.nanos,
        end.secs < now.secs || (end.secs == now.secs && end.nanos < now.nanos) ==> refreshed(
            end,
            now,
        ) == (Timestamp { secs: (now.secs + 300) as i64, nanos: now.nanos }),
        now.secs < end.secs || (end.secs == now.secs && now.nanos <= end.nanos) ==> refreshed(
            end,
            now,
        ) == end,
{
}

/// A message joins the end of the queue, and a full queue of 256 loses its oldest.
pub proof fn law_queues_hold_the_newest(queue: Seq<NotificationView>, msg: NotificationView)
    requires
        queue.len() <= 256,
    ensures
        queued(queue, msg).len() <= 256,
        queued(queue, msg).last() == msg,
        queue.len() < 256 ==> queued(queue, msg) == queue + seq![msg],
        queue.len() == 256 ==> queued(queue, msg) == queue.skip(1) + seq![msg],
{
    assert(queue.push(msg) =~= queue + seq![msg]);
    if queue.len() == 256 {
        assert(queue.drop_first().push(msg) =~= queue.skip(1) + seq![msg]);
    }
}

/// A pull takes as many messages as it asked for, at least one, if there are that
/// many, and all of them if there are fewer.
pub proof fn law_pulls_take_what_they_ask_for(len: int, limit: int)
    requires
        0 <= len,
    ensures
        1 <= limit <= len ==> pull_count(len, limit) == limit,
        limit >= len ==> pull_count(len, limit) == len,
        limit < 1 && len >= 1 ==> pull_count(len, limit) == 1,
        0 <= pull_count(len, limit) <= len,
{
}

/// Messages are delivered to every subscription, behind what waits there already.
pub proof fn law_messages_reach_every_subscription(
    subs: Seq<SubscriptionView>,
    msg: NotificationView,
    i: int,
)
    requires
        0 <= i < subs.len(),
    ensures
        delivered(subs, seq![msg]).len() == subs.len(),
        delivered(subs, seq![msg])[i].id == subs[i].id,
        delivered(subs, seq![msg])[i].terminates_at == subs[i].terminates_at,
        subs[i].pending.len() < 256 ==> delivered(subs, seq![msg])[i].pending
            == subs[i].pending.push(msg),
{
    assert(seq![msg].drop_last() =~= Seq::empty());
    reveal_with_fuel(queued_all, 2);
}

/// A subscription stays as long as its end is not past, and one that is dropped
/// takes no other with it.
pub proof fn law_only_ended_subscriptions_go(
    subs: Seq<SubscriptionView>,
    s: SubscriptionView,
    id: Seq<char>,
    now: Timestamp,
)
    ensures
        alive(subs, now).contains(s) <==> (subs.contains(s) && !(s.terminates_at.secs < now.secs || (
        s.terminates_at.secs == now.secs && s.terminates_at.nanos < now.nanos))),
        without(subs, id).contains(s) <==> (subs.contains(s) && s.id != id),
{
    broadcast use vstd::seq_lib::group_filter_ensures;

    let stays = |s: SubscriptionView| !time::before(s.terminates_at, now);
    let other = |s: SubscriptionView| s.id != id;
    lemma_filter_holds(subs, stays, s);
    lemma_filter_holds(subs, other, s);
}

proof fn lemma_filter_holds(
    subs: Seq<SubscriptionView>,
    pred: spec_fn(SubscriptionView) -> bool,
    s: SubscriptionView,
)
    ensures
        subs.filter(pred).contains(s) <==> (subs.contains(s) && pred(s)),
    decreases subs.len(),
{
    reveal(Seq::filter);
    if subs.len() > 0 {
        let rest = subs.drop_last();
        lemma_filter_holds(rest, pred, s);
        let kept = rest.filter(pred);
        if subs.contains(s) {
            let k = choose|k: int| 0 <= k < subs.len() && subs[k] == s;
            if k < rest.len() {
                assert(rest[k] == s);
            }
        }
        if rest.contains(s) {
            let k = choose|k: int| 0 <= k < rest.len() && rest[k] == s;
            assert(subs[k] == s);
        }
        if pred(subs.last()) {
            let all = kept.push(subs.last());
            assert(all[kept.len() as int] == subs.last());
            assert(subs[subs.len() - 1] == subs.last());
            if kept.contains(s) {
                let k = choose|k: int| 0 <= k < kept.len() && kept[k] == s;
                assert(all[k] == s);
            }
            if all.contains(s) {
                let k = choose|k: int| 0 <= k < all.len() && all[k] == s;
                if k < kept.len() {
                    assert(kept[k] == s);
                }
            }
        }
    }
}

/// A camera takes 32 subscriptions, not counting those that have ended. The first
/// one starts the listeners.
pub proof fn law_a_camera_takes_32_subscriptions(
    m: EventsManager,
    ttl: Option<u64>,
    now: Timestamp,
)
    ensures
        alive(subs_view(m.subs@), now).len() < 32 ==> subscribe_result(m, ttl, now) == Ok::<
            Created,
            TooManySubscriptions,
        >(
            Created {
                created_at: now,
                terminates_at: granted_end(ttl, now),
                start_listeners: !m.listener_started,
            },
        ),
        alive(subs_view(m.subs@), now).len() >= 32 ==> subscribe_result(m, ttl, now) is Err,
{
}

/// What a new subscription learns is what is known: the motion, if any is, and every
/// detector that has a topic, as initial states.
pub proof fn law_new_subscriptions_learn_what_is_known(m: EventsManager, now: Timestamp)
    ensures
        m.last_ai@.len() == 0 && m.last_motion is None ==> current_messages(m, now).len() == 0,
        m.last_ai@.len() == 0 && m.last_motion is Some ==> current_messages(m, now)
            == motion_notifications(m.cam_name@, m.last_motion->0, "Initialized"@, now),
        m.last_motion is None ==> current_messages(m, now) == ai_notifications(
            m.cam_name@,
            states_view(m.last_ai@),
            "Initialized"@,
            now,
        ),
{
    assert(states_view(m.last_ai@).len() == m.last_ai@.len());
    if m.last_motion is None {
        assert(current_messages(m, now) =~= ai_notifications(
            m.cam_name@,
            states_view(m.last_ai@),
            "Initialized"@,
            now,
        ));
    }
    if m.last_ai@.len() == 0 && m.last_motion is Some {
        assert(current_messages(m, now) =~= motion_notifications(
            m.cam_name@,
            m.last_motion->0,
            "Initialized"@,
            now,
        ));
    }
}

/// A detector is news only where its state is not the one that was known, and what
/// is told of it is known from then on, of it alone.
pub proof fn law_only_changes_are_news(
    states: Seq<(Seq<char>, bool)>,
    key: Seq<char>,
    state: bool,
    other: Seq<char>,
)
    requires
        other != key,
    ensures
        state_of(states, key) == Some(state) ==> changed(states, seq![(key, state)]).len() == 0,
        state_of(states, key) != Some(state) ==> changed(states, seq![(key, state)])
            == seq![(key, state)],
        state_of(merged(states, seq![(key, state)]), key) == Some(state),
        state_of(merged(states, seq![(key, state)]), other) == state_of(states, other),
{
    let news = seq![(key, state)];
    assert(news.drop_last() =~= Seq::empty());
    reveal_with_fuel(changed, 2);
    reveal_with_fuel(merged, 2);
    lemma_put_state(states, key, state);
    assert(Seq::<(Seq<char>, bool)>::empty().push((key, state)) =~= news);
}

/// The state that is known of a detector is the one that stands beside its name.
pub proof fn law_states_stand_beside_their_names(
    states: Seq<(Seq<char>, bool)>,
    i: int,
    key: Seq<char>,
)
    requires
        distinct_keys(states),
        0 <= i < states.len(),
    ensures
        state_of(states, states[i].0) == Some(states[i].1),
        (forall|j: int| 0 <= j < states.len() ==> (#[trigger] states[j]).0 != key) ==> state_of(
            states,
            key,
        ) is None,
{
    let keys = keys_of(states);
    text::lemma_place(keys, states[i].0);
    text::lemma_place(keys, key);
    let at = text::place(keys, states[i].0);
    assert(keys[i] == states[i].0);
    if at < i {
        assert(keys[at] == states[at].0);
        assert(states[at].0 != states[i].0);
    }
    let k = text::place(keys, key);
    if k < states.len() {
        assert(keys[k] == states[k].0);
    }
}

/// Motion is told when it changes, and not when it is repeated. The first state is told as
/// an initial one, and every later one as a change.
pub proof fn law_motion_is_told_when_it_changes(
    m: EventsManager,
    state: bool,
    op: Seq<char>,
    now: Timestamp,
)
    ensures
        m.last_motion == Some(state) ==> told_of_motion(m, state, op, now) == subs_view(m.subs@),
        m.last_motion != Some(state) ==> told_of_motion(m, state, op, now) == delivered(
            subs_view(m.subs@),
            motion_notifications(m.cam_name@, state, op, now),
        ),
        news_of(true) == "Initialized"@,
        news_of(false) == "Changed"@,
{
}

} // verus!

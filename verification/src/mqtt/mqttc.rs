//! The connection to the broker: topics, requests, and what to do next.

use vstd::prelude::*;
use vstd::string::*;
use std::sync::Arc;
use crate::common::backoff;
use crate::common::backoff::Backoff;
use crate::config::MqttServerConfig;
use crate::text;

verus! {

/// Reconnect backoff for the broker connection, in milliseconds. A broker that
/// is down gets retried ever more slowly.
pub const RECONNECT_BACKOFF_MIN: u64 = 2_000;

pub const RECONNECT_BACKOFF_MAX: u64 = 60_000;

/// A connection that lasted this long counts as healthy: the next failure
/// starts over from [`RECONNECT_BACKOFF_MIN`].
pub const RECONNECT_BACKOFF_RESET: u64 = 60_000;

/// How the connection to the broker is retried.
#[derive(Debug)]
pub struct Reconnect {
    pub backoff: Backoff,
}

/// How long a connection that was lost waits before it is tried again: as long as it is
/// its turn to, or the shortest where it lasted for long enough.
pub open spec fn reconnect_wait(delay: u64, uptime: u64) -> u64 {
    if uptime >= RECONNECT_BACKOFF_RESET {
        RECONNECT_BACKOFF_MIN
    } else {
        delay
    }
}

/// How long it is the turn of a connection to wait the next time.
pub open spec fn delay_after(wait: u64) -> u64 {
    backoff::doubled(wait, RECONNECT_BACKOFF_MAX)
}

impl Reconnect {
    /// What every value keeps.
    pub open spec fn wf(&self) -> bool {
        &&& self.backoff.wf()
        &&& self.backoff.min == RECONNECT_BACKOFF_MIN
        &&& self.backoff.max == RECONNECT_BACKOFF_MAX
    }

    pub fn new() -> (reconnect: Self)
        ensures
            reconnect.wf(),
            reconnect.backoff.delay == RECONNECT_BACKOFF_MIN,
    {
        Reconnect { backoff: Backoff::new(RECONNECT_BACKOFF_MIN, RECONNECT_BACKOFF_MAX) }
    }

    /// How long to wait after a connection that ended in an error, having
    /// lasted `uptime` milliseconds.
    pub fn failed(&mut self, uptime: u64) -> (wait: u64)
        requires
            old(self).wf(),
        ensures
            final(self).wf(),
            wait == reconnect_wait(old(self).backoff.delay, uptime),
            final(self).backoff.delay == delay_after(wait),
    {
        if uptime >= RECONNECT_BACKOFF_RESET {
            self.backoff.reset();
        }
        self.backoff.next()
    }
}

/// Two parts of a topic, with a slash between them unless one is empty.
pub open spec fn joined(a: Seq<char>, b: Seq<char>) -> Seq<char> {
    if a.len() == 0 {
        b
    } else if b.len() == 0 {
        a
    } else {
        a + "/"@ + b
    }
}

fn join(a: &str, b: &str) -> (topic: String)
    ensures
        topic@ == joined(a@, b@),
{
    if a.is_empty() {
        b.to_owned()
    } else if b.is_empty() {
        a.to_owned()
    } else {
        let mut topic = a.to_owned();
        topic.append("/");
        topic.append(b);
        topic
    }
}

/// A message on a topic.
#[derive(Debug)]
pub struct MqttReply {
    pub topic: String,
    /// Messages can be long, so they are shared rather than copied.
    pub message: Arc<String>,
}

/// A borrowed message on a topic.
#[derive(Debug)]
pub struct MqttReplyRef<'a> {
    pub topic: &'a str,
    pub message: &'a str,
}

impl MqttReply {
    pub fn as_ref(&self) -> (reply: MqttReplyRef<'_>)
        ensures
            reply.topic@ == self.topic@,
            reply.message@ == (*self.message)@,
    {
        MqttReplyRef { topic: self.topic.as_str(), message: self.message.as_str() }
    }
}

/// What a user of the connection asks of it.
#[derive(Debug)]
pub enum MqttRequest {
    Send(MqttReply),
    SendRetained(MqttReply),
    HangUp,
    Subscribe(String),
    LastWill { topic: String, message: String },
}

/// Everything that is published is published under this topic.
pub open spec fn root_topic() -> Seq<char> {
    "neolink"@
}

/// A user of the connection: a camera's, or with an empty name everyone's.
#[derive(Debug)]
pub struct MqttInstance {
    pub name: String,
}

/// How a message of a listener is published: under the root, its name and the topic it is
/// about, and kept by the broker if that is asked for.
pub open spec fn sent_as(
    root: Seq<char>,
    name: Seq<char>,
    sub: Seq<char>,
    message: Seq<char>,
    retain: bool,
) -> (Seq<char>, Seq<char>, bool) {
    (joined(joined(root, name), sub), message, retain)
}

/// Where the last will of a listener is published.
pub open spec fn will_topic(name: Seq<char>, topic: Seq<char>) -> Seq<char> {
    if name.len() == 0 {
        "neolink/"@ + topic
    } else {
        "neolink/"@ + name + "/"@ + topic
    }
}

impl MqttInstance {
    pub fn get_name(&self) -> (name: &str)
        ensures
            name@ == self.name@,
    {
        self.name.as_str()
    }

    /// The request for another instance, under another name.
    pub fn subscribe(&self, name: &str) -> (request: MqttRequest)
        ensures
            request matches MqttRequest::Subscribe(asked) && asked@ == name@,
    {
        MqttRequest::Subscribe(name.to_owned())
    }

    /// The request for another instance under the same name.
    pub fn resubscribe(&self) -> (request: MqttRequest)
        ensures
            request matches MqttRequest::Subscribe(asked) && asked@ == self.name@,
    {
        MqttRequest::Subscribe(self.name.clone())
    }

    /// The request that publishes a message under a root topic, the instance's
    /// name and a sub topic, whichever of them are not empty.
    pub fn send_message_with_root_topic(
        &self,
        root_topic: &str,
        sub_topic: &str,
        message: &str,
        retain: bool,
    ) -> (request: MqttRequest)
        ensures
            publication(request) == Some(
                sent_as(root_topic@, self.name@, sub_topic@, message@, retain),
            ),
    {
        let above = join(root_topic, self.name.as_str());
        let reply = MqttReply {
            topic: join(above.as_str(), sub_topic),
            message: Arc::new(message.to_owned()),
        };
        if retain {
            MqttRequest::SendRetained(reply)
        } else {
            MqttRequest::Send(reply)
        }
    }

    /// The request that publishes a message of this instance.
    pub fn send_message(&self, sub_topic: &str, message: &str, retain: bool) -> (request: MqttRequest)
        ensures
            publication(request) == Some(
                sent_as(root_topic(), self.name@, sub_topic@, message@, retain),
            ),
    {
        self.send_message_with_root_topic("neolink", sub_topic, message, retain)
    }

    /// What an incoming message is to this instance: nothing, unless its name
    /// is empty or is the first level of the topic, which is then taken off.
    pub fn recv(&self, msg: MqttReply) -> (received: Option<MqttReply>)
        ensures
            match received {
                Some(reply) => addressed(self.name@, msg.topic@) && reply.topic@ == local_topic(
                    self.name@,
                    msg.topic@,
                ) && reply.message == msg.message,
                None => !addressed(self.name@, msg.topic@),
            },
    {
        if self.name.as_str().is_empty() {
            return Some(msg);
        }
        let (first, rest) = text::split_first(msg.topic.as_str(), '/');
        if !text::same(first.as_str(), self.name.as_str()) {
            return None;
        }
        let topic = match rest {
            Some(rest) => rest,
            None => String::new(),
        };
        Some(MqttReply { topic, message: msg.message })
    }

    /// The request that leaves a message for when this connection is lost.
    pub fn last_will(&self, topic: &str, message: &str) -> (request: MqttRequest)
        ensures
            request matches MqttRequest::LastWill { topic: at, message: said } && said@ == message@
                && at@ == will_topic(self.name@, topic@),
    {
        let mut at = "neolink/".to_owned();
        if !self.name.as_str().is_empty() {
            at.append(self.name.as_str());
            at.append("/");
        }
        at.append(topic);
        MqttRequest::LastWill { topic: at, message: message.to_owned() }
    }
}

/// Whether a topic, without its root, is for the instance of this name.
pub open spec fn addressed(name: Seq<char>, topic: Seq<char>) -> bool {
    name.len() == 0 || topic.take(text::first_of(topic, '/')) == name
}

/// What is left of a topic for the instance of this name.
pub open spec fn local_topic(name: Seq<char>, topic: Seq<char>) -> Seq<char> {
    let at = text::first_of(topic, '/');
    if name.len() == 0 {
        topic
    } else if at < topic.len() {
        topic.skip(at + 1)
    } else {
        Seq::empty()
    }
}

/// A message that one instance publishes comes back, once the root is off, to
/// the instance of the same name under the same sub topic, and to no instance
/// of another name.
pub proof fn law_topics_round_trip(name: Seq<char>, sub: Seq<char>, other: Seq<char>)
    requires
        name.len() > 0,
        sub.len() > 0,
        !name.contains('/'),
    ensures
        ({
            let sent = joined(joined(root_topic(), name), sub);
            let topic = name + "/"@ + sub;
            &&& sent == "neolink/"@ + topic
            &&& addressed(name, topic)
            &&& local_topic(name, topic) == sub
            &&& other.len() > 0 && other != name ==> !addressed(other, topic)
        }),
{
    reveal_strlit("neolink");
    reveal_strlit("neolink/");
    reveal_strlit("/");
    let topic = name + "/"@ + sub;
    let sent = joined(joined(root_topic(), name), sub);
    assert(sent =~= "neolink/"@ + topic);
    text::lemma_first_of(topic, '/');
    let at = text::first_of(topic, '/');
    assert(topic[name.len() as int] == '/');
    if at < name.len() {
        assert(topic[at] == name[at]);
        assert(name.contains('/'));
    }
    assert(at == name.len());
    assert(topic.take(at) =~= name);
    assert(topic.skip(at + 1) =~= sub);
}

/// What a request asks the client to publish: where, what, and whether to
/// retain it.
pub open spec fn publication(request: MqttRequest) -> Option<(Seq<char>, Seq<char>, bool)> {
    match request {
        MqttRequest::Send(reply) => Some((reply.topic@, (*reply.message)@, false)),
        MqttRequest::SendRetained(reply) => Some((reply.topic@, (*reply.message)@, true)),
        _ => None,
    }
}

/// A message for the client to publish.
#[derive(Debug)]
pub struct Publication<'a> {
    pub topic: &'a str,
    pub message: &'a str,
    pub retain: bool,
}

/// What a pending request asks the client to publish.
pub fn publication_of(pending: &Option<MqttRequest>) -> (found: Option<Publication<'_>>)
    ensures
        match found {
            Some(p) => *pending matches Some(request) && publication(request) == Some(
                (p.topic@, p.message@, p.retain),
            ),
            None => *pending matches Some(request) ==> publication(request) is None,
        },
{
    match pending {
        Some(MqttRequest::Send(reply)) => Some(
            Publication {
                topic: reply.topic.as_str(),
                message: reply.message.as_str(),
                retain: false,
            },
        ),
        Some(MqttRequest::SendRetained(reply)) => Some(
            Publication {
                topic: reply.topic.as_str(),
                message: reply.message.as_str(),
                retain: true,
            },
        ),
        _ => None,
    }
}

/// Settle a request that was handed to the client.
///
/// `pending` is emptied only once the client has accepted the message, and the
/// sender is acknowledged only at that point. A refused request stays, whole,
/// for the next connection.
pub fn publish_request(pending: &mut Option<MqttRequest>, accepted: bool) -> (acknowledge: bool)
    ensures
        acknowledge == (accepted && (*old(pending) matches Some(request) && publication(request)
            is Some)),
        acknowledge ==> *final(pending) is None,
        !acknowledge ==> *final(pending) == *old(pending),
{
    let publishes: bool = match &*pending {
        Some(MqttRequest::Send(_)) => true,
        Some(MqttRequest::SendRetained(_)) => true,
        _ => false,
    };
    if accepted && publishes {
        *pending = None;
        true
    } else {
        false
    }
}

/// A publication as texts.
pub open spec fn publication_view(p: Publication<'_>) -> (Seq<char>, Seq<char>, bool) {
    (p.topic@, p.message@, p.retain)
}

/// What the bridge says of itself: a retained message on its status topic, which
/// is where its last will goes too.
pub open spec fn status_publication(message: Seq<char>) -> (Seq<char>, Seq<char>, bool) {
    ("neolink/status"@, message, true)
}

/// What is published when a connection starts, and again once the broker has
/// accepted it.
pub fn greeting() -> (p: Publication<'static>)
    ensures
        publication_view(p) == status_publication("connected"@),
{
    Publication { topic: "neolink/status", message: "connected", retain: true }
}

/// What is published in front of a clean disconnect.
pub fn farewell() -> (p: Publication<'static>)
    ensures
        publication_view(p) == status_publication("disconnected"@),
{
    Publication { topic: "neolink/status", message: "disconnected", retain: true }
}

/// What reaches a running connection.
#[derive(Debug)]
pub enum BackendEvent {
    /// A user asks something of it.
    Request(MqttRequest),
    /// No user is left.
    QueueClosed,
    /// The broker answered the connection attempt.
    ConnAck { success: bool },
    /// The broker delivered a message.
    Published { topic: String, payload: Vec<u8> },
    /// Anything else the broker said.
    Other,
    /// The connection is gone.
    PollFailed,
}

/// What to do about it.
#[derive(Debug)]
pub enum BackendAction {
    /// Nothing.
    Nothing,
    /// Hand out an instance of this name, from local state alone.
    Answer(MqttInstance),
    /// Register a last will on a connection of its own.
    RegisterWill { topic: String, message: String },
    /// Publish the goodbye, whether or not that works, and answer the caller.
    SayGoodbye(Publication<'static>),
    /// Publish this on a task of its own; what the client does not take goes
    /// back on the queue.
    Publish(MqttRequest),
    /// Publish the greeting, and subscribe to the topics of a filter.
    Greet { greeting: Publication<'static>, filter: &'static str },
    /// Deliver this to the instances.
    Deliver(MqttReply),
    /// End the connection in an error.
    Fail,
}

/// The part of a topic under the root.
pub open spec fn under_root(topic: Seq<char>) -> Option<Seq<char>> {
    if "neolink/"@.is_prefix_of(topic) {
        Some(topic.skip("neolink/"@.len() as int))
    } else {
        None
    }
}

/// What a running connection does about an event.
pub fn backend_step(event: BackendEvent) -> (action: BackendAction)
    ensures
        match event {
            BackendEvent::Request(MqttRequest::Subscribe(name)) => action
                matches BackendAction::Answer(instance) && instance.name@ == name@,
            BackendEvent::Request(MqttRequest::LastWill { topic, message }) => action
                matches BackendAction::RegisterWill { topic: t, message: m } && t == topic && m
                == message,
            BackendEvent::Request(MqttRequest::HangUp) => action matches BackendAction::SayGoodbye(
                p,
            ) && publication_view(p) == status_publication("disconnected"@),
            BackendEvent::Request(request) => action == BackendAction::Publish(request),
            BackendEvent::QueueClosed => action is Fail,
            BackendEvent::ConnAck { success } => if success {
                action matches BackendAction::Greet { greeting, filter } && publication_view(greeting)
                    == status_publication("connected"@) && filter@ == "neolink/#"@
            } else {
                action is Nothing
            },
            BackendEvent::Published { topic, payload } => match under_root(topic@) {
                Some(sub) => action matches BackendAction::Deliver(reply) && reply.topic@ == sub
                    && (*reply.message)@ == text::lossy_text(payload@),
                None => action is Nothing,
            },
            BackendEvent::Other => action is Nothing,
            BackendEvent::PollFailed => action is Fail,
        },
{
    match event {
        BackendEvent::Request(MqttRequest::Subscribe(name)) => BackendAction::Answer(
            MqttInstance { name },
        ),
        BackendEvent::Request(MqttRequest::LastWill { topic, message }) => {
            BackendAction::RegisterWill { topic, message }
        },
        BackendEvent::Request(MqttRequest::HangUp) => BackendAction::SayGoodbye(farewell()),
        BackendEvent::Request(request) => BackendAction::Publish(request),
        BackendEvent::QueueClosed => BackendAction::Fail,
        BackendEvent::ConnAck { success } => if success {
            BackendAction::Greet { greeting: greeting(), filter: "neolink/#" }
        } else {
            BackendAction::Nothing
        },
        BackendEvent::Published { topic, payload } => {
            match text::after_prefix(topic.as_str(), "neolink/") {
                Some(sub) => {
                    assert(topic@.skip("neolink/"@.len() as int) =~= sub@);
                    assert(topic@.subrange(0, "neolink/"@.len() as int) =~= "neolink/"@);
                    BackendAction::Deliver(
                        MqttReply {
                            topic: sub,
                            message: Arc::new(text::text_from_bytes(payload.as_slice())),
                        },
                    )
                },
                None => BackendAction::Nothing,
            }
        },
        BackendEvent::Other => BackendAction::Nothing,
        BackendEvent::PollFailed => BackendAction::Fail,
    }
}

/// What a connection to the broker is made with.
#[derive(Debug)]
pub struct ConnectionOptions {
    pub client_id: String,
    pub broker_addr: String,
    pub port: u16,
    pub max_packet_size: usize,
    pub keep_alive_secs: u64,
    pub credentials: Option<(String, String)>,
    /// What the broker publishes, retained, when the connection is lost.
    pub will_topic: String,
    pub will_message: String,
}

/// The largest packet either way.
pub const MAX_PACKET_SIZE: usize = 104_857_600;

/// The texts of a pair of strings.
pub open spec fn pair_view(pair: Option<(String, String)>) -> Option<(Seq<char>, Seq<char>)> {
    match pair {
        Some((a, b)) => Some((a@, b@)),
        None => None,
    }
}

/// A copy of an optional pair of strings.
pub fn copy_pair(pair: &Option<(String, String)>) -> (copy: Option<(String, String)>)
    ensures
        pair_view(copy) == pair_view(*pair),
{
    match pair {
        Some((a, b)) => Some((a.clone(), b.clone())),
        None => None,
    }
}

/// The options of the main connection, whose will says that the bridge is
/// offline. `unique` sets the client apart from every other.
pub fn main_options(config: &MqttServerConfig, unique: &str) -> (options: ConnectionOptions)
    ensures
        options.client_id@ == "Neolink"@ + unique@,
        options.broker_addr@ == config.broker_addr@,
        options.port == config.port,
        options.max_packet_size == MAX_PACKET_SIZE,
        options.keep_alive_secs == 5,
        pair_view(options.credentials) == pair_view(config.credentials),
        options.will_topic@ == "neolink/status"@,
        options.will_message@ == "offline"@,
{
    let mut client_id = "Neolink".to_owned();
    client_id.append(unique);
    ConnectionOptions {
        client_id,
        broker_addr: config.broker_addr.clone(),
        port: config.port,
        max_packet_size: MAX_PACKET_SIZE,
        keep_alive_secs: 5,
        credentials: copy_pair(&config.credentials),
        will_topic: "neolink/status".to_owned(),
        will_message: "offline".to_owned(),
    }
}

/// The options of a connection that exists for its last will.
pub fn last_will_options(config: &MqttServerConfig, topic: &str, message: &str, unique: &str) -> (options:
    ConnectionOptions)
    ensures
        options.client_id@ == "NeolinkLastWill_"@ + topic@ + "_"@ + unique@,
        options.broker_addr@ == config.broker_addr@,
        options.port == config.port,
        options.max_packet_size == MAX_PACKET_SIZE,
        options.keep_alive_secs == 5,
        pair_view(options.credentials) == pair_view(config.credentials),
        options.will_topic@ == topic@,
        options.will_message@ == message@,
{
    let mut client_id = "NeolinkLastWill_".to_owned();
    client_id.append(topic);
    client_id.append("_");
    client_id.append(unique);
    ConnectionOptions {
        client_id,
        broker_addr: config.broker_addr.clone(),
        port: config.port,
        max_packet_size: MAX_PACKET_SIZE,
        keep_alive_secs: 5,
        credentials: copy_pair(&config.credentials),
        will_topic: topic.to_owned(),
        will_message: message.to_owned(),
    }
}

/// The certificates a TLS connection is made with.
#[derive(Debug)]
pub struct TlsParts {
    pub ca: Vec<u8>,
    /// The client's certificate and key.
    pub client_auth: Option<(Vec<u8>, Vec<u8>)>,
}

/// Whether to use TLS, given what the files of the configuration held.
///
/// TLS is used if the CA is set and was read; the client authenticates if its
/// certificate and key are set and both were read. `None` stands for a file
/// that is not set or could not be read.
pub fn choose_tls(
    ca: Option<Vec<u8>>,
    cert: Option<Vec<u8>>,
    key: Option<Vec<u8>>,
) -> (parts: Option<TlsParts>)
    ensures
        match parts {
            Some(tls) => ca == Some(tls.ca) && match tls.client_auth {
                Some((c, k)) => cert == Some(c) && key == Some(k),
                None => cert is None || key is None,
            },
            None => ca is None,
        },
{
    match ca {
        Some(ca) => {
            let client_auth = match (cert, key) {
                (Some(cert), Some(key)) => Some((cert, key)),
                _ => None,
            };
            Some(TlsParts { ca, client_auth })
        },
        None => None,
    }
}

/// A connection greets, and a bridge that leaves says goodbye, under the status
/// topic below the root, and the broker keeps what was said.
pub proof fn law_status_is_kept_under_the_root(message: Seq<char>)
    ensures
        status_publication(message) == ("neolink/status"@, message, true),
        status_publication("connected"@) != status_publication("disconnected"@),
{
    reveal_strlit("connected");
    reveal_strlit("disconnected");
    assert("connected"@.len() == 9 && "disconnected"@.len() == 12);
}

/// Only a message below the root is for the bridge, and it is taken by what
/// stands behind the root.
pub proof fn law_messages_below_the_root_are_taken(sub: Seq<char>, topic: Seq<char>)
    ensures
        under_root("neolink/"@ + sub) == Some(sub),
        under_root(topic) matches Some(found) ==> topic == "neolink/"@ + found,
{
    let whole = "neolink/"@ + sub;
    assert(whole.subrange(0, "neolink/"@.len() as int) =~= "neolink/"@);
    assert("neolink/"@.is_prefix_of(whole));
    assert(whole.skip("neolink/"@.len() as int) =~= sub);
    if let Some(found) = under_root(topic) {
        assert(topic =~= "neolink/"@ + found);
    }
}

/// A message that is to be sent is published under its own topic, with its own
/// text, and the broker keeps it only where that was asked for. Nothing else is
/// published.
pub proof fn law_messages_are_published_as_they_are(request: MqttRequest)
    ensures
        request matches MqttRequest::Send(reply) ==> publication(request) == Some(
            (reply.topic@, (*reply.message)@, false),
        ),
        request matches MqttRequest::SendRetained(reply) ==> publication(request) == Some(
            (reply.topic@, (*reply.message)@, true),
        ),
        request is HangUp || request is Subscribe || request is LastWill ==> publication(request)
            is None,
{
}

/// Parts of a topic are joined by a slash, and an empty part leaves no slash
/// behind.
pub proof fn law_topics_are_joined_by_a_slash(a: Seq<char>, b: Seq<char>)
    ensures
        a.len() > 0 && b.len() > 0 ==> joined(a, b) == a + "/"@ + b,
        a.len() == 0 ==> joined(a, b) == b,
        b.len() == 0 ==> joined(a, b) == a,
        root_topic() == "neolink"@,
{
    if a.len() == 0 && b.len() == 0 {
        assert(a =~= b);
    }
}

/// The listener that stands for the whole bridge hears every message as it came.
pub proof fn law_the_bridge_hears_everything(topic: Seq<char>)
    ensures
        addressed(Seq::empty(), topic),
        local_topic(Seq::empty(), topic) == topic,
{
}

/// A connection that lasted for a minute is tried again after two seconds, and one that
/// did not after the delay whose turn it is, which doubles up to a minute.
pub proof fn law_reconnections_slow_down_and_recover(delay: u64, uptime: u64, wait: u64)
    ensures
        uptime >= 60_000 ==> reconnect_wait(delay, uptime) == 2_000,
        uptime < 60_000 ==> reconnect_wait(delay, uptime) == delay,
        wait <= 30_000 ==> delay_after(wait) == 2 * wait,
        wait > 30_000 ==> delay_after(wait) == 60_000,
{
}

/// What a listener says is published as it was said, below the root and its own name, and a
/// last will is published where the listener itself would say it.
pub proof fn law_listeners_speak_under_their_names(
    name: Seq<char>,
    sub: Seq<char>,
    message: Seq<char>,
    retain: bool,
)
    requires
        sub.len() > 0,
    ensures
        name.len() > 0 ==> sent_as("neolink"@, name, sub, message, retain) == (
            "neolink/"@ + name + "/"@ + sub,
            message,
            retain,
        ),
        name.len() == 0 ==> sent_as("neolink"@, name, sub, message, retain) == (
            "neolink/"@ + sub,
            message,
            retain,
        ),
        will_topic(name, sub) == sent_as("neolink"@, name, sub, message, retain).0,
{
    reveal_strlit("neolink");
    reveal_strlit("neolink/");
    reveal_strlit("/");
    assert("neolink"@ + "/"@ =~= "neolink/"@);
    assert("neolink"@.len() == 7);
    if name.len() > 0 {
        assert("neolink"@ + "/"@ + name + "/"@ + sub =~= "neolink/"@ + name + "/"@ + sub);
    }
}

} // verus!

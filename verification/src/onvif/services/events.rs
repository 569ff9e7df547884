//! ONVIF Events service (PullPoint subscription model).
//!
//! Two endpoints serve events:
//!
//! * `events_service`: `GetServiceCapabilities`, `GetEventProperties`, and
//!   `CreatePullPointSubscription`, which returns a per-subscription URI under
//!   `subscription/{id}`.
//! * `subscription/{id}`: `PullMessages`, `Renew`, `Unsubscribe`.

use vstd::prelude::*;
use vstd::string::*;
use crate::onvif::events;
use crate::onvif::events::{EventsManager, Notification};
use crate::onvif::services::device;
use crate::onvif::services::device::FaultBody;
use crate::onvif::services::duration;
use crate::onvif::soap;
use crate::onvif::soap::FaultCode;
use crate::text;
use crate::time;
use crate::time::Timestamp;
use crate::xml;
use crate::xml::{XmlEvent, XmlItem};

verus! {

/// Extra XML namespace declarations needed for event payloads. `wsa` is not
/// among them: it is declared for every envelope, and twice would be malformed.
pub const NS_EVENT: &'static str = "xmlns:wsnt=\"http://docs.oasis-open.org/wsn/b-2\" xmlns:tev=\"http://www.onvif.org/ver10/events/wsdl\" xmlns:tns1=\"http://www.onvif.org/ver10/topics\"";

/// The namespaces of an answer of this service.
pub open spec fn event_namespaces() -> Seq<char> {
    soap::NS_ALL@ + " "@ + NS_EVENT@
}

/// The envelope of an answer of this service.
pub open spec fn event_envelope(body: Seq<char>) -> Seq<char> {
    soap::envelope(body, event_namespaces())
}

fn wrap(body: &str) -> (out: String)
    ensures
        out@ == event_envelope(body@),
{
    let mut namespaces = soap::NS_ALL.to_owned();
    namespaces.append(" ");
    namespaces.append(NS_EVENT);
    soap::wrap_envelope(body, namespaces.as_str())
}

/// A point in time as answers show it, to the millisecond.
pub open spec fn shown(t: Timestamp) -> Seq<char> {
    time::utc_text(t.secs as int, t.nanos as int, time::WITH_MILLIS@)
}

/// A point in time as answers show it, to the millisecond.
pub fn format_dt(t: Timestamp) -> (out: String)
    requires
        time::clock_time(t),
    ensures
        out@ == shown(t),
{
    time::format_utc(t, time::WITH_MILLIS)
}

/// The topics that are offered.
pub open spec fn event_properties() -> Seq<char> {
    "<tev:GetEventPropertiesResponse><tev:TopicNamespaceLocation>http://www.onvif.org/onvif/ver10/topics/topicns.xml</tev:TopicNamespaceLocation><wsnt:FixedTopicSet>true</wsnt:FixedTopicSet><wstop:TopicSet xmlns:wstop=\"http://docs.oasis-open.org/wsn/t-1\"><tns1:VideoSource wstop:topic=\"false\"><MotionAlarm wstop:topic=\"true\"><tt:MessageDescription IsProperty=\"true\"><tt:Source><tt:SimpleItemDescription Name=\"Source\" Type=\"tt:ReferenceToken\"/></tt:Source><tt:Data><tt:SimpleItemDescription Name=\"State\" Type=\"xsd:boolean\"/></tt:Data></tt:MessageDescription></MotionAlarm></tns1:VideoSource></wstop:TopicSet><wsnt:TopicExpressionDialect>http://www.onvif.org/ver10/tev/topicExpression/ConcreteSet</wsnt:TopicExpressionDialect><wsnt:TopicExpressionDialect>http://docs.oasis-open.org/wsn/t-1/TopicExpression/Concrete</wsnt:TopicExpressionDialect><tev:MessageContentFilterDialect>http://www.onvif.org/ver10/tev/messageContentFilter/ItemFilter</tev:MessageContentFilterDialect><tev:MessageContentSchemaLocation>http://www.onvif.org/onvif/ver10/schema/onvif.xsd</tev:MessageContentSchemaLocation></tev:GetEventPropertiesResponse>"@
}

/// The topics that are offered.
pub fn get_event_properties_xml() -> (xml: String)
    ensures
        xml@ == event_properties(),
{
    "<tev:GetEventPropertiesResponse><tev:TopicNamespaceLocation>http://www.onvif.org/onvif/ver10/topics/topicns.xml</tev:TopicNamespaceLocation><wsnt:FixedTopicSet>true</wsnt:FixedTopicSet><wstop:TopicSet xmlns:wstop=\"http://docs.oasis-open.org/wsn/t-1\"><tns1:VideoSource wstop:topic=\"false\"><MotionAlarm wstop:topic=\"true\"><tt:MessageDescription IsProperty=\"true\"><tt:Source><tt:SimpleItemDescription Name=\"Source\" Type=\"tt:ReferenceToken\"/></tt:Source><tt:Data><tt:SimpleItemDescription Name=\"State\" Type=\"xsd:boolean\"/></tt:Data></tt:MessageDescription></MotionAlarm></tns1:VideoSource></wstop:TopicSet><wsnt:TopicExpressionDialect>http://www.onvif.org/ver10/tev/topicExpression/ConcreteSet</wsnt:TopicExpressionDialect><wsnt:TopicExpressionDialect>http://docs.oasis-open.org/wsn/t-1/TopicExpression/Concrete</wsnt:TopicExpressionDialect><tev:MessageContentFilterDialect>http://www.onvif.org/ver10/tev/messageContentFilter/ItemFilter</tev:MessageContentFilterDialect><tev:MessageContentSchemaLocation>http://www.onvif.org/onvif/ver10/schema/onvif.xsd</tev:MessageContentSchemaLocation></tev:GetEventPropertiesResponse>".to_owned()
}

/// What the service can do.
pub open spec fn event_capabilities() -> Seq<char> {
    "<tev:GetServiceCapabilitiesResponse><tev:Capabilities WSSubscriptionPolicySupport=\"false\" WSPullPointSupport=\"true\" WSPausableSubscriptionManagerInterfaceSupport=\"false\" MaxNotificationProducers=\"0\" MaxPullPoints=\"32\" PersistentNotificationStorage=\"false\"/></tev:GetServiceCapabilitiesResponse>"@
}

/// What the service can do.
pub fn service_capabilities_xml() -> (xml: String)
    ensures
        xml@ == event_capabilities(),
{
    "<tev:GetServiceCapabilitiesResponse><tev:Capabilities WSSubscriptionPolicySupport=\"false\" WSPullPointSupport=\"true\" WSPausableSubscriptionManagerInterfaceSupport=\"false\" MaxNotificationProducers=\"0\" MaxPullPoints=\"32\" PersistentNotificationStorage=\"false\"/></tev:GetServiceCapabilitiesResponse>".to_owned()
}

/// The answer to `CreatePullPointSubscription`.
pub open spec fn pullpoint_response(endpoint: Seq<char>, created: Timestamp, termination: Timestamp) -> Seq<char> {
    "<tev:CreatePullPointSubscriptionResponse><tev:SubscriptionReference><wsa:Address>"@ + soap::escaped(endpoint) + "</wsa:Address></tev:SubscriptionReference><wsnt:CurrentTime>"@ + shown(created) + "</wsnt:CurrentTime><wsnt:TerminationTime>"@ + shown(termination) + "</wsnt:TerminationTime></tev:CreatePullPointSubscriptionResponse>"@
}

/// The answer to `CreatePullPointSubscription`.
pub fn create_pullpoint_subscription_response(endpoint: &str, created: Timestamp, termination: Timestamp) -> (out: String)
    requires
        time::clock_time(created),
        time::clock_time(termination),
    ensures
        out@ == pullpoint_response(endpoint@, created, termination),
{
    let mut out = "<tev:CreatePullPointSubscriptionResponse><tev:SubscriptionReference><wsa:Address>".to_owned();
    out.append(soap::xml_escape(endpoint).as_str());
    out.append("</wsa:Address></tev:SubscriptionReference><wsnt:CurrentTime>");
    out.append(format_dt(created).as_str());
    out.append("</wsnt:CurrentTime><wsnt:TerminationTime>");
    out.append(format_dt(termination).as_str());
    out.append("</wsnt:TerminationTime></tev:CreatePullPointSubscriptionResponse>");
    out
}

/// The answer to `Subscribe`.
pub open spec fn subscribed_response(endpoint: Seq<char>, created: Timestamp, termination: Timestamp) -> Seq<char> {
    "<wsnt:SubscribeResponse><wsnt:SubscriptionReference><wsa:Address>"@ + soap::escaped(endpoint) + "</wsa:Address></wsnt:SubscriptionReference><wsnt:CurrentTime>"@ + shown(created) + "</wsnt:CurrentTime><wsnt:TerminationTime>"@ + shown(termination) + "</wsnt:TerminationTime></wsnt:SubscribeResponse>"@
}

/// The answer to `Subscribe`.
pub fn subscribe_response(endpoint: &str, created: Timestamp, termination: Timestamp) -> (out: String)
    requires
        time::clock_time(created),
        time::clock_time(termination),
    ensures
        out@ == subscribed_response(endpoint@, created, termination),
{
    let mut out = "<wsnt:SubscribeResponse><wsnt:SubscriptionReference><wsa:Address>".to_owned();
    out.append(soap::xml_escape(endpoint).as_str());
    out.append("</wsa:Address></wsnt:SubscriptionReference><wsnt:CurrentTime>");
    out.append(format_dt(created).as_str());
    out.append("</wsnt:CurrentTime><wsnt:TerminationTime>");
    out.append(format_dt(termination).as_str());
    out.append("</wsnt:TerminationTime></wsnt:SubscribeResponse>");
    out
}

/// The answer to `Renew`.
pub open spec fn renew_response(now: Timestamp, new_term: Timestamp) -> Seq<char> {
    "<wsnt:RenewResponse><wsnt:TerminationTime>"@ + shown(new_term) + "</wsnt:TerminationTime><wsnt:CurrentTime>"@ + shown(now) + "</wsnt:CurrentTime></wsnt:RenewResponse>"@
}

/// The answer to `Renew`.
pub fn render_renew_response(now: Timestamp, new_term: Timestamp) -> (out: String)
    requires
        time::clock_time(now),
        time::clock_time(new_term),
    ensures
        out@ == renew_response(now, new_term),
{
    let mut out = "<wsnt:RenewResponse><wsnt:TerminationTime>".to_owned();
    out.append(format_dt(new_term).as_str());
    out.append("</wsnt:TerminationTime><wsnt:CurrentTime>");
    out.append(format_dt(now).as_str());
    out.append("</wsnt:CurrentTime></wsnt:RenewResponse>");
    out
}

/// Items of a notification.
pub open spec fn simple_items(items: Seq<(Seq<char>, Seq<char>)>) -> Seq<char>
    decreases items.len(),
{
    if items.len() == 0 {
        Seq::empty()
    } else {
        simple_items(items.drop_last()) + ("<tt:SimpleItem Name=\""@ + items.last().0 + "\" Value=\""@
            + soap::escaped(items.last().1) + "\"/>"@)
    }
}

fn render_items(items: &Vec<(&'static str, String)>) -> (out: String)
    ensures
        out@ == simple_items(events::items_view(items@)),
{
    let ghost all = events::items_view(items@);
    let mut out = String::new();
    let mut i: usize = 0;
    assert(all.take(0) =~= Seq::empty());
    assert(out@ =~= simple_items(all.take(0)));
    while i < items.len()
        invariant
            i <= items@.len(),
            all == events::items_view(items@),
            out@ == simple_items(all.take(i as int)),
        decreases items@.len() - i,
    {
        assert(all.take(i + 1).drop_last() =~= all.take(i as int));
        assert(all.take(i + 1).last() == (items@[i as int].0@, items@[i as int].1@));
        let entry = &items[i];
        let mut item = "<tt:SimpleItem Name=\"".to_owned();
        item.append(entry.0);
        item.append("\" Value=\"");
        item.append(soap::xml_escape(entry.1.as_str()).as_str());
        item.append("\"/>");
        out.append(item.as_str());
        i += 1;
    }
    assert(all.take(i as int) =~= all);
    out
}

/// A notification.
pub open spec fn notification_xml(n: events::NotificationView) -> Seq<char> {
    "<wsnt:NotificationMessage><wsnt:Topic Dialect=\"http://docs.oasis-open.org/wsn/t-1/TopicExpression/Concrete\">"@ + n.topic + "</wsnt:Topic><wsnt:Message><tt:Message UtcTime=\""@ + shown(n.utc_time) + "\" PropertyOperation=\""@ + n.property_op + "\"><tt:Source>"@ + simple_items(n.source) + "</tt:Source><tt:Data>"@ + simple_items(n.data) + "</tt:Data></tt:Message></wsnt:Message></wsnt:NotificationMessage>"@
}

/// A notification.
pub fn render_notification(n: &Notification) -> (out: String)
    requires
        time::clock_time(n.utc_time),
    ensures
        out@ == notification_xml(n@),
{
    let mut out = "<wsnt:NotificationMessage><wsnt:Topic Dialect=\"http://docs.oasis-open.org/wsn/t-1/TopicExpression/Concrete\">".to_owned();
    out.append(n.topic);
    out.append("</wsnt:Topic><wsnt:Message><tt:Message UtcTime=\"");
    out.append(format_dt(n.utc_time).as_str());
    out.append("\" PropertyOperation=\"");
    out.append(n.property_op);
    out.append("\"><tt:Source>");
    out.append(render_items(&n.source).as_str());
    out.append("</tt:Source><tt:Data>");
    out.append(render_items(&n.data).as_str());
    out.append("</tt:Data></tt:Message></wsnt:Message></wsnt:NotificationMessage>");
    out
}

/// Notifications, one after the other.
pub open spec fn notifications_xml(list: Seq<events::NotificationView>) -> Seq<char>
    decreases list.len(),
{
    if list.len() == 0 {
        Seq::empty()
    } else {
        notifications_xml(list.drop_last()) + notification_xml(list.last())
    }
}

/// The answer to `PullMessages`.
pub open spec fn pull_response(
    now: Timestamp,
    term: Timestamp,
    list: Seq<events::NotificationView>,
) -> Seq<char> {
    "<tev:PullMessagesResponse><tev:CurrentTime>"@ + shown(now)
        + "</tev:CurrentTime><tev:TerminationTime>"@ + shown(term) + "</tev:TerminationTime>"@
        + notifications_xml(list) + "</tev:PullMessagesResponse>"@
}

/// Whether every notification carries a time that can be shown.
pub open spec fn showable(msgs: Seq<Notification>) -> bool {
    forall|i: int| 0 <= i < msgs.len() ==> time::clock_time((#[trigger] msgs[i]).utc_time)
}

/// The answer to `PullMessages`.
pub fn render_pull_messages_response(now: Timestamp, term: Timestamp, msgs: &Vec<Notification>) -> (out:
    String)
    requires
        time::clock_time(now),
        time::clock_time(term),
        showable(msgs@),
    ensures
        out@ == pull_response(now, term, events::notifications_view(msgs@)),
{
    let ghost all = events::notifications_view(msgs@);
    let mut items = String::new();
    let mut i: usize = 0;
    assert(all.take(0) =~= Seq::empty());
    assert(items@ =~= notifications_xml(all.take(0)));
    while i < msgs.len()
        invariant
            i <= msgs@.len(),
            showable(msgs@),
            all == events::notifications_view(msgs@),
            items@ == notifications_xml(all.take(i as int)),
        decreases msgs@.len() - i,
    {
        assert(all.take(i + 1).drop_last() =~= all.take(i as int));
        assert(all.take(i + 1).last() == msgs@[i as int]@);
        items.append(render_notification(&msgs[i]).as_str());
        i += 1;
    }
    assert(all.take(i as int) =~= all);
    let mut out = "<tev:PullMessagesResponse><tev:CurrentTime>".to_owned();
    out.append(format_dt(now).as_str());
    out.append("</tev:CurrentTime><tev:TerminationTime>");
    out.append(format_dt(term).as_str());
    out.append("</tev:TerminationTime>");
    out.append(items.as_str());
    out.append("</tev:PullMessagesResponse>");
    out
}

/// The envelope of the answer to `PullMessages`.
pub fn pull_messages_reply(now: Timestamp, term: Timestamp, msgs: &Vec<Notification>) -> (out: String)
    requires
        time::clock_time(now),
        time::clock_time(term),
        showable(msgs@),
    ensures
        out@ == event_envelope(pull_response(now, term, events::notifications_view(msgs@))),
{
    wrap(render_pull_messages_response(now, term, msgs).as_str())
}

/// The seconds granted by a value that a request may hold.
pub open spec fn granted_by(value: Option<Seq<char>>, now: Timestamp) -> Option<int> {
    match value {
        Some(raw) => duration::termination(raw, now),
        None => None,
    }
}

/// How long a new subscription is asked for.
pub fn parse_initial_termination(body_xml: &str, now: Timestamp) -> (ttl: Option<u64>)
    requires
        time::clock_time(now),
    ensures
        seconds_view(ttl) == granted_by(
            xml::first_text(body_xml@, "InitialTerminationTime"@),
            now,
        ),
{
    match xml::read_first_text_element(body_xml, "InitialTerminationTime") {
        Some(raw) => duration::parse_termination_string(raw.as_str(), now),
        None => None,
    }
}

/// How long a subscription is to be renewed for.
pub fn parse_termination_time(body_xml: &str, now: Timestamp) -> (ttl: Option<u64>)
    requires
        time::clock_time(now),
    ensures
        seconds_view(ttl) == granted_by(xml::first_text(body_xml@, "TerminationTime"@), now),
{
    match xml::read_first_text_element(body_xml, "TerminationTime") {
        Some(raw) => duration::parse_termination_string(raw.as_str(), now),
        None => None,
    }
}

/// Seconds as a number.
pub open spec fn seconds_view(secs: Option<u64>) -> Option<int> {
    match secs {
        Some(n) => Some(n as int),
        None => None,
    }
}

/// How long `PullMessages` may wait, in milliseconds: a second if it does not
/// say, and never more than a minute.
pub open spec fn pull_timeout(value: Option<Seq<char>>) -> int {
    match value {
        Some(raw) => match duration::duration(raw) {
            Some(secs) => if secs * 1_000 < events::MAX_PULL_TIMEOUT {
                secs * 1_000int
            } else {
                events::MAX_PULL_TIMEOUT as int
            },
            None => 1_000,
        },
        None => 1_000,
    }
}

/// How many messages `PullMessages` asks for.
pub open spec fn pull_limit(value: Option<Seq<char>>) -> int {
    match value {
        Some(raw) => match text::number(text::trimmed(raw), usize::MAX as nat) {
            Some(n) => if n < 1 {
                1
            } else if n > 1_024 {
                1_024
            } else {
                n as int
            },
            None => 16,
        },
        None => 16,
    }
}

/// Read the `Timeout`, in milliseconds, and the `MessageLimit` that a
/// `PullMessages` request carries.
pub fn pull_asked(timeout: Option<String>, limit: Option<String>) -> (asked: (u64, usize))
    ensures
        asked.0 == pull_timeout(text::opt_view(timeout)),
        asked.1 == pull_limit(text::opt_view(limit)),
        asked.0 <= events::MAX_PULL_TIMEOUT,
        1 <= asked.1 <= 1_024,
{
    let wanted: Option<u64> = match timeout {
        Some(raw) => duration::parse_xs_duration(raw.as_str()),
        None => None,
    };
    let timeout: u64 = match wanted {
        Some(secs) => if secs < 60 {
            secs * 1_000
        } else {
            events::MAX_PULL_TIMEOUT
        },
        None => 1_000,
    };
    let limit: usize = match limit {
        Some(raw) => {
            match text::parse_number(text::trim(raw.as_str()).as_str(), usize::MAX as u64) {
                Some(n) => if n < 1 {
                    1
                } else if n > 1_024 {
                    1_024
                } else {
                    n as usize
                },
                None => 16,
            }
        },
        None => 16,
    };
    (timeout, limit)
}

/// Pull out `Timeout`, in milliseconds, and `MessageLimit` from a `PullMessages`
/// body.
pub fn parse_pull_messages(body_xml: &str) -> (asked: (u64, usize))
    ensures
        asked.0 == pull_timeout(xml::first_text(body_xml@, "Timeout"@)),
        asked.1 == pull_limit(xml::first_text(body_xml@, "MessageLimit"@)),
        asked.0 <= events::MAX_PULL_TIMEOUT,
        1 <= asked.1 <= 1_024,
{
    pull_asked(
        xml::read_first_text_element(body_xml, "Timeout"),
        xml::read_first_text_element(body_xml, "MessageLimit"),
    )
}

/// The local part of an action.
pub fn local_action_only(action: &str) -> (local: String)
    ensures
        local@ == xml::without_prefix(action@),
{
    proof {
        vstd::utf8::encode_utf8_decode_utf8(action@);
        vstd::utf8::encode_utf8_valid_utf8(action@);
    }
    xml::local_name(action.as_bytes())
}

/// The first text inside an `Action` element of a `Header` element, among
/// events. The flags say which of them reading is inside of.
pub open spec fn action_from(items: Seq<xml::XmlItemView>, in_header: bool, in_action: bool) -> Option<
    Seq<char>,
>
    decreases items.len(),
{
    if items.len() == 0 {
        None
    } else {
        let rest = items.drop_first();
        match items[0].event {
            xml::XmlView::Eof | xml::XmlView::Bad(_) => None,
            xml::XmlView::Start(content, name_len) => {
                let local = xml::local_part(xml::tag_name(content, name_len));
                let header = in_header || local == "Header"@;
                action_from(rest, header, in_action || (header && local == "Action"@))
            },
            xml::XmlView::End(name) => {
                let local = xml::local_part(name);
                action_from(
                    rest,
                    in_header && local != "Header"@,
                    in_action && local != "Action"@,
                )
            },
            xml::XmlView::Text(t) => if in_action {
                Some(xml::text_of_event(t))
            } else {
                action_from(rest, in_header, in_action)
            },
            _ => action_from(rest, in_header, in_action),
        }
    }
}

/// The text of the `Action` element in the header of a document.
pub fn find_action(items: &Vec<XmlItem>) -> (found: Option<String>)
    requires
        forall|i: int| 0 <= i < items@.len() ==> xml::name_fits((#[trigger] items@[i])@),
    ensures
        text::opt_view(found) == action_from(xml::items_view(items@), false, false),
{
    let ghost all = xml::items_view(items@);
    let mut in_header: bool = false;
    let mut in_action: bool = false;
    let mut i: usize = 0;
    assert(all.skip(0) =~= all);
    while i < items.len()
        invariant
            i <= items@.len(),
            all == xml::items_view(items@),
            forall|j: int| 0 <= j < items@.len() ==> xml::name_fits((#[trigger] items@[j])@),
            action_from(all, false, false) == action_from(
                all.skip(i as int),
                in_header,
                in_action,
            ),
        decreases items@.len() - i,
    {
        assert(all.skip(i as int).first() == items@[i as int]@);
        assert(all.skip(i as int).drop_first() =~= all.skip(i + 1));
        match &items[i].event {
            XmlEvent::Eof => {
                return None;
            },
            XmlEvent::Bad(_) => {
                return None;
            },
            XmlEvent::Start(tag) => {
                let local = xml::tag_local_name(tag);
                if text::same(local.as_str(), "Header") {
                    in_header = true;
                }
                if in_header && text::same(local.as_str(), "Action") {
                    in_action = true;
                }
            },
            XmlEvent::End(name) => {
                let local = xml::local_name(name.as_slice());
                if text::same(local.as_str(), "Action") {
                    in_action = false;
                }
                if text::same(local.as_str(), "Header") {
                    in_header = false;
                }
            },
            XmlEvent::Text(t) => {
                if in_action {
                    return Some(xml::event_text(t));
                }
            },
            _ => {},
        }
        i += 1;
    }
    None
}

/// Extract the SOAP `wsa:Action` header from an incoming envelope, if any.
pub fn read_wsa_action(envelope: &str) -> (action: Option<String>)
    ensures
        text::opt_view(action) == action_from(xml::xml_events(envelope@), false, false),
{
    let items = xml::read_events(envelope);
    find_action(&items)
}

/// Where a subscription is polled.
pub open spec fn subscription_address(
    authority: Seq<char>,
    cam_name: Seq<char>,
    id: Seq<char>,
) -> Seq<char> {
    "http://"@ + authority + "/onvif/"@ + cam_name + "/subscription/"@ + id
}

fn subscription_endpoint(authority: &str, cam_name: &str, id: &str) -> (out: String)
    ensures
        out@ == subscription_address(authority@, cam_name@, id@),
{
    let mut out = "http://".to_owned();
    out.append(authority);
    out.append("/onvif/");
    out.append(cam_name);
    out.append("/subscription/");
    out.append(id);
    out
}

/// What a client is told that asks for a subscription: where to poll it, or why
/// it was not granted. The address is only looked for once it was.
pub open spec fn subscription_reply(
    m: EventsManager,
    pull_point: bool,
    ttl: Option<u64>,
    id: Seq<char>,
    authority: Result<Seq<char>, Seq<char>>,
    now: Timestamp,
) -> Result<Seq<char>, device::FaultView> {
    if events::is_full(m, now) {
        Err(device::fault(FaultCode::Other, events::too_many_text(m.cam_name@)))
    } else {
        match authority {
            Err(e) => Err(
                device::fault(FaultCode::Other, "Failed to determine advertise host: "@ + e),
            ),
            Ok(host) => {
                let address = subscription_address(host, m.cam_name@, id);
                let end = events::granted_end(ttl, now);
                Ok(
                    event_envelope(
                        if pull_point {
                            pullpoint_response(address, now, end)
                        } else {
                            subscribed_response(address, now, end)
                        },
                    ),
                )
            },
        }
    }
}

/// What the outside knows of an address, as sequences.
pub open spec fn lookup_view(found: Result<&str, &str>) -> Result<Seq<char>, Seq<char>> {
    match found {
        Ok(text) => Ok(text@),
        Err(text) => Err(text@),
    }
}

/// Whether a request asks for a subscription. The WS-BaseNotification
/// `Subscribe` verb is treated like `CreatePullPointSubscription`.
pub open spec fn asks_subscription(action: Seq<char>) -> bool {
    action == "CreatePullPointSubscription"@ || action == "Subscribe"@
}

/// Handle a request to the per-camera `events_service` endpoint. `id` is a fresh
/// id for a subscription, and `authority` where this bridge is reached, or why
/// that is not known.
pub fn dispatch(
    m: &mut EventsManager,
    action: &str,
    body_xml: &str,
    id: String,
    authority: Result<&str, &str>,
    now: Timestamp,
) -> (reply: Result<String, FaultBody>)
    requires
        old(m).wf(),
        events::grants(now),
    ensures
        final(m).wf(),
        if asks_subscription(action@) {
            exists|ttl: Option<u64>|
                {
                    &&& seconds_view(ttl) == granted_by(
                        xml::first_text(body_xml@, "InitialTerminationTime"@),
                        now,
                    )
                    &&& #[trigger] events::subscribed(*old(m), *final(m), ttl, id@, now)
                    &&& device::reply_view(reply) == subscription_reply(
                        *old(m),
                        action@ == "CreatePullPointSubscription"@,
                        ttl,
                        id@,
                        lookup_view(authority),
                        now,
                    )
                }
        } else {
            &&& *final(m) == *old(m)
            &&& device::reply_view(reply) == (if action@ == "GetServiceCapabilities"@ {
                Ok(event_envelope(event_capabilities()))
            } else if action@ == "GetEventProperties"@ {
                Ok(event_envelope(event_properties()))
            } else {
                Err(
                    device::fault(
                        FaultCode::ActionNotSupported,
                        "Events action '"@ + action@ + "' not supported"@,
                    ),
                )
            })
        },
{
    if text::same(action, "GetServiceCapabilities") {
        proof {
            reveal_strlit("GetServiceCapabilities");
            reveal_strlit("CreatePullPointSubscription");
            reveal_strlit("Subscribe");
        }
        return Ok(wrap(service_capabilities_xml().as_str()));
    }
    if text::same(action, "GetEventProperties") {
        proof {
            reveal_strlit("GetEventProperties");
            reveal_strlit("CreatePullPointSubscription");
            reveal_strlit("Subscribe");
        }
        return Ok(wrap(get_event_properties_xml().as_str()));
    }
    let pull_point: bool = text::same(action, "CreatePullPointSubscription");
    if !pull_point && !text::same(action, "Subscribe") {
        return Err(
            device::quoting_fault(
                FaultCode::ActionNotSupported,
                "Events action '",
                action,
                "' not supported",
            ),
        );
    }
    let ttl = parse_initial_termination(body_xml, now);
    let shown_id = id.clone();
    let created = m.create_subscription(ttl, id, now);
    let granted = match created {
        Ok(granted) => granted,
        Err(_) => {
            return Err(
                device::other_fault(events::too_many_subscriptions(m.cam_name.as_str())),
            );
        },
    };
    match authority {
        Err(e) => {
            let mut reason = "Failed to determine advertise host: ".to_owned();
            reason.append(e);
            Err(device::other_fault(reason))
        },
        Ok(host) => {
            let endpoint = subscription_endpoint(host, m.cam_name.as_str(), shown_id.as_str());
            let body = if pull_point {
                create_pullpoint_subscription_response(
                    endpoint.as_str(),
                    granted.created_at,
                    granted.terminates_at,
                )
            } else {
                subscribe_response(endpoint.as_str(), granted.created_at, granted.terminates_at)
            };
            Ok(wrap(body.as_str()))
        },
    }
}

/// What a request to a subscription comes to.
#[derive(Debug)]
pub enum SubscriptionStep {
    /// Send this.
    Reply(String),
    /// Pull messages: at most so many, waiting so many milliseconds.
    Pull { limit: usize, timeout: u64 },
}

/// For how many seconds a subscription is renewed.
pub open spec fn renewed_for(granted: Option<int>) -> int {
    match granted {
        Some(secs) => secs,
        None => 60,
    }
}

/// Handle a request to a per-subscription endpoint (`subscription/{id}`).
pub fn dispatch_subscription(
    m: &mut EventsManager,
    sub_id: &str,
    action: &str,
    body_xml: &str,
    now: Timestamp,
) -> (result: Result<SubscriptionStep, FaultBody>)
    requires
        old(m).wf(),
        events::grants(now),
    ensures
        final(m).wf(),
        events::same_but_subs(*final(m), *old(m)),
        ({
            let subs = events::subs_view(old(m).subs@);
            let after = events::subs_view(final(m).subs@);
            let at = text::place(events::ids_of(subs), sub_id@);
            if at >= subs.len() {
                &&& after == subs
                &&& result matches Err(f) && f@ == device::fault(
                    FaultCode::Other,
                    "Unknown subscription '"@ + sub_id@ + "'"@,
                )
            } else if time::before(subs[at].terminates_at, now) {
                &&& after == events::without(subs, sub_id@)
                &&& result matches Err(f) && f@ == device::fault(
                    FaultCode::Other,
                    "Subscription has expired"@,
                )
            } else if action@ == "PullMessages"@ {
                &&& after == subs
                &&& result matches Ok(SubscriptionStep::Pull { limit, timeout }) && limit
                    == pull_limit(xml::first_text(body_xml@, "MessageLimit"@)) && timeout
                    == pull_timeout(xml::first_text(body_xml@, "Timeout"@))
            } else if action@ == "Renew"@ {
                exists|ttl: u64|
                    {
                        &&& ttl == renewed_for(
                            granted_by(xml::first_text(body_xml@, "TerminationTime"@), now),
                        )
                        &&& after == subs.update(
                            at,
                            events::SubscriptionView {
                                terminates_at: #[trigger] events::end_of(ttl, now),
                                ..subs[at]
                            },
                        )
                        &&& result matches Ok(SubscriptionStep::Reply(xml)) && xml@
                            == event_envelope(renew_response(now, events::end_of(ttl, now)))
                    }
            } else if action@ == "Unsubscribe"@ {
                &&& after == events::without(subs, sub_id@)
                &&& result matches Ok(SubscriptionStep::Reply(xml)) && xml@ == event_envelope(
                    "<wsnt:UnsubscribeResponse/>"@,
                )
            } else if action@ == "SetSynchronizationPoint"@ {
                &&& after == subs.update(
                    at,
                    events::SubscriptionView {
                        pending: events::queued_all(
                            subs[at].pending,
                            events::current_messages(*old(m), now),
                        ),
                        ..subs[at]
                    },
                )
                &&& result matches Ok(SubscriptionStep::Reply(xml)) && xml@ == event_envelope(
                    "<tev:SetSynchronizationPointResponse/>"@,
                )
            } else {
                &&& after == subs
                &&& result matches Err(f) && f@ == device::fault(
                    FaultCode::ActionNotSupported,
                    "Subscription action '"@ + action@ + "' not supported"@,
                )
            }
        }),
{
    let ghost subs = events::subs_view(m.subs@);
    let at: usize = m.position(sub_id);
    if at >= m.subs.len() {
        return Err(
            device::quoting_fault(FaultCode::Other, "Unknown subscription '", sub_id, "'"),
        );
    }
    if time::is_before(m.subs[at].terminates_at, now) {
        m.remove(sub_id);
        return Err(device::other_fault("Subscription has expired".to_owned()));
    }
    if text::same(action, "PullMessages") {
        let (timeout, limit) = parse_pull_messages(body_xml);
        return Ok(SubscriptionStep::Pull { limit, timeout });
    }
    if text::same(action, "Renew") {
        proof {
            reveal_strlit("PullMessages");
            reveal_strlit("Renew");
        }
        let ttl: u64 = match parse_termination_time(body_xml, now) {
            Some(secs) => secs,
            None => 60,
        };
        let end = m.subs[at].renew(ttl, now);
        assert(events::subs_view(m.subs@) =~= subs.update(
            at as int,
            events::SubscriptionView { terminates_at: events::end_of(ttl, now), ..subs[at as int] },
        ));
        let body = render_renew_response(now, end);
        return Ok(SubscriptionStep::Reply(wrap(body.as_str())));
    }
    if text::same(action, "Unsubscribe") {
        m.remove(sub_id);
        return Ok(SubscriptionStep::Reply(wrap("<wsnt:UnsubscribeResponse/>")));
    }
    if text::same(action, "SetSynchronizationPoint") {
        m.resync(at, now);
        return Ok(SubscriptionStep::Reply(wrap("<tev:SetSynchronizationPointResponse/>")));
    }
    Err(
        device::quoting_fault(
            FaultCode::ActionNotSupported,
            "Subscription action '",
            action,
            "' not supported",
        ),
    )
}

/// An answer that grants a pull point gives its address, the time it is now and the
/// time it ends, each in the element of that name.
pub proof fn law_pull_points_are_told_their_end(
    endpoint: Seq<char>,
    created: Timestamp,
    termination: Timestamp,
)
    ensures
        text::has(pullpoint_response(endpoint, created, termination), "<wsa:Address>"@ + soap::escaped(endpoint) + "</wsa:Address>"@),
        text::has(pullpoint_response(endpoint, created, termination), "<wsnt:CurrentTime>"@ + shown(created) + "</wsnt:CurrentTime>"@),
        text::has(pullpoint_response(endpoint, created, termination), "<wsnt:TerminationTime>"@ + shown(termination) + "</wsnt:TerminationTime>"@),
{
    {
        reveal_strlit("<tev:CreatePullPointSubscriptionResponse><tev:SubscriptionReference><wsa:Address>");
        reveal_strlit("</wsa:Address>");
        reveal_strlit("</wsa:Address></tev:SubscriptionReference><wsnt:CurrentTime>");
        reveal_strlit("<wsa:Address>");
        assert("<tev:CreatePullPointSubscriptionResponse><tev:SubscriptionReference><wsa:Address>"@.skip(68) =~= "<wsa:Address>"@);
        assert("</wsa:Address></tev:SubscriptionReference><wsnt:CurrentTime>"@.take(14) =~= "</wsa:Address>"@);
        let head = Seq::<char>::empty();
        let tail = shown(created) + "</wsnt:CurrentTime><wsnt:TerminationTime>"@ + shown(termination) + "</wsnt:TerminationTime></tev:CreatePullPointSubscriptionResponse>"@;
        let value = soap::escaped(endpoint);
        assert(pullpoint_response(endpoint, created, termination) =~= head + "<tev:CreatePullPointSubscriptionResponse><tev:SubscriptionReference><wsa:Address>"@ + value + "</wsa:Address></tev:SubscriptionReference><wsnt:CurrentTime>"@ + tail);
        text::lemma_has_tagged(head, "<tev:CreatePullPointSubscriptionResponse><tev:SubscriptionReference><wsa:Address>"@, value, "</wsa:Address></tev:SubscriptionReference><wsnt:CurrentTime>"@, tail, "<wsa:Address>"@, "</wsa:Address>"@);
    }
    {
        reveal_strlit("</wsnt:CurrentTime><wsnt:TerminationTime>");
        reveal_strlit("</wsnt:CurrentTime>");
        reveal_strlit("</wsa:Address></tev:SubscriptionReference><wsnt:CurrentTime>");
        reveal_strlit("<wsnt:CurrentTime>");
        assert("</wsa:Address></tev:SubscriptionReference><wsnt:CurrentTime>"@.skip(42) =~= "<wsnt:CurrentTime>"@);
        assert("</wsnt:CurrentTime><wsnt:TerminationTime>"@.take(19) =~= "</wsnt:CurrentTime>"@);
        let head = "<tev:CreatePullPointSubscriptionResponse><tev:SubscriptionReference><wsa:Address>"@ + soap::escaped(endpoint);
        let tail = shown(termination) + "</wsnt:TerminationTime></tev:CreatePullPointSubscriptionResponse>"@;
        let value = shown(created);
        assert(pullpoint_response(endpoint, created, termination) =~= head + "</wsa:Address></tev:SubscriptionReference><wsnt:CurrentTime>"@ + value + "</wsnt:CurrentTime><wsnt:TerminationTime>"@ + tail);
        text::lemma_has_tagged(head, "</wsa:Address></tev:SubscriptionReference><wsnt:CurrentTime>"@, value, "</wsnt:CurrentTime><wsnt:TerminationTime>"@, tail, "<wsnt:CurrentTime>"@, "</wsnt:CurrentTime>"@);
    }
    {
        reveal_strlit("</wsnt:CurrentTime><wsnt:TerminationTime>");
        reveal_strlit("</wsnt:TerminationTime>");
        reveal_strlit("<wsnt:TerminationTime>");
        reveal_strlit("</wsnt:TerminationTime></tev:CreatePullPointSubscriptionResponse>");
        assert("</wsnt:CurrentTime><wsnt:TerminationTime>"@.skip(19) =~= "<wsnt:TerminationTime>"@);
        assert("</wsnt:TerminationTime></tev:CreatePullPointSubscriptionResponse>"@.take(23) =~= "</wsnt:TerminationTime>"@);
        let head = "<tev:CreatePullPointSubscriptionResponse><tev:SubscriptionReference><wsa:Address>"@ + soap::escaped(endpoint) + "</wsa:Address></tev:SubscriptionReference><wsnt:CurrentTime>"@ + shown(created);
        let tail = Seq::<char>::empty();
        let value = shown(termination);
        assert(pullpoint_response(endpoint, created, termination) =~= head + "</wsnt:CurrentTime><wsnt:TerminationTime>"@ + value + "</wsnt:TerminationTime></tev:CreatePullPointSubscriptionResponse>"@ + tail);
        text::lemma_has_tagged(head, "</wsnt:CurrentTime><wsnt:TerminationTime>"@, value, "</wsnt:TerminationTime></tev:CreatePullPointSubscriptionResponse>"@, tail, "<wsnt:TerminationTime>"@, "</wsnt:TerminationTime>"@);
    }
}

/// An answer that grants a subscription gives its address, the time it is now and
/// the time it ends, each in the element of that name.
pub proof fn law_subscribers_are_told_their_end(
    endpoint: Seq<char>,
    created: Timestamp,
    termination: Timestamp,
)
    ensures
        text::has(subscribed_response(endpoint, created, termination), "<wsa:Address>"@ + soap::escaped(endpoint) + "</wsa:Address>"@),
        text::has(subscribed_response(endpoint, created, termination), "<wsnt:CurrentTime>"@ + shown(created) + "</wsnt:CurrentTime>"@),
        text::has(subscribed_response(endpoint, created, termination), "<wsnt:TerminationTime>"@ + shown(termination) + "</wsnt:TerminationTime>"@),
{
    {
        reveal_strlit("<wsnt:SubscribeResponse><wsnt:SubscriptionReference><wsa:Address>");
        reveal_strlit("</wsa:Address>");
        reveal_strlit("</wsa:Address></wsnt:SubscriptionReference><wsnt:CurrentTime>");
        reveal_strlit("<wsa:Address>");
        assert("<wsnt:SubscribeResponse><wsnt:SubscriptionReference><wsa:Address>"@.skip(52) =~= "<wsa:Address>"@);
        assert("</wsa:Address></wsnt:SubscriptionReference><wsnt:CurrentTime>"@.take(14) =~= "</wsa:Address>"@);
        let head = Seq::<char>::empty();
        let tail = shown(created) + "</wsnt:CurrentTime><wsnt:TerminationTime>"@ + shown(termination) + "</wsnt:TerminationTime></wsnt:SubscribeResponse>"@;
        let value = soap::escaped(endpoint);
        assert(subscribed_response(endpoint, created, termination) =~= head + "<wsnt:SubscribeResponse><wsnt:SubscriptionReference><wsa:Address>"@ + value + "</wsa:Address></wsnt:SubscriptionReference><wsnt:CurrentTime>"@ + tail);
        text::lemma_has_tagged(head, "<wsnt:SubscribeResponse><wsnt:SubscriptionReference><wsa:Address>"@, value, "</wsa:Address></wsnt:SubscriptionReference><wsnt:CurrentTime>"@, tail, "<wsa:Address>"@, "</wsa:Address>"@);
    }
    {
        reveal_strlit("</wsnt:CurrentTime><wsnt:TerminationTime>");
        reveal_strlit("</wsnt:CurrentTime>");
        reveal_strlit("</wsa:Address></wsnt:SubscriptionReference><wsnt:CurrentTime>");
        reveal_strlit("<wsnt:CurrentTime>");
        assert("</wsa:Address></wsnt:SubscriptionReference><wsnt:CurrentTime>"@.skip(43) =~= "<wsnt:CurrentTime>"@);
        assert("</wsnt:CurrentTime><wsnt:TerminationTime>"@.take(19) =~= "</wsnt:CurrentTime>"@);
        let head = "<wsnt:SubscribeResponse><wsnt:SubscriptionReference><wsa:Address>"@ + soap::escaped(endpoint);
        let tail = shown(termination) + "</wsnt:TerminationTime></wsnt:SubscribeResponse>"@;
        let value = shown(created);
        assert(subscribed_response(endpoint, created, termination) =~= head + "</wsa:Address></wsnt:SubscriptionReference><wsnt:CurrentTime>"@ + value + "</wsnt:CurrentTime><wsnt:TerminationTime>"@ + tail);
        text::lemma_has_tagged(head, "</wsa:Address></wsnt:SubscriptionReference><wsnt:CurrentTime>"@, value, "</wsnt:CurrentTime><wsnt:TerminationTime>"@, tail, "<wsnt:CurrentTime>"@, "</wsnt:CurrentTime>"@);
    }
    {
        reveal_strlit("</wsnt:CurrentTime><wsnt:TerminationTime>");
        reveal_strlit("</wsnt:TerminationTime>");
        reveal_strlit("<wsnt:TerminationTime>");
        reveal_strlit("</wsnt:TerminationTime></wsnt:SubscribeResponse>");
        assert("</wsnt:CurrentTime><wsnt:TerminationTime>"@.skip(19) =~= "<wsnt:TerminationTime>"@);
        assert("</wsnt:TerminationTime></wsnt:SubscribeResponse>"@.take(23) =~= "</wsnt:TerminationTime>"@);
        let head = "<wsnt:SubscribeResponse><wsnt:SubscriptionReference><wsa:Address>"@ + soap::escaped(endpoint) + "</wsa:Address></wsnt:SubscriptionReference><wsnt:CurrentTime>"@ + shown(created);
        let tail = Seq::<char>::empty();
        let value = shown(termination);
        assert(subscribed_response(endpoint, created, termination) =~= head + "</wsnt:CurrentTime><wsnt:TerminationTime>"@ + value + "</wsnt:TerminationTime></wsnt:SubscribeResponse>"@ + tail);
        text::lemma_has_tagged(head, "</wsnt:CurrentTime><wsnt:TerminationTime>"@, value, "</wsnt:TerminationTime></wsnt:SubscribeResponse>"@, tail, "<wsnt:TerminationTime>"@, "</wsnt:TerminationTime>"@);
    }
}

/// An answer to a renewal gives the time it is now and the new end, each in the
/// element of that name.
pub proof fn law_renewals_are_told_their_end(created: Timestamp, termination: Timestamp)
    ensures
        text::has(renew_response(created, termination), "<wsnt:TerminationTime>"@ + shown(termination) + "</wsnt:TerminationTime>"@),
        text::has(renew_response(created, termination), "<wsnt:CurrentTime>"@ + shown(created) + "</wsnt:CurrentTime>"@),
{
    {
        reveal_strlit("</wsnt:TerminationTime>");
        reveal_strlit("<wsnt:TerminationTime>");
        reveal_strlit("<wsnt:RenewResponse><wsnt:TerminationTime>");
        reveal_strlit("</wsnt:TerminationTime><wsnt:CurrentTime>");
        assert("<wsnt:RenewResponse><wsnt:TerminationTime>"@.skip(20) =~= "<wsnt:TerminationTime>"@);
        assert("</wsnt:TerminationTime><wsnt:CurrentTime>"@.take(23) =~= "</wsnt:TerminationTime>"@);
        let head = Seq::<char>::empty();
        let tail = shown(created) + "</wsnt:CurrentTime></wsnt:RenewResponse>"@;
        let value = shown(termination);
        assert(renew_response(created, termination) =~= head + "<wsnt:RenewResponse><wsnt:TerminationTime>"@ + value + "</wsnt:TerminationTime><wsnt:CurrentTime>"@ + tail);
        text::lemma_has_tagged(head, "<wsnt:RenewResponse><wsnt:TerminationTime>"@, value, "</wsnt:TerminationTime><wsnt:CurrentTime>"@, tail, "<wsnt:TerminationTime>"@, "</wsnt:TerminationTime>"@);
    }
    {
        reveal_strlit("<wsnt:CurrentTime>");
        reveal_strlit("</wsnt:CurrentTime></wsnt:RenewResponse>");
        reveal_strlit("</wsnt:CurrentTime>");
        reveal_strlit("</wsnt:TerminationTime><wsnt:CurrentTime>");
        assert("</wsnt:TerminationTime><wsnt:CurrentTime>"@.skip(23) =~= "<wsnt:CurrentTime>"@);
        assert("</wsnt:CurrentTime></wsnt:RenewResponse>"@.take(19) =~= "</wsnt:CurrentTime>"@);
        let head = "<wsnt:RenewResponse><wsnt:TerminationTime>"@ + shown(termination);
        let tail = Seq::<char>::empty();
        let value = shown(created);
        assert(renew_response(created, termination) =~= head + "</wsnt:TerminationTime><wsnt:CurrentTime>"@ + value + "</wsnt:CurrentTime></wsnt:RenewResponse>"@ + tail);
        text::lemma_has_tagged(head, "</wsnt:TerminationTime><wsnt:CurrentTime>"@, value, "</wsnt:CurrentTime></wsnt:RenewResponse>"@, tail, "<wsnt:CurrentTime>"@, "</wsnt:CurrentTime>"@);
    }
}

/// An answer to a pull gives the time, the end of the subscription and the messages.
pub proof fn law_pulled_messages_are_told(
    now: Timestamp,
    term: Timestamp,
    list: Seq<events::NotificationView>,
)
    ensures
        text::has(pull_response(now, term, list), "<tev:CurrentTime>"@ + shown(now) + "</tev:CurrentTime>"@),
        text::has(pull_response(now, term, list), "<tev:TerminationTime>"@ + shown(term) + "</tev:TerminationTime>"@),
        text::has(pull_response(now, term, list), "</tev:TerminationTime>"@ + notifications_xml(list) + "</tev:PullMessagesResponse>"@),
{
    {
        reveal_strlit("</tev:CurrentTime><tev:TerminationTime>");
        reveal_strlit("<tev:CurrentTime>");
        reveal_strlit("<tev:PullMessagesResponse><tev:CurrentTime>");
        reveal_strlit("</tev:CurrentTime>");
        assert("<tev:PullMessagesResponse><tev:CurrentTime>"@.skip(26) =~= "<tev:CurrentTime>"@);
        assert("</tev:CurrentTime><tev:TerminationTime>"@.take(18) =~= "</tev:CurrentTime>"@);
        let head = Seq::<char>::empty();
        let tail = shown(term) + "</tev:TerminationTime>"@ + notifications_xml(list) + "</tev:PullMessagesResponse>"@;
        let value = shown(now);
        assert(pull_response(now, term, list) =~= head + "<tev:PullMessagesResponse><tev:CurrentTime>"@ + value + "</tev:CurrentTime><tev:TerminationTime>"@ + tail);
        text::lemma_has_tagged(head, "<tev:PullMessagesResponse><tev:CurrentTime>"@, value, "</tev:CurrentTime><tev:TerminationTime>"@, tail, "<tev:CurrentTime>"@, "</tev:CurrentTime>"@);
    }
    {
        reveal_strlit("</tev:CurrentTime><tev:TerminationTime>");
        reveal_strlit("</tev:TerminationTime>");
        reveal_strlit("<tev:TerminationTime>");
        assert("</tev:CurrentTime><tev:TerminationTime>"@.skip(18) =~= "<tev:TerminationTime>"@);
        assert("</tev:TerminationTime>"@.take(22) =~= "</tev:TerminationTime>"@);
        let head = "<tev:PullMessagesResponse><tev:CurrentTime>"@ + shown(now);
        let tail = notifications_xml(list) + "</tev:PullMessagesResponse>"@;
        let value = shown(term);
        assert(pull_response(now, term, list) =~= head + "</tev:CurrentTime><tev:TerminationTime>"@ + value + "</tev:TerminationTime>"@ + tail);
        text::lemma_has_tagged(head, "</tev:CurrentTime><tev:TerminationTime>"@, value, "</tev:TerminationTime>"@, tail, "<tev:TerminationTime>"@, "</tev:TerminationTime>"@);
    }
    {
        reveal_strlit("</tev:TerminationTime>");
        reveal_strlit("</tev:PullMessagesResponse>");
        assert("</tev:TerminationTime>"@.skip(0) =~= "</tev:TerminationTime>"@);
        assert("</tev:PullMessagesResponse>"@.take(27) =~= "</tev:PullMessagesResponse>"@);
        let head = "<tev:PullMessagesResponse><tev:CurrentTime>"@ + shown(now) + "</tev:CurrentTime><tev:TerminationTime>"@ + shown(term);
        let tail = Seq::<char>::empty();
        let value = notifications_xml(list);
        assert(pull_response(now, term, list) =~= head + "</tev:TerminationTime>"@ + value + "</tev:PullMessagesResponse>"@ + tail);
        text::lemma_has_tagged(head, "</tev:TerminationTime>"@, value, "</tev:PullMessagesResponse>"@, tail, "</tev:TerminationTime>"@, "</tev:PullMessagesResponse>"@);
    }
}

/// A message is written with its topic, its time, what happened, its source and its
/// data, each in its own place.
pub proof fn law_messages_are_written_out(n: events::NotificationView)
    ensures
        text::has(notification_xml(n), "<wsnt:Topic Dialect=\"http://docs.oasis-open.org/wsn/t-1/TopicExpression/Concrete\">"@ + n.topic + "</wsnt:Topic>"@),
        text::has(notification_xml(n), " UtcTime=\""@ + shown(n.utc_time) + "\""@),
        text::has(notification_xml(n), " PropertyOperation=\""@ + n.property_op + "\""@),
        text::has(notification_xml(n), "<tt:Source>"@ + simple_items(n.source) + "</tt:Source>"@),
        text::has(notification_xml(n), "<tt:Data>"@ + simple_items(n.data) + "</tt:Data>"@),
{
    {
        reveal_strlit("</wsnt:Topic>");
        reveal_strlit("<wsnt:Topic Dialect=\"http://docs.oasis-open.org/wsn/t-1/TopicExpression/Concrete\">");
        reveal_strlit("<wsnt:NotificationMessage><wsnt:Topic Dialect=\"http://docs.oasis-open.org/wsn/t-1/TopicExpression/Concrete\">");
        reveal_strlit("</wsnt:Topic><wsnt:Message><tt:Message UtcTime=\"");
        assert("<wsnt:NotificationMessage><wsnt:Topic Dialect=\"http://docs.oasis-open.org/wsn/t-1/TopicExpression/Concrete\">"@.skip(26) =~= "<wsnt:Topic Dialect=\"http://docs.oasis-open.org/wsn/t-1/TopicExpression/Concrete\">"@);
        assert("</wsnt:Topic><wsnt:Message><tt:Message UtcTime=\""@.take(13) =~= "</wsnt:Topic>"@);
        let head = Seq::<char>::empty();
        let tail = shown(n.utc_time) + "\" PropertyOperation=\""@ + n.property_op + "\"><tt:Source>"@ + simple_items(n.source) + "</tt:Source><tt:Data>"@ + simple_items(n.data) + "</tt:Data></tt:Message></wsnt:Message></wsnt:NotificationMessage>"@;
        let value = n.topic;
        assert(notification_xml(n) =~= head + "<wsnt:NotificationMessage><wsnt:Topic Dialect=\"http://docs.oasis-open.org/wsn/t-1/TopicExpression/Concrete\">"@ + value + "</wsnt:Topic><wsnt:Message><tt:Message UtcTime=\""@ + tail);
        text::lemma_has_tagged(head, "<wsnt:NotificationMessage><wsnt:Topic Dialect=\"http://docs.oasis-open.org/wsn/t-1/TopicExpression/Concrete\">"@, value, "</wsnt:Topic><wsnt:Message><tt:Message UtcTime=\""@, tail, "<wsnt:Topic Dialect=\"http://docs.oasis-open.org/wsn/t-1/TopicExpression/Concrete\">"@, "</wsnt:Topic>"@);
    }
    {
        reveal_strlit("\"");
        reveal_strlit(" UtcTime=\"");
        reveal_strlit("\" PropertyOperation=\"");
        reveal_strlit("</wsnt:Topic><wsnt:Message><tt:Message UtcTime=\"");
        assert("</wsnt:Topic><wsnt:Message><tt:Message UtcTime=\""@.skip(38) =~= " UtcTime=\""@);
        assert("\" PropertyOperation=\""@.take(1) =~= "\""@);
        let head = "<wsnt:NotificationMessage><wsnt:Topic Dialect=\"http://docs.oasis-open.org/wsn/t-1/TopicExpression/Concrete\">"@ + n.topic;
        let tail = n.property_op + "\"><tt:Source>"@ + simple_items(n.source) + "</tt:Source><tt:Data>"@ + simple_items(n.data) + "</tt:Data></tt:Message></wsnt:Message></wsnt:NotificationMessage>"@;
        let value = shown(n.utc_time);
        assert(notification_xml(n) =~= head + "</wsnt:Topic><wsnt:Message><tt:Message UtcTime=\""@ + value + "\" PropertyOperation=\""@ + tail);
        text::lemma_has_tagged(head, "</wsnt:Topic><wsnt:Message><tt:Message UtcTime=\""@, value, "\" PropertyOperation=\""@, tail, " UtcTime=\""@, "\""@);
    }
    {
        reveal_strlit("\"");
        reveal_strlit("\"><tt:Source>");
        reveal_strlit(" PropertyOperation=\"");
        reveal_strlit("\" PropertyOperation=\"");
        assert("\" PropertyOperation=\""@.skip(1) =~= " PropertyOperation=\""@);
        assert("\"><tt:Source>"@.take(1) =~= "\""@);
        let head = "<wsnt:NotificationMessage><wsnt:Topic Dialect=\"http://docs.oasis-open.org/wsn/t-1/TopicExpression/Concrete\">"@ + n.topic + "</wsnt:Topic><wsnt:Message><tt:Message UtcTime=\""@ + shown(n.utc_time);
        let tail = simple_items(n.source) + "</tt:Source><tt:Data>"@ + simple_items(n.data) + "</tt:Data></tt:Message></wsnt:Message></wsnt:NotificationMessage>"@;
        let value = n.property_op;
        assert(notification_xml(n) =~= head + "\" PropertyOperation=\""@ + value + "\"><tt:Source>"@ + tail);
        text::lemma_has_tagged(head, "\" PropertyOperation=\""@, value, "\"><tt:Source>"@, tail, " PropertyOperation=\""@, "\""@);
    }
    {
        reveal_strlit("<tt:Source>");
        reveal_strlit("</tt:Source><tt:Data>");
        reveal_strlit("\"><tt:Source>");
        reveal_strlit("</tt:Source>");
        assert("\"><tt:Source>"@.skip(2) =~= "<tt:Source>"@);
        assert("</tt:Source><tt:Data>"@.take(12) =~= "</tt:Source>"@);
        let head = "<wsnt:NotificationMessage><wsnt:Topic Dialect=\"http://docs.oasis-open.org/wsn/t-1/TopicExpression/Concrete\">"@ + n.topic + "</wsnt:Topic><wsnt:Message><tt:Message UtcTime=\""@ + shown(n.utc_time) + "\" PropertyOperation=\""@ + n.property_op;
        let tail = simple_items(n.data) + "</tt:Data></tt:Message></wsnt:Message></wsnt:NotificationMessage>"@;
        let value = simple_items(n.source);
        assert(notification_xml(n) =~= head + "\"><tt:Source>"@ + value + "</tt:Source><tt:Data>"@ + tail);
        text::lemma_has_tagged(head, "\"><tt:Source>"@, value, "</tt:Source><tt:Data>"@, tail, "<tt:Source>"@, "</tt:Source>"@);
    }
    {
        reveal_strlit("</tt:Source><tt:Data>");
        reveal_strlit("</tt:Data></tt:Message></wsnt:Message></wsnt:NotificationMessage>");
        reveal_strlit("</tt:Data>");
        reveal_strlit("<tt:Data>");
        assert("</tt:Source><tt:Data>"@.skip(12) =~= "<tt:Data>"@);
        assert("</tt:Data></tt:Message></wsnt:Message></wsnt:NotificationMessage>"@.take(10) =~= "</tt:Data>"@);
        let head = "<wsnt:NotificationMessage><wsnt:Topic Dialect=\"http://docs.oasis-open.org/wsn/t-1/TopicExpression/Concrete\">"@ + n.topic + "</wsnt:Topic><wsnt:Message><tt:Message UtcTime=\""@ + shown(n.utc_time) + "\" PropertyOperation=\""@ + n.property_op + "\"><tt:Source>"@ + simple_items(n.source);
        let tail = Seq::<char>::empty();
        let value = simple_items(n.data);
        assert(notification_xml(n) =~= head + "</tt:Source><tt:Data>"@ + value + "</tt:Data></tt:Message></wsnt:Message></wsnt:NotificationMessage>"@ + tail);
        text::lemma_has_tagged(head, "</tt:Source><tt:Data>"@, value, "</tt:Data></tt:Message></wsnt:Message></wsnt:NotificationMessage>"@, tail, "<tt:Data>"@, "</tt:Data>"@);
    }
}

/// Messages are written one behind the other, in order, and so are their items, each
/// with its name and its value.
pub proof fn law_messages_are_written_in_order(
    list: Seq<events::NotificationView>,
    n: events::NotificationView,
    items: Seq<(Seq<char>, Seq<char>)>,
    name: Seq<char>,
    value: Seq<char>,
)
    ensures
        notifications_xml(list.push(n)) == notifications_xml(list) + notification_xml(n),
        simple_items(items.push((name, value))) == simple_items(items) + (
        "<tt:SimpleItem Name=\""@ + name + "\" Value=\""@ + soap::escaped(value) + "\"/>"@),
        notifications_xml(Seq::empty()) == Seq::<char>::empty(),
        simple_items(Seq::empty()) == Seq::<char>::empty(),
{
    assert(list.push(n).drop_last() =~= list);
    assert(items.push((name, value)).drop_last() =~= items);
}

/// A pull waits as long as it asks to, in milliseconds, but a minute at most, and a
/// second where it does not say. It takes as many messages as it asks for, from 1 to
/// 1024, and 16 where it does not say.
pub proof fn law_pulls_are_bounded(raw: Seq<char>)
    ensures
        pull_timeout(None) == 1_000,
        pull_limit(None) == 16,
        duration::duration(raw) is None ==> pull_timeout(Some(raw)) == 1_000,
        duration::duration(raw) matches Some(secs) ==> pull_timeout(Some(raw)) == (if secs <= 60 {
            secs * 1_000
        } else {
            60_000
        }),
        text::number(text::trimmed(raw), usize::MAX as nat) is None ==> pull_limit(Some(raw)) == 16,
        text::number(text::trimmed(raw), usize::MAX as nat) matches Some(n) ==> (pull_limit(
            Some(raw),
        ) == (if n == 0 {
            1int
        } else if n <= 1_024 {
            n as int
        } else {
            1_024int
        })),
{
}

/// A subscription is answered with an address below its own camera that ends in its
/// own number, and with the end that was granted; a camera that is full, or a host
/// that is not known, is a fault that says so.
pub proof fn law_subscriptions_get_addresses_of_their_own(
    m: EventsManager,
    pull_point: bool,
    ttl: Option<u64>,
    id: Seq<char>,
    host: Seq<char>,
    now: Timestamp,
)
    ensures
        !events::is_full(m, now) ==> subscription_reply(m, pull_point, ttl, id, Ok(host), now)
            == Ok::<Seq<char>, device::FaultView>(
            event_envelope(
                if pull_point {
                    pullpoint_response(
                        "http://"@ + host + "/onvif/"@ + m.cam_name@ + "/subscription/"@ + id,
                        now,
                        events::granted_end(ttl, now),
                    )
                } else {
                    subscribed_response(
                        "http://"@ + host + "/onvif/"@ + m.cam_name@ + "/subscription/"@ + id,
                        now,
                        events::granted_end(ttl, now),
                    )
                },
            ),
        ),
        events::is_full(m, now) ==> (subscription_reply(m, pull_point, ttl, id, Ok(host), now)
            matches Err(f) && f.code == FaultCode::Other && f.reason
            == "ONVIF events: too many active subscriptions for camera "@ + m.cam_name@),
        !events::is_full(m, now) ==> (subscription_reply(m, pull_point, ttl, id, Err(host), now)
            matches Err(f) && f.code == FaultCode::Other && f.reason
            == "Failed to determine advertise host: "@ + host),
{
}

/// What a request for an end asks for counts from now, whether it is written as a
/// duration or as a point in time; where nothing is written nothing is granted.
pub proof fn law_ends_are_read_from_what_is_written(raw: Seq<char>, now: Timestamp)
    ensures
        granted_by(None, now) is None,
        text::trimmed(raw).len() > 0 && text::trimmed(raw)[0] == 'P' ==> granted_by(Some(raw), now)
            == (match duration::duration(text::trimmed(raw)) {
            Some(secs) => Some(secs as int),
            None => None,
        }),
        text::trimmed(raw).len() > 0 && text::trimmed(raw)[0] != 'P' && time::rfc3339_time(
            text::trimmed(raw),
        ) is Some ==> granted_by(Some(raw), now) == (if time::elapsed(
            time::rfc3339_time(text::trimmed(raw))->0,
            now,
        ) >= 1_000_000_000 {
            Some(
                time::elapsed(time::rfc3339_time(text::trimmed(raw))->0, now) / 1_000_000_000,
            )
        } else {
            None
        }),
{
}

/// The action of an envelope is the first text inside an `Action` of its header.
pub proof fn law_actions_stand_in_the_header(
    items: Seq<xml::XmlItemView>,
    header: (Seq<u8>, nat),
    action: (Seq<u8>, nat),
    t: Seq<char>,
)
    requires
        items.len() > 2,
        items[0].event == xml::XmlView::Start(header.0, header.1),
        items[1].event == xml::XmlView::Start(action.0, action.1),
        items[2].event == xml::XmlView::Text(Some(t)),
        xml::local_part(xml::tag_name(header.0, header.1)) == "Header"@,
    ensures
        xml::local_part(xml::tag_name(action.0, action.1)) == "Action"@ ==> action_from(
            items,
            false,
            false,
        ) == Some(t),
{
    reveal_with_fuel(action_from, 4);
    reveal_strlit("Header");
    reveal_strlit("Action");
    assert("Header"@[0] != "Action"@[0]);
    assert(items.drop_first()[0] == items[1]);
    assert(items.drop_first().drop_first()[0] == items[2]);
}

/// A subscription is renewed for as long as is asked for, and for a minute where nothing is.
pub proof fn law_renewals_last_a_minute_by_default(secs: int)
    ensures
        renewed_for(Some(secs)) == secs,
        renewed_for(None) == 60,
{
}

} // verus!

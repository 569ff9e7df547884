//! WS-Discovery: announcing the devices and answering probes for them.

use vstd::prelude::*;
use vstd::string::*;
use crate::onvif::capabilities::CameraCapabilities;
use crate::onvif::soap;
use crate::onvif::state;
use crate::onvif::state::{CameraEntry, DeviceUuid};
use crate::text;
use crate::xml;
use crate::xml::{XmlEvent, XmlItem};

verus! {

pub const WS_DISCOVERY_PORT: u16 = 3702;

/// Whether a message is a probe, and not the answer to one.
pub open spec fn probes(document: Seq<char>) -> bool {
    text::has(document, "Probe"@) && !text::has(document, "ProbeMatches"@)
}

/// Whether a message is a probe, and not the answer to one.
pub fn is_probe(xml: &str) -> (yes: bool)
    ensures
        yes == probes(xml@),
{
    text::contains(xml, "Probe") && !text::contains(xml, "ProbeMatches")
}

/// The first text that follows an opening `MessageID` tag with no closing tag
/// between, among events. `inside` says whether such a tag has been seen since
/// the last closing one.
pub open spec fn id_from(items: Seq<xml::XmlItemView>, inside: bool) -> Option<Seq<char>>
    decreases items.len(),
{
    if items.len() == 0 {
        None
    } else {
        let rest = items.drop_first();
        match items[0].event {
            xml::XmlView::Eof | xml::XmlView::Bad(_) => None,
            xml::XmlView::Start(content, name_len) => id_from(
                rest,
                inside || xml::local_part(xml::tag_name(content, name_len)) == "MessageID"@,
            ),
            xml::XmlView::End(_) => id_from(rest, false),
            xml::XmlView::Text(t) => if inside {
                Some(xml::text_of_event(t))
            } else {
                id_from(rest, inside)
            },
            _ => id_from(rest, inside),
        }
    }
}

/// The id of a message.
pub open spec fn message_id(document: Seq<char>) -> Option<Seq<char>> {
    id_from(xml::xml_events(document), false)
}

/// The id of a message, among its events.
pub fn find_msg_id(items: &Vec<XmlItem>) -> (id: Option<String>)
    requires
        forall|i: int| 0 <= i < items@.len() ==> xml::name_fits((#[trigger] items@[i])@),
    ensures
        text::opt_view(id) == id_from(xml::items_view(items@), false),
{
    let ghost all = xml::items_view(items@);
    let mut inside: bool = false;
    let mut i: usize = 0;
    assert(all.skip(0) =~= all);
    while i < items.len()
        invariant
            i <= items@.len(),
            all == xml::items_view(items@),
            forall|j: int| 0 <= j < items@.len() ==> xml::name_fits((#[trigger] items@[j])@),
            id_from(all, false) == id_from(all.skip(i as int), inside),
        decreases items@.len() - i,
    {
        assert(all.skip(i as int).first() == items@[i as int]@);
        assert(all.skip(i as int).drop_first() =~= all.skip(i + 1));
        match &items[i].event {
            XmlEvent::Eof => {
                return None;
            },
            XmlEvent::Bad(_) => {
                return None;
            },
            XmlEvent::Start(tag) => {
                if text::same(xml::tag_local_name(tag).as_str(), "MessageID") {
                    inside = true;
                }
            },
            XmlEvent::End(_) => {
                inside = false;
            },
            XmlEvent::Text(t) => {
                if inside {
                    return Some(xml::event_text(t));
                }
            },
            _ => {},
        }
        i += 1;
    }
    None
}

/// The id of a message.
pub fn extract_msg_id(xml: &str) -> (id: Option<String>)
    ensures
        text::opt_view(id) == message_id(xml@),
{
    let items = xml::read_events(xml);
    find_msg_id(&items)
}

/// What to do about an incoming message: answer it, relating to its id, if it
/// is a probe that has one.
pub fn probe_to_answer(xml: &str) -> (relates_to: Option<String>)
    ensures
        text::opt_view(relates_to) == (if probes(xml@) {
            message_id(xml@)
        } else {
            None
        }),
{
    if is_probe(xml) {
        extract_msg_id(xml)
    } else {
        None
    }
}

/// What to do about an incoming datagram: answer it, relating to its id, if it
/// holds a probe that has one.
pub fn datagram_to_answer(datagram: &[u8]) -> (relates_to: Option<String>)
    ensures
        text::opt_view(relates_to) == ({
            let document = text::lossy_text(datagram@);
            if probes(document) {
                message_id(document)
            } else {
                None
            }
        }),
{
    probe_to_answer(text::text_from_bytes(datagram).as_str())
}

/// The scopes of a camera: it is a PTZ one exactly if it has the service.
pub open spec fn scopes(cam: Seq<char>, caps: CameraCapabilities) -> Seq<char> {
    "onvif://www.onvif.org/type/video_encoder onvif://www.onvif.org/Profile/Streaming onvif://www.onvif.org/name/"@ + soap::escaped(cam) + " onvif://www.onvif.org/hardware/neolink onvif://www.onvif.org/location/neolink"@ + text::shown_if(caps.has_ptz(), " onvif://www.onvif.org/type/ptz"@)
}

/// The scopes of a camera follow what it can do, as everything else does that
/// describes it.
pub fn scopes_for(cam: &str, caps: &CameraCapabilities) -> (out: String)
    ensures
        out@ == scopes(cam@, *caps),
{
    let mut out = "onvif://www.onvif.org/type/video_encoder onvif://www.onvif.org/Profile/Streaming onvif://www.onvif.org/name/".to_owned();
    out.append(soap::xml_escape(cam).as_str());
    out.append(" onvif://www.onvif.org/hardware/neolink onvif://www.onvif.org/location/neolink");
    out.append(text::when(caps.ptz(), " onvif://www.onvif.org/type/ptz"));
    out
}

/// The scopes tell cameras apart by their PTZ service: those of one that has it
/// go on where those of one without it end.
pub proof fn law_scopes_follow_capabilities(
    cam: Seq<char>,
    with: CameraCapabilities,
    without: CameraCapabilities,
)
    requires
        with.has_ptz(),
        !without.has_ptz(),
    ensures
        scopes(cam, with) == scopes(cam, without) + " onvif://www.onvif.org/type/ptz"@,
{
    let base = "onvif://www.onvif.org/type/video_encoder onvif://www.onvif.org/Profile/Streaming onvif://www.onvif.org/name/"@ + soap::escaped(cam) + " onvif://www.onvif.org/hardware/neolink onvif://www.onvif.org/location/neolink"@;
    assert(scopes(cam, without) =~= base);
}

/// The address of a camera's device service. The name is made a valid URI segment, and then escaped for XML.
pub open spec fn service_address(authority: Seq<char>, cam: Seq<char>) -> Seq<char> {
    "http://"@ + authority + "/onvif/"@ + soap::escaped(state::path_segment(cam)) + "/device_service"@
}

/// The address of a camera's device service. The name is made a valid URI segment, and then escaped for XML.
pub fn xaddr(authority: &str, cam: &str) -> (out: String)
    ensures
        out@ == service_address(authority@, cam@),
{
    let mut out = "http://".to_owned();
    out.append(authority);
    out.append("/onvif/");
    out.append(soap::xml_escape(state::url_path_segment(cam).as_str()).as_str());
    out.append("/device_service");
    out
}

/// The answer to a probe, for one camera. `msg_id` is the id of the answer itself.
pub open spec fn probe_match(uuid: Seq<u8>, cam: Seq<char>, caps: CameraCapabilities, authority: Seq<char>, relates_to: Seq<char>, msg_id: Seq<char>) -> Seq<char> {
    "<?xml version=\"1.0\" encoding=\"UTF-8\"?><s:Envelope xmlns:s=\"http://www.w3.org/2003/05/soap-envelope\" xmlns:a=\"http://schemas.xmlsoap.org/ws/2004/08/addressing\" xmlns:d=\"http://schemas.xmlsoap.org/ws/2005/04/discovery\" xmlns:dn=\"http://www.onvif.org/ver10/network/wsdl\"><s:Header><a:Action s:mustUnderstand=\"1\">http://schemas.xmlsoap.org/ws/2005/04/discovery/ProbeMatches</a:Action><a:MessageID>urn:uuid:"@ + msg_id + "</a:MessageID><a:RelatesTo>"@ + soap::escaped(relates_to) + "</a:RelatesTo><a:To s:mustUnderstand=\"1\">http://schemas.xmlsoap.org/ws/2004/08/addressing/role/anonymous</a:To></s:Header><s:Body><d:ProbeMatches><d:ProbeMatch><a:EndpointReference><a:Address>urn:uuid:"@ + state::uuid_text(uuid) + "</a:Address></a:EndpointReference><d:Types>dn:NetworkVideoTransmitter</d:Types><d:Scopes>"@ + scopes(cam, caps) + "</d:Scopes><d:XAddrs>"@ + soap::escaped(service_address(authority, cam)) + "</d:XAddrs><d:MetadataVersion>1</d:MetadataVersion></d:ProbeMatch></d:ProbeMatches></s:Body></s:Envelope>"@
}

/// The answer to a probe, for one camera. `msg_id` is the id of the answer itself.
pub fn probe_match_envelope(uuid: &DeviceUuid, cam: &str, caps: &CameraCapabilities, authority: &str, relates_to: &str, msg_id: &str) -> (out: String)
    ensures
        out@ == probe_match(uuid.bytes@, cam@, *caps, authority@, relates_to@, msg_id@),
{
    let mut out = "<?xml version=\"1.0\" encoding=\"UTF-8\"?><s:Envelope xmlns:s=\"http://www.w3.org/2003/05/soap-envelope\" xmlns:a=\"http://schemas.xmlsoap.org/ws/2004/08/addressing\" xmlns:d=\"http://schemas.xmlsoap.org/ws/2005/04/discovery\" xmlns:dn=\"http://www.onvif.org/ver10/network/wsdl\"><s:Header><a:Action s:mustUnderstand=\"1\">http://schemas.xmlsoap.org/ws/2005/04/discovery/ProbeMatches</a:Action><a:MessageID>urn:uuid:".to_owned();
    out.append(msg_id);
    out.append("</a:MessageID><a:RelatesTo>");
    out.append(soap::xml_escape(relates_to).as_str());
    out.append("</a:RelatesTo><a:To s:mustUnderstand=\"1\">http://schemas.xmlsoap.org/ws/2004/08/addressing/role/anonymous</a:To></s:Header><s:Body><d:ProbeMatches><d:ProbeMatch><a:EndpointReference><a:Address>urn:uuid:");
    out.append(uuid.text().as_str());
    out.append("</a:Address></a:EndpointReference><d:Types>dn:NetworkVideoTransmitter</d:Types><d:Scopes>");
    out.append(scopes_for(cam, caps).as_str());
    out.append("</d:Scopes><d:XAddrs>");
    out.append(soap::xml_escape(xaddr(authority, cam).as_str()).as_str());
    out.append("</d:XAddrs><d:MetadataVersion>1</d:MetadataVersion></d:ProbeMatch></d:ProbeMatches></s:Body></s:Envelope>");
    out
}

/// The announcement of a camera.
pub open spec fn hello(uuid: Seq<u8>, cam: Seq<char>, caps: CameraCapabilities, authority: Seq<char>, msg_id: Seq<char>) -> Seq<char> {
    "<?xml version=\"1.0\" encoding=\"UTF-8\"?><s:Envelope xmlns:s=\"http://www.w3.org/2003/05/soap-envelope\" xmlns:a=\"http://schemas.xmlsoap.org/ws/2004/08/addressing\" xmlns:d=\"http://schemas.xmlsoap.org/ws/2005/04/discovery\" xmlns:dn=\"http://www.onvif.org/ver10/network/wsdl\"><s:Header><a:Action s:mustUnderstand=\"1\">http://schemas.xmlsoap.org/ws/2005/04/discovery/Hello</a:Action><a:MessageID>urn:uuid:"@ + msg_id + "</a:MessageID><a:To s:mustUnderstand=\"1\">urn:schemas-xmlsoap-org:ws:2005:04:discovery</a:To></s:Header><s:Body><d:Hello><a:EndpointReference><a:Address>urn:uuid:"@ + state::uuid_text(uuid) + "</a:Address></a:EndpointReference><d:Types>dn:NetworkVideoTransmitter</d:Types><d:Scopes>"@ + scopes(cam, caps) + "</d:Scopes><d:XAddrs>"@ + soap::escaped(service_address(authority, cam)) + "</d:XAddrs><d:MetadataVersion>1</d:MetadataVersion></d:Hello></s:Body></s:Envelope>"@
}

/// The announcement of a camera.
pub fn hello_envelope(uuid: &DeviceUuid, cam: &str, caps: &CameraCapabilities, authority: &str, msg_id: &str) -> (out: String)
    ensures
        out@ == hello(uuid.bytes@, cam@, *caps, authority@, msg_id@),
{
    let mut out = "<?xml version=\"1.0\" encoding=\"UTF-8\"?><s:Envelope xmlns:s=\"http://www.w3.org/2003/05/soap-envelope\" xmlns:a=\"http://schemas.xmlsoap.org/ws/2004/08/addressing\" xmlns:d=\"http://schemas.xmlsoap.org/ws/2005/04/discovery\" xmlns:dn=\"http://www.onvif.org/ver10/network/wsdl\"><s:Header><a:Action s:mustUnderstand=\"1\">http://schemas.xmlsoap.org/ws/2005/04/discovery/Hello</a:Action><a:MessageID>urn:uuid:".to_owned();
    out.append(msg_id);
    out.append("</a:MessageID><a:To s:mustUnderstand=\"1\">urn:schemas-xmlsoap-org:ws:2005:04:discovery</a:To></s:Header><s:Body><d:Hello><a:EndpointReference><a:Address>urn:uuid:");
    out.append(uuid.text().as_str());
    out.append("</a:Address></a:EndpointReference><d:Types>dn:NetworkVideoTransmitter</d:Types><d:Scopes>");
    out.append(scopes_for(cam, caps).as_str());
    out.append("</d:Scopes><d:XAddrs>");
    out.append(soap::xml_escape(xaddr(authority, cam).as_str()).as_str());
    out.append("</d:XAddrs><d:MetadataVersion>1</d:MetadataVersion></d:Hello></s:Body></s:Envelope>");
    out
}

/// The farewell of a camera.
pub open spec fn bye(uuid: Seq<u8>, msg_id: Seq<char>) -> Seq<char> {
    "<?xml version=\"1.0\" encoding=\"UTF-8\"?><s:Envelope xmlns:s=\"http://www.w3.org/2003/05/soap-envelope\" xmlns:a=\"http://schemas.xmlsoap.org/ws/2004/08/addressing\" xmlns:d=\"http://schemas.xmlsoap.org/ws/2005/04/discovery\"><s:Header><a:Action s:mustUnderstand=\"1\">http://schemas.xmlsoap.org/ws/2005/04/discovery/Bye</a:Action><a:MessageID>urn:uuid:"@ + msg_id + "</a:MessageID><a:To s:mustUnderstand=\"1\">urn:schemas-xmlsoap-org:ws:2005:04:discovery</a:To></s:Header><s:Body><d:Bye><a:EndpointReference><a:Address>urn:uuid:"@ + state::uuid_text(uuid) + "</a:Address></a:EndpointReference></d:Bye></s:Body></s:Envelope>"@
}

/// The farewell of a camera.
pub fn bye_envelope(uuid: &DeviceUuid, msg_id: &str) -> (out: String)
    ensures
        out@ == bye(uuid.bytes@, msg_id@),
{
    let mut out = "<?xml version=\"1.0\" encoding=\"UTF-8\"?><s:Envelope xmlns:s=\"http://www.w3.org/2003/05/soap-envelope\" xmlns:a=\"http://schemas.xmlsoap.org/ws/2004/08/addressing\" xmlns:d=\"http://schemas.xmlsoap.org/ws/2005/04/discovery\"><s:Header><a:Action s:mustUnderstand=\"1\">http://schemas.xmlsoap.org/ws/2005/04/discovery/Bye</a:Action><a:MessageID>urn:uuid:".to_owned();
    out.append(msg_id);
    out.append("</a:MessageID><a:To s:mustUnderstand=\"1\">urn:schemas-xmlsoap-org:ws:2005:04:discovery</a:To></s:Header><s:Body><d:Bye><a:EndpointReference><a:Address>urn:uuid:");
    out.append(uuid.text().as_str());
    out.append("</a:Address></a:EndpointReference></d:Bye></s:Body></s:Envelope>");
    out
}

/// The answers to a probe: one for every camera, in order. `caps` holds what each
/// can do, and `msg_ids` an id for each.
pub fn handle_probe(
    cameras: &Vec<CameraEntry>,
    caps: &Vec<CameraCapabilities>,
    authority: &str,
    relates_to: &str,
    msg_ids: &Vec<String>,
) -> (answers: Vec<String>)
    requires
        caps@.len() >= cameras@.len(),
        msg_ids@.len() >= cameras@.len(),
    ensures
        answers@.len() == cameras@.len(),
        forall|i: int|
            0 <= i < cameras@.len() ==> (#[trigger] answers@[i])@ == probe_match(
                cameras@[i].uuid.bytes@,
                cameras@[i].name@,
                caps@[i],
                authority@,
                relates_to@,
                msg_ids@[i]@,
            ),
{
    let mut answers: Vec<String> = Vec::new();
    let mut i: usize = 0;
    while i < cameras.len()
        invariant
            i <= cameras@.len(),
            caps@.len() >= cameras@.len(),
            msg_ids@.len() >= cameras@.len(),
            answers@.len() == i,
            forall|j: int|
                0 <= j < i ==> (#[trigger] answers@[j])@ == probe_match(
                    cameras@[j].uuid.bytes@,
                    cameras@[j].name@,
                    caps@[j],
                    authority@,
                    relates_to@,
                    msg_ids@[j]@,
                ),
        decreases cameras@.len() - i,
    {
        answers.push(
            probe_match_envelope(
                &cameras[i].uuid,
                cameras[i].name.as_str(),
                &caps[i],
                authority,
                relates_to,
                msg_ids[i].as_str(),
            ),
        );
        i += 1;
    }
    answers
}

/// An answer to a probe gives its own number, the number of the probe, the device, what
/// kind of device it is, its scopes and its address, each in its own element.
pub proof fn law_answers_relate_to_their_probe(
    uuid: Seq<u8>,
    cam: Seq<char>,
    caps: CameraCapabilities,
    authority: Seq<char>,
    relates_to: Seq<char>,
    msg_id: Seq<char>,
)
    ensures
        text::has(probe_match(uuid, cam, caps, authority, relates_to, msg_id), "/discovery/ProbeMatches</a:Action><a:MessageID>urn:uuid:"@ + msg_id + "</a:MessageID>"@),
        text::has(probe_match(uuid, cam, caps, authority, relates_to, msg_id), "<a:RelatesTo>"@ + soap::escaped(relates_to) + "</a:RelatesTo>"@),
        text::has(probe_match(uuid, cam, caps, authority, relates_to, msg_id), "<a:EndpointReference><a:Address>urn:uuid:"@ + state::uuid_text(uuid) + "</a:Address>"@),
        text::has(probe_match(uuid, cam, caps, authority, relates_to, msg_id), "<d:Types>dn:NetworkVideoTransmitter</d:Types><d:Scopes>"@ + scopes(cam, caps) + "</d:Scopes>"@),
        text::has(probe_match(uuid, cam, caps, authority, relates_to, msg_id), "<d:XAddrs>"@ + soap::escaped("http://"@ + authority + "/onvif/"@ + soap::escaped(state::path_segment(cam)) + "/device_service"@) + "</d:XAddrs>"@),
{
    let n_0 = "/discovery/ProbeMatches</a:Action><a:MessageID>urn:uuid:"@ + msg_id + "</a:MessageID>"@;
    assert(text::has("<?xml version=\"1.0\" encoding=\"UTF-8\"?><s:Envelope xmlns:s=\"http://www.w3.org/2003/05/soap-envelope\" xmlns:a=\"http://schemas.xmlsoap.org/ws/2004/08/addressing\" xmlns:d=\"http://schemas.xmlsoap.org/ws/2005/04/discovery\" xmlns:dn=\"http://www.onvif.org/ver10/network/wsdl\"><s:Header><a:Action s:mustUnderstand=\"1\">http://schemas.xmlsoap.org/ws/2005/04/discovery/ProbeMatches</a:Action><a:MessageID>urn:uuid:"@ + msg_id + "</a:MessageID><a:RelatesTo>"@, n_0)) by {
        reveal_strlit("<?xml version=\"1.0\" encoding=\"UTF-8\"?><s:Envelope xmlns:s=\"http://www.w3.org/2003/05/soap-envelope\" xmlns:a=\"http://schemas.xmlsoap.org/ws/2004/08/addressing\" xmlns:d=\"http://schemas.xmlsoap.org/ws/2005/04/discovery\" xmlns:dn=\"http://www.onvif.org/ver10/network/wsdl\"><s:Header><a:Action s:mustUnderstand=\"1\">http://schemas.xmlsoap.org/ws/2005/04/discovery/ProbeMatches</a:Action><a:MessageID>urn:uuid:");
        reveal_strlit("</a:MessageID><a:RelatesTo>");
        reveal_strlit("/discovery/ProbeMatches</a:Action><a:MessageID>urn:uuid:");
        reveal_strlit("</a:MessageID>");
        assert("<?xml version=\"1.0\" encoding=\"UTF-8\"?><s:Envelope xmlns:s=\"http://www.w3.org/2003/05/soap-envelope\" xmlns:a=\"http://schemas.xmlsoap.org/ws/2004/08/addressing\" xmlns:d=\"http://schemas.xmlsoap.org/ws/2005/04/discovery\" xmlns:dn=\"http://www.onvif.org/ver10/network/wsdl\"><s:Header><a:Action s:mustUnderstand=\"1\">http://schemas.xmlsoap.org/ws/2005/04/discovery/ProbeMatches</a:Action><a:MessageID>urn:uuid:"@.skip(346) =~= "/discovery/ProbeMatches</a:Action><a:MessageID>urn:uuid:"@);
        assert("</a:MessageID><a:RelatesTo>"@.take(14) =~= "</a:MessageID>"@);
        let head = Seq::<char>::empty();
        text::lemma_has_tagged(head, "<?xml version=\"1.0\" encoding=\"UTF-8\"?><s:Envelope xmlns:s=\"http://www.w3.org/2003/05/soap-envelope\" xmlns:a=\"http://schemas.xmlsoap.org/ws/2004/08/addressing\" xmlns:d=\"http://schemas.xmlsoap.org/ws/2005/04/discovery\" xmlns:dn=\"http://www.onvif.org/ver10/network/wsdl\"><s:Header><a:Action s:mustUnderstand=\"1\">http://schemas.xmlsoap.org/ws/2005/04/discovery/ProbeMatches</a:Action><a:MessageID>urn:uuid:"@, msg_id, "</a:MessageID><a:RelatesTo>"@, Seq::empty(), "/discovery/ProbeMatches</a:Action><a:MessageID>urn:uuid:"@, "</a:MessageID>"@);
        assert(head + "<?xml version=\"1.0\" encoding=\"UTF-8\"?><s:Envelope xmlns:s=\"http://www.w3.org/2003/05/soap-envelope\" xmlns:a=\"http://schemas.xmlsoap.org/ws/2004/08/addressing\" xmlns:d=\"http://schemas.xmlsoap.org/ws/2005/04/discovery\" xmlns:dn=\"http://www.onvif.org/ver10/network/wsdl\"><s:Header><a:Action s:mustUnderstand=\"1\">http://schemas.xmlsoap.org/ws/2005/04/discovery/ProbeMatches</a:Action><a:MessageID>urn:uuid:"@ + msg_id + "</a:MessageID><a:RelatesTo>"@ + Seq::empty() =~= head + "<?xml version=\"1.0\" encoding=\"UTF-8\"?><s:Envelope xmlns:s=\"http://www.w3.org/2003/05/soap-envelope\" xmlns:a=\"http://schemas.xmlsoap.org/ws/2004/08/addressing\" xmlns:d=\"http://schemas.xmlsoap.org/ws/2005/04/discovery\" xmlns:dn=\"http://www.onvif.org/ver10/network/wsdl\"><s:Header><a:Action s:mustUnderstand=\"1\">http://schemas.xmlsoap.org/ws/2005/04/discovery/ProbeMatches</a:Action><a:MessageID>urn:uuid:"@ + msg_id + "</a:MessageID><a:RelatesTo>"@);
        assert(head + "<?xml version=\"1.0\" encoding=\"UTF-8\"?><s:Envelope xmlns:s=\"http://www.w3.org/2003/05/soap-envelope\" xmlns:a=\"http://schemas.xmlsoap.org/ws/2004/08/addressing\" xmlns:d=\"http://schemas.xmlsoap.org/ws/2005/04/discovery\" xmlns:dn=\"http://www.onvif.org/ver10/network/wsdl\"><s:Header><a:Action s:mustUnderstand=\"1\">http://schemas.xmlsoap.org/ws/2005/04/discovery/ProbeMatches</a:Action><a:MessageID>urn:uuid:"@ =~= "<?xml version=\"1.0\" encoding=\"UTF-8\"?><s:Envelope xmlns:s=\"http://www.w3.org/2003/05/soap-envelope\" xmlns:a=\"http://schemas.xmlsoap.org/ws/2004/08/addressing\" xmlns:d=\"http://schemas.xmlsoap.org/ws/2005/04/discovery\" xmlns:dn=\"http://www.onvif.org/ver10/network/wsdl\"><s:Header><a:Action s:mustUnderstand=\"1\">http://schemas.xmlsoap.org/ws/2005/04/discovery/ProbeMatches</a:Action><a:MessageID>urn:uuid:"@);
    }
    let n_1 = "<a:RelatesTo>"@ + soap::escaped(relates_to) + "</a:RelatesTo>"@;
    assert(text::has("<?xml version=\"1.0\" encoding=\"UTF-8\"?><s:Envelope xmlns:s=\"http://www.w3.org/2003/05/soap-envelope\" xmlns:a=\"http://schemas.xmlsoap.org/ws/2004/08/addressing\" xmlns:d=\"http://schemas.xmlsoap.org/ws/2005/04/discovery\" xmlns:dn=\"http://www.onvif.org/ver10/network/wsdl\"><s:Header><a:Action s:mustUnderstand=\"1\">http://schemas.xmlsoap.org/ws/2005/04/discovery/ProbeMatches</a:Action><a:MessageID>urn:uuid:"@ + msg_id + "</a:MessageID><a:RelatesTo>"@ + soap::escaped(relates_to) + "</a:RelatesTo><a:To s:mustUnderstand=\"1\">http://schemas.xmlsoap.org/ws/2004/08/addressing/role/anonymous</a:To></s:Header><s:Body><d:ProbeMatches><d:ProbeMatch><a:EndpointReference><a:Address>urn:uuid:"@, n_1)) by {
        reveal_strlit("</a:MessageID><a:RelatesTo>");
        reveal_strlit("</a:RelatesTo><a:To s:mustUnderstand=\"1\">http://schemas.xmlsoap.org/ws/2004/08/addressing/role/anonymous</a:To></s:Header><s:Body><d:ProbeMatches><d:ProbeMatch><a:EndpointReference><a:Address>urn:uuid:");
        reveal_strlit("<a:RelatesTo>");
        reveal_strlit("</a:RelatesTo>");
        assert("</a:MessageID><a:RelatesTo>"@.skip(14) =~= "<a:RelatesTo>"@);
        assert("</a:RelatesTo><a:To s:mustUnderstand=\"1\">http://schemas.xmlsoap.org/ws/2004/08/addressing/role/anonymous</a:To></s:Header><s:Body><d:ProbeMatches><d:ProbeMatch><a:EndpointReference><a:Address>urn:uuid:"@.take(14) =~= "</a:RelatesTo>"@);
        let head = "<?xml version=\"1.0\" encoding=\"UTF-8\"?><s:Envelope xmlns:s=\"http://www.w3.org/2003/05/soap-envelope\" xmlns:a=\"http://schemas.xmlsoap.org/ws/2004/08/addressing\" xmlns:d=\"http://schemas.xmlsoap.org/ws/2005/04/discovery\" xmlns:dn=\"http://www.onvif.org/ver10/network/wsdl\"><s:Header><a:Action s:mustUnderstand=\"1\">http://schemas.xmlsoap.org/ws/2005/04/discovery/ProbeMatches</a:Action><a:MessageID>urn:uuid:"@ + msg_id;
        text::lemma_has_tagged(head, "</a:MessageID><a:RelatesTo>"@, soap::escaped(relates_to), "</a:RelatesTo><a:To s:mustUnderstand=\"1\">http://schemas.xmlsoap.org/ws/2004/08/addressing/role/anonymous</a:To></s:Header><s:Body><d:ProbeMatches><d:ProbeMatch><a:EndpointReference><a:Address>urn:uuid:"@, Seq::empty(), "<a:RelatesTo>"@, "</a:RelatesTo>"@);
        assert(head + "</a:MessageID><a:RelatesTo>"@ + soap::escaped(relates_to) + "</a:RelatesTo><a:To s:mustUnderstand=\"1\">http://schemas.xmlsoap.org/ws/2004/08/addressing/role/anonymous</a:To></s:Header><s:Body><d:ProbeMatches><d:ProbeMatch><a:EndpointReference><a:Address>urn:uuid:"@ + Seq::empty() =~= head + "</a:MessageID><a:RelatesTo>"@ + soap::escaped(relates_to) + "</a:RelatesTo><a:To s:mustUnderstand=\"1\">http://schemas.xmlsoap.org/ws/2004/08/addressing/role/anonymous</a:To></s:Header><s:Body><d:ProbeMatches><d:ProbeMatch><a:EndpointReference><a:Address>urn:uuid:"@);
    }
    let n_2 = "<a:EndpointReference><a:Address>urn:uuid:"@ + state::uuid_text(uuid) + "</a:Address>"@;
    assert(text::has("<?xml version=\"1.0\" encoding=\"UTF-8\"?><s:Envelope xmlns:s=\"http://www.w3.org/2003/05/soap-envelope\" xmlns:a=\"http://schemas.xmlsoap.org/ws/2004/08/addressing\" xmlns:d=\"http://schemas.xmlsoap.org/ws/2005/04/discovery\" xmlns:dn=\"http://www.onvif.org/ver10/network/wsdl\"><s:Header><a:Action s:mustUnderstand=\"1\">http://schemas.xmlsoap.org/ws/2005/04/discovery/ProbeMatches</a:Action><a:MessageID>urn:uuid:"@ + msg_id + "</a:MessageID><a:RelatesTo>"@ + soap::escaped(relates_to) + "</a:RelatesTo><a:To s:mustUnderstand=\"1\">http://schemas.xmlsoap.org/ws/2004/08/addressing/role/anonymous</a:To></s:Header><s:Body><d:ProbeMatches><d:ProbeMatch><a:EndpointReference><a:Address>urn:uuid:"@ + state::uuid_text(uuid) + "</a:Address></a:EndpointReference><d:Types>dn:NetworkVideoTransmitter</d:Types><d:Scopes>"@, n_2)) by {
        reveal_strlit("</a:RelatesTo><a:To s:mustUnderstand=\"1\">http://schemas.xmlsoap.org/ws/2004/08/addressing/role/anonymous</a:To></s:Header><s:Body><d:ProbeMatches><d:ProbeMatch><a:EndpointReference><a:Address>urn:uuid:");
        reveal_strlit("</a:Address></a:EndpointReference><d:Types>dn:NetworkVideoTransmitter</d:Types><d:Scopes>");
        reveal_strlit("<a:EndpointReference><a:Address>urn:uuid:");
        reveal_strlit("</a:Address>");
        assert("</a:RelatesTo><a:To s:mustUnderstand=\"1\">http://schemas.xmlsoap.org/ws/2004/08/addressing/role/anonymous</a:To></s:Header><s:Body><d:ProbeMatches><d:ProbeMatch><a:EndpointReference><a:Address>urn:uuid:"@.skip(160) =~= "<a:EndpointReference><a:Address>urn:uuid:"@);
        assert("</a:Address></a:EndpointReference><d:Types>dn:NetworkVideoTransmitter</d:Types><d:Scopes>"@.take(12) =~= "</a:Address>"@);
        let head = "<?xml version=\"1.0\" encoding=\"UTF-8\"?><s:Envelope xmlns:s=\"http://www.w3.org/2003/05/soap-envelope\" xmlns:a=\"http://schemas.xmlsoap.org/ws/2004/08/addressing\" xmlns:d=\"http://schemas.xmlsoap.org/ws/2005/04/discovery\" xmlns:dn=\"http://www.onvif.org/ver10/network/wsdl\"><s:Header><a:Action s:mustUnderstand=\"1\">http://schemas.xmlsoap.org/ws/2005/04/discovery/ProbeMatches</a:Action><a:MessageID>urn:uuid:"@ + msg_id + "</a:MessageID><a:RelatesTo>"@ + soap::escaped(relates_to);
        text::lemma_has_tagged(head, "</a:RelatesTo><a:To s:mustUnderstand=\"1\">http://schemas.xmlsoap.org/ws/2004/08/addressing/role/anonymous</a:To></s:Header><s:Body><d:ProbeMatches><d:ProbeMatch><a:EndpointReference><a:Address>urn:uuid:"@, state::uuid_text(uuid), "</a:Address></a:EndpointReference><d:Types>dn:NetworkVideoTransmitter</d:Types><d:Scopes>"@, Seq::empty(), "<a:EndpointReference><a:Address>urn:uuid:"@, "</a:Address>"@);
        assert(head + "</a:RelatesTo><a:To s:mustUnderstand=\"1\">http://schemas.xmlsoap.org/ws/2004/08/addressing/role/anonymous</a:To></s:Header><s:Body><d:ProbeMatches><d:ProbeMatch><a:EndpointReference><a:Address>urn:uuid:"@ + state::uuid_text(uuid) + "</a:Address></a:EndpointReference><d:Types>dn:NetworkVideoTransmitter</d:Types><d:Scopes>"@ + Seq::empty() =~= head + "</a:RelatesTo><a:To s:mustUnderstand=\"1\">http://schemas.xmlsoap.org/ws/2004/08/addressing/role/anonymous</a:To></s:Header><s:Body><d:ProbeMatches><d:ProbeMatch><a:EndpointReference><a:Address>urn:uuid:"@ + state::uuid_text(uuid) + "</a:Address></a:EndpointReference><d:Types>dn:NetworkVideoTransmitter</d:Types><d:Scopes>"@);
    }
    let n_3 = "<d:Types>dn:NetworkVideoTransmitter</d:Types><d:Scopes>"@ + scopes(cam, caps) + "</d:Scopes>"@;
    assert(text::has("<?xml version=\"1.0\" encoding=\"UTF-8\"?><s:Envelope xmlns:s=\"http://www.w3.org/2003/05/soap-envelope\" xmlns:a=\"http://schemas.xmlsoap.org/ws/2004/08/addressing\" xmlns:d=\"http://schemas.xmlsoap.org/ws/2005/04/discovery\" xmlns:dn=\"http://www.onvif.org/ver10/network/wsdl\"><s:Header><a:Action s:mustUnderstand=\"1\">http://schemas.xmlsoap.org/ws/2005/04/discovery/ProbeMatches</a:Action><a:MessageID>urn:uuid:"@ + msg_id + "</a:MessageID><a:RelatesTo>"@ + soap::escaped(relates_to) + "</a:RelatesTo><a:To s:mustUnderstand=\"1\">http://schemas.xmlsoap.org/ws/2004/08/addressing/role/anonymous</a:To></s:Header><s:Body><d:ProbeMatches><d:ProbeMatch><a:EndpointReference><a:Address>urn:uuid:"@ + state::uuid_text(uuid) + "</a:Address></a:EndpointReference><d:Types>dn:NetworkVideoTransmitter</d:Types><d:Scopes>"@ + scopes(cam, caps) + "</d:Scopes><d:XAddrs>"@, n_3)) by {
        reveal_strlit("</a:Address></a:EndpointReference><d:Types>dn:NetworkVideoTransmitter</d:Types><d:Scopes>");
        reveal_strlit("</d:Scopes><d:XAddrs>");
        reveal_strlit("<d:Types>dn:NetworkVideoTransmitter</d:Types><d:Scopes>");
        reveal_strlit("</d:Scopes>");
        assert("</a:Address></a:EndpointReference><d:Types>dn:NetworkVideoTransmitter</d:Types><d:Scopes>"@.skip(34) =~= "<d:Types>dn:NetworkVideoTransmitter</d:Types><d:Scopes>"@);
        assert("</d:Scopes><d:XAddrs>"@.take(11) =~= "</d:Scopes>"@);
        let head = "<?xml version=\"1.0\" encoding=\"UTF-8\"?><s:Envelope xmlns:s=\"http://www.w3.org/2003/05/soap-envelope\" xmlns:a=\"http://schemas.xmlsoap.org/ws/2004/08/addressing\" xmlns:d=\"http://schemas.xmlsoap.org/ws/2005/04/discovery\" xmlns:dn=\"http://www.onvif.org/ver10/network/wsdl\"><s:Header><a:Action s:mustUnderstand=\"1\">http://schemas.xmlsoap.org/ws/2005/04/discovery/ProbeMatches</a:Action><a:MessageID>urn:uuid:"@ + msg_id + "</a:MessageID><a:RelatesTo>"@ + soap::escaped(relates_to) + "</a:RelatesTo><a:To s:mustUnderstand=\"1\">http://schemas.xmlsoap.org/ws/2004/08/addressing/role/anonymous</a:To></s:Header><s:Body><d:ProbeMatches><d:ProbeMatch><a:EndpointReference><a:Address>urn:uuid:"@ + state::uuid_text(uuid);
        text::lemma_has_tagged(head, "</a:Address></a:EndpointReference><d:Types>dn:NetworkVideoTransmitter</d:Types><d:Scopes>"@, scopes(cam, caps), "</d:Scopes><d:XAddrs>"@, Seq::empty(), "<d:Types>dn:NetworkVideoTransmitter</d:Types><d:Scopes>"@, "</d:Scopes>"@);
        assert(head + "</a:Address></a:EndpointReference><d:Types>dn:NetworkVideoTransmitter</d:Types><d:Scopes>"@ + scopes(cam, caps) + "</d:Scopes><d:XAddrs>"@ + Seq::empty() =~= head + "</a:Address></a:EndpointReference><d:Types>dn:NetworkVideoTransmitter</d:Types><d:Scopes>"@ + scopes(cam, caps) + "</d:Scopes><d:XAddrs>"@);
    }
    let n_4 = "<d:XAddrs>"@ + soap::escaped(service_address(authority, cam)) + "</d:XAddrs>"@;
    assert(text::has("<?xml version=\"1.0\" encoding=\"UTF-8\"?><s:Envelope xmlns:s=\"http://www.w3.org/2003/05/soap-envelope\" xmlns:a=\"http://schemas.xmlsoap.org/ws/2004/08/addressing\" xmlns:d=\"http://schemas.xmlsoap.org/ws/2005/04/discovery\" xmlns:dn=\"http://www.onvif.org/ver10/network/wsdl\"><s:Header><a:Action s:mustUnderstand=\"1\">http://schemas.xmlsoap.org/ws/2005/04/discovery/ProbeMatches</a:Action><a:MessageID>urn:uuid:"@ + msg_id + "</a:MessageID><a:RelatesTo>"@ + soap::escaped(relates_to) + "</a:RelatesTo><a:To s:mustUnderstand=\"1\">http://schemas.xmlsoap.org/ws/2004/08/addressing/role/anonymous</a:To></s:Header><s:Body><d:ProbeMatches><d:ProbeMatch><a:EndpointReference><a:Address>urn:uuid:"@ + state::uuid_text(uuid) + "</a:Address></a:EndpointReference><d:Types>dn:NetworkVideoTransmitter</d:Types><d:Scopes>"@ + scopes(cam, caps) + "</d:Scopes><d:XAddrs>"@ + soap::escaped(service_address(authority, cam)) + "</d:XAddrs><d:MetadataVersion>1</d:MetadataVersion></d:ProbeMatch></d:ProbeMatches></s:Body></s:Envelope>"@, n_4)) by {
        reveal_strlit("</d:Scopes><d:XAddrs>");
        reveal_strlit("</d:XAddrs><d:MetadataVersion>1</d:MetadataVersion></d:ProbeMatch></d:ProbeMatches></s:Body></s:Envelope>");
        reveal_strlit("<d:XAddrs>");
        reveal_strlit("</d:XAddrs>");
        assert("</d:Scopes><d:XAddrs>"@.skip(11) =~= "<d:XAddrs>"@);
        assert("</d:XAddrs><d:MetadataVersion>1</d:MetadataVersion></d:ProbeMatch></d:ProbeMatches></s:Body></s:Envelope>"@.take(11) =~= "</d:XAddrs>"@);
        let head = "<?xml version=\"1.0\" encoding=\"UTF-8\"?><s:Envelope xmlns:s=\"http://www.w3.org/2003/05/soap-envelope\" xmlns:a=\"http://schemas.xmlsoap.org/ws/2004/08/addressing\" xmlns:d=\"http://schemas.xmlsoap.org/ws/2005/04/discovery\" xmlns:dn=\"http://www.onvif.org/ver10/network/wsdl\"><s:Header><a:Action s:mustUnderstand=\"1\">http://schemas.xmlsoap.org/ws/2005/04/discovery/ProbeMatches</a:Action><a:MessageID>urn:uuid:"@ + msg_id + "</a:MessageID><a:RelatesTo>"@ + soap::escaped(relates_to) + "</a:RelatesTo><a:To s:mustUnderstand=\"1\">http://schemas.xmlsoap.org/ws/2004/08/addressing/role/anonymous</a:To></s:Header><s:Body><d:ProbeMatches><d:ProbeMatch><a:EndpointReference><a:Address>urn:uuid:"@ + state::uuid_text(uuid) + "</a:Address></a:EndpointReference><d:Types>dn:NetworkVideoTransmitter</d:Types><d:Scopes>"@ + scopes(cam, caps);
        text::lemma_has_tagged(head, "</d:Scopes><d:XAddrs>"@, soap::escaped(service_address(authority, cam)), "</d:XAddrs><d:MetadataVersion>1</d:MetadataVersion></d:ProbeMatch></d:ProbeMatches></s:Body></s:Envelope>"@, Seq::empty(), "<d:XAddrs>"@, "</d:XAddrs>"@);
        assert(head + "</d:Scopes><d:XAddrs>"@ + soap::escaped(service_address(authority, cam)) + "</d:XAddrs><d:MetadataVersion>1</d:MetadataVersion></d:ProbeMatch></d:ProbeMatches></s:Body></s:Envelope>"@ + Seq::empty() =~= head + "</d:Scopes><d:XAddrs>"@ + soap::escaped(service_address(authority, cam)) + "</d:XAddrs><d:MetadataVersion>1</d:MetadataVersion></d:ProbeMatch></d:ProbeMatches></s:Body></s:Envelope>"@);
    }
    let up_to_2 = "<?xml version=\"1.0\" encoding=\"UTF-8\"?><s:Envelope xmlns:s=\"http://www.w3.org/2003/05/soap-envelope\" xmlns:a=\"http://schemas.xmlsoap.org/ws/2004/08/addressing\" xmlns:d=\"http://schemas.xmlsoap.org/ws/2005/04/discovery\" xmlns:dn=\"http://www.onvif.org/ver10/network/wsdl\"><s:Header><a:Action s:mustUnderstand=\"1\">http://schemas.xmlsoap.org/ws/2005/04/discovery/ProbeMatches</a:Action><a:MessageID>urn:uuid:"@ + msg_id + "</a:MessageID><a:RelatesTo>"@;
    let up_to_3 = up_to_2 + soap::escaped(relates_to);
    text::lemma_has_before(up_to_2, soap::escaped(relates_to), n_0);
    let up_to_4 = up_to_3 + "</a:RelatesTo><a:To s:mustUnderstand=\"1\">http://schemas.xmlsoap.org/ws/2004/08/addressing/role/anonymous</a:To></s:Header><s:Body><d:ProbeMatches><d:ProbeMatch><a:EndpointReference><a:Address>urn:uuid:"@;
    text::lemma_has_before(up_to_3, "</a:RelatesTo><a:To s:mustUnderstand=\"1\">http://schemas.xmlsoap.org/ws/2004/08/addressing/role/anonymous</a:To></s:Header><s:Body><d:ProbeMatches><d:ProbeMatch><a:EndpointReference><a:Address>urn:uuid:"@, n_0);
    let up_to_5 = up_to_4 + state::uuid_text(uuid);
    text::lemma_has_before(up_to_4, state::uuid_text(uuid), n_0);
    text::lemma_has_before(up_to_4, state::uuid_text(uuid), n_1);
    let up_to_6 = up_to_5 + "</a:Address></a:EndpointReference><d:Types>dn:NetworkVideoTransmitter</d:Types><d:Scopes>"@;
    text::lemma_has_before(up_to_5, "</a:Address></a:EndpointReference><d:Types>dn:NetworkVideoTransmitter</d:Types><d:Scopes>"@, n_0);
    text::lemma_has_before(up_to_5, "</a:Address></a:EndpointReference><d:Types>dn:NetworkVideoTransmitter</d:Types><d:Scopes>"@, n_1);
    let up_to_7 = up_to_6 + scopes(cam, caps);
    text::lemma_has_before(up_to_6, scopes(cam, caps), n_0);
    text::lemma_has_before(up_to_6, scopes(cam, caps), n_1);
    text::lemma_has_before(up_to_6, scopes(cam, caps), n_2);
    let up_to_8 = up_to_7 + "</d:Scopes><d:XAddrs>"@;
    text::lemma_has_before(up_to_7, "</d:Scopes><d:XAddrs>"@, n_0);
    text::lemma_has_before(up_to_7, "</d:Scopes><d:XAddrs>"@, n_1);
    text::lemma_has_before(up_to_7, "</d:Scopes><d:XAddrs>"@, n_2);
    let up_to_9 = up_to_8 + soap::escaped(service_address(authority, cam));
    text::lemma_has_before(up_to_8, soap::escaped(service_address(authority, cam)), n_0);
    text::lemma_has_before(up_to_8, soap::escaped(service_address(authority, cam)), n_1);
    text::lemma_has_before(up_to_8, soap::escaped(service_address(authority, cam)), n_2);
    text::lemma_has_before(up_to_8, soap::escaped(service_address(authority, cam)), n_3);
    let up_to_10 = up_to_9 + "</d:XAddrs><d:MetadataVersion>1</d:MetadataVersion></d:ProbeMatch></d:ProbeMatches></s:Body></s:Envelope>"@;
    text::lemma_has_before(up_to_9, "</d:XAddrs><d:MetadataVersion>1</d:MetadataVersion></d:ProbeMatch></d:ProbeMatches></s:Body></s:Envelope>"@, n_0);
    text::lemma_has_before(up_to_9, "</d:XAddrs><d:MetadataVersion>1</d:MetadataVersion></d:ProbeMatch></d:ProbeMatches></s:Body></s:Envelope>"@, n_1);
    text::lemma_has_before(up_to_9, "</d:XAddrs><d:MetadataVersion>1</d:MetadataVersion></d:ProbeMatch></d:ProbeMatches></s:Body></s:Envelope>"@, n_2);
    text::lemma_has_before(up_to_9, "</d:XAddrs><d:MetadataVersion>1</d:MetadataVersion></d:ProbeMatch></d:ProbeMatches></s:Body></s:Envelope>"@, n_3);
    assert(up_to_10 == probe_match(uuid, cam, caps, authority, relates_to, msg_id));
}

/// A device that comes says hello, with its number, its kind, its scopes and its address.
pub proof fn law_devices_say_hello(
    uuid: Seq<u8>,
    cam: Seq<char>,
    caps: CameraCapabilities,
    authority: Seq<char>,
    msg_id: Seq<char>,
)
    ensures
        text::has(hello(uuid, cam, caps, authority, msg_id), "/discovery/Hello</a:Action><a:MessageID>urn:uuid:"@ + msg_id + "</a:MessageID>"@),
        text::has(hello(uuid, cam, caps, authority, msg_id), "<a:EndpointReference><a:Address>urn:uuid:"@ + state::uuid_text(uuid) + "</a:Address>"@),
        text::has(hello(uuid, cam, caps, authority, msg_id), "<d:Types>dn:NetworkVideoTransmitter</d:Types><d:Scopes>"@ + scopes(cam, caps) + "</d:Scopes>"@),
        text::has(hello(uuid, cam, caps, authority, msg_id), "<d:XAddrs>"@ + soap::escaped("http://"@ + authority + "/onvif/"@ + soap::escaped(state::path_segment(cam)) + "/device_service"@) + "</d:XAddrs>"@),
{
    let n_0 = "/discovery/Hello</a:Action><a:MessageID>urn:uuid:"@ + msg_id + "</a:MessageID>"@;
    assert(text::has("<?xml version=\"1.0\" encoding=\"UTF-8\"?><s:Envelope xmlns:s=\"http://www.w3.org/2003/05/soap-envelope\" xmlns:a=\"http://schemas.xmlsoap.org/ws/2004/08/addressing\" xmlns:d=\"http://schemas.xmlsoap.org/ws/2005/04/discovery\" xmlns:dn=\"http://www.onvif.org/ver10/network/wsdl\"><s:Header><a:Action s:mustUnderstand=\"1\">http://schemas.xmlsoap.org/ws/2005/04/discovery/Hello</a:Action><a:MessageID>urn:uuid:"@ + msg_id + "</a:MessageID><a:To s:mustUnderstand=\"1\">urn:schemas-xmlsoap-org:ws:2005:04:discovery</a:To></s:Header><s:Body><d:Hello><a:EndpointReference><a:Address>urn:uuid:"@, n_0)) by {
        reveal_strlit("<?xml version=\"1.0\" encoding=\"UTF-8\"?><s:Envelope xmlns:s=\"http://www.w3.org/2003/05/soap-envelope\" xmlns:a=\"http://schemas.xmlsoap.org/ws/2004/08/addressing\" xmlns:d=\"http://schemas.xmlsoap.org/ws/2005/04/discovery\" xmlns:dn=\"http://www.onvif.org/ver10/network/wsdl\"><s:Header><a:Action s:mustUnderstand=\"1\">http://schemas.xmlsoap.org/ws/2005/04/discovery/Hello</a:Action><a:MessageID>urn:uuid:");
        reveal_strlit("</a:MessageID><a:To s:mustUnderstand=\"1\">urn:schemas-xmlsoap-org:ws:2005:04:discovery</a:To></s:Header><s:Body><d:Hello><a:EndpointReference><a:Address>urn:uuid:");
        reveal_strlit("/discovery/Hello</a:Action><a:MessageID>urn:uuid:");
        reveal_strlit("</a:MessageID>");
        assert("<?xml version=\"1.0\" encoding=\"UTF-8\"?><s:Envelope xmlns:s=\"http://www.w3.org/2003/05/soap-envelope\" xmlns:a=\"http://schemas.xmlsoap.org/ws/2004/08/addressing\" xmlns:d=\"http://schemas.xmlsoap.org/ws/2005/04/discovery\" xmlns:dn=\"http://www.onvif.org/ver10/network/wsdl\"><s:Header><a:Action s:mustUnderstand=\"1\">http://schemas.xmlsoap.org/ws/2005/04/discovery/Hello</a:Action><a:MessageID>urn:uuid:"@.skip(346) =~= "/discovery/Hello</a:Action><a:MessageID>urn:uuid:"@);
        assert("</a:MessageID><a:To s:mustUnderstand=\"1\">urn:schemas-xmlsoap-org:ws:2005:04:discovery</a:To></s:Header><s:Body><d:Hello><a:EndpointReference><a:Address>urn:uuid:"@.take(14) =~= "</a:MessageID>"@);
        let head = Seq::<char>::empty();
        text::lemma_has_tagged(head, "<?xml version=\"1.0\" encoding=\"UTF-8\"?><s:Envelope xmlns:s=\"http://www.w3.org/2003/05/soap-envelope\" xmlns:a=\"http://schemas.xmlsoap.org/ws/2004/08/addressing\" xmlns:d=\"http://schemas.xmlsoap.org/ws/2005/04/discovery\" xmlns:dn=\"http://www.onvif.org/ver10/network/wsdl\"><s:Header><a:Action s:mustUnderstand=\"1\">http://schemas.xmlsoap.org/ws/2005/04/discovery/Hello</a:Action><a:MessageID>urn:uuid:"@, msg_id, "</a:MessageID><a:To s:mustUnderstand=\"1\">urn:schemas-xmlsoap-org:ws:2005:04:discovery</a:To></s:Header><s:Body><d:Hello><a:EndpointReference><a:Address>urn:uuid:"@, Seq::empty(), "/discovery/Hello</a:Action><a:MessageID>urn:uuid:"@, "</a:MessageID>"@);
        assert(head + "<?xml version=\"1.0\" encoding=\"UTF-8\"?><s:Envelope xmlns:s=\"http://www.w3.org/2003/05/soap-envelope\" xmlns:a=\"http://schemas.xmlsoap.org/ws/2004/08/addressing\" xmlns:d=\"http://schemas.xmlsoap.org/ws/2005/04/discovery\" xmlns:dn=\"http://www.onvif.org/ver10/network/wsdl\"><s:Header><a:Action s:mustUnderstand=\"1\">http://schemas.xmlsoap.org/ws/2005/04/discovery/Hello</a:Action><a:MessageID>urn:uuid:"@ + msg_id + "</a:MessageID><a:To s:mustUnderstand=\"1\">urn:schemas-xmlsoap-org:ws:2005:04:discovery</a:To></s:Header><s:Body><d:Hello><a:EndpointReference><a:Address>urn:uuid:"@ + Seq::empty() =~= head + "<?xml version=\"1.0\" encoding=\"UTF-8\"?><s:Envelope xmlns:s=\"http://www.w3.org/2003/05/soap-envelope\" xmlns:a=\"http://schemas.xmlsoap.org/ws/2004/08/addressing\" xmlns:d=\"http://schemas.xmlsoap.org/ws/2005/04/discovery\" xmlns:dn=\"http://www.onvif.org/ver10/network/wsdl\"><s:Header><a:Action s:mustUnderstand=\"1\">http://schemas.xmlsoap.org/ws/2005/04/discovery/Hello</a:Action><a:MessageID>urn:uuid:"@ + msg_id + "</a:MessageID><a:To s:mustUnderstand=\"1\">urn:schemas-xmlsoap-org:ws:2005:04:discovery</a:To></s:Header><s:Body><d:Hello><a:EndpointReference><a:Address>urn:uuid:"@);
        assert(head + "<?xml version=\"1.0\" encoding=\"UTF-8\"?><s:Envelope xmlns:s=\"http://www.w3.org/2003/05/soap-envelope\" xmlns:a=\"http://schemas.xmlsoap.org/ws/2004/08/addressing\" xmlns:d=\"http://schemas.xmlsoap.org/ws/2005/04/discovery\" xmlns:dn=\"http://www.onvif.org/ver10/network/wsdl\"><s:Header><a:Action s:mustUnderstand=\"1\">http://schemas.xmlsoap.org/ws/2005/04/discovery/Hello</a:Action><a:MessageID>urn:uuid:"@ =~= "<?xml version=\"1.0\" encoding=\"UTF-8\"?><s:Envelope xmlns:s=\"http://www.w3.org/2003/05/soap-envelope\" xmlns:a=\"http://schemas.xmlsoap.org/ws/2004/08/addressing\" xmlns:d=\"http://schemas.xmlsoap.org/ws/2005/04/discovery\" xmlns:dn=\"http://www.onvif.org/ver10/network/wsdl\"><s:Header><a:Action s:mustUnderstand=\"1\">http://schemas.xmlsoap.org/ws/2005/04/discovery/Hello</a:Action><a:MessageID>urn:uuid:"@);
    }
    let n_1 = "<a:EndpointReference><a:Address>urn:uuid:"@ + state::uuid_text(uuid) + "</a:Address>"@;
    assert(text::has("<?xml version=\"1.0\" encoding=\"UTF-8\"?><s:Envelope xmlns:s=\"http://www.w3.org/2003/05/soap-envelope\" xmlns:a=\"http://schemas.xmlsoap.org/ws/2004/08/addressing\" xmlns:d=\"http://schemas.xmlsoap.org/ws/2005/04/discovery\" xmlns:dn=\"http://www.onvif.org/ver10/network/wsdl\"><s:Header><a:Action s:mustUnderstand=\"1\">http://schemas.xmlsoap.org/ws/2005/04/discovery/Hello</a:Action><a:MessageID>urn:uuid:"@ + msg_id + "</a:MessageID><a:To s:mustUnderstand=\"1\">urn:schemas-xmlsoap-org:ws:2005:04:discovery</a:To></s:Header><s:Body><d:Hello><a:EndpointReference><a:Address>urn:uuid:"@ + state::uuid_text(uuid) + "</a:Address></a:EndpointReference><d:Types>dn:NetworkVideoTransmitter</d:Types><d:Scopes>"@, n_1)) by {
        reveal_strlit("</a:MessageID><a:To s:mustUnderstand=\"1\">urn:schemas-xmlsoap-org:ws:2005:04:discovery</a:To></s:Header><s:Body><d:Hello><a:EndpointReference><a:Address>urn:uuid:");
        reveal_strlit("</a:Address></a:EndpointReference><d:Types>dn:NetworkVideoTransmitter</d:Types><d:Scopes>");
        reveal_strlit("<a:EndpointReference><a:Address>urn:uuid:");
        reveal_strlit("</a:Address>");
        assert("</a:MessageID><a:To s:mustUnderstand=\"1\">urn:schemas-xmlsoap-org:ws:2005:04:discovery</a:To></s:Header><s:Body><d:Hello><a:EndpointReference><a:Address>urn:uuid:"@.skip(120) =~= "<a:EndpointReference><a:Address>urn:uuid:"@);
        assert("</a:Address></a:EndpointReference><d:Types>dn:NetworkVideoTransmitter</d:Types><d:Scopes>"@.take(12) =~= "</a:Address>"@);
        let head = "<?xml version=\"1.0\" encoding=\"UTF-8\"?><s:Envelope xmlns:s=\"http://www.w3.org/2003/05/soap-envelope\" xmlns:a=\"http://schemas.xmlsoap.org/ws/2004/08/addressing\" xmlns:d=\"http://schemas.xmlsoap.org/ws/2005/04/discovery\" xmlns:dn=\"http://www.onvif.org/ver10/network/wsdl\"><s:Header><a:Action s:mustUnderstand=\"1\">http://schemas.xmlsoap.org/ws/2005/04/discovery/Hello</a:Action><a:MessageID>urn:uuid:"@ + msg_id;
        text::lemma_has_tagged(head, "</a:MessageID><a:To s:mustUnderstand=\"1\">urn:schemas-xmlsoap-org:ws:2005:04:discovery</a:To></s:Header><s:Body><d:Hello><a:EndpointReference><a:Address>urn:uuid:"@, state::uuid_text(uuid), "</a:Address></a:EndpointReference><d:Types>dn:NetworkVideoTransmitter</d:Types><d:Scopes>"@, Seq::empty(), "<a:EndpointReference><a:Address>urn:uuid:"@, "</a:Address>"@);
        assert(head + "</a:MessageID><a:To s:mustUnderstand=\"1\">urn:schemas-xmlsoap-org:ws:2005:04:discovery</a:To></s:Header><s:Body><d:Hello><a:EndpointReference><a:Address>urn:uuid:"@ + state::uuid_text(uuid) + "</a:Address></a:EndpointReference><d:Types>dn:NetworkVideoTransmitter</d:Types><d:Scopes>"@ + Seq::empty() =~= head + "</a:MessageID><a:To s:mustUnderstand=\"1\">urn:schemas-xmlsoap-org:ws:2005:04:discovery</a:To></s:Header><s:Body><d:Hello><a:EndpointReference><a:Address>urn:uuid:"@ + state::uuid_text(uuid) + "</a:Address></a:EndpointReference><d:Types>dn:NetworkVideoTransmitter</d:Types><d:Scopes>"@);
    }
    let n_2 = "<d:Types>dn:NetworkVideoTransmitter</d:Types><d:Scopes>"@ + scopes(cam, caps) + "</d:Scopes>"@;
    assert(text::has("<?xml version=\"1.0\" encoding=\"UTF-8\"?><s:Envelope xmlns:s=\"http://www.w3.org/2003/05/soap-envelope\" xmlns:a=\"http://schemas.xmlsoap.org/ws/2004/08/addressing\" xmlns:d=\"http://schemas.xmlsoap.org/ws/2005/04/discovery\" xmlns:dn=\"http://www.onvif.org/ver10/network/wsdl\"><s:Header><a:Action s:mustUnderstand=\"1\">http://schemas.xmlsoap.org/ws/2005/04/discovery/Hello</a:Action><a:MessageID>urn:uuid:"@ + msg_id + "</a:MessageID><a:To s:mustUnderstand=\"1\">urn:schemas-xmlsoap-org:ws:2005:04:discovery</a:To></s:Header><s:Body><d:Hello><a:EndpointReference><a:Address>urn:uuid:"@ + state::uuid_text(uuid) + "</a:Address></a:EndpointReference><d:Types>dn:NetworkVideoTransmitter</d:Types><d:Scopes>"@ + scopes(cam, caps) + "</d:Scopes><d:XAddrs>"@, n_2)) by {
        reveal_strlit("</a:Address></a:EndpointReference><d:Types>dn:NetworkVideoTransmitter</d:Types><d:Scopes>");
        reveal_strlit("</d:Scopes><d:XAddrs>");
        reveal_strlit("<d:Types>dn:NetworkVideoTransmitter</d:Types><d:Scopes>");
        reveal_strlit("</d:Scopes>");
        assert("</a:Address></a:EndpointReference><d:Types>dn:NetworkVideoTransmitter</d:Types><d:Scopes>"@.skip(34) =~= "<d:Types>dn:NetworkVideoTransmitter</d:Types><d:Scopes>"@);
        assert("</d:Scopes><d:XAddrs>"@.take(11) =~= "</d:Scopes>"@);
        let head = "<?xml version=\"1.0\" encoding=\"UTF-8\"?><s:Envelope xmlns:s=\"http://www.w3.org/2003/05/soap-envelope\" xmlns:a=\"http://schemas.xmlsoap.org/ws/2004/08/addressing\" xmlns:d=\"http://schemas.xmlsoap.org/ws/2005/04/discovery\" xmlns:dn=\"http://www.onvif.org/ver10/network/wsdl\"><s:Header><a:Action s:mustUnderstand=\"1\">http://schemas.xmlsoap.org/ws/2005/04/discovery/Hello</a:Action><a:MessageID>urn:uuid:"@ + msg_id + "</a:MessageID><a:To s:mustUnderstand=\"1\">urn:schemas-xmlsoap-org:ws:2005:04:discovery</a:To></s:Header><s:Body><d:Hello><a:EndpointReference><a:Address>urn:uuid:"@ + state::uuid_text(uuid);
        text::lemma_has_tagged(head, "</a:Address></a:EndpointReference><d:Types>dn:NetworkVideoTransmitter</d:Types><d:Scopes>"@, scopes(cam, caps), "</d:Scopes><d:XAddrs>"@, Seq::empty(), "<d:Types>dn:NetworkVideoTransmitter</d:Types><d:Scopes>"@, "</d:Scopes>"@);
        assert(head + "</a:Address></a:EndpointReference><d:Types>dn:NetworkVideoTransmitter</d:Types><d:Scopes>"@ + scopes(cam, caps) + "</d:Scopes><d:XAddrs>"@ + Seq::empty() =~= head + "</a:Address></a:EndpointReference><d:Types>dn:NetworkVideoTransmitter</d:Types><d:Scopes>"@ + scopes(cam, caps) + "</d:Scopes><d:XAddrs>"@);
    }
    let n_3 = "<d:XAddrs>"@ + soap::escaped(service_address(authority, cam)) + "</d:XAddrs>"@;
    assert(text::has("<?xml version=\"1.0\" encoding=\"UTF-8\"?><s:Envelope xmlns:s=\"http://www.w3.org/2003/05/soap-envelope\" xmlns:a=\"http://schemas.xmlsoap.org/ws/2004/08/addressing\" xmlns:d=\"http://schemas.xmlsoap.org/ws/2005/04/discovery\" xmlns:dn=\"http://www.onvif.org/ver10/network/wsdl\"><s:Header><a:Action s:mustUnderstand=\"1\">http://schemas.xmlsoap.org/ws/2005/04/discovery/Hello</a:Action><a:MessageID>urn:uuid:"@ + msg_id + "</a:MessageID><a:To s:mustUnderstand=\"1\">urn:schemas-xmlsoap-org:ws:2005:04:discovery</a:To></s:Header><s:Body><d:Hello><a:EndpointReference><a:Address>urn:uuid:"@ + state::uuid_text(uuid) + "</a:Address></a:EndpointReference><d:Types>dn:NetworkVideoTransmitter</d:Types><d:Scopes>"@ + scopes(cam, caps) + "</d:Scopes><d:XAddrs>"@ + soap::escaped(service_address(authority, cam)) + "</d:XAddrs><d:MetadataVersion>1</d:MetadataVersion></d:Hello></s:Body></s:Envelope>"@, n_3)) by {
        reveal_strlit("</d:Scopes><d:XAddrs>");
        reveal_strlit("</d:XAddrs><d:MetadataVersion>1</d:MetadataVersion></d:Hello></s:Body></s:Envelope>");
        reveal_strlit("<d:XAddrs>");
        reveal_strlit("</d:XAddrs>");
        assert("</d:Scopes><d:XAddrs>"@.skip(11) =~= "<d:XAddrs>"@);
        assert("</d:XAddrs><d:MetadataVersion>1</d:MetadataVersion></d:Hello></s:Body></s:Envelope>"@.take(11) =~= "</d:XAddrs>"@);
        let head = "<?xml version=\"1.0\" encoding=\"UTF-8\"?><s:Envelope xmlns:s=\"http://www.w3.org/2003/05/soap-envelope\" xmlns:a=\"http://schemas.xmlsoap.org/ws/2004/08/addressing\" xmlns:d=\"http://schemas.xmlsoap.org/ws/2005/04/discovery\" xmlns:dn=\"http://www.onvif.org/ver10/network/wsdl\"><s:Header><a:Action s:mustUnderstand=\"1\">http://schemas.xmlsoap.org/ws/2005/04/discovery/Hello</a:Action><a:MessageID>urn:uuid:"@ + msg_id + "</a:MessageID><a:To s:mustUnderstand=\"1\">urn:schemas-xmlsoap-org:ws:2005:04:discovery</a:To></s:Header><s:Body><d:Hello><a:EndpointReference><a:Address>urn:uuid:"@ + state::uuid_text(uuid) + "</a:Address></a:EndpointReference><d:Types>dn:NetworkVideoTransmitter</d:Types><d:Scopes>"@ + scopes(cam, caps);
        text::lemma_has_tagged(head, "</d:Scopes><d:XAddrs>"@, soap::escaped(service_address(authority, cam)), "</d:XAddrs><d:MetadataVersion>1</d:MetadataVersion></d:Hello></s:Body></s:Envelope>"@, Seq::empty(), "<d:XAddrs>"@, "</d:XAddrs>"@);
        assert(head + "</d:Scopes><d:XAddrs>"@ + soap::escaped(service_address(authority, cam)) + "</d:XAddrs><d:MetadataVersion>1</d:MetadataVersion></d:Hello></s:Body></s:Envelope>"@ + Seq::empty() =~= head + "</d:Scopes><d:XAddrs>"@ + soap::escaped(service_address(authority, cam)) + "</d:XAddrs><d:MetadataVersion>1</d:MetadataVersion></d:Hello></s:Body></s:Envelope>"@);
    }
    let up_to_2 = "<?xml version=\"1.0\" encoding=\"UTF-8\"?><s:Envelope xmlns:s=\"http://www.w3.org/2003/05/soap-envelope\" xmlns:a=\"http://schemas.xmlsoap.org/ws/2004/08/addressing\" xmlns:d=\"http://schemas.xmlsoap.org/ws/2005/04/discovery\" xmlns:dn=\"http://www.onvif.org/ver10/network/wsdl\"><s:Header><a:Action s:mustUnderstand=\"1\">http://schemas.xmlsoap.org/ws/2005/04/discovery/Hello</a:Action><a:MessageID>urn:uuid:"@ + msg_id + "</a:MessageID><a:To s:mustUnderstand=\"1\">urn:schemas-xmlsoap-org:ws:2005:04:discovery</a:To></s:Header><s:Body><d:Hello><a:EndpointReference><a:Address>urn:uuid:"@;
    let up_to_3 = up_to_2 + state::uuid_text(uuid);
    text::lemma_has_before(up_to_2, state::uuid_text(uuid), n_0);
    let up_to_4 = up_to_3 + "</a:Address></a:EndpointReference><d:Types>dn:NetworkVideoTransmitter</d:Types><d:Scopes>"@;
    text::lemma_has_before(up_to_3, "</a:Address></a:EndpointReference><d:Types>dn:NetworkVideoTransmitter</d:Types><d:Scopes>"@, n_0);
    let up_to_5 = up_to_4 + scopes(cam, caps);
    text::lemma_has_before(up_to_4, scopes(cam, caps), n_0);
    text::lemma_has_before(up_to_4, scopes(cam, caps), n_1);
    let up_to_6 = up_to_5 + "</d:Scopes><d:XAddrs>"@;
    text::lemma_has_before(up_to_5, "</d:Scopes><d:XAddrs>"@, n_0);
    text::lemma_has_before(up_to_5, "</d:Scopes><d:XAddrs>"@, n_1);
    let up_to_7 = up_to_6 + soap::escaped(service_address(authority, cam));
    text::lemma_has_before(up_to_6, soap::escaped(service_address(authority, cam)), n_0);
    text::lemma_has_before(up_to_6, soap::escaped(service_address(authority, cam)), n_1);
    text::lemma_has_before(up_to_6, soap::escaped(service_address(authority, cam)), n_2);
    let up_to_8 = up_to_7 + "</d:XAddrs><d:MetadataVersion>1</d:MetadataVersion></d:Hello></s:Body></s:Envelope>"@;
    text::lemma_has_before(up_to_7, "</d:XAddrs><d:MetadataVersion>1</d:MetadataVersion></d:Hello></s:Body></s:Envelope>"@, n_0);
    text::lemma_has_before(up_to_7, "</d:XAddrs><d:MetadataVersion>1</d:MetadataVersion></d:Hello></s:Body></s:Envelope>"@, n_1);
    text::lemma_has_before(up_to_7, "</d:XAddrs><d:MetadataVersion>1</d:MetadataVersion></d:Hello></s:Body></s:Envelope>"@, n_2);
    assert(up_to_8 == hello(uuid, cam, caps, authority, msg_id));
}

/// A device that goes says goodbye, by its number.
pub proof fn law_devices_say_goodbye(uuid: Seq<u8>, msg_id: Seq<char>)
    ensures
        text::has(bye(uuid, msg_id), "/discovery/Bye</a:Action><a:MessageID>urn:uuid:"@ + msg_id + "</a:MessageID>"@),
        text::has(bye(uuid, msg_id), "<a:EndpointReference><a:Address>urn:uuid:"@ + state::uuid_text(uuid) + "</a:Address>"@),
{
    let n_0 = "/discovery/Bye</a:Action><a:MessageID>urn:uuid:"@ + msg_id + "</a:MessageID>"@;
    assert(text::has("<?xml version=\"1.0\" encoding=\"UTF-8\"?><s:Envelope xmlns:s=\"http://www.w3.org/2003/05/soap-envelope\" xmlns:a=\"http://schemas.xmlsoap.org/ws/2004/08/addressing\" xmlns:d=\"http://schemas.xmlsoap.org/ws/2005/04/discovery\"><s:Header><a:Action s:mustUnderstand=\"1\">http://schemas.xmlsoap.org/ws/2005/04/discovery/Bye</a:Action><a:MessageID>urn:uuid:"@ + msg_id + "</a:MessageID><a:To s:mustUnderstand=\"1\">urn:schemas-xmlsoap-org:ws:2005:04:discovery</a:To></s:Header><s:Body><d:Bye><a:EndpointReference><a:Address>urn:uuid:"@, n_0)) by {
        reveal_strlit("<?xml version=\"1.0\" encoding=\"UTF-8\"?><s:Envelope xmlns:s=\"http://www.w3.org/2003/05/soap-envelope\" xmlns:a=\"http://schemas.xmlsoap.org/ws/2004/08/addressing\" xmlns:d=\"http://schemas.xmlsoap.org/ws/2005/04/discovery\"><s:Header><a:Action s:mustUnderstand=\"1\">http://schemas.xmlsoap.org/ws/2005/04/discovery/Bye</a:Action><a:MessageID>urn:uuid:");
        reveal_strlit("</a:MessageID><a:To s:mustUnderstand=\"1\">urn:schemas-xmlsoap-org:ws:2005:04:discovery</a:To></s:Header><s:Body><d:Bye><a:EndpointReference><a:Address>urn:uuid:");
        reveal_strlit("/discovery/Bye</a:Action><a:MessageID>urn:uuid:");
        reveal_strlit("</a:MessageID>");
        assert("<?xml version=\"1.0\" encoding=\"UTF-8\"?><s:Envelope xmlns:s=\"http://www.w3.org/2003/05/soap-envelope\" xmlns:a=\"http://schemas.xmlsoap.org/ws/2004/08/addressing\" xmlns:d=\"http://schemas.xmlsoap.org/ws/2005/04/discovery\"><s:Header><a:Action s:mustUnderstand=\"1\">http://schemas.xmlsoap.org/ws/2005/04/discovery/Bye</a:Action><a:MessageID>urn:uuid:"@.skip(295) =~= "/discovery/Bye</a:Action><a:MessageID>urn:uuid:"@);
        assert("</a:MessageID><a:To s:mustUnderstand=\"1\">urn:schemas-xmlsoap-org:ws:2005:04:discovery</a:To></s:Header><s:Body><d:Bye><a:EndpointReference><a:Address>urn:uuid:"@.take(14) =~= "</a:MessageID>"@);
        let head = Seq::<char>::empty();
        text::lemma_has_tagged(head, "<?xml version=\"1.0\" encoding=\"UTF-8\"?><s:Envelope xmlns:s=\"http://www.w3.org/2003/05/soap-envelope\" xmlns:a=\"http://schemas.xmlsoap.org/ws/2004/08/addressing\" xmlns:d=\"http://schemas.xmlsoap.org/ws/2005/04/discovery\"><s:Header><a:Action s:mustUnderstand=\"1\">http://schemas.xmlsoap.org/ws/2005/04/discovery/Bye</a:Action><a:MessageID>urn:uuid:"@, msg_id, "</a:MessageID><a:To s:mustUnderstand=\"1\">urn:schemas-xmlsoap-org:ws:2005:04:discovery</a:To></s:Header><s:Body><d:Bye><a:EndpointReference><a:Address>urn:uuid:"@, Seq::empty(), "/discovery/Bye</a:Action><a:MessageID>urn:uuid:"@, "</a:MessageID>"@);
        assert(head + "<?xml version=\"1.0\" encoding=\"UTF-8\"?><s:Envelope xmlns:s=\"http://www.w3.org/2003/05/soap-envelope\" xmlns:a=\"http://schemas.xmlsoap.org/ws/2004/08/addressing\" xmlns:d=\"http://schemas.xmlsoap.org/ws/2005/04/discovery\"><s:Header><a:Action s:mustUnderstand=\"1\">http://schemas.xmlsoap.org/ws/2005/04/discovery/Bye</a:Action><a:MessageID>urn:uuid:"@ + msg_id + "</a:MessageID><a:To s:mustUnderstand=\"1\">urn:schemas-xmlsoap-org:ws:2005:04:discovery</a:To></s:Header><s:Body><d:Bye><a:EndpointReference><a:Address>urn:uuid:"@ + Seq::empty() =~= head + "<?xml version=\"1.0\" encoding=\"UTF-8\"?><s:Envelope xmlns:s=\"http://www.w3.org/2003/05/soap-envelope\" xmlns:a=\"http://schemas.xmlsoap.org/ws/2004/08/addressing\" xmlns:d=\"http://schemas.xmlsoap.org/ws/2005/04/discovery\"><s:Header><a:Action s:mustUnderstand=\"1\">http://schemas.xmlsoap.org/ws/2005/04/discovery/Bye</a:Action><a:MessageID>urn:uuid:"@ + msg_id + "</a:MessageID><a:To s:mustUnderstand=\"1\">urn:schemas-xmlsoap-org:ws:2005:04:discovery</a:To></s:Header><s:Body><d:Bye><a:EndpointReference><a:Address>urn:uuid:"@);
        assert(head + "<?xml version=\"1.0\" encoding=\"UTF-8\"?><s:Envelope xmlns:s=\"http://www.w3.org/2003/05/soap-envelope\" xmlns:a=\"http://schemas.xmlsoap.org/ws/2004/08/addressing\" xmlns:d=\"http://schemas.xmlsoap.org/ws/2005/04/discovery\"><s:Header><a:Action s:mustUnderstand=\"1\">http://schemas.xmlsoap.org/ws/2005/04/discovery/Bye</a:Action><a:MessageID>urn:uuid:"@ =~= "<?xml version=\"1.0\" encoding=\"UTF-8\"?><s:Envelope xmlns:s=\"http://www.w3.org/2003/05/soap-envelope\" xmlns:a=\"http://schemas.xmlsoap.org/ws/2004/08/addressing\" xmlns:d=\"http://schemas.xmlsoap.org/ws/2005/04/discovery\"><s:Header><a:Action s:mustUnderstand=\"1\">http://schemas.xmlsoap.org/ws/2005/04/discovery/Bye</a:Action><a:MessageID>urn:uuid:"@);
    }
    let n_1 = "<a:EndpointReference><a:Address>urn:uuid:"@ + state::uuid_text(uuid) + "</a:Address>"@;
    assert(text::has("<?xml version=\"1.0\" encoding=\"UTF-8\"?><s:Envelope xmlns:s=\"http://www.w3.org/2003/05/soap-envelope\" xmlns:a=\"http://schemas.xmlsoap.org/ws/2004/08/addressing\" xmlns:d=\"http://schemas.xmlsoap.org/ws/2005/04/discovery\"><s:Header><a:Action s:mustUnderstand=\"1\">http://schemas.xmlsoap.org/ws/2005/04/discovery/Bye</a:Action><a:MessageID>urn:uuid:"@ + msg_id + "</a:MessageID><a:To s:mustUnderstand=\"1\">urn:schemas-xmlsoap-org:ws:2005:04:discovery</a:To></s:Header><s:Body><d:Bye><a:EndpointReference><a:Address>urn:uuid:"@ + state::uuid_text(uuid) + "</a:Address></a:EndpointReference></d:Bye></s:Body></s:Envelope>"@, n_1)) by {
        reveal_strlit("</a:MessageID><a:To s:mustUnderstand=\"1\">urn:schemas-xmlsoap-org:ws:2005:04:discovery</a:To></s:Header><s:Body><d:Bye><a:EndpointReference><a:Address>urn:uuid:");
        reveal_strlit("</a:Address></a:EndpointReference></d:Bye></s:Body></s:Envelope>");
        reveal_strlit("<a:EndpointReference><a:Address>urn:uuid:");
        reveal_strlit("</a:Address>");
        assert("</a:MessageID><a:To s:mustUnderstand=\"1\">urn:schemas-xmlsoap-org:ws:2005:04:discovery</a:To></s:Header><s:Body><d:Bye><a:EndpointReference><a:Address>urn:uuid:"@.skip(118) =~= "<a:EndpointReference><a:Address>urn:uuid:"@);
        assert("</a:Address></a:EndpointReference></d:Bye></s:Body></s:Envelope>"@.take(12) =~= "</a:Address>"@);
        let head = "<?xml version=\"1.0\" encoding=\"UTF-8\"?><s:Envelope xmlns:s=\"http://www.w3.org/2003/05/soap-envelope\" xmlns:a=\"http://schemas.xmlsoap.org/ws/2004/08/addressing\" xmlns:d=\"http://schemas.xmlsoap.org/ws/2005/04/discovery\"><s:Header><a:Action s:mustUnderstand=\"1\">http://schemas.xmlsoap.org/ws/2005/04/discovery/Bye</a:Action><a:MessageID>urn:uuid:"@ + msg_id;
        text::lemma_has_tagged(head, "</a:MessageID><a:To s:mustUnderstand=\"1\">urn:schemas-xmlsoap-org:ws:2005:04:discovery</a:To></s:Header><s:Body><d:Bye><a:EndpointReference><a:Address>urn:uuid:"@, state::uuid_text(uuid), "</a:Address></a:EndpointReference></d:Bye></s:Body></s:Envelope>"@, Seq::empty(), "<a:EndpointReference><a:Address>urn:uuid:"@, "</a:Address>"@);
        assert(head + "</a:MessageID><a:To s:mustUnderstand=\"1\">urn:schemas-xmlsoap-org:ws:2005:04:discovery</a:To></s:Header><s:Body><d:Bye><a:EndpointReference><a:Address>urn:uuid:"@ + state::uuid_text(uuid) + "</a:Address></a:EndpointReference></d:Bye></s:Body></s:Envelope>"@ + Seq::empty() =~= head + "</a:MessageID><a:To s:mustUnderstand=\"1\">urn:schemas-xmlsoap-org:ws:2005:04:discovery</a:To></s:Header><s:Body><d:Bye><a:EndpointReference><a:Address>urn:uuid:"@ + state::uuid_text(uuid) + "</a:Address></a:EndpointReference></d:Bye></s:Body></s:Envelope>"@);
    }
    let up_to_2 = "<?xml version=\"1.0\" encoding=\"UTF-8\"?><s:Envelope xmlns:s=\"http://www.w3.org/2003/05/soap-envelope\" xmlns:a=\"http://schemas.xmlsoap.org/ws/2004/08/addressing\" xmlns:d=\"http://schemas.xmlsoap.org/ws/2005/04/discovery\"><s:Header><a:Action s:mustUnderstand=\"1\">http://schemas.xmlsoap.org/ws/2005/04/discovery/Bye</a:Action><a:MessageID>urn:uuid:"@ + msg_id + "</a:MessageID><a:To s:mustUnderstand=\"1\">urn:schemas-xmlsoap-org:ws:2005:04:discovery</a:To></s:Header><s:Body><d:Bye><a:EndpointReference><a:Address>urn:uuid:"@;
    let up_to_3 = up_to_2 + state::uuid_text(uuid);
    text::lemma_has_before(up_to_2, state::uuid_text(uuid), n_0);
    let up_to_4 = up_to_3 + "</a:Address></a:EndpointReference></d:Bye></s:Body></s:Envelope>"@;
    text::lemma_has_before(up_to_3, "</a:Address></a:EndpointReference></d:Bye></s:Body></s:Envelope>"@, n_0);
    assert(up_to_4 == bye(uuid, msg_id));
}

/// The number of a message is the text right behind the tag that is named after it, and
/// what stands in front of that tag does not matter.
pub proof fn law_message_numbers_stand_behind_their_tag(
    items: Seq<xml::XmlItemView>,
    content: Seq<u8>,
    name_len: nat,
    t: Seq<char>,
)
    requires
        items.len() > 1,
    ensures
        items[0].event == xml::XmlView::Start(content, name_len) && xml::local_part(
            xml::tag_name(content, name_len),
        ) == "MessageID"@ && items[1].event == xml::XmlView::Text(Some(t)) ==> id_from(items, false)
            == Some(t),
        items[0].event == xml::XmlView::Start(content, name_len) && xml::local_part(
            xml::tag_name(content, name_len),
        ) != "MessageID"@ ==> id_from(items, false) == id_from(items.drop_first(), false),
        items[0].event is Text || items[0].event is Other || items[0].event is End ==> id_from(
            items,
            false,
        ) == id_from(items.drop_first(), false),
        items[0].event is Eof || items[0].event is Bad ==> id_from(items, false) is None,
{
    assert(items.drop_first()[0] == items[1]);
    reveal_with_fuel(id_from, 3);
}

/// A device is announced as a video encoder for streaming, under its own name, and as
/// one that moves only if it does.
pub proof fn law_scopes_name_the_camera(cam: Seq<char>, caps: CameraCapabilities)
    ensures
        !(caps.pan_tilt || caps.zoom || caps.presets) ==> scopes(cam, caps)
            == "onvif://www.onvif.org/type/video_encoder onvif://www.onvif.org/Profile/Streaming onvif://www.onvif.org/name/"@
            + soap::escaped(cam)
            + " onvif://www.onvif.org/hardware/neolink onvif://www.onvif.org/location/neolink"@,
        caps.pan_tilt || caps.zoom || caps.presets ==> scopes(cam, caps)
            == "onvif://www.onvif.org/type/video_encoder onvif://www.onvif.org/Profile/Streaming onvif://www.onvif.org/name/"@
            + soap::escaped(cam)
            + " onvif://www.onvif.org/hardware/neolink onvif://www.onvif.org/location/neolink"@
            + " onvif://www.onvif.org/type/ptz"@,
{
    let plain =
        "onvif://www.onvif.org/type/video_encoder onvif://www.onvif.org/Profile/Streaming onvif://www.onvif.org/name/"@
        + soap::escaped(cam)
        + " onvif://www.onvif.org/hardware/neolink onvif://www.onvif.org/location/neolink"@;
    assert(plain + Seq::<char>::empty() =~= plain);
}

/// A message is a probe if it speaks of one and is not itself an answer to one.
pub proof fn law_answers_are_no_probes(before: Seq<char>, behind: Seq<char>, document: Seq<char>)
    ensures
        !probes(before + "ProbeMatches"@ + behind),
        text::has(document, "ProbeMatches"@) ==> !probes(document),
        !text::has(document, "Probe"@) ==> !probes(document),
        text::has(document, "Probe"@) && !text::has(document, "ProbeMatches"@) ==> probes(document),
{
    text::lemma_has_between(before, "ProbeMatches"@, behind);
}

} // verus!

//! The OSD half of the ONVIF Media service.
//!
//! Two things of a camera's general settings show up as an on-screen overlay:
//! its display name and the format its date stamp is drawn in. So this exposes
//! exactly two OSDs: a `Text` one for the name and a `DateAndTime` one for the
//! stamp. Both report a fixed `UpperLeft` position, which is where the camera
//! draws them.

use vstd::prelude::*;
use vstd::string::*;
use crate::onvif::capabilities::CameraCapabilities;
use crate::onvif::services::device;
use crate::onvif::services::device::{FaultBody, SystemGeneral};
use crate::onvif::soap;
use crate::onvif::soap::FaultCode;
use crate::text;
use crate::xml;
use crate::xml::{XmlAttribute, XmlEvent, XmlItem};

verus! {

/// Token for the OSD that draws the camera's name.
pub const TOKEN_NAME: &'static str = "osd_name";

/// Token for the OSD that draws the date and time.
pub const TOKEN_DATETIME: &'static str = "osd_datetime";

/// How a client is told the order of the fields of a date. A format that is not
/// known is still a date being drawn, so it is told as the most common one.
pub open spec fn onvif_format(reolink: Seq<char>) -> Seq<char> {
    let value = text::trimmed(reolink);
    if text::same_ignoring_ascii_case("DMY"@, value) {
        "dd/MM/yyyy"@
    } else if text::same_ignoring_ascii_case("MDY"@, value) {
        "MM/dd/yyyy"@
    } else if text::same_ignoring_ascii_case("YMD"@, value) {
        "yyyy/MM/dd"@
    } else {
        "dd/MM/yyyy"@
    }
}

/// What a camera is told to draw a date as, if it can.
pub open spec fn reolink_format(onvif: Seq<char>) -> Option<Seq<char>> {
    let value = text::trimmed(onvif);
    if text::same_ignoring_ascii_case("dd/MM/yyyy"@, value) {
        Some("DMY"@)
    } else if text::same_ignoring_ascii_case("MM/dd/yyyy"@, value) {
        Some("MDY"@)
    } else if text::same_ignoring_ascii_case("yyyy/MM/dd"@, value) {
        Some("YMD"@)
    } else {
        None
    }
}

/// How a client is told the order of the fields of a date.
pub fn reolink_to_onvif_date_format(reolink: &str) -> (format: &'static str)
    ensures
        format@ == onvif_format(reolink@),
{
    let value = text::trim(reolink);
    if text::same_ignoring_case("DMY", value.as_str()) {
        "dd/MM/yyyy"
    } else if text::same_ignoring_case("MDY", value.as_str()) {
        "MM/dd/yyyy"
    } else if text::same_ignoring_case("YMD", value.as_str()) {
        "yyyy/MM/dd"
    } else {
        "dd/MM/yyyy"
    }
}

/// What a camera is told to draw a date as, if it can.
pub fn onvif_to_reolink_date_format(onvif: &str) -> (format: Option<&'static str>)
    ensures
        (match format {
            Some(f) => Some(f@),
            None => None,
        }) == reolink_format(onvif@),
{
    let value = text::trim(onvif);
    if text::same_ignoring_case("dd/MM/yyyy", value.as_str()) {
        Some("DMY")
    } else if text::same_ignoring_case("MM/dd/yyyy", value.as_str()) {
        Some("MDY")
    } else if text::same_ignoring_case("yyyy/MM/dd", value.as_str()) {
        Some("YMD")
    } else {
        None
    }
}

proof fn lemma_formats_differ()
    ensures
        !text::same_ignoring_ascii_case("dd/MM/yyyy"@, "MM/dd/yyyy"@),
        !text::same_ignoring_ascii_case("dd/MM/yyyy"@, "yyyy/MM/dd"@),
        !text::same_ignoring_ascii_case("MM/dd/yyyy"@, "yyyy/MM/dd"@),
        text::trimmed("dd/MM/yyyy"@) == "dd/MM/yyyy"@,
        text::trimmed("MM/dd/yyyy"@) == "MM/dd/yyyy"@,
        text::trimmed("yyyy/MM/dd"@) == "yyyy/MM/dd"@,
{
    reveal_strlit("dd/MM/yyyy");
    reveal_strlit("MM/dd/yyyy");
    reveal_strlit("yyyy/MM/dd");
    let a = text::ascii_lower("dd/MM/yyyy"@);
    let b = text::ascii_lower("MM/dd/yyyy"@);
    let c = text::ascii_lower("yyyy/MM/dd"@);
    assert(a[0] == 'd' && b[0] == 'm' && c[0] == 'y');
}

/// Whatever a camera draws a date as, writing back what a client is told of it
/// keeps it, if the camera knows the format at all.
pub proof fn law_date_formats_round_trip(reolink: Seq<char>)
    requires
        text::same_ignoring_ascii_case("DMY"@, text::trimmed(reolink))
            || text::same_ignoring_ascii_case("MDY"@, text::trimmed(reolink))
            || text::same_ignoring_ascii_case("YMD"@, text::trimmed(reolink)),
    ensures
        reolink_format(onvif_format(reolink)) matches Some(back) && text::same_ignoring_ascii_case(
            back,
            text::trimmed(reolink),
        ),
{
    lemma_formats_differ();
}

/// The value of the first attribute whose local name is `token`.
pub open spec fn token_among(attributes: Seq<(Seq<u8>, Option<Seq<char>>)>) -> Option<
    Option<Seq<char>>,
>
    decreases attributes.len(),
{
    if attributes.len() == 0 {
        None
    } else if xml::local_part(attributes[0].0) == "token"@ {
        Some(attributes[0].1)
    } else {
        token_among(attributes.drop_first())
    }
}

/// The token that the first `OSD` element with one carries, among events.
pub open spec fn osd_token_from(items: Seq<xml::XmlItemView>) -> Option<Seq<char>>
    decreases items.len(),
{
    if items.len() == 0 {
        None
    } else {
        let rest = items.drop_first();
        match items[0].event {
            xml::XmlView::Eof | xml::XmlView::Bad(_) => None,
            xml::XmlView::Start(content, name_len) => if xml::local_part(
                xml::tag_name(content, name_len),
            ) == "OSD"@ {
                match token_among(xml::attributes_of(content, name_len)) {
                    Some(value) => value,
                    None => osd_token_from(rest),
                }
            } else {
                osd_token_from(rest)
            },
            xml::XmlView::Empty(content, name_len) => if xml::local_part(
                xml::tag_name(content, name_len),
            ) == "OSD"@ {
                match token_among(xml::attributes_of(content, name_len)) {
                    Some(value) => value,
                    None => osd_token_from(rest),
                }
            } else {
                osd_token_from(rest)
            },
            _ => osd_token_from(rest),
        }
    }
}

/// The value of the first attribute whose local name is `token`.
pub fn find_token(attributes: &Vec<XmlAttribute>) -> (found: Option<Option<String>>)
    ensures
        (match found {
            Some(value) => Some(text::opt_view(value)),
            None => None,
        }) == token_among(xml::attributes_view(attributes@)),
{
    let ghost all = xml::attributes_view(attributes@);
    let mut i: usize = 0;
    assert(all.skip(0) =~= all);
    while i < attributes.len()
        invariant
            i <= attributes@.len(),
            all == xml::attributes_view(attributes@),
            token_among(all) == token_among(all.skip(i as int)),
        decreases attributes@.len() - i,
    {
        let attribute = &attributes[i];
        assert(all.skip(i as int)[0] == (attribute.key@, text::opt_view(attribute.value)));
        assert(all.skip(i as int).drop_first() =~= all.skip(i + 1));
        if text::same(xml::local_name(attribute.key.as_slice()).as_str(), "token") {
            return Some(text::copy_opt(&attribute.value));
        }
        i += 1;
    }
    None
}

fn tag_token(tag: &xml::XmlTag) -> (found: Option<Option<String>>)
    requires
        tag.name_len <= tag.content@.len(),
    ensures
        (match found {
            Some(value) => Some(text::opt_view(value)),
            None => None,
        }) == (if xml::local_part(xml::tag_name(tag.content@, tag.name_len as nat)) == "OSD"@ {
            token_among(xml::attributes_of(tag.content@, tag.name_len as nat))
        } else {
            None
        }),
{
    if text::same(xml::tag_local_name(tag).as_str(), "OSD") {
        let attributes = xml::read_attributes(tag);
        find_token(&attributes)
    } else {
        None
    }
}

/// The token that the first `OSD` element with one carries, among events.
pub fn find_osd_token(items: &Vec<XmlItem>) -> (found: Option<String>)
    requires
        forall|i: int| 0 <= i < items@.len() ==> xml::name_fits((#[trigger] items@[i])@),
    ensures
        text::opt_view(found) == osd_token_from(xml::items_view(items@)),
{
    let ghost all = xml::items_view(items@);
    let mut i: usize = 0;
    assert(all.skip(0) =~= all);
    while i < items.len()
        invariant
            i <= items@.len(),
            all == xml::items_view(items@),
            forall|j: int| 0 <= j < items@.len() ==> xml::name_fits((#[trigger] items@[j])@),
            osd_token_from(all) == osd_token_from(all.skip(i as int)),
        decreases items@.len() - i,
    {
        assert(all.skip(i as int).first() == items@[i as int]@);
        assert(all.skip(i as int).drop_first() =~= all.skip(i + 1));
        match &items[i].event {
            XmlEvent::Eof => {
                return None;
            },
            XmlEvent::Bad(_) => {
                return None;
            },
            XmlEvent::Start(tag) => {
                match tag_token(tag) {
                    Some(value) => {
                        return value;
                    },
                    None => {},
                }
            },
            XmlEvent::Empty(tag) => {
                match tag_token(tag) {
                    Some(value) => {
                        return value;
                    },
                    None => {},
                }
            },
            _ => {},
        }
        i += 1;
    }
    None
}

/// Read the OSD token out of a `SetOSD` request: the `token` attribute of its
/// `OSD` element.
pub fn read_osd_token(body_xml: &str) -> (token: Option<String>)
    ensures
        text::opt_view(token) == osd_token_from(xml::xml_events(body_xml@)),
{
    let items = xml::read_events(body_xml);
    find_osd_token(&items)
}

/// The camera's configured display name, or the name it is known by here.
pub open spec fn name_shown(cam_name: Seq<char>, general: Option<SystemGeneral>) -> Seq<char> {
    match general {
        Some(g) => match g.device_name {
            Some(n) => if n@.len() > 0 {
                n@
            } else {
                cam_name
            },
            None => cam_name,
        },
        None => cam_name,
    }
}

/// What was read, if it was.
pub open spec fn if_read(general: Result<SystemGeneral, String>) -> Option<SystemGeneral> {
    match general {
        Ok(g) => Some(g),
        Err(_) => None,
    }
}

/// The camera's configured display name, falling back to the name it is known by
/// here when it has not answered.
pub fn display_name(cam_name: &str, general: &Result<SystemGeneral, String>) -> (name: String)
    ensures
        name@ == name_shown(cam_name@, if_read(*general)),
{
    match general {
        Ok(g) => {
            match &g.device_name {
                Some(n) => {
                    let chars = text::chars_of(n.as_str());
                    if chars.len() > 0 {
                        n.clone()
                    } else {
                        cam_name.to_owned()
                    }
                },
                None => cam_name.to_owned(),
            }
        },
        Err(_) => cam_name.to_owned(),
    }
}

/// The date format that a client is told.
pub open spec fn format_shown(general: Option<SystemGeneral>) -> Seq<char> {
    match general {
        Some(g) => match g.osd_format {
            Some(f) => onvif_format(f@),
            None => "dd/MM/yyyy"@,
        },
        None => "dd/MM/yyyy"@,
    }
}

fn shown_format(general: &Result<SystemGeneral, String>) -> (format: &'static str)
    ensures
        format@ == format_shown(if_read(*general)),
{
    match general {
        Ok(g) => {
            match &g.osd_format {
                Some(f) => reolink_to_onvif_date_format(f.as_str()),
                None => "dd/MM/yyyy",
            }
        },
        Err(_) => "dd/MM/yyyy",
    }
}

/// The OSD that draws the camera's name.
pub open spec fn name_osd(cam_name: Seq<char>, general: Option<SystemGeneral>, element: Seq<char>) -> Seq<char> {
    "<"@ + element + " token=\"osd_name\"><tt:VideoSourceConfigurationToken>vs_"@ + soap::escaped(cam_name) + "</tt:VideoSourceConfigurationToken><tt:Type>Text</tt:Type><tt:Position><tt:Type>UpperLeft</tt:Type></tt:Position><tt:TextString><tt:Type>Plain</tt:Type><tt:PlainText>"@ + soap::escaped(name_shown(cam_name, general)) + "</tt:PlainText></tt:TextString></"@ + element + ">"@
}

/// The OSD that draws the camera's name.
pub fn render_name_osd(cam_name: &str, general: &Result<SystemGeneral, String>, element: &str) -> (out: String)
    ensures
        out@ == name_osd(cam_name@, if_read(*general), element@),
{
    let mut out = "<".to_owned();
    out.append(element);
    out.append(" token=\"osd_name\"><tt:VideoSourceConfigurationToken>vs_");
    out.append(soap::xml_escape(cam_name).as_str());
    out.append("</tt:VideoSourceConfigurationToken><tt:Type>Text</tt:Type><tt:Position><tt:Type>UpperLeft</tt:Type></tt:Position><tt:TextString><tt:Type>Plain</tt:Type><tt:PlainText>");
    out.append(soap::xml_escape(display_name(cam_name, general).as_str()).as_str());
    out.append("</tt:PlainText></tt:TextString></");
    out.append(element);
    out.append(">");
    out
}

/// The OSD that draws the date and time.
pub open spec fn datetime_osd(cam_name: Seq<char>, general: Option<SystemGeneral>, element: Seq<char>) -> Seq<char> {
    "<"@ + element + " token=\"osd_datetime\"><tt:VideoSourceConfigurationToken>vs_"@ + soap::escaped(cam_name) + "</tt:VideoSourceConfigurationToken><tt:Type>Text</tt:Type><tt:Position><tt:Type>UpperLeft</tt:Type></tt:Position><tt:TextString><tt:Type>DateAndTime</tt:Type><tt:DateFormat>"@ + format_shown(general) + "</tt:DateFormat><tt:TimeFormat>HH:mm:ss</tt:TimeFormat></tt:TextString></"@ + element + ">"@
}

/// The OSD that draws the date and time.
pub fn render_datetime_osd(cam_name: &str, general: &Result<SystemGeneral, String>, element: &str) -> (out: String)
    ensures
        out@ == datetime_osd(cam_name@, if_read(*general), element@),
{
    let mut out = "<".to_owned();
    out.append(element);
    out.append(" token=\"osd_datetime\"><tt:VideoSourceConfigurationToken>vs_");
    out.append(soap::xml_escape(cam_name).as_str());
    out.append("</tt:VideoSourceConfigurationToken><tt:Type>Text</tt:Type><tt:Position><tt:Type>UpperLeft</tt:Type></tt:Position><tt:TextString><tt:Type>DateAndTime</tt:Type><tt:DateFormat>");
    out.append(shown_format(general));
    out.append("</tt:DateFormat><tt:TimeFormat>HH:mm:ss</tt:TimeFormat></tt:TextString></");
    out.append(element);
    out.append(">");
    out
}

/// What the OSDs may be set to.
pub open spec fn osd_options() -> Seq<char> {
    "<trt:GetOSDOptionsResponse><trt:OSDOptions><tt:MaximumNumberOfOSDs Total=\"2\" Image=\"0\" PlainText=\"1\" Date=\"0\" Time=\"0\" DateAndTime=\"1\"/><tt:Type>Text</tt:Type><tt:PositionOption>UpperLeft</tt:PositionOption><tt:TextOption><tt:Type>Plain</tt:Type><tt:Type>DateAndTime</tt:Type><tt:DateFormat>dd/MM/yyyy</tt:DateFormat><tt:DateFormat>MM/dd/yyyy</tt:DateFormat><tt:DateFormat>yyyy/MM/dd</tt:DateFormat><tt:TimeFormat>HH:mm:ss</tt:TimeFormat></tt:TextOption></trt:OSDOptions></trt:GetOSDOptionsResponse>"@
}

/// What the OSDs may be set to. There are two settable things: the name and the
/// date format.
pub fn render_osd_options() -> (xml: String)
    ensures
        xml@ == osd_options(),
{
    "<trt:GetOSDOptionsResponse><trt:OSDOptions><tt:MaximumNumberOfOSDs Total=\"2\" Image=\"0\" PlainText=\"1\" Date=\"0\" Time=\"0\" DateAndTime=\"1\"/><tt:Type>Text</tt:Type><tt:PositionOption>UpperLeft</tt:PositionOption><tt:TextOption><tt:Type>Plain</tt:Type><tt:Type>DateAndTime</tt:Type><tt:DateFormat>dd/MM/yyyy</tt:DateFormat><tt:DateFormat>MM/dd/yyyy</tt:DateFormat><tt:DateFormat>yyyy/MM/dd</tt:DateFormat><tt:TimeFormat>HH:mm:ss</tt:TimeFormat></tt:TextOption></trt:OSDOptions></trt:GetOSDOptionsResponse>".to_owned()
}

/// What a `SetOSD` makes of a camera's general settings, given the OSD it
/// names and the values it carries.
pub open spec fn osd_applied(
    general: Result<SystemGeneral, String>,
    token: Seq<char>,
    plain_text: Option<Seq<char>>,
    date_format: Option<Seq<char>>,
    result: Result<SystemGeneral, FaultBody>,
) -> bool {
    match general {
        Err(e) => result matches Err(f) && f@ == device::fault(FaultCode::Other, e@),
        Ok(g) => if token == TOKEN_NAME@ {
            match plain_text {
                None => result matches Err(f) && f@ == device::fault(
                    FaultCode::InvalidArgs,
                    "SetOSD on the name OSD needs a PlainText value"@,
                ),
                Some(name) => if text::trimmed(name).len() == 0 {
                    result matches Err(f) && f@ == device::fault(
                        FaultCode::InvalidArgs,
                        "The camera name cannot be empty"@,
                    )
                } else {
                    result matches Ok(new) && new == (SystemGeneral {
                        device_name: new.device_name,
                        ..g
                    }) && text::opt_view(new.device_name) == Some(name)
                },
            }
        } else if token == TOKEN_DATETIME@ {
            match date_format {
                None => result matches Err(f) && f@ == device::fault(
                    FaultCode::InvalidArgs,
                    "SetOSD on the date OSD needs a DateFormat value"@,
                ),
                Some(format) => match reolink_format(format) {
                    None => result matches Err(f) && f@ == device::fault(
                        FaultCode::InvalidArgs,
                        "Unsupported DateFormat '"@ + format
                            + "'; the camera only orders the fields, so it accepts dd/MM/yyyy, MM/dd/yyyy or yyyy/MM/dd"@,
                    ),
                    Some(reolink) => result matches Ok(new) && new == (SystemGeneral {
                        osd_format: new.osd_format,
                        ..g
                    }) && text::opt_view(new.osd_format) == Some(reolink),
                },
            }
        } else {
            result matches Err(f) && f@ == device::fault(
                FaultCode::InvalidArgs,
                "Unknown OSD token '"@ + token + "'"@,
            )
        },
    }
}

/// Apply a `SetOSD` to a camera's general settings. Everything else in them
/// stays as it is, so setting the name cannot clobber the clock and vice versa.
pub fn set_osd(
    general: Result<SystemGeneral, String>,
    token: &str,
    plain_text: Option<String>,
    date_format: Option<String>,
) -> (result: Result<SystemGeneral, FaultBody>)
    ensures
        osd_applied(
            general,
            token@,
            text::opt_view(plain_text),
            text::opt_view(date_format),
            result,
        ),
{
    let mut new: SystemGeneral = match general {
        Ok(g) => g,
        Err(e) => {
            return Err(device::other_fault(e));
        },
    };
    if text::same(token, TOKEN_NAME) {
        let name = match plain_text {
            Some(name) => name,
            None => {
                return Err(
                    FaultBody {
                        code: FaultCode::InvalidArgs,
                        reason: "SetOSD on the name OSD needs a PlainText value".to_owned(),
                    },
                );
            },
        };
        let chars = text::chars_of(text::trim(name.as_str()).as_str());
        if chars.len() == 0 {
            return Err(
                FaultBody {
                    code: FaultCode::InvalidArgs,
                    reason: "The camera name cannot be empty".to_owned(),
                },
            );
        }
        new.device_name = Some(name);
        return Ok(new);
    }
    if text::same(token, TOKEN_DATETIME) {
        let format = match date_format {
            Some(format) => format,
            None => {
                return Err(
                    FaultBody {
                        code: FaultCode::InvalidArgs,
                        reason: "SetOSD on the date OSD needs a DateFormat value".to_owned(),
                    },
                );
            },
        };
        let reolink: &str = match onvif_to_reolink_date_format(format.as_str()) {
            Some(reolink) => reolink,
            None => {
                return Err(
                    device::quoting_fault(
                        FaultCode::InvalidArgs,
                        "Unsupported DateFormat '",
                        format.as_str(),
                        "'; the camera only orders the fields, so it accepts dd/MM/yyyy, MM/dd/yyyy or yyyy/MM/dd",
                    ),
                );
            },
        };
        new.osd_format = Some(reolink.to_owned());
        return Ok(new);
    }
    Err(device::quoting_fault(FaultCode::InvalidArgs, "Unknown OSD token '", token, "'"))
}

/// What a `SetOSD` makes of a camera's general settings, given its document.
pub open spec fn osd_applied_by(
    general: Result<SystemGeneral, String>,
    token: Seq<char>,
    body_xml: Seq<char>,
    result: Result<SystemGeneral, FaultBody>,
) -> bool {
    osd_applied(
        general,
        token,
        xml::first_text(body_xml, "PlainText"@),
        xml::first_text(body_xml, "DateFormat"@),
        result,
    )
}

/// Apply the `SetOSD` of a document to a camera's general settings.
pub fn apply_set_osd(general: Result<SystemGeneral, String>, token: &str, body_xml: &str) -> (result:
    Result<SystemGeneral, FaultBody>)
    ensures
        osd_applied_by(general, token@, body_xml@, result),
{
    set_osd(
        general,
        token,
        xml::read_first_text_element(body_xml, "PlainText"),
        xml::read_first_text_element(body_xml, "DateFormat"),
    )
}

/// A name that was set is the name that is shown.
pub proof fn law_set_name_is_shown(
    general: Result<SystemGeneral, String>,
    plain_text: Option<Seq<char>>,
    date_format: Option<Seq<char>>,
    new: SystemGeneral,
    cam_name: Seq<char>,
)
    requires
        osd_applied(general, TOKEN_NAME@, plain_text, date_format, Ok(new)),
    ensures
        plain_text == Some(name_shown(cam_name, Some(new))),
{
}

proof fn lemma_orders_differ()
    ensures
        !text::same_ignoring_ascii_case("DMY"@, "MDY"@),
        !text::same_ignoring_ascii_case("DMY"@, "YMD"@),
        !text::same_ignoring_ascii_case("MDY"@, "YMD"@),
        text::trimmed("DMY"@) == "DMY"@,
        text::trimmed("MDY"@) == "MDY"@,
        text::trimmed("YMD"@) == "YMD"@,
        TOKEN_NAME@ != TOKEN_DATETIME@,
{
    reveal_strlit("DMY");
    reveal_strlit("MDY");
    reveal_strlit("YMD");
    reveal_strlit("osd_name");
    reveal_strlit("osd_datetime");
    let a = text::ascii_lower("DMY"@);
    let b = text::ascii_lower("MDY"@);
    let c = text::ascii_lower("YMD"@);
    assert(a[0] == 'd' && b[0] == 'm' && c[0] == 'y');
    assert(TOKEN_NAME@.len() != TOKEN_DATETIME@.len());
}

/// A date format that was set is the one that is shown, but for its case and the
/// white space around it.
pub proof fn law_set_format_is_shown(
    general: Result<SystemGeneral, String>,
    plain_text: Option<Seq<char>>,
    date_format: Option<Seq<char>>,
    new: SystemGeneral,
)
    requires
        osd_applied(general, TOKEN_DATETIME@, plain_text, date_format, Ok(new)),
    ensures
        date_format matches Some(format)
            && text::same_ignoring_ascii_case(format_shown(Some(new)), text::trimmed(format)),
{
    lemma_orders_differ();
}

/// What to write to a camera, if anything, and, if that succeeds, what to
/// answer.
#[derive(Debug)]
pub struct OsdAnswer {
    pub write: Option<SystemGeneral>,
    pub xml: String,
}

/// Whether a request is answered as it should be, without anything written.
pub open spec fn only_says(
    answer: Result<OsdAnswer, FaultBody>,
    expected: Result<Seq<char>, device::FaultView>,
) -> bool {
    match expected {
        Ok(body) => answer matches Ok(a) && a.write is None && a.xml@ == soap::envelope(
            body,
            soap::NS_ALL@,
        ),
        Err(fault) => answer matches Err(f) && f@ == fault,
    }
}

/// How requests that only read OSDs are answered, given the token that they
/// carry.
pub open spec fn osd_shown(
    cam_name: Seq<char>,
    general: Option<SystemGeneral>,
    action: Seq<char>,
    token: Option<Seq<char>>,
) -> Result<Seq<char>, device::FaultView> {
    if action == "GetOSDs"@ {
        Ok(
            "<trt:GetOSDsResponse>"@ + name_osd(cam_name, general, "trt:OSDs"@) + datetime_osd(
                cam_name,
                general,
                "trt:OSDs"@,
            ) + "</trt:GetOSDsResponse>"@,
        )
    } else if action == "GetOSD"@ {
        match token {
            None => Err(device::fault(FaultCode::InvalidArgs, "Missing OSDToken"@)),
            Some(token) => if token == TOKEN_NAME@ {
                Ok(
                    "<trt:GetOSDResponse>"@ + name_osd(cam_name, general, "trt:OSD"@)
                        + "</trt:GetOSDResponse>"@,
                )
            } else if token == TOKEN_DATETIME@ {
                Ok(
                    "<trt:GetOSDResponse>"@ + datetime_osd(cam_name, general, "trt:OSD"@)
                        + "</trt:GetOSDResponse>"@,
                )
            } else {
                Err(
                    device::fault(
                        FaultCode::InvalidArgs,
                        "Unknown OSD token '"@ + token + "'"@,
                    ),
                )
            },
        }
    } else if action == "GetOSDOptions"@ {
        Ok(osd_options())
    } else {
        Err(
            device::fault(
                FaultCode::ActionNotSupported,
                "OSD action '"@ + action + "' not supported"@,
            ),
        )
    }
}

/// How a camera without OSDs answers: with empty lists.
pub open spec fn osd_absent(action: Seq<char>) -> Result<Seq<char>, device::FaultView> {
    if action == "GetOSDs"@ {
        Ok("<trt:GetOSDsResponse/>"@)
    } else if action == "GetOSDOptions"@ {
        Ok("<trt:GetOSDOptionsResponse/>"@)
    } else {
        Err(device::fault(FaultCode::InvalidArgs, "This camera has no OSD configuration"@))
    }
}

/// Whether an OSD request is answered as it should be.
pub open spec fn osd_answered(
    cam_name: Seq<char>,
    caps: CameraCapabilities,
    general: Result<SystemGeneral, String>,
    action: Seq<char>,
    body_xml: Seq<char>,
    answer: Result<OsdAnswer, FaultBody>,
) -> bool {
    if !caps.osd {
        only_says(answer, osd_absent(action))
    } else if action == "SetOSD"@ {
        match osd_token_from(xml::xml_events(body_xml)) {
            None => only_says(
                answer,
                Err(
                    device::fault(
                        FaultCode::InvalidArgs,
                        "SetOSD needs an OSD element carrying a token attribute"@,
                    ),
                ),
            ),
            Some(token) => match answer {
                Ok(a) => a.write matches Some(new) && osd_applied_by(
                    general,
                    token,
                    body_xml,
                    Ok(new),
                ) && a.xml@ == soap::envelope("<trt:SetOSDResponse/>"@, soap::NS_ALL@),
                Err(f) => osd_applied_by(general, token, body_xml, Err(f)),
            },
        }
    } else {
        only_says(
            answer,
            osd_shown(
                cam_name,
                if_read(general),
                action,
                xml::first_text(body_xml, "OSDToken"@),
            ),
        )
    }
}

fn say(body: &str) -> (answer: Result<OsdAnswer, FaultBody>)
    ensures
        only_says(answer, Ok(body@)),
{
    Ok(OsdAnswer { write: None, xml: soap::wrap_envelope(body, soap::NS_ALL) })
}

/// Answer a request that only reads OSDs, given the token that it carries.
pub fn show(
    cam_name: &str,
    general: &Result<SystemGeneral, String>,
    action: &str,
    token: Option<String>,
) -> (answer: Result<OsdAnswer, FaultBody>)
    ensures
        only_says(
            answer,
            osd_shown(cam_name@, if_read(*general), action@, text::opt_view(token)),
        ),
{
    if text::same(action, "GetOSDs") {
        let mut body = "<trt:GetOSDsResponse>".to_owned();
        body.append(render_name_osd(cam_name, general, "trt:OSDs").as_str());
        body.append(render_datetime_osd(cam_name, general, "trt:OSDs").as_str());
        body.append("</trt:GetOSDsResponse>");
        return say(body.as_str());
    }
    if text::same(action, "GetOSD") {
        let token = match token {
            Some(token) => token,
            None => {
                return Err(
                    FaultBody {
                        code: FaultCode::InvalidArgs,
                        reason: "Missing OSDToken".to_owned(),
                    },
                );
            },
        };
        let mut body = "<trt:GetOSDResponse>".to_owned();
        if text::same(token.as_str(), TOKEN_NAME) {
            body.append(render_name_osd(cam_name, general, "trt:OSD").as_str());
        } else if text::same(token.as_str(), TOKEN_DATETIME) {
            body.append(render_datetime_osd(cam_name, general, "trt:OSD").as_str());
        } else {
            return Err(
                device::quoting_fault(
                    FaultCode::InvalidArgs,
                    "Unknown OSD token '",
                    token.as_str(),
                    "'",
                ),
            );
        }
        body.append("</trt:GetOSDResponse>");
        return say(body.as_str());
    }
    if text::same(action, "GetOSDOptions") {
        return say(render_osd_options().as_str());
    }
    Err(
        device::quoting_fault(
            FaultCode::ActionNotSupported,
            "OSD action '",
            action,
            "' not supported",
        ),
    )
}

/// Answer an OSD request. `general` holds the camera's general settings, or why
/// they could not be read.
pub fn dispatch(
    cam_name: &str,
    caps: &CameraCapabilities,
    general: Result<SystemGeneral, String>,
    action: &str,
    body_xml: &str,
) -> (answer: Result<OsdAnswer, FaultBody>)
    ensures
        osd_answered(cam_name@, *caps, general, action@, body_xml@, answer),
{
    if !caps.osd {
        if text::same(action, "GetOSDs") {
            return say("<trt:GetOSDsResponse/>");
        }
        if text::same(action, "GetOSDOptions") {
            return say("<trt:GetOSDOptionsResponse/>");
        }
        return Err(
            FaultBody {
                code: FaultCode::InvalidArgs,
                reason: "This camera has no OSD configuration".to_owned(),
            },
        );
    }
    if !text::same(action, "SetOSD") {
        return show(
            cam_name,
            &general,
            action,
            xml::read_first_text_element(body_xml, "OSDToken"),
        );
    }
    let token = match read_osd_token(body_xml) {
        Some(token) => token,
        None => {
            return Err(
                FaultBody {
                    code: FaultCode::InvalidArgs,
                    reason: "SetOSD needs an OSD element carrying a token attribute".to_owned(),
                },
            );
        },
    };
    match apply_set_osd(general, token.as_str(), body_xml) {
        Ok(new) => Ok(
            OsdAnswer {
                write: Some(new),
                xml: soap::wrap_envelope("<trt:SetOSDResponse/>", soap::NS_ALL),
            },
        ),
        Err(fault) => Err(fault),
    }
}

proof fn lemma_osd_actions()
    ensures
        "GetOSDs"@.len() == 7,
        "GetOSD"@.len() == 6,
        "GetOSDOptions"@.len() == 13,
        "SetOSD"@.len() == 6,
        "GetOSD"@ != "SetOSD"@,
{
    reveal_strlit("GetOSDs");
    reveal_strlit("GetOSD");
    reveal_strlit("GetOSDOptions");
    reveal_strlit("SetOSD");
    assert("GetOSD"@[0] != "SetOSD"@[0]);
}

/// The orders of day, month and year that a camera knows, and the formats that a
/// client knows, stand for each other: each letter of the order for its field. A
/// camera's order that is not known shows as day, month and year, and a client's
/// format that is not known is none.
pub proof fn law_formats_keep_the_order_of_the_fields(written: Seq<char>)
    ensures
        text::same_ignoring_ascii_case("DMY"@, text::trimmed(written)) ==> onvif_format(written)
            == "dd/MM/yyyy"@,
        text::same_ignoring_ascii_case("MDY"@, text::trimmed(written)) ==> onvif_format(written)
            == "MM/dd/yyyy"@,
        text::same_ignoring_ascii_case("YMD"@, text::trimmed(written)) ==> onvif_format(written)
            == "yyyy/MM/dd"@,
        text::same_ignoring_ascii_case("dd/MM/yyyy"@, text::trimmed(written)) ==> reolink_format(
            written,
        ) == Some("DMY"@),
        text::same_ignoring_ascii_case("MM/dd/yyyy"@, text::trimmed(written)) ==> reolink_format(
            written,
        ) == Some("MDY"@),
        text::same_ignoring_ascii_case("yyyy/MM/dd"@, text::trimmed(written)) ==> reolink_format(
            written,
        ) == Some("YMD"@),
        !text::same_ignoring_ascii_case("DMY"@, text::trimmed(written))
            && !text::same_ignoring_ascii_case("MDY"@, text::trimmed(written))
            && !text::same_ignoring_ascii_case("YMD"@, text::trimmed(written)) ==> onvif_format(
            written,
        ) == "dd/MM/yyyy"@,
        !text::same_ignoring_ascii_case("dd/MM/yyyy"@, text::trimmed(written))
            && !text::same_ignoring_ascii_case("MM/dd/yyyy"@, text::trimmed(written))
            && !text::same_ignoring_ascii_case("yyyy/MM/dd"@, text::trimmed(written))
            ==> reolink_format(written) is None,
{
    lemma_formats_differ();
    lemma_orders_differ();
}

/// The name that is shown is the one the camera has, or the one it is configured under
/// where it has none or was not read.
pub proof fn law_the_name_shown_is_the_camera_s(cam_name: Seq<char>, g: SystemGeneral)
    ensures
        name_shown(cam_name, None) == cam_name,
        g.device_name is None ==> name_shown(cam_name, Some(g)) == cam_name,
        g.device_name matches Some(n) ==> name_shown(cam_name, Some(g)) == (if n@.len() == 0 {
            cam_name
        } else {
            n@
        }),
        format_shown(None) == "dd/MM/yyyy"@,
        g.osd_format is None ==> format_shown(Some(g)) == "dd/MM/yyyy"@,
        g.osd_format matches Some(f) ==> format_shown(Some(g)) == onvif_format(f@),
{
}

/// The name and the date are displays of their own, each under its own token, on the
/// camera's own sensor, with the name and the format that are shown.
pub proof fn law_displays_show_name_and_date(
    cam_name: Seq<char>,
    general: Option<SystemGeneral>,
    element: Seq<char>,
)
    ensures
        text::has(name_osd(cam_name, general, element), " token=\"osd_name\"><tt:VideoSourceConfigurationToken>vs_"@ + soap::escaped(cam_name) + "</tt:VideoSourceConfigurationToken>"@),
        text::has(name_osd(cam_name, general, element), "<tt:PlainText>"@ + soap::escaped(name_shown(cam_name, general)) + "</tt:PlainText>"@),
        text::has(datetime_osd(cam_name, general, element), " token=\"osd_datetime\"><tt:VideoSourceConfigurationToken>vs_"@ + soap::escaped(cam_name) + "</tt:VideoSourceConfigurationToken>"@),
        text::has(datetime_osd(cam_name, general, element), "<tt:DateFormat>"@ + format_shown(general) + "</tt:DateFormat>"@),
{
    {
        reveal_strlit("</tt:VideoSourceConfigurationToken>");
        reveal_strlit(" token=\"osd_name\"><tt:VideoSourceConfigurationToken>vs_");
        reveal_strlit("</tt:VideoSourceConfigurationToken><tt:Type>Text</tt:Type><tt:Position><tt:Type>UpperLeft</tt:Type></tt:Position><tt:TextString><tt:Type>Plain</tt:Type><tt:PlainText>");
        assert(" token=\"osd_name\"><tt:VideoSourceConfigurationToken>vs_"@.skip(0) =~= " token=\"osd_name\"><tt:VideoSourceConfigurationToken>vs_"@);
        assert("</tt:VideoSourceConfigurationToken><tt:Type>Text</tt:Type><tt:Position><tt:Type>UpperLeft</tt:Type></tt:Position><tt:TextString><tt:Type>Plain</tt:Type><tt:PlainText>"@.take(35) =~= "</tt:VideoSourceConfigurationToken>"@);
        let head = "<"@ + element;
        let tail = soap::escaped(name_shown(cam_name, general)) + "</tt:PlainText></tt:TextString></"@ + element + ">"@;
        let value = soap::escaped(cam_name);
        assert(name_osd(cam_name, general, element) =~= head + " token=\"osd_name\"><tt:VideoSourceConfigurationToken>vs_"@ + value + "</tt:VideoSourceConfigurationToken><tt:Type>Text</tt:Type><tt:Position><tt:Type>UpperLeft</tt:Type></tt:Position><tt:TextString><tt:Type>Plain</tt:Type><tt:PlainText>"@ + tail);
        text::lemma_has_tagged(head, " token=\"osd_name\"><tt:VideoSourceConfigurationToken>vs_"@, value, "</tt:VideoSourceConfigurationToken><tt:Type>Text</tt:Type><tt:Position><tt:Type>UpperLeft</tt:Type></tt:Position><tt:TextString><tt:Type>Plain</tt:Type><tt:PlainText>"@, tail, " token=\"osd_name\"><tt:VideoSourceConfigurationToken>vs_"@, "</tt:VideoSourceConfigurationToken>"@);
    }
    {
        reveal_strlit("</tt:PlainText></tt:TextString></");
        reveal_strlit("</tt:PlainText>");
        reveal_strlit("</tt:VideoSourceConfigurationToken><tt:Type>Text</tt:Type><tt:Position><tt:Type>UpperLeft</tt:Type></tt:Position><tt:TextString><tt:Type>Plain</tt:Type><tt:PlainText>");
        reveal_strlit("<tt:PlainText>");
        assert("</tt:VideoSourceConfigurationToken><tt:Type>Text</tt:Type><tt:Position><tt:Type>UpperLeft</tt:Type></tt:Position><tt:TextString><tt:Type>Plain</tt:Type><tt:PlainText>"@.skip(152) =~= "<tt:PlainText>"@);
        assert("</tt:PlainText></tt:TextString></"@.take(15) =~= "</tt:PlainText>"@);
        let head = "<"@ + element + " token=\"osd_name\"><tt:VideoSourceConfigurationToken>vs_"@ + soap::escaped(cam_name);
        let tail = element + ">"@;
        let value = soap::escaped(name_shown(cam_name, general));
        assert(name_osd(cam_name, general, element) =~= head + "</tt:VideoSourceConfigurationToken><tt:Type>Text</tt:Type><tt:Position><tt:Type>UpperLeft</tt:Type></tt:Position><tt:TextString><tt:Type>Plain</tt:Type><tt:PlainText>"@ + value + "</tt:PlainText></tt:TextString></"@ + tail);
        text::lemma_has_tagged(head, "</tt:VideoSourceConfigurationToken><tt:Type>Text</tt:Type><tt:Position><tt:Type>UpperLeft</tt:Type></tt:Position><tt:TextString><tt:Type>Plain</tt:Type><tt:PlainText>"@, value, "</tt:PlainText></tt:TextString></"@, tail, "<tt:PlainText>"@, "</tt:PlainText>"@);
    }
    {
        reveal_strlit("</tt:VideoSourceConfigurationToken>");
        reveal_strlit("</tt:VideoSourceConfigurationToken><tt:Type>Text</tt:Type><tt:Position><tt:Type>UpperLeft</tt:Type></tt:Position><tt:TextString><tt:Type>DateAndTime</tt:Type><tt:DateFormat>");
        reveal_strlit(" token=\"osd_datetime\"><tt:VideoSourceConfigurationToken>vs_");
        assert(" token=\"osd_datetime\"><tt:VideoSourceConfigurationToken>vs_"@.skip(0) =~= " token=\"osd_datetime\"><tt:VideoSourceConfigurationToken>vs_"@);
        assert("</tt:VideoSourceConfigurationToken><tt:Type>Text</tt:Type><tt:Position><tt:Type>UpperLeft</tt:Type></tt:Position><tt:TextString><tt:Type>DateAndTime</tt:Type><tt:DateFormat>"@.take(35) =~= "</tt:VideoSourceConfigurationToken>"@);
        let head = "<"@ + element;
        let tail = format_shown(general) + "</tt:DateFormat><tt:TimeFormat>HH:mm:ss</tt:TimeFormat></tt:TextString></"@ + element + ">"@;
        let value = soap::escaped(cam_name);
        assert(datetime_osd(cam_name, general, element) =~= head + " token=\"osd_datetime\"><tt:VideoSourceConfigurationToken>vs_"@ + value + "</tt:VideoSourceConfigurationToken><tt:Type>Text</tt:Type><tt:Position><tt:Type>UpperLeft</tt:Type></tt:Position><tt:TextString><tt:Type>DateAndTime</tt:Type><tt:DateFormat>"@ + tail);
        text::lemma_has_tagged(head, " token=\"osd_datetime\"><tt:VideoSourceConfigurationToken>vs_"@, value, "</tt:VideoSourceConfigurationToken><tt:Type>Text</tt:Type><tt:Position><tt:Type>UpperLeft</tt:Type></tt:Position><tt:TextString><tt:Type>DateAndTime</tt:Type><tt:DateFormat>"@, tail, " token=\"osd_datetime\"><tt:VideoSourceConfigurationToken>vs_"@, "</tt:VideoSourceConfigurationToken>"@);
    }
    {
        reveal_strlit("<tt:DateFormat>");
        reveal_strlit("</tt:DateFormat>");
        reveal_strlit("</tt:DateFormat><tt:TimeFormat>HH:mm:ss</tt:TimeFormat></tt:TextString></");
        reveal_strlit("</tt:VideoSourceConfigurationToken><tt:Type>Text</tt:Type><tt:Position><tt:Type>UpperLeft</tt:Type></tt:Position><tt:TextString><tt:Type>DateAndTime</tt:Type><tt:DateFormat>");
        assert("</tt:VideoSourceConfigurationToken><tt:Type>Text</tt:Type><tt:Position><tt:Type>UpperLeft</tt:Type></tt:Position><tt:TextString><tt:Type>DateAndTime</tt:Type><tt:DateFormat>"@.skip(158) =~= "<tt:DateFormat>"@);
        assert("</tt:DateFormat><tt:TimeFormat>HH:mm:ss</tt:TimeFormat></tt:TextString></"@.take(16) =~= "</tt:DateFormat>"@);
        let head = "<"@ + element + " token=\"osd_datetime\"><tt:VideoSourceConfigurationToken>vs_"@ + soap::escaped(cam_name);
        let tail = element + ">"@;
        let value = format_shown(general);
        assert(datetime_osd(cam_name, general, element) =~= head + "</tt:VideoSourceConfigurationToken><tt:Type>Text</tt:Type><tt:Position><tt:Type>UpperLeft</tt:Type></tt:Position><tt:TextString><tt:Type>DateAndTime</tt:Type><tt:DateFormat>"@ + value + "</tt:DateFormat><tt:TimeFormat>HH:mm:ss</tt:TimeFormat></tt:TextString></"@ + tail);
        text::lemma_has_tagged(head, "</tt:VideoSourceConfigurationToken><tt:Type>Text</tt:Type><tt:Position><tt:Type>UpperLeft</tt:Type></tt:Position><tt:TextString><tt:Type>DateAndTime</tt:Type><tt:DateFormat>"@, value, "</tt:DateFormat><tt:TimeFormat>HH:mm:ss</tt:TimeFormat></tt:TextString></"@, tail, "<tt:DateFormat>"@, "</tt:DateFormat>"@);
    }
}

/// Setting a display changes what that display shows and nothing else of the camera:
/// the name for the one, the order of the date for the other. An empty name, a format
/// that no camera knows, a value that is missing and a token that is not known are
/// refused.
pub proof fn law_setting_a_display_changes_it_alone(
    g: SystemGeneral,
    token: Seq<char>,
    plain_text: Option<Seq<char>>,
    date_format: Option<Seq<char>>,
    result: Result<SystemGeneral, FaultBody>,
)
    requires
        osd_applied(Ok(g), token, plain_text, date_format, result),
    ensures
        (token == "osd_name"@ && plain_text is Some && text::trimmed(plain_text->0).len() > 0) ==> (
        result matches Ok(new) && text::opt_view(new.device_name) == plain_text && new == (
        SystemGeneral { device_name: new.device_name, ..g })),
        (token == "osd_name"@ && (plain_text is None || text::trimmed(plain_text->0).len() == 0))
            ==> (result matches Err(f) && f@.code == FaultCode::InvalidArgs),
        (token == "osd_datetime"@ && date_format is Some && reolink_format(date_format->0) is Some)
            ==> (result matches Ok(new) && text::opt_view(new.osd_format) == reolink_format(
            date_format->0,
        ) && new == (SystemGeneral { osd_format: new.osd_format, ..g })),
        (token == "osd_datetime"@ && (date_format is None || reolink_format(date_format->0)
            is None)) ==> (result matches Err(f) && f@.code == FaultCode::InvalidArgs),
        (token != "osd_name"@ && token != "osd_datetime"@) ==> (result matches Err(f) && f@.code
            == FaultCode::InvalidArgs && f@.reason == "Unknown OSD token '"@ + token + "'"@),
{
    lemma_orders_differ();
}

/// A display is shown by its own token, and all of them are listed together.
pub proof fn law_displays_are_shown_by_token(
    cam_name: Seq<char>,
    general: Option<SystemGeneral>,
    token: Seq<char>,
)
    ensures
        osd_shown(cam_name, general, "GetOSD"@, Some("osd_name"@)) == Ok::<
            Seq<char>,
            device::FaultView,
        >(
            "<trt:GetOSDResponse>"@ + name_osd(cam_name, general, "trt:OSD"@)
                + "</trt:GetOSDResponse>"@,
        ),
        osd_shown(cam_name, general, "GetOSD"@, Some("osd_datetime"@)) == Ok::<
            Seq<char>,
            device::FaultView,
        >(
            "<trt:GetOSDResponse>"@ + datetime_osd(cam_name, general, "trt:OSD"@)
                + "</trt:GetOSDResponse>"@,
        ),
        token != "osd_name"@ && token != "osd_datetime"@ ==> (osd_shown(
            cam_name,
            general,
            "GetOSD"@,
            Some(token),
        ) matches Err(f) && f.code == FaultCode::InvalidArgs),
        osd_shown(cam_name, general, "GetOSD"@, None) matches Err(f) && f.code
            == FaultCode::InvalidArgs,
        osd_shown(cam_name, general, "GetOSDs"@, None) == Ok::<Seq<char>, device::FaultView>(
            "<trt:GetOSDsResponse>"@ + name_osd(cam_name, general, "trt:OSDs"@) + datetime_osd(
                cam_name,
                general,
                "trt:OSDs"@,
            ) + "</trt:GetOSDsResponse>"@,
        ),
        osd_absent("GetOSDs"@) == Ok::<Seq<char>, device::FaultView>("<trt:GetOSDsResponse/>"@),
        osd_absent("SetOSD"@) matches Err(f) && f.code == FaultCode::InvalidArgs,
{
    lemma_osd_actions();
    lemma_orders_differ();
}

/// The token of a display that is set is the attribute of that name on the first element
/// that is a display and has one.
pub proof fn law_tokens_are_read_from_the_display(
    items: Seq<xml::XmlItemView>,
    content: Seq<u8>,
    name_len: nat,
    attributes: Seq<(Seq<u8>, Option<Seq<char>>)>,
    key: Seq<u8>,
    value: Option<Seq<char>>,
)
    requires
        items.len() > 0,
        items[0].event == xml::XmlView::Start(content, name_len) || items[0].event
            == xml::XmlView::Empty(content, name_len),
    ensures
        xml::local_part(xml::tag_name(content, name_len)) == "OSD"@ && token_among(
            xml::attributes_of(content, name_len),
        ) is Some ==> osd_token_from(items) == token_among(
            xml::attributes_of(content, name_len),
        )->0,
        xml::local_part(xml::tag_name(content, name_len)) != "OSD"@ ==> osd_token_from(items)
            == osd_token_from(items.drop_first()),
        xml::local_part(key) == "token"@ ==> token_among(seq![(key, value)] + attributes) == Some(
            value,
        ),
        xml::local_part(key) != "token"@ ==> token_among(seq![(key, value)] + attributes)
            == token_among(attributes),
        token_among(Seq::empty()) is None,
{
    let longer = seq![(key, value)] + attributes;
    assert(longer[0] == (key, value));
    assert(longer.drop_first() =~= attributes);
}

/// A camera without displays says so, or shows none, and changes none.
pub proof fn law_cameras_without_displays_change_none(
    cam_name: Seq<char>,
    caps: CameraCapabilities,
    general: Result<SystemGeneral, String>,
    action: Seq<char>,
    body_xml: Seq<char>,
    answer: Result<OsdAnswer, FaultBody>,
)
    requires
        osd_answered(cam_name, caps, general, action, body_xml, answer),
    ensures
        !caps.osd ==> (answer matches Ok(a) ==> a.write is None),
        !caps.osd && action == "SetOSD"@ ==> answer is Err,
        action != "SetOSD"@ ==> (answer matches Ok(a) ==> a.write is None),
        action == "SetOSD"@ && caps.osd ==> (answer matches Ok(a) ==> a.write is Some),
        caps.osd && action == "SetOSD"@ && osd_token_from(xml::xml_events(body_xml)) is None
            ==> answer is Err,
        (caps.osd && action == "SetOSD"@ && osd_token_from(xml::xml_events(body_xml)) is Some)
            ==> (answer matches Ok(a) ==> osd_applied(
            general,
            osd_token_from(xml::xml_events(body_xml))->0,
            xml::first_text(body_xml, "PlainText"@),
            xml::first_text(body_xml, "DateFormat"@),
            Ok(a.write->0),
        )),
{
    lemma_osd_actions();
}

} // verus!

//! ONVIF PTZ service: what a client's moves and presets become on a camera.
//!
//! Reolink cameras have no absolute pan/tilt coordinates, so
//! `AbsoluteMove{PanTilt}` is answered with the fault that continuous-only
//! devices are meant to give. Everything this service describes is filtered
//! through the capabilities of the camera, so a fixed-lens camera does not
//! advertise a zoom space and a mount with no motor does not advertise a
//! pan/tilt one.

use vstd::prelude::*;
use vstd::string::*;
use crate::camera::Direction;
use crate::onvif::capabilities::CameraCapabilities;
use crate::onvif::services::device;
use crate::onvif::services::device::FaultBody;
use crate::onvif::soap;
use crate::onvif::soap::FaultCode;
use crate::onvif::state;
use crate::text;
use crate::time;
use crate::time::Timestamp;
use crate::xml;
use crate::xml::{XmlAttribute, XmlEvent, XmlItem};

verus! {

/// Reolink's preset table is 64 slots wide (ids 0..=63).
pub const MAX_PRESETS: u8 = 64;

/// The preset slot that the home position maps onto. There is no distinct home
/// position, only a flat preset table, so home is a convention.
pub const HOME_PRESET_ID: u8 = 0;

/// How a component of a velocity stands: whether it is large enough to matter,
/// whether it is above zero, and whether it is zero.
#[derive(Clone, Copy, PartialEq, Eq, Structural, Debug)]
pub struct Axis {
    pub matters: bool,
    pub positive: bool,
    pub zero: bool,
}

/// The direction of a movement: a diagonal if both axes matter, and none if
/// neither does.
pub open spec fn direction_of(pan: Axis, tilt: Axis) -> Option<Direction> {
    if pan.matters && tilt.matters {
        Some(
            match (pan.positive, tilt.positive) {
                (true, true) => Direction::RightUp,
                (true, false) => Direction::RightDown,
                (false, true) => Direction::LeftUp,
                (false, false) => Direction::LeftDown,
            },
        )
    } else if pan.matters {
        Some(if pan.positive {
            Direction::Right
        } else {
            Direction::Left
        })
    } else if tilt.matters {
        Some(if tilt.positive {
            Direction::Up
        } else {
            Direction::Down
        })
    } else {
        None
    }
}

/// Choose a direction from a velocity vector.
pub fn pick_direction(pan: Axis, tilt: Axis) -> (direction: Option<Direction>)
    ensures
        direction == direction_of(pan, tilt),
{
    if pan.matters && tilt.matters {
        if pan.positive {
            if tilt.positive {
                Some(Direction::RightUp)
            } else {
                Some(Direction::RightDown)
            }
        } else {
            if tilt.positive {
                Some(Direction::LeftUp)
            } else {
                Some(Direction::LeftDown)
            }
        }
    } else if pan.matters {
        if pan.positive {
            Some(Direction::Right)
        } else {
            Some(Direction::Left)
        }
    } else if tilt.matters {
        if tilt.positive {
            Some(Direction::Up)
        } else {
            Some(Direction::Down)
        }
    } else {
        None
    }
}

/// The components of a movement as a request writes them: nothing where it does
/// not.
#[derive(Debug)]
pub struct Velocity {
    pub pan: String,
    pub tilt: String,
    pub zoom: String,
}

/// The components of a movement as sequences.
#[verifier::ext_equal]
pub struct VelocityView {
    pub pan: Seq<char>,
    pub tilt: Seq<char>,
    pub zoom: Seq<char>,
}

impl View for Velocity {
    type V = VelocityView;

    open spec fn view(&self) -> VelocityView {
        VelocityView { pan: self.pan@, tilt: self.tilt@, zoom: self.zoom@ }
    }
}

/// A movement without components.
pub open spec fn no_velocity() -> VelocityView {
    VelocityView { pan: Seq::empty(), tilt: Seq::empty(), zoom: Seq::empty() }
}

/// The components that the attributes of a `PanTilt` element set.
pub open spec fn with_pan_tilt(
    attributes: Seq<(Seq<u8>, Option<Seq<char>>)>,
    v: VelocityView,
) -> VelocityView
    decreases attributes.len(),
{
    if attributes.len() == 0 {
        v
    } else {
        let before = with_pan_tilt(attributes.drop_last(), v);
        let key = xml::text_or_empty(attributes.last().0);
        let value = xml::text_of_event(attributes.last().1);
        if key == "x"@ {
            VelocityView { pan: value, ..before }
        } else if key == "y"@ {
            VelocityView { tilt: value, ..before }
        } else {
            before
        }
    }
}

/// The component that the attributes of a `Zoom` element set.
pub open spec fn with_zoom(
    attributes: Seq<(Seq<u8>, Option<Seq<char>>)>,
    v: VelocityView,
) -> VelocityView
    decreases attributes.len(),
{
    if attributes.len() == 0 {
        v
    } else {
        let before = with_zoom(attributes.drop_last(), v);
        if xml::text_or_empty(attributes.last().0) == "x"@ {
            VelocityView { zoom: xml::text_of_event(attributes.last().1), ..before }
        } else {
            before
        }
    }
}

/// The components that a tag sets, if it stands inside the wrapper.
pub open spec fn with_tag(content: Seq<u8>, name_len: nat, inside: bool, v: VelocityView) -> VelocityView {
    let local = xml::local_part(xml::tag_name(content, name_len));
    let attributes = xml::attributes_of(content, name_len);
    if inside && local == "PanTilt"@ {
        with_pan_tilt(attributes, v)
    } else if inside && local == "Zoom"@ {
        with_zoom(attributes, v)
    } else {
        v
    }
}

/// The components found among events, inside an element of this local name.
pub open spec fn velocity_from(
    items: Seq<xml::XmlItemView>,
    wrapper: Seq<char>,
    inside: bool,
    v: VelocityView,
) -> VelocityView
    decreases items.len(),
{
    if items.len() == 0 {
        v
    } else {
        let rest = items.drop_first();
        match items[0].event {
            xml::XmlView::Eof | xml::XmlView::Bad(_) => v,
            xml::XmlView::Start(content, name_len) => {
                let now = inside || xml::local_part(xml::tag_name(content, name_len)) == wrapper;
                velocity_from(rest, wrapper, now, with_tag(content, name_len, now, v))
            },
            // An element that closes itself holds nothing, so it opens no wrapper.
            xml::XmlView::Empty(content, name_len) => velocity_from(
                rest,
                wrapper,
                inside,
                with_tag(content, name_len, inside, v),
            ),
            xml::XmlView::End(name) => velocity_from(
                rest,
                wrapper,
                inside && xml::local_part(name) != wrapper,
                v,
            ),
            _ => velocity_from(rest, wrapper, inside, v),
        }
    }
}

/// Take the pan and tilt of a velocity from the attributes of an element.
pub fn set_pan_tilt(attributes: &Vec<XmlAttribute>, v: Velocity) -> (out: Velocity)
    ensures
        out@ == with_pan_tilt(xml::attributes_view(attributes@), v@),
{
    let ghost all = xml::attributes_view(attributes@);
    let ghost start = v@;
    let mut out = v;
    let mut i: usize = 0;
    assert(all.take(0) =~= Seq::empty());
    while i < attributes.len()
        invariant
            i <= attributes@.len(),
            all == xml::attributes_view(attributes@),
            out@ == with_pan_tilt(all.take(i as int), start),
        decreases attributes@.len() - i,
    {
        assert(all.take(i + 1).drop_last() =~= all.take(i as int));
        let attribute = &attributes[i];
        assert(all.take(i + 1).last() == (attribute.key@, text::opt_view(attribute.value)));
        let key = xml::name_text(attribute.key.as_slice());
        if text::same(key.as_str(), "x") {
            out.pan = xml::event_text(&attribute.value);
        } else if text::same(key.as_str(), "y") {
            out.tilt = xml::event_text(&attribute.value);
        }
        i += 1;
    }
    assert(all.take(i as int) =~= all);
    out
}

/// Take the zoom of a velocity from the attributes of an element.
pub fn set_zoom(attributes: &Vec<XmlAttribute>, v: Velocity) -> (out: Velocity)
    ensures
        out@ == with_zoom(xml::attributes_view(attributes@), v@),
{
    let ghost all = xml::attributes_view(attributes@);
    let ghost start = v@;
    let mut out = v;
    let mut i: usize = 0;
    assert(all.take(0) =~= Seq::empty());
    while i < attributes.len()
        invariant
            i <= attributes@.len(),
            all == xml::attributes_view(attributes@),
            out@ == with_zoom(all.take(i as int), start),
        decreases attributes@.len() - i,
    {
        assert(all.take(i + 1).drop_last() =~= all.take(i as int));
        let attribute = &attributes[i];
        assert(all.take(i + 1).last() == (attribute.key@, text::opt_view(attribute.value)));
        let key = xml::name_text(attribute.key.as_slice());
        if text::same(key.as_str(), "x") {
            out.zoom = xml::event_text(&attribute.value);
        }
        i += 1;
    }
    assert(all.take(i as int) =~= all);
    out
}

fn set_by_tag(tag: &xml::XmlTag, inside: bool, v: Velocity) -> (out: Velocity)
    requires
        tag.name_len <= tag.content@.len(),
    ensures
        out@ == with_tag(tag.content@, tag.name_len as nat, inside, v@),
{
    let local = xml::tag_local_name(tag);
    if inside && text::same(local.as_str(), "PanTilt") {
        let attributes = xml::read_attributes(tag);
        set_pan_tilt(&attributes, v)
    } else if inside && text::same(local.as_str(), "Zoom") {
        let attributes = xml::read_attributes(tag);
        set_zoom(&attributes, v)
    } else {
        v
    }
}

/// The velocity that the named wrapper element holds, among events.
pub fn find_velocity(items: &Vec<XmlItem>, wrapper: &str) -> (v: Velocity)
    requires
        forall|i: int| 0 <= i < items@.len() ==> xml::name_fits((#[trigger] items@[i])@),
    ensures
        v@ == velocity_from(xml::items_view(items@), wrapper@, false, no_velocity()),
{
    let ghost all = xml::items_view(items@);
    let mut inside: bool = false;
    let mut v = Velocity { pan: String::new(), tilt: String::new(), zoom: String::new() };
    assert(v@ =~= no_velocity());
    let mut i: usize = 0;
    assert(all.skip(0) =~= all);
    while i < items.len()
        invariant
            i <= items@.len(),
            all == xml::items_view(items@),
            forall|j: int| 0 <= j < items@.len() ==> xml::name_fits((#[trigger] items@[j])@),
            velocity_from(all, wrapper@, false, no_velocity()) == velocity_from(
                all.skip(i as int),
                wrapper@,
                inside,
                v@,
            ),
        decreases items@.len() - i,
    {
        assert(all.skip(i as int).first() == items@[i as int]@);
        assert(all.skip(i as int).drop_first() =~= all.skip(i + 1));
        match &items[i].event {
            XmlEvent::Eof => {
                return v;
            },
            XmlEvent::Bad(_) => {
                return v;
            },
            XmlEvent::Start(tag) => {
                if text::same(xml::tag_local_name(tag).as_str(), wrapper) {
                    inside = true;
                }
                v = set_by_tag(tag, inside, v);
            },
            XmlEvent::Empty(tag) => {
                v = set_by_tag(tag, inside, v);
            },
            XmlEvent::End(name) => {
                if text::same(xml::local_name(name.as_slice()).as_str(), wrapper) {
                    inside = false;
                }
            },
            _ => {},
        }
        i += 1;
    }
    v
}

/// Parse a `Velocity` (or `Translation` or `Position`) sub-element. ONVIF
/// expresses pan/tilt with attributes `x` and `y`, zoom with attribute `x`.
pub fn parse_velocity(xml: &str, wrapper: &str) -> (v: Velocity)
    ensures
        v@ == velocity_from(xml::xml_events(xml@), wrapper@, false, no_velocity()),
{
    let items = xml::read_events(xml);
    find_velocity(&items, wrapper)
}

/// Whether a `Zoom` element stands inside an element of this local name, among
/// events. A wrapper that closes itself has nothing inside.
pub open spec fn zoom_from(items: Seq<xml::XmlItemView>, wrapper: Seq<char>, inside: bool) -> bool
    decreases items.len(),
{
    if items.len() == 0 {
        false
    } else {
        let rest = items.drop_first();
        match items[0].event {
            xml::XmlView::Eof | xml::XmlView::Bad(_) => false,
            xml::XmlView::Start(content, name_len) => {
                let local = xml::local_part(xml::tag_name(content, name_len));
                if local == wrapper {
                    zoom_from(rest, wrapper, true)
                } else {
                    (inside && local == "Zoom"@) || zoom_from(rest, wrapper, inside)
                }
            },
            xml::XmlView::Empty(content, name_len) => {
                let local = xml::local_part(xml::tag_name(content, name_len));
                (inside && local == "Zoom"@) || zoom_from(rest, wrapper, inside)
            },
            xml::XmlView::End(name) => zoom_from(
                rest,
                wrapper,
                inside && xml::local_part(name) != wrapper,
            ),
            _ => zoom_from(rest, wrapper, inside),
        }
    }
}

/// Whether the named wrapper element holds a `Zoom` element, among events.
pub fn find_zoom(items: &Vec<XmlItem>, wrapper: &str) -> (found: bool)
    requires
        forall|i: int| 0 <= i < items@.len() ==> xml::name_fits((#[trigger] items@[i])@),
    ensures
        found == zoom_from(xml::items_view(items@), wrapper@, false),
{
    let ghost all = xml::items_view(items@);
    let mut inside: bool = false;
    let mut i: usize = 0;
    assert(all.skip(0) =~= all);
    while i < items.len()
        invariant
            i <= items@.len(),
            all == xml::items_view(items@),
            forall|j: int| 0 <= j < items@.len() ==> xml::name_fits((#[trigger] items@[j])@),
            zoom_from(all, wrapper@, false) == zoom_from(all.skip(i as int), wrapper@, inside),
        decreases items@.len() - i,
    {
        assert(all.skip(i as int).first() == items@[i as int]@);
        assert(all.skip(i as int).drop_first() =~= all.skip(i + 1));
        match &items[i].event {
            XmlEvent::Eof => {
                return false;
            },
            XmlEvent::Bad(_) => {
                return false;
            },
            XmlEvent::Start(tag) => {
                let local = xml::tag_local_name(tag);
                if text::same(local.as_str(), wrapper) {
                    inside = true;
                } else if inside && text::same(local.as_str(), "Zoom") {
                    return true;
                }
            },
            XmlEvent::Empty(tag) => {
                if inside && text::same(xml::tag_local_name(tag).as_str(), "Zoom") {
                    return true;
                }
            },
            XmlEvent::End(name) => {
                if text::same(xml::local_name(name.as_slice()).as_str(), wrapper) {
                    inside = false;
                }
            },
            _ => {},
        }
        i += 1;
    }
    false
}

/// Is there a `Zoom` element nested inside the named wrapper element? This tells
/// "Zoom omitted" from "Zoom = 0.0" without matching a sibling.
pub fn zoom_present_in(xml: &str, wrapper: &str) -> (yes: bool)
    ensures
        yes == zoom_from(xml::xml_events(xml@), wrapper@, false),
{
    let items = xml::read_events(xml);
    find_zoom(&items, wrapper)
}

/// Whether a flag is set: `true`, in any case, with white space around it.
pub open spec fn flag(value: Option<Seq<char>>) -> bool {
    match value {
        Some(raw) => text::same_ignoring_ascii_case(text::trimmed(raw), "true"@),
        None => false,
    }
}

fn read_flag(value: &Option<String>) -> (set: bool)
    ensures
        set == flag(text::opt_view(*value)),
{
    match value {
        Some(raw) => text::same_ignoring_case(text::trim(raw.as_str()).as_str(), "true"),
        None => false,
    }
}

/// Which axes a `Stop` stops: those whose flag is set, or both if it carries
/// neither flag.
pub open spec fn axes_stopped(pan_tilt: Option<Seq<char>>, zoom: Option<Seq<char>>) -> (bool, bool) {
    if pan_tilt is None && zoom is None {
        (true, true)
    } else {
        (flag(pan_tilt), flag(zoom))
    }
}

/// Which axes the flags of a `Stop` request stop. When neither is present, both
/// axes stop.
pub fn stop_flags(pan_tilt: &Option<String>, zoom: &Option<String>) -> (flags: (bool, bool))
    ensures
        flags == axes_stopped(text::opt_view(*pan_tilt), text::opt_view(*zoom)),
{
    if pan_tilt.is_none() && zoom.is_none() {
        return (true, true);
    }
    (read_flag(pan_tilt), read_flag(zoom))
}

/// Read boolean flags `PanTilt` and `Zoom` from a `Stop` request body.
pub fn parse_stop_flags(xml: &str) -> (flags: (bool, bool))
    ensures
        flags == axes_stopped(xml::first_text(xml@, "PanTilt"@), xml::first_text(xml@, "Zoom"@)),
{
    stop_flags(
        &xml::read_first_text_element(xml, "PanTilt"),
        &xml::read_first_text_element(xml, "Zoom"),
    )
}

/// How long to wait between two steps of a continuous zoom, in milliseconds:
/// about four steps a second.
pub const ZOOM_PAUSE: u64 = 250;

/// A continuous zoom, made of steps: there is no zoom velocity.
#[derive(Clone, Copy, PartialEq, Eq, Structural, Debug)]
pub struct ZoomRun {
    pub min: u32,
    pub max: u32,
    pub cur: u32,
    /// Towards the narrow end.
    pub inward: bool,
}

/// A twentieth of the range, and at least one.
pub open spec fn zoom_step(min: u32, max: u32) -> int {
    if (max - min) / 20 >= 1 {
        (max - min) / 20
    } else {
        1
    }
}

/// Where a step leads: never past the end of the range.
pub open spec fn zoom_after(run: ZoomRun) -> int {
    let step = zoom_step(run.min, run.max);
    if run.inward {
        if run.cur + step < run.max {
            run.cur + step
        } else {
            run.max as int
        }
    } else {
        if run.cur - step > run.min {
            run.cur - step
        } else {
            run.min as int
        }
    }
}

impl ZoomRun {
    /// A run over the range that a camera reports. A range that is empty has
    /// none.
    pub fn new(min: u32, max: u32, cur: u32, inward: bool) -> (run: Option<Self>)
        ensures
            match run {
                Some(r) => min < max && r == (ZoomRun { min, max, cur, inward }),
                None => max <= min,
            },
    {
        if max <= min {
            None
        } else {
            Some(ZoomRun { min, max, cur, inward })
        }
    }

    /// Where to go next; nowhere once the end is reached.
    pub fn next(&mut self) -> (target: Option<u32>)
        requires
            old(self).min < old(self).max,
        ensures
            final(self).min == old(self).min,
            final(self).max == old(self).max,
            final(self).inward == old(self).inward,
            final(self).cur == zoom_after(*old(self)),
            target == (if zoom_after(*old(self)) == old(self).cur {
                None
            } else {
                Some(zoom_after(*old(self)) as u32)
            }),
    {
        let part: u32 = (self.max - self.min) / 20;
        let step: u32 = if part >= 1 {
            part
        } else {
            1
        };
        let next: u32 = if self.inward {
            let sum: u64 = self.cur as u64 + step as u64;
            if sum < self.max as u64 {
                sum as u32
            } else {
                self.max
            }
        } else {
            let difference: i64 = self.cur as i64 - step as i64;
            if difference > self.min as i64 {
                difference as u32
            } else {
                self.min
            }
        };
        if next == self.cur {
            return None;
        }
        self.cur = next;
        Some(next)
    }
}

/// How many steps a run may still make, at most.
pub open spec fn zoom_distance(run: ZoomRun) -> int {
    if run.inward {
        if run.cur <= run.max {
            run.max - run.cur
        } else {
            run.cur - run.max
        }
    } else {
        if run.cur >= run.min {
            run.cur - run.min
        } else {
            run.min - run.cur
        }
    }
}

/// A run ends: every step brings it closer to the end of the range, and it never
/// leaves the range once it is in it.
pub proof fn law_zoom_runs_end(run: ZoomRun)
    requires
        run.min < run.max,
    ensures
        ({
            let next = ZoomRun { cur: zoom_after(run) as u32, ..run };
            &&& zoom_after(run) != run.cur ==> zoom_distance(next) < zoom_distance(run)
            &&& zoom_after(run) == run.cur ==> zoom_distance(run) == 0
            &&& run.min <= run.cur <= run.max ==> run.min <= zoom_after(run) <= run.max
        }),
{
}

/// A zoom position, kept within its range.
pub open spec fn zoom_kept_within(wanted: int, min: int, max: int) -> int {
    if wanted < min {
        min
    } else if wanted > max {
        max
    } else {
        wanted
    }
}

/// The position a relative move leads to, an offset from the current one that
/// stays in the range.
pub fn relative_zoom(cur: u32, offset: i64, min: u32, max: u32) -> (target: u32)
    requires
        min <= max,
    ensures
        target == zoom_kept_within(cur + offset, min as int, max as int),
{
    let wanted: i128 = cur as i128 + offset as i128;
    if wanted < min as i128 {
        min
    } else if wanted > max as i128 {
        max
    } else {
        wanted as u32
    }
}

/// How far into its range a zoom is, as a part of the whole range, if there is one.
pub open spec fn fraction_of(cur: int, min: int, max: int) -> Option<(int, int)> {
    if min < max {
        Some(
            (
                if cur >= min {
                    cur - min
                } else {
                    0
                },
                max - min,
            ),
        )
    } else {
        None
    }
}

/// How far into its range the zoom is, as a fraction; `None` for an empty range.
pub fn zoom_fraction(cur: u32, min: u32, max: u32) -> (fraction: Option<(u32, u32)>)
    ensures
        (match fraction {
            Some((part, whole)) => Some((part as int, whole as int)),
            None => None,
        }) == fraction_of(cur as int, min as int, max as int),
{
    if max <= min {
        return None;
    }
    let part: u32 = if cur >= min {
        cur - min
    } else {
        0
    };
    Some((part, max - min))
}

/// The spaces that a camera can be driven through.
pub open spec fn supported_spaces(caps: CameraCapabilities) -> Seq<char> {
    text::shown_if(caps.pan_tilt, "<tt:ContinuousPanTiltVelocitySpace><tt:URI>http://www.onvif.org/ver10/tptz/PanTiltSpaces/VelocityGenericSpace</tt:URI><tt:XRange><tt:Min>-1.0</tt:Min><tt:Max>1.0</tt:Max></tt:XRange><tt:YRange><tt:Min>-1.0</tt:Min><tt:Max>1.0</tt:Max></tt:YRange></tt:ContinuousPanTiltVelocitySpace>"@) + text::shown_if(caps.zoom, "<tt:ContinuousZoomVelocitySpace><tt:URI>http://www.onvif.org/ver10/tptz/ZoomSpaces/VelocityGenericSpace</tt:URI><tt:XRange><tt:Min>-1.0</tt:Min><tt:Max>1.0</tt:Max></tt:XRange></tt:ContinuousZoomVelocitySpace><tt:AbsoluteZoomPositionSpace><tt:URI>http://www.onvif.org/ver10/tptz/ZoomSpaces/PositionGenericSpace</tt:URI><tt:XRange><tt:Min>0.0</tt:Min><tt:Max>1.0</tt:Max></tt:XRange></tt:AbsoluteZoomPositionSpace>"@)
}

/// The `tt:Spaces` / `tt:SupportedPTZSpaces` body, holding only the spaces the
/// camera can actually be driven through. Shared by the PTZ node and the
/// configuration options so the two can never disagree.
pub fn render_supported_spaces(caps: &CameraCapabilities) -> (out: String)
    ensures
        out@ == supported_spaces(*caps),
{
    let mut out = text::when(caps.pan_tilt, "<tt:ContinuousPanTiltVelocitySpace><tt:URI>http://www.onvif.org/ver10/tptz/PanTiltSpaces/VelocityGenericSpace</tt:URI><tt:XRange><tt:Min>-1.0</tt:Min><tt:Max>1.0</tt:Max></tt:XRange><tt:YRange><tt:Min>-1.0</tt:Min><tt:Max>1.0</tt:Max></tt:YRange></tt:ContinuousPanTiltVelocitySpace>").to_owned();
    out.append(text::when(caps.zoom, "<tt:ContinuousZoomVelocitySpace><tt:URI>http://www.onvif.org/ver10/tptz/ZoomSpaces/VelocityGenericSpace</tt:URI><tt:XRange><tt:Min>-1.0</tt:Min><tt:Max>1.0</tt:Max></tt:XRange></tt:ContinuousZoomVelocitySpace><tt:AbsoluteZoomPositionSpace><tt:URI>http://www.onvif.org/ver10/tptz/ZoomSpaces/PositionGenericSpace</tt:URI><tt:XRange><tt:Min>0.0</tt:Min><tt:Max>1.0</tt:Max></tt:XRange></tt:AbsoluteZoomPositionSpace>"));
    out
}

/// The `PTZConfiguration` element. `tag` differs by service.
pub open spec fn ptz_configuration(cam_name: Seq<char>, caps: CameraCapabilities, tag: Seq<char>) -> Seq<char> {
    "<"@ + tag + " token=\"ptz_"@ + soap::escaped(cam_name) + "\"><tt:Name>"@ + soap::escaped(cam_name) + "_ptz</tt:Name><tt:UseCount>1</tt:UseCount><tt:NodeToken>ptz_node_"@ + soap::escaped(cam_name) + "</tt:NodeToken>"@ + text::shown_if(caps.pan_tilt, "<tt:DefaultContinuousPanTiltVelocitySpace>http://www.onvif.org/ver10/tptz/PanTiltSpaces/VelocityGenericSpace</tt:DefaultContinuousPanTiltVelocitySpace>"@) + text::shown_if(caps.zoom, "<tt:DefaultContinuousZoomVelocitySpace>http://www.onvif.org/ver10/tptz/ZoomSpaces/VelocityGenericSpace</tt:DefaultContinuousZoomVelocitySpace>"@) + "<tt:DefaultPTZSpeed>"@ + text::shown_if(caps.pan_tilt, "<tt:PanTilt x=\"0.5\" y=\"0.5\" space=\"http://www.onvif.org/ver10/tptz/PanTiltSpaces/GenericSpeedSpace\"/>"@) + text::shown_if(caps.zoom, "<tt:Zoom x=\"0.5\" space=\"http://www.onvif.org/ver10/tptz/ZoomSpaces/ZoomGenericSpeedSpace\"/>"@) + "</tt:DefaultPTZSpeed><tt:DefaultPTZTimeout>PT5S</tt:DefaultPTZTimeout></"@ + tag + ">"@
}

/// The `PTZConfiguration` element. `tag` differs by service.
pub fn render_ptz_configuration_xml(cam_name: &str, caps: &CameraCapabilities, tag: &str) -> (out: String)
    ensures
        out@ == ptz_configuration(cam_name@, *caps, tag@),
{
    let mut out = "<".to_owned();
    out.append(tag);
    out.append(" token=\"ptz_");
    out.append(soap::xml_escape(cam_name).as_str());
    out.append("\"><tt:Name>");
    out.append(soap::xml_escape(cam_name).as_str());
    out.append("_ptz</tt:Name><tt:UseCount>1</tt:UseCount><tt:NodeToken>ptz_node_");
    out.append(soap::xml_escape(cam_name).as_str());
    out.append("</tt:NodeToken>");
    out.append(text::when(caps.pan_tilt, "<tt:DefaultContinuousPanTiltVelocitySpace>http://www.onvif.org/ver10/tptz/PanTiltSpaces/VelocityGenericSpace</tt:DefaultContinuousPanTiltVelocitySpace>"));
    out.append(text::when(caps.zoom, "<tt:DefaultContinuousZoomVelocitySpace>http://www.onvif.org/ver10/tptz/ZoomSpaces/VelocityGenericSpace</tt:DefaultContinuousZoomVelocitySpace>"));
    out.append("<tt:DefaultPTZSpeed>");
    out.append(text::when(caps.pan_tilt, "<tt:PanTilt x=\"0.5\" y=\"0.5\" space=\"http://www.onvif.org/ver10/tptz/PanTiltSpaces/GenericSpeedSpace\"/>"));
    out.append(text::when(caps.zoom, "<tt:Zoom x=\"0.5\" space=\"http://www.onvif.org/ver10/tptz/ZoomSpaces/ZoomGenericSpeedSpace\"/>"));
    out.append("</tt:DefaultPTZSpeed><tt:DefaultPTZTimeout>PT5S</tt:DefaultPTZTimeout></");
    out.append(tag);
    out.append(">");
    out
}

/// What a configuration may be set to.
pub open spec fn configuration_options(caps: CameraCapabilities) -> Seq<char> {
    "<tptz:GetConfigurationOptionsResponse><tptz:PTZConfigurationOptions><tt:Spaces>"@ + supported_spaces(caps) + "</tt:Spaces><tt:PTZTimeout><tt:Min>PT1S</tt:Min><tt:Max>PT60S</tt:Max></tt:PTZTimeout></tptz:PTZConfigurationOptions></tptz:GetConfigurationOptionsResponse>"@
}

/// What a configuration may be set to.
pub fn render_configuration_options(caps: &CameraCapabilities) -> (out: String)
    ensures
        out@ == configuration_options(*caps),
{
    let mut out = "<tptz:GetConfigurationOptionsResponse><tptz:PTZConfigurationOptions><tt:Spaces>".to_owned();
    out.append(render_supported_spaces(caps).as_str());
    out.append("</tt:Spaces><tt:PTZTimeout><tt:Min>PT1S</tt:Min><tt:Max>PT60S</tt:Max></tt:PTZTimeout></tptz:PTZConfigurationOptions></tptz:GetConfigurationOptionsResponse>");
    out
}

/// What the service can do. The only position that can be read back is the zoom one.
pub open spec fn ptz_capabilities(caps: CameraCapabilities) -> Seq<char> {
    "<tptz:GetServiceCapabilitiesResponse><tptz:Capabilities EFlip=\"false\" Reverse=\"false\" GetCompatibleConfigurations=\"true\" MoveStatus=\"false\" StatusPosition=\""@ + text::bool_text(caps.zoom) + "\"/></tptz:GetServiceCapabilitiesResponse>"@
}

/// What the service can do. The only position that can be read back is the zoom one.
pub fn render_service_capabilities(caps: &CameraCapabilities) -> (out: String)
    ensures
        out@ == ptz_capabilities(*caps),
{
    let mut out = "<tptz:GetServiceCapabilitiesResponse><tptz:Capabilities EFlip=\"false\" Reverse=\"false\" GetCompatibleConfigurations=\"true\" MoveStatus=\"false\" StatusPosition=\"".to_owned();
    out.append(text::bool_word(caps.zoom));
    out.append("\"/></tptz:GetServiceCapabilitiesResponse>");
    out
}

/// The node of a camera. Home is as available as presets are, and it is fixed exactly when this user cannot write preset slots.
pub open spec fn ptz_node(cam_name: Seq<char>, caps: CameraCapabilities) -> Seq<char> {
    "<tptz:PTZNode token=\"ptz_node_"@ + soap::escaped(cam_name) + "\" FixedHomePosition=\""@ + text::bool_text(caps.presets && !caps.preset_write) + "\"><tt:Name>"@ + soap::escaped(cam_name) + "_node</tt:Name><tt:SupportedPTZSpaces>"@ + supported_spaces(caps) + "</tt:SupportedPTZSpaces><tt:MaximumNumberOfPresets>"@ + text::decimal(preset_slots(caps)) + "</tt:MaximumNumberOfPresets><tt:HomeSupported>"@ + text::bool_text(caps.presets) + "</tt:HomeSupported></tptz:PTZNode>"@
}

/// The node of a camera. Home is as available as presets are, and it is fixed exactly when this user cannot write preset slots.
pub fn render_ptz_node(cam_name: &str, caps: &CameraCapabilities) -> (out: String)
    ensures
        out@ == ptz_node(cam_name@, *caps),
{
    let mut out = "<tptz:PTZNode token=\"ptz_node_".to_owned();
    out.append(soap::xml_escape(cam_name).as_str());
    out.append("\" FixedHomePosition=\"");
    out.append(text::bool_word(caps.presets && !caps.preset_write));
    out.append("\"><tt:Name>");
    out.append(soap::xml_escape(cam_name).as_str());
    out.append("_node</tt:Name><tt:SupportedPTZSpaces>");
    out.append(render_supported_spaces(caps).as_str());
    out.append("</tt:SupportedPTZSpaces><tt:MaximumNumberOfPresets>");
    text::append_decimal(&mut out, if caps.presets { MAX_PRESETS as u64 } else { 0 });
    out.append("</tt:MaximumNumberOfPresets><tt:HomeSupported>");
    out.append(text::bool_word(caps.presets));
    out.append("</tt:HomeSupported></tptz:PTZNode>");
    out
}

/// How many presets a camera has room for.
pub open spec fn preset_slots(caps: CameraCapabilities) -> nat {
    if caps.presets {
        MAX_PRESETS as nat
    } else {
        0
    }
}

/// A stored position.
#[derive(Debug)]
pub struct Preset {
    pub id: u8,
    pub name: Option<String>,
}

/// What a client is shown for a preset: its name, or its number if it has none.
pub open spec fn preset_label(name: Option<Seq<char>>, id: u8) -> Seq<char> {
    match name {
        Some(n) => if text::trimmed(n).len() > 0 {
            soap::escaped(text::trimmed(n))
        } else {
            "Preset "@ + text::decimal(id as nat)
        },
        None => "Preset "@ + text::decimal(id as nat),
    }
}

fn numbered_preset(id: u8) -> (out: String)
    ensures
        out@ == "Preset "@ + text::decimal(id as nat),
{
    let mut out = "Preset ".to_owned();
    text::append_decimal(&mut out, id as u64);
    out
}

/// What to show a client for a preset. A slot with an empty name falls back to
/// the slot number: an unlabelled row is unusable in a preset list.
pub fn preset_display_name(name: Option<&str>, id: u8) -> (out: String)
    ensures
        out@ == preset_label(state::str_view(name), id),
{
    match name {
        Some(n) => {
            let trimmed = text::trim(n);
            if is_empty(trimmed.as_str()) {
                numbered_preset(id)
            } else {
                soap::xml_escape(trimmed.as_str())
            }
        },
        None => numbered_preset(id),
    }
}

fn is_empty(text: &str) -> (yes: bool)
    ensures
        yes == (text@.len() == 0),
{
    let chars = text::chars_of(text);
    chars.len() == 0
}

/// Presets, as a list of elements.
pub open spec fn presets_xml(list: Seq<Preset>) -> Seq<char>
    decreases list.len(),
{
    if list.len() == 0 {
        Seq::empty()
    } else {
        presets_xml(list.drop_last()) + ("<tptz:Preset token=\"preset_"@ + text::decimal(
            list.last().id as nat,
        ) + "\"><tt:Name>"@ + preset_label(text::opt_view(list.last().name), list.last().id)
            + "</tt:Name></tptz:Preset>"@)
    }
}

fn render_presets(list: &Vec<Preset>) -> (out: String)
    ensures
        out@ == presets_xml(list@),
{
    let mut out = String::new();
    let mut i: usize = 0;
    assert(list@.take(0) =~= Seq::empty());
    assert(out@ =~= presets_xml(list@.take(0)));
    while i < list.len()
        invariant
            i <= list@.len(),
            out@ == presets_xml(list@.take(i as int)),
        decreases list@.len() - i,
    {
        assert(list@.take(i + 1).drop_last() =~= list@.take(i as int));
        let preset = &list[i];
        assert(list@.take(i + 1).last() == *preset);
        let name: Option<&str> = match &preset.name {
            Some(n) => Some(n.as_str()),
            None => None,
        };
        assert(state::str_view(name) == text::opt_view(preset.name));
        let mut item = "<tptz:Preset token=\"preset_".to_owned();
        text::append_decimal(&mut item, preset.id as u64);
        item.append("\"><tt:Name>");
        item.append(preset_display_name(name, preset.id).as_str());
        item.append("</tt:Name></tptz:Preset>");
        out.append(item.as_str());
        i += 1;
    }
    assert(list@.take(i as int) =~= list@);
    out
}

/// The preset that a token names, if it is one.
pub open spec fn preset_of(token: Seq<char>) -> Option<nat> {
    if "preset_"@.is_prefix_of(token) {
        text::number(token.skip("preset_"@.len() as int), u8::MAX as nat)
    } else {
        None
    }
}

/// The preset that a token names, if it is one.
pub fn parse_preset_id(token: &str) -> (id: Option<u8>)
    ensures
        (match id {
            Some(n) => Some(n as nat),
            None => None,
        }) == preset_of(token@),
{
    match text::after_prefix(token, "preset_") {
        Some(rest) => {
            assert(token@.skip("preset_"@.len() as int) =~= rest@);
            assert(token@.subrange(0, "preset_"@.len() as int) =~= "preset_"@);
            match text::parse_number(rest.as_str(), u8::MAX as u64) {
                Some(n) => Some(n as u8),
                None => None,
            }
        },
        None => None,
    }
}

/// The token that a preset is given names it.
pub proof fn law_preset_tokens_round_trip(id: u8)
    ensures
        preset_of("preset_"@ + text::decimal(id as nat)) == Some(id as nat),
{
    let token = "preset_"@ + text::decimal(id as nat);
    assert(token.skip("preset_"@.len() as int) =~= text::decimal(id as nat));
    assert(token.subrange(0, "preset_"@.len() as int) =~= "preset_"@);
    text::law_decimal_round_trip(id as nat, u8::MAX as nat);
}

/// The first slot from one on that is not in use, or the number of slots.
pub open spec fn first_free(used: Seq<u8>, from: int) -> int
    decreases MAX_PRESETS - from,
{
    if from >= MAX_PRESETS || !used.contains(from as u8) {
        from
    } else {
        first_free(used, from + 1)
    }
}

/// A free slot: the first behind the home slot, and the home slot only if there
/// is no other.
pub open spec fn free_slot(used: Seq<u8>) -> Option<u8> {
    let at = first_free(used, HOME_PRESET_ID + 1);
    if at < MAX_PRESETS {
        Some(at as u8)
    } else if !used.contains(HOME_PRESET_ID) {
        Some(HOME_PRESET_ID)
    } else {
        None
    }
}

fn holds(used: &Vec<u8>, id: u8) -> (yes: bool)
    ensures
        yes == used@.contains(id),
{
    let mut i: usize = 0;
    while i < used.len()
        invariant
            i <= used@.len(),
            forall|j: int| 0 <= j < i ==> #[trigger] used@[j] != id,
        decreases used@.len() - i,
    {
        if used[i] == id {
            assert(used@[i as int] == id);
            return true;
        }
        i += 1;
    }
    false
}

/// Pick a free preset slot. Storing a new preset must not silently redefine the
/// home position, so the home slot is the last resort.
pub fn pick_free_preset_id(used: &Vec<u8>) -> (id: Option<u8>)
    ensures
        id == free_slot(used@),
{
    let mut id: u8 = HOME_PRESET_ID + 1;
    while id < MAX_PRESETS && holds(used, id)
        invariant
            1 <= id <= MAX_PRESETS,
            first_free(used@, HOME_PRESET_ID + 1) == first_free(used@, id as int),
        decreases MAX_PRESETS - id,
    {
        id += 1;
    }
    if id < MAX_PRESETS {
        Some(id)
    } else if !holds(used, HOME_PRESET_ID) {
        Some(HOME_PRESET_ID)
    } else {
        None
    }
}

proof fn lemma_first_free(used: Seq<u8>, from: int)
    requires
        0 <= from <= MAX_PRESETS,
    ensures
        from <= first_free(used, from) <= MAX_PRESETS,
        first_free(used, from) < MAX_PRESETS ==> !used.contains(first_free(used, from) as u8),
        forall|id: u8| from <= id < first_free(used, from) ==> #[trigger] used.contains(id),
    decreases MAX_PRESETS - from,
{
    if from < MAX_PRESETS && used.contains(from as u8) {
        lemma_first_free(used, from + 1);
    }
}

/// A slot that is handed out is the least free one behind the home slot, no free
/// slot is ever withheld, and the home slot is handed out only when every other
/// one is in use.
pub proof fn law_free_slots_are_used_up(used: Seq<u8>)
    ensures
        match free_slot(used) {
            Some(id) => {
                &&& id < MAX_PRESETS
                &&& !used.contains(id)
                &&& id != HOME_PRESET_ID ==> forall|other: u8|
                    1 <= other < id ==> #[trigger] used.contains(other)
                &&& id == HOME_PRESET_ID ==> forall|other: u8|
                    1 <= other < MAX_PRESETS ==> #[trigger] used.contains(other)
            },
            None => forall|id: u8| id < MAX_PRESETS ==> #[trigger] used.contains(id),
        },
{
    lemma_first_free(used, HOME_PRESET_ID + 1);
}

/// The stored home position: the first preset in the home slot.
pub open spec fn home_of(list: Seq<Preset>) -> Option<Preset>
    decreases list.len(),
{
    if list.len() == 0 {
        None
    } else if list[0].id == HOME_PRESET_ID {
        Some(list[0])
    } else {
        home_of(list.drop_first())
    }
}

/// The stored home position, or `None` when nothing has ever been stored there.
pub fn home_preset(list: &Vec<Preset>) -> (home: Option<&Preset>)
    ensures
        (match home {
            Some(p) => Some(*p),
            None => None,
        }) == home_of(list@),
{
    let mut i: usize = 0;
    assert(list@.skip(0) =~= list@);
    while i < list.len()
        invariant
            i <= list@.len(),
            home_of(list@) == home_of(list@.skip(i as int)),
        decreases list@.len() - i,
    {
        assert(list@.skip(i as int).drop_first() =~= list@.skip(i + 1));
        if list[i].id == HOME_PRESET_ID {
            return Some(&list[i]);
        }
        i += 1;
    }
    None
}

/// The slots in use.
pub open spec fn ids_in_use(list: Seq<Preset>) -> Seq<u8> {
    list.map_values(|p: Preset| p.id)
}

fn used_ids(list: &Vec<Preset>) -> (ids: Vec<u8>)
    ensures
        ids@ == ids_in_use(list@),
{
    let mut ids: Vec<u8> = Vec::new();
    let mut i: usize = 0;
    while i < list.len()
        invariant
            i <= list@.len(),
            ids@ =~= ids_in_use(list@).take(i as int),
        decreases list@.len() - i,
    {
        ids.push(list[i].id);
        i += 1;
    }
    assert(ids_in_use(list@).take(i as int) =~= ids_in_use(list@));
    ids
}

/// What a request asks to move.
#[derive(Clone, Copy, PartialEq, Eq, Structural, Debug)]
pub struct Motion {
    pub pan: Axis,
    pub tilt: Axis,
    /// The zoom component is large enough to matter.
    pub zooms: bool,
    /// The zoom component is above zero.
    pub zoom_in: bool,
}

/// The element that holds the vector of a move.
pub open spec fn element_for(action: Seq<char>) -> Option<Seq<char>> {
    if action == "ContinuousMove"@ {
        Some("Velocity"@)
    } else if action == "RelativeMove"@ {
        Some("Translation"@)
    } else if action == "AbsoluteMove"@ {
        Some("Position"@)
    } else {
        None
    }
}

/// The element of a request that holds what to move, if it moves something.
pub fn motion_element(action: &str) -> (element: Option<&'static str>)
    ensures
        state::str_view(element) == element_for(action@),
{
    if text::same(action, "ContinuousMove") {
        Some("Velocity")
    } else if text::same(action, "RelativeMove") {
        Some("Translation")
    } else if text::same(action, "AbsoluteMove") {
        Some("Position")
    } else {
        None
    }
}

/// What answering a request takes to know.
#[derive(Debug)]
pub struct PtzFacts<'a> {
    pub cam_name: &'a str,
    pub caps: CameraCapabilities,
    pub motion: Motion,
    /// The presets, or why they could not be read.
    pub presets: &'a Result<Vec<Preset>, String>,
    /// How far into its range the zoom is, written out.
    pub zoom_position: Option<&'a str>,
    pub now: Timestamp,
}

/// What a camera is told to do.
#[derive(Debug)]
pub enum PtzCommand {
    /// End a continuous zoom.
    AbortZoom,
    Move(Direction),
    /// Move, and wait as long as the request asks to.
    MoveAwhile(Direction),
    Stop,
    /// Stop, and never mind if that fails.
    StopQuietly,
    /// Zoom until told otherwise.
    Zoom { inward: bool },
    /// Zoom by the amount that was asked for.
    ZoomBy,
    /// Zoom to the position that was asked for.
    ZoomTo,
    GotoPreset(u8),
    SetPreset(u8, String),
}

/// A command, its text as a sequence.
pub enum PtzCommandView {
    AbortZoom,
    Move(Direction),
    MoveAwhile(Direction),
    Stop,
    StopQuietly,
    Zoom { inward: bool },
    ZoomBy,
    ZoomTo,
    GotoPreset(u8),
    SetPreset(u8, Seq<char>),
}

impl View for PtzCommand {
    type V = PtzCommandView;

    open spec fn view(&self) -> PtzCommandView {
        match self {
            PtzCommand::AbortZoom => PtzCommandView::AbortZoom,
            PtzCommand::Move(d) => PtzCommandView::Move(*d),
            PtzCommand::MoveAwhile(d) => PtzCommandView::MoveAwhile(*d),
            PtzCommand::Stop => PtzCommandView::Stop,
            PtzCommand::StopQuietly => PtzCommandView::StopQuietly,
            PtzCommand::Zoom { inward } => PtzCommandView::Zoom { inward: *inward },
            PtzCommand::ZoomBy => PtzCommandView::ZoomBy,
            PtzCommand::ZoomTo => PtzCommandView::ZoomTo,
            PtzCommand::GotoPreset(id) => PtzCommandView::GotoPreset(*id),
            PtzCommand::SetPreset(id, name) => PtzCommandView::SetPreset(*id, name@),
        }
    }
}

/// What to do and, if all of it succeeds, what to answer.
#[derive(Debug)]
pub struct PtzAnswer {
    pub commands: Vec<PtzCommand>,
    pub xml: String,
}

/// What to do and to answer, as sequences.
#[verifier::ext_equal]
pub struct PtzAnswerView {
    pub commands: Seq<PtzCommandView>,
    pub xml: Seq<char>,
}

impl View for PtzAnswer {
    type V = PtzAnswerView;

    open spec fn view(&self) -> PtzAnswerView {
        PtzAnswerView {
            commands: self.commands@.map_values(|c: PtzCommand| c@),
            xml: self.xml@,
        }
    }
}

/// What to do and to answer, or a fault, as sequences.
pub open spec fn answer_view(answer: Result<PtzAnswer, FaultBody>) -> Result<
    PtzAnswerView,
    device::FaultView,
> {
    match answer {
        Ok(a) => Ok(a@),
        Err(f) => Err(f@),
    }
}

/// An answer after some commands.
pub open spec fn after(commands: Seq<PtzCommandView>, body: Seq<char>) -> Result<
    PtzAnswerView,
    device::FaultView,
> {
    Ok(PtzAnswerView { commands, xml: soap::envelope(body, soap::NS_ALL@) })
}

/// A fault that names the camera.
pub open spec fn camera_fault(code: FaultCode, cam_name: Seq<char>, what: Seq<char>) -> Result<
    PtzAnswerView,
    device::FaultView,
> {
    Err(device::fault(code, "Camera '"@ + cam_name + what))
}

fn refuse(code: FaultCode, cam_name: &str, what: &str) -> (answer: Result<PtzAnswer, FaultBody>)
    ensures
        answer_view(answer) == camera_fault(code, cam_name@, what@),
{
    Err(device::quoting_fault(code, "Camera '", cam_name, what))
}

fn answer_with(commands: Vec<PtzCommand>, body: &str) -> (answer: Result<PtzAnswer, FaultBody>)
    ensures
        answer_view(answer) == after(commands@.map_values(|c: PtzCommand| c@), body@),
{
    Ok(PtzAnswer { commands, xml: soap::wrap_envelope(body, soap::NS_ALL) })
}

fn answer_one(command: PtzCommand, body: &str) -> (answer: Result<PtzAnswer, FaultBody>)
    ensures
        answer_view(answer) == after(seq![command@], body@),
{
    let mut commands: Vec<PtzCommand> = Vec::new();
    commands.push(command);
    assert(commands@.map_values(|c: PtzCommand| c@) =~= seq![command@]);
    answer_with(commands, body)
}

fn answer_only(body: &str) -> (answer: Result<PtzAnswer, FaultBody>)
    ensures
        answer_view(answer) == after(Seq::empty(), body@),
{
    let commands: Vec<PtzCommand> = Vec::new();
    assert(commands@.map_values(|c: PtzCommand| c@) =~= Seq::empty());
    answer_with(commands, body)
}

/// What a camera does for `ContinuousMove`. A pure zoom makes sure that nothing
/// else is moving.
pub open spec fn continuous_commands(f: PtzFacts) -> Seq<PtzCommandView> {
    let m = f.motion;
    seq![PtzCommandView::AbortZoom] + (match direction_of(m.pan, m.tilt) {
        Some(d) => seq![PtzCommandView::Move(d)],
        None => if f.caps.pan_tilt && m.pan.zero && m.tilt.zero {
            seq![PtzCommandView::StopQuietly]
        } else {
            Seq::empty()
        },
    }) + (if m.zooms {
        seq![PtzCommandView::Zoom { inward: m.zoom_in }]
    } else {
        Seq::empty()
    })
}

/// What a camera does for `RelativeMove`: pan and tilt are a continuous move that
/// is stopped after a while.
pub open spec fn relative_commands(f: PtzFacts) -> Seq<PtzCommandView> {
    let m = f.motion;
    seq![PtzCommandView::AbortZoom] + (match direction_of(m.pan, m.tilt) {
        Some(d) => seq![PtzCommandView::MoveAwhile(d), PtzCommandView::StopQuietly],
        None => Seq::empty(),
    }) + (if m.zooms {
        seq![PtzCommandView::ZoomBy]
    } else {
        Seq::empty()
    })
}

fn continuous_move(f: &PtzFacts) -> (commands: Vec<PtzCommand>)
    ensures
        commands@.map_values(|c: PtzCommand| c@) == continuous_commands(*f),
{
    let mut commands: Vec<PtzCommand> = Vec::new();
    commands.push(PtzCommand::AbortZoom);
    match pick_direction(f.motion.pan, f.motion.tilt) {
        Some(d) => {
            commands.push(PtzCommand::Move(d));
        },
        None => {
            if f.caps.pan_tilt && f.motion.pan.zero && f.motion.tilt.zero {
                commands.push(PtzCommand::StopQuietly);
            }
        },
    }
    if f.motion.zooms {
        commands.push(PtzCommand::Zoom { inward: f.motion.zoom_in });
    }
    assert(commands@.map_values(|c: PtzCommand| c@) =~= continuous_commands(*f));
    commands
}

fn relative_move(f: &PtzFacts) -> (commands: Vec<PtzCommand>)
    ensures
        commands@.map_values(|c: PtzCommand| c@) == relative_commands(*f),
{
    let mut commands: Vec<PtzCommand> = Vec::new();
    commands.push(PtzCommand::AbortZoom);
    match pick_direction(f.motion.pan, f.motion.tilt) {
        Some(d) => {
            commands.push(PtzCommand::MoveAwhile(d));
            commands.push(PtzCommand::StopQuietly);
        },
        None => {},
    }
    if f.motion.zooms {
        commands.push(PtzCommand::ZoomBy);
    }
    assert(commands@.map_values(|c: PtzCommand| c@) =~= relative_commands(*f));
    commands
}

/// What a camera does for `Stop`. An axis it does not have needs no stopping.
pub open spec fn stop_commands(f: PtzFacts, pan_tilt: bool, zoom: bool) -> Seq<PtzCommandView> {
    (if pan_tilt && f.caps.pan_tilt {
        seq![PtzCommandView::Stop]
    } else {
        Seq::empty()
    }) + (if zoom {
        seq![PtzCommandView::AbortZoom]
    } else {
        Seq::empty()
    })
}

fn stop(f: &PtzFacts, pan_tilt: bool, zoom: bool) -> (commands: Vec<PtzCommand>)
    ensures
        commands@.map_values(|c: PtzCommand| c@) == stop_commands(*f, pan_tilt, zoom),
{
    let mut commands: Vec<PtzCommand> = Vec::new();
    if pan_tilt && f.caps.pan_tilt {
        commands.push(PtzCommand::Stop);
    }
    if zoom {
        commands.push(PtzCommand::AbortZoom);
    }
    assert(commands@.map_values(|c: PtzCommand| c@) =~= stop_commands(*f, pan_tilt, zoom));
    commands
}

/// The positions that a status reports: only those of axes that exist.
pub open spec fn status_position(f: PtzFacts) -> Seq<char> {
    text::shown_if(
        f.caps.pan_tilt,
        "<tt:PanTilt x=\"0\" y=\"0\" space=\"http://www.onvif.org/ver10/tptz/PanTiltSpaces/PositionGenericSpace\"/>"@,
    ) + (if f.caps.zoom {
        match f.zoom_position {
            Some(x) => "<tt:Zoom x=\""@ + x@ + "\" space=\"http://www.onvif.org/ver10/tptz/ZoomSpaces/PositionGenericSpace\"/>"@,
            None => Seq::empty(),
        }
    } else {
        Seq::empty()
    })
}

/// A status.
pub open spec fn status_xml(f: PtzFacts) -> Seq<char> {
    "<tptz:GetStatusResponse><tptz:PTZStatus>"@ + (if f.caps.pan_tilt || (f.caps.zoom
        && f.zoom_position is Some) {
        "<tt:Position>"@ + status_position(f) + "</tt:Position>"@
    } else {
        Seq::empty()
    }) + "<tt:MoveStatus>"@ + text::shown_if(
        f.caps.pan_tilt,
        "<tt:PanTilt>IDLE</tt:PanTilt>"@,
    ) + text::shown_if(f.caps.zoom, "<tt:Zoom>IDLE</tt:Zoom>"@) + "</tt:MoveStatus><tt:UtcTime>"@
        + time::utc_text(f.now.secs as int, f.now.nanos as int, time::WITH_SECONDS@)
        + "</tt:UtcTime></tptz:PTZStatus></tptz:GetStatusResponse>"@
}

fn render_status(f: &PtzFacts) -> (out: String)
    requires
        time::clock_time(f.now),
    ensures
        out@ == status_xml(*f),
{
    let mut position = text::when(
        f.caps.pan_tilt,
        "<tt:PanTilt x=\"0\" y=\"0\" space=\"http://www.onvif.org/ver10/tptz/PanTiltSpaces/PositionGenericSpace\"/>",
    ).to_owned();
    let mut zoom = String::new();
    if f.caps.zoom {
        match f.zoom_position {
            Some(x) => {
                zoom = "<tt:Zoom x=\"".to_owned();
                zoom.append(x);
                zoom.append("\" space=\"http://www.onvif.org/ver10/tptz/ZoomSpaces/PositionGenericSpace\"/>");
            },
            None => {},
        }
    }
    position.append(zoom.as_str());
    assert(position@ =~= status_position(*f));
    let mut shown = String::new();
    if f.caps.pan_tilt || (f.caps.zoom && f.zoom_position.is_some()) {
        shown = "<tt:Position>".to_owned();
        shown.append(position.as_str());
        shown.append("</tt:Position>");
    }
    let mut out = "<tptz:GetStatusResponse><tptz:PTZStatus>".to_owned();
    out.append(shown.as_str());
    out.append("<tt:MoveStatus>");
    out.append(text::when(f.caps.pan_tilt, "<tt:PanTilt>IDLE</tt:PanTilt>"));
    out.append(text::when(f.caps.zoom, "<tt:Zoom>IDLE</tt:Zoom>"));
    out.append("</tt:MoveStatus><tt:UtcTime>");
    out.append(time::format_utc(f.now, time::WITH_SECONDS).as_str());
    out.append("</tt:UtcTime></tptz:PTZStatus></tptz:GetStatusResponse>");
    out
}

/// The name that a home position is stored under: the one it has, if it has
/// one.
pub open spec fn home_name(presets: Result<Vec<Preset>, String>) -> Seq<char> {
    match presets {
        Ok(list) => match home_of(list@) {
            Some(p) => match p.name {
                Some(n) => if text::trimmed(n@).len() > 0 {
                    n@
                } else {
                    "home"@
                },
                None => "home"@,
            },
            None => "home"@,
        },
        Err(_) => "home"@,
    }
}

fn name_for_home(presets: &Result<Vec<Preset>, String>) -> (name: String)
    ensures
        name@ == home_name(*presets),
{
    match presets {
        Ok(list) => {
            match home_preset(list) {
                Some(p) => {
                    match &p.name {
                        Some(n) => {
                            if is_empty(text::trim(n.as_str()).as_str()) {
                                "home".to_owned()
                            } else {
                                n.clone()
                            }
                        },
                        None => "home".to_owned(),
                    }
                },
                None => "home".to_owned(),
            }
        },
        Err(_) => "home".to_owned(),
    }
}

/// What a request carries, as far as its answer depends on it.
#[derive(Debug)]
pub struct PtzRequest {
    /// Whether an absolute move gives a zoom position.
    pub zoom_given: bool,
    /// The flags of a `Stop`.
    pub stop_pan_tilt: Option<String>,
    pub stop_zoom: Option<String>,
    pub preset_token: Option<String>,
    pub preset_name: Option<String>,
}

/// What a request carries, its texts as sequences.
#[verifier::ext_equal]
pub struct PtzRequestView {
    pub zoom_given: bool,
    pub stop_pan_tilt: Option<Seq<char>>,
    pub stop_zoom: Option<Seq<char>>,
    pub preset_token: Option<Seq<char>>,
    pub preset_name: Option<Seq<char>>,
}

impl View for PtzRequest {
    type V = PtzRequestView;

    open spec fn view(&self) -> PtzRequestView {
        PtzRequestView {
            zoom_given: self.zoom_given,
            stop_pan_tilt: text::opt_view(self.stop_pan_tilt),
            stop_zoom: text::opt_view(self.stop_zoom),
            preset_token: text::opt_view(self.preset_token),
            preset_name: text::opt_view(self.preset_name),
        }
    }
}

/// What the document of a request carries.
pub open spec fn request_of(body_xml: Seq<char>) -> PtzRequestView {
    PtzRequestView {
        zoom_given: zoom_from(xml::xml_events(body_xml), "Position"@, false),
        stop_pan_tilt: xml::first_text(body_xml, "PanTilt"@),
        stop_zoom: xml::first_text(body_xml, "Zoom"@),
        preset_token: xml::first_text(body_xml, "PresetToken"@),
        preset_name: xml::first_text(body_xml, "PresetName"@),
    }
}

/// Read what a request carries.
pub fn read_request(body_xml: &str) -> (r: PtzRequest)
    ensures
        r@ == request_of(body_xml@),
{
    PtzRequest {
        zoom_given: zoom_present_in(body_xml, "Position"),
        stop_pan_tilt: xml::read_first_text_element(body_xml, "PanTilt"),
        stop_zoom: xml::read_first_text_element(body_xml, "Zoom"),
        preset_token: xml::read_first_text_element(body_xml, "PresetToken"),
        preset_name: xml::read_first_text_element(body_xml, "PresetName"),
    }
}

/// The slot that `SetPreset` stores to: the one it names, or a free one.
pub open spec fn preset_slot(f: PtzFacts, token: Option<Seq<char>>) -> Result<u8, device::FaultView> {
    let named = match token {
        Some(token) => preset_of(token),
        None => None,
    };
    match named {
        Some(id) => Ok(id as u8),
        None => match f.presets {
            Err(e) => Err(device::fault(FaultCode::Other, e@)),
            Ok(list) => match free_slot(ids_in_use(list@)) {
                Some(id) => Ok(id),
                None => Err(
                    device::fault(
                        FaultCode::TooManyPresets,
                        "Camera '"@ + f.cam_name@
                            + "' has no free preset slots — all 64 are in use"@,
                    ),
                ),
            },
        },
    }
}

/// Pick a free preset slot for a `SetPreset` that did not name one.
pub fn allocate_preset_id(f: &PtzFacts) -> (slot: Result<u8, FaultBody>)
    ensures
        match f.presets {
            Err(e) => slot matches Err(fault) && fault@ == device::fault(FaultCode::Other, e@),
            Ok(list) => match free_slot(ids_in_use(list@)) {
                Some(id) => slot matches Ok(given) && given == id,
                None => slot matches Err(fault) && fault@ == device::fault(
                    FaultCode::TooManyPresets,
                    "Camera '"@ + f.cam_name@ + "' has no free preset slots — all 64 are in use"@,
                ),
            },
        },
{
    match f.presets {
        Err(e) => Err(device::other_fault(e.clone())),
        Ok(list) => {
            let used = used_ids(list);
            match pick_free_preset_id(&used) {
                Some(id) => Ok(id),
                None => Err(
                    device::quoting_fault(
                        FaultCode::TooManyPresets,
                        "Camera '",
                        f.cam_name,
                        "' has no free preset slots — all 64 are in use",
                    ),
                ),
            }
        },
    }
}

/// Choose the slot that a `SetPreset` with this token, if any, stores to.
pub fn choose_slot(f: &PtzFacts, token: &Option<String>) -> (slot: Result<u8, FaultBody>)
    ensures
        (match slot {
            Ok(id) => Ok(id),
            Err(fault) => Err(fault@),
        }) == preset_slot(*f, text::opt_view(*token)),
{
    let named: Option<u8> = match token {
        Some(token) => parse_preset_id(token.as_str()),
        None => None,
    };
    match named {
        Some(id) => Ok(id),
        None => allocate_preset_id(f),
    }
}

/// The name that a preset is stored under.
pub open spec fn preset_name(given: Option<Seq<char>>) -> Seq<char> {
    match given {
        Some(name) => name,
        None => "preset"@,
    }
}

/// Whether presets have to be read to answer a request with this token, if any.
pub open spec fn presets_needed(
    caps: CameraCapabilities,
    action: Seq<char>,
    token: Option<Seq<char>>,
) -> bool {
    caps.presets && (action == "GetPresets"@ || action == "GotoHomePosition"@ || (
    caps.preset_write && action == "SetHomePosition"@) || (caps.preset_write && action
        == "SetPreset"@ && (match token {
        Some(token) => preset_of(token) is None,
        None => true,
    })))
}

/// Whether presets have to be read to answer a request with this token, if any.
pub fn token_needs_presets(
    caps: &CameraCapabilities,
    action: &str,
    token: Option<String>,
) -> (yes: bool)
    ensures
        yes == presets_needed(*caps, action@, text::opt_view(token)),
{
    if !caps.presets {
        return false;
    }
    if text::same(action, "GetPresets") || text::same(action, "GotoHomePosition") {
        return true;
    }
    if !caps.preset_write {
        return false;
    }
    if text::same(action, "SetHomePosition") {
        return true;
    }
    if !text::same(action, "SetPreset") {
        return false;
    }
    match token {
        Some(token) => parse_preset_id(token.as_str()).is_none(),
        None => true,
    }
}

/// Whether presets have to be read to answer a request.
pub fn needs_presets(caps: &CameraCapabilities, action: &str, body_xml: &str) -> (yes: bool)
    ensures
        yes == presets_needed(*caps, action@, request_of(body_xml@).preset_token),
{
    token_needs_presets(caps, action, xml::read_first_text_element(body_xml, "PresetToken"))
}

/// How a camera without anything to move answers: empty enumerations, and a
/// fault for the rest.
pub open spec fn fixed_answer(f: PtzFacts, action: Seq<char>) -> Result<
    PtzAnswerView,
    device::FaultView,
> {
    if action == "GetNodes"@ {
        after(Seq::empty(), "<tptz:GetNodesResponse/>"@)
    } else if action == "GetConfigurations"@ {
        after(Seq::empty(), "<tptz:GetConfigurationsResponse/>"@)
    } else if action == "GetServiceCapabilities"@ {
        after(Seq::empty(), ptz_capabilities(f.caps))
    } else {
        camera_fault(FaultCode::ActionNotSupported, f.cam_name@, "' has no PTZ support"@)
    }
}

/// How requests about the node and its configuration are answered.
pub open spec fn description(f: PtzFacts, action: Seq<char>) -> Option<Seq<char>> {
    let configuration = ptz_configuration(f.cam_name@, f.caps, "tptz:PTZConfiguration"@);
    let node = ptz_node(f.cam_name@, f.caps);
    if action == "GetConfigurations"@ {
        Some(
            "<tptz:GetConfigurationsResponse>"@ + configuration
                + "</tptz:GetConfigurationsResponse>"@,
        )
    } else if action == "GetConfiguration"@ {
        Some(
            "<tptz:GetConfigurationResponse>"@ + configuration
                + "</tptz:GetConfigurationResponse>"@,
        )
    } else if action == "GetConfigurationOptions"@ {
        Some(configuration_options(f.caps))
    } else if action == "GetServiceCapabilities"@ {
        Some(ptz_capabilities(f.caps))
    } else if action == "GetNodes"@ {
        Some("<tptz:GetNodesResponse>"@ + node + "</tptz:GetNodesResponse>"@)
    } else if action == "GetNode"@ {
        Some("<tptz:GetNodeResponse>"@ + node + "</tptz:GetNodeResponse>"@)
    } else if action == "GetStatus"@ {
        Some(status_xml(f))
    } else {
        None
    }
}

/// How moves are answered. A move along an axis that the camera does not have is
/// refused, and nothing is moved.
pub open spec fn move_answer(f: PtzFacts, action: Seq<char>, r: PtzRequestView) -> Option<
    Result<PtzAnswerView, device::FaultView>,
> {
    let moves = direction_of(f.motion.pan, f.motion.tilt) is Some;
    if action == "ContinuousMove"@ {
        Some(
            if !f.caps.pan_tilt && moves {
                camera_fault(
                    FaultCode::NoContinuousPanTiltSpace,
                    f.cam_name@,
                    "' has no pan/tilt"@,
                )
            } else if !f.caps.zoom && f.motion.zooms {
                camera_fault(
                    FaultCode::NoContinuousZoomSpace,
                    f.cam_name@,
                    "' has no optical zoom"@,
                )
            } else {
                after(continuous_commands(f), "<tptz:ContinuousMoveResponse/>"@)
            },
        )
    } else if action == "RelativeMove"@ {
        Some(
            if !f.caps.pan_tilt && moves {
                camera_fault(
                    FaultCode::NoRelativePanTiltSpace,
                    f.cam_name@,
                    "' has no pan/tilt"@,
                )
            } else if !f.caps.zoom && f.motion.zooms {
                camera_fault(FaultCode::NoRelativeZoomSpace, f.cam_name@, "' has no optical zoom"@)
            } else {
                after(relative_commands(f), "<tptz:RelativeMoveResponse/>"@)
            },
        )
    } else if action == "AbsoluteMove"@ {
        Some(
            if !f.motion.pan.zero || !f.motion.tilt.zero {
                Err(
                    device::fault(
                        FaultCode::NoAbsolutePtzSpace,
                        "Reolink cameras do not support absolute pan/tilt"@,
                    ),
                )
            } else if !r.zoom_given {
                after(Seq::empty(), "<tptz:AbsoluteMoveResponse/>"@)
            } else if !f.caps.zoom {
                camera_fault(FaultCode::NoAbsoluteZoomSpace, f.cam_name@, "' has no optical zoom"@)
            } else {
                after(seq![PtzCommandView::ZoomTo], "<tptz:AbsoluteMoveResponse/>"@)
            },
        )
    } else if action == "Stop"@ {
        let stopped = axes_stopped(r.stop_pan_tilt, r.stop_zoom);
        Some(after(stop_commands(f, stopped.0, stopped.1), "<tptz:StopResponse/>"@))
    } else {
        None
    }
}

/// How requests about presets and the home position are answered.
pub open spec fn preset_answer(f: PtzFacts, action: Seq<char>, r: PtzRequestView) -> Result<
    PtzAnswerView,
    device::FaultView,
> {
    if action == "GetPresets"@ {
        if !f.caps.presets {
            after(Seq::empty(), "<tptz:GetPresetsResponse/>"@)
        } else {
            match f.presets {
                Err(e) => Err(device::fault(FaultCode::Other, e@)),
                Ok(list) => after(
                    Seq::empty(),
                    "<tptz:GetPresetsResponse>"@ + presets_xml(list@)
                        + "</tptz:GetPresetsResponse>"@,
                ),
            }
        }
    } else if !f.caps.presets && (action == "GotoPreset"@ || action == "SetPreset"@ || action
        == "GotoHomePosition"@ || action == "SetHomePosition"@) {
        camera_fault(
            FaultCode::ActionNotSupported,
            f.cam_name@,
            "' does not support PTZ presets"@,
        )
    } else if action == "SetPreset"@ {
        if !f.caps.preset_write {
            camera_fault(
                FaultCode::ActionNotSupported,
                f.cam_name@,
                "' does not allow this user to store PTZ presets"@,
            )
        } else {
            match preset_slot(f, r.preset_token) {
                Err(e) => Err(e),
                Ok(id) => after(
                    seq![PtzCommandView::SetPreset(id, preset_name(r.preset_name))],
                    "<tptz:SetPresetResponse><tptz:PresetToken>preset_"@ + text::decimal(id as nat)
                        + "</tptz:PresetToken></tptz:SetPresetResponse>"@,
                ),
            }
        }
    } else if action == "SetHomePosition"@ {
        if !f.caps.preset_write {
            camera_fault(
                FaultCode::CannotOverwriteHome,
                f.cam_name@,
                "' does not allow this user to store PTZ presets, so the home position cannot be overwritten"@,
            )
        } else {
            after(
                seq![PtzCommandView::SetPreset(HOME_PRESET_ID, home_name(*f.presets))],
                "<tptz:SetHomePositionResponse/>"@,
            )
        }
    } else if action == "GotoPreset"@ {
        match r.preset_token {
            None => Err(device::fault(FaultCode::InvalidArgs, "Missing PresetToken"@)),
            Some(token) => match preset_of(token) {
                None => Err(
                    device::fault(
                        FaultCode::InvalidArgs,
                        "Unknown preset token '"@ + token + "'"@,
                    ),
                ),
                Some(id) => after(
                    seq![PtzCommandView::GotoPreset(id as u8)],
                    "<tptz:GotoPresetResponse/>"@,
                ),
            },
        }
    } else if action == "RemovePreset"@ {
        Err(
            device::fault(
                FaultCode::ActionNotSupported,
                "Reolink protocol has no preset deletion"@,
            ),
        )
    } else if action == "GotoHomePosition"@ {
        match f.presets {
            Err(e) => Err(device::fault(FaultCode::Other, e@)),
            Ok(list) => if home_of(list@) is None {
                camera_fault(
                    FaultCode::NoHomePosition,
                    f.cam_name@,
                    "' has no home position stored — save one first (ONVIF SetHomePosition, or preset 0 in the Reolink app)"@,
                )
            } else {
                after(
                    seq![PtzCommandView::GotoPreset(HOME_PRESET_ID)],
                    "<tptz:GotoHomePositionResponse/>"@,
                )
            },
        }
    } else {
        Err(
            device::fault(
                FaultCode::ActionNotSupported,
                "PTZ action '"@ + action + "' not supported"@,
            ),
        )
    }
}

/// How a request is answered.
pub open spec fn ptz_answer(f: PtzFacts, action: Seq<char>, r: PtzRequestView) -> Result<
    PtzAnswerView,
    device::FaultView,
> {
    if !f.caps.has_ptz() {
        fixed_answer(f, action)
    } else {
        match description(f, action) {
            Some(body) => after(Seq::empty(), body),
            None => match move_answer(f, action, r) {
                Some(answer) => answer,
                None => preset_answer(f, action, r),
            },
        }
    }
}

fn answer_fixed(f: &PtzFacts, action: &str) -> (answer: Result<PtzAnswer, FaultBody>)
    ensures
        answer_view(answer) == fixed_answer(*f, action@),
{
    if text::same(action, "GetNodes") {
        answer_only("<tptz:GetNodesResponse/>")
    } else if text::same(action, "GetConfigurations") {
        answer_only("<tptz:GetConfigurationsResponse/>")
    } else if text::same(action, "GetServiceCapabilities") {
        answer_only(render_service_capabilities(&f.caps).as_str())
    } else {
        refuse(FaultCode::ActionNotSupported, f.cam_name, "' has no PTZ support")
    }
}

fn wrapped(before: &str, inner: String, behind: &str) -> (out: Option<String>)
    ensures
        text::opt_view(out) == Some(before@ + inner@ + behind@),
{
    let mut out = before.to_owned();
    out.append(inner.as_str());
    out.append(behind);
    Some(out)
}

fn describe(f: &PtzFacts, action: &str) -> (body: Option<String>)
    requires
        time::clock_time(f.now),
    ensures
        text::opt_view(body) == description(*f, action@),
{
    if text::same(action, "GetConfigurations") {
        wrapped(
            "<tptz:GetConfigurationsResponse>",
            render_ptz_configuration_xml(f.cam_name, &f.caps, "tptz:PTZConfiguration"),
            "</tptz:GetConfigurationsResponse>",
        )
    } else if text::same(action, "GetConfiguration") {
        wrapped(
            "<tptz:GetConfigurationResponse>",
            render_ptz_configuration_xml(f.cam_name, &f.caps, "tptz:PTZConfiguration"),
            "</tptz:GetConfigurationResponse>",
        )
    } else if text::same(action, "GetConfigurationOptions") {
        Some(render_configuration_options(&f.caps))
    } else if text::same(action, "GetServiceCapabilities") {
        Some(render_service_capabilities(&f.caps))
    } else if text::same(action, "GetNodes") {
        wrapped(
            "<tptz:GetNodesResponse>",
            render_ptz_node(f.cam_name, &f.caps),
            "</tptz:GetNodesResponse>",
        )
    } else if text::same(action, "GetNode") {
        wrapped(
            "<tptz:GetNodeResponse>",
            render_ptz_node(f.cam_name, &f.caps),
            "</tptz:GetNodeResponse>",
        )
    } else if text::same(action, "GetStatus") {
        Some(render_status(f))
    } else {
        None
    }
}

fn answer_move(f: &PtzFacts, action: &str, r: &PtzRequest) -> (answer: Option<
    Result<PtzAnswer, FaultBody>,
>)
    ensures
        (match answer {
            Some(a) => Some(answer_view(a)),
            None => None,
        }) == move_answer(*f, action@, r@),
{
    let moves: bool = pick_direction(f.motion.pan, f.motion.tilt).is_some();
    if text::same(action, "ContinuousMove") {
        if !f.caps.pan_tilt && moves {
            return Some(
                refuse(FaultCode::NoContinuousPanTiltSpace, f.cam_name, "' has no pan/tilt"),
            );
        }
        if !f.caps.zoom && f.motion.zooms {
            return Some(
                refuse(FaultCode::NoContinuousZoomSpace, f.cam_name, "' has no optical zoom"),
            );
        }
        return Some(answer_with(continuous_move(f), "<tptz:ContinuousMoveResponse/>"));
    }
    if text::same(action, "RelativeMove") {
        if !f.caps.pan_tilt && moves {
            return Some(
                refuse(FaultCode::NoRelativePanTiltSpace, f.cam_name, "' has no pan/tilt"),
            );
        }
        if !f.caps.zoom && f.motion.zooms {
            return Some(
                refuse(FaultCode::NoRelativeZoomSpace, f.cam_name, "' has no optical zoom"),
            );
        }
        return Some(answer_with(relative_move(f), "<tptz:RelativeMoveResponse/>"));
    }
    if text::same(action, "AbsoluteMove") {
        if !f.motion.pan.zero || !f.motion.tilt.zero {
            return Some(
                Err(
                    FaultBody {
                        code: FaultCode::NoAbsolutePtzSpace,
                        reason: "Reolink cameras do not support absolute pan/tilt".to_owned(),
                    },
                ),
            );
        }
        if !r.zoom_given {
            return Some(answer_only("<tptz:AbsoluteMoveResponse/>"));
        }
        if !f.caps.zoom {
            return Some(
                refuse(FaultCode::NoAbsoluteZoomSpace, f.cam_name, "' has no optical zoom"),
            );
        }
        return Some(answer_one(PtzCommand::ZoomTo, "<tptz:AbsoluteMoveResponse/>"));
    }
    if text::same(action, "Stop") {
        let (pan_tilt, zoom) = stop_flags(&r.stop_pan_tilt, &r.stop_zoom);
        return Some(answer_with(stop(f, pan_tilt, zoom), "<tptz:StopResponse/>"));
    }
    None
}

fn answer_preset(f: &PtzFacts, action: &str, r: &PtzRequest) -> (answer: Result<PtzAnswer, FaultBody>)
    ensures
        answer_view(answer) == preset_answer(*f, action@, r@),
{
    if text::same(action, "GetPresets") {
        if !f.caps.presets {
            return answer_only("<tptz:GetPresetsResponse/>");
        }
        return match f.presets {
            Err(e) => Err(device::other_fault(e.clone())),
            Ok(list) => {
                let mut body = "<tptz:GetPresetsResponse>".to_owned();
                body.append(render_presets(list).as_str());
                body.append("</tptz:GetPresetsResponse>");
                answer_only(body.as_str())
            },
        };
    }
    if !f.caps.presets && (text::same(action, "GotoPreset") || text::same(action, "SetPreset")
        || text::same(action, "GotoHomePosition") || text::same(action, "SetHomePosition")) {
        return refuse(
            FaultCode::ActionNotSupported,
            f.cam_name,
            "' does not support PTZ presets",
        );
    }
    if text::same(action, "SetPreset") {
        if !f.caps.preset_write {
            return refuse(
                FaultCode::ActionNotSupported,
                f.cam_name,
                "' does not allow this user to store PTZ presets",
            );
        }
        let id: u8 = match choose_slot(f, &r.preset_token) {
            Ok(id) => id,
            Err(fault) => {
                return Err(fault);
            },
        };
        let name = match &r.preset_name {
            Some(name) => name.as_str().to_owned(),
            None => "preset".to_owned(),
        };
        let mut body = "<tptz:SetPresetResponse><tptz:PresetToken>preset_".to_owned();
        text::append_decimal(&mut body, id as u64);
        body.append("</tptz:PresetToken></tptz:SetPresetResponse>");
        return answer_one(PtzCommand::SetPreset(id, name), body.as_str());
    }
    if text::same(action, "SetHomePosition") {
        if !f.caps.preset_write {
            return refuse(
                FaultCode::CannotOverwriteHome,
                f.cam_name,
                "' does not allow this user to store PTZ presets, so the home position cannot be overwritten",
            );
        }
        let name = name_for_home(f.presets);
        return answer_one(
            PtzCommand::SetPreset(HOME_PRESET_ID, name),
            "<tptz:SetHomePositionResponse/>",
        );
    }
    if text::same(action, "GotoPreset") {
        let token = match &r.preset_token {
            Some(token) => token,
            None => {
                return Err(
                    FaultBody {
                        code: FaultCode::InvalidArgs,
                        reason: "Missing PresetToken".to_owned(),
                    },
                );
            },
        };
        return match parse_preset_id(token.as_str()) {
            Some(id) => answer_one(PtzCommand::GotoPreset(id), "<tptz:GotoPresetResponse/>"),
            None => Err(
                device::quoting_fault(
                    FaultCode::InvalidArgs,
                    "Unknown preset token '",
                    token.as_str(),
                    "'",
                ),
            ),
        };
    }
    if text::same(action, "RemovePreset") {
        return Err(
            FaultBody {
                code: FaultCode::ActionNotSupported,
                reason: "Reolink protocol has no preset deletion".to_owned(),
            },
        );
    }
    if text::same(action, "GotoHomePosition") {
        return match f.presets {
            Err(e) => Err(device::other_fault(e.clone())),
            Ok(list) => {
                if home_preset(list).is_none() {
                    refuse(
                        FaultCode::NoHomePosition,
                        f.cam_name,
                        "' has no home position stored — save one first (ONVIF SetHomePosition, or preset 0 in the Reolink app)",
                    )
                } else {
                    answer_one(
                        PtzCommand::GotoPreset(HOME_PRESET_ID),
                        "<tptz:GotoHomePositionResponse/>",
                    )
                }
            },
        };
    }
    Err(
        device::quoting_fault(
            FaultCode::ActionNotSupported,
            "PTZ action '",
            action,
            "' not supported",
        ),
    )
}

/// Answer what a request carries.
pub fn answer(f: &PtzFacts, action: &str, r: &PtzRequest) -> (answer: Result<PtzAnswer, FaultBody>)
    requires
        time::clock_time(f.now),
    ensures
        answer_view(answer) == ptz_answer(*f, action@, r@),
{
    if !f.caps.ptz() {
        return answer_fixed(f, action);
    }
    match describe(f, action) {
        Some(body) => {
            return answer_only(body.as_str());
        },
        None => {},
    }
    match answer_move(f, action, r) {
        Some(answer) => answer,
        None => answer_preset(f, action, r),
    }
}

/// Answer a request: what the camera has to do, and what to say once it has.
pub fn dispatch(f: &PtzFacts, action: &str, body_xml: &str) -> (answer: Result<PtzAnswer, FaultBody>)
    requires
        time::clock_time(f.now),
    ensures
        answer_view(answer) == ptz_answer(*f, action@, request_of(body_xml@)),
{
    answer(f, action, &read_request(body_xml))
}

/// Presets that are not needed do not matter.
pub proof fn law_unneeded_presets_do_not_matter(
    f: PtzFacts,
    g: PtzFacts,
    action: Seq<char>,
    r: PtzRequestView,
)
    requires
        !presets_needed(f.caps, action, r.preset_token),
        f.cam_name == g.cam_name,
        f.caps == g.caps,
        f.motion == g.motion,
        f.zoom_position == g.zoom_position,
        f.now == g.now,
    ensures
        ptz_answer(f, action, r) == ptz_answer(g, action, r),
{
}

/// Whether a command moves or zooms a camera.
pub open spec fn drives(c: PtzCommandView) -> bool {
    c is Move || c is MoveAwhile || c is Zoom || c is ZoomBy || c is ZoomTo
}

/// A camera is never told to move along an axis that it does not have.
pub proof fn law_missing_axes_never_move(f: PtzFacts, action: Seq<char>, r: PtzRequestView, i: int)
    requires
        ptz_answer(f, action, r) matches Ok(a) && 0 <= i < a.commands.len() && drives(
            a.commands[i],
        ),
    ensures
        ptz_answer(f, action, r) matches Ok(a) && (if a.commands[i] is Move
            || a.commands[i] is MoveAwhile {
            f.caps.pan_tilt
        } else {
            f.caps.zoom
        }),
{
}

/// A move that is to last for a while is always stopped.
pub proof fn law_relative_moves_are_stopped(
    f: PtzFacts,
    action: Seq<char>,
    r: PtzRequestView,
    i: int,
)
    requires
        ptz_answer(f, action, r) matches Ok(a) && 0 <= i < a.commands.len() && a.commands[i]
            is MoveAwhile,
    ensures
        ptz_answer(f, action, r) matches Ok(a) && i + 1 < a.commands.len() && a.commands[i + 1]
            is StopQuietly,
{
}

/// Nothing is stored for a user who may not store presets.
pub proof fn law_read_only_presets_are_kept(
    f: PtzFacts,
    action: Seq<char>,
    r: PtzRequestView,
    i: int,
)
    requires
        !f.caps.preset_write,
        ptz_answer(f, action, r) matches Ok(a) && 0 <= i < a.commands.len(),
    ensures
        ptz_answer(f, action, r) matches Ok(a) && !(a.commands[i] is SetPreset),
{
}

/// A position stored without naming a slot does not move the home position,
/// unless every other slot is in use.
pub proof fn law_new_presets_spare_home(f: PtzFacts, list: Vec<Preset>)
    requires
        *f.presets == Ok::<Vec<Preset>, String>(list),
        exists|id: u8| 1 <= id < MAX_PRESETS && !#[trigger] ids_in_use(list@).contains(id),
    ensures
        preset_slot(f, None) matches Ok(id) && id != HOME_PRESET_ID && !ids_in_use(
            list@,
        ).contains(id),
{
    law_free_slots_are_used_up(ids_in_use(list@));
}

proof fn lemma_actions()
    ensures
        "GetNodes"@.len() == 8,
        "GetNode"@.len() == 7,
        "GetConfigurations"@.len() == 17,
        "GetConfiguration"@.len() == 16,
        "GetConfigurationOptions"@.len() == 23,
        "GetServiceCapabilities"@.len() == 22,
        "GetStatus"@.len() == 9,
        "ContinuousMove"@.len() == 14,
        "RelativeMove"@.len() == 12,
        "AbsoluteMove"@.len() == 12,
        "Stop"@.len() == 4,
        "GetPresets"@.len() == 10,
        "GotoPreset"@.len() == 10,
        "SetPreset"@.len() == 9,
        "GotoHomePosition"@.len() == 16,
        "SetHomePosition"@.len() == 15,
        "RemovePreset"@.len() == 12,
        "GetConfiguration"@ != "GotoHomePosition"@,
        "GetStatus"@ != "SetPreset"@,
        "RelativeMove"@ != "AbsoluteMove"@,
        "RelativeMove"@ != "RemovePreset"@,
        "AbsoluteMove"@ != "RemovePreset"@,
        "GetPresets"@ != "GotoPreset"@,
{
    reveal_strlit("GetNodes");
    reveal_strlit("GetNode");
    reveal_strlit("GetConfigurations");
    reveal_strlit("GetConfiguration");
    reveal_strlit("GetConfigurationOptions");
    reveal_strlit("GetServiceCapabilities");
    reveal_strlit("GetStatus");
    reveal_strlit("ContinuousMove");
    reveal_strlit("RelativeMove");
    reveal_strlit("AbsoluteMove");
    reveal_strlit("Stop");
    reveal_strlit("GetPresets");
    reveal_strlit("GotoPreset");
    reveal_strlit("SetPreset");
    reveal_strlit("GotoHomePosition");
    reveal_strlit("SetHomePosition");
    reveal_strlit("RemovePreset");
    assert("GetConfiguration"@[1] != "GotoHomePosition"@[1]);
    assert("GetStatus"@[0] != "SetPreset"@[0]);
    assert("RelativeMove"@[0] != "AbsoluteMove"@[0]);
    assert("RelativeMove"@[2] != "RemovePreset"@[2]);
    assert("AbsoluteMove"@[0] != "RemovePreset"@[0]);
    assert("GetPresets"@[1] != "GotoPreset"@[1]);
}

/// A command stands for itself in contracts.
pub proof fn law_commands_are_seen_as_they_are(c: PtzCommand)
    ensures
        c@ is Stop <==> c is Stop,
        c@ is StopQuietly <==> c is StopQuietly,
        c@ is AbortZoom <==> c is AbortZoom,
        c@ is ZoomBy <==> c is ZoomBy,
        c@ is ZoomTo <==> c is ZoomTo,
        c matches PtzCommand::Move(d) ==> c@ == PtzCommandView::Move(d),
        c matches PtzCommand::MoveAwhile(d) ==> c@ == PtzCommandView::MoveAwhile(d),
        c matches PtzCommand::Zoom { inward } ==> c@ == (PtzCommandView::Zoom { inward }),
        c matches PtzCommand::GotoPreset(id) ==> c@ == PtzCommandView::GotoPreset(id),
        c matches PtzCommand::SetPreset(id, name) ==> c@ == PtzCommandView::SetPreset(id, name@),
{
}

/// The way a velocity points: to the right exactly if the pan component matters
/// and is above zero, to the left if it matters and is not, and up and down by the
/// tilt component in the same way. Without either there is no direction.
pub proof fn law_directions_follow_the_vector(pan: Axis, tilt: Axis)
    ensures
        ({
            let d = direction_of(pan, tilt);
            let right = d == Some(Direction::Right) || d == Some(Direction::RightUp) || d == Some(
                Direction::RightDown,
            );
            let left = d == Some(Direction::Left) || d == Some(Direction::LeftUp) || d == Some(
                Direction::LeftDown,
            );
            let up = d == Some(Direction::Up) || d == Some(Direction::LeftUp) || d == Some(
                Direction::RightUp,
            );
            let down = d == Some(Direction::Down) || d == Some(Direction::LeftDown) || d == Some(
                Direction::RightDown,
            );
            &&& right <==> pan.matters && pan.positive
            &&& left <==> pan.matters && !pan.positive
            &&& up <==> tilt.matters && tilt.positive
            &&& down <==> tilt.matters && !tilt.positive
            &&& d is None <==> !pan.matters && !tilt.matters
        }),
{
}

/// A request to stop stops the camera's movement exactly if it covers pan and
/// tilt and the camera has them, ends a zoom exactly if it covers zoom, and does
/// nothing else. It covers an axis whose flag is set, or both if it has no flags.
pub proof fn law_stop_stops_what_it_covers(f: PtzFacts, body: Seq<char>)
    requires
        f.caps.pan_tilt || f.caps.zoom || f.caps.presets,
    ensures
        ({
            let pan_tilt = xml::first_text(body, "PanTilt"@);
            let zoom = xml::first_text(body, "Zoom"@);
            let bare = pan_tilt is None && zoom is None;
            let covers_movement = bare || (pan_tilt matches Some(raw)
                && text::same_ignoring_ascii_case(text::trimmed(raw), "true"@));
            let covers_zoom = bare || (zoom matches Some(raw) && text::same_ignoring_ascii_case(
                text::trimmed(raw),
                "true"@,
            ));
            ptz_answer(f, "Stop"@, request_of(body)) matches Ok(a) && {
                &&& a.commands.contains(PtzCommandView::Stop) <==> covers_movement
                    && f.caps.pan_tilt
                &&& a.commands.contains(PtzCommandView::AbortZoom) <==> covers_zoom
                &&& forall|i: int|
                    0 <= i < a.commands.len() ==> (#[trigger] a.commands[i] is Stop
                        || a.commands[i] is AbortZoom)
            }
        }),
{
    lemma_actions();
    let r = request_of(body);
    let (pan_tilt, zoom) = axes_stopped(r.stop_pan_tilt, r.stop_zoom);
    let commands = stop_commands(f, pan_tilt, zoom);
    if pan_tilt && f.caps.pan_tilt {
        assert(commands[0] is Stop);
        if zoom {
            assert(commands[1] is AbortZoom);
        }
    } else if zoom {
        assert(commands[0] is AbortZoom);
    }
}

/// A continuous move ends the zoom before it, goes the way the velocity points,
/// and zooms in for a zoom component above zero and out for one below; a request
/// for none of these moves makes the camera stand still.
pub proof fn law_continuous_moves_go_the_way_they_point(f: PtzFacts, r: PtzRequestView)
    requires
        f.caps.pan_tilt,
        f.caps.zoom,
    ensures
        ptz_answer(f, "ContinuousMove"@, r) matches Ok(a) && {
            let d = direction_of(f.motion.pan, f.motion.tilt);
            &&& a.commands.len() > 0 && a.commands[0] is AbortZoom
            &&& d matches Some(way) ==> a.commands.contains(PtzCommandView::Move(way))
            &&& d is None && f.motion.pan.zero && f.motion.tilt.zero ==> a.commands.contains(
                PtzCommandView::StopQuietly,
            )
            &&& f.motion.zooms ==> a.commands.last() == (PtzCommandView::Zoom {
                inward: f.motion.zoom_in,
            })
            &&& !f.motion.zooms ==> !(a.commands.last() is Zoom)
            &&& forall|i: int|
                0 <= i < a.commands.len() ==> (#[trigger] a.commands[i] matches PtzCommandView::Move(
                    way,
                ) ==> d == Some(way))
            &&& a.commands.len() <= 3
        },
{
    lemma_actions();
    let commands = continuous_commands(f);
    match direction_of(f.motion.pan, f.motion.tilt) {
        Some(way) => {
            assert(commands[1] == PtzCommandView::Move(way));
        },
        None => {
            if f.motion.pan.zero && f.motion.tilt.zero {
                assert(commands[1] is StopQuietly);
            }
        },
    }
}

/// A relative move goes the way the translation points, for a while, is stopped,
/// and zooms by what was asked for exactly if a zoom was.
pub proof fn law_relative_moves_go_the_way_they_point(f: PtzFacts, r: PtzRequestView)
    requires
        f.caps.pan_tilt,
        f.caps.zoom,
    ensures
        ptz_answer(f, "RelativeMove"@, r) matches Ok(a) && {
            let d = direction_of(f.motion.pan, f.motion.tilt);
            &&& a.commands.len() > 0 && a.commands[0] is AbortZoom
            &&& d matches Some(way) ==> a.commands.len() >= 3 && a.commands[1]
                == PtzCommandView::MoveAwhile(way) && a.commands[2] is StopQuietly
            &&& d is None ==> forall|i: int|
                0 <= i < a.commands.len() ==> !(#[trigger] a.commands[i] is MoveAwhile)
            &&& a.commands.contains(PtzCommandView::ZoomBy) <==> f.motion.zooms
        },
{
    lemma_actions();
    let commands = relative_commands(f);
    if f.motion.zooms {
        assert(commands.last() is ZoomBy);
        assert(commands[commands.len() - 1] is ZoomBy);
    }
}

/// An absolute move can only be a zoom: pan and tilt are refused, a zoom position
/// is gone to, and without one nothing moves.
pub proof fn law_absolute_moves_only_zoom(f: PtzFacts, body: Seq<char>)
    requires
        f.caps.pan_tilt || f.caps.zoom || f.caps.presets,
    ensures
        ({
            let answer = ptz_answer(f, "AbsoluteMove"@, request_of(body));
            let given = zoom_from(xml::xml_events(body), "Position"@, false);
            &&& !f.motion.pan.zero || !f.motion.tilt.zero ==> (answer matches Err(fault)
                && fault.code == FaultCode::NoAbsolutePtzSpace)
            &&& f.motion.pan.zero && f.motion.tilt.zero && given && f.caps.zoom ==> (answer
                matches Ok(a) && a.commands == seq![PtzCommandView::ZoomTo])
            &&& f.motion.pan.zero && f.motion.tilt.zero && given && !f.caps.zoom ==> (answer
                matches Err(fault) && fault.code == FaultCode::NoAbsoluteZoomSpace)
            &&& f.motion.pan.zero && f.motion.tilt.zero && !given ==> (answer matches Ok(a)
                && a.commands.len() == 0)
        }),
{
    lemma_actions();
}

/// A move along an axis that the camera does not have is refused, by the fault
/// for that kind of move along that axis.
pub proof fn law_impossible_moves_are_refused(f: PtzFacts, r: PtzRequestView)
    requires
        f.caps.pan_tilt || f.caps.zoom || f.caps.presets,
    ensures
        ({
            let moves = f.motion.pan.matters || f.motion.tilt.matters;
            let continuous = ptz_answer(f, "ContinuousMove"@, r);
            let relative = ptz_answer(f, "RelativeMove"@, r);
            &&& !f.caps.pan_tilt && moves ==> (continuous matches Err(fault) && fault.code
                == FaultCode::NoContinuousPanTiltSpace)
            &&& !f.caps.pan_tilt && moves ==> (relative matches Err(fault) && fault.code
                == FaultCode::NoRelativePanTiltSpace)
            &&& f.caps.pan_tilt && !f.caps.zoom && f.motion.zooms ==> (continuous matches Err(fault)
                && fault.code == FaultCode::NoContinuousZoomSpace)
            &&& f.caps.pan_tilt && !f.caps.zoom && f.motion.zooms ==> (relative matches Err(fault)
                && fault.code == FaultCode::NoRelativeZoomSpace)
        }),
{
    lemma_actions();
}

/// A preset that a client goes to or stores is the one its token names: the token
/// of slot `id` is `preset_` and its number, and it is what storing answers.
pub proof fn law_presets_are_the_ones_named(f: PtzFacts, r: PtzRequestView, id: u8)
    requires
        f.caps.presets,
        r.preset_token == Some("preset_"@ + text::decimal(id as nat)),
    ensures
        ptz_answer(f, "GotoPreset"@, r) matches Ok(a) && a.commands
            == seq![PtzCommandView::GotoPreset(id)],
        f.caps.preset_write ==> (ptz_answer(f, "SetPreset"@, r) matches Ok(a) && a.commands
            == seq![
            PtzCommandView::SetPreset(
                id,
                match r.preset_name {
                    Some(name) => name,
                    None => "preset"@,
                },
            ),
        ]),
        !f.caps.preset_write ==> ptz_answer(f, "SetPreset"@, r) is Err,
{
    lemma_actions();
    law_preset_tokens_round_trip(id);
}

/// Home is preset 0: going home goes there if something is stored there, and
/// setting home stores there, under the name it had.
pub proof fn law_home_is_preset_zero(f: PtzFacts, r: PtzRequestView, list: Vec<Preset>, i: int)
    requires
        f.caps.presets,
        *f.presets == Ok::<Vec<Preset>, String>(list),
    ensures
        0 <= i < list@.len() && list@[i].id == 0 ==> (ptz_answer(f, "GotoHomePosition"@, r)
            matches Ok(a) && a.commands == seq![PtzCommandView::GotoPreset(0)]),
        (forall|j: int| 0 <= j < list@.len() ==> (#[trigger] list@[j]).id != 0) ==> (ptz_answer(
            f,
            "GotoHomePosition"@,
            r,
        ) matches Err(fault) && fault.code == FaultCode::NoHomePosition),
        f.caps.preset_write && 0 <= i < list@.len() && list@[i].id == 0 && (forall|j: int|
            0 <= j < i ==> (#[trigger] list@[j]).id != 0) ==> (ptz_answer(f, "SetHomePosition"@, r)
            matches Ok(a) && a.commands == seq![
            PtzCommandView::SetPreset(
                0,
                match list@[i].name {
                    Some(n) => if text::trimmed(n@).len() > 0 {
                        n@
                    } else {
                        "home"@
                    },
                    None => "home"@,
                },
            ),
        ]),
        f.caps.preset_write && (forall|j: int|
            0 <= j < list@.len() ==> (#[trigger] list@[j]).id != 0) ==> (ptz_answer(
            f,
            "SetHomePosition"@,
            r,
        ) matches Ok(a) && a.commands == seq![PtzCommandView::SetPreset(0, "home"@)]),
        !f.caps.preset_write ==> (ptz_answer(f, "SetHomePosition"@, r) matches Err(fault)
            && fault.code == FaultCode::CannotOverwriteHome),
{
    lemma_actions();
    lemma_home(list@, i);
}

proof fn lemma_home(list: Seq<Preset>, i: int)
    ensures
        0 <= i < list.len() && list[i].id == 0 ==> home_of(list) is Some,
        (forall|j: int| 0 <= j < list.len() ==> (#[trigger] list[j]).id != 0) ==> home_of(list)
            is None,
        0 <= i < list.len() && list[i].id == 0 && (forall|j: int|
            0 <= j < i ==> (#[trigger] list[j]).id != 0) ==> home_of(list) == Some(list[i]),
    decreases list.len(),
{
    if list.len() > 0 {
        let rest = list.drop_first();
        lemma_home(rest, i - 1);
        if list[0].id != 0 {
            if 0 < i < list.len() {
                assert(rest[i - 1] == list[i]);
            }
            assert forall|j: int| 0 <= j < rest.len() implies #[trigger] rest[j] == list[j + 1] by {}
        }
    }
}

/// A zoom that goes on goes the way it was started, by a twentieth of the range at
/// a time, and stops at the end of the range it runs towards.
pub proof fn law_zooms_run_their_own_way(run: ZoomRun)
    requires
        run.min < run.max,
        run.min <= run.cur <= run.max,
    ensures
        run.inward ==> run.cur <= zoom_after(run) <= run.max,
        !run.inward ==> run.min <= zoom_after(run) <= run.cur,
        run.inward && run.cur < run.max ==> zoom_after(run) > run.cur,
        !run.inward && run.cur > run.min ==> zoom_after(run) < run.cur,
        run.max - run.min >= 20 && run.inward && run.cur + (run.max - run.min) / 20 <= run.max
            ==> zoom_after(run) == run.cur + (run.max - run.min) / 20,
        run.max - run.min >= 20 && !run.inward && run.cur - (run.max - run.min) / 20 >= run.min
            ==> zoom_after(run) == run.cur - (run.max - run.min) / 20,
{
}

/// A camera that moves nothing is asked nothing, and says that it has no PTZ
/// support to every request but three: for its nodes and configurations, of which
/// it has none, and for what the service can do.
pub proof fn law_fixed_cameras_are_left_alone(f: PtzFacts, action: Seq<char>, r: PtzRequestView)
    requires
        !f.caps.pan_tilt,
        !f.caps.zoom,
        !f.caps.presets,
    ensures
        match ptz_answer(f, action, r) {
            Ok(a) => a.commands.len() == 0 && (action == "GetNodes"@ || action
                == "GetConfigurations"@ || action == "GetServiceCapabilities"@),
            Err(fault) => fault.code == FaultCode::ActionNotSupported,
        },
{
}

proof fn lemma_descriptions()
    ensures
        "GetConfigurations"@.len() == 17,
        "GetConfiguration"@.len() == 16,
        "GetConfigurationOptions"@.len() == 23,
        "GetServiceCapabilities"@.len() == 22,
        "GetNodes"@.len() == 8,
        "GetNode"@.len() == 7,
        "GetStatus"@.len() == 9,
{
    reveal_strlit("GetConfigurations");
    reveal_strlit("GetConfiguration");
    reveal_strlit("GetConfigurationOptions");
    reveal_strlit("GetServiceCapabilities");
    reveal_strlit("GetNodes");
    reveal_strlit("GetNode");
    reveal_strlit("GetStatus");

}

/// A node tells whether its home is fixed, which it is where positions can be recalled
/// but not stored, how many positions it has room for, 64 or none, and whether it has a
/// home.
pub proof fn law_nodes_tell_what_the_camera_can(cam_name: Seq<char>, caps: CameraCapabilities)
    ensures
        text::has(ptz_node(cam_name, caps), " token=\"ptz_node_"@ + soap::escaped(cam_name) + "\""@),
        text::has(ptz_node(cam_name, caps), " FixedHomePosition=\""@ + (if caps.presets && !caps.preset_write { "true"@ } else { "false"@ }) + "\""@),
        text::has(ptz_node(cam_name, caps), "<tt:SupportedPTZSpaces>"@ + supported_spaces(caps) + "</tt:SupportedPTZSpaces>"@),
        text::has(ptz_node(cam_name, caps), "<tt:MaximumNumberOfPresets>"@ + text::decimal(if caps.presets { 64nat } else { 0nat }) + "</tt:MaximumNumberOfPresets>"@),
        text::has(ptz_node(cam_name, caps), "<tt:HomeSupported>"@ + (if caps.presets { "true"@ } else { "false"@ }) + "</tt:HomeSupported>"@),
{
    let n_0 = " token=\"ptz_node_"@ + soap::escaped(cam_name) + "\""@;
    assert(text::has("<tptz:PTZNode token=\"ptz_node_"@ + soap::escaped(cam_name) + "\" FixedHomePosition=\""@, n_0)) by {
        reveal_strlit("<tptz:PTZNode token=\"ptz_node_");
        reveal_strlit("\" FixedHomePosition=\"");
        reveal_strlit(" token=\"ptz_node_");
        reveal_strlit("\"");
        assert("<tptz:PTZNode token=\"ptz_node_"@.skip(13) =~= " token=\"ptz_node_"@);
        assert("\" FixedHomePosition=\""@.take(1) =~= "\""@);
        let head = Seq::<char>::empty();
        text::lemma_has_tagged(head, "<tptz:PTZNode token=\"ptz_node_"@, soap::escaped(cam_name), "\" FixedHomePosition=\""@, Seq::empty(), " token=\"ptz_node_"@, "\""@);
        assert(head + "<tptz:PTZNode token=\"ptz_node_"@ + soap::escaped(cam_name) + "\" FixedHomePosition=\""@ + Seq::empty() =~= head + "<tptz:PTZNode token=\"ptz_node_"@ + soap::escaped(cam_name) + "\" FixedHomePosition=\""@);
        assert(head + "<tptz:PTZNode token=\"ptz_node_"@ =~= "<tptz:PTZNode token=\"ptz_node_"@);
    }
    let n_1 = " FixedHomePosition=\""@ + text::bool_text(caps.presets && !caps.preset_write) + "\""@;
    assert(text::has("<tptz:PTZNode token=\"ptz_node_"@ + soap::escaped(cam_name) + "\" FixedHomePosition=\""@ + text::bool_text(caps.presets && !caps.preset_write) + "\"><tt:Name>"@, n_1)) by {
        reveal_strlit("\" FixedHomePosition=\"");
        reveal_strlit("\"><tt:Name>");
        reveal_strlit(" FixedHomePosition=\"");
        reveal_strlit("\"");
        assert("\" FixedHomePosition=\""@.skip(1) =~= " FixedHomePosition=\""@);
        assert("\"><tt:Name>"@.take(1) =~= "\""@);
        let head = "<tptz:PTZNode token=\"ptz_node_"@ + soap::escaped(cam_name);
        text::lemma_has_tagged(head, "\" FixedHomePosition=\""@, text::bool_text(caps.presets && !caps.preset_write), "\"><tt:Name>"@, Seq::empty(), " FixedHomePosition=\""@, "\""@);
        assert(head + "\" FixedHomePosition=\""@ + text::bool_text(caps.presets && !caps.preset_write) + "\"><tt:Name>"@ + Seq::empty() =~= head + "\" FixedHomePosition=\""@ + text::bool_text(caps.presets && !caps.preset_write) + "\"><tt:Name>"@);
    }
    let n_2 = "<tt:SupportedPTZSpaces>"@ + supported_spaces(caps) + "</tt:SupportedPTZSpaces>"@;
    assert(text::has("<tptz:PTZNode token=\"ptz_node_"@ + soap::escaped(cam_name) + "\" FixedHomePosition=\""@ + text::bool_text(caps.presets && !caps.preset_write) + "\"><tt:Name>"@ + soap::escaped(cam_name) + "_node</tt:Name><tt:SupportedPTZSpaces>"@ + supported_spaces(caps) + "</tt:SupportedPTZSpaces><tt:MaximumNumberOfPresets>"@, n_2)) by {
        reveal_strlit("_node</tt:Name><tt:SupportedPTZSpaces>");
        reveal_strlit("</tt:SupportedPTZSpaces><tt:MaximumNumberOfPresets>");
        reveal_strlit("<tt:SupportedPTZSpaces>");
        reveal_strlit("</tt:SupportedPTZSpaces>");
        assert("_node</tt:Name><tt:SupportedPTZSpaces>"@.skip(15) =~= "<tt:SupportedPTZSpaces>"@);
        assert("</tt:SupportedPTZSpaces><tt:MaximumNumberOfPresets>"@.take(24) =~= "</tt:SupportedPTZSpaces>"@);
        let head = "<tptz:PTZNode token=\"ptz_node_"@ + soap::escaped(cam_name) + "\" FixedHomePosition=\""@ + text::bool_text(caps.presets && !caps.preset_write) + "\"><tt:Name>"@ + soap::escaped(cam_name);
        text::lemma_has_tagged(head, "_node</tt:Name><tt:SupportedPTZSpaces>"@, supported_spaces(caps), "</tt:SupportedPTZSpaces><tt:MaximumNumberOfPresets>"@, Seq::empty(), "<tt:SupportedPTZSpaces>"@, "</tt:SupportedPTZSpaces>"@);
        assert(head + "_node</tt:Name><tt:SupportedPTZSpaces>"@ + supported_spaces(caps) + "</tt:SupportedPTZSpaces><tt:MaximumNumberOfPresets>"@ + Seq::empty() =~= head + "_node</tt:Name><tt:SupportedPTZSpaces>"@ + supported_spaces(caps) + "</tt:SupportedPTZSpaces><tt:MaximumNumberOfPresets>"@);
    }
    let n_3 = "<tt:MaximumNumberOfPresets>"@ + text::decimal(preset_slots(caps)) + "</tt:MaximumNumberOfPresets>"@;
    assert(text::has("<tptz:PTZNode token=\"ptz_node_"@ + soap::escaped(cam_name) + "\" FixedHomePosition=\""@ + text::bool_text(caps.presets && !caps.preset_write) + "\"><tt:Name>"@ + soap::escaped(cam_name) + "_node</tt:Name><tt:SupportedPTZSpaces>"@ + supported_spaces(caps) + "</tt:SupportedPTZSpaces><tt:MaximumNumberOfPresets>"@ + text::decimal(preset_slots(caps)) + "</tt:MaximumNumberOfPresets><tt:HomeSupported>"@, n_3)) by {
        reveal_strlit("</tt:SupportedPTZSpaces><tt:MaximumNumberOfPresets>");
        reveal_strlit("</tt:MaximumNumberOfPresets><tt:HomeSupported>");
        reveal_strlit("<tt:MaximumNumberOfPresets>");
        reveal_strlit("</tt:MaximumNumberOfPresets>");
        assert("</tt:SupportedPTZSpaces><tt:MaximumNumberOfPresets>"@.skip(24) =~= "<tt:MaximumNumberOfPresets>"@);
        assert("</tt:MaximumNumberOfPresets><tt:HomeSupported>"@.take(28) =~= "</tt:MaximumNumberOfPresets>"@);
        let head = "<tptz:PTZNode token=\"ptz_node_"@ + soap::escaped(cam_name) + "\" FixedHomePosition=\""@ + text::bool_text(caps.presets && !caps.preset_write) + "\"><tt:Name>"@ + soap::escaped(cam_name) + "_node</tt:Name><tt:SupportedPTZSpaces>"@ + supported_spaces(caps);
        text::lemma_has_tagged(head, "</tt:SupportedPTZSpaces><tt:MaximumNumberOfPresets>"@, text::decimal(preset_slots(caps)), "</tt:MaximumNumberOfPresets><tt:HomeSupported>"@, Seq::empty(), "<tt:MaximumNumberOfPresets>"@, "</tt:MaximumNumberOfPresets>"@);
        assert(head + "</tt:SupportedPTZSpaces><tt:MaximumNumberOfPresets>"@ + text::decimal(preset_slots(caps)) + "</tt:MaximumNumberOfPresets><tt:HomeSupported>"@ + Seq::empty() =~= head + "</tt:SupportedPTZSpaces><tt:MaximumNumberOfPresets>"@ + text::decimal(preset_slots(caps)) + "</tt:MaximumNumberOfPresets><tt:HomeSupported>"@);
    }
    let n_4 = "<tt:HomeSupported>"@ + text::bool_text(caps.presets) + "</tt:HomeSupported>"@;
    assert(text::has("<tptz:PTZNode token=\"ptz_node_"@ + soap::escaped(cam_name) + "\" FixedHomePosition=\""@ + text::bool_text(caps.presets && !caps.preset_write) + "\"><tt:Name>"@ + soap::escaped(cam_name) + "_node</tt:Name><tt:SupportedPTZSpaces>"@ + supported_spaces(caps) + "</tt:SupportedPTZSpaces><tt:MaximumNumberOfPresets>"@ + text::decimal(preset_slots(caps)) + "</tt:MaximumNumberOfPresets><tt:HomeSupported>"@ + text::bool_text(caps.presets) + "</tt:HomeSupported></tptz:PTZNode>"@, n_4)) by {
        reveal_strlit("</tt:MaximumNumberOfPresets><tt:HomeSupported>");
        reveal_strlit("</tt:HomeSupported></tptz:PTZNode>");
        reveal_strlit("<tt:HomeSupported>");
        reveal_strlit("</tt:HomeSupported>");
        assert("</tt:MaximumNumberOfPresets><tt:HomeSupported>"@.skip(28) =~= "<tt:HomeSupported>"@);
        assert("</tt:HomeSupported></tptz:PTZNode>"@.take(19) =~= "</tt:HomeSupported>"@);
        let head = "<tptz:PTZNode token=\"ptz_node_"@ + soap::escaped(cam_name) + "\" FixedHomePosition=\""@ + text::bool_text(caps.presets && !caps.preset_write) + "\"><tt:Name>"@ + soap::escaped(cam_name) + "_node</tt:Name><tt:SupportedPTZSpaces>"@ + supported_spaces(caps) + "</tt:SupportedPTZSpaces><tt:MaximumNumberOfPresets>"@ + text::decimal(preset_slots(caps));
        text::lemma_has_tagged(head, "</tt:MaximumNumberOfPresets><tt:HomeSupported>"@, text::bool_text(caps.presets), "</tt:HomeSupported></tptz:PTZNode>"@, Seq::empty(), "<tt:HomeSupported>"@, "</tt:HomeSupported>"@);
        assert(head + "</tt:MaximumNumberOfPresets><tt:HomeSupported>"@ + text::bool_text(caps.presets) + "</tt:HomeSupported></tptz:PTZNode>"@ + Seq::empty() =~= head + "</tt:MaximumNumberOfPresets><tt:HomeSupported>"@ + text::bool_text(caps.presets) + "</tt:HomeSupported></tptz:PTZNode>"@);
    }
    let up_to_2 = "<tptz:PTZNode token=\"ptz_node_"@ + soap::escaped(cam_name) + "\" FixedHomePosition=\""@;
    let up_to_3 = up_to_2 + text::bool_text(caps.presets && !caps.preset_write);
    text::lemma_has_before(up_to_2, text::bool_text(caps.presets && !caps.preset_write), n_0);
    let up_to_4 = up_to_3 + "\"><tt:Name>"@;
    text::lemma_has_before(up_to_3, "\"><tt:Name>"@, n_0);
    let up_to_5 = up_to_4 + soap::escaped(cam_name);
    text::lemma_has_before(up_to_4, soap::escaped(cam_name), n_0);
    text::lemma_has_before(up_to_4, soap::escaped(cam_name), n_1);
    let up_to_6 = up_to_5 + "_node</tt:Name><tt:SupportedPTZSpaces>"@;
    text::lemma_has_before(up_to_5, "_node</tt:Name><tt:SupportedPTZSpaces>"@, n_0);
    text::lemma_has_before(up_to_5, "_node</tt:Name><tt:SupportedPTZSpaces>"@, n_1);
    let up_to_7 = up_to_6 + supported_spaces(caps);
    text::lemma_has_before(up_to_6, supported_spaces(caps), n_0);
    text::lemma_has_before(up_to_6, supported_spaces(caps), n_1);
    let up_to_8 = up_to_7 + "</tt:SupportedPTZSpaces><tt:MaximumNumberOfPresets>"@;
    text::lemma_has_before(up_to_7, "</tt:SupportedPTZSpaces><tt:MaximumNumberOfPresets>"@, n_0);
    text::lemma_has_before(up_to_7, "</tt:SupportedPTZSpaces><tt:MaximumNumberOfPresets>"@, n_1);
    let up_to_9 = up_to_8 + text::decimal(preset_slots(caps));
    text::lemma_has_before(up_to_8, text::decimal(preset_slots(caps)), n_0);
    text::lemma_has_before(up_to_8, text::decimal(preset_slots(caps)), n_1);
    text::lemma_has_before(up_to_8, text::decimal(preset_slots(caps)), n_2);
    let up_to_10 = up_to_9 + "</tt:MaximumNumberOfPresets><tt:HomeSupported>"@;
    text::lemma_has_before(up_to_9, "</tt:MaximumNumberOfPresets><tt:HomeSupported>"@, n_0);
    text::lemma_has_before(up_to_9, "</tt:MaximumNumberOfPresets><tt:HomeSupported>"@, n_1);
    text::lemma_has_before(up_to_9, "</tt:MaximumNumberOfPresets><tt:HomeSupported>"@, n_2);
    let up_to_11 = up_to_10 + text::bool_text(caps.presets);
    text::lemma_has_before(up_to_10, text::bool_text(caps.presets), n_0);
    text::lemma_has_before(up_to_10, text::bool_text(caps.presets), n_1);
    text::lemma_has_before(up_to_10, text::bool_text(caps.presets), n_2);
    text::lemma_has_before(up_to_10, text::bool_text(caps.presets), n_3);
    let up_to_12 = up_to_11 + "</tt:HomeSupported></tptz:PTZNode>"@;
    text::lemma_has_before(up_to_11, "</tt:HomeSupported></tptz:PTZNode>"@, n_0);
    text::lemma_has_before(up_to_11, "</tt:HomeSupported></tptz:PTZNode>"@, n_1);
    text::lemma_has_before(up_to_11, "</tt:HomeSupported></tptz:PTZNode>"@, n_2);
    text::lemma_has_before(up_to_11, "</tt:HomeSupported></tptz:PTZNode>"@, n_3);
    assert(up_to_12 == ptz_node(cam_name, caps));
}

/// A vector is read from the attributes of its elements: the pan from `x` and the tilt
/// from `y` of the one, the zoom from `x` of the other, and only inside the element that
/// it is looked for in.
pub proof fn law_vectors_are_read_from_their_attributes(
    attributes: Seq<(Seq<u8>, Option<Seq<char>>)>,
    key: Seq<u8>,
    value: Seq<char>,
    content: Seq<u8>,
    name_len: nat,
    v: VelocityView,
)
    ensures
        xml::text_or_empty(key) == "x"@ ==> with_pan_tilt(attributes.push((key, Some(value))), v).pan
            == value && with_zoom(attributes.push((key, Some(value))), v).zoom == value,
        xml::text_or_empty(key) == "y"@ ==> with_pan_tilt(
            attributes.push((key, Some(value))),
            v,
        ).tilt == value && with_zoom(attributes.push((key, Some(value))), v) == with_zoom(
            attributes,
            v,
        ),
        xml::text_or_empty(key) == "x"@ ==> with_pan_tilt(
            attributes.push((key, Some(value))),
            v,
        ).tilt == with_pan_tilt(attributes, v).tilt,
        xml::text_or_empty(key) == "y"@ ==> with_pan_tilt(
            attributes.push((key, Some(value))),
            v,
        ).pan == with_pan_tilt(attributes, v).pan,
        with_tag(content, name_len, false, v) == v,
        xml::local_part(xml::tag_name(content, name_len)) == "PanTilt"@ ==> with_tag(
            content,
            name_len,
            true,
            v,
        ) == with_pan_tilt(xml::attributes_of(content, name_len), v),
        xml::local_part(xml::tag_name(content, name_len)) == "Zoom"@ ==> with_tag(
            content,
            name_len,
            true,
            v,
        ) == with_zoom(xml::attributes_of(content, name_len), v),
{
    let longer = attributes.push((key, Some(value)));
    assert(longer.drop_last() =~= attributes);
    assert(longer.last() == (key, Some(value)));
    reveal_strlit("x");
    reveal_strlit("y");
    assert("x"@[0] != "y"@[0]);
    reveal_strlit("PanTilt");
    reveal_strlit("Zoom");
    assert("PanTilt"@.len() == 7 && "Zoom"@.len() == 4);
}

/// Positions are listed one behind the other, each by its number and its name; one
/// without a name is called by its number.
pub proof fn law_positions_are_listed_by_number(list: Seq<Preset>, p: Preset)
    ensures
        presets_xml(list.push(p)) == presets_xml(list) + ("<tptz:Preset token=\"preset_"@
            + text::decimal(p.id as nat) + "\"><tt:Name>"@ + preset_label(
            text::opt_view(p.name),
            p.id,
        ) + "</tt:Name></tptz:Preset>"@),
        presets_xml(Seq::empty()) == Seq::<char>::empty(),
        p.name is None ==> preset_label(text::opt_view(p.name), p.id) == "Preset "@
            + text::decimal(p.id as nat),
        (p.name is Some && text::trimmed(p.name->0@).len() > 0) ==> preset_label(
            text::opt_view(p.name),
            p.id,
        ) == soap::escaped(text::trimmed(p.name->0@)),
        (p.name is Some && text::trimmed(p.name->0@).len() == 0) ==> preset_label(
            text::opt_view(p.name),
            p.id,
        ) == "Preset "@ + text::decimal(p.id as nat),
{
    assert(list.push(p).drop_last() =~= list);
}

/// A free place is the first that is not in use.
pub proof fn law_the_first_free_place_is_taken(used: Seq<u8>, from: int, k: int)
    requires
        0 <= from <= 64,
    ensures
        from <= first_free(used, from) <= 64,
        first_free(used, from) < 64 ==> !used.contains(first_free(used, from) as u8),
        from <= k < first_free(used, from) ==> used.contains(k as u8),
    decreases 64 - from,
{
    if from < 64 && used.contains(from as u8) {
        law_the_first_free_place_is_taken(used, from + 1, k);
    }
}

/// A step of the zoom is a twentieth of its range, and one at least.
pub proof fn law_zoom_steps_are_a_twentieth(min: u32, max: u32)
    requires
        min <= max,
    ensures
        max - min < 20 ==> zoom_step(min, max) == 1,
        max - min >= 20 ==> zoom_step(min, max) * 20 <= max - min < (zoom_step(min, max) + 1) * 20,
{
}

/// Each question about a camera that moves is answered with what it asks for.
pub proof fn law_questions_are_answered_by_name(f: PtzFacts, action: Seq<char>)
    ensures
        action == "GetConfigurations"@ ==> description(f, action) == Some(
            "<tptz:GetConfigurationsResponse>"@ + ptz_configuration(
                f.cam_name@,
                f.caps,
                "tptz:PTZConfiguration"@,
            ) + "</tptz:GetConfigurationsResponse>"@,
        ),
        action == "GetConfiguration"@ ==> description(f, action) == Some(
            "<tptz:GetConfigurationResponse>"@ + ptz_configuration(
                f.cam_name@,
                f.caps,
                "tptz:PTZConfiguration"@,
            ) + "</tptz:GetConfigurationResponse>"@,
        ),
        action == "GetConfigurationOptions"@ ==> description(f, action) == Some(
            configuration_options(f.caps),
        ),
        action == "GetNodes"@ ==> description(f, action) == Some(
            "<tptz:GetNodesResponse>"@ + ptz_node(f.cam_name@, f.caps) + "</tptz:GetNodesResponse>"@,
        ),
        action == "GetNode"@ ==> description(f, action) == Some(
            "<tptz:GetNodeResponse>"@ + ptz_node(f.cam_name@, f.caps) + "</tptz:GetNodeResponse>"@,
        ),
        action == "GetStatus"@ ==> description(f, action) == Some(status_xml(f)),
        action == "GetServiceCapabilities"@ ==> description(f, action) == Some(
            ptz_capabilities(f.caps),
        ),
{
    lemma_descriptions();
}

/// The position that a status tells is that of the axes the camera has: the zoom as it was
/// read, and none where it was not.
pub proof fn law_status_tells_the_axes_there_are(f: PtzFacts)
    ensures
        f.caps.zoom && f.zoom_position is Some ==> text::has(
            status_position(f),
            "<tt:Zoom x=\""@ + f.zoom_position->0@
                + "\" space=\"http://www.onvif.org/ver10/tptz/ZoomSpaces/PositionGenericSpace\"/>"@,
        ),
        f.caps.pan_tilt ==> text::has(
            status_position(f),
            "<tt:PanTilt x=\"0\" y=\"0\" space=\"http://www.onvif.org/ver10/tptz/PanTiltSpaces/PositionGenericSpace\"/>"@,
        ),
        !f.caps.pan_tilt && !f.caps.zoom ==> status_position(f).len() == 0,
{
    let pan_tilt = text::shown_if(
        f.caps.pan_tilt,
        "<tt:PanTilt x=\"0\" y=\"0\" space=\"http://www.onvif.org/ver10/tptz/PanTiltSpaces/PositionGenericSpace\"/>"@,
    );
    if f.caps.zoom && f.zoom_position is Some {
        let zoom = "<tt:Zoom x=\""@ + f.zoom_position->0@
            + "\" space=\"http://www.onvif.org/ver10/tptz/ZoomSpaces/PositionGenericSpace\"/>"@;
        text::lemma_has_between(pan_tilt, zoom, Seq::empty());
        assert(pan_tilt + zoom + Seq::empty() =~= status_position(f));
    }
    if f.caps.pan_tilt {
        text::lemma_has_between(Seq::empty(), pan_tilt, Seq::empty());
        assert(Seq::empty() + pan_tilt + Seq::empty() =~= pan_tilt);
        let zoom = if f.caps.zoom {
            match f.zoom_position {
                Some(x) => "<tt:Zoom x=\""@ + x@
                    + "\" space=\"http://www.onvif.org/ver10/tptz/ZoomSpaces/PositionGenericSpace\"/>"@,
                None => Seq::empty(),
            }
        } else {
            Seq::empty()
        };
        text::lemma_has_before(pan_tilt, zoom, pan_tilt);
    }
}

/// The spaces that are announced are those of the axes the camera has.
pub proof fn law_spaces_follow_the_axes(caps: CameraCapabilities)
    ensures
        !caps.pan_tilt && !caps.zoom ==> supported_spaces(caps).len() == 0,
        caps.pan_tilt ==> text::has(
            supported_spaces(caps),
            "<tt:ContinuousPanTiltVelocitySpace>"@,
        ),
        caps.zoom ==> text::has(supported_spaces(caps), "<tt:AbsoluteZoomPositionSpace>"@),
        supported_spaces(CameraCapabilities { pan_tilt: true, zoom: true, ..caps })
            == supported_spaces(CameraCapabilities { pan_tilt: true, zoom: false, ..caps })
            + supported_spaces(CameraCapabilities { pan_tilt: false, zoom: true, ..caps }),
{
    let a = "<tt:ContinuousPanTiltVelocitySpace><tt:URI>http://www.onvif.org/ver10/tptz/PanTiltSpaces/VelocityGenericSpace</tt:URI><tt:XRange><tt:Min>-1.0</tt:Min><tt:Max>1.0</tt:Max></tt:XRange><tt:YRange><tt:Min>-1.0</tt:Min><tt:Max>1.0</tt:Max></tt:YRange></tt:ContinuousPanTiltVelocitySpace>"@;
    let b = "<tt:ContinuousZoomVelocitySpace><tt:URI>http://www.onvif.org/ver10/tptz/ZoomSpaces/VelocityGenericSpace</tt:URI><tt:XRange><tt:Min>-1.0</tt:Min><tt:Max>1.0</tt:Max></tt:XRange></tt:ContinuousZoomVelocitySpace><tt:AbsoluteZoomPositionSpace><tt:URI>http://www.onvif.org/ver10/tptz/ZoomSpaces/PositionGenericSpace</tt:URI><tt:XRange><tt:Min>0.0</tt:Min><tt:Max>1.0</tt:Max></tt:XRange></tt:AbsoluteZoomPositionSpace>"@;
    assert(text::has(a, "<tt:ContinuousPanTiltVelocitySpace>"@)) by {
        reveal_strlit("<tt:ContinuousPanTiltVelocitySpace><tt:URI>http://www.onvif.org/ver10/tptz/PanTiltSpaces/VelocityGenericSpace</tt:URI><tt:XRange><tt:Min>-1.0</tt:Min><tt:Max>1.0</tt:Max></tt:XRange><tt:YRange><tt:Min>-1.0</tt:Min><tt:Max>1.0</tt:Max></tt:YRange></tt:ContinuousPanTiltVelocitySpace>");
        reveal_strlit("<tt:ContinuousPanTiltVelocitySpace>");
        assert(a.subrange(0, 35) =~= "<tt:ContinuousPanTiltVelocitySpace>"@);
        assert(text::stands_at(a, "<tt:ContinuousPanTiltVelocitySpace>"@, 0));
    }
    assert(text::has(b, "<tt:AbsoluteZoomPositionSpace>"@)) by {
        reveal_strlit("<tt:ContinuousZoomVelocitySpace><tt:URI>http://www.onvif.org/ver10/tptz/ZoomSpaces/VelocityGenericSpace</tt:URI><tt:XRange><tt:Min>-1.0</tt:Min><tt:Max>1.0</tt:Max></tt:XRange></tt:ContinuousZoomVelocitySpace><tt:AbsoluteZoomPositionSpace><tt:URI>http://www.onvif.org/ver10/tptz/ZoomSpaces/PositionGenericSpace</tt:URI><tt:XRange><tt:Min>0.0</tt:Min><tt:Max>1.0</tt:Max></tt:XRange></tt:AbsoluteZoomPositionSpace>");
        reveal_strlit("<tt:AbsoluteZoomPositionSpace>");
        assert(b.subrange(209, 239) =~= "<tt:AbsoluteZoomPositionSpace>"@);
        assert(text::stands_at(b, "<tt:AbsoluteZoomPositionSpace>"@, 209));
    }
    let first = text::shown_if(caps.pan_tilt, a);
    let second = text::shown_if(caps.zoom, b);
    if caps.pan_tilt {
        text::lemma_has_before(a, second, "<tt:ContinuousPanTiltVelocitySpace>"@);
    }
    if caps.zoom {
        text::lemma_has_inside(first, b, Seq::empty(), "<tt:AbsoluteZoomPositionSpace>"@);
        assert(first + b + Seq::empty() =~= first + b);
    }
    assert(a + Seq::<char>::empty() =~= a);
    assert(Seq::<char>::empty() + b =~= b);
}

/// The vector of a continuous move is its velocity, that of a relative one its translation,
/// and that of an absolute one its position.
pub proof fn law_vectors_stand_in_their_elements(action: Seq<char>)
    ensures
        element_for("ContinuousMove"@) == Some("Velocity"@),
        element_for("RelativeMove"@) == Some("Translation"@),
        element_for("AbsoluteMove"@) == Some("Position"@),
        action != "ContinuousMove"@ && action != "RelativeMove"@ && action != "AbsoluteMove"@
            ==> element_for(action) is None,
{
    lemma_actions();
}

/// A zoom stays within its range, goes where it is sent inside it, and stops at the end
/// that it was sent beyond. How far in it is is told from the lower end.
pub proof fn law_zooms_stay_within_their_range(wanted: int, min: int, max: int)
    requires
        min <= max,
    ensures
        min <= zoom_kept_within(wanted, min, max) <= max,
        min <= wanted <= max ==> zoom_kept_within(wanted, min, max) == wanted,
        wanted < min ==> zoom_kept_within(wanted, min, max) == min,
        wanted > max ==> zoom_kept_within(wanted, min, max) == max,
        min < max ==> fraction_of(min, min, max) == Some((0int, max - min)),
        min < max ==> fraction_of(max, min, max) == Some((max - min, max - min)),
        min < max && min <= wanted <= max ==> fraction_of(wanted, min, max) == Some(
            (wanted - min, max - min),
        ),
        min == max ==> fraction_of(wanted, min, max) is None,
{
}

/// A request that is refused is told why, and of which camera.
pub proof fn law_ptz_refusals_say_why(
    f: PtzFacts,
    action: Seq<char>,
    r: PtzRequestView,
    code: FaultCode,
    what: Seq<char>,
    token: Seq<char>,
)
    ensures
        camera_fault(code, f.cam_name@, what) == Err::<PtzAnswerView, device::FaultView>(
            device::fault(code, "Camera '"@ + f.cam_name@ + what),
        ),
        f.caps.presets && r.preset_token is None ==> preset_answer(f, "GotoPreset"@, r) == Err::<
            PtzAnswerView,
            device::FaultView,
        >(device::fault(FaultCode::InvalidArgs, "Missing PresetToken"@)),
        f.caps.presets && r.preset_token == Some(token) && preset_of(token) is None
            ==> preset_answer(f, "GotoPreset"@, r) == Err::<PtzAnswerView, device::FaultView>(
            device::fault(FaultCode::InvalidArgs, "Unknown preset token '"@ + token + "'"@),
        ),
        preset_answer(f, "RemovePreset"@, r) == Err::<PtzAnswerView, device::FaultView>(
            device::fault(
                FaultCode::ActionNotSupported,
                "Reolink protocol has no preset deletion"@,
            ),
        ),
        !f.caps.presets ==> preset_answer(f, "GotoPreset"@, r) == Err::<
            PtzAnswerView,
            device::FaultView,
        >(
            device::fault(
                FaultCode::ActionNotSupported,
                "Camera '"@ + f.cam_name@ + "' does not support PTZ presets"@,
            ),
        ),
        f.caps.presets && !f.caps.preset_write ==> preset_answer(f, "SetPreset"@, r) == Err::<
            PtzAnswerView,
            device::FaultView,
        >(
            device::fault(
                FaultCode::ActionNotSupported,
                "Camera '"@ + f.cam_name@ + "' does not allow this user to store PTZ presets"@,
            ),
        ),
        f.caps.presets && !f.caps.preset_write ==> (preset_answer(f, "SetHomePosition"@, r)
            matches Err(e) && e.code == FaultCode::CannotOverwriteHome),
        !f.caps.presets ==> preset_answer(f, "GetPresets"@, r) == Ok::<
            PtzAnswerView,
            device::FaultView,
        >(
            PtzAnswerView {
                commands: Seq::empty(),
                xml: soap::envelope("<tptz:GetPresetsResponse/>"@, soap::NS_ALL@),
            },
        ),
        action != "GetPresets"@ && action != "GotoPreset"@ && action != "SetPreset"@ && action
            != "GotoHomePosition"@ && action != "SetHomePosition"@ && action != "RemovePreset"@
            ==> preset_answer(f, action, r) == Err::<PtzAnswerView, device::FaultView>(
            device::fault(
                FaultCode::ActionNotSupported,
                "PTZ action '"@ + action + "' not supported"@,
            ),
        ),
{
    lemma_actions();
}

} // verus!

//! ONVIF Device service. Describes the camera and carries the handful of
//! device-level controls that it has:
//!
//! * relay outputs: the floodlight, siren and LEDs, which is how a client gets
//!   switches for them
//! * `SystemReboot`
//! * the camera's own clock

use vstd::prelude::*;
use vstd::string::*;
use crate::camera::LightState;
use crate::onvif::capabilities::CameraCapabilities;
use crate::onvif::snapshot;
use crate::onvif::soap;
use crate::onvif::soap::{FaultCode, UserTable};
use crate::onvif::state;
use crate::onvif::state::DeviceUuid;
use crate::text;
use crate::time;
use crate::time::{Civil, Timestamp};
use crate::xml;

verus! {

/// A camera's general settings: its clock, its name, its language and how its
/// date stamp is drawn.
#[derive(Default, Debug)]
pub struct SystemGeneral {
    pub version: String,
    /// Seconds west of UTC.
    pub time_zone: Option<i32>,
    pub year: Option<i32>,
    pub month: Option<u8>,
    pub day: Option<u8>,
    pub hour: Option<u8>,
    pub minute: Option<u8>,
    pub second: Option<u8>,
    pub osd_format: Option<String>,
    pub time_format: Option<u8>,
    pub language: Option<String>,
    pub device_name: Option<String>,
}

/// What handlers return when they need a SOAP fault.
#[derive(Debug)]
pub struct FaultBody {
    pub code: FaultCode,
    pub reason: String,
}

/// A fault, its text as a sequence.
#[verifier::ext_equal]
pub struct FaultView {
    pub code: FaultCode,
    pub reason: Seq<char>,
}

impl View for FaultBody {
    type V = FaultView;

    open spec fn view(&self) -> FaultView {
        FaultView { code: self.code, reason: self.reason@ }
    }
}

/// A fault.
pub open spec fn fault(code: FaultCode, reason: Seq<char>) -> FaultView {
    FaultView { code, reason }
}

/// An answer or a fault, as sequences.
pub open spec fn reply_view(reply: Result<String, FaultBody>) -> Result<Seq<char>, FaultView> {
    match reply {
        Ok(said) => Ok(said@),
        Err(f) => Err(f@),
    }
}

/// Some failure outside, as a fault.
pub fn other_fault(reason: String) -> (f: FaultBody)
    ensures
        f@ == fault(FaultCode::Other, reason@),
{
    FaultBody { code: FaultCode::Other, reason }
}

/// A fault about a text: the reason quotes it.
pub fn quoting_fault(code: FaultCode, before: &str, quoted: &str, after: &str) -> (f: FaultBody)
    ensures
        f@ == fault(code, before@ + quoted@ + after@),
{
    let mut reason = before.to_owned();
    reason.append(quoted);
    reason.append(after);
    FaultBody { code, reason }
}

/// What a camera says about itself.
#[derive(Debug)]
pub struct Version {
    pub model: Option<String>,
    pub firmware_version: String,
    pub serial_number: String,
    pub hardware_version: String,
}

/// What clients are told about a camera.
#[derive(Debug)]
pub struct DeviceInfo {
    pub manufacturer: String,
    pub model: String,
    pub firmware_version: String,
    pub serial_number: String,
    pub hardware_id: String,
}

/// The model of a camera.
pub open spec fn model_of(version: Option<&Version>) -> Seq<char> {
    match version {
        Some(v) => match v.model {
            Some(m) => m@,
            None => "Unknown"@,
        },
        None => "Unknown"@,
    }
}

/// What clients are told about a camera. One that has not answered is told in
/// neutral words.
pub fn read_device_info(version: Option<&Version>) -> (info: DeviceInfo)
    ensures
        info.manufacturer@ == "Reolink"@,
        info.model@ == model_of(version),
        match version {
            Some(v) => info.firmware_version@ == v.firmware_version@ && info.serial_number@
                == v.serial_number@ && info.hardware_id@ == v.hardware_version@,
            None => info.firmware_version@ == "Unknown"@ && info.serial_number@ == "Unknown"@
                && info.hardware_id@ == "Unknown"@,
        },
{
    match version {
        Some(v) => DeviceInfo {
            manufacturer: "Reolink".to_owned(),
            model: match &v.model {
                Some(m) => m.clone(),
                None => "Unknown".to_owned(),
            },
            firmware_version: v.firmware_version.clone(),
            serial_number: v.serial_number.clone(),
            hardware_id: v.hardware_version.clone(),
        },
        None => DeviceInfo {
            manufacturer: "Reolink".to_owned(),
            model: "Unknown".to_owned(),
            firmware_version: "Unknown".to_owned(),
            serial_number: "Unknown".to_owned(),
            hardware_id: "Unknown".to_owned(),
        },
    }
}

/// What clients are told about a camera.
pub open spec fn device_information(manufacturer: Seq<char>, model: Seq<char>, firmware_version: Seq<char>, serial_number: Seq<char>, hardware_id: Seq<char>) -> Seq<char> {
    "<tds:GetDeviceInformationResponse><tds:Manufacturer>"@ + soap::escaped(manufacturer) + "</tds:Manufacturer><tds:Model>"@ + soap::escaped(model) + "</tds:Model><tds:FirmwareVersion>"@ + soap::escaped(firmware_version) + "</tds:FirmwareVersion><tds:SerialNumber>"@ + soap::escaped(serial_number) + "</tds:SerialNumber><tds:HardwareId>"@ + soap::escaped(hardware_id) + "</tds:HardwareId></tds:GetDeviceInformationResponse>"@
}

/// What clients are told about a camera.
pub fn render_device_information(info: &DeviceInfo) -> (out: String)
    ensures
        out@ == device_information(info.manufacturer@, info.model@, info.firmware_version@, info.serial_number@, info.hardware_id@),
{
    let mut out = "<tds:GetDeviceInformationResponse><tds:Manufacturer>".to_owned();
    out.append(soap::xml_escape(info.manufacturer.as_str()).as_str());
    out.append("</tds:Manufacturer><tds:Model>");
    out.append(soap::xml_escape(info.model.as_str()).as_str());
    out.append("</tds:Model><tds:FirmwareVersion>");
    out.append(soap::xml_escape(info.firmware_version.as_str()).as_str());
    out.append("</tds:FirmwareVersion><tds:SerialNumber>");
    out.append(soap::xml_escape(info.serial_number.as_str()).as_str());
    out.append("</tds:SerialNumber><tds:HardwareId>");
    out.append(soap::xml_escape(info.hardware_id.as_str()).as_str());
    out.append("</tds:HardwareId></tds:GetDeviceInformationResponse>");
    out
}

/// What clients are told about a camera that says this about itself.
pub open spec fn information_of(version: Option<&Version>) -> Seq<char> {
    match version {
        Some(v) => device_information(
            "Reolink"@,
            model_of(version),
            v.firmware_version@,
            v.serial_number@,
            v.hardware_version@,
        ),
        None => device_information(
            "Reolink"@,
            "Unknown"@,
            "Unknown"@,
            "Unknown"@,
            "Unknown"@,
        ),
    }
}

/// The device-level switches that can be driven, expressed as ONVIF relay
/// outputs.
#[derive(Clone, Copy, PartialEq, Eq, Structural, Debug)]
pub enum RelayKind {
    Floodlight,
    Siren,
    /// The infrared illuminator.
    IrLed,
    /// The little status light on the front of the camera.
    StatusLed,
}

/// A relay output.
#[derive(Debug)]
pub struct RelayOutput {
    pub token: &'static str,
    pub kind: RelayKind,
    /// `Bistable` latches until told otherwise; `Monostable` springs back on its
    /// own after `delay`.
    pub mode: &'static str,
    pub delay: &'static str,
}

/// A relay output, its texts as sequences.
#[verifier::ext_equal]
pub struct RelayView {
    pub token: Seq<char>,
    pub kind: RelayKind,
    pub mode: Seq<char>,
    pub delay: Seq<char>,
}

impl View for RelayOutput {
    type V = RelayView;

    open spec fn view(&self) -> RelayView {
        RelayView { token: self.token@, kind: self.kind, mode: self.mode@, delay: self.delay@ }
    }
}

/// Relay outputs, their texts as sequences.
pub open spec fn relays_view(list: Seq<RelayOutput>) -> Seq<RelayView> {
    list.map_values(|r: RelayOutput| r@)
}

/// The relay of a switch. The siren stops by itself; everything else latches.
pub open spec fn relay_of(kind: RelayKind) -> RelayView {
    match kind {
        RelayKind::Floodlight => RelayView {
            token: "relay_floodlight"@,
            kind,
            mode: "Bistable"@,
            delay: "PT0S"@,
        },
        RelayKind::Siren => RelayView {
            token: "relay_siren"@,
            kind,
            mode: "Monostable"@,
            delay: "PT5S"@,
        },
        RelayKind::IrLed => RelayView {
            token: "relay_ir_illuminator"@,
            kind,
            mode: "Bistable"@,
            delay: "PT0S"@,
        },
        RelayKind::StatusLed => RelayView {
            token: "relay_status_led"@,
            kind,
            mode: "Bistable"@,
            delay: "PT0S"@,
        },
    }
}

fn relay(kind: RelayKind) -> (r: RelayOutput)
    ensures
        r@ == relay_of(kind),
{
    match kind {
        RelayKind::Floodlight => RelayOutput {
            token: "relay_floodlight",
            kind,
            mode: "Bistable",
            delay: "PT0S",
        },
        RelayKind::Siren => RelayOutput {
            token: "relay_siren",
            kind,
            mode: "Monostable",
            delay: "PT5S",
        },
        RelayKind::IrLed => RelayOutput {
            token: "relay_ir_illuminator",
            kind,
            mode: "Bistable",
            delay: "PT0S",
        },
        RelayKind::StatusLed => RelayOutput {
            token: "relay_status_led",
            kind,
            mode: "Bistable",
            delay: "PT0S",
        },
    }
}

/// The relays that a camera offers: only those that can do something. The siren
/// is always one.
pub open spec fn offered_relays(caps: CameraCapabilities) -> Seq<RelayView> {
    (if caps.floodlight {
        seq![relay_of(RelayKind::Floodlight)]
    } else {
        Seq::empty()
    }) + seq![relay_of(RelayKind::Siren)] + (if caps.led_ctrl {
        seq![relay_of(RelayKind::IrLed), relay_of(RelayKind::StatusLed)]
    } else {
        Seq::empty()
    })
}

/// The relays this camera should advertise. Each one is gated on the
/// capabilities: a switch that cannot do anything is worse than a missing one.
pub fn relay_outputs(caps: &CameraCapabilities) -> (list: Vec<RelayOutput>)
    ensures
        relays_view(list@) == offered_relays(*caps),
        list@.len() == offered_relays(*caps).len(),
{
    let mut list: Vec<RelayOutput> = Vec::new();
    if caps.floodlight {
        list.push(relay(RelayKind::Floodlight));
    }
    if caps.siren() {
        list.push(relay(RelayKind::Siren));
    }
    if caps.led_ctrl {
        list.push(relay(RelayKind::IrLed));
        list.push(relay(RelayKind::StatusLed));
    }
    assert(relays_view(list@) =~= offered_relays(*caps));
    list
}

/// A relay, under an element name.
pub open spec fn relay_xml(r: RelayView, element: Seq<char>) -> Seq<char> {
    "<"@ + element + " token=\""@ + r.token + "\"><tt:Properties><tt:Mode>"@ + r.mode
        + "</tt:Mode><tt:DelayTime>"@ + r.delay
        + "</tt:DelayTime><tt:IdleState>open</tt:IdleState></tt:Properties></"@ + element + ">"@
}

/// What a relay may be set to: what it is.
pub open spec fn relay_options_xml(r: RelayView) -> Seq<char> {
    "<tds:RelayOutputOptions token=\""@ + r.token + "\"><tds:Mode>"@ + r.mode
        + "</tds:Mode><tds:DelayTimes>"@ + r.delay
        + "</tds:DelayTimes><tds:Discrete>false</tds:Discrete></tds:RelayOutputOptions>"@
}

impl RelayOutput {
    /// Render as a `RelayOutput`, under whatever element name the enclosing
    /// response uses.
    pub fn render(&self, element: &str) -> (out: String)
        ensures
            out@ == relay_xml(self@, element@),
    {
        let mut out = "<".to_owned();
        out.append(element);
        out.append(" token=\"");
        out.append(self.token);
        out.append("\"><tt:Properties><tt:Mode>");
        out.append(self.mode);
        out.append("</tt:Mode><tt:DelayTime>");
        out.append(self.delay);
        out.append("</tt:DelayTime><tt:IdleState>open</tt:IdleState></tt:Properties></");
        out.append(element);
        out.append(">");
        out
    }

    /// Render what it may be set to.
    pub fn render_options(&self) -> (out: String)
        ensures
            out@ == relay_options_xml(self@),
    {
        let mut out = "<tds:RelayOutputOptions token=\"".to_owned();
        out.append(self.token);
        out.append("\"><tds:Mode>");
        out.append(self.mode);
        out.append("</tds:Mode><tds:DelayTimes>");
        out.append(self.delay);
        out.append(
            "</tds:DelayTimes><tds:Discrete>false</tds:Discrete></tds:RelayOutputOptions>",
        );
        out
    }
}

/// Relays, one after the other.
pub open spec fn relays_xml(list: Seq<RelayView>) -> Seq<char>
    decreases list.len(),
{
    if list.len() == 0 {
        Seq::empty()
    } else {
        relays_xml(list.drop_last()) + relay_xml(list.last(), "tds:RelayOutputs"@)
    }
}

/// What relays may be set to, one after the other.
pub open spec fn relays_options_xml(list: Seq<RelayView>) -> Seq<char>
    decreases list.len(),
{
    if list.len() == 0 {
        Seq::empty()
    } else {
        relays_options_xml(list.drop_last()) + relay_options_xml(list.last())
    }
}

fn render_relays(list: &Vec<RelayOutput>) -> (out: String)
    ensures
        out@ == relays_xml(relays_view(list@)),
{
    let ghost all = relays_view(list@);
    let mut out = String::new();
    let mut i: usize = 0;
    assert(all.take(0) =~= Seq::empty());
    assert(out@ =~= relays_xml(all.take(0)));
    while i < list.len()
        invariant
            i <= list@.len(),
            all == relays_view(list@),
            out@ == relays_xml(all.take(i as int)),
        decreases list@.len() - i,
    {
        assert(all.take(i + 1).drop_last() =~= all.take(i as int));
        assert(all.take(i + 1).last() == list@[i as int]@);
        out.append(list[i].render("tds:RelayOutputs").as_str());
        i += 1;
    }
    assert(all.take(i as int) =~= all);
    out
}

fn render_relays_options(list: &Vec<RelayOutput>) -> (out: String)
    ensures
        out@ == relays_options_xml(relays_view(list@)),
{
    let ghost all = relays_view(list@);
    let mut out = String::new();
    let mut i: usize = 0;
    assert(all.take(0) =~= Seq::empty());
    assert(out@ =~= relays_options_xml(all.take(0)));
    while i < list.len()
        invariant
            i <= list@.len(),
            all == relays_view(list@),
            out@ == relays_options_xml(all.take(i as int)),
        decreases list@.len() - i,
    {
        assert(all.take(i + 1).drop_last() =~= all.take(i as int));
        assert(all.take(i + 1).last() == list@[i as int]@);
        out.append(list[i].render_options().as_str());
        i += 1;
    }
    assert(all.take(i as int) =~= all);
    out
}

/// How long "on" keeps a floodlight lit, in seconds.
pub const FLOODLIGHT_SECONDS: u16 = 180;

/// What a camera is told to do.
#[derive(Clone, Copy, PartialEq, Eq, Structural, Debug)]
pub enum DeviceCommand {
    /// Set the clock to so many seconds after the epoch.
    SetClock(i64),
    Reboot,
    Floodlight { on: bool, seconds: u16 },
    Siren,
    SetIrLed(LightState),
    SetStatusLed(bool),
}

/// What driving a relay comes to. The siren has nothing to release, and a lit
/// illuminator means that the camera decides when.
pub open spec fn relay_command(kind: RelayKind, active: bool) -> Option<DeviceCommand> {
    match kind {
        RelayKind::Floodlight => Some(
            DeviceCommand::Floodlight { on: active, seconds: FLOODLIGHT_SECONDS },
        ),
        RelayKind::Siren => if active {
            Some(DeviceCommand::Siren)
        } else {
            None
        },
        RelayKind::IrLed => Some(
            DeviceCommand::SetIrLed(
                if active {
                    LightState::Auto
                } else {
                    LightState::Off
                },
            ),
        ),
        RelayKind::StatusLed => Some(DeviceCommand::SetStatusLed(active)),
    }
}

/// What driving a relay comes to.
pub fn drive_relay(kind: RelayKind, active: bool) -> (command: Option<DeviceCommand>)
    ensures
        command == relay_command(kind, active),
{
    match kind {
        RelayKind::Floodlight => Some(
            DeviceCommand::Floodlight { on: active, seconds: FLOODLIGHT_SECONDS },
        ),
        RelayKind::Siren => if active {
            Some(DeviceCommand::Siren)
        } else {
            None
        },
        RelayKind::IrLed => if active {
            Some(DeviceCommand::SetIrLed(LightState::Auto))
        } else {
            Some(DeviceCommand::SetIrLed(LightState::Off))
        },
        RelayKind::StatusLed => Some(DeviceCommand::SetStatusLed(active)),
    }
}

/// The camera's clock, as ONVIF needs to describe it.
#[derive(Clone, Copy, PartialEq, Eq, Structural, Debug)]
pub struct CameraClock {
    /// Wall-clock time on the camera, in seconds after the epoch in UTC.
    pub utc: i64,
    /// Seconds west of UTC, the sense that POSIX `TZ` strings use.
    pub posix_offset_seconds: i32,
}

impl CameraClock {
    /// Whether the calendar has both readings of this clock.
    pub open spec fn shows(&self) -> bool {
        time::in_calendar(self.utc as int) && time::in_calendar(
            self.utc - self.posix_offset_seconds,
        )
    }

    /// What the clock reads in UTC.
    pub fn utc_fields(&self) -> (c: Civil)
        requires
            time::in_calendar(self.utc as int),
        ensures
            c == time::civil_of(self.utc as int),
    {
        time::civil_at(self.utc)
    }
}

/// What a camera's general settings say its wall clock shows, if they say it.
pub open spec fn wall_clock(g: SystemGeneral) -> Option<Civil> {
    match (g.year, g.month, g.day, g.hour, g.minute, g.second) {
        (Some(year), Some(month), Some(day), Some(hour), Some(minute), Some(second)) => {
            let c = Civil {
                year,
                month: month as u32,
                day: day as u32,
                hour: hour as u32,
                minute: minute as u32,
                second: second as u32,
            };
            if time::civil_exists(c) {
                Some(c)
            } else {
                None
            }
        },
        _ => None,
    }
}

/// The time in UTC that a camera's general settings say, if they say it. They
/// hold seconds west of UTC, so UTC is the local reading plus that.
pub open spec fn clock_utc(g: SystemGeneral) -> Option<int> {
    match (g.time_zone, wall_clock(g)) {
        (Some(zone), Some(c)) => Some(time::civil_secs(c) + zone),
        _ => None,
    }
}

/// The clock that a camera's general settings describe. A camera that leaves
/// fields out, or reports a date that the calendar does not have, has none.
pub fn clock_from_general(general: &SystemGeneral) -> (clock: Option<CameraClock>)
    requires
        clock_utc(*general) matches Some(utc) ==> time::in_calendar(utc),
    ensures
        match clock {
            Some(c) => clock_utc(*general) == Some(c.utc as int) && general.time_zone == Some(
                c.posix_offset_seconds,
            ) && c.shows(),
            None => clock_utc(*general) is None,
        },
{
    let zone: i32 = match general.time_zone {
        Some(zone) => zone,
        None => {
            return None;
        },
    };
    let c = match (
        general.year,
        general.month,
        general.day,
        general.hour,
        general.minute,
        general.second,
    ) {
        (Some(year), Some(month), Some(day), Some(hour), Some(minute), Some(second)) => Civil {
            year,
            month: month as u32,
            day: day as u32,
            hour: hour as u32,
            minute: minute as u32,
            second: second as u32,
        },
        _ => {
            return None;
        },
    };
    match time::from_civil(c) {
        Some(local) => {
            proof {
                time::lemma_civil_range(c);
            }
            Some(CameraClock { utc: local + zone as i64, posix_offset_seconds: zone })
        },
        None => None,
    }
}

/// Move a reading forward by how many seconds ago it was taken.
pub fn advance(clock: CameraClock, by: u64) -> (later: CameraClock)
    requires
        time::in_calendar(clock.utc + by),
    ensures
        later.utc == clock.utc + by,
        later.posix_offset_seconds == clock.posix_offset_seconds,
{
    CameraClock { utc: (clock.utc as i128 + by as i128) as i64, ..clock }
}

/// How long a reading is reused before the camera is asked again, in
/// milliseconds. It keeps an operation that is open to all from generating
/// camera traffic.
pub const CLOCK_CACHE_TTL: u64 = 60_000;

/// A reading of the clock, and when it was taken, on a clock that counts
/// milliseconds.
#[derive(Clone, Copy, PartialEq, Eq, Structural, Debug)]
pub struct ClockSample {
    pub at: u64,
    pub clock: CameraClock,
}

/// The last reading of a camera's clock.
#[derive(Debug)]
pub struct ClockCache {
    pub slot: Option<ClockSample>,
}

/// How old a reading is, in milliseconds.
pub open spec fn sample_age(sample: ClockSample, now: u64) -> int {
    if now >= sample.at {
        now - sample.at
    } else {
        0
    }
}

/// The clock that a sample stands for now, if it is recent: it has kept ticking.
pub open spec fn remembered(slot: Option<ClockSample>, now: u64) -> Option<CameraClock> {
    match slot {
        Some(sample) => if sample_age(sample, now) < CLOCK_CACHE_TTL {
            Some(
                CameraClock {
                    utc: (sample.clock.utc + sample_age(sample, now) / 1_000) as i64,
                    ..sample.clock
                },
            )
        } else {
            None
        },
        None => None,
    }
}

impl ClockCache {
    /// Nothing has been read yet.
    pub fn new() -> (cache: Self)
        ensures
            cache.slot is None,
    {
        ClockCache { slot: None }
    }

    /// The last reading, moved forward, if it is recent enough.
    pub fn recent(&self, now: u64) -> (clock: Option<CameraClock>)
        requires
            self.slot matches Some(sample) ==> time::in_calendar(sample.clock.utc as int)
                && time::in_calendar(sample.clock.utc + 60),
        ensures
            clock == remembered(self.slot, now),
    {
        match self.slot {
            Some(sample) => {
                let age: u64 = if now >= sample.at {
                    now - sample.at
                } else {
                    0
                };
                if age < CLOCK_CACHE_TTL {
                    Some(advance(sample.clock, age / 1_000))
                } else {
                    None
                }
            },
            None => None,
        }
    }

    /// Keep a reading.
    pub fn store(&mut self, at: u64, clock: CameraClock)
        ensures
            final(self).slot == Some(ClockSample { at, clock }),
    {
        self.slot = Some(ClockSample { at, clock });
    }

    /// Drop any reading, so the next one goes to the camera.
    pub fn invalidate(&mut self)
        ensures
            final(self).slot is None,
    {
        self.slot = None;
    }
}

/// A camera's general settings with its clock set to a time in UTC. Its time
/// zone stays what it is, and everything else is untouched.
pub open spec fn with_clock(g: SystemGeneral, utc: int) -> SystemGeneral {
    let zone = match g.time_zone {
        Some(zone) => zone,
        None => 0,
    };
    let c = time::civil_of(utc - zone);
    SystemGeneral {
        time_zone: Some(zone),
        year: Some(c.year),
        month: Some(c.month as u8),
        day: Some(c.day as u8),
        hour: Some(c.hour as u8),
        minute: Some(c.minute as u8),
        second: Some(c.second as u8),
        ..g
    }
}

/// Set the clock in a camera's general settings to a UTC instant, preserving its
/// configured time zone.
pub fn write_camera_clock(general: SystemGeneral, utc: i64) -> (new: SystemGeneral)
    requires
        time::in_calendar(utc as int),
        time::in_calendar(
            utc - (match general.time_zone {
                Some(zone) => zone,
                None => 0,
            }),
        ),
    ensures
        new == with_clock(general, utc as int),
{
    let zone: i32 = match general.time_zone {
        Some(zone) => zone,
        None => 0,
    };
    let c = time::civil_at(utc - zone as i64);
    let mut new = general;
    new.year = Some(c.year);
    new.month = Some(c.month as u8);
    new.day = Some(c.day as u8);
    new.hour = Some(c.hour as u8);
    new.minute = Some(c.minute as u8);
    new.second = Some(c.second as u8);
    new.time_zone = Some(zone);
    new
}

/// A time that was written to a camera's clock is the time it reads, and its
/// time zone is kept.
pub proof fn law_written_clock_reads_back(g: SystemGeneral, utc: int, c: Civil)
    requires
        time::civil_exists(c),
        time::civil_secs(c) == utc - (match g.time_zone {
            Some(zone) => zone,
            None => 0,
        }),
    ensures
        clock_utc(with_clock(g, utc)) == Some(utc),
        g.time_zone is Some ==> with_clock(g, utc).time_zone == g.time_zone,
{
    let zone = match g.time_zone {
        Some(zone) => zone,
        None => 0,
    };
    time::law_calendar_is_unambiguous(c, time::civil_of(utc - zone));
    let new = with_clock(g, utc);
    assert(wall_clock(new) == Some(c));
}

/// A POSIX `TZ` string for seconds west of UTC.
pub open spec fn posix_zone(seconds_west: i32) -> Seq<char> {
    let size = if seconds_west < 0 {
        -(seconds_west as int)
    } else {
        seconds_west as int
    };
    "UTC"@ + (if seconds_west < 0 {
        "-"@
    } else {
        "+"@
    }) + text::two_digits((size / 3_600) as nat) + ":"@ + text::two_digits(
        (size % 3_600 / 60) as nat,
    )
}

/// Format a POSIX `TZ` string from seconds *west* of UTC. POSIX inverts the usual
/// sign, as the camera does, so the value passes through unnegated.
pub fn posix_tz(seconds_west: i32) -> (tz: String)
    ensures
        tz@ == posix_zone(seconds_west),
{
    let size: u64 = if seconds_west < 0 {
        (-(seconds_west as i64)) as u64
    } else {
        seconds_west as u64
    };
    let mut tz = "UTC".to_owned();
    if seconds_west < 0 {
        tz.append("-");
    } else {
        tz.append("+");
    }
    text::append_two_digits(&mut tz, size / 3_600);
    tz.append(":");
    text::append_two_digits(&mut tz, size % 3_600 / 60);
    tz
}

/// The two readings of a clock and its time zone.
pub open spec fn clock_xml(offset: i32, u: Civil, l: Civil) -> Seq<char> {
    "<tds:GetSystemDateAndTimeResponse><tds:SystemDateAndTime><tt:DateTimeType>Manual</tt:DateTimeType><tt:DaylightSavings>false</tt:DaylightSavings><tt:TimeZone><tt:TZ>"@ + posix_zone(offset) + "</tt:TZ></tt:TimeZone><tt:UTCDateTime><tt:Time><tt:Hour>"@ + text::decimal(u.hour as nat) + "</tt:Hour><tt:Minute>"@ + text::decimal(u.minute as nat) + "</tt:Minute><tt:Second>"@ + text::decimal(u.second as nat) + "</tt:Second></tt:Time><tt:Date><tt:Year>"@ + text::signed_decimal(u.year as int) + "</tt:Year><tt:Month>"@ + text::decimal(u.month as nat) + "</tt:Month><tt:Day>"@ + text::decimal(u.day as nat) + "</tt:Day></tt:Date></tt:UTCDateTime><tt:LocalDateTime><tt:Time><tt:Hour>"@ + text::decimal(l.hour as nat) + "</tt:Hour><tt:Minute>"@ + text::decimal(l.minute as nat) + "</tt:Minute><tt:Second>"@ + text::decimal(l.second as nat) + "</tt:Second></tt:Time><tt:Date><tt:Year>"@ + text::signed_decimal(l.year as int) + "</tt:Year><tt:Month>"@ + text::decimal(l.month as nat) + "</tt:Month><tt:Day>"@ + text::decimal(l.day as nat) + "</tt:Day></tt:Date></tt:LocalDateTime></tds:SystemDateAndTime></tds:GetSystemDateAndTimeResponse>"@
}

/// The two readings of a clock and its time zone.
pub fn render_clock(offset: i32, u: Civil, l: Civil) -> (out: String)
    ensures
        out@ == clock_xml(offset, u, l),
{
    let mut out = "<tds:GetSystemDateAndTimeResponse><tds:SystemDateAndTime><tt:DateTimeType>Manual</tt:DateTimeType><tt:DaylightSavings>false</tt:DaylightSavings><tt:TimeZone><tt:TZ>".to_owned();
    out.append(posix_tz(offset).as_str());
    out.append("</tt:TZ></tt:TimeZone><tt:UTCDateTime><tt:Time><tt:Hour>");
    text::append_decimal(&mut out, u.hour as u64);
    out.append("</tt:Hour><tt:Minute>");
    text::append_decimal(&mut out, u.minute as u64);
    out.append("</tt:Minute><tt:Second>");
    text::append_decimal(&mut out, u.second as u64);
    out.append("</tt:Second></tt:Time><tt:Date><tt:Year>");
    text::append_signed(&mut out, u.year as i64);
    out.append("</tt:Year><tt:Month>");
    text::append_decimal(&mut out, u.month as u64);
    out.append("</tt:Month><tt:Day>");
    text::append_decimal(&mut out, u.day as u64);
    out.append("</tt:Day></tt:Date></tt:UTCDateTime><tt:LocalDateTime><tt:Time><tt:Hour>");
    text::append_decimal(&mut out, l.hour as u64);
    out.append("</tt:Hour><tt:Minute>");
    text::append_decimal(&mut out, l.minute as u64);
    out.append("</tt:Minute><tt:Second>");
    text::append_decimal(&mut out, l.second as u64);
    out.append("</tt:Second></tt:Time><tt:Date><tt:Year>");
    text::append_signed(&mut out, l.year as i64);
    out.append("</tt:Year><tt:Month>");
    text::append_decimal(&mut out, l.month as u64);
    out.append("</tt:Month><tt:Day>");
    text::append_decimal(&mut out, l.day as u64);
    out.append("</tt:Day></tt:Date></tt:LocalDateTime></tds:SystemDateAndTime></tds:GetSystemDateAndTimeResponse>");
    out
}

/// What a client is told about a clock: the camera's, or, if the camera does not
/// tell, the bridge's own.
pub open spec fn date_and_time(clock: Option<CameraClock>, now: Timestamp) -> Seq<char> {
    match clock {
        Some(c) => clock_xml(
            c.posix_offset_seconds,
            time::civil_of(c.utc as int),
            time::civil_of(c.utc - c.posix_offset_seconds),
        ),
        None => clock_xml(0, time::civil_of(now.secs as int), time::civil_of(now.secs as int)),
    }
}

/// What a client is told about a clock. A camera that does not tell its clock
/// still needs a well-formed answer: this is what every client opens with.
pub fn render_system_date_and_time(clock: Option<CameraClock>, now: Timestamp) -> (out: String)
    requires
        time::clock_time(now),
        clock matches Some(c) ==> c.shows(),
    ensures
        out@ == date_and_time(clock, now),
{
    match clock {
        Some(c) => render_clock(
            c.posix_offset_seconds,
            time::civil_at(c.utc),
            time::civil_at(c.utc - c.posix_offset_seconds as i64),
        ),
        None => render_clock(0, time::civil_at(now.secs), time::civil_at(now.secs)),
    }
}

/// A number that a request may hold.
pub open spec fn number_in(held: Option<Seq<char>>) -> Option<int> {
    match held {
        Some(raw) => text::signed_number(text::trimmed(raw), i64::MIN as int, i64::MAX as int),
        None => None,
    }
}

fn read_number(held: &Option<String>) -> (n: Option<i64>)
    ensures
        (match n {
            Some(v) => Some(v as int),
            None => None,
        }) == number_in(text::opt_view(*held)),
{
    match held {
        Some(raw) => text::parse_signed(text::trim(raw.as_str()).as_str(), i64::MIN, i64::MAX),
        None => None,
    }
}

/// The fields of a date and time that a request carries.
#[derive(Debug)]
pub struct ClockFields {
    pub year: Option<String>,
    pub month: Option<String>,
    pub day: Option<String>,
    pub hour: Option<String>,
    pub minute: Option<String>,
    pub second: Option<String>,
}

/// The fields of a date and time that a request carries, as sequences.
#[verifier::ext_equal]
pub struct ClockFieldsView {
    pub year: Option<Seq<char>>,
    pub month: Option<Seq<char>>,
    pub day: Option<Seq<char>>,
    pub hour: Option<Seq<char>>,
    pub minute: Option<Seq<char>>,
    pub second: Option<Seq<char>>,
}

impl View for ClockFields {
    type V = ClockFieldsView;

    open spec fn view(&self) -> ClockFieldsView {
        ClockFieldsView {
            year: text::opt_view(self.year),
            month: text::opt_view(self.month),
            day: text::opt_view(self.day),
            hour: text::opt_view(self.hour),
            minute: text::opt_view(self.minute),
            second: text::opt_view(self.second),
        }
    }
}

/// The fields of the UTC date and time among the events of a request.
pub open spec fn clock_fields_from(items: Seq<xml::XmlItemView>) -> ClockFieldsView {
    ClockFieldsView {
        year: xml::text_within_from(items, "UTCDateTime"@, "Year"@, false),
        month: xml::text_within_from(items, "UTCDateTime"@, "Month"@, false),
        day: xml::text_within_from(items, "UTCDateTime"@, "Day"@, false),
        hour: xml::text_within_from(items, "UTCDateTime"@, "Hour"@, false),
        minute: xml::text_within_from(items, "UTCDateTime"@, "Minute"@, false),
        second: xml::text_within_from(items, "UTCDateTime"@, "Second"@, false),
    }
}

/// The fields of the UTC date and time that the document of a request carries.
pub open spec fn clock_fields(body_xml: Seq<char>) -> ClockFieldsView {
    clock_fields_from(xml::xml_events(body_xml))
}

/// Find the fields of the UTC date and time among the events of a request. Those
/// of a local date and time do not count.
pub fn find_clock_fields(items: &Vec<xml::XmlItem>) -> (fields: ClockFields)
    requires
        forall|i: int| 0 <= i < items@.len() ==> xml::name_fits((#[trigger] items@[i])@),
    ensures
        fields@ == clock_fields_from(xml::items_view(items@)),
{
    ClockFields {
        year: xml::find_text_within(items, "UTCDateTime", "Year"),
        month: xml::find_text_within(items, "UTCDateTime", "Month"),
        day: xml::find_text_within(items, "UTCDateTime", "Day"),
        hour: xml::find_text_within(items, "UTCDateTime", "Hour"),
        minute: xml::find_text_within(items, "UTCDateTime", "Minute"),
        second: xml::find_text_within(items, "UTCDateTime", "Second"),
    }
}

/// The second of the calendar that a `SetSystemDateAndTime` request asks for.
pub open spec fn asked_civil(c: ClockFieldsView) -> Option<Civil> {
    match (
        number_in(c.year),
        number_in(c.month),
        number_in(c.day),
        number_in(c.hour),
        number_in(c.minute),
        number_in(c.second),
    ) {
        (Some(year), Some(month), Some(day), Some(hour), Some(minute), Some(second)) => Some(
            Civil {
                year: (year as i64) as i32,
                month: (month as i64) as u32,
                day: (day as i64) as u32,
                hour: (hour as i64) as u32,
                minute: (minute as i64) as u32,
                second: (second as i64) as u32,
            },
        ),
        _ => None,
    }
}

/// Whether this is the second, counted from the epoch, that fields name, if
/// they name one.
pub open spec fn names_second(fields: ClockFieldsView, utc: Option<i64>) -> bool {
    match utc {
        Some(secs) => asked_civil(fields) matches Some(c) && time::civil_exists(c) && secs
            == time::civil_secs(c) && time::in_calendar(secs as int),
        None => asked_civil(fields) matches Some(c) ==> !time::civil_exists(c),
    }
}

/// The UTC instant that the fields of a date and time name, in seconds after the
/// epoch.
pub fn utc_of(fields: &ClockFields) -> (utc: Option<i64>)
    ensures
        names_second(fields@, utc),
{
    match (
        read_number(&fields.year),
        read_number(&fields.month),
        read_number(&fields.day),
        read_number(&fields.hour),
        read_number(&fields.minute),
        read_number(&fields.second),
    ) {
        (Some(year), Some(month), Some(day), Some(hour), Some(minute), Some(second)) => {
            let c = Civil {
                year: year as i32,
                month: month as u32,
                day: day as u32,
                hour: hour as u32,
                minute: minute as u32,
                second: second as u32,
            };
            let utc = time::from_civil(c);
            proof {
                if time::civil_exists(c) {
                    time::lemma_civil_range(c);
                }
            }
            utc
        },
        _ => None,
    }
}

/// Pull the UTC instant out of a `SetSystemDateAndTime` request, in seconds
/// after the epoch. There is none without a usable `UTCDateTime`, such as in a
/// request for NTP, which cannot be configured.
pub fn parse_set_system_date_and_time(body_xml: &str) -> (utc: Option<i64>)
    ensures
        names_second(clock_fields(body_xml@), utc),
{
    let items = xml::read_events(body_xml);
    utc_of(&find_clock_fields(&items))
}

/// A request without a UTC date and time sets no clock, whatever else it holds.
pub proof fn law_only_utc_sets_a_clock(items: Seq<xml::XmlItemView>, utc: Option<i64>)
    requires
        forall|i: int|
            0 <= i < items.len() ==> ((#[trigger] items[i]).event matches xml::XmlView::Start(
                content,
                name_len,
            ) ==> xml::local_part(xml::tag_name(content, name_len)) != "UTCDateTime"@),
        names_second(clock_fields_from(items), utc),
    ensures
        utc is None,
{
    xml::lemma_nothing_within(items, "UTCDateTime"@, "Year"@);
}

/// A byte as two hexadecimal digits, their letters in upper case.
pub open spec fn upper_hex(b: u8) -> Seq<char> {
    seq![state::upper_hex_digit(b as int / 16), state::upper_hex_digit(b as int % 16)]
}

fn append_upper_hex(out: &mut String, b: u8)
    ensures
        final(out)@ == old(out)@ + upper_hex(b),
{
    let ghost before = out@;
    out.push(state::upper_hex_char(b / 16));
    out.push(state::upper_hex_char(b % 16));
    assert(out@ =~= before + upper_hex(b));
}

/// The first byte of a made-up hardware address: the multicast bit clear, the
/// locally-administered bit set.
pub open spec fn local_byte(b: u8) -> u8 {
    (b & 0xfe) | 0x02
}

/// The hardware address that a device is given, from its identity.
pub open spec fn mac_of(uuid: Seq<u8>) -> Seq<char> {
    upper_hex(local_byte(uuid[0])) + ":"@ + upper_hex(uuid[1]) + ":"@ + upper_hex(uuid[2]) + ":"@
        + upper_hex(uuid[3]) + ":"@ + upper_hex(uuid[4]) + ":"@ + upper_hex(uuid[5])
}

/// A hardware address for a device: stable, its own, and marked as not globally
/// assigned so it can never be mistaken for real hardware.
pub fn synthetic_mac(uuid: &DeviceUuid) -> (mac: String)
    ensures
        mac@ == mac_of(uuid.bytes@),
{
    let mut mac = String::new();
    append_upper_hex(&mut mac, (uuid.bytes[0] & 0xfe) | 0x02);
    assert(mac@ =~= upper_hex(local_byte(uuid.bytes@[0])));
    mac.append(":");
    append_upper_hex(&mut mac, uuid.bytes[1]);
    mac.append(":");
    append_upper_hex(&mut mac, uuid.bytes[2]);
    mac.append(":");
    append_upper_hex(&mut mac, uuid.bytes[3]);
    mac.append(":");
    append_upper_hex(&mut mac, uuid.bytes[4]);
    mac.append(":");
    append_upper_hex(&mut mac, uuid.bytes[5]);
    mac
}

/// A made-up hardware address is locally administered and unicast, whatever the
/// identity it is made from.
pub proof fn law_macs_are_local_and_unicast(b: u8)
    ensures
        local_byte(b) & 0x02 == 0x02,
        local_byte(b) & 0x01 == 0,
{
    assert(((b & 0xfe) | 0x02) & 0x02 == 0x02u8 && ((b & 0xfe) | 0x02) & 0x01 == 0u8)
        by (bit_vector);
}

/// The bridge's own network presence for a device.
pub open spec fn network_interfaces(uuid: Seq<u8>, host: Seq<char>) -> Seq<char> {
    "<tds:GetNetworkInterfacesResponse><tds:NetworkInterfaces token=\"neolink0\"><tt:Enabled>true</tt:Enabled><tt:Info><tt:Name>neolink0</tt:Name><tt:HwAddress>"@ + mac_of(uuid) + "</tt:HwAddress><tt:MTU>1500</tt:MTU></tt:Info><tt:IPv4><tt:Enabled>true</tt:Enabled><tt:Config><tt:Manual><tt:Address>"@ + soap::escaped(host) + "</tt:Address><tt:PrefixLength>24</tt:PrefixLength></tt:Manual><tt:DHCP>false</tt:DHCP></tt:Config></tt:IPv4></tds:NetworkInterfaces></tds:GetNetworkInterfacesResponse>"@
}

/// The bridge's own network presence for a device.
pub fn render_network_interfaces(uuid: &DeviceUuid, host: &str) -> (out: String)
    ensures
        out@ == network_interfaces(uuid.bytes@, host@),
{
    let mut out = "<tds:GetNetworkInterfacesResponse><tds:NetworkInterfaces token=\"neolink0\"><tt:Enabled>true</tt:Enabled><tt:Info><tt:Name>neolink0</tt:Name><tt:HwAddress>".to_owned();
    out.append(synthetic_mac(uuid).as_str());
    out.append("</tt:HwAddress><tt:MTU>1500</tt:MTU></tt:Info><tt:IPv4><tt:Enabled>true</tt:Enabled><tt:Config><tt:Manual><tt:Address>");
    out.append(soap::xml_escape(host).as_str());
    out.append("</tt:Address><tt:PrefixLength>24</tt:PrefixLength></tt:Manual><tt:DHCP>false</tt:DHCP></tt:Config></tt:IPv4></tds:NetworkInterfaces></tds:GetNetworkInterfacesResponse>");
    out
}

/// Whether a character may stand in a scope as it is.
pub open spec fn scope_char(c: char) -> char {
    if ('a' <= c <= 'z') || ('A' <= c <= 'Z') || ('0' <= c <= '9') || c == '-' {
        c
    } else {
        '_'
    }
}

/// A text as part of a scope.
pub open spec fn scope_text(s: Seq<char>) -> Seq<char> {
    s.map_values(|c: char| scope_char(c))
}

/// A text as part of a scope: ASCII letters, digits and hyphens, and underscores
/// for everything else.
pub fn scope_safe(s: &str) -> (out: String)
    ensures
        out@ == scope_text(s@),
{
    let chars = text::chars_of(s);
    let mut out = String::new();
    let mut i: usize = 0;
    while i < chars.len()
        invariant
            i <= chars@.len(),
            chars@ == s@,
            out@ =~= scope_text(s@).take(i as int),
        decreases chars@.len() - i,
    {
        let c = chars[i];
        if ('a' <= c && c <= 'z') || ('A' <= c && c <= 'Z') || ('0' <= c && c <= '9') || c == '-' {
            out.push(c);
        } else {
            out.push('_');
        }
        i += 1;
    }
    assert(scope_text(s@).take(i as int) =~= scope_text(s@));
    out
}

/// Where a service of a camera is reached.
pub open spec fn service_address(authority: Seq<char>, cam_name: Seq<char>, service: Seq<char>) -> Seq<
    char,
> {
    "http://"@ + authority + "/onvif/"@ + state::path_segment(cam_name) + "/"@ + service
}

fn service_uri(authority: &str, cam_name: &str, service: &str) -> (out: String)
    ensures
        out@ == service_address(authority@, cam_name@, service@),
{
    let mut out = "http://".to_owned();
    out.append(authority);
    out.append("/onvif/");
    out.append(state::url_path_segment(cam_name).as_str());
    out.append("/");
    out.append(service);
    out
}

fn enclosed(before: &str, inner: &str, behind: &str) -> (out: String)
    ensures
        out@ == before@ + inner@ + behind@,
{
    let mut out = before.to_owned();
    out.append(inner);
    out.append(behind);
    out
}

/// The entry of the ptz_service, if the camera has it.
pub open spec fn ptz_entry(authority: Seq<char>, cam_name: Seq<char>, has: bool) -> Seq<char> {
    if has {
        "<tt:PTZ><tt:XAddr>"@ + service_address(
            authority,
            cam_name,
            "ptz_service"@,
        ) + "</tt:XAddr></tt:PTZ>"@
    } else {
        Seq::empty()
    }
}

fn ptz_capability(authority: &str, cam_name: &str, has: bool) -> (out: String)
    ensures
        out@ == ptz_entry(authority@, cam_name@, has),
{
    if has {
        enclosed(
            "<tt:PTZ><tt:XAddr>",
            service_uri(authority, cam_name, "ptz_service").as_str(),
            "</tt:XAddr></tt:PTZ>",
        )
    } else {
        String::new()
    }
}

/// The entry of the imaging_service, if the camera has it.
pub open spec fn imaging_entry(authority: Seq<char>, cam_name: Seq<char>, has: bool) -> Seq<char> {
    if has {
        "<tt:Imaging><tt:XAddr>"@ + service_address(
            authority,
            cam_name,
            "imaging_service"@,
        ) + "</tt:XAddr></tt:Imaging>"@
    } else {
        Seq::empty()
    }
}

fn imaging_capability(authority: &str, cam_name: &str, has: bool) -> (out: String)
    ensures
        out@ == imaging_entry(authority@, cam_name@, has),
{
    if has {
        enclosed(
            "<tt:Imaging><tt:XAddr>",
            service_uri(authority, cam_name, "imaging_service").as_str(),
            "</tt:XAddr></tt:Imaging>",
        )
    } else {
        String::new()
    }
}

/// The entry of the ptz_service, if the camera has it.
pub open spec fn ptz_service_entry(authority: Seq<char>, cam_name: Seq<char>, has: bool) -> Seq<char> {
    if has {
        "<tds:Service><tds:Namespace>http://www.onvif.org/ver20/ptz/wsdl</tds:Namespace><tds:XAddr>"@ + service_address(
            authority,
            cam_name,
            "ptz_service"@,
        ) + "</tds:XAddr><tds:Version><tt:Major>2</tt:Major><tt:Minor>5</tt:Minor></tds:Version></tds:Service>"@
    } else {
        Seq::empty()
    }
}

fn ptz_service(authority: &str, cam_name: &str, has: bool) -> (out: String)
    ensures
        out@ == ptz_service_entry(authority@, cam_name@, has),
{
    if has {
        enclosed(
            "<tds:Service><tds:Namespace>http://www.onvif.org/ver20/ptz/wsdl</tds:Namespace><tds:XAddr>",
            service_uri(authority, cam_name, "ptz_service").as_str(),
            "</tds:XAddr><tds:Version><tt:Major>2</tt:Major><tt:Minor>5</tt:Minor></tds:Version></tds:Service>",
        )
    } else {
        String::new()
    }
}

/// The entry of the imaging_service, if the camera has it.
pub open spec fn imaging_service_entry(authority: Seq<char>, cam_name: Seq<char>, has: bool) -> Seq<char> {
    if has {
        "<tds:Service><tds:Namespace>http://www.onvif.org/ver20/imaging/wsdl</tds:Namespace><tds:XAddr>"@ + service_address(
            authority,
            cam_name,
            "imaging_service"@,
        ) + "</tds:XAddr><tds:Version><tt:Major>2</tt:Major><tt:Minor>5</tt:Minor></tds:Version></tds:Service>"@
    } else {
        Seq::empty()
    }
}

fn imaging_service(authority: &str, cam_name: &str, has: bool) -> (out: String)
    ensures
        out@ == imaging_service_entry(authority@, cam_name@, has),
{
    if has {
        enclosed(
            "<tds:Service><tds:Namespace>http://www.onvif.org/ver20/imaging/wsdl</tds:Namespace><tds:XAddr>",
            service_uri(authority, cam_name, "imaging_service").as_str(),
            "</tds:XAddr><tds:Version><tt:Major>2</tt:Major><tt:Minor>5</tt:Minor></tds:Version></tds:Service>",
        )
    } else {
        String::new()
    }
}

/// The capabilities of a device. The schema is a sequence, so the optional entries stand at their place in it.
pub open spec fn capabilities_xml(authority: Seq<char>, cam_name: Seq<char>, caps: CameraCapabilities) -> Seq<char> {
    "<tds:GetCapabilitiesResponse><tds:Capabilities><tt:Device><tt:XAddr>"@ + service_address(authority, cam_name, "device_service"@) + "</tt:XAddr><tt:Network><tt:IPFilter>false</tt:IPFilter><tt:ZeroConfiguration>false</tt:ZeroConfiguration><tt:IPVersion6>false</tt:IPVersion6><tt:DynDNS>false</tt:DynDNS></tt:Network><tt:System><tt:DiscoveryResolve>false</tt:DiscoveryResolve><tt:DiscoveryBye>true</tt:DiscoveryBye><tt:RemoteDiscovery>false</tt:RemoteDiscovery><tt:SystemBackup>false</tt:SystemBackup><tt:SystemLogging>false</tt:SystemLogging><tt:FirmwareUpgrade>false</tt:FirmwareUpgrade></tt:System><tt:IO><tt:InputConnectors>0</tt:InputConnectors><tt:RelayOutputs>"@ + text::decimal(offered_relays(caps).len()) + "</tt:RelayOutputs></tt:IO></tt:Device><tt:Events><tt:XAddr>"@ + service_address(authority, cam_name, "events_service"@) + "</tt:XAddr><tt:WSSubscriptionPolicySupport>false</tt:WSSubscriptionPolicySupport><tt:WSPullPointSupport>true</tt:WSPullPointSupport><tt:WSPausableSubscriptionManagerInterfaceSupport>false</tt:WSPausableSubscriptionManagerInterfaceSupport></tt:Events>"@ + imaging_entry(authority, cam_name, caps.has_imaging()) + "<tt:Media><tt:XAddr>"@ + service_address(authority, cam_name, "media_service"@) + "</tt:XAddr><tt:StreamingCapabilities><tt:RTPMulticast>false</tt:RTPMulticast><tt:RTP_TCP>true</tt:RTP_TCP><tt:RTP_RTSP_TCP>true</tt:RTP_RTSP_TCP></tt:StreamingCapabilities></tt:Media>"@ + ptz_entry(authority, cam_name, caps.has_ptz()) + "</tds:Capabilities></tds:GetCapabilitiesResponse>"@
}

/// The capabilities of a device. The schema is a sequence, so the optional entries stand at their place in it.
pub fn render_capabilities(authority: &str, cam_name: &str, caps: &CameraCapabilities) -> (out: String)
    ensures
        out@ == capabilities_xml(authority@, cam_name@, *caps),
{
    let mut out = "<tds:GetCapabilitiesResponse><tds:Capabilities><tt:Device><tt:XAddr>".to_owned();
    out.append(service_uri(authority, cam_name, "device_service").as_str());
    out.append("</tt:XAddr><tt:Network><tt:IPFilter>false</tt:IPFilter><tt:ZeroConfiguration>false</tt:ZeroConfiguration><tt:IPVersion6>false</tt:IPVersion6><tt:DynDNS>false</tt:DynDNS></tt:Network><tt:System><tt:DiscoveryResolve>false</tt:DiscoveryResolve><tt:DiscoveryBye>true</tt:DiscoveryBye><tt:RemoteDiscovery>false</tt:RemoteDiscovery><tt:SystemBackup>false</tt:SystemBackup><tt:SystemLogging>false</tt:SystemLogging><tt:FirmwareUpgrade>false</tt:FirmwareUpgrade></tt:System><tt:IO><tt:InputConnectors>0</tt:InputConnectors><tt:RelayOutputs>");
    text::append_decimal(&mut out, relay_outputs(caps).len() as u64);
    out.append("</tt:RelayOutputs></tt:IO></tt:Device><tt:Events><tt:XAddr>");
    out.append(service_uri(authority, cam_name, "events_service").as_str());
    out.append("</tt:XAddr><tt:WSSubscriptionPolicySupport>false</tt:WSSubscriptionPolicySupport><tt:WSPullPointSupport>true</tt:WSPullPointSupport><tt:WSPausableSubscriptionManagerInterfaceSupport>false</tt:WSPausableSubscriptionManagerInterfaceSupport></tt:Events>");
    out.append(imaging_capability(authority, cam_name, caps.imaging()).as_str());
    out.append("<tt:Media><tt:XAddr>");
    out.append(service_uri(authority, cam_name, "media_service").as_str());
    out.append("</tt:XAddr><tt:StreamingCapabilities><tt:RTPMulticast>false</tt:RTPMulticast><tt:RTP_TCP>true</tt:RTP_TCP><tt:RTP_RTSP_TCP>true</tt:RTP_RTSP_TCP></tt:StreamingCapabilities></tt:Media>");
    out.append(ptz_capability(authority, cam_name, caps.ptz()).as_str());
    out.append("</tds:Capabilities></tds:GetCapabilitiesResponse>");
    out
}

/// The services of a device.
pub open spec fn services_xml(authority: Seq<char>, cam_name: Seq<char>, caps: CameraCapabilities) -> Seq<char> {
    "<tds:GetServicesResponse><tds:Service><tds:Namespace>http://www.onvif.org/ver10/device/wsdl</tds:Namespace><tds:XAddr>"@ + service_address(authority, cam_name, "device_service"@) + "</tds:XAddr><tds:Version><tt:Major>2</tt:Major><tt:Minor>5</tt:Minor></tds:Version></tds:Service><tds:Service><tds:Namespace>http://www.onvif.org/ver10/media/wsdl</tds:Namespace><tds:XAddr>"@ + service_address(authority, cam_name, "media_service"@) + "</tds:XAddr><tds:Version><tt:Major>2</tt:Major><tt:Minor>5</tt:Minor></tds:Version></tds:Service><tds:Service><tds:Namespace>http://www.onvif.org/ver10/events/wsdl</tds:Namespace><tds:XAddr>"@ + service_address(authority, cam_name, "events_service"@) + "</tds:XAddr><tds:Version><tt:Major>2</tt:Major><tt:Minor>5</tt:Minor></tds:Version></tds:Service>"@ + imaging_service_entry(authority, cam_name, caps.has_imaging()) + ptz_service_entry(authority, cam_name, caps.has_ptz()) + "</tds:GetServicesResponse>"@
}

/// The services of a device.
pub fn render_services(authority: &str, cam_name: &str, caps: &CameraCapabilities) -> (out: String)
    ensures
        out@ == services_xml(authority@, cam_name@, *caps),
{
    let mut out = "<tds:GetServicesResponse><tds:Service><tds:Namespace>http://www.onvif.org/ver10/device/wsdl</tds:Namespace><tds:XAddr>".to_owned();
    out.append(service_uri(authority, cam_name, "device_service").as_str());
    out.append("</tds:XAddr><tds:Version><tt:Major>2</tt:Major><tt:Minor>5</tt:Minor></tds:Version></tds:Service><tds:Service><tds:Namespace>http://www.onvif.org/ver10/media/wsdl</tds:Namespace><tds:XAddr>");
    out.append(service_uri(authority, cam_name, "media_service").as_str());
    out.append("</tds:XAddr><tds:Version><tt:Major>2</tt:Major><tt:Minor>5</tt:Minor></tds:Version></tds:Service><tds:Service><tds:Namespace>http://www.onvif.org/ver10/events/wsdl</tds:Namespace><tds:XAddr>");
    out.append(service_uri(authority, cam_name, "events_service").as_str());
    out.append("</tds:XAddr><tds:Version><tt:Major>2</tt:Major><tt:Minor>5</tt:Minor></tds:Version></tds:Service>");
    out.append(imaging_service(authority, cam_name, caps.imaging()).as_str());
    out.append(ptz_service(authority, cam_name, caps.ptz()).as_str());
    out.append("</tds:GetServicesResponse>");
    out
}

/// Whether one text sorts before another: by the first character in which they
/// differ, a shorter one before its continuations.
pub open spec fn sorts_before(a: Seq<char>, b: Seq<char>) -> bool
    decreases a.len(),
{
    if b.len() == 0 {
        false
    } else if a.len() == 0 {
        true
    } else if a[0] != b[0] {
        a[0] < b[0]
    } else {
        sorts_before(a.drop_first(), b.drop_first())
    }
}

fn is_before(a: &str, b: &str) -> (yes: bool)
    ensures
        yes == sorts_before(a@, b@),
{
    let x = text::chars_of(a);
    let y = text::chars_of(b);
    let mut i: usize = 0;
    assert(x@.skip(0) =~= x@);
    assert(y@.skip(0) =~= y@);
    while i < x.len() && i < y.len() && x[i] == y[i]
        invariant
            i <= x@.len(),
            i <= y@.len(),
            sorts_before(x@, y@) == sorts_before(x@.skip(i as int), y@.skip(i as int)),
        decreases x@.len() - i,
    {
        assert(x@.skip(i as int).drop_first() =~= x@.skip(i + 1));
        assert(y@.skip(i as int).drop_first() =~= y@.skip(i + 1));
        i += 1;
    }
    if i >= y.len() {
        false
    } else if i >= x.len() {
        true
    } else {
        x[i] < y[i]
    }
}

/// A name put in its place among sorted ones.
pub open spec fn name_inserted(sorted: Seq<Seq<char>>, name: Seq<char>) -> Seq<Seq<char>>
    decreases sorted.len(),
{
    if sorted.len() == 0 || !sorts_before(sorted[0], name) {
        seq![name] + sorted
    } else {
        seq![sorted[0]] + name_inserted(sorted.drop_first(), name)
    }
}

/// The users of a device, sorted: those in the table that the camera permits.
pub open spec fn listed_users(
    entries: Seq<(String, String)>,
    permitted: Option<Seq<Seq<char>>>,
) -> Seq<Seq<char>>
    decreases entries.len(),
{
    if entries.len() == 0 {
        Seq::empty()
    } else {
        let before = listed_users(entries.drop_last(), permitted);
        if snapshot::permits(permitted, entries.last().0@) {
            name_inserted(before, entries.last().0@)
        } else {
            before
        }
    }
}

proof fn lemma_name_inserted(sorted: Seq<Seq<char>>, name: Seq<char>, x: Seq<char>)
    ensures
        name_inserted(sorted, name).contains(x) <==> x == name || sorted.contains(x),
    decreases sorted.len(),
{
    let result = name_inserted(sorted, name);
    if sorted.len() == 0 || !sorts_before(sorted[0], name) {
        assert(result[0] == name);
        if sorted.contains(x) {
            let i = choose|i: int| 0 <= i < sorted.len() && sorted[i] == x;
            assert(result[i + 1] == x);
        }
        if result.contains(x) && x != name {
            let i = choose|i: int| 0 <= i < result.len() && result[i] == x;
            assert(sorted[i - 1] == x);
        }
    } else {
        let rest = sorted.drop_first();
        let tail = name_inserted(rest, name);
        lemma_name_inserted(rest, name, x);
        assert(result[0] == sorted[0]);
        if result.contains(x) {
            let i = choose|i: int| 0 <= i < result.len() && result[i] == x;
            if i > 0 {
                assert(tail[i - 1] == x);
                assert(tail.contains(x));
                if x != name {
                    let k = choose|k: int| 0 <= k < rest.len() && rest[k] == x;
                    assert(sorted[k + 1] == x);
                }
            }
        }
        if sorted.contains(x) && x != sorted[0] {
            let i = choose|i: int| 0 <= i < sorted.len() && sorted[i] == x;
            assert(rest[i - 1] == x);
        }
        if tail.contains(x) {
            let k = choose|k: int| 0 <= k < tail.len() && tail[k] == x;
            assert(result[k + 1] == x);
        }
        if x == sorted[0] {
            assert(sorted.contains(x));
        }
    }
}

/// The users that are listed are exactly those who can reach the device.
pub proof fn law_listed_users_are_those_admitted(
    entries: Seq<(String, String)>,
    permitted: Option<Seq<Seq<char>>>,
    name: Seq<char>,
)
    ensures
        listed_users(entries, permitted).contains(name) <==> soap::password_in(
            entries,
            name,
        ) is Some && snapshot::permits(permitted, name),
    decreases entries.len(),
{
    if entries.len() > 0 {
        let before = listed_users(entries.drop_last(), permitted);
        law_listed_users_are_those_admitted(entries.drop_last(), permitted, name);
        lemma_name_inserted(before, entries.last().0@, name);
    }
}

fn insert_name(sorted: &mut Vec<String>, name: String)
    ensures
        text::views(final(sorted)@) == name_inserted(text::views(old(sorted)@), name@),
{
    let ghost before = text::views(sorted@);
    let mut i: usize = 0;
    assert(before.take(0) + name_inserted(before.skip(0), name@) =~= name_inserted(before, name@))
        by {
        assert(before.skip(0) =~= before);
    }
    while i < sorted.len() && is_before(sorted[i].as_str(), name.as_str())
        invariant
            i <= sorted@.len(),
            text::views(sorted@) == before,
            before.take(i as int) + name_inserted(before.skip(i as int), name@) == name_inserted(
                before,
                name@,
            ),
        decreases sorted@.len() - i,
    {
        let ghost rest = before.skip(i as int);
        assert(rest[0] == sorted@[i as int]@);
        assert(rest.drop_first() =~= before.skip(i + 1));
        assert(before.take(i as int) + (seq![rest[0]] + name_inserted(rest.drop_first(), name@))
            =~= before.take(i + 1) + name_inserted(before.skip(i + 1), name@));
        i += 1;
    }
    proof {
        if i < sorted@.len() {
            assert(before.skip(i as int)[0] == sorted@[i as int]@);
        }
    }
    sorted.insert(i, name);
    assert(text::views(sorted@) =~= before.take(i as int) + (seq![name@] + before.skip(i as int)));
}

fn list_users(users: &UserTable, permitted: &Option<Vec<String>>) -> (names: Vec<String>)
    ensures
        text::views(names@) == listed_users(users.entries@, state::users_view(*permitted)),
{
    let ghost all = users.entries@;
    let mut names: Vec<String> = Vec::new();
    let mut i: usize = 0;
    assert(all.take(0) =~= Seq::empty());
    assert(text::views(names@) =~= Seq::empty());
    while i < users.entries.len()
        invariant
            i <= users.entries@.len(),
            all == users.entries@,
            text::views(names@) == listed_users(
                all.take(i as int),
                state::users_view(*permitted),
            ),
        decreases users.entries@.len() - i,
    {
        assert(all.take(i + 1).drop_last() =~= all.take(i as int));
        let entry = &users.entries[i];
        assert(all.take(i + 1).last() == *entry);
        if snapshot::is_permitted(permitted, entry.0.as_str()) {
            insert_name(&mut names, entry.0.clone());
        }
        i += 1;
    }
    assert(all.take(i as int) =~= all);
    names
}

/// Users, one element for each. Names and levels only: a password never leaves
/// the bridge.
pub open spec fn users_xml(names: Seq<Seq<char>>) -> Seq<char>
    decreases names.len(),
{
    if names.len() == 0 {
        Seq::empty()
    } else {
        users_xml(names.drop_last()) + ("<tds:User><tt:Username>"@ + soap::escaped(names.last())
            + "</tt:Username><tt:UserLevel>Administrator</tt:UserLevel></tds:User>"@)
    }
}

fn render_users(names: &Vec<String>) -> (out: String)
    ensures
        out@ == users_xml(text::views(names@)),
{
    let ghost all = text::views(names@);
    let mut out = String::new();
    let mut i: usize = 0;
    assert(all.take(0) =~= Seq::empty());
    assert(out@ =~= users_xml(all.take(0)));
    while i < names.len()
        invariant
            i <= names@.len(),
            all == text::views(names@),
            out@ == users_xml(all.take(i as int)),
        decreases names@.len() - i,
    {
        assert(all.take(i + 1).drop_last() =~= all.take(i as int));
        assert(all.take(i + 1).last() == names@[i as int]@);
        out.append(
            enclosed(
                "<tds:User><tt:Username>",
                soap::xml_escape(names[i].as_str()).as_str(),
                "</tt:Username><tt:UserLevel>Administrator</tt:UserLevel></tds:User>",
            ).as_str(),
        );
        i += 1;
    }
    assert(all.take(i as int) =~= all);
    out
}

/// A scope, as an element.
pub open spec fn scope_xml(scope: Seq<char>) -> Seq<char> {
    "<tt:Scopes><tt:ScopeDef>Fixed</tt:ScopeDef><tt:ScopeItem>"@ + soap::escaped(scope)
        + "</tt:ScopeItem></tt:Scopes>"@
}

fn render_scope(scope: &str) -> (out: String)
    ensures
        out@ == scope_xml(scope@),
{
    enclosed(
        "<tt:Scopes><tt:ScopeDef>Fixed</tt:ScopeDef><tt:ScopeItem>",
        soap::xml_escape(scope).as_str(),
        "</tt:ScopeItem></tt:Scopes>",
    )
}

/// The scopes of a device: it is a PTZ one exactly if it has the service, and
/// its model is told if it is known.
pub open spec fn scopes_xml(f: DeviceFacts) -> Seq<char> {
    "<tds:GetScopesResponse>"@ + scope_xml("onvif://www.onvif.org/Profile/Streaming"@) + scope_xml(
        "onvif://www.onvif.org/type/video_encoder"@,
    ) + scope_xml("onvif://www.onvif.org/type/Network_Video_Transmitter"@) + scope_xml(
        "onvif://www.onvif.org/location/neolink"@,
    ) + scope_xml("onvif://www.onvif.org/hardware/neolink"@) + scope_xml(
        "onvif://www.onvif.org/name/"@ + scope_text(f.cam_name@),
    ) + text::shown_if(f.caps.has_ptz(), scope_xml("onvif://www.onvif.org/type/ptz"@)) + (
    match f.version {
        Some(v) => match v.model {
            Some(m) => scope_xml("onvif://www.onvif.org/hardware/"@ + scope_text(m@)),
            None => Seq::empty(),
        },
        None => Seq::empty(),
    }) + "</tds:GetScopesResponse>"@
}

fn render_scopes(f: &DeviceFacts) -> (out: String)
    ensures
        out@ == scopes_xml(*f),
{
    let mut hardware = String::new();
    match f.version {
        Some(v) => {
            match &v.model {
                Some(m) => {
                    hardware = render_scope(
                        text::joined(
                            "onvif://www.onvif.org/hardware/",
                            scope_safe(m.as_str()).as_str(),
                        ).as_str(),
                    );
                },
                None => {},
            }
        },
        None => {},
    }
    let mut out = "<tds:GetScopesResponse>".to_owned();
    out.append(render_scope("onvif://www.onvif.org/Profile/Streaming").as_str());
    out.append(render_scope("onvif://www.onvif.org/type/video_encoder").as_str());
    out.append(render_scope("onvif://www.onvif.org/type/Network_Video_Transmitter").as_str());
    out.append(render_scope("onvif://www.onvif.org/location/neolink").as_str());
    out.append(render_scope("onvif://www.onvif.org/hardware/neolink").as_str());
    out.append(
        render_scope(
            text::joined(
                "onvif://www.onvif.org/name/",
                scope_safe(f.cam_name).as_str(),
            ).as_str(),
        ).as_str(),
    );
    let ptz = render_scope("onvif://www.onvif.org/type/ptz");
    out.append(text::when(f.caps.ptz(), ptz.as_str()));
    out.append(hardware.as_str());
    out.append("</tds:GetScopesResponse>");
    out
}

/// What answering a request takes to know.
#[derive(Debug)]
pub struct DeviceFacts<'a> {
    pub cam_name: &'a str,
    pub uuid: &'a DeviceUuid,
    pub permitted_users: &'a Option<Vec<String>>,
    pub users: &'a UserTable,
    pub caps: CameraCapabilities,
    /// What the camera says about itself, if it answered.
    pub version: Option<&'a Version>,
    /// The camera's clock, if it told it.
    pub clock: Option<CameraClock>,
    pub now: Timestamp,
    /// Where this bridge is reached, or why that is not known.
    pub authority: Result<&'a str, &'a str>,
    /// The host this bridge is reached at, or why that is not known.
    pub host: Result<&'a str, &'a str>,
}

/// What to do and, if it succeeds, what to answer.
#[derive(Debug)]
pub struct DeviceAnswer {
    pub command: Option<DeviceCommand>,
    pub xml: String,
}

/// What to do and to answer, as sequences.
#[verifier::ext_equal]
pub struct DeviceAnswerView {
    pub command: Option<DeviceCommand>,
    pub xml: Seq<char>,
}

/// What to do and to answer, or a fault, as sequences.
pub open spec fn answer_view(answer: Result<DeviceAnswer, FaultBody>) -> Result<
    DeviceAnswerView,
    FaultView,
> {
    match answer {
        Ok(a) => Ok(DeviceAnswerView { command: a.command, xml: a.xml@ }),
        Err(f) => Err(f@),
    }
}

/// An answer, after a command.
pub open spec fn after(command: Option<DeviceCommand>, body: Seq<char>) -> Result<
    DeviceAnswerView,
    FaultView,
> {
    Ok(DeviceAnswerView { command, xml: soap::envelope(body, soap::NS_ALL@) })
}

fn answer_with(command: Option<DeviceCommand>, body: &str) -> (answer: Result<
    DeviceAnswer,
    FaultBody,
>)
    ensures
        answer_view(answer) == after(command, body@),
{
    Ok(DeviceAnswer { command, xml: soap::wrap_envelope(body, soap::NS_ALL) })
}

fn refuse(code: FaultCode, reason: &str) -> (answer: Result<DeviceAnswer, FaultBody>)
    ensures
        answer_view(answer) == Err::<DeviceAnswerView, FaultView>(fault(code, reason@)),
{
    Err(FaultBody { code, reason: reason.to_owned() })
}

/// How requests that only describe the device are answered.
pub open spec fn description(f: DeviceFacts, action: Seq<char>) -> Option<Seq<char>> {
    if action == "GetDeviceInformation"@ {
        Some(information_of(f.version))
    } else if action == "GetSystemDateAndTime"@ {
        Some(date_and_time(f.clock, f.now))
    } else if action == "GetServiceCapabilities"@ {
        Some("<tds:GetServiceCapabilitiesResponse><tds:Capabilities><tds:Network IPFilter=\"false\" ZeroConfiguration=\"false\" IPVersion6=\"false\" DynDNS=\"false\"/><tds:Security TLS1.0=\"false\" TLS1.1=\"false\" TLS1.2=\"false\" OnboardKeyGeneration=\"false\" AccessPolicyConfig=\"false\" X.509Token=\"false\" SAMLToken=\"false\" KerberosToken=\"false\" UsernameToken=\"true\" HttpDigest=\"false\" RELToken=\"false\"/><tds:System DiscoveryResolve=\"false\" DiscoveryBye=\"true\" RemoteDiscovery=\"false\" SystemBackup=\"false\" SystemLogging=\"false\" FirmwareUpgrade=\"false\"/></tds:Capabilities></tds:GetServiceCapabilitiesResponse>"@)
    } else if action == "GetHostname"@ {
        Some("<tds:GetHostnameResponse><tds:HostnameInformation><tt:FromDHCP>false</tt:FromDHCP><tt:Name>"@ + soap::escaped(f.cam_name@) + "</tt:Name></tds:HostnameInformation></tds:GetHostnameResponse>"@)
    } else if action == "GetScopes"@ {
        Some(scopes_xml(f))
    } else if action == "GetRelayOutputs"@ {
        Some("<tds:GetRelayOutputsResponse>"@ + relays_xml(offered_relays(f.caps)) + "</tds:GetRelayOutputsResponse>"@)
    } else if action == "GetRelayOutputOptions"@ {
        Some("<tds:GetRelayOutputOptionsResponse>"@ + relays_options_xml(offered_relays(f.caps)) + "</tds:GetRelayOutputOptionsResponse>"@)
    } else if action == "GetUsers"@ {
        Some("<tds:GetUsersResponse>"@ + users_xml(listed_users(f.users.entries@, state::users_view(*f.permitted_users))) + "</tds:GetUsersResponse>"@)
    } else if action == "GetEndpointReference"@ {
        Some("<tds:GetEndpointReferenceResponse><tds:GUID>urn:uuid:"@ + state::uuid_text(f.uuid.bytes@) + "</tds:GUID></tds:GetEndpointReferenceResponse>"@)
    } else if action == "GetWsdlUrl"@ {
        Some("<tds:GetWsdlUrlResponse><tds:WsdlUrl>http://www.onvif.org/onvif/ver10/device/wsdl/devicemgmt.wsdl</tds:WsdlUrl></tds:GetWsdlUrlResponse>"@)
    } else if action == "GetDot11Capabilities"@ {
        Some("<tds:GetDot11CapabilitiesResponse></tds:GetDot11CapabilitiesResponse>"@)
    } else {
        None
    }
}

fn describe(f: &DeviceFacts, action: &str) -> (body: Option<String>)
    requires
        time::clock_time(f.now),
        f.clock matches Some(c) ==> c.shows(),
    ensures
        text::opt_view(body) == description(*f, action@),
{
    if text::same(action, "GetDeviceInformation") {
        Some(render_device_information(&read_device_info(f.version)))
    } else if text::same(action, "GetSystemDateAndTime") {
        Some(render_system_date_and_time(f.clock, f.now))
    } else if text::same(action, "GetServiceCapabilities") {
        Some("<tds:GetServiceCapabilitiesResponse><tds:Capabilities><tds:Network IPFilter=\"false\" ZeroConfiguration=\"false\" IPVersion6=\"false\" DynDNS=\"false\"/><tds:Security TLS1.0=\"false\" TLS1.1=\"false\" TLS1.2=\"false\" OnboardKeyGeneration=\"false\" AccessPolicyConfig=\"false\" X.509Token=\"false\" SAMLToken=\"false\" KerberosToken=\"false\" UsernameToken=\"true\" HttpDigest=\"false\" RELToken=\"false\"/><tds:System DiscoveryResolve=\"false\" DiscoveryBye=\"true\" RemoteDiscovery=\"false\" SystemBackup=\"false\" SystemLogging=\"false\" FirmwareUpgrade=\"false\"/></tds:Capabilities></tds:GetServiceCapabilitiesResponse>".to_owned())
    } else if text::same(action, "GetHostname") {
        Some(enclosed("<tds:GetHostnameResponse><tds:HostnameInformation><tt:FromDHCP>false</tt:FromDHCP><tt:Name>", soap::xml_escape(f.cam_name).as_str(), "</tt:Name></tds:HostnameInformation></tds:GetHostnameResponse>"))
    } else if text::same(action, "GetScopes") {
        Some(render_scopes(f))
    } else if text::same(action, "GetRelayOutputs") {
        Some(enclosed("<tds:GetRelayOutputsResponse>", render_relays(&relay_outputs(&f.caps)).as_str(), "</tds:GetRelayOutputsResponse>"))
    } else if text::same(action, "GetRelayOutputOptions") {
        Some(enclosed("<tds:GetRelayOutputOptionsResponse>", render_relays_options(&relay_outputs(&f.caps)).as_str(), "</tds:GetRelayOutputOptionsResponse>"))
    } else if text::same(action, "GetUsers") {
        Some(enclosed("<tds:GetUsersResponse>", render_users(&list_users(f.users, f.permitted_users)).as_str(), "</tds:GetUsersResponse>"))
    } else if text::same(action, "GetEndpointReference") {
        Some(enclosed("<tds:GetEndpointReferenceResponse><tds:GUID>urn:uuid:", f.uuid.text().as_str(), "</tds:GUID></tds:GetEndpointReferenceResponse>"))
    } else if text::same(action, "GetWsdlUrl") {
        Some("<tds:GetWsdlUrlResponse><tds:WsdlUrl>http://www.onvif.org/onvif/ver10/device/wsdl/devicemgmt.wsdl</tds:WsdlUrl></tds:GetWsdlUrlResponse>".to_owned())
    } else if text::same(action, "GetDot11Capabilities") {
        Some("<tds:GetDot11CapabilitiesResponse></tds:GetDot11CapabilitiesResponse>".to_owned())
    } else {
        None
    }
}

/// The state that a request asks a relay for.
pub open spec fn asked_state(state: Option<Seq<char>>) -> Result<bool, FaultView> {
    match state {
        None => Err(fault(FaultCode::InvalidArgs, "Missing LogicalState"@)),
        Some(logical) => if text::trimmed(logical) == "active"@ {
            Ok(true)
        } else if text::trimmed(logical) == "inactive"@ {
            Ok(false)
        } else {
            Err(
                fault(
                    FaultCode::InvalidArgs,
                    "LogicalState must be 'active' or 'inactive', got '"@ + text::trimmed(logical)
                        + "'"@,
                ),
            )
        },
    }
}

/// The tokens of relays.
pub open spec fn relay_tokens(list: Seq<RelayView>) -> Seq<Seq<char>> {
    list.map_values(|r: RelayView| r.token)
}

/// How a `SetRelayOutputState` with this token and state is answered.
pub open spec fn relay_answer(
    f: DeviceFacts,
    token: Option<Seq<char>>,
    state: Option<Seq<char>>,
) -> Result<DeviceAnswerView, FaultView> {
    match token {
        None => Err(fault(FaultCode::InvalidArgs, "Missing RelayOutputToken"@)),
        Some(token) => match asked_state(state) {
            Err(e) => Err(e),
            Ok(active) => {
                let relays = offered_relays(f.caps);
                let at = text::place(relay_tokens(relays), token);
                if at < relays.len() {
                    after(
                        relay_command(relays[at].kind, active),
                        "<tds:SetRelayOutputStateResponse/>"@,
                    )
                } else {
                    Err(
                        fault(
                            FaultCode::InvalidArgs,
                            "Unknown relay output token '"@ + token + "'"@,
                        ),
                    )
                }
            },
        },
    }
}

/// Read the state that a request sets a relay to.
pub fn state_asked(state: Option<String>) -> (result: Result<bool, FaultBody>)
    ensures
        (match result {
            Ok(active) => Ok(active),
            Err(f) => Err(f@),
        }) == asked_state(text::opt_view(state)),
{
    let logical = match state {
        Some(logical) => text::trim(logical.as_str()),
        None => {
            return Err(
                FaultBody {
                    code: FaultCode::InvalidArgs,
                    reason: "Missing LogicalState".to_owned(),
                },
            );
        },
    };
    if text::same(logical.as_str(), "active") {
        Ok(true)
    } else if text::same(logical.as_str(), "inactive") {
        Ok(false)
    } else {
        Err(
            quoting_fault(
                FaultCode::InvalidArgs,
                "LogicalState must be 'active' or 'inactive', got '",
                logical.as_str(),
                "'",
            ),
        )
    }
}

fn find_relay(list: &Vec<RelayOutput>, token: &str) -> (at: usize)
    ensures
        at == text::place(relay_tokens(relays_view(list@)), token@),
        at <= list@.len(),
{
    let ghost tokens = relay_tokens(relays_view(list@));
    let mut at: usize = 0;
    while at < list.len()
        invariant_except_break
            forall|j: int| 0 <= j < at ==> #[trigger] tokens[j] != token@,
        invariant
            at <= list@.len(),
            tokens == relay_tokens(relays_view(list@)),
        ensures
            at <= list@.len(),
            at < list@.len() ==> tokens[at as int] == token@,
            forall|j: int| 0 <= j < at ==> #[trigger] tokens[j] != token@,
        decreases list@.len() - at,
    {
        assert(tokens[at as int] == list@[at as int].token@);
        if text::same(list[at].token, token) {
            break;
        }
        at += 1;
    }
    proof {
        text::lemma_place_is(tokens, token@, at as int);
    }
    at
}

/// Answer a `SetRelayOutputState` with this token and state.
pub fn set_relay(f: &DeviceFacts, token: Option<String>, state: Option<String>) -> (answer: Result<
    DeviceAnswer,
    FaultBody,
>)
    ensures
        answer_view(answer) == relay_answer(*f, text::opt_view(token), text::opt_view(state)),
{
    let token = match token {
        Some(token) => token,
        None => {
            return refuse(FaultCode::InvalidArgs, "Missing RelayOutputToken");
        },
    };
    let active: bool = match state_asked(state) {
        Ok(active) => active,
        Err(fault) => {
            return Err(fault);
        },
    };
    let relays = relay_outputs(&f.caps);
    let at: usize = find_relay(&relays, token.as_str());
    if at < relays.len() {
        assert(relays_view(relays@)[at as int] == relays@[at as int]@);
        answer_with(
            drive_relay(relays[at].kind, active),
            "<tds:SetRelayOutputStateResponse/>",
        )
    } else {
        Err(
            quoting_fault(
                FaultCode::InvalidArgs,
                "Unknown relay output token '",
                token.as_str(),
                "'",
            ),
        )
    }
}

/// How a `SetSystemDateAndTime` with these fields is answered.
pub open spec fn clock_answer(fields: ClockFieldsView) -> Result<DeviceAnswerView, FaultView> {
    match asked_civil(fields) {
        Some(c) if time::civil_exists(c) => after(
            Some(DeviceCommand::SetClock(time::civil_secs(c) as i64)),
            "<tds:SetSystemDateAndTimeResponse/>"@,
        ),
        _ => Err(
            fault(
                FaultCode::InvalidArgs,
                "SetSystemDateAndTime needs a UTCDateTime (DateTimeType 'Manual')"@,
            ),
        ),
    }
}

/// How a request is answered.
pub open spec fn device_answer(f: DeviceFacts, action: Seq<char>, body_xml: Seq<char>) -> Result<
    DeviceAnswerView,
    FaultView,
> {
    match description(f, action) {
        Some(body) => after(None, body),
        None => if action == "SetSystemDateAndTime"@ {
            clock_answer(clock_fields(body_xml))
        } else if action == "SystemReboot"@ {
            after(
                Some(DeviceCommand::Reboot),
                "<tds:SystemRebootResponse><tds:Message>Rebooting</tds:Message></tds:SystemRebootResponse>"@,
            )
        } else if action == "GetCapabilities"@ || action == "GetServices"@ {
            match f.authority {
                Err(e) => Err(
                    fault(FaultCode::Other, "Failed to determine advertise host: "@ + e@),
                ),
                Ok(authority) => after(
                    None,
                    if action == "GetCapabilities"@ {
                        capabilities_xml(authority@, f.cam_name@, f.caps)
                    } else {
                        services_xml(authority@, f.cam_name@, f.caps)
                    },
                ),
            }
        } else if action == "SetRelayOutputState"@ {
            relay_answer(
                f,
                xml::first_text(body_xml, "RelayOutputToken"@),
                xml::first_text(body_xml, "LogicalState"@),
            )
        } else if action == "GetNetworkInterfaces"@ {
            match f.host {
                Err(e) => Err(fault(FaultCode::Other, e@)),
                Ok(host) => after(None, network_interfaces(f.uuid.bytes@, host@)),
            }
        } else {
            Err(
                fault(
                    FaultCode::ActionNotSupported,
                    "Device action '"@ + action + "' not supported"@,
                ),
            )
        },
    }
}

/// Answer a request: what the camera has to do, and what to say once it has.
pub fn dispatch(f: &DeviceFacts, action: &str, body_xml: &str) -> (answer: Result<
    DeviceAnswer,
    FaultBody,
>)
    requires
        time::clock_time(f.now),
        f.clock matches Some(c) ==> c.shows(),
    ensures
        answer_view(answer) == device_answer(*f, action@, body_xml@),
{
    match describe(f, action) {
        Some(body) => {
            return answer_with(None, body.as_str());
        },
        None => {},
    }
    if text::same(action, "SetSystemDateAndTime") {
        return match parse_set_system_date_and_time(body_xml) {
            Some(utc) => answer_with(
                Some(DeviceCommand::SetClock(utc)),
                "<tds:SetSystemDateAndTimeResponse/>",
            ),
            None => refuse(
                FaultCode::InvalidArgs,
                "SetSystemDateAndTime needs a UTCDateTime (DateTimeType 'Manual')",
            ),
        };
    }
    if text::same(action, "SystemReboot") {
        return answer_with(
            Some(DeviceCommand::Reboot),
            "<tds:SystemRebootResponse><tds:Message>Rebooting</tds:Message></tds:SystemRebootResponse>",
        );
    }
    let capabilities: bool = text::same(action, "GetCapabilities");
    if capabilities || text::same(action, "GetServices") {
        return match f.authority {
            Err(e) => Err(
                other_fault(text::joined("Failed to determine advertise host: ", e)),
            ),
            Ok(authority) => {
                if capabilities {
                    answer_with(
                        None,
                        render_capabilities(authority, f.cam_name, &f.caps).as_str(),
                    )
                } else {
                    answer_with(None, render_services(authority, f.cam_name, &f.caps).as_str())
                }
            },
        };
    }
    if text::same(action, "SetRelayOutputState") {
        return set_relay(
            f,
            xml::read_first_text_element(body_xml, "RelayOutputToken"),
            xml::read_first_text_element(body_xml, "LogicalState"),
        );
    }
    if text::same(action, "GetNetworkInterfaces") {
        return match f.host {
            Err(e) => Err(other_fault(e.to_owned())),
            Ok(host) => answer_with(None, render_network_interfaces(f.uuid, host).as_str()),
        };
    }
    Err(
        quoting_fault(
            FaultCode::ActionNotSupported,
            "Device action '",
            action,
            "' not supported",
        ),
    )
}

/// What has to be asked of a camera, and found out about the bridge, to answer a
/// request.
#[derive(Clone, Copy, PartialEq, Eq, Structural, Debug)]
pub struct DeviceNeeds {
    pub version: bool,
    pub clock: bool,
    pub capabilities: bool,
    pub authority: bool,
    pub host: bool,
}

/// What answering a request needs.
pub open spec fn needed_for(action: Seq<char>) -> DeviceNeeds {
    DeviceNeeds {
        version: action == "GetDeviceInformation"@ || action == "GetScopes"@,
        clock: action == "GetSystemDateAndTime"@,
        capabilities: action == "GetCapabilities"@ || action == "GetServices"@ || action
            == "GetScopes"@ || action == "GetRelayOutputs"@ || action == "GetRelayOutputOptions"@
            || action == "SetRelayOutputState"@,
        authority: action == "GetCapabilities"@ || action == "GetServices"@,
        host: action == "GetNetworkInterfaces"@,
    }
}

/// What answering a request needs.
pub fn needs(action: &str) -> (n: DeviceNeeds)
    ensures
        n == needed_for(action@),
{
    let services: bool = text::same(action, "GetCapabilities") || text::same(
        action,
        "GetServices",
    );
    let scopes: bool = text::same(action, "GetScopes");
    DeviceNeeds {
        version: text::same(action, "GetDeviceInformation") || scopes,
        clock: text::same(action, "GetSystemDateAndTime"),
        capabilities: services || scopes || text::same(action, "GetRelayOutputs") || text::same(
            action,
            "GetRelayOutputOptions",
        ) || text::same(action, "SetRelayOutputState"),
        authority: services,
        host: text::same(action, "GetNetworkInterfaces"),
    }
}

/// What is not needed does not matter: requests that are open to all generate no
/// more camera traffic than they have to.
pub proof fn law_only_needs_matter(
    f: DeviceFacts,
    g: DeviceFacts,
    action: Seq<char>,
    body_xml: Seq<char>,
)
    requires
        f.cam_name == g.cam_name,
        f.uuid == g.uuid,
        f.permitted_users == g.permitted_users,
        f.users == g.users,
        f.now == g.now,
        needed_for(action).version ==> f.version == g.version,
        needed_for(action).clock ==> f.clock == g.clock,
        needed_for(action).capabilities ==> f.caps == g.caps,
        needed_for(action).authority ==> f.authority == g.authority,
        needed_for(action).host ==> f.host == g.host,
    ensures
        device_answer(f, action, body_xml) == device_answer(g, action, body_xml),
{
}

/// A camera is only told to drive a relay that it offers.
pub proof fn law_only_offered_relays_are_driven(
    f: DeviceFacts,
    action: Seq<char>,
    body_xml: Seq<char>,
)
    ensures
        device_answer(f, action, body_xml) matches Ok(a) ==> match a.command {
            Some(DeviceCommand::Floodlight { on, seconds }) => f.caps.floodlight && seconds
                == FLOODLIGHT_SECONDS,
            Some(DeviceCommand::SetIrLed(_)) => f.caps.led_ctrl,
            Some(DeviceCommand::SetStatusLed(_)) => f.caps.led_ctrl,
            _ => true,
        },
{
    if action == "SetRelayOutputState"@ {
        match xml::first_text(body_xml, "RelayOutputToken"@) {
            Some(token) => {
                text::lemma_place(relay_tokens(offered_relays(f.caps)), token);
            },
            None => {},
        }
    }
}

proof fn lemma_actions()
    ensures
        "GetDeviceInformation"@.len() == 20,
        "GetSystemDateAndTime"@.len() == 20,
        "GetServiceCapabilities"@.len() == 22,
        "GetHostname"@.len() == 11,
        "GetScopes"@.len() == 9,
        "GetRelayOutputs"@.len() == 15,
        "GetRelayOutputOptions"@.len() == 21,
        "GetUsers"@.len() == 8,
        "GetEndpointReference"@.len() == 20,
        "GetWsdlUrl"@.len() == 10,
        "GetDot11Capabilities"@.len() == 20,
        "SetSystemDateAndTime"@.len() == 20,
        "SystemReboot"@.len() == 12,
        "GetCapabilities"@.len() == 15,
        "GetServices"@.len() == 11,
        "SetRelayOutputState"@.len() == 19,
        "GetNetworkInterfaces"@.len() == 20,
        "GetDeviceInformation"@ != "GetSystemDateAndTime"@,
        "GetDeviceInformation"@ != "GetEndpointReference"@,
        "GetDeviceInformation"@ != "GetDot11Capabilities"@,
        "GetDeviceInformation"@ != "SetSystemDateAndTime"@,
        "GetDeviceInformation"@ != "GetNetworkInterfaces"@,
        "GetSystemDateAndTime"@ != "GetEndpointReference"@,
        "GetSystemDateAndTime"@ != "GetDot11Capabilities"@,
        "GetSystemDateAndTime"@ != "SetSystemDateAndTime"@,
        "GetSystemDateAndTime"@ != "GetNetworkInterfaces"@,
        "GetHostname"@ != "GetServices"@,
        "GetRelayOutputs"@ != "GetCapabilities"@,
        "GetEndpointReference"@ != "GetDot11Capabilities"@,
        "GetEndpointReference"@ != "SetSystemDateAndTime"@,
        "GetEndpointReference"@ != "GetNetworkInterfaces"@,
        "GetDot11Capabilities"@ != "SetSystemDateAndTime"@,
        "GetDot11Capabilities"@ != "GetNetworkInterfaces"@,
        "SetSystemDateAndTime"@ != "GetNetworkInterfaces"@,
{
    reveal_strlit("GetDeviceInformation");
    reveal_strlit("GetSystemDateAndTime");
    reveal_strlit("GetServiceCapabilities");
    reveal_strlit("GetHostname");
    reveal_strlit("GetScopes");
    reveal_strlit("GetRelayOutputs");
    reveal_strlit("GetRelayOutputOptions");
    reveal_strlit("GetUsers");
    reveal_strlit("GetEndpointReference");
    reveal_strlit("GetWsdlUrl");
    reveal_strlit("GetDot11Capabilities");
    reveal_strlit("SetSystemDateAndTime");
    reveal_strlit("SystemReboot");
    reveal_strlit("GetCapabilities");
    reveal_strlit("GetServices");
    reveal_strlit("SetRelayOutputState");
    reveal_strlit("GetNetworkInterfaces");
    assert("GetDeviceInformation"@[3] != "GetSystemDateAndTime"@[3]);
    assert("GetDeviceInformation"@[3] != "GetEndpointReference"@[3]);
    assert("GetDeviceInformation"@[4] != "GetDot11Capabilities"@[4]);
    assert("GetDeviceInformation"@[0] != "SetSystemDateAndTime"@[0]);
    assert("GetDeviceInformation"@[3] != "GetNetworkInterfaces"@[3]);
    assert("GetSystemDateAndTime"@[3] != "GetEndpointReference"@[3]);
    assert("GetSystemDateAndTime"@[3] != "GetDot11Capabilities"@[3]);
    assert("GetSystemDateAndTime"@[0] != "SetSystemDateAndTime"@[0]);
    assert("GetSystemDateAndTime"@[3] != "GetNetworkInterfaces"@[3]);
    assert("GetHostname"@[3] != "GetServices"@[3]);
    assert("GetRelayOutputs"@[3] != "GetCapabilities"@[3]);
    assert("GetEndpointReference"@[3] != "GetDot11Capabilities"@[3]);
    assert("GetEndpointReference"@[0] != "SetSystemDateAndTime"@[0]);
    assert("GetEndpointReference"@[3] != "GetNetworkInterfaces"@[3]);
    assert("GetDot11Capabilities"@[0] != "SetSystemDateAndTime"@[0]);
    assert("GetDot11Capabilities"@[3] != "GetNetworkInterfaces"@[3]);
    assert("SetSystemDateAndTime"@[0] != "GetNetworkInterfaces"@[0]);
}

proof fn lemma_relay_tokens()
    ensures
        "relay_floodlight"@.len() == 16,
        "relay_siren"@.len() == 11,
        "relay_ir_illuminator"@.len() == 20,
        "relay_status_led"@.len() == 16,
        "relay_floodlight"@ != "relay_status_led"@,
{
    reveal_strlit("relay_floodlight");
    reveal_strlit("relay_siren");
    reveal_strlit("relay_ir_illuminator");
    reveal_strlit("relay_status_led");
    assert("relay_floodlight"@[6] != "relay_status_led"@[6]);
}

/// What is offered as a relay, by its token, and how it behaves: the siren sounds for
/// five seconds and falls silent by itself; the lights stay as they are set.
pub proof fn law_relays_are_known_by_their_tokens(r: RelayView, element: Seq<char>)
    ensures
        relay_of(RelayKind::Floodlight) == (RelayView {
            token: "relay_floodlight"@,
            kind: RelayKind::Floodlight,
            mode: "Bistable"@,
            delay: "PT0S"@,
        }),
        relay_of(RelayKind::Siren) == (RelayView {
            token: "relay_siren"@,
            kind: RelayKind::Siren,
            mode: "Monostable"@,
            delay: "PT5S"@,
        }),
        relay_of(RelayKind::IrLed) == (RelayView {
            token: "relay_ir_illuminator"@,
            kind: RelayKind::IrLed,
            mode: "Bistable"@,
            delay: "PT0S"@,
        }),
        relay_of(RelayKind::StatusLed) == (RelayView {
            token: "relay_status_led"@,
            kind: RelayKind::StatusLed,
            mode: "Bistable"@,
            delay: "PT0S"@,
        }),
        text::has(relay_xml(r, element), " token=\""@ + r.token + "\""@),
        text::has(relay_xml(r, element), "<tt:Mode>"@ + r.mode + "</tt:Mode>"@),
        text::has(relay_xml(r, element), "<tt:DelayTime>"@ + r.delay + "</tt:DelayTime>"@),
        text::has(relay_options_xml(r), " token=\""@ + r.token + "\""@),
        text::has(relay_options_xml(r), "<tds:Mode>"@ + r.mode + "</tds:Mode>"@),
        text::has(relay_options_xml(r), "<tds:DelayTimes>"@ + r.delay + "</tds:DelayTimes>"@),
{
    {
        reveal_strlit("\"");
        reveal_strlit(" token=\"");
        reveal_strlit("\"><tt:Properties><tt:Mode>");
        assert(" token=\""@.skip(0) =~= " token=\""@);
        assert("\"><tt:Properties><tt:Mode>"@.take(1) =~= "\""@);
        let head = "<"@ + element;
        let tail = r.mode + "</tt:Mode><tt:DelayTime>"@ + r.delay + "</tt:DelayTime><tt:IdleState>open</tt:IdleState></tt:Properties></"@ + element + ">"@;
        let value = r.token;
        assert(relay_xml(r, element) =~= head + " token=\""@ + value + "\"><tt:Properties><tt:Mode>"@ + tail);
        text::lemma_has_tagged(head, " token=\""@, value, "\"><tt:Properties><tt:Mode>"@, tail, " token=\""@, "\""@);
    }
    {
        reveal_strlit("</tt:Mode>");
        reveal_strlit("</tt:Mode><tt:DelayTime>");
        reveal_strlit("\"><tt:Properties><tt:Mode>");
        reveal_strlit("<tt:Mode>");
        assert("\"><tt:Properties><tt:Mode>"@.skip(17) =~= "<tt:Mode>"@);
        assert("</tt:Mode><tt:DelayTime>"@.take(10) =~= "</tt:Mode>"@);
        let head = "<"@ + element + " token=\""@ + r.token;
        let tail = r.delay + "</tt:DelayTime><tt:IdleState>open</tt:IdleState></tt:Properties></"@ + element + ">"@;
        let value = r.mode;
        assert(relay_xml(r, element) =~= head + "\"><tt:Properties><tt:Mode>"@ + value + "</tt:Mode><tt:DelayTime>"@ + tail);
        text::lemma_has_tagged(head, "\"><tt:Properties><tt:Mode>"@, value, "</tt:Mode><tt:DelayTime>"@, tail, "<tt:Mode>"@, "</tt:Mode>"@);
    }
    {
        reveal_strlit("</tt:Mode><tt:DelayTime>");
        reveal_strlit("</tt:DelayTime>");
        reveal_strlit("</tt:DelayTime><tt:IdleState>open</tt:IdleState></tt:Properties></");
        reveal_strlit("<tt:DelayTime>");
        assert("</tt:Mode><tt:DelayTime>"@.skip(10) =~= "<tt:DelayTime>"@);
        assert("</tt:DelayTime><tt:IdleState>open</tt:IdleState></tt:Properties></"@.take(15) =~= "</tt:DelayTime>"@);
        let head = "<"@ + element + " token=\""@ + r.token + "\"><tt:Properties><tt:Mode>"@ + r.mode;
        let tail = element + ">"@;
        let value = r.delay;
        assert(relay_xml(r, element) =~= head + "</tt:Mode><tt:DelayTime>"@ + value + "</tt:DelayTime><tt:IdleState>open</tt:IdleState></tt:Properties></"@ + tail);
        text::lemma_has_tagged(head, "</tt:Mode><tt:DelayTime>"@, value, "</tt:DelayTime><tt:IdleState>open</tt:IdleState></tt:Properties></"@, tail, "<tt:DelayTime>"@, "</tt:DelayTime>"@);
    }
    {
        reveal_strlit(" token=\"");
        reveal_strlit("\"");
        reveal_strlit("<tds:RelayOutputOptions token=\"");
        reveal_strlit("\"><tds:Mode>");
        assert("<tds:RelayOutputOptions token=\""@.skip(23) =~= " token=\""@);
        assert("\"><tds:Mode>"@.take(1) =~= "\""@);
        let head = Seq::<char>::empty();
        let tail = r.mode + "</tds:Mode><tds:DelayTimes>"@ + r.delay + "</tds:DelayTimes><tds:Discrete>false</tds:Discrete></tds:RelayOutputOptions>"@;
        let value = r.token;
        assert(relay_options_xml(r) =~= head + "<tds:RelayOutputOptions token=\""@ + value + "\"><tds:Mode>"@ + tail);
        text::lemma_has_tagged(head, "<tds:RelayOutputOptions token=\""@, value, "\"><tds:Mode>"@, tail, " token=\""@, "\""@);
    }
    {
        reveal_strlit("</tds:Mode>");
        reveal_strlit("<tds:Mode>");
        reveal_strlit("</tds:Mode><tds:DelayTimes>");
        reveal_strlit("\"><tds:Mode>");
        assert("\"><tds:Mode>"@.skip(2) =~= "<tds:Mode>"@);
        assert("</tds:Mode><tds:DelayTimes>"@.take(11) =~= "</tds:Mode>"@);
        let head = "<tds:RelayOutputOptions token=\""@ + r.token;
        let tail = r.delay + "</tds:DelayTimes><tds:Discrete>false</tds:Discrete></tds:RelayOutputOptions>"@;
        let value = r.mode;
        assert(relay_options_xml(r) =~= head + "\"><tds:Mode>"@ + value + "</tds:Mode><tds:DelayTimes>"@ + tail);
        text::lemma_has_tagged(head, "\"><tds:Mode>"@, value, "</tds:Mode><tds:DelayTimes>"@, tail, "<tds:Mode>"@, "</tds:Mode>"@);
    }
    {
        reveal_strlit("<tds:DelayTimes>");
        reveal_strlit("</tds:Mode><tds:DelayTimes>");
        reveal_strlit("</tds:DelayTimes><tds:Discrete>false</tds:Discrete></tds:RelayOutputOptions>");
        reveal_strlit("</tds:DelayTimes>");
        assert("</tds:Mode><tds:DelayTimes>"@.skip(11) =~= "<tds:DelayTimes>"@);
        assert("</tds:DelayTimes><tds:Discrete>false</tds:Discrete></tds:RelayOutputOptions>"@.take(17) =~= "</tds:DelayTimes>"@);
        let head = "<tds:RelayOutputOptions token=\""@ + r.token + "\"><tds:Mode>"@ + r.mode;
        let tail = Seq::<char>::empty();
        let value = r.delay;
        assert(relay_options_xml(r) =~= head + "</tds:Mode><tds:DelayTimes>"@ + value + "</tds:DelayTimes><tds:Discrete>false</tds:Discrete></tds:RelayOutputOptions>"@ + tail);
        text::lemma_has_tagged(head, "</tds:Mode><tds:DelayTimes>"@, value, "</tds:DelayTimes><tds:Discrete>false</tds:Discrete></tds:RelayOutputOptions>"@, tail, "<tds:DelayTimes>"@, "</tds:DelayTimes>"@);
    }
}

/// Every camera has a siren; a floodlight, an infrared lamp and a status light are
/// offered by those that have them.
pub proof fn law_offered_relays_follow_the_camera(caps: CameraCapabilities, kind: RelayKind)
    ensures
        offered_relays(caps).contains(relay_of(kind)) <==> (match kind {
            RelayKind::Siren => true,
            RelayKind::Floodlight => caps.floodlight,
            RelayKind::IrLed => caps.led_ctrl,
            RelayKind::StatusLed => caps.led_ctrl,
        }),
        offered_relays(caps).len() == 1 + (if caps.floodlight {
            1int
        } else {
            0
        }) + (if caps.led_ctrl {
            2int
        } else {
            0
        }),
{
    let all = offered_relays(caps);
    let n = if caps.floodlight {
        1int
    } else {
        0
    };
    if caps.floodlight {
        assert(all[0] == relay_of(RelayKind::Floodlight));
    }
    assert(all[n] == relay_of(RelayKind::Siren));
    if caps.led_ctrl {
        assert(all[n + 1] == relay_of(RelayKind::IrLed));
        assert(all[n + 2] == relay_of(RelayKind::StatusLed));
    }
    if all.contains(relay_of(kind)) {
        let k = choose|k: int| 0 <= k < all.len() && all[k] == relay_of(kind);
        assert(all[k].kind == kind);
    }
}

proof fn lemma_relay_place(caps: CameraCapabilities, kind: RelayKind)
    requires
        kind == RelayKind::Siren || (kind == RelayKind::Floodlight && caps.floodlight) || ((kind
            == RelayKind::IrLed || kind == RelayKind::StatusLed) && caps.led_ctrl),
    ensures
        ({
            let relays = offered_relays(caps);
            let at = text::place(relay_tokens(relays), relay_of(kind).token);
            0 <= at < relays.len() && relays[at].kind == kind
        }),
{
    lemma_relay_tokens();
    let relays = offered_relays(caps);
    let tokens = relay_tokens(relays);
    let n = if caps.floodlight {
        1int
    } else {
        0
    };
    let at = match kind {
        RelayKind::Floodlight => 0,
        RelayKind::Siren => n,
        RelayKind::IrLed => n + 1,
        RelayKind::StatusLed => n + 2,
    };
    assert(relays[at] == relay_of(kind));
    assert(tokens[at] == relay_of(kind).token);
    assert forall|j: int| 0 <= j < at implies #[trigger] tokens[j] != relay_of(kind).token by {
        assert(tokens[j] == relays[j].token);
    }
    text::lemma_place_is(tokens, relay_of(kind).token, at);
}

/// A relay that is set to `active` or `inactive` drives what its token names: the
/// floodlight goes on for 180 seconds, or off; the siren sounds, or nothing happens,
/// since it stops by itself; the infrared lamp goes to automatic, or off; the status
/// light goes on, or off.
pub proof fn law_relays_drive_what_they_are(f: DeviceFacts, body_xml: Seq<char>, active: bool)
    requires
        xml::first_text(body_xml, "LogicalState"@) is Some,
        text::trimmed(xml::first_text(body_xml, "LogicalState"@)->0) == (if active {
            "active"@
        } else {
            "inactive"@
        }),
    ensures
        ({
            let token = xml::first_text(body_xml, "RelayOutputToken"@);
            let answer = device_answer(f, "SetRelayOutputState"@, body_xml);
            let done = |command: Option<DeviceCommand>|
                Ok::<DeviceAnswerView, FaultView>(
                    DeviceAnswerView {
                        command,
                        xml: soap::envelope("<tds:SetRelayOutputStateResponse/>"@, soap::NS_ALL@),
                    },
                );
            &&& token == Some("relay_floodlight"@) && f.caps.floodlight ==> answer == done(
                Some(DeviceCommand::Floodlight { on: active, seconds: 180 }),
            )
            &&& token == Some("relay_siren"@) && active ==> answer == done(
                Some(DeviceCommand::Siren),
            )
            &&& token == Some("relay_siren"@) && !active ==> answer == done(None)
            &&& token == Some("relay_ir_illuminator"@) && f.caps.led_ctrl && active ==> answer
                == done(Some(DeviceCommand::SetIrLed(LightState::Auto)))
            &&& token == Some("relay_ir_illuminator"@) && f.caps.led_ctrl && !active ==> answer
                == done(Some(DeviceCommand::SetIrLed(LightState::Off)))
            &&& token == Some("relay_status_led"@) && f.caps.led_ctrl ==> answer == done(
                Some(DeviceCommand::SetStatusLed(active)),
            )
            &&& token is None ==> answer == Err::<DeviceAnswerView, FaultView>(
                fault(FaultCode::InvalidArgs, "Missing RelayOutputToken"@),
            )
        }),
{
    lemma_actions();
    reveal_strlit("active");
    reveal_strlit("inactive");
    assert("active"@.len() == 6 && "inactive"@.len() == 8);
    lemma_relay_place(f.caps, RelayKind::Siren);
    if f.caps.floodlight {
        lemma_relay_place(f.caps, RelayKind::Floodlight);
    }
    if f.caps.led_ctrl {
        lemma_relay_place(f.caps, RelayKind::IrLed);
        lemma_relay_place(f.caps, RelayKind::StatusLed);
    }
}

/// A relay knows two states, and any other is refused, and so is none.
pub proof fn law_relays_know_two_states(logical: Seq<char>)
    ensures
        text::trimmed(logical) == "active"@ ==> asked_state(Some(logical)) == Ok::<bool, FaultView>(
            true,
        ),
        text::trimmed(logical) == "inactive"@ ==> asked_state(Some(logical)) == Ok::<
            bool,
            FaultView,
        >(false),
        text::trimmed(logical) != "active"@ && text::trimmed(logical) != "inactive"@ ==> (
        asked_state(Some(logical)) matches Err(e) && e.code == FaultCode::InvalidArgs),
        asked_state(None) matches Err(e) && e.code == FaultCode::InvalidArgs,
{
    reveal_strlit("active");
    reveal_strlit("inactive");
    assert("active"@.len() == 6 && "inactive"@.len() == 8);
}

/// What a device says of itself stands in the elements of those names.
pub proof fn law_information_stands_in_its_elements(
    manufacturer: Seq<char>,
    model: Seq<char>,
    firmware_version: Seq<char>,
    serial_number: Seq<char>,
    hardware_id: Seq<char>,
)
    ensures
        text::has(device_information(manufacturer, model, firmware_version, serial_number, hardware_id), "<tds:Manufacturer>"@ + soap::escaped(manufacturer) + "</tds:Manufacturer>"@),
        text::has(device_information(manufacturer, model, firmware_version, serial_number, hardware_id), "<tds:Model>"@ + soap::escaped(model) + "</tds:Model>"@),
        text::has(device_information(manufacturer, model, firmware_version, serial_number, hardware_id), "<tds:FirmwareVersion>"@ + soap::escaped(firmware_version) + "</tds:FirmwareVersion>"@),
        text::has(device_information(manufacturer, model, firmware_version, serial_number, hardware_id), "<tds:SerialNumber>"@ + soap::escaped(serial_number) + "</tds:SerialNumber>"@),
        text::has(device_information(manufacturer, model, firmware_version, serial_number, hardware_id), "<tds:HardwareId>"@ + soap::escaped(hardware_id) + "</tds:HardwareId>"@),
{
    {
        reveal_strlit("</tds:Manufacturer><tds:Model>");
        reveal_strlit("<tds:Manufacturer>");
        reveal_strlit("</tds:Manufacturer>");
        reveal_strlit("<tds:GetDeviceInformationResponse><tds:Manufacturer>");
        assert("<tds:GetDeviceInformationResponse><tds:Manufacturer>"@.skip(34) =~= "<tds:Manufacturer>"@);
        assert("</tds:Manufacturer><tds:Model>"@.take(19) =~= "</tds:Manufacturer>"@);
        let head = Seq::<char>::empty();
        let tail = soap::escaped(model) + "</tds:Model><tds:FirmwareVersion>"@ + soap::escaped(firmware_version) + "</tds:FirmwareVersion><tds:SerialNumber>"@ + soap::escaped(serial_number) + "</tds:SerialNumber><tds:HardwareId>"@ + soap::escaped(hardware_id) + "</tds:HardwareId></tds:GetDeviceInformationResponse>"@;
        let value = soap::escaped(manufacturer);
        assert(device_information(manufacturer, model, firmware_version, serial_number, hardware_id) =~= head + "<tds:GetDeviceInformationResponse><tds:Manufacturer>"@ + value + "</tds:Manufacturer><tds:Model>"@ + tail);
        text::lemma_has_tagged(head, "<tds:GetDeviceInformationResponse><tds:Manufacturer>"@, value, "</tds:Manufacturer><tds:Model>"@, tail, "<tds:Manufacturer>"@, "</tds:Manufacturer>"@);
    }
    {
        reveal_strlit("<tds:Model>");
        reveal_strlit("</tds:Manufacturer><tds:Model>");
        reveal_strlit("</tds:Model><tds:FirmwareVersion>");
        reveal_strlit("</tds:Model>");
        assert("</tds:Manufacturer><tds:Model>"@.skip(19) =~= "<tds:Model>"@);
        assert("</tds:Model><tds:FirmwareVersion>"@.take(12) =~= "</tds:Model>"@);
        let head = "<tds:GetDeviceInformationResponse><tds:Manufacturer>"@ + soap::escaped(manufacturer);
        let tail = soap::escaped(firmware_version) + "</tds:FirmwareVersion><tds:SerialNumber>"@ + soap::escaped(serial_number) + "</tds:SerialNumber><tds:HardwareId>"@ + soap::escaped(hardware_id) + "</tds:HardwareId></tds:GetDeviceInformationResponse>"@;
        let value = soap::escaped(model);
        assert(device_information(manufacturer, model, firmware_version, serial_number, hardware_id) =~= head + "</tds:Manufacturer><tds:Model>"@ + value + "</tds:Model><tds:FirmwareVersion>"@ + tail);
        text::lemma_has_tagged(head, "</tds:Manufacturer><tds:Model>"@, value, "</tds:Model><tds:FirmwareVersion>"@, tail, "<tds:Model>"@, "</tds:Model>"@);
    }
    {
        reveal_strlit("</tds:FirmwareVersion><tds:SerialNumber>");
        reveal_strlit("</tds:FirmwareVersion>");
        reveal_strlit("<tds:FirmwareVersion>");
        reveal_strlit("</tds:Model><tds:FirmwareVersion>");
        assert("</tds:Model><tds:FirmwareVersion>"@.skip(12) =~= "<tds:FirmwareVersion>"@);
        assert("</tds:FirmwareVersion><tds:SerialNumber>"@.take(22) =~= "</tds:FirmwareVersion>"@);
        let head = "<tds:GetDeviceInformationResponse><tds:Manufacturer>"@ + soap::escaped(manufacturer) + "</tds:Manufacturer><tds:Model>"@ + soap::escaped(model);
        let tail = soap::escaped(serial_number) + "</tds:SerialNumber><tds:HardwareId>"@ + soap::escaped(hardware_id) + "</tds:HardwareId></tds:GetDeviceInformationResponse>"@;
        let value = soap::escaped(firmware_version);
        assert(device_information(manufacturer, model, firmware_version, serial_number, hardware_id) =~= head + "</tds:Model><tds:FirmwareVersion>"@ + value + "</tds:FirmwareVersion><tds:SerialNumber>"@ + tail);
        text::lemma_has_tagged(head, "</tds:Model><tds:FirmwareVersion>"@, value, "</tds:FirmwareVersion><tds:SerialNumber>"@, tail, "<tds:FirmwareVersion>"@, "</tds:FirmwareVersion>"@);
    }
    {
        reveal_strlit("</tds:FirmwareVersion><tds:SerialNumber>");
        reveal_strlit("<tds:SerialNumber>");
        reveal_strlit("</tds:SerialNumber>");
        reveal_strlit("</tds:SerialNumber><tds:HardwareId>");
        assert("</tds:FirmwareVersion><tds:SerialNumber>"@.skip(22) =~= "<tds:SerialNumber>"@);
        assert("</tds:SerialNumber><tds:HardwareId>"@.take(19) =~= "</tds:SerialNumber>"@);
        let head = "<tds:GetDeviceInformationResponse><tds:Manufacturer>"@ + soap::escaped(manufacturer) + "</tds:Manufacturer><tds:Model>"@ + soap::escaped(model) + "</tds:Model><tds:FirmwareVersion>"@ + soap::escaped(firmware_version);
        let tail = soap::escaped(hardware_id) + "</tds:HardwareId></tds:GetDeviceInformationResponse>"@;
        let value = soap::escaped(serial_number);
        assert(device_information(manufacturer, model, firmware_version, serial_number, hardware_id) =~= head + "</tds:FirmwareVersion><tds:SerialNumber>"@ + value + "</tds:SerialNumber><tds:HardwareId>"@ + tail);
        text::lemma_has_tagged(head, "</tds:FirmwareVersion><tds:SerialNumber>"@, value, "</tds:SerialNumber><tds:HardwareId>"@, tail, "<tds:SerialNumber>"@, "</tds:SerialNumber>"@);
    }
    {
        reveal_strlit("</tds:HardwareId>");
        reveal_strlit("</tds:HardwareId></tds:GetDeviceInformationResponse>");
        reveal_strlit("<tds:HardwareId>");
        reveal_strlit("</tds:SerialNumber><tds:HardwareId>");
        assert("</tds:SerialNumber><tds:HardwareId>"@.skip(19) =~= "<tds:HardwareId>"@);
        assert("</tds:HardwareId></tds:GetDeviceInformationResponse>"@.take(17) =~= "</tds:HardwareId>"@);
        let head = "<tds:GetDeviceInformationResponse><tds:Manufacturer>"@ + soap::escaped(manufacturer) + "</tds:Manufacturer><tds:Model>"@ + soap::escaped(model) + "</tds:Model><tds:FirmwareVersion>"@ + soap::escaped(firmware_version) + "</tds:FirmwareVersion><tds:SerialNumber>"@ + soap::escaped(serial_number);
        let tail = Seq::<char>::empty();
        let value = soap::escaped(hardware_id);
        assert(device_information(manufacturer, model, firmware_version, serial_number, hardware_id) =~= head + "</tds:SerialNumber><tds:HardwareId>"@ + value + "</tds:HardwareId></tds:GetDeviceInformationResponse>"@ + tail);
        text::lemma_has_tagged(head, "</tds:SerialNumber><tds:HardwareId>"@, value, "</tds:HardwareId></tds:GetDeviceInformationResponse>"@, tail, "<tds:HardwareId>"@, "</tds:HardwareId>"@);
    }
}

/// A device tells the model, the firmware, the serial number and the hardware that its
/// camera told, and says that they are unknown where it did not.
pub proof fn law_information_is_the_camera_s(v: &Version)
    ensures
        information_of(Some(v)) == device_information(
            "Reolink"@,
            match v.model {
                Some(m) => m@,
                None => "Unknown"@,
            },
            v.firmware_version@,
            v.serial_number@,
            v.hardware_version@,
        ),
        information_of(None) == device_information(
            "Reolink"@,
            "Unknown"@,
            "Unknown"@,
            "Unknown"@,
            "Unknown"@,
        ),
{
}

proof fn lemma_time_block(
    head: Seq<char>,
    first: Seq<char>,
    hour: Seq<char>,
    minute: Seq<char>,
    second: Seq<char>,
    year: Seq<char>,
    month: Seq<char>,
    day: Seq<char>,
    last: Seq<char>,
    open: Seq<char>,
    close: Seq<char>,
)
    requires
        open.len() <= first.len(),
        first.skip(first.len() - open.len()) == open,
        close.len() <= last.len(),
        last.take(close.len() as int) == close,
    ensures
        text::has(
            head + first + hour + "</tt:Hour><tt:Minute>"@ + minute + "</tt:Minute><tt:Second>"@ + second + "</tt:Second></tt:Time><tt:Date><tt:Year>"@ + year + "</tt:Year><tt:Month>"@ + month + "</tt:Month><tt:Day>"@ + day + last,
            open + hour + "</tt:Hour><tt:Minute>"@ + minute + "</tt:Minute><tt:Second>"@ + second + "</tt:Second></tt:Time><tt:Date><tt:Year>"@ + year + "</tt:Year><tt:Month>"@ + month + "</tt:Month><tt:Day>"@ + day + close,
        ),
{
    let value = hour + "</tt:Hour><tt:Minute>"@ + minute + "</tt:Minute><tt:Second>"@ + second + "</tt:Second></tt:Time><tt:Date><tt:Year>"@ + year + "</tt:Year><tt:Month>"@ + month + "</tt:Month><tt:Day>"@ + day;
    text::lemma_has_tagged(head, first, value, last, Seq::empty(), open, close);
    assert(head + first + value + last + Seq::empty() =~= head + first + hour + "</tt:Hour><tt:Minute>"@ + minute + "</tt:Minute><tt:Second>"@ + second + "</tt:Second></tt:Time><tt:Date><tt:Year>"@ + year + "</tt:Year><tt:Month>"@ + month + "</tt:Month><tt:Day>"@ + day + last);
    assert(open + value + close =~= open + hour + "</tt:Hour><tt:Minute>"@ + minute + "</tt:Minute><tt:Second>"@ + second + "</tt:Second></tt:Time><tt:Date><tt:Year>"@ + year + "</tt:Year><tt:Month>"@ + month + "</tt:Month><tt:Day>"@ + day + close);
}

/// The clock shows its zone and the time in UTC, field by field.
pub proof fn law_the_clock_shows_utc(offset: i32, u: Civil, l: Civil)
    ensures
        text::has(clock_xml(offset, u, l), "<tt:TZ>"@ + posix_zone(offset) + "</tt:TZ>"@),
        text::has(clock_xml(offset, u, l), "<tt:UTCDateTime><tt:Time><tt:Hour>"@ + text::decimal(u.hour as nat) + "</tt:Hour><tt:Minute>"@ + text::decimal(u.minute as nat) + "</tt:Minute><tt:Second>"@ + text::decimal(u.second as nat) + "</tt:Second></tt:Time><tt:Date><tt:Year>"@ + text::signed_decimal(u.year as int) + "</tt:Year><tt:Month>"@ + text::decimal(u.month as nat) + "</tt:Month><tt:Day>"@ + text::decimal(u.day as nat) + "</tt:Day></tt:Date></tt:UTCDateTime>"@),
{
    let zone = "<tt:TZ>"@ + posix_zone(offset) + "</tt:TZ>"@;
    assert(text::has("<tds:GetSystemDateAndTimeResponse><tds:SystemDateAndTime><tt:DateTimeType>Manual</tt:DateTimeType><tt:DaylightSavings>false</tt:DaylightSavings><tt:TimeZone><tt:TZ>"@ + posix_zone(offset) + "</tt:TZ></tt:TimeZone><tt:UTCDateTime><tt:Time><tt:Hour>"@, zone)) by {
        reveal_strlit("<tds:GetSystemDateAndTimeResponse><tds:SystemDateAndTime><tt:DateTimeType>Manual</tt:DateTimeType><tt:DaylightSavings>false</tt:DaylightSavings><tt:TimeZone><tt:TZ>");
        reveal_strlit("</tt:TZ></tt:TimeZone><tt:UTCDateTime><tt:Time><tt:Hour>");
        reveal_strlit("<tt:TZ>");
        reveal_strlit("</tt:TZ>");
        assert("<tds:GetSystemDateAndTimeResponse><tds:SystemDateAndTime><tt:DateTimeType>Manual</tt:DateTimeType><tt:DaylightSavings>false</tt:DaylightSavings><tt:TimeZone><tt:TZ>"@.skip(157) =~= "<tt:TZ>"@);
        assert("</tt:TZ></tt:TimeZone><tt:UTCDateTime><tt:Time><tt:Hour>"@.take(8) =~= "</tt:TZ>"@);
        text::lemma_has_tagged(Seq::empty(), "<tds:GetSystemDateAndTimeResponse><tds:SystemDateAndTime><tt:DateTimeType>Manual</tt:DateTimeType><tt:DaylightSavings>false</tt:DaylightSavings><tt:TimeZone><tt:TZ>"@, posix_zone(offset), "</tt:TZ></tt:TimeZone><tt:UTCDateTime><tt:Time><tt:Hour>"@, Seq::empty(), "<tt:TZ>"@, "</tt:TZ>"@);
        assert(Seq::empty() + "<tds:GetSystemDateAndTimeResponse><tds:SystemDateAndTime><tt:DateTimeType>Manual</tt:DateTimeType><tt:DaylightSavings>false</tt:DaylightSavings><tt:TimeZone><tt:TZ>"@ + posix_zone(offset) + "</tt:TZ></tt:TimeZone><tt:UTCDateTime><tt:Time><tt:Hour>"@ + Seq::empty() =~= "<tds:GetSystemDateAndTimeResponse><tds:SystemDateAndTime><tt:DateTimeType>Manual</tt:DateTimeType><tt:DaylightSavings>false</tt:DaylightSavings><tt:TimeZone><tt:TZ>"@ + posix_zone(offset) + "</tt:TZ></tt:TimeZone><tt:UTCDateTime><tt:Time><tt:Hour>"@);
    }
    let shown = "<tt:UTCDateTime><tt:Time><tt:Hour>"@ + text::decimal(u.hour as nat) + "</tt:Hour><tt:Minute>"@ + text::decimal(u.minute as nat) + "</tt:Minute><tt:Second>"@ + text::decimal(u.second as nat) + "</tt:Second></tt:Time><tt:Date><tt:Year>"@ + text::signed_decimal(u.year as int) + "</tt:Year><tt:Month>"@ + text::decimal(u.month as nat) + "</tt:Month><tt:Day>"@ + text::decimal(u.day as nat) + "</tt:Day></tt:Date></tt:UTCDateTime>"@;
    assert(text::has("<tds:GetSystemDateAndTimeResponse><tds:SystemDateAndTime><tt:DateTimeType>Manual</tt:DateTimeType><tt:DaylightSavings>false</tt:DaylightSavings><tt:TimeZone><tt:TZ>"@ + posix_zone(offset) + "</tt:TZ></tt:TimeZone><tt:UTCDateTime><tt:Time><tt:Hour>"@ + text::decimal(u.hour as nat) + "</tt:Hour><tt:Minute>"@ + text::decimal(u.minute as nat) + "</tt:Minute><tt:Second>"@ + text::decimal(u.second as nat) + "</tt:Second></tt:Time><tt:Date><tt:Year>"@ + text::signed_decimal(u.year as int) + "</tt:Year><tt:Month>"@ + text::decimal(u.month as nat) + "</tt:Month><tt:Day>"@ + text::decimal(u.day as nat) + "</tt:Day></tt:Date></tt:UTCDateTime><tt:LocalDateTime><tt:Time><tt:Hour>"@, shown)) by {
        reveal_strlit("</tt:TZ></tt:TimeZone><tt:UTCDateTime><tt:Time><tt:Hour>");
        reveal_strlit("</tt:Day></tt:Date></tt:UTCDateTime><tt:LocalDateTime><tt:Time><tt:Hour>");
        reveal_strlit("<tt:UTCDateTime><tt:Time><tt:Hour>");
        reveal_strlit("</tt:Day></tt:Date></tt:UTCDateTime>");
        assert("</tt:TZ></tt:TimeZone><tt:UTCDateTime><tt:Time><tt:Hour>"@.skip(22) =~= "<tt:UTCDateTime><tt:Time><tt:Hour>"@);
        assert("</tt:Day></tt:Date></tt:UTCDateTime><tt:LocalDateTime><tt:Time><tt:Hour>"@.take(36) =~= "</tt:Day></tt:Date></tt:UTCDateTime>"@);
        let head = "<tds:GetSystemDateAndTimeResponse><tds:SystemDateAndTime><tt:DateTimeType>Manual</tt:DateTimeType><tt:DaylightSavings>false</tt:DaylightSavings><tt:TimeZone><tt:TZ>"@ + posix_zone(offset);
        lemma_time_block(head, "</tt:TZ></tt:TimeZone><tt:UTCDateTime><tt:Time><tt:Hour>"@, text::decimal(u.hour as nat), text::decimal(u.minute as nat), text::decimal(u.second as nat), text::signed_decimal(u.year as int), text::decimal(u.month as nat), text::decimal(u.day as nat), "</tt:Day></tt:Date></tt:UTCDateTime><tt:LocalDateTime><tt:Time><tt:Hour>"@, "<tt:UTCDateTime><tt:Time><tt:Hour>"@, "</tt:Day></tt:Date></tt:UTCDateTime>"@);
    }
    let at = "<tds:GetSystemDateAndTimeResponse><tds:SystemDateAndTime><tt:DateTimeType>Manual</tt:DateTimeType><tt:DaylightSavings>false</tt:DaylightSavings><tt:TimeZone><tt:TZ>"@ + posix_zone(offset) + "</tt:TZ></tt:TimeZone><tt:UTCDateTime><tt:Time><tt:Hour>"@;
    let at_3 = at + text::decimal(u.hour as nat);
    text::lemma_has_before(at, text::decimal(u.hour as nat), zone);
    let at_4 = at_3 + "</tt:Hour><tt:Minute>"@;
    text::lemma_has_before(at_3, "</tt:Hour><tt:Minute>"@, zone);
    let at_5 = at_4 + text::decimal(u.minute as nat);
    text::lemma_has_before(at_4, text::decimal(u.minute as nat), zone);
    let at_6 = at_5 + "</tt:Minute><tt:Second>"@;
    text::lemma_has_before(at_5, "</tt:Minute><tt:Second>"@, zone);
    let at_7 = at_6 + text::decimal(u.second as nat);
    text::lemma_has_before(at_6, text::decimal(u.second as nat), zone);
    let at_8 = at_7 + "</tt:Second></tt:Time><tt:Date><tt:Year>"@;
    text::lemma_has_before(at_7, "</tt:Second></tt:Time><tt:Date><tt:Year>"@, zone);
    let at_9 = at_8 + text::signed_decimal(u.year as int);
    text::lemma_has_before(at_8, text::signed_decimal(u.year as int), zone);
    let at_10 = at_9 + "</tt:Year><tt:Month>"@;
    text::lemma_has_before(at_9, "</tt:Year><tt:Month>"@, zone);
    let at_11 = at_10 + text::decimal(u.month as nat);
    text::lemma_has_before(at_10, text::decimal(u.month as nat), zone);
    let at_12 = at_11 + "</tt:Month><tt:Day>"@;
    text::lemma_has_before(at_11, "</tt:Month><tt:Day>"@, zone);
    let at_13 = at_12 + text::decimal(u.day as nat);
    text::lemma_has_before(at_12, text::decimal(u.day as nat), zone);
    let at_14 = at_13 + "</tt:Day></tt:Date></tt:UTCDateTime><tt:LocalDateTime><tt:Time><tt:Hour>"@;
    text::lemma_has_before(at_13, "</tt:Day></tt:Date></tt:UTCDateTime><tt:LocalDateTime><tt:Time><tt:Hour>"@, zone);
    let at_15 = at_14 + text::decimal(l.hour as nat);
    text::lemma_has_before(at_14, text::decimal(l.hour as nat), zone);
    text::lemma_has_before(at_14, text::decimal(l.hour as nat), shown);
    let at_16 = at_15 + "</tt:Hour><tt:Minute>"@;
    text::lemma_has_before(at_15, "</tt:Hour><tt:Minute>"@, zone);
    text::lemma_has_before(at_15, "</tt:Hour><tt:Minute>"@, shown);
    let at_17 = at_16 + text::decimal(l.minute as nat);
    text::lemma_has_before(at_16, text::decimal(l.minute as nat), zone);
    text::lemma_has_before(at_16, text::decimal(l.minute as nat), shown);
    let at_18 = at_17 + "</tt:Minute><tt:Second>"@;
    text::lemma_has_before(at_17, "</tt:Minute><tt:Second>"@, zone);
    text::lemma_has_before(at_17, "</tt:Minute><tt:Second>"@, shown);
    let at_19 = at_18 + text::decimal(l.second as nat);
    text::lemma_has_before(at_18, text::decimal(l.second as nat), zone);
    text::lemma_has_before(at_18, text::decimal(l.second as nat), shown);
    let at_20 = at_19 + "</tt:Second></tt:Time><tt:Date><tt:Year>"@;
    text::lemma_has_before(at_19, "</tt:Second></tt:Time><tt:Date><tt:Year>"@, zone);
    text::lemma_has_before(at_19, "</tt:Second></tt:Time><tt:Date><tt:Year>"@, shown);
    let at_21 = at_20 + text::signed_decimal(l.year as int);
    text::lemma_has_before(at_20, text::signed_decimal(l.year as int), zone);
    text::lemma_has_before(at_20, text::signed_decimal(l.year as int), shown);
    let at_22 = at_21 + "</tt:Year><tt:Month>"@;
    text::lemma_has_before(at_21, "</tt:Year><tt:Month>"@, zone);
    text::lemma_has_before(at_21, "</tt:Year><tt:Month>"@, shown);
    let at_23 = at_22 + text::decimal(l.month as nat);
    text::lemma_has_before(at_22, text::decimal(l.month as nat), zone);
    text::lemma_has_before(at_22, text::decimal(l.month as nat), shown);
    let at_24 = at_23 + "</tt:Month><tt:Day>"@;
    text::lemma_has_before(at_23, "</tt:Month><tt:Day>"@, zone);
    text::lemma_has_before(at_23, "</tt:Month><tt:Day>"@, shown);
    let at_25 = at_24 + text::decimal(l.day as nat);
    text::lemma_has_before(at_24, text::decimal(l.day as nat), zone);
    text::lemma_has_before(at_24, text::decimal(l.day as nat), shown);
    let at_26 = at_25 + "</tt:Day></tt:Date></tt:LocalDateTime></tds:SystemDateAndTime></tds:GetSystemDateAndTimeResponse>"@;
    text::lemma_has_before(at_25, "</tt:Day></tt:Date></tt:LocalDateTime></tds:SystemDateAndTime></tds:GetSystemDateAndTimeResponse>"@, zone);
    text::lemma_has_before(at_25, "</tt:Day></tt:Date></tt:LocalDateTime></tds:SystemDateAndTime></tds:GetSystemDateAndTimeResponse>"@, shown);
    assert(at_26 == clock_xml(offset, u, l));
}

/// The clock shows the local time, field by field.
pub proof fn law_the_clock_shows_local_time(offset: i32, u: Civil, l: Civil)
    ensures
        text::has(clock_xml(offset, u, l), "<tt:LocalDateTime><tt:Time><tt:Hour>"@ + text::decimal(l.hour as nat) + "</tt:Hour><tt:Minute>"@ + text::decimal(l.minute as nat) + "</tt:Minute><tt:Second>"@ + text::decimal(l.second as nat) + "</tt:Second></tt:Time><tt:Date><tt:Year>"@ + text::signed_decimal(l.year as int) + "</tt:Year><tt:Month>"@ + text::decimal(l.month as nat) + "</tt:Month><tt:Day>"@ + text::decimal(l.day as nat) + "</tt:Day></tt:Date></tt:LocalDateTime>"@),
{
    reveal_strlit("</tt:Day></tt:Date></tt:UTCDateTime><tt:LocalDateTime><tt:Time><tt:Hour>");
    reveal_strlit("</tt:Day></tt:Date></tt:LocalDateTime></tds:SystemDateAndTime></tds:GetSystemDateAndTimeResponse>");
    reveal_strlit("<tt:LocalDateTime><tt:Time><tt:Hour>");
    reveal_strlit("</tt:Day></tt:Date></tt:LocalDateTime>");
    assert("</tt:Day></tt:Date></tt:UTCDateTime><tt:LocalDateTime><tt:Time><tt:Hour>"@.skip(36) =~= "<tt:LocalDateTime><tt:Time><tt:Hour>"@);
    assert("</tt:Day></tt:Date></tt:LocalDateTime></tds:SystemDateAndTime></tds:GetSystemDateAndTimeResponse>"@.take(38) =~= "</tt:Day></tt:Date></tt:LocalDateTime>"@);
    let head = "<tds:GetSystemDateAndTimeResponse><tds:SystemDateAndTime><tt:DateTimeType>Manual</tt:DateTimeType><tt:DaylightSavings>false</tt:DaylightSavings><tt:TimeZone><tt:TZ>"@ + posix_zone(offset) + "</tt:TZ></tt:TimeZone><tt:UTCDateTime><tt:Time><tt:Hour>"@ + text::decimal(u.hour as nat) + "</tt:Hour><tt:Minute>"@ + text::decimal(u.minute as nat) + "</tt:Minute><tt:Second>"@ + text::decimal(u.second as nat) + "</tt:Second></tt:Time><tt:Date><tt:Year>"@ + text::signed_decimal(u.year as int) + "</tt:Year><tt:Month>"@ + text::decimal(u.month as nat) + "</tt:Month><tt:Day>"@ + text::decimal(u.day as nat);
    lemma_time_block(head, "</tt:Day></tt:Date></tt:UTCDateTime><tt:LocalDateTime><tt:Time><tt:Hour>"@, text::decimal(l.hour as nat), text::decimal(l.minute as nat), text::decimal(l.second as nat), text::signed_decimal(l.year as int), text::decimal(l.month as nat), text::decimal(l.day as nat), "</tt:Day></tt:Date></tt:LocalDateTime></tds:SystemDateAndTime></tds:GetSystemDateAndTimeResponse>"@, "<tt:LocalDateTime><tt:Time><tt:Hour>"@, "</tt:Day></tt:Date></tt:LocalDateTime>"@);
}

/// The time that is shown is the camera's, its local time as far behind UTC as its zone
/// lies west; where the camera's is not known it is the time of the host, in UTC.
pub proof fn law_the_time_shown_is_the_camera_s(c: CameraClock, now: Timestamp)
    ensures
        date_and_time(Some(c), now) == clock_xml(
            c.posix_offset_seconds,
            time::civil_of(c.utc as int),
            time::civil_of(c.utc - c.posix_offset_seconds),
        ),
        date_and_time(None, now) == clock_xml(
            0,
            time::civil_of(now.secs as int),
            time::civil_of(now.secs as int),
        ),
{
}

/// A zone is written as POSIX has it: the hours and minutes that must be added to local
/// time to get UTC, so that a zone east of Greenwich has a minus.
pub proof fn law_zones_are_written_the_posix_way(hours: u8, minutes: u8)
    requires
        hours < 100,
        minutes < 60,
    ensures
        posix_zone((hours as int * 3_600 + minutes as int * 60) as i32) == "UTC+"@
            + text::two_digits(hours as nat) + ":"@ + text::two_digits(minutes as nat),
        hours as int * 3_600 + minutes as int * 60 > 0 ==> posix_zone(
            (-(hours as int * 3_600 + minutes as int * 60)) as i32,
        ) == "UTC-"@ + text::two_digits(hours as nat) + ":"@ + text::two_digits(minutes as nat),
{
    let size = hours as int * 3_600 + minutes as int * 60;
    assert(size / 3_600 == hours as int);
    assert(size % 3_600 / 60 == minutes as int);
    reveal_strlit("UTC");
    reveal_strlit("+");
    reveal_strlit("-");
    reveal_strlit("UTC+");
    reveal_strlit("UTC-");
    assert("UTC"@ + "+"@ =~= "UTC+"@);
    assert("UTC"@ + "-"@ =~= "UTC-"@);
}

/// A camera's clock is its wall clock and how far its zone lies west of Greenwich: the
/// two together are UTC.
pub proof fn law_wall_clocks_lag_by_their_zone(g: SystemGeneral, c: Civil, zone: i32)
    requires
        g.time_zone == Some(zone),
        g.year == Some(c.year),
        g.month is Some && g.month->0 == c.month,
        g.day is Some && g.day->0 == c.day,
        g.hour is Some && g.hour->0 == c.hour,
        g.minute is Some && g.minute->0 == c.minute,
        g.second is Some && g.second->0 == c.second,
    ensures
        time::civil_exists(c) ==> clock_utc(g) == Some(time::civil_secs(c) + zone),
        !time::civil_exists(c) ==> clock_utc(g) is None,
{
}

proof fn lemma_number_is_read(n: nat)
    requires
        n <= 0x7FFF_FFFF,
    ensures
        number_in(Some(text::decimal(n))) == Some(n as int),
{
    text::lemma_decimal_digits(n);
    let shown = text::decimal(n);
    text::lemma_digits_are_trimmed(shown);
    assert(text::is_digit(shown[0]));
}

/// A clock is set to the second that its fields name: year, month, day, hour, minute
/// and second, each by its own number. A date that does not exist is refused.
pub proof fn law_clocks_are_set_by_their_fields(c: Civil)
    requires
        c.year >= 0,
        c.month <= 0x7FFF_FFFF,
        c.day <= 0x7FFF_FFFF,
        c.hour <= 0x7FFF_FFFF,
        c.minute <= 0x7FFF_FFFF,
        c.second <= 0x7FFF_FFFF,
    ensures
        ({
            let fields = ClockFieldsView {
                year: Some(text::decimal(c.year as nat)),
                month: Some(text::decimal(c.month as nat)),
                day: Some(text::decimal(c.day as nat)),
                hour: Some(text::decimal(c.hour as nat)),
                minute: Some(text::decimal(c.minute as nat)),
                second: Some(text::decimal(c.second as nat)),
            };
            &&& time::civil_exists(c) ==> clock_answer(fields) == Ok::<DeviceAnswerView, FaultView>(
                DeviceAnswerView {
                    command: Some(DeviceCommand::SetClock(time::civil_secs(c) as i64)),
                    xml: soap::envelope("<tds:SetSystemDateAndTimeResponse/>"@, soap::NS_ALL@),
                },
            )
            &&& !time::civil_exists(c) ==> (clock_answer(fields) matches Err(e) && e.code
                == FaultCode::InvalidArgs)
        }),
{
    lemma_number_is_read(c.year as nat);
    lemma_number_is_read(c.month as nat);
    lemma_number_is_read(c.day as nat);
    lemma_number_is_read(c.hour as nat);
    lemma_number_is_read(c.minute as nat);
    lemma_number_is_read(c.second as nat);
}

/// The capabilities give the address of each service, below the camera's own path, and
/// as many relays as are offered.
pub proof fn law_capabilities_give_the_services(
    authority: Seq<char>,
    cam_name: Seq<char>,
    caps: CameraCapabilities,
)
    ensures
        text::has(capabilities_xml(authority, cam_name, caps), "<tt:Device><tt:XAddr>"@ + ("http://"@ + authority + "/onvif/"@ + state::path_segment(cam_name) + "/"@ + "device_service"@) + "</tt:XAddr>"@),
        text::has(capabilities_xml(authority, cam_name, caps), "<tt:RelayOutputs>"@ + text::decimal(offered_relays(caps).len()) + "</tt:RelayOutputs>"@),
        text::has(capabilities_xml(authority, cam_name, caps), "<tt:Events><tt:XAddr>"@ + ("http://"@ + authority + "/onvif/"@ + state::path_segment(cam_name) + "/"@ + "events_service"@) + "</tt:XAddr>"@),
{
    let n_0 = "<tt:Device><tt:XAddr>"@ + service_address(authority, cam_name, "device_service"@) + "</tt:XAddr>"@;
    assert(text::has("<tds:GetCapabilitiesResponse><tds:Capabilities><tt:Device><tt:XAddr>"@ + service_address(authority, cam_name, "device_service"@) + "</tt:XAddr><tt:Network><tt:IPFilter>false</tt:IPFilter><tt:ZeroConfiguration>false</tt:ZeroConfiguration><tt:IPVersion6>false</tt:IPVersion6><tt:DynDNS>false</tt:DynDNS></tt:Network><tt:System><tt:DiscoveryResolve>false</tt:DiscoveryResolve><tt:DiscoveryBye>true</tt:DiscoveryBye><tt:RemoteDiscovery>false</tt:RemoteDiscovery><tt:SystemBackup>false</tt:SystemBackup><tt:SystemLogging>false</tt:SystemLogging><tt:FirmwareUpgrade>false</tt:FirmwareUpgrade></tt:System><tt:IO><tt:InputConnectors>0</tt:InputConnectors><tt:RelayOutputs>"@, n_0)) by {
        reveal_strlit("<tds:GetCapabilitiesResponse><tds:Capabilities><tt:Device><tt:XAddr>");
        reveal_strlit("</tt:XAddr><tt:Network><tt:IPFilter>false</tt:IPFilter><tt:ZeroConfiguration>false</tt:ZeroConfiguration><tt:IPVersion6>false</tt:IPVersion6><tt:DynDNS>false</tt:DynDNS></tt:Network><tt:System><tt:DiscoveryResolve>false</tt:DiscoveryResolve><tt:DiscoveryBye>true</tt:DiscoveryBye><tt:RemoteDiscovery>false</tt:RemoteDiscovery><tt:SystemBackup>false</tt:SystemBackup><tt:SystemLogging>false</tt:SystemLogging><tt:FirmwareUpgrade>false</tt:FirmwareUpgrade></tt:System><tt:IO><tt:InputConnectors>0</tt:InputConnectors><tt:RelayOutputs>");
        reveal_strlit("<tt:Device><tt:XAddr>");
        reveal_strlit("</tt:XAddr>");
        assert("<tds:GetCapabilitiesResponse><tds:Capabilities><tt:Device><tt:XAddr>"@.skip(47) =~= "<tt:Device><tt:XAddr>"@);
        assert("</tt:XAddr><tt:Network><tt:IPFilter>false</tt:IPFilter><tt:ZeroConfiguration>false</tt:ZeroConfiguration><tt:IPVersion6>false</tt:IPVersion6><tt:DynDNS>false</tt:DynDNS></tt:Network><tt:System><tt:DiscoveryResolve>false</tt:DiscoveryResolve><tt:DiscoveryBye>true</tt:DiscoveryBye><tt:RemoteDiscovery>false</tt:RemoteDiscovery><tt:SystemBackup>false</tt:SystemBackup><tt:SystemLogging>false</tt:SystemLogging><tt:FirmwareUpgrade>false</tt:FirmwareUpgrade></tt:System><tt:IO><tt:InputConnectors>0</tt:InputConnectors><tt:RelayOutputs>"@.take(11) =~= "</tt:XAddr>"@);
        let head = Seq::<char>::empty();
        text::lemma_has_tagged(head, "<tds:GetCapabilitiesResponse><tds:Capabilities><tt:Device><tt:XAddr>"@, service_address(authority, cam_name, "device_service"@), "</tt:XAddr><tt:Network><tt:IPFilter>false</tt:IPFilter><tt:ZeroConfiguration>false</tt:ZeroConfiguration><tt:IPVersion6>false</tt:IPVersion6><tt:DynDNS>false</tt:DynDNS></tt:Network><tt:System><tt:DiscoveryResolve>false</tt:DiscoveryResolve><tt:DiscoveryBye>true</tt:DiscoveryBye><tt:RemoteDiscovery>false</tt:RemoteDiscovery><tt:SystemBackup>false</tt:SystemBackup><tt:SystemLogging>false</tt:SystemLogging><tt:FirmwareUpgrade>false</tt:FirmwareUpgrade></tt:System><tt:IO><tt:InputConnectors>0</tt:InputConnectors><tt:RelayOutputs>"@, Seq::empty(), "<tt:Device><tt:XAddr>"@, "</tt:XAddr>"@);
        assert(head + "<tds:GetCapabilitiesResponse><tds:Capabilities><tt:Device><tt:XAddr>"@ + service_address(authority, cam_name, "device_service"@) + "</tt:XAddr><tt:Network><tt:IPFilter>false</tt:IPFilter><tt:ZeroConfiguration>false</tt:ZeroConfiguration><tt:IPVersion6>false</tt:IPVersion6><tt:DynDNS>false</tt:DynDNS></tt:Network><tt:System><tt:DiscoveryResolve>false</tt:DiscoveryResolve><tt:DiscoveryBye>true</tt:DiscoveryBye><tt:RemoteDiscovery>false</tt:RemoteDiscovery><tt:SystemBackup>false</tt:SystemBackup><tt:SystemLogging>false</tt:SystemLogging><tt:FirmwareUpgrade>false</tt:FirmwareUpgrade></tt:System><tt:IO><tt:InputConnectors>0</tt:InputConnectors><tt:RelayOutputs>"@ + Seq::empty() =~= head + "<tds:GetCapabilitiesResponse><tds:Capabilities><tt:Device><tt:XAddr>"@ + service_address(authority, cam_name, "device_service"@) + "</tt:XAddr><tt:Network><tt:IPFilter>false</tt:IPFilter><tt:ZeroConfiguration>false</tt:ZeroConfiguration><tt:IPVersion6>false</tt:IPVersion6><tt:DynDNS>false</tt:DynDNS></tt:Network><tt:System><tt:DiscoveryResolve>false</tt:DiscoveryResolve><tt:DiscoveryBye>true</tt:DiscoveryBye><tt:RemoteDiscovery>false</tt:RemoteDiscovery><tt:SystemBackup>false</tt:SystemBackup><tt:SystemLogging>false</tt:SystemLogging><tt:FirmwareUpgrade>false</tt:FirmwareUpgrade></tt:System><tt:IO><tt:InputConnectors>0</tt:InputConnectors><tt:RelayOutputs>"@);
        assert(head + "<tds:GetCapabilitiesResponse><tds:Capabilities><tt:Device><tt:XAddr>"@ =~= "<tds:GetCapabilitiesResponse><tds:Capabilities><tt:Device><tt:XAddr>"@);
    }
    let n_1 = "<tt:RelayOutputs>"@ + text::decimal(offered_relays(caps).len()) + "</tt:RelayOutputs>"@;
    assert(text::has("<tds:GetCapabilitiesResponse><tds:Capabilities><tt:Device><tt:XAddr>"@ + service_address(authority, cam_name, "device_service"@) + "</tt:XAddr><tt:Network><tt:IPFilter>false</tt:IPFilter><tt:ZeroConfiguration>false</tt:ZeroConfiguration><tt:IPVersion6>false</tt:IPVersion6><tt:DynDNS>false</tt:DynDNS></tt:Network><tt:System><tt:DiscoveryResolve>false</tt:DiscoveryResolve><tt:DiscoveryBye>true</tt:DiscoveryBye><tt:RemoteDiscovery>false</tt:RemoteDiscovery><tt:SystemBackup>false</tt:SystemBackup><tt:SystemLogging>false</tt:SystemLogging><tt:FirmwareUpgrade>false</tt:FirmwareUpgrade></tt:System><tt:IO><tt:InputConnectors>0</tt:InputConnectors><tt:RelayOutputs>"@ + text::decimal(offered_relays(caps).len()) + "</tt:RelayOutputs></tt:IO></tt:Device><tt:Events><tt:XAddr>"@, n_1)) by {
        reveal_strlit("</tt:XAddr><tt:Network><tt:IPFilter>false</tt:IPFilter><tt:ZeroConfiguration>false</tt:ZeroConfiguration><tt:IPVersion6>false</tt:IPVersion6><tt:DynDNS>false</tt:DynDNS></tt:Network><tt:System><tt:DiscoveryResolve>false</tt:DiscoveryResolve><tt:DiscoveryBye>true</tt:DiscoveryBye><tt:RemoteDiscovery>false</tt:RemoteDiscovery><tt:SystemBackup>false</tt:SystemBackup><tt:SystemLogging>false</tt:SystemLogging><tt:FirmwareUpgrade>false</tt:FirmwareUpgrade></tt:System><tt:IO><tt:InputConnectors>0</tt:InputConnectors><tt:RelayOutputs>");
        reveal_strlit("</tt:RelayOutputs></tt:IO></tt:Device><tt:Events><tt:XAddr>");
        reveal_strlit("<tt:RelayOutputs>");
        reveal_strlit("</tt:RelayOutputs>");
        assert("</tt:XAddr><tt:Network><tt:IPFilter>false</tt:IPFilter><tt:ZeroConfiguration>false</tt:ZeroConfiguration><tt:IPVersion6>false</tt:IPVersion6><tt:DynDNS>false</tt:DynDNS></tt:Network><tt:System><tt:DiscoveryResolve>false</tt:DiscoveryResolve><tt:DiscoveryBye>true</tt:DiscoveryBye><tt:RemoteDiscovery>false</tt:RemoteDiscovery><tt:SystemBackup>false</tt:SystemBackup><tt:SystemLogging>false</tt:SystemLogging><tt:FirmwareUpgrade>false</tt:FirmwareUpgrade></tt:System><tt:IO><tt:InputConnectors>0</tt:InputConnectors><tt:RelayOutputs>"@.skip(515) =~= "<tt:RelayOutputs>"@);
        assert("</tt:RelayOutputs></tt:IO></tt:Device><tt:Events><tt:XAddr>"@.take(18) =~= "</tt:RelayOutputs>"@);
        let head = "<tds:GetCapabilitiesResponse><tds:Capabilities><tt:Device><tt:XAddr>"@ + service_address(authority, cam_name, "device_service"@);
        text::lemma_has_tagged(head, "</tt:XAddr><tt:Network><tt:IPFilter>false</tt:IPFilter><tt:ZeroConfiguration>false</tt:ZeroConfiguration><tt:IPVersion6>false</tt:IPVersion6><tt:DynDNS>false</tt:DynDNS></tt:Network><tt:System><tt:DiscoveryResolve>false</tt:DiscoveryResolve><tt:DiscoveryBye>true</tt:DiscoveryBye><tt:RemoteDiscovery>false</tt:RemoteDiscovery><tt:SystemBackup>false</tt:SystemBackup><tt:SystemLogging>false</tt:SystemLogging><tt:FirmwareUpgrade>false</tt:FirmwareUpgrade></tt:System><tt:IO><tt:InputConnectors>0</tt:InputConnectors><tt:RelayOutputs>"@, text::decimal(offered_relays(caps).len()), "</tt:RelayOutputs></tt:IO></tt:Device><tt:Events><tt:XAddr>"@, Seq::empty(), "<tt:RelayOutputs>"@, "</tt:RelayOutputs>"@);
        assert(head + "</tt:XAddr><tt:Network><tt:IPFilter>false</tt:IPFilter><tt:ZeroConfiguration>false</tt:ZeroConfiguration><tt:IPVersion6>false</tt:IPVersion6><tt:DynDNS>false</tt:DynDNS></tt:Network><tt:System><tt:DiscoveryResolve>false</tt:DiscoveryResolve><tt:DiscoveryBye>true</tt:DiscoveryBye><tt:RemoteDiscovery>false</tt:RemoteDiscovery><tt:SystemBackup>false</tt:SystemBackup><tt:SystemLogging>false</tt:SystemLogging><tt:FirmwareUpgrade>false</tt:FirmwareUpgrade></tt:System><tt:IO><tt:InputConnectors>0</tt:InputConnectors><tt:RelayOutputs>"@ + text::decimal(offered_relays(caps).len()) + "</tt:RelayOutputs></tt:IO></tt:Device><tt:Events><tt:XAddr>"@ + Seq::empty() =~= head + "</tt:XAddr><tt:Network><tt:IPFilter>false</tt:IPFilter><tt:ZeroConfiguration>false</tt:ZeroConfiguration><tt:IPVersion6>false</tt:IPVersion6><tt:DynDNS>false</tt:DynDNS></tt:Network><tt:System><tt:DiscoveryResolve>false</tt:DiscoveryResolve><tt:DiscoveryBye>true</tt:DiscoveryBye><tt:RemoteDiscovery>false</tt:RemoteDiscovery><tt:SystemBackup>false</tt:SystemBackup><tt:SystemLogging>false</tt:SystemLogging><tt:FirmwareUpgrade>false</tt:FirmwareUpgrade></tt:System><tt:IO><tt:InputConnectors>0</tt:InputConnectors><tt:RelayOutputs>"@ + text::decimal(offered_relays(caps).len()) + "</tt:RelayOutputs></tt:IO></tt:Device><tt:Events><tt:XAddr>"@);
    }
    let n_2 = "<tt:Events><tt:XAddr>"@ + service_address(authority, cam_name, "events_service"@) + "</tt:XAddr>"@;
    assert(text::has("<tds:GetCapabilitiesResponse><tds:Capabilities><tt:Device><tt:XAddr>"@ + service_address(authority, cam_name, "device_service"@) + "</tt:XAddr><tt:Network><tt:IPFilter>false</tt:IPFilter><tt:ZeroConfiguration>false</tt:ZeroConfiguration><tt:IPVersion6>false</tt:IPVersion6><tt:DynDNS>false</tt:DynDNS></tt:Network><tt:System><tt:DiscoveryResolve>false</tt:DiscoveryResolve><tt:DiscoveryBye>true</tt:DiscoveryBye><tt:RemoteDiscovery>false</tt:RemoteDiscovery><tt:SystemBackup>false</tt:SystemBackup><tt:SystemLogging>false</tt:SystemLogging><tt:FirmwareUpgrade>false</tt:FirmwareUpgrade></tt:System><tt:IO><tt:InputConnectors>0</tt:InputConnectors><tt:RelayOutputs>"@ + text::decimal(offered_relays(caps).len()) + "</tt:RelayOutputs></tt:IO></tt:Device><tt:Events><tt:XAddr>"@ + service_address(authority, cam_name, "events_service"@) + "</tt:XAddr><tt:WSSubscriptionPolicySupport>false</tt:WSSubscriptionPolicySupport><tt:WSPullPointSupport>true</tt:WSPullPointSupport><tt:WSPausableSubscriptionManagerInterfaceSupport>false</tt:WSPausableSubscriptionManagerInterfaceSupport></tt:Events>"@, n_2)) by {
        reveal_strlit("</tt:RelayOutputs></tt:IO></tt:Device><tt:Events><tt:XAddr>");
        reveal_strlit("</tt:XAddr><tt:WSSubscriptionPolicySupport>false</tt:WSSubscriptionPolicySupport><tt:WSPullPointSupport>true</tt:WSPullPointSupport><tt:WSPausableSubscriptionManagerInterfaceSupport>false</tt:WSPausableSubscriptionManagerInterfaceSupport></tt:Events>");
        reveal_strlit("<tt:Events><tt:XAddr>");
        reveal_strlit("</tt:XAddr>");
        assert("</tt:RelayOutputs></tt:IO></tt:Device><tt:Events><tt:XAddr>"@.skip(38) =~= "<tt:Events><tt:XAddr>"@);
        assert("</tt:XAddr><tt:WSSubscriptionPolicySupport>false</tt:WSSubscriptionPolicySupport><tt:WSPullPointSupport>true</tt:WSPullPointSupport><tt:WSPausableSubscriptionManagerInterfaceSupport>false</tt:WSPausableSubscriptionManagerInterfaceSupport></tt:Events>"@.take(11) =~= "</tt:XAddr>"@);
        let head = "<tds:GetCapabilitiesResponse><tds:Capabilities><tt:Device><tt:XAddr>"@ + service_address(authority, cam_name, "device_service"@) + "</tt:XAddr><tt:Network><tt:IPFilter>false</tt:IPFilter><tt:ZeroConfiguration>false</tt:ZeroConfiguration><tt:IPVersion6>false</tt:IPVersion6><tt:DynDNS>false</tt:DynDNS></tt:Network><tt:System><tt:DiscoveryResolve>false</tt:DiscoveryResolve><tt:DiscoveryBye>true</tt:DiscoveryBye><tt:RemoteDiscovery>false</tt:RemoteDiscovery><tt:SystemBackup>false</tt:SystemBackup><tt:SystemLogging>false</tt:SystemLogging><tt:FirmwareUpgrade>false</tt:FirmwareUpgrade></tt:System><tt:IO><tt:InputConnectors>0</tt:InputConnectors><tt:RelayOutputs>"@ + text::decimal(offered_relays(caps).len());
        text::lemma_has_tagged(head, "</tt:RelayOutputs></tt:IO></tt:Device><tt:Events><tt:XAddr>"@, service_address(authority, cam_name, "events_service"@), "</tt:XAddr><tt:WSSubscriptionPolicySupport>false</tt:WSSubscriptionPolicySupport><tt:WSPullPointSupport>true</tt:WSPullPointSupport><tt:WSPausableSubscriptionManagerInterfaceSupport>false</tt:WSPausableSubscriptionManagerInterfaceSupport></tt:Events>"@, Seq::empty(), "<tt:Events><tt:XAddr>"@, "</tt:XAddr>"@);
        assert(head + "</tt:RelayOutputs></tt:IO></tt:Device><tt:Events><tt:XAddr>"@ + service_address(authority, cam_name, "events_service"@) + "</tt:XAddr><tt:WSSubscriptionPolicySupport>false</tt:WSSubscriptionPolicySupport><tt:WSPullPointSupport>true</tt:WSPullPointSupport><tt:WSPausableSubscriptionManagerInterfaceSupport>false</tt:WSPausableSubscriptionManagerInterfaceSupport></tt:Events>"@ + Seq::empty() =~= head + "</tt:RelayOutputs></tt:IO></tt:Device><tt:Events><tt:XAddr>"@ + service_address(authority, cam_name, "events_service"@) + "</tt:XAddr><tt:WSSubscriptionPolicySupport>false</tt:WSSubscriptionPolicySupport><tt:WSPullPointSupport>true</tt:WSPullPointSupport><tt:WSPausableSubscriptionManagerInterfaceSupport>false</tt:WSPausableSubscriptionManagerInterfaceSupport></tt:Events>"@);
    }
    let up_to_2 = "<tds:GetCapabilitiesResponse><tds:Capabilities><tt:Device><tt:XAddr>"@ + service_address(authority, cam_name, "device_service"@) + "</tt:XAddr><tt:Network><tt:IPFilter>false</tt:IPFilter><tt:ZeroConfiguration>false</tt:ZeroConfiguration><tt:IPVersion6>false</tt:IPVersion6><tt:DynDNS>false</tt:DynDNS></tt:Network><tt:System><tt:DiscoveryResolve>false</tt:DiscoveryResolve><tt:DiscoveryBye>true</tt:DiscoveryBye><tt:RemoteDiscovery>false</tt:RemoteDiscovery><tt:SystemBackup>false</tt:SystemBackup><tt:SystemLogging>false</tt:SystemLogging><tt:FirmwareUpgrade>false</tt:FirmwareUpgrade></tt:System><tt:IO><tt:InputConnectors>0</tt:InputConnectors><tt:RelayOutputs>"@;
    let up_to_3 = up_to_2 + text::decimal(offered_relays(caps).len());
    text::lemma_has_before(up_to_2, text::decimal(offered_relays(caps).len()), n_0);
    let up_to_4 = up_to_3 + "</tt:RelayOutputs></tt:IO></tt:Device><tt:Events><tt:XAddr>"@;
    text::lemma_has_before(up_to_3, "</tt:RelayOutputs></tt:IO></tt:Device><tt:Events><tt:XAddr>"@, n_0);
    let up_to_5 = up_to_4 + service_address(authority, cam_name, "events_service"@);
    text::lemma_has_before(up_to_4, service_address(authority, cam_name, "events_service"@), n_0);
    text::lemma_has_before(up_to_4, service_address(authority, cam_name, "events_service"@), n_1);
    let up_to_6 = up_to_5 + "</tt:XAddr><tt:WSSubscriptionPolicySupport>false</tt:WSSubscriptionPolicySupport><tt:WSPullPointSupport>true</tt:WSPullPointSupport><tt:WSPausableSubscriptionManagerInterfaceSupport>false</tt:WSPausableSubscriptionManagerInterfaceSupport></tt:Events>"@;
    text::lemma_has_before(up_to_5, "</tt:XAddr><tt:WSSubscriptionPolicySupport>false</tt:WSSubscriptionPolicySupport><tt:WSPullPointSupport>true</tt:WSPullPointSupport><tt:WSPausableSubscriptionManagerInterfaceSupport>false</tt:WSPausableSubscriptionManagerInterfaceSupport></tt:Events>"@, n_0);
    text::lemma_has_before(up_to_5, "</tt:XAddr><tt:WSSubscriptionPolicySupport>false</tt:WSSubscriptionPolicySupport><tt:WSPullPointSupport>true</tt:WSPullPointSupport><tt:WSPausableSubscriptionManagerInterfaceSupport>false</tt:WSPausableSubscriptionManagerInterfaceSupport></tt:Events>"@, n_1);
    let up_to_7 = up_to_6 + imaging_entry(authority, cam_name, caps.has_imaging());
    text::lemma_has_before(up_to_6, imaging_entry(authority, cam_name, caps.has_imaging()), n_0);
    text::lemma_has_before(up_to_6, imaging_entry(authority, cam_name, caps.has_imaging()), n_1);
    text::lemma_has_before(up_to_6, imaging_entry(authority, cam_name, caps.has_imaging()), n_2);
    let up_to_8 = up_to_7 + "<tt:Media><tt:XAddr>"@;
    text::lemma_has_before(up_to_7, "<tt:Media><tt:XAddr>"@, n_0);
    text::lemma_has_before(up_to_7, "<tt:Media><tt:XAddr>"@, n_1);
    text::lemma_has_before(up_to_7, "<tt:Media><tt:XAddr>"@, n_2);
    let up_to_9 = up_to_8 + service_address(authority, cam_name, "media_service"@);
    text::lemma_has_before(up_to_8, service_address(authority, cam_name, "media_service"@), n_0);
    text::lemma_has_before(up_to_8, service_address(authority, cam_name, "media_service"@), n_1);
    text::lemma_has_before(up_to_8, service_address(authority, cam_name, "media_service"@), n_2);
    let up_to_10 = up_to_9 + "</tt:XAddr><tt:StreamingCapabilities><tt:RTPMulticast>false</tt:RTPMulticast><tt:RTP_TCP>true</tt:RTP_TCP><tt:RTP_RTSP_TCP>true</tt:RTP_RTSP_TCP></tt:StreamingCapabilities></tt:Media>"@;
    text::lemma_has_before(up_to_9, "</tt:XAddr><tt:StreamingCapabilities><tt:RTPMulticast>false</tt:RTPMulticast><tt:RTP_TCP>true</tt:RTP_TCP><tt:RTP_RTSP_TCP>true</tt:RTP_RTSP_TCP></tt:StreamingCapabilities></tt:Media>"@, n_0);
    text::lemma_has_before(up_to_9, "</tt:XAddr><tt:StreamingCapabilities><tt:RTPMulticast>false</tt:RTPMulticast><tt:RTP_TCP>true</tt:RTP_TCP><tt:RTP_RTSP_TCP>true</tt:RTP_RTSP_TCP></tt:StreamingCapabilities></tt:Media>"@, n_1);
    text::lemma_has_before(up_to_9, "</tt:XAddr><tt:StreamingCapabilities><tt:RTPMulticast>false</tt:RTPMulticast><tt:RTP_TCP>true</tt:RTP_TCP><tt:RTP_RTSP_TCP>true</tt:RTP_RTSP_TCP></tt:StreamingCapabilities></tt:Media>"@, n_2);
    let up_to_11 = up_to_10 + ptz_entry(authority, cam_name, caps.has_ptz());
    text::lemma_has_before(up_to_10, ptz_entry(authority, cam_name, caps.has_ptz()), n_0);
    text::lemma_has_before(up_to_10, ptz_entry(authority, cam_name, caps.has_ptz()), n_1);
    text::lemma_has_before(up_to_10, ptz_entry(authority, cam_name, caps.has_ptz()), n_2);
    let up_to_12 = up_to_11 + "</tds:Capabilities></tds:GetCapabilitiesResponse>"@;
    text::lemma_has_before(up_to_11, "</tds:Capabilities></tds:GetCapabilitiesResponse>"@, n_0);
    text::lemma_has_before(up_to_11, "</tds:Capabilities></tds:GetCapabilitiesResponse>"@, n_1);
    text::lemma_has_before(up_to_11, "</tds:Capabilities></tds:GetCapabilitiesResponse>"@, n_2);
    assert(up_to_12 == capabilities_xml(authority, cam_name, caps));
}

/// The capabilities list the media service, and imaging and PTZ for a camera that has
/// something to set, or that moves.
pub proof fn law_capabilities_follow_the_camera(
    authority: Seq<char>,
    cam_name: Seq<char>,
    caps: CameraCapabilities,
)
    ensures
        text::has(capabilities_xml(authority, cam_name, caps), "</tt:Events>"@ + imaging_entry(authority, cam_name, caps.has_imaging()) + "<tt:Media><tt:XAddr>"@),
        text::has(capabilities_xml(authority, cam_name, caps), "<tt:Media><tt:XAddr>"@ + ("http://"@ + authority + "/onvif/"@ + state::path_segment(cam_name) + "/"@ + "media_service"@) + "</tt:XAddr>"@),
        text::has(capabilities_xml(authority, cam_name, caps), "</tt:Media>"@ + ptz_entry(authority, cam_name, caps.has_ptz()) + "</tds:Capabilities>"@),
        imaging_entry(authority, cam_name, true) == "<tt:Imaging><tt:XAddr>http://"@ + authority
            + "/onvif/"@ + state::path_segment(cam_name)
            + "/imaging_service</tt:XAddr></tt:Imaging>"@,
        ptz_entry(authority, cam_name, true) == "<tt:PTZ><tt:XAddr>http://"@ + authority
            + "/onvif/"@ + state::path_segment(cam_name) + "/ptz_service</tt:XAddr></tt:PTZ>"@,
        imaging_entry(authority, cam_name, false).len() == 0,
        ptz_entry(authority, cam_name, false).len() == 0,
{
    assert(text::has(capabilities_xml(authority, cam_name, caps), "</tt:Events>"@ + imaging_entry(authority, cam_name, caps.has_imaging()) + "<tt:Media><tt:XAddr>"@)) by {
        reveal_strlit("<tt:Media><tt:XAddr>");
        reveal_strlit("</tt:Events>");
        reveal_strlit("</tt:XAddr><tt:WSSubscriptionPolicySupport>false</tt:WSSubscriptionPolicySupport><tt:WSPullPointSupport>true</tt:WSPullPointSupport><tt:WSPausableSubscriptionManagerInterfaceSupport>false</tt:WSPausableSubscriptionManagerInterfaceSupport></tt:Events>");
        assert("</tt:XAddr><tt:WSSubscriptionPolicySupport>false</tt:WSSubscriptionPolicySupport><tt:WSPullPointSupport>true</tt:WSPullPointSupport><tt:WSPausableSubscriptionManagerInterfaceSupport>false</tt:WSPausableSubscriptionManagerInterfaceSupport></tt:Events>"@.skip(238) =~= "</tt:Events>"@);
        assert("<tt:Media><tt:XAddr>"@.take(20) =~= "<tt:Media><tt:XAddr>"@);
        let head = "<tds:GetCapabilitiesResponse><tds:Capabilities><tt:Device><tt:XAddr>"@ + service_address(authority, cam_name, "device_service"@) + "</tt:XAddr><tt:Network><tt:IPFilter>false</tt:IPFilter><tt:ZeroConfiguration>false</tt:ZeroConfiguration><tt:IPVersion6>false</tt:IPVersion6><tt:DynDNS>false</tt:DynDNS></tt:Network><tt:System><tt:DiscoveryResolve>false</tt:DiscoveryResolve><tt:DiscoveryBye>true</tt:DiscoveryBye><tt:RemoteDiscovery>false</tt:RemoteDiscovery><tt:SystemBackup>false</tt:SystemBackup><tt:SystemLogging>false</tt:SystemLogging><tt:FirmwareUpgrade>false</tt:FirmwareUpgrade></tt:System><tt:IO><tt:InputConnectors>0</tt:InputConnectors><tt:RelayOutputs>"@ + text::decimal(offered_relays(caps).len()) + "</tt:RelayOutputs></tt:IO></tt:Device><tt:Events><tt:XAddr>"@ + service_address(authority, cam_name, "events_service"@);
        let tail = service_address(authority, cam_name, "media_service"@) + "</tt:XAddr><tt:StreamingCapabilities><tt:RTPMulticast>false</tt:RTPMulticast><tt:RTP_TCP>true</tt:RTP_TCP><tt:RTP_RTSP_TCP>true</tt:RTP_RTSP_TCP></tt:StreamingCapabilities></tt:Media>"@ + ptz_entry(authority, cam_name, caps.has_ptz()) + "</tds:Capabilities></tds:GetCapabilitiesResponse>"@;
        let value = imaging_entry(authority, cam_name, caps.has_imaging());
        assert(capabilities_xml(authority, cam_name, caps) =~= head + "</tt:XAddr><tt:WSSubscriptionPolicySupport>false</tt:WSSubscriptionPolicySupport><tt:WSPullPointSupport>true</tt:WSPullPointSupport><tt:WSPausableSubscriptionManagerInterfaceSupport>false</tt:WSPausableSubscriptionManagerInterfaceSupport></tt:Events>"@ + value + "<tt:Media><tt:XAddr>"@ + tail);
        text::lemma_has_tagged(head, "</tt:XAddr><tt:WSSubscriptionPolicySupport>false</tt:WSSubscriptionPolicySupport><tt:WSPullPointSupport>true</tt:WSPullPointSupport><tt:WSPausableSubscriptionManagerInterfaceSupport>false</tt:WSPausableSubscriptionManagerInterfaceSupport></tt:Events>"@, value, "<tt:Media><tt:XAddr>"@, tail, "</tt:Events>"@, "<tt:Media><tt:XAddr>"@);
    }
    assert(text::has(capabilities_xml(authority, cam_name, caps), "<tt:Media><tt:XAddr>"@ + ("http://"@ + authority + "/onvif/"@ + state::path_segment(cam_name) + "/"@ + "media_service"@) + "</tt:XAddr>"@)) by {
        reveal_strlit("<tt:Media><tt:XAddr>");
        reveal_strlit("</tt:XAddr><tt:StreamingCapabilities><tt:RTPMulticast>false</tt:RTPMulticast><tt:RTP_TCP>true</tt:RTP_TCP><tt:RTP_RTSP_TCP>true</tt:RTP_RTSP_TCP></tt:StreamingCapabilities></tt:Media>");
        reveal_strlit("</tt:XAddr>");
        assert("<tt:Media><tt:XAddr>"@.skip(0) =~= "<tt:Media><tt:XAddr>"@);
        assert("</tt:XAddr><tt:StreamingCapabilities><tt:RTPMulticast>false</tt:RTPMulticast><tt:RTP_TCP>true</tt:RTP_TCP><tt:RTP_RTSP_TCP>true</tt:RTP_RTSP_TCP></tt:StreamingCapabilities></tt:Media>"@.take(11) =~= "</tt:XAddr>"@);
        let head = "<tds:GetCapabilitiesResponse><tds:Capabilities><tt:Device><tt:XAddr>"@ + service_address(authority, cam_name, "device_service"@) + "</tt:XAddr><tt:Network><tt:IPFilter>false</tt:IPFilter><tt:ZeroConfiguration>false</tt:ZeroConfiguration><tt:IPVersion6>false</tt:IPVersion6><tt:DynDNS>false</tt:DynDNS></tt:Network><tt:System><tt:DiscoveryResolve>false</tt:DiscoveryResolve><tt:DiscoveryBye>true</tt:DiscoveryBye><tt:RemoteDiscovery>false</tt:RemoteDiscovery><tt:SystemBackup>false</tt:SystemBackup><tt:SystemLogging>false</tt:SystemLogging><tt:FirmwareUpgrade>false</tt:FirmwareUpgrade></tt:System><tt:IO><tt:InputConnectors>0</tt:InputConnectors><tt:RelayOutputs>"@ + text::decimal(offered_relays(caps).len()) + "</tt:RelayOutputs></tt:IO></tt:Device><tt:Events><tt:XAddr>"@ + service_address(authority, cam_name, "events_service"@) + "</tt:XAddr><tt:WSSubscriptionPolicySupport>false</tt:WSSubscriptionPolicySupport><tt:WSPullPointSupport>true</tt:WSPullPointSupport><tt:WSPausableSubscriptionManagerInterfaceSupport>false</tt:WSPausableSubscriptionManagerInterfaceSupport></tt:Events>"@ + imaging_entry(authority, cam_name, caps.has_imaging());
        let tail = ptz_entry(authority, cam_name, caps.has_ptz()) + "</tds:Capabilities></tds:GetCapabilitiesResponse>"@;
        let value = service_address(authority, cam_name, "media_service"@);
        assert(capabilities_xml(authority, cam_name, caps) =~= head + "<tt:Media><tt:XAddr>"@ + value + "</tt:XAddr><tt:StreamingCapabilities><tt:RTPMulticast>false</tt:RTPMulticast><tt:RTP_TCP>true</tt:RTP_TCP><tt:RTP_RTSP_TCP>true</tt:RTP_RTSP_TCP></tt:StreamingCapabilities></tt:Media>"@ + tail);
        text::lemma_has_tagged(head, "<tt:Media><tt:XAddr>"@, value, "</tt:XAddr><tt:StreamingCapabilities><tt:RTPMulticast>false</tt:RTPMulticast><tt:RTP_TCP>true</tt:RTP_TCP><tt:RTP_RTSP_TCP>true</tt:RTP_RTSP_TCP></tt:StreamingCapabilities></tt:Media>"@, tail, "<tt:Media><tt:XAddr>"@, "</tt:XAddr>"@);
    }
    assert(text::has(capabilities_xml(authority, cam_name, caps), "</tt:Media>"@ + ptz_entry(authority, cam_name, caps.has_ptz()) + "</tds:Capabilities>"@)) by {
        reveal_strlit("</tds:Capabilities>");
        reveal_strlit("</tds:Capabilities></tds:GetCapabilitiesResponse>");
        reveal_strlit("</tt:XAddr><tt:StreamingCapabilities><tt:RTPMulticast>false</tt:RTPMulticast><tt:RTP_TCP>true</tt:RTP_TCP><tt:RTP_RTSP_TCP>true</tt:RTP_RTSP_TCP></tt:StreamingCapabilities></tt:Media>");
        reveal_strlit("</tt:Media>");
        assert("</tt:XAddr><tt:StreamingCapabilities><tt:RTPMulticast>false</tt:RTPMulticast><tt:RTP_TCP>true</tt:RTP_TCP><tt:RTP_RTSP_TCP>true</tt:RTP_RTSP_TCP></tt:StreamingCapabilities></tt:Media>"@.skip(172) =~= "</tt:Media>"@);
        assert("</tds:Capabilities></tds:GetCapabilitiesResponse>"@.take(19) =~= "</tds:Capabilities>"@);
        let head = "<tds:GetCapabilitiesResponse><tds:Capabilities><tt:Device><tt:XAddr>"@ + service_address(authority, cam_name, "device_service"@) + "</tt:XAddr><tt:Network><tt:IPFilter>false</tt:IPFilter><tt:ZeroConfiguration>false</tt:ZeroConfiguration><tt:IPVersion6>false</tt:IPVersion6><tt:DynDNS>false</tt:DynDNS></tt:Network><tt:System><tt:DiscoveryResolve>false</tt:DiscoveryResolve><tt:DiscoveryBye>true</tt:DiscoveryBye><tt:RemoteDiscovery>false</tt:RemoteDiscovery><tt:SystemBackup>false</tt:SystemBackup><tt:SystemLogging>false</tt:SystemLogging><tt:FirmwareUpgrade>false</tt:FirmwareUpgrade></tt:System><tt:IO><tt:InputConnectors>0</tt:InputConnectors><tt:RelayOutputs>"@ + text::decimal(offered_relays(caps).len()) + "</tt:RelayOutputs></tt:IO></tt:Device><tt:Events><tt:XAddr>"@ + service_address(authority, cam_name, "events_service"@) + "</tt:XAddr><tt:WSSubscriptionPolicySupport>false</tt:WSSubscriptionPolicySupport><tt:WSPullPointSupport>true</tt:WSPullPointSupport><tt:WSPausableSubscriptionManagerInterfaceSupport>false</tt:WSPausableSubscriptionManagerInterfaceSupport></tt:Events>"@ + imaging_entry(authority, cam_name, caps.has_imaging()) + "<tt:Media><tt:XAddr>"@ + service_address(authority, cam_name, "media_service"@);
        let tail = Seq::<char>::empty();
        let value = ptz_entry(authority, cam_name, caps.has_ptz());
        assert(capabilities_xml(authority, cam_name, caps) =~= head + "</tt:XAddr><tt:StreamingCapabilities><tt:RTPMulticast>false</tt:RTPMulticast><tt:RTP_TCP>true</tt:RTP_TCP><tt:RTP_RTSP_TCP>true</tt:RTP_RTSP_TCP></tt:StreamingCapabilities></tt:Media>"@ + value + "</tds:Capabilities></tds:GetCapabilitiesResponse>"@ + tail);
        text::lemma_has_tagged(head, "</tt:XAddr><tt:StreamingCapabilities><tt:RTPMulticast>false</tt:RTPMulticast><tt:RTP_TCP>true</tt:RTP_TCP><tt:RTP_RTSP_TCP>true</tt:RTP_RTSP_TCP></tt:StreamingCapabilities></tt:Media>"@, value, "</tds:Capabilities></tds:GetCapabilitiesResponse>"@, tail, "</tt:Media>"@, "</tds:Capabilities>"@);
    }
    {
        reveal_strlit("<tt:Imaging><tt:XAddr>http://");
        reveal_strlit("<tt:Imaging><tt:XAddr>");
        reveal_strlit("http://");
        reveal_strlit("/imaging_service</tt:XAddr></tt:Imaging>");
        reveal_strlit("/");
        reveal_strlit("imaging_service");
        reveal_strlit("</tt:XAddr></tt:Imaging>");
        assert(imaging_entry(authority, cam_name, true)
            =~= "<tt:Imaging><tt:XAddr>http://"@ + authority + "/onvif/"@ + state::path_segment(
            cam_name,
        ) + "/imaging_service</tt:XAddr></tt:Imaging>"@);
        reveal_strlit("<tt:PTZ><tt:XAddr>http://");
        reveal_strlit("<tt:PTZ><tt:XAddr>");
        reveal_strlit("/ptz_service</tt:XAddr></tt:PTZ>");
        reveal_strlit("ptz_service");
        reveal_strlit("</tt:XAddr></tt:PTZ>");
        assert(ptz_entry(authority, cam_name, true) =~= "<tt:PTZ><tt:XAddr>http://"@ + authority
            + "/onvif/"@ + state::path_segment(cam_name) + "/ptz_service</tt:XAddr></tt:PTZ>"@);
    }
}

/// Each service is listed with its own namespace and its own address.
pub proof fn law_services_have_addresses_of_their_own(
    authority: Seq<char>,
    cam_name: Seq<char>,
    caps: CameraCapabilities,
)
    ensures
        text::has(services_xml(authority, cam_name, caps), "<tds:Namespace>http://www.onvif.org/ver10/device/wsdl</tds:Namespace><tds:XAddr>"@ + ("http://"@ + authority + "/onvif/"@ + state::path_segment(cam_name) + "/"@ + "device_service"@) + "</tds:XAddr>"@),
        text::has(services_xml(authority, cam_name, caps), "<tds:Namespace>http://www.onvif.org/ver10/media/wsdl</tds:Namespace><tds:XAddr>"@ + ("http://"@ + authority + "/onvif/"@ + state::path_segment(cam_name) + "/"@ + "media_service"@) + "</tds:XAddr>"@),
        text::has(services_xml(authority, cam_name, caps), "<tds:Namespace>http://www.onvif.org/ver10/events/wsdl</tds:Namespace><tds:XAddr>"@ + ("http://"@ + authority + "/onvif/"@ + state::path_segment(cam_name) + "/"@ + "events_service"@) + "</tds:XAddr>"@),
{
    assert(text::has(services_xml(authority, cam_name, caps), "<tds:Namespace>http://www.onvif.org/ver10/device/wsdl</tds:Namespace><tds:XAddr>"@ + ("http://"@ + authority + "/onvif/"@ + state::path_segment(cam_name) + "/"@ + "device_service"@) + "</tds:XAddr>"@)) by {
        reveal_strlit("<tds:Namespace>http://www.onvif.org/ver10/device/wsdl</tds:Namespace><tds:XAddr>");
        reveal_strlit("</tds:XAddr>");
        reveal_strlit("</tds:XAddr><tds:Version><tt:Major>2</tt:Major><tt:Minor>5</tt:Minor></tds:Version></tds:Service><tds:Service><tds:Namespace>http://www.onvif.org/ver10/media/wsdl</tds:Namespace><tds:XAddr>");
        reveal_strlit("<tds:GetServicesResponse><tds:Service><tds:Namespace>http://www.onvif.org/ver10/device/wsdl</tds:Namespace><tds:XAddr>");
        assert("<tds:GetServicesResponse><tds:Service><tds:Namespace>http://www.onvif.org/ver10/device/wsdl</tds:Namespace><tds:XAddr>"@.skip(38) =~= "<tds:Namespace>http://www.onvif.org/ver10/device/wsdl</tds:Namespace><tds:XAddr>"@);
        assert("</tds:XAddr><tds:Version><tt:Major>2</tt:Major><tt:Minor>5</tt:Minor></tds:Version></tds:Service><tds:Service><tds:Namespace>http://www.onvif.org/ver10/media/wsdl</tds:Namespace><tds:XAddr>"@.take(12) =~= "</tds:XAddr>"@);
        let head = Seq::<char>::empty();
        let tail = service_address(authority, cam_name, "media_service"@) + "</tds:XAddr><tds:Version><tt:Major>2</tt:Major><tt:Minor>5</tt:Minor></tds:Version></tds:Service><tds:Service><tds:Namespace>http://www.onvif.org/ver10/events/wsdl</tds:Namespace><tds:XAddr>"@ + service_address(authority, cam_name, "events_service"@) + "</tds:XAddr><tds:Version><tt:Major>2</tt:Major><tt:Minor>5</tt:Minor></tds:Version></tds:Service>"@ + imaging_service_entry(authority, cam_name, caps.has_imaging()) + ptz_service_entry(authority, cam_name, caps.has_ptz()) + "</tds:GetServicesResponse>"@;
        let value = service_address(authority, cam_name, "device_service"@);
        assert(services_xml(authority, cam_name, caps) =~= head + "<tds:GetServicesResponse><tds:Service><tds:Namespace>http://www.onvif.org/ver10/device/wsdl</tds:Namespace><tds:XAddr>"@ + value + "</tds:XAddr><tds:Version><tt:Major>2</tt:Major><tt:Minor>5</tt:Minor></tds:Version></tds:Service><tds:Service><tds:Namespace>http://www.onvif.org/ver10/media/wsdl</tds:Namespace><tds:XAddr>"@ + tail);
        text::lemma_has_tagged(head, "<tds:GetServicesResponse><tds:Service><tds:Namespace>http://www.onvif.org/ver10/device/wsdl</tds:Namespace><tds:XAddr>"@, value, "</tds:XAddr><tds:Version><tt:Major>2</tt:Major><tt:Minor>5</tt:Minor></tds:Version></tds:Service><tds:Service><tds:Namespace>http://www.onvif.org/ver10/media/wsdl</tds:Namespace><tds:XAddr>"@, tail, "<tds:Namespace>http://www.onvif.org/ver10/device/wsdl</tds:Namespace><tds:XAddr>"@, "</tds:XAddr>"@);
    }
    assert(text::has(services_xml(authority, cam_name, caps), "<tds:Namespace>http://www.onvif.org/ver10/media/wsdl</tds:Namespace><tds:XAddr>"@ + ("http://"@ + authority + "/onvif/"@ + state::path_segment(cam_name) + "/"@ + "media_service"@) + "</tds:XAddr>"@)) by {
        reveal_strlit("</tds:XAddr>");
        reveal_strlit("<tds:Namespace>http://www.onvif.org/ver10/media/wsdl</tds:Namespace><tds:XAddr>");
        reveal_strlit("</tds:XAddr><tds:Version><tt:Major>2</tt:Major><tt:Minor>5</tt:Minor></tds:Version></tds:Service><tds:Service><tds:Namespace>http://www.onvif.org/ver10/media/wsdl</tds:Namespace><tds:XAddr>");
        reveal_strlit("</tds:XAddr><tds:Version><tt:Major>2</tt:Major><tt:Minor>5</tt:Minor></tds:Version></tds:Service><tds:Service><tds:Namespace>http://www.onvif.org/ver10/events/wsdl</tds:Namespace><tds:XAddr>");
        assert("</tds:XAddr><tds:Version><tt:Major>2</tt:Major><tt:Minor>5</tt:Minor></tds:Version></tds:Service><tds:Service><tds:Namespace>http://www.onvif.org/ver10/media/wsdl</tds:Namespace><tds:XAddr>"@.skip(110) =~= "<tds:Namespace>http://www.onvif.org/ver10/media/wsdl</tds:Namespace><tds:XAddr>"@);
        assert("</tds:XAddr><tds:Version><tt:Major>2</tt:Major><tt:Minor>5</tt:Minor></tds:Version></tds:Service><tds:Service><tds:Namespace>http://www.onvif.org/ver10/events/wsdl</tds:Namespace><tds:XAddr>"@.take(12) =~= "</tds:XAddr>"@);
        let head = "<tds:GetServicesResponse><tds:Service><tds:Namespace>http://www.onvif.org/ver10/device/wsdl</tds:Namespace><tds:XAddr>"@ + service_address(authority, cam_name, "device_service"@);
        let tail = service_address(authority, cam_name, "events_service"@) + "</tds:XAddr><tds:Version><tt:Major>2</tt:Major><tt:Minor>5</tt:Minor></tds:Version></tds:Service>"@ + imaging_service_entry(authority, cam_name, caps.has_imaging()) + ptz_service_entry(authority, cam_name, caps.has_ptz()) + "</tds:GetServicesResponse>"@;
        let value = service_address(authority, cam_name, "media_service"@);
        assert(services_xml(authority, cam_name, caps) =~= head + "</tds:XAddr><tds:Version><tt:Major>2</tt:Major><tt:Minor>5</tt:Minor></tds:Version></tds:Service><tds:Service><tds:Namespace>http://www.onvif.org/ver10/media/wsdl</tds:Namespace><tds:XAddr>"@ + value + "</tds:XAddr><tds:Version><tt:Major>2</tt:Major><tt:Minor>5</tt:Minor></tds:Version></tds:Service><tds:Service><tds:Namespace>http://www.onvif.org/ver10/events/wsdl</tds:Namespace><tds:XAddr>"@ + tail);
        text::lemma_has_tagged(head, "</tds:XAddr><tds:Version><tt:Major>2</tt:Major><tt:Minor>5</tt:Minor></tds:Version></tds:Service><tds:Service><tds:Namespace>http://www.onvif.org/ver10/media/wsdl</tds:Namespace><tds:XAddr>"@, value, "</tds:XAddr><tds:Version><tt:Major>2</tt:Major><tt:Minor>5</tt:Minor></tds:Version></tds:Service><tds:Service><tds:Namespace>http://www.onvif.org/ver10/events/wsdl</tds:Namespace><tds:XAddr>"@, tail, "<tds:Namespace>http://www.onvif.org/ver10/media/wsdl</tds:Namespace><tds:XAddr>"@, "</tds:XAddr>"@);
    }
    assert(text::has(services_xml(authority, cam_name, caps), "<tds:Namespace>http://www.onvif.org/ver10/events/wsdl</tds:Namespace><tds:XAddr>"@ + ("http://"@ + authority + "/onvif/"@ + state::path_segment(cam_name) + "/"@ + "events_service"@) + "</tds:XAddr>"@)) by {
        reveal_strlit("</tds:XAddr>");
        reveal_strlit("</tds:XAddr><tds:Version><tt:Major>2</tt:Major><tt:Minor>5</tt:Minor></tds:Version></tds:Service>");
        reveal_strlit("</tds:XAddr><tds:Version><tt:Major>2</tt:Major><tt:Minor>5</tt:Minor></tds:Version></tds:Service><tds:Service><tds:Namespace>http://www.onvif.org/ver10/events/wsdl</tds:Namespace><tds:XAddr>");
        reveal_strlit("<tds:Namespace>http://www.onvif.org/ver10/events/wsdl</tds:Namespace><tds:XAddr>");
        assert("</tds:XAddr><tds:Version><tt:Major>2</tt:Major><tt:Minor>5</tt:Minor></tds:Version></tds:Service><tds:Service><tds:Namespace>http://www.onvif.org/ver10/events/wsdl</tds:Namespace><tds:XAddr>"@.skip(110) =~= "<tds:Namespace>http://www.onvif.org/ver10/events/wsdl</tds:Namespace><tds:XAddr>"@);
        assert("</tds:XAddr><tds:Version><tt:Major>2</tt:Major><tt:Minor>5</tt:Minor></tds:Version></tds:Service>"@.take(12) =~= "</tds:XAddr>"@);
        let head = "<tds:GetServicesResponse><tds:Service><tds:Namespace>http://www.onvif.org/ver10/device/wsdl</tds:Namespace><tds:XAddr>"@ + service_address(authority, cam_name, "device_service"@) + "</tds:XAddr><tds:Version><tt:Major>2</tt:Major><tt:Minor>5</tt:Minor></tds:Version></tds:Service><tds:Service><tds:Namespace>http://www.onvif.org/ver10/media/wsdl</tds:Namespace><tds:XAddr>"@ + service_address(authority, cam_name, "media_service"@);
        let tail = imaging_service_entry(authority, cam_name, caps.has_imaging()) + ptz_service_entry(authority, cam_name, caps.has_ptz()) + "</tds:GetServicesResponse>"@;
        let value = service_address(authority, cam_name, "events_service"@);
        assert(services_xml(authority, cam_name, caps) =~= head + "</tds:XAddr><tds:Version><tt:Major>2</tt:Major><tt:Minor>5</tt:Minor></tds:Version></tds:Service><tds:Service><tds:Namespace>http://www.onvif.org/ver10/events/wsdl</tds:Namespace><tds:XAddr>"@ + value + "</tds:XAddr><tds:Version><tt:Major>2</tt:Major><tt:Minor>5</tt:Minor></tds:Version></tds:Service>"@ + tail);
        text::lemma_has_tagged(head, "</tds:XAddr><tds:Version><tt:Major>2</tt:Major><tt:Minor>5</tt:Minor></tds:Version></tds:Service><tds:Service><tds:Namespace>http://www.onvif.org/ver10/events/wsdl</tds:Namespace><tds:XAddr>"@, value, "</tds:XAddr><tds:Version><tt:Major>2</tt:Major><tt:Minor>5</tt:Minor></tds:Version></tds:Service>"@, tail, "<tds:Namespace>http://www.onvif.org/ver10/events/wsdl</tds:Namespace><tds:XAddr>"@, "</tds:XAddr>"@);
    }
}

/// A network interface shows the address that was made for the device and the host's.
pub proof fn law_interfaces_show_their_addresses(uuid: Seq<u8>, host: Seq<char>)
    ensures
        text::has(network_interfaces(uuid, host), "<tt:HwAddress>"@ + mac_of(uuid) + "</tt:HwAddress>"@),
        text::has(network_interfaces(uuid, host), "<tt:Address>"@ + soap::escaped(host) + "</tt:Address>"@),
{
    {
        reveal_strlit("<tt:HwAddress>");
        reveal_strlit("</tt:HwAddress>");
        reveal_strlit("</tt:HwAddress><tt:MTU>1500</tt:MTU></tt:Info><tt:IPv4><tt:Enabled>true</tt:Enabled><tt:Config><tt:Manual><tt:Address>");
        reveal_strlit("<tds:GetNetworkInterfacesResponse><tds:NetworkInterfaces token=\"neolink0\"><tt:Enabled>true</tt:Enabled><tt:Info><tt:Name>neolink0</tt:Name><tt:HwAddress>");
        assert("<tds:GetNetworkInterfacesResponse><tds:NetworkInterfaces token=\"neolink0\"><tt:Enabled>true</tt:Enabled><tt:Info><tt:Name>neolink0</tt:Name><tt:HwAddress>"@.skip(139) =~= "<tt:HwAddress>"@);
        assert("</tt:HwAddress><tt:MTU>1500</tt:MTU></tt:Info><tt:IPv4><tt:Enabled>true</tt:Enabled><tt:Config><tt:Manual><tt:Address>"@.take(15) =~= "</tt:HwAddress>"@);
        let head = Seq::<char>::empty();
        let tail = soap::escaped(host) + "</tt:Address><tt:PrefixLength>24</tt:PrefixLength></tt:Manual><tt:DHCP>false</tt:DHCP></tt:Config></tt:IPv4></tds:NetworkInterfaces></tds:GetNetworkInterfacesResponse>"@;
        let value = mac_of(uuid);
        assert(network_interfaces(uuid, host) =~= head + "<tds:GetNetworkInterfacesResponse><tds:NetworkInterfaces token=\"neolink0\"><tt:Enabled>true</tt:Enabled><tt:Info><tt:Name>neolink0</tt:Name><tt:HwAddress>"@ + value + "</tt:HwAddress><tt:MTU>1500</tt:MTU></tt:Info><tt:IPv4><tt:Enabled>true</tt:Enabled><tt:Config><tt:Manual><tt:Address>"@ + tail);
        text::lemma_has_tagged(head, "<tds:GetNetworkInterfacesResponse><tds:NetworkInterfaces token=\"neolink0\"><tt:Enabled>true</tt:Enabled><tt:Info><tt:Name>neolink0</tt:Name><tt:HwAddress>"@, value, "</tt:HwAddress><tt:MTU>1500</tt:MTU></tt:Info><tt:IPv4><tt:Enabled>true</tt:Enabled><tt:Config><tt:Manual><tt:Address>"@, tail, "<tt:HwAddress>"@, "</tt:HwAddress>"@);
    }
    {
        reveal_strlit("</tt:Address><tt:PrefixLength>24</tt:PrefixLength></tt:Manual><tt:DHCP>false</tt:DHCP></tt:Config></tt:IPv4></tds:NetworkInterfaces></tds:GetNetworkInterfacesResponse>");
        reveal_strlit("</tt:HwAddress><tt:MTU>1500</tt:MTU></tt:Info><tt:IPv4><tt:Enabled>true</tt:Enabled><tt:Config><tt:Manual><tt:Address>");
        reveal_strlit("</tt:Address>");
        reveal_strlit("<tt:Address>");
        assert("</tt:HwAddress><tt:MTU>1500</tt:MTU></tt:Info><tt:IPv4><tt:Enabled>true</tt:Enabled><tt:Config><tt:Manual><tt:Address>"@.skip(106) =~= "<tt:Address>"@);
        assert("</tt:Address><tt:PrefixLength>24</tt:PrefixLength></tt:Manual><tt:DHCP>false</tt:DHCP></tt:Config></tt:IPv4></tds:NetworkInterfaces></tds:GetNetworkInterfacesResponse>"@.take(13) =~= "</tt:Address>"@);
        let head = "<tds:GetNetworkInterfacesResponse><tds:NetworkInterfaces token=\"neolink0\"><tt:Enabled>true</tt:Enabled><tt:Info><tt:Name>neolink0</tt:Name><tt:HwAddress>"@ + mac_of(uuid);
        let tail = Seq::<char>::empty();
        let value = soap::escaped(host);
        assert(network_interfaces(uuid, host) =~= head + "</tt:HwAddress><tt:MTU>1500</tt:MTU></tt:Info><tt:IPv4><tt:Enabled>true</tt:Enabled><tt:Config><tt:Manual><tt:Address>"@ + value + "</tt:Address><tt:PrefixLength>24</tt:PrefixLength></tt:Manual><tt:DHCP>false</tt:DHCP></tt:Config></tt:IPv4></tds:NetworkInterfaces></tds:GetNetworkInterfacesResponse>"@ + tail);
        text::lemma_has_tagged(head, "</tt:HwAddress><tt:MTU>1500</tt:MTU></tt:Info><tt:IPv4><tt:Enabled>true</tt:Enabled><tt:Config><tt:Manual><tt:Address>"@, value, "</tt:Address><tt:PrefixLength>24</tt:PrefixLength></tt:Manual><tt:DHCP>false</tt:DHCP></tt:Config></tt:IPv4></tds:NetworkInterfaces></tds:GetNetworkInterfacesResponse>"@, tail, "<tt:Address>"@, "</tt:Address>"@);
    }
}

/// Each operation is answered with what it is named after.
pub proof fn law_operations_are_answered_by_name(
    f: DeviceFacts,
    action: Seq<char>,
    body_xml: Seq<char>,
)
    ensures
        ({
            let answer = device_answer(f, action, body_xml);
            let says = |body: Seq<char>|
                Ok::<DeviceAnswerView, FaultView>(
                    DeviceAnswerView { command: None, xml: soap::envelope(body, soap::NS_ALL@) },
                );
            &&& action == "GetDeviceInformation"@ ==> answer == says(information_of(f.version))
            &&& action == "GetSystemDateAndTime"@ ==> answer == says(date_and_time(f.clock, f.now))
            &&& action == "GetScopes"@ ==> answer == says(scopes_xml(f))
            &&& action == "GetRelayOutputs"@ ==> answer == says(
                "<tds:GetRelayOutputsResponse>"@ + relays_xml(offered_relays(f.caps))
                    + "</tds:GetRelayOutputsResponse>"@,
            )
            &&& action == "GetRelayOutputOptions"@ ==> answer == says(
                "<tds:GetRelayOutputOptionsResponse>"@ + relays_options_xml(offered_relays(f.caps))
                    + "</tds:GetRelayOutputOptionsResponse>"@,
            )
            &&& action == "GetEndpointReference"@ ==> answer == says(
                "<tds:GetEndpointReferenceResponse><tds:GUID>urn:uuid:"@ + state::uuid_text(
                    f.uuid.bytes@,
                ) + "</tds:GUID></tds:GetEndpointReferenceResponse>"@,
            )
            &&& action == "GetHostname"@ ==> answer == says(
                "<tds:GetHostnameResponse><tds:HostnameInformation><tt:FromDHCP>false</tt:FromDHCP><tt:Name>"@
                    + soap::escaped(f.cam_name@)
                    + "</tt:Name></tds:HostnameInformation></tds:GetHostnameResponse>"@,
            )
            &&& action == "GetUsers"@ ==> answer == says(
                "<tds:GetUsersResponse>"@ + users_xml(
                    listed_users(f.users.entries@, state::users_view(*f.permitted_users)),
                ) + "</tds:GetUsersResponse>"@,
            )
            &&& action == "SystemReboot"@ ==> (answer matches Ok(a) && a.command == Some(
                DeviceCommand::Reboot,
            ))
            &&& action == "SetSystemDateAndTime"@ ==> answer == clock_answer(clock_fields(body_xml))
            &&& (action == "GetCapabilities"@ && f.authority is Ok) ==> answer == says(
                capabilities_xml(f.authority->Ok_0@, f.cam_name@, f.caps),
            )
            &&& (action == "GetServices"@ && f.authority is Ok) ==> answer == says(
                services_xml(f.authority->Ok_0@, f.cam_name@, f.caps),
            )
            &&& (action == "GetNetworkInterfaces"@ && f.host is Ok) ==> answer == says(
                network_interfaces(f.uuid.bytes@, f.host->Ok_0@),
            )
        }),
{
    lemma_actions();
}

/// Only a reboot that is asked for reboots, and only a clock that is set is set.
pub proof fn law_commands_come_from_their_operations(
    f: DeviceFacts,
    action: Seq<char>,
    body_xml: Seq<char>,
)
    ensures
        device_answer(f, action, body_xml) matches Ok(a) ==> match a.command {
            Some(DeviceCommand::Reboot) => action == "SystemReboot"@,
            Some(DeviceCommand::SetClock(_)) => action == "SetSystemDateAndTime"@,
            Some(_) => action == "SetRelayOutputState"@,
            None => true,
        },
{
    lemma_actions();
}

/// What is not a letter, a digit or a hyphen is an underscore in a scope.
pub proof fn law_scopes_hold_plain_characters(s: Seq<char>, i: int)
    requires
        0 <= i < s.len(),
    ensures
        scope_text(s).len() == s.len(),
        ('a' <= s[i] <= 'z' || 'A' <= s[i] <= 'Z' || '0' <= s[i] <= '9' || s[i] == '-')
            ==> scope_text(s)[i] == s[i],
        !('a' <= s[i] <= 'z' || 'A' <= s[i] <= 'Z' || '0' <= s[i] <= '9' || s[i] == '-')
            ==> scope_text(s)[i] == '_',
{
}

/// Users are listed one behind the other, by name, as administrators; and so are relays.
pub proof fn law_lists_go_entry_by_entry(
    names: Seq<Seq<char>>,
    name: Seq<char>,
    relays: Seq<RelayView>,
    r: RelayView,
)
    ensures
        users_xml(names.push(name)) == users_xml(names) + ("<tds:User><tt:Username>"@
            + soap::escaped(name)
            + "</tt:Username><tt:UserLevel>Administrator</tt:UserLevel></tds:User>"@),
        relays_xml(relays.push(r)) == relays_xml(relays) + relay_xml(r, "tds:RelayOutputs"@),
        relays_options_xml(relays.push(r)) == relays_options_xml(relays) + relay_options_xml(r),
{
    assert(names.push(name).drop_last() =~= names);
    assert(relays.push(r).drop_last() =~= relays);
}

/// A name comes before another where the first character that differs does, and the
/// shorter of two that agree comes first. What is listed is listed in that order.
pub proof fn law_users_are_listed_in_order(
    before: Seq<char>,
    a: char,
    b: char,
    x: Seq<char>,
    y: Seq<char>,
)
    ensures
        a < b ==> sorts_before(before + seq![a] + x, before + seq![b] + y),
        a > b ==> !sorts_before(before + seq![a] + x, before + seq![b] + y),
        sorts_before(before, before + seq![a] + x),
        !sorts_before(before, before),
    decreases before.len(),
{
    if before.len() == 0 {
        assert((before + seq![a] + x)[0] == a);
        assert((before + seq![b] + y)[0] == b);
    } else {
        law_users_are_listed_in_order(before.drop_first(), a, b, x, y);
        assert((before + seq![a] + x).drop_first() =~= before.drop_first() + seq![a] + x);
        assert((before + seq![b] + y).drop_first() =~= before.drop_first() + seq![b] + y);
        assert((before + seq![a] + x)[0] == before[0]);
        assert((before + seq![b] + y)[0] == before[0]);
    }
}

proof fn lemma_scope_stands(before: Seq<char>, scope: Seq<char>, behind: Seq<char>)
    ensures
        text::has(
            before + scope_xml(scope) + behind,
            "<tt:ScopeItem>"@ + soap::escaped(scope) + "</tt:ScopeItem>"@,
        ),
{
    reveal_strlit("<tt:Scopes><tt:ScopeDef>Fixed</tt:ScopeDef><tt:ScopeItem>");
    reveal_strlit("<tt:ScopeItem>");
    reveal_strlit("</tt:ScopeItem></tt:Scopes>");
    reveal_strlit("</tt:ScopeItem>");
    let first = "<tt:Scopes><tt:ScopeDef>Fixed</tt:ScopeDef><tt:ScopeItem>"@;
    let last = "</tt:ScopeItem></tt:Scopes>"@;
    assert(first.skip(first.len() - 14) =~= "<tt:ScopeItem>"@);
    assert(last.take(15) =~= "</tt:ScopeItem>"@);
    text::lemma_has_tagged(
        before,
        first,
        soap::escaped(scope),
        last,
        behind,
        "<tt:ScopeItem>"@,
        "</tt:ScopeItem>"@,
    );
    assert(before + first + soap::escaped(scope) + last + behind =~= before + scope_xml(scope)
        + behind);
}

/// The scopes name the camera, in plain characters, and say that it moves if it does.
pub proof fn law_scopes_name_the_camera(f: DeviceFacts)
    ensures
        text::has(
            scopes_xml(f),
            "<tt:ScopeItem>"@ + soap::escaped(
                "onvif://www.onvif.org/name/"@ + scope_text(f.cam_name@),
            ) + "</tt:ScopeItem>"@,
        ),
        f.caps.pan_tilt || f.caps.zoom || f.caps.presets ==> text::has(
            scopes_xml(f),
            "<tt:ScopeItem>"@ + soap::escaped("onvif://www.onvif.org/type/ptz"@)
                + "</tt:ScopeItem>"@,
        ),
{
    let head = "<tds:GetScopesResponse>"@ + scope_xml("onvif://www.onvif.org/Profile/Streaming"@)
        + scope_xml("onvif://www.onvif.org/type/video_encoder"@) + scope_xml(
        "onvif://www.onvif.org/type/Network_Video_Transmitter"@,
    ) + scope_xml("onvif://www.onvif.org/location/neolink"@) + scope_xml(
        "onvif://www.onvif.org/hardware/neolink"@,
    );
    let name = "onvif://www.onvif.org/name/"@ + scope_text(f.cam_name@);
    let moves = text::shown_if(f.caps.has_ptz(), scope_xml("onvif://www.onvif.org/type/ptz"@));
    let model = match f.version {
        Some(v) => match v.model {
            Some(m) => scope_xml("onvif://www.onvif.org/hardware/"@ + scope_text(m@)),
            None => Seq::empty(),
        },
        None => Seq::empty(),
    };
    let tail = "</tds:GetScopesResponse>"@;
    lemma_scope_stands(head, name, moves + model + tail);
    assert(head + scope_xml(name) + (moves + model + tail) =~= scopes_xml(f));
    if f.caps.has_ptz() {
        lemma_scope_stands(head + scope_xml(name), "onvif://www.onvif.org/type/ptz"@, model + tail);
        assert(head + scope_xml(name) + scope_xml("onvif://www.onvif.org/type/ptz"@) + (model + tail)
            =~= scopes_xml(f));
    }
}

/// A hardware address is six bytes in base 16 between colons, all but the first as the
/// device's number has them.
pub proof fn law_hardware_addresses_come_from_the_number(uuid: Seq<u8>, i: int)
    requires
        uuid.len() == 16,
        1 <= i < 6,
    ensures
        mac_of(uuid).len() == 17,
        mac_of(uuid)[3 * i] == "0123456789ABCDEF"@[uuid[i] as int / 16],
        mac_of(uuid)[3 * i + 1] == "0123456789ABCDEF"@[uuid[i] as int % 16],
        mac_of(uuid)[3 * i - 1] == ':',
{
    reveal_strlit("0123456789ABCDEF");
    reveal_strlit(":");
    let mac = mac_of(uuid);
    assert(mac.len() == 17);
    if i == 1 {
        assert(mac[3] == upper_hex(uuid[1])[0] && mac[4] == upper_hex(uuid[1])[1] && mac[2] == ':');
    } else if i == 2 {
        assert(mac[6] == upper_hex(uuid[2])[0] && mac[7] == upper_hex(uuid[2])[1] && mac[5] == ':');
    } else if i == 3 {
        assert(mac[9] == upper_hex(uuid[3])[0] && mac[10] == upper_hex(uuid[3])[1] && mac[8]
            == ':');
    } else if i == 4 {
        assert(mac[12] == upper_hex(uuid[4])[0] && mac[13] == upper_hex(uuid[4])[1] && mac[11]
            == ':');
    } else {
        assert(mac[15] == upper_hex(uuid[5])[0] && mac[16] == upper_hex(uuid[5])[1] && mac[14]
            == ':');
    }
}

/// Imaging and PTZ are listed as services, each with its own namespace and address.
pub proof fn law_optional_services_have_addresses_of_their_own(
    authority: Seq<char>,
    cam_name: Seq<char>,
)
    ensures
        ptz_service_entry(authority, cam_name, true)
            == "<tds:Service><tds:Namespace>http://www.onvif.org/ver20/ptz/wsdl</tds:Namespace><tds:XAddr>"@
            + ("http://"@ + authority + "/onvif/"@ + state::path_segment(cam_name) + "/"@
            + "ptz_service"@)
            + "</tds:XAddr><tds:Version><tt:Major>2</tt:Major><tt:Minor>5</tt:Minor></tds:Version></tds:Service>"@,
        imaging_service_entry(authority, cam_name, true)
            == "<tds:Service><tds:Namespace>http://www.onvif.org/ver20/imaging/wsdl</tds:Namespace><tds:XAddr>"@
            + ("http://"@ + authority + "/onvif/"@ + state::path_segment(cam_name) + "/"@
            + "imaging_service"@)
            + "</tds:XAddr><tds:Version><tt:Major>2</tt:Major><tt:Minor>5</tt:Minor></tds:Version></tds:Service>"@,
        ptz_service_entry(authority, cam_name, false).len() == 0,
        imaging_service_entry(authority, cam_name, false).len() == 0,
{
}

/// A clock that was read less than a minute ago has gone on by as many whole seconds as have
/// passed since, and an older one is not used.
pub proof fn law_clocks_keep_ticking_for_a_minute(sample: ClockSample, now: u64)
    requires
        now >= sample.at,
        time::in_calendar(sample.clock.utc as int),
        time::in_calendar(sample.clock.utc + 60),
    ensures
        now - sample.at >= 60_000 ==> remembered(Some(sample), now) is None,
        now - sample.at < 60_000 ==> (remembered(Some(sample), now) matches Some(clock)
            && clock.posix_offset_seconds == sample.clock.posix_offset_seconds && clock.utc
            == sample.clock.utc + (now - sample.at) / 1_000),
        remembered(None, now) is None,
{
}

/// A request that is refused is told why: which operation is not supported, which relay is
/// not known, which state it cannot take, or what a clock needs.
pub proof fn law_device_refusals_say_why(
    f: DeviceFacts,
    action: Seq<char>,
    body_xml: Seq<char>,
    token: Seq<char>,
    logical: Seq<char>,
)
    ensures
        description(f, action) is None && action != "SetSystemDateAndTime"@ && action
            != "SystemReboot"@ && action != "GetCapabilities"@ && action != "GetServices"@ && action
            != "SetRelayOutputState"@ && action != "GetNetworkInterfaces"@ ==> device_answer(
            f,
            action,
            body_xml,
        ) == Err::<DeviceAnswerView, FaultView>(
            fault(
                FaultCode::ActionNotSupported,
                "Device action '"@ + action + "' not supported"@,
            ),
        ),
        asked_state(None) == Err::<bool, FaultView>(
            fault(FaultCode::InvalidArgs, "Missing LogicalState"@),
        ),
        text::trimmed(logical) != "active"@ && text::trimmed(logical) != "inactive"@ ==> asked_state(
            Some(logical),
        ) == Err::<bool, FaultView>(
            fault(
                FaultCode::InvalidArgs,
                "LogicalState must be 'active' or 'inactive', got '"@ + text::trimmed(logical)
                    + "'"@,
            ),
        ),
        !relay_tokens(offered_relays(f.caps)).contains(token) && text::trimmed(logical) == "active"@
            ==> relay_answer(f, Some(token), Some(logical)) == Err::<DeviceAnswerView, FaultView>(
            fault(FaultCode::InvalidArgs, "Unknown relay output token '"@ + token + "'"@),
        ),
        clock_answer(
            ClockFieldsView {
                year: None,
                month: None,
                day: None,
                hour: None,
                minute: None,
                second: None,
            },
        ) == Err::<DeviceAnswerView, FaultView>(
            fault(
                FaultCode::InvalidArgs,
                "SetSystemDateAndTime needs a UTCDateTime (DateTimeType 'Manual')"@,
            ),
        ),
        fault(FaultCode::Other, token) == (FaultView { code: FaultCode::Other, reason: token }),
{
    let tokens = relay_tokens(offered_relays(f.caps));
    text::lemma_place(tokens, token);
    let at = text::place(tokens, token);
    if at < tokens.len() {
        assert(tokens.contains(tokens[at]));
    }
}

} // verus!

//! ONVIF Imaging service.
//!
//! Two controls exist behind it: the IR cut filter, through the infrared
//! illuminator, and the focus motor. A camera with neither gets no Imaging
//! service address at all.

use vstd::prelude::*;
use vstd::string::*;
use crate::camera::LightState;
use crate::onvif::capabilities::CameraCapabilities;
use crate::onvif::services::device;
use crate::onvif::services::device::FaultBody;
use crate::onvif::soap;
use crate::onvif::soap::FaultCode;
use crate::text;
use crate::xml;

verus! {

/// How the ONVIF `IrCutFilter` mode maps onto the state of the infrared
/// illuminator.
///
/// The mapping is inverted: ONVIF describes the filter, which is in place in
/// daylight, and the camera describes the illuminator, which is lit at night.
pub open spec fn led_of(mode: Seq<char>) -> Option<LightState> {
    let value = text::trimmed(mode);
    if text::same_ignoring_ascii_case(value, "ON"@) {
        Some(LightState::Off)
    } else if text::same_ignoring_ascii_case(value, "OFF"@) {
        Some(LightState::On)
    } else if text::same_ignoring_ascii_case(value, "AUTO"@) {
        Some(LightState::Auto)
    } else {
        None
    }
}

/// The inverse, for reporting the current state. Anything that is neither open
/// nor closed is the camera deciding for itself.
pub open spec fn filter_of(state: Seq<char>) -> Seq<char> {
    let value = text::trimmed(state);
    if text::same_ignoring_ascii_case(value, "open"@) {
        "OFF"@
    } else if text::same_ignoring_ascii_case(value, "close"@) {
        "ON"@
    } else {
        "AUTO"@
    }
}

/// How the ONVIF `IrCutFilter` mode maps onto the state of the infrared
/// illuminator.
pub fn ir_cut_filter_to_led(mode: &str) -> (state: Option<LightState>)
    ensures
        state == led_of(mode@),
{
    let value = text::trim(mode);
    if text::same_ignoring_case(value.as_str(), "ON") {
        Some(LightState::Off)
    } else if text::same_ignoring_case(value.as_str(), "OFF") {
        Some(LightState::On)
    } else if text::same_ignoring_case(value.as_str(), "AUTO") {
        Some(LightState::Auto)
    } else {
        None
    }
}

/// The inverse of [`ir_cut_filter_to_led`], for reporting current state.
pub fn led_to_ir_cut_filter(state: &str) -> (mode: &'static str)
    ensures
        mode@ == filter_of(state@),
{
    let value = text::trim(state);
    if text::same_ignoring_case(value.as_str(), "open") {
        "OFF"
    } else if text::same_ignoring_case(value.as_str(), "close") {
        "ON"
    } else {
        "AUTO"
    }
}

/// What a camera calls a state of its illuminator.
pub open spec fn led_word(state: LightState) -> Seq<char> {
    match state {
        LightState::On => "open"@,
        LightState::Off => "close"@,
        LightState::Auto => "auto"@,
    }
}

/// A filter mode that was set is the one that is reported, but for its case and
/// the white space around it.
pub proof fn law_filter_mode_comes_back(mode: Seq<char>)
    requires
        led_of(mode) is Some,
    ensures
        led_of(mode) matches Some(state) && text::same_ignoring_ascii_case(
            filter_of(led_word(state)),
            text::trimmed(mode),
        ),
{
    reveal_strlit("open");
    reveal_strlit("close");
    reveal_strlit("auto");
    assert(text::trimmed("open"@) == "open"@);
    assert(text::trimmed("close"@) == "close"@);
    assert(text::trimmed("auto"@) == "auto"@);
    assert(text::ascii_lower("open"@)[0] == 'o');
    assert(text::ascii_lower("close"@)[0] == 'c');
    assert(text::ascii_lower("auto"@)[0] == 'a');
}

/// Whether a token names the camera's sensor: clients send either the token of
/// the video source or that of its configuration.
pub open spec fn names_sensor(cam_name: Seq<char>, token: Seq<char>) -> bool {
    token == "vsrc_"@ + cam_name || token == "vs_"@ + cam_name
}

/// Accept either the video *source* token or the video source *configuration*
/// token.
pub fn token_matches(cam_name: &str, token: &str) -> (yes: bool)
    ensures
        yes == names_sensor(cam_name@, token@),
{
    text::same(token, text::joined("vsrc_", cam_name).as_str()) || text::same(
        token,
        text::joined("vs_", cam_name).as_str(),
    )
}

/// What is wrong with the token of a request, if anything.
pub open spec fn token_fault(cam_name: Seq<char>, token: Option<Seq<char>>) -> Option<
    device::FaultView,
> {
    match token {
        None => Some(device::fault(FaultCode::InvalidArgs, "Missing VideoSourceToken"@)),
        Some(token) => if names_sensor(cam_name, token) {
            None
        } else {
            Some(
                device::fault(
                    FaultCode::InvalidArgs,
                    "Unknown VideoSourceToken '"@ + token + "'"@,
                ),
            )
        },
    }
}

/// Check the token that a request carries, if it carries one.
pub fn check_token(cam_name: &str, token: Option<String>) -> (result: Result<(), FaultBody>)
    ensures
        (match result {
            Ok(_) => None,
            Err(f) => Some(f@),
        }) == token_fault(cam_name@, text::opt_view(token)),
{
    let token = match token {
        Some(token) => token,
        None => {
            return Err(
                FaultBody {
                    code: FaultCode::InvalidArgs,
                    reason: "Missing VideoSourceToken".to_owned(),
                },
            );
        },
    };
    if !token_matches(cam_name, token.as_str()) {
        return Err(
            device::quoting_fault(
                FaultCode::InvalidArgs,
                "Unknown VideoSourceToken '",
                token.as_str(),
                "'",
            ),
        );
    }
    Ok(())
}

/// Check the token of a request.
pub fn required_token(cam_name: &str, body_xml: &str) -> (result: Result<(), FaultBody>)
    ensures
        (match result {
            Ok(_) => None,
            Err(f) => Some(f@),
        }) == token_fault(cam_name@, xml::first_text(body_xml@, "VideoSourceToken"@)),
{
    check_token(cam_name, xml::read_first_text_element(body_xml, "VideoSourceToken"))
}

/// What a camera says about its focus motor.
#[derive(Clone, Copy, PartialEq, Eq, Structural, Debug)]
pub struct FocusState {
    pub min: u32,
    pub max: u32,
    pub cur: u32,
}

/// What answering a request takes to know.
#[derive(Debug)]
pub struct ImagingFacts<'a> {
    pub cam_name: &'a str,
    pub caps: CameraCapabilities,
    /// The state of the infrared illuminator, if the camera told it.
    pub led_state: Option<&'a str>,
    /// The state of the focus motor, if the camera told it.
    pub focus: Option<FocusState>,
}

/// A move of the focus motor: to a position, or by a distance, as the request
/// writes it.
#[derive(Debug)]
pub struct FocusMove {
    pub relative: bool,
    pub amount: String,
}

/// A move of the focus motor, its text as a sequence.
#[verifier::ext_equal]
pub struct FocusMoveView {
    pub relative: bool,
    pub amount: Seq<char>,
}

impl View for FocusMove {
    type V = FocusMoveView;

    open spec fn view(&self) -> FocusMoveView {
        FocusMoveView { relative: self.relative, amount: self.amount@ }
    }
}

/// Where a `Move` request wants the focus: whether it asks for a continuous
/// move, and the position and the distance it gives.
pub open spec fn focus_wanted(
    continuous: bool,
    position: Option<Seq<char>>,
    distance: Option<Seq<char>>,
) -> Result<FocusMoveView, device::FaultView> {
    if continuous {
        Err(
            device::fault(
                FaultCode::InvalidArgs,
                "Continuous focus moves are not supported: the camera has no way to stop the lens once it is moving"@,
            ),
        )
    } else {
        match position {
            Some(amount) => Ok(FocusMoveView { relative: false, amount }),
            None => match distance {
                Some(amount) => Ok(FocusMoveView { relative: true, amount }),
                None => Err(
                    device::fault(
                        FaultCode::InvalidArgs,
                        "Move needs an Absolute Position or a Relative Distance"@,
                    ),
                ),
            },
        }
    }
}

/// Where a `Move` request wants the focus in its document.
pub open spec fn focus_asked(body_xml: Seq<char>) -> Result<FocusMoveView, device::FaultView> {
    focus_wanted(
        text::has(body_xml, "Continuous"@),
        xml::first_text(body_xml, "Position"@),
        xml::first_text(body_xml, "Distance"@),
    )
}

/// Choose the move that a request asks for. Absolute moves carry the position
/// directly; relative ones are resolved against the current position.
pub fn choose_focus(
    continuous: bool,
    position: Option<String>,
    distance: Option<String>,
) -> (result: Result<FocusMove, FaultBody>)
    ensures
        (match result {
            Ok(m) => Ok(m@),
            Err(f) => Err(f@),
        }) == focus_wanted(continuous, text::opt_view(position), text::opt_view(distance)),
{
    if continuous {
        return Err(
            FaultBody {
                code: FaultCode::InvalidArgs,
                reason: "Continuous focus moves are not supported: the camera has no way to stop the lens once it is moving".to_owned(),
            },
        );
    }
    match position {
        Some(amount) => {
            return Ok(FocusMove { relative: false, amount });
        },
        None => {},
    }
    match distance {
        Some(amount) => {
            return Ok(FocusMove { relative: true, amount });
        },
        None => {},
    }
    Err(
        FaultBody {
            code: FaultCode::InvalidArgs,
            reason: "Move needs an Absolute Position or a Relative Distance".to_owned(),
        },
    )
}

/// Work out where a `Move` request wants the focus.
pub fn focus_target(body_xml: &str) -> (result: Result<FocusMove, FaultBody>)
    ensures
        (match result {
            Ok(m) => Ok(m@),
            Err(f) => Err(f@),
        }) == focus_asked(body_xml@),
{
    choose_focus(
        text::contains(body_xml, "Continuous"),
        xml::read_first_text_element(body_xml, "Position"),
        xml::read_first_text_element(body_xml, "Distance"),
    )
}

/// A move whose amount is no number.
pub open spec fn not_a_number(m: FocusMoveView) -> device::FaultView {
    device::fault(
        FaultCode::InvalidArgs,
        (if m.relative {
            "Distance '"@
        } else {
            "Position '"@
        }) + m.amount + "' is not a number"@,
    )
}

/// The fault for a move whose amount is not a number.
pub fn focus_not_a_number(m: &FocusMove) -> (f: FaultBody)
    ensures
        f@ == not_a_number(m@),
{
    if m.relative {
        device::quoting_fault(
            FaultCode::InvalidArgs,
            "Distance '",
            m.amount.as_str(),
            "' is not a number",
        )
    } else {
        device::quoting_fault(
            FaultCode::InvalidArgs,
            "Position '",
            m.amount.as_str(),
            "' is not a number",
        )
    }
}

/// The fault for a relative move from a position that could not be read.
pub fn focus_position_unknown() -> (f: FaultBody)
    ensures
        f@ == device::fault(
            FaultCode::Other,
            "Could not read the current focus position from the camera"@,
        ),
{
    device::other_fault("Could not read the current focus position from the camera".to_owned())
}

/// What a camera is told to do.
#[derive(Debug)]
pub enum ImagingCommand {
    SetIrLed(LightState),
    Focus(FocusMove),
}

/// A command, its text as a sequence.
pub enum ImagingCommandView {
    SetIrLed(LightState),
    Focus(FocusMoveView),
}

/// What to do and, if it succeeds, what to answer.
#[derive(Debug)]
pub struct ImagingAnswer {
    pub command: Option<ImagingCommand>,
    pub xml: String,
}

/// What to do and to answer, as sequences.
#[verifier::ext_equal]
pub struct ImagingAnswerView {
    pub command: Option<ImagingCommandView>,
    pub xml: Seq<char>,
}

/// What to do and to answer, or a fault, as sequences.
pub open spec fn answer_view(answer: Result<ImagingAnswer, FaultBody>) -> Result<
    ImagingAnswerView,
    device::FaultView,
> {
    match answer {
        Ok(a) => Ok(
            ImagingAnswerView {
                command: match a.command {
                    Some(ImagingCommand::SetIrLed(s)) => Some(ImagingCommandView::SetIrLed(s)),
                    Some(ImagingCommand::Focus(m)) => Some(ImagingCommandView::Focus(m@)),
                    None => None,
                },
                xml: a.xml@,
            },
        ),
        Err(f) => Err(f@),
    }
}

/// An answer, after a command.
pub open spec fn after(command: Option<ImagingCommandView>, body: Seq<char>) -> Result<
    ImagingAnswerView,
    device::FaultView,
> {
    Ok(ImagingAnswerView { command, xml: soap::envelope(body, soap::NS_ALL@) })
}

fn answer_only(body: &str) -> (answer: Result<ImagingAnswer, FaultBody>)
    ensures
        answer_view(answer) == after(None, body@),
{
    Ok(ImagingAnswer { command: None, xml: soap::wrap_envelope(body, soap::NS_ALL) })
}

fn refuse(code: FaultCode, reason: &str) -> (answer: Result<ImagingAnswer, FaultBody>)
    ensures
        answer_view(answer) == Err::<ImagingAnswerView, device::FaultView>(
            device::fault(code, reason@),
        ),
{
    Err(FaultBody { code, reason: reason.to_owned() })
}

/// The state of the illuminator, `auto` if the camera did not tell it.
pub open spec fn led_known(f: ImagingFacts) -> Seq<char> {
    match f.led_state {
        Some(s) => s@,
        None => "auto"@,
    }
}

/// The settings of a camera.
pub open spec fn settings_xml(f: ImagingFacts) -> Seq<char> {
    "<timg:GetImagingSettingsResponse><timg:ImagingSettings>"@ + text::shown_if(
        f.caps.focus,
        "<tt:Focus><tt:AutoFocusMode>MANUAL</tt:AutoFocusMode></tt:Focus>"@,
    ) + (if f.caps.led_ctrl {
        "<tt:IrCutFilter>"@ + filter_of(led_known(f)) + "</tt:IrCutFilter>"@
    } else {
        Seq::empty()
    }) + "</timg:ImagingSettings></timg:GetImagingSettingsResponse>"@
}

fn render_settings(f: &ImagingFacts) -> (out: String)
    ensures
        out@ == settings_xml(*f),
{
    let mut filter = String::new();
    if f.caps.led_ctrl {
        let led: &str = match f.led_state {
            Some(s) => s,
            None => "auto",
        };
        filter = "<tt:IrCutFilter>".to_owned();
        filter.append(led_to_ir_cut_filter(led));
        filter.append("</tt:IrCutFilter>");
    }
    let mut out = "<timg:GetImagingSettingsResponse><timg:ImagingSettings>".to_owned();
    out.append(
        text::when(
            f.caps.focus,
            "<tt:Focus><tt:AutoFocusMode>MANUAL</tt:AutoFocusMode></tt:Focus>",
        ),
    );
    out.append(filter.as_str());
    out.append("</timg:ImagingSettings></timg:GetImagingSettingsResponse>");
    out
}

/// The focus options of a camera.
pub open spec fn focus_options(range: FocusState) -> Seq<char> {
    "<tt:Focus><tt:AutoFocusModes>MANUAL</tt:AutoFocusModes><tt:DefaultSpeed><tt:Min>1</tt:Min><tt:Max>1</tt:Max></tt:DefaultSpeed><tt:NearLimit><tt:Min>"@ + text::decimal(range.min as nat) + "</tt:Min><tt:Max>"@ + text::decimal(range.max as nat) + "</tt:Max></tt:NearLimit><tt:FarLimit><tt:Min>"@ + text::decimal(range.min as nat) + "</tt:Min><tt:Max>"@ + text::decimal(range.max as nat) + "</tt:Max></tt:FarLimit></tt:Focus>"@
}

/// The focus options of a camera.
pub fn render_focus_options(range: FocusState) -> (out: String)
    ensures
        out@ == focus_options(range),
{
    let mut out = "<tt:Focus><tt:AutoFocusModes>MANUAL</tt:AutoFocusModes><tt:DefaultSpeed><tt:Min>1</tt:Min><tt:Max>1</tt:Max></tt:DefaultSpeed><tt:NearLimit><tt:Min>".to_owned();
    text::append_decimal(&mut out, range.min as u64);
    out.append("</tt:Min><tt:Max>");
    text::append_decimal(&mut out, range.max as u64);
    out.append("</tt:Max></tt:NearLimit><tt:FarLimit><tt:Min>");
    text::append_decimal(&mut out, range.min as u64);
    out.append("</tt:Min><tt:Max>");
    text::append_decimal(&mut out, range.max as u64);
    out.append("</tt:Max></tt:FarLimit></tt:Focus>");
    out
}

/// The options of a camera. Focus comes before the filter modes.
pub open spec fn options_xml(f: ImagingFacts) -> Seq<char> {
    "<timg:GetOptionsResponse><timg:ImagingOptions>"@ + (if f.caps.focus {
        match f.focus {
            Some(range) => focus_options(range),
            None => Seq::empty(),
        }
    } else {
        Seq::empty()
    }) + text::shown_if(
        f.caps.led_ctrl,
        "<tt:IrCutFilterModes>ON</tt:IrCutFilterModes><tt:IrCutFilterModes>OFF</tt:IrCutFilterModes><tt:IrCutFilterModes>AUTO</tt:IrCutFilterModes>"@,
    ) + "</timg:ImagingOptions></timg:GetOptionsResponse>"@
}

/// The options of a camera.
pub fn render_options(f: &ImagingFacts) -> (out: String)
    ensures
        out@ == options_xml(*f),
{
    let mut focus = String::new();
    if f.caps.focus {
        match f.focus {
            Some(range) => {
                focus = render_focus_options(range);
            },
            None => {},
        }
    }
    let mut out = "<timg:GetOptionsResponse><timg:ImagingOptions>".to_owned();
    out.append(focus.as_str());
    out.append(
        text::when(
            f.caps.led_ctrl,
            "<tt:IrCutFilterModes>ON</tt:IrCutFilterModes><tt:IrCutFilterModes>OFF</tt:IrCutFilterModes><tt:IrCutFilterModes>AUTO</tt:IrCutFilterModes>",
        ),
    );
    out.append("</timg:ImagingOptions></timg:GetOptionsResponse>");
    out
}

/// How far apart the ends of the focus range are.
pub open spec fn focus_span(range: FocusState) -> nat {
    if range.max >= range.min {
        (range.max - range.min) as nat
    } else {
        0
    }
}

fn span_of(range: FocusState) -> (span: u32)
    ensures
        span == focus_span(range),
{
    if range.max >= range.min {
        range.max - range.min
    } else {
        0
    }
}

/// How the focus can be moved. There is no continuous move: nothing could stop it.
pub open spec fn move_options(range: FocusState) -> Seq<char> {
    "<timg:GetMoveOptionsResponse><timg:MoveOptions><tt:Absolute><tt:Position><tt:Min>"@ + text::decimal(range.min as nat) + "</tt:Min><tt:Max>"@ + text::decimal(range.max as nat) + "</tt:Max></tt:Position></tt:Absolute><tt:Relative><tt:Distance><tt:Min>-"@ + text::decimal(focus_span(range)) + "</tt:Min><tt:Max>"@ + text::decimal(focus_span(range)) + "</tt:Max></tt:Distance></tt:Relative></timg:MoveOptions></timg:GetMoveOptionsResponse>"@
}

/// How the focus can be moved. There is no continuous move: nothing could stop it.
pub fn render_move_options(range: FocusState) -> (out: String)
    ensures
        out@ == move_options(range),
{
    let mut out = "<timg:GetMoveOptionsResponse><timg:MoveOptions><tt:Absolute><tt:Position><tt:Min>".to_owned();
    text::append_decimal(&mut out, range.min as u64);
    out.append("</tt:Min><tt:Max>");
    text::append_decimal(&mut out, range.max as u64);
    out.append("</tt:Max></tt:Position></tt:Absolute><tt:Relative><tt:Distance><tt:Min>-");
    text::append_decimal(&mut out, span_of(range) as u64);
    out.append("</tt:Min><tt:Max>");
    text::append_decimal(&mut out, span_of(range) as u64);
    out.append("</tt:Max></tt:Distance></tt:Relative></timg:MoveOptions></timg:GetMoveOptionsResponse>");
    out
}

/// The status of a camera.
pub open spec fn status_xml(f: ImagingFacts) -> Seq<char> {
    "<timg:GetStatusResponse><timg:Status>"@ + (if f.caps.focus {
        match f.focus {
            Some(range) => "<tt:FocusStatus20><tt:Position>"@ + text::decimal(range.cur as nat)
                + "</tt:Position><tt:MoveStatus>IDLE</tt:MoveStatus></tt:FocusStatus20>"@,
            None => Seq::empty(),
        }
    } else {
        Seq::empty()
    }) + "</timg:Status></timg:GetStatusResponse>"@
}

fn render_status(f: &ImagingFacts) -> (out: String)
    ensures
        out@ == status_xml(*f),
{
    let mut focus = String::new();
    if f.caps.focus {
        match f.focus {
            Some(range) => {
                focus = "<tt:FocusStatus20><tt:Position>".to_owned();
                text::append_decimal(&mut focus, range.cur as u64);
                focus.append(
                    "</tt:Position><tt:MoveStatus>IDLE</tt:MoveStatus></tt:FocusStatus20>",
                );
            },
            None => {},
        }
    }
    let mut out = "<timg:GetStatusResponse><timg:Status>".to_owned();
    out.append(focus.as_str());
    out.append("</timg:Status></timg:GetStatusResponse>");
    out
}

/// How `SetImagingSettings` is answered. The filter mode is the only field that
/// can be set; a request that carries nothing else is accepted.
pub open spec fn settings_answer(f: ImagingFacts, mode: Option<Seq<char>>) -> Result<
    ImagingAnswerView,
    device::FaultView,
> {
    let done = "<timg:SetImagingSettingsResponse/>"@;
    match mode {
        None => after(None, done),
        Some(mode) => if !f.caps.led_ctrl {
            Err(device::fault(FaultCode::InvalidArgs, "This camera has no IR cut filter control"@))
        } else {
            match led_of(mode) {
                None => Err(
                    device::fault(
                        FaultCode::InvalidArgs,
                        "IrCutFilter must be ON, OFF or AUTO, got '"@ + mode + "'"@,
                    ),
                ),
                Some(state) => after(Some(ImagingCommandView::SetIrLed(state)), done),
            }
        },
    }
}

/// How a request is answered.
pub open spec fn imaging_answer(f: ImagingFacts, action: Seq<char>, body_xml: Seq<char>) -> Result<
    ImagingAnswerView,
    device::FaultView,
> {
    let no_motor = device::fault(FaultCode::InvalidArgs, "This camera has no focus motor"@);
    if action == "GetServiceCapabilities"@ {
        after(
            None,
            "<timg:GetServiceCapabilitiesResponse><timg:Capabilities ImageStabilization=\"false\" Presets=\"false\" AdaptablePreset=\"false\"/></timg:GetServiceCapabilitiesResponse>"@,
        )
    } else if !(action == "GetImagingSettings"@ || action == "SetImagingSettings"@ || action
        == "GetOptions"@ || action == "GetMoveOptions"@ || action == "Move"@ || action == "Stop"@
        || action == "GetStatus"@) {
        Err(
            device::fault(
                FaultCode::ActionNotSupported,
                "Imaging action '"@ + action + "' not supported"@,
            ),
        )
    } else {
        match token_fault(f.cam_name@, xml::first_text(body_xml, "VideoSourceToken"@)) {
            Some(fault) => Err(fault),
            None => if action == "GetImagingSettings"@ {
                after(None, settings_xml(f))
            } else if action == "SetImagingSettings"@ {
                settings_answer(f, xml::first_text(body_xml, "IrCutFilter"@))
            } else if action == "GetOptions"@ {
                after(None, options_xml(f))
            } else if action == "GetMoveOptions"@ {
                if !f.caps.focus {
                    Err(no_motor)
                } else {
                    match f.focus {
                        Some(range) => after(None, move_options(range)),
                        None => Err(
                            device::fault(
                                FaultCode::Other,
                                "Could not read the focus range from the camera"@,
                            ),
                        ),
                    }
                }
            } else if action == "Move"@ {
                if !f.caps.focus {
                    Err(no_motor)
                } else {
                    match focus_asked(body_xml) {
                        Ok(m) => after(
                            Some(ImagingCommandView::Focus(m)),
                            "<timg:MoveResponse/>"@,
                        ),
                        Err(fault) => Err(fault),
                    }
                }
            } else if action == "Stop"@ {
                after(None, "<timg:StopResponse/>"@)
            } else {
                after(None, status_xml(f))
            },
        }
    }
}

/// Apply the filter mode that a request sets, if it sets one.
pub fn set_settings(f: &ImagingFacts, mode: Option<String>) -> (answer: Result<
    ImagingAnswer,
    FaultBody,
>)
    ensures
        answer_view(answer) == settings_answer(*f, text::opt_view(mode)),
{
    let mode = match mode {
        Some(mode) => mode,
        None => {
            return answer_only("<timg:SetImagingSettingsResponse/>");
        },
    };
    if !f.caps.led_ctrl {
        return refuse(FaultCode::InvalidArgs, "This camera has no IR cut filter control");
    }
    match ir_cut_filter_to_led(mode.as_str()) {
        None => Err(
            device::quoting_fault(
                FaultCode::InvalidArgs,
                "IrCutFilter must be ON, OFF or AUTO, got '",
                mode.as_str(),
                "'",
            ),
        ),
        Some(led) => Ok(
            ImagingAnswer {
                command: Some(ImagingCommand::SetIrLed(led)),
                xml: soap::wrap_envelope("<timg:SetImagingSettingsResponse/>", soap::NS_ALL),
            },
        ),
    }
}

/// Answer a request: what the camera has to do, and what to say once it has.
pub fn dispatch(f: &ImagingFacts, action: &str, body_xml: &str) -> (answer: Result<
    ImagingAnswer,
    FaultBody,
>)
    ensures
        answer_view(answer) == imaging_answer(*f, action@, body_xml@),
{
    if text::same(action, "GetServiceCapabilities") {
        return answer_only(
            "<timg:GetServiceCapabilitiesResponse><timg:Capabilities ImageStabilization=\"false\" Presets=\"false\" AdaptablePreset=\"false\"/></timg:GetServiceCapabilitiesResponse>",
        );
    }
    if !(text::same(action, "GetImagingSettings") || text::same(action, "SetImagingSettings")
        || text::same(action, "GetOptions") || text::same(action, "GetMoveOptions") || text::same(
        action,
        "Move",
    ) || text::same(action, "Stop") || text::same(action, "GetStatus")) {
        return Err(
            device::quoting_fault(
                FaultCode::ActionNotSupported,
                "Imaging action '",
                action,
                "' not supported",
            ),
        );
    }
    match required_token(f.cam_name, body_xml) {
        Err(fault) => {
            return Err(fault);
        },
        Ok(()) => {},
    }
    if text::same(action, "GetImagingSettings") {
        answer_only(render_settings(f).as_str())
    } else if text::same(action, "SetImagingSettings") {
        set_settings(f, xml::read_first_text_element(body_xml, "IrCutFilter"))
    } else if text::same(action, "GetOptions") {
        answer_only(render_options(f).as_str())
    } else if text::same(action, "GetMoveOptions") {
        if !f.caps.focus {
            return refuse(FaultCode::InvalidArgs, "This camera has no focus motor");
        }
        match f.focus {
            Some(range) => answer_only(render_move_options(range).as_str()),
            None => refuse(
                FaultCode::Other,
                "Could not read the focus range from the camera",
            ),
        }
    } else if text::same(action, "Move") {
        if !f.caps.focus {
            return refuse(FaultCode::InvalidArgs, "This camera has no focus motor");
        }
        match focus_target(body_xml) {
            Ok(m) => Ok(
                ImagingAnswer {
                    command: Some(ImagingCommand::Focus(m)),
                    xml: soap::wrap_envelope("<timg:MoveResponse/>", soap::NS_ALL),
                },
            ),
            Err(fault) => Err(fault),
        }
    } else if text::same(action, "Stop") {
        answer_only("<timg:StopResponse/>")
    } else {
        answer_only(render_status(f).as_str())
    }
}

/// A camera is only told to do what it can.
pub proof fn law_imaging_stays_within_capabilities(
    f: ImagingFacts,
    action: Seq<char>,
    body_xml: Seq<char>,
)
    ensures
        imaging_answer(f, action, body_xml) matches Ok(a) ==> match a.command {
            Some(ImagingCommandView::SetIrLed(_)) => f.caps.led_ctrl,
            Some(ImagingCommandView::Focus(_)) => f.caps.focus,
            None => true,
        },
{
}

proof fn lemma_actions()
    ensures
        "GetServiceCapabilities"@.len() == 22,
        "GetImagingSettings"@.len() == 18,
        "SetImagingSettings"@.len() == 18,
        "GetOptions"@.len() == 10,
        "GetMoveOptions"@.len() == 14,
        "Move"@.len() == 4,
        "Stop"@.len() == 4,
        "GetStatus"@.len() == 9,
        "GetImagingSettings"@ != "SetImagingSettings"@,
        "Move"@ != "Stop"@,
{
    reveal_strlit("GetServiceCapabilities");
    reveal_strlit("GetImagingSettings");
    reveal_strlit("SetImagingSettings");
    reveal_strlit("GetOptions");
    reveal_strlit("GetMoveOptions");
    reveal_strlit("Move");
    reveal_strlit("Stop");
    reveal_strlit("GetStatus");
    assert("GetImagingSettings"@[0] != "SetImagingSettings"@[0]);
    assert("Move"@[0] != "Stop"@[0]);
}

proof fn lemma_modes_differ()
    ensures
        !text::same_ignoring_ascii_case("ON"@, "OFF"@),
        !text::same_ignoring_ascii_case("ON"@, "AUTO"@),
        !text::same_ignoring_ascii_case("OFF"@, "AUTO"@),
        !text::same_ignoring_ascii_case("open"@, "close"@),
{
    reveal_strlit("ON");
    reveal_strlit("OFF");
    reveal_strlit("AUTO");
    reveal_strlit("open");
    reveal_strlit("close");
    lemma_lengths_tell("ON"@, "OFF"@);
    lemma_lengths_tell("ON"@, "AUTO"@);
    lemma_lengths_tell("OFF"@, "AUTO"@);
    lemma_lengths_tell("open"@, "close"@);
}

proof fn lemma_lengths_tell(a: Seq<char>, b: Seq<char>)
    requires
        a.len() != b.len(),
    ensures
        !text::same_ignoring_ascii_case(a, b),
{
    let x = a.map_values(|c: char| text::ascii_lower_char(c));
    let y = b.map_values(|c: char| text::ascii_lower_char(c));
    assert(x.len() == a.len() && y.len() == b.len());
}

/// The filter stands in the way of infrared light, so its lamps go the other way:
/// with the filter on they are off, with it off they are on, and with it on automatic
/// so are they. Spelling in capitals or not does not matter.
pub proof fn law_the_filter_and_the_lamps_go_opposite_ways(f: ImagingFacts, mode: Seq<char>)
    requires
        f.caps.led_ctrl,
    ensures
        text::same_ignoring_ascii_case(text::trimmed(mode), "ON"@) ==> settings_answer(
            f,
            Some(mode),
        ) == Ok::<ImagingAnswerView, device::FaultView>(
            ImagingAnswerView {
                command: Some(ImagingCommandView::SetIrLed(LightState::Off)),
                xml: soap::envelope("<timg:SetImagingSettingsResponse/>"@, soap::NS_ALL@),
            },
        ),
        text::same_ignoring_ascii_case(text::trimmed(mode), "OFF"@) ==> settings_answer(
            f,
            Some(mode),
        ) == Ok::<ImagingAnswerView, device::FaultView>(
            ImagingAnswerView {
                command: Some(ImagingCommandView::SetIrLed(LightState::On)),
                xml: soap::envelope("<timg:SetImagingSettingsResponse/>"@, soap::NS_ALL@),
            },
        ),
        text::same_ignoring_ascii_case(text::trimmed(mode), "AUTO"@) ==> settings_answer(
            f,
            Some(mode),
        ) == Ok::<ImagingAnswerView, device::FaultView>(
            ImagingAnswerView {
                command: Some(ImagingCommandView::SetIrLed(LightState::Auto)),
                xml: soap::envelope("<timg:SetImagingSettingsResponse/>"@, soap::NS_ALL@),
            },
        ),
        !text::same_ignoring_ascii_case(text::trimmed(mode), "ON"@)
            && !text::same_ignoring_ascii_case(text::trimmed(mode), "OFF"@)
            && !text::same_ignoring_ascii_case(text::trimmed(mode), "AUTO"@) ==> (settings_answer(
            f,
            Some(mode),
        ) matches Err(fault) && fault.code == FaultCode::InvalidArgs && fault.reason
            == "IrCutFilter must be ON, OFF or AUTO, got '"@ + mode + "'"@),
        settings_answer(f, None) == Ok::<ImagingAnswerView, device::FaultView>(
            ImagingAnswerView {
                command: None,
                xml: soap::envelope("<timg:SetImagingSettingsResponse/>"@, soap::NS_ALL@),
            },
        ),
{
    lemma_modes_differ();
}

/// Lamps that are on show as a filter that is off, lamps that are off as one that is
/// on, and anything else as automatic. A camera whose lamps were not read shows
/// automatic, and one without them shows no filter.
pub proof fn law_the_lamps_show_as_the_filter(f: ImagingFacts, state: Seq<char>)
    ensures
        text::same_ignoring_ascii_case(text::trimmed(state), "open"@) ==> filter_of(state)
            == "OFF"@,
        text::same_ignoring_ascii_case(text::trimmed(state), "close"@) ==> filter_of(state)
            == "ON"@,
        !text::same_ignoring_ascii_case(text::trimmed(state), "open"@)
            && !text::same_ignoring_ascii_case(text::trimmed(state), "close"@) ==> filter_of(state)
            == "AUTO"@,
        led_word(LightState::On) == "open"@,
        led_word(LightState::Off) == "close"@,
        led_word(LightState::Auto) == "auto"@,
        f.led_state is None ==> led_known(f) == "auto"@,
        f.led_state matches Some(said) ==> led_known(f) == said@,
        f.caps.led_ctrl && !f.caps.focus ==> settings_xml(f)
            == "<timg:GetImagingSettingsResponse><timg:ImagingSettings><tt:IrCutFilter>"@
            + filter_of(led_known(f))
            + "</tt:IrCutFilter></timg:ImagingSettings></timg:GetImagingSettingsResponse>"@,
        !f.caps.led_ctrl && !f.caps.focus ==> settings_xml(f)
            == "<timg:GetImagingSettingsResponse><timg:ImagingSettings></timg:ImagingSettings></timg:GetImagingSettingsResponse>"@,
{
    lemma_modes_differ();
    reveal_strlit("<timg:GetImagingSettingsResponse><timg:ImagingSettings>");
    reveal_strlit("<timg:GetImagingSettingsResponse><timg:ImagingSettings><tt:IrCutFilter>");
    reveal_strlit("<tt:IrCutFilter>");
    reveal_strlit("</tt:IrCutFilter>");
    reveal_strlit("</timg:ImagingSettings></timg:GetImagingSettingsResponse>");
    reveal_strlit(
        "</tt:IrCutFilter></timg:ImagingSettings></timg:GetImagingSettingsResponse>",
    );
    reveal_strlit(
        "<timg:GetImagingSettingsResponse><timg:ImagingSettings></timg:ImagingSettings></timg:GetImagingSettingsResponse>",
    );
    if f.caps.led_ctrl && !f.caps.focus {
        assert(settings_xml(f)
            =~= "<timg:GetImagingSettingsResponse><timg:ImagingSettings><tt:IrCutFilter>"@
            + filter_of(led_known(f))
            + "</tt:IrCutFilter></timg:ImagingSettings></timg:GetImagingSettingsResponse>"@);
    }
    if !f.caps.led_ctrl && !f.caps.focus {
        assert(settings_xml(f)
            =~= "<timg:GetImagingSettingsResponse><timg:ImagingSettings></timg:ImagingSettings></timg:GetImagingSettingsResponse>"@);
    }
}

/// The limits of the focus are those that were measured, the near one and the far one.
pub proof fn law_focus_limits_are_the_measured_ones(range: FocusState)
    ensures
        text::has(focus_options(range), "<tt:NearLimit><tt:Min>"@ + text::decimal(range.min as nat) + "</tt:Min><tt:Max>"@),
        text::has(focus_options(range), "<tt:Max>"@ + text::decimal(range.max as nat) + "</tt:Max></tt:NearLimit>"@),
        text::has(focus_options(range), "<tt:FarLimit><tt:Min>"@ + text::decimal(range.min as nat) + "</tt:Min><tt:Max>"@),
        text::has(focus_options(range), "<tt:Max>"@ + text::decimal(range.max as nat) + "</tt:Max></tt:FarLimit>"@),
{
    {
        reveal_strlit("<tt:NearLimit><tt:Min>");
        reveal_strlit("<tt:Focus><tt:AutoFocusModes>MANUAL</tt:AutoFocusModes><tt:DefaultSpeed><tt:Min>1</tt:Min><tt:Max>1</tt:Max></tt:DefaultSpeed><tt:NearLimit><tt:Min>");
        reveal_strlit("</tt:Min><tt:Max>");
        assert("<tt:Focus><tt:AutoFocusModes>MANUAL</tt:AutoFocusModes><tt:DefaultSpeed><tt:Min>1</tt:Min><tt:Max>1</tt:Max></tt:DefaultSpeed><tt:NearLimit><tt:Min>"@.skip(126) =~= "<tt:NearLimit><tt:Min>"@);
        assert("</tt:Min><tt:Max>"@.take(17) =~= "</tt:Min><tt:Max>"@);
        let head = Seq::<char>::empty();
        let tail = text::decimal(range.max as nat) + "</tt:Max></tt:NearLimit><tt:FarLimit><tt:Min>"@ + text::decimal(range.min as nat) + "</tt:Min><tt:Max>"@ + text::decimal(range.max as nat) + "</tt:Max></tt:FarLimit></tt:Focus>"@;
        let value = text::decimal(range.min as nat);
        assert(focus_options(range) =~= head + "<tt:Focus><tt:AutoFocusModes>MANUAL</tt:AutoFocusModes><tt:DefaultSpeed><tt:Min>1</tt:Min><tt:Max>1</tt:Max></tt:DefaultSpeed><tt:NearLimit><tt:Min>"@ + value + "</tt:Min><tt:Max>"@ + tail);
        text::lemma_has_tagged(head, "<tt:Focus><tt:AutoFocusModes>MANUAL</tt:AutoFocusModes><tt:DefaultSpeed><tt:Min>1</tt:Min><tt:Max>1</tt:Max></tt:DefaultSpeed><tt:NearLimit><tt:Min>"@, value, "</tt:Min><tt:Max>"@, tail, "<tt:NearLimit><tt:Min>"@, "</tt:Min><tt:Max>"@);
    }
    {
        reveal_strlit("</tt:Max></tt:NearLimit><tt:FarLimit><tt:Min>");
        reveal_strlit("</tt:Max></tt:NearLimit>");
        reveal_strlit("<tt:Max>");
        reveal_strlit("</tt:Min><tt:Max>");
        assert("</tt:Min><tt:Max>"@.skip(9) =~= "<tt:Max>"@);
        assert("</tt:Max></tt:NearLimit><tt:FarLimit><tt:Min>"@.take(24) =~= "</tt:Max></tt:NearLimit>"@);
        let head = "<tt:Focus><tt:AutoFocusModes>MANUAL</tt:AutoFocusModes><tt:DefaultSpeed><tt:Min>1</tt:Min><tt:Max>1</tt:Max></tt:DefaultSpeed><tt:NearLimit><tt:Min>"@ + text::decimal(range.min as nat);
        let tail = text::decimal(range.min as nat) + "</tt:Min><tt:Max>"@ + text::decimal(range.max as nat) + "</tt:Max></tt:FarLimit></tt:Focus>"@;
        let value = text::decimal(range.max as nat);
        assert(focus_options(range) =~= head + "</tt:Min><tt:Max>"@ + value + "</tt:Max></tt:NearLimit><tt:FarLimit><tt:Min>"@ + tail);
        text::lemma_has_tagged(head, "</tt:Min><tt:Max>"@, value, "</tt:Max></tt:NearLimit><tt:FarLimit><tt:Min>"@, tail, "<tt:Max>"@, "</tt:Max></tt:NearLimit>"@);
    }
    {
        reveal_strlit("</tt:Max></tt:NearLimit><tt:FarLimit><tt:Min>");
        reveal_strlit("<tt:FarLimit><tt:Min>");
        reveal_strlit("</tt:Min><tt:Max>");
        assert("</tt:Max></tt:NearLimit><tt:FarLimit><tt:Min>"@.skip(24) =~= "<tt:FarLimit><tt:Min>"@);
        assert("</tt:Min><tt:Max>"@.take(17) =~= "</tt:Min><tt:Max>"@);
        let head = "<tt:Focus><tt:AutoFocusModes>MANUAL</tt:AutoFocusModes><tt:DefaultSpeed><tt:Min>1</tt:Min><tt:Max>1</tt:Max></tt:DefaultSpeed><tt:NearLimit><tt:Min>"@ + text::decimal(range.min as nat) + "</tt:Min><tt:Max>"@ + text::decimal(range.max as nat);
        let tail = text::decimal(range.max as nat) + "</tt:Max></tt:FarLimit></tt:Focus>"@;
        let value = text::decimal(range.min as nat);
        assert(focus_options(range) =~= head + "</tt:Max></tt:NearLimit><tt:FarLimit><tt:Min>"@ + value + "</tt:Min><tt:Max>"@ + tail);
        text::lemma_has_tagged(head, "</tt:Max></tt:NearLimit><tt:FarLimit><tt:Min>"@, value, "</tt:Min><tt:Max>"@, tail, "<tt:FarLimit><tt:Min>"@, "</tt:Min><tt:Max>"@);
    }
    {
        reveal_strlit("</tt:Max></tt:FarLimit></tt:Focus>");
        reveal_strlit("<tt:Max>");
        reveal_strlit("</tt:Min><tt:Max>");
        reveal_strlit("</tt:Max></tt:FarLimit>");
        assert("</tt:Min><tt:Max>"@.skip(9) =~= "<tt:Max>"@);
        assert("</tt:Max></tt:FarLimit></tt:Focus>"@.take(23) =~= "</tt:Max></tt:FarLimit>"@);
        let head = "<tt:Focus><tt:AutoFocusModes>MANUAL</tt:AutoFocusModes><tt:DefaultSpeed><tt:Min>1</tt:Min><tt:Max>1</tt:Max></tt:DefaultSpeed><tt:NearLimit><tt:Min>"@ + text::decimal(range.min as nat) + "</tt:Min><tt:Max>"@ + text::decimal(range.max as nat) + "</tt:Max></tt:NearLimit><tt:FarLimit><tt:Min>"@ + text::decimal(range.min as nat);
        let tail = Seq::<char>::empty();
        let value = text::decimal(range.max as nat);
        assert(focus_options(range) =~= head + "</tt:Min><tt:Max>"@ + value + "</tt:Max></tt:FarLimit></tt:Focus>"@ + tail);
        text::lemma_has_tagged(head, "</tt:Min><tt:Max>"@, value, "</tt:Max></tt:FarLimit></tt:Focus>"@, tail, "<tt:Max>"@, "</tt:Max></tt:FarLimit>"@);
    }
}

/// The lens can be sent anywhere in its range, and moved by as much as the range is
/// wide, either way.
pub proof fn law_focus_moves_span_the_range(range: FocusState)
    ensures
        range.min <= range.max ==> focus_span(range) == range.max - range.min,
        range.min > range.max ==> focus_span(range) == 0,
        text::has(move_options(range), "<tt:Position><tt:Min>"@ + text::decimal(range.min as nat) + "</tt:Min>"@),
        text::has(move_options(range), "<tt:Max>"@ + text::decimal(range.max as nat) + "</tt:Max></tt:Position>"@),
        text::has(move_options(range), "<tt:Distance><tt:Min>-"@ + text::decimal(focus_span(range)) + "</tt:Min>"@),
        text::has(move_options(range), "<tt:Max>"@ + text::decimal(focus_span(range)) + "</tt:Max></tt:Distance>"@),
{
    {
        reveal_strlit("</tt:Min>");
        reveal_strlit("<timg:GetMoveOptionsResponse><timg:MoveOptions><tt:Absolute><tt:Position><tt:Min>");
        reveal_strlit("<tt:Position><tt:Min>");
        reveal_strlit("</tt:Min><tt:Max>");
        assert("<timg:GetMoveOptionsResponse><timg:MoveOptions><tt:Absolute><tt:Position><tt:Min>"@.skip(60) =~= "<tt:Position><tt:Min>"@);
        assert("</tt:Min><tt:Max>"@.take(9) =~= "</tt:Min>"@);
        let head = Seq::<char>::empty();
        let tail = text::decimal(range.max as nat) + "</tt:Max></tt:Position></tt:Absolute><tt:Relative><tt:Distance><tt:Min>-"@ + text::decimal(focus_span(range)) + "</tt:Min><tt:Max>"@ + text::decimal(focus_span(range)) + "</tt:Max></tt:Distance></tt:Relative></timg:MoveOptions></timg:GetMoveOptionsResponse>"@;
        let value = text::decimal(range.min as nat);
        assert(move_options(range) =~= head + "<timg:GetMoveOptionsResponse><timg:MoveOptions><tt:Absolute><tt:Position><tt:Min>"@ + value + "</tt:Min><tt:Max>"@ + tail);
        text::lemma_has_tagged(head, "<timg:GetMoveOptionsResponse><timg:MoveOptions><tt:Absolute><tt:Position><tt:Min>"@, value, "</tt:Min><tt:Max>"@, tail, "<tt:Position><tt:Min>"@, "</tt:Min>"@);
    }
    {
        reveal_strlit("</tt:Max></tt:Position></tt:Absolute><tt:Relative><tt:Distance><tt:Min>-");
        reveal_strlit("<tt:Max>");
        reveal_strlit("</tt:Max></tt:Position>");
        reveal_strlit("</tt:Min><tt:Max>");
        assert("</tt:Min><tt:Max>"@.skip(9) =~= "<tt:Max>"@);
        assert("</tt:Max></tt:Position></tt:Absolute><tt:Relative><tt:Distance><tt:Min>-"@.take(23) =~= "</tt:Max></tt:Position>"@);
        let head = "<timg:GetMoveOptionsResponse><timg:MoveOptions><tt:Absolute><tt:Position><tt:Min>"@ + text::decimal(range.min as nat);
        let tail = text::decimal(focus_span(range)) + "</tt:Min><tt:Max>"@ + text::decimal(focus_span(range)) + "</tt:Max></tt:Distance></tt:Relative></timg:MoveOptions></timg:GetMoveOptionsResponse>"@;
        let value = text::decimal(range.max as nat);
        assert(move_options(range) =~= head + "</tt:Min><tt:Max>"@ + value + "</tt:Max></tt:Position></tt:Absolute><tt:Relative><tt:Distance><tt:Min>-"@ + tail);
        text::lemma_has_tagged(head, "</tt:Min><tt:Max>"@, value, "</tt:Max></tt:Position></tt:Absolute><tt:Relative><tt:Distance><tt:Min>-"@, tail, "<tt:Max>"@, "</tt:Max></tt:Position>"@);
    }
    {
        reveal_strlit("<tt:Distance><tt:Min>-");
        reveal_strlit("</tt:Max></tt:Position></tt:Absolute><tt:Relative><tt:Distance><tt:Min>-");
        reveal_strlit("</tt:Min>");
        reveal_strlit("</tt:Min><tt:Max>");
        assert("</tt:Max></tt:Position></tt:Absolute><tt:Relative><tt:Distance><tt:Min>-"@.skip(50) =~= "<tt:Distance><tt:Min>-"@);
        assert("</tt:Min><tt:Max>"@.take(9) =~= "</tt:Min>"@);
        let head = "<timg:GetMoveOptionsResponse><timg:MoveOptions><tt:Absolute><tt:Position><tt:Min>"@ + text::decimal(range.min as nat) + "</tt:Min><tt:Max>"@ + text::decimal(range.max as nat);
        let tail = text::decimal(focus_span(range)) + "</tt:Max></tt:Distance></tt:Relative></timg:MoveOptions></timg:GetMoveOptionsResponse>"@;
        let value = text::decimal(focus_span(range));
        assert(move_options(range) =~= head + "</tt:Max></tt:Position></tt:Absolute><tt:Relative><tt:Distance><tt:Min>-"@ + value + "</tt:Min><tt:Max>"@ + tail);
        text::lemma_has_tagged(head, "</tt:Max></tt:Position></tt:Absolute><tt:Relative><tt:Distance><tt:Min>-"@, value, "</tt:Min><tt:Max>"@, tail, "<tt:Distance><tt:Min>-"@, "</tt:Min>"@);
    }
    {
        reveal_strlit("</tt:Max></tt:Distance>");
        reveal_strlit("<tt:Max>");
        reveal_strlit("</tt:Max></tt:Distance></tt:Relative></timg:MoveOptions></timg:GetMoveOptionsResponse>");
        reveal_strlit("</tt:Min><tt:Max>");
        assert("</tt:Min><tt:Max>"@.skip(9) =~= "<tt:Max>"@);
        assert("</tt:Max></tt:Distance></tt:Relative></timg:MoveOptions></timg:GetMoveOptionsResponse>"@.take(23) =~= "</tt:Max></tt:Distance>"@);
        let head = "<timg:GetMoveOptionsResponse><timg:MoveOptions><tt:Absolute><tt:Position><tt:Min>"@ + text::decimal(range.min as nat) + "</tt:Min><tt:Max>"@ + text::decimal(range.max as nat) + "</tt:Max></tt:Position></tt:Absolute><tt:Relative><tt:Distance><tt:Min>-"@ + text::decimal(focus_span(range));
        let tail = Seq::<char>::empty();
        let value = text::decimal(focus_span(range));
        assert(move_options(range) =~= head + "</tt:Min><tt:Max>"@ + value + "</tt:Max></tt:Distance></tt:Relative></timg:MoveOptions></timg:GetMoveOptionsResponse>"@ + tail);
        text::lemma_has_tagged(head, "</tt:Min><tt:Max>"@, value, "</tt:Max></tt:Distance></tt:Relative></timg:MoveOptions></timg:GetMoveOptionsResponse>"@, tail, "<tt:Max>"@, "</tt:Max></tt:Distance>"@);
    }
}

/// A move goes to the position that it names; one without a position goes by the
/// distance that it names, either way from where the lens is. A continuous one, and
/// one that names neither, is refused.
pub proof fn law_focus_goes_where_it_is_sent(
    position: Option<Seq<char>>,
    distance: Option<Seq<char>>,
)
    ensures
        position matches Some(amount) ==> focus_wanted(false, position, distance) == Ok::<
            FocusMoveView,
            device::FaultView,
        >(FocusMoveView { relative: false, amount }),
        (position is None && distance is Some) ==> focus_wanted(false, position, distance) == Ok::<
            FocusMoveView,
            device::FaultView,
        >(FocusMoveView { relative: true, amount: distance->0 }),
        position is None && distance is None ==> (focus_wanted(false, position, distance)
            matches Err(fault) && fault.code == FaultCode::InvalidArgs),
        focus_wanted(true, position, distance) matches Err(fault) && fault.code
            == FaultCode::InvalidArgs,
{
}

/// A sensor answers to its two tokens, of its own camera, and to no other.
pub proof fn law_sensors_answer_to_their_tokens(cam_name: Seq<char>, token: Seq<char>)
    ensures
        names_sensor(cam_name, "vsrc_"@ + cam_name),
        names_sensor(cam_name, "vs_"@ + cam_name),
        names_sensor(cam_name, token) ==> token == "vsrc_"@ + cam_name || token == "vs_"@
            + cam_name,
        token_fault(cam_name, None) == Some(
            device::fault(FaultCode::InvalidArgs, "Missing VideoSourceToken"@),
        ),
        token_fault(cam_name, Some("vsrc_"@ + cam_name)) is None,
        token != "vsrc_"@ + cam_name && token != "vs_"@ + cam_name ==> token_fault(
            cam_name,
            Some(token),
        ) == Some(
            device::fault(
                FaultCode::InvalidArgs,
                "Unknown VideoSourceToken '"@ + token + "'"@,
            ),
        ),
{
}

/// Each operation on a sensor that is there does what it is named after: settings,
/// options and the status are shown, a move moves the lens, a stop is answered
/// without a command, and whatever needs a focus motor is refused without one.
pub proof fn law_operations_do_what_they_are_named_after(
    f: ImagingFacts,
    action: Seq<char>,
    body_xml: Seq<char>,
)
    requires
        xml::first_text(body_xml, "VideoSourceToken"@) == Some("vsrc_"@ + f.cam_name@),
    ensures
        ({
            let answer = imaging_answer(f, action, body_xml);
            let says = |body: Seq<char>|
                Ok::<ImagingAnswerView, device::FaultView>(
                    ImagingAnswerView { command: None, xml: soap::envelope(body, soap::NS_ALL@) },
                );
            &&& action == "GetImagingSettings"@ ==> answer == says(settings_xml(f))
            &&& action == "GetOptions"@ ==> answer == says(options_xml(f))
            &&& action == "GetStatus"@ ==> answer == says(status_xml(f))
            &&& action == "Stop"@ ==> answer == says("<timg:StopResponse/>"@)
            &&& action == "SetImagingSettings"@ ==> answer == settings_answer(
                f,
                xml::first_text(body_xml, "IrCutFilter"@),
            )
            &&& (action == "GetMoveOptions"@ && f.caps.focus && f.focus is Some) ==> answer == says(
                move_options(f.focus->0),
            )
            &&& (action == "GetMoveOptions"@ && f.caps.focus && f.focus is None) ==> (answer
                matches Err(fault) && fault.code == FaultCode::Other)
            &&& (action == "GetMoveOptions"@ || action == "Move"@) && !f.caps.focus ==> (answer
                matches Err(fault) && fault.code == FaultCode::InvalidArgs && fault.reason
                == "This camera has no focus motor"@)
            &&& action == "Move"@ && f.caps.focus ==> match focus_asked(body_xml) {
                Ok(m) => answer == Ok::<ImagingAnswerView, device::FaultView>(
                    ImagingAnswerView {
                        command: Some(ImagingCommandView::Focus(m)),
                        xml: soap::envelope("<timg:MoveResponse/>"@, soap::NS_ALL@),
                    },
                ),
                Err(fault) => answer == Err::<ImagingAnswerView, device::FaultView>(fault),
            }
        }),
{
    lemma_actions();
}

/// The position of the lens is shown as it was read.
pub proof fn law_status_shows_the_position(f: ImagingFacts)
    ensures
        f.caps.focus && f.focus is Some ==> text::has(
            status_xml(f),
            "<tt:FocusStatus20><tt:Position>"@ + text::decimal(f.focus->0.cur as nat)
                + "</tt:Position><tt:MoveStatus>IDLE</tt:MoveStatus></tt:FocusStatus20>"@,
        ),
{
    if f.caps.focus && f.focus is Some {
        text::lemma_has_between(
            "<timg:GetStatusResponse><timg:Status>"@,
            "<tt:FocusStatus20><tt:Position>"@ + text::decimal(f.focus->0.cur as nat)
                + "</tt:Position><tt:MoveStatus>IDLE</tt:MoveStatus></tt:FocusStatus20>"@,
            "</timg:Status></timg:GetStatusResponse>"@,
        );
    }
}

/// Commands and answers are seen as they are.
pub proof fn law_commands_are_seen_as_they_are(state: LightState, m: FocusMove, xml: String)
    ensures
        answer_view(
            Ok(ImagingAnswer { command: Some(ImagingCommand::SetIrLed(state)), xml }),
        ) == Ok::<ImagingAnswerView, device::FaultView>(
            ImagingAnswerView { command: Some(ImagingCommandView::SetIrLed(state)), xml: xml@ },
        ),
        answer_view(Ok(ImagingAnswer { command: Some(ImagingCommand::Focus(m)), xml })) == Ok::<
            ImagingAnswerView,
            device::FaultView,
        >(
            ImagingAnswerView {
                command: Some(
                    ImagingCommandView::Focus(
                        FocusMoveView { relative: m.relative, amount: m.amount@ },
                    ),
                ),
                xml: xml@,
            },
        ),
{
}

/// What is no number is refused, and called by the name it was given under.
pub proof fn law_amounts_are_numbers(amount: Seq<char>)
    ensures
        not_a_number(FocusMoveView { relative: true, amount }) == device::fault(
            FaultCode::InvalidArgs,
            "Distance '"@ + amount + "' is not a number"@,
        ),
        not_a_number(FocusMoveView { relative: false, amount }) == device::fault(
            FaultCode::InvalidArgs,
            "Position '"@ + amount + "' is not a number"@,
        ),
{
}

/// A request that is refused is told why.
pub proof fn law_imaging_refusals_say_why(
    f: ImagingFacts,
    mode: Seq<char>,
    action: Seq<char>,
    body_xml: Seq<char>,
)
    ensures
        !f.caps.led_ctrl ==> settings_answer(f, Some(mode)) == Err::<
            ImagingAnswerView,
            device::FaultView,
        >(device::fault(FaultCode::InvalidArgs, "This camera has no IR cut filter control"@)),
        focus_wanted(false, None, None) == Err::<FocusMoveView, device::FaultView>(
            device::fault(
                FaultCode::InvalidArgs,
                "Move needs an Absolute Position or a Relative Distance"@,
            ),
        ),
        focus_wanted(true, None, None) == Err::<FocusMoveView, device::FaultView>(
            device::fault(
                FaultCode::InvalidArgs,
                "Continuous focus moves are not supported: the camera has no way to stop the lens once it is moving"@,
            ),
        ),
        action != "GetServiceCapabilities"@ && action != "GetImagingSettings"@ && action
            != "SetImagingSettings"@ && action != "GetOptions"@ && action != "GetMoveOptions"@
            && action != "Move"@ && action != "Stop"@ && action != "GetStatus"@ ==> imaging_answer(
            f,
            action,
            body_xml,
        ) == Err::<ImagingAnswerView, device::FaultView>(
            device::fault(
                FaultCode::ActionNotSupported,
                "Imaging action '"@ + action + "' not supported"@,
            ),
        ),
{
    lemma_actions();
}

} // verus!

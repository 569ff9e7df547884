//! What an incoming message asks of the camera, and what is published about
//! the outcome.

use vstd::prelude::*;
use vstd::string::*;
use crate::camera::{Direction, LightState};
use crate::codec;
use crate::text;

verus! {

/// How long the floodlight stays as it was set, in seconds.
pub const FLOODLIGHT_SECONDS: u16 = 180;

/// Something to ask of the camera.
#[derive(Clone, Copy, PartialEq, Eq, Structural, Debug)]
pub enum Command {
    /// Turn the floodlight on or off, for so many seconds.
    Floodlight { on: bool, seconds: u16 },
    /// Turn the status LED on or off.
    Led { on: bool },
    /// Set the infrared lights.
    Ir { state: LightState },
    Reboot,
    /// Zoom to a position, in thousandths.
    Zoom { thousandths: u32 },
    /// Move, hold for this many nanoseconds, and stop.
    Move { direction: Direction, hold_ns: u64 },
    GotoPreset { id: u8 },
    /// Store the present position under an id and the name beside it.
    AssignPreset { id: u8 },
    /// Turn the motion sensor on or off.
    Pir { on: bool },
    /// Keep the camera connected for this long.
    StayAwake { minutes: u64 },
    /// Turn the floodlight's tasks on or off.
    FloodlightTasks { on: bool },
    Siren,
    ReadBattery,
    ReadPir,
    ReadPresets,
    /// Turn the privacy shutter on or off.
    SetPrivacy { on: bool },
    DisableScene,
    SetScene { id: u8 },
    ReadPrivacy,
    ReadScenes,
    ReadPreview,
}

/// What a number that is still to be read is for.
#[derive(Clone, Copy, PartialEq, Eq, Structural, Debug)]
pub enum NumberUse {
    /// A zoom position.
    Zoom,
    /// How far to move, if the direction was understood.
    Move { direction: Option<Direction> },
}

/// What to do about a message.
#[derive(Debug)]
pub enum Plan {
    Ignore,
    /// Publish an answer; the camera is not asked.
    Ack { topic: &'static str, message: String },
    /// Read a number with a fraction, and go on from there.
    ReadNumber { purpose: NumberUse, number: String },
    /// Ask the camera. `name` is empty but for a preset's.
    Run { command: Command, name: String },
}

/// A plan, its texts as sequences.
pub enum PlanView {
    Ignore,
    Ack(Seq<char>, Seq<char>),
    ReadNumber(NumberUse, Seq<char>),
    Run(Command, Seq<char>),
}

impl View for Plan {
    type V = PlanView;

    open spec fn view(&self) -> PlanView {
        match self {
            Plan::Ignore => PlanView::Ignore,
            Plan::Ack { topic, message } => PlanView::Ack(topic@, message@),
            Plan::ReadNumber { purpose, number } => PlanView::ReadNumber(*purpose, number@),
            Plan::Run { command, name } => PlanView::Run(*command, name@),
        }
    }
}

/// Whether a message is an answer that was published here, coming back.
pub open spec fn is_answer(message: Seq<char>) -> bool {
    ||| message == "OK"@
    ||| message == "FAIL"@
    ||| "FAIL:"@.is_prefix_of(message)
    ||| "OK:"@.is_prefix_of(message)
}

/// The state an `on` or `off` asks for.
pub open spec fn on_off(message: Seq<char>) -> Option<bool> {
    if message == "on"@ {
        Some(true)
    } else if message == "off"@ {
        Some(false)
    } else {
        None
    }
}

/// The state of a light that can be automatic.
pub open spec fn light_state(message: Seq<char>) -> Option<LightState> {
    if message == "on"@ {
        Some(LightState::On)
    } else if message == "off"@ {
        Some(LightState::Off)
    } else if message == "auto"@ {
        Some(LightState::Auto)
    } else {
        None
    }
}

/// The direction a word names.
pub open spec fn direction_named(word: Seq<char>) -> Option<Direction> {
    if word == "up"@ {
        Some(Direction::Up)
    } else if word == "down"@ {
        Some(Direction::Down)
    } else if word == "left"@ {
        Some(Direction::Left)
    } else if word == "right"@ {
        Some(Direction::Right)
    } else if word == "in"@ {
        Some(Direction::In)
    } else if word == "out"@ {
        Some(Direction::Out)
    } else {
        None
    }
}

/// A plain request to the camera.
pub open spec fn ask(command: Command) -> PlanView {
    PlanView::Run(command, Seq::empty())
}

/// The plan for a movement, in lower case: a direction and, unless it is left
/// at its default, how far.
pub open spec fn move_plan(lower: Seq<char>) -> PlanView {
    let words = text::words(lower);
    if words.len() == 0 {
        PlanView::Ack("control/ptz"@, "FAIL"@)
    } else {
        PlanView::ReadNumber(
            NumberUse::Move { direction: direction_named(words[0]) },
            if words.len() > 1 {
                words[1]
            } else {
                "32.0"@
            },
        )
    }
}

/// The plan for the floodlight's tasks, in lower case.
pub open spec fn tasks_plan(lower: Seq<char>) -> PlanView {
    if lower == "on"@ || lower == "true"@ {
        ask(Command::FloodlightTasks { on: true })
    } else if lower == "off"@ || lower == "false"@ {
        ask(Command::FloodlightTasks { on: false })
    } else {
        PlanView::Ack(
            "control/floodlight_tasks"@,
            "FAIL: Could not parse message to provided string was not `true` or `false`"@,
        )
    }
}

/// The plan for storing a preset: an id and a name.
pub open spec fn assign_plan(message: Seq<char>) -> PlanView {
    let words = text::words(message);
    if words.len() < 2 {
        PlanView::Ack("control/ir"@, "FAIL"@)
    } else {
        match text::number(words[0], 255) {
            Some(id) => PlanView::Run(Command::AssignPreset { id: id as u8 }, words[1]),
            None => PlanView::Ack("control/ir"@, "FAIL"@),
        }
    }
}

/// The plan for a scene: `off`, or an id, zero meaning off as well.
pub open spec fn scene_plan(message: Seq<char>) -> PlanView {
    if message == "off"@ {
        ask(Command::DisableScene)
    } else {
        match text::number(message, 255) {
            Some(id) => if id == 0 {
                ask(Command::DisableScene)
            } else {
                ask(Command::SetScene { id: id as u8 })
            },
            None => PlanView::Ack("control/scene"@, "FAIL"@),
        }
    }
}

/// The plan for staying awake: a number of minutes.
pub open spec fn wakeup_plan(message: Seq<char>) -> PlanView {
    match text::number(message, u64::MAX as nat) {
        Some(minutes) => ask(Command::StayAwake { minutes: minutes as u64 }),
        None => PlanView::Ack(
            "control/wakeup"@,
            "FAIL: '"@ + message + "' => "@ + text::number_error(message),
        ),
    }
}

/// The plan for a message under `control/`.
pub open spec fn control_plan(topic: Seq<char>, message: Seq<char>) -> PlanView {
    if topic == "control/floodlight"@ {
        match on_off(message) {
            Some(on) => ask(Command::Floodlight { on, seconds: FLOODLIGHT_SECONDS }),
            None => PlanView::Ignore,
        }
    } else if topic == "control/led"@ {
        match on_off(message) {
            Some(on) => ask(Command::Led { on }),
            None => PlanView::Ignore,
        }
    } else if topic == "control/ir"@ {
        match light_state(message) {
            Some(state) => ask(Command::Ir { state }),
            None => PlanView::Ignore,
        }
    } else if topic == "control/reboot"@ {
        ask(Command::Reboot)
    } else if topic == "control/zoom"@ {
        PlanView::ReadNumber(NumberUse::Zoom, message)
    } else if topic == "control/ptz"@ || topic == "control/pt"@ {
        move_plan(text::unicode_lowercase(message))
    } else if topic == "control/ptz/preset"@ {
        match text::number(message, 255) {
            Some(id) => ask(Command::GotoPreset { id: id as u8 }),
            None => PlanView::Ack("control/ir"@, "FAIL"@),
        }
    } else if topic == "control/ptz/assign"@ {
        assign_plan(message)
    } else if topic == "control/pir"@ {
        match on_off(message) {
            Some(on) => ask(Command::Pir { on }),
            None => PlanView::Ignore,
        }
    } else if topic == "control/wakeup"@ {
        wakeup_plan(message)
    } else if topic == "control/floodlight_tasks"@ {
        tasks_plan(text::unicode_lowercase(message))
    } else if topic == "control/siren"@ {
        if message == "on"@ {
            ask(Command::Siren)
        } else {
            PlanView::Ignore
        }
    } else if topic == "control/privacy"@ {
        match on_off(message) {
            Some(on) => ask(Command::SetPrivacy { on }),
            None => PlanView::Ignore,
        }
    } else if topic == "control/scene"@ {
        scene_plan(message)
    } else {
        PlanView::Ignore
    }
}

/// The plan for a message under `query/`.
pub open spec fn query_plan(topic: Seq<char>) -> PlanView {
    if topic == "query/battery"@ {
        ask(Command::ReadBattery)
    } else if topic == "query/pir"@ {
        ask(Command::ReadPir)
    } else if topic == "query/ptz/preset"@ {
        ask(Command::ReadPresets)
    } else if topic == "query/privacy"@ {
        ask(Command::ReadPrivacy)
    } else if topic == "query/scene"@ {
        ask(Command::ReadScenes)
    } else if topic == "query/preview"@ {
        ask(Command::ReadPreview)
    } else {
        PlanView::Ignore
    }
}

/// The plan for a message: nothing for an answer that comes back, and otherwise
/// what its topic says.
pub open spec fn plan_of(topic: Seq<char>, message: Seq<char>) -> PlanView {
    if is_answer(message) {
        PlanView::Ignore
    } else if query_plan(topic) != PlanView::Ignore {
        query_plan(topic)
    } else {
        control_plan(topic, message)
    }
}

fn run(command: Command) -> (plan: Plan)
    ensures
        plan@ == ask(command),
{
    Plan::Run { command, name: String::new() }
}

fn fail(topic: &'static str) -> (plan: Plan)
    ensures
        plan@ == PlanView::Ack(topic@, "FAIL"@),
{
    Plan::Ack { topic, message: "FAIL".to_owned() }
}

fn read_on_off(message: &str) -> (state: Option<bool>)
    ensures
        state == on_off(message@),
{
    if text::same(message, "on") {
        Some(true)
    } else if text::same(message, "off") {
        Some(false)
    } else {
        None
    }
}

fn read_light_state(message: &str) -> (state: Option<LightState>)
    ensures
        state == light_state(message@),
{
    if text::same(message, "on") {
        Some(LightState::On)
    } else if text::same(message, "off") {
        Some(LightState::Off)
    } else if text::same(message, "auto") {
        Some(LightState::Auto)
    } else {
        None
    }
}

fn read_direction(word: &str) -> (direction: Option<Direction>)
    ensures
        direction == direction_named(word@),
{
    if text::same(word, "up") {
        Some(Direction::Up)
    } else if text::same(word, "down") {
        Some(Direction::Down)
    } else if text::same(word, "left") {
        Some(Direction::Left)
    } else if text::same(word, "right") {
        Some(Direction::Right)
    } else if text::same(word, "in") {
        Some(Direction::In)
    } else if text::same(word, "out") {
        Some(Direction::Out)
    } else {
        None
    }
}

/// The plan for a movement whose message is already in lower case.
pub fn plan_move(lower: &str) -> (plan: Plan)
    ensures
        plan@ == move_plan(lower@),
{
    let words = text::split_words(lower);
    if words.len() == 0 {
        return fail("control/ptz");
    }
    assert(text::words(lower@)[0] == words@[0]@);
    let direction = read_direction(words[0].as_str());
    let number = if words.len() > 1 {
        assert(text::words(lower@)[1] == words@[1]@);
        words[1].clone()
    } else {
        "32.0".to_owned()
    };
    Plan::ReadNumber { purpose: NumberUse::Move { direction }, number }
}

/// The plan for the floodlight's tasks, the message already in lower case.
pub fn plan_floodlight_tasks(lower: &str) -> (plan: Plan)
    ensures
        plan@ == tasks_plan(lower@),
{
    if text::same(lower, "on") || text::same(lower, "true") {
        run(Command::FloodlightTasks { on: true })
    } else if text::same(lower, "off") || text::same(lower, "false") {
        run(Command::FloodlightTasks { on: false })
    } else {
        Plan::Ack {
            topic: "control/floodlight_tasks",
            message:
                "FAIL: Could not parse message to provided string was not `true` or `false`".to_owned(),
        }
    }
}

fn plan_assign(message: &str) -> (plan: Plan)
    ensures
        plan@ == assign_plan(message@),
{
    let words = text::split_words(message);
    if words.len() < 2 {
        return fail("control/ir");
    }
    assert(text::words(message@)[0] == words@[0]@);
    assert(text::words(message@)[1] == words@[1]@);
    match text::parse_number(words[0].as_str(), 255) {
        Some(id) => Plan::Run {
            command: Command::AssignPreset { id: id as u8 },
            name: words[1].clone(),
        },
        None => fail("control/ir"),
    }
}

fn plan_scene(message: &str) -> (plan: Plan)
    ensures
        plan@ == scene_plan(message@),
{
    if text::same(message, "off") {
        return run(Command::DisableScene);
    }
    match text::parse_number(message, 255) {
        Some(id) => if id == 0 {
            run(Command::DisableScene)
        } else {
            run(Command::SetScene { id: id as u8 })
        },
        None => fail("control/scene"),
    }
}

/// The plan for a number of minutes to stay awake, or for what is none.
pub open spec fn awake_plan(message: Seq<char>, minutes: Result<u64, String>) -> PlanView {
    match minutes {
        Ok(n) => ask(Command::StayAwake { minutes: n }),
        Err(error) => PlanView::Ack("control/wakeup"@, "FAIL: '"@ + message + "' => "@ + error@),
    }
}

/// The plan for staying awake, given the number that the message was read as, or
/// why it could not be read.
pub fn plan_awake(message: &str, minutes: Result<u64, String>) -> (plan: Plan)
    ensures
        plan@ == awake_plan(message@, minutes),
{
    match minutes {
        Ok(minutes) => run(Command::StayAwake { minutes }),
        Err(error) => {
            let mut reply = "FAIL: '".to_owned();
            reply.append(message);
            reply.append("' => ");
            reply.append(error.as_str());
            Plan::Ack { topic: "control/wakeup", message: reply }
        },
    }
}

fn plan_wakeup(message: &str) -> (plan: Plan)
    ensures
        plan@ == wakeup_plan(message@),
{
    plan_awake(message, text::parse_u64(message))
}

fn plan_control(topic: &str, message: &str) -> (plan: Plan)
    ensures
        plan@ == control_plan(topic@, message@),
{
    if text::same(topic, "control/floodlight") {
        match read_on_off(message) {
            Some(on) => run(Command::Floodlight { on, seconds: FLOODLIGHT_SECONDS }),
            None => Plan::Ignore,
        }
    } else if text::same(topic, "control/led") {
        match read_on_off(message) {
            Some(on) => run(Command::Led { on }),
            None => Plan::Ignore,
        }
    } else if text::same(topic, "control/ir") {
        match read_light_state(message) {
            Some(state) => run(Command::Ir { state }),
            None => Plan::Ignore,
        }
    } else if text::same(topic, "control/reboot") {
        run(Command::Reboot)
    } else if text::same(topic, "control/zoom") {
        Plan::ReadNumber { purpose: NumberUse::Zoom, number: message.to_owned() }
    } else if text::same(topic, "control/ptz") || text::same(topic, "control/pt") {
        plan_move(text::lowercase(message).as_str())
    } else if text::same(topic, "control/ptz/preset") {
        match text::parse_number(message, 255) {
            Some(id) => run(Command::GotoPreset { id: id as u8 }),
            None => fail("control/ir"),
        }
    } else if text::same(topic, "control/ptz/assign") {
        plan_assign(message)
    } else if text::same(topic, "control/pir") {
        match read_on_off(message) {
            Some(on) => run(Command::Pir { on }),
            None => Plan::Ignore,
        }
    } else if text::same(topic, "control/wakeup") {
        plan_wakeup(message)
    } else if text::same(topic, "control/floodlight_tasks") {
        plan_floodlight_tasks(text::lowercase(message).as_str())
    } else if text::same(topic, "control/siren") {
        if text::same(message, "on") {
            run(Command::Siren)
        } else {
            Plan::Ignore
        }
    } else if text::same(topic, "control/privacy") {
        match read_on_off(message) {
            Some(on) => run(Command::SetPrivacy { on }),
            None => Plan::Ignore,
        }
    } else if text::same(topic, "control/scene") {
        plan_scene(message)
    } else {
        Plan::Ignore
    }
}

fn plan_query(topic: &str) -> (command: Option<Command>)
    ensures
        match command {
            Some(c) => query_plan(topic@) == ask(c),
            None => query_plan(topic@) == PlanView::Ignore,
        },
{
    if text::same(topic, "query/battery") {
        Some(Command::ReadBattery)
    } else if text::same(topic, "query/pir") {
        Some(Command::ReadPir)
    } else if text::same(topic, "query/ptz/preset") {
        Some(Command::ReadPresets)
    } else if text::same(topic, "query/privacy") {
        Some(Command::ReadPrivacy)
    } else if text::same(topic, "query/scene") {
        Some(Command::ReadScenes)
    } else if text::same(topic, "query/preview") {
        Some(Command::ReadPreview)
    } else {
        None
    }
}

/// What to do about a message to a camera.
pub fn handle_mqtt_message(topic: &str, message: &str) -> (plan: Plan)
    ensures
        plan@ == plan_of(topic@, message@),
{
    if text::same(message, "OK") || text::same(message, "FAIL") || text::starts_with(
        message,
        "FAIL:",
    ) || text::starts_with(message, "OK:") {
        return Plan::Ignore;
    }
    match plan_query(topic) {
        Some(command) => run(command),
        None => plan_control(topic, message),
    }
}

/// The plan for a zoom by a number, or for what is none.
pub open spec fn zoom_plan(thousandths: Option<u32>) -> PlanView {
    match thousandths {
        Some(t) => ask(Command::Zoom { thousandths: t }),
        None => PlanView::Ack("control/zoom"@, "FAIL: Could not convert message to number"@),
    }
}

/// What follows once a number has been read for a zoom position: the position
/// in thousandths, or nothing if the text was no number.
pub fn zoom_number(thousandths: Option<u32>) -> (plan: Plan)
    ensures
        plan@ == zoom_plan(thousandths),
{
    match thousandths {
        Some(thousandths) => run(Command::Zoom { thousandths }),
        None => Plan::Ack {
            topic: "control/zoom",
            message: "FAIL: Could not convert message to number".to_owned(),
        },
    }
}

/// The plan for a movement that is held for so long, or for what is none.
pub open spec fn held_move_plan(direction: Option<Direction>, hold_ns: Option<u64>) -> PlanView {
    match (direction, hold_ns) {
        (Some(d), Some(ns)) => ask(Command::Move { direction: d, hold_ns: ns }),
        _ => PlanView::Ack("control/ptz"@, "FAIL"@),
    }
}

/// What follows once a number has been read for a movement: how long to hold,
/// or nothing if the text was no number or too far.
pub fn move_number(direction: Option<Direction>, hold_ns: Option<u64>) -> (plan: Plan)
    ensures
        plan@ == held_move_plan(direction, hold_ns),
{
    match (direction, hold_ns) {
        (Some(direction), Some(hold_ns)) => run(Command::Move { direction, hold_ns }),
        _ => fail("control/ptz"),
    }
}

/// What the camera answered.
#[derive(Debug)]
pub enum Outcome {
    /// It did not; the debug form of the error.
    Failed { error: String },
    /// It did what was asked.
    Done,
    /// A block of XML.
    Xml(String),
    /// A state.
    Flag(bool),
    /// The ids of its scenes.
    Ids(Vec<u8>),
    /// A picture.
    Bytes(Vec<u8>),
}

/// A message to publish.
#[derive(Debug)]
pub struct Publish {
    pub topic: &'static str,
    pub message: String,
    pub retain: bool,
}

impl Publish {
    /// The message as topic, text and whether it is retained.
    pub open spec fn parts(&self) -> (Seq<char>, Seq<char>, bool) {
        (self.topic@, self.message@, self.retain)
    }
}

/// What it means if a status could not be published.
#[derive(Clone, Copy, PartialEq, Eq, Structural, Debug)]
pub enum StatusFailure {
    /// Handling the message fails.
    Abort,
    /// Nothing: the status was published ahead of the camera's own.
    Ignore,
    /// The answer is `FAIL`.
    Report,
}

/// What is published about an outcome: perhaps a status, then the answer.
#[derive(Debug)]
pub struct Reply {
    pub status: Option<Publish>,
    pub status_failure: StatusFailure,
    pub ack: Publish,
}

/// The topic on which a command is answered.
pub open spec fn ack_topic(command: Command) -> Seq<char> {
    match command {
        Command::Floodlight { .. } => "control/floodlight"@,
        Command::Led { .. } => "control/led"@,
        Command::Ir { .. } => "control/ir"@,
        Command::Reboot => "control/ir"@,
        Command::Zoom { .. } => "control/zoom"@,
        Command::Move { .. } => "control/ptz"@,
        Command::GotoPreset { .. } => "control/ir"@,
        Command::AssignPreset { .. } => "control/ir"@,
        Command::Pir { .. } => "control/pir"@,
        Command::StayAwake { .. } => "control/wakeup"@,
        Command::FloodlightTasks { .. } => "control/floodlight_tasks"@,
        Command::Siren => "control/siren"@,
        Command::ReadBattery => "query/battery"@,
        Command::ReadPir => "query/pir"@,
        Command::ReadPresets => "query/ptz"@,
        Command::SetPrivacy { .. } => "control/privacy"@,
        Command::DisableScene => "control/scene"@,
        Command::SetScene { .. } => "control/scene"@,
        Command::ReadPrivacy => "query/privacy"@,
        Command::ReadScenes => "query/scene"@,
        Command::ReadPreview => "query/preview"@,
    }
}

/// Whether an outcome is the success of a command.
pub open spec fn succeeded(command: Command, outcome: Outcome) -> bool {
    match command {
        Command::ReadBattery | Command::ReadPir | Command::ReadPresets => outcome is Xml,
        Command::ReadPrivacy => outcome is Flag,
        Command::ReadScenes => outcome is Ids,
        Command::ReadPreview => outcome is Bytes,
        _ => outcome is Done,
    }
}

/// The answer to a command that failed: some say why.
pub open spec fn failure_text(command: Command, outcome: Outcome) -> Seq<char> {
    match (command, outcome) {
        (Command::Zoom { .. }, Outcome::Failed { error }) => "FAIL: "@ + error@,
        (Command::FloodlightTasks { .. }, Outcome::Failed { error }) => "FAIL: "@ + error@,
        (Command::Siren, Outcome::Failed { error }) => "FAIL: "@ + error@,
        (Command::StayAwake { .. }, _) => "FAIL: Camera shutting down"@,
        _ => "FAIL"@,
    }
}

/// `on` or `off`.
pub open spec fn on_off_text(on: bool) -> Seq<char> {
    if on {
        "on"@
    } else {
        "off"@
    }
}

/// The status that a command's success is published as, and what it means if
/// that fails.
pub open spec fn status_of(command: Command, outcome: Outcome) -> Option<
    ((Seq<char>, Seq<char>, bool), StatusFailure),
> {
    match (command, outcome) {
        (Command::ReadBattery, Outcome::Xml(xml)) => Some(
            (("status/battery"@, xml@, false), StatusFailure::Abort),
        ),
        (Command::ReadPir, Outcome::Xml(xml)) => Some(
            (("status/pir"@, xml@, false), StatusFailure::Abort),
        ),
        (Command::ReadPresets, Outcome::Xml(xml)) => Some(
            (("status/ptz/preset"@, xml@, false), StatusFailure::Abort),
        ),
        (Command::SetPrivacy { on }, Outcome::Done) => Some(
            (("status/privacy"@, on_off_text(on), true), StatusFailure::Ignore),
        ),
        (Command::DisableScene, Outcome::Done) => Some(
            (("status/scene"@, "off"@, true), StatusFailure::Ignore),
        ),
        (Command::SetScene { id }, Outcome::Done) => Some(
            (("status/scene"@, text::decimal(id as nat), true), StatusFailure::Ignore),
        ),
        (Command::ReadPrivacy, Outcome::Flag(on)) => Some(
            (("status/privacy"@, on_off_text(on), true), StatusFailure::Report),
        ),
        (Command::ReadScenes, Outcome::Ids(ids)) => Some(
            (
                ("status/scene_list"@, text::csv(ids@.map_values(|n: u8| n as nat)), true),
                StatusFailure::Report,
            ),
        ),
        (Command::ReadPreview, Outcome::Bytes(bytes)) => Some(
            (("status/preview"@, codec::base64_text(bytes@), true), StatusFailure::Report),
        ),
        _ => None,
    }
}

fn ack_topic_of(command: Command) -> (topic: &'static str)
    ensures
        topic@ == ack_topic(command),
{
    match command {
        Command::Floodlight { .. } => "control/floodlight",
        Command::Led { .. } => "control/led",
        Command::Ir { .. } => "control/ir",
        Command::Reboot => "control/ir",
        Command::Zoom { .. } => "control/zoom",
        Command::Move { .. } => "control/ptz",
        Command::GotoPreset { .. } => "control/ir",
        Command::AssignPreset { .. } => "control/ir",
        Command::Pir { .. } => "control/pir",
        Command::StayAwake { .. } => "control/wakeup",
        Command::FloodlightTasks { .. } => "control/floodlight_tasks",
        Command::Siren => "control/siren",
        Command::ReadBattery => "query/battery",
        Command::ReadPir => "query/pir",
        Command::ReadPresets => "query/ptz",
        Command::SetPrivacy { .. } => "control/privacy",
        Command::DisableScene => "control/scene",
        Command::SetScene { .. } => "control/scene",
        Command::ReadPrivacy => "query/privacy",
        Command::ReadScenes => "query/scene",
        Command::ReadPreview => "query/preview",
    }
}

/// `on` or `off`.
pub fn on_off_word(on: bool) -> (word: &'static str)
    ensures
        word@ == on_off_text(on),
{
    if on {
        "on"
    } else {
        "off"
    }
}

fn is_success(command: Command, outcome: &Outcome) -> (yes: bool)
    ensures
        yes == succeeded(command, *outcome),
{
    match command {
        Command::ReadBattery | Command::ReadPir | Command::ReadPresets => matches!(
            outcome,
            Outcome::Xml(_)
        ),
        Command::ReadPrivacy => matches!(outcome, Outcome::Flag(_)),
        Command::ReadScenes => matches!(outcome, Outcome::Ids(_)),
        Command::ReadPreview => matches!(outcome, Outcome::Bytes(_)),
        _ => matches!(outcome, Outcome::Done),
    }
}

fn failure_message(command: Command, outcome: &Outcome) -> (message: String)
    ensures
        message@ == failure_text(command, *outcome),
{
    let explains: bool = matches!(command, Command::Zoom { .. } | Command::FloodlightTasks { .. } | Command::Siren);
    if let Command::StayAwake { .. } = command {
        return "FAIL: Camera shutting down".to_owned();
    }
    match outcome {
        Outcome::Failed { error } => if explains {
            let mut message = "FAIL: ".to_owned();
            message.append(error.as_str());
            message
        } else {
            "FAIL".to_owned()
        },
        _ => "FAIL".to_owned(),
    }
}

fn status_message(command: Command, outcome: &Outcome) -> (status: Option<(Publish, StatusFailure)>)
    ensures
        match status {
            Some((publish, failure)) => status_of(command, *outcome) == Some(
                (publish.parts(), failure),
            ),
            None => status_of(command, *outcome) is None,
        },
{
    match (command, outcome) {
        (Command::ReadBattery, Outcome::Xml(xml)) => Some(
            (
                Publish { topic: "status/battery", message: xml.clone(), retain: false },
                StatusFailure::Abort,
            ),
        ),
        (Command::ReadPir, Outcome::Xml(xml)) => Some(
            (
                Publish { topic: "status/pir", message: xml.clone(), retain: false },
                StatusFailure::Abort,
            ),
        ),
        (Command::ReadPresets, Outcome::Xml(xml)) => Some(
            (
                Publish { topic: "status/ptz/preset", message: xml.clone(), retain: false },
                StatusFailure::Abort,
            ),
        ),
        (Command::SetPrivacy { on }, Outcome::Done) => Some(
            (
                Publish {
                    topic: "status/privacy",
                    message: on_off_word(on).to_owned(),
                    retain: true,
                },
                StatusFailure::Ignore,
            ),
        ),
        (Command::DisableScene, Outcome::Done) => Some(
            (
                Publish { topic: "status/scene", message: "off".to_owned(), retain: true },
                StatusFailure::Ignore,
            ),
        ),
        (Command::SetScene { id }, Outcome::Done) => Some(
            (
                Publish {
                    topic: "status/scene",
                    message: text::decimal_text(id as u64),
                    retain: true,
                },
                StatusFailure::Ignore,
            ),
        ),
        (Command::ReadPrivacy, Outcome::Flag(on)) => Some(
            (
                Publish {
                    topic: "status/privacy",
                    message: on_off_word(*on).to_owned(),
                    retain: true,
                },
                StatusFailure::Report,
            ),
        ),
        (Command::ReadScenes, Outcome::Ids(ids)) => Some(
            (
                Publish {
                    topic: "status/scene_list",
                    message: text::csv_u8(ids.as_slice()),
                    retain: true,
                },
                StatusFailure::Report,
            ),
        ),
        (Command::ReadPreview, Outcome::Bytes(bytes)) => Some(
            (
                Publish {
                    topic: "status/preview",
                    message: codec::base64_encode(bytes.as_slice()),
                    retain: true,
                },
                StatusFailure::Report,
            ),
        ),
        _ => None,
    }
}

/// The answer to a command: where it is published, what it says, and that the broker
/// does not keep it.
pub open spec fn ack_of(command: Command, outcome: Outcome) -> (Seq<char>, Seq<char>, bool) {
    (
        ack_topic(command),
        if succeeded(command, outcome) {
            "OK"@
        } else {
            failure_text(command, outcome)
        },
        false,
    )
}

/// What is published about the outcome of a command.
pub fn reply_to(command: Command, outcome: &Outcome) -> (reply: Reply)
    ensures
        reply.ack.parts() == ack_of(command, *outcome),
        match reply.status {
            Some(publish) => status_of(command, *outcome) == Some(
                (publish.parts(), reply.status_failure),
            ),
            None => status_of(command, *outcome) is None,
        },
{
    let message = if is_success(command, outcome) {
        "OK".to_owned()
    } else {
        failure_message(command, outcome)
    };
    let ack = Publish { topic: ack_topic_of(command), message, retain: false };
    match status_message(command, outcome) {
        Some((publish, status_failure)) => Reply { status: Some(publish), status_failure, ack },
        None => Reply { status: None, status_failure: StatusFailure::Ignore, ack },
    }
}

/// What an answer says once its status was sent or lost: nothing where that ends it, a
/// failure where that is to be told, and what it was going to say in every other case.
pub open spec fn said_after(lost: bool, failure: StatusFailure, message: Seq<char>) -> Option<
    Seq<char>,
> {
    if lost && failure == StatusFailure::Abort {
        None
    } else if lost && failure == StatusFailure::Report {
        Some("FAIL"@)
    } else {
        Some(message)
    }
}

/// The answer to publish once the status has been, or `None` if handling the
/// message fails there. `sent` says whether the status went out.
pub fn ack_after(reply: Reply, sent: bool) -> (ack: Option<Publish>)
    ensures
        ({
            let said = said_after(
                reply.status is Some && !sent,
                reply.status_failure,
                reply.ack.message@,
            );
            match ack {
                Some(publish) => publish.topic == reply.ack.topic && publish.retain
                    == reply.ack.retain && said == Some(publish.message@),
                None => said is None,
            }
        }),
{
    let lost: bool = reply.status.is_some() && !sent;
    if lost && reply.status_failure == StatusFailure::Abort {
        return None;
    }
    let message = if lost && reply.status_failure == StatusFailure::Report {
        "FAIL".to_owned()
    } else {
        reply.ack.message
    };
    Some(Publish { topic: reply.ack.topic, message, retain: reply.ack.retain })
}

/// Whatever is answered to a command is no command itself: answers are sent on
/// topics that are listened to, and must not be taken for new messages.
pub proof fn law_answers_are_ignored(command: Command, outcome: Outcome, topic: Seq<char>)
    ensures
        plan_of(topic, "OK"@) == PlanView::Ignore,
        plan_of(topic, failure_text(command, outcome)) == PlanView::Ignore,
{
    reveal_strlit("FAIL: ");
    reveal_strlit("FAIL:");
    reveal_strlit("FAIL: Camera shutting down");
    let said = failure_text(command, outcome);
    if said != "FAIL"@ {
        assert(said.subrange(0, 5) =~= "FAIL:"@);
    }
}

/// Every answer that a plan gives without asking the camera is ignored when it
/// comes back.
pub proof fn law_refusals_are_ignored(topic: Seq<char>, message: Seq<char>, again: Seq<char>)
    ensures
        plan_of(topic, message) matches PlanView::Ack(_, said) ==> plan_of(again, said)
            == PlanView::Ignore,
{
    reveal_strlit("FAIL:");
    reveal_strlit("FAIL: '");
    reveal_strlit("FAIL: Could not parse message to provided string was not `true` or `false`");
    if let PlanView::Ack(_, said) = plan_of(topic, message) {
        if said != "FAIL"@ {
            assert(said.subrange(0, 5) =~= "FAIL:"@);
        }
    }
}

proof fn lemma_topics()
    ensures
        "control/floodlight"@.len() == 18,
        "control/led"@.len() == 11,
        "control/ir"@.len() == 10,
        "control/reboot"@.len() == 14,
        "control/zoom"@.len() == 12,
        "control/ptz"@.len() == 11,
        "control/pt"@.len() == 10,
        "control/ptz/preset"@.len() == 18,
        "control/ptz/assign"@.len() == 18,
        "control/pir"@.len() == 11,
        "control/wakeup"@.len() == 14,
        "control/floodlight_tasks"@.len() == 24,
        "control/siren"@.len() == 13,
        "control/privacy"@.len() == 15,
        "control/scene"@.len() == 13,
        "query/battery"@.len() == 13,
        "query/pir"@.len() == 9,
        "query/ptz/preset"@.len() == 16,
        "query/privacy"@.len() == 13,
        "query/scene"@.len() == 11,
        "query/preview"@.len() == 13,
        "control/floodlight"@ != "control/ptz/preset"@,
        "control/floodlight"@ != "control/ptz/assign"@,
        "control/led"@ != "control/ptz"@,
        "control/led"@ != "control/pir"@,
        "control/led"@ != "query/scene"@,
        "control/ir"@ != "control/pt"@,
        "control/reboot"@ != "control/wakeup"@,
        "control/ptz"@ != "control/pir"@,
        "control/ptz"@ != "query/scene"@,
        "control/ptz/preset"@ != "control/ptz/assign"@,
        "control/pir"@ != "query/scene"@,
        "control/siren"@ != "control/scene"@,
        "control/siren"@ != "query/battery"@,
        "control/siren"@ != "query/privacy"@,
        "control/siren"@ != "query/preview"@,
        "control/scene"@ != "query/battery"@,
        "control/scene"@ != "query/privacy"@,
        "control/scene"@ != "query/preview"@,
        "query/battery"@ != "query/privacy"@,
        "query/battery"@ != "query/preview"@,
        "query/privacy"@ != "query/preview"@,
{
    reveal_strlit("control/floodlight");
    reveal_strlit("control/led");
    reveal_strlit("control/ir");
    reveal_strlit("control/reboot");
    reveal_strlit("control/zoom");
    reveal_strlit("control/ptz");
    reveal_strlit("control/pt");
    reveal_strlit("control/ptz/preset");
    reveal_strlit("control/ptz/assign");
    reveal_strlit("control/pir");
    reveal_strlit("control/wakeup");
    reveal_strlit("control/floodlight_tasks");
    reveal_strlit("control/siren");
    reveal_strlit("control/privacy");
    reveal_strlit("control/scene");
    reveal_strlit("query/battery");
    reveal_strlit("query/pir");
    reveal_strlit("query/ptz/preset");
    reveal_strlit("query/privacy");
    reveal_strlit("query/scene");
    reveal_strlit("query/preview");
    assert("control/floodlight"@[8] != "control/ptz/preset"@[8]);
    assert("control/floodlight"@[8] != "control/ptz/assign"@[8]);
    assert("control/led"@[8] != "control/ptz"@[8]);
    assert("control/led"@[8] != "control/pir"@[8]);
    assert("control/led"@[0] != "query/scene"@[0]);
    assert("control/ir"@[8] != "control/pt"@[8]);
    assert("control/reboot"@[8] != "control/wakeup"@[8]);
    assert("control/ptz"@[9] != "control/pir"@[9]);
    assert("control/ptz"@[0] != "query/scene"@[0]);
    assert("control/ptz/preset"@[12] != "control/ptz/assign"@[12]);
    assert("control/pir"@[0] != "query/scene"@[0]);
    assert("control/siren"@[9] != "control/scene"@[9]);
    assert("control/siren"@[0] != "query/battery"@[0]);
    assert("control/siren"@[0] != "query/privacy"@[0]);
    assert("control/siren"@[0] != "query/preview"@[0]);
    assert("control/scene"@[0] != "query/battery"@[0]);
    assert("control/scene"@[0] != "query/privacy"@[0]);
    assert("control/scene"@[0] != "query/preview"@[0]);
    assert("query/battery"@[6] != "query/privacy"@[6]);
    assert("query/battery"@[6] != "query/preview"@[6]);
    assert("query/privacy"@[8] != "query/preview"@[8]);
}

proof fn lemma_words()
    ensures
        "on"@.len() == 2,
        "off"@.len() == 3,
        "auto"@.len() == 4,
        "true"@.len() == 4,
        "false"@.len() == 5,
        "up"@.len() == 2,
        "down"@.len() == 4,
        "left"@.len() == 4,
        "right"@.len() == 5,
        "in"@.len() == 2,
        "out"@.len() == 3,
        "OK"@.len() == 2,
        "FAIL"@.len() == 4,
        "OK:"@.len() == 3,
        "FAIL:"@.len() == 5,
        "on"@ != "up"@,
        "on"@ != "in"@,
        "on"@ != "OK"@,
        "off"@ != "out"@,
        "off"@ != "OK:"@,
        "auto"@ != "true"@,
        "auto"@ != "down"@,
        "auto"@ != "left"@,
        "auto"@ != "FAIL"@,
        "true"@ != "down"@,
        "true"@ != "left"@,
        "true"@ != "FAIL"@,
        "false"@ != "right"@,
        "false"@ != "FAIL:"@,
        "up"@ != "in"@,
        "up"@ != "OK"@,
        "down"@ != "left"@,
        "down"@ != "FAIL"@,
        "left"@ != "FAIL"@,
        "right"@ != "FAIL:"@,
        "in"@ != "OK"@,
        "out"@ != "OK:"@,
        !is_answer("on"@),
        !is_answer("off"@),
        !is_answer("auto"@),
        !is_answer("true"@),
        !is_answer("false"@),
        !is_answer("up"@),
        !is_answer("down"@),
        !is_answer("left"@),
        !is_answer("right"@),
        !is_answer("in"@),
        !is_answer("out"@),
{
    reveal_strlit("on");
    reveal_strlit("off");
    reveal_strlit("auto");
    reveal_strlit("true");
    reveal_strlit("false");
    reveal_strlit("up");
    reveal_strlit("down");
    reveal_strlit("left");
    reveal_strlit("right");
    reveal_strlit("in");
    reveal_strlit("out");
    reveal_strlit("OK");
    reveal_strlit("FAIL");
    reveal_strlit("OK:");
    reveal_strlit("FAIL:");
    assert("on"@[0] != "up"@[0]);
    assert("on"@[0] != "in"@[0]);
    assert("on"@[0] != "OK"@[0]);
    assert("off"@[1] != "out"@[1]);
    assert("off"@[0] != "OK:"@[0]);
    assert("auto"@[0] != "true"@[0]);
    assert("auto"@[0] != "down"@[0]);
    assert("auto"@[0] != "left"@[0]);
    assert("auto"@[0] != "FAIL"@[0]);
    assert("true"@[0] != "down"@[0]);
    assert("true"@[0] != "left"@[0]);
    assert("true"@[0] != "FAIL"@[0]);
    assert("false"@[0] != "right"@[0]);
    assert("false"@[0] != "FAIL:"@[0]);
    assert("up"@[0] != "in"@[0]);
    assert("up"@[0] != "OK"@[0]);
    assert("down"@[0] != "left"@[0]);
    assert("down"@[0] != "FAIL"@[0]);
    assert("left"@[0] != "FAIL"@[0]);
    assert("right"@[0] != "FAIL:"@[0]);
    assert("in"@[0] != "OK"@[0]);
    assert("out"@[0] != "OK:"@[0]);
    assert("off"@[0] != "OK:"@[0]);
    assert("auto"@[0] != "OK:"@[0]);
    assert("true"@[0] != "OK:"@[0]);
    assert("false"@[0] != "OK:"@[0]);
    assert("false"@[0] != "FAIL:"@[0]);
    assert("down"@[0] != "OK:"@[0]);
    assert("left"@[0] != "OK:"@[0]);
    assert("right"@[0] != "OK:"@[0]);
    assert("right"@[0] != "FAIL:"@[0]);
    assert("out"@[0] != "OK:"@[0]);
}

/// A switch is turned to the state that its message names, and by no other
/// message: what is asked of the camera is on exactly for `on`, and off exactly
/// for `off`.
pub proof fn law_switches_follow_their_message(message: Seq<char>, on: bool)
    ensures
        ({
            let says = message == (if on {
                "on"@
            } else {
                "off"@
            });
            &&& plan_of("control/led"@, message) == PlanView::Run(
                Command::Led { on },
                Seq::empty(),
            ) <==> says
            &&& plan_of("control/pir"@, message) == PlanView::Run(
                Command::Pir { on },
                Seq::empty(),
            ) <==> says
            &&& plan_of("control/privacy"@, message) == PlanView::Run(
                Command::SetPrivacy { on },
                Seq::empty(),
            ) <==> says
            &&& plan_of("control/floodlight"@, message) == PlanView::Run(
                Command::Floodlight { on, seconds: 180 },
                Seq::empty(),
            ) <==> says
        }),
{
    lemma_topics();
    lemma_words();
}

/// The infrared lights are set to the state of the same name.
pub proof fn law_lights_follow_their_message(message: Seq<char>, state: LightState)
    ensures
        plan_of("control/ir"@, message) == PlanView::Run(Command::Ir { state }, Seq::empty()) <==> (
        state == LightState::On && message == "on"@) || (state == LightState::Off && message
            == "off"@) || (state == LightState::Auto && message == "auto"@),
{
    lemma_topics();
    lemma_words();
}

/// A movement goes the way that its first word says, as far as its second word
/// says or, without one, 32: up is up, down is down, left is left, right is
/// right, in is in and out is out. A word that says nothing moves nothing.
pub proof fn law_moves_go_where_they_are_told(message: Seq<char>, topic: Seq<char>)
    requires
        topic == "control/ptz"@ || topic == "control/pt"@,
        !is_answer(message),
        text::words(text::unicode_lowercase(message)).len() > 0,
    ensures
        ({
            let words = text::words(text::unicode_lowercase(message));
            let plan = plan_of(topic, message);
            &&& plan matches PlanView::ReadNumber(NumberUse::Move { direction }, number) && {
                &&& words[0] == "up"@ <==> direction == Some(Direction::Up)
                &&& words[0] == "down"@ <==> direction == Some(Direction::Down)
                &&& words[0] == "left"@ <==> direction == Some(Direction::Left)
                &&& words[0] == "right"@ <==> direction == Some(Direction::Right)
                &&& words[0] == "in"@ <==> direction == Some(Direction::In)
                &&& words[0] == "out"@ <==> direction == Some(Direction::Out)
                &&& direction != Some(Direction::Stop)
                &&& words.len() > 1 ==> number == words[1]
                &&& words.len() == 1 ==> number == "32.0"@
            }
        }),
{
    lemma_topics();
    lemma_words();
}

/// The camera is asked only for what the topic of a message names, and for that
/// by every message that is no answer.
pub proof fn law_topics_name_their_command(topic: Seq<char>, message: Seq<char>)
    requires
        message != "OK"@,
        message != "FAIL"@,
        !"OK:"@.is_prefix_of(message),
        !"FAIL:"@.is_prefix_of(message),
    ensures
        ({
            let plan = plan_of(topic, message);
            let nothing = Seq::<char>::empty();
            &&& plan == PlanView::Run(Command::Reboot, nothing) <==> topic == "control/reboot"@
            &&& plan == PlanView::Run(Command::Siren, nothing) <==> topic == "control/siren"@
                && message == "on"@
            &&& plan == PlanView::Run(Command::ReadBattery, nothing) <==> topic == "query/battery"@
            &&& plan == PlanView::Run(Command::ReadPir, nothing) <==> topic == "query/pir"@
            &&& plan == PlanView::Run(Command::ReadPresets, nothing) <==> topic
                == "query/ptz/preset"@
            &&& plan == PlanView::Run(Command::ReadPrivacy, nothing) <==> topic == "query/privacy"@
            &&& plan == PlanView::Run(Command::ReadScenes, nothing) <==> topic == "query/scene"@
            &&& plan == PlanView::Run(Command::ReadPreview, nothing) <==> topic == "query/preview"@
            &&& plan == PlanView::ReadNumber(NumberUse::Zoom, message) <==> topic == "control/zoom"@
        }),
{
    lemma_topics();
    lemma_words();
}

/// A preset is gone to by its number, from 0 to 255, and one that is stored takes
/// its number and its name from the first two words.
pub proof fn law_presets_go_by_number(id: u8, message: Seq<char>)
    ensures
        plan_of("control/ptz/preset"@, text::decimal(id as nat)) == PlanView::Run(
            Command::GotoPreset { id },
            Seq::empty(),
        ),
        !is_answer(message) && text::words(message).len() >= 2 && text::words(message)[0]
            == text::decimal(id as nat) ==> plan_of("control/ptz/assign"@, message)
            == PlanView::Run(Command::AssignPreset { id }, text::words(message)[1]),
        plan_of("control/ptz/preset"@, message) matches PlanView::Run(c, _) ==> c is GotoPreset,
        plan_of("control/ptz/assign"@, message) matches PlanView::Run(c, _) ==> c is AssignPreset,
{
    lemma_topics();
    lemma_words();
    lemma_number_is_no_answer(id as nat);
    text::law_decimal_round_trip(id as nat, 255);
}

proof fn lemma_number_is_no_answer(n: nat)
    ensures
        !is_answer(text::decimal(n)),
        text::decimal(n) != "on"@,
        text::decimal(n) != "off"@,
{
    lemma_words();
    reveal_strlit("OK");
    reveal_strlit("FAIL");
    reveal_strlit("OK:");
    reveal_strlit("FAIL:");
    reveal_strlit("on");
    reveal_strlit("off");
    text::lemma_decimal_digits(n);
    let said = text::decimal(n);
    assert(text::is_digit(said[0]));
    assert("OK"@[0] == 'O' && "FAIL"@[0] == 'F' && "OK:"@[0] == 'O' && "FAIL:"@[0] == 'F' && "on"@[0]
        == 'o' && "off"@[0] == 'o');
    if "OK:"@.is_prefix_of(said) {
        assert(said.subrange(0, 3)[0] == said[0]);
    }
    if "FAIL:"@.is_prefix_of(said) {
        assert(said.subrange(0, 5)[0] == said[0]);
    }
}

/// A scene is activated by its number; zero and `off` both disable scenes.
pub proof fn law_scenes_go_by_number(id: u8)
    ensures
        plan_of("control/scene"@, "off"@) == PlanView::Run(Command::DisableScene, Seq::empty()),
        plan_of("control/scene"@, text::decimal(id as nat)) == (if id == 0 {
            PlanView::Run(Command::DisableScene, Seq::empty())
        } else {
            PlanView::Run(Command::SetScene { id }, Seq::empty())
        }),
{
    lemma_topics();
    lemma_words();
    lemma_number_is_no_answer(id as nat);
    text::law_decimal_round_trip(id as nat, 255);
}

/// A camera is kept awake for as many minutes as the message says.
pub proof fn law_awake_for_the_minutes_said(minutes: u64)
    ensures
        plan_of("control/wakeup"@, text::decimal(minutes as nat)) == PlanView::Run(
            Command::StayAwake { minutes },
            Seq::empty(),
        ),
{
    lemma_topics();
    lemma_words();
    lemma_number_is_no_answer(minutes as nat);
    text::law_decimal_round_trip(minutes as nat, u64::MAX as nat);
}

/// The floodlight's tasks are turned on by `on` and `true`, off by `off` and
/// `false`, and by nothing else, whatever the case.
pub proof fn law_tasks_follow_their_message(message: Seq<char>, on: bool)
    requires
        !is_answer(message),
    ensures
        ({
            let lower = text::unicode_lowercase(message);
            plan_of("control/floodlight_tasks"@, message) == PlanView::Run(
                Command::FloodlightTasks { on },
                Seq::empty(),
            ) <==> (if on {
                lower == "on"@ || lower == "true"@
            } else {
                lower == "off"@ || lower == "false"@
            })
        }),
{
    lemma_topics();
    lemma_words();
}

/// A command is answered on the topic it came in on. The exceptions: `reboot`
/// and the presets are answered under `control/ir`, the question for presets
/// under `query/ptz`, and `control/pt` under `control/ptz`.
pub proof fn law_commands_are_answered_where_they_came_from(topic: Seq<char>, message: Seq<char>)
    ensures
        plan_of(topic, message) matches PlanView::Run(command, _) ==> ack_topic(command) == (if topic
            == "control/reboot"@ || topic == "control/ptz/preset"@ || topic
            == "control/ptz/assign"@ {
            "control/ir"@
        } else if topic == "query/ptz/preset"@ {
            "query/ptz"@
        } else {
            topic
        }),
        plan_of(topic, message) is ReadNumber ==> (topic == "control/zoom"@ || topic
            == "control/ptz"@ || topic == "control/pt"@),
        forall|thousandths: u32| ack_topic(Command::Zoom { thousandths }) == "control/zoom"@,
        forall|direction: Direction, hold_ns: u64|
            ack_topic(Command::Move { direction, hold_ns }) == "control/ptz"@,
{
    lemma_topics();
}

/// What is published about a switch or a scene is what would ask for it again:
/// the state of the shutter is told in the words that set it, and a scene by the
/// number that activates it.
pub proof fn law_statuses_ask_for_what_they_tell(on: bool, id: u8)
    requires
        id != 0,
    ensures
        status_of(Command::SetPrivacy { on }, Outcome::Done) matches Some(((topic, said, retain), _))
            && topic == "status/privacy"@ && retain && plan_of("control/privacy"@, said)
            == PlanView::Run(Command::SetPrivacy { on }, Seq::empty()),
        status_of(Command::ReadPrivacy, Outcome::Flag(on)) matches Some(((topic, said, retain), _))
            && topic == "status/privacy"@ && retain && plan_of("control/privacy"@, said)
            == PlanView::Run(Command::SetPrivacy { on }, Seq::empty()),
        status_of(Command::SetScene { id }, Outcome::Done) matches Some(((topic, said, retain), _))
            && topic == "status/scene"@ && retain && plan_of("control/scene"@, said)
            == PlanView::Run(Command::SetScene { id }, Seq::empty()),
        status_of(Command::DisableScene, Outcome::Done) matches Some(((topic, said, retain), _))
            && topic == "status/scene"@ && retain && plan_of("control/scene"@, said)
            == PlanView::Run(Command::DisableScene, Seq::empty()),
{
    lemma_topics();
    lemma_words();
    law_scenes_go_by_number(id);
    law_switches_follow_their_message(
        if on {
            "on"@
        } else {
            "off"@
        },
        on,
    );
}

/// What a camera was asked for is published as it came, under the status topic of
/// the question, and only what the camera really answered is called a success.
pub proof fn law_answers_are_published_as_they_came(command: Command, outcome: Outcome)
    ensures
        outcome is Failed ==> !succeeded(command, outcome) && status_of(command, outcome) is None,
        status_of(command, outcome) is Some ==> succeeded(command, outcome),
        command == Command::ReadBattery && outcome is Xml ==> status_of(command, outcome)
            == Some((("status/battery"@, outcome->Xml_0@, false), StatusFailure::Abort)),
        command == Command::ReadPir && outcome is Xml ==> status_of(command, outcome)
            == Some((("status/pir"@, outcome->Xml_0@, false), StatusFailure::Abort)),
        command == Command::ReadPresets && outcome is Xml ==> status_of(command, outcome)
            == Some((("status/ptz/preset"@, outcome->Xml_0@, false), StatusFailure::Abort)),
        command == Command::ReadPreview && outcome is Bytes ==> status_of(command, outcome)
            == Some(
            (
                ("status/preview"@, codec::base64_text(outcome->Bytes_0@), true),
                StatusFailure::Report,
            ),
        ),
        command == Command::ReadScenes && outcome is Ids ==> (status_of(command, outcome)
            matches Some(((topic, said, retain), _)) && topic == "status/scene_list"@ && retain
            && said == text::csv(outcome->Ids_0@.map_values(|n: u8| n as nat))),
        outcome is Done ==> (succeeded(command, outcome) <==> !(command is ReadBattery
            || command is ReadPir || command is ReadPresets || command is ReadPrivacy
            || command is ReadScenes || command is ReadPreview)),
{
}

/// A failure is never told as a success: the answer starts with `FAIL`, and the
/// zoom, the siren and the floodlight's tasks say why.
pub proof fn law_failures_say_so(command: Command, error: String)
    ensures
        ({
            let said = failure_text(command, Outcome::Failed { error });
            &&& said != "OK"@
            &&& said.len() >= 4 && said.take(4) == "FAIL"@
            &&& command is Zoom || command is Siren || command is FloodlightTasks ==> said
                == "FAIL: "@ + error@
        }),
{
    reveal_strlit("OK");
    reveal_strlit("FAIL");
    reveal_strlit("FAIL: ");
    reveal_strlit("FAIL: Camera shutting down");
    let said = failure_text(command, Outcome::Failed { error });
    assert(said.len() >= 4);
    assert(said.take(4) =~= "FAIL"@);
    assert(said != "OK"@);
}

/// A command that succeeded is answered with `OK`, one that did not with its failure, under
/// the topic for its answers, and the broker keeps neither.
pub proof fn law_success_is_answered_ok(command: Command, outcome: Outcome)
    ensures
        ack_of(command, outcome).0 == ack_topic(command),
        succeeded(command, outcome) ==> ack_of(command, outcome).1 == "OK"@,
        !succeeded(command, outcome) ==> ack_of(command, outcome).1 == failure_text(
            command,
            outcome,
        ),
        !ack_of(command, outcome).2,
{
}

/// An answer whose status was lost is not sent, or says that it failed, if that is what its
/// command asks for; any other says what it was going to.
pub proof fn law_lost_statuses_change_the_answer(message: Seq<char>, failure: StatusFailure)
    ensures
        said_after(false, failure, message) == Some(message),
        said_after(true, StatusFailure::Abort, message) is None,
        said_after(true, StatusFailure::Report, message) == Some("FAIL"@),
        failure != StatusFailure::Abort && failure != StatusFailure::Report ==> said_after(
            true,
            failure,
            message,
        ) == Some(message),
{
}

/// Numbers go into the commands that they are for; without one the command fails, and says
/// so under its own topic.
pub proof fn law_numbers_go_into_their_commands(
    message: Seq<char>,
    n: u64,
    error: String,
    t: u32,
    d: Direction,
)
    ensures
        awake_plan(message, Ok(n)) == PlanView::Run(
            Command::StayAwake { minutes: n },
            Seq::empty(),
        ),
        awake_plan(message, Err(error)) == PlanView::Ack(
            "control/wakeup"@,
            "FAIL: '"@ + message + "' => "@ + error@,
        ),
        zoom_plan(Some(t)) == PlanView::Run(Command::Zoom { thousandths: t }, Seq::empty()),
        zoom_plan(None) == PlanView::Ack(
            "control/zoom"@,
            "FAIL: Could not convert message to number"@,
        ),
        held_move_plan(Some(d), Some(n)) == PlanView::Run(
            Command::Move { direction: d, hold_ns: n },
            Seq::empty(),
        ),
        held_move_plan(None, Some(n)) == PlanView::Ack("control/ptz"@, "FAIL"@),
        held_move_plan(Some(d), None) == PlanView::Ack("control/ptz"@, "FAIL"@),
{
}

} // verus!

//! The second generation Reolink AI detection surface: the smart-AI detection
//! zones, the per-AI-type alarm configuration, baby-cry detection, and watching
//! detections live.

use vstd::prelude::*;
use vstd::string::*;
use crate::text;

use crate::ai::cmdline::SmartKind;

pub mod cmdline;

verus! {

/// The smart-AI detectors of a camera.
#[derive(Clone, Copy, PartialEq, Eq, Structural, Debug)]
pub enum SmartAiKind {
    Crossline,
    Intrusion,
    Loitering,
    Legacy,
    Loss,
}

/// What a detector is called.
pub open spec fn kind_name(kind: SmartAiKind) -> Seq<char> {
    match kind {
        SmartAiKind::Crossline => "crossline"@,
        SmartAiKind::Intrusion => "intrusion"@,
        SmartAiKind::Loitering => "loitering"@,
        SmartAiKind::Legacy => "legacy"@,
        SmartAiKind::Loss => "loss"@,
    }
}

impl SmartAiKind {
    /// What the detector is called.
    pub fn label(&self) -> (name: &'static str)
        ensures
            name@ == kind_name(*self),
    {
        match self {
            SmartAiKind::Crossline => "crossline",
            SmartAiKind::Intrusion => "intrusion",
            SmartAiKind::Loitering => "loitering",
            SmartAiKind::Legacy => "legacy",
            SmartAiKind::Loss => "loss",
        }
    }
}

/// The detectors whose zones are dumped: one, or all five.
pub open spec fn kinds_wanted(kind: Option<SmartKind>) -> Seq<SmartAiKind> {
    match kind {
        Some(kind) => seq![cmdline::detector_of(kind)],
        None => seq![
            SmartAiKind::Crossline,
            SmartAiKind::Intrusion,
            SmartAiKind::Loitering,
            SmartAiKind::Legacy,
            SmartAiKind::Loss,
        ],
    }
}

/// The detectors whose zones are dumped: one, or all five.
pub fn zone_kinds(kind: Option<SmartKind>) -> (kinds: Vec<SmartAiKind>)
    ensures
        kinds@ == kinds_wanted(kind),
{
    let mut kinds: Vec<SmartAiKind> = Vec::new();
    match kind {
        Some(kind) => {
            kinds.push(kind.detector());
        },
        None => {
            kinds.push(SmartAiKind::Crossline);
            kinds.push(SmartAiKind::Intrusion);
            kinds.push(SmartAiKind::Loitering);
            kinds.push(SmartAiKind::Legacy);
            kinds.push(SmartAiKind::Loss);
        },
    }
    assert(kinds@ =~= kinds_wanted(kind));
    kinds
}

/// What is printed for a detector whose zones could not be read. A camera that
/// does not have it answers with an error; the others are still read.
pub fn zone_failure(kind: SmartAiKind, error: &str) -> (line: String)
    ensures
        line@ == "<!-- "@ + kind_name(kind) + ": "@ + error@ + " -->"@,
{
    let mut line = "<!-- ".to_owned();
    line.append(kind.label());
    line.append(": ");
    line.append(error);
    line.append(" -->");
    line
}

/// The alarm settings of an AI type that can be set.
#[derive(Clone, Copy, PartialEq, Eq, Structural, Debug)]
pub struct AiAlarm {
    pub sensitivity: Option<u32>,
    pub stay_time: Option<u32>,
}

/// An alarm after a change: what is not given stays, and nothing changes if nothing
/// is given.
pub open spec fn changed_alarm(
    cfg: AiAlarm,
    sensitivity: Option<u32>,
    stay_time: Option<u32>,
) -> Option<AiAlarm> {
    if sensitivity is None && stay_time is None {
        None
    } else {
        Some(
            AiAlarm {
                sensitivity: if sensitivity is Some {
                    sensitivity
                } else {
                    cfg.sensitivity
                },
                stay_time: if stay_time is Some {
                    stay_time
                } else {
                    cfg.stay_time
                },
            },
        )
    }
}

/// The alarm settings to write, if any are to change. What is not given stays as
/// it is.
pub fn change_alarm(cfg: AiAlarm, sensitivity: Option<u32>, stay_time: Option<u32>) -> (change: Option<
    AiAlarm,
>)
    ensures
        change == changed_alarm(cfg, sensitivity, stay_time),
{
    if sensitivity.is_none() && stay_time.is_none() {
        return None;
    }
    let mut new = cfg;
    if sensitivity.is_some() {
        new.sensitivity = sensitivity;
    }
    if stay_time.is_some() {
        new.stay_time = stay_time;
    }
    Some(new)
}

/// What is printed once the baby-cry sensitivity was set.
pub fn cry_set_line(level: u32) -> (line: String)
    ensures
        line@ == "Cry detection sensitivity set to "@ + text::decimal(level as nat),
{
    let mut line = "Cry detection sensitivity set to ".to_owned();
    text::append_decimal(&mut line, level as u64);
    line
}

/// What is printed for the baby-cry sensitivity of a camera.
pub fn cry_line(level: Option<u32>) -> (line: String)
    ensures
        line@ == (match level {
            Some(level) => "Cry detection sensitivity: "@ + text::decimal(level as nat),
            None => "This camera does not support cry detection"@,
        }),
{
    match level {
        Some(level) => {
            let mut line = "Cry detection sensitivity: ".to_owned();
            text::append_decimal(&mut line, level as u64);
            line
        },
        None => "This camera does not support cry detection".to_owned(),
    }
}

/// An alarm changes in what is asked for and in nothing else.
pub proof fn law_alarms_change_where_asked(cfg: AiAlarm, sensitivity: u32, stay_time: u32)
    ensures
        changed_alarm(cfg, None, None) is None,
        changed_alarm(cfg, Some(sensitivity), None) == Some(
            AiAlarm { sensitivity: Some(sensitivity), stay_time: cfg.stay_time },
        ),
        changed_alarm(cfg, None, Some(stay_time)) == Some(
            AiAlarm { sensitivity: cfg.sensitivity, stay_time: Some(stay_time) },
        ),
        changed_alarm(cfg, Some(sensitivity), Some(stay_time)) == Some(
            AiAlarm { sensitivity: Some(sensitivity), stay_time: Some(stay_time) },
        ),
{
}

/// The zones of one detector are asked for alone, and those of all together; each goes by
/// its own name.
pub proof fn law_zones_are_asked_for_by_detector(kind: SmartKind)
    ensures
        kinds_wanted(Some(SmartKind::Crossline)) == seq![SmartAiKind::Crossline],
        kinds_wanted(Some(SmartKind::Intrusion)) == seq![SmartAiKind::Intrusion],
        kinds_wanted(Some(SmartKind::Loitering)) == seq![SmartAiKind::Loitering],
        kinds_wanted(Some(SmartKind::Legacy)) == seq![SmartAiKind::Legacy],
        kinds_wanted(Some(SmartKind::Loss)) == seq![SmartAiKind::Loss],
        kinds_wanted(None).contains(kinds_wanted(Some(kind))[0]),
        kinds_wanted(None).len() == 5,
        kind_name(SmartAiKind::Crossline) == "crossline"@,
        kind_name(SmartAiKind::Intrusion) == "intrusion"@,
        kind_name(SmartAiKind::Loitering) == "loitering"@,
        kind_name(SmartAiKind::Legacy) == "legacy"@,
        kind_name(SmartAiKind::Loss) == "loss"@,
{
    let all = kinds_wanted(None);
    assert(all[0] == SmartAiKind::Crossline);
    assert(all[1] == SmartAiKind::Intrusion);
    assert(all[2] == SmartAiKind::Loitering);
    assert(all[3] == SmartAiKind::Legacy);
    assert(all[4] == SmartAiKind::Loss);
}

} // verus!

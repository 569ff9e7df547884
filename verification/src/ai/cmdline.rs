//! The command line of the `ai` command.

use vstd::prelude::*;
use crate::ai::SmartAiKind;

verus! {

/// The ai command inspects and configures the camera's AI detection.
#[derive(Debug)]
pub struct Opt {
    /// The name of the camera. Must be a name in the config
    pub camera: String,
    pub cmd: AiCommand,
}

/// Which part of the AI surface to operate on.
#[derive(Debug)]
pub enum AiCommand {
    /// Dump the configured smart-AI detection zones as XML
    Zones {
        /// Which detector to dump. Dumps all five when omitted.
        kind: Option<SmartKind>,
    },
    /// Get or set the alarm config (sensitivity / stay time) of one AI type
    Alarm {
        /// The AI type, e.g. people, vehicle, dog_cat
        ai_type: String,
        /// New sensitivity, 0-100. Reads the current config when omitted.
        sensitivity: Option<u32>,
        /// New stay time in seconds
        stay_time: Option<u32>,
    },
    /// Get or set the baby-cry detection sensitivity
    Cry {
        /// New sensitivity. Reads the current value when omitted.
        level: Option<u32>,
    },
    /// Dump the whole AiCfg block (auto-tracking plus cry detection) as XML
    Cfg,
    /// Watch AI detections as they happen
    Watch {
        /// Also listen for the YOLO push events that only the newest models send
        yolo: bool,
    },
}

/// The smart-AI detectors, as command line values.
#[derive(Clone, Copy, PartialEq, Eq, Structural, Debug)]
pub enum SmartKind {
    /// Line-crossing zones
    Crossline,
    /// Intrusion zones
    Intrusion,
    /// Loitering zones
    Loitering,
    /// Forgotten-object zones
    Legacy,
    /// Taken-object zones
    Loss,
}

/// The detector that a command line value stands for.
pub open spec fn detector_of(kind: SmartKind) -> SmartAiKind {
    match kind {
        SmartKind::Crossline => SmartAiKind::Crossline,
        SmartKind::Intrusion => SmartAiKind::Intrusion,
        SmartKind::Loitering => SmartAiKind::Loitering,
        SmartKind::Legacy => SmartAiKind::Legacy,
        SmartKind::Loss => SmartAiKind::Loss,
    }
}

impl SmartKind {
    /// The detector that a command line value stands for.
    pub fn detector(self) -> (kind: SmartAiKind)
        ensures
            kind == detector_of(self),
    {
        match self {
            SmartKind::Crossline => SmartAiKind::Crossline,
            SmartKind::Intrusion => SmartAiKind::Intrusion,
            SmartKind::Loitering => SmartAiKind::Loitering,
            SmartKind::Legacy => SmartAiKind::Legacy,
            SmartKind::Loss => SmartAiKind::Loss,
        }
    }
}

} // verus!

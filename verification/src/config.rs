//! Detector configuration: confidence thresholds on a fixed integer scale,
//! validated at construction and immutable thereafter.

use vstd::prelude::*;

verus! {

/// Full scale of a confidence threshold: `CONFIDENCE_SCALE` thousandths
/// stand for the unit value, so a threshold always lies in `[0, 1]`.
pub const CONFIDENCE_SCALE: u32 = 1000;

/// The canonical default threshold: one half of the unit scale.
pub const DEFAULT_CONFIDENCE: u32 = 500;

/// The canonical default entity budget for multi-entity graphs.
pub const DEFAULT_MAX_ENTITIES: usize = 2;

/// A confidence threshold in thousandths of the unit scale.
#[derive(Clone, Copy, PartialEq, Eq, Structural, Debug)]
pub struct Confidence {
    pub thousandths: u32,
}

impl Confidence {
    /// The threshold lies within the unit interval.
    pub open spec fn wf(self) -> bool {
        self.thousandths <= CONFIDENCE_SCALE
    }

    /// Accepts a threshold in thousandths; rejects anything above the
    /// unit scale.
    pub fn new(thousandths: u32) -> (r: Option<Confidence>)
        ensures
            thousandths <= CONFIDENCE_SCALE ==> r == Some(Confidence { thousandths }),
            thousandths > CONFIDENCE_SCALE ==> r is None,
    {
        if thousandths <= CONFIDENCE_SCALE {
            Some(Confidence { thousandths })
        } else {
            None
        }
    }

    /// Normalizes a threshold in thousandths by clamping it to the unit
    /// scale.
    pub fn clamped(thousandths: u32) -> (r: Confidence)
        ensures
            r.wf(),
            thousandths <= CONFIDENCE_SCALE ==> r.thousandths == thousandths,
            thousandths > CONFIDENCE_SCALE ==> r.thousandths == CONFIDENCE_SCALE,
    {
        if thousandths <= CONFIDENCE_SCALE {
            Confidence { thousandths }
        } else {
            Confidence { thousandths: CONFIDENCE_SCALE }
        }
    }

    /// The canonical default threshold of one half.
    pub fn half() -> (r: Confidence)
        ensures
            r.wf(),
            r.thousandths == DEFAULT_CONFIDENCE,
    {
        Confidence { thousandths: DEFAULT_CONFIDENCE }
    }
}

impl Default for Confidence {
    /// The default threshold is one half of the unit scale.
    fn default() -> (r: Self)
        ensures
            r.wf(),
            r.thousandths == DEFAULT_CONFIDENCE,
    {
        Confidence { thousandths: DEFAULT_CONFIDENCE }
    }
}

/// Configuration shared by the detector facades, validated at construction
/// and carrying no setters.
#[derive(Clone, Copy, PartialEq, Eq, Structural, Debug)]
pub struct DetectorConfig {
    /// Treat every frame as independent instead of tracking across frames.
    pub static_mode: bool,
    /// Upper bound on the number of entities the graph is asked to report.
    pub max_entities: usize,
    /// Threshold for the initial detection of an entity.
    pub detection_confidence: Confidence,
    /// Threshold for continued tracking of an already detected entity.
    pub tracking_confidence: Confidence,
}

impl DetectorConfig {
    /// Both thresholds lie within the unit interval.
    pub open spec fn wf(self) -> bool {
        self.detection_confidence.wf() && self.tracking_confidence.wf()
    }

    /// Accepts thresholds in thousandths; rejects a configuration whose
    /// detection or tracking threshold lies above the unit scale.
    pub fn new(static_mode: bool, max_entities: usize, detection: u32, tracking: u32) -> (r:
        Option<DetectorConfig>)
        ensures
            detection <= CONFIDENCE_SCALE && tracking <= CONFIDENCE_SCALE ==> r == Some(
                (DetectorConfig {
                    static_mode,
                    max_entities,
                    detection_confidence: Confidence { thousandths: detection },
                    tracking_confidence: Confidence { thousandths: tracking },
                }),
            ),
            detection > CONFIDENCE_SCALE || tracking > CONFIDENCE_SCALE ==> r is None,
    {
        match (Confidence::new(detection), Confidence::new(tracking)) {
            (Some(d), Some(t)) => Some(
                DetectorConfig {
                    static_mode,
                    max_entities,
                    detection_confidence: d,
                    tracking_confidence: t,
                },
            ),
            _ => None,
        }
    }
}

impl Default for DetectorConfig {
    /// The canonical configuration: tracking mode on, two entities, both
    /// thresholds at one half.
    fn default() -> (r: Self)
        ensures
            r.wf(),
            !r.static_mode,
            r.max_entities == DEFAULT_MAX_ENTITIES,
            r.detection_confidence.thousandths == DEFAULT_CONFIDENCE,
            r.tracking_confidence.thousandths == DEFAULT_CONFIDENCE,
    {
        DetectorConfig {
            static_mode: false,
            max_entities: DEFAULT_MAX_ENTITIES,
            detection_confidence: Confidence::half(),
            tracking_confidence: Confidence::half(),
        }
    }
}

} // verus!

//! The pose-detector facade: the pose topology's named landmark indices
//! and the detector that binds the pose graph to the stable `process`
//! contract.

use vstd::prelude::*;

use crate::config::Confidence;
use crate::config::DetectorConfig;
use crate::graph::GraphEvent;
use crate::graph::GraphKind;
use crate::graph::InferenceGraph;
use crate::graph::StubGraph;
use crate::image::ImageFrame;
use crate::image::frame_accepted;
use crate::landmark::Landmark;
use crate::landmark::POSE_LANDMARK_COUNT;
use crate::landmark::Pose;
use crate::landmark::zero_landmarks;

verus! {

/// Named indices into the pose topology, in the graph's fixed order.
#[allow(non_camel_case_types)]
#[derive(Clone, Copy, PartialEq, Eq, Structural, Debug)]
pub enum PoseLandmark {
    NOSE,
    LEFT_EYE_INNER,
    LEFT_EYE,
    LEFT_EYE_OUTER,
    RIGHT_EYE_INNER,
    RIGHT_EYE,
    RIGHT_EYE_OUTER,
    LEFT_EAR,
    RIGHT_EAR,
    MOUTH_LEFT,
    MOUTH_RIGHT,
    LEFT_SHOULDER,
    RIGHT_SHOULDER,
    LEFT_ELBOW,
    RIGHT_ELBOW,
    LEFT_WRIST,
    RIGHT_WRIST,
    LEFT_PINKY,
    RIGHT_PINKY,
    LEFT_INDEX,
    RIGHT_INDEX,
    LEFT_THUMB,
    RIGHT_THUMB,
    LEFT_HIP,
    RIGHT_HIP,
    LEFT_KNEE,
    RIGHT_KNEE,
    LEFT_ANKLE,
    RIGHT_ANKLE,
    LEFT_HEEL,
    RIGHT_HEEL,
    LEFT_FOOT_INDEX,
    RIGHT_FOOT_INDEX,
}

impl PoseLandmark {
    /// Position of this landmark in the pose container.
    pub open spec fn spec_index(self) -> int {
        match self {
            PoseLandmark::NOSE => 0,
            PoseLandmark::LEFT_EYE_INNER => 1,
            PoseLandmark::LEFT_EYE => 2,
            PoseLandmark::LEFT_EYE_OUTER => 3,
            PoseLandmark::RIGHT_EYE_INNER => 4,
            PoseLandmark::RIGHT_EYE => 5,
            PoseLandmark::RIGHT_EYE_OUTER => 6,
            PoseLandmark::LEFT_EAR => 7,
            PoseLandmark::RIGHT_EAR => 8,
            PoseLandmark::MOUTH_LEFT => 9,
            PoseLandmark::MOUTH_RIGHT => 10,
            PoseLandmark::LEFT_SHOULDER => 11,
            PoseLandmark::RIGHT_SHOULDER => 12,
            PoseLandmark::LEFT_ELBOW => 13,
            PoseLandmark::RIGHT_ELBOW => 14,
            PoseLandmark::LEFT_WRIST => 15,
            PoseLandmark::RIGHT_WRIST => 16,
            PoseLandmark::LEFT_PINKY => 17,
            PoseLandmark::RIGHT_PINKY => 18,
            PoseLandmark::LEFT_INDEX => 19,
            PoseLandmark::RIGHT_INDEX => 20,
            PoseLandmark::LEFT_THUMB => 21,
            PoseLandmark::RIGHT_THUMB => 22,
            PoseLandmark::LEFT_HIP => 23,
            PoseLandmark::RIGHT_HIP => 24,
            PoseLandmark::LEFT_KNEE => 25,
            PoseLandmark::RIGHT_KNEE => 26,
            PoseLandmark::LEFT_ANKLE => 27,
            PoseLandmark::RIGHT_ANKLE => 28,
            PoseLandmark::LEFT_HEEL => 29,
            PoseLandmark::RIGHT_HEEL => 30,
            PoseLandmark::LEFT_FOOT_INDEX => 31,
            PoseLandmark::RIGHT_FOOT_INDEX => 32,
        }
    }

    /// Position of this landmark in the pose container; always inside the
    /// fixed topology size.
    pub fn index(self) -> (r: usize)
        ensures
            r == self.spec_index(),
            r < POSE_LANDMARK_COUNT,
    {
        match self {
            PoseLandmark::NOSE => 0,
            PoseLandmark::LEFT_EYE_INNER => 1,
            PoseLandmark::LEFT_EYE => 2,
            PoseLandmark::LEFT_EYE_OUTER => 3,
            PoseLandmark::RIGHT_EYE_INNER => 4,
            PoseLandmark::RIGHT_EYE => 5,
            PoseLandmark::RIGHT_EYE_OUTER => 6,
            PoseLandmark::LEFT_EAR => 7,
            PoseLandmark::RIGHT_EAR => 8,
            PoseLandmark::MOUTH_LEFT => 9,
            PoseLandmark::MOUTH_RIGHT => 10,
            PoseLandmark::LEFT_SHOULDER => 11,
            PoseLandmark::RIGHT_SHOULDER => 12,
            PoseLandmark::LEFT_ELBOW => 13,
            PoseLandmark::RIGHT_ELBOW => 14,
            PoseLandmark::LEFT_WRIST => 15,
            PoseLandmark::RIGHT_WRIST => 16,
            PoseLandmark::LEFT_PINKY => 17,
            PoseLandmark::RIGHT_PINKY => 18,
            PoseLandmark::LEFT_INDEX => 19,
            PoseLandmark::RIGHT_INDEX => 20,
            PoseLandmark::LEFT_THUMB => 21,
            PoseLandmark::RIGHT_THUMB => 22,
            PoseLandmark::LEFT_HIP => 23,
            PoseLandmark::RIGHT_HIP => 24,
            PoseLandmark::LEFT_KNEE => 25,
            PoseLandmark::RIGHT_KNEE => 26,
            PoseLandmark::LEFT_ANKLE => 27,
            PoseLandmark::RIGHT_ANKLE => 28,
            PoseLandmark::LEFT_HEEL => 29,
            PoseLandmark::RIGHT_HEEL => 30,
            PoseLandmark::LEFT_FOOT_INDEX => 31,
            PoseLandmark::RIGHT_FOOT_INDEX => 32,
        }
    }
}

impl Pose {
    /// Reads the landmark at a named position.
    pub fn landmark(&self, which: PoseLandmark) -> (r: Landmark)
        requires
            self.wf(),
        ensures
            r == self.data@[which.spec_index()],
    {
        let i = which.index();
        self.data[i]
    }
}

/// The pose-detector facade: one owned inference graph bound to the pose
/// topology, plus its immutable configuration.
pub struct PoseDetector<G: InferenceGraph> {
    /// Treat every frame as independent instead of tracking.
    pub mode: bool,
    /// Smooth landmarks across frames.
    pub smooth: bool,
    /// Threshold for the initial detection.
    pub detection_con: Confidence,
    /// Threshold for continued tracking.
    pub track_con: Confidence,
    /// The owned inference graph.
    pub graph: G,
}

impl<G: InferenceGraph> PoseDetector<G> {
    /// Both thresholds lie within the unit interval.
    pub open spec fn wf(self) -> bool {
        self.detection_con.wf() && self.track_con.wf()
    }

    /// Binds an inference graph to the pose topology with the given
    /// configuration.
    pub fn new(
        mode: bool,
        smooth: bool,
        detection_con: Confidence,
        track_con: Confidence,
        graph: G,
    ) -> (r: Self)
        requires
            detection_con.wf(),
            track_con.wf(),
        ensures
            r.wf(),
            r.mode == mode,
            r.smooth == smooth,
            r.detection_con == detection_con,
            r.track_con == track_con,
            r.graph == graph,
    {
        PoseDetector { mode, smooth, detection_con, track_con, graph }
    }

    /// Binds an inference graph to the pose topology with a shared
    /// detector configuration; smoothing is on exactly when tracking is.
    pub fn from_config(config: DetectorConfig, graph: G) -> (r: Self)
        requires
            config.wf(),
        ensures
            r.wf(),
            r.mode == config.static_mode,
            r.smooth == !config.static_mode,
            r.detection_con == config.detection_confidence,
            r.track_con == config.tracking_confidence,
            r.graph == graph,
    {
        PoseDetector {
            mode: config.static_mode,
            smooth: !config.static_mode,
            detection_con: config.detection_confidence,
            track_con: config.tracking_confidence,
            graph,
        }
    }

    /// The compiled-in graph binding this facade drives.
    pub fn graph_kind(&self) -> (r: GraphKind)
        ensures
            r == GraphKind::Pose,
    {
        GraphKind::Pose
    }

    /// Pushes one frame through the owned graph and fills the caller's
    /// pose container.
    ///
    /// An empty or malformed frame is rejected before the graph boundary:
    /// the call reports `false`, the graph is not invoked, and the
    /// container is untouched. On an accepted frame the graph answers
    /// exactly one inference call; the returned flag is the graph's flag,
    /// and the container receives exactly the landmarks the graph wrote
    /// when and only when something was detected.
    pub fn process(&mut self, input: &ImageFrame, pose: &mut Pose) -> (detected: bool)
        requires
            old(pose).wf(),
        ensures
            final(pose).wf(),
            final(self).mode == old(self).mode,
            final(self).smooth == old(self).smooth,
            final(self).detection_con == old(self).detection_con,
            final(self).track_con == old(self).track_con,
            !input.accepted() ==> !detected && final(self).graph == old(self).graph && *final(pose)
                == *old(pose),
            input.accepted() ==> {
                let events = final(self).graph.frames();
                &&& events.len() == old(self).graph.frames().len() + 1
                &&& events == old(self).graph.frames().push(events.last())
                &&& events.last().detected == detected
                &&& events.last().points.len() == POSE_LANDMARK_COUNT
                &&& (detected ==> final(pose).data@ == events.last().points)
                &&& (!detected ==> *final(pose) == *old(pose))
            },
    {
        if !frame_accepted(input) {
            return false;
        }
        let mut scratch = zero_landmarks(POSE_LANDMARK_COUNT);
        let detected = self.graph.infer(input, &mut scratch);
        if detected {
            pose.data = scratch;
        }
        detected
    }
}

impl Default for PoseDetector<StubGraph> {
    /// The canonical configuration: tracking mode with smoothing, both
    /// thresholds at one half, over a fresh stub graph.
    fn default() -> (r: Self)
        ensures
            r.wf(),
            !r.mode,
            r.smooth,
            r.detection_con.thousandths == crate::config::DEFAULT_CONFIDENCE,
            r.track_con.thousandths == crate::config::DEFAULT_CONFIDENCE,
            r.graph.frames() == Seq::<GraphEvent>::empty(),
            !r.graph.called,
    {
        PoseDetector::new(false, true, Confidence::half(), Confidence::half(), StubGraph::new(Vec::new()))
    }
}

} // verus!

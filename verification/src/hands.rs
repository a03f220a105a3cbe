//! The hand-detector facade: the hand topology's named landmark indices
//! and the detector that binds the hands graph to the stable `process`
//! contract. One inference call reports both hands in one buffer, left
//! half first; nothing guarantees a stable left/right assignment across
//! frames when only one hand is visible.

use vstd::prelude::*;

use crate::config::Confidence;
use crate::config::DetectorConfig;
use crate::graph::GraphEvent;
use crate::graph::GraphKind;
use crate::graph::InferenceGraph;
use crate::graph::StubGraph;
use crate::image::ImageFrame;
use crate::image::frame_accepted;
use crate::landmark::HAND_LANDMARK_COUNT;
use crate::landmark::Hand;
use crate::landmark::Landmark;
use crate::landmark::zero_landmarks;

verus! {

/// Named indices into the hand topology, in the graph's fixed order.
#[allow(non_camel_case_types)]
#[derive(Clone, Copy, PartialEq, Eq, Structural, Debug)]
pub enum HandLandmark {
    WRIST,
    THUMB_CMC,
    THUMB_MCP,
    THUMB_IP,
    THUMB_TIP,
    INDEX_FINGER_MCP,
    INDEX_FINGER_PIP,
    INDEX_FINGER_DIP,
    INDEX_FINGER_TIP,
    MIDDLE_FINGER_MCP,
    MIDDLE_FINGER_PIP,
    MIDDLE_FINGER_DIP,
    MIDDLE_FINGER_TIP,
    RING_FINGER_MCP,
    RING_FINGER_PIP,
    RING_FINGER_DIP,
    RING_FINGER_TIP,
    PINKY_MCP,
    PINKY_PIP,
    PINKY_DIP,
    PINKY_TIP,
}

impl HandLandmark {
    /// Position of this landmark in a hand container.
    pub open spec fn spec_index(self) -> int {
        match self {
            HandLandmark::WRIST => 0,
            HandLandmark::THUMB_CMC => 1,
            HandLandmark::THUMB_MCP => 2,
            HandLandmark::THUMB_IP => 3,
            HandLandmark::THUMB_TIP => 4,
            HandLandmark::INDEX_FINGER_MCP => 5,
            HandLandmark::INDEX_FINGER_PIP => 6,
            HandLandmark::INDEX_FINGER_DIP => 7,
            HandLandmark::INDEX_FINGER_TIP => 8,
            HandLandmark::MIDDLE_FINGER_MCP => 9,
            HandLandmark::MIDDLE_FINGER_PIP => 10,
            HandLandmark::MIDDLE_FINGER_DIP => 11,
            HandLandmark::MIDDLE_FINGER_TIP => 12,
            HandLandmark::RING_FINGER_MCP => 13,
            HandLandmark::RING_FINGER_PIP => 14,
            HandLandmark::RING_FINGER_DIP => 15,
            HandLandmark::RING_FINGER_TIP => 16,
            HandLandmark::PINKY_MCP => 17,
            HandLandmark::PINKY_PIP => 18,
            HandLandmark::PINKY_DIP => 19,
            HandLandmark::PINKY_TIP => 20,
        }
    }

    /// Position of this landmark in a hand container; always inside the
    /// fixed topology size.
    pub fn index(self) -> (r: usize)
        ensures
            r == self.spec_index(),
            r < HAND_LANDMARK_COUNT,
    {
        match self {
            HandLandmark::WRIST => 0,
            HandLandmark::THUMB_CMC => 1,
            HandLandmark::THUMB_MCP => 2,
            HandLandmark::THUMB_IP => 3,
            HandLandmark::THUMB_TIP => 4,
            HandLandmark::INDEX_FINGER_MCP => 5,
            HandLandmark::INDEX_FINGER_PIP => 6,
            HandLandmark::INDEX_FINGER_DIP => 7,
            HandLandmark::INDEX_FINGER_TIP => 8,
            HandLandmark::MIDDLE_FINGER_MCP => 9,
            HandLandmark::MIDDLE_FINGER_PIP => 10,
            HandLandmark::MIDDLE_FINGER_DIP => 11,
            HandLandmark::MIDDLE_FINGER_TIP => 12,
            HandLandmark::RING_FINGER_MCP => 13,
            HandLandmark::RING_FINGER_PIP => 14,
            HandLandmark::RING_FINGER_DIP => 15,
            HandLandmark::RING_FINGER_TIP => 16,
            HandLandmark::PINKY_MCP => 17,
            HandLandmark::PINKY_PIP => 18,
            HandLandmark::PINKY_DIP => 19,
            HandLandmark::PINKY_TIP => 20,
        }
    }
}

impl Hand {
    /// Reads the landmark at a named position.
    pub fn landmark(&self, which: HandLandmark) -> (r: Landmark)
        requires
            self.wf(),
        ensures
            r == self.data@[which.spec_index()],
    {
        let i = which.index();
        self.data[i]
    }
}

/// The hand-detector facade: one owned inference graph bound to the hand
/// topology, plus its immutable configuration.
pub struct HandDetector<G: InferenceGraph> {
    /// Treat every frame as independent instead of tracking.
    pub mode: bool,
    /// Upper bound on the number of hands the graph is asked to report.
    pub max_hands: usize,
    /// Threshold for the initial detection.
    pub detection_con: Confidence,
    /// Threshold for continued tracking.
    pub min_track_con: Confidence,
    /// The owned inference graph.
    pub graph: G,
}

impl<G: InferenceGraph> HandDetector<G> {
    /// Both thresholds lie within the unit interval.
    pub open spec fn wf(self) -> bool {
        self.detection_con.wf() && self.min_track_con.wf()
    }

    /// Binds an inference graph to the hand topology with the given
    /// configuration.
    pub fn new(
        mode: bool,
        max_hands: usize,
        detection_con: Confidence,
        min_track_con: Confidence,
        graph: G,
    ) -> (r: Self)
        requires
            detection_con.wf(),
            min_track_con.wf(),
        ensures
            r.wf(),
            r.mode == mode,
            r.max_hands == max_hands,
            r.detection_con == detection_con,
            r.min_track_con == min_track_con,
            r.graph == graph,
    {
        HandDetector { mode, max_hands, detection_con, min_track_con, graph }
    }

    /// Binds an inference graph to the hand topology with a shared
    /// detector configuration.
    pub fn from_config(config: DetectorConfig, graph: G) -> (r: Self)
        requires
            config.wf(),
        ensures
            r.wf(),
            r.mode == config.static_mode,
            r.max_hands == config.max_entities,
            r.detection_con == config.detection_confidence,
            r.min_track_con == config.tracking_confidence,
            r.graph == graph,
    {
        HandDetector {
            mode: config.static_mode,
            max_hands: config.max_entities,
            detection_con: config.detection_confidence,
            min_track_con: config.tracking_confidence,
            graph,
        }
    }

    /// The compiled-in graph binding this facade drives.
    pub fn graph_kind(&self) -> (r: GraphKind)
        ensures
            r == GraphKind::Hands,
    {
        GraphKind::Hands
    }

    /// Pushes one frame through the owned graph and fills the caller's
    /// two hand containers, left half of the graph's buffer first.
    ///
    /// An empty or malformed frame is rejected before the graph boundary:
    /// the call reports `false`, the graph is not invoked, and both
    /// containers are untouched. On an accepted frame the graph answers
    /// exactly one inference call; the returned flag is the graph's flag,
    /// and the containers receive exactly the two halves of the buffer
    /// the graph wrote when and only when something was detected.
    pub fn process(&mut self, input: &ImageFrame, left: &mut Hand, right: &mut Hand) -> (detected:
        bool)
        requires
            old(left).wf(),
            old(right).wf(),
        ensures
            final(left).wf(),
            final(right).wf(),
            final(self).mode == old(self).mode,
            final(self).max_hands == old(self).max_hands,
            final(self).detection_con == old(self).detection_con,
            final(self).min_track_con == old(self).min_track_con,
            !input.accepted() ==> !detected && final(self).graph == old(self).graph && *final(left)
                == *old(left) && *final(right) == *old(right),
            input.accepted() ==> {
                let events = final(self).graph.frames();
                &&& events.len() == old(self).graph.frames().len() + 1
                &&& events == old(self).graph.frames().push(events.last())
                &&& events.last().detected == detected
                &&& events.last().points.len() == 2 * HAND_LANDMARK_COUNT
                &&& (detected ==> final(left).data@ == events.last().points.subrange(
                    0,
                    HAND_LANDMARK_COUNT as int,
                ) && final(right).data@ == events.last().points.subrange(
                    HAND_LANDMARK_COUNT as int,
                    2 * HAND_LANDMARK_COUNT as int,
                ))
                &&& (!detected ==> *final(left) == *old(left) && *final(right) == *old(right))
            },
    {
        if !frame_accepted(input) {
            return false;
        }
        let mut scratch = zero_landmarks(2 * HAND_LANDMARK_COUNT);
        let detected = self.graph.infer(input, &mut scratch);
        if detected {
            let mut left_points: Vec<Landmark> = Vec::new();
            let mut i: usize = 0;
            while i < HAND_LANDMARK_COUNT
                invariant
                    i <= HAND_LANDMARK_COUNT,
                    scratch@.len() == 2 * HAND_LANDMARK_COUNT,
                    left_points@.len() == i,
                    forall|j: int| 0 <= j < i ==> left_points@[j] == scratch@[j],
                decreases HAND_LANDMARK_COUNT - i,
            {
                left_points.push(scratch[i]);
                i = i + 1;
            }
            let mut right_points: Vec<Landmark> = Vec::new();
            let mut k: usize = HAND_LANDMARK_COUNT;
            while k < 2 * HAND_LANDMARK_COUNT
                invariant
                    HAND_LANDMARK_COUNT <= k <= 2 * HAND_LANDMARK_COUNT,
                    scratch@.len() == 2 * HAND_LANDMARK_COUNT,
                    right_points@.len() == k - HAND_LANDMARK_COUNT,
                    forall|j: int|
                        HAND_LANDMARK_COUNT <= j < k ==> right_points@[j - HAND_LANDMARK_COUNT]
                            == scratch@[j],
                decreases 2 * HAND_LANDMARK_COUNT - k,
            {
                right_points.push(scratch[k]);
                k = k + 1;
            }
            proof {
                assert(left_points@ =~= scratch@.subrange(0, HAND_LANDMARK_COUNT as int));
                assert(right_points@ =~= scratch@.subrange(
                    HAND_LANDMARK_COUNT as int,
                    2 * HAND_LANDMARK_COUNT as int,
                ));
            }
            left.data = left_points;
            right.data = right_points;
        }
        detected
    }
}

impl Default for HandDetector<StubGraph> {
    /// The canonical configuration: tracking mode, at most two hands, both
    /// thresholds at one half, over a fresh stub graph.
    fn default() -> (r: Self)
        ensures
            r.wf(),
            !r.mode,
            r.max_hands == crate::config::DEFAULT_MAX_ENTITIES,
            r.detection_con.thousandths == crate::config::DEFAULT_CONFIDENCE,
            r.min_track_con.thousandths == crate::config::DEFAULT_CONFIDENCE,
            r.graph.frames() == Seq::<GraphEvent>::empty(),
            !r.graph.called,
    {
        HandDetector::new(
            false,
            crate::config::DEFAULT_MAX_ENTITIES,
            Confidence::half(),
            Confidence::half(),
            StubGraph::new(Vec::new()),
        )
    }
}

} // verus!

//! The face-mesh detector facade: binds the face-mesh graph to the stable
//! `process` contract. Only the first detected face's mesh is retained
//! per call, even where the graph reports several.

use vstd::prelude::*;

use crate::config::Confidence;
use crate::config::DetectorConfig;
use crate::graph::GraphEvent;
use crate::graph::GraphKind;
use crate::graph::InferenceGraph;
use crate::graph::StubGraph;
use crate::image::ImageFrame;
use crate::image::frame_accepted;
use crate::landmark::FACE_MESH_LANDMARK_COUNT;
use crate::landmark::FaceMesh;
use crate::landmark::zero_landmarks;

verus! {

/// The face-mesh detector facade: one owned inference graph bound to the
/// face-mesh topology, plus its immutable configuration.
pub struct FaceMeshDetector<G: InferenceGraph> {
    /// Treat every frame as independent instead of tracking.
    pub static_mode: bool,
    /// Upper bound on the number of faces the graph is asked to report.
    pub max_faces: usize,
    /// Threshold for the initial detection.
    pub min_detection_con: Confidence,
    /// Threshold for continued tracking.
    pub min_track_con: Confidence,
    /// The owned inference graph.
    pub graph: G,
}

impl<G: InferenceGraph> FaceMeshDetector<G> {
    /// Both thresholds lie within the unit interval.
    pub open spec fn wf(self) -> bool {
        self.min_detection_con.wf() && self.min_track_con.wf()
    }

    /// Binds an inference graph to the face-mesh topology with the given
    /// configuration.
    pub fn new(
        static_mode: bool,
        max_faces: usize,
        min_detection_con: Confidence,
        min_track_con: Confidence,
        graph: G,
    ) -> (r: Self)
        requires
            min_detection_con.wf(),
            min_track_con.wf(),
        ensures
            r.wf(),
            r.static_mode == static_mode,
            r.max_faces == max_faces,
            r.min_detection_con == min_detection_con,
            r.min_track_con == min_track_con,
            r.graph == graph,
    {
        FaceMeshDetector { static_mode, max_faces, min_detection_con, min_track_con, graph }
    }

    /// Binds an inference graph to the face-mesh topology with a shared
    /// detector configuration.
    pub fn from_config(config: DetectorConfig, graph: G) -> (r: Self)
        requires
            config.wf(),
        ensures
            r.wf(),
            r.static_mode == config.static_mode,
            r.max_faces == config.max_entities,
            r.min_detection_con == config.detection_confidence,
            r.min_track_con == config.tracking_confidence,
            r.graph == graph,
    {
        FaceMeshDetector {
            static_mode: config.static_mode,
            max_faces: config.max_entities,
            min_detection_con: config.detection_confidence,
            min_track_con: config.tracking_confidence,
            graph,
        }
    }

    /// The compiled-in graph binding this facade drives.
    pub fn graph_kind(&self) -> (r: GraphKind)
        ensures
            r == GraphKind::FaceMesh,
    {
        GraphKind::FaceMesh
    }

    /// Pushes one frame through the owned graph and fills the caller's
    /// mesh container.
    ///
    /// An empty or malformed frame is rejected before the graph boundary:
    /// the call reports `false`, the graph is not invoked, and the
    /// container is untouched. On an accepted frame the graph answers
    /// exactly one inference call; the returned flag is the graph's flag,
    /// and the container receives exactly the landmarks the graph wrote
    /// when and only when something was detected.
    pub fn process(&mut self, input: &ImageFrame, mesh: &mut FaceMesh) -> (detected: bool)
        requires
            old(mesh).wf(),
        ensures
            final(mesh).wf(),
            final(self).static_mode == old(self).static_mode,
            final(self).max_faces == old(self).max_faces,
            final(self).min_detection_con == old(self).min_detection_con,
            final(self).min_track_con == old(self).min_track_con,
            !input.accepted() ==> !detected && final(self).graph == old(self).graph && *final(mesh)
                == *old(mesh),
            input.accepted() ==> {
                let events = final(self).graph.frames();
                &&& events.len() == old(self).graph.frames().len() + 1
                &&& events == old(self).graph.frames().push(events.last())
                &&& events.last().detected == detected
                &&& events.last().points.len() == FACE_MESH_LANDMARK_COUNT
                &&& (detected ==> final(mesh).data@ == events.last().points)
                &&& (!detected ==> *final(mesh) == *old(mesh))
            },
    {
        if !frame_accepted(input) {
            return false;
        }
        let mut scratch = zero_landmarks(FACE_MESH_LANDMARK_COUNT);
        let detected = self.graph.infer(input, &mut scratch);
        if detected {
            mesh.data = scratch;
        }
        detected
    }
}

impl Default for FaceMeshDetector<StubGraph> {
    /// The canonical configuration: tracking mode, at most two faces, both
    /// thresholds at one half, over a fresh stub graph.
    fn default() -> (r: Self)
        ensures
            r.wf(),
            !r.static_mode,
            r.max_faces == crate::config::DEFAULT_MAX_ENTITIES,
            r.min_detection_con.thousandths == crate::config::DEFAULT_CONFIDENCE,
            r.min_track_con.thousandths == crate::config::DEFAULT_CONFIDENCE,
            r.graph.frames() == Seq::<GraphEvent>::empty(),
            !r.graph.called,
    {
        FaceMeshDetector::new(
            false,
            crate::config::DEFAULT_MAX_ENTITIES,
            Confidence::half(),
            Confidence::half(),
            StubGraph::new(Vec::new()),
        )
    }
}

} // verus!

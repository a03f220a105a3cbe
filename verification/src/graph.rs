//! The graph-handle boundary: the interface a landmark-inference graph
//! presents to the detector facades, the per-topology graph bindings, and
//! a scripted stand-in graph for driving the facades without a native
//! runtime.

use vstd::prelude::*;

use crate::image::ImageFrame;
use crate::landmark::FACE_MESH_LANDMARK_COUNT;
use crate::landmark::HAND_LANDMARK_COUNT;
use crate::landmark::Landmark;
use crate::landmark::POSE_LANDMARK_COUNT;

verus! {

/// One answered inference call, as the contracts see it: the detection
/// flag together with the exact contents the graph left in the caller's
/// output buffer.
pub struct GraphEvent {
    pub detected: bool,
    pub points: Seq<Landmark>,
}

/// The interface a landmark-inference graph presents to a detector
/// facade.
///
/// A graph value is an exclusively owned handle: it is moved, never
/// copied, so two independently constructed graphs never share inference
/// state, and whatever resources a graph holds go away with the value,
/// once. It owns whatever state its inference keeps between frames; its
/// model is the sequence of calls it has answered. One call of `infer`
/// blocks until one inference pass completes, fills the caller-owned
/// buffer in place without resizing it, and reports whether anything was
/// detected. Nothing is promised about the flag or the contents: a graph
/// may answer every frame with `false`.
pub trait InferenceGraph: Sized {
    /// The calls this graph has answered so far, in order.
    spec fn frames(&self) -> Seq<GraphEvent>;

    /// Pushes one frame through the graph and fills `out` in place.
    ///
    /// The caller must have validated the frame: a graph's behaviour on an
    /// empty or malformed image is not defined, so such a frame must never
    /// reach this boundary.
    fn infer(&mut self, image: &ImageFrame, out: &mut Vec<Landmark>) -> (detected: bool)
        requires
            image.accepted(),
        ensures
            final(out)@.len() == old(out)@.len(),
            final(self).frames() == old(self).frames().push(
                (GraphEvent { detected, points: final(out)@ }),
            ),
    ;
}

/// Which compiled-in graph binding a facade drives: the graph text and
/// output node are fixed per topology, as is the number of landmarks one
/// call reports.
#[derive(Clone, Copy, PartialEq, Eq, Structural, Debug)]
pub enum GraphKind {
    Pose,
    FaceMesh,
    Hands,
}

impl GraphKind {
    /// Number of landmarks one inference call reports for this binding;
    /// the hands binding reports both hands in one buffer.
    pub open spec fn spec_point_count(self) -> int {
        match self {
            GraphKind::Pose => POSE_LANDMARK_COUNT as int,
            GraphKind::FaceMesh => FACE_MESH_LANDMARK_COUNT as int,
            GraphKind::Hands => 2 * HAND_LANDMARK_COUNT as int,
        }
    }

    /// Number of landmarks one inference call reports for this binding.
    pub fn point_count(self) -> (r: usize)
        ensures
            r == self.spec_point_count(),
    {
        match self {
            GraphKind::Pose => POSE_LANDMARK_COUNT,
            GraphKind::FaceMesh => FACE_MESH_LANDMARK_COUNT,
            GraphKind::Hands => 2 * HAND_LANDMARK_COUNT,
        }
    }

    /// Name of the graph node whose packets carry the landmarks.
    pub fn output_node(self) -> (r: &'static str)
        ensures
            self == GraphKind::Pose ==> r@ == "pose_landmarks"@,
            self == GraphKind::FaceMesh ==> r@ == "multi_face_landmarks"@,
            self == GraphKind::Hands ==> r@ == "hand_landmarks"@,
    {
        match self {
            GraphKind::Pose => "pose_landmarks",
            GraphKind::FaceMesh => "multi_face_landmarks",
            GraphKind::Hands => "hand_landmarks",
        }
    }
}

/// One scripted answer of a [`StubGraph`]: the flag to return and the
/// landmarks to write into the caller's buffer.
#[derive(Clone, Debug)]
pub struct ScriptedFrame {
    pub detected: bool,
    pub points: Vec<Landmark>,
}

/// A scripted inference graph: it answers calls from a fixed script, in
/// order, and answers `false` without touching the buffer once the script
/// is exhausted. It records that it was invoked, so a caller can check
/// that rejected frames never reached it.
pub struct StubGraph {
    /// The scripted answers, consumed front to back.
    pub script: Vec<ScriptedFrame>,
    /// How many scripted answers have been consumed.
    pub cursor: usize,
    /// Whether `infer` was ever invoked on this graph.
    pub called: bool,
    /// The calls answered so far, in order.
    pub log: Ghost<Seq<GraphEvent>>,
}

impl StubGraph {
    /// A fresh stub that has answered nothing.
    pub fn new(script: Vec<ScriptedFrame>) -> (r: StubGraph)
        ensures
            r.script@ == script@,
            r.cursor == 0,
            !r.called,
            r.frames() == Seq::<GraphEvent>::empty(),
    {
        StubGraph { script, cursor: 0, called: false, log: Ghost(Seq::empty()) }
    }

    /// Whether `infer` was ever invoked on this graph.
    pub fn was_called(&self) -> (r: bool)
        ensures
            r == self.called,
    {
        self.called
    }

    /// How many scripted answers have been consumed.
    pub fn consumed(&self) -> (r: usize)
        ensures
            r == self.cursor,
    {
        self.cursor
    }
}

impl Default for StubGraph {
    /// A fresh stub with an empty script: it answers every call with
    /// `false`.
    fn default() -> (r: Self)
        ensures
            r.script@.len() == 0,
            r.cursor == 0,
            !r.called,
            r.frames() == Seq::<GraphEvent>::empty(),
    {
        StubGraph::new(Vec::new())
    }
}

impl InferenceGraph for StubGraph {
    open spec fn frames(&self) -> Seq<GraphEvent> {
        self.log@
    }

    fn infer(&mut self, image: &ImageFrame, out: &mut Vec<Landmark>) -> (detected: bool)
        ensures
            final(self).called,
            final(self).script@ == old(self).script@,
            old(self).cursor < old(self).script@.len() ==> {
                let frame = old(self).script@[old(self).cursor as int];
                let limit = if frame.points@.len() < old(out)@.len() {
                    frame.points@.len() as int
                } else {
                    old(out)@.len() as int
                };
                &&& final(self).cursor == old(self).cursor + 1
                &&& detected == frame.detected
                &&& forall|j: int| 0 <= j < limit ==> final(out)@[j] == frame.points@[j]
                &&& forall|j: int|
                    limit <= j < old(out)@.len() ==> final(out)@[j] == old(out)@[j]
            },
            old(self).cursor >= old(self).script@.len() ==> !detected && final(self).cursor == old(
                self,
            ).cursor && final(out)@ == old(out)@,
    {
        self.called = true;
        let n = out.len();
        let detected: bool;
        if self.cursor < self.script.len() {
            let available = self.script[self.cursor].points.len();
            let limit = if available < n {
                available
            } else {
                n
            };
            let mut filled: Vec<Landmark> = Vec::new();
            let mut i: usize = 0;
            while i < limit
                invariant
                    i <= limit,
                    limit <= n,
                    self.cursor < self.script@.len(),
                    limit <= self.script@[self.cursor as int].points@.len(),
                    filled@.len() == i,
                    forall|j: int|
                        0 <= j < i ==> filled@[j] == self.script@[self.cursor as int].points@[j],
                decreases limit - i,
            {
                filled.push(self.script[self.cursor].points[i]);
                i = i + 1;
            }
            while i < n
                invariant
                    limit <= i <= n,
                    out@.len() == n,
                    filled@.len() == i,
                    self.cursor < self.script@.len(),
                    limit <= self.script@[self.cursor as int].points@.len(),
                    forall|j: int|
                        0 <= j < limit ==> filled@[j] == self.script@[self.cursor as int].points@[j],
                    forall|j: int| limit <= j < i ==> filled@[j] == out@[j],
                decreases n - i,
            {
                filled.push(out[i]);
                i = i + 1;
            }
            *out = filled;
            detected = self.script[self.cursor].detected;
            self.cursor = self.cursor + 1;
        } else {
            detected = false;
        }
        self.log = Ghost(self.log@.push(GraphEvent { detected, points: out@ }));
        detected
    }
}

} // verus!

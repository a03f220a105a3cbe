//! Landmark records and the fixed-topology output containers that the
//! inference graphs fill: one per pose, one per hand, one per face mesh.

use vstd::prelude::*;

verus! {

/// Number of landmarks in the pose topology.
pub const POSE_LANDMARK_COUNT: usize = 33;

/// Number of landmarks in the hand topology.
pub const HAND_LANDMARK_COUNT: usize = 21;

/// Number of landmarks in the face-mesh topology.
pub const FACE_MESH_LANDMARK_COUNT: usize = 478;

/// One tracked point: a 3D position plus visibility and presence scores.
///
/// Each field holds the raw IEEE 754 single-precision bit pattern of the
/// score, so the record is a plain integer value that contracts can pin
/// down exactly; the all-zero pattern stands for the value zero.
#[derive(Clone, Copy, PartialEq, Eq, Structural, Debug)]
pub struct Landmark {
    pub x: u32,
    pub y: u32,
    pub z: u32,
    pub visibility: u32,
    pub presence: u32,
}

impl Landmark {
    /// Every field holds the zero bit pattern.
    pub open spec fn is_zero(self) -> bool {
        self.x == 0 && self.y == 0 && self.z == 0 && self.visibility == 0 && self.presence == 0
    }

    /// Every field encodes a finite number.
    pub open spec fn spec_is_finite(self) -> bool {
        finite_bits(self.x) && finite_bits(self.y) && finite_bits(self.z)
            && finite_bits(self.visibility) && finite_bits(self.presence)
    }

    /// Reports whether all five fields encode finite numbers.
    pub fn is_finite(&self) -> (r: bool)
        ensures
            r == self.spec_is_finite(),
    {
        is_finite_bits(self.x) && is_finite_bits(self.y) && is_finite_bits(self.z)
            && is_finite_bits(self.visibility) && is_finite_bits(self.presence)
    }
}

/// A single-precision bit pattern encodes a finite number exactly when its
/// exponent bits are not all ones.
pub open spec fn finite_bits(b: u32) -> bool {
    (b >> 23) & 0xff != 0xff
}

/// Reports whether a single-precision bit pattern encodes a finite number.
pub fn is_finite_bits(b: u32) -> (r: bool)
    ensures
        r == finite_bits(b),
{
    (b >> 23) & 0xff != 0xff
}

impl Default for Landmark {
    /// The default landmark is the all-zero record.
    fn default() -> (r: Self)
        ensures
            r.is_zero(),
    {
        Landmark { x: 0, y: 0, z: 0, visibility: 0, presence: 0 }
    }
}

/// Every landmark of the sequence is the all-zero record.
pub open spec fn all_zero(s: Seq<Landmark>) -> bool {
    forall|i: int| 0 <= i < s.len() ==> (#[trigger] s[i]).is_zero()
}

/// Builds a buffer of `n` all-zero landmarks.
pub fn zero_landmarks(n: usize) -> (r: Vec<Landmark>)
    ensures
        r@.len() == n,
        all_zero(r@),
{
    let mut out: Vec<Landmark> = Vec::new();
    let mut i: usize = 0;
    while i < n
        invariant
            i <= n,
            out@.len() == i,
            all_zero(out@),
        decreases n - i,
    {
        out.push(Landmark::default());
        i = i + 1;
    }
    out
}

/// Output container for the pose topology: exactly 33 landmarks.
#[derive(Clone, Debug)]
pub struct Pose {
    pub data: Vec<Landmark>,
}

impl Pose {
    /// The container holds exactly its fixed topology size.
    pub open spec fn wf(self) -> bool {
        self.data@.len() == POSE_LANDMARK_COUNT
    }
}

impl Default for Pose {
    /// The default pose holds 33 all-zero landmarks.
    fn default() -> (r: Self)
        ensures
            r.wf(),
            all_zero(r.data@),
    {
        Pose { data: zero_landmarks(POSE_LANDMARK_COUNT) }
    }
}

/// Output container for one hand: exactly 21 landmarks.
#[derive(Clone, Debug)]
pub struct Hand {
    pub data: Vec<Landmark>,
}

impl Hand {
    /// The container holds exactly its fixed topology size.
    pub open spec fn wf(self) -> bool {
        self.data@.len() == HAND_LANDMARK_COUNT
    }
}

impl Default for Hand {
    /// The default hand holds 21 all-zero landmarks.
    fn default() -> (r: Self)
        ensures
            r.wf(),
            all_zero(r.data@),
    {
        Hand { data: zero_landmarks(HAND_LANDMARK_COUNT) }
    }
}

/// Output container for one face mesh: exactly 478 landmarks.
#[derive(Clone, Debug)]
pub struct FaceMesh {
    pub data: Vec<Landmark>,
}

impl FaceMesh {
    /// The container holds exactly its fixed topology size.
    pub open spec fn wf(self) -> bool {
        self.data@.len() == FACE_MESH_LANDMARK_COUNT
    }
}

impl Default for FaceMesh {
    /// The default face mesh holds 478 all-zero landmarks.
    fn default() -> (r: Self)
        ensures
            r.wf(),
            all_zero(r.data@),
    {
        FaceMesh { data: zero_landmarks(FACE_MESH_LANDMARK_COUNT) }
    }
}

} // verus!

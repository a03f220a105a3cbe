use mediapipe::FaceMesh;
use mediapipe::Hand;
use mediapipe::Landmark;
use mediapipe::Pose;
use mediapipe::hands::HandLandmark;
use mediapipe::landmark::FACE_MESH_LANDMARK_COUNT;
use mediapipe::landmark::HAND_LANDMARK_COUNT;
use mediapipe::landmark::POSE_LANDMARK_COUNT;
use mediapipe::landmark::is_finite_bits;
use mediapipe::landmark::zero_landmarks;
use mediapipe::pose::PoseLandmark;

fn assert_all_zero(data: &[Landmark]) {
    for lm in data {
        assert_eq!(lm.x, 0);
        assert_eq!(lm.y, 0);
        assert_eq!(lm.z, 0);
        assert_eq!(lm.visibility, 0);
        assert_eq!(lm.presence, 0);
    }
}

#[test]
fn it_works() {
    let result = 2 + 2;
    assert_eq!(result, 4);
}

#[test]
fn default_landmark_is_zero() {
    let lm = Landmark::default();
    assert_eq!(lm.x, 0);
    assert_eq!(lm.y, 0);
    assert_eq!(lm.z, 0);
    assert_eq!(lm.visibility, 0);
    assert_eq!(lm.presence, 0);
    assert_eq!(f32::from_bits(lm.x), 0.0);
}

#[test]
fn default_pose_is_zeroed_and_sized() {
    let pose = Pose::default();
    assert_eq!(pose.data.len(), 33);
    assert_eq!(pose.data.len(), POSE_LANDMARK_COUNT);
    assert_all_zero(&pose.data);
}

#[test]
fn default_hand_is_zeroed_and_sized() {
    let hand = Hand::default();
    assert_eq!(hand.data.len(), 21);
    assert_eq!(hand.data.len(), HAND_LANDMARK_COUNT);
    assert_all_zero(&hand.data);
}

#[test]
fn default_face_mesh_is_zeroed_and_sized() {
    let mesh = FaceMesh::default();
    assert_eq!(mesh.data.len(), 478);
    assert_eq!(mesh.data.len(), FACE_MESH_LANDMARK_COUNT);
    assert_all_zero(&mesh.data);
}

#[test]
fn zero_landmarks_builds_requested_length() {
    let buf = zero_landmarks(5);
    assert_eq!(buf.len(), 5);
    assert_all_zero(&buf);
}

#[test]
fn finite_bit_patterns() {
    assert!(is_finite_bits(0.5f32.to_bits()));
    assert!(is_finite_bits((-1.25f32).to_bits()));
    assert!(is_finite_bits(0));
    assert!(!is_finite_bits(f32::INFINITY.to_bits()));
    assert!(!is_finite_bits(f32::NEG_INFINITY.to_bits()));
    assert!(!is_finite_bits(f32::NAN.to_bits()));
}

#[test]
fn landmark_finiteness_check() {
    let mut lm = Landmark::default();
    assert!(lm.is_finite());
    lm.z = f32::NAN.to_bits();
    assert!(!lm.is_finite());
}

#[test]
fn pose_landmark_indices() {
    assert_eq!(PoseLandmark::NOSE.index(), 0);
    assert_eq!(PoseLandmark::LEFT_EYE_INNER.index(), 1);
    assert_eq!(PoseLandmark::LEFT_SHOULDER.index(), 11);
    assert_eq!(PoseLandmark::RIGHT_SHOULDER.index(), 12);
    assert_eq!(PoseLandmark::LEFT_HIP.index(), 23);
    assert_eq!(PoseLandmark::RIGHT_ANKLE.index(), 28);
    assert_eq!(PoseLandmark::RIGHT_FOOT_INDEX.index(), 32);
}

#[test]
fn hand_landmark_indices() {
    assert_eq!(HandLandmark::WRIST.index(), 0);
    assert_eq!(HandLandmark::THUMB_TIP.index(), 4);
    assert_eq!(HandLandmark::INDEX_FINGER_TIP.index(), 8);
    assert_eq!(HandLandmark::PINKY_TIP.index(), 20);
}

#[test]
fn pose_named_access() {
    let mut pose = Pose::default();
    let marked = Landmark { x: 1.0f32.to_bits(), y: 2.0f32.to_bits(), z: 0, visibility: 0, presence: 0 };
    pose.data[11] = marked;
    assert_eq!(pose.landmark(PoseLandmark::LEFT_SHOULDER), marked);
    assert_eq!(pose.landmark(PoseLandmark::NOSE), Landmark::default());
}

#[test]
fn hand_named_access() {
    let mut hand = Hand::default();
    let marked = Landmark { x: 3.0f32.to_bits(), y: 0, z: 0, visibility: 0, presence: 0 };
    hand.data[20] = marked;
    assert_eq!(hand.landmark(HandLandmark::PINKY_TIP), marked);
    assert_eq!(hand.landmark(HandLandmark::WRIST), Landmark::default());
}

use mediapipe::FaceMesh;
use mediapipe::Hand;
use mediapipe::Landmark;
use mediapipe::Pose;
use mediapipe::face_mesh::FaceMeshDetector;
use mediapipe::graph::ScriptedFrame;
use mediapipe::graph::StubGraph;
use mediapipe::hands::HandDetector;
use mediapipe::image::CHANNELS;
use mediapipe::image::ImageFrame;
use mediapipe::image::PixelFormat;
use mediapipe::pose::PoseDetector;

fn rgb_frame(width: usize, height: usize) -> ImageFrame {
    ImageFrame { width, height, format: PixelFormat::Rgb, data: vec![0u8; width * height * CHANNELS] }
}

fn empty_frame() -> ImageFrame {
    ImageFrame { width: 0, height: 0, format: PixelFormat::Rgb, data: Vec::new() }
}

fn marked_points(count: usize, seed: f32) -> Vec<Landmark> {
    (0..count)
        .map(|i| Landmark {
            x: (seed + i as f32).to_bits(),
            y: (seed * 2.0).to_bits(),
            z: 0,
            visibility: 1.0f32.to_bits(),
            presence: 1.0f32.to_bits(),
        })
        .collect()
}

#[test]
fn empty_frame_never_reaches_the_graph() {
    let script = vec![ScriptedFrame { detected: true, points: marked_points(33, 1.0) }];
    let mut detector = PoseDetector::default();
    detector.graph = StubGraph::new(script);
    let mut pose = Pose::default();
    let detected = detector.process(&empty_frame(), &mut pose);
    assert!(!detected);
    assert!(!detector.graph.was_called());
    assert_eq!(detector.graph.consumed(), 0);
    assert_eq!(pose.data, Pose::default().data);
}

#[test]
fn malformed_frame_never_reaches_the_graph() {
    let script = vec![ScriptedFrame { detected: true, points: marked_points(478, 1.0) }];
    let mut detector = FaceMeshDetector::default();
    detector.graph = StubGraph::new(script);
    let mut mesh = FaceMesh::default();
    let torn = ImageFrame { width: 4, height: 4, format: PixelFormat::Rgb, data: vec![0u8; 10] };
    assert!(!detector.process(&torn, &mut mesh));
    let bgr = ImageFrame { width: 1, height: 1, format: PixelFormat::Bgr, data: vec![0u8; 3] };
    assert!(!detector.process(&bgr, &mut mesh));
    assert!(!detector.graph.was_called());
}

#[test]
fn detected_output_is_passed_through_unmodified() {
    let points = marked_points(33, 3.5);
    let script = vec![ScriptedFrame { detected: true, points: points.clone() }];
    let mut detector = PoseDetector::default();
    detector.graph = StubGraph::new(script);
    let mut pose = Pose::default();
    let detected = detector.process(&rgb_frame(4, 4), &mut pose);
    assert!(detected);
    assert!(detector.graph.was_called());
    assert_eq!(detector.graph.consumed(), 1);
    assert_eq!(pose.data, points);
}

#[test]
fn undetected_flag_leaves_output_untouched() {
    let script = vec![ScriptedFrame { detected: false, points: marked_points(33, 9.0) }];
    let mut detector = PoseDetector::default();
    detector.graph = StubGraph::new(script);
    let mut pose = Pose::default();
    let detected = detector.process(&rgb_frame(2, 2), &mut pose);
    assert!(!detected);
    assert!(detector.graph.was_called());
    assert_eq!(pose.data, Pose::default().data);
}

#[test]
fn exhausted_script_reports_nothing() {
    let mut detector = PoseDetector::default();
    let mut pose = Pose::default();
    assert!(!detector.process(&rgb_frame(2, 2), &mut pose));
    assert!(detector.graph.was_called());
    assert_eq!(detector.graph.consumed(), 0);
    assert_eq!(pose.data, Pose::default().data);
}

#[test]
fn face_mesh_detected_passthrough() {
    let points = marked_points(478, 0.25);
    let script = vec![ScriptedFrame { detected: true, points: points.clone() }];
    let mut detector = FaceMeshDetector::default();
    detector.graph = StubGraph::new(script);
    let mut mesh = FaceMesh::default();
    assert!(detector.process(&rgb_frame(3, 3), &mut mesh));
    assert_eq!(mesh.data, points);
}

#[test]
fn hand_output_splits_left_then_right() {
    let points = marked_points(42, 7.0);
    let script = vec![ScriptedFrame { detected: true, points: points.clone() }];
    let mut detector = HandDetector::default();
    detector.graph = StubGraph::new(script);
    let mut left = Hand::default();
    let mut right = Hand::default();
    assert!(detector.process(&rgb_frame(2, 2), &mut left, &mut right));
    assert_eq!(left.data, points[..21].to_vec());
    assert_eq!(right.data, points[21..].to_vec());
}

#[test]
fn detectors_do_not_share_graph_state() {
    let first_script = vec![
        ScriptedFrame { detected: true, points: marked_points(33, 1.0) },
        ScriptedFrame { detected: true, points: marked_points(33, 2.0) },
    ];
    let second_script = vec![ScriptedFrame { detected: false, points: marked_points(33, 8.0) }];
    let mut first = PoseDetector::default();
    first.graph = StubGraph::new(first_script);
    let mut second = PoseDetector::default();
    second.graph = StubGraph::new(second_script);
    let frame = rgb_frame(2, 2);
    let mut pose_a = Pose::default();
    let mut pose_b = Pose::default();

    assert!(first.process(&frame, &mut pose_a));
    assert_eq!(first.graph.consumed(), 1);
    assert_eq!(second.graph.consumed(), 0);
    assert!(!second.graph.was_called());

    assert!(!second.process(&frame, &mut pose_b));
    assert_eq!(second.graph.consumed(), 1);
    assert_eq!(first.graph.consumed(), 1);

    assert!(first.process(&frame, &mut pose_a));
    assert_eq!(first.graph.consumed(), 2);
    assert_eq!(second.graph.consumed(), 1);
    assert_eq!(pose_a.data, marked_points(33, 2.0));
    assert_eq!(pose_b.data, Pose::default().data);
}

#[test]
fn hand_scenario_alternating_detection() {
    let detected_points = marked_points(42, 5.0);
    let final_points = marked_points(42, 6.0);
    let script = vec![
        ScriptedFrame { detected: true, points: detected_points.clone() },
        ScriptedFrame { detected: false, points: marked_points(42, 99.0) },
        ScriptedFrame { detected: true, points: final_points.clone() },
    ];
    let mut detector = HandDetector::default();
    detector.graph = StubGraph::new(script);
    let mut left = Hand::default();
    let mut right = Hand::default();
    let frame = rgb_frame(4, 2);

    let first = detector.process(&frame, &mut left, &mut right);
    let after_first_left = left.data.clone();
    let second = detector.process(&frame, &mut left, &mut right);
    let after_second_left = left.data.clone();
    let third = detector.process(&frame, &mut left, &mut right);

    assert_eq!((first, second, third), (true, false, true));
    assert_eq!(after_first_left, detected_points[..21].to_vec());
    assert_eq!(after_second_left, after_first_left);
    assert_eq!(left.data, final_points[..21].to_vec());
    assert_eq!(right.data, final_points[21..].to_vec());
    assert_eq!(detector.graph.consumed(), 3);
}

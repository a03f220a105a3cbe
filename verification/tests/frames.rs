use mediapipe::image::CHANNELS;
use mediapipe::image::ImageFrame;
use mediapipe::image::PixelFormat;
use mediapipe::image::frame_accepted;

fn rgb_frame(width: usize, height: usize) -> ImageFrame {
    ImageFrame { width, height, format: PixelFormat::Rgb, data: vec![0u8; width * height * CHANNELS] }
}

#[test]
fn new_validates_buffer_length() {
    let frame = ImageFrame::new(2, 2, PixelFormat::Rgb, vec![0u8; 12]).unwrap();
    assert_eq!(frame.width, 2);
    assert_eq!(frame.height, 2);
    assert!(ImageFrame::new(2, 2, PixelFormat::Rgb, vec![0u8; 11]).is_none());
    assert!(ImageFrame::new(2, 2, PixelFormat::Rgb, vec![0u8; 13]).is_none());
    assert!(ImageFrame::new(usize::MAX, 2, PixelFormat::Rgb, vec![0u8; 8]).is_none());
}

#[test]
fn emptiness_detection() {
    assert!(rgb_frame(0, 4).is_empty());
    assert!(rgb_frame(4, 0).is_empty());
    assert!(!rgb_frame(1, 1).is_empty());
}

#[test]
fn acceptance_gate() {
    assert!(frame_accepted(&rgb_frame(2, 3)));
    assert!(!frame_accepted(&rgb_frame(0, 3)));
    assert!(!frame_accepted(&rgb_frame(3, 0)));
    let bgr = ImageFrame { width: 1, height: 1, format: PixelFormat::Bgr, data: vec![0u8; 3] };
    assert!(!frame_accepted(&bgr));
    let short = ImageFrame { width: 2, height: 2, format: PixelFormat::Rgb, data: vec![0u8; 9] };
    assert!(!frame_accepted(&short));
}

#[test]
fn row_stride_is_three_bytes_per_pixel() {
    assert_eq!(rgb_frame(7, 2).row_stride(), 21);
    assert_eq!(rgb_frame(1, 1).row_stride(), 3);
}

#[test]
fn pixel_reads_row_major() {
    let data: Vec<u8> = (0u8..12u8).collect();
    let frame = ImageFrame::new(2, 2, PixelFormat::Rgb, data).unwrap();
    assert_eq!(frame.pixel(0, 0), (0, 1, 2));
    assert_eq!(frame.pixel(1, 0), (3, 4, 5));
    assert_eq!(frame.pixel(0, 1), (6, 7, 8));
    assert_eq!(frame.pixel(1, 1), (9, 10, 11));
}

#[test]
fn bgr_conversion_swaps_outer_channels() {
    let data: Vec<u8> = vec![10, 20, 30, 40, 50, 60];
    let frame = ImageFrame::new(2, 1, PixelFormat::Bgr, data).unwrap();
    let rgb = frame.into_rgb();
    assert_eq!(rgb.format, PixelFormat::Rgb);
    assert_eq!(rgb.width, 2);
    assert_eq!(rgb.height, 1);
    assert_eq!(rgb.data, vec![30, 20, 10, 60, 50, 40]);
}

#[test]
fn rgb_conversion_is_identity() {
    let data: Vec<u8> = vec![1, 2, 3];
    let frame = ImageFrame::new(1, 1, PixelFormat::Rgb, data.clone()).unwrap();
    let rgb = frame.into_rgb();
    assert_eq!(rgb.data, data);
    assert_eq!(rgb.format, PixelFormat::Rgb);
}

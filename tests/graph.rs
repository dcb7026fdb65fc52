use camctl::convert::{
    convert_bgr_bottom_up_to_rgb, convert_nv12_to_rgb, convert_yuy2_to_rgb, is_obs_virtual_camera,
};
use camctl::frames::{Frame, FrameBuffer};

#[test]
fn converts_bgr_bottom_up_to_rgb_top_down() {
    let width = 2usize;
    let height = 2usize;
    let stride = width * 3;
    let mut bgr = vec![0u8; stride * height];
    bgr[0] = 255;
    bgr[3] = 255;
    bgr[8] = 255;
    bgr[11] = 255;
    let rgb = convert_bgr_bottom_up_to_rgb(&bgr, width, height);
    assert_eq!(rgb[0], 255);
    assert_eq!(rgb[1], 0);
    assert_eq!(rgb[2], 0);
    assert_eq!(rgb[6], 0);
    assert_eq!(rgb[7], 0);
    assert_eq!(rgb[8], 255);
}

#[test]
fn handles_undersized_buffer_gracefully() {
    let result = convert_bgr_bottom_up_to_rgb(&[0u8; 5], 2, 2);
    assert!(result.is_empty());
}

#[test]
fn handles_1x1_pixel() {
    let bgr = vec![100u8, 150, 200];
    let rgb = convert_bgr_bottom_up_to_rgb(&bgr, 1, 1);
    assert_eq!(rgb, vec![200, 150, 100]);
}

#[test]
fn converted_frame_pushes_to_buffer() {
    let mut buffer = FrameBuffer::new(3);
    let bgr = vec![50u8, 100, 150];
    let rgb = convert_bgr_bottom_up_to_rgb(&bgr, 1, 1);
    buffer.push(Frame { data: rgb, width: 1, height: 1, timestamp_us: 42 });
    let frame = buffer.latest().unwrap();
    assert_eq!(frame.data, vec![150, 100, 50]);
    assert_eq!(frame.timestamp_us, 42);
}

#[test]
fn empty_input_returns_empty() {
    let result = convert_bgr_bottom_up_to_rgb(&[], 0, 0);
    assert!(result.is_empty());
}

#[test]
fn converts_yuy2_white_pixel_pair() {
    let yuy2 = vec![235, 128, 235, 128];
    let rgb = convert_yuy2_to_rgb(&yuy2, 2, 1);
    assert_eq!(rgb.len(), 6);
    assert_eq!(rgb[0], 235);
    assert_eq!(rgb[1], 235);
    assert_eq!(rgb[2], 235);
    assert_eq!(rgb[3], 235);
    assert_eq!(rgb[4], 235);
    assert_eq!(rgb[5], 235);
}

#[test]
fn converts_yuy2_black_pixel_pair() {
    let yuy2 = vec![0, 128, 0, 128];
    let rgb = convert_yuy2_to_rgb(&yuy2, 2, 1);
    assert_eq!(rgb, vec![0, 0, 0, 0, 0, 0]);
}

#[test]
fn yuy2_grey_pair_converts_to_grey() {
    let rgb = convert_yuy2_to_rgb(&[128, 128, 128, 128], 2, 1);
    assert_eq!(rgb, vec![128, 128, 128, 128, 128, 128]);
}

#[test]
fn yuy2_chroma_uses_fixed_point_matrix() {
    // Y=100, U=200 (72), V=50 (-78): R=(25600-28002)>>8=-10 -> 0,
    // G=(25600-6336+14274)>>8=131, B=(25600+32688)>>8=227.
    let rgb = convert_yuy2_to_rgb(&[100, 200, 100, 50], 2, 1);
    assert_eq!(rgb, vec![0, 131, 227, 0, 131, 227]);
}

#[test]
fn yuy2_undersized_buffer_returns_empty() {
    let result = convert_yuy2_to_rgb(&[0u8; 3], 2, 1);
    assert!(result.is_empty());
}

#[test]
fn yuy2_zero_dimensions_returns_empty() {
    let result = convert_yuy2_to_rgb(&[], 0, 0);
    assert!(result.is_empty());
}

#[test]
fn converts_yuy2_2x2_produces_correct_size() {
    let yuy2 = vec![128, 128, 128, 128, 128, 128, 128, 128];
    let rgb = convert_yuy2_to_rgb(&yuy2, 2, 2);
    assert_eq!(rgb.len(), 2 * 2 * 3);
}

#[test]
fn converts_nv12_to_rgb_grey() {
    let nv12 = vec![128, 128, 128, 128, 128, 128];
    let rgb = convert_nv12_to_rgb(&nv12, 2, 2);
    assert_eq!(rgb.len(), 2 * 2 * 3);
    for pixel in rgb.chunks(3) {
        assert_eq!(pixel, [128, 128, 128]);
    }
}

#[test]
fn nv12_uniform_block_converts_uniformly() {
    let rgb = convert_nv12_to_rgb(&[200, 200, 200, 200, 128, 128], 2, 2);
    assert_eq!(rgb, vec![200u8; 12]);
}

#[test]
fn nv12_undersized_buffer_returns_empty() {
    let result = convert_nv12_to_rgb(&[0u8; 5], 2, 2);
    assert!(result.is_empty());
}

#[test]
fn converts_nv12_to_rgb_4x2() {
    let mut nv12 = vec![200u8; 8];
    nv12.extend_from_slice(&[128, 128, 128, 128]);
    let rgb = convert_nv12_to_rgb(&nv12, 4, 2);
    assert_eq!(rgb.len(), 4 * 2 * 3);
    for pixel in rgb.chunks(3) {
        assert_eq!(pixel, [200, 200, 200]);
    }
}

#[test]
fn nv12_zero_dimensions_returns_empty() {
    let result = convert_nv12_to_rgb(&[], 0, 0);
    assert!(result.is_empty());
}

#[test]
fn converts_nv12_to_rgb_black() {
    let nv12 = vec![0, 0, 0, 0, 128, 128];
    let rgb = convert_nv12_to_rgb(&nv12, 2, 2);
    assert_eq!(rgb.len(), 12);
    for pixel in rgb.chunks(3) {
        assert_eq!(pixel, [0, 0, 0]);
    }
}

#[test]
fn converts_nv12_to_rgb_white() {
    let nv12 = vec![235, 235, 235, 235, 128, 128];
    let rgb = convert_nv12_to_rgb(&nv12, 2, 2);
    assert_eq!(rgb.len(), 12);
    for pixel in rgb.chunks(3) {
        assert_eq!(pixel, [235, 235, 235]);
    }
}

#[test]
fn converters_output_three_bytes_per_pixel() {
    let (w, h) = (4usize, 2usize);
    assert_eq!(convert_bgr_bottom_up_to_rgb(&vec![7u8; w * h * 3], w, h).len(), w * h * 3);
    assert_eq!(convert_yuy2_to_rgb(&vec![255u8; w * h * 2], w, h).len(), w * h * 3);
    assert_eq!(convert_nv12_to_rgb(&vec![255u8; w * h * 3 / 2], w, h).len(), w * h * 3);
    assert_eq!(convert_nv12_to_rgb(&vec![0u8; w * h * 3 / 2], w, h).len(), w * h * 3);
}

#[test]
fn detects_obs_virtual_camera() {
    assert!(is_obs_virtual_camera("OBS Virtual Camera"));
    assert!(is_obs_virtual_camera("OBS-Virtual-Camera"));
    assert!(is_obs_virtual_camera("obs virtual cam"));
}

#[test]
fn does_not_detect_real_cameras_as_obs() {
    assert!(!is_obs_virtual_camera("Logitech C920"));
    assert!(!is_obs_virtual_camera("HD Webcam"));
    assert!(!is_obs_virtual_camera("Virtual Camera"));
    assert!(!is_obs_virtual_camera("OBS Studio"));
}

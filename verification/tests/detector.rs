use rivals_robot::detector::{is_valid_gray_buffer, DetectorError, TagDetector};

/// Bit positions of the tag36h11 family inside its 8 by 8 black-bordered square.
const BIT_X: [usize; 36] = [
    1, 2, 3, 4, 5, 2, 3, 4, 3, 6, 6, 6, 6, 6, 5, 5, 5, 4, 6, 5, 4, 3, 2, 5, 4, 3, 4, 1, 1, 1, 1,
    1, 2, 2, 2, 3,
];
const BIT_Y: [usize; 36] = [
    1, 1, 1, 1, 1, 2, 2, 2, 3, 1, 2, 3, 4, 5, 2, 3, 4, 3, 6, 6, 6, 6, 6, 5, 5, 5, 4, 6, 5, 4, 3,
    2, 5, 4, 3, 4,
];
/// The code of tag 0 of the tag36h11 family.
const TAG0_CODE: u64 = 0x0000000d7e00984b;

/// A white canvas of `side` pixels with tag 0 drawn at (`left`, `top`), each
/// of the tag's 10 by 10 cells `cell` pixels wide.
fn canvas_with_tag0(side: usize, left: usize, top: usize, cell: usize) -> Vec<u8> {
    let mut grid = [[0u8; 10]; 10];
    for i in 0..10 {
        grid[0][i] = 255;
        grid[9][i] = 255;
        grid[i][0] = 255;
        grid[i][9] = 255;
    }
    for i in 0..36 {
        if TAG0_CODE & (1u64 << (35 - i)) != 0 {
            grid[BIT_Y[i] + 1][BIT_X[i] + 1] = 255;
        }
    }
    let mut pixels = vec![255u8; side * side];
    for row in 0..10 * cell {
        for col in 0..10 * cell {
            pixels[(top + row) * side + left + col] = grid[row / cell][col / cell];
        }
    }
    pixels
}

#[test]
fn detector_is_created() {
    // A detector that corrects no bit errors still finds a perfect tag.
    let mut exact = TagDetector::new(0);
    let found = exact.detect_from_raw(canvas_with_tag0(300, 50, 50, 20), 300, 300).unwrap();
    assert_eq!(found.len(), 1);
    assert_eq!(found[0].id(), 0);
}

#[test]
fn blank_image_has_no_tags() {
    let mut detector = TagDetector::new(1);
    let found = detector.detect_from_raw(vec![0u8; 64 * 48], 64, 48).unwrap();
    assert!(found.is_empty());
    let found = detector.detect_from_raw(vec![255u8; 64 * 48], 64, 48).unwrap();
    assert!(found.is_empty());
}

#[test]
fn drawn_tag_is_found() {
    let mut detector = TagDetector::new(2);
    let pixels = canvas_with_tag0(300, 50, 50, 20);
    let found = detector.detect_from_raw(pixels, 300, 300).unwrap();
    assert_eq!(found.len(), 1);
    assert_eq!(found[0].id(), 0);
    assert_eq!(found[0].hamming(), 0);
}

#[test]
fn extra_bytes_after_the_image_are_ignored() {
    let mut detector = TagDetector::new(2);
    let mut pixels = canvas_with_tag0(300, 40, 60, 20);
    pixels.extend(std::iter::repeat(0u8).take(1000));
    let found = detector.detect_from_raw(pixels, 300, 300).unwrap();
    assert_eq!(found.len(), 1);
    assert_eq!(found[0].id(), 0);
}

#[test]
fn bad_dimensions_are_rejected() {
    let mut detector = TagDetector::new(2);
    assert_eq!(detector.detect_from_raw(vec![0u8; 100], -10, 10).err(), Some(DetectorError::InvalidBuffer));
    assert_eq!(detector.detect_from_raw(vec![0u8; 100], 10, -10).err(), Some(DetectorError::InvalidBuffer));
    assert_eq!(detector.detect_from_raw(vec![0u8; 100], 0, 10).err(), Some(DetectorError::InvalidBuffer));
    assert_eq!(detector.detect_from_raw(vec![0u8; 100], 10, 0).err(), Some(DetectorError::InvalidBuffer));
    assert_eq!(detector.detect_from_raw(vec![0u8; 99], 10, 10).err(), Some(DetectorError::InvalidBuffer));
    assert_eq!(detector.detect_from_raw(Vec::new(), 1, 1).err(), Some(DetectorError::InvalidBuffer));
    assert!(detector.detect_from_raw(vec![0u8; 100], 10, 10).is_ok());
}

#[test]
fn buffer_validity_rule() {
    assert!(is_valid_gray_buffer(10, 10, 100));
    assert!(is_valid_gray_buffer(10, 10, 101));
    assert!(!is_valid_gray_buffer(10, 10, 99));
    assert!(!is_valid_gray_buffer(0, 10, 100));
    assert!(!is_valid_gray_buffer(10, 0, 100));
    // More pixels than the detector can count.
    assert!(!is_valid_gray_buffer(65536, 65536, usize::MAX));
    assert!(!is_valid_gray_buffer(1 << 40, 1, usize::MAX));
    assert!(is_valid_gray_buffer(46340, 46340, usize::MAX));
    // Sides the detector takes run from 7 to 65534 pixels.
    assert!(!is_valid_gray_buffer(6, 7, 100));
    assert!(!is_valid_gray_buffer(7, 6, 100));
    assert!(is_valid_gray_buffer(7, 7, 49));
    assert!(is_valid_gray_buffer(65534, 7, 65534 * 7));
    assert!(!is_valid_gray_buffer(65535, 7, 65535 * 7));
    assert!(!is_valid_gray_buffer(7, 65535, 65535 * 7));
}

#[test]
fn smallest_and_widest_images_are_searched() {
    let mut detector = TagDetector::new(2);
    assert!(detector.detect_from_raw(vec![0u8; 49], 7, 7).unwrap().is_empty());
    let checker: Vec<u8> = (0..49).map(|i| if i % 2 == 0 { 0 } else { 255 }).collect();
    assert!(detector.detect_from_raw(checker, 7, 7).is_ok());
    assert!(detector.detect_from_raw(vec![0u8; 65534 * 7], 65534, 7).unwrap().is_empty());
    assert_eq!(detector.detect_from_raw(vec![0u8; 36], 6, 6).err(), Some(DetectorError::InvalidBuffer));
    assert_eq!(
        detector.detect_from_raw(vec![0u8; 65535 * 7], 65535, 7).err(),
        Some(DetectorError::InvalidBuffer)
    );
}

#[test]
fn decoded_image_is_searched_in_gray() {
    let mut detector = TagDetector::new(2);
    let pixels = canvas_with_tag0(300, 50, 50, 20);
    let gray = image::GrayImage::from_raw(300, 300, pixels).unwrap();
    let img = image::DynamicImage::ImageLuma8(gray);
    let found = detector.detect_from_image(&img).unwrap();
    assert_eq!(found.len(), 1);
    assert_eq!(found[0].id(), 0);
    // The same image in colour gives the same tag.
    let rgb = image::DynamicImage::ImageRgb8(img.to_rgb8());
    let found = detector.detect_from_image(&rgb).unwrap();
    assert_eq!(found.len(), 1);
    assert_eq!(found[0].id(), 0);
}

#[test]
fn empty_decoded_image_is_rejected() {
    let mut detector = TagDetector::new(2);
    let img = image::DynamicImage::new_luma8(0, 0);
    assert_eq!(detector.detect_from_image(&img).err(), Some(DetectorError::InvalidBuffer));
}

#[test]
fn luma_buffer_rule_matches_raw_rule() {
    let mut detector = TagDetector::new(2);
    assert_eq!(detector.detect_from_luma(0, 5, vec![0u8; 10]).err(), Some(DetectorError::InvalidBuffer));
    assert_eq!(detector.detect_from_luma(7, 8, vec![0u8; 55]).err(), Some(DetectorError::InvalidBuffer));
    assert!(detector.detect_from_luma(7, 8, vec![0u8; 56]).unwrap().is_empty());
    let found = detector.detect_from_luma(300, 300, canvas_with_tag0(300, 70, 30, 20)).unwrap();
    assert_eq!(found.len(), 1);
    assert_eq!(found[0].id(), 0);
}

#[test]
fn only_the_first_rows_are_searched() {
    let mut detector = TagDetector::new(2);
    // The tag sits in the first 300 rows; rows after them are not part of the image.
    let mut pixels = canvas_with_tag0(300, 50, 50, 20);
    pixels.extend(canvas_with_tag0(300, 50, 50, 20));
    let found = detector.detect_from_raw(pixels, 300, 300).unwrap();
    assert_eq!(found.len(), 1);
    // The same tag, but placed in the second half of the buffer: not searched.
    let mut pixels = vec![255u8; 300 * 300];
    pixels.extend(canvas_with_tag0(300, 50, 50, 20));
    assert!(detector.detect_from_raw(pixels, 300, 300).unwrap().is_empty());
}

#[test]
fn rows_are_width_bytes_long() {
    let mut detector = TagDetector::new(2);
    // A 300 by 200 image holding the tag is searched as rows of 300 bytes.
    let canvas = canvas_with_tag0(300, 50, 20, 15);
    let pixels: Vec<u8> = canvas[..300 * 200].to_vec();
    let found = detector.detect_from_raw(pixels.clone(), 300, 200).unwrap();
    assert_eq!(found.len(), 1);
    assert_eq!(found[0].id(), 0);
    // Read as 200 by 300, the same bytes no longer show a tag.
    assert!(detector.detect_from_raw(pixels, 200, 300).unwrap().is_empty());
}

#[test]
fn error_text() {
    assert_eq!(DetectorError::InvalidBuffer.message(), "Failed to create AprilTag buffer");
}

#[test]
fn repeated_detection_reports_the_same_tags() {
    let mut detector = TagDetector::new(2);
    let pixels = canvas_with_tag0(300, 50, 50, 20);
    let first = detector.detect_from_raw(pixels.clone(), 300, 300).unwrap();
    let second = detector.detect_from_raw(pixels, 300, 300).unwrap();
    let summary = |v: &Vec<apriltag::Detection>| -> Vec<(usize, usize)> {
        v.iter().map(|d| (d.id(), d.hamming())).collect()
    };
    assert_eq!(summary(&first), summary(&second));
    assert_eq!(summary(&first), vec![(0, 0)]);
}

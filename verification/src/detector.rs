//! AprilTag detection on grayscale images, with the `tag36h11` family.
//!
//! The detector itself is the `apriltag` crate's; this module checks the
//! image buffers that callers hand in and turns them into the detector's
//! image type.

use vstd::prelude::*;

verus! {

/// The detector of the `apriltag` crate.
#[verifier::external_type_specification]
#[verifier::external_body]
pub struct ExAprilDetector(apriltag::Detector);

/// One detected tag, as the `apriltag` crate reports it.
#[verifier::external_type_specification]
#[verifier::external_body]
pub struct ExAprilDetection(apriltag::Detection);

/// The error type of the `apriltag` crate.
#[verifier::external_type_specification]
#[verifier::external_body]
pub struct ExAprilError(apriltag::Error);

/// A decoded image of the `image` crate.
#[verifier::external_type_specification]
#[verifier::external_body]
pub struct ExDynamicImage(image::DynamicImage);

/// Why a detection could not be run.
#[derive(Clone, Copy, Debug, PartialEq, Eq, Structural)]
pub enum DetectorError {
    /// The dimensions do not describe a grayscale image that the buffer
    /// holds and that the detector can take.
    InvalidBuffer,
}

impl DetectorError {
    /// The text that reports the error.
    pub fn message(&self) -> (text: &'static str)
        ensures
            text@ == "Failed to create AprilTag buffer"@,
    {
        match self {
            DetectorError::InvalidBuffer => "Failed to create AprilTag buffer",
        }
    }
}

/// The number of bit errors per tag that an `apriltag` detector of the
/// `tag36h11` family was built to correct (what `add_family_bits` was given).
pub uninterp spec fn tag36h11_detector_bits(detector: apriltag::Detector) -> nat;

/// The tag id of a detection (`Detection::id`).
pub uninterp spec fn detection_id(detection: apriltag::Detection) -> nat;

/// The number of bits corrected in a detection (`Detection::hamming`).
pub uninterp spec fn detection_hamming(detection: apriltag::Detection) -> nat;

/// The tags, each as its id and the number of bits corrected, in the order
/// in which the `apriltag` detector of the `tag36h11` family, correcting up
/// to `bits` bit errors with its default settings (one thread), reports them
/// for the grayscale image of `width` by `height` pixels whose pixel (x, y)
/// is `pixels[y * width + x]`.
pub uninterp spec fn tag36h11_detections(bits: nat, width: nat, height: nat, pixels: Seq<u8>) -> Seq<(nat, nat)>;

/// Each detection as its tag id and the number of bits corrected, in order.
pub open spec fn detection_summaries(found: Seq<apriltag::Detection>) -> Seq<(nat, nat)> {
    found.map_values(|d: apriltag::Detection| (detection_id(d), detection_hamming(d)))
}

/// The width, height and raw pixel bytes of a decoded image converted to
/// 8-bit grayscale by the `image` crate.
pub uninterp spec fn luma8_of(img: image::DynamicImage) -> (u32, u32, Seq<u8>);

/// The shortest side that the detector takes: it halves the image
/// (keeping every other pixel) and then works on tiles of four by four
/// pixels, and its C code reads outside its tile tables when the halved
/// image has no whole tile.
pub const MIN_IMAGE_SIDE: u64 = 7;

/// The longest side that the detector takes: its C code asserts that each
/// side of the halved image is below 32768.
pub const MAX_IMAGE_SIDE: u64 = 65534;

/// A grayscale image of `width` by `height` pixels, one byte per pixel,
/// row after row, fits in a buffer of `len` bytes, has sides that the
/// detector takes, and is small enough for the detector, which counts
/// pixels in an `i32`.
pub open spec fn valid_gray_buffer(width: int, height: int, len: int) -> bool {
    &&& MIN_IMAGE_SIDE <= width <= MAX_IMAGE_SIDE
    &&& MIN_IMAGE_SIDE <= height <= MAX_IMAGE_SIDE
    &&& width * height <= len
    &&& width * height <= i32::MAX
}

/// Builds a detector with the single tag family `tag36h11`, correcting up to
/// `bits` bit errors (`Family::tag_36h11`, `DetectorBuilder::add_family_bits`
/// and `DetectorBuilder::build`). The crate's `build` fails only when no
/// family was added, and the C constructor it calls writes through its
/// allocation before returning it, so it never reports a missing detector:
/// the build succeeds.
#[verifier::external_body]
fn build_tag36h11_detector(bits: usize) -> (r: Result<apriltag::Detector, apriltag::Error>)
    ensures
        r is Ok,
        tag36h11_detector_bits(r->Ok_0) == bits,
{
    apriltag::DetectorBuilder::new().add_family_bits(apriltag::Family::tag_36h11(), bits).build()
}

/// Creates a zeroed image of `width` by `height` pixels with a row stride of
/// `width` (`Image::zeros_with_stride`), copies `pixels` into its buffer, and
/// runs the detector on it (`Detector::detect`). `zeros_with_stride` fails
/// only when the width exceeds the stride, and here they are equal, so the
/// call succeeds. The detector keeps its default settings and its family;
/// the tags it reports, in its order, are named by `tag36h11_detections` of
/// its bits and this image.
#[verifier::external_body]
fn detect_gray_pixels(
    detector: &mut apriltag::Detector,
    width: usize,
    height: usize,
    pixels: &[u8],
) -> (r: Result<Vec<apriltag::Detection>, apriltag::Error>)
    requires
        valid_gray_buffer(width as int, height as int, pixels@.len() as int),
        pixels@.len() == width * height,
    ensures
        tag36h11_detector_bits(*final(detector)) == tag36h11_detector_bits(*old(detector)),
        r is Ok,
        r->Ok_0@.map_values(|d: apriltag::Detection| (detection_id(d), detection_hamming(d)))
            == tag36h11_detections(
            tag36h11_detector_bits(*old(detector)),
            width as nat,
            height as nat,
            pixels@,
        ),
{
    let mut image = apriltag::Image::zeros_with_stride(width, height, width)?;
    image.as_slice_mut().copy_from_slice(pixels);
    Ok(detector.detect(&image))
}

/// Converts a decoded image to 8-bit grayscale (`DynamicImage::to_luma8`) and
/// returns its width, height and raw pixel buffer (`ImageBuffer::into_raw`).
/// The conversion depends on the image alone. An image buffer always holds at
/// least width times height pixels.
#[verifier::external_body]
fn luma8_pixels(img: &image::DynamicImage) -> (r: (u32, u32, Vec<u8>))
    ensures
        (r.0, r.1, r.2@) == luma8_of(*img),
        r.0 * r.1 <= r.2@.len(),
{
    let luma = img.to_luma8();
    (luma.width(), luma.height(), luma.into_raw())
}

/// Whether `width` by `height` pixels fit in `len` bytes and suit the detector.
pub fn is_valid_gray_buffer(width: u64, height: u64, len: usize) -> (valid: bool)
    ensures
        valid == valid_gray_buffer(width as int, height as int, len as int),
        valid <==> (7 <= width <= 65534 && 7 <= height <= 65534 && width * height <= len
            && width * height <= 2147483647),
{
    if width < MIN_IMAGE_SIDE || height < MIN_IMAGE_SIDE || width > MAX_IMAGE_SIDE || height
        > MAX_IMAGE_SIDE {
        return false;
    }
    assert(width * height <= MAX_IMAGE_SIDE * MAX_IMAGE_SIDE) by (nonlinear_arith)
        requires
            width <= MAX_IMAGE_SIDE,
            height <= MAX_IMAGE_SIDE,
    ;
    let pixels: u64 = width * height;
    pixels <= len as u64 && pixels <= i32::MAX as u64
}

/// An AprilTag detector for the `tag36h11` family.
pub struct TagDetector {
    detector: apriltag::Detector,
}

/// What a detection returns for a buffer `pixels` that is to hold a grayscale
/// image of `width` by `height` pixels row after row: the tags found in the
/// image of its first `width * height` bytes, or `InvalidBuffer` when the
/// buffer is not valid.
pub open spec fn detection_outcome(
    bits: nat,
    width: int,
    height: int,
    pixels: Seq<u8>,
    r: Result<Vec<apriltag::Detection>, DetectorError>,
) -> bool {
    if valid_gray_buffer(width, height, pixels.len() as int) {
        r matches Ok(v) && detection_summaries(v@) == tag36h11_detections(
            bits,
            width as nat,
            height as nat,
            pixels.subrange(0, width * height),
        )
    } else {
        r == Err::<Vec<apriltag::Detection>, DetectorError>(DetectorError::InvalidBuffer)
    }
}

impl TagDetector {
    /// How many bit errors per tag the detector corrects.
    pub closed spec fn spec_bits(&self) -> nat {
        tag36h11_detector_bits(self.detector)
    }

    /// Creates a detector for the `tag36h11` family that corrects up to
    /// `bits` bit errors per tag.
    pub fn new(bits: usize) -> (d: TagDetector)
        ensures
            d.spec_bits() == bits,
    {
        TagDetector { detector: build_tag36h11_detector(bits).unwrap() }
    }

    /// Detects tags in the first `width * height` bytes of `pixels`, a
    /// grayscale image stored row after row.
    fn detect_gray(&mut self, width: usize, height: usize, pixels: &[u8]) -> (found: Vec<
        apriltag::Detection,
    >)
        requires
            valid_gray_buffer(width as int, height as int, pixels@.len() as int),
        ensures
            final(self).spec_bits() == old(self).spec_bits(),
            detection_summaries(found@) == tag36h11_detections(
                old(self).spec_bits(),
                width as nat,
                height as nat,
                pixels@.subrange(0, width * height),
            ),
    {
        assert(width * height <= i32::MAX);
        let count: usize = width * height;
        let used = vstd::slice::slice_subrange(pixels, 0, count);
        detect_gray_pixels(&mut self.detector, width, height, used).unwrap()
    }

    /// Detects tags in a grayscale image of `width` by `height` pixels that
    /// `data` holds row after row (bytes past the last row are not read).
    /// Fails with `InvalidBuffer` exactly when the dimensions do not describe
    /// such an image that the detector can take.
    pub fn detect_from_raw(&mut self, data: Vec<u8>, width: i32, height: i32) -> (r: Result<
        Vec<apriltag::Detection>,
        DetectorError,
    >)
        ensures
            final(self).spec_bits() == old(self).spec_bits(),
            detection_outcome(old(self).spec_bits(), width as int, height as int, data@, r),
            r is Ok <==> (7 <= width <= 65534 && 7 <= height <= 65534 && width * height
                <= data@.len() && width * height <= 2147483647),
    {
        if width <= 0 || height <= 0 {
            return Err(DetectorError::InvalidBuffer);
        }
        if !is_valid_gray_buffer(width as u64, height as u64, data.len()) {
            return Err(DetectorError::InvalidBuffer);
        }
        Ok(self.detect_gray(width as usize, height as usize, data.as_slice()))
    }

    /// Detects tags in a decoded image, after converting it to 8-bit grayscale.
    /// Fails with `InvalidBuffer` exactly when the grayscale image has a side
    /// that the detector does not take (shorter than 7 or longer than 65534
    /// pixels) or more pixels than it counts.
    pub fn detect_from_image(&mut self, img: &image::DynamicImage) -> (r: Result<
        Vec<apriltag::Detection>,
        DetectorError,
    >)
        ensures
            final(self).spec_bits() == old(self).spec_bits(),
            detection_outcome(
                old(self).spec_bits(),
                luma8_of(*img).0 as int,
                luma8_of(*img).1 as int,
                luma8_of(*img).2,
                r,
            ),
            r is Ok <==> (7 <= luma8_of(*img).0 <= 65534 && 7 <= luma8_of(*img).1 <= 65534
                && luma8_of(*img).0 * luma8_of(*img).1 <= luma8_of(*img).2.len()
                && luma8_of(*img).0 * luma8_of(*img).1 <= 2147483647),
    {
        let (width, height, pixels) = luma8_pixels(img);
        self.detect_from_luma(width, height, pixels)
    }

    /// Detects tags in an 8-bit grayscale image of `width` by `height` pixels
    /// that `pixels` holds row after row, as the `image` crate stores it.
    /// Fails with `InvalidBuffer` exactly when the dimensions do not describe
    /// such an image that the detector can take.
    pub fn detect_from_luma(&mut self, width: u32, height: u32, pixels: Vec<u8>) -> (r: Result<
        Vec<apriltag::Detection>,
        DetectorError,
    >)
        ensures
            final(self).spec_bits() == old(self).spec_bits(),
            detection_outcome(old(self).spec_bits(), width as int, height as int, pixels@, r),
            r is Ok <==> (7 <= width <= 65534 && 7 <= height <= 65534 && width * height
                <= pixels@.len() && width * height <= 2147483647),
    {
        if !is_valid_gray_buffer(width as u64, height as u64, pixels.len()) {
            return Err(DetectorError::InvalidBuffer);
        }
        Ok(self.detect_gray(width as usize, height as usize, pixels.as_slice()))
    }
}

/// Detecting tags in a decoded image and in the grayscale bytes that the
/// image converts to gives the same outcome: both succeed or both fail, and
/// they report the same tags in the same order.
pub proof fn lemma_image_and_bytes_agree(
    bits: nat,
    img: image::DynamicImage,
    width: int,
    height: int,
    pixels: Seq<u8>,
    from_image: Result<Vec<apriltag::Detection>, DetectorError>,
    from_bytes: Result<Vec<apriltag::Detection>, DetectorError>,
)
    requires
        luma8_of(img).0 as int == width,
        luma8_of(img).1 as int == height,
        luma8_of(img).2 == pixels,
        detection_outcome(bits, luma8_of(img).0 as int, luma8_of(img).1 as int, luma8_of(img).2, from_image),
        detection_outcome(bits, width, height, pixels, from_bytes),
    ensures
        from_image is Ok <==> from_bytes is Ok,
        from_image matches Ok(a) ==> from_bytes matches Ok(b) && detection_summaries(a@)
            == detection_summaries(b@),
{
}

/// The buffers that the detector accepts: every image whose sides are each
/// from 7 to 65534 pixels, whose bytes the buffer holds, and whose pixel
/// count fits in an `i32`, whatever its shape; and no other.
pub proof fn lemma_accepted_buffers(width: int, height: int, len: int)
    ensures
        valid_gray_buffer(width, height, len) <==> (7 <= width <= 65534 && 7 <= height <= 65534
            && width * height <= len && width * height <= 2147483647),
{
}

/// Whenever the buffer is accepted, detection succeeds and reports the
/// detector's tags for the image of the buffer's first `width * height` bytes.
pub proof fn lemma_accepted_buffer_is_searched(
    bits: nat,
    width: int,
    height: int,
    pixels: Seq<u8>,
    r: Result<Vec<apriltag::Detection>, DetectorError>,
)
    requires
        7 <= width <= 65534,
        7 <= height <= 65534,
        width * height <= pixels.len(),
        width * height <= 2147483647,
        detection_outcome(bits, width, height, pixels, r),
    ensures
        r matches Ok(v) && detection_summaries(v@) == tag36h11_detections(
            bits,
            width as nat,
            height as nat,
            pixels.subrange(0, width * height),
        ),
{
}

} // verus!

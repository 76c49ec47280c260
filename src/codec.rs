//! Decoding stored snapshots and reducing them to perceptual fingerprints.
use vstd::prelude::*;

use crate::distance::{distance, hamming, lemma_distance_self, lemma_distance_zero_iff_equal};

verus! {

/// Length in bytes of a fingerprint: the hasher's default grid is 8 by 8 bits.
pub const FINGERPRINT_BYTES: usize = 8;

#[verifier::external_type_specification]
#[verifier::external_body]
pub struct ExImageError(image::ImageError);

/// A decoded image: `width` by `height` pixels, four bytes (red, green, blue,
/// alpha) per pixel, row by row.
pub struct Raster {
    pub width: u32,
    pub height: u32,
    pub rgba: Vec<u8>,
}

impl Raster {
    /// The pixel buffer holds exactly four bytes per pixel.
    pub open spec fn wf(&self) -> bool {
        self.rgba@.len() == 4 * (self.width as nat) * (self.height as nat)
    }

    /// Whether the image has at least one pixel.
    pub open spec fn has_pixels(&self) -> bool {
        self.width > 0 && self.height > 0
    }
}

/// What decoding the bytes `b` gives: `None` where they are no image that
/// the codec recognises, else the width, the height and the RGBA pixels.
pub uninterp spec fn decoded_rgba(b: Seq<u8>) -> Option<(u32, u32, Seq<u8>)>;

/// The perceptual fingerprint of a `width` by `height` RGBA image.
pub uninterp spec fn fingerprint_of(width: u32, height: u32, rgba: Seq<u8>) -> Seq<u8>;

/// Relies on image::load_from_memory, which guesses the format from the
/// bytes themselves, and on DynamicImage::to_rgba8, whose buffer holds four
/// bytes per pixel.
#[verifier::external_body]
fn decode_rgba(bytes: &[u8]) -> (r: Result<Raster, image::ImageError>)
    ensures
        r is Ok <==> decoded_rgba(bytes@) is Some,
        r matches Ok(img) ==> img.wf() && decoded_rgba(bytes@) == Some(
            (img.width, img.height, img.rgba@),
        ),
{
    match image::load_from_memory(bytes) {
        Ok(img) => {
            let buf = img.to_rgba8();
            let (width, height) = buf.dimensions();
            Ok(Raster { width, height, rgba: buf.into_raw() })
        },
        Err(e) => Err(e),
    }
}

/// Relies on visual_hash's default hasher (gradient hash on an 8 by 8 grid):
/// HasherConfig::new, to_hasher, hash_image and ImageHash::as_bytes, the
/// image being handed over through image::RgbaImage::from_raw.
#[verifier::external_body]
fn perceptual_hash(img: &Raster) -> (r: Vec<u8>)
    requires
        img.wf(),
        img.has_pixels(),
    ensures
        r@ == fingerprint_of(img.width, img.height, img.rgba@),
        r@.len() == FINGERPRINT_BYTES,
{
    let buf = image::RgbaImage::from_raw(img.width, img.height, img.rgba.clone()).unwrap();
    let hasher = visual_hash::HasherConfig::new().to_hasher();
    hasher.hash_image(&buf).as_bytes().to_vec()
}

/// The fingerprint of the image that `b` encodes, where `b` decodes to an
/// image with at least one pixel.
pub open spec fn snapshot_fingerprint(b: Seq<u8>) -> Option<Seq<u8>> {
    match decoded_rgba(b) {
        Some((w, h, px)) => if w > 0 && h > 0 {
            Some(fingerprint_of(w, h, px))
        } else {
            None
        },
        None => None,
    }
}

/// How a stored baseline and a fresh capture compare.
#[derive(PartialEq, Eq, Structural, Clone, Copy, Debug)]
pub enum Comparison {
    /// The fingerprints are at distance zero.
    Same,
    /// The fingerprints differ in this many bits.
    Differ(u32),
    /// The baseline does not decode to an image with pixels.
    BaselineUndecodable,
    /// The capture does not decode to an image with pixels.
    CaptureUndecodable,
}

/// The verdict on two fingerprints: `Same` at distance zero, else the
/// distance.
pub open spec fn judge(expected: Seq<u8>, actual: Seq<u8>) -> Comparison {
    if hamming(actual, expected) == 0 {
        Comparison::Same
    } else {
        Comparison::Differ(hamming(actual, expected) as u32)
    }
}

/// The verdict on a baseline and a capture given as encoded bytes.
pub open spec fn comparison(expected: Seq<u8>, actual: Seq<u8>) -> Comparison {
    match snapshot_fingerprint(expected) {
        None => Comparison::BaselineUndecodable,
        Some(e) => match snapshot_fingerprint(actual) {
            None => Comparison::CaptureUndecodable,
            Some(a) => judge(e, a),
        },
    }
}

/// Compares two fingerprints: `Same` exactly when they agree in every bit.
pub fn judge_fingerprints(expected: &[u8], actual: &[u8]) -> (r: Comparison)
    requires
        actual@.len() <= u32::MAX / 8,
    ensures
        r == judge(expected@, actual@),
        expected@.len() == actual@.len() ==> (r == Comparison::Same <==> expected@ == actual@),
{
    proof {
        if expected@.len() == actual@.len() {
            lemma_distance_zero_iff_equal(actual@, expected@);
        }
    }
    let d = distance(actual, expected);
    if d == 0 {
        Comparison::Same
    } else {
        Comparison::Differ(d)
    }
}

/// Decodes `bytes` and fingerprints the image, or `None` where the bytes are
/// no image or an image without pixels.
pub fn fingerprint(bytes: &[u8]) -> (r: Option<Vec<u8>>)
    ensures
        match r {
            Some(f) => snapshot_fingerprint(bytes@) == Some(f@) && f@.len() == FINGERPRINT_BYTES,
            None => snapshot_fingerprint(bytes@) is None,
        },
{
    match decode_rgba(bytes) {
        Ok(img) => {
            if img.width > 0 && img.height > 0 {
                Some(perceptual_hash(&img))
            } else {
                None
            }
        },
        Err(_) => None,
    }
}

/// Compares a stored baseline with a fresh capture, both encoded images.
pub fn compare_snapshots(expected: &[u8], actual: &[u8]) -> (r: Comparison)
    ensures
        r == comparison(expected@, actual@),
{
    let e = match fingerprint(expected) {
        Some(e) => e,
        None => {
            return Comparison::BaselineUndecodable;
        },
    };
    let a = match fingerprint(actual) {
        Some(a) => a,
        None => {
            return Comparison::CaptureUndecodable;
        },
    };
    judge_fingerprints(e.as_slice(), a.as_slice())
}

/// Any snapshot that decodes to an image with pixels compares as the same
/// with itself: a baseline written from a capture matches that capture.
pub proof fn lemma_snapshot_matches_itself(b: Seq<u8>)
    requires
        snapshot_fingerprint(b) is Some,
    ensures
        comparison(b, b) == Comparison::Same,
{
    lemma_distance_self(snapshot_fingerprint(b).unwrap());
}

/// Two captures whose decoded pixels are equal have fingerprints at
/// distance zero, whatever bytes encode them.
pub proof fn lemma_equal_pixels_same(expected: Seq<u8>, actual: Seq<u8>)
    requires
        decoded_rgba(expected) is Some,
        decoded_rgba(expected) == decoded_rgba(actual),
        snapshot_fingerprint(expected) is Some,
    ensures
        comparison(expected, actual) == Comparison::Same,
{
    lemma_distance_self(snapshot_fingerprint(expected).unwrap());
}

/// Comparison is perceptual, not by bytes: two snapshots whose fingerprints
/// agree compare as the same, however their encodings differ.
pub proof fn lemma_equal_fingerprints_same(expected: Seq<u8>, actual: Seq<u8>)
    requires
        snapshot_fingerprint(expected) is Some,
        snapshot_fingerprint(expected) == snapshot_fingerprint(actual),
    ensures
        comparison(expected, actual) == Comparison::Same,
{
    lemma_distance_self(snapshot_fingerprint(expected).unwrap());
}

} // verus!

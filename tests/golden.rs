use std::collections::HashMap;

use egui_screenshot_testing::golden::{Assertion, Failure, Reply, Request};

const CAPTURE: &str = "actual/case.png";
const BASELINE: &str = "expected/case.png";

fn png_of(img: &image::RgbaImage) -> Vec<u8> {
    let mut out = std::io::Cursor::new(Vec::new());
    img.write_to(&mut out, image::ImageOutputFormat::Png).unwrap();
    out.into_inner()
}

fn heading_like(width: u32, height: u32, dark_columns: u32) -> Vec<u8> {
    png_of(&image::RgbaImage::from_fn(width, height, |x, _y| {
        if x < dark_columns {
            image::Rgba([30, 30, 30, 255])
        } else {
            image::Rgba([240, 240, 240, 255])
        }
    }))
}

/// Runs an assertion against an in-memory file system on which every
/// operation succeeds; returns the verdict and the requests made.
fn drive(files: &mut HashMap<String, Vec<u8>>, replace: bool, capture: Vec<u8>) -> (Result<(), Failure>, Vec<Request>) {
    let (mut assertion, mut request) = Assertion::begin(replace, capture);
    let mut seen = vec![request];
    loop {
        let reply = match request {
            Request::Report(verdict) => return (verdict, seen),
            Request::WriteCapture => {
                files.insert(CAPTURE.to_string(), assertion.capture.clone());
                Reply::Done
            }
            Request::WriteBaseline => {
                files.insert(BASELINE.to_string(), assertion.capture.clone());
                Reply::Done
            }
            Request::ReadBaseline => Reply::Loaded(files.get(BASELINE).cloned()),
            Request::RemoveCapture => {
                files.remove(CAPTURE);
                Reply::Done
            }
        };
        request = assertion.advance(reply);
        seen.push(request);
    }
}

#[test]
fn missing_baseline_fails_and_keeps_capture() {
    let mut files = HashMap::new();
    let capture = heading_like(150, 100, 20);
    let (verdict, _) = drive(&mut files, false, capture.clone());
    assert_eq!(verdict, Err(Failure::MissingBaseline));
    assert_eq!(files.get(CAPTURE), Some(&capture));
    assert!(!files.contains_key(BASELINE));
}

#[test]
fn replace_mode_creates_baseline_and_passes() {
    let mut files = HashMap::new();
    let capture = heading_like(150, 100, 20);
    let (verdict, requests) = drive(&mut files, true, capture.clone());
    assert_eq!(verdict, Ok(()));
    assert_eq!(files.get(BASELINE), Some(&capture));
    assert!(!files.contains_key(CAPTURE));
    assert_eq!(
        requests,
        vec![Request::WriteCapture, Request::WriteBaseline, Request::RemoveCapture, Request::Report(Ok(()))]
    );
}

#[test]
fn replace_then_compare_passes() {
    let mut files = HashMap::new();
    let capture = heading_like(150, 100, 20);
    assert_eq!(drive(&mut files, true, capture.clone()).0, Ok(()));
    let after_replace = files.clone();
    let (verdict, requests) = drive(&mut files, false, capture);
    assert_eq!(verdict, Ok(()));
    assert_eq!(files, after_replace);
    assert_eq!(
        requests,
        vec![Request::WriteCapture, Request::ReadBaseline, Request::RemoveCapture, Request::Report(Ok(()))]
    );
}

#[test]
fn passing_assertion_is_idempotent() {
    let capture = heading_like(150, 100, 20);
    let mut files = HashMap::new();
    files.insert(BASELINE.to_string(), capture.clone());
    assert_eq!(drive(&mut files, false, capture.clone()).0, Ok(()));
    assert!(!files.contains_key(CAPTURE));
    let after_first = files.clone();
    assert_eq!(drive(&mut files, false, capture).0, Ok(()));
    assert!(!files.contains_key(CAPTURE));
    assert_eq!(files, after_first);
}

#[test]
fn mismatch_reports_distance_and_keeps_capture() {
    let mut files = HashMap::new();
    files.insert(BASELINE.to_string(), heading_like(150, 100, 0));
    let capture = heading_like(150, 100, 75);
    let (verdict, _) = drive(&mut files, false, capture.clone());
    match verdict {
        Err(Failure::Mismatch(d)) => assert!(d > 0),
        other => panic!("expected a mismatch, got {:?}", other),
    }
    assert_eq!(files.get(CAPTURE), Some(&capture));
}

#[test]
fn undecodable_baseline_fails() {
    let mut files = HashMap::new();
    files.insert(BASELINE.to_string(), b"no image".to_vec());
    let (verdict, _) = drive(&mut files, false, heading_like(10, 10, 2));
    assert_eq!(verdict, Err(Failure::BaselineUndecodable));
}

#[test]
fn undecodable_capture_fails() {
    let mut files = HashMap::new();
    files.insert(BASELINE.to_string(), heading_like(10, 10, 2));
    let (verdict, _) = drive(&mut files, false, b"no image".to_vec());
    assert_eq!(verdict, Err(Failure::CaptureUndecodable));
}

#[test]
fn failed_write_ends_with_io_failure() {
    let (mut assertion, request) = Assertion::begin(false, vec![1, 2, 3]);
    assert_eq!(request, Request::WriteCapture);
    assert_eq!(assertion.advance(Reply::Failed), Request::Report(Err(Failure::Io)));
    assert!(assertion.is_finished());
}

#[test]
fn reply_that_does_not_fit_ends_with_io_failure() {
    let (mut assertion, _) = Assertion::begin(true, vec![1, 2, 3]);
    assert_eq!(assertion.advance(Reply::Loaded(None)), Request::Report(Err(Failure::Io)));
    let (mut other, _) = Assertion::begin(false, vec![1]);
    assert_eq!(other.advance(Reply::Done), Request::ReadBaseline);
    assert_eq!(other.advance(Reply::Done), Request::Report(Err(Failure::Io)));
}

#[test]
fn differing_bytes_with_equal_fingerprint_pass() {
    // The same picture stored without its alpha channel: other bytes, same look.
    let pixels = image::RgbaImage::from_fn(150, 100, |x, _y| {
        if x < 40 {
            image::Rgba([30, 30, 30, 255])
        } else {
            image::Rgba([240, 240, 240, 255])
        }
    });
    let rgb = image::DynamicImage::ImageRgba8(pixels.clone()).to_rgb8();
    let mut out = std::io::Cursor::new(Vec::new());
    rgb.write_to(&mut out, image::ImageOutputFormat::Png).unwrap();
    let baseline = out.into_inner();
    let capture = png_of(&pixels);
    assert_ne!(baseline, capture);
    let mut files = HashMap::new();
    files.insert(BASELINE.to_string(), baseline.clone());
    assert_eq!(drive(&mut files, false, capture).0, Ok(()));
    assert!(!files.contains_key(CAPTURE));
    assert_eq!(files.get(BASELINE), Some(&baseline));
}

//! Tests that exercise the platform-facing operations. They must pass both on
//! machines with displays and on headless ones, so they accept either a
//! successful enumeration or a clean enumeration error.

use screencap::capture::{screens_from_enumeration, CaptureConfig, CaptureError, ScreenCapture};
use screencap::raster::{Pixel, RasterImage};

#[test]
fn enumeration_failure_carries_the_platform_message() {
    let r = screens_from_enumeration(Err(String::from("compositor went away")));
    assert_eq!(
        r.unwrap_err(),
        CaptureError::DisplayEnumeration(String::from("compositor went away"))
    );
}

#[test]
fn empty_enumeration_lists_no_screens() {
    let r = screens_from_enumeration(Ok(Vec::new()));
    assert_eq!(r.unwrap().len(), 0);
}

#[test]
fn list_screens_gives_indexed_names_or_a_clean_error() {
    match ScreenCapture::list_screens() {
        Ok(screens) => {
            for (i, s) in screens.iter().enumerate() {
                assert_eq!(s.index, i);
                assert_eq!(s.name, format!("Screen {}", i));
            }
        },
        Err(e) => assert!(matches!(e, CaptureError::DisplayEnumeration(_))),
    }
}

#[test]
fn capture_without_a_display_fails_cleanly_and_keeps_state() {
    let mut state = ScreenCapture::new(CaptureConfig::default());
    match state.capture() {
        Ok(shot) => {
            // A machine with a display: the first capture reports a change.
            assert!(shot.changed);
            assert!(state.last_image.is_some());
        },
        Err(_) => {
            assert!(state.last_image.is_none());
        },
    }
}

#[test]
fn raster_round_trip_through_bytes() {
    let img = RasterImage {
        width: 2,
        height: 2,
        pixels: vec![
            Pixel { r: 1, g: 2, b: 3, a: 4 },
            Pixel { r: 5, g: 6, b: 7, a: 8 },
            Pixel { r: 9, g: 10, b: 11, a: 12 },
            Pixel { r: 13, g: 14, b: 15, a: 16 },
        ],
    };
    let bytes = img.to_rgba_bytes();
    assert_eq!(bytes, (1u8..=16).collect::<Vec<u8>>());
    let back = RasterImage::from_rgba_bytes(2, 2, &bytes).unwrap();
    assert_eq!(back.width, 2);
    assert_eq!(back.height, 2);
    assert_eq!(back.pixels, img.pixels);
}

#[test]
fn from_rgba_bytes_refuses_short_buffers_and_trims_long_ones() {
    let short = vec![0u8; 15];
    assert!(RasterImage::from_rgba_bytes(2, 2, &short).is_none());
    let long = vec![7u8; 20];
    let img = RasterImage::from_rgba_bytes(2, 2, &long).unwrap();
    assert_eq!(img.pixels.len(), 4);
}

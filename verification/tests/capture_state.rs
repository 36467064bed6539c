//! Tests for the capture orchestrator: state transitions, downscaling,
//! encoding, and the error paths that can be driven without a display.

use screencap::capture::{
    check_region, check_screen_index, CaptureConfig, CaptureError, ScreenCapture,
};
use screencap::raster::{Pixel, RasterImage};

fn solid(width: u32, height: u32, r: u8, g: u8, b: u8, a: u8) -> RasterImage {
    let count = (width as usize) * (height as usize);
    RasterImage { width, height, pixels: vec![Pixel { r, g, b, a }; count] }
}

fn default_state() -> ScreenCapture {
    ScreenCapture::new(CaptureConfig::default())
}

#[test]
fn default_config_values() {
    let c = CaptureConfig::default();
    assert_eq!(c.screen_index, 0);
    assert_eq!(c.region, None);
    assert_eq!(c.diff_threshold, 30);
    assert_eq!(c.change_threshold_centipercent, 50);
    assert_eq!(c.max_width, Some(1920));
}

#[test]
fn new_state_has_no_baseline() {
    let state = default_state();
    assert!(state.last_image.is_none());
}

#[test]
fn first_capture_is_always_changed() {
    let mut state = default_state();
    let shot = state.capture_from_raw(solid(4, 4, 0, 0, 0, 255), 7).unwrap();
    assert!(shot.changed);
    assert!(state.last_image.is_some());
}

#[test]
fn identical_capture_is_unchanged() {
    let mut state = default_state();
    state.capture_from_raw(solid(4, 4, 0, 0, 0, 255), 1).unwrap();
    let second = state.capture_from_raw(solid(4, 4, 0, 0, 0, 255), 2).unwrap();
    assert!(!second.changed);
}

#[test]
fn scenario_e_set_config_forces_changed() {
    let mut state = default_state();
    state.capture_from_raw(solid(4, 4, 0, 0, 0, 255), 1).unwrap();
    let same = state.capture_from_raw(solid(4, 4, 0, 0, 0, 255), 2).unwrap();
    assert!(!same.changed);
    state.set_config(CaptureConfig::default());
    assert!(state.last_image.is_none());
    // Pixel-identical content right after a configuration change.
    let after = state.capture_from_raw(solid(4, 4, 0, 0, 0, 255), 3).unwrap();
    assert!(after.changed);
}

#[test]
fn reset_forces_changed_and_keeps_config() {
    let mut state = default_state();
    let config_before = state.config.clone();
    state.capture_from_raw(solid(4, 4, 0, 0, 0, 255), 1).unwrap();
    state.reset();
    assert!(state.last_image.is_none());
    assert_eq!(state.config, config_before);
    let after = state.capture_from_raw(solid(4, 4, 0, 0, 0, 255), 2).unwrap();
    assert!(after.changed);
}

#[test]
fn baseline_is_replaced_on_every_successful_capture() {
    let mut state = default_state();
    state.capture_from_raw(solid(4, 4, 0, 0, 0, 255), 1).unwrap();
    let to_white = state.capture_from_raw(solid(4, 4, 255, 255, 255, 255), 2).unwrap();
    assert!(to_white.changed);
    // The baseline is now the white frame, so another white frame is unchanged.
    let white_again = state.capture_from_raw(solid(4, 4, 255, 255, 255, 255), 3).unwrap();
    assert!(!white_again.changed);
}

#[test]
fn scenario_d_wide_capture_is_downscaled_proportionally() {
    let mut state = ScreenCapture::new(CaptureConfig {
        screen_index: 0,
        region: None,
        diff_threshold: 30,
        change_threshold_centipercent: 50,
        max_width: Some(100),
    });
    let shot = state.capture_from_raw(solid(2000, 1000, 0, 0, 0, 255), 5).unwrap();
    assert_eq!(shot.width, 100);
    assert_eq!(shot.height, 50);
    // The resized image, not the original, becomes the new baseline.
    let baseline = state.last_image.as_ref().unwrap();
    assert_eq!(baseline.width, 100);
    assert_eq!(baseline.height, 50);
    assert_eq!(baseline.pixels.len(), 100 * 50);
}

#[test]
fn downscaled_black_stays_black() {
    let mut state = ScreenCapture::new(CaptureConfig {
        screen_index: 0,
        region: None,
        diff_threshold: 30,
        change_threshold_centipercent: 50,
        max_width: Some(4),
    });
    state.capture_from_raw(solid(8, 4, 0, 0, 0, 255), 1).unwrap();
    let baseline = state.last_image.as_ref().unwrap();
    assert_eq!((baseline.width, baseline.height), (4, 2));
    for p in &baseline.pixels {
        assert_eq!((p.r, p.g, p.b), (0, 0, 0));
        // Smooth resampling of a fully opaque image stays essentially opaque.
        assert!(p.a >= 250);
    }
}

#[test]
fn narrow_capture_is_not_resized() {
    let mut state = default_state();
    let shot = state.capture_from_raw(solid(640, 480, 1, 2, 3, 255), 1).unwrap();
    assert_eq!((shot.width, shot.height), (640, 480));
    let baseline = state.last_image.as_ref().unwrap();
    assert_eq!(baseline.pixels.len(), 640 * 480);
    assert_eq!(baseline.pixels[0], Pixel { r: 1, g: 2, b: 3, a: 255 });
}

#[test]
fn screenshot_data_is_base64_png() {
    let mut state = default_state();
    let shot = state.capture_from_raw(solid(4, 4, 9, 9, 9, 255), 1).unwrap();
    // Base64 of the PNG signature bytes 89 50 4E 47 0D 0A 1A 0A.
    assert!(shot.data.starts_with("iVBORw0KGgo"));
    assert!(!shot.data.is_empty());
}

#[test]
fn timestamp_is_carried_through() {
    let mut state = default_state();
    let shot = state.capture_from_raw(solid(4, 4, 0, 0, 0, 255), 123456789).unwrap();
    assert_eq!(shot.timestamp, 123456789);
}

#[test]
fn finish_capture_encoder_error_leaves_state_untouched() {
    let mut state = default_state();
    state.capture_from_raw(solid(4, 4, 0, 0, 0, 255), 1).unwrap();
    let before_len = state.last_image.as_ref().unwrap().pixels.len();
    let r = state.finish_capture(
        solid(2, 2, 1, 1, 1, 255),
        Err(String::from("encoder gave up")),
        true,
        2,
    );
    assert_eq!(r.unwrap_err(), CaptureError::Encoding(String::from("encoder gave up")));
    assert_eq!(state.last_image.as_ref().unwrap().pixels.len(), before_len);
    assert_eq!(state.last_image.as_ref().unwrap().width, 4);
}

#[test]
fn finish_capture_success_replaces_baseline() {
    let mut state = default_state();
    let r = state.finish_capture(solid(2, 2, 1, 1, 1, 255), Ok(vec![1, 2, 3]), true, 9);
    let shot = r.unwrap();
    assert_eq!((shot.width, shot.height), (2, 2));
    assert!(shot.changed);
    assert_eq!(shot.timestamp, 9);
    // Base64 of [1, 2, 3].
    assert_eq!(shot.data, "AQID");
    assert_eq!(state.last_image.as_ref().unwrap().width, 2);
}

#[test]
fn scenario_c_index_beyond_display_count_is_invalid() {
    let r = check_screen_index(5, 2);
    assert_eq!(
        r.unwrap_err(),
        CaptureError::InvalidDisplayIndex { requested: 5, available: 2 }
    );
    assert!(check_screen_index(1, 2).is_ok());
    assert!(check_screen_index(2, 2).is_err());
}

#[test]
fn zero_sized_capture_cannot_be_encoded() {
    let mut state = default_state();
    let r = state.capture_from_raw(solid(4, 0, 0, 0, 0, 255), 1);
    assert!(matches!(r, Err(CaptureError::Encoding(_))));
    assert!(state.last_image.is_none());
    let r = state.capture_from_raw(solid(0, 7, 0, 0, 0, 255), 2);
    assert!(matches!(r, Err(CaptureError::Encoding(_))));
    assert!(state.last_image.is_none());
}

#[test]
fn region_bounds_are_checked() {
    assert!(check_region((0, 0, 800, 600)).is_ok());
    assert!(check_region((-1024, -768, 1 << 30, 1 << 30)).is_ok());
    let too_wide = check_region((0, 0, (1 << 30) + 1, 600));
    assert!(matches!(too_wide, Err(CaptureError::CaptureFailed(_))));
    let origin_too_far = check_region((i32::MIN, 0, 800, 600));
    assert!(matches!(origin_too_far, Err(CaptureError::CaptureFailed(_))));
    let origin_too_high = check_region((0, i32::MAX, 800, 600));
    assert!(matches!(origin_too_high, Err(CaptureError::CaptureFailed(_))));
}

#[test]
fn has_changed_method_uses_stored_baseline_and_thresholds() {
    let mut state = default_state();
    let img = solid(4, 4, 0, 0, 0, 255);
    assert!(state.has_changed(&img));
    state.capture_from_raw(solid(4, 4, 0, 0, 0, 255), 1).unwrap();
    assert!(!state.has_changed(&img));
    assert!(state.has_changed(&solid(4, 4, 255, 255, 255, 255)));
}

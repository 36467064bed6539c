//! Tests for the change detector: sampled comparison, thresholds, edges.

use screencap::detect::{has_changed, pixels_differ};
use screencap::raster::{Pixel, RasterImage};

fn solid(width: u32, height: u32, r: u8, g: u8, b: u8, a: u8) -> RasterImage {
    let count = (width as usize) * (height as usize);
    RasterImage { width, height, pixels: vec![Pixel { r, g, b, a }; count] }
}

#[test]
fn scenario_a_identical_black_images_unchanged() {
    let prev = solid(4, 4, 0, 0, 0, 255);
    let cur = solid(4, 4, 0, 0, 0, 255);
    // diff threshold 30, change threshold 0.5 percent.
    assert!(!has_changed(Some(&prev), &cur, 30, 50));
}

#[test]
fn scenario_b_black_to_white_changed() {
    let prev = solid(4, 4, 0, 0, 0, 255);
    let cur = solid(4, 4, 255, 255, 255, 255);
    assert!(has_changed(Some(&prev), &cur, 30, 50));
}

#[test]
fn dimension_change_always_changed() {
    let prev = solid(4, 4, 0, 0, 0, 255);
    let cur = solid(2, 2, 0, 0, 0, 255);
    // Even the loosest thresholds cannot suppress a dimension change.
    assert!(has_changed(Some(&prev), &cur, 255, u32::MAX));
    let taller = solid(4, 8, 0, 0, 0, 255);
    assert!(has_changed(Some(&prev), &taller, 255, u32::MAX));
}

#[test]
fn no_baseline_always_changed() {
    let cur = solid(4, 4, 7, 7, 7, 255);
    assert!(has_changed(None, &cur, 255, u32::MAX));
}

#[test]
fn threshold_raising_cannot_add_changes() {
    // Every pixel differs by exactly 40 in the red channel.
    let prev = solid(4, 4, 100, 100, 100, 255);
    let cur = solid(4, 4, 140, 100, 100, 255);
    assert!(has_changed(Some(&prev), &cur, 30, 50));
    // 40 > 40 is false: at the higher tolerance nothing differs.
    assert!(!has_changed(Some(&prev), &cur, 40, 50));
    assert!(!has_changed(Some(&prev), &cur, 255, 50));
}

#[test]
fn change_threshold_is_inclusive() {
    // 4x4 image: samples at (0,0), (2,0), (0,2), (2,2). One differing sample
    // weighs 4 of 16 pixels: exactly 25 percent.
    let prev = solid(4, 4, 0, 0, 0, 255);
    let mut cur = solid(4, 4, 0, 0, 0, 255);
    cur.pixels[0] = Pixel { r: 255, g: 255, b: 255, a: 255 };
    assert!(has_changed(Some(&prev), &cur, 30, 2500));
    assert!(!has_changed(Some(&prev), &cur, 30, 2501));
}

#[test]
fn unsampled_pixels_are_not_compared() {
    // (1,1) has odd row and column: the stride-2 walk never visits it.
    let prev = solid(4, 4, 0, 0, 0, 255);
    let mut cur = solid(4, 4, 0, 0, 0, 255);
    cur.pixels[4 + 1] = Pixel { r: 255, g: 255, b: 255, a: 255 };
    assert!(!has_changed(Some(&prev), &cur, 30, 1));
}

#[test]
fn alpha_differences_are_ignored() {
    let prev = solid(4, 4, 10, 20, 30, 255);
    let cur = solid(4, 4, 10, 20, 30, 0);
    assert!(!has_changed(Some(&prev), &cur, 0, 1));
}

#[test]
fn zero_tolerance_detects_single_step() {
    let prev = solid(4, 4, 10, 20, 30, 255);
    let cur = solid(4, 4, 10, 21, 30, 255);
    assert!(has_changed(Some(&prev), &cur, 0, 50));
    // The comparison is strict: a difference equal to the tolerance does not count.
    assert!(!has_changed(Some(&prev), &cur, 1, 50));
}

#[test]
fn empty_image_never_changes_against_equal_shape() {
    let prev = solid(0, 0, 0, 0, 0, 0);
    let cur = solid(0, 0, 0, 0, 0, 0);
    assert!(!has_changed(Some(&prev), &cur, 0, 0));
}

#[test]
fn zero_change_threshold_counts_identical_as_changed() {
    // With the threshold at zero percent, zero differing pixels still reach it.
    let prev = solid(4, 4, 5, 5, 5, 255);
    let cur = solid(4, 4, 5, 5, 5, 255);
    assert!(has_changed(Some(&prev), &cur, 30, 0));
}

#[test]
fn pixels_differ_is_strict_and_per_channel() {
    let a = Pixel { r: 100, g: 100, b: 100, a: 255 };
    let just_at = Pixel { r: 130, g: 100, b: 100, a: 255 };
    let just_over = Pixel { r: 131, g: 100, b: 100, a: 255 };
    let green_over = Pixel { r: 100, g: 131, b: 100, a: 255 };
    let blue_over = Pixel { r: 100, g: 100, b: 69, a: 255 };
    let alpha_only = Pixel { r: 100, g: 100, b: 100, a: 0 };
    assert!(!pixels_differ(a, just_at, 30));
    assert!(pixels_differ(a, just_over, 30));
    assert!(pixels_differ(a, green_over, 30));
    assert!(pixels_differ(a, blue_over, 30));
    assert!(!pixels_differ(a, alpha_only, 30));
}

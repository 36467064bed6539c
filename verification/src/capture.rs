//! The capture orchestrator: the capture configuration, the capture state
//! with its baseline image, and the operations that turn a capture request
//! into a screenshot record.

use vstd::prelude::*;
use vstd::string::StringExecFns;

use crate::detect;
use crate::detect::has_changed_spec;
use crate::platform;
use crate::platform::{base64_of, decimal_of, png_encoding, triangle_resize};
use crate::raster::{bytes_of, pixels_of, ImageModel, RasterImage};

verus! {

/// Configuration for screen capture.
#[derive(Debug, Clone, Copy, PartialEq)]
pub struct CaptureConfig {
    /// Which display to capture; 0 selects the first discovered display.
    pub screen_index: usize,
    /// Optional region to capture: origin x, y and width, height in source
    /// pixels. Absent means the full screen.
    pub region: Option<(i32, i32, u32, u32)>,
    /// Per-channel tolerance beyond which two pixels count as different.
    pub diff_threshold: u8,
    /// Minimum share of pixels that must differ to count as "changed", in
    /// hundredths of a percent (50 stands for 0.5 percent).
    pub change_threshold_centipercent: u32,
    /// Maximum width of the output image; wider captures are downscaled.
    pub max_width: Option<u32>,
}

impl CaptureConfig {
    /// The default configuration: first display, full screen, tolerance 30,
    /// change threshold at half a percent, output at most 1920 wide.
    pub open spec fn default_spec() -> CaptureConfig {
        CaptureConfig {
            screen_index: 0,
            region: None,
            diff_threshold: 30,
            change_threshold_centipercent: 50,
            max_width: Some(1920u32),
        }
    }
}

impl Default for CaptureConfig {
    fn default() -> (c: CaptureConfig)
        ensures
            c == CaptureConfig::default_spec(),
    {
        CaptureConfig {
            screen_index: 0,
            region: None,
            diff_threshold: 30,
            change_threshold_centipercent: 50,
            max_width: Some(1920),
        }
    }
}

/// A captured screenshot with its metadata; immutable once produced.
#[derive(Debug, Clone)]
pub struct Screenshot {
    /// Base64-encoded PNG image data.
    pub data: String,
    /// Width in pixels.
    pub width: u32,
    /// Height in pixels.
    pub height: u32,
    /// When the capture was taken, in milliseconds since the Unix epoch.
    pub timestamp: u64,
    /// Whether this screenshot differs from the previous one.
    pub changed: bool,
}

/// Information about one attached display.
#[derive(Debug, Clone)]
pub struct ScreenInfo {
    pub index: usize,
    pub name: String,
    pub x: i32,
    pub y: i32,
    pub width: u32,
    pub height: u32,
    pub is_primary: bool,
}

/// Why a capture operation failed; every cause is kept distinct.
#[derive(Debug, Clone, PartialEq, Eq)]
pub enum CaptureError {
    /// The platform could not enumerate the displays.
    DisplayEnumeration(String),
    /// The configured screen index exceeds the attached displays.
    InvalidDisplayIndex { requested: usize, available: usize },
    /// The platform capture call failed, or the capture cannot be processed.
    CaptureFailed(String),
    /// The captured image could not be encoded.
    Encoding(String),
}

/// The name the display listing gives index `i`: "Screen " and the decimal
/// index.
pub open spec fn screen_label(i: int) -> Seq<char> {
    seq!['S', 'c', 'r', 'e', 'e', 'n', ' '] + decimal_of(i)
}

/// Whether the configuration downscales an acquired image: a width cap is set
/// and the image is wider. An image without rows is left alone.
pub open spec fn needs_resize(cfg: CaptureConfig, raw: ImageModel) -> bool {
    match cfg.max_width {
        Option::None => false,
        Option::Some(mw) => raw.width > mw && raw.height > 0,
    }
}

/// The width of the processed image: the cap when downscaling (never below
/// one column), the raw width otherwise.
pub open spec fn target_width(cfg: CaptureConfig, raw: ImageModel) -> int {
    if needs_resize(cfg, raw) {
        let mw = cfg.max_width->0 as int;
        if mw >= 1 {
            mw
        } else {
            1
        }
    } else {
        raw.width
    }
}

/// The height of the processed image: the raw height scaled in proportion to
/// the width cap and rounded to the nearest row (never below one row), the
/// raw height otherwise.
pub open spec fn target_height(cfg: CaptureConfig, raw: ImageModel) -> int {
    if needs_resize(cfg, raw) {
        let mw = cfg.max_width->0 as int;
        let th = (raw.height * mw + raw.width / 2) / raw.width;
        if th >= 1 {
            th
        } else {
            1
        }
    } else {
        raw.height
    }
}

/// Whether the downscaling step fits in memory: the resampler's intermediate
/// buffer (16 bytes per pixel, source width by target height) and its output
/// buffer must have representable sizes.
pub open spec fn resize_fits(cfg: CaptureConfig, raw: ImageModel) -> bool {
    &&& 16 * (raw.width * target_height(cfg, raw)) <= usize::MAX
    &&& 4 * (target_width(cfg, raw) * target_height(cfg, raw)) <= usize::MAX
}

/// The processed form of an acquired image: smoothly downscaled to the width
/// cap when the configuration asks for it, unchanged otherwise.
pub open spec fn processed_model(cfg: CaptureConfig, raw: ImageModel) -> ImageModel {
    if needs_resize(cfg, raw) {
        ImageModel {
            width: target_width(cfg, raw),
            height: target_height(cfg, raw),
            pixels: pixels_of(
                triangle_resize(
                    bytes_of(raw.pixels),
                    raw.width,
                    raw.height,
                    target_width(cfg, raw),
                    target_height(cfg, raw),
                ),
            ),
        }
    } else {
        raw
    }
}

/// Whether the base64 encoding of a byte sequence has a representable length.
pub open spec fn base64_fits(b: Seq<u8>) -> bool {
    4 * ((b.len() + 2) / 3) <= usize::MAX
}

/// Whether a requested capture region stays within the bounds the platform's
/// 32-bit region arithmetic tolerates: every coordinate and extent has a
/// magnitude of at most 2^30.
pub open spec fn region_within_limits(region: (i32, i32, u32, u32)) -> bool {
    &&& -0x4000_0000 <= region.0 <= 0x4000_0000
    &&& -0x4000_0000 <= region.1 <= 0x4000_0000
    &&& region.2 <= 0x4000_0000
    &&& region.3 <= 0x4000_0000
}

/// Whether processing an acquired image succeeds: the downscaling step fits
/// in memory, the processed image has at least one column and one row (the
/// PNG encoder rejects a zero dimension), and the length of the base64 text
/// of its PNG encoding is representable.
pub open spec fn processing_succeeds(cfg: CaptureConfig, raw: ImageModel) -> bool {
    let processed = processed_model(cfg, raw);
    &&& !(needs_resize(cfg, raw) && !resize_fits(cfg, raw))
    &&& processed.width >= 1
    &&& processed.height >= 1
    &&& base64_fits(png_encoding(bytes_of(processed.pixels), processed.width, processed.height))
}

/// What a successful capture guarantees, for the state before (`pre`) and
/// after (`post`), the acquired image `raw`, the wall-clock reading `ts` and
/// the returned screenshot `s`: the configuration is kept; the baseline
/// becomes the processed image; the screenshot carries the processed
/// dimensions, the verdict of the change detector against the old baseline,
/// the timestamp, and the base64 text of the PNG encoding of the processed
/// image.
pub open spec fn capture_success(
    pre: ScreenCapture,
    post: ScreenCapture,
    raw: ImageModel,
    ts: u64,
    s: Screenshot,
) -> bool {
    let processed = processed_model(pre.config, raw);
    &&& post.config == pre.config
    &&& post.baseline_model() == Some(processed)
    &&& s.width == processed.width
    &&& s.height == processed.height
    &&& s.changed == has_changed_spec(
        pre.baseline_model(),
        processed,
        pre.config.diff_threshold,
        pre.config.change_threshold_centipercent,
    )
    &&& s.timestamp == ts
    &&& s.data@ == base64_of(png_encoding(bytes_of(processed.pixels), processed.width, processed.height))
}

/// A successful capture on a state without a baseline — a fresh state, or
/// the state right after a reset or a configuration change — is always
/// reported as changed.
pub proof fn lemma_first_capture_changed(
    pre: ScreenCapture,
    post: ScreenCapture,
    raw: ImageModel,
    ts: u64,
    s: Screenshot,
)
    requires
        pre.last_image is None,
        capture_success(pre, post, raw, ts, s),
    ensures
        s.changed,
{
}

/// A successful capture whose processed image is identical to the baseline is
/// reported as unchanged whenever the change threshold is positive.
pub proof fn lemma_identical_capture_unchanged(
    pre: ScreenCapture,
    post: ScreenCapture,
    raw: ImageModel,
    ts: u64,
    s: Screenshot,
)
    requires
        pre.baseline_model() == Some(processed_model(pre.config, raw)),
        pre.config.change_threshold_centipercent > 0,
        capture_success(pre, post, raw, ts, s),
    ensures
        !s.changed,
{
    detect::lemma_identical_image_unchanged(
        processed_model(pre.config, raw),
        processed_model(pre.config, raw),
        pre.config.diff_threshold,
        pre.config.change_threshold_centipercent,
    );
}

/// Checks a requested display index against the number of attached displays.
pub fn check_screen_index(requested: usize, available: usize) -> (r: Result<(), CaptureError>)
    ensures
        r is Ok <==> requested < available,
        r matches Err(e) ==> e == (CaptureError::InvalidDisplayIndex { requested, available }),
{
    if requested < available {
        Ok(())
    } else {
        Err(CaptureError::InvalidDisplayIndex { requested, available })
    }
}

/// Checks a requested capture region against the bounds the platform's
/// region arithmetic tolerates.
pub fn check_region(region: (i32, i32, u32, u32)) -> (r: Result<(), CaptureError>)
    ensures
        r is Ok <==> region_within_limits(region),
        r is Err ==> r matches Err(CaptureError::CaptureFailed(_)),
{
    let (x, y, w, h) = region;
    if x < -0x4000_0000 || x > 0x4000_0000 || y < -0x4000_0000 || y > 0x4000_0000 || w
        > 0x4000_0000 || h > 0x4000_0000 {
        Err(CaptureError::CaptureFailed(String::from_str("capture region is out of range")))
    } else {
        Ok(())
    }
}

/// Downscales an acquired image to the configured width cap, proportionally
/// and with smooth resampling; an image no wider than the cap is returned
/// unchanged.
fn downscale(cfg: CaptureConfig, raw: RasterImage) -> (r: Result<RasterImage, CaptureError>)
    requires
        raw.wf(),
    ensures
        r matches Ok(img) ==> img@ == processed_model(cfg, raw@) && img.wf(),
        r is Err <==> needs_resize(cfg, raw@) && !resize_fits(cfg, raw@),
        r is Err ==> r matches Err(CaptureError::CaptureFailed(_)),
{
    let mw = match cfg.max_width {
        Option::None => {
            return Ok(raw);
        },
        Option::Some(mw) => mw,
    };
    if !(raw.width > mw && raw.height > 0) {
        return Ok(raw);
    }
    let w = raw.width;
    let h = raw.height;
    let tw: u32 = if mw >= 1 {
        mw
    } else {
        1
    };
    proof {
        assert((h as int) * (mw as int) + (w as int) / 2 <= u64::MAX) by (nonlinear_arith)
            requires
                h <= u32::MAX,
                mw <= u32::MAX,
                w <= u32::MAX,
        ;
    }
    let th64: u64 = ((h as u64) * (mw as u64) + (w as u64) / 2) / (w as u64);
    proof {
        assert(((h as int) * (mw as int) + (w as int) / 2) / (w as int) <= h as int)
            by (nonlinear_arith)
            requires
                0 <= h,
                0 <= mw,
                mw < w,
        ;
    }
    let th: u32 = if th64 >= 1 {
        th64 as u32
    } else {
        1
    };
    proof {
        assert(tw as int == target_width(cfg, raw@));
        assert(th as int == target_height(cfg, raw@));
        assert((w as int) * (th as int) <= u64::MAX) by (nonlinear_arith)
            requires
                w <= u32::MAX,
                th <= u32::MAX,
        ;
        assert((tw as int) * (th as int) <= u64::MAX) by (nonlinear_arith)
            requires
                tw <= u32::MAX,
                th <= u32::MAX,
        ;
    }
    if 16u128 * ((w as u128) * (th as u128)) > (usize::MAX as u128) || 4u128 * ((tw as u128) * (th
        as u128)) > (usize::MAX as u128) {
        return Err(CaptureError::CaptureFailed(String::from_str(
            "captured image is too large to downscale",
        )));
    }
    let bytes = raw.to_rgba_bytes();
    proof {
        assert(bytes@.len() == 4 * ((w as int) * (h as int)));
    }
    let out = platform::resize_rgba(&bytes, w, h, tw, th);
    let img = match RasterImage::from_rgba_bytes(tw, th, &out) {
        Option::Some(img) => img,
        // The buffer has exactly the bytes the grid needs, so this cannot fail.
        Option::None => unreached(),
    };
    proof {
        let full = 4 * ((tw as int) * (th as int));
        assert(out@.take(full) =~= out@);
        assert(img@.pixels == processed_model(cfg, raw@).pixels);
        assert(img@ == processed_model(cfg, raw@));
    }
    Ok(img)
}

/// Builds the display listing for an enumerated vector of screens: one entry
/// per screen, entry `i` carrying index `i`, the name "Screen i", and the
/// bounds the platform reports for screen `i`.
pub fn build_screen_infos(screens: &Vec<screenshots::Screen>) -> (r: Vec<ScreenInfo>)
    ensures
        r@.len() == screens@.len(),
        forall|i: int|
            0 <= i < r@.len() ==> (#[trigger] r@[i]).index == i && r@[i].name@ == screen_label(i),
{
    let n = screens.len();
    let mut out: Vec<ScreenInfo> = Vec::new();
    let mut i: usize = 0;
    while i < n
        invariant
            i <= n,
            n == screens@.len(),
            out@.len() == i,
            forall|j: int|
                0 <= j < i ==> (#[trigger] out@[j]).index == j && out@[j].name@ == screen_label(j),
        decreases n - i,
    {
        let (x, y, width, height, is_primary) = platform::screen_bounds(&screens[i]);
        let mut name = String::from_str("Screen ");
        let digits = platform::decimal_string(i);
        name.append(digits.as_str());
        proof {
            reveal_strlit("Screen ");
            assert(name@ =~= screen_label(i as int));
        }
        out.push(ScreenInfo { index: i, name, x, y, width, height, is_primary });
        i += 1;
    }
    out
}

/// Turns the outcome of a display enumeration into the listing: every
/// enumerated display gives exactly one entry, in discovery order, and an
/// enumeration failure becomes the enumeration error carrying the platform's
/// message.
pub fn screens_from_enumeration(enumeration: Result<Vec<screenshots::Screen>, String>) -> (r:
    Result<Vec<ScreenInfo>, CaptureError>)
    ensures
        enumeration matches Ok(s) ==> r matches Ok(v) && v@.len() == s@.len() && forall|i: int|
            0 <= i < v@.len() ==> (#[trigger] v@[i]).index == i && v@[i].name@ == screen_label(i),
        enumeration matches Err(m) ==> r == Err::<Vec<ScreenInfo>, CaptureError>(
            CaptureError::DisplayEnumeration(m),
        ),
{
    match enumeration {
        Ok(screens) => Ok(build_screen_infos(&screens)),
        Err(msg) => Err(CaptureError::DisplayEnumeration(msg)),
    }
}

/// Screen capture state: the current configuration and the baseline image the
/// next capture is compared against.
pub struct ScreenCapture {
    pub config: CaptureConfig,
    pub last_image: Option<RasterImage>,
}

impl ScreenCapture {
    /// The baseline, when present, is a well-formed image.
    pub open spec fn wf(self) -> bool {
        self.last_image matches Some(img) ==> img.wf()
    }

    /// The model of the baseline.
    pub open spec fn baseline_model(self) -> Option<ImageModel> {
        match self.last_image {
            Option::None => Option::None,
            Option::Some(img) => Option::Some(img@),
        }
    }

    /// A fresh capture state: the given configuration and no baseline, so the
    /// first capture is reported as changed.
    pub fn new(config: CaptureConfig) -> (r: ScreenCapture)
        ensures
            r.config == config,
            r.last_image is None,
            r.wf(),
    {
        ScreenCapture { config, last_image: None }
    }

    /// Lists the attached displays in discovery order, enumerating them
    /// fresh: one entry per enumerated display, entry `i` carrying index `i`
    /// and the name "Screen i", with origin, size and primary flag from the
    /// platform. The first entry is not necessarily the primary display; an
    /// enumeration failure is reported with the platform's message.
    pub fn list_screens() -> (r: Result<Vec<ScreenInfo>, CaptureError>)
        ensures
            r matches Ok(v) ==> forall|i: int|
                0 <= i < v@.len() ==> (#[trigger] v@[i]).index == i && v@[i].name@ == screen_label(
                    i,
                ),
            r is Err ==> r matches Err(CaptureError::DisplayEnumeration(_)),
    {
        screens_from_enumeration(platform::screen_all())
    }

    /// Whether `current` differs from the stored baseline, under the stored
    /// thresholds.
    pub fn has_changed(&self, current: &RasterImage) -> (r: bool)
        requires
            self.wf(),
            current.wf(),
        ensures
            r == has_changed_spec(
                self.baseline_model(),
                current@,
                self.config.diff_threshold,
                self.config.change_threshold_centipercent,
            ),
    {
        detect::has_changed(
            self.last_image.as_ref(),
            current,
            self.config.diff_threshold,
            self.config.change_threshold_centipercent,
        )
    }

    /// Finishes a capture from the encoder's outcome: on PNG bytes it encodes
    /// them as base64, replaces the baseline with the processed image and
    /// returns the screenshot; on an encoder error it leaves the state
    /// untouched and reports the failure. It succeeds exactly when the
    /// encoder succeeded and the encoding has a representable length.
    pub fn finish_capture(
        &mut self,
        img: RasterImage,
        png: Result<Vec<u8>, String>,
        changed: bool,
        timestamp: u64,
    ) -> (r: Result<Screenshot, CaptureError>)
        requires
            old(self).wf(),
            img.wf(),
        ensures
            final(self).wf(),
            r is Ok <==> (png matches Ok(b) && base64_fits(b@)),
            r matches Ok(s) ==> {
                &&& final(self).config == old(self).config
                &&& final(self).last_image == Some(img)
                &&& s.width == img.width
                &&& s.height == img.height
                &&& s.changed == changed
                &&& s.timestamp == timestamp
                &&& png matches Ok(b) && s.data@ == base64_of(b@)
            },
            r is Err ==> *final(self) == *old(self) && r matches Err(CaptureError::Encoding(_)),
            png matches Err(m) ==> r == Err::<Screenshot, CaptureError>(CaptureError::Encoding(m)),
    {
        let png_bytes = match png {
            Ok(b) => b,
            Err(m) => {
                return Err(CaptureError::Encoding(m));
            },
        };
        let q: u128 = ((png_bytes.len() as u128) + 2) / 3;
        if 4 * q > (usize::MAX as u128) {
            return Err(CaptureError::Encoding(String::from_str(
                "encoded image is too large for transport encoding",
            )));
        }
        let data = platform::base64_encode(&png_bytes);
        let width = img.width;
        let height = img.height;
        self.last_image = Some(img);
        Ok(Screenshot { data, width, height, timestamp, changed })
    }

    /// Turns an acquired raw image into a screenshot: downscales it to the
    /// width cap, compares it against the baseline, encodes it, and replaces
    /// the baseline — the verdict reflects the comparison made before the
    /// replacement, and a failed encode leaves the baseline untouched. It
    /// succeeds exactly when processing the image succeeds: the downscale
    /// fits in memory, the processed image is not zero-sized, and the
    /// encoded text has a representable length.
    pub fn capture_from_raw(&mut self, raw: RasterImage, timestamp: u64) -> (r: Result<
        Screenshot,
        CaptureError,
    >)
        requires
            old(self).wf(),
            raw.wf(),
        ensures
            final(self).wf(),
            final(self).config == old(self).config,
            r is Ok <==> processing_succeeds(old(self).config, raw@),
            r matches Ok(s) ==> capture_success(*old(self), *final(self), raw@, timestamp, s),
            r matches Ok(s) ==> (old(self).last_image is None ==> s.changed),
            r is Err ==> *final(self) == *old(self),
            r matches Err(e) ==> (e matches CaptureError::CaptureFailed(_) || e matches CaptureError::Encoding(_)),
            r matches Err(CaptureError::CaptureFailed(_)) <==> needs_resize(old(self).config, raw@)
                && !resize_fits(old(self).config, raw@),
    {
        let cfg = self.config;
        let img = match downscale(cfg, raw) {
            Ok(img) => img,
            Err(e) => {
                return Err(e);
            },
        };
        let changed = detect::has_changed(
            self.last_image.as_ref(),
            &img,
            cfg.diff_threshold,
            cfg.change_threshold_centipercent,
        );
        let bytes = img.to_rgba_bytes();
        let png = platform::encode_png(&bytes, img.width, img.height);
        self.finish_capture(img, png, changed, timestamp)
    }

    /// Captures a screenshot: enumerates the displays, selects the configured
    /// one, grabs the full screen or the configured region — a region beyond
    /// the bounds the platform's arithmetic tolerates is refused as a failed
    /// capture — and hands the acquired image to the processing pipeline. A
    /// failed capture leaves the state exactly as it was; the first capture
    /// after a fresh state, a reset or a configuration change is always
    /// reported as changed.
    pub fn capture(&mut self) -> (r: Result<Screenshot, CaptureError>)
        requires
            old(self).wf(),
        ensures
            final(self).wf(),
            final(self).config == old(self).config,
            r is Err ==> *final(self) == *old(self),
            r matches Ok(s) ==> exists|raw: ImageModel, ts: u64|
                #[trigger] capture_success(*old(self), *final(self), raw, ts, s),
            r matches Ok(s) ==> (old(self).last_image is None ==> s.changed),
            r matches Err(CaptureError::InvalidDisplayIndex { requested, available }) ==> requested
                == old(self).config.screen_index && requested >= available,
    {
        let screens = match platform::screen_all() {
            Ok(s) => s,
            Err(m) => {
                return Err(CaptureError::DisplayEnumeration(m));
            },
        };
        let n = screens.len();
        match check_screen_index(self.config.screen_index, n) {
            Ok(()) => (),
            Err(e) => {
                return Err(e);
            },
        }
        let screen = &screens[self.config.screen_index];
        let acquired = match self.config.region {
            Option::Some((x, y, rw, rh)) => {
                match check_region((x, y, rw, rh)) {
                    Ok(()) => (),
                    Err(e) => {
                        return Err(e);
                    },
                }
                platform::capture_region(screen, x, y, rw, rh)
            },
            Option::None => platform::capture_full(screen),
        };
        let (w, h, buf) = match acquired {
            Ok(t) => t,
            Err(m) => {
                return Err(CaptureError::CaptureFailed(m));
            },
        };
        let raw = match RasterImage::from_rgba_bytes(w, h, &buf) {
            Option::Some(img) => img,
            // The platform hands over at least the bytes the grid needs.
            Option::None => unreached(),
        };
        let ghost rawm = raw@;
        let ts = platform::now_unix_millis();
        let r = self.capture_from_raw(raw, ts);
        proof {
            if r is Ok {
                assert(capture_success(*old(self), *self, rawm, ts, r->Ok_0));
            }
        }
        r
    }

    /// Replaces the configuration and discards the baseline: the next capture
    /// is unconditionally reported as changed.
    pub fn set_config(&mut self, config: CaptureConfig)
        ensures
            final(self).config == config,
            final(self).last_image is None,
            final(self).wf(),
    {
        self.config = config;
        self.last_image = None;
    }

    /// Discards the baseline only, leaving the configuration untouched: the
    /// next capture is unconditionally reported as changed.
    pub fn reset(&mut self)
        ensures
            final(self).config == old(self).config,
            final(self).last_image is None,
            final(self).wf(),
    {
        self.last_image = None;
    }
}

} // verus!

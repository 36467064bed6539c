//! Trusted interfaces to the outside crates the library leans on: the
//! platform screen grab (screenshots), smooth resampling and PNG encoding
//! (image), base64 transport encoding (base64), and std's wall clock and
//! decimal formatting. Verus believes the contracts stated here without
//! reading the bodies; each doc comment names what is relied on.

use vstd::prelude::*;

verus! {

/// The platform's handle for one attached display, from the screenshots crate.
#[verifier::external_type_specification]
#[verifier::external_body]
pub struct ExScreen(screenshots::Screen);

/// Relies on screenshots::Screen::all: lists the attached displays in
/// discovery order. What comes back depends on the machine, so nothing is
/// promised of the outcome.
#[verifier::external_body]
pub(crate) fn screen_all() -> (r: Result<Vec<screenshots::Screen>, String>) {
    match screenshots::Screen::all() {
        Ok(v) => Ok(v),
        Err(e) => Err(format!("{}", e)),
    }
}

/// Relies on the public `display_info` field of screenshots::Screen (a
/// display-info crate value): the display's origin, size and primary flag,
/// in that order. The values describe the machine's displays, so nothing is
/// promised of them.
#[verifier::external_body]
pub(crate) fn screen_bounds(s: &screenshots::Screen) -> (r: (i32, i32, u32, u32, bool)) {
    let d = s.display_info;
    (d.x, d.y, d.width, d.height, d.is_primary)
}

/// Relies on screenshots::Screen::capture: grabs the display's pixels as an
/// RGBA image whose reported dimensions come with a pixel buffer of at least
/// width * height * 4 bytes (the image crate refuses to build a smaller
/// buffer). The pixel values depend on what is on the screen.
#[verifier::external_body]
pub(crate) fn capture_full(s: &screenshots::Screen) -> (r: Result<(u32, u32, Vec<u8>), String>)
    ensures
        r matches Ok(t) ==> t.2@.len() >= 4 * ((t.0 as int) * (t.1 as int)),
{
    match s.capture() {
        Ok(img) => {
            let (w, h) = (img.width(), img.height());
            Ok((w, h, img.into_raw()))
        },
        Err(e) => Err(format!("{}", e)),
    }
}

/// Relies on screenshots::Screen::capture_area: grabs a sub-rectangle of the
/// display, clamped to its bounds, as an RGBA image; the reported dimensions
/// come with a pixel buffer of at least width * height * 4 bytes. The pixel
/// values depend on what is on the screen. The call adds the region's origin
/// to the display's origin and the extent to that sum in unchecked 32-bit
/// arithmetic, so magnitudes are bounded here to keep that arithmetic from
/// overflowing.
#[verifier::external_body]
pub(crate) fn capture_region(
    s: &screenshots::Screen,
    x: i32,
    y: i32,
    width: u32,
    height: u32,
) -> (r: Result<(u32, u32, Vec<u8>), String>)
    requires
        -0x4000_0000 <= x <= 0x4000_0000,
        -0x4000_0000 <= y <= 0x4000_0000,
        width <= 0x4000_0000,
        height <= 0x4000_0000,
    ensures
        r matches Ok(t) ==> t.2@.len() >= 4 * ((t.0 as int) * (t.1 as int)),
{
    match s.capture_area(x, y, width, height) {
        Ok(img) => {
            let (w, h) = (img.width(), img.height());
            Ok((w, h, img.into_raw()))
        },
        Err(e) => Err(format!("{}", e)),
    }
}

/// The pixel bytes that the image crate's Triangle-filter resampling returns
/// for a given RGBA buffer and target size. The result is a function of the
/// arguments alone; it is named here, not written out.
pub uninterp spec fn triangle_resize(bytes: Seq<u8>, w: int, h: int, nw: int, nh: int) -> Seq<u8>;

/// Relies on image::imageops::resize with FilterType::Triangle: returns the
/// smoothly resampled image at exactly the requested dimensions, as an RGBA
/// buffer of exactly new_width * new_height * 4 bytes. The resampler builds
/// an intermediate floating-point image of the source width and the target
/// height, so buffers whose allocation size would overflow are excluded.
#[verifier::external_body]
pub(crate) fn resize_rgba(bytes: &Vec<u8>, w: u32, h: u32, nw: u32, nh: u32) -> (r: Vec<u8>)
    requires
        bytes@.len() == 4 * ((w as int) * (h as int)),
        w >= 1,
        h >= 1,
        nw >= 1,
        nh >= 1,
        16 * ((w as int) * (nh as int)) <= usize::MAX,
        4 * ((nw as int) * (nh as int)) <= usize::MAX,
    ensures
        r@ == triangle_resize(bytes@, w as int, h as int, nw as int, nh as int),
        r@.len() == 4 * ((nw as int) * (nh as int)),
{
    let buf = image::RgbaImage::from_raw(w, h, bytes.clone()).unwrap();
    let out = image::imageops::resize(&buf, nw, nh, image::imageops::FilterType::Triangle);
    out.into_raw()
}

/// The PNG encoding that the image crate produces for a given RGBA buffer.
/// Deterministic in its arguments; named here, not written out.
pub uninterp spec fn png_encoding(bytes: Seq<u8>, w: int, h: int) -> Seq<u8>;

/// Relies on image::ImageBuffer::write_to with ImageFormat::Png: encodes the
/// RGBA buffer as PNG bytes, deterministically. It succeeds exactly for
/// images with at least one column and one row: the encoder rejects a zero
/// dimension, takes any other RGBA buffer of the exact length, and, writing
/// into memory, cannot fail on output.
#[verifier::external_body]
pub(crate) fn encode_png(bytes: &Vec<u8>, w: u32, h: u32) -> (r: Result<Vec<u8>, String>)
    requires
        bytes@.len() == 4 * ((w as int) * (h as int)),
    ensures
        (r is Ok) <==> (w >= 1 && h >= 1),
        r matches Ok(b) ==> b@ == png_encoding(bytes@, w as int, h as int),
{
    let buf = image::RgbaImage::from_raw(w, h, bytes.clone()).unwrap();
    let mut cursor = std::io::Cursor::new(Vec::new());
    match buf.write_to(&mut cursor, image::ImageFormat::Png) {
        Ok(()) => Ok(cursor.into_inner()),
        Err(e) => Err(format!("{}", e)),
    }
}

/// The text of the standard base64 encoding of a byte sequence. Deterministic
/// in its argument; named here, not written out.
pub uninterp spec fn base64_of(bytes: Seq<u8>) -> Seq<char>;

/// Relies on base64's STANDARD engine (the RFC 4648 alphabet, padded): encodes
/// the bytes as text of exactly 4 * ceil(len / 3) characters. The engine
/// panics when that length overflows usize, so such inputs are excluded.
#[verifier::external_body]
pub(crate) fn base64_encode(bytes: &Vec<u8>) -> (r: String)
    requires
        4 * ((bytes@.len() + 2) / 3) <= usize::MAX,
    ensures
        r@ == base64_of(bytes@),
        r@.len() == 4 * ((bytes@.len() + 2) / 3),
{
    base64::Engine::encode(&base64::engine::general_purpose::STANDARD, bytes)
}

/// Relies on std::time::SystemTime::now: the wall clock as milliseconds since
/// the Unix epoch, truncated to 64 bits, or 0 when the clock reads earlier
/// than the epoch. The value depends on the clock, so nothing is promised of
/// it.
#[verifier::external_body]
pub(crate) fn now_unix_millis() -> u64 {
    match std::time::SystemTime::now().duration_since(std::time::UNIX_EPOCH) {
        Ok(d) => d.as_millis() as u64,
        Err(_) => 0,
    }
}

/// The decimal digit character for a value of 0 through 9.
pub open spec fn decimal_digit(d: int) -> char {
    seq!['0', '1', '2', '3', '4', '5', '6', '7', '8', '9'][d]
}

/// The decimal digits of a non-negative number, most significant first.
pub open spec fn decimal_of(n: int) -> Seq<char>
    decreases n,
{
    if n < 10 {
        seq![decimal_digit(n)]
    } else {
        decimal_of(n / 10).push(decimal_digit(n % 10))
    }
}

/// Relies on std's Display for usize: the decimal digits of the value, most
/// significant first, with no sign and no separators.
#[verifier::external_body]
pub(crate) fn decimal_string(n: usize) -> (r: String)
    ensures
        r@ == decimal_of(n as int),
{
    format!("{}", n)
}

} // verus!

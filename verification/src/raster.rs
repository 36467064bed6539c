//! Raster images: a rectangular grid of RGBA pixels whose stated dimensions
//! match the pixel buffer exactly.

use vstd::prelude::*;

verus! {

/// One pixel: red, green, blue and alpha byte channels.
#[derive(Clone, Copy, Debug, PartialEq, Eq, Structural)]
pub struct Pixel {
    pub r: u8,
    pub g: u8,
    pub b: u8,
    pub a: u8,
}

/// The mathematical model of a raster image: its dimensions and the pixel
/// grid, stored row by row from the top.
pub ghost struct ImageModel {
    pub width: int,
    pub height: int,
    pub pixels: Seq<Pixel>,
}

impl ImageModel {
    /// The pixel grid matches the stated dimensions exactly.
    pub open spec fn wf(self) -> bool {
        &&& 0 <= self.width
        &&& 0 <= self.height
        &&& self.pixels.len() == self.width * self.height
    }

    /// The pixel in column `x` of row `y`.
    pub open spec fn pixel_at(self, x: int, y: int) -> Pixel {
        self.pixels[y * self.width + x]
    }
}

/// A raster image as executable code holds it.
pub struct RasterImage {
    pub width: u32,
    pub height: u32,
    pub pixels: Vec<Pixel>,
}

impl View for RasterImage {
    type V = ImageModel;

    open spec fn view(&self) -> ImageModel {
        ImageModel {
            width: self.width as int,
            height: self.height as int,
            pixels: self.pixels@,
        }
    }
}

/// The byte a pixel holds in channel `c`, in interleaved RGBA order.
pub open spec fn channel(p: Pixel, c: int) -> u8 {
    if c == 0 {
        p.r
    } else if c == 1 {
        p.g
    } else if c == 2 {
        p.b
    } else {
        p.a
    }
}

/// The interleaved RGBA bytes of a pixel sequence.
pub open spec fn bytes_of(pixels: Seq<Pixel>) -> Seq<u8> {
    Seq::new(4 * pixels.len(), |i: int| channel(pixels[i / 4], i % 4))
}

/// The pixel sequence read from interleaved RGBA bytes.
pub open spec fn pixels_of(bytes: Seq<u8>) -> Seq<Pixel> {
    Seq::new(
        bytes.len() / 4,
        |i: int| Pixel { r: bytes[4 * i], g: bytes[4 * i + 1], b: bytes[4 * i + 2], a: bytes[4 * i + 3] },
    )
}

impl RasterImage {
    /// The pixel grid matches the stated dimensions exactly.
    pub open spec fn wf(self) -> bool {
        self@.wf()
    }

    /// Builds an image of the given dimensions from interleaved RGBA bytes,
    /// as a platform capture hands them over. A buffer longer than the grid
    /// needs is cut to size; a shorter one is refused.
    pub fn from_rgba_bytes(width: u32, height: u32, bytes: &Vec<u8>) -> (r: Option<RasterImage>)
        ensures
            r is Some <==> 4 * ((width as int) * (height as int)) <= bytes@.len(),
            r matches Some(img) ==> {
                &&& img.width == width
                &&& img.height == height
                &&& img@.pixels == pixels_of(bytes@.take(4 * ((width as int) * (height as int))))
                &&& img.wf()
            },
    {
        proof {
            assert((width as int) * (height as int) <= u64::MAX) by (nonlinear_arith)
                requires width <= u32::MAX, height <= u32::MAX;
        }
        let need: u64 = (width as u64) * (height as u64);
        let blen: usize = bytes.len();
        let len: u64 = blen as u64;
        if need > len / 4 {
            proof {
                // 4 * need <= len would give need <= len / 4.
                assert(4 * ((width as int) * (height as int)) <= bytes@.len() ==> (width as int)
                    * (height as int) <= bytes@.len() as int / 4) by (nonlinear_arith);
            }
            return None;
        }
        proof {
            assert(4 * (need as int) <= len as int) by (nonlinear_arith)
                requires need as int <= len as int / 4;
        }
        let count: usize = need as usize;
        let mut pixels: Vec<Pixel> = Vec::new();
        let mut i: usize = 0;
        while i < count
            invariant
                i <= count,
                count == (width as int) * (height as int),
                4 * (count as int) <= bytes@.len(),
                bytes@.len() <= usize::MAX,
                pixels@.len() == i,
                forall|j: int|
                    0 <= j < i ==> pixels@[j] == (Pixel {
                        r: bytes@[4 * j],
                        g: bytes@[4 * j + 1],
                        b: bytes@[4 * j + 2],
                        a: bytes@[4 * j + 3],
                    }),
            decreases count - i,
        {
            proof {
                assert(4 * (i as int) + 3 < bytes@.len()) by (nonlinear_arith)
                    requires i < count, 4 * (count as int) <= bytes@.len();
            }
            let p = Pixel {
                r: bytes[4 * i],
                g: bytes[4 * i + 1],
                b: bytes[4 * i + 2],
                a: bytes[4 * i + 3],
            };
            pixels.push(p);
            i += 1;
        }
        let img = RasterImage { width, height, pixels };
        proof {
            let taken = bytes@.take(4 * ((width as int) * (height as int)));
            assert(img@.pixels =~= pixels_of(taken));
            assert(img.wf());
        }
        Some(img)
    }

    /// The image as interleaved RGBA bytes, as the encoders take them.
    pub fn to_rgba_bytes(&self) -> (r: Vec<u8>)
        ensures
            r@ == bytes_of(self@.pixels),
    {
        let mut out: Vec<u8> = Vec::new();
        let n: usize = self.pixels.len();
        let mut i: usize = 0;
        while i < n
            invariant
                i <= n,
                n == self.pixels@.len(),
                out@.len() == 4 * i,
                forall|j: int|
                    0 <= j < 4 * i ==> out@[j] == channel(self.pixels@[j / 4], j % 4),
            decreases n - i,
        {
            let p = self.pixels[i];
            out.push(p.r);
            out.push(p.g);
            out.push(p.b);
            out.push(p.a);
            i += 1;
        }
        proof {
            assert(out@ =~= bytes_of(self@.pixels));
        }
        out
    }
}

} // verus!

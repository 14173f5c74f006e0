use vstd::prelude::*;

verus! {

/// Bytes per texel of an environment texture (red, green, blue).
pub const TEXEL_BYTES: usize = 3;

/// An environment image, stored row by row from the top, three bytes a texel.
#[derive(Clone, Debug)]
pub struct Texture {
    pub pixels: Vec<u8>,
    pub width: usize,
    pub height: usize,
    pub channels: usize,
}

/// Offset of the first byte of texel `(x, y)` in an image `width` texels wide.
pub open spec fn texel_offset(x: int, y: int, width: int) -> int {
    (y * width + x) * TEXEL_BYTES
}

/// Column or row `i` moved into `0..n`: the last one where `i` lies past it.
pub open spec fn clamp_index(i: int, n: int) -> int {
    if i < n {
        i
    } else {
        n - 1
    }
}

impl Texture {
    /// At least one texel, and enough bytes for every texel.
    pub open spec fn wf(&self) -> bool {
        &&& self.width >= 1
        &&& self.height >= 1
        &&& self.width * self.height * TEXEL_BYTES <= self.pixels@.len()
    }

    /// The three bytes of texel `(x, y)`, after clamping it into the image.
    pub open spec fn texel_at(&self, x: int, y: int) -> Seq<u8> {
        let o = texel_offset(clamp_index(x, self.width as int), clamp_index(y, self.height as int), self.width as int);
        seq![self.pixels@[o], self.pixels@[o + 1], self.pixels@[o + 2]]
    }

    /// A texture over `pixels`, or none when it would hold no texel or the
    /// bytes do not cover `width * height` texels.
    pub fn new(pixels: Vec<u8>, width: usize, height: usize, channels: usize) -> (r: Option<Texture>)
        ensures
            r is Some <==> (width >= 1 && height >= 1 && width * height * TEXEL_BYTES <= pixels@.len()),
            r is Some ==> r.unwrap().wf() && r.unwrap().pixels == pixels && r.unwrap().width == width
                && r.unwrap().height == height && r.unwrap().channels == channels,
    {
        let available = pixels.len();
        if width == 0 || height == 0 {
            return None;
        }
        let texels = width.checked_mul(height);
        match texels {
            None => {
                proof {
                    assert(width * height * TEXEL_BYTES >= width * height) by (nonlinear_arith)
                        requires width >= 1, height >= 1;
                }
                None
            }
            Some(n) => {
                match n.checked_mul(TEXEL_BYTES) {
                    None => None,
                    Some(len) => {
                        if len <= available {
                            Some(Texture { pixels, width, height, channels })
                        } else {
                            None
                        }
                    }
                }
            }
        }
    }

    /// The texel at column `x` and row `y`, counted from the top left; a
    /// coordinate past the image's edge reads the last column or row.
    pub fn texel(&self, x: usize, y: usize) -> (r: [u8; 3])
        requires
            self.wf(),
        ensures
            r@ == self.texel_at(x as int, y as int),
    {
        let cx = if x < self.width { x } else { self.width - 1 };
        let cy = if y < self.height { y } else { self.height - 1 };
        let available = self.pixels.len();
        proof {
            let w = self.width as int;
            let h = self.height as int;
            assert((cy as int) * w + (cx as int) < h * w) by (nonlinear_arith)
                requires 0 <= cx < w, 0 <= cy < h;
            assert(((cy as int) * w + (cx as int)) * 3 + 2 < h * w * 3) by (nonlinear_arith)
                requires (cy as int) * w + (cx as int) < h * w;
            assert(h * w == w * h) by (nonlinear_arith);
            assert((cy as int) * w <= (cy as int) * w + (cx as int));
            assert(((cy as int) * w + (cx as int)) * 3 <= ((cy as int) * w + (cx as int)) * 3 + 2);
        }
        let o = (cy * self.width + cx) * TEXEL_BYTES;
        let r = [self.pixels[o], self.pixels[o + 1], self.pixels[o + 2]];
        assert(r@ =~= self.texel_at(x as int, y as int));
        r
    }
}

/// The background seen by rays that hit nothing: a vertical gradient, or
/// an environment texture when one is given.
#[derive(Clone, Debug)]
pub struct Sky {
    pub texture: Option<Texture>,
}

impl Sky {
    /// A sky with the plain gradient and no texture.
    pub fn new_default_sky() -> (r: Sky)
        ensures
            r.texture is None,
    {
        Sky { texture: None }
    }

    /// A sky that shows `texture`.
    pub fn new_textured(texture: Texture) -> (r: Sky)
        ensures
            r.texture == Some(texture),
    {
        Sky { texture: Some(texture) }
    }
}

} // verus!

use std::sync::Arc;
use vstd::prelude::*;

use crate::color::Color;

verus! {

/// The decoder's error, handed on to the caller as it came.
#[verifier::external_type_specification]
#[verifier::external_body]
pub struct ExImageError(image::ImageError);

/// What decoding an encoded picture gives: its width, its height and its
/// samples as rows of 8-bit red, green and blue; `None` where the bytes are no
/// picture that the decoder reads.
pub uninterp spec fn rgb8_decoding(bytes: Seq<u8>) -> Option<(u32, u32, Seq<u8>)>;

/// Relies on `image::load_from_memory`, which guesses the format from the
/// content and decodes it, and on `DynamicImage::to_rgb8`, `ImageBuffer::dimensions`
/// and `ImageBuffer::into_raw`, which bring the picture to 8-bit RGB rows and hand
/// out its size and samples. The outcome depends on the bytes alone.
#[verifier::external_body]
fn decode_rgb8(bytes: &[u8]) -> (r: Result<(u32, u32, Vec<u8>), image::ImageError>)
    ensures
        match r {
            Ok((w, h, raw)) => rgb8_decoding(bytes@) == Some((w, h, raw@)),
            Err(_) => rgb8_decoding(bytes@) is None,
        },
{
    let picture = image::load_from_memory(bytes)?.to_rgb8();
    let (w, h) = picture.dimensions();
    Ok((w, h, picture.into_raw()))
}

/// Why a texture could not be built.
#[derive(Debug)]
pub enum TextureError {
    /// The bytes are no picture that the decoder reads.
    Decode(image::ImageError),
    /// The samples do not fill a grid of the given size, three bytes a texel.
    SizeMismatch,
}

/// Fixed-point unit of texture coordinates: `UV_ONE` stands for 1.0, so that
/// `0..=UV_ONE` spans a texture from one edge to the other.
pub const UV_ONE: u32 = 0x10000;

/// The texels that rows of 8-bit RGB samples describe, three bytes each.
pub open spec fn rgb_texels(raw: Seq<u8>) -> Seq<Color> {
    Seq::new(raw.len() / 3, |i: int| Color { r: raw[3 * i], g: raw[3 * i + 1], b: raw[3 * i + 2] })
}

/// The texel column (or row) that a fixed-point coordinate `q` falls on in a grid
/// of `size` texels: `q / UV_ONE` scaled to the last index, rounded down and
/// clamped to the grid.
pub open spec fn uv_to_texel(q: int, size: int) -> int {
    let scaled = q * (size - 1) / (UV_ONE as int);
    if scaled < size - 1 {
        scaled
    } else {
        size - 1
    }
}

/// What a texture holds: `width` by `height` texels, row after row.
pub struct TexelGrid {
    pub width: nat,
    pub height: nat,
    pub texels: Seq<Color>,
}

impl TexelGrid {
    /// The texel in column `x` of row `y`.
    pub open spec fn texel(self, x: int, y: int) -> Color {
        self.texels[y * self.width + x]
    }
}

/// A grid of colours, `width` texels a row, rows stored one after the other;
/// the stored texels always fill the grid exactly.
#[derive(Debug)]
pub struct Texture {
    data: Arc<Vec<Color>>,
    width: usize,
    height: usize,
}

impl View for Texture {
    type V = TexelGrid;

    closed spec fn view(&self) -> TexelGrid {
        TexelGrid { width: self.width as nat, height: self.height as nat, texels: self.data@ }
    }
}

impl Clone for Texture {
    /// Another handle on the same texels.
    fn clone(&self) -> (t: Texture)
        ensures
            t@ == self@,
    {
        proof {
            use_type_invariant(self);
        }
        Texture { data: Arc::clone(&self.data), width: self.width, height: self.height }
    }
}

impl Texture {
    #[verifier::type_invariant]
    spec fn fills_grid(&self) -> bool {
        self.data@.len() == self.width * self.height
    }

    /// Texels a row.
    pub fn width(&self) -> (w: usize)
        ensures
            w == self@.width,
    {
        self.width
    }

    /// Rows.
    pub fn height(&self) -> (h: usize)
        ensures
            h == self@.height,
    {
        self.height
    }

    /// A texture of `width` by `height` texels from rows of 8-bit RGB samples.
    /// It fails exactly when the samples are not three bytes for each texel.
    pub fn from_rgb8(width: u32, height: u32, raw: &[u8]) -> (r: Result<Texture, TextureError>)
        ensures
            r is Ok <==> raw@.len() == 3 * width * height,
            r is Ok ==> r->Ok_0@ == (TexelGrid { width: width as nat, height: height as nat, texels: rgb_texels(raw@) }),
            r is Err ==> r == Err::<Texture, TextureError>(TextureError::SizeMismatch),
    {
        let len = raw.len();
        proof {
            assert(3 * (width as int) * (height as int) <= 3 * 0xffff_ffff * 0xffff_ffff) by (nonlinear_arith)
                requires
                    width <= 0xffff_ffff,
                    height <= 0xffff_ffff,
            ;
        }
        if len as u128 != 3 * (width as u128) * (height as u128) {
            return Err(TextureError::SizeMismatch);
        }
        let n: usize = len / 3;
        let mut data: Vec<Color> = Vec::with_capacity(n);
        let mut i: usize = 0;
        while i < n
            invariant
                len == raw@.len(),
                n == len / 3,
                i <= n,
                data@ == rgb_texels(raw@).take(i as int),
            decreases n - i,
        {
            let c = Color { r: raw[3 * i], g: raw[3 * i + 1], b: raw[3 * i + 2] };
            data.push(c);
            i = i + 1;
            assert(data@ =~= rgb_texels(raw@).take(i as int));
        }
        assert(data@ =~= rgb_texels(raw@));
        let w = width as usize;
        let h = height as usize;
        assert(n == w * h) by (nonlinear_arith)
            requires
                n == len / 3,
                len == 3 * w * h,
        ;
        Ok(Texture { data: Arc::new(data), width: w, height: h })
    }

    /// A texture decoded from the bytes of an encoded picture (PNG, JPEG, GIF,
    /// WebP), its format told by its content.
    pub fn decode(bytes: &[u8]) -> (r: Result<Texture, TextureError>)
        ensures
            match rgb8_decoding(bytes@) {
                None => r matches Err(TextureError::Decode(_)),
                Some((w, h, raw)) => {
                    &&& r is Ok <==> raw.len() == 3 * w * h
                    &&& r is Ok ==> r->Ok_0@ == (TexelGrid { width: w as nat, height: h as nat, texels: rgb_texels(raw) })
                    &&& r is Err ==> r == Err::<Texture, TextureError>(TextureError::SizeMismatch)
                },
            },
    {
        match decode_rgb8(bytes) {
            Ok((w, h, raw)) => Texture::from_rgb8(w, h, raw.as_slice()),
            Err(e) => Err(TextureError::Decode(e)),
        }
    }

    /// The texel in column `x` of row `y`.
    pub fn get_color(&self, x: usize, y: usize) -> (c: Color)
        requires
            x < self@.width,
            y < self@.height,
        ensures
            c == self@.texel(x as int, y as int),
    {
        proof {
            use_type_invariant(self);
        }
        let w = self.width;
        let len = self.data.len();
        proof {
            assert(y * w <= y * w + x < self.width * self.height) by (nonlinear_arith)
                requires
                    x < w,
                    y < self.height,
                    w == self.width,
            ;
        }
        self.data[y * w + x]
    }

    /// The texel at fixed-point coordinates `(u, v)`, each scaled to the last
    /// column or row and clamped to the grid; `None` for an empty texture.
    pub fn sample(&self, u: u32, v: u32) -> (c: Option<Color>)
        ensures
            c is None <==> self@.width == 0 || self@.height == 0,
            c is Some ==> c->Some_0 == self@.texel(
                uv_to_texel(u as int, self@.width as int),
                uv_to_texel(v as int, self@.height as int),
            ),
    {
        if self.width == 0 || self.height == 0 {
            return None;
        }
        let x = texel_index(u, self.width);
        let y = texel_index(v, self.height);
        Some(self.get_color(x, y))
    }
}

fn texel_index(q: u32, size: usize) -> (i: usize)
    requires
        size > 0,
    ensures
        i == uv_to_texel(q as int, size as int),
        i < size,
{
    let last = size - 1;
    proof {
        assert(0 <= q * last <= 0xffff_ffff * 0xffff_ffff_ffff_ffff) by (nonlinear_arith)
            requires
                0 <= q <= 0xffff_ffff,
                0 <= last <= 0xffff_ffff_ffff_ffff,
        ;
        assert((q * last) / (UV_ONE as int) >= 0) by (nonlinear_arith)
            requires
                q * last >= 0,
        ;
    }
    let scaled: u128 = (q as u128) * (last as u128) / (UV_ONE as u128);
    if scaled < last as u128 {
        scaled as usize
    } else {
        last
    }
}

} // verus!

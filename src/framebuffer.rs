use vstd::prelude::*;

use crate::color::{spec_to_hex, Color};

verus! {

/// What a frame buffer holds: `width` by `height` packed 0xRRGGBB pixels, row
/// after row from the top, the background colour that clearing fills with and
/// the current colour that plotting uses.
pub struct FrameView {
    pub width: nat,
    pub height: nat,
    pub pixels: Seq<u32>,
    pub background: u32,
    pub current: u32,
}

impl FrameView {
    /// Index in `pixels` of column `x` of row `y`.
    pub open spec fn index_of(self, x: int, y: int) -> int {
        y * self.width + x
    }

    /// Same size and colours as `other`, whatever the pixels.
    pub open spec fn same_setup(self, other: FrameView) -> bool {
        &&& self.width == other.width
        &&& self.height == other.height
        &&& self.background == other.background
        &&& self.current == other.current
    }
}

/// A grid of packed 0xRRGGBB pixels with a background colour for clearing and a
/// current colour for plotting; the buffer always holds exactly one pixel for
/// each cell of the grid.
#[derive(Debug)]
pub struct Framebuffer {
    width: usize,
    height: usize,
    buffer: Vec<u32>,
    background_color: u32,
    current_color: u32,
}

impl View for Framebuffer {
    type V = FrameView;

    closed spec fn view(&self) -> FrameView {
        FrameView {
            width: self.width as nat,
            height: self.height as nat,
            pixels: self.buffer@,
            background: self.background_color,
            current: self.current_color,
        }
    }
}

impl Framebuffer {
    #[verifier::type_invariant]
    spec fn fills_grid(&self) -> bool {
        self.buffer@.len() == self.width * self.height
    }

    /// A black frame of `width` by `height` pixels, with a black background and
    /// white as current colour.
    pub fn new(width: usize, height: usize) -> (fb: Framebuffer)
        requires
            width * height <= usize::MAX,
        ensures
            fb@.width == width,
            fb@.height == height,
            fb@.pixels == Seq::new((width * height) as nat, |i: int| 0u32),
            fb@.background == 0,
            fb@.current == 0xffffff,
    {
        let n = width * height;
        let mut buffer: Vec<u32> = Vec::with_capacity(n);
        let mut i: usize = 0;
        while i < n
            invariant
                i <= n,
                buffer@ == Seq::new(i as nat, |j: int| 0u32),
            decreases n - i,
        {
            buffer.push(0);
            i = i + 1;
            assert(buffer@ =~= Seq::new(i as nat, |j: int| 0u32));
        }
        Framebuffer { width, height, buffer, background_color: 0, current_color: 0xffffff }
    }

    /// Pixels a row.
    pub fn get_width(&self) -> (w: usize)
        ensures
            w == self@.width,
    {
        self.width
    }

    /// Rows.
    pub fn get_height(&self) -> (h: usize)
        ensures
            h == self@.height,
    {
        self.height
    }

    /// The pixels, row after row from the top.
    pub fn get_buffer(&self) -> (b: &Vec<u32>)
        ensures
            b@ == self@.pixels,
            b@.len() == self@.width * self@.height,
    {
        proof {
            use_type_invariant(self);
        }
        &self.buffer
    }

    /// Fills every pixel with the background colour.
    pub fn clear(&mut self)
        ensures
            final(self)@.same_setup(old(self)@),
            final(self)@.pixels == Seq::new(old(self)@.pixels.len(), |i: int| old(self)@.background),
    {
        proof {
            use_type_invariant(&*self);
        }
        let n = self.buffer.len();
        let bg = self.background_color;
        let mut buffer = Vec::with_capacity(n);
        let mut i: usize = 0;
        while i < n
            invariant
                i <= n,
                buffer@ == Seq::new(i as nat, |j: int| bg),
            decreases n - i,
        {
            buffer.push(bg);
            i = i + 1;
            assert(buffer@ =~= Seq::new(i as nat, |j: int| bg));
        }
        self.buffer = buffer;
    }

    /// Sets the colour that `clear` fills with.
    pub fn set_background_color(&mut self, color: Color)
        ensures
            final(self)@ == (FrameView { background: spec_to_hex(color), ..old(self)@ }),
    {
        proof {
            use_type_invariant(&*self);
        }
        self.background_color = color.to_hex();
    }

    /// Sets the colour that `point` plots with.
    pub fn set_current_color(&mut self, color: Color)
        ensures
            final(self)@ == (FrameView { current: spec_to_hex(color), ..old(self)@ }),
    {
        proof {
            use_type_invariant(&*self);
        }
        self.current_color = color.to_hex();
    }

    /// Plots the current colour at column `x` of row `y`; a point outside the
    /// frame changes nothing.
    pub fn point(&mut self, x: usize, y: usize)
        ensures
            final(self)@.same_setup(old(self)@),
            final(self)@.pixels == (if x < old(self)@.width && y < old(self)@.height {
                old(self)@.pixels.update(old(self)@.index_of(x as int, y as int), old(self)@.current)
            } else {
                old(self)@.pixels
            }),
        no_unwind
    {
        proof {
            use_type_invariant(&*self);
        }
        if x < self.width && y < self.height {
            let w = self.width;
            let len = self.buffer.len();
            proof {
                assert(y * w <= y * w + x < self.width * self.height) by (nonlinear_arith)
                    requires
                        x < w,
                        y < self.height,
                        w == self.width,
                ;
            }
            let c = self.current_color;
            self.buffer[y * w + x] = c;
        }
    }

    /// Writes a rendered frame: `pixels` holds, for each pixel in buffer order,
    /// the colour of the nearest surface that its primary ray met, or `None`
    /// where the ray met nothing. A hit is always nearer than the empty depth
    /// of a fresh depth buffer, so every hit is written, and a pixel without one
    /// keeps what the frame held (its cleared background).
    pub fn commit_pixels(&mut self, pixels: &Vec<Option<Color>>)
        requires
            pixels@.len() == old(self)@.width * old(self)@.height,
        ensures
            final(self)@.same_setup(old(self)@),
            final(self)@.pixels.len() == pixels@.len(),
            forall|i: int| #![trigger final(self)@.pixels[i]] 0 <= i < pixels@.len() ==>
                final(self)@.pixels[i] == match pixels@[i] {
                    Some(c) => spec_to_hex(c),
                    None => old(self)@.pixels[i],
                },
        no_unwind
    {
        proof {
            use_type_invariant(&*self);
        }
        let n = pixels.len();
        let mut i: usize = 0;
        while i < n
            invariant
                i <= n,
                n == pixels@.len(),
                n == self.buffer@.len(),
                n == self.width * self.height,
                self.width == old(self).width,
                self.height == old(self).height,
                self.background_color == old(self).background_color,
                self.current_color == old(self).current_color,
                forall|j: int| #![trigger self.buffer@[j]] 0 <= j < n ==>
                    self.buffer@[j] == if j < i {
                        match pixels@[j] {
                            Some(c) => spec_to_hex(c),
                            None => old(self).buffer@[j],
                        }
                    } else {
                        old(self).buffer@[j]
                    },
            decreases n - i,
        {
            if let Some(c) = pixels[i] {
                self.buffer[i] = c.to_hex();
            }
            i = i + 1;
        }
    }
}

} // verus!

use vstd::prelude::*;

verus! {

/// The largest value of a color channel.
pub const CHANNEL_MAX: u8 = 255;

/// Sum of two channels, held at the largest channel value instead of wrapping.
pub open spec fn saturating_channel_sum(x: u8, y: u8) -> u8 {
    if x + y > 255 {
        255
    } else {
        (x + y) as u8
    }
}

/// An integer brought into the channel range `[0, 255]`.
pub open spec fn clamp_channel(v: int) -> u8 {
    if v < 0 {
        0
    } else if v > 255 {
        255
    } else {
        v as u8
    }
}

/// The four channels of a color, in the order red, green, blue, alpha.
pub open spec fn channels(c: RGBA) -> Seq<u8> {
    seq![c.r, c.g, c.b, c.a]
}

/// A color of four 8-bit channels: red, green, blue and alpha.
#[derive(Debug, Clone, Copy, PartialEq, Eq, Structural)]
pub struct RGBA {
    pub r: u8,
    pub g: u8,
    pub b: u8,
    pub a: u8,
}

fn to_channel(v: i64) -> (c: u8)
    ensures
        c == clamp_channel(v as int),
{
    if v < 0 {
        0
    } else if v > CHANNEL_MAX as i64 {
        CHANNEL_MAX
    } else {
        v as u8
    }
}

impl RGBA {
    /// A color from its four channels.
    pub fn new(r: u8, g: u8, b: u8, a: u8) -> (c: Self)
        ensures
            c == (RGBA { r, g, b, a }),
    {
        RGBA { r, g, b, a }
    }

    /// The channels as an array: red, green, blue, alpha.
    pub fn unpack(self) -> (out: [u8; 4])
        ensures
            out@ == channels(self),
    {
        let out = [self.r, self.g, self.b, self.a];
        assert(out@ =~= channels(self));
        out
    }

    /// A color whose red, green and blue channels are the given integers
    /// clamped into `[0, 255]`; the alpha channel is taken as it is.
    ///
    /// This is the integer half of scaling a color by a factor: the scaled
    /// channels, truncated toward zero, come in here and are clamped, so that
    /// a channel never wraps.
    pub fn clamped(r: i64, g: i64, b: i64, a: u8) -> (c: Self)
        ensures
            c == (RGBA {
                r: clamp_channel(r as int),
                g: clamp_channel(g as int),
                b: clamp_channel(b as int),
                a,
            }),
    {
        RGBA { r: to_channel(r), g: to_channel(g), b: to_channel(b), a }
    }
}

impl vstd::std_specs::ops::AddSpecImpl for RGBA {
    open spec fn obeys_add_spec() -> bool {
        true
    }

    open spec fn add_req(self, rhs: RGBA) -> bool {
        true
    }

    open spec fn add_spec(self, rhs: RGBA) -> RGBA {
        RGBA {
            r: saturating_channel_sum(self.r, rhs.r),
            g: saturating_channel_sum(self.g, rhs.g),
            b: saturating_channel_sum(self.b, rhs.b),
            a: saturating_channel_sum(self.a, rhs.a),
        }
    }
}

impl core::ops::Add for RGBA {
    type Output = RGBA;

    /// Channel-wise saturating sum of two colors.
    fn add(self, rhs: RGBA) -> (c: RGBA) {
        RGBA::new(
            self.r.saturating_add(rhs.r),
            self.g.saturating_add(rhs.g),
            self.b.saturating_add(rhs.b),
            self.a.saturating_add(rhs.a),
        )
    }
}

/// The bytes of a sequence of colors, four per color in the order of
/// `channels`, the colors one after another.
pub open spec fn flatten(s: Seq<RGBA>) -> Seq<u8>
    decreases s.len(),
{
    if s.len() == 0 {
        Seq::empty()
    } else {
        flatten(s.drop_last()) + channels(s.last())
    }
}

/// The bytes of `s` hold four per color, and the four of the `i`th color
/// are its channels.
pub proof fn lemma_flatten(s: Seq<RGBA>)
    ensures
        flatten(s).len() == 4 * s.len(),
        forall|i: int|
            0 <= i < s.len() ==> #[trigger] flatten(s).subrange(4 * i, 4 * i + 4) == channels(
                s[i],
            ),
    decreases s.len(),
{
    if s.len() > 0 {
        let p = s.drop_last();
        lemma_flatten(p);
        assert forall|i: int| 0 <= i < s.len() implies #[trigger] flatten(s).subrange(
            4 * i,
            4 * i + 4,
        ) == channels(s[i]) by {
            if i < p.len() {
                assert(flatten(s).subrange(4 * i, 4 * i + 4) =~= flatten(p).subrange(
                    4 * i,
                    4 * i + 4,
                ));
            } else {
                assert(flatten(s).subrange(4 * i, 4 * i + 4) =~= channels(s.last()));
            }
        }
    }
}

/// A viewport: a rectangle of the scene at some depth in front of the camera.
#[derive(Debug, Clone, Copy, PartialEq, Eq, Structural)]
pub struct Viewport {
    pub depth: usize,
    pub height: usize,
    pub width: usize,
}

impl Viewport {
    /// A viewport of the given sizes at the given depth.
    pub fn new(width: usize, height: usize, depth: usize) -> (v: Self)
        ensures
            v == (Viewport { depth, height, width }),
    {
        Viewport { width, height, depth }
    }
}

/// A pixel buffer of `width` by `height` colors, stored row by row from the
/// top row, and addressed by coordinates centered on the middle of the buffer.
#[derive(Debug, Clone)]
pub struct Canvas {
    pub height: usize,
    pub h_max: isize,
    pub pixels: Vec<RGBA>,
    pub viewport: Viewport,
    pub width: usize,
    pub w_max: isize,
}

impl Canvas {
    /// The half sizes agree with the sizes, and the buffer holds one color
    /// per pixel.
    pub open spec fn wf(&self) -> bool {
        &&& self.w_max == self.width / 2
        &&& self.h_max == self.height / 2
        &&& self.width * self.height <= isize::MAX
        &&& self.pixels@.len() == self.width * self.height
    }

    /// Centered coordinates that have a place in the buffer: `x` from
    /// `-w_max` up to but not including `w_max`, `y` above `-h_max` up to
    /// and including `h_max`.
    pub open spec fn in_bounds(&self, x: int, y: int) -> bool {
        -self.w_max <= x < self.w_max && -self.h_max < y <= self.h_max
    }

    /// The place of centered coordinates in the buffer: row `h_max - y`
    /// from the top, column `x + w_max` from the left, rows `2 * w_max` long.
    pub open spec fn flat_index(&self, x: int, y: int) -> int {
        (self.h_max - y) * (2 * self.w_max) + (x + self.w_max)
    }

    /// A black, fully transparent canvas onto a unit viewport.
    pub fn new(width: usize, height: usize) -> (c: Self)
        requires
            width * height <= isize::MAX,
        ensures
            c.wf(),
            c.width == width,
            c.height == height,
            c.viewport == (Viewport { depth: 1, height: 1, width: 1 }),
            forall|i: int| 0 <= i < c.pixels@.len() ==> c.pixels@[i] == (RGBA { r: 0, g: 0, b: 0, a: 0 }),
    {
        Canvas {
            height,
            h_max: (height / 2) as isize,
            width,
            w_max: (width / 2) as isize,
            pixels: vec![RGBA::new(0, 0, 0, 0); width * height],
            viewport: Viewport::new(1, 1, 1),
        }
    }

    proof fn lemma_flat_index_in_buffer(&self, x: int, y: int)
        requires
            self.wf(),
            self.in_bounds(x, y),
        ensures
            0 <= self.flat_index(x, y) < self.pixels@.len(),
            0 <= self.h_max - y <= isize::MAX,
            self.flat_index(x, y) == (self.h_max - y) * self.w_max * 2 + (x + self.w_max),
            0 <= (self.h_max - y) * self.w_max <= (self.h_max - y) * self.w_max * 2 <= isize::MAX,
    {
        let row = self.h_max - y;
        let col = x + self.w_max;
        let w2 = 2 * self.w_max;
        let h2 = 2 * self.h_max;
        let wh = self.width * self.height;
        assert(0 <= row < h2);
        assert(0 <= col < w2);
        assert(w2 <= self.width && h2 <= self.height);
        assert(row * w2 + col < w2 * h2) by (nonlinear_arith)
            requires
                0 <= row < h2,
                0 <= col < w2,
        ;
        assert(w2 * h2 <= wh) by (nonlinear_arith)
            requires
                0 <= w2 <= self.width,
                0 <= h2 <= self.height,
                wh == self.width * self.height,
        ;
        assert(0 <= row * self.w_max) by (nonlinear_arith)
            requires
                0 <= row,
                0 <= self.w_max,
        ;
        assert(row * self.w_max * 2 == row * w2) by (nonlinear_arith)
            requires
                w2 == 2 * self.w_max,
        ;
        assert(self.height <= wh) by (nonlinear_arith)
            requires
                1 <= self.width,
                wh == self.width * self.height,
        ;
    }

    /// Whether centered coordinates `(x, y)` have a place in the buffer.
    pub fn contains(&self, x: isize, y: isize) -> (r: bool)
        requires
            self.wf(),
        ensures
            r == self.in_bounds(x as int, y as int),
    {
        -self.w_max <= x && x < self.w_max && -self.h_max < y && y <= self.h_max
    }

    /// The place in `pixels` of the pixel at centered coordinates `(x, y)`.
    pub fn get_pixel_flat_index(&self, x: isize, y: isize) -> (index: usize)
        requires
            self.wf(),
            self.in_bounds(x as int, y as int),
        ensures
            index == self.flat_index(x as int, y as int),
            index < self.pixels@.len(),
    {
        proof {
            self.lemma_flat_index_in_buffer(x as int, y as int);
        }
        // from centered coordinates to coordinates from the top left corner
        let x_index = x + self.w_max;
        let y_index = self.h_max - y;
        // from the top left corner to the place in the buffer
        let index: usize = ((y_index * self.w_max * 2) + x_index) as usize;
        index
    }

    /// Writes a color at centered coordinates `(x, y)`.
    pub fn set_pixel(&mut self, x: isize, y: isize, red: u8, green: u8, blue: u8, alpha: u8)
        requires
            old(self).wf(),
            old(self).in_bounds(x as int, y as int),
        ensures
            final(self).pixels@ == old(self).pixels@.update(
                old(self).flat_index(x as int, y as int),
                RGBA { r: red, g: green, b: blue, a: alpha },
            ),
            final(self).width == old(self).width,
            final(self).height == old(self).height,
            final(self).w_max == old(self).w_max,
            final(self).h_max == old(self).h_max,
            final(self).viewport == old(self).viewport,
            final(self).wf(),
    {
        let index = self.get_pixel_flat_index(x, y);
        self.pixels.set(index, RGBA::new(red, green, blue, alpha));
    }

    /// Writes `rgba` at centered coordinates `(x, y)`.
    pub fn set_pixel_from_rgba(&mut self, x: isize, y: isize, rgba: &RGBA)
        requires
            old(self).wf(),
            old(self).in_bounds(x as int, y as int),
        ensures
            final(self).pixels@ == old(self).pixels@.update(
                old(self).flat_index(x as int, y as int),
                *rgba,
            ),
            final(self).width == old(self).width,
            final(self).height == old(self).height,
            final(self).w_max == old(self).w_max,
            final(self).h_max == old(self).h_max,
            final(self).viewport == old(self).viewport,
            final(self).wf(),
    {
        self.set_pixel(x, y, rgba.r, rgba.g, rgba.b, rgba.a)
    }

    /// The bytes of the buffer: four per pixel (red, green, blue, alpha),
    /// row by row from the top row.
    pub fn render(&self) -> (bytes: Vec<u8>)
        ensures
            bytes@ == flatten(self.pixels@),
            bytes@.len() == 4 * self.pixels@.len(),
            forall|i: int|
                0 <= i < self.pixels@.len() ==> #[trigger] bytes@.subrange(4 * i, 4 * i + 4)
                    == channels(self.pixels@[i]),
    {
        let mut bytes: Vec<u8> = Vec::new();
        let mut i: usize = 0;
        while i < self.pixels.len()
            invariant
                i <= self.pixels@.len(),
                bytes@ == flatten(self.pixels@.take(i as int)),
            decreases self.pixels@.len() - i,
        {
            let group = self.pixels[i].unpack();
            bytes.push(group[0]);
            bytes.push(group[1]);
            bytes.push(group[2]);
            bytes.push(group[3]);
            proof {
                let next = self.pixels@.take(i + 1);
                assert(next.drop_last() =~= self.pixels@.take(i as int));
                assert(bytes@ =~= flatten(next));
            }
            i = i + 1;
        }
        proof {
            assert(self.pixels@.take(i as int) =~= self.pixels@);
            lemma_flatten(self.pixels@);
        }
        bytes
    }
}

} // verus!

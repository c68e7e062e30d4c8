//! A fixed-size grid of colors with plain-text PPM serialization.
//!
//! The grid is stored in row-major order with the origin at the top left:
//! `x` grows rightward, `y` grows downward, and the cell `(x, y)` lives at
//! index `x + y * width`.  The grid is allocated once, all black, and never
//! resized.

use vstd::prelude::*;

use crate::color::{scale_channel, spec_color, Color};
use crate::text::{dec_rep, push_char, push_dec};

verus! {

/// The maximum channel value of the serialized image.
pub const MAX_CHANNEL: u64 = 255;

/// The color every cell starts out as.
pub open spec fn black() -> Color {
    spec_color(0, 0, 0)
}

/// One serialized pixel: the three scaled channels, space-separated, on a
/// line of their own.
pub open spec fn pixel_line(c: Color) -> Seq<char> {
    dec_rep(scale_channel(c.spec_r(), MAX_CHANNEL as int)) + seq![' '] + dec_rep(
        scale_channel(c.spec_g(), MAX_CHANNEL as int),
    ) + seq![' '] + dec_rep(scale_channel(c.spec_b(), MAX_CHANNEL as int)) + seq!['\n']
}

/// The pixel lines of `pixels`, in order.
pub open spec fn pixel_lines(pixels: Seq<Color>) -> Seq<char>
    decreases pixels.len(),
{
    if pixels.len() == 0 {
        Seq::empty()
    } else {
        pixel_line(pixels[0]) + pixel_lines(pixels.drop_first())
    }
}

/// The PPM header: the magic number `P3`, the dimensions, and the maximum
/// channel value, each on a line of its own.
pub open spec fn ppm_header(width: int, height: int) -> Seq<char> {
    seq!['P', '3', '\n'] + dec_rep(width) + seq![' '] + dec_rep(height) + seq!['\n'] + dec_rep(
        MAX_CHANNEL as int,
    ) + seq!['\n']
}

/// A canvas of `width * height` color cells in row-major order.
pub struct Canvas {
    width: usize,
    height: usize,
    pixels: Vec<Color>,
}

impl Canvas {
    /// The canvas width in pixels.
    pub closed spec fn spec_width(self) -> int {
        self.width as int
    }

    /// The canvas height in pixels.
    pub closed spec fn spec_height(self) -> int {
        self.height as int
    }

    /// The cells in row-major order.
    pub closed spec fn spec_pixels(self) -> Seq<Color> {
        self.pixels@
    }

    /// The canvas holds exactly one cell per coordinate.
    pub open spec fn wf(self) -> bool {
        self.spec_pixels().len() == self.spec_width() * self.spec_height()
    }

    /// The cell at `(x, y)`.
    pub open spec fn spec_pixel(self, x: int, y: int) -> Color {
        self.spec_pixels()[x + y * self.spec_width()]
    }

    /// The serialized form of the whole canvas.
    pub open spec fn spec_ppm(self) -> Seq<char> {
        ppm_header(self.spec_width(), self.spec_height()) + pixel_lines(self.spec_pixels())
    }

    /// Create an all-black canvas with the given dimensions.
    pub fn new(width: usize, height: usize) -> (canvas: Canvas)
        requires
            width * height <= usize::MAX,
        ensures
            canvas.wf(),
            canvas.spec_width() == width,
            canvas.spec_height() == height,
            canvas.spec_pixels().len() == width * height,
            forall|i: int|
                0 <= i < canvas.spec_pixels().len() ==> canvas.spec_pixels()[i] == black(),
    {
        let n: usize = width * height;
        let mut pixels: Vec<Color> = Vec::new();
        let mut i: usize = 0;
        while i < n
            invariant
                i <= n,
                pixels@.len() == i,
                forall|j: int| 0 <= j < i ==> pixels@[j] == black(),
            decreases n - i,
        {
            pixels.push(Color::new(0, 0, 0));
            i = i + 1;
        }
        Canvas { width, height, pixels }
    }

    /// The canvas width in pixels.
    pub fn width(&self) -> (w: usize)
        ensures
            w == self.spec_width(),
    {
        self.width
    }

    /// The canvas height in pixels.
    pub fn height(&self) -> (h: usize)
        ensures
            h == self.spec_height(),
    {
        self.height
    }

    /// Write `color` into the cell at `(x, y)`; every other cell keeps its
    /// color.  Writing outside the canvas is a caller bug, ruled out here
    /// rather than checked at run time.
    pub fn set_pixel(&mut self, x: usize, y: usize, color: Color)
        requires
            old(self).wf(),
            x < old(self).spec_width(),
            y < old(self).spec_height(),
        ensures
            final(self).wf(),
            final(self).spec_width() == old(self).spec_width(),
            final(self).spec_height() == old(self).spec_height(),
            final(self).spec_pixels() == old(self).spec_pixels().update(
                x + y * old(self).spec_width(),
                color,
            ),
            final(self).spec_pixel(x as int, y as int) == color,
            forall|a: int, b: int|
                0 <= a < old(self).spec_width() && 0 <= b < old(self).spec_height() && !(a == x && b
                    == y) ==> final(self).spec_pixel(a, b) == old(self).spec_pixel(a, b),
    {
        // Reading the length as a usize shows the flat index fits one too.
        // Reading the length as a usize shows the flat index fits one too.
        let _count: usize = self.pixels.len();
        proof {
            lemma_row_major_index(x as int, y as int, self.spec_width(), self.spec_height());
        }
        let idx: usize = x + y * self.width;
        self.pixels[idx] = color;
        proof {
            assert forall|a: int, b: int|
                0 <= a < old(self).spec_width() && 0 <= b < old(self).spec_height() && !(a == x && b
                    == y) implies self.spec_pixel(a, b) == old(self).spec_pixel(a, b) by {
                lemma_row_major_index(a, b, old(self).spec_width(), old(self).spec_height());
                lemma_row_major_distinct(
                    a,
                    b,
                    x as int,
                    y as int,
                    old(self).spec_width(),
                    old(self).spec_height(),
                );
            }
        }
    }

    /// The color of the cell at `(x, y)`.  Reading outside the canvas is a
    /// caller bug, ruled out here rather than checked at run time.
    pub fn get_pixel(&self, x: usize, y: usize) -> (color: Color)
        requires
            self.wf(),
            x < self.spec_width(),
            y < self.spec_height(),
        ensures
            color == self.spec_pixel(x as int, y as int),
    {
        // Reading the length as a usize shows the flat index fits one too.
        let _count: usize = self.pixels.len();
        proof {
            lemma_row_major_index(x as int, y as int, self.spec_width(), self.spec_height());
        }
        let idx: usize = x + y * self.width;
        self.pixels[idx]
    }

    /// Serialize the canvas as a plain-text PPM image, byte for byte as
    /// `spec_ppm` describes: the header, then one line per pixel in
    /// row-major order, ending in a newline.
    pub fn to_ppm(&self) -> (out: String)
        requires
            self.wf(),
        ensures
            out@ == self.spec_ppm(),
    {
        let mut out = String::new();
        push_char(&mut out, 'P');
        push_char(&mut out, '3');
        push_char(&mut out, '\n');
        push_dec(&mut out, self.width as u64);
        push_char(&mut out, ' ');
        push_dec(&mut out, self.height as u64);
        push_char(&mut out, '\n');
        push_dec(&mut out, MAX_CHANNEL);
        push_char(&mut out, '\n');
        assert(out@ =~= ppm_header(self.spec_width(), self.spec_height()));

        let n: usize = self.pixels.len();
        let mut idx: usize = 0;
        while idx < n
            invariant
                idx <= n,
                n == self.spec_pixels().len(),
                self.wf(),
                out@ == ppm_header(self.spec_width(), self.spec_height()) + pixel_lines(
                    self.spec_pixels().take(idx as int),
                ),
            decreases n - idx,
        {
            let c = self.pixels[idx];
            let (r, g, b) = c.scale(MAX_CHANNEL);
            push_dec(&mut out, r);
            push_char(&mut out, ' ');
            push_dec(&mut out, g);
            push_char(&mut out, ' ');
            push_dec(&mut out, b);
            push_char(&mut out, '\n');
            proof {
                lemma_pixel_lines_snoc(self.spec_pixels().take(idx as int), c);
                assert(self.spec_pixels().take(idx + 1) =~= self.spec_pixels().take(
                    idx as int,
                ).push(c));
                assert(out@ =~= ppm_header(self.spec_width(), self.spec_height()) + pixel_lines(
                    self.spec_pixels().take(idx + 1),
                ));
            }
            idx = idx + 1;
        }
        proof {
            assert(self.spec_pixels().take(n as int) =~= self.spec_pixels());
        }
        out
    }
}

/// A coordinate inside the canvas has its row-major index inside the pixel
/// sequence.
pub proof fn lemma_row_major_index(x: int, y: int, width: int, height: int)
    requires
        0 <= x < width,
        0 <= y < height,
    ensures
        0 <= x + y * width < width * height,
{
    assert(x + y * width < width * height) by (nonlinear_arith)
        requires
            0 <= x < width,
            0 <= y < height,
    ;
    assert(0 <= y * width) by (nonlinear_arith)
        requires
            0 <= y,
            0 <= width,
    ;
}

/// Distinct coordinates have distinct row-major indices.
pub proof fn lemma_row_major_distinct(ax: int, ay: int, bx: int, by: int, width: int, height: int)
    requires
        0 <= ax < width,
        0 <= ay < height,
        0 <= bx < width,
        0 <= by < height,
        !(ax == bx && ay == by),
    ensures
        ax + ay * width != bx + by * width,
{
    assert(ax + ay * width != bx + by * width) by (nonlinear_arith)
        requires
            0 <= ax < width,
            0 <= bx < width,
            !(ax == bx && ay == by),
    ;
}

/// Appending one pixel to a sequence appends its line to the serialization.
proof fn lemma_pixel_lines_snoc(pixels: Seq<Color>, c: Color)
    ensures
        pixel_lines(pixels.push(c)) == pixel_lines(pixels) + pixel_line(c),
    decreases pixels.len(),
{
    if pixels.len() == 0 {
        assert(pixels.push(c)[0] == c);
        assert(pixels.push(c).drop_first() =~= Seq::<Color>::empty());
        assert(pixel_lines(pixels.push(c)) == pixel_line(c) + pixel_lines(Seq::<Color>::empty()));
        assert(pixel_lines(pixels.push(c)) =~= pixel_lines(pixels) + pixel_line(c));
    } else {
        assert(pixels.push(c).drop_first() =~= pixels.drop_first().push(c));
        lemma_pixel_lines_snoc(pixels.drop_first(), c);
        assert(pixels.push(c)[0] == pixels[0]);
        assert(pixel_lines(pixels.push(c)) =~= pixel_lines(pixels) + pixel_line(c));
    }
}

/// A serialized canvas always ends with a newline character.
pub proof fn lemma_ppm_ends_newline(canvas: Canvas)
    requires
        canvas.wf(),
    ensures
        canvas.spec_ppm().len() > 0,
        canvas.spec_ppm().last() == '\n',
{
    let header = ppm_header(canvas.spec_width(), canvas.spec_height());
    assert(header.last() == '\n');
    if canvas.spec_pixels().len() == 0 {
        assert(canvas.spec_ppm() =~= header);
    } else {
        lemma_pixel_lines_end_newline(canvas.spec_pixels());
        let body = pixel_lines(canvas.spec_pixels());
        assert(canvas.spec_ppm().last() == body.last());
    }
}

/// The serialization of a non-empty pixel sequence ends with a newline.
proof fn lemma_pixel_lines_end_newline(pixels: Seq<Color>)
    requires
        pixels.len() > 0,
    ensures
        pixel_lines(pixels).len() > 0,
        pixel_lines(pixels).last() == '\n',
    decreases pixels.len(),
{
    if pixels.len() == 1 {
        assert(pixel_lines(pixels.drop_first()) =~= Seq::<char>::empty());
        assert(pixel_lines(pixels) =~= pixel_line(pixels[0]));
        assert(pixel_line(pixels[0]).last() == '\n');
    } else {
        lemma_pixel_lines_end_newline(pixels.drop_first());
        assert(pixel_lines(pixels).last() == pixel_lines(pixels.drop_first()).last());
    }
}

} // verus!

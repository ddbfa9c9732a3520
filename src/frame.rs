use vstd::prelude::*;

verus! {

/// An RGB triple.
pub type Rgb = (u8, u8, u8);

/// The RGB triples of the first `n` pixels of a row-major RGBA buffer: the
/// fourth byte of each pixel, its alpha, is left out.
pub open spec fn rgb_of(rgba: Seq<u8>, n: nat) -> Seq<Rgb> {
    Seq::new(n, |i: int| (rgba[4 * i], rgba[4 * i + 1], rgba[4 * i + 2]))
}

/// One frame of pixel art: a `width` by `height` grid of RGB triples,
/// stored row by row.
#[derive(Clone, Debug)]
pub struct Frame {
    pixels: Vec<Rgb>,
    width: u32,
    height: u32,
}

impl View for Frame {
    type V = Seq<Rgb>;

    closed spec fn view(&self) -> Seq<Rgb> {
        self.pixels@
    }
}

impl Frame {
    pub closed spec fn spec_width(&self) -> nat {
        self.width as nat
    }

    pub closed spec fn spec_height(&self) -> nat {
        self.height as nat
    }

    /// There is exactly one pixel for each position of the grid.
    pub open spec fn wf(&self) -> bool {
        self@.len() == self.spec_width() * self.spec_height()
    }

    /// The pixel at column `x` and row `y`, for a position inside the grid.
    pub open spec fn spec_pixel(&self, x: int, y: int) -> Rgb {
        self@[y * self.spec_width() + x]
    }

    /// Builds a frame from row-major RGBA bytes, dropping the alpha channel.
    /// Bytes past the first `width * height` pixels are ignored.
    pub fn from_rgba(rgba: &[u8], width: u32, height: u32) -> (f: Frame)
        requires
            rgba@.len() >= 4 * width * height,
        ensures
            f.wf(),
            f.spec_width() == width,
            f.spec_height() == height,
            f@ == rgb_of(rgba@, (width * height) as nat),
    {
        let available: usize = rgba.len();
        assert(4 * width * height == 4 * (width * height)) by (nonlinear_arith);
        let n: usize = (width as usize) * (height as usize);
        let mut pixels: Vec<Rgb> = Vec::with_capacity(n);
        let mut i: usize = 0;
        while i < n
            invariant
                n == width * height,
                available == rgba@.len(),
                4 * n <= available,
                i <= n,
                pixels@ == rgb_of(rgba@, i as nat),
            decreases n - i,
        {
            let base: usize = 4 * i;
            pixels.push((rgba[base], rgba[base + 1], rgba[base + 2]));
            i = i + 1;
            assert(pixels@ =~= rgb_of(rgba@, i as nat));
        }
        Frame { pixels, width, height }
    }

    /// The pixel at column `x` and row `y`, or `None` outside the grid.
    pub fn get_pixel(&self, x: u32, y: u32) -> (r: Option<Rgb>)
        requires
            self.wf(),
        ensures
            x < self.spec_width() && y < self.spec_height() ==> r == Some(self.spec_pixel(x as int, y as int)),
            !(x < self.spec_width() && y < self.spec_height()) ==> r.is_none(),
    {
        let count: usize = self.pixels.len();
        if x < self.width && y < self.height {
            proof {
                lemma_row_major_in_bounds(x as int, y as int, self.width as int, self.height as int);
                assert(y * self.width + x < count);
            }
            let index: usize = (y as usize) * (self.width as usize) + (x as usize);
            Some(self.pixels[index])
        } else {
            None
        }
    }

    pub fn width(&self) -> (r: u32)
        ensures
            r == self.spec_width(),
    {
        self.width
    }

    pub fn height(&self) -> (r: u32)
        ensures
            r == self.spec_height(),
    {
        self.height
    }

    /// All pixels, row by row.
    pub fn pixels(&self) -> (r: &[Rgb])
        ensures
            r@ == self@,
    {
        self.pixels.as_slice()
    }
}

/// A position inside a `width` by `height` grid has a row-major index inside
/// the grid's `width * height` cells.
pub proof fn lemma_row_major_in_bounds(x: int, y: int, width: int, height: int)
    requires
        0 <= x < width,
        0 <= y < height,
    ensures
        0 <= y * width,
        0 <= y * width + x < width * height,
{
    assert(0 <= y * width && y * width + x < width * height) by (nonlinear_arith)
        requires
            0 <= x < width,
            0 <= y < height,
    ;
}

} // verus!

use vstd::prelude::*;
use crate::color::Color;

verus! {

/// `img` has `h` rows of `w` pixels each.
pub open spec fn is_image(img: Seq<Seq<Color>>, w: nat, h: nat) -> bool {
    &&& img.len() == h
    &&& forall|y: int| 0 <= y < h ==> #[trigger] img[y].len() == w
}

/// An image of `w` by `h` pixels, all of color `c`.
pub open spec fn filled(w: nat, h: nat, c: Color) -> Seq<Seq<Color>> {
    Seq::new(h, |y: int| Seq::new(w, |x: int| c))
}

/// Whether (x, y) addresses a pixel of `img`.
pub open spec fn in_image(img: Seq<Seq<Color>>, x: int, y: int) -> bool {
    0 <= y < img.len() && 0 <= x < img[y].len()
}

/// `img` with the pixel at (x, y) set to `c`; a position outside is ignored.
pub open spec fn plot(img: Seq<Seq<Color>>, x: int, y: int, c: Color) -> Seq<Seq<Color>> {
    if in_image(img, x, y) {
        img.update(y, img[y].update(x, c))
    } else {
        img
    }
}

/// Writing at a position outside the image, such as x equal to the width
/// or y equal to the height, leaves every pixel as it was.
pub proof fn lemma_plot_outside_is_noop(img: Seq<Seq<Color>>, x: int, y: int, c: Color)
    requires
        !in_image(img, x, y),
    ensures
        plot(img, x, y, c) == img,
{
}

/// `img` with every pixel of the rectangle at (x, y) of size w by h set to
/// `c`; the parts of the rectangle outside the image are ignored.
pub open spec fn rect_filled(img: Seq<Seq<Color>>, x: int, y: int, w: int, h: int, c: Color) -> Seq<
    Seq<Color>,
> {
    Seq::new(
        img.len(),
        |r: int|
            Seq::new(
                img[r].len(),
                |q: int|
                    if x <= q < x + w && y <= r < y + h {
                        c
                    } else {
                        img[r][q]
                    },
            ),
    )
}

proof fn lemma_flat_index(w: int, h: int, x: int, y: int)
    requires
        0 <= x < w,
        0 <= y < h,
    ensures
        0 <= y * w + x < w * h,
{
    assert(0 <= y * w + x < w * h) by (nonlinear_arith)
        requires
            0 <= x < w,
            0 <= y < h,
    ;
}

proof fn lemma_flat_index_unique(w: int, x: int, y: int, x2: int, y2: int)
    requires
        0 <= x < w,
        0 <= x2 < w,
        0 <= y,
        0 <= y2,
        y * w + x == y2 * w + x2,
    ensures
        x == x2,
        y == y2,
{
    assert(y == y2) by (nonlinear_arith)
        requires
            0 <= x < w,
            0 <= x2 < w,
            0 <= y,
            0 <= y2,
            y * w + x == y2 * w + x2,
    ;
}

/// A rectangle that starts right of the image leaves it unchanged.
pub proof fn lemma_rect_off_right(img: Seq<Seq<Color>>, w: nat, h: nat, x: int, y: int, rw: int, rh: int, c: Color)
    requires
        is_image(img, w, h),
        x >= w,
    ensures
        rect_filled(img, x, y, rw, rh, c) == img,
{
    assert(rect_filled(img, x, y, rw, rh, c) =~~= img);
}

/// A rectangle that starts below the image leaves it unchanged.
pub proof fn lemma_rect_off_bottom(img: Seq<Seq<Color>>, w: nat, h: nat, x: int, y: int, rw: int, rh: int, c: Color)
    requires
        is_image(img, w, h),
        y >= h,
    ensures
        rect_filled(img, x, y, rw, rh, c) == img,
{
    assert(rect_filled(img, x, y, rw, rh, c) =~~= img);
}

/// A width by height buffer of colors with a background color, used by
/// `clear`, and a current drawing color, used by `set_pixel`.
pub struct Framebuffer {
    width: u32,
    height: u32,
    pixels: Vec<Color>,
    background_color: Color,
    current_color: Color,
}

impl Framebuffer {
    pub closed spec fn spec_width(&self) -> nat {
        self.width as nat
    }

    pub closed spec fn spec_height(&self) -> nat {
        self.height as nat
    }

    pub closed spec fn background(&self) -> Color {
        self.background_color
    }

    pub closed spec fn current(&self) -> Color {
        self.current_color
    }

    /// The pixels, as rows from top to bottom.
    pub closed spec fn image(&self) -> Seq<Seq<Color>> {
        Seq::new(
            self.height as nat,
            |y: int| Seq::new(self.width as nat, |x: int| self.pixels@[y * self.width + x]),
        )
    }

    pub closed spec fn inv(&self) -> bool {
        self.pixels@.len() == self.width * self.height
    }

    pub open spec fn wf(&self) -> bool {
        &&& self.inv()
        &&& self.spec_width() <= u32::MAX
        &&& self.spec_height() <= u32::MAX
        &&& is_image(self.image(), self.spec_width(), self.spec_height())
    }

    /// A canvas of the given size, every pixel the background color; the
    /// current color starts as white.
    pub fn new(width: u32, height: u32, background_color: Color) -> (fb: Framebuffer)
        requires
            width * height <= usize::MAX,
        ensures
            fb.wf(),
            fb.spec_width() == width,
            fb.spec_height() == height,
            fb.background() == background_color,
            fb.current() == Color::white(),
            fb.image() == filled(width as nat, height as nat, background_color),
    {
        let pixels = Self::blank(width, height, background_color);
        let fb = Framebuffer { width, height, pixels, background_color, current_color: Color::white() };
        proof {
            assert forall|y: int, x: int| 0 <= y < height && 0 <= x < width implies #[trigger] fb.image()[y][x]
                == background_color by {
                lemma_flat_index(width as int, height as int, x, y);
            }
            assert(fb.image() =~~= filled(width as nat, height as nat, background_color));
        }
        fb
    }

    fn blank(width: u32, height: u32, c: Color) -> (v: Vec<Color>)
        requires
            width * height <= usize::MAX,
        ensures
            v@.len() == width * height,
            forall|i: int| 0 <= i < v@.len() ==> v@[i] == c,
    {
        let n: usize = width as usize * height as usize;
        let mut v: Vec<Color> = Vec::new();
        let mut i: usize = 0;
        while i < n
            invariant
                n == width * height,
                i <= n,
                v@.len() == i,
                forall|j: int| 0 <= j < i ==> v@[j] == c,
            decreases n - i,
        {
            v.push(c);
            i = i + 1;
        }
        v
    }

    /// Resets every pixel to the background color.
    pub fn clear(&mut self)
        requires
            old(self).wf(),
        ensures
            final(self).wf(),
            final(self).spec_width() == old(self).spec_width(),
            final(self).spec_height() == old(self).spec_height(),
            final(self).background() == old(self).background(),
            final(self).current() == old(self).current(),
            final(self).image() == filled(
                old(self).spec_width(),
                old(self).spec_height(),
                old(self).background(),
            ),
    {
        let n = self.pixels.len();
        let c = self.background_color;
        let mut i: usize = 0;
        while i < n
            invariant
                i <= n,
                n == self.pixels@.len(),
                self.inv(),
                self.width == old(self).width,
                self.height == old(self).height,
                self.background_color == c,
                c == old(self).background_color,
                self.current_color == old(self).current_color,
                forall|j: int| 0 <= j < i ==> self.pixels@[j] == c,
            decreases n - i,
        {
            self.pixels.set(i, c);
            i = i + 1;
        }
        proof {
            let w = self.width as int;
            let h = self.height as int;
            assert forall|y: int, x: int| 0 <= y < h && 0 <= x < w implies #[trigger] self.image()[y][x]
                == c by {
                lemma_flat_index(w, h, x, y);
            }
            assert(self.image() =~~= filled(w as nat, h as nat, c));
        }
    }

    /// Writes the current color at (x, y) when 0 <= x < width and
    /// 0 <= y < height; any other position is silently ignored.
    pub fn set_pixel(&mut self, x: u32, y: u32)
        requires
            old(self).wf(),
        ensures
            final(self).wf(),
            final(self).spec_width() == old(self).spec_width(),
            final(self).spec_height() == old(self).spec_height(),
            final(self).background() == old(self).background(),
            final(self).current() == old(self).current(),
            final(self).image() == plot(old(self).image(), x as int, y as int, old(self).current()),
    {
        if x < self.width && y < self.height {
            let ghost w = self.width as int;
            let ghost h = self.height as int;
            proof {
                lemma_flat_index(w, h, x as int, y as int);
            }
            let len = self.pixels.len();
            let i: usize = y as usize * self.width as usize + x as usize;
            let c = self.current_color;
            let ghost before = self.image();
            self.pixels.set(i, c);
            proof {
                assert forall|yy: int, xx: int| 0 <= yy < h && 0 <= xx < w implies self.image()[yy][xx]
                    == plot(before, x as int, y as int, c)[yy][xx] by {
                    lemma_flat_index(w, h, xx, yy);
                    if yy * w + xx == i as int {
                        lemma_flat_index_unique(w, xx, yy, x as int, y as int);
                    }
                }
                assert(self.image() =~~= plot(before, x as int, y as int, c));
            }
        }
    }

    pub fn set_background_color(&mut self, color: Color)
        requires
            old(self).wf(),
        ensures
            final(self).wf(),
            final(self).spec_width() == old(self).spec_width(),
            final(self).spec_height() == old(self).spec_height(),
            final(self).background() == color,
            final(self).current() == old(self).current(),
            final(self).image() == old(self).image(),
    {
        self.background_color = color;
    }

    pub fn set_current_color(&mut self, color: Color)
        requires
            old(self).wf(),
        ensures
            final(self).wf(),
            final(self).spec_width() == old(self).spec_width(),
            final(self).spec_height() == old(self).spec_height(),
            final(self).background() == old(self).background(),
            final(self).current() == color,
            final(self).image() == old(self).image(),
    {
        self.current_color = color;
    }

    /// Gives the canvas a new size; every pixel becomes the background color
    /// and the former contents are discarded.
    pub fn resize(&mut self, new_width: u32, new_height: u32)
        requires
            old(self).wf(),
            new_width * new_height <= usize::MAX,
        ensures
            final(self).wf(),
            final(self).spec_width() == new_width,
            final(self).spec_height() == new_height,
            final(self).background() == old(self).background(),
            final(self).current() == old(self).current(),
            final(self).image() == filled(
                new_width as nat,
                new_height as nat,
                old(self).background(),
            ),
    {
        self.width = new_width;
        self.height = new_height;
        self.pixels = Self::blank(new_width, new_height, self.background_color);
        proof {
            let w = self.width as int;
            let h = self.height as int;
            assert forall|y: int, x: int| 0 <= y < h && 0 <= x < w implies #[trigger] self.image()[y][x]
                == self.background_color by {
                lemma_flat_index(w, h, x, y);
            }
            assert(self.image() =~~= filled(
                new_width as nat,
                new_height as nat,
                self.background_color,
            ));
        }
    }

    /// Fills the rectangle at (x, y) of size w by h with the current color;
    /// the parts outside the canvas are silently ignored.
    pub fn fill_rect(&mut self, x: i64, y: i64, w: u64, h: u64)
        requires
            old(self).wf(),
        ensures
            final(self).wf(),
            final(self).spec_width() == old(self).spec_width(),
            final(self).spec_height() == old(self).spec_height(),
            final(self).background() == old(self).background(),
            final(self).current() == old(self).current(),
            final(self).image() == rect_filled(
                old(self).image(),
                x as int,
                y as int,
                w as int,
                h as int,
                old(self).current(),
            ),
    {
        let ghost img0 = self.image();
        let ghost c = self.current();
        let ghost fw = self.spec_width() as int;
        let ghost fh = self.spec_height() as int;
        let x0: i128 = if x < 0 { 0 } else { x as i128 };
        let y0: i128 = if y < 0 { 0 } else { y as i128 };
        let x1: i128 = if x as i128 + w as i128 <= self.width as i128 {
            x as i128 + w as i128
        } else {
            self.width as i128
        };
        let y1: i128 = if y as i128 + h as i128 <= self.height as i128 {
            y as i128 + h as i128
        } else {
            self.height as i128
        };
        let mut r: i128 = y0;
        while r < y1
            invariant
                self.wf(),
                self.spec_width() == fw,
                self.spec_height() == fh,
                self.background() == old(self).background(),
                self.current() == c,
                img0 == old(self).image(),
                c == old(self).current(),
                0 <= y0 <= r,
                r <= y1 || r == y0,
                x0 == (if x < 0 { 0 } else { x as int }),
                y0 == (if y < 0 { 0 } else { y as int }),
                x1 == (if x + w <= fw { x + w } else { fw }),
                y1 == (if y + h <= fh { y + h } else { fh }),
                forall|rr: int, qq: int|
                    0 <= rr < fh && 0 <= qq < fw ==> #[trigger] self.image()[rr][qq] == if x <= qq
                        < x + w && y <= rr < y + h && rr < r {
                        c
                    } else {
                        img0[rr][qq]
                    },
            decreases y1 - r,
        {
            let mut q: i128 = x0;
            while q < x1
                invariant
                    self.wf(),
                    self.spec_width() == fw,
                    self.spec_height() == fh,
                    self.background() == old(self).background(),
                    self.current() == c,
                    0 <= y0 <= r < y1,
                    0 <= x0 <= q,
                    q <= x1 || q == x0,
                    x0 == (if x < 0 { 0 } else { x as int }),
                    y0 == (if y < 0 { 0 } else { y as int }),
                    x1 == (if x + w <= fw { x + w } else { fw }),
                    y1 == (if y + h <= fh { y + h } else { fh }),
                    forall|rr: int, qq: int|
                        0 <= rr < fh && 0 <= qq < fw ==> #[trigger] self.image()[rr][qq] == if x
                            <= qq < x + w && y <= rr < y + h && (rr < r || (rr == r && qq < q)) {
                            c
                        } else {
                            img0[rr][qq]
                        },
                decreases x1 - q,
            {
                self.set_pixel(q as u32, r as u32);
                q = q + 1;
            }
            r = r + 1;
        }
        proof {
            assert(self.image() =~~= rect_filled(img0, x as int, y as int, w as int, h as int, c));
        }
    }

    /// The width and height, in pixels.
    pub fn size(&self) -> (r: (u32, u32))
        ensures
            r.0 == self.spec_width(),
            r.1 == self.spec_height(),
    {
        (self.width, self.height)
    }

    pub fn width(&self) -> (r: i32)
        ensures
            r == self.spec_width() as i32,
    {
        self.width as i32
    }

    pub fn height(&self) -> (r: i32)
        ensures
            r == self.spec_height() as i32,
    {
        self.height as i32
    }

    /// The color at (x, y), or the background color for a position outside
    /// the canvas.
    pub fn get_color(&self, x: u32, y: u32) -> (c: Color)
        requires
            self.wf(),
        ensures
            c == if in_image(self.image(), x as int, y as int) {
                self.image()[y as int][x as int]
            } else {
                self.background()
            },
    {
        if x < self.width && y < self.height {
            proof {
                lemma_flat_index(self.width as int, self.height as int, x as int, y as int);
            }
            let len = self.pixels.len();
            self.pixels[y as usize * self.width as usize + x as usize]
        } else {
            self.background_color
        }
    }

    /// The pixels row by row, top row first, each row from left to right.
    pub fn pixels(&self) -> (p: &Vec<Color>)
        requires
            self.wf(),
        ensures
            p@.len() == self.spec_width() * self.spec_height(),
            forall|y: int, x: int|
                0 <= y < self.spec_height() && 0 <= x < self.spec_width() ==> p@[y
                    * self.spec_width() + x] == #[trigger] self.image()[y][x],
    {
        &self.pixels
    }
}

} // verus!

//! Width and height of ASCII art and of images.
//!
//! Dimensions are scaled up or down so that the generated ASCII art and images
//! have a size that people can look at, keeping the ratio of width to height
//! as far as integer arithmetic allows.

use vstd::prelude::*;

verus! {

/// The width and height of a piece of ASCII art or of an image.
#[derive(Debug, Clone, Copy, PartialEq, Eq, Structural)]
pub struct Dimension {
    /// The width of the item.
    pub width: u32,
    /// The height of the item.
    pub height: u32,
}

/// What scaling `(width, height)` by `factor` gives.
///
/// The larger side (the height, on a tie) becomes `factor` and the other one
/// `factor * smaller / larger`, truncated. A dimension with a zero side is
/// left as it is.
pub open spec fn scaled(width: u32, height: u32, factor: u32) -> (u32, u32) {
    if width == 0 || height == 0 {
        (width, height)
    } else if width > height {
        (factor, (factor as int * height as int / width as int) as u32)
    } else {
        ((factor as int * width as int / height as int) as u32, factor)
    }
}

/// What `scale_down(max)` gives: no change when both sides are at most `max`.
pub open spec fn scaled_down(width: u32, height: u32, max: u32) -> (u32, u32) {
    if width <= max && height <= max {
        (width, height)
    } else {
        scaled(width, height, max)
    }
}

/// What `scale_up(min)` gives: no change when either side is at least `min`.
pub open spec fn scaled_up(width: u32, height: u32, min: u32) -> (u32, u32) {
    if width >= min || height >= min {
        (width, height)
    } else {
        scaled(width, height, min)
    }
}

impl Dimension {
    /// Create a new [`Dimension`] of size (0, 0).
    pub fn new() -> (r: Self)
        ensures
            r.width == 0,
            r.height == 0,
    {
        Dimension { width: 0, height: 0 }
    }

    /// Create a new [`Dimension`] from a `(width, height)` pair.
    pub fn from(t: (u32, u32)) -> (r: Self)
        ensures
            r.width == t.0,
            r.height == t.1,
    {
        Dimension { width: t.0, height: t.1 }
    }

    /// Scale down the dimensions so that neither side is larger than `max`,
    /// keeping their ratio.
    pub fn scale_down(&mut self, max: u32)
        ensures
            (final(self).width, final(self).height) == scaled_down(
                old(self).width,
                old(self).height,
                max,
            ),
    {
        if self.width <= max && self.height <= max {
            return;
        }
        self.scale(max);
    }

    /// Scale up the dimensions so that the larger side is at least `min`,
    /// keeping their ratio.
    pub fn scale_up(&mut self, min: u32)
        ensures
            (final(self).width, final(self).height) == scaled_up(
                old(self).width,
                old(self).height,
                min,
            ),
    {
        if self.width >= min || self.height >= min {
            return;
        }
        self.scale(min);
    }

    /// Scale the dimensions so that the larger side becomes `factor`,
    /// keeping their ratio.
    fn scale(&mut self, factor: u32)
        ensures
            (final(self).width, final(self).height) == scaled(old(self).width, old(self).height, factor),
    {
        if self.width == 0 || self.height == 0 {
            return;
        }
        let w: u32;
        let h: u32;
        if self.width > self.height {
            w = factor;
            h = proportion(factor, self.height, self.width);
        } else {
            h = factor;
            w = proportion(factor, self.width, self.height);
        }
        self.width = w;
        self.height = h;
    }
}

/// `factor * part / whole`, truncated, for `part <= whole`.
fn proportion(factor: u32, part: u32, whole: u32) -> (r: u32)
    requires
        0 < whole,
        part <= whole,
    ensures
        r as int == factor as int * part as int / whole as int,
{
    proof {
        assert(factor as u64 * part as u64 <= u32::MAX as int * u32::MAX as int) by (nonlinear_arith);
        assert(factor as int * part as int <= factor as int * whole as int) by (nonlinear_arith)
            requires
                part <= whole,
        ;
        assert(factor as int * part as int / whole as int <= factor as int) by (nonlinear_arith)
            requires
                factor as int * part as int <= factor as int * whole as int,
                0 < whole,
        ;
    }
    let p: u64 = factor as u64 * part as u64;
    (p / whole as u64) as u32
}

impl Default for Dimension {
    /// The default [`Dimension`] is (0, 0).
    fn default() -> (r: Self)
        ensures
            r.width == 0,
            r.height == 0,
    {
        Self::new()
    }
}

/// Scaling keeps the ratio of the sides up to truncation: the larger side
/// becomes `factor` and the smaller side is at most `factor * smaller / larger`
/// and less than one above it.
pub proof fn lemma_scale_keeps_ratio(width: u32, height: u32, factor: u32)
    requires
        width > 0,
        height > 0,
    ensures
        ({
            let (w, h) = scaled(width, height, factor);
            &&& width > height ==> w == factor && h * width <= factor * height < (h + 1) * width
            &&& width <= height ==> h == factor && w * height <= factor * width < (w + 1) * height
        }),
{
    let (w, h) = scaled(width, height, factor);
    if width > height {
        let q = factor as int * height as int / width as int;
        assert(q * width <= factor * height < (q + 1) * width) by (nonlinear_arith)
            requires
                q == factor as int * height as int / width as int,
                width > 0,
        ;
        assert(0 <= q <= factor) by (nonlinear_arith)
            requires
                q == factor as int * height as int / width as int,
                height < width,
                width > 0,
        ;
    } else {
        let q = factor as int * width as int / height as int;
        assert(q * height <= factor * width < (q + 1) * height) by (nonlinear_arith)
            requires
                q == factor as int * width as int / height as int,
                height > 0,
        ;
        assert(0 <= q <= factor) by (nonlinear_arith)
            requires
                q == factor as int * width as int / height as int,
                width <= height,
                height > 0,
        ;
    }
}

} // verus!

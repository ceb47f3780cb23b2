use crate::fixed::{fits, mul_spec, Fixed, SCALE};
use vstd::prelude::*;

verus! {

/// The mathematical value of a rectangle: raw x, y, width and height.
pub type RectView = (int, int, int, int);

/// One axis of a rectangle: raw position and raw extent.
pub type Span = (int, int);

/// Margin on one axis: a span too short for two margins collapses to an empty
/// span at its midpoint (rounded down to a raw unit).
pub open spec fn margin_span(p: int, e: int, val: int) -> Span {
    if e < 2 * val {
        (p + e / 2, 0)
    } else {
        (p + val, e - 2 * val)
    }
}

/// The rectangle that a margin of `val` yields.
pub open spec fn margin_view(r: RectView, val: int) -> RectView {
    with_y_span(with_x_span(r, margin_span(r.0, r.2, val)), margin_span(r.1, r.3, val))
}

/// Whether every raw value that margin computes on one axis fits.
pub open spec fn margin_span_fits(p: int, e: int, val: int) -> bool {
    let m = margin_span(p, e, val);
    fits(2 * val) && fits(m.0) && fits(m.1)
}

/// Split of a span from its near edge: the near piece is `val` long, or
/// `e * factor` long where `val` exceeds that.
pub open spec fn split_near_span(p: int, e: int, val: int, factor: int) -> (Span, Span) {
    let part = mul_spec(e, factor);
    if val > part {
        ((p, part), (p + part, mul_spec(e, SCALE - factor)))
    } else {
        ((p, val), (p + val, e - val))
    }
}

/// Split of a span from its far edge: the far piece is `val` long, or
/// `e * factor` long where `val` exceeds that.
pub open spec fn split_far_span(p: int, e: int, val: int, factor: int) -> (Span, Span) {
    let part = mul_spec(e, factor);
    let rest = mul_spec(e, SCALE - factor);
    if val > part {
        ((p, rest), (p + rest, part))
    } else {
        ((p, e - val), (p + e - val, val))
    }
}

/// Whether every raw value that a split from the near edge computes fits.
pub open spec fn split_near_fits(p: int, e: int, val: int, factor: int) -> bool {
    let part = mul_spec(e, factor);
    &&& fits(part)
    &&& val > part ==> fits(SCALE - factor) && fits(mul_spec(e, SCALE - factor)) && fits(p + part)
    &&& val <= part ==> fits(p + val) && fits(e - val)
}

/// Whether every raw value that a split from the far edge computes fits.
pub open spec fn split_far_fits(p: int, e: int, val: int, factor: int) -> bool {
    let part = mul_spec(e, factor);
    let rest = mul_spec(e, SCALE - factor);
    &&& fits(part)
    &&& val > part ==> fits(SCALE - factor) && fits(rest) && fits(p + rest)
    &&& val <= part ==> fits(e - val) && fits(p + e) && fits(p + e - val)
}

/// The rectangle with the given span on the x axis.
pub open spec fn with_x_span(r: RectView, s: Span) -> RectView {
    (s.0, r.1, s.1, r.3)
}

/// The rectangle with the given span on the y axis.
pub open spec fn with_y_span(r: RectView, s: Span) -> RectView {
    (r.0, s.0, r.2, s.1)
}

/// The two rectangles that a split along the x axis yields.
pub open spec fn along_x(r: RectView, s: (Span, Span)) -> (RectView, RectView) {
    (with_x_span(r, s.0), with_x_span(r, s.1))
}

/// The two rectangles that a split along the y axis yields.
pub open spec fn along_y(r: RectView, s: (Span, Span)) -> (RectView, RectView) {
    (with_y_span(r, s.0), with_y_span(r, s.1))
}

/// An axis-aligned rectangle with origin `(x, y)`, width `w` and height `h`.
///
/// Width and height may be negative or zero.
#[derive(Clone, Copy, Debug, PartialEq, Eq, Structural)]
pub struct Rect {
    pub x: Fixed,
    pub y: Fixed,
    pub w: Fixed,
    pub h: Fixed,
}

impl View for Rect {
    type V = RectView;

    open spec fn view(&self) -> RectView {
        (self.x@, self.y@, self.w@, self.h@)
    }
}

/// Multiplying by one half halves the raw value, rounding down; multiplying
/// by two doubles it.
proof fn lemma_mul_half_two(e: int, val: int)
    ensures
        mul_spec(SCALE / 2, e) == e / 2,
        mul_spec(2 * SCALE, val) == 2 * val,
{
    let s = SCALE as int;
    assert(s == 65536);
    assert(2 * SCALE * val == s * (2 * val)) by (nonlinear_arith)
        requires
            s == 65536,
            SCALE == 65536,
    ;
    vstd::arithmetic::div_mod::lemma_div_multiples_vanish(2 * val, s);
    vstd::arithmetic::div_mod::lemma_fundamental_div_mod(e, 2);
    let q = e / 2;
    let r = e % 2;
    assert((SCALE / 2) * e == q * s + 32768 * r) by (nonlinear_arith)
        requires
            s == 65536,
            SCALE == 65536,
            e == 2 * q + r,
    ;
    vstd::arithmetic::div_mod::lemma_fundamental_div_mod_converse((SCALE / 2) * e, s, q, 32768 * r);
}

/// Splits the span `(p, e)` from its near edge; the result holds the
/// position and extent of the near piece, then of the remaining piece.
fn split_near(p: Fixed, e: Fixed, val: Fixed, factor: Fixed) -> (r: (Fixed, Fixed, Fixed, Fixed))
    requires
        split_near_fits(p@, e@, val@, factor@),
    ensures
        ((r.0@, r.1@), (r.2@, r.3@)) == split_near_span(p@, e@, val@, factor@),
{
    let part = e.times(factor);
    if part.lt(val) {
        let rest = e.times(Fixed::one().minus(factor));
        (p, part, p.plus(part), rest)
    } else {
        (p, val, p.plus(val), e.minus(val))
    }
}

/// Splits the span `(p, e)` from its far edge; the result holds the
/// position and extent of the near piece, then of the far piece.
fn split_far(p: Fixed, e: Fixed, val: Fixed, factor: Fixed) -> (r: (Fixed, Fixed, Fixed, Fixed))
    requires
        split_far_fits(p@, e@, val@, factor@),
    ensures
        ((r.0@, r.1@), (r.2@, r.3@)) == split_far_span(p@, e@, val@, factor@),
{
    let part = e.times(factor);
    if part.lt(val) {
        let rest = e.times(Fixed::one().minus(factor));
        (p, rest, p.plus(rest), part)
    } else {
        (p, e.minus(val), p.plus(e).minus(val), val)
    }
}

/// A product's raw value is zero exactly when the exact product lies in
/// `[0, SCALE)`.
pub(crate) proof fn lemma_zero_product_iff(p: int)
    ensures
        (p / (SCALE as int) == 0) == (0 <= p < SCALE),
{
    let s = SCALE as int;
    vstd::arithmetic::div_mod::lemma_fundamental_div_mod(p, s);
    let q = p / s;
    if q >= 1 {
        assert(q * s >= s) by (nonlinear_arith)
            requires
                q >= 1,
                s == 65536,
        ;
    } else if q <= -1 {
        assert(q * s <= -s) by (nonlinear_arith)
            requires
                q <= -1,
                s == 65536,
        ;
    }
}

impl Rect {
    /// Creates a rectangle from x, y, w, h.
    pub fn from_x_y_w_h(x: Fixed, y: Fixed, w: Fixed, h: Fixed) -> (r: Rect)
        ensures
            r@ == (x@, y@, w@, h@),
    {
        Rect { x, y, w, h }
    }

    /// Computes a margin rectangle, each axis on its own.
    /// If the margin is too large for an axis, that axis collapses to an
    /// empty span in its middle.
    pub fn margin(&self, val: Fixed) -> (r: Rect)
        requires
            margin_span_fits(self.x@, self.w@, val@),
            margin_span_fits(self.y@, self.h@, val@),
        ensures
            r@ == margin_view(self@, val@),
    {
        let two = Fixed::two();
        let half = Fixed::half();
        proof {
            lemma_mul_half_two(self.w@, val@);
            lemma_mul_half_two(self.h@, val@);
        }
        let twice = two.times(val);
        let x: Fixed;
        let w: Fixed;
        let y: Fixed;
        let h: Fixed;
        if self.w.lt(twice) {
            x = self.x.plus(half.times(self.w));
            w = Fixed::zero();
        } else {
            x = self.x.plus(val);
            w = self.w.minus(twice);
        }
        if self.h.lt(twice) {
            y = self.y.plus(half.times(self.h));
            h = Fixed::zero();
        } else {
            y = self.y.plus(val);
            h = self.h.minus(twice);
        }
        Rect::from_x_y_w_h(x, y, w, h)
    }

    /// Splits from the left side of the rectangle, up to a factor of its width.
    pub fn split_left(&self, val: Fixed, factor: Fixed) -> (r: (Rect, Rect))
        requires
            split_near_fits(self.x@, self.w@, val@, factor@),
        ensures
            (r.0@, r.1@) == along_x(self@, split_near_span(self.x@, self.w@, val@, factor@)),
    {
        let (x, y, w, h) = self.xywh();
        let (x1, w1, x2, w2) = split_near(x, w, val, factor);
        (Rect::from_x_y_w_h(x1, y, w1, h), Rect::from_x_y_w_h(x2, y, w2, h))
    }

    /// Splits from the right side of the rectangle, up to a factor of its width.
    pub fn split_right(&self, val: Fixed, factor: Fixed) -> (r: (Rect, Rect))
        requires
            split_far_fits(self.x@, self.w@, val@, factor@),
        ensures
            (r.0@, r.1@) == along_x(self@, split_far_span(self.x@, self.w@, val@, factor@)),
    {
        let (x, y, w, h) = self.xywh();
        let (x1, w1, x2, w2) = split_far(x, w, val, factor);
        (Rect::from_x_y_w_h(x1, y, w1, h), Rect::from_x_y_w_h(x2, y, w2, h))
    }

    /// Splits from the top side of the rectangle, up to a factor of its height.
    pub fn split_top(&self, val: Fixed, factor: Fixed) -> (r: (Rect, Rect))
        requires
            split_near_fits(self.y@, self.h@, val@, factor@),
        ensures
            (r.0@, r.1@) == along_y(self@, split_near_span(self.y@, self.h@, val@, factor@)),
    {
        let (x, y, w, h) = self.xywh();
        let (y1, h1, y2, h2) = split_near(y, h, val, factor);
        (Rect::from_x_y_w_h(x, y1, w, h1), Rect::from_x_y_w_h(x, y2, w, h2))
    }

    /// Splits from the bottom side of the rectangle, up to a factor of its height.
    pub fn split_bottom(&self, val: Fixed, factor: Fixed) -> (r: (Rect, Rect))
        requires
            split_far_fits(self.y@, self.h@, val@, factor@),
        ensures
            (r.0@, r.1@) == along_y(self@, split_far_span(self.y@, self.h@, val@, factor@)),
    {
        let (x, y, w, h) = self.xywh();
        let (y1, h1, y2, h2) = split_far(y, h, val, factor);
        (Rect::from_x_y_w_h(x, y1, w, h1), Rect::from_x_y_w_h(x, y2, w, h2))
    }

    /// Returns x, y, w, h.
    pub fn xywh(&self) -> (r: (Fixed, Fixed, Fixed, Fixed))
        ensures
            r == (self.x, self.y, self.w, self.h),
    {
        (self.x, self.y, self.w, self.h)
    }
    /// Converts from a rectangle of unsigned whole numbers.
    pub fn from_u32(rect: [u32; 4]) -> (r: Rect)
        ensures
            r@ == (rect[0] * SCALE, rect[1] * SCALE, rect[2] * SCALE, rect[3] * SCALE),
    {
        Rect::from_x_y_w_h(
            Fixed::from_u32(rect[0]),
            Fixed::from_u32(rect[1]),
            Fixed::from_u32(rect[2]),
            Fixed::from_u32(rect[3]),
        )
    }

    /// Converts from a rectangle of signed whole numbers.
    pub fn from_i32(rect: [i32; 4]) -> (r: Rect)
        ensures
            r@ == (rect[0] * SCALE, rect[1] * SCALE, rect[2] * SCALE, rect[3] * SCALE),
    {
        Rect::from_x_y_w_h(
            Fixed::from_i32(rect[0]),
            Fixed::from_i32(rect[1]),
            Fixed::from_i32(rect[2]),
            Fixed::from_i32(rect[3]),
        )
    }

    /// Gets x.
    pub fn x(&self) -> (r: Fixed)
        ensures
            r == self.x,
    {
        self.x
    }

    /// Gets y.
    pub fn y(&self) -> (r: Fixed)
        ensures
            r == self.y,
    {
        self.y
    }

    /// Gets w.
    pub fn w(&self) -> (r: Fixed)
        ensures
            r == self.w,
    {
        self.w
    }

    /// Gets h.
    pub fn h(&self) -> (r: Fixed)
        ensures
            r == self.h,
    {
        self.h
    }

    /// Sets x, leaving the other fields as they were.
    pub fn set_x(&mut self, val: Fixed)
        ensures
            *final(self) == (Rect { x: val, ..*old(self) }),
    {
        self.x = val;
    }

    /// Sets y, leaving the other fields as they were.
    pub fn set_y(&mut self, val: Fixed)
        ensures
            *final(self) == (Rect { y: val, ..*old(self) }),
    {
        self.y = val;
    }

    /// Sets w, leaving the other fields as they were.
    pub fn set_w(&mut self, val: Fixed)
        ensures
            *final(self) == (Rect { w: val, ..*old(self) }),
    {
        self.w = val;
    }

    /// Sets h, leaving the other fields as they were.
    pub fn set_h(&mut self, val: Fixed)
        ensures
            *final(self) == (Rect { h: val, ..*old(self) }),
    {
        self.h = val;
    }

    /// Returns x and y.
    pub fn xy(&self) -> (r: (Fixed, Fixed))
        ensures
            r == (self.x, self.y),
    {
        (self.x(), self.y())
    }

    /// Returns w and h.
    pub fn wh(&self) -> (r: (Fixed, Fixed))
        ensures
            r == (self.w, self.h),
    {
        (self.w(), self.h())
    }

    /// Returns x and w.
    pub fn xw(&self) -> (r: (Fixed, Fixed))
        ensures
            r == (self.x, self.w),
    {
        (self.x(), self.w())
    }

    /// Returns y and h.
    pub fn yh(&self) -> (r: (Fixed, Fixed))
        ensures
            r == (self.y, self.h),
    {
        (self.y(), self.h())
    }

    /// Returns left and right.
    pub fn x1x2(&self) -> (r: (Fixed, Fixed))
        requires
            fits(self.x@ + self.w@),
        ensures
            r.0 == self.x,
            r.1@ == self.x@ + self.w@,
    {
        (self.x(), self.x().plus(self.w()))
    }

    /// Returns top and bottom.
    pub fn y1y2(&self) -> (r: (Fixed, Fixed))
        requires
            fits(self.y@ + self.h@),
        ensures
            r.0 == self.y,
            r.1@ == self.y@ + self.h@,
    {
        (self.y(), self.y().plus(self.h()))
    }

    /// Returns the upper left and the lower right corner.
    pub fn p1p2(&self) -> (r: ([Fixed; 2], [Fixed; 2]))
        requires
            fits(self.x@ + self.w@),
            fits(self.y@ + self.h@),
        ensures
            r.0[0] == self.x,
            r.0[1] == self.y,
            r.1[0]@ == self.x@ + self.w@,
            r.1[1]@ == self.y@ + self.h@,
    {
        ([self.x(), self.y()], [self.x().plus(self.w()), self.y().plus(self.h())])
    }

    /// Returns the point half the height right of and below the origin.
    ///
    /// Both coordinates are offset by half the height: the width takes no part.
    pub fn center(&self) -> (r: [Fixed; 2])
        requires
            fits(self.x@ + self.h@ / 2),
            fits(self.y@ + self.h@ / 2),
        ensures
            r[0]@ == self.x@ + self.h@ / 2,
            r[1]@ == self.y@ + self.h@ / 2,
    {
        let half = Fixed::half();
        proof {
            lemma_mul_half_two(self.h@, 0);
        }
        [self.x().plus(half.times(self.h())), self.y().plus(half.times(self.h()))]
    }

    /// Returns true if the product of width and height is zero.
    pub fn is_empty(&self) -> (r: bool)
        ensures
            r == (mul_spec(self.w@, self.h@) == 0),
    {
        let a: i128 = self.w.raw as i128;
        let b: i128 = self.h.raw as i128;
        assert(-0x8000_0000_0000_0000 * 0x8000_0000_0000_0000 <= a * b
            <= 0x8000_0000_0000_0000 * 0x8000_0000_0000_0000) by (nonlinear_arith)
            requires
                -0x8000_0000_0000_0000 <= a <= 0x7fff_ffff_ffff_ffff,
                -0x8000_0000_0000_0000 <= b <= 0x7fff_ffff_ffff_ffff,
        ;
        let p: i128 = a * b;
        proof {
            lemma_zero_product_iff(p as int);
        }
        0 <= p && p < SCALE as i128
    }
}

} // verus!

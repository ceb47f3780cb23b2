use crate::fixed::{mul_spec, Fixed, SCALE};
use crate::rect::{
    along_x, along_y, lemma_zero_product_iff, margin_view, split_far_span, split_near_span, Rect,
    RectView,
};
use vstd::arithmetic::div_mod::{lemma_div_multiples_vanish, lemma_fundamental_div_mod};
use vstd::prelude::*;

verus! {

/// Whether `b` lies right after `a` along the x axis, both at the rows of `r`,
/// with widths that add up to the width of `r`.
pub open spec fn tiles_x(r: RectView, a: RectView, b: RectView) -> bool {
    &&& a.0 == r.0 && b.0 == a.0 + a.2
    &&& a.2 + b.2 == r.2
    &&& a.1 == r.1 && b.1 == r.1
    &&& a.3 == r.3 && b.3 == r.3
}

/// Whether `b` lies right below `a` along the y axis, both at the columns of
/// `r`, with heights that add up to the height of `r`.
pub open spec fn tiles_y(r: RectView, a: RectView, b: RectView) -> bool {
    &&& a.1 == r.1 && b.1 == a.1 + a.3
    &&& a.3 + b.3 == r.3
    &&& a.0 == r.0 && b.0 == r.0
    &&& a.2 == r.2 && b.2 == r.2
}

/// Whether the product of an extent and a factor is exact in raw units.
pub open spec fn exact_product(e: int, factor: int) -> bool {
    (e * factor) % (SCALE as int) == 0
}

/// An extent multiplied by a factor and by its complement adds up to the
/// extent, where the first product is exact.
proof fn lemma_complement_sum(e: int, factor: int)
    requires
        exact_product(e, factor),
    ensures
        mul_spec(e, factor) + mul_spec(e, SCALE - factor) == e,
{
    let s = SCALE as int;
    lemma_fundamental_div_mod(e * factor, s);
    let q = (e * factor) / s;
    assert(e * (SCALE - factor) == s * (e - q)) by (nonlinear_arith)
        requires
            e * factor == s * q,
            s == SCALE,
    ;
    lemma_div_multiples_vanish(e - q, s);
}

/// A rectangle is empty exactly when its width or its height is zero, for
/// every rectangle whose nonzero width and height have a product of at least
/// one raw unit in magnitude.
pub proof fn lemma_empty_iff_zero_side(r: Rect)
    requires
        !(r.w@ != 0 && r.h@ != 0 && 0 < r.w@ * r.h@ < SCALE),
    ensures
        (mul_spec(r.w@, r.h@) == 0) == (r.w@ == 0 || r.h@ == 0),
{
    let p = r.w@ * r.h@;
    lemma_zero_product_iff(p);
    if r.w@ != 0 && r.h@ != 0 {
        assert(p != 0) by (nonlinear_arith)
            requires
                r.w@ != 0,
                r.h@ != 0,
                p == r.w@ * r.h@,
        ;
    } else {
        assert(p == 0) by (nonlinear_arith)
            requires
                r.w@ == 0 || r.h@ == 0,
                p == r.w@ * r.h@,
        ;
    }
}

/// A margin of zero or more leaves the empty rectangle at the origin as it is.
pub proof fn lemma_margin_of_empty_origin(val: Fixed)
    requires
        val@ >= 0,
    ensures
        margin_view((0, 0, 0, 0), val@) == (0int, 0int, 0int, 0int),
{
}

/// Splitting from the left yields two pieces side by side, at the rows of the
/// rectangle, whose widths add up to its width.
pub proof fn lemma_split_left_tiles(r: Rect, val: Fixed, factor: Fixed)
    requires
        val@ > mul_spec(r.w@, factor@) ==> exact_product(r.w@, factor@),
    ensures
        tiles_x(r@, along_x(r@, split_near_span(r.x@, r.w@, val@, factor@)).0,
            along_x(r@, split_near_span(r.x@, r.w@, val@, factor@)).1),
{
    if val@ > mul_spec(r.w@, factor@) {
        lemma_complement_sum(r.w@, factor@);
    }
}

/// Splitting from the right yields two pieces side by side, at the rows of
/// the rectangle, whose widths add up to its width.
pub proof fn lemma_split_right_tiles(r: Rect, val: Fixed, factor: Fixed)
    requires
        val@ > mul_spec(r.w@, factor@) ==> exact_product(r.w@, factor@),
    ensures
        tiles_x(r@, along_x(r@, split_far_span(r.x@, r.w@, val@, factor@)).0,
            along_x(r@, split_far_span(r.x@, r.w@, val@, factor@)).1),
{
    if val@ > mul_spec(r.w@, factor@) {
        lemma_complement_sum(r.w@, factor@);
    }
}

/// Splitting from the top yields two pieces one above the other, at the
/// columns of the rectangle, whose heights add up to its height.
pub proof fn lemma_split_top_tiles(r: Rect, val: Fixed, factor: Fixed)
    requires
        val@ > mul_spec(r.h@, factor@) ==> exact_product(r.h@, factor@),
    ensures
        tiles_y(r@, along_y(r@, split_near_span(r.y@, r.h@, val@, factor@)).0,
            along_y(r@, split_near_span(r.y@, r.h@, val@, factor@)).1),
{
    if val@ > mul_spec(r.h@, factor@) {
        lemma_complement_sum(r.h@, factor@);
    }
}

/// Splitting from the bottom yields two pieces one above the other, at the
/// columns of the rectangle, whose heights add up to its height.
pub proof fn lemma_split_bottom_tiles(r: Rect, val: Fixed, factor: Fixed)
    requires
        val@ > mul_spec(r.h@, factor@) ==> exact_product(r.h@, factor@),
    ensures
        tiles_y(r@, along_y(r@, split_far_span(r.y@, r.h@, val@, factor@)).0,
            along_y(r@, split_far_span(r.y@, r.h@, val@, factor@)).1),
{
    if val@ > mul_spec(r.h@, factor@) {
        lemma_complement_sum(r.h@, factor@);
    }
}

} // verus!

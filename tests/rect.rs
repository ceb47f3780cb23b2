use rect::fixed::Fixed;
use rect::rect::Rect;

fn num(v: f64) -> Fixed {
    Fixed::from_raw((v * 65536.0) as i64)
}

fn rc(x: f64, y: f64, w: f64, h: f64) -> Rect {
    Rect::from_x_y_w_h(num(x), num(y), num(w), num(h))
}

#[test]
fn is_empty() {
    assert!(rc(0.0, 0.0, 0.0, 0.0).is_empty());
    assert!(rc(0.0, 0.0, 1.0, 0.0).is_empty());
    assert!(rc(0.0, 0.0, 0.0, 1.0).is_empty());
    assert!(!rc(0.0, 0.0, 1.0, 1.0).is_empty());
}

#[test]
fn margin() {
    assert_eq!(rc(0.0, 0.0, 0.0, 0.0).margin(num(2.0)), rc(0.0, 0.0, 0.0, 0.0));
    assert_eq!(rc(0.0, 0.0, 1.0, 1.0).margin(num(2.0)), rc(0.5, 0.5, 0.0, 0.0));
    assert_eq!(rc(0.0, 0.0, 100.0, 100.0).margin(num(2.0)), rc(2.0, 2.0, 96.0, 96.0));
    assert_eq!(rc(0.0, 0.0, 100.0, 200.0).margin(num(2.0)), rc(2.0, 2.0, 96.0, 196.0));
}

#[test]
fn xywh() {
    let rect = rc(0.0, 1.0, 2.0, 3.0);
    assert_eq!(rect.x(), num(0.0));
    assert_eq!(rect.y(), num(1.0));
    assert_eq!(rect.w(), num(2.0));
    assert_eq!(rect.h(), num(3.0));
}

#[test]
fn split_left() {
    assert_eq!(rc(0.0, 0.0, 0.0, 10.0).split_left(num(30.0), num(0.5)),
        (rc(0.0, 0.0, 0.0, 10.0), rc(0.0, 0.0, 0.0, 10.0)));
    assert_eq!(rc(0.0, 0.0, 10.0, 10.0).split_left(num(15.0), num(0.5)),
        (rc(0.0, 0.0, 5.0, 10.0), rc(5.0, 0.0, 5.0, 10.0)));
    assert_eq!(rc(0.0, 0.0, 100.0, 10.0).split_left(num(30.0), num(0.5)),
        (rc(0.0, 0.0, 30.0, 10.0), rc(30.0, 0.0, 70.0, 10.0)));
}

#[test]
fn split_top() {
    assert_eq!(rc(0.0, 0.0, 10.0, 0.0).split_top(num(30.0), num(0.5)),
        (rc(0.0, 0.0, 10.0, 0.0), rc(0.0, 0.0, 10.0, 0.0)));
    assert_eq!(rc(0.0, 0.0, 10.0, 10.0).split_top(num(15.0), num(0.5)),
        (rc(0.0, 0.0, 10.0, 5.0), rc(0.0, 5.0, 10.0, 5.0)));
    assert_eq!(rc(0.0, 0.0, 10.0, 100.0).split_top(num(30.0), num(0.5)),
        (rc(0.0, 0.0, 10.0, 30.0), rc(0.0, 30.0, 10.0, 70.0)));
}

#[test]
fn split_right_mirrors_left() {
    assert_eq!(rc(0.0, 0.0, 0.0, 10.0).split_right(num(30.0), num(0.5)),
        (rc(0.0, 0.0, 0.0, 10.0), rc(0.0, 0.0, 0.0, 10.0)));
    assert_eq!(rc(0.0, 0.0, 10.0, 10.0).split_right(num(15.0), num(0.5)),
        (rc(0.0, 0.0, 5.0, 10.0), rc(5.0, 0.0, 5.0, 10.0)));
    assert_eq!(rc(0.0, 0.0, 100.0, 10.0).split_right(num(30.0), num(0.5)),
        (rc(0.0, 0.0, 70.0, 10.0), rc(70.0, 0.0, 30.0, 10.0)));
}

#[test]
fn split_bottom_mirrors_top() {
    assert_eq!(rc(0.0, 0.0, 10.0, 0.0).split_bottom(num(30.0), num(0.5)),
        (rc(0.0, 0.0, 10.0, 0.0), rc(0.0, 0.0, 10.0, 0.0)));
    assert_eq!(rc(0.0, 0.0, 10.0, 10.0).split_bottom(num(15.0), num(0.5)),
        (rc(0.0, 0.0, 10.0, 5.0), rc(0.0, 5.0, 10.0, 5.0)));
    assert_eq!(rc(0.0, 0.0, 10.0, 100.0).split_bottom(num(30.0), num(0.5)),
        (rc(0.0, 0.0, 10.0, 70.0), rc(0.0, 70.0, 10.0, 30.0)));
}

#[test]
fn split_with_uneven_factor_keeps_sum() {
    let r = rc(3.0, 4.0, 40.0, 20.0);
    let (a, b) = r.split_left(num(100.0), num(0.25));
    assert_eq!((a, b), (rc(3.0, 4.0, 10.0, 20.0), rc(13.0, 4.0, 30.0, 20.0)));
    assert_eq!(a.w().raw() + b.w().raw(), r.w().raw());
    let (c, d) = r.split_top(num(2.0), num(0.25));
    assert_eq!((c, d), (rc(3.0, 4.0, 40.0, 2.0), rc(3.0, 6.0, 40.0, 18.0)));
    assert_eq!(c.h().raw() + d.h().raw(), r.h().raw());
    let (e, f) = r.split_bottom(num(100.0), num(0.25));
    assert_eq!((e, f), (rc(3.0, 4.0, 40.0, 15.0), rc(3.0, 19.0, 40.0, 5.0)));
}

#[test]
fn split_with_negative_width() {
    let (a, b) = rc(0.0, 0.0, -8.0, 1.0).split_left(num(1.0), num(0.5));
    assert_eq!((a, b), (rc(0.0, 0.0, -4.0, 1.0), rc(-4.0, 0.0, -4.0, 1.0)));
}

#[test]
fn set_x_keeps_other_fields() {
    let mut rect = rc(0.0, 1.0, 2.0, 3.0);
    rect.set_x(num(9.0));
    assert_eq!(rect.xywh(), (num(9.0), num(1.0), num(2.0), num(3.0)));
    rect.set_y(num(8.0));
    rect.set_w(num(7.0));
    rect.set_h(num(6.0));
    assert_eq!(rect, rc(9.0, 8.0, 7.0, 6.0));
}

#[test]
fn compound_accessors() {
    let rect = rc(1.0, 2.0, 3.0, 4.0);
    assert_eq!(rect.xy(), (num(1.0), num(2.0)));
    assert_eq!(rect.wh(), (num(3.0), num(4.0)));
    assert_eq!(rect.xw(), (num(1.0), num(3.0)));
    assert_eq!(rect.yh(), (num(2.0), num(4.0)));
    assert_eq!(rect.x1x2(), (num(1.0), num(4.0)));
    assert_eq!(rect.y1y2(), (num(2.0), num(6.0)));
    assert_eq!(rect.p1p2(), ([num(1.0), num(2.0)], [num(4.0), num(6.0)]));
}

#[test]
fn center_uses_height_for_both_coordinates() {
    assert_eq!(rc(1.0, 2.0, 10.0, 4.0).center(), [num(3.0), num(4.0)]);
    assert_eq!(rc(0.0, 0.0, 100.0, 0.0).center(), [num(0.0), num(0.0)]);
}

#[test]
fn from_whole_numbers() {
    assert_eq!(Rect::from_u32([1, 2, 3, 4]), rc(1.0, 2.0, 3.0, 4.0));
    assert_eq!(Rect::from_i32([-1, 2, -3, 4]), rc(-1.0, 2.0, -3.0, 4.0));
    assert_eq!(Rect::from_u32([u32::MAX, 0, 0, 0]).x().raw(), (u32::MAX as i64) * 65536);
}

#[test]
fn is_empty_with_negative_side() {
    assert!(!rc(0.0, 0.0, -1.0, 2.0).is_empty());
    assert!(rc(0.0, 0.0, -1.0, 0.0).is_empty());
    assert!(rc(0.0, 0.0, 1.0 / 65536.0, 1.0 / 65536.0).is_empty());
}

#[test]
fn margin_collapses_one_axis_only() {
    assert_eq!(rc(0.0, 0.0, 3.0, 100.0).margin(num(2.0)), rc(1.5, 2.0, 0.0, 96.0));
    assert_eq!(rc(0.0, 0.0, 0.0, 0.0).margin(num(-1.0)), rc(-1.0, -1.0, 2.0, 2.0));
}

#[test]
fn fixed_arithmetic() {
    assert_eq!(num(1.5).times(num(2.0)), num(3.0));
    assert_eq!(num(-1.5).times(num(0.5)), num(-0.75));
    assert_eq!(Fixed::from_raw(-1).times(Fixed::half()).raw(), -1);
    assert_eq!(Fixed::from_raw(1).times(Fixed::half()).raw(), 0);
    assert_eq!(num(1.0).plus(num(2.5)), num(3.5));
    assert_eq!(num(1.0).minus(num(2.5)), num(-1.5));
    assert!(num(1.0).lt(num(2.0)));
    assert!(!num(2.0).lt(num(2.0)));
    assert_eq!(Fixed::one(), num(1.0));
    assert_eq!(Fixed::two(), num(2.0));
    assert_eq!(Fixed::zero(), num(0.0));
    assert_eq!(Fixed::from_i32(-3), num(-3.0));
}

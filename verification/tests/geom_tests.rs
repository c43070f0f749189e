use gridgeom::vectors::{BasicVector2, RawVector2};
use gridgeom::{Grid, Rect, Vec2, WrappingGrid};

#[test]
fn wrapping_grid_wrap_law_on_x_axis() {
    // width 5, height 4, each cell holds its own coordinates
    let grid = Grid::from_fn(5, 4, |x, y| (x, y));
    let wg = WrappingGrid::new(grid);
    assert_eq!(wg.index(-1, 0), wg.index(4, 0));
    assert_eq!(wg.index(5, 0), wg.index(0, 0));
    assert_eq!(wg.index(10, 0), wg.index(0, 0));
    assert_eq!(wg.index(-5, 0), wg.index(0, 0));
}

#[test]
fn wrapping_grid_wrap_law_on_y_axis() {
    let grid = Grid::from_fn(5, 4, |x, y| (x, y));
    let wg = WrappingGrid::new(grid);
    assert_eq!(wg.index(0, -1), wg.index(0, 3));
    assert_eq!(wg.index(0, 4), wg.index(0, 0));
    assert_eq!(wg.index(0, 8), wg.index(0, 0));
    assert_eq!(wg.index(0, -4), wg.index(0, 0));
}

#[test]
fn wrapping_grid_wraps_large_magnitudes() {
    let grid = Grid::from_fn(5, 4, |x, y| (x, y));
    let wg = WrappingGrid::new(grid);
    assert_eq!(*wg.index(13, -7), (3, 1));
    assert_eq!(*wg.index(-13, 7), (2, 3));
}

#[test]
fn wrapping_grid_writes_through_wrapped_coordinates() {
    let grid = Grid::from_elem(3, 3, 0_u32);
    let mut wg = WrappingGrid::new(grid);
    *wg.index_mut(-1, -1) = 42;
    assert_eq!(*wg.index(2, 2), 42);
    let inner = wg.inner();
    assert_eq!(*inner.index(2, 2), 42);
    assert_eq!(*inner.index(0, 0), 0);
}

#[test]
fn wrapping_grid_delegates_to_inner_grid() {
    let grid = Grid::from_fn(2, 3, |x, y| x + 10 * y);
    let wg = WrappingGrid::new(grid);
    assert_eq!(wg.width(), 2);
    assert_eq!(wg.height(), 3);
    assert_eq!(wg.iter().cloned().collect::<Vec<_>>(), vec![0, 1, 10, 11, 20, 21]);
    let mut coords = wg.coordinates();
    assert_eq!(coords.next(), Some((0, 0)));
    assert_eq!(coords.next(), Some((1, 0)));
    assert_eq!(coords.next(), Some((0, 1)));
}

#[test]
fn rect_overlap_areas() {
    let a = Rect { x: 0, y: 0, width: 10, height: 10 };
    assert_eq!(a.intersect_area(&a), 100);

    let disjoint_on_x = Rect { x: 20, y: 0, width: 10, height: 10 };
    assert_eq!(a.intersect_area(&disjoint_on_x), 0);

    let diagonal = Rect { x: 5, y: 5, width: 10, height: 10 };
    assert_eq!(a.intersect_area(&diagonal), 25);
}

#[test]
fn rect_intersect_returns_common_rectangle() {
    let a = Rect { x: 0, y: 0, width: 10, height: 10 };
    let b = Rect { x: 5, y: 5, width: 10, height: 10 };
    let common = a.intersect(&b).expect("rectangles overlap");
    assert_eq!(common.x, 5);
    assert_eq!(common.y, 5);
    assert_eq!(common.width, 5);
    assert_eq!(common.height, 5);

    let far = Rect { x: 20, y: 0, width: 10, height: 10 };
    assert!(a.intersect(&far).is_none());

    let touching = Rect { x: 10, y: 0, width: 10, height: 10 };
    let edge = a.intersect(&touching).expect("touching rectangles meet on an edge");
    assert_eq!(edge.x, 10);
    assert_eq!(edge.width, 0);
}

#[test]
fn rect_corners_and_sides() {
    let r = Rect { x: 2, y: 3, width: 10, height: 20 };
    assert_eq!(r.left(), 2);
    assert_eq!(r.right(), 12);
    assert_eq!(r.top(), 3);
    assert_eq!(r.bottom(), 23);
    assert_eq!(r.top_left(), Vec2::new(2, 3));
    assert_eq!(r.top_right(), Vec2::new(12, 3));
    assert_eq!(r.bottom_left(), Vec2::new(2, 23));
    assert_eq!(r.bottom_right(), Vec2::new(12, 23));
    assert_eq!(r.center(), Vec2::new(7, 13));
}

#[test]
fn rect_move_vec_translates_in_place() {
    let mut r = Rect { x: 1, y: 2, width: 3, height: 4 };
    r.move_vec(Vec2::new(10, -20));
    assert_eq!(r.x, 11);
    assert_eq!(r.y, -18);
    assert_eq!(r.width, 3);
    assert_eq!(r.height, 4);
}

#[test]
fn vec2_componentwise_arithmetic() {
    let sum = Vec2::new(1_i64, 2).add(Vec2::new(3, 4));
    assert_eq!(sum, Vec2::new(4, 6));
    let diff = Vec2::new(4_i64, 6).sub(Vec2::new(3, 4));
    assert_eq!(diff, Vec2::new(1, 2));
}

#[test]
fn vec2_dot_of_units_is_zero() {
    let ux = Vec2::unit_x();
    let uy = Vec2::unit_y();
    assert_eq!(ux.dot(&uy), 0);
    assert_eq!(ux.dot(&ux), 1);
}

#[test]
fn vec2_length_sqr_of_three_four_is_twenty_five() {
    let v = Vec2::new(3_i64, 4);
    assert_eq!(v.length_sqr(), 25);
}

#[test]
fn vec2_scale_and_zero() {
    let v = Vec2::new(2_i64, -3);
    let s = v.scale(4);
    assert_eq!(s, Vec2::new(8, -12));
    assert_eq!(Vec2::zero(), Vec2::new(0, 0));
}

#[test]
fn raw_vector_basic_operations() {
    let a = RawVector2::new(1_i64, 2);
    let b = RawVector2::new(3_i64, 4);
    assert_eq!(a.dot(&b), 11);
    let sum = a.add(&b);
    assert_eq!((sum.x, sum.y), (4, 6));
    let diff = b.sub(&a);
    assert_eq!((diff.x, diff.y), (2, 2));
    let scaled = a.scale(5);
    assert_eq!((scaled.x, scaled.y), (5, 10));
    assert_eq!(RawVector2::new(3_i64, 4).length_sqr(), 25);
    let z = RawVector2::zero();
    assert_eq!((z.x, z.y), (0, 0));
    let ux = RawVector2::unit_x();
    let uy = RawVector2::unit_y();
    assert_eq!(ux.dot(&uy), 0);
}

#[test]
fn basic_vector_trait_roundtrip() {
    let v = Vec2::new(5_i64, -6);
    let raw = v.as_raw();
    assert_eq!((raw.x, raw.y), (5, -6));
    let back: Vec2<i64> = BasicVector2::from_raw(raw);
    assert_eq!(back, v);
    let z: Vec2<i64> = BasicVector2::zero();
    assert_eq!(z, Vec2::new(0, 0));
    let ux: Vec2<i64> = BasicVector2::unit_x();
    let uy: Vec2<i64> = BasicVector2::unit_y();
    assert_eq!(BasicVector2::dot(&ux, &uy), 0);
}

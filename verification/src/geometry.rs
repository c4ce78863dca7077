//! Fixed-point coordinates, the design space and the tree's silhouette.

use vstd::prelude::*;

verus! {

/// Sub-units per design unit. Every coordinate, speed and fraction of the
/// scene is an integer count of sub-units, so that `UNIT` stands for `1.0`.
pub const UNIT: i64 = 1_048_576;

/// Width of the design space, in design units.
pub const BASE_WIDTH: i64 = 600;

/// Height of the design space, in design units.
pub const BASE_HEIGHT: i64 = 600;

/// Apex of the tree, in design units.
pub const TREE_TOP_X: i64 = 300;

pub const TREE_TOP_Y: i64 = 50;

/// Left end of the tree's base, in design units.
pub const TREE_LEFT_X: i64 = 100;

/// Right end of the tree's base, in design units.
pub const TREE_RIGHT_X: i64 = 500;

/// Height of the tree's base line, in design units.
pub const TREE_BASE_Y: i64 = 550;

/// A point of the design space, in sub-units.
#[derive(Clone, Copy, Debug, PartialEq, Eq, Structural)]
pub struct Point {
    pub x: i64,
    pub y: i64,
}

/// The apex of the tree.
pub open spec fn tree_top() -> Point {
    Point { x: (TREE_TOP_X * UNIT) as i64, y: (TREE_TOP_Y * UNIT) as i64 }
}

/// The bottom-left corner of the tree.
pub open spec fn tree_left() -> Point {
    Point { x: (TREE_LEFT_X * UNIT) as i64, y: (TREE_BASE_Y * UNIT) as i64 }
}

/// The bottom-right corner of the tree.
pub open spec fn tree_right() -> Point {
    Point { x: (TREE_RIGHT_X * UNIT) as i64, y: (TREE_BASE_Y * UNIT) as i64 }
}

/// Twice the signed area of the triangle `a`, `b`, `p`: its sign tells on
/// which side of the line from `a` to `b` the point `p` lies.
pub open spec fn cross(a: Point, b: Point, p: Point) -> int {
    (b.x - a.x) * (p.y - a.y) - (b.y - a.y) * (p.x - a.x)
}

/// `p` lies inside the triangle `a`, `b`, `c` or on its boundary: it is on the
/// same side of all three edges.
pub open spec fn in_triangle(a: Point, b: Point, c: Point, p: Point) -> bool {
    let d1 = cross(a, b, p);
    let d2 = cross(b, c, p);
    let d3 = cross(c, a, p);
    (d1 >= 0 && d2 >= 0 && d3 >= 0) || (d1 <= 0 && d2 <= 0 && d3 <= 0)
}

/// `p` lies inside the tree's silhouette or on its boundary.
pub open spec fn in_tree(p: Point) -> bool {
    in_triangle(tree_top(), tree_left(), tree_right(), p)
}

/// The apex of the tree.
pub fn tree_top_point() -> (p: Point)
    ensures
        p == tree_top(),
{
    Point { x: TREE_TOP_X * UNIT, y: TREE_TOP_Y * UNIT }
}

/// The bottom-left corner of the tree.
pub fn tree_left_point() -> (p: Point)
    ensures
        p == tree_left(),
{
    Point { x: TREE_LEFT_X * UNIT, y: TREE_BASE_Y * UNIT }
}

/// The bottom-right corner of the tree.
pub fn tree_right_point() -> (p: Point)
    ensures
        p == tree_right(),
{
    Point { x: TREE_RIGHT_X * UNIT, y: TREE_BASE_Y * UNIT }
}

/// The side of the line from `a` to `b` on which `p` lies, for two points `a`
/// and `b` that are no further apart than the design space is wide and high.
fn edge_side(a: Point, b: Point, p: Point) -> (side: i128)
    requires
        -(BASE_WIDTH * UNIT) <= b.x - a.x <= BASE_WIDTH * UNIT,
        -(BASE_HEIGHT * UNIT) <= b.y - a.y <= BASE_HEIGHT * UNIT,
    ensures
        side == cross(a, b, p),
{
    let dx: i128 = (b.x as i128) - (a.x as i128);
    let dy: i128 = (b.y as i128) - (a.y as i128);
    let px: i128 = (p.x as i128) - (a.x as i128);
    let py: i128 = (p.y as i128) - (a.y as i128);
    assert(-0x4000_0000_0000_0000_0000_0000 <= dx * py <= 0x4000_0000_0000_0000_0000_0000)
        by (nonlinear_arith)
        requires
            -0x4000_0000 <= dx <= 0x4000_0000,
            -0x1_0000_0000_0000_0000 <= py <= 0x1_0000_0000_0000_0000,
    ;
    assert(-0x4000_0000_0000_0000_0000_0000 <= dy * px <= 0x4000_0000_0000_0000_0000_0000)
        by (nonlinear_arith)
        requires
            -0x4000_0000 <= dy <= 0x4000_0000,
            -0x1_0000_0000_0000_0000 <= px <= 0x1_0000_0000_0000_0000,
    ;
    dx * py - dy * px
}

/// Whether `p` lies inside the tree's silhouette or on its boundary.
pub fn within_tree(p: Point) -> (inside: bool)
    ensures
        inside == in_tree(p),
{
    let top = tree_top_point();
    let left = tree_left_point();
    let right = tree_right_point();
    let d1 = edge_side(top, left, p);
    let d2 = edge_side(left, right, p);
    let d3 = edge_side(right, top, p);
    (d1 >= 0 && d2 >= 0 && d3 >= 0) || (d1 <= 0 && d2 <= 0 && d3 <= 0)
}

} // verus!

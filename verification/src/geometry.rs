use vstd::prelude::*;
use crate::text::{str_contains, contains_seq};

verus! {

/// An integer rectangle in screen space. A rectangle with a non-positive
/// width or height covers no point.
#[derive(Debug, Clone, Copy, PartialEq, Eq, Structural)]
pub struct Rect {
    pub x: i32,
    pub y: i32,
    pub width: i32,
    pub height: i32,
}

/// The larger of two integers.
pub open spec fn max_int(a: int, b: int) -> int {
    if a >= b { a } else { b }
}

/// The smaller of two integers.
pub open spec fn min_int(a: int, b: int) -> int {
    if a <= b { a } else { b }
}

impl Rect {
    /// The first column to the right of the rectangle (a negative width counts as zero).
    pub open spec fn right(self) -> int {
        self.x + max_int(self.width as int, 0)
    }

    /// The first row below the rectangle (a negative height counts as zero).
    pub open spec fn bottom(self) -> int {
        self.y + max_int(self.height as int, 0)
    }

    /// The integer point `(px, py)` lies in the half-open area of the rectangle.
    pub open spec fn covers(self, px: int, py: int) -> bool {
        &&& self.x <= px < self.right()
        &&& self.y <= py < self.bottom()
    }

    /// What `intersect` returns: the overlap of both areas, or `None` when
    /// the overlap has no area.
    pub open spec fn spec_intersect(self, other: Rect) -> Option<Rect> {
        let x1 = max_int(self.x as int, other.x as int);
        let y1 = max_int(self.y as int, other.y as int);
        let x2 = min_int(self.right(), other.right());
        let y2 = min_int(self.bottom(), other.bottom());
        if x2 > x1 && y2 > y1 {
            Some(Rect { x: x1 as i32, y: y1 as i32, width: (x2 - x1) as i32, height: (y2 - y1) as i32 })
        } else {
            None
        }
    }

    #[must_use]
    pub fn new(x: i32, y: i32, width: i32, height: i32) -> (r: Self)
        ensures
            r == (Rect { x, y, width, height }),
    {
        Rect { x, y, width, height }
    }

    #[must_use]
    pub fn empty() -> (r: Self)
        ensures
            r == (Rect { x: 0, y: 0, width: 0, height: 0 }),
    {
        Self::new(0, 0, 0, 0)
    }

    #[must_use]
    pub fn has_area(self) -> (b: bool)
        ensures
            b == (self.width > 0 && self.height > 0),
    {
        self.width > 0 && self.height > 0
    }

    #[must_use]
    pub fn intersect(self, other: Self) -> (r: Option<Self>)
        ensures
            r == self.spec_intersect(other),
    {
        let x1 = if self.x >= other.x { self.x } else { other.x };
        let y1 = if self.y >= other.y { self.y } else { other.y };

        let sw: i64 = if self.width >= 0 { self.width as i64 } else { 0 };
        let ow: i64 = if other.width >= 0 { other.width as i64 } else { 0 };
        let s_x2: i64 = self.x as i64 + sw;
        let o_x2: i64 = other.x as i64 + ow;
        let x2: i64 = if s_x2 <= o_x2 { s_x2 } else { o_x2 };

        let sh: i64 = if self.height >= 0 { self.height as i64 } else { 0 };
        let oh: i64 = if other.height >= 0 { other.height as i64 } else { 0 };
        let s_y2: i64 = self.y as i64 + sh;
        let o_y2: i64 = other.y as i64 + oh;
        let y2: i64 = if s_y2 <= o_y2 { s_y2 } else { o_y2 };

        if x2 > x1 as i64 && y2 > y1 as i64 {
            Some(Self::new(x1, y1, (x2 - x1 as i64) as i32, (y2 - y1 as i64) as i32))
        } else {
            None
        }
    }
}

impl Default for Rect {
    fn default() -> (r: Self)
        ensures
            r == (Rect { x: 0, y: 0, width: 0, height: 0 }),
    {
        Rect::empty()
    }
}

/// The overlap that `intersect` returns covers exactly the points that both
/// rectangles cover, and `None` means that no point is covered by both.
pub proof fn lemma_intersect_covers_common_points(a: Rect, b: Rect, px: int, py: int)
    ensures
        match a.spec_intersect(b) {
            Some(r) => r.covers(px, py) <==> (a.covers(px, py) && b.covers(px, py)),
            None => !(a.covers(px, py) && b.covers(px, py)),
        },
{
}

/// Intersection does not depend on the order of its operands.
pub proof fn lemma_intersect_commutes(a: Rect, b: Rect)
    ensures
        a.spec_intersect(b) == b.spec_intersect(a),
{
}

/// A present intersection has area, and it is no wider and no taller than
/// either operand.
pub proof fn lemma_intersect_within_operands(a: Rect, b: Rect)
    ensures
        a.spec_intersect(b) matches Some(r) ==> {
            &&& r.width > 0 && r.height > 0
            &&& r.width <= a.width && r.width <= b.width
            &&& r.height <= a.height && r.height <= b.height
            &&& a.x <= r.x && b.x <= r.x && a.y <= r.y && b.y <= r.y
        },
{
}

/// A rectangle with area intersected with itself is itself; one without area
/// intersects nothing.
pub proof fn lemma_intersect_self(a: Rect)
    ensures
        a.width > 0 && a.height > 0 ==> a.spec_intersect(a) == Some(a),
        !(a.width > 0 && a.height > 0) ==> a.spec_intersect(a) is None,
{
}

/// The smallest and largest coordinates of the points: `(min_x, min_y,
/// max_x, max_y)`, starting from the `i32` extremes.
pub open spec fn spec_point_bounds(points: Seq<(i32, i32)>) -> (int, int, int, int)
    decreases points.len(),
{
    if points.len() == 0 {
        (i32::MAX as int, i32::MAX as int, i32::MIN as int, i32::MIN as int)
    } else {
        let (a, b, c, d) = spec_point_bounds(points.drop_last());
        let (x, y) = points.last();
        (min_int(a, x as int), min_int(b, y as int), max_int(c, x as int), max_int(d, y as int))
    }
}

/// The extent of the points fits an `i32` (the bounds of no points do not).
pub open spec fn point_extent_fits(points: Seq<(i32, i32)>) -> bool {
    let (a, b, c, d) = spec_point_bounds(points);
    c - a <= i32::MAX && c - a >= i32::MIN && d - b <= i32::MAX && d - b >= i32::MIN
}

/// The axis-aligned box of the points: the top-left corner and the
/// extent (max minus min) in each direction; `None` when an extent does not
/// fit an `i32` (as for no points at all).
pub fn polygon_bounding_box(points: &Vec<(i32, i32)>) -> (r: Option<Rect>)
    ensures
        ({
            let (a, b, c, d) = spec_point_bounds(points@);
            if point_extent_fits(points@) {
                r == Some(Rect { x: a as i32, y: b as i32, width: (c - a) as i32, height: (d - b) as i32 })
            } else {
                r is None
            }
        }),
{
    let mut min_x: i32 = i32::MAX;
    let mut min_y: i32 = i32::MAX;
    let mut max_x: i32 = i32::MIN;
    let mut max_y: i32 = i32::MIN;
    let mut i: usize = 0;
    while i < points.len()
        invariant
            i <= points@.len(),
            (min_x as int, min_y as int, max_x as int, max_y as int) == spec_point_bounds(points@.take(i as int)),
        decreases points.len() - i,
    {
        proof {
            let t = points@.take(i + 1);
            assert(t.drop_last() =~= points@.take(i as int));
            assert(t.last() == points@[i as int]);
        }
        let (x, y) = points[i];
        if x < min_x {
            min_x = x;
        }
        if x > max_x {
            max_x = x;
        }
        if y < min_y {
            min_y = y;
        }
        if y > max_y {
            max_y = y;
        }
        i = i + 1;
    }
    proof {
        assert(points@.take(points@.len() as int) =~= points@);
    }
    let w: i64 = max_x as i64 - min_x as i64;
    let h: i64 = max_y as i64 - min_y as i64;
    if w > i32::MAX as i64 || w < i32::MIN as i64 || h > i32::MAX as i64 || h < i32::MIN as i64 {
        return None;
    }
    Some(Rect { x: min_x, y: min_y, width: w as i32, height: h as i32 })
}

/// The bounding box of points covers every point (on its closed area).
pub proof fn lemma_bounding_box_covers_points(points: Seq<(i32, i32)>, i: int)
    requires
        0 <= i < points.len(),
    ensures
        ({
            let (a, b, c, d) = spec_point_bounds(points);
            a <= points[i].0 <= c && b <= points[i].1 <= d
        }),
    decreases points.len(),
{
    if i < points.len() - 1 {
        lemma_bounding_box_covers_points(points.drop_last(), i);
    }
}

/// The bounding box of points is tight: each of its four edges passes
/// through one of the points.
pub proof fn lemma_bounding_box_is_tight(points: Seq<(i32, i32)>)
    requires
        points.len() > 0,
    ensures
        ({
            let (a, b, c, d) = spec_point_bounds(points);
            &&& exists|i: int| 0 <= i < points.len() && (#[trigger] points[i]).0 == a
            &&& exists|i: int| 0 <= i < points.len() && (#[trigger] points[i]).1 == b
            &&& exists|i: int| 0 <= i < points.len() && (#[trigger] points[i]).0 == c
            &&& exists|i: int| 0 <= i < points.len() && (#[trigger] points[i]).1 == d
        }),
    decreases points.len(),
{
    let n = points.len() - 1;
    let prefix = points.drop_last();
    let (x, y) = points.last();
    assert(points[n] == points.last());
    if n == 0 {
        assert(prefix.len() == 0);
        assert(spec_point_bounds(prefix) == (i32::MAX as int, i32::MAX as int, i32::MIN as int, i32::MIN as int));
        let (a, b, c, d) = spec_point_bounds(points);
        assert(a == x && b == y && c == x && d == y);
        assert(points[0].0 == a && points[0].1 == b);
        return;
    }
    lemma_bounding_box_is_tight(prefix);
    let (a0, b0, c0, d0) = spec_point_bounds(prefix);
    let ia = choose|i: int| 0 <= i < prefix.len() && (#[trigger] prefix[i]).0 == a0;
    let ib = choose|i: int| 0 <= i < prefix.len() && (#[trigger] prefix[i]).1 == b0;
    let ic = choose|i: int| 0 <= i < prefix.len() && (#[trigger] prefix[i]).0 == c0;
    let id = choose|i: int| 0 <= i < prefix.len() && (#[trigger] prefix[i]).1 == d0;
    assert(points[ia] == prefix[ia]);
    assert(points[ib] == prefix[ib]);
    assert(points[ic] == prefix[ic]);
    assert(points[id] == prefix[id]);
}

/// Which edges a resize handle moves. A handle named with `right` moves the
/// right edge, otherwise one named with `left` moves the left edge; the same
/// for `bottom` and `top`. When the size falls below the minimum, a handle
/// named with `left` (`top`) keeps the right (bottom) edge in place.
#[derive(Debug, Clone, Copy, PartialEq, Eq, Structural)]
pub struct ResizeHandles {
    pub right: bool,
    pub left: bool,
    pub bottom: bool,
    pub top: bool,
}

/// The edges that the handle named `corner` (such as `top-left`) moves.
pub fn resize_handles(corner: &str) -> (h: ResizeHandles)
    ensures
        h.right == contains_seq(corner@, "right"@),
        h.left == contains_seq(corner@, "left"@),
        h.bottom == contains_seq(corner@, "bottom"@),
        h.top == contains_seq(corner@, "top"@),
{
    ResizeHandles {
        right: str_contains(corner, "right"),
        left: str_contains(corner, "left"),
        bottom: str_contains(corner, "bottom"),
        top: str_contains(corner, "top"),
    }
}

} // verus!

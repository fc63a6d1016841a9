//! Positions, the hit test and the shrink step.
//!
//! Coordinates are centre-origin window positions in hundredths of a
//! pixel; scales are in hundredths of the sprite's natural size.  A
//! circle drawn at scale `s` is hit by a click within `s * m / 100`
//! pixels of its centre, where `m` is the difficulty's margin in
//! hundredths.

use vstd::prelude::*;

verus! {

/// Coordinates are kept within a million pixels of the origin, far
/// beyond any window, so that squared distances fit in a machine word.
pub const COORD_LIMIT: i64 = 100_000_000;

/// Scales are kept under ten thousand times the natural sprite size.
pub const SCALE_LIMIT: u32 = 1_000_000;

/// Hit-test margins are kept at ten or fewer circle radii.
pub const MARGIN_LIMIT: u32 = 1_000;

/// Circles smaller than a quarter of the natural sprite size vanish.
pub const VANISH_SCALE: u32 = 25;

/// A centre-origin window position, in hundredths of a pixel.
#[derive(Debug, Clone, Copy, PartialEq, Eq, Structural)]
pub struct Point {
    pub x: i64,
    pub y: i64,
}

/// A live circle on screen: the engine's entity id, its centre and
/// its current scale in hundredths.
#[derive(Debug, Clone, Copy, PartialEq, Eq, Structural)]
pub struct Circle {
    pub id: u64,
    pub x: i64,
    pub y: i64,
    pub scale: u32,
}

pub open spec fn point_wf(p: Point) -> bool {
    &&& -COORD_LIMIT <= p.x <= COORD_LIMIT
    &&& -COORD_LIMIT <= p.y <= COORD_LIMIT
}

pub open spec fn circle_wf(c: Circle) -> bool {
    &&& -COORD_LIMIT <= c.x <= COORD_LIMIT
    &&& -COORD_LIMIT <= c.y <= COORD_LIMIT
    &&& c.scale <= SCALE_LIMIT
}

/// A click at `p` hits circle `c` when the distance from `p` to the
/// circle's centre is below `scale * margin / 100` pixels — that is,
/// `scale * margin` in hundredths.  Stated on squares to stay within
/// the integers.
pub open spec fn spec_hits(c: Circle, p: Point, margin: int) -> bool {
    let dx = c.x - p.x;
    let dy = c.y - p.y;
    dx * dx + dy * dy < (c.scale * margin) * (c.scale * margin)
}

/// The ids of the circles in `circles` that a click at `point` hits,
/// in their original order.
pub open spec fn spec_circles_near(circles: Seq<Circle>, point: Point, margin: int) -> Seq<u64> {
    circles.filter(|c: Circle| spec_hits(c, point, margin)).map_values(|c: Circle| c.id)
}

/// Widening the margin never loses a hit: every circle a click hits
/// on a harder margin it also hits on an easier one.
pub proof fn lemma_wider_margin_keeps_hits(c: Circle, p: Point, narrow: int, wide: int)
    requires
        0 <= narrow <= wide,
        spec_hits(c, p, narrow),
    ensures
        spec_hits(c, p, wide),
{
    assert((c.scale * narrow) * (c.scale * narrow) <= (c.scale * wide) * (c.scale * wide))
        by (nonlinear_arith)
        requires
            0 <= narrow <= wide,
            c.scale >= 0,
    ;
}

/// Whether a click at `p` hits the circle `c`.
pub fn circle_hit(c: &Circle, p: &Point, margin_of_error: u32) -> (r: bool)
    requires
        circle_wf(*c),
        point_wf(*p),
        margin_of_error <= MARGIN_LIMIT,
    ensures
        r == spec_hits(*c, *p, margin_of_error as int),
{
    let dx: i64 = c.x - p.x;
    let dy: i64 = c.y - p.y;
    proof {
        assert(dx * dx <= 200_000_000i64 * 200_000_000i64 && dx * dx >= 0)
            by (nonlinear_arith)
            requires
                -200_000_000 <= dx <= 200_000_000,
        ;
        assert(dy * dy <= 200_000_000i64 * 200_000_000i64 && dy * dy >= 0)
            by (nonlinear_arith)
            requires
                -200_000_000 <= dy <= 200_000_000,
        ;
    }
    let dist2: i64 = dx * dx + dy * dy;
    let s: i64 = c.scale as i64;
    let m: i64 = margin_of_error as i64;
    proof {
        assert(0 <= s * m <= 1_000_000_000i64) by (nonlinear_arith)
            requires
                0 <= s <= 1_000_000,
                0 <= m <= 1_000,
        ;
    }
    let reach: i64 = s * m;
    proof {
        assert(reach * reach <= 1_000_000_000i64 * 1_000_000_000i64 && reach * reach >= 0)
            by (nonlinear_arith)
            requires
                0 <= reach <= 1_000_000_000,
        ;
    }
    dist2 < reach * reach
}

/// Collect the ids of all circles a click at `point` hits, keeping
/// their order.
pub fn find_circles_near(circles: &Vec<Circle>, point: Point, margin_of_error: u32) -> (r: Vec<
    u64,
>)
    requires
        forall|i: int| 0 <= i < circles@.len() ==> circle_wf(#[trigger] circles@[i]),
        point_wf(point),
        margin_of_error <= MARGIN_LIMIT,
    ensures
        r@ == spec_circles_near(circles@, point, margin_of_error as int),
{
    let mut r: Vec<u64> = Vec::new();
    let mut i: usize = 0;
    proof {
        assert(circles@.take(0) =~= Seq::<Circle>::empty());
        assert(spec_circles_near(circles@.take(0), point, margin_of_error as int) =~= Seq::<
            u64,
        >::empty()) by {
            reveal(Seq::filter);
        }
    }
    while i < circles.len()
        invariant
            i <= circles@.len(),
            forall|j: int| 0 <= j < circles@.len() ==> circle_wf(#[trigger] circles@[j]),
            point_wf(point),
            margin_of_error <= MARGIN_LIMIT,
            r@ == spec_circles_near(circles@.take(i as int), point, margin_of_error as int),
        decreases circles@.len() - i,
    {
        let c = circles[i];
        let hit = circle_hit(&c, &point, margin_of_error);
        proof {
            lemma_circles_near_push(
                circles@.take(i as int),
                c,
                point,
                margin_of_error as int,
            );
            assert(circles@.take(i + 1) =~= circles@.take(i as int).push(circles@[i as int]));
        }
        if hit {
            r.push(c.id);
        }
        i = i + 1;
    }
    proof {
        assert(circles@.take(circles@.len() as int) =~= circles@);
    }
    r
}

/// Appending one circle to a scan appends its id exactly when the
/// click hits it.
proof fn lemma_circles_near_push(s: Seq<Circle>, c: Circle, point: Point, margin: int)
    ensures
        spec_circles_near(s.push(c), point, margin) == if spec_hits(c, point, margin) {
            spec_circles_near(s, point, margin).push(c.id)
        } else {
            spec_circles_near(s, point, margin)
        },
{
    broadcast use Seq::lemma_filter_push;

    let pred = |x: Circle| spec_hits(x, point, margin);
    let f = |x: Circle| x.id;
    if pred(c) {
        assert(s.push(c).filter(pred) == s.filter(pred).push(c));
        assert(s.filter(pred).push(c).map_values(f) =~= s.filter(pred).map_values(f).push(c.id));
    } else {
        assert(s.push(c).filter(pred) == s.filter(pred));
    }
}

/// Convert a corner-origin cursor position into the centre-origin
/// world position the circles live in.
pub fn real_mouse_pos(cursor_x: i64, cursor_y: i64, width: i64, height: i64) -> (p: Point)
    requires
        0 <= width <= COORD_LIMIT,
        0 <= height <= COORD_LIMIT,
        0 <= cursor_x <= width,
        0 <= cursor_y <= height,
    ensures
        p.x == cursor_x - width / 2,
        p.y == cursor_y - height / 2,
        point_wf(p),
{
    Point { x: cursor_x - width / 2, y: cursor_y - height / 2 }
}

/// Convert a centre-origin world position into the corner-origin
/// position a score popup is laid out at.
pub fn notification_position(x: i64, y: i64, width: i64, height: i64) -> (p: Point)
    requires
        0 <= width <= COORD_LIMIT,
        0 <= height <= COORD_LIMIT,
        -COORD_LIMIT <= x <= COORD_LIMIT,
        -COORD_LIMIT <= y <= COORD_LIMIT,
    ensures
        p.x == x + width / 2,
        p.y == y + height / 2,
{
    Point { x: x + width / 2, y: y + height / 2 }
}

/// One shrink tick: the circle keeps ninety-nine hundredths of its
/// scale, rounded down.
pub fn shrink_scale(scale: u32) -> (r: u32)
    ensures
        r == scale * 99 / 100,
        r <= scale,
{
    let wide: u64 = (scale as u64) * 99 / 100;
    proof {
        assert(wide <= scale) by (nonlinear_arith)
            requires
                wide == (scale as u64) * 99 / 100,
        ;
    }
    wide as u32
}

/// A circle vanishes once its scale falls below a quarter of the
/// natural sprite size.
pub fn circle_vanishes(scale: u32) -> (r: bool)
    ensures
        r == (scale < VANISH_SCALE),
{
    scale < VANISH_SCALE
}

} // verus!

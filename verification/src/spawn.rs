//! Spawning circles: a random scale and a random place inside the
//! window, kept a hundred pixels clear of its edges.

use vstd::prelude::*;
use rand::Rng;

use crate::geometry::COORD_LIMIT;
use crate::geometry::SCALE_LIMIT;
use crate::geometry::Circle;
use crate::geometry::circle_wf;

verus! {

/// The smallest scale a circle spawns at, in hundredths.
pub const SPAWN_SCALE_MIN: u32 = 75;

/// Spawned scales stay below three times the natural sprite size.
pub const SPAWN_SCALE_MAX: u32 = 300;

/// Spawn positions keep this many hundredths — a hundred pixels —
/// clear of the window's edges.
pub const SPAWN_EDGE_GAP: i64 = 10_000;

/// A circle the game is asked to create: a centre-origin position and
/// a scale, both in hundredths.
#[derive(Debug, Clone, Copy, PartialEq, Eq, Structural)]
pub struct CircleSpawn {
    pub x: i64,
    pub y: i64,
    pub scale: u32,
}

/// Where a fresh circle may land in a window of the given size: its
/// scale within the spawn range and its centre at least a hundred
/// pixels from every edge.
pub open spec fn spawn_in_window(s: CircleSpawn, width: i64, height: i64) -> bool {
    &&& SPAWN_SCALE_MIN <= s.scale < SPAWN_SCALE_MAX
    &&& -(width / 2 - SPAWN_EDGE_GAP) <= s.x < width / 2 - SPAWN_EDGE_GAP
    &&& -(height / 2 - SPAWN_EDGE_GAP) <= s.y < height / 2 - SPAWN_EDGE_GAP
}

/// Relies on `rand::thread_rng` and `rand::Rng::gen_range`: a sample
/// of `low..high` lies in `[low, high)`, and the call panics only on
/// an empty range, which the precondition rules out.  Nothing more is
/// promised of the draw.
#[verifier::external_body]
fn rand_in(low: i64, high: i64) -> (r: i64)
    requires
        low < high,
    ensures
        low <= r < high,
{
    rand::thread_rng().gen_range(low..high)
}

/// Pick a random place and scale for one fresh circle, and draw the
/// one-in-fifteen chance that another circle spawns right after it.
/// The caller keeps spawning while the second result stays true.
pub fn spawn_circle(width: i64, height: i64) -> (r: (CircleSpawn, bool))
    requires
        width / 2 > SPAWN_EDGE_GAP,
        height / 2 > SPAWN_EDGE_GAP,
        width <= COORD_LIMIT,
        height <= COORD_LIMIT,
    ensures
        spawn_in_window(r.0, width, height),
{
    let scale = rand_in(SPAWN_SCALE_MIN as i64, SPAWN_SCALE_MAX as i64) as u32;
    let half_w: i64 = width / 2 - SPAWN_EDGE_GAP;
    let half_h: i64 = height / 2 - SPAWN_EDGE_GAP;
    let x = rand_in(-half_w, half_w);
    let y = rand_in(-half_h, half_h);
    let another = rand_in(0, 15) == 0;
    (CircleSpawn { x, y, scale }, another)
}

/// A circle spawned inside any window the game accepts is well formed,
/// so the hit test takes it.
pub proof fn lemma_spawn_wf(s: CircleSpawn, width: i64, height: i64, id: u64)
    requires
        spawn_in_window(s, width, height),
        0 <= width <= COORD_LIMIT,
        0 <= height <= COORD_LIMIT,
    ensures
        circle_wf(Circle { id, x: s.x, y: s.y, scale: s.scale }),
{
    assert(SPAWN_SCALE_MAX <= SCALE_LIMIT);
}

} // verus!

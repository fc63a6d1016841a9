//! Per-frame decisions: what each tick of the game does with the
//! counts and timer flags the engine reports.

use vstd::prelude::*;

use crate::game::Game;
use crate::game::GameState;
use crate::game::spec_margin;
use crate::game::margin_for;
use crate::geometry::Circle;
use crate::geometry::Point;
use crate::geometry::VANISH_SCALE;
use crate::geometry::circle_wf;
use crate::geometry::circle_vanishes;
use crate::geometry::find_circles_near;
use crate::geometry::point_wf;
use crate::geometry::shrink_scale;
use crate::geometry::spec_circles_near;

verus! {

/// How many circles the main menu keeps on screen at most before it
/// stops spawning new ones.
pub const MENU_CIRCLE_CAP: usize = 30;

/// What the loading screen does on a tick.
#[derive(Debug, Clone, Copy, PartialEq, Eq, Structural)]
pub enum LoadingAction {
    /// Not on the loading screen: nothing to do.
    Wait,
    /// Menu entities are still around: despawn them all.
    ClearMenu,
    /// The menu is gone: enter play, reset the round timer and spawn
    /// the first clickable circle.
    EnterPlay,
}

/// A transient "+1" / "-1" score popup, placed at window coordinates.
#[derive(Debug, Clone, Copy, PartialEq, Eq, Structural)]
pub struct Notification {
    /// True for a gained point, false for a lost one.
    pub positive: bool,
    /// Horizontal centre-origin position, in hundredths of a pixel.
    pub x: i64,
    /// Vertical centre-origin position, in hundredths of a pixel.
    pub y: i64,
}

impl Notification {
    /// The popup's text: the point the click gained or lost.
    pub fn amount_text(&self) -> (t: &'static str)
        ensures
            self.positive ==> t@ == "+1"@,
            !self.positive ==> t@ == "-1"@,
    {
        if self.positive {
            "+1"
        } else {
            "-1"
        }
    }

    /// The colour code the popup is drawn in — green for a gain, red
    /// for a loss — and the bytes it decodes to.
    pub fn color_code(&self) -> (c: &'static str)
        ensures
            self.positive ==> c@ == "5bd972"@ && crate::color::spec_hex_color(c@) == Some(
                (0x5bu8, 0xd9u8, 0x72u8),
            ),
            !self.positive ==> c@ == "ff2414"@ && crate::color::spec_hex_color(c@) == Some(
                (0xffu8, 0x24u8, 0x14u8),
            ),
    {
        proof {
            reveal_strlit("5bd972");
            reveal_strlit("ff2414");
        }
        if self.positive {
            "5bd972"
        } else {
            "ff2414"
        }
    }
}

/// A fading score popup's own state: it dies when its timer runs out.
#[derive(Debug, Clone, Copy, PartialEq, Eq, Structural)]
pub struct Temporary {
    pub alive: bool,
    /// Text opacity in hundredths: 100 is opaque, 0 invisible.
    pub alpha: i64,
}

/// What the loading screen does on a tick: nothing while another
/// screen is up; clear leftover menu entities while any remain; enter
/// play once none are left.
pub open spec fn spec_loading_update(state: GameState, menu_count: nat) -> LoadingAction {
    if state != GameState::Loading {
        LoadingAction::Wait
    } else if menu_count == 0 {
        LoadingAction::EnterPlay
    } else {
        LoadingAction::ClearMenu
    }
}

/// Decide what the loading screen does this tick, given how many
/// menu-tagged entities are still alive.
pub fn loading_update(state: GameState, menu_count: usize) -> (a: LoadingAction)
    ensures
        a == spec_loading_update(state, menu_count as nat),
{
    if state != GameState::Loading {
        LoadingAction::Wait
    } else if menu_count == 0 {
        LoadingAction::EnterPlay
    } else {
        LoadingAction::ClearMenu
    }
}

/// The round ends exactly when play is on, every circle has vanished
/// and the round timer has run out.
pub fn game_over_due(state: GameState, circle_count: usize, timer_finished: bool) -> (r: bool)
    ensures
        r == (state == GameState::Play && circle_count == 0 && timer_finished),
{
    state == GameState::Play && circle_count == 0 && timer_finished
}

/// The main menu spawns a decorative circle when its spawn timer just
/// fired, play has not started, and the screen is not already full.
pub fn menu_spawn_due(circle_count: usize, timer_just_finished: bool, state: GameState) -> (r:
    bool)
    ensures
        r == (circle_count <= MENU_CIRCLE_CAP && timer_just_finished && state != GameState::Play),
{
    circle_count <= MENU_CIRCLE_CAP && timer_just_finished && state != GameState::Play
}

impl Temporary {
    /// A popup as it is spawned: alive and fully opaque.
    pub fn new() -> (t: Temporary)
        ensures
            t.alive,
            t.alpha == 100,
    {
        Temporary { alive: true, alpha: 100 }
    }

    /// The popup's lifetime timer ticked; once it fires the popup is
    /// no longer alive.
    pub fn expire_tick(&mut self, timer_just_finished: bool)
        ensures
            final(self).alive == (old(self).alive && !timer_just_finished),
            final(self).alpha == old(self).alpha,
    {
        if timer_just_finished {
            self.alive = false;
        }
    }

    /// Fade the popup's text one step and say whether it is due to be
    /// despawned.  The opacity keeps falling past zero, as only the
    /// timer ends the popup's life.
    pub fn fade_tick(&mut self) -> (despawn: bool)
        requires
            old(self).alpha > i64::MIN,
        ensures
            final(self).alpha == old(self).alpha - 1,
            final(self).alive == old(self).alive,
            despawn == !old(self).alive,
    {
        self.alpha = self.alpha - 1;
        !self.alive
    }
}

/// Settle a click during play: a hit removes the clicked circle, pays
/// a point and spawns a replacement; a miss costs a point.  Either way
/// a popup appears at the cursor.
pub fn register_click(game: &mut Game, hit: bool, cursor_x: i64, cursor_y: i64) -> (n:
    Notification)
    requires
        i32::MIN < old(game).score < i32::MAX,
    ensures
        final(game).difficulty == old(game).difficulty,
        hit ==> final(game).score == old(game).score + 1,
        !hit ==> final(game).score == old(game).score - 1,
        n.positive == hit,
        n.x == cursor_x,
        n.y == cursor_y,
{
    if hit {
        game.score = game.score + 1;
    } else {
        game.score = game.score - 1;
    }
    Notification { positive: hit, x: cursor_x, y: cursor_y }
}

/// Settle one circle that shrank away.  During play it costs a point
/// and leaves a popup where the circle stood; on any other screen it
/// vanishes silently.
pub fn register_vanish(game: &mut Game, in_play: bool, x: i64, y: i64) -> (n: Option<
    Notification,
>)
    requires
        old(game).score > i32::MIN,
    ensures
        final(game).difficulty == old(game).difficulty,
        in_play ==> final(game).score == old(game).score - 1 && n == Some(
            Notification { positive: false, x, y },
        ),
        !in_play ==> final(game).score == old(game).score && n is None,
{
    if in_play {
        game.score = game.score - 1;
        Some(Notification { positive: false, x, y })
    } else {
        None
    }
}

/// Everything one click during play settles.
#[derive(Debug, Clone, Copy, PartialEq, Eq, Structural)]
pub struct ClickOutcome {
    /// The circle the click removed, if it hit one; a replacement
    /// circle spawns in its stead.
    pub despawned: Option<u64>,
    /// The score popup to show at the cursor.
    pub notification: Notification,
}

/// Settle a click during play against the clickable circles on
/// screen.  The difficulty sets how forgiving the hit test is; a hit
/// removes the first circle within reach and pays a point, a miss
/// costs one.
pub fn handle_click(game: &mut Game, circles: &Vec<Circle>, cursor: Point) -> (out: ClickOutcome)
    requires
        i32::MIN < old(game).score < i32::MAX,
        forall|i: int| 0 <= i < circles@.len() ==> circle_wf(#[trigger] circles@[i]),
        point_wf(cursor),
    ensures
        final(game).difficulty == old(game).difficulty,
        ({
            let near = spec_circles_near(circles@, cursor, spec_margin(old(game).difficulty));
            &&& near.len() > 0 ==> {
                &&& out.despawned == Some(near[0])
                &&& final(game).score == old(game).score + 1
                &&& out.notification == (Notification { positive: true, x: cursor.x, y: cursor.y })
            }
            &&& near.len() == 0 ==> {
                &&& out.despawned is None
                &&& final(game).score == old(game).score - 1
                &&& out.notification == (Notification {
                    positive: false,
                    x: cursor.x,
                    y: cursor.y,
                })
            }
        }),
{
    let margin = margin_for(game.difficulty);
    let near = find_circles_near(circles, cursor, margin);
    if near.len() > 0 {
        let id = near[0];
        let notification = register_click(game, true, cursor.x, cursor.y);
        ClickOutcome { despawned: Some(id), notification }
    } else {
        let notification = register_click(game, false, cursor.x, cursor.y);
        ClickOutcome { despawned: None, notification }
    }
}

/// One shrink tick for one circle: it keeps ninety-nine hundredths of
/// its scale; once it falls below the vanish threshold it is due to
/// despawn, and during play that costs a point and leaves a popup
/// where the circle stood.
pub fn shrink_tick(game: &mut Game, circle: &mut Circle, in_play: bool) -> (r: (bool, Option<
    Notification,
>))
    requires
        old(game).score > i32::MIN,
    ensures
        final(circle).id == old(circle).id,
        final(circle).x == old(circle).x,
        final(circle).y == old(circle).y,
        final(circle).scale == old(circle).scale * 99 / 100,
        final(game).difficulty == old(game).difficulty,
        r.0 == (final(circle).scale < VANISH_SCALE),
        r.0 && in_play ==> final(game).score == old(game).score - 1 && r.1 == Some(
            Notification { positive: false, x: old(circle).x, y: old(circle).y },
        ),
        !(r.0 && in_play) ==> final(game).score == old(game).score && r.1 is None,
{
    circle.scale = shrink_scale(circle.scale);
    if circle_vanishes(circle.scale) {
        let n = register_vanish(game, in_play, circle.x, circle.y);
        (true, n)
    } else {
        (false, None)
    }
}

} // verus!

//! Game state, difficulty and score accounting.

use vstd::prelude::*;

verus! {

/// The four screens the game moves through.
#[derive(Debug, Clone, Copy, PartialEq, Eq, Structural, Hash)]
pub enum GameState {
    MainMenu,
    Loading,
    Play,
    GameOver,
}

/// A difficulty choice; the payload is the round length in whole seconds.
///
/// On `Hard` the hit test is half as forgiving as on `Easy`.
#[derive(Debug, Clone, Copy, PartialEq, Eq, Structural)]
pub enum Difficulty {
    Easy(u32),
    Hard(u32),
}

/// The running game: the player's score and the chosen difficulty.
#[derive(Debug, Clone, Copy, PartialEq, Eq, Structural)]
pub struct Game {
    pub score: i32,
    pub difficulty: Difficulty,
}

/// The round length in seconds that a difficulty carries.
pub open spec fn spec_duration_secs(d: Difficulty) -> int {
    match d {
        Difficulty::Easy(secs) => secs as int,
        Difficulty::Hard(secs) => secs as int,
    }
}

/// The hit-test margin a difficulty allows, in hundredths: a full
/// circle radius on `Easy`, half of it on `Hard`.
pub open spec fn spec_margin(d: Difficulty) -> int {
    match d {
        Difficulty::Easy(_) => 100,
        Difficulty::Hard(_) => 50,
    }
}

impl Game {
    /// A fresh game as the first launch sets it up: no score yet, thirty
    /// easy seconds.
    pub fn new() -> (g: Game)
        ensures
            g.score == 0,
            g.difficulty == Difficulty::Easy(30),
    {
        Game { score: 0, difficulty: Difficulty::Easy(30) }
    }
}

/// The round length in seconds that a difficulty carries.
pub fn duration_secs(d: Difficulty) -> (s: u32)
    ensures
        s == spec_duration_secs(d),
{
    match d {
        Difficulty::Easy(secs) => secs,
        Difficulty::Hard(secs) => secs,
    }
}

/// The hit-test margin a difficulty allows, in hundredths.
pub fn margin_for(d: Difficulty) -> (m: u32)
    ensures
        m == spec_margin(d),
{
    match d {
        Difficulty::Easy(_) => 100,
        Difficulty::Hard(_) => 50,
    }
}

/// Record the chosen difficulty and move to the loading screen.  The
/// caller also resets its round timer to a single run of that length.
pub fn load_game(game: &mut Game, difficulty: Difficulty) -> (next: GameState)
    ensures
        final(game).score == old(game).score,
        final(game).difficulty == difficulty,
        next == GameState::Loading,
{
    game.difficulty = difficulty;
    GameState::Loading
}

} // verus!

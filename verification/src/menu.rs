//! The main menu: its button labels and what a click on each does.

use vstd::prelude::*;
use vstd::string::StrSliceExecFns;

use crate::game::Difficulty;

verus! {

/// What a recognised button click asks for.
#[derive(Debug, Clone, Copy, PartialEq, Eq, Structural)]
pub enum MenuChoice {
    /// Start a round at the given difficulty.
    Start(Difficulty),
    /// Tear the game-over screen down and return to the main menu.
    Restart,
}

/// Character-for-character string equality.
pub fn str_eq(a: &str, b: &str) -> (r: bool)
    ensures
        r == (a@ == b@),
{
    let a_len = a.unicode_len();
    let b_len = b.unicode_len();
    if a_len != b_len {
        return false;
    }
    let mut i: usize = 0;
    while i < a_len
        invariant
            a@.len() == a_len,
            b@.len() == a_len,
            i <= a_len,
            forall|j: int| 0 <= j < i ==> a@[j] == b@[j],
        decreases a_len - i,
    {
        let ca = a.get_char(i);
        let cb = b.get_char(i);
        if ca != cb {
            return false;
        }
        i = i + 1;
    }
    proof {
        assert(a@ =~= b@);
    }
    true
}

/// What each button label stands for: the four menu buttons start a
/// round of the advertised length and difficulty, the game-over
/// button restarts, and any other label does nothing.
pub open spec fn spec_button_choice(label: Seq<char>) -> Option<MenuChoice> {
    if label == "15 Seconds Easy"@ {
        Some(MenuChoice::Start(Difficulty::Easy(15)))
    } else if label == "30 Seconds Easy"@ {
        Some(MenuChoice::Start(Difficulty::Easy(30)))
    } else if label == "15 Seconds Hard"@ {
        Some(MenuChoice::Start(Difficulty::Hard(15)))
    } else if label == "30 Seconds Hard"@ {
        Some(MenuChoice::Start(Difficulty::Hard(30)))
    } else if label == "Restart"@ {
        Some(MenuChoice::Restart)
    } else {
        None
    }
}

/// Decide what a clicked button with the given label asks for.
pub fn button_choice(label: &str) -> (r: Option<MenuChoice>)
    ensures
        r == spec_button_choice(label@),
{
    if str_eq(label, "15 Seconds Easy") {
        Some(MenuChoice::Start(Difficulty::Easy(15)))
    } else if str_eq(label, "30 Seconds Easy") {
        Some(MenuChoice::Start(Difficulty::Easy(30)))
    } else if str_eq(label, "15 Seconds Hard") {
        Some(MenuChoice::Start(Difficulty::Hard(15)))
    } else if str_eq(label, "30 Seconds Hard") {
        Some(MenuChoice::Start(Difficulty::Hard(30)))
    } else if str_eq(label, "Restart") {
        Some(MenuChoice::Restart)
    } else {
        None
    }
}

/// The main menu's buttons, top to bottom.
pub fn menu_button_labels() -> (r: Vec<&'static str>)
    ensures
        r@.len() == 4,
        r@[0]@ == "30 Seconds Easy"@,
        r@[1]@ == "15 Seconds Easy"@,
        r@[2]@ == "30 Seconds Hard"@,
        r@[3]@ == "15 Seconds Hard"@,
{
    let mut r: Vec<&'static str> = Vec::new();
    r.push("30 Seconds Easy");
    r.push("15 Seconds Easy");
    r.push("30 Seconds Hard");
    r.push("15 Seconds Hard");
    r
}

/// Every label the main menu shows starts a round, at the length and
/// difficulty the label advertises; the game-over button restarts.
pub proof fn lemma_menu_labels_choose()
    ensures
        spec_button_choice("30 Seconds Easy"@) == Some(MenuChoice::Start(Difficulty::Easy(30))),
        spec_button_choice("15 Seconds Easy"@) == Some(MenuChoice::Start(Difficulty::Easy(15))),
        spec_button_choice("30 Seconds Hard"@) == Some(MenuChoice::Start(Difficulty::Hard(30))),
        spec_button_choice("15 Seconds Hard"@) == Some(MenuChoice::Start(Difficulty::Hard(15))),
        spec_button_choice("Restart"@) == Some(MenuChoice::Restart),
{
    reveal_strlit("15 Seconds Easy");
    reveal_strlit("30 Seconds Easy");
    reveal_strlit("15 Seconds Hard");
    reveal_strlit("30 Seconds Hard");
    reveal_strlit("Restart");
    assert("30 Seconds Easy"@[0] != "15 Seconds Easy"@[0]);
    assert("30 Seconds Hard"@[0] != "15 Seconds Easy"@[0]);
    assert("30 Seconds Hard"@[11] != "30 Seconds Easy"@[11]);
    assert("30 Seconds Hard"@[0] != "15 Seconds Hard"@[0]);
    assert("30 Seconds Easy"@[11] != "15 Seconds Hard"@[11]);
}

} // verus!

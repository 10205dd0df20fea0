//! Text selection for the presenter: the gallows drawing for a given number
//! of lives and the status line for the previous turn's outcome.

use vstd::prelude::*;

use crate::game::Outcome;

verus! {

/// The gallows drawing shown for each number of remaining lives, 0 through 5.
pub open spec fn figure_view(lives: int) -> Seq<char> {
    if lives == 0 {
        " _________\n|         |\n|         XO\n|        /|\\\n|        / \\\n|\n|"@
    } else if lives == 1 {
        " _________\n|         |\n|         O\n|        /|\\\n|        / \\\n|        |||\n|        |||"@
    } else if lives == 2 {
        " _________\n|\n|         O\n|        /|\\\n|        / \\\n|        |||\n|        |||"@
    } else if lives == 3 {
        " _________\n|\n|\n|         O\n|        /|\\\n|        / \\\n|        |||"@
    } else if lives == 4 {
        " _________\n|\n|\n|\n|         O\n|        /|\\\n|        / \\"@
    } else {
        "|\n|\n|\n|         O\n|        /|\\\n|        / \\"@
    }
}

/// The one drawing of the six stages that belongs to this number of lives.
/// Lives outside 0 through 5 never arise in a well-formed game, so no
/// runtime branch for them is needed.
pub fn hangman_figure(lives: u8) -> (r: &'static str)
    requires
        lives <= 5,
    ensures
        r@ == figure_view(lives as int),
{
    match lives {
        0 => " _________\n|         |\n|         XO\n|        /|\\\n|        / \\\n|\n|",
        1 => " _________\n|         |\n|         O\n|        /|\\\n|        / \\\n|        |||\n|        |||",
        2 => " _________\n|\n|         O\n|        /|\\\n|        / \\\n|        |||\n|        |||",
        3 => " _________\n|\n|\n|         O\n|        /|\\\n|        / \\\n|        |||",
        4 => " _________\n|\n|\n|\n|         O\n|        /|\\\n|        / \\",
        _ => "|\n|\n|\n|         O\n|        /|\\\n|        / \\",
    }
}

/// The status line that belongs to each previous-turn outcome; empty before
/// the first guess.
pub open spec fn message_view(status: Option<Outcome>) -> Seq<char> {
    match status {
        None => ""@,
        Some(Outcome::RepeatedCharacter) => "You have already tried this letter previously."@,
        Some(Outcome::MultipleCharacters) => "Enter a single character at a time."@,
        Some(Outcome::CorrectCharacter) => "Yay! You got one."@,
        Some(Outcome::WrongCharacter) => "Uh Oh! You misguessed."@,
    }
}

/// The status line shown for the previous turn's outcome.
pub fn status_message(status: &Option<Outcome>) -> (r: &'static str)
    ensures
        r@ == message_view(*status),
{
    match status {
        None => "",
        Some(Outcome::RepeatedCharacter) => "You have already tried this letter previously.",
        Some(Outcome::MultipleCharacters) => "Enter a single character at a time.",
        Some(Outcome::CorrectCharacter) => "Yay! You got one.",
        Some(Outcome::WrongCharacter) => "Uh Oh! You misguessed.",
    }
}

} // verus!

//! The game state machine: the secret word, remaining lives, the letters
//! tried so far and the previous turn's outcome, together with the one
//! operation that folds a guess into the state.

use vstd::prelude::*;

use crate::chars::contains_char;
use crate::chars::is_space;

verus! {

/// Classification of one submitted guess.
#[derive(Clone, Copy, Debug, PartialEq, Eq, Structural)]
pub enum Outcome {
    /// The guess held more than one character.
    MultipleCharacters,
    /// The guessed character was already among the tried letters.
    RepeatedCharacter,
    /// The guessed character occurs in the secret word.
    CorrectCharacter,
    /// The guessed character does not occur in the secret word.
    WrongCharacter,
}

/// The three logical phases of a game.
#[derive(Clone, Copy, Debug, PartialEq, Eq, Structural)]
pub enum Phase {
    /// The game goes on: a guess is read this turn.
    Playing,
    /// Every non-whitespace character of the secret word has been guessed.
    Won,
    /// No lives remain.
    Lost,
}

/// The mathematical model of a game state.
#[verifier::ext_equal]
pub struct GameModel {
    pub secret: Seq<char>,
    pub lives: int,
    pub tried: Seq<char>,
    pub prev: Option<Outcome>,
}

/// A game in progress: fixed secret word, remaining lives, the letters
/// guessed correctly so far in guess order, and the outcome of the most
/// recent guess, shown on the next render.
#[derive(Clone, Debug)]
pub struct GameState {
    pub secret_word: Vec<char>,
    pub lives: u8,
    pub letters_tried: Vec<char>,
    pub prev_status: Option<Outcome>,
}

impl View for GameState {
    type V = GameModel;

    open spec fn view(&self) -> GameModel {
        GameModel {
            secret: self.secret_word@,
            lives: self.lives as int,
            tried: self.letters_tried@,
            prev: self.prev_status,
        }
    }
}

/// Well-formedness of a game model: lives within bounds, no duplicate tried
/// letters, every tried letter taken from the secret word, and a non-empty
/// secret word.
pub open spec fn wf_model(m: GameModel) -> bool {
    &&& 0 <= m.lives <= 5
    &&& m.tried.no_duplicates()
    &&& (forall|i: int| 0 <= i < m.tried.len() ==> m.secret.contains(#[trigger] m.tried[i]))
    &&& m.secret.len() > 0
}

/// How one guess is classified against a game state.
pub open spec fn classify_model(m: GameModel, text: Seq<char>) -> Outcome {
    if text.len() != 1 {
        Outcome::MultipleCharacters
    } else if m.tried.contains(text[0]) {
        Outcome::RepeatedCharacter
    } else if m.secret.contains(text[0]) {
        Outcome::CorrectCharacter
    } else {
        Outcome::WrongCharacter
    }
}

/// The state after one guess: a correct character is appended to the tried
/// letters, a wrong one costs a life, anything else leaves the counters
/// unchanged; the classification is recorded either way.
pub open spec fn step_model(m: GameModel, text: Seq<char>) -> GameModel {
    let o = classify_model(m, text);
    GameModel {
        secret: m.secret,
        lives: if o == Outcome::WrongCharacter && m.lives > 0 {
            m.lives - 1
        } else {
            m.lives
        },
        tried: if o == Outcome::CorrectCharacter {
            m.tried.push(text[0])
        } else {
            m.tried
        },
        prev: Some(o),
    }
}

/// The masked word: each character of the secret word is shown when it is
/// whitespace or already guessed, and a placeholder otherwise.
pub open spec fn masked_view(secret: Seq<char>, tried: Seq<char>) -> Seq<char> {
    Seq::new(
        secret.len(),
        |i: int|
            if is_space(secret[i]) || tried.contains(secret[i]) {
                secret[i]
            } else {
                '_'
            },
    )
}

/// The win condition: every non-whitespace position of the secret word holds
/// an already-guessed character.
pub open spec fn won_model(m: GameModel) -> bool {
    forall|i: int|
        0 <= i < m.secret.len() ==> is_space(#[trigger] m.secret[i]) || m.tried.contains(
            m.secret[i],
        )
}

/// One guess keeps the model well-formed, never raises `lives`, and leaves
/// the secret word unchanged.
pub proof fn lemma_step_preserves_wf(m: GameModel, text: Seq<char>)
    requires
        wf_model(m),
    ensures
        wf_model(step_model(m, text)),
        step_model(m, text).lives <= m.lives,
        step_model(m, text).secret == m.secret,
{
    let m2 = step_model(m, text);
    if classify_model(m, text) == Outcome::CorrectCharacter {
        let c = text[0];
        assert(!m.tried.contains(c));
        assert forall|i: int, j: int|
            0 <= i < m2.tried.len() && 0 <= j < m2.tried.len() && i != j implies m2.tried[i]
            != m2.tried[j] by {
            if i < m.tried.len() && j < m.tried.len() {
                assert(m.tried[i] != m.tried[j]);
            } else if i < m.tried.len() {
                assert(m.tried.contains(m.tried[i]));
            } else if j < m.tried.len() {
                assert(m.tried.contains(m.tried[j]));
            }
        }
        assert(m2.tried.no_duplicates());
    }
}

impl GameState {
    /// Well-formedness of the game state, stated over its model.
    pub open spec fn wf(&self) -> bool {
        wf_model(self@)
    }

    /// A fresh game around a non-empty secret word: five lives, no letters
    /// tried, no previous outcome.
    pub fn new(secret_word: Vec<char>) -> (r: GameState)
        requires
            secret_word@.len() > 0,
        ensures
            r@.secret == secret_word@,
            r@.lives == 5,
            r@.tried == Seq::<char>::empty(),
            r@.prev is None,
            r.wf(),
    {
        let r = GameState { secret_word, lives: 5, letters_tried: Vec::new(), prev_status: None };
        proof {
            assert(r@.tried =~= Seq::<char>::empty());
        }
        r
    }

    /// Classify one trimmed, non-empty guess and fold it into the state, as
    /// `step_model` describes; the classification is returned and recorded
    /// as the previous outcome. Only called while lives remain.
    pub fn process_input(&mut self, text: &Vec<char>) -> (r: Outcome)
        requires
            old(self).lives >= 1,
            text@.len() >= 1,
        ensures
            r == classify_model(old(self)@, text@),
            final(self)@ == step_model(old(self)@, text@),
            old(self).wf() ==> final(self).wf(),
    {
        let outcome = if text.len() > 1 {
            Outcome::MultipleCharacters
        } else {
            let c = text[0];
            if contains_char(&self.letters_tried, c) {
                Outcome::RepeatedCharacter
            } else if contains_char(&self.secret_word, c) {
                self.letters_tried.push(c);
                Outcome::CorrectCharacter
            } else {
                self.lives = self.lives - 1;
                Outcome::WrongCharacter
            }
        };
        self.prev_status = Some(outcome);
        proof {
            assert(self@ =~= step_model(old(self)@, text@));
            if old(self).wf() {
                lemma_step_preserves_wf(old(self)@, text@);
            }
        }
        outcome
    }

    /// The masked word shown to the player: guessed and whitespace
    /// characters as they are, placeholders elsewhere.
    pub fn masked_word(&self) -> (r: Vec<char>)
        ensures
            r@ == masked_view(self@.secret, self@.tried),
    {
        let mut r: Vec<char> = Vec::new();
        let mut i: usize = 0;
        while i < self.secret_word.len()
            invariant
                0 <= i <= self.secret_word@.len(),
                r@.len() == i,
                forall|j: int|
                    0 <= j < i ==> r@[j] == masked_view(self.secret_word@, self.letters_tried@)[j],
            decreases self.secret_word@.len() - i,
        {
            let c = self.secret_word[i];
            if crate::chars::char_is_space(c) || contains_char(&self.letters_tried, c) {
                r.push(c);
            } else {
                r.push('_');
            }
            i += 1;
        }
        proof {
            assert(r@ =~= masked_view(self@.secret, self@.tried));
        }
        r
    }

    /// Whether the win condition holds of the current state.
    pub fn is_won(&self) -> (r: bool)
        ensures
            r == won_model(self@),
    {
        let mut i: usize = 0;
        while i < self.secret_word.len()
            invariant
                0 <= i <= self.secret_word@.len(),
                forall|j: int|
                    0 <= j < i ==> is_space(#[trigger] self.secret_word@[j])
                        || self.letters_tried@.contains(self.secret_word@[j]),
            decreases self.secret_word@.len() - i,
        {
            let c = self.secret_word[i];
            if !crate::chars::char_is_space(c) && !contains_char(&self.letters_tried, c) {
                proof {
                    assert(!is_space(self@.secret[i as int]) && !self@.tried.contains(
                        self@.secret[i as int],
                    ));
                }
                return false;
            }
            i += 1;
        }
        true
    }

    /// The phase this turn starts in: lives are checked first, so a loss
    /// takes precedence over a completed word.
    pub fn turn_phase(&self) -> (p: Phase)
        ensures
            p == Phase::Lost <==> self@.lives == 0,
            p == Phase::Won <==> self@.lives > 0 && won_model(self@),
            p == Phase::Playing <==> self@.lives > 0 && !won_model(self@),
    {
        if self.lives == 0 {
            Phase::Lost
        } else if self.is_won() {
            Phase::Won
        } else {
            Phase::Playing
        }
    }
}

} // verus!

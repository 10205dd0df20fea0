//! Laws of the game state machine, stated over the model and proved once
//! and for all: bounds on lives, distinctness of the tried letters, how a
//! repeated wrong guess is classified, and the masked-word win condition.

use vstd::prelude::*;

use crate::chars::is_space;
use crate::game::GameModel;
use crate::game::Outcome;
use crate::game::classify_model;
use crate::game::lemma_step_preserves_wf;
use crate::game::masked_view;
use crate::game::step_model;
use crate::game::wf_model;
use crate::game::won_model;

verus! {

/// The model after a whole sequence of guesses, folded in order.
pub open spec fn play_model(m: GameModel, guesses: Seq<Seq<char>>) -> GameModel
    decreases guesses.len(),
{
    if guesses.len() == 0 {
        m
    } else {
        play_model(step_model(m, guesses[0]), guesses.drop_first())
    }
}

/// Over every sequence of guesses, `lives` never increases and never leaves
/// 0 through 5, and the model stays well-formed.
pub proof fn lemma_lives_bounded_over_play(m: GameModel, guesses: Seq<Seq<char>>)
    requires
        wf_model(m),
    ensures
        wf_model(play_model(m, guesses)),
        play_model(m, guesses).lives <= m.lives,
        0 <= play_model(m, guesses).lives <= 5,
        play_model(m, guesses).secret == m.secret,
    decreases guesses.len(),
{
    if guesses.len() > 0 {
        lemma_step_preserves_wf(m, guesses[0]);
        lemma_lives_bounded_over_play(step_model(m, guesses[0]), guesses.drop_first());
    }
}

proof fn lemma_play_snoc(m: GameModel, guesses: Seq<Seq<char>>, g: Seq<char>)
    ensures
        play_model(m, guesses.push(g)) == step_model(play_model(m, guesses), g),
    decreases guesses.len(),
{
    if guesses.len() == 0 {
        assert(guesses.push(g)[0] == g);
        assert(guesses.push(g).drop_first() =~= guesses);
        assert(play_model(m, guesses.push(g)) == play_model(step_model(m, g), guesses));
        assert(play_model(step_model(m, g), guesses) == step_model(m, g));
        assert(play_model(m, guesses) == m);
    } else {
        assert(guesses.push(g)[0] == guesses[0]);
        assert(guesses.push(g).drop_first() =~= guesses.drop_first().push(g));
        lemma_play_snoc(step_model(m, guesses[0]), guesses.drop_first(), g);
        assert(play_model(m, guesses.push(g)) == play_model(
            step_model(m, guesses[0]),
            guesses.drop_first().push(g),
        ));
        assert(play_model(m, guesses) == play_model(
            step_model(m, guesses[0]),
            guesses.drop_first(),
        ));
    }
}

/// Turn by turn along any sequence of guesses, each guess leaves `lives` no
/// larger than before it, and within 0 through 5.
pub proof fn lemma_lives_non_increasing_each_turn(m: GameModel, guesses: Seq<Seq<char>>, k: int)
    requires
        wf_model(m),
        0 <= k < guesses.len(),
    ensures
        play_model(m, guesses.take(k + 1)).lives <= play_model(m, guesses.take(k)).lives,
        0 <= play_model(m, guesses.take(k + 1)).lives <= 5,
{
    lemma_lives_bounded_over_play(m, guesses.take(k));
    assert(guesses.take(k + 1) =~= guesses.take(k).push(guesses[k]));
    lemma_play_snoc(m, guesses.take(k), guesses[k]);
    lemma_step_preserves_wf(play_model(m, guesses.take(k)), guesses[k]);
}

/// Over every sequence of guesses, the tried letters hold no duplicates.
pub proof fn lemma_no_duplicate_letters_over_play(m: GameModel, guesses: Seq<Seq<char>>)
    requires
        wf_model(m),
    ensures
        play_model(m, guesses).tried.no_duplicates(),
{
    lemma_lives_bounded_over_play(m, guesses);
}

/// A wrong guess is never recorded among the tried letters, so guessing the
/// same absent character twice is classified `WrongCharacter` both times and
/// costs two lives, not `RepeatedCharacter`.
pub proof fn lemma_repeated_wrong_guess(m: GameModel, c: char)
    requires
        wf_model(m),
        !m.secret.contains(c),
        m.lives >= 2,
    ensures
        classify_model(m, seq![c]) == Outcome::WrongCharacter,
        classify_model(step_model(m, seq![c]), seq![c]) == Outcome::WrongCharacter,
        step_model(m, seq![c]).tried == m.tried,
        step_model(step_model(m, seq![c]), seq![c]).tried == m.tried,
        step_model(step_model(m, seq![c]), seq![c]).lives == m.lives - 2,
{
    if m.tried.contains(c) {
        let i = choose|i: int| 0 <= i < m.tried.len() && m.tried[i] == c;
        assert(m.secret.contains(m.tried[i]));
    }
}

/// The masked-word round trip: the win condition holds exactly when every
/// distinct non-whitespace character of the secret word is among the tried
/// letters, and a won game shows the secret word unmasked.
pub proof fn lemma_masked_round_trip(m: GameModel)
    ensures
        won_model(m) <==> (forall|c: char|
            m.secret.contains(c) && !is_space(c) ==> m.tried.contains(c)),
        won_model(m) ==> masked_view(m.secret, m.tried) == m.secret,
{
    if won_model(m) {
        assert forall|c: char| m.secret.contains(c) && !is_space(c) implies m.tried.contains(
            c,
        ) by {
            let i = choose|i: int| 0 <= i < m.secret.len() && m.secret[i] == c;
            assert(is_space(m.secret[i]) || m.tried.contains(m.secret[i]));
        }
        assert(masked_view(m.secret, m.tried) =~= m.secret);
    }
    if forall|c: char| m.secret.contains(c) && !is_space(c) ==> m.tried.contains(c) {
        assert forall|i: int| 0 <= i < m.secret.len() implies is_space(#[trigger] m.secret[i])
            || m.tried.contains(m.secret[i]) by {
            assert(m.secret.contains(m.secret[i]));
        }
    }
}

} // verus!

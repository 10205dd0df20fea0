use hangman::GameState;
use hangman::Outcome;
use hangman::Phase;

fn chars(s: &str) -> Vec<char> {
    s.chars().collect()
}

#[test]
fn new_game_starts_with_five_lives_and_nothing_tried() {
    let g = GameState::new(chars("cat"));
    assert_eq!(g.lives, 5);
    assert!(g.letters_tried.is_empty());
    assert!(g.prev_status.is_none());
    assert_eq!(g.secret_word, chars("cat"));
}

#[test]
fn correct_guess_keeps_lives_and_masks_rest() {
    let mut g = GameState::new(chars("cat"));
    let outcome = g.process_input(&chars("c"));
    assert_eq!(outcome, Outcome::CorrectCharacter);
    assert_eq!(g.lives, 5);
    assert_eq!(g.masked_word(), chars("c__"));
    assert_eq!(g.letters_tried, chars("c"));
    assert_eq!(g.prev_status, Some(Outcome::CorrectCharacter));
}

#[test]
fn five_wrong_guesses_lose_the_game() {
    let mut g = GameState::new(chars("cat"));
    let mut seen_lives = vec![g.lives];
    for wrong in ["b", "d", "e", "f", "g"] {
        assert_eq!(g.turn_phase(), Phase::Playing);
        let outcome = g.process_input(&chars(wrong));
        assert_eq!(outcome, Outcome::WrongCharacter);
        seen_lives.push(g.lives);
    }
    assert_eq!(seen_lives, vec![5, 4, 3, 2, 1, 0]);
    assert_eq!(g.lives, 0);
    assert_eq!(g.turn_phase(), Phase::Lost);
    // the secret word is still there to reveal on loss
    assert_eq!(g.secret_word, chars("cat"));
}

#[test]
fn guessing_every_letter_wins_with_full_lives() {
    let mut g = GameState::new(chars("cat"));
    for (guess, masked) in [("c", "c__"), ("a", "ca_"), ("t", "cat")] {
        assert_eq!(g.turn_phase(), Phase::Playing);
        let outcome = g.process_input(&chars(guess));
        assert_eq!(outcome, Outcome::CorrectCharacter);
        assert_eq!(g.masked_word(), chars(masked));
    }
    assert_eq!(g.lives, 5);
    assert_eq!(g.turn_phase(), Phase::Won);
}

#[test]
fn multi_character_guess_changes_nothing() {
    let mut g = GameState::new(chars("cat"));
    let outcome = g.process_input(&chars("ab"));
    assert_eq!(outcome, Outcome::MultipleCharacters);
    assert_eq!(g.lives, 5);
    assert!(g.letters_tried.is_empty());
    assert_eq!(g.prev_status, Some(Outcome::MultipleCharacters));
}

#[test]
fn repeating_a_correct_guess_is_classified_repeated() {
    let mut g = GameState::new(chars("cat"));
    assert_eq!(g.process_input(&chars("c")), Outcome::CorrectCharacter);
    assert_eq!(g.process_input(&chars("c")), Outcome::RepeatedCharacter);
    assert_eq!(g.letters_tried.len(), 1);
    assert_eq!(g.lives, 5);
}

#[test]
fn repeating_a_wrong_guess_costs_a_life_each_time() {
    let mut g = GameState::new(chars("cat"));
    assert_eq!(g.process_input(&chars("x")), Outcome::WrongCharacter);
    assert_eq!(g.process_input(&chars("x")), Outcome::WrongCharacter);
    assert_eq!(g.lives, 3);
    assert!(g.letters_tried.is_empty());
}

#[test]
fn loss_takes_precedence_over_a_completed_word() {
    let mut g = GameState::new(chars("cat"));
    for guess in ["c", "a", "t"] {
        g.process_input(&chars(guess));
    }
    for wrong in ["b", "d", "e", "f", "g"] {
        g.process_input(&chars(wrong));
    }
    assert_eq!(g.lives, 0);
    assert_eq!(g.turn_phase(), Phase::Lost);
}

#[test]
fn whitespace_in_the_secret_word_is_always_shown() {
    let mut g = GameState::new(chars("a b"));
    assert_eq!(g.masked_word(), chars("_ _"));
    g.process_input(&chars("a"));
    g.process_input(&chars("b"));
    assert_eq!(g.masked_word(), chars("a b"));
    assert_eq!(g.turn_phase(), Phase::Won);
}

#[test]
fn guesses_are_case_sensitive_as_given() {
    // the word list is lowercased at load time, but a guess is compared as-is
    let mut g = GameState::new(chars("cat"));
    assert_eq!(g.process_input(&chars("C")), Outcome::WrongCharacter);
    assert_eq!(g.lives, 4);
    assert!(g.letters_tried.is_empty());
}

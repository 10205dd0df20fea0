use hangman::contains_char;
use hangman::hangman_figure;
use hangman::pick_secret_word;
use hangman::status_message;
use hangman::trim_chars;
use hangman::Outcome;

fn chars(s: &str) -> Vec<char> {
    s.chars().collect()
}

#[test]
fn a_word_list_of_blank_lines_is_a_fatal_data_error() {
    let lines = vec![chars(""), chars("   "), chars("\t"), chars(" \t ")];
    assert!(pick_secret_word(&lines).is_none());
}

#[test]
fn an_empty_word_list_is_a_fatal_data_error() {
    let lines: Vec<Vec<char>> = Vec::new();
    assert!(pick_secret_word(&lines).is_none());
}

#[test]
fn the_single_candidate_line_is_picked_trimmed_and_lowercased() {
    let lines = vec![chars("   "), chars("  CaT \t"), chars("")];
    assert_eq!(pick_secret_word(&lines), Some(chars("cat")));
}

#[test]
fn a_picked_word_always_comes_from_a_non_blank_line() {
    let lines = vec![chars("apple"), chars(""), chars("BANANA ")];
    let picked = pick_secret_word(&lines).unwrap();
    assert!(picked == chars("apple") || picked == chars("banana"));
}

#[test]
fn trimming_removes_leading_and_trailing_whitespace_only() {
    assert_eq!(trim_chars(&chars("  cat ")), chars("cat"));
    assert_eq!(trim_chars(&chars("\t a b \n")), chars("a b"));
    assert_eq!(trim_chars(&chars("cat")), chars("cat"));
    assert_eq!(trim_chars(&chars("   ")), chars(""));
    assert_eq!(trim_chars(&chars("")), chars(""));
}

#[test]
fn contains_char_finds_only_present_characters() {
    let v = chars("cat");
    assert!(contains_char(&v, 'c'));
    assert!(contains_char(&v, 't'));
    assert!(!contains_char(&v, 'x'));
    assert!(!contains_char(&chars(""), 'c'));
}

#[test]
fn each_life_count_selects_its_own_figure() {
    let figures: Vec<&'static str> = (0u8..=5).map(hangman_figure).collect();
    for i in 0..figures.len() {
        for j in 0..figures.len() {
            if i != j {
                assert_ne!(figures[i], figures[j]);
            }
        }
    }
    assert_eq!(
        hangman_figure(0),
        " _________\n|         |\n|         XO\n|        /|\\\n|        / \\\n|\n|"
    );
    assert_eq!(
        hangman_figure(5),
        "|\n|\n|\n|         O\n|        /|\\\n|        / \\"
    );
}

#[test]
fn each_outcome_has_its_own_status_line() {
    assert_eq!(status_message(&None), "");
    assert_eq!(
        status_message(&Some(Outcome::RepeatedCharacter)),
        "You have already tried this letter previously."
    );
    assert_eq!(
        status_message(&Some(Outcome::MultipleCharacters)),
        "Enter a single character at a time."
    );
    assert_eq!(status_message(&Some(Outcome::CorrectCharacter)), "Yay! You got one.");
    assert_eq!(status_message(&Some(Outcome::WrongCharacter)), "Uh Oh! You misguessed.");
}

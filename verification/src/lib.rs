//! A terminal word-guessing game, verified.
//!
//! The core is the game state machine: a secret word, a bounded count of
//! remaining lives, the ordered list of correctly guessed letters, and the
//! outcome of the most recent guess. Word selection, rendering helpers and
//! the laws relating the operations live in their own modules.

mod chars;
mod game;
mod laws;
mod render;
mod words;

pub use chars::contains_char;
pub use chars::is_space;
pub use chars::lower_of;
pub use chars::trim_back;
pub use chars::trim_chars;
pub use chars::trim_front;
pub use chars::trim_view;
pub use game::GameModel;
pub use game::GameState;
pub use game::Outcome;
pub use game::Phase;
pub use game::classify_model;
pub use game::lemma_step_preserves_wf;
pub use game::masked_view;
pub use game::step_model;
pub use game::wf_model;
pub use game::won_model;
pub use laws::lemma_lives_bounded_over_play;
pub use laws::lemma_lives_non_increasing_each_turn;
pub use laws::lemma_masked_round_trip;
pub use laws::lemma_no_duplicate_letters_over_play;
pub use laws::lemma_repeated_wrong_guess;
pub use laws::play_model;
pub use render::figure_view;
pub use render::hangman_figure;
pub use render::message_view;
pub use render::status_message;
pub use words::non_blank;
pub use words::pick_secret_word;

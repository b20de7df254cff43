//! Core of a keyboard-layout typing tutor: per-word progress tracking with
//! classified keystroke metrics, lesson statistics, alphabet-constrained word
//! sampling, and the QWERTY to Dvorak key remapping.

mod duration;
mod keyboard;
mod keymap;
mod lesson;
mod metrics;
mod results;
mod sampler;
mod typingtest;
mod word;

pub use duration::{Duration, NANOS_PER_MILLI, NANOS_PER_SEC};
pub use keyboard::{
    Key, KeyCell, Keyboard, KeyboardView, board_cells, cell_text, cells_text, dvorak_char,
    dvorak_rows, dvorak_twin, is_letter_key, key_cells, key_code_to_key, key_label,
    lemma_dvorak_injective, lemma_qwerty_injective, lemma_same_characters, qwerty_char,
    qwerty_twin,
};
pub use keymap::{
    KeyCode, lemma_remap_injective, lemma_remap_positional, lemma_remap_surjective,
    qwerty_to_dvorak, remap, remap_char,
};
pub use lesson::{Choice, after_results, lessons};
pub use metrics::{Metric, metrics_nanos, metrics_typos};
pub use results::{
    CHARS_PER_WORD, NANOS_PER_MINUTE, TestResults, char_total, nanos_total, totals_fit,
    typo_total,
};
pub use sampler::{SamplingExhausted, get_test_words, uses_only, uses_only_allowed};
pub use typingtest::{
    Step, TypingTest, TypingTestView, drop_chars, lemma_finished_only_grow, next, overflow_of,
    spaced,
};
pub use word::{
    CharStyle, FinishedWord, FinishedWordView, StyledChar, VISIBLE_SPACE, Word, WordView,
    lemma_replay_completes, metric_for, replay, shown, typed_cell,
};

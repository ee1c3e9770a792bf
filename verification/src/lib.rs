//! A terminal speed reader: tokenizes a text, then paces the display of one
//! token at a time at a configurable words-per-minute rate, while staying
//! responsive to live pause/resume, rate-change and quit commands.
//!
//! This crate holds the verified core: the tokenizer, the rate arithmetic,
//! the pacing state machine with its pause sub-state, the countdown and
//! layout computations, and the evaluation-prompt builder. Terminal I/O,
//! configuration files and the network call live in the surrounding binary.

mod config;
mod countdown;
mod keys;
mod labels;
mod layout;
mod numfmt;
mod prompt;
mod rate;
mod response;
mod session;
mod strutil;
mod tokenizer;

pub use config::Config;
pub use config::default_model;
pub use config::default_wpm;
pub use config::default_wpm_step;
pub use countdown::CountdownFrame;
pub use countdown::countdown_frame;
pub use countdown::spec_countdown_remaining;
pub use keys::KeyBindings;
pub use keys::PausedCommand;
pub use keys::RunningCommand;
pub use keys::default_decrease_wpm_key;
pub use keys::default_increase_wpm_key;
pub use keys::default_pause_key;
pub use keys::default_quit_key;
pub use keys::spec_paused_command;
pub use keys::spec_running_command;
pub use labels::controls_label;
pub use labels::key_name;
pub use labels::paused_message;
pub use labels::position_label;
pub use labels::spec_controls_label;
pub use labels::spec_key_name;
pub use labels::spec_paused_message;
pub use labels::spec_position_label;
pub use labels::spec_wpm_label;
pub use labels::wpm_clear_label;
pub use labels::wpm_label;
pub use layout::TextAlignment;
pub use layout::display_width;
pub use layout::spec_aligned_col;
pub use layout::text_placement;
pub use numfmt::spec_digit_char;
pub use numfmt::spec_u64_digits;
pub use numfmt::u64_to_string;
pub use prompt::create_evaluation_prompt;
pub use prompt::spec_evaluation_prompt;
pub use rate::MAX_WPM;
pub use rate::MIN_WPM;
pub use rate::clamp_wpm;
pub use rate::hold_duration_ms;
pub use rate::lemma_hold_duration_antitone;
pub use rate::lemma_hold_duration_strict;
pub use response::ApiResponse;
pub use response::ApiResponseError;
pub use response::Choice;
pub use response::Content;
pub use response::extract_ai_response;
pub use session::Event;
pub use session::Frame;
pub use session::Phase;
pub use session::ReadResult;
pub use session::Session;
pub use session::SessionModel;
pub use session::StepAction;
pub use session::lemma_adjust_marks_change;
pub use session::lemma_completed_sequence;
pub use session::lemma_pause_decrease_resume;
pub use session::lemma_pause_resume_without_rate_change;
pub use session::lemma_paused_inert_run;
pub use session::lemma_quit_immediate;
pub use session::lemma_rate_change_restarts;
pub use session::lemma_run_append;
pub use session::lemma_run_invariants;
pub use session::lemma_run_snoc;
pub use session::lemma_step_invariants;
pub use session::lemma_wpm_always_in_range;
pub use session::session_wf;
pub use session::spec_elapsed_events;
pub use session::spec_new_session;
pub use session::spec_paused_inert;
pub use session::spec_run;
pub use session::spec_step;
pub use session::spec_step_action;
pub use tokenizer::is_alphanumeric_char;
pub use tokenizer::is_whitespace_char;
pub use tokenizer::lemma_all_whitespace_empty;
pub use tokenizer::lemma_token_count;
pub use tokenizer::lemma_token_count_from;
pub use tokenizer::lemma_tokens_alphanumeric;
pub use tokenizer::lemma_word_end;
pub use tokenizer::lemma_word_end_unique;
pub use tokenizer::spec_chunk_count;
pub use tokenizer::spec_chunk_starts_from;
pub use tokenizer::spec_filter_alnum;
pub use tokenizer::spec_is_chunk_start;
pub use tokenizer::spec_tokenize;
pub use tokenizer::spec_tokenize_from;
pub use tokenizer::spec_word_end;
pub use tokenizer::tokenize_text;

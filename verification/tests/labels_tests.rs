use speedreader::Event;
use speedreader::KeyBindings;
use speedreader::Session;
use speedreader::controls_label;
use speedreader::key_name;
use speedreader::paused_message;
use speedreader::position_label;
use speedreader::u64_to_string;
use speedreader::wpm_clear_label;
use speedreader::wpm_label;

fn default_keys() -> KeyBindings {
    KeyBindings { quit: 'q', pause: ' ', increase_wpm: '+', decrease_wpm: '-' }
}

#[test]
fn u64_to_string_renders_decimal() {
    assert_eq!(u64_to_string(0), "0");
    assert_eq!(u64_to_string(7), "7");
    assert_eq!(u64_to_string(258), "258");
    assert_eq!(u64_to_string(1000), "1000");
    assert_eq!(u64_to_string(60000), "60000");
}

#[test]
fn wpm_label_text() {
    assert_eq!(wpm_label(300), "WPM: 300");
    assert_eq!(wpm_label(1000), "WPM: 1000");
}

#[test]
fn position_label_text() {
    assert_eq!(position_label(1, 4), "Word 1 / 4");
    assert_eq!(position_label(12, 120), "Word 12 / 120");
}

#[test]
fn key_names_spell_out_space() {
    assert_eq!(key_name(' '), "Spacebar");
    assert_eq!(key_name('x'), "x");
}

#[test]
fn controls_label_text() {
    assert_eq!(
        controls_label(&default_keys()),
        "Controls: Spacebar=Pause, q=Quit, +/- = Adjust WPM"
    );
    let other = KeyBindings { quit: 'Q', pause: 'p', increase_wpm: 'k', decrease_wpm: 'j' };
    assert_eq!(controls_label(&other), "Controls: p=Pause, Q=Quit, k/j = Adjust WPM");
}

#[test]
fn paused_message_text() {
    assert_eq!(paused_message(&default_keys()), "Paused. Press \"Spacebar\" to resume...");
    let other = KeyBindings { quit: 'q', pause: 'p', increase_wpm: '+', decrease_wpm: '-' };
    assert_eq!(paused_message(&other), "Paused. Press \"p\" to resume...");
}

#[test]
fn wpm_clear_label_covers_widest_indicator() {
    let clear = wpm_clear_label();
    assert_eq!(clear.len(), "WPM: 1000".len());
    assert!(clear.chars().all(|c| c == ' '));
}

#[test]
fn frame_texts_match_session_state() {
    let tokens = speedreader::tokenize_text("alpha beta gamma");
    let mut s = Session::new(tokens, 300, 5, default_keys());
    s.step(&Event::Elapsed);
    let f = s.frame();
    assert_eq!(f.wpm_text, "WPM: 300");
    assert_eq!(f.position_text, "Word 2 / 3");
    assert_eq!(f.word, "beta");
    assert_eq!(f.controls_text, "Controls: Spacebar=Pause, q=Quit, +/- = Adjust WPM");
}

use speedreader::Event;
use speedreader::KeyBindings;
use speedreader::Phase;
use speedreader::Session;
use speedreader::StepAction;
use speedreader::hold_duration_ms;
use speedreader::tokenize_text;

fn default_keys() -> KeyBindings {
    KeyBindings { quit: 'q', pause: ' ', increase_wpm: '+', decrease_wpm: '-' }
}

fn words(text: &str) -> Vec<String> {
    tokenize_text(text)
}

#[test]
fn new_session_clamps_rate() {
    let s = Session::new(words("a b"), 100, 5, default_keys());
    assert_eq!(s.wpm(), 150);
    let s = Session::new(words("a b"), 5000, 5, default_keys());
    assert_eq!(s.wpm(), 1000);
    let s = Session::new(words("a b"), 300, 5, default_keys());
    assert_eq!(s.wpm(), 300);
}

#[test]
fn empty_sequence_completes_immediately() {
    let s = Session::new(words("   "), 300, 5, default_keys());
    assert_eq!(s.phase(), Phase::Completed);
    let r = s.result();
    assert!(r.success);
    assert_eq!(r.wpm, Some(300));
}

#[test]
fn quit_while_running_cancels_with_no_rate() {
    let mut s = Session::new(words("a b c"), 300, 5, default_keys());
    assert_eq!(s.step(&Event::Elapsed), StepAction::NextToken);
    let a = s.step(&Event::Key('q'));
    assert_eq!(a, StepAction::Cancel);
    assert_eq!(s.phase(), Phase::Cancelled);
    let r = s.result();
    assert!(!r.success);
    assert_eq!(r.wpm, None);
}

#[test]
fn quit_while_paused_cancels_with_no_rate() {
    let mut s = Session::new(words("a b c"), 300, 5, default_keys());
    assert_eq!(s.step(&Event::Key(' ')), StepAction::EnterPause);
    let a = s.step(&Event::Key('q'));
    assert_eq!(a, StepAction::Cancel);
    let r = s.result();
    assert!(!r.success);
    assert_eq!(r.wpm, None);
}

#[test]
fn unbound_keys_and_other_events_are_ignored() {
    let mut s = Session::new(words("a b"), 300, 5, default_keys());
    assert_eq!(s.step(&Event::Key('z')), StepAction::Ignored);
    assert_eq!(s.step(&Event::Other), StepAction::Ignored);
    assert_eq!(s.current_index(), 0);
    assert_eq!(s.phase(), Phase::Running);
}

#[test]
fn pause_resume_without_rate_change_keeps_token() {
    let mut s = Session::new(words("a b c d"), 300, 5, default_keys());
    s.step(&Event::Elapsed);
    s.step(&Event::Elapsed);
    assert_eq!(s.current_index(), 2);
    assert_eq!(s.step(&Event::Key(' ')), StepAction::EnterPause);
    assert_eq!(s.phase(), Phase::Paused);
    assert_eq!(s.step(&Event::Key('z')), StepAction::Ignored);
    assert_eq!(s.step(&Event::Other), StepAction::Ignored);
    let a = s.step(&Event::Key(' '));
    assert_eq!(a, StepAction::ResumeContinue);
    assert_eq!(s.phase(), Phase::Running);
    assert_eq!(s.current_index(), 2);
    assert_eq!(s.wpm(), 300);
}

#[test]
fn pause_with_rate_change_restarts_from_start() {
    let mut s = Session::new(words("a b c d"), 300, 5, default_keys());
    s.step(&Event::Elapsed);
    assert_eq!(s.current_index(), 1);
    s.step(&Event::Key(' '));
    assert_eq!(s.step(&Event::Key('-')), StepAction::WpmLowered);
    assert_eq!(s.wpm(), 295);
    let a = s.step(&Event::Key(' '));
    assert_eq!(a, StepAction::RestartFromStart);
    assert_eq!(s.phase(), Phase::Running);
    assert_eq!(s.current_index(), 0);
    assert_eq!(s.wpm(), 295);
}

#[test]
fn rate_adjust_clamps_at_bounds() {
    let mut s = Session::new(words("a b"), 1000, 50, default_keys());
    s.step(&Event::Key(' '));
    assert_eq!(s.step(&Event::Key('+')), StepAction::WpmRaised);
    assert_eq!(s.wpm(), 1000);
    let mut s = Session::new(words("a b"), 150, 50, default_keys());
    s.step(&Event::Key(' '));
    assert_eq!(s.step(&Event::Key('-')), StepAction::WpmLowered);
    assert_eq!(s.wpm(), 150);
}

#[test]
fn completed_sequence_shows_each_token_in_order() {
    let mut s = Session::new(words("a b c d"), 300, 5, default_keys());
    assert_eq!(s.current_token().as_str(), "a");
    assert_eq!(s.step(&Event::Elapsed), StepAction::NextToken);
    assert_eq!(s.current_token().as_str(), "b");
    assert_eq!(s.step(&Event::Elapsed), StepAction::NextToken);
    assert_eq!(s.current_token().as_str(), "c");
    assert_eq!(s.step(&Event::Elapsed), StepAction::NextToken);
    assert_eq!(s.current_token().as_str(), "d");
    assert_eq!(s.step(&Event::Elapsed), StepAction::Complete);
    assert_eq!(s.phase(), Phase::Completed);
    let r = s.result();
    assert!(r.success);
    assert_eq!(r.wpm, Some(300));
}

#[test]
fn hold_durations_follow_rate() {
    assert_eq!(hold_duration_ms(150), 400);
    assert_eq!(hold_duration_ms(300), 200);
    assert_eq!(hold_duration_ms(600), 100);
    assert_eq!(hold_duration_ms(1000), 60);
}

#[test]
fn end_to_end_no_commands() {
    let tokens = tokenize_text("The quick brown fox");
    assert_eq!(tokens, vec!["The", "quick", "brown", "fox"]);
    let mut s = Session::new(tokens, 300, 5, default_keys());
    assert_eq!(s.hold_ms(), 200);
    let shown: Vec<String> = {
        let mut shown = Vec::new();
        shown.push(s.current_token().clone());
        while s.phase() == Phase::Running {
            if s.step(&Event::Elapsed) == StepAction::NextToken {
                shown.push(s.current_token().clone());
            }
        }
        shown
    };
    assert_eq!(shown, vec!["The", "quick", "brown", "fox"]);
    let r = s.result();
    assert!(r.success);
    assert_eq!(r.wpm, Some(300));
}

#[test]
fn end_to_end_pause_and_decrease_restarts_at_new_rate() {
    let tokens = tokenize_text("The quick brown fox");
    let mut s = Session::new(tokens, 300, 5, default_keys());
    s.step(&Event::Elapsed);
    assert_eq!(s.current_token().as_str(), "quick");
    s.step(&Event::Key(' '));
    s.step(&Event::Key('-'));
    assert_eq!(s.step(&Event::Key(' ')), StepAction::RestartFromStart);
    assert_eq!(s.current_index(), 0);
    assert_eq!(s.current_token().as_str(), "The");
    assert_eq!(s.wpm(), 295);
    assert_eq!(s.hold_ms(), 60000 / 295);
    for _ in 0..4 {
        s.step(&Event::Elapsed);
    }
    assert_eq!(s.phase(), Phase::Completed);
    assert_eq!(s.result().wpm, Some(295));
}

#[test]
fn run_script_matches_single_steps() {
    let script = vec![
        Event::Elapsed,
        Event::Key(' '),
        Event::Key('-'),
        Event::Key(' '),
        Event::Elapsed,
        Event::Elapsed,
        Event::Elapsed,
        Event::Elapsed,
    ];
    let mut scripted = Session::new(words("a b c d"), 300, 5, default_keys());
    scripted.run_script(&script);
    let mut stepped = Session::new(words("a b c d"), 300, 5, default_keys());
    for ev in &script {
        stepped.step(ev);
    }
    assert_eq!(scripted.phase(), stepped.phase());
    assert_eq!(scripted.current_index(), stepped.current_index());
    assert_eq!(scripted.wpm(), stepped.wpm());
    assert_eq!(scripted.phase(), Phase::Completed);
    assert_eq!(scripted.wpm(), 295);
}

#[test]
fn colliding_bindings_follow_dispatch_precedence() {
    let keys = KeyBindings { quit: 'x', pause: 'x', increase_wpm: '+', decrease_wpm: '-' };
    let mut s = Session::new(words("a b"), 300, 5, keys);
    assert_eq!(s.step(&Event::Key('x')), StepAction::Cancel);
    let keys = KeyBindings { quit: 'q', pause: ' ', increase_wpm: '+', decrease_wpm: '+' };
    let mut s = Session::new(words("a b"), 300, 5, keys);
    s.step(&Event::Key(' '));
    assert_eq!(s.step(&Event::Key('+')), StepAction::WpmRaised);
    assert_eq!(s.wpm(), 305);
}

use speedreader::Config;
use speedreader::CountdownFrame;
use speedreader::KeyBindings;
use speedreader::clamp_wpm;
use speedreader::countdown_frame;
use speedreader::default_model;
use speedreader::default_wpm;
use speedreader::default_wpm_step;

#[test]
fn defaults_match_reference_values() {
    assert_eq!(default_wpm(), 258);
    assert_eq!(default_wpm_step(), 5);
    assert_eq!(default_model(), "deepseek/deepseek-r1:free");
    let c = Config::default();
    assert_eq!(c.wpm, 258);
    assert_eq!(c.wpm_step, 5);
    assert_eq!(c.model, "deepseek/deepseek-r1:free");
    let k = KeyBindings::default();
    assert_eq!(k.quit, 'q');
    assert_eq!(k.pause, ' ');
    assert_eq!(k.increase_wpm, '+');
    assert_eq!(k.decrease_wpm, '-');
}

#[test]
fn from_args_without_rate_keeps_config() {
    let c = Config::default().from_args(None);
    assert_eq!(c.wpm, 258);
    assert_eq!(c.wpm_step, 5);
}

#[test]
fn from_args_clamps_requested_rate() {
    assert_eq!(Config::default().from_args(Some(50)).wpm, 150);
    assert_eq!(Config::default().from_args(Some(5000)).wpm, 1000);
    assert_eq!(Config::default().from_args(Some(300)).wpm, 300);
}

#[test]
fn clamp_wpm_bounds() {
    assert_eq!(clamp_wpm(0), 150);
    assert_eq!(clamp_wpm(150), 150);
    assert_eq!(clamp_wpm(650), 650);
    assert_eq!(clamp_wpm(1000), 1000);
    assert_eq!(clamp_wpm(u64::MAX), 1000);
}

#[test]
fn countdown_counts_down_by_elapsed_time() {
    assert_eq!(
        countdown_frame(3, 0),
        CountdownFrame { remaining: 3, show_label: true, done: false }
    );
    assert_eq!(
        countdown_frame(3, 2),
        CountdownFrame { remaining: 1, show_label: true, done: false }
    );
    assert_eq!(
        countdown_frame(3, 3),
        CountdownFrame { remaining: 0, show_label: false, done: true }
    );
    assert_eq!(
        countdown_frame(3, 10),
        CountdownFrame { remaining: 0, show_label: false, done: true }
    );
}

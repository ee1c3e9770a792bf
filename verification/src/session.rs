//! The pacing state machine.
//!
//! A [`Session`] drives the display of a token sequence one token at a time.
//! The driver loop around it owns the clock and the input source; it feeds
//! the session one [`Event`] at a time — a key press, the end of the current
//! token's hold interval, or an uninteresting input event — and performs the
//! [`StepAction`] the session answers with. All decisions live here: what a
//! key means in each phase, when the session pauses, resumes, restarts from
//! the first token, cancels, or completes.
//!
//! Resuming from a pause during which the rate was adjusted restarts playback
//! from the first token with the new rate; resuming after an untouched pause
//! continues the token that was interrupted.

use vstd::prelude::*;

use crate::keys::KeyBindings;
use crate::keys::PausedCommand;
use crate::keys::RunningCommand;
use crate::keys::spec_paused_command;
use crate::keys::spec_running_command;
use crate::labels::controls_label;
use crate::labels::paused_message;
use crate::labels::position_label;
use crate::labels::spec_controls_label;
use crate::labels::spec_paused_message;
use crate::labels::spec_position_label;
use crate::labels::spec_wpm_label;
use crate::labels::wpm_label;
use crate::rate::spec_clamp_wpm;
use crate::rate::wpm_in_range;
use crate::rate::MAX_WPM;
use crate::rate::MIN_WPM;

verus! {

/// One occurrence the driver loop reports to the session.
#[derive(Clone, Copy, Debug, PartialEq, Eq, Structural)]
pub enum Event {
    /// The current token's hold duration elapsed with no command.
    Elapsed,
    /// A key was pressed.
    Key(char),
    /// An input event of no interest (not a key press).
    Other,
}

/// Where a session stands. Running and Paused precede a terminal phase;
/// Cancelled and Completed are terminal.
#[derive(Clone, Copy, Debug, PartialEq, Eq, Structural)]
pub enum Phase {
    /// Tokens are being shown and timed.
    Running,
    /// Playback is frozen; only the pause sub-loop's commands apply.
    Paused,
    /// Quit was requested; no rate is reported.
    Cancelled,
    /// Every token was shown; the final rate is reported.
    Completed,
}

/// What the driver loop must do after a step.
#[derive(Clone, Copy, Debug, PartialEq, Eq, Structural)]
pub enum StepAction {
    /// Nothing changed; keep waiting or polling.
    Ignored,
    /// The session was cancelled; stop at once.
    Cancel,
    /// The last token's hold elapsed; the session is complete.
    Complete,
    /// Show the next token and start a fresh hold interval.
    NextToken,
    /// Show the paused message and poll at the paused cadence.
    EnterPause,
    /// The rate was raised while paused; redraw the rate indicator.
    WpmRaised,
    /// The rate was lowered while paused; clear and redraw the rate indicator.
    WpmLowered,
    /// Resume the interrupted token for the rest of its hold interval.
    ResumeContinue,
    /// The rate changed while paused; restart from the first token with a
    /// fresh frame and hold interval.
    RestartFromStart,
}

/// The terminal outcome of a session: a success flag, and on success the
/// rate in effect at completion.
#[derive(Clone, Copy, Debug, PartialEq, Eq)]
pub struct ReadResult {
    /// True when every token was shown; false when the session was cancelled.
    pub success: bool,
    /// The rate at completion; absent on cancellation.
    pub wpm: Option<u64>,
}

/// The mathematical model of a session.
pub struct SessionModel {
    /// The display tokens, in reading order.
    pub tokens: Seq<Seq<char>>,
    /// Position of the current token.
    pub index: int,
    /// The current words-per-minute rate.
    pub wpm: int,
    /// The delta applied by a rate-change command.
    pub wpm_step: int,
    /// The four command keys.
    pub keys: KeyBindings,
    /// Where the session stands.
    pub phase: Phase,
    /// Whether the rate was adjusted during the current pause.
    pub wpm_changed: bool,
}

/// A well-formed session: the position is inside the sequence while playback
/// is live, at its end once complete, and the rate is always in range.
pub open spec fn session_wf(m: SessionModel) -> bool {
    &&& 0 <= m.index <= m.tokens.len()
    &&& wpm_in_range(m.wpm)
    &&& m.wpm_step >= 0
    &&& ((m.phase is Running || m.phase is Paused) ==> m.index < m.tokens.len())
    &&& (m.phase is Completed ==> m.index == m.tokens.len())
}

/// The model a fresh session starts from: the first token, the requested
/// rate clamped into range, running — or already complete when there is
/// nothing to show.
pub open spec fn spec_new_session(
    tokens: Seq<Seq<char>>,
    wpm: int,
    wpm_step: int,
    keys: KeyBindings,
) -> SessionModel {
    SessionModel {
        tokens,
        index: 0,
        wpm: spec_clamp_wpm(wpm),
        wpm_step,
        keys,
        phase: if tokens.len() == 0 {
            Phase::Completed
        } else {
            Phase::Running
        },
        wpm_changed: false,
    }
}

/// The successor model after one event.
pub open spec fn spec_step(m: SessionModel, ev: Event) -> SessionModel {
    match m.phase {
        Phase::Running => match ev {
            Event::Key(c) => match spec_running_command(m.keys, c) {
                RunningCommand::Quit => SessionModel { phase: Phase::Cancelled, ..m },
                RunningCommand::Pause => SessionModel {
                    phase: Phase::Paused,
                    wpm_changed: false,
                    ..m
                },
                RunningCommand::Ignore => m,
            },
            Event::Elapsed => if m.index + 1 < m.tokens.len() {
                SessionModel { index: m.index + 1, ..m }
            } else {
                SessionModel { phase: Phase::Completed, index: m.tokens.len() as int, ..m }
            },
            Event::Other => m,
        },
        Phase::Paused => match ev {
            Event::Key(c) => match spec_paused_command(m.keys, c) {
                PausedCommand::IncreaseWpm => SessionModel {
                    wpm: spec_clamp_wpm(m.wpm + m.wpm_step),
                    wpm_changed: true,
                    ..m
                },
                PausedCommand::DecreaseWpm => SessionModel {
                    wpm: spec_clamp_wpm(m.wpm - m.wpm_step),
                    wpm_changed: true,
                    ..m
                },
                PausedCommand::Quit => SessionModel { phase: Phase::Cancelled, ..m },
                PausedCommand::Resume => if m.wpm_changed {
                    SessionModel { phase: Phase::Running, index: 0, ..m }
                } else {
                    SessionModel { phase: Phase::Running, ..m }
                },
                PausedCommand::Ignore => m,
            },
            _ => m,
        },
        _ => m,
    }
}

/// The action a step answers with, mirroring [`spec_step`].
pub open spec fn spec_step_action(m: SessionModel, ev: Event) -> StepAction {
    match m.phase {
        Phase::Running => match ev {
            Event::Key(c) => match spec_running_command(m.keys, c) {
                RunningCommand::Quit => StepAction::Cancel,
                RunningCommand::Pause => StepAction::EnterPause,
                RunningCommand::Ignore => StepAction::Ignored,
            },
            Event::Elapsed => if m.index + 1 < m.tokens.len() {
                StepAction::NextToken
            } else {
                StepAction::Complete
            },
            Event::Other => StepAction::Ignored,
        },
        Phase::Paused => match ev {
            Event::Key(c) => match spec_paused_command(m.keys, c) {
                PausedCommand::IncreaseWpm => StepAction::WpmRaised,
                PausedCommand::DecreaseWpm => StepAction::WpmLowered,
                PausedCommand::Quit => StepAction::Cancel,
                PausedCommand::Resume => if m.wpm_changed {
                    StepAction::RestartFromStart
                } else {
                    StepAction::ResumeContinue
                },
                PausedCommand::Ignore => StepAction::Ignored,
            },
            _ => StepAction::Ignored,
        },
        _ => StepAction::Ignored,
    }
}

/// The model after a whole sequence of events, first event first.
pub open spec fn spec_run(m: SessionModel, evs: Seq<Event>) -> SessionModel
    decreases evs.len(),
{
    if evs.len() == 0 {
        m
    } else {
        spec_run(spec_step(m, evs[0]), evs.drop_first())
    }
}

/// One step never touches the token sequence, the step size or the
/// bindings, and keeps the session well formed.
pub proof fn lemma_step_invariants(m: SessionModel, ev: Event)
    requires
        session_wf(m),
    ensures
        session_wf(spec_step(m, ev)),
        spec_step(m, ev).tokens == m.tokens,
        spec_step(m, ev).wpm_step == m.wpm_step,
        spec_step(m, ev).keys == m.keys,
{
}

/// A run of events never touches the token sequence, the step size or the
/// bindings, and keeps the session well formed.
pub proof fn lemma_run_invariants(m: SessionModel, evs: Seq<Event>)
    requires
        session_wf(m),
    ensures
        session_wf(spec_run(m, evs)),
        spec_run(m, evs).tokens == m.tokens,
        spec_run(m, evs).wpm_step == m.wpm_step,
        spec_run(m, evs).keys == m.keys,
    decreases evs.len(),
{
    if evs.len() > 0 {
        lemma_step_invariants(m, evs[0]);
        lemma_run_invariants(spec_step(m, evs[0]), evs.drop_first());
    }
}

/// However many commands arrive, the rate never leaves its range.
pub proof fn lemma_wpm_always_in_range(m: SessionModel, evs: Seq<Event>)
    requires
        session_wf(m),
    ensures
        MIN_WPM as int <= spec_run(m, evs).wpm <= MAX_WPM as int,
{
    lemma_run_invariants(m, evs);
}

/// Appending one event to a run is one more step at its end.
pub proof fn lemma_run_snoc(m: SessionModel, evs: Seq<Event>, ev: Event)
    ensures
        spec_run(m, evs.push(ev)) == spec_step(spec_run(m, evs), ev),
    decreases evs.len(),
{
    reveal_with_fuel(spec_run, 3);
    if evs.len() == 0 {
        assert(evs.push(ev)[0] == ev);
        assert(evs.push(ev).drop_first() =~= Seq::<Event>::empty());
    } else {
        assert(evs.push(ev)[0] == evs[0]);
        assert(evs.push(ev).drop_first() =~= evs.drop_first().push(ev));
        lemma_run_snoc(spec_step(m, evs[0]), evs.drop_first(), ev);
    }
}

/// The four texts of one playback frame: rate top-left, position top-right,
/// the token centered, the control legend at the bottom.
pub struct Frame {
    /// The rate indicator.
    pub wpm_text: String,
    /// The one-based `current / total` position indicator.
    pub position_text: String,
    /// The token on display.
    pub word: String,
    /// The legend listing the active bindings.
    pub controls_text: String,
}

/// The executable pacing state machine.
pub struct Session {
    tokens: Vec<String>,
    index: usize,
    wpm: u64,
    wpm_step: u64,
    keys: KeyBindings,
    phase: Phase,
    wpm_changed: bool,
}

impl View for Session {
    type V = SessionModel;

    closed spec fn view(&self) -> SessionModel {
        SessionModel {
            tokens: self.tokens.deep_view(),
            index: self.index as int,
            wpm: self.wpm as int,
            wpm_step: self.wpm_step as int,
            keys: self.keys,
            phase: self.phase,
            wpm_changed: self.wpm_changed,
        }
    }
}

impl Session {
    /// Start a session over the given tokens: position at the first token,
    /// the requested rate clamped into range, running — or already complete
    /// when the sequence is empty.
    pub fn new(tokens: Vec<String>, wpm: u64, wpm_step: u64, keys: KeyBindings) -> (s: Session)
        ensures
            s@ == spec_new_session(tokens.deep_view(), wpm as int, wpm_step as int, keys),
            session_wf(s@),
    {
        let clamped = crate::rate::clamp_wpm(wpm);
        let phase = if tokens.len() == 0 {
            Phase::Completed
        } else {
            Phase::Running
        };
        proof {
            assert(tokens.deep_view().len() == tokens@.len());
        }
        Session { tokens, index: 0, wpm: clamped, wpm_step, keys, phase, wpm_changed: false }
    }

    /// Feed one event to the session and learn what the driver must do.
    pub fn step(&mut self, ev: &Event) -> (a: StepAction)
        requires
            session_wf(old(self)@),
        ensures
            final(self)@ == spec_step(old(self)@, *ev),
            a == spec_step_action(old(self)@, *ev),
            session_wf(final(self)@),
    {
        match self.phase {
            Phase::Running => match ev {
                Event::Key(c) => match self.keys.running_command(*c) {
                    RunningCommand::Quit => {
                        self.phase = Phase::Cancelled;
                        StepAction::Cancel
                    },
                    RunningCommand::Pause => {
                        self.phase = Phase::Paused;
                        self.wpm_changed = false;
                        StepAction::EnterPause
                    },
                    RunningCommand::Ignore => StepAction::Ignored,
                },
                Event::Elapsed => {
                    let n = self.tokens.len();
                    proof {
                        assert(self@.index < self@.tokens.len());
                        assert(self@.tokens.len() == self.tokens@.len());
                    }
                    if self.index + 1 < n {
                        self.index = self.index + 1;
                        StepAction::NextToken
                    } else {
                        self.phase = Phase::Completed;
                        self.index = n;
                        StepAction::Complete
                    }
                },
                Event::Other => StepAction::Ignored,
            },
            Phase::Paused => match ev {
                Event::Key(c) => match self.keys.paused_command(*c) {
                    PausedCommand::IncreaseWpm => {
                        self.wpm = if self.wpm_step >= MAX_WPM - self.wpm {
                            MAX_WPM
                        } else {
                            self.wpm + self.wpm_step
                        };
                        self.wpm_changed = true;
                        StepAction::WpmRaised
                    },
                    PausedCommand::DecreaseWpm => {
                        self.wpm = if self.wpm_step >= self.wpm - MIN_WPM {
                            MIN_WPM
                        } else {
                            self.wpm - self.wpm_step
                        };
                        self.wpm_changed = true;
                        StepAction::WpmLowered
                    },
                    PausedCommand::Quit => {
                        self.phase = Phase::Cancelled;
                        StepAction::Cancel
                    },
                    PausedCommand::Resume => {
                        self.phase = Phase::Running;
                        if self.wpm_changed {
                            self.index = 0;
                            StepAction::RestartFromStart
                        } else {
                            StepAction::ResumeContinue
                        }
                    },
                    PausedCommand::Ignore => StepAction::Ignored,
                },
                _ => StepAction::Ignored,
            },
            _ => StepAction::Ignored,
        }
    }

    /// Feed a whole script of events in order.
    pub fn run_script(&mut self, events: &Vec<Event>)
        requires
            session_wf(old(self)@),
        ensures
            final(self)@ == spec_run(old(self)@, events@),
            session_wf(final(self)@),
    {
        let n = events.len();
        let mut i: usize = 0;
        while i < n
            invariant
                n == events@.len(),
                i <= n,
                session_wf(self@),
                self@ == spec_run(old(self)@, events@.subrange(0, i as int)),
            decreases n - i,
        {
            proof {
                lemma_run_snoc(old(self)@, events@.subrange(0, i as int), events@[i as int]);
                assert(events@.subrange(0, i as int).push(events@[i as int]) =~= events@.subrange(
                    0,
                    i as int + 1,
                ));
            }
            self.step(&events[i]);
            i = i + 1;
        }
        proof {
            assert(events@.subrange(0, n as int) =~= events@);
        }
    }

    /// Where the session stands.
    pub fn phase(&self) -> (p: Phase)
        ensures
            p == self@.phase,
    {
        self.phase
    }

    /// The current words-per-minute rate.
    pub fn wpm(&self) -> (w: u64)
        ensures
            w as int == self@.wpm,
    {
        self.wpm
    }

    /// The position of the current token.
    pub fn current_index(&self) -> (i: usize)
        ensures
            i as int == self@.index,
    {
        self.index
    }

    /// How many tokens the session shows in all.
    pub fn token_count(&self) -> (n: usize)
        ensures
            n as int == self@.tokens.len(),
    {
        self.tokens.len()
    }

    /// The token currently on display.
    pub fn current_token(&self) -> (t: &String)
        requires
            0 <= self@.index < self@.tokens.len(),
        ensures
            t@ == self@.tokens[self@.index],
    {
        &self.tokens[self.index]
    }

    /// How long the current token stays visible, in milliseconds.
    pub fn hold_ms(&self) -> (d: u64)
        requires
            session_wf(self@),
        ensures
            d as int == crate::rate::spec_hold_duration_ms(self@.wpm),
    {
        crate::rate::hold_duration_ms(self.wpm)
    }

    /// The four texts of the current frame: the rate indicator, the
    /// one-based position indicator, the token itself, and the control
    /// legend.
    pub fn frame(&self) -> (f: Frame)
        requires
            session_wf(self@),
            self@.phase is Running || self@.phase is Paused,
        ensures
            f.wpm_text@ == spec_wpm_label(self@.wpm),
            f.position_text@ == spec_position_label(self@.index + 1, self@.tokens.len() as int),
            f.word@ == self@.tokens[self@.index],
            f.controls_text@ == spec_controls_label(self@.keys),
    {
        let total = self.tokens.len();
        Frame {
            wpm_text: wpm_label(self.wpm),
            position_text: position_label((self.index as u64) + 1, total as u64),
            word: self.tokens[self.index].clone(),
            controls_text: controls_label(&self.keys),
        }
    }

    /// The message shown once on entering the pause sub-state.
    pub fn paused_text(&self) -> (s: String)
        ensures
            s@ == spec_paused_message(self@.keys),
    {
        paused_message(&self.keys)
    }

    /// The terminal outcome: cancellation reports no rate; completion
    /// reports the rate in effect when the last hold elapsed.
    pub fn result(&self) -> (r: ReadResult)
        requires
            session_wf(self@),
            self@.phase is Cancelled || self@.phase is Completed,
        ensures
            r.success == (self@.phase is Completed),
            r.wpm == (if self@.phase is Completed {
                Some(self@.wpm as u64)
            } else {
                None::<u64>
            }),
    {
        match self.phase {
            Phase::Completed => ReadResult { success: true, wpm: Some(self.wpm) },
            _ => ReadResult { success: false, wpm: None },
        }
    }
}

/// Running two scripts in turn is running their concatenation.
pub proof fn lemma_run_append(m: SessionModel, evs1: Seq<Event>, evs2: Seq<Event>)
    ensures
        spec_run(m, evs1 + evs2) == spec_run(spec_run(m, evs1), evs2),
    decreases evs1.len(),
{
    if evs1.len() == 0 {
        assert(evs1 + evs2 =~= evs2);
    } else {
        assert((evs1 + evs2)[0] == evs1[0]);
        assert((evs1 + evs2).drop_first() =~= evs1.drop_first() + evs2);
        lemma_run_append(spec_step(m, evs1[0]), evs1.drop_first(), evs2);
    }
}

/// An event that leaves a paused session exactly as it is: an elapsed
/// notice, a non-key event, or a key bound to no paused command.
pub open spec fn spec_paused_inert(keys: KeyBindings, ev: Event) -> bool {
    match ev {
        Event::Key(c) => spec_paused_command(keys, c) is Ignore,
        _ => true,
    }
}

/// While paused, inert events change nothing at all.
pub proof fn lemma_paused_inert_run(m: SessionModel, evs: Seq<Event>)
    requires
        m.phase is Paused,
        forall|i: int| 0 <= i < evs.len() ==> spec_paused_inert(m.keys, evs[i]),
    ensures
        spec_run(m, evs) == m,
    decreases evs.len(),
{
    if evs.len() > 0 {
        assert(spec_paused_inert(m.keys, evs[0]));
        assert(spec_step(m, evs[0]) == m);
        lemma_paused_inert_run(m, evs.drop_first());
    }
}

/// Quit-immediacy: pressing the quit key cancels the session at once,
/// running or paused. (While paused a quit key that doubles as a
/// rate-change key is dispatched as the rate change instead, so those
/// collisions are excluded.)
pub proof fn lemma_quit_immediate(m: SessionModel)
    requires
        session_wf(m),
        m.phase is Running || m.phase is Paused,
        m.phase is Paused ==> m.keys.quit != m.keys.increase_wpm && m.keys.quit
            != m.keys.decrease_wpm,
    ensures
        spec_step(m, Event::Key(m.keys.quit)).phase is Cancelled,
        spec_step_action(m, Event::Key(m.keys.quit)) == StepAction::Cancel,
{
}

/// Pause and resume without touching the rate keys: the session comes back
/// running on the very token it was interrupted at, with the same rate.
/// The pause key must not double as another command's key, or the press
/// would be dispatched as that command instead.
pub proof fn lemma_pause_resume_without_rate_change(m: SessionModel, evs: Seq<Event>)
    requires
        session_wf(m),
        m.phase is Running,
        spec_paused_command(m.keys, m.keys.pause) is Resume,
        forall|i: int| 0 <= i < evs.len() ==> spec_paused_inert(m.keys, evs[i]),
    ensures
        ({
            let end = spec_run(
                m,
                seq![Event::Key(m.keys.pause)] + evs + seq![Event::Key(m.keys.pause)],
            );
            &&& end.phase is Running
            &&& end.index == m.index
            &&& end.wpm == m.wpm
            &&& end.tokens == m.tokens
        }),
{
    reveal_with_fuel(spec_run, 2);
    let pause_ev = Event::Key(m.keys.pause);
    let paused = spec_step(m, pause_ev);
    assert(seq![pause_ev][0] == pause_ev);
    assert(spec_running_command(m.keys, m.keys.pause) is Pause);
    assert(paused.phase is Paused && !paused.wpm_changed && paused.index == m.index);
    assert(seq![pause_ev].drop_first() =~= Seq::<Event>::empty());
    assert(spec_run(m, seq![pause_ev]) == paused);
    lemma_run_append(m, seq![pause_ev], evs + seq![pause_ev]);
    assert((seq![pause_ev] + (evs + seq![pause_ev])) =~= (seq![pause_ev] + evs + seq![pause_ev]));
    lemma_run_append(paused, evs, seq![pause_ev]);
    lemma_paused_inert_run(paused, evs);
    let resumed = spec_step(paused, pause_ev);
    assert(seq![pause_ev].drop_first() =~= Seq::<Event>::empty());
    assert(spec_run(paused, seq![pause_ev]) == resumed);
    assert(resumed.phase is Running && resumed.index == m.index && resumed.wpm == m.wpm);
}

/// A rate adjustment while paused marks the pause as rate-changing and
/// clamps the new rate into range. (A decrease key that doubles as the
/// increase key is dispatched as an increase, so that collision is
/// excluded for the decrease clause.)
pub proof fn lemma_adjust_marks_change(m: SessionModel)
    requires
        session_wf(m),
        m.phase is Paused,
    ensures
        ({
            let up = spec_step(m, Event::Key(m.keys.increase_wpm));
            &&& up.wpm_changed
            &&& up.wpm == spec_clamp_wpm(m.wpm + m.wpm_step)
            &&& up.wpm <= MAX_WPM as int
            &&& up.phase is Paused
        }),
        m.keys.decrease_wpm != m.keys.increase_wpm ==> ({
            let down = spec_step(m, Event::Key(m.keys.decrease_wpm));
            &&& down.wpm_changed
            &&& down.wpm == spec_clamp_wpm(m.wpm - m.wpm_step)
            &&& down.wpm >= MIN_WPM as int
            &&& down.phase is Paused
        }),
{
}

/// Resuming a pause during which the rate was adjusted restarts playback
/// from the first token, keeping the adjusted rate.
pub proof fn lemma_rate_change_restarts(m: SessionModel)
    requires
        session_wf(m),
        m.phase is Paused,
        m.wpm_changed,
        spec_paused_command(m.keys, m.keys.pause) is Resume,
    ensures
        ({
            let r = spec_step(m, Event::Key(m.keys.pause));
            &&& r.phase is Running
            &&& r.index == 0
            &&& r.wpm == m.wpm
        }),
        spec_step_action(m, Event::Key(m.keys.pause)) == StepAction::RestartFromStart,
{
}

/// Pausing, lowering the rate once, and resuming: playback restarts at the
/// first token with the rate lowered by one clamped step.
pub proof fn lemma_pause_decrease_resume(m: SessionModel)
    requires
        session_wf(m),
        m.phase is Running,
        spec_paused_command(m.keys, m.keys.pause) is Resume,
        m.keys.decrease_wpm != m.keys.increase_wpm,
    ensures
        ({
            let end = spec_run(
                m,
                seq![
                    Event::Key(m.keys.pause),
                    Event::Key(m.keys.decrease_wpm),
                    Event::Key(m.keys.pause),
                ],
            );
            &&& end.phase is Running
            &&& end.index == 0
            &&& end.wpm == spec_clamp_wpm(m.wpm - m.wpm_step)
        }),
{
    let script = seq![
        Event::Key(m.keys.pause),
        Event::Key(m.keys.decrease_wpm),
        Event::Key(m.keys.pause),
    ];
    reveal_with_fuel(spec_run, 4);
    assert(script.drop_first() =~= seq![Event::Key(m.keys.decrease_wpm), Event::Key(m.keys.pause)]);
    assert(script.drop_first().drop_first() =~= seq![Event::Key(m.keys.pause)]);
    assert(script.drop_first().drop_first().drop_first() =~= Seq::<Event>::empty());
    let paused = spec_step(m, script[0]);
    assert(paused.phase is Paused);
    lemma_adjust_marks_change(paused);
    let lowered = spec_step(paused, Event::Key(m.keys.decrease_wpm));
    lemma_rate_change_restarts(lowered);
}

/// The sequence of hold-elapsed events with nothing pressed in between.
pub open spec fn spec_elapsed_events(n: nat) -> Seq<Event> {
    Seq::new(n, |i: int| Event::Elapsed)
}

/// Completed sequence: from a running session, each elapsed hold advances
/// to the next token in order, and when the last token's hold has elapsed
/// the session is complete with the rate it was running at.
pub proof fn lemma_completed_sequence(m: SessionModel)
    requires
        session_wf(m),
        m.phase is Running,
    ensures
        forall|j: int|
            0 <= j < m.tokens.len() - m.index ==> {
                let mid = #[trigger] spec_run(m, spec_elapsed_events(j as nat));
                &&& mid.phase is Running
                &&& mid.index == m.index + j
                &&& mid.wpm == m.wpm
            },
        ({
            let end = spec_run(m, spec_elapsed_events((m.tokens.len() - m.index) as nat));
            &&& end.phase is Completed
            &&& end.wpm == m.wpm
        }),
    decreases m.tokens.len() - m.index,
{
    assert(spec_elapsed_events(0) =~= Seq::<Event>::empty());
    let stepped = spec_step(m, Event::Elapsed);
    assert forall|j: int| 0 <= j <= m.tokens.len() - m.index implies #[trigger] spec_run(
        m,
        spec_elapsed_events(j as nat),
    ) == (if j == 0 {
        m
    } else {
        spec_run(stepped, spec_elapsed_events((j - 1) as nat))
    }) by {
        if j > 0 {
            assert(spec_elapsed_events(j as nat)[0] == Event::Elapsed);
            assert(spec_elapsed_events(j as nat).drop_first() =~= spec_elapsed_events(
                (j - 1) as nat,
            ));
        }
    }
    if m.index + 1 < m.tokens.len() {
        lemma_completed_sequence(stepped);
    } else {
        assert(stepped.phase is Completed && stepped.wpm == m.wpm);
        assert(spec_run(m, spec_elapsed_events(1)) == spec_run(
            stepped,
            spec_elapsed_events(0),
        ));
    }
}

} // verus!

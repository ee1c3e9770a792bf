//! Key bindings and command classification.
//!
//! Four single-character commands drive a session: quit, pause/resume,
//! increase rate and decrease rate. The bindings are fixed before playback
//! starts. Distinctness is not enforced; when bindings collide, dispatch
//! precedence decides. While running, quit is checked before pause. While
//! paused, the order is increase, decrease, quit, pause.

use vstd::prelude::*;

verus! {

/// The four configurable command keys of a session.
#[derive(Clone, Copy, Debug, PartialEq, Eq, Structural)]
pub struct KeyBindings {
    /// Key that cancels the session.
    pub quit: char,
    /// Key that pauses a running session and resumes a paused one.
    pub pause: char,
    /// Key that raises the rate while paused.
    pub increase_wpm: char,
    /// Key that lowers the rate while paused.
    pub decrease_wpm: char,
}

/// Default key that cancels the session.
pub fn default_quit_key() -> (c: char)
    ensures
        c == 'q',
{
    'q'
}

/// Default key that pauses and resumes.
pub fn default_pause_key() -> (c: char)
    ensures
        c == ' ',
{
    ' '
}

/// Default key that raises the rate.
pub fn default_increase_wpm_key() -> (c: char)
    ensures
        c == '+',
{
    '+'
}

/// Default key that lowers the rate.
pub fn default_decrease_wpm_key() -> (c: char)
    ensures
        c == '-',
{
    '-'
}

impl Default for KeyBindings {
    /// The default bindings: `q` to quit, space to pause or resume,
    /// `+` and `-` to adjust the rate.
    fn default() -> (k: KeyBindings)
        ensures
            k == (KeyBindings { quit: 'q', pause: ' ', increase_wpm: '+', decrease_wpm: '-' }),
    {
        KeyBindings {
            quit: default_quit_key(),
            pause: default_pause_key(),
            increase_wpm: default_increase_wpm_key(),
            decrease_wpm: default_decrease_wpm_key(),
        }
    }
}

/// What a key press means while the pacing loop is running.
#[derive(Clone, Copy, Debug, PartialEq, Eq, Structural)]
pub enum RunningCommand {
    /// Cancel the session.
    Quit,
    /// Enter the pause sub-state.
    Pause,
    /// Not a bound key: ignored.
    Ignore,
}

/// What a key press means while the session is paused.
#[derive(Clone, Copy, Debug, PartialEq, Eq, Structural)]
pub enum PausedCommand {
    /// Raise the rate by the configured step.
    IncreaseWpm,
    /// Lower the rate by the configured step.
    DecreaseWpm,
    /// Cancel the session.
    Quit,
    /// Leave the pause sub-state.
    Resume,
    /// Not a bound key: ignored.
    Ignore,
}

/// Dispatch of a key while running: quit is checked first, then pause.
pub open spec fn spec_running_command(keys: KeyBindings, c: char) -> RunningCommand {
    if c == keys.quit {
        RunningCommand::Quit
    } else if c == keys.pause {
        RunningCommand::Pause
    } else {
        RunningCommand::Ignore
    }
}

/// Dispatch of a key while paused: increase first, then decrease, quit, pause.
pub open spec fn spec_paused_command(keys: KeyBindings, c: char) -> PausedCommand {
    if c == keys.increase_wpm {
        PausedCommand::IncreaseWpm
    } else if c == keys.decrease_wpm {
        PausedCommand::DecreaseWpm
    } else if c == keys.quit {
        PausedCommand::Quit
    } else if c == keys.pause {
        PausedCommand::Resume
    } else {
        PausedCommand::Ignore
    }
}

impl KeyBindings {
    /// Classify a key pressed while the pacing loop is running.
    pub fn running_command(&self, c: char) -> (cmd: RunningCommand)
        ensures
            cmd == spec_running_command(*self, c),
    {
        if c == self.quit {
            RunningCommand::Quit
        } else if c == self.pause {
            RunningCommand::Pause
        } else {
            RunningCommand::Ignore
        }
    }

    /// Classify a key pressed while the session is paused.
    pub fn paused_command(&self, c: char) -> (cmd: PausedCommand)
        ensures
            cmd == spec_paused_command(*self, c),
    {
        if c == self.increase_wpm {
            PausedCommand::IncreaseWpm
        } else if c == self.decrease_wpm {
            PausedCommand::DecreaseWpm
        } else if c == self.quit {
            PausedCommand::Quit
        } else if c == self.pause {
            PausedCommand::Resume
        } else {
            PausedCommand::Ignore
        }
    }
}

} // verus!

//! Session configuration: rate, step size, evaluation model and key
//! bindings, with their defaults and the command-line rate override.
//!
//! Loading and saving the configuration file is the surrounding binary's
//! work; it hands a loaded configuration in and takes one to persist out.

use vstd::prelude::*;

use crate::keys::KeyBindings;
use crate::rate::spec_clamp_wpm;
use crate::rate::wpm_in_range;

verus! {

/// One session's configuration.
#[derive(Clone, Debug)]
pub struct Config {
    /// Words shown per minute.
    pub wpm: u64,
    /// Delta applied by a rate-change command.
    pub wpm_step: u64,
    /// Model named in the evaluation request.
    pub model: String,
    /// The four command keys.
    pub keys: KeyBindings,
}

/// Default words-per-minute rate.
pub fn default_wpm() -> (r: u64)
    ensures
        r == 258,
{
    258
}

/// Default rate-change step.
pub fn default_wpm_step() -> (r: u64)
    ensures
        r == 5,
{
    5
}

/// Default model named in the evaluation request.
pub fn default_model() -> (s: String)
    ensures
        s@ == "deepseek/deepseek-r1:free"@,
{
    "deepseek/deepseek-r1:free".to_owned()
}

impl Default for Config {
    /// The default configuration: 258 words per minute, step 5, the default
    /// model and the default bindings.
    fn default() -> (c: Config)
        ensures
            c.wpm == 258,
            c.wpm_step == 5,
            c.model@ == "deepseek/deepseek-r1:free"@,
            c.keys == (KeyBindings { quit: 'q', pause: ' ', increase_wpm: '+', decrease_wpm: '-' }),
    {
        Config {
            wpm: default_wpm(),
            wpm_step: default_wpm_step(),
            model: default_model(),
            keys: KeyBindings::default(),
        }
    }
}

impl Config {
    /// Apply the command-line rate override to a loaded configuration: a
    /// requested rate is clamped into range; without one the configuration
    /// stands unchanged.
    pub fn from_args(self, wpm_arg: Option<u64>) -> (c: Config)
        ensures
            c.wpm as int == (match wpm_arg {
                Some(w) => spec_clamp_wpm(w as int),
                None => self.wpm as int,
            }),
            wpm_arg is Some ==> wpm_in_range(c.wpm as int),
            c.wpm_step == self.wpm_step,
            c.model@ == self.model@,
            c.keys == self.keys,
    {
        match wpm_arg {
            Some(w) => Config { wpm: crate::rate::clamp_wpm(w), ..self },
            None => self,
        }
    }
}

} // verus!

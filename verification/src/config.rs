//! # Configuration Module
//!
//! The settings that a mode is created from: which text to draw words from,
//! how many words a timed session keeps ready, and the mode with its
//! parameter.

use crate::app::modes::Mode;
use vstd::prelude::*;

verus! {

/// The configuration of the application.
pub struct Config {
    /// What a session starts with.
    pub defaults: Defaults,
}

/// What a session starts with unless the command line says otherwise.
pub struct Defaults {
    /// The identifier of the text to draw words from.
    pub text: String,
    /// The number of words that a timed session keeps ready.
    pub words: u16,
    /// The mode to start in, with its parameter.
    pub mode: Mode,
}

impl Default for Defaults {
    fn default() -> (defaults: Self)
        ensures
            defaults.text@ == "lorem"@,
            defaults.words == 100,
            defaults.mode == (Mode::Clock { duration: 30 }),
    {
        Defaults { text: default_text(), words: default_word_count(), mode: Mode::default() }
    }
}

impl Default for Config {
    fn default() -> (config: Self)
        ensures
            config.defaults.text@ == "lorem"@,
            config.defaults.words == 100,
            config.defaults.mode == (Mode::Clock { duration: 30 }),
    {
        Config { defaults: Defaults::default() }
    }
}

/// The text that words are drawn from when none is configured.
pub fn default_text() -> (text: String)
    ensures
        text@ == "lorem"@,
{
    "lorem".to_owned()
}

/// The number of words that a timed session keeps ready when none is
/// configured.
pub fn default_word_count() -> (count: u16)
    ensures
        count == 100,
{
    100
}

} // verus!

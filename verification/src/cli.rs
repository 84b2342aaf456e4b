//! # Command Line Interface Module
//!
//! The command-line arguments of the application as plain values, and the
//! logic that merges them into a configuration.

use crate::app::modes::{spec_mode_from_string, Mode};
use crate::config::Config;
use vstd::prelude::*;

verus! {

/// The arguments of the command line.
pub struct Args {
    /// The text to get the words from
    pub text: Option<String>,
    /// The game mode to use
    pub mode: Option<String>,
    /// The duration of the test [modes: clock]
    pub duration: Option<u64>,
    /// The number of words the test includes [modes: words]
    pub words: Option<usize>,
    /// Read config from file
    pub config: Option<String>,
    /// Save config, applies overrides provided by other arguments
    pub save_config: bool,
    /// Use default settings
    pub defaults: bool,
}

/// The mode of a configuration after the overrides: a mode that is named
/// and known replaces the configured one, and then a duration or a number of
/// words replaces the parameter of the mode it is meant for.
pub open spec fn overridden_mode(
    configured: Mode,
    name: Option<Seq<char>>,
    duration: Option<u64>,
    words: Option<usize>,
) -> Mode {
    let chosen = match name {
        Some(name) => match spec_mode_from_string(name) {
            Some(mode) => mode,
            None => configured,
        },
        None => configured,
    };
    match chosen {
        Mode::Clock { duration: configured_duration } => match duration {
            Some(seconds) => Mode::Clock { duration: seconds },
            None => chosen,
        },
        Mode::Words { count } => match words {
            Some(number) => Mode::Words { count: number },
            None => chosen,
        },
        Mode::Zen => chosen,
    }
}

impl Args {
    /// The name of the mode to use, as a sequence of characters.
    pub open spec fn mode_name(&self) -> Option<Seq<char>> {
        match self.mode {
            Some(name) => Some(name@),
            None => None,
        }
    }

    /// Resolves the final application configuration from what was loaded:
    /// the configuration that was read, or the default one if none could
    /// be, with the overrides of the command line applied.
    pub fn get_config(&self, loaded: Option<Config>) -> (config: Config)
        ensures
            config.defaults.text@ == (match self.text {
                Some(text) => text@,
                None => match loaded {
                    Some(loaded) => loaded.defaults.text@,
                    None => "lorem"@,
                },
            }),
            config.defaults.words == (match loaded {
                Some(loaded) => loaded.defaults.words,
                None => 100,
            }),
            config.defaults.mode == overridden_mode(
                match loaded {
                    Some(loaded) => loaded.defaults.mode,
                    None => Mode::Clock { duration: 30 },
                },
                self.mode_name(),
                self.duration,
                self.words,
            ),
    {
        let mut config = match loaded {
            Some(config) => config,
            None => Config::default(),
        };
        self.apply_config_overrides(&mut config);
        config
    }

    /// Returns true if the user requested to save the current configuration.
    pub fn should_save(&self) -> (save: bool)
        ensures
            save == self.save_config,
    {
        self.save_config
    }

    /// Returns true if the user requested to ignore config files and use defaults.
    pub fn use_defaults(&self) -> (defaults: bool)
        ensures
            defaults == self.defaults,
    {
        self.defaults
    }

    /// Merges CLI overrides into the provided configuration.
    pub fn apply_config_overrides(&self, config: &mut Config)
        ensures
            final(config).defaults.text@ == (match self.text {
                Some(text) => text@,
                None => old(config).defaults.text@,
            }),
            final(config).defaults.words == old(config).defaults.words,
            final(config).defaults.mode == overridden_mode(
                old(config).defaults.mode,
                self.mode_name(),
                self.duration,
                self.words,
            ),
    {
        if let Some(text) = &self.text {
            config.defaults.text = text.clone();
        }
        if let Some(mode_name) = &self.mode {
            if let Some(new_mode) = Mode::from_string(mode_name.as_str()) {
                config.defaults.mode = new_mode;
            }
        }
        if let Some(new_duration) = self.duration {
            if let Mode::Clock { duration } = config.defaults.mode {
                config.defaults.mode = Mode::Clock { duration: new_duration };
            }
        }
        if let Some(word_count) = self.words {
            if let Mode::Words { count } = config.defaults.mode {
                config.defaults.mode = Mode::Words { count: word_count };
            }
        }
    }
}

} // verus!

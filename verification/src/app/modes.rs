//! # Game Modes Module
//!
//! The session modes and what they share: the word buffer that a session
//! edits, the session clock, the option editor and the scoring rules.

pub mod clock;
pub mod diff;
pub mod options;
pub mod session;
pub mod stats;
pub mod text;
pub mod typing;
pub mod util;
pub mod words;
pub mod zen;

use crate::app::events::{Action, Direction, Key};
use crate::app::modes::clock::{fresh_clock, Clock, ClockView};
use crate::app::modes::diff::spec_diff;
use crate::app::modes::options::{
    after_adjust, after_navigate, after_select, effect_of_editing_key, effect_of_select,
    item_views, option_count_of, spec_menu, spec_mode_name, EditorView, Effect, ItemView,
    OptionItem,
};
use crate::app::modes::session::{finished_at, not_before_start, session_length, SessionClock};
use crate::app::modes::stats::{spec_calculate, GameStats};
use crate::app::modes::text::{str_eq, word_views};
use crate::app::modes::util::{
    action_of_effect, reading_in_order, spec_series, WpmSample,
};
use crate::app::modes::words::{fresh_words, Words, WordsView};
use crate::app::modes::zen::{
    fresh_zen, zen_after_key, zen_cells, zen_duration, zen_progress, zen_reading_in_order,
    zen_series, zen_stats, zen_wf, Zen, ZenView,
};
use crate::app::time::Timestamp;
use crate::app::ui::chars::StyledChar;
use crate::config::Config;
use vstd::prelude::*;

verus! {

/// Which mode to play, with the parameter of that mode: the time limit of a
/// timed session in seconds, or the number of words of a counted one.
///
/// This is the description of a mode that a configuration holds; a mode is
/// created from it.
#[derive(Clone, Copy, Debug, PartialEq, Eq, Structural)]
pub enum Mode {
    Clock { duration: u64 },
    Words { count: usize },
    Zen,
}

/// The mode that a name stands for, with its default parameter.
pub open spec fn spec_mode_from_string(name: Seq<char>) -> Option<Mode> {
    if name == "clock"@ {
        Some(Mode::Clock { duration: 30 })
    } else if name == "words"@ {
        Some(Mode::Words { count: 50 })
    } else if name == "zen"@ {
        Some(Mode::Zen)
    } else {
        None
    }
}

impl Mode {
    /// The mode that a name stands for, with its default parameter; `None`
    /// for a name that is not a mode's.
    pub fn from_string(mode: &str) -> (found: Option<Self>)
        ensures
            found == spec_mode_from_string(mode@),
    {
        if str_eq(mode, "clock") {
            Some(Mode::Clock { duration: default_clock_duration() })
        } else if str_eq(mode, "words") {
            Some(Mode::Words { count: default_words_count() })
        } else if str_eq(mode, "zen") {
            Some(Mode::Zen)
        } else {
            None
        }
    }
}

impl Default for Mode {
    fn default() -> (mode: Self)
        ensures
            mode == (Mode::Clock { duration: 30 }),
    {
        Mode::Clock { duration: default_clock_duration() }
    }
}

/// The time limit of a timed session when none is configured, in seconds.
pub fn default_clock_duration() -> (seconds: u64)
    ensures
        seconds == 30,
{
    30
}

/// The length of a counted session when none is configured, in words.
pub fn default_words_count() -> (count: usize)
    ensures
        count == 50,
{
    50
}

/// The active session: one of the modes, with its whole state. Switching
/// modes replaces the value; nothing of the old session is kept.
pub enum GameMode {
    Clock(Clock),
    Words(Words),
    Zen(Zen),
}

/// What a [`GameMode`] holds, as plain values.
pub enum GameModeView {
    Clock(ClockView),
    Words(WordsView),
    Zen(ZenView),
}

impl View for GameMode {
    type V = GameModeView;

    open spec fn view(&self) -> GameModeView {
        match self {
            GameMode::Clock(mode) => GameModeView::Clock(mode@),
            GameMode::Words(mode) => GameModeView::Words(mode@),
            GameMode::Zen(mode) => GameModeView::Zen(mode@),
        }
    }
}

impl GameModeView {
    /// The menu of the session.
    pub open spec fn editor(self) -> EditorView {
        match self {
            GameModeView::Clock(s) => s.editor,
            GameModeView::Words(s) => s.editor,
            GameModeView::Zen(s) => s.editor,
        }
    }

    /// The invariant of a session that was driven through its methods with
    /// readings that never went back.
    pub open spec fn wf(self) -> bool {
        match self {
            GameModeView::Clock(s) => s.wf(),
            GameModeView::Words(s) => s.wf(),
            GameModeView::Zen(s) => zen_wf(s),
        }
    }

    /// Whether a reading is not before anything that the session has
    /// recorded.
    pub open spec fn reading_in_order(self, now: Timestamp) -> bool {
        match self {
            GameModeView::Clock(s) => reading_in_order(s.typing(), now),
            GameModeView::Words(s) => reading_in_order(s.typing(), now),
            GameModeView::Zen(s) => zen_reading_in_order(s, now),
        }
    }

    /// What a key does to the options: something only while one is being
    /// edited.
    pub open spec fn key_effect(self, key: Key) -> Effect {
        if self.editor().editing is Some {
            effect_of_editing_key(self.editor(), key)
        } else {
            Effect::Nothing
        }
    }

    /// Whether `post` is this session after a key at `now`.
    pub open spec fn stepped_to(self, post: GameModeView, key: Key, now: Timestamp) -> bool {
        match self {
            GameModeView::Clock(s) => post == GameModeView::Clock(s.after_key(key, now)),
            GameModeView::Words(s) => post is Words && s.stepped_to(post->Words_0, key, now),
            GameModeView::Zen(s) => post == GameModeView::Zen(zen_after_key(s, key, now)),
        }
    }

    /// Whether `post` is this session after Enter or Space in the menu.
    pub open spec fn selected_to(self, post: GameModeView) -> bool {
        match self {
            GameModeView::Clock(s) => post == GameModeView::Clock(
                ClockView { editor: after_select(s.editor), ..s },
            ),
            GameModeView::Words(s) => post is Words && s.selected_to(post->Words_0),
            GameModeView::Zen(s) => post == GameModeView::Zen(
                ZenView { editor: after_select(s.editor), ..s },
            ),
        }
    }

    /// Whether `post` is this session after an adjustment in the menu.
    pub open spec fn adjusted_to(self, post: GameModeView, direction: Direction) -> bool {
        match self {
            GameModeView::Clock(s) => post == GameModeView::Clock(
                ClockView { editor: after_adjust(s.editor, direction), ..s },
            ),
            GameModeView::Words(s) => post is Words && s.adjusted_to(post->Words_0, direction),
            GameModeView::Zen(s) => post == GameModeView::Zen(
                ZenView { editor: after_adjust(s.editor, direction), ..s },
            ),
        }
    }

    /// The session after a move of the focus in the menu.
    pub open spec fn after_navigate(self, direction: Direction) -> GameModeView {
        match self {
            GameModeView::Clock(s) => GameModeView::Clock(
                ClockView { editor: after_navigate(s.editor, direction), ..s },
            ),
            GameModeView::Words(s) => GameModeView::Words(
                WordsView { editor: after_navigate(s.editor, direction), ..s },
            ),
            GameModeView::Zen(s) => GameModeView::Zen(
                ZenView { editor: after_navigate(s.editor, direction), ..s },
            ),
        }
    }

    /// Whether the session is complete at `now`: the time limit has
    /// passed, every target word is typed, or the user has ended the
    /// session.
    pub open spec fn complete_at(self, now: Timestamp) -> bool {
        match self {
            GameModeView::Clock(s) => s.expired_at(now),
            GameModeView::Words(s) => s.all_typed(),
            GameModeView::Zen(s) => s.clock.end is Some,
        }
    }

    /// The session after completion is reported at `now`.
    pub open spec fn after_complete(self, now: Timestamp) -> GameModeView {
        match self {
            GameModeView::Clock(s) => self,
            GameModeView::Words(s) => GameModeView::Words(
                WordsView { clock: finished_at(s.clock, now), ..s },
            ),
            GameModeView::Zen(s) => GameModeView::Zen(
                ZenView { clock: finished_at(s.clock, now), ..s },
            ),
        }
    }

    /// The session with nothing typed and the clock unset.
    pub open spec fn reset_to(self, post: GameModeView) -> bool {
        match self {
            GameModeView::Clock(s) => post is Clock && s.reset_to(post->Clock_0),
            GameModeView::Words(s) => post is Words && post->Words_0.is_fresh(s.editor, s.corpus),
            GameModeView::Zen(s) => post == GameModeView::Zen(
                ZenView { editor: s.editor, ..fresh_zen() },
            ),
        }
    }

    /// Whether `post` is this session set up from a configuration and the
    /// lines of its text.
    pub open spec fn initialized_to(
        self,
        post: GameModeView,
        mode: Mode,
        words: u16,
        corpus: Seq<Seq<char>>,
    ) -> bool {
        match self {
            GameModeView::Clock(s) => post is Clock && s.initialized_to(
                post->Clock_0,
                mode,
                words,
                corpus,
            ),
            GameModeView::Words(s) => post is Words && s.initialized_to(post->Words_0, mode, corpus),
            GameModeView::Zen(s) => post == GameModeView::Zen(
                ZenView { editor: s.editor, ..fresh_zen() },
            ),
        }
    }

    /// The progress line at `now`.
    pub open spec fn progress_at(self, now: Timestamp) -> Seq<char> {
        match self {
            GameModeView::Clock(s) => s.progress_at(now),
            GameModeView::Words(s) => s.progress(),
            GameModeView::Zen(s) => zen_progress(s),
        }
    }

    /// The typing area.
    pub open spec fn cells(self) -> Seq<StyledChar> {
        match self {
            GameModeView::Clock(s) => spec_diff(s.buffer.target, s.buffer.typed),
            GameModeView::Words(s) => spec_diff(s.buffer.target, s.buffer.typed),
            GameModeView::Zen(s) => zen_cells(s.typed),
        }
    }

    /// The statistics at `now`.
    pub open spec fn stats_at(self, now: Timestamp) -> GameStats {
        match self {
            GameModeView::Clock(s) => spec_calculate(
                s.limit() as u128,
                s.buffer.typed,
                s.buffer.target,
            ),
            GameModeView::Words(s) => spec_calculate(
                session_length(s.clock) as u128,
                s.buffer.typed,
                s.buffer.target,
            ),
            GameModeView::Zen(s) => zen_stats(s.typed.len(), zen_duration(s.clock, now)),
        }
    }

    /// The speed-over-time series.
    pub open spec fn series(self) -> Seq<WpmSample> {
        match self {
            GameModeView::Clock(s) => spec_series(s.clock, s.buffer),
            GameModeView::Words(s) => spec_series(s.clock, s.buffer),
            GameModeView::Zen(s) => zen_series(s),
        }
    }

    /// The menu, ready to be drawn.
    pub open spec fn menu(self) -> Seq<ItemView> {
        match self {
            GameModeView::Clock(s) => spec_menu(s.editor, "s"@),
            GameModeView::Words(s) => spec_menu(s.editor, ""@),
            GameModeView::Zen(s) => spec_menu(s.editor, ""@),
        }
    }
}

/// The session that a mode description stands for, before it is set up.
pub open spec fn spec_create_mode(mode: Mode) -> GameModeView {
    match mode {
        Mode::Clock { duration } => GameModeView::Clock(fresh_clock(duration)),
        Mode::Words { count } => GameModeView::Words(fresh_words(count)),
        Mode::Zen => GameModeView::Zen(fresh_zen()),
    }
}

/// Factory function to create a new [`GameMode`] based on a [`Mode`]
/// configuration.
pub fn create_mode(mode: &Mode) -> (created: GameMode)
    ensures
        created@ == spec_create_mode(*mode),
        created@.wf(),
{
    match mode {
        Mode::Clock { duration } => GameMode::Clock(Clock::new(*duration)),
        Mode::Words { count } => GameMode::Words(Words::new(*count)),
        Mode::Zen => GameMode::Zen(Zen::new()),
    }
}

impl GameMode {
    /// Performs one-time setup using the application's configuration and
    /// the lines of the configured text.
    pub fn initialize(&mut self, config: &Config, corpus: &Vec<Vec<char>>)
        ensures
            old(self)@.initialized_to(
                final(self)@,
                config.defaults.mode,
                config.defaults.words,
                word_views(corpus@),
            ),
            old(self)@.wf() ==> final(self)@.wf(),
    {
        match self {
            GameMode::Clock(mode) => mode.initialize(config, corpus),
            GameMode::Words(mode) => mode.initialize(config, corpus),
            GameMode::Zen(mode) => mode.initialize(config),
        }
    }

    /// Processes keyboard input specific to the current mode.
    ///
    /// Returns an [`Action`] if the mode needs to trigger a global state
    /// change.
    pub fn handle_input(&mut self, key: Key, now: Timestamp) -> (action: Action)
        ensures
            old(self)@.stepped_to(final(self)@, key, now),
            action@ == action_of_effect(old(self)@.key_effect(key)),
            old(self)@.wf() && old(self)@.reading_in_order(now) ==> final(self)@.wf(),
            old(self)@.wf() && old(self)@.reading_in_order(now) ==> final(self)@.reading_in_order(
                now,
            ),
    {
        match self {
            GameMode::Clock(mode) => mode.handle_input(key, now),
            GameMode::Words(mode) => mode.handle_input(key, now),
            GameMode::Zen(mode) => mode.handle_input(key, now),
        }
    }

    /// Whether the session is complete at `now`.
    pub fn is_complete(&self, now: Timestamp) -> (done: bool)
        ensures
            done == self@.complete_at(now),
    {
        match self {
            GameMode::Clock(mode) => mode.is_complete(now),
            GameMode::Words(mode) => mode.is_complete(),
            GameMode::Zen(mode) => mode.is_complete(),
        }
    }

    /// Reports completion at `now`. The end of the session is captured
    /// once: a second report changes nothing.
    pub fn on_complete(&mut self, now: Timestamp)
        ensures
            final(self)@ == old(self)@.after_complete(now),
            old(self)@.wf() && not_before_start(clock_of(old(self)@), now) ==> final(self)@.wf(),
    {
        match self {
            GameMode::Clock(mode) => mode.on_complete(),
            GameMode::Words(mode) => mode.on_complete(now),
            GameMode::Zen(mode) => mode.on_complete(now),
        }
    }

    /// Starts the session over.
    pub fn reset(&mut self)
        ensures
            old(self)@.reset_to(final(self)@),
            old(self)@.wf() ==> final(self)@.wf(),
    {
        match self {
            GameMode::Clock(mode) => mode.reset(),
            GameMode::Words(mode) => mode.reset(),
            GameMode::Zen(mode) => mode.reset(),
        }
    }

    /// Enter or Space in the menu.
    pub fn select_option(&mut self) -> (action: Action)
        ensures
            old(self)@.selected_to(final(self)@),
            action@ == action_of_effect(effect_of_select(old(self)@.editor())),
            old(self)@.wf() ==> final(self)@.wf(),
    {
        match self {
            GameMode::Clock(mode) => mode.select_option(),
            GameMode::Words(mode) => mode.select_option(),
            GameMode::Zen(mode) => mode.select_option(),
        }
    }

    /// An arrow key in the menu while an entry is being edited.
    pub fn adjust_option(&mut self, direction: Direction)
        ensures
            old(self)@.adjusted_to(final(self)@, direction),
            old(self)@.wf() ==> final(self)@.wf(),
    {
        match self {
            GameMode::Clock(mode) => mode.adjust_option(direction),
            GameMode::Words(mode) => mode.adjust_option(direction),
            GameMode::Zen(mode) => mode.adjust_option(direction),
        }
    }

    /// An arrow key in the menu while nothing is being edited.
    pub fn navigate(&mut self, direction: Direction)
        ensures
            final(self)@ == old(self)@.after_navigate(direction),
            old(self)@.wf() ==> final(self)@.wf(),
    {
        match self {
            GameMode::Clock(mode) => mode.navigate(direction),
            GameMode::Words(mode) => mode.navigate(direction),
            GameMode::Zen(mode) => mode.navigate(direction),
        }
    }

    /// Whether an entry of the menu is being edited.
    pub fn is_option_editing(&self) -> (yes: bool)
        ensures
            yes == (self@.editor().editing is Some),
    {
        match self {
            GameMode::Clock(mode) => mode.is_option_editing(),
            GameMode::Words(mode) => mode.is_option_editing(),
            GameMode::Zen(mode) => mode.is_option_editing(),
        }
    }

    /// The number of entries of the menu that belong to the mode.
    pub fn option_count(&self) -> (count: usize)
        ensures
            count == option_count_of(self@.editor()),
    {
        match self {
            GameMode::Clock(mode) => mode.option_count(),
            GameMode::Words(mode) => mode.option_count(),
            GameMode::Zen(mode) => mode.option_count(),
        }
    }

    /// The menu, ready to be drawn.
    pub fn get_options(&self) -> (items: Vec<OptionItem>)
        ensures
            item_views(items@) == self@.menu(),
    {
        match self {
            GameMode::Clock(mode) => mode.get_options(),
            GameMode::Words(mode) => mode.get_options(),
            GameMode::Zen(mode) => mode.get_options(),
        }
    }

    /// The progress line at `now`.
    pub fn get_progress(&self, now: Timestamp) -> (progress: String)
        ensures
            progress@ == self@.progress_at(now),
    {
        match self {
            GameMode::Clock(mode) => mode.get_progress(now),
            GameMode::Words(mode) => mode.get_progress(),
            GameMode::Zen(mode) => mode.get_progress(),
        }
    }

    /// The typing area.
    pub fn get_characters(&self) -> (cells: Vec<StyledChar>)
        ensures
            cells@ == self@.cells(),
    {
        match self {
            GameMode::Clock(mode) => mode.get_characters(),
            GameMode::Words(mode) => mode.get_characters(),
            GameMode::Zen(mode) => mode.get_characters(),
        }
    }

    /// The statistics at `now`.
    pub fn get_stats(&self, now: Timestamp) -> (stats: GameStats)
        ensures
            stats == self@.stats_at(now),
    {
        match self {
            GameMode::Clock(mode) => mode.get_stats(),
            GameMode::Words(mode) => mode.get_stats(),
            GameMode::Zen(mode) => mode.get_stats(now),
        }
    }

    /// The speed-over-time series.
    pub fn get_wpm_data(&self) -> (series: Vec<WpmSample>)
        ensures
            series@ == self@.series(),
    {
        match self {
            GameMode::Clock(mode) => mode.get_wpm_data(),
            GameMode::Words(mode) => mode.get_wpm_data(),
            GameMode::Zen(mode) => mode.get_wpm_data(),
        }
    }
}

/// The session clock of a session.
pub open spec fn clock_of(mode: GameModeView) -> SessionClock {
    match mode {
        GameModeView::Clock(s) => s.clock,
        GameModeView::Words(s) => s.clock,
        GameModeView::Zen(s) => s.clock,
    }
}

/// Completion is idempotent: reporting it a second time leaves the session
/// as the first report left it, and with it the statistics and the series.
pub proof fn lemma_completion_is_idempotent(
    mode: GameModeView,
    first: Timestamp,
    second: Timestamp,
    now: Timestamp,
)
    ensures
        mode.after_complete(first).after_complete(second) == mode.after_complete(first),
        mode.after_complete(first).after_complete(second).stats_at(now) == mode.after_complete(
            first,
        ).stats_at(now),
        mode.after_complete(first).after_complete(second).series() == mode.after_complete(
            first,
        ).series(),
{
}

/// A timed session that has not started is never complete, whatever the
/// clock reads.
pub proof fn lemma_unstarted_clock_never_completes(mode: GameModeView, now: Timestamp)
    requires
        mode is Clock,
        clock_of(mode).start is None,
    ensures
        !mode.complete_at(now),
{
}

/// The name of every mode in the mode selector is a name that a mode is
/// found by, and it finds the mode at that place with its default
/// parameter.
pub proof fn lemma_selector_names_are_modes(index: int)
    ensures
        spec_mode_from_string(spec_mode_name(index)) == Some(
            if index == 0 {
                Mode::Clock { duration: 30 }
            } else if index == 1 {
                Mode::Words { count: 50 }
            } else {
                Mode::Zen
            },
        ),
{
    reveal_strlit("clock");
    reveal_strlit("words");
    reveal_strlit("zen");
    assert("clock"@[0] == 'c' && "words"@[0] == 'w' && "zen"@[0] == 'z');
}

/// A reading that is in order stays in order as time goes on: whatever
/// the session has recorded, it is not after any later reading either.
pub proof fn lemma_later_reading_is_in_order(mode: GameModeView, now: Timestamp, later: Timestamp)
    requires
        mode.reading_in_order(now),
        now.nanos <= later.nanos,
    ensures
        mode.reading_in_order(later),
{
}

} // verus!

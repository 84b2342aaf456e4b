//! # App Module
//!
//! The session controller: it owns the active mode and the lifecycle state,
//! intercepts the global keys and hands every other key to the mode.
//!
//! The controller does no input or output. A key press comes in as a plain
//! value together with the reading of the monotonic clock at which it was
//! pressed; what has to be drawn is pulled from the mode.

pub mod events;
pub mod modes;
pub mod time;
pub mod ui;

use crate::app::events::{apply_action, switched, Action, Direction, Key, KeyCode, State};
use crate::app::modes::options::{effect_of_select, spec_mode_name, Effect};
use crate::app::modes::text::word_views;
use crate::app::modes::session::not_before_start;
use crate::app::modes::{clock_of, create_mode, spec_create_mode, GameMode, GameModeView, Mode};
use crate::app::time::{Stopwatch, Timestamp};
use crate::config::Config;
use crate::{spec_load, Resource, TextError};
use vstd::prelude::*;

verus! {

/// The container for the application's state and logic.
pub struct App {
    /// Flag to signal the main loop to terminate.
    pub should_exit: bool,
    /// The high-level lifecycle state (Home, Running, etc.).
    pub state: State,
    /// The active mode with its whole session.
    pub mode: GameMode,
}

/// What an [`App`] holds, as plain values.
pub struct AppView {
    pub should_exit: bool,
    pub state: State,
    pub mode: GameModeView,
}

impl View for App {
    type V = AppView;

    open spec fn view(&self) -> AppView {
        AppView { should_exit: self.should_exit, state: self.state, mode: self.mode@ }
    }
}

/// What the controller takes from a configuration and its text.
pub struct Setup {
    /// The configured mode with its parameter.
    pub mode: Mode,
    /// The configured number of words that a timed session keeps ready.
    pub words: u16,
    /// The lines of the configured text.
    pub corpus: Seq<Seq<char>>,
}

/// What the controller takes from a configuration and the lines of its text.
pub open spec fn setup_of(config: &Config, corpus: &Vec<Vec<char>>) -> Setup {
    Setup { mode: config.defaults.mode, words: config.defaults.words, corpus: word_views(corpus@) }
}

/// The application with the termination flag set.
pub open spec fn quit(pre: AppView) -> AppView {
    AppView { should_exit: true, ..pre }
}

/// The application after the completion check at `now`: a session that is
/// complete has its completion reported, and the results are shown.
pub open spec fn completion_checked(pre: AppView, now: Timestamp) -> AppView {
    if pre.mode.complete_at(now) {
        AppView { mode: pre.mode.after_complete(now), state: State::Complete, ..pre }
    } else {
        pre
    }
}

/// The application after one tick of the main loop at `now`: a running
/// session is checked for completion.
pub open spec fn ticked(pre: AppView, now: Timestamp) -> AppView {
    if pre.state == State::Running {
        completion_checked(pre, now)
    } else {
        pre
    }
}

/// Whether `post` is the application after an arrow key on the home
/// screen: the entry being edited is adjusted, or else the focus moves.
pub open spec fn menu_moved(pre: AppView, post: AppView, direction: Direction) -> bool {
    &&& post.should_exit == pre.should_exit
    &&& post.state == pre.state
    &&& if pre.mode.editor().editing is Some {
        pre.mode.adjusted_to(post.mode, direction)
    } else {
        post.mode == pre.mode.after_navigate(direction)
    }
}

/// Whether `post` is the application after Enter or Space on the home
/// screen: the menu acts on it, and a confirmed change of mode replaces the
/// session.
pub open spec fn menu_selected(pre: AppView, post: AppView, setup: Setup) -> bool {
    match effect_of_select(pre.mode.editor()) {
        Effect::SwitchMode(candidate) => switched(
            pre,
            post,
            spec_mode_name(candidate as int),
            setup,
        ),
        _ => {
            &&& post.should_exit == pre.should_exit
            &&& post.state == pre.state
            &&& pre.mode.selected_to(post.mode)
        },
    }
}

/// Whether `mid` is the application after the mode has handled a key at
/// `now` and its request, if it made one, has been carried out.
pub open spec fn forwarded(
    pre: AppView,
    mid: AppView,
    key: Key,
    now: Timestamp,
    setup: Setup,
) -> bool {
    match pre.mode.key_effect(key) {
        Effect::SwitchMode(candidate) => switched(
            pre,
            mid,
            spec_mode_name(candidate as int),
            setup,
        ),
        _ => {
            &&& mid.should_exit == pre.should_exit
            &&& mid.state == pre.state
            &&& pre.mode.stepped_to(mid.mode, key, now)
        },
    }
}

/// Whether `post` is the application after a character on the home screen,
/// which is the keystroke that starts the session: the mode handles it,
/// and unless the mode asked for something else the session is running.
pub open spec fn started(
    pre: AppView,
    post: AppView,
    key: Key,
    now: Timestamp,
    setup: Setup,
) -> bool {
    match pre.mode.key_effect(key) {
        Effect::SwitchMode(candidate) => switched(
            pre,
            post,
            spec_mode_name(candidate as int),
            setup,
        ),
        _ => {
            &&& post.should_exit == pre.should_exit
            &&& post.state == State::Running
            &&& pre.mode.stepped_to(post.mode, key, now)
        },
    }
}

/// Whether `post` is the running application after a key that goes to
/// the mode, where `mid` is the application between the mode's handling of
/// the key and the completion check.
pub open spec fn played(
    pre: AppView,
    mid: AppView,
    post: AppView,
    key: Key,
    now: Timestamp,
    setup: Setup,
) -> bool {
    forwarded(pre, mid, key, now, setup) && post == completion_checked(mid, now)
}

/// Whether `post` is the application after the restart key: the session
/// starts over and the home screen is shown.
pub open spec fn restarted(pre: AppView, post: AppView) -> bool {
    &&& post.should_exit == pre.should_exit
    &&& post.state == State::Home
    &&& pre.mode.reset_to(post.mode)
}

/// Whether `post` is the application after a key at `now`.
///
/// On the home screen Escape quits, the arrows work the menu, Enter and
/// Space select in the menu, any other character starts the session, and
/// every other key is ignored. While a session runs Escape quits, Tab
/// restarts, and every other key goes to the mode, after which the session
/// is checked for completion. On the results screen Escape quits, Tab
/// restarts, and every other key is ignored.
pub open spec fn key_handled(
    pre: AppView,
    post: AppView,
    key: Key,
    now: Timestamp,
    setup: Setup,
) -> bool {
    match pre.state {
        State::Home => match key.code {
            KeyCode::Esc => post == quit(pre),
            KeyCode::Left | KeyCode::Down => menu_moved(pre, post, Direction::Backward),
            KeyCode::Right | KeyCode::Up => menu_moved(pre, post, Direction::Forward),
            KeyCode::Enter => menu_selected(pre, post, setup),
            KeyCode::Char(c) => if c == ' ' {
                menu_selected(pre, post, setup)
            } else {
                started(pre, post, key, now, setup)
            },
            _ => post == pre,
        },
        State::Running => match key.code {
            KeyCode::Esc => post == quit(pre),
            KeyCode::Tab => restarted(pre, post),
            _ => exists|mid: AppView| #[trigger] played(pre, mid, post, key, now, setup),
        },
        State::Complete => match key.code {
            KeyCode::Esc => post == quit(pre),
            KeyCode::Tab => restarted(pre, post),
            _ => post == pre,
        },
    }
}

impl App {
    /// Creates a new application instance based on the provided
    /// configuration and the lines of the configured text: the configured
    /// mode, set up, on the home screen.
    pub fn from_config(config: &Config, corpus: &Vec<Vec<char>>) -> (app: Self)
        ensures
            !app.should_exit,
            app.state == State::Home,
            spec_create_mode(config.defaults.mode).initialized_to(
                app.mode@,
                config.defaults.mode,
                config.defaults.words,
                word_views(corpus@),
            ),
            app.mode@.wf(),
    {
        let mut mode = create_mode(&config.defaults.mode);
        mode.initialize(config, corpus);
        App { should_exit: false, state: State::default(), mode }
    }

    /// Creates a new application instance from a configuration and what
    /// the user has stored under the name of the configured text, if
    /// anything.
    ///
    /// # Errors
    /// Returns the error of [`Resource::load`] if the configured text cannot
    /// be had. No other text is taken in its place.
    pub fn launch(config: &Config, local: Option<Vec<u8>>) -> (launched: Result<
        (Self, Vec<Vec<char>>),
        TextError,
    >)
        ensures
            match spec_load(
                config.defaults.text@,
                match local {
                    Some(bytes) => Some(bytes@),
                    None => None,
                },
            ) {
                Ok(lines) => {
                    &&& launched is Ok
                    &&& word_views(launched->Ok_0.1@) == lines
                    &&& !launched->Ok_0.0.should_exit
                    &&& launched->Ok_0.0.state == State::Home
                    &&& spec_create_mode(config.defaults.mode).initialized_to(
                        launched->Ok_0.0.mode@,
                        config.defaults.mode,
                        config.defaults.words,
                        lines,
                    )
                    &&& launched->Ok_0.0.mode@.wf()
                },
                Err(e) => launched is Err && launched->Err_0 == e,
            },
    {
        match Resource::load(config.defaults.text.as_str(), local) {
            Ok(corpus) => {
                let app = App::from_config(config, &corpus);
                Ok((app, corpus))
            },
            Err(e) => Err(e),
        }
    }

    /// Handles one key pressed at `now`.
    pub fn handle_key(&mut self, key: Key, now: Timestamp, config: &Config, corpus: &Vec<Vec<char>>)
        ensures
            key_handled(old(self)@, final(self)@, key, now, setup_of(config, corpus)),
            old(self).mode@.wf() && old(self).mode@.reading_in_order(now) ==> final(self).mode@.wf(),
            old(self).mode@.wf() && old(self).mode@.reading_in_order(now)
                ==> final(self).mode@.reading_in_order(now),
    {
        match self.state {
            State::Home => match key.code {
                KeyCode::Esc => {
                    self.should_exit = true;
                },
                KeyCode::Left | KeyCode::Down => self.move_in_menu(Direction::Backward),
                KeyCode::Right | KeyCode::Up => self.move_in_menu(Direction::Forward),
                KeyCode::Enter => self.select_in_menu(config, corpus),
                KeyCode::Char(c) => {
                    if c == ' ' {
                        self.select_in_menu(config, corpus);
                    } else {
                        let action = self.mode.handle_input(key, now);
                        match action {
                            Action::Nothing => {
                                self.state = State::Running;
                            },
                            other => apply_action(self, other, config, corpus),
                        }
                    }
                },
                _ => {},
            },
            State::Running => match key.code {
                KeyCode::Esc => {
                    self.should_exit = true;
                },
                KeyCode::Tab => self.restart(),
                _ => {
                    let action = self.mode.handle_input(key, now);
                    apply_action(self, action, config, corpus);
                    let ghost mid = self@;
                    self.check_completion(now);
                    proof {
                        assert(played(old(self)@, mid, self@, key, now, setup_of(config, corpus)));
                    }
                },
            },
            State::Complete => match key.code {
                KeyCode::Esc => {
                    self.should_exit = true;
                },
                KeyCode::Tab => self.restart(),
                _ => {},
            },
        }
    }

    /// Handles one key pressed now, by the reading of `watch`.
    ///
    /// What the clock reads is not known beforehand; the application
    /// afterwards is what [`App::handle_key`] makes of the key at some
    /// reading.
    pub fn handle_key_now(
        &mut self,
        key: Key,
        watch: &Stopwatch,
        config: &Config,
        corpus: &Vec<Vec<char>>,
    )
        ensures
            exists|now: Timestamp| #[trigger]
                key_handled(old(self)@, final(self)@, key, now, setup_of(config, corpus)),
    {
        let now = watch.read();
        self.handle_key(key, now, config, corpus);
    }

    /// One tick of the main loop now, by the reading of `watch`.
    pub fn tick_now(&mut self, watch: &Stopwatch)
        ensures
            exists|now: Timestamp| final(self)@ == #[trigger] ticked(old(self)@, now),
    {
        let now = watch.read();
        self.tick(now);
    }

    /// One tick of the main loop at `now`: a running session is checked
    /// for completion, whether or not a key was pressed.
    pub fn tick(&mut self, now: Timestamp)
        ensures
            final(self)@ == ticked(old(self)@, now),
            old(self).mode@.wf() && old(self).mode@.reading_in_order(now) ==> final(self).mode@.wf(),
    {
        if self.state == State::Running {
            self.check_completion(now);
        }
    }

    /// Reports completion and shows the results if the session is complete
    /// at `now`.
    fn check_completion(&mut self, now: Timestamp)
        ensures
            final(self)@ == completion_checked(old(self)@, now),
            old(self).mode@.wf() && not_before_start(clock_of(old(self).mode@), now)
                ==> final(self).mode@.wf(),
    {
        if self.mode.is_complete(now) {
            self.mode.on_complete(now);
            self.state = State::Complete;
        }
    }

    /// Starts the session over and shows the home screen.
    fn restart(&mut self)
        ensures
            restarted(old(self)@, final(self)@),
            old(self).mode@.wf() ==> final(self).mode@.wf(),
    {
        self.mode.reset();
        self.state = State::Home;
    }

    /// An arrow key on the home screen.
    fn move_in_menu(&mut self, direction: Direction)
        ensures
            menu_moved(old(self)@, final(self)@, direction),
            old(self).mode@.wf() ==> final(self).mode@.wf(),
    {
        if self.mode.is_option_editing() {
            self.mode.adjust_option(direction);
        } else {
            self.mode.navigate(direction);
        }
    }

    /// Enter or Space on the home screen.
    fn select_in_menu(&mut self, config: &Config, corpus: &Vec<Vec<char>>)
        ensures
            menu_selected(old(self)@, final(self)@, setup_of(config, corpus)),
            old(self).mode@.wf() ==> final(self).mode@.wf(),
    {
        let action = self.mode.select_option();
        apply_action(self, action, config, corpus);
    }
}

/// Escape quits on every screen, whatever the session holds.
pub proof fn lemma_escape_quits(pre: AppView, post: AppView, now: Timestamp, setup: Setup)
    requires
        key_handled(pre, post, Key { code: KeyCode::Esc, ctrl: false }, now, setup),
    ensures
        post.should_exit,
        post.state == pre.state,
        post.mode == pre.mode,
{
}

/// On the results screen nothing but Escape and Tab has any effect.
pub proof fn lemma_results_ignore_keys(
    pre: AppView,
    post: AppView,
    key: Key,
    now: Timestamp,
    setup: Setup,
)
    requires
        pre.state == State::Complete,
        key.code != KeyCode::Esc,
        key.code != KeyCode::Tab,
        key_handled(pre, post, key, now, setup),
    ensures
        post == pre,
{
}

} // verus!

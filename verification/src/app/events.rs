//! # Events Module
//!
//! Key presses as the engine sees them, and the [`Action`]s with which a mode
//! asks the controller for a global change.

use crate::app::modes::text::word_views;
use crate::app::modes::{
    create_mode, spec_create_mode, spec_mode_from_string, GameModeView, Mode,
};
use crate::app::{App, AppView, Setup};
use crate::config::Config;
use vstd::prelude::*;

verus! {

/// The lifecycle of the application.
#[derive(Clone, Copy, Debug, PartialEq, Eq, Structural)]
pub enum State {
    /// The main menu.
    Home,
    /// A typing test session is in progress.
    Running,
    /// The test has finished, results should be displayed.
    Complete,
}

impl Default for State {
    fn default() -> (state: Self)
        ensures
            state == State::Home,
    {
        State::Home
    }
}

/// The key that was pressed.
#[derive(Clone, Copy, Debug, PartialEq, Eq, Structural)]
pub enum KeyCode {
    Char(char),
    Enter,
    Backspace,
    Tab,
    Esc,
    Left,
    Right,
    Up,
    Down,
    /// Any key that the engine has no rule for.
    Other,
}

/// One key press: the key and whether the control modifier was held.
#[derive(Clone, Copy, Debug, PartialEq, Eq, Structural)]
pub struct Key {
    pub code: KeyCode,
    pub ctrl: bool,
}

impl Key {
    /// A key pressed without modifiers.
    pub fn plain(code: KeyCode) -> (key: Self)
        ensures
            key == (Key { code, ctrl: false }),
    {
        Key { code, ctrl: false }
    }

    /// A character typed without modifiers.
    pub fn char(c: char) -> (key: Self)
        ensures
            key == (Key { code: KeyCode::Char(c), ctrl: false }),
    {
        Key { code: KeyCode::Char(c), ctrl: false }
    }

    /// A key pressed while control is held.
    pub fn with_ctrl(code: KeyCode) -> (key: Self)
        ensures
            key == (Key { code, ctrl: true }),
    {
        Key { code, ctrl: true }
    }
}

/// A direction in which focus moves or a value is adjusted.
#[derive(Clone, Copy, Debug, PartialEq, Eq, Structural)]
pub enum Direction {
    /// Left or down.
    Backward,
    /// Right or up.
    Forward,
}

/// Defines the intent of an input event after being processed by a mode.
///
/// This allows individual game modes to communicate requests for global
/// changes back to the controller.
#[derive(Debug, PartialEq, Eq)]
pub enum Action {
    /// The input was consumed or ignored; no global state change is needed.
    Nothing,
    /// Request to completely replace the current game mode (e.g., from 'Clock' to 'Words').
    SwitchMode(String),
    /// Request to transition the application's lifecycle state.
    SwitchState(State),
    /// Request to quit the application.
    Quit,
}

/// What an [`Action`] asks for, with the mode's name as a sequence of
/// characters.
pub enum ActionView {
    Nothing,
    SwitchMode(Seq<char>),
    SwitchState(State),
    Quit,
}

impl View for Action {
    type V = ActionView;

    open spec fn view(&self) -> ActionView {
        match *self {
            Action::Nothing => ActionView::Nothing,
            Action::SwitchMode(name) => ActionView::SwitchMode(name@),
            Action::SwitchState(state) => ActionView::SwitchState(state),
            Action::Quit => ActionView::Quit,
        }
    }
}

/// Whether `post` is the application after a request to switch to the
/// mode called `name`: the session is replaced by a new one of that mode,
/// set up from the configuration, and nothing of the old session is kept. A
/// name that is no mode's changes nothing.
pub open spec fn switched(pre: AppView, post: AppView, name: Seq<char>, setup: Setup) -> bool {
    match spec_mode_from_string(name) {
        Some(mode) => {
            &&& post.should_exit == pre.should_exit
            &&& post.state == pre.state
            &&& spec_create_mode(mode).initialized_to(
                post.mode,
                setup.mode,
                setup.words,
                setup.corpus,
            )
        },
        None => post == pre,
    }
}

/// Whether `post` is the application after an action has been carried out.
pub open spec fn applied(pre: AppView, post: AppView, action: ActionView, setup: Setup) -> bool {
    match action {
        ActionView::Nothing => post == pre,
        ActionView::SwitchMode(name) => switched(pre, post, name, setup),
        ActionView::SwitchState(state) => post == (AppView { state, ..pre }),
        ActionView::Quit => post == (AppView { should_exit: true, ..pre }),
    }
}

/// Replaces the current active mode with a new one based on a string
/// identifier.
///
/// If the `mode_str` is valid, the new mode is created, initialized with
/// the current config, and swapped into the `app` instance.
pub fn switch_mode(app: &mut App, mode_str: &str, config: &Config, corpus: &Vec<Vec<char>>)
    ensures
        switched(
            old(app)@,
            final(app)@,
            mode_str@,
            Setup {
                mode: config.defaults.mode,
                words: config.defaults.words,
                corpus: word_views(corpus@),
            },
        ),
        old(app).mode@.wf() ==> final(app).mode@.wf(),
{
    if let Some(mode) = Mode::from_string(mode_str) {
        let mut created = create_mode(&mode);
        created.initialize(config, corpus);
        app.mode = created;
    }
}

/// Carries out an [`Action`]: switches the mode, overwrites the lifecycle
/// state or sets the termination flag.
pub fn apply_action(app: &mut App, action: Action, config: &Config, corpus: &Vec<Vec<char>>)
    ensures
        applied(
            old(app)@,
            final(app)@,
            action@,
            Setup {
                mode: config.defaults.mode,
                words: config.defaults.words,
                corpus: word_views(corpus@),
            },
        ),
        old(app).mode@.wf() ==> final(app).mode@.wf(),
{
    match action {
        Action::Nothing => {},
        Action::SwitchMode(mode_str) => switch_mode(app, mode_str.as_str(), config, corpus),
        Action::SwitchState(state) => {
            app.state = state;
        },
        Action::Quit => {
            app.should_exit = true;
        },
    }
}

/// Switching the mode keeps nothing of the old session: what the new
/// session may be does not depend on what the old one was.
pub proof fn lemma_switch_keeps_nothing(
    pre: AppView,
    other: GameModeView,
    post: AppView,
    name: Seq<char>,
    setup: Setup,
)
    requires
        spec_mode_from_string(name) is Some,
        switched(pre, post, name, setup),
    ensures
        switched(AppView { mode: other, ..pre }, post, name, setup),
{
}

} // verus!

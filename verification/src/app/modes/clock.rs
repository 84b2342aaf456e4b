//! # Clock Mode
//!
//! A session with a time limit. The clock starts at the first character and
//! the session is over once the limit has passed; that is checked whenever
//! the caller asks, against the reading it hands in.

use crate::app::events::{Action, Direction, Key};
use crate::app::modes::diff::{get_typing_spans, spec_diff};
use crate::app::modes::options::{
    after_adjust, after_configure, after_navigate, after_select, custom_for, effect_of_select,
    item_views, option_count_of, spec_menu, EditorView, OptionEditor, OptionItem,
};
use crate::app::modes::session::{elapsed_at, SessionClock};
use crate::app::modes::stats::{spec_calculate, GameStats};
use crate::app::modes::text::{push_decimal, spec_decimal, string_of, word_views, words_clone};
use crate::app::modes::typing::{BufferView, WordBuffer};
use crate::app::modes::util::{
    action_for, action_of_effect, cycle_take, effect_of_key, generate_words, handle_typing,
    is_shuffle_of, reading_in_order, spec_series, typing_after_key, typing_wf, wpm_series,
    TypingView, WpmSample,
};
use crate::app::ui::chars::StyledChar;
use crate::app::modes::Mode;
use crate::app::time::{secs_to_nanos, Timestamp, NANOS_PER_SEC};
use crate::config::Config;
use vstd::prelude::*;

verus! {

/// The standard time limits, in seconds.
pub const DURATIONS: [u64; 4] = [15, 30, 60, 120];

/// The custom time limit before one is configured, in seconds.
pub const DEFAULT_CUSTOM_DURATION: u64 = 30;

/// By how many seconds an adjustment changes the custom time limit.
pub const DURATION_STEP: u64 = 5;

/// The least custom time limit that a downward adjustment leaves, in seconds.
pub const DURATION_FLOOR: u64 = 5;

/// The number of target words that a new session keeps ready.
pub const DEFAULT_POOL: usize = 100;

/// What a [`Clock`] holds, as plain values.
pub struct ClockView {
    /// The menu; its active value is the time limit in seconds.
    pub editor: EditorView,
    pub clock: SessionClock,
    pub buffer: BufferView,
    /// The lines that target words are drawn from.
    pub corpus: Seq<Seq<char>>,
    /// The number of target words to keep ready.
    pub pool: usize,
}

impl ClockView {
    /// The parts that a key can change.
    pub open spec fn typing(self) -> TypingView {
        TypingView { editor: self.editor, clock: self.clock, buffer: self.buffer }
    }

    /// The invariant of a session that was driven through its methods with
    /// readings that never went back.
    pub open spec fn wf(self) -> bool {
        typing_wf(self.typing())
    }

    /// The session after a key at `now`.
    pub open spec fn after_key(self, key: Key, now: Timestamp) -> ClockView {
        let t = typing_after_key(self.typing(), key, now);
        ClockView { editor: t.editor, clock: t.clock, buffer: t.buffer, ..self }
    }

    /// Whether `post` is this session started over: new target words drawn
    /// from the corpus, nothing typed, no samples, the clock unset, and the
    /// options as they are.
    pub open spec fn reset_to(self, post: ClockView) -> bool {
        &&& post.editor == self.editor
        &&& post.corpus == self.corpus
        &&& post.pool == self.pool
        &&& post.clock == (SessionClock { start: None, end: None })
        &&& post.buffer.typed == Seq::<Seq<char>>::empty()
        &&& post.buffer.samples == Seq::<(usize, Timestamp)>::empty()
        &&& is_shuffle_of(post.buffer.target, cycle_take(self.corpus, self.pool as nat))
    }

    /// Whether `post` is this session set up from a configuration and the
    /// lines of its text.
    pub open spec fn initialized_to(
        self,
        post: ClockView,
        mode: Mode,
        words: u16,
        corpus: Seq<Seq<char>>,
    ) -> bool {
        (ClockView {
            editor: match mode {
                Mode::Clock { duration } => after_configure(self.editor, duration),
                _ => self.editor,
            },
            corpus,
            pool: words as usize,
            ..self
        }).reset_to(post)
    }

    /// The time limit in nanoseconds.
    pub open spec fn limit(self) -> nat {
        (self.editor.value * NANOS_PER_SEC) as nat
    }

    /// Whether the time limit has passed at `now`. A session that has not
    /// started never expires.
    pub open spec fn expired_at(self, now: Timestamp) -> bool {
        self.clock.start is Some && elapsed_at(self.clock, now) >= self.limit()
    }

    /// The whole seconds that are left at `now`, in decimal; empty before
    /// the session starts.
    pub open spec fn progress_at(self, now: Timestamp) -> Seq<char> {
        if self.clock.start is None {
            Seq::empty()
        } else if elapsed_at(self.clock, now) >= self.limit() {
            spec_decimal(0)
        } else {
            spec_decimal(((self.limit() - elapsed_at(self.clock, now)) / NANOS_PER_SEC as int) as nat)
        }
    }
}

/// A timed session of `duration` seconds that has no words yet.
pub open spec fn fresh_clock(duration: u64) -> ClockView {
    ClockView {
        editor: EditorView {
            own_mode: 0,
            presets: DURATIONS@,
            value: duration,
            custom: custom_for(DURATIONS@, duration, DEFAULT_CUSTOM_DURATION),
            step: DURATION_STEP,
            floor: DURATION_FLOOR,
            focus: 0,
            editing: None,
        },
        clock: SessionClock { start: None, end: None },
        buffer: BufferView { target: Seq::empty(), typed: Seq::empty(), samples: Seq::empty() },
        corpus: Seq::empty(),
        pool: DEFAULT_POOL,
    }
}

/// A session of the clock mode: the menu with the time limit, the session
/// clock, the word buffer and the lines that target words are drawn from.
pub struct Clock {
    editor: OptionEditor,
    clock: SessionClock,
    buffer: WordBuffer,
    corpus: Vec<Vec<char>>,
    pool: usize,
}

impl View for Clock {
    type V = ClockView;

    closed spec fn view(&self) -> ClockView {
        ClockView {
            editor: self.editor@,
            clock: self.clock,
            buffer: self.buffer@,
            corpus: word_views(self.corpus@),
            pool: self.pool,
        }
    }
}

impl Clock {
    /// A timed session of `duration` seconds that has no words yet.
    pub fn new(duration: u64) -> (mode: Self)
        ensures
            mode@ == fresh_clock(duration),
            mode.wf(),
    {
        let mode = Clock {
            editor: OptionEditor::new(
                0,
                DURATIONS,
                duration,
                DEFAULT_CUSTOM_DURATION,
                DURATION_STEP,
                DURATION_FLOOR,
            ),
            clock: SessionClock::new(),
            buffer: WordBuffer::new(),
            corpus: Vec::new(),
            pool: DEFAULT_POOL,
        };
        proof {
            assert(mode@.corpus =~= Seq::<Seq<char>>::empty());
        }
        mode
    }

    /// The invariant of a session that was driven through its methods with
    /// readings that never went back.
    pub open spec fn wf(&self) -> bool {
        self@.wf()
    }

    /// Sets the session up from a configuration and the lines of its text:
    /// takes the time limit if the configuration is for this mode, takes
    /// the number of words to keep ready, forgets what was typed and draws
    /// new target words.
    pub fn initialize(&mut self, config: &Config, corpus: &Vec<Vec<char>>)
        ensures
            old(self)@.initialized_to(
                final(self)@,
                config.defaults.mode,
                config.defaults.words,
                word_views(corpus@),
            ),
            old(self).wf() ==> final(self).wf(),
    {
        self.corpus = words_clone(corpus);
        self.pool = config.defaults.words as usize;
        if let Mode::Clock { duration } = config.defaults.mode {
            self.editor.configure(duration);
        }
        self.reset();
    }

    /// Applies a key pressed at `now`.
    ///
    /// While an option is being edited the key goes to the option editor,
    /// and a confirmed change of mode comes back as a request to switch.
    /// Otherwise a character starts the clock if it is the first one; `h`
    /// with control clears the current word, the space commits it, any
    /// other character is appended to it; Backspace deletes. A current word
    /// that equals its target word can be neither cleared nor deleted from.
    pub fn handle_input(&mut self, key: Key, now: Timestamp) -> (action: Action)
        ensures
            final(self)@ == old(self)@.after_key(key, now),
            action@ == action_of_effect(effect_of_key(old(self)@.typing(), key)),
            old(self).wf() && reading_in_order(old(self)@.typing(), now) ==> final(self).wf(),
            old(self).wf() && reading_in_order(old(self)@.typing(), now) ==> reading_in_order(
                final(self)@.typing(),
                now,
            ),
    {
        let effect = handle_typing(&mut self.editor, &mut self.clock, &mut self.buffer, key, now);
        action_for(effect)
    }

    /// Whether the time limit has passed at `now`. A session that has not
    /// started is never complete.
    pub fn is_complete(&self, now: Timestamp) -> (done: bool)
        ensures
            done == self@.expired_at(now),
    {
        match self.clock.start {
            Some(start) => now.since(start) >= secs_to_nanos(self.editor.value()),
            None => false,
        }
    }

    /// Completion needs no bookkeeping in this mode: the session's length
    /// is its time limit.
    pub fn on_complete(&mut self)
        ensures
            final(self)@ == old(self)@,
    {
    }

    /// Starts over: draws new target words and forgets what was typed, the
    /// samples and the start. The options stay as they are.
    pub fn reset(&mut self)
        ensures
            old(self)@.reset_to(final(self)@),
            old(self).wf() ==> final(self).wf(),
    {
        let words = generate_words(&self.corpus, self.pool);
        self.buffer.set_target(words);
        self.buffer.clear();
        self.clock.reset();
    }

    /// Enter or Space in the menu: confirms what is being edited, or acts
    /// on the focused entry. A confirmed change of mode comes back as a
    /// request to switch.
    pub fn select_option(&mut self) -> (action: Action)
        ensures
            final(self)@ == (ClockView { editor: after_select(old(self)@.editor), ..old(self)@ }),
            action@ == action_of_effect(effect_of_select(old(self)@.editor)),
            old(self).wf() ==> final(self).wf(),
    {
        let effect = self.editor.select();
        action_for(effect)
    }

    /// An arrow key in the menu while an entry is being edited: adjusts it.
    pub fn adjust_option(&mut self, direction: Direction)
        ensures
            final(self)@ == (ClockView {
                editor: after_adjust(old(self)@.editor, direction),
                ..old(self)@
            }),
            old(self).wf() ==> final(self).wf(),
    {
        let _ = self.editor.adjust(direction);
    }

    /// An arrow key in the menu while nothing is being edited: moves the
    /// focus.
    pub fn navigate(&mut self, direction: Direction)
        ensures
            final(self)@ == (ClockView {
                editor: after_navigate(old(self)@.editor, direction),
                ..old(self)@
            }),
            old(self).wf() ==> final(self).wf(),
    {
        self.editor.navigate(direction);
    }

    /// Whether an entry of the menu is being edited.
    pub fn is_option_editing(&self) -> (yes: bool)
        ensures
            yes == (self@.editor.editing is Some),
    {
        self.editor.is_editing()
    }

    /// The number of entries of the menu that belong to this mode.
    pub fn option_count(&self) -> (count: usize)
        ensures
            count == option_count_of(self@.editor),
    {
        self.editor.option_count()
    }

    /// The menu, ready to be drawn; the standard time limits are labelled
    /// in seconds.
    pub fn get_options(&self) -> (items: Vec<OptionItem>)
        ensures
            item_views(items@) == spec_menu(self@.editor, "s"@),
    {
        self.editor.items("s")
    }

    /// The whole seconds that are left at `now`, in decimal; empty before
    /// the session starts.
    pub fn get_progress(&self, now: Timestamp) -> (progress: String)
        ensures
            progress@ == self@.progress_at(now),
    {
        let mut text: Vec<char> = Vec::new();
        match self.clock.start {
            Some(start) => {
                let limit = secs_to_nanos(self.editor.value());
                let elapsed = now.since(start);
                let left = if elapsed >= limit {
                    0
                } else {
                    limit - elapsed
                };
                push_decimal(&mut text, left / NANOS_PER_SEC);
            },
            None => {},
        }
        string_of(&text)
    }

    /// The typing area: the comparison of what was typed with the target.
    pub fn get_characters(&self) -> (cells: Vec<StyledChar>)
        ensures
            cells@ == spec_diff(self@.buffer.target, self@.buffer.typed),
    {
        get_typing_spans(
            self.buffer.target_words().as_slice(),
            self.buffer.typed_words().as_slice(),
        )
    }

    /// The statistics of the session, over its time limit.
    pub fn get_stats(&self) -> (stats: GameStats)
        ensures
            stats == spec_calculate(
                self@.limit() as u128,
                self@.buffer.typed,
                self@.buffer.target,
            ),
            stats.accuracy.num <= stats.accuracy.den,
    {
        GameStats::calculate(
            secs_to_nanos(self.editor.value()),
            self.buffer.typed_words().as_slice(),
            self.buffer.target_words().as_slice(),
        )
    }

    /// The speed-over-time series of the session.
    pub fn get_wpm_data(&self) -> (series: Vec<WpmSample>)
        ensures
            series@ == spec_series(self@.clock, self@.buffer),
    {
        wpm_series(&self.clock, &self.buffer)
    }

    /// The time limit in seconds.
    pub fn duration(&self) -> (seconds: u64)
        ensures
            seconds == self@.editor.value,
    {
        self.editor.value()
    }

    /// The menu.
    pub fn editor(&self) -> (editor: &OptionEditor)
        ensures
            editor@ == self@.editor,
    {
        &self.editor
    }

    /// The session clock.
    pub fn clock(&self) -> (clock: SessionClock)
        ensures
            clock == self@.clock,
    {
        self.clock
    }

    /// The word buffer.
    pub fn buffer(&self) -> (buffer: &WordBuffer)
        ensures
            buffer@ == self@.buffer,
    {
        &self.buffer
    }
}

} // verus!

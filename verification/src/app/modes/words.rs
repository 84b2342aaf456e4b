//! # Words Mode
//!
//! A session over a fixed number of words. It is complete when the last
//! target word has been typed to its full length, and its length is the time
//! from the first keystroke to the moment completion was reported.

use crate::app::events::{Action, Direction, Key};
use crate::app::modes::diff::{get_typing_spans, spec_diff};
use crate::app::modes::options::{
    after_adjust, after_configure, after_navigate, after_select, custom_for, effect_of_adjust,
    effect_of_select, item_views, option_count_of, spec_menu, EditorView, Effect, OptionEditor,
    OptionItem,
};
use crate::app::modes::session::{
    finished_at, not_before_start, session_length, SessionClock,
};
use crate::app::modes::stats::{spec_calculate, GameStats};
use crate::app::modes::text::{push_decimal, spec_decimal, string_of, word_views, words_clone};
use crate::app::modes::typing::{BufferView, WordBuffer};
use crate::app::modes::util::{
    action_for, action_of_effect, cycle_take, effect_of_key, generate_words, handle_typing,
    is_shuffle_of, reading_in_order, spec_series, typing_after_key, typing_wf, wpm_series,
    TypingView, WpmSample,
};
use crate::app::modes::Mode;
use crate::app::time::Timestamp;
use crate::app::ui::chars::StyledChar;
use crate::config::Config;
use vstd::prelude::*;

verus! {

/// The standard numbers of words.
pub const WORD_COUNTS: [u64; 4] = [10, 25, 50, 100];

/// The custom number of words before one is configured.
pub const DEFAULT_CUSTOM_COUNT: u64 = 50;

/// By how many words an adjustment changes the custom number of words.
pub const COUNT_STEP: u64 = 5;

/// The least custom number of words that a downward adjustment leaves.
pub const COUNT_FLOOR: u64 = 5;

/// A number of words as a length: itself, or the greatest length where it
/// is beyond that.
pub open spec fn count_of(value: u64) -> usize {
    if value > usize::MAX {
        usize::MAX
    } else {
        value as usize
    }
}

/// What a [`Words`] holds, as plain values.
pub struct WordsView {
    /// The menu; its active value is the number of words.
    pub editor: EditorView,
    pub clock: SessionClock,
    pub buffer: BufferView,
    /// The lines that target words are drawn from.
    pub corpus: Seq<Seq<char>>,
}

impl WordsView {
    /// The parts that a key can change.
    pub open spec fn typing(self) -> TypingView {
        TypingView { editor: self.editor, clock: self.clock, buffer: self.buffer }
    }

    /// Whether every target word has been typed: as many words are typed
    /// as there are target words and the last one has the length of its
    /// target word, or more words are typed than there are target words.
    pub open spec fn all_typed(self) -> bool {
        let typed = self.buffer.typed;
        let target = self.buffer.target;
        ||| (typed.len() == target.len() && typed.len() > 0 && typed.last().len()
            == target.last().len())
        ||| typed.len() > target.len()
    }

    /// Whether this session is a fresh one over `corpus` with the given
    /// menu: nothing typed, no samples, the clock unset, and as target the
    /// menu's number of words drawn from the corpus.
    pub open spec fn is_fresh(self, editor: EditorView, corpus: Seq<Seq<char>>) -> bool {
        &&& self.editor == editor
        &&& self.corpus == corpus
        &&& self.clock == (SessionClock { start: None, end: None })
        &&& self.buffer.typed == Seq::<Seq<char>>::empty()
        &&& self.buffer.samples == Seq::<(usize, Timestamp)>::empty()
        &&& is_shuffle_of(self.buffer.target, cycle_take(corpus, count_of(editor.value) as nat))
    }

    /// The invariant of a session that was driven through its methods with
    /// readings that never went back.
    pub open spec fn wf(self) -> bool {
        typing_wf(self.typing())
    }

    /// The session after a key at `now` that assigns no number of words.
    pub open spec fn after_key(self, key: Key, now: Timestamp) -> WordsView {
        let t = typing_after_key(self.typing(), key, now);
        WordsView { editor: t.editor, clock: t.clock, buffer: t.buffer, ..self }
    }

    /// Whether `post` is this session after a key at `now`. A key that
    /// assigns the number of words starts the session over with that many
    /// words.
    pub open spec fn stepped_to(self, post: WordsView, key: Key, now: Timestamp) -> bool {
        if effect_of_key(self.typing(), key) == Effect::Applied {
            post.is_fresh(self.after_key(key, now).editor, self.corpus)
        } else {
            post == self.after_key(key, now)
        }
    }

    /// Whether `post` is this session after Enter or Space in the menu.
    pub open spec fn selected_to(self, post: WordsView) -> bool {
        if effect_of_select(self.editor) == Effect::Applied {
            post.is_fresh(after_select(self.editor), self.corpus)
        } else {
            post == (WordsView { editor: after_select(self.editor), ..self })
        }
    }

    /// Whether `post` is this session after an adjustment in the menu.
    pub open spec fn adjusted_to(self, post: WordsView, direction: Direction) -> bool {
        if effect_of_adjust(self.editor) == Effect::Applied {
            post.is_fresh(after_adjust(self.editor, direction), self.corpus)
        } else {
            post == (WordsView { editor: after_adjust(self.editor, direction), ..self })
        }
    }

    /// Whether `post` is this session set up from a configuration and the
    /// lines of its text.
    pub open spec fn initialized_to(
        self,
        post: WordsView,
        mode: Mode,
        corpus: Seq<Seq<char>>,
    ) -> bool {
        post.is_fresh(
            match mode {
                Mode::Words { count } => after_configure(self.editor, count as u64),
                _ => self.editor,
            },
            corpus,
        )
    }

    /// The typed and the target number of words, as `typed/target`.
    pub open spec fn progress(self) -> Seq<char> {
        spec_decimal(self.buffer.typed.len()) + seq!['/'] + spec_decimal(self.editor.value as nat)
    }
}

/// A session over `words` words that has no words yet.
pub open spec fn fresh_words(words: usize) -> WordsView {
    WordsView {
        editor: EditorView {
            own_mode: 1,
            presets: WORD_COUNTS@,
            value: words as u64,
            custom: custom_for(WORD_COUNTS@, words as u64, DEFAULT_CUSTOM_COUNT),
            step: COUNT_STEP,
            floor: COUNT_FLOOR,
            focus: 0,
            editing: None,
        },
        clock: SessionClock { start: None, end: None },
        buffer: BufferView { target: Seq::empty(), typed: Seq::empty(), samples: Seq::empty() },
        corpus: Seq::empty(),
    }
}

/// A session of the words mode: the menu with the number of words, the
/// session clock, the word buffer and the lines that target words are drawn
/// from.
pub struct Words {
    editor: OptionEditor,
    clock: SessionClock,
    buffer: WordBuffer,
    corpus: Vec<Vec<char>>,
}

impl View for Words {
    type V = WordsView;

    closed spec fn view(&self) -> WordsView {
        WordsView {
            editor: self.editor@,
            clock: self.clock,
            buffer: self.buffer@,
            corpus: word_views(self.corpus@),
        }
    }
}

impl Words {
    /// A session over `words` words that has no words yet.
    pub fn new(words: usize) -> (mode: Self)
        ensures
            mode@ == fresh_words(words),
            mode.wf(),
    {
        let mode = Words {
            editor: OptionEditor::new(
                1,
                WORD_COUNTS,
                words as u64,
                DEFAULT_CUSTOM_COUNT,
                COUNT_STEP,
                COUNT_FLOOR,
            ),
            clock: SessionClock::new(),
            buffer: WordBuffer::new(),
            corpus: Vec::new(),
        };
        proof {
            assert(mode@.corpus =~= Seq::<Seq<char>>::empty());
        }
        mode
    }

    /// The invariant of a session that was driven through its methods with
    /// readings that never went back.
    pub open spec fn wf(&self) -> bool {
        self@.wf()
    }

    /// The number of words of the session.
    pub fn count(&self) -> (count: usize)
        ensures
            count == count_of(self@.editor.value),
    {
        let value = self.editor.value();
        if value > usize::MAX as u64 {
            usize::MAX
        } else {
            value as usize
        }
    }

    /// Sets the session up from a configuration and the lines of its text:
    /// takes the number of words if the configuration is for this mode,
    /// forgets what was typed and draws new target words.
    pub fn initialize(&mut self, config: &Config, corpus: &Vec<Vec<char>>)
        ensures
            old(self)@.initialized_to(final(self)@, config.defaults.mode, word_views(corpus@)),
            old(self).wf() ==> final(self).wf(),
    {
        self.corpus = words_clone(corpus);
        if let Mode::Words { count } = config.defaults.mode {
            self.editor.configure(count as u64);
        }
        self.reset();
    }

    /// Applies a key pressed at `now`.
    ///
    /// The rules are those of the clock mode: while an option is being
    /// edited the key goes to the option editor; otherwise characters and
    /// Backspace edit the typed words. A key that assigns the number of
    /// words starts the session over with that many words.
    pub fn handle_input(&mut self, key: Key, now: Timestamp) -> (action: Action)
        ensures
            old(self)@.stepped_to(final(self)@, key, now),
            action@ == action_of_effect(effect_of_key(old(self)@.typing(), key)),
            old(self).wf() && reading_in_order(old(self)@.typing(), now) ==> final(self).wf(),
            old(self).wf() && reading_in_order(old(self)@.typing(), now) ==> reading_in_order(
                final(self)@.typing(),
                now,
            ),
    {
        let effect = handle_typing(&mut self.editor, &mut self.clock, &mut self.buffer, key, now);
        if effect == Effect::Applied {
            self.reset();
        }
        action_for(effect)
    }

    /// Whether every target word has been typed.
    pub fn is_complete(&self) -> (done: bool)
        ensures
            done == self@.all_typed(),
    {
        let typed = self.buffer.typed_words();
        let target = self.buffer.target_words();
        let n = typed.len();
        if n > target.len() {
            return true;
        }
        if n == target.len() && n > 0 {
            assert(self@.buffer.typed.last() == typed@[n - 1]@);
            assert(self@.buffer.target.last() == target@[n - 1]@);
            return typed[n - 1].len() == target[n - 1].len();
        }
        false
    }

    /// Captures the end of the session at `now`. The end is captured once:
    /// a second report changes nothing.
    pub fn on_complete(&mut self, now: Timestamp)
        ensures
            final(self)@ == (WordsView { clock: finished_at(old(self)@.clock, now), ..old(self)@ }),
            old(self)@.clock.end is Some ==> final(self)@ == old(self)@,
            old(self).wf() && not_before_start(old(self)@.clock, now) ==> final(self).wf(),
    {
        self.clock.finish(now);
    }

    /// Starts over: draws new target words and forgets what was typed, the
    /// samples, the start and the end. The options stay as they are.
    pub fn reset(&mut self)
        ensures
            final(self)@.is_fresh(old(self)@.editor, old(self)@.corpus),
            old(self).wf() ==> final(self).wf(),
    {
        let words = generate_words(&self.corpus, self.count());
        self.buffer.set_target(words);
        self.buffer.clear();
        self.clock.reset();
    }

    /// Enter or Space in the menu: confirms what is being edited, or acts
    /// on the focused entry. A confirmed change of mode comes back as a
    /// request to switch; an assigned number of words starts the session
    /// over with that many words.
    pub fn select_option(&mut self) -> (action: Action)
        ensures
            old(self)@.selected_to(final(self)@),
            action@ == action_of_effect(effect_of_select(old(self)@.editor)),
            old(self).wf() ==> final(self).wf(),
    {
        let effect = self.editor.select();
        if effect == Effect::Applied {
            self.reset();
        }
        action_for(effect)
    }

    /// An arrow key in the menu while an entry is being edited: adjusts
    /// it. An adjusted number of words starts the session over.
    pub fn adjust_option(&mut self, direction: Direction)
        ensures
            old(self)@.adjusted_to(final(self)@, direction),
            old(self).wf() ==> final(self).wf(),
    {
        let effect = self.editor.adjust(direction);
        if effect == Effect::Applied {
            self.reset();
        }
    }

    /// An arrow key in the menu while nothing is being edited: moves the
    /// focus.
    pub fn navigate(&mut self, direction: Direction)
        ensures
            final(self)@ == (WordsView {
                editor: after_navigate(old(self)@.editor, direction),
                ..old(self)@
            }),
            old(self).wf() ==> final(self).wf(),
    {
        self.editor.navigate(direction);
    }

    /// Whether an entry of the menu is being edited.
    pub fn is_option_editing(&self) -> (yes: bool)
        ensures
            yes == (self@.editor.editing is Some),
    {
        self.editor.is_editing()
    }

    /// The number of entries of the menu that belong to this mode.
    pub fn option_count(&self) -> (count: usize)
        ensures
            count == option_count_of(self@.editor),
    {
        self.editor.option_count()
    }

    /// The menu, ready to be drawn.
    pub fn get_options(&self) -> (items: Vec<OptionItem>)
        ensures
            item_views(items@) == spec_menu(self@.editor, ""@),
    {
        self.editor.items("")
    }

    /// The typed and the target number of words, as `typed/target`.
    pub fn get_progress(&self) -> (progress: String)
        ensures
            progress@ == self@.progress(),
    {
        let mut text: Vec<char> = Vec::new();
        push_decimal(&mut text, self.buffer.typed_words().len() as u128);
        text.push('/');
        push_decimal(&mut text, self.editor.value() as u128);
        proof {
            assert(text@ =~= self@.progress());
        }
        string_of(&text)
    }

    /// The typing area: the comparison of what was typed with the target.
    pub fn get_characters(&self) -> (cells: Vec<StyledChar>)
        ensures
            cells@ == spec_diff(self@.buffer.target, self@.buffer.typed),
    {
        get_typing_spans(
            self.buffer.target_words().as_slice(),
            self.buffer.typed_words().as_slice(),
        )
    }

    /// The statistics of the session, over the time from its start to its
    /// end. Until both are there, speed and accuracy are zero.
    pub fn get_stats(&self) -> (stats: GameStats)
        ensures
            stats == spec_calculate(
                session_length(self@.clock) as u128,
                self@.buffer.typed,
                self@.buffer.target,
            ),
            stats.accuracy.num <= stats.accuracy.den,
    {
        GameStats::calculate(
            self.clock.length(),
            self.buffer.typed_words().as_slice(),
            self.buffer.target_words().as_slice(),
        )
    }

    /// The speed-over-time series of the session.
    pub fn get_wpm_data(&self) -> (series: Vec<WpmSample>)
        ensures
            series@ == spec_series(self@.clock, self@.buffer),
    {
        wpm_series(&self.clock, &self.buffer)
    }

    /// The menu.
    pub fn editor(&self) -> (editor: &OptionEditor)
        ensures
            editor@ == self@.editor,
    {
        &self.editor
    }

    /// The session clock.
    pub fn clock(&self) -> (clock: SessionClock)
        ensures
            clock == self@.clock,
    {
        self.clock
    }

    /// The word buffer.
    pub fn buffer(&self) -> (buffer: &WordBuffer)
        ensures
            buffer@ == self@.buffer,
    {
        &self.buffer
    }
}

} // verus!

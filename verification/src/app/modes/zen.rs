//! # Zen Mode
//!
//! Free typing without a target text. Every typed character counts as
//! correct, the session ends when the user says so, and the speed is the
//! raw number of characters over the time.

use crate::app::events::{Action, Direction, Key, KeyCode};
use crate::app::modes::options::{
    after_adjust, after_editing_key, after_navigate, after_select, editor_wf,
    effect_of_editing_key, effect_of_select, item_views, option_count_of, spec_menu, EditorView,
    Effect, OptionEditor, OptionItem,
};
use crate::app::modes::session::{
    clock_wf, elapsed_at, finished_at, not_before_start, session_length, started_at, SessionClock,
};
use crate::app::modes::stats::{rational_eq, whole, GameStats, Ratio};
use crate::app::modes::text::{push_decimal, push_str, spec_decimal, string_of};
use crate::app::modes::typing::not_before_samples;
use crate::app::modes::util::{action_for, action_of_effect, origin_point, WpmSample};
use crate::app::time::{spec_elapsed, Timestamp};
use crate::app::ui::chars::{styled, CharState, StyledChar};
use crate::config::Config;
use vstd::prelude::*;

verus! {

/// What a [`Zen`] holds, as plain values.
pub struct ZenView {
    /// The menu: the mode selector alone.
    pub editor: EditorView,
    pub clock: SessionClock,
    /// The typed characters, spaces included.
    pub typed: Seq<char>,
    /// For each typed space that is still there, the number of characters
    /// up to and including it and the clock reading at which it was typed.
    pub samples: Seq<(usize, Timestamp)>,
}

/// The number of spaces among the first `n` characters.
pub open spec fn spaces_upto(typed: Seq<char>, n: int) -> nat
    decreases n,
{
    if n <= 0 {
        0
    } else {
        spaces_upto(typed, n - 1) + if typed[n - 1] == ' ' {
            1nat
        } else {
            0nat
        }
    }
}

/// The number of words in a text: the runs that its spaces separate, where
/// an empty run at the end is no word.
pub open spec fn spec_word_count(typed: Seq<char>) -> nat {
    if typed.len() == 0 {
        0
    } else {
        spaces_upto(typed, typed.len() as int) + if typed.last() != ' ' {
            1nat
        } else {
            0nat
        }
    }
}

/// Drops the latest sample if it belongs to a space that is no longer
/// there: with `len` characters left, a sample counts at most `len`.
pub open spec fn trim_chars(samples: Seq<(usize, Timestamp)>, len: int) -> Seq<
    (usize, Timestamp),
> {
    if samples.len() > 0 && samples.last().0 > len {
        samples.drop_last()
    } else {
        samples
    }
}

/// The session after a key at `now`.
///
/// While the mode selector is being edited the key goes to the option
/// editor. Otherwise Enter ends a session in which something was typed, a
/// character starts the clock if it is the first one and is appended, with
/// a sample if it is a space, and Backspace removes the last character.
pub open spec fn zen_after_key(s: ZenView, key: Key, now: Timestamp) -> ZenView {
    if s.editor.editing is Some {
        ZenView { editor: after_editing_key(s.editor, key), ..s }
    } else {
        match key.code {
            KeyCode::Enter => {
                if s.typed.len() > 0 {
                    ZenView { clock: finished_at(s.clock, now), ..s }
                } else {
                    s
                }
            },
            KeyCode::Char(c) => ZenView {
                clock: started_at(s.clock, now),
                typed: s.typed.push(c),
                samples: if c == ' ' {
                    s.samples.push(((s.typed.len() + 1) as usize, now))
                } else {
                    s.samples
                },
                ..s
            },
            KeyCode::Backspace => {
                if s.typed.len() == 0 {
                    s
                } else {
                    ZenView {
                        typed: s.typed.drop_last(),
                        samples: trim_chars(s.samples, s.typed.len() - 1),
                        ..s
                    }
                }
            },
            _ => s,
        }
    }
}

/// What a key asks of the controller: a confirmed change of mode is a
/// request to switch.
pub open spec fn zen_effect_of_key(s: ZenView, key: Key) -> Effect {
    if s.editor.editing is Some {
        effect_of_editing_key(s.editor, key)
    } else {
        Effect::Nothing
    }
}

/// The invariant of a session that was driven by keys alone, with readings
/// that never went back.
pub open spec fn zen_wf(s: ZenView) -> bool {
    &&& editor_wf(s.editor)
    &&& clock_wf(s.clock)
    &&& s.typed.len() > 0 ==> s.clock.start is Some
    // every sample is for one of the typed characters, later samples for
    // later characters
    &&& (forall|k: int|
        0 <= k < s.samples.len() ==> 0 < (#[trigger] s.samples[k]).0 <= s.typed.len())
    &&& (forall|i: int, j: int|
        0 <= i < j < s.samples.len() ==> (#[trigger] s.samples[i]).0 < (#[trigger] s.samples[j]).0)
    // the samples' readings never decrease and none is before the start
    &&& (forall|i: int, j: int|
        0 <= i <= j < s.samples.len() ==> (#[trigger] s.samples[i]).1.nanos <= (
        #[trigger] s.samples[j]).1.nanos)
    &&& s.samples.len() > 0 ==> s.clock.start is Some
    &&& (forall|k: int|
        0 <= k < s.samples.len() ==> s.clock.start->0.nanos <= (#[trigger] s.samples[k]).1.nanos)
}

/// Whether a reading is not before anything that the session has recorded.
pub open spec fn zen_reading_in_order(s: ZenView, now: Timestamp) -> bool {
    &&& not_before_start(s.clock, now)
    &&& not_before_samples(s.samples, now)
}

/// The time that the statistics at `now` are taken over: from start to
/// end, from the start to `now` while the session runs, and none before it
/// starts.
pub open spec fn zen_duration(clock: SessionClock, now: Timestamp) -> nat {
    if clock.end is Some {
        session_length(clock)
    } else {
        elapsed_at(clock, now)
    }
}

/// The statistics of free typing: every character counts and every
/// character is correct.
pub open spec fn zen_stats(chars: nat, duration: nat) -> GameStats {
    GameStats {
        total_chars: chars as u128,
        accuracy: Ratio { num: 1, den: 1 },
        duration: duration as u128,
    }
}

/// The point of sample `k`: the time from the start to the sample and the
/// statistics of the characters typed by then.
pub open spec fn zen_sample_point(start: Timestamp, samples: Seq<(usize, Timestamp)>, k: int)
    -> WpmSample {
    let (count, at) = samples[k];
    WpmSample {
        elapsed: spec_elapsed(start, at) as u128,
        stats: zen_stats(count as nat, spec_elapsed(start, at)),
    }
}

/// One of the points of a series: the origin first, then one per sample.
pub open spec fn zen_series_point(start: Timestamp, samples: Seq<(usize, Timestamp)>, i: int)
    -> WpmSample {
    if i <= 0 {
        origin_point()
    } else {
        zen_sample_point(start, samples, i - 1)
    }
}

/// The speed-over-time series: the origin, and then, if the session has
/// started, one point per sample.
pub open spec fn zen_series(s: ZenView) -> Seq<WpmSample> {
    match s.clock.start {
        Some(start) => Seq::new(s.samples.len() + 1, |i: int| zen_series_point(start, s.samples, i)),
        None => seq![origin_point()],
    }
}

/// The typing area: every typed character as correct, then the cursor.
pub open spec fn zen_cells(typed: Seq<char>) -> Seq<StyledChar> {
    Seq::new(typed.len(), |i: int| styled(typed[i], CharState::Correct)).push(
        styled(' ', CharState::Cursor),
    )
}

/// The number of words and the word `words`, empty before the session
/// starts.
pub open spec fn zen_progress(s: ZenView) -> Seq<char> {
    if s.clock.start is Some {
        spec_decimal(spec_word_count(s.typed)) + " words"@
    } else {
        Seq::empty()
    }
}

/// A session of the zen mode: the menu, the session clock, the typed
/// characters and one sample per typed space.
pub struct Zen {
    editor: OptionEditor,
    clock: SessionClock,
    typed_chars: Vec<char>,
    timestamps: Vec<(usize, Timestamp)>,
}

impl View for Zen {
    type V = ZenView;

    closed spec fn view(&self) -> ZenView {
        ZenView {
            editor: self.editor@,
            clock: self.clock,
            typed: self.typed_chars@,
            samples: self.timestamps@,
        }
    }
}

impl Default for Zen {
    fn default() -> (mode: Self)
        ensures
            mode@ == fresh_zen(),
    {
        Self::new()
    }
}

/// A session in which nothing has happened yet.
pub open spec fn fresh_zen() -> ZenView {
    ZenView {
        editor: EditorView {
            own_mode: 2,
            presets: Seq::empty(),
            value: 0,
            custom: 0,
            step: 0,
            floor: 0,
            focus: 0,
            editing: None,
        },
        clock: SessionClock { start: None, end: None },
        typed: Seq::empty(),
        samples: Seq::empty(),
    }
}

impl Zen {
    /// A session in which nothing has happened yet.
    pub fn new() -> (mode: Self)
        ensures
            mode@ == fresh_zen(),
            mode.wf(),
    {
        Self {
            editor: OptionEditor::without_options(2),
            clock: SessionClock::new(),
            typed_chars: Vec::new(),
            timestamps: Vec::new(),
        }
    }

    /// The invariant of a session that was driven through its methods with
    /// readings that never went back.
    pub open spec fn wf(&self) -> bool {
        zen_wf(self@)
    }

    /// The number of words typed so far.
    pub fn word_count(&self) -> (count: usize)
        ensures
            count == spec_word_count(self@.typed),
    {
        let n = self.typed_chars.len();
        if n == 0 {
            return 0;
        }
        let mut count: usize = 0;
        let mut i: usize = 0;
        while i < n - 1
            invariant
                n == self.typed_chars.len(),
                0 < n,
                i <= n - 1,
                count <= i,
                count == spaces_upto(self.typed_chars@, i as int),
            decreases n - 1 - i,
        {
            if self.typed_chars[i] == ' ' {
                count += 1;
            }
            i += 1;
        }
        assert(self.typed_chars@.last() == self.typed_chars@[n - 1]);
        // the last character is a space or a word's end: one more either
        // way
        count + 1
    }

    /// Sets the session up: forgets everything. This mode takes nothing
    /// from the configuration.
    pub fn initialize(&mut self, _config: &Config)
        ensures
            final(self)@ == (ZenView {
                clock: SessionClock { start: None, end: None },
                typed: Seq::empty(),
                samples: Seq::empty(),
                ..old(self)@
            }),
            old(self).wf() ==> final(self).wf(),
    {
        self.reset();
    }

    /// Applies a key pressed at `now`.
    pub fn handle_input(&mut self, key: Key, now: Timestamp) -> (action: Action)
        ensures
            final(self)@ == zen_after_key(old(self)@, key, now),
            action@ == action_of_effect(zen_effect_of_key(old(self)@, key)),
            old(self).wf() && zen_reading_in_order(old(self)@, now) ==> final(self).wf(),
            old(self).wf() && zen_reading_in_order(old(self)@, now) ==> zen_reading_in_order(
                final(self)@,
                now,
            ),
    {
        if self.editor.is_editing() {
            let effect = self.editor.handle_key(key);
            return action_for(effect);
        }
        match key.code {
            KeyCode::Enter => {
                if self.typed_chars.len() > 0 {
                    self.clock.finish(now);
                }
            },
            KeyCode::Char(c) => {
                self.clock.begin(now);
                self.typed_chars.push(c);
                if c == ' ' {
                    self.timestamps.push((self.typed_chars.len(), now));
                }
            },
            KeyCode::Backspace => {
                if self.typed_chars.len() > 0 {
                    self.typed_chars.pop();
                    let k = self.timestamps.len();
                    if k > 0 && self.timestamps[k - 1].0 > self.typed_chars.len() {
                        self.timestamps.pop();
                    }
                }
            },
            _ => {},
        }
        Action::Nothing
    }

    /// Starts over: forgets what was typed, the samples, the start and the
    /// end.
    pub fn reset(&mut self)
        ensures
            final(self)@ == (ZenView {
                clock: SessionClock { start: None, end: None },
                typed: Seq::empty(),
                samples: Seq::empty(),
                ..old(self)@
            }),
            old(self).wf() ==> final(self).wf(),
    {
        self.clock.reset();
        self.typed_chars.clear();
        self.timestamps.clear();
    }

    /// Whether the session has ended.
    pub fn is_complete(&self) -> (done: bool)
        ensures
            done == (self@.clock.end is Some),
    {
        self.clock.end.is_some()
    }

    /// Captures the end of the session at `now`. The end is captured once:
    /// a second report changes nothing.
    pub fn on_complete(&mut self, now: Timestamp)
        ensures
            final(self)@ == (ZenView { clock: finished_at(old(self)@.clock, now), ..old(self)@ }),
            old(self)@.clock.end is Some ==> final(self)@ == old(self)@,
            old(self).wf() && not_before_start(old(self)@.clock, now) ==> final(self).wf(),
    {
        self.clock.finish(now);
    }

    /// Enter or Space in the menu: opens the mode selector or confirms its
    /// candidate. A confirmed change of mode comes back as a request to
    /// switch.
    pub fn select_option(&mut self) -> (action: Action)
        ensures
            final(self)@ == (ZenView { editor: after_select(old(self)@.editor), ..old(self)@ }),
            action@ == action_of_effect(effect_of_select(old(self)@.editor)),
            old(self).wf() ==> final(self).wf(),
    {
        let effect = self.editor.select();
        action_for(effect)
    }

    /// An arrow key in the menu while the mode selector is being edited:
    /// moves to the next candidate.
    pub fn adjust_option(&mut self, direction: Direction)
        ensures
            final(self)@ == (ZenView {
                editor: after_adjust(old(self)@.editor, direction),
                ..old(self)@
            }),
            old(self).wf() ==> final(self).wf(),
    {
        let _ = self.editor.adjust(direction);
    }

    /// An arrow key in the menu while nothing is being edited: moves the
    /// focus.
    pub fn navigate(&mut self, direction: Direction)
        ensures
            final(self)@ == (ZenView {
                editor: after_navigate(old(self)@.editor, direction),
                ..old(self)@
            }),
            old(self).wf() ==> final(self).wf(),
    {
        self.editor.navigate(direction);
    }

    /// Whether the mode selector is being edited.
    pub fn is_option_editing(&self) -> (yes: bool)
        ensures
            yes == (self@.editor.editing is Some),
    {
        self.editor.is_editing()
    }

    /// The number of entries of the menu that belong to this mode.
    pub fn option_count(&self) -> (count: usize)
        ensures
            count == option_count_of(self@.editor),
    {
        self.editor.option_count()
    }

    /// The menu, ready to be drawn: the mode selector alone.
    pub fn get_options(&self) -> (items: Vec<OptionItem>)
        ensures
            item_views(items@) == spec_menu(self@.editor, ""@),
    {
        self.editor.items("")
    }

    /// The number of words typed so far, empty before the session starts.
    pub fn get_progress(&self) -> (progress: String)
        ensures
            progress@ == zen_progress(self@),
    {
        let mut text: Vec<char> = Vec::new();
        if self.clock.start.is_some() {
            push_decimal(&mut text, self.word_count() as u128);
            push_str(&mut text, " words");
        }
        string_of(&text)
    }

    /// The typing area: every typed character as correct, then the cursor.
    pub fn get_characters(&self) -> (cells: Vec<StyledChar>)
        ensures
            cells@ == zen_cells(self@.typed),
    {
        let mut cells: Vec<StyledChar> = Vec::new();
        let mut i: usize = 0;
        while i < self.typed_chars.len()
            invariant
                i <= self.typed_chars.len(),
                cells.len() == i,
                forall|k: int|
                    0 <= k < i ==> #[trigger] cells@[k] == styled(
                        self.typed_chars@[k],
                        CharState::Correct,
                    ),
            decreases self.typed_chars.len() - i,
        {
            cells.push(StyledChar::new(self.typed_chars[i], CharState::Correct));
            i += 1;
        }
        cells.push(StyledChar::new(' ', CharState::Cursor));
        proof {
            assert(cells@ =~= zen_cells(self@.typed));
        }
        cells
    }

    /// The statistics at `now`: every typed character counts, accuracy is
    /// 100 percent, and the time is that of the session so far.
    pub fn get_stats(&self, now: Timestamp) -> (stats: GameStats)
        ensures
            stats == zen_stats(self@.typed.len(), zen_duration(self@.clock, now)),
    {
        let duration = match (self.clock.start, self.clock.end) {
            (Some(start), Some(end)) => end.since(start),
            (Some(start), None) => now.since(start),
            _ => 0,
        };
        GameStats::new(self.typed_chars.len() as u128, Ratio { num: 1, den: 1 }, duration)
    }

    /// The speed-over-time series of the session.
    pub fn get_wpm_data(&self) -> (series: Vec<WpmSample>)
        ensures
            series@ == zen_series(self@),
    {
        let mut series: Vec<WpmSample> = Vec::new();
        series.push(
            WpmSample { elapsed: 0, stats: GameStats::new(0, Ratio { num: 0, den: 0 }, 0) },
        );
        match self.clock.start {
            Some(start) => {
                let mut k: usize = 0;
                while k < self.timestamps.len()
                    invariant
                        k <= self.timestamps.len(),
                        series.len() == k + 1,
                        forall|i: int|
                            0 <= i <= k ==> #[trigger] series@[i] == zen_series_point(
                                start,
                                self.timestamps@,
                                i,
                            ),
                    decreases self.timestamps.len() - k,
                {
                    let (count, at) = self.timestamps[k];
                    let elapsed = at.since(start);
                    series.push(
                        WpmSample {
                            elapsed,
                            stats: GameStats::new(count as u128, Ratio { num: 1, den: 1 }, elapsed),
                        },
                    );
                    k += 1;
                }
                proof {
                    assert(series@ =~= zen_series(self@));
                }
            },
            None => {
                proof {
                    assert(series@ =~= zen_series(self@));
                }
            },
        }
        series
    }

    /// The menu.
    pub fn editor(&self) -> (editor: &OptionEditor)
        ensures
            editor@ == self@.editor,
    {
        &self.editor
    }

    /// The session clock.
    pub fn clock(&self) -> (clock: SessionClock)
        ensures
            clock == self@.clock,
    {
        self.clock
    }

    /// The typed characters.
    pub fn typed_chars(&self) -> (typed: &Vec<char>)
        ensures
            typed@ == self@.typed,
    {
        &self.typed_chars
    }
}

/// The series never goes back in time: in a session that was driven by
/// keys alone, with readings that never went back, every point is at least
/// as late as the points before it.
pub proof fn lemma_zen_series_is_monotonic(s: ZenView, i: int, j: int)
    requires
        zen_wf(s),
        0 <= i <= j < zen_series(s).len(),
    ensures
        zen_series(s)[i].elapsed <= zen_series(s)[j].elapsed,
{
    if s.clock.start is Some {
        let start = s.clock.start->0;
        if i > 0 {
            assert(s.samples[i - 1].1.nanos <= s.samples[j - 1].1.nanos);
            assert(start.nanos <= s.samples[i - 1].1.nanos);
        }
    }
}

/// Free typing is never penalised: its accuracy is 100 percent and its
/// speed is the gross speed.
pub proof fn lemma_zen_accuracy_is_full(chars: nat, duration: nat)
    ensures
        zen_stats(chars, duration).accuracy_percent() == whole(100),
        rational_eq(
            zen_stats(chars, duration).wpm(),
            zen_stats(chars, duration).gross_wpm(),
        ),
{
    let s = zen_stats(chars, duration);
    let g = s.gross_wpm();
    assert((g.num * 100) * g.den == g.num * (g.den * 1 * 100)) by (nonlinear_arith);
}

} // verus!

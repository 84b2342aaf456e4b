//! # Mode Utilities Module
//!
//! What the modes with a target text share: how a key changes the option
//! editor, the session clock and the word buffer, and how the target words
//! are drawn from a corpus.

use crate::app::events::{Action, ActionView, Key, KeyCode};
use crate::app::modes::options::{
    after_editing_key, editor_wf, effect_of_editing_key, mode_name, spec_mode_name, EditorView,
    Effect, OptionEditor,
};
use crate::app::modes::session::{clock_wf, not_before_start, started_at, SessionClock};
use crate::app::modes::stats::{spec_calculate, GameStats, Ratio};
use crate::app::modes::text::{word_clone, word_views};
use crate::app::modes::typing::{
    after_backspace, after_key, buffer_wf, not_before_samples, BufferView, WordBuffer,
};
use crate::app::time::{spec_elapsed, Timestamp};
use rand::seq::SliceRandom;
use vstd::prelude::*;
use vstd::slice::slice_subrange;

verus! {

/// The three parts of a session that a key can change.
pub struct TypingView {
    pub editor: EditorView,
    pub clock: SessionClock,
    pub buffer: BufferView,
}

/// The session after a key at `now`.
///
/// While an option is being edited the key goes to the option editor.
/// Otherwise a character starts the clock if it is the first one and then
/// edits the word buffer, Backspace edits the word buffer, and every other
/// key is ignored.
pub open spec fn typing_after_key(s: TypingView, key: Key, now: Timestamp) -> TypingView {
    if s.editor.editing is Some {
        TypingView { editor: after_editing_key(s.editor, key), ..s }
    } else {
        match key.code {
            KeyCode::Char(c) => TypingView {
                clock: started_at(s.clock, now),
                buffer: after_key(s.buffer, c, key.ctrl, now),
                ..s
            },
            KeyCode::Backspace => TypingView { buffer: after_backspace(s.buffer), ..s },
            _ => s,
        }
    }
}

/// What a key at `now` did to the options.
pub open spec fn effect_of_key(s: TypingView, key: Key) -> Effect {
    if s.editor.editing is Some {
        effect_of_editing_key(s.editor, key)
    } else {
        Effect::Nothing
    }
}

/// The action that an effect on the options asks of the controller: a
/// confirmed change of mode is a request to switch, by the mode's name.
pub open spec fn action_of_effect(effect: Effect) -> ActionView {
    match effect {
        Effect::SwitchMode(candidate) => ActionView::SwitchMode(spec_mode_name(candidate as int)),
        _ => ActionView::Nothing,
    }
}

/// Whether a reading is not before anything that the session has recorded.
pub open spec fn reading_in_order(s: TypingView, now: Timestamp) -> bool {
    &&& not_before_start(s.clock, now)
    &&& not_before_samples(s.buffer.samples, now)
}

/// The invariant of a session that was driven by keys alone, with readings
/// that never went back: something typed means the clock has started, and no
/// sample is from before the start.
pub open spec fn typing_wf(s: TypingView) -> bool {
    &&& editor_wf(s.editor)
    &&& clock_wf(s.clock)
    &&& buffer_wf(s.buffer)
    &&& s.buffer.typed.len() > 0 ==> s.clock.start is Some
    &&& s.buffer.samples.len() > 0 ==> s.clock.start is Some
    &&& (forall|k: int|
        0 <= k < s.buffer.samples.len() ==> s.clock.start->0.nanos <= (
        #[trigger] s.buffer.samples[k]).1.nanos)
}

/// Applies a key at `now` to the option editor, the session clock and the
/// word buffer of a session, and says what it did to the options.
pub fn handle_typing(
    editor: &mut OptionEditor,
    clock: &mut SessionClock,
    buffer: &mut WordBuffer,
    key: Key,
    now: Timestamp,
) -> (effect: Effect)
    ensures
        (TypingView { editor: final(editor)@, clock: *final(clock), buffer: final(buffer)@ })
            == typing_after_key(
            TypingView { editor: old(editor)@, clock: *old(clock), buffer: old(buffer)@ },
            key,
            now,
        ),
        effect == effect_of_key(
            TypingView { editor: old(editor)@, clock: *old(clock), buffer: old(buffer)@ },
            key,
        ),
        typing_wf(TypingView { editor: old(editor)@, clock: *old(clock), buffer: old(buffer)@ })
            && reading_in_order(
            TypingView { editor: old(editor)@, clock: *old(clock), buffer: old(buffer)@ },
            now,
        ) ==> typing_wf(
            TypingView { editor: final(editor)@, clock: *final(clock), buffer: final(buffer)@ },
        ),
        typing_wf(TypingView { editor: old(editor)@, clock: *old(clock), buffer: old(buffer)@ })
            && reading_in_order(
            TypingView { editor: old(editor)@, clock: *old(clock), buffer: old(buffer)@ },
            now,
        ) ==> reading_in_order(
            TypingView { editor: final(editor)@, clock: *final(clock), buffer: final(buffer)@ },
            now,
        ),
{
    if editor.is_editing() {
        return editor.handle_key(key);
    }
    match key.code {
        KeyCode::Char(c) => {
            clock.begin(now);
            buffer.input(c, key.ctrl, now);
        },
        KeyCode::Backspace => {
            buffer.backspace();
        },
        _ => {},
    }
    Effect::Nothing
}

/// The action that an effect on the options asks of the controller.
pub fn action_for(effect: Effect) -> (action: Action)
    ensures
        action@ == action_of_effect(effect),
{
    match effect {
        Effect::SwitchMode(candidate) => Action::SwitchMode(mode_name(candidate).to_owned()),
        _ => Action::Nothing,
    }
}

/// The first `n` items of the endless repetition of `lines`; nothing when
/// there are no lines to repeat.
pub open spec fn cycle_take(lines: Seq<Seq<char>>, n: nat) -> Seq<Seq<char>> {
    if lines.len() == 0 {
        Seq::empty()
    } else {
        Seq::new(n, |i: int| lines[i % (lines.len() as int)])
    }
}

/// Whether `words` holds the items of `source`, each as often as `source`
/// does, in any order.
pub open spec fn is_shuffle_of(words: Seq<Seq<char>>, source: Seq<Seq<char>>) -> bool {
    words.to_multiset() == source.to_multiset()
}

/// The first `n` words of the endless repetition of `corpus`.
pub fn cycle_words(corpus: &Vec<Vec<char>>, n: usize) -> (words: Vec<Vec<char>>)
    ensures
        word_views(words@) == cycle_take(word_views(corpus@), n as nat),
{
    let mut words: Vec<Vec<char>> = Vec::new();
    if corpus.len() == 0 {
        proof {
            assert(word_views(words@) =~= Seq::<Seq<char>>::empty());
        }
        return words;
    }
    let mut i: usize = 0;
    let mut at: usize = 0;
    while i < n
        invariant
            corpus.len() > 0,
            i <= n,
            at < corpus.len(),
            at == i % corpus.len(),
            words.len() == i,
            forall|k: int|
                0 <= k < i ==> (#[trigger] words@[k])@ == corpus@[k % (corpus.len() as int)]@,
        decreases n - i,
    {
        words.push(word_clone(&corpus[at]));
        proof {
            lemma_next_in_cycle(i as int, corpus.len() as int);
        }
        i += 1;
        at = if at + 1 == corpus.len() {
            0
        } else {
            at + 1
        };
    }
    proof {
        assert(word_views(words@) =~= cycle_take(word_views(corpus@), n as nat));
    }
    words
}

/// Going one step on in a cycle of `len` places.
proof fn lemma_next_in_cycle(i: int, len: int)
    requires
        0 <= i,
        0 < len,
    ensures
        (i + 1) % len == (if i % len + 1 == len {
            0
        } else {
            i % len + 1
        }),
{
    vstd::arithmetic::div_mod::lemma_fundamental_div_mod(i, len);
    vstd::arithmetic::div_mod::lemma_fundamental_div_mod(i + 1, len);
    vstd::arithmetic::div_mod::lemma_mod_bound(i, len);
    vstd::arithmetic::div_mod::lemma_mod_bound(i + 1, len);
    let q = i / len;
    let r = i % len;
    assert(len * q == q * len) by (nonlinear_arith);
    if r + 1 == len {
        assert(i + 1 == (q + 1) * len + 0) by (nonlinear_arith)
            requires
                i == len * q + r,
                r + 1 == len,
        ;
        vstd::arithmetic::div_mod::lemma_fundamental_div_mod_converse(i + 1, len, q + 1, 0);
    } else {
        vstd::arithmetic::div_mod::lemma_fundamental_div_mod_converse(i + 1, len, q, r + 1);
    }
}

/// Shuffles the words in place with `rand`'s `SliceRandom::shuffle`, driven
/// by the generator that `rand::rng` hands out.
///
/// The shuffle only swaps items of the slice, so the same words are there
/// afterwards, each as often as before. Nothing is said of their order.
#[verifier::external_body]
fn shuffle_words(words: &mut Vec<Vec<char>>)
    ensures
        is_shuffle_of(word_views(final(words)@), word_views(old(words)@)),
{
    words.shuffle(&mut rand::rng());
}

/// Draws `n` target words from a corpus: the corpus is repeated as often
/// as it takes, cut after `n` words, and shuffled.
pub fn generate_words(corpus: &Vec<Vec<char>>, n: usize) -> (words: Vec<Vec<char>>)
    ensures
        is_shuffle_of(word_views(words@), cycle_take(word_views(corpus@), n as nat)),
        words@.len() == cycle_take(word_views(corpus@), n as nat).len(),
{
    let mut words = cycle_words(corpus, n);
    shuffle_words(&mut words);
    proof {
        word_views(words@).to_multiset_ensures();
        cycle_take(word_views(corpus@), n as nat).to_multiset_ensures();
    }
    words
}

/// One point of the speed-over-time series: the time since the start of
/// the session, and the statistics of what had been typed by then.
#[derive(Clone, Copy, Debug, PartialEq, Eq, Structural)]
pub struct WpmSample {
    /// Nanoseconds since the start of the session.
    pub elapsed: u128,
    pub stats: GameStats,
}

/// The point that every series starts with: no time, no speed.
pub open spec fn origin_point() -> WpmSample {
    WpmSample {
        elapsed: 0,
        stats: GameStats { total_chars: 0, accuracy: Ratio { num: 0, den: 0 }, duration: 0 },
    }
}

/// The first `count` words of a list, all of them if there are fewer.
pub open spec fn first_words(words: Seq<Seq<char>>, count: int) -> Seq<Seq<char>> {
    if count <= 0 {
        Seq::empty()
    } else if count >= words.len() {
        words
    } else {
        words.take(count)
    }
}

/// The point of sample `k`: the time from the start to the sample, and the
/// statistics over that time of the typed and target words cut to the
/// sample's word count.
pub open spec fn sample_point(start: Timestamp, buffer: BufferView, k: int) -> WpmSample {
    let (count, at) = buffer.samples[k];
    let elapsed = spec_elapsed(start, at) as u128;
    WpmSample {
        elapsed,
        stats: spec_calculate(
            elapsed,
            first_words(buffer.typed, count as int),
            first_words(buffer.target, count as int),
        ),
    }
}

/// One of the points of a series: the origin first, then one per sample.
pub open spec fn series_point(start: Timestamp, buffer: BufferView, i: int) -> WpmSample {
    if i <= 0 {
        origin_point()
    } else {
        sample_point(start, buffer, i - 1)
    }
}

/// The speed-over-time series of a session: the origin, and then, if the
/// session has started, one point per sample.
pub open spec fn spec_series(clock: SessionClock, buffer: BufferView) -> Seq<WpmSample> {
    match clock.start {
        Some(start) => Seq::new(
            buffer.samples.len() + 1,
            |i: int| series_point(start, buffer, i),
        ),
        None => seq![origin_point()],
    }
}

/// The first `count` words of a list, all of them if there are fewer.
fn prefix_of(words: &[Vec<char>], count: usize) -> (prefix: &[Vec<char>])
    ensures
        word_views(prefix@) == first_words(word_views(words@), count as int),
{
    let end = if count >= words.len() {
        words.len()
    } else {
        count
    };
    let prefix = slice_subrange(words, 0, end);
    proof {
        assert(word_views(prefix@) =~= first_words(word_views(words@), count as int));
    }
    prefix
}

/// Reconstructs the speed-over-time series of a session from its samples.
pub fn wpm_series(clock: &SessionClock, buffer: &WordBuffer) -> (series: Vec<WpmSample>)
    ensures
        series@ == spec_series(*clock, buffer@),
{
    let mut series: Vec<WpmSample> = Vec::new();
    series.push(
        WpmSample { elapsed: 0, stats: GameStats::new(0, Ratio { num: 0, den: 0 }, 0) },
    );
    match clock.start {
        Some(start) => {
            let samples = buffer.timestamps();
            let typed = buffer.typed_words();
            let target = buffer.target_words();
            let mut k: usize = 0;
            while k < samples.len()
                invariant
                    k <= samples.len(),
                    samples@ == buffer@.samples,
                    word_views(typed@) == buffer@.typed,
                    word_views(target@) == buffer@.target,
                    series.len() == k + 1,
                    forall|i: int|
                        0 <= i <= k ==> #[trigger] series@[i] == series_point(start, buffer@, i),
                decreases samples.len() - k,
            {
                let (count, at) = samples[k];
                let elapsed = at.since(start);
                let stats = GameStats::calculate(
                    elapsed,
                    prefix_of(typed.as_slice(), count),
                    prefix_of(target.as_slice(), count),
                );
                series.push(WpmSample { elapsed, stats });
                k += 1;
            }
            proof {
                assert(series@ =~= spec_series(*clock, buffer@));
            }
        },
        None => {
            proof {
                assert(series@ =~= spec_series(*clock, buffer@));
            }
        },
    }
    series
}

/// The series never goes back in time: in a session that was driven by
/// keys alone, with readings that never went back, every point is at least
/// as late as the points before it.
pub proof fn lemma_series_is_monotonic(s: TypingView, i: int, j: int)
    requires
        typing_wf(s),
        0 <= i <= j < spec_series(s.clock, s.buffer).len(),
    ensures
        spec_series(s.clock, s.buffer)[i].elapsed <= spec_series(s.clock, s.buffer)[j].elapsed,
{
    if s.clock.start is Some {
        let start = s.clock.start->0;
        if i > 0 {
            assert(s.buffer.samples[i - 1].1.nanos <= s.buffer.samples[j - 1].1.nanos);
            assert(start.nanos <= s.buffer.samples[i - 1].1.nanos);
        }
    }
}

/// Whether a key deletes: Backspace, or `h` with control, the force-clear
/// shortcut.
pub open spec fn is_deletion(key: Key) -> bool {
    key.code == KeyCode::Backspace || (key.code == KeyCode::Char('h') && key.ctrl)
}

/// The session after a sequence of keys, each with the reading at which
/// it was pressed.
pub open spec fn typing_after_keys(s: TypingView, keys: Seq<(Key, Timestamp)>) -> TypingView
    decreases keys.len(),
{
    if keys.len() == 0 {
        s
    } else {
        typing_after_key(typing_after_keys(s, keys.drop_last()), keys.last().0, keys.last().1)
    }
}

/// A commit is one-way: once the current word equals its target word, no
/// sequence of Backspace and force-clear keys, however long, changes the
/// typed words or the samples.
pub proof fn lemma_commit_immutability(s: TypingView, keys: Seq<(Key, Timestamp)>)
    requires
        s.editor.editing is None,
        0 < s.buffer.typed.len() <= s.buffer.target.len(),
        s.buffer.typed.last() == s.buffer.target[s.buffer.typed.len() - 1],
        forall|i: int| 0 <= i < keys.len() ==> is_deletion((#[trigger] keys[i]).0),
    ensures
        typing_after_keys(s, keys).buffer == s.buffer,
        typing_after_keys(s, keys).editor == s.editor,
    decreases keys.len(),
{
    if keys.len() > 0 {
        let earlier = keys.drop_last();
        assert forall|i: int| 0 <= i < earlier.len() implies is_deletion(
            (#[trigger] earlier[i]).0,
        ) by {
            assert(earlier[i] == keys[i]);
        }
        lemma_commit_immutability(s, earlier);
        assert(is_deletion(keys[keys.len() - 1].0));
    }
}

} // verus!

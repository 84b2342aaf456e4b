//! # Typing Module
//!
//! The word buffer of a session: the target words, the words typed so far and
//! one time sample per committed word, with the editing rules that the modes
//! with a target text share.
//!
//! The last typed word is the current word; the words before it are
//! committed. The cursor is derived from the typed words and never stored.

use crate::app::modes::text::{word_eq, word_views};
use crate::app::time::Timestamp;
use vstd::prelude::*;

verus! {

/// What a [`WordBuffer`] holds, as plain sequences.
pub struct BufferView {
    /// The words to type.
    pub target: Seq<Seq<char>>,
    /// The words typed so far, the current word last.
    pub typed: Seq<Seq<char>>,
    /// For each committed word, its number (counting from one) and the clock
    /// reading at which it was committed.
    pub samples: Seq<(usize, Timestamp)>,
}

/// The cursor: the index of the current word and the length of that word,
/// `(0, 0)` when nothing has been typed.
pub open spec fn cursor_of(typed: Seq<Seq<char>>) -> (int, int) {
    if typed.len() == 0 {
        (0, 0)
    } else {
        (typed.len() - 1, typed.last().len() as int)
    }
}

/// Whether the current word can be edited: it exists, it has a target word,
/// and it differs from that target word. A word equal to its target is
/// immune to deletion.
pub open spec fn editable(target: Seq<Seq<char>>, typed: Seq<Seq<char>>) -> bool {
    &&& 0 < typed.len() <= target.len()
    &&& typed.last() != target[typed.len() - 1]
}

/// Drops the sample of a word that is no longer committed: with `count`
/// typed words left, only the words before the current one have a sample.
pub open spec fn trim_samples(samples: Seq<(usize, Timestamp)>, count: int) -> Seq<
    (usize, Timestamp),
> {
    if samples.len() > 0 && samples.last().0 >= count {
        samples.drop_last()
    } else {
        samples
    }
}

/// The buffer after a character other than the word boundary is typed: it
/// is appended to the current word, or starts the first word.
pub open spec fn after_char(b: BufferView, c: char) -> BufferView {
    if b.typed.len() == 0 {
        BufferView { typed: seq![seq![c]], ..b }
    } else {
        BufferView { typed: b.typed.update(b.typed.len() - 1, b.typed.last().push(c)), ..b }
    }
}

/// The buffer after the word boundary is typed at `now`: a current word that
/// is not empty is committed, a sample is recorded for it and a new empty
/// word becomes current. Otherwise nothing changes.
pub open spec fn after_space(b: BufferView, now: Timestamp) -> BufferView {
    if b.typed.len() > 0 && b.typed.last().len() > 0 {
        BufferView {
            typed: b.typed.push(Seq::empty()),
            samples: b.samples.push((b.typed.len() as usize, now)),
            ..b
        }
    } else {
        b
    }
}

/// The buffer after Backspace: an editable current word loses its last
/// character, or, when it is already empty, is removed so that the word
/// before it becomes current again.
pub open spec fn after_backspace(b: BufferView) -> BufferView {
    if !editable(b.target, b.typed) {
        b
    } else if b.typed.last().len() == 0 {
        BufferView {
            typed: b.typed.drop_last(),
            samples: trim_samples(b.samples, b.typed.len() - 1),
            ..b
        }
    } else {
        BufferView {
            typed: b.typed.update(b.typed.len() - 1, b.typed.last().drop_last()),
            ..b
        }
    }
}

/// The buffer after the force-clear shortcut: an editable current word is
/// emptied, or, when it is already empty, removed.
pub open spec fn after_force_clear(b: BufferView) -> BufferView {
    if !editable(b.target, b.typed) {
        b
    } else if b.typed.last().len() == 0 {
        BufferView {
            typed: b.typed.drop_last(),
            samples: trim_samples(b.samples, b.typed.len() - 1),
            ..b
        }
    } else {
        BufferView { typed: b.typed.update(b.typed.len() - 1, Seq::empty()), ..b }
    }
}

/// The buffer after a character key: `h` with control is the force-clear
/// shortcut, the space is the word boundary, anything else is typed.
pub open spec fn after_key(b: BufferView, c: char, ctrl: bool, now: Timestamp) -> BufferView {
    if c == 'h' && ctrl {
        after_force_clear(b)
    } else if c == ' ' {
        after_space(b, now)
    } else {
        after_char(b, c)
    }
}

/// Whether `now` is not before the latest sample.
pub open spec fn not_before_samples(samples: Seq<(usize, Timestamp)>, now: Timestamp) -> bool {
    samples.len() > 0 ==> samples.last().1.nanos <= now.nanos
}

/// The invariant of a buffer that was only ever edited through its methods,
/// with clock readings that never went back.
pub open spec fn buffer_wf(b: BufferView) -> bool {
    // exactly the committed words have a sample, in order
    &&& b.samples.len() == (if b.typed.len() == 0 {
        0
    } else {
        b.typed.len() - 1
    })
    &&& (forall|k: int| 0 <= k < b.samples.len() ==> (#[trigger] b.samples[k]).0 == k + 1)
    // the samples' readings never decrease
    &&& (forall|i: int, j: int|
        0 <= i <= j < b.samples.len() ==> (#[trigger] b.samples[i]).1.nanos <= (
        #[trigger] b.samples[j]).1.nanos)
    // a committed word is not empty
    &&& (forall|i: int| 0 <= i < b.typed.len() - 1 ==> (#[trigger] b.typed[i]).len() > 0)
    // no typed word holds the word boundary
    &&& (forall|i: int, j: int|
        0 <= i < b.typed.len() && 0 <= j < b.typed[i].len() ==> (#[trigger] b.typed[i][j]) != ' ')
}

/// The target words, the typed words and the samples of one session.
pub struct WordBuffer {
    target_words: Vec<Vec<char>>,
    typed_words: Vec<Vec<char>>,
    timestamps: Vec<(usize, Timestamp)>,
}

impl View for WordBuffer {
    type V = BufferView;

    closed spec fn view(&self) -> BufferView {
        BufferView {
            target: word_views(self.target_words@),
            typed: word_views(self.typed_words@),
            samples: self.timestamps@,
        }
    }
}

impl WordBuffer {
    /// A buffer with no target and nothing typed.
    pub fn new() -> (buffer: Self)
        ensures
            buffer@.target == Seq::<Seq<char>>::empty(),
            buffer@.typed == Seq::<Seq<char>>::empty(),
            buffer@.samples == Seq::<(usize, Timestamp)>::empty(),
            buffer_wf(buffer@),
    {
        let buffer = WordBuffer {
            target_words: Vec::new(),
            typed_words: Vec::new(),
            timestamps: Vec::new(),
        };
        proof {
            assert(buffer@.target =~= Seq::<Seq<char>>::empty());
            assert(buffer@.typed =~= Seq::<Seq<char>>::empty());
        }
        buffer
    }

    /// The words to type.
    pub fn target_words(&self) -> (words: &Vec<Vec<char>>)
        ensures
            word_views(words@) == self@.target,
    {
        &self.target_words
    }

    /// The words typed so far.
    pub fn typed_words(&self) -> (words: &Vec<Vec<char>>)
        ensures
            word_views(words@) == self@.typed,
    {
        &self.typed_words
    }

    /// The samples recorded so far.
    pub fn timestamps(&self) -> (samples: &Vec<(usize, Timestamp)>)
        ensures
            samples@ == self@.samples,
    {
        &self.timestamps
    }

    /// Replaces the target words. What was typed stays.
    pub fn set_target(&mut self, words: Vec<Vec<char>>)
        ensures
            final(self)@ == (BufferView { target: word_views(words@), ..old(self)@ }),
    {
        self.target_words = words;
    }

    /// Forgets what was typed and the samples. The target stays.
    pub fn clear(&mut self)
        ensures
            final(self)@ == (BufferView {
                target: old(self)@.target,
                typed: Seq::empty(),
                samples: Seq::empty(),
            }),
            buffer_wf(final(self)@),
    {
        self.typed_words.clear();
        self.timestamps.clear();
        proof {
            assert(self@.typed =~= Seq::<Seq<char>>::empty());
        }
    }

    /// Appends a character to the current word, or starts the first word.
    fn type_char(&mut self, c: char)
        ensures
            final(self)@ == after_char(old(self)@, c),
            buffer_wf(old(self)@) && c != ' ' ==> buffer_wf(final(self)@),
    {
        let n = self.typed_words.len();
        if n == 0 {
            let mut word: Vec<char> = Vec::new();
            word.push(c);
            self.typed_words.push(word);
            proof {
                assert(word@ =~= seq![c]);
                assert(self@.typed =~= seq![seq![c]]);
            }
        } else {
            self.typed_words[n - 1].push(c);
            proof {
                assert(self@.typed =~= old(self)@.typed.update(
                    n - 1,
                    old(self)@.typed.last().push(c),
                ));
            }
        }
    }

    /// Commits the current word at `now` if it is not empty.
    fn commit(&mut self, now: Timestamp)
        ensures
            final(self)@ == after_space(old(self)@, now),
            buffer_wf(old(self)@) && not_before_samples(old(self)@.samples, now) ==> buffer_wf(
                final(self)@,
            ),
    {
        let n = self.typed_words.len();
        if n > 0 && self.typed_words[n - 1].len() > 0 {
            self.timestamps.push((n, now));
            self.typed_words.push(Vec::new());
            proof {
                assert(self@.typed =~= old(self)@.typed.push(Seq::empty()));
            }
        }
    }

    /// Drops the latest sample if it belongs to a word that is no longer
    /// committed.
    fn trim(&mut self)
        ensures
            final(self).typed_words == old(self).typed_words,
            final(self).target_words == old(self).target_words,
            final(self).timestamps@ == trim_samples(
                old(self).timestamps@,
                old(self).typed_words@.len() as int,
            ),
    {
        let k = self.timestamps.len();
        if k > 0 && self.timestamps[k - 1].0 >= self.typed_words.len() {
            self.timestamps.pop();
        }
    }

    /// Whether the current word can be edited.
    pub fn is_editable(&self) -> (yes: bool)
        ensures
            yes == editable(self@.target, self@.typed),
    {
        let n = self.typed_words.len();
        if n == 0 || n > self.target_words.len() {
            return false;
        }
        !word_eq(&self.typed_words[n - 1], &self.target_words[n - 1])
    }

    /// Backspace: removes the last character of an editable current word,
    /// or the word itself when it is empty.
    pub fn backspace(&mut self)
        ensures
            final(self)@ == after_backspace(old(self)@),
            buffer_wf(old(self)@) ==> buffer_wf(final(self)@),
    {
        if !self.is_editable() {
            return;
        }
        let n = self.typed_words.len();
        if self.typed_words[n - 1].len() == 0 {
            self.typed_words.pop();
            self.trim();
            proof {
                assert(self@.typed =~= old(self)@.typed.drop_last());
            }
        } else {
            self.typed_words[n - 1].pop();
            proof {
                assert(self@.typed =~= old(self)@.typed.update(
                    n - 1,
                    old(self)@.typed.last().drop_last(),
                ));
            }
        }
    }

    /// Force-clear: empties an editable current word, or removes it when it
    /// is already empty.
    pub fn force_clear(&mut self)
        ensures
            final(self)@ == after_force_clear(old(self)@),
            buffer_wf(old(self)@) ==> buffer_wf(final(self)@),
    {
        if !self.is_editable() {
            return;
        }
        let n = self.typed_words.len();
        if self.typed_words[n - 1].len() == 0 {
            self.typed_words.pop();
            self.trim();
            proof {
                assert(self@.typed =~= old(self)@.typed.drop_last());
            }
        } else {
            self.typed_words[n - 1].clear();
            proof {
                assert(self@.typed =~= old(self)@.typed.update(n - 1, Seq::empty()));
            }
        }
    }

    /// A character key at `now`: force-clear, word boundary or a typed
    /// character.
    pub fn input(&mut self, c: char, ctrl: bool, now: Timestamp)
        ensures
            final(self)@ == after_key(old(self)@, c, ctrl, now),
            buffer_wf(old(self)@) && not_before_samples(old(self)@.samples, now) ==> buffer_wf(
                final(self)@,
            ),
    {
        if c == 'h' && ctrl {
            self.force_clear();
        } else if c == ' ' {
            self.commit(now);
        } else {
            self.type_char(c);
        }
    }
}

/// Once the current word equals its target word, Backspace and force-clear
/// leave the buffer as it is.
pub proof fn lemma_matched_word_is_immune(b: BufferView)
    requires
        0 < b.typed.len() <= b.target.len(),
        b.typed.last() == b.target[b.typed.len() - 1],
    ensures
        after_backspace(b) == b,
        after_force_clear(b) == b,
{
}

} // verus!

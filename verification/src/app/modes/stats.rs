//! # Statistics Module
//!
//! Speed and accuracy of a session, computed from the elapsed time and the
//! typed and target words.
//!
//! Every quantity is exact. Counts are whole numbers, times are whole
//! nanoseconds, and accuracy and speed are fractions of whole numbers; the
//! statements about them compare fractions by cross-multiplication.

use crate::app::modes::text::{word_eq, word_views};
use vstd::prelude::*;

verus! {

/// The characters that count as one word of typing speed.
pub const CHARS_PER_WORD: u128 = 5;

/// Nanoseconds in one minute.
pub const NANOS_PER_MINUTE: u128 = 60_000_000_000;

/// A fraction of two whole numbers with a positive denominator.
pub struct Rational {
    pub num: int,
    pub den: int,
}

/// Whether `a` is at most `b`.
pub open spec fn rational_le(a: Rational, b: Rational) -> bool {
    a.num * b.den <= b.num * a.den
}

/// Whether `a` and `b` are the same number.
pub open spec fn rational_eq(a: Rational, b: Rational) -> bool {
    a.num * b.den == b.num * a.den
}

/// A whole number as a fraction.
pub open spec fn whole(n: int) -> Rational {
    Rational { num: n, den: 1 }
}

/// The number of positions before `n` at which two words hold the same
/// character.
pub open spec fn matching_chars(a: Seq<char>, b: Seq<char>, n: int) -> nat
    decreases n,
{
    if n <= 0 {
        0
    } else {
        matching_chars(a, b, n - 1) + if a[n - 1] == b[n - 1] {
            1nat
        } else {
            0nat
        }
    }
}

/// The length that two words have in common.
pub open spec fn common_len(a: Seq<char>, b: Seq<char>) -> int {
    if a.len() <= b.len() {
        a.len() as int
    } else {
        b.len() as int
    }
}

/// Whether typed word `i` is committed: it is not the last typed word.
pub open spec fn is_committed(typed: Seq<Seq<char>>, i: int) -> bool {
    i < typed.len() - 1
}

/// The characters that typed word `i` is charged with: its own, and one
/// for the boundary if it is committed.
pub open spec fn word_total(typed: Seq<Seq<char>>, i: int) -> nat {
    typed[i].len() + if is_committed(typed, i) {
        1nat
    } else {
        0nat
    }
}

/// The characters of typed word `i` that count as correct: those that
/// match the target word position by position, and the boundary if the word
/// is committed and equals its target word.
pub open spec fn word_correct(typed: Seq<Seq<char>>, target: Seq<Seq<char>>, i: int) -> nat {
    matching_chars(typed[i], target[i], common_len(typed[i], target[i])) + if is_committed(
        typed,
        i,
    ) && typed[i] == target[i] {
        1nat
    } else {
        0nat
    }
}

/// The number of typed words that have a target word.
pub open spec fn scored_words(typed: Seq<Seq<char>>, target: Seq<Seq<char>>) -> int {
    if typed.len() <= target.len() {
        typed.len() as int
    } else {
        target.len() as int
    }
}

/// The characters charged for the first `n` typed words.
pub open spec fn total_upto(typed: Seq<Seq<char>>, n: int) -> nat
    decreases n,
{
    if n <= 0 {
        0
    } else {
        total_upto(typed, n - 1) + word_total(typed, n - 1)
    }
}

/// The correct characters of the first `n` typed words.
pub open spec fn correct_upto(typed: Seq<Seq<char>>, target: Seq<Seq<char>>, n: int) -> nat
    decreases n,
{
    if n <= 0 {
        0
    } else {
        correct_upto(typed, target, n - 1) + word_correct(typed, target, n - 1)
    }
}

/// The characters charged for what was typed: those of every typed word
/// that has a target word.
pub open spec fn total_chars(typed: Seq<Seq<char>>, target: Seq<Seq<char>>) -> nat {
    total_upto(typed, scored_words(typed, target))
}

/// The correct characters of what was typed.
pub open spec fn correct_chars(typed: Seq<Seq<char>>, target: Seq<Seq<char>>) -> nat {
    correct_upto(typed, target, scored_words(typed, target))
}

/// Accuracy in percent: correct over charged characters times 100, and 0
/// when nothing is charged.
pub open spec fn accuracy_of(correct: nat, total: nat) -> Rational {
    if total == 0 {
        whole(0)
    } else {
        Rational { num: (100 * correct) as int, den: total as int }
    }
}

/// Gross words per minute: charged characters over five, over the minutes
/// that passed; 0 when no time passed.
pub open spec fn gross_wpm_of(total: nat, nanos: nat) -> Rational {
    if nanos == 0 {
        whole(0)
    } else {
        Rational { num: (total * NANOS_PER_MINUTE) as int, den: (CHARS_PER_WORD * nanos) as int }
    }
}

/// Net words per minute: the gross speed times the accuracy over 100.
pub open spec fn net_wpm_of(total: nat, correct: nat, nanos: nat) -> Rational {
    let gross = gross_wpm_of(total, nanos);
    let accuracy = accuracy_of(correct, total);
    Rational { num: gross.num * accuracy.num, den: gross.den * accuracy.den * 100 }
}

/// A fraction of two counts. It stands for zero when the denominator is
/// zero.
#[derive(Clone, Copy, Debug, PartialEq, Eq, Structural)]
pub struct Ratio {
    pub num: u128,
    pub den: u128,
}

/// Statistics captured during a typing test session: what the speed and
/// the accuracy are computed from, exactly.
#[derive(Clone, Copy, Debug, PartialEq, Eq, Structural)]
pub struct GameStats {
    /// The characters that the speed is computed from.
    pub total_chars: u128,
    /// The share of correct characters.
    pub accuracy: Ratio,
    /// The elapsed time in nanoseconds.
    pub duration: u128,
}

impl GameStats {
    /// Accuracy in percent, between 0 and 100.
    pub open spec fn accuracy_percent(self) -> Rational {
        accuracy_of(self.accuracy.num as nat, self.accuracy.den as nat)
    }

    /// Words per minute before the accuracy is taken into account.
    pub open spec fn gross_wpm(self) -> Rational {
        gross_wpm_of(self.total_chars as nat, self.duration as nat)
    }

    /// Words per minute: the gross speed times the accuracy over 100.
    pub open spec fn wpm(self) -> Rational {
        let gross = self.gross_wpm();
        let accuracy = self.accuracy_percent();
        Rational { num: gross.num * accuracy.num, den: gross.den * accuracy.den * 100 }
    }

    /// Creates a new statistics container.
    pub fn new(total_chars: u128, accuracy: Ratio, duration: u128) -> (stats: Self)
        ensures
            stats == (GameStats { total_chars, accuracy, duration }),
    {
        Self { total_chars, accuracy, duration }
    }

    /// The characters that the speed is computed from.
    pub fn total_chars(&self) -> (chars: u128)
        ensures
            chars == self.total_chars,
    {
        self.total_chars
    }

    /// The share of correct characters.
    pub fn accuracy(&self) -> (accuracy: Ratio)
        ensures
            accuracy == self.accuracy,
    {
        self.accuracy
    }

    /// The elapsed time in nanoseconds.
    pub fn duration(&self) -> (nanos: u128)
        ensures
            nanos == self.duration,
    {
        self.duration
    }

    /// Calculates statistics based on the test results.
    ///
    /// With nothing typed or no time passed, speed and accuracy are zero.
    /// Otherwise every typed word that has a target word is charged with its
    /// characters, and with one more for the boundary if it is committed;
    /// a character is correct if it matches the target at its position, and
    /// the boundary is correct if the whole word matches.
    ///
    /// # Arguments
    /// * `duration` - The total time elapsed, in nanoseconds.
    /// * `typed_words` - The list of words typed by the user.
    /// * `target_words` - The list of expected words.
    pub fn calculate(duration: u128, typed_words: &[Vec<char>], target_words: &[Vec<char>]) -> (stats:
        Self)
        ensures
            stats == spec_calculate(
                duration,
                word_views(typed_words@),
                word_views(target_words@),
            ),
            stats.accuracy.num <= stats.accuracy.den,
    {
        if typed_words.len() == 0 || duration == 0 {
            return Self::new(0, Ratio { num: 0, den: 0 }, duration);
        }
        let ghost typed = word_views(typed_words@);
        let ghost target = word_views(target_words@);
        let scored = if typed_words.len() <= target_words.len() {
            typed_words.len()
        } else {
            target_words.len()
        };
        let mut total: u128 = 0;
        let mut correct: u128 = 0;
        let mut i: usize = 0;
        while i < scored
            invariant
                i <= scored,
                scored == scored_words(typed, target),
                typed == word_views(typed_words@),
                target == word_views(target_words@),
                total == total_upto(typed, i as int),
                correct == correct_upto(typed, target, i as int),
                correct <= total,
                total <= i * 0x1_0000_0000_0000_0000,
            decreases scored - i,
        {
            let typed_word = &typed_words[i];
            let target_word = &target_words[i];
            assert(typed[i as int] == typed_word@);
            assert(target[i as int] == target_word@);
            let matched = count_matching(typed_word, target_word);
            total = total + typed_word.len() as u128;
            correct = correct + matched as u128;
            if i < typed_words.len() - 1 {
                total = total + 1;
                if word_eq(typed_word, target_word) {
                    correct = correct + 1;
                }
            }
            i += 1;
        }
        Self::new(total, Ratio { num: correct, den: total }, duration)
    }
}

/// The statistics of a session, as [`GameStats::calculate`] computes them.
pub open spec fn spec_calculate(
    duration: u128,
    typed: Seq<Seq<char>>,
    target: Seq<Seq<char>>,
) -> GameStats {
    if typed.len() == 0 || duration == 0 {
        GameStats { total_chars: 0, accuracy: Ratio { num: 0, den: 0 }, duration }
    } else {
        GameStats {
            total_chars: total_chars(typed, target) as u128,
            accuracy: Ratio {
                num: correct_chars(typed, target) as u128,
                den: total_chars(typed, target) as u128,
            },
            duration,
        }
    }
}

/// Counts the positions at which two words hold the same character.
pub fn count_matching(a: &Vec<char>, b: &Vec<char>) -> (count: usize)
    ensures
        count == matching_chars(a@, b@, common_len(a@, b@)),
        count <= a@.len(),
{
    let n = if a.len() <= b.len() {
        a.len()
    } else {
        b.len()
    };
    let mut count: usize = 0;
    let mut j: usize = 0;
    while j < n
        invariant
            j <= n,
            n == common_len(a@, b@),
            count <= j,
            count == matching_chars(a@, b@, j as int),
        decreases n - j,
    {
        if a[j] == b[j] {
            count += 1;
        }
        j += 1;
    }
    count
}

/// Matching positions are at most as many as positions.
pub proof fn lemma_matching_bound(a: Seq<char>, b: Seq<char>, n: int)
    requires
        0 <= n,
    ensures
        matching_chars(a, b, n) <= n,
    decreases n,
{
    if n > 0 {
        lemma_matching_bound(a, b, n - 1);
    }
}

/// The correct characters of the first `n` words are at most the charged
/// ones.
pub proof fn lemma_correct_upto_bound(typed: Seq<Seq<char>>, target: Seq<Seq<char>>, n: int)
    requires
        0 <= n <= scored_words(typed, target),
    ensures
        correct_upto(typed, target, n) <= total_upto(typed, n),
    decreases n,
{
    if n > 0 {
        lemma_correct_upto_bound(typed, target, n - 1);
        lemma_matching_bound(
            typed[n - 1],
            target[n - 1],
            common_len(typed[n - 1], target[n - 1]),
        );
    }
}

/// Accuracy is bounded: for every typed and target text, the accuracy in
/// percent is at least 0 and at most 100.
pub proof fn lemma_accuracy_bounds(typed: Seq<Seq<char>>, target: Seq<Seq<char>>)
    ensures
        correct_chars(typed, target) <= total_chars(typed, target),
        rational_le(
            whole(0),
            accuracy_of(correct_chars(typed, target), total_chars(typed, target)),
        ),
        rational_le(
            accuracy_of(correct_chars(typed, target), total_chars(typed, target)),
            whole(100),
        ),
{
    lemma_correct_upto_bound(typed, target, scored_words(typed, target));
}

/// Statistics with no more correct than charged characters are in range:
/// the accuracy is between 0 and 100 percent, and the speed is between zero
/// and the gross speed.
pub proof fn lemma_stats_in_range(stats: GameStats)
    requires
        stats.accuracy.num <= stats.accuracy.den,
    ensures
        rational_le(whole(0), stats.accuracy_percent()),
        rational_le(stats.accuracy_percent(), whole(100)),
        rational_le(whole(0), stats.wpm()),
        rational_le(stats.wpm(), stats.gross_wpm()),
{
    let gross = stats.gross_wpm();
    let accuracy = stats.accuracy_percent();
    let net = stats.wpm();
    assert(gross.num >= 0 && gross.den > 0) by (nonlinear_arith)
        requires
            gross == gross_wpm_of(stats.total_chars as nat, stats.duration as nat),
    ;
    assert(0 <= accuracy.num <= 100 * accuracy.den && accuracy.den > 0);
    assert(net.num >= 0) by (nonlinear_arith)
        requires
            net.num == gross.num * accuracy.num,
            gross.num >= 0,
            accuracy.num >= 0,
    ;
    assert(net.num * gross.den <= gross.num * net.den) by (nonlinear_arith)
        requires
            net.num == gross.num * accuracy.num,
            net.den == gross.den * accuracy.den * 100,
            gross.num >= 0,
            gross.den > 0,
            0 <= accuracy.num <= 100 * accuracy.den,
    ;
}

/// What [`GameStats::calculate`] computes is the net speed of the counts:
/// the gross speed of the charged characters times the accuracy over 100.
pub proof fn lemma_calculate_follows_formula(
    duration: u128,
    typed: Seq<Seq<char>>,
    target: Seq<Seq<char>>,
)
    requires
        typed.len() > 0,
        duration > 0,
        total_chars(typed, target) <= u128::MAX,
    ensures
        spec_calculate(duration, typed, target).wpm() == net_wpm_of(
            total_chars(typed, target),
            correct_chars(typed, target),
            duration as nat,
        ),
        spec_calculate(duration, typed, target).accuracy_percent() == accuracy_of(
            correct_chars(typed, target),
            total_chars(typed, target),
        ),
{
    lemma_accuracy_bounds(typed, target);
}

/// With the charged characters and the time fixed, more correct characters
/// never give a lower speed.
pub proof fn lemma_wpm_monotonic(total: nat, fewer: nat, more: nat, nanos: nat)
    requires
        fewer <= more,
    ensures
        rational_le(net_wpm_of(total, fewer, nanos), net_wpm_of(total, more, nanos)),
{
    let gross = gross_wpm_of(total, nanos);
    let low = accuracy_of(fewer, total);
    let high = accuracy_of(more, total);
    assert(gross.num >= 0 && gross.den > 0) by (nonlinear_arith)
        requires
            gross == gross_wpm_of(total, nanos),
    ;
    assert(low.den == high.den && low.den > 0 && low.num <= high.num);
    let den = gross.den * low.den * 100;
    assert(den > 0) by (nonlinear_arith)
        requires
            den == gross.den * low.den * 100,
            gross.den > 0,
            low.den > 0,
    ;
    assert(gross.num * low.num <= gross.num * high.num) by (nonlinear_arith)
        requires
            gross.num >= 0,
            low.num <= high.num,
    ;
    assert((gross.num * low.num) * den <= (gross.num * high.num) * den) by (nonlinear_arith)
        requires
            gross.num * low.num <= gross.num * high.num,
            den > 0,
    ;
}

/// The net speed is the correct characters over five, over the minutes
/// that passed: what the accuracy takes from the gross speed is exactly the
/// share of incorrect characters.
pub proof fn lemma_net_wpm_counts_correct_chars(total: nat, correct: nat, nanos: nat)
    requires
        total > 0,
        nanos > 0,
    ensures
        rational_eq(net_wpm_of(total, correct, nanos), gross_wpm_of(correct, nanos)),
{
    let n = net_wpm_of(total, correct, nanos);
    let g = gross_wpm_of(correct, nanos);
    assert(n.num * g.den == g.num * n.den) by (nonlinear_arith)
        requires
            n.num == (total * NANOS_PER_MINUTE) * (100 * correct),
            n.den == (CHARS_PER_WORD * nanos) * total * 100,
            g.num == correct * NANOS_PER_MINUTE,
            g.den == CHARS_PER_WORD * nanos,
    ;
}

} // verus!

//! # Diff Module
//!
//! The character-level comparison of what was typed with the target text,
//! as one styled character per rendered cell, in reading order.
//!
//! Every target word gives its own characters, then the typed characters
//! that go beyond it, then one boundary cell.

use crate::app::modes::text::word_views;
use crate::app::modes::typing::cursor_of;
use crate::app::ui::chars::{styled, CharState, StyledChar};
use vstd::prelude::*;

verus! {

/// The typed word at an index, empty where nothing was typed.
pub open spec fn typed_at(typed: Seq<Seq<char>>, i: int) -> Seq<char> {
    if 0 <= i < typed.len() {
        typed[i]
    } else {
        Seq::empty()
    }
}

/// The state of character `j` of target word `i`.
///
/// The cursor's own cell comes first. A cell with a typed character is
/// correct or incorrect. A cell without one is skipped if the cursor has
/// passed it, and pending otherwise.
pub open spec fn target_state(
    target: Seq<Seq<char>>,
    typed: Seq<Seq<char>>,
    i: int,
    j: int,
) -> CharState {
    let cursor = cursor_of(typed);
    let word = typed_at(typed, i);
    if i == cursor.0 && j == cursor.1 {
        CharState::Cursor
    } else if j < word.len() {
        if word[j] == target[i][j] {
            CharState::Correct
        } else {
            CharState::Incorrect
        }
    } else if i < cursor.0 || (i == cursor.0 && j < cursor.1) {
        CharState::Skipped
    } else {
        CharState::Pending
    }
}

/// The state of typed character `j` of word `i` where the target word has
/// no character `j`.
pub open spec fn extra_state(typed: Seq<Seq<char>>, i: int, j: int) -> CharState {
    let cursor = cursor_of(typed);
    if i == cursor.0 && j == cursor.1 {
        CharState::Cursor
    } else {
        CharState::Extra
    }
}

/// The state of the boundary cell after word `i`: the cursor, if the cursor
/// is in this word at or beyond the end of both the target and the typed
/// word.
pub open spec fn boundary_state(target: Seq<Seq<char>>, typed: Seq<Seq<char>>, i: int) -> CharState {
    let cursor = cursor_of(typed);
    if i == cursor.0 && cursor.1 >= target[i].len() && cursor.1 >= typed_at(typed, i).len() {
        CharState::Cursor
    } else {
        CharState::Default
    }
}

/// The number of typed characters of word `i` beyond its target word.
pub open spec fn extra_count(target: Seq<Seq<char>>, typed: Seq<Seq<char>>, i: int) -> nat {
    let have = typed_at(typed, i).len();
    if have > target[i].len() {
        (have - target[i].len()) as nat
    } else {
        0
    }
}

/// The cells of the characters of target word `i`.
pub open spec fn target_cells(target: Seq<Seq<char>>, typed: Seq<Seq<char>>, i: int) -> Seq<
    StyledChar,
> {
    Seq::new(
        target[i].len(),
        |j: int| styled(target[i][j], target_state(target, typed, i, j)),
    )
}

/// The cells of the typed characters of word `i` beyond its target word.
pub open spec fn extra_cells(target: Seq<Seq<char>>, typed: Seq<Seq<char>>, i: int) -> Seq<
    StyledChar,
> {
    Seq::new(
        extra_count(target, typed, i),
        |k: int|
            styled(
                typed_at(typed, i)[target[i].len() + k],
                extra_state(typed, i, target[i].len() + k),
            ),
    )
}

/// The boundary cell after word `i`.
pub open spec fn boundary_cell(target: Seq<Seq<char>>, typed: Seq<Seq<char>>, i: int) -> StyledChar {
    styled(' ', boundary_state(target, typed, i))
}

/// All cells of word `i`.
pub open spec fn word_cells(target: Seq<Seq<char>>, typed: Seq<Seq<char>>, i: int) -> Seq<
    StyledChar,
> {
    target_cells(target, typed, i) + extra_cells(target, typed, i) + seq![
        boundary_cell(target, typed, i),
    ]
}

/// The cells of the first `n` target words.
pub open spec fn diff_upto(target: Seq<Seq<char>>, typed: Seq<Seq<char>>, n: int) -> Seq<StyledChar>
    decreases n,
{
    if n <= 0 {
        Seq::empty()
    } else {
        diff_upto(target, typed, n - 1) + word_cells(target, typed, n - 1)
    }
}

/// The cells of the whole target text.
pub open spec fn spec_diff(target: Seq<Seq<char>>, typed: Seq<Seq<char>>) -> Seq<StyledChar> {
    diff_upto(target, typed, target.len() as int)
}

/// The number of cells of the first `n` target words: for each word one per
/// target character, one per extra typed character and one boundary.
pub open spec fn cell_count(target: Seq<Seq<char>>, typed: Seq<Seq<char>>, n: int) -> nat
    decreases n,
{
    if n <= 0 {
        0
    } else {
        cell_count(target, typed, n - 1) + target[n - 1].len() + extra_count(target, typed, n - 1)
            + 1
    }
}

/// The diff of the first `n` words has exactly one cell per target
/// character, one per extra typed character and one boundary per word.
pub proof fn lemma_diff_upto_len(target: Seq<Seq<char>>, typed: Seq<Seq<char>>, n: int)
    requires
        0 <= n <= target.len(),
    ensures
        diff_upto(target, typed, n).len() == cell_count(target, typed, n),
    decreases n,
{
    if n > 0 {
        lemma_diff_upto_len(target, typed, n - 1);
    }
}

/// The diff is total: for every target and every typed text it has exactly
/// one cell per target character, one per extra typed character and one
/// boundary per target word.
pub proof fn lemma_diff_is_total(target: Seq<Seq<char>>, typed: Seq<Seq<char>>)
    ensures
        spec_diff(target, typed).len() == cell_count(target, typed, target.len() as int),
{
    lemma_diff_upto_len(target, typed, target.len() as int);
}

/// The cells of a word stay where they are when more words follow.
pub proof fn lemma_diff_upto_prefix(
    target: Seq<Seq<char>>,
    typed: Seq<Seq<char>>,
    m: int,
    n: int,
)
    requires
        0 <= m <= n <= target.len(),
    ensures
        diff_upto(target, typed, m) == diff_upto(target, typed, n).take(
            cell_count(target, typed, m) as int,
        ),
    decreases n - m,
{
    lemma_diff_upto_len(target, typed, m);
    if m == n {
        assert(diff_upto(target, typed, n).take(cell_count(target, typed, m) as int)
            =~= diff_upto(target, typed, n));
    } else {
        lemma_diff_upto_prefix(target, typed, m, n - 1);
        lemma_diff_upto_len(target, typed, n - 1);
        lemma_cell_count_grows(target, typed, m, n - 1);
        assert(diff_upto(target, typed, n).take(cell_count(target, typed, m) as int)
            =~= diff_upto(target, typed, n - 1).take(cell_count(target, typed, m) as int));
    }
}

/// More words never have fewer cells.
pub proof fn lemma_cell_count_grows(
    target: Seq<Seq<char>>,
    typed: Seq<Seq<char>>,
    m: int,
    n: int,
)
    requires
        0 <= m <= n,
    ensures
        cell_count(target, typed, m) <= cell_count(target, typed, n),
    decreases n - m,
{
    if m < n {
        lemma_cell_count_grows(target, typed, m, n - 1);
    }
}

/// The diff keeps the target text in reading order: character `j` of target
/// word `i` is shown by the cell that comes after all cells of the words
/// before `i` and the `j` characters before it, with the state that the
/// comparison gives it.
pub proof fn lemma_diff_keeps_target(
    target: Seq<Seq<char>>,
    typed: Seq<Seq<char>>,
    i: int,
    j: int,
)
    requires
        0 <= i < target.len(),
        0 <= j < target[i].len(),
    ensures
        cell_count(target, typed, i) + j < spec_diff(target, typed).len(),
        spec_diff(target, typed)[cell_count(target, typed, i) + j] == styled(
            target[i][j],
            target_state(target, typed, i, j),
        ),
{
    let n = target.len() as int;
    lemma_diff_upto_prefix(target, typed, i + 1, n);
    lemma_diff_upto_len(target, typed, i + 1);
    lemma_diff_upto_len(target, typed, i);
    lemma_diff_upto_len(target, typed, n);
    lemma_cell_count_grows(target, typed, i + 1, n);
    let at = cell_count(target, typed, i) + j;
    assert(target_cells(target, typed, i).len() == target[i].len());
    assert(diff_upto(target, typed, i + 1)[at] == word_cells(target, typed, i)[j]);
    assert(word_cells(target, typed, i)[j] == target_cells(target, typed, i)[j]);
    assert(diff_upto(target, typed, n).take(cell_count(target, typed, i + 1) as int)[at]
        == diff_upto(target, typed, n)[at]);
}

/// The cells of target word `i` stand together, after the cells of the
/// words before it: its own characters, then the extra typed characters,
/// then its boundary.
pub proof fn lemma_diff_layout(target: Seq<Seq<char>>, typed: Seq<Seq<char>>, i: int)
    requires
        0 <= i < target.len(),
    ensures
        cell_count(target, typed, i + 1) <= spec_diff(target, typed).len(),
        spec_diff(target, typed).subrange(
            cell_count(target, typed, i) as int,
            cell_count(target, typed, i + 1) as int,
        ) == word_cells(target, typed, i),
{
    let n = target.len() as int;
    let from = cell_count(target, typed, i) as int;
    let to = cell_count(target, typed, i + 1) as int;
    lemma_diff_upto_prefix(target, typed, i + 1, n);
    lemma_diff_upto_len(target, typed, i + 1);
    lemma_diff_upto_len(target, typed, i);
    lemma_diff_upto_len(target, typed, n);
    lemma_cell_count_grows(target, typed, i + 1, n);
    assert(spec_diff(target, typed).subrange(from, to) =~= diff_upto(target, typed, i + 1).subrange(
        from,
        to,
    ));
    assert(diff_upto(target, typed, i + 1).subrange(from, to) =~= word_cells(target, typed, i));
}

/// The cursor: the index of the current word and the length of that word,
/// `(0, 0)` when nothing has been typed. It is computed from the typed
/// words whenever it is needed.
pub fn cursor_position(typed_words: &[Vec<char>]) -> (cursor: (usize, usize))
    ensures
        (cursor.0 as int, cursor.1 as int) == cursor_of(word_views(typed_words@)),
{
    if typed_words.len() == 0 {
        (0, 0)
    } else {
        let last = typed_words.len() - 1;
        (last, typed_words[last].len())
    }
}

/// Compares what was typed with the target text.
///
/// The result has the cells of every target word in reading order: the
/// word's own characters, each marked as cursor, correct, incorrect,
/// skipped or pending; then the typed characters beyond the word, marked
/// as extra; then one boundary cell, a space, which is the cursor when the
/// cursor stands at the end of the word.
pub fn get_typing_spans(target_words: &[Vec<char>], typed_words: &[Vec<char>]) -> (cells: Vec<
    StyledChar,
>)
    ensures
        cells@ == spec_diff(word_views(target_words@), word_views(typed_words@)),
        cells@.len() == cell_count(
            word_views(target_words@),
            word_views(typed_words@),
            target_words@.len() as int,
        ),
{
    let ghost target = word_views(target_words@);
    let ghost typed = word_views(typed_words@);
    let (cursor_word, cursor_col) = cursor_position(typed_words);

    let mut cells: Vec<StyledChar> = Vec::new();
    let mut i: usize = 0;
    while i < target_words.len()
        invariant
            i <= target_words.len(),
            target == word_views(target_words@),
            typed == word_views(typed_words@),
            cursor_of(typed) == (cursor_word as int, cursor_col as int),
            cells@ == diff_upto(target, typed, i as int),
        decreases target_words.len() - i,
    {
        let target_word = &target_words[i];
        let typed_len: usize = if i < typed_words.len() {
            typed_words[i].len()
        } else {
            0
        };
        let is_current = i == cursor_word;
        let is_past = i < cursor_word;
        let ghost before = cells@;
        assert(target[i as int] == target_word@);
        assert(i < typed_words.len() ==> typed_at(typed, i as int) == typed_words@[i as int]@);
        assert(typed_at(typed, i as int).len() == typed_len);

        let mut j: usize = 0;
        while j < target_word.len()
            invariant
                j <= target_word.len(),
                i < target_words.len(),
                target_word == &target_words[i as int],
                target == word_views(target_words@),
                typed == word_views(typed_words@),
                cursor_of(typed) == (cursor_word as int, cursor_col as int),
                target[i as int] == target_word@,
                i < typed_words.len() ==> typed_at(typed, i as int) == typed_words@[i as int]@,
                typed_at(typed, i as int).len() == typed_len,
                i < typed_words.len() || typed_len == 0,
                is_current == (i == cursor_word),
                is_past == (i < cursor_word),
                cells@ == before + target_cells(target, typed, i as int).take(j as int),
            decreases target_word.len() - j,
        {
            let state = if is_current && j == cursor_col {
                CharState::Cursor
            } else if j < typed_len {
                if typed_words[i][j] == target_word[j] {
                    CharState::Correct
                } else {
                    CharState::Incorrect
                }
            } else if is_past || (is_current && j < cursor_col) {
                CharState::Skipped
            } else {
                CharState::Pending
            };
            cells.push(StyledChar::new(target_word[j], state));
            proof {
                let all = target_cells(target, typed, i as int);
                assert(all.len() == target_word.len());
                assert(all.take(j + 1) =~= all.take(j as int).push(all[j as int]));
                assert(cells@ =~= before + all.take(j + 1));
            }
            j += 1;
        }
        proof {
            let all = target_cells(target, typed, i as int);
            assert(all.len() == target_word.len());
            assert(all.take(target_word.len() as int) =~= all);
        }
        let ghost with_target = cells@;

        let mut k: usize = target_word.len();
        while k < typed_len
            invariant
                target_word.len() <= k,
                k <= typed_len || typed_len < target_word.len(),
                typed_len < target_word.len() ==> k == target_word.len(),
                i < target_words.len(),
                target_word == &target_words[i as int],
                target == word_views(target_words@),
                typed == word_views(typed_words@),
                cursor_of(typed) == (cursor_word as int, cursor_col as int),
                target[i as int] == target_word@,
                i < typed_words.len() ==> typed_at(typed, i as int) == typed_words@[i as int]@,
                typed_at(typed, i as int).len() == typed_len,
                i < typed_words.len() || typed_len == 0,
                is_current == (i == cursor_word),
                cells@ == with_target + extra_cells(target, typed, i as int).take(
                    k - target_word.len(),
                ),
            decreases typed_len - k,
        {
            let state = if is_current && k == cursor_col {
                CharState::Cursor
            } else {
                CharState::Extra
            };
            cells.push(StyledChar::new(typed_words[i][k], state));
            proof {
                let all = extra_cells(target, typed, i as int);
                let at = k - target_word.len();
                assert(all.len() == typed_len - target_word.len());
                assert(all.take(at + 1) =~= all.take(at).push(all[at]));
                assert(cells@ =~= with_target + all.take(at + 1));
            }
            k += 1;
        }
        proof {
            let all = extra_cells(target, typed, i as int);
            assert(all.len() == extra_count(target, typed, i as int));
            assert(all.take(extra_count(target, typed, i as int) as int) =~= all);
            if typed_len < target_word.len() {
                assert(all.take(0) =~= all);
            }
            assert(cells@ == with_target + all);
        }

        let on_boundary = is_current && cursor_col >= target_word.len() && cursor_col >= typed_len;
        let state = if on_boundary {
            CharState::Cursor
        } else {
            CharState::Default
        };
        cells.push(StyledChar::new(' ', state));
        proof {
            let own = target_cells(target, typed, i as int);
            let extra = extra_cells(target, typed, i as int);
            let boundary = boundary_cell(target, typed, i as int);
            assert(cells@ =~= ((before + own) + extra).push(boundary));
            assert(cells@ =~= before + (own + extra + seq![boundary]));
        }
        i += 1;
    }
    proof {
        lemma_diff_is_total(target, typed);
    }
    cells
}

} // verus!






use ttt::app::modes::diff::{cursor_position, get_typing_spans};
use ttt::app::ui::chars::{CharState, StyledChar};

fn words(lines: &[&str]) -> Vec<Vec<char>> {
    lines.iter().map(|line| line.chars().collect()).collect()
}

fn states(cells: &[StyledChar]) -> Vec<CharState> {
    cells.iter().map(|cell| cell.state).collect()
}

fn text(cells: &[StyledChar]) -> String {
    cells.iter().map(|cell| cell.char).collect()
}

#[test]
fn styled_char_keeps_what_it_is_given() {
    let cell = StyledChar::new('x', CharState::Skipped);
    assert_eq!(cell.char, 'x');
    assert_eq!(cell.state, CharState::Skipped);
    assert_eq!(CharState::default(), CharState::Default);
}

#[test]
fn cursor_is_derived_from_the_typed_words() {
    assert_eq!(cursor_position(&words(&[])), (0, 0));
    assert_eq!(cursor_position(&words(&[""])), (0, 0));
    assert_eq!(cursor_position(&words(&["ab"])), (0, 2));
    assert_eq!(cursor_position(&words(&["ab", "cde", ""])), (2, 0));
    assert_eq!(cursor_position(&words(&["ab", "cde", "f"])), (2, 1));
}

#[test]
fn nothing_typed_puts_the_cursor_on_the_first_character() {
    let cells = get_typing_spans(&words(&["ab", "c"]), &words(&[]));
    assert_eq!(text(&cells), "ab c ");
    assert_eq!(
        states(&cells),
        vec![
            CharState::Cursor,
            CharState::Pending,
            CharState::Default,
            CharState::Pending,
            CharState::Default,
        ]
    );
}

#[test]
fn typed_characters_are_correct_or_incorrect() {
    let cells = get_typing_spans(&words(&["the", "fox"]), &words(&["tx"]));
    assert_eq!(text(&cells), "the fox ");
    assert_eq!(
        states(&cells),
        vec![
            CharState::Correct,
            CharState::Incorrect,
            CharState::Cursor,
            CharState::Default,
            CharState::Pending,
            CharState::Pending,
            CharState::Pending,
            CharState::Default,
        ]
    );
}

#[test]
fn a_word_left_early_is_skipped() {
    let cells = get_typing_spans(&words(&["the", "fox"]), &words(&["t", ""]));
    assert_eq!(
        states(&cells),
        vec![
            CharState::Correct,
            CharState::Skipped,
            CharState::Skipped,
            CharState::Default,
            CharState::Cursor,
            CharState::Pending,
            CharState::Pending,
            CharState::Default,
        ]
    );
}

#[test]
fn characters_beyond_the_target_are_extra() {
    let cells = get_typing_spans(&words(&["ab", "c"]), &words(&["abxy", "c"]));
    assert_eq!(text(&cells), "abxy c ");
    assert_eq!(
        states(&cells),
        vec![
            CharState::Correct,
            CharState::Correct,
            CharState::Extra,
            CharState::Extra,
            CharState::Default,
            CharState::Correct,
            CharState::Cursor,
        ]
    );
}

#[test]
fn cursor_sits_on_the_boundary_at_the_end_of_a_word() {
    let cells = get_typing_spans(&words(&["ab", "c"]), &words(&["ab"]));
    assert_eq!(
        states(&cells),
        vec![
            CharState::Correct,
            CharState::Correct,
            CharState::Cursor,
            CharState::Pending,
            CharState::Default,
        ]
    );
    // beyond the end of the target word, too
    let cells = get_typing_spans(&words(&["ab"]), &words(&["abc"]));
    assert_eq!(
        states(&cells),
        vec![CharState::Correct, CharState::Correct, CharState::Extra, CharState::Cursor]
    );
}

#[test]
fn typed_words_without_a_target_are_not_shown() {
    let cells = get_typing_spans(&words(&["ab"]), &words(&["ab", "cd", "e"]));
    assert_eq!(text(&cells), "ab ");
    assert_eq!(states(&cells), vec![CharState::Correct, CharState::Correct, CharState::Default]);
    assert!(get_typing_spans(&words(&[]), &words(&["ab"])).is_empty());
}

#[test]
fn diff_has_one_cell_per_target_character_boundary_and_extra() {
    let target = words(&["alpha", "", "be", "gamma"]);
    let cases = [
        words(&[]),
        words(&["alpha"]),
        words(&["alphabet", "x", "b"]),
        words(&["a", "", "", "gammas", "more"]),
    ];
    for typed in cases.iter() {
        let cells = get_typing_spans(&target, typed);
        let mut expected = 0;
        for (i, word) in target.iter().enumerate() {
            let have = typed.get(i).map_or(0, |w| w.len());
            expected += word.len() + 1 + have.saturating_sub(word.len());
        }
        assert_eq!(cells.len(), expected);
        // the target characters come in reading order
        let mut at = 0;
        for (i, word) in target.iter().enumerate() {
            for (j, c) in word.iter().enumerate() {
                assert_eq!(cells[at + j].char, *c);
            }
            let have = typed.get(i).map_or(0, |w| w.len());
            at += word.len() + have.saturating_sub(word.len());
            assert_eq!(cells[at].char, ' ');
            at += 1;
        }
        // exactly one cursor while the cursor is in the text
        let cursors = cells.iter().filter(|cell| cell.state == CharState::Cursor).count();
        assert_eq!(cursors, if typed.len() <= target.len() { 1 } else { 0 });
    }
}

use ttt::app::modes::typing::WordBuffer;
use ttt::app::time::Timestamp;

fn words(lines: &[&str]) -> Vec<Vec<char>> {
    lines.iter().map(|line| line.chars().collect()).collect()
}

fn buffer_with(target: &[&str]) -> WordBuffer {
    let mut buffer = WordBuffer::new();
    buffer.set_target(words(target));
    buffer
}

fn type_text(buffer: &mut WordBuffer, text: &str, at: u64) {
    for c in text.chars() {
        buffer.input(c, false, Timestamp::from_secs(at));
    }
}

#[test]
fn new_buffer_is_empty() {
    let buffer = WordBuffer::new();
    assert!(buffer.target_words().is_empty());
    assert!(buffer.typed_words().is_empty());
    assert!(buffer.timestamps().is_empty());
    assert!(!buffer.is_editable());
}

#[test]
fn characters_fill_the_current_word() {
    let mut buffer = buffer_with(&["the", "fox"]);
    type_text(&mut buffer, "th", 1);
    assert_eq!(buffer.typed_words(), &words(&["th"]));
    type_text(&mut buffer, "e fo", 2);
    assert_eq!(buffer.typed_words(), &words(&["the", "fo"]));
    assert_eq!(buffer.timestamps(), &vec![(1, Timestamp::from_secs(2))]);
}

#[test]
fn space_commits_only_a_word_that_is_not_empty() {
    let mut buffer = buffer_with(&["the", "fox"]);
    type_text(&mut buffer, " ", 1);
    assert!(buffer.typed_words().is_empty());
    type_text(&mut buffer, "a  ", 2);
    assert_eq!(buffer.typed_words(), &words(&["a", ""]));
    assert_eq!(buffer.timestamps().len(), 1);
}

#[test]
fn backspace_deletes_and_moves_back() {
    let mut buffer = buffer_with(&["the", "fox"]);
    type_text(&mut buffer, "teh ", 1);
    assert_eq!(buffer.typed_words(), &words(&["teh", ""]));
    // the empty current word is removed, and with it the sample of the
    // word before it, which is current again
    buffer.backspace();
    assert_eq!(buffer.typed_words(), &words(&["teh"]));
    assert!(buffer.timestamps().is_empty());
    // "teh" is not "the": it can be edited
    assert!(buffer.is_editable());
    buffer.backspace();
    assert_eq!(buffer.typed_words(), &words(&["te"]));
    buffer.backspace();
    buffer.backspace();
    assert_eq!(buffer.typed_words(), &words(&[""]));
    buffer.backspace();
    assert!(buffer.typed_words().is_empty());
    buffer.backspace();
    assert!(buffer.typed_words().is_empty());
}

#[test]
fn a_word_that_equals_its_target_cannot_be_deleted_from() {
    let mut buffer = buffer_with(&["the", "fox"]);
    type_text(&mut buffer, "the", 1);
    assert!(!buffer.is_editable());
    for _ in 0..5 {
        buffer.backspace();
        buffer.force_clear();
        buffer.input('h', true, Timestamp::from_secs(2));
    }
    assert_eq!(buffer.typed_words(), &words(&["the"]));
    // after the commit the new empty word can be removed, but the word
    // before it stays as it is
    type_text(&mut buffer, " ", 3);
    assert_eq!(buffer.typed_words(), &words(&["the", ""]));
    buffer.backspace();
    assert_eq!(buffer.typed_words(), &words(&["the"]));
    buffer.backspace();
    buffer.force_clear();
    assert_eq!(buffer.typed_words(), &words(&["the"]));
}

#[test]
fn force_clear_empties_then_removes() {
    let mut buffer = buffer_with(&["the", "fox"]);
    type_text(&mut buffer, "the fx", 1);
    buffer.input('h', true, Timestamp::from_secs(2));
    assert_eq!(buffer.typed_words(), &words(&["the", ""]));
    assert_eq!(buffer.timestamps().len(), 1);
    buffer.input('h', true, Timestamp::from_secs(2));
    assert_eq!(buffer.typed_words(), &words(&["the"]));
    assert!(buffer.timestamps().is_empty());
    // an `h` without control is a letter
    let mut buffer = buffer_with(&["oh"]);
    type_text(&mut buffer, "oh", 1);
    assert_eq!(buffer.typed_words(), &words(&["oh"]));
}

#[test]
fn a_word_without_a_target_cannot_be_deleted_from() {
    let mut buffer = buffer_with(&["a"]);
    type_text(&mut buffer, "b cd", 1);
    assert_eq!(buffer.typed_words(), &words(&["b", "cd"]));
    buffer.backspace();
    buffer.force_clear();
    assert_eq!(buffer.typed_words(), &words(&["b", "cd"]));
}

#[test]
fn no_word_count_is_sampled_twice() {
    let mut buffer = buffer_with(&["the", "fox", "ran"]);
    type_text(&mut buffer, "teh ", 1);
    buffer.backspace();
    buffer.backspace();
    type_text(&mut buffer, "e ", 5);
    type_text(&mut buffer, "fox ", 7);
    assert_eq!(
        buffer.timestamps(),
        &vec![(1, Timestamp::from_secs(5)), (2, Timestamp::from_secs(7))]
    );
    buffer.clear();
    assert!(buffer.typed_words().is_empty());
    assert!(buffer.timestamps().is_empty());
    assert_eq!(buffer.target_words(), &words(&["the", "fox", "ran"]));
}

use ttt::app::events::{Action, Direction, Key, KeyCode};
use ttt::app::modes::stats::{GameStats, Ratio};
use ttt::app::modes::words::{Words, WORD_COUNTS};
use ttt::app::modes::Mode;
use ttt::app::time::Timestamp;
use ttt::config::Config;

fn words(lines: &[&str]) -> Vec<Vec<char>> {
    lines.iter().map(|line| line.chars().collect()).collect()
}

fn words_over(lines: &[&str], count: usize) -> Words {
    let mut config = Config::default();
    config.defaults.mode = Mode::Words { count };
    let mut mode = Words::new(50);
    mode.initialize(&config, &words(lines));
    mode
}

fn type_text(mode: &mut Words, text: &str, at: u64) {
    for c in text.chars() {
        assert_eq!(mode.handle_input(Key::char(c), Timestamp::from_secs(at)), Action::Nothing);
    }
}

fn accuracy(stats: &GameStats) -> f64 {
    if stats.accuracy().den > 0 {
        (stats.accuracy().num as f64 / stats.accuracy().den as f64) * 100.0
    } else {
        0.0
    }
}

fn wpm(stats: &GameStats) -> f64 {
    let minutes = stats.duration() as f64 / 1e9 / 60.0;
    if minutes == 0.0 {
        return 0.0;
    }
    let gross = (stats.total_chars() as f64 / 5.0) / minutes;
    gross * (accuracy(stats) / 100.0)
}

#[test]
fn new_words_has_no_words_yet() {
    assert_eq!(WORD_COUNTS, [10, 25, 50, 100]);
    let mode = Words::new(25);
    assert_eq!(mode.count(), 25);
    assert_eq!(mode.editor().custom(), 50);
    assert!(mode.buffer().target_words().is_empty());
    assert_eq!(Words::new(7).editor().custom(), 7);
}

#[test]
fn five_words_typed_without_errors_in_a_minute() {
    let mut mode = words_over(&["the", "quick", "brown", "fox", "jumps"], 5);
    let target = mode.buffer().target_words().clone();
    let mut sorted = target.clone();
    sorted.sort();
    assert_eq!(sorted, words(&["brown", "fox", "jumps", "quick", "the"]));
    let text: Vec<String> = target.iter().map(|w| w.iter().collect()).collect();
    let text = text.join(" ");
    assert!(!mode.is_complete());
    for (i, c) in text.chars().enumerate() {
        assert!(!mode.is_complete());
        mode.handle_input(Key::char(c), Timestamp::from_secs(100 + i as u64));
    }
    assert!(mode.is_complete());
    mode.on_complete(Timestamp::from_secs(160));
    let stats = mode.get_stats();
    assert_eq!(stats, GameStats::new(25, Ratio { num: 25, den: 25 }, 60_000_000_000));
    assert_eq!(accuracy(&stats), 100.0);
    assert_eq!(wpm(&stats), 5.0);
    assert_eq!(mode.get_progress(), "5/5");
}

#[test]
fn a_mistyped_word_can_be_taken_back() {
    let mut mode = words_over(&["the"], 2);
    type_text(&mut mode, "teh ", 1);
    assert_eq!(mode.buffer().typed_words(), &words(&["teh", ""]));
    mode.on_complete(Timestamp::from_secs(61));
    let stats = mode.get_stats();
    assert_eq!(stats.accuracy(), Ratio { num: 1, den: 4 });
    assert!(accuracy(&stats) < 100.0);
    // "teh" is not "the", so the commit does not protect it
    mode.handle_input(Key::plain(KeyCode::Backspace), Timestamp::from_secs(62));
    assert_eq!(mode.buffer().typed_words(), &words(&["teh"]));
    mode.handle_input(Key::plain(KeyCode::Backspace), Timestamp::from_secs(62));
    assert_eq!(mode.buffer().typed_words(), &words(&["te"]));
}

#[test]
fn words_completion_needs_the_last_word_at_full_length() {
    let mut mode = words_over(&["ab"], 2);
    type_text(&mut mode, "ab a", 1);
    assert!(!mode.is_complete());
    // length counts, not content
    type_text(&mut mode, "x", 2);
    assert!(mode.is_complete());
    type_text(&mut mode, "y", 2);
    assert!(!mode.is_complete());
    // more words than targets is complete, too
    type_text(&mut mode, " z", 3);
    assert!(mode.is_complete());
    // with no target words the first typed word overruns
    let mut mode = words_over(&[], 5);
    assert!(mode.buffer().target_words().is_empty());
    assert!(!mode.is_complete());
    type_text(&mut mode, "a", 1);
    assert!(mode.is_complete());
}

#[test]
fn words_end_is_captured_once() {
    let mut mode = words_over(&["ab"], 1);
    // before the start there is nothing to end
    mode.on_complete(Timestamp::from_secs(5));
    assert_eq!(mode.clock().end, None);
    type_text(&mut mode, "ab", 10);
    assert_eq!(mode.get_stats().duration(), 0);
    mode.on_complete(Timestamp::from_secs(20));
    let once = mode.get_stats();
    assert_eq!(once, GameStats::new(2, Ratio { num: 2, den: 2 }, 10_000_000_000));
    mode.on_complete(Timestamp::from_secs(99));
    assert_eq!(mode.get_stats(), once);
    assert_eq!(mode.clock().end, Some(Timestamp::from_secs(20)));
}

#[test]
fn words_count_change_starts_over() {
    let mut mode = words_over(&["a", "b", "c"], 10);
    assert_eq!(mode.count(), 10);
    assert_eq!(mode.buffer().target_words().len(), 10);
    type_text(&mut mode, "a b", 1);
    mode.navigate(Direction::Forward);
    mode.navigate(Direction::Forward);
    assert_eq!(mode.select_option(), Action::Nothing);
    assert_eq!(mode.count(), 25);
    assert_eq!(mode.buffer().target_words().len(), 25);
    assert!(mode.buffer().typed_words().is_empty());
    assert_eq!(mode.clock().start, None);
    assert_eq!(mode.editor().focus(), 2);
    // the custom slot, opened and adjusted by keys
    mode.navigate(Direction::Backward);
    mode.navigate(Direction::Backward);
    mode.navigate(Direction::Backward);
    assert_eq!(mode.editor().focus(), 5);
    mode.select_option();
    assert!(mode.is_option_editing());
    assert_eq!(mode.buffer().target_words().len(), 50);
    mode.adjust_option(Direction::Backward);
    assert_eq!(mode.buffer().target_words().len(), 45);
    mode.handle_input(Key::plain(KeyCode::Right), Timestamp::from_secs(1));
    mode.handle_input(Key::plain(KeyCode::Right), Timestamp::from_secs(1));
    assert_eq!(mode.buffer().target_words().len(), 55);
    assert_eq!(mode.handle_input(Key::plain(KeyCode::Enter), Timestamp::from_secs(1)), Action::Nothing);
    assert!(!mode.is_option_editing());
    assert_eq!(mode.count(), 55);
    assert_eq!(mode.get_options()[5].label, "55");
    assert_eq!(mode.get_options()[2].label, "25");
    assert_eq!(mode.option_count(), 5);
}

#[test]
fn words_asks_to_switch_mode() {
    let mut mode = words_over(&["a"], 10);
    mode.select_option();
    mode.adjust_option(Direction::Backward);
    assert_eq!(mode.select_option(), Action::SwitchMode("clock".to_string()));
    mode.select_option();
    assert_eq!(mode.select_option(), Action::Nothing);
}

#[test]
fn words_reset_starts_over() {
    let mut mode = words_over(&["a", "b"], 4);
    type_text(&mut mode, "a b a b", 1);
    mode.on_complete(Timestamp::from_secs(9));
    mode.reset();
    assert!(mode.buffer().typed_words().is_empty());
    assert!(mode.buffer().timestamps().is_empty());
    assert_eq!(mode.clock().start, None);
    assert_eq!(mode.clock().end, None);
    assert_eq!(mode.buffer().target_words().len(), 4);
    assert_eq!(mode.get_progress(), "0/4");
    assert_eq!(mode.get_wpm_data().len(), 1);
    assert_eq!(mode.get_characters().len(), 8);
}

#[test]
fn words_of_another_configuration_keep_their_count() {
    let config = Config::default();
    let mut mode = Words::new(10);
    mode.initialize(&config, &words(&["a"]));
    assert_eq!(mode.count(), 10);
    assert_eq!(mode.buffer().target_words(), &words(&["a"; 10]));
}

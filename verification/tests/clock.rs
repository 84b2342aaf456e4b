use ttt::app::events::{Action, Direction, Key, KeyCode};
use ttt::app::modes::clock::{Clock, DURATIONS};
use ttt::app::modes::options::Editing;
use ttt::app::modes::stats::Ratio;
use ttt::app::modes::Mode;
use ttt::app::time::Timestamp;
use ttt::app::ui::chars::CharState;
use ttt::config::Config;

fn words(lines: &[&str]) -> Vec<Vec<char>> {
    lines.iter().map(|line| line.chars().collect()).collect()
}

fn clock_over(lines: &[&str], duration: u64, pool: u16) -> Clock {
    let mut config = Config::default();
    config.defaults.mode = Mode::Clock { duration };
    config.defaults.words = pool;
    let mut mode = Clock::new(30);
    mode.initialize(&config, &words(lines));
    mode
}

fn type_text(mode: &mut Clock, text: &str, at: u64) {
    for c in text.chars() {
        assert_eq!(mode.handle_input(Key::char(c), Timestamp::from_secs(at)), Action::Nothing);
    }
}

#[test]
fn new_clock_has_no_words_yet() {
    assert_eq!(DURATIONS, [15, 30, 60, 120]);
    let mode = Clock::new(60);
    assert_eq!(mode.duration(), 60);
    assert_eq!(mode.editor().custom(), 30);
    assert!(mode.buffer().target_words().is_empty());
    assert!(mode.buffer().typed_words().is_empty());
    assert_eq!(mode.clock().start, None);
    let mode = Clock::new(45);
    assert_eq!(mode.duration(), 45);
    assert_eq!(mode.editor().custom(), 45);
}

#[test]
fn initialize_takes_duration_and_draws_words() {
    let mode = clock_over(&["a", "b", "c"], 15, 7);
    assert_eq!(mode.duration(), 15);
    let target = mode.buffer().target_words();
    assert_eq!(target.len(), 7);
    let count = |w: &str| target.iter().filter(|t| **t == w.chars().collect::<Vec<char>>()).count();
    assert_eq!((count("a"), count("b"), count("c")), (3, 2, 2));
    // a configuration for another mode leaves the time limit alone
    let mut config = Config::default();
    config.defaults.mode = Mode::Words { count: 10 };
    let mut mode = Clock::new(60);
    mode.initialize(&config, &words(&["a"]));
    assert_eq!(mode.duration(), 60);
    assert_eq!(mode.buffer().target_words().len(), 100);
}

#[test]
fn clock_without_keystrokes_never_completes() {
    let mode = clock_over(&["the"], 15, 100);
    for at in [0, 1, 14, 15, 16, 3600, u64::MAX] {
        assert!(!mode.is_complete(Timestamp::from_secs(at)));
    }
    assert_eq!(mode.clock().start, None);
    assert_eq!(mode.get_progress(Timestamp::from_secs(20)), "");
}

#[test]
fn clock_expires_when_the_limit_has_passed() {
    let mut mode = clock_over(&["the"], 15, 100);
    type_text(&mut mode, "t", 100);
    assert_eq!(mode.clock().start, Some(Timestamp::from_secs(100)));
    assert!(!mode.is_complete(Timestamp::from_secs(100)));
    assert!(!mode.is_complete(Timestamp::from_millis(114_999)));
    assert!(mode.is_complete(Timestamp::from_secs(115)));
    assert!(mode.is_complete(Timestamp::from_secs(200)));
    // a reading from before the start counts as no time passed
    assert!(!mode.is_complete(Timestamp::from_secs(50)));
    assert_eq!(mode.get_progress(Timestamp::from_secs(100)), "15");
    assert_eq!(mode.get_progress(Timestamp::from_millis(100_001)), "14");
    assert_eq!(mode.get_progress(Timestamp::from_secs(110)), "5");
    assert_eq!(mode.get_progress(Timestamp::from_secs(300)), "0");
    // later characters do not move the start
    type_text(&mut mode, "he", 105);
    assert_eq!(mode.clock().start, Some(Timestamp::from_secs(100)));
}

#[test]
fn clock_scores_over_its_time_limit() {
    let mut mode = clock_over(&["the"], 60, 100);
    type_text(&mut mode, "the the the the the", 1);
    let stats = mode.get_stats();
    assert_eq!(stats.total_chars(), 19);
    assert_eq!(stats.accuracy(), Ratio { num: 19, den: 19 });
    assert_eq!(stats.duration(), 60_000_000_000);
    mode.on_complete();
    assert_eq!(mode.get_stats(), stats);
}

#[test]
fn clock_typing_rules() {
    let mut mode = clock_over(&["the"], 60, 100);
    type_text(&mut mode, "teh ", 1);
    assert_eq!(mode.buffer().typed_words(), &words(&["teh", ""]));
    assert!(mode.get_stats().accuracy().num < mode.get_stats().accuracy().den);
    // the space committed a wrong word: Backspace brings it back
    mode.handle_input(Key::plain(KeyCode::Backspace), Timestamp::from_secs(2));
    assert_eq!(mode.buffer().typed_words(), &words(&["teh"]));
    mode.handle_input(Key::plain(KeyCode::Backspace), Timestamp::from_secs(2));
    mode.handle_input(Key::plain(KeyCode::Backspace), Timestamp::from_secs(2));
    type_text(&mut mode, "he", 3);
    assert_eq!(mode.buffer().typed_words(), &words(&["the"]));
    // now the word is right, and neither key touches it
    mode.handle_input(Key::plain(KeyCode::Backspace), Timestamp::from_secs(4));
    mode.handle_input(Key::with_ctrl(KeyCode::Char('h')), Timestamp::from_secs(4));
    assert_eq!(mode.buffer().typed_words(), &words(&["the"]));
    // keys without a rule are ignored
    for code in [KeyCode::Tab, KeyCode::Esc, KeyCode::Left, KeyCode::Enter, KeyCode::Other] {
        assert_eq!(mode.handle_input(Key::plain(code), Timestamp::from_secs(5)), Action::Nothing);
    }
    assert_eq!(mode.buffer().typed_words(), &words(&["the"]));
}

#[test]
fn clock_shows_the_diff() {
    let mut mode = clock_over(&["ab"], 60, 2);
    type_text(&mut mode, "ax", 1);
    let cells = mode.get_characters();
    let states: Vec<CharState> = cells.iter().map(|cell| cell.state).collect();
    assert_eq!(
        states,
        vec![
            CharState::Correct,
            CharState::Incorrect,
            CharState::Cursor,
            CharState::Pending,
            CharState::Pending,
            CharState::Default,
        ]
    );
}

#[test]
fn clock_series_has_one_point_per_committed_word() {
    let mut mode = clock_over(&["the"], 60, 100);
    assert_eq!(mode.get_wpm_data().len(), 1);
    type_text(&mut mode, "the ", 10);
    type_text(&mut mode, "thx ", 40);
    type_text(&mut mode, "th", 50);
    let series = mode.get_wpm_data();
    assert_eq!(series.len(), 3);
    assert_eq!((series[0].elapsed, series[0].stats.total_chars()), (0, 0));
    // the first word, alone, after no time at all
    assert_eq!(series[1].elapsed, 0);
    assert_eq!(series[1].stats.total_chars(), 0);
    // two words after thirty seconds: 3 + 1 + 3 charged, 3 + 1 + 2 correct
    assert_eq!(series[2].elapsed, 30_000_000_000);
    assert_eq!(series[2].stats.total_chars(), 7);
    assert_eq!(series[2].stats.accuracy(), Ratio { num: 6, den: 7 });
    assert!(series[0].elapsed <= series[1].elapsed && series[1].elapsed <= series[2].elapsed);
}

#[test]
fn clock_menu_is_worked_by_keys_while_editing() {
    let mut mode = clock_over(&["the"], 30, 10);
    assert_eq!(mode.option_count(), 5);
    assert!(!mode.is_option_editing());
    mode.navigate(Direction::Backward);
    assert_eq!(mode.select_option(), Action::Nothing);
    assert!(mode.is_option_editing());
    assert_eq!(mode.duration(), 30);
    mode.adjust_option(Direction::Forward);
    assert_eq!(mode.duration(), 35);
    // while editing, keys go to the menu and nothing is typed
    assert_eq!(mode.handle_input(Key::plain(KeyCode::Up), Timestamp::from_secs(1)), Action::Nothing);
    assert_eq!(mode.duration(), 40);
    assert_eq!(mode.handle_input(Key::char('x'), Timestamp::from_secs(1)), Action::Nothing);
    assert!(mode.buffer().typed_words().is_empty());
    assert_eq!(mode.clock().start, None);
    assert_eq!(mode.handle_input(Key::char(' '), Timestamp::from_secs(1)), Action::Nothing);
    assert!(!mode.is_option_editing());
    assert_eq!(mode.duration(), 40);
    assert_eq!(mode.get_options()[5].label, "40");
    assert!(mode.get_options()[5].active);
}

#[test]
fn clock_asks_to_switch_mode() {
    let mut mode = clock_over(&["the"], 30, 10);
    assert_eq!(mode.select_option(), Action::Nothing);
    assert_eq!(mode.editor().editing(), Some(Editing::Mode(0)));
    mode.adjust_option(Direction::Forward);
    assert_eq!(
        mode.handle_input(Key::plain(KeyCode::Enter), Timestamp::from_secs(1)),
        Action::SwitchMode("words".to_string())
    );
    mode.select_option();
    mode.adjust_option(Direction::Backward);
    assert_eq!(mode.select_option(), Action::SwitchMode("zen".to_string()));
}

#[test]
fn clock_reset_starts_over() {
    let mut mode = clock_over(&["a", "b"], 15, 10);
    mode.navigate(Direction::Forward);
    type_text(&mut mode, "a b ", 3);
    mode.reset();
    assert!(mode.buffer().typed_words().is_empty());
    assert!(mode.buffer().timestamps().is_empty());
    assert_eq!(mode.clock().start, None);
    assert_eq!(mode.buffer().target_words().len(), 10);
    assert_eq!(mode.duration(), 15);
    assert_eq!(mode.editor().focus(), 1);
}

use ttt::app::events::{Action, Direction, Key, KeyCode};
use ttt::app::modes::stats::{GameStats, Ratio};
use ttt::app::modes::zen::Zen;
use ttt::app::time::Timestamp;
use ttt::app::ui::chars::CharState;
use ttt::config::Config;

fn type_text(mode: &mut Zen, text: &str, at: u64) {
    for c in text.chars() {
        assert_eq!(mode.handle_input(Key::char(c), Timestamp::from_secs(at)), Action::Nothing);
    }
}

fn typed(mode: &Zen) -> String {
    mode.typed_chars().iter().collect()
}

#[test]
fn zen_counts_words_between_spaces() {
    let mut mode = Zen::default();
    assert_eq!(mode.word_count(), 0);
    assert_eq!(mode.get_progress(), "");
    type_text(&mut mode, "a", 1);
    assert_eq!(mode.word_count(), 1);
    type_text(&mut mode, " ", 1);
    assert_eq!(mode.word_count(), 1);
    type_text(&mut mode, "b c", 1);
    assert_eq!(mode.word_count(), 3);
    assert_eq!(mode.get_progress(), "3 words");
    type_text(&mut mode, "  ", 1);
    assert_eq!(mode.word_count(), 4);
    let mut mode = Zen::new();
    type_text(&mut mode, " a", 1);
    assert_eq!(mode.word_count(), 2);
}

#[test]
fn zen_enter_ends_the_session_once() {
    let mut mode = Zen::new();
    type_text(&mut mode, "a b c", 10);
    assert!(!mode.is_complete());
    mode.handle_input(Key::plain(KeyCode::Enter), Timestamp::from_secs(40));
    assert!(mode.is_complete());
    assert_eq!(mode.clock().end, Some(Timestamp::from_secs(40)));
    let stats = mode.get_stats(Timestamp::from_secs(41));
    assert_eq!(stats, GameStats::new(5, Ratio { num: 1, den: 1 }, 30_000_000_000));
    mode.handle_input(Key::plain(KeyCode::Enter), Timestamp::from_secs(70));
    assert_eq!(mode.clock().end, Some(Timestamp::from_secs(40)));
    assert_eq!(mode.get_stats(Timestamp::from_secs(71)), stats);
    mode.on_complete(Timestamp::from_secs(80));
    assert_eq!(mode.get_stats(Timestamp::from_secs(81)), stats);
}

#[test]
fn zen_enter_needs_something_typed() {
    let mut mode = Zen::new();
    mode.handle_input(Key::plain(KeyCode::Enter), Timestamp::from_secs(1));
    assert!(!mode.is_complete());
    type_text(&mut mode, "a", 2);
    mode.handle_input(Key::plain(KeyCode::Backspace), Timestamp::from_secs(3));
    mode.handle_input(Key::plain(KeyCode::Enter), Timestamp::from_secs(4));
    assert!(!mode.is_complete());
    assert_eq!(mode.clock().start, Some(Timestamp::from_secs(2)));
}

#[test]
fn zen_stats_follow_the_clock() {
    let mut mode = Zen::new();
    assert_eq!(mode.get_stats(Timestamp::from_secs(9)), GameStats::new(0, Ratio { num: 1, den: 1 }, 0));
    type_text(&mut mode, "hello", 10);
    let stats = mode.get_stats(Timestamp::from_secs(70));
    assert_eq!(stats, GameStats::new(5, Ratio { num: 1, den: 1 }, 60_000_000_000));
    // one word of five characters in one minute
    let minutes = stats.duration() as f64 / 1e9 / 60.0;
    assert_eq!((stats.total_chars() as f64 / 5.0) / minutes, 1.0);
    assert_eq!(stats.accuracy().num as f64 / stats.accuracy().den as f64 * 100.0, 100.0);
}

#[test]
fn zen_backspace_pops_the_last_character() {
    let mut mode = Zen::new();
    mode.handle_input(Key::plain(KeyCode::Backspace), Timestamp::from_secs(1));
    assert_eq!(typed(&mode), "");
    type_text(&mut mode, "ab c", 2);
    mode.handle_input(Key::plain(KeyCode::Backspace), Timestamp::from_secs(3));
    assert_eq!(typed(&mode), "ab ");
    assert_eq!(mode.get_wpm_data().len(), 2);
    // the space goes, and its sample with it
    mode.handle_input(Key::plain(KeyCode::Backspace), Timestamp::from_secs(3));
    assert_eq!(typed(&mode), "ab");
    assert_eq!(mode.get_wpm_data().len(), 1);
    // `h` with control is a character here
    mode.handle_input(Key::with_ctrl(KeyCode::Char('h')), Timestamp::from_secs(4));
    assert_eq!(typed(&mode), "abh");
}

#[test]
fn zen_shows_everything_as_correct() {
    let mut mode = Zen::new();
    let cells = mode.get_characters();
    assert_eq!(cells.len(), 1);
    assert_eq!((cells[0].char, cells[0].state), (' ', CharState::Cursor));
    type_text(&mut mode, "a b", 1);
    let cells = mode.get_characters();
    let text: String = cells.iter().map(|cell| cell.char).collect();
    assert_eq!(text, "a b ");
    assert!(cells[..3].iter().all(|cell| cell.state == CharState::Correct));
    assert_eq!(cells[3].state, CharState::Cursor);
}

#[test]
fn zen_series_has_one_point_per_space() {
    let mut mode = Zen::new();
    assert_eq!(mode.get_wpm_data().len(), 1);
    type_text(&mut mode, "ab", 10);
    type_text(&mut mode, " ", 16);
    type_text(&mut mode, "cd ", 22);
    let series = mode.get_wpm_data();
    assert_eq!(series.len(), 3);
    assert_eq!(series[0].elapsed, 0);
    assert_eq!(series[0].stats, GameStats::new(0, Ratio { num: 0, den: 0 }, 0));
    assert_eq!(series[1].elapsed, 6_000_000_000);
    assert_eq!(series[1].stats, GameStats::new(3, Ratio { num: 1, den: 1 }, 6_000_000_000));
    assert_eq!(series[2].elapsed, 12_000_000_000);
    assert_eq!(series[2].stats, GameStats::new(6, Ratio { num: 1, den: 1 }, 12_000_000_000));
}

#[test]
fn zen_menu_is_the_mode_selector() {
    let mut mode = Zen::new();
    assert_eq!(mode.option_count(), 0);
    assert_eq!(mode.get_options().len(), 1);
    assert_eq!(mode.get_options()[0].label, "Zen");
    mode.navigate(Direction::Forward);
    assert_eq!(mode.editor().focus(), 0);
    assert_eq!(mode.select_option(), Action::Nothing);
    assert!(mode.is_option_editing());
    mode.adjust_option(Direction::Forward);
    assert_eq!(mode.get_options()[0].label, "Clock");
    // while editing, keys go to the menu
    assert_eq!(mode.handle_input(Key::char('x'), Timestamp::from_secs(1)), Action::Nothing);
    assert_eq!(typed(&mode), "");
    assert_eq!(
        mode.handle_input(Key::plain(KeyCode::Enter), Timestamp::from_secs(1)),
        Action::SwitchMode("clock".to_string())
    );
    assert!(!mode.is_option_editing());
    assert!(!mode.is_complete());
}

#[test]
fn zen_reset_forgets_everything() {
    let mut mode = Zen::new();
    type_text(&mut mode, "a b", 1);
    mode.handle_input(Key::plain(KeyCode::Enter), Timestamp::from_secs(2));
    mode.reset();
    assert_eq!(typed(&mode), "");
    assert!(!mode.is_complete());
    assert_eq!(mode.clock().start, None);
    assert_eq!(mode.get_wpm_data().len(), 1);
    type_text(&mut mode, "a", 1);
    mode.initialize(&Config::default());
    assert_eq!(typed(&mode), "");
    assert_eq!(mode.clock().start, None);
}

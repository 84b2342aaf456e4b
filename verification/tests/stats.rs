use ttt::app::modes::stats::{count_matching, GameStats, Ratio};

fn words(lines: &[&str]) -> Vec<Vec<char>> {
    lines.iter().map(|line| line.chars().collect()).collect()
}

const SECOND: u128 = 1_000_000_000;

fn accuracy(stats: &GameStats) -> f64 {
    if stats.accuracy().den > 0 {
        (stats.accuracy().num as f64 / stats.accuracy().den as f64) * 100.0
    } else {
        0.0
    }
}

fn wpm(stats: &GameStats) -> f64 {
    let minutes = stats.duration() as f64 / 1e9 / 60.0;
    if minutes == 0.0 {
        return 0.0;
    }
    let gross = (stats.total_chars() as f64 / 5.0) / minutes;
    gross * (accuracy(stats) / 100.0)
}

#[test]
fn new_keeps_what_it_is_given() {
    let stats = GameStats::new(25, Ratio { num: 24, den: 25 }, 60 * SECOND);
    assert_eq!(stats.total_chars(), 25);
    assert_eq!(stats.accuracy(), Ratio { num: 24, den: 25 });
    assert_eq!(stats.duration(), 60 * SECOND);
}

#[test]
fn five_correct_words_in_a_minute() {
    let target = words(&["the", "quick", "brown", "fox", "jumps"]);
    let stats = GameStats::calculate(60 * SECOND, &target, &target);
    // 21 letters and 4 boundaries, all correct
    assert_eq!(stats, GameStats::new(25, Ratio { num: 25, den: 25 }, 60 * SECOND));
    assert_eq!(accuracy(&stats), 100.0);
    assert_eq!(wpm(&stats), 5.0);
}

#[test]
fn nothing_typed_scores_nothing() {
    let target = words(&["the"]);
    let stats = GameStats::calculate(60 * SECOND, &words(&[]), &target);
    assert_eq!(stats, GameStats::new(0, Ratio { num: 0, den: 0 }, 60 * SECOND));
    assert_eq!(accuracy(&stats), 0.0);
    assert_eq!(wpm(&stats), 0.0);
}

#[test]
fn no_time_scores_nothing() {
    let target = words(&["the"]);
    let stats = GameStats::calculate(0, &target, &target);
    assert_eq!(stats, GameStats::new(0, Ratio { num: 0, den: 0 }, 0));
    assert_eq!(wpm(&stats), 0.0);
}

#[test]
fn a_wrong_word_costs_its_boundary() {
    // "teh" matches "the" in one place; the committed word is charged a
    // boundary, which is wrong because the word is
    let stats = GameStats::calculate(60 * SECOND, &words(&["teh", ""]), &words(&["the", "fox"]));
    assert_eq!(stats, GameStats::new(4, Ratio { num: 1, den: 4 }, 60 * SECOND));
    assert_eq!(accuracy(&stats), 25.0);
    assert!(accuracy(&stats) < 100.0);
    assert_eq!(wpm(&stats), (4.0 / 5.0) * 0.25);
}

#[test]
fn the_current_word_is_not_charged_a_boundary() {
    let stats = GameStats::calculate(30 * SECOND, &words(&["the"]), &words(&["the", "fox"]));
    assert_eq!(stats, GameStats::new(3, Ratio { num: 3, den: 3 }, 30 * SECOND));
    assert_eq!(wpm(&stats), (3.0 / 5.0) / 0.5);
}

#[test]
fn extra_characters_are_charged_and_never_correct() {
    let stats = GameStats::calculate(60 * SECOND, &words(&["thexx", "f"]), &words(&["the", "fox"]));
    assert_eq!(stats, GameStats::new(7, Ratio { num: 4, den: 7 }, 60 * SECOND));
}

#[test]
fn typed_words_without_a_target_are_not_charged() {
    let stats = GameStats::calculate(60 * SECOND, &words(&["the", "fox", "x"]), &words(&["the"]));
    assert_eq!(stats, GameStats::new(4, Ratio { num: 4, den: 4 }, 60 * SECOND));
}

#[test]
fn accuracy_stays_between_0_and_100() {
    let target = words(&["alpha", "beta", "gamma"]);
    let cases = [
        words(&["alpha"]),
        words(&["xxxxx", "yyyy", "zzzzz"]),
        words(&["alph", "betaa", ""]),
        words(&["", "", ""]),
        words(&["alpha", "beta", "gamma", "delta"]),
    ];
    for typed in cases.iter() {
        let stats = GameStats::calculate(10 * SECOND, typed, &target);
        assert!(stats.accuracy().num <= stats.accuracy().den);
        assert!(0.0 <= accuracy(&stats) && accuracy(&stats) <= 100.0);
    }
}

#[test]
fn more_correct_characters_never_lower_the_speed() {
    let target = words(&["abcde", "fghij"]);
    let ladder = [
        words(&["vwxyz", "vwxyz"]),
        words(&["awxyz", "vwxyz"]),
        words(&["abxyz", "fwxyz"]),
        words(&["abcdz", "fghiz"]),
        words(&["abcde", "fghij"]),
    ];
    let mut last = -1.0;
    for typed in ladder.iter() {
        let stats = GameStats::calculate(20 * SECOND, typed, &target);
        assert_eq!(stats.total_chars(), 11);
        assert!(wpm(&stats) >= last);
        last = wpm(&stats);
    }
    assert_eq!(last, (11.0 / 5.0) / (20.0 / 60.0));
}

#[test]
fn matching_counts_positions_not_letters() {
    let a: Vec<char> = "teh".chars().collect();
    let b: Vec<char> = "the".chars().collect();
    assert_eq!(count_matching(&a, &b), 1);
    let c: Vec<char> = "th".chars().collect();
    assert_eq!(count_matching(&c, &b), 2);
    assert_eq!(count_matching(&b, &c), 2);
    assert_eq!(count_matching(&Vec::new(), &b), 0);
}

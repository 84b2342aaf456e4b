use ttt::app::events::{Key, KeyCode, State};
use ttt::app::modes::Mode;
use ttt::app::time::Stopwatch;
use ttt::app::App;
use ttt::config::Config;
use ttt::TextError;

#[test]
fn stopwatch_never_goes_back() {
    let watch = Stopwatch::start();
    let mut last = watch.read();
    for _ in 0..1000 {
        let now = watch.read();
        assert!(now.nanos >= last.nanos);
        last = now;
    }
    // a reading is the time since the start, not the time of day
    assert!(last.nanos < 3_600_000_000_000);
}

#[test]
fn launch_loads_the_configured_text() {
    let config = Config::default();
    let (app, corpus) = match App::launch(&config, None) {
        Ok(launched) => launched,
        Err(e) => panic!("{:?}", e),
    };
    assert_eq!(app.state, State::Home);
    assert_eq!(corpus.len(), 64);
    assert_eq!(app.mode.get_characters().iter().filter(|cell| cell.char == ' ').count(), 100);
    // what the user has stored comes first
    let (app, corpus) = match App::launch(&config, Some(b"alpha\n".to_vec())) {
        Ok(launched) => launched,
        Err(e) => panic!("{:?}", e),
    };
    assert_eq!(corpus, vec!["alpha".chars().collect::<Vec<char>>()]);
    assert_eq!(app.mode.get_characters().len(), 600);
}

#[test]
fn launch_reports_a_text_that_cannot_be_had() {
    let mut config = Config::default();
    config.defaults.text = "klingon".to_string();
    assert_eq!(App::launch(&config, None).err(), Some(TextError::ResourceUnavailable));
    assert_eq!(App::launch(&config, Some(vec![0xff])).err(), Some(TextError::InvalidEncoding));
    assert_eq!(App::launch(&Config::default(), Some(vec![0xc3])).err(), Some(TextError::InvalidEncoding));
}

#[test]
fn keys_are_handled_at_the_reading_of_the_watch() {
    let mut config = Config::default();
    config.defaults.mode = Mode::Zen;
    let watch = Stopwatch::start();
    let (mut app, corpus) = match App::launch(&config, None) {
        Ok(launched) => launched,
        Err(e) => panic!("{:?}", e),
    };
    app.tick_now(&watch);
    assert_eq!(app.state, State::Home);
    app.handle_key_now(Key::char('a'), &watch, &config, &corpus);
    assert_eq!(app.state, State::Running);
    app.handle_key_now(Key::plain(KeyCode::Enter), &watch, &config, &corpus);
    assert_eq!(app.state, State::Complete);
    let ended = watch.read();
    let stats = app.mode.get_stats(ended);
    assert_eq!(stats.total_chars(), 1);
    // the session cannot have taken longer than the watch has run
    assert!(stats.duration() <= ended.nanos);
    app.tick_now(&watch);
    assert_eq!(app.state, State::Complete);
    assert_eq!(app.mode.get_stats(watch.read()), stats);
}

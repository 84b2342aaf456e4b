use ttt::app::ui::chars::CharState;
use ttt::app::ui::theme::{
    apply_part, border_to_string, color_to_string, modifier_in_order, modifier_name, parse_border,
    parse_border_lowered, parse_color, parse_color_lowered, parse_modifier,
    parse_modifier_lowered, parse_style, split_tokens, style_to_string, to_strings, BorderType,
    Color, Modifier, Modifiers, Style, Theme, MODIFIER_COUNT,
};

fn chars(text: &str) -> Vec<char> {
    text.chars().collect()
}

/// The theme as the text of a configuration file.
fn to_string(theme: &Theme) -> Result<String, toml::ser::Error> {
    let mut table = toml::Table::new();
    let border = border_to_string(theme.border_type).to_string();
    table.insert("border_type".to_string(), toml::Value::String(border));
    for (name, style) in [
        ("border_style", &theme.border_style),
        ("default", &theme.default),
        ("pending", &theme.pending),
        ("correct", &theme.correct),
        ("incorrect", &theme.incorrect),
        ("skipped", &theme.skipped),
        ("cursor", &theme.cursor),
        ("extra", &theme.extra),
        ("selected", &theme.selected),
        ("editing", &theme.editing),
    ] {
        table.insert(name.to_string(), toml::Value::String(style_to_string(style)));
    }
    toml::to_string(&table)
}

/// The theme that the text of a configuration file stands for: what the
/// file leaves out is taken from the default theme.
fn from_str(text: &str) -> Result<Theme, toml::de::Error> {
    let table: toml::Table = toml::from_str(text)?;
    let base = Theme::default();
    let style = |name: &str, otherwise: Style| {
        table.get(name).and_then(toml::Value::as_str).map_or(otherwise, parse_style)
    };
    Ok(Theme {
        border_type: table
            .get("border_type")
            .and_then(toml::Value::as_str)
            .map_or(base.border_type, parse_border),
        border_style: style("border_style", base.border_style),
        default: style("default", base.default),
        pending: style("pending", base.pending),
        correct: style("correct", base.correct),
        incorrect: style("incorrect", base.incorrect),
        skipped: style("skipped", base.skipped),
        cursor: style("cursor", base.cursor),
        extra: style("extra", base.extra),
        selected: style("selected", base.selected),
        editing: style("editing", base.editing),
    })
}

const NAMED: [(Color, &str); 17] = [
    (Color::Reset, "reset"),
    (Color::Black, "black"),
    (Color::Red, "red"),
    (Color::Green, "green"),
    (Color::Yellow, "yellow"),
    (Color::Blue, "blue"),
    (Color::Magenta, "magenta"),
    (Color::Cyan, "cyan"),
    (Color::Gray, "gray"),
    (Color::DarkGray, "dark_gray"),
    (Color::LightRed, "light_red"),
    (Color::LightGreen, "light_green"),
    (Color::LightYellow, "light_yellow"),
    (Color::LightBlue, "light_blue"),
    (Color::LightMagenta, "light_magenta"),
    (Color::LightCyan, "light_cyan"),
    (Color::White, "white"),
];

#[test]
fn test_serialize_deserialize_style() {
    let style = Style::new()
        .fg(Color::Red)
        .bg(Color::Blue)
        .add_modifier(Modifier::Bold)
        .add_modifier(Modifier::Italic);

    let theme = Theme { pending: style, ..Theme::default() };

    let serialized = to_string(&theme).expect("Failed to serialize theme");

    // Order might vary, checking contains
    assert!(serialized.contains("fg:red"));
    assert!(serialized.contains("bg:blue"));
    assert!(serialized.contains("bold"));
    assert!(serialized.contains("italic"));
    assert!(serialized.contains("pending = \"fg:red bg:blue bold italic\""));

    let deserialized: Theme = from_str(&serialized).expect("Failed to deserialize theme");
    assert_eq!(deserialized.pending, style);
    assert_eq!(deserialized, theme);
}

#[test]
fn test_deserialize_partial() {
    let toml_str = r#"
            pending = "fg:green bg:black underlined"
        "#;

    let theme: Theme = from_str(toml_str).expect("Failed to deserialize partial theme");

    assert_eq!(theme.pending.fg, Some(Color::Green));
    assert_eq!(theme.pending.bg, Some(Color::Black));
    assert!(theme.pending.add_modifier.contains(Modifier::Underlined));

    // Check default
    assert_eq!(theme.correct, Theme::default().correct);
}

#[test]
fn test_hex_colors() {
    let toml_str = r#"
            pending = "fg:#ff0000 bg:#0000ff"
        "#;
    let theme: Theme = from_str(toml_str).expect("Failed to deserialize hex colors");

    assert_eq!(theme.pending.fg, Some(Color::Rgb(255, 0, 0)));
    assert_eq!(theme.pending.bg, Some(Color::Rgb(0, 0, 255)));
}

#[test]
fn test_border_type() {
    let toml_str = r#"
            border_type = "double"
        "#;
    let theme: Theme = from_str(toml_str).expect("Failed to deserialize border type");
    assert_eq!(theme.border_type, BorderType::Double);
}

#[test]
fn borders_have_names() {
    for (border, name) in [
        (BorderType::Plain, "plain"),
        (BorderType::Rounded, "rounded"),
        (BorderType::Double, "double"),
        (BorderType::Thick, "thick"),
    ] {
        assert_eq!(border_to_string(border), name);
        assert_eq!(parse_border(name), border);
        assert_eq!(parse_border(&name.to_uppercase()), border);
        assert_eq!(parse_border_lowered(&chars(name)), border);
    }
    assert_eq!(border_to_string(BorderType::QuadrantInside), "double");
    assert_eq!(border_to_string(BorderType::QuadrantOutside), "double");
    assert_eq!(parse_border("dotted"), BorderType::Rounded);
    assert_eq!(parse_border(""), BorderType::Rounded);
    // the name has to be in lower case already here
    assert_eq!(parse_border_lowered(&chars("THICK")), BorderType::Rounded);
}

#[test]
fn colours_have_names() {
    for (color, name) in NAMED {
        assert_eq!(color_to_string(color), name);
        assert_eq!(parse_color(name), Some(color));
        assert_eq!(parse_color_lowered(&chars(name)), Some(color));
        assert_eq!(parse_color(&name.to_uppercase()), Some(color));
        assert_eq!(parse_color(&name.replace('_', "")), Some(color));
    }
    assert_eq!(parse_color("DarkGray"), Some(Color::DarkGray));
    assert_eq!(parse_color_lowered(&chars("DarkGray")), None);
    assert_eq!(parse_color("grey"), None);
    assert_eq!(parse_color("dark gray"), None);
    assert_eq!(parse_color(""), None);
}

#[test]
fn colours_in_hexadecimal() {
    assert_eq!(color_to_string(Color::Rgb(255, 0, 10)), "#ff000a");
    assert_eq!(color_to_string(Color::Rgb(1, 35, 69)), "#012345");
    assert_eq!(parse_color("#ff000a"), Some(Color::Rgb(255, 0, 10)));
    assert_eq!(parse_color("#FF000A"), Some(Color::Rgb(255, 0, 10)));
    assert_eq!(parse_color_lowered(&chars("#ABCDEF")), Some(Color::Rgb(171, 205, 239)));
    assert_eq!(parse_color("#89abcd"), Some(Color::Rgb(137, 171, 205)));
    // a plus sign and one digit is a group, too
    assert_eq!(parse_color("#+f0102"), Some(Color::Rgb(15, 1, 2)));
    for wrong in ["#", "#fff", "#ff000", "#ff000a0", "#gg0000", "#ff00 0", "#-10000", "#ff++00", "ff000a"] {
        assert_eq!(parse_color(wrong), None);
    }
    for r in [0u8, 9, 10, 15, 16, 127, 128, 255] {
        let color = Color::Rgb(r, 255 - r, r / 2);
        assert_eq!(parse_color(&color_to_string(color)), Some(color));
    }
}

#[test]
fn colours_by_palette_entry() {
    assert_eq!(color_to_string(Color::Indexed(0)), "0");
    assert_eq!(color_to_string(Color::Indexed(255)), "255");
    assert_eq!(parse_color("0"), Some(Color::Indexed(0)));
    assert_eq!(parse_color("42"), Some(Color::Indexed(42)));
    assert_eq!(parse_color("255"), Some(Color::Indexed(255)));
    assert_eq!(parse_color("007"), Some(Color::Indexed(7)));
    assert_eq!(parse_color("0000000000000000000000255"), Some(Color::Indexed(255)));
    for wrong in ["256", "1000", "99999999999999999999", "+5", "-1", "1.0", "1 ", "\u{664}"] {
        assert_eq!(parse_color(wrong), None);
    }
    for i in 0..=255u8 {
        assert_eq!(parse_color(&color_to_string(Color::Indexed(i))), Some(Color::Indexed(i)));
    }
}

#[test]
fn modifiers_have_names() {
    assert_eq!(MODIFIER_COUNT, 9);
    let names = [
        "bold",
        "dim",
        "italic",
        "underlined",
        "slow_blink",
        "rapid_blink",
        "reversed",
        "hidden",
        "crossed_out",
    ];
    let mut all = Modifiers::empty();
    for (i, name) in names.iter().enumerate() {
        let modifier = modifier_in_order(i);
        assert_eq!(modifier_name(modifier), *name);
        assert_eq!(parse_modifier(name), Some(modifier));
        assert_eq!(parse_modifier(&name.to_uppercase()), Some(modifier));
        assert_eq!(parse_modifier_lowered(&chars(name)), Some(modifier));
        assert!(!all.contains(modifier));
        assert_eq!(to_strings(Modifiers::empty().insert(modifier)), vec![name.to_string()]);
        all = all.insert(modifier);
        assert!(all.contains(modifier));
    }
    assert_eq!(to_strings(all), names.iter().map(|name| name.to_string()).collect::<Vec<String>>());
    assert_eq!(to_strings(Modifiers::empty()), Vec::<String>::new());
    assert_eq!(parse_modifier("blink"), None);
    assert_eq!(parse_modifier_lowered(&chars("Bold")), None);
    assert_eq!(modifier_in_order(100), Modifier::CrossedOut);
}

#[test]
fn style_text_is_split_at_white_space() {
    let words: Vec<String> = split_tokens(&chars("  fg:red\t\tbold \u{a0}\n italic  "))
        .iter()
        .map(|word| word.iter().collect())
        .collect();
    assert_eq!(words, vec!["fg:red", "bold", "italic"]);
    assert!(split_tokens(&chars("")).is_empty());
    assert!(split_tokens(&chars(" \t ")).is_empty());
    for text in ["a b", " a  b ", "a\u{2003}b\u{3000}c", "ab", "\u{85}x"] {
        let expected: Vec<Vec<char>> = text.split_whitespace().map(chars).collect();
        assert_eq!(split_tokens(&chars(text)), expected);
    }
}

#[test]
fn style_words_are_applied_in_order() {
    let style = parse_style("fg:red fg:blue BOLD ul:#010203 bg:17 nonsense fg:nocolor FG:green");
    assert_eq!(
        style,
        Style::new()
            .fg(Color::Blue)
            .bg(Color::Indexed(17))
            .underline_color(Color::Rgb(1, 2, 3))
            .add_modifier(Modifier::Bold)
    );
    assert_eq!(parse_style(""), Style::default());
    assert_eq!(parse_style("fg:LIGHT_RED"), Style::new().fg(Color::LightRed));
    assert_eq!(apply_part(Style::new(), &chars("bg:cyan")), Style::new().bg(Color::Cyan));
    assert_eq!(apply_part(Style::new(), &chars("fg:")), Style::new());
    assert_eq!(apply_part(Style::new(), &chars("fg")), Style::new());
    assert_eq!(apply_part(Style::new(), &chars("dim")), Style::new().add_modifier(Modifier::Dim));
}

#[test]
fn style_text_comes_back_as_the_same_style() {
    let styles = [
        Style::new(),
        Style::new().fg(Color::DarkGray),
        Style::new().bg(Color::Rgb(0, 128, 255)).underline_color(Color::Indexed(200)),
        Style::new()
            .fg(Color::LightMagenta)
            .add_modifier(Modifier::CrossedOut)
            .add_modifier(Modifier::SlowBlink)
            .add_modifier(Modifier::Bold),
    ];
    let texts = ["", "fg:dark_gray", "bg:#0080ff ul:200", "fg:light_magenta bold slow_blink crossed_out"];
    for (style, text) in styles.iter().zip(texts) {
        assert_eq!(style_to_string(style), text);
        assert_eq!(parse_style(text), *style);
    }
    let theme = Theme::default();
    for style in [
        theme.border_style,
        theme.default,
        theme.pending,
        theme.correct,
        theme.incorrect,
        theme.skipped,
        theme.cursor,
        theme.extra,
        theme.selected,
        theme.editing,
    ] {
        assert_eq!(parse_style(&style_to_string(&style)), style);
    }
}

#[test]
fn default_theme_has_a_style_for_every_state() {
    let theme = Theme::default();
    assert_eq!(theme.border_type, BorderType::Rounded);
    assert_eq!(theme.style_for(CharState::Default), Style::new());
    assert_eq!(theme.style_for(CharState::Pending), Style::new().fg(Color::DarkGray));
    assert_eq!(
        theme.style_for(CharState::Correct),
        Style::new().fg(Color::Green).add_modifier(Modifier::Bold)
    );
    assert_eq!(style_to_string(&theme.style_for(CharState::Incorrect)), "fg:red bold underlined");
    assert_eq!(style_to_string(&theme.style_for(CharState::Skipped)), "fg:dark_gray ul:red underlined");
    assert_eq!(style_to_string(&theme.style_for(CharState::Extra)), "fg:red bold");
    assert_eq!(style_to_string(&theme.style_for(CharState::Cursor)), "fg:dark_gray bg:white");
    assert_eq!(style_to_string(&theme.selected), "fg:magenta bold");
    assert_eq!(style_to_string(&theme.editing), "fg:yellow bold underlined");
    let custom = Theme { extra: Style::new().bg(Color::Red), ..theme };
    assert_eq!(custom.style_for(CharState::Extra), Style::new().bg(Color::Red));
    assert_eq!(custom.style_for(CharState::Cursor), theme.cursor);
}

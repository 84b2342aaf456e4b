//! # Theme Module
//!
//! The styles of the user interface as plain values, and the text form in
//! which a configuration file holds them.
//!
//! A style is written as words separated by white space: `fg:`, `bg:` and
//! `ul:` followed by a colour set the foreground, the background and the
//! underline colour, and the name of a modifier adds that modifier. A colour
//! is a name, `#` and six hexadecimal digits, or the number of a palette
//! entry. Names are matched without regard to case. A word that is none of
//! these is skipped.

use crate::app::modes::text::{
    chars_of, digit_char, push_decimal, push_str, spec_decimal, string_of, word_eq,
};
use crate::app::ui::chars::CharState;
use vstd::prelude::*;

verus! {

/// A colour of the terminal.
#[derive(Clone, Copy, Debug, PartialEq, Eq, Structural)]
pub enum Color {
    Reset,
    Black,
    Red,
    Green,
    Yellow,
    Blue,
    Magenta,
    Cyan,
    Gray,
    DarkGray,
    LightRed,
    LightGreen,
    LightYellow,
    LightBlue,
    LightMagenta,
    LightCyan,
    White,
    /// Red, green and blue.
    Rgb(u8, u8, u8),
    /// An entry of the terminal's palette.
    Indexed(u8),
}

/// A way to set text off.
#[derive(Clone, Copy, Debug, PartialEq, Eq, Structural)]
pub enum Modifier {
    Bold,
    Dim,
    Italic,
    Underlined,
    SlowBlink,
    RapidBlink,
    Reversed,
    Hidden,
    CrossedOut,
}

/// A set of modifiers.
#[derive(Clone, Copy, Debug, PartialEq, Eq, Structural)]
pub struct Modifiers {
    pub bold: bool,
    pub dim: bool,
    pub italic: bool,
    pub underlined: bool,
    pub slow_blink: bool,
    pub rapid_blink: bool,
    pub reversed: bool,
    pub hidden: bool,
    pub crossed_out: bool,
}

/// The kind of line that a border is drawn with.
#[derive(Clone, Copy, Debug, PartialEq, Eq, Structural)]
pub enum BorderType {
    Plain,
    Rounded,
    Double,
    Thick,
    QuadrantInside,
    QuadrantOutside,
}

/// How a piece of text is drawn.
#[derive(Clone, Copy, Debug, PartialEq, Eq, Structural)]
pub struct Style {
    pub fg: Option<Color>,
    pub bg: Option<Color>,
    pub underline_color: Option<Color>,
    pub add_modifier: Modifiers,
}

/// The set without modifiers.
pub open spec fn no_modifiers() -> Modifiers {
    Modifiers {
        bold: false,
        dim: false,
        italic: false,
        underlined: false,
        slow_blink: false,
        rapid_blink: false,
        reversed: false,
        hidden: false,
        crossed_out: false,
    }
}

/// The style that changes nothing.
pub open spec fn plain_style() -> Style {
    Style { fg: None, bg: None, underline_color: None, add_modifier: no_modifiers() }
}

impl Modifiers {
    /// Whether a modifier is in the set.
    pub open spec fn has(self, modifier: Modifier) -> bool {
        match modifier {
            Modifier::Bold => self.bold,
            Modifier::Dim => self.dim,
            Modifier::Italic => self.italic,
            Modifier::Underlined => self.underlined,
            Modifier::SlowBlink => self.slow_blink,
            Modifier::RapidBlink => self.rapid_blink,
            Modifier::Reversed => self.reversed,
            Modifier::Hidden => self.hidden,
            Modifier::CrossedOut => self.crossed_out,
        }
    }

    /// The set with one modifier more.
    pub open spec fn with(self, modifier: Modifier) -> Modifiers {
        match modifier {
            Modifier::Bold => Modifiers { bold: true, ..self },
            Modifier::Dim => Modifiers { dim: true, ..self },
            Modifier::Italic => Modifiers { italic: true, ..self },
            Modifier::Underlined => Modifiers { underlined: true, ..self },
            Modifier::SlowBlink => Modifiers { slow_blink: true, ..self },
            Modifier::RapidBlink => Modifiers { rapid_blink: true, ..self },
            Modifier::Reversed => Modifiers { reversed: true, ..self },
            Modifier::Hidden => Modifiers { hidden: true, ..self },
            Modifier::CrossedOut => Modifiers { crossed_out: true, ..self },
        }
    }

    /// The set without modifiers.
    pub fn empty() -> (set: Self)
        ensures
            set == no_modifiers(),
    {
        Modifiers {
            bold: false,
            dim: false,
            italic: false,
            underlined: false,
            slow_blink: false,
            rapid_blink: false,
            reversed: false,
            hidden: false,
            crossed_out: false,
        }
    }

    /// Whether a modifier is in the set.
    pub fn contains(&self, modifier: Modifier) -> (found: bool)
        ensures
            found == self.has(modifier),
    {
        match modifier {
            Modifier::Bold => self.bold,
            Modifier::Dim => self.dim,
            Modifier::Italic => self.italic,
            Modifier::Underlined => self.underlined,
            Modifier::SlowBlink => self.slow_blink,
            Modifier::RapidBlink => self.rapid_blink,
            Modifier::Reversed => self.reversed,
            Modifier::Hidden => self.hidden,
            Modifier::CrossedOut => self.crossed_out,
        }
    }

    /// The set with one modifier more.
    pub fn insert(self, modifier: Modifier) -> (set: Self)
        ensures
            set == self.with(modifier),
    {
        let mut set = self;
        match modifier {
            Modifier::Bold => {
                set.bold = true;
            },
            Modifier::Dim => {
                set.dim = true;
            },
            Modifier::Italic => {
                set.italic = true;
            },
            Modifier::Underlined => {
                set.underlined = true;
            },
            Modifier::SlowBlink => {
                set.slow_blink = true;
            },
            Modifier::RapidBlink => {
                set.rapid_blink = true;
            },
            Modifier::Reversed => {
                set.reversed = true;
            },
            Modifier::Hidden => {
                set.hidden = true;
            },
            Modifier::CrossedOut => {
                set.crossed_out = true;
            },
        }
        set
    }
}

impl Style {
    /// The style that changes nothing.
    pub fn new() -> (style: Self)
        ensures
            style == plain_style(),
    {
        Style { fg: None, bg: None, underline_color: None, add_modifier: Modifiers::empty() }
    }

    /// The style with a foreground colour.
    pub fn fg(self, color: Color) -> (style: Self)
        ensures
            style == (Style { fg: Some(color), ..self }),
    {
        Style { fg: Some(color), ..self }
    }

    /// The style with a background colour.
    pub fn bg(self, color: Color) -> (style: Self)
        ensures
            style == (Style { bg: Some(color), ..self }),
    {
        Style { bg: Some(color), ..self }
    }

    /// The style with an underline colour.
    pub fn underline_color(self, color: Color) -> (style: Self)
        ensures
            style == (Style { underline_color: Some(color), ..self }),
    {
        Style { underline_color: Some(color), ..self }
    }

    /// The style with one modifier more.
    pub fn add_modifier(self, modifier: Modifier) -> (style: Self)
        ensures
            style == (Style { add_modifier: self.add_modifier.with(modifier), ..self }),
    {
        Style { add_modifier: self.add_modifier.insert(modifier), ..self }
    }
}

impl Default for Style {
    fn default() -> (style: Self)
        ensures
            style == plain_style(),
    {
        Style::new()
    }
}

/// Theme configuration for consistent styling across the application.
#[derive(Clone, Copy, Debug, PartialEq, Eq, Structural)]
pub struct Theme {
    pub border_type: BorderType,
    pub border_style: Style,
    pub default: Style,
    pub pending: Style,
    pub correct: Style,
    pub incorrect: Style,
    pub skipped: Style,
    pub cursor: Style,
    pub extra: Style,
    pub selected: Style,
    pub editing: Style,
}

/// The theme that is used when none is configured.
pub open spec fn default_theme() -> Theme {
    Theme {
        border_style: plain_style(),
        border_type: BorderType::Rounded,
        default: plain_style(),
        pending: Style { fg: Some(Color::DarkGray), ..plain_style() },
        correct: Style {
            fg: Some(Color::Green),
            add_modifier: no_modifiers().with(Modifier::Bold),
            ..plain_style()
        },
        incorrect: Style {
            fg: Some(Color::Red),
            add_modifier: no_modifiers().with(Modifier::Bold).with(Modifier::Underlined),
            ..plain_style()
        },
        skipped: Style {
            fg: Some(Color::DarkGray),
            underline_color: Some(Color::Red),
            add_modifier: no_modifiers().with(Modifier::Underlined),
            ..plain_style()
        },
        extra: Style {
            fg: Some(Color::Red),
            add_modifier: no_modifiers().with(Modifier::Bold),
            ..plain_style()
        },
        cursor: Style { fg: Some(Color::DarkGray), bg: Some(Color::White), ..plain_style() },
        selected: Style {
            fg: Some(Color::Magenta),
            add_modifier: no_modifiers().with(Modifier::Bold),
            ..plain_style()
        },
        editing: Style {
            fg: Some(Color::Yellow),
            add_modifier: no_modifiers().with(Modifier::Bold).with(Modifier::Underlined),
            ..plain_style()
        },
    }
}

impl Default for Theme {
    fn default() -> (theme: Self)
        ensures
            theme == default_theme(),
    {
        Self {
            border_style: Style::default(),
            border_type: BorderType::Rounded,
            default: Style::default(),
            pending: Style::new().fg(Color::DarkGray),
            correct: Style::new().fg(Color::Green).add_modifier(Modifier::Bold),
            incorrect: Style::new().fg(Color::Red).add_modifier(Modifier::Bold).add_modifier(
                Modifier::Underlined,
            ),
            skipped: Style::new().fg(Color::DarkGray).add_modifier(
                Modifier::Underlined,
            ).underline_color(Color::Red),
            extra: Style::new().fg(Color::Red).add_modifier(Modifier::Bold),
            cursor: Style::new().bg(Color::White).fg(Color::DarkGray),
            selected: Style::new().fg(Color::Magenta).add_modifier(Modifier::Bold),
            editing: Style::new().fg(Color::Yellow).add_modifier(Modifier::Bold).add_modifier(
                Modifier::Underlined,
            ),
        }
    }
}

impl Theme {
    /// The style of a character state.
    pub open spec fn spec_style_for(self, state: CharState) -> Style {
        match state {
            CharState::Default => self.default,
            CharState::Pending => self.pending,
            CharState::Correct => self.correct,
            CharState::Incorrect => self.incorrect,
            CharState::Skipped => self.skipped,
            CharState::Extra => self.extra,
            CharState::Cursor => self.cursor,
        }
    }

    /// Convert a [`CharState`] to its corresponding Style.
    pub fn style_for(&self, state: CharState) -> (style: Style)
        ensures
            style == self.spec_style_for(state),
    {
        match state {
            CharState::Default => self.default,
            CharState::Pending => self.pending,
            CharState::Correct => self.correct,
            CharState::Incorrect => self.incorrect,
            CharState::Skipped => self.skipped,
            CharState::Extra => self.extra,
            CharState::Cursor => self.cursor,
        }
    }
}

/// The lowercase form of a text, as `str::to_lowercase` gives it.
pub uninterp spec fn lowercase_of(text: Seq<char>) -> Seq<char>;

/// Whether a character is white space, as `char::is_whitespace` tells.
pub uninterp spec fn whitespace_of(c: char) -> bool;

/// `str::to_lowercase` returns the lowercase equivalent of a string, by
/// the Unicode rules for lower case. The result depends on the string alone.
pub assume_specification[ str::to_lowercase ](s: &str) -> (lower: String)
    ensures
        lower@ == lowercase_of(s@),
;

/// Asks `char::is_whitespace` whether a character has the Unicode property
/// of white space. The answer depends on the character alone.
#[verifier::external_body]
fn is_whitespace(c: char) -> (yes: bool)
    ensures
        yes == whitespace_of(c),
{
    c.is_whitespace()
}

/// Whether a word is the given text.
fn word_is(word: &Vec<char>, text: &str) -> (same: bool)
    ensures
        same == (word@ == text@),
{
    let other = chars_of(text);
    word_eq(word, &other)
}

/// The colour that a name in lower case stands for. The colours with two
/// words in their names are written with or without an underscore.
pub open spec fn spec_named_color(lower: Seq<char>) -> Option<Color> {
    if lower == "reset"@ {
        Some(Color::Reset)
    } else if lower == "black"@ {
        Some(Color::Black)
    } else if lower == "red"@ {
        Some(Color::Red)
    } else if lower == "green"@ {
        Some(Color::Green)
    } else if lower == "yellow"@ {
        Some(Color::Yellow)
    } else if lower == "blue"@ {
        Some(Color::Blue)
    } else if lower == "magenta"@ {
        Some(Color::Magenta)
    } else if lower == "cyan"@ {
        Some(Color::Cyan)
    } else if lower == "gray"@ {
        Some(Color::Gray)
    } else if lower == "darkgray"@ || lower == "dark_gray"@ {
        Some(Color::DarkGray)
    } else if lower == "lightred"@ || lower == "light_red"@ {
        Some(Color::LightRed)
    } else if lower == "lightgreen"@ || lower == "light_green"@ {
        Some(Color::LightGreen)
    } else if lower == "lightyellow"@ || lower == "light_yellow"@ {
        Some(Color::LightYellow)
    } else if lower == "lightblue"@ || lower == "light_blue"@ {
        Some(Color::LightBlue)
    } else if lower == "lightmagenta"@ || lower == "light_magenta"@ {
        Some(Color::LightMagenta)
    } else if lower == "lightcyan"@ || lower == "light_cyan"@ {
        Some(Color::LightCyan)
    } else if lower == "white"@ {
        Some(Color::White)
    } else {
        None
    }
}

/// The value of a hexadecimal digit, in either case.
pub open spec fn hex_value(c: char) -> Option<u8> {
    let code = c as u32;
    if 48 <= code <= 57 {
        Some((code - 48) as u8)
    } else if 97 <= code <= 102 {
        Some((code - 87) as u8)
    } else if 65 <= code <= 70 {
        Some((code - 55) as u8)
    } else {
        None
    }
}

/// The value of a group of two characters in a colour: two hexadecimal
/// digits, or a plus sign and one hexadecimal digit.
pub open spec fn hex_pair(high: char, low: char) -> Option<u8> {
    if high == '+' {
        hex_value(low)
    } else {
        match (hex_value(high), hex_value(low)) {
            (Some(h), Some(l)) => Some((16 * h + l) as u8),
            _ => None,
        }
    }
}

/// The colour that `#` and three groups of two characters stand for.
pub open spec fn spec_parse_hex(text: Seq<char>) -> Option<Color> {
    if text.len() == 7 {
        match (hex_pair(text[1], text[2]), hex_pair(text[3], text[4]), hex_pair(text[5], text[6])) {
            (Some(r), Some(g), Some(b)) => Some(Color::Rgb(r, g, b)),
            _ => None,
        }
    } else {
        None
    }
}

/// Whether a character is one of the digits `0` to `9`.
pub open spec fn is_digit(c: char) -> bool {
    48 <= c as u32 <= 57
}

/// Whether the first `n` characters are digits.
pub open spec fn all_digits(text: Seq<char>, n: int) -> bool
    decreases n,
{
    if n <= 0 {
        true
    } else {
        all_digits(text, n - 1) && is_digit(text[n - 1])
    }
}

/// The number that the first `n` characters, all digits, are the decimal
/// notation of.
pub open spec fn digits_value(text: Seq<char>, n: int) -> nat
    decreases n,
{
    if n <= 0 {
        0
    } else {
        (digits_value(text, n - 1) * 10 + (text[n - 1] as u32 - 48)) as nat
    }
}

/// The palette entry that a decimal number stands for: the text is not
/// empty, holds digits only, and the number is at most 255.
pub open spec fn spec_parse_index(text: Seq<char>) -> Option<Color> {
    if text.len() > 0 && all_digits(text, text.len() as int) && digits_value(
        text,
        text.len() as int,
    ) <= 255 {
        Some(Color::Indexed(digits_value(text, text.len() as int) as u8))
    } else {
        None
    }
}

/// The colour that a text in lower case stands for: a name, `#` with
/// three groups, or the number of a palette entry.
pub open spec fn spec_parse_color(lower: Seq<char>) -> Option<Color> {
    if spec_named_color(lower) is Some {
        spec_named_color(lower)
    } else if lower.len() > 0 && lower[0] == '#' {
        spec_parse_hex(lower)
    } else {
        spec_parse_index(lower)
    }
}

/// The value of a hexadecimal digit, in either case.
fn hex_digit(c: char) -> (value: Option<u8>)
    ensures
        value == hex_value(c),
{
    let code = c as u32;
    if 48 <= code && code <= 57 {
        Some((code - 48) as u8)
    } else if 97 <= code && code <= 102 {
        Some((code - 87) as u8)
    } else if 65 <= code && code <= 70 {
        Some((code - 55) as u8)
    } else {
        None
    }
}

/// The value of a group of two characters in a colour.
fn hex_group(high: char, low: char) -> (value: Option<u8>)
    ensures
        value == hex_pair(high, low),
{
    if high == '+' {
        return hex_digit(low);
    }
    match (hex_digit(high), hex_digit(low)) {
        (Some(h), Some(l)) => Some(16 * h + l),
        _ => None,
    }
}

/// The colour that `#` and three groups of two characters stand for.
fn parse_hex(text: &Vec<char>) -> (color: Option<Color>)
    ensures
        color == spec_parse_hex(text@),
{
    if text.len() != 7 {
        return None;
    }
    match (hex_group(text[1], text[2]), hex_group(text[3], text[4]), hex_group(text[5], text[6])) {
        (Some(r), Some(g), Some(b)) => Some(Color::Rgb(r, g, b)),
        _ => None,
    }
}

/// A number never gets smaller when a digit is written behind it.
proof fn lemma_digits_value_grows(text: Seq<char>, m: int, n: int)
    requires
        0 <= m <= n,
        all_digits(text, n),
    ensures
        all_digits(text, m),
        digits_value(text, m) <= digits_value(text, n),
    decreases n - m,
{
    if m < n {
        lemma_digits_value_grows(text, m, n - 1);
    }
}

/// The palette entry that a decimal number stands for.
fn parse_index(text: &Vec<char>) -> (color: Option<Color>)
    ensures
        color == spec_parse_index(text@),
{
    if text.len() == 0 {
        return None;
    }
    let mut value: u32 = 0;
    let mut i: usize = 0;
    while i < text.len()
        invariant
            i <= text.len(),
            all_digits(text@, i as int),
            value == digits_value(text@, i as int),
            value <= 255,
        decreases text.len() - i,
    {
        let code = text[i] as u32;
        if code < 48 || code > 57 {
            proof {
                if all_digits(text@, text.len() as int) {
                    lemma_digits_value_grows(text@, i + 1, text.len() as int);
                }
            }
            return None;
        }
        let next = value * 10 + (code - 48);
        if next > 255 {
            proof {
                if all_digits(text@, text.len() as int) {
                    lemma_digits_value_grows(text@, i + 1, text.len() as int);
                }
            }
            return None;
        }
        value = next;
        i += 1;
    }
    Some(Color::Indexed(value as u8))
}

/// The colour that a name in lower case stands for.
fn named_color(lower: &Vec<char>) -> (color: Option<Color>)
    ensures
        color == spec_named_color(lower@),
{
    if word_is(lower, "reset") {
        Some(Color::Reset)
    } else if word_is(lower, "black") {
        Some(Color::Black)
    } else if word_is(lower, "red") {
        Some(Color::Red)
    } else if word_is(lower, "green") {
        Some(Color::Green)
    } else if word_is(lower, "yellow") {
        Some(Color::Yellow)
    } else if word_is(lower, "blue") {
        Some(Color::Blue)
    } else if word_is(lower, "magenta") {
        Some(Color::Magenta)
    } else if word_is(lower, "cyan") {
        Some(Color::Cyan)
    } else if word_is(lower, "gray") {
        Some(Color::Gray)
    } else if word_is(lower, "darkgray") || word_is(lower, "dark_gray") {
        Some(Color::DarkGray)
    } else if word_is(lower, "lightred") || word_is(lower, "light_red") {
        Some(Color::LightRed)
    } else if word_is(lower, "lightgreen") || word_is(lower, "light_green") {
        Some(Color::LightGreen)
    } else if word_is(lower, "lightyellow") || word_is(lower, "light_yellow") {
        Some(Color::LightYellow)
    } else if word_is(lower, "lightblue") || word_is(lower, "light_blue") {
        Some(Color::LightBlue)
    } else if word_is(lower, "lightmagenta") || word_is(lower, "light_magenta") {
        Some(Color::LightMagenta)
    } else if word_is(lower, "lightcyan") || word_is(lower, "light_cyan") {
        Some(Color::LightCyan)
    } else if word_is(lower, "white") {
        Some(Color::White)
    } else {
        None
    }
}

/// Reads a colour from a text that is in lower case already.
pub fn parse_color_lowered(lower: &Vec<char>) -> (color: Option<Color>)
    ensures
        color == spec_parse_color(lower@),
{
    match named_color(lower) {
        Some(color) => Some(color),
        None => {
            if lower.len() > 0 && lower[0] == '#' {
                parse_hex(lower)
            } else {
                parse_index(lower)
            }
        },
    }
}

/// Reads a colour: a name, `#` with six hexadecimal digits, or the number
/// of a palette entry, without regard to case.
pub fn parse_color(text: &str) -> (color: Option<Color>)
    ensures
        color == spec_parse_color(lowercase_of(text@)),
{
    let lower = text.to_lowercase();
    let chars = chars_of(lower.as_str());
    parse_color_lowered(&chars)
}

/// The character of a hexadecimal digit, in lower case.
pub open spec fn hex_char(d: int) -> char {
    if d == 0 {
        '0'
    } else if d == 1 {
        '1'
    } else if d == 2 {
        '2'
    } else if d == 3 {
        '3'
    } else if d == 4 {
        '4'
    } else if d == 5 {
        '5'
    } else if d == 6 {
        '6'
    } else if d == 7 {
        '7'
    } else if d == 8 {
        '8'
    } else if d == 9 {
        '9'
    } else if d == 10 {
        'a'
    } else if d == 11 {
        'b'
    } else if d == 12 {
        'c'
    } else if d == 13 {
        'd'
    } else if d == 14 {
        'e'
    } else {
        'f'
    }
}

/// A byte as two hexadecimal digits in lower case.
pub open spec fn spec_hex_byte(b: u8) -> Seq<char> {
    seq![hex_char(b as int / 16), hex_char(b as int % 16)]
}

/// The text form of a colour: its name, with an underscore between the
/// words of a name of two, `#` and six hexadecimal digits in lower case,
/// or the number of the palette entry.
pub open spec fn spec_color_to_string(color: Color) -> Seq<char> {
    match color {
        Color::Reset => "reset"@,
        Color::Black => "black"@,
        Color::Red => "red"@,
        Color::Green => "green"@,
        Color::Yellow => "yellow"@,
        Color::Blue => "blue"@,
        Color::Magenta => "magenta"@,
        Color::Cyan => "cyan"@,
        Color::Gray => "gray"@,
        Color::DarkGray => "dark_gray"@,
        Color::LightRed => "light_red"@,
        Color::LightGreen => "light_green"@,
        Color::LightYellow => "light_yellow"@,
        Color::LightBlue => "light_blue"@,
        Color::LightMagenta => "light_magenta"@,
        Color::LightCyan => "light_cyan"@,
        Color::White => "white"@,
        Color::Rgb(r, g, b) => seq!['#'] + spec_hex_byte(r) + spec_hex_byte(g) + spec_hex_byte(b),
        Color::Indexed(i) => spec_decimal(i as nat),
    }
}

/// The character of a hexadecimal digit, in lower case.
fn hex_digit_char(d: u8) -> (c: char)
    requires
        d < 16,
    ensures
        c == hex_char(d as int),
{
    if d == 0 {
        '0'
    } else if d == 1 {
        '1'
    } else if d == 2 {
        '2'
    } else if d == 3 {
        '3'
    } else if d == 4 {
        '4'
    } else if d == 5 {
        '5'
    } else if d == 6 {
        '6'
    } else if d == 7 {
        '7'
    } else if d == 8 {
        '8'
    } else if d == 9 {
        '9'
    } else if d == 10 {
        'a'
    } else if d == 11 {
        'b'
    } else if d == 12 {
        'c'
    } else if d == 13 {
        'd'
    } else if d == 14 {
        'e'
    } else {
        'f'
    }
}

/// Appends a byte as two hexadecimal digits in lower case.
fn push_hex_byte(out: &mut Vec<char>, b: u8)
    ensures
        final(out)@ == old(out)@ + spec_hex_byte(b),
{
    out.push(hex_digit_char(b / 16));
    out.push(hex_digit_char(b % 16));
    proof {
        assert(out@ =~= old(out)@ + spec_hex_byte(b));
    }
}

/// Appends the text form of a colour.
pub fn push_color(out: &mut Vec<char>, color: Color)
    ensures
        final(out)@ == old(out)@ + spec_color_to_string(color),
{
    match color {
        Color::Reset => push_str(out, "reset"),
        Color::Black => push_str(out, "black"),
        Color::Red => push_str(out, "red"),
        Color::Green => push_str(out, "green"),
        Color::Yellow => push_str(out, "yellow"),
        Color::Blue => push_str(out, "blue"),
        Color::Magenta => push_str(out, "magenta"),
        Color::Cyan => push_str(out, "cyan"),
        Color::Gray => push_str(out, "gray"),
        Color::DarkGray => push_str(out, "dark_gray"),
        Color::LightRed => push_str(out, "light_red"),
        Color::LightGreen => push_str(out, "light_green"),
        Color::LightYellow => push_str(out, "light_yellow"),
        Color::LightBlue => push_str(out, "light_blue"),
        Color::LightMagenta => push_str(out, "light_magenta"),
        Color::LightCyan => push_str(out, "light_cyan"),
        Color::White => push_str(out, "white"),
        Color::Rgb(r, g, b) => {
            out.push('#');
            push_hex_byte(out, r);
            push_hex_byte(out, g);
            push_hex_byte(out, b);
            proof {
                assert(out@ =~= old(out)@ + spec_color_to_string(color));
            }
        },
        Color::Indexed(i) => push_decimal(out, i as u128),
    }
}

/// The text form of a colour.
pub fn color_to_string(color: Color) -> (text: String)
    ensures
        text@ == spec_color_to_string(color),
{
    let mut out: Vec<char> = Vec::new();
    push_color(&mut out, color);
    string_of(&out)
}

/// The name of a modifier.
pub open spec fn spec_modifier_name(modifier: Modifier) -> Seq<char> {
    match modifier {
        Modifier::Bold => "bold"@,
        Modifier::Dim => "dim"@,
        Modifier::Italic => "italic"@,
        Modifier::Underlined => "underlined"@,
        Modifier::SlowBlink => "slow_blink"@,
        Modifier::RapidBlink => "rapid_blink"@,
        Modifier::Reversed => "reversed"@,
        Modifier::Hidden => "hidden"@,
        Modifier::CrossedOut => "crossed_out"@,
    }
}

/// The modifiers in the order in which they are written.
pub open spec fn modifier_at(i: int) -> Modifier {
    if i == 0 {
        Modifier::Bold
    } else if i == 1 {
        Modifier::Dim
    } else if i == 2 {
        Modifier::Italic
    } else if i == 3 {
        Modifier::Underlined
    } else if i == 4 {
        Modifier::SlowBlink
    } else if i == 5 {
        Modifier::RapidBlink
    } else if i == 6 {
        Modifier::Reversed
    } else if i == 7 {
        Modifier::Hidden
    } else {
        Modifier::CrossedOut
    }
}

/// The number of modifiers.
pub const MODIFIER_COUNT: usize = 9;

/// The modifier that a name in lower case stands for: the first in order
/// with that name.
pub open spec fn spec_parse_modifier(lower: Seq<char>) -> Option<Modifier> {
    modifier_named(lower, 0)
}

/// The first modifier from place `from` on that has the given name.
pub open spec fn modifier_named(lower: Seq<char>, from: int) -> Option<Modifier>
    decreases MODIFIER_COUNT - from,
{
    if from < 0 || from >= MODIFIER_COUNT {
        None
    } else if spec_modifier_name(modifier_at(from)) == lower {
        Some(modifier_at(from))
    } else {
        modifier_named(lower, from + 1)
    }
}

/// The names of the modifiers of a set among the first `n` in order.
pub open spec fn modifier_names_upto(set: Modifiers, n: int) -> Seq<Seq<char>>
    decreases n,
{
    if n <= 0 {
        Seq::empty()
    } else if set.has(modifier_at(n - 1)) {
        modifier_names_upto(set, n - 1).push(spec_modifier_name(modifier_at(n - 1)))
    } else {
        modifier_names_upto(set, n - 1)
    }
}

/// The names of the modifiers of a set, in order.
pub open spec fn spec_modifier_names(set: Modifiers) -> Seq<Seq<char>> {
    modifier_names_upto(set, MODIFIER_COUNT as int)
}

/// The modifiers in the order in which they are written. A place past the
/// end gives the last one.
pub fn modifier_in_order(i: usize) -> (modifier: Modifier)
    ensures
        modifier == modifier_at(i as int),
{
    if i == 0 {
        Modifier::Bold
    } else if i == 1 {
        Modifier::Dim
    } else if i == 2 {
        Modifier::Italic
    } else if i == 3 {
        Modifier::Underlined
    } else if i == 4 {
        Modifier::SlowBlink
    } else if i == 5 {
        Modifier::RapidBlink
    } else if i == 6 {
        Modifier::Reversed
    } else if i == 7 {
        Modifier::Hidden
    } else {
        Modifier::CrossedOut
    }
}

/// The name of a modifier.
pub fn modifier_name(modifier: Modifier) -> (name: &'static str)
    ensures
        name@ == spec_modifier_name(modifier),
{
    match modifier {
        Modifier::Bold => "bold",
        Modifier::Dim => "dim",
        Modifier::Italic => "italic",
        Modifier::Underlined => "underlined",
        Modifier::SlowBlink => "slow_blink",
        Modifier::RapidBlink => "rapid_blink",
        Modifier::Reversed => "reversed",
        Modifier::Hidden => "hidden",
        Modifier::CrossedOut => "crossed_out",
    }
}

/// Reads a modifier from a name that is in lower case already.
pub fn parse_modifier_lowered(lower: &Vec<char>) -> (modifier: Option<Modifier>)
    ensures
        modifier == spec_parse_modifier(lower@),
{
    let mut i: usize = 0;
    while i < MODIFIER_COUNT
        invariant
            i <= MODIFIER_COUNT,
            spec_parse_modifier(lower@) == modifier_named(lower@, i as int),
        decreases MODIFIER_COUNT - i,
    {
        let candidate = modifier_in_order(i);
        if word_is(lower, modifier_name(candidate)) {
            return Some(candidate);
        }
        i += 1;
    }
    None
}

/// The lowercase form of a word.
fn lowered(word: &Vec<char>) -> (lower: Vec<char>)
    ensures
        lower@ == lowercase_of(word@),
{
    let text = string_of(word);
    let lower = text.as_str().to_lowercase();
    chars_of(lower.as_str())
}

/// Reads a modifier by its name, without regard to case.
pub fn parse_modifier(text: &str) -> (modifier: Option<Modifier>)
    ensures
        modifier == spec_parse_modifier(lowercase_of(text@)),
{
    let lower = text.to_lowercase();
    let chars = chars_of(lower.as_str());
    parse_modifier_lowered(&chars)
}

/// The names of the modifiers of a set, in order.
pub fn to_strings(set: Modifiers) -> (names: Vec<String>)
    ensures
        names@.len() == spec_modifier_names(set).len(),
        forall|i: int| 0 <= i < names@.len() ==> (#[trigger] names@[i])@ == spec_modifier_names(set)[i],
{
    let mut names: Vec<String> = Vec::new();
    let mut i: usize = 0;
    while i < MODIFIER_COUNT
        invariant
            i <= MODIFIER_COUNT,
            names@.len() == modifier_names_upto(set, i as int).len(),
            forall|k: int|
                0 <= k < names@.len() ==> (#[trigger] names@[k])@ == modifier_names_upto(
                    set,
                    i as int,
                )[k],
        decreases MODIFIER_COUNT - i,
    {
        let candidate = modifier_in_order(i);
        if set.contains(candidate) {
            names.push(modifier_name(candidate).to_owned());
        }
        i += 1;
    }
    names
}

/// The text form of a border type. The kinds that have no name of their
/// own are written as `double`.
pub open spec fn spec_border_to_string(border: BorderType) -> Seq<char> {
    match border {
        BorderType::Plain => "plain"@,
        BorderType::Rounded => "rounded"@,
        BorderType::Double => "double"@,
        BorderType::Thick => "thick"@,
        _ => "double"@,
    }
}

/// The border type that a name in lower case stands for; rounded for
/// every text that is no name.
pub open spec fn spec_parse_border(lower: Seq<char>) -> BorderType {
    if lower == "plain"@ {
        BorderType::Plain
    } else if lower == "rounded"@ {
        BorderType::Rounded
    } else if lower == "double"@ {
        BorderType::Double
    } else if lower == "thick"@ {
        BorderType::Thick
    } else {
        BorderType::Rounded
    }
}

/// The text form of a border type.
pub fn border_to_string(border: BorderType) -> (name: &'static str)
    ensures
        name@ == spec_border_to_string(border),
{
    match border {
        BorderType::Plain => "plain",
        BorderType::Rounded => "rounded",
        BorderType::Double => "double",
        BorderType::Thick => "thick",
        _ => "double",
    }
}

/// Reads a border type from a name that is in lower case already.
pub fn parse_border_lowered(lower: &Vec<char>) -> (border: BorderType)
    ensures
        border == spec_parse_border(lower@),
{
    if word_is(lower, "plain") {
        BorderType::Plain
    } else if word_is(lower, "rounded") {
        BorderType::Rounded
    } else if word_is(lower, "double") {
        BorderType::Double
    } else if word_is(lower, "thick") {
        BorderType::Thick
    } else {
        BorderType::Rounded
    }
}

/// Reads a border type by its name, without regard to case.
pub fn parse_border(text: &str) -> (border: BorderType)
    ensures
        border == spec_parse_border(lowercase_of(text@)),
{
    let lower = text.to_lowercase();
    let chars = chars_of(lower.as_str());
    parse_border_lowered(&chars)
}

/// The words that the first `n` characters of a text complete, and what
/// comes after the last white space among them.
pub open spec fn tokens_within(text: Seq<char>, n: int) -> (Seq<Seq<char>>, Seq<char>)
    decreases n,
{
    if n <= 0 {
        (Seq::empty(), Seq::empty())
    } else {
        let (done, current) = tokens_within(text, n - 1);
        if whitespace_of(text[n - 1]) {
            if current.len() > 0 {
                (done.push(current), Seq::empty())
            } else {
                (done, current)
            }
        } else {
            (done, current.push(text[n - 1]))
        }
    }
}

/// The words of a text: its longest runs of characters that are not white
/// space.
pub open spec fn spec_tokens(text: Seq<char>) -> Seq<Seq<char>> {
    let (done, current) = tokens_within(text, text.len() as int);
    if current.len() > 0 {
        done.push(current)
    } else {
        done
    }
}

/// A list of words as sequences of characters.
pub open spec fn token_views(words: Seq<Vec<char>>) -> Seq<Seq<char>> {
    Seq::new(words.len(), |i: int| words[i]@)
}

/// Splits a text into its words at white space.
pub fn split_tokens(text: &Vec<char>) -> (words: Vec<Vec<char>>)
    ensures
        token_views(words@) == spec_tokens(text@),
{
    let mut words: Vec<Vec<char>> = Vec::new();
    let mut current: Vec<char> = Vec::new();
    let mut i: usize = 0;
    while i < text.len()
        invariant
            i <= text.len(),
            (token_views(words@), current@) == tokens_within(text@, i as int),
        decreases text.len() - i,
    {
        let c = text[i];
        if is_whitespace(c) {
            if current.len() > 0 {
                let ghost before = token_views(words@);
                words.push(current);
                proof {
                    assert(token_views(words@) =~= before.push(current@));
                }
                current = Vec::new();
            }
        } else {
            current.push(c);
        }
        i += 1;
    }
    if current.len() > 0 {
        let ghost before = token_views(words@);
        words.push(current);
        proof {
            assert(token_views(words@) =~= before.push(current@));
        }
    }
    words
}

/// Whether a word begins with a prefix.
pub open spec fn has_prefix(word: Seq<char>, prefix: Seq<char>) -> bool {
    word.len() >= prefix.len() && word.take(prefix.len() as int) == prefix
}

/// What follows a prefix in a word that begins with it.
fn strip_prefix(word: &Vec<char>, prefix: &str) -> (rest: Option<Vec<char>>)
    ensures
        rest is Some <==> has_prefix(word@, prefix@),
        rest is Some ==> rest->0@ == word@.skip(prefix@.len() as int),
{
    let start = chars_of(prefix);
    if word.len() < start.len() {
        return None;
    }
    let mut i: usize = 0;
    while i < start.len()
        invariant
            i <= start.len(),
            start.len() <= word.len(),
            start@ == prefix@,
            word@.take(i as int) == start@.take(i as int),
        decreases start.len() - i,
    {
        if word[i] != start[i] {
            proof {
                if has_prefix(word@, prefix@) {
                    assert(word@.take(prefix@.len() as int)[i as int] == prefix@[i as int]);
                }
            }
            return None;
        }
        proof {
            assert(word@.take(i + 1) =~= word@.take(i as int).push(word@[i as int]));
            assert(start@.take(i + 1) =~= start@.take(i as int).push(start@[i as int]));
        }
        i += 1;
    }
    proof {
        assert(start@.take(start.len() as int) =~= start@);
    }
    let mut rest: Vec<char> = Vec::new();
    let mut k: usize = start.len();
    while k < word.len()
        invariant
            start.len() <= k <= word.len(),
            rest@ == word@.subrange(start.len() as int, k as int),
        decreases word.len() - k,
    {
        rest.push(word[k]);
        proof {
            assert(word@.subrange(start.len() as int, k + 1) =~= word@.subrange(
                start.len() as int,
                k as int,
            ).push(word@[k as int]));
        }
        k += 1;
    }
    proof {
        assert(word@.skip(start.len() as int) =~= word@.subrange(
            start.len() as int,
            word.len() as int,
        ));
    }
    Some(rest)
}

/// The style after a colour has been read for its foreground.
pub open spec fn with_fg(style: Style, color: Option<Color>) -> Style {
    match color {
        Some(c) => Style { fg: Some(c), ..style },
        None => style,
    }
}

/// The style after a colour has been read for its background.
pub open spec fn with_bg(style: Style, color: Option<Color>) -> Style {
    match color {
        Some(c) => Style { bg: Some(c), ..style },
        None => style,
    }
}

/// The style after a colour has been read for its underline.
pub open spec fn with_ul(style: Style, color: Option<Color>) -> Style {
    match color {
        Some(c) => Style { underline_color: Some(c), ..style },
        None => style,
    }
}

/// The style after a modifier has been read.
pub open spec fn with_modifier(style: Style, modifier: Option<Modifier>) -> Style {
    match modifier {
        Some(m) => Style { add_modifier: style.add_modifier.with(m), ..style },
        None => style,
    }
}

/// The style after one word of its text form: `fg:`, `bg:` or `ul:` with
/// a colour sets that colour, the name of a modifier adds it, and a word
/// that is neither leaves the style as it is.
pub open spec fn style_with_part(style: Style, part: Seq<char>) -> Style {
    if has_prefix(part, "fg:"@) {
        with_fg(style, spec_parse_color(lowercase_of(part.skip("fg:"@.len() as int))))
    } else if has_prefix(part, "bg:"@) {
        with_bg(style, spec_parse_color(lowercase_of(part.skip("bg:"@.len() as int))))
    } else if has_prefix(part, "ul:"@) {
        with_ul(style, spec_parse_color(lowercase_of(part.skip("ul:"@.len() as int))))
    } else {
        with_modifier(style, spec_parse_modifier(lowercase_of(part)))
    }
}

/// The style after the first `n` words of its text form.
pub open spec fn style_with_parts(parts: Seq<Seq<char>>, n: int) -> Style
    decreases n,
{
    if n <= 0 {
        plain_style()
    } else {
        style_with_part(style_with_parts(parts, n - 1), parts[n - 1])
    }
}

/// The style that a text stands for.
pub open spec fn spec_parse_style(text: Seq<char>) -> Style {
    style_with_parts(spec_tokens(text), spec_tokens(text).len() as int)
}

/// Applies one word of the text form of a style.
pub fn apply_part(style: Style, part: &Vec<char>) -> (changed: Style)
    ensures
        changed == style_with_part(style, part@),
{
    if let Some(value) = strip_prefix(part, "fg:") {
        match parse_color_lowered(&lowered(&value)) {
            Some(color) => style.fg(color),
            None => style,
        }
    } else if let Some(value) = strip_prefix(part, "bg:") {
        match parse_color_lowered(&lowered(&value)) {
            Some(color) => style.bg(color),
            None => style,
        }
    } else if let Some(value) = strip_prefix(part, "ul:") {
        match parse_color_lowered(&lowered(&value)) {
            Some(color) => style.underline_color(color),
            None => style,
        }
    } else {
        match parse_modifier_lowered(&lowered(part)) {
            Some(modifier) => style.add_modifier(modifier),
            None => style,
        }
    }
}

/// Reads a style from its text form.
pub fn parse_style(text: &str) -> (style: Style)
    ensures
        style == spec_parse_style(text@),
{
    let chars = chars_of(text);
    let parts = split_tokens(&chars);
    let mut style = Style::new();
    let mut i: usize = 0;
    while i < parts.len()
        invariant
            i <= parts.len(),
            token_views(parts@) == spec_tokens(text@),
            style == style_with_parts(spec_tokens(text@), i as int),
        decreases parts.len() - i,
    {
        assert(token_views(parts@)[i as int] == parts@[i as int]@);
        style = apply_part(style, &parts[i]);
        i += 1;
    }
    style
}

/// The words of the text form of a style as far as its colours go.
pub open spec fn color_parts(style: Style) -> Seq<Seq<char>> {
    (match style.fg {
        Some(c) => seq!["fg:"@ + spec_color_to_string(c)],
        None => Seq::empty(),
    }) + (match style.bg {
        Some(c) => seq!["bg:"@ + spec_color_to_string(c)],
        None => Seq::empty(),
    }) + (match style.underline_color {
        Some(c) => seq!["ul:"@ + spec_color_to_string(c)],
        None => Seq::empty(),
    })
}

/// The words of the text form of a style: the colours that are set, then
/// the names of the modifiers.
pub open spec fn style_parts(style: Style) -> Seq<Seq<char>> {
    color_parts(style) + spec_modifier_names(style.add_modifier)
}

/// The first `n` words of a list, with one space between each two.
pub open spec fn joined_upto(parts: Seq<Seq<char>>, n: int) -> Seq<char>
    decreases n,
{
    if n <= 0 {
        Seq::empty()
    } else if n == 1 {
        parts[0]
    } else {
        joined_upto(parts, n - 1) + seq![' '] + parts[n - 1]
    }
}

/// The text form of a style: its words with one space between each two.
pub open spec fn spec_style_to_string(style: Style) -> Seq<char> {
    joined_upto(style_parts(style), style_parts(style).len() as int)
}

/// A colour of a style as a word of its text form.
fn color_part(label: &str, color: Color) -> (part: Vec<char>)
    ensures
        part@ == label@ + spec_color_to_string(color),
{
    let mut part: Vec<char> = Vec::new();
    push_str(&mut part, label);
    push_color(&mut part, color);
    proof {
        assert(part@ =~= label@ + spec_color_to_string(color));
    }
    part
}

/// The text form of a style.
pub fn style_to_string(style: &Style) -> (text: String)
    ensures
        text@ == spec_style_to_string(*style),
{
    let mut parts: Vec<Vec<char>> = Vec::new();
    if let Some(color) = style.fg {
        parts.push(color_part("fg:", color));
    }
    if let Some(color) = style.bg {
        parts.push(color_part("bg:", color));
    }
    if let Some(color) = style.underline_color {
        parts.push(color_part("ul:", color));
    }
    proof {
        assert(token_views(parts@) =~= color_parts(*style));
    }
    let mut i: usize = 0;
    while i < MODIFIER_COUNT
        invariant
            i <= MODIFIER_COUNT,
            token_views(parts@) == color_parts(*style) + modifier_names_upto(
                style.add_modifier,
                i as int,
            ),
        decreases MODIFIER_COUNT - i,
    {
        let candidate = modifier_in_order(i);
        if style.add_modifier.contains(candidate) {
            let ghost before = token_views(parts@);
            let name = chars_of(modifier_name(candidate));
            parts.push(name);
            proof {
                assert(token_views(parts@) =~= before.push(name@));
                assert(before.push(name@) =~= color_parts(*style) + modifier_names_upto(
                    style.add_modifier,
                    i + 1,
                ));
            }
        } else {
            proof {
                assert(modifier_names_upto(style.add_modifier, i + 1) == modifier_names_upto(
                    style.add_modifier,
                    i as int,
                ));
            }
        }
        i += 1;
    }
    let mut out: Vec<char> = Vec::new();
    let mut k: usize = 0;
    while k < parts.len()
        invariant
            k <= parts.len(),
            out@ == joined_upto(token_views(parts@), k as int),
        decreases parts.len() - k,
    {
        assert(token_views(parts@)[k as int] == parts@[k as int]@);
        if k > 0 {
            out.push(' ');
        }
        let mut j: usize = 0;
        let ghost start = out@;
        while j < parts[k].len()
            invariant
                k < parts.len(),
                j <= parts[k as int].len(),
                out@ == start + parts@[k as int]@.take(j as int),
            decreases parts[k as int].len() - j,
        {
            out.push(parts[k][j]);
            proof {
                let word = parts@[k as int]@;
                assert(word.take(j + 1) =~= word.take(j as int).push(word[j as int]));
            }
            j += 1;
        }
        proof {
            let word = parts@[k as int]@;
            assert(word.take(word.len() as int) =~= word);
            if k == 0 {
                assert(out@ =~= word);
            } else {
                assert(out@ =~= joined_upto(token_views(parts@), k as int) + seq![' '] + word);
            }
        }
        k += 1;
    }
    string_of(&out)
}

/// A hexadecimal digit is read back as its value.
proof fn lemma_hex_digit_round_trip(d: int)
    requires
        0 <= d < 16,
    ensures
        hex_value(hex_char(d)) == Some(d as u8),
        hex_char(d) != '+',
        hex_char(d) != '#',
{
}

/// A byte written as two hexadecimal digits is read back as that byte.
proof fn lemma_hex_byte_round_trip(b: u8)
    ensures
        spec_hex_byte(b).len() == 2,
        hex_pair(spec_hex_byte(b)[0], spec_hex_byte(b)[1]) == Some(b),
{
    lemma_hex_digit_round_trip(b as int / 16);
    lemma_hex_digit_round_trip(b as int % 16);
}

/// A number in decimal notation is digits only, and they are read back as
/// the number.
proof fn lemma_decimal_round_trip(n: nat)
    ensures
        spec_decimal(n).len() > 0,
        all_digits(spec_decimal(n), spec_decimal(n).len() as int),
        digits_value(spec_decimal(n), spec_decimal(n).len() as int) == n,
        is_digit(spec_decimal(n)[0]),
    decreases n,
{
    let all = spec_decimal(n);
    if n >= 10 {
        lemma_decimal_round_trip(n / 10);
        let head = spec_decimal(n / 10);
        let last = digit_char((n % 10) as int);
        assert(all == head.push(last));
        lemma_digits_of_prefix(all, head, head.len() as int);
        assert(last as u32 == 48 + n % 10);
        assert(all[all.len() - 1] == last);
        assert(all_digits(all, all.len() as int));
        assert(digits_value(all, all.len() as int) == digits_value(all, all.len() - 1) * 10 + (n
            % 10));
    } else {
        assert(all[0] as u32 == 48 + n);
        assert(all_digits(all, 0));
        assert(digits_value(all, 0) == 0);
        assert(all_digits(all, 1));
        assert(digits_value(all, 1) == n);
    }
}

/// What the first characters of a text are worth does not depend on what
/// follows them.
proof fn lemma_digits_of_prefix(text: Seq<char>, head: Seq<char>, n: int)
    requires
        0 <= n <= head.len() <= text.len(),
        forall|i: int| 0 <= i < head.len() ==> text[i] == head[i],
    ensures
        all_digits(text, n) == all_digits(head, n),
        digits_value(text, n) == digits_value(head, n),
    decreases n,
{
    if n > 0 {
        lemma_digits_of_prefix(text, head, n - 1);
    }
}

/// The text form of a colour is read back as that colour.
pub proof fn lemma_color_round_trip(color: Color)
    ensures
        spec_parse_color(spec_color_to_string(color)) == Some(color),
{
    reveal_strlit("reset");
    reveal_strlit("black");
    reveal_strlit("red");
    reveal_strlit("green");
    reveal_strlit("yellow");
    reveal_strlit("blue");
    reveal_strlit("magenta");
    reveal_strlit("cyan");
    reveal_strlit("gray");
    reveal_strlit("darkgray");
    reveal_strlit("dark_gray");
    reveal_strlit("lightred");
    reveal_strlit("light_red");
    reveal_strlit("lightgreen");
    reveal_strlit("light_green");
    reveal_strlit("lightyellow");
    reveal_strlit("light_yellow");
    reveal_strlit("lightblue");
    reveal_strlit("light_blue");
    reveal_strlit("lightmagenta");
    reveal_strlit("light_magenta");
    reveal_strlit("lightcyan");
    reveal_strlit("light_cyan");
    reveal_strlit("white");
    let text = spec_color_to_string(color);
    match color {
        Color::Rgb(r, g, b) => {
            lemma_hex_byte_round_trip(r);
            lemma_hex_byte_round_trip(g);
            lemma_hex_byte_round_trip(b);
            assert(text.len() == 7);
            assert(text[0] == '#');
            assert(text[1] == spec_hex_byte(r)[0] && text[2] == spec_hex_byte(r)[1]);
            assert(text[3] == spec_hex_byte(g)[0] && text[4] == spec_hex_byte(g)[1]);
            assert(text[5] == spec_hex_byte(b)[0] && text[6] == spec_hex_byte(b)[1]);
            assert(spec_named_color(text) is None);
        },
        Color::Indexed(i) => {
            lemma_decimal_round_trip(i as nat);
            assert(spec_named_color(text) is None);
            assert(text[0] != '#');
        },
        _ => {},
    }
}

/// The name of a modifier is read back as that modifier.
pub proof fn lemma_modifier_round_trip(modifier: Modifier)
    ensures
        spec_parse_modifier(spec_modifier_name(modifier)) == Some(modifier),
{
    reveal_strlit("bold");
    reveal_strlit("dim");
    reveal_strlit("italic");
    reveal_strlit("underlined");
    reveal_strlit("slow_blink");
    reveal_strlit("rapid_blink");
    reveal_strlit("reversed");
    reveal_strlit("hidden");
    reveal_strlit("crossed_out");
    assert("bold"@[0] == 'b' && "dim"@[0] == 'd' && "italic"@[0] == 'i');
    assert("underlined"@[0] == 'u' && "slow_blink"@[0] == 's' && "hidden"@[0] == 'h');
    assert("rapid_blink"@[1] == 'a' && "reversed"@[1] == 'e' && "crossed_out"@[0] == 'c');
    assert("rapid_blink"@[0] == 'r' && "reversed"@[0] == 'r');
    reveal_with_fuel(modifier_named, 10);
}

/// The text form of a border type is read back as that border type, or as
/// the double border where the border type has no name of its own.
pub proof fn lemma_border_round_trip(border: BorderType)
    ensures
        spec_parse_border(spec_border_to_string(border)) == (match border {
            BorderType::QuadrantInside | BorderType::QuadrantOutside => BorderType::Double,
            _ => border,
        }),
{
    reveal_strlit("plain");
    reveal_strlit("rounded");
    reveal_strlit("double");
    reveal_strlit("thick");
    assert("plain"@[0] == 'p' && "rounded"@[0] == 'r' && "double"@[0] == 'd');
    assert("thick"@[0] == 't');
}

} // verus!

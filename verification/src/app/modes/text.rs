//! # Text Module
//!
//! Words as sequences of Unicode scalar values, and small helpers on lists of
//! words.

use vstd::prelude::*;

verus! {

/// A list of words as the sequences of characters that they hold.
pub open spec fn word_views(words: Seq<Vec<char>>) -> Seq<Seq<char>> {
    Seq::new(words.len(), |i: int| words[i]@)
}

/// Whether two words hold the same characters.
pub fn word_eq(a: &Vec<char>, b: &Vec<char>) -> (same: bool)
    ensures
        same == (a@ == b@),
{
    if a.len() != b.len() {
        return false;
    }
    let mut i: usize = 0;
    while i < a.len()
        invariant
            a.len() == b.len(),
            i <= a.len(),
            a@.take(i as int) == b@.take(i as int),
        decreases a.len() - i,
    {
        if a[i] != b[i] {
            return false;
        }
        proof {
            assert(a@.take(i + 1) =~= a@.take(i as int).push(a@[i as int]));
            assert(b@.take(i + 1) =~= b@.take(i as int).push(b@[i as int]));
        }
        i += 1;
    }
    proof {
        assert(a@ =~= a@.take(a.len() as int));
        assert(b@ =~= b@.take(b.len() as int));
    }
    true
}

/// A copy of a word.
pub fn word_clone(word: &Vec<char>) -> (copy: Vec<char>)
    ensures
        copy@ == word@,
{
    let mut copy: Vec<char> = Vec::with_capacity(word.len());
    let mut i: usize = 0;
    while i < word.len()
        invariant
            i <= word.len(),
            copy@ == word@.take(i as int),
        decreases word.len() - i,
    {
        copy.push(word[i]);
        proof {
            assert(word@.take(i + 1) =~= word@.take(i as int).push(word@[i as int]));
        }
        i += 1;
    }
    proof {
        assert(word@ =~= word@.take(word.len() as int));
    }
    copy
}

/// A copy of a list of words.
pub fn words_clone(words: &Vec<Vec<char>>) -> (copy: Vec<Vec<char>>)
    ensures
        word_views(copy@) == word_views(words@),
{
    let mut copy: Vec<Vec<char>> = Vec::with_capacity(words.len());
    let mut i: usize = 0;
    while i < words.len()
        invariant
            i <= words.len(),
            copy.len() == i,
            forall|k: int| 0 <= k < i ==> (#[trigger] copy@[k])@ == words@[k]@,
        decreases words.len() - i,
    {
        copy.push(word_clone(&words[i]));
        i += 1;
    }
    proof {
        assert(word_views(copy@) =~= word_views(words@));
    }
    copy
}

/// The characters of a string, one by one.
pub fn chars_of(s: &str) -> (out: Vec<char>)
    ensures
        out@ == s@,
{
    let mut out: Vec<char> = Vec::new();
    for c in it: s.chars()
        invariant
            it.seq() == s@,
            out@ =~= s@.take(it.index() as int),
    {
        out.push(c);
    }
    out
}

/// Whether two strings hold the same characters.
pub fn str_eq(a: &str, b: &str) -> (same: bool)
    ensures
        same == (a@ == b@),
{
    let left = chars_of(a);
    let right = chars_of(b);
    word_eq(&left, &right)
}

/// `String::push` appends the given character to the end of the string.
pub assume_specification[ String::push ](s: &mut String, ch: char)
    ensures
        final(s)@ == old(s)@.push(ch),
;

/// The string that holds the given characters.
pub fn string_of(chars: &Vec<char>) -> (s: String)
    ensures
        s@ == chars@,
{
    let mut s = String::new();
    let mut i: usize = 0;
    while i < chars.len()
        invariant
            i <= chars.len(),
            s@ == chars@.take(i as int),
        decreases chars.len() - i,
    {
        s.push(chars[i]);
        proof {
            assert(chars@.take(i + 1) =~= chars@.take(i as int).push(chars@[i as int]));
        }
        i += 1;
    }
    proof {
        assert(chars@.take(chars.len() as int) =~= chars@);
    }
    s
}

/// The character of a decimal digit.
pub open spec fn digit_char(d: int) -> char {
    if d == 0 {
        '0'
    } else if d == 1 {
        '1'
    } else if d == 2 {
        '2'
    } else if d == 3 {
        '3'
    } else if d == 4 {
        '4'
    } else if d == 5 {
        '5'
    } else if d == 6 {
        '6'
    } else if d == 7 {
        '7'
    } else if d == 8 {
        '8'
    } else {
        '9'
    }
}

/// A number in decimal notation, without leading zeros.
pub open spec fn spec_decimal(n: nat) -> Seq<char>
    decreases n,
{
    if n < 10 {
        seq![digit_char(n as int)]
    } else {
        spec_decimal(n / 10).push(digit_char((n % 10) as int))
    }
}

/// The character of a decimal digit.
fn digit(d: u8) -> (c: char)
    requires
        d < 10,
    ensures
        c == digit_char(d as int),
{
    if d == 0 {
        '0'
    } else if d == 1 {
        '1'
    } else if d == 2 {
        '2'
    } else if d == 3 {
        '3'
    } else if d == 4 {
        '4'
    } else if d == 5 {
        '5'
    } else if d == 6 {
        '6'
    } else if d == 7 {
        '7'
    } else if d == 8 {
        '8'
    } else {
        '9'
    }
}

/// Appends a number in decimal notation to a word.
pub fn push_decimal(out: &mut Vec<char>, n: u128)
    ensures
        final(out)@ == old(out)@ + spec_decimal(n as nat),
    decreases n,
{
    if n < 10 {
        out.push(digit(n as u8));
        proof {
            assert(out@ =~= old(out)@ + spec_decimal(n as nat));
        }
    } else {
        push_decimal(out, n / 10);
        out.push(digit((n % 10) as u8));
        proof {
            assert(out@ =~= old(out)@ + spec_decimal(n as nat));
        }
    }
}

/// Appends the characters of a string to a word.
pub fn push_str(out: &mut Vec<char>, s: &str)
    ensures
        final(out)@ == old(out)@ + s@,
{
    for c in it: s.chars()
        invariant
            it.seq() == s@,
            out@ =~= old(out)@ + s@.take(it.index() as int),
    {
        out.push(c);
    }
    proof {
        assert(s@.take(s@.len() as int) =~= s@);
    }
}

/// A line without the carriage return that ends it, if there is one.
pub open spec fn strip_cr(line: Seq<char>) -> Seq<char> {
    if line.len() > 0 && line.last() == '\r' {
        line.drop_last()
    } else {
        line
    }
}

/// The lines that the first `n` characters of a text complete, and what
/// comes after the last line feed among them.
///
/// A line ends with a line feed. The line feed is not part of the line, and
/// neither is a carriage return just before it.
pub open spec fn lines_within(text: Seq<char>, n: int) -> (Seq<Seq<char>>, Seq<char>)
    decreases n,
{
    if n <= 0 {
        (Seq::empty(), Seq::empty())
    } else {
        let (done, current) = lines_within(text, n - 1);
        if text[n - 1] == '\n' {
            (done.push(strip_cr(current)), Seq::empty())
        } else {
            (done, current.push(text[n - 1]))
        }
    }
}

/// The lines of a text. What follows the last line feed is a line of its
/// own unless it is empty; it keeps a carriage return at its end.
pub open spec fn spec_lines(text: Seq<char>) -> Seq<Seq<char>> {
    let (done, current) = lines_within(text, text.len() as int);
    if current.len() > 0 {
        done.push(current)
    } else {
        done
    }
}

/// Splits a text into its lines.
pub fn split_lines(text: &Vec<char>) -> (lines: Vec<Vec<char>>)
    ensures
        word_views(lines@) == spec_lines(text@),
{
    let mut lines: Vec<Vec<char>> = Vec::new();
    let mut current: Vec<char> = Vec::new();
    let mut i: usize = 0;
    while i < text.len()
        invariant
            i <= text.len(),
            (word_views(lines@), current@) == lines_within(text@, i as int),
        decreases text.len() - i,
    {
        let c = text[i];
        if c == '\n' {
            let n = current.len();
            if n > 0 && current[n - 1] == '\r' {
                current.pop();
            }
            let ghost before = word_views(lines@);
            lines.push(current);
            proof {
                assert(word_views(lines@) =~= before.push(current@));
            }
            current = Vec::new();
        } else {
            current.push(c);
        }
        i += 1;
    }
    if current.len() > 0 {
        let ghost before = word_views(lines@);
        lines.push(current);
        proof {
            assert(word_views(lines@) =~= before.push(current@));
        }
    }
    lines
}

} // verus!

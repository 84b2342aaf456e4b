//! # TTT Library
//!
//! The engine of a terminal typing test: the per-mode session state machines,
//! the character-level diff against the target text, the scoring rules and
//! the controller that routes key presses.
//!
//! Key presses and clock readings are handed in as plain values, and what
//! has to be drawn is handed out as plain values; drawing, argument parsing
//! and file access live outside. For the same keys at the same readings the
//! engine does the same, but for the order in which it shuffles the target
//! words.

pub mod app;
pub mod cli;
pub mod config;

use crate::app::modes::text::{chars_of, spec_lines, split_lines, str_eq, word_views};
use vstd::prelude::*;
use vstd::string::{StrSliceExecFns, StringSliceAdditionalSpecFns};
use vstd::utf8::{decode_utf8, encode_utf8_decode_utf8, valid_utf8};

verus! {

/// Why the words of a text could not be had.
#[derive(Clone, Copy, Debug, PartialEq, Eq, Structural)]
pub enum TextError {
    /// No text is stored under the identifier, neither by the user nor
    /// among the packaged texts.
    ResourceUnavailable,
    /// The text is not valid UTF-8.
    InvalidEncoding,
}

/// The packaged text `lorem`, one word per line.
pub const LOREM: &'static str =
    "lorem\nipsum\ndolor\nsit\namet\nconsectetur\nadipiscing\nelit\nquisque\nfaucibus\nex\nsapien\nvitae\npellentesque\nsem\nplacerat\nin\nid\ncursus\nmi\npretium\ntellus\nduis\nconvallis\ntempus\nleo\neu\naenean\nsed\ndiam\nurna\ntempor\npulvinar\nvivamus\nfringilla\nlacus\nnec\nmetus\nbibendum\negestas\niaculis\nmassa\nnisl\nmalesuada\nlacinia\ninteger\nnunc\nposuere\nut\nhendrerit\nsemper\nvel\nclass\naptent\ntaciti\nsociosqu\nad\nlitora\ntorquent\nper\nconubia\nnostra\ninceptos\nhimenaeos\n";

/// Manager for application resources.
///
/// This struct holds the packaged default texts and decides between them
/// and a text that the user has stored under the same identifier.
pub struct Resource;

/// The packaged text under an identifier, as bytes.
pub open spec fn packaged_text(name: Seq<char>) -> Option<Seq<u8>> {
    if name == "lorem"@ {
        Some(LOREM.spec_bytes())
    } else {
        None
    }
}

/// The text under an identifier, given what the user has stored under it:
/// the user's text comes first, the packaged text second.
pub open spec fn resolved_text(name: Seq<char>, local: Option<Seq<u8>>) -> Result<
    Seq<u8>,
    TextError,
> {
    match local {
        Some(bytes) => Ok(bytes),
        None => match packaged_text(name) {
            Some(bytes) => Ok(bytes),
            None => Err(TextError::ResourceUnavailable),
        },
    }
}

impl Resource {
    /// Retrieves a packaged text by name.
    pub fn get(name: &str) -> (found: Option<Vec<u8>>)
        ensures
            match packaged_text(name@) {
                Some(bytes) => found is Some && found->0@ == bytes,
                None => found is None,
            },
    {
        if str_eq(name, "lorem") {
            Some(LOREM.as_bytes_vec())
        } else {
            None
        }
    }

    /// Retrieves text data by name.
    ///
    /// `local` is what the user has stored under the name in the `texts/`
    /// subdirectory of the configuration directory, if anything. If there
    /// is nothing, the packaged texts are searched.
    ///
    /// # Errors
    /// Returns [`TextError::ResourceUnavailable`] if the requested text
    /// exists neither in local storage nor among the packaged texts.
    pub fn get_text(name: &str, local: Option<Vec<u8>>) -> (text: Result<Vec<u8>, TextError>)
        ensures
            match resolved_text(
                name@,
                match local {
                    Some(bytes) => Some(bytes@),
                    None => None,
                },
            ) {
                Ok(bytes) => text is Ok && text->Ok_0@ == bytes,
                Err(e) => text == Err::<Vec<u8>, TextError>(e),
            },
    {
        match local {
            Some(bytes) => Ok(bytes),
            None => match Resource::get(name) {
                Some(bytes) => Ok(bytes),
                None => Err(TextError::ResourceUnavailable),
            },
        }
    }

    /// Retrieves the lines of a text by name: the text is looked up as
    /// [`Resource::get_text`] does and split into lines as [`load_corpus`]
    /// does.
    ///
    /// # Errors
    /// Returns [`TextError::ResourceUnavailable`] if there is no text under
    /// the name, and [`TextError::InvalidEncoding`] if there is one that is
    /// not valid UTF-8.
    pub fn load(name: &str, local: Option<Vec<u8>>) -> (corpus: Result<Vec<Vec<char>>, TextError>)
        ensures
            match spec_load(
                name@,
                match local {
                    Some(bytes) => Some(bytes@),
                    None => None,
                },
            ) {
                Ok(lines) => corpus is Ok && word_views(corpus->Ok_0@) == lines,
                Err(e) => corpus == Err::<Vec<Vec<char>>, TextError>(e),
            },
    {
        match Resource::get_text(name, local) {
            Ok(bytes) => load_corpus(bytes.as_slice()),
            Err(e) => Err(e),
        }
    }
}

/// The lines of the text under an identifier, given what the user has
/// stored under it.
pub open spec fn spec_load(name: Seq<char>, local: Option<Seq<u8>>) -> Result<
    Seq<Seq<char>>,
    TextError,
> {
    match resolved_text(name, local) {
        Ok(bytes) => spec_corpus(bytes),
        Err(e) => Err(e),
    }
}

/// The error of `core::str::from_utf8`. Nothing is read from it.
#[verifier::external_type_specification]
#[verifier::external_body]
pub struct ExUtf8Error(core::str::Utf8Error);

/// `core::str::from_utf8` checks that the bytes are valid UTF-8 and, if
/// they are, hands them back as a string slice over the same bytes.
pub assume_specification[ core::str::from_utf8 ](v: &[u8]) -> (res: Result<
    &str,
    core::str::Utf8Error,
>)
    ensures
        res is Ok <==> valid_utf8(v@),
        res is Ok ==> res->Ok_0.spec_bytes() == v@,
;

/// The lines of a text given as bytes.
pub open spec fn spec_corpus(bytes: Seq<u8>) -> Result<Seq<Seq<char>>, TextError> {
    if valid_utf8(bytes) {
        Ok(spec_lines(decode_utf8(bytes)))
    } else {
        Err(TextError::InvalidEncoding)
    }
}

/// Turns the bytes of a text into the lines that words are drawn from.
///
/// # Errors
/// Returns [`TextError::InvalidEncoding`] if the bytes are not valid
/// UTF-8.
pub fn load_corpus(bytes: &[u8]) -> (corpus: Result<Vec<Vec<char>>, TextError>)
    ensures
        match spec_corpus(bytes@) {
            Ok(lines) => corpus is Ok && word_views(corpus->Ok_0@) == lines,
            Err(e) => corpus == Err::<Vec<Vec<char>>, TextError>(e),
        },
{
    match core::str::from_utf8(bytes) {
        Ok(text) => {
            proof {
                encode_utf8_decode_utf8(text@);
            }
            let chars = chars_of(text);
            Ok(split_lines(&chars))
        },
        Err(_) => Err(TextError::InvalidEncoding),
    }
}

} // verus!

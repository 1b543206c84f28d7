//! Reading references out of lines of text.

use crate::catalog::{RefKind, Reference};
use crate::ident::{from_base62, id_of};
use regex::Regex;
use vstd::prelude::*;

verus! {

#[verifier::external_type_specification]
#[verifier::external_body]
pub struct ExRegexError(regex::Error);

/// What one line of input means.
#[derive(Clone, Copy, Debug, PartialEq, Eq, Structural)]
pub enum Line {
    /// The line that ends the input.
    Done,
    Reference(Reference),
    /// A line that holds no reference.
    Ignored,
    /// A line whose reference is of a kind that is not known.
    UnknownKind,
}

/// Why a line could not be read.
#[derive(Clone, Copy, Debug, PartialEq, Eq, Structural)]
pub enum ParseError {
    /// The pattern of references was refused.
    Pattern,
    /// The id of a reference is no base-62 number of 128 bits.
    MalformedId,
}

/// `text` as `str::trim` leaves it: without the white space at its ends.
pub uninterp spec fn trimmed(text: Seq<char>) -> Seq<char>;

/// `part` is a run of consecutive characters of `text`.
pub open spec fn is_part_of(part: Seq<char>, text: Seq<char>) -> bool {
    exists|from: int, to: int| 0 <= from <= to <= text.len() && part == #[trigger] text.subrange(from, to)
}

/// `str::trim`: the result is a slice of the text, what is left of it
/// without the white space at its ends.
#[verifier::external_body]
fn trim(text: &str) -> (r: &str)
    ensures
        r@ == trimmed(text@),
        is_part_of(r@, text@),
{
    text.trim()
}

/// The capture groups of the leftmost match of `pattern` in `text`, as the
/// `regex` crate finds them: the outer `None` where it refuses the
/// pattern, the inner `None` where nothing matches, and within a match
/// `None` for a group that took no part in it. Group 0 is the whole match.
pub uninterp spec fn regex_groups(pattern: Seq<char>, text: Seq<char>) -> Option<Option<Seq<Option<Seq<char>>>>>;

/// The text of each group.
pub open spec fn groups_view(groups: Seq<Option<String>>) -> Seq<Option<Seq<char>>> {
    Seq::new(
        groups.len(),
        |i: int|
            match groups[i] {
                Some(s) => Some(s@),
                None => None,
            },
    )
}

/// The answer of the `regex` crate as plain text.
pub open spec fn captures_view(found: Result<Option<Vec<Option<String>>>, regex::Error>) -> Option<Option<Seq<Option<Seq<char>>>>> {
    match found {
        Err(_) => None,
        Ok(None) => Some(None),
        Ok(Some(groups)) => Some(Some(groups_view(groups@))),
    }
}

/// `Regex::new` on the pattern, then `Regex::captures` on the text; each
/// group of the match is copied out as a string.
#[verifier::external_body]
fn regex_captures(pattern: &str, text: &str) -> (found: Result<Option<Vec<Option<String>>>, regex::Error>)
    ensures
        captures_view(found) == regex_groups(pattern@, text@),
{
    let re = Regex::new(pattern)?;
    Ok(re.captures(text).map(|c| c.iter().map(|g| g.map(|m| m.as_str().to_owned())).collect()))
}

/// The kind that a word names.
pub open spec fn kind_of(word: Seq<char>) -> Option<RefKind> {
    if word == "playlist"@ {
        Some(RefKind::Playlist)
    } else if word == "track"@ {
        Some(RefKind::Track)
    } else if word == "album"@ {
        Some(RefKind::Album)
    } else if word == "episode"@ {
        Some(RefKind::Episode)
    } else if word == "show"@ {
        Some(RefKind::Show)
    } else {
        None
    }
}

/// Tells which kind a word names.
pub fn kind_from_word(word: &str) -> (r: Option<RefKind>)
    ensures
        r == kind_of(word@),
{
    let word = String::from_str(word);
    if word == String::from_str("playlist") {
        Some(RefKind::Playlist)
    } else if word == String::from_str("track") {
        Some(RefKind::Track)
    } else if word == String::from_str("album") {
        Some(RefKind::Album)
    } else if word == String::from_str("episode") {
        Some(RefKind::Episode)
    } else if word == String::from_str("show") {
        Some(RefKind::Show)
    } else {
        None
    }
}

/// What the groups of a match mean: the first names the kind, the second
/// writes the id. A missing match or group gives a line to ignore; an id
/// that cannot be read is an error; a kind that is not known is told.
pub open spec fn reading(groups: Option<Seq<Option<Seq<char>>>>) -> Result<Line, ParseError> {
    match groups {
        None => Ok(Line::Ignored),
        Some(g) => if g.len() < 3 || g[1].is_none() || g[2].is_none() {
            Ok(Line::Ignored)
        } else {
            match id_of(g[2].unwrap()) {
                None => Err(ParseError::MalformedId),
                Some(id) => match kind_of(g[1].unwrap()) {
                    None => Ok(Line::UnknownKind),
                    Some(kind) => Ok(Line::Reference(Reference { kind, id })),
                },
            }
        },
    }
}

/// The groups as text, where there is a match.
pub open spec fn match_view(groups: Option<Vec<Option<String>>>) -> Option<Seq<Option<Seq<char>>>> {
    match groups {
        None => None,
        Some(g) => Some(groups_view(g@)),
    }
}

/// Turns the groups of a match into the reference that they write.
pub fn interpret(groups: &Option<Vec<Option<String>>>) -> (r: Result<Line, ParseError>)
    ensures
        r == reading(match_view(*groups)),
{
    match groups {
        None => Ok(Line::Ignored),
        Some(g) => {
            if g.len() < 3 {
                return Ok(Line::Ignored);
            }
            match (&g[1], &g[2]) {
                (Some(word), Some(text)) => {
                    match from_base62(text.as_str()) {
                        None => Err(ParseError::MalformedId),
                        Some(id) => match kind_from_word(word.as_str()) {
                            None => Ok(Line::UnknownKind),
                            Some(kind) => Ok(Line::Reference(Reference { kind, id })),
                        },
                    }
                },
                _ => Ok(Line::Ignored),
            }
        },
    }
}

/// The pattern of a reference: a kind, a slash or a colon, and an id of
/// letters and digits.
pub fn reference_pattern() -> (pattern: &'static str)
    ensures
        pattern@ == "(playlist|track|album|episode|show)[/:]([a-zA-Z0-9]+)"@,
{
    "(playlist|track|album|episode|show)[/:]([a-zA-Z0-9]+)"
}

/// What a trimmed line means, given what the pattern found in it.
pub open spec fn meaning(text: Seq<char>, found: Option<Option<Seq<Option<Seq<char>>>>>) -> Result<Line, ParseError> {
    if text == "done"@ {
        Ok(Line::Done)
    } else {
        match found {
            None => Err(ParseError::Pattern),
            Some(groups) => reading(groups),
        }
    }
}

/// Reads one line of input. The line is trimmed; `done` ends the input;
/// otherwise the first reference in the line is read, and a line without
/// one is ignored. Only a line that holds the word `done` ends the input.
pub fn parse_line(line: &str) -> (r: Result<Line, ParseError>)
    ensures
        r == meaning(
            trimmed(line@),
            regex_groups("(playlist|track|album|episode|show)[/:]([a-zA-Z0-9]+)"@, trimmed(line@)),
        ),
        r == Ok::<Line, ParseError>(Line::Done) ==> is_part_of("done"@, line@),
{
    let text = trim(line);
    if String::from_str(text) == String::from_str("done") {
        return Ok(Line::Done);
    }
    match regex_captures(reference_pattern(), text) {
        Err(_) => Err(ParseError::Pattern),
        Ok(groups) => interpret(&groups),
    }
}

} // verus!

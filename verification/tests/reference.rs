use oggfetch::catalog::{RefKind, Reference};
use oggfetch::ident::{from_base62, ID_TEXT_LEN};
use oggfetch::reference::{interpret, kind_from_word, parse_line, reference_pattern, Line, ParseError};

fn some(s: &str) -> Option<String> {
    Some(s.to_string())
}

#[test]
fn base62_digits() {
    assert_eq!(from_base62(""), Some(0));
    assert_eq!(from_base62("0"), Some(0));
    assert_eq!(from_base62("9"), Some(9));
    assert_eq!(from_base62("a"), Some(10));
    assert_eq!(from_base62("z"), Some(35));
    assert_eq!(from_base62("A"), Some(36));
    assert_eq!(from_base62("Z"), Some(61));
    assert_eq!(from_base62("10"), Some(62));
    assert_eq!(from_base62("AAA1"), Some(8720425));
}

#[test]
fn base62_full_length_id() {
    assert_eq!(from_base62("4uLU6hMCjMI75M1A2tKUQC"), Some(196373991439130863212091700994220317246));
}

#[test]
fn full_ids_have_22_digits() {
    assert_eq!(ID_TEXT_LEN, 22);
    assert_eq!(from_base62("0000000000000000000007"), Some(7));
}

#[test]
fn base62_limits() {
    assert_eq!(from_base62("7N42dgm5tFLK9N8MT7fHC7"), Some(u128::MAX));
    assert_eq!(from_base62("7N42dgm5tFLK9N8MT7fHC8"), None);
    assert_eq!(from_base62("ZZZZZZZZZZZZZZZZZZZZZZZ"), None);
}

#[test]
fn base62_rejects_other_characters() {
    assert_eq!(from_base62("ab-c"), None);
    assert_eq!(from_base62("é"), None);
    assert_eq!(from_base62(" 1"), None);
}

#[test]
fn kinds_by_word() {
    assert_eq!(kind_from_word("playlist"), Some(RefKind::Playlist));
    assert_eq!(kind_from_word("track"), Some(RefKind::Track));
    assert_eq!(kind_from_word("album"), Some(RefKind::Album));
    assert_eq!(kind_from_word("episode"), Some(RefKind::Episode));
    assert_eq!(kind_from_word("show"), Some(RefKind::Show));
    assert_eq!(kind_from_word("artist"), None);
    assert_eq!(kind_from_word("Track"), None);
}

#[test]
fn pattern_text() {
    assert_eq!(reference_pattern(), "(playlist|track|album|episode|show)[/:]([a-zA-Z0-9]+)");
}

#[test]
fn done_ends_input() {
    assert_eq!(parse_line("done"), Ok(Line::Done));
    assert_eq!(parse_line("  done \t"), Ok(Line::Done));
    assert_eq!(parse_line("done\n"), Ok(Line::Done));
    assert_eq!(parse_line("done now"), Ok(Line::Ignored));
}

#[test]
fn lines_without_reference_are_ignored() {
    assert_eq!(parse_line(""), Ok(Line::Ignored));
    assert_eq!(parse_line("hello world"), Ok(Line::Ignored));
    assert_eq!(parse_line("artist:abc"), Ok(Line::Ignored));
    assert_eq!(parse_line("track:"), Ok(Line::Ignored));
    assert_eq!(parse_line("track-abc"), Ok(Line::Ignored));
}

#[test]
fn references_with_colon_and_slash() {
    assert_eq!(
        parse_line("spotify:track:4uLU6hMCjMI75M1A2tKUQC"),
        Ok(Line::Reference(Reference { kind: RefKind::Track, id: 196373991439130863212091700994220317246 }))
    );
    assert_eq!(
        parse_line("https://open.spotify.com/playlist/37i9dQZF1DXcBWIGoYBM5M?si=abc"),
        Ok(Line::Reference(Reference { kind: RefKind::Playlist, id: 136159921382084734740266198768681045310 }))
    );
    assert_eq!(parse_line("  show/S1  "), Ok(Line::Reference(Reference { kind: RefKind::Show, id: 3349 })));
    assert_eq!(parse_line("episode:E1"), Ok(Line::Reference(Reference { kind: RefKind::Episode, id: 2481 })));
    assert_eq!(parse_line("album:AAA1"), Ok(Line::Reference(Reference { kind: RefKind::Album, id: 8720425 })));
}

#[test]
fn first_reference_of_a_line_counts() {
    assert_eq!(
        parse_line("track:T1 album:T2"),
        Ok(Line::Reference(Reference { kind: RefKind::Track, id: 3411 }))
    );
}

#[test]
fn overlong_id_is_malformed() {
    assert_eq!(parse_line("track:ZZZZZZZZZZZZZZZZZZZZZZZ"), Err(ParseError::MalformedId));
}

#[test]
fn interpret_groups() {
    assert_eq!(interpret(&None), Ok(Line::Ignored));
    assert_eq!(interpret(&Some(vec![some("x")])), Ok(Line::Ignored));
    assert_eq!(interpret(&Some(vec![some("x"), None, some("1")])), Ok(Line::Ignored));
    assert_eq!(interpret(&Some(vec![some("x"), some("track"), None])), Ok(Line::Ignored));
    assert_eq!(
        interpret(&Some(vec![some("track:10"), some("track"), some("10")])),
        Ok(Line::Reference(Reference { kind: RefKind::Track, id: 62 }))
    );
    assert_eq!(interpret(&Some(vec![some("x"), some("artist"), some("10")])), Ok(Line::UnknownKind));
    assert_eq!(interpret(&Some(vec![some("x"), some("track"), some("1-0")])), Err(ParseError::MalformedId));
    assert_eq!(interpret(&Some(vec![some("x"), some("artist"), some("1-0")])), Err(ParseError::MalformedId));
}

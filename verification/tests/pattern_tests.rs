use starlight_shards::pattern::{parse_pattern, scan, PatToken, Pattern};
use starlight_shards::ResolveError;

const ANCHOR_PATTERN: &[u8] =
    b"48 8B 0D ? ? ? ? ? ? ? ? ? ? ? E8 ? ? ? ? 48 85 C0 0F 84 ? ? ? ? 48 8B 80 80 00 00 00 48 8B 90 80 00 00 00";

#[test]
fn parse_double_question_wildcards() {
    let p = parse_pattern(b"48 8B 0D ?? ?? ?? ??").unwrap();
    assert_eq!(p.tokens.len(), 7);
    assert_eq!(p.tokens[0], PatToken::Byte(0x48));
    assert_eq!(p.tokens[1], PatToken::Byte(0x8B));
    assert_eq!(p.tokens[2], PatToken::Byte(0x0D));
    for i in 3..7 {
        assert_eq!(p.tokens[i], PatToken::Any);
    }
}

#[test]
fn parse_single_question_wildcards() {
    let p = parse_pattern(b"48 8B 0D ? e8").unwrap();
    assert_eq!(p.tokens.len(), 5);
    assert_eq!(p.tokens[3], PatToken::Any);
    assert_eq!(p.tokens[4], PatToken::Byte(0xE8));
}

#[test]
fn parse_anchor_pattern() {
    let p = parse_pattern(ANCHOR_PATTERN).unwrap();
    let words = ANCHOR_PATTERN.split(|b| *b == b' ').count();
    assert_eq!(p.tokens.len(), words);
    assert_eq!(p.tokens[0], PatToken::Byte(0x48));
    assert_eq!(p.tokens[3], PatToken::Any);
    assert_eq!(p.tokens[14], PatToken::Byte(0xE8));
    assert_eq!(p.tokens[words - 1], PatToken::Byte(0x00));
}

#[test]
fn parse_rejects_empty_text() {
    assert_eq!(parse_pattern(b"").unwrap_err(), ResolveError::MalformedPattern);
}

#[test]
fn parse_rejects_half_byte() {
    assert_eq!(parse_pattern(b"4").unwrap_err(), ResolveError::MalformedPattern);
    assert_eq!(parse_pattern(b"48 8").unwrap_err(), ResolveError::MalformedPattern);
}

#[test]
fn parse_rejects_non_hex() {
    assert_eq!(parse_pattern(b"XY").unwrap_err(), ResolveError::MalformedPattern);
}

#[test]
fn parse_rejects_double_space() {
    assert_eq!(parse_pattern(b"48  8B").unwrap_err(), ResolveError::MalformedPattern);
}

#[test]
fn parse_rejects_trailing_space() {
    assert_eq!(parse_pattern(b"48 ").unwrap_err(), ResolveError::MalformedPattern);
}

#[test]
fn scan_returns_first_literal_match() {
    let pat = parse_pattern(b"AA BB").unwrap();
    let hay = [0x00u8, 0xAA, 0x01, 0xAA, 0xBB, 0x09, 0xAA, 0xBB];
    assert_eq!(scan(&hay, &pat).unwrap(), 3);
}

#[test]
fn scan_match_at_start() {
    let pat = parse_pattern(b"00 01").unwrap();
    let hay = [0x00u8, 0x01, 0x00, 0x01];
    assert_eq!(scan(&hay, &pat).unwrap(), 0);
}

#[test]
fn scan_wildcard_positions_match_any_byte() {
    let pat = parse_pattern(b"AA ?? BB").unwrap();
    let one = [0xAAu8, 0x00, 0xBB];
    let other = [0xAAu8, 0x7F, 0xBB];
    assert_eq!(scan(&one, &pat).unwrap(), 0);
    assert_eq!(scan(&other, &pat).unwrap(), 0);
}

#[test]
fn scan_reports_pattern_not_found() {
    let pat = parse_pattern(b"AA BB").unwrap();
    let hay = [0xAAu8, 0xAA, 0xAA];
    assert_eq!(scan(&hay, &pat).unwrap_err(), ResolveError::PatternNotFound);
}

#[test]
fn scan_pattern_longer_than_range_not_found() {
    let pat = parse_pattern(b"AA BB CC DD").unwrap();
    let hay = [0xAAu8, 0xBB];
    assert_eq!(scan(&hay, &pat).unwrap_err(), ResolveError::PatternNotFound);
}

#[test]
fn scan_hand_built_pattern() {
    let pat = Pattern { tokens: vec![PatToken::Any, PatToken::Byte(0x10)] };
    let hay = [0x55u8, 0x10, 0x10];
    assert_eq!(scan(&hay, &pat).unwrap(), 0);
}

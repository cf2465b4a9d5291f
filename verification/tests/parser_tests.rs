use spotify_mem_reader::memory::MemorySpace;
use spotify_mem_reader::parser::{scan_field, TrackTextParser};
use spotify_mem_reader::reader::SpotifyMemReader;
use spotify_mem_reader::CoreError;

const SENTINEL: [u8; 3] = [0x20, 0xC2, 0xB7];

fn parser(budget: usize) -> TrackTextParser {
    TrackTextParser::new(SENTINEL.to_vec(), 0x00, budget)
}

// Feeds the whole stream byte by byte, stopping as soon as the machine is
// done, the way an incremental caller would.
fn run(p: &mut TrackTextParser, stream: &[u8]) {
    for &b in stream {
        if p.done() {
            break;
        }
        p.feed(b);
    }
}

#[test]
fn title_and_author_parsed() {
    let mut stream = b"Bohemian Rhapsody".to_vec();
    stream.extend_from_slice(&SENTINEL);
    stream.extend_from_slice(b"Queen");
    stream.push(0x00);

    let mut p = parser(256);
    run(&mut p, &stream);
    let track = p.finished.expect("parse should finish");
    assert_eq!(track.title, "Bohemian Rhapsody");
    assert_eq!(track.author, "Queen");
    assert!(p.fault.is_none());
}

#[test]
fn empty_fields_succeed() {
    // Both delimiters arrive with no content at all: the parse still
    // succeeds, with two empty fields.
    let mut stream = SENTINEL.to_vec();
    stream.push(0x00);

    let mut p = parser(256);
    run(&mut p, &stream);
    let track = p.finished.expect("empty fields are not a failure");
    assert_eq!(track.title, "");
    assert_eq!(track.author, "");
}

#[test]
fn sentinel_and_padding_are_stripped() {
    // NUL padding and whitespace around the fields disappear; the
    // sentinel and terminator never leak into the text.
    let mut stream = b"\0\0  Bohemian Rhapsody \0".to_vec();
    stream.extend_from_slice(&SENTINEL);
    stream.extend_from_slice(b" Queen\0\0");
    stream.push(0x00);

    let mut p = parser(256);
    run(&mut p, &stream);
    let track = p.finished.expect("parse should finish");
    assert_eq!(track.title, "Bohemian Rhapsody");
    assert_eq!(track.author, "Queen");
}

#[test]
fn budget_exhausted_fails() {
    let mut p = parser(4);
    run(&mut p, b"abcdefgh");
    assert_eq!(p.fault, Some(CoreError::TrackUnavailable));
    assert!(p.finished.is_none());
}

#[test]
fn budget_counts_per_field() {
    // Each field gets the whole budget: a title of 3 bytes plus its
    // 3-byte sentinel fits a budget of 6, and the author count restarts.
    let mut stream = b"abc".to_vec();
    stream.extend_from_slice(&SENTINEL);
    stream.extend_from_slice(b"defgh");
    stream.push(0x00);

    let mut p = parser(6);
    run(&mut p, &stream);
    let track = p.finished.expect("both fields fit their budgets");
    assert_eq!(track.title, "abc");
    assert_eq!(track.author, "defgh");
}

#[test]
fn read_failure_aborts_scan() {
    let mut p = parser(256);
    run(&mut p, b"Bohemian");
    p.abort_read_failure();
    assert_eq!(p.fault, Some(CoreError::TrackUnavailable));
    assert!(p.finished.is_none());
}

#[test]
fn undecodable_title_fails() {
    let mut stream = vec![0xFFu8, 0x41];
    stream.extend_from_slice(&SENTINEL);

    let mut p = parser(256);
    run(&mut p, &stream);
    assert_eq!(p.fault, Some(CoreError::TextDecodeFailure));
    assert!(p.finished.is_none());
}

#[test]
fn scan_field_strips_delimiter() {
    let mut mem = MemorySpace::new();
    let mut bytes = b"Queen".to_vec();
    bytes.push(0x00);
    bytes.extend_from_slice(b"after");
    mem.add_region(0x4000, bytes);

    let (field, next) = scan_field(&mem, 0x4000, &vec![0x00], 64).expect("delimited field");
    assert_eq!(field, b"Queen".to_vec());
    assert_eq!(next, 0x4006);
}

#[test]
fn scan_field_without_delimiter_fails() {
    let mut mem = MemorySpace::new();
    mem.add_region(0x4000, b"Queen".to_vec());
    // The terminator never appears: the scan runs into unreadable memory.
    assert_eq!(
        scan_field(&mem, 0x4000, &vec![0x00], 64),
        Err(CoreError::TrackUnavailable)
    );
    // And with everything readable but no delimiter, the budget runs out.
    let mut mem2 = MemorySpace::new();
    mem2.add_region(0x4000, vec![0x41u8; 64]);
    assert_eq!(
        scan_field(&mem2, 0x4000, &vec![0x00], 32),
        Err(CoreError::TrackUnavailable)
    );
}

#[test]
fn normalize_removes_nuls_and_trims_whitespace() {
    let as_i8 = |s: &[u8]| s.iter().map(|&b| b as i8).collect::<Vec<i8>>();
    assert_eq!(
        SpotifyMemReader::normalize_vec_i8_to_string(&as_i8(b"\0\0  Queen \0")),
        Some("Queen".to_string())
    );
    // NULs go wherever they stand, embedded ones included.
    assert_eq!(
        SpotifyMemReader::normalize_vec_i8_to_string(&as_i8(b"Qu\0een")),
        Some("Queen".to_string())
    );
    // A NUL that only whitespace trimming would expose goes as well.
    assert_eq!(
        SpotifyMemReader::normalize_vec_i8_to_string(&as_i8(b" \0Q")),
        Some("Q".to_string())
    );
}

#[test]
fn normalize_trims_unicode_whitespace() {
    // U+00A0 (no-break space) around the field: whitespace is judged per
    // decoded character, not per ASCII byte.
    let bytes: Vec<i8> = vec![
        0xC2u8 as i8,
        0xA0u8 as i8,
        b'Q' as i8,
        0xC2u8 as i8,
        0xA0u8 as i8,
    ];
    assert_eq!(
        SpotifyMemReader::normalize_vec_i8_to_string(&bytes),
        Some("Q".to_string())
    );
    // A field of nothing but Unicode whitespace trims to empty.
    let only_ws: Vec<i8> = vec![0xE3u8 as i8, 0x80u8 as i8, 0x80u8 as i8];
    assert_eq!(
        SpotifyMemReader::normalize_vec_i8_to_string(&only_ws),
        Some("".to_string())
    );
}

#[test]
fn normalize_decodes_multibyte_text() {
    // A two-byte UTF-8 character arrives as negative signed bytes; the
    // decoded text must hold the character, not the raw bytes.
    let chars: Vec<i8> = vec![0xCEu8 as i8, 0xB2u8 as i8];
    assert_eq!(
        SpotifyMemReader::normalize_vec_i8_to_string(&chars),
        Some("\u{03B2}".to_string())
    );
}

#[test]
fn normalize_rejects_invalid_utf8() {
    let chars: Vec<i8> = vec![-1];
    assert_eq!(SpotifyMemReader::normalize_vec_i8_to_string(&chars), None);
}

use hash_service::hashing::HashtableType;
use hash_service::ingest::{
    classify_file, find_token_end, hex_digit, ingest_lines, parse_hex, parse_line, HexError,
};
use hash_service::table::TableStore;

fn token(s: &str) -> Vec<char> {
    s.chars().collect()
}

fn owned(lines: &[&str]) -> Vec<String> {
    lines.iter().map(|l| l.to_string()).collect()
}

#[test]
fn hex_digits_of_both_cases() {
    assert_eq!(hex_digit('0'), Some(0));
    assert_eq!(hex_digit('9'), Some(9));
    assert_eq!(hex_digit('a'), Some(10));
    assert_eq!(hex_digit('f'), Some(15));
    assert_eq!(hex_digit('A'), Some(10));
    assert_eq!(hex_digit('F'), Some(15));
    assert_eq!(hex_digit('g'), None);
    assert_eq!(hex_digit('G'), None);
    assert_eq!(hex_digit('/'), None);
    assert_eq!(hex_digit(':'), None);
    assert_eq!(hex_digit('@'), None);
    assert_eq!(hex_digit('`'), None);
    assert_eq!(hex_digit(' '), None);
    assert_eq!(hex_digit('\u{0661}'), None);
}

#[test]
fn parse_hex_reads_sixteen_digit_hashes() {
    assert_eq!(parse_hex(&token("a7cf5b14b9b659e0")), Ok(0xa7cf5b14b9b659e0));
    assert_eq!(parse_hex(&token("A7CF5B14B9B659E0")), Ok(0xa7cf5b14b9b659e0));
    assert_eq!(parse_hex(&token("0")), Ok(0));
    assert_eq!(parse_hex(&token("1f")), Ok(31));
    assert_eq!(parse_hex(&token("ffffffffffffffff")), Ok(u64::MAX));
    assert_eq!(parse_hex(&token("0000000000000000000001")), Ok(1));
    assert_eq!(parse_hex(&token("+ff")), Ok(255));
}

#[test]
fn parse_hex_names_each_kind_of_error() {
    assert_eq!(parse_hex(&token("")), Err(HexError::Empty));
    assert_eq!(parse_hex(&token("+")), Err(HexError::InvalidDigit));
    assert_eq!(parse_hex(&token("-")), Err(HexError::InvalidDigit));
    assert_eq!(parse_hex(&token("-1")), Err(HexError::InvalidDigit));
    assert_eq!(parse_hex(&token("0x1f")), Err(HexError::InvalidDigit));
    assert_eq!(parse_hex(&token("xyz")), Err(HexError::InvalidDigit));
    assert_eq!(parse_hex(&token("12g4")), Err(HexError::InvalidDigit));
    assert_eq!(parse_hex(&token("++1")), Err(HexError::InvalidDigit));
    assert_eq!(parse_hex(&token("10000000000000000")), Err(HexError::Overflow));
    assert_eq!(parse_hex(&token("fffffffffffffffff")), Err(HexError::Overflow));
}

#[test]
fn parse_hex_reports_the_error_that_comes_first() {
    assert_eq!(parse_hex(&token("10000000000000000g")), Err(HexError::Overflow));
    assert_eq!(parse_hex(&token("g10000000000000000")), Err(HexError::InvalidDigit));
    assert_eq!(parse_hex(&token("1000000000000000g0")), Err(HexError::InvalidDigit));
}

#[test]
fn parse_hex_agrees_with_the_standard_library() {
    let tokens = [
        "", "+", "-", "0", "7", "a", "F", "g", "+0", "+a", "-a", "++", "+-1", "1 ", " 1", "0x10",
        "deadbeef", "DEADBEEF", "dEaDbEeF", "ffffffffffffffff", "10000000000000000",
        "00000000000000000000ff", "fffffffffffffffff", "123456789abcdef0", "12_34", "\u{00E9}",
        "1\u{00E9}", "+ffffffffffffffff", "+10000000000000000", "10000000000000000z",
    ];
    for t in tokens {
        let expected = u64::from_str_radix(t, 16).ok();
        assert_eq!(parse_hex(&token(t)).ok(), expected);
    }
}

#[test]
fn token_ends_at_the_first_space() {
    assert_eq!(find_token_end(&token("ab cd ef")), 2);
    assert_eq!(find_token_end(&token("abcd")), 4);
    assert_eq!(find_token_end(&token(" abcd")), 0);
    assert_eq!(find_token_end(&token("")), 0);
    assert_eq!(find_token_end(&token("ab\tcd")), 5);
}

#[test]
fn a_line_is_a_hash_and_a_path() {
    let entry = parse_line("a7cf5b14b9b659e0 data/characters/x/skin33.bin").unwrap();
    assert_eq!(entry.hash, 0xa7cf5b14b9b659e0);
    assert_eq!(entry.value, "data/characters/x/skin33.bin");
}

#[test]
fn the_value_of_a_line_keeps_its_spaces() {
    let entry = parse_line("1f a b  c ").unwrap();
    assert_eq!(entry.hash, 31);
    assert_eq!(entry.value, "a b  c ");
    let entry = parse_line("1f  x").unwrap();
    assert_eq!(entry.value, " x");
    let entry = parse_line("1f \u{00E4}\u{4E2D} y").unwrap();
    assert_eq!(entry.value, "\u{00E4}\u{4E2D} y");
}

#[test]
fn a_line_without_a_space_has_an_empty_value() {
    let entry = parse_line("1f").unwrap();
    assert_eq!(entry.hash, 31);
    assert_eq!(entry.value, "");
    let entry = parse_line("1f ").unwrap();
    assert_eq!(entry.value, "");
}

#[test]
fn malformed_lines_are_rejected() {
    assert_eq!(parse_line("").err(), Some(HexError::Empty));
    assert_eq!(parse_line(" path").err(), Some(HexError::Empty));
    assert_eq!(parse_line("0x1f path").err(), Some(HexError::InvalidDigit));
    assert_eq!(parse_line("path only").err(), Some(HexError::InvalidDigit));
    assert_eq!(parse_line("1f\tpath").err(), Some(HexError::InvalidDigit));
    assert_eq!(
        parse_line("10000000000000000 path").err(),
        Some(HexError::Overflow)
    );
}

#[test]
fn ingest_inserts_every_line_and_counts_them() {
    let mut table = TableStore::new();
    let lines = owned(&["1 one", "2 two", "ff two hundred"]);
    assert_eq!(ingest_lines(&mut table, &lines).unwrap(), 3);
    assert_eq!(table.len(), 3);
    assert_eq!(table.get(1), Some("one".to_string()));
    assert_eq!(table.get(2), Some("two".to_string()));
    assert_eq!(table.get(255), Some("two hundred".to_string()));
    assert_eq!(table.get(3), None);
}

#[test]
fn ingest_of_no_lines_changes_nothing() {
    let mut table = TableStore::new();
    table.insert(9, "nine".to_string());
    assert_eq!(ingest_lines(&mut table, &Vec::new()).unwrap(), 0);
    assert_eq!(table.len(), 1);
    assert_eq!(table.get(9), Some("nine".to_string()));
}

#[test]
fn a_later_line_replaces_an_earlier_one_with_the_same_hash() {
    let mut table = TableStore::new();
    table.insert(1, "old".to_string());
    let lines = owned(&["1 first", "2 other", "01 second"]);
    assert_eq!(ingest_lines(&mut table, &lines).unwrap(), 3);
    assert_eq!(table.len(), 2);
    assert_eq!(table.get(1), Some("second".to_string()));
}

#[test]
fn ingest_stops_at_the_first_bad_line_and_names_it() {
    let mut table = TableStore::new();
    let lines = owned(&["1 one", "2 two", "zz bad line", "3 three", "also bad"]);
    let e = ingest_lines(&mut table, &lines).unwrap_err();
    assert_eq!(e.line, 2);
    assert_eq!(e.token, "zz");
    assert_eq!(e.kind, HexError::InvalidDigit);
    assert_eq!(table.len(), 2);
    assert_eq!(table.get(1), Some("one".to_string()));
    assert_eq!(table.get(2), Some("two".to_string()));
    assert_eq!(table.get(3), None);
}

#[test]
fn an_empty_line_is_a_bad_line() {
    let mut table = TableStore::new();
    let lines = owned(&["1 one", ""]);
    let e = ingest_lines(&mut table, &lines).unwrap_err();
    assert_eq!(e.line, 1);
    assert_eq!(e.token, "");
    assert_eq!(e.kind, HexError::Empty);
}

#[test]
fn files_are_classified_by_name() {
    assert_eq!(classify_file("hashes.game.txt.0", true), Some(HashtableType::Game));
    assert_eq!(classify_file("hashes.game.txt.1", true), Some(HashtableType::Game));
    assert_eq!(
        classify_file("hashes.binentries.txt", true),
        Some(HashtableType::Bin)
    );
    assert_eq!(classify_file("hashes.lcu.txt", true), None);
    assert_eq!(classify_file("readme", true), None);
    assert_eq!(classify_file("", true), None);
    assert_eq!(classify_file("hashes.game", true), None);
    assert_eq!(classify_file("game.txt", true), None);
}

#[test]
fn digest_files_and_directories_are_passed_over() {
    assert_eq!(classify_file("hashes.game.txt.0.sha", true), None);
    assert_eq!(classify_file("hashes.binentries.txt.sha", true), None);
    assert_eq!(classify_file("hashes.game.txt.0", false), None);
    assert_eq!(
        classify_file("hashes.game.sha.txt", true),
        Some(HashtableType::Game)
    );
    assert_eq!(
        classify_file("hashes.game.txt.shaa", true),
        Some(HashtableType::Game)
    );
}

#[test]
fn the_game_table_comes_first_where_a_name_fits_both() {
    assert_eq!(
        classify_file("x.binentries.game.txt", true),
        Some(HashtableType::Game)
    );
    assert_eq!(
        classify_file("x.game.binentries.txt", true),
        Some(HashtableType::Game)
    );
}

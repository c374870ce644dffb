//! Parsing of the line-oriented table files and classification of the files
//! found in the cache directory.

use vstd::prelude::*;
use crate::text::{chars_of, contains, ends_with, spec_contains, spec_ends_with};
use crate::hashing::HashtableType;
use crate::table::TableStore;

verus! {

/// Why a hash token is not a 64-bit hexadecimal number.
#[derive(Clone, Copy, Debug, PartialEq, Eq, Structural)]
pub enum HexError {
    /// The token is empty.
    Empty,
    /// The token holds a character that is not a hexadecimal digit, or is a
    /// sign without digits.
    InvalidDigit,
    /// The number does not fit in 64 bits.
    Overflow,
}

/// The value of a hexadecimal digit, in either case.
pub open spec fn hex_digit_value(c: char) -> Option<u64> {
    if '0' <= c <= '9' {
        Some((c as u64 - '0' as u64) as u64)
    } else if 'a' <= c <= 'f' {
        Some((c as u64 - 'a' as u64 + 10) as u64)
    } else if 'A' <= c <= 'F' {
        Some((c as u64 - 'A' as u64 + 10) as u64)
    } else {
        None
    }
}

/// The number that a run of hexadecimal digits denotes, read from the left.
/// The first character that is no digit, or at which the number outgrows
/// 64 bits, decides the error.
pub open spec fn spec_parse_digits(digits: Seq<char>) -> Result<u64, HexError>
    decreases digits.len(),
{
    if digits.len() == 0 {
        Ok(0)
    } else {
        match spec_parse_digits(digits.drop_last()) {
            Err(e) => Err(e),
            Ok(acc) => match hex_digit_value(digits.last()) {
                None => Err(HexError::InvalidDigit),
                Some(d) => if acc * 16 + d > u64::MAX {
                    Err(HexError::Overflow)
                } else {
                    Ok((acc * 16 + d) as u64)
                },
            },
        }
    }
}

/// The number that a hash token denotes: an optional `+`, then at least one
/// hexadecimal digit, without a `0x` prefix.
pub open spec fn spec_parse_hex(token: Seq<char>) -> Result<u64, HexError> {
    if token.len() == 0 {
        Err(HexError::Empty)
    } else if token[0] == '+' {
        if token.len() == 1 {
            Err(HexError::InvalidDigit)
        } else {
            spec_parse_digits(token.skip(1))
        }
    } else {
        spec_parse_digits(token)
    }
}

/// Reads one hexadecimal digit.
pub fn hex_digit(c: char) -> (r: Option<u64>)
    ensures
        r == hex_digit_value(c),
{
    if '0' <= c && c <= '9' {
        Some(c as u64 - '0' as u64)
    } else if 'a' <= c && c <= 'f' {
        Some(c as u64 - 'a' as u64 + 10)
    } else if 'A' <= c && c <= 'F' {
        Some(c as u64 - 'A' as u64 + 10)
    } else {
        None
    }
}

/// Parses a hash token as an unsigned 64-bit hexadecimal number.
pub fn parse_hex(token: &[char]) -> (r: Result<u64, HexError>)
    ensures
        r == spec_parse_hex(token@),
{
    if token.len() == 0 {
        return Err(HexError::Empty);
    }
    let start: usize = if token[0] == '+' { 1 } else { 0 };
    if start == 1 && token.len() == 1 {
        return Err(HexError::InvalidDigit);
    }
    let ghost digits = token@.skip(start as int);
    assert(token@.skip(0) =~= token@);
    assert(digits.take(0) =~= Seq::<char>::empty());
    let mut acc: u64 = 0;
    let mut i: usize = start;
    while i < token.len()
        invariant
            start <= i <= token.len(),
            digits == token@.skip(start as int),
            spec_parse_hex(token@) == spec_parse_digits(digits),
            spec_parse_digits(digits.take(i - start)) == Ok::<u64, HexError>(acc),
        decreases token.len() - i,
    {
        let ghost prefix = digits.take(i - start + 1);
        assert(prefix.drop_last() =~= digits.take(i - start));
        assert(prefix.last() == token@[i as int]);
        match hex_digit(token[i]) {
            None => {
                proof {
                    lemma_parse_digits_error_extends(digits, i - start + 1);
                }
                return Err(HexError::InvalidDigit);
            },
            Some(d) => {
                if acc > (u64::MAX - d) / 16 {
                    proof {
                        lemma_parse_digits_error_extends(digits, i - start + 1);
                    }
                    return Err(HexError::Overflow);
                }
                acc = acc * 16 + d;
            },
        }
        i = i + 1;
    }
    assert(digits.take(i - start) =~= digits);
    Ok(acc)
}

/// Once a prefix of the digits fails, the whole run fails in the same way.
pub proof fn lemma_parse_digits_error_extends(digits: Seq<char>, n: int)
    requires
        0 <= n <= digits.len(),
        spec_parse_digits(digits.take(n)) is Err,
    ensures
        spec_parse_digits(digits) == spec_parse_digits(digits.take(n)),
    decreases digits.len() - n,
{
    if n == digits.len() {
        assert(digits.take(n) =~= digits);
    } else {
        assert(digits.take(n + 1).drop_last() =~= digits.take(n));
        lemma_parse_digits_error_extends(digits, n + 1);
    }
}

/// One entry of a table: a hash and the string stored under it.
#[derive(Clone, Debug)]
pub struct HashEntry {
    pub hash: u64,
    pub value: String,
}

/// Whether `end` is where the hash token of `line` ends: at the first space,
/// or at the end of a line without one.
pub open spec fn is_token_end(line: Seq<char>, end: int) -> bool {
    &&& 0 <= end <= line.len()
    &&& forall|j: int| 0 <= j < end ==> line[j] != ' '
    &&& end < line.len() ==> line[end] == ' '
}

/// The index at which the hash token of `line` ends.
pub open spec fn token_end(line: Seq<char>) -> int {
    choose|end: int| is_token_end(line, end)
}

/// The hash token of a line: everything before the first space.
pub open spec fn spec_token(line: Seq<char>) -> Seq<char> {
    line.take(token_end(line))
}

/// The value of a line: everything after the first space, verbatim; empty
/// where the line has no space.
pub open spec fn spec_value(line: Seq<char>) -> Seq<char> {
    if token_end(line) < line.len() {
        line.skip(token_end(line) + 1)
    } else {
        Seq::empty()
    }
}

/// The entry that a line denotes, or why its hash token is malformed.
pub open spec fn spec_parse_line(line: Seq<char>) -> Result<(u64, Seq<char>), HexError> {
    match spec_parse_hex(spec_token(line)) {
        Ok(hash) => Ok((hash, spec_value(line))),
        Err(e) => Err(e),
    }
}

/// A line has exactly one token end.
pub proof fn lemma_token_end_unique(line: Seq<char>, end: int)
    requires
        is_token_end(line, end),
    ensures
        token_end(line) == end,
{
    let other = token_end(line);
    assert(is_token_end(line, other));
    if other < end {
        assert(line[other] == ' ');
    } else if end < other {
        assert(line[end] == ' ');
    }
}

/// Finds where the hash token of `line` ends.
pub fn find_token_end(line: &[char]) -> (end: usize)
    ensures
        end == token_end(line@),
        is_token_end(line@, end as int),
{
    let mut end: usize = 0;
    while end < line.len() && line[end] != ' '
        invariant
            end <= line.len(),
            forall|j: int| 0 <= j < end ==> line@[j] != ' ',
        decreases line.len() - end,
    {
        end = end + 1;
    }
    proof {
        lemma_token_end_unique(line@, end as int);
    }
    end
}

/// Parses one line of a table file: a hexadecimal hash, one space, and the
/// string stored under the hash, which may itself hold spaces.
pub fn parse_line(line: &str) -> (r: Result<HashEntry, HexError>)
    ensures
        match r {
            Ok(entry) => spec_parse_line(line@) == Ok::<(u64, Seq<char>), HexError>(
                (entry.hash, entry.value@),
            ),
            Err(e) => spec_parse_line(line@) == Err::<(u64, Seq<char>), HexError>(e),
        },
{
    let chars = chars_of(line);
    let end = find_token_end(chars.as_slice());
    let token = vstd::slice::slice_subrange(chars.as_slice(), 0, end);
    assert(token@ =~= spec_token(line@));
    match parse_hex(token) {
        Err(e) => Err(e),
        Ok(hash) => {
            let value = if end < chars.len() {
                line.substring_char(end + 1, chars.len()).to_owned()
            } else {
                String::new()
            };
            assert(value@ =~= spec_value(line@));
            Ok(HashEntry { hash, value })
        },
    }
}

/// A line that could not be parsed.
#[derive(Clone, Debug)]
pub struct IngestError {
    /// The index of the offending line, counted from zero.
    pub line: usize,
    /// The hash token of that line.
    pub token: String,
    /// Why the token is malformed.
    pub kind: HexError,
}

/// A line of a file of the cache that could not be parsed.
#[derive(Clone, Debug)]
pub struct FileError {
    /// The index of the file among those handed over, counted from zero.
    pub file: usize,
    /// The offending line.
    pub error: IngestError,
}

/// The lines of a file as character sequences.
pub open spec fn lines_view(lines: Seq<String>) -> Seq<Seq<char>> {
    lines.map_values(|s: String| s@)
}

/// Whether every line parses.
pub open spec fn all_lines_parse(lines: Seq<Seq<char>>) -> bool {
    forall|i: int| 0 <= i < lines.len() ==> spec_parse_line(#[trigger] lines[i]) is Ok
}

/// The table after the entries of `lines` have been inserted into `table`
/// in order, a later line replacing an earlier one with the same hash.
/// A line that does not parse inserts nothing.
pub open spec fn spec_apply_lines(table: Map<u64, Seq<char>>, lines: Seq<Seq<char>>) -> Map<
    u64,
    Seq<char>,
>
    decreases lines.len(),
{
    if lines.len() == 0 {
        table
    } else {
        let before = spec_apply_lines(table, lines.drop_last());
        match spec_parse_line(lines.last()) {
            Ok((hash, value)) => before.insert(hash, value),
            Err(_) => before,
        }
    }
}

/// The last line that holds a hash decides what is stored under it: if the
/// line with index `k` parses to `hash` and `value`, and no later line
/// parses to the same hash, then after all lines have been applied `value`
/// is stored under `hash`.
pub proof fn lemma_last_line_wins(
    table: Map<u64, Seq<char>>,
    lines: Seq<Seq<char>>,
    k: int,
    hash: u64,
    value: Seq<char>,
)
    requires
        0 <= k < lines.len(),
        spec_parse_line(lines[k]) == Ok::<(u64, Seq<char>), HexError>((hash, value)),
        forall|j: int|
            k < j < lines.len() ==> (spec_parse_line(#[trigger] lines[j]) matches Ok(entry)
                ==> entry.0 != hash),
    ensures
        spec_apply_lines(table, lines).contains_key(hash),
        spec_apply_lines(table, lines)[hash] == value,
    decreases lines.len(),
{
    if k < lines.len() - 1 {
        let shorter = lines.drop_last();
        assert(shorter[k] == lines[k]);
        assert forall|j: int| k < j < shorter.len() implies (spec_parse_line(
            #[trigger] shorter[j],
        ) matches Ok(entry) ==> entry.0 != hash) by {
            assert(shorter[j] == lines[j]);
        }
        lemma_last_line_wins(table, shorter, k, hash, value);
        assert(lines.last() == lines[lines.len() - 1]);
    }
}

/// Parses `lines` in order and inserts each entry into `table`. The first
/// line that does not parse ends the work with an error that names it; the
/// entries of the lines before it stay inserted. On success the result is
/// the number of lines read.
pub fn ingest_lines(table: &mut TableStore, lines: &Vec<String>) -> (r: Result<usize, IngestError>)
    ensures
        match r {
            Ok(count) => {
                &&& all_lines_parse(lines_view(lines@))
                &&& count == lines.len()
                &&& final(table)@ == spec_apply_lines(old(table)@, lines_view(lines@))
            },
            Err(e) => {
                &&& e.line < lines.len()
                &&& all_lines_parse(lines_view(lines@).take(e.line as int))
                &&& spec_parse_line(lines@[e.line as int]@) == Err::<(u64, Seq<char>), HexError>(
                    e.kind,
                )
                &&& e.token@ == spec_token(lines@[e.line as int]@)
                &&& final(table)@ == spec_apply_lines(
                    old(table)@,
                    lines_view(lines@).take(e.line as int),
                )
            },
        },
{
    let ghost all = lines_view(lines@);
    let mut i: usize = 0;
    while i < lines.len()
        invariant
            i <= lines.len(),
            all == lines_view(lines@),
            all_lines_parse(all.take(i as int)),
            table@ == spec_apply_lines(old(table)@, all.take(i as int)),
        decreases lines.len() - i,
    {
        let line: &str = lines[i].as_str();
        assert(all[i as int] == line@);
        match parse_line(line) {
            Ok(entry) => {
                table.insert(entry.hash, entry.value);
                assert(all.take(i + 1).drop_last() =~= all.take(i as int));
                assert(all.take(i + 1).last() == line@);
            },
            Err(kind) => {
                let chars = chars_of(line);
                let end = find_token_end(chars.as_slice());
                let token = line.substring_char(0, end).to_owned();
                return Err(IngestError { line: i, token, kind });
            },
        }
        i = i + 1;
    }
    assert(all.take(i as int) =~= all);
    Ok(i)
}

/// The table that a directory entry belongs to, if any. Only regular files
/// count; a file whose name ends in `.sha` holds a digest and is passed
/// over. A name that holds `.game.` selects the game table, otherwise one
/// that holds `.binentries.` selects the bin table.
pub open spec fn spec_classify_file(name: Seq<char>, is_file: bool) -> Option<HashtableType> {
    if !is_file || spec_ends_with(name, ".sha"@) {
        None
    } else if spec_contains(name, ".game."@) {
        Some(HashtableType::Game)
    } else if spec_contains(name, ".binentries."@) {
        Some(HashtableType::Bin)
    } else {
        None
    }
}

/// Decides which table, if any, a directory entry is loaded into.
pub fn classify_file(name: &str, is_file: bool) -> (r: Option<HashtableType>)
    ensures
        r == spec_classify_file(name@, is_file),
{
    if !is_file {
        return None;
    }
    let chars = chars_of(name);
    if ends_with(chars.as_slice(), chars_of(".sha").as_slice()) {
        None
    } else if contains(chars.as_slice(), chars_of(".game.").as_slice()) {
        Some(HashtableType::Game)
    } else if contains(chars.as_slice(), chars_of(".binentries.").as_slice()) {
        Some(HashtableType::Bin)
    } else {
        None
    }
}

} // verus!

//! The capture log: a line-per-capture record of screenshots taken while
//! games ran, `timestamp|file name|content path` per line. The carousel
//! shows the newest capture of the selected game; reading the log file is
//! the surrounding process's affair, picking the right line is verified
//! here.

use vstd::prelude::*;
use vstd::string::StringSliceAdditionalSpecFns;
use vstd::utf8::encode_utf8;

use crate::bytes::{bytes_to_string, find_byte, find_byte_from};

verus! {

/// The value of a run of decimal digits, most significant first.
pub open spec fn digits_value(bs: Seq<u8>) -> int
    decreases bs.len(),
{
    if bs.len() == 0 {
        0
    } else {
        digits_value(bs.drop_last()) * 10 + (bs.last() - 48)
    }
}

/// Whether every byte is a decimal digit.
pub open spec fn all_digits(bs: Seq<u8>) -> bool {
    forall|i: int| 0 <= i < bs.len() ==> 48 <= #[trigger] bs[i] <= 57
}

/// What parsing a decimal field yields: the value, for a nonempty run of
/// digits that fits the machine word; nothing otherwise.
pub open spec fn spec_parse_u64(bs: Seq<u8>) -> Option<u64> {
    if bs.len() > 0 && all_digits(bs) && digits_value(bs) <= u64::MAX {
        Some(digits_value(bs) as u64)
    } else {
        None
    }
}

/// A digit run's value never shrinks as digits are appended.
proof fn lemma_digits_value_nonneg(bs: Seq<u8>)
    requires
        all_digits(bs),
    ensures
        digits_value(bs) >= 0,
    decreases bs.len(),
{
    if bs.len() > 0 {
        assert(all_digits(bs.drop_last())) by {
            assert(forall|i: int|
                0 <= i < bs.drop_last().len() ==> 48 <= #[trigger] bs.drop_last()[i] <= 57);
        }
        lemma_digits_value_nonneg(bs.drop_last());
    }
}

/// The whole run's value is at least any prefix's value.
proof fn lemma_digits_value_prefix(bs: Seq<u8>, i: int)
    requires
        all_digits(bs),
        0 <= i <= bs.len(),
    ensures
        digits_value(bs) >= digits_value(bs.take(i)),
    decreases bs.len() - i,
{
    if i < bs.len() {
        lemma_digits_value_prefix(bs, i + 1);
        assert(bs.take(i + 1).drop_last() =~= bs.take(i));
        assert(all_digits(bs.take(i))) by {
            assert(forall|j: int|
                0 <= j < bs.take(i).len() ==> 48 <= #[trigger] bs.take(i)[j] <= 57);
        }
        lemma_digits_value_nonneg(bs.take(i));
        assert(digits_value(bs.take(i + 1)) == digits_value(bs.take(i)) * 10 + (bs[i] - 48));
        assert(digits_value(bs.take(i)) * 10 >= digits_value(bs.take(i))) by (nonlinear_arith)
            requires
                digits_value(bs.take(i)) >= 0,
        ;
    } else {
        assert(bs.take(i) =~= bs);
    }
}

/// Parses a decimal field.
pub fn parse_u64(bs: &[u8]) -> (r: Option<u64>)
    ensures
        r == spec_parse_u64(bs@),
{
    let n = bs.len();
    if n == 0 {
        return None;
    }
    let mut v: u64 = 0;
    let mut i: usize = 0;
    assert(bs@.take(0int) =~= Seq::<u8>::empty());
    while i < n
        invariant
            n == bs@.len(),
            0 <= i <= n,
            all_digits(bs@.take(i as int)),
            v == digits_value(bs@.take(i as int)),
        decreases n - i,
    {
        let b = bs[i];
        if b < 48 || b > 57 {
            assert(!all_digits(bs@)) by {
                assert(bs@[i as int] == b);
            }
            return None;
        }
        let d = (b - 48) as u64;
        assert(bs@.take(i + 1).drop_last() =~= bs@.take(i as int));
        assert(bs@.take(i + 1).last() == bs@[i as int]);
        if v > (u64::MAX - d) / 10 {
            // The value has outgrown the machine word, and further digits
            // only grow it.
            proof {
                assert(all_digits(bs@.take(i + 1))) by {
                    assert(forall|j: int|
                        0 <= j < bs@.take(i + 1).len() ==> 48 <= #[trigger] bs@.take(i + 1)[j]
                            <= 57);
                }
                assert(digits_value(bs@.take(i + 1)) > u64::MAX) by (nonlinear_arith)
                    requires
                        digits_value(bs@.take(i + 1)) == digits_value(bs@.take(i as int)) * 10 + (
                        bs@[i as int] - 48),
                        digits_value(bs@.take(i as int)) == v,
                        v > (u64::MAX - (bs@[i as int] - 48)) / 10,
                        48 <= bs@[i as int] <= 57,
                ;
                if all_digits(bs@) {
                    lemma_digits_value_prefix(bs@, i + 1);
                }
            }
            return None;
        }
        proof {
            assert(v * 10 + d <= u64::MAX) by (nonlinear_arith)
                requires
                    v <= (u64::MAX - d) / 10,
                    d <= 9,
                    v >= 0,
            ;
        }
        v = v * 10 + d;
        assert(all_digits(bs@.take(i + 1))) by {
            assert(forall|j: int|
                0 <= j < bs@.take(i + 1).len() ==> 48 <= #[trigger] bs@.take(i + 1)[j] <= 57);
        }
        i += 1;
    }
    assert(bs@.take(n as int) =~= bs@);
    Some(v)
}

/// A parsed capture-log line.
pub struct CaptureLine {
    pub timestamp: u64,
    pub file_name: String,
    pub content_path: String,
}

/// What one line yields: the line splits at its first two separators into
/// a decimal timestamp, a file name, and a content path running to the
/// third separator or the end; a line without three fields, or whose
/// timestamp is not a number, yields nothing.
pub open spec fn spec_parse_line(bs: Seq<u8>) -> Option<(u64, Seq<u8>, Seq<u8>)> {
    let f1 = find_byte(bs, 124);
    if f1 >= bs.len() {
        None
    } else {
        let rest1 = bs.skip(f1 + 1);
        let f2 = find_byte(rest1, 124);
        if f2 >= rest1.len() {
            None
        } else {
            let rest2 = rest1.skip(f2 + 1);
            let f3 = find_byte(rest2, 124);
            match spec_parse_u64(bs.take(f1)) {
                Some(ts) => Some((ts, rest1.take(f2), rest2.take(f3))),
                None => None,
            }
        }
    }
}

/// Parses one capture-log line.
pub fn parse_line(line: &str) -> (r: Option<CaptureLine>)
    ensures
        match spec_parse_line(line.spec_bytes()) {
            Some((ts, fname, cpath)) => r matches Some(c) && c.timestamp == ts && c.file_name@
                == crate::bytes::ascii_chars(fname) && c.content_path@
                == crate::bytes::ascii_chars(cpath),
            None => r is None,
        },
{
    let bs = line.as_bytes();
    let n = bs.len();
    assert(bs@.skip(0) =~= bs@);
    let f1 = find_byte_from(bs, 124, 0);
    if f1 >= n {
        return None;
    }
    let ghost rest1 = bs@.skip(f1 + 1);
    let f2 = find_byte_from(bs, 124, f1 + 1);
    proof {
        assert(rest1 =~= bs@.skip(f1 + 1));
    }
    if f2 >= n {
        assert(find_byte(rest1, 124) >= rest1.len());
        return None;
    }
    assert(find_byte(rest1, 124) == f2 - (f1 + 1));
    let ghost rest2 = rest1.skip(f2 - f1);
    assert(rest2 =~= bs@.skip(f2 + 1));
    let f3 = find_byte_from(bs, 124, f2 + 1);
    assert(find_byte(rest2, 124) == f3 - (f2 + 1));
    let ts_bytes = crate::bytes::bytes_range(bs, 0, f1);
    assert(ts_bytes@ =~= bs@.take(f1 as int));
    let ts = match parse_u64(ts_bytes.as_slice()) {
        Some(t) => t,
        None => {
            return None;
        },
    };
    let file_name = bytes_to_string(bs, f1 + 1, f2);
    assert(bs@.subrange(f1 + 1, f2 as int) =~= rest1.take(f2 - (f1 + 1)));
    let content_path = bytes_to_string(bs, f2 + 1, f3);
    assert(bs@.subrange(f2 + 1, f3 as int) =~= rest2.take(f3 - (f2 + 1)));
    Some(CaptureLine { timestamp: ts, file_name, content_path })
}

/// Whether a line records a capture of the given game and its file is
/// still there. A recorded line whose image has been deleted never wins:
/// the lookup is read-only and must fall back past stale records.
pub open spec fn line_matches(bs: Seq<u8>, game_path: Seq<char>, file_exists: bool) -> bool {
    file_exists && (spec_parse_line(bs) matches Some((ts, fname, cpath))
        && crate::bytes::ascii_chars(cpath) == game_path)
}

/// The views of the lines.
pub open spec fn line_bytes(lines: Seq<String>, i: int) -> Seq<u8> {
    encode_utf8(lines[i]@)
}

/// Picks the newest capture of a game from the log: among the lines
/// recording it whose file still exists (`exists` answers per line, as
/// the surrounding process checked), the one with the highest timestamp
/// wins, the earliest such line on a tie. A game with no surviving line
/// has no capture.
pub fn find_screenshot_for_game(
    lines: &Vec<String>,
    exists: &Vec<bool>,
    game_path: &String,
) -> (r: Option<String>)
    requires
        exists@.len() == lines@.len(),
    ensures
        match r {
            Some(f) => exists|i: int|
                {
                    &&& 0 <= i < lines@.len()
                    &&& #[trigger] line_matches(line_bytes(lines@, i), game_path@, exists@[i])
                    &&& (spec_parse_line(line_bytes(lines@, i)) matches Some((ts, fname, _))
                        && f@ == crate::bytes::ascii_chars(fname) && (forall|j: int|
                        0 <= j < lines@.len() && #[trigger] line_matches(
                            line_bytes(lines@, j),
                            game_path@,
                            exists@[j],
                        ) ==> (spec_parse_line(line_bytes(lines@, j))->Some_0.0 as int) <= ts
                            as int) && (forall|j: int|
                        0 <= j < i && #[trigger] line_matches(
                            line_bytes(lines@, j),
                            game_path@,
                            exists@[j],
                        ) ==> (spec_parse_line(line_bytes(lines@, j))->Some_0.0 as int) < ts
                            as int))
                },
            None => forall|j: int|
                0 <= j < lines@.len() ==> !#[trigger] line_matches(
                    line_bytes(lines@, j),
                    game_path@,
                    exists@[j],
                ),
        },
{
    let mut best: Option<String> = None;
    let mut best_ts: u64 = 0;
    let ghost mut best_i: int = 0int;
    let n = lines.len();
    let mut i: usize = 0;
    while i < n
        invariant
            n == lines@.len(),
            0 <= i <= n,
            exists@.len() == lines@.len(),
            (match best {
                Some(f) => {
                    &&& 0 <= best_i < i
                    &&& line_matches(line_bytes(lines@, best_i), game_path@, exists@[best_i])
                    &&& (spec_parse_line(line_bytes(lines@, best_i)) matches Some((ts, fname, _))
                        && ts == best_ts && f@ == crate::bytes::ascii_chars(fname))
                    &&& (forall|j: int|
                        0 <= j < i && #[trigger] line_matches(
                            line_bytes(lines@, j),
                            game_path@,
                            exists@[j],
                        ) ==> (spec_parse_line(line_bytes(lines@, j))->Some_0.0 as int)
                            <= best_ts as int)
                    &&& (forall|j: int|
                        0 <= j < best_i && #[trigger] line_matches(
                            line_bytes(lines@, j),
                            game_path@,
                            exists@[j],
                        ) ==> (spec_parse_line(line_bytes(lines@, j))->Some_0.0 as int) < best_ts
                            as int)
                },
                None => forall|j: int|
                    0 <= j < i ==> !#[trigger] line_matches(
                        line_bytes(lines@, j),
                        game_path@,
                        exists@[j],
                    ),
            }),
        decreases n - i,
    {
        let parsed = parse_line(lines[i].as_str());
        match parsed {
            Some(c) => {
                if c.content_path == *game_path && exists[i] {
                    assert(line_matches(
                        line_bytes(lines@, i as int),
                        game_path@,
                        exists@[i as int],
                    ));
                    let is_better = match &best {
                        Some(_) => c.timestamp > best_ts,
                        None => true,
                    };
                    if is_better {
                        best_ts = c.timestamp;
                        best = Some(c.file_name);
                        proof {
                            best_i = i as int;
                        }
                    }
                } else {
                    assert(!line_matches(
                        line_bytes(lines@, i as int),
                        game_path@,
                        exists@[i as int],
                    ));
                }
            },
            None => {
                assert(!line_matches(
                    line_bytes(lines@, i as int),
                    game_path@,
                    exists@[i as int],
                ));
            },
        }
        i += 1;
    }
    best
}

} // verus!

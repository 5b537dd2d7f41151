//! Rendering small numbers as decimal text, for counters and labels.

use vstd::prelude::*;
use vstd::string::StringExecFns;

verus! {

/// The decimal digits of `n`, most significant first.
pub open spec fn spec_digits(n: nat) -> Seq<char>
    decreases n,
{
    if n < 10 {
        seq![digit_char(n)]
    } else {
        spec_digits(n / 10) + seq![digit_char(n % 10)]
    }
}

/// The character for one decimal digit.
pub open spec fn digit_char(d: nat) -> char {
    if d == 0 {
        '0'
    } else if d == 1 {
        '1'
    } else if d == 2 {
        '2'
    } else if d == 3 {
        '3'
    } else if d == 4 {
        '4'
    } else if d == 5 {
        '5'
    } else if d == 6 {
        '6'
    } else if d == 7 {
        '7'
    } else if d == 8 {
        '8'
    } else {
        '9'
    }
}

/// The decimal rendering of `n`, e.g. `907` becomes `"907"`.
pub fn usize_to_string(n: usize) -> (r: String)
    ensures
        r@ == spec_digits(n as nat),
    decreases n,
{
    if n < 10 {
        digit_to_string(n)
    } else {
        let mut s = usize_to_string(n / 10);
        let d = digit_to_string(n % 10);
        s.append(d.as_str());
        s
    }
}

fn digit_to_string(d: usize) -> (r: String)
    requires
        d < 10,
    ensures
        r@ =~= seq![digit_char(d as nat)],
{
    let r = if d == 0 {
        "0"
    } else if d == 1 {
        "1"
    } else if d == 2 {
        "2"
    } else if d == 3 {
        "3"
    } else if d == 4 {
        "4"
    } else if d == 5 {
        "5"
    } else if d == 6 {
        "6"
    } else if d == 7 {
        "7"
    } else if d == 8 {
        "8"
    } else {
        "9"
    };
    proof {
        reveal_strlit("0");
        reveal_strlit("1");
        reveal_strlit("2");
        reveal_strlit("3");
        reveal_strlit("4");
        reveal_strlit("5");
        reveal_strlit("6");
        reveal_strlit("7");
        reveal_strlit("8");
        reveal_strlit("9");
    }
    r.to_owned()
}

/// The decimal rendering of `n`, e.g. `907` becomes `"907"`.
pub fn u64_to_string(n: u64) -> (r: String)
    ensures
        r@ == spec_digits(n as nat),
    decreases n,
{
    if n < 10 {
        digit_to_string((n % 10) as usize)
    } else {
        let mut s = u64_to_string(n / 10);
        let d = digit_to_string((n % 10) as usize);
        s.append(d.as_str());
        s
    }
}

/// The decimal rendering of a signed number, with a leading minus sign
/// when it is negative.
pub open spec fn spec_int_text(n: int) -> Seq<char> {
    if n < 0 {
        seq!['-'] + spec_digits((-n) as nat)
    } else {
        spec_digits(n as nat)
    }
}

/// Renders a signed number, e.g. `-1` becomes `"-1"`.
pub fn i64_to_string(n: i64) -> (r: String)
    ensures
        r@ == spec_int_text(n as int),
{
    if n >= 0 {
        u64_to_string(n as u64)
    } else {
        let magnitude: u64 = ((-(n + 1)) as u64) + 1;
        assert(magnitude == -(n as int));
        proof {
            reveal_strlit("-");
        }
        let mut s = "-".to_owned();
        let d = u64_to_string(magnitude);
        s.append(d.as_str());
        assert(s@ =~= spec_int_text(n as int));
        s
    }
}

/// The text of a position counter, e.g. third of ten is `"3/10"`.
pub open spec fn spec_counter_text(pos: nat, total: nat) -> Seq<char> {
    spec_digits(pos) + seq!['/'] + spec_digits(total)
}

/// Renders `pos`/`total` for a counter label.
pub fn counter_text(pos: usize, total: usize) -> (r: String)
    ensures
        r@ == spec_counter_text(pos as nat, total as nat),
{
    let mut s = usize_to_string(pos);
    proof {
        reveal_strlit("/");
    }
    s.append("/");
    let t = usize_to_string(total);
    s.append(t.as_str());
    assert(s@ =~= spec_counter_text(pos as nat, total as nat));
    s
}

/// Appends a decimal rendering after a label, separated by one space,
/// e.g. `"Disk"` and `2` become `"Disk 2"`.
pub fn label_with_number(label: &String, n: usize) -> (r: String)
    ensures
        r@ == label@ + seq![' '] + spec_digits(n as nat),
{
    let mut s = label.clone();
    proof {
        reveal_strlit(" ");
    }
    s.append(" ");
    let t = usize_to_string(n);
    s.append(t.as_str());
    assert(s@ =~= label@ + seq![' '] + spec_digits(n as nat));
    s
}

} // verus!

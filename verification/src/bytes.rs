//! Byte-level text utilities: searching, slicing and comparing the UTF-8
//! bytes of paths and protocol messages.

use vstd::prelude::*;

verus! {

/// The first index of `b` in `bs`, or the length if it does not occur.
pub open spec fn find_byte(bs: Seq<u8>, b: u8) -> int
    decreases bs.len(),
{
    if bs.len() == 0 {
        0
    } else if bs[0] == b {
        0
    } else {
        1 + find_byte(bs.drop_first(), b)
    }
}

/// The last index of `b` in `bs`, or `-1` if it does not occur.
pub open spec fn find_last_byte(bs: Seq<u8>, b: u8) -> int
    decreases bs.len(),
{
    if bs.len() == 0 {
        -1
    } else if bs.last() == b {
        bs.len() - 1
    } else {
        find_last_byte(bs.drop_last(), b)
    }
}

/// Finds the first occurrence of `b` at or after `from`; returns the byte
/// count when there is none.
pub fn find_byte_from(bs: &[u8], b: u8, from: usize) -> (r: usize)
    requires
        from <= bs@.len(),
    ensures
        from + find_byte(bs@.skip(from as int), b) == r,
        from <= r <= bs@.len(),
    decreases bs@.len() - from,
{
    let n = bs.len();
    let mut i: usize = from;
    while i < n
        invariant
            from <= i <= n,
            n == bs@.len(),
            find_byte(bs@.skip(from as int), b) == (i - from) + find_byte(bs@.skip(i as int), b),
            forall|j: int| from <= j < i ==> bs@[j] != b,
        decreases n - i,
    {
        assert(bs@.skip(i as int)[0] == bs@[i as int]);
        assert(bs@.skip(i as int).drop_first() =~= bs@.skip(i + 1));
        if bs[i] == b {
            return i;
        }
        i += 1;
    }
    assert(bs@.skip(n as int) =~= Seq::<u8>::empty());
    n
}

/// Finds the last occurrence of `b` strictly before `end`; `None` if the
/// range holds none.
pub fn rfind_byte_before(bs: &[u8], b: u8, end: usize) -> (r: Option<usize>)
    requires
        end <= bs@.len(),
    ensures
        match r {
            Some(i) => i == find_last_byte(bs@.take(end as int), b) && i < end,
            None => find_last_byte(bs@.take(end as int), b) == -1,
        },
{
    let mut i: usize = end;
    while i > 0
        invariant
            0 <= i <= end <= bs@.len(),
            find_last_byte(bs@.take(end as int), b) == find_last_byte(bs@.take(i as int), b),
            forall|j: int| i <= j < end ==> bs@[j] != b,
        decreases i,
    {
        assert(bs@.take(i as int).last() == bs@[i - 1]);
        assert(bs@.take(i as int).drop_last() =~= bs@.take(i - 1));
        if bs[i - 1] == b {
            return Some(i - 1);
        }
        i -= 1;
    }
    assert(bs@.take(0int) =~= Seq::<u8>::empty());
    None
}

/// Whether the given range of `bs` spells the same bytes as `other`.
pub fn eq_bytes_range(bs: &[u8], from: usize, to: usize, other: &[u8]) -> (r: bool)
    requires
        from <= to <= bs@.len(),
    ensures
        r == (bs@.subrange(from as int, to as int) =~= other@),
{
    let m = other.len();
    if to - from != m {
        return false;
    }
    let mut t: usize = 0;
    while t < m
        invariant
            from <= to <= bs@.len(),
            to - from == m == other@.len(),
            0 <= t <= m,
            forall|q: int| 0 <= q < t ==> bs@[from + q] == other@[q],
        decreases m - t,
    {
        if bs[from + t] != other[t] {
            assert(bs@.subrange(from as int, to as int)[t as int] != other@[t as int]);
            return false;
        }
        t += 1;
    }
    assert(bs@.subrange(from as int, to as int) =~= other@);
    true
}

/// Whether `needle` occurs inside `hay` as a contiguous run.
pub open spec fn is_substring(hay: Seq<u8>, needle: Seq<u8>) -> bool {
    exists|k: int|
        0 <= k <= hay.len() - needle.len() && #[trigger] hay.subrange(k, k + needle.len())
            =~= needle
}

/// Whether the bytes of `needle` occur inside the bytes of `hay`.
pub fn contains_bytes(hay: &[u8], needle: &[u8]) -> (r: bool)
    ensures
        r == is_substring(hay@, needle@),
{
    let n = hay.len();
    let m = needle.len();
    if m > n {
        assert(!is_substring(hay@, needle@));
        return false;
    }
    let mut k: usize = 0;
    while k <= n - m
        invariant
            n == hay@.len(),
            m == needle@.len(),
            m <= n,
            0 <= k <= n - m + 1,
            forall|q: int|
                0 <= q < k ==> !(#[trigger] hay@.subrange(q, q + needle@.len()) =~= needle@),
        decreases n - m + 1 - k,
    {
        let mut t: usize = 0;
        let mut matched = true;
        while t < m
            invariant
                n == hay@.len(),
                m == needle@.len(),
                0 <= k <= n - m,
                0 <= t <= m,
                matched ==> forall|q: int| 0 <= q < t ==> hay@[k + q] == needle@[q],
                !matched ==> !(hay@.subrange(k as int, k + needle@.len()) =~= needle@),
            decreases m - t,
        {
            if hay[k + t] != needle[t] {
                assert(hay@.subrange(k as int, k + needle@.len())[t as int] != needle@[t as int]);
                matched = false;
                t = m;
            } else {
                t = t + 1;
            }
        }
        if matched {
            assert(hay@.subrange(k as int, k + needle@.len()) =~= needle@);
            return true;
        }
        k = k + 1;
    }
    assert forall|q: int| 0 <= q <= hay@.len() - needle@.len() implies !(#[trigger] hay@.subrange(
        q,
        q + needle@.len(),
    ) =~= needle@) by {
        assert(q < k);
    }
    false
}

/// One byte folded to ASCII lower case.
pub open spec fn lower_byte(b: u8) -> u8 {
    if 65 <= b <= 90 {
        (b + 32) as u8
    } else {
        b
    }
}

/// A byte sequence folded to ASCII lower case.
pub open spec fn ascii_lower(bs: Seq<u8>) -> Seq<u8> {
    bs.map_values(|b: u8| lower_byte(b))
}

/// Folds a byte string to ASCII lower case.
pub fn to_ascii_lower(bs: &[u8]) -> (r: Vec<u8>)
    ensures
        r@ =~= ascii_lower(bs@),
{
    let mut r: Vec<u8> = Vec::new();
    let n = bs.len();
    let mut i: usize = 0;
    while i < n
        invariant
            n == bs@.len(),
            0 <= i <= n,
            r@ =~= ascii_lower(bs@).take(i as int),
        decreases n - i,
    {
        let b = bs[i];
        let low = if 65 <= b && b <= 90 {
            b + 32
        } else {
            b
        };
        r.push(low);
        assert(r@ =~= ascii_lower(bs@).take(i + 1));
        i += 1;
    }
    assert(ascii_lower(bs@).take(n as int) =~= ascii_lower(bs@));
    r
}

/// Copies a byte range into a fresh vector.
pub fn bytes_range(bs: &[u8], from: usize, to: usize) -> (r: Vec<u8>)
    requires
        from <= to <= bs@.len(),
    ensures
        r@ =~= bs@.subrange(from as int, to as int),
{
    let mut r: Vec<u8> = Vec::new();
    let mut i: usize = from;
    while i < to
        invariant
            from <= i <= to <= bs@.len(),
            r@ =~= bs@.subrange(from as int, i as int),
        decreases to - i,
    {
        r.push(bs[i]);
        assert(r@ =~= bs@.subrange(from as int, i + 1));
        i += 1;
    }
    r
}

/// The characters a byte sequence spells, one character per byte.
pub open spec fn ascii_chars(bs: Seq<u8>) -> Seq<char> {
    bs.map_values(|b: u8| b as char)
}

/// Relies on String::push: appends one character.
#[verifier::external_body]
pub fn push_char(s: &mut String, c: char)
    ensures
        final(s)@ == old(s)@.push(c),
{
    s.push(c);
}

/// Builds the string a byte range spells.
pub fn bytes_to_string(bs: &[u8], from: usize, to: usize) -> (r: String)
    requires
        from <= to <= bs@.len(),
    ensures
        r@ =~= ascii_chars(bs@.subrange(from as int, to as int)),
{
    let mut r = String::new();
    let mut i: usize = from;
    while i < to
        invariant
            from <= i <= to <= bs@.len(),
            r@ =~= ascii_chars(bs@.subrange(from as int, i as int)),
        decreases to - i,
    {
        let c = bs[i] as char;
        push_char(&mut r, c);
        assert(r@ =~= ascii_chars(bs@.subrange(from as int, i + 1)));
        i += 1;
    }
    r
}

/// Bounds of the last occurrence.
pub proof fn lemma_find_last_byte_bounds(bs: Seq<u8>, b: u8)
    ensures
        -1 <= find_last_byte(bs, b) < bs.len(),
    decreases bs.len(),
{
    if bs.len() > 0 && bs.last() != b {
        lemma_find_last_byte_bounds(bs.drop_last(), b);
    }
}

/// The last occurrence within a suffix, in terms of the whole sequence.
pub proof fn lemma_find_last_byte_skip(bs: Seq<u8>, b: u8, k: int)
    requires
        0 <= k <= bs.len(),
    ensures
        find_last_byte(bs.skip(k), b) == if find_last_byte(bs, b) >= k {
            find_last_byte(bs, b) - k
        } else {
            -1int
        },
    decreases bs.len(),
{
    lemma_find_last_byte_bounds(bs, b);
    if bs.len() == k {
        assert(bs.skip(k) =~= Seq::<u8>::empty());
    } else if bs.last() == b {
        assert(bs.skip(k).last() == bs.last());
    } else {
        assert(bs.skip(k).last() == bs.last());
        assert(bs.skip(k).drop_last() =~= bs.drop_last().skip(k));
        lemma_find_last_byte_skip(bs.drop_last(), b, k);
    }
}

} // verus!

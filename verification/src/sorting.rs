//! Verified ordering of game rows: by recency, by play count, or by
//! case-folded name. One insertion sort serves every mode.

use vstd::prelude::*;
use vstd::utf8::encode_utf8;

use crate::database::{lower_of, lowercase, GameRow};

verus! {

/// The orders a list of rows can be shown in.
#[derive(Debug, Clone, Copy, PartialEq, Eq, Structural)]
pub enum RowOrder {
    /// Most recently played first.
    LastPlayed,
    /// Highest play count first.
    MostPlayed,
    /// Case-folded name, A to Z.
    Alphabetical,
}

/// Lexicographic order on byte strings.
pub open spec fn lex_le(a: Seq<u8>, b: Seq<u8>) -> bool
    decreases a.len(),
{
    if a.len() == 0 {
        true
    } else if b.len() == 0 {
        false
    } else if a[0] < b[0] {
        true
    } else if a[0] > b[0] {
        false
    } else {
        lex_le(a.drop_first(), b.drop_first())
    }
}

/// The key a row is alphabetised by: the bytes of its folded name.
pub open spec fn sort_name(r: GameRow) -> Seq<u8> {
    encode_utf8(lower_of(r.name@))
}

/// Whether `a` may come before `b` under an order.
pub open spec fn row_le(m: RowOrder, a: GameRow, b: GameRow) -> bool {
    match m {
        RowOrder::LastPlayed => a.last_played >= b.last_played,
        RowOrder::MostPlayed => a.play_count >= b.play_count,
        RowOrder::Alphabetical => lex_le(sort_name(a), sort_name(b)),
    }
}

/// Rows laid out so that every earlier row may come before every later
/// one.
pub open spec fn rows_sorted(m: RowOrder, s: Seq<GameRow>) -> bool {
    forall|i: int, j: int| 0 <= i <= j < s.len() ==> row_le(m, #[trigger] s[i], #[trigger] s[j])
}

/// The order is total.
pub proof fn lemma_row_le_total(m: RowOrder, a: GameRow, b: GameRow)
    ensures
        row_le(m, a, b) || row_le(m, b, a),
{
    match m {
        RowOrder::Alphabetical => {
            lemma_lex_total(sort_name(a), sort_name(b));
        },
        _ => {},
    }
}

/// Every row may come before itself.
pub proof fn lemma_row_le_refl(m: RowOrder, a: GameRow)
    ensures
        row_le(m, a, a),
{
    match m {
        RowOrder::Alphabetical => {
            lemma_lex_refl(sort_name(a));
        },
        _ => {},
    }
}

proof fn lemma_lex_refl(a: Seq<u8>)
    ensures
        lex_le(a, a),
    decreases a.len(),
{
    if a.len() > 0 {
        lemma_lex_refl(a.drop_first());
    }
}

proof fn lemma_lex_total(a: Seq<u8>, b: Seq<u8>)
    ensures
        lex_le(a, b) || lex_le(b, a),
    decreases a.len(),
{
    if a.len() > 0 && b.len() > 0 && a[0] == b[0] {
        lemma_lex_total(a.drop_first(), b.drop_first());
    }
}

/// `e` inserted before the first row it may precede.
pub open spec fn insert_ord(m: RowOrder, s: Seq<GameRow>, e: GameRow) -> Seq<GameRow>
    decreases s.len(),
{
    if s.len() == 0 {
        seq![e]
    } else if row_le(m, e, s[0]) {
        seq![e] + s
    } else {
        seq![s[0]] + insert_ord(m, s.drop_first(), e)
    }
}

/// The rows in sorted order, inserted one after another.
pub open spec fn sort_rows(m: RowOrder, s: Seq<GameRow>) -> Seq<GameRow>
    decreases s.len(),
{
    if s.len() == 0 {
        Seq::empty()
    } else {
        insert_ord(m, sort_rows(m, s.drop_last()), s.last())
    }
}

/// Where the insertion point is known, insertion is a concatenation.
pub proof fn lemma_insert_ord_at(m: RowOrder, s: Seq<GameRow>, e: GameRow, j: int)
    requires
        0 <= j <= s.len(),
        forall|k: int| 0 <= k < j ==> !row_le(m, e, #[trigger] s[k]),
        j < s.len() ==> row_le(m, e, s[j]),
    ensures
        insert_ord(m, s, e) =~= s.take(j) + seq![e] + s.skip(j),
    decreases s.len(),
{
    if s.len() == 0 {
        assert(s.take(0) + seq![e] + s.skip(0) =~= seq![e]);
    } else if j == 0 {
        assert(row_le(m, e, s[0]));
        assert(s.take(0) + seq![e] + s.skip(0) =~= seq![e] + s);
    } else {
        assert(!row_le(m, e, s[0]));
        assert forall|k: int| 0 <= k < j - 1 implies !row_le(m, e, #[trigger] s.drop_first()[k]) by {
            assert(!row_le(m, e, s[k + 1]));
        }
        assert(j - 1 < s.drop_first().len() ==> row_le(m, e, s.drop_first()[j - 1]));
        lemma_insert_ord_at(m, s.drop_first(), e, j - 1);
        assert(s.drop_first().take(j - 1) =~= s.take(j).drop_first());
        assert(s.drop_first().skip(j - 1) =~= s.skip(j));
        assert(seq![s[0]] + (s.drop_first().take(j - 1) + seq![e] + s.drop_first().skip(j - 1))
            =~= s.take(j) + seq![e] + s.skip(j));
    }
}

/// Every element after insertion is the new row or one of the old ones.
pub proof fn lemma_insert_ord_members(m: RowOrder, s: Seq<GameRow>, e: GameRow)
    ensures
        forall|i: int|
            0 <= i < insert_ord(m, s, e).len() ==> (#[trigger] insert_ord(m, s, e)[i] == e
                || exists|k: int| 0 <= k < s.len() && s[k] == insert_ord(m, s, e)[i]),
    decreases s.len(),
{
    if s.len() == 0 {
    } else if row_le(m, e, s[0]) {
        let r = seq![e] + s;
        assert forall|i: int| 0 <= i < r.len() implies (#[trigger] r[i] == e || exists|k: int|
            0 <= k < s.len() && s[k] == r[i]) by {
            if i > 0 {
                assert(s[i - 1] == r[i]);
            }
        }
    } else {
        lemma_insert_ord_members(m, s.drop_first(), e);
        let rest = insert_ord(m, s.drop_first(), e);
        let r = seq![s[0]] + rest;
        assert forall|i: int| 0 <= i < r.len() implies (#[trigger] r[i] == e || exists|k: int|
            0 <= k < s.len() && s[k] == r[i]) by {
            if i == 0 {
                assert(s[0] == r[0]);
            } else if rest[i - 1] != e {
                let k = choose|k: int|
                    0 <= k < s.drop_first().len() && s.drop_first()[k] == rest[i - 1];
                assert(s[k + 1] == r[i]);
            }
        }
    }
}

/// Insertion keeps the order.
pub proof fn lemma_insert_ord_sorted(m: RowOrder, s: Seq<GameRow>, e: GameRow)
    requires
        rows_sorted(m, s),
    ensures
        rows_sorted(m, insert_ord(m, s, e)),
    decreases s.len(),
{
    if s.len() == 0 {
        lemma_row_le_refl(m, e);
        assert(insert_ord(m, s, e) =~= seq![e]);
        assert forall|i: int, j: int| 0 <= i <= j < insert_ord(m, s, e).len() implies row_le(
            m,
            #[trigger] insert_ord(m, s, e)[i],
            #[trigger] insert_ord(m, s, e)[j],
        ) by {
            assert(insert_ord(m, s, e)[i] == e);
        }
    } else if row_le(m, e, s[0]) {
        let r = seq![e] + s;
        assert forall|i: int, j: int| 0 <= i <= j < r.len() implies row_le(
            m,
            #[trigger] r[i],
            #[trigger] r[j],
        ) by {
            if i == 0 {
                if j > 0 {
                    assert(r[j] == s[j - 1]);
                    assert(row_le(m, s[0], s[j - 1]));
                    lemma_row_le_trans(m, e, s[0], s[j - 1]);
                } else {
                    lemma_row_le_refl(m, e);
                }
            } else {
                assert(row_le(m, s[i - 1], s[j - 1]));
            }
        }
        assert(insert_ord(m, s, e) =~= r);
        assert forall|i: int, j: int| 0 <= i <= j < insert_ord(m, s, e).len() implies row_le(
            m,
            #[trigger] insert_ord(m, s, e)[i],
            #[trigger] insert_ord(m, s, e)[j],
        ) by {
            assert(row_le(m, r[i], r[j]));
        }
    } else {
        assert(rows_sorted(m, s.drop_first())) by {
            assert forall|i: int, j: int| 0 <= i <= j < s.drop_first().len() implies row_le(
                m,
                #[trigger] s.drop_first()[i],
                #[trigger] s.drop_first()[j],
            ) by {
                assert(row_le(m, s[i + 1], s[j + 1]));
            }
        }
        lemma_insert_ord_sorted(m, s.drop_first(), e);
        lemma_insert_ord_members(m, s.drop_first(), e);
        let rest = insert_ord(m, s.drop_first(), e);
        let r = seq![s[0]] + rest;
        assert forall|i: int, j: int| 0 <= i <= j < r.len() implies row_le(
            m,
            #[trigger] r[i],
            #[trigger] r[j],
        ) by {
            if i == 0 && j > 0 {
                if rest[j - 1] == e {
                    lemma_row_le_total(m, e, s[0]);
                    assert(row_le(m, s[0], e));
                } else {
                    let k = choose|k: int|
                        0 <= k < s.drop_first().len() && s.drop_first()[k] == rest[j - 1];
                    assert(row_le(m, s[0], s[k + 1]));
                }
            } else if i == 0 && j == 0 {
                assert(row_le(m, s[0], s[0]));
            } else {
                assert(row_le(m, rest[i - 1], rest[j - 1]));
            }
        }
        assert(insert_ord(m, s, e) =~= r);
        assert forall|i: int, j: int| 0 <= i <= j < insert_ord(m, s, e).len() implies row_le(
            m,
            #[trigger] insert_ord(m, s, e)[i],
            #[trigger] insert_ord(m, s, e)[j],
        ) by {
            assert(row_le(m, r[i], r[j]));
        }
    }
}

/// The order carries across a middle element.
pub proof fn lemma_row_le_trans(m: RowOrder, a: GameRow, b: GameRow, c: GameRow)
    requires
        row_le(m, a, b),
        row_le(m, b, c),
    ensures
        row_le(m, a, c),
{
    match m {
        RowOrder::Alphabetical => {
            lemma_lex_trans(sort_name(a), sort_name(b), sort_name(c));
        },
        _ => {},
    }
}

proof fn lemma_lex_trans(a: Seq<u8>, b: Seq<u8>, c: Seq<u8>)
    requires
        lex_le(a, b),
        lex_le(b, c),
    ensures
        lex_le(a, c),
    decreases a.len(),
{
    if a.len() > 0 && b.len() > 0 && c.len() > 0 && a[0] == b[0] && b[0] == c[0] {
        lemma_lex_trans(a.drop_first(), b.drop_first(), c.drop_first());
    }
}

/// The sorted rows are in order.
pub proof fn lemma_sort_rows_sorted(m: RowOrder, s: Seq<GameRow>)
    ensures
        rows_sorted(m, sort_rows(m, s)),
    decreases s.len(),
{
    if s.len() > 0 {
        lemma_sort_rows_sorted(m, s.drop_last());
        lemma_insert_ord_sorted(m, sort_rows(m, s.drop_last()), s.last());
    }
}

/// Compares two byte strings.
fn bytes_le(a: &[u8], b: &[u8]) -> (r: bool)
    ensures
        r == lex_le(a@, b@),
    decreases a@.len(),
{
    let an = a.len();
    let bn = b.len();
    let mut i: usize = 0;
    assert(a@.skip(0) =~= a@);
    assert(b@.skip(0) =~= b@);
    while i < an && i < bn
        invariant
            an == a@.len(),
            bn == b@.len(),
            0 <= i <= an,
            i <= bn,
            lex_le(a@, b@) == lex_le(a@.skip(i as int), b@.skip(i as int)),
            forall|j: int| 0 <= j < i ==> a@[j] == b@[j],
        decreases an - i,
    {
        assert(a@.skip(i as int)[0] == a@[i as int]);
        assert(b@.skip(i as int)[0] == b@[i as int]);
        assert(a@.skip(i as int).drop_first() =~= a@.skip(i + 1));
        assert(b@.skip(i as int).drop_first() =~= b@.skip(i + 1));
        if a[i] < b[i] {
            return true;
        }
        if a[i] > b[i] {
            return false;
        }
        i += 1;
    }
    if i >= an {
        assert(a@.skip(i as int) =~= Seq::<u8>::empty());
        true
    } else {
        assert(b@.skip(i as int) =~= Seq::<u8>::empty());
        assert(a@.skip(i as int).len() > 0);
        false
    }
}

/// Compares two rows under an order.
fn row_le_exec(m: RowOrder, a: &GameRow, b: &GameRow) -> (r: bool)
    ensures
        r == row_le(m, *a, *b),
{
    match m {
        RowOrder::LastPlayed => a.last_played >= b.last_played,
        RowOrder::MostPlayed => a.play_count >= b.play_count,
        RowOrder::Alphabetical => {
            let la = lowercase(a.name.as_str());
            let lb = lowercase(b.name.as_str());
            bytes_le(la.as_str().as_bytes(), lb.as_str().as_bytes())
        },
    }
}

/// Sorts rows under an order, stably enough for a menu: ties keep the
/// first-inserted row first.
pub fn sort_rows_exec(m: RowOrder, rows: &Vec<GameRow>) -> (r: Vec<GameRow>)
    ensures
        r@ =~= sort_rows(m, rows@),
        rows_sorted(m, r@),
{
    let mut r: Vec<GameRow> = Vec::new();
    let n = rows.len();
    let mut i: usize = 0;
    assert(rows@.take(0int) =~= Seq::<GameRow>::empty());
    while i < n
        invariant
            n == rows@.len(),
            0 <= i <= n,
            r@ =~= sort_rows(m, rows@.take(i as int)),
        decreases n - i,
    {
        let e = rows[i].clone();
        let ghost s1 = r@;
        let mlen = r.len();
        // Find the insertion point: the first row the new one may precede.
        let mut k: usize = 0;
        while k < mlen && !row_le_exec(m, &e, &r[k])
            invariant
                mlen == r@.len(),
                s1 =~= r@,
                0 <= k <= mlen,
                forall|q: int| 0 <= q < k ==> !row_le(m, e, #[trigger] s1[q]),
            decreases mlen - k,
        {
            k += 1;
        }
        r.insert(k, e);
        proof {
            lemma_insert_ord_at(m, s1, e, k as int);
            assert(r@ =~= s1.take(k as int) + seq![e] + s1.skip(k as int));
            assert(r@ =~= insert_ord(m, s1, e));
            assert(rows@.take(i + 1).drop_last() =~= rows@.take(i as int));
            assert(rows@.take(i + 1).last() == rows@[i as int]);
        }
        i += 1;
    }
    assert(rows@.take(n as int) =~= rows@);
    proof {
        lemma_sort_rows_sorted(m, rows@);
    }
    r
}

} // verus!

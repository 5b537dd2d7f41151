//! The game database, seen from the shell: rows describing known games,
//! with the narrow queries the screens use. The on-disk schema and SQL
//! access are an external collaborator; it hands the shell the rows,
//! newest-played first, and the shell's queries are verified over them.

use vstd::prelude::*;
use vstd::seq_lib::*;

use crate::bytes::{contains_bytes, is_substring};
use vstd::string::StringSliceAdditionalSpecFns;
use vstd::utf8::encode_utf8;

verus! {

/// One game known to the database.
#[derive(Debug, PartialEq, Eq)]
pub struct GameRow {
    pub name: String,
    pub path: String,
    pub image: Option<String>,
    pub core: Option<String>,
    pub favorite: bool,
    pub play_count: u64,
    pub last_played: i64,
    pub screenshot_path: Option<String>,
}

impl Clone for GameRow {
    fn clone(&self) -> (res: Self)
        ensures
            res == *self,
    {
        GameRow {
            name: self.name.clone(),
            path: self.path.clone(),
            image: match &self.image {
                Some(p) => Some(p.clone()),
                None => None,
            },
            core: match &self.core {
                Some(c) => Some(c.clone()),
                None => None,
            },
            favorite: self.favorite,
            play_count: self.play_count,
            last_played: self.last_played,
            screenshot_path: match &self.screenshot_path {
                Some(p) => Some(p.clone()),
                None => None,
            },
        }
    }
}

/// Rows ordered by last-played time, newest first.
pub open spec fn rows_by_last_played(s: Seq<GameRow>) -> bool {
    forall|i: int, j: int|
        0 <= i <= j < s.len() ==> #[trigger] s[i].last_played >= #[trigger] s[j].last_played
}

/// What case folding returns for a character sequence; the result depends
/// on the characters alone.
pub uninterp spec fn lower_of(s: Seq<char>) -> Seq<char>;

/// Relies on str::to_lowercase: the folded text is a function of the
/// characters alone.
#[verifier::external_body]
pub fn lowercase(s: &str) -> (r: String)
    ensures
        r@ == lower_of(s@),
{
    s.to_lowercase()
}

/// Whether a row answers a query: the folded name contains the folded
/// query as a substring.
pub open spec fn row_matches(row: GameRow, query: Seq<char>) -> bool {
    is_substring(encode_utf8(lower_of(row.name@)), encode_utf8(lower_of(query)))
}

/// Whether a name already folded contains the folded query. Taking both
/// texts as arguments, this tests the match for any value of the folds.
pub fn folded_name_matches(folded_name: &String, folded_query: &String) -> (r: bool)
    ensures
        r == is_substring(encode_utf8(folded_name@), encode_utf8(folded_query@)),
{
    contains_bytes(folded_name.as_str().as_bytes(), folded_query.as_str().as_bytes())
}

/// The first `limit` elements of `s`.
pub open spec fn take_limit(s: Seq<GameRow>, limit: int) -> Seq<GameRow> {
    if s.len() <= limit {
        s
    } else {
        s.take(limit)
    }
}

/// The rows that are marked favorite, in stored order.
pub open spec fn favorites_of(s: Seq<GameRow>) -> Seq<GameRow> {
    s.filter(|r: GameRow| r.favorite)
}

/// The rows that answer a query, in stored order.
pub open spec fn matches_of(s: Seq<GameRow>, query: Seq<char>) -> Seq<GameRow> {
    s.filter(|r: GameRow| row_matches(r, query))
}

/// The database handle the screens query. The collaborator keeps the rows
/// ordered by last-played time, newest first.
#[derive(Debug)]
pub struct Database {
    pub games: Vec<GameRow>,
    pub indexed: bool,
}

impl Database {
    pub open spec fn inv(&self) -> bool {
        rows_by_last_played(self.games@)
    }

    pub fn new(games: Vec<GameRow>, indexed: bool) -> (d: Database)
        requires
            rows_by_last_played(games@),
        ensures
            d.inv(),
            d.games == games,
            d.indexed == indexed,
    {
        Database { games, indexed }
    }

    /// Whether the search index has been populated.
    pub fn has_indexed(&self) -> (r: bool)
        ensures
            r == self.indexed,
    {
        self.indexed
    }

    /// The most recently played games, most recent first.
    pub fn select_last_played(&self, limit: usize) -> (r: Vec<GameRow>)
        requires
            self.inv(),
        ensures
            r@ =~= take_limit(self.games@, limit as int),
            rows_by_last_played(r@),
    {
        let mut r: Vec<GameRow> = Vec::new();
        let n = self.games.len();
        let mut i: usize = 0;
        while i < n && i < limit
            invariant
                n == self.games@.len(),
                0 <= i <= n,
                i <= limit,
                r@ =~= self.games@.take(i as int),
            decreases n - i,
        {
            let row = self.games[i].clone();
            r.push(row);
            assert(r@ =~= self.games@.take(i + 1));
            i += 1;
        }
        assert(self.games@.take(n as int) =~= self.games@);
        proof {
            assert forall|a: int, b: int| 0 <= a <= b < r@.len() implies #[trigger] r@[a].last_played
                >= #[trigger] r@[b].last_played by {
                assert(self.games@[a].last_played >= self.games@[b].last_played);
            }
        }
        r
    }

    /// Games in an order chosen by the collaborator; the shell takes the
    /// handed order as it comes.
    pub fn select_random(&self, limit: usize) -> (r: Vec<GameRow>)
        ensures
            r@ =~= take_limit(self.games@, limit as int),
    {
        let mut r: Vec<GameRow> = Vec::new();
        let n = self.games.len();
        let mut i: usize = 0;
        while i < n && i < limit
            invariant
                n == self.games@.len(),
                0 <= i <= n,
                i <= limit,
                r@ =~= self.games@.take(i as int),
            decreases n - i,
        {
            let row = self.games[i].clone();
            r.push(row);
            assert(r@ =~= self.games@.take(i + 1));
            i += 1;
        }
        assert(self.games@.take(n as int) =~= self.games@);
        r
    }

    /// The favorite games, in stored order.
    pub fn select_favorites(&self, limit: usize) -> (r: Vec<GameRow>)
        ensures
            r@ =~= take_limit(favorites_of(self.games@), limit as int),
    {
        let ghost pred = |row: GameRow| row.favorite;
        let mut r: Vec<GameRow> = Vec::new();
        let n = self.games.len();
        let mut i: usize = 0;
        proof {
            reveal(Seq::filter);
        }
        assert(self.games@.take(0int).filter(pred) =~= Seq::<GameRow>::empty());
        while i < n && r.len() < limit
            invariant
                n == self.games@.len(),
                0 <= i <= n,
                r@.len() <= limit,
                pred == (|row: GameRow| row.favorite),
                r@ =~= self.games@.take(i as int).filter(pred),
            decreases n - i,
        {
            let ghost prefix = self.games@.take(i as int);
            assert(self.games@.take(i + 1).drop_last() =~= prefix);
            proof {
                reveal(Seq::filter);
            }
            if self.games[i].favorite {
                let row = self.games[i].clone();
                r.push(row);
            }
            assert(self.games@.take(i + 1).filter(pred) =~= r@);
            i += 1;
        }
        assert(self.games@.take(n as int) =~= self.games@);
        proof {
            if r@.len() == limit && i < n {
                lemma_filter_take_prefix(self.games@, pred, i as int);
            }
        }
        r
    }

    /// The games that answer a query, in stored order. The query and each
    /// name are case-folded before matching.
    pub fn search(&self, query: &String, limit: usize) -> (r: Vec<GameRow>)
        ensures
            r@ =~= take_limit(matches_of(self.games@, query@), limit as int),
    {
        let ghost pred = |row: GameRow| row_matches(row, query@);
        let folded_query = lowercase(query.as_str());
        let mut r: Vec<GameRow> = Vec::new();
        let n = self.games.len();
        let mut i: usize = 0;
        proof {
            reveal(Seq::filter);
        }
        assert(self.games@.take(0int).filter(pred) =~= Seq::<GameRow>::empty());
        while i < n && r.len() < limit
            invariant
                n == self.games@.len(),
                0 <= i <= n,
                r@.len() <= limit,
                folded_query@ == lower_of(query@),
                pred == (|row: GameRow| row_matches(row, query@)),
                r@ =~= self.games@.take(i as int).filter(pred),
            decreases n - i,
        {
            let ghost prefix = self.games@.take(i as int);
            assert(self.games@.take(i + 1).drop_last() =~= prefix);
            proof {
                reveal(Seq::filter);
            }
            let folded_name = lowercase(self.games[i].name.as_str());
            if folded_name_matches(&folded_name, &folded_query) {
                let row = self.games[i].clone();
                r.push(row);
            }
            assert(self.games@.take(i + 1).filter(pred) =~= r@);
            i += 1;
        }
        assert(self.games@.take(n as int) =~= self.games@);
        proof {
            if r@.len() == limit && i < n {
                lemma_filter_take_prefix(self.games@, pred, i as int);
            }
        }
        r
    }
}

/// The filter of a prefix is a prefix of the filter.
proof fn lemma_filter_take_prefix(s: Seq<GameRow>, pred: spec_fn(GameRow) -> bool, i: int)
    requires
        0 <= i <= s.len(),
    ensures
        s.take(i).filter(pred).len() <= s.filter(pred).len(),
        s.take(i).filter(pred) =~= s.filter(pred).take(s.take(i).filter(pred).len() as int),
    decreases s.len() - i,
{
    reveal(Seq::filter);
    if i == s.len() {
        assert(s.take(i) =~= s);
        assert(s.filter(pred).take(s.filter(pred).len() as int) =~= s.filter(pred));
    } else {
        lemma_filter_take_prefix(s, pred, i + 1);
        assert(s.take(i + 1).drop_last() =~= s.take(i));
        let fi = s.take(i).filter(pred);
        let fi1 = s.take(i + 1).filter(pred);
        assert(fi1 =~= if pred(s[i]) {
            fi.push(s[i])
        } else {
            fi
        });
        assert(fi1 =~= s.filter(pred).take(fi1.len() as int));
        assert(fi.len() <= fi1.len());
        assert(fi =~= fi1.take(fi.len() as int));
        assert(fi =~= s.filter(pred).take(fi.len() as int));
    }
}

/// A play count bumped by one, saturating at the top.
pub open spec fn sat_inc(n: u64) -> u64 {
    if n == u64::MAX {
        n
    } else {
        (n + 1) as u64
    }
}

impl Database {
    /// Bumps the play count of the row with the given path; rows without
    /// that path are untouched.
    pub fn increment_play_count(&mut self, path: &String)
        requires
            old(self).inv(),
        ensures
            final(self).inv(),
            final(self).indexed == old(self).indexed,
            final(self).games@.len() == old(self).games@.len(),
            forall|i: int|
                0 <= i < old(self).games@.len() ==> #[trigger] final(self).games@[i]
                    == if old(self).games@[i].path@ == path@ {
                    GameRow {
                        play_count: sat_inc(old(self).games@[i].play_count),
                        ..old(self).games@[i]
                    }
                } else {
                    old(self).games@[i]
                },
    {
        let n = self.games.len();
        let mut i: usize = 0;
        while i < n
            invariant
                n == self.games@.len(),
                0 <= i <= n,
                self.indexed == old(self).indexed,
                forall|k: int|
                    i <= k < n ==> #[trigger] self.games@[k] == old(self).games@[k],
                forall|k: int|
                    0 <= k < i ==> #[trigger] self.games@[k] == if old(
                        self,
                    ).games@[k].path@ == path@ {
                        GameRow {
                            play_count: sat_inc(old(self).games@[k].play_count),
                            ..old(self).games@[k]
                        }
                    } else {
                        old(self).games@[k]
                    },
            decreases n - i,
        {
            if self.games[i].path == *path {
                if self.games[i].play_count < u64::MAX {
                    let row = &mut self.games[i];
                    row.play_count = row.play_count + 1;
                }
            }
            i += 1;
        }
        proof {
            assert forall|a: int, b: int| 0 <= a <= b < self.games@.len() implies
                #[trigger] self.games@[a].last_played >= #[trigger] self.games@[b].last_played by {
                assert(old(self).games@[a].last_played >= old(self).games@[b].last_played);
            }
        }
    }
}

} // verus!

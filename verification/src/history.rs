//! The session history store: an append/evict log of recently launched
//! sessions, queried to populate the switcher UI.
//!
//! Entries are kept unique by content path and ordered by last-played
//! time, newest first; the store is capped, and inserting past the cap
//! evicts the least recently played entry. Backing storage is an external
//! collaborator that replays the log through `record_launch` at startup.

use vstd::pervasive::VecAdditionalExecFns;
use vstd::prelude::*;

use crate::clock::now_timestamp;
use crate::session::clone_string_vec;

verus! {

/// Maximum number of sessions the history keeps.
pub const MAX_HISTORY_SIZE: usize = 10;

/// The mathematical value of one history entry.
pub struct EntryView {
    pub name: Seq<char>,
    pub path: Seq<char>,
    pub core: Seq<char>,
    pub command: Seq<char>,
    pub args: Seq<Seq<char>>,
    pub screenshot: Option<Seq<char>>,
    pub has_menu: bool,
    pub needs_swap: bool,
    pub timestamp: int,
}

/// One entry of the session history.
#[derive(Debug, PartialEq, Eq)]
pub struct GameHistoryEntry {
    /// Display name of the game.
    pub name: String,
    /// Full path of the game content.
    pub path: String,
    /// Core used to run the game.
    pub core: String,
    /// Program run to launch the core.
    pub command: String,
    /// Arguments passed to the program.
    pub args: Vec<String>,
    /// Path of a screenshot image, if one was captured.
    pub screenshot: Option<String>,
    /// Whether the emulator exposes an in-process menu.
    pub has_menu: bool,
    /// Whether a hardware swap step is required.
    pub needs_swap: bool,
    /// When this game was last played, in seconds since the epoch.
    pub timestamp: i64,
}

/// The views of a sequence of strings.
pub open spec fn str_views(s: Seq<String>) -> Seq<Seq<char>> {
    s.map_values(|x: String| x@)
}

/// The views of a sequence of history entries.
pub open spec fn views_of(s: Seq<GameHistoryEntry>) -> Seq<EntryView> {
    s.map_values(|e: GameHistoryEntry| e@)
}

/// The view of an optional string.
pub open spec fn opt_str_view(s: Option<String>) -> Option<Seq<char>> {
    match s {
        Some(x) => Some(x@),
        None => None,
    }
}

impl View for GameHistoryEntry {
    type V = EntryView;

    open spec fn view(&self) -> EntryView {
        EntryView {
            name: self.name@,
            path: self.path@,
            core: self.core@,
            command: self.command@,
            args: str_views(self.args@),
            screenshot: opt_str_view(self.screenshot),
            has_menu: self.has_menu,
            needs_swap: self.needs_swap,
            timestamp: self.timestamp as int,
        }
    }
}

impl GameHistoryEntry {
    /// Builds an entry stamped with the current wall-clock time.
    pub fn new(
        name: String,
        path: String,
        core: String,
        command: String,
        args: Vec<String>,
        screenshot: Option<String>,
        has_menu: bool,
        needs_swap: bool,
    ) -> (e: GameHistoryEntry)
        ensures
            e@ == (EntryView {
                name: name@,
                path: path@,
                core: core@,
                command: command@,
                args: str_views(args@),
                screenshot: opt_str_view(screenshot),
                has_menu,
                needs_swap,
                timestamp: e@.timestamp,
            }),
    {
        let timestamp = now_timestamp();
        GameHistoryEntry {
            name,
            path,
            core,
            command,
            args,
            screenshot,
            has_menu,
            needs_swap,
            timestamp,
        }
    }
}

impl Clone for GameHistoryEntry {
    fn clone(&self) -> (res: Self)
        ensures
            res@ == self@,
    {
        let res = GameHistoryEntry {
            name: self.name.clone(),
            path: self.path.clone(),
            core: self.core.clone(),
            command: self.command.clone(),
            args: clone_string_vec(&self.args),
            screenshot: match &self.screenshot {
                Some(p) => Some(p.clone()),
                None => None,
            },
            has_menu: self.has_menu,
            needs_swap: self.needs_swap,
            timestamp: self.timestamp,
        };
        assert(str_views(res.args@) =~= str_views(self.args@));
        res
    }
}

/// Entries ordered newest first.
pub open spec fn sorted_desc(s: Seq<EntryView>) -> bool {
    forall|i: int, j: int| 0 <= i <= j < s.len() ==> #[trigger] s[i].timestamp >= #[trigger] s[j].timestamp
}

/// No two entries share a path.
pub open spec fn unique_paths(s: Seq<EntryView>) -> bool {
    forall|i: int, j: int| 0 <= i < j < s.len() ==> #[trigger] s[i].path != #[trigger] s[j].path
}

/// Whether some entry has the given path.
pub open spec fn contains_path(s: Seq<EntryView>, path: Seq<char>) -> bool {
    exists|i: int| 0 <= i < s.len() && #[trigger] s[i].path == path
}

/// `s` with every entry for `path` removed.
pub open spec fn remove_path(s: Seq<EntryView>, path: Seq<char>) -> Seq<EntryView>
    decreases s.len(),
{
    if s.len() == 0 {
        Seq::empty()
    } else if s[0].path == path {
        remove_path(s.drop_first(), path)
    } else {
        seq![s[0]] + remove_path(s.drop_first(), path)
    }
}

/// `e` inserted into `s` before the first entry that is not newer.
pub open spec fn insert_by_time(s: Seq<EntryView>, e: EntryView) -> Seq<EntryView>
    decreases s.len(),
{
    if s.len() == 0 {
        seq![e]
    } else if s[0].timestamp <= e.timestamp {
        seq![e] + s
    } else {
        seq![s[0]] + insert_by_time(s.drop_first(), e)
    }
}

/// `s` capped to the history size.
pub open spec fn cap(s: Seq<EntryView>) -> Seq<EntryView> {
    if s.len() <= MAX_HISTORY_SIZE {
        s
    } else {
        s.take(MAX_HISTORY_SIZE as int)
    }
}

/// What recording `e` does to the stored views: the old entry for the same
/// path is dropped, `e` is inserted in timestamp order, and the store is
/// capped, evicting from the old end.
pub open spec fn spec_record(s: Seq<EntryView>, e: EntryView) -> Seq<EntryView> {
    cap(insert_by_time(remove_path(s, e.path), e))
}

/// The first `limit` entries of `s` that are not for `exclude`.
pub open spec fn spec_recent(
    s: Seq<EntryView>,
    exclude: Option<Seq<char>>,
    limit: int,
) -> Seq<EntryView> {
    let kept = match exclude {
        Some(p) => remove_path(s, p),
        None => s,
    };
    if kept.len() <= limit {
        kept
    } else {
        kept.take(limit)
    }
}

/// Manages the launch history.
#[derive(Debug)]
pub struct GameHistory {
    pub entries: Vec<GameHistoryEntry>,
}

impl GameHistory {
    /// The stored views, newest first.
    pub open spec fn view_seq(&self) -> Seq<EntryView> {
        self.entries@.map_values(|e: GameHistoryEntry| e@)
    }

    /// The store is capped, ordered newest first, and unique by path.
    pub open spec fn inv(&self) -> bool {
        &&& self.entries@.len() <= MAX_HISTORY_SIZE
        &&& sorted_desc(self.view_seq())
        &&& unique_paths(self.view_seq())
    }

    /// A fresh, empty history.
    pub fn new() -> (h: GameHistory)
        ensures
            h.inv(),
            h.view_seq() =~= Seq::<EntryView>::empty(),
    {
        let h = GameHistory { entries: Vec::new() };
        assert(h.view_seq() =~= Seq::<EntryView>::empty());
        h
    }

    /// Records a launch: insert-or-update by path, newest first, evicting
    /// beyond capacity.
    pub fn record_launch(&mut self, entry: GameHistoryEntry)
        requires
            old(self).inv(),
        ensures
            final(self).inv(),
            final(self).view_seq() =~= spec_record(old(self).view_seq(), entry@),
    {
        let ghost s0 = self.view_seq();
        let ghost path = entry@.path;
        // Drop any old entry for the same path.
        let mut kept: Vec<GameHistoryEntry> = Vec::new();
        let n = self.entries.len();
        let mut i: usize = 0;
        assert(s0.skip(0) =~= s0);
        while i < n
            invariant
                n == self.entries@.len(),
                s0 =~= self.view_seq(),
                path == entry@.path,
                0 <= i <= n,
                views_of(kept@) + remove_path(s0.skip(i as int), path) =~= remove_path(s0, path),
            decreases n - i,
        {
            assert(s0.skip(i as int)[0] == s0[i as int]);
            assert(s0.skip(i as int).drop_first() =~= s0.skip(i + 1));
            if !(self.entries[i].path == entry.path) {
                let ghost kv = views_of(kept@);
                let e = self.entries[i].clone();
                kept.push(e);
                assert(views_of(kept@) =~= kv.push(s0[i as int]));
            }
            i += 1;
        }
        assert(s0.skip(n as int) =~= Seq::<EntryView>::empty());
        assert(views_of(kept@) =~= remove_path(s0, path));
        proof {
            lemma_remove_path_sorted(s0, path);
            lemma_remove_path_unique(s0, path);
            lemma_remove_path_removes(s0, path);
            lemma_remove_path_len(s0, path);
        }
        // Insert the new entry before the first one that is not newer.
        let ghost s1 = views_of(kept@);
        let m = kept.len();
        let mut j: usize = 0;
        while j < m && kept[j].timestamp > entry.timestamp
            invariant
                m == kept@.len(),
                s1 =~= views_of(kept@),
                0 <= j <= m,
                forall|k: int| 0 <= k < j ==> #[trigger] s1[k].timestamp > entry@.timestamp,
            decreases m - j,
        {
            j += 1;
        }
        kept.insert(j, entry);
        proof {
            lemma_insert_by_time_at(s1, entry@, j as int);
            assert(views_of(kept@) =~= s1.take(j as int) + seq![entry@] + s1.skip(j as int));
            assert(views_of(kept@) =~= insert_by_time(s1, entry@));
            lemma_insert_by_time_sorted(s1, entry@);
            lemma_insert_by_time_unique(s1, entry@);
        }
        // Evict beyond capacity, oldest first.
        let ghost s2 = views_of(kept@);
        if kept.len() > MAX_HISTORY_SIZE {
            kept.truncate(MAX_HISTORY_SIZE);
            assert(kept@ =~= kept@.take(MAX_HISTORY_SIZE as int));
        }
        assert(views_of(kept@) =~= cap(s2));
        proof {
            assert(sorted_desc(cap(s2))) by {
                assert forall|a: int, b: int| 0 <= a <= b < cap(s2).len() implies
                    #[trigger] cap(s2)[a].timestamp >= #[trigger] cap(s2)[b].timestamp by {
                    assert(s2[a].timestamp >= s2[b].timestamp);
                }
            }
            assert(unique_paths(cap(s2))) by {
                assert forall|a: int, b: int| 0 <= a < b < cap(s2).len() implies
                    #[trigger] cap(s2)[a].path != #[trigger] cap(s2)[b].path by {
                    assert(s2[a].path != s2[b].path);
                }
            }
        }
        self.entries = kept;
    }

    /// The most recent `limit` entries, excluding the given current path.
    pub fn get_recent_games(
        &self,
        current_game_path: Option<&String>,
        limit: usize,
    ) -> (r: Vec<GameHistoryEntry>)
        requires
            self.inv(),
        ensures
            views_of(r@) =~= spec_recent(
                self.view_seq(),
                match current_game_path {
                    Some(p) => Some(p@),
                    None => None,
                },
                limit as int,
            ),
    {
        let ghost s0 = self.view_seq();
        let ghost excl: Option<Seq<char>> = match current_game_path {
            Some(p) => Some(p@),
            None => None,
        };
        let ghost full: Seq<EntryView> = match excl {
            Some(p) => remove_path(s0, p),
            None => s0,
        };
        let mut r: Vec<GameHistoryEntry> = Vec::new();
        let n = self.entries.len();
        let mut i: usize = 0;
        assert(s0.skip(0) =~= s0);
        while i < n && r.len() < limit
            invariant
                n == self.entries@.len(),
                s0 =~= self.view_seq(),
                full == (match excl {
                    Some(p) => remove_path(s0, p),
                    None => s0,
                }),
                excl == (match current_game_path {
                    Some(p) => Some(p@),
                    None => None::<Seq<char>>,
                }),
                0 <= i <= n,
                r@.len() <= limit,
                views_of(r@) + (match excl {
                    Some(p) => remove_path(s0.skip(i as int), p),
                    None => s0.skip(i as int),
                }) =~= full,
            decreases n - i,
        {
            assert(s0.skip(i as int)[0] == s0[i as int]);
            assert(s0.skip(i as int).drop_first() =~= s0.skip(i + 1));
            let keep = match current_game_path {
                Some(p) => !(self.entries[i].path == *p),
                None => true,
            };
            if keep {
                let ghost rv = views_of(r@);
                let e = self.entries[i].clone();
                r.push(e);
                assert(views_of(r@) =~= rv.push(s0[i as int]));
            }
            i += 1;
        }
        proof {
            if i == n {
                assert(s0.skip(n as int) =~= Seq::<EntryView>::empty());
                assert(views_of(r@) =~= full);
            } else {
                assert(r@.len() == limit);
                assert(views_of(r@) =~= full.take(limit as int));
            }
        }
        r
    }

    /// Every stored entry, newest first.
    pub fn get_all(&self) -> (r: Vec<GameHistoryEntry>)
        requires
            self.inv(),
        ensures
            views_of(r@) =~= self.view_seq(),
    {
        let mut r: Vec<GameHistoryEntry> = Vec::new();
        let n = self.entries.len();
        let mut i: usize = 0;
        while i < n
            invariant
                n == self.entries@.len(),
                0 <= i <= n,
                views_of(r@) =~= self.view_seq().take(i as int),
            decreases n - i,
        {
            let ghost rv = views_of(r@);
            let e = self.entries[i].clone();
            r.push(e);
            assert(views_of(r@) =~= rv.push(self.view_seq()[i as int]));
            assert(views_of(r@) =~= self.view_seq().take(i + 1));
            i += 1;
        }
        assert(self.view_seq().take(n as int) =~= self.view_seq());
        r
    }

    /// Stores a screenshot path for the entry with the given content path.
    pub fn update_screenshot(&mut self, path: &String, screenshot: String)
        requires
            old(self).inv(),
        ensures
            final(self).inv(),
            final(self).view_seq().len() == old(self).view_seq().len(),
            forall|i: int|
                0 <= i < old(self).view_seq().len() ==> #[trigger] final(self).view_seq()[i]
                    == if old(self).view_seq()[i].path == path@ {
                    EntryView { screenshot: Some(screenshot@), ..old(self).view_seq()[i] }
                } else {
                    old(self).view_seq()[i]
                },
    {
        let n = self.entries.len();
        let mut i: usize = 0;
        while i < n
            invariant
                n == self.entries@.len(),
                0 <= i <= n,
                self.entries@.len() == old(self).entries@.len(),
                forall|k: int|
                    i <= k < n ==> #[trigger] self.view_seq()[k] == old(self).view_seq()[k],
                forall|k: int|
                    0 <= k < i ==> #[trigger] self.view_seq()[k] == if old(
                        self,
                    ).view_seq()[k].path == path@ {
                        EntryView { screenshot: Some(screenshot@), ..old(self).view_seq()[k] }
                    } else {
                        old(self).view_seq()[k]
                    },
            decreases n - i,
        {
            if self.entries[i].path == *path {
                let ghost before = self.entries@;
                assert(self.view_seq()[i as int] == views_of(before)[i as int]);
                assert(self.view_seq()[i as int] == old(self).view_seq()[i as int]);
                let s = screenshot.clone();
                let mut e = self.entries[i].clone();
                assert(e@ == views_of(before)[i as int]);
                e.screenshot = Some(s);
                assert(e@ == (EntryView {
                    screenshot: Some(screenshot@),
                    ..old(self).view_seq()[i as int]
                }));
                self.entries.set(i, e);
                assert(self.entries@ =~= before.update(i as int, e));
                assert(forall|k: int|
                    0 <= k < self.entries@.len() && k != i ==> self.entries@[k] == before[k]);
                assert(forall|k: int|
                    0 <= k < self.entries@.len() && k != i ==> #[trigger] self.view_seq()[k]
                        == views_of(before)[k]);
            }
            i += 1;
        }
        proof {
            assert forall|a: int, b: int| 0 <= a <= b < self.view_seq().len() implies
                #[trigger] self.view_seq()[a].timestamp
                >= #[trigger] self.view_seq()[b].timestamp by {
                assert(old(self).view_seq()[a].timestamp >= old(self).view_seq()[b].timestamp);
            }
            assert forall|a: int, b: int| 0 <= a < b < self.view_seq().len() implies
                #[trigger] self.view_seq()[a].path != #[trigger] self.view_seq()[b].path by {
                assert(old(self).view_seq()[a].path != old(self).view_seq()[b].path);
            }
        }
    }

    /// Clears the whole history.
    pub fn clear(&mut self)
        ensures
            final(self).inv(),
            final(self).view_seq() =~= Seq::<EntryView>::empty(),
    {
        self.entries.clear();
        assert(self.view_seq() =~= Seq::<EntryView>::empty());
    }
}

/// Eviction, stated in general: recording a fresh, newest entry into a full
/// store keeps the store full and drops exactly the least recently played
/// entry; everything else survives, shifted one place.
pub proof fn lemma_history_eviction(s: Seq<EntryView>, e: EntryView)
    requires
        s.len() == MAX_HISTORY_SIZE,
        sorted_desc(s),
        unique_paths(s),
        !contains_path(s, e.path),
        e.timestamp >= s[0].timestamp,
    ensures
        spec_record(s, e).len() == MAX_HISTORY_SIZE,
        spec_record(s, e) =~= seq![e] + s.take(MAX_HISTORY_SIZE - 1),
        !contains_path(spec_record(s, e), s.last().path),
        contains_path(spec_record(s, e), e.path),
{
    lemma_remove_path_absent(s, e.path);
    assert(remove_path(s, e.path) =~= s);
    assert(s.len() > 0);
    assert(insert_by_time(s, e) =~= seq![e] + s);
    assert(spec_record(s, e) =~= (seq![e] + s).take(MAX_HISTORY_SIZE as int));
    assert(spec_record(s, e) =~= seq![e] + s.take(MAX_HISTORY_SIZE - 1));
    let result = spec_record(s, e);
    assert forall|i: int| 0 <= i < result.len() implies #[trigger] result[i].path
        != s.last().path by {
        if i == 0 {
            assert(result[0] == e);
            assert(s.last() == s[s.len() - 1]);
            assert(contains_path(s, s.last().path));
        } else {
            assert(result[i] == s[i - 1]);
            assert(s[i - 1].path != s[s.len() - 1].path);
        }
    }
    assert(result[0] == e);
}

/// Removing a path that is absent changes nothing.
pub proof fn lemma_remove_path_absent(s: Seq<EntryView>, path: Seq<char>)
    requires
        !contains_path(s, path),
    ensures
        remove_path(s, path) =~= s,
    decreases s.len(),
{
    if s.len() > 0 {
        assert(s[0].path != path);
        assert(!contains_path(s.drop_first(), path)) by {
            if contains_path(s.drop_first(), path) {
                let i = choose|i: int|
                    0 <= i < s.drop_first().len() && #[trigger] s.drop_first()[i].path == path;
                assert(s[i + 1].path == path);
            }
        }
        lemma_remove_path_absent(s.drop_first(), path);
    }
}

/// Removal keeps the newest-first order.
pub proof fn lemma_remove_path_sorted(s: Seq<EntryView>, path: Seq<char>)
    requires
        sorted_desc(s),
    ensures
        sorted_desc(remove_path(s, path)),
    decreases s.len(),
{
    if s.len() > 0 {
        assert(sorted_desc(s.drop_first())) by {
            assert forall|i: int, j: int| 0 <= i <= j < s.drop_first().len() implies
                #[trigger] s.drop_first()[i].timestamp
                >= #[trigger] s.drop_first()[j].timestamp by {
                assert(s[i + 1].timestamp >= s[j + 1].timestamp);
            }
        }
        lemma_remove_path_sorted(s.drop_first(), path);
        if s[0].path != path {
            let rest = remove_path(s.drop_first(), path);
            lemma_remove_path_members(s.drop_first(), path);
            assert forall|i: int, j: int|
                0 <= i <= j < remove_path(s, path).len() implies #[trigger] remove_path(
                s,
                path,
            )[i].timestamp >= #[trigger] remove_path(s, path)[j].timestamp by {
                if i == 0 {
                    if j > 0 {
                        let k = choose|k: int|
                            0 <= k < s.drop_first().len() && s.drop_first()[k] == rest[j - 1];
                        assert(s[0].timestamp >= s[k + 1].timestamp);
                    }
                } else {
                    assert(rest[i - 1].timestamp >= rest[j - 1].timestamp);
                }
            }
        }
    }
}

/// Every survivor of a removal is a member of the original.
pub proof fn lemma_remove_path_members(s: Seq<EntryView>, path: Seq<char>)
    ensures
        forall|i: int|
            0 <= i < remove_path(s, path).len() ==> exists|k: int|
                0 <= k < s.len() && s[k] == #[trigger] remove_path(s, path)[i],
    decreases s.len(),
{
    if s.len() > 0 {
        lemma_remove_path_members(s.drop_first(), path);
        let rest = remove_path(s.drop_first(), path);
        assert forall|i: int| 0 <= i < remove_path(s, path).len() implies exists|k: int|
            0 <= k < s.len() && s[k] == #[trigger] remove_path(s, path)[i] by {
            if s[0].path == path {
                let k = choose|k: int| 0 <= k < s.drop_first().len() && s.drop_first()[k] == rest[i];
                assert(s[k + 1] == remove_path(s, path)[i]);
            } else {
                if i > 0 {
                    let k = choose|k: int|
                        0 <= k < s.drop_first().len() && s.drop_first()[k] == rest[i - 1];
                    assert(s[k + 1] == remove_path(s, path)[i]);
                } else {
                    assert(s[0] == remove_path(s, path)[0]);
                }
            }
        }
    }
}

/// Removal keeps paths unique.
pub proof fn lemma_remove_path_unique(s: Seq<EntryView>, path: Seq<char>)
    requires
        unique_paths(s),
    ensures
        unique_paths(remove_path(s, path)),
    decreases s.len(),
{
    if s.len() > 0 {
        assert(unique_paths(s.drop_first())) by {
            assert forall|i: int, j: int| 0 <= i < j < s.drop_first().len() implies
                #[trigger] s.drop_first()[i].path != #[trigger] s.drop_first()[j].path by {
                assert(s[i + 1].path != s[j + 1].path);
            }
        }
        lemma_remove_path_unique(s.drop_first(), path);
        if s[0].path != path {
            let rest = remove_path(s.drop_first(), path);
            lemma_remove_path_members(s.drop_first(), path);
            assert forall|i: int, j: int|
                0 <= i < j < remove_path(s, path).len() implies #[trigger] remove_path(
                s,
                path,
            )[i].path != #[trigger] remove_path(s, path)[j].path by {
                if i == 0 {
                    let k = choose|k: int|
                        0 <= k < s.drop_first().len() && s.drop_first()[k] == rest[j - 1];
                    assert(s[0].path != s[k + 1].path);
                } else {
                    assert(rest[i - 1].path != rest[j - 1].path);
                }
            }
        }
    }
}

/// After removal, the path is gone.
pub proof fn lemma_remove_path_removes(s: Seq<EntryView>, path: Seq<char>)
    ensures
        !contains_path(remove_path(s, path), path),
    decreases s.len(),
{
    if s.len() > 0 {
        lemma_remove_path_removes(s.drop_first(), path);
        if s[0].path != path {
            let rest = remove_path(s.drop_first(), path);
            if contains_path(remove_path(s, path), path) {
                let i = choose|i: int|
                    0 <= i < remove_path(s, path).len() && #[trigger] remove_path(s, path)[i].path
                        == path;
                assert(i > 0);
                assert(rest[i - 1].path == path);
            }
        }
    }
}

/// Removal never grows the sequence.
pub proof fn lemma_remove_path_len(s: Seq<EntryView>, path: Seq<char>)
    ensures
        remove_path(s, path).len() <= s.len(),
    decreases s.len(),
{
    if s.len() > 0 {
        lemma_remove_path_len(s.drop_first(), path);
    }
}

/// Where the insertion point is known, insertion is a concatenation.
pub proof fn lemma_insert_by_time_at(s: Seq<EntryView>, e: EntryView, j: int)
    requires
        0 <= j <= s.len(),
        forall|k: int| 0 <= k < j ==> #[trigger] s[k].timestamp > e.timestamp,
        j < s.len() ==> s[j].timestamp <= e.timestamp,
    ensures
        insert_by_time(s, e) =~= s.take(j) + seq![e] + s.skip(j),
    decreases s.len(),
{
    if s.len() == 0 {
        assert(insert_by_time(s, e) =~= seq![e]);
        assert(s.take(0) + seq![e] + s.skip(0) =~= seq![e]);
    } else if j == 0 {
        assert(s[0].timestamp <= e.timestamp);
        assert(insert_by_time(s, e) =~= seq![e] + s);
        assert(s.take(0) + seq![e] + s.skip(0) =~= seq![e] + s);
    } else {
        assert(s[0].timestamp > e.timestamp);
        assert forall|k: int| 0 <= k < j - 1 implies #[trigger] s.drop_first()[k].timestamp
            > e.timestamp by {
            assert(s[k + 1].timestamp > e.timestamp);
        }
        assert(j - 1 < s.drop_first().len() ==> s.drop_first()[j - 1].timestamp <= e.timestamp);
        lemma_insert_by_time_at(s.drop_first(), e, j - 1);
        assert(s.drop_first().take(j - 1) =~= s.take(j).drop_first());
        assert(s.drop_first().skip(j - 1) =~= s.skip(j));
        assert(insert_by_time(s, e) =~= seq![s[0]] + insert_by_time(s.drop_first(), e));
        assert(seq![s[0]] + (s.drop_first().take(j - 1) + seq![e] + s.drop_first().skip(j - 1))
            =~= s.take(j) + seq![e] + s.skip(j));
    }
}

/// Insertion keeps the newest-first order.
pub proof fn lemma_insert_by_time_sorted(s: Seq<EntryView>, e: EntryView)
    requires
        sorted_desc(s),
    ensures
        sorted_desc(insert_by_time(s, e)),
    decreases s.len(),
{
    if s.len() == 0 {
    } else if s[0].timestamp <= e.timestamp {
        let r = seq![e] + s;
        assert forall|i: int, j: int| 0 <= i <= j < r.len() implies #[trigger] r[i].timestamp
            >= #[trigger] r[j].timestamp by {
            if i == 0 {
                if j > 0 {
                    assert(r[j] == s[j - 1]);
                    assert(s[0].timestamp >= s[j - 1].timestamp);
                }
            } else {
                assert(s[i - 1].timestamp >= s[j - 1].timestamp);
            }
        }
    } else {
        assert(sorted_desc(s.drop_first())) by {
            assert forall|i: int, j: int| 0 <= i <= j < s.drop_first().len() implies
                #[trigger] s.drop_first()[i].timestamp
                >= #[trigger] s.drop_first()[j].timestamp by {
                assert(s[i + 1].timestamp >= s[j + 1].timestamp);
            }
        }
        lemma_insert_by_time_sorted(s.drop_first(), e);
        lemma_insert_by_time_members(s.drop_first(), e);
        let rest = insert_by_time(s.drop_first(), e);
        let r = seq![s[0]] + rest;
        assert forall|i: int, j: int| 0 <= i <= j < r.len() implies #[trigger] r[i].timestamp
            >= #[trigger] r[j].timestamp by {
            if i == 0 && j > 0 {
                assert(rest[j - 1] == e || exists|k: int|
                    0 <= k < s.drop_first().len() && s.drop_first()[k] == rest[j - 1]);
                if rest[j - 1] == e {
                    assert(s[0].timestamp > e.timestamp);
                } else {
                    let k = choose|k: int|
                        0 <= k < s.drop_first().len() && s.drop_first()[k] == rest[j - 1];
                    assert(s[0].timestamp >= s[k + 1].timestamp);
                }
            } else if i > 0 {
                assert(rest[i - 1].timestamp >= rest[j - 1].timestamp);
            }
        }
    }
}

/// Every element after insertion is the new entry or a member of the
/// original.
pub proof fn lemma_insert_by_time_members(s: Seq<EntryView>, e: EntryView)
    ensures
        forall|i: int|
            0 <= i < insert_by_time(s, e).len() ==> (#[trigger] insert_by_time(s, e)[i] == e
                || exists|k: int| 0 <= k < s.len() && s[k] == insert_by_time(s, e)[i]),
    decreases s.len(),
{
    if s.len() == 0 {
    } else if s[0].timestamp <= e.timestamp {
        let r = seq![e] + s;
        assert forall|i: int| 0 <= i < r.len() implies (#[trigger] r[i] == e || exists|k: int|
            0 <= k < s.len() && s[k] == r[i]) by {
            if i > 0 {
                assert(s[i - 1] == r[i]);
            }
        }
    } else {
        lemma_insert_by_time_members(s.drop_first(), e);
        let rest = insert_by_time(s.drop_first(), e);
        let r = seq![s[0]] + rest;
        assert forall|i: int| 0 <= i < r.len() implies (#[trigger] r[i] == e || exists|k: int|
            0 <= k < s.len() && s[k] == r[i]) by {
            if i == 0 {
                assert(s[0] == r[0]);
            } else {
                if rest[i - 1] == e {
                } else {
                    let k = choose|k: int|
                        0 <= k < s.drop_first().len() && s.drop_first()[k] == rest[i - 1];
                    assert(s[k + 1] == r[i]);
                }
            }
        }
    }
}

/// Insertion of a fresh path keeps paths unique.
pub proof fn lemma_insert_by_time_unique(s: Seq<EntryView>, e: EntryView)
    requires
        unique_paths(s),
        !contains_path(s, e.path),
    ensures
        unique_paths(insert_by_time(s, e)),
    decreases s.len(),
{
    if s.len() == 0 {
    } else if s[0].timestamp <= e.timestamp {
        let r = seq![e] + s;
        assert forall|i: int, j: int| 0 <= i < j < r.len() implies #[trigger] r[i].path
            != #[trigger] r[j].path by {
            if i == 0 {
                assert(r[j] == s[j - 1]);
                assert(0 <= j - 1 < s.len() && s[j - 1].path == s[j - 1].path);
                assert(contains_path(s, s[j - 1].path));
            } else {
                assert(s[i - 1].path != s[j - 1].path);
            }
        }
    } else {
        assert(unique_paths(s.drop_first())) by {
            assert forall|i: int, j: int| 0 <= i < j < s.drop_first().len() implies
                #[trigger] s.drop_first()[i].path != #[trigger] s.drop_first()[j].path by {
                assert(s[i + 1].path != s[j + 1].path);
            }
        }
        assert(!contains_path(s.drop_first(), e.path)) by {
            if contains_path(s.drop_first(), e.path) {
                let i = choose|i: int|
                    0 <= i < s.drop_first().len() && #[trigger] s.drop_first()[i].path == e.path;
                assert(s[i + 1].path == e.path);
            }
        }
        lemma_insert_by_time_unique(s.drop_first(), e);
        lemma_insert_by_time_members(s.drop_first(), e);
        let rest = insert_by_time(s.drop_first(), e);
        let r = seq![s[0]] + rest;
        assert forall|i: int, j: int| 0 <= i < j < r.len() implies #[trigger] r[i].path
            != #[trigger] r[j].path by {
            if i == 0 {
                if rest[j - 1] == e {
                    assert(contains_path(s, s[0].path));
                    assert(s[0].path != e.path);
                } else {
                    let k = choose|k: int|
                        0 <= k < s.drop_first().len() && s.drop_first()[k] == rest[j - 1];
                    assert(s[0].path != s[k + 1].path);
                }
            } else {
                assert(rest[i - 1].path != rest[j - 1].path);
            }
        }
    }
}

} // verus!

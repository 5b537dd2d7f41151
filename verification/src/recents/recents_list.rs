//! The recents list: recently played games as rows, with cycling sort
//! modes and a search overlay.

use vstd::prelude::*;

use crate::command::{Bubble, Command, CommandSink};
use crate::database::{matches_of, take_limit, Database, GameRow};
use crate::display::DisplayLog;
use crate::entry::Game;
use crate::geom::{sat_add, Alignment, Point, Rect};
use crate::key::{Key, KeyEvent};
use crate::locale::Locale;
use crate::resources::Resources;
use crate::search::SearchView;
use crate::sorting::{sort_rows, sort_rows_exec, RowOrder};
use crate::style::Stylesheet;
use crate::view::ViewNode;
use crate::widgets::{ButtonHint, Label, Row};

verus! {

/// The sort modes of the recents list, cycled with one key.
#[derive(Debug, PartialEq, Eq)]
pub enum RecentsSort {
    LastPlayed,
    MostPlayed,
    Favorites,
    Random,
    Search(String),
}

impl RecentsSort {
    /// The locale key of a mode's button hint.
    pub open spec fn spec_hint_key(self) -> Seq<char> {
        match self {
            RecentsSort::LastPlayed => "sort-last-played"@,
            RecentsSort::MostPlayed => "sort-most-played"@,
            RecentsSort::Favorites => "sort-favorites"@,
            RecentsSort::Random => "sort-random"@,
            RecentsSort::Search(_) => "sort-search"@,
        }
    }

    /// The caption of the sort button.
    pub fn button_hint(&self, locale: &Locale) -> (r: String)
        ensures
            r@ == locale.spec_t(self.spec_hint_key()),
    {
        proof {
            reveal_strlit("sort-last-played");
            reveal_strlit("sort-most-played");
            reveal_strlit("sort-favorites");
            reveal_strlit("sort-random");
            reveal_strlit("sort-search");
        }
        match self {
            RecentsSort::LastPlayed => locale.t("sort-last-played"),
            RecentsSort::MostPlayed => locale.t("sort-most-played"),
            RecentsSort::Favorites => locale.t("sort-favorites"),
            RecentsSort::Random => locale.t("sort-random"),
            RecentsSort::Search(_) => locale.t("sort-search"),
        }
    }

    /// The next mode in the cycle; a search collapses back to recency.
    pub fn next(&self) -> (r: RecentsSort)
        ensures
            r == match self {
                RecentsSort::LastPlayed => RecentsSort::MostPlayed,
                RecentsSort::MostPlayed => RecentsSort::Favorites,
                RecentsSort::Favorites => RecentsSort::Random,
                RecentsSort::Random => RecentsSort::LastPlayed,
                RecentsSort::Search(_) => RecentsSort::LastPlayed,
            },
    {
        match self {
            RecentsSort::LastPlayed => RecentsSort::MostPlayed,
            RecentsSort::MostPlayed => RecentsSort::Favorites,
            RecentsSort::Favorites => RecentsSort::Random,
            RecentsSort::Random => RecentsSort::LastPlayed,
            RecentsSort::Search(_) => RecentsSort::LastPlayed,
        }
    }

    /// The rows shown under a mode: recency and play count come sorted,
    /// favorites filtered, the collaborator's order stands in for random,
    /// and a search filters by the folded query.
    pub open spec fn spec_rows(self, db: Database, limit: int) -> Seq<GameRow> {
        match self {
            RecentsSort::LastPlayed => take_limit(db.games@, limit),
            RecentsSort::MostPlayed => {
                let sorted = sort_rows(RowOrder::MostPlayed, db.games@);
                take_limit(sorted, limit)
            },
            RecentsSort::Favorites => take_limit(crate::database::favorites_of(db.games@), limit),
            RecentsSort::Random => take_limit(db.games@, limit),
            RecentsSort::Search(q) => take_limit(matches_of(db.games@, q@), limit),
        }
    }

    /// Fetches and shapes the rows for this mode.
    pub fn entries(&self, database: &Database) -> (r: Vec<Game>)
        requires
            database.inv(),
        ensures
            r@.len() == self.spec_rows(*database, RECENT_GAMES_LIMIT as int).len(),
            forall|i: int|
                0 <= i < r@.len() ==> (#[trigger] r@[i]).path@ == self.spec_rows(
                    *database,
                    RECENT_GAMES_LIMIT as int,
                )[i].path@ && r@[i].name@ == self.spec_rows(
                    *database,
                    RECENT_GAMES_LIMIT as int,
                )[i].name@,
    {
        let rows: Vec<GameRow> = match self {
            RecentsSort::LastPlayed => database.select_last_played(RECENT_GAMES_LIMIT),
            RecentsSort::MostPlayed => {
                let sorted = sort_rows_exec(RowOrder::MostPlayed, &database.games);
                let mut out: Vec<GameRow> = Vec::new();
                let n = sorted.len();
                let mut i: usize = 0;
                while i < n && i < RECENT_GAMES_LIMIT
                    invariant
                        n == sorted@.len(),
                        0 <= i <= n,
                        i <= RECENT_GAMES_LIMIT,
                        out@ =~= sorted@.take(i as int),
                    decreases n - i,
                {
                    let row = sorted[i].clone();
                    out.push(row);
                    assert(out@ =~= sorted@.take(i + 1));
                    i += 1;
                }
                assert(sorted@.take(n as int) =~= sorted@);
                out
            },
            RecentsSort::Favorites => database.select_favorites(RECENT_GAMES_LIMIT),
            RecentsSort::Random => database.select_random(RECENT_GAMES_LIMIT),
            RecentsSort::Search(q) => database.search(q, RECENT_GAMES_LIMIT),
        };
        let mut r: Vec<Game> = Vec::new();
        let n = rows.len();
        let mut i: usize = 0;
        while i < n
            invariant
                n == rows@.len(),
                0 <= i <= n,
                r@.len() == i,
                forall|j: int|
                    0 <= j < i ==> (#[trigger] r@[j]).path@ == rows@[j].path@ && r@[j].name@
                        == rows@[j].name@,
            decreases n - i,
        {
            let g = Game::from_row(&rows[i]);
            r.push(g);
            i += 1;
        }
        r
    }
}

pub use crate::recents::RECENT_GAMES_LIMIT;

/// The persisted state of the list.
#[derive(Debug, PartialEq, Eq)]
pub struct RecentsListState {
    pub sort: RecentsSort,
    pub selected: usize,
}

/// The recents list screen.
#[derive(Debug)]
pub struct RecentsList {
    pub rect: Rect,
    pub entries: Vec<Game>,
    pub selected: usize,
    pub sort: RecentsSort,
    pub button_hints: Row<ButtonHint>,
    pub search_view: SearchView,
    pub dirty: bool,
}

impl RecentsList {
    pub open spec fn wf(&self) -> bool {
        &&& (self.entries@.len() > 0 ==> self.selected < self.entries@.len())
        &&& self.button_hints.inv()
        &&& self.search_view.wf()
    }

    /// Builds the list in a sort mode.
    pub fn new(rect: Rect, res: &Resources, sort: RecentsSort, selected: usize) -> (v: RecentsList)
        requires
            res.inv(),
        ensures
            v.wf(),
            v.sort == sort,
            v.search_view.state is Inactive,
    {
        let entries = sort.entries(&res.database);
        let sel: usize = if entries.len() == 0 {
            0
        } else if selected < entries.len() {
            selected
        } else {
            entries.len() - 1
        };
        let hx = sat_add(rect.x, 12);
        let hy = sat_add(sat_add(rect.y, rect.h as i32), -40);
        let mut hints: Vec<ButtonHint> = Vec::new();
        hints.push(
            ButtonHint::new(
                Point::new(hx, hy),
                Key::X,
                res.locale.t("sort-search"),
                Alignment::Left,
            ),
        );
        let button_hints = Row::new(Point::new(hx, hy), hints, Alignment::Left, 12);
        RecentsList {
            rect,
            entries,
            selected: sel,
            sort,
            button_hints,
            search_view: SearchView::new(res),
            dirty: true,
        }
    }

    /// Restores the list; without a persisted state it opens on recency.
    pub fn load_or_new(rect: Rect, res: Resources, state: Option<RecentsListState>) -> (v:
        RecentsList)
        requires
            res.inv(),
        ensures
            v.wf(),
            state matches Some(s) ==> v.sort == s.sort,
            state is None ==> v.sort == RecentsSort::LastPlayed,
            v.search_view.state is Inactive,
    {
        match state {
            Some(s) => Self::new(rect, &res, s.sort, s.selected),
            None => Self::new(rect, &res, RecentsSort::LastPlayed, 0),
        }
    }

    /// The state to persist.
    pub fn save(&self) -> (r: RecentsListState)
        ensures
            r.selected == self.selected,
            r.sort == self.sort,
    {
        let sort = match &self.sort {
            RecentsSort::LastPlayed => RecentsSort::LastPlayed,
            RecentsSort::MostPlayed => RecentsSort::MostPlayed,
            RecentsSort::Favorites => RecentsSort::Favorites,
            RecentsSort::Random => RecentsSort::Random,
            RecentsSort::Search(q) => RecentsSort::Search(q.clone()),
        };
        RecentsListState { sort, selected: self.selected }
    }

    /// Opens the search overlay.
    pub fn start_search(&mut self)
        requires
            old(self).wf(),
        ensures
            final(self).wf(),
            final(self).search_view.state is Active,
            final(self).entries == old(self).entries,
            final(self).selected == old(self).selected,
            final(self).sort == old(self).sort,
    {
        self.search_view.activate();
    }

    /// Dismisses the search overlay.
    pub fn close_search(&mut self)
        requires
            old(self).wf(),
        ensures
            final(self).wf(),
            final(self).search_view.state is Inactive,
            final(self).tree_dirty(),
    {
        self.search_view.deactivate();
        self.dirty = true;
    }
}

impl ViewNode for RecentsList {
    open spec fn inv(&self) -> bool {
        self.wf()
    }

    open spec fn tree_dirty(&self) -> bool {
        self.dirty || self.button_hints.tree_dirty() || self.search_view.tree_dirty()
    }

    open spec fn draws_no_background(&self) -> bool {
        false
    }

    fn should_draw(&self) -> (r: bool) {
        self.dirty || self.button_hints.should_draw() || self.search_view.should_draw()
    }

    /// Marks this node and every descendant it owns.
    fn set_should_draw(&mut self)
        ensures
            final(self).dirty,
            final(self).button_hints.tree_dirty(),
            final(self).search_view.tree_dirty(),
            final(self).entries == old(self).entries,
            final(self).selected == old(self).selected,
    {
        self.dirty = true;
        self.button_hints.set_should_draw();
        self.search_view.set_should_draw();
    }

    /// The list clears its region exactly once per dirty cycle, first,
    /// never once per row; a clean list clears nothing.
    fn draw(&mut self, display: &mut DisplayLog, styles: &Stylesheet) -> (drawn: bool)
        ensures
            old(self).dirty ==> (drawn && final(display).appended_since(*old(display))[0]
                == crate::display::DrawOp::Invalidate(old(self).rect)),
            crate::display::count_invalidates(final(display).appended_since(*old(display)))
                == if old(self).dirty {
                1int
            } else {
                0int
            },
    {
        let ghost base = *display;
        let mut drawn = false;
        if self.dirty {
            {
                drawn = true;
                display.load(self.rect);
                proof {
                    assert(display.appended_since(base) =~= seq![
                        crate::display::DrawOp::Invalidate(self.rect),
                    ]);
                    crate::display::lemma_count_invalidates_singleton(
                        crate::display::DrawOp::Invalidate(self.rect),
                    );
                }
                // One caption per visible entry; the selected row carries
                // the highlight.
                let n = self.entries.len();
                let mut i: usize = 0;
                let mut y: i32 = self.rect.y;
                while i < n
                    invariant
                        self.wf(),
                        n == self.entries@.len(),
                        0 <= i <= n,
                        display.extends(base),
                        display.ops@.len() > base.ops@.len(),
                        display.appended_since(base)[0] == crate::display::DrawOp::Invalidate(
                            self.rect,
                        ),
                        crate::display::count_invalidates(display.appended_since(base)) == 1,
                    decreases n - i,
                {
                    let ghost prev = *display;
                    if i == self.selected {
                        display.rounded(
                            Rect::new(self.rect.x, y, self.rect.w, styles.ui_font.size),
                            4,
                            styles.highlight_color,
                        );
                    }
                    display.text(
                        Point::new(sat_add(self.rect.x, 12), y),
                        self.entries[i].name.clone(),
                        Alignment::Left,
                        styles.foreground_color,
                    );
                    proof {
                        crate::display::lemma_extends_trans(base, prev, *display);
                        crate::display::lemma_count_invalidates_split(
                            base.ops@,
                            prev.ops@,
                            display.ops@,
                        );
                        crate::display::lemma_count_invalidates_none(
                            display.ops@.skip(prev.ops@.len() as int),
                        );
                    }
                    let step: i32 = if styles.ui_font.size > (i32::MAX as u32) {
                        i32::MAX
                    } else {
                        styles.ui_font.size as i32
                    };
                    y = sat_add(y, step);
                    i += 1;
                }
            }
            self.dirty = false;
        } else {
            proof {
                assert(display.appended_since(base) =~= Seq::<
                    crate::display::DrawOp,
                >::empty());
            }
        }
        let ghost m1 = *display;
        proof {
            assert(self.button_hints.draws_no_background());
        }
        let d1 = self.button_hints.draw(display, styles);
        proof {
            crate::display::lemma_extends_trans(base, m1, *display);
            crate::display::lemma_count_invalidates_split(base.ops@, m1.ops@, display.ops@);
        }
        let ghost m2 = *display;
        let d2 = self.search_view.draw(display, styles);
        proof {
            crate::display::lemma_extends_trans(base, m2, *display);
            crate::display::lemma_count_invalidates_split(base.ops@, m2.ops@, display.ops@);
            if old(self).dirty {
                assert(display.ops@.take(m1.ops@.len() as int)[base.ops@.len() as int]
                    == m1.ops@[base.ops@.len() as int]);
            }
        }
        drawn || d1 || d2
    }

    /// The typing overlay short-circuits the list; otherwise the search
    /// key opens or cancels the overlay and up and down move the
    /// selection.
    fn handle_key_event(&mut self, event: KeyEvent, commands: &mut CommandSink, bubble: &mut Bubble)
        -> (consumed: bool)
        ensures
            (old(self).search_view.state is Active && crate::search::clean_bubble(old(bubble)@))
                ==> (final(self).entries == old(self).entries && final(self).selected == old(
                self,
            ).selected && final(self).sort == old(self).sort),
            old(self).search_view.state is Inactive ==> {
                &&& (event == KeyEvent::Pressed(Key::X)) ==> (consumed
                    && final(self).search_view.state is Active && final(commands).sent@
                    =~= old(commands).sent@)
                &&& (event == KeyEvent::Pressed(Key::Up) || event == KeyEvent::Autorepeat(Key::Up))
                    ==> (consumed && final(self).selected == if old(self).selected > 0 {
                    (old(self).selected - 1) as usize
                } else {
                    old(self).selected
                } && final(commands).sent@ =~= old(commands).sent@)
                &&& (event == KeyEvent::Pressed(Key::Down) || event == KeyEvent::Autorepeat(
                    Key::Down,
                )) ==> (consumed && final(self).selected == if old(self).entries@.len() > 0 && old(
                    self,
                ).selected < old(self).entries@.len() - 1 {
                    (old(self).selected + 1) as usize
                } else {
                    old(self).selected
                } && final(commands).sent@ =~= old(commands).sent@)
                &&& final(self).entries == old(self).entries
                &&& final(self).sort == old(self).sort
            },
            (old(self).search_view.state is Searching && event == KeyEvent::Pressed(Key::X)) ==> (
            consumed && final(self).search_view.state is Inactive && final(commands).sent@
                =~= old(commands).sent@.push(Command::Redraw)),
    {
        // The search overlay intercepts events while it is active.
        if self.search_view.is_active() {
            let handled = self.search_view.handle_key_event(event, commands, bubble);
            if handled {
                return true;
            }
        }
        match event {
            KeyEvent::Pressed(Key::X) => {
                if !self.search_view.is_active() {
                    self.start_search();
                } else {
                    self.search_view.deactivate();
                    commands.send(Command::Redraw);
                }
                true
            },
            KeyEvent::Pressed(Key::Up) | KeyEvent::Autorepeat(Key::Up) => {
                if self.selected > 0 {
                    self.selected = self.selected - 1;
                    self.dirty = true;
                }
                true
            },
            KeyEvent::Pressed(Key::Down) | KeyEvent::Autorepeat(Key::Down) => {
                if self.entries.len() > 0 && self.selected < self.entries.len() - 1 {
                    self.selected = self.selected + 1;
                    self.dirty = true;
                }
                true
            },
            _ => false,
        }
    }

    fn bounding_box(&self, styles: &Stylesheet) -> (r: Rect)
        ensures
            r == self.rect,
    {
        self.rect
    }

    fn set_position(&mut self, point: Point) -> (supported: bool) {
        false
    }
}

} // verus!

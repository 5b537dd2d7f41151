//! The search results screen: the games answering a query, re-sortable,
//! with the query editable through the search overlay.

use vstd::prelude::*;

use crate::command::{Bubble, Command, CommandSink};
use crate::database::{matches_of, take_limit, Database, GameRow};
use crate::display::DisplayLog;
use crate::entry::Game;
use crate::geom::{sat_add, Alignment, Point, Rect};
use crate::key::{Key, KeyEvent};
use crate::locale::Locale;
use crate::recents::RECENT_GAMES_LIMIT;
use crate::resources::Resources;
use crate::search::SearchView;
use crate::sorting::{sort_rows, sort_rows_exec, RowOrder};
use crate::style::Stylesheet;
use crate::view::ViewNode;
use crate::widgets::{ButtonHint, Label, Row};

verus! {

/// The sort modes of the results, each carrying the query they order.
#[derive(Debug, PartialEq, Eq)]
pub enum SearchResultsSort {
    /// The database's own answer order.
    Relevance(String),
    /// Case-folded name, A to Z.
    Alphabetical(String),
    /// Most recently played first.
    LastPlayed(String),
    /// Highest play count first.
    MostPlayed(String),
}

impl SearchResultsSort {
    /// The query this mode orders.
    pub fn query(&self) -> (r: &String)
        ensures
            *r == self.spec_query(),
    {
        match self {
            SearchResultsSort::Relevance(q) => q,
            SearchResultsSort::Alphabetical(q) => q,
            SearchResultsSort::LastPlayed(q) => q,
            SearchResultsSort::MostPlayed(q) => q,
        }
    }

    pub open spec fn spec_query(self) -> String {
        match self {
            SearchResultsSort::Relevance(q) => q,
            SearchResultsSort::Alphabetical(q) => q,
            SearchResultsSort::LastPlayed(q) => q,
            SearchResultsSort::MostPlayed(q) => q,
        }
    }

    /// The next mode in the cycle, keeping the query.
    pub fn next(&self) -> (r: SearchResultsSort)
        ensures
            r.spec_query()@ == self.spec_query()@,
            (self is Relevance ==> r is Alphabetical) && (self is Alphabetical ==> r is LastPlayed)
                && (self is LastPlayed ==> r is MostPlayed) && (self is MostPlayed ==> r
                is Relevance),
    {
        let q = self.query().clone();
        match self {
            SearchResultsSort::Relevance(_) => SearchResultsSort::Alphabetical(q),
            SearchResultsSort::Alphabetical(_) => SearchResultsSort::LastPlayed(q),
            SearchResultsSort::LastPlayed(_) => SearchResultsSort::MostPlayed(q),
            SearchResultsSort::MostPlayed(_) => SearchResultsSort::Relevance(q),
        }
    }

    /// The rows shown: the query's matches, reordered per mode.
    pub open spec fn spec_rows(self, db: Database) -> Seq<GameRow> {
        let matches = take_limit(matches_of(db.games@, self.spec_query()@), RECENT_GAMES_LIMIT as int);
        match self {
            SearchResultsSort::Relevance(_) => matches,
            SearchResultsSort::Alphabetical(_) => sort_rows(RowOrder::Alphabetical, matches),
            SearchResultsSort::LastPlayed(_) => sort_rows(RowOrder::LastPlayed, matches),
            SearchResultsSort::MostPlayed(_) => sort_rows(RowOrder::MostPlayed, matches),
        }
    }

    /// Fetches and orders the matching rows.
    pub fn entries(&self, database: &Database) -> (r: Vec<GameRow>)
        ensures
            r@ =~= self.spec_rows(*database),
    {
        let matches = database.search(self.query(), RECENT_GAMES_LIMIT);
        match self {
            SearchResultsSort::Relevance(_) => matches,
            SearchResultsSort::Alphabetical(_) => sort_rows_exec(RowOrder::Alphabetical, &matches),
            SearchResultsSort::LastPlayed(_) => sort_rows_exec(RowOrder::LastPlayed, &matches),
            SearchResultsSort::MostPlayed(_) => sort_rows_exec(RowOrder::MostPlayed, &matches),
        }
    }
}

/// The results screen.
#[derive(Debug)]
pub struct SearchResultsView {
    pub rect: Rect,
    pub query: String,
    pub entries: Vec<Game>,
    pub selected: usize,
    pub header: Label,
    pub result_count: Label,
    pub button_hints: Row<ButtonHint>,
    pub search_view: SearchView,
    pub dirty: bool,
}

impl SearchResultsView {
    pub open spec fn wf(&self) -> bool {
        &&& (self.entries@.len() > 0 ==> self.selected < self.entries@.len())
        &&& self.button_hints.inv()
        &&& self.search_view.wf()
    }

    /// Builds the screen for a query, in relevance order.
    pub fn new(rect: Rect, res: &Resources, query: String) -> (v: SearchResultsView)
        requires
            res.inv(),
        ensures
            v.wf(),
            v.query == query,
            v.entries@.len() == take_limit(
                matches_of(res.database.games@, query@),
                RECENT_GAMES_LIMIT as int,
            ).len(),
    {
        let rows = database_matches(&res.database, &query);
        let mut entries: Vec<Game> = Vec::new();
        let n = rows.len();
        let mut i: usize = 0;
        while i < n
            invariant
                n == rows@.len(),
                0 <= i <= n,
                entries@.len() == i,
            decreases n - i,
        {
            let g = Game::from_row(&rows[i]);
            entries.push(g);
            i += 1;
        }
        let header = Label::new(
            Point::new(sat_add(rect.x, 12), sat_add(rect.y, 8)),
            query.clone(),
            Alignment::Left,
            Some(
                if rect.w >= 24 {
                    rect.w - 24
                } else {
                    0
                },
            ),
        );
        let count_text = crate::numtext::usize_to_string(entries.len());
        let result_count = Label::new(
            Point::new(sat_add(rect.x, 12), sat_add(rect.y, 28)),
            count_text,
            Alignment::Left,
            None,
        );
        let hx = sat_add(sat_add(rect.x, rect.w as i32), -12);
        let hy = sat_add(sat_add(rect.y, rect.h as i32), -40);
        let mut hints: Vec<ButtonHint> = Vec::new();
        hints.push(
            ButtonHint::new(
                Point::new(hx, hy),
                Key::A,
                res.locale.t("button-launch"),
                Alignment::Right,
            ),
        );
        hints.push(
            ButtonHint::new(
                Point::new(hx, hy),
                Key::B,
                res.locale.t("button-back"),
                Alignment::Right,
            ),
        );
        hints.push(
            ButtonHint::new(
                Point::new(hx, hy),
                Key::Y,
                res.locale.t("button-sort"),
                Alignment::Right,
            ),
        );
        hints.push(
            ButtonHint::new(
                Point::new(hx, hy),
                Key::X,
                res.locale.t("button-edit-search"),
                Alignment::Right,
            ),
        );
        let button_hints = Row::new(Point::new(hx, hy), hints, Alignment::Right, 12);
        SearchResultsView {
            rect,
            query,
            entries,
            selected: 0,
            header,
            result_count,
            button_hints,
            search_view: SearchView::new(res),
            dirty: true,
        }
    }

    /// Replaces the query and reloads the results in relevance order.
    pub fn update_query(&mut self, res: &Resources, new_query: String)
        requires
            old(self).wf(),
            res.inv(),
        ensures
            final(self).wf(),
            final(self).query == new_query,
            final(self).entries@.len() == take_limit(
                matches_of(res.database.games@, new_query@),
                RECENT_GAMES_LIMIT as int,
            ).len(),
    {
        let rows = database_matches(&res.database, &new_query);
        let mut entries: Vec<Game> = Vec::new();
        let n = rows.len();
        let mut i: usize = 0;
        while i < n
            invariant
                n == rows@.len(),
                0 <= i <= n,
                entries@.len() == i,
            decreases n - i,
        {
            let g = Game::from_row(&rows[i]);
            entries.push(g);
            i += 1;
        }
        let count_text = crate::numtext::usize_to_string(entries.len());
        self.header.set_text(new_query.clone());
        self.result_count.set_text(count_text);
        self.selected = 0;
        self.entries = entries;
        self.query = new_query;
        self.dirty = true;
    }
}

/// The rows answering a query, in the database's answer order.
fn database_matches(database: &Database, query: &String) -> (r: Vec<GameRow>)
    ensures
        r@ =~= take_limit(matches_of(database.games@, query@), RECENT_GAMES_LIMIT as int),
{
    database.search(query, RECENT_GAMES_LIMIT)
}

impl ViewNode for SearchResultsView {
    open spec fn inv(&self) -> bool {
        self.wf()
    }

    open spec fn tree_dirty(&self) -> bool {
        self.dirty || self.header.tree_dirty() || self.result_count.tree_dirty()
            || self.button_hints.tree_dirty() || self.search_view.tree_dirty()
    }

    open spec fn draws_no_background(&self) -> bool {
        false
    }

    fn should_draw(&self) -> (r: bool) {
        self.dirty || self.header.should_draw() || self.result_count.should_draw()
            || self.button_hints.should_draw() || self.search_view.should_draw()
    }

    /// Marks this node and every descendant it owns.
    fn set_should_draw(&mut self)
        ensures
            final(self).dirty,
            final(self).header.tree_dirty(),
            final(self).result_count.tree_dirty(),
            final(self).button_hints.tree_dirty(),
            final(self).search_view.tree_dirty(),
            final(self).entries == old(self).entries,
            final(self).selected == old(self).selected,
            final(self).query == old(self).query,
    {
        self.dirty = true;
        self.header.set_should_draw();
        self.result_count.set_should_draw();
        self.button_hints.set_should_draw();
        self.search_view.set_should_draw();
    }

    /// The results screen clears its region exactly once per dirty cycle,
    /// first, never once per row; a clean screen clears nothing.
    fn draw(&mut self, display: &mut DisplayLog, styles: &Stylesheet) -> (drawn: bool)
        ensures
            old(self).dirty ==> (drawn && final(display).appended_since(*old(display))[0]
                == crate::display::DrawOp::Invalidate(old(self).rect)),
            crate::display::count_invalidates(final(display).appended_since(*old(display)))
                == if old(self).dirty {
                1int
            } else {
                0int
            },
    {
        let ghost base = *display;
        let mut drawn = false;
        if self.dirty {
            display.load(self.rect);
            proof {
                assert(display.appended_since(base) =~= seq![
                    crate::display::DrawOp::Invalidate(self.rect),
                ]);
                crate::display::lemma_count_invalidates_singleton(
                    crate::display::DrawOp::Invalidate(self.rect),
                );
            }
            // One caption per result row.
            let n = self.entries.len();
            let mut i: usize = 0;
            let mut y: i32 = sat_add(self.rect.y, 48);
            while i < n
                invariant
                    self.wf(),
                    n == self.entries@.len(),
                    0 <= i <= n,
                    display.extends(base),
                    display.ops@.len() > base.ops@.len(),
                    display.appended_since(base)[0] == crate::display::DrawOp::Invalidate(
                        self.rect,
                    ),
                    crate::display::count_invalidates(display.appended_since(base)) == 1,
                decreases n - i,
            {
                let ghost prev = *display;
                if i == self.selected {
                    display.rounded(
                        Rect::new(self.rect.x, y, self.rect.w, styles.ui_font.size),
                        4,
                        styles.highlight_color,
                    );
                }
                display.text(
                    Point::new(sat_add(self.rect.x, 12), y),
                    self.entries[i].name.clone(),
                    Alignment::Left,
                    styles.foreground_color,
                );
                proof {
                    crate::display::lemma_extends_trans(base, prev, *display);
                    crate::display::lemma_count_invalidates_split(
                        base.ops@,
                        prev.ops@,
                        display.ops@,
                    );
                    crate::display::lemma_count_invalidates_none(
                        display.ops@.skip(prev.ops@.len() as int),
                    );
                }
                let step: i32 = if styles.ui_font.size > (i32::MAX as u32) {
                    i32::MAX
                } else {
                    styles.ui_font.size as i32
                };
                y = sat_add(y, step);
                i += 1;
            }
            self.dirty = false;
            drawn = true;
        } else {
            proof {
                assert(display.appended_since(base) =~= Seq::<
                    crate::display::DrawOp,
                >::empty());
            }
        }
        let ghost m0 = *display;
        let d0 = self.header.draw(display, styles);
        proof {
            crate::display::lemma_extends_trans(base, m0, *display);
            crate::display::lemma_count_invalidates_split(base.ops@, m0.ops@, display.ops@);
        }
        let ghost m1 = *display;
        let d1 = self.result_count.draw(display, styles);
        proof {
            crate::display::lemma_extends_trans(base, m1, *display);
            crate::display::lemma_count_invalidates_split(base.ops@, m1.ops@, display.ops@);
        }
        let ghost m2 = *display;
        proof {
            assert(self.button_hints.draws_no_background());
        }
        let d2 = self.button_hints.draw(display, styles);
        proof {
            crate::display::lemma_extends_trans(base, m2, *display);
            crate::display::lemma_count_invalidates_split(base.ops@, m2.ops@, display.ops@);
        }
        let ghost m3 = *display;
        let d3 = self.search_view.draw(display, styles);
        proof {
            crate::display::lemma_extends_trans(base, m3, *display);
            crate::display::lemma_count_invalidates_split(base.ops@, m3.ops@, display.ops@);
            if old(self).dirty {
                assert(display.ops@.take(m0.ops@.len() as int)[base.ops@.len() as int]
                    == m0.ops@[base.ops@.len() as int]);
            }
        }
        drawn || d0 || d1 || d2 || d3
    }

    /// While its own overlay is closed: back bubbles the close request to
    /// the owner, the edit key reopens the overlay pre-filled with the
    /// query, and up and down move the selection.
    fn handle_key_event(&mut self, event: KeyEvent, commands: &mut CommandSink, bubble: &mut Bubble)
        -> (consumed: bool)
        ensures
            old(self).search_view.state is Inactive ==> {
                &&& (event == KeyEvent::Pressed(Key::B)) ==> (consumed && final(bubble)@
                    =~= old(bubble)@.push(Command::CloseView) && final(commands).sent@
                    =~= old(commands).sent@)
                &&& (event == KeyEvent::Pressed(Key::X)) ==> (consumed && final(self).search_view.state
                    is Active && (final(self).search_view.keyboard matches Some(k) && k.text@
                    == old(self).query@) && final(commands).sent@ =~= old(commands).sent@.push(
                    Command::Redraw,
                ) && final(bubble)@ =~= old(bubble)@)
                &&& (event == KeyEvent::Pressed(Key::Up) || event == KeyEvent::Autorepeat(Key::Up))
                    ==> (consumed && final(self).selected == if old(self).selected > 0 {
                    (old(self).selected - 1) as usize
                } else {
                    old(self).selected
                } && final(commands).sent@ =~= old(commands).sent@ && final(bubble)@
                    =~= old(bubble)@)
                &&& (event == KeyEvent::Pressed(Key::Down) || event == KeyEvent::Autorepeat(
                    Key::Down,
                )) ==> (consumed && final(self).selected == if old(self).entries@.len() > 0 && old(
                    self,
                ).selected < old(self).entries@.len() - 1 {
                    (old(self).selected + 1) as usize
                } else {
                    old(self).selected
                } && final(commands).sent@ =~= old(commands).sent@ && final(bubble)@
                    =~= old(bubble)@)
                &&& final(self).entries == old(self).entries
                &&& final(self).query == old(self).query
            },
    {
        // The overlay edits the query while it is active.
        if self.search_view.is_active() {
            let handled = self.search_view.handle_key_event(event, commands, bubble);
            if handled {
                return true;
            }
        }
        match event {
            KeyEvent::Pressed(Key::B) => {
                // Going back is the owner's affair; bubble it.
                bubble.push(Command::CloseView);
                true
            },
            KeyEvent::Pressed(Key::X) => {
                let q = self.query.clone();
                self.search_view.activate_with_value(q);
                commands.send(Command::Redraw);
                true
            },
            KeyEvent::Pressed(Key::Up) | KeyEvent::Autorepeat(Key::Up) => {
                if self.selected > 0 {
                    self.selected = self.selected - 1;
                    self.dirty = true;
                }
                true
            },
            KeyEvent::Pressed(Key::Down) | KeyEvent::Autorepeat(Key::Down) => {
                if self.entries.len() > 0 && self.selected < self.entries.len() - 1 {
                    self.selected = self.selected + 1;
                    self.dirty = true;
                }
                true
            },
            _ => false,
        }
    }

    fn bounding_box(&self, styles: &Stylesheet) -> (r: Rect)
        ensures
            r == self.rect,
    {
        self.rect
    }

    fn set_position(&mut self, point: Point) -> (supported: bool) {
        false
    }
}

} // verus!

//! The launcher root: four tabs (recents, games, apps, settings) under a
//! status bar, with the search overlay and the results screen layered on
//! top. Exactly one path from this root to a leaf is active at a time.

use vstd::prelude::*;

use crate::command::{Bubble, Command, CommandSink};
use crate::display::DisplayLog;
use crate::geom::{sat_add, Alignment, Point, Rect};
use crate::key::{Key, KeyEvent};
use crate::recents::{Recents, RecentsState};
use crate::resources::Resources;
use crate::search::{clean_bubble, SearchView};
use crate::search_results::SearchResultsView;
use crate::style::{Stylesheet, StylesheetColor};
use crate::theme::Theme;
use crate::view::ViewNode;
use crate::widgets::{Label, Row};

verus! {

/// A tab whose content is an external collaborator (the games browser and
/// the apps list); the shell keeps its place in the tab row and its dirty
/// cycle.
#[derive(Debug)]
pub struct TabPane {
    pub rect: Rect,
    pub title: Label,
    pub dirty: bool,
}

impl TabPane {
    pub fn new(rect: Rect, title: String) -> (v: TabPane)
        ensures
            v.dirty,
    {
        TabPane {
            rect,
            title: Label::new(
                Point::new(sat_add(rect.x, 12), sat_add(rect.y, 8)),
                title,
                Alignment::Left,
                None,
            ),
            dirty: true,
        }
    }
}

impl ViewNode for TabPane {
    open spec fn inv(&self) -> bool {
        true
    }

    open spec fn tree_dirty(&self) -> bool {
        self.dirty || self.title.tree_dirty()
    }

    open spec fn draws_no_background(&self) -> bool {
        false
    }

    fn should_draw(&self) -> (r: bool) {
        self.dirty || self.title.should_draw()
    }

    /// Marks the pane and its title, the one descendant it owns.
    fn set_should_draw(&mut self)
        ensures
            final(self).dirty,
            final(self).title.tree_dirty(),
    {
        self.dirty = true;
        self.title.set_should_draw();
    }

    /// The pane clears its region exactly once per dirty cycle, before its
    /// title; a clean pane clears nothing.
    fn draw(&mut self, display: &mut DisplayLog, styles: &Stylesheet) -> (drawn: bool)
        ensures
            old(self).dirty ==> (drawn && final(display).appended_since(*old(display))[0]
                == crate::display::DrawOp::Invalidate(old(self).rect)),
            crate::display::count_invalidates(final(display).appended_since(*old(display)))
                == if old(self).dirty {
                1int
            } else {
                0int
            },
    {
        let ghost base = *display;
        let mut drawn = false;
        if self.dirty {
            display.load(self.rect);
            proof {
                assert(display.appended_since(base) =~= seq![
                    crate::display::DrawOp::Invalidate(self.rect),
                ]);
                crate::display::lemma_count_invalidates_singleton(
                    crate::display::DrawOp::Invalidate(self.rect),
                );
            }
            self.dirty = false;
            drawn = true;
        }
        let ghost m0 = *display;
        proof {
            if !old(self).dirty {
                assert(display.appended_since(base) =~= Seq::<
                    crate::display::DrawOp,
                >::empty());
            }
        }
        let d = self.title.draw(display, styles);
        proof {
            crate::display::lemma_extends_trans(base, m0, *display);
            crate::display::lemma_count_invalidates_split(base.ops@, m0.ops@, display.ops@);
        }
        drawn || d
    }

    fn handle_key_event(&mut self, event: KeyEvent, commands: &mut CommandSink, bubble: &mut Bubble)
        -> (consumed: bool)
        ensures
            final(commands).sent@ =~= old(commands).sent@,
            final(bubble)@ =~= old(bubble)@,
            !consumed,
    {
        false
    }

    fn bounding_box(&self, styles: &Stylesheet) -> (r: Rect)
        ensures
            r == self.rect,
    {
        self.rect
    }

    fn set_position(&mut self, point: Point) -> (supported: bool) {
        false
    }
}

/// The persisted launcher state.
#[derive(Debug)]
pub struct AppState {
    pub selected: usize,
    pub recents: RecentsState,
    /// The selected row of the theme screen on the settings tab.
    pub settings_selected: usize,
}

/// The launcher root view.
pub struct App {
    pub rect: Rect,
    pub res: Resources,
    pub status_bar: Row<Label>,
    pub views: (Recents, TabPane, TabPane, Theme),
    pub selected: usize,
    pub tabs: Row<Label>,
    pub search_results: Option<SearchResultsView>,
    pub search_view: SearchView,
    pub tab_before_search: Option<usize>,
    pub dirty: bool,
}

impl App {
    pub open spec fn wf(&self) -> bool {
        &&& self.res.inv()
        &&& self.selected < 4
        &&& self.status_bar.inv()
        &&& self.tabs.inv()
        &&& self.tabs.children@.len() == 4
        &&& self.views.0.inv()
        &&& self.views.3.wf()
        &&& (self.search_results matches Some(sr) ==> sr.wf())
        &&& self.search_view.wf()
    }

    /// Builds the root over restored tab views.
    pub fn new(
        rect: Rect,
        res: Resources,
        views: (Recents, TabPane, TabPane, Theme),
        selected: usize,
    ) -> (v: App)
        requires
            res.inv(),
            views.0.inv(),
            views.3.wf(),
        ensures
            v.wf(),
            v.selected == if selected < 4 {
                selected as int
            } else {
                0
            },
            v.search_results is None,
            v.search_view.state is Inactive,
            v.tab_before_search is None,
    {
        let selected: usize = if selected < 4 {
            selected
        } else {
            0
        };
        let mut status_items: Vec<Label> = Vec::new();
        status_items.push(
            Label::new(Point::new(0, 0), res.locale.t("status-battery"), Alignment::Right, None),
        );
        if res.styles.show_clock {
            status_items.push(
                Label::new(Point::new(0, 0), res.locale.t("status-clock"), Alignment::Right, None),
            );
        }
        let status_bar = Row::new(
            Point::new(sat_add(sat_add(rect.x, rect.w as i32), -12), sat_add(rect.y, 8)),
            status_items,
            Alignment::Right,
            8,
        );
        let mut tab_labels: Vec<Label> = Vec::new();
        tab_labels.push(
            Label::new(Point::new(0, 0), res.locale.t("tab-recents"), Alignment::Left, None),
        );
        tab_labels.push(
            Label::new(Point::new(0, 0), res.locale.t("tab-games"), Alignment::Left, None),
        );
        tab_labels.push(
            Label::new(Point::new(0, 0), res.locale.t("tab-apps"), Alignment::Left, None),
        );
        tab_labels.push(
            Label::new(Point::new(0, 0), res.locale.t("tab-settings"), Alignment::Left, None),
        );
        let mut i: usize = 0;
        while i < 4
            invariant
                0 <= i <= 4,
                tab_labels@.len() == 4,
            decreases 4 - i,
        {
            let l = &mut tab_labels[i];
            l.color(StylesheetColor::Tab);
            i += 1;
        }
        let sel_label = &mut tab_labels[selected];
        sel_label.color(StylesheetColor::TabSelected);
        let tabs = Row::new(
            Point::new(sat_add(rect.x, 12), sat_add(rect.y, 8)),
            tab_labels,
            Alignment::Left,
            12,
        );
        let search_view = SearchView::new(&res);
        App {
            rect,
            res,
            status_bar,
            views,
            selected,
            tabs,
            search_results: None,
            search_view,
            tab_before_search: None,
            dirty: true,
        }
    }

    /// Restores the launcher; persisted state that cannot be used arrives
    /// as `None` and yields the defaults, games tab selected.
    pub fn load_or_new(rect: Rect, res: Resources, state: Option<AppState>, fonts: Vec<String>)
        -> (v: App)
        requires
            res.inv(),
        ensures
            v.wf(),
            state is None ==> v.selected == 1,
    {
        let tab_rect = Rect::new(
            rect.x,
            sat_add(rect.y, 40),
            rect.w,
            if rect.h >= 40 {
                rect.h - 40
            } else {
                0
            },
        );
        let res2 = clone_resources(&res);
        match state {
            Some(s) => {
                let views = (
                    Recents::load_or_new(tab_rect, res2, Some(s.recents)),
                    TabPane::new(tab_rect, res.locale.t("tab-games")),
                    TabPane::new(tab_rect, res.locale.t("tab-apps")),
                    Theme::new(
                        tab_rect,
                        &res,
                        fonts,
                        if s.selected == 3 {
                            Some(s.settings_selected)
                        } else {
                            None
                        },
                    ),
                );
                Self::new(rect, res, views, s.selected)
            },
            None => {
                let views = (
                    Recents::load_or_new(tab_rect, res2, None),
                    TabPane::new(tab_rect, res.locale.t("tab-games")),
                    TabPane::new(tab_rect, res.locale.t("tab-apps")),
                    Theme::new(tab_rect, &res, fonts, None),
                );
                Self::new(rect, res, views, 1)
            },
        }
    }

    /// The state to persist.
    pub fn save(&self) -> (r: AppState)
        requires
            self.wf(),
        ensures
            r.selected == self.selected,
    {
        AppState {
            selected: self.selected,
            recents: self.views.0.save(),
            settings_selected: self.views.3.save(),
        }
    }

    /// Moves the highlight to another tab and wakes both tabs' content.
    pub fn tab_change(&mut self, selected: usize)
        requires
            old(self).wf(),
            selected < 4,
        ensures
            final(self).wf(),
            final(self).selected == selected,
            final(self).tree_dirty(),
    {
        let prev = self.selected;
        let l = &mut self.tabs.children[prev];
        l.color(StylesheetColor::Tab);
        self.selected = selected;
        let l2 = &mut self.tabs.children[selected];
        l2.color(StylesheetColor::TabSelected);
        self.dirty = true;
        self.status_bar.set_should_draw();
        self.tabs.set_should_draw();
        match self.selected {
            0 => self.views.0.set_should_draw(),
            1 => self.views.1.set_should_draw(),
            2 => self.views.2.set_should_draw(),
            _ => self.views.3.set_should_draw(),
        }
    }

    /// The tab to the right, wrapping.
    pub fn next(&mut self)
        requires
            old(self).wf(),
        ensures
            final(self).wf(),
            final(self).selected == (old(self).selected + 1) % 4,
    {
        let selected = (self.selected + 1) % 4;
        self.tab_change(selected);
    }

    /// The tab to the left, wrapping.
    pub fn prev(&mut self)
        requires
            old(self).wf(),
        ensures
            final(self).wf(),
            final(self).selected == (old(self).selected + 3) % 4,
    {
        let selected = (self.selected + 3) % 4;
        self.tab_change(selected);
    }

    /// Opens the search overlay, remembering the tab that had the focus.
    pub fn start_search(&mut self)
        requires
            old(self).wf(),
        ensures
            final(self).wf(),
            final(self).search_view.state is Active,
            final(self).tab_before_search == Some(old(self).selected),
            final(self).selected == old(self).selected,
    {
        self.tab_before_search = Some(self.selected);
        self.search_view.activate();
    }

    /// Shows the results screen for a query, as the root does when a
    /// `Search` command arrives on the bus.
    /// Shows the results screen for a query, as the root does when a
    /// `Search` command arrives on the bus. A query whose overlay is no
    /// longer awaiting results — it was cancelled after submitting — is
    /// dropped, so no cancelled search ever surfaces.
    pub fn search(&mut self, query: String)
        requires
            old(self).wf(),
        ensures
            final(self).wf(),
            old(self).search_view.state is Searching ==> final(self).search_results is Some,
            !(old(self).search_view.state is Searching) ==> *final(self) == *old(self),
    {
        if !matches!(self.search_view.state, crate::search::SearchState::Searching) {
            return ;
        }
        let sr = SearchResultsView::new(self.rect, &self.res, query);
        self.search_results = Some(sr);
    }

    /// Dismisses the results screen and the overlay, and returns the
    /// focus to the tab that had it.
    pub fn close_search_results(&mut self)
        requires
            old(self).wf(),
        ensures
            final(self).wf(),
            final(self).search_results is None,
            final(self).search_view.state is Inactive,
            final(self).tab_before_search is None,
            final(self).selected == old(self).selected,
    {
        self.search_results = None;
        self.search_view.deactivate();
        self.tab_before_search = None;
        self.set_all_dirty();
    }

    /// Marks this node and every descendant it owns: the status bar, the
    /// tab row, all four tab views, the overlay and the results screen.
    fn set_all_dirty(&mut self)
        requires
            old(self).wf(),
        ensures
            final(self).wf(),
            final(self).tree_dirty(),
            final(self).dirty,
            final(self).status_bar.tree_dirty(),
            final(self).tabs.tree_dirty(),
            final(self).views.0.tree_dirty(),
            final(self).views.1.tree_dirty(),
            final(self).views.2.tree_dirty(),
            final(self).views.3.tree_dirty(),
            final(self).search_view.tree_dirty(),
            (final(self).search_results matches Some(sr) ==> sr.tree_dirty()),
            final(self).selected == old(self).selected,
            final(self).search_results is None <==> old(self).search_results is None,
            final(self).search_view.state == old(self).search_view.state,
            final(self).tab_before_search == old(self).tab_before_search,
    {
        self.dirty = true;
        self.status_bar.set_should_draw();
        self.tabs.set_should_draw();
        self.views.0.set_should_draw();
        self.views.1.set_should_draw();
        self.views.2.set_should_draw();
        self.views.3.set_should_draw();
        self.search_view.set_should_draw();
        match &mut self.search_results {
            Some(sr) => sr.set_should_draw(),
            None => {},
        }
    }
}

impl ViewNode for App {
    open spec fn inv(&self) -> bool {
        self.wf()
    }

    open spec fn tree_dirty(&self) -> bool {
        self.dirty || self.status_bar.tree_dirty() || self.tabs.tree_dirty()
            || self.views.0.tree_dirty() || self.views.1.tree_dirty() || self.views.2.tree_dirty()
            || self.views.3.tree_dirty() || self.search_view.tree_dirty() || (
        self.search_results matches Some(sr) && sr.tree_dirty())
    }

    open spec fn draws_no_background(&self) -> bool {
        false
    }

    fn should_draw(&self) -> (r: bool) {
        self.dirty || self.status_bar.should_draw() || self.tabs.should_draw()
            || self.views.0.should_draw() || self.views.1.should_draw()
            || self.views.2.should_draw() || self.views.3.should_draw()
            || self.search_view.should_draw() || (match &self.search_results {
            Some(sr) => sr.should_draw(),
            None => false,
        })
    }

    fn set_should_draw(&mut self) {
        self.set_all_dirty();
    }

    /// The root clears its whole region once per dirty cycle, before any
    /// tab or overlay draws; nested panes clear their own regions within
    /// their own dirty cycles.
    fn draw(&mut self, display: &mut DisplayLog, styles: &Stylesheet) -> (drawn: bool)
        ensures
            old(self).dirty ==> (drawn && final(display).appended_since(*old(display)).len() > 0
                && final(display).appended_since(*old(display))[0]
                == crate::display::DrawOp::Invalidate(old(self).rect)),
    {
        let ghost base = *display;
        let mut drawn = false;
        if self.dirty {
            // The root invalidates its whole region once per dirty cycle.
            display.load(self.rect);
            self.dirty = false;
            drawn = true;
        }
        let ghost m0 = *display;
        let d0 = self.tabs.draw(display, styles);
        proof {
            crate::display::lemma_extends_trans(base, m0, *display);
        }
        let ghost m1 = *display;
        let d1 = self.status_bar.draw(display, styles);
        proof {
            crate::display::lemma_extends_trans(base, m1, *display);
            crate::display::lemma_extends_trans(m0, m1, *display);
        }
        let ghost m2 = *display;
        let d2 = match self.selected {
            0 => self.views.0.draw(display, styles),
            1 => self.views.1.draw(display, styles),
            2 => self.views.2.draw(display, styles),
            _ => self.views.3.draw(display, styles),
        };
        proof {
            crate::display::lemma_extends_trans(base, m2, *display);
            crate::display::lemma_extends_trans(m0, m2, *display);
        }
        // Inactive tabs keep no pending redraws: the pass leaves the
        // whole tree clean.
        let ghost m3 = *display;
        let d3 = match self.selected {
            0 => {
                let a = self.views.1.draw(display, styles);
                let b = self.views.2.draw(display, styles);
                let c = self.views.3.draw(display, styles);
                a || b || c
            },
            1 => {
                let a = self.views.0.draw(display, styles);
                let b = self.views.2.draw(display, styles);
                let c = self.views.3.draw(display, styles);
                a || b || c
            },
            2 => {
                let a = self.views.0.draw(display, styles);
                let b = self.views.1.draw(display, styles);
                let c = self.views.3.draw(display, styles);
                a || b || c
            },
            _ => {
                let a = self.views.0.draw(display, styles);
                let b = self.views.1.draw(display, styles);
                let c = self.views.2.draw(display, styles);
                a || b || c
            },
        };
        proof {
            crate::display::lemma_extends_trans(base, m3, *display);
            crate::display::lemma_extends_trans(m0, m3, *display);
        }
        let ghost m4 = *display;
        let d4 = self.search_view.draw(display, styles);
        proof {
            crate::display::lemma_extends_trans(base, m4, *display);
            crate::display::lemma_extends_trans(m0, m4, *display);
        }
        let ghost m5 = *display;
        let d5 = match &mut self.search_results {
            Some(sr) => sr.draw(display, styles),
            None => false,
        };
        proof {
            crate::display::lemma_extends_trans(base, m5, *display);
            crate::display::lemma_extends_trans(m0, m5, *display);
            if old(self).dirty {
                assert(display.ops@.take(m0.ops@.len() as int)[base.ops@.len() as int]
                    == m0.ops@[base.ops@.len() as int]);
                assert(display.ops@[base.ops@.len() as int]
                    == crate::display::DrawOp::Invalidate(old(self).rect));
            }
        }
        drawn || d0 || d1 || d2 || d3 || d4 || d5
    }

    /// Focus order: the results screen, then the overlay, then the active
    /// tab, and finally the root's own tab switching, taken only when no
    /// node on the active path consumed the event. Cancelling the overlay
    /// — while typing or after a submission, before any results arrive —
    /// leaves no search command on the bus and returns the focus to the
    /// tab that had it.
    fn handle_key_event(&mut self, event: KeyEvent, commands: &mut CommandSink, bubble: &mut Bubble)
        -> (consumed: bool)
        ensures
            (old(self).search_results is None && old(self).search_view.state is Active
                && clean_bubble(old(bubble)@) && event == KeyEvent::Pressed(Key::B)) ==> (consumed
                && final(self).search_view.state is Inactive && final(commands).sent@ =~= old(
                commands,
            ).sent@ && final(self).selected == old(self).selected && final(self).tab_before_search
                == old(self).tab_before_search && final(self).search_results is None),
            (old(self).search_results is None && old(self).search_view.state is Searching && event
                == KeyEvent::Pressed(Key::B)) ==> (consumed && final(self).search_view.state
                is Inactive && final(commands).sent@ =~= old(commands).sent@
                && final(self).selected == old(self).selected
                && final(self).search_results is None),
            (old(self).search_results is None && old(self).search_view.state is Inactive && (old(
                self,
            ).selected == 1 || old(self).selected == 2)) ==> {
                &&& (event == KeyEvent::Pressed(Key::Left)) ==> (consumed && final(self).selected
                    as int == (old(self).selected + 3) % 4)
                &&& (event == KeyEvent::Pressed(Key::Right)) ==> (consumed && final(self).selected
                    as int == (old(self).selected + 1) % 4)
            },
            (old(self).search_results matches Some(sr) && sr.search_view.state is Inactive
                && clean_bubble(old(bubble)@) && event == KeyEvent::Pressed(Key::B)) ==> (consumed
                && final(self).search_results is None && final(self).search_view.state is Inactive
                && final(self).tab_before_search is None && final(commands).sent@ =~= old(
                commands,
            ).sent@),
    {
        // The results screen holds the focus while it is shown.
        let mut close_results = false;
        let ghost b0 = bubble@;
        let results_consumed = match &mut self.search_results {
            Some(sr) => sr.handle_key_event(event, commands, bubble),
            None => false,
        };
        if self.search_results.is_some() {
            if results_consumed {
                // Consume the screen's own close request; queries keep
                // bubbling to the root.
                let ghost b1 = bubble@;
                let mut kept: Bubble = Vec::new();
                let n = bubble.len();
                let mut i: usize = 0;
                assert(bubble@ =~= b1.skip(0));
                while i < n
                    invariant
                        n == b1.len(),
                        0 <= i <= n,
                        bubble@ =~= b1.skip(i as int),
                        close_results == crate::search::has_close(b1.take(i as int)),
                    decreases n - i,
                {
                    assert(b1.skip(i as int)[0] == b1[i as int]);
                    assert(b1.skip(i as int).drop_first() =~= b1.skip(i + 1));
                    assert(b1.take(i + 1).drop_last() =~= b1.take(i as int));
                    assert(b1.take(i + 1).last() == b1[i as int]);
                    let ghost prefix = b1.take(i as int);
                    let c = bubble.remove(0);
                    assert(bubble@ =~= b1.skip(i + 1));
                    match c {
                        Command::CloseView => {
                            close_results = true;
                        },
                        other => {
                            kept.push(other);
                        },
                    }
                    proof {
                        if crate::search::has_close(b1.take(i + 1)) && !(b1[i as int]
                            is CloseView) {
                            let j = choose|j: int|
                                0 <= j < i + 1 && (#[trigger] b1.take(i + 1)[j]) is CloseView;
                            assert(prefix[j] is CloseView);
                        }
                        if crate::search::has_close(prefix) {
                            let j = choose|j: int|
                                0 <= j < i && (#[trigger] prefix[j]) is CloseView;
                            assert(b1.take(i + 1)[j] is CloseView);
                        }
                    }
                    i += 1;
                }
                assert(b1.take(n as int) =~= b1);
                bubble.append(&mut kept);
                proof {
                    if clean_bubble(b0) && event == KeyEvent::Pressed(Key::B) && (old(
                        self,
                    ).search_results matches Some(sr) && sr.search_view.state is Inactive) {
                        assert(b1 =~= b0.push(Command::CloseView));
                        assert(b1[b1.len() - 1] is CloseView);
                        assert(crate::search::has_close(b1));
                    }
                }
                if close_results {
                    self.close_search_results();
                }
                return true;
            }
            return false;
        }
        // The search overlay short-circuits the tree while active.
        if self.search_view.is_active() {
            let handled = self.search_view.handle_key_event(event, commands, bubble);
            if handled {
                return true;
            }
        }
        // The active tab gets the event next.
        let tab_consumed = match self.selected {
            0 => self.views.0.handle_key_event(event, commands, bubble),
            1 => self.views.1.handle_key_event(event, commands, bubble),
            2 => self.views.2.handle_key_event(event, commands, bubble),
            _ => self.views.3.handle_key_event(event, commands, bubble),
        };
        if tab_consumed {
            return true;
        }
        // Global tab switching, only when nothing on the path consumed.
        match event {
            KeyEvent::Pressed(Key::Left) => {
                self.prev();
                true
            },
            KeyEvent::Pressed(Key::Right) => {
                self.next();
                true
            },
            _ => false,
        }
    }

    fn bounding_box(&self, styles: &Stylesheet) -> (r: Rect)
        ensures
            r == self.rect,
    {
        self.rect
    }

    fn set_position(&mut self, point: Point) -> (supported: bool) {
        false
    }
}

/// Copies the resource context for a second owner; the context is
/// read-mostly, so owners see the same values until the root rebuilds it.
pub fn clone_resources(res: &Resources) -> (r: Resources)
    requires
        res.inv(),
    ensures
        r.inv(),
        r.styles == res.styles,
        r.game_info.agrees(res.game_info),
{
    let mut games: Vec<crate::database::GameRow> = Vec::new();
    let n = res.database.games.len();
    let mut i: usize = 0;
    while i < n
        invariant
            n == res.database.games@.len(),
            0 <= i <= n,
            games@ =~= res.database.games@.take(i as int),
        decreases n - i,
    {
        let row = res.database.games[i].clone();
        games.push(row);
        assert(games@ =~= res.database.games@.take(i + 1));
        i += 1;
    }
    assert(res.database.games@.take(n as int) =~= res.database.games@);
    let database = crate::database::Database { games, indexed: res.database.indexed };
    let mut entries: Vec<crate::history::GameHistoryEntry> = Vec::new();
    let hn = res.history.entries.len();
    let mut j: usize = 0;
    while j < hn
        invariant
            hn == res.history.entries@.len(),
            0 <= j <= hn,
            crate::history::views_of(entries@) =~= res.history.view_seq().take(j as int),
        decreases hn - j,
    {
        let ghost ev = crate::history::views_of(entries@);
        let e = res.history.entries[j].clone();
        entries.push(e);
        assert(crate::history::views_of(entries@) =~= ev.push(res.history.view_seq()[j as int]));
        assert(crate::history::views_of(entries@) =~= res.history.view_seq().take(j + 1));
        j += 1;
    }
    assert(res.history.view_seq().take(hn as int) =~= res.history.view_seq());
    let history = crate::history::GameHistory { entries };
    proof {
        assert(history.view_seq() =~= res.history.view_seq());
    }
    let mut consoles: Vec<crate::consoles::Console> = Vec::new();
    let cn = res.console_mapper.consoles.len();
    let mut k: usize = 0;
    while k < cn
        invariant
            cn == res.console_mapper.consoles@.len(),
            0 <= k <= cn,
        decreases cn - k,
    {
        let c = &res.console_mapper.consoles[k];
        consoles.push(
            crate::consoles::Console {
                name: c.name.clone(),
                cores: crate::session::clone_string_vec(&c.cores),
                patterns: crate::session::clone_string_vec(&c.patterns),
                extensions: crate::session::clone_string_vec(&c.extensions),
                file_name: crate::session::clone_string_vec(&c.file_name),
            },
        );
        k += 1;
    }
    let mut cores: Vec<(crate::consoles::CoreName, crate::consoles::Core)> = Vec::new();
    let kn = res.console_mapper.cores.len();
    let mut q: usize = 0;
    while q < kn
        invariant
            kn == res.console_mapper.cores@.len(),
            0 <= q <= kn,
        decreases kn - q,
    {
        let (name, core) = &res.console_mapper.cores[q];
        cores.push(
            (
                name.clone(),
                crate::consoles::Core {
                    name: core.name.clone(),
                    core: match &core.core {
                        crate::consoles::CoreType::RetroArch(s) => crate::consoles::CoreType::RetroArch(
                            s.clone(),
                        ),
                        crate::consoles::CoreType::Path(p) => crate::consoles::CoreType::Path(
                            p.clone(),
                        ),
                    },
                    swap: core.swap,
                },
            ),
        );
        q += 1;
    }
    let console_mapper = crate::consoles::ConsoleMapper { cores, consoles };
    Resources {
        styles: res.styles.clone(),
        locale: res.locale.clone(),
        game_info: res.game_info.clone(),
        database,
        console_mapper,
        history,
    }
}

} // verus!

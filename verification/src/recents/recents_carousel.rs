//! The recents carousel: one recently played game at a time, full screen,
//! stepped up and down, with a search overlay and direct launch.

use vstd::prelude::*;

use crate::command::{Bubble, Command, CommandSink};
use crate::database::Database;
use crate::display::DisplayLog;
use crate::entry::Game;
use crate::geom::{sat_add, Alignment, Point, Rect};
use crate::key::{Key, KeyEvent};
use crate::resources::Resources;
use crate::search::SearchView;
use crate::style::Stylesheet;
use crate::view::ViewNode;
use crate::widgets::{ButtonHint, Image, Label, Row};

verus! {

/// The persisted state of the carousel.
#[derive(Debug, Clone, Copy, PartialEq, Eq, Structural)]
pub struct RecentsCarouselState {
    pub selected: usize,
}

impl Default for RecentsCarouselState {
    fn default() -> (r: Self)
        ensures
            r.selected == 0,
    {
        RecentsCarouselState { selected: 0 }
    }
}

/// The carousel screen.
#[derive(Debug)]
pub struct RecentsCarousel {
    pub rect: Rect,
    pub res: Resources,
    pub games: Vec<Game>,
    pub selected: usize,
    pub screenshot: Image,
    pub game_name: Label,
    pub button_hints: Row<ButtonHint>,
    pub search_view: SearchView,
    /// A planned session record waiting to be written durably by the
    /// surrounding process before it acts on the launch command.
    pub pending_record: Option<crate::session::GameInfo>,
    pub dirty: bool,
}

impl RecentsCarousel {
    pub open spec fn wf(&self) -> bool {
        &&& self.res.inv()
        &&& (self.games@.len() > 0 ==> self.selected < self.games@.len())
        &&& (self.games@.len() == 0 ==> self.selected == 0)
        &&& self.button_hints.inv()
        &&& self.search_view.wf()
    }

    /// Builds the carousel over the most recently played games.
    pub fn new(rect: Rect, res: Resources, state: RecentsCarouselState) -> (v: RecentsCarousel)
        requires
            res.inv(),
        ensures
            v.wf(),
            v.dirty,
            v.games@.len() == crate::database::take_limit(
                res.database.games@,
                crate::recents::RECENT_GAMES_LIMIT as int,
            ).len(),
            v.selected as int == if v.games@.len() == 0 {
                0int
            } else if state.selected < v.games@.len() {
                state.selected as int
            } else {
                v.games@.len() - 1
            },
            v.search_view.state is Inactive,
            v.pending_record is None,
    {
        let games = Self::load_games(&res.database);
        let selected: usize = if games.len() == 0 {
            0
        } else if state.selected < games.len() {
            state.selected
        } else {
            games.len() - 1
        };
        let mut screenshot = Image::empty(
            Rect::new(
                rect.x,
                sat_add(rect.y, 8),
                rect.w,
                if rect.h >= 100 {
                    rect.h - 100
                } else {
                    0
                },
            ),
        );
        screenshot.set_border_radius(12);
        screenshot.set_alignment(Alignment::Center);
        let game_name = Label::new(
            Point::new(
                sat_add(rect.x, (rect.w / 2) as i32),
                sat_add(sat_add(rect.y, rect.h as i32), -60),
            ),
            String::new(),
            Alignment::Center,
            None,
        );
        let hx = sat_add(sat_add(rect.x, rect.w as i32), -12);
        let hy = sat_add(sat_add(rect.y, rect.h as i32), -40);
        let mut hints: Vec<ButtonHint> = Vec::new();
        hints.push(
            ButtonHint::new(
                Point::new(hx, hy),
                Key::A,
                res.locale.t("button-select"),
                Alignment::Right,
            ),
        );
        let button_hints = Row::new(Point::new(hx, hy), hints, Alignment::Right, 12);
        let search_view = SearchView::new(&res);
        let mut carousel = RecentsCarousel {
            rect,
            res,
            games,
            selected,
            screenshot,
            game_name,
            button_hints,
            search_view,
            pending_record: None,
            dirty: true,
        };
        carousel.update_current_game();
        carousel
    }

    /// Restores the carousel; without a persisted state it opens on the
    /// most recent game.
    pub fn load_or_new(rect: Rect, res: Resources, state: Option<RecentsCarouselState>) -> (v:
        RecentsCarousel)
        requires
            res.inv(),
        ensures
            v.wf(),
            state matches Some(st) ==> v.selected as int == if v.games@.len() == 0 {
                0int
            } else if st.selected < v.games@.len() {
                st.selected as int
            } else {
                v.games@.len() - 1
            },
            state is None ==> v.selected == 0,
            v.search_view.state is Inactive,
            v.pending_record is None,
    {
        match state {
            Some(s) => Self::new(rect, res, s),
            None => Self::new(rect, res, RecentsCarouselState::default()),
        }
    }

    /// The most recently played games as entries.
    fn load_games(database: &Database) -> (r: Vec<Game>)
        requires
            database.inv(),
        ensures
            r@.len() == crate::database::take_limit(
                database.games@,
                crate::recents::RECENT_GAMES_LIMIT as int,
            ).len(),
    {
        let rows = database.select_last_played(crate::recents::RECENT_GAMES_LIMIT);
        let mut r: Vec<Game> = Vec::new();
        let n = rows.len();
        let mut i: usize = 0;
        while i < n
            invariant
                n == rows@.len(),
                0 <= i <= n,
                r@.len() == i,
            decreases n - i,
        {
            let g = Game::from_row(&rows[i]);
            r.push(g);
            i += 1;
        }
        r
    }

    /// Shows the selected game: its recorded screenshot, its name, and a
    /// fresh dirty cycle. With no games everything is emptied.
    fn update_current_game(&mut self)
        requires
            old(self).wf(),
        ensures
            final(self).wf(),
            final(self).dirty,
            final(self).games == old(self).games,
            final(self).selected == old(self).selected,
            final(self).pending_record == old(self).pending_record,
            final(self).search_view.state == old(self).search_view.state,
            old(self).games@.len() == 0 ==> (final(self).screenshot.path is None
                && final(self).game_name.text@ =~= Seq::<char>::empty()),
            old(self).games@.len() > 0 ==> (final(self).screenshot.path
                == old(self).games@[old(self).selected as int].screenshot_path
                && final(self).game_name.text@
                == old(self).games@[old(self).selected as int].name@),
    {
        if self.games.len() == 0 {
            self.screenshot.set_path(None);
            self.game_name.set_text(String::new());
            self.dirty = true;
            return ;
        }
        let game = &self.games[self.selected];
        let shot = match &game.screenshot_path {
            Some(p) => Some(p.clone()),
            None => None,
        };
        self.screenshot.set_path(shot);
        let name = game.name.clone();
        self.game_name.set_text(name);
        self.button_hints.set_should_draw();
        self.dirty = true;
    }

    /// Hands the planned session record to the surrounding process; it is
    /// written durably before the launch command is acted on.
    pub fn take_pending_record(&mut self) -> (r: Option<crate::session::GameInfo>)
        ensures
            r == old(self).pending_record,
            final(self).pending_record is None,
    {
        self.pending_record.take()
    }

    /// Caches a capture-log preview for the selected game, as resolved by
    /// the surrounding process with `crate::capture_log`.
    pub fn set_screenshot(&mut self, path: Option<String>)
        requires
            old(self).wf(),
        ensures
            final(self).wf(),
            final(self).screenshot.path == path,
            final(self).screenshot.dirty,
            final(self).games == old(self).games,
            final(self).selected == old(self).selected,
    {
        self.screenshot.set_path(path);
    }

    /// Opens the search overlay.
    pub fn start_search(&mut self)
        requires
            old(self).wf(),
        ensures
            final(self).wf(),
            final(self).search_view.state is Active,
    {
        self.search_view.activate();
    }

    /// The state to persist; the carousel always reopens on the most
    /// recent game.
    pub fn save(&self) -> (r: RecentsCarouselState)
        ensures
            r.selected == 0,
    {
        RecentsCarouselState { selected: 0 }
    }

    /// Steps to the previous (more recent) entry and shows its screenshot
    /// and name.
    pub fn navigate_up(&mut self)
        requires
            old(self).wf(),
        ensures
            final(self).wf(),
            final(self).games == old(self).games,
            final(self).pending_record == old(self).pending_record,
            final(self).selected == if old(self).selected > 0 {
                (old(self).selected - 1) as usize
            } else {
                old(self).selected
            },
            old(self).selected > 0 ==> (final(self).dirty && final(self).screenshot.path
                == old(self).games@[final(self).selected as int].screenshot_path
                && final(self).game_name.text@
                == old(self).games@[final(self).selected as int].name@),
    {
        if self.selected > 0 {
            self.selected = self.selected - 1;
            self.update_current_game();
        }
    }

    /// Steps to the next (older) entry and shows its screenshot and name.
    pub fn navigate_down(&mut self)
        requires
            old(self).wf(),
        ensures
            final(self).wf(),
            final(self).games == old(self).games,
            final(self).pending_record == old(self).pending_record,
            final(self).selected == if old(self).games@.len() > 0 && old(self).selected < old(
                self,
            ).games@.len() - 1 {
                (old(self).selected + 1) as usize
            } else {
                old(self).selected
            },
            (old(self).games@.len() > 0 && old(self).selected < old(self).games@.len() - 1) ==> (
            final(self).dirty && final(self).screenshot.path
                == old(self).games@[final(self).selected as int].screenshot_path
                && final(self).game_name.text@
                == old(self).games@[final(self).selected as int].name@),
    {
        if self.games.len() > 0 && self.selected < self.games.len() - 1 {
            self.selected = self.selected + 1;
            self.update_current_game();
        }
    }

    /// Launches the selected game: plans the launch, records it in the
    /// history, and sends the resulting command. The session record is
    /// returned so the process can persist it durably before acting.
    fn launch_game(&mut self, commands: &mut CommandSink) -> (planned: Option<
        crate::session::GameInfo,
    >)
        requires
            old(self).wf(),
        ensures
            final(self).wf(),
            final(commands).extends(*old(commands)),
            final(self).games == old(self).games,
            final(self).selected == old(self).selected,
            final(self).pending_record == old(self).pending_record,
            final(self).search_view.state == old(self).search_view.state,
            old(self).games@.len() == 0 ==> (final(commands).sent@ =~= old(commands).sent@
                && planned is None),
    {
        if self.games.len() == 0 {
            return None;
        }
        let game = self.games[self.selected].clone();
        let launcher = self.res.game_info.command.clone();
        let res = &mut self.res;
        let outcome = res.console_mapper.launch_game(
            &mut res.database,
            &mut res.history,
            &game,
            &launcher,
        );
        match outcome {
            Ok(Some((info, cmd))) => {
                commands.send(cmd);
                Some(info)
            },
            _ => None,
        }
    }
}

impl ViewNode for RecentsCarousel {
    open spec fn inv(&self) -> bool {
        self.wf()
    }

    open spec fn tree_dirty(&self) -> bool {
        self.dirty || self.screenshot.tree_dirty() || self.game_name.tree_dirty()
            || self.button_hints.tree_dirty() || self.search_view.tree_dirty()
    }

    open spec fn draws_no_background(&self) -> bool {
        false
    }

    fn should_draw(&self) -> (r: bool) {
        self.dirty || self.screenshot.should_draw() || self.game_name.should_draw()
            || self.button_hints.should_draw() || self.search_view.should_draw()
    }

    /// Marks this node and every descendant it owns.
    fn set_should_draw(&mut self)
        ensures
            final(self).dirty,
            final(self).screenshot.tree_dirty(),
            final(self).game_name.tree_dirty(),
            final(self).button_hints.tree_dirty(),
            final(self).search_view.tree_dirty(),
            final(self).games == old(self).games,
            final(self).selected == old(self).selected,
    {
        self.dirty = true;
        self.screenshot.set_should_draw();
        self.game_name.set_should_draw();
        self.button_hints.set_should_draw();
        self.search_view.set_should_draw();
    }

    /// The carousel clears its region exactly once per dirty cycle, first,
    /// never once per child; a clean carousel clears nothing.
    fn draw(&mut self, display: &mut DisplayLog, styles: &Stylesheet) -> (drawn: bool)
        ensures
            old(self).dirty ==> (drawn && final(display).appended_since(*old(display))[0]
                == crate::display::DrawOp::Invalidate(old(self).rect)),
            crate::display::count_invalidates(final(display).appended_since(*old(display)))
                == if old(self).dirty {
                1int
            } else {
                0int
            },
    {
        let ghost base = *display;
        let mut drawn = false;
        if self.dirty {
            // One background invalidation per dirty cycle.
            display.load(self.rect);
            proof {
                assert(display.appended_since(base) =~= seq![
                    crate::display::DrawOp::Invalidate(self.rect),
                ]);
                crate::display::lemma_count_invalidates_singleton(
                    crate::display::DrawOp::Invalidate(self.rect),
                );
            }
            self.dirty = false;
            drawn = true;
        }
        let ghost m0 = *display;
        proof {
            if !old(self).dirty {
                assert(display.appended_since(base) =~= Seq::<
                    crate::display::DrawOp,
                >::empty());
            }
        }
        let d0 = self.screenshot.draw(display, styles);
        proof {
            crate::display::lemma_extends_trans(base, m0, *display);
            crate::display::lemma_count_invalidates_split(base.ops@, m0.ops@, display.ops@);
        }
        let ghost m1 = *display;
        let d1 = self.game_name.draw(display, styles);
        proof {
            crate::display::lemma_extends_trans(base, m1, *display);
            crate::display::lemma_count_invalidates_split(base.ops@, m1.ops@, display.ops@);
        }
        let ghost m2 = *display;
        proof {
            assert(self.button_hints.draws_no_background());
        }
        let d2 = self.button_hints.draw(display, styles);
        proof {
            crate::display::lemma_extends_trans(base, m2, *display);
            crate::display::lemma_count_invalidates_split(base.ops@, m2.ops@, display.ops@);
        }
        let ghost m3 = *display;
        let d3 = self.search_view.draw(display, styles);
        proof {
            crate::display::lemma_extends_trans(base, m3, *display);
            crate::display::lemma_count_invalidates_split(base.ops@, m3.ops@, display.ops@);
            if old(self).dirty {
                assert(display.ops@.take(m0.ops@.len() as int)[base.ops@.len() as int]
                    == m0.ops@[base.ops@.len() as int]);
            }
        }
        drawn || d0 || d1 || d2 || d3
    }

    /// The typing overlay short-circuits the carousel; otherwise up and
    /// down step the entries, the select key plans a launch, and the
    /// search key opens or cancels the overlay.
    fn handle_key_event(&mut self, event: KeyEvent, commands: &mut CommandSink, bubble: &mut Bubble)
        -> (consumed: bool)
        ensures
            (old(self).search_view.state is Active && crate::search::clean_bubble(old(bubble)@))
                ==> (final(self).games == old(self).games && final(self).selected == old(
                self,
            ).selected && final(self).pending_record == old(self).pending_record),
            !(old(self).search_view.state is Active) ==> {
                &&& (event == KeyEvent::Pressed(Key::Up) || event == KeyEvent::Autorepeat(Key::Up))
                    ==> (consumed && final(self).selected == if old(self).selected > 0 {
                    (old(self).selected - 1) as usize
                } else {
                    old(self).selected
                } && final(commands).sent@ =~= old(commands).sent@)
                &&& (event == KeyEvent::Pressed(Key::Down) || event == KeyEvent::Autorepeat(
                    Key::Down,
                )) ==> (consumed && final(self).selected == if old(self).games@.len() > 0 && old(
                    self,
                ).selected < old(self).games@.len() - 1 {
                    (old(self).selected + 1) as usize
                } else {
                    old(self).selected
                } && final(commands).sent@ =~= old(commands).sent@)
                &&& (event == KeyEvent::Pressed(Key::A)) ==> (consumed && (old(self).games@.len()
                    == 0 ==> (final(commands).sent@ =~= old(commands).sent@
                    && final(self).pending_record == old(self).pending_record)))
                &&& (old(self).search_view.state is Inactive && event == KeyEvent::Pressed(
                    Key::X,
                )) ==> (consumed && final(self).search_view.state is Active
                    && final(commands).sent@ =~= old(commands).sent@)
            },
    {
        // The search overlay intercepts events while it is active.
        if self.search_view.is_active() {
            let handled = self.search_view.handle_key_event(event, commands, bubble);
            if handled {
                return true;
            }
        }
        match event {
            KeyEvent::Pressed(Key::Up) | KeyEvent::Autorepeat(Key::Up) => {
                self.navigate_up();
                true
            },
            KeyEvent::Pressed(Key::Down) | KeyEvent::Autorepeat(Key::Down) => {
                self.navigate_down();
                true
            },
            KeyEvent::Pressed(Key::A) => {
                let planned = self.launch_game(commands);
                match planned {
                    Some(record) => {
                        self.pending_record = Some(record);
                    },
                    None => {},
                }
                true
            },
            KeyEvent::Pressed(Key::X) => {
                if !self.search_view.is_active() {
                    self.start_search();
                } else {
                    self.search_view.deactivate();
                    commands.send(Command::Redraw);
                }
                true
            },
            _ => false,
        }
    }

    fn bounding_box(&self, styles: &Stylesheet) -> (r: Rect)
        ensures
            r == self.rect,
    {
        self.rect
    }

    fn set_position(&mut self, point: Point) -> (supported: bool)
        ensures
            supported,
    {
        self.rect.x = point.x;
        self.rect.y = point.y;
        true
    }
}

} // verus!

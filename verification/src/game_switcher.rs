//! The game switcher: browses the session history sideways and starts a
//! handoff to the chosen game.

use vstd::prelude::*;

use crate::command::{Bubble, Command, CommandSink};
use crate::display::{DisplayLog, DrawOp};
use crate::geom::{sat_add, spec_sat_add, Alignment, Point, Rect};
use crate::handoff::{HandoffMachine, HandoffState};
use crate::history::GameHistoryEntry;
use crate::key::{Key, KeyEvent};
use crate::numtext::{counter_text, spec_counter_text};
use crate::resources::Resources;
use crate::session::{clone_string_vec, GameInfo};
use crate::style::{Stylesheet, StylesheetColor};
use crate::view::ViewNode;
use crate::widgets::{ButtonHint, Row};

verus! {

/// Whether one operation draws the given text at a point.
pub open spec fn is_text(
    op: DrawOp,
    pos: Point,
    text: Seq<char>,
    align: Alignment,
    color: crate::style::Color,
) -> bool {
    op matches DrawOp::Text(p, s, a, c) && p == pos && s@ == text && a == align && c == color
}

/// What the name bar under the screenshot draws: the bar itself, a left
/// arrow when there is a previous entry, the game's name, a right arrow
/// when there is a next entry, and the position counter.
pub open spec fn name_bar_ops_match(
    ops: Seq<DrawOp>,
    bar: Rect,
    name: Seq<char>,
    selected: int,
    total: int,
    styles: Stylesheet,
) -> bool {
    let mid_y = spec_sat_add(bar.y as int, (bar.h / 2) as int) as i32;
    let l: int = if selected > 0 {
        1
    } else {
        0
    };
    let r: int = if selected + 1 < total {
        1
    } else {
        0
    };
    &&& ops.len() == 3 + l + r
    &&& ops[0] == DrawOp::Rounded(bar, 4, styles.highlight_color)
    &&& (selected > 0 ==> is_text(
        ops[1],
        Point { x: spec_sat_add(bar.x as int, 20) as i32, y: mid_y },
        "<"@,
        Alignment::Left,
        styles.background_color,
    ))
    &&& is_text(
        ops[1 + l],
        Point { x: spec_sat_add(bar.x as int, (bar.w / 2) as int) as i32, y: mid_y },
        name,
        Alignment::Center,
        styles.background_color,
    )
    &&& (selected + 1 < total ==> is_text(
        ops[2 + l],
        Point { x: spec_sat_add(bar.x as int, bar.w as int - 20) as i32, y: mid_y },
        ">"@,
        Alignment::Right,
        styles.background_color,
    ))
    &&& is_text(
        ops[2 + l + r],
        Point { x: spec_sat_add(bar.x as int, bar.w as int - 50) as i32, y: mid_y },
        spec_counter_text((selected + 1) as nat, total as nat),
        Alignment::Right,
        styles.background_color,
    )
}

/// The switcher screen: a full-screen preview of the selected history
/// entry with a name bar and button hints. Selecting an entry builds a
/// handoff machine that the surrounding process drives.
#[derive(Debug)]
pub struct GameSwitcher {
    pub rect: Rect,
    pub games: Vec<GameHistoryEntry>,
    pub selected: usize,
    pub button_hints: Row<ButtonHint>,
    /// Whether the current session's emulator can be asked to save.
    pub current_has_menu: bool,
    /// A handoff the user started, waiting to be driven by the process.
    pub pending: Option<HandoffMachine>,
    pub dirty: bool,
}

impl GameSwitcher {
    pub open spec fn wf(&self) -> bool {
        &&& (self.games@.len() > 0 ==> self.selected < self.games@.len())
        &&& self.button_hints.inv()
    }

    /// Builds the switcher over the recent-session list, excluding the
    /// game that is running now.
    pub fn new(rect: Rect, res: &Resources) -> (v: GameSwitcher)
        requires
            res.inv(),
        ensures
            v.wf(),
            v.selected == 0,
            v.pending is None,
            v.dirty,
            v.current_has_menu == res.game_info.has_menu,
            crate::history::views_of(v.games@) =~= crate::history::spec_recent(
                res.history.view_seq(),
                Some(res.game_info.path@),
                9,
            ),
    {
        let games = res.history.get_recent_games(Some(&res.game_info.path), 9);
        let hx = sat_add(sat_add(rect.x, rect.w as i32), -12);
        let hy = sat_add(sat_add(rect.y, rect.h as i32), -40);
        let mut hints: Vec<ButtonHint> = Vec::new();
        hints.push(
            ButtonHint::new(
                Point::new(hx, hy),
                Key::A,
                res.locale.t("button-select"),
                Alignment::Right,
            ),
        );
        hints.push(
            ButtonHint::new(
                Point::new(hx, hy),
                Key::B,
                res.locale.t("button-back"),
                Alignment::Right,
            ),
        );
        let button_hints = Row::new(Point::new(hx, hy), hints, Alignment::Right, 12);
        GameSwitcher {
            rect,
            games,
            selected: 0,
            button_hints,
            current_has_menu: res.game_info.has_menu,
            pending: None,
            dirty: true,
        }
    }

    /// Builds the handoff toward the selected entry: the target record is
    /// the entry's own fields, and the machine starts idle.
    pub fn switch_to_game(&self) -> (m: HandoffMachine)
        requires
            self.wf(),
            self.games@.len() > 0,
        ensures
            m.inv(),
            m.state is Idle,
            m.persisted is None,
            m.current_has_menu == self.current_has_menu,
            m.save_slot == 0,
            m.target.name@ == self.games@[self.selected as int]@.name,
            m.target.path@ == self.games@[self.selected as int]@.path,
            m.target.core@ == self.games@[self.selected as int]@.core,
            m.target.command@ == self.games@[self.selected as int]@.command,
            crate::history::str_views(m.target.args@) == self.games@[self.selected as int]@.args,
            m.target.has_menu == self.games@[self.selected as int]@.has_menu,
            m.target.needs_swap == self.games@[self.selected as int]@.needs_swap,
    {
        let game = &self.games[self.selected];
        let target = GameInfo::new(
            game.name.clone(),
            game.path.clone(),
            game.core.clone(),
            None,
            game.command.clone(),
            clone_string_vec(&game.args),
            game.has_menu,
            game.needs_swap,
        );
        HandoffMachine::new(self.current_has_menu, 0, target)
    }

    /// Hands a started handoff to the surrounding process.
    pub fn take_pending(&mut self) -> (m: Option<HandoffMachine>)
        ensures
            m == old(self).pending,
            final(self).pending is None,
            *final(self) == (GameSwitcher { pending: None, ..*old(self) }),
    {
        self.pending.take()
    }
}

impl ViewNode for GameSwitcher {
    open spec fn inv(&self) -> bool {
        self.wf()
    }

    open spec fn tree_dirty(&self) -> bool {
        self.dirty || self.button_hints.tree_dirty()
    }

    open spec fn draws_no_background(&self) -> bool {
        true
    }

    fn should_draw(&self) -> (r: bool) {
        self.dirty || self.button_hints.should_draw()
    }

    /// Marks this node and its button hints, the descendants it owns.
    fn set_should_draw(&mut self)
        ensures
            final(self).dirty,
            final(self).button_hints.tree_dirty(),
            final(self).selected == old(self).selected,
            final(self).games == old(self).games,
            final(self).pending == old(self).pending,
    {
        self.dirty = true;
        self.button_hints.set_should_draw();
    }

    fn draw(&mut self, display: &mut DisplayLog, styles: &Stylesheet) -> (drawn: bool)
        ensures
            old(self).dirty ==> drawn,
    {
        let ghost base = *display;
        let mut drawn = false;
        if self.dirty {
            if self.games.len() == 0 {
                proof {
                    reveal_strlit("No games in history");
                }
                display.text(
                    Point::new(
                        sat_add(self.rect.x, (self.rect.w / 2) as i32),
                        sat_add(self.rect.y, (self.rect.h / 2) as i32),
                    ),
                    "No games in history".to_owned(),
                    Alignment::Center,
                    styles.color(StylesheetColor::Foreground),
                );
                proof {
                    assert(display.ops@.drop_last() =~= base.ops@);
                }
            } else {
                // The screenshot area is the rectangle above the name bar;
                // loading the preview image itself is the surrounding
                // process's affair, so a marked placeholder fills the area.
                let wclamp: u32 = if self.rect.w > (i32::MAX as u32) {
                    i32::MAX as u32
                } else {
                    self.rect.w
                };
                let hclamp: u32 = if self.rect.h > (i32::MAX as u32) {
                    i32::MAX as u32
                } else {
                    self.rect.h
                };
                let shot = Rect::new(
                    sat_add(self.rect.x, 24),
                    sat_add(self.rect.y, 24),
                    if wclamp >= 48 {
                        wclamp - 48
                    } else {
                        0
                    },
                    if hclamp >= 148 {
                        hclamp - 148
                    } else {
                        0
                    },
                );
                self.draw_screenshot_area(display, styles, shot);
                let bar = Rect::new(
                    sat_add(self.rect.x, 24),
                    sat_add(sat_add(shot.y, shot.h as i32), 12),
                    shot.w,
                    60,
                );
                let game_name = self.games[self.selected].name.clone();
                self.draw_game_name_bar(display, styles, bar, game_name);
                proof {
                    crate::display::lemma_extends_trans(base, base, *display);
                }
            }
            self.dirty = false;
            drawn = true;
        }
        proof {
            assert(forall|i: int|
                base.ops@.len() <= i < display.ops@.len() ==> !((#[trigger] display.ops@[i])
                    is Invalidate));
            assert(forall|i: int|
                0 <= i < display.appended_since(base).len() ==> !((
                #[trigger] display.appended_since(base)[i]) is Invalidate));
            crate::display::lemma_count_invalidates_none(display.appended_since(base));
        }
        let ghost mid = *display;
        let d = self.button_hints.draw(display, styles);
        proof {
            crate::display::lemma_extends_trans(base, mid, *display);
            crate::display::lemma_count_invalidates_split(base.ops@, mid.ops@, display.ops@);
        }
        drawn || d
    }

    fn handle_key_event(&mut self, event: KeyEvent, commands: &mut CommandSink, bubble: &mut Bubble)
        -> (consumed: bool)
        ensures
            final(self).games == old(self).games,
            final(self).current_has_menu == old(self).current_has_menu,
            (event == KeyEvent::Pressed(Key::Left) || event == KeyEvent::Autorepeat(Key::Left))
                ==> (consumed && final(commands).sent@ =~= old(commands).sent@ && final(bubble)@
                =~= old(bubble)@ && final(self).pending == old(self).pending && (old(
                self,
            ).games@.len() > 0 ==> (final(self).dirty && final(self).selected as int == if old(
                self,
            ).selected == 0 {
                old(self).games@.len() - 1
            } else {
                old(self).selected - 1
            }))),
            (event == KeyEvent::Pressed(Key::Right) || event == KeyEvent::Autorepeat(Key::Right))
                ==> (consumed && final(commands).sent@ =~= old(commands).sent@ && final(bubble)@
                =~= old(bubble)@ && final(self).pending == old(self).pending && (old(
                self,
            ).games@.len() > 0 ==> (final(self).dirty && final(self).selected as int == (old(
                self,
            ).selected + 1) % (old(self).games@.len() as int)))),
            event == KeyEvent::Pressed(Key::A) ==> (consumed && final(commands).sent@
                =~= old(commands).sent@ && final(bubble)@ =~= old(bubble)@ && (old(
                self,
            ).games@.len() > 0 ==> (final(self).pending matches Some(m) && m.state is Idle
                && m.target.path@ == old(self).games@[old(self).selected as int]@.path))),
            (event == KeyEvent::Pressed(Key::B) || event == KeyEvent::Pressed(Key::Menu)) ==> (
            consumed && final(commands).sent@ =~= old(commands).sent@ && final(bubble)@ =~= old(
                bubble,
            )@.push(Command::CloseView) && final(self).selected == old(self).selected
                && final(self).pending == old(self).pending
                && final(self).dirty == old(self).dirty),
            !(event.key() == Key::Left || event.key() == Key::Right || event
                == KeyEvent::Pressed(Key::A) || event == KeyEvent::Pressed(Key::B) || event
                == KeyEvent::Pressed(Key::Menu)) ==> (!consumed && final(commands).sent@ =~= old(
                commands,
            ).sent@ && final(bubble)@ =~= old(bubble)@ && *final(self) == *old(self)),
    {
        match event {
            KeyEvent::Pressed(Key::Left) | KeyEvent::Autorepeat(Key::Left) => {
                if self.games.len() > 0 {
                    self.selected = if self.selected == 0 {
                        self.games.len() - 1
                    } else {
                        self.selected - 1
                    };
                    self.dirty = true;
                }
                true
            },
            KeyEvent::Pressed(Key::Right) | KeyEvent::Autorepeat(Key::Right) => {
                if self.games.len() > 0 {
                    self.selected = (self.selected + 1) % self.games.len();
                    self.dirty = true;
                }
                true
            },
            KeyEvent::Pressed(Key::A) => {
                if self.games.len() > 0 {
                    let m = self.switch_to_game();
                    self.pending = Some(m);
                }
                true
            },
            KeyEvent::Pressed(Key::B) | KeyEvent::Pressed(Key::Menu) => {
                // Ask the owning menu to close this view; the request is
                // meant for the direct parent, so it bubbles.
                bubble.push(Command::CloseView);
                true
            },
            _ => false,
        }
    }

    fn bounding_box(&self, styles: &Stylesheet) -> (r: Rect)
        ensures
            r == self.rect,
    {
        self.rect
    }

    fn set_position(&mut self, point: Point) -> (supported: bool)
        ensures
            supported,
    {
        self.rect.x = point.x;
        self.rect.y = point.y;
        true
    }
}

impl GameSwitcher {
    /// Fills the preview area; a placeholder stands in for the screenshot.
    fn draw_screenshot_area(&self, display: &mut DisplayLog, styles: &Stylesheet, area: Rect)
        ensures
            final(display).extends(*old(display)),
            final(display).appended_since(*old(display)).len() == 2,
            final(display).appended_since(*old(display))[0] == DrawOp::Rounded(
                area,
                8,
                styles.disabled_color,
            ),
            is_text(
                final(display).appended_since(*old(display))[1],
                Point {
                    x: spec_sat_add(area.x as int, (area.w / 2) as int) as i32,
                    y: spec_sat_add(area.y as int, (area.h / 2) as int) as i32,
                },
                "No Screenshot"@,
                Alignment::Center,
                styles.foreground_color,
            ),
    {
        display.rounded(area, 8, styles.color(StylesheetColor::Disabled));
        proof {
            reveal_strlit("No Screenshot");
        }
        display.text(
            Point::new(
                sat_add(area.x, (area.w / 2) as i32),
                sat_add(area.y, (area.h / 2) as i32),
            ),
            "No Screenshot".to_owned(),
            Alignment::Center,
            styles.color(StylesheetColor::Foreground),
        );
    }

    /// Draws the name bar: background, arrows where there are neighbours,
    /// the name, and the position counter.
    fn draw_game_name_bar(
        &self,
        display: &mut DisplayLog,
        styles: &Stylesheet,
        bar: Rect,
        game_name: String,
    )
        requires
            self.wf(),
            self.games@.len() > 0,
            bar.w <= i32::MAX as u32,
            game_name@ == self.games@[self.selected as int].name@,
        ensures
            final(display).extends(*old(display)),
            name_bar_ops_match(
                final(display).appended_since(*old(display)),
                bar,
                self.games@[self.selected as int].name@,
                self.selected as int,
                self.games@.len() as int,
                *styles,
            ),
    {
        let ghost base = display.ops@;
        let mid_y = sat_add(bar.y, (bar.h / 2) as i32);
        display.rounded(bar, 4, styles.color(StylesheetColor::Highlight));
        if self.selected > 0 {
            proof {
                reveal_strlit("<");
            }
            display.text(
                Point::new(sat_add(bar.x, 20), mid_y),
                "<".to_owned(),
                Alignment::Left,
                styles.color(StylesheetColor::Background),
            );
        }
        display.text(
            Point::new(sat_add(bar.x, (bar.w / 2) as i32), mid_y),
            game_name,
            Alignment::Center,
            styles.color(StylesheetColor::Background),
        );
        if self.selected < self.games.len() - 1 {
            proof {
                reveal_strlit(">");
            }
            display.text(
                Point::new(sat_add(bar.x, (bar.w as i32) - 20), mid_y),
                ">".to_owned(),
                Alignment::Right,
                styles.color(StylesheetColor::Background),
            );
        }
        let counter = counter_text(self.selected + 1, self.games.len());
        display.text(
            Point::new(sat_add(bar.x, (bar.w as i32) - 50), mid_y),
            counter,
            Alignment::Right,
            styles.color(StylesheetColor::Background),
        );
        assert(display.ops@.take(base.len() as int) =~= base);
        assert(name_bar_ops_match(
            display.ops@.skip(base.len() as int),
            bar,
            self.games@[self.selected as int].name@,
            self.selected as int,
            self.games@.len() as int,
            *styles,
        ));
    }
}

} // verus!

//! The theme settings screen: a settings list over a working copy of the
//! style sheet. Each value change is applied to the copy and sent to the
//! root for persistence; the root then rebuilds the resources and
//! broadcasts a redraw.

use vstd::prelude::*;

use crate::command::{Bubble, Command, CommandSink, Value};
use crate::display::DisplayLog;
use crate::geom::{sat_add, Alignment, Point, Rect};
use crate::key::{Key, KeyEvent};
use crate::resources::Resources;
use crate::style::{Color, Stylesheet};
use crate::view::ViewNode;
use crate::widgets::{ButtonHint, RightWidget, Row, SettingsList};

verus! {

/// The rows of the theme screen, in order.
pub open spec fn spec_theme_row_count() -> int {
    20
}

/// What applying a value to one row does to the style sheet. A row whose
/// value kind does not match leaves the sheet unchanged.
pub open spec fn spec_apply(sheet: Stylesheet, row: int, val: Value) -> Stylesheet {
    if row == 0 {
        Stylesheet {
            foreground_color: sheet.background_color,
            background_color: sheet.foreground_color,
            ..sheet
        }
    } else if row == 1 {
        Stylesheet { show_battery_level: !sheet.show_battery_level, ..sheet }
    } else if row == 2 {
        Stylesheet { show_clock: !sheet.show_clock, ..sheet }
    } else if row == 4 {
        match val {
            Value::Int(v) => if 0 <= v <= u32::MAX {
                Stylesheet {
                    ui_font: crate::style::StylesheetFont { size: v as u32, ..sheet.ui_font },
                    ..sheet
                }
            } else {
                sheet
            },
            _ => sheet,
        }
    } else if row == 6 {
        match val {
            Value::Int(v) => if 0 <= v <= u32::MAX {
                Stylesheet {
                    guide_font: crate::style::StylesheetFont { size: v as u32, ..sheet.guide_font },
                    ..sheet
                }
            } else {
                sheet
            },
            _ => sheet,
        }
    } else if row == 7 {
        match val {
            Value::Int(v) => if 0 <= v <= u32::MAX {
                Stylesheet { tab_font_size_pct: v as u32, ..sheet }
            } else {
                sheet
            },
            _ => sheet,
        }
    } else if row == 8 {
        match val {
            Value::Int(v) => if 0 <= v <= u32::MAX {
                Stylesheet { status_bar_font_size_pct: v as u32, ..sheet }
            } else {
                sheet
            },
            _ => sheet,
        }
    } else if row == 9 {
        match val {
            Value::Int(v) => if 0 <= v <= u32::MAX {
                Stylesheet { button_hint_font_size_pct: v as u32, ..sheet }
            } else {
                sheet
            },
            _ => sheet,
        }
    } else if row == 10 {
        match val {
            Value::Rgb(c) => Stylesheet { highlight_color: c, ..sheet },
            _ => sheet,
        }
    } else if row == 11 {
        match val {
            Value::Rgb(c) => Stylesheet { foreground_color: c, ..sheet },
            _ => sheet,
        }
    } else if row == 12 {
        match val {
            Value::Rgb(c) => Stylesheet { background_color: c, ..sheet },
            _ => sheet,
        }
    } else if row == 13 {
        match val {
            Value::Rgb(c) => Stylesheet { disabled_color: c, ..sheet },
            _ => sheet,
        }
    } else if row == 14 {
        match val {
            Value::Rgb(c) => Stylesheet { tab_color: c, ..sheet },
            _ => sheet,
        }
    } else if row == 15 {
        match val {
            Value::Rgb(c) => Stylesheet { tab_selected_color: c, ..sheet },
            _ => sheet,
        }
    } else if row == 16 {
        match val {
            Value::Rgb(c) => Stylesheet { button_a_color: c, ..sheet },
            _ => sheet,
        }
    } else if row == 17 {
        match val {
            Value::Rgb(c) => Stylesheet { button_b_color: c, ..sheet },
            _ => sheet,
        }
    } else if row == 18 {
        match val {
            Value::Rgb(c) => Stylesheet { button_x_color: c, ..sheet },
            _ => sheet,
        }
    } else if row == 19 {
        match val {
            Value::Rgb(c) => Stylesheet { button_y_color: c, ..sheet },
            _ => sheet,
        }
    } else {
        // Rows 3 and 5 pick font files; the font list lives with the
        // screen, so the picked index is applied by the screen itself.
        sheet
    }
}

/// The theme screen.
#[derive(Debug)]
pub struct Theme {
    pub rect: Rect,
    pub stylesheet: Stylesheet,
    pub fonts: Vec<String>,
    pub list: SettingsList,
    pub button_hints: Row<ButtonHint>,
}

impl Theme {
    pub open spec fn wf(&self) -> bool {
        &&& self.list.wf()
        &&& self.list.left@.len() == spec_theme_row_count()
        &&& self.button_hints.inv()
    }

    /// Builds the screen over a working copy of the active style sheet.
    /// The available font files are listed by the surrounding process.
    pub fn new(rect: Rect, res: &Resources, fonts: Vec<String>, selected: Option<usize>) -> (v:
        Theme)
        ensures
            v.wf(),
            v.stylesheet == res.styles,
    {
        let stylesheet = res.styles.clone();
        let mut left: Vec<String> = Vec::new();
        left.push(res.locale.t("settings-theme-dark-mode"));
        left.push(res.locale.t("settings-theme-show-battery-level"));
        left.push(res.locale.t("settings-theme-show-clock"));
        left.push(res.locale.t("settings-theme-ui-font"));
        left.push(res.locale.t("settings-theme-ui-font-size"));
        left.push(res.locale.t("settings-theme-guide-font"));
        left.push(res.locale.t("settings-theme-guide-font-size"));
        left.push(res.locale.t("settings-theme-tab-font-size"));
        left.push(res.locale.t("settings-theme-status-bar-font-size"));
        left.push(res.locale.t("settings-theme-button-hint-font-size"));
        left.push(res.locale.t("settings-theme-highlight-color"));
        left.push(res.locale.t("settings-theme-foreground-color"));
        left.push(res.locale.t("settings-theme-background-color"));
        left.push(res.locale.t("settings-theme-disabled-color"));
        left.push(res.locale.t("settings-theme-tab-color"));
        left.push(res.locale.t("settings-theme-tab-selected-color"));
        left.push(res.locale.t("settings-theme-button-a-color"));
        left.push(res.locale.t("settings-theme-button-b-color"));
        left.push(res.locale.t("settings-theme-button-x-color"));
        left.push(res.locale.t("settings-theme-button-y-color"));
        let ui_font_index = Self::font_index(&fonts, &stylesheet.ui_font.path);
        let guide_font_index = Self::font_index(&fonts, &stylesheet.guide_font.path);
        let mut font_options_a: Vec<String> = crate::session::clone_string_vec(&fonts);
        let mut font_options_b: Vec<String> = crate::session::clone_string_vec(&fonts);
        let mut right: Vec<RightWidget> = Vec::new();
        right.push(RightWidget::Toggle(stylesheet.background_color.is_dark()));
        right.push(RightWidget::Toggle(stylesheet.show_battery_level));
        right.push(RightWidget::Toggle(stylesheet.show_clock));
        if font_options_a.len() == 0 {
            font_options_a.push(String::new());
        }
        if font_options_b.len() == 0 {
            font_options_b.push(String::new());
        }
        let ia = if ui_font_index < font_options_a.len() {
            ui_font_index
        } else {
            0
        };
        let ib = if guide_font_index < font_options_b.len() {
            guide_font_index
        } else {
            0
        };
        right.push(RightWidget::Select { index: ia, options: font_options_a });
        let ui_size: i32 = if stylesheet.ui_font.size > 60 {
            60
        } else if stylesheet.ui_font.size < 20 {
            20
        } else {
            stylesheet.ui_font.size as i32
        };
        right.push(RightWidget::Number { value: ui_size, min: 20, max: 60 });
        right.push(RightWidget::Select { index: ib, options: font_options_b });
        let guide_size: i32 = if stylesheet.guide_font.size > 60 {
            60
        } else if stylesheet.guide_font.size < 20 {
            20
        } else {
            stylesheet.guide_font.size as i32
        };
        right.push(RightWidget::Number { value: guide_size, min: 20, max: 60 });
        let pct = |v: u32| -> (r: i32)
            ensures
                50 <= r <= 200,
            {
                if v > 200 {
                    200
                } else if v < 50 {
                    50
                } else {
                    v as i32
                }
            };
        right.push(RightWidget::Number { value: pct(stylesheet.tab_font_size_pct), min: 50, max: 200 });
        right.push(
            RightWidget::Number { value: pct(stylesheet.status_bar_font_size_pct), min: 50, max: 200 },
        );
        right.push(
            RightWidget::Number { value: pct(stylesheet.button_hint_font_size_pct), min: 50, max: 200 },
        );
        right.push(RightWidget::Rgb(stylesheet.highlight_color));
        right.push(RightWidget::Rgb(stylesheet.foreground_color));
        right.push(RightWidget::Rgb(stylesheet.background_color));
        right.push(RightWidget::Rgb(stylesheet.disabled_color));
        right.push(RightWidget::Rgb(stylesheet.tab_color));
        right.push(RightWidget::Rgb(stylesheet.tab_selected_color));
        right.push(RightWidget::Rgb(stylesheet.button_a_color));
        right.push(RightWidget::Rgb(stylesheet.button_b_color));
        right.push(RightWidget::Rgb(stylesheet.button_x_color));
        right.push(RightWidget::Rgb(stylesheet.button_y_color));
        let mut list = SettingsList::new(
            Rect::new(
                sat_add(rect.x, 12),
                sat_add(rect.y, 8),
                if rect.w >= 24 {
                    rect.w - 24
                } else {
                    0
                },
                if rect.h >= 48 {
                    rect.h - 48
                } else {
                    0
                },
            ),
            left,
            right,
            sat_add(res.styles.ui_font.size as i32, 8) as u32,
        );
        match selected {
            Some(s) => {
                list.select(s);
            },
            None => {},
        }
        let hx = sat_add(sat_add(rect.x, rect.w as i32), -12);
        let hy = sat_add(sat_add(rect.y, rect.h as i32), -40);
        let mut hints: Vec<ButtonHint> = Vec::new();
        hints.push(
            ButtonHint::new(Point::new(hx, hy), Key::A, res.locale.t("button-edit"), Alignment::Right),
        );
        hints.push(
            ButtonHint::new(Point::new(hx, hy), Key::B, res.locale.t("button-back"), Alignment::Right),
        );
        let button_hints = Row::new(Point::new(hx, hy), hints, Alignment::Right, 12);
        Theme { rect, stylesheet, fonts, list, button_hints }
    }

    /// Where a font path stands in the list; the first entry when it is
    /// not listed.
    fn font_index(fonts: &Vec<String>, path: &String) -> (r: usize)
        ensures
            r <= fonts@.len(),
    {
        let n = fonts.len();
        let mut i: usize = 0;
        while i < n
            invariant
                n == fonts@.len(),
                0 <= i <= n,
            decreases n - i,
        {
            if fonts[i] == *path {
                return i;
            }
            i += 1;
        }
        0
    }

    /// The selected row, for persistence.
    pub fn save(&self) -> (r: usize)
        ensures
            r == self.list.selected,
    {
        self.list.selected()
    }

    /// Applies one value change to the working style sheet.
    fn apply(&mut self, row: usize, val: &Value)
        requires
            old(self).wf(),
        ensures
            final(self).wf(),
            final(self).stylesheet == spec_apply(old(self).stylesheet, row as int, *val)
                || row == 3 || row == 5,
            final(self).list == old(self).list,
    {
        if row == 0 {
            self.stylesheet.toggle_dark_mode();
        } else if row == 1 {
            self.stylesheet.toggle_battery_percentage();
        } else if row == 2 {
            self.stylesheet.toggle_clock();
        } else if row == 3 {
            // Picks a font file from the screen's own list.
            match val.as_int() {
                Some(v) => {
                    if 0 <= v && (v as usize) < self.fonts.len() {
                        self.stylesheet.ui_font.path = self.fonts[v as usize].clone();
                    }
                },
                None => {},
            }
        } else if row == 4 {
            match val.as_int() {
                Some(v) => {
                    if 0 <= v && v <= u32::MAX as i64 {
                        self.stylesheet.ui_font.size = v as u32;
                    }
                },
                None => {},
            }
        } else if row == 5 {
            match val.as_int() {
                Some(v) => {
                    if 0 <= v && (v as usize) < self.fonts.len() {
                        self.stylesheet.guide_font.path = self.fonts[v as usize].clone();
                    }
                },
                None => {},
            }
        } else if row == 6 {
            match val.as_int() {
                Some(v) => {
                    if 0 <= v && v <= u32::MAX as i64 {
                        self.stylesheet.guide_font.size = v as u32;
                    }
                },
                None => {},
            }
        } else if row == 7 {
            match val.as_int() {
                Some(v) => {
                    if 0 <= v && v <= u32::MAX as i64 {
                        self.stylesheet.tab_font_size_pct = v as u32;
                    }
                },
                None => {},
            }
        } else if row == 8 {
            match val.as_int() {
                Some(v) => {
                    if 0 <= v && v <= u32::MAX as i64 {
                        self.stylesheet.status_bar_font_size_pct = v as u32;
                    }
                },
                None => {},
            }
        } else if row == 9 {
            match val.as_int() {
                Some(v) => {
                    if 0 <= v && v <= u32::MAX as i64 {
                        self.stylesheet.button_hint_font_size_pct = v as u32;
                    }
                },
                None => {},
            }
        } else {
            let color: Option<Color> = val.as_color();
            match color {
                Some(c) => {
                    if row == 10 {
                        self.stylesheet.highlight_color = c;
                    } else if row == 11 {
                        self.stylesheet.foreground_color = c;
                    } else if row == 12 {
                        self.stylesheet.background_color = c;
                    } else if row == 13 {
                        self.stylesheet.disabled_color = c;
                    } else if row == 14 {
                        self.stylesheet.tab_color = c;
                    } else if row == 15 {
                        self.stylesheet.tab_selected_color = c;
                    } else if row == 16 {
                        self.stylesheet.button_a_color = c;
                    } else if row == 17 {
                        self.stylesheet.button_b_color = c;
                    } else if row == 18 {
                        self.stylesheet.button_x_color = c;
                    } else if row == 19 {
                        self.stylesheet.button_y_color = c;
                    }
                },
                None => {},
            }
        }
    }
}

impl ViewNode for Theme {
    open spec fn inv(&self) -> bool {
        self.wf()
    }

    open spec fn tree_dirty(&self) -> bool {
        self.list.tree_dirty() || self.button_hints.tree_dirty()
    }

    open spec fn draws_no_background(&self) -> bool {
        false
    }

    fn should_draw(&self) -> (r: bool) {
        self.list.should_draw() || self.button_hints.should_draw()
    }

    /// Marks both descendants the screen owns.
    fn set_should_draw(&mut self)
        ensures
            final(self).list.tree_dirty(),
            final(self).button_hints.tree_dirty(),
            final(self).stylesheet == old(self).stylesheet,
    {
        self.list.set_should_draw();
        self.button_hints.set_should_draw();
    }

    fn draw(&mut self, display: &mut DisplayLog, styles: &Stylesheet) -> (drawn: bool) {
        let ghost base = *display;
        let d1 = self.list.draw(display, styles);
        let ghost m1 = *display;
        let d2 = self.button_hints.draw(display, styles);
        proof {
            crate::display::lemma_extends_trans(base, m1, *display);
        }
        d1 || d2
    }

    /// Value changes reported by the list are consumed from the bubble,
    /// applied to the working copy, and sent for persistence; an
    /// unconsumed back key bubbles a close request to the owner.
    fn handle_key_event(&mut self, event: KeyEvent, commands: &mut CommandSink, bubble: &mut Bubble)
        -> (consumed: bool) {
        let ghost b0 = bubble@;
        let list_consumed = self.list.handle_key_event(event, commands, bubble);
        if list_consumed {
            // Drain this dispatch's value changes and apply each.
            while bubble.len() > 0
                invariant
                    self.wf(),
                    commands.extends(*old(commands)),
                decreases bubble@.len(),
            {
                let cmd = bubble.remove(0);
                match cmd {
                    Command::ValueChanged(row, val) => {
                        self.apply(row, &val);
                        let sheet = self.stylesheet.clone();
                        let ghost pre = *commands;
                        commands.send(Command::SaveStylesheet(sheet));
                        proof {
                            crate::command::lemma_sink_extends_trans(
                                *old(commands),
                                pre,
                                *commands,
                            );
                        }
                    },
                    other => {
                        // Not a value change; put it back for the owner
                        // and stop draining, keeping bubble order.
                        bubble.insert(0, other);
                        return true;
                    },
                }
            }
            return true;
        }
        match event {
            KeyEvent::Pressed(Key::B) => {
                bubble.push(Command::CloseView);
                true
            },
            _ => false,
        }
    }

    fn bounding_box(&self, styles: &Stylesheet) -> (r: Rect)
        ensures
            r == self.rect,
    {
        self.rect
    }

    fn set_position(&mut self, point: Point) -> (supported: bool) {
        false
    }
}

} // verus!

//! Leaf and container widgets: labels, images, button hints, rows, and the
//! settings list. Composite screens are built from these.

use vstd::prelude::*;

use crate::command::{Bubble, Command, CommandSink, Value};
use crate::display::{DisplayLog, DrawOp};
use crate::geom::{Alignment, Point, Rect};
use crate::key::{Key, KeyEvent};
use crate::style::{Color, Stylesheet, StylesheetColor};
use crate::view::ViewNode;

verus! {

/// A line of text anchored at a point.
#[derive(Debug, PartialEq, Eq)]
pub struct Label {
    pub pos: Point,
    pub text: String,
    pub align: Alignment,
    pub max_width: Option<u32>,
    pub color_role: StylesheetColor,
    pub dirty: bool,
}

impl Label {
    pub fn new(pos: Point, text: String, align: Alignment, max_width: Option<u32>) -> (l: Label)
        ensures
            l == (Label {
                pos,
                text,
                align,
                max_width,
                color_role: StylesheetColor::Foreground,
                dirty: true,
            }),
    {
        Label { pos, text, align, max_width, color_role: StylesheetColor::Foreground, dirty: true }
    }

    pub fn set_text(&mut self, text: String)
        ensures
            *final(self) == (Label { text, dirty: true, ..*old(self) }),
    {
        self.text = text;
        self.dirty = true;
    }

    /// Picks the color role the label is drawn with.
    pub fn color(&mut self, role: StylesheetColor)
        ensures
            *final(self) == (Label { color_role: role, dirty: true, ..*old(self) }),
    {
        self.color_role = role;
        self.dirty = true;
    }
}

impl ViewNode for Label {
    open spec fn inv(&self) -> bool {
        true
    }

    open spec fn tree_dirty(&self) -> bool {
        self.dirty
    }

    open spec fn draws_no_background(&self) -> bool {
        true
    }

    fn should_draw(&self) -> (r: bool) {
        self.dirty
    }

    fn set_should_draw(&mut self)
        ensures
            *final(self) == (Label { dirty: true, ..*old(self) }),
    {
        self.dirty = true;
    }

    fn draw(&mut self, display: &mut DisplayLog, styles: &Stylesheet) -> (drawn: bool)
        ensures
            old(self).dirty ==> final(display).ops@ =~= old(display).ops@.push(
                DrawOp::Text(
                    old(self).pos,
                    old(self).text,
                    old(self).align,
                    styles.spec_color(old(self).color_role),
                ),
            ),
            !old(self).dirty ==> final(display).ops@ =~= old(display).ops@,
            *final(self) == (Label { dirty: false, ..*old(self) }),
    {
        if self.dirty {
            display.text(self.pos, self.text.clone(), self.align, styles.color(self.color_role));
            proof {
                lemma_appended_clear(*old(display), *display);
            }
            self.dirty = false;
            true
        } else {
            proof {
                lemma_appended_clear(*old(display), *display);
            }
            false
        }
    }

    fn handle_key_event(&mut self, event: KeyEvent, commands: &mut CommandSink, bubble: &mut Bubble)
        -> (consumed: bool)
        ensures
            final(commands).sent@ =~= old(commands).sent@,
            final(bubble)@ =~= old(bubble)@,
            *final(self) == *old(self),
            !consumed,
    {
        false
    }

    fn bounding_box(&self, styles: &Stylesheet) -> (r: Rect)
        ensures
            r.x == self.pos.x,
            r.y == self.pos.y,
    {
        // Text extent depends on the rasteriser; the style sheet's font size
        // bounds the height and the per-character advance.
        let w = match self.max_width {
            Some(w) => w,
            None => {
                let len = self.text.as_str().len();
                let size = styles.ui_font.size;
                if len < 1024 && size < 1024 {
                    assert((len as u32) * size < 0x100000000u64) by (nonlinear_arith)
                        requires
                            len < 1024,
                            size < 1024,
                    ;
                    (len as u32) * size
                } else {
                    u32::MAX
                }
            },
        };
        Rect::new(self.pos.x, self.pos.y, w, styles.ui_font.size)
    }

    fn set_position(&mut self, point: Point) -> (supported: bool)
        ensures
            *final(self) == (Label { pos: point, ..*old(self) }),
            supported,
    {
        self.pos = point;
        true
    }
}

/// An image slot: a screen rectangle and the path of the image shown in it,
/// if any.
#[derive(Debug, PartialEq, Eq)]
pub struct Image {
    pub rect: Rect,
    pub path: Option<String>,
    pub border_radius: u32,
    pub align: Alignment,
    pub dirty: bool,
}

impl Image {
    pub fn empty(rect: Rect) -> (v: Image)
        ensures
            v == (Image {
                rect,
                path: None::<String>,
                border_radius: 0,
                align: Alignment::Left,
                dirty: true,
            }),
    {
        Image { rect, path: None, border_radius: 0, align: Alignment::Left, dirty: true }
    }

    pub fn set_path(&mut self, path: Option<String>)
        ensures
            *final(self) == (Image { path, dirty: true, ..*old(self) }),
    {
        self.path = path;
        self.dirty = true;
    }

    pub fn set_border_radius(&mut self, radius: u32)
        ensures
            *final(self) == (Image { border_radius: radius, ..*old(self) }),
    {
        self.border_radius = radius;
    }

    pub fn set_alignment(&mut self, align: Alignment)
        ensures
            *final(self) == (Image { align, ..*old(self) }),
    {
        self.align = align;
    }
}

impl ViewNode for Image {
    open spec fn inv(&self) -> bool {
        true
    }

    open spec fn tree_dirty(&self) -> bool {
        self.dirty
    }

    open spec fn draws_no_background(&self) -> bool {
        true
    }

    fn should_draw(&self) -> (r: bool) {
        self.dirty
    }

    fn set_should_draw(&mut self)
        ensures
            *final(self) == (Image { dirty: true, ..*old(self) }),
    {
        self.dirty = true;
    }

    fn draw(&mut self, display: &mut DisplayLog, styles: &Stylesheet) -> (drawn: bool)
        ensures
            match old(self).path {
                Some(p) => old(self).dirty ==> final(display).ops@ =~= old(display).ops@.push(
                    DrawOp::Image(old(self).rect, p),
                ),
                None => final(display).ops@ =~= old(display).ops@,
            },
            !old(self).dirty ==> final(display).ops@ =~= old(display).ops@,
            *final(self) == (Image { dirty: false, ..*old(self) }),
    {
        if self.dirty {
            self.dirty = false;
            match &self.path {
                Some(p) => {
                    display.image(self.rect, p.clone());
                    proof {
                        lemma_appended_clear(*old(display), *display);
                    }
                    true
                },
                None => {
                    proof {
                        lemma_appended_clear(*old(display), *display);
                    }
                    false
                },
            }
        } else {
            proof {
                lemma_appended_clear(*old(display), *display);
            }
            false
        }
    }

    fn handle_key_event(&mut self, event: KeyEvent, commands: &mut CommandSink, bubble: &mut Bubble)
        -> (consumed: bool)
        ensures
            final(commands).sent@ =~= old(commands).sent@,
            final(bubble)@ =~= old(bubble)@,
            *final(self) == *old(self),
            !consumed,
    {
        false
    }

    fn bounding_box(&self, styles: &Stylesheet) -> (r: Rect)
        ensures
            r == self.rect,
    {
        self.rect
    }

    fn set_position(&mut self, point: Point) -> (supported: bool)
        ensures
            supported,
    {
        self.rect.x = point.x;
        self.rect.y = point.y;
        true
    }
}

/// A button glyph with a short caption, e.g. the `A` button beside
/// "Select".
#[derive(Debug, PartialEq, Eq)]
pub struct ButtonHint {
    pub pos: Point,
    pub key: Key,
    pub text: String,
    pub align: Alignment,
    pub dirty: bool,
}

impl ButtonHint {
    pub fn new(pos: Point, key: Key, text: String, align: Alignment) -> (h: ButtonHint)
        ensures
            h == (ButtonHint { pos, key, text, align, dirty: true }),
    {
        ButtonHint { pos, key, text, align, dirty: true }
    }

    /// The color role of the button glyph.
    pub open spec fn spec_button_role(key: Key) -> StylesheetColor {
        match key {
            Key::A => StylesheetColor::ButtonA,
            Key::B => StylesheetColor::ButtonB,
            Key::X => StylesheetColor::ButtonX,
            Key::Y => StylesheetColor::ButtonY,
            _ => StylesheetColor::Disabled,
        }
    }

    fn button_role(key: Key) -> (role: StylesheetColor)
        ensures
            role == Self::spec_button_role(key),
    {
        match key {
            Key::A => StylesheetColor::ButtonA,
            Key::B => StylesheetColor::ButtonB,
            Key::X => StylesheetColor::ButtonX,
            Key::Y => StylesheetColor::ButtonY,
            _ => StylesheetColor::Disabled,
        }
    }
}

impl ViewNode for ButtonHint {
    open spec fn inv(&self) -> bool {
        true
    }

    open spec fn tree_dirty(&self) -> bool {
        self.dirty
    }

    open spec fn draws_no_background(&self) -> bool {
        true
    }

    fn should_draw(&self) -> (r: bool) {
        self.dirty
    }

    fn set_should_draw(&mut self)
        ensures
            *final(self) == (ButtonHint { dirty: true, ..*old(self) }),
    {
        self.dirty = true;
    }

    fn draw(&mut self, display: &mut DisplayLog, styles: &Stylesheet) -> (drawn: bool)
        ensures
            old(self).dirty ==> final(display).ops@ =~= old(display).ops@.push(
                DrawOp::Rounded(
                    Rect {
                        x: old(self).pos.x,
                        y: old(self).pos.y,
                        w: styles.ui_font.size,
                        h: styles.ui_font.size,
                    },
                    styles.ui_font.size / 2,
                    styles.spec_color(Self::spec_button_role(old(self).key)),
                ),
            ).push(
                DrawOp::Text(
                    old(self).pos,
                    old(self).text,
                    old(self).align,
                    styles.spec_color(StylesheetColor::Foreground),
                ),
            ),
            !old(self).dirty ==> final(display).ops@ =~= old(display).ops@,
            *final(self) == (ButtonHint { dirty: false, ..*old(self) }),
    {
        if self.dirty {
            let glyph = Rect::new(self.pos.x, self.pos.y, styles.ui_font.size, styles.ui_font.size);
            display.rounded(
                glyph,
                styles.ui_font.size / 2,
                styles.color(ButtonHint::button_role(self.key)),
            );
            display.text(
                self.pos,
                self.text.clone(),
                self.align,
                styles.color(StylesheetColor::Foreground),
            );
            proof {
                lemma_appended_clear(*old(display), *display);
            }
            self.dirty = false;
            true
        } else {
            proof {
                lemma_appended_clear(*old(display), *display);
            }
            false
        }
    }

    fn handle_key_event(&mut self, event: KeyEvent, commands: &mut CommandSink, bubble: &mut Bubble)
        -> (consumed: bool)
        ensures
            final(commands).sent@ =~= old(commands).sent@,
            final(bubble)@ =~= old(bubble)@,
            *final(self) == *old(self),
            !consumed,
    {
        false
    }

    fn bounding_box(&self, styles: &Stylesheet) -> (r: Rect) {
        Rect::new(self.pos.x, self.pos.y, styles.ui_font.size, styles.ui_font.size)
    }

    fn set_position(&mut self, point: Point) -> (supported: bool)
        ensures
            supported,
    {
        self.pos = point;
        true
    }
}

/// An ordered row of homogeneous children, laid out by the surrounding
/// screen.
#[derive(Debug)]
pub struct Row<T: ViewNode> {
    pub pos: Point,
    pub children: Vec<T>,
    pub align: Alignment,
    pub spacing: u32,
}

impl<T: ViewNode> Row<T> {
    pub fn new(pos: Point, children: Vec<T>, align: Alignment, spacing: u32) -> (r: Row<T>)
        requires
            children@.len() > 0,
            forall|i: int| 0 <= i < children@.len() ==> #[trigger] children@[i].inv(),
        ensures
            r.inv(),
            r == (Row { pos, children, align, spacing }),
    {
        Row { pos, children, align, spacing }
    }

    pub fn len(&self) -> (n: usize)
        ensures
            n == self.children@.len(),
    {
        self.children.len()
    }
}

impl<T: ViewNode> ViewNode for Row<T> {
    open spec fn inv(&self) -> bool {
        self.children@.len() > 0 && forall|i: int|
            0 <= i < self.children@.len() ==> #[trigger] self.children@[i].inv()
    }

    open spec fn tree_dirty(&self) -> bool {
        exists|i: int| 0 <= i < self.children@.len() && #[trigger] self.children@[i].tree_dirty()
    }

    open spec fn draws_no_background(&self) -> bool {
        forall|i: int| 0 <= i < self.children@.len() ==> #[trigger] self.children@[i].draws_no_background()
    }

    fn should_draw(&self) -> (r: bool) {
        let n = self.children.len();
        let mut i: usize = 0;
        while i < n
            invariant
                self.inv(),
                n == self.children@.len(),
                0 <= i <= n,
                forall|j: int| 0 <= j < i ==> !#[trigger] self.children@[j].tree_dirty(),
            decreases n - i,
        {
            if self.children[i].should_draw() {
                return true;
            }
            i += 1;
        }
        false
    }

    fn set_should_draw(&mut self)
        ensures
            final(self).children@.len() == old(self).children@.len(),
            final(self).pos == old(self).pos,
            final(self).align == old(self).align,
            final(self).spacing == old(self).spacing,
            forall|j: int|
                0 <= j < final(self).children@.len()
                    ==> (#[trigger] final(self).children@[j]).tree_dirty(),
    {
        let n = self.children.len();
        let mut i: usize = 0;
        while i < n
            invariant
                n == self.children@.len(),
                0 < n,
                0 <= i <= n,
                self.pos == old(self).pos,
                self.align == old(self).align,
                self.spacing == old(self).spacing,
                forall|j: int| 0 <= j < n ==> #[trigger] self.children@[j].inv(),
                forall|j: int| 0 <= j < i ==> #[trigger] self.children@[j].tree_dirty(),
            decreases n - i,
        {
            let c = &mut self.children[i];
            c.set_should_draw();
            i += 1;
        }
        assert(self.children@[0].tree_dirty());
    }

    fn draw(&mut self, display: &mut DisplayLog, styles: &Stylesheet) -> (drawn: bool)
        ensures
            final(self).children@.len() == old(self).children@.len(),
            final(self).pos == old(self).pos,
            final(self).align == old(self).align,
            final(self).spacing == old(self).spacing,
    {
        let ghost base = *display;
        let n = self.children.len();
        let mut drawn = false;
        let mut i: usize = 0;
        while i < n
            invariant
                n == self.children@.len(),
                0 <= i <= n,
                self.pos == old(self).pos,
                self.align == old(self).align,
                self.spacing == old(self).spacing,
                n == old(self).children@.len(),
                forall|j: int| 0 <= j < n ==> #[trigger] self.children@[j].inv(),
                forall|j: int| 0 <= j < i ==> !#[trigger] self.children@[j].tree_dirty(),
                forall|j: int|
                    i <= j < n ==> #[trigger] self.children@[j] == old(self).children@[j],
                display.extends(base),
                drawn == (display.ops@.len() > base.ops@.len()),
                old(self).draws_no_background() ==> crate::display::count_invalidates(
                    display.appended_since(base),
                ) == 0,
            decreases n - i,
        {
            let ghost prev = *display;
            proof {
                if old(self).draws_no_background() {
                    assert(old(self).children@[i as int].draws_no_background());
                    assert(self.children@[i as int].draws_no_background());
                }
            }
            let c = &mut self.children[i];
            let d = c.draw(display, styles);
            proof {
                crate::display::lemma_extends_trans(base, prev, *display);
                if old(self).draws_no_background() {
                    crate::display::lemma_count_invalidates_split(
                        base.ops@,
                        prev.ops@,
                        display.ops@,
                    );
                }
            }
            drawn = drawn || d;
            i += 1;
        }
        drawn
    }

    fn handle_key_event(&mut self, event: KeyEvent, commands: &mut CommandSink, bubble: &mut Bubble)
        -> (consumed: bool) {
        // Rows hold passive adornments (hints, status items); input is
        // handled by the surrounding screen.
        false
    }

    fn bounding_box(&self, styles: &Stylesheet) -> (r: Rect) {
        Rect::new(self.pos.x, self.pos.y, 0, styles.ui_font.size)
    }

    fn set_position(&mut self, point: Point) -> (supported: bool)
        ensures
            supported,
    {
        self.pos = point;
        true
    }
}

/// The value widget on the right-hand side of a settings row.
#[derive(Debug, PartialEq, Eq)]
pub enum RightWidget {
    /// No value shown.
    Nothing,
    /// A plain value caption.
    Caption(String),
    /// An on/off toggle.
    Toggle(bool),
    /// One choice among options.
    Select { index: usize, options: Vec<String> },
    /// A bounded number.
    Number { value: i32, min: i32, max: i32 },
    /// A color; edited by an external picker dialog, re-committed here.
    Rgb(Color),
}

impl RightWidget {
    pub open spec fn wf(&self) -> bool {
        match self {
            RightWidget::Select { index, options } => options@.len() > 0 && *index < options@.len(),
            RightWidget::Number { value, min, max } => *min <= *value <= *max,
            _ => true,
        }
    }
}

/// A list of settings rows: a caption on the left, an optional value
/// widget on the right, one row selected. Left and right keys adjust the
/// selected value widget and report the change as a `ValueChanged` on the
/// bubble queue for the owning screen to apply.
#[derive(Debug)]
pub struct SettingsList {
    pub rect: Rect,
    pub left: Vec<String>,
    pub right: Vec<RightWidget>,
    pub selected: usize,
    pub row_height: u32,
    pub dirty: bool,
}

/// The bubble entries a settings list may append: value changes for its
/// own rows, nothing else.
pub open spec fn only_value_changes(appended: Seq<Command>, row: int) -> bool {
    forall|i: int|
        0 <= i < appended.len() ==> ((#[trigger] appended[i]) matches Command::ValueChanged(
            r,
            _,
        ) && r == row)
}

impl SettingsList {
    pub open spec fn wf(&self) -> bool {
        &&& self.left@.len() == self.right@.len()
        &&& self.left@.len() > 0
        &&& self.selected < self.left@.len()
        &&& forall|i: int| 0 <= i < self.right@.len() ==> (#[trigger] self.right@[i]).wf()
    }

    pub fn new(rect: Rect, left: Vec<String>, right: Vec<RightWidget>, row_height: u32) -> (l:
        SettingsList)
        requires
            left@.len() == right@.len(),
            left@.len() > 0,
            forall|i: int| 0 <= i < right@.len() ==> (#[trigger] right@[i]).wf(),
        ensures
            l.wf(),
            l == (SettingsList { rect, left, right, selected: 0, row_height, dirty: true }),
    {
        SettingsList { rect, left, right, selected: 0, row_height, dirty: true }
    }

    pub fn selected(&self) -> (r: usize)
        ensures
            r == self.selected,
    {
        self.selected
    }

    /// Moves the selection.
    pub fn select(&mut self, index: usize)
        requires
            old(self).wf(),
        ensures
            final(self).wf(),
            final(self).selected == if index < old(self).left@.len() {
                index as int
            } else {
                old(self).selected as int
            },
            final(self).dirty,
            final(self).left == old(self).left,
            final(self).right == old(self).right,
    {
        if index < self.left.len() {
            self.selected = index;
        }
        self.dirty = true;
    }

    /// Replaces the value widget of one row.
    pub fn set_right(&mut self, index: usize, widget: RightWidget)
        requires
            old(self).wf(),
            widget.wf(),
        ensures
            final(self).wf(),
            final(self).right@ =~= if index < old(self).right@.len() {
                old(self).right@.update(index as int, widget)
            } else {
                old(self).right@
            },
            final(self).left == old(self).left,
            final(self).selected == old(self).selected,
            final(self).dirty,
    {
        if index < self.right.len() {
            self.right.set(index, widget);
        }
        self.dirty = true;
    }
}

impl ViewNode for SettingsList {
    open spec fn inv(&self) -> bool {
        self.wf()
    }

    open spec fn tree_dirty(&self) -> bool {
        self.dirty
    }

    open spec fn draws_no_background(&self) -> bool {
        false
    }

    fn should_draw(&self) -> (r: bool) {
        self.dirty
    }

    fn set_should_draw(&mut self)
        ensures
            final(self).dirty,
            final(self).left == old(self).left,
            final(self).right == old(self).right,
            final(self).selected == old(self).selected,
            final(self).rect == old(self).rect,
    {
        self.dirty = true;
    }

    fn draw(&mut self, display: &mut DisplayLog, styles: &Stylesheet) -> (drawn: bool)
        ensures
            final(self).left == old(self).left,
            final(self).right == old(self).right,
            final(self).selected == old(self).selected,
            final(self).rect == old(self).rect,
            old(self).dirty ==> final(display).appended_since(*old(display))[0]
                == DrawOp::Invalidate(old(self).rect),
            crate::display::count_invalidates(final(display).appended_since(*old(display)))
                == if old(self).dirty {
                1int
            } else {
                0int
            },
    {
        if !self.dirty {
            proof {
                lemma_appended_clear(*old(display), *display);
            }
            return false;
        }
        let ghost base = *display;
        // One background invalidation for the whole list, then one caption
        // per row; the selected row is marked by a highlight bar.
        display.load(self.rect);
        proof {
            assert(display.appended_since(base) =~= seq![DrawOp::Invalidate(self.rect)]);
            crate::display::lemma_count_invalidates_singleton(DrawOp::Invalidate(self.rect));
        }
        let n = self.left.len();
        let mut i: usize = 0;
        let mut y: i32 = self.rect.y;
        while i < n
            invariant
                self.wf(),
                n == self.left@.len(),
                0 <= i <= n,
                display.extends(base),
                display.ops@.len() > base.ops@.len(),
                display.appended_since(base)[0] == DrawOp::Invalidate(self.rect),
                crate::display::count_invalidates(display.appended_since(base)) == 1,
            decreases n - i,
        {
            let ghost prev = *display;
            if i == self.selected {
                display.rounded(
                    Rect::new(self.rect.x, y, self.rect.w, self.row_height),
                    4,
                    styles.color(StylesheetColor::Highlight),
                );
            }
            let caption_x = if self.rect.x <= i32::MAX - 12 {
                self.rect.x + 12
            } else {
                self.rect.x
            };
            display.text(
                Point::new(caption_x, y),
                self.left[i].clone(),
                Alignment::Left,
                styles.color(StylesheetColor::Foreground),
            );
            match &self.right[i] {
                RightWidget::Caption(c) => {
                    display.text(
                        Point::new(self.rect.x, y),
                        c.clone(),
                        Alignment::Right,
                        styles.color(StylesheetColor::Foreground),
                    );
                },
                _ => {},
            }
            proof {
                crate::display::lemma_extends_trans(base, prev, *display);
                crate::display::lemma_count_invalidates_split(base.ops@, prev.ops@, display.ops@);
                crate::display::lemma_count_invalidates_none(
                    display.ops@.skip(prev.ops@.len() as int),
                );
            }
            let step = if self.row_height > i32::MAX as u32 {
                i32::MAX
            } else {
                self.row_height as i32
            };
            if y <= i32::MAX - step {
                y = y + step;
            }
            i += 1;
        }
        self.dirty = false;
        true
    }

    fn handle_key_event(&mut self, event: KeyEvent, commands: &mut CommandSink, bubble: &mut Bubble)
        -> (consumed: bool)
        ensures
            final(commands).sent@ =~= old(commands).sent@,
            final(self).selected == old(self).selected || final(self).dirty,
            final(bubble)@.len() >= old(bubble)@.len(),
            final(bubble)@.take(old(bubble)@.len() as int) =~= old(bubble)@,
            only_value_changes(
                final(bubble)@.skip(old(bubble)@.len() as int),
                old(self).selected as int,
            ),
            final(self).left == old(self).left,
    {
        let ghost b0 = bubble@;
        match event {
            KeyEvent::Pressed(Key::Up) | KeyEvent::Autorepeat(Key::Up) => {
                if self.selected > 0 {
                    self.selected = self.selected - 1;
                    self.dirty = true;
                }
                assert(bubble@.skip(b0.len() as int) =~= Seq::<Command>::empty());
                true
            },
            KeyEvent::Pressed(Key::Down) | KeyEvent::Autorepeat(Key::Down) => {
                if self.selected < self.left.len() - 1 {
                    self.selected = self.selected + 1;
                    self.dirty = true;
                }
                assert(bubble@.skip(b0.len() as int) =~= Seq::<Command>::empty());
                true
            },
            KeyEvent::Pressed(Key::A) => {
                let row = self.selected;
                match &self.right[row] {
                    RightWidget::Toggle(b) => {
                        let nb = !*b;
                        self.right.set(row, RightWidget::Toggle(nb));
                        self.dirty = true;
                        bubble.push(Command::ValueChanged(row, Value::Bool(nb)));
                        assert(bubble@.skip(b0.len() as int) =~= seq![
                            Command::ValueChanged(row, Value::Bool(nb)),
                        ]);
                    },
                    RightWidget::Rgb(c) => {
                        let cc = *c;
                        bubble.push(Command::ValueChanged(row, Value::Rgb(cc)));
                        assert(bubble@.skip(b0.len() as int) =~= seq![
                            Command::ValueChanged(row, Value::Rgb(cc)),
                        ]);
                    },
                    _ => {
                        assert(bubble@.skip(b0.len() as int) =~= Seq::<Command>::empty());
                    },
                }
                true
            },
            KeyEvent::Pressed(Key::Left) | KeyEvent::Autorepeat(Key::Left) => {
                self.adjust(false, bubble);
                true
            },
            KeyEvent::Pressed(Key::Right) | KeyEvent::Autorepeat(Key::Right) => {
                self.adjust(true, bubble);
                true
            },
            _ => {
                assert(bubble@.skip(b0.len() as int) =~= Seq::<Command>::empty());
                false
            },
        }
    }

    fn bounding_box(&self, styles: &Stylesheet) -> (r: Rect) {
        self.rect
    }

    fn set_position(&mut self, point: Point) -> (supported: bool)
        ensures
            supported,
    {
        self.rect.x = point.x;
        self.rect.y = point.y;
        true
    }
}

impl SettingsList {
    /// Adjusts the selected value widget one step left or right and
    /// reports the change on the bubble queue.
    fn adjust(&mut self, up: bool, bubble: &mut Bubble)
        requires
            old(self).wf(),
        ensures
            final(self).wf(),
            final(self).selected == old(self).selected,
            final(self).left == old(self).left,
            final(bubble)@.len() >= old(bubble)@.len(),
            final(bubble)@.take(old(bubble)@.len() as int) =~= old(bubble)@,
            only_value_changes(
                final(bubble)@.skip(old(bubble)@.len() as int),
                old(self).selected as int,
            ),
    {
        let ghost b0 = bubble@;
        let row = self.selected;
        match &self.right[row] {
            RightWidget::Select { index, options } => {
                let n = options.len();
                let idx = *index;
                let new_index = if up {
                    if idx + 1 < n {
                        idx + 1
                    } else {
                        0
                    }
                } else {
                    if idx > 0 {
                        idx - 1
                    } else {
                        n - 1
                    }
                };
                let opts = crate::session::clone_string_vec(options);
                self.right.set(row, RightWidget::Select { index: new_index, options: opts });
                self.dirty = true;
                bubble.push(Command::ValueChanged(row, Value::Int(new_index as i64)));
                assert(bubble@.skip(b0.len() as int) =~= seq![
                    Command::ValueChanged(row, Value::Int(new_index as i64)),
                ]);
            },
            RightWidget::Number { value, min, max } => {
                let v = *value;
                let lo = *min;
                let hi = *max;
                let nv = if up {
                    if v < hi {
                        v + 1
                    } else {
                        hi
                    }
                } else {
                    if v > lo {
                        v - 1
                    } else {
                        lo
                    }
                };
                self.right.set(row, RightWidget::Number { value: nv, min: lo, max: hi });
                self.dirty = true;
                bubble.push(Command::ValueChanged(row, Value::Int(nv as i64)));
                assert(bubble@.skip(b0.len() as int) =~= seq![
                    Command::ValueChanged(row, Value::Int(nv as i64)),
                ]);
            },
            _ => {
                assert(bubble@.skip(b0.len() as int) =~= Seq::<Command>::empty());
            },
        }
    }
}

/// The on-screen keyboard of the search overlay. The key grid itself is
/// an external collaborator; what matters to the shell is the text being
/// edited and the two outcomes: submit, which reports the text as a
/// `ValueChanged` on the bubble queue, and cancel, which reports
/// `CloseView`.
#[derive(Debug)]
pub struct Keyboard {
    pub text: String,
    pub dirty: bool,
}

impl Keyboard {
    pub fn new(text: String) -> (k: Keyboard)
        ensures
            k.text == text,
            k.dirty,
    {
        Keyboard { text, dirty: true }
    }
}

impl ViewNode for Keyboard {
    open spec fn inv(&self) -> bool {
        true
    }

    open spec fn tree_dirty(&self) -> bool {
        self.dirty
    }

    open spec fn draws_no_background(&self) -> bool {
        true
    }

    fn should_draw(&self) -> (r: bool) {
        self.dirty
    }

    fn set_should_draw(&mut self)
        ensures
            final(self).dirty,
            final(self).text == old(self).text,
    {
        self.dirty = true;
    }

    fn draw(&mut self, display: &mut DisplayLog, styles: &Stylesheet) -> (drawn: bool)
        ensures
            old(self).dirty ==> final(display).ops@ =~= old(display).ops@.push(
                DrawOp::Text(
                    Point { x: 12, y: 12 },
                    old(self).text,
                    Alignment::Left,
                    styles.spec_color(StylesheetColor::Foreground),
                ),
            ),
            !old(self).dirty ==> final(display).ops@ =~= old(display).ops@,
            crate::display::count_invalidates(final(display).appended_since(*old(display))) == 0,
    {
        if self.dirty {
            display.text(
                Point::new(12, 12),
                self.text.clone(),
                Alignment::Left,
                styles.color(StylesheetColor::Foreground),
            );
            proof {
                lemma_appended_clear(*old(display), *display);
            }
            self.dirty = false;
            true
        } else {
            proof {
                lemma_appended_clear(*old(display), *display);
            }
            false
        }
    }

    fn handle_key_event(&mut self, event: KeyEvent, commands: &mut CommandSink, bubble: &mut Bubble)
        -> (consumed: bool)
        ensures
            final(commands).sent@ =~= old(commands).sent@,
            final(bubble)@.len() >= old(bubble)@.len(),
            final(bubble)@.take(old(bubble)@.len() as int) =~= old(bubble)@,
            event == KeyEvent::Pressed(Key::Start) ==> final(bubble)@ =~= old(bubble)@.push(
                Command::ValueChanged(0, Value::Text(old(self).text)),
            ) && consumed,
            event == KeyEvent::Pressed(Key::B) ==> final(bubble)@ =~= old(bubble)@.push(
                Command::CloseView,
            ) && consumed,
            (event != KeyEvent::Pressed(Key::Start) && event != KeyEvent::Pressed(Key::B))
                ==> final(bubble)@ =~= old(bubble)@,
            consumed == !(event matches KeyEvent::Released(_)),
            final(self).text == old(self).text,
    {
        match event {
            KeyEvent::Pressed(Key::Start) => {
                bubble.push(Command::ValueChanged(0, Value::Text(self.text.clone())));
                true
            },
            KeyEvent::Pressed(Key::B) => {
                bubble.push(Command::CloseView);
                true
            },
            KeyEvent::Pressed(_) | KeyEvent::Autorepeat(_) => {
                // Grid navigation and character entry live in the external
                // keyboard widget; the shell only sees the edited text.
                self.dirty = true;
                true
            },
            _ => false,
        }
    }

    fn bounding_box(&self, styles: &Stylesheet) -> (r: Rect) {
        Rect::new(0, 0, 0, 0)
    }

    fn set_position(&mut self, point: Point) -> (supported: bool) {
        false
    }
}

/// What a leaf appended carries no background clear: leaves only push
/// text, image, fill and rounded operations.
proof fn lemma_appended_clear(base: DisplayLog, cur: DisplayLog)
    requires
        cur.extends(base),
        forall|i: int|
            base.ops@.len() <= i < cur.ops@.len() ==> !((#[trigger] cur.ops@[i]) is Invalidate),
    ensures
        crate::display::count_invalidates(cur.appended_since(base)) == 0,
{
    assert(forall|i: int|
        0 <= i < cur.appended_since(base).len() ==> !((#[trigger] cur.appended_since(base)[i])
            is Invalidate));
    crate::display::lemma_count_invalidates_none(cur.appended_since(base));
}

} // verus!

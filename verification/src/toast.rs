//! Transient toasts: a message, optionally with an image, shown centered
//! until it expires or is replaced.

use vstd::prelude::*;

use crate::clock::now_millis;
use crate::command::{Bubble, CommandSink};
use crate::display::{DisplayLog, DrawOp};
use crate::geom::{Alignment, Point, Rect};
use crate::key::KeyEvent;
use crate::style::{Stylesheet, StylesheetColor};
use crate::view::ViewNode;

verus! {

/// A toast and, if it is not to stay until replaced, when it expires.
#[derive(Debug, PartialEq, Eq)]
pub struct Toast {
    /// The size of an attached image, if one is shown; the pixels
    /// themselves live with the process that blits.
    pub image: Option<(u32, u32)>,
    pub text: String,
    /// Expiry in wall-clock milliseconds; `None` stays until replaced.
    pub expires: Option<i64>,
    pub dirty: bool,
}

/// The deadline a duration sets from a clock reading: the reading plus
/// the duration, clamped into the representable range; a negative
/// duration expires at once.
pub open spec fn spec_deadline(now: int, duration: int) -> int {
    if duration >= 0 && now <= i64::MAX - duration {
        now + duration
    } else if duration >= 0 {
        i64::MAX as int
    } else {
        now
    }
}

impl Toast {
    /// A toast built against an explicit clock reading, so the deadline
    /// is fixed exactly.
    pub fn new_at(text: String, duration_ms: Option<i64>, now_ms: i64) -> (t: Toast)
        ensures
            t.text == text,
            t.image is None,
            t.expires == match duration_ms {
                Some(d) => Some(spec_deadline(now_ms as int, d as int) as i64),
                None => None::<i64>,
            },
            t.dirty,
    {
        let expires = match duration_ms {
            Some(d) => Some(
                if d >= 0 && now_ms <= i64::MAX - d {
                    now_ms + d
                } else if d >= 0 {
                    i64::MAX
                } else {
                    now_ms
                },
            ),
            None => None,
        };
        Toast { image: None, text, expires, dirty: true }
    }

    /// A toast lasting the given milliseconds from now, or until
    /// replaced.
    pub fn new(text: String, duration_ms: Option<i64>) -> (t: Toast)
        ensures
            t.text == text,
            t.image is None,
            t.expires is Some <==> duration_ms is Some,
            t.dirty,
    {
        let now = now_millis();
        Toast::new_at(text, duration_ms, now)
    }

    /// A toast with an attached image of the given size.
    pub fn with_image(image: (u32, u32), text: String, duration_ms: Option<i64>) -> (t: Toast)
        ensures
            t.text == text,
            t.image == Some(image),
            t.expires is Some <==> duration_ms is Some,
            t.dirty,
    {
        let mut t = Toast::new(text, duration_ms);
        t.image = Some(image);
        t
    }

    /// Whether the toast is past its deadline at a given clock reading;
    /// exact for every reading.
    pub fn expired_at(&self, now_ms: i64) -> (r: bool)
        ensures
            r == (self.expires matches Some(at) && now_ms > at),
    {
        match self.expires {
            Some(at) => now_ms > at,
            None => false,
        }
    }

    /// Whether the toast has outlived its duration, against the clock
    /// now. A toast without a duration never expires on its own.
    pub fn has_expired(&self) -> (r: bool)
        ensures
            r ==> self.expires is Some,
    {
        let now = now_millis();
        self.expired_at(now)
    }
}

impl ViewNode for Toast {
    open spec fn inv(&self) -> bool {
        true
    }

    open spec fn tree_dirty(&self) -> bool {
        self.dirty
    }

    open spec fn draws_no_background(&self) -> bool {
        true
    }

    fn should_draw(&self) -> (r: bool) {
        self.dirty
    }

    fn set_should_draw(&mut self)
        ensures
            final(self).dirty,
            final(self).text == old(self).text,
            final(self).expires == old(self).expires,
    {
        self.dirty = true;
    }

    fn draw(&mut self, display: &mut DisplayLog, styles: &Stylesheet) -> (drawn: bool)
        ensures
            !old(self).dirty ==> final(display).ops@ =~= old(display).ops@,
    {
        let ghost base = *display;
        if !self.dirty {
            proof {
                assert(display.appended_since(base) =~= Seq::<crate::display::DrawOp>::empty());
            }
            return false;
        }
        // A rounded backdrop, the image when there is one, and the text,
        // centered; the interpreter centers against the surface size.
        let backdrop = Rect::new(0, 0, 0, 0);
        display.rounded(backdrop, 12, styles.color(StylesheetColor::Highlight));
        match self.image {
            Some((w, h)) => {
                display.fill(Rect::new(0, 0, w, h), styles.color(StylesheetColor::Background));
            },
            None => {},
        }
        display.text(
            Point::new(0, 0),
            self.text.clone(),
            Alignment::Center,
            styles.color(StylesheetColor::Foreground),
        );
        proof {
            assert(forall|i: int|
                0 <= i < display.appended_since(base).len() ==> !((
                #[trigger] display.appended_since(base)[i]) is Invalidate));
            crate::display::lemma_count_invalidates_none(display.appended_since(base));
        }
        self.dirty = false;
        true
    }

    fn handle_key_event(&mut self, event: KeyEvent, commands: &mut CommandSink, bubble: &mut Bubble)
        -> (consumed: bool)
        ensures
            final(commands).sent@ =~= old(commands).sent@,
            final(bubble)@ =~= old(bubble)@,
            !consumed,
    {
        false
    }

    fn bounding_box(&self, styles: &Stylesheet) -> (r: Rect) {
        Rect::zero()
    }

    fn set_position(&mut self, point: Point) -> (supported: bool) {
        false
    }
}

} // verus!

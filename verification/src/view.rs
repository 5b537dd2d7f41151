//! The view-node contract: the capability set every element of the UI tree
//! implements.
//!
//! The redraw protocol is caller-asserted dirtiness: a node that changes
//! state marks itself (and any descendant whose content it altered) dirty;
//! each frame the root is asked `should_draw`, and if so `draw` runs
//! top-down. `draw` must leave the whole subtree clean — a node that never
//! clears its flag would cause infinite redraw, so the contract forbids it.

use vstd::prelude::*;

use crate::command::{Bubble, CommandSink};
use crate::display::DisplayLog;
use crate::geom::{Point, Rect};
use crate::key::KeyEvent;
use crate::style::Stylesheet;

verus! {

/// The capability set of a node of the UI tree.
pub trait ViewNode: Sized {
    /// Well-formedness of the node; constructors establish it and every
    /// method preserves it.
    spec fn inv(&self) -> bool;

    /// True when this node or any reachable descendant is dirty. Callers
    /// rely on this for short-circuiting traversal: a clean subtree is
    /// skipped whole.
    spec fn tree_dirty(&self) -> bool;

    /// True of nodes that never clear a background region: their draw
    /// appends no invalidation, so a composite above them can count its
    /// own background clear exactly.
    spec fn draws_no_background(&self) -> bool;

    /// Pure dirtiness query.
    fn should_draw(&self) -> (r: bool)
        requires
            self.inv(),
        ensures
            r == self.tree_dirty(),
    ;

    /// Propagates "needs redraw" to this node and all its descendants.
    fn set_should_draw(&mut self)
        requires
            old(self).inv(),
        ensures
            final(self).inv(),
            final(self).tree_dirty(),
    ;

    /// Renders what is dirty by appending draw operations, and clears every
    /// dirty flag the node owns. Returns whether anything was drawn.
    fn draw(&mut self, display: &mut DisplayLog, styles: &Stylesheet) -> (drawn: bool)
        requires
            old(self).inv(),
        ensures
            final(self).inv(),
            !final(self).tree_dirty(),
            final(display).extends(*old(display)),
            drawn == (final(display).ops@.len() > old(display).ops@.len()),
            old(self).draws_no_background() ==> crate::display::count_invalidates(
                final(display).appended_since(*old(display)),
            ) == 0,
    ;

    /// Offers one key event to the node. Returns whether the event was
    /// consumed. Commands for the application root go to `commands`;
    /// commands meant for an ancestor are appended to `bubble`. The sink
    /// is append-only.
    fn handle_key_event(&mut self, event: KeyEvent, commands: &mut CommandSink, bubble: &mut Bubble)
        -> (consumed: bool)
        requires
            old(self).inv(),
        ensures
            final(self).inv(),
            final(commands).extends(*old(commands)),
    ;

    /// The screen rectangle the node occupies under the given style sheet.
    fn bounding_box(&self, styles: &Stylesheet) -> Rect
        requires
            self.inv(),
    ;

    /// Relocates the node. Composite nodes that do not support relocation
    /// signal it by returning false and staying put.
    fn set_position(&mut self, point: Point) -> (supported: bool)
        requires
            old(self).inv(),
        ensures
            final(self).inv(),
    ;
}

/// A view that renders nothing and consumes nothing; used to fill slots
/// that are momentarily empty. It still keeps a dirty flag so that the
/// marking and clearing protocol holds of it like of any other node.
#[derive(Debug, Clone, Copy, PartialEq, Eq, Structural)]
pub struct NullView {
    pub dirty: bool,
}

impl NullView {
    pub fn new() -> (v: NullView)
        ensures
            !v.dirty,
    {
        NullView { dirty: false }
    }
}

impl ViewNode for NullView {
    open spec fn inv(&self) -> bool {
        true
    }

    open spec fn tree_dirty(&self) -> bool {
        self.dirty
    }

    open spec fn draws_no_background(&self) -> bool {
        true
    }

    fn should_draw(&self) -> (r: bool) {
        self.dirty
    }

    fn set_should_draw(&mut self) {
        self.dirty = true;
    }

    fn draw(&mut self, display: &mut DisplayLog, styles: &Stylesheet) -> (drawn: bool)
        ensures
            final(display).ops@ =~= old(display).ops@,
    {
        proof {
            assert(display.appended_since(*old(display)) =~= Seq::<crate::display::DrawOp>::empty());
        }
        self.dirty = false;
        false
    }

    fn handle_key_event(&mut self, event: KeyEvent, commands: &mut CommandSink, bubble: &mut Bubble)
        -> (consumed: bool) {
        false
    }

    fn bounding_box(&self, styles: &Stylesheet) -> Rect {
        Rect::zero()
    }

    fn set_position(&mut self, point: Point) -> (supported: bool) {
        false
    }
}

} // verus!

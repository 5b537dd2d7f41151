//! The abstract draw target. Views render by appending primitive draw
//! operations to a log; the surrounding process blits the log onto the
//! hardware surface. The log is the whole observable output of a draw
//! pass, so contracts about drawing are contracts about the log.

use vstd::prelude::*;

use crate::geom::{Alignment, Point, Rect};
use crate::style::Color;

verus! {

/// One primitive operation on the display surface.
#[derive(Debug, Clone, PartialEq, Eq)]
pub enum DrawOp {
    /// Invalidate (clear to background) the given region.
    Invalidate(Rect),
    /// Fill a rectangle with a color.
    Fill(Rect, Color),
    /// Fill a rounded rectangle: rectangle, corner radius, color.
    Rounded(Rect, u32, Color),
    /// Draw a line of text anchored at a point.
    Text(Point, String, Alignment, Color),
    /// Blit the image found at a path into a rectangle.
    Image(Rect, String),
}

/// The draw target: an append-only log of operations for one frame.
pub struct DisplayLog {
    pub ops: Vec<DrawOp>,
}

impl DisplayLog {
    pub fn new() -> (d: DisplayLog)
        ensures
            d.ops@ =~= Seq::<DrawOp>::empty(),
    {
        DisplayLog { ops: Vec::new() }
    }

    /// What this frame appended since a draw pass started at `base`.
    pub open spec fn appended_since(self, base: DisplayLog) -> Seq<DrawOp> {
        self.ops@.skip(base.ops@.len() as int)
    }

    /// The log only ever grows; `extends` says the old log is kept as a
    /// prefix.
    pub open spec fn extends(self, base: DisplayLog) -> bool {
        self.ops@.len() >= base.ops@.len() && self.ops@.take(base.ops@.len() as int) =~= base.ops@
    }

    /// Invalidate (clear) the given region.
    pub fn load(&mut self, rect: Rect)
        ensures
            final(self).ops@ =~= old(self).ops@.push(DrawOp::Invalidate(rect)),
    {
        self.ops.push(DrawOp::Invalidate(rect));
    }

    pub fn fill(&mut self, rect: Rect, color: Color)
        ensures
            final(self).ops@ =~= old(self).ops@.push(DrawOp::Fill(rect, color)),
    {
        self.ops.push(DrawOp::Fill(rect, color));
    }

    pub fn rounded(&mut self, rect: Rect, radius: u32, color: Color)
        ensures
            final(self).ops@ =~= old(self).ops@.push(DrawOp::Rounded(rect, radius, color)),
    {
        self.ops.push(DrawOp::Rounded(rect, radius, color));
    }

    pub fn text(&mut self, pos: Point, text: String, align: Alignment, color: Color)
        ensures
            final(self).ops@ =~= old(self).ops@.push(DrawOp::Text(pos, text, align, color)),
    {
        self.ops.push(DrawOp::Text(pos, text, align, color));
    }

    pub fn image(&mut self, rect: Rect, path: String)
        ensures
            final(self).ops@ =~= old(self).ops@.push(DrawOp::Image(rect, path)),
    {
        self.ops.push(DrawOp::Image(rect, path));
    }
}

/// How many operations of `s` clear a background region.
pub open spec fn count_invalidates(s: Seq<DrawOp>) -> int
    decreases s.len(),
{
    if s.len() == 0 {
        0
    } else {
        count_invalidates(s.drop_last()) + if s.last() is Invalidate {
            1int
        } else {
            0int
        }
    }
}

pub proof fn lemma_count_invalidates_push(s: Seq<DrawOp>, op: DrawOp)
    ensures
        count_invalidates(s.push(op)) == count_invalidates(s) + if op is Invalidate {
            1int
        } else {
            0int
        },
{
    assert(s.push(op).drop_last() =~= s);
    assert(s.push(op).last() == op);
}

/// Counting distributes over concatenation, so a composite may add up its
/// own clear and its children's.
pub proof fn lemma_count_invalidates_add(a: Seq<DrawOp>, b: Seq<DrawOp>)
    ensures
        count_invalidates(a + b) == count_invalidates(a) + count_invalidates(b),
    decreases b.len(),
{
    if b.len() == 0 {
        assert(a + b =~= a);
    } else {
        assert((a + b).drop_last() =~= a + b.drop_last());
        assert((a + b).last() == b.last());
        lemma_count_invalidates_add(a, b.drop_last());
    }
}

/// A single operation counts itself.
pub proof fn lemma_count_invalidates_singleton(op: DrawOp)
    ensures
        count_invalidates(seq![op]) == if op is Invalidate {
            1int
        } else {
            0int
        },
{
    assert(seq![op].drop_last() =~= Seq::<DrawOp>::empty());
    assert(count_invalidates(Seq::<DrawOp>::empty()) == 0);
}

/// A run without an invalidation counts zero.
pub proof fn lemma_count_invalidates_none(s: Seq<DrawOp>)
    requires
        forall|i: int| 0 <= i < s.len() ==> !((#[trigger] s[i]) is Invalidate),
    ensures
        count_invalidates(s) == 0,
    decreases s.len(),
{
    if s.len() > 0 {
        assert(forall|i: int|
            0 <= i < s.drop_last().len() ==> !((#[trigger] s.drop_last()[i]) is Invalidate));
        lemma_count_invalidates_none(s.drop_last());
        assert(!(s[s.len() - 1] is Invalidate));
    }
}

/// Appending nothing counts nothing; splitting an extension into the part
/// up to `mid` and the rest adds the two parts' counts.
pub proof fn lemma_count_invalidates_split(base: Seq<DrawOp>, mid: Seq<DrawOp>, end: Seq<DrawOp>)
    requires
        base.len() <= mid.len() <= end.len(),
        mid.take(base.len() as int) =~= base,
        end.take(mid.len() as int) =~= mid,
    ensures
        count_invalidates(end.skip(base.len() as int)) == count_invalidates(
            mid.skip(base.len() as int),
        ) + count_invalidates(end.skip(mid.len() as int)),
{
    assert(end.skip(base.len() as int) =~= mid.skip(base.len() as int) + end.skip(
        mid.len() as int,
    ));
    lemma_count_invalidates_add(mid.skip(base.len() as int), end.skip(mid.len() as int));
}

/// Extension is reflexive and transitive, so a draw pass may thread the
/// same log through any number of children.
pub proof fn lemma_extends_trans(a: DisplayLog, b: DisplayLog, c: DisplayLog)
    requires
        b.extends(a),
        c.extends(b),
    ensures
        c.extends(a),
{
    assert(c.ops@.take(a.ops@.len() as int) =~= b.ops@.take(a.ops@.len() as int));
}

} // verus!

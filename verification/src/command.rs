//! The command bus: cross-cutting requests that leaf views cannot fulfil
//! themselves, the process-wide sink they are sent to, and the per-dispatch
//! bubble queue that lets ancestors intercept a descendant's commands.

use vstd::prelude::*;

use crate::retroarch::ControlRequest;
use crate::session::LaunchPlan;
use crate::style::{Color, Stylesheet};

verus! {

/// A settings value carried by a `ValueChanged` command.
#[derive(Debug, Clone, PartialEq, Eq)]
pub enum Value {
    Bool(bool),
    Int(i64),
    Text(String),
    Rgb(Color),
}

impl Value {
    pub fn as_int(&self) -> (r: Option<i64>)
        ensures
            r == if self is Int {
                Some(self->Int_0)
            } else {
                None::<i64>
            },
    {
        match self {
            Value::Int(i) => Some(*i),
            _ => None,
        }
    }

    pub fn as_color(&self) -> (r: Option<Color>)
        ensures
            r == if self is Rgb {
                Some(self->Rgb_0)
            } else {
                None::<Color>
            },
    {
        match self {
            Value::Rgb(c) => Some(*c),
            _ => None,
        }
    }
}

/// A request bubbling from a view toward the application root.
#[derive(Debug, Clone, PartialEq, Eq)]
pub enum Command {
    /// Exit the process.
    Exit,
    /// Close the innermost open overlay or child view.
    CloseView,
    /// Run a search with the given query.
    Search(String),
    /// A settings row changed: row index and new value.
    ValueChanged(usize, Value),
    /// Replace the process image with the given launch plan.
    Exec(LaunchPlan),
    /// Show a transient toast; duration in milliseconds, `None` meaning
    /// until replaced.
    Toast(String, Option<u64>),
    /// Redraw the whole tree.
    Redraw,
    /// Capture the emulator state and store a save-state screenshot for
    /// the given content path, core and slot.
    SaveStateScreenshot { path: String, core: String, slot: i8 },
    /// Populate the game database index.
    PopulateDb,
    /// Persist a changed style sheet.
    SaveStylesheet(Stylesheet),
    /// Issue a request to the emulator over the control transport.
    Control(ControlRequest),
}

/// The process-wide command channel, seen from the sending side. Commands
/// are only ever appended; the event loop at the root drains them.
pub struct CommandSink {
    pub sent: Vec<Command>,
}

impl CommandSink {
    pub fn new() -> (s: CommandSink)
        ensures
            s.sent@ =~= Seq::<Command>::empty(),
    {
        CommandSink { sent: Vec::new() }
    }

    /// The sink is append-only: `extends` says everything sent before is
    /// still there, in order, as a prefix.
    pub open spec fn extends(self, base: CommandSink) -> bool {
        self.sent@.len() >= base.sent@.len() && self.sent@.take(base.sent@.len() as int)
            =~= base.sent@
    }

    /// What was sent since `base`.
    pub open spec fn sent_since(self, base: CommandSink) -> Seq<Command> {
        self.sent@.skip(base.sent@.len() as int)
    }

    /// Sends one command to the application root.
    pub fn send(&mut self, cmd: Command)
        ensures
            final(self).sent@ =~= old(self).sent@.push(cmd),
    {
        self.sent.push(cmd);
    }
}

/// Extension of the sink is transitive, so a dispatch may thread the same
/// sink through any number of views.
pub proof fn lemma_sink_extends_trans(a: CommandSink, b: CommandSink, c: CommandSink)
    requires
        b.extends(a),
        c.extends(b),
    ensures
        c.extends(a),
{
    assert(c.sent@.take(a.sent@.len() as int) =~= b.sent@.take(a.sent@.len() as int));
}

/// The transient per-dispatch bubble queue, FIFO within one dispatch.
/// A fresh one is made for every input event; it is never retained
/// across frames.
pub type Bubble = Vec<Command>;

/// How many commands of `s` satisfy `p`.
pub open spec fn count_matching(s: Seq<Command>, p: spec_fn(Command) -> bool) -> int
    decreases s.len(),
{
    if s.len() == 0 {
        0
    } else {
        count_matching(s.drop_last(), p) + if p(s.last()) {
            1int
        } else {
            0int
        }
    }
}

/// Counting distributes over concatenation.
pub proof fn lemma_count_matching_add(a: Seq<Command>, b: Seq<Command>, p: spec_fn(Command) -> bool)
    ensures
        count_matching(a + b, p) == count_matching(a, p) + count_matching(b, p),
    decreases b.len(),
{
    if b.len() == 0 {
        assert(a + b =~= a);
    } else {
        assert((a + b).drop_last() =~= a + b.drop_last());
        assert((a + b).last() == b.last());
        lemma_count_matching_add(a, b.drop_last(), p);
    }
}

} // verus!

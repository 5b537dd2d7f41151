//! The input dispatcher: one event, one fresh bubble queue, one walk of
//! the active path. What no ancestor consumed flows to the root channel,
//! each leftover exactly once.

use vstd::prelude::*;

use crate::command::{count_matching, lemma_count_matching_add, Bubble, Command, CommandSink};
use crate::key::KeyEvent;
use crate::view::ViewNode;

verus! {

/// Moves every leftover bubble command onto the root channel, in bubble
/// order, leaving the queue empty.
pub fn flush_bubble(commands: &mut CommandSink, bubble: &mut Bubble)
    ensures
        final(commands).sent@ =~= old(commands).sent@ + old(bubble)@,
        final(bubble)@ =~= Seq::<Command>::empty(),
{
    let ghost b0 = bubble@;
    let ghost base = commands.sent@;
    let mut i: usize = 0;
    let n = bubble.len();
    assert(bubble@ =~= b0.skip(0));
    while i < n
        invariant
            n == b0.len(),
            0 <= i <= n,
            bubble@ =~= b0.skip(i as int),
            commands.sent@ =~= base + b0.take(i as int),
        decreases n - i,
    {
        assert(b0.skip(i as int)[0] == b0[i as int]);
        assert(b0.skip(i as int).drop_first() =~= b0.skip(i + 1));
        let c = bubble.remove(0);
        commands.send(c);
        assert(commands.sent@ =~= base + b0.take(i + 1));
        i += 1;
    }
    assert(b0.take(n as int) =~= b0);
}

/// Dispatches one key event to the root of a tree: a fresh bubble queue
/// is made for the dispatch, the root's path handles the event, and
/// whatever no node consumed flows to the root channel.
pub fn dispatch_event<V: ViewNode>(root: &mut V, event: KeyEvent, commands: &mut CommandSink) -> (
    consumed: bool)
    requires
        old(root).inv(),
    ensures
        final(root).inv(),
        final(commands).extends(*old(commands)),
{
    let mut bubble: Bubble = Vec::new();
    let ghost pre = *commands;
    let consumed = root.handle_key_event(event, commands, &mut bubble);
    let ghost mid = *commands;
    flush_bubble(commands, &mut bubble);
    proof {
        assert(commands.extends(mid));
        crate::command::lemma_sink_extends_trans(*old(commands), mid, *commands);
    }
    consumed
}

/// A command no ancestor matched reaches the root channel exactly once:
/// flushing a bubble that holds it once, onto a channel segment that does
/// not hold it, yields a channel that holds it exactly once.
pub proof fn lemma_unmatched_command_reaches_root_once(
    sent: Seq<Command>,
    bubble: Seq<Command>,
    p: spec_fn(Command) -> bool,
)
    requires
        count_matching(bubble, p) == 1,
        count_matching(sent, p) == 0,
    ensures
        count_matching(sent + bubble, p) == 1,
{
    lemma_count_matching_add(sent, bubble, p);
}

/// A command consumed by its direct parent never reaches the root
/// channel: after the parent's handling neither the sink's new segment
/// nor the bubble holds it, so flushing adds nothing of it.
pub proof fn lemma_consumed_command_never_reaches_root(
    sent: Seq<Command>,
    bubble: Seq<Command>,
    p: spec_fn(Command) -> bool,
)
    requires
        count_matching(bubble, p) == 0,
        count_matching(sent, p) == 0,
    ensures
        count_matching(sent + bubble, p) == 0,
{
    lemma_count_matching_add(sent, bubble, p);
}

/// Marking any node makes its own query true at once, even when no
/// descendant is dirty: `set_should_draw` ensures `tree_dirty`, and
/// `should_draw` returns exactly `tree_dirty`. Stated here over the
/// shell's composite screens, leaf dirtiness is also visible from every
/// ancestor on the path.
pub proof fn lemma_leaf_dirty_reaches_menu_root(menu: crate::ingame_menu::IngameMenu)
    requires
        menu.child is None,
        menu.menu.tree_dirty(),
    ensures
        menu.tree_dirty(),
{
}

/// A dirty tab is visible from the launcher root's query, whichever tab
/// it is.
pub proof fn lemma_leaf_dirty_reaches_app_root(app: crate::app::App)
    requires
        app.views.0.tree_dirty() || app.views.1.tree_dirty() || app.views.2.tree_dirty()
            || app.views.3.tree_dirty(),
    ensures
        app.tree_dirty(),
{
}

/// A dirty child of a row is visible from the row.
pub proof fn lemma_leaf_dirty_reaches_row<T: ViewNode>(row: crate::widgets::Row<T>, i: int)
    requires
        0 <= i < row.children@.len(),
        row.children@[i].tree_dirty(),
    ensures
        row.tree_dirty(),
{
}

} // verus!

//! The search overlay: an on-screen keyboard that edits a query and either
//! submits it as a `Search` command or is cancelled. While active it
//! short-circuits the whole tree — no other node receives events until it
//! is dismissed or submits.

use vstd::prelude::*;

use crate::command::{Bubble, Command, CommandSink, Value};
use crate::display::DisplayLog;
use crate::geom::{Point, Rect};
use crate::key::{Key, KeyEvent};
use crate::resources::Resources;
use crate::style::Stylesheet;
use crate::view::ViewNode;
use crate::widgets::Keyboard;

verus! {

/// Where the search overlay stands.
#[derive(Debug, Clone, Copy, PartialEq, Eq, Structural)]
pub enum SearchState {
    /// Not shown.
    Inactive,
    /// The keyboard is visible and the user is typing.
    Active,
    /// A query was submitted; the owner is fetching results.
    Searching,
}

/// The commands the overlay consumes from the bubble queue: value
/// submissions and the close marker. Everything else bubbles on.
pub open spec fn keeps_bubbling(c: Command) -> bool {
    !(c is ValueChanged) && !(c is CloseView)
}

/// A bubble with nothing in it that the overlay would consume; every
/// dispatch starts with one, since the queue is made fresh per event.
pub open spec fn clean_bubble(s: Seq<Command>) -> bool {
    forall|i: int| 0 <= i < s.len() ==> keeps_bubbling(#[trigger] s[i])
}

/// The query of the last submission in a dispatch, if any.
pub open spec fn last_submitted(s: Seq<Command>) -> Option<String>
    decreases s.len(),
{
    if s.len() == 0 {
        None
    } else if (s.last() matches Command::ValueChanged(_, v) && v matches Value::Text(t)) {
        Some((s.last()->ValueChanged_1)->Text_0)
    } else {
        last_submitted(s.drop_last())
    }
}

/// What goes to the sink when a query is submitted before the index is
/// ready: a populating toast, the request to build the index, and an
/// empty toast that clears the first.
pub open spec fn populate_sent(base: Seq<Command>, sent: Seq<Command>, populating: String) -> bool {
    &&& sent.len() == base.len() + 3
    &&& sent.take(base.len() as int) =~= base
    &&& sent[base.len() as int] == Command::Toast(populating, None)
    &&& sent[base.len() + 1int] == Command::PopulateDb
    &&& (sent[base.len() + 2int] matches Command::Toast(t, d) && t@ == Seq::<char>::empty() && d
        == Some(0u64))
}

/// Whether a close marker stands anywhere in the queue.
pub open spec fn has_close(s: Seq<Command>) -> bool {
    exists|i: int| 0 <= i < s.len() && (#[trigger] s[i]) is CloseView
}

/// A reusable search overlay over any parent screen. It manages the
/// keyboard and emits search commands without knowing the context; the
/// parent shows the results.
#[derive(Debug)]
pub struct SearchView {
    pub keyboard: Option<Keyboard>,
    pub state: SearchState,
    /// The overlay's own dirty flag, for the mark/clear protocol; the
    /// keyboard carries its own.
    pub dirty: bool,
    /// Whether the database index was ready when the screen was built.
    pub db_indexed: bool,
    /// The toast shown while the index is being populated.
    pub populating_text: String,
}

impl SearchView {
    pub open spec fn wf(&self) -> bool {
        self.state is Active ==> self.keyboard is Some
    }

    /// A new, inactive overlay.
    pub fn new(res: &Resources) -> (v: SearchView)
        ensures
            v.wf(),
            v.state is Inactive,
            v.keyboard is None,
            !v.dirty,
            v.db_indexed == res.database.indexed,
    {
        SearchView {
            keyboard: None,
            state: SearchState::Inactive,
            dirty: false,
            db_indexed: res.database.has_indexed(),
            populating_text: res.locale.t("populating-database"),
        }
    }

    /// Shows the keyboard with an empty query.
    pub fn activate(&mut self)
        ensures
            final(self).wf(),
            final(self).state is Active,
            (final(self).keyboard matches Some(k) && k.text@ =~= Seq::<char>::empty()),
            final(self).db_indexed == old(self).db_indexed,
            final(self).populating_text == old(self).populating_text,
    {
        self.state = SearchState::Active;
        self.keyboard = Some(Keyboard::new(String::new()));
    }

    /// Shows the keyboard pre-filled, for editing an existing query.
    pub fn activate_with_value(&mut self, initial_value: String)
        ensures
            final(self).wf(),
            final(self).state is Active,
            (final(self).keyboard matches Some(k) && k.text == initial_value),
            final(self).db_indexed == old(self).db_indexed,
            final(self).populating_text == old(self).populating_text,
    {
        self.state = SearchState::Active;
        self.keyboard = Some(Keyboard::new(initial_value));
    }

    /// Cancels the search and hides the keyboard.
    pub fn deactivate(&mut self)
        ensures
            final(self).wf(),
            final(self).state is Inactive,
            final(self).keyboard is None,
            final(self).dirty == old(self).dirty,
            final(self).db_indexed == old(self).db_indexed,
            final(self).populating_text == old(self).populating_text,
    {
        self.state = SearchState::Inactive;
        self.keyboard = None;
    }

    /// Whether the overlay holds the focus (typing or fetching).
    pub fn is_active(&self) -> (r: bool)
        ensures
            r == !(self.state is Inactive),
    {
        !matches!(self.state, SearchState::Inactive)
    }

    /// The current overlay state.
    pub fn state(&self) -> (r: &SearchState)
        ensures
            *r == self.state,
    {
        &self.state
    }
}

impl ViewNode for SearchView {
    open spec fn inv(&self) -> bool {
        self.wf()
    }

    open spec fn tree_dirty(&self) -> bool {
        self.dirty || (self.state is Active && (self.keyboard matches Some(k) && k.tree_dirty()))
    }

    open spec fn draws_no_background(&self) -> bool {
        true
    }

    fn should_draw(&self) -> (r: bool) {
        if self.dirty {
            return true;
        }
        match (&self.state, &self.keyboard) {
            (SearchState::Active, Some(k)) => k.should_draw(),
            _ => false,
        }
    }

    fn set_should_draw(&mut self)
        ensures
            final(self).state == old(self).state,
            final(self).db_indexed == old(self).db_indexed,
            final(self).populating_text == old(self).populating_text,
    {
        self.dirty = true;
        match (&self.state, &mut self.keyboard) {
            (SearchState::Active, Some(k)) => k.set_should_draw(),
            _ => {},
        }
    }

    fn draw(&mut self, display: &mut DisplayLog, styles: &Stylesheet) -> (drawn: bool) {
        self.dirty = false;
        match (&self.state, &mut self.keyboard) {
            (SearchState::Active, Some(k)) => k.draw(display, styles),
            _ => false,
        }
    }

    /// When the dispatch began with a clean bubble, the outcome is exact:
    /// cancel closes the overlay and sends nothing — in particular no
    /// `Search` ever reaches the sink from a cancelled overlay — and
    /// submit sends exactly one `Search` with the edited text (or the
    /// index-population sequence when the index is not ready). While
    /// results are awaited, cancel still dismisses the overlay, and the
    /// owner then drops the query it had sent.
    fn handle_key_event(&mut self, event: KeyEvent, commands: &mut CommandSink, bubble: &mut Bubble)
        -> (consumed: bool)
        ensures
            final(self).db_indexed == old(self).db_indexed,
            final(self).populating_text == old(self).populating_text,
            old(self).state is Inactive ==> (*final(self) == *old(self) && final(commands).sent@
                =~= old(commands).sent@ && final(bubble)@ =~= old(bubble)@ && !consumed),
            (old(self).state is Searching && event == KeyEvent::Pressed(Key::B)) ==> (consumed
                && final(self).state is Inactive && final(self).keyboard is None
                && final(commands).sent@ =~= old(commands).sent@ && final(bubble)@
                =~= old(bubble)@),
            (old(self).state is Searching && event != KeyEvent::Pressed(Key::B)) ==> (*final(self)
                == *old(self) && final(commands).sent@ =~= old(commands).sent@ && final(bubble)@
                =~= old(bubble)@ && !consumed),
            (old(self).state is Active && clean_bubble(old(bubble)@)) ==> {
                &&& (event == KeyEvent::Pressed(Key::B)) ==> (consumed && final(self).state
                    is Inactive && final(self).keyboard is None && final(commands).sent@
                    =~= old(commands).sent@ && final(bubble)@ =~= old(bubble)@)
                &&& (event == KeyEvent::Pressed(Key::Start) && old(self).db_indexed) ==> (consumed
                    && final(bubble)@ =~= old(bubble)@ && final(self).state is Searching
                    && final(commands).sent@ =~= old(commands).sent@.push(
                    Command::Search(old(self).keyboard->Some_0.text),
                ))
                &&& (event == KeyEvent::Pressed(Key::Start) && !old(self).db_indexed) ==> (consumed
                    && final(bubble)@ =~= old(bubble)@ && final(self).state is Active
                    && populate_sent(
                    old(commands).sent@,
                    final(commands).sent@,
                    old(self).populating_text,
                ))
                &&& (match event {
                    KeyEvent::Pressed(k) => k != Key::Start && k != Key::B,
                    KeyEvent::Autorepeat(_) => true,
                    KeyEvent::Released(_) => false,
                }) ==> (consumed && final(self).state is Active && final(commands).sent@ =~= old(
                    commands,
                ).sent@ && final(bubble)@ =~= old(bubble)@)
                &&& (event matches KeyEvent::Released(_)) ==> (!consumed && final(commands).sent@
                    =~= old(commands).sent@ && final(bubble)@ =~= old(bubble)@)
            },
    {
        if matches!(self.state, SearchState::Searching) {
            // A cancel while results are awaited dismisses the overlay;
            // the root then drops the pending query, so no search outlives
            // a cancel.
            if event == KeyEvent::Pressed(Key::B) {
                self.deactivate();
                return true;
            }
            return false;
        }
        if !matches!(self.state, SearchState::Active) {
            return false;
        }
        let ghost b0 = bubble@;
        let consumed = match &mut self.keyboard {
            Some(k) => k.handle_key_event(event, commands, bubble),
            None => false,
        };
        if !consumed {
            return false;
        }
        let ghost b1 = bubble@;
        // Pull this dispatch's submission or cancellation out of the
        // bubble; anything else keeps bubbling to the owner.
        let ghost pred = |c: Command| keeps_bubbling(c);
        let mut query: Option<String> = None;
        let mut close = false;
        let mut kept: Bubble = Vec::new();
        proof {
            reveal(Seq::filter);
        }
        assert(b1.take(0int).filter(pred) =~= Seq::<Command>::empty());
        let n = bubble.len();
        let mut i: usize = 0;
        assert(bubble@ =~= b1.skip(0));
        while i < n
            invariant
                n == b1.len(),
                0 <= i <= n,
                bubble@ =~= b1.skip(i as int),
                pred == (|c: Command| keeps_bubbling(c)),
                kept@ =~= b1.take(i as int).filter(pred),
                query == last_submitted(b1.take(i as int)),
                close == has_close(b1.take(i as int)),
            decreases n - i,
        {
            let ghost prefix = b1.take(i as int);
            assert(b1.take(i + 1).drop_last() =~= prefix);
            assert(b1.take(i + 1).last() == b1[i as int]);
            assert(b1.skip(i as int)[0] == b1[i as int]);
            assert(b1.skip(i as int).drop_first() =~= b1.skip(i + 1));
            proof {
                reveal(Seq::filter);
            }
            let c = bubble.remove(0);
            assert(bubble@ =~= b1.skip(i + 1));
            match c {
                Command::ValueChanged(_, v) => {
                    match v {
                        Value::Text(t) => {
                            query = Some(t);
                        },
                        _ => {},
                    }
                },
                Command::CloseView => {
                    close = true;
                },
                other => {
                    kept.push(other);
                },
            }
            proof {
                if has_close(b1.take(i + 1)) && !(b1[i as int] is CloseView) {
                    let j = choose|j: int|
                        0 <= j < i + 1 && (#[trigger] b1.take(i + 1)[j]) is CloseView;
                    assert(prefix[j] is CloseView);
                    assert(has_close(prefix));
                }
                if has_close(prefix) {
                    let j = choose|j: int| 0 <= j < i && (#[trigger] prefix[j]) is CloseView;
                    assert(b1.take(i + 1)[j] is CloseView);
                    assert(has_close(b1.take(i + 1)));
                }
            }
            assert(b1.take(i + 1).filter(pred) =~= kept@);
            i += 1;
        }
        assert(b1.take(n as int) =~= b1);
        bubble.append(&mut kept);
        assert(bubble@ =~= b1.filter(pred));
        if close {
            self.deactivate();
        }
        match query {
            Some(q) => {
                if self.db_indexed {
                    self.state = SearchState::Searching;
                    commands.send(Command::Search(q));
                } else {
                    commands.send(Command::Toast(self.populating_text.clone(), None));
                    commands.send(Command::PopulateDb);
                    commands.send(Command::Toast(String::new(), Some(0)));
                }
            },
            None => {},
        }
        proof {
            reveal(Seq::filter);
            if old(self).state is Active && clean_bubble(b0) {
                lemma_filter_all(b0, pred);
                lemma_clean_last_submitted(b0);
                match event {
                    KeyEvent::Pressed(k) => {
                        if k == Key::Start {
                            assert(b1 =~= b0.push(
                                Command::ValueChanged(
                                    0,
                                    Value::Text(old(self).keyboard->Some_0.text),
                                ),
                            ));
                            assert(b1.drop_last() =~= b0);
                            assert(b1.filter(pred) =~= b0.filter(pred));
                            assert(!has_close(b1)) by {
                                if has_close(b1) {
                                    let j = choose|j: int|
                                        0 <= j < b1.len() && (#[trigger] b1[j]) is CloseView;
                                    assert(j < b0.len());
                                    assert(keeps_bubbling(b0[j]));
                                }
                            }
                        } else if k == Key::B {
                            assert(b1 =~= b0.push(Command::CloseView));
                            assert(b1.drop_last() =~= b0);
                            assert(b1.filter(pred) =~= b0.filter(pred));
                            assert(last_submitted(b1) is None);
                            assert(b1[b1.len() - 1] is CloseView);
                            assert(has_close(b1));
                        } else {
                            assert(b1 =~= b0);
                            assert(!has_close(b1)) by {
                                if has_close(b1) {
                                    let j = choose|j: int|
                                        0 <= j < b1.len() && (#[trigger] b1[j]) is CloseView;
                                    assert(keeps_bubbling(b0[j]));
                                }
                            }
                        }
                    },
                    KeyEvent::Autorepeat(_) => {
                        assert(b1 =~= b0);
                        assert(!has_close(b1)) by {
                            if has_close(b1) {
                                let j = choose|j: int|
                                    0 <= j < b1.len() && (#[trigger] b1[j]) is CloseView;
                                assert(keeps_bubbling(b0[j]));
                            }
                        }
                    },
                    KeyEvent::Released(_) => {},
                }
                if event == KeyEvent::Pressed(Key::B) {
                    assert(close);
                    assert(self.state is Inactive);
                    assert(commands.sent@ =~= old(commands).sent@);
                    assert(bubble@ =~= b0);
                }
                if event == KeyEvent::Pressed(Key::Start) {
                    assert(bubble@ =~= b0);
                    assert(query == Some(old(self).keyboard->Some_0.text));
                    if old(self).db_indexed {
                        assert(self.state is Searching);
                        assert(commands.sent@ =~= old(commands).sent@.push(
                            Command::Search(old(self).keyboard->Some_0.text),
                        ));
                    } else {
                        assert(self.state is Active);
                        assert(populate_sent(
                            old(commands).sent@,
                            commands.sent@,
                            old(self).populating_text,
                        ));
                    }
                }
            }
        }
        true
    }

    fn bounding_box(&self, styles: &Stylesheet) -> (r: Rect) {
        Rect::new(0, 0, 0, 0)
    }

    fn set_position(&mut self, point: Point) -> (supported: bool) {
        false
    }
}

/// A filter that keeps everything keeps the sequence.
proof fn lemma_filter_all(s: Seq<Command>, pred: spec_fn(Command) -> bool)
    requires
        forall|i: int| 0 <= i < s.len() ==> pred(#[trigger] s[i]),
    ensures
        s.filter(pred) =~= s,
    decreases s.len(),
{
    reveal(Seq::filter);
    if s.len() > 0 {
        assert(forall|i: int|
            0 <= i < s.drop_last().len() ==> pred(#[trigger] s.drop_last()[i]));
        lemma_filter_all(s.drop_last(), pred);
    }
}

/// A clean bubble holds no submission.
proof fn lemma_clean_last_submitted(s: Seq<Command>)
    requires
        clean_bubble(s),
    ensures
        last_submitted(s) is None,
    decreases s.len(),
{
    if s.len() > 0 {
        assert(keeps_bubbling(s[s.len() - 1]));
        assert(forall|i: int|
            0 <= i < s.drop_last().len() ==> keeps_bubbling(#[trigger] s.drop_last()[i]));
        lemma_clean_last_submitted(s.drop_last());
    }
}

} // verus!

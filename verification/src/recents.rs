//! The recents tab: either a vertical list or a full-screen carousel,
//! chosen by the style sheet.

use vstd::prelude::*;

use crate::command::{Bubble, CommandSink};
use crate::display::DisplayLog;
use crate::geom::{Point, Rect};
use crate::key::KeyEvent;
use crate::resources::Resources;
use crate::style::Stylesheet;
use crate::view::ViewNode;

pub mod recents_carousel;
pub mod recents_list;

use recents_carousel::{RecentsCarousel, RecentsCarouselState};
use recents_list::{RecentsList, RecentsListState};

verus! {

/// How many entries the recents queries fetch.
pub const RECENT_GAMES_LIMIT: usize = 100;

/// The persisted state of the recents tab.
#[derive(Debug, PartialEq, Eq)]
pub enum RecentsState {
    Carousel(RecentsCarouselState),
    List(RecentsListState),
}

/// The recents tab.
#[derive(Debug)]
pub enum Recents {
    Carousel(RecentsCarousel),
    List(RecentsList),
}

impl Recents {
    /// Restores the tab in the form the style sheet asks for; persisted
    /// state of the other form is discarded.
    pub fn load_or_new(rect: Rect, res: Resources, state: Option<RecentsState>) -> (v: Recents)
        requires
            res.inv(),
        ensures
            v.inv(),
            res.styles.use_recents_carousel ==> v is Carousel,
            !res.styles.use_recents_carousel ==> v is List,
            res.styles.use_recents_carousel ==> (state matches Some(RecentsState::Carousel(cs))
                ==> (v matches Recents::Carousel(c) && c.selected as int == if c.games@.len()
                == 0 {
                0int
            } else if cs.selected < c.games@.len() {
                cs.selected as int
            } else {
                c.games@.len() - 1
            })),
            !res.styles.use_recents_carousel ==> (state matches Some(RecentsState::List(ls)) ==> (
            v matches Recents::List(l) && l.sort == ls.sort)),
    {
        if res.styles.use_recents_carousel {
            let carousel_state = match state {
                Some(RecentsState::Carousel(s)) => Some(s),
                _ => None,
            };
            Recents::Carousel(RecentsCarousel::load_or_new(rect, res, carousel_state))
        } else {
            let list_state = match state {
                Some(RecentsState::List(s)) => Some(s),
                _ => None,
            };
            Recents::List(RecentsList::load_or_new(rect, res, list_state))
        }
    }

    /// The state to persist.
    pub fn save(&self) -> (r: RecentsState)
        requires
            self.inv(),
        ensures
            self matches Recents::Carousel(c) ==> (r matches RecentsState::Carousel(s)
                && s.selected == 0),
            self matches Recents::List(l) ==> (r matches RecentsState::List(s) && s.selected
                == l.selected && s.sort == l.sort),
    {
        match self {
            Recents::Carousel(c) => RecentsState::Carousel(c.save()),
            Recents::List(l) => RecentsState::List(l.save()),
        }
    }

    /// Opens the search overlay over the tab.
    pub fn start_search(&mut self)
        requires
            old(self).inv(),
        ensures
            final(self).inv(),
    {
        match self {
            Recents::Carousel(c) => c.start_search(),
            Recents::List(l) => l.start_search(),
        }
    }
}

impl ViewNode for Recents {
    open spec fn inv(&self) -> bool {
        match self {
            Recents::Carousel(c) => c.inv(),
            Recents::List(l) => l.inv(),
        }
    }

    open spec fn tree_dirty(&self) -> bool {
        match self {
            Recents::Carousel(c) => c.tree_dirty(),
            Recents::List(l) => l.tree_dirty(),
        }
    }

    open spec fn draws_no_background(&self) -> bool {
        false
    }

    fn should_draw(&self) -> (r: bool) {
        match self {
            Recents::Carousel(c) => c.should_draw(),
            Recents::List(l) => l.should_draw(),
        }
    }

    fn set_should_draw(&mut self) {
        match self {
            Recents::Carousel(c) => c.set_should_draw(),
            Recents::List(l) => l.set_should_draw(),
        }
    }

    fn draw(&mut self, display: &mut DisplayLog, styles: &Stylesheet) -> (drawn: bool) {
        match self {
            Recents::Carousel(c) => c.draw(display, styles),
            Recents::List(l) => l.draw(display, styles),
        }
    }

    fn handle_key_event(&mut self, event: KeyEvent, commands: &mut CommandSink, bubble: &mut Bubble)
        -> (consumed: bool) {
        match self {
            Recents::Carousel(c) => c.handle_key_event(event, commands, bubble),
            Recents::List(l) => l.handle_key_event(event, commands, bubble),
        }
    }

    fn bounding_box(&self, styles: &Stylesheet) -> (r: Rect) {
        match self {
            Recents::Carousel(c) => c.bounding_box(styles),
            Recents::List(l) => l.bounding_box(styles),
        }
    }

    fn set_position(&mut self, point: Point) -> (supported: bool) {
        match self {
            Recents::Carousel(c) => c.set_position(point),
            Recents::List(l) => l.set_position(point),
        }
    }
}

} // verus!

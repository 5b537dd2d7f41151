//! The shared resource context: the read-mostly objects every screen
//! consults — style sheet, locale table, the current session record, the
//! game database, the console mapper and the session history. It is built
//! once at startup and passed explicitly to construction and redraw; a
//! mutation (a theme change) is followed by an explicit mark-dirty
//! broadcast, since screens cache derived text and layout.

use vstd::prelude::*;

use crate::consoles::ConsoleMapper;
use crate::database::Database;
use crate::history::GameHistory;
use crate::locale::Locale;
use crate::session::GameInfo;
use crate::style::Stylesheet;

verus! {

#[derive(Debug)]
pub struct Resources {
    pub styles: Stylesheet,
    pub locale: Locale,
    pub game_info: GameInfo,
    pub database: Database,
    pub console_mapper: ConsoleMapper,
    pub history: GameHistory,
}

impl Resources {
    pub open spec fn inv(&self) -> bool {
        &&& self.database.inv()
        &&& self.history.inv()
    }

    pub fn new(
        styles: Stylesheet,
        locale: Locale,
        game_info: GameInfo,
        database: Database,
        console_mapper: ConsoleMapper,
        history: GameHistory,
    ) -> (r: Resources)
        requires
            database.inv(),
            history.inv(),
        ensures
            r.inv(),
            r == (Resources { styles, locale, game_info, database, console_mapper, history }),
    {
        Resources { styles, locale, game_info, database, console_mapper, history }
    }
}

} // verus!

//! Interactive shell runtime for a handheld game console.
//!
//! The crate is organised around three cores:
//! - the view-composition and redraw-scheduling runtime (`view`, `widgets`,
//!   the screen modules and `dispatch`);
//! - the command bus that carries requests from leaf views to the
//!   application root, with a per-dispatch bubble queue (`command`);
//! - the game-session handoff protocol: session records, launch history,
//!   emulator control messages, screenshot correlation and the handoff
//!   state machine (`session`, `history`, `retroarch`, `screenshot`,
//!   `handoff`).

pub mod app;
pub mod bytes;
pub mod capture_log;
pub mod clock;
pub mod command;
pub mod consoles;
pub mod database;
pub mod dispatch;
pub mod display;
pub mod entry;
pub mod game_switcher;
pub mod frame;
pub mod geom;
pub mod handoff;
pub mod history;
pub mod ingame_menu;
pub mod key;
pub mod lazy_image;
pub mod locale;
pub mod numtext;
pub mod recents;
pub mod resources;
pub mod retroarch;
pub mod screenshot;
pub mod search;
pub mod search_results;
pub mod session;
pub mod sorting;
pub mod style;
pub mod theme;
pub mod toast;
pub mod view;
pub mod volume;
pub mod widgets;

pub use geom::{Point, Rect};

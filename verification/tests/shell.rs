use allium_shell::app::App;
use allium_shell::command::{Command, CommandSink};
use allium_shell::consoles::ConsoleMapper;
use allium_shell::database::{Database, GameRow};
use allium_shell::display::{DisplayLog, DrawOp};
use allium_shell::recents::recents_carousel::{RecentsCarousel, RecentsCarouselState};
use allium_shell::geom::Rect;
use allium_shell::handoff::{HandoffAction, HandoffEvent, HandoffMachine, HandoffState};
use allium_shell::history::GameHistory;
use allium_shell::key::{Key, KeyEvent, LidSwitchPoller};
use allium_shell::locale::Locale;
use allium_shell::resources::Resources;
use allium_shell::screenshot::{
    choose_screenshot, legacy_screenshot_name, primary_screenshot_name,
};
use allium_shell::session::GameInfo;
use allium_shell::style::{Color, Stylesheet, StylesheetFont};
use allium_shell::view::ViewNode;

fn test_styles() -> Stylesheet {
    Stylesheet {
        ui_font: StylesheetFont { path: "ui.ttf".to_string(), size: 24 },
        guide_font: StylesheetFont { path: "guide.ttf".to_string(), size: 24 },
        tab_font_size_pct: 100,
        status_bar_font_size_pct: 100,
        button_hint_font_size_pct: 100,
        highlight_color: Color { r: 40, g: 60, b: 200 },
        foreground_color: Color { r: 240, g: 240, b: 240 },
        background_color: Color { r: 10, g: 10, b: 10 },
        disabled_color: Color { r: 90, g: 90, b: 90 },
        tab_color: Color { r: 120, g: 120, b: 120 },
        tab_selected_color: Color { r: 250, g: 250, b: 250 },
        button_a_color: Color { r: 200, g: 40, b: 40 },
        button_b_color: Color { r: 200, g: 200, b: 40 },
        button_x_color: Color { r: 40, g: 40, b: 200 },
        button_y_color: Color { r: 40, g: 200, b: 40 },
        show_battery_level: true,
        show_clock: false,
        use_recents_carousel: false,
    }
}

fn test_game_info() -> GameInfo {
    GameInfo::new(
        "Current Game".to_string(),
        "/roms/GB/current.gb".to_string(),
        "gambatte".to_string(),
        None,
        "/usr/bin/retroarch.sh".to_string(),
        vec!["gambatte_libretro".to_string(), "/roms/GB/current.gb".to_string()],
        true,
        false,
    )
}

fn row(name: &str, path: &str, last_played: i64, play_count: u64) -> GameRow {
    GameRow {
        name: name.to_string(),
        path: path.to_string(),
        image: None,
        core: None,
        favorite: false,
        play_count,
        last_played,
        screenshot_path: None,
    }
}

fn test_resources() -> Resources {
    let games = vec![
        row("Super Mario Land", "/roms/GB/mario.gb", 30, 7),
        row("Tetris", "/roms/GB/tetris.gb", 20, 9),
        row("Kirby", "/roms/GB/kirby.gb", 10, 1),
    ];
    Resources::new(
        test_styles(),
        Locale::new(vec![]),
        test_game_info(),
        Database { games, indexed: true },
        ConsoleMapper::new(),
        GameHistory::new(),
    )
}

fn screen() -> Rect {
    Rect::new(0, 0, 640, 480)
}

// Screenshot correlation: the legacy file is found when only it exists,
// and the current scheme wins when both exist.
#[test]
fn screenshot_lookup_prefers_primary_and_falls_back() {
    let path = "/roms/GB/mario.gb".to_string();
    let core = "gambatte".to_string();
    let primary = primary_screenshot_name(&path, &core, 0);
    let legacy = legacy_screenshot_name(&path, 0);
    assert_ne!(primary, legacy);

    let only_legacy = choose_screenshot(primary.clone(), legacy.clone(), false, true);
    assert_eq!(only_legacy, Some(legacy.clone()));

    let both = choose_screenshot(primary.clone(), legacy.clone(), true, true);
    assert_eq!(both, Some(primary.clone()));

    let neither = choose_screenshot(primary, legacy, false, false);
    assert_eq!(neither, None);
}

#[test]
fn screenshot_names_are_digests_not_paths() {
    let core = "gambatte".to_string();
    let short = primary_screenshot_name(&"/a".to_string(), &core, 0);
    let long = primary_screenshot_name(
        &"/a/very/much/longer/content/path/for/the/same/slot.gb".to_string(),
        &core,
        0,
    );
    // A fixed-width digest underlies the name, so the name length does not
    // follow the path length.
    assert_eq!(short.len(), long.len());
    assert!(short.ends_with(".png"));
    assert_ne!(short, long);
    // Deterministic: the same inputs give the same name.
    let again = primary_screenshot_name(&"/a".to_string(), &core, 0);
    assert_eq!(short, again);
    // The slot is part of the digest.
    let other_slot = primary_screenshot_name(&"/a".to_string(), &core, 1);
    assert_ne!(short, other_slot);
}

// The handoff reaches completion with the target's record on disk, even
// when both control calls time out.
#[test]
fn handoff_completes_despite_timeouts() {
    let target = GameInfo::new(
        "Tetris".to_string(),
        "/roms/GB/tetris.gb".to_string(),
        "gambatte".to_string(),
        None,
        "/usr/bin/retroarch.sh".to_string(),
        vec!["gambatte_libretro".to_string(), "/roms/GB/tetris.gb".to_string()],
        true,
        false,
    );
    let mut m = HandoffMachine::new(true, 0, target);
    assert_eq!(m.state, HandoffState::Idle);
    let a1 = m.start();
    assert_eq!(a1, HandoffAction::RequestSave(0));
    let a2 = m.step(HandoffEvent::SaveTimedOut);
    assert_eq!(a2, HandoffAction::RequestQuit);
    let a3 = m.step(HandoffEvent::QuitTimedOut);
    match a3 {
        HandoffAction::PersistRecord(r) => {
            assert_eq!(r.path, "/roms/GB/tetris.gb");
            assert_eq!(r.core, "gambatte");
        }
        other => panic!("expected a persist action, got {:?}", other),
    }
    let a4 = m.step(HandoffEvent::PersistOk);
    match a4 {
        HandoffAction::Replace(plan) => {
            assert_eq!(plan.command, "/usr/bin/retroarch.sh");
        }
        other => panic!("expected a replace action, got {:?}", other),
    }
    assert_eq!(m.state, HandoffState::HandoffComplete);
    let persisted = m.persisted.expect("the record is on disk");
    assert_eq!(persisted.path, "/roms/GB/tetris.gb");
    assert_eq!(persisted.core, "gambatte");
    assert_eq!(persisted.command, "/usr/bin/retroarch.sh");
}

#[test]
fn handoff_skips_save_without_menu() {
    let mut m = HandoffMachine::new(false, 0, test_game_info());
    let a1 = m.start();
    assert_eq!(a1, HandoffAction::RequestQuit);
    assert_eq!(m.state, HandoffState::QuittingCurrent);
}

#[test]
fn handoff_aborts_on_persist_failure() {
    let mut m = HandoffMachine::new(true, 0, test_game_info());
    let _ = m.start();
    let _ = m.step(HandoffEvent::SaveSettled);
    let _ = m.step(HandoffEvent::QuitSettled);
    let a = m.step(HandoffEvent::PersistFailed);
    assert_eq!(a, HandoffAction::Abort);
    assert_eq!(m.state, HandoffState::Aborted);
    assert!(m.persisted.is_none());
}

// Cancelling the search overlay before any results arrive leaves no
// search command on the bus and returns the focus to the tab that had it.
#[test]
fn search_cancel_leaves_no_search_command() {
    let mut app = App::load_or_new(screen(), test_resources(), None, vec![]);
    let before_tab = app.selected;
    app.start_search();
    assert!(app.search_view.is_active());

    let mut sink = CommandSink::new();
    let mut bubble = Vec::new();
    // The user types the query...
    match &mut app.search_view.keyboard {
        Some(k) => k.text = "mario".to_string(),
        None => panic!("the overlay shows a keyboard"),
    }
    // ...then cancels before submitting.
    let consumed = app.handle_key_event(KeyEvent::Pressed(Key::B), &mut sink, &mut bubble);
    assert!(consumed);
    assert!(!app.search_view.is_active());
    assert!(sink.sent.iter().all(|c| !matches!(c, Command::Search(_))));
    assert!(sink.sent.is_empty());
    assert_eq!(app.selected, before_tab);
    assert!(app.search_results.is_none());
}

#[test]
fn search_submit_sends_one_search_command() {
    let mut app = App::load_or_new(screen(), test_resources(), None, vec![]);
    app.start_search();
    match &mut app.search_view.keyboard {
        Some(k) => k.text = "mario".to_string(),
        None => panic!("the overlay shows a keyboard"),
    }
    let mut sink = CommandSink::new();
    let mut bubble = Vec::new();
    let consumed = app.handle_key_event(KeyEvent::Pressed(Key::Start), &mut sink, &mut bubble);
    assert!(consumed);
    let searches: Vec<&Command> = sink
        .sent
        .iter()
        .filter(|c| matches!(c, Command::Search(_)))
        .collect();
    assert_eq!(searches.len(), 1);
    match searches[0] {
        Command::Search(q) => assert_eq!(q, "mario"),
        _ => unreachable!(),
    }
    // The root would now fetch results for the query.
    app.search("mario".to_string());
    assert!(app.search_results.is_some());
}

// Marking a parent dirty makes its query true even when no descendant is
// dirty; a full draw pass leaves the whole tree clean.
#[test]
fn search_cancel_after_submit_drops_the_pending_query() {
    let mut app = App::load_or_new(screen(), test_resources(), None, vec![]);
    app.start_search();
    match &mut app.search_view.keyboard {
        Some(k) => k.text = "mario".to_string(),
        None => panic!("the overlay shows a keyboard"),
    }
    let mut sink = CommandSink::new();
    let mut bubble = Vec::new();
    // Submit: the query goes out once.
    let _ = app.handle_key_event(KeyEvent::Pressed(Key::Start), &mut sink, &mut bubble);
    assert!(sink.sent.iter().any(|c| matches!(c, Command::Search(_))));
    // Cancel before the root processed the query: the overlay closes...
    let cancelled = app.handle_key_event(KeyEvent::Pressed(Key::B), &mut sink, &mut bubble);
    assert!(cancelled);
    assert!(!app.search_view.is_active());
    // ...and when the stale query arrives at the root it is dropped, so
    // no results screen ever appears for a cancelled search.
    app.search("mario".to_string());
    assert!(app.search_results.is_none());
}

#[test]
fn draw_invalidates_once_per_dirty_cycle() {
    let res = test_resources();
    let mut carousel = RecentsCarousel::new(screen(), res, RecentsCarouselState { selected: 0 });
    let styles = test_styles();
    let mut display = DisplayLog::new();
    let _ = carousel.draw(&mut display, &styles);
    let invalidations = display
        .ops
        .iter()
        .filter(|op| matches!(op, DrawOp::Invalidate(_)))
        .count();
    assert_eq!(invalidations, 1);
    // A second pass on a clean carousel clears nothing.
    let before = display.ops.len();
    let _ = carousel.draw(&mut display, &styles);
    assert_eq!(display.ops.len(), before);
}

#[test]
fn mark_and_draw_pass_clear_flags() {
    let mut app = App::load_or_new(screen(), test_resources(), None, vec![]);
    let styles = test_styles();
    let mut display = DisplayLog::new();
    // Drain the construction dirtiness.
    let _ = app.draw(&mut display, &styles);
    assert!(!app.should_draw());

    // Marking the root makes the query true at once.
    app.set_should_draw();
    assert!(app.should_draw());

    // One draw pass leaves the tree clean again.
    let drawn = app.draw(&mut display, &styles);
    assert!(drawn);
    assert!(!app.should_draw());
}

#[test]
fn tab_change_wakes_the_new_tab() {
    let mut app = App::load_or_new(screen(), test_resources(), None, vec![]);
    let styles = test_styles();
    let mut display = DisplayLog::new();
    let _ = app.draw(&mut display, &styles);
    assert!(!app.should_draw());
    let mut sink = CommandSink::new();
    let mut bubble = Vec::new();
    let consumed = app.handle_key_event(KeyEvent::Pressed(Key::Right), &mut sink, &mut bubble);
    assert!(consumed);
    assert!(app.should_draw());
}

// The lid poller reports only changes.
#[test]
fn lid_poller_reports_edges_only() {
    let mut poller = LidSwitchPoller::new(true);
    assert_eq!(poller.poll(true), None);
    assert_eq!(poller.poll(false), Some(KeyEvent::Pressed(Key::LidClose)));
    assert_eq!(poller.poll(false), None);
    assert_eq!(poller.poll(true), Some(KeyEvent::Released(Key::LidClose)));
}

#[test]
fn key_codes_map_to_buttons() {
    assert_eq!(Key::from(103u16), Key::Up);
    assert_eq!(Key::from(57u16), Key::A);
    assert_eq!(Key::from(29u16), Key::B);
    assert_eq!(Key::from(1u16), Key::Menu);
    assert_eq!(Key::from(999u16), Key::Unknown);
}

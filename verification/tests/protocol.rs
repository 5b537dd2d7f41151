use allium_shell::capture_log::{find_screenshot_for_game, parse_line, parse_u64};
use allium_shell::command::{Command, CommandSink};
use allium_shell::database::Database;
use allium_shell::dispatch::flush_bubble;
use allium_shell::geom::Rect;
use allium_shell::ingame_menu::{IngameMenu, IngameMenuState, MenuEntry};
use allium_shell::key::{Key, KeyEvent};
use allium_shell::numtext::{counter_text, i64_to_string, usize_to_string};
use allium_shell::retroarch::{parse_retroarch_info, ControlRequest, RetroArchCommand};
use allium_shell::session::RetroArchInfo;
use allium_shell::sorting::{sort_rows_exec, RowOrder};
use allium_shell::view::ViewNode;
use allium_shell::volume::plan_volume_change;

use allium_shell::consoles::ConsoleMapper;
use allium_shell::database::GameRow;
use allium_shell::history::GameHistory;
use allium_shell::locale::Locale;
use allium_shell::resources::Resources;
use allium_shell::session::GameInfo;
use allium_shell::style::{Color, Stylesheet, StylesheetFont};

fn fixture_styles() -> Stylesheet {
    Stylesheet {
        ui_font: StylesheetFont { path: "ui.ttf".to_string(), size: 24 },
        guide_font: StylesheetFont { path: "guide.ttf".to_string(), size: 24 },
        tab_font_size_pct: 100,
        status_bar_font_size_pct: 100,
        button_hint_font_size_pct: 100,
        highlight_color: Color { r: 40, g: 60, b: 200 },
        foreground_color: Color { r: 240, g: 240, b: 240 },
        background_color: Color { r: 10, g: 10, b: 10 },
        disabled_color: Color { r: 90, g: 90, b: 90 },
        tab_color: Color { r: 120, g: 120, b: 120 },
        tab_selected_color: Color { r: 250, g: 250, b: 250 },
        button_a_color: Color { r: 200, g: 40, b: 40 },
        button_b_color: Color { r: 200, g: 200, b: 40 },
        button_x_color: Color { r: 40, g: 40, b: 200 },
        button_y_color: Color { r: 40, g: 200, b: 40 },
        show_battery_level: true,
        show_clock: false,
        use_recents_carousel: false,
    }
}

fn fixture_game_info() -> GameInfo {
    GameInfo::new(
        "Current Game".to_string(),
        "/roms/GB/current.gb".to_string(),
        "gambatte".to_string(),
        None,
        "/usr/bin/retroarch.sh".to_string(),
        vec!["gambatte_libretro".to_string()],
        true,
        false,
    )
}

fn fixture_row(name: &str, path: &str, last_played: i64, play_count: u64) -> GameRow {
    GameRow {
        name: name.to_string(),
        path: path.to_string(),
        image: None,
        core: None,
        favorite: false,
        play_count,
        last_played,
        screenshot_path: None,
    }
}

fn fixture_resources() -> Resources {
    let games = vec![
        fixture_row("Super Mario Land", "/roms/GB/mario.gb", 30, 7),
        fixture_row("Tetris", "/roms/GB/tetris.gb", 20, 9),
        fixture_row("Kirby", "/roms/GB/kirby.gb", 10, 1),
    ];
    Resources::new(
        fixture_styles(),
        Locale::new(vec![]),
        fixture_game_info(),
        Database { games, indexed: true },
        ConsoleMapper::new(),
        GameHistory::new(),
    )
}

// A close request pushed by the switcher and consumed by the menu never
// reaches the root channel.
#[test]
fn child_close_never_reaches_root() {
    let mut menu = IngameMenu::new(
        Rect::new(0, 0, 640, 480),
        IngameMenuState { is_text_reader_open: false },
        fixture_resources(),
        Some(RetroArchInfo { state_slot: Some(0), max_disk_slots: 1, disk_slot: 0 }),
    );
    let mut sink = CommandSink::new();
    let mut bubble = Vec::new();
    // Open the switcher: its entry sits under the continue row.
    let down = menu.handle_key_event(KeyEvent::Pressed(Key::Down), &mut sink, &mut bubble);
    assert!(down);
    assert_eq!(menu.entries[1], MenuEntry::SwitchGame);
    let opened = menu.handle_key_event(KeyEvent::Pressed(Key::A), &mut sink, &mut bubble);
    assert!(opened);
    assert!(menu.child.is_some());
    let sent_before = sink.sent.len();

    // The switcher's back key bubbles a close request; the menu consumes
    // it before it can reach the root.
    let closed = menu.handle_key_event(KeyEvent::Pressed(Key::B), &mut sink, &mut bubble);
    assert!(closed);
    assert!(menu.child.is_none());
    assert_eq!(sink.sent.len(), sent_before);
    assert!(sink.sent.iter().all(|c| !matches!(c, Command::CloseView)));
    assert!(bubble.iter().all(|c| !matches!(c, Command::CloseView)));
}

// A command no ancestor matched reaches the root channel exactly once.
#[test]
fn unmatched_command_reaches_root_exactly_once() {
    let mut sink = CommandSink::new();
    let mut bubble = vec![Command::Redraw, Command::PopulateDb];
    flush_bubble(&mut sink, &mut bubble);
    assert!(bubble.is_empty());
    assert_eq!(sink.sent, vec![Command::Redraw, Command::PopulateDb]);
    let redraws = sink.sent.iter().filter(|c| matches!(c, Command::Redraw)).count();
    assert_eq!(redraws, 1);
}

#[test]
fn menu_entries_follow_emulator_report() {
    let with_slots = MenuEntry::entries(&Some(RetroArchInfo {
        state_slot: Some(0),
        max_disk_slots: 1,
        disk_slot: 0,
    }));
    assert!(with_slots.contains(&MenuEntry::Save));
    assert!(with_slots.contains(&MenuEntry::Load));
    assert!(with_slots.contains(&MenuEntry::SwitchGame));

    let without_slots = MenuEntry::entries(&Some(RetroArchInfo {
        state_slot: None,
        max_disk_slots: 1,
        disk_slot: 0,
    }));
    assert!(!without_slots.contains(&MenuEntry::Save));
    assert!(without_slots.contains(&MenuEntry::SwitchGame));

    let none = MenuEntry::entries(&None);
    assert_eq!(none, vec![MenuEntry::Continue, MenuEntry::Guide, MenuEntry::Quit]);
}

#[test]
fn quit_entry_sends_screenshot_then_quit_then_exit() {
    let mut menu = IngameMenu::new(
        Rect::new(0, 0, 640, 480),
        IngameMenuState { is_text_reader_open: false },
        fixture_resources(),
        Some(RetroArchInfo { state_slot: Some(0), max_disk_slots: 1, disk_slot: 0 }),
    );
    let mut sink = CommandSink::new();
    let mut bubble = Vec::new();
    // Walk down to the quit entry, the last row.
    for _ in 0..7 {
        let _ = menu.handle_key_event(KeyEvent::Pressed(Key::Down), &mut sink, &mut bubble);
    }
    assert_eq!(menu.entries[menu.menu.selected], MenuEntry::Quit);
    let consumed = menu.handle_key_event(KeyEvent::Pressed(Key::A), &mut sink, &mut bubble);
    assert!(consumed);
    assert!(matches!(
        sink.sent[sink.sent.len() - 3],
        Command::SaveStateScreenshot { slot: -1, .. }
    ));
    assert!(matches!(
        sink.sent[sink.sent.len() - 2],
        Command::Control(ControlRequest::Send(RetroArchCommand::Quit))
    ));
    assert_eq!(sink.sent[sink.sent.len() - 1], Command::Exit);
}

#[test]
fn control_messages_render_as_ascii_commands() {
    assert_eq!(RetroArchCommand::Pause.message(), "PAUSE");
    assert_eq!(RetroArchCommand::Quit.message(), "QUIT");
    assert_eq!(RetroArchCommand::SaveStateSlot(0).message(), "SAVE_STATE_SLOT 0");
    assert_eq!(RetroArchCommand::SaveStateSlot(-1).message(), "SAVE_STATE_SLOT -1");
    assert_eq!(RetroArchCommand::SetDiskSlot(2).message(), "SET_DISK_SLOT 2");
    assert_eq!(RetroArchCommand::GetInfo.message(), "GET_INFO");
}

#[test]
fn status_replies_parse_state_and_content() {
    let parsed = parse_retroarch_info("GET_INFO CONTENT_LOADED,rom_name.ext")
        .expect("a tagged reply parses");
    assert_eq!(parsed.state, "CONTENT_LOADED");
    assert_eq!(parsed.content.as_deref(), Some("rom_name.ext"));

    let paused = parse_retroarch_info("GET_INFO PAUSED").expect("a reply without content parses");
    assert_eq!(paused.state, "PAUSED");
    assert!(paused.content.is_none());

    // Unknown formats are ignored, not rejected.
    assert!(parse_retroarch_info("SOMETHING ELSE").is_none());
    assert!(parse_retroarch_info("").is_none());
}

#[test]
fn search_folds_case_before_matching() {
    let db = Database {
        games: vec![
            fixture_row("Super Mario Land", "/roms/GB/mario.gb", 30, 7),
            fixture_row("Tetris", "/roms/GB/tetris.gb", 20, 9),
        ],
        indexed: true,
    };
    let hits = db.search(&"MARIO".to_string(), 100);
    assert_eq!(hits.len(), 1);
    assert_eq!(hits[0].name, "Super Mario Land");
    let none = db.search(&"zelda".to_string(), 100);
    assert!(none.is_empty());
}

#[test]
fn rows_sort_by_play_count_and_name() {
    let rows = vec![
        fixture_row("Beta", "/b", 1, 3),
        fixture_row("alpha", "/a", 2, 9),
        fixture_row("Gamma", "/c", 3, 5),
    ];
    let by_count = sort_rows_exec(RowOrder::MostPlayed, &rows);
    assert_eq!(by_count[0].name, "alpha");
    assert_eq!(by_count[1].name, "Gamma");
    assert_eq!(by_count[2].name, "Beta");

    let by_name = sort_rows_exec(RowOrder::Alphabetical, &rows);
    assert_eq!(by_name[0].name, "alpha");
    assert_eq!(by_name[1].name, "Beta");
    assert_eq!(by_name[2].name, "Gamma");
}

#[test]
fn volume_changes_clamp_and_toggle_mute() {
    // Into range from above: clamped, no mute change.
    assert_eq!(plan_volume_change(-10, 5), (0, None));
    // Down to the floor from audible: clamped and muted.
    assert_eq!(plan_volume_change(-10, -80), (-60, Some(true)));
    // Up from the floor: unmuted.
    assert_eq!(plan_volume_change(-60, -20), (-20, Some(false)));
    // Staying at the floor: nothing to toggle.
    assert_eq!(plan_volume_change(-60, -70), (-60, None));
}

#[test]
fn numbers_render_in_decimal() {
    assert_eq!(usize_to_string(0), "0");
    assert_eq!(usize_to_string(907), "907");
    assert_eq!(i64_to_string(-1), "-1");
    assert_eq!(counter_text(3, 10), "3/10");
}

#[test]
fn capture_log_lines_parse_their_three_fields() {
    let line = parse_line("1700000000|shot.png|/roms/GB/mario.gb").expect("a full line parses");
    assert_eq!(line.timestamp, 1700000000);
    assert_eq!(line.file_name, "shot.png");
    assert_eq!(line.content_path, "/roms/GB/mario.gb");

    // Extra fields past the path are ignored.
    let extra = parse_line("5|a.png|/p|junk").expect("extra fields are ignored");
    assert_eq!(extra.content_path, "/p");

    assert!(parse_line("no separators here").is_none());
    assert!(parse_line("notanumber|a.png|/p").is_none());
    assert!(parse_line("12|only-two-fields").is_none());
}

#[test]
fn capture_log_picks_the_newest_matching_line() {
    let lines = vec![
        "10|old.png|/roms/GB/mario.gb".to_string(),
        "30|newest.png|/roms/GB/mario.gb".to_string(),
        "99|other.png|/roms/GB/tetris.gb".to_string(),
        "20|middle.png|/roms/GB/mario.gb".to_string(),
        "garbage line".to_string(),
    ];
    let all_exist = vec![true; lines.len()];
    let path = "/roms/GB/mario.gb".to_string();
    assert_eq!(
        find_screenshot_for_game(&lines, &all_exist, &path),
        Some("newest.png".to_string())
    );
    let missing = "/roms/GB/zelda.gb".to_string();
    assert_eq!(find_screenshot_for_game(&lines, &all_exist, &missing), None);
}

#[test]
fn capture_log_skips_stale_lines_whose_file_is_gone() {
    let lines = vec![
        "10|old.png|/roms/GB/mario.gb".to_string(),
        "30|deleted.png|/roms/GB/mario.gb".to_string(),
    ];
    // The newest record's image was deleted: the older surviving capture
    // wins, and with none surviving there is no capture.
    let exists = vec![true, false];
    let path = "/roms/GB/mario.gb".to_string();
    assert_eq!(
        find_screenshot_for_game(&lines, &exists, &path),
        Some("old.png".to_string())
    );
    let none = vec![false, false];
    assert_eq!(find_screenshot_for_game(&lines, &none, &path), None);
}

#[test]
fn decimal_fields_parse_with_overflow_rejected() {
    assert_eq!(parse_u64(b"0"), Some(0));
    assert_eq!(parse_u64(b"1700000000"), Some(1700000000));
    assert_eq!(parse_u64(b"18446744073709551615"), Some(u64::MAX));
    assert_eq!(parse_u64(b"18446744073709551616"), None);
    assert_eq!(parse_u64(b""), None);
    assert_eq!(parse_u64(b"12a"), None);
}

#[test]
fn frame_rotation_flips_and_swaps_channels() {
    // A 2x1 frame, 4 bytes per pixel, stored blue-green-red-pad.
    let frame: Vec<u8> = vec![
        10, 20, 30, 0, // left pixel: b=10 g=20 r=30
        40, 50, 60, 0, // right pixel: b=40 g=50 r=60
        0, 0, 0, 0, 0, 0, 0, 0, // slack past the visible rows
    ];
    let out = allium_shell::frame::rotate_frame(&frame, 0, 0, 2, 1, 4);
    // Rotated half a turn: the right pixel comes first, as r-g-b.
    assert_eq!(out, vec![60, 50, 40, 30, 20, 10]);
}

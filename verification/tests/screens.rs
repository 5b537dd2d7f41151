use allium_shell::command::{Command, CommandSink, Value};
use allium_shell::geom::{Alignment, Point};
use allium_shell::widgets::Label;
use allium_shell::consoles::ConsoleMapper;
use allium_shell::database::{Database, GameRow};
use allium_shell::display::DisplayLog;
use allium_shell::geom::Rect;
use allium_shell::history::GameHistory;
use allium_shell::key::{Key, KeyEvent};
use allium_shell::locale::Locale;
use allium_shell::recents::recents_list::{RecentsList, RecentsSort};
use allium_shell::resources::Resources;
use allium_shell::session::GameInfo;
use allium_shell::style::{Color, Stylesheet, StylesheetFont};
use allium_shell::theme::Theme;
use allium_shell::view::ViewNode;
use allium_shell::widgets::{RightWidget, SettingsList};

fn styles() -> Stylesheet {
    Stylesheet {
        ui_font: StylesheetFont { path: "ui.ttf".to_string(), size: 24 },
        guide_font: StylesheetFont { path: "guide.ttf".to_string(), size: 24 },
        tab_font_size_pct: 100,
        status_bar_font_size_pct: 100,
        button_hint_font_size_pct: 100,
        highlight_color: Color { r: 40, g: 60, b: 200 },
        foreground_color: Color { r: 240, g: 240, b: 240 },
        background_color: Color { r: 10, g: 10, b: 10 },
        disabled_color: Color { r: 90, g: 90, b: 90 },
        tab_color: Color { r: 120, g: 120, b: 120 },
        tab_selected_color: Color { r: 250, g: 250, b: 250 },
        button_a_color: Color { r: 200, g: 40, b: 40 },
        button_b_color: Color { r: 200, g: 200, b: 40 },
        button_x_color: Color { r: 40, g: 40, b: 200 },
        button_y_color: Color { r: 40, g: 200, b: 40 },
        show_battery_level: true,
        show_clock: false,
        use_recents_carousel: false,
    }
}

fn resources() -> Resources {
    let games = vec![GameRow {
        name: "Tetris".to_string(),
        path: "/roms/GB/tetris.gb".to_string(),
        image: None,
        core: None,
        favorite: true,
        play_count: 9,
        last_played: 20,
        screenshot_path: None,
    }];
    Resources::new(
        styles(),
        Locale::new(vec![(
            "sort-last-played".to_string(),
            "Last played".to_string(),
        )]),
        GameInfo::new(
            "Current".to_string(),
            "/roms/GB/current.gb".to_string(),
            "gambatte".to_string(),
            None,
            "retroarch".to_string(),
            vec![],
            true,
            false,
        ),
        Database { games, indexed: true },
        ConsoleMapper::new(),
        GameHistory::new(),
    )
}

#[test]
fn locale_lookup_falls_back_to_the_key() {
    let locale = Locale::new(vec![("tab-recents".to_string(), "Recents".to_string())]);
    assert_eq!(locale.t("tab-recents"), "Recents");
    assert_eq!(locale.t("unknown-key"), "unknown-key");
}

#[test]
fn settings_toggle_reports_value_change_on_bubble() {
    let mut list = SettingsList::new(
        Rect::new(0, 0, 320, 240),
        vec!["Dark mode".to_string()],
        vec![RightWidget::Toggle(false)],
        28,
    );
    let mut sink = CommandSink::new();
    let mut bubble = Vec::new();
    let consumed = list.handle_key_event(KeyEvent::Pressed(Key::A), &mut sink, &mut bubble);
    assert!(consumed);
    // The change is for the parent, not for the root channel.
    assert!(sink.sent.is_empty());
    assert_eq!(bubble, vec![Command::ValueChanged(0, Value::Bool(true))]);
}

#[test]
fn settings_number_clamps_at_its_bounds() {
    let mut list = SettingsList::new(
        Rect::new(0, 0, 320, 240),
        vec!["Size".to_string()],
        vec![RightWidget::Number { value: 60, min: 20, max: 60 }],
        28,
    );
    let mut sink = CommandSink::new();
    let mut bubble = Vec::new();
    let _ = list.handle_key_event(KeyEvent::Pressed(Key::Right), &mut sink, &mut bubble);
    assert_eq!(bubble, vec![Command::ValueChanged(0, Value::Int(60))]);
    bubble.clear();
    let _ = list.handle_key_event(KeyEvent::Pressed(Key::Left), &mut sink, &mut bubble);
    assert_eq!(bubble, vec![Command::ValueChanged(0, Value::Int(59))]);
}

#[test]
fn theme_toggle_swaps_foreground_and_background() {
    let res = resources();
    let mut theme = Theme::new(Rect::new(0, 0, 640, 480), &res, vec![], None);
    let fg = theme.stylesheet.foreground_color;
    let bg = theme.stylesheet.background_color;
    let mut sink = CommandSink::new();
    let mut bubble = Vec::new();
    // The first row is the dark-mode toggle.
    let consumed = theme.handle_key_event(KeyEvent::Pressed(Key::A), &mut sink, &mut bubble);
    assert!(consumed);
    assert_eq!(theme.stylesheet.foreground_color, bg);
    assert_eq!(theme.stylesheet.background_color, fg);
    // The change goes to the root for persistence, and the bubble is
    // drained of the value change.
    assert!(sink
        .sent
        .iter()
        .any(|c| matches!(c, Command::SaveStylesheet(_))));
    assert!(bubble.is_empty());
}

#[test]
fn recents_list_sort_cycle_and_captions() {
    let res = resources();
    let sort = RecentsSort::LastPlayed;
    assert_eq!(sort.button_hint(&res.locale), "Last played");
    let next = sort.next();
    assert!(matches!(next, RecentsSort::MostPlayed));
    let favorites = RecentsSort::Favorites.entries(&res.database);
    assert_eq!(favorites.len(), 1);
    assert_eq!(favorites[0].name, "Tetris");
}

#[test]
fn recents_list_search_overlay_takes_focus_and_cancels() {
    let res = resources();
    let mut list = RecentsList::load_or_new(Rect::new(0, 0, 640, 480), res, None);
    let mut sink = CommandSink::new();
    let mut bubble = Vec::new();
    // The search key opens the overlay.
    let consumed = list.handle_key_event(KeyEvent::Pressed(Key::X), &mut sink, &mut bubble);
    assert!(consumed);
    assert!(list.search_view.is_active());
    // Cancel returns the focus; nothing reached the root channel.
    let cancelled = list.handle_key_event(KeyEvent::Pressed(Key::B), &mut sink, &mut bubble);
    assert!(cancelled);
    assert!(!list.search_view.is_active());
    assert!(sink.sent.is_empty());
    assert!(bubble.is_empty());
}

#[test]
fn label_draw_emits_its_text_once_and_clears() {
    let mut label = Label::new(Point::new(5, 7), "hello".to_string(), Alignment::Left, None);
    let mut display = DisplayLog::new();
    assert!(label.should_draw());
    let drawn = label.draw(&mut display, &styles());
    assert!(drawn);
    assert_eq!(display.ops.len(), 1);
    assert!(!label.should_draw());
    // A second pass draws nothing: the flag cleared.
    let drawn_again = label.draw(&mut display, &styles());
    assert!(!drawn_again);
    assert_eq!(display.ops.len(), 1);
}

use allium_shell::history::{GameHistory, GameHistoryEntry, MAX_HISTORY_SIZE};

fn entry(name: &str, path: &str, core: &str, command: &str, args: Vec<String>) -> GameHistoryEntry {
    GameHistoryEntry::new(
        name.to_string(),
        path.to_string(),
        core.to_string(),
        command.to_string(),
        args,
        None,
        true,
        false,
    )
}

#[test]
fn test_game_history() {
    let mut history = GameHistory::new();

    // Record a game
    let e = entry(
        "Test Game",
        "/test/game.gb",
        "gambatte",
        "retroarch",
        vec!["-L".to_string(), "gambatte.so".to_string()],
    );
    history.record_launch(e);

    // Verify it's in history
    let recent = history.get_recent_games(None, 10);
    assert_eq!(recent.len(), 1);
    assert_eq!(recent[0].name, "Test Game");
}

#[test]
fn test_history_limit() {
    let mut history = GameHistory::new();

    // Add more than MAX_HISTORY_SIZE games
    for i in 0..15 {
        let e = GameHistoryEntry::new(
            format!("Game {}", i),
            format!("/test/game{}.gb", i),
            "core".to_string(),
            "retroarch".to_string(),
            vec![],
            None,
            true,
            false,
        );
        history.record_launch(e);
    }

    // Should only keep MAX_HISTORY_SIZE
    let all = history.get_all();
    assert_eq!(all.len(), MAX_HISTORY_SIZE);
}

fn stamped(name: &str, path: &str, timestamp: i64) -> GameHistoryEntry {
    GameHistoryEntry {
        name: name.to_string(),
        path: path.to_string(),
        core: "core".to_string(),
        command: "retroarch".to_string(),
        args: vec![],
        screenshot: None,
        has_menu: true,
        needs_swap: false,
        timestamp,
    }
}

#[test]
fn eviction_drops_least_recently_played() {
    let mut history = GameHistory::new();
    for i in 0..MAX_HISTORY_SIZE {
        history.record_launch(stamped(
            &format!("Game {}", i),
            &format!("/roms/game{}.gb", i),
            100 + i as i64,
        ));
    }
    assert_eq!(history.get_all().len(), MAX_HISTORY_SIZE);

    // One more, newest of all: the store stays full and the oldest entry
    // (timestamp 100, game0) is the one that leaves.
    history.record_launch(stamped("Newest", "/roms/newest.gb", 10_000));
    let all = history.get_all();
    assert_eq!(all.len(), MAX_HISTORY_SIZE);
    assert!(all.iter().all(|e| e.path != "/roms/game0.gb"));
    assert_eq!(all[0].path, "/roms/newest.gb");
}

#[test]
fn reinsert_updates_instead_of_duplicating() {
    let mut history = GameHistory::new();
    history.record_launch(stamped("One", "/roms/one.gb", 10));
    history.record_launch(stamped("Two", "/roms/two.gb", 20));
    history.record_launch(stamped("One again", "/roms/one.gb", 30));
    let all = history.get_all();
    assert_eq!(all.len(), 2);
    assert_eq!(all[0].name, "One again");
    assert_eq!(all[1].name, "Two");
}

#[test]
fn recent_games_excludes_current() {
    let mut history = GameHistory::new();
    history.record_launch(stamped("One", "/roms/one.gb", 10));
    history.record_launch(stamped("Two", "/roms/two.gb", 20));
    let current = "/roms/two.gb".to_string();
    let recent = history.get_recent_games(Some(&current), 9);
    assert_eq!(recent.len(), 1);
    assert_eq!(recent[0].path, "/roms/one.gb");
}

#[test]
fn update_screenshot_sets_only_matching_path() {
    let mut history = GameHistory::new();
    history.record_launch(stamped("One", "/roms/one.gb", 10));
    history.record_launch(stamped("Two", "/roms/two.gb", 20));
    let path = "/roms/one.gb".to_string();
    history.update_screenshot(&path, "shot.png".to_string());
    let all = history.get_all();
    for e in all {
        if e.path == "/roms/one.gb" {
            assert_eq!(e.screenshot.as_deref(), Some("shot.png"));
        } else {
            assert!(e.screenshot.is_none());
        }
    }
}

#[test]
fn clear_empties_the_store() {
    let mut history = GameHistory::new();
    history.record_launch(stamped("One", "/roms/one.gb", 10));
    history.clear();
    assert_eq!(history.get_all().len(), 0);
}

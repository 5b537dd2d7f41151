use allium_shell::consoles::{Console, ConsoleMapper, Core, CoreType};
use allium_shell::database::{Database, GameRow};
use allium_shell::entry::Game;
use allium_shell::history::GameHistory;
use allium_shell::lazy_image::LazyImage;

fn test_console() -> Console {
    Console {
        name: "Test".into(),
        patterns: vec!["POKE".into(), "PKM".into()],
        extensions: vec!["gb".into(), "gbc".into()],
        cores: vec![],
        file_name: vec![],
    }
}

#[test]
fn test_console_mapper() {
    let mut mapper = ConsoleMapper::new();
    mapper.install_config(vec![test_console()], vec![]);

    assert!(mapper.get_console(&"Roms/POKE/rom.zip".to_string()).is_some());
    assert!(mapper.get_console(&"Roms/PKM/rom.zip".to_string()).is_some());
    assert!(mapper.get_console(&"Roms/Pokemon Mini (POKE)/rom.zip".to_string()).is_some());
    assert!(mapper.get_console(&"Roms/POKE MINI/rom.zip".to_string()).is_none());
    assert!(mapper.get_console(&"Roms/rom.gb".to_string()).is_some());
    assert!(mapper.get_console(&"Roms/rom.gbc".to_string()).is_some());
    assert!(mapper.get_console(&"Roms/rom.gbc.zip".to_string()).is_some());
    assert!(mapper.get_console(&"Roms/rom.zip.gbc".to_string()).is_some());
    assert!(mapper.get_console(&"Roms/gbc".to_string()).is_none());
    assert!(mapper.get_console(&"Roms/rom.gba".to_string()).is_none());
}

#[test]
fn file_name_match_wins() {
    let mut mapper = ConsoleMapper::new();
    mapper.install_config(
        vec![Console {
            name: "Cave Story".into(),
            patterns: vec![],
            extensions: vec![],
            cores: vec![],
            file_name: vec!["Doukutsu.exe".into()],
        }],
        vec![],
    );
    assert!(mapper.get_console(&"Cave Story/Doukutsu.exe".to_string()).is_some());
    assert!(mapper.get_console(&"Cave Story/Other.exe".to_string()).is_none());
}

#[test]
fn get_console_by_dir_matches_exact_folder() {
    let mut mapper = ConsoleMapper::new();
    mapper.install_config(vec![test_console()], vec![]);
    assert!(mapper.get_console_by_dir(&"Roms/POKE".to_string()).is_some());
    assert!(mapper.get_console_by_dir(&"Roms/Other".to_string()).is_none());
}

#[test]
fn core_names_fall_back_to_identifier() {
    let mut mapper = ConsoleMapper::new();
    mapper.install_config(
        vec![],
        vec![(
            "gambatte".to_string(),
            Core {
                name: "Gambatte".to_string(),
                core: CoreType::RetroArch("gambatte_libretro".to_string()),
                swap: false,
            },
        )],
    );
    assert_eq!(mapper.get_core_name("gambatte"), "Gambatte");
    assert_eq!(mapper.get_core_name("unknown_core"), "unknown_core");
}

#[test]
fn launch_game_plans_emulator_launch_and_records_history() {
    let mut mapper = ConsoleMapper::new();
    mapper.install_config(
        vec![Console {
            name: "Game Boy".into(),
            patterns: vec!["GB".into()],
            extensions: vec!["gb".into()],
            cores: vec!["gambatte".into()],
            file_name: vec![],
        }],
        vec![(
            "gambatte".to_string(),
            Core {
                name: "Gambatte".to_string(),
                core: CoreType::RetroArch("gambatte_libretro".to_string()),
                swap: false,
            },
        )],
    );
    let mut database = Database { games: vec![], indexed: true };
    let mut history = GameHistory::new();
    let game = Game {
        name: "Tetris".to_string(),
        full_name: "Tetris".to_string(),
        path: "/roms/GB/tetris.gb".to_string(),
        image: LazyImage::NotFound,
        extension: "gb".to_string(),
        core: None,
        favorite: false,
        screenshot_path: None,
    };
    let launcher = "/usr/bin/retroarch.sh".to_string();
    let planned = mapper
        .launch_game(&mut database, &mut history, &game, &launcher)
        .expect("a console claims the path");
    let (info, _cmd) = planned.expect("the console names a known core");
    assert_eq!(info.name, "Tetris");
    assert_eq!(info.path, "/roms/GB/tetris.gb");
    assert_eq!(info.core, "gambatte");
    assert_eq!(info.command, "/usr/bin/retroarch.sh");
    assert_eq!(info.args, vec!["gambatte_libretro".to_string(), "/roms/GB/tetris.gb".to_string()]);
    assert!(info.has_menu);
    assert!(!info.needs_swap);
    // The launch is in the history now.
    let all = history.get_all();
    assert_eq!(all.len(), 1);
    assert_eq!(all[0].path, "/roms/GB/tetris.gb");
}

#[test]
fn launch_game_fails_without_console() {
    let mapper = ConsoleMapper::new();
    let mut database = Database { games: vec![], indexed: true };
    let mut history = GameHistory::new();
    let game = Game {
        name: "Nowhere".to_string(),
        full_name: "Nowhere".to_string(),
        path: "/roms/none/rom.xyz".to_string(),
        image: LazyImage::NotFound,
        extension: "xyz".to_string(),
        core: None,
        favorite: false,
        screenshot_path: None,
    };
    let launcher = "retroarch".to_string();
    assert!(mapper.launch_game(&mut database, &mut history, &game, &launcher).is_err());
}

#[test]
fn play_count_increments_on_launch() {
    let mut database = Database {
        games: vec![GameRow {
            name: "Tetris".to_string(),
            path: "/roms/GB/tetris.gb".to_string(),
            image: None,
            core: None,
            favorite: false,
            play_count: 2,
            last_played: 5,
            screenshot_path: None,
        }],
        indexed: true,
    };
    let mut history = GameHistory::new();
    let mut mapper = ConsoleMapper::new();
    mapper.install_config(
        vec![Console {
            name: "Game Boy".into(),
            patterns: vec![],
            extensions: vec!["gb".into()],
            cores: vec!["gambatte".into()],
            file_name: vec![],
        }],
        vec![(
            "gambatte".to_string(),
            Core {
                name: "Gambatte".to_string(),
                core: CoreType::RetroArch("gambatte_libretro".to_string()),
                swap: false,
            },
        )],
    );
    let game = Game {
        name: "Tetris".to_string(),
        full_name: "Tetris".to_string(),
        path: "/roms/GB/tetris.gb".to_string(),
        image: LazyImage::NotFound,
        extension: "gb".to_string(),
        core: None,
        favorite: false,
        screenshot_path: None,
    };
    let launcher = "retroarch".to_string();
    let _ = mapper.launch_game(&mut database, &mut history, &game, &launcher);
    assert_eq!(database.games[0].play_count, 3);
}

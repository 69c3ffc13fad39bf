use league_config_manager::cfg::Cfg;
use league_config_manager::config::Config;
use league_config_manager::error::Error;
use league_config_manager::fs::FileOp;
use league_config_manager::game_settings::GameSettings;
use league_config_manager::game_settings::Probe;

fn seen(game: bool, settings: bool) -> Probe {
    Probe { game, settings, readonly: false }
}

fn config_at(path: Option<&str>) -> Config {
    let stored = Some(path.map(|p| p.to_string()));
    Config::new(stored, seen(true, true), seen(false, false)).0
}

#[test]
fn game_settings_from_a_directory_with_both_files() {
    let files = GameSettings::from_path("/games/lol/Config", seen(true, true)).unwrap();
    assert_eq!(files.game, "/games/lol/Config/game.cfg");
    assert_eq!(files.settings, "/games/lol/Config/PersistedSettings.json");
}

#[test]
fn game_settings_need_both_files() {
    assert_eq!(GameSettings::from_path("/x", seen(true, false)), Err(Error::WrongPath));
    assert_eq!(GameSettings::from_path("/x", seen(false, true)), Err(Error::WrongPath));
    assert_eq!(GameSettings::from_path("/x", seen(false, false)), Err(Error::WrongPath));
}

#[test]
fn game_settings_from_config_look_into_the_config_directory() {
    let files = GameSettings::from_config(&config_at(Some("/games/lol")), seen(true, true)).unwrap();
    assert_eq!(files.game, "/games/lol/Config/game.cfg");
    assert_eq!(files.settings, "/games/lol/Config/PersistedSettings.json");
}

#[test]
fn game_settings_from_config_without_a_path() {
    assert_eq!(
        GameSettings::from_config(&config_at(None), seen(true, true)),
        Err(Error::MissingPath)
    );
}

#[test]
fn game_settings_from_config_with_a_wrong_path() {
    let config = config_at(Some("/games/lol"));
    assert_eq!(GameSettings::from_config(&config, seen(true, false)), Err(Error::WrongPath));
}

#[test]
fn cfg_from_an_install_directory() {
    let files = Cfg::from_path("/games/lol", seen(true, true)).unwrap();
    assert_eq!(files.game, "/games/lol/Config/game.cfg");
    assert_eq!(files.settings, "/games/lol/Config/PersistedSettings.json");
    assert_eq!(Cfg::from_path("/games/lol", seen(true, false)), Err(Error::WrongPath));
}

#[test]
fn cfg_from_config() {
    let files = Cfg::from_config(&config_at(Some("/games/lol")), seen(true, true)).unwrap();
    assert_eq!(files.game, "/games/lol/Config/game.cfg");
    assert_eq!(Cfg::from_config(&config_at(None), seen(true, true)), Err(Error::MissingPath));
    assert_eq!(
        Cfg::from_config(&config_at(Some("/games/lol")), seen(false, false)),
        Err(Error::WrongPath)
    );
}

#[test]
fn set_readonly_names_the_primary_file_first() {
    let files = GameSettings::located("/c");
    assert_eq!(
        files.set_readonly(true),
        vec![
            FileOp::SetReadonly { path: "/c/game.cfg".to_string(), value: true },
            FileOp::SetReadonly { path: "/c/PersistedSettings.json".to_string(), value: true },
        ]
    );
    let cfg = Cfg::from_path("/i", seen(true, true)).unwrap();
    assert_eq!(
        cfg.set_readonly(false),
        vec![
            FileOp::SetReadonly { path: "/i/Config/game.cfg".to_string(), value: false },
            FileOp::SetReadonly {
                path: "/i/Config/PersistedSettings.json".to_string(),
                value: false
            },
        ]
    );
}

#[test]
fn update_paths_moves_both_files() {
    let mut files = GameSettings::located("/a");
    files.update_paths("/b");
    assert_eq!(files, GameSettings::located("/b"));
    assert_eq!(files.game, "/b/game.cfg");
}

#[test]
fn paste_string_puts_the_separator_between() {
    assert_eq!(GameSettings::seperator(), "<lcm-seperator>");
    assert_eq!(
        GameSettings::to_paste_string("[General]\nWidth=1\n", "{\"a\":1}"),
        "[General]\nWidth=1\n<lcm-seperator>{\"a\":1}"
    );
    assert_eq!(GameSettings::to_paste_string("", ""), "<lcm-seperator>");
}

#[test]
fn blob_is_split_at_the_separator() {
    let (files, ops) = GameSettings::from_string("/p", "abc<lcm-seperator>def").unwrap();
    assert_eq!(files, GameSettings::located("/p"));
    assert_eq!(
        ops,
        vec![
            FileOp::Write { path: "/p/game.cfg".to_string(), content: b"abc".to_vec() },
            FileOp::Write {
                path: "/p/PersistedSettings.json".to_string(),
                content: b"def".to_vec()
            },
        ]
    );
}

#[test]
fn blob_is_split_at_the_first_separator_only() {
    let (_, ops) =
        GameSettings::from_string("/p", "a<lcm-seperator>b<lcm-seperator>c").unwrap();
    assert_eq!(
        ops,
        vec![
            FileOp::Write { path: "/p/game.cfg".to_string(), content: b"a".to_vec() },
            FileOp::Write {
                path: "/p/PersistedSettings.json".to_string(),
                content: b"b<lcm-seperator>c".to_vec()
            },
        ]
    );
}

#[test]
fn blob_halves_may_be_empty() {
    let (_, ops) = GameSettings::from_string("/p", "<lcm-seperator>").unwrap();
    assert_eq!(
        ops,
        vec![
            FileOp::Write { path: "/p/game.cfg".to_string(), content: vec![] },
            FileOp::Write { path: "/p/PersistedSettings.json".to_string(), content: vec![] },
        ]
    );
}

#[test]
fn blob_without_separator_is_refused() {
    assert_eq!(GameSettings::from_string("/p", "abcdef"), Err(Error::Import));
    assert_eq!(GameSettings::from_string("/p", ""), Err(Error::Import));
    assert_eq!(GameSettings::from_string("/p", "<lcm-seperator"), Err(Error::Import));
}

#[test]
fn blob_round_trip_keeps_both_bodies() {
    let game = "[General]\nWidth=1920\nHeight=1080\n";
    let settings = "{\"files\":[\"\u{00e9}\u{4e2d}\"]}";
    let blob = GameSettings::to_paste_string(game, settings);
    let (_, ops) = GameSettings::from_string("/p", &blob).unwrap();
    assert_eq!(
        ops,
        vec![
            FileOp::Write { path: "/p/game.cfg".to_string(), content: game.as_bytes().to_vec() },
            FileOp::Write {
                path: "/p/PersistedSettings.json".to_string(),
                content: settings.as_bytes().to_vec()
            },
        ]
    );
}

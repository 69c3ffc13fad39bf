use league_config_manager::config::Config;
use league_config_manager::game_settings::Probe;
use league_config_manager::task::Task;

const FOUND: Probe = Probe { game: true, settings: true, readonly: false };
const HALF: Probe = Probe { game: true, settings: false, readonly: false };
const NOTHING: Probe = Probe { game: false, settings: false, readonly: false };

#[test]
fn stored_path_that_still_holds_is_kept() {
    let (config, tasks) = Config::new(Some(Some("/games/lol".to_string())), FOUND, NOTHING);
    assert_eq!(config.path(), &Some("/games/lol".to_string()));
    assert!(tasks.is_empty());
}

#[test]
fn stored_path_that_went_stale_falls_back() {
    let (config, tasks) = Config::new(Some(Some("/games/lol".to_string())), HALF, FOUND);
    assert_eq!(config.path(), &Some(Config::default_folder().to_string()));
    assert!(tasks.is_empty());
    let (config, tasks) = Config::new(Some(Some("/games/lol".to_string())), NOTHING, HALF);
    assert_eq!(config.path(), &None);
    assert!(tasks.is_empty());
}

#[test]
fn stored_config_without_path_stays_without() {
    let (config, tasks) = Config::new(Some(None), FOUND, FOUND);
    assert_eq!(config.path(), &None);
    assert!(tasks.is_empty());
}

#[test]
fn unreadable_config_falls_back_and_is_saved() {
    let (config, tasks) = Config::new(None, FOUND, FOUND);
    assert_eq!(config.path(), &Some("C:\\Riot Games\\League of Legends".to_string()));
    assert_eq!(
        tasks,
        vec![Task::SaveConfig { path: Some("C:\\Riot Games\\League of Legends".to_string()) }]
    );
    let (config, tasks) = Config::new(None, FOUND, NOTHING);
    assert_eq!(config.path(), &None);
    assert_eq!(tasks, vec![Task::SaveConfig { path: None }]);
}

#[test]
fn try_cfg_wants_both_files() {
    assert_eq!(Config::try_cfg(FOUND), Some("C:\\Riot Games\\League of Legends".to_string()));
    assert_eq!(Config::try_cfg(HALF), None);
    assert_eq!(Config::try_cfg(NOTHING), None);
}

#[test]
fn path_to_str_is_empty_without_a_path() {
    let (config, _) = Config::new(Some(None), NOTHING, NOTHING);
    assert_eq!(config.path_to_str(), "");
    let (config, _) = Config::new(Some(Some("/games/lol".to_string())), FOUND, NOTHING);
    assert_eq!(config.path_to_str(), "/games/lol");
}

#[test]
fn set_path_replaces_and_saves() {
    let (mut config, _) = Config::new(Some(None), NOTHING, NOTHING);
    let task = config.set_path(Some("/games/lol".to_string()));
    assert_eq!(config.path(), &Some("/games/lol".to_string()));
    assert_eq!(task, Task::SaveConfig { path: Some("/games/lol".to_string()) });
    assert_eq!(config.update(), Task::SaveConfig { path: Some("/games/lol".to_string()) });
    assert_eq!(config.write_config(), Task::SaveConfig { path: Some("/games/lol".to_string()) });
    let task = config.set_path(None);
    assert_eq!(config.path(), &None);
    assert_eq!(task, Task::SaveConfig { path: None });
}

#[test]
fn default_config_has_no_path() {
    let config = Config::default();
    assert_eq!(config.path(), &None);
    assert_eq!(config.path_to_str(), "");
}

#[test]
fn places() {
    assert_eq!(Config::get_config_path("/data/lcm"), "/data/lcm/config.json");
    assert_eq!(Config::game_settings_path("/games/lol"), "/games/lol/Config");
    assert_eq!(Config::default_folder(), "C:\\Riot Games\\League of Legends");
}

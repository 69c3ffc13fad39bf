use league_config_manager::app::resolve;
use league_config_manager::app::App;
use league_config_manager::config::Config;
use league_config_manager::error::Error;
use league_config_manager::fs::FileOp;
use league_config_manager::game_settings::GameSettings;
use league_config_manager::game_settings::Probe;
use league_config_manager::message::Archive;
use league_config_manager::message::Export;
use league_config_manager::message::Located;
use league_config_manager::message::Message;
use league_config_manager::message::Swap;
use league_config_manager::profile::Profile;
use league_config_manager::settings::Settings;
use league_config_manager::task::Task;
use league_config_manager::websocket::Event;
use std::collections::BTreeMap;

const ROOT: &str = "/data/lcm";
const INSTALL: &str = "/games/lol";
const GAME: &str = "/games/lol/Config/game.cfg";
const SETTINGS: &str = "/games/lol/Config/PersistedSettings.json";

fn found(readonly: bool) -> Probe {
    Probe { game: true, settings: true, readonly }
}

fn nothing() -> Probe {
    Probe { game: false, settings: false, readonly: false }
}

fn stored(name: &str, champion: Option<u32>) -> Profile {
    let entries = vec![(name.to_string(), Settings { champion, last_link: String::new() })];
    Profile::profiles(&entries).remove(0)
}

fn app_with(profiles: Vec<Profile>) -> App {
    let (config, _) = Config::new(Some(Some(INSTALL.to_string())), found(false), nothing());
    App::new(config, found(false), profiles, ROOT.to_string())
}

fn app_without_install(profiles: Vec<Profile>) -> App {
    let (config, _) = Config::new(Some(None), nothing(), nothing());
    App::new(config, nothing(), profiles, ROOT.to_string())
}

fn file(op: FileOp) -> Task {
    Task::File(op)
}

fn swap_ops(name: &str) -> Vec<FileOp> {
    vec![
        FileOp::SetReadonly { path: GAME.to_string(), value: false },
        FileOp::SetReadonly { path: SETTINGS.to_string(), value: false },
        FileOp::Copy { from: format!("{}/{}/game.cfg", ROOT, name), to: GAME.to_string() },
        FileOp::Copy {
            from: format!("{}/{}/PersistedSettings.json", ROOT, name),
            to: SETTINGS.to_string(),
        },
    ]
}

fn lock_ops(value: bool) -> Vec<FileOp> {
    vec![
        FileOp::SetReadonly { path: GAME.to_string(), value },
        FileOp::SetReadonly { path: SETTINGS.to_string(), value },
    ]
}

fn swap_tasks(name: &str) -> Vec<Task> {
    vec![Task::Swap {
        swap: Swap { profile: name.to_string(), manual: false },
        ops: swap_ops(name),
    }]
}

fn lock_tasks(value: bool) -> Vec<Task> {
    lock_ops(value).into_iter().map(file).collect()
}

fn names(app: &App) -> Vec<String> {
    app.profiles().iter().map(|p| p.name().clone()).collect()
}

/// A disk in memory that carries tasks out as a real one would.
struct Disk {
    files: BTreeMap<String, (Vec<u8>, bool)>,
}

impl Disk {
    fn with_install() -> Disk {
        let mut files = BTreeMap::new();
        files.insert(GAME.to_string(), (b"active game".to_vec(), false));
        files.insert(SETTINGS.to_string(), (b"active settings".to_vec(), false));
        Disk { files }
    }

    /// Carries the tasks out and hands back how the swaps among them ended.
    fn run(&mut self, tasks: &[Task]) -> Vec<Message> {
        let mut answers = Vec::new();
        for task in tasks {
            match task {
                Task::File(op) => self.apply(op),
                Task::Swap { swap, ops } => {
                    let done = ops.iter().all(|op| self.try_apply(op));
                    answers.push(Message::Swapped(swap.clone(), done));
                }
                _ => {}
            }
        }
        answers
    }

    fn try_apply(&mut self, op: &FileOp) -> bool {
        let possible = match op {
            FileOp::SetReadonly { path, .. } => self.files.contains_key(path),
            FileOp::Copy { from, to } => {
                self.files.contains_key(from) && !self.files.get(to).is_some_and(|file| file.1)
            }
            FileOp::Write { path, .. } => !self.files.get(path).is_some_and(|file| file.1),
            _ => true,
        };
        if possible {
            self.apply(op);
        }
        possible
    }

    fn apply(&mut self, op: &FileOp) {
        match op {
            FileOp::SetReadonly { path, value } => {
                self.files.get_mut(path).expect("file should exist").1 = *value;
            }
            FileOp::Copy { from, to } => {
                let source = self.files.get(from).expect("source should exist").clone();
                if let Some(target) = self.files.get(to) {
                    assert!(!target.1, "target is read-only");
                }
                self.files.insert(to.clone(), source);
            }
            FileOp::CreateDirAll { .. } => {}
            FileOp::Rename { from, to } => {
                if from != to {
                    let prefix = format!("{}/", from);
                    let moved: Vec<String> =
                        self.files.keys().filter(|p| p.starts_with(&prefix)).cloned().collect();
                    for path in moved {
                        let state = self.files.remove(&path).unwrap();
                        self.files.insert(format!("{}/{}", to, &path[prefix.len()..]), state);
                    }
                }
            }
            FileOp::RemoveDirAll { path } => {
                let prefix = format!("{}/", path);
                self.files.retain(|p, _| !p.starts_with(&prefix));
            }
            FileOp::Write { path, content } => {
                if let Some(target) = self.files.get(path) {
                    assert!(!target.1, "target is read-only");
                }
                self.files.insert(path.clone(), (content.clone(), false));
            }
        }
    }

    fn content(&self, path: &str) -> &[u8] {
        &self.files[path].0
    }

    fn readonly(&self, path: &str) -> bool {
        self.files[path].1
    }
}

#[test]
fn start_with_a_valid_install() {
    let (config, _) = Config::new(Some(Some(INSTALL.to_string())), found(true), nothing());
    let app = App::new(config, found(true), vec![stored("a", None)], ROOT.to_string());
    assert_eq!(app.cfg(), &Some(GameSettings::located("/games/lol/Config")));
    assert!(app.readonly());
    assert_eq!(app.error(), None);
    assert_eq!(app.success(), &None);
    assert_eq!(app.champion_id(), None);
    assert!(!app.connected());
    assert_eq!(app.retry_in(), None);
    assert_eq!(app.link(), "");
    assert_eq!(app.root(), ROOT);
    assert_eq!(app.config().path(), &Some(INSTALL.to_string()));
    assert_eq!(names(&app), vec!["a"]);
}

#[test]
fn start_without_a_configured_install() {
    let app = app_without_install(vec![]);
    assert_eq!(app.cfg(), &None);
    assert!(!app.readonly());
    assert_eq!(app.error(), Some(Error::MissingPath));
}

#[test]
fn start_with_an_install_that_lacks_a_file() {
    let (config, _) = Config::new(Some(Some(INSTALL.to_string())), found(false), nothing());
    let seen = Probe { game: true, settings: false, readonly: true };
    let app = App::new(config, seen, vec![], ROOT.to_string());
    assert_eq!(app.cfg(), &None);
    assert!(!app.readonly());
    assert_eq!(app.error(), Some(Error::WrongPath));
}

#[test]
fn resolver_prefers_the_exact_binding() {
    let profiles = vec![stored("B", Some(0)), stored("A", Some(5)), stored("C", None)];
    assert_eq!(resolve(&profiles, 5), Some(1));
    assert_eq!(resolve(&profiles, 7), Some(0));
    assert_eq!(resolve(&profiles, 0), Some(0));
    let unbound = vec![stored("C", None), stored("A", Some(5))];
    assert_eq!(resolve(&unbound, 7), None);
    assert_eq!(resolve(&vec![], 5), None);
}

#[test]
fn selection_swaps_by_priority() {
    let mut app = app_with(vec![stored("A", Some(5)), stored("B", Some(0))]);
    let tasks = app.update(Message::WebsocketEvent(Event::Selected(5)));
    assert_eq!(tasks, swap_tasks("A"));
    assert_eq!(app.champion_id(), Some(5));

    let tasks = app.update(Message::WebsocketEvent(Event::Selected(7)));
    assert_eq!(tasks, swap_tasks("B"));
    assert_eq!(app.champion_id(), Some(7));

    let tasks = app.update(Message::WebsocketEvent(Event::Selected(0)));
    assert_eq!(tasks, vec![]);
    assert_eq!(app.champion_id(), None);
}

#[test]
fn selection_without_candidate_swaps_nothing() {
    let mut app = app_with(vec![stored("A", Some(5)), stored("C", None)]);
    assert_eq!(app.update(Message::WebsocketEvent(Event::Selected(7))), vec![]);
    assert_eq!(app.champion_id(), Some(7));
    assert_eq!(app.error(), None);
}

#[test]
fn selection_without_active_files_swaps_nothing() {
    let mut app = app_without_install(vec![stored("A", Some(5))]);
    assert_eq!(app.update(Message::WebsocketEvent(Event::Selected(5))), vec![]);
    assert_eq!(app.champion_id(), Some(5));
}

#[test]
fn scenario_create_bind_select() {
    let mut disk = Disk::with_install();
    let mut app = app_with(Profile::profiles(&vec![]));
    assert!(app.profiles().is_empty());

    let tasks = app.update(Message::AddProfile);
    disk.run(&tasks);
    assert_eq!(names(&app), vec!["profile_0"]);
    assert_eq!(disk.content("/data/lcm/profile_0/game.cfg"), b"active game");
    assert_eq!(disk.content("/data/lcm/profile_0/PersistedSettings.json"), b"active settings");

    let tasks =
        app.update(Message::PickListChange("profile_0".to_string(), "Aphelios".to_string()));
    assert_eq!(
        tasks,
        vec![Task::SaveSettings {
            path: "/data/lcm/profile_0/settings.json".to_string(),
            settings: Settings { champion: Some(523), last_link: String::new() },
        }]
    );
    assert_eq!(app.profiles()[0].champion(), &Some(523));

    disk.apply(&FileOp::Write { path: GAME.to_string(), content: b"changed in game".to_vec() });
    disk.apply(&FileOp::Write { path: SETTINGS.to_string(), content: b"changed too".to_vec() });
    disk.apply(&FileOp::SetReadonly { path: GAME.to_string(), value: true });
    disk.apply(&FileOp::SetReadonly { path: SETTINGS.to_string(), value: true });

    let tasks = app.update(Message::WebsocketEvent(Event::Selected(523)));
    assert_eq!(tasks, swap_tasks("profile_0"));
    let answers = disk.run(&tasks);
    assert_eq!(
        answers,
        vec![Message::Swapped(Swap { profile: "profile_0".to_string(), manual: false }, true)]
    );
    assert_eq!(disk.content(GAME), b"active game");
    assert_eq!(disk.content(SETTINGS), b"active settings");
    assert_eq!(app.champion_id(), Some(523));
    for answer in answers {
        assert_eq!(app.update(answer), vec![]);
    }
    assert_eq!(app.error(), None);
    assert_eq!(app.success(), &None);
    assert_eq!(app.champion_id(), Some(523));
}

#[test]
fn swap_with_a_missing_stored_file_is_shown_as_an_error() {
    let mut disk = Disk::with_install();
    disk.apply(&FileOp::Write { path: "/data/lcm/A/game.cfg".to_string(), content: b"g".to_vec() });
    let mut app = app_with(vec![stored("A", Some(5))]);

    let tasks = app.update(Message::WebsocketEvent(Event::Selected(5)));
    let answers = disk.run(&tasks);
    assert_eq!(
        answers,
        vec![Message::Swapped(Swap { profile: "A".to_string(), manual: false }, false)]
    );
    for answer in answers {
        assert_eq!(app.update(answer), vec![]);
    }
    assert_eq!(app.error(), Some(Error::Swap));
    assert_eq!(app.success(), &None);

    let tasks = app.update(Message::UseProfile(stored("A", Some(5))));
    assert_eq!(app.success(), &None);
    for answer in disk.run(&tasks) {
        app.update(answer);
    }
    assert_eq!(app.error(), Some(Error::Swap));
    assert_eq!(app.success(), &None);
}

#[test]
fn swap_reports() {
    let mut app = app_with(vec![]);
    let by_hand = Swap { profile: "mine".to_string(), manual: true };
    let by_watcher = Swap { profile: "mine".to_string(), manual: false };
    assert_eq!(app.update(Message::Swapped(by_hand.clone(), true)), vec![]);
    assert_eq!(app.success(), &Some("Using \"mine\"".to_string()));
    assert_eq!(app.error(), None);
    assert_eq!(app.update(Message::Swapped(by_watcher.clone(), true)), vec![]);
    assert_eq!(app.success(), &None);
    assert_eq!(app.error(), None);
    assert_eq!(app.update(Message::Swapped(by_hand, false)), vec![]);
    assert_eq!(app.success(), &None);
    assert_eq!(app.error(), Some(Error::Swap));
    assert_eq!(app.update(Message::Swapped(by_watcher, false)), vec![]);
    assert_eq!(app.error(), Some(Error::Swap));
}

#[test]
fn lock_twice_is_lock_once() {
    for value in [true, false] {
        let mut disk = Disk::with_install();
        let mut app = app_with(vec![]);
        let first = app.update(Message::SetReadonly(value));
        assert_eq!(first, lock_tasks(value));
        assert_eq!(app.readonly(), value);
        disk.run(&first);
        let after_first = disk.files.clone();
        assert_eq!(disk.readonly(GAME), value);
        assert_eq!(disk.readonly(SETTINGS), value);

        let second = app.update(Message::SetReadonly(value));
        assert_eq!(second, first);
        assert_eq!(app.readonly(), value);
        disk.run(&second);
        assert_eq!(disk.files, after_first);
    }
}

#[test]
fn lock_without_active_files_is_only_remembered() {
    let mut app = app_without_install(vec![]);
    assert_eq!(app.update(Message::SetReadonly(true)), vec![]);
    assert!(app.readonly());
}

#[test]
fn use_profile_swaps_and_applies_the_lock() {
    let mut app = app_with(vec![stored("mine", None)]);
    app.update(Message::SetReadonly(true));
    let tasks = app.update(Message::UseProfile(stored("mine", None)));
    let mut ops = swap_ops("mine");
    ops.extend(lock_ops(true));
    assert_eq!(
        tasks,
        vec![Task::Swap { swap: Swap { profile: "mine".to_string(), manual: true }, ops }]
    );
    assert_eq!(app.success(), &None);

    let mut disk = Disk::with_install();
    disk.apply(&FileOp::Write { path: "/data/lcm/mine/game.cfg".to_string(), content: b"g".to_vec() });
    disk.apply(&FileOp::Write {
        path: "/data/lcm/mine/PersistedSettings.json".to_string(),
        content: b"s".to_vec(),
    });
    disk.apply(&FileOp::SetReadonly { path: GAME.to_string(), value: true });
    let answers = disk.run(&tasks);
    assert_eq!(disk.content(GAME), b"g");
    assert_eq!(disk.content(SETTINGS), b"s");
    assert!(disk.readonly(GAME));
    assert!(disk.readonly(SETTINGS));
    for answer in answers {
        assert_eq!(app.update(answer), vec![]);
    }
    assert_eq!(app.success(), &Some("Using \"mine\"".to_string()));
    assert_eq!(app.error(), None);
}

#[test]
fn default_app_knows_nothing() {
    let app = App::default();
    assert_eq!(app.cfg(), &None);
    assert_eq!(app.config().path(), &None);
    assert!(!app.readonly());
    assert_eq!(app.error(), None);
    assert_eq!(app.success(), &None);
    assert!(app.profiles().is_empty());
    assert_eq!(app.champion_id(), None);
    assert!(!app.connected());
    assert_eq!(app.retry_in(), None);
    assert_eq!(app.link(), "");
    assert_eq!(app.root(), "");
}

#[test]
fn unknown_binding_is_kept_and_never_counts_as_taken() {
    let mut app = app_with(vec![stored("A", Some(999_999)), stored("B", None)]);
    assert_eq!(app.profiles()[0].champion(), &Some(999_999));
    let tasks = app.update(Message::PickListChange("B".to_string(), "Aphelios".to_string()));
    assert_eq!(tasks.len(), 1);
    assert_eq!(app.error(), None);
    assert_eq!(app.update(Message::WebsocketEvent(Event::Selected(999_999))), swap_tasks("A"));
}

#[test]
fn use_profile_without_active_files_does_nothing() {
    let mut app = app_without_install(vec![stored("mine", None)]);
    assert_eq!(app.update(Message::UseProfile(stored("mine", None))), vec![]);
    assert_eq!(app.success(), &None);
}

#[test]
fn sixteenth_add_profile_changes_nothing() {
    let mut app = app_with(vec![]);
    for n in 0..15 {
        let tasks = app.update(Message::AddProfile);
        assert_eq!(tasks.len(), 3);
        assert_eq!(app.profiles().len(), n + 1);
    }
    assert_eq!(app.update(Message::AddProfile), vec![]);
    assert_eq!(app.profiles().len(), 15);
    assert_eq!(names(&app)[14], "profile_14");
}

#[test]
fn add_profile_without_active_files_does_nothing() {
    let mut app = app_without_install(vec![]);
    assert_eq!(app.update(Message::AddProfile), vec![]);
    assert!(app.profiles().is_empty());
}

#[test]
fn remove_profile_deletes_directory_and_entry() {
    let mut app = app_with(vec![stored("a", None), stored("b", None)]);
    let tasks = app.update(Message::RemoveProfile("a".to_string()));
    assert_eq!(tasks, vec![file(FileOp::RemoveDirAll { path: "/data/lcm/a".to_string() })]);
    assert_eq!(names(&app), vec!["b"]);
    assert_eq!(app.update(Message::RemoveProfile("a".to_string())), vec![]);
    assert_eq!(names(&app), vec!["b"]);
}

#[test]
fn rename_through_messages() {
    let mut app = app_with(vec![stored("X", Some(5)), stored("Y", None)]);
    app.update(Message::Edit("X".to_string()));
    assert!(app.profiles()[0].editing());
    assert_eq!(app.profiles()[0].edit_name(), "X");
    app.update(Message::OnChange("X".to_string(), "Z".to_string()));
    assert_eq!(app.profiles()[0].edit_name(), "Z");
    let tasks = app.update(Message::Confirm("X".to_string()));
    assert_eq!(
        tasks,
        vec![file(FileOp::Rename { from: "/data/lcm/X".to_string(), to: "/data/lcm/Z".to_string() })]
    );
    assert_eq!(names(&app), vec!["Z", "Y"]);
    assert_eq!(app.success(), &Some("Changed name to Z".to_string()));
    assert_eq!(app.error(), None);
    assert_eq!(app.profiles()[0].champion(), &Some(5));
}

#[test]
fn rename_collision_leaves_everything_as_it_was() {
    let mut disk = Disk::with_install();
    disk.apply(&FileOp::Write { path: "/data/lcm/X/game.cfg".to_string(), content: b"x".to_vec() });
    disk.apply(&FileOp::Write { path: "/data/lcm/Y/game.cfg".to_string(), content: b"y".to_vec() });
    let before = disk.files.clone();

    let mut app = app_with(vec![stored("X", Some(5)), stored("Y", None)]);
    app.update(Message::Edit("X".to_string()));
    app.update(Message::OnChange("X".to_string(), "Y".to_string()));
    let profiles_before = app.profiles().clone();
    let tasks = app.update(Message::Confirm("X".to_string()));
    assert_eq!(tasks, vec![]);
    assert_eq!(app.error(), Some(Error::NameTaken));
    assert_eq!(app.success(), &None);
    assert_eq!(app.profiles(), &profiles_before);
    assert_eq!(names(&app), vec!["X", "Y"]);
    disk.run(&tasks);
    assert_eq!(disk.files, before);
}

#[test]
fn edit_can_be_given_up() {
    let mut app = app_with(vec![stored("X", None)]);
    app.update(Message::Edit("X".to_string()));
    app.update(Message::OnChange("X".to_string(), "Z".to_string()));
    assert_eq!(app.update(Message::Reset("X".to_string())), vec![]);
    assert!(!app.profiles()[0].editing());
    assert_eq!(names(&app), vec!["X"]);
}

#[test]
fn messages_for_unknown_profiles_change_nothing() {
    let mut app = app_with(vec![stored("X", None)]);
    let before = app.profiles().clone();
    for message in [
        Message::Edit("nobody".to_string()),
        Message::Confirm("nobody".to_string()),
        Message::Reset("nobody".to_string()),
        Message::OnChange("nobody".to_string(), "x".to_string()),
        Message::PickListChange("nobody".to_string(), "Default".to_string()),
        Message::PostLink("link".to_string(), "nobody".to_string()),
        Message::RemoveProfile("nobody".to_string()),
    ] {
        assert_eq!(app.update(message), vec![]);
        assert_eq!(app.profiles(), &before);
        assert_eq!(app.error(), None);
    }
}

#[test]
fn binding_is_refused_where_another_profile_has_it() {
    let mut app = app_with(vec![stored("A", Some(523)), stored("B", None), stored("D", Some(0))]);
    let tasks = app.update(Message::PickListChange("B".to_string(), "Aphelios".to_string()));
    assert_eq!(tasks, vec![]);
    assert_eq!(app.error(), Some(Error::ChampionTaken));
    assert_eq!(app.profiles()[1].champion(), &None);

    let tasks = app.update(Message::PickListChange("B".to_string(), "Default".to_string()));
    assert_eq!(tasks, vec![]);
    assert_eq!(app.error(), Some(Error::ChampionTaken));

    let tasks = app.update(Message::PickListChange("A".to_string(), "Aphelios".to_string()));
    assert_eq!(tasks.len(), 1);
    assert_eq!(app.error(), None);
    assert_eq!(app.profiles()[0].champion(), &Some(523));
}

#[test]
fn disabled_can_be_picked_by_any_number_of_profiles() {
    let mut app = app_with(vec![stored("A", None), stored("B", Some(1))]);
    let tasks = app.update(Message::PickListChange("B".to_string(), "Disabled".to_string()));
    assert_eq!(
        tasks,
        vec![Task::SaveSettings {
            path: "/data/lcm/B/settings.json".to_string(),
            settings: Settings { champion: None, last_link: String::new() },
        }]
    );
    assert_eq!(app.error(), None);
    assert_eq!(app.profiles()[1].champion(), &None);
}

#[test]
fn location_is_taken_where_both_files_are_seen() {
    let mut app = app_without_install(vec![]);
    assert_eq!(app.update(Message::FindLocation), vec![Task::FindLocation]);
    let located = Located { path: INSTALL.to_string(), seen: found(true) };
    let tasks = app.update(Message::SetLocation(Ok(located)));
    assert_eq!(tasks, vec![Task::SaveConfig { path: Some(INSTALL.to_string()) }]);
    assert_eq!(app.cfg(), &Some(GameSettings::located("/games/lol/Config")));
    assert!(app.readonly());
    assert_eq!(app.error(), None);
    assert_eq!(app.config().path(), &Some(INSTALL.to_string()));
}

#[test]
fn location_without_the_files_is_wrong() {
    let mut app = app_with(vec![]);
    let located = Located { path: "/elsewhere".to_string(), seen: nothing() };
    let tasks = app.update(Message::SetLocation(Ok(located)));
    assert_eq!(tasks, vec![]);
    assert_eq!(app.cfg(), &None);
    assert_eq!(app.error(), Some(Error::WrongPath));
    assert_eq!(app.config().path(), &Some(INSTALL.to_string()));
}

#[test]
fn set_cfg_reports_what_it_found() {
    let mut app = app_without_install(vec![]);
    let located = Located { path: INSTALL.to_string(), seen: found(false) };
    assert_eq!(app.set_cfg(&located), None);
    assert_eq!(app.cfg(), &Some(GameSettings::located("/games/lol/Config")));
    let located = Located { path: INSTALL.to_string(), seen: nothing() };
    assert_eq!(app.set_cfg(&located), Some(Error::WrongPath));
    assert_eq!(app.cfg(), &None);
}

#[test]
fn closed_dialogs_are_reported() {
    let mut app = app_with(vec![]);
    assert_eq!(app.update(Message::SetLocation(Err(Error::DialogClosed))), vec![]);
    assert_eq!(app.error(), Some(Error::DialogClosed));
    assert_eq!(app.update(Message::SetExport(Err(Error::DialogClosed))), vec![]);
    assert_eq!(app.error(), Some(Error::DialogClosed));
    assert_eq!(app.update(Message::SetImport(Err(Error::DialogClosed))), vec![]);
    assert_eq!(app.error(), Some(Error::DialogClosed));
}

#[test]
fn export_goes_through_the_picker() {
    let mut app = app_with(vec![stored("mine", None)]);
    assert_eq!(
        app.update(Message::Export(stored("mine", None))),
        vec![Task::PickExport(stored("mine", None))]
    );
    let export = Export {
        dir: "/out".to_string(),
        profile: stored("mine", None),
        game: b"g".to_vec(),
        settings: b"s".to_vec(),
    };
    let tasks = app.update(Message::SetExport(Ok(export)));
    assert_eq!(app.success(), &Some("Exported profile".to_string()));
    assert_eq!(app.error(), None);
    assert_eq!(tasks.len(), 1);
    match &tasks[0] {
        Task::File(FileOp::Write { path, content }) => {
            assert_eq!(path, "/out/mine.zip");
            assert!(content.starts_with(b"PK"));
        }
        other => panic!("unexpected task {:?}", other),
    }
}

#[test]
fn failed_packing_fails_the_export() {
    let mut app = app_with(vec![]);
    let tasks = app.finish_export(&stored("mine", None), "/out", None);
    assert_eq!(tasks, vec![]);
    assert_eq!(app.error(), Some(Error::ZipExport));
    let tasks = app.finish_export(&stored("mine", None), "/out", Some(vec![1, 2]));
    assert_eq!(
        tasks,
        vec![file(FileOp::Write { path: "/out/mine.zip".to_string(), content: vec![1, 2] })]
    );
    assert_eq!(app.success(), &Some("Exported profile".to_string()));
}

#[test]
fn export_then_import_through_messages() {
    let mut app = app_with(vec![stored("mine", Some(1))]);
    let export = Export {
        dir: "/out".to_string(),
        profile: stored("mine", Some(1)),
        game: b"game body".to_vec(),
        settings: b"settings body".to_vec(),
    };
    let tasks = app.update(Message::SetExport(Ok(export)));
    let bytes = match &tasks[0] {
        Task::File(FileOp::Write { content, .. }) => content.clone(),
        other => panic!("unexpected task {:?}", other),
    };
    assert_eq!(app.update(Message::Import), vec![Task::PickImport]);
    let tasks = app.update(Message::SetImport(Ok(Archive { stem: "mine".to_string(), bytes })));
    assert_eq!(names(&app), vec!["mine", "profile_0"]);
    assert_eq!(app.profiles()[1].champion(), &None);
    assert_eq!(
        tasks,
        vec![
            file(FileOp::CreateDirAll { path: "/data/lcm/profile_0".to_string() }),
            file(FileOp::Write {
                path: "/data/lcm/profile_0/game.cfg".to_string(),
                content: b"game body".to_vec()
            }),
            file(FileOp::Write {
                path: "/data/lcm/profile_0/PersistedSettings.json".to_string(),
                content: b"settings body".to_vec()
            }),
        ]
    );
    let mut disk = Disk::with_install();
    disk.run(&tasks);
    assert_eq!(disk.content("/data/lcm/profile_0/game.cfg"), b"game body");
    assert_eq!(disk.content("/data/lcm/profile_0/PersistedSettings.json"), b"settings body");
}

#[test]
fn import_of_a_broken_archive_fails() {
    let mut app = app_with(vec![]);
    let archive = Archive { stem: "shared".to_string(), bytes: b"no archive".to_vec() };
    assert_eq!(app.update(Message::SetImport(Ok(archive))), vec![]);
    assert_eq!(app.error(), Some(Error::ZipImport));
    assert!(app.profiles().is_empty());
}

#[test]
fn links() {
    let mut app = app_with(vec![stored("mine", None)]);
    assert_eq!(
        app.update(Message::CopyLink("https://dpaste.com/A".to_string())),
        vec![Task::CopyToClipboard("https://dpaste.com/A".to_string())]
    );
    assert_eq!(app.success(), &Some("Copied link!".to_string()));

    assert_eq!(
        app.update(Message::GenerateLink("blob".to_string(), "mine".to_string())),
        vec![Task::Post { content: "blob".to_string(), profile: "mine".to_string() }]
    );
    assert_eq!(app.success(), &Some("Generated link!".to_string()));

    let tasks = app.update(Message::PostLink("https://dpaste.com/B".to_string(), "mine".to_string()));
    assert_eq!(
        tasks,
        vec![Task::SaveSettings {
            path: "/data/lcm/mine/settings.json".to_string(),
            settings: Settings { champion: None, last_link: "https://dpaste.com/B".to_string() },
        }]
    );
    assert_eq!(app.profiles()[0].last_link(), "https://dpaste.com/B");
    assert_eq!(app.success(), &None);

    assert_eq!(app.update(Message::PostLinkError("timeout".to_string())), vec![]);
    assert_eq!(app.error(), None);

    assert_eq!(app.update(Message::ChangeLink("https://dpaste.com/C".to_string())), vec![]);
    assert_eq!(app.link(), "https://dpaste.com/C");

    assert_eq!(
        app.update(Message::FetchLink("https://dpaste.com/C".to_string())),
        vec![Task::Fetch { url: "https://dpaste.com/C.txt".to_string() }]
    );
}

#[test]
fn fetched_blob_becomes_a_profile() {
    let mut app = app_with(vec![stored("profile_0", None)]);
    let tasks = app.update(Message::AddProfileFromString("g<lcm-seperator>s".to_string()));
    assert_eq!(names(&app), vec!["profile_0", "profile_1"]);
    assert_eq!(
        tasks,
        vec![
            file(FileOp::CreateDirAll { path: "/data/lcm/profile_1".to_string() }),
            file(FileOp::Write {
                path: "/data/lcm/profile_1/game.cfg".to_string(),
                content: b"g".to_vec()
            }),
            file(FileOp::Write {
                path: "/data/lcm/profile_1/PersistedSettings.json".to_string(),
                content: b"s".to_vec()
            }),
        ]
    );
}

#[test]
fn fetched_blob_without_separator_is_an_import_error() {
    let mut app = app_with(vec![]);
    assert_eq!(app.update(Message::AddProfileFromString("nothing".to_string())), vec![]);
    assert_eq!(app.error(), Some(Error::Import));
    assert!(app.profiles().is_empty());
    assert_eq!(app.update(Message::FetchError(Error::Import)), vec![]);
    assert_eq!(app.error(), Some(Error::Import));
}

#[test]
fn countdown_does_not_hide_a_pending_error() {
    let mut app = app_with(vec![]);
    app.update(Message::FetchError(Error::Import));
    app.update(Message::WebsocketEvent(Event::Retrying(10)));
    assert_eq!(app.error(), Some(Error::Import));
    assert_eq!(app.retry_in(), Some(10));
    app.update(Message::WebsocketEvent(Event::Retrying(9)));
    assert_eq!(app.error(), Some(Error::Import));
    assert_eq!(app.retry_in(), Some(9));
    app.update(Message::WebsocketEvent(Event::Connected));
    assert_eq!(app.error(), None);
}

#[test]
fn next_action_clears_both_message_slots() {
    let mut app = app_with(vec![]);
    app.update(Message::CopyLink("l".to_string()));
    assert!(app.success().is_some());
    app.update(Message::ChangeLink("x".to_string()));
    assert_eq!(app.success(), &None);
    app.update(Message::FetchError(Error::Import));
    assert!(app.error().is_some());
    app.update(Message::ChangeLink("y".to_string()));
    assert_eq!(app.error(), None);
}

#[test]
fn connection_state_follows_the_watcher() {
    let mut app = app_with(vec![]);
    assert_eq!(app.connection_text(), "Disconnected.");
    app.update(Message::WebsocketEvent(Event::Disconnected));
    app.update(Message::WebsocketEvent(Event::Retrying(10)));
    assert!(!app.connected());
    assert_eq!(app.retry_in(), Some(10));
    assert_eq!(app.connection_text(), "Disconnected. Retrying in 10 seconds...");
    app.update(Message::WebsocketEvent(Event::Retrying(1)));
    assert_eq!(app.connection_text(), "Disconnected. Retrying in 1 seconds...");
    app.update(Message::WebsocketEvent(Event::Connected));
    assert!(app.connected());
    assert_eq!(app.retry_in(), None);
    assert_eq!(app.connection_text(), "Connected.");
    app.update(Message::WebsocketEvent(Event::Selected(523)));
    assert_eq!(app.connection_text(), "Selected champion: Aphelios");
    app.update(Message::WebsocketEvent(Event::Selected(999_999)));
    assert_eq!(app.connection_text(), "Connected.");
    app.update(Message::WebsocketEvent(Event::Selected(0)));
    assert_eq!(app.connection_text(), "Connected.");
    app.update(Message::WebsocketEvent(Event::Retrying(3)));
    app.update(Message::WebsocketEvent(Event::Disconnected));
    assert!(!app.connected());
    assert_eq!(app.retry_in(), None);
    assert_eq!(app.connection_text(), "Disconnected.");
}

#[test]
fn profiles_are_found_by_name() {
    let app = app_with(vec![stored("a", None), stored("b", None), stored("a", Some(0))]);
    assert_eq!(app.get_profile_from_name("a"), Some(0));
    assert_eq!(app.get_profile_from_name("b"), Some(1));
    assert_eq!(app.get_profile_from_name("c"), None);
}

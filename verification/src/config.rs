//! The application's own configuration: where the game is installed.

use crate::game_settings::Probe;
use crate::task::Task;
use crate::task::TaskModel;
use crate::text::join;
use crate::text::spec_join;
use vstd::prelude::*;

verus! {

/// The persisted application configuration.
#[derive(Debug, Clone, PartialEq, Eq)]
pub struct Config {
    path: Option<String>,
}

impl View for Config {
    type V = Option<Seq<char>>;

    /// The configured install directory, if any.
    closed spec fn view(&self) -> Option<Seq<char>> {
        match self.path {
            Some(path) => Some(path@),
            None => None,
        }
    }
}

/// The install directory that is tried when none is configured.
pub open spec fn spec_default_folder() -> Seq<char> {
    "C:\\Riot Games\\League of Legends"@
}

/// The install directory to fall back on: the usual one, provided the
/// settings files were seen there.
pub open spec fn spec_try_cfg(default_seen: Probe) -> Option<Seq<char>> {
    if default_seen.game && default_seen.settings {
        Some(spec_default_folder())
    } else {
        None
    }
}

/// The configuration to start with, and whether it has to be saved.
/// `stored` is what the configuration file held, `None` where it could not be
/// read; `stored_seen` is what was found at the stored install directory and
/// `default_seen` what was found at the usual one.
pub open spec fn spec_new(
    stored: Option<Option<Seq<char>>>,
    stored_seen: Probe,
    default_seen: Probe,
) -> (Option<Seq<char>>, bool) {
    match stored {
        None => (spec_try_cfg(default_seen), true),
        Some(None) => (None, false),
        Some(Some(install)) => if stored_seen.game && stored_seen.settings {
            (Some(install), false)
        } else {
            (spec_try_cfg(default_seen), false)
        },
    }
}

impl Default for Config {
    /// A configuration without an install directory.
    fn default() -> (config: Config)
        ensures
            config@ is None,
    {
        Config { path: None }
    }
}

// Places.
impl Config {
    /// The configuration file inside the application's data directory.
    pub fn get_config_path(dir: &str) -> (path: String)
        ensures
            path@ == spec_join(dir@, "config.json"@),
    {
        join(dir, "config.json")
    }

    /// The install directory that is tried when none is configured.
    pub fn default_folder() -> (folder: &'static str)
        ensures
            folder@ == spec_default_folder(),
    {
        "C:\\Riot Games\\League of Legends"
    }

    /// The directory of the settings files below an install directory.
    pub fn game_settings_path(path: &str) -> (dir: String)
        ensures
            dir@ == spec_join(path@, "Config"@),
    {
        join(path, "Config")
    }
}

impl Config {
    /// The configuration to start with. A configuration that could not be
    /// read is replaced by the fallback and saved; a stored install directory
    /// whose settings files are gone is replaced by the fallback.
    pub fn new(stored: Option<Option<String>>, stored_seen: Probe, default_seen: Probe) -> (started:
        (Config, Vec<Task>))
        ensures
            started.0@ == spec_new(
                match stored {
                    Some(Some(install)) => Some(Some(install@)),
                    Some(None) => Some(None),
                    None => None,
                },
                stored_seen,
                default_seen,
            ).0,
            started.1@.len() == (if stored is None {
                1nat
            } else {
                0nat
            }),
            stored is None ==> started.1@[0]@ == (TaskModel::SaveConfig { path: started.0@ }),
    {
        match stored {
            None => {
                let config = Config { path: Self::try_cfg(default_seen) };
                let mut tasks: Vec<Task> = Vec::new();
                tasks.push(config.write_config());
                (config, tasks)
            },
            Some(None) => (Config { path: None }, Vec::new()),
            Some(Some(install)) => {
                if stored_seen.game && stored_seen.settings {
                    (Config { path: Some(install) }, Vec::new())
                } else {
                    (Config { path: Self::try_cfg(default_seen) }, Vec::new())
                }
            },
        }
    }

    /// The configured install directory, if any.
    pub fn path(&self) -> (path: &Option<String>)
        ensures
            match *path {
                Some(install) => self@ == Some(install@),
                None => self@ is None,
            },
    {
        &self.path
    }

    /// The configured install directory as text; empty when there is none.
    pub fn path_to_str(&self) -> (text: &str)
        ensures
            text@ == match self@ {
                Some(install) => install,
                None => Seq::empty(),
            },
    {
        match &self.path {
            Some(path) => path.as_str(),
            None => {
                proof {
                    reveal_strlit("");
                }
                ""
            },
        }
    }

    /// Replaces the install directory and saves the configuration.
    pub fn set_path(&mut self, cfg_path: Option<String>) -> (task: Task)
        ensures
            final(self)@ == match cfg_path {
                Some(install) => Some(install@),
                None => None,
            },
            task@ == (TaskModel::SaveConfig { path: final(self)@ }),
    {
        self.path = cfg_path;
        self.update()
    }

    /// The task that writes the configuration file.
    pub fn write_config(&self) -> (task: Task)
        ensures
            task@ == (TaskModel::SaveConfig { path: self@ }),
    {
        Task::SaveConfig { path: self.path.clone() }
    }

    /// Saves the configuration.
    pub fn update(&self) -> (task: Task)
        ensures
            task@ == (TaskModel::SaveConfig { path: self@ }),
    {
        self.write_config()
    }

    /// The install directory to fall back on: the usual one, provided the
    /// settings files were seen there.
    pub fn try_cfg(default_seen: Probe) -> (found: Option<String>)
        ensures
            match found {
                Some(install) => spec_try_cfg(default_seen) == Some(install@),
                None => spec_try_cfg(default_seen) is None,
            },
    {
        if default_seen.game && default_seen.settings {
            return Some(String::from_str(Self::default_folder()));
        }
        None
    }
}

} // verus!

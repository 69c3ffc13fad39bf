//! The active settings files, addressed by the game's install directory.

use crate::config::Config;
use crate::error::Error;
use crate::fs::FileOp;
use crate::fs::FileOpModel;
use crate::fs::op_models;
use crate::game_settings::GameSettings;
use crate::game_settings::GameSettingsModel;
use crate::game_settings::Probe;
use crate::text::join;
use crate::text::spec_join;
use vstd::prelude::*;

verus! {

/// The two settings files below an install directory.
#[derive(Debug, Clone, PartialEq, Eq)]
pub struct Cfg {
    /// The primary file, `Config/game.cfg`.
    pub game: String,
    /// The secondary file, `Config/PersistedSettings.json`.
    pub settings: String,
}

impl View for Cfg {
    type V = GameSettingsModel;

    open spec fn view(&self) -> GameSettingsModel {
        GameSettingsModel { game: self.game@, settings: self.settings@ }
    }
}

impl Cfg {
    /// The settings files of the install directory `install`.
    pub open spec fn at(install: Seq<char>) -> GameSettingsModel {
        GameSettings::at(spec_join(install, "Config"@))
    }

    /// The settings files below the install directory `folder_path`,
    /// provided both were seen in its `Config` directory.
    pub fn from_path(folder_path: &str, seen: Probe) -> (found: Result<Cfg, Error>)
        ensures
            match found {
                Ok(files) => seen.game && seen.settings && files@ == Self::at(folder_path@),
                Err(error) => error == Error::WrongPath && !(seen.game && seen.settings),
            },
    {
        let folder_path = join(folder_path, "Config");
        let game = join(folder_path.as_str(), "game.cfg");
        let settings = join(folder_path.as_str(), "PersistedSettings.json");
        if seen.game && seen.settings {
            return Ok(Cfg { game, settings });
        }
        Err(Error::WrongPath)
    }

    /// The settings files below the configured install directory. `seen` is
    /// what was found in its `Config` directory.
    pub fn from_config(config: &Config, seen: Probe) -> (found: Result<Cfg, Error>)
        ensures
            match found {
                Ok(files) => config@ is Some && seen.game && seen.settings && files@ == Self::at(
                    config@->0,
                ),
                Err(error) => match config@ {
                    Some(_) => error == Error::WrongPath && !(seen.game && seen.settings),
                    None => error == Error::MissingPath,
                },
            },
    {
        match config.path() {
            Some(install) => Self::from_path(install.as_str(), seen),
            None => Err(Error::MissingPath),
        }
    }

    fn set_readonly_path(path: &String, value: bool) -> (op: FileOp)
        ensures
            op@ == (FileOpModel::SetReadonly { path: path@, value }),
    {
        FileOp::SetReadonly { path: path.clone(), value }
    }

    /// Sets or clears the read-only attribute on both files, the primary
    /// file first.
    pub fn set_readonly(&self, value: bool) -> (ops: Vec<FileOp>)
        ensures
            op_models(ops@) == GameSettings::spec_set_readonly(self@, value),
    {
        let mut ops: Vec<FileOp> = Vec::new();
        ops.push(Self::set_readonly_path(&self.game, value));
        ops.push(Self::set_readonly_path(&self.settings, value));
        ops
    }
}

} // verus!

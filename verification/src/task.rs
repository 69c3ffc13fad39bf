//! What the application core asks its surroundings to do.

use crate::fs::op_models;
use crate::fs::FileOp;
use crate::fs::FileOpModel;
use crate::message::Swap;
use crate::message::SwapModel;
use crate::profile::Profile;
use crate::profile::ProfileModel;
use crate::settings::Settings;
use crate::settings::SettingsModel;
use vstd::prelude::*;

verus! {

/// One piece of follow-up work. The core never blocks: it returns tasks, the
/// caller carries them out, and a task that has an outcome reports it back
/// as a later message.
#[derive(Debug, Clone, PartialEq, Eq)]
pub enum Task {
    /// Let the user pick the install directory; answered by `SetLocation`.
    FindLocation,
    /// Let the user pick an archive to import; answered by `SetImport`.
    PickImport,
    /// Let the user pick where to export the profile; answered by `SetExport`.
    PickExport(Profile),
    /// Carry out one operation on the disk.
    File(FileOp),
    /// Put a profile's files in place: carry the operations out in order and
    /// stop at the first that fails; answered by `Swapped`, which says whether
    /// all of them succeeded.
    Swap { swap: Swap, ops: Vec<FileOp> },
    /// Persist the application configuration.
    SaveConfig { path: Option<String> },
    /// Persist a profile's sidecar at `path`.
    SaveSettings { path: String, settings: Settings },
    /// Put a link on the clipboard.
    CopyToClipboard(String),
    /// Upload a blob to the paste service; answered by `PostLink` or
    /// `PostLinkError`.
    Post { content: String, profile: String },
    /// Download a blob from `url`; answered by `AddProfileFromString` or
    /// `FetchError`.
    Fetch { url: String },
}

/// A [`Task`] as a mathematical value.
pub enum TaskModel {
    FindLocation,
    PickImport,
    PickExport(ProfileModel),
    File(FileOpModel),
    Swap { swap: SwapModel, ops: Seq<FileOpModel> },
    SaveConfig { path: Option<Seq<char>> },
    SaveSettings { path: Seq<char>, settings: SettingsModel },
    CopyToClipboard(Seq<char>),
    Post { content: Seq<char>, profile: Seq<char> },
    Fetch { url: Seq<char> },
}

impl View for Task {
    type V = TaskModel;

    open spec fn view(&self) -> TaskModel {
        match *self {
            Task::FindLocation => TaskModel::FindLocation,
            Task::PickImport => TaskModel::PickImport,
            Task::PickExport(profile) => TaskModel::PickExport(profile@),
            Task::File(op) => TaskModel::File(op@),
            Task::Swap { swap, ops } => TaskModel::Swap { swap: swap@, ops: op_models(ops@) },
            Task::SaveConfig { path } => TaskModel::SaveConfig {
                path: match path {
                    Some(install) => Some(install@),
                    None => None,
                },
            },
            Task::SaveSettings { path, settings } => TaskModel::SaveSettings {
                path: path@,
                settings: settings@,
            },
            Task::CopyToClipboard(link) => TaskModel::CopyToClipboard(link@),
            Task::Post { content, profile } => TaskModel::Post {
                content: content@,
                profile: profile@,
            },
            Task::Fetch { url } => TaskModel::Fetch { url: url@ },
        }
    }
}

/// The models of a list of tasks, in order.
pub open spec fn task_models(tasks: Seq<Task>) -> Seq<TaskModel> {
    tasks.map_values(|task: Task| task@)
}

/// The tasks that carry out a list of disk operations, in order.
pub open spec fn file_tasks(ops: Seq<FileOpModel>) -> Seq<TaskModel> {
    ops.map_values(|op: FileOpModel| TaskModel::File(op))
}

} // verus!
